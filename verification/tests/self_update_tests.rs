use pyenv_core::self_update::uninstall::{uninstall_answer, uninstall_confirmation, UninstallStep};
use std::cmp::Ordering;
use pyenv_core::self_update::ordering::compare_release_versions;
use pyenv_core::self_update::versioning::{normalize_tag, parse_semverish};

#[test]
fn normalize_tag_adds_v_prefix_once() {
    assert_eq!(normalize_tag("0.1.8"), "v0.1.8");
    assert_eq!(normalize_tag("v0.1.8"), "v0.1.8");
    assert_eq!(normalize_tag("V0.1.8"), "v0.1.8");
}

#[test]
fn compare_release_versions_honors_semver_ordering() {
    assert!(compare_release_versions("v0.1.9", "v0.1.8").is_gt());
    assert!(compare_release_versions("v0.1.8", "v0.1.8").is_eq());
    assert!(compare_release_versions("v0.1.8", "v0.1.9").is_lt());
    assert!(compare_release_versions("v0.2.0", "v0.1.99").is_gt());
    assert!(compare_release_versions("v0.2.0", "v0.2.0-rc.1").is_gt());
}

#[test]
fn parse_semverish_treats_missing_segments_as_zero() {
    let parsed = parse_semverish("v1.2");
    assert_eq!(parsed.numeric, vec![1, 2]);
    assert_eq!(parsed.pre_release, None);
}

#[test]
fn normalize_tag_is_idempotent_on_examples() {
    for tag in ["1.0", "v2.3.4", "V0.0.1"] {
        let once = normalize_tag(tag);
        assert_eq!(normalize_tag(&once), once);
    }
}

#[test]
fn release_order_is_antisymmetric_on_examples() {
    let pairs = [("v1.2.3", "v1.2.10"), ("v1.0.0-rc.1", "v1.0.0"), ("v3", "v3.0.0")];
    for (a, b) in pairs {
        assert_eq!(compare_release_versions(a, b), compare_release_versions(b, a).reverse());
    }
}

#[test]
fn parse_semverish_keeps_pre_release() {
    let parsed = parse_semverish("v0.2.0-rc.1");
    assert_eq!(parsed.numeric, vec![0, 2, 0]);
    assert_eq!(parsed.pre_release, Some("rc.1".to_string()));
}

#[test]
fn release_order_is_transitive_on_examples() {
    let chain = ["v0.1.9", "v0.2.0-alpha", "v0.2.0-rc.1", "v0.2.0", "v0.2.0.0", "v0.10.0"];
    for (i, a) in chain.iter().enumerate() {
        for (j, b) in chain.iter().enumerate() {
            let expected = if (i, j) == (3, 4) || (i, j) == (4, 3) {
                Ordering::Equal
            } else {
                i.cmp(&j)
            };
            assert_eq!(compare_release_versions(a, b), expected, "{a} vs {b}");
        }
    }
}

#[test]
fn uninstall_needs_a_terminal_or_yes() {
    assert!(matches!(uninstall_confirmation("/r", true, false), UninstallStep::Proceed));
    match uninstall_confirmation("/r", false, false) {
        UninstallStep::Refuse(rep) => {
            assert_eq!(rep.exit_code, 1);
            assert_eq!(rep.stderr, vec!["pyenv: self-uninstall requires confirmation; rerun with `pyenv self-uninstall --yes` for non-interactive use"]);
        },
        _ => panic!("a non-interactive run without --yes is refused"),
    }
    match uninstall_confirmation("/r", false, true) {
        UninstallStep::Ask(q) => assert_eq!(q[1], "Are you sure you want to completely remove /r ? [y/N] "),
        _ => panic!("an interactive run asks"),
    }
    assert!(uninstall_answer(" Yes\n").is_none());
    assert_eq!(uninstall_answer("n").expect("cancelled").stderr, vec!["pyenv: self-uninstall cancelled"]);
}

#[test]
fn release_order_ignores_leading_v_and_pads_with_zeros() {
    assert_eq!(compare_release_versions("1.2", "v1.2.0"), Ordering::Equal);
    assert_eq!(compare_release_versions("V1.2", "1.2"), Ordering::Equal);
    assert_eq!(compare_release_versions("v1.0.0", "v1.0.0-rc.1"), Ordering::Greater);
    assert_eq!(compare_release_versions("v1.0.0-rc.1", "1.0"), Ordering::Less);
}
