use pyenv_core::text::{append_text_block, line_ending_for, normalize_block_eol, strip_utf8_bom, trim_env_value, uses_crlf};

#[test]
fn strip_utf8_bom_removes_prefix() {
    let text = "\u{FEFF}hello";
    assert_eq!(strip_utf8_bom(text), "hello");
    assert_eq!(strip_utf8_bom("hello"), "hello");
}

#[test]
fn trim_env_value_strips_carriage_return() {
    assert_eq!(trim_env_value("3.12.0\r\n".to_string()), "3.12.0");
    assert_eq!(trim_env_value("  bash \r".to_string()), "bash");
}

#[test]
fn append_text_block_preserves_crlf() {
    let existing = "# profile\r\nexport FOO=1\r\n";
    let block = "\n# pyenv-native shell initialization\neval \"$(pyenv init - bash)\"\n";
    let updated = append_text_block(existing.to_string(), block);
    assert!(updated.contains("\r\n"));
    assert!(updated.contains("pyenv init - bash"));
}

#[test]
fn append_text_block_skips_when_already_configured() {
    let existing = "eval \"$(pyenv init - bash)\"\n";
    let block = "\n# pyenv-native shell initialization\neval \"$(pyenv init - zsh)\"\n";
    assert_eq!(append_text_block(existing.to_string(), block), existing);
}

#[test]
fn append_text_block_exact_lf_result() {
    let updated = append_text_block("export A=1".to_string(), "# init\npyenv init\n");
    assert_eq!(updated, "export A=1\n# init\npyenv init\n");
}

#[test]
fn append_text_block_exact_crlf_result() {
    let updated = append_text_block("a\r\n".to_string(), "x\ny\n");
    assert_eq!(updated, "a\r\nx\r\ny\r\n");
}

#[test]
fn line_endings_follow_content() {
    assert!(uses_crlf("a\r\nb"));
    assert!(!uses_crlf("a\nb"));
    assert_eq!(line_ending_for("a\r\nb"), "\r\n");
    assert_eq!(line_ending_for("a\nb"), "\n");
    assert_eq!(normalize_block_eol("x\ny\r\nz", "\r\n"), "x\r\ny\r\nz");
}

#[test]
fn appending_twice_adds_the_block_once() {
    let block = "\neval \"$(pyenv init - bash)\"\n";
    let once = append_text_block("# rc\n".to_string(), block);
    let twice = append_text_block(once.clone(), block);
    assert_eq!(once, twice);
}

#[test]
fn crlf_means_most_line_endings_are_crlf() {
    assert!(!uses_crlf("a\nb\nc\r\n"));
    assert!(uses_crlf("a\r\nb\r\nc\n"));
    assert!(!uses_crlf("a\r\nb\n"));
    assert!(!uses_crlf("no line endings"));
    assert_eq!(line_ending_for("a\nb\nc\r\n"), "\n");
    assert_eq!(append_text_block("a\nb\r\nc\n".to_string(), "x\n"), "a\nb\r\nc\nx\n");
}

#[test]
fn crlf_normalization_round_trips_through_lf() {
    let block = "a\r\nb\nc\r\r\n";
    let lf = block.replace("\r\n", "\n");
    let crlf = normalize_block_eol(block, "\r\n");
    assert_eq!(crlf, "a\r\nb\r\nc\r\r\n");
    for (k, c) in crlf.char_indices() {
        if c == '\n' {
            assert!(k >= 1 && &crlf[k - 1..k] == "\r");
        }
    }
    assert_eq!(crlf.replace("\r\n", "\n"), lf);
    assert_eq!(normalize_block_eol(&crlf, "\r\n"), crlf);
    assert_eq!(normalize_block_eol(block, "\n"), lf);
}

#[test]
fn appending_an_init_block_twice_changes_nothing_more() {
    let block = "# pyenv\neval \"$(pyenv init - bash)\"\n";
    let once = append_text_block("export A=1".to_string(), block);
    assert_eq!(once, "export A=1\n# pyenv\neval \"$(pyenv init - bash)\"\n");
    let twice = append_text_block(once.clone(), block);
    assert_eq!(twice, once);
    let crlf = append_text_block("a\r\nb\r\n".to_string(), block);
    assert_eq!(crlf, "a\r\nb\r\n# pyenv\r\neval \"$(pyenv init - bash)\"\r\n");
    assert_eq!(append_text_block(crlf.clone(), block), crlf);
}
