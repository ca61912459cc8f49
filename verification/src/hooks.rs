//! What hook scripts ask for: environment overrides (`ENV:KEY=VALUE` lines) and plain output
//! lines that stand in for a command's own answer.
use vstd::prelude::*;

use crate::strings::{chars_of, lines, lower_seq, starts_with, starts_with_str, string_from, eq_ignore_case};

verus! {

broadcast use vstd::string::group_string_axioms;

/// The parsed output of the hook scripts of one command.
pub struct HookActions {
    /// `KEY=VALUE` pairs, in output order.
    pub env_pairs: Vec<(String, String)>,
    /// Every other output line, in output order.
    pub passthrough_lines: Vec<String>,
}

/// The position of the first `=` in `s`.
pub open spec fn first_eq(s: Seq<char>) -> Option<int> {
    if exists|i: int| 0 <= i < s.len() && s[i] == '=' {
        Some(choose|i: int| 0 <= i < s.len() && s[i] == '=' && forall|j: int| 0 <= j < i ==> s[j] != '=')
    } else {
        None
    }
}

/// An `ENV:KEY=VALUE` line as its pair.
pub open spec fn env_line(l: Seq<char>) -> Option<(Seq<char>, Seq<char>)> {
    if starts_with(l, "ENV:"@) {
        let rest = l.skip(4);
        match first_eq(rest) {
            Some(i) => Some((rest.take(i), rest.skip(i + 1))),
            None => None,
        }
    } else {
        None
    }
}

/// The pairs and the other lines of hook output, in order.
pub open spec fn hook_actions_of(ls: Seq<Seq<char>>) -> (Seq<(Seq<char>, Seq<char>)>, Seq<Seq<char>>)
    decreases ls.len(),
{
    if ls.len() == 0 {
        (seq![], seq![])
    } else {
        let (pairs, rest) = hook_actions_of(ls.drop_last());
        match env_line(ls.last()) {
            Some(p) => (pairs.push(p), rest),
            None => (pairs, rest.push(ls.last())),
        }
    }
}

/// Name/value pairs as texts.
pub open spec fn pair_views(v: Seq<(String, String)>) -> Seq<(Seq<char>, Seq<char>)> {
    v.map_values(|p: (String, String)| (p.0@, p.1@))
}

fn split_env_line(line: &str) -> (r: Option<(String, String)>)
    ensures
        match r {
            Some(p) => env_line(line@) == Some((p.0@, p.1@)),
            None => env_line(line@) is None,
        },
{
    proof {
        reveal_strlit("ENV:");
    }
    if !starts_with_str(line, "ENV:") {
        return None;
    }
    let v = chars_of(line);
    let ghost rest = line@.skip(4);
    let mut i: usize = 4;
    while i < v.len() && v[i] != '='
        invariant
            4 <= i <= v@.len(),
            v@ == line@,
            rest == line@.skip(4),
            forall|j: int| 0 <= j < i - 4 ==> rest[j] != '=',
        decreases v.len() - i,
    {
        i = i + 1;
    }
    if i == v.len() {
        return None;
    }
    let key = string_from(&v, 4, i);
    let value = string_from(&v, i + 1, v.len());
    proof {
        let k = (i - 4) as int;
        assert(rest[k] == '=');
        let c = choose|c: int| 0 <= c < rest.len() && rest[c] == '=' && forall|j: int| 0 <= j < c ==> rest[j] != '=';
        assert(c == k);
        assert(key@ =~= rest.take(k));
        assert(value@ =~= rest.skip(k + 1));
    }
    Some((key, value))
}

/// Sorts hook output lines into environment pairs and other lines.
pub fn parse_hook_actions(output: &Vec<String>) -> (r: HookActions)
    ensures
        pair_views(r.env_pairs@) == hook_actions_of(lines(output@)).0,
        lines(r.passthrough_lines@) == hook_actions_of(lines(output@)).1,
{
    let mut env_pairs: Vec<(String, String)> = Vec::new();
    let mut passthrough_lines: Vec<String> = Vec::new();
    let mut i: usize = 0;
    while i < output.len()
        invariant
            i <= output@.len(),
            pair_views(env_pairs@) == hook_actions_of(lines(output@).take(i as int)).0,
            lines(passthrough_lines@) == hook_actions_of(lines(output@).take(i as int)).1,
        decreases output.len() - i,
    {
        assert(lines(output@).take(i + 1).drop_last() =~= lines(output@).take(i as int));
        assert(lines(output@).take(i + 1).last() == output@[i as int]@);
        match split_env_line(output[i].as_str()) {
            Some(p) => {
                let ghost before = pair_views(env_pairs@);
                let ghost pv = (p.0@, p.1@);
                env_pairs.push(p);
                assert(pair_views(env_pairs@) =~= before.push(pv));
            },
            None => {
                let ghost before = lines(passthrough_lines@);
                passthrough_lines.push(output[i].clone());
                assert(lines(passthrough_lines@) =~= before.push(output@[i as int]@));
            },
        }
        i = i + 1;
    }
    assert(lines(output@).take(output@.len() as int) =~= lines(output@));
    HookActions { env_pairs, passthrough_lines }
}

/// The value a hook gave for `key` (compared ignoring ASCII case), else its first non-empty
/// plain line.
pub open spec fn hook_override(pairs: Seq<(Seq<char>, Seq<char>)>, other: Seq<Seq<char>>, key: Seq<char>) -> Option<Seq<char>> {
    if exists|i: int| 0 <= i < pairs.len() && lower_seq(pairs[i].0) == lower_seq(key) {
        let i = choose|i: int|
            0 <= i < pairs.len() && lower_seq(pairs[i].0) == lower_seq(key) && forall|j: int|
                0 <= j < i ==> lower_seq(#[trigger] pairs[j].0) != lower_seq(key);
        Some(pairs[i].1)
    } else if exists|i: int| 0 <= i < other.len() && other[i].len() > 0 {
        let i = choose|i: int|
            0 <= i < other.len() && other[i].len() > 0 && forall|j: int| 0 <= j < i ==> (#[trigger] other[j]).len() == 0;
        Some(other[i])
    } else {
        None
    }
}

/// The override a hook gave for `key`, if any.
pub fn find_hook_override(actions: &HookActions, key: &str) -> (r: Option<String>)
    ensures
        match r {
            Some(v) => hook_override(pair_views(actions.env_pairs@), lines(actions.passthrough_lines@), key@) == Some(v@),
            None => hook_override(pair_views(actions.env_pairs@), lines(actions.passthrough_lines@), key@) is None,
        },
{
    let ghost pairs = pair_views(actions.env_pairs@);
    let ghost other = lines(actions.passthrough_lines@);
    let mut i: usize = 0;
    while i < actions.env_pairs.len()
        invariant
            i <= actions.env_pairs@.len(),
            pairs == pair_views(actions.env_pairs@),
            forall|j: int| 0 <= j < i ==> lower_seq(#[trigger] pairs[j].0) != lower_seq(key@),
        decreases actions.env_pairs.len() - i,
    {
        if eq_ignore_case(actions.env_pairs[i].0.as_str(), key) {
            proof {
                assert(pairs[i as int].0 == actions.env_pairs@[i as int].0@);
                let c = choose|c: int|
                    0 <= c < pairs.len() && lower_seq(pairs[c].0) == lower_seq(key@) && forall|j: int|
                        0 <= j < c ==> lower_seq(#[trigger] pairs[j].0) != lower_seq(key@);
                assert(c == i);
            }
            return Some(actions.env_pairs[i].1.clone());
        }
        assert(pairs[i as int].0 == actions.env_pairs@[i as int].0@);
        i = i + 1;
    }
    let mut k: usize = 0;
    while k < actions.passthrough_lines.len()
        invariant
            k <= actions.passthrough_lines@.len(),
            other == lines(actions.passthrough_lines@),
            pairs == pair_views(actions.env_pairs@),
            !(exists|i: int| 0 <= i < pairs.len() && lower_seq(pairs[i].0) == lower_seq(key@)),
            forall|j: int| 0 <= j < k ==> (#[trigger] other[j]).len() == 0,
        decreases actions.passthrough_lines.len() - k,
    {
        assert(other[k as int] == actions.passthrough_lines@[k as int]@);
        if !actions.passthrough_lines[k].as_str().is_empty() {
            proof {
                let c = choose|c: int|
                    0 <= c < other.len() && other[c].len() > 0 && forall|j: int| 0 <= j < c ==> (#[trigger] other[j]).len() == 0;
                assert(c == k);
            }
            return Some(actions.passthrough_lines[k].clone());
        }
        k = k + 1;
    }
    None
}

} // verus!
