use gitpop::diff::{combine_diff, DIFF_LIMIT};

const MARKER: &str = "\n... [Diff truncated due to length limitations]";

#[test]
fn unstaged_comes_before_staged() {
    assert_eq!(combine_diff("unstaged\n", "staged\n"), "unstaged\nstaged\n");
    assert_eq!(combine_diff("", "staged"), "staged");
    assert_eq!(combine_diff("unstaged", ""), "unstaged");
    assert_eq!(combine_diff("", ""), "");
}

#[test]
fn limit_is_eight_thousand() {
    assert_eq!(DIFF_LIMIT, 8000);
}

#[test]
fn a_diff_at_the_limit_is_kept_whole() {
    let a = "a".repeat(5000);
    let b = "b".repeat(3000);
    assert_eq!(combine_diff(&a, &b), format!("{a}{b}"));
    let whole = "x".repeat(8000);
    assert_eq!(combine_diff(&whole, ""), whole);
    assert_eq!(combine_diff("", &whole), whole);
}

#[test]
fn a_diff_over_the_limit_is_cut_and_marked() {
    let a = "a".repeat(5000);
    let b = "b".repeat(3001);
    let out = combine_diff(&a, &b);
    assert_eq!(out.chars().count(), 8000 + MARKER.chars().count());
    assert_eq!(out.len(), 8047);
    assert_eq!(out, format!("{}{}{}", a, "b".repeat(3000), MARKER));
    assert!(format!("{a}{b}").starts_with(&out[..8000]));
    assert!(out.ends_with(MARKER));
}

#[test]
fn a_long_unstaged_diff_hides_the_staged_one() {
    let a = "a".repeat(9000);
    let out = combine_diff(&a, "staged");
    assert_eq!(out, format!("{}{}", "a".repeat(8000), MARKER));
}

#[test]
fn a_long_staged_diff_is_cut_after_the_unstaged_one() {
    let b = "b".repeat(9000);
    let out = combine_diff("head", &b);
    assert_eq!(out, format!("head{}{}", "b".repeat(7996), MARKER));
}

#[test]
fn the_limit_counts_characters() {
    let a = "é".repeat(8000);
    assert_eq!(combine_diff(&a, ""), a);
    let out = combine_diff(&a, "z");
    assert_eq!(out, format!("{a}{MARKER}"));
    assert_eq!(out.chars().count(), 8000 + 47);
}
