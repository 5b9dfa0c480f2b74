use itsylinker::wildcard::is_match;

#[test]
fn star_matches_every_name() {
    assert!(is_match("*", ""));
    assert!(is_match("*", ".text"));
    assert!(is_match("*", ".debug_info"));
    assert!(is_match("*", "anything at all"));
}

#[test]
fn literal_pattern_matches_exactly() {
    assert!(is_match(".bss", ".bss"));
    assert!(!is_match(".bss", ".bss.foo"));
    assert!(!is_match(".bss", ".bs"));
    assert!(!is_match(".bss", "x.bss"));
    assert!(!is_match(".bss", ""));
}

#[test]
fn star_matches_zero_or_more_characters() {
    assert!(is_match(".text*", ".text"));
    assert!(is_match(".text*", ".text.startup"));
    assert!(!is_match(".text*", ".tex"));
    assert!(!is_match(".text*", ".rodata"));
    assert!(is_match("*.o", "a.o"));
    assert!(is_match("a*c", "ac"));
    assert!(is_match("a*c", "abbbc"));
    assert!(!is_match("a*c", "abbb"));
    assert!(is_match("*cat*", "dog_cat_dog"));
}

#[test]
fn question_mark_matches_exactly_one_character() {
    assert!(is_match("c?t", "cat"));
    assert!(is_match("c?t", "cot"));
    assert!(!is_match("c?t", "ct"));
    assert!(!is_match("c?t", "coat"));
    assert!(!is_match("?", ""));
    assert!(!is_match("????", "cat"));
}

#[test]
fn empty_pattern_matches_only_the_empty_name() {
    assert!(is_match("", ""));
    assert!(!is_match("", "a"));
}

#[test]
fn brackets_are_ordinary_characters() {
    assert!(is_match("[ab]", "[ab]"));
    assert!(!is_match("[ab]", "a"));
}

#[test]
fn backtracking_over_several_stars() {
    assert!(is_match("*a*b*c", "xxaxxbxxc"));
    assert!(!is_match("*a*b*c", "xxaxxcxxb"));
    assert!(is_match("**", "abc"));
    assert!(is_match("*?*", "a"));
    assert!(!is_match("*?*", ""));
}
