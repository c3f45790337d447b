use rym_bridge::normalize::{keep_alphanumeric, normalize, strip_bracketed};

#[test]
fn normalize_drops_brackets_case_and_punctuation() {
    assert_eq!(normalize("The Beatles (Remastered)"), normalize("TheBeatles"));
    assert_eq!(normalize("The Beatles (Remastered)"), "thebeatles");
    assert_eq!(normalize("OK Computer [OKNOTOK 1997 2017]"), "okcomputer");
    assert_eq!(normalize("AC/DC"), "acdc");
}

#[test]
fn normalize_is_idempotent() {
    for s in ["The Beatles (Remastered)", "Sigur Rós – ( )", "Björk [Live] (Deluxe", "", "))abc(("] {
        let once = normalize(s);
        assert_eq!(normalize(&once), once);
    }
}

#[test]
fn unbalanced_bracket_removes_the_rest() {
    assert_eq!(strip_bracketed("abc (def"), "abc ");
    assert_eq!(strip_bracketed("a) b"), "a b");
    assert_eq!(strip_bracketed("a ((b) c) d"), "a  d");
    assert_eq!(strip_bracketed("x [y) z"), "x  z");
}

#[test]
fn keep_alphanumeric_keeps_letters_and_digits() {
    assert_eq!(keep_alphanumeric("a-b c_9!é"), "abc9é");
    assert_eq!(keep_alphanumeric(""), "");
}
