use rustdoc_loader::nesting::{measure_nesting, MAX_NESTING};

#[test]
fn text_without_brackets_has_no_nesting() {
    assert_eq!(measure_nesting(b""), 0);
    assert_eq!(measure_nesting(b"30"), 0);
    assert_eq!(measure_nesting(b"\"text\""), 0);
    assert_eq!(measure_nesting(b"  null \n"), 0);
}

#[test]
fn brackets_are_counted_by_their_depth() {
    assert_eq!(measure_nesting(b"[]"), 1);
    assert_eq!(measure_nesting(b"{}"), 1);
    assert_eq!(measure_nesting(b"[[]]"), 2);
    assert_eq!(measure_nesting(b"[[],[],[]]"), 2);
    assert_eq!(measure_nesting(b"{\"a\":[{\"b\":[]}]}"), 4);
    assert_eq!(measure_nesting(b"[[[]],[[[[]]]],[]]"), 5);
}

#[test]
fn brackets_inside_strings_are_text() {
    assert_eq!(measure_nesting(b"\"[[[{{{\""), 0);
    assert_eq!(measure_nesting(b"[\"]\"]"), 1);
    assert_eq!(measure_nesting(b"[\"[[[\", {\"{\": \"}\"}]"), 2);
}

#[test]
fn escaped_quote_does_not_end_a_string() {
    assert_eq!(measure_nesting(b"[\"\\\"[[[[\"]"), 1);
    assert_eq!(measure_nesting(b"[\"\\\\\", [[]]]"), 3);
    assert_eq!(measure_nesting(b"[\"\\\\\\\"[[\"]"), 1);
}

#[test]
fn unbalanced_text_is_measured_without_failing() {
    assert_eq!(measure_nesting(b"]]]["), 1);
    assert_eq!(measure_nesting(b"[[["), 3);
    assert_eq!(measure_nesting(b"}{}{"), 1);
    assert_eq!(measure_nesting(b"\"[["), 0);
}

#[test]
fn deep_text_is_measured_exactly() {
    let mut text = vec![b'['; 5000];
    text.extend(vec![b']'; 5000]);
    assert_eq!(measure_nesting(&text), 5000);
    assert_eq!(MAX_NESTING, 127);
}
