use airqual::text_line::TextLine;
use airqual::text_line::LINE_CAPACITY;

#[test]
fn a_new_line_is_empty() {
    assert_eq!(TextLine::new().as_str(), "");
}

#[test]
fn push_appends_in_order() {
    let mut line = TextLine::new();
    assert!(line.push('a'));
    assert!(line.push('b'));
    assert!(line.push('\n'));
    assert_eq!(line.as_str(), "ab\n");
}

#[test]
fn push_refuses_what_is_not_ascii() {
    let mut line = TextLine::new();
    assert!(line.push('x'));
    assert!(!line.push('\u{e9}'));
    assert!(!line.push('\u{80}'));
    assert!(line.push('\u{7f}'));
    assert_eq!(line.as_str(), "x\u{7f}");
}

#[test]
fn push_refuses_once_the_line_is_full() {
    let mut line = TextLine::new();
    assert_eq!(LINE_CAPACITY, 128);
    for i in 0..LINE_CAPACITY {
        assert!(line.push('z'), "character {} fits", i);
    }
    assert!(!line.push('z'));
    assert_eq!(line.as_str().len(), 128);
    assert!(line.as_str().chars().all(|c| c == 'z'));
}
