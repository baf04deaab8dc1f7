use virtual_branches::{Hunk, HunkError};

#[test]
fn to_from_string() {
    let hunk = Hunk::try_from("1-2").unwrap();
    assert_eq!("1-2", hunk.to_string());
}

#[test]
fn parse_invalid() {
    assert!(Hunk::try_from("3-2-garbage").is_err());
}

#[test]
fn parse_invalid_2() {
    assert!(Hunk::try_from("3-2").is_err());
}

#[test]
fn new_accepts_ordered_lines() {
    let hunk = Hunk::new(3, 7).unwrap();
    assert_eq!(hunk.to_string(), "3-7");
    assert_eq!(Hunk::new(4, 4).unwrap().to_string(), "4-4");
}

#[test]
fn new_refuses_reversed_lines() {
    assert_eq!(Hunk::new(8, 2), Err(HunkError::InvalidRange { start: 8, end: 2 }));
}

#[test]
fn contains_checks_both_bounds() {
    let hunk = Hunk::new(3, 7).unwrap();
    assert!(!hunk.contains(&2));
    assert!(hunk.contains(&3));
    assert!(hunk.contains(&5));
    assert!(hunk.contains(&7));
    assert!(!hunk.contains(&8));
}

#[test]
fn intersects_overlapping_and_nested() {
    let a = Hunk::new(1, 5).unwrap();
    let b = Hunk::new(5, 9).unwrap();
    let c = Hunk::new(2, 3).unwrap();
    let d = Hunk::new(6, 9).unwrap();
    assert!(a.intersects(&b));
    assert!(b.intersects(&a));
    assert!(a.intersects(&c));
    assert!(c.intersects(&a));
    assert!(!a.intersects(&d));
    assert!(!d.intersects(&a));
    assert!(a.intersects(&a));
}

#[test]
fn intersects_reversed_hunk_without_common_line() {
    // A hunk built from a reversed range holds no line, yet it touches a
    // hunk that holds one of its bounds.
    let reversed = Hunk::from(5..=1);
    let wide = Hunk::new(0, 10).unwrap();
    assert!(!reversed.contains(&3));
    assert!(wide.intersects(&reversed));
}

#[test]
fn from_range_keeps_bounds() {
    assert_eq!(Hunk::from(3..=5), Hunk::new(3, 5).unwrap());
    assert_eq!(Hunk::from(2..=9).to_string(), "2-9");
}

#[test]
fn parse_reports_each_error() {
    assert_eq!(Hunk::try_from("a-2"), Err(HunkError::InvalidStart("a-2")));
    assert_eq!(Hunk::try_from(""), Err(HunkError::InvalidStart("")));
    assert_eq!(Hunk::try_from("-2"), Err(HunkError::InvalidStart("-2")));
    assert_eq!(Hunk::try_from("5"), Err(HunkError::MissingEnd("5")));
    assert_eq!(Hunk::try_from("1-x"), Err(HunkError::InvalidEnd("1-x")));
    assert_eq!(Hunk::try_from("1-"), Err(HunkError::InvalidEnd("1-")));
    assert_eq!(Hunk::try_from("1- 2"), Err(HunkError::InvalidEnd("1- 2")));
    assert_eq!(Hunk::try_from("3-2"), Err(HunkError::InvalidRange { start: 3, end: 2 }));
}

#[test]
fn parse_reads_like_usize_from_str() {
    assert_eq!(Hunk::try_from("+1-+2").unwrap().to_string(), "1-2");
    assert_eq!(Hunk::try_from("007-010").unwrap().to_string(), "7-10");
    assert_eq!(Hunk::try_from("+-2"), Err(HunkError::InvalidStart("+-2")));
    assert_eq!(
        Hunk::try_from("99999999999999999999999999-1"),
        Err(HunkError::InvalidStart("99999999999999999999999999-1"))
    );
}

#[test]
fn parse_ignores_pieces_after_the_second() {
    assert_eq!(Hunk::try_from("1-2-garbage").unwrap().to_string(), "1-2");
}

#[test]
fn text_round_trips() {
    for (start, end) in [(0usize, 0usize), (9, 10), (123, 45678), (usize::MAX, usize::MAX)] {
        let hunk = Hunk::new(start, end).unwrap();
        let text = hunk.to_string();
        assert_eq!(text, format!("{}-{}", start, end));
        assert_eq!(Hunk::try_from(text.as_str()).unwrap(), hunk);
    }
}

#[test]
fn error_messages() {
    assert_eq!(Hunk::new(3, 2).unwrap_err().message(), "invalid range: 3-2");
    assert_eq!(Hunk::try_from("3-2").unwrap_err().message(), "invalid range: 3-2");
    assert_eq!(
        Hunk::try_from("a-2").unwrap_err().message(),
        "failed to parse start of range: a-2"
    );
    assert_eq!(Hunk::try_from("5").unwrap_err().message(), "invalid range: 5");
    assert_eq!(
        Hunk::try_from("1-x-3").unwrap_err().message(),
        "failed to parse end of range: 1-x-3"
    );
}
