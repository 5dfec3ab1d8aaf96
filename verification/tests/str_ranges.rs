use range_split::bounds::IndexBounds;
use range_split::str::{
    check_str_range, failure_message, is_valid_range, range_fail, range_fail_internal,
    validate_end_bound, validate_index, validate_next_index, validate_start_bound, InvalidBound,
};
use std::ops::Bound;

const PRIVET: &str = "Привет";

#[test]
fn index_at_start_and_end_is_valid() {
    assert_eq!(validate_index("Hello", 0), Ok(()));
    assert_eq!(validate_index("Hello", 5), Ok(()));
    assert_eq!(validate_index("", 0), Ok(()));
    assert_eq!(validate_index(PRIVET, 0), Ok(()));
    assert_eq!(validate_index(PRIVET, 12), Ok(()));
}

#[test]
fn index_between_characters_is_valid() {
    assert_eq!(validate_index("Hello", 3), Ok(()));
    assert_eq!(validate_index(PRIVET, 2), Ok(()));
    assert_eq!(validate_index(PRIVET, 10), Ok(()));
}

#[test]
fn index_inside_a_character_is_not_a_boundary() {
    assert_eq!(validate_index(PRIVET, 1), Err(InvalidBound::NotCharBoundary));
    assert_eq!(validate_index(PRIVET, 11), Err(InvalidBound::NotCharBoundary));
    assert_eq!(validate_index("a€b", 2), Err(InvalidBound::NotCharBoundary));
    assert_eq!(validate_index("a€b", 3), Err(InvalidBound::NotCharBoundary));
    assert_eq!(validate_index("a€b", 4), Ok(()));
}

#[test]
fn index_past_the_end_is_out_of_buffer() {
    assert_eq!(validate_index("Hello", 6), Err(InvalidBound::OutOfBuffer));
    assert_eq!(validate_index("", 1), Err(InvalidBound::OutOfBuffer));
    assert_eq!(validate_index(PRIVET, 13), Err(InvalidBound::OutOfBuffer));
    assert_eq!(
        validate_index("Hello", usize::MAX),
        Err(InvalidBound::OutOfBuffer)
    );
}

#[test]
fn next_index_checks_one_past_the_index() {
    assert_eq!(validate_next_index("Hello", 0), Ok(()));
    assert_eq!(validate_next_index("Hello", 4), Ok(()));
    assert_eq!(validate_next_index(PRIVET, 1), Ok(()));
    assert_eq!(validate_next_index(PRIVET, 11), Ok(()));
    assert_eq!(
        validate_next_index(PRIVET, 0),
        Err(InvalidBound::NotCharBoundary)
    );
    assert_eq!(
        validate_next_index(PRIVET, 2),
        Err(InvalidBound::NotCharBoundary)
    );
}

#[test]
fn next_index_at_or_past_the_end_is_out_of_buffer() {
    assert_eq!(
        validate_next_index("Hello", 5),
        Err(InvalidBound::OutOfBuffer)
    );
    assert_eq!(validate_next_index("", 0), Err(InvalidBound::OutOfBuffer));
    assert_eq!(
        validate_next_index(PRIVET, 12),
        Err(InvalidBound::OutOfBuffer)
    );
}

#[test]
fn next_index_of_the_greatest_index_does_not_wrap() {
    assert_eq!(
        validate_next_index("Hello", usize::MAX),
        Err(InvalidBound::OutOfBuffer)
    );
    assert_eq!(
        validate_next_index("", usize::MAX),
        Err(InvalidBound::OutOfBuffer)
    );
}

#[test]
fn start_bound_forms() {
    assert_eq!(validate_start_bound(PRIVET, Bound::Unbounded), Ok(()));
    assert_eq!(validate_start_bound(PRIVET, Bound::Included(2)), Ok(()));
    assert_eq!(
        validate_start_bound(PRIVET, Bound::Included(1)),
        Err(InvalidBound::NotCharBoundary)
    );
    assert_eq!(validate_start_bound(PRIVET, Bound::Excluded(1)), Ok(()));
    assert_eq!(
        validate_start_bound(PRIVET, Bound::Excluded(2)),
        Err(InvalidBound::NotCharBoundary)
    );
    assert_eq!(
        validate_start_bound(PRIVET, Bound::Included(13)),
        Err(InvalidBound::OutOfBuffer)
    );
    assert_eq!(
        validate_start_bound(PRIVET, Bound::Excluded(12)),
        Err(InvalidBound::OutOfBuffer)
    );
    assert_eq!(validate_start_bound(PRIVET, Bound::Included(12)), Ok(()));
}

#[test]
fn end_bound_forms() {
    assert_eq!(validate_end_bound(PRIVET, Bound::Unbounded), Ok(()));
    assert_eq!(validate_end_bound(PRIVET, Bound::Excluded(2)), Ok(()));
    assert_eq!(
        validate_end_bound(PRIVET, Bound::Excluded(1)),
        Err(InvalidBound::NotCharBoundary)
    );
    assert_eq!(validate_end_bound(PRIVET, Bound::Included(1)), Ok(()));
    assert_eq!(
        validate_end_bound(PRIVET, Bound::Included(2)),
        Err(InvalidBound::NotCharBoundary)
    );
    assert_eq!(
        validate_end_bound(PRIVET, Bound::Excluded(13)),
        Err(InvalidBound::OutOfBuffer)
    );
    assert_eq!(
        validate_end_bound(PRIVET, Bound::Included(12)),
        Err(InvalidBound::OutOfBuffer)
    );
    assert_eq!(validate_end_bound(PRIVET, Bound::Excluded(12)), Ok(()));
}

#[test]
fn multi_byte_text_boundaries() {
    assert!(!is_valid_range(PRIVET, &(..1)));
    assert!(is_valid_range(PRIVET, &(..0)));
    assert!(is_valid_range(PRIVET, &(..2)));
    assert!(is_valid_range(PRIVET, &(..=1)));
    assert!(!is_valid_range(PRIVET, &(..=0)));
    assert!(is_valid_range(PRIVET, &(2..)));
    assert!(!is_valid_range(PRIVET, &(3..)));
    assert!(is_valid_range(PRIVET, &(..)));
}

#[test]
fn ascii_text_ranges() {
    let s = "Hello";
    assert!(is_valid_range(s, &(..0)));
    assert!(is_valid_range(s, &(5..)));
    assert!(is_valid_range(s, &(..=2)));
    assert!(is_valid_range(s, &(..=4)));
    assert!(!is_valid_range(s, &(..=5)));
    assert!(!is_valid_range(s, &(6..)));
    assert!(is_valid_range(s, &(1..4)));
    assert!(!is_valid_range(s, &(1..6)));
}

#[test]
fn both_bounds_must_be_valid() {
    assert!(is_valid_range(PRIVET, &(2..4)));
    assert!(!is_valid_range(PRIVET, &(1..4)));
    assert!(!is_valid_range(PRIVET, &(2..5)));
    assert!(!is_valid_range(PRIVET, &(2..14)));
    assert!(is_valid_range(
        PRIVET,
        &(Bound::Excluded(1), Bound::Included(3))
    ));
    assert!(!is_valid_range(
        PRIVET,
        &(Bound::Excluded(2), Bound::Included(3))
    ));
}

#[test]
fn validity_does_not_ask_for_start_before_end() {
    assert!(is_valid_range("Hello", &(4..1)));
}

#[test]
fn validation_is_repeatable() {
    let s = String::from(PRIVET);
    let r = ..=3;
    let first = is_valid_range(&s, &r);
    let second = is_valid_range(&s, &r);
    assert_eq!(first, second);
    assert!(first);
    let q = ..3;
    assert_eq!(is_valid_range(&s, &q), is_valid_range(&s, &q));
    assert!(!is_valid_range(&s, &q));
}

#[test]
fn out_of_bounds_is_told_apart_from_a_split_character() {
    let s = "Hello";
    assert!(!is_valid_range(s, &(..6)));
    assert_eq!(
        validate_end_bound(s, (..6).end_bound()),
        Err(InvalidBound::OutOfBuffer)
    );
    assert_eq!(
        range_fail(s, &(..6)),
        "range (Unbounded, Excluded(6)) is out of bounds"
    );
}

#[test]
fn split_character_failure_names_the_range() {
    assert_eq!(
        range_fail(PRIVET, &(..1)),
        "range (Unbounded, Excluded(1)) does not split on a UTF-8 boundary"
    );
    assert_eq!(
        range_fail(PRIVET, &(3..)),
        "range (Included(3), Unbounded) does not split on a UTF-8 boundary"
    );
    assert_eq!(
        range_fail(PRIVET, &(..=2)),
        "range (Unbounded, Included(2)) does not split on a UTF-8 boundary"
    );
}

#[test]
fn out_of_bounds_outweighs_a_split_character() {
    assert_eq!(
        range_fail(PRIVET, &(1..100)),
        "range (Included(1), Excluded(100)) is out of bounds"
    );
    assert_eq!(
        range_fail(PRIVET, &(100..1)),
        "range (Included(100), Excluded(1)) is out of bounds"
    );
    assert_eq!(
        range_fail_internal(PRIVET, Bound::Excluded(12), Bound::Included(0)),
        "range (Excluded(12), Included(0)) is out of bounds"
    );
}

#[test]
fn failure_with_one_valid_bound() {
    assert_eq!(
        range_fail_internal(PRIVET, Bound::Included(2), Bound::Excluded(3)),
        "range (Included(2), Excluded(3)) does not split on a UTF-8 boundary"
    );
    assert_eq!(
        range_fail_internal(PRIVET, Bound::Included(1), Bound::Unbounded),
        "range (Included(1), Unbounded) does not split on a UTF-8 boundary"
    );
    assert_eq!(
        range_fail_internal("", Bound::Unbounded, Bound::Included(usize::MAX)),
        format!(
            "range (Unbounded, Included({})) is out of bounds",
            usize::MAX
        )
    );
}

#[test]
fn failure_message_texts() {
    assert_eq!(
        failure_message(InvalidBound::OutOfBuffer, "(Unbounded, Excluded(6))"),
        "range (Unbounded, Excluded(6)) is out of bounds"
    );
    assert_eq!(
        failure_message(InvalidBound::NotCharBoundary, "..1"),
        "range ..1 does not split on a UTF-8 boundary"
    );
    assert_eq!(
        failure_message(InvalidBound::OutOfBuffer, ""),
        "range  is out of bounds"
    );
}

#[test]
fn bounds_of_range_shapes() {
    assert_eq!(IndexBounds::start_bound(&(..)), Bound::Unbounded);
    assert_eq!(IndexBounds::end_bound(&(..)), Bound::Unbounded);
    assert_eq!(IndexBounds::start_bound(&(3..)), Bound::Included(3));
    assert_eq!(IndexBounds::end_bound(&(3..)), Bound::Unbounded);
    assert_eq!(IndexBounds::start_bound(&(..7)), Bound::Unbounded);
    assert_eq!(IndexBounds::end_bound(&(..7)), Bound::Excluded(7));
    assert_eq!(IndexBounds::start_bound(&(..=7)), Bound::Unbounded);
    assert_eq!(IndexBounds::end_bound(&(..=7)), Bound::Included(7));
    assert_eq!(IndexBounds::start_bound(&(2..9)), Bound::Included(2));
    assert_eq!(IndexBounds::end_bound(&(2..9)), Bound::Excluded(9));
    let pair = (Bound::Excluded(4), Bound::Included(5));
    assert_eq!(IndexBounds::start_bound(&pair), Bound::Excluded(4));
    assert_eq!(IndexBounds::end_bound(&pair), Bound::Included(5));
}

#[test]
fn check_accepts_valid_ranges() {
    assert_eq!(check_str_range("Hello", &(..0)), Ok(()));
    assert_eq!(check_str_range("Hello", &(5..)), Ok(()));
    assert_eq!(check_str_range("Hello", &(..=2)), Ok(()));
    assert_eq!(check_str_range(PRIVET, &(2..10)), Ok(()));
    assert_eq!(check_str_range("", &(0..0)), Ok(()));
    assert_eq!(check_str_range("", &(..)), Ok(()));
}

#[test]
fn check_describes_invalid_ranges() {
    assert_eq!(
        check_str_range(PRIVET, &(..1)),
        Err(String::from(
            "range (Unbounded, Excluded(1)) does not split on a UTF-8 boundary"
        ))
    );
    assert_eq!(
        check_str_range("Hello", &(..6)),
        Err(String::from(
            "range (Unbounded, Excluded(6)) is out of bounds"
        ))
    );
    assert_eq!(
        check_str_range("", &(..=0)),
        Err(String::from(
            "range (Unbounded, Included(0)) is out of bounds"
        ))
    );
}

#[test]
fn check_agrees_with_the_boolean_check() {
    let texts = ["", "Hello", PRIVET, "a€b"];
    for text in texts {
        for index in 0..15usize {
            assert_eq!(
                check_str_range(text, &(..index)).is_ok(),
                is_valid_range(text, &(..index))
            );
            assert_eq!(
                check_str_range(text, &(index..)).is_ok(),
                is_valid_range(text, &(index..))
            );
            assert_eq!(
                check_str_range(text, &(..=index)).is_ok(),
                is_valid_range(text, &(..=index))
            );
            assert_eq!(
                is_valid_range(text, &(..index)),
                text.is_char_boundary(index)
            );
        }
    }
}

#[test]
fn valid_ranges_split_text_into_text() {
    let bytes = PRIVET.as_bytes();
    for start in 0..=12usize {
        for end in start..=12usize {
            let pieces_are_text = std::str::from_utf8(&bytes[start..end]).is_ok()
                && std::str::from_utf8(&bytes[..start]).is_ok()
                && std::str::from_utf8(&bytes[end..]).is_ok();
            assert_eq!(is_valid_range(PRIVET, &(start..end)), pieces_are_text);
        }
    }
}
