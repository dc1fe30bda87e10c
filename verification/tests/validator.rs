use error_idioms::failure::Failure;
use error_idioms::validate::step3;
use error_idioms::validate::validate_content;
use error_idioms::validate::EXPECTED_LINES;

#[test]
fn three_good_lines_return_content_unchanged() {
    let content = "one\ntwo\nthree".to_string();
    match validate_content(content.clone()) {
        Ok(c) => assert_eq!(c, content),
        Err(e) => panic!("expected success, got {:?}", e),
    }
}

#[test]
fn revalidating_accepted_content_changes_nothing() {
    let content = "one\ntwo\nthree\n".to_string();
    let accepted = validate_content(content.clone()).expect("accepted");
    assert_eq!(accepted, content);
    let again = validate_content(accepted.clone()).expect("accepted again");
    assert_eq!(again, accepted);
}

#[test]
fn two_lines_rejected_with_count() {
    match validate_content("one\ntwo".to_string()) {
        Err(Failure::ToFewLines(n)) => assert_eq!(n, 2),
        other => panic!("expected ToFewLines(2), got {:?}", other),
    }
}

#[test]
fn four_lines_rejected_with_count() {
    match validate_content("one\ntwo\nthree\nfour".to_string()) {
        Err(Failure::ToManyLines(n)) => assert_eq!(n, 4),
        other => panic!("expected ToManyLines(4), got {:?}", other),
    }
}

#[test]
fn bad_middle_line_rejected_with_index_and_text() {
    match validate_content("good morning\nso bad today\ngood night".to_string()) {
        Err(Failure::InvalidLine(i, l)) => {
            assert_eq!(i, 1);
            assert_eq!(l, "so bad today");
        }
        other => panic!("expected InvalidLine(1, ..), got {:?}", other),
    }
}

#[test]
fn first_bad_line_wins() {
    match validate_content("bad\nalso bad\nfine".to_string()) {
        Err(Failure::InvalidLine(i, l)) => {
            assert_eq!(i, 0);
            assert_eq!(l, "bad");
        }
        other => panic!("expected InvalidLine(0, ..), got {:?}", other),
    }
}

#[test]
fn bad_inside_a_word_is_found() {
    match validate_content("one\ntwo\nabadc".to_string()) {
        Err(Failure::InvalidLine(i, l)) => {
            assert_eq!(i, 2);
            assert_eq!(l, "abadc");
        }
        other => panic!("expected InvalidLine(2, ..), got {:?}", other),
    }
}

#[test]
fn separated_letters_are_not_bad() {
    let content = "b a d\nbda\ndab".to_string();
    assert_eq!(validate_content(content.clone()).expect("accepted"), content);
}

#[test]
fn empty_content_has_no_lines() {
    match validate_content(String::new()) {
        Err(Failure::ToFewLines(n)) => assert_eq!(n, 0),
        other => panic!("expected ToFewLines(0), got {:?}", other),
    }
}

#[test]
fn trailing_newline_opens_no_extra_line() {
    let content = "one\ntwo\nthree\n".to_string();
    assert_eq!(validate_content(content.clone()).expect("accepted"), content);
}

#[test]
fn three_empty_lines_are_accepted() {
    let content = "\n\n\n".to_string();
    assert_eq!(validate_content(content.clone()).expect("accepted"), content);
}

#[test]
fn carriage_return_terminators_are_stripped_from_counting() {
    let content = "one\r\ntwo\r\nthree\r\n".to_string();
    assert_eq!(validate_content(content.clone()).expect("accepted"), content);
}

#[test]
fn bad_before_a_carriage_return_is_found() {
    match validate_content("one\r\nbad\r\nthree\r\n".to_string()) {
        Err(Failure::InvalidLine(i, l)) => {
            assert_eq!(i, 1);
            assert_eq!(l, "bad");
        }
        other => panic!("expected InvalidLine(1, ..), got {:?}", other),
    }
}

#[test]
fn lone_final_carriage_return_stays_on_its_line() {
    let content = "one\ntwo\nthree\r".to_string();
    assert_eq!(validate_content(content.clone()).expect("accepted"), content);
}

#[test]
fn expected_line_count_is_three() {
    assert_eq!(EXPECTED_LINES, 3);
}

#[test]
fn failed_read_maps_to_content_not_found() {
    assert!(matches!(step3(None), Err(Failure::ContentNotFound)));
}

#[test]
fn successful_read_never_maps_to_content_not_found() {
    match step3(Some(String::new())) {
        Err(Failure::ToFewLines(n)) => assert_eq!(n, 0),
        other => panic!("expected ToFewLines(0), got {:?}", other),
    }
    let content = "one\ntwo\nthree".to_string();
    assert_eq!(step3(Some(content.clone())).expect("accepted"), content);
}
