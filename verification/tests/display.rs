use anerror::displayed;
use anerror::FallibleExt;

#[test]
fn displayed_renders_the_cause() {
    let bad: Result<u8, u32> = Err(404);
    assert_eq!(displayed(bad), Err(String::from("404")));
}

#[test]
fn displayed_passes_a_value_through() {
    let good: Result<u8, u32> = Ok(9);
    assert_eq!(displayed(good), Ok(9));
}

#[test]
fn displayed_cause_is_quoted_by_fail() {
    let parsed: Result<i32, std::num::ParseIntError> = "12a".parse::<i32>();
    let signal = displayed(parsed).fail("Could not read the count").unwrap_err();
    assert_eq!(
        signal.text(),
        "Could not read the count: invalid digit found in string"
    );
}

#[test]
fn displayed_value_is_handed_on_by_fail() {
    let parsed: Result<i32, std::num::ParseIntError> = "12".parse::<i32>();
    assert_eq!(displayed(parsed).fail("Could not read the count").unwrap(), 12);
}
