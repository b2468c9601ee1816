use pmo_backend::error::ErrorKind;
use pmo_backend::value_objects::PasswordValidator;

#[test]
fn test_valid_password() {
    assert!(PasswordValidator::validate("Password1!").is_ok());
    assert!(PasswordValidator::validate("MyStr0ng@Pass").is_ok());
}

#[test]
fn test_too_short() {
    assert!(PasswordValidator::validate("Pass1!").is_err());
}

#[test]
fn test_no_uppercase() {
    assert!(PasswordValidator::validate("password1!").is_err());
}

#[test]
fn test_no_lowercase() {
    assert!(PasswordValidator::validate("PASSWORD1!").is_err());
}

#[test]
fn test_no_digit() {
    assert!(PasswordValidator::validate("Password!").is_err());
}

#[test]
fn test_no_special() {
    assert!(PasswordValidator::validate("Password1").is_err());
}

fn rejection(password: &str) -> String {
    let error = PasswordValidator::validate(password).unwrap_err();
    assert_eq!(error.kind(), ErrorKind::Validation);
    error.message().to_string()
}

#[test]
fn every_rule_has_its_message() {
    assert_eq!(rejection("Pass1!"), "Password must be at least 8 characters long");
    assert_eq!(rejection(&"Aa1!".repeat(33)), "Password must not exceed 128 characters");
    assert_eq!(rejection("password1!"), "Password must contain at least one uppercase letter");
    assert_eq!(rejection("PASSWORD1!"), "Password must contain at least one lowercase letter");
    assert_eq!(rejection("Password!"), "Password must contain at least one digit");
    assert_eq!(rejection("Password1"), "Password must contain at least one special character");
}

#[test]
fn the_rules_are_tried_in_order() {
    assert_eq!(rejection(""), "Password must be at least 8 characters long");
    assert_eq!(rejection("abc"), "Password must be at least 8 characters long");
    assert_eq!(rejection(&"a".repeat(200)), "Password must not exceed 128 characters");
    assert_eq!(rejection("12345678"), "Password must contain at least one uppercase letter");
    assert_eq!(rejection("ABCDEFGH"), "Password must contain at least one lowercase letter");
    assert_eq!(rejection("ABCDefgh"), "Password must contain at least one digit");
}

#[test]
fn the_limits_of_the_length_are_inclusive() {
    assert!(PasswordValidator::validate("Passw0r!").is_ok());
    assert_eq!(rejection("Passw0!"), "Password must be at least 8 characters long");
    let longest = format!("{}{}", "Aa1!", "a".repeat(124));
    assert_eq!(longest.len(), 128);
    assert!(PasswordValidator::validate(&longest).is_ok());
    let too_long = format!("{}{}", "Aa1!", "a".repeat(125));
    assert_eq!(rejection(&too_long), "Password must not exceed 128 characters");
}

#[test]
fn the_length_is_counted_in_bytes() {
    // Four characters of two bytes each, with the rest making eight bytes.
    assert_eq!("Éa1!".len(), 5);
    assert_eq!(rejection("Éa1!"), "Password must be at least 8 characters long");
    // Seven characters, eight bytes.
    assert_eq!("Éabc1!x".chars().count(), 7);
    assert!(PasswordValidator::validate("Éabc1!x").is_ok());
}

#[test]
fn letters_and_digits_outside_ascii() {
    // An upper-case and a lower-case letter that are not ASCII count.
    assert!(PasswordValidator::validate("Éé12345!").is_ok());
    // A digit that is not ASCII does not count as a digit, nor as special.
    assert_eq!(rejection("Passwor\u{0663}\u{0663}"), "Password must contain at least one digit");
    // A space is a special character.
    assert!(PasswordValidator::validate("Pass word1").is_ok());
}
