use srfax_sync::phone::PhoneNumber;
use srfax_sync::phone::PhoneNumberError;

#[test]
fn phone_get_sections() {
    let p = PhoneNumber::new(11234567890);

    assert_eq!(p.first_three(), 1);
    assert_eq!(p.second_three(), 123);
    assert_eq!(p.second_last_three(), 456);
    assert_eq!(p.last_four(), 7890);
}

#[test]
fn phone_get_pairs() {
    let p = PhoneNumber::new(11234567890);

    assert_eq!(p.get_pair(0), 90);
    assert_eq!(p.get_pair(1), 78);
    assert_eq!(p.get_pair(2), 56);
    assert_eq!(p.get_pair(3), 34);
    assert_eq!(p.get_pair(4), 12);
    assert_eq!(p.get_pair(5), 01);
    assert_eq!(p.get_pair(6), 00);
}

#[test]
fn phone_number_short() -> Result<(), PhoneNumberError> {
    let s = "123-456-7890";

    let phone: PhoneNumber = s.parse()?;

    assert_eq!(phone, PhoneNumber::new(1234567890));
    assert_eq!(&phone.format_na(), "123-456-7890");

    Ok(())
}

#[test]
fn phone_number_long1() -> Result<(), PhoneNumberError> {
    let s = "1-123-456-7890";

    let phone: PhoneNumber = s.parse()?;

    assert_eq!(phone, PhoneNumber::new(11234567890));
    assert_eq!(&phone.format_na(), "1-123-456-7890");

    Ok(())
}

#[test]
fn phone_number_long2() -> Result<(), PhoneNumberError> {
    let s = "1123-456-7890";

    let phone: PhoneNumber = s.parse()?;

    assert_eq!(phone, PhoneNumber::new(11234567890));
    assert_eq!(&phone.format_na(), "1-123-456-7890");

    Ok(())
}

#[test]
fn phone_number_format_fr() {
    let phone = PhoneNumber::new(11234567890);

    assert_eq!(phone.format_fr(), "00-01-12-34-56-78-90");
}

#[test]
fn phone_number_invalid_char() {
    let s = "1-123-456-abcd";

    let phone: Result<PhoneNumber, PhoneNumberError> = s.parse();

    assert_eq!(phone, Err(PhoneNumberError::InvalidChar));
}

#[test]
fn phone_number_too_many_digits() {
    let s = "12345678901234";

    let phone: Result<PhoneNumber, PhoneNumberError> = s.parse();

    assert_eq!(phone, Err(PhoneNumberError::Range));
}

#[test]
fn phone_number_no_digits() {
    let s = "-+ ";

    let phone: Result<PhoneNumber, PhoneNumberError> = s.parse();

    assert_eq!(phone, Err(PhoneNumberError::Parse));
}

#[test]
fn phone_number_separators_dropped() -> Result<(), PhoneNumberError> {
    let phone: PhoneNumber = "+1 123 456 7890".parse()?;

    assert_eq!(phone, PhoneNumber::new(11234567890));

    Ok(())
}

#[test]
fn phone_format_na_without_country_code() {
    let p = PhoneNumber::new(987654321);

    assert_eq!(&p.format_na(), "098-765-4321");
}
