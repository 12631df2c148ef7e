use rust_rtl8139::error::{to_result, Error, EINVAL, ENOMEM, ENXIO, MAX_ERRNO};

#[test]
fn from_errno_keeps_valid_codes() {
    assert_eq!(Error::from_errno(-1).to_errno(), -1);
    assert_eq!(Error::from_errno(-12).to_errno(), -12);
    assert_eq!(Error::from_errno(-MAX_ERRNO).to_errno(), -4095);
}

#[test]
fn from_errno_turns_invalid_codes_into_einval() {
    assert_eq!(Error::from_errno(0).to_errno(), EINVAL);
    assert_eq!(Error::from_errno(5).to_errno(), EINVAL);
    assert_eq!(Error::from_errno(-4096).to_errno(), EINVAL);
    assert_eq!(Error::from_errno(i32::MIN).to_errno(), EINVAL);
}

#[test]
fn named_codes() {
    assert_eq!(Error::einval().to_errno(), -22);
    assert_eq!(Error::enomem().to_errno(), ENOMEM);
    assert_eq!(Error::enxio().to_errno(), ENXIO);
    assert_eq!(ENXIO, -6);
    assert_eq!(ENOMEM, -12);
}

#[test]
fn to_result_maps_negative_codes_to_errors() {
    assert_eq!(to_result(0), Ok(()));
    assert_eq!(to_result(7), Ok(()));
    assert_eq!(to_result(-16), Err(Error::from_errno(-16)));
    assert_eq!(to_result(-16).unwrap_err().to_errno(), -16);
    assert_eq!(to_result(-5000).unwrap_err().to_errno(), EINVAL);
}
