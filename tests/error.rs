use fdcan_driver::error::{curr_error, BusError, LastErrorCode, ProtocolStatus};

fn status(bus_off: bool, error_passive: bool, error_warning: bool, lec: u8) -> ProtocolStatus {
    ProtocolStatus { bus_off, error_passive, error_warning, last_error_code: lec }
}

#[test]
fn last_error_code_decodes_three_bits() {
    assert_eq!(LastErrorCode::from_bits(0), Some(LastErrorCode::NoError));
    assert_eq!(LastErrorCode::from_bits(1), Some(LastErrorCode::StuffError));
    assert_eq!(LastErrorCode::from_bits(2), Some(LastErrorCode::FormError));
    assert_eq!(LastErrorCode::from_bits(3), Some(LastErrorCode::AckError));
    assert_eq!(LastErrorCode::from_bits(4), Some(LastErrorCode::Bit1Error));
    assert_eq!(LastErrorCode::from_bits(5), Some(LastErrorCode::Bit0Error));
    assert_eq!(LastErrorCode::from_bits(6), Some(LastErrorCode::CRCError));
    assert_eq!(LastErrorCode::from_bits(7), Some(LastErrorCode::NoChange));
    assert_eq!(LastErrorCode::from_bits(8), None);
}

#[test]
fn bus_error_from_last_error_code() {
    assert_eq!(BusError::try_from(LastErrorCode::AckError), Some(BusError::Acknowledge));
    assert_eq!(BusError::try_from(LastErrorCode::Bit0Error), Some(BusError::BitRecessive));
    assert_eq!(BusError::try_from(LastErrorCode::Bit1Error), Some(BusError::BitDominant));
    assert_eq!(BusError::try_from(LastErrorCode::CRCError), Some(BusError::Crc));
    assert_eq!(BusError::try_from(LastErrorCode::FormError), Some(BusError::Form));
    assert_eq!(BusError::try_from(LastErrorCode::StuffError), Some(BusError::Stuff));
    assert_eq!(BusError::try_from(LastErrorCode::NoError), None);
    assert_eq!(BusError::try_from(LastErrorCode::NoChange), None);
}

#[test]
fn classification_priority() {
    assert_eq!(curr_error(status(true, true, true, 3)), Some(BusError::BusOff));
    assert_eq!(curr_error(status(false, true, true, 3)), Some(BusError::BusPassive));
    assert_eq!(curr_error(status(false, false, true, 3)), Some(BusError::BusWarning));
    assert_eq!(curr_error(status(false, false, false, 3)), Some(BusError::Acknowledge));
    assert_eq!(curr_error(status(false, false, false, 6)), Some(BusError::Crc));
}

#[test]
fn classification_no_error() {
    assert_eq!(curr_error(status(false, false, false, 0)), None);
    assert_eq!(curr_error(status(false, false, false, 7)), None);
    assert_eq!(curr_error(status(false, false, false, 9)), None);
}

#[test]
fn bus_off_beats_every_last_error_code() {
    for lec in 0..=255u8 {
        assert_eq!(curr_error(status(true, false, false, lec)), Some(BusError::BusOff));
    }
}
