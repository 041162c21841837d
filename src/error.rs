use vstd::prelude::*;

verus! {

/// Errors on the CAN bus.
#[derive(Clone, Copy, Debug, PartialEq, Eq, Structural)]
pub enum BusError {
    Stuff,
    Form,
    Acknowledge,
    BitRecessive,
    BitDominant,
    Crc,
    Software,
    BusOff,
    BusPassive,
    BusWarning,
}

/// Last error code field of the protocol status register.
#[derive(Clone, Copy, Debug, PartialEq, Eq, Structural)]
pub enum LastErrorCode {
    NoError,
    StuffError,
    FormError,
    AckError,
    Bit1Error,
    Bit0Error,
    CRCError,
    NoChange,
}

/// The last error code that a 3-bit field value stands for.
pub open spec fn spec_last_error_code(bits: u8) -> Option<LastErrorCode> {
    if bits == 0 {
        Some(LastErrorCode::NoError)
    } else if bits == 1 {
        Some(LastErrorCode::StuffError)
    } else if bits == 2 {
        Some(LastErrorCode::FormError)
    } else if bits == 3 {
        Some(LastErrorCode::AckError)
    } else if bits == 4 {
        Some(LastErrorCode::Bit1Error)
    } else if bits == 5 {
        Some(LastErrorCode::Bit0Error)
    } else if bits == 6 {
        Some(LastErrorCode::CRCError)
    } else if bits == 7 {
        Some(LastErrorCode::NoChange)
    } else {
        None
    }
}

/// The bus error that a last error code reports, if any.
pub open spec fn spec_bus_error_of(lec: LastErrorCode) -> Option<BusError> {
    match lec {
        LastErrorCode::AckError => Some(BusError::Acknowledge),
        LastErrorCode::Bit0Error => Some(BusError::BitRecessive),
        LastErrorCode::Bit1Error => Some(BusError::BitDominant),
        LastErrorCode::CRCError => Some(BusError::Crc),
        LastErrorCode::FormError => Some(BusError::Form),
        LastErrorCode::StuffError => Some(BusError::Stuff),
        _ => None,
    }
}

impl LastErrorCode {
    /// Decodes the 3-bit field; `None` for a value above 7.
    pub fn from_bits(bits: u8) -> (r: Option<LastErrorCode>)
        ensures
            r == spec_last_error_code(bits),
    {
        match bits {
            0 => Some(LastErrorCode::NoError),
            1 => Some(LastErrorCode::StuffError),
            2 => Some(LastErrorCode::FormError),
            3 => Some(LastErrorCode::AckError),
            4 => Some(LastErrorCode::Bit1Error),
            5 => Some(LastErrorCode::Bit0Error),
            6 => Some(LastErrorCode::CRCError),
            7 => Some(LastErrorCode::NoChange),
            _ => None,
        }
    }
}

impl BusError {
    /// The bus error for a last error code; `None` for "no error" and "no change".
    pub fn try_from(lec: LastErrorCode) -> (r: Option<BusError>)
        ensures
            r == spec_bus_error_of(lec),
    {
        match lec {
            LastErrorCode::AckError => Some(BusError::Acknowledge),
            LastErrorCode::Bit0Error => Some(BusError::BitRecessive),
            LastErrorCode::Bit1Error => Some(BusError::BitDominant),
            LastErrorCode::CRCError => Some(BusError::Crc),
            LastErrorCode::FormError => Some(BusError::Form),
            LastErrorCode::StuffError => Some(BusError::Stuff),
            _ => None,
        }
    }
}

/// The error indications of the protocol status register.
#[derive(Clone, Copy, Debug, PartialEq, Eq, Structural)]
pub struct ProtocolStatus {
    pub bus_off: bool,
    pub error_passive: bool,
    pub error_warning: bool,
    /// Raw last error code field.
    pub last_error_code: u8,
}

/// The error that a protocol status reports: bus-off first, then
/// error-passive, then error-warning, then the last error code.
pub open spec fn spec_classify(status: ProtocolStatus) -> Option<BusError> {
    if status.bus_off {
        Some(BusError::BusOff)
    } else if status.error_passive {
        Some(BusError::BusPassive)
    } else if status.error_warning {
        Some(BusError::BusWarning)
    } else {
        match spec_last_error_code(status.last_error_code) {
            Some(lec) => spec_bus_error_of(lec),
            None => None,
        }
    }
}

/// Classifies a protocol status into the error that it reports, if any.
pub fn curr_error(status: ProtocolStatus) -> (r: Option<BusError>)
    ensures
        r == spec_classify(status),
{
    if status.bus_off {
        return Some(BusError::BusOff);
    } else if status.error_passive {
        return Some(BusError::BusPassive);
    } else if status.error_warning {
        return Some(BusError::BusWarning);
    } else {
        if let Some(lec) = LastErrorCode::from_bits(status.last_error_code) {
            return BusError::try_from(lec);
        }
    }
    None
}

/// Bus-off outranks every other indication: with bus-off set, the last
/// error code never decides the classification.
pub proof fn lemma_bus_off_wins(status: ProtocolStatus)
    requires
        status.bus_off,
    ensures
        spec_classify(status) == Some(BusError::BusOff),
        forall|lec: u8|
            spec_classify(ProtocolStatus { last_error_code: lec, ..status }) == Some(
                BusError::BusOff,
            ),
{
}

} // verus!
