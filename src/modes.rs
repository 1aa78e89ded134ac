use vstd::prelude::*;
use crate::error::{Error, INPUT_ENCODING_FAILURE};

verus! {

/// Code carried by an error when the driver reports a mode value outside the
/// values it documents.
pub const UNEXPECTED_MODE: i32 = 1;

/// Which ADC branch, if any, bypasses the tuner.
#[derive(Clone, Copy, Debug, PartialEq, Eq, Structural)]
pub enum DirectSampling {
    Disabled,
    I,
    Q,
}

impl DirectSampling {
    /// The driver's value for the mode.
    pub open spec fn code(self) -> i32 {
        match self {
            DirectSampling::Disabled => 0,
            DirectSampling::I => 1,
            DirectSampling::Q => 2,
        }
    }

    /// The mode that the driver's value stands for, if any.
    pub open spec fn of_code(code: i32) -> Option<DirectSampling> {
        if code == 0 {
            Some(DirectSampling::Disabled)
        } else if code == 1 {
            Some(DirectSampling::I)
        } else if code == 2 {
            Some(DirectSampling::Q)
        } else {
            None
        }
    }

    pub fn to_native(self) -> (r: i32)
        ensures
            r == self.code(),
    {
        match self {
            DirectSampling::Disabled => 0,
            DirectSampling::I => 1,
            DirectSampling::Q => 2,
        }
    }

    /// Reads the driver's value; one it does not document is an error, not a
    /// fallback mode.
    pub fn from_native(code: i32) -> (r: Result<DirectSampling, Error>)
        ensures
            match DirectSampling::of_code(code) {
                Some(d) => r == Ok::<DirectSampling, Error>(d),
                None => r matches Err(e) && e@ == UNEXPECTED_MODE,
            },
    {
        if code == 0 {
            Ok(DirectSampling::Disabled)
        } else if code == 1 {
            Ok(DirectSampling::I)
        } else if code == 2 {
            Ok(DirectSampling::Q)
        } else {
            Err(Error::new(UNEXPECTED_MODE))
        }
    }
}

/// Encoding a mode and reading it back gives the mode; a value read back
/// encodes to itself.
pub proof fn lemma_direct_sampling_round_trip(d: DirectSampling, code: i32)
    ensures
        DirectSampling::of_code(d.code()) == Some(d),
        DirectSampling::of_code(code) matches Some(e) ==> e.code() == code,
{
}

/// The tuner chip that the device carries.
#[derive(Clone, Copy, Debug, PartialEq, Eq, Structural)]
pub enum Tuner {
    UNKNOWN,
    E4000,
    FC0012,
    FC0013,
    FC2580,
    R820T,
    R828D,
}

impl Tuner {
    /// The driver's value for the tuner.
    pub open spec fn code(self) -> u32 {
        match self {
            Tuner::UNKNOWN => 0,
            Tuner::E4000 => 1,
            Tuner::FC0012 => 2,
            Tuner::FC0013 => 3,
            Tuner::FC2580 => 4,
            Tuner::R820T => 5,
            Tuner::R828D => 6,
        }
    }

    /// The tuner that the driver's value stands for; values it does not
    /// document stand for an unknown tuner.
    pub open spec fn of_code(code: u32) -> Tuner {
        if code == 1 {
            Tuner::E4000
        } else if code == 2 {
            Tuner::FC0012
        } else if code == 3 {
            Tuner::FC0013
        } else if code == 4 {
            Tuner::FC2580
        } else if code == 5 {
            Tuner::R820T
        } else if code == 6 {
            Tuner::R828D
        } else {
            Tuner::UNKNOWN
        }
    }

    pub fn from_native(code: u32) -> (r: Tuner)
        ensures
            r == Tuner::of_code(code),
    {
        match code {
            1 => Tuner::E4000,
            2 => Tuner::FC0012,
            3 => Tuner::FC0013,
            4 => Tuner::FC2580,
            5 => Tuner::R820T,
            6 => Tuner::R828D,
            _ => Tuner::UNKNOWN,
        }
    }
}

/// Each tuner is read back from its own value, and any value beyond the
/// documented ones reads as an unknown tuner.
pub proof fn lemma_tuner_codes(t: Tuner, code: u32)
    ensures
        Tuner::of_code(t.code()) == t,
        code > 6 ==> Tuner::of_code(code) == Tuner::UNKNOWN,
{
}

/// The driver's value for an on/off setting.
pub open spec fn flag_code(on: bool) -> i32 {
    if on { 1 } else { 0 }
}

/// Encodes an on/off setting for the driver.
pub fn native_flag(on: bool) -> (r: i32)
    ensures
        r == flag_code(on),
{
    if on { 1 } else { 0 }
}

/// Reads an on/off setting back from the driver; a value other than 0 or 1
/// is an error.
pub fn flag_from_native(code: i32) -> (r: Result<bool, Error>)
    ensures
        code == 0 ==> r == Ok::<bool, Error>(false),
        code == 1 ==> r == Ok::<bool, Error>(true),
        code != 0 && code != 1 ==> (r matches Err(e) && e@ == UNEXPECTED_MODE),
{
    if code == 0 {
        Ok(false)
    } else if code == 1 {
        Ok(true)
    } else {
        Err(Error::new(UNEXPECTED_MODE))
    }
}

/// Narrows a signed value to the driver's integer width; a value that does
/// not fit has no native form.
pub fn signed_to_native(v: isize) -> (r: Result<i32, Error>)
    ensures
        i32::MIN <= v <= i32::MAX ==> r == Ok::<i32, Error>(v as i32),
        !(i32::MIN <= v <= i32::MAX) ==> (r matches Err(e) && e@ == INPUT_ENCODING_FAILURE),
{
    if v < i32::MIN as isize || v > i32::MAX as isize {
        Err(Error::new(INPUT_ENCODING_FAILURE))
    } else {
        Ok(v as i32)
    }
}

/// Narrows an unsigned value to the driver's integer width; a value that
/// does not fit has no native form.
pub fn unsigned_to_native(v: usize) -> (r: Result<i32, Error>)
    ensures
        v <= i32::MAX ==> r == Ok::<i32, Error>(v as i32),
        v > i32::MAX ==> (r matches Err(e) && e@ == INPUT_ENCODING_FAILURE),
{
    if v > i32::MAX as usize {
        Err(Error::new(INPUT_ENCODING_FAILURE))
    } else {
        Ok(v as i32)
    }
}

} // verus!
