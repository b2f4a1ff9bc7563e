use vstd::prelude::*;

verus! {

/// Why text could not be turned into a molecule.
#[derive(Clone, Debug)]
pub enum ROMolError {
    /// The engine gave back no molecule and no message.
    UnknownConversionError,
    /// The engine refused the structure, with this message, kept verbatim.
    ConversionException(String),
}

impl PartialEq for ROMolError {
    fn eq(&self, other: &ROMolError) -> (r: bool) {
        match (self, other) {
            (ROMolError::UnknownConversionError, ROMolError::UnknownConversionError) => true,
            (ROMolError::ConversionException(a), ROMolError::ConversionException(b)) => *a == *b,
            _ => false,
        }
    }
}

impl vstd::std_specs::cmp::PartialEqSpecImpl for ROMolError {
    open spec fn obeys_eq_spec() -> bool {
        true
    }

    open spec fn eq_spec(&self, other: &ROMolError) -> bool {
        match (self, other) {
            (ROMolError::UnknownConversionError, ROMolError::UnknownConversionError) => true,
            (ROMolError::ConversionException(a), ROMolError::ConversionException(b)) => a@ == b@,
            _ => false,
        }
    }
}

/// What the engine handed back from a conversion, read as a typed result: a
/// message that it threw becomes `ConversionException` with that message; an
/// empty handle, which it gives for text it cannot read at all, becomes
/// `UnknownConversionError`; a handle is passed on.
pub fn from_engine<H>(outcome: Result<Option<H>, String>) -> (r: Result<H, ROMolError>)
    ensures
        outcome matches Ok(Some(h)) ==> r == Ok::<H, ROMolError>(h),
        outcome matches Ok(None) ==> r == Err::<H, ROMolError>(ROMolError::UnknownConversionError),
        outcome matches Err(msg) ==> (r matches Err(ROMolError::ConversionException(m)) && m@
            == msg@),
{
    match outcome {
        Ok(Some(h)) => Ok(h),
        Ok(None) => Err(ROMolError::UnknownConversionError),
        Err(msg) => Err(ROMolError::ConversionException(msg)),
    }
}

} // verus!
