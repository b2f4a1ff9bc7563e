use rdkit::{from_engine, ROMolError};

#[test]
fn empty_handle_is_an_unknown_conversion_error() {
    let outcome: Result<Option<u8>, String> = Ok(None);
    assert_eq!(from_engine(outcome).err(), Some(ROMolError::UnknownConversionError));
}

#[test]
fn thrown_message_is_kept_verbatim() {
    let msg = "Explicit valence for atom # 0 F, 5, is greater than permitted";
    let outcome: Result<Option<u8>, String> = Err(msg.to_string());
    assert_eq!(
        from_engine(outcome).err(),
        Some(ROMolError::ConversionException(
            "Explicit valence for atom # 0 F, 5, is greater than permitted".to_string()
        ))
    );
}

#[test]
fn handle_is_passed_on() {
    let outcome: Result<Option<u8>, String> = Ok(Some(7));
    assert_eq!(from_engine(outcome), Ok(7));
}

#[test]
fn error_variants_are_told_apart() {
    let unknown = ROMolError::UnknownConversionError;
    let a = ROMolError::ConversionException("a".to_string());
    let b = ROMolError::ConversionException("b".to_string());
    assert_ne!(unknown, a);
    assert_ne!(a, b);
    assert_eq!(a.clone(), a);
    assert_eq!(unknown.clone(), unknown);
}
