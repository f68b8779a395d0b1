use oci_rs::codes::{
    AttributeType, CredentialsType, DescriptorType, EnvironmentMode, FetchType, HandleType,
    OciDataType, OciNumberType, ReturnCode, StatementType, SyntaxType,
};

#[test]
fn return_codes_from_numbers() {
    assert_eq!(ReturnCode::from_code(0), Some(ReturnCode::Success));
    assert_eq!(ReturnCode::from_code(100), Some(ReturnCode::NoData));
    assert_eq!(ReturnCode::from_code(-1), Some(ReturnCode::Error));
    assert_eq!(ReturnCode::from_code(-2), Some(ReturnCode::InvalidHandle));
    assert_eq!(ReturnCode::from_code(99), None);
}

#[test]
fn handle_types_round_trip_through_their_codes() {
    for handle_type in [
        HandleType::Environment,
        HandleType::Error,
        HandleType::Service,
        HandleType::Statement,
        HandleType::Define,
        HandleType::Server,
        HandleType::Session,
    ] {
        assert_eq!(HandleType::from_code(handle_type.code()), Some(handle_type));
    }
    assert_eq!(HandleType::from_code(5), None);
    assert_eq!(HandleType::Error.describe(), "Error handle");
}

#[test]
fn attribute_and_mode_codes() {
    assert_eq!(EnvironmentMode::Default.code(), 0);
    assert_eq!(EnvironmentMode::Threaded.code(), 1);
    assert_eq!(AttributeType::DataSize.code(), 1);
    assert_eq!(AttributeType::Statement.code(), 24);
    assert_eq!(AttributeType::Parameter.code(), 124);
    assert_eq!(CredentialsType::Rdbms.code(), 1);
    assert_eq!(SyntaxType::Ntv.code(), 1);
    assert_eq!(DescriptorType::Parameter.code(), 53);
    assert_eq!(FetchType::Next.code(), 2);
    assert_eq!(FetchType::First.code(), 4);
    assert_eq!(OciNumberType::Unsigned.code(), 0);
    assert_eq!(OciNumberType::Signed.code(), 2);
}

#[test]
fn data_type_codes_differ_between_declared_and_external() {
    // A timestamp column is declared with the public number but defined
    // with the internal one.
    assert_eq!(OciDataType::from_code(187), Some(OciDataType::SqlTimestamp));
    assert_eq!(OciDataType::SqlTimestamp.code(), 180);
    assert_eq!(OciDataType::from_code(188), Some(OciDataType::SqlTimestampTz));
    assert_eq!(OciDataType::SqlTimestampTz.code(), 181);
    assert_eq!(OciDataType::from_code(1), Some(OciDataType::SqlVarChar));
    assert_eq!(OciDataType::from_code(2), Some(OciDataType::SqlNum));
    assert_eq!(OciDataType::from_code(96), Some(OciDataType::SqlChar));
    assert_eq!(OciDataType::from_code(7), None);
}

#[test]
fn statement_types_from_numbers() {
    assert_eq!(StatementType::from_code(1), Some(StatementType::Select));
    assert_eq!(StatementType::from_code(4), Some(StatementType::Insert));
    assert_eq!(StatementType::from_code(6), Some(StatementType::Drop));
    assert_eq!(StatementType::from_code(42), None);
    assert_eq!(StatementType::Select.code(), 1);
}
