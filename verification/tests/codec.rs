use oci_rs::codes::OciDataType;
use oci_rs::error::{ConversionError, OciError};
use oci_rs::temporal::{Date, Timestamp, TimestampTz};
use oci_rs::types::{FromSqlValue, SqlValue, ToSqlValue};

#[test]
fn integer_round_trip() {
    let v = SqlValue::Integer(42);
    let (tag, bytes) = v.encode();
    assert_eq!(tag, OciDataType::SqlInt);
    assert_eq!(bytes, vec![42, 0, 0, 0, 0, 0, 0, 0]);
    let back = SqlValue::create_from_raw(&bytes, &OciDataType::SqlInt).unwrap();
    assert_eq!(back, SqlValue::Integer(42));
    let as_text: String = back.value().unwrap();
    assert_eq!(as_text, "42");
}

#[test]
fn integer_extremes_round_trip() {
    for i in [i64::MIN, -1, 0, 1, i64::MAX] {
        let (_, bytes) = SqlValue::Integer(i).encode();
        assert_eq!(bytes.len(), 8);
        let back = SqlValue::create_from_raw(&bytes, &OciDataType::SqlInt).unwrap();
        assert_eq!(back, SqlValue::Integer(i));
    }
}

#[test]
fn integer_to_string_negative() {
    let s: String = SqlValue::Integer(-90210).value().unwrap();
    assert_eq!(s, "-90210");
    let s: String = SqlValue::Integer(i64::MIN).value().unwrap();
    assert_eq!(s, "-9223372036854775808");
}

#[test]
fn float_round_trip() {
    let bits = 3.5f64.to_bits();
    let v = SqlValue::Float(bits);
    let (tag, bytes) = v.encode();
    assert_eq!(tag, OciDataType::SqlFloat);
    assert_eq!(bytes, 3.5f64.to_le_bytes().to_vec());
    let back = SqlValue::create_from_raw(&bytes, &OciDataType::SqlFloat).unwrap();
    match back {
        SqlValue::Float(b) => assert_eq!(f64::from_bits(b), 3.5),
        other => panic!("expected a float, got {:?}", other),
    }
}

#[test]
fn float_round_trip_is_bit_exact() {
    // A NaN payload survives the round trip bit for bit, which comparing
    // as floats could never show.
    for bits in [f64::NAN.to_bits(), (-0.0f64).to_bits(), f64::INFINITY.to_bits(), 1u64] {
        let (_, bytes) = SqlValue::Float(bits).encode();
        let back = SqlValue::create_from_raw(&bytes, &OciDataType::SqlFloat).unwrap();
        assert_eq!(back, SqlValue::Float(bits));
    }
}

#[test]
fn date_encoding() {
    let date = Date::new(2006, 10, 1).unwrap();
    let v = SqlValue::from_date(date);
    let (tag, bytes) = v.encode();
    assert_eq!(tag, OciDataType::SqlDate);
    assert_eq!(bytes, vec![120, 106, 10, 1, 1, 1, 1]);
    let back = SqlValue::create_from_raw(&bytes, &OciDataType::SqlDate).unwrap();
    assert_eq!(back, v);
    let d: Date = back.value().unwrap();
    assert_eq!((d.year, d.month, d.day), (2006, 10, 1));
}

#[test]
fn date_round_trip_bc_year() {
    let date = Date::new(-50, 2, 28).unwrap();
    let v = SqlValue::from_date(date);
    let (_, bytes) = v.encode();
    assert_eq!(bytes[0], 100);
    assert_eq!(bytes[1], 50);
    let back = SqlValue::create_from_raw(&bytes, &OciDataType::SqlDate).unwrap();
    assert_eq!(back, v);
}

#[test]
fn timestamp_round_trip() {
    let ts = Timestamp::new(2006, 10, 26, 13, 5, 59, 123_456_789).unwrap();
    let v = SqlValue::from_timestamp(ts);
    let (tag, bytes) = v.encode();
    assert_eq!(tag, OciDataType::SqlTimestamp);
    assert_eq!(bytes.len(), 11);
    assert_eq!(&bytes[0..7], &[120, 106, 10, 26, 14, 6, 60]);
    assert_eq!(&bytes[7..11], &123_456_789u32.to_be_bytes());
    let back = SqlValue::create_from_raw(&bytes, &OciDataType::SqlTimestamp).unwrap();
    assert_eq!(back, v);
}

#[test]
fn timestamp_with_offset_encoding() {
    // The UTC instant 2018-01-05T19:25:30 expressed at a +5:30 offset.
    let utc = Timestamp::new(2018, 1, 5, 19, 25, 30, 0).unwrap();
    let z = TimestampTz::new(utc, 5 * 3600 + 30 * 60).unwrap();
    let v = SqlValue::from_timestamp_tz(z);
    let (tag, bytes) = v.encode();
    assert_eq!(tag, OciDataType::SqlTimestampTz);
    assert_eq!(bytes.len(), 13);
    // The eleven-byte core stays UTC...
    assert_eq!(&bytes[0..7], &[120, 118, 1, 5, 20, 26, 31]);
    assert_eq!(&bytes[7..11], &[0, 0, 0, 0]);
    // ...and the offset bytes are hours + 20 and minutes + 60.
    assert_eq!(bytes[11], 25);
    assert_eq!(bytes[12], 90);
    let back = SqlValue::create_from_raw(&bytes, &OciDataType::SqlTimestampTz).unwrap();
    assert_eq!(back, v);
    // The decoded wall clock reflects +5:30.
    let decoded: TimestampTz = back.value().unwrap();
    let local = decoded.local();
    assert_eq!(
        (local.year, local.month, local.day, local.hour, local.minute, local.second),
        (2018, 1, 6, 0, 55, 30)
    );
}

#[test]
fn timestamp_with_negative_offset_round_trip() {
    let utc = Timestamp::new(2018, 1, 1, 2, 0, 0, 0).unwrap();
    let z = TimestampTz::new(utc, -(5 * 3600 + 30 * 60)).unwrap();
    let v = SqlValue::from_timestamp_tz(z);
    let (_, bytes) = v.encode();
    assert_eq!(bytes[11], 15);
    assert_eq!(bytes[12], 30);
    let back = SqlValue::create_from_raw(&bytes, &OciDataType::SqlTimestampTz).unwrap();
    assert_eq!(back, v);
    let local = z.local();
    assert_eq!(
        (local.year, local.month, local.day, local.hour, local.minute),
        (2017, 12, 31, 20, 30)
    );
}

#[test]
fn leap_day_round_trip() {
    // 2004 is a leap year; 1900 is not; 2000 is.
    assert!(Date::new(2004, 2, 29).is_some());
    assert!(Date::new(1900, 2, 29).is_none());
    assert!(Date::new(2000, 2, 29).is_some());
    let v = SqlValue::from_date(Date::new(2004, 2, 29).unwrap());
    let (_, bytes) = v.encode();
    let back = SqlValue::create_from_raw(&bytes, &OciDataType::SqlDate).unwrap();
    assert_eq!(back, v);
}

#[test]
fn year_range_edges_round_trip() {
    for year in [-10099, -1, 0, 1, 9999, 15599] {
        let date = Date::new(year, 6, 15).unwrap();
        let v = SqlValue::from_date(date);
        let (_, bytes) = v.encode();
        let back = SqlValue::create_from_raw(&bytes, &OciDataType::SqlDate).unwrap();
        assert_eq!(back, v);
    }
    // The century byte cannot carry years beyond the wire range.
    assert!(Date::new(-10100, 6, 15).is_none());
    assert!(Date::new(15600, 6, 15).is_none());
}

#[test]
fn varchar_is_trimmed_on_decode() {
    // Only the trailing padding is filler; leading bytes are data.
    let back = SqlValue::create_from_raw(b"BMW \t\n", &OciDataType::SqlVarChar).unwrap();
    assert_eq!(back, SqlValue::VarChar("BMW".to_string()));
    let back = SqlValue::create_from_raw(b"  BMW  ", &OciDataType::SqlVarChar).unwrap();
    assert_eq!(back, SqlValue::VarChar("  BMW".to_string()));
    let back = SqlValue::create_from_raw(b" a", &OciDataType::SqlVarChar).unwrap();
    assert_eq!(back, SqlValue::VarChar(" a".to_string()));
}

#[test]
fn all_whitespace_varchar_decodes_to_empty() {
    // A value that is nothing but padding trims away entirely.
    let back = SqlValue::create_from_raw(b"   \t  ", &OciDataType::SqlVarChar).unwrap();
    assert_eq!(back, SqlValue::VarChar(String::new()));
    let back = SqlValue::create_from_raw(b"", &OciDataType::SqlVarChar).unwrap();
    assert_eq!(back, SqlValue::VarChar(String::new()));
}

#[test]
fn char_keeps_its_padding() {
    let back = SqlValue::create_from_raw(b"Sci-fi    ", &OciDataType::SqlChar).unwrap();
    assert_eq!(back, SqlValue::Char("Sci-fi    ".to_string()));
}

#[test]
fn invalid_text_is_a_conversion_error() {
    let err = SqlValue::create_from_raw(&[0xff, 0xfe, 0x41], &OciDataType::SqlVarChar)
        .unwrap_err();
    assert_eq!(err, OciError::Conversion(ConversionError::InvalidText));
    let err = SqlValue::create_from_raw(&[0x80], &OciDataType::SqlChar).unwrap_err();
    assert_eq!(err, OciError::Conversion(ConversionError::InvalidText));
}

#[test]
fn invalid_temporal_bytes_are_rejected() {
    // Month 13 names no calendar day.
    let err = SqlValue::create_from_raw(&[120, 106, 13, 1, 1, 1, 1], &OciDataType::SqlDate)
        .unwrap_err();
    assert_eq!(err, OciError::Conversion(ConversionError::InvalidTemporal));
    // An hour byte of zero underflows the value-plus-one encoding.
    let err = SqlValue::create_from_raw(&[120, 106, 10, 1, 0, 1, 1], &OciDataType::SqlDate)
        .unwrap_err();
    assert_eq!(err, OciError::Conversion(ConversionError::InvalidTemporal));
    // February 30th does not exist, not even in a leap year.
    let err = SqlValue::create_from_raw(&[120, 104, 2, 30, 1, 1, 1], &OciDataType::SqlDate)
        .unwrap_err();
    assert_eq!(err, OciError::Conversion(ConversionError::InvalidTemporal));
}

#[test]
fn short_buffers_are_rejected() {
    for (bytes, tag) in [
        (&[1u8, 2, 3][..], OciDataType::SqlInt),
        (&[1u8, 2, 3][..], OciDataType::SqlFloat),
        (&[120u8, 106][..], OciDataType::SqlDate),
        (&[120u8, 106, 10, 1, 1, 1, 1][..], OciDataType::SqlTimestamp),
        (&[120u8, 106, 10, 1, 1, 1, 1, 0, 0, 0, 0][..], OciDataType::SqlTimestampTz),
    ] {
        let err = SqlValue::create_from_raw(bytes, &tag).unwrap_err();
        assert_eq!(err, OciError::Conversion(ConversionError::TooShort));
    }
}

#[test]
fn generic_number_has_no_decoder() {
    let err = SqlValue::create_from_raw(&[0; 8], &OciDataType::SqlNum).unwrap_err();
    assert_eq!(err, OciError::Conversion(ConversionError::Unsupported));
}

#[test]
fn to_sql_value_conversions() {
    assert_eq!("Apple".to_sql_value(), SqlValue::VarChar("Apple".to_string()));
    assert_eq!("Pear".to_string().to_sql_value(), SqlValue::VarChar("Pear".to_string()));
    assert_eq!(22i64.to_sql_value(), SqlValue::Integer(22));
    let date = Date::new(2014, 7, 21).unwrap();
    match date.to_sql_value() {
        SqlValue::Date(d, raw) => {
            assert_eq!(d, date);
            assert_eq!(raw, [120, 114, 7, 21, 1, 1, 1]);
        }
        other => panic!("expected a date, got {:?}", other),
    }
}

#[test]
fn from_sql_value_conversions() {
    let v = SqlValue::Integer(12);
    let i: i64 = v.value().unwrap();
    assert_eq!(i, 12);
    let none: Option<i64> = SqlValue::Null.value();
    assert_eq!(none, None);
    let null_text: String = SqlValue::Null.value().unwrap();
    assert_eq!(null_text, "null");
    let text: String = SqlValue::VarChar("BMW".to_string()).value().unwrap();
    assert_eq!(text, "BMW");
    let wrong: Option<String> = SqlValue::Float(1.0f64.to_bits()).value();
    assert_eq!(wrong, None);
}

#[test]
fn temporal_values_render_as_text() {
    let date = Date::new(2006, 10, 1).unwrap();
    let s: String = SqlValue::from_date(date).value().unwrap();
    assert_eq!(s, "2006-10-01");
    let ts = Timestamp::new(2014, 7, 21, 18, 0, 4, 0).unwrap();
    let s: String = SqlValue::from_timestamp(ts).value().unwrap();
    assert_eq!(s, "2014-07-21 18:00:04");
    let ts = Timestamp::new(2014, 7, 21, 18, 0, 4, 50).unwrap();
    let s: String = SqlValue::from_timestamp(ts).value().unwrap();
    assert_eq!(s, "2014-07-21 18:00:04.000000050");
    let utc = Timestamp::new(2018, 1, 5, 19, 25, 30, 0).unwrap();
    let z = TimestampTz::new(utc, 19800).unwrap();
    let s: String = SqlValue::from_timestamp_tz(z).value().unwrap();
    assert_eq!(s, "2018-01-06 00:55:30 +05:30");
    let z = TimestampTz::new(utc, -19800).unwrap();
    let s: String = SqlValue::from_timestamp_tz(z).value().unwrap();
    assert_eq!(s, "2018-01-05 13:55:30 -05:30");
}

#[test]
fn edge_year_wall_clock_renders() {
    // At the edges of the representable years the local wall clock may
    // step one year beyond what the wire can carry; the rendering still
    // shows the true wall clock.
    let utc = Timestamp::new(15599, 12, 31, 23, 0, 0, 0).unwrap();
    let z = TimestampTz::new(utc, 7200).unwrap();
    let s: String = SqlValue::from_timestamp_tz(z).value().unwrap();
    assert_eq!(s, "15600-01-01 01:00:00 +02:00");
    let utc = Timestamp::new(-10099, 1, 1, 1, 0, 0, 0).unwrap();
    let z = TimestampTz::new(utc, -7200).unwrap();
    let s: String = SqlValue::from_timestamp_tz(z).value().unwrap();
    assert_eq!(s, "-10100-12-31 23:00:00 -02:00");
}

#[test]
fn size_and_type_tags() {
    assert_eq!(SqlValue::Integer(1).size(), 8);
    assert_eq!(SqlValue::from_date(Date::new(2000, 1, 1).unwrap()).size(), 7);
    assert_eq!(SqlValue::VarChar("abcd".to_string()).size(), 4);
    assert_eq!(
        SqlValue::VarChar(String::new()).as_oci_data_type(),
        OciDataType::SqlVarChar
    );
    assert_eq!(OciDataType::SqlVarChar.size(), 4000);
    assert_eq!(OciDataType::SqlChar.size(), 2000);
    assert_eq!(OciDataType::SqlTimestampTz.size(), 13);
}
