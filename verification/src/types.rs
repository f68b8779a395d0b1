//! The types that support conversion between native values and the wire
//! formats: the closed `SqlValue` variant set, the encode and decode entry
//! points of the codec, and the `ToSqlValue` / `FromSqlValue` conversion
//! traits.

use crate::codec::{
    create_datetime_from_raw, create_datetime_with_timezone_from_raw, create_raw_from_date,
    create_raw_from_datetime, create_raw_from_datetime_with_timezone, date_wire_bytes,
    decode_float_bits, decode_integer, encode_float_bits, encode_integer, float_wire_bytes,
    integer_wire_bytes, lemma_date_bytes_round_trip, lemma_float_round_trip,
    lemma_integer_round_trip, lemma_timestamp_bytes_round_trip,
    lemma_timestamp_tz_bytes_round_trip, spec_decoded_datetime, spec_decoded_datetime_tz,
    spec_decoded_float, spec_decoded_integer, timestamp_tz_wire_bytes, timestamp_wire_bytes,
    trim_wire_text, trimmed_bytes,
};
use crate::codes::OciDataType;
use crate::display::{
    date_display, date_to_string, dec_chars_int, i64_to_string, offset_display, offset_to_string,
    timestamp_display, timestamp_to_string,
};
use crate::error::{ConversionError, OciError};
use crate::temporal::{spec_shift_timestamp, Date, Timestamp, TimestampTz};
use vstd::prelude::*;
use vstd::slice::{slice_subrange, slice_to_vec};
use vstd::string::StringSliceAdditionalSpecFns;
use vstd::utf8::{decode_utf8, encode_utf8, valid_utf8};

verus! {

/// The types that support conversion between the wire format and native
/// values. Each temporal variant carries both the decoded value and the
/// exact fixed-width byte encoding used on the wire; the two are set
/// together and kept consistent (`wf`), so a round trip preserves the
/// server's encoding bit for bit.
#[derive(Clone, Debug, PartialEq)]
pub enum SqlValue {
    /// Anything declared `VARCHAR` or `VARCHAR2`.
    VarChar(String),
    /// Fixed-width `CHAR` text, padding kept.
    Char(String),
    /// All integer columns regardless of their stated size.
    Integer(i64),
    /// All floating point columns, held as the IEEE-754 bit pattern of
    /// the 64-bit value; the bits are what travels on the wire.
    Float(u64),
    /// A null column value.
    Null,
    /// A date with its seven wire bytes.
    Date(Date, [u8; 7]),
    /// A timestamp without time zone with its eleven wire bytes.
    Timestamp(Timestamp, [u8; 11]),
    /// A timestamp with time zone with its thirteen wire bytes.
    TimestampTz(TimestampTz, [u8; 13]),
}

impl SqlValue {
    /// The temporal variants' invariant: the decoded value is valid and
    /// the carried bytes are exactly its encoding.
    pub open spec fn wf(self) -> bool {
        match self {
            SqlValue::Date(d, b) => d.wf() && b@ == date_wire_bytes(d),
            SqlValue::Timestamp(t, b) => t.wf() && b@ == timestamp_wire_bytes(t),
            SqlValue::TimestampTz(z, b) => z.wf() && b@ == timestamp_tz_wire_bytes(z),
            _ => true,
        }
    }

    /// Wraps a date together with its wire encoding.
    pub fn from_date(date: Date) -> (r: SqlValue)
        requires
            date.wf(),
        ensures
            r matches SqlValue::Date(d, b) && d == date && b@ == date_wire_bytes(date),
            r.wf(),
    {
        let bytes = create_raw_from_date(&date);
        SqlValue::Date(date, bytes)
    }

    /// Wraps a timestamp together with its wire encoding.
    pub fn from_timestamp(timestamp: Timestamp) -> (r: SqlValue)
        requires
            timestamp.wf(),
        ensures
            r matches SqlValue::Timestamp(t, b) && t == timestamp && b@ == timestamp_wire_bytes(
                timestamp,
            ),
            r.wf(),
    {
        let bytes = create_raw_from_datetime(&timestamp);
        SqlValue::Timestamp(timestamp, bytes)
    }

    /// Wraps a zoned timestamp together with its wire encoding.
    pub fn from_timestamp_tz(timestamp: TimestampTz) -> (r: SqlValue)
        requires
            timestamp.wf(),
        ensures
            r matches SqlValue::TimestampTz(z, b) && z == timestamp && b@
                == timestamp_tz_wire_bytes(timestamp),
            r.wf(),
    {
        let bytes = create_raw_from_datetime_with_timezone(&timestamp);
        SqlValue::TimestampTz(timestamp, bytes)
    }

    /// The wire type a value binds as. A null has none: it is a
    /// result-side variant only and is never bound as an input.
    pub open spec fn spec_oci_data_type(self) -> OciDataType
        recommends
            !(self is Null),
    {
        match self {
            SqlValue::VarChar(_) => OciDataType::SqlVarChar,
            SqlValue::Char(_) => OciDataType::SqlChar,
            SqlValue::Integer(_) => OciDataType::SqlInt,
            SqlValue::Float(_) => OciDataType::SqlFloat,
            SqlValue::Null => OciDataType::SqlVarChar,
            SqlValue::Date(_, _) => OciDataType::SqlDate,
            SqlValue::Timestamp(_, _) => OciDataType::SqlTimestamp,
            SqlValue::TimestampTz(_, _) => OciDataType::SqlTimestampTz,
        }
    }

    pub fn as_oci_data_type(&self) -> (r: OciDataType)
        requires
            !(self is Null),
        ensures
            r == self.spec_oci_data_type(),
    {
        match *self {
            SqlValue::VarChar(..) => OciDataType::SqlVarChar,
            SqlValue::Char(..) => OciDataType::SqlChar,
            SqlValue::Integer(..) => OciDataType::SqlInt,
            SqlValue::Float(..) => OciDataType::SqlFloat,
            SqlValue::Null => OciDataType::SqlVarChar,
            SqlValue::Date(..) => OciDataType::SqlDate,
            SqlValue::Timestamp(..) => OciDataType::SqlTimestamp,
            SqlValue::TimestampTz(..) => OciDataType::SqlTimestampTz,
        }
    }

    /// The bytes a value travels as: text as its UTF-8 bytes, numbers as
    /// eight little-endian bytes, temporals as their carried encoding.
    pub open spec fn spec_wire_bytes(self) -> Seq<u8>
        recommends
            !(self is Null),
    {
        match self {
            SqlValue::VarChar(s) => encode_utf8(s@),
            SqlValue::Char(s) => encode_utf8(s@),
            SqlValue::Integer(i) => integer_wire_bytes(i),
            SqlValue::Float(bits) => float_wire_bytes(bits),
            SqlValue::Null => Seq::empty(),
            SqlValue::Date(_, b) => b@,
            SqlValue::Timestamp(_, b) => b@,
            SqlValue::TimestampTz(_, b) => b@,
        }
    }

    /// Produces the wire type tag and the byte buffer a bind call hands
    /// to the native layer. Nulls are never bound, so they are left out.
    pub fn encode(&self) -> (r: (OciDataType, Vec<u8>))
        requires
            !(self is Null),
    ensures
            r.0 == self.spec_oci_data_type(),
            r.1@ == self.spec_wire_bytes(),
    {
        match self {
            SqlValue::VarChar(s) => (OciDataType::SqlVarChar, s.as_str().as_bytes_vec()),
            SqlValue::Char(s) => (OciDataType::SqlChar, s.as_str().as_bytes_vec()),
            SqlValue::Integer(i) => (OciDataType::SqlInt, encode_integer(*i)),
            SqlValue::Float(bits) => (OciDataType::SqlFloat, encode_float_bits(*bits)),
            SqlValue::Null => (OciDataType::SqlVarChar, Vec::new()),
            SqlValue::Date(_, b) => (OciDataType::SqlDate, slice_to_vec(b.as_slice())),
            SqlValue::Timestamp(_, b) => (OciDataType::SqlTimestamp, slice_to_vec(b.as_slice())),
            SqlValue::TimestampTz(_, b) => (
                OciDataType::SqlTimestampTz,
                slice_to_vec(b.as_slice()),
            ),
        }
    }

    /// The size in bytes of the value as bound: what the native layer is
    /// told to read through the bind pointer.
    pub fn size(&self) -> (r: i32)
        requires
            !(self is Null),
            (self is VarChar || self is Char) ==> self.spec_wire_bytes().len() <= i32::MAX,
        ensures
            r == self.spec_wire_bytes().len(),
    {
        proof {
            vstd::bytes::lemma_auto_spec_u64_to_from_le_bytes();
        }
        match self {
            SqlValue::VarChar(s) => {
                let text = s.as_str();
                proof {
                    assert(text.spec_bytes() == encode_utf8(s@));
                }
                let bytes = text.as_bytes();
                let n = bytes.len();
                n as i32
            },
            SqlValue::Char(s) => {
                let text = s.as_str();
                proof {
                    assert(text.spec_bytes() == encode_utf8(s@));
                }
                let bytes = text.as_bytes();
                let n = bytes.len();
                n as i32
            },
            SqlValue::Integer(_) => 8,
            SqlValue::Float(_) => 8,
            SqlValue::Null => 0,
            SqlValue::Date(_, _) => 7,
            SqlValue::Timestamp(_, _) => 11,
            SqlValue::TimestampTz(_, _) => 13,
        }
    }

    /// Returns the internal value, converting on the way to whichever
    /// type implements `FromSqlValue`. The result is an `Option` because
    /// conversion might not be possible: a null converts to a `String`
    /// but not to an `i64`.
    pub fn value<T: FromSqlValue>(&self) -> (r: Option<T>)
        requires
            self.wf(),
        ensures
            T::converts(*self, r),
    {
        T::from_sql_value(self)
    }

    /// Creates an `SqlValue` from a buffer of fetched bytes and the wire
    /// type the column was defined with.
    pub fn create_from_raw(data: &[u8], sql_type: &OciDataType) -> (r: Result<SqlValue, OciError>)
        ensures
            decodes_to(data@, *sql_type, r),
            r is Ok <==> decode_succeeds(data@, *sql_type),
            r matches Ok(v) ==> v.wf(),
    {
        match *sql_type {
            OciDataType::SqlVarChar => {
                let trimmed = trim_wire_text(data);
                match string_from_utf8(trimmed) {
                    Some(s) => Ok(SqlValue::VarChar(s)),
                    None => Err(OciError::Conversion(ConversionError::InvalidText)),
                }
            },
            OciDataType::SqlChar => {
                let all = slice_to_vec(data);
                match string_from_utf8(all) {
                    Some(s) => Ok(SqlValue::Char(s)),
                    None => Err(OciError::Conversion(ConversionError::InvalidText)),
                }
            },
            OciDataType::SqlInt => {
                if data.len() >= 8 {
                    Ok(SqlValue::Integer(decode_integer(data)))
                } else {
                    Err(OciError::Conversion(ConversionError::TooShort))
                }
            },
            OciDataType::SqlFloat => {
                if data.len() >= 8 {
                    Ok(SqlValue::Float(decode_float_bits(data)))
                } else {
                    Err(OciError::Conversion(ConversionError::TooShort))
                }
            },
            OciDataType::SqlNum => Err(OciError::Conversion(ConversionError::Unsupported)),
            OciDataType::SqlDate => {
                if data.len() >= 7 {
                    let seven = slice_subrange(data, 0, 7);
                    match create_datetime_from_raw(seven) {
                        Some(ts) => {
                            let date = ts.date();
                            let bytes = create_raw_from_date(&date);
                            Ok(SqlValue::Date(date, bytes))
                        },
                        None => Err(OciError::Conversion(ConversionError::InvalidTemporal)),
                    }
                } else {
                    Err(OciError::Conversion(ConversionError::TooShort))
                }
            },
            OciDataType::SqlTimestamp => {
                if data.len() >= 11 {
                    let eleven = slice_subrange(data, 0, 11);
                    match create_datetime_from_raw(eleven) {
                        Some(ts) => {
                            let bytes = create_raw_from_datetime(&ts);
                            Ok(SqlValue::Timestamp(ts, bytes))
                        },
                        None => Err(OciError::Conversion(ConversionError::InvalidTemporal)),
                    }
                } else {
                    Err(OciError::Conversion(ConversionError::TooShort))
                }
            },
            OciDataType::SqlTimestampTz => {
                if data.len() >= 13 {
                    let thirteen = slice_subrange(data, 0, 13);
                    match create_datetime_with_timezone_from_raw(thirteen) {
                        Some(z) => {
                            let bytes = create_raw_from_datetime_with_timezone(&z);
                            Ok(SqlValue::TimestampTz(z, bytes))
                        },
                        None => Err(OciError::Conversion(ConversionError::InvalidTemporal)),
                    }
                } else {
                    Err(OciError::Conversion(ConversionError::TooShort))
                }
            },
        }
    }
}

/// What `create_from_raw` returns for a buffer and a wire type: text is
/// trimmed (variable-length only), validated and decoded; numbers read
/// their eight bytes; temporals read, validate and re-encode their fixed
/// layout; and every failure is the stated conversion error.
pub open spec fn decodes_to(data: Seq<u8>, sql_type: OciDataType, r: Result<
    SqlValue,
    OciError,
>) -> bool {
    match sql_type {
        OciDataType::SqlVarChar => {
            let t = trimmed_bytes(data);
            if valid_utf8(t) {
                r matches Ok(v) && (v matches SqlValue::VarChar(s) && s@ == decode_utf8(t))
            } else {
                r == Err::<SqlValue, OciError>(
                    OciError::Conversion(ConversionError::InvalidText),
                )
            }
        },
        OciDataType::SqlChar => {
            if valid_utf8(data) {
                r matches Ok(v) && (v matches SqlValue::Char(s) && s@ == decode_utf8(data))
            } else {
                r == Err::<SqlValue, OciError>(
                    OciError::Conversion(ConversionError::InvalidText),
                )
            }
        },
        OciDataType::SqlInt => {
            if data.len() >= 8 {
                r == Ok::<SqlValue, OciError>(SqlValue::Integer(spec_decoded_integer(data)))
            } else {
                r == Err::<SqlValue, OciError>(OciError::Conversion(ConversionError::TooShort))
            }
        },
        OciDataType::SqlFloat => {
            if data.len() >= 8 {
                r == Ok::<SqlValue, OciError>(SqlValue::Float(spec_decoded_float(data)))
            } else {
                r == Err::<SqlValue, OciError>(OciError::Conversion(ConversionError::TooShort))
            }
        },
        OciDataType::SqlNum => r == Err::<SqlValue, OciError>(
            OciError::Conversion(ConversionError::Unsupported),
        ),
        OciDataType::SqlDate => {
            if data.len() >= 7 {
                match spec_decoded_datetime(data.subrange(0, 7)) {
                    Some(ts) => r matches Ok(v) && (v matches SqlValue::Date(d, b) && d
                        == ts.spec_date() && b@ == date_wire_bytes(d)),
                    None => r == Err::<SqlValue, OciError>(
                        OciError::Conversion(ConversionError::InvalidTemporal),
                    ),
                }
            } else {
                r == Err::<SqlValue, OciError>(OciError::Conversion(ConversionError::TooShort))
            }
        },
        OciDataType::SqlTimestamp => {
            if data.len() >= 11 {
                match spec_decoded_datetime(data.subrange(0, 11)) {
                    Some(ts) => r matches Ok(v) && (v matches SqlValue::Timestamp(t, b) && t == ts
                        && b@ == timestamp_wire_bytes(t)),
                    None => r == Err::<SqlValue, OciError>(
                        OciError::Conversion(ConversionError::InvalidTemporal),
                    ),
                }
            } else {
                r == Err::<SqlValue, OciError>(OciError::Conversion(ConversionError::TooShort))
            }
        },
        OciDataType::SqlTimestampTz => {
            if data.len() >= 13 {
                match spec_decoded_datetime_tz(data.subrange(0, 13)) {
                    Some(z) => r matches Ok(v) && (v matches SqlValue::TimestampTz(z2, b) && z2
                        == z && b@ == timestamp_tz_wire_bytes(z2)),
                    None => r == Err::<SqlValue, OciError>(
                        OciError::Conversion(ConversionError::InvalidTemporal),
                    ),
                }
            } else {
                r == Err::<SqlValue, OciError>(OciError::Conversion(ConversionError::TooShort))
            }
        },
    }
}

/// Allows conversion into a `SqlValue`.
pub trait ToSqlValue {
    /// Which values of the type can be bound; a bound value must be
    /// well-formed and is never a null.
    spec fn bindable(&self) -> bool;

    /// How the produced `SqlValue` relates to the native value.
    spec fn represents(&self, v: SqlValue) -> bool;

    /// Converts into a `SqlValue`.
    fn to_sql_value(&self) -> (r: SqlValue)
        requires
            self.bindable(),
        ensures
            self.represents(r),
            r.wf(),
            !(r is Null),
    ;
}

impl ToSqlValue for String {
    open spec fn bindable(&self) -> bool {
        true
    }

    open spec fn represents(&self, v: SqlValue) -> bool {
        v matches SqlValue::VarChar(s) && s@ == self@
    }

    fn to_sql_value(&self) -> (r: SqlValue) {
        SqlValue::VarChar(self.clone())
    }
}

impl<'a> ToSqlValue for &'a str {
    open spec fn bindable(&self) -> bool {
        true
    }

    open spec fn represents(&self, v: SqlValue) -> bool {
        v matches SqlValue::VarChar(s) && s@ == self@
    }

    fn to_sql_value(&self) -> (r: SqlValue) {
        SqlValue::VarChar(String::from_str(self))
    }
}

impl ToSqlValue for i64 {
    open spec fn bindable(&self) -> bool {
        true
    }

    open spec fn represents(&self, v: SqlValue) -> bool {
        v == SqlValue::Integer(*self)
    }

    fn to_sql_value(&self) -> (r: SqlValue) {
        SqlValue::Integer(*self)
    }
}

impl ToSqlValue for Date {
    open spec fn bindable(&self) -> bool {
        self.wf()
    }

    open spec fn represents(&self, v: SqlValue) -> bool {
        v matches SqlValue::Date(d, b) && d == *self && b@ == date_wire_bytes(*self)
    }

    fn to_sql_value(&self) -> (r: SqlValue) {
        SqlValue::from_date(*self)
    }
}

impl ToSqlValue for Timestamp {
    open spec fn bindable(&self) -> bool {
        self.wf()
    }

    open spec fn represents(&self, v: SqlValue) -> bool {
        v matches SqlValue::Timestamp(t, b) && t == *self && b@ == timestamp_wire_bytes(*self)
    }

    fn to_sql_value(&self) -> (r: SqlValue) {
        SqlValue::from_timestamp(*self)
    }
}

impl ToSqlValue for TimestampTz {
    open spec fn bindable(&self) -> bool {
        self.wf()
    }

    open spec fn represents(&self, v: SqlValue) -> bool {
        v matches SqlValue::TimestampTz(z, b) && z == *self && b@ == timestamp_tz_wire_bytes(
            *self,
        )
    }

    fn to_sql_value(&self) -> (r: SqlValue) {
        SqlValue::from_timestamp_tz(*self)
    }
}

/// Allows conversion from a `SqlValue`. Impossible conversions return
/// nothing: a null cannot become an `i64`.
pub trait FromSqlValue: Sized {
    /// Which results the conversion may return for a given value.
    spec fn converts(v: SqlValue, r: Option<Self>) -> bool;

    /// Converts from a well-formed `SqlValue`.
    fn from_sql_value(sql_value: &SqlValue) -> (r: Option<Self>)
        requires
            sql_value.wf(),
        ensures
            Self::converts(*sql_value, r),
    ;
}

impl FromSqlValue for i64 {
    open spec fn converts(v: SqlValue, r: Option<i64>) -> bool {
        match v {
            SqlValue::Integer(i) => r == Some(i),
            _ => r is None,
        }
    }

    fn from_sql_value(sql_value: &SqlValue) -> (r: Option<i64>) {
        match *sql_value {
            SqlValue::Integer(i) => Some(i),
            _ => None,
        }
    }
}

impl FromSqlValue for Date {
    open spec fn converts(v: SqlValue, r: Option<Date>) -> bool {
        match v {
            SqlValue::Date(d, _) => r == Some(d),
            _ => r is None,
        }
    }

    fn from_sql_value(sql_value: &SqlValue) -> (r: Option<Date>) {
        match *sql_value {
            SqlValue::Date(d, _) => Some(d),
            _ => None,
        }
    }
}

impl FromSqlValue for Timestamp {
    open spec fn converts(v: SqlValue, r: Option<Timestamp>) -> bool {
        match v {
            SqlValue::Timestamp(t, _) => r == Some(t),
            _ => r is None,
        }
    }

    fn from_sql_value(sql_value: &SqlValue) -> (r: Option<Timestamp>) {
        match *sql_value {
            SqlValue::Timestamp(t, _) => Some(t),
            _ => None,
        }
    }
}

impl FromSqlValue for TimestampTz {
    open spec fn converts(v: SqlValue, r: Option<TimestampTz>) -> bool {
        match v {
            SqlValue::TimestampTz(z, _) => r == Some(z),
            _ => r is None,
        }
    }

    fn from_sql_value(sql_value: &SqlValue) -> (r: Option<TimestampTz>) {
        match *sql_value {
            SqlValue::TimestampTz(z, _) => Some(z),
            _ => None,
        }
    }
}

impl FromSqlValue for String {
    /// Every variant but a float has a text rendering: text itself,
    /// integers in decimal, "null" for a null, temporals as their civil
    /// fields, and a zoned timestamp as its local wall clock followed by
    /// its offset. A float is held only as its bit pattern here, which
    /// has no faithful decimal rendering, and gives nothing.
    open spec fn converts(v: SqlValue, r: Option<String>) -> bool {
        match v {
            SqlValue::VarChar(s) => r matches Some(out) && out@ == s@,
            SqlValue::Char(s) => r matches Some(out) && out@ == s@,
            SqlValue::Integer(i) => r matches Some(out) && out@ == dec_chars_int(i as int),
            SqlValue::Float(_) => r is None,
            SqlValue::Null => r matches Some(out) && out@ == "null"@,
            SqlValue::Date(d, _) => r matches Some(out) && out@ == date_display(d),
            SqlValue::Timestamp(t, _) => r matches Some(out) && out@ == timestamp_display(t),
            SqlValue::TimestampTz(z, _) => r matches Some(out) && out@ == timestamp_display(
                spec_shift_timestamp(z.utc, z.offset_seconds as int),
            ) + " "@ + offset_display(z.offset_seconds as int),
        }
    }

    fn from_sql_value(sql_value: &SqlValue) -> (r: Option<String>) {
        match sql_value {
            SqlValue::VarChar(s) => Some(s.clone()),
            SqlValue::Char(s) => Some(s.clone()),
            SqlValue::Integer(i) => Some(i64_to_string(*i)),
            SqlValue::Float(_) => None,
            SqlValue::Null => Some(String::from_str("null")),
            SqlValue::Date(d, _) => Some(date_to_string(d)),
            SqlValue::Timestamp(t, _) => Some(timestamp_to_string(t)),
            SqlValue::TimestampTz(z, _) => {
                let local = z.local();
                let mut out = timestamp_to_string(&local);
                out.append(" ");
                let offset = offset_to_string(z.offset_seconds);
                out.append(offset.as_str());
                Some(out)
            },
        }
    }
}

/// Whether a buffer of fetched bytes decodes at all under a wire type:
/// exactly when `create_from_raw` returns a value rather than an error.
pub open spec fn decode_succeeds(data: Seq<u8>, sql_type: OciDataType) -> bool {
    match sql_type {
        OciDataType::SqlVarChar => valid_utf8(trimmed_bytes(data)),
        OciDataType::SqlChar => valid_utf8(data),
        OciDataType::SqlInt => data.len() >= 8,
        OciDataType::SqlFloat => data.len() >= 8,
        OciDataType::SqlNum => false,
        OciDataType::SqlDate => data.len() >= 7 && spec_decoded_datetime(
            data.subrange(0, 7),
        ) is Some,
        OciDataType::SqlTimestamp => data.len() >= 11 && spec_decoded_datetime(
            data.subrange(0, 11),
        ) is Some,
        OciDataType::SqlTimestampTz => data.len() >= 13 && spec_decoded_datetime_tz(
            data.subrange(0, 13),
        ) is Some,
    }
}

/// Decoding a value's own wire bytes under its own wire type gives the
/// value back, carried bytes included: the round trip is exact for every
/// well-formed integer, float, date, timestamp and zoned timestamp.
pub proof fn lemma_codec_round_trip(v: SqlValue)
    requires
        v.wf(),
        !(v is Null),
        !(v is VarChar),
        !(v is Char),
    ensures
        decodes_to(v.spec_wire_bytes(), v.spec_oci_data_type(), Ok(v)),
{
    match v {
        SqlValue::Integer(i) => {
            lemma_integer_round_trip(i);
            vstd::bytes::lemma_auto_spec_u64_to_from_le_bytes();
        },
        SqlValue::Float(bits) => {
            lemma_float_round_trip(bits);
            vstd::bytes::lemma_auto_spec_u64_to_from_le_bytes();
        },
        SqlValue::Date(d, b) => {
            lemma_date_bytes_round_trip(d);
            assert(b@.subrange(0, 7) =~= b@);
        },
        SqlValue::Timestamp(t, b) => {
            lemma_timestamp_bytes_round_trip(t);
            assert(b@.subrange(0, 11) =~= b@);
        },
        SqlValue::TimestampTz(z, b) => {
            lemma_timestamp_tz_bytes_round_trip(z);
            assert(b@.subrange(0, 13) =~= b@);
        },
        _ => {},
    }
}

/// Two typed values that hold the same data: equal outright, except that
/// text is compared by its characters, since two strings with the same
/// characters are the same value for every purpose of this driver.
pub open spec fn sql_value_like(a: SqlValue, b: SqlValue) -> bool {
    match a {
        SqlValue::VarChar(x) => b matches SqlValue::VarChar(y) && x@ == y@,
        SqlValue::Char(x) => b matches SqlValue::Char(y) && x@ == y@,
        SqlValue::Date(da, ba) => b matches SqlValue::Date(db, bb) && da == db && ba@ == bb@,
        SqlValue::Timestamp(ta, ba) => b matches SqlValue::Timestamp(tb, bb) && ta == tb && ba@
            == bb@,
        SqlValue::TimestampTz(za, ba) => b matches SqlValue::TimestampTz(zb, bb) && za == zb
            && ba@ == bb@,
        _ => a == b,
    }
}

/// A buffer that decodes to a value decodes at all.
pub proof fn lemma_decode_ok_succeeds(data: Seq<u8>, sql_type: OciDataType, v: SqlValue)
    requires
        decodes_to(data, sql_type, Ok(v)),
    ensures
        decode_succeeds(data, sql_type),
{
}

/// Decoding is deterministic: any two values the relation admits for the
/// same buffer and wire type hold the same data.
pub proof fn lemma_decode_deterministic(
    data: Seq<u8>,
    sql_type: OciDataType,
    u: SqlValue,
    v: SqlValue,
)
    requires
        decodes_to(data, sql_type, Ok(u)),
        decodes_to(data, sql_type, Ok(v)),
    ensures
        sql_value_like(u, v),
{
}

/// Relies on `String::from_utf8`: it succeeds exactly on well-formed
/// UTF-8 input and yields the characters the bytes encode.
#[verifier::external_body]
fn string_from_utf8(bytes: Vec<u8>) -> (r: Option<String>)
    ensures
        r is Some <==> valid_utf8(bytes@),
        r matches Some(s) ==> s@ == decode_utf8(bytes@),
{
    match String::from_utf8(bytes) {
        Ok(s) => Some(s),
        Err(_) => None,
    }
}

} // verus!
