//! The fixed-width wire encodings: eight little-endian bytes for a 64-bit
//! number, four big-endian bytes for a nanosecond count, and the seven,
//! eleven and thirteen byte temporal layouts built from the field
//! conversions of `temporal`. Trailing text padding is trimmed here too.

use crate::temporal::{
    century_field, convert_century, convert_day, convert_hour, convert_hour_to_raw,
    convert_minute, convert_minute_to_raw, convert_month, convert_second, convert_second_to_raw,
    convert_timezone_hour, convert_timezone_minute, convert_timezone_seconds_to_hour_raw,
    convert_timezone_seconds_to_minute_raw, convert_year, convert_year_to_century_raw,
    convert_year_to_raw, decoded_tz_offset, decoded_year, lemma_tz_field_bounds,
    lemma_tz_offset_round_trip, lemma_year_field_bounds, lemma_year_round_trip, tz_hour_field,
    tz_minute_field, tz_offset_representable, year_field, Date, Timestamp, TimestampTz,
};
use vstd::arithmetic::div_mod::lemma_mod_multiples_basic;
use vstd::bytes::{
    lemma_auto_spec_u64_to_from_le_bytes, spec_u64_from_le_bytes, spec_u64_to_le_bytes,
    u64_from_le_bytes, u64_to_le_bytes,
};
use vstd::prelude::*;
use vstd::slice::slice_subrange;

verus! {

// ---------------------------------------------------------------------------
// 64-bit numbers: eight bytes, least significant first.
// ---------------------------------------------------------------------------
/// The eight wire bytes of a signed 64-bit integer: its two's-complement
/// bits, least significant byte first.
pub open spec fn integer_wire_bytes(i: i64) -> Seq<u8> {
    spec_u64_to_le_bytes(i as u64)
}

/// The integer the first eight bytes decode to.
pub open spec fn spec_decoded_integer(b: Seq<u8>) -> i64
    recommends
        b.len() >= 8,
{
    spec_u64_from_le_bytes(b.subrange(0, 8)) as i64
}

/// The eight wire bytes of a 64-bit float, given as its bit pattern:
/// the bits, least significant byte first.
pub open spec fn float_wire_bytes(bits: u64) -> Seq<u8> {
    spec_u64_to_le_bytes(bits)
}

/// The float bit pattern the first eight bytes decode to.
pub open spec fn spec_decoded_float(b: Seq<u8>) -> u64
    recommends
        b.len() >= 8,
{
    spec_u64_from_le_bytes(b.subrange(0, 8))
}

pub fn encode_integer(i: i64) -> (r: Vec<u8>)
    ensures
        r@ == integer_wire_bytes(i),
        r@.len() == 8,
{
    u64_to_le_bytes(i as u64)
}

pub fn decode_integer(data: &[u8]) -> (r: i64)
    requires
        data@.len() >= 8,
    ensures
        r == spec_decoded_integer(data@),
{
    let first = slice_subrange(data, 0, 8);
    u64_from_le_bytes(first) as i64
}

pub fn encode_float_bits(bits: u64) -> (r: Vec<u8>)
    ensures
        r@ == float_wire_bytes(bits),
        r@.len() == 8,
{
    u64_to_le_bytes(bits)
}

pub fn decode_float_bits(data: &[u8]) -> (r: u64)
    requires
        data@.len() >= 8,
    ensures
        r == spec_decoded_float(data@),
{
    let first = slice_subrange(data, 0, 8);
    u64_from_le_bytes(first)
}

/// Encoding a 64-bit integer and decoding the bytes gives it back.
pub proof fn lemma_integer_round_trip(i: i64)
    ensures
        spec_decoded_integer(integer_wire_bytes(i)) == i,
{
    lemma_auto_spec_u64_to_from_le_bytes();
    assert(integer_wire_bytes(i).subrange(0, 8) =~= integer_wire_bytes(i));
    assert(i as u64 as i64 == i) by (bit_vector);
}

/// Encoding a float bit pattern and decoding the bytes gives it back.
pub proof fn lemma_float_round_trip(bits: u64)
    ensures
        spec_decoded_float(float_wire_bytes(bits)) == bits,
{
    lemma_auto_spec_u64_to_from_le_bytes();
    assert(float_wire_bytes(bits).subrange(0, 8) =~= float_wire_bytes(bits));
}

// ---------------------------------------------------------------------------
// Nanoseconds: four bytes, most significant first.
// ---------------------------------------------------------------------------
/// The four wire bytes of a nanosecond count, most significant first.
pub open spec fn nano_wire_bytes(n: u32) -> Seq<u8> {
    seq![(n >> 24) as u8, (n >> 16) as u8, (n >> 8) as u8, n as u8]
}

/// The nanosecond count four big-endian bytes decode to.
pub open spec fn spec_decoded_nano(b: Seq<u8>) -> u32
    recommends
        b.len() >= 4,
{
    ((b[0] as u32) << 24) | ((b[1] as u32) << 16) | ((b[2] as u32) << 8) | (b[3] as u32)
}

pub fn convert_nano(nano_bytes: &[u8]) -> (r: u32)
    requires
        nano_bytes@.len() >= 4,
    ensures
        r == spec_decoded_nano(nano_bytes@),
{
    ((nano_bytes[0] as u32) << 24) | ((nano_bytes[1] as u32) << 16) | ((nano_bytes[2] as u32) << 8)
        | (nano_bytes[3] as u32)
}

pub fn convert_nano_to_raw(nano: u32) -> (r: [u8; 4])
    ensures
        r@ == nano_wire_bytes(nano),
{
    let r = [(nano >> 24) as u8, (nano >> 16) as u8, (nano >> 8) as u8, nano as u8];
    proof {
        assert(r@ =~= nano_wire_bytes(nano));
    }
    r
}

/// Encoding a nanosecond count and decoding the four bytes gives it back.
pub proof fn lemma_nano_round_trip(n: u32)
    ensures
        spec_decoded_nano(nano_wire_bytes(n)) == n,
{
    let b = nano_wire_bytes(n);
    assert((((n >> 24) as u8 as u32) << 24) | (((n >> 16) as u8 as u32) << 16) | (((n >> 8) as u8
        as u32) << 8) | (n as u8 as u32) == n) by (bit_vector);
}

// ---------------------------------------------------------------------------
// Temporal layouts.
// ---------------------------------------------------------------------------
/// The seven wire bytes of a date: century and year fields, month, day,
/// and the hour, minute and second bytes at their `value + 1` sentinel
/// for a pure date.
pub open spec fn date_wire_bytes(d: Date) -> Seq<u8> {
    seq![
        century_field(d.year as int) as u8,
        year_field(d.year as int) as u8,
        d.month,
        d.day,
        1u8,
        1u8,
        1u8,
    ]
}

/// The eleven wire bytes of a timestamp: the date fields, the time of day
/// stored as `value + 1`, and four big-endian nanosecond bytes.
pub open spec fn timestamp_wire_bytes(t: Timestamp) -> Seq<u8> {
    seq![
        century_field(t.year as int) as u8,
        year_field(t.year as int) as u8,
        t.month,
        t.day,
        (t.hour + 1) as u8,
        (t.minute + 1) as u8,
        (t.second + 1) as u8,
    ] + nano_wire_bytes(t.nanosecond)
}

/// The thirteen wire bytes of a timestamp with time zone: the eleven bytes
/// of its UTC civil time, then the two offset bytes.
pub open spec fn timestamp_tz_wire_bytes(z: TimestampTz) -> Seq<u8> {
    timestamp_wire_bytes(z.utc) + seq![
        tz_hour_field(z.offset_seconds as int) as u8,
        tz_minute_field(z.offset_seconds as int) as u8,
    ]
}

pub fn create_raw_from_date(date: &Date) -> (r: [u8; 7])
    requires
        date.wf(),
    ensures
        r@ == date_wire_bytes(*date),
{
    let r = [
        convert_year_to_century_raw(date.year),
        convert_year_to_raw(date.year),
        date.month,
        date.day,
        convert_hour_to_raw(0),
        convert_minute_to_raw(0),
        convert_second_to_raw(0),
    ];
    proof {
        assert(r@ =~= date_wire_bytes(*date));
    }
    r
}

pub fn create_raw_from_datetime(datetime: &Timestamp) -> (r: [u8; 11])
    requires
        datetime.wf(),
    ensures
        r@ == timestamp_wire_bytes(*datetime),
{
    let nano = convert_nano_to_raw(datetime.nanosecond);
    let r = [
        convert_year_to_century_raw(datetime.year),
        convert_year_to_raw(datetime.year),
        datetime.month,
        datetime.day,
        convert_hour_to_raw(datetime.hour as u32),
        convert_minute_to_raw(datetime.minute as u32),
        convert_second_to_raw(datetime.second as u32),
        nano[0],
        nano[1],
        nano[2],
        nano[3],
    ];
    proof {
        assert(r@ =~= timestamp_wire_bytes(*datetime));
    }
    r
}

pub fn create_raw_from_datetime_with_timezone(datetime: &TimestampTz) -> (r: [u8; 13])
    requires
        datetime.wf(),
    ensures
        r@ == timestamp_tz_wire_bytes(*datetime),
{
    let nano = convert_nano_to_raw(datetime.utc.nanosecond);
    let r = [
        convert_year_to_century_raw(datetime.utc.year),
        convert_year_to_raw(datetime.utc.year),
        datetime.utc.month,
        datetime.utc.day,
        convert_hour_to_raw(datetime.utc.hour as u32),
        convert_minute_to_raw(datetime.utc.minute as u32),
        convert_second_to_raw(datetime.utc.second as u32),
        nano[0],
        nano[1],
        nano[2],
        nano[3],
        convert_timezone_seconds_to_hour_raw(datetime.offset_seconds),
        convert_timezone_seconds_to_minute_raw(datetime.offset_seconds),
    ];
    proof {
        assert(r@ =~= timestamp_tz_wire_bytes(*datetime));
    }
    r
}

/// The civil time seven or more wire bytes decode to: the year from the
/// century and year fields, the time of day from the `value + 1` bytes,
/// and, from the eleventh byte on, the nanosecond count. Nothing is
/// returned where a byte is outside its field's range or the fields name
/// no calendar day.
pub open spec fn spec_decoded_datetime(b: Seq<u8>) -> Option<Timestamp>
    recommends
        b.len() == 7 || b.len() >= 11,
{
    if b[4] >= 1 && b[5] >= 1 && b[6] >= 1 {
        let t = Timestamp {
            year: decoded_year(b[0] as int, b[1] as int) as i32,
            month: b[2],
            day: b[3],
            hour: (b[4] - 1) as u8,
            minute: (b[5] - 1) as u8,
            second: (b[6] - 1) as u8,
            nanosecond: if b.len() >= 11 {
                spec_decoded_nano(b.subrange(7, 11))
            } else {
                0
            },
        };
        if t.wf() {
            Some(t)
        } else {
            None
        }
    } else {
        None
    }
}

pub fn create_datetime_from_raw(data: &[u8]) -> (r: Option<Timestamp>)
    requires
        data@.len() == 7 || data@.len() >= 11,
    ensures
        r == spec_decoded_datetime(data@),
{
    if data[4] == 0 || data[5] == 0 || data[6] == 0 {
        return None;
    }
    let year = convert_century(data[0]) + convert_year(data[1]);
    let month = convert_month(data[2]);
    let day = convert_day(data[3]);
    let hour = convert_hour(data[4]);
    let minute = convert_minute(data[5]);
    let second = convert_second(data[6]);
    let nano: u32 = if data.len() >= 11 {
        let nano_bytes = slice_subrange(data, 7, 11);
        convert_nano(nano_bytes)
    } else {
        0
    };
    proof {
        if data@.len() >= 11 {
            assert(data@.subrange(7, 11) =~= data@.subrange(7, 11));
        }
    }
    Timestamp::new(
        year,
        month as u8,
        day as u8,
        hour as u8,
        minute as u8,
        second as u8,
        nano,
    )
}

/// The zoned value thirteen or more wire bytes decode to: the UTC civil
/// time of the first eleven bytes, and the offset of the last two.
pub open spec fn spec_decoded_datetime_tz(b: Seq<u8>) -> Option<TimestampTz>
    recommends
        b.len() >= 13,
{
    let off = decoded_tz_offset(b[11] as int, b[12] as int);
    match spec_decoded_datetime(b.subrange(0, 11)) {
        Some(utc) => {
            if tz_offset_representable(off) {
                Some(TimestampTz { utc, offset_seconds: off as i32 })
            } else {
                None
            }
        },
        None => None,
    }
}

pub fn create_datetime_with_timezone_from_raw(data: &[u8]) -> (r: Option<TimestampTz>)
    requires
        data@.len() >= 13,
    ensures
        r == spec_decoded_datetime_tz(data@),
{
    let core = slice_subrange(data, 0, 11);
    let utc = match create_datetime_from_raw(core) {
        Some(utc) => utc,
        None => {
            return None;
        },
    };
    let timezone_hour = convert_timezone_hour(data[11]);
    let timezone_minute = convert_timezone_minute(data[12]);
    let offset: i32 = timezone_hour * 3600 + timezone_minute * 60;
    proof {
        lemma_mod_multiples_basic(timezone_hour as int * 60 + timezone_minute as int, 60);
        assert(60 * (timezone_hour as int * 60 + timezone_minute as int) == offset as int);
    }
    if -72000 <= offset && offset <= 86340 {
        Some(TimestampTz { utc, offset_seconds: offset })
    } else {
        None
    }
}

// ---------------------------------------------------------------------------
// Round trips of the temporal layouts.
// ---------------------------------------------------------------------------
/// A well-formed date's seven bytes decode to its midnight.
pub proof fn lemma_date_bytes_round_trip(d: Date)
    requires
        d.wf(),
    ensures
        spec_decoded_datetime(date_wire_bytes(d)) == Some(
            Timestamp {
                year: d.year,
                month: d.month,
                day: d.day,
                hour: 0,
                minute: 0,
                second: 0,
                nanosecond: 0,
            },
        ),
{
    let b = date_wire_bytes(d);
    lemma_year_field_bounds(d.year as int);
    lemma_year_round_trip(d.year as int);
    assert(b[0] == century_field(d.year as int) as u8);
    assert(b[0] as int == century_field(d.year as int));
    assert(b[1] as int == year_field(d.year as int));
}

/// A well-formed timestamp's eleven bytes decode to the timestamp itself.
pub proof fn lemma_timestamp_bytes_round_trip(t: Timestamp)
    requires
        t.wf(),
    ensures
        spec_decoded_datetime(timestamp_wire_bytes(t)) == Some(t),
{
    let b = timestamp_wire_bytes(t);
    lemma_year_field_bounds(t.year as int);
    lemma_year_round_trip(t.year as int);
    lemma_nano_round_trip(t.nanosecond);
    assert(b[0] as int == century_field(t.year as int));
    assert(b[1] as int == year_field(t.year as int));
    assert(b.subrange(7, 11) =~= nano_wire_bytes(t.nanosecond));
}

/// A well-formed zoned timestamp's thirteen bytes decode to the value
/// itself: the UTC core and the offset both come back.
pub proof fn lemma_timestamp_tz_bytes_round_trip(z: TimestampTz)
    requires
        z.wf(),
    ensures
        spec_decoded_datetime_tz(timestamp_tz_wire_bytes(z)) == Some(z),
{
    let b = timestamp_tz_wire_bytes(z);
    lemma_timestamp_bytes_round_trip(z.utc);
    assert(b.subrange(0, 11) =~= timestamp_wire_bytes(z.utc));
    lemma_tz_field_bounds(z.offset_seconds as int);
    lemma_tz_offset_round_trip(z.offset_seconds as int);
    assert(b[11] as int == tz_hour_field(z.offset_seconds as int));
    assert(b[12] as int == tz_minute_field(z.offset_seconds as int));
}

// ---------------------------------------------------------------------------
// Text padding.
// ---------------------------------------------------------------------------
/// The ASCII whitespace bytes trimmed from decoded text.
pub open spec fn is_space_byte(b: u8) -> bool {
    b == 32 || b == 9 || b == 10 || b == 13
}

/// The byte sequence with its trailing padding removed: only trailing
/// ASCII whitespace goes, since leading bytes of a column value are data
/// and only the tail is filler.
pub open spec fn trimmed_bytes(b: Seq<u8>) -> Seq<u8>
    decreases b.len(),
{
    if b.len() == 0 {
        b
    } else if is_space_byte(b.last()) {
        trimmed_bytes(b.drop_last())
    } else {
        b
    }
}

pub fn trim_wire_text(data: &[u8]) -> (r: Vec<u8>)
    ensures
        r@ == trimmed_bytes(data@),
{
    let mut end: usize = data.len();
    proof {
        assert(data@.subrange(0, data@.len() as int) =~= data@);
    }
    while 0 < end && (data[end - 1] == 32 || data[end - 1] == 9 || data[end - 1] == 10 || data[end
        - 1] == 13)
        invariant
            end <= data@.len(),
            trimmed_bytes(data@) == trimmed_bytes(data@.subrange(0, end as int)),
        decreases end,
    {
        proof {
            let sub = data@.subrange(0, end as int);
            assert(sub.drop_last() =~= data@.subrange(0, end as int - 1));
        }
        end = end - 1;
    }
    let mut r: Vec<u8> = Vec::new();
    let mut i: usize = 0;
    while i < end
        invariant
            i <= end <= data@.len(),
            r@ =~= data@.subrange(0, i as int),
        decreases end - i,
    {
        r.push(data[i]);
        i = i + 1;
    }
    proof {
        assert(r@ =~= data@.subrange(0, end as int));
    }
    r
}

} // verus!
