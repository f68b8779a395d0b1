//! The driver's error values: server error records retrieved from the
//! native layer's reporting facility, and conversion failures raised when
//! fetched bytes cannot be read as the expected native type.

use crate::codes::ReturnCode;
use crate::display::{dec_chars_int, i64_to_string, u64_to_string};
use vstd::prelude::*;

verus! {

/// Why fetched bytes could not be converted to a native value.
#[derive(Clone, Copy, Debug, PartialEq, Eq, Structural)]
pub enum ConversionError {
    /// Text bytes that are not well-formed UTF-8.
    InvalidText,
    /// Temporal bytes whose fields name no calendar instant.
    InvalidTemporal,
    /// A buffer shorter than the type's fixed wire layout.
    TooShort,
    /// A wire type this driver has no decoder for.
    Unsupported,
}

/// The errors that might result when interacting with the native layer.
#[derive(Clone, Debug, PartialEq)]
pub enum OciError {
    /// One or more error records the server registered, tagged with the
    /// action that failed.
    Oracle(ErrorRecord),
    /// Bytes returned by the server could not be interpreted as the
    /// expected native type; carries the decoding failure, not a server
    /// error code.
    Conversion(ConversionError),
}

/// The error details registered against a handle: a description of the
/// action that failed, and the (code, message) pairs the server reported,
/// in order. Typically the pairs come as Oracle error codes and text such
/// as "ORA-24312: illegal parameters specified for allocating user memory".
#[derive(Clone, Debug, PartialEq)]
pub struct ErrorRecord {
    description: String,
    records: Vec<(i32, String)>,
}

/// The rendering of one numbered record: its one-based number, its code
/// and its message, each on a line of its own.
pub open spec fn rendered_record(number: int, code: int, text: Seq<char>) -> Seq<char> {
    "\nError number: "@ + dec_chars_int(number) + "\nError code: ORA-"@ + dec_chars_int(code)
        + "\nError text: "@ + text
}

/// The renderings of the first `upto` records, in order.
pub open spec fn rendered_records(records: Seq<(i32, String)>, upto: int) -> Seq<char>
    decreases upto,
{
    if upto <= 0 {
        Seq::empty()
    } else {
        rendered_records(records, upto - 1) + rendered_record(
            upto,
            records[upto - 1].0 as int,
            records[upto - 1].1@,
        )
    }
}

impl ErrorRecord {
    pub closed spec fn desc_view(&self) -> Seq<char> {
        self.description@
    }

    pub closed spec fn records_view(&self) -> Seq<(i32, String)> {
        self.records@
    }

    /// Creates a record holding no errors yet. The description tells what
    /// action caused the failure.
    pub fn new(description: &str) -> (r: ErrorRecord)
        ensures
            r.desc_view() == description@,
            r.records_view() == Seq::<(i32, String)>::empty(),
    {
        ErrorRecord { description: String::from_str(description), records: Vec::new() }
    }

    /// The (code, message) pairs gathered so far, in order.
    pub fn error_records(&self) -> (r: &[(i32, String)])
        ensures
            r@ == self.records_view(),
    {
        self.records.as_slice()
    }

    /// Appends one more error code and message.
    pub fn add_error(&mut self, code: i32, description: String)
        ensures
            final(self).records_view() == old(self).records_view().push((code, description)),
            final(self).desc_view() == old(self).desc_view(),
    {
        self.records.push((code, description))
    }

    /// One step of draining the native error-record facility: what one
    /// "get error record" status means for the record being gathered. A
    /// no-data status ends the drain; a success appends the fetched code
    /// and message; a failure of the facility itself appends the code
    /// with a fixed message saying so. Returns whether to ask for more.
    pub fn absorb_fetch(&mut self, status: ReturnCode, error_code: i32, message: String) -> (more:
        bool)
        ensures
            final(self).desc_view() == old(self).desc_view(),
            status is NoData ==> !more && final(self).records_view() == old(self).records_view(),
            !(status is NoData) ==> more && final(self).records_view().len() == old(
                self,
            ).records_view().len() + 1 && final(self).records_view().drop_last() == old(
                self,
            ).records_view() && final(self).records_view().last().0 == error_code,
            status is Success ==> final(self).records_view().last().1 == message,
            status is Error ==> final(self).records_view().last().1@
                == "Call to OCIErrorGet failed"@,
            status is InvalidHandle ==> final(self).records_view().last().1@
                == "Invalid handle used to get errors"@,
    {
        let more = match status {
            ReturnCode::NoData => false,
            ReturnCode::Success => {
                self.add_error(error_code, message);
                true
            },
            ReturnCode::Error => {
                self.add_error(error_code, String::from_str("Call to OCIErrorGet failed"));
                true
            },
            ReturnCode::InvalidHandle => {
                self.add_error(
                    error_code,
                    String::from_str("Invalid handle used to get errors"),
                );
                true
            },
        };
        proof {
            if !(status is NoData) {
                assert(self.records@.drop_last() =~= old(self).records@);
            }
        }
        more
    }

    /// The record as text: the action's description, then every numbered
    /// (code, message) pair in order, none truncated.
    pub fn render(&self) -> (r: String)
        ensures
            r@ == self.desc_view() + rendered_records(
                self.records_view(),
                self.records_view().len() as int,
            ),
    {
        let mut text = String::from_str(self.description.as_str());
        let mut i: usize = 0;
        while i < self.records.len()
            invariant
                i <= self.records_view().len(),
                text@ == self.desc_view() + rendered_records(self.records_view(), i as int),
            decreases self.records_view().len() - i,
        {
            let number = u64_to_string((i + 1) as u64);
            let code = i64_to_string(self.records[i].0 as i64);
            text.append("\nError number: ");
            text.append(number.as_str());
            text.append("\nError code: ORA-");
            text.append(code.as_str());
            text.append("\nError text: ");
            text.append(self.records[i].1.as_str());
            proof {
                assert(text@ =~= self.desc_view() + rendered_records(
                    self.records_view(),
                    i as int + 1,
                ));
            }
            i = i + 1;
        }
        text
    }
}

impl OciError {
    /// The error as text: the full record for a server error, a fixed
    /// phrase for a conversion failure.
    pub fn describe(&self) -> (r: String)
        ensures
            self matches OciError::Oracle(rec) ==> r@ == rec.desc_view() + rendered_records(
                rec.records_view(),
                rec.records_view().len() as int,
            ),
            self is Conversion ==> r@ == "Cannot convert from OCI to Rust type"@,
    {
        match self {
            OciError::Oracle(record) => record.render(),
            OciError::Conversion(_) => String::from_str("Cannot convert from OCI to Rust type"),
        }
    }
}

} // verus!
