//! The numeric ABI of the native call layer: each enum names one closed set
//! of codes that the interface documents, together with the conversions
//! between the enum and the raw number that crosses the boundary.

use vstd::prelude::*;

verus! {

/// Mode flags for environment creation and for most other calls.
#[derive(Clone, Copy, Debug, PartialEq, Eq, Structural)]
pub enum EnvironmentMode {
    Default,
    Threaded,
}

impl EnvironmentMode {
    /// The numeric mode flag the native layer expects.
    pub open spec fn spec_code(self) -> u32 {
        match self {
            EnvironmentMode::Default => 0,
            EnvironmentMode::Threaded => 1,
        }
    }

    pub fn code(self) -> (r: u32)
        ensures
            r == self.spec_code(),
    {
        match self {
            EnvironmentMode::Default => 0,
            EnvironmentMode::Threaded => 1,
        }
    }
}

/// The closed set of status codes every native call returns.
#[derive(Clone, Copy, Debug, PartialEq, Eq, Structural)]
pub enum ReturnCode {
    Success,
    Error,
    NoData,
    InvalidHandle,
}

impl ReturnCode {
    /// The status numbers the native layer documents: 0 success, -1 error,
    /// 100 no data, -2 invalid handle.
    pub open spec fn spec_from_code(code: i32) -> Option<ReturnCode> {
        if code == 0 {
            Some(ReturnCode::Success)
        } else if code == 100 {
            Some(ReturnCode::NoData)
        } else if code == -2 {
            Some(ReturnCode::InvalidHandle)
        } else if code == -1 {
            Some(ReturnCode::Error)
        } else {
            None
        }
    }

    pub fn from_code(code: i32) -> (r: Option<ReturnCode>)
        ensures
            r == Self::spec_from_code(code),
    {
        if code == 0 {
            Some(ReturnCode::Success)
        } else if code == 100 {
            Some(ReturnCode::NoData)
        } else if code == -2 {
            Some(ReturnCode::InvalidHandle)
        } else if code == -1 {
            Some(ReturnCode::Error)
        } else {
            None
        }
    }
}

/// The kinds of handle the native layer allocates.
#[derive(Clone, Copy, Debug, PartialEq, Eq, Structural)]
pub enum HandleType {
    Environment,
    Error,
    Service,
    Statement,
    Define,
    Server,
    Session,
}

impl HandleType {
    /// The handle-type numbers of the native layer.
    pub open spec fn spec_code(self) -> u32 {
        match self {
            HandleType::Environment => 1,
            HandleType::Error => 2,
            HandleType::Service => 3,
            HandleType::Statement => 4,
            HandleType::Define => 6,
            HandleType::Server => 8,
            HandleType::Session => 9,
        }
    }

    pub fn code(self) -> (r: u32)
        ensures
            r == self.spec_code(),
    {
        match self {
            HandleType::Environment => 1,
            HandleType::Error => 2,
            HandleType::Service => 3,
            HandleType::Statement => 4,
            HandleType::Define => 6,
            HandleType::Server => 8,
            HandleType::Session => 9,
        }
    }

    pub open spec fn spec_from_code(code: u32) -> Option<HandleType> {
        if code == 1 {
            Some(HandleType::Environment)
        } else if code == 2 {
            Some(HandleType::Error)
        } else if code == 3 {
            Some(HandleType::Service)
        } else if code == 4 {
            Some(HandleType::Statement)
        } else if code == 6 {
            Some(HandleType::Define)
        } else if code == 8 {
            Some(HandleType::Server)
        } else if code == 9 {
            Some(HandleType::Session)
        } else {
            None
        }
    }

    pub fn from_code(code: u32) -> (r: Option<HandleType>)
        ensures
            r == Self::spec_from_code(code),
    {
        if code == 1 {
            Some(HandleType::Environment)
        } else if code == 2 {
            Some(HandleType::Error)
        } else if code == 3 {
            Some(HandleType::Service)
        } else if code == 4 {
            Some(HandleType::Statement)
        } else if code == 6 {
            Some(HandleType::Define)
        } else if code == 8 {
            Some(HandleType::Server)
        } else if code == 9 {
            Some(HandleType::Session)
        } else {
            None
        }
    }

    /// A short human-readable name, used when tagging error records.
    pub fn describe(self) -> (r: &'static str)
        ensures
            self is Environment ==> r@ == "Environment handle"@,
            self is Error ==> r@ == "Error handle"@,
            self is Service ==> r@ == "Service handle"@,
            self is Statement ==> r@ == "Statement handle"@,
            self is Define ==> r@ == "Define handle"@,
            self is Server ==> r@ == "Server handle"@,
            self is Session ==> r@ == "Session handle"@,
    {
        match self {
            HandleType::Environment => "Environment handle",
            HandleType::Error => "Error handle",
            HandleType::Service => "Service handle",
            HandleType::Statement => "Statement handle",
            HandleType::Define => "Define handle",
            HandleType::Server => "Server handle",
            HandleType::Session => "Session handle",
        }
    }
}

/// The handle attributes the driver reads or writes.
#[derive(Clone, Copy, Debug, PartialEq, Eq, Structural)]
pub enum AttributeType {
    DataSize,
    DataType,
    Precision,
    Scale,
    Server,
    Session,
    PrefetchRows,
    ParameterCount,
    UserName,
    Password,
    Statement,
    Parameter,
}

impl AttributeType {
    /// The attribute numbers of the native layer. `Scale` and `Server`
    /// share a number; they apply to different handle kinds.
    pub open spec fn spec_code(self) -> u32 {
        match self {
            AttributeType::DataSize => 1,
            AttributeType::DataType => 2,
            AttributeType::Precision => 5,
            AttributeType::Scale => 6,
            AttributeType::Server => 6,
            AttributeType::Session => 7,
            AttributeType::PrefetchRows => 11,
            AttributeType::ParameterCount => 18,
            AttributeType::UserName => 22,
            AttributeType::Password => 23,
            AttributeType::Statement => 24,
            AttributeType::Parameter => 124,
        }
    }

    pub fn code(self) -> (r: u32)
        ensures
            r == self.spec_code(),
    {
        match self {
            AttributeType::DataSize => 1,
            AttributeType::DataType => 2,
            AttributeType::Precision => 5,
            AttributeType::Scale => 6,
            AttributeType::Server => 6,
            AttributeType::Session => 7,
            AttributeType::PrefetchRows => 11,
            AttributeType::ParameterCount => 18,
            AttributeType::UserName => 22,
            AttributeType::Password => 23,
            AttributeType::Statement => 24,
            AttributeType::Parameter => 124,
        }
    }
}

/// How a session authenticates.
#[derive(Clone, Copy, Debug, PartialEq, Eq, Structural)]
pub enum CredentialsType {
    Rdbms,
}

impl CredentialsType {
    pub open spec fn spec_code(self) -> u32 {
        1
    }

    pub fn code(self) -> (r: u32)
        ensures
            r == self.spec_code(),
    {
        1
    }
}

/// The SQL syntax a statement is prepared under.
#[derive(Clone, Copy, Debug, PartialEq, Eq, Structural)]
pub enum SyntaxType {
    Ntv,
}

impl SyntaxType {
    pub open spec fn spec_code(self) -> u32 {
        1
    }

    pub fn code(self) -> (r: u32)
        ensures
            r == self.spec_code(),
    {
        1
    }
}

/// The wire data types the driver understands, both as a column's declared
/// type and as the external type a buffer is defined or bound with.
#[derive(Clone, Copy, Debug, PartialEq, Eq, Structural)]
pub enum OciDataType {
    SqlVarChar,
    SqlInt,
    SqlNum,
    SqlFloat,
    SqlDate,
    SqlChar,
    SqlTimestamp,
    SqlTimestampTz,
}

impl OciDataType {
    /// The number of bytes needed to represent the data type: the fixed
    /// wire widths for numerics and temporals, and the widest permitted
    /// column for the text types.
    pub open spec fn spec_size(self) -> u16 {
        match self {
            OciDataType::SqlVarChar => 4000,
            OciDataType::SqlInt => 8,
            OciDataType::SqlNum => 8,
            OciDataType::SqlFloat => 8,
            OciDataType::SqlDate => 7,
            OciDataType::SqlChar => 2000,
            OciDataType::SqlTimestamp => 11,
            OciDataType::SqlTimestampTz => 13,
        }
    }

    pub fn size(&self) -> (r: u16)
        ensures
            r == self.spec_size(),
    {
        match *self {
            OciDataType::SqlVarChar => 4000,
            OciDataType::SqlInt | OciDataType::SqlNum | OciDataType::SqlFloat => 8,
            OciDataType::SqlDate => 7,
            OciDataType::SqlChar => 2000,
            OciDataType::SqlTimestamp => 11,
            OciDataType::SqlTimestampTz => 13,
        }
    }

    /// The external-type number a buffer is bound or defined with. The two
    /// timestamp variants use their internal codes here, as the define call
    /// expects.
    pub open spec fn spec_code(self) -> u16 {
        match self {
            OciDataType::SqlVarChar => 1,
            OciDataType::SqlInt => 3,
            OciDataType::SqlNum => 2,
            OciDataType::SqlFloat => 4,
            OciDataType::SqlDate => 12,
            OciDataType::SqlChar => 96,
            OciDataType::SqlTimestamp => 180,
            OciDataType::SqlTimestampTz => 181,
        }
    }

    pub fn code(&self) -> (r: u16)
        ensures
            r == self.spec_code(),
    {
        match *self {
            OciDataType::SqlVarChar => 1,
            OciDataType::SqlInt => 3,
            OciDataType::SqlNum => 2,
            OciDataType::SqlFloat => 4,
            OciDataType::SqlDate => 12,
            OciDataType::SqlChar => 96,
            OciDataType::SqlTimestamp => 180,
            OciDataType::SqlTimestampTz => 181,
        }
    }

    /// The declared-type number a column reports, as the metadata call
    /// returns it. Timestamps are reported under their public numbers,
    /// not the internal ones the define call takes.
    pub open spec fn spec_from_code(code: u16) -> Option<OciDataType> {
        if code == 1 {
            Some(OciDataType::SqlVarChar)
        } else if code == 2 {
            Some(OciDataType::SqlNum)
        } else if code == 3 {
            Some(OciDataType::SqlInt)
        } else if code == 4 {
            Some(OciDataType::SqlFloat)
        } else if code == 12 {
            Some(OciDataType::SqlDate)
        } else if code == 96 {
            Some(OciDataType::SqlChar)
        } else if code == 187 {
            Some(OciDataType::SqlTimestamp)
        } else if code == 188 {
            Some(OciDataType::SqlTimestampTz)
        } else {
            None
        }
    }

    pub fn from_code(code: u16) -> (r: Option<OciDataType>)
        ensures
            r == Self::spec_from_code(code),
    {
        if code == 1 {
            Some(OciDataType::SqlVarChar)
        } else if code == 2 {
            Some(OciDataType::SqlNum)
        } else if code == 3 {
            Some(OciDataType::SqlInt)
        } else if code == 4 {
            Some(OciDataType::SqlFloat)
        } else if code == 12 {
            Some(OciDataType::SqlDate)
        } else if code == 96 {
            Some(OciDataType::SqlChar)
        } else if code == 187 {
            Some(OciDataType::SqlTimestamp)
        } else if code == 188 {
            Some(OciDataType::SqlTimestampTz)
        } else {
            None
        }
    }
}

/// What kind of statement was prepared, as the statement-type attribute
/// reports it.
#[derive(Clone, Copy, Debug, PartialEq, Eq, Structural)]
pub enum StatementType {
    Unknown,
    Select,
    Update,
    Delete,
    Insert,
    Create,
    Drop,
    Alter,
    Begin,
    Declare,
}

impl StatementType {
    pub open spec fn spec_code(self) -> u32 {
        match self {
            StatementType::Unknown => 0,
            StatementType::Select => 1,
            StatementType::Update => 2,
            StatementType::Delete => 3,
            StatementType::Insert => 4,
            StatementType::Create => 5,
            StatementType::Drop => 6,
            StatementType::Alter => 7,
            StatementType::Begin => 8,
            StatementType::Declare => 9,
        }
    }

    pub fn code(self) -> (r: u32)
        ensures
            r == self.spec_code(),
    {
        match self {
            StatementType::Unknown => 0,
            StatementType::Select => 1,
            StatementType::Update => 2,
            StatementType::Delete => 3,
            StatementType::Insert => 4,
            StatementType::Create => 5,
            StatementType::Drop => 6,
            StatementType::Alter => 7,
            StatementType::Begin => 8,
            StatementType::Declare => 9,
        }
    }

    pub open spec fn spec_from_code(code: u32) -> Option<StatementType> {
        if code == 0 {
            Some(StatementType::Unknown)
        } else if code == 1 {
            Some(StatementType::Select)
        } else if code == 2 {
            Some(StatementType::Update)
        } else if code == 3 {
            Some(StatementType::Delete)
        } else if code == 4 {
            Some(StatementType::Insert)
        } else if code == 5 {
            Some(StatementType::Create)
        } else if code == 6 {
            Some(StatementType::Drop)
        } else if code == 7 {
            Some(StatementType::Alter)
        } else if code == 8 {
            Some(StatementType::Begin)
        } else if code == 9 {
            Some(StatementType::Declare)
        } else {
            None
        }
    }

    pub fn from_code(code: u32) -> (r: Option<StatementType>)
        ensures
            r == Self::spec_from_code(code),
    {
        if code == 0 {
            Some(StatementType::Unknown)
        } else if code == 1 {
            Some(StatementType::Select)
        } else if code == 2 {
            Some(StatementType::Update)
        } else if code == 3 {
            Some(StatementType::Delete)
        } else if code == 4 {
            Some(StatementType::Insert)
        } else if code == 5 {
            Some(StatementType::Create)
        } else if code == 6 {
            Some(StatementType::Drop)
        } else if code == 7 {
            Some(StatementType::Alter)
        } else if code == 8 {
            Some(StatementType::Begin)
        } else if code == 9 {
            Some(StatementType::Declare)
        } else {
            None
        }
    }
}

/// The kinds of descriptor the driver allocates.
#[derive(Clone, Copy, Debug, PartialEq, Eq, Structural)]
pub enum DescriptorType {
    Parameter,
}

impl DescriptorType {
    pub open spec fn spec_code(self) -> u32 {
        53
    }

    pub fn code(self) -> (r: u32)
        ensures
            r == self.spec_code(),
    {
        53
    }
}

/// The orientation of a fetch call.
#[derive(Clone, Copy, Debug, PartialEq, Eq, Structural)]
pub enum FetchType {
    Next,
    First,
}

impl FetchType {
    pub open spec fn spec_code(self) -> u16 {
        match self {
            FetchType::Next => 2,
            FetchType::First => 4,
        }
    }

    pub fn code(self) -> (r: u16)
        ensures
            r == self.spec_code(),
    {
        match self {
            FetchType::Next => 2,
            FetchType::First => 4,
        }
    }
}

/// Whether a native number is to be read as signed or unsigned.
#[derive(Clone, Copy, Debug, PartialEq, Eq, Structural)]
pub enum OciNumberType {
    Unsigned,
    Signed,
}

impl OciNumberType {
    pub open spec fn spec_code(self) -> u32 {
        match self {
            OciNumberType::Unsigned => 0,
            OciNumberType::Signed => 2,
        }
    }

    pub fn code(self) -> (r: u32)
        ensures
            r == self.spec_code(),
    {
        match self {
            OciNumberType::Unsigned => 0,
            OciNumberType::Signed => 2,
        }
    }
}

} // verus!
