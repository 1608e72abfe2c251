use vstd::prelude::*;

verus! {

/// A failure reported by the decoding engine, one variant for each negative
/// status code that it documents.
#[derive(Copy, Clone, PartialEq, Eq, Debug, Structural)]
pub enum OpusFileError {
    False,
    Eof,
    Hole,
    ERead,
    EFault,
    EImpl,
    EInval,
    ENotFormat,
    EBadHeader,
    EVersion,
    ENotAudio,
    EBadPacket,
    EBadLink,
    ENoSeek,
    EBadTimeStamp,
}

pub type OpusFileResult<T> = Result<T, OpusFileError>;

/// The status codes that the engine documents: -1, -2, -3 and -128 through -139.
pub open spec fn is_status_code(c: int) -> bool {
    c == -1 || c == -2 || c == -3 || (-139 <= c && c <= -128)
}

/// The error that an engine status code stands for, if it is one.
pub open spec fn error_of_code(c: int) -> Option<OpusFileError> {
    if c == -1 {
        Some(OpusFileError::False)
    } else if c == -2 {
        Some(OpusFileError::Eof)
    } else if c == -3 {
        Some(OpusFileError::Hole)
    } else if c == -128 {
        Some(OpusFileError::ERead)
    } else if c == -129 {
        Some(OpusFileError::EFault)
    } else if c == -130 {
        Some(OpusFileError::EImpl)
    } else if c == -131 {
        Some(OpusFileError::EInval)
    } else if c == -132 {
        Some(OpusFileError::ENotFormat)
    } else if c == -133 {
        Some(OpusFileError::EBadHeader)
    } else if c == -134 {
        Some(OpusFileError::EVersion)
    } else if c == -135 {
        Some(OpusFileError::ENotAudio)
    } else if c == -136 {
        Some(OpusFileError::EBadPacket)
    } else if c == -137 {
        Some(OpusFileError::EBadLink)
    } else if c == -138 {
        Some(OpusFileError::ENoSeek)
    } else if c == -139 {
        Some(OpusFileError::EBadTimeStamp)
    } else {
        None
    }
}

impl OpusFileError {
    /// The engine status code of this error.
    pub open spec fn spec_code(self) -> int {
        match self {
            OpusFileError::False => -1,
            OpusFileError::Eof => -2,
            OpusFileError::Hole => -3,
            OpusFileError::ERead => -128,
            OpusFileError::EFault => -129,
            OpusFileError::EImpl => -130,
            OpusFileError::EInval => -131,
            OpusFileError::ENotFormat => -132,
            OpusFileError::EBadHeader => -133,
            OpusFileError::EVersion => -134,
            OpusFileError::ENotAudio => -135,
            OpusFileError::EBadPacket => -136,
            OpusFileError::EBadLink => -137,
            OpusFileError::ENoSeek => -138,
            OpusFileError::EBadTimeStamp => -139,
        }
    }

    /// The fixed human-readable description of this error: its variant's name.
    pub open spec fn spec_description(self) -> Seq<char> {
        match self {
            OpusFileError::False => "False"@,
            OpusFileError::Eof => "Eof"@,
            OpusFileError::Hole => "Hole"@,
            OpusFileError::ERead => "ERead"@,
            OpusFileError::EFault => "EFault"@,
            OpusFileError::EImpl => "EImpl"@,
            OpusFileError::EInval => "EInval"@,
            OpusFileError::ENotFormat => "ENotFormat"@,
            OpusFileError::EBadHeader => "EBadHeader"@,
            OpusFileError::EVersion => "EVersion"@,
            OpusFileError::ENotAudio => "ENotAudio"@,
            OpusFileError::EBadPacket => "EBadPacket"@,
            OpusFileError::EBadLink => "EBadLink"@,
            OpusFileError::ENoSeek => "ENoSeek"@,
            OpusFileError::EBadTimeStamp => "EBadTimeStamp"@,
        }
    }

    /// The error for an engine status code; `None` for any integer that is
    /// not one of the documented codes.
    pub fn from_code(code: i64) -> (r: Option<OpusFileError>)
        ensures
            r == error_of_code(code as int),
            r.is_some() <==> is_status_code(code as int),
    {
        match code {
            -1 => Some(OpusFileError::False),
            -2 => Some(OpusFileError::Eof),
            -3 => Some(OpusFileError::Hole),
            -128 => Some(OpusFileError::ERead),
            -129 => Some(OpusFileError::EFault),
            -130 => Some(OpusFileError::EImpl),
            -131 => Some(OpusFileError::EInval),
            -132 => Some(OpusFileError::ENotFormat),
            -133 => Some(OpusFileError::EBadHeader),
            -134 => Some(OpusFileError::EVersion),
            -135 => Some(OpusFileError::ENotAudio),
            -136 => Some(OpusFileError::EBadPacket),
            -137 => Some(OpusFileError::EBadLink),
            -138 => Some(OpusFileError::ENoSeek),
            -139 => Some(OpusFileError::EBadTimeStamp),
            _ => None,
        }
    }

    /// The engine status code of this error.
    pub fn code(&self) -> (r: i32)
        ensures
            r as int == self.spec_code(),
    {
        match self {
            OpusFileError::False => -1,
            OpusFileError::Eof => -2,
            OpusFileError::Hole => -3,
            OpusFileError::ERead => -128,
            OpusFileError::EFault => -129,
            OpusFileError::EImpl => -130,
            OpusFileError::EInval => -131,
            OpusFileError::ENotFormat => -132,
            OpusFileError::EBadHeader => -133,
            OpusFileError::EVersion => -134,
            OpusFileError::ENotAudio => -135,
            OpusFileError::EBadPacket => -136,
            OpusFileError::EBadLink => -137,
            OpusFileError::ENoSeek => -138,
            OpusFileError::EBadTimeStamp => -139,
        }
    }

    /// The fixed description of this error.
    pub fn description(&self) -> (r: &'static str)
        ensures
            r@ == self.spec_description(),
    {
        match self {
            OpusFileError::False => "False",
            OpusFileError::Eof => "Eof",
            OpusFileError::Hole => "Hole",
            OpusFileError::ERead => "ERead",
            OpusFileError::EFault => "EFault",
            OpusFileError::EImpl => "EImpl",
            OpusFileError::EInval => "EInval",
            OpusFileError::ENotFormat => "ENotFormat",
            OpusFileError::EBadHeader => "EBadHeader",
            OpusFileError::EVersion => "EVersion",
            OpusFileError::ENotAudio => "ENotAudio",
            OpusFileError::EBadPacket => "EBadPacket",
            OpusFileError::EBadLink => "EBadLink",
            OpusFileError::ENoSeek => "ENoSeek",
            OpusFileError::EBadTimeStamp => "EBadTimeStamp",
        }
    }

    /// The description as an owned string, as the error is displayed.
    pub fn to_string(&self) -> (r: String)
        ensures
            r@ == self.spec_description(),
    {
        self.description().to_owned()
    }
}

/// The engine's status codes and the errors correspond one to one: a code names
/// an error exactly when it is documented, distinct codes name distinct errors,
/// and each error is named by its own code.
pub proof fn lemma_status_codes_one_to_one(c1: int, c2: int, e: OpusFileError)
    ensures
        error_of_code(c1).is_some() <==> is_status_code(c1),
        error_of_code(c1) matches Some(e1) ==> e1.spec_code() == c1,
        error_of_code(c1).is_some() && error_of_code(c1) == error_of_code(c2) ==> c1 == c2,
        error_of_code(e.spec_code()) == Some(e),
        is_status_code(e.spec_code()),
{
}

} // verus!
