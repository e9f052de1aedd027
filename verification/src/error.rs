//! The errors the demuxer can report.

use vstd::prelude::*;

use crate::element_id::ElementId;

verus! {

/// Errors that can occur when demuxing Matroska files.
#[derive(Debug)]
pub enum DemuxError {
    /// A read or seek went past the end of the byte source.
    IoError,
    /// A string payload was not valid UTF-8.
    FromUtf8Error,
    /// A stored value did not fit the integer type that was asked for.
    TryFromIntError,
    /// An invalid EBML Element ID was found.
    InvalidEbmlElementId,
    /// An invalid EBML data size was found.
    InvalidEbmlDataSize,
    /// An invalid EBML header was found.
    InvalidEbmlHeader(String),
    /// Wrong float size.
    WrongFloatSize(u64),
    /// Wrong integer size.
    WrongIntegerSize(u64),
    /// Wrong date size.
    WrongDateSize(u64),
    /// Unsupported DocType.
    UnsupportedDocType(String),
    /// Unsupported DocTypeReadVersion.
    UnsupportedDocTypeReadVersion(u64),
    /// Unexpected element found. Holds the expected and the found element.
    UnexpectedElement(ElementId, ElementId),
    /// Unexpected data type found.
    UnexpectedDataType,
    /// Can't find a cluster element.
    CantFindCluster,
    /// Can't find the expected element.
    ElementNotFound(ElementId),
    /// A value that should not be zero was zero.
    NonZeroValueIsZero(ElementId),
    /// A value that should be positive is not positive.
    PositiveValueIsNotPositive,
}

impl DemuxError {
    /// A short description of the error.
    pub fn message(&self) -> (r: String)
        ensures
            r@.len() > 0,
    {
        let text: &str = match self {
            DemuxError::IoError => "read or seek past the end of the byte source",
            DemuxError::FromUtf8Error => "a string was not valid UTF-8",
            DemuxError::TryFromIntError => "a value did not fit the expected integer type",
            DemuxError::InvalidEbmlElementId => "invalid EBML Element ID was found",
            DemuxError::InvalidEbmlDataSize => "invalid EBML data size was found",
            DemuxError::InvalidEbmlHeader(_) => "invalid EBML header",
            DemuxError::WrongFloatSize(_) => "floats need to be either 0, 4 or 8 bytes",
            DemuxError::WrongIntegerSize(_) => "integers can be at most 8 bytes",
            DemuxError::WrongDateSize(_) => "dates can be at most 8 bytes",
            DemuxError::UnsupportedDocType(_) => {
                "unsupported DocType. Only 'matroska' and 'webm' are supported"
            },
            DemuxError::UnsupportedDocTypeReadVersion(_) => "unsupported DocTypeReadVersion",
            DemuxError::UnexpectedElement(_, _) => "unexpected element found",
            DemuxError::UnexpectedDataType => "unexpected data type found",
            DemuxError::CantFindCluster => "can't find the first cluster element",
            DemuxError::ElementNotFound(_) => "can't find the expected element",
            DemuxError::NonZeroValueIsZero(_) => "a value that should not be zero was zero",
            DemuxError::PositiveValueIsNotPositive => {
                "a value that should be positive is not positive"
            },
        };
        proof {
            reveal_strlit("read or seek past the end of the byte source");
            reveal_strlit("a string was not valid UTF-8");
            reveal_strlit("a value did not fit the expected integer type");
            reveal_strlit("invalid EBML Element ID was found");
            reveal_strlit("invalid EBML data size was found");
            reveal_strlit("invalid EBML header");
            reveal_strlit("floats need to be either 0, 4 or 8 bytes");
            reveal_strlit("integers can be at most 8 bytes");
            reveal_strlit("dates can be at most 8 bytes");
            reveal_strlit("unsupported DocType. Only 'matroska' and 'webm' are supported");
            reveal_strlit("unsupported DocTypeReadVersion");
            reveal_strlit("unexpected element found");
            reveal_strlit("unexpected data type found");
            reveal_strlit("can't find the first cluster element");
            reveal_strlit("can't find the expected element");
            reveal_strlit("a value that should not be zero was zero");
            reveal_strlit("a value that should be positive is not positive");
        }
        String::from_str(text)
    }
}

} // verus!
