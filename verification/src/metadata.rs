//! The container metadata records: header, segment info, tracks, chapters,
//! tags, and the seek and cue records, each bound from the children of one
//! master element.

use vstd::prelude::*;

use crate::ebml::{
    collect_children, find_bool_or, find_custom_type, find_field, find_float_or, find_nonzero,
    find_nonzero_or, find_string, find_unsigned, find_unsigned_or, parse_child, try_find_binary,
    try_find_bool, try_find_custom_type, try_find_custom_type_or, try_find_date, try_find_float,
    try_find_nonzero, try_find_string, try_find_unsigned, try_parse_child, try_parse_children,
    ElementData, ParsableElement,
};
use crate::element_id::ElementId;
use crate::enums::{
    AesSettingsCipherMode, AspectRatioType, ChromaSitingHorz, ChromaSitingVert, ContentEncAlgo,
    ContentEncodingType, DisplayUnit, FlagInterlaced, FromUnsigned, MatrixCoefficients, Primaries,
    Range, StereoMode, TrackType, TransferCharacteristics,
};
use crate::error::DemuxError;
use crate::floatbits::{f64_bits_is_negative, is_negative_f64_bits};
use crate::source::ByteSource;

verus! {

/// The unsigned value stored under an element, when one is there.
pub open spec fn spec_unsigned(fields: Seq<(ElementId, ElementData)>, id: ElementId) -> Option<
    u64,
> {
    match find_field(fields, id) {
        Option::Some(d) => match d {
            ElementData::Unsigned(v) => Some(v),
            _ => None,
        },
        Option::None => None,
    }
}

/// The unsigned value stored under an element, or a default.
pub open spec fn spec_unsigned_or(
    fields: Seq<(ElementId, ElementData)>,
    id: ElementId,
    d: u64,
) -> u64 {
    match spec_unsigned(fields, id) {
        Option::Some(v) => v,
        Option::None => d,
    }
}

/// The boolean stored under an element (zero is false), or a default.
pub open spec fn spec_bool_or(
    fields: Seq<(ElementId, ElementData)>,
    id: ElementId,
    d: bool,
) -> bool {
    match spec_unsigned(fields, id) {
        Option::Some(v) => v != 0,
        Option::None => d,
    }
}

/// The characters of the string stored under an element, when one is there.
pub open spec fn spec_string(fields: Seq<(ElementId, ElementData)>, id: ElementId) -> Option<
    Seq<char>,
> {
    match find_field(fields, id) {
        Option::Some(d) => match d {
            ElementData::String(s) => Some(s@),
            _ => None,
        },
        Option::None => None,
    }
}

/// The float bits stored under an element, when one is there.
pub open spec fn spec_float(fields: Seq<(ElementId, ElementData)>, id: ElementId) -> Option<u64> {
    match find_field(fields, id) {
        Option::Some(d) => match d {
            ElementData::Float(v) => Some(v),
            _ => None,
        },
        Option::None => None,
    }
}

/// The date stored under an element, when one is there.
pub open spec fn spec_date(fields: Seq<(ElementId, ElementData)>, id: ElementId) -> Option<i64> {
    match find_field(fields, id) {
        Option::Some(d) => match d {
            ElementData::Date(v) => Some(v),
            _ => None,
        },
        Option::None => None,
    }
}

/// The characters of an optional string, for contracts over optional fields.
pub open spec fn opt_view(o: Option<String>) -> Option<Seq<char>> {
    match o {
        Option::Some(s) => Some(s@),
        Option::None => None,
    }
}

/// A string with its trailing NUL padding removed.
pub open spec fn trimmed_nuls(s: Seq<char>) -> Seq<char>
    decreases s.len(),
{
    if s.len() > 0 && s.last() == '\0' {
        trimmed_nuls(s.drop_last())
    } else {
        s
    }
}

/// Whether a DocType string names a container this demuxer reads, after
/// NUL padding is removed.
pub open spec fn doc_type_supported(s: Seq<char>) -> bool {
    trimmed_nuls(s) == "matroska"@ || trimmed_nuls(s) == "webm"@
}

/// Tests whether a DocType string, with trailing NUL padding removed, names
/// a supported container.
fn supported_doc_type(s: &str) -> (r: bool)
    ensures
        r == doc_type_supported(s@),
{
    let len = s.unicode_len();
    let mut n = len;
    proof {
        assert(s@.take(len as int) =~= s@);
    }
    while n > 0 && s.get_char(n - 1) == '\0'
        invariant
            n <= len,
            len == s@.len(),
            trimmed_nuls(s@) == trimmed_nuls(s@.take(n as int)),
        decreases n,
    {
        proof {
            let t = s@.take(n as int);
            assert(t.drop_last() =~= s@.take(n - 1));
            assert(t.last() == s@[n - 1]);
        }
        n = n - 1;
    }
    proof {
        let t = s@.take(n as int);
        if n > 0 {
            assert(t.last() == s@[n - 1]);
        }
        assert(trimmed_nuls(t) == t);
        assert(s@.take(len as int) =~= s@);
        reveal_strlit("matroska");
        reveal_strlit("webm");
    }
    if n == 8 {
        let r = s.get_char(0) == 'm' && s.get_char(1) == 'a' && s.get_char(2) == 't' && s.get_char(
            3,
        ) == 'r' && s.get_char(4) == 'o' && s.get_char(5) == 's' && s.get_char(6) == 'k'
            && s.get_char(7) == 'a';
        proof {
            if r {
                assert(s@.take(8) =~= "matroska"@);
            } else {
                assert(s@.take(8) != "matroska"@);
                assert(s@.take(8).len() != "webm"@.len());
            }
        }
        r
    } else if n == 4 {
        let r = s.get_char(0) == 'w' && s.get_char(1) == 'e' && s.get_char(2) == 'b' && s.get_char(
            3,
        ) == 'm';
        proof {
            if r {
                assert(s@.take(4) =~= "webm"@);
            } else {
                assert(s@.take(4) != "webm"@);
                assert(s@.take(4).len() != "matroska"@.len());
            }
        }
        r
    } else {
        proof {
            assert(trimmed_nuls(s@).len() != "matroska"@.len());
            assert(trimmed_nuls(s@).len() != "webm"@.len());
        }
        false
    }
}

/// The EBML header of the file.
#[derive(Debug)]
pub struct EbmlHeader {
    /// The EBML version used to create the file.
    pub version: Option<u64>,
    /// The minimum EBML version a parser has to support to read this file.
    pub read_version: Option<u64>,
    /// The maximum length of the element identifiers in this file.
    pub max_id_length: u64,
    /// The maximum length of the data sizes in this file.
    pub max_size_length: u64,
    /// The type of document that follows this header.
    pub doc_type: String,
    /// The version of the DocType interpreter used to create the file.
    pub doc_type_version: u64,
    /// The minimum DocType version an interpreter has to support to read
    /// this file.
    pub doc_type_read_version: u64,
}

/// What a bound EBML header must hold, given the fields of its master
/// element: every field equals its stored or default value, and the header
/// passed validation.
pub open spec fn ebml_header_matches(
    h: EbmlHeader,
    fields: Seq<(ElementId, ElementData)>,
) -> bool {
    &&& h.version == spec_unsigned(fields, ElementId::EbmlVersion)
    &&& h.read_version == spec_unsigned(fields, ElementId::EbmlReadVersion)
    &&& h.max_id_length == spec_unsigned_or(fields, ElementId::EbmlMaxIdLength, 4)
    &&& h.max_size_length == spec_unsigned_or(fields, ElementId::EbmlMaxSizeLength, 8)
    &&& Some(h.doc_type@) == spec_string(fields, ElementId::DocType)
    &&& Some(h.doc_type_version) == spec_unsigned(fields, ElementId::DocTypeVersion)
    &&& Some(h.doc_type_read_version) == spec_unsigned(fields, ElementId::DocTypeReadVersion)
}

/// Whether the header fields pass validation: a supported DocType, a DocType
/// read version below 4, identifiers of at most 4 bytes and sizes of at most
/// 8 bytes.
pub open spec fn ebml_header_valid(fields: Seq<(ElementId, ElementData)>) -> bool {
    &&& spec_string(fields, ElementId::DocType) matches Some(s) && doc_type_supported(s)
    &&& spec_unsigned(fields, ElementId::DocTypeVersion) is Some
    &&& spec_unsigned(fields, ElementId::DocTypeReadVersion) matches Some(v) && v < 4
    &&& spec_unsigned_or(fields, ElementId::EbmlMaxIdLength, 4) <= 4
    &&& spec_unsigned_or(fields, ElementId::EbmlMaxSizeLength, 8) <= 8
}

/// Whether every header field the binder reads has the payload type it
/// expects wherever it is present.
pub open spec fn ebml_header_types_ok(fields: Seq<(ElementId, ElementData)>) -> bool {
    &&& (find_field(fields, ElementId::EbmlVersion) matches Some(d) ==> d is Unsigned)
    &&& (find_field(fields, ElementId::EbmlReadVersion) matches Some(d) ==> d is Unsigned)
    &&& (find_field(fields, ElementId::EbmlMaxIdLength) matches Some(d) ==> d is Unsigned)
    &&& (find_field(fields, ElementId::EbmlMaxSizeLength) matches Some(d) ==> d is Unsigned)
    &&& (find_field(fields, ElementId::DocType) matches Some(d) ==> d is String)
    &&& (find_field(fields, ElementId::DocTypeVersion) matches Some(d) ==> d is Unsigned)
    &&& (find_field(fields, ElementId::DocTypeReadVersion) matches Some(d) ==> d is Unsigned)
}

/// What holds of every header that passed validation: a supported DocType, a
/// DocType read version below 4, identifiers of at most 4 bytes and sizes of
/// at most 8 bytes.
pub open spec fn ebml_header_valid_values(h: EbmlHeader) -> bool {
    &&& doc_type_supported(h.doc_type@)
    &&& h.doc_type_read_version < 4
    &&& h.max_id_length <= 4
    &&& h.max_size_length <= 8
}

impl ParsableElement for EbmlHeader {
    open spec fn binds_to(
        data: Seq<u8>,
        fields: Seq<(ElementId, ElementData)>,
        out: Self,
    ) -> bool {
        ebml_header_matches(out, fields) && ebml_header_valid_values(out)
    }

    /// Binds and validates the EBML header. It succeeds exactly when every
    /// field carries its expected type, the required fields are present, the
    /// DocType is `matroska` or `webm` after NUL-trimming, the DocType read
    /// version is below 4, identifiers take at most 4 bytes and sizes at
    /// most 8.
    fn new(r: &mut ByteSource, fields: &Vec<(ElementId, ElementData)>) -> (res: Result<
        Self,
        DemuxError,
    >)
        ensures
            res is Ok <==> (ebml_header_types_ok(fields@) && ebml_header_valid(fields@)),
            res matches Ok(h) ==> ebml_header_matches(h, fields@) && ebml_header_valid_values(h),
            (ebml_header_types_ok(fields@) && spec_string(fields@, ElementId::DocType) is Some
                && spec_unsigned(fields@, ElementId::DocTypeVersion) is Some && spec_unsigned(
                fields@,
                ElementId::DocTypeReadVersion,
            ) is Some && !ebml_header_valid(fields@)) ==> (res matches Err(e) && e
                is InvalidEbmlHeader),
    {
        let version = match try_find_unsigned(fields, ElementId::EbmlVersion) {
            Ok(v) => v,
            Err(e) => {
                return Err(e);
            },
        };
        let read_version = match try_find_unsigned(fields, ElementId::EbmlReadVersion) {
            Ok(v) => v,
            Err(e) => {
                return Err(e);
            },
        };
        let max_id_length = match find_unsigned_or(fields, ElementId::EbmlMaxIdLength, 4) {
            Ok(v) => v,
            Err(e) => {
                return Err(e);
            },
        };
        let max_size_length = match find_unsigned_or(fields, ElementId::EbmlMaxSizeLength, 8) {
            Ok(v) => v,
            Err(e) => {
                return Err(e);
            },
        };
        let doc_type = match find_string(fields, ElementId::DocType) {
            Ok(v) => v,
            Err(e) => {
                return Err(e);
            },
        };
        let doc_type_version = match find_unsigned(fields, ElementId::DocTypeVersion) {
            Ok(v) => v,
            Err(e) => {
                return Err(e);
            },
        };
        let doc_type_read_version = match find_unsigned(fields, ElementId::DocTypeReadVersion) {
            Ok(v) => v,
            Err(e) => {
                return Err(e);
            },
        };
        if !supported_doc_type(doc_type.as_str()) {
            return Err(DemuxError::InvalidEbmlHeader(String::from_str("unsupported DocType")));
        }
        if doc_type_read_version >= 4 {
            return Err(
                DemuxError::InvalidEbmlHeader(
                    String::from_str("unsupported DocTypeReadVersion"),
                ),
            );
        }
        if max_id_length > 4 {
            return Err(
                DemuxError::InvalidEbmlHeader(String::from_str("unsupported MaxIdLength")),
            );
        }
        if max_size_length > 8 {
            return Err(
                DemuxError::InvalidEbmlHeader(String::from_str("unsupported MaxSizeLength")),
            );
        }
        Ok(
            EbmlHeader {
                version,
                read_version,
                max_id_length,
                max_size_length,
                doc_type,
                doc_type_version,
                doc_type_read_version,
            },
        )
    }
}

impl EbmlHeader {
    /// The EBML version used to create the file.
    pub fn version(&self) -> (r: Option<u64>)
        ensures
            r == self.version,
    {
        self.version
    }

    /// The minimum EBML version a parser has to support to read this file.
    pub fn read_version(&self) -> (r: Option<u64>)
        ensures
            r == self.read_version,
    {
        self.read_version
    }

    /// The maximum length of the element identifiers in this file.
    pub fn max_id_length(&self) -> (r: u64)
        ensures
            r == self.max_id_length,
    {
        self.max_id_length
    }

    /// The maximum length of the data sizes in this file.
    pub fn max_size_length(&self) -> (r: u64)
        ensures
            r == self.max_size_length,
    {
        self.max_size_length
    }

    /// The type of document that follows this header.
    pub fn doc_type(&self) -> (r: &str)
        ensures
            r@ == self.doc_type@,
    {
        self.doc_type.as_str()
    }

    /// The version of the DocType interpreter used to create the file.
    pub fn doc_type_version(&self) -> (r: u64)
        ensures
            r == self.doc_type_version,
    {
        self.doc_type_version
    }

    /// The minimum DocType version an interpreter has to support to read
    /// this file.
    pub fn doc_type_read_version(&self) -> (r: u64)
        ensures
            r == self.doc_type_read_version,
    {
        self.doc_type_read_version
    }
}

/// What the segment-info binder accepts: every field it reads carries the
/// expected payload type, a present timestamp scale is not zero, a present
/// duration is not negative, and the muxing and writing applications are
/// there.
pub open spec fn info_fields_ok(fields: Seq<(ElementId, ElementData)>) -> bool {
    &&& (match find_field(fields, ElementId::TimestampScale) {
        Option::Some(d) => d matches ElementData::Unsigned(v) && v != 0,
        Option::None => true,
    })
    &&& (match find_field(fields, ElementId::Duration) {
        Option::Some(d) => d matches ElementData::Float(b) && !f64_bits_is_negative(b),
        Option::None => true,
    })
    &&& (match find_field(fields, ElementId::DateUtc) {
        Option::Some(d) => d is Date,
        Option::None => true,
    })
    &&& (match find_field(fields, ElementId::Title) {
        Option::Some(d) => d is String,
        Option::None => true,
    })
    &&& (find_field(fields, ElementId::MuxingApp) matches Some(d) && d is String)
    &&& (find_field(fields, ElementId::WritingApp) matches Some(d) && d is String)
}

/// The checks the segment-info binder makes before it looks for the
/// application names: the scale, duration, date and title fields, where
/// present, carry their expected types and a present scale is not zero. The
/// duration may still be negative; that check comes after the names.
pub open spec fn info_scalar_fields_ok(fields: Seq<(ElementId, ElementData)>) -> bool {
    &&& (match find_field(fields, ElementId::TimestampScale) {
        Option::Some(d) => d matches ElementData::Unsigned(v) && v != 0,
        Option::None => true,
    })
    &&& (match find_field(fields, ElementId::Duration) {
        Option::Some(d) => d is Float,
        Option::None => true,
    })
    &&& (match find_field(fields, ElementId::DateUtc) {
        Option::Some(d) => d is Date,
        Option::None => true,
    })
    &&& (match find_field(fields, ElementId::Title) {
        Option::Some(d) => d is String,
        Option::None => true,
    })
}

/// Contains general information about the segment.
#[derive(Debug)]
pub struct Info {
    /// Timestamp scale in nanoseconds; never zero.
    pub timestamp_scale: u64,
    /// Duration of the segment, as binary64 bits, based on the timestamp
    /// scale.
    pub duration: Option<u64>,
    /// The date and time the segment was created.
    pub date_utc: Option<i64>,
    /// General name of the segment.
    pub title: Option<String>,
    /// Muxing application or library.
    pub muxing_app: String,
    /// Writing application.
    pub writing_app: String,
}

impl ParsableElement for Info {
    open spec fn binds_to(
        data: Seq<u8>,
        fields: Seq<(ElementId, ElementData)>,
        out: Self,
    ) -> bool {
        &&& out.timestamp_scale == spec_unsigned_or(fields, ElementId::TimestampScale, 1000000)
        &&& out.timestamp_scale != 0
        &&& out.duration == spec_float(fields, ElementId::Duration)
        &&& (out.duration matches Some(d) ==> !f64_bits_is_negative(d))
        &&& out.date_utc == spec_date(fields, ElementId::DateUtc)
        &&& opt_view(out.title) == spec_string(fields, ElementId::Title)
        &&& Some(out.muxing_app@) == spec_string(fields, ElementId::MuxingApp)
        &&& Some(out.writing_app@) == spec_string(fields, ElementId::WritingApp)
    }

    /// Binds the segment info: the timestamp scale defaults to 1,000,000
    /// nanoseconds and must not be zero, a present duration must not be
    /// negative, and the muxing and writing applications are required.
    fn new(r: &mut ByteSource, fields: &Vec<(ElementId, ElementData)>) -> (res: Result<
        Self,
        DemuxError,
    >)
        ensures
            res is Ok <==> info_fields_ok(fields@),
            res matches Ok(info) ==> {
                &&& info.timestamp_scale == spec_unsigned_or(
                    fields@,
                    ElementId::TimestampScale,
                    1000000,
                )
                &&& info.timestamp_scale != 0
                &&& info.duration == spec_float(fields@, ElementId::Duration)
                &&& (info.duration matches Some(d) ==> !f64_bits_is_negative(d))
                &&& info.date_utc == spec_date(fields@, ElementId::DateUtc)
                &&& opt_view(info.title) == spec_string(fields@, ElementId::Title)
                &&& Some(info.muxing_app@) == spec_string(fields@, ElementId::MuxingApp)
                &&& Some(info.writing_app@) == spec_string(fields@, ElementId::WritingApp)
            },
            (spec_unsigned(fields@, ElementId::TimestampScale) matches Some(v) && v == 0) ==> (
            res matches Err(e) && e == DemuxError::NonZeroValueIsZero(ElementId::TimestampScale)),
            (info_scalar_fields_ok(fields@) && find_field(fields@, ElementId::MuxingApp)
                is None) ==> (res matches Err(e) && e == DemuxError::ElementNotFound(
                ElementId::MuxingApp,
            )),
            (info_scalar_fields_ok(fields@) && (find_field(fields@, ElementId::MuxingApp)
                matches Some(d) && d is String) && find_field(fields@, ElementId::WritingApp)
                is None) ==> (res matches Err(e) && e == DemuxError::ElementNotFound(
                ElementId::WritingApp,
            )),
            (info_scalar_fields_ok(fields@) && (find_field(fields@, ElementId::MuxingApp)
                matches Some(d) && d is String) && (find_field(fields@, ElementId::WritingApp)
                matches Some(d2) && d2 is String) && (find_field(fields@, ElementId::Duration)
                matches Some(d3) && d3 matches ElementData::Float(b) && f64_bits_is_negative(b)))
                ==> (res matches Err(e) && e == DemuxError::PositiveValueIsNotPositive),
    {
        let timestamp_scale = match find_nonzero_or(fields, ElementId::TimestampScale, 1000000) {
            Ok(v) => v,
            Err(e) => {
                return Err(e);
            },
        };
        let duration = match try_find_float(fields, ElementId::Duration) {
            Ok(v) => v,
            Err(e) => {
                return Err(e);
            },
        };
        let date_utc = match try_find_date(fields, ElementId::DateUtc) {
            Ok(v) => v,
            Err(e) => {
                return Err(e);
            },
        };
        let title = match try_find_string(fields, ElementId::Title) {
            Ok(v) => v,
            Err(e) => {
                return Err(e);
            },
        };
        let muxing_app = match find_string(fields, ElementId::MuxingApp) {
            Ok(v) => v,
            Err(e) => {
                return Err(e);
            },
        };
        let writing_app = match find_string(fields, ElementId::WritingApp) {
            Ok(v) => v,
            Err(e) => {
                return Err(e);
            },
        };
        if let Some(d) = duration {
            if is_negative_f64_bits(d) {
                return Err(DemuxError::PositiveValueIsNotPositive);
            }
        }
        Ok(Info { timestamp_scale, duration, date_utc, title, muxing_app, writing_app })
    }
}

impl Info {
    /// Timestamp scale in nanoseconds.
    pub fn timestamp_scale(&self) -> (r: u64)
        ensures
            r == self.timestamp_scale,
    {
        self.timestamp_scale
    }

    /// Duration of the segment, as binary64 bits.
    pub fn duration(&self) -> (r: Option<u64>)
        ensures
            r == self.duration,
    {
        self.duration
    }

    /// The date and time the segment was created.
    pub fn date_utc(&self) -> (r: Option<i64>)
        ensures
            r == self.date_utc,
    {
        self.date_utc
    }

    /// General name of the segment.
    pub fn title(&self) -> (r: Option<&str>)
        ensures
            opt_str_view(r) == opt_view(self.title),
    {
        match &self.title {
            Some(t) => Some(t.as_str()),
            None => None,
        }
    }

    /// Muxing application or library.
    pub fn muxing_app(&self) -> (r: &str)
        ensures
            r@ == self.muxing_app@,
    {
        self.muxing_app.as_str()
    }

    /// Writing application.
    pub fn writing_app(&self) -> (r: &str)
        ensures
            r@ == self.writing_app@,
    {
        self.writing_app.as_str()
    }
}

/// The characters of an optional borrowed string.
pub open spec fn opt_str_view(o: Option<&str>) -> Option<Seq<char>> {
    match o {
        Option::Some(s) => Some(s@),
        Option::None => None,
    }
}

/// What the audio binder accepts: every field it reads carries the expected
/// payload type, present frequencies are not negative, and a present channel
/// count or bit depth is not zero.
pub open spec fn audio_fields_ok(fields: Seq<(ElementId, ElementData)>) -> bool {
    &&& (match find_field(fields, ElementId::SamplingFrequency) {
        Option::Some(d) => d matches ElementData::Float(b) && !f64_bits_is_negative(b),
        Option::None => true,
    })
    &&& (match find_field(fields, ElementId::OutputSamplingFrequency) {
        Option::Some(d) => d matches ElementData::Float(b) && !f64_bits_is_negative(b),
        Option::None => true,
    })
    &&& (match find_field(fields, ElementId::Channels) {
        Option::Some(d) => d matches ElementData::Unsigned(v) && v != 0,
        Option::None => true,
    })
    &&& (match find_field(fields, ElementId::BitDepth) {
        Option::Some(d) => d matches ElementData::Unsigned(v) && v != 0,
        Option::None => true,
    })
}

/// Audio settings of a track.
#[derive(Debug)]
pub struct Audio {
    /// Sampling frequency in Hz, as binary64 bits; never negative.
    pub sampling_frequency: u64,
    /// Real output sampling frequency in Hz, as binary64 bits.
    pub output_sampling_frequency: Option<u64>,
    /// Number of channels in the track; never zero.
    pub channels: u64,
    /// Bits per sample; never zero when present.
    pub bit_depth: Option<u64>,
}

impl ParsableElement for Audio {
    open spec fn binds_to(
        data: Seq<u8>,
        fields: Seq<(ElementId, ElementData)>,
        out: Self,
    ) -> bool {
        &&& out.sampling_frequency == (match spec_float(fields, ElementId::SamplingFrequency) {
            Option::Some(v) => v,
            Option::None => 0x40bf400000000000,
        })
        &&& !f64_bits_is_negative(out.sampling_frequency)
        &&& out.output_sampling_frequency == spec_float(
            fields,
            ElementId::OutputSamplingFrequency,
        )
        &&& (out.output_sampling_frequency matches Some(v) ==> !f64_bits_is_negative(v))
        &&& out.channels == spec_unsigned_or(fields, ElementId::Channels, 1)
        &&& out.channels != 0
        &&& out.bit_depth == spec_unsigned(fields, ElementId::BitDepth)
        &&& (out.bit_depth matches Some(v) ==> v != 0)
    }

    /// Binds the audio settings: the sampling frequency defaults to 8000 Hz
    /// and must not be negative, the channel count defaults to 1 and must
    /// not be zero.
    fn new(r: &mut ByteSource, fields: &Vec<(ElementId, ElementData)>) -> (res: Result<
        Self,
        DemuxError,
    >)
        ensures
            res is Ok <==> audio_fields_ok(fields@),
            res matches Ok(audio) ==> {
                &&& audio.sampling_frequency == (match spec_float(
                    fields@,
                    ElementId::SamplingFrequency,
                ) {
                    Option::Some(v) => v,
                    Option::None => 0x40bf400000000000,
                })
                &&& !f64_bits_is_negative(audio.sampling_frequency)
                &&& audio.output_sampling_frequency == spec_float(
                    fields@,
                    ElementId::OutputSamplingFrequency,
                )
                &&& (audio.output_sampling_frequency matches Some(v) ==> !f64_bits_is_negative(v))
                &&& audio.channels == spec_unsigned_or(fields@, ElementId::Channels, 1)
                &&& audio.channels != 0
                &&& audio.bit_depth == spec_unsigned(fields@, ElementId::BitDepth)
                &&& (audio.bit_depth matches Some(v) ==> v != 0)
            },
    {
        // 0x40bf400000000000 is the binary64 pattern of 8000.0.
        let sampling_frequency = match find_float_or(
            fields,
            ElementId::SamplingFrequency,
            0x40bf400000000000,
        ) {
            Ok(v) => v,
            Err(e) => {
                return Err(e);
            },
        };
        let output_sampling_frequency = match try_find_float(
            fields,
            ElementId::OutputSamplingFrequency,
        ) {
            Ok(v) => v,
            Err(e) => {
                return Err(e);
            },
        };
        let channels = match find_nonzero_or(fields, ElementId::Channels, 1) {
            Ok(v) => v,
            Err(e) => {
                return Err(e);
            },
        };
        let bit_depth = match try_find_nonzero(fields, ElementId::BitDepth) {
            Ok(v) => v,
            Err(e) => {
                return Err(e);
            },
        };
        if is_negative_f64_bits(sampling_frequency) {
            return Err(DemuxError::PositiveValueIsNotPositive);
        }
        if let Some(v) = output_sampling_frequency {
            if is_negative_f64_bits(v) {
                return Err(DemuxError::PositiveValueIsNotPositive);
            }
        }
        Ok(Audio { sampling_frequency, output_sampling_frequency, channels, bit_depth })
    }
}

impl Audio {
    /// Sampling frequency in Hz, as binary64 bits.
    pub fn sampling_frequency(&self) -> (r: u64)
        ensures
            r == self.sampling_frequency,
    {
        self.sampling_frequency
    }

    /// Real output sampling frequency in Hz, as binary64 bits.
    pub fn output_sampling_frequency(&self) -> (r: Option<u64>)
        ensures
            r == self.output_sampling_frequency,
    {
        self.output_sampling_frequency
    }

    /// Number of channels in the track.
    pub fn channels(&self) -> (r: u64)
        ensures
            r == self.channels,
    {
        self.channels
    }

    /// Bits per sample.
    pub fn bit_depth(&self) -> (r: Option<u64>)
        ensures
            r == self.bit_depth,
    {
        self.bit_depth
    }
}

/// What the mastering-data binder accepts: every chromaticity or luminance
/// field that is present is a float.
pub open spec fn mastering_fields_ok(fields: Seq<(ElementId, ElementData)>) -> bool {
    forall|id: ElementId|
        (id is PrimaryRChromaticityX || id is PrimaryRChromaticityY || id
            is PrimaryGChromaticityX || id is PrimaryGChromaticityY || id
            is PrimaryBChromaticityX || id is PrimaryBChromaticityY || id
            is WhitePointChromaticityX || id is WhitePointChromaticityY || id is LuminanceMax
            || id is LuminanceMin) ==> (match #[trigger] find_field(fields, id) {
            Option::Some(d) => d is Float,
            Option::None => true,
        })
}

/// SMPTE 2086 mastering data; all values are binary64 bits.
#[derive(Debug)]
pub struct MasteringMetadata {
    /// Red X chromaticity coordinate, as defined by CIE 1931.
    pub primary_r_chromaticity_x: Option<u64>,
    /// Red Y chromaticity coordinate, as defined by CIE 1931.
    pub primary_r_chromaticity_y: Option<u64>,
    /// Green X chromaticity coordinate, as defined by CIE 1931.
    pub primary_g_chromaticity_x: Option<u64>,
    /// Green Y chromaticity coordinate, as defined by CIE 1931.
    pub primary_g_chromaticity_y: Option<u64>,
    /// Blue X chromaticity coordinate, as defined by CIE 1931.
    pub primary_b_chromaticity_x: Option<u64>,
    /// Blue Y chromaticity coordinate, as defined by CIE 1931.
    pub primary_b_chromaticity_y: Option<u64>,
    /// White X chromaticity coordinate, as defined by CIE 1931.
    pub white_point_chromaticity_x: Option<u64>,
    /// White Y chromaticity coordinate, as defined by CIE 1931.
    pub white_point_chromaticity_y: Option<u64>,
    /// Maximum luminance, in candelas per square meter.
    pub luminance_max: Option<u64>,
    /// Minimum luminance, in candelas per square meter.
    pub luminance_min: Option<u64>,
}

impl ParsableElement for MasteringMetadata {
    open spec fn binds_to(
        data: Seq<u8>,
        fields: Seq<(ElementId, ElementData)>,
        out: Self,
    ) -> bool {
        &&& out.primary_r_chromaticity_x == spec_float(fields, ElementId::PrimaryRChromaticityX)
        &&& out.primary_r_chromaticity_y == spec_float(fields, ElementId::PrimaryRChromaticityY)
        &&& out.primary_g_chromaticity_x == spec_float(fields, ElementId::PrimaryGChromaticityX)
        &&& out.primary_g_chromaticity_y == spec_float(fields, ElementId::PrimaryGChromaticityY)
        &&& out.primary_b_chromaticity_x == spec_float(fields, ElementId::PrimaryBChromaticityX)
        &&& out.primary_b_chromaticity_y == spec_float(fields, ElementId::PrimaryBChromaticityY)
        &&& out.white_point_chromaticity_x == spec_float(
            fields,
            ElementId::WhitePointChromaticityX,
        )
        &&& out.white_point_chromaticity_y == spec_float(
            fields,
            ElementId::WhitePointChromaticityY,
        )
        &&& out.luminance_max == spec_float(fields, ElementId::LuminanceMax)
        &&& out.luminance_min == spec_float(fields, ElementId::LuminanceMin)
    }

    /// Binds the mastering data; every coordinate comes from its own
    /// element.
    fn new(r: &mut ByteSource, fields: &Vec<(ElementId, ElementData)>) -> (res: Result<
        Self,
        DemuxError,
    >)
        ensures
            res is Ok <==> mastering_fields_ok(fields@),
            res matches Ok(m) ==> {
                &&& m.primary_r_chromaticity_x == spec_float(
                    fields@,
                    ElementId::PrimaryRChromaticityX,
                )
                &&& m.primary_r_chromaticity_y == spec_float(
                    fields@,
                    ElementId::PrimaryRChromaticityY,
                )
                &&& m.primary_g_chromaticity_x == spec_float(
                    fields@,
                    ElementId::PrimaryGChromaticityX,
                )
                &&& m.primary_g_chromaticity_y == spec_float(
                    fields@,
                    ElementId::PrimaryGChromaticityY,
                )
                &&& m.primary_b_chromaticity_x == spec_float(
                    fields@,
                    ElementId::PrimaryBChromaticityX,
                )
                &&& m.primary_b_chromaticity_y == spec_float(
                    fields@,
                    ElementId::PrimaryBChromaticityY,
                )
                &&& m.white_point_chromaticity_x == spec_float(
                    fields@,
                    ElementId::WhitePointChromaticityX,
                )
                &&& m.white_point_chromaticity_y == spec_float(
                    fields@,
                    ElementId::WhitePointChromaticityY,
                )
                &&& m.luminance_max == spec_float(fields@, ElementId::LuminanceMax)
                &&& m.luminance_min == spec_float(fields@, ElementId::LuminanceMin)
            },
    {
        let primary_r_chromaticity_x = match try_find_float(
            fields,
            ElementId::PrimaryRChromaticityX,
        ) {
            Ok(v) => v,
            Err(e) => {
                return Err(e);
            },
        };
        let primary_r_chromaticity_y = match try_find_float(
            fields,
            ElementId::PrimaryRChromaticityY,
        ) {
            Ok(v) => v,
            Err(e) => {
                return Err(e);
            },
        };
        let primary_g_chromaticity_x = match try_find_float(
            fields,
            ElementId::PrimaryGChromaticityX,
        ) {
            Ok(v) => v,
            Err(e) => {
                return Err(e);
            },
        };
        let primary_g_chromaticity_y = match try_find_float(
            fields,
            ElementId::PrimaryGChromaticityY,
        ) {
            Ok(v) => v,
            Err(e) => {
                return Err(e);
            },
        };
        let primary_b_chromaticity_x = match try_find_float(
            fields,
            ElementId::PrimaryBChromaticityX,
        ) {
            Ok(v) => v,
            Err(e) => {
                return Err(e);
            },
        };
        let primary_b_chromaticity_y = match try_find_float(
            fields,
            ElementId::PrimaryBChromaticityY,
        ) {
            Ok(v) => v,
            Err(e) => {
                return Err(e);
            },
        };
        let white_point_chromaticity_x = match try_find_float(
            fields,
            ElementId::WhitePointChromaticityX,
        ) {
            Ok(v) => v,
            Err(e) => {
                return Err(e);
            },
        };
        let white_point_chromaticity_y = match try_find_float(
            fields,
            ElementId::WhitePointChromaticityY,
        ) {
            Ok(v) => v,
            Err(e) => {
                return Err(e);
            },
        };
        let luminance_max = match try_find_float(fields, ElementId::LuminanceMax) {
            Ok(v) => v,
            Err(e) => {
                return Err(e);
            },
        };
        let luminance_min = match try_find_float(fields, ElementId::LuminanceMin) {
            Ok(v) => v,
            Err(e) => {
                return Err(e);
            },
        };
        Ok(
            MasteringMetadata {
                primary_r_chromaticity_x,
                primary_r_chromaticity_y,
                primary_g_chromaticity_x,
                primary_g_chromaticity_y,
                primary_b_chromaticity_x,
                primary_b_chromaticity_y,
                white_point_chromaticity_x,
                white_point_chromaticity_y,
                luminance_max,
                luminance_min,
            },
        )
    }
}

impl MasteringMetadata {
    /// Red X chromaticity coordinate, as binary64 bits.
    pub fn primary_r_chromaticity_x(&self) -> (r: Option<u64>)
        ensures
            r == self.primary_r_chromaticity_x,
    {
        self.primary_r_chromaticity_x
    }

    /// Red Y chromaticity coordinate, as binary64 bits.
    pub fn primary_r_chromaticity_y(&self) -> (r: Option<u64>)
        ensures
            r == self.primary_r_chromaticity_y,
    {
        self.primary_r_chromaticity_y
    }

    /// Green X chromaticity coordinate, as binary64 bits.
    pub fn primary_g_chromaticity_x(&self) -> (r: Option<u64>)
        ensures
            r == self.primary_g_chromaticity_x,
    {
        self.primary_g_chromaticity_x
    }

    /// Green Y chromaticity coordinate, as binary64 bits.
    pub fn primary_g_chromaticity_y(&self) -> (r: Option<u64>)
        ensures
            r == self.primary_g_chromaticity_y,
    {
        self.primary_g_chromaticity_y
    }

    /// Blue X chromaticity coordinate, as binary64 bits.
    pub fn primary_b_chromaticity_x(&self) -> (r: Option<u64>)
        ensures
            r == self.primary_b_chromaticity_x,
    {
        self.primary_b_chromaticity_x
    }

    /// Blue Y chromaticity coordinate, as binary64 bits.
    pub fn primary_b_chromaticity_y(&self) -> (r: Option<u64>)
        ensures
            r == self.primary_b_chromaticity_y,
    {
        self.primary_b_chromaticity_y
    }

    /// White X chromaticity coordinate, as binary64 bits.
    pub fn white_point_chromaticity_x(&self) -> (r: Option<u64>)
        ensures
            r == self.white_point_chromaticity_x,
    {
        self.white_point_chromaticity_x
    }

    /// White Y chromaticity coordinate, as binary64 bits.
    pub fn white_point_chromaticity_y(&self) -> (r: Option<u64>)
        ensures
            r == self.white_point_chromaticity_y,
    {
        self.white_point_chromaticity_y
    }

    /// Maximum luminance, in candelas per square meter, as binary64 bits.
    pub fn luminance_max(&self) -> (r: Option<u64>)
        ensures
            r == self.luminance_max,
    {
        self.luminance_max
    }

    /// Minimum luminance, in candelas per square meter, as binary64 bits.
    pub fn luminance_min(&self) -> (r: Option<u64>)
        ensures
            r == self.luminance_min,
    {
        self.luminance_min
    }
}

/// What the colour binder accepts of its own fields: every coded or counted
/// value that is present is an unsigned integer.
pub open spec fn colour_fields_ok(fields: Seq<(ElementId, ElementData)>) -> bool {
    forall|id: ElementId|
        (id is MatrixCoefficients || id is BitsPerChannel || id is ChromaSubsamplingHorz || id
            is ChromaSubsamplingVert || id is CbSubsamplingHorz || id is CbSubsamplingVert || id
            is ChromaSitingHorz || id is ChromaSitingVert || id is Range || id
            is TransferCharacteristics || id is Primaries || id is MaxCll || id is MaxFall) ==> (
        match #[trigger] find_field(fields, id) {
            Option::Some(d) => d is Unsigned,
            Option::None => true,
        })
}

/// Settings describing the colour format.
#[derive(Debug)]
pub struct Colour {
    /// The matrix coefficients used to derive luma and chroma values.
    pub matrix_coefficients: Option<MatrixCoefficients>,
    /// Number of decoded bits per channel.
    pub bits_per_channel: Option<u64>,
    /// Pixels removed in the Cr and Cb channels per pixel kept horizontally.
    pub chroma_subsampling_horz: Option<u64>,
    /// Pixels removed in the Cr and Cb channels per pixel kept vertically.
    pub chroma_subsampling_vert: Option<u64>,
    /// Pixels removed in the Cb channel per pixel kept horizontally.
    pub cb_subsampling_horz: Option<u64>,
    /// Pixels removed in the Cb channel per pixel kept vertically.
    pub cb_subsampling_vert: Option<u64>,
    /// How chroma is subsampled horizontally.
    pub chroma_sitting_horz: Option<ChromaSitingHorz>,
    /// How chroma is subsampled vertically.
    pub chroma_sitting_vert: Option<ChromaSitingVert>,
    /// Clipping of the colour ranges.
    pub range: Option<Range>,
    /// The transfer characteristics of the video.
    pub transfer_characteristics: Option<TransferCharacteristics>,
    /// The colour primaries of the video.
    pub primaries: Option<Primaries>,
    /// Maximum brightness of a single pixel.
    pub max_cll: Option<u64>,
    /// Maximum brightness of a single full frame.
    pub max_fall: Option<u64>,
    /// SMPTE 2086 mastering data.
    pub mastering_metadata: Option<MasteringMetadata>,
}

impl ParsableElement for Colour {
    open spec fn binds_to(
        data: Seq<u8>,
        fields: Seq<(ElementId, ElementData)>,
        out: Self,
    ) -> bool {
        &&& out.bits_per_channel == spec_unsigned(fields, ElementId::BitsPerChannel)
        &&& out.chroma_subsampling_horz == spec_unsigned(fields, ElementId::ChromaSubsamplingHorz)
        &&& out.chroma_subsampling_vert == spec_unsigned(fields, ElementId::ChromaSubsamplingVert)
        &&& out.cb_subsampling_horz == spec_unsigned(fields, ElementId::CbSubsamplingHorz)
        &&& out.cb_subsampling_vert == spec_unsigned(fields, ElementId::CbSubsamplingVert)
        &&& out.max_cll == spec_unsigned(fields, ElementId::MaxCll)
        &&& out.max_fall == spec_unsigned(fields, ElementId::MaxFall)
        &&& out.matrix_coefficients == (match spec_unsigned(
            fields,
            ElementId::MatrixCoefficients,
        ) {
            Option::Some(v) => Some(MatrixCoefficients::spec_from_u64(v)),
            Option::None => None::<MatrixCoefficients>,
        })
        &&& out.chroma_sitting_horz == (match spec_unsigned(fields, ElementId::ChromaSitingHorz) {
            Option::Some(v) => Some(ChromaSitingHorz::spec_from_u64(v)),
            Option::None => None::<ChromaSitingHorz>,
        })
        &&& out.chroma_sitting_vert == (match spec_unsigned(fields, ElementId::ChromaSitingVert) {
            Option::Some(v) => Some(ChromaSitingVert::spec_from_u64(v)),
            Option::None => None::<ChromaSitingVert>,
        })
        &&& out.range == (match spec_unsigned(fields, ElementId::Range) {
            Option::Some(v) => Some(Range::spec_from_u64(v)),
            Option::None => None::<Range>,
        })
        &&& out.transfer_characteristics == (match spec_unsigned(
            fields,
            ElementId::TransferCharacteristics,
        ) {
            Option::Some(v) => Some(TransferCharacteristics::spec_from_u64(v)),
            Option::None => None::<TransferCharacteristics>,
        })
        &&& out.primaries == (match spec_unsigned(fields, ElementId::Primaries) {
            Option::Some(v) => Some(Primaries::spec_from_u64(v)),
            Option::None => None::<Primaries>,
        })
        &&& (out.mastering_metadata is Some <==> find_field(
            fields,
            ElementId::MasteringMetadata,
        ) is Some)
        &&& (out.mastering_metadata matches Some(m) ==> (find_field(
            fields,
            ElementId::MasteringMetadata,
        ) matches Some(d) && d matches ElementData::Location { offset, size }
            && crate::ebml::child_binds_to::<MasteringMetadata>(data, offset, size, m)))
    }

    /// Binds the colour settings; the maximum pixel and frame brightness
    /// come from their own elements.
    fn new(r: &mut ByteSource, fields: &Vec<(ElementId, ElementData)>) -> (res: Result<
        Self,
        DemuxError,
    >)
        ensures
            final(r).bytes() == old(r).bytes(),
            (colour_fields_ok(fields@) && find_field(fields@, ElementId::MasteringMetadata)
                is None) ==> res is Ok,
            res matches Ok(c) ==> {
                &&& c.bits_per_channel == spec_unsigned(fields@, ElementId::BitsPerChannel)
                &&& c.chroma_subsampling_horz == spec_unsigned(
                    fields@,
                    ElementId::ChromaSubsamplingHorz,
                )
                &&& c.chroma_subsampling_vert == spec_unsigned(
                    fields@,
                    ElementId::ChromaSubsamplingVert,
                )
                &&& c.cb_subsampling_horz == spec_unsigned(fields@, ElementId::CbSubsamplingHorz)
                &&& c.cb_subsampling_vert == spec_unsigned(fields@, ElementId::CbSubsamplingVert)
                &&& c.max_cll == spec_unsigned(fields@, ElementId::MaxCll)
                &&& c.max_fall == spec_unsigned(fields@, ElementId::MaxFall)
                &&& c.matrix_coefficients == (match spec_unsigned(
                    fields@,
                    ElementId::MatrixCoefficients,
                ) {
                    Option::Some(v) => Some(MatrixCoefficients::spec_from_u64(v)),
                    Option::None => None::<MatrixCoefficients>,
                })
                &&& c.chroma_sitting_horz == (match spec_unsigned(
                    fields@,
                    ElementId::ChromaSitingHorz,
                ) {
                    Option::Some(v) => Some(ChromaSitingHorz::spec_from_u64(v)),
                    Option::None => None::<ChromaSitingHorz>,
                })
                &&& c.chroma_sitting_vert == (match spec_unsigned(
                    fields@,
                    ElementId::ChromaSitingVert,
                ) {
                    Option::Some(v) => Some(ChromaSitingVert::spec_from_u64(v)),
                    Option::None => None::<ChromaSitingVert>,
                })
                &&& c.range == (match spec_unsigned(fields@, ElementId::Range) {
                    Option::Some(v) => Some(Range::spec_from_u64(v)),
                    Option::None => None::<Range>,
                })
                &&& c.transfer_characteristics == (match spec_unsigned(
                    fields@,
                    ElementId::TransferCharacteristics,
                ) {
                    Option::Some(v) => Some(TransferCharacteristics::spec_from_u64(v)),
                    Option::None => None::<TransferCharacteristics>,
                })
                &&& c.primaries == (match spec_unsigned(fields@, ElementId::Primaries) {
                    Option::Some(v) => Some(Primaries::spec_from_u64(v)),
                    Option::None => None::<Primaries>,
                })
                &&& (c.mastering_metadata is Some <==> find_field(
                    fields@,
                    ElementId::MasteringMetadata,
                ) is Some)
            },
    {
        let matrix_coefficients = match try_find_custom_type::<MatrixCoefficients>(
            fields,
            ElementId::MatrixCoefficients,
        ) {
            Ok(v) => v,
            Err(e) => {
                return Err(e);
            },
        };
        let bits_per_channel = match try_find_unsigned(fields, ElementId::BitsPerChannel) {
            Ok(v) => v,
            Err(e) => {
                return Err(e);
            },
        };
        let chroma_subsampling_horz = match try_find_unsigned(
            fields,
            ElementId::ChromaSubsamplingHorz,
        ) {
            Ok(v) => v,
            Err(e) => {
                return Err(e);
            },
        };
        let chroma_subsampling_vert = match try_find_unsigned(
            fields,
            ElementId::ChromaSubsamplingVert,
        ) {
            Ok(v) => v,
            Err(e) => {
                return Err(e);
            },
        };
        let cb_subsampling_horz = match try_find_unsigned(fields, ElementId::CbSubsamplingHorz) {
            Ok(v) => v,
            Err(e) => {
                return Err(e);
            },
        };
        let cb_subsampling_vert = match try_find_unsigned(fields, ElementId::CbSubsamplingVert) {
            Ok(v) => v,
            Err(e) => {
                return Err(e);
            },
        };
        let chroma_sitting_horz = match try_find_custom_type::<ChromaSitingHorz>(
            fields,
            ElementId::ChromaSitingHorz,
        ) {
            Ok(v) => v,
            Err(e) => {
                return Err(e);
            },
        };
        let chroma_sitting_vert = match try_find_custom_type::<ChromaSitingVert>(
            fields,
            ElementId::ChromaSitingVert,
        ) {
            Ok(v) => v,
            Err(e) => {
                return Err(e);
            },
        };
        let range = match try_find_custom_type::<Range>(fields, ElementId::Range) {
            Ok(v) => v,
            Err(e) => {
                return Err(e);
            },
        };
        let transfer_characteristics = match try_find_custom_type::<TransferCharacteristics>(
            fields,
            ElementId::TransferCharacteristics,
        ) {
            Ok(v) => v,
            Err(e) => {
                return Err(e);
            },
        };
        let primaries = match try_find_custom_type::<Primaries>(fields, ElementId::Primaries) {
            Ok(v) => v,
            Err(e) => {
                return Err(e);
            },
        };
        let max_cll = match try_find_unsigned(fields, ElementId::MaxCll) {
            Ok(v) => v,
            Err(e) => {
                return Err(e);
            },
        };
        let max_fall = match try_find_unsigned(fields, ElementId::MaxFall) {
            Ok(v) => v,
            Err(e) => {
                return Err(e);
            },
        };
        let mastering_metadata = match try_parse_child::<MasteringMetadata>(
            r,
            fields,
            ElementId::MasteringMetadata,
        ) {
            Ok(v) => v,
            Err(e) => {
                return Err(e);
            },
        };
        Ok(
            Colour {
                matrix_coefficients,
                bits_per_channel,
                chroma_subsampling_horz,
                chroma_subsampling_vert,
                cb_subsampling_horz,
                cb_subsampling_vert,
                chroma_sitting_horz,
                chroma_sitting_vert,
                range,
                transfer_characteristics,
                primaries,
                max_cll,
                max_fall,
                mastering_metadata,
            },
        )
    }
}

impl Colour {
    /// The matrix coefficients used to derive luma and chroma values.
    pub fn matrix_coefficients(&self) -> (r: Option<MatrixCoefficients>)
        ensures
            r == self.matrix_coefficients,
    {
        self.matrix_coefficients
    }

    /// Number of decoded bits per channel.
    pub fn bits_per_channel(&self) -> (r: Option<u64>)
        ensures
            r == self.bits_per_channel,
    {
        self.bits_per_channel
    }

    /// Pixels removed in the Cr and Cb channels per pixel kept horizontally.
    pub fn chroma_subsampling_horz(&self) -> (r: Option<u64>)
        ensures
            r == self.chroma_subsampling_horz,
    {
        self.chroma_subsampling_horz
    }

    /// Pixels removed in the Cr and Cb channels per pixel kept vertically.
    pub fn chroma_subsampling_vert(&self) -> (r: Option<u64>)
        ensures
            r == self.chroma_subsampling_vert,
    {
        self.chroma_subsampling_vert
    }

    /// Pixels removed in the Cb channel per pixel kept horizontally.
    pub fn cb_subsampling_horz(&self) -> (r: Option<u64>)
        ensures
            r == self.cb_subsampling_horz,
    {
        self.cb_subsampling_horz
    }

    /// Pixels removed in the Cb channel per pixel kept vertically.
    pub fn cb_subsampling_vert(&self) -> (r: Option<u64>)
        ensures
            r == self.cb_subsampling_vert,
    {
        self.cb_subsampling_vert
    }

    /// How chroma is subsampled horizontally.
    pub fn chroma_sitting_horz(&self) -> (r: Option<ChromaSitingHorz>)
        ensures
            r == self.chroma_sitting_horz,
    {
        self.chroma_sitting_horz
    }

    /// How chroma is subsampled vertically.
    pub fn chroma_sitting_vert(&self) -> (r: Option<ChromaSitingVert>)
        ensures
            r == self.chroma_sitting_vert,
    {
        self.chroma_sitting_vert
    }

    /// Clipping of the colour ranges.
    pub fn range(&self) -> (r: Option<Range>)
        ensures
            r == self.range,
    {
        self.range
    }

    /// The transfer characteristics of the video.
    pub fn transfer_characteristics(&self) -> (r: Option<TransferCharacteristics>)
        ensures
            r == self.transfer_characteristics,
    {
        self.transfer_characteristics
    }

    /// The colour primaries of the video.
    pub fn primaries(&self) -> (r: Option<Primaries>)
        ensures
            r == self.primaries,
    {
        self.primaries
    }

    /// Maximum brightness of a single pixel.
    pub fn max_cll(&self) -> (r: Option<u64>)
        ensures
            r == self.max_cll,
    {
        self.max_cll
    }

    /// Maximum brightness of a single full frame.
    pub fn max_fall(&self) -> (r: Option<u64>)
        ensures
            r == self.max_fall,
    {
        self.max_fall
    }

    /// SMPTE 2086 mastering data.
    pub fn mastering_metadata(&self) -> (r: Option<&MasteringMetadata>)
        ensures
            r is Some <==> self.mastering_metadata is Some,
    {
        self.mastering_metadata.as_ref()
    }
}

/// What the video binder accepts of its own fields: the pixel width and
/// height are present and not zero, and every other value it reads carries
/// the expected type; present display sizes are not zero.
pub open spec fn video_fields_ok(fields: Seq<(ElementId, ElementData)>) -> bool {
    &&& (find_field(fields, ElementId::PixelWidth) matches Some(d) && d matches
        ElementData::Unsigned(v) && v != 0)
    &&& (find_field(fields, ElementId::PixelHeight) matches Some(d) && d matches
        ElementData::Unsigned(v) && v != 0)
    &&& (match find_field(fields, ElementId::DisplayWidth) {
        Option::Some(d) => d matches ElementData::Unsigned(v) && v != 0,
        Option::None => true,
    })
    &&& (match find_field(fields, ElementId::DisplayHeight) {
        Option::Some(d) => d matches ElementData::Unsigned(v) && v != 0,
        Option::None => true,
    })
    &&& (forall|id: ElementId|
        (id is FlagInterlaced || id is StereoMode || id is AlphaMode || id is PixelCropBottom
            || id is PixelCropTop || id is PixelCropLeft || id is PixelCropRight || id
            is DisplayUnit || id is AspectRatioType) ==> (
        match #[trigger] find_field(fields, id) {
            Option::Some(d) => d is Unsigned,
            Option::None => true,
        }))
}

/// Video settings of a track.
#[derive(Debug)]
pub struct Video {
    /// Whether the video is known to be progressive or interlaced.
    pub flag_interlaced: FlagInterlaced,
    /// Stereo-3D video mode.
    pub stereo_mode: Option<StereoMode>,
    /// Alpha video mode.
    pub alpha_mode: Option<u64>,
    /// Width of the encoded video frames in pixels; never zero.
    pub pixel_width: u64,
    /// Height of the encoded video frames in pixels; never zero.
    pub pixel_height: u64,
    /// Pixels to remove at the bottom of the image.
    pub pixel_crop_bottom: Option<u64>,
    /// Pixels to remove at the top of the image.
    pub pixel_crop_top: Option<u64>,
    /// Pixels to remove on the left of the image.
    pub pixel_crop_left: Option<u64>,
    /// Pixels to remove on the right of the image.
    pub pixel_crop_right: Option<u64>,
    /// Width of the video frames to display.
    pub display_width: Option<u64>,
    /// Height of the video frames to display.
    pub display_height: Option<u64>,
    /// How the display width and height are interpreted.
    pub display_unit: Option<DisplayUnit>,
    /// The possible modifications to the aspect ratio.
    pub aspect_ratio_type: Option<AspectRatioType>,
    /// Settings describing the colour format.
    pub colour: Option<Colour>,
}

impl ParsableElement for Video {
    open spec fn binds_to(
        data: Seq<u8>,
        fields: Seq<(ElementId, ElementData)>,
        out: Self,
    ) -> bool {
        &&& Some(out.pixel_width) == spec_unsigned(fields, ElementId::PixelWidth)
        &&& out.pixel_width != 0
        &&& Some(out.pixel_height) == spec_unsigned(fields, ElementId::PixelHeight)
        &&& out.pixel_height != 0
        &&& out.alpha_mode == spec_unsigned(fields, ElementId::AlphaMode)
        &&& out.pixel_crop_bottom == spec_unsigned(fields, ElementId::PixelCropBottom)
        &&& out.pixel_crop_top == spec_unsigned(fields, ElementId::PixelCropTop)
        &&& out.pixel_crop_left == spec_unsigned(fields, ElementId::PixelCropLeft)
        &&& out.pixel_crop_right == spec_unsigned(fields, ElementId::PixelCropRight)
        &&& out.display_width == spec_unsigned(fields, ElementId::DisplayWidth)
        &&& out.display_height == spec_unsigned(fields, ElementId::DisplayHeight)
        &&& out.flag_interlaced == (match spec_unsigned(fields, ElementId::FlagInterlaced) {
            Option::Some(x) => FlagInterlaced::spec_from_u64(x),
            Option::None => FlagInterlaced::Unknown,
        })
        &&& out.stereo_mode == (match spec_unsigned(fields, ElementId::StereoMode) {
            Option::Some(x) => Some(StereoMode::spec_from_u64(x)),
            Option::None => None::<StereoMode>,
        })
        &&& out.display_unit == (match spec_unsigned(fields, ElementId::DisplayUnit) {
            Option::Some(x) => Some(DisplayUnit::spec_from_u64(x)),
            Option::None => None::<DisplayUnit>,
        })
        &&& out.aspect_ratio_type == (match spec_unsigned(fields, ElementId::AspectRatioType) {
            Option::Some(x) => Some(AspectRatioType::spec_from_u64(x)),
            Option::None => None::<AspectRatioType>,
        })
        &&& (out.colour is Some <==> find_field(fields, ElementId::Colour) is Some)
        &&& (out.colour matches Some(c) ==> (find_field(fields, ElementId::Colour) matches Some(
            d,
        ) && d matches ElementData::Location { offset, size } && crate::ebml::child_binds_to::<
            Colour,
        >(data, offset, size, c)))
    }

    /// Binds the video settings: pixel width and height are required and
    /// must not be zero.
    fn new(r: &mut ByteSource, fields: &Vec<(ElementId, ElementData)>) -> (res: Result<
        Self,
        DemuxError,
    >)
        ensures
            final(r).bytes() == old(r).bytes(),
            (video_fields_ok(fields@) && find_field(fields@, ElementId::Colour) is None) ==> res
                is Ok,
            res matches Ok(v) ==> {
                &&& Some(v.pixel_width) == spec_unsigned(fields@, ElementId::PixelWidth)
                &&& v.pixel_width != 0
                &&& Some(v.pixel_height) == spec_unsigned(fields@, ElementId::PixelHeight)
                &&& v.pixel_height != 0
                &&& v.alpha_mode == spec_unsigned(fields@, ElementId::AlphaMode)
                &&& v.pixel_crop_bottom == spec_unsigned(fields@, ElementId::PixelCropBottom)
                &&& v.pixel_crop_top == spec_unsigned(fields@, ElementId::PixelCropTop)
                &&& v.pixel_crop_left == spec_unsigned(fields@, ElementId::PixelCropLeft)
                &&& v.pixel_crop_right == spec_unsigned(fields@, ElementId::PixelCropRight)
                &&& v.display_width == spec_unsigned(fields@, ElementId::DisplayWidth)
                &&& (v.display_width matches Some(w) ==> w != 0)
                &&& v.display_height == spec_unsigned(fields@, ElementId::DisplayHeight)
                &&& (v.display_height matches Some(h) ==> h != 0)
                &&& v.flag_interlaced == (match spec_unsigned(
                    fields@,
                    ElementId::FlagInterlaced,
                ) {
                    Option::Some(x) => FlagInterlaced::spec_from_u64(x),
                    Option::None => FlagInterlaced::Unknown,
                })
                &&& v.stereo_mode == (match spec_unsigned(fields@, ElementId::StereoMode) {
                    Option::Some(x) => Some(StereoMode::spec_from_u64(x)),
                    Option::None => None::<StereoMode>,
                })
                &&& v.display_unit == (match spec_unsigned(fields@, ElementId::DisplayUnit) {
                    Option::Some(x) => Some(DisplayUnit::spec_from_u64(x)),
                    Option::None => None::<DisplayUnit>,
                })
                &&& v.aspect_ratio_type == (match spec_unsigned(
                    fields@,
                    ElementId::AspectRatioType,
                ) {
                    Option::Some(x) => Some(AspectRatioType::spec_from_u64(x)),
                    Option::None => None::<AspectRatioType>,
                })
                &&& (v.colour is Some <==> find_field(fields@, ElementId::Colour) is Some)
            },
    {
        let flag_interlaced = match try_find_custom_type_or::<FlagInterlaced>(
            fields,
            ElementId::FlagInterlaced,
            FlagInterlaced::Unknown,
        ) {
            Ok(v) => v,
            Err(e) => {
                return Err(e);
            },
        };
        let stereo_mode = match try_find_custom_type::<StereoMode>(
            fields,
            ElementId::StereoMode,
        ) {
            Ok(v) => v,
            Err(e) => {
                return Err(e);
            },
        };
        let alpha_mode = match try_find_unsigned(fields, ElementId::AlphaMode) {
            Ok(v) => v,
            Err(e) => {
                return Err(e);
            },
        };
        let pixel_width = match find_nonzero(fields, ElementId::PixelWidth) {
            Ok(v) => v,
            Err(e) => {
                return Err(e);
            },
        };
        let pixel_height = match find_nonzero(fields, ElementId::PixelHeight) {
            Ok(v) => v,
            Err(e) => {
                return Err(e);
            },
        };
        let pixel_crop_bottom = match try_find_unsigned(fields, ElementId::PixelCropBottom) {
            Ok(v) => v,
            Err(e) => {
                return Err(e);
            },
        };
        let pixel_crop_top = match try_find_unsigned(fields, ElementId::PixelCropTop) {
            Ok(v) => v,
            Err(e) => {
                return Err(e);
            },
        };
        let pixel_crop_left = match try_find_unsigned(fields, ElementId::PixelCropLeft) {
            Ok(v) => v,
            Err(e) => {
                return Err(e);
            },
        };
        let pixel_crop_right = match try_find_unsigned(fields, ElementId::PixelCropRight) {
            Ok(v) => v,
            Err(e) => {
                return Err(e);
            },
        };
        let display_width = match try_find_nonzero(fields, ElementId::DisplayWidth) {
            Ok(v) => v,
            Err(e) => {
                return Err(e);
            },
        };
        let display_height = match try_find_nonzero(fields, ElementId::DisplayHeight) {
            Ok(v) => v,
            Err(e) => {
                return Err(e);
            },
        };
        let display_unit = match try_find_custom_type::<DisplayUnit>(
            fields,
            ElementId::DisplayUnit,
        ) {
            Ok(v) => v,
            Err(e) => {
                return Err(e);
            },
        };
        let aspect_ratio_type = match try_find_custom_type::<AspectRatioType>(
            fields,
            ElementId::AspectRatioType,
        ) {
            Ok(v) => v,
            Err(e) => {
                return Err(e);
            },
        };
        let colour = match try_parse_child::<Colour>(r, fields, ElementId::Colour) {
            Ok(v) => v,
            Err(e) => {
                return Err(e);
            },
        };
        Ok(
            Video {
                flag_interlaced,
                stereo_mode,
                alpha_mode,
                pixel_width,
                pixel_height,
                pixel_crop_bottom,
                pixel_crop_top,
                pixel_crop_left,
                pixel_crop_right,
                display_width,
                display_height,
                display_unit,
                aspect_ratio_type,
                colour,
            },
        )
    }
}

impl Video {
    /// Whether the video is known to be progressive or interlaced.
    pub fn flag_interlaced(&self) -> (r: FlagInterlaced)
        ensures
            r == self.flag_interlaced,
    {
        self.flag_interlaced
    }

    /// Stereo-3D video mode.
    pub fn stereo_mode(&self) -> (r: Option<StereoMode>)
        ensures
            r == self.stereo_mode,
    {
        self.stereo_mode
    }

    /// Width of the encoded video frames in pixels.
    pub fn pixel_width(&self) -> (r: u64)
        ensures
            r == self.pixel_width,
    {
        self.pixel_width
    }

    /// Height of the encoded video frames in pixels.
    pub fn pixel_height(&self) -> (r: u64)
        ensures
            r == self.pixel_height,
    {
        self.pixel_height
    }

    /// Alpha video mode.
    pub fn alpha_mode(&self) -> (r: Option<u64>)
        ensures
            r == self.alpha_mode,
    {
        self.alpha_mode
    }

    /// Pixels to remove at the bottom of the image.
    pub fn pixel_crop_bottom(&self) -> (r: Option<u64>)
        ensures
            r == self.pixel_crop_bottom,
    {
        self.pixel_crop_bottom
    }

    /// Pixels to remove at the top of the image.
    pub fn pixel_crop_top(&self) -> (r: Option<u64>)
        ensures
            r == self.pixel_crop_top,
    {
        self.pixel_crop_top
    }

    /// Pixels to remove on the left of the image.
    pub fn pixel_crop_left(&self) -> (r: Option<u64>)
        ensures
            r == self.pixel_crop_left,
    {
        self.pixel_crop_left
    }

    /// Pixels to remove on the right of the image.
    pub fn pixel_crop_right(&self) -> (r: Option<u64>)
        ensures
            r == self.pixel_crop_right,
    {
        self.pixel_crop_right
    }

    /// Width of the video frames to display.
    pub fn display_width(&self) -> (r: Option<u64>)
        ensures
            r == self.display_width,
    {
        self.display_width
    }

    /// Height of the video frames to display.
    pub fn display_height(&self) -> (r: Option<u64>)
        ensures
            r == self.display_height,
    {
        self.display_height
    }

    /// How the display width and height are interpreted.
    pub fn display_unit(&self) -> (r: Option<DisplayUnit>)
        ensures
            r == self.display_unit,
    {
        self.display_unit
    }

    /// The possible modifications to the aspect ratio.
    pub fn aspect_ratio_type(&self) -> (r: Option<AspectRatioType>)
        ensures
            r == self.aspect_ratio_type,
    {
        self.aspect_ratio_type
    }

    /// Settings describing the colour format.
    pub fn colour(&self) -> (r: Option<&Colour>)
        ensures
            r is Some <==> self.colour is Some,
    {
        self.colour.as_ref()
    }
}

/// Settings describing the encryption algorithm used.
#[derive(Debug)]
pub struct ContentEncAesSettings {
    /// The AES cipher mode used in the encryption.
    pub aes_settings_cipher_mode: Option<AesSettingsCipherMode>,
}

impl ParsableElement for ContentEncAesSettings {
    open spec fn binds_to(
        data: Seq<u8>,
        fields: Seq<(ElementId, ElementData)>,
        out: Self,
    ) -> bool {
        spec_unsigned(fields, ElementId::AesSettingsCipherMode) matches Some(v)
            ==> out.aes_settings_cipher_mode == Some(AesSettingsCipherMode::spec_from_u64(v))
    }

    /// Binds the AES settings.
    fn new(r: &mut ByteSource, fields: &Vec<(ElementId, ElementData)>) -> (res: Result<
        Self,
        DemuxError,
    >)
        ensures
            res is Ok <==> (match find_field(fields@, ElementId::AesSettingsCipherMode) {
                Option::Some(d) => d is Unsigned,
                Option::None => true,
            }),
            res matches Ok(s) ==> (spec_unsigned(fields@, ElementId::AesSettingsCipherMode)
                matches Some(v) ==> s.aes_settings_cipher_mode == Some(
                AesSettingsCipherMode::spec_from_u64(v),
            )),
    {
        let aes_settings_cipher_mode = match try_find_custom_type::<AesSettingsCipherMode>(
            fields,
            ElementId::AesSettingsCipherMode,
        ) {
            Ok(v) => v,
            Err(e) => {
                return Err(e);
            },
        };
        Ok(ContentEncAesSettings { aes_settings_cipher_mode })
    }
}

impl ContentEncAesSettings {
    /// The AES cipher mode used in the encryption.
    pub fn aes_settings_cipher_mode(&self) -> (r: Option<AesSettingsCipherMode>)
        ensures
            r == self.aes_settings_cipher_mode,
    {
        self.aes_settings_cipher_mode
    }
}

/// Settings describing the encryption used.
#[derive(Debug)]
pub struct ContentEncryption {
    /// The encryption algorithm used.
    pub algo: ContentEncAlgo,
    /// The key identifier of the encryption.
    pub key_id: Option<Vec<u8>>,
    /// The AES settings of the encryption.
    pub aes_settings: Option<ContentEncAesSettings>,
}

impl ParsableElement for ContentEncryption {
    open spec fn binds_to(
        data: Seq<u8>,
        fields: Seq<(ElementId, ElementData)>,
        out: Self,
    ) -> bool {
        &&& out.algo == (match spec_unsigned(fields, ElementId::ContentEncAlgo) {
            Option::Some(v) => ContentEncAlgo::spec_from_u64(v),
            Option::None => ContentEncAlgo::NotEncrypted,
        })
        &&& (match find_field(fields, ElementId::ContentEncKeyId) {
            Option::Some(d) => d matches ElementData::Location { offset, size }
                && out.key_id matches Some(v) && offset + size <= data.len() && v@
                == data.subrange(offset as int, offset + size),
            Option::None => out.key_id is None,
        })
    }

    /// Binds the encryption settings; the algorithm defaults to
    /// not-encrypted.
    fn new(r: &mut ByteSource, fields: &Vec<(ElementId, ElementData)>) -> (res: Result<
        Self,
        DemuxError,
    >)
        ensures
            final(r).bytes() == old(r).bytes(),
            ({
                &&& (match find_field(fields@, ElementId::ContentEncAlgo) {
                    Option::Some(d) => d is Unsigned,
                    Option::None => true,
                })
                &&& find_field(fields@, ElementId::ContentEncKeyId) is None
                &&& find_field(fields@, ElementId::ContentEncAesSettings) is None
            }) ==> res is Ok,
            res matches Ok(c) ==> c.algo == (match spec_unsigned(
                fields@,
                ElementId::ContentEncAlgo,
            ) {
                Option::Some(v) => ContentEncAlgo::spec_from_u64(v),
                Option::None => ContentEncAlgo::NotEncrypted,
            }),
    {
        let algo = match try_find_custom_type_or::<ContentEncAlgo>(
            fields,
            ElementId::ContentEncAlgo,
            ContentEncAlgo::NotEncrypted,
        ) {
            Ok(v) => v,
            Err(e) => {
                return Err(e);
            },
        };
        let key_id = match try_find_binary(r, fields, ElementId::ContentEncKeyId) {
            Ok(v) => v,
            Err(e) => {
                return Err(e);
            },
        };
        let aes_settings = match try_parse_child::<ContentEncAesSettings>(
            r,
            fields,
            ElementId::ContentEncAesSettings,
        ) {
            Ok(v) => v,
            Err(e) => {
                return Err(e);
            },
        };
        Ok(ContentEncryption { algo, key_id, aes_settings })
    }
}

impl ContentEncryption {
    /// The encryption algorithm used.
    pub fn algo(&self) -> (r: ContentEncAlgo)
        ensures
            r == self.algo,
    {
        self.algo
    }

    /// The key identifier of the encryption.
    pub fn key_id(&self) -> (r: Option<&Vec<u8>>)
        ensures
            r is Some <==> self.key_id is Some,
    {
        self.key_id.as_ref()
    }

    /// The AES settings of the encryption.
    pub fn aes_settings(&self) -> (r: Option<&ContentEncAesSettings>)
        ensures
            r is Some <==> self.aes_settings is Some,
    {
        self.aes_settings.as_ref()
    }
}

/// Settings for one content encoding, like compression or encryption.
#[derive(Debug)]
pub struct ContentEncoding {
    /// When this modification was used during encoding, counting upwards
    /// from zero.
    pub order: u64,
    /// A bit field of which parts have been modified in this way.
    pub scope: u64,
    /// What kind of transformation is applied.
    pub encoding_type: ContentEncodingType,
    /// Settings describing the encryption used.
    pub encryption: Option<ContentEncryption>,
}

impl ParsableElement for ContentEncoding {
    open spec fn binds_to(
        data: Seq<u8>,
        fields: Seq<(ElementId, ElementData)>,
        out: Self,
    ) -> bool {
        &&& out.order == spec_unsigned_or(fields, ElementId::ContentEncodingOrder, 0)
        &&& out.scope == spec_unsigned_or(fields, ElementId::ContentEncodingScope, 1)
        &&& out.encoding_type == (match spec_unsigned(fields, ElementId::ContentEncodingType) {
            Option::Some(v) => ContentEncodingType::spec_from_u64(v),
            Option::None => ContentEncodingType::Compression,
        })
    }

    /// Binds one content encoding: the order defaults to 0, the scope to 1,
    /// and the type to compression.
    fn new(r: &mut ByteSource, fields: &Vec<(ElementId, ElementData)>) -> (res: Result<
        Self,
        DemuxError,
    >)
        ensures
            final(r).bytes() == old(r).bytes(),
            ({
                &&& (forall|id: ElementId|
                    (id is ContentEncodingOrder || id is ContentEncodingScope || id
                        is ContentEncodingType) ==> (
                    match #[trigger] find_field(fields@, id) {
                        Option::Some(d) => d is Unsigned,
                        Option::None => true,
                    }))
                &&& find_field(fields@, ElementId::ContentEncryption) is None
            }) ==> res is Ok,
            res matches Ok(c) ==> {
                &&& c.order == spec_unsigned_or(fields@, ElementId::ContentEncodingOrder, 0)
                &&& c.scope == spec_unsigned_or(fields@, ElementId::ContentEncodingScope, 1)
                &&& c.encoding_type == (match spec_unsigned(
                    fields@,
                    ElementId::ContentEncodingType,
                ) {
                    Option::Some(v) => ContentEncodingType::spec_from_u64(v),
                    Option::None => ContentEncodingType::Compression,
                })
            },
    {
        let order = match find_unsigned_or(fields, ElementId::ContentEncodingOrder, 0) {
            Ok(v) => v,
            Err(e) => {
                return Err(e);
            },
        };
        let scope = match find_unsigned_or(fields, ElementId::ContentEncodingScope, 1) {
            Ok(v) => v,
            Err(e) => {
                return Err(e);
            },
        };
        let encoding_type = match try_find_custom_type_or::<ContentEncodingType>(
            fields,
            ElementId::ContentEncodingType,
            ContentEncodingType::Compression,
        ) {
            Ok(v) => v,
            Err(e) => {
                return Err(e);
            },
        };
        let encryption = match try_parse_child::<ContentEncryption>(
            r,
            fields,
            ElementId::ContentEncryption,
        ) {
            Ok(v) => v,
            Err(e) => {
                return Err(e);
            },
        };
        Ok(ContentEncoding { order, scope, encoding_type, encryption })
    }
}

impl ContentEncoding {
    /// When this modification was used during encoding.
    pub fn order(&self) -> (r: u64)
        ensures
            r == self.order,
    {
        self.order
    }

    /// A bit field of which parts have been modified in this way.
    pub fn scope(&self) -> (r: u64)
        ensures
            r == self.scope,
    {
        self.scope
    }

    /// What kind of transformation is applied.
    pub fn encoding_type(&self) -> (r: ContentEncodingType)
        ensures
            r == self.encoding_type,
    {
        self.encoding_type
    }

    /// Settings describing the encryption used.
    pub fn encryption(&self) -> (r: Option<&ContentEncryption>)
        ensures
            r is Some <==> self.encryption is Some,
    {
        self.encryption.as_ref()
    }
}

/// What the track binder accepts of its own fields: the track number,
/// identifier, type and codec identifier are present with their expected
/// types, the number and identifier are not zero, and every flag or value it
/// reads carries the expected type.
pub open spec fn track_fields_ok(fields: Seq<(ElementId, ElementData)>) -> bool {
    &&& (find_field(fields, ElementId::TrackNumber) matches Some(d) && d matches
        ElementData::Unsigned(v) && v != 0)
    &&& (find_field(fields, ElementId::TrackUid) matches Some(d) && d matches
        ElementData::Unsigned(v) && v != 0)
    &&& (find_field(fields, ElementId::TrackType) matches Some(d) && d is Unsigned)
    &&& (find_field(fields, ElementId::CodecId) matches Some(d) && d is String)
    &&& (match find_field(fields, ElementId::DefaultDuration) {
        Option::Some(d) => d matches ElementData::Unsigned(v) && v != 0,
        Option::None => true,
    })
    &&& (forall|id: ElementId|
        (id is FlagEnabled || id is FlagDefault || id is FlagForced || id is FlagLacing || id
            is CodecDelay || id is SeekPreRoll) ==> (match #[trigger] find_field(fields, id) {
            Option::Some(d) => d is Unsigned,
            Option::None => true,
        }))
    &&& (forall|id: ElementId|
        (id is Name || id is Language || id is CodecName) ==> (
        match #[trigger] find_field(fields, id) {
            Option::Some(d) => d is String,
            Option::None => true,
        }))
}

/// Describes one track of the segment.
#[derive(Debug)]
pub struct TrackEntry {
    /// The track number used in block headers; never zero.
    pub track_number: u64,
    /// A unique identifier of the track; never zero.
    pub track_uid: u64,
    /// The type of the track.
    pub track_type: TrackType,
    /// Whether the track is usable.
    pub flag_enabled: bool,
    /// Whether the track should be eligible for automatic selection.
    pub flag_default: bool,
    /// Whether the track should override language-preference selection.
    pub flag_forced: bool,
    /// Whether the track may contain blocks using lacing.
    pub flag_lacing: bool,
    /// Nanoseconds per frame, unscaled; never zero when present.
    pub default_duration: Option<u64>,
    /// A human-readable track name.
    pub name: Option<String>,
    /// The language of the track.
    pub language: Option<String>,
    /// An identifier of the codec.
    pub codec_id: String,
    /// Private data only known to the codec.
    pub codec_private: Option<Vec<u8>>,
    /// A human-readable string naming the codec.
    pub codec_name: Option<String>,
    /// The codec-built-in delay in nanoseconds.
    pub codec_delay: Option<u64>,
    /// The duration of data the decoder must roll back after a seek.
    pub seek_pre_roll: Option<u64>,
    /// Audio settings.
    pub audio: Option<Audio>,
    /// Video settings.
    pub video: Option<Video>,
    /// The content encodings applied to the track, in order.
    pub content_encodings: Option<Vec<ContentEncoding>>,
}

impl ParsableElement for TrackEntry {
    open spec fn binds_to(
        data: Seq<u8>,
        fields: Seq<(ElementId, ElementData)>,
        out: Self,
    ) -> bool {
        &&& Some(out.track_number) == spec_unsigned(fields, ElementId::TrackNumber)
        &&& out.track_number != 0
        &&& Some(out.track_uid) == spec_unsigned(fields, ElementId::TrackUid)
        &&& out.track_uid != 0
        &&& (spec_unsigned(fields, ElementId::TrackType) matches Some(v) && out.track_type
            == TrackType::spec_from_u64(v))
        &&& out.flag_enabled == spec_bool_or(fields, ElementId::FlagEnabled, true)
        &&& out.flag_default == spec_bool_or(fields, ElementId::FlagDefault, true)
        &&& out.flag_forced == spec_bool_or(fields, ElementId::FlagForced, false)
        &&& out.flag_lacing == spec_bool_or(fields, ElementId::FlagLacing, false)
        &&& out.default_duration == spec_unsigned(fields, ElementId::DefaultDuration)
        &&& opt_view(out.name) == spec_string(fields, ElementId::Name)
        &&& opt_view(out.language) == spec_string(fields, ElementId::Language)
        &&& Some(out.codec_id@) == spec_string(fields, ElementId::CodecId)
        &&& opt_view(out.codec_name) == spec_string(fields, ElementId::CodecName)
        &&& out.codec_delay == spec_unsigned(fields, ElementId::CodecDelay)
        &&& out.seek_pre_roll == spec_unsigned(fields, ElementId::SeekPreRoll)
        &&& (match find_field(fields, ElementId::CodecPrivate) {
            Option::Some(d) => d matches ElementData::Location { offset, size }
                && out.codec_private matches Some(v) && offset + size <= data.len() && v@
                == data.subrange(offset as int, offset + size),
            Option::None => out.codec_private is None,
        })
        &&& (out.audio is Some <==> find_field(fields, ElementId::Audio) is Some)
        &&& (out.audio matches Some(a) ==> (find_field(fields, ElementId::Audio) matches Some(d)
            && d matches ElementData::Location { offset, size } && crate::ebml::child_binds_to::<
            Audio,
        >(data, offset, size, a)))
        &&& (out.video is Some <==> find_field(fields, ElementId::Video) is Some)
        &&& (out.video matches Some(v) ==> (find_field(fields, ElementId::Video) matches Some(d)
            && d matches ElementData::Location { offset, size } && crate::ebml::child_binds_to::<
            Video,
        >(data, offset, size, v)))
        &&& (out.content_encodings is Some <==> (find_field(
            fields,
            ElementId::ContentEncodings,
        ) matches Some(d) && d is Location))
        &&& (out.content_encodings matches Some(list) ==> (find_field(
            fields,
            ElementId::ContentEncodings,
        ) matches Some(d) && d matches ElementData::Location { offset, size }
            && crate::ebml::master_children_bind_to::<ContentEncoding>(
            data,
            offset,
            size,
            ElementId::ContentEncoding,
            list@,
        )))
    }

    /// Binds one track entry: the track number and identifier are required
    /// and must not be zero, the codec identifier is required, the enabled
    /// and default flags default to true, the forced and lacing flags to
    /// false.
    fn new(r: &mut ByteSource, fields: &Vec<(ElementId, ElementData)>) -> (res: Result<
        Self,
        DemuxError,
    >)
        ensures
            final(r).bytes() == old(r).bytes(),
            ({
                &&& track_fields_ok(fields@)
                &&& find_field(fields@, ElementId::CodecPrivate) is None
                &&& find_field(fields@, ElementId::Audio) is None
                &&& find_field(fields@, ElementId::Video) is None
                &&& find_field(fields@, ElementId::ContentEncodings) is None
            }) ==> res is Ok,
            find_field(fields@, ElementId::TrackNumber) is None ==> (res matches Err(e) && e
                == DemuxError::ElementNotFound(ElementId::TrackNumber)),
            (find_field(fields@, ElementId::TrackNumber) matches Some(d) && d matches
                ElementData::Unsigned(v) && v == 0) ==> (res matches Err(e) && e
                == DemuxError::NonZeroValueIsZero(ElementId::TrackNumber)),
            res matches Ok(t) ==> {
                &&& Some(t.track_number) == spec_unsigned(fields@, ElementId::TrackNumber)
                &&& t.track_number != 0
                &&& Some(t.track_uid) == spec_unsigned(fields@, ElementId::TrackUid)
                &&& t.track_uid != 0
                &&& (spec_unsigned(fields@, ElementId::TrackType) matches Some(v) && t.track_type
                    == TrackType::spec_from_u64(v))
                &&& t.flag_enabled == spec_bool_or(fields@, ElementId::FlagEnabled, true)
                &&& t.flag_default == spec_bool_or(fields@, ElementId::FlagDefault, true)
                &&& t.flag_forced == spec_bool_or(fields@, ElementId::FlagForced, false)
                &&& t.flag_lacing == spec_bool_or(fields@, ElementId::FlagLacing, false)
                &&& t.default_duration == spec_unsigned(fields@, ElementId::DefaultDuration)
                &&& (t.default_duration matches Some(v) ==> v != 0)
                &&& opt_view(t.name) == spec_string(fields@, ElementId::Name)
                &&& opt_view(t.language) == spec_string(fields@, ElementId::Language)
                &&& Some(t.codec_id@) == spec_string(fields@, ElementId::CodecId)
                &&& t.codec_delay == spec_unsigned(fields@, ElementId::CodecDelay)
                &&& t.seek_pre_roll == spec_unsigned(fields@, ElementId::SeekPreRoll)
                &&& opt_view(t.codec_name) == spec_string(fields@, ElementId::CodecName)
                &&& (t.audio is Some <==> find_field(fields@, ElementId::Audio) is Some)
                &&& (t.video is Some <==> find_field(fields@, ElementId::Video) is Some)
                &&& (t.content_encodings is Some <==> (find_field(
                    fields@,
                    ElementId::ContentEncodings,
                ) matches Some(d) && d is Location))
                &&& (match find_field(fields@, ElementId::CodecPrivate) {
                    Option::Some(d) => d matches ElementData::Location { offset, size }
                        && t.codec_private matches Some(v) && offset + size <= old(
                        r,
                    ).bytes().len() && v@ == old(r).bytes().subrange(
                        offset as int,
                        offset + size,
                    ),
                    Option::None => t.codec_private is None,
                })
            },
    {
        let track_number = match find_nonzero(fields, ElementId::TrackNumber) {
            Ok(v) => v,
            Err(e) => {
                return Err(e);
            },
        };
        let track_uid = match find_nonzero(fields, ElementId::TrackUid) {
            Ok(v) => v,
            Err(e) => {
                return Err(e);
            },
        };
        let track_type = match find_custom_type::<TrackType>(fields, ElementId::TrackType) {
            Ok(v) => v,
            Err(e) => {
                return Err(e);
            },
        };
        let flag_enabled = match find_bool_or(fields, ElementId::FlagEnabled, true) {
            Ok(v) => v,
            Err(e) => {
                return Err(e);
            },
        };
        let flag_default = match find_bool_or(fields, ElementId::FlagDefault, true) {
            Ok(v) => v,
            Err(e) => {
                return Err(e);
            },
        };
        let flag_forced = match find_bool_or(fields, ElementId::FlagForced, false) {
            Ok(v) => v,
            Err(e) => {
                return Err(e);
            },
        };
        let flag_lacing = match find_bool_or(fields, ElementId::FlagLacing, false) {
            Ok(v) => v,
            Err(e) => {
                return Err(e);
            },
        };
        let default_duration = match try_find_nonzero(fields, ElementId::DefaultDuration) {
            Ok(v) => v,
            Err(e) => {
                return Err(e);
            },
        };
        let name = match try_find_string(fields, ElementId::Name) {
            Ok(v) => v,
            Err(e) => {
                return Err(e);
            },
        };
        let language = match try_find_string(fields, ElementId::Language) {
            Ok(v) => v,
            Err(e) => {
                return Err(e);
            },
        };
        let codec_id = match find_string(fields, ElementId::CodecId) {
            Ok(v) => v,
            Err(e) => {
                return Err(e);
            },
        };
        let codec_private = match try_find_binary(r, fields, ElementId::CodecPrivate) {
            Ok(v) => v,
            Err(e) => {
                return Err(e);
            },
        };
        let codec_name = match try_find_string(fields, ElementId::CodecName) {
            Ok(v) => v,
            Err(e) => {
                return Err(e);
            },
        };
        let codec_delay = match try_find_unsigned(fields, ElementId::CodecDelay) {
            Ok(v) => v,
            Err(e) => {
                return Err(e);
            },
        };
        let seek_pre_roll = match try_find_unsigned(fields, ElementId::SeekPreRoll) {
            Ok(v) => v,
            Err(e) => {
                return Err(e);
            },
        };
        let audio = match try_parse_child::<Audio>(r, fields, ElementId::Audio) {
            Ok(v) => v,
            Err(e) => {
                return Err(e);
            },
        };
        let video = match try_parse_child::<Video>(r, fields, ElementId::Video) {
            Ok(v) => v,
            Err(e) => {
                return Err(e);
            },
        };
        let content_encodings = match try_parse_children::<ContentEncoding>(
            r,
            fields,
            ElementId::ContentEncodings,
            ElementId::ContentEncoding,
        ) {
            Ok(v) => v,
            Err(e) => {
                return Err(e);
            },
        };
        Ok(
            TrackEntry {
                track_number,
                track_uid,
                track_type,
                flag_enabled,
                flag_default,
                flag_forced,
                flag_lacing,
                default_duration,
                name,
                language,
                codec_id,
                codec_private,
                codec_name,
                codec_delay,
                seek_pre_roll,
                audio,
                video,
                content_encodings,
            },
        )
    }
}

impl TrackEntry {
    /// The track number used in block headers.
    pub fn track_number(&self) -> (r: u64)
        ensures
            r == self.track_number,
    {
        self.track_number
    }

    /// A unique identifier of the track.
    pub fn track_uid(&self) -> (r: u64)
        ensures
            r == self.track_uid,
    {
        self.track_uid
    }

    /// The type of the track.
    pub fn track_type(&self) -> (r: TrackType)
        ensures
            r == self.track_type,
    {
        self.track_type
    }

    /// Whether the track is usable.
    pub fn flag_enabled(&self) -> (r: bool)
        ensures
            r == self.flag_enabled,
    {
        self.flag_enabled
    }

    /// Whether the track should be eligible for automatic selection.
    pub fn flag_default(&self) -> (r: bool)
        ensures
            r == self.flag_default,
    {
        self.flag_default
    }

    /// Whether the track should override language-preference selection.
    pub fn flag_forced(&self) -> (r: bool)
        ensures
            r == self.flag_forced,
    {
        self.flag_forced
    }

    /// Whether the track may contain blocks using lacing.
    pub fn flag_lacing(&self) -> (r: bool)
        ensures
            r == self.flag_lacing,
    {
        self.flag_lacing
    }

    /// Nanoseconds per frame, unscaled.
    pub fn default_duration(&self) -> (r: Option<u64>)
        ensures
            r == self.default_duration,
    {
        self.default_duration
    }

    /// A human-readable track name.
    pub fn name(&self) -> (r: Option<&str>)
        ensures
            opt_str_view(r) == opt_view(self.name),
    {
        match &self.name {
            Some(s) => Some(s.as_str()),
            None => None,
        }
    }

    /// The language of the track.
    pub fn language(&self) -> (r: Option<&str>)
        ensures
            opt_str_view(r) == opt_view(self.language),
    {
        match &self.language {
            Some(s) => Some(s.as_str()),
            None => None,
        }
    }

    /// An identifier of the codec.
    pub fn codec_id(&self) -> (r: &str)
        ensures
            r@ == self.codec_id@,
    {
        self.codec_id.as_str()
    }

    /// Private data only known to the codec.
    pub fn codec_private(&self) -> (r: Option<&Vec<u8>>)
        ensures
            r is Some <==> self.codec_private is Some,
    {
        self.codec_private.as_ref()
    }

    /// A human-readable string naming the codec.
    pub fn codec_name(&self) -> (r: Option<&str>)
        ensures
            opt_str_view(r) == opt_view(self.codec_name),
    {
        match &self.codec_name {
            Some(s) => Some(s.as_str()),
            None => None,
        }
    }

    /// The codec-built-in delay in nanoseconds.
    pub fn codec_delay(&self) -> (r: Option<u64>)
        ensures
            r == self.codec_delay,
    {
        self.codec_delay
    }

    /// The duration of data the decoder must roll back after a seek.
    pub fn seek_pre_roll(&self) -> (r: Option<u64>)
        ensures
            r == self.seek_pre_roll,
    {
        self.seek_pre_roll
    }

    /// Audio settings.
    pub fn audio(&self) -> (r: Option<&Audio>)
        ensures
            r is Some <==> self.audio is Some,
    {
        self.audio.as_ref()
    }

    /// Video settings.
    pub fn video(&self) -> (r: Option<&Video>)
        ensures
            r is Some <==> self.video is Some,
    {
        self.video.as_ref()
    }

    /// The content encodings applied to the track, in order.
    pub fn content_encodings(&self) -> (r: Option<&Vec<ContentEncoding>>)
        ensures
            r is Some <==> self.content_encodings is Some,
    {
        self.content_encodings.as_ref()
    }
}

/// All possible strings to use for one chapter display.
#[derive(Debug)]
pub struct ChapterDisplay {
    /// The string to show for the chapter.
    pub string: String,
    /// The language of the string, in bibliographic ISO-639-2 form.
    pub language: Option<String>,
    /// The language of the string, per BCP 47.
    pub language_ietf: Option<String>,
    /// The country of the string, as an ISO 3166-1 alpha-2 code.
    pub country: Option<String>,
}

impl ParsableElement for ChapterDisplay {
    open spec fn binds_to(
        data: Seq<u8>,
        fields: Seq<(ElementId, ElementData)>,
        out: Self,
    ) -> bool {
        &&& Some(out.string@) == spec_string(fields, ElementId::ChapString)
        &&& opt_view(out.language) == spec_string(fields, ElementId::ChapLanguage)
        &&& opt_view(out.language_ietf) == spec_string(fields, ElementId::ChapLanguageIetf)
        &&& opt_view(out.country) == spec_string(fields, ElementId::ChapCountry)
    }

    /// Binds one chapter display; the display string is required.
    fn new(r: &mut ByteSource, fields: &Vec<(ElementId, ElementData)>) -> (res: Result<
        Self,
        DemuxError,
    >)
        ensures
            res is Ok <==> ({
                &&& (find_field(fields@, ElementId::ChapString) matches Some(d) && d is String)
                &&& (match find_field(fields@, ElementId::ChapLanguage) {
                    Option::Some(d) => d is String,
                    Option::None => true,
                })
                &&& (match find_field(fields@, ElementId::ChapLanguageIetf) {
                    Option::Some(d) => d is String,
                    Option::None => true,
                })
                &&& (match find_field(fields@, ElementId::ChapCountry) {
                    Option::Some(d) => d is String,
                    Option::None => true,
                })
            }),
            res matches Ok(d) ==> {
                &&& Some(d.string@) == spec_string(fields@, ElementId::ChapString)
                &&& opt_view(d.language) == spec_string(fields@, ElementId::ChapLanguage)
                &&& opt_view(d.language_ietf) == spec_string(fields@, ElementId::ChapLanguageIetf)
                &&& opt_view(d.country) == spec_string(fields@, ElementId::ChapCountry)
            },
    {
        let string = match find_string(fields, ElementId::ChapString) {
            Ok(v) => v,
            Err(e) => {
                return Err(e);
            },
        };
        let language = match try_find_string(fields, ElementId::ChapLanguage) {
            Ok(v) => v,
            Err(e) => {
                return Err(e);
            },
        };
        let language_ietf = match try_find_string(fields, ElementId::ChapLanguageIetf) {
            Ok(v) => v,
            Err(e) => {
                return Err(e);
            },
        };
        let country = match try_find_string(fields, ElementId::ChapCountry) {
            Ok(v) => v,
            Err(e) => {
                return Err(e);
            },
        };
        Ok(ChapterDisplay { string, language, language_ietf, country })
    }
}

impl ChapterDisplay {
    /// The string to show for the chapter.
    pub fn string(&self) -> (r: &str)
        ensures
            r@ == self.string@,
    {
        self.string.as_str()
    }

    /// The language of the string, in bibliographic ISO-639-2 form.
    pub fn language(&self) -> (r: Option<&str>)
        ensures
            opt_str_view(r) == opt_view(self.language),
    {
        match &self.language {
            Some(s) => Some(s.as_str()),
            None => None,
        }
    }

    /// The language of the string, per BCP 47.
    pub fn language_ietf(&self) -> (r: Option<&str>)
        ensures
            opt_str_view(r) == opt_view(self.language_ietf),
    {
        match &self.language_ietf {
            Some(s) => Some(s.as_str()),
            None => None,
        }
    }

    /// The country of the string, as an ISO 3166-1 alpha-2 code.
    pub fn country(&self) -> (r: Option<&str>)
        ensures
            opt_str_view(r) == opt_view(self.country),
    {
        match &self.country {
            Some(s) => Some(s.as_str()),
            None => None,
        }
    }
}

/// The atom information to use as one chapter.
#[derive(Debug)]
pub struct ChapterAtom {
    /// A unique identifier of the chapter; never zero.
    pub uid: u64,
    /// A unique string identifier of the chapter.
    pub string_uid: Option<String>,
    /// The timestamp of the start of the chapter.
    pub time_start: u64,
    /// The timestamp of the end of the chapter.
    pub time_end: Option<u64>,
    /// The strings to use for the chapter display.
    pub displays: Vec<ChapterDisplay>,
}

impl ParsableElement for ChapterAtom {
    open spec fn binds_to(
        data: Seq<u8>,
        fields: Seq<(ElementId, ElementData)>,
        out: Self,
    ) -> bool {
        &&& Some(out.uid) == spec_unsigned(fields, ElementId::ChapterUid)
        &&& out.uid != 0
        &&& opt_view(out.string_uid) == spec_string(fields, ElementId::ChapterStringUid)
        &&& Some(out.time_start) == spec_unsigned(fields, ElementId::ChapterTimeStart)
        &&& out.time_end == spec_unsigned(fields, ElementId::ChapterTimeEnd)
        &&& out.displays@.len() == crate::ebml::count_fields(fields, ElementId::ChapterDisplay)
        &&& (forall|k: int|
            0 <= k < out.displays@.len() ==> (#[trigger] crate::ebml::nth_field(
                fields,
                ElementId::ChapterDisplay,
                k,
            ) matches Some(f) && f.1 matches ElementData::Location { offset, size }
                && crate::ebml::child_binds_to::<ChapterDisplay>(
                data,
                offset,
                size,
                out.displays@[k],
            )))
    }

    /// Binds one chapter atom: the identifier is required and must not be
    /// zero, and the start time is required.
    fn new(r: &mut ByteSource, fields: &Vec<(ElementId, ElementData)>) -> (res: Result<
        Self,
        DemuxError,
    >)
        ensures
            final(r).bytes() == old(r).bytes(),
            ({
                &&& (find_field(fields@, ElementId::ChapterUid) matches Some(d) && d matches
                    ElementData::Unsigned(v) && v != 0)
                &&& (match find_field(fields@, ElementId::ChapterStringUid) {
                    Option::Some(d) => d is String,
                    Option::None => true,
                })
                &&& (find_field(fields@, ElementId::ChapterTimeStart) matches Some(d) && d
                    is Unsigned)
                &&& (match find_field(fields@, ElementId::ChapterTimeEnd) {
                    Option::Some(d) => d is Unsigned,
                    Option::None => true,
                })
                &&& find_field(fields@, ElementId::ChapterDisplay) is None
            }) ==> res is Ok,
            find_field(fields@, ElementId::ChapterUid) is None ==> (res matches Err(e) && e
                == DemuxError::ElementNotFound(ElementId::ChapterUid)),
            (find_field(fields@, ElementId::ChapterUid) matches Some(d) && d matches
                ElementData::Unsigned(v) && v == 0) ==> (res matches Err(e) && e
                == DemuxError::NonZeroValueIsZero(ElementId::ChapterUid)),
            res matches Ok(a) ==> {
                &&& Some(a.uid) == spec_unsigned(fields@, ElementId::ChapterUid)
                &&& a.uid != 0
                &&& opt_view(a.string_uid) == spec_string(fields@, ElementId::ChapterStringUid)
                &&& Some(a.time_start) == spec_unsigned(fields@, ElementId::ChapterTimeStart)
                &&& a.time_end == spec_unsigned(fields@, ElementId::ChapterTimeEnd)
            },
    {
        let uid = match find_nonzero(fields, ElementId::ChapterUid) {
            Ok(v) => v,
            Err(e) => {
                return Err(e);
            },
        };
        let string_uid = match try_find_string(fields, ElementId::ChapterStringUid) {
            Ok(v) => v,
            Err(e) => {
                return Err(e);
            },
        };
        let time_start = match find_unsigned(fields, ElementId::ChapterTimeStart) {
            Ok(v) => v,
            Err(e) => {
                return Err(e);
            },
        };
        let time_end = match try_find_unsigned(fields, ElementId::ChapterTimeEnd) {
            Ok(v) => v,
            Err(e) => {
                return Err(e);
            },
        };
        let displays = match crate::ebml::find_children_in_fields::<ChapterDisplay>(
            r,
            fields,
            ElementId::ChapterDisplay,
        ) {
            Ok(v) => v,
            Err(e) => {
                return Err(e);
            },
        };
        Ok(ChapterAtom { uid, string_uid, time_start, time_end, displays })
    }
}

impl ChapterAtom {
    /// A unique identifier of the chapter.
    pub fn uid(&self) -> (r: u64)
        ensures
            r == self.uid,
    {
        self.uid
    }

    /// A unique string identifier of the chapter.
    pub fn string_uid(&self) -> (r: Option<&str>)
        ensures
            opt_str_view(r) == opt_view(self.string_uid),
    {
        match &self.string_uid {
            Some(s) => Some(s.as_str()),
            None => None,
        }
    }

    /// The timestamp of the start of the chapter.
    pub fn time_start(&self) -> (r: u64)
        ensures
            r == self.time_start,
    {
        self.time_start
    }

    /// The timestamp of the end of the chapter.
    pub fn time_end(&self) -> (r: Option<u64>)
        ensures
            r == self.time_end,
    {
        self.time_end
    }

    /// The strings to use for the chapter display.
    pub fn displays(&self) -> (r: &Vec<ChapterDisplay>)
        ensures
            r == &self.displays,
    {
        &self.displays
    }
}

/// All information about one segment edition.
#[derive(Debug)]
pub struct EditionEntry {
    /// The chapters of the edition.
    pub chapter_atoms: Vec<ChapterAtom>,
}

impl ParsableElement for EditionEntry {
    open spec fn binds_to(
        data: Seq<u8>,
        fields: Seq<(ElementId, ElementData)>,
        out: Self,
    ) -> bool {
        &&& out.chapter_atoms@.len() == crate::ebml::count_fields(
            fields,
            ElementId::ChapterAtom,
        )
        &&& (forall|k: int|
            0 <= k < out.chapter_atoms@.len() ==> (#[trigger] crate::ebml::nth_field(
                fields,
                ElementId::ChapterAtom,
                k,
            ) matches Some(f) && f.1 matches ElementData::Location { offset, size }
                && crate::ebml::child_binds_to::<ChapterAtom>(
                data,
                offset,
                size,
                out.chapter_atoms@[k],
            )))
    }

    /// Binds one edition entry: its chapter atoms, in wire order.
    fn new(r: &mut ByteSource, fields: &Vec<(ElementId, ElementData)>) -> (res: Result<
        Self,
        DemuxError,
    >)
        ensures
            find_field(fields@, ElementId::ChapterAtom) is None ==> res is Ok,
    {
        let chapter_atoms = match crate::ebml::find_children_in_fields::<ChapterAtom>(
            r,
            fields,
            ElementId::ChapterAtom,
        ) {
            Ok(v) => v,
            Err(e) => {
                return Err(e);
            },
        };
        Ok(EditionEntry { chapter_atoms })
    }
}

impl EditionEntry {
    /// The chapters of the edition.
    pub fn chapter_atoms(&self) -> (r: &Vec<ChapterAtom>)
        ensures
            r == &self.chapter_atoms,
    {
        &self.chapter_atoms
    }
}

/// Which other parts the metadata of a tag applies to.
#[derive(Debug)]
pub struct Targets {
    /// The logical level of the target.
    pub target_type_value: Option<u64>,
    /// An informational string of the target level.
    pub target_type: Option<String>,
    /// The unique identifier of the tracks the tags belong to.
    pub tag_track_uid: Option<u64>,
}

impl ParsableElement for Targets {
    open spec fn binds_to(
        data: Seq<u8>,
        fields: Seq<(ElementId, ElementData)>,
        out: Self,
    ) -> bool {
        &&& out.target_type_value == spec_unsigned(fields, ElementId::TargetTypeValue)
        &&& opt_view(out.target_type) == spec_string(fields, ElementId::TargetType)
        &&& out.tag_track_uid == spec_unsigned(fields, ElementId::TagTrackUid)
    }

    /// Binds the targets of a tag.
    fn new(r: &mut ByteSource, fields: &Vec<(ElementId, ElementData)>) -> (res: Result<
        Self,
        DemuxError,
    >)
        ensures
            res is Ok <==> ({
                &&& (match find_field(fields@, ElementId::TargetTypeValue) {
                    Option::Some(d) => d is Unsigned,
                    Option::None => true,
                })
                &&& (match find_field(fields@, ElementId::TargetType) {
                    Option::Some(d) => d is String,
                    Option::None => true,
                })
                &&& (match find_field(fields@, ElementId::TagTrackUid) {
                    Option::Some(d) => d is Unsigned,
                    Option::None => true,
                })
            }),
            res matches Ok(t) ==> {
                &&& t.target_type_value == spec_unsigned(fields@, ElementId::TargetTypeValue)
                &&& t.tag_track_uid == spec_unsigned(fields@, ElementId::TagTrackUid)
            },
    {
        let target_type_value = match try_find_unsigned(fields, ElementId::TargetTypeValue) {
            Ok(v) => v,
            Err(e) => {
                return Err(e);
            },
        };
        let target_type = match try_find_string(fields, ElementId::TargetType) {
            Ok(v) => v,
            Err(e) => {
                return Err(e);
            },
        };
        let tag_track_uid = match try_find_unsigned(fields, ElementId::TagTrackUid) {
            Ok(v) => v,
            Err(e) => {
                return Err(e);
            },
        };
        Ok(Targets { target_type_value, target_type, tag_track_uid })
    }
}

impl Targets {
    /// The logical level of the target.
    pub fn target_type_value(&self) -> (r: Option<u64>)
        ensures
            r == self.target_type_value,
    {
        self.target_type_value
    }

    /// The unique identifier of the tracks the tags belong to.
    pub fn tag_track_uid(&self) -> (r: Option<u64>)
        ensures
            r == self.tag_track_uid,
    {
        self.tag_track_uid
    }
}

/// General information about one tagged value.
#[derive(Debug)]
pub struct SimpleTag {
    /// The name of the tag.
    pub name: String,
    /// The language of the tag.
    pub language: Option<String>,
    /// Whether this is the default language for the tag.
    pub default: Option<bool>,
    /// The value of the tag, when it is a string.
    pub string: Option<String>,
    /// The value of the tag, when it is binary.
    pub binary: Option<Vec<u8>>,
}

impl ParsableElement for SimpleTag {
    open spec fn binds_to(
        data: Seq<u8>,
        fields: Seq<(ElementId, ElementData)>,
        out: Self,
    ) -> bool {
        &&& Some(out.name@) == spec_string(fields, ElementId::TagName)
        &&& opt_view(out.language) == spec_string(fields, ElementId::TagLanguage)
        &&& opt_view(out.string) == spec_string(fields, ElementId::TagString)
        &&& out.default == (match spec_unsigned(fields, ElementId::TagDefault) {
            Option::Some(v) => Some(v != 0),
            Option::None => None::<bool>,
        })
        &&& (match find_field(fields, ElementId::TagBinary) {
            Option::Some(d) => d matches ElementData::Location { offset, size }
                && out.binary matches Some(v) && offset + size <= data.len() && v@
                == data.subrange(offset as int, offset + size),
            Option::None => out.binary is None,
        })
    }

    /// Binds one simple tag; the name is required.
    fn new(r: &mut ByteSource, fields: &Vec<(ElementId, ElementData)>) -> (res: Result<
        Self,
        DemuxError,
    >)
        ensures
            final(r).bytes() == old(r).bytes(),
            ({
                &&& (find_field(fields@, ElementId::TagName) matches Some(d) && d is String)
                &&& (match find_field(fields@, ElementId::TagLanguage) {
                    Option::Some(d) => d is String,
                    Option::None => true,
                })
                &&& (match find_field(fields@, ElementId::TagDefault) {
                    Option::Some(d) => d is Unsigned,
                    Option::None => true,
                })
                &&& (match find_field(fields@, ElementId::TagString) {
                    Option::Some(d) => d is String,
                    Option::None => true,
                })
                &&& find_field(fields@, ElementId::TagBinary) is None
            }) ==> res is Ok,
            find_field(fields@, ElementId::TagName) is None ==> (res matches Err(e) && e
                == DemuxError::ElementNotFound(ElementId::TagName)),
            res matches Ok(t) ==> {
                &&& Some(t.name@) == spec_string(fields@, ElementId::TagName)
                &&& opt_view(t.language) == spec_string(fields@, ElementId::TagLanguage)
                &&& opt_view(t.string) == spec_string(fields@, ElementId::TagString)
                &&& t.default == (match spec_unsigned(fields@, ElementId::TagDefault) {
                    Option::Some(v) => Some(v != 0),
                    Option::None => None::<bool>,
                })
            },
    {
        let name = match find_string(fields, ElementId::TagName) {
            Ok(v) => v,
            Err(e) => {
                return Err(e);
            },
        };
        let language = match try_find_string(fields, ElementId::TagLanguage) {
            Ok(v) => v,
            Err(e) => {
                return Err(e);
            },
        };
        let default = match try_find_bool(fields, ElementId::TagDefault) {
            Ok(v) => v,
            Err(e) => {
                return Err(e);
            },
        };
        let string = match try_find_string(fields, ElementId::TagString) {
            Ok(v) => v,
            Err(e) => {
                return Err(e);
            },
        };
        let binary = match try_find_binary(r, fields, ElementId::TagBinary) {
            Ok(v) => v,
            Err(e) => {
                return Err(e);
            },
        };
        Ok(SimpleTag { name, language, default, string, binary })
    }
}

impl SimpleTag {
    /// The name of the tag.
    pub fn name(&self) -> (r: &str)
        ensures
            r@ == self.name@,
    {
        self.name.as_str()
    }

    /// The language of the tag.
    pub fn language(&self) -> (r: Option<&str>)
        ensures
            opt_str_view(r) == opt_view(self.language),
    {
        match &self.language {
            Some(s) => Some(s.as_str()),
            None => None,
        }
    }

    /// Whether this is the default language for the tag.
    pub fn default(&self) -> (r: Option<bool>)
        ensures
            r == self.default,
    {
        self.default
    }

    /// The value of the tag, when it is a string.
    pub fn string(&self) -> (r: Option<&str>)
        ensures
            opt_str_view(r) == opt_view(self.string),
    {
        match &self.string {
            Some(s) => Some(s.as_str()),
            None => None,
        }
    }

    /// The value of the tag, when it is binary.
    pub fn binary(&self) -> (r: Option<&Vec<u8>>)
        ensures
            r is Some <==> self.binary is Some,
    {
        self.binary.as_ref()
    }
}

/// One metadata descriptor.
#[derive(Debug)]
pub struct Tag {
    /// Which other parts the metadata applies to.
    pub targets: Option<Targets>,
    /// The tagged values.
    pub simple_tags: Vec<SimpleTag>,
}

impl ParsableElement for Tag {
    open spec fn binds_to(
        data: Seq<u8>,
        fields: Seq<(ElementId, ElementData)>,
        out: Self,
    ) -> bool {
        &&& (out.targets is Some <==> find_field(fields, ElementId::Targets) is Some)
        &&& (out.targets matches Some(t) ==> (find_field(fields, ElementId::Targets) matches
            Some(d) && d matches ElementData::Location { offset, size }
            && crate::ebml::child_binds_to::<Targets>(data, offset, size, t)))
        &&& out.simple_tags@.len() == crate::ebml::count_fields(fields, ElementId::SimpleTag)
        &&& (forall|k: int|
            0 <= k < out.simple_tags@.len() ==> (#[trigger] crate::ebml::nth_field(
                fields,
                ElementId::SimpleTag,
                k,
            ) matches Some(f) && f.1 matches ElementData::Location { offset, size }
                && crate::ebml::child_binds_to::<SimpleTag>(
                data,
                offset,
                size,
                out.simple_tags@[k],
            )))
    }

    /// Binds one tag: its optional targets and its simple tags, in wire
    /// order.
    fn new(r: &mut ByteSource, fields: &Vec<(ElementId, ElementData)>) -> (res: Result<
        Self,
        DemuxError,
    >)
        ensures
            (find_field(fields@, ElementId::Targets) is None && find_field(
                fields@,
                ElementId::SimpleTag,
            ) is None) ==> res is Ok,
            res matches Ok(t) ==> (find_field(fields@, ElementId::Targets) is None ==> t.targets
                is None),
    {
        let targets = match try_parse_child::<Targets>(r, fields, ElementId::Targets) {
            Ok(v) => v,
            Err(e) => {
                return Err(e);
            },
        };
        let simple_tags = match crate::ebml::find_children_in_fields::<SimpleTag>(
            r,
            fields,
            ElementId::SimpleTag,
        ) {
            Ok(v) => v,
            Err(e) => {
                return Err(e);
            },
        };
        Ok(Tag { targets, simple_tags })
    }
}

impl Tag {
    /// Which other parts the metadata applies to.
    pub fn targets(&self) -> (r: Option<&Targets>)
        ensures
            r is Some <==> self.targets is Some,
    {
        self.targets.as_ref()
    }

    /// The tagged values.
    pub fn simple_tags(&self) -> (r: &Vec<SimpleTag>)
        ensures
            r == &self.simple_tags,
    {
        &self.simple_tags
    }
}

/// One entry of the seek index.
#[derive(Debug)]
pub struct SeekEntry {
    /// The element the entry points at.
    pub id: ElementId,
    /// The offset of the element, relative to the segment data.
    pub offset: u64,
}

impl ParsableElement for SeekEntry {
    open spec fn binds_to(
        data: Seq<u8>,
        fields: Seq<(ElementId, ElementData)>,
        out: Self,
    ) -> bool {
        &&& (spec_unsigned(fields, ElementId::SeekId) matches Some(v) && v <= u32::MAX
            && out.id == crate::element_id::spec_id_to_element_id(v as u32))
        &&& Some(out.offset) == spec_unsigned(fields, ElementId::SeekPosition)
    }

    /// Binds one seek entry: the pointed-at element identifier and its
    /// offset are required, and the identifier must fit 32 bits.
    fn new(r: &mut ByteSource, fields: &Vec<(ElementId, ElementData)>) -> (res: Result<
        Self,
        DemuxError,
    >)
        ensures
            res is Ok <==> ({
                &&& (find_field(fields@, ElementId::SeekId) matches Some(d) && d matches
                    ElementData::Unsigned(v) && v <= u32::MAX)
                &&& (find_field(fields@, ElementId::SeekPosition) matches Some(d) && d
                    is Unsigned)
            }),
            res matches Ok(entry) ==> {
                &&& (spec_unsigned(fields@, ElementId::SeekId) matches Some(v) && v <= u32::MAX
                    && entry.id == crate::element_id::spec_id_to_element_id(v as u32))
                &&& Some(entry.offset) == spec_unsigned(fields@, ElementId::SeekPosition)
            },
    {
        let raw_id = match find_unsigned(fields, ElementId::SeekId) {
            Ok(v) => v,
            Err(e) => {
                return Err(e);
            },
        };
        if raw_id > u32::MAX as u64 {
            return Err(DemuxError::TryFromIntError);
        }
        let id = crate::element_id::id_to_element_id(raw_id as u32);
        let offset = match find_unsigned(fields, ElementId::SeekPosition) {
            Ok(v) => v,
            Err(e) => {
                return Err(e);
            },
        };
        Ok(SeekEntry { id, offset })
    }
}

/// The positions of one cue point, for one track.
#[derive(Debug)]
pub struct CueTrackPositions {
    /// The track the positions apply to.
    pub track: u64,
    /// The position of the cluster the cue points into.
    pub cluster_position: u64,
    /// The position of the block inside the cluster, relative to the
    /// cluster's data.
    pub relative_position: Option<u64>,
    /// The duration of the block.
    pub duration: Option<u64>,
    /// The number of the block inside the cluster.
    pub block_number: Option<u64>,
}

impl ParsableElement for CueTrackPositions {
    open spec fn binds_to(
        data: Seq<u8>,
        fields: Seq<(ElementId, ElementData)>,
        out: Self,
    ) -> bool {
        &&& Some(out.track) == spec_unsigned(fields, ElementId::CueTrack)
        &&& Some(out.cluster_position) == spec_unsigned(fields, ElementId::CueClusterPosition)
        &&& out.relative_position == spec_unsigned(fields, ElementId::CueRelativePosition)
        &&& out.duration == spec_unsigned(fields, ElementId::CueDuration)
        &&& out.block_number == spec_unsigned(fields, ElementId::CueBlockNumber)
    }

    /// Binds the positions of one cue point; the track and cluster position
    /// are required.
    fn new(r: &mut ByteSource, fields: &Vec<(ElementId, ElementData)>) -> (res: Result<
        Self,
        DemuxError,
    >)
        ensures
            res is Ok <==> ({
                &&& (find_field(fields@, ElementId::CueTrack) matches Some(d) && d is Unsigned)
                &&& (find_field(fields@, ElementId::CueClusterPosition) matches Some(d) && d
                    is Unsigned)
                &&& (match find_field(fields@, ElementId::CueRelativePosition) {
                    Option::Some(d) => d is Unsigned,
                    Option::None => true,
                })
                &&& (match find_field(fields@, ElementId::CueDuration) {
                    Option::Some(d) => d is Unsigned,
                    Option::None => true,
                })
                &&& (match find_field(fields@, ElementId::CueBlockNumber) {
                    Option::Some(d) => d is Unsigned,
                    Option::None => true,
                })
            }),
            res matches Ok(p) ==> {
                &&& Some(p.track) == spec_unsigned(fields@, ElementId::CueTrack)
                &&& Some(p.cluster_position) == spec_unsigned(
                    fields@,
                    ElementId::CueClusterPosition,
                )
                &&& p.relative_position == spec_unsigned(fields@, ElementId::CueRelativePosition)
                &&& p.duration == spec_unsigned(fields@, ElementId::CueDuration)
                &&& p.block_number == spec_unsigned(fields@, ElementId::CueBlockNumber)
            },
    {
        let track = match find_unsigned(fields, ElementId::CueTrack) {
            Ok(v) => v,
            Err(e) => {
                return Err(e);
            },
        };
        let cluster_position = match find_unsigned(fields, ElementId::CueClusterPosition) {
            Ok(v) => v,
            Err(e) => {
                return Err(e);
            },
        };
        let relative_position = match try_find_unsigned(fields, ElementId::CueRelativePosition) {
            Ok(v) => v,
            Err(e) => {
                return Err(e);
            },
        };
        let duration = match try_find_unsigned(fields, ElementId::CueDuration) {
            Ok(v) => v,
            Err(e) => {
                return Err(e);
            },
        };
        let block_number = match try_find_unsigned(fields, ElementId::CueBlockNumber) {
            Ok(v) => v,
            Err(e) => {
                return Err(e);
            },
        };
        Ok(
            CueTrackPositions {
                track,
                cluster_position,
                relative_position,
                duration,
                block_number,
            },
        )
    }
}

/// One seek point of the segment: a timestamp and where its cluster lies.
#[derive(Debug)]
pub struct CuePoint {
    /// The timestamp the cue points at.
    pub time: u64,
    /// The positions of the cue.
    pub track_position: CueTrackPositions,
}

impl ParsableElement for CuePoint {
    open spec fn binds_to(
        data: Seq<u8>,
        fields: Seq<(ElementId, ElementData)>,
        out: Self,
    ) -> bool {
        &&& Some(out.time) == spec_unsigned(fields, ElementId::CueTime)
        &&& (find_field(fields, ElementId::CueTrackPositions) matches Some(d) && d matches
            ElementData::Location { offset, size } && crate::ebml::child_binds_to::<
            CueTrackPositions,
        >(data, offset, size, out.track_position))
    }

    /// Binds one cue point; the time and the track positions are required.
    fn new(r: &mut ByteSource, fields: &Vec<(ElementId, ElementData)>) -> (res: Result<
        Self,
        DemuxError,
    >)
        ensures
            final(r).bytes() == old(r).bytes(),
            res matches Ok(p) ==> Some(p.time) == spec_unsigned(fields@, ElementId::CueTime),
            find_field(fields@, ElementId::CueTime) is None ==> (res matches Err(e) && e
                == DemuxError::ElementNotFound(ElementId::CueTime)),
            (find_field(fields@, ElementId::CueTime) matches Some(d) && d is Unsigned
                && find_field(fields@, ElementId::CueTrackPositions) is None) ==> (res matches Err(
            e,
            ) && e == DemuxError::ElementNotFound(ElementId::CueTrackPositions)),
    {
        let time = match find_unsigned(fields, ElementId::CueTime) {
            Ok(v) => v,
            Err(e) => {
                return Err(e);
            },
        };
        let track_position = match parse_child::<CueTrackPositions>(
            r,
            fields,
            ElementId::CueTrackPositions,
        ) {
            Ok(v) => v,
            Err(e) => {
                return Err(e);
            },
        };
        Ok(CuePoint { time, track_position })
    }
}

} // verus!
