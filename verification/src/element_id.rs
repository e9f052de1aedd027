//! The element identifiers of the EBML and Matroska specifications,
//! together with the payload type each one carries.

use vstd::prelude::*;

verus! {

/// A known element identifier, or `Unknown` for any identifier outside the
/// supported set.
#[derive(Clone, Copy, Debug, Eq, PartialEq, Hash, Structural)]
pub enum ElementId {
    Unknown,
    Ebml,
    EbmlVersion,
    EbmlReadVersion,
    EbmlMaxIdLength,
    EbmlMaxSizeLength,
    DocType,
    DocTypeVersion,
    DocTypeReadVersion,
    Void,
    Segment,
    SeekHead,
    Seek,
    SeekId,
    SeekPosition,
    Info,
    TimestampScale,
    Duration,
    DateUtc,
    Title,
    MuxingApp,
    WritingApp,
    Cluster,
    Timestamp,
    PrevSize,
    SimpleBlock,
    BlockGroup,
    Block,
    BlockAdditions,
    BlockMore,
    BlockAddId,
    BlockAdditional,
    BlockDuration,
    ReferenceBlock,
    DiscardPadding,
    Tracks,
    TrackEntry,
    TrackNumber,
    TrackUid,
    TrackType,
    FlagEnabled,
    FlagDefault,
    FlagForced,
    FlagHearingImpaired,
    FlagVisualImpaired,
    FlagTextDescriptions,
    FlagOriginal,
    FlagCommentary,
    FlagLacing,
    DefaultDuration,
    Name,
    Language,
    CodecId,
    CodecPrivate,
    CodecName,
    CodecDelay,
    SeekPreRoll,
    Video,
    FlagInterlaced,
    StereoMode,
    AlphaMode,
    PixelWidth,
    PixelHeight,
    PixelCropBottom,
    PixelCropTop,
    PixelCropLeft,
    PixelCropRight,
    DisplayWidth,
    DisplayHeight,
    DisplayUnit,
    AspectRatioType,
    Audio,
    SamplingFrequency,
    OutputSamplingFrequency,
    Channels,
    BitDepth,
    ContentEncodings,
    ContentEncoding,
    ContentEncodingOrder,
    ContentEncodingScope,
    ContentEncodingType,
    ContentEncryption,
    ContentEncAlgo,
    ContentEncKeyId,
    ContentEncAesSettings,
    AesSettingsCipherMode,
    Colour,
    MatrixCoefficients,
    BitsPerChannel,
    ChromaSubsamplingHorz,
    ChromaSubsamplingVert,
    CbSubsamplingHorz,
    CbSubsamplingVert,
    ChromaSitingHorz,
    ChromaSitingVert,
    Range,
    TransferCharacteristics,
    Primaries,
    MaxCll,
    MaxFall,
    MasteringMetadata,
    PrimaryRChromaticityX,
    PrimaryRChromaticityY,
    PrimaryGChromaticityX,
    PrimaryGChromaticityY,
    PrimaryBChromaticityX,
    PrimaryBChromaticityY,
    WhitePointChromaticityX,
    WhitePointChromaticityY,
    LuminanceMax,
    LuminanceMin,
    Cues,
    CuePoint,
    CueTime,
    CueTrackPositions,
    CueTrack,
    CueClusterPosition,
    CueRelativePosition,
    CueDuration,
    CueBlockNumber,
    Chapters,
    EditionEntry,
    ChapterAtom,
    ChapterUid,
    ChapterStringUid,
    ChapterTimeStart,
    ChapterTimeEnd,
    ChapterDisplay,
    ChapString,
    ChapLanguage,
    ChapLanguageIetf,
    ChapCountry,
    Tags,
    Tag,
    Targets,
    TargetTypeValue,
    TargetType,
    TagTrackUid,
    SimpleTag,
    TagName,
    TagLanguage,
    TagDefault,
    TagString,
    TagBinary,
    Crc32,
}

/// The kind of payload an element carries.
#[derive(Clone, Copy, Debug, Eq, PartialEq, Structural)]
pub enum ElementType {
    Unknown,
    Master,
    Unsigned,
    Signed,
    Float,
    Date,
    String,
    Binary,
}

/// Maps an on-wire identifier to its element, `Unknown` where the identifier
/// is not in the supported set.
pub open spec fn spec_id_to_element_id(id: u32) -> ElementId {
    match id {
        0x1A45DFA3 => ElementId::Ebml,
        0x4286 => ElementId::EbmlVersion,
        0x42F7 => ElementId::EbmlReadVersion,
        0x42F2 => ElementId::EbmlMaxIdLength,
        0x42F3 => ElementId::EbmlMaxSizeLength,
        0x4282 => ElementId::DocType,
        0x4287 => ElementId::DocTypeVersion,
        0x4285 => ElementId::DocTypeReadVersion,
        0xEC => ElementId::Void,
        0x18538067 => ElementId::Segment,
        0x114D9B74 => ElementId::SeekHead,
        0x4DBB => ElementId::Seek,
        0x53AB => ElementId::SeekId,
        0x53AC => ElementId::SeekPosition,
        0x1549A966 => ElementId::Info,
        0x2AD7B1 => ElementId::TimestampScale,
        0x4489 => ElementId::Duration,
        0x4461 => ElementId::DateUtc,
        0x7BA9 => ElementId::Title,
        0x4D80 => ElementId::MuxingApp,
        0x5741 => ElementId::WritingApp,
        0x1F43B675 => ElementId::Cluster,
        0xE7 => ElementId::Timestamp,
        0xAB => ElementId::PrevSize,
        0xA3 => ElementId::SimpleBlock,
        0xA0 => ElementId::BlockGroup,
        0xA1 => ElementId::Block,
        0x75A1 => ElementId::BlockAdditions,
        0xA6 => ElementId::BlockMore,
        0xEE => ElementId::BlockAddId,
        0xA5 => ElementId::BlockAdditional,
        0x9B => ElementId::BlockDuration,
        0xFB => ElementId::ReferenceBlock,
        0x75A2 => ElementId::DiscardPadding,
        0x1654AE6B => ElementId::Tracks,
        0xAE => ElementId::TrackEntry,
        0xD7 => ElementId::TrackNumber,
        0x73C5 => ElementId::TrackUid,
        0x83 => ElementId::TrackType,
        0xB9 => ElementId::FlagEnabled,
        0x88 => ElementId::FlagDefault,
        0x55AA => ElementId::FlagForced,
        0x55AB => ElementId::FlagHearingImpaired,
        0x55AC => ElementId::FlagVisualImpaired,
        0x55AD => ElementId::FlagTextDescriptions,
        0x55AE => ElementId::FlagOriginal,
        0x55AF => ElementId::FlagCommentary,
        0x9C => ElementId::FlagLacing,
        0x23E383 => ElementId::DefaultDuration,
        0x536E => ElementId::Name,
        0x22B59C => ElementId::Language,
        0x86 => ElementId::CodecId,
        0x63A2 => ElementId::CodecPrivate,
        0x258688 => ElementId::CodecName,
        0x56AA => ElementId::CodecDelay,
        0x56BB => ElementId::SeekPreRoll,
        0xE0 => ElementId::Video,
        0x9A => ElementId::FlagInterlaced,
        0x53B8 => ElementId::StereoMode,
        0x53C0 => ElementId::AlphaMode,
        0xB0 => ElementId::PixelWidth,
        0xBA => ElementId::PixelHeight,
        0x54AA => ElementId::PixelCropBottom,
        0x54BB => ElementId::PixelCropTop,
        0x54CC => ElementId::PixelCropLeft,
        0x54DD => ElementId::PixelCropRight,
        0x54B0 => ElementId::DisplayWidth,
        0x54BA => ElementId::DisplayHeight,
        0x54B2 => ElementId::DisplayUnit,
        0x54B3 => ElementId::AspectRatioType,
        0xE1 => ElementId::Audio,
        0xB5 => ElementId::SamplingFrequency,
        0x78B5 => ElementId::OutputSamplingFrequency,
        0x9F => ElementId::Channels,
        0x6264 => ElementId::BitDepth,
        0x6D80 => ElementId::ContentEncodings,
        0x6240 => ElementId::ContentEncoding,
        0x5031 => ElementId::ContentEncodingOrder,
        0x5032 => ElementId::ContentEncodingScope,
        0x5033 => ElementId::ContentEncodingType,
        0x5035 => ElementId::ContentEncryption,
        0x47E1 => ElementId::ContentEncAlgo,
        0x47E2 => ElementId::ContentEncKeyId,
        0x47E7 => ElementId::ContentEncAesSettings,
        0x47E8 => ElementId::AesSettingsCipherMode,
        0x55B0 => ElementId::Colour,
        0x55B1 => ElementId::MatrixCoefficients,
        0x55B2 => ElementId::BitsPerChannel,
        0x55B3 => ElementId::ChromaSubsamplingHorz,
        0x55B4 => ElementId::ChromaSubsamplingVert,
        0x55B5 => ElementId::CbSubsamplingHorz,
        0x55B6 => ElementId::CbSubsamplingVert,
        0x55B7 => ElementId::ChromaSitingHorz,
        0x55B8 => ElementId::ChromaSitingVert,
        0x55B9 => ElementId::Range,
        0x55BA => ElementId::TransferCharacteristics,
        0x55BB => ElementId::Primaries,
        0x55BC => ElementId::MaxCll,
        0x55BD => ElementId::MaxFall,
        0x55D0 => ElementId::MasteringMetadata,
        0x55D1 => ElementId::PrimaryRChromaticityX,
        0x55D2 => ElementId::PrimaryRChromaticityY,
        0x55D3 => ElementId::PrimaryGChromaticityX,
        0x55D4 => ElementId::PrimaryGChromaticityY,
        0x55D5 => ElementId::PrimaryBChromaticityX,
        0x55D6 => ElementId::PrimaryBChromaticityY,
        0x55D7 => ElementId::WhitePointChromaticityX,
        0x55D8 => ElementId::WhitePointChromaticityY,
        0x55D9 => ElementId::LuminanceMax,
        0x55DA => ElementId::LuminanceMin,
        0x1C53BB6B => ElementId::Cues,
        0xBB => ElementId::CuePoint,
        0xB3 => ElementId::CueTime,
        0xB7 => ElementId::CueTrackPositions,
        0xF7 => ElementId::CueTrack,
        0xF1 => ElementId::CueClusterPosition,
        0xF0 => ElementId::CueRelativePosition,
        0xB2 => ElementId::CueDuration,
        0x5378 => ElementId::CueBlockNumber,
        0x1043A770 => ElementId::Chapters,
        0x45B9 => ElementId::EditionEntry,
        0xB6 => ElementId::ChapterAtom,
        0x73C4 => ElementId::ChapterUid,
        0x5654 => ElementId::ChapterStringUid,
        0x91 => ElementId::ChapterTimeStart,
        0x92 => ElementId::ChapterTimeEnd,
        0x80 => ElementId::ChapterDisplay,
        0x85 => ElementId::ChapString,
        0x437C => ElementId::ChapLanguage,
        0x437D => ElementId::ChapLanguageIetf,
        0x437E => ElementId::ChapCountry,
        0x1254C367 => ElementId::Tags,
        0x7373 => ElementId::Tag,
        0x63C0 => ElementId::Targets,
        0x68CA => ElementId::TargetTypeValue,
        0x63CA => ElementId::TargetType,
        0x63C5 => ElementId::TagTrackUid,
        0x67C8 => ElementId::SimpleTag,
        0x45A3 => ElementId::TagName,
        0x447A => ElementId::TagLanguage,
        0x4484 => ElementId::TagDefault,
        0x4487 => ElementId::TagString,
        0x4485 => ElementId::TagBinary,
        0xBF => ElementId::Crc32,
        _ => ElementId::Unknown,
    }
}

/// The expected payload type of each element.
pub open spec fn spec_element_type(id: ElementId) -> ElementType {
    match id {
        ElementId::Ebml => ElementType::Master,
        ElementId::EbmlVersion => ElementType::Unsigned,
        ElementId::EbmlReadVersion => ElementType::Unsigned,
        ElementId::EbmlMaxIdLength => ElementType::Unsigned,
        ElementId::EbmlMaxSizeLength => ElementType::Unsigned,
        ElementId::DocType => ElementType::String,
        ElementId::DocTypeVersion => ElementType::Unsigned,
        ElementId::DocTypeReadVersion => ElementType::Unsigned,
        ElementId::Void => ElementType::Binary,
        ElementId::Segment => ElementType::Master,
        ElementId::SeekHead => ElementType::Master,
        ElementId::Seek => ElementType::Master,
        ElementId::SeekId => ElementType::Unsigned,
        ElementId::SeekPosition => ElementType::Unsigned,
        ElementId::Info => ElementType::Master,
        ElementId::TimestampScale => ElementType::Unsigned,
        ElementId::Duration => ElementType::Float,
        ElementId::DateUtc => ElementType::Date,
        ElementId::Title => ElementType::String,
        ElementId::MuxingApp => ElementType::String,
        ElementId::WritingApp => ElementType::String,
        ElementId::Cluster => ElementType::Master,
        ElementId::Timestamp => ElementType::Unsigned,
        ElementId::PrevSize => ElementType::Unsigned,
        ElementId::SimpleBlock => ElementType::Binary,
        ElementId::BlockGroup => ElementType::Master,
        ElementId::Block => ElementType::Binary,
        ElementId::BlockAdditions => ElementType::Master,
        ElementId::BlockMore => ElementType::Master,
        ElementId::BlockAddId => ElementType::Unsigned,
        ElementId::BlockAdditional => ElementType::Binary,
        ElementId::BlockDuration => ElementType::Unsigned,
        ElementId::ReferenceBlock => ElementType::Signed,
        ElementId::DiscardPadding => ElementType::Signed,
        ElementId::Tracks => ElementType::Master,
        ElementId::TrackEntry => ElementType::Master,
        ElementId::TrackNumber => ElementType::Unsigned,
        ElementId::TrackUid => ElementType::Unsigned,
        ElementId::TrackType => ElementType::Unsigned,
        ElementId::FlagEnabled => ElementType::Unsigned,
        ElementId::FlagDefault => ElementType::Unsigned,
        ElementId::FlagForced => ElementType::Unsigned,
        ElementId::FlagHearingImpaired => ElementType::Unsigned,
        ElementId::FlagVisualImpaired => ElementType::Unsigned,
        ElementId::FlagTextDescriptions => ElementType::Unsigned,
        ElementId::FlagOriginal => ElementType::Unsigned,
        ElementId::FlagCommentary => ElementType::Unsigned,
        ElementId::FlagLacing => ElementType::Unsigned,
        ElementId::DefaultDuration => ElementType::Unsigned,
        ElementId::Name => ElementType::String,
        ElementId::Language => ElementType::String,
        ElementId::CodecId => ElementType::String,
        ElementId::CodecPrivate => ElementType::Binary,
        ElementId::CodecName => ElementType::String,
        ElementId::CodecDelay => ElementType::Unsigned,
        ElementId::SeekPreRoll => ElementType::Unsigned,
        ElementId::Video => ElementType::Master,
        ElementId::FlagInterlaced => ElementType::Unsigned,
        ElementId::StereoMode => ElementType::Unsigned,
        ElementId::AlphaMode => ElementType::Unsigned,
        ElementId::PixelWidth => ElementType::Unsigned,
        ElementId::PixelHeight => ElementType::Unsigned,
        ElementId::PixelCropBottom => ElementType::Unsigned,
        ElementId::PixelCropTop => ElementType::Unsigned,
        ElementId::PixelCropLeft => ElementType::Unsigned,
        ElementId::PixelCropRight => ElementType::Unsigned,
        ElementId::DisplayWidth => ElementType::Unsigned,
        ElementId::DisplayHeight => ElementType::Unsigned,
        ElementId::DisplayUnit => ElementType::Unsigned,
        ElementId::AspectRatioType => ElementType::Unsigned,
        ElementId::Audio => ElementType::Master,
        ElementId::SamplingFrequency => ElementType::Float,
        ElementId::OutputSamplingFrequency => ElementType::Float,
        ElementId::Channels => ElementType::Unsigned,
        ElementId::BitDepth => ElementType::Unsigned,
        ElementId::ContentEncodings => ElementType::Master,
        ElementId::ContentEncoding => ElementType::Master,
        ElementId::ContentEncodingOrder => ElementType::Unsigned,
        ElementId::ContentEncodingScope => ElementType::Unsigned,
        ElementId::ContentEncodingType => ElementType::Unsigned,
        ElementId::ContentEncryption => ElementType::Master,
        ElementId::ContentEncAlgo => ElementType::Unsigned,
        ElementId::ContentEncKeyId => ElementType::Unsigned,
        ElementId::ContentEncAesSettings => ElementType::Master,
        ElementId::AesSettingsCipherMode => ElementType::Unsigned,
        ElementId::Colour => ElementType::Master,
        ElementId::MatrixCoefficients => ElementType::Unsigned,
        ElementId::BitsPerChannel => ElementType::Unsigned,
        ElementId::ChromaSubsamplingHorz => ElementType::Unsigned,
        ElementId::ChromaSubsamplingVert => ElementType::Unsigned,
        ElementId::CbSubsamplingHorz => ElementType::Unsigned,
        ElementId::CbSubsamplingVert => ElementType::Unsigned,
        ElementId::ChromaSitingHorz => ElementType::Unsigned,
        ElementId::ChromaSitingVert => ElementType::Unsigned,
        ElementId::Range => ElementType::Unsigned,
        ElementId::TransferCharacteristics => ElementType::Unsigned,
        ElementId::Primaries => ElementType::Unsigned,
        ElementId::MaxCll => ElementType::Unsigned,
        ElementId::MaxFall => ElementType::Unsigned,
        ElementId::MasteringMetadata => ElementType::Master,
        ElementId::PrimaryRChromaticityX => ElementType::Float,
        ElementId::PrimaryRChromaticityY => ElementType::Float,
        ElementId::PrimaryGChromaticityX => ElementType::Float,
        ElementId::PrimaryGChromaticityY => ElementType::Float,
        ElementId::PrimaryBChromaticityX => ElementType::Float,
        ElementId::PrimaryBChromaticityY => ElementType::Float,
        ElementId::WhitePointChromaticityX => ElementType::Float,
        ElementId::WhitePointChromaticityY => ElementType::Float,
        ElementId::LuminanceMax => ElementType::Float,
        ElementId::LuminanceMin => ElementType::Float,
        ElementId::Cues => ElementType::Master,
        ElementId::CuePoint => ElementType::Master,
        ElementId::CueTime => ElementType::Unsigned,
        ElementId::CueTrackPositions => ElementType::Master,
        ElementId::CueTrack => ElementType::Unsigned,
        ElementId::CueClusterPosition => ElementType::Unsigned,
        ElementId::CueRelativePosition => ElementType::Unsigned,
        ElementId::CueDuration => ElementType::Unsigned,
        ElementId::CueBlockNumber => ElementType::Unsigned,
        ElementId::Chapters => ElementType::Master,
        ElementId::EditionEntry => ElementType::Master,
        ElementId::ChapterAtom => ElementType::Master,
        ElementId::ChapterUid => ElementType::Unsigned,
        ElementId::ChapterStringUid => ElementType::String,
        ElementId::ChapterTimeStart => ElementType::Unsigned,
        ElementId::ChapterTimeEnd => ElementType::Unsigned,
        ElementId::ChapterDisplay => ElementType::Master,
        ElementId::ChapString => ElementType::String,
        ElementId::ChapLanguage => ElementType::String,
        ElementId::ChapLanguageIetf => ElementType::String,
        ElementId::ChapCountry => ElementType::String,
        ElementId::Tags => ElementType::Master,
        ElementId::Tag => ElementType::Master,
        ElementId::Targets => ElementType::Master,
        ElementId::TargetTypeValue => ElementType::Unsigned,
        ElementId::TargetType => ElementType::String,
        ElementId::TagTrackUid => ElementType::Unsigned,
        ElementId::SimpleTag => ElementType::Master,
        ElementId::TagName => ElementType::String,
        ElementId::TagLanguage => ElementType::String,
        ElementId::TagDefault => ElementType::Unsigned,
        ElementId::TagString => ElementType::String,
        ElementId::TagBinary => ElementType::Binary,
        ElementId::Crc32 => ElementType::Binary,
        _ => ElementType::Unknown,
    }
}

/// Maps an on-wire identifier to its element.
pub fn id_to_element_id(id: u32) -> (r: ElementId)
    ensures
        r == spec_id_to_element_id(id),
{
    match id {
        0x1A45DFA3 => ElementId::Ebml,
        0x4286 => ElementId::EbmlVersion,
        0x42F7 => ElementId::EbmlReadVersion,
        0x42F2 => ElementId::EbmlMaxIdLength,
        0x42F3 => ElementId::EbmlMaxSizeLength,
        0x4282 => ElementId::DocType,
        0x4287 => ElementId::DocTypeVersion,
        0x4285 => ElementId::DocTypeReadVersion,
        0xEC => ElementId::Void,
        0x18538067 => ElementId::Segment,
        0x114D9B74 => ElementId::SeekHead,
        0x4DBB => ElementId::Seek,
        0x53AB => ElementId::SeekId,
        0x53AC => ElementId::SeekPosition,
        0x1549A966 => ElementId::Info,
        0x2AD7B1 => ElementId::TimestampScale,
        0x4489 => ElementId::Duration,
        0x4461 => ElementId::DateUtc,
        0x7BA9 => ElementId::Title,
        0x4D80 => ElementId::MuxingApp,
        0x5741 => ElementId::WritingApp,
        0x1F43B675 => ElementId::Cluster,
        0xE7 => ElementId::Timestamp,
        0xAB => ElementId::PrevSize,
        0xA3 => ElementId::SimpleBlock,
        0xA0 => ElementId::BlockGroup,
        0xA1 => ElementId::Block,
        0x75A1 => ElementId::BlockAdditions,
        0xA6 => ElementId::BlockMore,
        0xEE => ElementId::BlockAddId,
        0xA5 => ElementId::BlockAdditional,
        0x9B => ElementId::BlockDuration,
        0xFB => ElementId::ReferenceBlock,
        0x75A2 => ElementId::DiscardPadding,
        0x1654AE6B => ElementId::Tracks,
        0xAE => ElementId::TrackEntry,
        0xD7 => ElementId::TrackNumber,
        0x73C5 => ElementId::TrackUid,
        0x83 => ElementId::TrackType,
        0xB9 => ElementId::FlagEnabled,
        0x88 => ElementId::FlagDefault,
        0x55AA => ElementId::FlagForced,
        0x55AB => ElementId::FlagHearingImpaired,
        0x55AC => ElementId::FlagVisualImpaired,
        0x55AD => ElementId::FlagTextDescriptions,
        0x55AE => ElementId::FlagOriginal,
        0x55AF => ElementId::FlagCommentary,
        0x9C => ElementId::FlagLacing,
        0x23E383 => ElementId::DefaultDuration,
        0x536E => ElementId::Name,
        0x22B59C => ElementId::Language,
        0x86 => ElementId::CodecId,
        0x63A2 => ElementId::CodecPrivate,
        0x258688 => ElementId::CodecName,
        0x56AA => ElementId::CodecDelay,
        0x56BB => ElementId::SeekPreRoll,
        0xE0 => ElementId::Video,
        0x9A => ElementId::FlagInterlaced,
        0x53B8 => ElementId::StereoMode,
        0x53C0 => ElementId::AlphaMode,
        0xB0 => ElementId::PixelWidth,
        0xBA => ElementId::PixelHeight,
        0x54AA => ElementId::PixelCropBottom,
        0x54BB => ElementId::PixelCropTop,
        0x54CC => ElementId::PixelCropLeft,
        0x54DD => ElementId::PixelCropRight,
        0x54B0 => ElementId::DisplayWidth,
        0x54BA => ElementId::DisplayHeight,
        0x54B2 => ElementId::DisplayUnit,
        0x54B3 => ElementId::AspectRatioType,
        0xE1 => ElementId::Audio,
        0xB5 => ElementId::SamplingFrequency,
        0x78B5 => ElementId::OutputSamplingFrequency,
        0x9F => ElementId::Channels,
        0x6264 => ElementId::BitDepth,
        0x6D80 => ElementId::ContentEncodings,
        0x6240 => ElementId::ContentEncoding,
        0x5031 => ElementId::ContentEncodingOrder,
        0x5032 => ElementId::ContentEncodingScope,
        0x5033 => ElementId::ContentEncodingType,
        0x5035 => ElementId::ContentEncryption,
        0x47E1 => ElementId::ContentEncAlgo,
        0x47E2 => ElementId::ContentEncKeyId,
        0x47E7 => ElementId::ContentEncAesSettings,
        0x47E8 => ElementId::AesSettingsCipherMode,
        0x55B0 => ElementId::Colour,
        0x55B1 => ElementId::MatrixCoefficients,
        0x55B2 => ElementId::BitsPerChannel,
        0x55B3 => ElementId::ChromaSubsamplingHorz,
        0x55B4 => ElementId::ChromaSubsamplingVert,
        0x55B5 => ElementId::CbSubsamplingHorz,
        0x55B6 => ElementId::CbSubsamplingVert,
        0x55B7 => ElementId::ChromaSitingHorz,
        0x55B8 => ElementId::ChromaSitingVert,
        0x55B9 => ElementId::Range,
        0x55BA => ElementId::TransferCharacteristics,
        0x55BB => ElementId::Primaries,
        0x55BC => ElementId::MaxCll,
        0x55BD => ElementId::MaxFall,
        0x55D0 => ElementId::MasteringMetadata,
        0x55D1 => ElementId::PrimaryRChromaticityX,
        0x55D2 => ElementId::PrimaryRChromaticityY,
        0x55D3 => ElementId::PrimaryGChromaticityX,
        0x55D4 => ElementId::PrimaryGChromaticityY,
        0x55D5 => ElementId::PrimaryBChromaticityX,
        0x55D6 => ElementId::PrimaryBChromaticityY,
        0x55D7 => ElementId::WhitePointChromaticityX,
        0x55D8 => ElementId::WhitePointChromaticityY,
        0x55D9 => ElementId::LuminanceMax,
        0x55DA => ElementId::LuminanceMin,
        0x1C53BB6B => ElementId::Cues,
        0xBB => ElementId::CuePoint,
        0xB3 => ElementId::CueTime,
        0xB7 => ElementId::CueTrackPositions,
        0xF7 => ElementId::CueTrack,
        0xF1 => ElementId::CueClusterPosition,
        0xF0 => ElementId::CueRelativePosition,
        0xB2 => ElementId::CueDuration,
        0x5378 => ElementId::CueBlockNumber,
        0x1043A770 => ElementId::Chapters,
        0x45B9 => ElementId::EditionEntry,
        0xB6 => ElementId::ChapterAtom,
        0x73C4 => ElementId::ChapterUid,
        0x5654 => ElementId::ChapterStringUid,
        0x91 => ElementId::ChapterTimeStart,
        0x92 => ElementId::ChapterTimeEnd,
        0x80 => ElementId::ChapterDisplay,
        0x85 => ElementId::ChapString,
        0x437C => ElementId::ChapLanguage,
        0x437D => ElementId::ChapLanguageIetf,
        0x437E => ElementId::ChapCountry,
        0x1254C367 => ElementId::Tags,
        0x7373 => ElementId::Tag,
        0x63C0 => ElementId::Targets,
        0x68CA => ElementId::TargetTypeValue,
        0x63CA => ElementId::TargetType,
        0x63C5 => ElementId::TagTrackUid,
        0x67C8 => ElementId::SimpleTag,
        0x45A3 => ElementId::TagName,
        0x447A => ElementId::TagLanguage,
        0x4484 => ElementId::TagDefault,
        0x4487 => ElementId::TagString,
        0x4485 => ElementId::TagBinary,
        0xBF => ElementId::Crc32,
        _ => ElementId::Unknown,
    }
}

/// The expected payload type of an element.
pub fn element_type_of(id: ElementId) -> (r: ElementType)
    ensures
        r == spec_element_type(id),
{
    match id {
        ElementId::Ebml => ElementType::Master,
        ElementId::EbmlVersion => ElementType::Unsigned,
        ElementId::EbmlReadVersion => ElementType::Unsigned,
        ElementId::EbmlMaxIdLength => ElementType::Unsigned,
        ElementId::EbmlMaxSizeLength => ElementType::Unsigned,
        ElementId::DocType => ElementType::String,
        ElementId::DocTypeVersion => ElementType::Unsigned,
        ElementId::DocTypeReadVersion => ElementType::Unsigned,
        ElementId::Void => ElementType::Binary,
        ElementId::Segment => ElementType::Master,
        ElementId::SeekHead => ElementType::Master,
        ElementId::Seek => ElementType::Master,
        ElementId::SeekId => ElementType::Unsigned,
        ElementId::SeekPosition => ElementType::Unsigned,
        ElementId::Info => ElementType::Master,
        ElementId::TimestampScale => ElementType::Unsigned,
        ElementId::Duration => ElementType::Float,
        ElementId::DateUtc => ElementType::Date,
        ElementId::Title => ElementType::String,
        ElementId::MuxingApp => ElementType::String,
        ElementId::WritingApp => ElementType::String,
        ElementId::Cluster => ElementType::Master,
        ElementId::Timestamp => ElementType::Unsigned,
        ElementId::PrevSize => ElementType::Unsigned,
        ElementId::SimpleBlock => ElementType::Binary,
        ElementId::BlockGroup => ElementType::Master,
        ElementId::Block => ElementType::Binary,
        ElementId::BlockAdditions => ElementType::Master,
        ElementId::BlockMore => ElementType::Master,
        ElementId::BlockAddId => ElementType::Unsigned,
        ElementId::BlockAdditional => ElementType::Binary,
        ElementId::BlockDuration => ElementType::Unsigned,
        ElementId::ReferenceBlock => ElementType::Signed,
        ElementId::DiscardPadding => ElementType::Signed,
        ElementId::Tracks => ElementType::Master,
        ElementId::TrackEntry => ElementType::Master,
        ElementId::TrackNumber => ElementType::Unsigned,
        ElementId::TrackUid => ElementType::Unsigned,
        ElementId::TrackType => ElementType::Unsigned,
        ElementId::FlagEnabled => ElementType::Unsigned,
        ElementId::FlagDefault => ElementType::Unsigned,
        ElementId::FlagForced => ElementType::Unsigned,
        ElementId::FlagHearingImpaired => ElementType::Unsigned,
        ElementId::FlagVisualImpaired => ElementType::Unsigned,
        ElementId::FlagTextDescriptions => ElementType::Unsigned,
        ElementId::FlagOriginal => ElementType::Unsigned,
        ElementId::FlagCommentary => ElementType::Unsigned,
        ElementId::FlagLacing => ElementType::Unsigned,
        ElementId::DefaultDuration => ElementType::Unsigned,
        ElementId::Name => ElementType::String,
        ElementId::Language => ElementType::String,
        ElementId::CodecId => ElementType::String,
        ElementId::CodecPrivate => ElementType::Binary,
        ElementId::CodecName => ElementType::String,
        ElementId::CodecDelay => ElementType::Unsigned,
        ElementId::SeekPreRoll => ElementType::Unsigned,
        ElementId::Video => ElementType::Master,
        ElementId::FlagInterlaced => ElementType::Unsigned,
        ElementId::StereoMode => ElementType::Unsigned,
        ElementId::AlphaMode => ElementType::Unsigned,
        ElementId::PixelWidth => ElementType::Unsigned,
        ElementId::PixelHeight => ElementType::Unsigned,
        ElementId::PixelCropBottom => ElementType::Unsigned,
        ElementId::PixelCropTop => ElementType::Unsigned,
        ElementId::PixelCropLeft => ElementType::Unsigned,
        ElementId::PixelCropRight => ElementType::Unsigned,
        ElementId::DisplayWidth => ElementType::Unsigned,
        ElementId::DisplayHeight => ElementType::Unsigned,
        ElementId::DisplayUnit => ElementType::Unsigned,
        ElementId::AspectRatioType => ElementType::Unsigned,
        ElementId::Audio => ElementType::Master,
        ElementId::SamplingFrequency => ElementType::Float,
        ElementId::OutputSamplingFrequency => ElementType::Float,
        ElementId::Channels => ElementType::Unsigned,
        ElementId::BitDepth => ElementType::Unsigned,
        ElementId::ContentEncodings => ElementType::Master,
        ElementId::ContentEncoding => ElementType::Master,
        ElementId::ContentEncodingOrder => ElementType::Unsigned,
        ElementId::ContentEncodingScope => ElementType::Unsigned,
        ElementId::ContentEncodingType => ElementType::Unsigned,
        ElementId::ContentEncryption => ElementType::Master,
        ElementId::ContentEncAlgo => ElementType::Unsigned,
        ElementId::ContentEncKeyId => ElementType::Unsigned,
        ElementId::ContentEncAesSettings => ElementType::Master,
        ElementId::AesSettingsCipherMode => ElementType::Unsigned,
        ElementId::Colour => ElementType::Master,
        ElementId::MatrixCoefficients => ElementType::Unsigned,
        ElementId::BitsPerChannel => ElementType::Unsigned,
        ElementId::ChromaSubsamplingHorz => ElementType::Unsigned,
        ElementId::ChromaSubsamplingVert => ElementType::Unsigned,
        ElementId::CbSubsamplingHorz => ElementType::Unsigned,
        ElementId::CbSubsamplingVert => ElementType::Unsigned,
        ElementId::ChromaSitingHorz => ElementType::Unsigned,
        ElementId::ChromaSitingVert => ElementType::Unsigned,
        ElementId::Range => ElementType::Unsigned,
        ElementId::TransferCharacteristics => ElementType::Unsigned,
        ElementId::Primaries => ElementType::Unsigned,
        ElementId::MaxCll => ElementType::Unsigned,
        ElementId::MaxFall => ElementType::Unsigned,
        ElementId::MasteringMetadata => ElementType::Master,
        ElementId::PrimaryRChromaticityX => ElementType::Float,
        ElementId::PrimaryRChromaticityY => ElementType::Float,
        ElementId::PrimaryGChromaticityX => ElementType::Float,
        ElementId::PrimaryGChromaticityY => ElementType::Float,
        ElementId::PrimaryBChromaticityX => ElementType::Float,
        ElementId::PrimaryBChromaticityY => ElementType::Float,
        ElementId::WhitePointChromaticityX => ElementType::Float,
        ElementId::WhitePointChromaticityY => ElementType::Float,
        ElementId::LuminanceMax => ElementType::Float,
        ElementId::LuminanceMin => ElementType::Float,
        ElementId::Cues => ElementType::Master,
        ElementId::CuePoint => ElementType::Master,
        ElementId::CueTime => ElementType::Unsigned,
        ElementId::CueTrackPositions => ElementType::Master,
        ElementId::CueTrack => ElementType::Unsigned,
        ElementId::CueClusterPosition => ElementType::Unsigned,
        ElementId::CueRelativePosition => ElementType::Unsigned,
        ElementId::CueDuration => ElementType::Unsigned,
        ElementId::CueBlockNumber => ElementType::Unsigned,
        ElementId::Chapters => ElementType::Master,
        ElementId::EditionEntry => ElementType::Master,
        ElementId::ChapterAtom => ElementType::Master,
        ElementId::ChapterUid => ElementType::Unsigned,
        ElementId::ChapterStringUid => ElementType::String,
        ElementId::ChapterTimeStart => ElementType::Unsigned,
        ElementId::ChapterTimeEnd => ElementType::Unsigned,
        ElementId::ChapterDisplay => ElementType::Master,
        ElementId::ChapString => ElementType::String,
        ElementId::ChapLanguage => ElementType::String,
        ElementId::ChapLanguageIetf => ElementType::String,
        ElementId::ChapCountry => ElementType::String,
        ElementId::Tags => ElementType::Master,
        ElementId::Tag => ElementType::Master,
        ElementId::Targets => ElementType::Master,
        ElementId::TargetTypeValue => ElementType::Unsigned,
        ElementId::TargetType => ElementType::String,
        ElementId::TagTrackUid => ElementType::Unsigned,
        ElementId::SimpleTag => ElementType::Master,
        ElementId::TagName => ElementType::String,
        ElementId::TagLanguage => ElementType::String,
        ElementId::TagDefault => ElementType::Unsigned,
        ElementId::TagString => ElementType::String,
        ElementId::TagBinary => ElementType::Binary,
        ElementId::Crc32 => ElementType::Binary,
        _ => ElementType::Unknown,
    }
}

} // verus!
