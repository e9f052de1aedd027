//! A demuxer for Matroska and WebM container files.
//!
//! The demuxer owns an in-memory, seekable byte source, parses the
//! EBML-encoded container structure, exposes the container metadata (header,
//! segment info, tracks, chapters, tags), and produces media frames one call
//! at a time. Random-access seek by timestamp is supported.
#![verifier::loop_isolation(false)]

use std::collections::VecDeque;

use vstd::prelude::*;

pub mod block;
pub mod ebml;
pub mod element_id;
pub mod enums;
pub mod error;
pub mod floatbits;
pub mod metadata;
pub mod source;
pub mod vint;

pub use block::LacedFrame;
pub use ebml::ElementData;
pub use element_id::ElementId;
pub use enums::{
    AesSettingsCipherMode, AspectRatioType, ChromaSitingHorz, ChromaSitingVert, ContentEncAlgo,
    ContentEncodingScope, ContentEncodingType, DisplayUnit, FieldOrder, FlagInterlaced,
    FromUnsigned, MatrixCoefficients, Primaries, Range, SimpleTagValue, StereoMode, TrackType,
    TransferCharacteristics,
};
pub use error::DemuxError;
pub use metadata::{
    Audio, ChapterAtom, ChapterDisplay, Colour, ContentEncAesSettings, ContentEncoding,
    ContentEncryption, CuePoint, CueTrackPositions, EbmlHeader, EditionEntry, Info,
    MasteringMetadata, SeekEntry, SimpleTag, Tag, Targets, TrackEntry, Video,
};
pub use source::ByteSource;

use block::{parse_laced_frames, probe_block_timestamp};
use ebml::{
    collect_children, expect_master, next_element, parse_children_at_offset,
    parse_element_header, ParsableElement,
};

verus! {

/// A data frame inside the Matroska container.
#[derive(Debug)]
pub struct Frame {
    /// The track the frame belongs to.
    pub track: u64,
    /// The timestamp of the frame.
    pub timestamp: u64,
    /// The data of the frame.
    pub data: Vec<u8>,
    /// Set when the codec should decode this frame but not display it.
    pub is_invisible: bool,
    /// Whether the block marked this frame as a keyframe; only known for
    /// files that use simple blocks.
    pub is_keyframe: Option<bool>,
    /// Whether the frame can be discarded during playing; only known for
    /// files that use simple blocks.
    pub is_discardable: Option<bool>,
    /// The duration of the frame's block, where its block group carries one.
    pub duration: Option<u64>,
}

impl Default for Frame {
    /// An empty frame: every field zero, empty or unknown.
    fn default() -> (r: Self)
        ensures
            r.track == 0,
            r.timestamp == 0,
            r.data@.len() == 0,
            !r.is_invisible,
            r.is_keyframe is None,
            r.is_discardable is None,
            r.duration is None,
    {
        Frame {
            track: 0,
            timestamp: 0,
            data: Vec::new(),
            is_invisible: false,
            is_keyframe: None,
            is_discardable: None,
            duration: None,
        }
    }
}

/// The seek index: the absolute offset of the first header byte of each
/// top-level element of interest.
struct SeekIndex {
    info: Option<u64>,
    tracks: Option<u64>,
    chapters: Option<u64>,
    cues: Option<u64>,
    tags: Option<u64>,
    cluster: Option<u64>,
}

impl SeekIndex {
    /// An index with no entries.
    fn new() -> (r: Self)
        ensures
            r.spec_get(ElementId::Info) is None,
            r.spec_get(ElementId::Tracks) is None,
            r.spec_get(ElementId::Chapters) is None,
            r.spec_get(ElementId::Cues) is None,
            r.spec_get(ElementId::Tags) is None,
            r.spec_get(ElementId::Cluster) is None,
    {
        SeekIndex {
            info: None,
            tracks: None,
            chapters: None,
            cues: None,
            tags: None,
            cluster: None,
        }
    }

    /// The stored offset of an element of interest.
    pub closed spec fn spec_get(self, id: ElementId) -> Option<u64> {
        match id {
            ElementId::Info => self.info,
            ElementId::Tracks => self.tracks,
            ElementId::Chapters => self.chapters,
            ElementId::Cues => self.cues,
            ElementId::Tags => self.tags,
            ElementId::Cluster => self.cluster,
            _ => None,
        }
    }

    /// Whether the index holds no entry at all.
    spec fn spec_is_empty(self) -> bool {
        &&& self.info is None
        &&& self.tracks is None
        &&& self.chapters is None
        &&& self.cues is None
        &&& self.tags is None
        &&& self.cluster is None
    }

    /// Stores the offset of an element; entries for elements that are not of
    /// interest are dropped.
    fn set(&mut self, id: ElementId, offset: u64)
        ensures
            final(self).spec_get(id) == (if id is Info || id is Tracks || id is Chapters || id
                is Cues || id is Tags || id is Cluster {
                Some(offset)
            } else {
                old(self).spec_get(id)
            }),
            forall|other: ElementId| other != id ==> final(self).spec_get(other) == old(
                self,
            ).spec_get(other),
    {
        match id {
            ElementId::Info => {
                self.info = Some(offset);
            },
            ElementId::Tracks => {
                self.tracks = Some(offset);
            },
            ElementId::Chapters => {
                self.chapters = Some(offset);
            },
            ElementId::Cues => {
                self.cues = Some(offset);
            },
            ElementId::Tags => {
                self.tags = Some(offset);
            },
            ElementId::Cluster => {
                self.cluster = Some(offset);
            },
            _ => {},
        }
    }

    /// The stored offset of an element of interest.
    fn get(&self, id: ElementId) -> (r: Option<u64>)
        ensures
            r == self.spec_get(id),
    {
        match id {
            ElementId::Info => self.info,
            ElementId::Tracks => self.tracks,
            ElementId::Chapters => self.chapters,
            ElementId::Cues => self.cues,
            ElementId::Tags => self.tags,
            ElementId::Cluster => self.cluster,
            _ => None,
        }
    }

    /// Whether the index holds no entry at all.
    fn is_empty(&self) -> (r: bool)
        ensures
            r == self.spec_is_empty(),
    {
        self.info.is_none() && self.tracks.is_none() && self.chapters.is_none()
            && self.cues.is_none() && self.tags.is_none() && self.cluster.is_none()
    }
}

/// Whether the payload of an EBML header master at `(offset, size)` walks
/// and validates: the children can be read, a supported DocType and the
/// required versions are encoded, and the length limits hold.
pub open spec fn ebml_header_wire_ok(data: Seq<u8>, offset: u64, size: u64) -> bool {
    ebml::walk_children(
        data,
        source::clamped_pos(offset as int, data.len() as int),
        ebml::payload_end(offset, size),
    ) matches Some(ps) && {
        let kept = ebml::kept_children(data, ps);
        &&& ebml::wire_string(data, kept, ElementId::DocType) matches Some(sv)
            && metadata::doc_type_supported(sv)
        &&& ebml::wire_unsigned(data, kept, ElementId::DocTypeVersion) is Some
        &&& ebml::wire_unsigned(data, kept, ElementId::DocTypeReadVersion) matches Some(v) && v
            < 4
        &&& (match ebml::wire_unsigned(data, kept, ElementId::EbmlMaxIdLength) {
            Option::Some(v) => v <= 4,
            Option::None => true,
        })
        &&& (match ebml::wire_unsigned(data, kept, ElementId::EbmlMaxSizeLength) {
            Option::Some(v) => v <= 8,
            Option::None => true,
        })
    }
}

/// Whether a bound header holds exactly the values encoded in the payload
/// of the EBML master at `(offset, size)`: every field equals its stored or
/// default value on the wire.
pub open spec fn ebml_header_wire_matches(
    data: Seq<u8>,
    offset: u64,
    size: u64,
    h: EbmlHeader,
) -> bool {
    ebml::walk_children(
        data,
        source::clamped_pos(offset as int, data.len() as int),
        ebml::payload_end(offset, size),
    ) matches Some(ps) && {
        let kept = ebml::kept_children(data, ps);
        &&& h.version == ebml::wire_unsigned(data, kept, ElementId::EbmlVersion)
        &&& h.read_version == ebml::wire_unsigned(data, kept, ElementId::EbmlReadVersion)
        &&& Some(h.max_id_length) == (match ebml::wire_unsigned(
            data,
            kept,
            ElementId::EbmlMaxIdLength,
        ) {
            Option::Some(v) => Some(v),
            Option::None => Some(4u64),
        })
        &&& Some(h.max_size_length) == (match ebml::wire_unsigned(
            data,
            kept,
            ElementId::EbmlMaxSizeLength,
        ) {
            Option::Some(v) => Some(v),
            Option::None => Some(8u64),
        })
        &&& Some(h.doc_type@) == ebml::wire_string(data, kept, ElementId::DocType)
        &&& Some(h.doc_type_version) == ebml::wire_unsigned(data, kept, ElementId::DocTypeVersion)
        &&& Some(h.doc_type_read_version) == ebml::wire_unsigned(
            data,
            kept,
            ElementId::DocTypeReadVersion,
        )
    }
}

/// Parses and validates the EBML header at the front of the stream. It
/// succeeds exactly when an EBML master stands at the cursor and its payload
/// walks and validates; the bound fields then equal the encoded values, with
/// the identifier and size length limits defaulting to 4 and 8.
pub fn parse_ebml_header(r: &mut ByteSource) -> (res: Result<EbmlHeader, DemuxError>)
    ensures
        final(r).bytes() == old(r).bytes(),
        ({
            let data = old(r).bytes();
            let c = old(r).cursor();
            let hdr = ebml::header_ok(data, c) && ebml::header_id(data, c) is Ebml;
            let o = ebml::header_end(data, c) as u64;
            let sz = ebml::header_size(data, c);
            &&& (res is Ok <==> (hdr && ebml_header_wire_ok(data, o, sz)))
            &&& (res matches Ok(h) ==> (crate::metadata::ebml_header_valid_values(h)
                && ebml_header_wire_matches(data, o, sz, h)))
        }),
{
    let ghost data = old(r).bytes();
    let ghost c = old(r).cursor();
    let (master_offset, master_size) = match expect_master(r, ElementId::Ebml, None) {
        Ok(m) => m,
        Err(e) => {
            return Err(e);
        },
    };
    let master_children = match collect_children(r, master_offset, master_size) {
        Ok(c) => c,
        Err(e) => {
            return Err(e);
        },
    };
    proof {
        let ps = ebml::walk_children(
            data,
            source::clamped_pos(master_offset as int, data.len() as int),
            ebml::payload_end(master_offset, master_size),
        ).unwrap();
        let kept = ebml::kept_children(data, ps);
        ebml::lemma_wire_find(data, kept, master_children@, ElementId::EbmlVersion);
        ebml::lemma_wire_find(data, kept, master_children@, ElementId::EbmlReadVersion);
        ebml::lemma_wire_find(data, kept, master_children@, ElementId::EbmlMaxIdLength);
        ebml::lemma_wire_find(data, kept, master_children@, ElementId::EbmlMaxSizeLength);
        ebml::lemma_wire_find(data, kept, master_children@, ElementId::DocType);
        ebml::lemma_wire_find(data, kept, master_children@, ElementId::DocTypeVersion);
        ebml::lemma_wire_find(data, kept, master_children@, ElementId::DocTypeReadVersion);
    }
    EbmlHeader::new(r, &master_children)
}

/// What looking for the seek index at `pos` yields: the payload offset and
/// size of the SeekHead when the first element that is not a CRC-32 is one,
/// no index when it is anything else, and no outcome when an element cannot
/// be read.
pub open spec fn seek_head_scan_spec(data: Seq<u8>, pos: int) -> Option<Option<(u64, u64)>>
    decreases data.len() - pos,
    when 0 <= pos <= data.len()
    via seek_head_scan_spec_dec
{
    if !ebml::header_ok(data, pos) {
        None
    } else {
        let id = ebml::header_id(data, pos);
        let sz = ebml::header_size(data, pos);
        let p = ebml::header_end(data, pos);
        if id is SeekHead {
            Some(Some((p as u64, sz)))
        } else if id is Crc32 {
            if sz == u64::MAX {
                Some(None)
            } else {
                seek_head_scan_spec(data, source::clamped_pos(p + sz, data.len() as int))
            }
        } else {
            Some(None)
        }
    }
}

#[via_fn]
proof fn seek_head_scan_spec_dec(data: Seq<u8>, pos: int) {
    if ebml::header_ok(data, pos) {
        crate::vint::lemma_scan_pos_ge(data, pos);
    }
}

/// Looks for a SeekHead element at the front of the segment, skipping CRC-32
/// elements, and returns the offset and size of its payload when one is
/// there. Any other first element means there is no index.
pub fn search_seek_head(r: &mut ByteSource, segment_data_offset: u64) -> (res: Result<
    Option<(u64, u64)>,
    DemuxError,
>)
    ensures
        final(r).bytes() == old(r).bytes(),
        ({
            let start = source::clamped_pos(
                segment_data_offset as int,
                old(r).bytes().len() as int,
            );
            match res {
                Ok(o) => seek_head_scan_spec(old(r).bytes(), start) == Some(o),
                Err(_) => seek_head_scan_spec(old(r).bytes(), start) is None,
            }
        }),
{
    r.seek_to(segment_data_offset);
    let ghost data = old(r).bytes();
    let ghost start = r.cursor();
    loop
        invariant
            r.bytes() == data,
            0 <= r.cursor() <= data.len(),
            seek_head_scan_spec(data, start) == seek_head_scan_spec(data, r.cursor()),
        decreases data.len() - r.cursor(),
    {
        let ghost pos = r.cursor();
        let (element_id, size) = match parse_element_header(r, None) {
            Ok(h) => h,
            Err(e) => {
                return Err(e);
            },
        };
        match element_id {
            ElementId::SeekHead => {
                let current_pos = r.position();
                return Ok(Some((current_pos, size)));
            },
            ElementId::Crc32 => {
                if size == u64::MAX {
                    return Ok(None);
                }
                let pos_now = r.position();
                r.seek_to(pos_now.saturating_add(size));
                proof {
                    crate::vint::lemma_scan_pos_ge(data, pos);
                }
            },
            _ => {
                return Ok(None);
            },
        }
    }
}

/// Reads the entries of a SeekHead into a seek index; every stored offset is
/// made absolute by adding the segment data offset. Entries that do not bind
/// are skipped.
fn parse_seek_head(
    r: &mut ByteSource,
    segment_data_offset: u64,
    optional_seek_head: Option<(u64, u64)>,
) -> (res: Result<SeekIndex, DemuxError>)
    ensures
        final(r).bytes() == old(r).bytes(),
        optional_seek_head is None ==> (res matches Ok(idx) && idx.spec_is_empty()),
{
    let mut seek_head = SeekIndex::new();
    if let Some((seek_head_data_offset, seek_head_data_size)) = optional_seek_head {
        let seek_head_entries = match collect_children(
            r,
            seek_head_data_offset,
            seek_head_data_size,
        ) {
            Ok(c) => c,
            Err(e) => {
                return Err(e);
            },
        };
        let mut i: usize = 0;
        while i < seek_head_entries.len()
            invariant
                r.bytes() == old(r).bytes(),
            decreases seek_head_entries@.len() - i,
        {
            if seek_head_entries[i].0 == ElementId::Seek {
                if let ElementData::Location { offset, size } = seek_head_entries[i].1 {
                    let seek_fields = match collect_children(r, offset, size) {
                        Ok(c) => c,
                        Err(e) => {
                            return Err(e);
                        },
                    };
                    if let Ok(seek_entry) = SeekEntry::new(r, &seek_fields) {
                        seek_head.set(
                            seek_entry.id,
                            segment_data_offset.saturating_add(seek_entry.offset),
                        );
                    }
                }
            }
            i = i + 1;
        }
    }
    Ok(seek_head)
}

/// Whether the seek index records an element of this kind.
pub open spec fn is_indexed(id: ElementId) -> bool {
    id is Info || id is Tracks || id is Chapters || id is Cues || id is Tags || id is Cluster
}

/// The position of the first element with the given identifier at or after
/// `pos`, walking element by element until the end of the stream or a
/// damaged element; no outcome when the walk fails before finding one.
pub open spec fn first_top_level(data: Seq<u8>, pos: int, id: ElementId) -> Option<int>
    decreases data.len() - pos,
    when 0 <= pos <= data.len()
    via first_top_level_dec
{
    if !ebml::element_well_formed(data, pos) {
        None
    } else if ebml::header_id(data, pos) == id {
        Some(pos)
    } else {
        first_top_level(data, ebml::elem_end(data, pos), id)
    }
}

#[via_fn]
proof fn first_top_level_dec(data: Seq<u8>, pos: int, id: ElementId) {
    if ebml::element_well_formed(data, pos) {
        ebml::lemma_elem_end_advances(data, pos);
    }
}

/// What one index entry holds after the rebuild walk from `pos`: a stored
/// offset is kept, else the first occurrence found by the walk.
pub open spec fn rebuilt_entry(
    stored: Option<u64>,
    data: Seq<u8>,
    pos: int,
    id: ElementId,
) -> Option<u64> {
    if stored is Some {
        stored
    } else {
        match first_top_level(data, pos, id) {
            Option::Some(q) => Some(q as u64),
            Option::None => None,
        }
    }
}

/// Builds a seek index by walking the top-level children of the segment,
/// recording the first offset of each element of interest. The walk ends at
/// the end of the stream or at a damaged element.
fn build_seek_head(r: &mut ByteSource, segment_data_offset: u64, seek_head: &mut SeekIndex) -> (res:
    Result<(), DemuxError>)
    ensures
        final(r).bytes() == old(r).bytes(),
        res is Ok,
        forall|id: ElementId|
            is_indexed(id) ==> #[trigger] final(seek_head).spec_get(id) == rebuilt_entry(
                old(seek_head).spec_get(id),
                old(r).bytes(),
                source::clamped_pos(segment_data_offset as int, old(r).bytes().len() as int),
                id,
            ),
        forall|id: ElementId|
            !is_indexed(id) ==> #[trigger] final(seek_head).spec_get(id) == old(
                seek_head,
            ).spec_get(id),
{
    r.seek_to(segment_data_offset);
    let ghost data = old(r).bytes();
    let ghost start = r.cursor();
    loop
        invariant
            r.bytes() == data,
            0 <= r.cursor() <= data.len(),
            forall|id: ElementId|
                is_indexed(id) ==> #[trigger] rebuilt_entry(
                    old(seek_head).spec_get(id),
                    data,
                    start,
                    id,
                ) == rebuilt_entry(seek_head.spec_get(id), data, r.cursor(), id),
            forall|id: ElementId|
                !is_indexed(id) ==> #[trigger] seek_head.spec_get(id) == old(
                    seek_head,
                ).spec_get(id),
        decreases data.len() - r.cursor(),
    {
        let position = r.position();
        match next_element(r) {
            Ok((element_id, _element_data)) => {
                proof {
                    ebml::lemma_elem_end_advances(data, position as int);
                }
                match element_id {
                    ElementId::Info | ElementId::Tracks | ElementId::Chapters | ElementId::Cues
                        | ElementId::Tags | ElementId::Cluster => {
                        if seek_head.get(element_id).is_none() {
                            seek_head.set(element_id, position);
                        }
                    },
                    _ => {},
                }
                proof {
                    assert forall|id: ElementId| is_indexed(id) implies #[trigger] rebuilt_entry(
                        old(seek_head).spec_get(id),
                        data,
                        start,
                        id,
                    ) == rebuilt_entry(seek_head.spec_get(id), data, r.cursor(), id) by {
                        assert(first_top_level(data, position as int, id) == (
                        if ebml::header_id(data, position as int) == id {
                            Some(position as int)
                        } else {
                            first_top_level(data, r.cursor(), id)
                        }));
                    }
                }
            },
            Err(_) => {
                // End of the stream or a damaged element: stop looking.
                break ;
            },
        }
    }
    Ok(())
}

/// The position of the first Cluster header at or after `pos`: the walk
/// fails at a damaged element, at the end of the stream, or at a master or
/// binary element of unknown size that is not a cluster.
pub open spec fn cluster_scan_spec(data: Seq<u8>, pos: int) -> Option<int>
    decreases data.len() - pos,
    when 0 <= pos <= data.len()
    via cluster_scan_spec_dec
{
    if !ebml::element_well_formed(data, pos) {
        None
    } else if ebml::header_id(data, pos) is Cluster {
        Some(pos)
    } else {
        let ty = element_id::spec_element_type(ebml::header_id(data, pos));
        let is_loc = ty is Master || ty is Binary || ty is Unknown;
        if is_loc && ebml::header_size(data, pos) == u64::MAX {
            None
        } else {
            cluster_scan_spec(data, ebml::elem_end(data, pos))
        }
    }
}

#[via_fn]
proof fn cluster_scan_spec_dec(data: Seq<u8>, pos: int) {
    if ebml::element_well_formed(data, pos) {
        ebml::lemma_elem_end_advances(data, pos);
    }
}

/// Scans forward from the end of the Tracks element until the first Cluster
/// header is found, and records its offset in the seek index. It succeeds
/// exactly when the index knows the Tracks element, a sized Tracks master
/// stands there, and the scan past it reaches a cluster; the found offset is
/// then stored under Cluster and every other entry is kept.
fn find_first_cluster_offset(r: &mut ByteSource, seek_head: &mut SeekIndex) -> (res: Result<
    (),
    DemuxError,
>)
    ensures
        final(r).bytes() == old(r).bytes(),
        ({
            let data = old(r).bytes();
            match old(seek_head).spec_get(ElementId::Tracks) {
                Option::Some(toff) => {
                    let start = source::clamped_pos(toff as int, data.len() as int);
                    let scan_ok = {
                        &&& ebml::header_ok(data, start)
                        &&& ebml::header_id(data, start) is Tracks
                        &&& ebml::header_size(data, start) != u64::MAX
                        &&& cluster_scan_spec(
                            data,
                            source::clamped_pos(
                                ebml::header_end(data, start) + ebml::header_size(data, start),
                                data.len() as int,
                            ),
                        ) is Some
                    };
                    &&& (res is Ok <==> scan_ok)
                    &&& (res is Ok ==> ({
                        &&& (final(seek_head).spec_get(ElementId::Cluster) matches Some(c)
                            && cluster_scan_spec(
                            data,
                            source::clamped_pos(
                                ebml::header_end(data, start) + ebml::header_size(data, start),
                                data.len() as int,
                            ),
                        ) == Some(c as int))
                        &&& (forall|id: ElementId|
                            id != ElementId::Cluster ==> #[trigger] final(seek_head).spec_get(id)
                                == old(seek_head).spec_get(id))
                    }))
                },
                Option::None => res matches Err(e) && e == DemuxError::CantFindCluster,
            }
        }),
{
    let tracks_at = match seek_head.get(ElementId::Tracks) {
        Some(offset) => offset,
        None => {
            return Err(DemuxError::CantFindCluster);
        },
    };
    let (tracks_offset, tracks_size) = match expect_master(r, ElementId::Tracks, Some(tracks_at)) {
        Ok(m) => m,
        Err(e) => {
            return Err(e);
        },
    };
    if tracks_size == u64::MAX {
        return Err(DemuxError::CantFindCluster);
    }
    r.seek_to(tracks_offset.saturating_add(tracks_size));
    let ghost data = old(r).bytes();
    let ghost start = r.cursor();
    loop
        invariant
            r.bytes() == data,
            0 <= r.cursor() <= data.len(),
            seek_head == old(seek_head),
            cluster_scan_spec(data, start) == cluster_scan_spec(data, r.cursor()),
        decreases data.len() - r.cursor(),
    {
        let position = r.position();
        match next_element(r) {
            Ok((element_id, element_data)) => {
                proof {
                    ebml::lemma_elem_end_advances(data, position as int);
                }
                if element_id == ElementId::Cluster {
                    seek_head.set(ElementId::Cluster, position);
                    return Ok(());
                }
                if let ElementData::Location { offset: _, size } = element_data {
                    if size == u64::MAX {
                        // No path left to walk on this level.
                        return Err(DemuxError::CantFindCluster);
                    }
                }
            },
            Err(_) => {
                // End of the stream or a damaged element.
                return Err(DemuxError::CantFindCluster);
            },
        }
    }
}

/// Binds the segment info from its recorded offset.
fn parse_segment_info(r: &mut ByteSource, seek_head: &SeekIndex) -> (res: Result<
    Info,
    DemuxError,
>)
    ensures
        final(r).bytes() == old(r).bytes(),
        res matches Ok(info) ==> info.timestamp_scale != 0,
        res matches Ok(info) ==> ({
            let data = old(r).bytes();
            seek_head.spec_get(ElementId::Info) matches Some(ioff) && ({
                let start = source::clamped_pos(ioff as int, data.len() as int);
                &&& ebml::header_ok(data, start)
                &&& ebml::header_id(data, start) is Info
                &&& ebml::child_binds_to::<Info>(
                    data,
                    ebml::header_end(data, start) as u64,
                    ebml::header_size(data, start),
                    info,
                )
            })
        }),
{
    if let Some(offset) = seek_head.get(ElementId::Info) {
        let (info_data_offset, info_data_size) = match expect_master(
            r,
            ElementId::Info,
            Some(offset),
        ) {
            Ok(m) => m,
            Err(e) => {
                return Err(e);
            },
        };
        let child_fields = match collect_children(r, info_data_offset, info_data_size) {
            Ok(c) => c,
            Err(e) => {
                return Err(e);
            },
        };
        Info::new(r, &child_fields)
    } else {
        Err(DemuxError::ElementNotFound(ElementId::Info))
    }
}

/// Binds every child of one kind under the top-level element recorded in the
/// seek index, when the index holds that element.
fn try_parse_top_element_collection<T: ParsableElement>(
    r: &mut ByteSource,
    seek_head: &SeekIndex,
    master_id: ElementId,
    child_id: ElementId,
) -> (res: Result<Option<Vec<T>>, DemuxError>)
    ensures
        final(r).bytes() == old(r).bytes(),
        res matches Ok(o) ==> (o is Some <==> seek_head.spec_get(master_id) is Some),
        res matches Ok(o) ==> (o matches Some(v) ==> ({
            let data = old(r).bytes();
            seek_head.spec_get(master_id) matches Some(moff) && ({
                let start = source::clamped_pos(moff as int, data.len() as int);
                &&& ebml::header_ok(data, start)
                &&& ebml::header_id(data, start) == master_id
                &&& ebml::master_children_bind_to::<T>(
                    data,
                    ebml::header_end(data, start) as u64,
                    ebml::header_size(data, start),
                    child_id,
                    v@,
                )
            })
        })),
{
    if let Some(offset) = seek_head.get(master_id) {
        match parse_children_at_offset::<T>(r, offset, master_id, child_id) {
            Ok(c) => Ok(Some(c)),
            Err(e) => Err(e),
        }
    } else {
        Ok(None)
    }
}

/// Moves the cursor to the first cluster recorded in the seek index.
fn seek_to_first_cluster(r: &mut ByteSource, seek_head: &SeekIndex) -> (res: Result<
    (),
    DemuxError,
>)
    ensures
        final(r).bytes() == old(r).bytes(),
        res is Ok ==> (seek_head.spec_get(ElementId::Cluster) matches Some(offset)
            && final(r).cursor() == source::clamped_pos(
            offset as int,
            old(r).bytes().len() as int,
        )),
{
    if let Some(offset) = seek_head.get(ElementId::Cluster) {
        r.seek_to(offset);
        Ok(())
    } else {
        Err(DemuxError::ElementNotFound(ElementId::Cluster))
    }
}

/// The walk of the frame cursor from `pos`, with cluster timestamp `cts` and
/// pending group duration `dur`: the first decodable block it reaches, or
/// the end of the stream. The outcome is `(found, position, cts, dur)`:
/// `found` says a block stands at `position` whose frames decode and whose
/// first frame can be read; otherwise the walk ran to the end of the stream.
pub open spec fn frame_walk_spec(data: Seq<u8>, pos: int, cts: u64, dur: Option<u64>) -> Option<
    (bool, int, u64, Option<u64>),
>
    decreases data.len() - pos,
    when 0 <= pos <= data.len()
    via frame_walk_spec_dec
{
    if !ebml::element_well_formed(data, pos) {
        if ebml::element_eof(data, pos) {
            Some((false, data.len() as int, cts, dur))
        } else {
            None
        }
    } else {
        let id = ebml::header_id(data, pos);
        let sz = ebml::header_size(data, pos);
        let p = ebml::header_end(data, pos);
        if id is Cluster {
            frame_walk_spec(data, p, cts, dur)
        } else if id is BlockGroup {
            frame_walk_spec(data, p, cts, None)
        } else if id is Timestamp {
            frame_walk_spec(data, ebml::elem_end(data, pos), ebml::uint_payload(data, p, sz) as u64, dur)
        } else if id is BlockDuration {
            frame_walk_spec(data, ebml::elem_end(data, pos), cts, Some(ebml::uint_payload(data, p, sz) as u64))
        } else if id is SimpleBlock || id is Block {
            if block::laced_frames_ok(data, p, sz) && first_frame_readable(
                data,
                p,
                sz,
                cts,
                id is SimpleBlock,
            ) {
                // A simple block stands outside any block group and carries
                // no group duration.
                Some((true, pos, cts, if id is SimpleBlock { None } else { dur }))
            } else {
                None
            }
        } else {
            frame_walk_spec(data, ebml::elem_end(data, pos), cts, dur)
        }
    }
}

#[via_fn]
proof fn frame_walk_spec_dec(data: Seq<u8>, pos: int, cts: u64, dur: Option<u64>) {
    if ebml::element_well_formed(data, pos) {
        ebml::lemma_elem_end_advances(data, pos);
    }
}

/// Whether the first frame of the block whose payload lies at `p` with size
/// `sz` can be read: its size fits the machine and its data lies inside the
/// stream.
pub open spec fn first_frame_readable(
    data: Seq<u8>,
    p: int,
    sz: u64,
    cts: u64,
    simple: bool,
) -> bool {
    let frames = block::laced_frames_seq(data, p, sz, cts, simple);
    &&& frames.len() > 0
    &&& frames[0].size <= usize::MAX
    &&& block::laced_data_start(data, p) + frames[0].size <= data.len()
}

/// Demuxer for Matroska files.
pub struct MatroskaFile {
    file: ByteSource,
    ebml_header: EbmlHeader,
    seek_head: SeekIndex,
    info: Info,
    tracks: Vec<TrackEntry>,
    cue_points: Option<Vec<CuePoint>>,
    chapters: Option<Vec<EditionEntry>>,
    tags: Option<Vec<Tag>>,
    /// The timestamp of the current cluster.
    cluster_timestamp: u64,
    /// The duration read for the current block group, if any.
    block_duration: Option<u64>,
    /// Queued frames of a block we are currently reading.
    queued_frames: VecDeque<LacedFrame>,
}

impl MatroskaFile {
    /// The bytes of the underlying source; they never change.
    pub closed spec fn source(self) -> Seq<u8> {
        self.file.bytes()
    }

    /// The frames queued from the block being read.
    pub closed spec fn queued(self) -> Seq<LacedFrame> {
        self.queued_frames@
    }

    /// The timestamp of the current cluster.
    pub closed spec fn cluster_ts(self) -> u64 {
        self.cluster_timestamp
    }

    /// The current cursor position in the source.
    pub closed spec fn cursor_pos(self) -> int {
        self.file.cursor()
    }

    /// The cue points of the file, after their positions were made absolute.
    pub closed spec fn cues_view(self) -> Option<Seq<CuePoint>> {
        match self.cue_points {
            Option::Some(points) => Some(points@),
            Option::None => None,
        }
    }

    /// The recorded offset of the first cluster.
    pub closed spec fn cluster_index(self) -> Option<u64> {
        self.seek_head.spec_get(ElementId::Cluster)
    }

    /// The recorded offset of a top-level element of interest.
    pub closed spec fn index_of(self, id: ElementId) -> Option<u64> {
        self.seek_head.spec_get(id)
    }

    /// The block duration read for the current block group, if any.
    pub closed spec fn group_duration(self) -> Option<u64> {
        self.block_duration
    }

    /// The EBML header record of the file.
    pub closed spec fn header_rec(self) -> EbmlHeader {
        self.ebml_header
    }

    /// The segment info record of the file.
    pub closed spec fn info_rec(self) -> Info {
        self.info
    }

    /// The track records of the file.
    pub closed spec fn tracks_seq(self) -> Seq<TrackEntry> {
        self.tracks@
    }

    /// Whether the file carries chapters.
    pub closed spec fn has_chapters(self) -> bool {
        self.chapters is Some
    }

    /// Whether the file carries metadata tags.
    pub closed spec fn has_tags(self) -> bool {
        self.tags is Some
    }

    /// Opens a Matroska file held in the given byte source: reads and
    /// validates the EBML header, enters the segment, discovers or rebuilds
    /// the seek index, binds the segment info and tracks, optionally binds
    /// cues, chapters and tags, and leaves the cursor at the first cluster.
    pub fn open(file: ByteSource) -> (res: Result<Self, DemuxError>)
        ensures
            !(ebml::header_ok(file.bytes(), file.cursor()) && ebml::header_id(
                file.bytes(),
                file.cursor(),
            ) is Ebml && ebml_header_wire_ok(
                file.bytes(),
                ebml::header_end(file.bytes(), file.cursor()) as u64,
                ebml::header_size(file.bytes(), file.cursor()),
            )) ==> res is Err,
            res matches Ok(m) ==> {
                &&& m.source() == file.bytes()
                &&& crate::metadata::ebml_header_valid_values(m.header_rec())
                &&& ebml::header_ok(file.bytes(), file.cursor())
                &&& ebml::header_id(file.bytes(), file.cursor()) is Ebml
                &&& ebml_header_wire_matches(
                    file.bytes(),
                    ebml::header_end(file.bytes(), file.cursor()) as u64,
                    ebml::header_size(file.bytes(), file.cursor()),
                    m.header_rec(),
                )
                &&& m.info_rec().timestamp_scale != 0
                &&& (m.index_of(ElementId::Info) matches Some(ioff) && ({
                    let start = source::clamped_pos(ioff as int, file.bytes().len() as int);
                    &&& ebml::header_ok(file.bytes(), start)
                    &&& ebml::header_id(file.bytes(), start) is Info
                    &&& ebml::child_binds_to::<Info>(
                        file.bytes(),
                        ebml::header_end(file.bytes(), start) as u64,
                        ebml::header_size(file.bytes(), start),
                        m.info_rec(),
                    )
                }))
                &&& m.tracks_seq().len() >= 1
                &&& (m.index_of(ElementId::Tracks) matches Some(toff) && ({
                    let start = source::clamped_pos(toff as int, file.bytes().len() as int);
                    &&& ebml::header_ok(file.bytes(), start)
                    &&& ebml::header_id(file.bytes(), start) is Tracks
                    &&& ebml::master_children_bind_to::<TrackEntry>(
                        file.bytes(),
                        ebml::header_end(file.bytes(), start) as u64,
                        ebml::header_size(file.bytes(), start),
                        ElementId::TrackEntry,
                        m.tracks_seq(),
                    )
                }))
                &&& (m.has_chapters() <==> m.index_of(ElementId::Chapters) is Some)
                &&& (m.has_tags() <==> m.index_of(ElementId::Tags) is Some)
                &&& (m.cues_view() is Some <==> m.index_of(ElementId::Cues) is Some)
                &&& m.cluster_ts() == 0
                &&& m.queued().len() == 0
                &&& m.group_duration() is None
                &&& (m.cluster_index() matches Some(c) && m.cursor_pos() == source::clamped_pos(
                    c as int,
                    file.bytes().len() as int,
                ))
            },
    {
        let mut file = file;
        let ebml_header = match parse_ebml_header(&mut file) {
            Ok(h) => h,
            Err(e) => {
                return Err(e);
            },
        };
        let (segment_data_offset, _segment_size) = match expect_master(
            &mut file,
            ElementId::Segment,
            None,
        ) {
            Ok(m) => m,
            Err(e) => {
                return Err(e);
            },
        };
        let optional_seek_head = match search_seek_head(&mut file, segment_data_offset) {
            Ok(o) => o,
            Err(e) => {
                return Err(e);
            },
        };
        let mut seek_head = match parse_seek_head(&mut file, segment_data_offset, optional_seek_head
        ) {
            Ok(s) => s,
            Err(e) => {
                return Err(e);
            },
        };
        if seek_head.is_empty() {
            match build_seek_head(&mut file, segment_data_offset, &mut seek_head) {
                Ok(_) => (),
                Err(e) => {
                    return Err(e);
                },
            }
        }
        if seek_head.get(ElementId::Cluster).is_none() {
            match find_first_cluster_offset(&mut file, &mut seek_head) {
                Ok(_) => (),
                Err(e) => {
                    return Err(e);
                },
            }
        }
        let info = match parse_segment_info(&mut file, &seek_head) {
            Ok(i) => i,
            Err(e) => {
                return Err(e);
            },
        };
        let tracks = match try_parse_top_element_collection::<TrackEntry>(
            &mut file,
            &seek_head,
            ElementId::Tracks,
            ElementId::TrackEntry,
        ) {
            Ok(Some(t)) => t,
            Ok(None) => {
                return Err(DemuxError::ElementNotFound(ElementId::Tracks));
            },
            Err(e) => {
                return Err(e);
            },
        };
        if tracks.len() == 0 {
            return Err(DemuxError::ElementNotFound(ElementId::TrackEntry));
        }
        let cue_points_raw = match try_parse_top_element_collection::<CuePoint>(
            &mut file,
            &seek_head,
            ElementId::Cues,
            ElementId::CuePoint,
        ) {
            Ok(c) => c,
            Err(e) => {
                return Err(e);
            },
        };
        // Cue cluster positions are stored relative to the segment data;
        // make them absolute.
        let cue_points = match cue_points_raw {
            Some(points) => Some(adjust_cue_points(points, segment_data_offset)),
            None => None,
        };
        let chapters = match try_parse_top_element_collection::<EditionEntry>(
            &mut file,
            &seek_head,
            ElementId::Chapters,
            ElementId::EditionEntry,
        ) {
            Ok(c) => c,
            Err(e) => {
                return Err(e);
            },
        };
        let tags = match try_parse_top_element_collection::<Tag>(
            &mut file,
            &seek_head,
            ElementId::Tags,
            ElementId::Tag,
        ) {
            Ok(t) => t,
            Err(e) => {
                return Err(e);
            },
        };
        match seek_to_first_cluster(&mut file, &seek_head) {
            Ok(_) => (),
            Err(e) => {
                return Err(e);
            },
        }
        Ok(
            MatroskaFile {
                file,
                ebml_header,
                seek_head,
                info,
                tracks,
                cue_points,
                chapters,
                tags,
                cluster_timestamp: 0,
                block_duration: None,
                queued_frames: VecDeque::new(),
            },
        )
    }

    /// The EBML header of the file.
    pub fn ebml_header(&self) -> (r: &EbmlHeader)
        ensures
            *r == self.header_rec(),
    {
        &self.ebml_header
    }

    /// The segment info of the file.
    pub fn info(&self) -> (r: &Info)
        ensures
            *r == self.info_rec(),
    {
        &self.info
    }

    /// The tracks of the file.
    pub fn tracks(&self) -> (r: &Vec<TrackEntry>)
        ensures
            r@ == self.tracks_seq(),
    {
        &self.tracks
    }

    /// The chapters of the file.
    pub fn chapters(&self) -> (r: Option<&Vec<EditionEntry>>)
        ensures
            r is Some <==> self.has_chapters(),
    {
        self.chapters.as_ref()
    }

    /// The metadata tags of the file.
    pub fn tags(&self) -> (r: Option<&Vec<Tag>>)
        ensures
            r is Some <==> self.has_tags(),
    {
        self.tags.as_ref()
    }

    /// Reads the next frame into the given frame buffer. Returns false at
    /// the end of the stream. A queued laced frame is handed out first; when
    /// the queue is empty, the cursor walks clusters and block groups,
    /// keeping the cluster timestamp and block duration current, until a
    /// block yields frames: the produced frame is then the first frame of
    /// that block, with its data bytes, and the block's remaining frames are
    /// queued.
    #[verifier::rlimit(100)]
    pub fn next_frame(&mut self, frame: &mut Frame) -> (res: Result<bool, DemuxError>)
        ensures
            final(self).source() == old(self).source(),
            res is Ok <==> (if old(self).queued().len() > 0 {
                old(self).queued()[0].size <= usize::MAX && old(self).cursor_pos() + old(
                    self,
                ).queued()[0].size <= old(self).source().len()
            } else {
                frame_walk_spec(
                    old(self).source(),
                    old(self).cursor_pos(),
                    old(self).cluster_ts(),
                    old(self).group_duration(),
                ) is Some
            }),
            res matches Ok(true) && old(self).queued().len() > 0 ==> {
                &&& final(self).queued() == old(self).queued().drop_first()
                &&& final(frame).track == old(self).queued()[0].track
                &&& final(frame).timestamp == old(self).queued()[0].timestamp
                &&& final(frame).data@ == old(self).source().subrange(
                    old(self).cursor_pos(),
                    old(self).cursor_pos() + old(self).queued()[0].size,
                )
                &&& final(frame).data@.len() == old(self).queued()[0].size
                &&& final(frame).is_invisible == old(self).queued()[0].is_invisible
                &&& final(frame).is_keyframe == old(self).queued()[0].is_keyframe
                &&& final(frame).is_discardable == old(self).queued()[0].is_discardable
                &&& final(frame).duration == old(self).group_duration()
            },
            old(self).queued().len() == 0 && res is Ok ==> (frame_walk_spec(
                old(self).source(),
                old(self).cursor_pos(),
                old(self).cluster_ts(),
                old(self).group_duration(),
            ) matches Some(w) && ({
                let b = w.1;
                let sz = ebml::header_size(old(self).source(), b);
                let p = ebml::header_end(old(self).source(), b);
                let frames = block::laced_frames_seq(
                    old(self).source(),
                    p,
                    sz,
                    w.2,
                    ebml::header_id(old(self).source(), b) is SimpleBlock,
                );
                let start = block::laced_data_start(old(self).source(), p);
                &&& (res == Ok::<bool, DemuxError>(true) <==> w.0)
                &&& (w.0 ==> ({
                    &&& final(frame).track == frames[0].track
                    &&& final(frame).timestamp == frames[0].timestamp
                    &&& final(frame).data@ == old(self).source().subrange(
                        start,
                        start + frames[0].size,
                    )
                    &&& final(frame).is_invisible == frames[0].is_invisible
                    &&& final(frame).is_keyframe == frames[0].is_keyframe
                    &&& final(frame).is_discardable == frames[0].is_discardable
                    &&& final(frame).duration == w.3
                    &&& final(self).queued() == frames.drop_first()
                    &&& final(self).cluster_ts() == w.2
                }))
                &&& (!w.0 ==> final(self).queued().len() == 0)
            })),
            res matches Ok(false) ==> final(self).queued().len() == 0 && *final(frame) == *old(
                frame,
            ),
    {
        match self.try_pop_frame(frame) {
            Ok(true) => {
                return Ok(true);
            },
            Ok(false) => (),
            Err(e) => {
                return Err(e);
            },
        }
        // Search for the next block.
        let _entry = self.file.position();
        let ghost data = self.file.bytes();
        loop
            invariant
                self.file.bytes() == data,
                data == old(self).source(),
                0 <= self.file.cursor() <= data.len(),
                self.queued_frames@.len() == 0,
                *frame == *old(frame),
                self.cues_view() == old(self).cues_view(),
                self.cluster_index() == old(self).cluster_index(),
                frame_walk_spec(
                    data,
                    old(self).cursor_pos(),
                    old(self).cluster_ts(),
                    old(self).group_duration(),
                ) == frame_walk_spec(
                    data,
                    self.file.cursor(),
                    self.cluster_timestamp,
                    self.block_duration,
                ),
            decreases data.len() - self.file.cursor(),
        {
            let ghost pos = self.file.cursor();
            let ghost cts0 = self.cluster_timestamp;
            let ghost dur0 = self.block_duration;
            proof {
                assert(pos <= data.len());
            }
            match next_element(&mut self.file) {
                Ok((element_id, element_data)) => {
                    proof {
                        ebml::lemma_elem_end_advances(data, pos);
                    }
                    match element_id {
                        // We enter clusters and block groups.
                        ElementId::Cluster | ElementId::BlockGroup => {
                            if element_id == ElementId::BlockGroup {
                                self.block_duration = None;
                            }
                            match self.enter_data_location(&element_data) {
                                Ok(_) => (),
                                Err(e) => {
                                    return Err(e);
                                },
                            }
                            proof {
                                assert(self.file.cursor() > pos);
                                assert(self.file.cursor() == ebml::header_end(data, pos));
                                assert(self.cluster_timestamp == cts0);
                                if element_id == ElementId::BlockGroup {
                                    assert(self.block_duration is None);
                                    assert(frame_walk_spec(data, pos, cts0, dur0)
                                        == frame_walk_spec(
                                        data,
                                        ebml::header_end(data, pos),
                                        cts0,
                                        None,
                                    ));
                                } else {
                                    assert(self.block_duration == dur0);
                                    assert(frame_walk_spec(data, pos, cts0, dur0)
                                        == frame_walk_spec(
                                        data,
                                        ebml::header_end(data, pos),
                                        cts0,
                                        dur0,
                                    ));
                                }
                            }
                        },
                        // Keep the current cluster timestamp up to date.
                        ElementId::Timestamp => {
                            if let ElementData::Unsigned(timestamp) = element_data {
                                self.cluster_timestamp = timestamp;
                                proof {
                                    assert(frame_walk_spec(data, pos, cts0, dur0)
                                        == frame_walk_spec(
                                        data,
                                        self.file.cursor(),
                                        self.cluster_timestamp,
                                        self.block_duration,
                                    ));
                                }
                            } else {
                                return Err(DemuxError::UnexpectedDataType);
                            }
                        },
                        // Remember the block duration of the group.
                        ElementId::BlockDuration => {
                            if let ElementData::Unsigned(d) = element_data {
                                self.block_duration = Some(d);
                            }
                            proof {
                                assert(frame_walk_spec(data, pos, cts0, dur0) == frame_walk_spec(
                                    data,
                                    self.file.cursor(),
                                    self.cluster_timestamp,
                                    self.block_duration,
                                ));
                            }
                        },
                        // Decode the block into the frame queue.
                        ElementId::SimpleBlock | ElementId::Block => {
                            if element_id == ElementId::SimpleBlock {
                                // A simple block stands outside any block
                                // group and carries no group duration.
                                self.block_duration = None;
                            }
                            if let ElementData::Location { offset: header_start, size: block_size
                            } = element_data {
                                let ghost p = ebml::header_end(data, pos);
                                self.file.seek_to(header_start);
                                proof {
                                    assert(header_start as int == p);
                                    assert(self.file.cursor() == p);
                                }
                                match parse_laced_frames(
                                    &mut self.file,
                                    &mut self.queued_frames,
                                    block_size,
                                    self.cluster_timestamp,
                                    header_start,
                                    element_id == ElementId::SimpleBlock,
                                ) {
                                    Ok(_) => (),
                                    Err(e) => {
                                        return Err(e);
                                    },
                                }
                                proof {
                                    block::lemma_laced_first_frame(
                                        data,
                                        p,
                                        block_size,
                                        self.cluster_timestamp,
                                        element_id == ElementId::SimpleBlock,
                                    );
                                }
                                match self.try_pop_frame(frame) {
                                    Ok(_) => (),
                                    Err(e) => {
                                        return Err(e);
                                    },
                                }
                                return Ok(true);
                            } else {
                                return Err(DemuxError::UnexpectedDataType);
                            }
                        },
                        _ => {
                            // Any other element is skipped.
                        },
                    }
                },
                Err(e) => {
                    // The end of the stream means there are no more frames;
                    // any other failure propagates. The cursor is left at
                    // the end.
                    match e {
                        DemuxError::IoError => {
                            self.file.seek_to(u64::MAX);
                            return Ok(false);
                        },
                        _ => {
                            return Err(e);
                        },
                    }
                },
            }
        }
    }

    /// Hands out the frame at the head of the queue, reading its data from
    /// the cursor.
    fn try_pop_frame(&mut self, frame: &mut Frame) -> (res: Result<bool, DemuxError>)
        ensures
            final(self).source() == old(self).source(),
            final(self).cluster_ts() == old(self).cluster_ts(),
            final(self).group_duration() == old(self).group_duration(),
            final(self).cues_view() == old(self).cues_view(),
            final(self).cluster_index() == old(self).cluster_index(),
            res is Err <==> (old(self).queued().len() > 0 && (old(self).queued()[0].size
                > usize::MAX || old(self).cursor_pos() + old(self).queued()[0].size > old(
                self,
            ).source().len())),
            match res {
                Ok(true) => {
                    &&& old(self).queued().len() > 0
                    &&& final(self).queued() == old(self).queued().drop_first()
                    &&& final(frame).track == old(self).queued()[0].track
                    &&& final(frame).timestamp == old(self).queued()[0].timestamp
                    &&& final(frame).data@ == old(self).source().subrange(
                        old(self).cursor_pos(),
                        old(self).cursor_pos() + old(self).queued()[0].size,
                    )
                    &&& final(frame).data@.len() == old(self).queued()[0].size
                    &&& final(frame).is_invisible == old(self).queued()[0].is_invisible
                    &&& final(frame).is_keyframe == old(self).queued()[0].is_keyframe
                    &&& final(frame).is_discardable == old(self).queued()[0].is_discardable
                    &&& final(frame).duration == old(self).group_duration()
                    &&& final(self).cursor_pos() == old(self).cursor_pos() + old(
                        self,
                    ).queued()[0].size
                },
                Ok(false) => old(self).queued().len() == 0 && final(self).queued().len() == 0
                    && *final(frame) == *old(frame) && final(self).cursor_pos() == old(
                    self,
                ).cursor_pos(),
                Err(_) => true,
            },
    {
        let popped = self.queued_frames.pop_front();
        match popped {
            Some(queued_frame) => {
                if queued_frame.size > usize::MAX as u64 {
                    return Err(DemuxError::TryFromIntError);
                }
                let data = match self.file.read_exact(queued_frame.size as usize) {
                    Ok(d) => d,
                    Err(e) => {
                        return Err(e);
                    },
                };
                frame.timestamp = queued_frame.timestamp;
                frame.track = queued_frame.track;
                frame.is_discardable = queued_frame.is_discardable;
                frame.is_invisible = queued_frame.is_invisible;
                frame.is_keyframe = queued_frame.is_keyframe;
                frame.duration = self.block_duration;
                frame.data = data;
                Ok(true)
            },
            None => Ok(false),
        }
    }

    /// Moves the cursor to the payload of a master or binary element.
    fn enter_data_location(&mut self, element_data: &ElementData) -> (res: Result<(), DemuxError>)
        ensures
            final(self).source() == old(self).source(),
            final(self).queued() == old(self).queued(),
            final(self).cluster_ts() == old(self).cluster_ts(),
            final(self).cues_view() == old(self).cues_view(),
            final(self).cluster_index() == old(self).cluster_index(),
            final(self).group_duration() == old(self).group_duration(),
            res is Ok <==> element_data matches ElementData::Location { .. },
            res matches Ok(_) ==> element_data matches ElementData::Location { offset, .. }
                && final(self).file.cursor() == source::clamped_pos(
                offset as int,
                old(self).source().len() as int,
            ),
    {
        if let ElementData::Location { offset, size: _ } = element_data {
            self.file.seek_to(*offset);
            Ok(())
        } else {
            Err(DemuxError::UnexpectedDataType)
        }
    }

    /// Seeks to the given timestamp: the next frame read after this call is
    /// the first one at or after the timestamp, or the end of the stream
    /// when the timestamp lies past the last frame. Cues are used for a fast
    /// broad phase when the file has them; otherwise the clusters are
    /// scanned linearly. The frame queue is always left empty.
    ///
    /// A successful seek leaves the demuxer in a state that depends only on
    /// the source bytes, the cue points, the first-cluster offset and the
    /// target, never on the state before the call: seeking twice to the same
    /// timestamp behaves like seeking once. See `lemma_seek_idempotent`;
    /// `lemma_seek_stop_at_or_after` and `lemma_seek_then_frame_at_or_after`
    /// say where the cursor comes to rest and what the next read produces.
    pub fn seek(&mut self, seek_timestamp: u64) -> (res: Result<(), DemuxError>)
        ensures
            final(self).source() == old(self).source(),
            final(self).queued().len() == 0,
            final(self).group_duration() is None,
            final(self).cues_view() == old(self).cues_view(),
            final(self).cluster_index() == old(self).cluster_index(),
            res is Ok <==> (old(self).cluster_index() matches Some(cs) && seek_spec(
                old(self).source(),
                old(self).cues_view(),
                cs,
                seek_timestamp,
            ) is Some),
            old(self).cluster_index() is None ==> (res matches Err(e) && e
                is CantFindCluster),
            res is Ok ==> (old(self).cluster_index() matches Some(cs) && seek_spec(
                old(self).source(),
                old(self).cues_view(),
                cs,
                seek_timestamp,
            ) matches Some(o) && o.0 == final(self).cursor_pos() && o.1
                == final(self).cluster_ts()),
    {
        self.cluster_timestamp = 0;
        self.block_duration = None;
        self.queued_frames.clear();
        let cluster_start = match self.seek_head.get(ElementId::Cluster) {
            Some(c) => c,
            None => {
                return Err(DemuxError::CantFindCluster);
            },
        };
        let target_offset = match self.seek_broad_phase(seek_timestamp, cluster_start) {
            Ok(t) => t,
            Err(e) => {
                return Err(e);
            },
        };
        self.file.seek_to(target_offset);
        self.seek_narrow_phase(seek_timestamp)
    }

    /// The broad phase of a seek: picks the cluster to scan. With cues, the
    /// last cue point at or before the target gives the position; without
    /// them the clusters are scanned linearly by their timestamps. A cluster
    /// of unknown size ends the scan at the first cluster.
    fn seek_broad_phase(&mut self, seek_timestamp: u64, cluster_start: u64) -> (res: Result<
        u64,
        DemuxError,
    >)
        requires
            old(self).cluster_ts() == 0,
        ensures
            final(self).source() == old(self).source(),
            final(self).queued() == old(self).queued(),
            final(self).cues_view() == old(self).cues_view(),
            final(self).cluster_index() == old(self).cluster_index(),
            final(self).group_duration() == old(self).group_duration(),
            res is Ok <==> broad_spec(
                old(self).source(),
                old(self).cues_view(),
                cluster_start,
                seek_timestamp,
            ) is Some,
            res matches Ok(target) ==> broad_spec(
                old(self).source(),
                old(self).cues_view(),
                cluster_start,
                seek_timestamp,
            ) == Some((target, final(self).cluster_ts())),
    {
        let mut from_cues: Option<u64> = None;
        if let Some(point_at) = self.best_cue_point(seek_timestamp) {
            let cluster_position = point_at.0;
            let relative_position = point_at.1;
            match relative_position {
                Some(rel) => {
                    let got = match self.cluster_offset_and_timestamp(cluster_position) {
                        Ok(g) => g,
                        Err(e) => {
                            return Err(e);
                        },
                    };
                    self.cluster_timestamp = got.1;
                    from_cues = Some(got.0.saturating_add(rel));
                },
                None => {
                    from_cues = Some(cluster_position);
                },
            }
        }
        if let Some(target) = from_cues {
            return Ok(target);
        }
        // Linear search over the clusters.
        let mut last_cluster_offset: u64 = 0;
        let mut current_cluster_offset: u64 = 0;
        let mut next_cluster_offset: u64 = 0;
        self.file.seek_to(cluster_start);
        let _entry = self.file.position();
        let ghost data = self.file.bytes();
        loop
            invariant
                self.file.bytes() == data,
                data == old(self).source(),
                self.queued_frames@ == old(self).queued(),
                self.cluster_timestamp == 0,
                self.cue_points == old(self).cue_points,
                self.block_duration == old(self).group_duration(),
                self.cluster_index() == old(self).cluster_index(),
                0 <= self.file.cursor() <= data.len(),
                linear_broad_spec(
                    data,
                    source::clamped_pos(cluster_start as int, data.len() as int),
                    0,
                    0,
                    0,
                    cluster_start,
                    seek_timestamp,
                ) == linear_broad_spec(
                    data,
                    self.file.cursor(),
                    last_cluster_offset,
                    current_cluster_offset,
                    next_cluster_offset,
                    cluster_start,
                    seek_timestamp,
                ),
            decreases data.len() - self.file.cursor(),
        {
            let ghost pos = self.file.cursor();
            match next_element(&mut self.file) {
                Ok((element_id, element_data)) => {
                    proof {
                        ebml::lemma_elem_end_advances(data, pos);
                    }
                    match element_id {
                        // We enter clusters.
                        ElementId::Cluster => {
                            if let ElementData::Location { offset, size } = element_data {
                                proof {
                                    assert(offset as int == ebml::header_end(data, pos));
                                    assert(size == ebml::header_size(data, pos));
                                }
                                // A live stream has clusters of unknown
                                // size; no broad phase is possible then.
                                if size == u64::MAX {
                                    return Ok(cluster_start);
                                }
                                self.file.seek_to(offset);
                                proof {
                                    assert(self.file.cursor() > pos);
                                    assert(self.file.cursor() == offset as int);
                                }
                                last_cluster_offset = current_cluster_offset;
                                current_cluster_offset = offset;
                                next_cluster_offset = offset.saturating_add(size);
                            } else {
                                return Err(DemuxError::UnexpectedDataType);
                            }
                        },
                        // Compare the cluster timestamp to the target.
                        ElementId::Timestamp => {
                            if let ElementData::Unsigned(timestamp) = element_data {
                                if timestamp < seek_timestamp {
                                    let here = self.file.position();
                                    if next_cluster_offset <= here {
                                        // A malformed cluster boundary;
                                        // scanning on cannot make progress.
                                        return Ok(next_cluster_offset);
                                    }
                                    self.file.seek_to(next_cluster_offset);
                                } else if timestamp > seek_timestamp {
                                    return Ok(last_cluster_offset);
                                } else {
                                    return Ok(current_cluster_offset);
                                }
                            } else {
                                return Err(DemuxError::UnexpectedDataType);
                            }
                        },
                        _ => {
                            // Any other element is skipped.
                        },
                    }
                },
                Err(e) => {
                    // The end of the stream ends the scan.
                    match e {
                        DemuxError::IoError => {
                            return Ok(next_cluster_offset);
                        },
                        _ => {
                            return Err(e);
                        },
                    }
                },
            }
        }
    }

    /// The cluster position and relative position of the last cue point at
    /// or before the target timestamp, when the file has cue points and one
    /// qualifies.
    fn best_cue_point(&self, seek_timestamp: u64) -> (res: Option<(u64, Option<u64>)>)
        ensures
            res == (match self.cues_view() {
                Option::Some(points) => best_cue_spec(points, seek_timestamp),
                Option::None => None::<(u64, Option<u64>)>,
            }),
    {
        match &self.cue_points {
            Some(points) => {
                let mut best: Option<usize> = None;
                let mut i: usize = 0;
                proof {
                    assert(points@.take(0) =~= Seq::<CuePoint>::empty());
                }
                while i < points.len()
                    invariant
                        i <= points@.len(),
                        match best {
                            Option::Some(b) => b < i && cue_at_or_before(
                                points@.take(i as int),
                                seek_timestamp,
                            ) == Some(
                                (
                                    points@[b as int].track_position.cluster_position,
                                    points@[b as int].track_position.relative_position,
                                ),
                            ),
                            Option::None => cue_at_or_before(points@.take(i as int), seek_timestamp)
                                is None,
                        },
                    decreases points@.len() - i,
                {
                    proof {
                        assert(points@.take(i + 1).drop_last() =~= points@.take(i as int));
                        assert(points@.take(i + 1).last() == points@[i as int]);
                    }
                    if points[i].time <= seek_timestamp {
                        best = Some(i);
                    }
                    i = i + 1;
                }
                proof {
                    assert(points@.take(points@.len() as int) =~= points@);
                }
                match best {
                    Some(b) => Some(
                        (
                            points[b].track_position.cluster_position,
                            points[b].track_position.relative_position,
                        ),
                    ),
                    None => {
                        if points.len() > 0 {
                            // No cue time lies at or before the target: the
                            // first cue point is used.
                            Some(
                                (
                                    points[0].track_position.cluster_position,
                                    points[0].track_position.relative_position,
                                ),
                            )
                        } else {
                            None
                        }
                    },
                }
            },
            None => None,
        }
    }

    /// Reads the data offset and timestamp of the cluster whose header lies
    /// at the given position.
    fn cluster_offset_and_timestamp(&mut self, cluster_at: u64) -> (res: Result<
        (u64, u64),
        DemuxError,
    >)
        ensures
            final(self).source() == old(self).source(),
            final(self).queued() == old(self).queued(),
            final(self).cluster_ts() == old(self).cluster_ts(),
            final(self).cues_view() == old(self).cues_view(),
            final(self).cluster_index() == old(self).cluster_index(),
            final(self).group_duration() == old(self).group_duration(),
            res is Ok <==> cluster_ts_spec(old(self).source(), cluster_at) is Some,
            res matches Ok(o) ==> cluster_ts_spec(old(self).source(), cluster_at) == Some(o),
    {
        let (offset, _size) = match expect_master(
            &mut self.file,
            ElementId::Cluster,
            Some(cluster_at),
        ) {
            Ok(m) => m,
            Err(e) => {
                return Err(e);
            },
        };
        let _entry = self.file.position();
        let ghost data = self.file.bytes();
        let ghost walk_start = self.file.cursor();
        loop
            invariant
                self.file.bytes() == data,
                data == old(self).source(),
                self.queued_frames@ == old(self).queued(),
                self.cluster_timestamp == old(self).cluster_ts(),
                self.cue_points == old(self).cue_points,
                self.cluster_index() == old(self).cluster_index(),
                self.block_duration == old(self).group_duration(),
                0 <= self.file.cursor() <= data.len(),
                offset as int == walk_start,
                walk_start == ebml::header_end(
                    data,
                    source::clamped_pos(cluster_at as int, data.len() as int),
                ),
                ebml::header_ok(data, source::clamped_pos(cluster_at as int, data.len() as int)),
                ebml::header_id(
                    data,
                    source::clamped_pos(cluster_at as int, data.len() as int),
                ) is Cluster,
                cluster_walk_spec(data, walk_start) == cluster_walk_spec(data, self.file.cursor()),
            decreases data.len() - self.file.cursor(),
        {
            let ghost pos = self.file.cursor();
            match next_element(&mut self.file) {
                Ok((element_id, element_data)) => {
                    proof {
                        ebml::lemma_elem_end_advances(data, pos);
                    }
                    match element_id {
                        ElementId::Timestamp => {
                            return if let ElementData::Unsigned(timestamp) = element_data {
                                Ok((offset, timestamp))
                            } else {
                                Err(DemuxError::UnexpectedDataType)
                            };
                        },
                        ElementId::Cluster | ElementId::SimpleBlock | ElementId::BlockGroup => {
                            return Err(
                                DemuxError::UnexpectedElement(ElementId::Timestamp, element_id),
                            );
                        },
                        _ => {
                            // Any other element is skipped.
                        },
                    }
                },
                Err(_) => {
                    return Err(DemuxError::ElementNotFound(ElementId::Timestamp));
                },
            }
        }
    }

    /// The narrow phase of a seek: walks elements like the frame cursor, but
    /// probes each block's timestamp without decoding its lacing. The cursor
    /// is left just before the first block at or after the target.
    fn seek_narrow_phase(&mut self, seek_timestamp: u64) -> (res: Result<(), DemuxError>)
        ensures
            final(self).source() == old(self).source(),
            final(self).queued() == old(self).queued(),
            final(self).cues_view() == old(self).cues_view(),
            final(self).cluster_index() == old(self).cluster_index(),
            final(self).group_duration() == old(self).group_duration(),
            res is Ok <==> narrow_spec(
                old(self).source(),
                old(self).cursor_pos(),
                old(self).cluster_ts(),
                seek_timestamp,
            ) is Some,
            res is Ok ==> (narrow_spec(
                old(self).source(),
                old(self).cursor_pos(),
                old(self).cluster_ts(),
                seek_timestamp,
            ) matches Some(o) && o.0 == final(self).cursor_pos() && o.1
                == final(self).cluster_ts()),
    {
        let _entry = self.file.position();
        let ghost data = self.file.bytes();
        loop
            invariant
                self.file.bytes() == data,
                data == old(self).source(),
                self.queued_frames@ == old(self).queued(),
                self.cues_view() == old(self).cues_view(),
                self.cluster_index() == old(self).cluster_index(),
                self.block_duration == old(self).group_duration(),
                0 <= self.file.cursor() <= data.len(),
                narrow_spec(data, old(self).cursor_pos(), old(self).cluster_ts(), seek_timestamp)
                    == narrow_spec(data, self.file.cursor(), self.cluster_timestamp, seek_timestamp),
            decreases data.len() - self.file.cursor(),
        {
            let position = self.file.position();
            let ghost pos = self.file.cursor();
            match next_element(&mut self.file) {
                Ok((element_id, element_data)) => {
                    proof {
                        ebml::lemma_elem_end_advances(data, pos);
                    }
                    match element_id {
                        // We enter clusters and block groups.
                        ElementId::Cluster | ElementId::BlockGroup => {
                            match self.enter_data_location(&element_data) {
                                Ok(_) => (),
                                Err(e) => {
                                    return Err(e);
                                },
                            }
                            proof {
                                assert(self.file.cursor() > pos);
                            }
                        },
                        // Keep the current cluster timestamp up to date.
                        ElementId::Timestamp => {
                            if let ElementData::Unsigned(timestamp) = element_data {
                                self.cluster_timestamp = timestamp;
                            } else {
                                return Err(DemuxError::UnexpectedDataType);
                            }
                        },
                        // Probe the block's timestamp.
                        ElementId::SimpleBlock | ElementId::Block => {
                            if let ElementData::Location { offset, size } = element_data {
                                let ghost p = ebml::header_end(data, pos);
                                self.file.seek_to(offset);
                                proof {
                                    assert(offset as int == p);
                                    assert(size == ebml::header_size(data, pos));
                                    assert(self.file.cursor() == p);
                                }
                                let timestamp = match probe_block_timestamp(
                                    &mut self.file,
                                    self.cluster_timestamp,
                                ) {
                                    Ok(t) => t,
                                    Err(e) => {
                                        return Err(e);
                                    },
                                };
                                proof {
                                    assert(block::probe_ok(data, p));
                                    assert(timestamp == block::block_ts(
                                        self.cluster_timestamp,
                                        ebml::sint_payload(
                                            data,
                                            crate::vint::size_vint_end(data, p),
                                            2,
                                        ),
                                    ));
                                }
                                if timestamp < seek_timestamp {
                                    // Jump past this block.
                                    if size == u64::MAX {
                                        proof {
                                            assert(self.file.cursor() == crate::vint::size_vint_end(
                                                data,
                                                p,
                                            ) + 2);
                                        }
                                        return Ok(());
                                    }
                                    self.file.seek_to(offset.saturating_add(size));
                                    proof {
                                        assert(self.file.cursor() > pos);
                                        assert(self.file.cursor() == ebml::elem_end(data, pos));
                                    }
                                } else {
                                    // The first block at or after the
                                    // target: rewind to just before it.
                                    self.file.seek_to(position);
                                    return Ok(());
                                }
                            } else {
                                return Err(DemuxError::UnexpectedDataType);
                            }
                        },
                        _ => {
                            // Any other element is skipped.
                        },
                    }
                },
                Err(e) => {
                    // The end of the stream ends the scan; the cursor is
                    // left at the end.
                    match e {
                        DemuxError::IoError => {
                            self.file.seek_to(u64::MAX);
                            return Ok(());
                        },
                        _ => {
                            return Err(e);
                        },
                    }
                },
            }
        }
    }
}

/// Saturating unsigned addition, as the positions compute it.
pub open spec fn sat_add(a: u64, b: u64) -> u64 {
    if a + b > u64::MAX {
        u64::MAX
    } else {
        (a + b) as u64
    }
}

/// The last cue point at or before the target, as its cluster position and
/// relative position.
pub open spec fn cue_at_or_before(points: Seq<CuePoint>, t: u64) -> Option<(u64, Option<u64>)>
    decreases points.len(),
{
    if points.len() == 0 {
        None
    } else if points.last().time <= t {
        Some(
            (
                points.last().track_position.cluster_position,
                points.last().track_position.relative_position,
            ),
        )
    } else {
        cue_at_or_before(points.drop_last(), t)
    }
}

/// The cue point the broad phase picks: the last one at or before the
/// target, or the first cue point when every cue time lies past the target.
pub open spec fn best_cue_spec(points: Seq<CuePoint>, t: u64) -> Option<(u64, Option<u64>)> {
    if points.len() == 0 {
        None
    } else {
        match cue_at_or_before(points, t) {
            Option::Some(p) => Some(p),
            Option::None => Some(
                (
                    points[0].track_position.cluster_position,
                    points[0].track_position.relative_position,
                ),
            ),
        }
    }
}

/// The data offset and timestamp of the cluster whose header lies at
/// `cluster_at`, read by walking its children to the first Timestamp; no
/// outcome when the walk fails.
pub open spec fn cluster_ts_spec(data: Seq<u8>, cluster_at: u64) -> Option<(u64, u64)> {
    let start = source::clamped_pos(cluster_at as int, data.len() as int);
    if ebml::header_ok(data, start) && ebml::header_id(data, start) is Cluster {
        match cluster_walk_spec(data, ebml::header_end(data, start)) {
            Option::Some(ts) => Some((ebml::header_end(data, start) as u64, ts)),
            Option::None => None,
        }
    } else {
        None
    }
}

/// The walk behind `cluster_ts_spec`: the value of the first Timestamp child
/// at or after `pos`.
pub open spec fn cluster_walk_spec(data: Seq<u8>, pos: int) -> Option<u64>
    decreases data.len() - pos,
    when 0 <= pos <= data.len()
    via cluster_walk_spec_dec
{
    if !ebml::element_well_formed(data, pos) {
        None
    } else {
        let id = ebml::header_id(data, pos);
        let sz = ebml::header_size(data, pos);
        let p = ebml::header_end(data, pos);
        if id is Timestamp {
            Some(ebml::uint_payload(data, p, sz) as u64)
        } else if id is Cluster || id is SimpleBlock || id is BlockGroup {
            None
        } else {
            cluster_walk_spec(data, ebml::elem_end(data, pos))
        }
    }
}

#[via_fn]
proof fn cluster_walk_spec_dec(data: Seq<u8>, pos: int) {
    if ebml::element_well_formed(data, pos) {
        ebml::lemma_elem_end_advances(data, pos);
    }
}

/// The linear broad-phase scan: walks clusters from `pos`, comparing each
/// cluster timestamp to the target, and yields the offset the narrow phase
/// starts from. The scan state is the previous, current and next cluster
/// offsets.
pub open spec fn linear_broad_spec(
    data: Seq<u8>,
    pos: int,
    last: u64,
    current: u64,
    next: u64,
    cluster_start: u64,
    t: u64,
) -> Option<u64>
    decreases data.len() - pos,
    when 0 <= pos <= data.len()
    via linear_broad_spec_dec
{
    if !ebml::element_well_formed(data, pos) {
        if ebml::element_eof(data, pos) {
            Some(next)
        } else {
            None
        }
    } else {
        let id = ebml::header_id(data, pos);
        let sz = ebml::header_size(data, pos);
        let p = ebml::header_end(data, pos);
        if id is Cluster {
            if sz == u64::MAX {
                Some(cluster_start)
            } else {
                linear_broad_spec(
                    data,
                    p,
                    current,
                    p as u64,
                    sat_add(p as u64, sz),
                    cluster_start,
                    t,
                )
            }
        } else if id is Timestamp {
            let ts = ebml::uint_payload(data, p, sz) as u64;
            if ts < t {
                if next <= ebml::elem_end(data, pos) {
                    Some(next)
                } else {
                    linear_broad_spec(
                        data,
                        source::clamped_pos(next as int, data.len() as int),
                        last,
                        current,
                        next,
                        cluster_start,
                        t,
                    )
                }
            } else if ts > t {
                Some(last)
            } else {
                Some(current)
            }
        } else {
            linear_broad_spec(data, ebml::elem_end(data, pos), last, current, next, cluster_start, t)
        }
    }
}

#[via_fn]
proof fn linear_broad_spec_dec(
    data: Seq<u8>,
    pos: int,
    last: u64,
    current: u64,
    next: u64,
    cluster_start: u64,
    t: u64,
) {
    if ebml::element_well_formed(data, pos) {
        ebml::lemma_elem_end_advances(data, pos);
    }
}

/// Meeting a cluster of unknown size at any point of the linear scan makes
/// the broad phase fall back to the first-cluster offset it was given.
pub proof fn lemma_linear_broad_unknown_size(
    data: Seq<u8>,
    pos: int,
    last: u64,
    current: u64,
    next: u64,
    cluster_start: u64,
    t: u64,
)
    requires
        0 <= pos <= data.len(),
        ebml::element_well_formed(data, pos),
        ebml::header_id(data, pos) is Cluster,
        ebml::header_size(data, pos) == u64::MAX,
    ensures
        linear_broad_spec(data, pos, last, current, next, cluster_start, t) == Some(
            cluster_start,
        ),
{
}

/// The broad phase of a seek: the offset the narrow phase starts from and
/// the cluster timestamp it starts with, from the cue points when one
/// qualifies, else from the linear scan.
pub open spec fn broad_spec(
    data: Seq<u8>,
    cues: Option<Seq<CuePoint>>,
    cluster_start: u64,
    t: u64,
) -> Option<(u64, u64)> {
    let from_cues = match cues {
        Option::Some(points) => best_cue_spec(points, t),
        Option::None => None,
    };
    match from_cues {
        Option::Some(point) => match point.1 {
            Option::Some(rel) => match cluster_ts_spec(data, point.0) {
                Option::Some(got) => Some((sat_add(got.0, rel), got.1)),
                Option::None => None,
            },
            Option::None => Some((point.0, 0)),
        },
        Option::None => match linear_broad_spec(
            data,
            source::clamped_pos(cluster_start as int, data.len() as int),
            0,
            0,
            0,
            cluster_start,
            t,
        ) {
            Option::Some(target) => Some((target, 0)),
            Option::None => None,
        },
    }
}

/// The narrow phase of a seek: walks elements from `pos` with cluster
/// timestamp `cts`, probing each block, and yields the final cursor position,
/// the final cluster timestamp, and whether the scan stopped on a block at or
/// after the target. When it did not, the scan ran to the end of the stream,
/// or met a block of unknown size.
pub open spec fn narrow_spec(data: Seq<u8>, pos: int, cts: u64, t: u64) -> Option<(int, u64, bool)>
    decreases data.len() - pos,
    when 0 <= pos <= data.len()
    via narrow_spec_dec
{
    if !ebml::element_well_formed(data, pos) {
        if ebml::element_eof(data, pos) {
            Some((data.len() as int, cts, false))
        } else {
            None
        }
    } else {
        let id = ebml::header_id(data, pos);
        let sz = ebml::header_size(data, pos);
        let p = ebml::header_end(data, pos);
        if id is Cluster || id is BlockGroup {
            narrow_spec(data, p, cts, t)
        } else if id is Timestamp {
            narrow_spec(data, ebml::elem_end(data, pos), ebml::uint_payload(data, p, sz) as u64, t)
        } else if id is SimpleBlock || id is Block {
            if !block::probe_ok(data, p) {
                None
            } else {
                let ts = block::block_ts(
                    cts,
                    ebml::sint_payload(data, crate::vint::size_vint_end(data, p), 2),
                );
                if ts < t {
                    if sz == u64::MAX {
                        Some((crate::vint::size_vint_end(data, p) + 2, cts, false))
                    } else {
                        narrow_spec(data, ebml::elem_end(data, pos), cts, t)
                    }
                } else {
                    Some((pos, cts, true))
                }
            }
        } else {
            narrow_spec(data, ebml::elem_end(data, pos), cts, t)
        }
    }
}

/// The probed timestamp of the block element at `pos`, under cluster
/// timestamp `cts`.
pub open spec fn stopped_block_ts(data: Seq<u8>, pos: int, cts: u64) -> u64 {
    block::block_ts(
        cts,
        ebml::sint_payload(
            data,
            crate::vint::size_vint_end(data, ebml::header_end(data, pos)),
            2,
        ),
    )
}

/// When the narrow phase reports that it stopped on a block, that block's
/// probed timestamp under the final cluster timestamp is at or after the
/// target; together with the end-of-stream outcome this is the seek
/// guarantee: the first block the cursor rests on is at or after the target,
/// or the stream ends first.
pub proof fn lemma_narrow_stop_at_or_after(data: Seq<u8>, pos: int, cts: u64, t: u64)
    requires
        0 <= pos <= data.len(),
        narrow_spec(data, pos, cts, t) matches Some(o) && o.2,
    ensures
        narrow_spec(data, pos, cts, t) matches Some(o) && {
            &&& ebml::element_well_formed(data, o.0)
            &&& (ebml::header_id(data, o.0) is SimpleBlock || ebml::header_id(data, o.0) is Block)
            &&& stopped_block_ts(data, o.0, o.1) >= t
        },
    decreases data.len() - pos,
{
    if ebml::element_well_formed(data, pos) {
        ebml::lemma_elem_end_advances(data, pos);
        let id = ebml::header_id(data, pos);
        let sz = ebml::header_size(data, pos);
        let p = ebml::header_end(data, pos);
        if id is Cluster || id is BlockGroup {
            lemma_narrow_stop_at_or_after(data, p, cts, t);
        } else if id is Timestamp {
            lemma_narrow_stop_at_or_after(
                data,
                ebml::elem_end(data, pos),
                ebml::uint_payload(data, p, sz) as u64,
                t,
            );
        } else if id is SimpleBlock || id is Block {
            let ts = block::block_ts(
                cts,
                ebml::sint_payload(data, crate::vint::size_vint_end(data, p), 2),
            );
            if ts < t && sz != u64::MAX {
                lemma_narrow_stop_at_or_after(data, ebml::elem_end(data, pos), cts, t);
            }
        } else {
            lemma_narrow_stop_at_or_after(data, ebml::elem_end(data, pos), cts, t);
        }
    }
}

/// The seek guarantee at the whole-seek level: when a successful seek
/// reports that it stopped on a block, that block's probed timestamp is at
/// or after the target.
pub proof fn lemma_seek_stop_at_or_after(
    data: Seq<u8>,
    cues: Option<Seq<CuePoint>>,
    cluster_start: u64,
    t: u64,
)
    requires
        seek_spec(data, cues, cluster_start, t) matches Some(o) && o.2,
    ensures
        seek_spec(data, cues, cluster_start, t) matches Some(o) && {
            &&& ebml::element_well_formed(data, o.0)
            &&& (ebml::header_id(data, o.0) is SimpleBlock || ebml::header_id(data, o.0) is Block)
            &&& stopped_block_ts(data, o.0, o.1) >= t
        },
{
    let b = broad_spec(data, cues, cluster_start, t);
    match b {
        Option::Some(bb) => {
            lemma_narrow_stop_at_or_after(
                data,
                source::clamped_pos(bb.0 as int, data.len() as int),
                bb.1,
                t,
            );
        },
        Option::None => {},
    }
}

#[via_fn]
proof fn narrow_spec_dec(data: Seq<u8>, pos: int, cts: u64, t: u64) {
    if ebml::element_well_formed(data, pos) {
        ebml::lemma_elem_end_advances(data, pos);
    }
}

/// The whole seek: the cursor position and cluster timestamp a successful
/// seek leaves behind. They depend only on the source bytes, the cue points,
/// the first-cluster offset and the target.
pub open spec fn seek_spec(
    data: Seq<u8>,
    cues: Option<Seq<CuePoint>>,
    cluster_start: u64,
    t: u64,
) -> Option<(int, u64, bool)> {
    match broad_spec(data, cues, cluster_start, t) {
        Option::Some(b) => narrow_spec(
            data,
            source::clamped_pos(b.0 as int, data.len() as int),
            b.1,
            t,
        ),
        Option::None => None,
    }
}

/// Seeking is idempotent: two demuxers over the same source, with the same
/// cue points and the same first-cluster offset, that both complete a seek to
/// the same target end at the same cursor position with the same cluster
/// timestamp — and, by the contract of `seek`, with an empty frame queue.
pub proof fn lemma_seek_idempotent(
    data: Seq<u8>,
    cues: Option<Seq<CuePoint>>,
    cluster_start: u64,
    t: u64,
    s1: (int, u64, bool),
    s2: (int, u64, bool),
)
    requires
        seek_spec(data, cues, cluster_start, t) == Some(s1),
        seek_spec(data, cues, cluster_start, t) == Some(s2),
    ensures
        s1 == s2,
{
}

/// The seek guarantee carried through to the produced frame: after a
/// successful seek that stopped on a block, the frame walk of the next read
/// finds exactly that block, and the frame it produces carries a timestamp
/// at or after the target.
pub proof fn lemma_seek_then_frame_at_or_after(
    data: Seq<u8>,
    cues: Option<Seq<CuePoint>>,
    cluster_start: u64,
    t: u64,
    dur: Option<u64>,
)
    requires
        seek_spec(data, cues, cluster_start, t) matches Some(o) && o.2,
    ensures
        seek_spec(data, cues, cluster_start, t) matches Some(o) && (frame_walk_spec(
            data,
            o.0,
            o.1,
            dur,
        ) matches Some(w) ==> ({
            let p = ebml::header_end(data, w.1);
            let sz = ebml::header_size(data, w.1);
            &&& w.0
            &&& w.1 == o.0
            &&& w.2 == o.1
            &&& block::laced_frames_seq(
                data,
                p,
                sz,
                w.2,
                ebml::header_id(data, w.1) is SimpleBlock,
            )[0].timestamp >= t
        })),
{
    lemma_seek_stop_at_or_after(data, cues, cluster_start, t);
    let o = seek_spec(data, cues, cluster_start, t).unwrap();
    let p = ebml::header_end(data, o.0);
    let sz = ebml::header_size(data, o.0);
    let simple = ebml::header_id(data, o.0) is SimpleBlock;
    if frame_walk_spec(data, o.0, o.1, dur) is Some {
        block::lemma_laced_first_frame(data, p, sz, o.1, simple);
    }
}

/// Makes the cluster positions of the cue points absolute by adding the
/// segment data offset; the points keep their order.
fn adjust_cue_points(points: Vec<CuePoint>, segment_data_offset: u64) -> (res: Vec<CuePoint>)
    ensures
        res@.len() == points@.len(),
        forall|i: int|
            0 <= i < points@.len() ==> (#[trigger] res@[i]).time == points@[i].time
                && res@[i].track_position.cluster_position
                == points@[i].track_position.cluster_position as int
                + segment_data_offset as int || res@[i].track_position.cluster_position
                == u64::MAX,
{
    let mut rest = points;
    let mut done: Vec<CuePoint> = Vec::new();
    let ghost original = rest@;
    while rest.len() > 0
        invariant
            done@.len() + rest@.len() == original.len(),
            forall|i: int| 0 <= i < rest@.len() ==> rest@[i] == original[done@.len() + i],
            forall|i: int|
                0 <= i < done@.len() ==> (#[trigger] done@[i]).time == original[i].time
                    && (done@[i].track_position.cluster_position
                    == original[i].track_position.cluster_position as int
                    + segment_data_offset as int || done@[i].track_position.cluster_position
                    == u64::MAX),
        decreases rest@.len(),
    {
        let p = rest.remove(0);
        let tp = p.track_position;
        done.push(
            CuePoint {
                time: p.time,
                track_position: CueTrackPositions {
                    track: tp.track,
                    cluster_position: tp.cluster_position.saturating_add(segment_data_offset),
                    relative_position: tp.relative_position,
                    duration: tp.duration,
                    block_number: tp.block_number,
                },
            },
        );
    }
    done
}

} // verus!
