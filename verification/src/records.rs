//! The typed records of the fanotify event protocol and their
//! well-formedness.
//!
//! An event is a fixed 24-byte header, optionally followed (inside the
//! length its `event_len` declares) by self-describing extension blocks.
//! The extension blocks this library models are the file-identifier
//! records: a filesystem identifier, an opaque file handle, and — for
//! the named directory-entry kind — a null-terminated entry name.  The
//! response record is the fixed 8-byte structure written back to grant
//! or deny a permission event.

use vstd::prelude::*;

use crate::flags::FANOTIFY_METADATA_VERSION;
use crate::flags::FAN_EVENT_INFO_TYPE_DFID;
use crate::flags::FAN_EVENT_INFO_TYPE_DFID_NAME;
use crate::flags::FAN_EVENT_INFO_TYPE_FID;
use crate::flags::FAN_Q_OVERFLOW;

verus! {

/// The size in bytes of an event header on the wire.
pub const FAN_EVENT_METADATA_LEN: usize = 24;

/// The size in bytes of a response record on the wire.
pub const FAN_WRITE_RESPONSE_LEN: usize = 8;

/// The fixed header each event record starts with.
#[allow(non_camel_case_types)]
#[derive(Clone, Copy, Debug, PartialEq, Eq, Structural)]
pub struct fanotify_event_metadata {
    /// Length in bytes of this event including its extension blocks;
    /// the offset from this record to the next one in the buffer.
    pub event_len: u32,
    /// Structure version; must equal [`FANOTIFY_METADATA_VERSION`].
    pub vers: u8,
    /// Unused.
    pub reserved: u8,
    /// Length of this header; extension blocks start this many bytes
    /// into the event.
    pub metadata_len: u16,
    /// Bit mask describing the event.
    pub mask: u64,
    /// Open descriptor for the object the event concerns, or
    /// [`crate::flags::FAN_NOFD`] after a queue overflow.
    pub fd: i32,
    /// Process (or, if so configured, thread) that caused the event.
    pub pid: i32,
}

/// The header every extension block starts with.
#[allow(non_camel_case_types)]
#[derive(Clone, Copy, Debug, PartialEq, Eq, Structural)]
pub struct fanotify_event_info_header {
    /// Tag identifying the kind of extension.
    pub info_type: u8,
    /// Unused.
    pub pad: u8,
    /// Length in bytes of the whole block, this header included.
    pub len: u16,
}

/// A decoded file-identifier extension block.
#[allow(non_camel_case_types)]
#[derive(Clone, Debug, PartialEq, Eq)]
pub struct fanotify_event_info_fid {
    /// The block's header.
    pub hdr: fanotify_event_info_header,
    /// First word of the filesystem identifier.
    pub fsid0: i32,
    /// Second word of the filesystem identifier.
    pub fsid1: i32,
    /// Type word of the file handle.
    pub handle_type: i32,
    /// The opaque bytes of the file handle.
    pub handle: Vec<u8>,
    /// The directory-entry name, present exactly for the named
    /// directory kind; stored without its null terminator.
    pub name: Option<Vec<u8>>,
}

/// An event together with the file-identifier blocks attached to it.
#[allow(non_camel_case_types)]
#[derive(Clone, Debug, PartialEq, Eq)]
pub struct fanotify_event_with_fid {
    /// The event header.
    pub metadata: fanotify_event_metadata,
    /// The file-identifier blocks carried inside `event_len`.
    pub fids: Vec<fanotify_event_info_fid>,
}

/// The record written back to answer a permission event.
#[allow(non_camel_case_types)]
#[derive(Clone, Copy, Debug, PartialEq, Eq, Structural)]
pub struct fanotify_response {
    /// The descriptor the pending permission event carried.
    pub fd: i32,
    /// [`crate::flags::FAN_ALLOW`] or [`crate::flags::FAN_DENY`],
    /// optionally with [`crate::flags::FAN_AUDIT`] set.
    pub response: u32,
}

/// Mathematical model of a file-identifier block.
pub struct FidInfoView {
    pub info_type: u8,
    pub pad: u8,
    pub len: u16,
    pub fsid0: i32,
    pub fsid1: i32,
    pub handle_type: i32,
    pub handle: Seq<u8>,
    pub name: Option<Seq<u8>>,
}

impl View for fanotify_event_info_fid {
    type V = FidInfoView;

    open spec fn view(&self) -> FidInfoView {
        FidInfoView {
            info_type: self.hdr.info_type,
            pad: self.hdr.pad,
            len: self.hdr.len,
            fsid0: self.fsid0,
            fsid1: self.fsid1,
            handle_type: self.handle_type,
            handle: self.handle@,
            name: match self.name {
                Some(n) => Some(n@),
                None => None,
            },
        }
    }
}

/// Mathematical model of an event with its file-identifier blocks.
pub struct FidEventView {
    pub metadata: fanotify_event_metadata,
    pub fids: Seq<FidInfoView>,
}

impl View for fanotify_event_with_fid {
    type V = FidEventView;

    open spec fn view(&self) -> FidEventView {
        FidEventView { metadata: self.metadata, fids: fids_view(self.fids@) }
    }
}

/// The models of a sequence of file-identifier blocks.
pub open spec fn fids_view(v: Seq<fanotify_event_info_fid>) -> Seq<FidInfoView> {
    v.map_values(|f: fanotify_event_info_fid| f@)
}

/// The models of a sequence of events with their blocks.
pub open spec fn events_view(v: Seq<fanotify_event_with_fid>) -> Seq<FidEventView> {
    v.map_values(|e: fanotify_event_with_fid| e@)
}

/// Whether `t` tags one of the file-identifier extension kinds.
pub open spec fn is_fid_info_type(t: u8) -> bool {
    t == FAN_EVENT_INFO_TYPE_FID || t == FAN_EVENT_INFO_TYPE_DFID_NAME || t
        == FAN_EVENT_INFO_TYPE_DFID
}

/// The bytes a file-identifier block occupies before any padding:
/// 4 header bytes, 8 filesystem-identifier bytes, 8 handle-prefix
/// bytes, the handle itself, and the null-terminated name if present.
pub open spec fn fid_exact_len(f: FidInfoView) -> int {
    20 + f.handle.len() + (match f.name {
        Some(n) => n.len() + 1,
        None => 0,
    }) as int
}

/// A name is storable only if it contains no null byte, since the wire
/// format terminates it with one.
pub open spec fn fid_name_wf(name: Option<Seq<u8>>) -> bool {
    match name {
        Some(n) => forall|i: int| 0 <= i < n.len() ==> n[i] != 0,
        None => true,
    }
}

/// Well-formedness of a file-identifier block: a file-identifier kind,
/// a name exactly for the named directory kind and free of null bytes,
/// and a declared length that covers the payload.
pub open spec fn fid_wf(f: FidInfoView) -> bool {
    &&& is_fid_info_type(f.info_type)
    &&& (f.name is Some <==> f.info_type == FAN_EVENT_INFO_TYPE_DFID_NAME)
    &&& fid_name_wf(f.name)
    &&& fid_exact_len(f) <= f.len
}

/// The bytes a sequence of file-identifier blocks declares in total.
pub open spec fn fids_total_len(fs: Seq<FidInfoView>) -> int
    decreases fs.len(),
{
    if fs.len() == 0 {
        0
    } else {
        fs[0].len + fids_total_len(fs.drop_first())
    }
}

/// Declared block lengths are never negative in total.
pub proof fn lemma_fids_total_len_nonneg(fs: Seq<FidInfoView>)
    ensures
        fids_total_len(fs) >= 0,
    decreases fs.len(),
{
    if fs.len() > 0 {
        lemma_fids_total_len_nonneg(fs.drop_first());
    }
}

/// Appending a block adds its declared length to the total.
pub proof fn lemma_fids_total_len_push(fs: Seq<FidInfoView>, f: FidInfoView)
    ensures
        fids_total_len(fs.push(f)) == fids_total_len(fs) + f.len,
    decreases fs.len(),
{
    reveal_with_fuel(fids_total_len, 3);
    if fs.len() == 0 {
        assert(fs.push(f)[0] == f);
        assert(fs.push(f).drop_first() =~= Seq::<FidInfoView>::empty());
    } else {
        assert(fs.push(f)[0] == fs[0]);
        assert(fs.push(f).drop_first() =~= fs.drop_first().push(f));
        lemma_fids_total_len_push(fs.drop_first(), f);
    }
}

/// Splitting a run of blocks splits the total of declared lengths.
pub proof fn lemma_fids_total_len_concat(a: Seq<FidInfoView>, b: Seq<FidInfoView>)
    ensures
        fids_total_len(a + b) == fids_total_len(a) + fids_total_len(b),
    decreases a.len(),
{
    if a.len() == 0 {
        assert(a + b =~= b);
    } else {
        assert((a + b)[0] == a[0]);
        assert((a + b).drop_first() =~= a.drop_first() + b);
        lemma_fids_total_len_concat(a.drop_first(), b);
    }
}

/// A header the decoder accepts: current version, a header length that
/// covers the fixed header, and a total length that covers the header.
pub open spec fn meta_header_wf(m: fanotify_event_metadata) -> bool {
    &&& m.vers as u32 == FANOTIFY_METADATA_VERSION
    &&& m.metadata_len >= 24
    &&& m.event_len >= m.metadata_len
}

/// A well-formed fixed-size event: the header is the whole record.
pub open spec fn fixed_meta_wf(m: fanotify_event_metadata) -> bool {
    &&& meta_header_wf(m)
    &&& m.metadata_len == 24
    &&& m.event_len == 24
}

/// A well-formed event with file-identifier blocks: a 24-byte header
/// whose declared total length is exactly the header plus its blocks,
/// each block itself well formed.
pub open spec fn fid_event_wf(e: FidEventView) -> bool {
    &&& meta_header_wf(e.metadata)
    &&& e.metadata.metadata_len == 24
    &&& e.metadata.event_len == 24 + fids_total_len(e.fids)
    &&& forall|i: int| 0 <= i < e.fids.len() ==> fid_wf(e.fids[i])
}

impl fanotify_event_metadata {
    /// Whether this record reports a queue overflow; such a record
    /// carries no usable descriptor.
    pub fn is_queue_overflow(&self) -> (r: bool)
        ensures
            r == (self.mask & FAN_Q_OVERFLOW != 0),
    {
        self.mask & FAN_Q_OVERFLOW != 0
    }
}

/// Builds the header of a fixed-size event: current version, header
/// length equal to total length equal to 24 bytes.
pub fn make_event_metadata(mask: u64, fd: i32, pid: i32) -> (m: fanotify_event_metadata)
    ensures
        m.event_len == 24,
        m.vers as u32 == FANOTIFY_METADATA_VERSION,
        m.reserved == 0,
        m.metadata_len == 24,
        m.mask == mask,
        m.fd == fd,
        m.pid == pid,
        fixed_meta_wf(m),
{
    fanotify_event_metadata {
        event_len: 24,
        vers: 3,
        reserved: 0,
        metadata_len: 24,
        mask,
        fd,
        pid,
    }
}

/// The model of an optional byte vector.
pub open spec fn name_view(name: Option<Vec<u8>>) -> Option<Seq<u8>> {
    match name {
        Some(n) => Some(n@),
        None => None,
    }
}

/// A built block's declared length: its payload rounded up to the
/// platform's pointer alignment, which keeps every encoded event's
/// total length a multiple of it.
pub open spec fn fid_padded_len(exact: int) -> int {
    ((exact + 7) / 8) * 8
}

/// Whether these arguments can form a well-formed file-identifier
/// block: a file-identifier kind, a name present exactly for the named
/// directory kind and free of null bytes, and a payload whose padded
/// length fits the 16-bit length field.
pub open spec fn fid_args_ok(info_type: u8, handle: Seq<u8>, name: Option<Seq<u8>>) -> bool {
    &&& is_fid_info_type(info_type)
    &&& (name is Some <==> info_type == FAN_EVENT_INFO_TYPE_DFID_NAME)
    &&& fid_name_wf(name)
    &&& fid_padded_len(
        20 + handle.len() + (match name {
            Some(n) => n.len() + 1,
            None => 0,
        }) as int,
    ) <= u16::MAX
}

/// Builds a well-formed file-identifier block from its parts,
/// computing the declared length; returns nothing exactly when the
/// parts cannot form one.
pub fn make_fid_info(
    info_type: u8,
    fsid0: i32,
    fsid1: i32,
    handle_type: i32,
    handle: Vec<u8>,
    name: Option<Vec<u8>>,
) -> (r: Option<fanotify_event_info_fid>)
    ensures
        r is Some <==> fid_args_ok(info_type, handle@, name_view(name)),
        (match r {
            Some(f) => {
                &&& fid_wf(f@)
                &&& f@.info_type == info_type
                &&& f@.pad == 0
                &&& f@.fsid0 == fsid0
                &&& f@.fsid1 == fsid1
                &&& f@.handle_type == handle_type
                &&& f@.handle == handle@
                &&& f@.name == name_view(name)
                &&& f@.len == fid_padded_len(fid_exact_len(f@))
            },
            None => true,
        }),
{
    if !(info_type == FAN_EVENT_INFO_TYPE_FID || info_type == FAN_EVENT_INFO_TYPE_DFID_NAME
        || info_type == FAN_EVENT_INFO_TYPE_DFID) {
        return None;
    }
    let named = info_type == FAN_EVENT_INFO_TYPE_DFID_NAME;
    let nlen: usize = match &name {
        Some(nm) => {
            if !named {
                return None;
            }
            let mut i: usize = 0;
            while i < nm.len()
                invariant
                    i <= nm@.len(),
                    name_view(name) == Some(nm@),
                    is_fid_info_type(info_type),
                    info_type == FAN_EVENT_INFO_TYPE_DFID_NAME,
                    forall|j: int| 0 <= j < i ==> nm@[j] != 0,
                decreases nm@.len() - i,
            {
                if nm[i] == 0 {
                    proof {
                        assert(nm@[i as int] == 0);
                    }
                    return None;
                }
                i = i + 1;
            }
            if nm.len() > 65535 {
                return None;
            }
            nm.len() + 1
        },
        None => {
            if named {
                return None;
            }
            0
        },
    };
    if handle.len() > 65535 {
        return None;
    }
    let exact: usize = 20 + handle.len() + nlen;
    let padded: usize = ((exact + 7) / 8) * 8;
    assert(exact <= padded <= exact + 7);
    if padded > 65535 {
        return None;
    }
    let hdr = fanotify_event_info_header { info_type, pad: 0, len: padded as u16 };
    Some(fanotify_event_info_fid { hdr, fsid0, fsid1, handle_type, handle, name })
}

/// Builds a well-formed event around a run of well-formed blocks: the
/// current version, a 24-byte header, and a total length that is the
/// header plus the blocks' declared lengths; returns nothing exactly
/// when that total does not fit the 32-bit length field.
pub fn make_event_with_fid(
    mask: u64,
    fd: i32,
    pid: i32,
    fids: Vec<fanotify_event_info_fid>,
) -> (r: Option<fanotify_event_with_fid>)
    requires
        forall|i: int| 0 <= i < fids@.len() ==> fid_wf(#[trigger] fids@[i]@),
    ensures
        r is Some <==> 24 + fids_total_len(fids_view(fids@)) <= u32::MAX,
        (match r {
            Some(e) => {
                &&& fid_event_wf(e@)
                &&& e@.metadata.mask == mask
                &&& e@.metadata.fd == fd
                &&& e@.metadata.pid == pid
                &&& e@.metadata.event_len == 24 + fids_total_len(fids_view(fids@))
                &&& e@.fids == fids_view(fids@)
            },
            None => true,
        }),
{
    let mut total: u64 = 24;
    let mut i: usize = 0;
    while i < fids.len()
        invariant
            i <= fids@.len(),
            forall|k: int| 0 <= k < fids@.len() ==> fid_wf(#[trigger] fids@[k]@),
            total == 24 + fids_total_len(fids_view(fids@).take(i as int)),
            total <= u32::MAX,
        decreases fids@.len() - i,
    {
        let ghost pre = fids_view(fids@).take(i as int);
        total = total + fids[i].hdr.len as u64;
        proof {
            assert(fids_view(fids@).take(i + 1) =~= pre.push(fids@[i as int]@));
            lemma_fids_total_len_push(pre, fids@[i as int]@);
        }
        i = i + 1;
        if total > 0xffff_ffff {
            proof {
                let full = fids_view(fids@);
                assert(full =~= full.take(i as int) + full.skip(i as int));
                lemma_fids_total_len_concat(full.take(i as int), full.skip(i as int));
                lemma_fids_total_len_nonneg(full.skip(i as int));
            }
            return None;
        }
    }
    proof {
        let full = fids_view(fids@);
        assert(full.take(fids@.len() as int) =~= full);
        lemma_fids_total_len_nonneg(full);
        assert forall|k: int| 0 <= k < full.len() implies fid_wf(#[trigger] full[k]) by {
            assert(full[k] == fids@[k]@);
        }
    }
    let metadata = fanotify_event_metadata {
        event_len: total as u32,
        vers: 3,
        reserved: 0,
        metadata_len: 24,
        mask,
        fd,
        pid,
    };
    Some(fanotify_event_with_fid { metadata, fids })
}

} // verus!
