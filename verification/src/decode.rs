//! The event-buffer decoder.
//!
//! The decoder walks the buffer from offset zero.  Each step reads a
//! 24-byte header, checks the version tag and the length fields, and
//! advances by the record's declared total length; the bytes between
//! the header and that length are the record's extension blocks.  The
//! spec functions here define the decoding mathematically; the
//! executable functions are proved to return exactly what the spec
//! functions say, for every buffer.
//!
//! A buffer tail shorter than one header is silently dropped, a record
//! that declares more bytes than the buffer holds is a fatal error, and
//! a version mismatch is a fatal error whatever the length fields say.

use vstd::prelude::*;

use crate::errors::DecodeError;
use crate::errors::FanotifyError;
use crate::errors::ReadError;
use crate::flags::EAGAIN;
use crate::flags::FANOTIFY_METADATA_VERSION;
use crate::flags::FAN_EVENT_INFO_TYPE_DFID;
use crate::flags::FAN_EVENT_INFO_TYPE_DFID_NAME;
use crate::flags::FAN_EVENT_INFO_TYPE_FID;
use crate::records::fanotify_event_info_fid;
use crate::records::fanotify_event_info_header;
use crate::records::fanotify_event_metadata;
use crate::records::fanotify_event_with_fid;
use crate::records::fids_view;
use crate::records::events_view;
use crate::records::is_fid_info_type;
use crate::records::FidEventView;
use crate::records::FidInfoView;
use crate::wire::le16;
use crate::wire::le32;
use crate::wire::le64;
use crate::wire::read_u16;
use crate::wire::read_u32;
use crate::wire::read_u64;

verus! {

/// The event header stored at byte offset `off` of `s`.
pub open spec fn parse_meta(s: Seq<u8>, off: int) -> fanotify_event_metadata
    recommends
        0 <= off,
        off + 24 <= s.len(),
{
    fanotify_event_metadata {
        event_len: le32(s, off),
        vers: s[off + 4],
        reserved: s[off + 5],
        metadata_len: le16(s, off + 6),
        mask: le64(s, off + 8),
        fd: le32(s, off + 16) as i32,
        pid: le32(s, off + 20) as i32,
    }
}

/// The index of the first null byte of `s` in `[from, to)`, or `to`
/// when there is none.
pub open spec fn first_nul(s: Seq<u8>, from: int, to: int) -> int
    recommends
        0 <= from,
        to <= s.len(),
    decreases to - from,
{
    if from >= to {
        to
    } else if s[from] == 0 {
        from
    } else {
        first_nul(s, from + 1, to)
    }
}

/// The first null byte of `[from, to)` sits at `k` when `s[k]` is null
/// and everything before it is not.
pub proof fn lemma_first_nul_at(s: Seq<u8>, from: int, to: int, k: int)
    requires
        0 <= from <= k < to <= s.len(),
        s[k] == 0,
        forall|j: int| from <= j < k ==> s[j] != 0,
    ensures
        first_nul(s, from, to) == k,
    decreases k - from,
{
    if from < k {
        lemma_first_nul_at(s, from + 1, to, k);
    }
}

/// The file-identifier block stored at offset `off`, whose declared
/// length is `le16(s, off + 2)`.  The handle region carries its own
/// length and type words before the opaque handle bytes; for the named
/// directory kind a null-terminated name follows the handle.
pub open spec fn parse_fid(s: Seq<u8>, off: int) -> Result<FidInfoView, DecodeError>
    recommends
        0 <= off,
        off + 4 <= s.len(),
        off + le16(s, off + 2) <= s.len(),
{
    let elen = le16(s, off + 2) as int;
    if elen < 20 {
        Err(DecodeError::BadExtension)
    } else {
        let hb = le32(s, off + 12) as int;
        if 20 + hb > elen {
            Err(DecodeError::BadExtension)
        } else {
            let info_type = s[off];
            if info_type == FAN_EVENT_INFO_TYPE_DFID_NAME {
                let nstart = off + 20 + hb;
                let nend = first_nul(s, nstart, off + elen);
                if nend == off + elen {
                    Err(DecodeError::BadExtension)
                } else {
                    Ok(
                        FidInfoView {
                            info_type,
                            pad: s[off + 1],
                            len: le16(s, off + 2),
                            fsid0: le32(s, off + 4) as i32,
                            fsid1: le32(s, off + 8) as i32,
                            handle_type: le32(s, off + 16) as i32,
                            handle: s.subrange(off + 20, off + 20 + hb),
                            name: Some(s.subrange(nstart, nend)),
                        },
                    )
                }
            } else {
                Ok(
                    FidInfoView {
                        info_type,
                        pad: s[off + 1],
                        len: le16(s, off + 2),
                        fsid0: le32(s, off + 4) as i32,
                        fsid1: le32(s, off + 8) as i32,
                        handle_type: le32(s, off + 16) as i32,
                        handle: s.subrange(off + 20, off + 20 + hb),
                        name: None,
                    },
                )
            }
        }
    }
}

/// The file-identifier blocks stored in `[off, end)`: a walk over
/// self-describing blocks that never overruns `end`.  Blocks of other
/// kinds are stepped over; a block that is too short, overruns `end`,
/// or is a malformed file-identifier block is a fatal error.
pub open spec fn decode_exts_from(s: Seq<u8>, off: int, end: int) -> Result<
    Seq<FidInfoView>,
    DecodeError,
>
    recommends
        0 <= off,
        end <= s.len(),
    decreases end - off,
{
    if off >= end {
        Ok(Seq::empty())
    } else if off + 4 > end {
        Err(DecodeError::BadExtension)
    } else {
        let elen = le16(s, off + 2) as int;
        if elen < 4 || off + elen > end {
            Err(DecodeError::BadExtension)
        } else if is_fid_info_type(s[off]) {
            match parse_fid(s, off) {
                Ok(f) => match decode_exts_from(s, off + elen, end) {
                    Ok(fs) => Ok(seq![f] + fs),
                    Err(e) => Err(e),
                },
                Err(e) => Err(e),
            }
        } else {
            decode_exts_from(s, off + elen, end)
        }
    }
}

/// The event headers stored from offset `off` to the end of `s`,
/// walking by each record's declared total length and leaving the
/// extension bytes uninterpreted.
pub open spec fn decode_meta_from(s: Seq<u8>, off: int) -> Result<
    Seq<fanotify_event_metadata>,
    DecodeError,
>
    recommends
        0 <= off <= s.len(),
    decreases s.len() - off,
{
    if off + 24 > s.len() {
        Ok(Seq::empty())
    } else {
        let m = parse_meta(s, off);
        if m.vers as u32 != FANOTIFY_METADATA_VERSION {
            Err(DecodeError::BadVersion)
        } else if !(m.metadata_len >= 24 && m.event_len >= m.metadata_len) {
            Err(DecodeError::BadHeader)
        } else if off + m.event_len as int > s.len() {
            Err(DecodeError::Truncated)
        } else {
            match decode_meta_from(s, off + m.event_len as int) {
                Ok(rest) => Ok(seq![m] + rest),
                Err(e) => Err(e),
            }
        }
    }
}

/// The events with their file-identifier blocks stored from offset
/// `off` to the end of `s`: the same walk as [`decode_meta_from`], with
/// the bytes between each header and its declared total length decoded
/// as extension blocks.
pub open spec fn decode_fid_from(s: Seq<u8>, off: int) -> Result<Seq<FidEventView>, DecodeError>
    recommends
        0 <= off <= s.len(),
    decreases s.len() - off,
{
    if off + 24 > s.len() {
        Ok(Seq::empty())
    } else {
        let m = parse_meta(s, off);
        if m.vers as u32 != FANOTIFY_METADATA_VERSION {
            Err(DecodeError::BadVersion)
        } else if !(m.metadata_len >= 24 && m.event_len >= m.metadata_len) {
            Err(DecodeError::BadHeader)
        } else if off + m.event_len as int > s.len() {
            Err(DecodeError::Truncated)
        } else {
            match decode_exts_from(s, off + m.metadata_len as int, off + m.event_len as int) {
                Ok(fids) => match decode_fid_from(s, off + m.event_len as int) {
                    Ok(rest) => Ok(seq![FidEventView { metadata: m, fids }] + rest),
                    Err(e) => Err(e),
                },
                Err(e) => Err(e),
            }
        }
    }
}

/// Copies the bytes of `buf` in `[from, to)` into a fresh vector.
fn copy_range(buf: &[u8], from: usize, to: usize) -> (r: Vec<u8>)
    requires
        from <= to,
        to <= buf@.len(),
    ensures
        r@ == buf@.subrange(from as int, to as int),
{
    let mut r: Vec<u8> = Vec::new();
    let mut i: usize = from;
    while i < to
        invariant
            from <= i <= to,
            to <= buf@.len(),
            r@ == buf@.subrange(from as int, i as int),
        decreases to - i,
    {
        r.push(buf[i]);
        i = i + 1;
        assert(r@ =~= buf@.subrange(from as int, i as int));
    }
    r
}

/// Finds the first null byte of `buf` in `[from, to)`, returning `to`
/// when there is none.
fn find_nul(buf: &[u8], from: usize, to: usize) -> (r: usize)
    requires
        from <= to,
        to <= buf@.len(),
    ensures
        r == first_nul(buf@, from as int, to as int),
        from <= r <= to,
{
    let mut i: usize = from;
    while i < to
        invariant
            from <= i <= to,
            to <= buf@.len(),
            first_nul(buf@, from as int, to as int) == first_nul(buf@, i as int, to as int),
        decreases to - i,
    {
        if buf[i] == 0 {
            return i;
        }
        i = i + 1;
    }
    i
}

/// Reads the event header at offset `off`.
fn parse_meta_at(buf: &[u8], off: usize) -> (m: fanotify_event_metadata)
    requires
        off + 24 <= buf@.len(),
    ensures
        m == parse_meta(buf@, off as int),
{
    proof {
        crate::wire::lemma_slice_len_bound(buf);
    }
    fanotify_event_metadata {
        event_len: read_u32(buf, off),
        vers: buf[off + 4],
        reserved: buf[off + 5],
        metadata_len: read_u16(buf, off + 6),
        mask: read_u64(buf, off + 8),
        fd: #[verifier::truncate] (read_u32(buf, off + 16) as i32),
        pid: #[verifier::truncate] (read_u32(buf, off + 20) as i32),
    }
}

/// Reads the file-identifier block at offset `off`, whose declared
/// length fits the buffer.
fn parse_fid_at(buf: &[u8], off: usize) -> (r: Result<fanotify_event_info_fid, DecodeError>)
    requires
        off + 4 <= buf@.len(),
        off + le16(buf@, off as int + 2) <= buf@.len(),
    ensures
        (match r {
            Ok(f) => parse_fid(buf@, off as int) == Ok::<FidInfoView, DecodeError>(f@),
            Err(e) => parse_fid(buf@, off as int) == Err::<FidInfoView, DecodeError>(e),
        }),
{
    proof {
        crate::wire::lemma_slice_len_bound(buf);
    }
    let elen = read_u16(buf, off + 2) as usize;
    if elen < 20 {
        return Err(DecodeError::BadExtension);
    }
    let hb_words = read_u32(buf, off + 12);
    if hb_words as usize > elen - 20 {
        return Err(DecodeError::BadExtension);
    }
    let hb = hb_words as usize;
    let info_type = buf[off];
    let hdr = fanotify_event_info_header { info_type, pad: buf[off + 1], len: read_u16(buf, off + 2) };
    let fsid0 = #[verifier::truncate] (read_u32(buf, off + 4) as i32);
    let fsid1 = #[verifier::truncate] (read_u32(buf, off + 8) as i32);
    let handle_type = #[verifier::truncate] (read_u32(buf, off + 16) as i32);
    let handle = copy_range(buf, off + 20, off + 20 + hb);
    if info_type == FAN_EVENT_INFO_TYPE_DFID_NAME {
        let nstart = off + 20 + hb;
        let nend = find_nul(buf, nstart, off + elen);
        if nend == off + elen {
            return Err(DecodeError::BadExtension);
        }
        let name = copy_range(buf, nstart, nend);
        Ok(fanotify_event_info_fid { hdr, fsid0, fsid1, handle_type, handle, name: Some(name) })
    } else {
        Ok(fanotify_event_info_fid { hdr, fsid0, fsid1, handle_type, handle, name: None })
    }
}

/// Decodes the file-identifier blocks stored in `[off, end)`.
fn decode_exts(buf: &[u8], off: usize, end: usize) -> (r: Result<
    Vec<fanotify_event_info_fid>,
    DecodeError,
>)
    requires
        off <= end,
        end <= buf@.len(),
    ensures
        (match r {
            Ok(v) => decode_exts_from(buf@, off as int, end as int) == Ok::<
                Seq<FidInfoView>,
                DecodeError,
            >(fids_view(v@)),
            Err(e) => decode_exts_from(buf@, off as int, end as int) == Err::<
                Seq<FidInfoView>,
                DecodeError,
            >(e),
        }),
{
    let mut fids: Vec<fanotify_event_info_fid> = Vec::new();
    let mut p: usize = off;
    while p < end
        invariant
            off <= p <= end,
            end <= buf@.len(),
            decode_exts_from(buf@, off as int, end as int) == (match decode_exts_from(
                buf@,
                p as int,
                end as int,
            ) {
                Ok(rest) => Ok::<Seq<FidInfoView>, DecodeError>(fids_view(fids@) + rest),
                Err(e) => Err::<Seq<FidInfoView>, DecodeError>(e),
            }),
        decreases end - p,
    {
        let ghost p0 = p as int;
        let ghost fids0 = fids@;
        if end - p < 4 {
            return Err(DecodeError::BadExtension);
        }
        let elen = read_u16(buf, p + 2) as usize;
        if elen < 4 || elen > end - p {
            return Err(DecodeError::BadExtension);
        }
        let t = buf[p];
        if t == FAN_EVENT_INFO_TYPE_FID || t == FAN_EVENT_INFO_TYPE_DFID_NAME || t
            == FAN_EVENT_INFO_TYPE_DFID {
            match parse_fid_at(buf, p) {
                Ok(f) => {
                    let ghost fv = f@;
                    fids.push(f);
                    proof {
                        assert(fids_view(fids@) =~= fids_view(fids0) + seq![fv]);
                        if let Ok(rest) = decode_exts_from(buf@, p0 + elen as int, end as int) {
                            assert(fids_view(fids0) + (seq![fv] + rest) =~= fids_view(fids@)
                                + rest);
                        }
                    }
                },
                Err(e) => {
                    return Err(e);
                },
            }
        }
        p = p + elen;
    }
    proof {
        assert(fids_view(fids@) + Seq::<FidInfoView>::empty() =~= fids_view(fids@));
    }
    Ok(fids)
}

/// Decodes a buffer of event records as a group without file
/// identifiers produces them, leaving any extension bytes
/// uninterpreted but bounds-checked by each record's total length.
///
/// A zero-length buffer decodes to no records and no error.
pub fn decode_events(buf: &[u8]) -> (r: Result<Vec<fanotify_event_metadata>, DecodeError>)
    requires
        buf@.len() == 0 || buf@.len() >= 24,
    ensures
        meta_result_view(r) == decode_meta_from(buf@, 0),
        buf@.len() == 0 ==> (r matches Ok(v) && v@.len() == 0),
{
    let n = buf.len();
    let mut off: usize = 0;
    let mut out: Vec<fanotify_event_metadata> = Vec::new();
    while n - off >= 24
        invariant
            off <= n,
            n == buf@.len(),
            decode_meta_from(buf@, 0) == (match decode_meta_from(buf@, off as int) {
                Ok(rest) => Ok::<Seq<fanotify_event_metadata>, DecodeError>(out@ + rest),
                Err(e) => Err::<Seq<fanotify_event_metadata>, DecodeError>(e),
            }),
        decreases n - off,
    {
        let ghost off0 = off as int;
        let ghost out0 = out@;
        let m = parse_meta_at(buf, off);
        if (m.vers as u32) != FANOTIFY_METADATA_VERSION {
            return Err(DecodeError::BadVersion);
        }
        if !(m.metadata_len >= 24 && m.event_len >= m.metadata_len as u32) {
            return Err(DecodeError::BadHeader);
        }
        let el = m.event_len as usize;
        if el > n - off {
            return Err(DecodeError::Truncated);
        }
        out.push(m);
        proof {
            if let Ok(rest) = decode_meta_from(buf@, off0 + el as int) {
                assert(out0 + (seq![m] + rest) =~= out@ + rest);
            }
        }
        off = off + el;
    }
    proof {
        assert(out@ + Seq::<fanotify_event_metadata>::empty() =~= out@);
    }
    Ok(out)
}

/// Decodes a buffer of event records together with their
/// file-identifier extension blocks, as a group configured to identify
/// objects by file handles produces them.
///
/// A zero-length buffer decodes to no records and no error.
pub fn decode_events_with_fid(buf: &[u8]) -> (r: Result<
    Vec<fanotify_event_with_fid>,
    DecodeError,
>)
    requires
        buf@.len() == 0 || buf@.len() >= 24,
    ensures
        fid_result_view(r) == decode_fid_from(buf@, 0),
        buf@.len() == 0 ==> (r matches Ok(v) && v@.len() == 0),
{
    let n = buf.len();
    let mut off: usize = 0;
    let mut out: Vec<fanotify_event_with_fid> = Vec::new();
    while n - off >= 24
        invariant
            off <= n,
            n == buf@.len(),
            decode_fid_from(buf@, 0) == (match decode_fid_from(buf@, off as int) {
                Ok(rest) => Ok::<Seq<FidEventView>, DecodeError>(events_view(out@) + rest),
                Err(e) => Err::<Seq<FidEventView>, DecodeError>(e),
            }),
        decreases n - off,
    {
        let ghost off0 = off as int;
        let ghost out0 = out@;
        let m = parse_meta_at(buf, off);
        if (m.vers as u32) != FANOTIFY_METADATA_VERSION {
            return Err(DecodeError::BadVersion);
        }
        if !(m.metadata_len >= 24 && m.event_len >= m.metadata_len as u32) {
            return Err(DecodeError::BadHeader);
        }
        let el = m.event_len as usize;
        if el > n - off {
            return Err(DecodeError::Truncated);
        }
        let mlen = m.metadata_len as usize;
        match decode_exts(buf, off + mlen, off + el) {
            Ok(fids) => {
                let ghost ev = FidEventView { metadata: m, fids: fids_view(fids@) };
                let e = fanotify_event_with_fid { metadata: m, fids };
                out.push(e);
                proof {
                    assert(events_view(out@) =~= events_view(out0) + seq![ev]);
                    if let Ok(rest) = decode_fid_from(buf@, off0 + el as int) {
                        assert(events_view(out0) + (seq![ev] + rest) =~= events_view(out@)
                            + rest);
                    }
                }
            },
            Err(e) => {
                return Err(e);
            },
        }
        off = off + el;
    }
    proof {
        assert(events_view(out@) + Seq::<FidEventView>::empty() =~= events_view(out@));
    }
    Ok(out)
}

/// Interprets the outcome of one read call on the event-queue
/// descriptor: an error code that means "no data in non-blocking mode"
/// becomes [`ReadError::WouldBlock`], any other code is passed through,
/// and bytes are decoded as fixed event records.
pub fn events_from_read(outcome: Result<Vec<u8>, i32>) -> (r: Result<
    Vec<fanotify_event_metadata>,
    FanotifyError,
>)
    requires
        outcome matches Ok(b) ==> b@.len() == 0 || b@.len() >= 24,
    ensures
        (match outcome {
            Err(code) => r == Err::<Vec<fanotify_event_metadata>, FanotifyError>(
                FanotifyError::Read(
                    if code == EAGAIN {
                        ReadError::WouldBlock
                    } else {
                        ReadError::Os(code)
                    },
                ),
            ),
            Ok(b) => (match decode_meta_from(b@, 0) {
                Ok(ms) => r matches Ok(v) && v@ == ms,
                Err(e) => r == Err::<Vec<fanotify_event_metadata>, FanotifyError>(
                    FanotifyError::Read(ReadError::Decode(e)),
                ),
            }),
        }),
{
    match outcome {
        Err(code) => {
            if code == EAGAIN {
                Err(FanotifyError::Read(ReadError::WouldBlock))
            } else {
                Err(FanotifyError::Read(ReadError::Os(code)))
            }
        },
        Ok(b) => {
            match decode_events(b.as_slice()) {
                Ok(v) => Ok(v),
                Err(e) => Err(FanotifyError::Read(ReadError::Decode(e))),
            }
        },
    }
}

/// Interprets the outcome of one read call on a descriptor configured
/// for file identifiers, decoding the extension blocks as well.
pub fn events_with_fid_from_read(outcome: Result<Vec<u8>, i32>) -> (r: Result<
    Vec<fanotify_event_with_fid>,
    FanotifyError,
>)
    requires
        outcome matches Ok(b) ==> b@.len() == 0 || b@.len() >= 24,
    ensures
        (match outcome {
            Err(code) => r == Err::<Vec<fanotify_event_with_fid>, FanotifyError>(
                FanotifyError::Read(
                    if code == EAGAIN {
                        ReadError::WouldBlock
                    } else {
                        ReadError::Os(code)
                    },
                ),
            ),
            Ok(b) => (match decode_fid_from(b@, 0) {
                Ok(es) => r matches Ok(v) && events_view(v@) == es,
                Err(e) => r == Err::<Vec<fanotify_event_with_fid>, FanotifyError>(
                    FanotifyError::Read(ReadError::Decode(e)),
                ),
            }),
        }),
{
    match outcome {
        Err(code) => {
            if code == EAGAIN {
                Err(FanotifyError::Read(ReadError::WouldBlock))
            } else {
                Err(FanotifyError::Read(ReadError::Os(code)))
            }
        },
        Ok(b) => {
            match decode_events_with_fid(b.as_slice()) {
                Ok(v) => Ok(v),
                Err(e) => Err(FanotifyError::Read(ReadError::Decode(e))),
            }
        },
    }
}

/// The model of an executable decode result.
pub open spec fn meta_result_view(r: Result<Vec<fanotify_event_metadata>, DecodeError>) -> Result<
    Seq<fanotify_event_metadata>,
    DecodeError,
> {
    match r {
        Ok(v) => Ok(v@),
        Err(e) => Err(e),
    }
}

/// The model of an executable decode result with blocks.
pub open spec fn fid_result_view(r: Result<Vec<fanotify_event_with_fid>, DecodeError>) -> Result<
    Seq<FidEventView>,
    DecodeError,
> {
    match r {
        Ok(v) => Ok(events_view(v@)),
        Err(e) => Err(e),
    }
}

} // verus!
