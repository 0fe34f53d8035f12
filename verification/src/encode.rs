//! Encoders for the records of the protocol.
//!
//! Events are encoded exactly as the kernel lays them out: the 24-byte
//! header, then each file-identifier block with its declared length,
//! the block's tail zero-padded up to that length.  The response
//! record is the fixed 8-byte write-back structure.  The spec functions
//! define the byte image of each record; the executable encoders are
//! proved to produce it, and the decoder lemmas elsewhere show that
//! decoding such an image gives the records back.

use vstd::prelude::*;

use crate::records::fanotify_event_info_fid;
use crate::records::fanotify_event_metadata;
use crate::records::fanotify_event_with_fid;
use crate::records::fanotify_response;
use crate::records::fid_exact_len;
use crate::records::fid_event_wf;
use crate::records::fid_wf;
use crate::records::fids_total_len;
use crate::records::fids_view;
use crate::records::FidEventView;
use crate::records::FidInfoView;
use crate::wire::push_u16;
use crate::wire::push_u32;
use crate::wire::push_u64;
use crate::wire::u16_bytes;
use crate::wire::u32_bytes;
use crate::wire::u64_bytes;

verus! {

/// `n` zero bytes.
pub open spec fn zero_bytes(n: int) -> Seq<u8> {
    Seq::new(n as nat, |i: int| 0u8)
}

/// The 24-byte image of an event header.
pub open spec fn enc_meta(m: fanotify_event_metadata) -> Seq<u8> {
    u32_bytes(m.event_len) + seq![m.vers, m.reserved] + u16_bytes(m.metadata_len) + u64_bytes(
        m.mask,
    ) + u32_bytes(m.fd as u32) + u32_bytes(m.pid as u32)
}

/// The image of a file-identifier block: header, filesystem
/// identifier, handle length and type words, the handle bytes, the
/// null-terminated name when present, and zero padding up to the
/// block's declared length.
pub open spec fn enc_fid(f: FidInfoView) -> Seq<u8>
    recommends
        fid_wf(f),
{
    seq![f.info_type, f.pad] + u16_bytes(f.len) + u32_bytes(f.fsid0 as u32) + u32_bytes(
        f.fsid1 as u32,
    ) + u32_bytes(f.handle.len() as u32) + u32_bytes(f.handle_type as u32) + f.handle + (match f.name {
        Some(nm) => nm + seq![0u8],
        None => Seq::empty(),
    }) + zero_bytes(f.len - fid_exact_len(f))
}

/// A well-formed block's image is exactly its declared length.
pub proof fn lemma_enc_fid_len(f: FidInfoView)
    requires
        fid_wf(f),
    ensures
        enc_fid(f).len() == f.len,
{
}

/// The image of a run of file-identifier blocks, first to last.
pub open spec fn enc_fids(fs: Seq<FidInfoView>) -> Seq<u8>
    decreases fs.len(),
{
    if fs.len() == 0 {
        Seq::empty()
    } else {
        enc_fid(fs[0]) + enc_fids(fs.drop_first())
    }
}

/// A run of well-formed blocks is as long as its declared lengths.
pub proof fn lemma_enc_fids_len(fs: Seq<FidInfoView>)
    requires
        forall|i: int| 0 <= i < fs.len() ==> fid_wf(fs[i]),
    ensures
        enc_fids(fs).len() == fids_total_len(fs),
    decreases fs.len(),
{
    if fs.len() > 0 {
        lemma_enc_fid_len(fs[0]);
        assert(forall|i: int|
            0 <= i < fs.drop_first().len() ==> fs.drop_first()[i] == fs[i + 1]);
        lemma_enc_fids_len(fs.drop_first());
    }
}

/// Appending a block appends its image.
pub proof fn lemma_enc_fids_push(fs: Seq<FidInfoView>, f: FidInfoView)
    ensures
        enc_fids(fs.push(f)) == enc_fids(fs) + enc_fid(f),
    decreases fs.len(),
{
    reveal_with_fuel(enc_fids, 3);
    if fs.len() == 0 {
        assert(fs.push(f)[0] == f);
        assert(fs.push(f).drop_first() =~= Seq::<FidInfoView>::empty());
        assert(enc_fid(f) + Seq::<u8>::empty() =~= enc_fid(f));
        assert(Seq::<u8>::empty() + enc_fid(f) =~= enc_fid(f));
    } else {
        assert(fs.push(f)[0] == fs[0]);
        assert(fs.push(f).drop_first() =~= fs.drop_first().push(f));
        lemma_enc_fids_push(fs.drop_first(), f);
        assert((enc_fid(fs[0]) + enc_fids(fs.drop_first())) + enc_fid(f) =~= enc_fid(fs[0]) + (
        enc_fids(fs.drop_first()) + enc_fid(f)));
    }
}

/// The image of an event with its blocks.
pub open spec fn enc_event_fid(e: FidEventView) -> Seq<u8> {
    enc_meta(e.metadata) + enc_fids(e.fids)
}

/// A well-formed event's image is exactly its declared total length.
pub proof fn lemma_enc_event_fid_len(e: FidEventView)
    requires
        fid_event_wf(e),
    ensures
        enc_event_fid(e).len() == e.metadata.event_len,
{
    lemma_enc_fids_len(e.fids);
}

/// The image of a run of events, first to last.
pub open spec fn enc_events(es: Seq<FidEventView>) -> Seq<u8>
    decreases es.len(),
{
    if es.len() == 0 {
        Seq::empty()
    } else {
        enc_event_fid(es[0]) + enc_events(es.drop_first())
    }
}

/// The image of a run of bare event headers, first to last.
pub open spec fn enc_metas(ms: Seq<fanotify_event_metadata>) -> Seq<u8>
    decreases ms.len(),
{
    if ms.len() == 0 {
        Seq::empty()
    } else {
        enc_meta(ms[0]) + enc_metas(ms.drop_first())
    }
}

/// A run of bare headers is 24 bytes per record.
pub proof fn lemma_enc_metas_len(ms: Seq<fanotify_event_metadata>)
    ensures
        enc_metas(ms).len() == 24 * ms.len(),
    decreases ms.len(),
{
    if ms.len() > 0 {
        lemma_enc_metas_len(ms.drop_first());
    }
}

/// The 8-byte image of a response record.
pub open spec fn enc_response(r: fanotify_response) -> Seq<u8> {
    u32_bytes(r.fd as u32) + u32_bytes(r.response)
}

/// Encodes an event header into its 24-byte image.
pub fn encode_event_metadata(m: &fanotify_event_metadata) -> (out: Vec<u8>)
    ensures
        out@ == enc_meta(*m),
        out@.len() == 24,
{
    let mut out: Vec<u8> = Vec::new();
    push_u32(&mut out, m.event_len);
    out.push(m.vers);
    out.push(m.reserved);
    push_u16(&mut out, m.metadata_len);
    push_u64(&mut out, m.mask);
    push_u32(&mut out, #[verifier::truncate] (m.fd as u32));
    push_u32(&mut out, #[verifier::truncate] (m.pid as u32));
    proof {
        assert(out@ =~= enc_meta(*m));
    }
    out
}

/// Encodes a well-formed file-identifier block into its image.
pub fn encode_fid_info(f: &fanotify_event_info_fid) -> (out: Vec<u8>)
    requires
        fid_wf(f@),
    ensures
        out@ == enc_fid(f@),
        out@.len() == f.hdr.len,
{
    let mut out: Vec<u8> = Vec::new();
    out.push(f.hdr.info_type);
    out.push(f.hdr.pad);
    push_u16(&mut out, f.hdr.len);
    push_u32(&mut out, #[verifier::truncate] (f.fsid0 as u32));
    push_u32(&mut out, #[verifier::truncate] (f.fsid1 as u32));
    push_u32(&mut out, f.handle.len() as u32);
    push_u32(&mut out, #[verifier::truncate] (f.handle_type as u32));
    let ghost head = out@;
    let mut i: usize = 0;
    while i < f.handle.len()
        invariant
            i <= f.handle@.len(),
            out@ == head + f.handle@.take(i as int),
        decreases f.handle@.len() - i,
    {
        out.push(f.handle[i]);
        i = i + 1;
        assert(out@ =~= head + f.handle@.take(i as int));
    }
    proof {
        assert(out@ =~= head + f.handle@);
    }
    let ghost head2 = out@;
    match &f.name {
        Some(nm) => {
            let mut j: usize = 0;
            while j < nm.len()
                invariant
                    j <= nm@.len(),
                    out@ == head2 + nm@.take(j as int),
                decreases nm@.len() - j,
            {
                out.push(nm[j]);
                j = j + 1;
                assert(out@ =~= head2 + nm@.take(j as int));
            }
            out.push(0u8);
            proof {
                assert(out@ =~= head2 + (nm@ + seq![0u8]));
            }
        },
        None => {},
    }
    let ghost head3 = out@;
    let ghost padding = f@.len - fid_exact_len(f@);
    let target = f.hdr.len as usize;
    while out.len() < target
        invariant
            out@.len() <= target,
            target == f@.len,
            head3.len() == fid_exact_len(f@),
            out@ == head3 + zero_bytes(out@.len() - head3.len()),
        decreases target - out@.len(),
    {
        out.push(0u8);
        assert(out@ =~= head3 + zero_bytes(out@.len() - head3.len()));
    }
    proof {
        assert(out@ =~= enc_fid(f@));
    }
    out
}

/// Encodes a well-formed event and its blocks into its image.
pub fn encode_event_with_fid(e: &fanotify_event_with_fid) -> (out: Vec<u8>)
    requires
        fid_event_wf(e@),
    ensures
        out@ == enc_event_fid(e@),
        out@.len() == e.metadata.event_len,
{
    let mut out = encode_event_metadata(&e.metadata);
    let mut i: usize = 0;
    while i < e.fids.len()
        invariant
            i <= e.fids@.len(),
            fid_event_wf(e@),
            out@ == enc_meta(e.metadata) + enc_fids(fids_view(e.fids@).take(i as int)),
        decreases e.fids@.len() - i,
    {
        proof {
            assert(fids_view(e.fids@)[i as int] == e.fids@[i as int]@);
            assert(fid_wf(e.fids@[i as int]@));
        }
        let mut enc = encode_fid_info(&e.fids[i]);
        out.append(&mut enc);
        proof {
            assert(fids_view(e.fids@).take(i + 1) =~= fids_view(e.fids@).take(i as int).push(
                e.fids@[i as int]@,
            ));
            lemma_enc_fids_push(fids_view(e.fids@).take(i as int), e.fids@[i as int]@);
        }
        i = i + 1;
    }
    proof {
        assert(fids_view(e.fids@).take(e.fids@.len() as int) =~= fids_view(e.fids@));
        lemma_enc_event_fid_len(e@);
    }
    out
}

/// Encodes a response record into its 8-byte image.  Each call
/// produces one whole record; two responses are two separate images.
pub fn encode_response(resp: &fanotify_response) -> (out: Vec<u8>)
    ensures
        out@ == enc_response(*resp),
        out@.len() == 8,
{
    let mut out: Vec<u8> = Vec::new();
    push_u32(&mut out, #[verifier::truncate] (resp.fd as u32));
    push_u32(&mut out, resp.response);
    proof {
        assert(out@ =~= enc_response(*resp));
    }
    out
}

} // verus!
