//! Round-trip and rejection laws of the codec.
//!
//! These lemmas state the decoder's behaviour on encoded buffers: a
//! buffer of encoded well-formed records decodes to exactly those
//! records in order; a trailing record cut short of its declared
//! length is a fatal error; and a record with a foreign version tag is
//! rejected however valid its length fields are.

use vstd::prelude::*;

use crate::decode::decode_exts_from;
use crate::decode::decode_fid_from;
use crate::decode::decode_meta_from;
use crate::decode::lemma_first_nul_at;
use crate::decode::parse_fid;
use crate::decode::parse_meta;
use crate::encode::enc_event_fid;
use crate::encode::enc_events;
use crate::encode::enc_fid;
use crate::encode::enc_fids;
use crate::encode::enc_meta;
use crate::encode::enc_metas;
use crate::encode::enc_response;
use crate::encode::lemma_enc_event_fid_len;
use crate::encode::lemma_enc_fid_len;
use crate::encode::lemma_enc_fids_len;
use crate::encode::lemma_enc_metas_len;
use crate::errors::DecodeError;
use crate::records::fanotify_event_metadata;
use crate::records::fanotify_response;
use crate::records::fid_event_wf;
use crate::records::fid_wf;
use crate::records::fids_total_len;
use crate::records::fixed_meta_wf;
use crate::records::is_fid_info_type;
use crate::records::lemma_fids_total_len_nonneg;
use crate::records::meta_header_wf;
use crate::records::FidEventView;
use crate::records::FidInfoView;
use crate::wire::le16;
use crate::wire::le32;
use crate::wire::lemma_le16_at;
use crate::wire::lemma_le32_at;
use crate::wire::lemma_le64_at;
use crate::wire::lemma_u32_of_i32_roundtrip;
use crate::wire::u16_bytes;
use crate::wire::u32_bytes;
use crate::wire::u64_bytes;

verus! {

/// A header parsed back out of its own image is the header.
pub proof fn lemma_parse_meta_of_enc(s: Seq<u8>, off: int, m: fanotify_event_metadata)
    requires
        0 <= off,
        off + 24 <= s.len(),
        s.subrange(off, off + 24) == enc_meta(m),
    ensures
        parse_meta(s, off) == m,
{
    let enc = enc_meta(m);
    assert forall|j: int| 0 <= j < 24 implies s[off + j] == #[trigger] enc[j] by {
        assert(s.subrange(off, off + 24)[j] == s[off + j]);
    }
    assert(enc[0] == u32_bytes(m.event_len)[0]);
    assert(enc[1] == u32_bytes(m.event_len)[1]);
    assert(enc[2] == u32_bytes(m.event_len)[2]);
    assert(enc[3] == u32_bytes(m.event_len)[3]);
    lemma_le32_at(s, off, m.event_len);
    assert(enc[4] == m.vers);
    assert(enc[5] == m.reserved);
    assert(enc[6] == u16_bytes(m.metadata_len)[0]);
    assert(enc[7] == u16_bytes(m.metadata_len)[1]);
    lemma_le16_at(s, off + 6, m.metadata_len);
    assert(enc[8] == u64_bytes(m.mask)[0]);
    assert(enc[9] == u64_bytes(m.mask)[1]);
    assert(enc[10] == u64_bytes(m.mask)[2]);
    assert(enc[11] == u64_bytes(m.mask)[3]);
    assert(enc[12] == u64_bytes(m.mask)[4]);
    assert(enc[13] == u64_bytes(m.mask)[5]);
    assert(enc[14] == u64_bytes(m.mask)[6]);
    assert(enc[15] == u64_bytes(m.mask)[7]);
    lemma_le64_at(s, off + 8, m.mask);
    assert(enc[16] == u32_bytes(m.fd as u32)[0]);
    assert(enc[17] == u32_bytes(m.fd as u32)[1]);
    assert(enc[18] == u32_bytes(m.fd as u32)[2]);
    assert(enc[19] == u32_bytes(m.fd as u32)[3]);
    lemma_le32_at(s, off + 16, m.fd as u32);
    lemma_u32_of_i32_roundtrip(m.fd);
    assert(enc[20] == u32_bytes(m.pid as u32)[0]);
    assert(enc[21] == u32_bytes(m.pid as u32)[1]);
    assert(enc[22] == u32_bytes(m.pid as u32)[2]);
    assert(enc[23] == u32_bytes(m.pid as u32)[3]);
    lemma_le32_at(s, off + 20, m.pid as u32);
    lemma_u32_of_i32_roundtrip(m.pid);
}

/// A file-identifier block parsed back out of its own image is the
/// block.
pub proof fn lemma_parse_fid_of_enc(s: Seq<u8>, off: int, f: FidInfoView)
    requires
        fid_wf(f),
        0 <= off,
        off + f.len <= s.len(),
        s.subrange(off, off + f.len) == enc_fid(f),
    ensures
        le16(s, off + 2) == f.len,
        parse_fid(s, off) == Ok::<FidInfoView, DecodeError>(f),
{
    lemma_enc_fid_len(f);
    let enc = enc_fid(f);
    let flen = f.len as int;
    let hl = f.handle.len() as int;
    assert forall|j: int| 0 <= j < flen implies s[off + j] == #[trigger] enc[j] by {
        assert(s.subrange(off, off + flen)[j] == s[off + j]);
    }
    assert(enc[0] == f.info_type);
    assert(enc[1] == f.pad);
    assert(enc[2] == u16_bytes(f.len)[0]);
    assert(enc[3] == u16_bytes(f.len)[1]);
    lemma_le16_at(s, off + 2, f.len);
    assert(enc[4] == u32_bytes(f.fsid0 as u32)[0]);
    assert(enc[5] == u32_bytes(f.fsid0 as u32)[1]);
    assert(enc[6] == u32_bytes(f.fsid0 as u32)[2]);
    assert(enc[7] == u32_bytes(f.fsid0 as u32)[3]);
    lemma_le32_at(s, off + 4, f.fsid0 as u32);
    lemma_u32_of_i32_roundtrip(f.fsid0);
    assert(enc[8] == u32_bytes(f.fsid1 as u32)[0]);
    assert(enc[9] == u32_bytes(f.fsid1 as u32)[1]);
    assert(enc[10] == u32_bytes(f.fsid1 as u32)[2]);
    assert(enc[11] == u32_bytes(f.fsid1 as u32)[3]);
    lemma_le32_at(s, off + 8, f.fsid1 as u32);
    lemma_u32_of_i32_roundtrip(f.fsid1);
    assert(enc[12] == u32_bytes(f.handle.len() as u32)[0]);
    assert(enc[13] == u32_bytes(f.handle.len() as u32)[1]);
    assert(enc[14] == u32_bytes(f.handle.len() as u32)[2]);
    assert(enc[15] == u32_bytes(f.handle.len() as u32)[3]);
    lemma_le32_at(s, off + 12, f.handle.len() as u32);
    assert(le32(s, off + 12) as int == hl);
    assert(enc[16] == u32_bytes(f.handle_type as u32)[0]);
    assert(enc[17] == u32_bytes(f.handle_type as u32)[1]);
    assert(enc[18] == u32_bytes(f.handle_type as u32)[2]);
    assert(enc[19] == u32_bytes(f.handle_type as u32)[3]);
    lemma_le32_at(s, off + 16, f.handle_type as u32);
    lemma_u32_of_i32_roundtrip(f.handle_type);
    assert forall|j: int| 0 <= j < hl implies s[off + 20 + j] == #[trigger] f.handle[j] by {
        assert(enc[20 + j] == f.handle[j]);
    }
    assert(s.subrange(off + 20, off + 20 + hl) =~= f.handle);
    match f.name {
        Some(nm) => {
            let nstart = off + 20 + hl;
            let nl = nm.len() as int;
            assert forall|j: int| 0 <= j < nl implies s[nstart + j] == #[trigger] nm[j] by {
                assert(enc[20 + hl + j] == nm[j]);
            }
            assert(s[nstart + nl] == 0) by {
                assert(enc[20 + hl + nl] == 0);
            }
            assert forall|j: int| nstart <= j < nstart + nl implies s[j] != 0 by {
                assert(s[j] == nm[j - nstart]);
            }
            lemma_first_nul_at(s, nstart, off + flen, nstart + nl);
            assert(s.subrange(nstart, nstart + nl) =~= nm);
            assert(parse_fid(s, off) == Ok::<FidInfoView, DecodeError>(f));
        },
        None => {
            assert(parse_fid(s, off) == Ok::<FidInfoView, DecodeError>(f));
        },
    }
}

/// A run of encoded well-formed blocks decodes back to the run.
pub proof fn lemma_decode_exts_of_enc(fs: Seq<FidInfoView>, s: Seq<u8>, off: int)
    requires
        forall|i: int| 0 <= i < fs.len() ==> fid_wf(fs[i]),
        0 <= off,
        off + fids_total_len(fs) <= s.len(),
        s.subrange(off, off + fids_total_len(fs)) == enc_fids(fs),
    ensures
        decode_exts_from(s, off, off + fids_total_len(fs)) == Ok::<Seq<FidInfoView>, DecodeError>(
            fs,
        ),
    decreases fs.len(),
{
    let total = fids_total_len(fs);
    lemma_fids_total_len_nonneg(fs);
    if fs.len() == 0 {
        assert(fs =~= Seq::<FidInfoView>::empty());
    } else {
        let f0 = fs[0];
        let rest = fs.drop_first();
        assert(forall|i: int| 0 <= i < rest.len() ==> rest[i] == fs[i + 1]);
        lemma_fids_total_len_nonneg(rest);
        lemma_enc_fid_len(f0);
        lemma_enc_fids_len(rest);
        let l0 = f0.len as int;
        let end = off + total;
        assert forall|j: int| 0 <= j < total implies s[off + j] == #[trigger] enc_fids(fs)[j] by {
            assert(s.subrange(off, end)[j] == s[off + j]);
        }
        assert(s.subrange(off, off + l0) =~= enc_fid(f0));
        lemma_parse_fid_of_enc(s, off, f0);
        assert(s[off] == enc_fid(f0)[0]);
        assert(is_fid_info_type(s[off]));
        assert forall|j: int| 0 <= j < fids_total_len(rest) implies s.subrange(
            off + l0,
            off + l0 + fids_total_len(rest),
        )[j] == enc_fids(rest)[j] by {
            assert(s[off + l0 + j] == enc_fids(fs)[l0 + j]);
            assert(enc_fids(fs)[l0 + j] == enc_fids(rest)[j]);
        }
        assert(s.subrange(off + l0, off + l0 + fids_total_len(rest)) =~= enc_fids(rest));
        lemma_decode_exts_of_enc(rest, s, off + l0);
        assert(seq![f0] + rest =~= fs);
    }
}

/// Decoding a buffer that starts with a run of encoded well-formed
/// fixed-size records yields those records followed by whatever the
/// remainder of the buffer decodes to, and the remainder's error if it
/// has one.
pub proof fn lemma_decode_metas_prepend(ms: Seq<fanotify_event_metadata>, s: Seq<u8>, off: int)
    requires
        forall|i: int| 0 <= i < ms.len() ==> fixed_meta_wf(ms[i]),
        0 <= off,
        off + 24 * ms.len() <= s.len(),
        s.subrange(off, off + 24 * ms.len()) == enc_metas(ms),
    ensures
        decode_meta_from(s, off) == (match decode_meta_from(s, off + 24 * ms.len()) {
            Ok(r) => Ok::<Seq<fanotify_event_metadata>, DecodeError>(ms + r),
            Err(e) => Err::<Seq<fanotify_event_metadata>, DecodeError>(e),
        }),
    decreases ms.len(),
{
    let glen = 24 * ms.len() as int;
    if ms.len() == 0 {
        if let Ok(r) = decode_meta_from(s, off) {
            assert(ms + r =~= r);
        }
    } else {
        let m0 = ms[0];
        let rest = ms.drop_first();
        assert(forall|i: int| 0 <= i < rest.len() ==> rest[i] == ms[i + 1]);
        lemma_enc_metas_len(ms);
        lemma_enc_metas_len(rest);
        assert forall|j: int| 0 <= j < glen implies s[off + j] == #[trigger] enc_metas(ms)[j] by {
            assert(s.subrange(off, off + glen)[j] == s[off + j]);
        }
        assert(s.subrange(off, off + 24) =~= enc_meta(m0));
        lemma_parse_meta_of_enc(s, off, m0);
        assert forall|j: int| 0 <= j < 24 * rest.len() implies s.subrange(
            off + 24,
            off + 24 + 24 * rest.len(),
        )[j] == enc_metas(rest)[j] by {
            assert(s[off + 24 + j] == enc_metas(ms)[24 + j]);
            assert(enc_metas(ms)[24 + j] == enc_metas(rest)[j]);
        }
        assert(s.subrange(off + 24, off + 24 + 24 * rest.len()) =~= enc_metas(rest));
        lemma_decode_metas_prepend(rest, s, off + 24);
        assert(off + 24 + 24 * rest.len() == off + glen);
        if let Ok(r) = decode_meta_from(s, off + glen) {
            assert(seq![m0] + (rest + r) =~= ms + r);
        }
    }
}

/// Decoding a buffer that starts with a run of encoded well-formed
/// events with their blocks yields those events followed by whatever
/// the remainder decodes to, and the remainder's error if it has one.
pub proof fn lemma_decode_events_prepend(es: Seq<FidEventView>, s: Seq<u8>, off: int)
    requires
        forall|i: int| 0 <= i < es.len() ==> fid_event_wf(es[i]),
        0 <= off,
        off + enc_events(es).len() <= s.len(),
        s.subrange(off, off + enc_events(es).len()) == enc_events(es),
    ensures
        decode_fid_from(s, off) == (match decode_fid_from(s, off + enc_events(es).len()) {
            Ok(r) => Ok::<Seq<FidEventView>, DecodeError>(es + r),
            Err(e) => Err::<Seq<FidEventView>, DecodeError>(e),
        }),
    decreases es.len(),
{
    let glen = enc_events(es).len() as int;
    if es.len() == 0 {
        if let Ok(r) = decode_fid_from(s, off) {
            assert(es + r =~= r);
        }
    } else {
        let e0 = es[0];
        let rest = es.drop_first();
        assert(forall|i: int| 0 <= i < rest.len() ==> rest[i] == es[i + 1]);
        lemma_enc_event_fid_len(e0);
        let el = e0.metadata.event_len as int;
        lemma_fids_total_len_nonneg(e0.fids);
        lemma_enc_fids_len(e0.fids);
        assert forall|j: int| 0 <= j < glen implies s[off + j] == #[trigger] enc_events(es)[j] by {
            assert(s.subrange(off, off + glen)[j] == s[off + j]);
        }
        assert(s.subrange(off, off + 24) =~= enc_meta(e0.metadata));
        lemma_parse_meta_of_enc(s, off, e0.metadata);
        assert forall|j: int| 0 <= j < el - 24 implies s.subrange(off + 24, off + el)[j]
            == enc_fids(e0.fids)[j] by {
            assert(s[off + 24 + j] == enc_events(es)[24 + j]);
            assert(enc_events(es)[24 + j] == enc_event_fid(e0)[24 + j]);
            assert(enc_event_fid(e0)[24 + j] == enc_fids(e0.fids)[j]);
        }
        assert(s.subrange(off + 24, off + el) =~= enc_fids(e0.fids));
        lemma_decode_exts_of_enc(e0.fids, s, off + 24);
        assert forall|j: int| 0 <= j < enc_events(rest).len() implies s.subrange(
            off + el,
            off + el + enc_events(rest).len(),
        )[j] == enc_events(rest)[j] by {
            assert(s[off + el + j] == enc_events(es)[el + j]);
            assert(enc_events(es)[el + j] == enc_events(rest)[j]);
        }
        assert(s.subrange(off + el, off + el + enc_events(rest).len()) =~= enc_events(rest));
        lemma_decode_events_prepend(rest, s, off + el);
        assert(off + el + enc_events(rest).len() == off + glen);
        assert((FidEventView { metadata: e0.metadata, fids: e0.fids }) == e0);
        if let Ok(r) = decode_fid_from(s, off + glen) {
            assert(seq![e0] + (rest + r) =~= es + r);
        }
    }
}

/// A buffer of encoded well-formed fixed-size records, with no
/// extensions and nothing after them, decodes to exactly those
/// records, in their original order.
pub proof fn lemma_decode_encoded_fixed_records(ms: Seq<fanotify_event_metadata>)
    requires
        forall|i: int| 0 <= i < ms.len() ==> fixed_meta_wf(ms[i]),
    ensures
        decode_meta_from(enc_metas(ms), 0) == Ok::<Seq<fanotify_event_metadata>, DecodeError>(ms),
{
    let s = enc_metas(ms);
    lemma_enc_metas_len(ms);
    let glen = 24 * ms.len() as int;
    assert(s.subrange(0, glen) =~= s);
    lemma_decode_metas_prepend(ms, s, 0);
    assert(decode_meta_from(s, glen) == Ok::<Seq<fanotify_event_metadata>, DecodeError>(
        Seq::empty(),
    ));
    assert(ms + Seq::<fanotify_event_metadata>::empty() =~= ms);
}

/// Round trip: a buffer of encoded well-formed events, each with its
/// file-identifier blocks, decodes to exactly those events — every
/// field, every handle byte and every name reproduced.
pub proof fn lemma_decode_encoded_events(es: Seq<FidEventView>)
    requires
        forall|i: int| 0 <= i < es.len() ==> fid_event_wf(es[i]),
    ensures
        decode_fid_from(enc_events(es), 0) == Ok::<Seq<FidEventView>, DecodeError>(es),
{
    let s = enc_events(es);
    let glen = s.len() as int;
    assert(s.subrange(0, glen) =~= s);
    lemma_decode_events_prepend(es, s, 0);
    assert(decode_fid_from(s, glen) == Ok::<Seq<FidEventView>, DecodeError>(Seq::empty()));
    assert(es + Seq::<FidEventView>::empty() =~= es);
}

/// A buffer whose last record declares more bytes than remain — the
/// header is whole but its `event_len` runs past the end — is a fatal
/// decode error, whatever well-formed records precede it.
pub proof fn lemma_decode_truncated_tail(
    ms: Seq<fanotify_event_metadata>,
    m: fanotify_event_metadata,
    extra: Seq<u8>,
)
    requires
        forall|i: int| 0 <= i < ms.len() ==> fixed_meta_wf(ms[i]),
        meta_header_wf(m),
        24 + extra.len() < m.event_len,
    ensures
        decode_meta_from(enc_metas(ms) + (enc_meta(m) + extra), 0) == Err::<
            Seq<fanotify_event_metadata>,
            DecodeError,
        >(DecodeError::Truncated),
{
    let s = enc_metas(ms) + (enc_meta(m) + extra);
    lemma_enc_metas_len(ms);
    let glen = 24 * ms.len() as int;
    assert forall|j: int| 0 <= j < glen implies s.subrange(0, glen)[j] == enc_metas(ms)[j] by {
        assert(s[j] == enc_metas(ms)[j]);
    }
    assert(s.subrange(0, glen) =~= enc_metas(ms));
    lemma_decode_metas_prepend(ms, s, 0);
    assert forall|j: int| 0 <= j < 24 implies s.subrange(glen, glen + 24)[j] == enc_meta(m)[j] by {
        assert(s[glen + j] == (enc_meta(m) + extra)[j]);
    }
    assert(s.subrange(glen, glen + 24) =~= enc_meta(m));
    lemma_parse_meta_of_enc(s, glen, m);
    assert(decode_meta_from(s, glen) == Err::<Seq<fanotify_event_metadata>, DecodeError>(
        DecodeError::Truncated,
    ));
}

/// A record whose version tag differs from the expected constant is
/// rejected as a fatal decode error, however valid its length fields
/// are and whatever well-formed records precede it.
pub proof fn lemma_decode_version_mismatch(
    ms: Seq<fanotify_event_metadata>,
    m: fanotify_event_metadata,
    extra: Seq<u8>,
)
    requires
        forall|i: int| 0 <= i < ms.len() ==> fixed_meta_wf(ms[i]),
        m.vers as u32 != crate::flags::FANOTIFY_METADATA_VERSION,
    ensures
        decode_meta_from(enc_metas(ms) + (enc_meta(m) + extra), 0) == Err::<
            Seq<fanotify_event_metadata>,
            DecodeError,
        >(DecodeError::BadVersion),
{
    let s = enc_metas(ms) + (enc_meta(m) + extra);
    lemma_enc_metas_len(ms);
    let glen = 24 * ms.len() as int;
    assert forall|j: int| 0 <= j < glen implies s.subrange(0, glen)[j] == enc_metas(ms)[j] by {
        assert(s[j] == enc_metas(ms)[j]);
    }
    assert(s.subrange(0, glen) =~= enc_metas(ms));
    lemma_decode_metas_prepend(ms, s, 0);
    assert forall|j: int| 0 <= j < 24 implies s.subrange(glen, glen + 24)[j] == enc_meta(m)[j] by {
        assert(s[glen + j] == (enc_meta(m) + extra)[j]);
    }
    assert(s.subrange(glen, glen + 24) =~= enc_meta(m));
    lemma_parse_meta_of_enc(s, glen, m);
    assert(decode_meta_from(s, glen) == Err::<Seq<fanotify_event_metadata>, DecodeError>(
        DecodeError::BadVersion,
    ));
}

/// No two different response records share an image: the 8 bytes
/// written back determine the descriptor and the decision.
pub proof fn lemma_enc_response_injective(a: fanotify_response, b: fanotify_response)
    requires
        enc_response(a) == enc_response(b),
    ensures
        a == b,
{
    let s = enc_response(a);
    assert(s[0] == u32_bytes(a.fd as u32)[0]);
    assert(s[1] == u32_bytes(a.fd as u32)[1]);
    assert(s[2] == u32_bytes(a.fd as u32)[2]);
    assert(s[3] == u32_bytes(a.fd as u32)[3]);
    lemma_le32_at(s, 0, a.fd as u32);
    assert(s[4] == u32_bytes(a.response)[0]);
    assert(s[5] == u32_bytes(a.response)[1]);
    assert(s[6] == u32_bytes(a.response)[2]);
    assert(s[7] == u32_bytes(a.response)[3]);
    lemma_le32_at(s, 4, a.response);
    assert(s[0] == u32_bytes(b.fd as u32)[0]);
    assert(s[1] == u32_bytes(b.fd as u32)[1]);
    assert(s[2] == u32_bytes(b.fd as u32)[2]);
    assert(s[3] == u32_bytes(b.fd as u32)[3]);
    lemma_le32_at(s, 0, b.fd as u32);
    assert(s[4] == u32_bytes(b.response)[0]);
    assert(s[5] == u32_bytes(b.response)[1]);
    assert(s[6] == u32_bytes(b.response)[2]);
    assert(s[7] == u32_bytes(b.response)[3]);
    lemma_le32_at(s, 4, b.response);
    lemma_u32_of_i32_roundtrip(a.fd);
    lemma_u32_of_i32_roundtrip(b.fd);
}

/// An allowing response and a denying response for the same
/// descriptor are two distinct whole 8-byte records: one write each,
/// never coalesced into anything shorter.
pub proof fn lemma_allow_deny_responses_distinct(fd: i32)
    ensures
        ({
            let allow = fanotify_response { fd, response: crate::flags::FAN_ALLOW };
            let deny = fanotify_response { fd, response: crate::flags::FAN_DENY };
            &&& enc_response(allow) != enc_response(deny)
            &&& enc_response(allow).len() == 8
            &&& enc_response(deny).len() == 8
        }),
{
    let allow = fanotify_response { fd, response: crate::flags::FAN_ALLOW };
    let deny = fanotify_response { fd, response: crate::flags::FAN_DENY };
    if enc_response(allow) == enc_response(deny) {
        lemma_enc_response_injective(allow, deny);
    }
}

} // verus!
