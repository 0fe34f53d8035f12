use naughtyfy::decode::{decode_events, decode_events_with_fid, events_from_read, events_with_fid_from_read};
use naughtyfy::encode::{encode_event_metadata, encode_event_with_fid, encode_response};
use naughtyfy::errors::{DecodeError, FanotifyError, ReadError};
use naughtyfy::flags::{
    EAGAIN, FAN_ALLOW, FAN_AUDIT, FAN_CREATE, FAN_DENY, FAN_EVENT_INFO_TYPE_DFID,
    FAN_EVENT_INFO_TYPE_DFID_NAME, FAN_EVENT_INFO_TYPE_FID, FAN_NOFD, FAN_Q_OVERFLOW,
};
use naughtyfy::records::{
    fanotify_event_metadata, fanotify_response, make_event_metadata, make_event_with_fid,
    make_fid_info,
};

fn header_bytes(event_len: u32, vers: u8, metadata_len: u16, mask: u64, fd: i32, pid: i32) -> Vec<u8> {
    let m = fanotify_event_metadata {
        event_len,
        vers,
        reserved: 0,
        metadata_len,
        mask,
        fd,
        pid,
    };
    encode_event_metadata(&m)
}

#[test]
fn decode_empty_buffer_yields_no_records() {
    let buf: Vec<u8> = Vec::new();
    let r = decode_events(&buf).unwrap();
    assert_eq!(r.len(), 0);
    let r = decode_events_with_fid(&buf).unwrap();
    assert_eq!(r.len(), 0);
}

#[test]
fn three_fixed_records_decode_in_order() {
    let masks: [u64; 3] = [0x20, 0x08, 0x4000];
    let mut buf: Vec<u8> = Vec::new();
    for (i, mask) in masks.iter().enumerate() {
        let m = make_event_metadata(*mask, 10 + i as i32, 100 + i as i32);
        buf.extend(encode_event_metadata(&m));
    }
    assert_eq!(buf.len(), 72);
    let r = decode_events(&buf).unwrap();
    assert_eq!(r.len(), 3);
    assert_eq!(r[0].mask, 0x20);
    assert_eq!(r[1].mask, 0x08);
    assert_eq!(r[2].mask, 0x4000);
    for rec in &r {
        assert_eq!(rec.event_len, 24);
        assert_eq!(rec.vers, 3);
        assert_eq!(rec.metadata_len, 24);
    }
    // the same buffer carries no extensions
    let rf = decode_events_with_fid(&buf).unwrap();
    assert_eq!(rf.len(), 3);
    for ev in &rf {
        assert_eq!(ev.fids.len(), 0);
    }
}

#[test]
fn fixed_record_fields_survive_roundtrip() {
    let m = make_event_metadata(FAN_CREATE, -1, 4242);
    let buf = encode_event_metadata(&m);
    let r = decode_events(&buf).unwrap();
    assert_eq!(r.len(), 1);
    assert_eq!(r[0].event_len, 24);
    assert_eq!(r[0].vers, 3);
    assert_eq!(r[0].reserved, 0);
    assert_eq!(r[0].metadata_len, 24);
    assert_eq!(r[0].mask, FAN_CREATE);
    assert_eq!(r[0].fd, -1);
    assert_eq!(r[0].pid, 4242);
}

#[test]
fn metadata_encoding_is_little_endian_layout() {
    let buf = header_bytes(24, 3, 24, 0x0102030405060708, 7, -2);
    let expected: Vec<u8> = vec![
        24, 0, 0, 0, // event_len
        3,  // vers
        0,  // reserved
        24, 0, // metadata_len
        0x08, 0x07, 0x06, 0x05, 0x04, 0x03, 0x02, 0x01, // mask
        7, 0, 0, 0, // fd
        0xfe, 0xff, 0xff, 0xff, // pid = -2
    ];
    assert_eq!(buf, expected);
}

#[test]
fn truncated_last_record_is_fatal() {
    // a whole record, then a header that declares more bytes than remain
    let mut buf = encode_event_metadata(&make_event_metadata(0x01, 3, 9));
    buf.extend(header_bytes(48, 3, 24, 0x02, 4, 9));
    assert_eq!(decode_events(&buf), Err(DecodeError::Truncated));
    assert_eq!(decode_events_with_fid(&buf), Err(DecodeError::Truncated));
}

#[test]
fn version_mismatch_is_fatal_despite_valid_lengths() {
    let buf = header_bytes(24, 2, 24, 0x01, 3, 9);
    assert_eq!(decode_events(&buf), Err(DecodeError::BadVersion));
    let mut two = encode_event_metadata(&make_event_metadata(0x01, 3, 9));
    two.extend(header_bytes(24, 7, 24, 0x02, 4, 9));
    assert_eq!(decode_events(&two), Err(DecodeError::BadVersion));
}

#[test]
fn inconsistent_header_lengths_are_fatal() {
    // header length shorter than the fixed header
    let buf = header_bytes(24, 3, 16, 0x01, 3, 9);
    assert_eq!(decode_events(&buf), Err(DecodeError::BadHeader));
    // total length shorter than the header length
    let buf = header_bytes(20, 3, 24, 0x01, 3, 9);
    assert_eq!(decode_events(&buf), Err(DecodeError::BadHeader));
}

#[test]
fn partial_trailing_header_is_silently_dropped() {
    let mut buf = encode_event_metadata(&make_event_metadata(0x100, 5, 77));
    buf.extend(vec![0u8; 10]);
    let r = decode_events(&buf).unwrap();
    assert_eq!(r.len(), 1);
    assert_eq!(r[0].mask, 0x100);
}

#[test]
fn fid_roundtrip_with_name() {
    let handle: Vec<u8> = vec![0xde, 0xad, 0xbe, 0xef, 0x01];
    let name: Vec<u8> = b"hello.txt".to_vec();
    let fid = make_fid_info(
        FAN_EVENT_INFO_TYPE_DFID_NAME,
        11,
        -22,
        1,
        handle.clone(),
        Some(name.clone()),
    )
    .unwrap();
    assert_eq!(fid.hdr.len % 8, 0);
    let ev = make_event_with_fid(FAN_CREATE, FAN_NOFD, 777, vec![fid]).unwrap();
    assert_eq!(ev.metadata.event_len, 24 + ev.fids[0].hdr.len as u32);
    let buf = encode_event_with_fid(&ev);
    assert_eq!(buf.len() % 8, 0);
    let r = decode_events_with_fid(&buf).unwrap();
    assert_eq!(r.len(), 1);
    assert_eq!(r[0].metadata.mask, FAN_CREATE);
    assert_eq!(r[0].metadata.fd, FAN_NOFD);
    assert_eq!(r[0].metadata.pid, 777);
    assert_eq!(r[0].fids.len(), 1);
    let f = &r[0].fids[0];
    assert_eq!(f.hdr.info_type, FAN_EVENT_INFO_TYPE_DFID_NAME);
    assert_eq!(f.fsid0, 11);
    assert_eq!(f.fsid1, -22);
    assert_eq!(f.handle_type, 1);
    assert_eq!(f.handle, handle);
    assert_eq!(f.name.as_ref().unwrap(), &name);
}

#[test]
fn fid_roundtrip_without_name() {
    let handle: Vec<u8> = vec![1, 2, 3, 4, 5, 6, 7, 8];
    let fid = make_fid_info(FAN_EVENT_INFO_TYPE_FID, 5, 6, 0, handle.clone(), None).unwrap();
    let ev = make_event_with_fid(0x20, FAN_NOFD, 1, vec![fid]).unwrap();
    let buf = encode_event_with_fid(&ev);
    let r = decode_events_with_fid(&buf).unwrap();
    assert_eq!(r.len(), 1);
    let f = &r[0].fids[0];
    assert_eq!(f.hdr.info_type, FAN_EVENT_INFO_TYPE_FID);
    assert_eq!(f.handle, handle);
    assert!(f.name.is_none());
}

#[test]
fn several_events_with_several_fids_roundtrip() {
    let f1 = make_fid_info(FAN_EVENT_INFO_TYPE_FID, 1, 2, 3, vec![9, 9], None).unwrap();
    let f2 = make_fid_info(
        FAN_EVENT_INFO_TYPE_DFID_NAME,
        4,
        5,
        6,
        vec![8],
        Some(b"dir".to_vec()),
    )
    .unwrap();
    let f3 = make_fid_info(FAN_EVENT_INFO_TYPE_DFID, 7, 8, 9, Vec::new(), None).unwrap();
    let e1 = make_event_with_fid(0x2, 1, 2, vec![f1, f2]).unwrap();
    let e2 = make_event_with_fid(0x4, 3, 4, vec![f3]).unwrap();
    let mut buf = encode_event_with_fid(&e1);
    buf.extend(encode_event_with_fid(&e2));
    let r = decode_events_with_fid(&buf).unwrap();
    assert_eq!(r.len(), 2);
    assert_eq!(r[0].fids.len(), 2);
    assert_eq!(r[1].fids.len(), 1);
    assert_eq!(r[0].fids[1].name.as_ref().unwrap(), b"dir");
    assert_eq!(r[1].fids[0].hdr.info_type, FAN_EVENT_INFO_TYPE_DFID);
    assert_eq!(r[1].fids[0].handle.len(), 0);
}

#[test]
fn metadata_decoder_steps_over_fid_bytes() {
    let fid = make_fid_info(FAN_EVENT_INFO_TYPE_FID, 1, 2, 3, vec![7, 7, 7], None).unwrap();
    let ev = make_event_with_fid(0x2, 5, 6, vec![fid]).unwrap();
    let mut buf = encode_event_with_fid(&ev);
    buf.extend(encode_event_metadata(&make_event_metadata(0x4, 8, 9)));
    let r = decode_events(&buf).unwrap();
    assert_eq!(r.len(), 2);
    assert_eq!(r[0].mask, 0x2);
    assert!(r[0].event_len > 24);
    assert_eq!(r[1].mask, 0x4);
}

#[test]
fn unknown_extension_kind_is_stepped_over() {
    let mut buf = header_bytes(32, 3, 24, 0x01, 3, 9);
    // a self-describing block of a kind this library does not model
    buf.extend(vec![42, 0, 8, 0, 0, 0, 0, 0]);
    let r = decode_events_with_fid(&buf).unwrap();
    assert_eq!(r.len(), 1);
    assert_eq!(r[0].fids.len(), 0);
}

#[test]
fn malformed_extension_is_fatal_for_the_fid_decoder_only() {
    let mut buf = header_bytes(30, 3, 24, 0x01, 3, 9);
    // block declares 3 bytes, less than its own header
    buf.extend(vec![1, 0, 3, 0, 0, 0]);
    assert_eq!(decode_events_with_fid(&buf), Err(DecodeError::BadExtension));
    // the metadata decoder steps over extension bytes untouched
    let r = decode_events(&buf).unwrap();
    assert_eq!(r.len(), 1);
}

#[test]
fn overrunning_extension_is_fatal() {
    let mut buf = header_bytes(32, 3, 24, 0x01, 3, 9);
    // block declares 16 bytes but only 8 remain inside the record
    buf.extend(vec![1, 0, 16, 0, 0, 0, 0, 0]);
    assert_eq!(decode_events_with_fid(&buf), Err(DecodeError::BadExtension));
}

#[test]
fn queue_overflow_record_is_recognized() {
    let m = make_event_metadata(FAN_Q_OVERFLOW, FAN_NOFD, 0);
    assert!(m.is_queue_overflow());
    assert_eq!(m.fd, FAN_NOFD);
    let plain = make_event_metadata(0x20, 5, 1);
    assert!(!plain.is_queue_overflow());
}

#[test]
fn responses_encode_as_distinct_fixed_writes() {
    let allow = fanotify_response { fd: 7, response: FAN_ALLOW };
    let deny = fanotify_response { fd: 7, response: FAN_DENY };
    let a = encode_response(&allow);
    let d = encode_response(&deny);
    assert_eq!(a.len(), 8);
    assert_eq!(d.len(), 8);
    assert_ne!(a, d);
    assert_eq!(a, vec![7, 0, 0, 0, 0x01, 0, 0, 0]);
    assert_eq!(d, vec![7, 0, 0, 0, 0x02, 0, 0, 0]);
    let audited = fanotify_response { fd: 7, response: FAN_DENY | FAN_AUDIT };
    assert_eq!(encode_response(&audited), vec![7, 0, 0, 0, 0x12, 0, 0, 0]);
}

#[test]
fn read_outcomes_are_mapped_to_read_errors() {
    assert_eq!(
        events_from_read(Err(EAGAIN)),
        Err(FanotifyError::Read(ReadError::WouldBlock))
    );
    assert_eq!(
        events_from_read(Err(9)),
        Err(FanotifyError::Read(ReadError::Os(9)))
    );
    let r = events_from_read(Ok(Vec::new())).unwrap();
    assert_eq!(r.len(), 0);
    let buf = header_bytes(24, 2, 24, 0x01, 3, 9);
    assert_eq!(
        events_from_read(Ok(buf)),
        Err(FanotifyError::Read(ReadError::Decode(DecodeError::BadVersion)))
    );
    let good = encode_event_metadata(&make_event_metadata(0x08, 2, 3));
    let r = events_from_read(Ok(good)).unwrap();
    assert_eq!(r.len(), 1);
    assert_eq!(r[0].mask, 0x08);
    assert_eq!(
        events_with_fid_from_read(Err(EAGAIN)),
        Err(FanotifyError::Read(ReadError::WouldBlock))
    );
    let rf = events_with_fid_from_read(Ok(Vec::new())).unwrap();
    assert_eq!(rf.len(), 0);
}

#[test]
fn fid_builder_rejects_bad_arguments() {
    // a null byte inside the name
    assert!(make_fid_info(
        FAN_EVENT_INFO_TYPE_DFID_NAME,
        0,
        0,
        0,
        vec![1],
        Some(vec![b'a', 0, b'b'])
    )
    .is_none());
    // a name on a kind that carries none
    assert!(make_fid_info(FAN_EVENT_INFO_TYPE_FID, 0, 0, 0, vec![1], Some(b"x".to_vec())).is_none());
    // the named kind without a name
    assert!(make_fid_info(FAN_EVENT_INFO_TYPE_DFID_NAME, 0, 0, 0, vec![1], None).is_none());
    // a kind that is not a file-identifier kind
    assert!(make_fid_info(9, 0, 0, 0, vec![1], None).is_none());
}
