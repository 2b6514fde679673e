use bytes::BytesMut;
use ldap_codec::controls::RawControl;
use ldap_codec::error::CodecError;
use ldap_codec::protocol::{scan_frame, ControlParser, FrameScan, LdapCodec, Message};
use ldap_codec::tag::{Payload, Tag, TagClass};

fn bind_request() -> Tag {
    Tag { class: TagClass::Application, id: 0, payload: Payload::Constructed(vec![]) }
}

fn search_entry() -> Tag {
    Tag {
        class: TagClass::Application,
        id: 4,
        payload: Payload::Constructed(vec![Tag {
            class: TagClass::Universal,
            id: 4,
            payload: Payload::Primitive(b"cn=a".to_vec()),
        }]),
    }
}

fn paged(crit: bool, val: Option<Vec<u8>>) -> RawControl {
    RawControl { ctype: "1.2.840.113556.1.4.319".to_string(), crit, val }
}

fn encoded(id: i32, op: Tag, controls: Option<Vec<RawControl>>) -> Vec<u8> {
    let mut buf = BytesMut::new();
    LdapCodec.encode((id, op, controls), &mut buf).unwrap();
    buf.to_vec()
}

fn decoded(bytes: &[u8]) -> Result<Option<Message>, CodecError> {
    let mut buf = BytesMut::from(bytes);
    LdapCodec.decode(&mut buf)
}

#[test]
fn bind_request_round_trip() {
    let mut buf = BytesMut::new();
    LdapCodec.encode((1, bind_request(), None), &mut buf).unwrap();
    let msg = LdapCodec.decode(&mut buf).unwrap().unwrap();
    assert_eq!(msg.id, 1);
    assert_eq!(msg.op, bind_request());
    assert_eq!(msg.controls, vec![]);
    assert_eq!(msg.parser, ControlParser::Generic);
    assert_eq!(buf.len(), 0);
}

#[test]
fn bind_request_bytes() {
    assert_eq!(encoded(1, bind_request(), None), vec![0x30, 0x05, 0x02, 0x01, 0x01, 0x60, 0x00]);
}

#[test]
fn encode_appends_behind_what_is_there() {
    let mut buf = BytesMut::from(&[0xAAu8, 0xBB][..]);
    LdapCodec.encode((1, bind_request(), None), &mut buf).unwrap();
    assert_eq!(buf.to_vec(), vec![0xAA, 0xBB, 0x30, 0x05, 0x02, 0x01, 0x01, 0x60, 0x00]);
}

#[test]
fn message_id_bytes() {
    assert_eq!(encoded(0, bind_request(), None)[2..5], [0x02, 0x01, 0x00]);
    assert_eq!(encoded(127, bind_request(), None)[2..5], [0x02, 0x01, 0x7F]);
    assert_eq!(encoded(128, bind_request(), None)[2..6], [0x02, 0x02, 0x00, 0x80]);
    assert_eq!(encoded(1616, bind_request(), None)[2..6], [0x02, 0x02, 0x06, 0x50]);
    assert_eq!(encoded(65536, bind_request(), None)[2..7], [0x02, 0x03, 0x01, 0x00, 0x00]);
    assert_eq!(
        encoded(i32::MAX, bind_request(), None)[2..8],
        [0x02, 0x04, 0x7F, 0xFF, 0xFF, 0xFF]
    );
    assert_eq!(encoded(255, bind_request(), None)[2..6], [0x02, 0x02, 0x00, 0xFF]);
    assert_eq!(encoded(8388608, bind_request(), None)[2..8], [0x02, 0x04, 0x00, 0x80, 0x00, 0x00]);
}

#[test]
fn negative_message_id_bytes() {
    assert_eq!(encoded(-1, bind_request(), None)[2..5], [0x02, 0x01, 0xFF]);
    assert_eq!(encoded(-128, bind_request(), None)[2..5], [0x02, 0x01, 0x80]);
    assert_eq!(encoded(-129, bind_request(), None)[2..5], [0x02, 0x01, 0x7F]);
    assert_eq!(encoded(-256, bind_request(), None)[2..6], [0x02, 0x02, 0xFF, 0x00]);
    assert_eq!(
        encoded(i32::MIN, bind_request(), None)[2..8],
        [0x02, 0x04, 0x80, 0x00, 0x00, 0x00]
    );
}

#[test]
fn ids_that_are_not_negative_come_back() {
    for id in [0, 1, 127, 128, 255, 256, 32767, 32768, 65535, 65536, 8388608, 16777216, i32::MAX] {
        let msg = decoded(&encoded(id, bind_request(), None)).unwrap().unwrap();
        assert_eq!(msg.id, id);
    }
}

#[test]
fn short_negative_id_does_not_come_back() {
    let msg = decoded(&encoded(-1, bind_request(), None)).unwrap().unwrap();
    assert_eq!(msg.id, 255);
    let msg = decoded(&encoded(-16777215, bind_request(), None)).unwrap().unwrap();
    assert_eq!(msg.id, 1);
}

#[test]
fn negative_id_of_four_bytes_comes_back() {
    for id in [-16777216, -16777217, -1000000000, i32::MIN + 1, i32::MIN] {
        let msg = decoded(&encoded(id, bind_request(), None)).unwrap().unwrap();
        assert_eq!(msg.id, id);
    }
}

#[test]
fn message_id_keeps_low_32_bits() {
    let frame = [0x30, 0x09, 0x02, 0x05, 0x01, 0x00, 0x00, 0x00, 0x05, 0x60, 0x00];
    assert_eq!(decoded(&frame).unwrap().unwrap().id, 5);
    let frame = [0x30, 0x08, 0x02, 0x04, 0xFF, 0xFF, 0xFF, 0xFF, 0x60, 0x00];
    assert_eq!(decoded(&frame).unwrap().unwrap().id, -1);
    let frame = [0x30, 0x08, 0x02, 0x04, 0x80, 0x00, 0x00, 0x00, 0x60, 0x00];
    assert_eq!(decoded(&frame).unwrap().unwrap().id, i32::MIN);
    let frame = [0x30, 0x04, 0x02, 0x00, 0x60, 0x00];
    assert_eq!(decoded(&frame).unwrap().unwrap().id, 0);
    let frame = [0x30, 0x0D, 0x02, 0x09, 0x01, 0x00, 0x00, 0x00, 0x00, 0x00, 0x00, 0x00, 0x07, 0x60, 0x00];
    assert_eq!(decoded(&frame).unwrap().unwrap().id, 7);
}

#[test]
fn controls_round_trip() {
    let controls = vec![
        paged(false, None),
        paged(true, None),
        paged(false, Some(vec![1, 2, 3])),
        paged(true, Some(vec![])),
        RawControl { ctype: "1.3.6.1.1.13.2".to_string(), crit: true, val: Some(vec![0x30, 0x00]) },
    ];
    let mut buf = BytesMut::new();
    LdapCodec.encode((7, search_entry(), Some(controls.clone())), &mut buf).unwrap();
    let msg = LdapCodec.decode(&mut buf).unwrap().unwrap();
    assert_eq!(msg.id, 7);
    assert_eq!(msg.op, search_entry());
    assert_eq!(msg.controls, controls);
    assert_eq!(msg.parser, ControlParser::Generic);
}

#[test]
fn empty_controls_round_trip() {
    let bytes = encoded(2, bind_request(), Some(vec![]));
    assert_eq!(bytes, vec![0x30, 0x07, 0x02, 0x01, 0x02, 0x60, 0x00, 0xA0, 0x00]);
    let msg = decoded(&bytes).unwrap().unwrap();
    assert_eq!(msg.id, 2);
    assert_eq!(msg.controls, vec![]);
}

#[test]
fn control_bytes() {
    let control = RawControl { ctype: "1.2".to_string(), crit: true, val: Some(vec![9]) };
    let bytes = encoded(3, bind_request(), Some(vec![control]));
    assert_eq!(
        bytes,
        vec![
            0x30, 0x14, 0x02, 0x01, 0x03, 0x60, 0x00, 0xA0, 0x0D, 0x30, 0x0B, 0x04, 0x03, b'1',
            b'.', b'2', 0x01, 0x01, 0xFF, 0x04, 0x01, 0x09,
        ]
    );
}

#[test]
fn bind_response_controls_go_to_their_parser() {
    let op = Tag { class: TagClass::Application, id: 1, payload: Payload::Constructed(vec![]) };
    let msg = decoded(&encoded(4, op.clone(), Some(vec![paged(false, None)]))).unwrap().unwrap();
    assert_eq!(msg.parser, ControlParser::BindResponse);
    assert_eq!(msg.controls, vec![paged(false, None)]);
    let msg = decoded(&encoded(4, op, None)).unwrap().unwrap();
    assert_eq!(msg.parser, ControlParser::Generic);
    assert_eq!(msg.controls, vec![]);
}

#[test]
fn every_truncation_waits_and_consumes_nothing() {
    let frame = encoded(
        9,
        search_entry(),
        Some(vec![paged(true, Some(vec![0; 200])), paged(false, None)]),
    );
    assert!(frame.len() > 200);
    for cut in 0..frame.len() {
        let mut buf = BytesMut::from(&frame[..cut]);
        assert_eq!(LdapCodec.decode(&mut buf), Ok(None));
        assert_eq!(&buf[..], &frame[..cut]);
    }
    let mut buf = BytesMut::from(&frame[..]);
    assert!(LdapCodec.decode(&mut buf).unwrap().is_some());
    assert_eq!(buf.len(), 0);
}

#[test]
fn two_frames_in_one_chunk() {
    let first = encoded(1, bind_request(), None);
    let second = encoded(2, search_entry(), Some(vec![paged(true, None)]));
    let mut buf = BytesMut::new();
    buf.extend_from_slice(&first);
    buf.extend_from_slice(&second);
    let one = LdapCodec.decode(&mut buf).unwrap().unwrap();
    assert_eq!(&buf[..], &second[..]);
    let two = LdapCodec.decode(&mut buf).unwrap().unwrap();
    assert_eq!(buf.len(), 0);
    assert_eq!((one.id, one.op), (1, bind_request()));
    assert_eq!(Some(two), decoded(&second).unwrap());
    assert_eq!(LdapCodec.decode(&mut buf), Ok(None));
}

#[test]
fn frame_and_a_half() {
    let first = encoded(1, bind_request(), None);
    let second = encoded(2, search_entry(), None);
    let mut buf = BytesMut::new();
    buf.extend_from_slice(&first);
    buf.extend_from_slice(&second[..3]);
    assert_eq!(LdapCodec.decode(&mut buf).unwrap().unwrap().id, 1);
    assert_eq!(LdapCodec.decode(&mut buf), Ok(None));
    assert_eq!(&buf[..], &second[..3]);
    buf.extend_from_slice(&second[3..]);
    assert_eq!(LdapCodec.decode(&mut buf).unwrap().unwrap().id, 2);
}

#[test]
fn outer_element_must_be_a_universal_sequence() {
    // a SET
    assert_eq!(decoded(&[0x31, 0x05, 0x02, 0x01, 0x01, 0x60, 0x00]), Err(CodecError::Decoding));
    // an INTEGER
    assert_eq!(decoded(&[0x02, 0x01, 0x05]), Err(CodecError::Decoding));
    // number 16 in the application class
    assert_eq!(decoded(&[0x70, 0x05, 0x02, 0x01, 0x01, 0x60, 0x00]), Err(CodecError::Decoding));
    // number 16, universal, but primitive
    assert_eq!(decoded(&[0x10, 0x05, 0x02, 0x01, 0x01, 0x60, 0x00]), Err(CodecError::Decoding));
}

#[test]
fn failed_frame_has_left_the_buffer() {
    let mut buf = BytesMut::from(&[0x02u8, 0x01, 0x05, 0x30, 0x05, 0x02, 0x01, 0x01, 0x60, 0x00][..]);
    assert_eq!(LdapCodec.decode(&mut buf), Err(CodecError::Decoding));
    assert_eq!(buf.len(), 7);
    assert_eq!(LdapCodec.decode(&mut buf).unwrap().unwrap().id, 1);
}

#[test]
fn missing_message_id() {
    // operation and controls only
    assert_eq!(decoded(&[0x30, 0x04, 0x60, 0x00, 0xA0, 0x00]), Err(CodecError::Decoding));
    // operation only
    assert_eq!(decoded(&[0x30, 0x02, 0x60, 0x00]), Err(CodecError::Decoding));
    // nothing
    assert_eq!(decoded(&[0x30, 0x00]), Err(CodecError::Decoding));
    // controls only
    assert_eq!(decoded(&[0x30, 0x02, 0xA0, 0x00]), Err(CodecError::Decoding));
    // id and notice, no operation
    assert_eq!(decoded(&[0x30, 0x05, 0x02, 0x01, 0x01, 0x8A, 0x00]), Err(CodecError::Decoding));
    // an OCTET STRING where the id belongs
    assert_eq!(decoded(&[0x30, 0x05, 0x04, 0x01, 0x01, 0x60, 0x00]), Err(CodecError::Decoding));
    // a constructed INTEGER
    assert_eq!(decoded(&[0x30, 0x04, 0x22, 0x00, 0x60, 0x00]), Err(CodecError::Decoding));
}

#[test]
fn misplaced_notice_is_dropped() {
    let plain = [0x30, 0x05, 0x02, 0x01, 0x00, 0x78, 0x00];
    let noticed = [0x30, 0x0A, 0x02, 0x01, 0x00, 0x78, 0x00, 0x8A, 0x03, b'1', b'.', b'2'];
    let msg = decoded(&noticed).unwrap().unwrap();
    assert_eq!(msg.id, 0);
    assert_eq!(msg.op, Tag { class: TagClass::Application, id: 24, payload: Payload::Constructed(vec![]) });
    assert_eq!(msg.controls, vec![]);
    assert_eq!(Some(msg), decoded(&plain).unwrap());
    // constructed, it is dropped as well
    let noticed = [0x30, 0x07, 0x02, 0x01, 0x00, 0x78, 0x00, 0xAA, 0x00];
    assert_eq!(decoded(&noticed), decoded(&plain));
}

#[test]
fn notice_behind_controls_is_an_error() {
    let frame = [0x30, 0x09, 0x02, 0x01, 0x00, 0x78, 0x00, 0xA0, 0x00, 0x8A, 0x00];
    assert_eq!(decoded(&frame), Err(CodecError::Decoding));
}

#[test]
fn other_shapes_are_errors() {
    // primitive element where the controls belong
    assert_eq!(decoded(&[0x30, 0x07, 0x02, 0x01, 0x01, 0x60, 0x00, 0x80, 0x00]), Err(CodecError::Decoding));
    // an operation outside the application class
    assert_eq!(decoded(&[0x30, 0x05, 0x02, 0x01, 0x01, 0x30, 0x00]), Err(CodecError::Decoding));
    assert_eq!(decoded(&[0x30, 0x05, 0x02, 0x01, 0x01, 0xA1, 0x00]), Err(CodecError::Decoding));
    // something before the id
    assert_eq!(decoded(&[0x30, 0x07, 0x05, 0x00, 0x02, 0x01, 0x01, 0x60, 0x00]), Err(CodecError::Decoding));
    // a third element that is neither controls nor notice
    assert_eq!(decoded(&[0x30, 0x07, 0x02, 0x01, 0x01, 0x60, 0x00, 0x60, 0x00]), Err(CodecError::Decoding));
}

#[test]
fn malformed_controls_are_errors() {
    let frame = |control: &[u8]| {
        let mut bytes = vec![0x30, (7 + control.len()) as u8, 0x02, 0x01, 0x01, 0x60, 0x00, 0xA0, control.len() as u8];
        bytes.extend_from_slice(control);
        bytes
    };
    // a well-formed one, to hold the others against
    assert!(decoded(&frame(&[0x30, 0x03, 0x04, 0x01, b'1'])).unwrap().is_some());
    // not a SEQUENCE
    assert_eq!(decoded(&frame(&[0x31, 0x03, 0x04, 0x01, b'1'])), Err(CodecError::Decoding));
    // no identifier
    assert_eq!(decoded(&frame(&[0x30, 0x00])), Err(CodecError::Decoding));
    // the identifier is not UTF-8
    assert_eq!(decoded(&frame(&[0x30, 0x03, 0x04, 0x01, 0xFF])), Err(CodecError::Decoding));
    // the identifier is no OCTET STRING
    assert_eq!(decoded(&frame(&[0x30, 0x03, 0x02, 0x01, b'1'])), Err(CodecError::Decoding));
    // a BOOLEAN of two bytes
    assert_eq!(decoded(&frame(&[0x30, 0x07, 0x04, 0x01, b'1', 0x01, 0x02, 0xFF, 0xFF])), Err(CodecError::Decoding));
    // value before criticality
    assert_eq!(decoded(&frame(&[0x30, 0x08, 0x04, 0x01, b'1', 0x04, 0x00, 0x01, 0x01, 0xFF])), Err(CodecError::Decoding));
    // four parts
    assert_eq!(
        decoded(&frame(&[0x30, 0x0A, 0x04, 0x01, b'1', 0x01, 0x01, 0xFF, 0x04, 0x00, 0x04, 0x00])),
        Err(CodecError::Decoding)
    );
}

#[test]
fn criticality_written_out_as_false() {
    let frame = [0x30, 0x0F, 0x02, 0x01, 0x01, 0x60, 0x00, 0xA0, 0x08, 0x30, 0x06, 0x04, 0x01, b'1', 0x01, 0x01, 0x00];
    let msg = decoded(&frame).unwrap().unwrap();
    assert_eq!(msg.controls, vec![RawControl { ctype: "1".to_string(), crit: false, val: None }]);
}

#[test]
fn element_that_overruns_its_frame_waits() {
    let mut buf = BytesMut::from(&[0x30u8, 0x03, 0x02, 0x05, 0x00][..]);
    assert_eq!(LdapCodec.decode(&mut buf), Ok(None));
    assert_eq!(buf.len(), 5);
}

#[test]
fn error_messages() {
    assert_eq!(CodecError::Decoding.message(), "decoding error");
    assert_eq!(CodecError::Encoding.message(), "encoding error");
}

#[test]
fn scan_frame_gives_length_and_tree() {
    let bytes = [0x30, 0x05, 0x02, 0x01, 0x01, 0x60, 0x00, 0x30];
    let expected = Tag {
        class: TagClass::Universal,
        id: 16,
        payload: Payload::Constructed(vec![
            Tag { class: TagClass::Universal, id: 2, payload: Payload::Primitive(vec![1]) },
            bind_request(),
        ]),
    };
    assert_eq!(scan_frame(&bytes), FrameScan::Complete(7, expected));
    assert_eq!(scan_frame(&bytes[..6]), FrameScan::Incomplete);
    assert_eq!(scan_frame(&[]), FrameScan::Incomplete);
    assert_eq!(
        scan_frame(&[0xDF, 0x03, 1, 2, 3]),
        FrameScan::Complete(
            5,
            Tag { class: TagClass::Private, id: 31, payload: Payload::Primitive(vec![1, 2, 3]) }
        )
    );
}

#[test]
fn long_lengths() {
    let op = Tag {
        class: TagClass::Application,
        id: 3,
        payload: Payload::Primitive(vec![0x55; 70000]),
    };
    let bytes = encoded(1, op.clone(), None);
    assert_eq!(bytes[..5], [0x30, 0x83, 0x01, 0x11, 0x78]);
    assert_eq!(bytes[5..8], [0x02, 0x01, 0x01]);
    assert_eq!(bytes[8..13], [0x43, 0x83, 0x01, 0x11, 0x70]);
    assert_eq!(bytes.len(), 70013);
    let msg = decoded(&bytes).unwrap().unwrap();
    assert_eq!(msg.op, op);
}
