use coerce::remote::net::codec::{
    CodecErr, Decoded, NetworkCodec, DEFAULT_MAX_FRAME_LEN, LENGTH_FIELD_LEN,
};

fn frame(codec: &NetworkCodec, payload: &[u8]) -> Vec<u8> {
    let mut dst = Vec::new();
    codec.encode(&payload.to_vec(), &mut dst).expect("encode");
    dst
}

#[test]
fn frame_is_big_endian_length_then_payload() {
    let codec = NetworkCodec::default();
    assert_eq!(codec.max_frame_len, DEFAULT_MAX_FRAME_LEN);
    assert_eq!(LENGTH_FIELD_LEN, 4);
    assert_eq!(frame(&codec, &[1, 2, 3]), vec![0, 0, 0, 3, 1, 2, 3]);
    assert_eq!(frame(&codec, &[]), vec![0, 0, 0, 0]);
    let long = vec![7u8; 0x01_02_03];
    let framed = frame(&codec, &long);
    assert_eq!(&framed[..4], &[0, 1, 2, 3]);
    assert_eq!(framed.len(), 4 + 0x01_02_03);
}

#[test]
fn encode_appends_to_what_is_there() {
    let codec = NetworkCodec::new(16);
    let mut dst = vec![9u8];
    codec.encode(&vec![5u8, 6], &mut dst).expect("encode");
    assert_eq!(dst, vec![9, 0, 0, 0, 2, 5, 6]);
}

#[test]
fn payload_over_the_limit_is_refused() {
    let codec = NetworkCodec::new(2);
    let mut dst = vec![1u8];
    assert_eq!(codec.encode(&vec![0u8; 3], &mut dst), Err(CodecErr::FrameTooLarge));
    assert_eq!(dst, vec![1]);
    assert!(codec.encode(&vec![0u8; 2], &mut dst).is_ok());
}

#[test]
fn decode_yields_one_frame_per_call() {
    let codec = NetworkCodec::default();
    let mut src = frame(&codec, b"ab");
    src.extend(frame(&codec, b"cde"));
    match codec.decode(&mut src) {
        Ok(Decoded::Frame(p)) => assert_eq!(p, b"ab".to_vec()),
        _ => panic!("first frame"),
    }
    assert_eq!(src, vec![0, 0, 0, 3, b'c', b'd', b'e']);
    match codec.decode(&mut src) {
        Ok(Decoded::Frame(p)) => assert_eq!(p, b"cde".to_vec()),
        _ => panic!("second frame"),
    }
    assert!(src.is_empty());
    assert!(matches!(codec.decode(&mut src), Ok(Decoded::Partial)));
}

#[test]
fn partial_frame_waits_for_the_rest() {
    let codec = NetworkCodec::default();
    let whole = frame(&codec, b"hello");
    for cut in 0..whole.len() {
        let mut src = whole[..cut].to_vec();
        assert!(matches!(codec.decode(&mut src), Ok(Decoded::Partial)));
        assert_eq!(src, whole[..cut].to_vec());
    }
    let mut src = whole.clone();
    assert!(matches!(codec.decode(&mut src), Ok(Decoded::Frame(_))));
}

#[test]
fn frame_that_announces_too_much_is_an_error() {
    let codec = NetworkCodec::new(4);
    let mut src = vec![0, 0, 0, 5, 1];
    assert!(matches!(codec.decode(&mut src), Err(CodecErr::FrameTooLarge)));
    assert_eq!(src, vec![0, 0, 0, 5, 1]);
    let mut src = vec![0xff, 0xff, 0xff, 0xff];
    assert!(matches!(codec.decode(&mut src), Err(CodecErr::FrameTooLarge)));
}

#[test]
fn round_trip_of_many_payloads() {
    let codec = NetworkCodec::default();
    for len in [0usize, 1, 2, 255, 256, 257, 65535, 65536, 70000] {
        let payload: Vec<u8> = (0..len).map(|i| (i % 251) as u8).collect();
        let mut src = frame(&codec, &payload);
        src.push(42);
        match codec.decode(&mut src) {
            Ok(Decoded::Frame(p)) => assert_eq!(p, payload),
            _ => panic!("frame of {} bytes", len),
        }
        assert_eq!(src, vec![42]);
    }
}
