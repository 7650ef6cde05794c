use rvideo::{
    check_frame, decode_frame, encode_frame, DecodeError, Error, Format, Frame, Greetings,
    StreamInfo, StreamSelect, API_VERSION, GREETING_LEN, GREETING_MAGIC, STREAM_INFO_LEN,
    STREAM_SELECT_LEN,
};
use std::sync::Arc;

#[test]
fn greeting_is_four_bytes_with_magic() {
    let greeting = Greetings { api_version: API_VERSION, streams_available: 1 };
    assert_eq!(greeting.encode(), vec![0x52, 0x01, 0x01, 0x00]);
    assert_eq!(GREETING_MAGIC, b'R');
    assert_eq!(GREETING_LEN, 4);
}

#[test]
fn greeting_stream_count_is_little_endian() {
    let greeting = Greetings { api_version: 1, streams_available: 0x1234 };
    assert_eq!(greeting.encode(), vec![0x52, 0x01, 0x34, 0x12]);
    let greeting = Greetings { api_version: 1, streams_available: 65535 };
    assert_eq!(greeting.encode(), vec![0x52, 0x01, 0xff, 0xff]);
}

#[test]
fn greeting_roundtrip_on_values() {
    for version in [0u8, 1, 2, 255] {
        for count in [0u16, 1, 255, 256, 4660, 65535] {
            let greeting = Greetings { api_version: version, streams_available: count };
            assert_eq!(Greetings::decode(&greeting.encode()), Ok(greeting));
        }
    }
}

#[test]
fn greeting_decode_ignores_what_follows() {
    assert_eq!(
        Greetings::decode(&[0x52, 1, 2, 0, 9, 9]),
        Ok(Greetings { api_version: 1, streams_available: 2 })
    );
}

#[test]
fn greeting_too_short_is_truncated() {
    assert_eq!(Greetings::decode(&[]), Err(Error::Decode(DecodeError::Truncated)));
    assert_eq!(Greetings::decode(&[0x52, 1, 0]), Err(Error::Decode(DecodeError::Truncated)));
}

#[test]
fn greeting_with_wrong_magic_is_refused() {
    assert_eq!(
        Greetings::decode(&[0x51, 1, 0, 0]),
        Err(Error::Decode(DecodeError::BadMagic(0x51)))
    );
}

#[test]
fn stream_select_is_three_bytes() {
    let select = StreamSelect { stream_id: 7, max_fps: 10 };
    assert_eq!(select.encode(), vec![0x07, 0x00, 0x0a]);
    assert_eq!(STREAM_SELECT_LEN, 3);
    let select = StreamSelect { stream_id: 0x0102, max_fps: 255 };
    assert_eq!(select.encode(), vec![0x02, 0x01, 0xff]);
}

#[test]
fn stream_select_roundtrip_on_values() {
    for id in [0u16, 1, 255, 256, 65535] {
        for fps in [1u8, 5, 255] {
            let select = StreamSelect { stream_id: id, max_fps: fps };
            assert_eq!(StreamSelect::decode(&select.encode()), Ok(select));
        }
    }
}

#[test]
fn stream_select_with_zero_rate_is_refused() {
    let select = StreamSelect { stream_id: 3, max_fps: 0 };
    assert_eq!(select.encode(), vec![3, 0, 0]);
    assert_eq!(
        StreamSelect::decode(&[3, 0, 0]),
        Err(Error::Decode(DecodeError::ZeroFrameRate))
    );
}

#[test]
fn stream_select_too_short_is_truncated() {
    assert_eq!(StreamSelect::decode(&[1, 0]), Err(Error::Decode(DecodeError::Truncated)));
}

#[test]
fn stream_info_is_seven_bytes() {
    let info = StreamInfo { id: 0, format: Format::Rgb8, width: 4, height: 2 };
    assert_eq!(info.encode(), vec![0x00, 0x00, 0x04, 0x04, 0x00, 0x02, 0x00]);
    assert_eq!(STREAM_INFO_LEN, 7);
    let info = StreamInfo { id: 258, format: Format::MJpeg, width: 640, height: 480 };
    assert_eq!(info.encode(), vec![0x02, 0x01, 0x40, 0x80, 0x02, 0xe0, 0x01]);
}

#[test]
fn stream_info_roundtrip_on_values() {
    let formats = [
        Format::Luma8,
        Format::Luma16,
        Format::LumaA8,
        Format::LumaA16,
        Format::Rgb8,
        Format::Rgb16,
        Format::Rgba8,
        Format::Rgba16,
        Format::MJpeg,
    ];
    for format in formats {
        for id in [0u16, 513, 65535] {
            let info = StreamInfo { id, format, width: 1920, height: 1080 };
            assert_eq!(StreamInfo::decode(&info.encode()), Ok(info));
        }
    }
}

#[test]
fn stream_info_with_unknown_format_is_refused() {
    assert_eq!(
        StreamInfo::decode(&[0, 0, 8, 4, 0, 2, 0]),
        Err(Error::Decode(DecodeError::UnknownFormat(8)))
    );
    assert_eq!(
        StreamInfo::decode(&[0, 0, 255, 4, 0, 2, 0]),
        Err(Error::Decode(DecodeError::UnknownFormat(255)))
    );
}

#[test]
fn stream_info_too_short_is_truncated() {
    assert_eq!(
        StreamInfo::decode(&[0, 0, 4, 4, 0, 2]),
        Err(Error::Decode(DecodeError::Truncated))
    );
}

#[test]
fn format_tags_follow_the_table() {
    let table = [
        (Format::Luma8, 0u8),
        (Format::Luma16, 1),
        (Format::LumaA8, 2),
        (Format::LumaA16, 3),
        (Format::Rgb8, 4),
        (Format::Rgb16, 5),
        (Format::Rgba8, 6),
        (Format::Rgba16, 7),
        (Format::MJpeg, 64),
    ];
    for (format, tag) in table {
        assert_eq!(format.to_wire(), tag);
        assert_eq!(Format::from_wire(tag), Some(format));
    }
}

#[test]
fn format_tags_outside_the_table_are_unknown() {
    for tag in 0u8..=255 {
        let known = tag <= 7 || tag == 64;
        assert_eq!(Format::from_wire(tag).is_some(), known);
    }
}

#[test]
fn frame_without_metadata_on_the_wire() {
    let data: Vec<u8> = (1u8..=24).collect();
    let frame = Frame::new(Arc::new(data.clone()));
    let mut expected = vec![0u8, 0, 0, 0, 0x18, 0, 0, 0];
    expected.extend_from_slice(&data);
    assert_eq!(encode_frame(&frame), Ok(expected));
}

#[test]
fn frame_with_metadata_on_the_wire() {
    let frame = Frame::new_with_metadata(Arc::new(vec![0xaa, 0xbb, 0xcc]), Arc::new(vec![0xff]));
    assert_eq!(
        encode_frame(&frame),
        Ok(vec![0x03, 0, 0, 0, 0xaa, 0xbb, 0xcc, 0x01, 0, 0, 0, 0xff])
    );
}

#[test]
fn frame_lengths_are_little_endian() {
    let frame = Frame::new(Arc::new(vec![7u8; 0x0102_03]));
    let bytes = encode_frame(&frame).unwrap();
    assert_eq!(bytes.len(), 8 + 0x0102_03);
    assert_eq!(&bytes[..8], &[0, 0, 0, 0, 0x03, 0x02, 0x01, 0x00]);
}

#[test]
fn frame_roundtrip_on_values() {
    let cases: Vec<(Option<Vec<u8>>, Vec<u8>)> = vec![
        (None, vec![]),
        (None, vec![1, 2, 3]),
        (Some(vec![9]), vec![]),
        (Some(vec![0xaa, 0xbb, 0xcc]), vec![0xff]),
        (Some(vec![5; 300]), vec![6; 70000]),
    ];
    for (metadata, data) in cases {
        let frame = match &metadata {
            Some(m) => Frame::new_with_metadata(Arc::new(m.clone()), Arc::new(data.clone())),
            None => Frame::new(Arc::new(data.clone())),
        };
        let bytes = encode_frame(&frame).unwrap();
        let (decoded, used) = decode_frame(&bytes).unwrap();
        assert_eq!(used, bytes.len());
        assert_eq!(decoded.metadata.as_ref().map(|m| m.as_ref().clone()), metadata);
        assert_eq!(decoded.data.as_ref(), &data);
    }
}

#[test]
fn frame_decode_reports_bytes_used() {
    let bytes = [1u8, 0, 0, 0, 0x11, 2, 0, 0, 0, 0x21, 0x22, 0x99, 0x98];
    let (frame, used) = decode_frame(&bytes).unwrap();
    assert_eq!(used, 11);
    assert_eq!(frame.metadata.unwrap().as_ref(), &vec![0x11]);
    assert_eq!(frame.data.as_ref(), &vec![0x21, 0x22]);
}

#[test]
fn empty_metadata_travels_as_no_metadata() {
    let frame = Frame::new_with_metadata(Arc::new(vec![]), Arc::new(vec![1]));
    let bytes = encode_frame(&frame).unwrap();
    assert_eq!(bytes, vec![0, 0, 0, 0, 1, 0, 0, 0, 1]);
    let (decoded, _) = decode_frame(&bytes).unwrap();
    assert!(decoded.metadata.is_none());
}

#[test]
fn frame_cut_short_is_truncated() {
    let whole = vec![0x03u8, 0, 0, 0, 0xaa, 0xbb, 0xcc, 0x01, 0, 0, 0, 0xff];
    for cut in 0..whole.len() {
        assert_eq!(
            decode_frame(&whole[..cut]).map(|(_, used)| used),
            Err(Error::Decode(DecodeError::Truncated))
        );
    }
    assert!(decode_frame(&whole).is_ok());
}

#[test]
fn frame_with_huge_announced_length_is_truncated() {
    let bytes = [0xffu8, 0xff, 0xff, 0xff, 1, 2, 3, 4, 5, 6, 7, 8];
    assert_eq!(
        decode_frame(&bytes).map(|(_, used)| used),
        Err(Error::Decode(DecodeError::Truncated))
    );
    let bytes = [0u8, 0, 0, 0, 0xff, 0xff, 0xff, 0xff, 5, 6, 7, 8];
    assert_eq!(
        decode_frame(&bytes).map(|(_, used)| used),
        Err(Error::Decode(DecodeError::Truncated))
    );
}

#[test]
fn small_frames_pass_the_size_check() {
    assert_eq!(check_frame(&Frame::new(Arc::new(vec![]))), Ok(()));
    assert_eq!(
        check_frame(&Frame::new_with_metadata(Arc::new(vec![1]), Arc::new(vec![2, 3]))),
        Ok(())
    );
}
