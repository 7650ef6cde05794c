use rvideo::{
    format_value, vec_u8_to_vec_u16, with_default_port, BoundingBox, Format, Frame, MetaField,
    MetaValue, StreamInfo, DEFAULT_PORT,
};
use std::sync::Arc;

#[test]
fn samples_are_read_little_endian() {
    assert_eq!(vec_u8_to_vec_u16(vec![1, 2, 3, 4]), vec![0x0201, 0x0403]);
    assert_eq!(vec_u8_to_vec_u16(vec![0xff, 0xff, 0, 0x80]), vec![0xffff, 0x8000]);
}

#[test]
fn odd_last_byte_holds_no_sample() {
    assert_eq!(vec_u8_to_vec_u16(vec![1, 2, 3]), vec![0x0201]);
    assert_eq!(vec_u8_to_vec_u16(vec![9]), Vec::<u16>::new());
    assert_eq!(vec_u8_to_vec_u16(vec![]), Vec::<u16>::new());
}

#[test]
fn stream_info_as_text() {
    let info = StreamInfo { id: 0, format: Format::Rgb8, width: 4, height: 2 };
    assert_eq!(info.to_string(), "#0, WxH: 4x2, Fmt: Rgb8");
    let info = StreamInfo { id: 65535, format: Format::MJpeg, width: 640, height: 480 };
    assert_eq!(info.to_string(), "#65535, WxH: 640x480, Fmt: MJpeg");
    let info = StreamInfo { id: 10, format: Format::LumaA16, width: 1009, height: 100 };
    assert_eq!(info.to_string(), "#10, WxH: 1009x100, Fmt: LumaA16");
}

#[test]
fn format_names() {
    let names = [
        (Format::Luma8, "Luma8"),
        (Format::Luma16, "Luma16"),
        (Format::LumaA8, "LumaA8"),
        (Format::LumaA16, "LumaA16"),
        (Format::Rgb8, "Rgb8"),
        (Format::Rgb16, "Rgb16"),
        (Format::Rgba8, "Rgba8"),
        (Format::Rgba16, "Rgba16"),
        (Format::MJpeg, "MJpeg"),
    ];
    for (format, name) in names {
        assert_eq!(format.as_str(), name);
        assert_eq!(format!("{:?}", format), name);
    }
}

#[test]
fn frame_new_has_no_metadata() {
    let data = Arc::new(vec![1u8, 2, 3]);
    let frame = Frame::new(data.clone());
    assert!(frame.metadata.is_none());
    assert!(Arc::ptr_eq(&frame.data, &data));
}

#[test]
fn frame_new_with_metadata_keeps_both() {
    let metadata = Arc::new(vec![9u8]);
    let data = Arc::new(vec![1u8, 2, 3]);
    let frame = Frame::new_with_metadata(metadata.clone(), data.clone());
    assert!(Arc::ptr_eq(frame.metadata.as_ref().unwrap(), &metadata));
    assert!(Arc::ptr_eq(&frame.data, &data));
}

#[test]
fn frame_from_bytes() {
    let frame: Frame = vec![1u8, 2].into();
    assert!(frame.metadata.is_none());
    assert_eq!(frame.data.as_ref(), &vec![1, 2]);
    let shared = Arc::new(vec![3u8]);
    let frame = Frame::from(shared.clone());
    assert!(frame.metadata.is_none());
    assert!(Arc::ptr_eq(&frame.data, &shared));
}

#[test]
fn frame_clone_shares_the_buffers() {
    let frame = Frame::new_with_metadata(Arc::new(vec![9u8]), Arc::new(vec![1u8, 2, 3]));
    let copy = frame.clone();
    assert!(Arc::ptr_eq(&frame.data, &copy.data));
    assert!(Arc::ptr_eq(frame.metadata.as_ref().unwrap(), copy.metadata.as_ref().unwrap()));
}

#[test]
fn bounding_box_holds_its_fields() {
    let bbox = BoundingBox { color: [255, 0, 0], x: 100, y: 300, width: 100, height: 50 };
    let copy = bbox;
    assert_eq!(copy, bbox);
    assert_eq!(copy.color, [255, 0, 0]);
    assert_eq!((copy.x, copy.y, copy.width, copy.height), (100, 300, 100, 50));
}

fn number(text: &str) -> MetaValue {
    MetaValue::Number(text.to_string())
}

fn field(key: &str, value: MetaValue) -> MetaField {
    MetaField { key: key.to_string(), value }
}

#[test]
fn plain_metadata_values_stand_for_themselves() {
    assert_eq!(format_value(&MetaValue::Null, "\n"), "null");
    assert_eq!(format_value(&MetaValue::Bool(true), "\n"), "true");
    assert_eq!(format_value(&MetaValue::Bool(false), "\n"), "false");
    assert_eq!(format_value(&number("-12.5"), "\n"), "-12.5");
    assert_eq!(format_value(&MetaValue::String("a b".to_string()), "\n"), "a b");
}

#[test]
fn metadata_lists_are_joined_with_semicolons() {
    let list = MetaValue::Array(vec![number("1"), MetaValue::Null, MetaValue::Bool(true)]);
    assert_eq!(format_value(&list, "\n"), "1; null; true");
    assert_eq!(format_value(&MetaValue::Array(vec![]), "\n"), "");
    assert_eq!(format_value(&MetaValue::Array(vec![number("7")]), "\n"), "7");
    let nested = MetaValue::Array(vec![
        MetaValue::Array(vec![number("1"), number("2")]),
        MetaValue::Array(vec![number("3")]),
    ]);
    assert_eq!(format_value(&nested, "\n"), "1; 2; 3");
}

#[test]
fn metadata_maps_are_joined_with_the_given_separator() {
    let map = MetaValue::Object(vec![
        field("source", MetaValue::String("test".to_string())),
        field("frame_number", number("5")),
    ]);
    assert_eq!(format_value(&map, "\n"), "source: test\nframe_number: 5");
    assert_eq!(format_value(&map, ","), "source: test,frame_number: 5");
    assert_eq!(format_value(&MetaValue::Object(vec![]), "\n"), "");
}

#[test]
fn metadata_inside_lists_and_maps_is_joined_with_commas() {
    let value = MetaValue::Object(vec![
        field("a", number("1")),
        field(
            "b",
            MetaValue::Array(vec![
                MetaValue::Bool(true),
                MetaValue::Object(vec![field("x", number("2")), field("y", number("3"))]),
            ]),
        ),
        field(
            "c",
            MetaValue::Object(vec![
                field("d", number("2.5")),
                field("e", MetaValue::Array(vec![])),
            ]),
        ),
    ]);
    assert_eq!(format_value(&value, "\n"), "a: 1\nb: true; x: 2,y: 3\nc: d: 2.5,e: ");
}

#[test]
fn bare_host_gets_the_default_port() {
    assert_eq!(DEFAULT_PORT, 3001);
    assert_eq!(with_default_port("localhost"), "localhost:3001");
    assert_eq!(with_default_port("192.168.1.5"), "192.168.1.5:3001");
    assert_eq!(with_default_port(""), ":3001");
}

#[test]
fn host_with_port_is_taken_as_it_is() {
    assert_eq!(with_default_port("localhost:4000"), "localhost:4000");
    assert_eq!(with_default_port("[::1]:3001"), "[::1]:3001");
    assert_eq!(with_default_port("h\u{f6}st:1"), "h\u{f6}st:1");
    assert_eq!(with_default_port("h\u{f6}st"), "h\u{f6}st:3001");
}
