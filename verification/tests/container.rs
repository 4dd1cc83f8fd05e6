use quad_glb::quad::build_quad;
use quad_glb::container::{
    assemble, encoded, fits, frame_serialized, write_asset, write_container, Container,
    ContainerError, Header,
};

fn le32(bytes: &[u8], at: usize) -> u32 {
    u32::from_le_bytes([bytes[at], bytes[at + 1], bytes[at + 2], bytes[at + 3]])
}

#[test]
fn header_length_is_the_sum_of_the_payloads() {
    let buffer = build_quad().unwrap().buffer;
    let document = b"{\"asset\":{\"version\":\"2.0\"}}".to_vec();
    let container = assemble(document.clone(), buffer.clone()).unwrap();
    assert_eq!(container.header.length as usize, document.len() + 172);
    assert_eq!(&container.header.magic, b"glTF");
    assert_eq!(container.header.version, 2);
    assert_eq!(container.json, document);
    assert_eq!(container.bin, buffer);
}

#[test]
fn stream_gives_back_document_and_buffer() {
    let buffer = build_quad().unwrap().buffer;
    let document = b"{\"asset\": {\"version\":\"2.0\"}}".to_vec();
    assert_eq!(document.len() % 4, 0);
    let stream = assemble(document.clone(), buffer.clone()).unwrap().to_bytes().unwrap();
    assert_eq!(stream.len(), 28 + document.len() + 172);
    assert_eq!(le32(&stream, 8) as usize, stream.len());
    assert_eq!(&stream[20..20 + document.len()], &document[..]);
    let bin_at = 28 + document.len();
    assert_eq!(&stream[bin_at..bin_at + 172], &buffer[..]);
    assert_eq!(bin_at + 172, stream.len());

    let read = gltf::binary::Glb::from_slice(&stream).unwrap();
    assert_eq!(read.json.as_ref(), &document[..]);
    assert_eq!(read.bin.unwrap().as_ref(), &buffer[..]);
    assert_eq!(read.header.version, 2);
    assert_eq!(read.header.length as usize, stream.len());
}

#[test]
fn stream_layout_with_padding() {
    let stream = write_container(b"{\"a\":1}".to_vec(), vec![1, 2, 3, 4, 5]).unwrap();
    let mut want = Vec::new();
    want.extend_from_slice(b"glTF");
    want.extend_from_slice(&2u32.to_le_bytes());
    want.extend_from_slice(&44u32.to_le_bytes());
    want.extend_from_slice(&8u32.to_le_bytes());
    want.extend_from_slice(b"JSON");
    want.extend_from_slice(b"{\"a\":1} ");
    want.extend_from_slice(&8u32.to_le_bytes());
    want.extend_from_slice(b"BIN\0");
    want.extend_from_slice(&[1, 2, 3, 4, 5, 0, 0, 0]);
    assert_eq!(stream, want);
}

#[test]
fn stream_of_empty_payloads() {
    let stream = write_container(Vec::new(), Vec::new()).unwrap();
    let mut want = Vec::new();
    want.extend_from_slice(b"glTF");
    want.extend_from_slice(&2u32.to_le_bytes());
    want.extend_from_slice(&28u32.to_le_bytes());
    want.extend_from_slice(&0u32.to_le_bytes());
    want.extend_from_slice(b"JSON");
    want.extend_from_slice(&0u32.to_le_bytes());
    want.extend_from_slice(b"BIN\0");
    assert_eq!(stream, want);
}

#[test]
fn to_bytes_frames_the_payloads_whatever_the_header_says() {
    let container = Container {
        header: Header { magic: *b"glTF", version: 2, length: 3 },
        json: b"{}".to_vec(),
        bin: vec![9],
    };
    let stream = container.to_bytes().unwrap();
    assert_eq!(stream, write_container(b"{}".to_vec(), vec![9]).unwrap());
    assert_eq!(stream.len(), 36);
    assert_eq!(&stream[20..24], b"{}  ");
    assert_eq!(&stream[32..36], &[9, 0, 0, 0]);
}

#[test]
fn fits_up_to_the_32_bit_limit() {
    assert!(fits(0, 0));
    assert!(fits(27, 172));
    // 28 + 4294967264 = 4294967292 is the largest framed length.
    assert!(fits(4294967264, 0));
    assert!(fits(4294967261, 0));
    assert!(!fits(4294967265, 0));
    assert!(fits(2147483632, 2147483632));
    assert!(!fits(2147483632, 2147483633));
    assert!(!fits(usize::MAX, 0));
    assert!(!fits(0, usize::MAX));
}

#[test]
fn encoder_failure_becomes_encode_error() {
    let failure = gltf::Error::Binary(gltf::binary::Error::Version(1));
    assert_eq!(encoded(Err(failure)), Err(ContainerError::Encode));
    assert_eq!(encoded(Ok(vec![1, 2, 3])), Ok(vec![1, 2, 3]));
}

#[test]
fn container_error_messages_name_the_stage() {
    assert_eq!(ContainerError::TooLarge.message(), "container: the stream is longer than 32 bits can say");
    assert_eq!(ContainerError::Encode.message(), "container: the encoder failed");
    assert_eq!(
        ContainerError::Serialize.message(),
        "document: the description could not be serialised"
    );
}

#[test]
fn serialised_text_becomes_the_document() {
    let stream = frame_serialized(Ok("{\"a\":1}".to_string()), vec![1, 2, 3, 4, 5]).unwrap();
    assert_eq!(stream, write_container(b"{\"a\":1}".to_vec(), vec![1, 2, 3, 4, 5]).unwrap());
    assert_eq!(&stream[20..27], b"{\"a\":1}");
}

#[test]
fn text_is_framed_as_its_utf8_bytes() {
    let stream = frame_serialized(Ok("\u{e9}".to_string()), Vec::new()).unwrap();
    assert_eq!(le32(&stream, 12), 4);
    assert_eq!(&stream[20..24], &[0xC3, 0xA9, 0x20, 0x20]);
}

#[test]
fn failure_to_serialise_is_reported_as_such() {
    let failure = serde_json::from_str::<serde_json::Value>("{").unwrap_err();
    assert_eq!(frame_serialized(Err(failure), vec![1, 2]), Err(ContainerError::Serialize));
}

#[test]
fn write_asset_frames_the_serialised_root_and_the_buffer() {
    let buffer = build_quad().unwrap().buffer;
    let mut root = gltf_json::Root::default();
    root.buffers.push(gltf_json::Buffer {
        byte_length: 172,
        name: None,
        uri: None,
        extensions: Default::default(),
        extras: Default::default(),
    });
    let text = gltf_json::serialize::to_string(&root).unwrap();
    assert!(text.contains("\"byteLength\":172"));
    let stream = write_asset(&root, buffer.clone()).unwrap();
    assert_eq!(stream, write_container(text.clone().into_bytes(), buffer.clone()).unwrap());
    let read = gltf::binary::Glb::from_slice(&stream).unwrap();
    assert_eq!(std::str::from_utf8(&read.json).unwrap().trim_end(), text);
    assert_eq!(read.bin.unwrap().as_ref(), &buffer[..]);
    assert_eq!(le32(&stream, 8) as usize, stream.len());
}

#[test]
fn custom_semantic_is_listed_under_its_name() {
    let name = quad_glb::layout::Semantic::Barycentric.name();
    let held = name.strip_prefix('_').unwrap().to_string();
    let semantic = gltf_json::validation::Checked::Valid(gltf_json::mesh::Semantic::Extras(held));
    let text = gltf_json::serialize::to_string(&semantic).unwrap();
    assert_eq!(text, "\"_BARYCENTRIC\"");
    assert_eq!(text, format!("\"{}\"", name));
}
