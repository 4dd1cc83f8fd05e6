//! The binary container: a header, the document as a JSON chunk and the
//! buffer as a BIN chunk, each chunk padded to a multiple of four bytes.

use vstd::prelude::*;
use vstd::string::StrSliceExecFns;
use vstd::utf8::encode_utf8;
use crate::wire::{lemma_le_round_trip, u32_from_le, u32_le};

verus! {

/// What the `gltf` crate reports when it cannot write a container.
#[verifier::external_type_specification]
#[verifier::external_body]
pub struct ExGltfError(gltf::Error);

/// What `serde_json` reports when it cannot serialise a value.
#[verifier::external_type_specification]
#[verifier::external_body]
pub struct ExJsonError(serde_json::Error);

/// The root object of an asset description as the `gltf_json` crate holds
/// it, ready to be serialised.
#[verifier::external_type_specification]
#[verifier::external_body]
pub struct ExRoot(gltf_json::Root);

/// The container's header as it is kept beside the two payloads.
#[derive(Clone, Copy, Debug, PartialEq, Eq)]
pub struct Header {
    pub magic: [u8; 4],
    pub version: u32,
    /// The bytes of the two payloads together.
    pub length: u32,
}

/// The document bytes and the binary buffer under their header.
#[derive(Clone, Debug, PartialEq, Eq)]
pub struct Container {
    pub header: Header,
    pub json: Vec<u8>,
    pub bin: Vec<u8>,
}

/// Why a container was not made or not written.
#[derive(Clone, Copy, Debug, PartialEq, Eq, Structural)]
pub enum ContainerError {
    /// The framed stream would be longer than its 32-bit length field can say.
    TooLarge,
    /// The encoder failed.
    Encode,
    /// The description could not be serialised.
    Serialize,
}

impl ContainerError {
    /// What went wrong, in words that name the stage.
    pub open spec fn spec_message(self) -> Seq<char> {
        match self {
            ContainerError::TooLarge => "container: the stream is longer than 32 bits can say"@,
            ContainerError::Encode => "container: the encoder failed"@,
            ContainerError::Serialize => "document: the description could not be serialised"@,
        }
    }

    /// What went wrong, in words that name the stage.
    pub fn message(self) -> (s: &'static str)
        ensures
            s@ == self.spec_message(),
    {
        match self {
            ContainerError::TooLarge => "container: the stream is longer than 32 bits can say",
            ContainerError::Encode => "container: the encoder failed",
            ContainerError::Serialize => "document: the description could not be serialised",
        }
    }
}

/// The ASCII letters `glTF`.
pub open spec fn magic_bytes() -> Seq<u8> {
    seq![0x67u8, 0x6Cu8, 0x54u8, 0x46u8]
}

/// The ASCII letters `JSON`.
pub open spec fn json_tag() -> Seq<u8> {
    seq![0x4Au8, 0x53u8, 0x4Fu8, 0x4Eu8]
}

/// The ASCII letters `BIN` and a zero byte.
pub open spec fn bin_tag() -> Seq<u8> {
    seq![0x42u8, 0x49u8, 0x4Eu8, 0x00u8]
}

/// `n` rounded up to a multiple of four.
pub open spec fn padded(n: int) -> int {
    (n + 3) / 4 * 4
}

/// `count` copies of `byte`.
pub open spec fn filler(count: int, byte: u8) -> Seq<u8> {
    Seq::new(count as nat, |i: int| byte)
}

/// The length of the framed stream: a 12-byte header and two chunks, each
/// with an 8-byte header and a padded payload.
pub open spec fn framed_len(json_len: int, bin_len: int) -> int {
    28 + padded(json_len) + padded(bin_len)
}

/// One chunk: the padded length, the tag, the payload, the padding.
pub open spec fn chunk(tag: Seq<u8>, payload: Seq<u8>, pad: u8) -> Seq<u8> {
    u32_le(padded(payload.len() as int) as u32) + tag + payload + filler(
        padded(payload.len() as int) - payload.len(),
        pad,
    )
}

/// The framed stream: magic, version 2, total length, the JSON chunk
/// padded with spaces, the BIN chunk padded with zeros. Proofs take its
/// parts from `lemma_framed_layout` and `lemma_framed_round_trip`.
#[verifier::opaque]
pub open spec fn framed(json: Seq<u8>, bin: Seq<u8>) -> Seq<u8> {
    magic_bytes() + u32_le(2) + u32_le(framed_len(json.len() as int, bin.len() as int) as u32)
        + chunk(json_tag(), json, 0x20) + chunk(bin_tag(), bin, 0)
}

impl Container {
    /// The header is that of a version 2 container and its length field is
    /// the sum of the two payloads' lengths; the framed stream fits its own
    /// length field.
    pub open spec fn wf(self) -> bool {
        &&& self.header.magic@ == magic_bytes()
        &&& self.header.version == 2
        &&& self.header.length == self.json@.len() + self.bin@.len()
        &&& framed_len(self.json@.len() as int, self.bin@.len() as int) <= u32::MAX
    }

    /// The framed stream of this container where it fits its length field,
    /// and `TooLarge` where it does not. Given lengths that fit, framing
    /// does not fail.
    pub fn to_bytes(&self) -> (r: Result<Vec<u8>, ContainerError>)
        ensures
            match r {
                Ok(bytes) => {
                    &&& framed_len(self.json@.len() as int, self.bin@.len() as int) <= u32::MAX
                    &&& bytes@ == framed(self.json@, self.bin@)
                },
                Err(e) => {
                    &&& e == ContainerError::TooLarge
                    &&& framed_len(self.json@.len() as int, self.bin@.len() as int) > u32::MAX
                },
            },
    {
        if !fits(self.json.len(), self.bin.len()) {
            return Err(ContainerError::TooLarge);
        }
        let written = glb_to_vec(&self.header, &self.json, &self.bin);
        encoded(written)
    }
}

/// Whether a stream with payloads of these lengths fits its length field.
pub fn fits(json_len: usize, bin_len: usize) -> (r: bool)
    ensures
        r == (framed_len(json_len as int, bin_len as int) <= u32::MAX),
{
    if json_len > 0xffff_ffff || bin_len > 0xffff_ffff {
        return false;
    }
    let json_padded: u64 = (json_len as u64 + 3) / 4 * 4;
    let bin_padded: u64 = (bin_len as u64 + 3) / 4 * 4;
    28 + json_padded + bin_padded <= 0xffff_ffff
}

/// Writes a container with `gltf::binary::Glb::to_vec`. The bytes are the
/// framed stream: the crate writes the magic, version 2 and the total
/// length, then each chunk with its padded length, tag, payload and padding
/// (spaces for JSON, zeros for BIN). It takes these from the payloads and
/// does not write the fields of `header`. The call succeeds: the crate
/// writes into a byte vector of its own, and the only failures it passes
/// on are those of the writer, which a vector does not have.
#[verifier::external_body]
fn glb_to_vec(header: &Header, json: &Vec<u8>, bin: &Vec<u8>) -> (r: Result<Vec<u8>, gltf::Error>)
    requires
        framed_len(json@.len() as int, bin@.len() as int) <= u32::MAX,
    ensures
        r is Ok,
        r matches Ok(bytes) ==> bytes@ == framed(json@, bin@),
{
    gltf::binary::Glb {
        header: gltf::binary::Header {
            magic: header.magic,
            version: header.version,
            length: header.length,
        },
        json: std::borrow::Cow::Borrowed(json.as_slice()),
        bin: Some(std::borrow::Cow::Borrowed(bin.as_slice())),
    }.to_vec()
}

/// Turns what the encoder returned into the library's own result: the
/// bytes as they are, or `Encode` for any failure.
pub fn encoded(written: Result<Vec<u8>, gltf::Error>) -> (r: Result<Vec<u8>, ContainerError>)
    ensures
        match written {
            Ok(bytes) => r == Ok::<Vec<u8>, ContainerError>(bytes),
            Err(_) => r == Err::<Vec<u8>, ContainerError>(ContainerError::Encode),
        },
{
    match written {
        Ok(bytes) => Ok(bytes),
        Err(_) => Err(ContainerError::Encode),
    }
}

/// Puts the document bytes and the binary buffer under a header whose
/// length field is the sum of their lengths, or refuses them where the
/// framed stream would not fit its own length field.
pub fn assemble(document_bytes: Vec<u8>, buffer: Vec<u8>) -> (r: Result<Container, ContainerError>)
    ensures
        match r {
            Ok(c) => {
                &&& c.wf()
                &&& c.json@ == document_bytes@
                &&& c.bin@ == buffer@
            },
            Err(e) => {
                &&& e == ContainerError::TooLarge
                &&& framed_len(document_bytes@.len() as int, buffer@.len() as int) > u32::MAX
            },
        },
{
    if !fits(document_bytes.len(), buffer.len()) {
        return Err(ContainerError::TooLarge);
    }
    let length: u32 = (document_bytes.len() + buffer.len()) as u32;
    let magic: [u8; 4] = [0x67, 0x6C, 0x54, 0x46];
    assert(magic@ =~= magic_bytes());
    Ok(Container { header: Header { magic, version: 2, length }, json: document_bytes, bin: buffer })
}

/// Frames the document bytes and the binary buffer in one step: the
/// framed stream where it fits its length field, `TooLarge` where it does
/// not.
pub fn write_container(document_bytes: Vec<u8>, buffer: Vec<u8>) -> (r: Result<Vec<u8>, ContainerError>)
    ensures
        match r {
            Ok(bytes) => {
                &&& framed_len(document_bytes@.len() as int, buffer@.len() as int) <= u32::MAX
                &&& bytes@ == framed(document_bytes@, buffer@)
            },
            Err(e) => {
                &&& e == ContainerError::TooLarge
                &&& framed_len(document_bytes@.len() as int, buffer@.len() as int) > u32::MAX
            },
        },
{
    match assemble(document_bytes, buffer) {
        Ok(container) => container.to_bytes(),
        Err(e) => Err(e),
    }
}

/// The compact JSON text that `gltf_json::serialize::to_string` gives for
/// a description, or `None` where it reports an error. The text depends on
/// the description alone: its maps are ordered by key.
pub uninterp spec fn serialized_text(root: gltf_json::Root) -> Option<Seq<char>>;

/// Serialises a description to compact JSON text with
/// `gltf_json::serialize::to_string`. The result is the one that
/// `serialized_text` names; nothing more is claimed of the text, nor of
/// when the call fails.
#[verifier::external_body]
fn root_to_string(root: &gltf_json::Root) -> (r: Result<String, serde_json::Error>)
    ensures
        match r {
            Ok(text) => serialized_text(*root) == Some(text@),
            Err(_) => serialized_text(*root) is None,
        },
{
    gltf_json::serialize::to_string(root)
}

/// Frames what the serialiser returned: the UTF-8 bytes of the text become
/// the document, and a failure to serialise becomes `Serialize`.
pub fn frame_serialized(serialized: Result<String, serde_json::Error>, buffer: Vec<u8>) -> (r: Result<
    Vec<u8>,
    ContainerError,
>)
    ensures
        match serialized {
            Err(_) => r == Err::<Vec<u8>, ContainerError>(ContainerError::Serialize),
            Ok(text) => match r {
                Ok(bytes) => {
                    &&& framed_len(encode_utf8(text@).len() as int, buffer@.len() as int)
                        <= u32::MAX
                    &&& bytes@ == framed(encode_utf8(text@), buffer@)
                },
                Err(e) => {
                    &&& e == ContainerError::TooLarge
                    &&& framed_len(encode_utf8(text@).len() as int, buffer@.len() as int)
                        > u32::MAX
                },
            },
        },
{
    match serialized {
        Ok(text) => write_container(text.as_str().as_bytes_vec(), buffer),
        Err(_) => Err(ContainerError::Serialize),
    }
}

/// Serialises the description, measures it and frames it with the buffer.
/// Where the description has a text, the result is that text's UTF-8 bytes
/// framed with the buffer, or `TooLarge` where the stream would not fit its
/// length field; where it has none, the result is `Serialize`.
pub fn write_asset(root: &gltf_json::Root, buffer: Vec<u8>) -> (r: Result<Vec<u8>, ContainerError>)
    ensures
        match serialized_text(*root) {
            None => r == Err::<Vec<u8>, ContainerError>(ContainerError::Serialize),
            Some(text) => if framed_len(encode_utf8(text).len() as int, buffer@.len() as int)
                <= u32::MAX {
                r matches Ok(bytes) && bytes@ == framed(encode_utf8(text), buffer@)
            } else {
                r == Err::<Vec<u8>, ContainerError>(ContainerError::TooLarge)
            },
        },
{
    let serialized = root_to_string(root);
    frame_serialized(serialized, buffer)
}

/// A chunk is its eight-byte header, then the payload unchanged, then the
/// padding.
pub proof fn lemma_chunk_layout(tag: Seq<u8>, payload: Seq<u8>, pad: u8)
    requires
        tag.len() == 4,
    ensures
        ({
            let c = chunk(tag, payload, pad);
            &&& c.len() == 8 + padded(payload.len() as int)
            &&& c.subrange(0, 4) == u32_le(padded(payload.len() as int) as u32)
            &&& c.subrange(4, 8) == tag
            &&& c.subrange(8, 8 + payload.len() as int) == payload
        }),
{
    let c = chunk(tag, payload, pad);
    let size = u32_le(padded(payload.len() as int) as u32);
    assert(size.len() == 4);
    assert(padded(payload.len() as int) >= payload.len());
    assert(c.len() == 8 + padded(payload.len() as int));
    assert(c.subrange(0, 4) =~= size);
    assert(c.subrange(4, 8) =~= tag);
    assert(c.subrange(8, 8 + payload.len() as int) =~= payload);
}

/// The framed stream is twelve bytes of header, then the JSON chunk, then
/// the BIN chunk.
pub proof fn lemma_framed_layout(json: Seq<u8>, bin: Seq<u8>)
    ensures
        ({
            let stream = framed(json, bin);
            let total = framed_len(json.len() as int, bin.len() as int);
            let bin_chunk_at = 20 + padded(json.len() as int);
            &&& stream.len() == total
            &&& stream.subrange(0, 4) == magic_bytes()
            &&& stream.subrange(4, 8) == u32_le(2)
            &&& stream.subrange(8, 12) == u32_le(total as u32)
            &&& stream.subrange(12, bin_chunk_at) == chunk(json_tag(), json, 0x20)
            &&& stream.subrange(bin_chunk_at, total) == chunk(bin_tag(), bin, 0)
        }),
{
    let stream = framed(json, bin);
    let total = framed_len(json.len() as int, bin.len() as int);
    let bin_chunk_at = 20 + padded(json.len() as int);
    let json_chunk = chunk(json_tag(), json, 0x20);
    let bin_chunk = chunk(bin_tag(), bin, 0);
    reveal(framed);
    lemma_chunk_layout(json_tag(), json, 0x20);
    lemma_chunk_layout(bin_tag(), bin, 0);
    assert(u32_le(2).len() == 4 && u32_le(total as u32).len() == 4);
    assert(stream.len() == total);
    assert(stream.subrange(0, 4) =~= magic_bytes());
    assert(stream.subrange(4, 8) =~= u32_le(2));
    assert(stream.subrange(8, 12) =~= u32_le(total as u32));
    assert(stream.subrange(12, bin_chunk_at) =~= json_chunk);
    assert(stream.subrange(bin_chunk_at, total) =~= bin_chunk);
}

/// The framed stream holds both payloads unchanged: the document from byte
/// 20 on, the buffer from byte 28 plus the padded document length on; its
/// length field, at byte 8, says how long the stream is.
pub proof fn lemma_framed_round_trip(json: Seq<u8>, bin: Seq<u8>)
    requires
        framed_len(json.len() as int, bin.len() as int) <= u32::MAX,
    ensures
        ({
            let stream = framed(json, bin);
            let bin_at = 28 + padded(json.len() as int);
            &&& stream.len() == framed_len(json.len() as int, bin.len() as int)
            &&& stream.subrange(0, 4) == magic_bytes()
            &&& u32_from_le(stream.subrange(4, 8)) == 2
            &&& u32_from_le(stream.subrange(8, 12)) == stream.len()
            &&& u32_from_le(stream.subrange(12, 16)) == padded(json.len() as int)
            &&& stream.subrange(20, 20 + json.len() as int) == json
            &&& u32_from_le(stream.subrange(bin_at - 8, bin_at - 4)) == padded(bin.len() as int)
            &&& stream.subrange(bin_at, bin_at + bin.len()) == bin
        }),
{
    let stream = framed(json, bin);
    let total = framed_len(json.len() as int, bin.len() as int);
    let bin_chunk_at = 20 + padded(json.len() as int);
    let json_chunk = stream.subrange(12, bin_chunk_at);
    let bin_chunk = stream.subrange(bin_chunk_at, total);
    lemma_framed_layout(json, bin);
    lemma_chunk_layout(json_tag(), json, 0x20);
    lemma_chunk_layout(bin_tag(), bin, 0);
    lemma_le_round_trip(0, 2);
    lemma_le_round_trip(0, total as u32);
    lemma_le_round_trip(0, padded(json.len() as int) as u32);
    lemma_le_round_trip(0, padded(bin.len() as int) as u32);
    assert(stream.subrange(12, 16) =~= json_chunk.subrange(0, 4));
    assert(stream.subrange(20, 20 + json.len() as int) =~= json_chunk.subrange(
        8,
        8 + json.len() as int,
    ));
    assert(stream.subrange(bin_chunk_at, bin_chunk_at + 4) =~= bin_chunk.subrange(0, 4));
    assert(stream.subrange(bin_chunk_at + 8, bin_chunk_at + 8 + bin.len()) =~= bin_chunk.subrange(
        8,
        8 + bin.len() as int,
    ));
}

} // verus!
