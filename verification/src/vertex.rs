//! The binary buffer: interleaved vertex records followed by the index list.

use vstd::prelude::*;
use crate::wire::{push_u16_le, push_u32_le, read_u16_le, read_u32_le, u16_from_le, u16_le, u32_from_le, u32_le};

verus! {

/// One vertex: position, colour and barycentric coordinate. Each field holds
/// the bit pattern of a 32-bit float.
#[derive(Clone, Copy, Debug)]
pub struct Vertex {
    pub x: u32,
    pub y: u32,
    pub z: u32,
    pub r: u32,
    pub g: u32,
    pub b: u32,
    pub a: u32,
    pub s: u32,
    pub t: u32,
    pub u: u32,
}

impl Vertex {
    /// The ten words of the record, in the order in which they are written.
    pub open spec fn words(self) -> Seq<u32> {
        seq![self.x, self.y, self.z, self.r, self.g, self.b, self.a, self.s, self.t, self.u]
    }

    /// The forty bytes of the record: each word little-endian, no padding.
    pub open spec fn bytes(self) -> Seq<u8> {
        Seq::new(40, |i: int| u32_le(self.words()[i / 4])[i % 4])
    }
}

/// The vertex region: byte `i` belongs to record `i / 40`.
pub open spec fn vertex_region(vertices: Seq<Vertex>) -> Seq<u8> {
    Seq::new(40 * vertices.len(), |i: int| vertices[i / 40].bytes()[i % 40])
}

/// The index region: byte `i` belongs to index `i / 2`.
pub open spec fn index_region(indices: Seq<u16>) -> Seq<u8> {
    Seq::new(2 * indices.len(), |i: int| u16_le(indices[i / 2])[i % 2])
}

/// Word `slot` (0 to 9) of record `k`, read back from a buffer whose vertex
/// region starts at byte 0.
pub open spec fn word_at(buffer: Seq<u8>, k: int, slot: int) -> u32 {
    u32_from_le(buffer.subrange(40 * k + 4 * slot, 40 * k + 4 * slot + 4))
}

/// Index `k`, read back from a buffer whose index region starts at `start`.
pub open spec fn index_at(buffer: Seq<u8>, start: int, k: int) -> u16 {
    u16_from_le(buffer.subrange(start + 2 * k, start + 2 * k + 2))
}

/// Appends one vertex record to `buf`.
pub fn push_vertex(buf: &mut Vec<u8>, v: &Vertex)
    ensures
        final(buf)@ == old(buf)@ + v.bytes(),
{
    push_u32_le(buf, v.x);
    push_u32_le(buf, v.y);
    push_u32_le(buf, v.z);
    push_u32_le(buf, v.r);
    push_u32_le(buf, v.g);
    push_u32_le(buf, v.b);
    push_u32_le(buf, v.a);
    push_u32_le(buf, v.s);
    push_u32_le(buf, v.t);
    push_u32_le(buf, v.u);
    assert(buf@ =~= old(buf)@ + v.bytes());
}

/// Serialises the records in order into a fresh buffer.
pub fn encode_vertices(vertices: &Vec<Vertex>) -> (buf: Vec<u8>)
    ensures
        buf@ == vertex_region(vertices@),
        buf@.len() == 40 * vertices@.len(),
{
    let mut buf: Vec<u8> = Vec::new();
    let mut k: usize = 0;
    assert(buf@ =~= vertex_region(vertices@.take(0)));
    while k < vertices.len()
        invariant
            k <= vertices.len(),
            buf@ == vertex_region(vertices@.take(k as int)),
        decreases vertices.len() - k,
    {
        let ghost before = buf@;
        push_vertex(&mut buf, &vertices[k]);
        proof {
            let now = vertices@.take(k + 1);
            assert forall|i: int| 0 <= i < 40 * (k + 1) implies buf@[i] == vertex_region(now)[i] by {
                if i < 40 * k {
                    assert(before[i] == vertices@.take(k as int)[i / 40].bytes()[i % 40]);
                } else {
                    assert(i / 40 == k as int);
                    assert(i % 40 == i - 40 * k);
                    assert(buf@[i] == vertices@[k as int].bytes()[i - 40 * k]);
                }
            }
            assert(buf@ =~= vertex_region(now));
        }
        k += 1;
    }
    assert(vertices@.take(k as int) =~= vertices@);
    buf
}

/// Appends the indices after what `buf` already holds and returns the byte
/// offset at which they start.
pub fn append_indices(buf: &mut Vec<u8>, indices: &Vec<u16>) -> (start: usize)
    ensures
        start == old(buf)@.len(),
        final(buf)@ == old(buf)@ + index_region(indices@),
        final(buf)@.len() == old(buf)@.len() + 2 * indices@.len(),
{
    let start = buf.len();
    let mut k: usize = 0;
    assert(buf@ =~= old(buf)@ + index_region(indices@.take(0)));
    while k < indices.len()
        invariant
            k <= indices.len(),
            buf@ == old(buf)@ + index_region(indices@.take(k as int)),
        decreases indices.len() - k,
    {
        push_u16_le(buf, indices[k]);
        proof {
            let n = old(buf)@.len();
            let now = indices@.take(k + 1);
            assert forall|i: int| 0 <= i < n + 2 * (k + 1) implies buf@[i] == (old(buf)@
                + index_region(now))[i] by {
                if i >= n + 2 * k {
                    assert((i - n) / 2 == k as int);
                } else if i >= n {
                    assert(index_region(indices@.take(k as int))[i - n] == u16_le(
                        indices@.take(k as int)[(i - n) / 2],
                    )[(i - n) % 2]);
                }
            }
            assert(buf@ =~= old(buf)@ + index_region(now));
        }
        k += 1;
    }
    assert(indices@.take(k as int) =~= indices@);
    start
}

/// Reading the words back from the vertex region gives the words that went
/// in, record by record and slot by slot, whatever follows the region.
pub proof fn lemma_vertex_words_round_trip(vertices: Seq<Vertex>, rest: Seq<u8>, k: int, slot: int)
    requires
        0 <= k < vertices.len(),
        0 <= slot < 10,
    ensures
        word_at(vertex_region(vertices) + rest, k, slot) == vertices[k].words()[slot],
{
    let buffer = vertex_region(vertices) + rest;
    let at = 40 * k + 4 * slot;
    let w = vertices[k].words()[slot];
    assert forall|j: int| 0 <= j < 4 implies #[trigger] buffer.subrange(at, at + 4)[j] == u32_le(w)[j] by {
        let i = at + j;
        assert(i / 40 == k);
        assert(i % 40 == 4 * slot + j);
        assert((4 * slot + j) / 4 == slot);
        assert((4 * slot + j) % 4 == j);
        assert(buffer[i] == vertices[i / 40].bytes()[i % 40]);
    }
    assert(buffer.subrange(at, at + 4) =~= u32_le(w));
    crate::wire::lemma_le_round_trip(0, w);
}

/// Reading the indices back from the index region gives the indices that
/// went in, in order, wherever the region starts.
pub proof fn lemma_indices_round_trip(before: Seq<u8>, indices: Seq<u16>, k: int)
    requires
        0 <= k < indices.len(),
    ensures
        index_at(before + index_region(indices), before.len() as int, k) == indices[k],
{
    let buffer = before + index_region(indices);
    let at = before.len() + 2 * k;
    assert forall|j: int| 0 <= j < 2 implies #[trigger] buffer.subrange(at, at + 2)[j] == u16_le(
        indices[k],
    )[j] by {
        let i = 2 * k + j;
        assert(i / 2 == k);
        assert(i % 2 == j);
        assert(buffer[at + j] == index_region(indices)[i]);
    }
    assert(buffer.subrange(at, at + 2) =~= u16_le(indices[k]));
    crate::wire::lemma_le_round_trip(indices[k], 0);
}

/// Reads word `slot` of record `k` back from `buffer`.
pub fn read_word(buffer: &Vec<u8>, k: usize, slot: usize) -> (w: u32)
    requires
        slot < 10,
        40 * (k + 1) <= buffer.len(),
    ensures
        w == word_at(buffer@, k as int, slot as int),
{
    read_u32_le(buffer, 40 * k + 4 * slot)
}

/// Reads index `k` back from the index region of `buffer` that starts at
/// byte `start`.
pub fn read_index(buffer: &Vec<u8>, start: usize, k: usize) -> (x: u16)
    requires
        start + 2 * (k + 1) <= buffer.len(),
    ensures
        x == index_at(buffer@, start as int, k as int),
{
    read_u16_le(buffer, start + 2 * k)
}

} // verus!
