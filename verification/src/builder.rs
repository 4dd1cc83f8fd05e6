//! From vertices and indices to the binary buffer and the document that
//! describes it.

use vstd::prelude::*;
use crate::extent::{bounds_of, position_bounds};
use crate::layout::{
    Accessor, Buffer, BufferView, ComponentType, Document, LayoutError, Mode, Primitive, Shape,
    Target,
};
use crate::vertex::{
    append_indices, encode_vertices, index_region, lemma_indices_round_trip,
    lemma_vertex_words_round_trip, vertex_region, Vertex,
};
use crate::wire::{read_u16_le, read_u32_le, u16_from_le, u32_from_le};

verus! {

/// Distance in bytes between two vertex records.
pub const VERTEX_STRIDE: u32 = 40;

/// Where the position starts inside a vertex record.
pub const POSITION_OFFSET: u32 = 0;

/// Where the colour starts inside a vertex record.
pub const COLOR_OFFSET: u32 = 12;

/// Where the barycentric coordinate starts inside a vertex record.
pub const BARYCENTRIC_OFFSET: u32 = 28;

/// The binary buffer together with its description.
#[derive(Clone, Debug, PartialEq, Eq)]
pub struct Asset {
    pub document: Document,
    pub buffer: Vec<u8>,
    /// Where the index region starts in `buffer`.
    pub index_start: u32,
}

/// The binary buffer: the vertex region, then the index region.
pub open spec fn buffer_bytes(vertices: Seq<Vertex>, indices: Seq<u16>) -> Seq<u8> {
    vertex_region(vertices) + index_region(indices)
}

/// There is a vertex, and the buffer's length fits a 32-bit field.
pub open spec fn layout_fits(vertex_count: int, index_count: int) -> bool {
    vertex_count >= 1 && 40 * vertex_count + 2 * index_count <= u32::MAX
}

/// The two views: the interleaved vertex region, then the index region.
pub open spec fn view_records(vertex_count: int, index_count: int) -> Seq<BufferView> {
    seq![
        BufferView {
            buffer: 0,
            byte_offset: 0,
            byte_length: (40 * vertex_count) as u32,
            byte_stride: Some(40u32),
            target: Target::ArrayBuffer,
        },
        BufferView {
            buffer: 0,
            byte_offset: (40 * vertex_count) as u32,
            byte_length: (2 * index_count) as u32,
            byte_stride: None,
            target: Target::ArrayBuffer,
        },
    ]
}

/// An accessor over 32-bit floats in the vertex view.
pub open spec fn attribute_record(vertices: Seq<Vertex>, byte_offset: u32, shape: Shape) -> Accessor {
    Accessor {
        buffer_view: 0,
        byte_offset,
        count: vertices.len() as u32,
        component_type: ComponentType::F32,
        shape,
        bounds: if byte_offset == 0 {
            Some(bounds_of(vertices))
        } else {
            None
        },
    }
}

/// The four accessors: position (with its bounds), colour, barycentric
/// coordinate, indices.
pub open spec fn accessor_records(vertices: Seq<Vertex>, index_count: int) -> Seq<Accessor> {
    seq![
        attribute_record(vertices, 0, Shape::Vec3),
        attribute_record(vertices, 12, Shape::Vec4),
        attribute_record(vertices, 28, Shape::Vec3),
        Accessor {
            buffer_view: 1,
            byte_offset: 0,
            count: index_count as u32,
            component_type: ComponentType::U16,
            shape: Shape::Scalar,
            bounds: None,
        },
    ]
}

/// The primitive: accessors 0 to 2 as attributes, accessor 3 as indices,
/// drawn as a triangle list.
pub open spec fn primitive_record() -> Primitive {
    Primitive { position: 0, color: 1, barycentric: 2, indices: 3, mode: Mode::Triangles }
}

/// `doc` is the description of the buffer made from `vertices` and
/// `index_count` indices, record for record.
pub open spec fn describes(doc: Document, vertices: Seq<Vertex>, index_count: int) -> bool {
    &&& doc.buffers@ == seq![
        (Buffer { byte_length: (40 * vertices.len() + 2 * index_count) as u32 }),
    ]
    &&& doc.buffer_views@ == view_records(vertices.len() as int, index_count)
    &&& doc.accessors@ == accessor_records(vertices, index_count)
    &&& doc.meshes@.len() == 1
    &&& doc.meshes@[0].primitives@ == seq![primitive_record()]
}

/// The bytes of one element, for every pairing of component type and shape.
pub proof fn lemma_element_size(accessor: Accessor)
    ensures
        accessor.element_size() == match (accessor.component_type, accessor.shape) {
            (ComponentType::U16, Shape::Scalar) => 2int,
            (ComponentType::U16, Shape::Vec3) => 6int,
            (ComponentType::U16, Shape::Vec4) => 8int,
            (ComponentType::F32, Shape::Scalar) => 4int,
            (ComponentType::F32, Shape::Vec3) => 12int,
            (ComponentType::F32, Shape::Vec4) => 16int,
        },
{
}

/// Whatever the geometry, the records stay in bounds: each of the two
/// views lies inside the buffer, and the extent of each of the four
/// accessors fits the view it reads through.
pub proof fn lemma_records_in_bounds(vertices: Seq<Vertex>, index_count: int, i: int)
    requires
        layout_fits(vertices.len() as int, index_count),
        0 <= index_count,
    ensures
        ({
            let total = 40 * vertices.len() + 2 * index_count;
            let views = view_records(vertices.len() as int, index_count);
            let accessors = accessor_records(vertices, index_count);
            &&& 0 <= i < 2 ==> views[i].byte_offset + views[i].byte_length <= total
            &&& 0 <= i < 4 ==> accessors[i].buffer_view < 2
            &&& 0 <= i < 4 ==> accessors[i].byte_offset + accessors[i].component_type.spec_size()
                * accessors[i].shape.spec_arity() * accessors[i].count
                <= views[accessors[i].buffer_view as int].byte_length
        }),
{
    let accessors = accessor_records(vertices, index_count);
    if 0 <= i < 4 {
        lemma_element_size(accessors[i]);
    }
}

/// The byte of `buffer` at which element `k` of `accessor` starts, where
/// `accessor` reads through `view`: elements lie a stride apart, or back to
/// back where the view has no stride.
pub open spec fn element_start(view: BufferView, accessor: Accessor, k: int) -> int {
    let stride = match view.byte_stride {
        Some(s) => s as int,
        None => accessor.element_size(),
    };
    view.byte_offset + accessor.byte_offset + stride * k
}

/// Component `c` of element `k` of a float accessor, as a bit pattern.
pub open spec fn element_word(buffer: Seq<u8>, view: BufferView, accessor: Accessor, k: int, c: int) -> u32 {
    let at = element_start(view, accessor, k) + 4 * c;
    u32_from_le(buffer.subrange(at, at + 4))
}

/// Element `k` of a 16-bit scalar accessor.
pub open spec fn element_index(buffer: Seq<u8>, view: BufferView, accessor: Accessor, k: int) -> u16 {
    let at = element_start(view, accessor, k);
    u16_from_le(buffer.subrange(at, at + 2))
}

/// The byte at which element `k` of `accessor` starts, read through `view`.
pub fn locate_element(view: &BufferView, accessor: &Accessor, k: u32) -> (at: u128)
    ensures
        at == element_start(*view, *accessor, k as int),
        at <= u64::MAX,
{
    let stride: u128 = match view.byte_stride {
        Some(s) => s as u128,
        None => {
            let size: u128 = accessor.component_type.size() as u128;
            let arity: u128 = accessor.shape.arity() as u128;
            assert(size * arity <= 16) by (nonlinear_arith)
                requires
                    0 <= size <= 4,
                    0 <= arity <= 4,
            ;
            size * arity
        },
    };
    let count: u128 = k as u128;
    assert(stride * count <= 0xffff_ffff * 0xffff_ffff) by (nonlinear_arith)
        requires
            0 <= stride <= 0xffff_ffff,
            0 <= count <= 0xffff_ffff,
    ;
    view.byte_offset as u128 + accessor.byte_offset as u128 + stride * count
}

/// Reads component `c` of element `k` of a float accessor from `buffer` as
/// a bit pattern, or gives `None` where its four bytes do not all lie in
/// `buffer`.
pub fn read_element_word(buffer: &Vec<u8>, view: &BufferView, accessor: &Accessor, k: u32, c: u32) -> (r: Option<u32>)
    ensures
        match r {
            Some(w) => {
                &&& element_start(*view, *accessor, k as int) + 4 * c + 4 <= buffer@.len()
                &&& w == element_word(buffer@, *view, *accessor, k as int, c as int)
            },
            None => element_start(*view, *accessor, k as int) + 4 * c + 4 > buffer@.len(),
        },
{
    let at: u128 = locate_element(view, accessor, k) + 4 * (c as u128);
    if at + 4 > buffer.len() as u128 {
        return None;
    }
    Some(read_u32_le(buffer, at as usize))
}

/// Reads element `k` of a 16-bit scalar accessor from `buffer`, or gives
/// `None` where its two bytes do not both lie in `buffer`.
pub fn read_element_index(buffer: &Vec<u8>, view: &BufferView, accessor: &Accessor, k: u32) -> (r: Option<u16>)
    ensures
        match r {
            Some(x) => {
                &&& element_start(*view, *accessor, k as int) + 2 <= buffer@.len()
                &&& x == element_index(buffer@, *view, *accessor, k as int)
            },
            None => element_start(*view, *accessor, k as int) + 2 > buffer@.len(),
        },
{
    let at: u128 = locate_element(view, accessor, k);
    if at + 2 > buffer.len() as u128 {
        return None;
    }
    Some(read_u16_le(buffer, at as usize))
}

/// Read through the accessors that describe it, the buffer gives back what
/// went in: the position, colour and barycentric accessors give the words
/// of vertex `k` from slot 0, 3 and 7 on, and the index accessor gives
/// index `k`.
pub proof fn lemma_accessors_read_back(vertices: Seq<Vertex>, indices: Seq<u16>, k: int, c: int)
    requires
        layout_fits(vertices.len() as int, indices.len() as int),
    ensures
        ({
            let buffer = buffer_bytes(vertices, indices);
            let views = view_records(vertices.len() as int, indices.len() as int);
            let accessors = accessor_records(vertices, indices.len() as int);
            &&& 0 <= k < vertices.len() && 0 <= c < 3 ==> element_word(buffer, views[0], accessors[0], k, c)
                == vertices[k].words()[c]
            &&& 0 <= k < vertices.len() && 0 <= c < 4 ==> element_word(buffer, views[0], accessors[1], k, c)
                == vertices[k].words()[3 + c]
            &&& 0 <= k < vertices.len() && 0 <= c < 3 ==> element_word(buffer, views[0], accessors[2], k, c)
                == vertices[k].words()[7 + c]
            &&& 0 <= k < indices.len() ==> element_index(buffer, views[1], accessors[3], k) == indices[k]
        }),
{
    let rest = index_region(indices);
    if 0 <= k < vertices.len() {
        if 0 <= c < 3 {
            lemma_vertex_words_round_trip(vertices, rest, k, c);
            lemma_vertex_words_round_trip(vertices, rest, k, 7 + c);
        }
        if 0 <= c < 4 {
            lemma_vertex_words_round_trip(vertices, rest, k, 3 + c);
        }
    }
    if 0 <= k < indices.len() {
        lemma_indices_round_trip(vertex_region(vertices), indices, k);
    }
}

/// Writes the vertex records, then the indices, into one buffer, and
/// returns it with the offset at which the indices start.
pub fn build_buffer(vertices: &Vec<Vertex>, indices: &Vec<u16>) -> (r: (Vec<u8>, usize))
    ensures
        r.0@ == buffer_bytes(vertices@, indices@),
        r.0@.len() == 40 * vertices@.len() + 2 * indices@.len(),
        r.1 == 40 * vertices@.len(),
{
    let mut buffer = encode_vertices(vertices);
    let start = append_indices(&mut buffer, indices);
    (buffer, start)
}

/// Describes the buffer made from `vertices` and `index_count` indices.
/// Refuses an empty vertex list, for which the colour accessor would start
/// past the end of its view, and a buffer whose length does not fit 32 bits.
pub fn build_document(vertices: &Vec<Vertex>, index_count: usize) -> (r: Result<Document, LayoutError>)
    ensures
        match r {
            Ok(doc) => {
                &&& layout_fits(vertices@.len() as int, index_count as int)
                &&& doc.wf()
                &&& describes(doc, vertices@, index_count as int)
            },
            Err(e) => {
                &&& !layout_fits(vertices@.len() as int, index_count as int)
                &&& e == LayoutError::NoVertices <==> vertices@.len() == 0
                &&& e == LayoutError::TooLarge <==> vertices@.len() > 0
            },
        },
{
    let bounds = match position_bounds(vertices) {
        Some(b) => b,
        None => {
            return Err(LayoutError::NoVertices);
        },
    };
    if vertices.len() > 107374182 {
        return Err(LayoutError::TooLarge);
    }
    let vertex_bytes: u32 = (40 * vertices.len()) as u32;
    if index_count > ((u32::MAX - vertex_bytes) / 2) as usize {
        return Err(LayoutError::TooLarge);
    }
    let index_bytes: u32 = (2 * index_count) as u32;
    let count: u32 = vertices.len() as u32;

    let mut doc = Document::new();
    doc.push_buffer(Buffer { byte_length: vertex_bytes + index_bytes });
    let vertex_view = match doc.push_view(
        BufferView {
            buffer: 0,
            byte_offset: 0,
            byte_length: vertex_bytes,
            byte_stride: Some(VERTEX_STRIDE),
            target: Target::ArrayBuffer,
        },
    ) {
        Ok(i) => i,
        Err(e) => {
            return Err(e);
        },
    };
    let index_view = match doc.push_view(
        BufferView {
            buffer: 0,
            byte_offset: vertex_bytes,
            byte_length: index_bytes,
            byte_stride: None,
            target: Target::ArrayBuffer,
        },
    ) {
        Ok(i) => i,
        Err(e) => {
            return Err(e);
        },
    };
    let record = Accessor {
        buffer_view: vertex_view,
        byte_offset: POSITION_OFFSET,
        count,
        component_type: ComponentType::F32,
        shape: Shape::Vec3,
        bounds: Some(bounds),
    };
    proof {
        lemma_element_size(record);
    }
    let position = match doc.push_accessor(record) {
        Ok(i) => i,
        Err(e) => {
            return Err(e);
        },
    };
    let record = Accessor {
        buffer_view: vertex_view,
        byte_offset: COLOR_OFFSET,
        count,
        component_type: ComponentType::F32,
        shape: Shape::Vec4,
        bounds: None,
    };
    proof {
        lemma_element_size(record);
    }
    let color = match doc.push_accessor(record) {
        Ok(i) => i,
        Err(e) => {
            return Err(e);
        },
    };
    let record = Accessor {
        buffer_view: vertex_view,
        byte_offset: BARYCENTRIC_OFFSET,
        count,
        component_type: ComponentType::F32,
        shape: Shape::Vec3,
        bounds: None,
    };
    proof {
        lemma_element_size(record);
    }
    let barycentric = match doc.push_accessor(record) {
        Ok(i) => i,
        Err(e) => {
            return Err(e);
        },
    };
    let record = Accessor {
        buffer_view: index_view,
        byte_offset: 0,
        count: index_count as u32,
        component_type: ComponentType::U16,
        shape: Shape::Scalar,
        bounds: None,
    };
    proof {
        lemma_element_size(record);
    }
    let indices = match doc.push_accessor(record) {
        Ok(i) => i,
        Err(e) => {
            return Err(e);
        },
    };
    match doc.push_mesh(Primitive { position, color, barycentric, indices, mode: Mode::Triangles }) {
        Ok(_) => {},
        Err(e) => {
            return Err(e);
        },
    }
    proof {
        assert(doc.buffers@ =~= seq![
            (Buffer { byte_length: (40 * vertices@.len() + 2 * index_count) as u32 }),
        ]);
        assert(doc.buffer_views@ =~= view_records(vertices@.len() as int, index_count as int));
        assert(doc.accessors@ =~= accessor_records(vertices@, index_count as int));
    }
    Ok(doc)
}

/// Builds the buffer and its description in one pass.
pub fn build_asset(vertices: &Vec<Vertex>, indices: &Vec<u16>) -> (r: Result<Asset, LayoutError>)
    ensures
        match r {
            Ok(asset) => {
                &&& layout_fits(vertices@.len() as int, indices@.len() as int)
                &&& asset.buffer@ == buffer_bytes(vertices@, indices@)
                &&& asset.index_start == 40 * vertices@.len()
                &&& asset.document.wf()
                &&& describes(asset.document, vertices@, indices@.len() as int)
                &&& asset.document.buffers@[0].byte_length == asset.buffer@.len()
            },
            Err(e) => {
                &&& !layout_fits(vertices@.len() as int, indices@.len() as int)
                &&& e == LayoutError::NoVertices <==> vertices@.len() == 0
                &&& e == LayoutError::TooLarge <==> vertices@.len() > 0
            },
        },
{
    let document = match build_document(vertices, indices.len()) {
        Ok(d) => d,
        Err(e) => {
            return Err(e);
        },
    };
    let (buffer, start) = build_buffer(vertices, indices);
    Ok(Asset { document, buffer, index_start: start as u32 })
}

} // verus!
