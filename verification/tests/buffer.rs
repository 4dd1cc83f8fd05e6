use quad_glb::builder::{
    build_asset, build_buffer, locate_element, read_element_index, read_element_word,
};
use quad_glb::layout::{Accessor, BufferView, ComponentType, Shape, Target};
use quad_glb::quad::{build_quad, quad_indices, quad_vertices, HALF, MINUS_ONE, ONE, ZERO};
use quad_glb::vertex::{append_indices, encode_vertices, push_vertex, read_index, read_word, Vertex};
use quad_glb::wire::{push_u16_le, push_u32_le, read_u16_le, read_u32_le};

fn vertex(f: [f32; 10]) -> Vertex {
    Vertex {
        x: f[0].to_bits(),
        y: f[1].to_bits(),
        z: f[2].to_bits(),
        r: f[3].to_bits(),
        g: f[4].to_bits(),
        b: f[5].to_bits(),
        a: f[6].to_bits(),
        s: f[7].to_bits(),
        t: f[8].to_bits(),
        u: f[9].to_bits(),
    }
}

fn quad_floats() -> [[f32; 10]; 4] {
    [
        [-1.0, -1.0, 0.0, 1.0, 0.0, 0.0, 1.0, 1.0, 0.0, 0.0],
        [1.0, -1.0, 0.0, 0.5, 0.5, 0.0, 1.0, 0.0, 1.0, 0.0],
        [-1.0, 1.0, 0.0, 0.5, 0.5, 0.0, 1.0, 0.0, 0.0, 1.0],
        [1.0, 1.0, 0.0, 0.0, 1.0, 0.0, 1.0, 1.0, 0.0, 0.0],
    ]
}

#[test]
fn bit_pattern_constants_are_the_floats() {
    assert_eq!(ZERO, 0.0f32.to_bits());
    assert_eq!(HALF, 0.5f32.to_bits());
    assert_eq!(ONE, 1.0f32.to_bits());
    assert_eq!(MINUS_ONE, (-1.0f32).to_bits());
}

#[test]
fn quad_vertices_are_the_fixed_corners() {
    let vertices = quad_vertices();
    let floats = quad_floats();
    assert_eq!(vertices.len(), 4);
    for k in 0..4 {
        let want = vertex(floats[k]);
        assert_eq!(vertices[k].x, want.x);
        assert_eq!(vertices[k].y, want.y);
        assert_eq!(vertices[k].z, want.z);
        assert_eq!(vertices[k].r, want.r);
        assert_eq!(vertices[k].g, want.g);
        assert_eq!(vertices[k].b, want.b);
        assert_eq!(vertices[k].a, want.a);
        assert_eq!(vertices[k].s, want.s);
        assert_eq!(vertices[k].t, want.t);
        assert_eq!(vertices[k].u, want.u);
    }
    assert_eq!(quad_indices(), vec![0u16, 1, 2, 2, 1, 3]);
}

#[test]
fn push_u32_le_writes_least_significant_byte_first() {
    let mut buf = vec![9u8];
    push_u32_le(&mut buf, 0x0102_0304);
    assert_eq!(buf, vec![9, 4, 3, 2, 1]);
    let mut one = Vec::new();
    push_u32_le(&mut one, 1.0f32.to_bits());
    assert_eq!(one, 1.0f32.to_le_bytes().to_vec());
    assert_eq!(one, vec![0x00, 0x00, 0x80, 0x3F]);
}

#[test]
fn push_u16_le_writes_least_significant_byte_first() {
    let mut buf = Vec::new();
    push_u16_le(&mut buf, 0x0102);
    push_u16_le(&mut buf, 3);
    assert_eq!(buf, vec![2, 1, 3, 0]);
}

#[test]
fn words_read_back_as_written() {
    let mut buf = vec![0xAAu8];
    push_u32_le(&mut buf, 0xDEAD_BEEF);
    push_u16_le(&mut buf, 0xCAFE);
    assert_eq!(read_u32_le(&buf, 1), 0xDEAD_BEEF);
    assert_eq!(read_u16_le(&buf, 5), 0xCAFE);
    let mut top = Vec::new();
    push_u32_le(&mut top, u32::MAX);
    push_u16_le(&mut top, u16::MAX);
    assert_eq!(top, vec![0xFF; 6]);
    assert_eq!(read_u32_le(&top, 0), u32::MAX);
    assert_eq!(read_u16_le(&top, 4), u16::MAX);
}

#[test]
fn one_vertex_is_forty_bytes_in_field_order() {
    let f = [1.5f32, -2.0, 3.25, 0.1, 0.2, 0.3, 0.4, 7.0, 8.0, 9.0];
    let mut want = Vec::new();
    for x in f {
        want.extend_from_slice(&x.to_le_bytes());
    }
    let mut buf = Vec::new();
    push_vertex(&mut buf, &vertex(f));
    assert_eq!(buf.len(), 40);
    assert_eq!(buf, want);
    assert_eq!(encode_vertices(&vec![vertex(f)]), want);
}

#[test]
fn no_vertices_give_no_bytes() {
    assert_eq!(encode_vertices(&Vec::new()), Vec::<u8>::new());
    let mut buf = vec![1u8, 2];
    let start = append_indices(&mut buf, &Vec::new());
    assert_eq!(start, 2);
    assert_eq!(buf, vec![1, 2]);
}

#[test]
fn indices_follow_the_vertices_without_a_gap() {
    let mut buf = vec![7u8; 5];
    let start = append_indices(&mut buf, &vec![0x0100, 2]);
    assert_eq!(start, 5);
    assert_eq!(buf, vec![7, 7, 7, 7, 7, 0, 1, 2, 0]);
}

#[test]
fn quad_buffer_has_160_vertex_bytes_and_12_index_bytes() {
    let vertices = quad_vertices();
    let indices = quad_indices();
    assert_eq!(encode_vertices(&vertices).len(), 160);
    let (buffer, start) = build_buffer(&vertices, &indices);
    assert_eq!(start, 160);
    assert_eq!(buffer.len() - start, 12);
    assert_eq!(buffer.len(), 172);
    let asset = build_quad().unwrap();
    assert_eq!(asset.buffer.len(), 172);
    assert_eq!(asset.index_start, 160);
    assert_eq!(asset.buffer, buffer);
}

#[test]
fn quad_buffer_is_byte_for_byte_the_floats_then_the_indices() {
    let mut want = Vec::new();
    for v in quad_floats() {
        for x in v {
            want.extend_from_slice(&x.to_le_bytes());
        }
    }
    for i in [0u16, 1, 2, 2, 1, 3] {
        want.extend_from_slice(&i.to_le_bytes());
    }
    assert_eq!(build_quad().unwrap().buffer, want);
}

#[test]
fn attribute_accessors_decode_to_the_input() {
    let asset = build_quad().unwrap();
    let doc = &asset.document;
    let primitive = doc.meshes[0].primitives[0];
    let floats = quad_floats();
    let roles = [(primitive.position, 0usize, 3usize), (primitive.color, 3, 4), (primitive.barycentric, 7, 3)];
    for (index, first, arity) in roles {
        let accessor = doc.accessors[index as usize];
        let view = doc.buffer_views[accessor.buffer_view as usize];
        assert_eq!(view.byte_offset, 0);
        assert_eq!(accessor.byte_offset as usize, 4 * first);
        assert_eq!(accessor.shape.arity() as usize, arity);
        assert_eq!(accessor.count, 4);
        for k in 0..4usize {
            for c in 0..arity {
                let at = view.byte_offset as usize
                    + accessor.byte_offset as usize
                    + view.byte_stride.unwrap() as usize * k
                    + 4 * c;
                let bits = read_u32_le(&asset.buffer, at);
                assert_eq!(f32::from_bits(bits), floats[k][first + c]);
                assert_eq!(read_word(&asset.buffer, k, first + c), bits);
                assert_eq!(read_element_word(&asset.buffer, &view, &accessor, k as u32, c as u32), Some(bits));
            }
        }
    }
}

#[test]
fn index_accessor_decodes_to_the_triangle_list() {
    let asset = build_quad().unwrap();
    let doc = &asset.document;
    let accessor = doc.accessors[doc.meshes[0].primitives[0].indices as usize];
    let view = doc.buffer_views[accessor.buffer_view as usize];
    assert_eq!(accessor.count, 6);
    assert_eq!(view.byte_offset, asset.index_start);
    let mut got = Vec::new();
    let mut through_accessor = Vec::new();
    for k in 0..accessor.count {
        got.push(read_index(&asset.buffer, (view.byte_offset + accessor.byte_offset) as usize, k as usize));
        through_accessor.push(read_element_index(&asset.buffer, &view, &accessor, k).unwrap());
    }
    assert_eq!(got, vec![0u16, 1, 2, 2, 1, 3]);
    assert_eq!(through_accessor, vec![0u16, 1, 2, 2, 1, 3]);
}

#[test]
fn elements_are_located_by_stride_or_packed() {
    let strided = BufferView { buffer: 0, byte_offset: 100, byte_length: 400, byte_stride: Some(40), target: Target::ArrayBuffer };
    let packed = BufferView { byte_stride: None, ..strided };
    let accessor = Accessor {
        buffer_view: 0,
        byte_offset: 12,
        count: 10,
        component_type: ComponentType::F32,
        shape: Shape::Vec4,
        bounds: None,
    };
    assert_eq!(locate_element(&strided, &accessor, 0), 112);
    assert_eq!(locate_element(&strided, &accessor, 3), 232);
    assert_eq!(locate_element(&packed, &accessor, 3), 160);
    let short = Accessor { component_type: ComponentType::U16, shape: Shape::Scalar, ..accessor };
    assert_eq!(locate_element(&packed, &short, 3), 118);
    let far = BufferView { byte_offset: u32::MAX, byte_stride: Some(u32::MAX), ..strided };
    let last = Accessor { byte_offset: u32::MAX, ..accessor };
    assert_eq!(locate_element(&far, &last, u32::MAX), u64::MAX as u128);
}

#[test]
fn reading_past_the_buffer_gives_none() {
    let asset = build_quad().unwrap();
    let doc = &asset.document;
    let vertex_view = doc.buffer_views[0];
    let index_view = doc.buffer_views[1];
    let bary = doc.accessors[2];
    let indices = doc.accessors[3];
    assert!(read_element_index(&asset.buffer, &index_view, &indices, 5).is_some());
    assert_eq!(read_element_index(&asset.buffer, &index_view, &indices, 6), None);
    assert_eq!(read_element_index(&asset.buffer, &index_view, &indices, u32::MAX), None);
    // The last record ends at byte 160: a word 24 bytes past its barycentric
    // coordinate would start at byte 172.
    assert!(read_element_word(&asset.buffer, &vertex_view, &bary, 3, 0).is_some());
    assert_eq!(read_element_word(&asset.buffer, &vertex_view, &bary, 3, 6), None);
    assert_eq!(read_element_word(&asset.buffer, &vertex_view, &bary, u32::MAX, u32::MAX), None);
    assert_eq!(read_element_word(&Vec::new(), &vertex_view, &bary, 0, 0), None);
}

#[test]
fn build_asset_on_other_geometry_keeps_buffer_and_document_in_step() {
    let vertices = vec![vertex([0.0; 10]), vertex([2.0; 10]), vertex([-3.0; 10])];
    let indices = vec![2u16, 1, 0];
    let asset = build_asset(&vertices, &indices).unwrap();
    assert_eq!(asset.buffer.len(), 126);
    assert_eq!(asset.index_start, 120);
    assert_eq!(asset.document.buffers[0].byte_length, 126);
    assert_eq!(read_index(&asset.buffer, 120, 0), 2);
    assert_eq!(f32::from_bits(read_word(&asset.buffer, 2, 9)), -3.0);
}
