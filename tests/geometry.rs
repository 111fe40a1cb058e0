use kino::gl::{plan_vertex_object, AttributeKind, VertexAttribute, VertexObject};
use kino::layout::{
    pack_elements, pack_vertices, unit_quad_elements, unit_quad_vertices, UnsafeRectVertex,
    F32_MINUS_ONE_BITS, F32_ONE_BITS, F32_ZERO_BITS, VERTEX_STRIDE,
};

#[test]
fn float_bit_patterns_match_std() {
    assert_eq!(F32_ZERO_BITS, 0.0f32.to_bits());
    assert_eq!(F32_ONE_BITS, 1.0f32.to_bits());
    assert_eq!(F32_MINUS_ONE_BITS, (-1.0f32).to_bits());
}

#[test]
fn unit_quad_has_four_vertices_and_two_triangles() {
    let vs = unit_quad_vertices();
    let es = unit_quad_elements();
    assert_eq!(vs.len(), 4);
    assert_eq!(es, vec![0, 3, 2, 0, 1, 3]);
    let coords: Vec<(f32, f32, u8)> = vs
        .iter()
        .map(|v| (f32::from_bits(v.gl_x), f32::from_bits(v.gl_y), v.index))
        .collect();
    assert_eq!(
        coords,
        vec![(0.0, 0.0, 0), (1.0, 0.0, 1), (0.0, -1.0, 2), (1.0, -1.0, 3)]
    );
    // Both triangles have the same winding and half the square's area.
    let area2 = |a: usize, b: usize, c: usize| {
        let (ax, ay, _) = coords[a];
        let (bx, by, _) = coords[b];
        let (cx, cy, _) = coords[c];
        (bx - ax) * (cy - ay) - (by - ay) * (cx - ax)
    };
    assert_eq!(area2(0, 3, 2), -1.0);
    assert_eq!(area2(0, 1, 3), -1.0);
}

#[test]
fn vertex_records_pack_without_padding() {
    let v = UnsafeRectVertex::new(F32_ONE_BITS, F32_MINUS_ONE_BITS, 3);
    let bytes = pack_vertices(&[v]);
    assert_eq!(bytes.len(), VERTEX_STRIDE);
    let mut expected = Vec::new();
    expected.extend_from_slice(&1.0f32.to_le_bytes());
    expected.extend_from_slice(&(-1.0f32).to_le_bytes());
    expected.push(3);
    assert_eq!(bytes, expected);
}

#[test]
fn unit_quad_packs_to_thirty_six_bytes() {
    let bytes = pack_vertices(&unit_quad_vertices());
    assert_eq!(bytes.len(), 36);
    assert_eq!(&bytes[9..18], &[0, 0, 0x80, 0x3F, 0, 0, 0, 0, 1]);
    for k in 0..4 {
        assert_eq!(bytes[k * 9 + 8], k as u8);
    }
}

#[test]
fn empty_inputs_pack_to_nothing() {
    assert!(pack_vertices(&[]).is_empty());
    assert!(pack_elements(&[]).is_empty());
}

#[test]
fn elements_pack_little_endian() {
    let bytes = pack_elements(&[0, 3, 0x0102_0304]);
    assert_eq!(bytes, vec![0, 0, 0, 0, 3, 0, 0, 0, 4, 3, 2, 1]);
}

#[test]
fn plan_declares_position_and_corner_attributes() {
    let upload = plan_vertex_object(&unit_quad_vertices(), &unit_quad_elements());
    assert_eq!(
        upload.position,
        VertexAttribute {
            location: 0,
            components: 2,
            kind: AttributeKind::Float,
            stride: 9,
            offset: 0
        }
    );
    assert_eq!(
        upload.corner,
        VertexAttribute {
            location: 1,
            components: 1,
            kind: AttributeKind::UnsignedByte,
            stride: 9,
            offset: 8
        }
    );
    assert_eq!(upload.element_count, 6);
    assert_eq!(upload.vertex_bytes.len(), 36);
    assert_eq!(upload.element_bytes.len(), 24);
    let vo = VertexObject::new(5, &upload);
    assert_eq!(vo, VertexObject { array_object: 5, element_count: 6 });
}

#[test]
fn out_of_range_indices_are_uploaded_as_given() {
    let vs = vec![UnsafeRectVertex::new(F32_ZERO_BITS, F32_ZERO_BITS, 0)];
    let upload = plan_vertex_object(&vs, &[0, 7, 300]);
    assert_eq!(upload.element_count, 3);
    assert_eq!(upload.element_bytes, vec![0, 0, 0, 0, 7, 0, 0, 0, 44, 1, 0, 0]);
    assert_eq!(upload.vertex_bytes.len(), VERTEX_STRIDE);
}
