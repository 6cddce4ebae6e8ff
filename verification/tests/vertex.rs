use frame_harness::geometry::{GeometryAsset, Primitive};
use frame_harness::vertex::Vertex;

#[test]
fn vertex_keeps_position_and_texture_coordinate() {
    let v = Vertex::new((-1.0f32, 0.5f32), (0.0f32, 1.0f32));
    assert_eq!(v.position, [-1.0f32, 0.5f32]);
    assert_eq!(v.tex_coords, [0.0f32, 1.0f32]);
}

#[test]
fn vertex_is_generic_over_its_number_type() {
    let v = Vertex::new((3u8, 4u8), (5u8, 6u8));
    assert_eq!(v.position, [3, 4]);
    assert_eq!(v.tex_coords, [5, 6]);
    let copy = v;
    assert_eq!(copy.position, v.position);
}

#[test]
fn quad_is_a_fan_of_the_four_corners() {
    let quad = GeometryAsset::quad();
    assert_eq!(quad.primitive(), Primitive::TriangleFan);
    let vertices = quad.vertices();
    assert_eq!(vertices.len(), 4);
    assert_eq!(vertices[0].position, [1, 1]);
    assert_eq!(vertices[0].tex_coords, [1, 1]);
    assert_eq!(vertices[1].position, [-1, 1]);
    assert_eq!(vertices[1].tex_coords, [0, 1]);
    assert_eq!(vertices[2].position, [-1, -1]);
    assert_eq!(vertices[2].tex_coords, [0, 0]);
    assert_eq!(vertices[3].position, [1, -1]);
    assert_eq!(vertices[3].tex_coords, [1, 0]);
}

#[test]
fn quad_maps_each_corner_to_the_matching_texture_corner() {
    let quad = GeometryAsset::quad();
    for v in quad.vertices().iter() {
        assert_eq!(v.tex_coords[0], (v.position[0] + 1) / 2);
        assert_eq!(v.tex_coords[1], (v.position[1] + 1) / 2);
    }
}
