use mesh_viewer::error::MeshError;
use mesh_viewer::mesh::{Corner, Primitive, RawMesh, TexVertex, Vertex};
use mesh_viewer::webgl::{
    buffer_obj, buffer_scene, color_attribute, position_attribute, texcoord_attribute, Attribute,
    MeshBuffers, VertexAttribute,
};

fn flip(v: f32) -> f32 {
    1.0 - v
}

fn tri(a: usize, b: usize, c: usize, textured: bool) -> Primitive {
    let t = |i: usize| if textured { Some(i) } else { None };
    Primitive::Triangle(
        Corner { position: a, texcoord: t(a) },
        Corner { position: b, texcoord: t(b) },
        Corner { position: c, texcoord: t(c) },
    )
}

fn single_triangle(textured: bool) -> RawMesh<f32> {
    RawMesh {
        vertices: vec![
            Vertex { x: 0.0, y: 0.0, z: 0.0 },
            Vertex { x: 1.0, y: 0.0, z: 0.0 },
            Vertex { x: 0.0, y: 1.0, z: 0.0 },
        ],
        tex_vertices: if textured {
            vec![TexVertex { u: 0.0, v: 0.0 }, TexVertex { u: 1.0, v: 0.0 }, TexVertex { u: 0.0, v: 1.0 }]
        } else {
            vec![]
        },
        faces: vec![tri(0, 1, 2, textured)],
    }
}

#[test]
fn textured_mesh_is_interleaved_and_drawn_in_sequence() {
    let buffers = buffer_obj(&single_triangle(true), &flip).unwrap();
    assert!(buffers.textured);
    assert_eq!(
        buffers.vertex_data,
        vec![1.0, 0.0, 0.0, 1.0, 1.0, 0.0, 1.0, 0.0, 0.0, 0.0, 0.0, 0.0, 0.0, 0.0, 1.0]
    );
    assert_eq!(buffers.indices, vec![0, 1, 2]);
}

#[test]
fn untextured_mesh_passes_through() {
    let mesh = single_triangle(false);
    let buffers = buffer_obj(&mesh, &flip).unwrap();
    assert_eq!(
        buffers,
        MeshBuffers {
            textured: false,
            vertex_data: vec![0.0, 0.0, 0.0, 1.0, 0.0, 0.0, 0.0, 1.0, 0.0],
            indices: vec![1, 2, 0],
        }
    );
}

#[test]
fn untextured_mesh_may_share_vertices_between_many_faces() {
    let mut mesh = single_triangle(false);
    mesh.faces = vec![tri(0, 1, 2, false); 30000];
    let buffers = buffer_obj(&mesh, &flip).unwrap();
    assert_eq!(buffers.vertex_data.len(), 9);
    assert_eq!(buffers.indices.len(), 90000);
}

#[test]
fn malformed_meshes_are_not_buffered() {
    let mut mesh = single_triangle(true);
    mesh.faces.clear();
    assert_eq!(buffer_obj(&mesh, &flip), Err(MeshError::MalformedMesh));
    let mut mesh = single_triangle(true);
    mesh.faces[0] = Primitive::Triangle(
        Corner { position: 0, texcoord: Some(0) },
        Corner { position: 1, texcoord: None },
        Corner { position: 2, texcoord: Some(2) },
    );
    assert_eq!(buffer_obj(&mesh, &flip), Err(MeshError::MalformedMesh));
}

#[test]
fn textured_mesh_of_21845_faces_is_buffered_and_of_21846_is_not() {
    let mut mesh = single_triangle(true);
    mesh.faces = vec![tri(0, 1, 2, true); 21845];
    let buffers = buffer_obj(&mesh, &flip).unwrap();
    assert_eq!(buffers.indices.len(), 65535);
    assert_eq!(buffers.indices[65534], 65534);
    assert_eq!(buffers.vertex_data.len(), 5 * 65535);
    mesh.faces.push(tri(0, 1, 2, true));
    assert_eq!(buffer_obj(&mesh, &flip), Err(MeshError::MeshTooLarge));
}

#[test]
fn untextured_mesh_of_65535_vertices_is_buffered_and_of_65536_is_not() {
    let mut mesh = single_triangle(false);
    mesh.vertices = vec![Vertex { x: 0.5, y: 0.5, z: 0.5 }; 65535];
    mesh.faces = vec![tri(65534, 1, 2, false)];
    let buffers = buffer_obj(&mesh, &flip).unwrap();
    assert_eq!(buffers.vertex_data.len(), 3 * 65535);
    assert_eq!(buffers.indices, vec![1, 2, 65534]);
    mesh.vertices.push(Vertex { x: 0.5, y: 0.5, z: 0.5 });
    assert_eq!(buffer_obj(&mesh, &flip), Err(MeshError::MeshTooLarge));
}

#[test]
fn interleaved_layout_is_five_scalars_with_texcoords_after_positions() {
    assert_eq!(
        position_attribute(true),
        VertexAttribute { attribute: Attribute::Position, components: 3, stride_bytes: 20, offset_bytes: 0 }
    );
    assert_eq!(
        texcoord_attribute(),
        VertexAttribute { attribute: Attribute::TexCoord, components: 2, stride_bytes: 20, offset_bytes: 12 }
    );
}

#[test]
fn plain_layout_is_tightly_packed() {
    assert_eq!(
        position_attribute(false),
        VertexAttribute { attribute: Attribute::Position, components: 3, stride_bytes: 0, offset_bytes: 0 }
    );
    assert_eq!(
        color_attribute(),
        VertexAttribute { attribute: Attribute::Color, components: 4, stride_bytes: 0, offset_bytes: 0 }
    );
}

#[test]
fn scene_skips_objects_without_vertices() {
    let empty: RawMesh<f32> = RawMesh { vertices: vec![], tex_vertices: vec![], faces: vec![] };
    let scene = vec![empty.clone(), single_triangle(false), empty, single_triangle(true)];
    let buffers = buffer_scene(&scene, &flip).unwrap();
    assert_eq!(buffers.len(), 2);
    assert_eq!(buffers[0], buffer_obj(&single_triangle(false), &flip).unwrap());
    assert_eq!(buffers[1], buffer_obj(&single_triangle(true), &flip).unwrap());
}

#[test]
fn empty_scene_has_no_buffers() {
    let scene: Vec<RawMesh<f32>> = vec![];
    assert_eq!(buffer_scene(&scene, &flip), Ok(vec![]));
}

#[test]
fn scene_fails_with_its_first_bad_object() {
    let mut too_large = single_triangle(true);
    too_large.faces = vec![tri(0, 1, 2, true); 21846];
    let mut malformed = single_triangle(false);
    malformed.faces.clear();
    let scene = vec![single_triangle(true), too_large.clone(), malformed.clone()];
    assert_eq!(buffer_scene(&scene, &flip), Err(MeshError::MeshTooLarge));
    let scene = vec![malformed, too_large];
    assert_eq!(buffer_scene(&scene, &flip), Err(MeshError::MalformedMesh));
}

#[test]
fn textured_buffers_declare_positions_and_texcoords() {
    let buffers = buffer_obj(&single_triangle(true), &flip).unwrap();
    assert_eq!(
        buffers.attributes(),
        vec![
            VertexAttribute { attribute: Attribute::Position, components: 3, stride_bytes: 20, offset_bytes: 0 },
            VertexAttribute { attribute: Attribute::TexCoord, components: 2, stride_bytes: 20, offset_bytes: 12 },
        ]
    );
    assert_eq!(buffers.shade_count(), 0);
}

#[test]
fn untextured_buffers_declare_positions_and_colors_with_a_shade_for_every_triangle() {
    let mut mesh = single_triangle(false);
    mesh.faces = vec![tri(0, 1, 2, false); 7];
    let buffers = buffer_obj(&mesh, &flip).unwrap();
    assert_eq!(
        buffers.attributes(),
        vec![
            VertexAttribute { attribute: Attribute::Position, components: 3, stride_bytes: 0, offset_bytes: 0 },
            VertexAttribute { attribute: Attribute::Color, components: 4, stride_bytes: 0, offset_bytes: 0 },
        ]
    );
    assert_eq!(buffers.shade_count(), 7);
    let shades: Vec<f32> = (0..buffers.shade_count()).map(|t| t as f32 / 8.0).collect();
    let colors = mesh_viewer::webgl::triangle_colors(&shades);
    assert_eq!(colors.len(), buffers.indices.len());
    assert_eq!(&colors[18..], &[0.75, 0.75, 0.75]);
}
