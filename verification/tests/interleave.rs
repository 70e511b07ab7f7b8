use mesh_viewer::error::MeshError;
use mesh_viewer::object_loader::{merge_vertex_and_texture_positions, sequential_indices};
use mesh_viewer::webgl::triangle_colors;

fn flip(v: f32) -> f32 {
    1.0 - v
}

#[test]
fn one_triangle_is_interleaved_with_v_flipped() {
    let positions: Vec<f32> = vec![0.0, 0.0, 0.0, 1.0, 0.0, 0.0, 0.0, 1.0, 0.0];
    let texcoords: Vec<f32> = vec![0.0, 0.0, 1.0, 0.0, 0.0, 1.0];
    let indices: Vec<u16> = vec![0, 1, 2];
    let merged = merge_vertex_and_texture_positions(&positions, &indices, &texcoords, &indices, &flip).unwrap();
    assert_eq!(merged.len(), 15);
    assert_eq!(
        merged,
        vec![0.0, 0.0, 0.0, 0.0, 1.0, 1.0, 0.0, 0.0, 1.0, 1.0, 0.0, 1.0, 0.0, 0.0, 0.0]
    );
    assert_eq!(merged[4], 1.0);
    assert_eq!(merged[9], 1.0);
    assert_eq!(merged[14], 0.0);
    assert_eq!(sequential_indices((merged.len() / 5) as u16), vec![0, 1, 2]);
}

#[test]
fn corners_pair_positions_and_texcoords_by_their_own_indices() {
    let positions: Vec<f32> = vec![10.0, 11.0, 12.0, 20.0, 21.0, 22.0, 30.0, 31.0, 32.0];
    let texcoords: Vec<f32> = vec![0.25, 0.75, 0.5, 0.125];
    let position_indices: Vec<u16> = vec![2, 0, 1, 1, 1, 0];
    let texcoord_indices: Vec<u16> = vec![1, 1, 0, 0, 1, 0];
    let merged = merge_vertex_and_texture_positions(
        &positions,
        &position_indices,
        &texcoords,
        &texcoord_indices,
        &flip,
    )
    .unwrap();
    assert_eq!(
        merged,
        vec![
            30.0, 31.0, 32.0, 0.5, 0.875, 10.0, 11.0, 12.0, 0.5, 0.875, 20.0, 21.0, 22.0, 0.25,
            0.25, 20.0, 21.0, 22.0, 0.25, 0.25, 20.0, 21.0, 22.0, 0.5, 0.875, 10.0, 11.0, 12.0,
            0.25, 0.25,
        ]
    );
}

#[test]
fn repeated_corners_are_not_shared() {
    let positions: Vec<f32> = vec![1.0, 2.0, 3.0];
    let texcoords: Vec<f32> = vec![0.0, 0.0];
    let indices: Vec<u16> = vec![0, 0, 0];
    let merged = merge_vertex_and_texture_positions(&positions, &indices, &texcoords, &indices, &flip).unwrap();
    assert_eq!(merged.len(), 15);
}

#[test]
fn the_flip_is_what_the_caller_hands_in() {
    let positions: Vec<i32> = vec![1, 2, 3];
    let texcoords: Vec<i32> = vec![7, 9];
    let indices: Vec<u16> = vec![0, 0, 0];
    let merged =
        merge_vertex_and_texture_positions(&positions, &indices, &texcoords, &indices, &|v: i32| 100 - v).unwrap();
    assert_eq!(merged, vec![1, 2, 3, 7, 91, 1, 2, 3, 7, 91, 1, 2, 3, 7, 91]);
}

#[test]
fn no_corners_give_an_empty_buffer() {
    let none: Vec<f32> = vec![];
    let indices: Vec<u16> = vec![];
    assert_eq!(merge_vertex_and_texture_positions(&none, &indices, &none, &indices, &flip), Ok(vec![]));
}

#[test]
fn exactly_65535_corners_are_interleaved() {
    let positions: Vec<f32> = vec![1.0, 2.0, 3.0];
    let texcoords: Vec<f32> = vec![0.5, 0.25];
    let indices: Vec<u16> = vec![0; 65535];
    let merged = merge_vertex_and_texture_positions(&positions, &indices, &texcoords, &indices, &flip).unwrap();
    assert_eq!(merged.len(), 5 * 65535);
    assert_eq!(&merged[5 * 65534..], &[1.0, 2.0, 3.0, 0.5, 0.75]);
    let drawn = sequential_indices(65535);
    assert_eq!(drawn.len(), 65535);
    assert_eq!(drawn[65534], 65534);
}

#[test]
fn more_than_65535_corners_are_too_large() {
    let positions: Vec<f32> = vec![1.0, 2.0, 3.0];
    let texcoords: Vec<f32> = vec![0.5, 0.25];
    let indices: Vec<u16> = vec![0; 65536];
    assert_eq!(
        merge_vertex_and_texture_positions(&positions, &indices, &texcoords, &indices, &flip),
        Err(MeshError::MeshTooLarge)
    );
    let indices: Vec<u16> = vec![0; 65538];
    assert_eq!(
        merge_vertex_and_texture_positions(&positions, &indices, &texcoords, &indices, &flip),
        Err(MeshError::MeshTooLarge)
    );
}

#[test]
fn corners_that_do_not_come_in_threes_are_malformed() {
    let positions: Vec<f32> = vec![1.0, 2.0, 3.0];
    let texcoords: Vec<f32> = vec![0.5, 0.25];
    let indices: Vec<u16> = vec![0, 0, 0, 0];
    assert_eq!(
        merge_vertex_and_texture_positions(&positions, &indices, &texcoords, &indices, &flip),
        Err(MeshError::MalformedMesh)
    );
}

#[test]
fn index_arrays_of_different_length_are_malformed() {
    let positions: Vec<f32> = vec![1.0, 2.0, 3.0];
    let texcoords: Vec<f32> = vec![0.5, 0.25];
    let three: Vec<u16> = vec![0, 0, 0];
    let six: Vec<u16> = vec![0, 0, 0, 0, 0, 0];
    assert_eq!(
        merge_vertex_and_texture_positions(&positions, &three, &texcoords, &six, &flip),
        Err(MeshError::MalformedMesh)
    );
    assert_eq!(
        merge_vertex_and_texture_positions(&positions, &six, &texcoords, &three, &flip),
        Err(MeshError::MalformedMesh)
    );
}

#[test]
fn indices_out_of_range_are_malformed() {
    let positions: Vec<f32> = vec![1.0, 2.0, 3.0, 4.0, 5.0];
    let texcoords: Vec<f32> = vec![0.5, 0.25, 0.125];
    let good: Vec<u16> = vec![0, 0, 0];
    let bad: Vec<u16> = vec![0, 0, 1];
    assert_eq!(
        merge_vertex_and_texture_positions(&positions, &bad, &texcoords, &good, &flip),
        Err(MeshError::MalformedMesh)
    );
    assert_eq!(
        merge_vertex_and_texture_positions(&positions, &good, &texcoords, &bad, &flip),
        Err(MeshError::MalformedMesh)
    );
}

#[test]
fn sequential_indices_count_from_zero() {
    assert_eq!(sequential_indices(0), Vec::<u16>::new());
    assert_eq!(sequential_indices(6), vec![0, 1, 2, 3, 4, 5]);
}

#[test]
fn every_triangle_gets_its_shade_three_times() {
    let shades: Vec<f32> = vec![0.25, 1.0, 0.0];
    assert_eq!(triangle_colors(&shades), vec![0.25, 0.25, 0.25, 1.0, 1.0, 1.0, 0.0, 0.0, 0.0]);
    assert_eq!(triangle_colors(&Vec::<f32>::new()), Vec::<f32>::new());
}
