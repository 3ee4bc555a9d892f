use gp_tuts::error::PipelineError;
use gp_tuts::mesh::TriangleList;

#[test]
fn whole_triangles_within_the_buffer_are_accepted() {
    let list = TriangleList::new(4, vec![0, 1, 2, 2, 1, 3]).unwrap();
    assert_eq!(list.triangle_count(), 2);
    assert_eq!(list.vertex_count, 4);
    assert_eq!(list.indices, vec![0, 1, 2, 2, 1, 3]);
}

#[test]
fn empty_index_data_holds_no_triangle() {
    let list = TriangleList::new(0, vec![]).unwrap();
    assert_eq!(list.triangle_count(), 0);
}

#[test]
fn index_past_the_last_vertex_is_refused() {
    assert_eq!(TriangleList::new(3, vec![0, 1, 3]).err(), Some(PipelineError::ResourceCreationFailed));
}

#[test]
fn largest_index_is_accepted_with_a_full_buffer() {
    let list = TriangleList::new(65536, vec![65535, 0, 1]).unwrap();
    assert_eq!(list.triangle_count(), 1);
}

#[test]
fn partial_triangle_is_refused() {
    assert_eq!(TriangleList::new(3, vec![0, 1, 2, 0]).err(), Some(PipelineError::ResourceCreationFailed));
}

#[test]
fn each_error_names_its_condition() {
    assert_eq!(PipelineError::InvalidCameraParameter.describe(), "invalid camera parameter");
    assert_eq!(PipelineError::DegenerateCameraBasis.describe(), "degenerate camera basis");
    assert_eq!(PipelineError::ResourceCreationFailed.describe(), "resource creation failed");
    assert_eq!(PipelineError::FrameSubmissionFailed.describe(), "frame submission failed");
}
