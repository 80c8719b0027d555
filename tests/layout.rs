use gl_triangle::scene::{
    upload_steps, UploadStep, VertexLayout, COORD_BYTES, DISCARDED_LOOKUP_NAME, POSITION_ATTRIBUTE,
    VERTEX_COUNT,
};

#[test]
fn three_dimensional_layout() {
    let l = VertexLayout::new(3).unwrap();
    assert_eq!(l.components(), 3);
    assert_eq!(l.coordinate_count(), 9);
    assert_eq!(l.buffer_bytes(), 36);
}

#[test]
fn two_dimensional_layout() {
    let l = VertexLayout::new(2).unwrap();
    assert_eq!(l.coordinate_count(), 6);
    assert_eq!(l.buffer_bytes(), 24);
}

#[test]
fn other_dimensions_are_refused() {
    assert!(VertexLayout::new(0).is_none());
    assert!(VertexLayout::new(1).is_none());
    assert!(VertexLayout::new(4).is_none());
}

#[test]
fn layout_constants() {
    assert_eq!(VERTEX_COUNT, 3);
    assert_eq!(COORD_BYTES, 4);
    assert_eq!(POSITION_ATTRIBUTE, "position");
}

#[test]
fn upload_order_for_three_dimensions() {
    let l = VertexLayout::new(3).unwrap();
    assert_eq!(
        upload_steps(l),
        vec![
            UploadStep::GenVertexArray,
            UploadStep::BindVertexArray,
            UploadStep::GenBuffer,
            UploadStep::BindBuffer,
            UploadStep::BufferData(36),
            UploadStep::UseProgram,
            UploadStep::LookupDiscarded,
            UploadStep::LookupPosition,
            UploadStep::EnableAttribute,
            UploadStep::AttributePointer(3),
        ]
    );
    assert_eq!(DISCARDED_LOOKUP_NAME, "out_color");
}

#[test]
fn upload_of_two_dimensions() {
    let steps = upload_steps(VertexLayout::new(2).unwrap());
    assert_eq!(steps[4], UploadStep::BufferData(24));
    assert_eq!(steps[9], UploadStep::AttributePointer(2));
}
