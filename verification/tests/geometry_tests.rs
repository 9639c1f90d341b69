use handmade_hero::geometry::FrameGeometry;

#[test]
fn full_hd_stride_and_size() {
    let g = FrameGeometry::new(1920, 1080, 4).expect("full HD geometry is well formed");
    assert_eq!(g.stride(), 7680);
    assert_eq!(g.buffer_size(), 8_294_400);
}

#[test]
fn small_geometry_products() {
    let g = FrameGeometry::new(16, 8, 4).expect("small geometry is well formed");
    assert_eq!(g.stride(), 64);
    assert_eq!(g.buffer_size(), 512);
}

#[test]
fn geometry_rejects_nonpositive_dimensions() {
    assert!(FrameGeometry::new(0, 1080, 4).is_none());
    assert!(FrameGeometry::new(1920, 0, 4).is_none());
    assert!(FrameGeometry::new(1920, 1080, 0).is_none());
    assert!(FrameGeometry::new(-1920, 1080, 4).is_none());
    assert!(FrameGeometry::new(1920, -1, 4).is_none());
}

#[test]
fn geometry_rejects_overflowing_products() {
    assert!(FrameGeometry::new(i32::MAX, 1, 4).is_none());
    assert!(FrameGeometry::new(65536, 65536, 4).is_none());
    assert!(FrameGeometry::new(46341, 46341, 1).is_none());
}
