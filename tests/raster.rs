use libray::raster::{Raster, RasterError};

#[test]
fn raster_accepts_wider_than_tall() {
    let r = Raster::new(100, 50).unwrap();
    assert_eq!(r.width, 100);
    assert_eq!(r.height, 50);
    assert_eq!(r.pixel_count(), 5000);
}

#[test]
fn raster_rejects_square_and_tall() {
    assert_eq!(Raster::new(50, 50), Err(RasterError::NotWider));
    assert_eq!(Raster::new(50, 100), Err(RasterError::NotWider));
    assert_eq!(Raster::new(0, 0), Err(RasterError::NotWider));
}

#[test]
fn raster_position_is_row_major() {
    let r = Raster::new(100, 50).unwrap();
    assert_eq!(r.position(0), (0, 0));
    assert_eq!(r.position(99), (99, 0));
    assert_eq!(r.position(100), (0, 1));
    assert_eq!(r.position(2550), (50, 25));
    assert_eq!(r.position(4999), (99, 49));
}

#[test]
fn raster_index_inverts_position() {
    let r = Raster::new(7, 3).unwrap();
    for i in 0..r.pixel_count() {
        let (x, y) = r.position(i);
        assert!(x < 7 && y < 3);
        assert_eq!(r.index(x, y), i);
    }
    assert_eq!(r.index(6, 2), 20);
}

#[test]
fn raster_largest_dimensions() {
    let r = Raster::new(u32::MAX, u32::MAX - 1).unwrap();
    let n = r.pixel_count();
    assert_eq!(n, u32::MAX as u64 * (u32::MAX as u64 - 1));
    assert_eq!(r.position(n - 1), (u32::MAX - 1, u32::MAX - 2));
    assert_eq!(r.index(u32::MAX - 1, u32::MAX - 2), n - 1);
}

#[test]
fn raster_center_pixel_slot() {
    let r = Raster::new(100, 50).unwrap();
    let i = r.index(50, 25);
    assert_eq!(i, 25 * 100 + 50);
    assert_eq!(r.position(i), (50, 25));
}
