use esp32_lighting::led::interface::LedArray;
use esp32_lighting::led::pixel::Pixel;
use esp32_lighting::led::row_major::LedRectangularArray as RowMajorArray;

#[test]
fn row_major_new_is_dim() {
    let array = RowMajorArray::new(3, 2);
    let pixels = array.ordered_iter();
    assert_eq!(pixels.len(), 6);
    for pixel in pixels.iter() {
        assert_eq!(pixel.components(), (5, 10, 20));
    }
}

#[test]
fn row_major_order_is_row_by_row() {
    let mut array = RowMajorArray::new(3, 2);
    for y in 0..2u8 {
        for x in 0..3u8 {
            array.set_pixel(x as usize, y as usize, Pixel::new(x, y, 0));
        }
    }
    let order: Vec<(u8, u8, u8)> = array.ordered_iter().iter().map(|p| p.components()).collect();
    assert_eq!(
        order,
        vec![(0, 0, 0), (1, 0, 0), (2, 0, 0), (0, 1, 0), (1, 1, 0), (2, 1, 0)]
    );
}
