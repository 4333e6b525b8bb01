use esp32_lighting::led::interface::led_rectangular_array::LedRectangularArray;
use esp32_lighting::led::interface::LedArray;
use esp32_lighting::led::pixel::Pixel;
use esp32_lighting::led::test_pattern::fill_test_pattern;

#[test]
fn ordered_iter_mapping_correct() {
    //    0  1  2  3
    // 0: 17 18 19 20
    // 1: 16 15 14 13
    // 2: 9  10 11 12
    // 3: 8  7  6  5
    // 4: 1  2  3  4

    // Each entry is (row, column) of the LED shown at that chain position, as
    // the grid above draws it. `set_pixel` takes the column first, so each pair
    // is passed as (column, row); a row of 4 used as a column would lie outside
    // this 4-wide grid. The test checks the chain order only.
    let correct_order: Vec<(u8, u8)> = vec![
        (4, 0),
        (4, 1),
        (4, 2),
        (4, 3),
        (3, 3),
        (3, 2),
        (3, 1),
        (3, 0),
        (2, 0),
        (2, 1),
        (2, 2),
        (2, 3),
        (1, 3),
        (1, 2),
        (1, 1),
        (1, 0),
        (0, 0),
        (0, 1),
        (0, 2),
        (0, 3),
    ];

    let width = 4;
    let height = 5;

    let mut rectangular_array = LedRectangularArray::new(width, height);

    for (row, column) in correct_order.iter() {
        rectangular_array.set_pixel(
            column.to_owned() as usize,
            row.to_owned() as usize,
            Pixel::new(*row, *column, 0),
        );
    }

    for (i, pixel) in rectangular_array.ordered_iter().iter().enumerate() {
        let (x, y) = correct_order[i];
        assert_eq!(pixel, &Pixel::new(x, y, 0));
    }
}

#[test]
fn new_array_is_all_off() {
    let array = LedRectangularArray::new(3, 2);
    assert_eq!(array.width, 3);
    assert_eq!(array.height, 2);
    let pixels = array.ordered_iter();
    assert_eq!(pixels.len(), 6);
    for pixel in pixels.iter() {
        assert_eq!(pixel.components(), (0, 0, 0));
        assert_eq!(*pixel, Pixel::default());
    }
}

#[test]
fn empty_arrays_show_nothing() {
    assert!(LedRectangularArray::new(0, 4).ordered_iter().is_empty());
    assert!(LedRectangularArray::new(4, 0).ordered_iter().is_empty());
}

#[test]
fn single_row_runs_left_to_right() {
    let mut array = LedRectangularArray::new(3, 1);
    array.set_pixel(0, 0, Pixel::new(1, 0, 0));
    array.set_pixel(1, 0, Pixel::new(2, 0, 0));
    array.set_pixel(2, 0, Pixel::new(3, 0, 0));
    let order: Vec<(u8, u8, u8)> = array.ordered_iter().iter().map(|p| p.components()).collect();
    assert_eq!(order, vec![(1, 0, 0), (2, 0, 0), (3, 0, 0)]);
}

#[test]
fn set_pixel_changes_one_chain_position() {
    // 3 wide, 2 high: chain positions are row 1 (bottom) left to right: 0 1 2,
    // then row 0 right to left: 3 4 5, so (x = 0, y = 0) is position 5.
    let mut array = LedRectangularArray::new(3, 2);
    let before = array.ordered_iter();
    array.set_pixel(0, 0, Pixel::new(9, 8, 7));
    let after = array.ordered_iter();
    for k in 0..6 {
        if k == 5 {
            assert_eq!(after[k], Pixel::new(9, 8, 7));
        } else {
            assert_eq!(after[k], before[k]);
        }
    }
    // overwriting keeps the latest value
    array.set_pixel(0, 0, Pixel::new(1, 2, 3));
    assert_eq!(array.ordered_iter()[5], Pixel::new(1, 2, 3));
}

#[test]
fn bottom_right_of_even_height_grid() {
    // 2 wide, 2 high: bottom row left to right (0, 1), top row right to left (2, 3).
    let mut array = LedRectangularArray::new(2, 2);
    array.set_pixel(1, 1, Pixel::new(0, 0, 1));
    array.set_pixel(1, 0, Pixel::new(0, 0, 2));
    array.set_pixel(0, 0, Pixel::new(0, 0, 3));
    let order = array.ordered_iter();
    assert_eq!(order[1], Pixel::new(0, 0, 1));
    assert_eq!(order[2], Pixel::new(0, 0, 2));
    assert_eq!(order[3], Pixel::new(0, 0, 3));
    assert_eq!(order[0], Pixel::default());
}

#[test]
fn pixel_components_round_trip() {
    let pixel = Pixel::new(5, 10, 20);
    assert_eq!(pixel.components(), (5, 10, 20));
    assert_eq!(pixel.clone(), pixel);
    assert_ne!(pixel, Pixel::new(5, 10, 21));
}

#[test]
fn test_pattern_gradient() {
    let mut array = LedRectangularArray::new(16, 16);
    fill_test_pattern(&mut array);
    let order = array.ordered_iter();
    assert_eq!(order.len(), 256);
    // chain position 0 is column 0 of the bottom row (y = 15)
    assert_eq!(order[0].components(), (0, 239, 0));
    // position 15 is column 15 of the bottom row
    assert_eq!(order[15].components(), (239, 239, 0));
    // position 16 is column 15 of row 14 (the chain turns back)
    assert_eq!(order[16].components(), (239, 223, 0));
    // position 255 is row 0; 16 rows, so row 0 runs right to left: column 0
    assert_eq!(order[255].components(), (0, 0, 0));
    // column 1, row 2: (1 * 255 / 16, 2 * 255 / 16) = (15, 31); row 2 is 13 rows
    // from the bottom, so it runs right to left: position 13 * 16 + 14
    assert_eq!(order[13 * 16 + 14].components(), (15, 31, 0));
}
