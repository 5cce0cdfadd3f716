use gdeh0213b72::{cell_index, Pixel, BUFFER_LEN, GDEH0213B72};

fn lit(buf: &[u8]) -> Vec<usize> {
    (0..buf.len()).filter(|&i| buf[i] != 0).collect()
}

#[test]
fn new_panel_is_blank() {
    let panel = GDEH0213B72::new();
    assert_eq!(panel.framebuffer().len(), BUFFER_LEN);
    assert!(panel.framebuffer().iter().all(|&c| c == 0));
}

#[test]
fn size_is_fixed() {
    let mut panel = GDEH0213B72::new();
    assert_eq!(panel.size(), (250, 122));
    panel.set_pixel(3, 4, true);
    panel.draw_iter(&[Pixel { x: 1000, y: -5, on: true }]);
    assert_eq!(panel.size(), (250, 122));
}

#[test]
fn set_pixel_in_bounds_reads_back() {
    let mut panel = GDEH0213B72::new();
    panel.set_pixel(10, 5, true);
    assert_eq!(lit(panel.framebuffer()), vec![620]);
    panel.set_pixel(10, 5, false);
    assert!(lit(panel.framebuffer()).is_empty());
}

#[test]
fn set_pixel_corners() {
    let mut panel = GDEH0213B72::new();
    panel.set_pixel(0, 0, true);
    panel.set_pixel(249, 121, true);
    assert_eq!(lit(panel.framebuffer()), vec![0, 249 + 121 * 122]);
}

#[test]
fn set_pixel_row_stride_is_height() {
    let mut panel = GDEH0213B72::new();
    panel.set_pixel(122, 0, true);
    assert_eq!(panel.framebuffer()[122], 1);
    panel.set_pixel(0, 1, false);
    assert_eq!(panel.framebuffer()[122], 0);
}

#[test]
fn set_pixel_out_of_bounds_is_dropped() {
    let mut panel = GDEH0213B72::new();
    for &(x, y) in &[(-1, 0), (0, -1), (250, 0), (0, 122), (250, 122), (i32::MIN, i32::MAX), (i32::MAX, 0)] {
        panel.set_pixel(x, y, true);
    }
    assert!(lit(panel.framebuffer()).is_empty());
}

#[test]
fn cell_index_maps_coordinates() {
    assert_eq!(cell_index(0, 0), Some(0));
    assert_eq!(cell_index(10, 5), Some(620));
    assert_eq!(cell_index(249, 121), Some(15011));
    assert_eq!(cell_index(250, 0), None);
    assert_eq!(cell_index(0, 122), None);
    assert_eq!(cell_index(-1, 3), None);
}

#[test]
fn draw_iter_last_write_wins() {
    let mut panel = GDEH0213B72::new();
    panel.draw_iter(&[
        Pixel { x: 1, y: 1, on: true },
        Pixel { x: 2, y: 1, on: true },
        Pixel { x: -4, y: 1, on: true },
        Pixel { x: 1, y: 1, on: false },
        Pixel { x: 7, y: 300, on: true },
    ]);
    assert_eq!(lit(panel.framebuffer()), vec![2 + 122]);
}

#[test]
fn draw_iter_empty_changes_nothing() {
    let mut panel = GDEH0213B72::new();
    panel.set_pixel(5, 5, true);
    panel.draw_iter(&[]);
    assert_eq!(lit(panel.framebuffer()), vec![5 + 5 * 122]);
}
