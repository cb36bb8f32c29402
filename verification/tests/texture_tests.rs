use irid::config::PhysicalSize;
use irid::texture::{
    find_grid_cell, image_extent, log2, pow2, rgba8_image_data_layout, texture_size_grid, Extent3d,
    ImageDataLayout,
};

#[test]
fn log2_rounds_down() {
    assert_eq!(log2(1), 0);
    assert_eq!(log2(2), 1);
    assert_eq!(log2(3), 1);
    assert_eq!(log2(2048), 11);
    assert_eq!(log2(u32::MAX), 31);
}

#[test]
fn powers_of_two() {
    assert_eq!(pow2(0), 1);
    assert_eq!(pow2(8), 256);
    assert_eq!(pow2(31), 0x8000_0000);
}

#[test]
fn grid_for_downlevel_limit() {
    let grid = texture_size_grid(2048);
    assert_eq!(grid.len(), 11);
    assert!(grid.iter().all(|c| c.len() == 11));
    assert_eq!(grid[0][0], PhysicalSize { width: 1, height: 1 });
    assert_eq!(grid[8][8], PhysicalSize { width: 256, height: 256 });
    assert_eq!(grid[10][3], PhysicalSize { width: 1024, height: 8 });
}

#[test]
fn grid_for_tiny_limit_is_empty() {
    assert!(texture_size_grid(1).is_empty());
    assert_eq!(texture_size_grid(3).len(), 1);
}

#[test]
fn rgba_layout() {
    assert_eq!(
        rgba8_image_data_layout(256, 128),
        ImageDataLayout { offset: 0, bytes_per_row: Some(1024), rows_per_image: Some(128) }
    );
    assert_eq!(
        rgba8_image_data_layout(0, 0),
        ImageDataLayout { offset: 0, bytes_per_row: None, rows_per_image: None }
    );
    assert_eq!(image_extent(4, 5), Extent3d { width: 4, height: 5, depth_or_array_layers: 1 });
}

#[test]
fn finds_the_cell_of_a_prepared_size() {
    let grid = texture_size_grid(2048);
    assert_eq!(find_grid_cell(&grid, PhysicalSize { width: 256, height: 16 }), Some((8, 4)));
    assert_eq!(find_grid_cell(&grid, PhysicalSize { width: 1, height: 1 }), Some((0, 0)));
    assert_eq!(find_grid_cell(&grid, PhysicalSize { width: 3, height: 4 }), None);
    assert_eq!(find_grid_cell(&grid, PhysicalSize { width: 2048, height: 1 }), None);
}
