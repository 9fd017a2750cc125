use vulkan_sandbox::swapchain::{
    distinct_families, image_count, pick_extent, pick_format, pick_present_mode, Extent, SurfaceCapabilities,
    SurfaceFormat, MAX_FRAMES, PRESENT_MODE_FIFO, PRESENT_MODE_IMMEDIATE,
};

fn caps(min: u32, max: u32, current: Extent) -> SurfaceCapabilities {
    SurfaceCapabilities {
        min_image_count: min,
        max_image_count: max,
        current_extent: current,
        min_image_extent: Extent { width: 100, height: 100 },
        max_image_extent: Extent { width: 1920, height: 1080 },
    }
}

#[test]
fn prefers_srgb_format() {
    let formats = [
        SurfaceFormat { format: 44, color_space: 0 },
        SurfaceFormat { format: 50, color_space: 0 },
    ];
    assert_eq!(pick_format(&formats), SurfaceFormat { format: 50, color_space: 0 });
}

#[test]
fn falls_back_to_first_format() {
    let formats = [
        SurfaceFormat { format: 44, color_space: 0 },
        SurfaceFormat { format: 50, color_space: 1 },
    ];
    assert_eq!(pick_format(&formats), SurfaceFormat { format: 44, color_space: 0 });
}

#[test]
fn present_mode_falls_back_to_fifo() {
    assert_eq!(pick_present_mode(&[2, 0], PRESENT_MODE_IMMEDIATE), PRESENT_MODE_IMMEDIATE);
    assert_eq!(pick_present_mode(&[2, 1], PRESENT_MODE_IMMEDIATE), PRESENT_MODE_FIFO);
    assert_eq!(pick_present_mode(&[], 3), PRESENT_MODE_FIFO);
}

#[test]
fn extent_fixed_by_surface() {
    let c = caps(2, 0, Extent { width: 640, height: 480 });
    assert_eq!(pick_extent(800, 600, &c), Extent { width: 640, height: 480 });
}

#[test]
fn extent_from_window_is_clamped() {
    let c = caps(2, 0, Extent { width: u32::MAX, height: u32::MAX });
    assert_eq!(pick_extent(800, 600, &c), Extent { width: 800, height: 600 });
    assert_eq!(pick_extent(4000, 50, &c), Extent { width: 1920, height: 100 });
}

#[test]
fn image_count_is_min_plus_one_capped() {
    let e = Extent { width: 800, height: 600 };
    assert_eq!(image_count(&caps(2, 0, e)), 3);
    assert_eq!(image_count(&caps(2, 2, e)), 2);
    assert_eq!(image_count(&caps(8, 0, e)), MAX_FRAMES as u32);
    assert_eq!(image_count(&caps(u32::MAX, 0, e)), MAX_FRAMES as u32);
}

#[test]
fn distinct_queue_families() {
    assert_eq!(distinct_families(0, 0), vec![0]);
    assert_eq!(distinct_families(0, 2), vec![0, 2]);
}
