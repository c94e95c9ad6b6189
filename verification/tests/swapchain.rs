use gpu_bootstrap::context::{
    clamp_u32, derive_config, queue_requests, Extent, SharingMode, SurfaceCaps,
    COMPOSITE_ALPHA_OPAQUE, IMAGE_USAGE_COLOR_ATTACHMENT,
};
use gpu_bootstrap::device::SurfaceFormat;

fn caps() -> SurfaceCaps {
    SurfaceCaps {
        min_image_count: 2,
        max_image_count: 8,
        min_image_extent: Extent { width: 256, height: 256 },
        max_image_extent: Extent { width: 1920, height: 1080 },
        current_transform: 1,
    }
}

fn formats() -> Vec<SurfaceFormat> {
    vec![SurfaceFormat { format: 44, color_space: 0 }, SurfaceFormat { format: 50, color_space: 0 }]
}

fn modes() -> Vec<u32> {
    vec![2, 0]
}

#[test]
fn clamp_u32_keeps_in_range_values() {
    assert_eq!(clamp_u32(5, 1, 10), 5);
    assert_eq!(clamp_u32(0, 1, 10), 1);
    assert_eq!(clamp_u32(11, 1, 10), 10);
}

#[test]
fn oversized_window_extent_is_clamped_down() {
    let cfg = derive_config(caps(), &formats(), &modes(), 0, 0, Extent { width: 3840, height: 2160 }, false);
    assert_eq!(cfg.extent, Extent { width: 1920, height: 1080 });
}

#[test]
fn undersized_window_extent_is_clamped_up() {
    let cfg = derive_config(caps(), &formats(), &modes(), 0, 0, Extent { width: 100, height: 100 }, false);
    assert_eq!(cfg.extent, Extent { width: 256, height: 256 });
}

#[test]
fn in_range_window_extent_is_kept() {
    let cfg = derive_config(caps(), &formats(), &modes(), 0, 0, Extent { width: 800, height: 600 }, false);
    assert_eq!(cfg.extent, Extent { width: 800, height: 600 });
}

#[test]
fn image_count_is_one_above_minimum() {
    let cfg = derive_config(caps(), &formats(), &modes(), 0, 0, Extent { width: 800, height: 600 }, false);
    assert_eq!(cfg.min_image_count, 3);
}

#[test]
fn image_count_clamped_to_declared_maximum() {
    let mut c = caps();
    c.min_image_count = 3;
    c.max_image_count = 3;
    let clamped = derive_config(c, &formats(), &modes(), 0, 0, Extent { width: 800, height: 600 }, true);
    assert_eq!(clamped.min_image_count, 3);
    let unclamped = derive_config(c, &formats(), &modes(), 0, 0, Extent { width: 800, height: 600 }, false);
    assert_eq!(unclamped.min_image_count, 4);
}

#[test]
fn image_count_unclamped_when_maximum_is_unlimited() {
    let mut c = caps();
    c.min_image_count = 3;
    c.max_image_count = 0;
    let cfg = derive_config(c, &formats(), &modes(), 0, 0, Extent { width: 800, height: 600 }, true);
    assert_eq!(cfg.min_image_count, 4);
}

#[test]
fn distinct_families_give_concurrent_sharing() {
    let cfg = derive_config(caps(), &formats(), &modes(), 2, 5, Extent { width: 800, height: 600 }, false);
    assert_eq!(cfg.sharing_mode, SharingMode::Concurrent);
    assert_eq!(cfg.queue_family_indices, vec![2, 5]);
    assert_eq!(cfg.queue_family_index_count, 2);
}

#[test]
fn single_family_gives_exclusive_sharing() {
    let cfg = derive_config(caps(), &formats(), &modes(), 3, 3, Extent { width: 800, height: 600 }, false);
    assert_eq!(cfg.sharing_mode, SharingMode::Exclusive);
    assert!(cfg.queue_family_indices.is_empty());
    assert_eq!(cfg.queue_family_index_count, 0);
}

#[test]
fn first_format_and_present_mode_are_taken() {
    let cfg = derive_config(caps(), &formats(), &modes(), 0, 0, Extent { width: 800, height: 600 }, false);
    assert_eq!(cfg.format, 44);
    assert_eq!(cfg.color_space, 0);
    assert_eq!(cfg.present_mode, 2);
}

#[test]
fn fixed_fields_hold_their_values() {
    let cfg = derive_config(caps(), &formats(), &modes(), 0, 0, Extent { width: 800, height: 600 }, false);
    assert_eq!(cfg.composite_alpha, COMPOSITE_ALPHA_OPAQUE);
    assert_eq!(cfg.image_usage, IMAGE_USAGE_COLOR_ATTACHMENT);
    assert!(cfg.clipped);
    assert_eq!(cfg.image_array_layers, 1);
    assert_eq!(cfg.pre_transform, 1);
}

#[test]
fn one_queue_is_requested_per_family() {
    let reqs = queue_requests(&vec![2, 5]);
    assert_eq!(reqs.len(), 2);
    assert_eq!(reqs[0].family_index, 2);
    assert_eq!(reqs[0].queue_count, 1);
    assert_eq!(reqs[1].family_index, 5);
    assert_eq!(reqs[1].queue_count, 1);
}
