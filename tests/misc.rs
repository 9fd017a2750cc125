use vulkan_sandbox::clock::Clock;
use vulkan_sandbox::color::{parse_hexdigit, Color};
use vulkan_sandbox::logger::{enabled, loglevel_ansi_color, uses_stderr, LogLevel};
use vulkan_sandbox::mesh::{draw_list, load_u16_as_u32, load_u32, object_records, pad_vec, MAX_OBJECTS};
use vulkan_sandbox::resources::{ResourceCache, ResourceError};
use vulkan_sandbox::scene::Scene;
use vulkan_sandbox::error::Error;
use vulkan_sandbox::texture::{
    calculate_mip_levels, effective_mip_levels, image_usage, mip_chain, transition_masks,
    TextureInfo, TextureType, LAYOUT_SHADER_READ_ONLY_OPTIMAL, LAYOUT_TRANSFER_DST_OPTIMAL,
    LAYOUT_UNDEFINED,
};
use vulkan_sandbox::swapchain::Extent;

#[test]
fn parses_hex_colors() {
    assert_eq!(Color::hex("#FF8000").unwrap(), Color::rgb(255, 128, 0));
    assert_eq!(Color::hex("ff800040").unwrap(), Color::rgba(255, 128, 0, 64));
    assert_eq!(Color::hex("##8000ffff").unwrap(), Color::purple());
    assert!(Color::hex("#FF80").is_err());
    assert!(Color::hex("#GG8000").is_err());
    assert!(Color::hex("").is_err());
    assert!(Color::hex("#FF8000FF00").is_err());
}

#[test]
fn hex_digits() {
    assert_eq!(parse_hexdigit('7').ok(), Some(7));
    assert_eq!(parse_hexdigit('b').ok(), Some(11));
    assert_eq!(parse_hexdigit('F').ok(), Some(15));
    assert!(parse_hexdigit('g').is_err());
}

#[test]
fn named_colors() {
    assert_eq!(Color::black().to_array(), [0, 0, 0, 255]);
    assert_eq!(Color::red().to_array(), [255, 0, 0, 255]);
    assert_eq!(Color::green().to_array(), [0, 255, 0, 255]);
    assert_eq!(Color::yellow().to_array(), [255, 255, 0, 255]);
    assert_eq!(Color::blue().to_array(), [0, 0, 255, 255]);
    assert_eq!(Color::purple().to_array(), [128, 0, 255, 255]);
    assert_eq!(Color::cyan().to_array(), [0, 255, 255, 255]);
    assert_eq!(Color::white().to_array(), [255, 255, 255, 255]);
    assert_eq!(Color::magenta().to_array(), [255, 0, 255, 255]);
}

#[test]
fn clock_measures_and_resets() {
    let mut clock = Clock::new(1_000);
    assert_eq!(clock.elapsed(1_500), 500);
    assert_eq!(clock.reset(2_000), 1_000);
    assert_eq!(clock.elapsed(2_250), 250);
    assert_eq!(clock.elapsed(10), 0);
}

#[test]
fn log_levels() {
    assert_eq!(loglevel_ansi_color(LogLevel::Error), "\x1B[1;31m");
    assert_eq!(loglevel_ansi_color(LogLevel::Warn), "\x1B[1;33m");
    assert_eq!(loglevel_ansi_color(LogLevel::Info), "\x1B[1;34m");
    assert_eq!(loglevel_ansi_color(LogLevel::Debug), "\x1B[1;35m");
    assert_eq!(loglevel_ansi_color(LogLevel::Trace), "\x1B[1;36m");
    assert!(enabled(LogLevel::Info) && !enabled(LogLevel::Debug));
    assert!(!uses_stderr(LogLevel::Error) && uses_stderr(LogLevel::Warn));
}

#[test]
fn mip_levels_follow_larger_side() {
    assert_eq!(calculate_mip_levels(1, 1), 1);
    assert_eq!(calculate_mip_levels(0, 0), 1);
    assert_eq!(calculate_mip_levels(512, 256), 10);
    assert_eq!(calculate_mip_levels(300, 1000), 10);
    assert_eq!(calculate_mip_levels(1024, 1024), 11);
    assert_eq!(calculate_mip_levels(u32::MAX, 1), 32);
}

#[test]
fn requested_mip_levels_cap_the_chain() {
    let info = TextureInfo { mip_levels: 0, ..TextureInfo::default() };
    assert_eq!(effective_mip_levels(&info), 10);
    assert_eq!(effective_mip_levels(&TextureInfo::default()), 1);
    let info = TextureInfo { mip_levels: 20, width: 4, height: 4, ..TextureInfo::default() };
    assert_eq!(effective_mip_levels(&info), 3);
    assert_eq!(TextureInfo::default().ty, TextureType::Color);
}

#[test]
fn image_usage_flags() {
    assert_eq!(image_usage(TextureType::Color, 1), 0x2 | 0x4);
    assert_eq!(image_usage(TextureType::Color, 4), 0x2 | 0x4 | 0x1);
    assert_eq!(image_usage(TextureType::Depth, 1), 0x20);
}

#[test]
fn mip_chain_halves_each_side() {
    let chain = mip_chain(8, 2, 4);
    assert_eq!(chain.len(), 3);
    assert_eq!(chain[0].level, 1);
    assert_eq!(chain[0].src, Extent { width: 8, height: 2 });
    assert_eq!(chain[0].dst, Extent { width: 4, height: 1 });
    assert_eq!(chain[1].dst, Extent { width: 2, height: 1 });
    assert_eq!(chain[2].src, Extent { width: 2, height: 1 });
    assert_eq!(chain[2].dst, Extent { width: 1, height: 1 });
    assert!(mip_chain(8, 8, 1).is_empty());
    assert!(mip_chain(8, 8, 0).is_empty());
}

#[test]
fn layout_transitions() {
    let up = transition_masks(LAYOUT_UNDEFINED, LAYOUT_TRANSFER_DST_OPTIMAL).unwrap();
    assert_eq!((up.src_access, up.dst_access, up.src_stage, up.dst_stage), (0, 0x1000, 0x1, 0x1000));
    let read = transition_masks(LAYOUT_TRANSFER_DST_OPTIMAL, LAYOUT_SHADER_READ_ONLY_OPTIMAL).unwrap();
    assert_eq!((read.src_access, read.dst_access, read.src_stage, read.dst_stage), (0x1000, 0x20, 0x1000, 0x80));
    match transition_masks(LAYOUT_SHADER_READ_ONLY_OPTIMAL, LAYOUT_UNDEFINED) {
        Err(Error::UnsupportedLayoutTransition(a, b)) => assert_eq!((a, b), (5, 0)),
        other => panic!("unexpected {:?}", other),
    }
}

#[test]
fn pads_missing_attributes() {
    let mut v = vec![1, 2];
    pad_vec(&mut v, 9, 5);
    assert_eq!(v, vec![1, 2, 9, 9, 9]);
    pad_vec(&mut v, 0, 3);
    assert_eq!(v, vec![1, 2, 9, 9, 9]);
}

#[test]
fn decodes_little_endian_indices() {
    assert_eq!(load_u16_as_u32(&[1, 0, 0, 1, 0xFF, 0xFF, 7]), vec![1, 256, 65535]);
    assert_eq!(load_u32(&[1, 0, 0, 0, 0, 0, 0, 1, 9]), vec![1, 16777216]);
}

#[test]
fn draw_list_uses_object_index_as_instance() {
    let list = draw_list(&[36, 6, 12]);
    assert!(!list.truncated);
    assert_eq!(list.calls.len(), 3);
    assert_eq!(list.calls[1].object, 1);
    assert_eq!(list.calls[1].index_count, 6);
    assert_eq!(list.calls[2].first_instance, 2);
}

#[test]
fn draw_list_truncates_at_capacity() {
    let counts = vec![3u32; MAX_OBJECTS + 5];
    let list = draw_list(&counts);
    assert!(list.truncated);
    assert_eq!(list.calls.len(), MAX_OBJECTS);
    assert_eq!(object_records(MAX_OBJECTS + 5), MAX_OBJECTS);
    assert_eq!(object_records(7), 7);
}

#[test]
fn scene_tracks_changes() {
    let mut scene: Scene<u32> = Scene::new();
    assert!(!scene.is_modified());
    scene.add(4);
    scene.add(5);
    assert!(scene.is_modified());
    assert_eq!(scene.objects(), &[4, 5]);
    scene.clear_modified();
    assert!(!scene.is_modified());
    scene.objects_mut()[0] = 6;
    assert_eq!(scene.objects(), &[6, 5]);
}

#[test]
fn cache_stores_by_name() {
    let mut cache: ResourceCache<&str> = ResourceCache::new();
    let a = cache.insert("albedo".to_string(), "uv.png");
    let b = cache.insert("normal".to_string(), "n.png");
    let again = cache.insert("albedo".to_string(), "other.png");
    assert_eq!(again.index(), a.index());
    assert_ne!(a.index(), b.index());
    assert_eq!(*cache.raw(a).unwrap(), "uv.png");
    assert_eq!(*cache.raw(b).unwrap(), "n.png");
    assert_eq!(cache.get(&"normal".to_string()).unwrap().index(), b.index());
    match cache.get(&"missing".to_string()) {
        Err(ResourceError::NotFound(name)) => assert_eq!(name, "missing"),
        _ => panic!("expected NotFound"),
    }
}

#[test]
fn stale_handle_is_reported() {
    let mut other: ResourceCache<u8> = ResourceCache::new();
    let cache: ResourceCache<u8> = ResourceCache::new();
    let h = other.insert("x".to_string(), 1);
    assert!(matches!(cache.raw(h), Err(ResourceError::InvalidHandle)));
}

#[test]
fn color_from_str_and_durations() {
    let c: Color = "#00FF0080".parse().unwrap();
    assert_eq!(c, Color::rgba(0, 255, 0, 128));
    assert!("zz".parse::<Color>().is_err());
    assert_eq!(vulkan_sandbox::clock::ms(2_500_000), 2);
    assert_eq!(vulkan_sandbox::clock::us(2_500_000), 2_500);
}

#[test]
fn replacing_keeps_other_resources() {
    let mut cache: ResourceCache<u32> = ResourceCache::new();
    let a = cache.insert("a".to_string(), 1);
    let b = cache.insert("b".to_string(), 2);
    assert_eq!(cache.replace(a, 10).unwrap(), 1);
    assert_eq!(*cache.raw(a).unwrap(), 10);
    assert_eq!(*cache.raw(b).unwrap(), 2);
    assert_eq!(cache.get(&"a".to_string()).unwrap().index(), a.index());
    let other: ResourceCache<u32> = ResourceCache::new();
    let mut empty = other;
    assert!(matches!(empty.replace(a, 5), Err(ResourceError::InvalidHandle)));
}
