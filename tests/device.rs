use vulkan_sandbox::device::{
    get_max_msaa_samples, get_missing_extensions, pick_physical_device, rate_physical_device,
    DeviceProfile, QueueFamilies, QueueFamilyInfo,
};
use vulkan_sandbox::error::Error;

fn profile(device_type: i32, dim: u32, push: u32) -> DeviceProfile {
    DeviceProfile {
        device_type,
        max_image_dimension_2d: dim,
        max_push_constants_size: push,
        has_extensions: true,
        has_formats: true,
        has_present_modes: true,
        families: QueueFamilies::new(Some(0), Some(0), None),
    }
}

#[test]
fn queue_families_take_last_match() {
    let families = [
        QueueFamilyInfo { flags: 0x1 | 0x4, present: false },
        QueueFamilyInfo { flags: 0x4, present: true },
        QueueFamilyInfo { flags: 0x2, present: false },
    ];
    let q = QueueFamilies::find(&families);
    assert_eq!(q.graphics(), Some(0));
    assert_eq!(q.present(), Some(1));
    assert_eq!(q.transfer(), Some(1));
    assert!(q.has_graphics() && q.has_present() && q.has_transfer());
    let none = QueueFamilies::find(&[]);
    assert!(!none.has_graphics() && !none.has_present() && !none.has_transfer());
}

#[test]
fn discrete_gpu_scores_higher() {
    assert_eq!(rate_physical_device(&profile(2, 16384, 256)), Some(1000 + 16384 + 256));
    assert_eq!(rate_physical_device(&profile(1, 16384, 256)), Some(16384 + 256));
}

#[test]
fn ineligible_devices_get_no_score() {
    let mut p = profile(2, 1, 1);
    p.has_extensions = false;
    assert_eq!(rate_physical_device(&p), None);
    let mut p = profile(2, 1, 1);
    p.families = QueueFamilies::new(Some(0), None, None);
    assert_eq!(rate_physical_device(&p), None);
    let mut p = profile(2, 1, 1);
    p.has_present_modes = false;
    assert_eq!(rate_physical_device(&p), None);
}

#[test]
fn picks_best_eligible_device() {
    let mut broken = profile(2, 99999, 999);
    broken.has_formats = false;
    let devices = [profile(1, 8192, 128), broken, profile(2, 4096, 128), profile(1, 16384, 256)];
    assert_eq!(pick_physical_device(&devices).unwrap(), 3);
    assert!(matches!(pick_physical_device(&[broken]), Err(Error::UnsuitableDevice)));
    assert!(matches!(pick_physical_device(&[]), Err(Error::UnsuitableDevice)));
}

#[test]
fn msaa_takes_largest_allowed_count() {
    assert_eq!(get_max_msaa_samples(0x1 | 0x2 | 0x4 | 0x8, 64), 8);
    assert_eq!(get_max_msaa_samples(0x1 | 0x2 | 0x4 | 0x8, 4), 4);
    assert_eq!(get_max_msaa_samples(0x7F, 64), 64);
    assert_eq!(get_max_msaa_samples(0x1, 64), 1);
    assert_eq!(get_max_msaa_samples(0x0, 64), 1);
}

#[test]
fn reports_missing_extensions() {
    let required = vec![b"VK_KHR_swapchain".to_vec(), b"VK_EXT_other".to_vec()];
    let available = vec![b"VK_KHR_maintenance1".to_vec(), b"VK_KHR_swapchain".to_vec()];
    assert_eq!(get_missing_extensions(&required, &available), vec![1]);
    assert_eq!(get_missing_extensions(&required, &required), Vec::<usize>::new());
    assert_eq!(get_missing_extensions(&required, &[]), vec![0, 1]);
}
