use oxitrace::device::{
    choose_swapchain_extent, choose_swapchain_format, choose_swapchain_present_mode,
    configure_swapchain, extensions_supported, is_physical_device_suitable, pick_physical_device,
    query_device_extensions_support, swapchain_image_count, swapchain_sharing, Extent2D,
    QueueFamily, SharingMode, SurfaceCapabilities, SurfaceFormat, VkQueueFamilyIndices,
    VkSwapchainSupportDetails, PRESENT_MODE_FIFO, PRESENT_MODE_MAILBOX,
};

const GRAPHICS: u32 = 1;
const COMPUTE: u32 = 2;
const TRANSFER: u32 = 4;

fn fam(queue_count: u32, queue_flags: u32, present_support: bool) -> QueueFamily {
    QueueFamily { queue_count, queue_flags, present_support }
}

fn caps(current: u32) -> SurfaceCapabilities {
    SurfaceCapabilities {
        min_image_count: 2,
        max_image_count: 8,
        current_extent: Extent2D { width: current, height: 720 },
        min_image_extent: Extent2D { width: 16, height: 16 },
        max_image_extent: Extent2D { width: 4096, height: 4096 },
    }
}

#[test]
fn queue_family_indices_start_empty() {
    let i = VkQueueFamilyIndices::new();
    assert_eq!(i.graphics, None);
    assert_eq!(i.present, None);
    assert_eq!(i.transfer, None);
    assert!(!i.is_complete());
    let full = VkQueueFamilyIndices { graphics: Some(0), present: Some(0), transfer: Some(1) };
    assert!(full.is_complete());
}

#[test]
fn find_prefers_separate_transfer_family() {
    let fams = vec![
        fam(16, GRAPHICS | COMPUTE | TRANSFER, true),
        fam(2, TRANSFER, false),
        fam(8, COMPUTE | TRANSFER, false),
    ];
    let i = VkQueueFamilyIndices::find(&fams);
    assert_eq!(i.graphics, Some(0));
    assert_eq!(i.present, Some(0));
    assert_eq!(i.transfer, Some(1));
}

#[test]
fn find_falls_back_to_graphics_for_transfer() {
    let fams = vec![fam(16, GRAPHICS | COMPUTE | TRANSFER, false), fam(1, GRAPHICS, true)];
    let i = VkQueueFamilyIndices::find(&fams);
    assert_eq!(i.graphics, Some(1));
    assert_eq!(i.present, Some(1));
    assert_eq!(i.transfer, Some(1));
}

#[test]
fn find_skips_families_without_queues() {
    let fams = vec![fam(0, GRAPHICS | TRANSFER, true), fam(4, COMPUTE, false)];
    let i = VkQueueFamilyIndices::find(&fams);
    assert_eq!(i.graphics, None);
    assert_eq!(i.present, None);
    assert_eq!(i.transfer, None);
    assert!(!i.is_complete());
}

#[test]
fn find_stops_once_complete() {
    let fams = vec![
        fam(1, GRAPHICS, true),
        fam(1, TRANSFER, false),
        fam(1, GRAPHICS, true),
        fam(1, TRANSFER, true),
    ];
    let i = VkQueueFamilyIndices::find(&fams);
    assert_eq!(i.graphics, Some(0));
    assert_eq!(i.present, Some(0));
    assert_eq!(i.transfer, Some(1));
}

#[test]
fn unique_families_drop_repeats() {
    let i = VkQueueFamilyIndices { graphics: Some(0), present: Some(0), transfer: Some(2) };
    assert_eq!(i.unique_families(), vec![0, 2]);
    let j = VkQueueFamilyIndices { graphics: Some(3), present: Some(1), transfer: Some(3) };
    assert_eq!(j.unique_families(), vec![3, 1]);
}

#[test]
fn format_prefers_srgb_bgra() {
    let formats = vec![
        SurfaceFormat { format: 44, color_space: 0 },
        SurfaceFormat { format: 50, color_space: 0 },
    ];
    assert_eq!(choose_swapchain_format(&formats), SurfaceFormat { format: 50, color_space: 0 });
    let other = vec![SurfaceFormat { format: 44, color_space: 0 }, SurfaceFormat { format: 50, color_space: 7 }];
    assert_eq!(choose_swapchain_format(&other), SurfaceFormat { format: 44, color_space: 0 });
}

#[test]
fn present_mode_prefers_mailbox() {
    assert_eq!(choose_swapchain_present_mode(&vec![2, 1, 3]), PRESENT_MODE_MAILBOX);
    assert_eq!(choose_swapchain_present_mode(&vec![0, 3]), PRESENT_MODE_FIFO);
    assert_eq!(choose_swapchain_present_mode(&vec![]), PRESENT_MODE_FIFO);
}

#[test]
fn extent_uses_current_or_clamps() {
    assert_eq!(
        choose_swapchain_extent(Extent2D { width: 5000, height: 10 }, &caps(1280)),
        Extent2D { width: 1280, height: 720 }
    );
    assert_eq!(
        choose_swapchain_extent(Extent2D { width: 5000, height: 10 }, &caps(u32::MAX)),
        Extent2D { width: 4096, height: 16 }
    );
    assert_eq!(
        choose_swapchain_extent(Extent2D { width: 1200, height: 800 }, &caps(u32::MAX)),
        Extent2D { width: 1200, height: 800 }
    );
}

#[test]
fn image_count_one_above_minimum_within_maximum() {
    assert_eq!(swapchain_image_count(&caps(0)), 3);
    let mut c = caps(0);
    c.max_image_count = 2;
    assert_eq!(swapchain_image_count(&c), 2);
    c.max_image_count = 0;
    c.min_image_count = 7;
    assert_eq!(swapchain_image_count(&c), 8);
}

#[test]
fn sharing_depends_on_families() {
    let same = VkQueueFamilyIndices { graphics: Some(0), present: Some(0), transfer: Some(0) };
    assert_eq!(swapchain_sharing(&same), SharingMode::Exclusive);
    let split = VkQueueFamilyIndices { graphics: Some(0), present: Some(2), transfer: Some(1) };
    assert_eq!(swapchain_sharing(&split), SharingMode::Concurrent(0, 2));
}

#[test]
fn swapchain_configuration() {
    let support = VkSwapchainSupportDetails {
        capabilities: caps(u32::MAX),
        formats: vec![SurfaceFormat { format: 50, color_space: 0 }],
        present_modes: vec![2],
    };
    let indices = VkQueueFamilyIndices { graphics: Some(0), present: Some(0), transfer: Some(1) };
    let c = configure_swapchain(&support, Extent2D { width: 1200, height: 800 }, &indices);
    assert_eq!(c.format, SurfaceFormat { format: 50, color_space: 0 });
    assert_eq!(c.present_mode, PRESENT_MODE_FIFO);
    assert_eq!(c.extent, Extent2D { width: 1200, height: 800 });
    assert_eq!(c.image_count, 3);
    assert_eq!(c.sharing, SharingMode::Exclusive);
}

#[test]
fn extension_support() {
    let names = vec!["VK_KHR_maintenance1".to_string(), "VK_KHR_swapchain".to_string()];
    assert!(query_device_extensions_support(&names));
    assert!(!query_device_extensions_support(&vec!["VK_KHR_maintenance1".to_string()]));
    assert!(extensions_supported(&names, &vec![]));
    assert!(!extensions_supported(&names, &vec!["VK_KHR_swapchain".to_string(), "x".to_string()]));
}

#[test]
fn device_suitability() {
    let indices = VkQueueFamilyIndices { graphics: Some(0), present: Some(0), transfer: Some(0) };
    let names = vec!["VK_KHR_swapchain".to_string()];
    let support = VkSwapchainSupportDetails {
        capabilities: caps(640),
        formats: vec![SurfaceFormat { format: 44, color_space: 0 }],
        present_modes: vec![2],
    };
    assert!(is_physical_device_suitable(&indices, &names, &support));
    let no_modes = VkSwapchainSupportDetails { capabilities: caps(640), formats: vec![], present_modes: vec![2] };
    assert!(!is_physical_device_suitable(&indices, &names, &no_modes));
    assert!(!is_physical_device_suitable(&VkQueueFamilyIndices::new(), &names, &support));
    assert!(!is_physical_device_suitable(&indices, &vec![], &support));
}

#[test]
fn picks_first_suitable_device() {
    assert_eq!(pick_physical_device(&vec![false, true, true]), Some(1));
    assert_eq!(pick_physical_device(&vec![false, false]), None);
    assert_eq!(pick_physical_device(&vec![]), None);
}
