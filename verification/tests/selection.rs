use neon_gfx::{
    check_device_extension_support, device_from_queues, find_queue_families, is_device_suitable,
    score_physical_device, select, unique_queue_families, DeviceType, Extent2d, GraphicsAdapter,
    GraphicsError, QueueFamilyProps, SurfaceCapabilities, SurfaceFormat, SwapChainSupportDetails,
    DISCRETE_BONUS,
};

fn plain_caps() -> SurfaceCapabilities {
    SurfaceCapabilities {
        min_image_count: 2,
        max_image_count: 8,
        current_extent: Extent2d { width: 1280, height: 720 },
        min_image_extent: Extent2d { width: 1, height: 1 },
        max_image_extent: Extent2d { width: 4096, height: 4096 },
    }
}

fn adequate_surface() -> SwapChainSupportDetails {
    SwapChainSupportDetails {
        capabilities: plain_caps(),
        formats: vec![SurfaceFormat { format: 50, color_space: 0 }],
        present_modes: vec![2],
    }
}

fn adapter(device_type: DeviceType, max_dim: u32, suitable: bool) -> GraphicsAdapter {
    GraphicsAdapter {
        device_type,
        max_image_dimension2d: max_dim,
        geometry_shader: true,
        queue_families: vec![QueueFamilyProps { graphics: true, present: true }],
        extensions: if suitable {
            vec![String::from("VK_KHR_swapchain")]
        } else {
            vec![String::from("VK_KHR_other")]
        },
        surface: adequate_surface(),
    }
}

#[test]
fn discrete_bonus_outweighs_dimension() {
    let adapters = vec![
        adapter(DeviceType::IntegratedGpu, 8192, true),
        adapter(DeviceType::DiscreteGpu, 4096, true),
    ];
    let (index, assignment) = select(&adapters).unwrap();
    assert_eq!(index, 1);
    assert!(assignment.is_complete());
}

#[test]
fn suitable_adapter_yields_complete_assignment() {
    let adapters = vec![adapter(DeviceType::Cpu, 16, true)];
    let (index, assignment) = select(&adapters).unwrap();
    assert_eq!(index, 0);
    assert_eq!(assignment.graphics_family, Some(0));
    assert_eq!(assignment.present_family, Some(0));
    assert!(assignment.is_complete());
}

#[test]
fn no_suitable_adapter_is_reported() {
    let adapters = vec![
        adapter(DeviceType::DiscreteGpu, 4096, false),
        adapter(DeviceType::IntegratedGpu, 8192, false),
    ];
    assert_eq!(select(&adapters).unwrap_err(), GraphicsError::NoSuitableAdapter);
}

#[test]
fn empty_adapter_list_is_reported() {
    let adapters: Vec<GraphicsAdapter> = Vec::new();
    assert_eq!(select(&adapters).unwrap_err(), GraphicsError::NoSuitableAdapter);
}

#[test]
fn tie_goes_to_first_seen() {
    let adapters = vec![
        adapter(DeviceType::DiscreteGpu, 4096, true),
        adapter(DeviceType::DiscreteGpu, 4096, true),
    ];
    let (index, _) = select(&adapters).unwrap();
    assert_eq!(index, 0);
}

#[test]
fn missing_geometry_shader_scores_zero() {
    let mut a = adapter(DeviceType::DiscreteGpu, 4096, true);
    a.geometry_shader = false;
    assert_eq!(score_physical_device(&a), 0);
    let b = adapter(DeviceType::DiscreteGpu, 4096, true);
    assert_eq!(score_physical_device(&b), DISCRETE_BONUS + 4096);
    let c = adapter(DeviceType::IntegratedGpu, 8192, true);
    assert_eq!(score_physical_device(&c), 8192);
}

#[test]
fn first_graphics_and_present_families_win() {
    let fams = vec![
        QueueFamilyProps { graphics: false, present: false },
        QueueFamilyProps { graphics: true, present: false },
        QueueFamilyProps { graphics: true, present: true },
        QueueFamilyProps { graphics: false, present: true },
    ];
    let r = find_queue_families(&fams);
    assert_eq!(r.graphics_family, Some(1));
    assert_eq!(r.present_family, Some(2));
}

#[test]
fn short_circuit_matches_full_scan() {
    // The scan may stop once both roles are filled; a later family that
    // also offers graphics must not change the result.
    let early_stop = vec![
        QueueFamilyProps { graphics: true, present: true },
        QueueFamilyProps { graphics: true, present: true },
    ];
    let r = find_queue_families(&early_stop);
    assert_eq!(r.graphics_family, Some(0));
    assert_eq!(r.present_family, Some(0));
}

#[test]
fn queue_family_search_can_come_up_empty() {
    let fams = vec![QueueFamilyProps { graphics: false, present: false }];
    let r = find_queue_families(&fams);
    assert_eq!(r.graphics_family, None);
    assert_eq!(r.present_family, None);
    assert!(!r.is_complete());
}

#[test]
fn extension_check_looks_for_swapchain_support() {
    let with = vec![String::from("VK_EXT_debug_utils"), String::from("VK_KHR_swapchain")];
    let without = vec![String::from("VK_EXT_debug_utils")];
    assert!(check_device_extension_support(&with));
    assert!(!check_device_extension_support(&without));
}

#[test]
fn adapter_without_formats_is_unsuitable() {
    let mut a = adapter(DeviceType::DiscreteGpu, 4096, true);
    a.surface.formats = Vec::new();
    assert!(!is_device_suitable(&a));
    let mut b = adapter(DeviceType::DiscreteGpu, 4096, true);
    b.surface.present_modes = Vec::new();
    assert!(!is_device_suitable(&b));
    assert!(is_device_suitable(&adapter(DeviceType::DiscreteGpu, 4096, true)));
}

#[test]
fn queue_requests_are_deduplicated() {
    let shared = find_queue_families(&vec![QueueFamilyProps { graphics: true, present: true }]);
    assert_eq!(unique_queue_families(&shared), vec![0]);
    let split = find_queue_families(&vec![
        QueueFamilyProps { graphics: true, present: false },
        QueueFamilyProps { graphics: false, present: true },
    ]);
    assert_eq!(unique_queue_families(&split), vec![0, 1]);
}

#[test]
fn device_creation_demands_nonnull_queues() {
    assert_eq!(
        device_from_queues(7, 0, 9).unwrap_err(),
        GraphicsError::DeviceCreationFailed
    );
    assert_eq!(
        device_from_queues(0, 8, 9).unwrap_err(),
        GraphicsError::DeviceCreationFailed
    );
    let h = device_from_queues(7, 8, 9).unwrap();
    assert_eq!(h.device, 7);
    assert_eq!(h.graphics_queue, 8);
    assert_eq!(h.present_queue, 9);
}
