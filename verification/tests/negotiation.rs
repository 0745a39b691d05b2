use neon_gfx::{
    choose_swap_extent, choose_swap_present_mode, choose_swap_surface_format, negotiate,
    negotiated_image_count, Extent2d, GraphicsError, SurfaceCapabilities, SurfaceFormat,
    SwapChainSupportDetails, SwapchainResource, EXTENT_UNDEFINED, PRESENT_MODE_FIFO,
    PRESENT_MODE_MAILBOX,
};

fn caps(min_count: u32, max_count: u32, current_width: u32) -> SurfaceCapabilities {
    SurfaceCapabilities {
        min_image_count: min_count,
        max_image_count: max_count,
        current_extent: Extent2d { width: current_width, height: 720 },
        min_image_extent: Extent2d { width: 200, height: 100 },
        max_image_extent: Extent2d { width: 4096, height: 400 },
    }
}

#[test]
fn preferred_format_is_taken_when_offered() {
    let formats = vec![
        SurfaceFormat { format: 37, color_space: 0 },
        SurfaceFormat { format: 50, color_space: 0 },
    ];
    assert_eq!(
        choose_swap_surface_format(&formats),
        SurfaceFormat { format: 50, color_space: 0 }
    );
}

#[test]
fn single_rgba_format_falls_back_to_itself() {
    // The surface reports only R8G8B8A8_UNORM with the sRGB color space: no
    // preferred BGRA entry, so the first reported entry is taken verbatim.
    let formats = vec![SurfaceFormat { format: 37, color_space: 0 }];
    assert_eq!(
        choose_swap_surface_format(&formats),
        SurfaceFormat { format: 37, color_space: 0 }
    );
}

#[test]
fn present_mode_prefers_mailbox_then_fifo() {
    assert_eq!(choose_swap_present_mode(&vec![2, 1, 0]), PRESENT_MODE_MAILBOX);
    assert_eq!(choose_swap_present_mode(&vec![2, 0]), PRESENT_MODE_FIFO);
    assert_eq!(choose_swap_present_mode(&Vec::new()), PRESENT_MODE_FIFO);
}

#[test]
fn defined_current_extent_is_used_verbatim() {
    let c = caps(2, 8, 1280);
    assert_eq!(choose_swap_extent(&c), Extent2d { width: 1280, height: 720 });
}

#[test]
fn undefined_extent_clamps_the_default() {
    let c = caps(2, 8, EXTENT_UNDEFINED);
    // Default 800x600 clamped into [200, 4096] x [100, 400].
    assert_eq!(choose_swap_extent(&c), Extent2d { width: 800, height: 400 });
}

#[test]
fn unbounded_image_count_is_min_plus_one() {
    assert_eq!(negotiated_image_count(&caps(2, 0, 1280)), 3);
}

#[test]
fn bounded_image_count_is_clamped() {
    assert_eq!(negotiated_image_count(&caps(2, 3, 1280)), 3);
    assert_eq!(negotiated_image_count(&caps(2, 2, 1280)), 2);
    assert_eq!(negotiated_image_count(&caps(1, 8, 1280)), 2);
}

#[test]
fn negotiation_is_idempotent_for_unchanged_surface() {
    let support = SwapChainSupportDetails {
        capabilities: caps(2, 0, EXTENT_UNDEFINED),
        formats: vec![
            SurfaceFormat { format: 37, color_space: 0 },
            SurfaceFormat { format: 50, color_space: 0 },
        ],
        present_modes: vec![2, 1],
    };
    let first = negotiate(&support);
    let second = negotiate(&support);
    assert_eq!(first, second);
    assert_eq!(first.format, SurfaceFormat { format: 50, color_space: 0 });
    assert_eq!(first.present_mode, PRESENT_MODE_MAILBOX);
    assert_eq!(first.extent, Extent2d { width: 800, height: 400 });
    assert_eq!(first.image_count, 3);
}

#[test]
fn swapchain_assembly_pairs_views_with_images() {
    let support = SwapChainSupportDetails {
        capabilities: caps(2, 0, 1280),
        formats: vec![SurfaceFormat { format: 50, color_space: 0 }],
        present_modes: vec![2],
    };
    let config = negotiate(&support);
    let ok = SwapchainResource::assemble(77, config, vec![1, 2, 3], vec![4, 5, 6]).unwrap();
    assert_eq!(ok.images.len(), ok.views.len());
    assert!(ok.framebuffers.is_empty());
    assert_eq!(
        SwapchainResource::assemble(77, config, vec![1, 2, 3], vec![4, 5]).unwrap_err(),
        GraphicsError::SwapchainCreationFailed
    );
    assert_eq!(
        SwapchainResource::assemble(0, config, vec![1], vec![4]).unwrap_err(),
        GraphicsError::SwapchainCreationFailed
    );
}

#[test]
fn framebuffers_must_match_image_count() {
    let support = SwapChainSupportDetails {
        capabilities: caps(2, 0, 1280),
        formats: vec![SurfaceFormat { format: 50, color_space: 0 }],
        present_modes: vec![2],
    };
    let config = negotiate(&support);
    let mut res = SwapchainResource::assemble(77, config, vec![1, 2], vec![3, 4]).unwrap();
    assert_eq!(
        res.attach_framebuffers(vec![9]).unwrap_err(),
        GraphicsError::SwapchainCreationFailed
    );
    res.attach_framebuffers(vec![9, 10]).unwrap();
    assert_eq!(res.framebuffers, vec![9, 10]);
}
