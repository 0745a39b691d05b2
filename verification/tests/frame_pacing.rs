use neon_gfx::{
    frame_policy, FrameAction, GraphicsError, SurfaceEvent, VulkanSyncObjects,
    MAX_FRAMES_IN_FLIGHT,
};

/// P5's runtime check: across all slots, no two outstanding submissions may
/// target the same swapchain image.
fn assert_no_duplicate_outstanding(m: &VulkanSyncObjects) {
    let outstanding: Vec<usize> =
        m.submitted_images.iter().filter_map(|s| *s).collect();
    for (a, &img_a) in outstanding.iter().enumerate() {
        for &img_b in outstanding.iter().skip(a + 1) {
            assert_ne!(img_a, img_b, "two in-flight submissions target image {img_a}");
        }
    }
}

fn fresh(n_slots: usize, n_images: usize) -> VulkanSyncObjects {
    let sems_a: Vec<u64> = (1..=n_slots as u64).collect();
    let sems_b: Vec<u64> = (101..=100 + n_slots as u64).collect();
    let fences: Vec<u64> = (201..=200 + n_slots as u64).collect();
    VulkanSyncObjects::initialize_sync_objects(sems_a, sems_b, fences, n_images)
}

/// Runs one frame of the pacing sequence against image `image`, returning
/// whether the hazard wait fired.
fn run_frame(m: &mut VulkanSyncObjects, image: usize) -> bool {
    let _fence_to_wait = m.current_slot_fence();
    m.note_slot_fence_waited();
    let hazard = m.hazard_fence(image);
    let fired = hazard.is_some();
    if fired {
        m.note_hazard_cleared(image);
    }
    m.record_submission(image);
    assert_no_duplicate_outstanding(m);
    m.advance_frame();
    fired
}

#[test]
fn initialization_starts_idle() {
    let m = fresh(2, 3);
    assert_eq!(m.current_frame, 0);
    assert!(m.images_in_flight.iter().all(|f| f.is_none()));
    assert!(m.submitted_images.iter().all(|s| s.is_none()));
    assert_eq!(m.in_flight_fences.len(), 2);
}

#[test]
fn more_images_than_slots_never_collides() {
    let mut m = fresh(2, 3);
    for frame in 0..12usize {
        run_frame(&mut m, frame % 3);
    }
}

#[test]
fn more_slots_than_images_hits_the_hazard_wait() {
    let mut m = fresh(3, 2);
    assert!(!run_frame(&mut m, 0));
    assert!(!run_frame(&mut m, 1));
    // Slot 2 acquires image 0 while slot 0's submission to it is still
    // outstanding: the recorded fence must be waited on first.
    let hazard = m.hazard_fence(0);
    assert_eq!(hazard, Some(201));
    assert!(run_frame(&mut m, 0));
    for frame in 0..9usize {
        run_frame(&mut m, frame % 2);
    }
}

#[test]
fn irregular_acquire_order_never_collides() {
    let mut m = fresh(2, 3);
    for &image in &[0usize, 0, 1, 2, 2, 0, 1, 1, 2, 0, 2, 1] {
        run_frame(&mut m, image);
    }
}

#[test]
fn round_robin_counter_wraps() {
    let mut m = fresh(2, 3);
    assert_eq!(m.current_frame, 0);
    m.advance_frame();
    assert_eq!(m.current_frame, 1);
    m.advance_frame();
    assert_eq!(m.current_frame, 0);
}

#[test]
fn hazard_record_survives_a_wait() {
    let mut m = fresh(2, 2);
    run_frame(&mut m, 0);
    // After the submission is waited for, the image stays recorded to the
    // slot but the fence is no longer outstanding.
    m.note_hazard_cleared(0);
    assert_eq!(m.images_in_flight[0], Some(0));
    assert_eq!(m.hazard_fence(0), None);
}

#[test]
fn default_table_is_empty() {
    let m = VulkanSyncObjects::default();
    assert_eq!(m.current_frame, 0);
    assert!(m.in_flight_fences.is_empty());
    assert!(m.images_in_flight.is_empty());
    assert_eq!(MAX_FRAMES_IN_FLIGHT, 2);
}

#[test]
fn stale_surface_triggers_one_recreation() {
    assert_eq!(frame_policy(SurfaceEvent::Success, false), FrameAction::Proceed);
    assert_eq!(
        frame_policy(SurfaceEvent::OutOfDate, false),
        FrameAction::RecreateSwapchain
    );
    assert_eq!(
        frame_policy(SurfaceEvent::Suboptimal, false),
        FrameAction::RecreateSwapchain
    );
    assert_eq!(
        frame_policy(SurfaceEvent::OutOfDate, true),
        FrameAction::Fail(GraphicsError::SurfaceOutOfDate)
    );
    assert_eq!(
        frame_policy(SurfaceEvent::TimedOut, false),
        FrameAction::Fail(GraphicsError::SyncWaitTimeout)
    );
    assert_eq!(
        frame_policy(SurfaceEvent::Lost, true),
        FrameAction::Fail(GraphicsError::DeviceLost)
    );
}
