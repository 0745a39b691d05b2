use neon_gfx::{
    compiled_filename, finish_pipeline_creation, format_hms, get_system_time, module_from_handle,
    multiview_mask, shader_stage_for_extension, target_vulkan_version, words_from_bytes,
    DestroyOp, DeviceManager, DeviceUpdateError, GraphicsError, ShaderStage, VirtualDevice,
    SPIRV_MAGIC, VIEW_COUNT,
};

#[test]
fn valid_bytecode_is_packed_into_words() {
    let bytes = vec![0x03, 0x02, 0x23, 0x07, 0x78, 0x56, 0x34, 0x12];
    let binary = words_from_bytes(&bytes).unwrap();
    assert_eq!(binary.words, vec![SPIRV_MAGIC, 0x1234_5678]);
}

#[test]
fn unaligned_bytecode_is_rejected() {
    let bytes = vec![0x03, 0x02, 0x23, 0x07, 0x78];
    assert_eq!(words_from_bytes(&bytes).unwrap_err(), GraphicsError::MalformedBytecode);
}

#[test]
fn empty_bytecode_is_rejected() {
    assert_eq!(
        words_from_bytes(&Vec::new()).unwrap_err(),
        GraphicsError::MalformedBytecode
    );
}

#[test]
fn wrong_magic_is_rejected() {
    let bytes = vec![0x07, 0x23, 0x02, 0x03];
    assert_eq!(words_from_bytes(&bytes).unwrap_err(), GraphicsError::MalformedBytecode);
}

#[test]
fn extensions_name_their_stages() {
    assert_eq!(
        shader_stage_for_extension(&"vert".to_string()),
        Some(ShaderStage::Vertex)
    );
    assert_eq!(
        shader_stage_for_extension(&"frag".to_string()),
        Some(ShaderStage::Fragment)
    );
    assert_eq!(
        shader_stage_for_extension(&"comp".to_string()),
        Some(ShaderStage::Compute)
    );
    assert_eq!(shader_stage_for_extension(&"glsl".to_string()), None);
}

#[test]
fn compiled_artifact_appends_bytecode_extension() {
    assert_eq!(
        compiled_filename(&"fullscreen.vert".to_string()),
        "fullscreen.vert.spv"
    );
}

#[test]
fn module_creation_demands_a_handle() {
    assert_eq!(
        module_from_handle(0).unwrap_err(),
        GraphicsError::ModuleCreationFailed
    );
    assert_eq!(module_from_handle(44).unwrap().handle, 44);
}

#[test]
fn shader_modules_are_released_on_both_outcomes() {
    let (ok, release) = finish_pipeline_creation(61, 62, 71, 72);
    let pipeline = ok.unwrap();
    assert_eq!(pipeline.pipeline, 61);
    assert_eq!(pipeline.layout, 62);
    assert_eq!(
        release,
        vec![DestroyOp::ShaderModule(71), DestroyOp::ShaderModule(72)]
    );
    let (err, release) = finish_pipeline_creation(0, 62, 71, 72);
    assert_eq!(err.unwrap_err(), GraphicsError::PipelineCreationFailed);
    assert_eq!(
        release,
        vec![DestroyOp::ShaderModule(71), DestroyOp::ShaderModule(72)]
    );
}

#[test]
fn pipeline_and_layout_are_destroyed_together() {
    let (ok, _) = finish_pipeline_creation(61, 62, 71, 72);
    let plan = ok.unwrap().destroy_plan();
    assert_eq!(
        plan,
        vec![DestroyOp::Pipeline(61), DestroyOp::PipelineLayout(62)]
    );
}

#[test]
fn target_version_packs_one_dot_one() {
    assert_eq!(target_vulkan_version(), 0x0040_1000);
}

#[test]
fn validation_layers_follow_the_startup_toggle() {
    let on = neon_gfx::ContextConfig { use_validation_layers: true };
    let off = neon_gfx::ContextConfig { use_validation_layers: false };
    assert_eq!(neon_gfx::enabled_layer_count(&on, 1), 1);
    assert_eq!(neon_gfx::enabled_layer_count(&off, 1), 0);
}

#[test]
fn view_mask_addresses_both_views() {
    assert_eq!(VIEW_COUNT, 2);
    assert_eq!(multiview_mask(), 0b11);
}

#[test]
fn clock_reading_renders_zero_padded() {
    assert_eq!(format_hms(9, 5, 7), "09:05:07");
    assert_eq!(format_hms(23, 59, 59), "23:59:59");
    assert_eq!(format_hms(0, 0, 0), "00:00:00");
}

#[test]
fn system_time_has_clock_shape() {
    let t = get_system_time();
    let b = t.as_bytes();
    assert_eq!(b.len(), 8);
    assert_eq!(b[2], b':');
    assert_eq!(b[5], b':');
    for &i in &[0usize, 1, 3, 4, 6, 7] {
        assert!(b[i].is_ascii_digit());
    }
    let hours: u32 = t[0..2].parse().unwrap();
    let minutes: u32 = t[3..5].parse().unwrap();
    let seconds: u32 = t[6..8].parse().unwrap();
    assert!(hours < 24);
    assert!(minutes < 60);
    assert!(seconds < 60);
}

#[test]
fn pose_updates_find_devices_by_name() {
    let mut manager = DeviceManager::new();
    manager.add_device(VirtualDevice::new("right_hand", 81));
    manager.add_device(VirtualDevice::new("left_hand", 82));
    assert_eq!(manager.update_pose("right_hand"), Ok(0));
    assert_eq!(manager.update_pose("left_hand"), Ok(1));
    assert_eq!(
        manager.update_pose("head"),
        Err(DeviceUpdateError::HandleInvalid)
    );
    assert_eq!(manager.devices[1].space, 82);
}
