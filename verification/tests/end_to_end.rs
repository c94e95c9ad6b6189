use gpu_bootstrap::capability::validate;
use gpu_bootstrap::context::{derive_config, Extent, SharingMode, SurfaceCaps};
use gpu_bootstrap::device::{
    select_device, DeviceCandidate, DeviceKind, QueueFamily, SurfaceFormat,
};
use gpu_bootstrap::orchestrator::{pack_version, BootstrapConfig, Orchestrator, Phase, Resource};

fn name(s: &str) -> Vec<u8> {
    s.as_bytes().to_vec()
}

fn candidate(kind: DeviceKind) -> DeviceCandidate {
    DeviceCandidate {
        extensions: vec![name("VK_KHR_swapchain")],
        surface_formats: vec![SurfaceFormat { format: 44, color_space: 0 }],
        present_modes: vec![2],
        queue_families: vec![
            QueueFamily { queue_count: 1, supports_graphics: true, supports_present: false },
            QueueFamily { queue_count: 1, supports_graphics: false, supports_present: true },
        ],
        kind,
    }
}

#[test]
fn bootstrap_reaches_swapchain_and_tears_down_in_reverse() {
    let config = BootstrapConfig {
        app_name: "Playspawn".to_string(),
        app_version: pack_version(0, 1, 0, 0),
        api_version: pack_version(0, 1, 3, 0),
        enable_validation: true,
        clamp_image_count: false,
    };
    let mut orchestrator = Orchestrator::new(config);

    let required_layers = vec![name("VK_LAYER_KHRONOS_validation")];
    let available_layers = vec![name("VK_LAYER_KHRONOS_validation"), name("VK_LAYER_other")];
    assert!(validate(&required_layers, &available_layers).is_ok());
    orchestrator.instance_created();
    orchestrator.surface_created();

    let candidates = vec![candidate(DeviceKind::Integrated), candidate(DeviceKind::Discrete)];
    let required_extensions = vec![name("VK_KHR_swapchain")];
    let selected = select_device(&candidates, &required_extensions).unwrap();
    assert_eq!(selected.device_index, 1);
    assert_eq!(selected.queue_family_indices, vec![0, 1]);
    orchestrator.device_selected(selected.clone());
    orchestrator.device_created();

    let caps = SurfaceCaps {
        min_image_count: 2,
        max_image_count: 0,
        min_image_extent: Extent { width: 1, height: 1 },
        max_image_extent: Extent { width: 4096, height: 4096 },
        current_transform: 1,
    };
    let cfg = derive_config(
        caps,
        &selected.surface_formats,
        &selected.present_modes,
        selected.graphics_family,
        selected.present_family,
        Extent { width: 1280, height: 720 },
        false,
    );
    assert_eq!(cfg.min_image_count, 3);
    assert_eq!(cfg.extent, Extent { width: 1280, height: 720 });
    assert_eq!(cfg.sharing_mode, SharingMode::Concurrent);
    assert_eq!(cfg.queue_family_indices, vec![0, 1]);
    orchestrator.swapchain_created();
    assert_eq!(orchestrator.phase, Phase::SwapchainReady);

    let creation = orchestrator.created.clone();
    let teardown = orchestrator.teardown();
    let reversed: Vec<Resource> = creation.into_iter().rev().collect();
    assert_eq!(teardown, reversed);
    assert_eq!(orchestrator.phase, Phase::TornDown);
}
