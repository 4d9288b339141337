use browser::surface::{
    select_format, AppState, CompositeAlphaMode, PresentMode, TextureFormat, TextureUsage,
};

#[test]
fn format_is_picked_wherever_it_is_offered() {
    let offered = vec![TextureFormat::Other, TextureFormat::Bgra8UnormSrgb];
    assert_eq!(select_format(&offered), Some(TextureFormat::Bgra8UnormSrgb));
}

#[test]
fn format_that_is_not_offered_is_not_picked() {
    assert_eq!(select_format(&vec![TextureFormat::Other]), None);
    assert_eq!(select_format(&vec![]), None);
}

#[test]
fn surface_is_set_up_with_the_first_alpha_mode() {
    let state = AppState::new(
        &vec![TextureFormat::Other, TextureFormat::Bgra8UnormSrgb],
        &vec![CompositeAlphaMode::Opaque, CompositeAlphaMode::Inherit],
        640,
        480,
    );
    let config = state.surface_config;
    assert_eq!(config.usage, TextureUsage::RenderAttachment);
    assert_eq!(config.format, TextureFormat::Bgra8UnormSrgb);
    assert_eq!((config.width, config.height), (640, 480));
    assert_eq!(config.present_mode, PresentMode::AutoVsync);
    assert_eq!(config.desired_maximum_frame_latency, 0);
    assert_eq!(config.alpha_mode, CompositeAlphaMode::Opaque);
    assert!(config.view_formats.is_empty());
}

#[test]
fn resizing_changes_the_extent_only() {
    let mut state = AppState::new(
        &vec![TextureFormat::Bgra8UnormSrgb],
        &vec![CompositeAlphaMode::Auto],
        1,
        2,
    );
    state.resize_surface(30, 40);
    assert_eq!((state.surface_config.width, state.surface_config.height), (30, 40));
    assert_eq!(state.surface_config.alpha_mode, CompositeAlphaMode::Auto);
}
