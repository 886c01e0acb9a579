use image_presenter::swapchain::{
    choose_format, configure_swapchain, first_srgb_index, Extent, FormatChoice, SurfaceCaps,
    SurfaceFormat, SwapchainSettings, ALPHA_INHERIT, ALPHA_OPAQUE,
};

fn caps() -> SurfaceCaps {
    SurfaceCaps {
        min_images: 2,
        end_images: 4,
        current_extent: None,
        min_extent: Extent { width: 100, height: 50 },
        end_extent: Extent { width: 1001, height: 501 },
        max_image_layers: 1,
        usage: 0x10,
        composite_alpha: ALPHA_OPAQUE | ALPHA_INHERIT,
    }
}

fn window() -> Extent {
    Extent { width: 800, height: 600 }
}

#[test]
fn default_extent_is_clamped_to_supported_range() {
    let settings = configure_swapchain(&caps(), window()).unwrap();
    assert_eq!(
        settings,
        SwapchainSettings {
            extent: Extent { width: 800, height: 500 },
            image_count: 2,
            composite_alpha: ALPHA_INHERIT,
        }
    );
    let small = configure_swapchain(&caps(), Extent { width: 1, height: 60 }).unwrap();
    assert_eq!(small.extent, Extent { width: 100, height: 60 });
    let large = configure_swapchain(&caps(), Extent { width: 5000, height: 5000 }).unwrap();
    assert_eq!(large.extent, Extent { width: 1000, height: 500 });
}

#[test]
fn current_extent_of_surface_wins() {
    let mut surface = caps();
    surface.current_extent = Some(Extent { width: 640, height: 480 });
    let settings = configure_swapchain(&surface, window()).unwrap();
    assert_eq!(settings.extent, Extent { width: 640, height: 480 });
    assert_eq!(settings.image_count, 2);
    surface.end_extent = Extent { width: 0, height: 0 };
    assert_eq!(
        configure_swapchain(&surface, window()).unwrap().extent,
        Extent { width: 640, height: 480 }
    );
}

#[test]
fn upper_bound_wins_over_lower_bound_in_empty_range() {
    let mut surface = caps();
    surface.min_extent = Extent { width: 900, height: 900 };
    surface.end_extent = Extent { width: 501, height: 401 };
    let settings = configure_swapchain(&surface, window()).unwrap();
    assert_eq!(settings.extent, Extent { width: 500, height: 400 });
}

#[test]
fn composite_alpha_prefers_inherit_then_opaque() {
    let mut surface = caps();
    surface.composite_alpha = ALPHA_OPAQUE;
    assert_eq!(configure_swapchain(&surface, window()).unwrap().composite_alpha, ALPHA_OPAQUE);
    surface.composite_alpha = ALPHA_INHERIT | 0x2;
    assert_eq!(configure_swapchain(&surface, window()).unwrap().composite_alpha, ALPHA_INHERIT);
    surface.composite_alpha = ALPHA_OPAQUE | 0x4;
    assert_eq!(configure_swapchain(&surface, window()).unwrap().composite_alpha, ALPHA_OPAQUE);
}

#[test]
fn surface_without_usable_settings_is_refused() {
    let mut surface = caps();
    surface.composite_alpha = 0x2 | 0x4;
    assert!(!surface.configurable());
    assert_eq!(configure_swapchain(&surface, window()), None);
    surface.composite_alpha = 0;
    assert_eq!(configure_swapchain(&surface, window()), None);

    let mut surface = caps();
    surface.end_extent = Extent { width: 0, height: 501 };
    assert_eq!(configure_swapchain(&surface, window()), None);
    surface.end_extent = Extent { width: 1001, height: 0 };
    assert_eq!(configure_swapchain(&surface, window()), None);
    surface.end_extent = Extent { width: 1, height: 1 };
    assert!(surface.configurable());
    assert_eq!(
        configure_swapchain(&surface, window()).unwrap().extent,
        Extent { width: 0, height: 0 }
    );
}

#[test]
fn image_count_is_least_supported() {
    let mut surface = caps();
    surface.min_images = 3;
    surface.end_images = 9;
    assert_eq!(configure_swapchain(&surface, window()).unwrap().image_count, 3);
}

fn format(code: u32, srgb: bool) -> SurfaceFormat {
    SurfaceFormat { code, srgb }
}

#[test]
fn format_defaults_to_rgba8_srgb_without_list() {
    assert_eq!(choose_format(&None), Some(FormatChoice::Rgba8Srgb));
}

#[test]
fn first_srgb_format_is_chosen() {
    let formats = vec![format(44, false), format(50, true), format(43, true)];
    assert_eq!(first_srgb_index(&formats), 1);
    assert_eq!(choose_format(&Some(formats)), Some(FormatChoice::Listed(1)));
    let formats = vec![format(43, true)];
    assert_eq!(choose_format(&Some(formats)), Some(FormatChoice::Listed(0)));
}

#[test]
fn first_format_is_chosen_without_srgb() {
    let formats = vec![format(44, false), format(37, false)];
    assert_eq!(first_srgb_index(&formats), 2);
    assert_eq!(choose_format(&Some(formats)), Some(FormatChoice::Listed(0)));
}

#[test]
fn empty_format_list_allows_no_choice() {
    assert_eq!(choose_format(&Some(Vec::new())), None);
}
