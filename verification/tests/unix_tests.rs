use swaynimated::shaders::{
    create_bind_group_layout, create_pipeline, get_shaders, BindGroupLayoutBinding, BindingType,
    ShaderKind, FRAGMENT_SOURCE, VERTEX_SOURCE,
};
use swaynimated::unix::{
    background_window, wrap_ev, ButtonState, WaylandTheme, WaylandThemeObject, WindowBuilder,
    WindowBuilderExtUnix, XWindowType,
};

fn theme() -> WaylandThemeObject {
    WaylandThemeObject(WaylandTheme {
        primary_active: [1, 0, 0, 0],
        primary_inactive: [2, 0, 0, 0],
        secondary_active: [3, 0, 0, 0],
        secondary_inactive: [4, 0, 0, 0],
        close_button_hovered: [5, 0, 0, 0],
        close_button: [6, 0, 0, 0],
        maximize_button_hovered: [7, 0, 0, 0],
        maximize_button: [8, 0, 0, 0],
        minimize_button_hovered: [9, 0, 0, 0],
        minimize_button: [10, 0, 0, 0],
    })
}

#[test]
fn theme_colours_follow_focus() {
    assert_eq!(theme().get_primary_color(true), [1, 0, 0, 0]);
    assert_eq!(theme().get_primary_color(false), [2, 0, 0, 0]);
    assert_eq!(theme().get_secondary_color(true), [3, 0, 0, 0]);
    assert_eq!(theme().get_secondary_color(false), [4, 0, 0, 0]);
}

#[test]
fn theme_button_colours_follow_hover() {
    assert_eq!(theme().get_close_button_color(ButtonState::Hovered), [5, 0, 0, 0]);
    assert_eq!(theme().get_close_button_color(ButtonState::Idle), [6, 0, 0, 0]);
    assert_eq!(theme().get_close_button_color(ButtonState::Disabled), [6, 0, 0, 0]);
    assert_eq!(theme().get_maximize_button_color(ButtonState::Hovered), [7, 0, 0, 0]);
    assert_eq!(theme().get_maximize_button_color(ButtonState::Idle), [8, 0, 0, 0]);
    assert_eq!(theme().get_maximize_button_color(ButtonState::Disabled), [8, 0, 0, 0]);
    assert_eq!(theme().get_minimize_button_color(ButtonState::Hovered), [9, 0, 0, 0]);
    assert_eq!(theme().get_minimize_button_color(ButtonState::Idle), [10, 0, 0, 0]);
    assert_eq!(theme().get_minimize_button_color(ButtonState::Disabled), [10, 0, 0, 0]);
}

#[test]
fn wrap_ev_keeps_the_loop() {
    assert_eq!(wrap_ev(17u8).event_loop, 17);
    assert_eq!(wrap_ev(String::from("wayland-0")).event_loop, "wayland-0");
}

#[test]
fn builder_starts_as_an_ordinary_window() {
    let builder = WindowBuilder::new();
    assert!(!builder.input_region_disabled);
    assert!(builder.platform_specific.init_with_shell);
    assert!(!builder.platform_specific.override_redirect);
    assert_eq!(builder.platform_specific.x11_window_types, vec![XWindowType::Normal]);
    assert_eq!(builder.platform_specific.screen_id, None);
    assert_eq!(builder.platform_specific.class, None);
    assert_eq!(builder.platform_specific.gtk_theme_variant, None);
    assert_eq!(builder.platform_specific.resize_increments, None);
    assert_eq!(builder.platform_specific.base_size, None);
    assert_eq!(builder.platform_specific.app_id, None);
}

#[test]
fn builder_sets_one_hint_at_a_time() {
    let plain = WindowBuilder::new();
    let mut expected = plain.clone();
    expected.platform_specific.screen_id = Some(2);
    assert_eq!(plain.clone().with_x11_screen(2), expected);

    let mut expected = plain.clone();
    expected.platform_specific.class = Some((String::from("instance"), String::from("class")));
    assert_eq!(
        plain.clone().with_class(String::from("instance"), String::from("class")),
        expected
    );

    let mut expected = plain.clone();
    expected.platform_specific.override_redirect = true;
    assert_eq!(plain.clone().with_override_redirect(true), expected);

    let mut expected = plain.clone();
    expected.platform_specific.x11_window_types = vec![XWindowType::Desktop, XWindowType::Dock];
    assert_eq!(
        plain.clone().with_x11_window_type(vec![XWindowType::Desktop, XWindowType::Dock]),
        expected
    );

    let mut expected = plain.clone();
    expected.platform_specific.gtk_theme_variant = Some(String::from("dark"));
    assert_eq!(plain.clone().with_gtk_theme_variant(String::from("dark")), expected);

    let mut expected = plain.clone();
    expected.platform_specific.resize_increments = Some((8, 16));
    assert_eq!(plain.clone().with_resize_increments((8, 16)), expected);

    let mut expected = plain.clone();
    expected.platform_specific.base_size = Some((640, 480));
    assert_eq!(plain.clone().with_base_size((640, 480)), expected);

    let mut expected = plain.clone();
    expected.platform_specific.app_id = Some(String::from("wallpaper"));
    assert_eq!(plain.clone().with_app_id(String::from("wallpaper")), expected);

    let mut expected = plain.clone();
    expected.platform_specific.init_with_shell = false;
    assert_eq!(plain.clone().with_shell(false), expected);

    let mut expected = plain.clone();
    expected.input_region_disabled = true;
    assert_eq!(plain.disable_input_region(true), expected);
}

#[test]
fn background_window_takes_no_input_and_has_no_shell() {
    let builder = background_window();
    assert!(builder.input_region_disabled);
    assert!(!builder.platform_specific.init_with_shell);
    assert_eq!(builder, WindowBuilder::new().with_shell(false).disable_input_region(true));
}

#[test]
fn custom_fragment_replaces_the_built_in_one() {
    let shaders = get_shaders(Some(String::from("void main() {}")));
    assert_eq!(shaders.fragment.code, "void main() {}");
    assert_eq!(shaders.fragment.kind, ShaderKind::Fragment);
    assert_eq!(shaders.vertex.code, VERTEX_SOURCE);
    assert_eq!(shaders.vertex.kind, ShaderKind::Vertex);
}

#[test]
fn built_in_shaders_are_used_by_default() {
    let shaders = get_shaders(None);
    assert_eq!(shaders.fragment.code, FRAGMENT_SOURCE);
    assert_eq!(shaders.vertex.code, VERTEX_SOURCE);
    assert!(FRAGMENT_SOURCE.contains("binding = 0"));
    assert!(FRAGMENT_SOURCE.contains("binding = 1"));
    assert!(FRAGMENT_SOURCE.contains("binding = 2"));
}

#[test]
fn bind_group_layout_is_fixed() {
    assert_eq!(
        create_bind_group_layout(),
        vec![
            BindGroupLayoutBinding { binding: 0, ty: BindingType::Sampler },
            BindGroupLayoutBinding { binding: 1, ty: BindingType::SampledTextureArray },
            BindGroupLayoutBinding { binding: 2, ty: BindingType::UniformBuffer },
        ]
    );
}

#[test]
fn render_pipeline_takes_no_vertex_buffer() {
    let descriptor = create_pipeline(create_bind_group_layout(), None);
    assert_eq!(descriptor.vertex_buffers, 0);
    assert_eq!(descriptor.sample_count, 1);
    assert_eq!(descriptor.sample_mask, u32::MAX);
    assert!(!descriptor.alpha_to_coverage_enabled);
    assert_eq!(descriptor.bind_group_layout, create_bind_group_layout());
    assert_eq!(descriptor.shaders, get_shaders(None));
    let custom = create_pipeline(create_bind_group_layout(), Some(String::from("x")));
    assert_eq!(custom.shaders.fragment.code, "x");
    assert_eq!(custom.shaders.vertex.code, VERTEX_SOURCE);
}
