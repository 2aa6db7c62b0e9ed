//! What is particular to Unix desktops: the colours of window
//! decorations under Wayland, and the hints a window is built with.

use vstd::prelude::*;

verus! {

/// Theme for Wayland client-side decorations. Colours are in ARGB8888
/// format.
#[derive(Clone, Copy, Debug, PartialEq, Eq)]
pub struct WaylandTheme {
    /// Primary colour when the window is focused.
    pub primary_active: [u8; 4],
    /// Primary colour when the window is unfocused.
    pub primary_inactive: [u8; 4],
    /// Secondary colour when the window is focused.
    pub secondary_active: [u8; 4],
    /// Secondary colour when the window is unfocused.
    pub secondary_inactive: [u8; 4],
    /// Close button colour when hovered over.
    pub close_button_hovered: [u8; 4],
    /// Close button colour.
    pub close_button: [u8; 4],
    /// Maximize button colour when hovered over.
    pub maximize_button_hovered: [u8; 4],
    /// Maximize button colour.
    pub maximize_button: [u8; 4],
    /// Minimize button colour when hovered over.
    pub minimize_button_hovered: [u8; 4],
    /// Minimize button colour.
    pub minimize_button: [u8; 4],
}

/// The state of a decoration button.
#[derive(Clone, Copy, Debug, PartialEq, Eq)]
pub enum ButtonState {
    /// The pointer is over the button.
    Hovered,
    /// The button is at rest.
    Idle,
    /// The button cannot be used.
    Disabled,
}

/// A theme as the decorations ask it for colours.
#[derive(Clone, Copy, Debug, PartialEq, Eq)]
pub struct WaylandThemeObject(pub WaylandTheme);

impl WaylandThemeObject {
    /// The primary colour of a focused or unfocused window.
    pub fn get_primary_color(&self, active: bool) -> (color: [u8; 4])
        ensures
            color == if active {
                self.0.primary_active
            } else {
                self.0.primary_inactive
            },
    {
        if active {
            self.0.primary_active
        } else {
            self.0.primary_inactive
        }
    }

    /// The colour of the division line of a focused or unfocused window.
    pub fn get_secondary_color(&self, active: bool) -> (color: [u8; 4])
        ensures
            color == if active {
                self.0.secondary_active
            } else {
                self.0.secondary_inactive
            },
    {
        if active {
            self.0.secondary_active
        } else {
            self.0.secondary_inactive
        }
    }

    /// The colour of the close button.
    pub fn get_close_button_color(&self, state: ButtonState) -> (color: [u8; 4])
        ensures
            color == if state is Hovered {
                self.0.close_button_hovered
            } else {
                self.0.close_button
            },
    {
        match state {
            ButtonState::Hovered => self.0.close_button_hovered,
            _ => self.0.close_button,
        }
    }

    /// The colour of the maximize button.
    pub fn get_maximize_button_color(&self, state: ButtonState) -> (color: [u8; 4])
        ensures
            color == if state is Hovered {
                self.0.maximize_button_hovered
            } else {
                self.0.maximize_button
            },
    {
        match state {
            ButtonState::Hovered => self.0.maximize_button_hovered,
            _ => self.0.maximize_button,
        }
    }

    /// The colour of the minimize button.
    pub fn get_minimize_button_color(&self, state: ButtonState) -> (color: [u8; 4])
        ensures
            color == if state is Hovered {
                self.0.minimize_button_hovered
            } else {
                self.0.minimize_button
            },
    {
        match state {
            ButtonState::Hovered => self.0.minimize_button_hovered,
            _ => self.0.minimize_button,
        }
    }
}

/// An event loop over the loop of one windowing system.
#[derive(Debug)]
pub struct EventLoop<L> {
    pub event_loop: L,
}

/// Makes the event loop that runs on the given loop of a windowing
/// system.
pub fn wrap_ev<L>(event_loop: L) -> (wrapped: EventLoop<L>)
    ensures
        wrapped.event_loop == event_loop,
{
    EventLoop { event_loop }
}

/// The kind of an X11 window, as window managers read it.
#[derive(Clone, Copy, Debug, PartialEq, Eq)]
pub enum XWindowType {
    Desktop,
    Dock,
    Toolbar,
    Menu,
    Utility,
    Splash,
    Dialog,
    DropdownMenu,
    PopupMenu,
    Tooltip,
    Notification,
    Combo,
    Dnd,
    Normal,
}

/// The hints a window is built with on Unix.
#[derive(Clone, Debug, PartialEq, Eq)]
pub struct PlatformSpecificWindowBuilderAttributes {
    pub screen_id: Option<i32>,
    pub class: Option<(String, String)>,
    pub override_redirect: bool,
    pub x11_window_types: Vec<XWindowType>,
    pub gtk_theme_variant: Option<String>,
    pub resize_increments: Option<(u32, u32)>,
    pub base_size: Option<(u32, u32)>,
    pub app_id: Option<String>,
    pub init_with_shell: bool,
}

/// The description of a window that is yet to be built.
#[derive(Clone, Debug, PartialEq, Eq)]
pub struct WindowBuilder {
    /// Whether the window refuses all pointer input.
    pub input_region_disabled: bool,
    pub platform_specific: PlatformSpecificWindowBuilderAttributes,
}

/// Additional methods on `WindowBuilder` that are specific to Unix. Each
/// sets one hint and leaves the others as they are.
pub trait WindowBuilderExtUnix: Sized {
    /// The builder with the given hints in place of its own.
    spec fn with_hints(self, hints: PlatformSpecificWindowBuilderAttributes) -> Self;

    /// The hints of the builder.
    spec fn hints(self) -> PlatformSpecificWindowBuilderAttributes;

    /// Build window on the given X11 screen.
    fn with_x11_screen(self, screen_id: i32) -> (built: Self)
        ensures
            built == self.with_hints(
                PlatformSpecificWindowBuilderAttributes {
                    screen_id: Some(screen_id),
                    ..self.hints()
                },
            ),
    ;

    /// Build window with `WM_CLASS` hint: the instance name first, then
    /// the class. Only relevant on X11.
    fn with_class(self, instance: String, class: String) -> (built: Self)
        ensures
            built == self.with_hints(
                PlatformSpecificWindowBuilderAttributes {
                    class: Some((instance, class)),
                    ..self.hints()
                },
            ),
    ;

    /// Build window with override-redirect flag. Only relevant on X11.
    fn with_override_redirect(self, override_redirect: bool) -> (built: Self)
        ensures
            built == self.with_hints(
                PlatformSpecificWindowBuilderAttributes { override_redirect, ..self.hints() },
            ),
    ;

    /// Build window with `_NET_WM_WINDOW_TYPE` hints. Only relevant on
    /// X11.
    fn with_x11_window_type(self, x11_window_type: Vec<XWindowType>) -> (built: Self)
        ensures
            built == self.with_hints(
                PlatformSpecificWindowBuilderAttributes {
                    x11_window_types: x11_window_type,
                    ..self.hints()
                },
            ),
    ;

    /// Build window with `_GTK_THEME_VARIANT` hint set to the given
    /// value.
    fn with_gtk_theme_variant(self, variant: String) -> (built: Self)
        ensures
            built == self.with_hints(
                PlatformSpecificWindowBuilderAttributes {
                    gtk_theme_variant: Some(variant),
                    ..self.hints()
                },
            ),
    ;

    /// Build window with resize increment hint.
    fn with_resize_increments(self, increments: (u32, u32)) -> (built: Self)
        ensures
            built == self.with_hints(
                PlatformSpecificWindowBuilderAttributes {
                    resize_increments: Some(increments),
                    ..self.hints()
                },
            ),
    ;

    /// Build window with base size hint.
    fn with_base_size(self, base_size: (u32, u32)) -> (built: Self)
        ensures
            built == self.with_hints(
                PlatformSpecificWindowBuilderAttributes {
                    base_size: Some(base_size),
                    ..self.hints()
                },
            ),
    ;

    /// Build window with a given application ID. Only relevant on
    /// Wayland.
    fn with_app_id(self, app_id: String) -> (built: Self)
        ensures
            built == self.with_hints(
                PlatformSpecificWindowBuilderAttributes { app_id: Some(app_id), ..self.hints() },
            ),
    ;

    /// Build window with or without a shell surface of its own. A
    /// wallpaper has none: it is placed by the compositor's layer shell.
    fn with_shell(self, has_shell: bool) -> (built: Self)
        ensures
            built == self.with_hints(
                PlatformSpecificWindowBuilderAttributes {
                    init_with_shell: has_shell,
                    ..self.hints()
                },
            ),
    ;
}

impl WindowBuilder {
    /// The description of an ordinary window: it takes input, has a
    /// shell surface and the kind `Normal`, and carries no other hint.
    pub fn new() -> (builder: WindowBuilder)
        ensures
            !builder.input_region_disabled,
            builder.platform_specific.screen_id is None,
            builder.platform_specific.class is None,
            !builder.platform_specific.override_redirect,
            builder.platform_specific.x11_window_types@ == seq![XWindowType::Normal],
            builder.platform_specific.gtk_theme_variant is None,
            builder.platform_specific.resize_increments is None,
            builder.platform_specific.base_size is None,
            builder.platform_specific.app_id is None,
            builder.platform_specific.init_with_shell,
    {
        let mut x11_window_types: Vec<XWindowType> = Vec::new();
        x11_window_types.push(XWindowType::Normal);
        assert(x11_window_types@ =~= seq![XWindowType::Normal]);
        WindowBuilder {
            input_region_disabled: false,
            platform_specific: PlatformSpecificWindowBuilderAttributes {
                screen_id: None,
                class: None,
                override_redirect: false,
                x11_window_types,
                gtk_theme_variant: None,
                resize_increments: None,
                base_size: None,
                app_id: None,
                init_with_shell: true,
            },
        }
    }

    /// Build window that lets all pointer input through, or not.
    pub fn disable_input_region(self, disabled: bool) -> (built: WindowBuilder)
        ensures
            built == (WindowBuilder { input_region_disabled: disabled, ..self }),
    {
        let mut built = self;
        built.input_region_disabled = disabled;
        built
    }
}

impl WindowBuilderExtUnix for WindowBuilder {
    open spec fn with_hints(self, hints: PlatformSpecificWindowBuilderAttributes) -> Self {
        WindowBuilder { platform_specific: hints, ..self }
    }

    open spec fn hints(self) -> PlatformSpecificWindowBuilderAttributes {
        self.platform_specific
    }

    fn with_x11_screen(self, screen_id: i32) -> (built: Self) {
        let mut built = self;
        built.platform_specific.screen_id = Some(screen_id);
        built
    }

    fn with_class(self, instance: String, class: String) -> (built: Self) {
        let mut built = self;
        built.platform_specific.class = Some((instance, class));
        built
    }

    fn with_override_redirect(self, override_redirect: bool) -> (built: Self) {
        let mut built = self;
        built.platform_specific.override_redirect = override_redirect;
        built
    }

    fn with_x11_window_type(self, x11_window_type: Vec<XWindowType>) -> (built: Self) {
        let mut built = self;
        built.platform_specific.x11_window_types = x11_window_type;
        built
    }

    fn with_gtk_theme_variant(self, variant: String) -> (built: Self) {
        let mut built = self;
        built.platform_specific.gtk_theme_variant = Some(variant);
        built
    }

    fn with_resize_increments(self, increments: (u32, u32)) -> (built: Self) {
        let mut built = self;
        built.platform_specific.resize_increments = Some(increments);
        built
    }

    fn with_base_size(self, base_size: (u32, u32)) -> (built: Self) {
        let mut built = self;
        built.platform_specific.base_size = Some(base_size);
        built
    }

    fn with_app_id(self, app_id: String) -> (built: Self) {
        let mut built = self;
        built.platform_specific.app_id = Some(app_id);
        built
    }

    fn with_shell(self, has_shell: bool) -> (built: Self) {
        let mut built = self;
        built.platform_specific.init_with_shell = has_shell;
        built
    }
}

/// The description of the window of a wallpaper: without a shell surface
/// of its own and letting all input through, so that it never takes a
/// click meant for the desktop.
pub fn background_window() -> (builder: WindowBuilder)
    ensures
        builder.input_region_disabled,
        !builder.platform_specific.init_with_shell,
        builder.platform_specific.screen_id is None,
        builder.platform_specific.class is None,
        !builder.platform_specific.override_redirect,
        builder.platform_specific.x11_window_types@ == seq![XWindowType::Normal],
        builder.platform_specific.gtk_theme_variant is None,
        builder.platform_specific.resize_increments is None,
        builder.platform_specific.base_size is None,
        builder.platform_specific.app_id is None,
{
    WindowBuilder::new().with_shell(false).disable_input_region(true)
}

} // verus!
