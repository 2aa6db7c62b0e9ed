//! Placing a window as the background of one display, and what the
//! compositor answers.

use vstd::prelude::*;
use crate::schedule::Event;
use crate::surfaces::{swap_chain_for, PipelineWindow};
use crate::unix::{background_window, WindowBuilder, XWindowType};

verus! {

/// The name under which the surfaces are placed.
pub const LAYER_NAMESPACE: &'static str = "wallpaper";

/// The exclusive zone asked for: the wallpaper reserves no space.
pub const EXCLUSIVE_ZONE: i32 = 0;

/// A size in logical pixels, as the compositor suggests it.
#[derive(Clone, Copy, Debug, PartialEq, Eq)]
pub struct LogicalSize {
    pub width: u32,
    pub height: u32,
}

/// What the placement of a window tells the event loop.
#[derive(Clone, Copy, Debug, PartialEq, Eq)]
pub enum CustomEvent {
    /// The compositor has given the window a new size.
    WindowResized { window_id: u64, new_size: LogicalSize },
}

/// The layer of the desktop a surface is put on.
#[derive(Clone, Copy, Debug, PartialEq, Eq)]
pub enum Layer {
    Background,
    Bottom,
    Top,
    Overlay,
}

/// The edges of the display a surface is anchored to.
#[derive(Clone, Copy, Debug, PartialEq, Eq)]
pub struct Anchor {
    pub top: bool,
    pub bottom: bool,
    pub left: bool,
    pub right: bool,
}

/// The request that makes a window the background of one display.
#[derive(Clone, Copy, Debug, PartialEq, Eq)]
pub struct LayerSurfaceRequest {
    /// The window whose surface is placed.
    pub window_id: u64,
    /// The display it is placed on.
    pub output: u32,
    /// The layer it is placed on.
    pub layer: Layer,
    /// The edges it is anchored to.
    pub anchor: Anchor,
    /// The space it reserves from other surfaces.
    pub exclusive_zone: i32,
}

/// What the compositor says of a placed surface.
#[derive(Clone, Copy, Debug, PartialEq, Eq)]
pub enum LayerSurfaceEvent {
    /// The surface is to take the given size; the serial is to be
    /// acknowledged.
    Configure { serial: u32, width: u32, height: u32 },
    /// The surface was closed, for instance because its display is gone.
    Closed,
}

/// What is to be done about an event of a placed surface.
#[derive(Clone, Copy, Debug, PartialEq, Eq)]
pub enum LayerSurfaceReply {
    /// Send `event` to the event loop, then acknowledge `serial`.
    Resize { event: CustomEvent, serial: u32 },
    /// The window's target is to be closed.
    Close { window_id: u64 },
}

/// `length` logical pixels in physical pixels at the given scale, held at
/// the largest length there is.
pub open spec fn scaled_length(length: u32, scale_factor: u32) -> u32 {
    if length * scale_factor > u32::MAX {
        u32::MAX
    } else {
        (length * scale_factor) as u32
    }
}

/// `length` logical pixels in physical pixels at the given scale.
pub fn scale_length(length: u32, scale_factor: u32) -> (scaled: u32)
    ensures
        scaled == scaled_length(length, scale_factor),
{
    assert(length as int * scale_factor as int <= u64::MAX as int) by (nonlinear_arith)
        requires
            length <= u32::MAX,
            scale_factor <= u32::MAX,
    ;
    let product: u64 = length as u64 * scale_factor as u64;
    if product > u32::MAX as u64 {
        u32::MAX
    } else {
        product as u32
    }
}

impl LogicalSize {
    /// The size in physical pixels on a display that shows every logical
    /// pixel as `scale_factor` by `scale_factor` physical ones.
    pub fn to_physical(self, scale_factor: u32) -> (physical: (u32, u32))
        ensures
            physical.0 == scaled_length(self.width, scale_factor),
            physical.1 == scaled_length(self.height, scale_factor),
    {
        (scale_length(self.width, scale_factor), scale_length(self.height, scale_factor))
    }
}

impl CustomEvent {
    /// The resize that this event asks of the event loop, on a display of
    /// the given scale: the same window, at the size in physical pixels.
    pub fn to_resize(self, scale_factor: u32) -> (event: Event)
        ensures
            event == match self {
                CustomEvent::WindowResized { window_id, new_size } => Event::Resized {
                    window_id,
                    width: scaled_length(new_size.width, scale_factor),
                    height: scaled_length(new_size.height, scale_factor),
                },
            },
    {
        match self {
            CustomEvent::WindowResized { window_id, new_size } => {
                let physical = new_size.to_physical(scale_factor);
                Event::Resized { window_id, width: physical.0, height: physical.1 }
            },
        }
    }
}

/// All four edges.
pub open spec fn anchor_all() -> Anchor {
    Anchor { top: true, bottom: true, left: true, right: true }
}

/// The placement of `window` on the display `output`: on the background
/// layer, anchored to all four edges so that it covers the display, and
/// reserving no space. A window that has no surface to place, because it
/// does not live on a compositor that takes such requests, is left
/// alone.
pub fn put_to_background(output: u32, has_surface: bool, window: &PipelineWindow) -> (request:
    Option<LayerSurfaceRequest>)
    ensures
        request == if has_surface {
            Some(
                LayerSurfaceRequest {
                    window_id: window.window_id,
                    output,
                    layer: Layer::Background,
                    anchor: anchor_all(),
                    exclusive_zone: EXCLUSIVE_ZONE,
                },
            )
        } else {
            None
        },
{
    if !has_surface {
        return None;
    }
    Some(
        LayerSurfaceRequest {
            window_id: window.window_id,
            output,
            layer: Layer::Background,
            anchor: Anchor { top: true, bottom: true, left: true, right: true },
            exclusive_zone: EXCLUSIVE_ZONE,
        },
    )
}

/// Turns an event of the surface of `window_id` into what the event loop
/// is to see: a suggested size becomes a resize of that window, to be
/// acknowledged under the event's serial; a closed surface closes the
/// window's target.
pub fn on_layer_surface_event(window_id: u64, event: LayerSurfaceEvent) -> (reply:
    LayerSurfaceReply)
    ensures
        reply == match event {
            LayerSurfaceEvent::Configure { serial, width, height } => LayerSurfaceReply::Resize {
                event: CustomEvent::WindowResized {
                    window_id,
                    new_size: LogicalSize { width, height },
                },
                serial,
            },
            LayerSurfaceEvent::Closed => LayerSurfaceReply::Close { window_id },
        },
{
    match event {
        LayerSurfaceEvent::Configure { serial, width, height } => LayerSurfaceReply::Resize {
            event: CustomEvent::WindowResized { window_id, new_size: LogicalSize { width, height } },
            serial,
        },
        LayerSurfaceEvent::Closed => LayerSurfaceReply::Close { window_id },
    }
}

/// All that makes the target of one display: how its window is built,
/// the target itself, and where the window is placed.
#[derive(Clone, Debug, PartialEq, Eq)]
pub struct DisplayTarget {
    pub builder: WindowBuilder,
    pub window: PipelineWindow,
    pub placement: Option<LayerSurfaceRequest>,
}

/// The target for the display `output`, whose window has the given size
/// in physical pixels: the window has no shell surface and takes no
/// input, its swap target has the size of the display, and it is placed
/// as the display's background.
pub fn create_for(window_id: u64, output: u32, width: u32, height: u32, has_surface: bool) -> (target:
    DisplayTarget)
    ensures
        target.builder.input_region_disabled,
        !target.builder.platform_specific.init_with_shell,
        target.builder.platform_specific.x11_window_types@ == seq![XWindowType::Normal],
        target.window == (PipelineWindow {
            window_id,
            swap_chain: swap_chain_for(width, height),
        }),
        target.placement == if has_surface {
            Some(
                LayerSurfaceRequest {
                    window_id,
                    output,
                    layer: Layer::Background,
                    anchor: anchor_all(),
                    exclusive_zone: EXCLUSIVE_ZONE,
                },
            )
        } else {
            None
        },
{
    let window = PipelineWindow::new(window_id, width, height);
    let placement = put_to_background(output, has_surface, &window);
    DisplayTarget { builder: background_window(), window, placement }
}

} // verus!
