//! The per-frame input of the core: a snapshot that does not change while
//! the frame is driven.

use vstd::prelude::*;

verus! {

/// Which optional layers and aids are drawn.
#[derive(Clone, Copy, Debug, PartialEq, Eq, Structural)]
pub struct RenderSettings {
    pub frame_limit: bool,
    pub show_frames_per_second: bool,
    pub show_interface: bool,
    pub show_map: bool,
    pub show_objects: bool,
    pub show_entities: bool,
    pub show_water: bool,
    pub show_ambient_light: bool,
    pub show_directional_light: bool,
    pub show_point_lights: bool,
    pub show_bounding_boxes: bool,
    pub show_markers: bool,
    pub show_diffuse_buffer: bool,
    pub show_normal_buffer: bool,
    pub show_water_buffer: bool,
    pub show_depth_buffer: bool,
    pub show_shadow_buffer: bool,
    pub show_picker_buffer: bool,
    pub show_font_atlas: bool,
    /// Re-rendering the overlay also waits for every image of the chain.
    pub drain_on_rerender: bool,
}

impl RenderSettings {
    /// Everything visible, every aid off.
    pub open spec fn spec_new() -> RenderSettings {
        RenderSettings {
            frame_limit: true,
            show_frames_per_second: false,
            show_interface: true,
            show_map: true,
            show_objects: true,
            show_entities: true,
            show_water: true,
            show_ambient_light: true,
            show_directional_light: true,
            show_point_lights: true,
            show_bounding_boxes: false,
            show_markers: false,
            show_diffuse_buffer: false,
            show_normal_buffer: false,
            show_water_buffer: false,
            show_depth_buffer: false,
            show_shadow_buffer: false,
            show_picker_buffer: false,
            show_font_atlas: false,
            drain_on_rerender: true,
        }
    }

    /// The settings a run starts with.
    pub fn new() -> (settings: RenderSettings)
        ensures
            settings == Self::spec_new(),
    {
        RenderSettings {
            frame_limit: true,
            show_frames_per_second: false,
            show_interface: true,
            show_map: true,
            show_objects: true,
            show_entities: true,
            show_water: true,
            show_ambient_light: true,
            show_directional_light: true,
            show_point_lights: true,
            show_bounding_boxes: false,
            show_markers: false,
            show_diffuse_buffer: false,
            show_normal_buffer: false,
            show_water_buffer: false,
            show_depth_buffer: false,
            show_shadow_buffer: false,
            show_picker_buffer: false,
            show_font_atlas: false,
            drain_on_rerender: true,
        }
    }

    /// Some intermediate buffer is displayed in place of the lit scene.
    pub open spec fn spec_show_buffers(&self) -> bool {
        self.show_diffuse_buffer || self.show_normal_buffer || self.show_water_buffer || self.show_depth_buffer
            || self.show_shadow_buffer || self.show_picker_buffer || self.show_font_atlas
    }

    /// True when some intermediate buffer is displayed.
    pub fn show_buffers(&self) -> (b: bool)
        ensures
            b == self.spec_show_buffers(),
    {
        self.show_diffuse_buffer || self.show_normal_buffer || self.show_water_buffer || self.show_depth_buffer
            || self.show_shadow_buffer || self.show_picker_buffer || self.show_font_atlas
    }

    /// Switches the frame limit.
    pub fn toggle_frame_limit(&mut self)
        ensures
            *final(self) == (RenderSettings { frame_limit: !old(self).frame_limit, ..*old(self) }),
    {
        self.frame_limit = !self.frame_limit;
    }

    /// Switches the frame counter display.
    pub fn toggle_show_frames_per_second(&mut self)
        ensures
            *final(self) == (RenderSettings {
                show_frames_per_second: !old(self).show_frames_per_second,
                ..*old(self)
            }),
    {
        self.show_frames_per_second = !self.show_frames_per_second;
    }
}

/// What the driver knows of a frame before it is drawn.
#[derive(Clone, Copy, Debug, PartialEq, Eq, Structural)]
pub struct FrameContext {
    /// Simulation tick of the frame.
    pub tick: u32,
    /// Number of visible entities; the first one is the player.
    pub entity_count: usize,
    /// The cursor rests on an entity.
    pub entity_hovered: bool,
    /// The hovered entity has a name to show.
    pub hovered_has_name: bool,
    /// The content of the overlay changed since it was last rendered.
    pub overlay_changed: bool,
    /// The overlay has to be rendered again although nothing changed.
    pub overlay_forced: bool,
    /// The overlay is cleared before it is rendered.
    pub clear_overlay: bool,
    /// The passes of this frame read resources of an upload in flight.
    pub uses_uploads: bool,
    pub settings: RenderSettings,
}

impl FrameContext {
    /// The overlay is rendered again in this frame.
    pub open spec fn spec_rerender_overlay(&self) -> bool {
        self.overlay_changed || self.overlay_forced
    }

    /// True when the overlay is rendered again in this frame; otherwise the
    /// output of its last submission is used as it is.
    pub fn rerender_overlay(&self) -> (b: bool)
        ensures
            b == self.spec_rerender_overlay(),
    {
        self.overlay_changed || self.overlay_forced
    }

    /// Every image of the chain is waited for before the passes start.
    pub open spec fn spec_drain_chain(&self) -> bool {
        (self.spec_rerender_overlay() && self.settings.drain_on_rerender) || self.settings.spec_show_buffers()
    }

    /// True when every image of the chain is waited for before the passes
    /// start, and not only the acquired one.
    pub fn drain_chain(&self) -> (b: bool)
        ensures
            b == self.spec_drain_chain(),
    {
        (self.rerender_overlay() && self.settings.drain_on_rerender) || self.settings.show_buffers()
    }
}

} // verus!
