use korangar::commands::{
    composite_commands, geometry_commands, lighting_commands, picker_commands, scene_commands, shadow_commands,
    DrawCommand,
};
use korangar::context::{FrameContext, RenderSettings};
use korangar::pass::{dependency_edges, EdgeSync, PassDependencyEdge, PassKind};

const KINDS: [PassKind; 4] = [PassKind::Scene, PassKind::Picker, PassKind::Shadow, PassKind::Overlay];

fn frame(settings: RenderSettings) -> FrameContext {
    FrameContext {
        tick: 7,
        entity_count: 0,
        entity_hovered: false,
        hovered_has_name: false,
        overlay_changed: false,
        overlay_forced: false,
        clear_overlay: false,
        uses_uploads: false,
        settings,
    }
}

#[test]
fn graph_has_three_edges_into_the_scene() {
    assert_eq!(
        dependency_edges(),
        vec![
            PassDependencyEdge { producer: PassKind::Shadow, consumer: PassKind::Scene, sync: EdgeSync::DeviceOrdered },
            PassDependencyEdge { producer: PassKind::Overlay, consumer: PassKind::Scene, sync: EdgeSync::DeviceOrdered },
            PassDependencyEdge { producer: PassKind::Picker, consumer: PassKind::Scene, sync: EdgeSync::HostWaited },
        ]
    );
}

#[test]
fn only_the_scene_depends_on_other_passes() {
    for consumer in KINDS {
        for producer in KINDS {
            let expected = consumer == PassKind::Scene && producer != PassKind::Scene;
            assert_eq!(consumer.depends_on(producer), expected);
            let listed =
                dependency_edges().iter().any(|edge| edge.producer == producer && edge.consumer == consumer);
            assert_eq!(listed, expected);
            if expected {
                assert!(producer.rank() < consumer.rank());
            }
            assert_eq!(consumer.independent(producer), !expected && !producer.depends_on(consumer));
        }
    }
    assert!(PassKind::Picker.independent(PassKind::Shadow));
    assert!(PassKind::Overlay.independent(PassKind::Picker));
    assert!(!PassKind::Scene.independent(PassKind::Shadow));
}

#[test]
fn kinds_are_indexed() {
    for (position, kind) in KINDS.iter().enumerate() {
        assert_eq!(kind.index(), position);
        assert_eq!(PassKind::from_index(position), Some(*kind));
    }
    assert_eq!(PassKind::from_index(4), None);
    assert_eq!(PassKind::Scene.rank(), 1);
    assert_eq!(PassKind::Shadow.rank(), 0);
    assert!(PassKind::Shadow.emits_ordering());
    assert!(PassKind::Overlay.emits_ordering());
    assert!(PassKind::Scene.emits_ordering());
    assert!(!PassKind::Picker.emits_ordering());
}

#[test]
fn default_settings_draw_every_layer() {
    let settings = RenderSettings::new();
    assert!(!settings.show_buffers());
    assert_eq!(picker_commands(&settings), vec![DrawCommand::Tiles, DrawCommand::EntitiesExceptPlayer]);
    assert_eq!(shadow_commands(&settings), vec![DrawCommand::Ground, DrawCommand::Objects, DrawCommand::Entities]);
    assert_eq!(
        geometry_commands(&settings),
        vec![DrawCommand::Ground, DrawCommand::Objects, DrawCommand::Entities, DrawCommand::Water]
    );
    assert_eq!(
        lighting_commands(&settings),
        vec![
            DrawCommand::AmbientLight,
            DrawCommand::DirectionalLight,
            DrawCommand::PointLights,
            DrawCommand::WaterLight,
            DrawCommand::Particles,
        ]
    );
    assert_eq!(
        scene_commands(&frame(settings)),
        vec![
            DrawCommand::Ground,
            DrawCommand::Objects,
            DrawCommand::Entities,
            DrawCommand::Water,
            DrawCommand::LightingPass,
            DrawCommand::AmbientLight,
            DrawCommand::DirectionalLight,
            DrawCommand::PointLights,
            DrawCommand::WaterLight,
            DrawCommand::Particles,
        ]
    );
    assert_eq!(composite_commands(&frame(settings)), vec![DrawCommand::Overlay, DrawCommand::MouseCursor]);
}

#[test]
fn hidden_layers_are_left_out() {
    let mut settings = RenderSettings::new();
    settings.show_map = false;
    settings.show_water = false;
    settings.show_point_lights = false;
    settings.show_interface = false;
    settings.show_markers = true;
    settings.show_bounding_boxes = true;
    assert_eq!(picker_commands(&settings), vec![DrawCommand::EntitiesExceptPlayer, DrawCommand::Markers]);
    assert_eq!(shadow_commands(&settings), vec![DrawCommand::Objects, DrawCommand::Entities]);
    assert_eq!(geometry_commands(&settings), vec![DrawCommand::Objects, DrawCommand::Entities]);
    assert_eq!(
        lighting_commands(&settings),
        vec![
            DrawCommand::AmbientLight,
            DrawCommand::DirectionalLight,
            DrawCommand::Markers,
            DrawCommand::BoundingBoxes,
            DrawCommand::Particles,
        ]
    );
    assert_eq!(composite_commands(&frame(settings)), vec![]);
}

#[test]
fn displayed_buffer_replaces_the_lights() {
    let mut settings = RenderSettings::new();
    settings.show_shadow_buffer = true;
    assert!(settings.show_buffers());
    assert_eq!(lighting_commands(&settings), vec![DrawCommand::Particles]);
    assert_eq!(
        composite_commands(&frame(settings)),
        vec![DrawCommand::Buffers, DrawCommand::Overlay, DrawCommand::MouseCursor]
    );
    assert!(frame(settings).drain_chain());
}

#[test]
fn composite_draws_status_and_aids_in_order() {
    let mut settings = RenderSettings::new();
    settings.toggle_show_frames_per_second();
    assert!(settings.show_frames_per_second);
    let mut ctx = frame(settings);
    ctx.entity_count = 3;
    ctx.entity_hovered = true;
    ctx.hovered_has_name = true;
    assert_eq!(
        composite_commands(&ctx),
        vec![
            DrawCommand::EntityStatus,
            DrawCommand::HoverText,
            DrawCommand::EntityStatus,
            DrawCommand::EntityStatus,
            DrawCommand::FramesPerSecond,
            DrawCommand::Overlay,
            DrawCommand::MouseCursor,
        ]
    );
    ctx.hovered_has_name = false;
    ctx.entity_count = 0;
    assert_eq!(
        composite_commands(&ctx),
        vec![
            DrawCommand::EntityStatus,
            DrawCommand::EntityStatus,
            DrawCommand::FramesPerSecond,
            DrawCommand::Overlay,
            DrawCommand::MouseCursor,
        ]
    );
    // A name without a hovered entity is not drawn.
    ctx.entity_hovered = false;
    ctx.hovered_has_name = true;
    assert_eq!(
        composite_commands(&ctx),
        vec![DrawCommand::FramesPerSecond, DrawCommand::Overlay, DrawCommand::MouseCursor]
    );
}

#[test]
fn whatever_reads_another_pass_stands_behind_the_lighting_switch() {
    for bits in 0..64u32 {
        let mut settings = RenderSettings::new();
        settings.show_map = bits & 1 != 0;
        settings.show_objects = bits & 2 != 0;
        settings.show_entities = bits & 4 != 0;
        settings.show_water = bits & 8 != 0;
        settings.show_directional_light = bits & 16 != 0;
        settings.show_picker_buffer = bits & 32 != 0;
        let ctx = frame(settings);
        let mut commands = scene_commands(&ctx);
        commands.extend(composite_commands(&ctx));
        let switch = commands.iter().position(|command| *command == DrawCommand::LightingPass).unwrap();
        assert_eq!(switch, geometry_commands(&settings).len());
        assert_eq!(commands.iter().filter(|command| **command == DrawCommand::LightingPass).count(), 1);
        for (at, command) in commands.iter().enumerate() {
            assert_eq!(command.is_geometry(), at < switch);
            if command.reads().is_some() {
                assert!(at > switch);
            }
        }
    }
    assert_eq!(DrawCommand::DirectionalLight.reads(), Some(PassKind::Shadow));
    assert_eq!(DrawCommand::Overlay.reads(), Some(PassKind::Overlay));
    assert_eq!(DrawCommand::Buffers.reads(), Some(PassKind::Picker));
    assert_eq!(DrawCommand::Ground.reads(), None);
}

#[test]
fn overlay_is_rendered_again_when_changed_or_forced() {
    let mut ctx = frame(RenderSettings::new());
    assert!(!ctx.rerender_overlay());
    assert!(!ctx.drain_chain());
    ctx.overlay_changed = true;
    assert!(ctx.rerender_overlay());
    assert!(ctx.drain_chain());
    ctx.overlay_changed = false;
    ctx.overlay_forced = true;
    assert!(ctx.rerender_overlay());
    ctx.settings.drain_on_rerender = false;
    assert!(!ctx.drain_chain());
    ctx.settings.show_font_atlas = true;
    assert!(ctx.drain_chain());
}

#[test]
fn frame_limit_toggles() {
    let mut settings = RenderSettings::new();
    assert!(settings.frame_limit);
    settings.toggle_frame_limit();
    assert!(!settings.frame_limit);
    settings.toggle_frame_limit();
    assert_eq!(settings, RenderSettings::new());
}
