//! What each pass of a frame records, in order, for a given snapshot.

use vstd::prelude::*;
use crate::context::{FrameContext, RenderSettings};
use crate::pass::PassKind;

verus! {

/// One step of a pass, carried out by the renderer of the pass.
#[derive(Clone, Copy, Debug, PartialEq, Eq, Structural)]
pub enum DrawCommand {
    /// The walkable tiles of the map, for picking.
    Tiles,
    /// The ground mesh of the map.
    Ground,
    /// The objects placed on the map.
    Objects,
    /// All visible entities.
    Entities,
    /// All visible entities but the first, which is the player.
    EntitiesExceptPlayer,
    /// The water planes.
    Water,
    /// The switch of the scene from its geometry to its lighting sub-phase.
    LightingPass,
    AmbientLight,
    /// The directional light, which samples the shadow map.
    DirectionalLight,
    PointLights,
    WaterLight,
    /// Markers of map resources.
    Markers,
    BoundingBoxes,
    Particles,
    /// An intermediate buffer in place of the lit scene.
    Buffers,
    /// The status bar of an entity.
    EntityStatus,
    /// The name of the hovered entity, next to the cursor.
    HoverText,
    FramesPerSecond,
    /// The output of the overlay target, drawn over the scene.
    Overlay,
    MouseCursor,
}

impl DrawCommand {
    /// The command writes the geometry buffers of the scene.
    pub open spec fn spec_is_geometry(self) -> bool {
        self == DrawCommand::Ground || self == DrawCommand::Objects || self == DrawCommand::Entities || self
            == DrawCommand::Water
    }

    /// True when the command writes the geometry buffers of the scene.
    pub fn is_geometry(self) -> (b: bool)
        ensures
            b == self.spec_is_geometry(),
    {
        match self {
            DrawCommand::Ground | DrawCommand::Objects | DrawCommand::Entities | DrawCommand::Water => true,
            _ => false,
        }
    }

    /// The pass whose output the command reads, if it reads one.
    pub open spec fn spec_reads(self) -> Option<PassKind> {
        match self {
            DrawCommand::DirectionalLight => Some(PassKind::Shadow),
            DrawCommand::Overlay => Some(PassKind::Overlay),
            DrawCommand::Buffers => Some(PassKind::Picker),
            _ => None,
        }
    }

    /// The pass whose output the command reads, if it reads one.
    pub fn reads(self) -> (kind: Option<PassKind>)
        ensures
            kind == self.spec_reads(),
    {
        match self {
            DrawCommand::DirectionalLight => Some(PassKind::Shadow),
            DrawCommand::Overlay => Some(PassKind::Overlay),
            DrawCommand::Buffers => Some(PassKind::Picker),
            _ => None,
        }
    }
}

/// The command if the condition holds, nothing otherwise.
pub open spec fn given(condition: bool, command: DrawCommand) -> Seq<DrawCommand> {
    if condition {
        seq![command]
    } else {
        Seq::empty()
    }
}

/// What the picker pass records.
pub open spec fn spec_picker_commands(settings: RenderSettings) -> Seq<DrawCommand> {
    given(settings.show_map, DrawCommand::Tiles) + given(settings.show_entities, DrawCommand::EntitiesExceptPlayer)
        + given(settings.show_markers, DrawCommand::Markers)
}

/// What the shadow pass records.
pub open spec fn spec_shadow_commands(settings: RenderSettings) -> Seq<DrawCommand> {
    given(settings.show_map, DrawCommand::Ground) + given(settings.show_objects, DrawCommand::Objects) + given(
        settings.show_entities,
        DrawCommand::Entities,
    )
}

/// What the scene records in its geometry sub-phase. None of it needs the
/// shadow map.
pub open spec fn spec_geometry_commands(settings: RenderSettings) -> Seq<DrawCommand> {
    given(settings.show_map, DrawCommand::Ground) + given(settings.show_objects, DrawCommand::Objects) + given(
        settings.show_entities,
        DrawCommand::Entities,
    ) + given(settings.show_water, DrawCommand::Water)
}

/// What the scene records in its lighting sub-phase. The lights are left
/// out while an intermediate buffer is displayed.
pub open spec fn spec_lighting_commands(settings: RenderSettings) -> Seq<DrawCommand> {
    let lit = !settings.spec_show_buffers();
    given(settings.show_ambient_light && lit, DrawCommand::AmbientLight) + given(
        settings.show_directional_light && lit,
        DrawCommand::DirectionalLight,
    ) + given(settings.show_point_lights && lit, DrawCommand::PointLights) + given(
        settings.show_water && lit,
        DrawCommand::WaterLight,
    ) + given(settings.show_markers, DrawCommand::Markers) + given(
        settings.show_bounding_boxes,
        DrawCommand::BoundingBoxes,
    ) + seq![DrawCommand::Particles]
}

/// What the scene records after the other passes have been submitted: the
/// composite, which draws the other outputs and the aids over the lit scene.
pub open spec fn spec_composite_commands(ctx: FrameContext) -> Seq<DrawCommand> {
    given(ctx.settings.spec_show_buffers(), DrawCommand::Buffers) + given(ctx.entity_hovered, DrawCommand::EntityStatus)
        + given(ctx.entity_hovered && ctx.hovered_has_name, DrawCommand::HoverText) + given(
        ctx.entity_hovered,
        DrawCommand::EntityStatus,
    ) + given(ctx.entity_count > 0, DrawCommand::EntityStatus) + given(
        ctx.settings.show_frames_per_second,
        DrawCommand::FramesPerSecond,
    ) + given(ctx.settings.show_interface, DrawCommand::Overlay) + given(
        ctx.settings.show_interface,
        DrawCommand::MouseCursor,
    )
}

/// Everything the scene records, in order: geometry, the switch to
/// lighting, lighting, composite.
pub open spec fn spec_scene_commands(ctx: FrameContext) -> Seq<DrawCommand> {
    spec_geometry_commands(ctx.settings) + seq![DrawCommand::LightingPass] + spec_lighting_commands(ctx.settings)
        + spec_composite_commands(ctx)
}

fn push_given(commands: &mut Vec<DrawCommand>, condition: bool, command: DrawCommand)
    ensures
        final(commands)@ == old(commands)@ + given(condition, command),
{
    if condition {
        commands.push(command);
    }
    assert(commands@ =~= old(commands)@ + given(condition, command));
}

fn first_given(condition: bool, command: DrawCommand) -> (commands: Vec<DrawCommand>)
    ensures
        commands@ == given(condition, command),
{
    let mut commands: Vec<DrawCommand> = Vec::new();
    if condition {
        commands.push(command);
    }
    assert(commands@ =~= given(condition, command));
    commands
}

/// What the picker pass records.
pub fn picker_commands(settings: &RenderSettings) -> (commands: Vec<DrawCommand>)
    ensures
        commands@ == spec_picker_commands(*settings),
{
    let mut commands = first_given(settings.show_map, DrawCommand::Tiles);
    push_given(&mut commands, settings.show_entities, DrawCommand::EntitiesExceptPlayer);
    push_given(&mut commands, settings.show_markers, DrawCommand::Markers);
    commands
}

/// What the shadow pass records.
pub fn shadow_commands(settings: &RenderSettings) -> (commands: Vec<DrawCommand>)
    ensures
        commands@ == spec_shadow_commands(*settings),
{
    let mut commands = first_given(settings.show_map, DrawCommand::Ground);
    push_given(&mut commands, settings.show_objects, DrawCommand::Objects);
    push_given(&mut commands, settings.show_entities, DrawCommand::Entities);
    commands
}

/// What the scene records in its geometry sub-phase.
pub fn geometry_commands(settings: &RenderSettings) -> (commands: Vec<DrawCommand>)
    ensures
        commands@ == spec_geometry_commands(*settings),
{
    let mut commands = first_given(settings.show_map, DrawCommand::Ground);
    push_given(&mut commands, settings.show_objects, DrawCommand::Objects);
    push_given(&mut commands, settings.show_entities, DrawCommand::Entities);
    push_given(&mut commands, settings.show_water, DrawCommand::Water);
    commands
}

/// What the scene records in its lighting sub-phase.
pub fn lighting_commands(settings: &RenderSettings) -> (commands: Vec<DrawCommand>)
    ensures
        commands@ == spec_lighting_commands(*settings),
{
    let lit = !settings.show_buffers();
    let mut commands = first_given(settings.show_ambient_light && lit, DrawCommand::AmbientLight);
    push_given(&mut commands, settings.show_directional_light && lit, DrawCommand::DirectionalLight);
    push_given(&mut commands, settings.show_point_lights && lit, DrawCommand::PointLights);
    push_given(&mut commands, settings.show_water && lit, DrawCommand::WaterLight);
    push_given(&mut commands, settings.show_markers, DrawCommand::Markers);
    push_given(&mut commands, settings.show_bounding_boxes, DrawCommand::BoundingBoxes);
    let ghost before = commands@;
    commands.push(DrawCommand::Particles);
    assert(commands@ =~= before + seq![DrawCommand::Particles]);
    commands
}

/// What the scene records after the other passes have been submitted.
pub fn composite_commands(ctx: &FrameContext) -> (commands: Vec<DrawCommand>)
    ensures
        commands@ == spec_composite_commands(*ctx),
{
    let mut commands = first_given(ctx.settings.show_buffers(), DrawCommand::Buffers);
    push_given(&mut commands, ctx.entity_hovered, DrawCommand::EntityStatus);
    push_given(&mut commands, ctx.entity_hovered && ctx.hovered_has_name, DrawCommand::HoverText);
    push_given(&mut commands, ctx.entity_hovered, DrawCommand::EntityStatus);
    push_given(&mut commands, ctx.entity_count > 0, DrawCommand::EntityStatus);
    push_given(&mut commands, ctx.settings.show_frames_per_second, DrawCommand::FramesPerSecond);
    push_given(&mut commands, ctx.settings.show_interface, DrawCommand::Overlay);
    push_given(&mut commands, ctx.settings.show_interface, DrawCommand::MouseCursor);
    commands
}

/// What the scene records while the other passes are recorded: its
/// geometry, the switch to lighting, and its lighting. Together with the
/// composite this is all that the scene records.
pub fn scene_commands(ctx: &FrameContext) -> (commands: Vec<DrawCommand>)
    ensures
        commands@ == spec_geometry_commands(ctx.settings) + seq![DrawCommand::LightingPass] + spec_lighting_commands(
            ctx.settings,
        ),
        commands@ + spec_composite_commands(*ctx) == spec_scene_commands(*ctx),
{
    let mut commands = geometry_commands(&ctx.settings);
    let ghost geometry = commands@;
    commands.push(DrawCommand::LightingPass);
    assert(commands@ =~= geometry + seq![DrawCommand::LightingPass]);
    let mut lighting = lighting_commands(&ctx.settings);
    commands.append(&mut lighting);
    commands
}

/// In the scene, geometry comes first and the switch to lighting stands
/// right behind it, once. Whatever reads the output of another pass stands
/// behind the switch.
pub proof fn lemma_lighting_follows_geometry(ctx: FrameContext)
    ensures
        ({
            let commands = spec_scene_commands(ctx);
            let switch = spec_geometry_commands(ctx.settings).len() as int;
            &&& 0 <= switch < commands.len()
            &&& commands[switch] == DrawCommand::LightingPass
            &&& forall|i: int| 0 <= i < switch ==> (#[trigger] commands[i]).spec_is_geometry()
            &&& forall|i: int|
                switch < i < commands.len() ==> !(#[trigger] commands[i]).spec_is_geometry() && commands[i]
                    != DrawCommand::LightingPass
            &&& forall|i: int|
                0 <= i < commands.len() && (#[trigger] commands[i]).spec_reads() is Some ==> switch < i
        }),
{
    let settings = ctx.settings;
    let geometry = spec_geometry_commands(settings);
    let lighting = spec_lighting_commands(settings);
    let composite = spec_composite_commands(ctx);
    let commands = spec_scene_commands(ctx);
    let switch = geometry.len() as int;
    lemma_geometry_only(settings);
    lemma_no_geometry_in_lighting(settings);
    lemma_no_geometry_in_composite(ctx);
    assert forall|i: int| 0 <= i < switch implies (#[trigger] commands[i]).spec_is_geometry() by {
        assert(commands[i] == geometry[i]);
    }
    assert forall|i: int| switch < i < commands.len() implies !(#[trigger] commands[i]).spec_is_geometry()
        && commands[i] != DrawCommand::LightingPass by {
        if i < switch + 1 + lighting.len() {
            assert(commands[i] == lighting[i - switch - 1]);
            assert(follows_switch(lighting[i - switch - 1]));
        } else {
            assert(commands[i] == composite[i - switch - 1 - lighting.len()]);
            assert(follows_switch(composite[i - switch - 1 - lighting.len()]));
        }
    }
    assert(commands[switch] == DrawCommand::LightingPass);
}

proof fn lemma_geometry_only(settings: RenderSettings)
    ensures
        forall|i: int|
            0 <= i < spec_geometry_commands(settings).len() ==> (#[trigger] spec_geometry_commands(
                settings,
            )[i]).spec_is_geometry(),
{
    let a = given(settings.show_map, DrawCommand::Ground);
    let b = given(settings.show_objects, DrawCommand::Objects);
    let c = given(settings.show_entities, DrawCommand::Entities);
    let d = given(settings.show_water, DrawCommand::Water);
    let all = a + b + c + d;
    assert forall|i: int| 0 <= i < all.len() implies (#[trigger] all[i]).spec_is_geometry() by {
        if i < a.len() {
            assert(all[i] == a[i]);
        } else if i < a.len() + b.len() {
            assert(all[i] == b[i - a.len()]);
        } else if i < a.len() + b.len() + c.len() {
            assert(all[i] == c[i - a.len() - b.len()]);
        } else {
            assert(all[i] == d[i - a.len() - b.len() - c.len()]);
        }
    }
}

/// The command stands behind the switch to lighting: it is neither
/// geometry nor the switch itself.
pub open spec fn follows_switch(command: DrawCommand) -> bool {
    !command.spec_is_geometry() && command != DrawCommand::LightingPass
}

proof fn lemma_follows_switch_append(front: Seq<DrawCommand>, tail: Seq<DrawCommand>)
    requires
        forall|i: int| 0 <= i < front.len() ==> follows_switch(#[trigger] front[i]),
        forall|i: int| 0 <= i < tail.len() ==> follows_switch(#[trigger] tail[i]),
    ensures
        forall|i: int| 0 <= i < (front + tail).len() ==> follows_switch(#[trigger] (front + tail)[i]),
{
    assert forall|i: int| 0 <= i < (front + tail).len() implies follows_switch(#[trigger] (front + tail)[i]) by {
        if i < front.len() {
            assert((front + tail)[i] == front[i]);
        } else {
            assert((front + tail)[i] == tail[i - front.len()]);
        }
    }
}

proof fn lemma_no_geometry_in_lighting(settings: RenderSettings)
    ensures
        forall|i: int|
            0 <= i < spec_lighting_commands(settings).len() ==> follows_switch(
                #[trigger] spec_lighting_commands(settings)[i],
            ),
{
    let lit = !settings.spec_show_buffers();
    let ambient = given(settings.show_ambient_light && lit, DrawCommand::AmbientLight);
    let directional = ambient + given(settings.show_directional_light && lit, DrawCommand::DirectionalLight);
    let point = directional + given(settings.show_point_lights && lit, DrawCommand::PointLights);
    let water = point + given(settings.show_water && lit, DrawCommand::WaterLight);
    let markers = water + given(settings.show_markers, DrawCommand::Markers);
    let boxes = markers + given(settings.show_bounding_boxes, DrawCommand::BoundingBoxes);
    lemma_follows_switch_append(
        ambient,
        given(settings.show_directional_light && lit, DrawCommand::DirectionalLight),
    );
    lemma_follows_switch_append(directional, given(settings.show_point_lights && lit, DrawCommand::PointLights));
    lemma_follows_switch_append(point, given(settings.show_water && lit, DrawCommand::WaterLight));
    lemma_follows_switch_append(water, given(settings.show_markers, DrawCommand::Markers));
    lemma_follows_switch_append(markers, given(settings.show_bounding_boxes, DrawCommand::BoundingBoxes));
    lemma_follows_switch_append(boxes, seq![DrawCommand::Particles]);
}

proof fn lemma_no_geometry_in_composite(ctx: FrameContext)
    ensures
        forall|i: int|
            0 <= i < spec_composite_commands(ctx).len() ==> follows_switch(
                #[trigger] spec_composite_commands(ctx)[i],
            ),
{
    let buffers = given(ctx.settings.spec_show_buffers(), DrawCommand::Buffers);
    let status = buffers + given(ctx.entity_hovered, DrawCommand::EntityStatus);
    let name = status + given(ctx.entity_hovered && ctx.hovered_has_name, DrawCommand::HoverText);
    let again = name + given(ctx.entity_hovered, DrawCommand::EntityStatus);
    let player = again + given(ctx.entity_count > 0, DrawCommand::EntityStatus);
    let counter = player + given(ctx.settings.show_frames_per_second, DrawCommand::FramesPerSecond);
    let overlay = counter + given(ctx.settings.show_interface, DrawCommand::Overlay);
    lemma_follows_switch_append(buffers, given(ctx.entity_hovered, DrawCommand::EntityStatus));
    lemma_follows_switch_append(status, given(ctx.entity_hovered && ctx.hovered_has_name, DrawCommand::HoverText));
    lemma_follows_switch_append(name, given(ctx.entity_hovered, DrawCommand::EntityStatus));
    lemma_follows_switch_append(again, given(ctx.entity_count > 0, DrawCommand::EntityStatus));
    lemma_follows_switch_append(player, given(ctx.settings.show_frames_per_second, DrawCommand::FramesPerSecond));
    lemma_follows_switch_append(counter, given(ctx.settings.show_interface, DrawCommand::Overlay));
    lemma_follows_switch_append(overlay, given(ctx.settings.show_interface, DrawCommand::MouseCursor));
}

} // verus!
