//! The frame controller.
//!
//! The controller owns the surface configuration, the registered
//! drawable pipeline and the instance set held for the next frame, and
//! runs the state machine over the surface's readiness: configured on
//! construction, one reconfiguration per resize or surface loss, a
//! terminal state on out-of-memory, and a silent dropped frame on
//! transient failures.
//!
//! The host drives one frame per tick: it asks `can_acquire`, attempts
//! to acquire a drawable target, and either hands the failure to
//! `handle_surface_error` and performs the returned action, or uploads
//! `instance_data` into a fresh buffer and executes the plan that
//! `build_frame` records — one render pass that clears to the fixed
//! background color and replays the plan's commands in order — then
//! submits and presents.

use vstd::prelude::*;

use crate::instance::RectangleInstance;
use crate::instance::instances_bytes;
use crate::instance::pack_instances;
use crate::rectangle::QUAD_INDEX_COUNT;
use crate::rectangle::RectangleRenderer;
use crate::render_item::BufferId;
use crate::render_item::RenderCommand;
use crate::render_item::is_draw_command;
use crate::render_item::item_commands;
use crate::render_item::items_commands;
use crate::render_item::record_items;
use crate::surface::SurfaceCapabilities;
use crate::surface::SurfaceConfiguration;
use crate::surface::has_srgb;
use crate::surface::negotiate_configuration;
use crate::surface::preferred_format;

verus! {

/// Why the surface could not supply a drawable target.
#[derive(Clone, Copy, Debug, PartialEq, Eq, Structural)]
pub enum SurfaceError {
    /// The surface contents were lost; reconfigure, then retry.
    Lost,
    /// No memory for a target; fatal.
    OutOfMemory,
    /// The surface no longer matches the window; resolved by the next
    /// frame.
    Outdated,
    /// The platform took too long; resolved by the next frame.
    Timeout,
}

/// The surface's readiness.
#[derive(Clone, Copy, Debug, PartialEq, Eq, Structural)]
pub enum SurfaceState {
    /// A configuration has been negotiated; rendering may proceed.
    Configured,
    /// Out of memory: no further acquisition is attempted.
    Fatal,
}

/// What the host must do after a failed acquisition.
#[derive(Clone, Copy, Debug, PartialEq, Eq, Structural)]
pub enum FrameAction {
    /// Re-apply the carried configuration to the surface, then retry
    /// on the next tick.
    Reconfigure(SurfaceConfiguration),
    /// Drop this frame; retry on the next tick with nothing changed.
    SkipFrame,
    /// Shut down: the controller is in its terminal state.
    Terminate,
}

/// Bit pattern of the 64-bit float 0.3: the background red channel.
pub const CLEAR_R_BITS: u64 = 0x3fd3_3333_3333_3333;

/// Bit pattern of the 64-bit float 0.4: the background green channel.
pub const CLEAR_G_BITS: u64 = 0x3fd9_9999_9999_999a;

/// Bit pattern of the 64-bit float 0.5: the background blue channel.
pub const CLEAR_B_BITS: u64 = 0x3fe0_0000_0000_0000;

/// Bit pattern of the 64-bit float 1.0: the background alpha channel.
pub const CLEAR_A_BITS: u64 = 0x3ff0_0000_0000_0000;

/// The color a pass clears its target to; each field an IEEE-754
/// 64-bit bit pattern.
#[derive(Clone, Copy, Debug, PartialEq, Eq, Structural)]
pub struct ClearColor {
    pub r_bits: u64,
    pub g_bits: u64,
    pub b_bits: u64,
    pub a_bits: u64,
}

/// The fixed background color: opaque slate blue.
pub open spec fn background_color() -> ClearColor {
    ClearColor {
        r_bits: CLEAR_R_BITS,
        g_bits: CLEAR_G_BITS,
        b_bits: CLEAR_B_BITS,
        a_bits: CLEAR_A_BITS,
    }
}

/// One frame's recorded work: a single render pass that clears the
/// color target and then replays the commands in order.
#[derive(Debug)]
pub struct FramePlan {
    pub clear_color: ClearColor,
    pub commands: Vec<RenderCommand>,
}

/// The command sequence of one frame: bind the rectangle pipeline,
/// bind the quad vertex buffer at slot 0 and the instance buffer at
/// slot 1, bind the index buffer, and issue one indexed draw over all
/// six indices, instanced over `[0, instance_count)`.
pub open spec fn frame_commands(
    rect: RectangleRenderer,
    instance_buffer: BufferId,
    instance_count: u32,
) -> Seq<RenderCommand> {
    seq![
        RenderCommand::BindPipeline(rect.pipeline),
        RenderCommand::BindVertexBuffer { slot: 0, buffer: rect.vertex_buffer },
        RenderCommand::BindVertexBuffer { slot: 1, buffer: instance_buffer },
        RenderCommand::BindIndexBuffer(rect.index_buffer),
        RenderCommand::DrawIndexed {
            indices_start: 0,
            indices_end: QUAD_INDEX_COUNT,
            instances_start: 0,
            instances_end: instance_count,
        },
    ]
}

/// The frame controller.
#[verifier::ext_equal]
pub struct Renderer {
    /// The configuration currently negotiated for the surface.
    pub surface_configuration: SurfaceConfiguration,
    /// The one registered drawable pipeline.
    pub rectangle_renderer: RectangleRenderer,
    /// The instance set held for the next frame, replaced wholesale by
    /// `set_rectangles`.
    pub rectangles: Vec<RectangleInstance>,
    /// The surface's readiness.
    pub state: SurfaceState,
    /// How many times a configuration has been handed to the surface.
    pub configurations_applied: u64,
}

/// The controller after a resize to `width` x `height`: the new size
/// under the kept format and modes, applied once.
pub open spec fn after_resize(r: Renderer, width: u32, height: u32) -> Renderer {
    Renderer {
        surface_configuration: SurfaceConfiguration {
            width,
            height,
            ..r.surface_configuration
        },
        configurations_applied: (r.configurations_applied + 1) as u64,
        ..r
    }
}

/// The controller after recording one frame into the given instance
/// buffer: only the pipeline's instance buffer is replaced.
pub open spec fn after_build(r: Renderer, instance_buffer: BufferId) -> Renderer {
    Renderer {
        rectangle_renderer: RectangleRenderer {
            instance_buffer: Some(instance_buffer),
            ..r.rectangle_renderer
        },
        ..r
    }
}

impl Renderer {
    /// Negotiates a configuration from what the surface offers and the
    /// current client-area size, and registers the drawable pipeline.
    /// The instance set starts empty; the configuration has not yet
    /// been applied to the surface.
    pub fn new(
        caps: &SurfaceCapabilities,
        width: u32,
        height: u32,
        rectangle_renderer: RectangleRenderer,
    ) -> (r: Self)
        requires
            caps.formats@.len() > 0,
            caps.present_modes@.len() > 0,
            caps.alpha_modes@.len() > 0,
        ensures
            r.surface_configuration.format == preferred_format(caps.formats@),
            has_srgb(caps.formats@) ==> r.surface_configuration.format.srgb,
            r.surface_configuration.width == width,
            r.surface_configuration.height == height,
            r.surface_configuration.present_mode == caps.present_modes@[0],
            r.surface_configuration.alpha_mode == caps.alpha_modes@[0],
            r.rectangle_renderer == rectangle_renderer,
            r.rectangles@.len() == 0,
            r.state is Configured,
            r.configurations_applied == 0,
    {
        let surface_configuration = negotiate_configuration(caps, width, height);
        Renderer {
            surface_configuration,
            rectangle_renderer,
            rectangles: Vec::new(),
            state: SurfaceState::Configured,
            configurations_applied: 0,
        }
    }

    /// Hands the current configuration to the host for one application
    /// to the surface: called once before the first acquisition, and
    /// whenever the surface must be re-initialized.
    pub fn initialize_surface(&mut self) -> (c: SurfaceConfiguration)
        requires
            old(self).configurations_applied < u64::MAX,
        ensures
            c == old(self).surface_configuration,
            final(self).configurations_applied == old(self).configurations_applied + 1,
            final(self).surface_configuration == old(self).surface_configuration,
            final(self).rectangle_renderer == old(self).rectangle_renderer,
            final(self).rectangles == old(self).rectangles,
            final(self).state == old(self).state,
    {
        self.configurations_applied = self.configurations_applied + 1;
        self.surface_configuration
    }

    /// Applies a resize or scale-factor change: the configuration takes
    /// the provided size — degenerate sizes included — keeps its format
    /// and modes, and is handed to the host for exactly one
    /// re-application to the surface.
    pub fn configure_surface(&mut self, width: u32, height: u32) -> (c: SurfaceConfiguration)
        requires
            old(self).configurations_applied < u64::MAX,
        ensures
            *final(self) == after_resize(*old(self), width, height),
            c == final(self).surface_configuration,
            c.width == width,
            c.height == height,
            c.format == old(self).surface_configuration.format,
            c.present_mode == old(self).surface_configuration.present_mode,
            c.alpha_mode == old(self).surface_configuration.alpha_mode,
            final(self).configurations_applied == old(self).configurations_applied + 1,
    {
        self.surface_configuration.width = width;
        self.surface_configuration.height = height;
        let c = self.initialize_surface();
        proof {
            assert(*self =~= after_resize(*old(self), width, height));
        }
        c
    }

    /// Replaces the held instance set wholesale; visible to the
    /// immediately following frame and to no earlier one.
    pub fn set_rectangles(&mut self, rectangles: &[RectangleInstance])
        ensures
            final(self).rectangles@ == rectangles@,
            final(self).surface_configuration == old(self).surface_configuration,
            final(self).rectangle_renderer == old(self).rectangle_renderer,
            final(self).state == old(self).state,
            final(self).configurations_applied == old(self).configurations_applied,
    {
        self.rectangles.clear();
        let mut i: usize = 0;
        while i < rectangles.len()
            invariant
                i <= rectangles@.len(),
                self.rectangles@ == rectangles@.subrange(0, i as int),
                self.surface_configuration == old(self).surface_configuration,
                self.rectangle_renderer == old(self).rectangle_renderer,
                self.state == old(self).state,
                self.configurations_applied == old(self).configurations_applied,
            decreases rectangles@.len() - i,
        {
            self.rectangles.push(rectangles[i]);
            proof {
                assert(self.rectangles@ =~= rectangles@.subrange(0, i + 1 as int));
            }
            i = i + 1;
        }
        proof {
            assert(rectangles@.subrange(0, rectangles@.len() as int) =~= rectangles@);
        }
    }

    /// Whether a frame may be attempted: the surface is configured, its
    /// configuration applied at least once, and no fatal failure has
    /// been seen.
    pub fn can_acquire(&self) -> (b: bool)
        ensures
            b == (self.state is Configured && self.configurations_applied >= 1),
    {
        match self.state {
            SurfaceState::Configured => self.configurations_applied >= 1,
            SurfaceState::Fatal => false,
        }
    }

    /// Decides one failed acquisition. Loss yields exactly one
    /// reconfiguration — the unchanged configuration, re-applied once —
    /// before the next attempt; out-of-memory is terminal and ends all
    /// acquisition; an outdated or timed-out surface drops the frame
    /// and changes nothing.
    pub fn handle_surface_error(&mut self, e: SurfaceError) -> (a: FrameAction)
        requires
            old(self).state is Configured,
            old(self).configurations_applied >= 1,
            old(self).configurations_applied < u64::MAX,
        ensures
            final(self).surface_configuration == old(self).surface_configuration,
            final(self).rectangle_renderer == old(self).rectangle_renderer,
            final(self).rectangles == old(self).rectangles,
            e is Lost ==> a == FrameAction::Reconfigure(old(self).surface_configuration)
                && final(self).state is Configured
                && final(self).configurations_applied == old(self).configurations_applied + 1,
            e is OutOfMemory ==> a == FrameAction::Terminate
                && final(self).state is Fatal
                && final(self).configurations_applied == old(self).configurations_applied,
            e is Outdated || e is Timeout ==> a == FrameAction::SkipFrame
                && *final(self) == *old(self),
    {
        match e {
            SurfaceError::Lost => {
                let c = self.initialize_surface();
                FrameAction::Reconfigure(c)
            },
            SurfaceError::OutOfMemory => {
                self.state = SurfaceState::Fatal;
                FrameAction::Terminate
            },
            SurfaceError::Outdated => FrameAction::SkipFrame,
            SurfaceError::Timeout => FrameAction::SkipFrame,
        }
    }

    /// The packed bytes of the held instance set, for the host to
    /// upload into this frame's instance buffer.
    pub fn instance_data(&self) -> (r: Vec<u8>)
        ensures
            r@ == instances_bytes(self.rectangles@),
    {
        pack_instances(&self.rectangles)
    }

    /// Records one frame over an acquired target: asks the drawable
    /// pipeline for its items for the held instance set and flattens
    /// them into one render pass that clears to the background color.
    /// The pass draws the quad's six indices once, instanced over
    /// `[0, n)` for the `n` held instances.
    pub fn build_frame(&mut self, instance_buffer: BufferId) -> (plan: FramePlan)
        requires
            old(self).state is Configured,
            old(self).configurations_applied >= 1,
            old(self).rectangles@.len() <= u32::MAX,
        ensures
            *final(self) == after_build(*old(self), instance_buffer),
            plan.clear_color == background_color(),
            plan.commands@ == frame_commands(
                old(self).rectangle_renderer,
                instance_buffer,
                old(self).rectangles@.len() as u32,
            ),
    {
        let instance_count = self.rectangles.len() as u32;
        let items = self.rectangle_renderer.get_items(instance_count, instance_buffer);
        proof {
            assert(items@.drop_last() =~= Seq::<crate::render_item::RenderItem>::empty());
            assert(items_commands(items@) == items_commands(items@.drop_last()) + item_commands(items@[0]));
            assert(items_commands(items@) =~= item_commands(items@[0]));
            assert(item_commands(items@[0]) =~= frame_commands(
                old(self).rectangle_renderer,
                instance_buffer,
                old(self).rectangles@.len() as u32,
            ));
        }
        let commands = record_items(&items);
        proof {
            assert(*self =~= after_build(*old(self), instance_buffer));
        }
        FramePlan {
            clear_color: ClearColor {
                r_bits: CLEAR_R_BITS,
                g_bits: CLEAR_G_BITS,
                b_bits: CLEAR_B_BITS,
                a_bits: CLEAR_A_BITS,
            },
            commands,
        }
    }
}

/// A frame plan issues exactly one draw call: the last of its five
/// commands, an indexed draw over all six quad indices, instanced over
/// `[0, instance_count)` — for an empty instance set a draw of nothing,
/// not an error.
pub proof fn lemma_frame_single_draw(rect: RectangleRenderer, instance_buffer: BufferId, instance_count: u32)
    ensures
        frame_commands(rect, instance_buffer, instance_count).len() == 5,
        forall|i: int| 0 <= i < 5 ==> (is_draw_command(
            #[trigger] frame_commands(rect, instance_buffer, instance_count)[i],
        ) <==> i == 4),
        frame_commands(rect, instance_buffer, instance_count)[4] == (RenderCommand::DrawIndexed {
            indices_start: 0,
            indices_end: QUAD_INDEX_COUNT,
            instances_start: 0,
            instances_end: instance_count,
        }),
{
}

/// Rendering twice without an intervening `set_rectangles` draws the
/// same instances both times: recording a frame preserves the held
/// instance set, so the next frame's plan issues the same draw call,
/// whatever buffer carries the upload.
pub proof fn lemma_repeat_render_same_draw(r: Renderer, first_buffer: BufferId, second_buffer: BufferId)
    ensures
        after_build(r, first_buffer).rectangles@ == r.rectangles@,
        frame_commands(
            after_build(r, first_buffer).rectangle_renderer,
            second_buffer,
            after_build(r, first_buffer).rectangles@.len() as u32,
        )[4] == frame_commands(
            r.rectangle_renderer,
            first_buffer,
            r.rectangles@.len() as u32,
        )[4],
{
}

/// Two successive resizes each apply exactly one configuration, each
/// carrying the size of its own event, and neither touches the format
/// or the modes chosen at negotiation.
pub proof fn lemma_successive_resizes(r: Renderer, w1: u32, h1: u32, w2: u32, h2: u32)
    requires
        r.configurations_applied + 2 <= u64::MAX,
    ensures
        after_resize(r, w1, h1).surface_configuration.width == w1,
        after_resize(r, w1, h1).surface_configuration.height == h1,
        after_resize(r, w1, h1).configurations_applied == r.configurations_applied + 1,
        after_resize(after_resize(r, w1, h1), w2, h2).surface_configuration.width == w2,
        after_resize(after_resize(r, w1, h1), w2, h2).surface_configuration.height == h2,
        after_resize(after_resize(r, w1, h1), w2, h2).configurations_applied == r.configurations_applied + 2,
        after_resize(after_resize(r, w1, h1), w2, h2).surface_configuration.format
            == r.surface_configuration.format,
        after_resize(after_resize(r, w1, h1), w2, h2).surface_configuration.present_mode
            == r.surface_configuration.present_mode,
        after_resize(after_resize(r, w1, h1), w2, h2).surface_configuration.alpha_mode
            == r.surface_configuration.alpha_mode,
{
}

} // verus!
