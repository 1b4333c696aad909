//! A minimal instanced-rectangle rendering core.
//!
//! The crate holds the logic of a small real-time renderer: per-frame
//! instance data packed for upload, surface-configuration negotiation,
//! the surface-loss state machine, and the frame plan (one render pass of
//! bind and draw commands) that a host executes against a GPU queue. The
//! host side — window, device, surface and queue handles — stays outside;
//! the library works on plain values and handles.

mod instance;
mod rectangle;
mod render_item;
mod renderer;
mod surface;

pub use instance::Color;
pub use instance::INSTANCE_STRIDE;
pub use instance::RectangleInstance;
pub use instance::ScreenPosition;
pub use instance::instance_bytes;
pub use instance::instances_bytes;
pub use instance::lemma_instances_bytes_layout;
pub use instance::lemma_instances_bytes_len;
pub use instance::pack_instances;
pub use instance::u32_le_bytes;
pub use rectangle::F32_NEG_ONE_BITS;
pub use rectangle::F32_ONE_BITS;
pub use rectangle::QUAD_INDEX_COUNT;
pub use rectangle::QUAD_VERTEX_COUNT;
pub use rectangle::RectangleRenderer;
pub use rectangle::quad_index_bytes;
pub use rectangle::quad_index_data;
pub use rectangle::quad_indices;
pub use rectangle::quad_vertex_bytes;
pub use rectangle::quad_vertex_data;
pub use rectangle::u16_le_bytes;
pub use rectangle::u16s_le_bytes;
pub use render_item::BufferId;
pub use render_item::DrawTechnique;
pub use render_item::PipelineId;
pub use render_item::RenderCommand;
pub use render_item::RenderItem;
pub use render_item::binding_commands;
pub use render_item::is_draw_command;
pub use render_item::item_commands;
pub use render_item::item_wf;
pub use render_item::items_commands;
pub use render_item::record_items;
pub use render_item::technique_commands;
pub use renderer::CLEAR_A_BITS;
pub use renderer::CLEAR_B_BITS;
pub use renderer::CLEAR_G_BITS;
pub use renderer::CLEAR_R_BITS;
pub use renderer::ClearColor;
pub use renderer::FrameAction;
pub use renderer::FramePlan;
pub use renderer::Renderer;
pub use renderer::SurfaceError;
pub use renderer::SurfaceState;
pub use renderer::after_build;
pub use renderer::after_resize;
pub use renderer::background_color;
pub use renderer::frame_commands;
pub use renderer::lemma_frame_single_draw;
pub use renderer::lemma_repeat_render_same_draw;
pub use renderer::lemma_successive_resizes;
pub use surface::FormatOption;
pub use surface::SurfaceCapabilities;
pub use surface::SurfaceConfiguration;
pub use surface::has_srgb;
pub use surface::lemma_preferred_format_first_srgb;
pub use surface::lemma_preferred_format_no_srgb;
pub use surface::negotiate_configuration;
pub use surface::preferred_format;
