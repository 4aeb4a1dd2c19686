//! Verified core of a small Vulkan engine: descriptor assembly, resource
//! bookkeeping and the frame-in-flight scheduler, all over plain values.

pub mod buffer;
pub mod builder;
pub mod command;
pub mod command_buffer;
pub mod dependency;
pub mod descriptor_set;
pub mod device;
pub mod extent;
pub mod flags;
pub mod frame_commands;
pub mod framebuffer;
pub mod graphics_pipeline;
pub mod image;
pub mod image_view;
pub mod input;
pub mod instance;
pub mod memory;
pub mod ownership;
pub mod physical_device;
pub mod pipeline_layout;
pub mod queue;
pub mod raw_handle;
pub mod render_context;
pub mod render_context_laws;
pub mod render_frame;
pub mod render_pass;
pub mod render_pass_build;
pub mod render_pass_laws;
pub mod sampler;
pub mod setup;
pub mod shader_module;
pub mod subpass;
pub mod swapchain;
pub mod sync;
