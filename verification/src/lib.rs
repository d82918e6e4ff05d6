//! Materializes an operating-system mouse-cursor theme from a selected
//! source image: decodes per-frame timing metadata, renders the config text
//! the external rasterizer consumes, plans the tool invocations and the
//! idempotent theme-directory build, and decides the session-reload step.
pub mod config;
pub mod errors;
pub mod frames;
pub mod gif_decode;
pub mod invoke;
pub mod notify;
pub mod pipeline;
pub mod theme_dir;
