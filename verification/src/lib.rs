use vstd::prelude::*;

pub mod text;
pub mod inline_context;
pub mod keys;
pub mod ids;
pub mod artifacts;
pub mod palette;
pub mod sort;
pub mod palettes;
pub mod labels;
pub mod approvals;
pub mod pending_summary;
pub mod width;
pub mod style;
pub mod render;
pub mod json;
pub mod tool_format;
pub mod clock;
pub mod watch;
pub mod watch_loop;
pub mod pending;
pub mod processes;
pub mod overlay_actions;
pub mod ui_state;
pub mod overlay_view;
pub mod palette_exec;
pub mod inline_exec;
pub mod thread_view;
pub mod pending_flow;
pub mod events;
pub mod threads;
pub mod key_routing;
