//! Verified core logic of the Suzy GUI toolkit: selection states, pointer
//! grabs, event-loop state, texture loading (PNG decoding, DDS and PNG upload plans,
//! block-compressed flips, the texture cache), batching and masking of draw
//! calls, shader attribute switching, text layout helpers, vertex
//! configuration and transform matrices.

pub mod watch;
pub mod selectable;
pub mod texture;
pub mod dds;
pub mod flip;
pub mod flip_laws;
pub mod batch;
pub mod pointer;
pub mod event;
pub mod vertex;
pub mod matrix;
pub mod text;
pub mod drawparams;
pub mod png;
pub mod tui;
pub mod masker;
pub mod texture_key;
pub mod shader;
pub mod platform;
pub mod renderer;
pub mod texture_cache;
