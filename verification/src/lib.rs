//! Session-side logic of a nested Wayland compositor: wire framing, surface
//! composition, dmabuf handling, session control and encoder policy.

pub mod advert;
pub mod attach;
pub mod audio;
pub mod buffer;
pub mod bytes;
pub mod clipboard;
pub mod codec;
pub mod composite;
pub mod compositor;
pub mod control;
pub mod cuda;
pub mod dmabuf;
pub mod egl;
pub mod events;
pub mod ffv1;
pub mod frame_encode;
pub mod gbm;
pub mod messages;
pub mod modifier_query;
pub mod msgpack;
pub mod nv12;
pub mod nv12_dump;
pub mod nvenc;
pub mod nvenc_session;
pub mod plasma;
pub mod readback;
pub mod record_path;
pub mod record_start;
pub mod screencopy;
pub mod screenshot;
pub mod stacking;
pub mod subsurface;
pub mod surface;
pub mod text;
pub mod viewer;
