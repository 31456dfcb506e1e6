//! A timeline compositor. Clips are placed on segments, segments are played
//! one after the other, and every output frame is composited into one
//! reusable pixel buffer and handed to an encoder in strict frame order.
//!
//! - [`time`]: instants as frame numbers or offsets in seconds, and closed
//!   intervals of them.
//! - [`clip`]: what can draw itself into a frame; placement and active
//!   interval; the still-image clip.
//! - [`framebuffer`]: the RGBA pixel buffer and compositing onto it.
//! - [`segment`], [`video`]: the timeline, its frame count, the composition of
//!   one frame, and the steps of a render.
//! - [`ffmpeg`]: the encoder's command line and the judging of its answers.
//! - [`text`]: numbers and messages as text.
//!
//! The library starts no process and opens no file. A render is a dialogue:
//! [`video::Video::render_step`] says what to do next, the caller does it and
//! reports back. Scaling and blending of pixels are done by the `image`
//! crate; what is taken on trust of it is written at the two functions that
//! call it, in [`framebuffer`].

pub mod clip;
pub mod ffmpeg;
pub mod framebuffer;
pub mod segment;
pub mod text;
pub mod time;
pub mod video;
