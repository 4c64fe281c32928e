//! Label placement for a 3D scene annotator.
//!
//! A text label follows a moving object on screen. The projection of the object
//! and its motion are computed by the host in floating point; this library holds
//! the rules that decide what is written into the label's layout each frame and
//! which position of the object the label step may read.
pub mod frame;
pub mod label;
