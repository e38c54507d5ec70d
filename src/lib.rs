//! Capture from V4L2 video devices: negotiation of format and frame rate, a pool of
//! memory-mapped buffers handed out as frames, enumeration of formats, sizes and
//! intervals, and device controls.
//!
//! The library decides and the caller talks to the device: each walk, read or start
//! says which query to issue next, and takes the driver's answer back. The records of
//! `v4l2` give every query its exact byte layout.
pub mod bytes;
pub mod camera;
pub mod consts;
pub mod control;
pub mod enumerate;
pub mod error;
pub mod text;
pub mod v4l2;

pub use camera::{Camera, Config, Frame, Start, StartAnswer, StartPhase, StartRequest, State};
pub use control::{
    Control, ControlIter, ControlQuery, CtrlAnswer, CtrlData, CtrlIntMenuItem, CtrlMenuItem,
    CtrlRequest, ReadStep, Settable, Stage,
};
pub use enumerate::{FormatInfo, FormatIter, IntervalInfo, IntervalWalk, ResolutionInfo, ResolutionWalk};
pub use error::{Error, Result};
