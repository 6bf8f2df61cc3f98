//! Logic of a USB Audio Class 2.0 stereo DAC that plays through I2S.
//!
//! The crate holds no hardware access. It decides; the firmware around it
//! performs the transfers and hands back what happened.

pub mod audio;
pub mod bytes;
pub mod control;
pub mod descriptors;
pub mod feedback;
pub mod fifo;
pub mod i2s;
pub mod pcm;
pub mod playback;
