//! Typed model of a pulse-per-second capture device: mode flags, API
//! version, the two timestamp encodings, and the packed records that the
//! Linux PPS control operations exchange with the kernel.
pub mod mode;
pub mod time;
pub mod params;
pub mod linux;

pub use crate::mode::{PpsMode, PpsModeBit, PpsModeBuilder, PpsVersion};
pub use crate::params::{PpsInfo, PpsParams};
pub use crate::time::{NtpFp, PpsTimeU, TimeSpec};
