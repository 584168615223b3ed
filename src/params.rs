//! The typed records that a PPS source exchanges with its user: the
//! capture parameters and one fetched event.
use vstd::prelude::*;
use crate::mode::{PpsMode, PpsVersion};
use crate::time::PpsTimeU;

verus! {

/// The capture configuration of a PPS source.
#[derive(Clone, Copy, Debug)]
pub struct PpsParams {
    pub api_version: PpsVersion,
    pub mode: PpsMode,
    pub assert_off_tu: PpsTimeU,
    pub clear_off_tu: PpsTimeU,
}

/// One fetched capture event.
#[derive(Clone, Copy, Debug)]
pub struct PpsInfo {
    pub assert_sequence: u64,
    pub clear_sequence: u64,
    pub assert_tu: PpsTimeU,
    pub clear_tu: PpsTimeU,
    pub mode: PpsMode,
}

} // verus!
