use std::sync::{Arc, Mutex};
use vstd::prelude::*;

verus! {

pub type TransportInfoRef = Arc<Mutex<TransportInfo>>;

/// Where the song stands, as a display shows it. Both positions are in
/// ticks.
#[derive(Debug, Clone, Copy, PartialEq, Eq, Structural)]
pub struct TransportInfo {
    pub bar_number: i32,
    pub bar_start_pos_beats: i64,
    pub pos_beats: i64,
    pub time_sig_numerator: i32,
    pub time_sig_denominator: i32,
}

impl TransportInfo {
    /// A shared cell that holds the start of the song.
    pub fn new() -> TransportInfoRef {
        Arc::new(Mutex::new(TransportInfo::default()))
    }
}

impl Default for TransportInfo {
    fn default() -> (info: Self)
        ensures
            info == (TransportInfo {
                bar_number: 0,
                bar_start_pos_beats: 0,
                pos_beats: 0,
                time_sig_numerator: 0,
                time_sig_denominator: 0,
            }),
    {
        TransportInfo {
            bar_number: 0,
            bar_start_pos_beats: 0,
            pos_beats: 0,
            time_sig_numerator: 0,
            time_sig_denominator: 0,
        }
    }
}

} // verus!
