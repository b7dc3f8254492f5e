use vstd::prelude::*;

pub mod ascii;
pub mod cmd;
pub mod config;
pub mod invoke;
pub mod logger;
pub mod numfmt;
pub mod term;
pub mod tg;

verus! {

/// Relies on std::time::SystemTime::now and the duration since the Unix
/// epoch: the wall-clock seconds, `None` when the clock reads before the
/// epoch. The result depends on the wall clock, so nothing is promised of it.
#[verifier::external_body]
fn unix_seconds_now() -> Option<u64> {
    let start = std::time::SystemTime::now();
    match start.duration_since(std::time::UNIX_EPOCH) {
        Ok(since_the_epoch) => Some(since_the_epoch.as_secs()),
        Err(_) => None,
    }
}

/// The launch timestamp in whole seconds, read once at startup; zero if the
/// clock reads before the epoch. Updates dated earlier are discarded as
/// replays.
pub fn init_start_time() -> u64 {
    match unix_seconds_now() {
        Some(s) => s,
        None => 0,
    }
}

} // verus!
