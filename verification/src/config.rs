use vstd::prelude::*;

verus! {

/// Immutable startup configuration, read once before the pump starts.
#[derive(Clone, Debug)]
pub struct Config {
    /// Chat identifiers, each the decimal rendering of a chat id, from which
    /// commands are accepted.
    pub enabled_chats: Vec<String>,
    pub telegram: Telegram,
}

/// Settings for the remote platform connection.
#[derive(Clone, Debug)]
pub struct Telegram {
    pub telegram_token: String,
    pub proxy: Option<String>,
    pub time: Time,
}

/// Delays, in milliseconds, between polling attempts: `fetch_delay` after a
/// successful fetch, `failed_delay` after a failed one.
#[derive(Clone, Copy, Debug)]
pub struct Time {
    pub fetch_delay: u64,
    pub failed_delay: u64,
}

impl Default for Time {
    fn default() -> (r: Self)
        ensures
            r.fetch_delay == 1000,
            r.failed_delay == 5000,
    {
        Self { fetch_delay: 1000, failed_delay: 5000 }
    }
}

} // verus!
