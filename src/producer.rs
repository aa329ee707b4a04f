use vstd::prelude::*;

verus! {

/// Time between two synthesized entries, in milliseconds.
pub const PRODUCER_PERIOD_MS: u64 = 1000;

/// The text of a synthesized entry stamped with `stamp`.
pub open spec fn message_for(stamp: Seq<char>) -> Seq<char> {
    "Additional log message at "@ + stamp
}

/// Relies on chrono's `Local::now` and its `Display`: the local wall-clock
/// time as text. It changes from call to call; all that holds of every
/// outcome is that it is not empty (`Display` writes the date-time, a space
/// and the offset).
#[verifier::external_body]
fn local_time_text() -> (r: String)
    ensures
        r@.len() > 0,
{
    chrono::Local::now().to_string()
}

/// The entry text for a given time stamp.
pub fn log_message(stamp: &str) -> (r: String)
    ensures
        r@ == message_for(stamp@),
{
    let prefix = String::from_str("Additional log message at ");
    prefix.concat(stamp)
}

/// A new entry stamped with the current local time.
pub fn synthesize_entry() -> (r: String)
    ensures
        exists|stamp: Seq<char>| stamp.len() > 0 && r@ == #[trigger] message_for(stamp),
{
    let stamp = local_time_text();
    log_message(stamp.as_str())
}

/// The entries a new dashboard's log starts with, oldest first.
pub fn seed_entries() -> (r: Vec<String>)
    ensures
        r@.len() == 3,
        r@[0]@ == "Starting mining process..."@,
        r@[1]@ == "New block found!"@,
        r@[2]@ == "Received share accepted by the pool."@,
{
    let mut r: Vec<String> = Vec::new();
    r.push(String::from_str("Starting mining process..."));
    r.push(String::from_str("New block found!"));
    r.push(String::from_str("Received share accepted by the pool."));
    r
}

/// The stats line a new dashboard shows.
pub fn initial_stats() -> (r: String)
    ensures
        r@ == "Hash rate: 50 MH/s | Accepted shares: 1024 | Rejected shares: 16"@,
{
    String::from_str("Hash rate: 50 MH/s | Accepted shares: 1024 | Rejected shares: 16")
}

} // verus!
