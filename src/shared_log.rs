use vstd::prelude::*;
use vstd::rwlock::{RwLock, RwLockPredicate};
use crate::log_store::{LogStore, window_of};
use crate::producer::synthesize_entry;

verus! {

/// What the lock guarding a shared log keeps true of the store it holds: the
/// entries it was seeded with stay at its front. Appends only add after them.
pub struct SeedPrefix {
    pub seed: Seq<Seq<char>>,
}

impl RwLockPredicate<LogStore> for SeedPrefix {
    open spec fn inv(self, v: LogStore) -> bool {
        self.seed.len() <= v@.len() && v@.subrange(0, self.seed.len() as int) == self.seed
    }
}

/// A log store that several threads share. Every access runs under one lock,
/// held only long enough to append or to copy a window out.
pub struct SharedLog {
    lock: RwLock<LogStore, SeedPrefix>,
}

impl SharedLog {
    /// The entries the log was seeded with; every state of the log starts
    /// with them.
    pub closed spec fn seed(&self) -> Seq<Seq<char>> {
        self.lock.pred().seed
    }

    /// A shared log seeded with `entries`, in the given order.
    pub fn new(entries: Vec<String>) -> (r: SharedLog)
        ensures
            r.seed() == entries@.map_values(|s: String| s@),
    {
        let store = LogStore::new(entries);
        let ghost seed = store@;
        assert(store@.subrange(0, seed.len() as int) =~= seed);
        SharedLog { lock: RwLock::new(store, Ghost(SeedPrefix { seed })) }
    }

    /// Adds `entry` after every entry present when the lock is taken. Other
    /// threads may append at the same time, so nothing more is stated here of
    /// the shared contents than what the lock keeps: the seed stays in front.
    pub fn append(&self, entry: String) {
        let (mut store, handle) = self.lock.acquire_write();
        let ghost before = store@;
        store.append(entry);
        assert(store@.subrange(0, self.seed().len() as int) =~= before.subrange(
            0,
            self.seed().len() as int,
        ));
        handle.release_write(store);
    }

    /// Appends an entry stamped with the current local time.
    pub fn produce(&self) {
        let entry = synthesize_entry();
        self.append(entry);
    }

    /// A copy of the last `min(max_rows, len)` entries of the log as it stood
    /// while the lock was held: whole entries, oldest first, of a log that
    /// starts with the seed.
    pub fn visible_window(&self, max_rows: usize) -> (r: Vec<String>)
        ensures
            r@.len() <= max_rows,
            exists|log: Seq<Seq<char>>|
                r@.map_values(|s: String| s@) == window_of(log, max_rows as nat)
                    && #[trigger] window_of(log, max_rows as nat).len() <= log.len()
                    && log.len() >= self.seed().len()
                    && log.subrange(0, self.seed().len() as int) == self.seed(),
    {
        let handle = self.lock.acquire_read();
        let store = handle.borrow();
        let r = store.visible_window(max_rows);
        proof {
            let log = store@;
            assert(r@.map_values(|s: String| s@) == window_of(log, max_rows as nat));
        }
        handle.release_read();
        r
    }

    /// Number of entries held when the lock was taken; never fewer than the
    /// seed.
    pub fn len(&self) -> (r: usize)
        ensures
            r >= self.seed().len(),
    {
        let handle = self.lock.acquire_read();
        let n = handle.borrow().len();
        handle.release_read();
        n
    }
}

} // verus!
