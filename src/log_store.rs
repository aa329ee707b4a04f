use vstd::prelude::*;

verus! {

/// The last `min(max_rows, log.len())` entries of `log`, oldest first.
pub open spec fn window_of(log: Seq<Seq<char>>, max_rows: nat) -> Seq<Seq<char>> {
    let n: int = if max_rows < log.len() { max_rows as int } else { log.len() as int };
    log.subrange(log.len() - n, log.len() as int)
}

/// The log obtained from `log` by appending each of `entries` in turn.
pub open spec fn after_appends(log: Seq<Seq<char>>, entries: Seq<Seq<char>>) -> Seq<Seq<char>>
    decreases entries.len(),
{
    if entries.len() == 0 {
        log
    } else {
        after_appends(log, entries.drop_last()).push(entries.last())
    }
}

/// Appending entries one at a time keeps every earlier entry and adds the new
/// ones after it in append order: after `n` appends the log is `n` longer, and
/// nothing is lost or reordered.
pub proof fn lemma_appends_keep_order(log: Seq<Seq<char>>, entries: Seq<Seq<char>>)
    ensures
        after_appends(log, entries) == log + entries,
        after_appends(log, entries).len() == log.len() + entries.len(),
    decreases entries.len(),
{
    if entries.len() > 0 {
        lemma_appends_keep_order(log, entries.drop_last());
        assert(log + entries =~= (log + entries.drop_last()).push(entries.last()));
    }
}

/// The window has `min(log.len(), max_rows)` entries, and they are the tail of
/// the log in original order.
pub proof fn lemma_window_is_tail(log: Seq<Seq<char>>, max_rows: nat)
    ensures
        window_of(log, max_rows).len() == if max_rows < log.len() { max_rows } else { log.len() },
        forall|i: int|
            0 <= i < window_of(log, max_rows).len() ==> #[trigger] window_of(log, max_rows)[i]
                == log[log.len() - window_of(log, max_rows).len() + i],
        max_rows == 0 ==> window_of(log, max_rows) == Seq::<Seq<char>>::empty(),
        max_rows >= log.len() ==> window_of(log, max_rows) == log,
{
    if max_rows == 0 {
        assert(window_of(log, max_rows) =~= Seq::<Seq<char>>::empty());
    }
    if max_rows >= log.len() {
        assert(window_of(log, max_rows) =~= log);
    }
}

/// A window taken just before an append is made of whole entries that the log
/// still holds, at the same places, after the append; it is never longer than
/// the log was when it was taken.
pub proof fn lemma_window_survives_append(log: Seq<Seq<char>>, entry: Seq<char>, max_rows: nat)
    ensures
        window_of(log, max_rows).len() <= log.len(),
        forall|i: int|
            0 <= i < window_of(log, max_rows).len() ==> #[trigger] window_of(log, max_rows)[i]
                == log.push(entry)[log.len() - window_of(log, max_rows).len() + i],
{
}

/// An ordered, append-only buffer of log lines.
pub struct LogStore {
    entries: Vec<String>,
}

impl View for LogStore {
    type V = Seq<Seq<char>>;

    closed spec fn view(&self) -> Seq<Seq<char>> {
        self.entries@.map_values(|s: String| s@)
    }
}

impl LogStore {
    /// A store holding `entries`, in the given order.
    pub fn new(entries: Vec<String>) -> (r: LogStore)
        ensures
            r@ == entries@.map_values(|s: String| s@),
    {
        LogStore { entries }
    }

    /// A store with no entries.
    pub fn empty() -> (r: LogStore)
        ensures
            r@ == Seq::<Seq<char>>::empty(),
    {
        let r = LogStore { entries: Vec::new() };
        assert(r@ =~= Seq::<Seq<char>>::empty());
        r
    }

    /// Number of entries held.
    pub fn len(&self) -> (r: usize)
        ensures
            r == self@.len(),
    {
        self.entries.len()
    }

    /// Adds `entry` after every entry already held.
    pub fn append(&mut self, entry: String)
        ensures
            final(self)@ == old(self)@.push(entry@),
    {
        self.entries.push(entry);
        assert(self@ =~= old(self)@.push(entry@));
    }

    /// A copy of the last `min(max_rows, len)` entries, oldest first.
    pub fn visible_window(&self, max_rows: usize) -> (r: Vec<String>)
        ensures
            r@.map_values(|s: String| s@) == window_of(self@, max_rows as nat),
            r@.len() <= max_rows,
            r@.len() <= self@.len(),
    {
        let len = self.entries.len();
        let start: usize = if max_rows < len { len - max_rows } else { 0 };
        let mut out: Vec<String> = Vec::new();
        let mut i: usize = start;
        while i < len
            invariant
                start <= i <= len,
                len == self.entries@.len(),
                start == len - window_of(self@, max_rows as nat).len(),
                out@.len() == i - start,
                forall|j: int| 0 <= j < out@.len() ==> #[trigger] out@[j]@ == self@[start + j],
            decreases len - i,
        {
            let e = self.entries[i].clone();
            assert(e@ == self@[i as int]);
            out.push(e);
            i = i + 1;
        }
        assert(out@.map_values(|s: String| s@) =~= window_of(self@, max_rows as nat));
        out
    }
}

} // verus!
