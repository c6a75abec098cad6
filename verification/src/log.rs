//! The event log: an ordered record of status and data lines.

use vstd::prelude::*;

verus! {

/// How an entry is meant to be shown.
#[derive(Clone, Copy, Debug, PartialEq, Eq, Structural)]
pub enum LogKind {
    Info,
    Success,
    Warning,
    Error,
}

/// One line of the log.
#[derive(Debug)]
pub struct LogEntry {
    pub text: String,
    pub kind: LogKind,
}

/// What a `LogEntry` stands for: its characters and its kind.
pub struct EntryModel {
    pub text: Seq<char>,
    pub kind: LogKind,
}

impl View for LogEntry {
    type V = EntryModel;

    open spec fn view(&self) -> EntryModel {
        EntryModel { text: self.text@, kind: self.kind }
    }
}

impl LogEntry {
    pub fn new(text: String, kind: LogKind) -> (entry: LogEntry)
        ensures
            entry@ == (EntryModel { text: text@, kind: kind }),
    {
        LogEntry { text, kind }
    }

    pub fn text(&self) -> (text: &str)
        ensures
            text@ == self@.text,
    {
        self.text.as_str()
    }

    pub fn kind(&self) -> (kind: LogKind)
        ensures
            kind == self@.kind,
    {
        self.kind
    }
}

impl Clone for LogEntry {
    fn clone(&self) -> (copy: LogEntry)
        ensures
            copy@ == self@,
    {
        LogEntry { text: self.text.clone(), kind: self.kind }
    }
}

/// The number of entries of `entries` that have kind `kind`.
pub open spec fn count_kind(entries: Seq<EntryModel>, kind: LogKind) -> nat
    decreases entries.len(),
{
    if entries.len() == 0 {
        0
    } else {
        count_kind(entries.drop_last(), kind) + if entries.last().kind == kind {
            1nat
        } else {
            0nat
        }
    }
}

/// Appending one entry raises the count of its own kind by one and leaves
/// the counts of the other kinds as they were.
pub proof fn lemma_count_kind_push(entries: Seq<EntryModel>, entry: EntryModel, kind: LogKind)
    ensures
        count_kind(entries.push(entry), kind) == count_kind(entries, kind) + if entry.kind
            == kind {
            1nat
        } else {
            0nat
        },
{
    assert(entries.push(entry).drop_last() =~= entries);
}

/// The entries after `entry` was appended: those before, then `entry`.
pub open spec fn appended(entries: Seq<EntryModel>, entry: EntryModel) -> Seq<EntryModel> {
    entries.push(entry)
}

/// The entries after a clear: none, whatever was there.
pub open spec fn cleared(entries: Seq<EntryModel>) -> Seq<EntryModel> {
    Seq::empty()
}

/// Clearing discards everything appended before it and nothing appended
/// after it: two appends, a clear and a third append leave exactly the third
/// entry.
pub proof fn lemma_clear_then_append(
    entries: Seq<EntryModel>,
    a: EntryModel,
    b: EntryModel,
    c: EntryModel,
)
    ensures
        cleared(appended(appended(entries, a), b)).len() == 0,
        appended(cleared(appended(appended(entries, a), b)), c) == seq![c],
{
    assert(Seq::<EntryModel>::empty().push(c) =~= seq![c]);
}

/// Appending keeps every earlier entry at its place and puts the new one
/// last.
pub proof fn lemma_append_keeps_order(entries: Seq<EntryModel>, entry: EntryModel)
    ensures
        appended(entries, entry).len() == entries.len() + 1,
        appended(entries, entry).last() == entry,
        forall|i: int| 0 <= i < entries.len() ==> appended(entries, entry)[i] == entries[i],
{
}

/// An ordered sequence of entries, oldest first. Entries are only ever added
/// at the end; `clear` is the one operation that removes any.
pub struct EventLog {
    entries: Vec<LogEntry>,
}

impl View for EventLog {
    type V = Seq<EntryModel>;

    closed spec fn view(&self) -> Seq<EntryModel> {
        self.entries@.map_values(|e: LogEntry| e@)
    }
}

impl EventLog {
    /// An empty log.
    pub fn new() -> (log: EventLog)
        ensures
            log@ == Seq::<EntryModel>::empty(),
    {
        let log = EventLog { entries: Vec::new() };
        assert(log@ =~= Seq::<EntryModel>::empty());
        log
    }

    /// Adds `entry` after every entry already present.
    pub fn append(&mut self, entry: LogEntry)
        ensures
            final(self)@ == appended(old(self)@, entry@),
    {
        self.entries.push(entry);
        assert(self@ =~= appended(old(self)@, entry@));
    }

    /// Discards every entry.
    pub fn clear(&mut self)
        ensures
            final(self)@ == cleared(old(self)@),
    {
        self.entries = Vec::new();
        assert(self@ =~= Seq::<EntryModel>::empty());
    }

    /// The number of entries.
    pub fn len(&self) -> (n: usize)
        ensures
            n == self@.len(),
    {
        self.entries.len()
    }

    pub fn is_empty(&self) -> (empty: bool)
        ensures
            empty == (self@.len() == 0),
    {
        self.entries.len() == 0
    }

    /// The entry at position `index`, counted from the oldest, if there is one.
    pub fn get(&self, index: usize) -> (entry: Option<&LogEntry>)
        ensures
            index < self@.len() ==> entry.is_some() && entry.unwrap()@ == self@[index as int],
            index >= self@.len() ==> entry.is_none(),
    {
        if index < self.entries.len() {
            Some(&self.entries[index])
        } else {
            None
        }
    }

    /// A point-in-time copy of the log, in order. Later changes to the log do
    /// not show in it, and it can be walked any number of times.
    pub fn snapshot(&self) -> (copy: Vec<LogEntry>)
        ensures
            copy@.map_values(|e: LogEntry| e@) == self@,
    {
        let mut copy: Vec<LogEntry> = Vec::new();
        let n: usize = self.entries.len();
        let mut i: usize = 0;
        while i < n
            invariant
                n == self.entries@.len(),
                i <= n,
                copy@.len() == i,
                forall|j: int| 0 <= j < i ==> (#[trigger] copy@[j])@ == self.entries@[j]@,
            decreases n - i,
        {
            copy.push(self.entries[i].clone());
            i += 1;
        }
        assert(copy@.map_values(|e: LogEntry| e@) =~= self@);
        copy
    }

    /// How many entries have kind `kind`.
    pub fn count(&self, kind: LogKind) -> (n: usize)
        ensures
            n == count_kind(self@, kind),
    {
        let total: usize = self.entries.len();
        let mut n: usize = 0;
        let mut i: usize = 0;
        while i < total
            invariant
                total == self.entries@.len(),
                i <= total,
                n <= i,
                n == count_kind(self@.take(i as int), kind),
            decreases total - i,
        {
            proof {
                assert(self@.take(i + 1) =~= self@.take(i as int).push(self@[i as int]));
                lemma_count_kind_push(self@.take(i as int), self@[i as int], kind);
            }
            if self.entries[i].kind == kind {
                n += 1;
            }
            i += 1;
        }
        assert(self@.take(total as int) =~= self@);
        n
    }
}

} // verus!
