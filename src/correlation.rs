use vstd::prelude::*;

verus! {

/// One question that was handed to the moderators.
#[derive(Clone, Copy, Debug, PartialEq, Eq, Structural)]
pub struct CorrelationEntry {
    /// The asker's chat.
    pub origin_chat_id: i64,
    /// The asker's own message.
    pub origin_message_id: i32,
    /// The copy of the question inside the moderation group: the key a
    /// moderator's reply is matched by.
    pub moderation_message_id: i32,
}

/// `i` is the earliest position of `entries` whose key is `key`.
pub open spec fn is_first_match(entries: Seq<CorrelationEntry>, key: i32, i: int) -> bool {
    &&& 0 <= i < entries.len()
    &&& entries[i].moderation_message_id == key
    &&& forall|j: int| 0 <= j < i ==> entries[j].moderation_message_id != key
}

pub open spec fn has_key(entries: Seq<CorrelationEntry>, key: i32) -> bool {
    exists|i: int| 0 <= i < entries.len() && entries[i].moderation_message_id == key
}

/// The entry that a reply to `key` is correlated with: the earliest one
/// recorded under that key, if any.
pub open spec fn lookup(entries: Seq<CorrelationEntry>, key: i32) -> Option<CorrelationEntry> {
    if has_key(entries, key) {
        Some(entries[choose|i: int| is_first_match(entries, key, i)])
    } else {
        None
    }
}

/// A key that occurs has exactly one earliest position.
pub proof fn lemma_first_match(entries: Seq<CorrelationEntry>, key: i32, i: int)
    requires
        is_first_match(entries, key, i),
    ensures
        lookup(entries, key) == Some(entries[i]),
{
    assert(has_key(entries, key));
    let k = choose|k: int| is_first_match(entries, key, k);
    assert(is_first_match(entries, key, k));
    if k < i {
        assert(entries[k].moderation_message_id != key);
    } else if i < k {
        assert(entries[i].moderation_message_id != key);
    }
}

/// Append-only registry of the questions handed to the moderators, in the
/// order they were recorded.
pub struct CorrelationStore {
    entries: Vec<CorrelationEntry>,
}

impl View for CorrelationStore {
    type V = Seq<CorrelationEntry>;

    closed spec fn view(&self) -> Seq<CorrelationEntry> {
        self.entries@
    }
}

impl CorrelationStore {
    pub fn new() -> (r: CorrelationStore)
        ensures
            r@ == Seq::<CorrelationEntry>::empty(),
    {
        CorrelationStore { entries: Vec::new() }
    }

    pub fn len(&self) -> (r: usize)
        ensures
            r == self@.len(),
    {
        self.entries.len()
    }

    /// Appends `entry`; nothing already recorded changes.
    pub fn record(&mut self, entry: CorrelationEntry)
        ensures
            final(self)@ == old(self)@.push(entry),
    {
        self.entries.push(entry);
    }

    /// The earliest entry recorded under `key`, scanning once and stopping at
    /// the first match.
    pub fn find_by_moderation_message_id(&self, key: i32) -> (r: Option<CorrelationEntry>)
        ensures
            r == lookup(self@, key),
    {
        let mut i: usize = 0;
        while i < self.entries.len()
            invariant
                0 <= i <= self.entries@.len(),
                forall|j: int| 0 <= j < i ==> self.entries@[j].moderation_message_id != key,
            decreases self.entries@.len() - i,
        {
            let e = self.entries[i];
            if e.moderation_message_id == key {
                proof {
                    lemma_first_match(self@, key, i as int);
                }
                return Some(e);
            }
            i = i + 1;
        }
        None
    }
}

} // verus!
