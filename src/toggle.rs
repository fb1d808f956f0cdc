//! Per-chat feature switches: an in-memory table that answers every dispatch,
//! and a bounded queue of changes waiting to be written to durable storage.
use vstd::prelude::*;

verus! {

/// One switch value for one (chat, feature) key; also one queued change.
#[derive(Debug)]
pub struct ToggleChange {
    pub chat_id: i64,
    pub feature: String,
    pub enabled: bool,
}

impl ToggleChange {
    pub fn new(chat_id: i64, feature: String, enabled: bool) -> (r: ToggleChange)
        ensures
            r == (ToggleChange { chat_id, feature, enabled }),
    {
        ToggleChange { chat_id, feature, enabled }
    }

    pub fn duplicate(&self) -> (r: ToggleChange)
        ensures
            r == *self,
    {
        ToggleChange { chat_id: self.chat_id, feature: self.feature.clone(), enabled: self.enabled }
    }
}

/// The change queue was full: the table holds the new value, but it was not
/// queued for durable storage.
#[derive(Debug, Clone, Copy, PartialEq, Eq, Structural)]
pub struct StoreBackpressure;

pub open spec fn same_key(c: ToggleChange, chat_id: i64, feature: Seq<char>) -> bool {
    c.chat_id == chat_id && c.feature@ == feature
}

/// The value that `changes` give to a key: the last change to it wins.
pub open spec fn lookup(changes: Seq<ToggleChange>, chat_id: i64, feature: Seq<char>) -> Option<bool>
    decreases changes.len(),
{
    if changes.len() == 0 {
        None
    } else if same_key(changes.last(), chat_id, feature) {
        Some(changes.last().enabled)
    } else {
        lookup(changes.drop_last(), chat_id, feature)
    }
}

/// `changes` as a map from key to value, last change winning.
pub open spec fn as_map(changes: Seq<ToggleChange>) -> Map<(i64, Seq<char>), bool> {
    Map::new(
        |k: (i64, Seq<char>)| lookup(changes, k.0, k.1) is Some,
        |k: (i64, Seq<char>)| lookup(changes, k.0, k.1)->0,
    )
}

/// No two entries of `changes` share a key.
pub open spec fn keys_unique(changes: Seq<ToggleChange>) -> bool
    decreases changes.len(),
{
    changes.len() == 0 || (keys_unique(changes.drop_last()) && lookup(
        changes.drop_last(),
        changes.last().chat_id,
        changes.last().feature@,
    ) is None)
}

/// `changes` with every entry for the given key left out, order kept.
pub open spec fn without_key(changes: Seq<ToggleChange>, chat_id: i64, feature: Seq<char>) -> Seq<
    ToggleChange,
>
    decreases changes.len(),
{
    if changes.len() == 0 {
        Seq::empty()
    } else {
        let rest = without_key(changes.drop_last(), chat_id, feature);
        if same_key(changes.last(), chat_id, feature) {
            rest
        } else {
            rest.push(changes.last())
        }
    }
}

proof fn lemma_lookup_push(s: Seq<ToggleChange>, c: ToggleChange)
    ensures
        as_map(s.push(c)) == as_map(s).insert((c.chat_id, c.feature@), c.enabled),
{
    assert(s.push(c).drop_last() =~= s);
    assert(as_map(s.push(c)) =~= as_map(s).insert((c.chat_id, c.feature@), c.enabled));
}

proof fn lemma_without_key_lookup(
    s: Seq<ToggleChange>,
    chat_id: i64,
    feature: Seq<char>,
    c2: i64,
    f2: Seq<char>,
)
    ensures
        lookup(without_key(s, chat_id, feature), c2, f2) == if c2 == chat_id && f2 == feature {
            None
        } else {
            lookup(s, c2, f2)
        },
    decreases s.len(),
{
    if s.len() > 0 {
        lemma_without_key_lookup(s.drop_last(), chat_id, feature, c2, f2);
        let rest = without_key(s.drop_last(), chat_id, feature);
        assert(rest.push(s.last()).drop_last() =~= rest);
    }
}

proof fn lemma_without_key_unique(s: Seq<ToggleChange>, chat_id: i64, feature: Seq<char>)
    requires
        keys_unique(s),
    ensures
        keys_unique(without_key(s, chat_id, feature)),
    decreases s.len(),
{
    if s.len() > 0 {
        lemma_without_key_unique(s.drop_last(), chat_id, feature);
        let rest = without_key(s.drop_last(), chat_id, feature);
        assert(rest.push(s.last()).drop_last() =~= rest);
        lemma_without_key_lookup(
            s.drop_last(),
            chat_id,
            feature,
            s.last().chat_id,
            s.last().feature@,
        );
    }
}

/// Replacing a key's entries by one new entry sets that key in the map and
/// keeps the keys unique.
proof fn lemma_put(s: Seq<ToggleChange>, c: ToggleChange)
    ensures
        as_map(without_key(s, c.chat_id, c.feature@).push(c)) == as_map(s).insert(
            (c.chat_id, c.feature@),
            c.enabled,
        ),
        keys_unique(s) ==> keys_unique(without_key(s, c.chat_id, c.feature@).push(c)),
{
    let w = without_key(s, c.chat_id, c.feature@);
    lemma_lookup_push(w, c);
    assert forall|c2: i64, f2: Seq<char>| #[trigger] lookup(w, c2, f2) == if c2 == c.chat_id && f2
        == c.feature@ {
        None
    } else {
        lookup(s, c2, f2)
    } by {
        lemma_without_key_lookup(s, c.chat_id, c.feature@, c2, f2);
    }
    assert(as_map(w).insert((c.chat_id, c.feature@), c.enabled) =~= as_map(s).insert(
        (c.chat_id, c.feature@),
        c.enabled,
    ));
    if keys_unique(s) {
        lemma_without_key_unique(s, c.chat_id, c.feature@);
        lemma_without_key_lookup(s, c.chat_id, c.feature@, c.chat_id, c.feature@);
        assert(w.push(c).drop_last() =~= w);
    }
}

/// Replaces every entry of `entries` for the key of `change` by `change`.
fn put(entries: &mut Vec<ToggleChange>, change: ToggleChange)
    ensures
        final(entries)@ == without_key(old(entries)@, change.chat_id, change.feature@).push(change),
{
    let mut kept: Vec<ToggleChange> = Vec::new();
    let mut i: usize = 0;
    while i < entries.len()
        invariant
            i <= entries@.len(),
            kept@ == without_key(entries@.take(i as int), change.chat_id, change.feature@),
        decreases entries@.len() - i,
    {
        proof {
            assert(entries@.take(i + 1).drop_last() =~= entries@.take(i as int));
        }
        let e = &entries[i];
        if !(e.chat_id == change.chat_id && e.feature == change.feature) {
            kept.push(e.duplicate());
        }
        i += 1;
    }
    proof {
        assert(entries@.take(entries@.len() as int) =~= entries@);
    }
    kept.push(change);
    *entries = kept;
}

/// Folds a batch of changes into one entry per key, the last value of each key
/// winning.
pub fn coalesce(changes: &Vec<ToggleChange>) -> (r: Vec<ToggleChange>)
    ensures
        keys_unique(r@),
        as_map(r@) == as_map(changes@),
{
    let mut out: Vec<ToggleChange> = Vec::new();
    let mut i: usize = 0;
    proof {
        assert(as_map(out@) =~= as_map(changes@.take(0)));
    }
    while i < changes.len()
        invariant
            i <= changes@.len(),
            keys_unique(out@),
            as_map(out@) == as_map(changes@.take(i as int)),
        decreases changes@.len() - i,
    {
        let c = changes[i].duplicate();
        proof {
            assert(changes@.take(i + 1) =~= changes@.take(i as int).push(c));
            lemma_lookup_push(changes@.take(i as int), c);
            lemma_put(out@, c);
        }
        put(&mut out, c);
        i += 1;
    }
    proof {
        assert(changes@.take(changes@.len() as int) =~= changes@);
    }
    out
}

/// The switch table and its queue of changes not yet written to durable storage.
pub struct ToggleStore {
    entries: Vec<ToggleChange>,
    pending: Vec<ToggleChange>,
    capacity: usize,
    default_enabled: bool,
}

impl ToggleStore {
    /// Each key has at most one entry.
    pub closed spec fn wf(&self) -> bool {
        keys_unique(self.entries@)
    }

    /// The keys set explicitly, with their values.
    pub closed spec fn switches(&self) -> Map<(i64, Seq<char>), bool> {
        as_map(self.entries@)
    }

    /// The value of a key that was never set.
    pub closed spec fn default_spec(&self) -> bool {
        self.default_enabled
    }

    /// Changes queued for durable storage, oldest first.
    pub closed spec fn pending_spec(&self) -> Seq<ToggleChange> {
        self.pending@
    }

    /// How many changes the queue holds at most.
    pub closed spec fn capacity_spec(&self) -> nat {
        self.capacity as nat
    }

    pub open spec fn enabled_spec(&self, chat_id: i64, feature: Seq<char>) -> bool {
        if self.switches().contains_key((chat_id, feature)) {
            self.switches()[(chat_id, feature)]
        } else {
            self.default_spec()
        }
    }

    /// An empty table whose unset keys read `default_enabled`, with a change
    /// queue of `queue_capacity` entries.
    pub fn new(default_enabled: bool, queue_capacity: usize) -> (r: ToggleStore)
        ensures
            r.wf(),
            r.switches() == Map::<(i64, Seq<char>), bool>::empty(),
            r.default_spec() == default_enabled,
            r.pending_spec() == Seq::<ToggleChange>::empty(),
            r.capacity_spec() == queue_capacity,
    {
        let r = ToggleStore {
            entries: Vec::new(),
            pending: Vec::new(),
            capacity: queue_capacity,
            default_enabled,
        };
        proof {
            assert(r.switches() =~= Map::<(i64, Seq<char>), bool>::empty());
        }
        r
    }

    /// Whether `feature` is enabled in `chat_id`; the default when never set.
    pub fn get(&self, chat_id: i64, feature: &str) -> (r: bool)
        requires
            self.wf(),
        ensures
            r == self.enabled_spec(chat_id, feature@),
    {
        let name = String::from_str(feature);
        let mut found: Option<bool> = None;
        let mut i: usize = 0;
        while i < self.entries.len()
            invariant
                i <= self.entries@.len(),
                name@ == feature@,
                found == lookup(self.entries@.take(i as int), chat_id, feature@),
            decreases self.entries@.len() - i,
        {
            proof {
                assert(self.entries@.take(i + 1).drop_last() =~= self.entries@.take(i as int));
            }
            let e = &self.entries[i];
            if e.chat_id == chat_id && e.feature == name {
                found = Some(e.enabled);
            }
            i += 1;
        }
        proof {
            assert(self.entries@.take(self.entries@.len() as int) =~= self.entries@);
        }
        match found {
            Some(b) => b,
            None => self.default_enabled,
        }
    }

    /// Sets a switch: the table holds the new value at once, and the change is
    /// queued for durable storage unless the queue is full, which is reported.
    pub fn set(&mut self, chat_id: i64, feature: String, enabled: bool) -> (r: Result<
        (),
        StoreBackpressure,
    >)
        requires
            old(self).wf(),
        ensures
            final(self).wf(),
            final(self).switches() == old(self).switches().insert((chat_id, feature@), enabled),
            final(self).default_spec() == old(self).default_spec(),
            final(self).capacity_spec() == old(self).capacity_spec(),
            r is Ok <==> old(self).pending_spec().len() < old(self).capacity_spec(),
            final(self).pending_spec() == if r is Ok {
                old(self).pending_spec().push((ToggleChange { chat_id, feature, enabled }))
            } else {
                old(self).pending_spec()
            },
    {
        let change = ToggleChange { chat_id, feature, enabled };
        let queued = change.duplicate();
        proof {
            lemma_put(self.entries@, change);
        }
        put(&mut self.entries, change);
        if self.pending.len() < self.capacity {
            self.pending.push(queued);
            Ok(())
        } else {
            Err(StoreBackpressure)
        }
    }

    /// Hands out every queued change, oldest first, and empties the queue.
    pub fn take_pending(&mut self) -> (r: Vec<ToggleChange>)
        ensures
            r@ == old(self).pending_spec(),
            final(self).pending_spec() == Seq::<ToggleChange>::empty(),
            final(self).switches() == old(self).switches(),
            final(self).wf() == old(self).wf(),
            final(self).default_spec() == old(self).default_spec(),
            final(self).capacity_spec() == old(self).capacity_spec(),
    {
        let mut out: Vec<ToggleChange> = Vec::new();
        std::mem::swap(&mut out, &mut self.pending);
        out
    }
}

/// A key that was never set reads as the store's configured default.
pub proof fn lemma_unset_reads_default(store: &ToggleStore, chat_id: i64, feature: Seq<char>)
    requires
        !store.switches().contains_key((chat_id, feature)),
    ensures
        store.enabled_spec(chat_id, feature) == store.default_spec(),
{
}

/// Read-your-writes: once `set` has stored a value for a key, reading the key
/// gives that value, whether or not the change could be queued.
pub proof fn lemma_read_your_writes(
    before: &ToggleStore,
    after: &ToggleStore,
    chat_id: i64,
    feature: Seq<char>,
    enabled: bool,
)
    requires
        after.switches() == before.switches().insert((chat_id, feature), enabled),
    ensures
        after.enabled_spec(chat_id, feature) == enabled,
{
}

/// A batch that changes one key several times leaves that key with the value
/// of its last change, in one entry.
pub proof fn lemma_coalesce_last_wins(changes: Seq<ToggleChange>, out: Seq<ToggleChange>, i: int)
    requires
        keys_unique(out),
        as_map(out) == as_map(changes),
        0 <= i < changes.len(),
        forall|j: int| i < j < changes.len() ==> !same_key(changes[j], changes[i].chat_id, changes[i].feature@),
    ensures
        as_map(out).contains_key((changes[i].chat_id, changes[i].feature@)),
        as_map(out)[(changes[i].chat_id, changes[i].feature@)] == changes[i].enabled,
{
    lemma_lookup_suffix(changes, i);
}

proof fn lemma_lookup_suffix(changes: Seq<ToggleChange>, i: int)
    requires
        0 <= i < changes.len(),
        forall|j: int| i < j < changes.len() ==> !same_key(changes[j], changes[i].chat_id, changes[i].feature@),
    ensures
        lookup(changes, changes[i].chat_id, changes[i].feature@) == Some(changes[i].enabled),
    decreases changes.len(),
{
    if i < changes.len() - 1 {
        lemma_lookup_suffix(changes.drop_last(), i);
    }
}

} // verus!
