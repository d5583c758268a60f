//! The batch writer and the resilient store adapter, verified against a
//! journal model of the key-value service.
//!
//! The store is modeled as a journal of committed mutations: a put appends a
//! key with its new value, a delete appends the key with no value, and a
//! batch commit appends all of its entries at once or none of them. The value
//! of a key is the value of its most recent entry. The connection's transient
//! failures are modeled by a failure budget: every operation fails while the
//! budget lasts, and the adapter absorbs those failures by retrying, so no
//! transient error ever reaches a caller.

use vstd::prelude::*;
use crate::keys::{label_view, labeled_key, to_labeled_key, tip_height_key, tip_key_spec,
    height_to_hash_key, height_to_hash_prefix, decimal};
use crate::tip::{opt_bytes_view, tip_value_wf, decoded_tip, tip_height_from_bytes,
    tip_height_to_bytes};
use vstd::bytes::spec_u32_to_le_bytes;

verus! {

/// The value of `key` in a journal: the value of its most recent entry, or
/// `None` when the key was never written or last deleted.
pub open spec fn lookup(log: Seq<(Seq<u8>, Option<Seq<u8>>)>, key: Seq<u8>) -> Option<Seq<u8>>
    decreases log.len(),
{
    if log.len() == 0 {
        None
    } else if log.last().0 == key {
        log.last().1
    } else {
        lookup(log.drop_last(), key)
    }
}

/// Whether some entry of a journal touches `key`.
pub open spec fn has_key(log: Seq<(Seq<u8>, Option<Seq<u8>>)>, key: Seq<u8>) -> bool
    decreases log.len(),
{
    if log.len() == 0 {
        false
    } else {
        log.last().0 == key || has_key(log.drop_last(), key)
    }
}

/// The journal entries a sequence of staged puts commits as.
pub open spec fn staged_log(puts: Seq<(Seq<u8>, Seq<u8>)>) -> Seq<(Seq<u8>, Option<Seq<u8>>)> {
    puts.map(|i: int, p: (Seq<u8>, Seq<u8>)| (p.0, Some(p.1)))
}

/// Appending a tail of entries decides every key the tail touches, and
/// leaves every other key where the untouched journal had it.
pub proof fn lemma_lookup_append(
    pre: Seq<(Seq<u8>, Option<Seq<u8>>)>,
    tail: Seq<(Seq<u8>, Option<Seq<u8>>)>,
    key: Seq<u8>,
)
    ensures
        lookup(pre + tail, key) == if has_key(tail, key) {
            lookup(tail, key)
        } else {
            lookup(pre, key)
        },
    decreases tail.len(),
{
    if tail.len() == 0 {
        assert(pre + tail =~= pre);
    } else {
        assert((pre + tail).drop_last() =~= pre + tail.drop_last());
        assert((pre + tail).last() == tail.last());
        lemma_lookup_append(pre, tail.drop_last(), key);
    }
}

/// Compares two byte vectors.
pub fn bytes_eq(a: &Vec<u8>, b: &Vec<u8>) -> (r: bool)
    ensures
        r == (a@ == b@),
{
    if a.len() != b.len() {
        return false;
    }
    let mut i: usize = 0;
    while i < a.len()
        invariant
            i <= a.len(),
            a@.len() == b@.len(),
            forall|j: int| 0 <= j < i ==> a@[j] == b@[j],
        decreases a.len() - i,
    {
        if a[i] != b[i] {
            return false;
        }
        i = i + 1;
    }
    proof {
        assert(a@ =~= b@);
    }
    true
}

/// The error a single store operation may report: a transient transport
/// failure, absorbed by the adapter's retry loop and never surfaced.
pub enum StoreError {
    Transient,
}

/// An accumulator of pending puts that commits as one unit. Keys are
/// namespaced as they are staged, with the label the batch was built with.
pub struct Batch {
    label: Option<Vec<u8>>,
    entries: Vec<(Vec<u8>, Vec<u8>)>,
}

impl Batch {
    /// The namespace label the batch stamps on every staged key.
    pub closed spec fn lbl(self) -> Option<Seq<u8>> {
        label_view(self.label)
    }

    /// The staged puts, in staging order, keys already namespaced.
    pub closed spec fn puts(self) -> Seq<(Seq<u8>, Seq<u8>)> {
        self.entries@.map(|i: int, e: (Vec<u8>, Vec<u8>)| (e.0@, e.1@))
    }

    /// Builds an empty batch under the given namespace label.
    pub fn new(label: Option<Vec<u8>>) -> (r: Self)
        ensures
            r.lbl() == label_view(label),
            r.puts() == Seq::<(Seq<u8>, Seq<u8>)>::empty(),
    {
        let r = Batch { label, entries: Vec::new() };
        proof {
            assert(r.puts() =~= Seq::<(Seq<u8>, Seq<u8>)>::empty());
        }
        r
    }

    /// Stages one put: the key is namespaced with the batch's label and
    /// appended with its value to the pending entries.
    pub fn put(&mut self, key: &Vec<u8>, value: &Vec<u8>)
        ensures
            final(self).lbl() == old(self).lbl(),
            final(self).puts() == old(self).puts().push(
                (labeled_key(old(self).lbl(), key@), value@),
            ),
    {
        let k = to_labeled_key(key, &self.label);
        self.entries.push((k, value.clone()));
        proof {
            assert(self.puts() =~= old(self).puts().push(
                (labeled_key(old(self).lbl(), key@), value@),
            ));
        }
    }
}

/// The key-value service as seen through one connection: a journal of
/// committed mutations, and a budget of operations that will still fail
/// before the service is reachable again.
pub struct FallibleStore {
    journal: Vec<(Vec<u8>, Option<Vec<u8>>)>,
    fail_budget: u32,
}

impl FallibleStore {
    /// The journal of committed mutations.
    pub closed spec fn log(self) -> Seq<(Seq<u8>, Option<Seq<u8>>)> {
        self.journal@.map(|i: int, e: (Vec<u8>, Option<Vec<u8>>)| (e.0@, opt_bytes_view(e.1)))
    }

    /// How many operations will still fail before one succeeds.
    pub closed spec fn budget(self) -> u32 {
        self.fail_budget
    }

    /// An empty store whose next `fail_budget` operations will fail.
    pub fn new(fail_budget: u32) -> (r: Self)
        ensures
            r.log() == Seq::<(Seq<u8>, Option<Seq<u8>>)>::empty(),
            r.budget() == fail_budget,
    {
        let r = FallibleStore { journal: Vec::new(), fail_budget };
        proof {
            assert(r.log() =~= Seq::<(Seq<u8>, Option<Seq<u8>>)>::empty());
        }
        r
    }

    /// One read attempt: fails while the budget lasts, else returns the value
    /// of the key. The journal is never changed.
    pub fn try_get(&mut self, key: &Vec<u8>) -> (r: Result<Option<Vec<u8>>, StoreError>)
        ensures
            final(self).log() == old(self).log(),
            old(self).budget() > 0 ==> r is Err && final(self).budget() == old(self).budget()
                - 1,
            old(self).budget() == 0 ==> final(self).budget() == 0 && (r matches Ok(v)
                && opt_bytes_view(v) == lookup(old(self).log(), key@)),
    {
        if self.fail_budget > 0 {
            self.fail_budget = self.fail_budget - 1;
            return Err(StoreError::Transient);
        }
        let mut i: usize = self.journal.len();
        proof {
            assert(self.log().take(self.log().len() as int) =~= self.log());
        }
        while i > 0
            invariant
                i <= self.journal.len(),
                self.log() == old(self).log(),
                self.budget() == 0,
                old(self).budget() == 0,
                lookup(self.log(), key@) == lookup(self.log().take(i as int), key@),
            decreases i,
        {
            i = i - 1;
            proof {
                assert(self.log().take(i + 1 as int).drop_last() =~= self.log().take(i as int));
                assert(self.log().take(i + 1 as int).last() == self.log()[i as int]);
            }
            if bytes_eq(&self.journal[i].0, key) {
                match &self.journal[i].1 {
                    Some(v) => {
                        return Ok(Some(v.clone()));
                    },
                    None => {
                        return Ok(None);
                    },
                }
            }
        }
        Ok(None)
    }

    /// One put attempt: fails while the budget lasts, else appends the key
    /// with its new value.
    pub fn try_put(&mut self, key: &Vec<u8>, value: &Vec<u8>) -> (r: Result<(), StoreError>)
        ensures
            old(self).budget() > 0 ==> r is Err && final(self).log() == old(self).log()
                && final(self).budget() == old(self).budget() - 1,
            old(self).budget() == 0 ==> r is Ok && final(self).budget() == 0 && final(self).log()
                == old(self).log().push((key@, Some(value@))),
    {
        if self.fail_budget > 0 {
            self.fail_budget = self.fail_budget - 1;
            return Err(StoreError::Transient);
        }
        self.journal.push((key.clone(), Some(value.clone())));
        proof {
            assert(self.log() =~= old(self).log().push((key@, Some(value@))));
        }
        Ok(())
    }

    /// One delete attempt: fails while the budget lasts, else appends the key
    /// with no value.
    pub fn try_delete(&mut self, key: &Vec<u8>) -> (r: Result<(), StoreError>)
        ensures
            old(self).budget() > 0 ==> r is Err && final(self).log() == old(self).log()
                && final(self).budget() == old(self).budget() - 1,
            old(self).budget() == 0 ==> r is Ok && final(self).budget() == 0 && final(self).log()
                == old(self).log().push((key@, None)),
    {
        if self.fail_budget > 0 {
            self.fail_budget = self.fail_budget - 1;
            return Err(StoreError::Transient);
        }
        self.journal.push((key.clone(), None));
        proof {
            assert(self.log() =~= old(self).log().push((key@, None)));
        }
        Ok(())
    }

    /// One commit attempt: fails while the budget lasts and then the journal
    /// is untouched, else appends every staged put at once — all or nothing.
    pub fn try_write(&mut self, batch: &Batch) -> (r: Result<(), StoreError>)
        ensures
            old(self).budget() > 0 ==> r is Err && final(self).log() == old(self).log()
                && final(self).budget() == old(self).budget() - 1,
            old(self).budget() == 0 ==> r is Ok && final(self).budget() == 0 && final(self).log()
                == old(self).log() + staged_log(batch.puts()),
    {
        if self.fail_budget > 0 {
            self.fail_budget = self.fail_budget - 1;
            return Err(StoreError::Transient);
        }
        let mut i: usize = 0;
        proof {
            assert(self.log() =~= old(self).log() + staged_log(batch.puts().take(0)));
        }
        while i < batch.entries.len()
            invariant
                i <= batch.entries.len(),
                batch.entries@.len() == batch.puts().len(),
                self.budget() == 0,
                old(self).budget() == 0,
                self.log() == old(self).log() + staged_log(batch.puts().take(i as int)),
            decreases batch.entries.len() - i,
        {
            let k = batch.entries[i].0.clone();
            let v = batch.entries[i].1.clone();
            let ghost prev = self.log();
            self.journal.push((k, Some(v)));
            proof {
                assert(self.log() =~= prev.push((k@, Some(v@))));
                assert(batch.puts()[i as int] == (
                    batch.entries@[i as int].0@,
                    batch.entries@[i as int].1@,
                ));
                assert(k@ == batch.puts()[i as int].0);
                assert(v@ == batch.puts()[i as int].1);
                assert(staged_log(batch.puts().take(i + 1 as int)) =~= staged_log(
                    batch.puts().take(i as int),
                ).push((k@, Some(v@))));
                assert(old(self).log() + staged_log(batch.puts().take(i + 1 as int)) =~= (old(
                    self,
                ).log() + staged_log(batch.puts().take(i as int))).push((k@, Some(v@))));
                assert(self.log() == old(self).log() + staged_log(
                    batch.puts().take(i + 1 as int),
                ));
            }
            i = i + 1;
        }
        proof {
            assert(batch.puts().take(batch.puts().len() as int) =~= batch.puts());
        }
        Ok(())
    }
}

/// The resilient store adapter: it owns the connection to the fallible
/// service, carries the process-wide namespace label and the tip-height
/// counter, and absorbs every transient failure by reconnecting and retrying
/// until the operation succeeds.
pub struct ResilientStore {
    store: FallibleStore,
    label: Option<Vec<u8>>,
    height: u32,
}

impl ResilientStore {
    /// The journal of the underlying service.
    pub closed spec fn log(self) -> Seq<(Seq<u8>, Option<Seq<u8>>)> {
        self.store.log()
    }

    /// The namespace label applied to every key.
    pub closed spec fn lbl(self) -> Option<Seq<u8>> {
        label_view(self.label)
    }

    /// The adapter's last-known tip height counter.
    pub closed spec fn tracked_height(self) -> u32 {
        self.height
    }

    /// How many operations the underlying service will still fail.
    pub closed spec fn budget(self) -> u32 {
        self.store.budget()
    }

    /// The value stored under a raw key, as seen through the namespacer.
    pub open spec fn contents(self, key: Seq<u8>) -> Option<Seq<u8>> {
        lookup(self.log(), labeled_key(self.lbl(), key))
    }

    /// Wraps a connection under a namespace label, starting the height
    /// counter at the configured start height.
    pub fn new(store: FallibleStore, label: Option<Vec<u8>>, height: u32) -> (r: Self)
        ensures
            r.log() == store.log(),
            r.lbl() == label_view(label),
            r.tracked_height() == height,
            r.budget() == store.budget(),
    {
        ResilientStore { store, label, height }
    }

    /// Reads a raw key, retrying through every transient failure; never
    /// returns an error and never changes the store.
    pub fn get(&mut self, key: &Vec<u8>) -> (r: Option<Vec<u8>>)
        ensures
            final(self).log() == old(self).log(),
            final(self).lbl() == old(self).lbl(),
            final(self).tracked_height() == old(self).tracked_height(),
            final(self).budget() == 0,
            opt_bytes_view(r) == old(self).contents(key@),
    {
        let k = to_labeled_key(key, &self.label);
        loop
            invariant
                self.log() == old(self).log(),
                self.lbl() == old(self).lbl(),
                self.height == old(self).height,
                k@ == labeled_key(old(self).lbl(), key@),
            decreases self.store.budget(),
        {
            match self.store.try_get(&k) {
                Ok(v) => {
                    return v;
                },
                Err(_) => {
                    // transient failure: the connection is discarded and a
                    // fresh one is established before the next attempt
                },
            }
        }
    }

    /// Writes a raw key, retrying through every transient failure.
    pub fn put(&mut self, key: &Vec<u8>, value: &Vec<u8>)
        ensures
            final(self).log() == old(self).log().push(
                (labeled_key(old(self).lbl(), key@), Some(value@)),
            ),
            final(self).lbl() == old(self).lbl(),
            final(self).tracked_height() == old(self).tracked_height(),
            final(self).budget() == 0,
    {
        let k = to_labeled_key(key, &self.label);
        loop
            invariant
                self.log() == old(self).log(),
                self.lbl() == old(self).lbl(),
                self.height == old(self).height,
                k@ == labeled_key(old(self).lbl(), key@),
            decreases self.store.budget(),
        {
            match self.store.try_put(&k, value) {
                Ok(_) => {
                    return ;
                },
                Err(_) => {},
            }
        }
    }

    /// Deletes a raw key, retrying through every transient failure.
    pub fn delete(&mut self, key: &Vec<u8>)
        ensures
            final(self).log() == old(self).log().push(
                (labeled_key(old(self).lbl(), key@), None),
            ),
            final(self).lbl() == old(self).lbl(),
            final(self).tracked_height() == old(self).tracked_height(),
            final(self).budget() == 0,
    {
        let k = to_labeled_key(key, &self.label);
        loop
            invariant
                self.log() == old(self).log(),
                self.lbl() == old(self).lbl(),
                self.height == old(self).height,
                k@ == labeled_key(old(self).lbl(), key@),
            decreases self.store.budget(),
        {
            match self.store.try_delete(&k) {
                Ok(_) => {
                    return ;
                },
                Err(_) => {},
            }
        }
    }

    /// Sets the adapter's tip-height counter; persisted by the next commit.
    pub fn set_height(&mut self, height: u32)
        ensures
            final(self).log() == old(self).log(),
            final(self).lbl() == old(self).lbl(),
            final(self).tracked_height() == height,
            final(self).budget() == old(self).budget(),
    {
        self.height = height;
    }

    /// The adapter's tip-height counter.
    pub fn height(&self) -> (r: u32)
        ensures
            r == self.tracked_height(),
    {
        self.height
    }

    /// Commits a batch atomically, retrying through every transient failure.
    /// One put is injected behind the caller's entries: the tip-height record
    /// advanced one beyond the adapter's counter, so the staged mutations and
    /// the new height land together or not at all.
    pub fn write(&mut self, batch: Batch)
        requires
            batch.lbl() == old(self).lbl(),
            old(self).tracked_height() < 0xffffffffu32,
        ensures
            final(self).log() == old(self).log() + staged_log(
                batch.puts().push(
                    (
                        labeled_key(old(self).lbl(), tip_key_spec()),
                        spec_u32_to_le_bytes((old(self).tracked_height() + 1) as u32),
                    ),
                ),
            ),
            final(self).lbl() == old(self).lbl(),
            final(self).tracked_height() == old(self).tracked_height(),
            final(self).budget() == 0,
            final(self).contents(tip_key_spec()) == Some(
                spec_u32_to_le_bytes((old(self).tracked_height() + 1) as u32),
            ),
    {
        let mut staged = batch;
        let tk = tip_height_key();
        let hv = tip_height_to_bytes(self.height + 1);
        staged.put(&tk, &hv);
        loop
            invariant
                self.log() == old(self).log(),
                self.lbl() == old(self).lbl(),
                self.height == old(self).height,
                staged.puts() == batch.puts().push(
                    (
                        labeled_key(old(self).lbl(), tip_key_spec()),
                        spec_u32_to_le_bytes((old(self).tracked_height() + 1) as u32),
                    ),
                ),
            decreases self.store.budget(),
        {
            match self.store.try_write(&staged) {
                Ok(_) => {
                    proof {
                        let tipk = labeled_key(old(self).lbl(), tip_key_spec());
                        let tail = staged_log(staged.puts());
                        lemma_lookup_append(old(self).log(), tail, tipk);
                        assert(tail.last() == (
                            tipk,
                            Some(spec_u32_to_le_bytes((old(self).tracked_height() + 1) as u32)),
                        ));
                        assert(has_key(tail, tipk));
                    }
                    return ;
                },
                Err(_) => {},
            }
        }
    }

    /// Reads the persisted tip height, returning the configured start height
    /// when no tip record has ever been committed.
    pub fn read_tip_height(&mut self, default: u32) -> (r: u32)
        requires
            tip_value_wf(old(self).contents(tip_key_spec())),
        ensures
            final(self).log() == old(self).log(),
            final(self).lbl() == old(self).lbl(),
            final(self).tracked_height() == old(self).tracked_height(),
            r == decoded_tip(old(self).contents(tip_key_spec()), default),
    {
        let tk = tip_height_key();
        let v = self.get(&tk);
        tip_height_from_bytes(&v, default)
    }

    /// Records the blockhash pulled for a height under the reserved
    /// per-height key; overwriting an earlier record is the expected
    /// correction path after a reorg.
    pub fn record_blockhash(&mut self, height: u32, hash: &Vec<u8>)
        ensures
            final(self).log() == old(self).log().push(
                (
                    labeled_key(old(self).lbl(), height_to_hash_prefix() + decimal(height as nat)),
                    Some(hash@),
                ),
            ),
            final(self).lbl() == old(self).lbl(),
            final(self).tracked_height() == old(self).tracked_height(),
    {
        let k = height_to_hash_key(height);
        self.put(&k, hash);
    }

    /// Looks up the blockhash recorded for a height, or `None` when the
    /// ledger has no record there.
    pub fn lookup_blockhash(&mut self, height: u32) -> (r: Option<Vec<u8>>)
        ensures
            final(self).log() == old(self).log(),
            final(self).lbl() == old(self).lbl(),
            final(self).tracked_height() == old(self).tracked_height(),
            opt_bytes_view(r) == old(self).contents(height_to_hash_prefix() + decimal(
                height as nat,
            )),
    {
        let k = height_to_hash_key(height);
        self.get(&k)
    }
}

/// Law (atomic height/commit pairing): a committed batch makes the staged
/// mutations and the advanced tip height visible together — afterwards the
/// tip record holds exactly the advanced height, while a key the batch never
/// staged is exactly where the journal had it before. A failed commit leaves
/// the whole journal untouched, the tip record included, as the commit
/// attempt's contract states.
pub proof fn lemma_commit_atomicity(
    pre: Seq<(Seq<u8>, Option<Seq<u8>>)>,
    puts: Seq<(Seq<u8>, Seq<u8>)>,
    lbl: Option<Seq<u8>>,
    height: u32,
    other: Seq<u8>,
)
    requires
        height < 0xffffffffu32,
    ensures
        lookup(
            pre + staged_log(
                puts.push(
                    (labeled_key(lbl, tip_key_spec()), spec_u32_to_le_bytes((height + 1) as u32)),
                ),
            ),
            labeled_key(lbl, tip_key_spec()),
        ) == Some(spec_u32_to_le_bytes((height + 1) as u32)),
        !has_key(staged_log(puts), other) && other != labeled_key(lbl, tip_key_spec())
            ==> lookup(
            pre + staged_log(
                puts.push(
                    (labeled_key(lbl, tip_key_spec()), spec_u32_to_le_bytes((height + 1) as u32)),
                ),
            ),
            other,
        ) == lookup(pre, other),
{
    let tipk = labeled_key(lbl, tip_key_spec());
    let tipv = spec_u32_to_le_bytes((height + 1) as u32);
    let tail = staged_log(puts.push((tipk, tipv)));
    assert(tail.last() == (tipk, Some(tipv)));
    assert(tail.drop_last() =~= staged_log(puts));
    lemma_lookup_append(pre, tail, tipk);
    lemma_lookup_append(pre, tail, other);
}

} // verus!
