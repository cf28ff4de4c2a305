//! The record of alerts that have already been announced.

use crate::alert::{AlertKey, AlertRecord};
use crate::clock::Timestamp;
use vstd::prelude::*;

verus! {

/// What a store holds, as mathematics: for each alert identity that has been
/// announced, the end time it was first seen with.
pub type Ledger = Map<AlertKey, Timestamp>;

/// `ledger` without the alerts that have ended by `now`. An alert whose end
/// time is exactly `now` has ended.
pub open spec fn live_after(ledger: Ledger, now: Timestamp) -> Ledger {
    Map::new(
        |key: AlertKey| ledger.contains_key(key) && now.earlier_than(ledger[key]),
        |key: AlertKey| ledger[key],
    )
}

/// No alert in `ledger` is without any text.
pub open spec fn all_named(ledger: Ledger) -> bool {
    forall|key: AlertKey| ledger.contains_key(key) ==> !key.is_blank()
}

/// `ledger` after an attempt to add an alert: an identity that is already
/// there keeps the end time it has.
pub open spec fn noted(ledger: Ledger, key: AlertKey, end: Timestamp) -> Ledger {
    if ledger.contains_key(key) {
        ledger
    } else {
        ledger.insert(key, end)
    }
}

spec fn keys_of(entries: Seq<AlertRecord>) -> Seq<AlertKey> {
    entries.map_values(|record: AlertRecord| record.key())
}

spec fn ledger_of(entries: Seq<AlertRecord>) -> Ledger {
    Map::new(
        |key: AlertKey| keys_of(entries).contains(key),
        |key: AlertKey| entries[keys_of(entries).index_of(key)].expires(),
    )
}

spec fn sound(entries: Seq<AlertRecord>) -> bool {
    &&& keys_of(entries).no_duplicates()
    &&& forall|i: int| 0 <= i < entries.len() ==> !(#[trigger] entries[i]).key().is_blank()
}

proof fn lemma_entry(entries: Seq<AlertRecord>, i: int)
    requires
        keys_of(entries).no_duplicates(),
        0 <= i < entries.len(),
    ensures
        ledger_of(entries).contains_key(entries[i].key()),
        ledger_of(entries)[entries[i].key()] == entries[i].expires(),
{
    let keys = keys_of(entries);
    assert(keys[i] == entries[i].key());
    let at = keys.index_of(entries[i].key());
    assert(0 <= at < keys.len() && keys[at] == keys[i]);
}

proof fn lemma_domain(entries: Seq<AlertRecord>)
    requires
        sound(entries),
    ensures
        ledger_of(entries).dom().finite(),
        ledger_of(entries).len() == entries.len(),
        all_named(ledger_of(entries)),
{
    let keys = keys_of(entries);
    assert(ledger_of(entries).dom() =~= keys.to_set());
    vstd::seq_lib::seq_to_set_is_finite(keys);
    keys.unique_seq_to_set();
    assert forall|key: AlertKey| ledger_of(entries).contains_key(key) implies !key.is_blank() by {
        let at = keys.index_of(key);
        assert(keys[at] == entries[at].key());
    }
}

proof fn lemma_push(entries: Seq<AlertRecord>, record: AlertRecord)
    requires
        sound(entries),
        !record.key().is_blank(),
        !ledger_of(entries).contains_key(record.key()),
    ensures
        sound(entries.push(record)),
        ledger_of(entries.push(record)) == ledger_of(entries).insert(record.key(), record.expires()),
{
    let more = entries.push(record);
    let keys = keys_of(entries);
    assert(keys_of(more) =~= keys.push(record.key()));
    assert(keys_of(more).no_duplicates()) by {
        assert forall|i: int, j: int|
            0 <= i < more.len() && 0 <= j < more.len() && i != j implies keys_of(more)[i]
            != keys_of(more)[j] by {
            if i < entries.len() {
                assert(keys[i] == keys_of(more)[i]);
            }
            if j < entries.len() {
                assert(keys[j] == keys_of(more)[j]);
            }
        }
    }
    assert forall|i: int| 0 <= i < more.len() implies !(#[trigger] more[i]).key().is_blank() by {
        if i < entries.len() {
            assert(more[i] == entries[i]);
        }
    }
    let grown = ledger_of(entries).insert(record.key(), record.expires());
    assert forall|key: AlertKey| ledger_of(more).contains_key(key) <==> grown.contains_key(key) by {
        if keys_of(more).contains(key) {
            let at = keys_of(more).index_of(key);
            if at < entries.len() {
                assert(keys[at] == key);
            }
        }
        if keys.contains(key) {
            let at = keys.index_of(key);
            assert(keys_of(more)[at] == key);
        }
        assert(keys_of(more)[entries.len() as int] == record.key());
    }
    assert forall|key: AlertKey| ledger_of(more).contains_key(key) implies ledger_of(more)[key]
        == grown[key] by {
        let at = keys_of(more).index_of(key);
        lemma_entry(more, at);
        if at < entries.len() {
            assert(more[at] == entries[at]);
            lemma_entry(entries, at);
        }
    }
    assert(ledger_of(more) =~= grown);
}

/// The alerts that have been announced and have not yet ended.
///
/// Two alerts are the same when category, headline and description agree;
/// the store holds each alert at most once.
pub struct DedupStore {
    entries: Vec<AlertRecord>,
}

impl View for DedupStore {
    type V = Ledger;

    closed spec fn view(&self) -> Ledger {
        ledger_of(self.entries@)
    }
}

impl DedupStore {
    #[verifier::type_invariant]
    spec fn well_formed(self) -> bool {
        sound(self.entries@)
    }

    /// A store that holds nothing.
    pub fn new() -> (r: DedupStore)
        ensures
            r@ == Map::<AlertKey, Timestamp>::empty(),
    {
        let r = DedupStore { entries: Vec::new() };
        assert(r@ =~= Map::<AlertKey, Timestamp>::empty()) by {
            assert(keys_of(r.entries@) =~= Seq::<AlertKey>::empty());
        }
        r
    }

    /// How many alerts the store holds.
    pub fn len(&self) -> (r: usize)
        ensures
            self@.dom().finite(),
            r == self@.len(),
    {
        proof {
            use_type_invariant(self);
            lemma_domain(self.entries@);
        }
        self.entries.len()
    }

    /// Whether the store holds nothing.
    pub fn is_empty(&self) -> (r: bool)
        ensures
            self@.dom().finite(),
            r == (self@.len() == 0),
    {
        self.len() == 0
    }

    /// Whether the alert of `record` is in the store, under whatever end
    /// time.
    pub fn contains(&self, record: &AlertRecord) -> (r: bool)
        ensures
            r == self@.contains_key(record.key()),
    {
        proof {
            use_type_invariant(self);
        }
        let mut i: usize = 0;
        while i < self.entries.len()
            invariant
                i <= self.entries.len(),
                keys_of(self.entries@).no_duplicates(),
                forall|j: int| 0 <= j < i ==> self.entries@[j].key() != record.key(),
            decreases self.entries.len() - i,
        {
            if self.entries[i].same_alert(record) {
                proof {
                    lemma_entry(self.entries@, i as int);
                }
                return true;
            }
            i += 1;
        }
        proof {
            if keys_of(self.entries@).contains(record.key()) {
                let at = keys_of(self.entries@).index_of(record.key());
                assert(self.entries@[at].key() == record.key());
            }
        }
        false
    }

    /// Adds `record` unless its alert is already there, and tells whether it
    /// was added. An alert that is already there stays as it is, end time
    /// included.
    pub fn insert(&mut self, record: AlertRecord) -> (fresh: bool)
        ensures
            fresh == !old(self)@.contains_key(record.key()),
            final(self)@ == noted(old(self)@, record.key(), record.expires()),
            all_named(final(self)@),
    {
        proof {
            use_type_invariant(&*self);
            use_type_invariant(&record);
            lemma_domain(self.entries@);
        }
        if self.contains(&record) {
            false
        } else {
            proof {
                lemma_push(self.entries@, record);
                lemma_domain(self.entries@.push(record));
            }
            let mut entries: Vec<AlertRecord> = Vec::new();
            std::mem::swap(&mut self.entries, &mut entries);
            entries.push(record);
            self.entries = entries;
            true
        }
    }

    /// Drops every alert that has ended by `now` (end time at or before
    /// `now`) and returns how many were dropped. The others stay as they are.
    pub fn prune(&mut self, now: Timestamp) -> (removed: usize)
        ensures
            final(self)@ == live_after(old(self)@, now),
            old(self)@.dom().finite(),
            final(self)@.dom().finite(),
            removed == old(self)@.len() - final(self)@.len(),
            all_named(final(self)@),
    {
        proof {
            use_type_invariant(&*self);
            lemma_domain(self.entries@);
        }
        let ghost before = self.entries@;
        let mut rest: Vec<AlertRecord> = Vec::new();
        std::mem::swap(&mut self.entries, &mut rest);
        let total = rest.len();
        let mut kept: Vec<AlertRecord> = Vec::new();
        let ghost mut origin: Seq<int> = Seq::empty();
        while rest.len() > 0
            invariant
                sound(before),
                rest@.len() <= before.len(),
                rest@ == before.subrange(0, rest@.len() as int),
                origin.len() == kept@.len(),
                forall|j: int|
                    0 <= j < kept@.len() ==> rest@.len() <= #[trigger] origin[j] < before.len()
                        && kept@[j] == before[origin[j]] && now.earlier_than(
                        before[origin[j]].expires(),
                    ),
                forall|j: int, k: int|
                    0 <= j < k < kept@.len() ==> #[trigger] origin[j] > #[trigger] origin[k],
                forall|i: int|
                    rest@.len() <= i < before.len() && now.earlier_than(
                        (#[trigger] before[i]).expires(),
                    ) ==> exists|j: int| 0 <= j < kept@.len() && origin[j] == i,
            decreases rest.len(),
        {
            let ghost last = rest@.len() - 1;
            let ghost held = kept@;
            let ghost from = origin;
            let record = rest.pop().unwrap();
            assert(record == before[last]);
            if now.is_before(&record.end_time()) {
                kept.push(record);
                proof {
                    origin = origin.push(last);
                    assert forall|i: int|
                        rest@.len() <= i < before.len() && now.earlier_than(
                            (#[trigger] before[i]).expires(),
                        ) implies exists|j: int| 0 <= j < kept@.len() && origin[j] == i by {
                        if i == last {
                            assert(origin[held.len() as int] == i);
                        } else {
                            let j = choose|j: int| 0 <= j < held.len() && from[j] == i;
                            assert(origin[j] == i);
                        }
                    }
                }
            } else {
                proof {
                    assert forall|i: int|
                        rest@.len() <= i < before.len() && now.earlier_than(
                            (#[trigger] before[i]).expires(),
                        ) implies exists|j: int| 0 <= j < kept@.len() && origin[j] == i by {
                        assert(i != last);
                    }
                }
            }
        }
        proof {
            lemma_kept(before, kept@, origin, now);
            lemma_domain(kept@);
        }
        self.entries = kept;
        total - self.entries.len()
    }
}

proof fn lemma_kept(before: Seq<AlertRecord>, kept: Seq<AlertRecord>, origin: Seq<int>, now: Timestamp)
    requires
        sound(before),
        origin.len() == kept.len(),
        forall|j: int|
            0 <= j < kept.len() ==> 0 <= #[trigger] origin[j] < before.len() && kept[j]
                == before[origin[j]] && now.earlier_than(before[origin[j]].expires()),
        forall|j: int, k: int| 0 <= j < k < kept.len() ==> #[trigger] origin[j] > #[trigger] origin[k],
        forall|i: int|
            0 <= i < before.len() && now.earlier_than((#[trigger] before[i]).expires())
                ==> exists|j: int| 0 <= j < kept.len() && origin[j] == i,
    ensures
        sound(kept),
        ledger_of(kept) == live_after(ledger_of(before), now),
        kept.len() <= before.len(),
{
    let old_keys = keys_of(before);
    let new_keys = keys_of(kept);
    assert forall|j: int, k: int|
        0 <= j < kept.len() && 0 <= k < kept.len() && j != k implies new_keys[j] != new_keys[k] by {
        assert(origin[j] != origin[k]) by {
            if j < k {
                assert(origin[j] > origin[k]);
            } else {
                assert(origin[k] > origin[j]);
            }
        }
        assert(new_keys[j] == old_keys[origin[j]]);
        assert(new_keys[k] == old_keys[origin[k]]);
    }
    assert forall|j: int| 0 <= j < kept.len() implies !(#[trigger] kept[j]).key().is_blank() by {
        assert(kept[j] == before[origin[j]]);
    }
    let want = live_after(ledger_of(before), now);
    assert forall|key: AlertKey| ledger_of(kept).contains_key(key) <==> want.contains_key(key) by {
        if new_keys.contains(key) {
            let j = new_keys.index_of(key);
            assert(new_keys[j] == old_keys[origin[j]]);
            lemma_entry(before, origin[j]);
        }
        if want.contains_key(key) {
            let i = old_keys.index_of(key);
            lemma_entry(before, i);
            let j = choose|j: int| 0 <= j < kept.len() && origin[j] == i;
            assert(new_keys[j] == key);
        }
    }
    assert forall|key: AlertKey| ledger_of(kept).contains_key(key) implies ledger_of(kept)[key]
        == want[key] by {
        let j = new_keys.index_of(key);
        lemma_entry(kept, j);
        lemma_entry(before, origin[j]);
    }
    assert(ledger_of(kept) =~= want);
    lemma_domain(kept);
    lemma_domain(before);
    vstd::set_lib::lemma_len_subset(ledger_of(kept).dom(), ledger_of(before).dom());
}

} // verus!
