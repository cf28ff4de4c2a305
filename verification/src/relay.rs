//! Announcing each alert once: what a batch of screened entries does to the
//! ledger, and what is reported for each entry.

use crate::alert::AlertKey;
use crate::clock::Timestamp;
use crate::dedup::{all_named, live_after, noted, DedupStore, Ledger};
use crate::feed::{screen, screen_all, RawFields, Screening, Verdict};
use vstd::prelude::*;

verus! {

/// What became of one entry of a batch.
pub enum Report {
    /// Dropped: its category is not accepted.
    NotAccepted,
    /// Dropped: it has no text at all.
    Blank,
    /// Dropped: it has no end time that can be read.
    NoEndTime,
    /// Dropped: this alert has been announced before.
    Duplicate,
    /// New: this text is to be sent.
    Announce(Seq<char>),
}

/// What is reported for an entry with this verdict when `ledger` holds the
/// alerts announced so far.
pub open spec fn report(ledger: Ledger, verdict: Verdict) -> Report {
    match verdict {
        Verdict::NotAccepted => Report::NotAccepted,
        Verdict::Blank => Report::Blank,
        Verdict::NoEndTime => Report::NoEndTime,
        Verdict::Accepted(key, _) => if ledger.contains_key(key) {
            Report::Duplicate
        } else {
            Report::Announce(key.announcement())
        },
    }
}

/// The ledger once an entry with this verdict has been taken in: an
/// accepted alert joins it unless it is there already, anything else leaves
/// it unchanged.
pub open spec fn absorb(ledger: Ledger, verdict: Verdict) -> Ledger {
    match verdict {
        Verdict::Accepted(key, end) => noted(ledger, key, end),
        _ => ledger,
    }
}

/// The ledger after a whole batch, taken in order.
pub open spec fn absorb_all(ledger: Ledger, verdicts: Seq<Verdict>) -> Ledger
    decreases verdicts.len(),
{
    if verdicts.len() == 0 {
        ledger
    } else {
        absorb(absorb_all(ledger, verdicts.drop_last()), verdicts.last())
    }
}

/// The report on each entry of a batch: each entry is judged against the
/// ledger as the entries before it have left it.
pub open spec fn reports(ledger: Ledger, verdicts: Seq<Verdict>) -> Seq<Report> {
    Seq::new(
        verdicts.len(),
        |i: int| report(absorb_all(ledger, verdicts.take(i)), verdicts[i]),
    )
}

/// What became of one entry of a batch, with the text to send where the
/// entry is a new alert.
#[derive(Debug, PartialEq, Eq)]
pub enum Outcome {
    /// Dropped: its category is not accepted.
    NotAccepted,
    /// Dropped: it has no text at all.
    Blank,
    /// Dropped: it has no end time that can be read.
    NoEndTime,
    /// Dropped: this alert has been announced before.
    Duplicate,
    /// New: this text is to be sent.
    Announce(String),
}

impl View for Outcome {
    type V = Report;

    open spec fn view(&self) -> Report {
        match *self {
            Outcome::NotAccepted => Report::NotAccepted,
            Outcome::Blank => Report::Blank,
            Outcome::NoEndTime => Report::NoEndTime,
            Outcome::Duplicate => Report::Duplicate,
            Outcome::Announce(text) => Report::Announce(text@),
        }
    }
}

/// The reports that a list of outcomes stands for.
pub open spec fn reports_of(outcomes: Seq<Outcome>) -> Seq<Report> {
    outcomes.map_values(|outcome: Outcome| outcome@)
}

/// Takes one screened entry into `store` and says what became of it. An
/// accepted alert is announced if the store did not hold it, and is held
/// from then on.
pub fn take_in(store: &mut DedupStore, screening: Screening) -> (r: Outcome)
    ensures
        r@ == report(old(store)@, screening@),
        final(store)@ == absorb(old(store)@, screening@),
{
    match screening {
        Screening::NotAccepted => Outcome::NotAccepted,
        Screening::Blank => Outcome::Blank,
        Screening::NoEndTime => Outcome::NoEndTime,
        Screening::Accepted(record) => {
            let text = record.announcement();
            if store.insert(record) {
                Outcome::Announce(text)
            } else {
                Outcome::Duplicate
            }
        },
    }
}

/// A batch may be taken in pieces: the ledger after `first` followed by
/// `second` is the ledger after `second`, started from the ledger after
/// `first`. So the ledger after several polls is that after one long poll.
pub proof fn lemma_absorb_in_pieces(ledger: Ledger, first: Seq<Verdict>, second: Seq<Verdict>)
    ensures
        absorb_all(ledger, first + second) == absorb_all(absorb_all(ledger, first), second),
    decreases second.len(),
{
    if second.len() == 0 {
        assert(first + second =~= first);
    } else {
        assert((first + second).drop_last() =~= first + second.drop_last());
        assert((first + second).last() == second.last());
        lemma_absorb_in_pieces(ledger, first, second.drop_last());
    }
}

/// The reports on a batch taken in pieces are the reports on the pieces,
/// each judged against the ledger that the pieces before it have left.
pub proof fn lemma_reports_in_pieces(ledger: Ledger, first: Seq<Verdict>, second: Seq<Verdict>)
    ensures
        reports(ledger, first + second) == reports(ledger, first) + reports(
            absorb_all(ledger, first),
            second,
        ),
{
    let whole = first + second;
    let split = reports(ledger, first) + reports(absorb_all(ledger, first), second);
    assert forall|i: int| 0 <= i < whole.len() implies reports(ledger, whole)[i] == split[i] by {
        if i < first.len() {
            assert(whole.take(i) =~= first.take(i));
        } else {
            let k = i - first.len();
            assert(whole.take(i) =~= first + second.take(k));
            lemma_absorb_in_pieces(ledger, first, second.take(k));
        }
    }
    assert(reports(ledger, whole) =~= split);
}

/// Whatever a batch holds, every alert that the ledger held before is still
/// held after it, with the end time it had.
pub proof fn lemma_absorb_keeps(ledger: Ledger, verdicts: Seq<Verdict>, key: AlertKey)
    requires
        ledger.contains_key(key),
    ensures
        absorb_all(ledger, verdicts).contains_key(key),
        absorb_all(ledger, verdicts)[key] == ledger[key],
    decreases verdicts.len(),
{
    if verdicts.len() > 0 {
        lemma_absorb_keeps(ledger, verdicts.drop_last(), key);
    }
}

/// An accepted alert is held once its entry has been taken in.
pub proof fn lemma_absorbs_accepted(ledger: Ledger, verdicts: Seq<Verdict>, i: int)
    requires
        0 <= i < verdicts.len(),
        verdicts[i] is Accepted,
    ensures
        absorb_all(ledger, verdicts.take(i + 1)).contains_key(verdicts[i]->Accepted_0),
{
    let upto = verdicts.take(i + 1);
    assert(upto.last() == verdicts[i]);
}

/// At most one announcement per alert: of two entries of a run of polls
/// that are the same alert, whatever their end times, the later one is
/// reported as a duplicate.
pub proof fn lemma_announced_once(ledger: Ledger, verdicts: Seq<Verdict>, i: int, j: int)
    requires
        0 <= i < j < verdicts.len(),
        verdicts[i] is Accepted,
        verdicts[j] is Accepted,
        verdicts[i]->Accepted_0 == verdicts[j]->Accepted_0,
    ensures
        reports(ledger, verdicts)[j] == Report::Duplicate,
{
    let key = verdicts[i]->Accepted_0;
    let early = verdicts.take(i + 1);
    let late = verdicts.take(j).skip(i + 1);
    lemma_absorbs_accepted(ledger, verdicts, i);
    assert(verdicts.take(j) =~= early + late);
    lemma_absorb_in_pieces(ledger, early, late);
    lemma_absorb_keeps(absorb_all(ledger, early), late, key);
}

/// Of two entries of a batch that agree in category, headline and
/// description, whatever their end times, at most one is announced.
pub proof fn lemma_same_texts_announced_once(
    ledger: Ledger,
    batch: Seq<RawFields>,
    accepted: Set<Seq<char>>,
    i: int,
    j: int,
)
    requires
        0 <= i < j < batch.len(),
        batch[i].key() == batch[j].key(),
    ensures
        !(reports(ledger, screen_all(batch, accepted))[i] is Announce && reports(
            ledger,
            screen_all(batch, accepted),
        )[j] is Announce),
{
    let verdicts = screen_all(batch, accepted);
    if verdicts[i] is Accepted && verdicts[j] is Accepted {
        lemma_announced_once(ledger, verdicts, i, j);
    }
}

/// An alert that the ledger holds is never announced again, whatever end
/// time it comes back with and whatever else the batch holds.
pub proof fn lemma_known_alert_stays_silent(ledger: Ledger, verdicts: Seq<Verdict>, j: int)
    requires
        0 <= j < verdicts.len(),
        verdicts[j] is Accepted,
        ledger.contains_key(verdicts[j]->Accepted_0),
    ensures
        reports(ledger, verdicts)[j] == Report::Duplicate,
{
    lemma_absorb_keeps(ledger, verdicts.take(j), verdicts[j]->Accepted_0);
}

/// A poll that brings what an earlier poll brought announces nothing: every
/// alert of `verdicts` is held once `verdicts` has been taken in, so each is
/// reported as a duplicate when the same entries come again.
pub proof fn lemma_repeated_poll_is_silent(ledger: Ledger, verdicts: Seq<Verdict>, j: int)
    requires
        0 <= j < verdicts.len(),
    ensures
        !(reports(absorb_all(ledger, verdicts), verdicts)[j] is Announce),
{
    if verdicts[j] is Accepted {
        let key = verdicts[j]->Accepted_0;
        let upto = verdicts.take(j + 1);
        let rest = verdicts.skip(j + 1);
        lemma_absorbs_accepted(ledger, verdicts, j);
        assert(verdicts =~= upto + rest);
        lemma_absorb_in_pieces(ledger, upto, rest);
        lemma_absorb_keeps(absorb_all(ledger, upto), rest, key);
        lemma_known_alert_stays_silent(absorb_all(ledger, verdicts), verdicts, j);
    }
}

/// An entry without any text is never accepted: it is not announced and the
/// ledger stays as it is.
pub proof fn lemma_blank_is_dropped(
    ledger: Ledger,
    fields: RawFields,
    end_time: Option<Timestamp>,
    accepted: Set<Seq<char>>,
)
    requires
        fields.key().is_blank(),
    ensures
        !(screen(fields.key(), end_time, accepted) is Accepted),
        !(report(ledger, screen(fields.key(), end_time, accepted)) is Announce),
        absorb(ledger, screen(fields.key(), end_time, accepted)) == ledger,
{
}

/// An entry whose category is not accepted is never accepted: it is not
/// announced and the ledger stays as it is.
pub proof fn lemma_unlisted_category_is_dropped(
    ledger: Ledger,
    fields: RawFields,
    end_time: Option<Timestamp>,
    accepted: Set<Seq<char>>,
)
    requires
        !accepted.contains(fields.key().category),
    ensures
        screen(fields.key(), end_time, accepted) == Verdict::NotAccepted,
        report(ledger, screen(fields.key(), end_time, accepted)) == Report::NotAccepted,
        absorb(ledger, screen(fields.key(), end_time, accepted)) == ledger,
{
}

/// An entry without a readable end time is never accepted: it is not
/// announced and the ledger stays as it is.
pub proof fn lemma_endless_is_dropped(ledger: Ledger, fields: RawFields, accepted: Set<Seq<char>>)
    ensures
        !(screen(fields.key(), None, accepted) is Accepted),
        !(report(ledger, screen(fields.key(), None, accepted)) is Announce),
        absorb(ledger, screen(fields.key(), None, accepted)) == ledger,
{
}

/// Whatever the feed sends, the ledger never comes to hold an alert without
/// text, and never one of a category that was not accepted when it came.
pub proof fn lemma_only_accepted_enter(
    ledger: Ledger,
    batch: Seq<RawFields>,
    accepted: Set<Seq<char>>,
    key: AlertKey,
)
    requires
        absorb_all(ledger, screen_all(batch, accepted)).contains_key(key),
        !ledger.contains_key(key),
    ensures
        !key.is_blank(),
        accepted.contains(key.category),
    decreases batch.len(),
{
    let verdicts = screen_all(batch, accepted);
    if batch.len() > 0 {
        assert(verdicts.drop_last() =~= screen_all(batch.drop_last(), accepted));
        if absorb_all(ledger, verdicts.drop_last()).contains_key(key) {
            lemma_only_accepted_enter(ledger, batch.drop_last(), accepted, key);
        } else {
            assert(verdicts.last() == screen(
                batch.last().key(),
                batch.last().end_time(),
                accepted,
            ));
        }
    }
}

/// A ledger in which every alert has some text stays so through any batch.
pub proof fn lemma_absorb_keeps_named(ledger: Ledger, verdicts: Seq<Verdict>)
    requires
        all_named(ledger),
        forall|i: int|
            0 <= i < verdicts.len() && (#[trigger] verdicts[i]) is Accepted
                ==> !verdicts[i]->Accepted_0.is_blank(),
    ensures
        all_named(absorb_all(ledger, verdicts)),
    decreases verdicts.len(),
{
    if verdicts.len() > 0 {
        let front = verdicts.drop_last();
        assert forall|i: int| 0 <= i < front.len() && (#[trigger] front[i]) is Accepted implies
            !front[i]->Accepted_0.is_blank() by {
            assert(front[i] == verdicts[i]);
        }
        lemma_absorb_keeps_named(ledger, front);
        assert(verdicts.last() == verdicts[verdicts.len() - 1]);
    }
}

/// After a cleanup at `now`, no alert that is left has ended by `now`, and
/// every alert that ends later is left with the end time it had.
pub proof fn lemma_cleanup(ledger: Ledger, now: Timestamp, key: AlertKey)
    ensures
        live_after(ledger, now).contains_key(key) ==> ledger.contains_key(key) && now.earlier_than(
            live_after(ledger, now)[key],
        ),
        ledger.contains_key(key) && now.earlier_than(ledger[key]) ==> live_after(
            ledger,
            now,
        ).contains_key(key) && live_after(ledger, now)[key] == ledger[key],
        ledger.contains_key(key) && ledger[key].not_after(now) ==> !live_after(
            ledger,
            now,
        ).contains_key(key),
{
}

} // verus!
