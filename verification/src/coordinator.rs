//! The coordinator: one event in, one action out.
//!
//! The caller owns the timers, the network and the chat service. It hands
//! each event to [`Coordinator::step`] and carries out the action it gets
//! back before it hands over the next event. The coordinator owns the
//! configuration in force and the record of what has been announced.

use crate::alert::AlertKey;
use crate::clock::{TimeOfDay, Timestamp};
use crate::config::Config;
use crate::dedup::{all_named, live_after, DedupStore, Ledger};
use crate::feed::{
    decode_feed, document_fields, feed_address, fields_of, request_url, screen_all, screen_record,
    FeedError, RawRecord, Verdict,
};
use crate::json::json_document;
use crate::relay::{
    absorb_all, lemma_absorb_in_pieces, lemma_absorb_keeps, lemma_absorb_keeps_named,
    lemma_absorbs_accepted, lemma_known_alert_stays_silent, report, reports, reports_of, take_in,
    Outcome, Report,
};
use crate::words::texts;
use std::time::Duration;
use vstd::prelude::*;

verus! {

/// Seconds between two cleanups. The cleanup timer does not follow the poll
/// interval.
pub const CLEANUP_INTERVAL_SECS: u64 = 3600;

/// Something that happened and that the coordinator must hear of.
pub enum Event {
    /// The poll timer fired at this time of day.
    FetchTick(TimeOfDay),
    /// The feed answered with this status and body.
    Response { status: u16, body: Vec<u8> },
    /// The feed could not be reached.
    FetchFailed,
    /// The cleanup timer fired at this local time.
    CleanupTick(Timestamp),
    /// A new configuration was read.
    ConfigChanged(Config),
}

/// What the caller is to do next.
#[derive(Debug, PartialEq, Eq)]
pub enum Action {
    /// Nothing, until the next event.
    Wait,
    /// Fetch this address and come back with the answer.
    Fetch(String),
    /// Send each announcement among the outcomes to this channel, in order.
    /// A failed send is not repeated.
    Deliver { channel: u64, outcomes: Vec<Outcome> },
    /// The answer of the feed was unusable for this reason.
    Rejected(FeedError),
    /// This many ended alerts were forgotten.
    Pruned(usize),
    /// From now on, poll at this interval.
    Reschedule(Duration),
}

/// What an action says, as mathematics.
pub enum Answer {
    /// Nothing, until the next event.
    Wait,
    /// Fetch the address with these characters.
    Fetch(Seq<char>),
    /// Send the announcements among these reports to this channel, in order.
    Deliver { channel: u64, reports: Seq<Report> },
    /// The answer of the feed was unusable for this reason.
    Rejected(FeedError),
    /// This many ended alerts were forgotten.
    Pruned(int),
    /// From now on, poll at this interval.
    Reschedule(Duration),
}

impl View for Action {
    type V = Answer;

    open spec fn view(&self) -> Answer {
        match *self {
            Action::Wait => Answer::Wait,
            Action::Fetch(address) => Answer::Fetch(address@),
            Action::Deliver { channel, outcomes } => Answer::Deliver {
                channel,
                reports: reports_of(outcomes@),
            },
            Action::Rejected(reason) => Answer::Rejected(reason),
            Action::Pruned(count) => Answer::Pruned(count as int),
            Action::Reschedule(interval) => Answer::Reschedule(interval),
        }
    }
}

/// The state of a coordinator: the configuration in force and the alerts
/// announced and not yet ended.
pub struct Core {
    pub settings: Config,
    pub ledger: Ledger,
}

impl Core {
    /// The categories that are relayed.
    pub open spec fn accepted(self) -> Set<Seq<char>> {
        self.settings.alerts.accepted()
    }

    /// The verdicts on the entries of an answer of the feed, or why the
    /// answer is unusable: a status outside 200 to 299, or a body that is
    /// not a JSON document.
    pub open spec fn verdicts(self, status: u16, body: Seq<u8>) -> Result<Seq<Verdict>, FeedError> {
        if !(200 <= status < 300) {
            Err(FeedError::Status(status))
        } else {
            match json_document(body) {
                Some(document) => Ok(screen_all(document_fields(document), self.accepted())),
                None => Err(FeedError::InvalidJson),
            }
        }
    }

    /// The action on a poll tick at `now`: nothing during quiet hours,
    /// otherwise a fetch for the configured areas.
    pub open spec fn tick_answer(self, now: TimeOfDay) -> Answer {
        if self.settings.silent_at(now) {
            Answer::Wait
        } else {
            Answer::Fetch(feed_address(texts(self.settings.alerts.areas@)))
        }
    }

    /// The state after an answer of the feed: a usable answer adds the
    /// alerts it accepts, an unusable one changes nothing.
    pub open spec fn after_response(self, status: u16, body: Seq<u8>) -> Core {
        match self.verdicts(status, body) {
            Ok(verdicts) => Core {
                settings: self.settings,
                ledger: absorb_all(self.ledger, verdicts),
            },
            Err(_) => self,
        }
    }

    /// The action on an answer of the feed: the outcome of each entry, for
    /// the channel configured now, or the reason the answer is unusable.
    pub open spec fn response_answer(self, status: u16, body: Seq<u8>) -> Answer {
        match self.verdicts(status, body) {
            Ok(verdicts) => Answer::Deliver {
                channel: self.settings.alerts.alerts_channel,
                reports: reports(self.ledger, verdicts),
            },
            Err(reason) => Answer::Rejected(reason),
        }
    }

    /// The state after a cleanup at `now`: the ended alerts are gone.
    pub open spec fn after_cleanup(self, now: Timestamp) -> Core {
        Core { settings: self.settings, ledger: live_after(self.ledger, now) }
    }

    /// The action on a cleanup at `now`: the number of alerts dropped.
    pub open spec fn cleanup_answer(self, now: Timestamp) -> Answer {
        Answer::Pruned(self.ledger.len() - live_after(self.ledger, now).len())
    }

    /// The state after a configuration change: the new settings, and the
    /// ledger as it was.
    pub open spec fn after_config(self, settings: Config) -> Core {
        Core { settings, ledger: self.ledger }
    }

    /// The state after an event.
    ///
    /// Only three things change it: a usable answer of the feed adds the
    /// alerts it accepts, a cleanup drops the alerts that have ended, and a
    /// configuration change replaces the configuration and nothing else.
    pub open spec fn next(self, event: Event) -> Core {
        match event {
            Event::FetchTick(_) => self,
            Event::FetchFailed => self,
            Event::Response { status, body } => self.after_response(status, body@),
            Event::CleanupTick(now) => self.after_cleanup(now),
            Event::ConfigChanged(settings) => self.after_config(settings),
        }
    }

    /// The state after a run of events, taken in order.
    pub open spec fn run(self, events: Seq<Event>) -> Core
        decreases events.len(),
    {
        if events.len() == 0 {
            self
        } else {
            self.run(events.drop_last()).next(events.last())
        }
    }

    /// The verdicts on the entries that an event brings: those of a usable
    /// answer of the feed, and none for any other event.
    pub open spec fn brought(self, event: Event) -> Seq<Verdict> {
        match event {
            Event::Response { status, body } => match self.verdicts(status, body@) {
                Ok(verdicts) => verdicts,
                Err(_) => Seq::empty(),
            },
            _ => Seq::empty(),
        }
    }

    /// The action that answers an event.
    pub open spec fn answer(self, event: Event) -> Answer {
        match event {
            Event::FetchTick(now) => self.tick_answer(now),
            Event::FetchFailed => Answer::Wait,
            Event::Response { status, body } => self.response_answer(status, body@),
            Event::CleanupTick(now) => self.cleanup_answer(now),
            Event::ConfigChanged(settings) => Answer::Reschedule(settings.alerts.check_interval),
        }
    }
}

/// Owns the configuration in force and the record of announced alerts, and
/// decides what each event leads to.
pub struct Coordinator {
    config: Config,
    seen: DedupStore,
}

impl View for Coordinator {
    type V = Core;

    closed spec fn view(&self) -> Core {
        Core { settings: self.config, ledger: self.seen@ }
    }
}

impl Coordinator {
    /// A coordinator that runs under `config` and has announced nothing.
    pub fn new(config: Config) -> (r: Coordinator)
        ensures
            r@.settings == config,
            r@.ledger == Map::<AlertKey, Timestamp>::empty(),
    {
        Coordinator { config, seen: DedupStore::new() }
    }

    /// The configuration in force.
    pub fn config(&self) -> (r: &Config)
        ensures
            *r == self@.settings,
    {
        &self.config
    }

    /// The record of announced alerts.
    pub fn store(&self) -> (r: &DedupStore)
        ensures
            r@ == self@.ledger,
    {
        &self.seen
    }

    /// The poll timer fired at `now`: during quiet hours nothing is done,
    /// otherwise the feed is to be fetched for the configured areas.
    pub fn on_fetch_tick(&self, now: TimeOfDay) -> (r: Action)
        ensures
            r@ == self@.tick_answer(now),
    {
        if self.config.is_silent(now) {
            Action::Wait
        } else {
            Action::Fetch(request_url(&self.config.alerts.areas))
        }
    }

    /// Screens the entries of a batch in order and takes them in: each
    /// accepted alert that has not been announced is announced and held from
    /// then on.
    pub fn relay(&mut self, batch: &Vec<RawRecord>) -> (r: Vec<Outcome>)
        ensures
            final(self)@.settings == old(self)@.settings,
            final(self)@.ledger == absorb_all(
                old(self)@.ledger,
                screen_all(fields_of(batch@), old(self)@.accepted()),
            ),
            reports_of(r@) == reports(
                old(self)@.ledger,
                screen_all(fields_of(batch@), old(self)@.accepted()),
            ),
    {
        let ghost start = self@.ledger;
        let ghost verdicts = screen_all(fields_of(batch@), self@.accepted());
        let mut outcomes: Vec<Outcome> = Vec::new();
        let mut i: usize = 0;
        while i < batch.len()
            invariant
                i <= batch.len(),
                self@.settings == old(self)@.settings,
                verdicts == screen_all(fields_of(batch@), old(self)@.accepted()),
                self@.ledger == absorb_all(start, verdicts.take(i as int)),
                reports_of(outcomes@) == reports(start, verdicts).take(i as int),
            decreases batch.len() - i,
        {
            let screening = screen_record(&batch[i], &self.config.alerts.alert_types);
            assert(screening@ == verdicts[i as int]);
            let ghost sent = outcomes@;
            let outcome = take_in(&mut self.seen, screening);
            outcomes.push(outcome);
            proof {
                let upto = verdicts.take(i as int + 1);
                assert(upto.drop_last() =~= verdicts.take(i as int));
                assert(upto.last() == verdicts[i as int]);
                assert(reports_of(sent).len() == sent.len());
                assert forall|j: int| 0 <= j < i implies reports_of(outcomes@)[j] == reports(
                    start,
                    verdicts,
                )[j] by {
                    assert(reports_of(sent)[j] == reports(start, verdicts).take(i as int)[j]);
                }
                assert(reports_of(outcomes@) =~= reports(start, verdicts).take(i as int + 1));
            }
            i += 1;
        }
        proof {
            assert(verdicts.take(i as int) =~= verdicts);
            assert(reports(start, verdicts).take(i as int) =~= reports(start, verdicts));
        }
        outcomes
    }

    /// The feed answered. A status outside 200 to 299 or a body that is not
    /// a JSON document is rejected and changes nothing; otherwise the
    /// entries are relayed.
    pub fn on_response(&mut self, status: u16, body: &[u8]) -> (r: Action)
        ensures
            final(self)@ == old(self)@.after_response(status, body@),
            r@ == old(self)@.response_answer(status, body@),
    {
        if status < 200 || status >= 300 {
            return Action::Rejected(FeedError::Status(status));
        }
        match decode_feed(body) {
            Ok(batch) => {
                let outcomes = self.relay(&batch);
                Action::Deliver { channel: self.config.alerts.alerts_channel, outcomes }
            },
            Err(reason) => Action::Rejected(reason),
        }
    }

    /// The cleanup timer fired at `now`: every alert that has ended by then
    /// is forgotten.
    pub fn on_cleanup_tick(&mut self, now: Timestamp) -> (r: Action)
        ensures
            final(self)@ == old(self)@.after_cleanup(now),
            r@ == old(self)@.cleanup_answer(now),
    {
        let removed = self.seen.prune(now);
        Action::Pruned(removed)
    }

    /// A new configuration was read: it replaces the one in force. The
    /// record of announced alerts is not touched.
    pub fn on_config_change(&mut self, config: Config) -> (r: Action)
        ensures
            final(self)@ == old(self)@.after_config(config),
            r@ == Answer::Reschedule(config.alerts.check_interval),
    {
        let interval = config.alerts.check_interval;
        self.config = config;
        Action::Reschedule(interval)
    }

    /// Takes one event and answers with the action it calls for.
    pub fn step(&mut self, event: Event) -> (r: Action)
        ensures
            final(self)@ == old(self)@.next(event),
            r@ == old(self)@.answer(event),
    {
        match event {
            Event::FetchTick(now) => self.on_fetch_tick(now),
            Event::FetchFailed => Action::Wait,
            Event::Response { status, body } => self.on_response(status, body.as_slice()),
            Event::CleanupTick(now) => self.on_cleanup_tick(now),
            Event::ConfigChanged(config) => self.on_config_change(config),
        }
    }
}

/// Quiet hours are a pause: a poll tick during them asks for nothing and
/// leaves the state as it is.
pub proof fn lemma_quiet_tick_is_a_pause(core: Core, now: TimeOfDay)
    requires
        core.settings.silent_at(now),
    ensures
        core.answer(Event::FetchTick(now)) == Answer::Wait,
        core.next(Event::FetchTick(now)) == core,
{
}

/// An answer of the feed that cannot be used changes nothing and announces
/// nothing.
pub proof fn lemma_unusable_answer_changes_nothing(core: Core, status: u16, body: Vec<u8>)
    requires
        core.verdicts(status, body@) is Err,
    ensures
        core.next(Event::Response { status, body }) == core,
        core.answer(Event::Response { status, body }) is Rejected,
{
}

/// A configuration change, whatever it alters, leaves the ledger as it is:
/// an alert announced before the change is a duplicate after it, under
/// whatever end time it comes back.
pub proof fn lemma_config_change_keeps_ledger(
    core: Core,
    settings: Config,
    key: AlertKey,
    end: Timestamp,
)
    ensures
        core.next(Event::ConfigChanged(settings)).ledger == core.ledger,
        core.next(Event::ConfigChanged(settings)).settings == settings,
        core.ledger.contains_key(key) ==> report(
            core.next(Event::ConfigChanged(settings)).ledger,
            Verdict::Accepted(key, end),
        ) == Report::Duplicate,
{
}

/// Only a cleanup forgets: an alert in the ledger is still there, with the
/// end time it had, after any event but a cleanup at or after its end.
pub proof fn lemma_only_cleanup_forgets(core: Core, event: Event, key: AlertKey)
    requires
        core.ledger.contains_key(key),
        event matches Event::CleanupTick(now) ==> now.earlier_than(core.ledger[key]),
    ensures
        core.next(event).ledger.contains_key(key),
        core.next(event).ledger[key] == core.ledger[key],
{
    match event {
        Event::Response { status, body } => {
            match core.verdicts(status, body@) {
                Ok(verdicts) => {
                    lemma_absorb_keeps(core.ledger, verdicts, key);
                },
                Err(_) => {},
            }
        },
        _ => {},
    }
}

/// A run may be taken in pieces: the state after `first` followed by
/// `second` is the state after `second`, started from the state after
/// `first`.
pub proof fn lemma_run_in_pieces(core: Core, first: Seq<Event>, second: Seq<Event>)
    ensures
        core.run(first + second) == core.run(first).run(second),
    decreases second.len(),
{
    if second.len() == 0 {
        assert(first + second =~= first);
    } else {
        assert((first + second).drop_last() =~= first + second.drop_last());
        assert((first + second).last() == second.last());
        lemma_run_in_pieces(core, first, second.drop_last());
    }
}

/// An alert in the ledger is still there, with the end time it had, after
/// any run of events without a cleanup.
pub proof fn lemma_run_keeps(core: Core, events: Seq<Event>, key: AlertKey)
    requires
        core.ledger.contains_key(key),
        forall|k: int| 0 <= k < events.len() ==> !(#[trigger] events[k] is CleanupTick),
    ensures
        core.run(events).ledger.contains_key(key),
        core.run(events).ledger[key] == core.ledger[key],
    decreases events.len(),
{
    if events.len() > 0 {
        let front = events.drop_last();
        assert forall|k: int| 0 <= k < front.len() implies !(#[trigger] front[k] is CleanupTick) by {
            assert(front[k] == events[k]);
        }
        lemma_run_keeps(core, front, key);
        assert(events.last() == events[events.len() - 1]);
        lemma_only_cleanup_forgets(core.run(front), events.last(), key);
    }
}

/// At most one announcement per alert over any run of events: where two
/// answers of the feed bring the same alert, under whatever end times and
/// whatever configuration, and no cleanup comes between them, the later
/// one is reported as a duplicate.
pub proof fn lemma_announced_once_in_a_run(
    core: Core,
    events: Seq<Event>,
    i: int,
    j: int,
    a: int,
    b: int,
)
    requires
        0 <= i < j < events.len(),
        forall|k: int| i < k < j ==> !(#[trigger] events[k] is CleanupTick),
        0 <= a < core.run(events.take(i)).brought(events[i]).len(),
        0 <= b < core.run(events.take(j)).brought(events[j]).len(),
        core.run(events.take(i)).brought(events[i])[a] is Accepted,
        core.run(events.take(j)).brought(events[j])[b] is Accepted,
        core.run(events.take(i)).brought(events[i])[a]->Accepted_0 == core.run(
            events.take(j),
        ).brought(events[j])[b]->Accepted_0,
    ensures
        reports(core.run(events.take(j)).ledger, core.run(events.take(j)).brought(events[j]))[b]
            == Report::Duplicate,
{
    let early = core.run(events.take(i));
    let first = early.brought(events[i]);
    let key = first[a]->Accepted_0;
    let upto = events.take(i + 1);
    assert(upto.drop_last() =~= events.take(i));
    assert(upto.last() == events[i]);
    let heard = core.run(upto);
    assert(heard.ledger == absorb_all(early.ledger, first));
    assert(heard.ledger.contains_key(key)) by {
        lemma_absorbs_accepted(early.ledger, first, a);
        assert(first =~= first.take(a + 1) + first.skip(a + 1));
        lemma_absorb_in_pieces(early.ledger, first.take(a + 1), first.skip(a + 1));
        lemma_absorb_keeps(absorb_all(early.ledger, first.take(a + 1)), first.skip(a + 1), key);
    }
    let between = events.take(j).skip(i + 1);
    assert(events.take(j) =~= upto + between);
    lemma_run_in_pieces(core, upto, between);
    assert forall|k: int| 0 <= k < between.len() implies !(#[trigger] between[k] is CleanupTick) by {
        assert(between[k] == events[i + 1 + k]);
    }
    lemma_run_keeps(heard, between, key);
    let late = core.run(events.take(j));
    lemma_known_alert_stays_silent(late.ledger, late.brought(events[j]), b);
}

/// No run of events brings an alert without text into the ledger.
pub proof fn lemma_run_stays_named(core: Core, events: Seq<Event>)
    requires
        all_named(core.ledger),
    ensures
        all_named(core.run(events).ledger),
    decreases events.len(),
{
    if events.len() > 0 {
        lemma_run_stays_named(core, events.drop_last());
        lemma_ledger_stays_named(core.run(events.drop_last()), events.last());
    }
}

/// No event brings an alert without text into the ledger.
pub proof fn lemma_ledger_stays_named(core: Core, event: Event)
    requires
        all_named(core.ledger),
    ensures
        all_named(core.next(event).ledger),
{
    match event {
        Event::Response { status, body } => {
            match core.verdicts(status, body@) {
                Ok(verdicts) => {
                    lemma_absorb_keeps_named(core.ledger, verdicts);
                },
                Err(_) => {},
            }
        },
        _ => {},
    }
}

} // verus!
