//! Operating parameters of the relay.
//!
//! A [`Config`] is a snapshot: it is built whole, handed over whole, and
//! never edited in place.

use crate::clock::TimeOfDay;
use crate::words::{contains_text, texts};
use std::time::Duration;
use vstd::prelude::*;

verus! {

/// The name of the file that the configuration is read from.
pub const CONFIG_FILE: &'static str = "config.toml";

/// Whether a change reported by the file system calls for reading the
/// configuration again: the change is a modification, and one of the files
/// it touched is named like the configuration file.
pub fn is_config_update(file_names: &Vec<String>, modified: bool) -> (r: bool)
    ensures
        r == (modified && texts(file_names@).contains(CONFIG_FILE@)),
{
    modified && contains_text(file_names, CONFIG_FILE)
}

/// One complete set of operating parameters.
#[derive(Debug)]
pub struct Config {
    pub alerts: AlertConfig,
    pub quiet_hours: Option<QuietHours>,
}

/// Where alerts go, which categories are relayed, how often the feed is
/// polled, and for which areas.
#[derive(Debug)]
pub struct AlertConfig {
    /// The destination that notifications are sent to.
    pub alerts_channel: u64,
    /// The categories that are relayed; all others are dropped. The list is
    /// read as a set: order and repeats mean nothing.
    pub alert_types: Vec<String>,
    /// The time between two polls of the feed.
    pub check_interval: Duration,
    /// The area codes asked for, in the order they are sent.
    pub areas: Vec<String>,
}

impl AlertConfig {
    /// The set of accepted categories.
    pub open spec fn accepted(self) -> Set<Seq<char>> {
        texts(self.alert_types@).to_set()
    }

    /// Whether alerts of `category` are relayed.
    pub fn accepts(&self, category: &str) -> (r: bool)
        ensures
            r == self.accepted().contains(category@),
    {
        contains_text(&self.alert_types, category)
    }
}

/// A daily window during which nothing is fetched or sent.
///
/// With `start` not after `end` the window is `[start, end)` within one
/// day. With `start` after `end` it runs past midnight: from `start` to the
/// end of the day, and from midnight up to `end`.
#[derive(Clone, Copy, Debug, PartialEq, Eq)]
pub struct QuietHours {
    start: TimeOfDay,
    end: TimeOfDay,
}

impl QuietHours {
    /// When the window opens.
    pub closed spec fn start_time(self) -> TimeOfDay {
        self.start
    }

    /// When the window closes.
    pub closed spec fn end_time(self) -> TimeOfDay {
        self.end
    }

    /// Whether `now` falls inside the window.
    pub open spec fn covers(self, now: TimeOfDay) -> bool {
        if self.start_time().not_after(self.end_time()) {
            self.start_time().not_after(now) && now.earlier_than(self.end_time())
        } else {
            self.start_time().not_after(now) || now.earlier_than(self.end_time())
        }
    }

    /// The window from `start` to `end`.
    pub fn new(start: TimeOfDay, end: TimeOfDay) -> (r: QuietHours)
        ensures
            r.start_time() == start,
            r.end_time() == end,
    {
        QuietHours { start, end }
    }

    /// When the window opens.
    pub fn start(&self) -> (r: TimeOfDay)
        ensures
            r == self.start_time(),
    {
        self.start
    }

    /// When the window closes.
    pub fn end(&self) -> (r: TimeOfDay)
        ensures
            r == self.end_time(),
    {
        self.end
    }

    /// Whether `now` is within quiet hours.
    pub fn is_quiet(&self, now: TimeOfDay) -> (r: bool)
        ensures
            r == self.covers(now),
    {
        if !self.end.is_before(&self.start) {
            !now.is_before(&self.start) && now.is_before(&self.end)
        } else {
            !now.is_before(&self.start) || now.is_before(&self.end)
        }
    }
}

impl Config {
    /// Whether fetching and sending are suppressed at `now`: quiet hours are
    /// configured and cover it.
    pub open spec fn silent_at(self, now: TimeOfDay) -> bool {
        match self.quiet_hours {
            Some(window) => window.covers(now),
            None => false,
        }
    }

    /// Whether the relay is silent at `now`.
    pub fn is_silent(&self, now: TimeOfDay) -> (r: bool)
        ensures
            r == self.silent_at(now),
    {
        match &self.quiet_hours {
            Some(window) => window.is_quiet(now),
            None => false,
        }
    }
}

} // verus!
