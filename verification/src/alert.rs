//! One alert as it is relayed, and the text that announces it.

use crate::clock::Timestamp;
use vstd::prelude::*;

verus! {

/// What makes two alerts the same alert: category, headline and description.
///
/// The end time is left out on purpose. The feed sends an unchanged alert
/// again with a later end time, and that must not count as a new alert.
pub struct AlertKey {
    pub category: Seq<char>,
    pub headline: Seq<char>,
    pub description: Seq<char>,
}

impl AlertKey {
    /// All three texts are empty: the mark of a malformed feed entry.
    pub open spec fn is_blank(self) -> bool {
        self.category.len() == 0 && self.headline.len() == 0 && self.description.len() == 0
    }

    /// The body of an announcement: the category line, then headline and
    /// description on lines of their own.
    pub open spec fn summary(self) -> Seq<char> {
        "Category: "@ + self.category + "\n"@ + self.headline + "\n"@ + self.description
    }

    /// The full text sent for a new alert.
    pub open spec fn announcement(self) -> Seq<char> {
        "**New alert**:\n"@ + self.summary()
    }
}

/// An alert taken from the feed. At least one of its three texts is not
/// empty.
#[derive(Debug)]
pub struct AlertRecord {
    category: String,
    headline: String,
    description: String,
    end_time: Timestamp,
}

impl AlertRecord {
    /// Every record carries some text.
    #[verifier::type_invariant]
    pub open spec fn has_text(self) -> bool {
        !self.key().is_blank()
    }

    /// The identity of this alert.
    pub closed spec fn key(self) -> AlertKey {
        AlertKey {
            category: self.category@,
            headline: self.headline@,
            description: self.description@,
        }
    }

    /// When this alert ends.
    pub closed spec fn expires(self) -> Timestamp {
        self.end_time
    }

    /// Builds a record, or returns `None` when all three texts are empty.
    pub fn new(category: String, headline: String, description: String, end_time: Timestamp) -> (r:
        Option<AlertRecord>)
        ensures
            match r {
                Some(record) => {
                    &&& record.key() == (AlertKey {
                        category: category@,
                        headline: headline@,
                        description: description@,
                    })
                    &&& record.expires() == end_time
                    &&& !record.key().is_blank()
                },
                None => category@.len() == 0 && headline@.len() == 0 && description@.len() == 0,
            },
    {
        if category.as_str().is_empty() && headline.as_str().is_empty()
            && description.as_str().is_empty() {
            None
        } else {
            Some(AlertRecord { category, headline, description, end_time })
        }
    }

    /// The category of the alert.
    pub fn category(&self) -> (r: &str)
        ensures
            r@ == self.key().category,
    {
        self.category.as_str()
    }

    /// The headline of the alert.
    pub fn headline(&self) -> (r: &str)
        ensures
            r@ == self.key().headline,
    {
        self.headline.as_str()
    }

    /// The description of the alert.
    pub fn description(&self) -> (r: &str)
        ensures
            r@ == self.key().description,
    {
        self.description.as_str()
    }

    /// When the alert ends.
    pub fn end_time(&self) -> (r: Timestamp)
        ensures
            r == self.expires(),
    {
        self.end_time
    }

    /// Whether `self` and `other` are the same alert, whatever their end
    /// times.
    pub fn same_alert(&self, other: &AlertRecord) -> (r: bool)
        ensures
            r == (self.key() == other.key()),
    {
        self.category == other.category && self.headline == other.headline && self.description
            == other.description
    }

    /// The category line, the headline and the description, one per line.
    pub fn summary(&self) -> (r: String)
        ensures
            r@ == self.key().summary(),
    {
        let mut out = "Category: ".to_owned();
        out.append(self.category.as_str());
        out.append("\n");
        out.append(self.headline.as_str());
        out.append("\n");
        out.append(self.description.as_str());
        out
    }

    /// The text that announces this alert as new.
    pub fn announcement(&self) -> (r: String)
        ensures
            r@ == self.key().announcement(),
    {
        let mut out = "**New alert**:\n".to_owned();
        out.append(self.summary().as_str());
        out
    }
}

} // verus!
