//! The remote alert feed: where it is asked, how its answer is read, and
//! which of its entries are worth relaying.

use crate::alert::{AlertKey, AlertRecord};
use crate::clock::{parse_local_time, rfc3339_local_time, Timestamp};
use crate::json::{elements, json_document, json_tree, member, parse_document, text, Json};
use crate::words::{contains_text, texts};
use vstd::prelude::*;

verus! {

/// `parts` written one after another with `sep` between neighbours.
pub open spec fn joined(parts: Seq<Seq<char>>, sep: Seq<char>) -> Seq<char>
    decreases parts.len(),
{
    if parts.len() == 0 {
        Seq::empty()
    } else if parts.len() == 1 {
        parts[0]
    } else {
        joined(parts.drop_last(), sep) + sep + parts.last()
    }
}

/// The name under which the relay presents itself to the feed.
pub const CLIENT_NAME: &'static str = "rust-web-api-client";

/// The address of the list of active alerts, up to the area codes.
pub const FEED_QUERY: &'static str = "https://api.weather.gov/alerts/active?zone=";

/// The address that lists the active alerts of `areas`.
pub open spec fn feed_address(areas: Seq<Seq<char>>) -> Seq<char> {
    FEED_QUERY@ + joined(areas, ","@)
}

/// The area codes separated by commas, in the order given.
pub fn zone_list(areas: &Vec<String>) -> (r: String)
    ensures
        r@ == joined(texts(areas@), ","@),
{
    let mut out = String::new();
    let mut i: usize = 0;
    while i < areas.len()
        invariant
            i <= areas.len(),
            out@ == joined(texts(areas@).take(i as int), ","@),
        decreases areas.len() - i,
    {
        let ghost done = texts(areas@).take(i as int);
        let ghost next = texts(areas@).take(i as int + 1);
        assert(next.drop_last() =~= done);
        assert(next.last() == areas@[i as int]@);
        if i > 0 {
            out.append(",");
        }
        out.append(areas[i].as_str());
        assert(out@ =~= joined(next, ","@));
        i += 1;
    }
    assert(texts(areas@).take(i as int) =~= texts(areas@));
    out
}

/// The address to fetch for the active alerts of `areas`.
pub fn request_url(areas: &Vec<String>) -> (r: String)
    ensures
        r@ == feed_address(texts(areas@)),
{
    let zones = zone_list(areas);
    let mut out = FEED_QUERY.to_owned();
    out.append(zones.as_str());
    out
}

/// Why an answer of the feed could not be used.
#[derive(Clone, Copy, Debug, PartialEq, Eq)]
pub enum FeedError {
    /// The server answered with a status outside 200 to 299.
    Status(u16),
    /// The body is not a JSON document.
    InvalidJson,
}

/// The four texts of a feed entry, each as far as the entry has it.
pub struct RawFields {
    pub category: Option<Seq<char>>,
    pub headline: Option<Seq<char>>,
    pub description: Option<Seq<char>>,
    pub ends: Option<Seq<char>>,
}

/// A text that may be missing, read as empty when it is.
pub open spec fn or_empty(field: Option<Seq<char>>) -> Seq<char> {
    match field {
        Some(chars) => chars,
        None => Seq::empty(),
    }
}

impl RawFields {
    /// The identity of the entry, with missing texts taken as empty.
    pub open spec fn key(self) -> AlertKey {
        AlertKey {
            category: or_empty(self.category),
            headline: or_empty(self.headline),
            description: or_empty(self.description),
        }
    }

    /// The end time of the entry: `None` where the entry has none or where
    /// its text is not an RFC 3339 date-time.
    pub open spec fn end_time(self) -> Option<Timestamp> {
        match self.ends {
            Some(chars) => rfc3339_local_time(chars),
            None => None,
        }
    }
}

/// One entry of the feed as it arrived, before any rule is applied.
#[derive(Debug)]
pub struct RawRecord {
    pub category: Option<String>,
    pub headline: Option<String>,
    pub description: Option<String>,
    pub ends: Option<String>,
}

/// The characters of a string that may be missing.
pub open spec fn chars_of(field: Option<String>) -> Option<Seq<char>> {
    match field {
        Some(s) => Some(s@),
        None => None,
    }
}

impl View for RawRecord {
    type V = RawFields;

    open spec fn view(&self) -> RawFields {
        RawFields {
            category: chars_of(self.category),
            headline: chars_of(self.headline),
            description: chars_of(self.description),
            ends: chars_of(self.ends),
        }
    }
}

/// The fields of each record, in order.
pub open spec fn fields_of(records: Seq<RawRecord>) -> Seq<RawFields> {
    records.map_values(|record: RawRecord| record@)
}

/// The string member `name` of `properties`: `None` where there are no
/// properties, no such member, or the member is not a string.
pub open spec fn property(properties: Option<Json>, name: Seq<char>) -> Option<Seq<char>> {
    match properties {
        Some(object) => match object.member(name) {
            Some(value) => value.text(),
            None => None,
        },
        None => None,
    }
}

/// What one item of the `features` array says.
pub open spec fn feature_fields(feature: Json) -> RawFields {
    let properties = feature.member("properties"@);
    RawFields {
        category: property(properties, "category"@),
        headline: property(properties, "headline"@),
        description: property(properties, "description"@),
        ends: property(properties, "ends"@),
    }
}

/// The entries of a feed document: the items of its `features` array, and
/// none where the document has no such array.
pub open spec fn document_fields(document: Json) -> Seq<RawFields> {
    match document.member("features"@) {
        Some(features) => match features.elements() {
            Some(items) => items.map_values(|item: Json| feature_fields(item)),
            None => Seq::empty(),
        },
        None => Seq::empty(),
    }
}

fn read_property(properties: Option<&serde_json::Value>, name: &str) -> (r: Option<String>)
    ensures
        chars_of(r) == property(
            match properties {
                Some(value) => Some(json_tree(*value)),
                None => None,
            },
            name@,
        ),
{
    match properties {
        Some(object) => match member(object, name) {
            Some(value) => match text(value) {
                Some(chars) => Some(chars.to_owned()),
                None => None,
            },
            None => None,
        },
        None => None,
    }
}

fn read_feature(feature: &serde_json::Value) -> (r: RawRecord)
    ensures
        r@ == feature_fields(json_tree(*feature)),
{
    let properties = member(feature, "properties");
    RawRecord {
        category: read_property(properties, "category"),
        headline: read_property(properties, "headline"),
        description: read_property(properties, "description"),
        ends: read_property(properties, "ends"),
    }
}

/// Reads the entries of a parsed feed document: the items of its `features`
/// array, in order, and none where the document has no such array. An entry
/// keeps each of `category`, `headline`, `description` and `ends` under
/// `properties` that is a string, and lacks the others.
pub fn read_document(document: &serde_json::Value) -> (r: Vec<RawRecord>)
    ensures
        fields_of(r@) == document_fields(json_tree(*document)),
{
    let mut records: Vec<RawRecord> = Vec::new();
    let items = match member(document, "features") {
        Some(features) => match elements(features) {
            Some(items) => items,
            None => {
                assert(fields_of(records@) =~= document_fields(json_tree(*document)));
                return records;
            },
        },
        None => {
            assert(fields_of(records@) =~= document_fields(json_tree(*document)));
            return records;
        },
    };
    let ghost trees = items@.map_values(|item: serde_json::Value| json_tree(item));
    let ghost want = trees.map_values(|item: Json| feature_fields(item));
    assert(document_fields(json_tree(*document)) == want);
    let mut i: usize = 0;
    while i < items.len()
        invariant
            i <= items.len(),
            trees == items@.map_values(|item: serde_json::Value| json_tree(item)),
            want == trees.map_values(|item: Json| feature_fields(item)),
            fields_of(records@) == want.take(i as int),
        decreases items.len() - i,
    {
        let record = read_feature(&items[i]);
        assert(record@ == want[i as int]) by {
            assert(trees[i as int] == json_tree(items@[i as int]));
        }
        let ghost read = records@;
        records.push(record);
        assert(fields_of(records@) =~= want.take(i as int + 1)) by {
            assert(fields_of(read).len() == read.len());
            assert forall|j: int| 0 <= j < i implies fields_of(records@)[j] == want[j] by {
                assert(fields_of(read)[j] == want.take(i as int)[j]);
            }
        }
        i += 1;
    }
    assert(want.take(i as int) =~= want);
    records
}

/// Reads the body of an answer of the feed.
///
/// Fails exactly when the body is not a JSON document; otherwise the
/// entries are those of the document.
pub fn decode_feed(body: &[u8]) -> (r: Result<Vec<RawRecord>, FeedError>)
    ensures
        match r {
            Ok(records) => json_document(body@) matches Some(document) && fields_of(records@)
                == document_fields(document),
            Err(e) => json_document(body@) is None && e == FeedError::InvalidJson,
        },
{
    match parse_document(body) {
        Ok(document) => Ok(read_document(&document)),
        Err(_) => Err(FeedError::InvalidJson),
    }
}

/// What the rules make of one entry.
pub enum Verdict {
    /// Its category is not among the accepted ones.
    NotAccepted,
    /// Category, headline and description are all empty.
    Blank,
    /// It has no end time that can be read.
    NoEndTime,
    /// It is an alert with this identity and end time.
    Accepted(AlertKey, Timestamp),
}

/// The rules, in the order they are applied: the category must be accepted,
/// some text must be present, and the end time must be readable.
pub open spec fn screen(key: AlertKey, end_time: Option<Timestamp>, accepted: Set<Seq<char>>) -> Verdict {
    if !accepted.contains(key.category) {
        Verdict::NotAccepted
    } else if key.is_blank() {
        Verdict::Blank
    } else {
        match end_time {
            Some(end) => Verdict::Accepted(key, end),
            None => Verdict::NoEndTime,
        }
    }
}

/// The verdict on each entry of a batch, in order.
pub open spec fn screen_all(batch: Seq<RawFields>, accepted: Set<Seq<char>>) -> Seq<Verdict> {
    batch.map_values(|fields: RawFields| screen(fields.key(), fields.end_time(), accepted))
}

/// The result of screening one entry.
#[derive(Debug)]
pub enum Screening {
    /// The category is not among the accepted ones.
    NotAccepted,
    /// Category, headline and description are all empty.
    Blank,
    /// There is no end time that can be read.
    NoEndTime,
    /// The entry is this alert.
    Accepted(AlertRecord),
}

impl View for Screening {
    type V = Verdict;

    open spec fn view(&self) -> Verdict {
        match *self {
            Screening::NotAccepted => Verdict::NotAccepted,
            Screening::Blank => Verdict::Blank,
            Screening::NoEndTime => Verdict::NoEndTime,
            Screening::Accepted(record) => Verdict::Accepted(record.key(), record.expires()),
        }
    }
}

fn owned_or_empty(field: &Option<String>) -> (r: String)
    ensures
        r@ == or_empty(chars_of(*field)),
{
    match field {
        Some(s) => s.clone(),
        None => String::new(),
    }
}

/// Applies the rules to an entry whose end time has already been read:
/// `end_time` is `None` where the entry has no readable end time. The list
/// `accepted` is read as a set of categories.
pub fn screen_parts(raw: &RawRecord, end_time: Option<Timestamp>, accepted: &Vec<String>) -> (r:
    Screening)
    ensures
        r@ == screen(raw@.key(), end_time, texts(accepted@).to_set()),
{
    let category = owned_or_empty(&raw.category);
    if !contains_text(accepted, category.as_str()) {
        return Screening::NotAccepted;
    }
    let headline = owned_or_empty(&raw.headline);
    let description = owned_or_empty(&raw.description);
    match end_time {
        Some(end) => match AlertRecord::new(category, headline, description, end) {
            Some(record) => Screening::Accepted(record),
            None => Screening::Blank,
        },
        None => if category.as_str().is_empty() && headline.as_str().is_empty()
            && description.as_str().is_empty() {
            Screening::Blank
        } else {
            Screening::NoEndTime
        },
    }
}

/// Applies the rules to an entry of the feed, reading its end time as an
/// RFC 3339 date-time. The list `accepted` is read as a set of categories.
pub fn screen_record(raw: &RawRecord, accepted: &Vec<String>) -> (r: Screening)
    ensures
        r@ == screen(raw@.key(), raw@.end_time(), texts(accepted@).to_set()),
{
    let end_time = match &raw.ends {
        Some(chars) => parse_local_time(chars.as_str()),
        None => None,
    };
    screen_parts(raw, end_time, accepted)
}

} // verus!
