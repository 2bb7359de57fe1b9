//! The activity log.

use crate::scan::job::{keep_last, last_items};
use crate::text::owned_view;
use vstd::prelude::*;

verus! {

/// Entries that are kept in memory.
pub const MAX_ACTIVITY: usize = 500;

/// One entry of the log.
#[derive(Debug)]
pub struct ActivityEntry<T = String> {
    pub event_type: T,
    pub message: T,
    pub detail: Option<T>,
    pub timestamp: i64,
}

impl View for ActivityEntry {
    type V = ActivityEntry<Seq<char>>;

    open spec fn view(&self) -> ActivityEntry<Seq<char>> {
        ActivityEntry {
            event_type: self.event_type@,
            message: self.message@,
            detail: owned_view(self.detail),
            timestamp: self.timestamp,
        }
    }
}

impl ActivityEntry {
    pub fn new(event_type: &str, message: String, detail: Option<&str>, timestamp: i64) -> (entry:
        ActivityEntry)
        ensures
            entry@ == (ActivityEntry {
                event_type: event_type@,
                message: message@,
                detail: crate::text::text_view(detail),
                timestamp,
            }),
    {
        let detail = match detail {
            Some(d) => Some(d.to_owned()),
            None => None,
        };
        ActivityEntry { event_type: event_type.to_owned(), message, detail, timestamp }
    }
}

/// The values of a list of entries.
pub open spec fn entries_view(list: Seq<ActivityEntry>) -> Seq<ActivityEntry<Seq<char>>> {
    list.map_values(|e: ActivityEntry| e@)
}

/// An entry as it is reported.
#[derive(Debug)]
pub struct ActivityRow<T = String> {
    pub timestamp: i64,
    pub severity: T,
    pub category: T,
    pub title: T,
    pub message: T,
}

impl View for ActivityRow {
    type V = ActivityRow<Seq<char>>;

    open spec fn view(&self) -> ActivityRow<Seq<char>> {
        ActivityRow {
            timestamp: self.timestamp,
            severity: self.severity@,
            category: self.category@,
            title: self.title@,
            message: self.message@,
        }
    }
}

pub open spec fn activity_rows_view(rows: Seq<ActivityRow>) -> Seq<ActivityRow<Seq<char>>> {
    rows.map_values(|r: ActivityRow| r@)
}

/// The row of an entry.
pub open spec fn entry_row(e: ActivityEntry<Seq<char>>) -> ActivityRow<Seq<char>> {
    ActivityRow {
        timestamp: e.timestamp,
        severity: "info"@,
        category: e.event_type,
        title: e.message,
        message: match e.detail {
            Some(d) => d,
            None => Seq::empty(),
        },
    }
}

/// The latest fifty entries, the latest first.
pub open spec fn recent_rows(log: Seq<ActivityEntry<Seq<char>>>) -> Seq<ActivityRow<Seq<char>>> {
    Seq::new(
        if log.len() < 50 {
            log.len()
        } else {
            50
        },
        |i: int| entry_row(log[log.len() - 1 - i]),
    )
}

/// The log in memory.
pub struct ActivityLog {
    pub entries: Vec<ActivityEntry>,
}

impl View for ActivityLog {
    type V = Seq<ActivityEntry<Seq<char>>>;

    open spec fn view(&self) -> Seq<ActivityEntry<Seq<char>>> {
        entries_view(self.entries@)
    }
}

/// The entry that an event leaves: an empty message is no detail.
pub open spec fn entry_of(category: Seq<char>, title: Seq<char>, message: Seq<char>, now: i64) -> ActivityEntry<
    Seq<char>,
> {
    ActivityEntry {
        event_type: category,
        message: title,
        detail: if message.len() == 0 {
            None
        } else {
            Some(message)
        },
        timestamp: now,
    }
}

impl ActivityLog {
    pub fn new() -> (log: ActivityLog)
        ensures
            log@ == Seq::<ActivityEntry<Seq<char>>>::empty(),
    {
        let log = ActivityLog { entries: Vec::new() };
        assert(log@ =~= Seq::<ActivityEntry<Seq<char>>>::empty());
        log
    }

    /// Add an entry as it is.
    pub fn push(&mut self, entry: ActivityEntry)
        ensures
            final(self)@ == old(self)@.push(entry@),
    {
        let ghost before = self.entries@;
        self.entries.push(entry);
        assert(self@ =~= entries_view(before).push(entry@));
    }

    /// Log an event, keeping the latest entries.
    pub fn log_activity(&mut self, category: &str, title: &str, message: &str, now: i64)
        ensures
            final(self)@ == last_items(
                old(self)@.push(entry_of(category@, title@, message@, now)),
                MAX_ACTIVITY as nat,
            ),
            final(self)@.len() <= MAX_ACTIVITY,
    {
        let detail = if message.is_empty() {
            None
        } else {
            Some(message.to_owned())
        };
        self.push(
            ActivityEntry {
                event_type: category.to_owned(),
                message: title.to_owned(),
                detail,
                timestamp: now,
            },
        );
        let ghost all = self.entries@;
        keep_last(&mut self.entries, MAX_ACTIVITY);
        assert(self@ =~= last_items(entries_view(all), MAX_ACTIVITY as nat));
    }

    /// The latest entries, the latest first.
    pub fn activity_list(&self) -> (rows: Vec<ActivityRow>)
        ensures
            activity_rows_view(rows@) == recent_rows(self@),
    {
        let n: usize = self.entries.len();
        let count: usize = if n < 50 {
            n
        } else {
            50
        };
        let mut rows: Vec<ActivityRow> = Vec::new();
        let mut i: usize = 0;
        while i < count
            invariant
                n == self.entries@.len(),
                count <= n,
                i <= count,
                rows@.len() == i,
                forall|k: int|
                    0 <= k < i ==> #[trigger] activity_rows_view(rows@)[k] == entry_row(
                        self@[n - 1 - k],
                    ),
            decreases count - i,
        {
            let e = &self.entries[n - 1 - i];
            let message = match &e.detail {
                Some(d) => d.clone(),
                None => String::new(),
            };
            let row = ActivityRow {
                timestamp: e.timestamp,
                severity: "info".to_owned(),
                category: e.event_type.clone(),
                title: e.message.clone(),
                message,
            };
            let ghost before = rows@;
            rows.push(row);
            assert(activity_rows_view(rows@) =~= activity_rows_view(before).push(row@));
            assert(row@ == entry_row(self@[n - 1 - i]));
            i = i + 1;
        }
        assert(activity_rows_view(rows@) =~= recent_rows(self@));
        rows
    }
}

/// Logging keeps the newest entry and drops only from the front.
pub proof fn newest_entry_is_kept(log: Seq<ActivityEntry<Seq<char>>>, e: ActivityEntry<Seq<char>>)
    ensures
        last_items(log.push(e), MAX_ACTIVITY as nat).last() == e,
        log.len() < MAX_ACTIVITY ==> last_items(log.push(e), MAX_ACTIVITY as nat) == log.push(e),
{
}

/// An event is logged with its category, title and time; an empty message is no
/// detail.
pub proof fn events_are_logged_as_they_are(
    category: Seq<char>,
    title: Seq<char>,
    message: Seq<char>,
    now: i64,
)
    ensures
        ({
            let e = entry_of(category, title, message, now);
            &&& e.event_type == category && e.message == title && e.timestamp == now
            &&& message.len() == 0 ==> e.detail is None
            &&& message.len() > 0 ==> e.detail == Some(message)
        }),
{
}

/// The latest entries are told first, fifty at most, each as it was logged.
pub proof fn latest_entries_are_told_first(log: Seq<ActivityEntry<Seq<char>>>, i: int)
    ensures
        ({
            let rows = recent_rows(log);
            &&& log.len() <= 50 ==> rows.len() == log.len()
            &&& log.len() > 50 ==> rows.len() == 50
            &&& 0 <= i < rows.len() ==> {
                let e = log[log.len() - 1 - i];
                &&& rows[i].timestamp == e.timestamp
                &&& rows[i].category == e.event_type
                &&& rows[i].title == e.message
                &&& rows[i].severity == "info"@
                &&& e.detail matches Some(d) ==> rows[i].message == d
                &&& e.detail is None ==> rows[i].message.len() == 0
            }
        }),
{
}

/// The log keeps five hundred entries.
pub proof fn log_keeps_five_hundred(
    log: Seq<ActivityEntry<Seq<char>>>,
    e: ActivityEntry<Seq<char>>,
)
    ensures
        last_items(log.push(e), MAX_ACTIVITY as nat).len() == if log.len() < 500 {
            log.len() + 1
        } else {
            500
        },
{
}

} // verus!
