//! The quarantine: what may be restored or deleted, and in which order.
//!
//! A file that is being restored must not be caught again by the watcher, and
//! what lies in the vault is given up only once the records say so.

use crate::scan::job::ActivityEvent;
use crate::text::{owned_view, same};
use vstd::prelude::*;

verus! {

/// How long a restored path is left alone, in nanoseconds.
pub const SUPPRESSION: u64 = 30_000_000_000;

/// Whether a mark of time `at` still holds.
pub open spec fn holds(at: u64, now: u64) -> bool {
    now - at < SUPPRESSION
}

fn still_holds(at: u64, now: u64) -> (yes: bool)
    ensures
        yes == holds(at, now),
{
    now.saturating_sub(at) < SUPPRESSION
}

/// A path and when it was marked.
pub struct Mark {
    pub path: String,
    pub at: u64,
}

/// The marks as a map from path to time.
pub open spec fn marks(list: Seq<Mark>) -> Map<Seq<char>, u64>
    decreases list.len(),
{
    if list.len() == 0 {
        Map::empty()
    } else {
        marks(list.drop_last()).insert(list.last().path@, list.last().at)
    }
}

/// The marks of a map that still hold.
pub open spec fn holding(m: Map<Seq<char>, u64>, now: u64) -> Map<Seq<char>, u64> {
    m.restrict(Set::new(|p: Seq<char>| m.contains_key(p) && holds(m[p], now)))
}

/// Paths that were restored a short while ago.
pub struct RestoreSuppression {
    list: Vec<Mark>,
}

proof fn lemma_marks(list: Seq<Mark>, p: Seq<char>)
    ensures
        marks(list).contains_key(p) <==> exists|i: int|
            0 <= i < list.len() && (#[trigger] list[i]).path@ == p,
    decreases list.len(),
{
    if list.len() > 0 {
        let rest = list.drop_last();
        lemma_marks(rest, p);
        if marks(list).contains_key(p) {
            if list.last().path@ == p {
                assert(list[list.len() - 1].path@ == p);
            } else {
                let i = choose|i: int| 0 <= i < rest.len() && (#[trigger] rest[i]).path@ == p;
                assert(list[i].path@ == p);
            }
        }
        if exists|i: int| 0 <= i < list.len() && (#[trigger] list[i]).path@ == p {
            let i = choose|i: int| 0 <= i < list.len() && (#[trigger] list[i]).path@ == p;
            if i < list.len() - 1 {
                assert(rest[i].path@ == p);
            }
        }
    }
}

/// Whether no path is listed twice.
pub open spec fn distinct(list: Seq<Mark>) -> bool {
    forall|i: int, j: int|
        0 <= i < j < list.len() ==> (#[trigger] list[i]).path@ != (#[trigger] list[j]).path@
}

proof fn lemma_mark_at(list: Seq<Mark>, i: int)
    requires
        distinct(list),
        0 <= i < list.len(),
    ensures
        marks(list).contains_key(list[i].path@),
        marks(list)[list[i].path@] == list[i].at,
    decreases list.len(),
{
    if i < list.len() - 1 {
        let rest = list.drop_last();
        assert forall|a: int, b: int| 0 <= a < b < rest.len() implies (#[trigger] rest[a]).path@ != (
        #[trigger] rest[b]).path@ by {
            assert(rest[a] == list[a] && rest[b] == list[b]);
        }
        lemma_mark_at(rest, i);
        assert(list[i].path@ != list[list.len() - 1].path@);
    }
}

impl RestoreSuppression {
    /// The paths and when they were marked.
    pub closed spec fn view(&self) -> Map<Seq<char>, u64> {
        marks(self.list@)
    }

    /// No path is marked twice.
    pub closed spec fn wf(&self) -> bool {
        distinct(self.list@)
    }

    pub fn new() -> (marked: Self)
        ensures
            marked.wf(),
            marked@ == Map::<Seq<char>, u64>::empty(),
    {
        RestoreSuppression { list: Vec::new() }
    }

    /// Mark a path that is about to be restored. Marks that no longer hold go.
    pub fn mark_restore_in_progress(&mut self, path: &str, now: u64)
        requires
            old(self).wf(),
        ensures
            final(self).wf(),
            final(self)@ == holding(old(self)@, now).insert(path@, now),
    {
        let ghost before = self.list@;
        let mut left: Vec<Mark> = Vec::new();
        let mut i: usize = 0;
        while i < self.list.len()
            invariant
                self.list@ == before,
                distinct(before),
                i <= before.len(),
                distinct(left@),
                forall|j: int|
                    0 <= j < left@.len() ==> (#[trigger] left@[j]).path@ != path@ && holds(
                        left@[j].at,
                        now,
                    ) && exists|k: int|
                        0 <= k < i && (#[trigger] before[k]).path@ == left@[j].path@ && before[k].at
                            == left@[j].at,
                forall|k: int|
                    0 <= k < i && (#[trigger] before[k]).path@ != path@ && holds(before[k].at, now)
                        ==> exists|j: int|
                        0 <= j < left@.len() && (#[trigger] left@[j]).path@ == before[k].path@
                            && left@[j].at == before[k].at,
            decreases before.len() - i,
        {
            let ghost old_left = left@;
            if still_holds(self.list[i].at, now) && !same(self.list[i].path.as_str(), path) {
                left.push(Mark { path: self.list[i].path.clone(), at: self.list[i].at });
                assert(left@.last().path@ == before[i as int].path@);
                assert forall|a: int, b: int| 0 <= a < b < left@.len() implies (
                #[trigger] left@[a]).path@ != (#[trigger] left@[b]).path@ by {
                    if b == old_left.len() {
                        let k = choose|k: int|
                            0 <= k < i && (#[trigger] before[k]).path@ == old_left[a].path@
                                && before[k].at == old_left[a].at;
                        assert(before[k].path@ != before[i as int].path@);
                    }
                }
                assert forall|j: int| 0 <= j < left@.len() implies (#[trigger] left@[j]).path@
                    != path@ && holds(left@[j].at, now) && exists|k: int|
                    0 <= k < i + 1 && (#[trigger] before[k]).path@ == left@[j].path@ && before[k].at
                        == left@[j].at by {
                    if j < old_left.len() {
                        let k = choose|k: int|
                            0 <= k < i && (#[trigger] before[k]).path@ == old_left[j].path@
                                && before[k].at == old_left[j].at;
                        assert(before[k].path@ == left@[j].path@);
                    } else {
                        assert(before[i as int].path@ == left@[j].path@);
                    }
                }
                assert forall|k: int|
                    0 <= k < i + 1 && (#[trigger] before[k]).path@ != path@ && holds(
                        before[k].at,
                        now,
                    ) implies exists|j: int|
                    0 <= j < left@.len() && (#[trigger] left@[j]).path@ == before[k].path@
                        && left@[j].at == before[k].at by {
                    if k < i {
                        let j = choose|j: int|
                            0 <= j < old_left.len() && (#[trigger] old_left[j]).path@
                                == before[k].path@ && old_left[j].at == before[k].at;
                        assert(left@[j].path@ == before[k].path@);
                    } else {
                        assert(left@[old_left.len() as int].path@ == before[k].path@);
                    }
                }
            }
            i = i + 1;
        }
        let ghost rest = left@;
        left.push(Mark { path: path.to_owned(), at: now });
        let ghost after = left@;
        self.list = left;
        proof {
            assert(after.drop_last() =~= rest);
            let old_map = marks(before);
            let wanted = holding(old_map, now).insert(path@, now);
            assert forall|p: Seq<char>| #[trigger]
                marks(after).contains_key(p) == wanted.contains_key(p) && (wanted.contains_key(p)
                    ==> marks(after)[p] == wanted[p]) by {
                if p != path@ {
                    lemma_marks(rest, p);
                    lemma_marks(before, p);
                    if marks(rest).contains_key(p) {
                        let j = choose|j: int|
                            0 <= j < rest.len() && (#[trigger] rest[j]).path@ == p;
                        lemma_mark_at(rest, j);
                        let k = choose|k: int|
                            0 <= k < before.len() && (#[trigger] before[k]).path@ == rest[j].path@
                                && before[k].at == rest[j].at;
                        lemma_mark_at(before, k);
                    }
                    if wanted.contains_key(p) {
                        let k = choose|k: int|
                            0 <= k < before.len() && (#[trigger] before[k]).path@ == p;
                        lemma_mark_at(before, k);
                        let j = choose|j: int|
                            0 <= j < rest.len() && (#[trigger] rest[j]).path@ == before[k].path@
                                && rest[j].at == before[k].at;
                        lemma_mark_at(rest, j);
                    }
                }
            }
            assert(marks(after) =~= wanted);
        }
    }

    /// Whether a path was marked a short while ago.
    pub fn is_restore_suppressed(&self, path: &str, now: u64) -> (yes: bool)
        requires
            self.wf(),
        ensures
            yes == (self@.contains_key(path@) && holds(self@[path@], now)),
    {
        let mut i: usize = 0;
        while i < self.list.len()
            invariant
                self.wf(),
                i <= self.list@.len(),
                forall|j: int| 0 <= j < i ==> (#[trigger] self.list@[j]).path@ != path@,
            decreases self.list@.len() - i,
        {
            if same(self.list[i].path.as_str(), path) {
                proof {
                    lemma_mark_at(self.list@, i as int);
                }
                return still_holds(self.list[i].at, now);
            }
            i = i + 1;
        }
        proof {
            lemma_marks(self.list@, path@);
        }
        false
    }
}

/// Smallest file in the vault that can hold anything, in bytes.
pub const MIN_VAULT_FILE: u64 = 12;

/// Whether an item can be restored: its file is in the vault, whole as far as its
/// size tells, and nothing was done with it yet.
pub open spec fn restorable(vault_size: Option<u64>, status: Seq<char>) -> bool {
    (vault_size matches Some(n) && n >= MIN_VAULT_FILE) && status == "quarantined"@
}

pub fn is_restorable(vault_size: Option<u64>, status: &str) -> (yes: bool)
    ensures
        yes == restorable(vault_size, status@),
        yes == ((vault_size matches Some(n) && n >= MIN_VAULT_FILE) && status@ == "quarantined"@),
{
    let in_vault = match vault_size {
        Some(n) => n >= MIN_VAULT_FILE,
        None => false,
    };
    in_vault && same(status, "quarantined")
}

/// Why an item cannot be found, if it cannot.
pub open spec fn find_error(records_open: bool, found: bool, id: Seq<char>) -> Option<Seq<char>> {
    if !records_open {
        Some("Database not available"@)
    } else if !found {
        Some("Not found: "@ + id)
    } else {
        None
    }
}

pub fn find_item(records_open: bool, found: bool, id: &str) -> (error: Option<String>)
    ensures
        owned_view(error) == find_error(records_open, found, id@),
        owned_view(error) == if !records_open {
            Some("Database not available"@)
        } else if !found {
            Some("Not found: "@ + id@)
        } else {
            None
        },
{
    if !records_open {
        return Some("Database not available".to_owned());
    }
    if !found {
        let mut error = "Not found: ".to_owned();
        error.append(id);
        return Some(error);
    }
    None
}

/// Why an item may not be deleted, if it may not.
pub open spec fn delete_error(status: Seq<char>) -> Option<Seq<char>> {
    if status == "quarantined"@ {
        None
    } else {
        Some("Cannot delete: status is '"@ + status + "', not quarantined"@)
    }
}

/// Whether an item may be deleted. One that is being restored, or was, may not:
/// its file would be lost.
pub fn check_delete(status: &str) -> (verdict: Result<(), String>)
    ensures
        delete_error(status@) == match verdict {
            Ok(()) => None,
            Err(e) => Some(e@),
        },
        verdict is Ok <==> status@ == "quarantined"@,
        verdict matches Err(e) ==> e@ == "Cannot delete: status is '"@ + status@
            + "', not quarantined"@,
{
    if same(status, "quarantined") {
        return Ok(());
    }
    let mut error = "Cannot delete: status is '".to_owned();
    error.append(status);
    error.append("', not quarantined");
    Err(error)
}

/// The entry on a deleted item.
pub fn deleted_event(id: &str) -> (event: ActivityEvent)
    ensures
        event@ == (ActivityEvent {
            severity: "info"@,
            category: "quarantine"@,
            title: "Quarantine item permanently deleted"@,
            message: id@,
            scan_id: None,
        }),
{
    ActivityEvent::general(
        "info",
        "quarantine",
        "Quarantine item permanently deleted".to_owned(),
        id,
    )
}

/// The entry on a restored file.
pub open spec fn restored_event(path: Seq<char>, elsewhere: bool) -> ActivityEvent<Seq<char>> {
    ActivityEvent {
        severity: "warning"@,
        category: "quarantine"@,
        title: if elsewhere {
            "File restored to alternate path"@
        } else {
            "File restored from quarantine"@
        },
        message: path,
        scan_id: None::<Seq<char>>,
    }
}

/// Where a restore stands: what is to be done next.
#[derive(Debug, Clone, Copy, PartialEq, Eq, Structural)]
pub enum RestoreStage {
    /// Look the item up in the records.
    Find,
    /// Have the watcher leave the place alone.
    Mark,
    /// Write the file.
    Write,
    /// Have the records say that the item was restored.
    Record,
    /// Give up the file in the vault.
    Purge,
    Over,
}

/// A restore. `T` is the type of a text.
pub struct RestoreJob<T = String> {
    pub id: T,
    /// Whether the file goes to another place than its own.
    pub elsewhere: bool,
    pub stage: RestoreStage,
    /// Where the file goes, once that is known.
    pub path: T,
}

impl View for RestoreJob {
    type V = RestoreJob<Seq<char>>;

    open spec fn view(&self) -> RestoreJob<Seq<char>> {
        RestoreJob {
            id: self.id@,
            elsewhere: self.elsewhere,
            stage: self.stage,
            path: self.path@,
        }
    }
}

/// What came of a stage of a restore. `T` is the type of a text.
pub enum RestoreEvent<T = String> {
    /// The item was looked up; `place` is where its file goes, if it was found.
    Found { records_open: bool, place: Option<T> },
    Marked,
    /// The path that was written, or why none was.
    Written(Result<T, T>),
    /// Whether the records took it, or why not.
    Recorded(Option<T>),
    Purged,
}

impl View for RestoreEvent {
    type V = RestoreEvent<Seq<char>>;

    open spec fn view(&self) -> RestoreEvent<Seq<char>> {
        match *self {
            RestoreEvent::Found { records_open, place } => RestoreEvent::Found {
                records_open,
                place: owned_view(place),
            },
            RestoreEvent::Marked => RestoreEvent::Marked,
            RestoreEvent::Written(Ok(path)) => RestoreEvent::Written(Ok(path@)),
            RestoreEvent::Written(Err(e)) => RestoreEvent::Written(Err(e@)),
            RestoreEvent::Recorded(error) => RestoreEvent::Recorded(owned_view(error)),
            RestoreEvent::Purged => RestoreEvent::Purged,
        }
    }
}

/// What to do next in a restore. `T` is the type of a text.
pub enum RestoreStep<T = String> {
    Mark,
    Write,
    Record,
    Purge,
    /// Answer with this error.
    Fail(T),
    /// Answer with the path, and enter the restore in the log.
    Done(T),
}

impl View for RestoreStep {
    type V = RestoreStep<Seq<char>>;

    open spec fn view(&self) -> RestoreStep<Seq<char>> {
        match *self {
            RestoreStep::Mark => RestoreStep::Mark,
            RestoreStep::Write => RestoreStep::Write,
            RestoreStep::Record => RestoreStep::Record,
            RestoreStep::Purge => RestoreStep::Purge,
            RestoreStep::Fail(e) => RestoreStep::Fail(e@),
            RestoreStep::Done(path) => RestoreStep::Done(path@),
        }
    }
}

/// Whether an event belongs to a stage.
pub open spec fn restore_expects(stage: RestoreStage, event: RestoreEvent<Seq<char>>) -> bool {
    match event {
        RestoreEvent::Found { .. } => stage is Find,
        RestoreEvent::Marked => stage is Mark,
        RestoreEvent::Written(_) => stage is Write,
        RestoreEvent::Recorded(_) => stage is Record,
        RestoreEvent::Purged => stage is Purge,
    }
}

/// The restore after an event, and what to do next. The watcher leaves the place
/// alone before the file is written, and the records are changed before the vault
/// is: a file that is not on record as restored stays there, and a later attempt
/// can still succeed.
pub open spec fn restore_next(job: RestoreJob<Seq<char>>, event: RestoreEvent<Seq<char>>) -> (
    RestoreJob<Seq<char>>,
    RestoreStep<Seq<char>>,
) {
    let over = RestoreJob { stage: RestoreStage::Over, ..job };
    match event {
        RestoreEvent::Found { records_open, place } => if !records_open {
            (over, RestoreStep::Fail("Database not available"@))
        } else {
            match place {
                Some(path) => (
                    RestoreJob { stage: RestoreStage::Mark, path, ..job },
                    RestoreStep::Mark,
                ),
                None => (over, RestoreStep::Fail("Not found: "@ + job.id)),
            }
        },
        RestoreEvent::Marked => (
            RestoreJob { stage: RestoreStage::Write, ..job },
            RestoreStep::Write,
        ),
        RestoreEvent::Written(Ok(path)) => (
            RestoreJob { stage: RestoreStage::Record, path, ..job },
            RestoreStep::Record,
        ),
        RestoreEvent::Written(Err(e)) => (over, RestoreStep::Fail(e)),
        RestoreEvent::Recorded(None) => (
            RestoreJob { stage: RestoreStage::Purge, ..job },
            RestoreStep::Purge,
        ),
        RestoreEvent::Recorded(Some(e)) => (over, RestoreStep::Fail(e)),
        RestoreEvent::Purged => (over, RestoreStep::Done(job.path)),
    }
}

impl RestoreJob {
    /// A restore of an item, to its own place or elsewhere.
    pub fn new(id: &str, elsewhere: bool) -> (job: Self)
        ensures
            job@ == (RestoreJob {
                id: id@,
                elsewhere,
                stage: RestoreStage::Find,
                path: Seq::<char>::empty(),
            }),
    {
        let job = RestoreJob {
            id: id.to_owned(),
            elsewhere,
            stage: RestoreStage::Find,
            path: String::new(),
        };
        assert(job@.path =~= Seq::<char>::empty());
        job
    }

    /// Take in what came of a stage and tell what to do next.
    pub fn advance(&mut self, event: RestoreEvent) -> (step: RestoreStep)
        requires
            restore_expects(old(self).stage, event@),
        ensures
            (final(self)@, step@) == restore_next(old(self)@, event@),
    {
        match event {
            RestoreEvent::Found { records_open, place } => {
                match find_item(records_open, place.is_some(), self.id.as_str()) {
                    Some(error) => {
                        self.stage = RestoreStage::Over;
                        return RestoreStep::Fail(error);
                    },
                    None => {},
                }
                if let Some(path) = place {
                    self.path = path;
                }
                self.stage = RestoreStage::Mark;
                RestoreStep::Mark
            },
            RestoreEvent::Marked => {
                self.stage = RestoreStage::Write;
                RestoreStep::Write
            },
            RestoreEvent::Written(Ok(path)) => {
                self.path = path;
                self.stage = RestoreStage::Record;
                RestoreStep::Record
            },
            RestoreEvent::Written(Err(e)) => {
                self.stage = RestoreStage::Over;
                RestoreStep::Fail(e)
            },
            RestoreEvent::Recorded(None) => {
                self.stage = RestoreStage::Purge;
                RestoreStep::Purge
            },
            RestoreEvent::Recorded(Some(e)) => {
                self.stage = RestoreStage::Over;
                RestoreStep::Fail(e)
            },
            RestoreEvent::Purged => {
                self.stage = RestoreStage::Over;
                RestoreStep::Done(self.path.clone())
            },
        }
    }

    /// The entry on a file that was restored.
    pub fn describe(&self) -> (event: ActivityEvent)
        ensures
            event@ == restored_event(self.path@, self.elsewhere),
    {
        let title = if self.elsewhere {
            "File restored to alternate path".to_owned()
        } else {
            "File restored from quarantine".to_owned()
        };
        ActivityEvent::general("warning", "quarantine", title, self.path.as_str())
    }
}

/// The restore after a series of events.
pub open spec fn restore_after(
    job: RestoreJob<Seq<char>>,
    events: Seq<RestoreEvent<Seq<char>>>,
) -> RestoreJob<Seq<char>>
    decreases events.len(),
{
    if events.len() == 0 {
        job
    } else {
        restore_next(restore_after(job, events.drop_last()), events.last()).0
    }
}

/// What was to be done after each of a series of events.
pub open spec fn restore_steps(
    job: RestoreJob<Seq<char>>,
    events: Seq<RestoreEvent<Seq<char>>>,
) -> Seq<RestoreStep<Seq<char>>>
    decreases events.len(),
{
    if events.len() == 0 {
        Seq::empty()
    } else {
        restore_steps(job, events.drop_last()).push(
            restore_next(restore_after(job, events.drop_last()), events.last()).1,
        )
    }
}

/// Whether each of a series of events belongs to the stage it comes at.
pub open spec fn restore_possible(
    job: RestoreJob<Seq<char>>,
    events: Seq<RestoreEvent<Seq<char>>>,
) -> bool
    decreases events.len(),
{
    events.len() > 0 ==> restore_possible(job, events.drop_last()) && restore_expects(
        restore_after(job, events.drop_last()).stage,
        events.last(),
    )
}

/// Whether the steps are a beginning of the one order in which a restore goes on.
pub open spec fn in_order(steps: Seq<RestoreStep<Seq<char>>>) -> bool {
    &&& steps.len() <= 5
    &&& forall|i: int|
        0 <= i < steps.len() ==> match #[trigger] steps[i] {
            RestoreStep::Mark => i == 0,
            RestoreStep::Write => i == 1,
            RestoreStep::Record => i == 2,
            RestoreStep::Purge => i == 3,
            RestoreStep::Done(_) => i == 4,
            RestoreStep::Fail(_) => i == steps.len() - 1,
        }
}

/// How many events have led to a stage.
pub open spec fn stage_number(stage: RestoreStage) -> int {
    match stage {
        RestoreStage::Find => 0,
        RestoreStage::Mark => 1,
        RestoreStage::Write => 2,
        RestoreStage::Record => 3,
        RestoreStage::Purge => 4,
        RestoreStage::Over => 5,
    }
}

/// A restore keeps its order, whatever comes of each stage: nothing is written
/// before the watcher was told, and nothing leaves the vault before the records
/// took it.
pub proof fn restore_keeps_its_order(
    job: RestoreJob<Seq<char>>,
    events: Seq<RestoreEvent<Seq<char>>>,
)
    requires
        job.stage is Find,
        restore_possible(job, events),
    ensures
        in_order(restore_steps(job, events)),
        forall|i: int|
            0 <= i < events.len() && (#[trigger] restore_steps(job, events)[i]) is Write ==> i > 0
                && restore_steps(job, events)[i - 1] is Mark,
        forall|i: int|
            0 <= i < events.len() && (#[trigger] restore_steps(job, events)[i]) is Purge ==> i > 0
                && restore_steps(job, events)[i - 1] is Record,
        restore_steps(job, events).len() == events.len(),
        !(restore_after(job, events).stage is Over) ==> {
            &&& stage_number(restore_after(job, events).stage) == events.len()
            &&& forall|i: int|
                0 <= i < events.len() ==> !((#[trigger] restore_steps(job, events)[i]) is Fail)
        },
    decreases events.len(),
{
    if events.len() > 0 {
        let before = events.drop_last();
        restore_keeps_its_order(job, before);
        let steps = restore_steps(job, events);
        let old_steps = restore_steps(job, before);
        assert(!(restore_after(job, before).stage is Over));
        assert forall|i: int| 0 <= i < steps.len() implies match #[trigger] steps[i] {
            RestoreStep::Mark => i == 0,
            RestoreStep::Write => i == 1,
            RestoreStep::Record => i == 2,
            RestoreStep::Purge => i == 3,
            RestoreStep::Done(_) => i == 4,
            RestoreStep::Fail(_) => i == steps.len() - 1,
        } by {
            if i < old_steps.len() {
                assert(steps[i] == old_steps[i]);
            }
        }
        assert forall|i: int| 0 <= i < events.len() && (#[trigger] steps[i]) is Write implies i > 0
            && steps[i - 1] is Mark by {}
        assert forall|i: int| 0 <= i < events.len() && (#[trigger] steps[i]) is Purge implies i > 0
            && steps[i - 1] is Record by {}
        assert forall|i: int|
            0 <= i < events.len() && !(restore_after(job, events).stage is Over) implies !((
        #[trigger] steps[i]) is Fail) by {
            if i < old_steps.len() {
                assert(steps[i] == old_steps[i]);
            }
        }
    }
}

/// What is left to do after a file was moved to the vault.
pub struct QuarantineEnd {
    /// Whether the record is marked as failed and the copy in the vault removed.
    pub undo: bool,
    pub event: Option<ActivityEvent>,
}

/// The entry on a file that was put into quarantine.
pub open spec fn quarantined_event(
    virus_name: Seq<char>,
    path: Seq<char>,
    scan_id: Seq<char>,
) -> ActivityEvent<Seq<char>> {
    ActivityEvent {
        severity: "critical"@,
        category: "quarantine"@,
        title: "Quarantined: "@ + virus_name,
        message: path,
        scan_id: Some(scan_id),
    }
}

/// End a quarantine: an entry on the file where it worked, the undoing of the
/// first half where the second failed.
pub fn finish_quarantine(done: bool, virus_name: &str, path: &str, scan_id: &str) -> (end:
    QuarantineEnd)
    ensures
        end.undo == !done,
        end.event is Some <==> done,
        end.event matches Some(e) ==> e@ == quarantined_event(virus_name@, path@, scan_id@),
        end.event matches Some(e) ==> e@ == (ActivityEvent {
            severity: "critical"@,
            category: "quarantine"@,
            title: "Quarantined: "@ + virus_name@,
            message: path@,
            scan_id: Some(scan_id@),
        }),
{
    if !done {
        return QuarantineEnd { undo: true, event: None };
    }
    let mut title = "Quarantined: ".to_owned();
    title.append(virus_name);
    QuarantineEnd {
        undo: false,
        event: Some(
            ActivityEvent {
                severity: "critical".to_owned(),
                category: "quarantine".to_owned(),
                title,
                message: path.to_owned(),
                scan_id: Some(scan_id.to_owned()),
            },
        ),
    }
}

/// A path that was just marked is left alone for the whole time, and only for
/// that time.
pub proof fn restored_path_is_left_alone(
    m: Map<Seq<char>, u64>,
    path: Seq<char>,
    marked: u64,
    now: u64,
)
    ensures
        ({
            let after = holding(m, marked).insert(path, marked);
            after.contains_key(path) && (holds(after[path], now) <==> now < marked + SUPPRESSION)
        }),
{
}

/// Marking one path does not end the time of another.
pub proof fn marks_do_not_disturb_each_other(
    m: Map<Seq<char>, u64>,
    path: Seq<char>,
    other: Seq<char>,
    now: u64,
)
    requires
        path != other,
        m.contains_key(other),
        holds(m[other], now),
    ensures
        ({
            let after = holding(m, now).insert(path, now);
            after.contains_key(other) && after[other] == m[other]
        }),
{
}

/// Marks that no longer hold are not kept.
pub proof fn old_marks_are_dropped(
    m: Map<Seq<char>, u64>,
    path: Seq<char>,
    other: Seq<char>,
    now: u64,
)
    requires
        path != other,
        m.contains_key(other) ==> !holds(m[other], now),
    ensures
        !holding(m, now).insert(path, now).contains_key(other),
{
}

/// An item can be restored while it is in quarantine and its file is in the vault
/// with at least twelve bytes, and in no other state.
pub proof fn whole_items_are_restorable(vault_size: Option<u64>, status: Seq<char>)
    ensures
        restorable(vault_size, status) ==> vault_size is Some && vault_size->0 >= 12 && status
            == "quarantined"@,
        (vault_size matches Some(n) && n >= 12) && status == "quarantined"@ ==> restorable(
            vault_size,
            status,
        ),
        vault_size is None ==> !restorable(vault_size, status),
{
}

/// An item is found where the records are open and hold it; the records that cannot
/// be opened are told before a missing item.
pub proof fn missing_items_are_told(records_open: bool, found: bool, id: Seq<char>)
    ensures
        find_error(records_open, found, id) is None <==> records_open && found,
        !records_open ==> find_error(records_open, found, id) == Some("Database not available"@),
        records_open && !found ==> find_error(records_open, found, id) == Some("Not found: "@ + id),
{
}

/// Only an item in quarantine is deleted; of any other the state is told.
pub proof fn only_quarantined_items_are_deleted(status: Seq<char>)
    ensures
        delete_error(status) is None <==> status == "quarantined"@,
        status != "quarantined"@ ==> delete_error(status) == Some(
            "Cannot delete: status is '"@ + status + "', not quarantined"@,
        ),
{
}

/// A file in quarantine is logged as critical under the name of its threat, with its
/// path and scan.
pub proof fn quarantine_is_critical(virus_name: Seq<char>, path: Seq<char>, scan_id: Seq<char>)
    ensures
        ({
            let e = quarantined_event(virus_name, path, scan_id);
            &&& e.severity == "critical"@ && e.category == "quarantine"@
            &&& e.title == "Quarantined: "@ + virus_name && e.message == path
            &&& e.scan_id == Some(scan_id)
        }),
{
}

/// A restored file is logged as a warning with the path it was written to, and
/// whether that is its own.
pub proof fn restore_is_a_warning(path: Seq<char>, elsewhere: bool)
    ensures
        ({
            let e = restored_event(path, elsewhere);
            &&& e.severity == "warning"@ && e.category == "quarantine"@ && e.message == path
            &&& elsewhere ==> e.title == "File restored to alternate path"@
            &&& !elsewhere ==> e.title == "File restored from quarantine"@
            &&& e.scan_id is None
        }),
{
}

/// A restore in which nothing fails goes through all its stages and answers with the
/// path that was written; each failure ends it and is the answer.
pub proof fn restore_answers_with_its_outcome(
    job: RestoreJob<Seq<char>>,
    event: RestoreEvent<Seq<char>>,
)
    requires
        restore_expects(job.stage, event),
    ensures
        ({
            let (after, step) = restore_next(job, event);
            &&& after.id == job.id && after.elsewhere == job.elsewhere
            &&& event matches RestoreEvent::Found { records_open, place } ==> {
                &&& !records_open ==> step == RestoreStep::Fail("Database not available"@)
                &&& records_open && place is None ==> step == RestoreStep::Fail(
                    "Not found: "@ + job.id,
                )
                &&& records_open && place is Some ==> step is Mark && after.stage is Mark
                    && after.path == place->0
            }
            &&& event is Marked ==> step is Write && after.stage is Write && after.path == job.path
            &&& event matches RestoreEvent::Written(Ok(path)) ==> step is Record && after.stage
                is Record && after.path == path
            &&& event matches RestoreEvent::Written(Err(e)) ==> step == RestoreStep::Fail(e)
            &&& event matches RestoreEvent::Recorded(error) ==> {
                &&& error is None ==> step is Purge && after.stage is Purge && after.path
                    == job.path
                &&& error matches Some(e) ==> step == RestoreStep::Fail(e)
            }
            &&& event is Purged ==> step == RestoreStep::Done(job.path)
            &&& step is Fail || step is Done ==> after.stage is Over
        }),
{
}

/// A mark holds for thirty seconds.
pub proof fn marks_hold_for_thirty_seconds(at: u64, now: u64)
    ensures
        holds(at, now) <==> now < at + 30_000_000_000,
{
}

} // verus!
