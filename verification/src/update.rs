//! Signature updates: their phases, what the updater prints, and their end.

use crate::scan::job::{keep_last, last_items, ActivityEvent};
use crate::text::{
    chars_of, contains, first_chars, is_white, join, joined, occurs, owned_view, parts, split,
    take_chars, text_of, texts, trim, trimmed, white,
};
use vstd::prelude::*;

verus! {

/// Where an update is. `T` is the type of a text.
pub enum UpdatePhase<T = String> {
    Idle,
    Checking,
    /// The file that is being fetched.
    Downloading(T),
    Applying,
    ReloadingEngine,
    ReloadingArgus,
    Completed,
}

impl View for UpdatePhase {
    type V = UpdatePhase<Seq<char>>;

    open spec fn view(&self) -> UpdatePhase<Seq<char>> {
        match self {
            UpdatePhase::Idle => UpdatePhase::Idle,
            UpdatePhase::Checking => UpdatePhase::Checking,
            UpdatePhase::Downloading(file) => UpdatePhase::Downloading(file@),
            UpdatePhase::Applying => UpdatePhase::Applying,
            UpdatePhase::ReloadingEngine => UpdatePhase::ReloadingEngine,
            UpdatePhase::ReloadingArgus => UpdatePhase::ReloadingArgus,
            UpdatePhase::Completed => UpdatePhase::Completed,
        }
    }
}

/// Updates of the daemon.
pub struct UpdateTracker {
    pub running: bool,
    pub phase: UpdatePhase,
    pub last_timestamp: Option<i64>,
    pub last_error: Option<String>,
}

/// Mathematical value of an [`UpdateTracker`].
pub struct Updates {
    pub running: bool,
    pub phase: UpdatePhase<Seq<char>>,
    pub last_timestamp: Option<i64>,
    pub last_error: Option<Seq<char>>,
}

impl View for UpdateTracker {
    type V = Updates;

    open spec fn view(&self) -> Updates {
        Updates {
            running: self.running,
            phase: self.phase@,
            last_timestamp: self.last_timestamp,
            last_error: owned_view(self.last_error),
        }
    }
}

/// What an update is reported as.
#[derive(Debug, Clone, Copy, PartialEq, Eq, Structural)]
pub enum UpdateState {
    Idle,
    Checking,
    Downloading,
    Applying,
    Completed,
    Error,
}

/// Report of an update. `T` is the type of a text.
pub struct UpdateReport<T = String> {
    pub state: UpdateState,
    pub percent: Option<u32>,
    pub current_file: Option<T>,
    pub last_error: Option<T>,
}

impl View for UpdateReport {
    type V = UpdateReport<Seq<char>>;

    open spec fn view(&self) -> UpdateReport<Seq<char>> {
        UpdateReport {
            state: self.state,
            percent: self.percent,
            current_file: owned_view(self.current_file),
            last_error: owned_view(self.last_error),
        }
    }
}

/// A text, unless it is empty.
pub open spec fn unless_empty(s: Seq<char>) -> Option<Seq<char>> {
    if s.len() == 0 {
        None
    } else {
        Some(s)
    }
}

/// The report of the updates.
pub open spec fn report_of(u: Updates) -> UpdateReport<Seq<char>> {
    let (state, percent, file) = if u.running {
        match u.phase {
            UpdatePhase::Idle => (UpdateState::Idle, None, ""@),
            UpdatePhase::Checking => (UpdateState::Checking, Some(5u32), ""@),
            UpdatePhase::Downloading(name) => (UpdateState::Downloading, Some(30u32), name),
            UpdatePhase::Applying => (UpdateState::Applying, Some(70u32), ""@),
            UpdatePhase::ReloadingEngine => (
                UpdateState::Applying,
                Some(85u32),
                "Reloading ClamAV engine..."@,
            ),
            UpdatePhase::ReloadingArgus => (
                UpdateState::Applying,
                Some(95u32),
                "Reloading ARGUS rules..."@,
            ),
            UpdatePhase::Completed => (UpdateState::Completed, Some(100u32), ""@),
        }
    } else if u.last_error is Some {
        (UpdateState::Error, None, ""@)
    } else {
        (UpdateState::Idle, None, ""@)
    };
    UpdateReport { state, percent, current_file: unless_empty(file), last_error: u.last_error }
}

/// The first place at or after `i` that is not white space.
pub open spec fn skip_white(s: Seq<char>, i: int) -> int
    decreases s.len() - i,
{
    if 0 <= i < s.len() && white(s[i]) {
        skip_white(s, i + 1)
    } else {
        i
    }
}

/// The first place at or after `i` that is white space.
pub open spec fn skip_word(s: Seq<char>, i: int) -> int
    decreases s.len() - i,
{
    if 0 <= i < s.len() && !white(s[i]) {
        skip_word(s, i + 1)
    } else {
        i
    }
}

/// The second word of a line, if it has one.
pub open spec fn second_word(s: Seq<char>) -> Option<Seq<char>> {
    let from = skip_white(s, skip_word(s, skip_white(s, 0)));
    if from < s.len() {
        Some(s.subrange(from, skip_word(s, from)))
    } else {
        None
    }
}

fn after_white(chars: &Vec<char>, from: usize) -> (at: usize)
    requires
        from <= chars@.len(),
    ensures
        at == skip_white(chars@, from as int),
        from <= at <= chars@.len(),
{
    let mut i: usize = from;
    while i < chars.len() && is_white(chars[i])
        invariant
            from <= i <= chars@.len(),
            skip_white(chars@, from as int) == skip_white(chars@, i as int),
        decreases chars@.len() - i,
    {
        i = i + 1;
    }
    i
}

fn after_word(chars: &Vec<char>, from: usize) -> (at: usize)
    requires
        from <= chars@.len(),
    ensures
        at == skip_word(chars@, from as int),
        from <= at <= chars@.len(),
{
    let mut i: usize = from;
    while i < chars.len() && !is_white(chars[i])
        invariant
            from <= i <= chars@.len(),
            skip_word(chars@, from as int) == skip_word(chars@, i as int),
        decreases chars@.len() - i,
    {
        i = i + 1;
    }
    i
}

/// The second word of a line.
pub fn word_two(line: &str) -> (word: Option<String>)
    ensures
        owned_view(word) == second_word(line@),
{
    let chars = chars_of(line);
    let first: usize = after_white(&chars, 0);
    let gap: usize = after_word(&chars, first);
    let from: usize = after_white(&chars, gap);
    if from < chars.len() {
        let to: usize = after_word(&chars, from);
        Some(text_of(&chars, from, to))
    } else {
        None
    }
}

/// The phase after the updater printed a line.
pub open spec fn phase_after_line(phase: UpdatePhase<Seq<char>>, line: Seq<char>) -> UpdatePhase<
    Seq<char>,
> {
    if occurs("Downloading"@, line) || occurs("downloading"@, line) {
        UpdatePhase::Downloading(
            match second_word(line) {
                Some(word) => word,
                None => "definitions"@,
            },
        )
    } else if occurs("up-to-date"@, line) || occurs("updated"@, line) {
        UpdatePhase::Applying
    } else {
        phase
    }
}

/// A line without a carriage return at its end.
pub open spec fn without_cr(s: Seq<char>) -> Seq<char> {
    if s.len() > 0 && s.last() == '\r' {
        s.drop_last()
    } else {
        s
    }
}

/// The lines of a text.
pub open spec fn lines_of(s: Seq<char>) -> Seq<Seq<char>> {
    let p = parts(s, '\n');
    Seq::new(
        p.len(),
        |i: int|
            if i + 1 < p.len() {
                without_cr(p[i])
            } else {
                p[i]
            },
    )
}

/// The lines that hold more than white space.
pub open spec fn solid(lines: Seq<Seq<char>>) -> Seq<Seq<char>>
    decreases lines.len(),
{
    if lines.len() == 0 {
        Seq::empty()
    } else if trimmed(lines.last()).len() > 0 {
        solid(lines.drop_last()).push(lines.last())
    } else {
        solid(lines.drop_last())
    }
}

/// The reason for a failed update: the last three lines that say anything.
pub open spec fn failure_detail(message: Seq<char>) -> Seq<char> {
    let tail = last_items(solid(lines_of(message)), 3);
    if tail.len() == 0 {
        "freshclam failed (no output)"@
    } else {
        first_chars(joined(tail, " | "@), 300)
    }
}

fn strip_cr(s: &str) -> (line: String)
    ensures
        line@ == without_cr(s@),
{
    let chars = chars_of(s);
    let n: usize = chars.len();
    assert(s@.subrange(0, n as int) =~= s@);
    if n > 0 && chars[n - 1] == '\r' {
        let line = text_of(&chars, 0, n - 1);
        assert(line@ =~= s@.drop_last());
        line
    } else {
        text_of(&chars, 0, n)
    }
}

/// Tell from the updater's output why it failed.
pub fn freshclam_error_detail(message: &str) -> (detail: String)
    ensures
        detail@ == failure_detail(message@),
{
    let pieces = split(message, '\n');
    let ghost lines = lines_of(message@);
    let n: usize = pieces.len();
    let mut kept: Vec<String> = Vec::new();
    let mut i: usize = 0;
    assert(texts(pieces@).len() == n);
    assert(lines.take(0) =~= Seq::<Seq<char>>::empty());
    assert(texts(kept@) =~= solid(lines.take(0)));
    while i < n
        invariant
            n == pieces@.len(),
            n == lines.len(),
            lines == lines_of(message@),
            texts(pieces@) == parts(message@, '\n'),
            i <= n,
            texts(kept@) == solid(lines.take(i as int)),
        decreases n - i,
    {
        assert(texts(pieces@)[i as int] == pieces@[i as int]@);
        let line = if i + 1 < n {
            strip_cr(pieces[i].as_str())
        } else {
            pieces[i].clone()
        };
        proof {
            assert(lines.take(i + 1).drop_last() =~= lines.take(i as int));
            assert(lines.take(i + 1).last() == line@);
        }
        let inner = trim(line.as_str());
        if !inner.as_str().is_empty() {
            let ghost before = kept@;
            kept.push(line);
            assert(texts(kept@) =~= texts(before).push(line@));
        }
        i = i + 1;
    }
    assert(lines.take(lines.len() as int) =~= lines);
    let ghost all = kept@;
    keep_last(&mut kept, 3);
    assert(texts(kept@) =~= last_items(texts(all), 3));
    assert(texts(kept@).len() == kept@.len());
    if kept.len() == 0 {
        return "freshclam failed (no output)".to_owned();
    }
    let text = join(&kept, " | ");
    take_chars(text.as_str(), 300)
}

/// An event of an update.
pub open spec fn update_event(severity: Seq<char>, title: Seq<char>, message: Seq<char>) -> ActivityEvent<
    Seq<char>,
> {
    ActivityEvent { severity, category: "update"@, title, message, scan_id: None }
}

/// The updates after one was claimed; one that runs cannot be.
pub open spec fn claimed(u: Updates) -> Updates {
    if u.running {
        u
    } else {
        Updates { running: true, last_error: None, ..u }
    }
}

/// What is missing for an update.
pub open spec fn missing_part(binary_found: bool, config_found: bool) -> Option<Seq<char>> {
    if !binary_found {
        Some("freshclam binary not found"@)
    } else if !config_found {
        Some("freshclam.conf not found"@)
    } else {
        None
    }
}

/// The updates after the updater ended.
pub open spec fn updater_ended(u: Updates, success: bool, message: Seq<char>, now: i64) -> Updates {
    if success {
        Updates { last_timestamp: Some(now), phase: UpdatePhase::ReloadingEngine, ..u }
    } else {
        Updates { last_error: Some(failure_detail(message)), ..u }
    }
}

/// The event on the end of the updater.
pub open spec fn ended_event(success: bool, message: Seq<char>) -> ActivityEvent<Seq<char>> {
    if success {
        update_event("info"@, "Signatures updated successfully"@, first_chars(message, 200))
    } else {
        update_event("warning"@, "Signature update failed"@, failure_detail(message))
    }
}

/// The updates after one was over.
pub open spec fn update_over(u: Updates) -> Updates {
    Updates { running: false, phase: UpdatePhase::Idle, ..u }
}

impl UpdateTracker {
    pub fn new() -> (tracker: UpdateTracker)
        ensures
            tracker@ == (Updates {
                running: false,
                phase: UpdatePhase::Idle,
                last_timestamp: None,
                last_error: None,
            }),
    {
        UpdateTracker {
            running: false,
            phase: UpdatePhase::Idle,
            last_timestamp: None,
            last_error: None,
        }
    }

    /// Claim the update, unless one is running.
    pub fn begin_update(&mut self) -> (event: Option<ActivityEvent>)
        ensures
            final(self)@ == claimed(old(self)@),
            match event {
                Some(e) => {
                    &&& !old(self)@.running
                    &&& final(self)@ == (Updates {
                        running: true,
                        last_error: None,
                        ..old(self)@
                    })
                    &&& e@ == update_event(
                        "info"@,
                        "Signature update started"@,
                        "Running freshclam..."@,
                    )
                },
                None => old(self)@.running && final(self)@ == old(self)@,
            },
    {
        if self.running {
            return None;
        }
        self.running = true;
        self.last_error = None;
        Some(
            ActivityEvent::general(
                "info",
                "update",
                "Signature update started".to_owned(),
                "Running freshclam...",
            ),
        )
    }

    /// Give up where the updater or its configuration is missing. Returns the
    /// error and its event, or `None` where the updater can run.
    pub fn check_updater(&mut self, binary_found: bool, config_found: bool) -> (failure: Option<
        (String, ActivityEvent),
    >)
        ensures
            missing_part(binary_found, config_found) == match failure {
                Some((error, _)) => Some(error@),
                None => None,
            },
            match failure {
                Some((error, event)) => {
                    &&& !(binary_found && config_found)
                    &&& error@ == if !binary_found {
                        "freshclam binary not found"@
                    } else {
                        "freshclam.conf not found"@
                    }
                    &&& event@ == update_event("warning"@, "Update failed"@, error@)
                    &&& final(self)@ == (Updates {
                        running: false,
                        last_error: Some(error@),
                        ..old(self)@
                    })
                },
                None => binary_found && config_found && final(self)@ == old(self)@,
            },
    {
        if binary_found && config_found {
            return None;
        }
        let error = if !binary_found {
            "freshclam binary not found"
        } else {
            "freshclam.conf not found"
        };
        self.running = false;
        self.last_error = Some(error.to_owned());
        let event = ActivityEvent::general("warning", "update", "Update failed".to_owned(), error);
        Some((error.to_owned(), event))
    }

    /// Show the phase of the update.
    pub fn set_phase(&mut self, phase: UpdatePhase)
        ensures
            final(self)@ == (Updates { phase: phase@, ..old(self)@ }),
    {
        self.phase = phase;
    }

    /// Follow what the updater prints.
    pub fn on_line(&mut self, line: &str)
        ensures
            final(self)@ == (Updates {
                phase: phase_after_line(old(self)@.phase, line@),
                ..old(self)@
            }),
    {
        if contains(line, "Downloading") || contains(line, "downloading") {
            let file = match word_two(line) {
                Some(word) => word,
                None => "definitions".to_owned(),
            };
            self.phase = UpdatePhase::Downloading(file);
        } else if contains(line, "up-to-date") || contains(line, "updated") {
            self.phase = UpdatePhase::Applying;
        }
    }

    /// The updater ended. On success the engine is reloaded next.
    pub fn updater_finished(&mut self, success: bool, message: &str, now: i64) -> (event: ActivityEvent)
        ensures
            final(self)@ == updater_ended(old(self)@, success, message@, now),
            event@ == ended_event(success, message@),
            if success {
                &&& final(self)@ == (Updates {
                    last_timestamp: Some(now),
                    phase: UpdatePhase::ReloadingEngine,
                    ..old(self)@
                })
                &&& event@ == update_event(
                    "info"@,
                    "Signatures updated successfully"@,
                    first_chars(message@, 200),
                )
            } else {
                &&& final(self)@ == (Updates {
                    last_error: Some(failure_detail(message@)),
                    ..old(self)@
                })
                &&& event@ == update_event(
                    "warning"@,
                    "Signature update failed"@,
                    failure_detail(message@),
                )
            },
    {
        if success {
            self.last_timestamp = Some(now);
            self.phase = UpdatePhase::ReloadingEngine;
            let short = take_chars(message, 200);
            ActivityEvent::general(
                "info",
                "update",
                "Signatures updated successfully".to_owned(),
                short.as_str(),
            )
        } else {
            let detail = freshclam_error_detail(message);
            let event = ActivityEvent::general(
                "warning",
                "update",
                "Signature update failed".to_owned(),
                detail.as_str(),
            );
            self.last_error = Some(detail);
            event
        }
    }

    /// The update is over, however it went.
    pub fn end_update(&mut self)
        ensures
            final(self)@ == update_over(old(self)@),
            final(self)@ == (Updates {
                running: false,
                phase: UpdatePhase::Idle,
                ..old(self)@
            }),
    {
        self.running = false;
        self.phase = UpdatePhase::Idle;
    }

    /// Report the update.
    pub fn update_status(&self) -> (report: UpdateReport)
        ensures
            report@ == report_of(self@),
    {
        let last_error = self.last_error.clone();
        if !self.running {
            let state = if self.last_error.is_some() {
                UpdateState::Error
            } else {
                UpdateState::Idle
            };
            proof {
                reveal_strlit("");
            }
            return UpdateReport { state, percent: None, current_file: None, last_error };
        }
        let (state, percent, file): (UpdateState, Option<u32>, String) = match &self.phase {
            UpdatePhase::Idle => (UpdateState::Idle, None, "".to_owned()),
            UpdatePhase::Checking => (UpdateState::Checking, Some(5), "".to_owned()),
            UpdatePhase::Downloading(name) => (UpdateState::Downloading, Some(30), name.clone()),
            UpdatePhase::Applying => (UpdateState::Applying, Some(70), "".to_owned()),
            UpdatePhase::ReloadingEngine => (
                UpdateState::Applying,
                Some(85),
                "Reloading ClamAV engine...".to_owned(),
            ),
            UpdatePhase::ReloadingArgus => (
                UpdateState::Applying,
                Some(95),
                "Reloading ARGUS rules...".to_owned(),
            ),
            UpdatePhase::Completed => (UpdateState::Completed, Some(100), "".to_owned()),
        };
        let current_file = if file.as_str().is_empty() {
            None
        } else {
            Some(file)
        };
        UpdateReport { state, percent, current_file, last_error }
    }
}

/// An update that is claimed runs and has no error yet; a second one changes nothing.
pub proof fn one_update_at_a_time(u: Updates)
    ensures
        claimed(u).running,
        u.running ==> claimed(u) == u,
        !u.running ==> claimed(u).last_error is None && claimed(u).phase == u.phase && claimed(
            u,
        ).last_timestamp == u.last_timestamp,
        claimed(claimed(u)) == claimed(u),
{
}

/// The updater runs where both it and its configuration are there; the first that is
/// missing is named.
pub proof fn missing_updater_is_named(binary_found: bool, config_found: bool)
    ensures
        missing_part(binary_found, config_found) is None <==> binary_found && config_found,
        !binary_found ==> missing_part(binary_found, config_found) == Some(
            "freshclam binary not found"@,
        ),
        binary_found && !config_found ==> missing_part(binary_found, config_found) == Some(
            "freshclam.conf not found"@,
        ),
{
}

/// An update that succeeded is dated and goes on to the engine, one that failed keeps
/// its reason and the date of the last success; either way the report after its end
/// is of no running update.
pub proof fn update_end_is_reported(u: Updates, success: bool, message: Seq<char>, now: i64)
    requires
        u.running,
        u.last_error is None,
    ensures
        ({
            let after = updater_ended(u, success, message, now);
            let report = report_of(update_over(after));
            &&& success ==> after.last_timestamp == Some(now) && after.phase is ReloadingEngine
                && after.last_error is None
            &&& !success ==> after.last_timestamp == u.last_timestamp && after.last_error == Some(
                failure_detail(message),
            ) && after.phase == u.phase
            &&& after.running
            &&& success ==> report.state is Idle && report.last_error is None
            &&& !success ==> report.state is Error && report.last_error == Some(
                failure_detail(message),
            )
            &&& report.percent is None
            &&& report.current_file is None
            &&& ended_event(success, message).category == "update"@
            &&& success ==> ended_event(success, message).severity == "info"@
            &&& !success ==> ended_event(success, message).severity == "warning"@
                && ended_event(success, message).message == failure_detail(message)
        }),
{
    reveal_strlit("");
}

/// A running update is reported by its phase, further on with every phase, and names
/// the file it fetches.
pub proof fn phases_are_reported_in_order(u: Updates)
    requires
        u.running,
    ensures
        ({
            let r = report_of(u);
            &&& u.phase is Idle <==> r.state is Idle
            &&& u.phase is Checking <==> r.state is Checking
            &&& u.phase is Downloading <==> r.state is Downloading
            &&& (u.phase is Applying || u.phase is ReloadingEngine || u.phase is ReloadingArgus)
                <==> r.state is Applying
            &&& u.phase is Completed <==> r.state is Completed
            &&& u.phase is Idle ==> r.percent is None
            &&& u.phase is Checking ==> r.percent == Some(5u32)
            &&& u.phase is Downloading ==> r.percent == Some(30u32)
            &&& u.phase is Applying ==> r.percent == Some(70u32)
            &&& u.phase is ReloadingEngine ==> r.percent == Some(85u32) && r.current_file == Some(
                "Reloading ClamAV engine..."@,
            )
            &&& u.phase is ReloadingArgus ==> r.percent == Some(95u32) && r.current_file == Some(
                "Reloading ARGUS rules..."@,
            )
            &&& u.phase is Completed ==> r.percent == Some(100u32)
            &&& u.phase matches UpdatePhase::Downloading(name) ==> (name.len() > 0
                ==> r.current_file == Some(name)) && (name.len() == 0 ==> r.current_file is None)
            &&& u.phase is Checking || u.phase is Applying || u.phase is Completed || u.phase
                is Idle ==> r.current_file is None
            &&& r.last_error == u.last_error
        }),
{
    reveal_strlit("");
    reveal_strlit("Reloading ClamAV engine...");
    reveal_strlit("Reloading ARGUS rules...");
}

/// An update that does not run is idle, or tells the error of the last one.
pub proof fn idle_updates_tell_the_last_error(u: Updates)
    requires
        !u.running,
    ensures
        report_of(u).state is Error <==> u.last_error is Some,
        report_of(u).state is Idle <==> u.last_error is None,
        report_of(u).last_error == u.last_error,
        report_of(u).percent is None,
        report_of(u).current_file is None,
{
    reveal_strlit("");
}

proof fn lemma_skip_white(s: Seq<char>, i: int)
    requires
        0 <= i <= s.len(),
    ensures
        i <= skip_white(s, i) <= s.len(),
        forall|k: int| i <= k < skip_white(s, i) ==> white(#[trigger] s[k]),
        skip_white(s, i) < s.len() ==> !white(s[skip_white(s, i)]),
    decreases s.len() - i,
{
    if i < s.len() && white(s[i]) {
        lemma_skip_white(s, i + 1);
    }
}

proof fn lemma_skip_word(s: Seq<char>, i: int)
    requires
        0 <= i <= s.len(),
    ensures
        i <= skip_word(s, i) <= s.len(),
        forall|k: int| i <= k < skip_word(s, i) ==> !white(#[trigger] s[k]),
        skip_word(s, i) < s.len() ==> white(s[skip_word(s, i)]),
    decreases s.len() - i,
{
    if i < s.len() && !white(s[i]) {
        lemma_skip_word(s, i + 1);
    }
}

proof fn lemma_skip_white_to(s: Seq<char>, i: int, j: int)
    requires
        0 <= i <= j <= s.len(),
        forall|k: int| i <= k < j ==> white(#[trigger] s[k]),
        j < s.len() ==> !white(s[j]),
    ensures
        skip_white(s, i) == j,
    decreases j - i,
{
    if i < j {
        lemma_skip_white_to(s, i + 1, j);
    }
}

proof fn lemma_skip_word_to(s: Seq<char>, i: int, j: int)
    requires
        0 <= i <= j <= s.len(),
        forall|k: int| i <= k < j ==> !white(#[trigger] s[k]),
        j < s.len() ==> white(s[j]),
    ensures
        skip_word(s, i) == j,
    decreases j - i,
{
    if i < j {
        lemma_skip_word_to(s, i + 1, j);
    }
}

/// The second word of a line is what stands between the first white space behind its
/// first word and the next.
pub proof fn second_word_is_between_blanks(
    first: Seq<char>,
    second: Seq<char>,
    rest: Seq<char>,
)
    requires
        first.len() > 0,
        second.len() > 0,
        forall|k: int| 0 <= k < first.len() ==> !white(#[trigger] first[k]),
        forall|k: int| 0 <= k < second.len() ==> !white(#[trigger] second[k]),
        rest.len() > 0 ==> white(rest[0]),
        white(' '),
    ensures
        second_word(first + seq![' '] + second + rest) == Some(second),
        second_word(first) is None,
{
    let s = first + seq![' '] + second + rest;
    let a = first.len() as int;
    let b = a + 1;
    let c = b + second.len();
    assert forall|k: int| 0 <= k < a implies !white(#[trigger] s[k]) by {
        assert(s[k] == first[k]);
    }
    assert(s[0] == first[0]);
    assert(s[a] == ' ');
    assert forall|k: int| b <= k < c implies !white(#[trigger] s[k]) by {
        assert(s[k] == second[k - b]);
    }
    assert(s[b] == second[0]);
    if c < s.len() {
        assert(s[c] == rest[0]);
    }
    lemma_skip_white_to(s, 0, 0);
    lemma_skip_word_to(s, 0, a);
    lemma_skip_white_to(s, a, b);
    lemma_skip_word_to(s, b, c);
    assert(s.subrange(b, c) =~= second);
    assert(first[0] == first[0]);
    lemma_skip_white_to(first, 0, 0);
    lemma_skip_word_to(first, 0, a);
    lemma_skip_white(first, a);
}

/// A line on a download names its file, a line on the end of it leads on, and every
/// other line changes nothing.
pub proof fn lines_move_the_phase(phase: UpdatePhase<Seq<char>>, line: Seq<char>)
    ensures
        ({
            let loading = occurs("Downloading"@, line) || occurs("downloading"@, line);
            let done = occurs("up-to-date"@, line) || occurs("updated"@, line);
            let after = phase_after_line(phase, line);
            &&& loading && second_word(line) is Some ==> after == UpdatePhase::Downloading(
                second_word(line)->0,
            )
            &&& loading && second_word(line) is None ==> after == UpdatePhase::Downloading(
                "definitions"@,
            )
            &&& !loading && done ==> after == UpdatePhase::<Seq<char>>::Applying
            &&& !loading && !done ==> after == phase
        }),
{
}

proof fn lemma_solid(lines: Seq<Seq<char>>, line: Seq<char>)
    ensures
        solid(lines).contains(line) <==> trimmed(line).len() > 0 && lines.contains(line),
        solid(lines).len() <= lines.len(),
    decreases lines.len(),
{
    if lines.len() > 0 {
        let rest = lines.drop_last();
        lemma_solid(rest, line);
        let before = solid(rest);
        let all = solid(lines);
        let n = lines.len() - 1;
        if before.contains(line) {
            let i = choose|i: int| 0 <= i < before.len() && before[i] == line;
            assert(all[i] == line);
        }
        if trimmed(lines.last()).len() > 0 {
            assert(all[before.len() as int] == lines.last());
        }
        if rest.contains(line) {
            let i = choose|i: int| 0 <= i < rest.len() && rest[i] == line;
            assert(lines[i] == line);
        }
        if lines.contains(line) {
            let i = choose|i: int| 0 <= i < lines.len() && lines[i] == line;
            if i < n {
                assert(rest[i] == line);
            }
        }
        if all.contains(line) {
            let i = choose|i: int| 0 <= i < all.len() && all[i] == line;
            if i < before.len() {
                assert(before[i] == line);
            }
        }
    }
}

/// The reason for a failure is made of the last lines that say anything, three at
/// most, and of no blank one; where none says anything, that is said.
pub proof fn failure_is_told_by_its_last_lines(message: Seq<char>, line: Seq<char>)
    ensures
        ({
            let lines = solid(lines_of(message));
            let tail = last_items(lines, 3);
            &&& lines.contains(line) <==> trimmed(line).len() > 0 && lines_of(message).contains(
                line,
            )
            &&& tail.len() <= 3
            &&& lines.len() > 0 ==> tail.last() == lines.last()
            &&& lines.len() == 0 ==> failure_detail(message) == "freshclam failed (no output)"@
            &&& lines.len() > 0 && joined(tail, " | "@).len() <= 300 ==> failure_detail(message)
                == joined(tail, " | "@)
            &&& lines.len() > 0 && joined(tail, " | "@).len() > 300 ==> failure_detail(message)
                == joined(tail, " | "@).take(300)
            &&& failure_detail(message).len() <= 300
        }),
{
    lemma_solid(lines_of(message), line);
    reveal_strlit("freshclam failed (no output)");
    assert("freshclam failed (no output)"@.len() == 28);
}

/// A text is told where it is not empty.
pub proof fn empty_texts_are_not_told(s: Seq<char>)
    ensures
        unless_empty(s) is Some <==> s.len() > 0,
        s.len() > 0 ==> unless_empty(s) == Some(s),
{
}

} // verus!
