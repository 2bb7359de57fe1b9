//! The check of critical places after the machine has started.
//!
//! It is quiet: one file after the other, none under memory pressure, and two
//! entries in the activity log.

use super::job::ActivityEvent;
use super::verdict::{unify_detection_filtered, united, ArgusVerdict};
use super::worker::ClamResult;
use crate::footprint::pressure::{under_pressure, PressureState};
use crate::text::{
    chars_of, decimal, decimal_text, is_one_of, lower_ascii, lowercased, one_of, owned_view, same,
    to_ascii_lowercase, to_lowercase,
};
use vstd::prelude::*;

verus! {

/// Extensions of programs and scripts that run on their own.
pub open spec fn launchable() -> Seq<&'static str> {
    seq!["exe", "scr", "bat", "cmd", "ps1", "vbs", "msi"]
}

/// Whether an extension in lower case is that of something that runs.
pub fn is_launchable(lower: &str) -> (yes: bool)
    ensures
        yes == one_of(lower@, launchable()),
{
    let list = ["exe", "scr", "bat", "cmd", "ps1", "vbs", "msi"];
    assert(list@ =~= launchable());
    is_one_of(lower, &list)
}

/// A day in nanoseconds.
pub const DAY: u128 = 86_400_000_000_000;

/// Whether something was changed in the last day. Times are in nanoseconds since
/// 1970.
pub open spec fn of_last_day(modified: u128, now: u128) -> bool {
    modified + DAY >= now
}

/// Whether a file in the temporary directory is looked at: it runs, and it was
/// changed in the last day.
pub open spec fn temporary_target(
    is_file: bool,
    extension: Option<Seq<char>>,
    modified: Option<u128>,
    now: u128,
) -> bool {
    &&& is_file
    &&& extension matches Some(e) && one_of(lowercased(e), launchable())
    &&& modified matches Some(t) && of_last_day(t, now)
}

pub fn wants_temporary_file(
    is_file: bool,
    extension: Option<&str>,
    modified: Option<u128>,
    now: u128,
) -> (yes: bool)
    ensures
        yes == temporary_target(is_file, crate::text::text_view(extension), modified, now),
        yes == {
            &&& is_file
            &&& extension matches Some(e) && one_of(lowercased(e@), launchable())
            &&& modified matches Some(t) && of_last_day(t, now)
        },
{
    if !is_file {
        return false;
    }
    let runs = match extension {
        Some(e) => is_launchable(to_lowercase(e).as_str()),
        None => false,
    };
    if !runs {
        return false;
    }
    match modified {
        Some(t) => now <= DAY || t >= now - DAY,
        None => false,
    }
}

/// Whether a place is checked: not one of our own, not excluded and not known to
/// be clean.
pub open spec fn kept_target(own: bool, excluded: bool, cached_clean: Option<bool>) -> bool {
    !own && !excluded && cached_clean != Some(true)
}

pub fn keep_target(own: bool, excluded: bool, cached_clean: Option<bool>) -> (keep: bool)
    ensures
        keep == kept_target(own, excluded, cached_clean),
{
    if own || excluded {
        return false;
    }
    match cached_clean {
        Some(clean) => !clean,
        None => true,
    }
}

/// Whether a text goes before another: by the first character in which they
/// differ, and a beginning before what it begins.
pub open spec fn text_before(a: Seq<char>, b: Seq<char>) -> bool
    decreases a.len(),
{
    if b.len() == 0 {
        false
    } else if a.len() == 0 {
        true
    } else if a[0] != b[0] {
        a[0] < b[0]
    } else {
        text_before(a.drop_first(), b.drop_first())
    }
}

/// A part of a path.
#[derive(Debug)]
pub enum PathPart {
    /// A prefix that is taken as it stands.
    Verbatim(String),
    /// Server and share of a network path that is taken as it stands.
    VerbatimShare(String, String),
    /// The letter of a drive of a path that is taken as it stands.
    VerbatimDrive(String),
    /// The name of a device.
    Device(String),
    /// Server and share of a network path.
    Share(String, String),
    /// The letter of a drive.
    Drive(String),
    Root,
    Current,
    Parent,
    Name(String),
}

/// By what a part is ordered and told from another: what kind of part it is, and
/// its texts. `T` is the type of a text.
pub struct PartKey<T> {
    pub rank: u8,
    pub first: T,
    pub second: T,
}

impl View for PartKey<String> {
    type V = PartKey<Seq<char>>;

    open spec fn view(&self) -> PartKey<Seq<char>> {
        PartKey { rank: self.rank, first: self.first@, second: self.second@ }
    }
}

/// The key of a part: a prefix before the root, and names last. Drives are told
/// apart without regard to case.
pub open spec fn part_key(part: PathPart) -> PartKey<Seq<char>> {
    match part {
        PathPart::Verbatim(text) => PartKey { rank: 0, first: text@, second: ""@ },
        PathPart::VerbatimShare(server, share) => PartKey {
            rank: 1,
            first: server@,
            second: share@,
        },
        PathPart::VerbatimDrive(letter) => PartKey {
            rank: 2,
            first: lower_ascii(letter@),
            second: ""@,
        },
        PathPart::Device(name) => PartKey { rank: 3, first: name@, second: ""@ },
        PathPart::Share(server, share) => PartKey { rank: 4, first: server@, second: share@ },
        PathPart::Drive(letter) => PartKey { rank: 5, first: lower_ascii(letter@), second: ""@ },
        PathPart::Root => PartKey { rank: 6, first: ""@, second: ""@ },
        PathPart::Current => PartKey { rank: 7, first: ""@, second: ""@ },
        PathPart::Parent => PartKey { rank: 8, first: ""@, second: ""@ },
        PathPart::Name(name) => PartKey { rank: 9, first: name@, second: ""@ },
    }
}

fn one_text(rank: u8, first: String) -> (key: PartKey<String>)
    ensures
        key@ == (PartKey { rank, first: first@, second: ""@ }),
{
    PartKey { rank, first, second: "".to_owned() }
}

fn key_of(part: &PathPart) -> (key: PartKey<String>)
    ensures
        key@ == part_key(*part),
{
    match part {
        PathPart::Verbatim(text) => one_text(0, text.clone()),
        PathPart::VerbatimShare(server, share) => PartKey {
            rank: 1,
            first: server.clone(),
            second: share.clone(),
        },
        PathPart::VerbatimDrive(letter) => one_text(2, to_ascii_lowercase(letter.as_str())),
        PathPart::Device(name) => one_text(3, name.clone()),
        PathPart::Share(server, share) => PartKey {
            rank: 4,
            first: server.clone(),
            second: share.clone(),
        },
        PathPart::Drive(letter) => one_text(5, to_ascii_lowercase(letter.as_str())),
        PathPart::Root => one_text(6, "".to_owned()),
        PathPart::Current => one_text(7, "".to_owned()),
        PathPart::Parent => one_text(8, "".to_owned()),
        PathPart::Name(name) => one_text(9, name.clone()),
    }
}

/// Whether a part goes before another: by its kind, and by its texts among parts of
/// one kind.
pub open spec fn part_before(a: PartKey<Seq<char>>, b: PartKey<Seq<char>>) -> bool {
    if a.rank != b.rank {
        a.rank < b.rank
    } else if a.first != b.first {
        text_before(a.first, b.first)
    } else {
        text_before(a.second, b.second)
    }
}

/// Whether a path goes before another: by the first part in which they differ, and
/// a directory before what it holds.
pub open spec fn path_before(a: Seq<PartKey<Seq<char>>>, b: Seq<PartKey<Seq<char>>>) -> bool
    decreases a.len(),
{
    if b.len() == 0 {
        false
    } else if a.len() == 0 {
        true
    } else if a[0] != b[0] {
        part_before(a[0], b[0])
    } else {
        path_before(a.drop_first(), b.drop_first())
    }
}

proof fn lemma_text_total(a: Seq<char>, b: Seq<char>)
    ensures
        text_before(a, b) || text_before(b, a) || a == b,
        !(text_before(a, b) && text_before(b, a)),
        !text_before(a, a),
    decreases a.len(),
{
    if a.len() == 0 || b.len() == 0 {
        if a.len() == b.len() {
            assert(a =~= b);
        }
        if a.len() > 0 {
            lemma_text_total(a.drop_first(), a.drop_first());
        }
    } else {
        lemma_text_total(a.drop_first(), b.drop_first());
        if a[0] == b[0] && a.drop_first() == b.drop_first() {
            assert(a =~= seq![a[0]] + a.drop_first());
            assert(b =~= seq![b[0]] + b.drop_first());
        }
    }
}

proof fn lemma_text_transitive(a: Seq<char>, b: Seq<char>, c: Seq<char>)
    requires
        text_before(a, b),
        text_before(b, c),
    ensures
        text_before(a, c),
    decreases a.len(),
{
    if a.len() > 0 && b.len() > 0 && c.len() > 0 && a[0] == b[0] && b[0] == c[0] {
        lemma_text_transitive(a.drop_first(), b.drop_first(), c.drop_first());
    }
}

proof fn lemma_part_total(a: PartKey<Seq<char>>, b: PartKey<Seq<char>>)
    ensures
        part_before(a, b) || part_before(b, a) || a == b,
        !(part_before(a, b) && part_before(b, a)),
{
    lemma_text_total(a.first, b.first);
    lemma_text_total(a.second, b.second);
}

proof fn lemma_part_transitive(
    a: PartKey<Seq<char>>,
    b: PartKey<Seq<char>>,
    c: PartKey<Seq<char>>,
)
    requires
        part_before(a, b),
        part_before(b, c),
    ensures
        part_before(a, c),
{
    lemma_text_total(a.first, c.first);
    lemma_text_total(b.first, c.first);
    lemma_text_total(a.first, b.first);
    if a.rank == b.rank && b.rank == c.rank {
        if a.first != b.first && b.first != c.first {
            lemma_text_transitive(a.first, b.first, c.first);
        } else if a.first == b.first && b.first == c.first {
            lemma_text_transitive(a.second, b.second, c.second);
        }
    }
}

proof fn lemma_path_total(a: Seq<PartKey<Seq<char>>>, b: Seq<PartKey<Seq<char>>>)
    ensures
        path_before(a, b) || path_before(b, a) || a == b,
        !path_before(a, a),
    decreases a.len(),
{
    if a.len() == 0 || b.len() == 0 {
        if a.len() == b.len() {
            assert(a =~= b);
        }
        if a.len() > 0 {
            lemma_path_total(a.drop_first(), a.drop_first());
        }
    } else {
        lemma_part_total(a[0], b[0]);
        lemma_path_total(a.drop_first(), b.drop_first());
        if a[0] == b[0] && a.drop_first() == b.drop_first() {
            assert(a =~= seq![a[0]] + a.drop_first());
            assert(b =~= seq![b[0]] + b.drop_first());
        }
    }
}

proof fn lemma_path_transitive(
    a: Seq<PartKey<Seq<char>>>,
    b: Seq<PartKey<Seq<char>>>,
    c: Seq<PartKey<Seq<char>>>,
)
    requires
        path_before(a, b),
        path_before(b, c),
    ensures
        path_before(a, c),
    decreases a.len(),
{
    if a.len() > 0 && b.len() > 0 && c.len() > 0 {
        if a[0] == b[0] && b[0] == c[0] {
            lemma_path_transitive(a.drop_first(), b.drop_first(), c.drop_first());
        } else if a[0] != b[0] && b[0] != c[0] {
            lemma_part_transitive(a[0], b[0], c[0]);
            lemma_part_total(a[0], b[0]);
            lemma_part_total(a[0], c[0]);
        }
    }
}

fn goes_before(a: &str, b: &str) -> (yes: bool)
    ensures
        yes == text_before(a@, b@),
{
    let x = chars_of(a);
    let y = chars_of(b);
    let mut i: usize = 0;
    assert(a@.skip(0) =~= a@);
    assert(b@.skip(0) =~= b@);
    while i < x.len() && i < y.len()
        invariant
            x@ == a@,
            y@ == b@,
            i <= x@.len(),
            i <= y@.len(),
            text_before(a@, b@) == text_before(a@.skip(i as int), b@.skip(i as int)),
        decreases x@.len() - i,
    {
        assert(a@.skip(i as int)[0] == a@[i as int]);
        assert(b@.skip(i as int)[0] == b@[i as int]);
        let c: char = x[i];
        let d: char = y[i];
        if c != d {
            return c < d;
        }
        assert(a@.skip(i as int).drop_first() =~= a@.skip(i + 1));
        assert(b@.skip(i as int).drop_first() =~= b@.skip(i + 1));
        i = i + 1;
    }
    i < y.len()
}

/// A place that may be checked.
pub struct StartupTarget {
    /// The path, part by part.
    pub parts: Vec<PathPart>,
    /// A file of the daemon itself.
    pub own: bool,
    /// Excluded by the configuration.
    pub excluded: bool,
    /// What the cache knows of it.
    pub cached_clean: Option<bool>,
}

impl StartupTarget {
    /// The path, as it is ordered and told from another.
    pub open spec fn path(&self) -> Seq<PartKey<Seq<char>>> {
        self.parts@.map_values(|part: PathPart| part_key(part))
    }
}

fn leads(a: &StartupTarget, b: &StartupTarget) -> (yes: bool)
    ensures
        yes == path_before(a.path(), b.path()),
{
    let ghost p = a.path();
    let ghost q = b.path();
    let mut i: usize = 0;
    assert(p.skip(0) =~= p);
    assert(q.skip(0) =~= q);
    while i < a.parts.len() && i < b.parts.len()
        invariant
            p == a.path(),
            q == b.path(),
            i <= a.parts@.len(),
            i <= b.parts@.len(),
            path_before(p, q) == path_before(p.skip(i as int), q.skip(i as int)),
        decreases a.parts@.len() - i,
    {
        assert(p.skip(i as int)[0] == part_key(a.parts@[i as int]));
        assert(q.skip(i as int)[0] == part_key(b.parts@[i as int]));
        let x = key_of(&a.parts[i]);
        let y = key_of(&b.parts[i]);
        if x.rank != y.rank {
            return x.rank < y.rank;
        }
        if !same(x.first.as_str(), y.first.as_str()) {
            return goes_before(x.first.as_str(), y.first.as_str());
        }
        if !same(x.second.as_str(), y.second.as_str()) {
            return goes_before(x.second.as_str(), y.second.as_str());
        }
        assert(p.skip(i as int).drop_first() =~= p.skip(i + 1));
        assert(q.skip(i as int).drop_first() =~= q.skip(i + 1));
        i = i + 1;
    }
    i < b.parts.len()
}

/// Whether no earlier place has the path of the place at `k`.
pub open spec fn first_of_its_path(targets: Seq<StartupTarget>, k: int) -> bool {
    forall|j: int| 0 <= j < k ==> (#[trigger] targets[j]).path() != targets[k].path()
}

/// Whether the place at `k` is checked: it is not a repetition of an earlier one,
/// and it is kept.
pub open spec fn checked(targets: Seq<StartupTarget>, k: int) -> bool {
    &&& 0 <= k < targets.len()
    &&& first_of_its_path(targets, k)
    &&& kept_target(targets[k].own, targets[k].excluded, targets[k].cached_clean)
}

/// Whether these places stand in the order of their paths, none twice.
pub open spec fn in_path_order(order: Seq<usize>, targets: Seq<StartupTarget>) -> bool {
    forall|i: int, j: int|
        0 <= i < j < order.len() ==> path_before(
            targets[(#[trigger] order[i]) as int].path(),
            targets[(#[trigger] order[j]) as int].path(),
        )
}

/// Choose what is checked: which of the places, in the order of their paths, each
/// path once.
pub fn choose_targets(targets: &Vec<StartupTarget>) -> (order: Vec<usize>)
    ensures
        in_path_order(order@, targets@),
        forall|k: usize| #[trigger] order@.contains(k) <==> checked(targets@, k as int),
{
    // The first place of each path, in order, whether or not it is kept.
    let mut firsts: Vec<usize> = Vec::new();
    let mut k: usize = 0;
    while k < targets.len()
        invariant
            k <= targets@.len(),
            in_path_order(firsts@, targets@),
            forall|x: usize| #[trigger]
                firsts@.contains(x) <==> x < k && first_of_its_path(targets@, x as int),
        decreases targets@.len() - k,
    {
        let ghost old_firsts = firsts@;
        assert forall|i: int| 0 <= i < firsts@.len() implies (#[trigger] firsts@[i]) < k by {
            assert(firsts@.contains(firsts@[i]));
        }
        let mut at: usize = firsts.len();
        while at > 0 && leads(&targets[k], &targets[firsts[at - 1]])
            invariant
                k < targets@.len(),
                firsts@ == old_firsts,
                at <= firsts@.len(),
                forall|i: int| 0 <= i < firsts@.len() ==> (#[trigger] firsts@[i]) < k,
                forall|i: int|
                    at <= i < firsts@.len() ==> path_before(
                        targets@[k as int].path(),
                        targets@[(#[trigger] firsts@[i]) as int].path(),
                    ),
            decreases at,
        {
            at = at - 1;
        }
        let repeated = at > 0 && !leads(&targets[firsts[at - 1]], &targets[k]);
        let ghost x = targets@[k as int].path();
        if repeated {
            proof {
                let y = targets@[old_firsts[at - 1] as int].path();
                lemma_path_total(x, y);
                assert(x == y);
                assert(!first_of_its_path(targets@, k as int));
                assert forall|z: usize| #[trigger]
                    firsts@.contains(z) <==> z < k + 1 && first_of_its_path(
                        targets@,
                        z as int,
                    ) by {}
            }
        } else {
            proof {
                if at > 0 {
                    let y = targets@[old_firsts[at - 1] as int].path();
                    assert(path_before(y, x));
                    assert forall|i: int| 0 <= i < at implies path_before(
                        targets@[(#[trigger] old_firsts[i]) as int].path(),
                        x,
                    ) by {
                        if i < at - 1 {
                            lemma_path_transitive(
                                targets@[old_firsts[i] as int].path(),
                                y,
                                x,
                            );
                        }
                    }
                }
                lemma_path_total(x, x);
                lemma_new_path_is_first(old_firsts, targets@, k as int);
            }
            firsts.insert(at, k);
            proof {
                assert forall|i: int, j: int| 0 <= i < j < firsts@.len() implies path_before(
                    targets@[(#[trigger] firsts@[i]) as int].path(),
                    targets@[(#[trigger] firsts@[j]) as int].path(),
                ) by {
                    let a = if i < at {
                        i
                    } else {
                        i - 1
                    };
                    let b = if j < at {
                        j
                    } else {
                        j - 1
                    };
                    if i != at {
                        assert(firsts@[i] == old_firsts[a]);
                    }
                    if j != at {
                        assert(firsts@[j] == old_firsts[b]);
                    }
                }
                assert forall|z: usize| #[trigger]
                    firsts@.contains(z) <==> z < k + 1 && first_of_its_path(
                        targets@,
                        z as int,
                    ) by {
                    lemma_insert_contains(old_firsts, at as int, k, z);
                }
            }
        }
        k = k + 1;
    }
    let mut order: Vec<usize> = Vec::new();
    let mut i: usize = 0;
    while i < firsts.len()
        invariant
            k == targets@.len(),
            i <= firsts@.len(),
            in_path_order(firsts@, targets@),
            forall|x: usize| #[trigger]
                firsts@.contains(x) <==> x < k && first_of_its_path(targets@, x as int),
            in_path_order(order@, targets@),
            forall|x: usize| #[trigger]
                order@.contains(x) <==> firsts@.take(i as int).contains(x) && checked(
                    targets@,
                    x as int,
                ),
        decreases firsts@.len() - i,
    {
        let ghost old_order = order@;
        let at: usize = firsts[i];
        assert(firsts@.contains(at));
        let target = &targets[at];
        let keep = keep_target(target.own, target.excluded, target.cached_clean);
        assert(keep == checked(targets@, at as int));
        if keep {
            order.push(at);
            proof {
                assert forall|a: int, b: int| 0 <= a < b < order@.len() implies path_before(
                    targets@[(#[trigger] order@[a]) as int].path(),
                    targets@[(#[trigger] order@[b]) as int].path(),
                ) by {
                    if b == old_order.len() {
                        assert(old_order.contains(old_order[a]));
                        let m = choose|m: int|
                            0 <= m < i && firsts@.take(i as int)[m] == old_order[a];
                        assert(firsts@[m] == order@[a]);
                        assert(firsts@[i as int] == order@[b]);
                    }
                }
            }
        }
        proof {
            assert forall|x: usize| #[trigger]
                order@.contains(x) <==> firsts@.take(i + 1).contains(x) && checked(
                    targets@,
                    x as int,
                ) by {
                assert(firsts@.take(i + 1) =~= firsts@.take(i as int).push(at));
                lemma_push_contains(firsts@.take(i as int), at, x);
                if keep {
                    lemma_push_contains(old_order, at, x);
                }
            }
        }
        i = i + 1;
    }
    assert(firsts@.take(firsts@.len() as int) =~= firsts@);
    order
}

proof fn lemma_push_contains(s: Seq<usize>, a: usize, x: usize)
    ensures
        s.push(a).contains(x) <==> s.contains(x) || x == a,
{
    if s.contains(x) {
        let i = choose|i: int| 0 <= i < s.len() && s[i] == x;
        assert(s.push(a)[i] == x);
    }
    assert(s.push(a)[s.len() as int] == a);
}

proof fn lemma_insert_contains(s: Seq<usize>, at: int, a: usize, x: usize)
    requires
        0 <= at <= s.len(),
    ensures
        s.insert(at, a).contains(x) <==> s.contains(x) || x == a,
{
    let t = s.insert(at, a);
    if s.contains(x) {
        let i = choose|i: int| 0 <= i < s.len() && s[i] == x;
        if i < at {
            assert(t[i] == x);
        } else {
            assert(t[i + 1] == x);
        }
    }
    assert(t[at] == a);
    if t.contains(x) {
        let i = choose|i: int| 0 <= i < t.len() && t[i] == x;
        if i < at {
            assert(s[i] == x);
        } else if i > at {
            assert(s[i - 1] == x);
        }
    }
}

/// A path that is none of the first ones so far is a first one itself.
proof fn lemma_new_path_is_first(firsts: Seq<usize>, targets: Seq<StartupTarget>, k: int)
    requires
        0 <= k < targets.len() <= usize::MAX,
        forall|x: usize| #[trigger]
            firsts.contains(x) <==> x < k && first_of_its_path(targets, x as int),
        forall|i: int|
            0 <= i < firsts.len() ==> targets[(#[trigger] firsts[i]) as int].path()
                != targets[k].path(),
    ensures
        first_of_its_path(targets, k),
{
    assert forall|j: int| 0 <= j < k implies (#[trigger] targets[j]).path() != targets[k].path() by {
        if targets[j].path() == targets[k].path() {
            let m = lemma_earliest(targets, j);
            assert(firsts.contains(m as usize));
            let i = choose|i: int| 0 <= i < firsts.len() && firsts[i] == m as usize;
            assert(targets[firsts[i] as int].path() == targets[k].path());
        }
    }
}

proof fn lemma_earliest(targets: Seq<StartupTarget>, j: int) -> (m: int)
    requires
        0 <= j < targets.len(),
    ensures
        0 <= m <= j,
        targets[m].path() == targets[j].path(),
        first_of_its_path(targets, m),
    decreases j,
{
    if first_of_its_path(targets, j) {
        j
    } else {
        let i = choose|i: int| 0 <= i < j && (#[trigger] targets[i]).path() == targets[j].path();
        lemma_earliest(targets, i)
    }
}

/// Largest file that is checked, in bytes.
pub const STARTUP_MAX_SIZE: u64 = 104_857_600;

/// What to do about a file.
#[derive(Debug, Clone, Copy, PartialEq, Eq, Structural)]
pub enum StartupStep {
    /// Sleep ten seconds and leave the file to the idle scanner.
    Yield,
    Skip,
    Scan,
}

/// What happens to a file under this pressure, given whether it is still a file
/// and its size where that could be read.
pub open spec fn startup_step(
    pressure: PressureState,
    is_file: bool,
    size: Option<u64>,
) -> StartupStep {
    if under_pressure(pressure) {
        StartupStep::Yield
    } else if !is_file || size == Some(0u64) || (size matches Some(n) && n > STARTUP_MAX_SIZE) {
        StartupStep::Skip
    } else {
        StartupStep::Scan
    }
}

/// The check so far.
#[derive(Debug, Clone, Copy, PartialEq, Eq, Structural)]
pub struct StartupCheck {
    pub scanned: u64,
    pub threats: u64,
}

/// The entry with which the check of `files` files begins; the only one where
/// there is nothing to check.
pub open spec fn opening(files: nat) -> ActivityEvent<Seq<char>> {
    if files == 0 {
        ActivityEvent {
            severity: "info"@,
            category: "system"@,
            title: "Startup check: all clear"@,
            message: "Critical areas verified"@,
            scan_id: None::<Seq<char>>,
        }
    } else {
        ActivityEvent {
            severity: "info"@,
            category: "system"@,
            title: "Performing startup protection verification... ("@ + decimal(files)
                + " files)"@,
            message: "Post-boot critical areas check"@,
            scan_id: None::<Seq<char>>,
        }
    }
}

/// The entry with which it ends.
pub open spec fn closing(c: StartupCheck) -> ActivityEvent<Seq<char>> {
    ActivityEvent {
        severity: if c.threats > 0 {
            "warning"@
        } else {
            "info"@
        },
        category: "system"@,
        title: if c.threats > 0 {
            "Startup check: "@ + decimal(c.threats as nat) + " threat(s) found in "@ + decimal(
                c.scanned as nat,
            ) + " files"@
        } else {
            "Startup verification complete: "@ + decimal(c.scanned as nat)
                + " critical files clean"@
        },
        message: "Post-boot critical areas verification"@,
        scan_id: None::<Seq<char>>,
    }
}

impl StartupCheck {
    pub fn new() -> (check: Self)
        ensures
            check == (StartupCheck { scanned: 0, threats: 0 }),
    {
        StartupCheck { scanned: 0, threats: 0 }
    }

    /// Announce the check.
    pub fn announce(files: usize) -> (event: ActivityEvent)
        ensures
            event@ == opening(files as nat),
    {
        if files == 0 {
            ActivityEvent::general(
                "info",
                "system",
                "Startup check: all clear".to_owned(),
                "Critical areas verified",
            )
        } else {
            let mut title = "Performing startup protection verification... (".to_owned();
            title.append(decimal_text(files as u64).as_str());
            title.append(" files)");
            ActivityEvent::general("info", "system", title, "Post-boot critical areas check")
        }
    }

    /// Decide about a file.
    pub fn before_file(pressure: PressureState, is_file: bool, size: Option<u64>) -> (step:
        StartupStep)
        ensures
            step == startup_step(pressure, is_file, size),
    {
        if matches!(pressure, PressureState::Warning | PressureState::Critical) {
            return StartupStep::Yield;
        }
        if !is_file {
            return StartupStep::Skip;
        }
        if let Some(n) = size {
            if n > STARTUP_MAX_SIZE || n == 0 {
                return StartupStep::Skip;
            }
        }
        StartupStep::Scan
    }

    /// Conclude on a file: the name of the threat to quarantine it for, if it is
    /// one; else it is remembered as clean.
    pub fn conclude(&mut self, clamav: &ClamResult, argus: &ArgusVerdict, exclusions: &[String]) -> (
    threat: Option<String>)
        requires
            old(self).scanned < u64::MAX,
            old(self).threats <= old(self).scanned,
        ensures
            owned_view(threat) == united(
                clamav.infected,
                owned_view(clamav.virus_name),
                *argus,
                exclusions@,
            ),
            final(self).scanned == old(self).scanned + 1,
            final(self).threats == old(self).threats + if threat is Some {
                1int
            } else {
                0int
            },
            final(self).threats <= final(self).scanned,
    {
        let name = match &clamav.virus_name {
            Some(name) => Some(name.as_str()),
            None => None,
        };
        self.scanned = self.scanned + 1;
        let (is_threat, threat) = unify_detection_filtered(
            clamav.infected,
            name,
            argus,
            exclusions,
        );
        if is_threat {
            self.threats = self.threats + 1;
        }
        threat
    }

    /// Sum up the check.
    pub fn finish(&self) -> (event: ActivityEvent)
        ensures
            event@ == closing(*self),
    {
        if self.threats > 0 {
            let mut title = "Startup check: ".to_owned();
            title.append(decimal_text(self.threats).as_str());
            title.append(" threat(s) found in ");
            title.append(decimal_text(self.scanned).as_str());
            title.append(" files");
            ActivityEvent::general(
                "warning",
                "system",
                title,
                "Post-boot critical areas verification",
            )
        } else {
            let mut title = "Startup verification complete: ".to_owned();
            title.append(decimal_text(self.scanned).as_str());
            title.append(" critical files clean");
            ActivityEvent::general(
                "info",
                "system",
                title,
                "Post-boot critical areas verification",
            )
        }
    }
}

/// No path is checked twice.
pub proof fn no_path_is_checked_twice(
    order: Seq<usize>,
    targets: Seq<StartupTarget>,
    i: int,
    j: int,
)
    requires
        in_path_order(order, targets),
        0 <= i < j < order.len(),
    ensures
        targets[order[i] as int].path() != targets[order[j] as int].path(),
{
    lemma_path_total(targets[order[i] as int].path(), targets[order[i] as int].path());
}

/// Under pressure no file is scanned.
pub proof fn startup_check_yields(pressure: PressureState, is_file: bool, size: Option<u64>)
    requires
        under_pressure(pressure),
    ensures
        startup_step(pressure, is_file, size) is Yield,
{
}

/// What runs on its own are programs, screen savers, scripts and installers.
pub proof fn launchable_kinds_are_these(lower: Seq<char>)
    ensures
        one_of(lower, launchable()) <==> lower == "exe"@ || lower == "scr"@ || lower == "bat"@
            || lower == "cmd"@ || lower == "ps1"@ || lower == "vbs"@ || lower == "msi"@,
{
    let words = launchable();
    assert(words[0]@ == "exe"@);
    assert(words[1]@ == "scr"@);
    assert(words[2]@ == "bat"@);
    assert(words[3]@ == "cmd"@);
    assert(words[4]@ == "ps1"@);
    assert(words[5]@ == "vbs"@);
    assert(words[6]@ == "msi"@);
}

/// A temporary file is looked at where it runs on its own, in any case of its
/// extension, and was changed within the last day.
pub proof fn fresh_programs_are_looked_at(
    is_file: bool,
    extension: Option<Seq<char>>,
    modified: Option<u128>,
    now: u128,
)
    ensures
        !is_file ==> !temporary_target(is_file, extension, modified, now),
        extension is None ==> !temporary_target(is_file, extension, modified, now),
        modified is None ==> !temporary_target(is_file, extension, modified, now),
        (modified matches Some(t) && now > t + 86_400_000_000_000) ==> !temporary_target(
            is_file,
            extension,
            modified,
            now,
        ),
        is_file && (extension matches Some(e) && lowercased(e) == "exe"@) && (modified matches Some(
            t,
        ) && now <= t + 86_400_000_000_000) ==> temporary_target(is_file, extension, modified, now),
        (extension matches Some(e) && !one_of(lowercased(e), launchable())) ==> !temporary_target(
            is_file,
            extension,
            modified,
            now,
        ),
        is_file && (extension matches Some(e) && one_of(lowercased(e), launchable())) && (
        modified matches Some(t) && now <= t + 86_400_000_000_000) ==> temporary_target(
            is_file,
            extension,
            modified,
            now,
        ),
{
    if extension is Some {
        launchable_kinds_are_these(lowercased(extension->0));
    }
}

/// A place is left out where it is our own, excluded or known to be clean, and for no
/// other reason.
pub proof fn unknown_places_are_kept(own: bool, excluded: bool, cached_clean: Option<bool>)
    ensures
        own || excluded ==> !kept_target(own, excluded, cached_clean),
        cached_clean == Some(true) ==> !kept_target(own, excluded, cached_clean),
        !own && !excluded && (cached_clean is None || cached_clean == Some(false)) ==> kept_target(
            own,
            excluded,
            cached_clean,
        ),
{
}

/// A place that is neither ours, excluded nor known to be clean is checked, where it
/// is not a repetition; and only such a place is.
pub proof fn every_plain_place_is_checked(targets: Seq<StartupTarget>, k: int)
    requires
        0 <= k < targets.len(),
    ensures
        checked(targets, k) ==> !targets[k].own && !targets[k].excluded && targets[k].cached_clean
            != Some(true),
        !targets[k].own && !targets[k].excluded && targets[k].cached_clean != Some(true) && (forall|
            j: int,
        |
            0 <= j < k ==> (#[trigger] targets[j]).path() != targets[k].path()) ==> checked(
            targets,
            k,
        ),
        k == 0 ==> first_of_its_path(targets, k),
{
}

/// A file is checked without pressure, where it is a file, not empty and of a hundred
/// megabytes at most, also where its size is not known.
pub proof fn small_files_are_checked(pressure: PressureState, is_file: bool, size: Option<u64>)
    ensures
        ({
            let pressed = pressure is Warning || pressure is Critical;
            let step = startup_step(pressure, is_file, size);
            &&& step is Yield <==> pressed
            &&& step is Scan <==> !pressed && is_file && (size matches Some(n) ==> 0 < n <= 100
                * 1024 * 1024)
            &&& step is Skip <==> !pressed && !(is_file && (size matches Some(n) ==> 0 < n <= 100
                * 1024 * 1024))
        }),
{
}

/// The check announces how many files it looks at, and where there are none that all
/// is clear; in the end it warns of threats and tells their number.
pub proof fn startup_check_is_told(files: nat, c: StartupCheck)
    ensures
        files == 0 ==> opening(files).title == "Startup check: all clear"@,
        files > 0 ==> opening(files).title
            == "Performing startup protection verification... ("@ + decimal(files) + " files)"@,
        opening(files).severity == "info"@ && opening(files).category == "system"@,
        c.threats > 0 ==> closing(c).severity == "warning"@ && closing(c).title
            == "Startup check: "@ + decimal(c.threats as nat) + " threat(s) found in "@ + decimal(
            c.scanned as nat,
        ) + " files"@,
        c.threats == 0 ==> closing(c).severity == "info"@ && closing(c).title
            == "Startup verification complete: "@ + decimal(c.scanned as nat)
            + " critical files clean"@,
        closing(c).category == "system"@,
{
}

/// Paths stand in one order: of two different ones exactly one goes first.
pub proof fn paths_stand_in_one_order(
    a: Seq<PartKey<Seq<char>>>,
    b: Seq<PartKey<Seq<char>>>,
    c: Seq<PartKey<Seq<char>>>,
)
    ensures
        a != b ==> path_before(a, b) || path_before(b, a),
        !path_before(a, a),
        path_before(a, b) && path_before(b, c) ==> path_before(a, c),
{
    lemma_path_total(a, b);
    lemma_path_total(a, a);
    if path_before(a, b) && path_before(b, c) {
        lemma_path_transitive(a, b, c);
    }
}

/// A directory goes before what it holds, and what two directories hold stands in the
/// order of the directories.
pub proof fn directories_go_before_their_files(
    dir: Seq<PartKey<Seq<char>>>,
    a: PartKey<Seq<char>>,
    b: PartKey<Seq<char>>,
)
    ensures
        path_before(dir, dir.push(a)),
        a.rank < b.rank ==> path_before(dir.push(a), dir.push(b)),
        a.rank == b.rank && text_before(a.first, b.first) ==> path_before(
            dir.push(a),
            dir.push(b),
        ),
    decreases dir.len(),
{
    lemma_text_total(a.first, b.first);
    if dir.len() > 0 {
        let rest = dir.drop_first();
        directories_go_before_their_files(rest, a, b);
        assert(dir.push(a)[0] == dir[0]);
        assert(dir.push(b)[0] == dir[0]);
        assert(dir.push(a).drop_first() =~= rest.push(a));
        assert(dir.push(b).drop_first() =~= rest.push(b));
    } else {
        assert(dir.push(a)[0] == a);
        assert(dir.push(b)[0] == b);
    }
}

/// Texts are ordered by their first different character.
pub proof fn texts_are_ordered_by_their_first_difference(
    front: Seq<char>,
    x: char,
    y: char,
    a: Seq<char>,
    b: Seq<char>,
)
    ensures
        x < y ==> text_before(front + seq![x] + a, front + seq![y] + b),
        text_before(front, front + seq![x] + a),
    decreases front.len(),
{
    let s = front + seq![x] + a;
    let t = front + seq![y] + b;
    if front.len() > 0 {
        let rest = front.drop_first();
        texts_are_ordered_by_their_first_difference(rest, x, y, a, b);
        assert(s[0] == front[0] && t[0] == front[0]);
        assert(s.drop_first() =~= rest + seq![x] + a);
        assert(t.drop_first() =~= rest + seq![y] + b);
    } else {
        assert(s[0] == x && t[0] == y);
    }
}

/// Drives are the same in any case of their letter, names are not; a prefix goes
/// before the root, and the root before a name.
pub proof fn drives_have_no_case(a: String, b: String)
    ensures
        part_key(PathPart::Drive(a)) == part_key(PathPart::Drive(b)) <==> lower_ascii(a@)
            == lower_ascii(b@),
        part_key(PathPart::Name(a)) == part_key(PathPart::Name(b)) <==> a@ == b@,
        part_before(part_key(PathPart::Drive(a)), part_key(PathPart::Root)),
        part_before(part_key(PathPart::Root), part_key(PathPart::Name(b))),
        part_before(part_key(PathPart::Verbatim(a)), part_key(PathPart::Drive(b))),
        part_before(part_key(PathPart::Current), part_key(PathPart::Parent)),
        part_before(part_key(PathPart::Parent), part_key(PathPart::Name(a))),
{
}

/// Prefixes go before the root, the root before the dots, and these before names; parts
/// of one sort are told apart by their texts.
pub proof fn prefixes_go_before_names(a: PathPart, b: PathPart)
    ensures
        !(a is Name) && b is Name ==> part_before(part_key(a), part_key(b)),
        b is Root && !(a is Root || a is Current || a is Parent || a is Name) ==> part_before(
            part_key(a),
            part_key(b),
        ),
        a is Root && (b is Current || b is Parent) ==> part_before(part_key(a), part_key(b)),
        a is Current && b is Parent ==> part_before(part_key(a), part_key(b)),
        (a is Verbatim || a is VerbatimShare || a is VerbatimDrive) && (b is Device || b is Share
            || b is Drive) ==> part_before(part_key(a), part_key(b)),
        a is Verbatim && (b is VerbatimShare || b is VerbatimDrive) ==> part_before(
            part_key(a),
            part_key(b),
        ),
        a is VerbatimShare && b is VerbatimDrive ==> part_before(part_key(a), part_key(b)),
        a is Device && (b is Share || b is Drive) ==> part_before(part_key(a), part_key(b)),
        a is Share && b is Drive ==> part_before(part_key(a), part_key(b)),
        a is Name && b is Name ==> (part_key(a) == part_key(b) <==> a->Name_0@ == b->Name_0@),
{
}

/// The end of the check tells its threats, or that all was clean.
pub proof fn end_of_the_check_tells_its_threats(c: StartupCheck)
    ensures
        c.threats > 0 ==> closing(c).severity == "warning"@ && closing(c).title
            == "Startup check: "@ + decimal(c.threats as nat) + " threat(s) found in "@ + decimal(
            c.scanned as nat,
        ) + " files"@,
        c.threats == 0 ==> closing(c).severity == "info"@ && closing(c).title
            == "Startup verification complete: "@ + decimal(c.scanned as nat)
            + " critical files clean"@,
{
}

} // verus!
