//! The real-time watcher: what it watches and when it is restarted.

use crate::scan::job::ActivityEvent;
use crate::text::{
    contains, decimal, decimal_text, eq_ignore_ascii_case, join, joined, lower_ascii, lowercased,
    occurs, same, same_ignoring_case, text_view, texts, to_ascii_lowercase, to_lowercase,
};
use vstd::prelude::*;

verus! {

/// Most directories that are watched.
pub const MAX_ROOTS: usize = 128;

/// A directory and whether it is there.
#[derive(Debug)]
pub struct Place {
    pub path: String,
    pub present: bool,
}

/// Whether a path lies in the service account's own profile, which stands in
/// for a user's where the daemon runs as a service.
pub open spec fn in_service_profile(path: Seq<char>) -> bool {
    occurs("\\config\\systemprofile\\"@, lower_ascii(path))
}

/// The configured directories that can be watched.
pub open spec fn usable(places: Seq<Place>) -> Seq<Seq<char>>
    decreases places.len(),
{
    if places.len() == 0 {
        Seq::empty()
    } else {
        let before = usable(places.drop_last());
        let p = places.last();
        if p.present && !in_service_profile(p.path@) {
            before.push(p.path@)
        } else {
            before
        }
    }
}

/// The directories that are there.
pub open spec fn present(places: Seq<Place>) -> Seq<Seq<char>>
    decreases places.len(),
{
    if places.len() == 0 {
        Seq::empty()
    } else if places.last().present {
        present(places.drop_last()).push(places.last().path@)
    } else {
        present(places.drop_last())
    }
}

/// Directories that are always watched.
pub open spec fn system_roots(program_data: Option<Seq<char>>, temp: Option<Seq<char>>) -> Seq<
    Seq<char>,
> {
    seq![
        match program_data {
            Some(p) => p,
            None => "C:\\ProgramData"@,
        },
    ] + (match temp {
        Some(t) => seq![t],
        None => Seq::empty(),
    }) + seq!["C:\\Windows\\Temp"@]
}

/// Whether a directory belongs to a user's documents.
pub open spec fn personal(path: Seq<char>) -> bool {
    let s = lower_ascii(path);
    occurs("\\downloads"@, s) || occurs("\\desktop"@, s) || occurs("\\documents"@, s)
}

pub open spec fn any_personal(roots: Seq<Seq<char>>) -> bool {
    exists|i: int| 0 <= i < roots.len() && personal(#[trigger] roots[i])
}

/// A user's profile, with the directories in it that may be watched.
pub struct Profile {
    pub name: String,
    pub places: Vec<Place>,
}

/// Profiles that belong to nobody.
pub open spec fn is_template_profile(name: Seq<char>) -> bool {
    ||| same_ignoring_case("Default"@, name)
    ||| same_ignoring_case("Default User"@, name)
    ||| same_ignoring_case("Public"@, name)
    ||| same_ignoring_case("All Users"@, name)
    ||| same_ignoring_case("defaultuser0"@, name)
    ||| same_ignoring_case("WDAGUtilityAccount"@, name)
}

fn template_profile(name: &str) -> (yes: bool)
    ensures
        yes == is_template_profile(name@),
{
    eq_ignore_ascii_case("Default", name) || eq_ignore_ascii_case("Default User", name)
        || eq_ignore_ascii_case("Public", name) || eq_ignore_ascii_case("All Users", name)
        || eq_ignore_ascii_case("defaultuser0", name) || eq_ignore_ascii_case(
        "WDAGUtilityAccount",
        name,
    )
}

/// The directories of all users.
pub open spec fn user_roots(profiles: Seq<Profile>) -> Seq<Seq<char>>
    decreases profiles.len(),
{
    if profiles.len() == 0 {
        Seq::empty()
    } else {
        let before = user_roots(profiles.drop_last());
        let p = profiles.last();
        if is_template_profile(p.name@) {
            before
        } else {
            before + present(p.places@)
        }
    }
}

/// The roots with those of `places` that are there and not among them yet.
pub open spec fn with_missing(roots: Seq<Seq<char>>, places: Seq<Place>) -> Seq<Seq<char>>
    decreases places.len(),
{
    if places.len() == 0 {
        roots
    } else {
        let before = with_missing(roots, places.drop_last());
        let p = places.last();
        if p.present && !before.contains(p.path@) {
            before.push(p.path@)
        } else {
            before
        }
    }
}

/// The home of the process, with the directories in it that may be watched.
pub struct Home {
    pub path: String,
    pub places: Vec<Place>,
}

/// The candidates for watching, in order. The users' directories are looked up
/// only where nothing personal is configured.
pub open spec fn candidates(
    configured: Seq<Place>,
    program_data: Option<Seq<char>>,
    temp: Option<Seq<char>>,
    profiles: Seq<Profile>,
    home: Option<Home>,
) -> Seq<Seq<char>> {
    let base = usable(configured) + system_roots(program_data, temp);
    let all = if any_personal(base) {
        base
    } else {
        base + user_roots(profiles)
    };
    match home {
        Some(h) => if occurs("\\config\\systemprofile"@, lower_ascii(h.path@)) {
            all
        } else {
            with_missing(all, h.places@)
        },
        None => all,
    }
}

proof fn lemma_texts_push(list: Seq<String>, item: String)
    ensures
        texts(list.push(item)) == texts(list).push(item@),
{
    assert(texts(list.push(item)) =~= texts(list).push(item@));
}

fn add_present(roots: &mut Vec<String>, places: &Vec<Place>)
    ensures
        texts(final(roots)@) == texts(old(roots)@) + present(places@),
{
    let ghost before = texts(roots@);
    let mut i: usize = 0;
    assert(places@.take(0) =~= Seq::<Place>::empty());
    assert(texts(roots@) =~= before + present(places@.take(0)));
    while i < places.len()
        invariant
            i <= places@.len(),
            texts(roots@) == before + present(places@.take(i as int)),
        decreases places@.len() - i,
    {
        assert(places@.take(i + 1).drop_last() =~= places@.take(i as int));
        if places[i].present {
            let path = places[i].path.clone();
            proof {
                lemma_texts_push(roots@, path);
                assert((before + present(places@.take(i as int))).push(path@) =~= before + present(
                    places@.take(i + 1),
                ));
            }
            roots.push(path);
        }
        i = i + 1;
    }
    assert(places@.take(places@.len() as int) =~= places@);
}

fn usable_roots(places: &Vec<Place>) -> (roots: Vec<String>)
    ensures
        texts(roots@) == usable(places@),
{
    let mut roots: Vec<String> = Vec::new();
    let mut i: usize = 0;
    assert(places@.take(0) =~= Seq::<Place>::empty());
    assert(texts(roots@) =~= usable(places@.take(0)));
    while i < places.len()
        invariant
            i <= places@.len(),
            texts(roots@) == usable(places@.take(i as int)),
        decreases places@.len() - i,
    {
        assert(places@.take(i + 1).drop_last() =~= places@.take(i as int));
        let lower = to_ascii_lowercase(places[i].path.as_str());
        if places[i].present && !contains(lower.as_str(), "\\config\\systemprofile\\") {
            let path = places[i].path.clone();
            proof {
                lemma_texts_push(roots@, path);
            }
            roots.push(path);
        }
        i = i + 1;
    }
    assert(places@.take(places@.len() as int) =~= places@);
    roots
}

fn has_personal(roots: &Vec<String>) -> (yes: bool)
    ensures
        yes == any_personal(texts(roots@)),
{
    let mut i: usize = 0;
    while i < roots.len()
        invariant
            i <= roots@.len(),
            forall|j: int| 0 <= j < i ==> !personal(#[trigger] texts(roots@)[j]),
        decreases roots@.len() - i,
    {
        let lower = to_ascii_lowercase(roots[i].as_str());
        let s = lower.as_str();
        assert(texts(roots@)[i as int] == roots@[i as int]@);
        if contains(s, "\\downloads") || contains(s, "\\desktop") || contains(s, "\\documents") {
            assert(personal(texts(roots@)[i as int]));
            return true;
        }
        i = i + 1;
    }
    assert(texts(roots@).len() == roots@.len());
    false
}

fn contains_root(roots: &Vec<String>, path: &str) -> (yes: bool)
    ensures
        yes == texts(roots@).contains(path@),
{
    let mut i: usize = 0;
    while i < roots.len()
        invariant
            i <= roots@.len(),
            forall|j: int| 0 <= j < i ==> #[trigger] texts(roots@)[j] != path@,
        decreases roots@.len() - i,
    {
        assert(texts(roots@)[i as int] == roots@[i as int]@);
        if same(roots[i].as_str(), path) {
            return true;
        }
        i = i + 1;
    }
    assert(texts(roots@).len() == roots@.len());
    false
}

fn add_missing(roots: &mut Vec<String>, places: &Vec<Place>)
    ensures
        texts(final(roots)@) == with_missing(texts(old(roots)@), places@),
{
    let ghost before = texts(roots@);
    let mut i: usize = 0;
    assert(places@.take(0) =~= Seq::<Place>::empty());
    while i < places.len()
        invariant
            i <= places@.len(),
            texts(roots@) == with_missing(before, places@.take(i as int)),
        decreases places@.len() - i,
    {
        assert(places@.take(i + 1).drop_last() =~= places@.take(i as int));
        if places[i].present && !contains_root(roots, places[i].path.as_str()) {
            let path = places[i].path.clone();
            proof {
                lemma_texts_push(roots@, path);
            }
            roots.push(path);
        }
        i = i + 1;
    }
    assert(places@.take(places@.len() as int) =~= places@);
}

/// Collect the directories that may be watched.
pub fn candidate_roots(
    configured: &Vec<Place>,
    program_data: Option<&str>,
    temp: Option<&str>,
    profiles: &Vec<Profile>,
    home: &Option<Home>,
) -> (roots: Vec<String>)
    ensures
        texts(roots@) == candidates(
            configured@,
            text_view(program_data),
            text_view(temp),
            profiles@,
            *home,
        ),
{
    let mut roots = usable_roots(configured);
    let ghost from_config = texts(roots@);
    let data_dir = match program_data {
        Some(p) => p.to_owned(),
        None => "C:\\ProgramData".to_owned(),
    };
    proof {
        lemma_texts_push(roots@, data_dir);
    }
    roots.push(data_dir);
    match temp {
        Some(t) => {
            let dir = t.to_owned();
            proof {
                lemma_texts_push(roots@, dir);
            }
            roots.push(dir);
        },
        None => {},
    }
    let windows_temp = "C:\\Windows\\Temp".to_owned();
    proof {
        lemma_texts_push(roots@, windows_temp);
    }
    roots.push(windows_temp);
    let ghost base = usable(configured@) + system_roots(text_view(program_data), text_view(temp));
    assert(texts(roots@) =~= base);
    if !has_personal(&roots) {
        let mut i: usize = 0;
        assert(profiles@.take(0) =~= Seq::<Profile>::empty());
        assert(texts(roots@) =~= base + user_roots(profiles@.take(0)));
        while i < profiles.len()
            invariant
                i <= profiles@.len(),
                texts(roots@) == base + user_roots(profiles@.take(i as int)),
            decreases profiles@.len() - i,
        {
            assert(profiles@.take(i + 1).drop_last() =~= profiles@.take(i as int));
            if !template_profile(profiles[i].name.as_str()) {
                add_present(&mut roots, &profiles[i].places);
                assert(texts(roots@) =~= base + user_roots(profiles@.take(i + 1)));
            }
            i = i + 1;
        }
        assert(profiles@.take(profiles@.len() as int) =~= profiles@);
    }
    match home {
        Some(h) => {
            let lower = to_ascii_lowercase(h.path.as_str());
            if !contains(lower.as_str(), "\\config\\systemprofile") {
                add_missing(&mut roots, &h.places);
            }
        },
        None => {},
    }
    roots
}

/// Whether one of `roots` is `path` but for the case.
pub open spec fn known_root(roots: Seq<Seq<char>>, path: Seq<char>) -> bool {
    exists|i: int| 0 <= i < roots.len() && lowercased(#[trigger] roots[i]) == lowercased(path)
}

/// The directories that are there, each once, whatever the case.
pub open spec fn distinct_roots(resolved: Seq<Place>) -> Seq<Seq<char>>
    decreases resolved.len(),
{
    if resolved.len() == 0 {
        Seq::empty()
    } else {
        let before = distinct_roots(resolved.drop_last());
        let p = resolved.last();
        if p.path@.len() > 0 && p.present && !known_root(before, p.path@) {
            before.push(p.path@)
        } else {
            before
        }
    }
}

/// The directories to watch.
pub open spec fn watched(resolved: Seq<Place>) -> Seq<Seq<char>> {
    let roots = distinct_roots(resolved);
    if roots.len() > MAX_ROOTS {
        roots.take(MAX_ROOTS as int)
    } else {
        roots
    }
}

fn is_known(roots: &Vec<String>, path: &str) -> (yes: bool)
    ensures
        yes == known_root(texts(roots@), path@),
{
    let key = to_lowercase(path);
    let mut i: usize = 0;
    while i < roots.len()
        invariant
            i <= roots@.len(),
            key@ == lowercased(path@),
            forall|j: int|
                0 <= j < i ==> lowercased(#[trigger] texts(roots@)[j]) != lowercased(path@),
        decreases roots@.len() - i,
    {
        assert(texts(roots@)[i as int] == roots@[i as int]@);
        let other = to_lowercase(roots[i].as_str());
        if other == key {
            assert(known_root(texts(roots@), path@));
            return true;
        }
        i = i + 1;
    }
    assert(texts(roots@).len() == roots@.len());
    false
}

/// Choose the directories to watch from the resolved candidates.
pub fn choose_roots(resolved: &Vec<Place>) -> (roots: Vec<String>)
    ensures
        texts(roots@) == watched(resolved@),
        roots@.len() <= MAX_ROOTS,
{
    let mut roots: Vec<String> = Vec::new();
    let mut i: usize = 0;
    assert(resolved@.take(0) =~= Seq::<Place>::empty());
    assert(texts(roots@) =~= distinct_roots(resolved@.take(0)));
    while i < resolved.len()
        invariant
            i <= resolved@.len(),
            texts(roots@) == distinct_roots(resolved@.take(i as int)),
        decreases resolved@.len() - i,
    {
        assert(resolved@.take(i + 1).drop_last() =~= resolved@.take(i as int));
        if !resolved[i].path.as_str().is_empty() && resolved[i].present && !is_known(
            &roots,
            resolved[i].path.as_str(),
        ) {
            let path = resolved[i].path.clone();
            proof {
                lemma_texts_push(roots@, path);
            }
            roots.push(path);
        }
        i = i + 1;
    }
    assert(resolved@.take(resolved@.len() as int) =~= resolved@);
    let ghost all = roots@;
    assert(texts(all).len() == all.len());
    if roots.len() > MAX_ROOTS {
        roots.truncate(MAX_ROOTS);
        assert(texts(roots@) =~= texts(all).take(MAX_ROOTS as int));
    }
    roots
}

/// No directory is watched twice, whatever the case of its name.
pub proof fn roots_are_distinct(resolved: Seq<Place>, i: int, j: int)
    requires
        0 <= i < j < watched(resolved).len(),
    ensures
        lowercased(watched(resolved)[i]) != lowercased(watched(resolved)[j]),
{
    lemma_distinct(resolved, i, j);
}

proof fn lemma_distinct(resolved: Seq<Place>, i: int, j: int)
    requires
        0 <= i < j < distinct_roots(resolved).len(),
    ensures
        lowercased(distinct_roots(resolved)[i]) != lowercased(distinct_roots(resolved)[j]),
    decreases resolved.len(),
{
    let before = distinct_roots(resolved.drop_last());
    let all = distinct_roots(resolved);
    if j < before.len() {
        lemma_distinct(resolved.drop_last(), i, j);
        assert(all[i] == before[i] && all[j] == before[j]);
    } else {
        assert(all[i] == before[i]);
        assert(!known_root(before, resolved.last().path@));
    }
}

/// The event of a watcher that has started.
pub fn watcher_started(names: &Vec<String>, count: usize) -> (event: ActivityEvent)
    ensures
        event@ == (ActivityEvent {
            severity: "info"@,
            category: "watcher"@,
            title: "Real-time protection started"@,
            message: "Monitoring "@ + decimal(count as nat) + " directories: "@ + joined(
                texts(names@),
                ", "@,
            ),
            scan_id: None,
        }),
{
    let mut message = "Monitoring ".to_owned();
    message.append(decimal_text(count as u64).as_str());
    message.append(" directories: ");
    message.append(join(names, ", ").as_str());
    ActivityEvent::general(
        "info",
        "watcher",
        "Real-time protection started".to_owned(),
        message.as_str(),
    )
}

/// The event of a watcher that could not be started.
pub fn watcher_failed(error: &str) -> (event: ActivityEvent)
    ensures
        event@ == (ActivityEvent {
            severity: "warning"@,
            category: "watcher"@,
            title: "Watcher failed to start"@,
            message: error@,
            scan_id: None,
        }),
{
    ActivityEvent::general("warning", "watcher", "Watcher failed to start".to_owned(), error)
}

/// Seconds without a heartbeat after which the watcher is restarted.
pub const WATCHER_STALL_SECS: u64 = 60;

/// Whether the watcher has to be restarted: it has beaten before, and not for a
/// minute, while it is supposed to run.
pub open spec fn stalled(user_disabled: bool, realtime_on: bool, last_beat: u64, now: u64) -> bool {
    !user_disabled && realtime_on && last_beat != 0 && now > last_beat + WATCHER_STALL_SECS
}

pub fn watcher_stalled(user_disabled: bool, realtime_on: bool, last_beat: u64, now: u64) -> (yes: bool)
    ensures
        yes == (!user_disabled && realtime_on && last_beat != 0 && now > last_beat
            + WATCHER_STALL_SECS),
        yes == stalled(user_disabled, realtime_on, last_beat, now),
{
    if user_disabled || !realtime_on {
        return false;
    }
    if last_beat == 0 || now < last_beat {
        return false;
    }
    now - last_beat > WATCHER_STALL_SECS
}

/// Whether a path names a directory of personal files, in lower case.
spec fn names_personal(lower: Seq<char>) -> bool {
    occurs("\\downloads"@, lower) || occurs("\\desktop"@, lower) || occurs("\\documents"@, lower)
}

/// Whether a name is that of a profile that belongs to nobody.
spec fn names_nobody(lower: Seq<char>) -> bool {
    lower == "default"@ || lower == "default user"@ || lower == "public"@ || lower == "all users"@
        || lower == "defaultuser0"@ || lower == "wdagutilityaccount"@
}

proof fn lemma_template_names(name: Seq<char>)
    ensures
        is_template_profile(name) <==> names_nobody(lower_ascii(name)),
{
    reveal_strlit("Default");
    reveal_strlit("Default User");
    reveal_strlit("Public");
    reveal_strlit("All Users");
    reveal_strlit("defaultuser0");
    reveal_strlit("WDAGUtilityAccount");
    reveal_strlit("default");
    reveal_strlit("default user");
    reveal_strlit("public");
    reveal_strlit("all users");
    reveal_strlit("wdagutilityaccount");
    assert(lower_ascii("Default"@) =~= "default"@);
    assert(lower_ascii("Default User"@) =~= "default user"@);
    assert(lower_ascii("Public"@) =~= "public"@);
    assert(lower_ascii("All Users"@) =~= "all users"@);
    assert(lower_ascii("defaultuser0"@) =~= "defaultuser0"@);
    assert(lower_ascii("WDAGUtilityAccount"@) =~= "wdagutilityaccount"@);
}

proof fn lemma_present(places: Seq<Place>, path: Seq<char>)
    ensures
        present(places).contains(path) <==> exists|k: int|
            0 <= k < places.len() && (#[trigger] places[k]).present && places[k].path@ == path,
    decreases places.len(),
{
    if places.len() > 0 {
        let rest = places.drop_last();
        lemma_present(rest, path);
        let n = places.len() - 1;
        if places[n].present {
            let all = present(places);
            assert(all =~= present(rest).push(places[n].path@));
            assert(all[all.len() - 1] == places[n].path@);
            if present(rest).contains(path) {
                let i = choose|i: int| 0 <= i < present(rest).len() && present(rest)[i] == path;
                assert(all[i] == path);
            }
        }
        if exists|k: int|
            0 <= k < rest.len() && (#[trigger] rest[k]).present && rest[k].path@ == path {
            let k = choose|k: int|
                0 <= k < rest.len() && (#[trigger] rest[k]).present && rest[k].path@ == path;
            assert(places[k] == rest[k]);
        }
        if exists|k: int|
            0 <= k < places.len() && (#[trigger] places[k]).present && places[k].path@ == path {
            let k = choose|k: int|
                0 <= k < places.len() && (#[trigger] places[k]).present && places[k].path@ == path;
            if k < n {
                assert(rest[k] == places[k]);
            }
        }
    }
}

proof fn lemma_usable(places: Seq<Place>, path: Seq<char>)
    ensures
        usable(places).contains(path) <==> exists|k: int|
            0 <= k < places.len() && (#[trigger] places[k]).present && places[k].path@ == path
                && !occurs("\\config\\systemprofile\\"@, lower_ascii(path)),
    decreases places.len(),
{
    if places.len() > 0 {
        let rest = places.drop_last();
        lemma_usable(rest, path);
        let n = places.len() - 1;
        if places[n].present && !in_service_profile(places[n].path@) {
            let all = usable(places);
            assert(all =~= usable(rest).push(places[n].path@));
            assert(all[all.len() - 1] == places[n].path@);
            if usable(rest).contains(path) {
                let i = choose|i: int| 0 <= i < usable(rest).len() && usable(rest)[i] == path;
                assert(all[i] == path);
            }
        }
        if exists|k: int|
            0 <= k < rest.len() && (#[trigger] rest[k]).present && rest[k].path@ == path {
            let k = choose|k: int|
                0 <= k < rest.len() && (#[trigger] rest[k]).present && rest[k].path@ == path;
            assert(places[k] == rest[k]);
        }
        if exists|k: int|
            0 <= k < places.len() && (#[trigger] places[k]).present && places[k].path@ == path {
            let k = choose|k: int|
                0 <= k < places.len() && (#[trigger] places[k]).present && places[k].path@ == path;
            if k < n {
                assert(rest[k] == places[k]);
            }
        }
    }
}

proof fn lemma_user_roots(profiles: Seq<Profile>, path: Seq<char>)
    ensures
        user_roots(profiles).contains(path) <==> exists|i: int, k: int|
            0 <= i < profiles.len() && !names_nobody(lower_ascii(profiles[i].name@)) && 0 <= k
                < profiles[i].places@.len() && (#[trigger] profiles[i].places@[k]).present
                && profiles[i].places@[k].path@ == path,
    decreases profiles.len(),
{
    if profiles.len() > 0 {
        let rest = profiles.drop_last();
        let n = profiles.len() - 1;
        lemma_user_roots(rest, path);
        lemma_template_names(profiles[n].name@);
        lemma_present(profiles[n].places@, path);
        let before = user_roots(rest);
        let more = present(profiles[n].places@);
        let all = user_roots(profiles);
        if !is_template_profile(profiles[n].name@) {
            assert(all == before + more);
            if all.contains(path) {
                let j = choose|j: int| 0 <= j < all.len() && all[j] == path;
                if j < before.len() {
                    assert(before[j] == path);
                } else {
                    assert(more[j - before.len()] == path);
                }
            }
            if before.contains(path) {
                let j = choose|j: int| 0 <= j < before.len() && before[j] == path;
                assert(all[j] == path);
            }
            if more.contains(path) {
                let j = choose|j: int| 0 <= j < more.len() && more[j] == path;
                assert(all[before.len() + j] == path);
            }
        }
        if exists|i: int, k: int|
            0 <= i < rest.len() && !names_nobody(lower_ascii(rest[i].name@)) && 0 <= k
                < rest[i].places@.len() && (#[trigger] rest[i].places@[k]).present
                && rest[i].places@[k].path@ == path {
            let (i, k) = choose|i: int, k: int|
                0 <= i < rest.len() && !names_nobody(lower_ascii(rest[i].name@)) && 0 <= k
                    < rest[i].places@.len() && (#[trigger] rest[i].places@[k]).present
                    && rest[i].places@[k].path@ == path;
            assert(profiles[i].places@[k] == rest[i].places@[k]);
        }
        if exists|i: int, k: int|
            0 <= i < profiles.len() && !names_nobody(lower_ascii(profiles[i].name@)) && 0 <= k
                < profiles[i].places@.len() && (#[trigger] profiles[i].places@[k]).present
                && profiles[i].places@[k].path@ == path {
            let (i, k) = choose|i: int, k: int|
                0 <= i < profiles.len() && !names_nobody(lower_ascii(profiles[i].name@)) && 0 <= k
                    < profiles[i].places@.len() && (#[trigger] profiles[i].places@[k]).present
                    && profiles[i].places@[k].path@ == path;
            if i < n {
                assert(rest[i].places@[k] == profiles[i].places@[k]);
            } else {
                assert(profiles[n].places@[k].present);
            }
        }
    }
}

proof fn lemma_with_missing(roots: Seq<Seq<char>>, places: Seq<Place>, path: Seq<char>)
    ensures
        with_missing(roots, places).contains(path) <==> roots.contains(path) || exists|k: int|
            0 <= k < places.len() && (#[trigger] places[k]).present && places[k].path@ == path,
        with_missing(roots, places).len() >= roots.len(),
        with_missing(roots, places).take(roots.len() as int) == roots,
    decreases places.len(),
{
    if places.len() > 0 {
        let rest = places.drop_last();
        lemma_with_missing(roots, rest, path);
        let n = places.len() - 1;
        let before = with_missing(roots, rest);
        let all = with_missing(roots, places);
        if places[n].present && !before.contains(places[n].path@) {
            assert(all =~= before.push(places[n].path@));
            assert(all[all.len() - 1] == places[n].path@);
            if before.contains(path) {
                let i = choose|i: int| 0 <= i < before.len() && before[i] == path;
                assert(all[i] == path);
            }
            assert(all.take(roots.len() as int) =~= before.take(roots.len() as int));
        }
        if exists|k: int|
            0 <= k < rest.len() && (#[trigger] rest[k]).present && rest[k].path@ == path {
            let k = choose|k: int|
                0 <= k < rest.len() && (#[trigger] rest[k]).present && rest[k].path@ == path;
            assert(places[k] == rest[k]);
        }
        if exists|k: int|
            0 <= k < places.len() && (#[trigger] places[k]).present && places[k].path@ == path {
            let k = choose|k: int|
                0 <= k < places.len() && (#[trigger] places[k]).present && places[k].path@ == path;
            if k < n {
                assert(rest[k] == places[k]);
            }
        }
    } else {
        assert(roots.take(roots.len() as int) =~= roots);
    }
}

proof fn lemma_system_roots(
    program_data: Option<Seq<char>>,
    temp: Option<Seq<char>>,
    path: Seq<char>,
)
    ensures
        system_roots(program_data, temp).contains(path) <==> (program_data == Some(path) || (
        program_data is None && path == "C:\\ProgramData"@) || temp == Some(path) || path
            == "C:\\Windows\\Temp"@),
{
    let all = system_roots(program_data, temp);
    assert(all[0] == match program_data {
        Some(p) => p,
        None => "C:\\ProgramData"@,
    });
    assert(all[all.len() - 1] == "C:\\Windows\\Temp"@);
    if temp is Some {
        assert(all[1] == temp->0);
    }
}

proof fn lemma_added<A>(a: Seq<A>, b: Seq<A>, x: A)
    ensures
        (a + b).contains(x) <==> a.contains(x) || b.contains(x),
{
    let all = a + b;
    if a.contains(x) {
        let i = choose|i: int| 0 <= i < a.len() && a[i] == x;
        assert(all[i] == x);
    }
    if b.contains(x) {
        let i = choose|i: int| 0 <= i < b.len() && b[i] == x;
        assert(all[a.len() + i] == x);
    }
    if all.contains(x) {
        let i = choose|i: int| 0 <= i < all.len() && all[i] == x;
        if i < a.len() {
            assert(a[i] == x);
        } else {
            assert(b[i - a.len()] == x);
        }
    }
}

/// Whether a configured directory, one of the system or the temporary one is of
/// personal files.
spec fn personal_is_configured(
    configured: Seq<Place>,
    program_data: Option<Seq<char>>,
    temp: Option<Seq<char>>,
) -> bool {
    ||| exists|k: int|
        0 <= k < configured.len() && (#[trigger] configured[k]).present && names_personal(
            lower_ascii(configured[k].path@),
        ) && !occurs("\\config\\systemprofile\\"@, lower_ascii(configured[k].path@))
    ||| program_data matches Some(p) && names_personal(lower_ascii(p))
    ||| temp matches Some(t) && names_personal(lower_ascii(t))
}

proof fn lemma_system_places_are_impersonal()
    ensures
        !names_personal(lower_ascii("C:\\ProgramData"@)),
        !names_personal(lower_ascii("C:\\Windows\\Temp"@)),
{
    reveal_strlit("C:\\ProgramData");
    reveal_strlit("C:\\Windows\\Temp");
    reveal_strlit("\\downloads");
    reveal_strlit("\\desktop");
    reveal_strlit("\\documents");
    let a = lower_ascii("C:\\ProgramData"@);
    let b = lower_ascii("C:\\Windows\\Temp"@);
    assert forall|needle: Seq<char>, at: int|
        needle.len() >= 2 && needle[0] == '\\' && needle[1] == 'd' implies !(
    #[trigger] crate::text::stands_at(a, needle, at)) by {
        if crate::text::stands_at(a, needle, at) {
            let piece = a.subrange(at, at + needle.len());
            assert(piece[0] == a[at] && piece[1] == a[at + 1]);
            assert(a[at] == '\\' && a[at + 1] == 'd');
        }
    }
    assert forall|needle: Seq<char>, at: int|
        needle.len() >= 2 && needle[0] == '\\' && needle[1] == 'd' implies !(
    #[trigger] crate::text::stands_at(b, needle, at)) by {
        if crate::text::stands_at(b, needle, at) {
            let piece = b.subrange(at, at + needle.len());
            assert(piece[0] == b[at] && piece[1] == b[at + 1]);
            assert(b[at] == '\\' && b[at + 1] == 'd');
        }
    }
}

proof fn lemma_any_personal(
    configured: Seq<Place>,
    program_data: Option<Seq<char>>,
    temp: Option<Seq<char>>,
)
    ensures
        any_personal(usable(configured) + system_roots(program_data, temp))
            <==> personal_is_configured(configured, program_data, temp),
{
    let own = usable(configured);
    let system = system_roots(program_data, temp);
    let base = own + system;
    lemma_system_places_are_impersonal();
    if any_personal(base) {
        let i = choose|i: int| 0 <= i < base.len() && personal(#[trigger] base[i]);
        lemma_added(own, system, base[i]);
        lemma_usable(configured, base[i]);
        lemma_system_roots(program_data, temp, base[i]);
        assert(base.contains(base[i]));
    }
    if personal_is_configured(configured, program_data, temp) {
        let p = if exists|k: int|
            0 <= k < configured.len() && (#[trigger] configured[k]).present && names_personal(
                lower_ascii(configured[k].path@),
            ) && !occurs("\\config\\systemprofile\\"@, lower_ascii(configured[k].path@)) {
            let k = choose|k: int|
                0 <= k < configured.len() && (#[trigger] configured[k]).present && names_personal(
                    lower_ascii(configured[k].path@),
                ) && !occurs("\\config\\systemprofile\\"@, lower_ascii(configured[k].path@));
            configured[k].path@
        } else if program_data is Some && names_personal(lower_ascii(program_data->0)) {
            program_data->0
        } else {
            temp->0
        };
        lemma_added(own, system, p);
        lemma_usable(configured, p);
        lemma_system_roots(program_data, temp, p);
        assert(base.contains(p));
        let i = choose|i: int| 0 <= i < base.len() && base[i] == p;
        assert(personal(base[i]));
    }
}

/// Where no configured directory and none of the system is of personal files, every
/// directory of a user that is there is a candidate; profiles that belong to nobody
/// are none of a user's.
pub proof fn users_are_watched_where_nothing_is_configured(
    configured: Seq<Place>,
    program_data: Option<Seq<char>>,
    temp: Option<Seq<char>>,
    profiles: Seq<Profile>,
    home: Option<Home>,
    i: int,
    k: int,
)
    requires
        forall|j: int|
            0 <= j < configured.len() && (#[trigger] configured[j]).present ==> {
                let lower = lower_ascii(configured[j].path@);
                &&& !occurs("\\downloads"@, lower)
                &&& !occurs("\\desktop"@, lower)
                &&& !occurs("\\documents"@, lower)
            },
        program_data matches Some(p) ==> !occurs("\\downloads"@, lower_ascii(p)) && !occurs(
            "\\desktop"@,
            lower_ascii(p),
        ) && !occurs("\\documents"@, lower_ascii(p)),
        temp matches Some(t) ==> !occurs("\\downloads"@, lower_ascii(t)) && !occurs(
            "\\desktop"@,
            lower_ascii(t),
        ) && !occurs("\\documents"@, lower_ascii(t)),
        0 <= i < profiles.len(),
        ({
            let lower = lower_ascii(profiles[i].name@);
            &&& lower != "default"@
            &&& lower != "default user"@
            &&& lower != "public"@
            &&& lower != "all users"@
            &&& lower != "defaultuser0"@
            &&& lower != "wdagutilityaccount"@
        }),
        0 <= k < profiles[i].places@.len(),
        profiles[i].places@[k].present,
    ensures
        candidates(configured, program_data, temp, profiles, home).contains(
            profiles[i].places@[k].path@,
        ),
{
    let path = profiles[i].places@[k].path@;
    let base = usable(configured) + system_roots(program_data, temp);
    lemma_any_personal(configured, program_data, temp);
    lemma_user_roots(profiles, path);
    assert(profiles[i].places@[k].present);
    lemma_added(base, user_roots(profiles), path);
    if home is Some {
        lemma_with_missing(base + user_roots(profiles), home->0.places@, path);
    }
}

/// Every candidate comes from where it may: it is configured, there and outside the
/// service account's profile; or one of the system; or a directory of a user, and
/// that only where nothing personal is configured; or one of the process's own home,
/// unless that is the service account's.
pub proof fn candidates_come_from_known_places(
    configured: Seq<Place>,
    program_data: Option<Seq<char>>,
    temp: Option<Seq<char>>,
    profiles: Seq<Profile>,
    home: Option<Home>,
    path: Seq<char>,
)
    requires
        candidates(configured, program_data, temp, profiles, home).contains(path),
    ensures
        ({
            ||| exists|j: int|
                0 <= j < configured.len() && (#[trigger] configured[j]).present
                    && configured[j].path@ == path && !occurs(
                    "\\config\\systemprofile\\"@,
                    lower_ascii(path),
                )
            ||| program_data == Some(path)
            ||| program_data is None && path == "C:\\ProgramData"@
            ||| temp == Some(path)
            ||| path == "C:\\Windows\\Temp"@
            ||| exists|i: int, k: int|
                0 <= i < profiles.len() && 0 <= k < profiles[i].places@.len() && (
                #[trigger] profiles[i].places@[k]).present && profiles[i].places@[k].path@ == path
                    && {
                    let lower = lower_ascii(profiles[i].name@);
                    &&& lower != "default"@
                    &&& lower != "default user"@
                    &&& lower != "public"@
                    &&& lower != "all users"@
                    &&& lower != "defaultuser0"@
                    &&& lower != "wdagutilityaccount"@
                } && forall|j: int|
                    0 <= j < configured.len() && (#[trigger] configured[j]).present && !occurs(
                        "\\config\\systemprofile\\"@,
                        lower_ascii(configured[j].path@),
                    ) ==> {
                        let lower = lower_ascii(configured[j].path@);
                        &&& !occurs("\\downloads"@, lower)
                        &&& !occurs("\\desktop"@, lower)
                        &&& !occurs("\\documents"@, lower)
                    }
            ||| exists|k: int|
                home is Some && 0 <= k < home->0.places@.len() && (
                #[trigger] home->0.places@[k]).present && home->0.places@[k].path@ == path
                    && !occurs("\\config\\systemprofile"@, lower_ascii(home->0.path@))
        }),
{
    let own = usable(configured);
    let system = system_roots(program_data, temp);
    let base = own + system;
    lemma_any_personal(configured, program_data, temp);
    lemma_usable(configured, path);
    lemma_system_roots(program_data, temp, path);
    lemma_added(own, system, path);
    lemma_user_roots(profiles, path);
    lemma_added(base, user_roots(profiles), path);
    let all = if any_personal(base) {
        base
    } else {
        base + user_roots(profiles)
    };
    if home is Some {
        lemma_with_missing(all, home->0.places@, path);
    }
}

/// A configured directory that is there and not in the service account's profile is
/// always a candidate, and so are the directories of the system and those of the
/// process's own home, unless that is the service account's.
pub proof fn configured_and_system_places_are_watched(
    configured: Seq<Place>,
    program_data: Option<Seq<char>>,
    temp: Option<Seq<char>>,
    profiles: Seq<Profile>,
    home: Option<Home>,
    k: int,
)
    ensures
        ({
            let all = candidates(configured, program_data, temp, profiles, home);
            &&& 0 <= k < configured.len() && configured[k].present && !occurs(
                "\\config\\systemprofile\\"@,
                lower_ascii(configured[k].path@),
            ) ==> all.contains(configured[k].path@)
            &&& program_data matches Some(p) ==> all.contains(p)
            &&& program_data is None ==> all.contains("C:\\ProgramData"@)
            &&& temp matches Some(t) ==> all.contains(t)
            &&& all.contains("C:\\Windows\\Temp"@)
            &&& home is Some && 0 <= k < home->0.places@.len() && home->0.places@[k].present
                && !occurs("\\config\\systemprofile"@, lower_ascii(home->0.path@))
                ==> all.contains(home->0.places@[k].path@)
        }),
{
    let own = usable(configured);
    let system = system_roots(program_data, temp);
    let base = own + system;
    assert forall|path: Seq<char>| #[trigger] base.contains(path) implies candidates(
        configured,
        program_data,
        temp,
        profiles,
        home,
    ).contains(path) by {
        lemma_added(base, user_roots(profiles), path);
        if home is Some {
            lemma_with_missing(base, home->0.places@, path);
            lemma_with_missing(base + user_roots(profiles), home->0.places@, path);
        }
    }
    if 0 <= k < configured.len() && configured[k].present {
        lemma_usable(configured, configured[k].path@);
        lemma_added(own, system, configured[k].path@);
    }
    let data = match program_data {
        Some(p) => p,
        None => "C:\\ProgramData"@,
    };
    lemma_system_roots(program_data, temp, data);
    lemma_added(own, system, data);
    lemma_system_roots(program_data, temp, "C:\\Windows\\Temp"@);
    lemma_added(own, system, "C:\\Windows\\Temp"@);
    if temp is Some {
        lemma_system_roots(program_data, temp, temp->0);
        lemma_added(own, system, temp->0);
    }
    if home is Some && 0 <= k < home->0.places@.len() {
        lemma_with_missing(base, home->0.places@, home->0.places@[k].path@);
        lemma_with_missing(
            base + user_roots(profiles),
            home->0.places@,
            home->0.places@[k].path@,
        );
    }
}

proof fn lemma_usable_all(places: Seq<Place>)
    requires
        forall|k: int|
            0 <= k < places.len() ==> (#[trigger] places[k]).present && !in_service_profile(
                places[k].path@,
            ),
    ensures
        usable(places).len() == places.len(),
        forall|k: int| 0 <= k < places.len() ==> #[trigger] usable(places)[k] == places[k].path@,
    decreases places.len(),
{
    if places.len() > 0 {
        let rest = places.drop_last();
        assert forall|k: int| 0 <= k < rest.len() implies (#[trigger] rest[k]).present
            && !in_service_profile(rest[k].path@) by {
            assert(rest[k] == places[k]);
        }
        lemma_usable_all(rest);
        assert(places[places.len() - 1].present);
        assert forall|k: int| 0 <= k < places.len() implies #[trigger] usable(places)[k]
            == places[k].path@ by {
            if k < rest.len() {
                assert(usable(rest)[k] == rest[k].path@);
            }
        }
    }
}

/// The configured directories come first, in the order in which they are configured.
pub proof fn configured_places_come_first(
    configured: Seq<Place>,
    program_data: Option<Seq<char>>,
    temp: Option<Seq<char>>,
    profiles: Seq<Profile>,
    home: Option<Home>,
    k: int,
)
    requires
        forall|j: int|
            0 <= j < configured.len() ==> (#[trigger] configured[j]).present && !occurs(
                "\\config\\systemprofile\\"@,
                lower_ascii(configured[j].path@),
            ),
        0 <= k < configured.len(),
    ensures
        candidates(configured, program_data, temp, profiles, home)[k] == configured[k].path@,
{
    lemma_usable_all(configured);
    let base = usable(configured) + system_roots(program_data, temp);
    assert(usable(configured)[k] == configured[k].path@);
    assert(base[k] == configured[k].path@);
    let all = if any_personal(base) {
        base
    } else {
        base + user_roots(profiles)
    };
    assert(all[k] == base[k]);
    if home is Some {
        lemma_with_missing(all, home->0.places@, base[k]);
        let more = with_missing(all, home->0.places@);
        assert(more.take(all.len() as int)[k] == more[k]);
    }
}

proof fn lemma_distinct_roots(resolved: Seq<Place>, path: Seq<char>)
    ensures
        known_root(distinct_roots(resolved), path) <==> exists|k: int|
            0 <= k < resolved.len() && (#[trigger] resolved[k]).present && resolved[k].path@.len()
                > 0 && lowercased(resolved[k].path@) == lowercased(path),
    decreases resolved.len(),
{
    if resolved.len() > 0 {
        let rest = resolved.drop_last();
        let n = resolved.len() - 1;
        let p = resolved[n];
        lemma_distinct_roots(rest, path);
        let before = distinct_roots(rest);
        let all = distinct_roots(resolved);
        if p.path@.len() > 0 && p.present && !known_root(before, p.path@) {
            assert(all =~= before.push(p.path@));
            assert(all[all.len() - 1] == p.path@);
            if known_root(before, path) {
                let i = choose|i: int|
                    0 <= i < before.len() && lowercased(#[trigger] before[i]) == lowercased(path);
                assert(all[i] == before[i]);
            }
            if known_root(all, path) {
                let i = choose|i: int|
                    0 <= i < all.len() && lowercased(#[trigger] all[i]) == lowercased(path);
                if i < before.len() {
                    assert(before[i] == all[i]);
                }
            }
        }
        if known_root(before, p.path@) && lowercased(p.path@) == lowercased(path) {
            let i = choose|i: int|
                0 <= i < before.len() && lowercased(#[trigger] before[i]) == lowercased(p.path@);
            assert(lowercased(before[i]) == lowercased(path));
        }
        if exists|k: int|
            0 <= k < rest.len() && (#[trigger] rest[k]).present && rest[k].path@.len() > 0
                && lowercased(rest[k].path@) == lowercased(path) {
            let k = choose|k: int|
                0 <= k < rest.len() && (#[trigger] rest[k]).present && rest[k].path@.len() > 0
                    && lowercased(rest[k].path@) == lowercased(path);
            assert(resolved[k] == rest[k]);
        }
        if exists|k: int|
            0 <= k < resolved.len() && (#[trigger] resolved[k]).present && resolved[k].path@.len()
                > 0 && lowercased(resolved[k].path@) == lowercased(path) {
            let k = choose|k: int|
                0 <= k < resolved.len() && (#[trigger] resolved[k]).present
                    && resolved[k].path@.len() > 0 && lowercased(resolved[k].path@) == lowercased(
                    path,
                );
            if k < n {
                assert(rest[k] == resolved[k]);
            }
        }
    }
}

proof fn lemma_roots_are_resolved(resolved: Seq<Place>, j: int)
    requires
        0 <= j < distinct_roots(resolved).len(),
    ensures
        exists|k: int|
            0 <= k < resolved.len() && (#[trigger] resolved[k]).present && resolved[k].path@.len()
                > 0 && resolved[k].path@ == distinct_roots(resolved)[j],
    decreases resolved.len(),
{
    let rest = resolved.drop_last();
    let before = distinct_roots(rest);
    if j < before.len() {
        lemma_roots_are_resolved(rest, j);
        let k = choose|k: int|
            0 <= k < rest.len() && (#[trigger] rest[k]).present && rest[k].path@.len() > 0
                && rest[k].path@ == before[j];
        assert(resolved[k] == rest[k]);
        assert(distinct_roots(resolved)[j] == before[j]);
    } else {
        let n = resolved.len() - 1;
        assert(resolved[n].present);
    }
}

/// Short of the limit of 128, every directory that is there is watched, under that
/// name or the same one in another case.
pub proof fn no_directory_is_missed(resolved: Seq<Place>, k: int)
    requires
        0 <= k < resolved.len(),
        resolved[k].present,
        resolved[k].path@.len() > 0,
        watched(resolved).len() < 128,
    ensures
        exists|j: int|
            0 <= j < watched(resolved).len() && lowercased(#[trigger] watched(resolved)[j])
                == lowercased(resolved[k].path@),
{
    lemma_distinct_roots(resolved, resolved[k].path@);
    assert(resolved[k].present);
}

/// Only directories that are there are watched, as they were resolved, and never
/// more than 128.
pub proof fn only_present_directories_are_watched(resolved: Seq<Place>, j: int)
    requires
        0 <= j < watched(resolved).len(),
    ensures
        exists|k: int|
            0 <= k < resolved.len() && (#[trigger] resolved[k]).present && resolved[k].path@.len()
                > 0 && resolved[k].path@ == watched(resolved)[j],
        watched(resolved).len() <= 128,
{
    lemma_roots_are_resolved(resolved, j);
}

/// What comes first is watched first: a further directory never displaces an earlier
/// one, also at the limit.
pub proof fn further_directories_displace_none(resolved: Seq<Place>, next: Place)
    ensures
        watched(resolved.push(next)).len() >= watched(resolved).len(),
        watched(resolved.push(next)).take(watched(resolved).len() as int) == watched(resolved),
{
    assert(resolved.push(next).drop_last() =~= resolved);
    let before = watched(resolved);
    let after = watched(resolved.push(next));
    assert(after.take(before.len() as int) =~= before);
}

/// A watcher that has been silent for more than a minute is restarted, unless the
/// user switched protection off, or real-time protection is off, or it has not given
/// a sign of life yet.
pub proof fn silent_watcher_is_restarted(
    user_disabled: bool,
    realtime_on: bool,
    last_beat: u64,
    now: u64,
)
    ensures
        user_disabled ==> !stalled(user_disabled, realtime_on, last_beat, now),
        !realtime_on ==> !stalled(user_disabled, realtime_on, last_beat, now),
        last_beat == 0 ==> !stalled(user_disabled, realtime_on, last_beat, now),
        now - last_beat <= 60 ==> !stalled(user_disabled, realtime_on, last_beat, now),
        !user_disabled && realtime_on && last_beat > 0 && now - last_beat > 60 ==> stalled(
            user_disabled,
            realtime_on,
            last_beat,
            now,
        ),
{
}

} // verus!
