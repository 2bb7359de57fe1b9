//! Which files a cycle of the idle scanner looks at, and in which order.
//!
//! The walk over the directories is outside; it asks here at every directory and
//! offers every entry it meets.

use crate::ranking::{ranked, sort_ranked, Ranked};
use crate::text::{is_one_of, lowercased, one_of, owned_view, text_view, to_lowercase};
use vstd::prelude::*;

verus! {

/// Directories that hold build output, packages or version control.
pub open spec fn noisy_directories() -> Seq<&'static str> {
    seq![
        "target",
        "node_modules",
        ".git",
        "dist",
        "build",
        ".next",
        ".vite",
        ".cargo",
        ".rustup",
        ".npm",
        "__pycache__",
        ".fingerprint",
        "incremental",
        ".gradle",
        ".m2",
        ".nuget",
        ".pnpm-store",
    ]
}

/// Whether a directory of this name, in lower case, is passed over.
pub fn is_noisy_directory(lower: &str) -> (yes: bool)
    ensures
        yes == one_of(lower@, noisy_directories()),
{
    let list = [
        "target",
        "node_modules",
        ".git",
        "dist",
        "build",
        ".next",
        ".vite",
        ".cargo",
        ".rustup",
        ".npm",
        "__pycache__",
        ".fingerprint",
        "incremental",
        ".gradle",
        ".m2",
        ".nuget",
        ".pnpm-store",
    ];
    assert(list@ =~= noisy_directories());
    is_one_of(lower, &list)
}

/// Extensions of pictures, fonts, sound, video and by-products of builds.
pub open spec fn harmless_extensions() -> Seq<&'static str> {
    seq![
        "jpg",
        "jpeg",
        "png",
        "gif",
        "bmp",
        "webp",
        "svg",
        "ico",
        "woff",
        "woff2",
        "ttf",
        "otf",
        "eot",
        "mp3",
        "mp4",
        "mkv",
        "avi",
        "wav",
        "flac",
        "ogg",
        "webm",
        "rlib",
        "rmeta",
        "pdb",
        "ilk",
        "map",
        "log",
        "tmp",
        "bak",
        "lock",
    ]
}

/// Whether files of this extension, in lower case, are passed over.
pub fn is_harmless_extension(lower: &str) -> (yes: bool)
    ensures
        yes == one_of(lower@, harmless_extensions()),
{
    let list = [
        "jpg",
        "jpeg",
        "png",
        "gif",
        "bmp",
        "webp",
        "svg",
        "ico",
        "woff",
        "woff2",
        "ttf",
        "otf",
        "eot",
        "mp3",
        "mp4",
        "mkv",
        "avi",
        "wav",
        "flac",
        "ogg",
        "webm",
        "rlib",
        "rmeta",
        "pdb",
        "ilk",
        "map",
        "log",
        "tmp",
        "bak",
        "lock",
    ];
    assert(list@ =~= harmless_extensions());
    is_one_of(lower, &list)
}

/// Place of a file in the order of the scan, by its extension in lower case; 0
/// comes first.
pub open spec fn priority(lower: Seq<char>) -> u8 {
    if one_of(lower, seq!["exe", "dll", "scr", "com", "pif"]) {
        0
    } else if one_of(lower, seq!["bat", "cmd", "ps1", "vbs", "js", "wsh", "wsf"]) {
        1
    } else if one_of(lower, seq!["msi", "msix", "appx"]) {
        2
    } else if one_of(lower, seq!["zip", "rar", "7z", "tar", "gz", "iso", "cab"]) {
        3
    } else if one_of(
        lower,
        seq!["doc", "docx", "docm", "xls", "xlsx", "xlsm", "ppt", "pptx", "pptm", "pdf"],
    ) {
        4
    } else if one_of(lower, seq!["lnk", "url"]) {
        5
    } else if one_of(lower, seq!["reg", "inf"]) {
        6
    } else {
        10
    }
}

/// The priority of an extension in lower case.
pub fn extension_priority(lower: &str) -> (p: u8)
    ensures
        p == priority(lower@),
{
    let programs = ["exe", "dll", "scr", "com", "pif"];
    let scripts = ["bat", "cmd", "ps1", "vbs", "js", "wsh", "wsf"];
    let installers = ["msi", "msix", "appx"];
    let archives = ["zip", "rar", "7z", "tar", "gz", "iso", "cab"];
    let documents = [
        "doc",
        "docx",
        "docm",
        "xls",
        "xlsx",
        "xlsm",
        "ppt",
        "pptx",
        "pptm",
        "pdf",
    ];
    let links = ["lnk", "url"];
    let settings = ["reg", "inf"];
    assert(programs@ =~= seq!["exe", "dll", "scr", "com", "pif"]);
    assert(scripts@ =~= seq!["bat", "cmd", "ps1", "vbs", "js", "wsh", "wsf"]);
    assert(installers@ =~= seq!["msi", "msix", "appx"]);
    assert(archives@ =~= seq!["zip", "rar", "7z", "tar", "gz", "iso", "cab"]);
    assert(documents@ =~= seq![
        "doc",
        "docx",
        "docm",
        "xls",
        "xlsx",
        "xlsm",
        "ppt",
        "pptx",
        "pptm",
        "pdf",
    ]);
    assert(links@ =~= seq!["lnk", "url"]);
    assert(settings@ =~= seq!["reg", "inf"]);
    if is_one_of(lower, &programs) {
        0
    } else if is_one_of(lower, &scripts) {
        1
    } else if is_one_of(lower, &installers) {
        2
    } else if is_one_of(lower, &archives) {
        3
    } else if is_one_of(lower, &documents) {
        4
    } else if is_one_of(lower, &links) {
        5
    } else if is_one_of(lower, &settings) {
        6
    } else {
        10
    }
}

/// The extension in lower case; a file without one has the empty extension.
pub open spec fn lower_extension(extension: Option<Seq<char>>) -> Seq<char> {
    match extension {
        Some(e) => lowercased(e),
        None => ""@,
    }
}

/// The priority of a file with this extension.
pub fn file_priority(extension: Option<&str>) -> (p: u8)
    ensures
        p == priority(lower_extension(text_view(extension))),
{
    match extension {
        Some(e) => extension_priority(to_lowercase(e).as_str()),
        None => extension_priority(""),
    }
}

/// A directory entry, as the walk sees it.
#[derive(Debug)]
pub struct IdleEntry {
    pub path: String,
    /// The last part of the path, where there is one.
    pub name: Option<String>,
    pub extension: Option<String>,
    pub is_dir: bool,
    pub is_file: bool,
    pub is_symlink: bool,
    /// A kind of file that is never worth a scan.
    pub skippable: bool,
    /// Belongs to the daemon itself.
    pub own: bool,
    /// Output of a build or a development tool.
    pub build_or_dev: bool,
    /// Excluded by the configuration.
    pub excluded: bool,
    /// Size in bytes, where it could be read.
    pub size: Option<u64>,
    /// Last change in seconds since 1970; zero where it is not known.
    pub modified: u64,
}

/// A file that is to be scanned.
#[derive(Debug)]
pub struct Candidate {
    pub path: String,
    pub priority: u8,
    pub modified: u64,
}

/// Whether the walk goes into a directory.
pub open spec fn entered(e: IdleEntry) -> bool {
    !one_of(lower_extension(owned_view(e.name)), noisy_directories()) && !e.own && !e.excluded
}

/// Whether a file is worth a scan.
pub open spec fn wanted(e: IdleEntry, max_size: u64) -> bool {
    &&& e.is_file
    &&& !e.is_symlink
    &&& !e.skippable
    &&& !e.own
    &&& !e.build_or_dev
    &&& !e.excluded
    &&& !(e.extension matches Some(x) && one_of(lowercased(x@), harmless_extensions()))
    &&& e.size matches Some(size) && 0 < size <= max_size
}

/// What the walk does next.
#[derive(Debug, Clone, Copy, PartialEq, Eq, Structural)]
pub enum Offer {
    /// Enough files: leave this directory.
    Full,
    /// Go into the directory, one level deeper.
    Enter,
    /// On to the next entry.
    Next,
}

/// How many levels below the start the walk goes.
pub const MAX_WALK_DEPTH: u32 = 8;

/// The files found so far, in the order of the walk.
pub struct FileCollector {
    pub files: Vec<Candidate>,
    pub max_size: u64,
    pub max_count: usize,
}

/// What an offer adds to the files.
pub open spec fn offered(files: Seq<Candidate>, e: IdleEntry, after: Seq<Candidate>) -> bool {
    &&& after.len() == files.len() + 1
    &&& after.drop_last() == files
    &&& after.last().path@ == e.path@
    &&& after.last().priority == priority(lower_extension(owned_view(e.extension)))
    &&& after.last().modified == e.modified
}

/// What the walk does after an entry.
pub open spec fn next_offer(found: int, max_count: int, e: IdleEntry) -> Offer {
    if found >= max_count {
        Offer::Full
    } else if e.is_dir && entered(e) {
        Offer::Enter
    } else {
        Offer::Next
    }
}

/// Whether an entry is kept.
pub open spec fn keeps(found: int, max_count: int, e: IdleEntry, max_size: u64) -> bool {
    found < max_count && !e.is_dir && wanted(e, max_size)
}

/// Whether a directory at this depth is listed.
pub open spec fn listable(depth: u32, found: int, max_count: int) -> bool {
    depth <= MAX_WALK_DEPTH && found < max_count
}

impl FileCollector {
    pub fn new(max_size: u64, max_count: usize) -> (collector: Self)
        ensures
            collector.files@ == Seq::<Candidate>::empty(),
            collector.max_size == max_size,
            collector.max_count == max_count,
    {
        FileCollector { files: Vec::new(), max_size, max_count }
    }

    /// Whether to list a directory at this depth.
    pub fn may_list(&self, depth: u32) -> (yes: bool)
        ensures
            yes == (depth <= MAX_WALK_DEPTH && self.files@.len() < self.max_count),
            yes == listable(depth, self.files@.len() as int, self.max_count as int),
    {
        depth <= MAX_WALK_DEPTH && self.files.len() < self.max_count
    }

    /// Judge an entry and keep it if it is a file worth a scan.
    pub fn offer(&mut self, entry: &IdleEntry) -> (next: Offer)
        ensures
            final(self).max_size == old(self).max_size,
            final(self).max_count == old(self).max_count,
            next == next_offer(old(self).files@.len() as int, old(self).max_count as int, *entry),
            if keeps(
                old(self).files@.len() as int,
                old(self).max_count as int,
                *entry,
                old(self).max_size,
            ) {
                offered(old(self).files@, *entry, final(self).files@)
            } else {
                final(self).files@ == old(self).files@
            },
            next == if old(self).files@.len() >= old(self).max_count {
                Offer::Full
            } else if entry.is_dir && entered(*entry) {
                Offer::Enter
            } else {
                Offer::Next
            },
            if old(self).files@.len() < old(self).max_count && !entry.is_dir && wanted(
                *entry,
                old(self).max_size,
            ) {
                offered(old(self).files@, *entry, final(self).files@)
            } else {
                final(self).files@ == old(self).files@
            },
            old(self).files@.len() <= old(self).max_count ==> {
                final(self).files@.len() <= final(self).max_count
            },
    {
        if self.files.len() >= self.max_count {
            return Offer::Full;
        }
        if entry.is_dir {
            let noisy = match &entry.name {
                Some(name) => is_noisy_directory(to_lowercase(name.as_str()).as_str()),
                None => is_noisy_directory(""),
            };
            if noisy || entry.own || entry.excluded {
                return Offer::Next;
            }
            return Offer::Enter;
        }
        if !entry.is_file || entry.is_symlink || entry.skippable || entry.own || entry.build_or_dev
            || entry.excluded {
            return Offer::Next;
        }
        if let Some(extension) = &entry.extension {
            if is_harmless_extension(to_lowercase(extension.as_str()).as_str()) {
                return Offer::Next;
            }
        }
        let size: u64 = match entry.size {
            Some(size) => size,
            None => {
                return Offer::Next;
            },
        };
        if size == 0 || size > self.max_size {
            return Offer::Next;
        }
        let priority: u8 = match &entry.extension {
            Some(extension) => file_priority(Some(extension.as_str())),
            None => file_priority(None),
        };
        let ghost before = self.files@;
        self.files.push(
            Candidate { path: entry.path.clone(), priority, modified: entry.modified },
        );
        assert(self.files@.drop_last() =~= before);
        Offer::Next
    }

    /// The files in the order of the scan.
    pub fn finish(self) -> (sorted: Vec<Candidate>)
        ensures
            ranked(sorted@, self.files@),
    {
        sort_ranked(self.files)
    }
}

impl Ranked for Candidate {
    /// The priority decides; among equals the more recent change goes first.
    open spec fn rank(&self) -> int {
        self.priority * 0x1_0000_0000_0000_0000 - self.modified
    }

    fn goes_before(&self, other: &Self) -> (yes: bool) {
        self.priority < other.priority || (self.priority == other.priority && self.modified
            > other.modified)
    }
}

/// A file of a kind that goes first is scanned first, however old it is.
pub proof fn priority_goes_before_age(sorted: Seq<Candidate>, files: Seq<Candidate>, i: int, j: int)
    requires
        ranked(sorted, files),
        0 <= i < sorted.len(),
        0 <= j < sorted.len(),
        sorted[i].priority < sorted[j].priority,
    ensures
        i < j,
{
    if j < i {
        assert(sorted[j].rank() <= sorted[i].rank());
    }
}

/// Among files of one kind the more recent change is scanned first.
pub proof fn recent_goes_first(sorted: Seq<Candidate>, files: Seq<Candidate>, i: int, j: int)
    requires
        ranked(sorted, files),
        0 <= i < sorted.len(),
        0 <= j < sorted.len(),
        sorted[i].priority == sorted[j].priority,
        sorted[i].modified > sorted[j].modified,
    ensures
        i < j,
{
    if j < i {
        assert(sorted[j].rank() <= sorted[i].rank());
    }
}

/// Directories of build output, packages and version control are passed over, and no
/// other directory is for its name.
pub proof fn noisy_directories_are_these(lower: Seq<char>)
    ensures
        one_of(lower, noisy_directories()) <==> (lower == "target"@
            || lower == "node_modules"@
            || lower == ".git"@
            || lower == "dist"@
            || lower == "build"@
            || lower == ".next"@
            || lower == ".vite"@
            || lower == ".cargo"@
            || lower == ".rustup"@
            || lower == ".npm"@
            || lower == "__pycache__"@
            || lower == ".fingerprint"@
            || lower == "incremental"@
            || lower == ".gradle"@
            || lower == ".m2"@
            || lower == ".nuget"@
            || lower == ".pnpm-store"@),
{
    let words = noisy_directories();
    assert(words[0]@ == "target"@);
    assert(words[1]@ == "node_modules"@);
    assert(words[2]@ == ".git"@);
    assert(words[3]@ == "dist"@);
    assert(words[4]@ == "build"@);
    assert(words[5]@ == ".next"@);
    assert(words[6]@ == ".vite"@);
    assert(words[7]@ == ".cargo"@);
    assert(words[8]@ == ".rustup"@);
    assert(words[9]@ == ".npm"@);
    assert(words[10]@ == "__pycache__"@);
    assert(words[11]@ == ".fingerprint"@);
    assert(words[12]@ == "incremental"@);
    assert(words[13]@ == ".gradle"@);
    assert(words[14]@ == ".m2"@);
    assert(words[15]@ == ".nuget"@);
    assert(words[16]@ == ".pnpm-store"@);
}

/// Pictures, fonts, sound, video and by-products of builds are passed over, and no
/// other file is for its extension.
pub proof fn harmless_extensions_are_these(lower: Seq<char>)
    ensures
        one_of(lower, harmless_extensions()) <==> (lower == "jpg"@
            || lower == "jpeg"@
            || lower == "png"@
            || lower == "gif"@
            || lower == "bmp"@
            || lower == "webp"@
            || lower == "svg"@
            || lower == "ico"@
            || lower == "woff"@
            || lower == "woff2"@
            || lower == "ttf"@
            || lower == "otf"@
            || lower == "eot"@
            || lower == "mp3"@
            || lower == "mp4"@
            || lower == "mkv"@
            || lower == "avi"@
            || lower == "wav"@
            || lower == "flac"@
            || lower == "ogg"@
            || lower == "webm"@
            || lower == "rlib"@
            || lower == "rmeta"@
            || lower == "pdb"@
            || lower == "ilk"@
            || lower == "map"@
            || lower == "log"@
            || lower == "tmp"@
            || lower == "bak"@
            || lower == "lock"@),
{
    let words = harmless_extensions();
    assert(words[0]@ == "jpg"@);
    assert(words[1]@ == "jpeg"@);
    assert(words[2]@ == "png"@);
    assert(words[3]@ == "gif"@);
    assert(words[4]@ == "bmp"@);
    assert(words[5]@ == "webp"@);
    assert(words[6]@ == "svg"@);
    assert(words[7]@ == "ico"@);
    assert(words[8]@ == "woff"@);
    assert(words[9]@ == "woff2"@);
    assert(words[10]@ == "ttf"@);
    assert(words[11]@ == "otf"@);
    assert(words[12]@ == "eot"@);
    assert(words[13]@ == "mp3"@);
    assert(words[14]@ == "mp4"@);
    assert(words[15]@ == "mkv"@);
    assert(words[16]@ == "avi"@);
    assert(words[17]@ == "wav"@);
    assert(words[18]@ == "flac"@);
    assert(words[19]@ == "ogg"@);
    assert(words[20]@ == "webm"@);
    assert(words[21]@ == "rlib"@);
    assert(words[22]@ == "rmeta"@);
    assert(words[23]@ == "pdb"@);
    assert(words[24]@ == "ilk"@);
    assert(words[25]@ == "map"@);
    assert(words[26]@ == "log"@);
    assert(words[27]@ == "tmp"@);
    assert(words[28]@ == "bak"@);
    assert(words[29]@ == "lock"@);
}

proof fn lemma_extensions()
    ensures
        "exe"@.len() == 3 && "exe"@[0] == 'e' && "exe"@[1] == 'x' && "exe"@[2] == 'e',
        "dll"@.len() == 3 && "dll"@[0] == 'd' && "dll"@[1] == 'l' && "dll"@[2] == 'l',
        "scr"@.len() == 3 && "scr"@[0] == 's' && "scr"@[1] == 'c' && "scr"@[2] == 'r',
        "com"@.len() == 3 && "com"@[0] == 'c' && "com"@[1] == 'o' && "com"@[2] == 'm',
        "pif"@.len() == 3 && "pif"@[0] == 'p' && "pif"@[1] == 'i' && "pif"@[2] == 'f',
        "bat"@.len() == 3 && "bat"@[0] == 'b' && "bat"@[1] == 'a' && "bat"@[2] == 't',
        "cmd"@.len() == 3 && "cmd"@[0] == 'c' && "cmd"@[1] == 'm' && "cmd"@[2] == 'd',
        "ps1"@.len() == 3 && "ps1"@[0] == 'p' && "ps1"@[1] == 's' && "ps1"@[2] == '1',
        "vbs"@.len() == 3 && "vbs"@[0] == 'v' && "vbs"@[1] == 'b' && "vbs"@[2] == 's',
        "js"@.len() == 2 && "js"@[0] == 'j',
        "wsh"@.len() == 3 && "wsh"@[0] == 'w' && "wsh"@[1] == 's' && "wsh"@[2] == 'h',
        "wsf"@.len() == 3 && "wsf"@[0] == 'w' && "wsf"@[1] == 's' && "wsf"@[2] == 'f',
        "msi"@.len() == 3 && "msi"@[0] == 'm' && "msi"@[1] == 's' && "msi"@[2] == 'i',
        "msix"@.len() == 4 && "msix"@[0] == 'm' && "msix"@[3] == 'x',
        "appx"@.len() == 4 && "appx"@[0] == 'a' && "appx"@[3] == 'x',
        "zip"@.len() == 3 && "zip"@[0] == 'z' && "zip"@[1] == 'i' && "zip"@[2] == 'p',
        "rar"@.len() == 3 && "rar"@[0] == 'r' && "rar"@[1] == 'a' && "rar"@[2] == 'r',
        "7z"@.len() == 2 && "7z"@[0] == '7',
        "tar"@.len() == 3 && "tar"@[0] == 't' && "tar"@[1] == 'a' && "tar"@[2] == 'r',
        "gz"@.len() == 2 && "gz"@[0] == 'g',
        "iso"@.len() == 3 && "iso"@[0] == 'i' && "iso"@[1] == 's' && "iso"@[2] == 'o',
        "cab"@.len() == 3 && "cab"@[0] == 'c' && "cab"@[1] == 'a' && "cab"@[2] == 'b',
        "doc"@.len() == 3 && "doc"@[0] == 'd' && "doc"@[1] == 'o' && "doc"@[2] == 'c',
        "docx"@.len() == 4 && "docx"@[0] == 'd' && "docx"@[3] == 'x',
        "docm"@.len() == 4 && "docm"@[0] == 'd' && "docm"@[3] == 'm',
        "xls"@.len() == 3 && "xls"@[0] == 'x' && "xls"@[1] == 'l' && "xls"@[2] == 's',
        "xlsx"@.len() == 4 && "xlsx"@[0] == 'x' && "xlsx"@[3] == 'x',
        "xlsm"@.len() == 4 && "xlsm"@[0] == 'x' && "xlsm"@[3] == 'm',
        "ppt"@.len() == 3 && "ppt"@[0] == 'p' && "ppt"@[1] == 'p' && "ppt"@[2] == 't',
        "pptx"@.len() == 4 && "pptx"@[0] == 'p' && "pptx"@[3] == 'x',
        "pptm"@.len() == 4 && "pptm"@[0] == 'p' && "pptm"@[3] == 'm',
        "pdf"@.len() == 3 && "pdf"@[0] == 'p' && "pdf"@[1] == 'd' && "pdf"@[2] == 'f',
        "lnk"@.len() == 3 && "lnk"@[0] == 'l' && "lnk"@[1] == 'n' && "lnk"@[2] == 'k',
        "url"@.len() == 3 && "url"@[0] == 'u' && "url"@[1] == 'r' && "url"@[2] == 'l',
        "reg"@.len() == 3 && "reg"@[0] == 'r' && "reg"@[1] == 'e' && "reg"@[2] == 'g',
        "inf"@.len() == 3 && "inf"@[0] == 'i' && "inf"@[1] == 'n' && "inf"@[2] == 'f',
        "jpg"@.len() == 3 && "jpg"@[0] == 'j' && "jpg"@[1] == 'p' && "jpg"@[2] == 'g',
        "jpeg"@.len() == 4 && "jpeg"@[0] == 'j' && "jpeg"@[3] == 'g',
        "png"@.len() == 3 && "png"@[0] == 'p' && "png"@[1] == 'n' && "png"@[2] == 'g',
        "gif"@.len() == 3 && "gif"@[0] == 'g' && "gif"@[1] == 'i' && "gif"@[2] == 'f',
        "bmp"@.len() == 3 && "bmp"@[0] == 'b' && "bmp"@[1] == 'm' && "bmp"@[2] == 'p',
        "webp"@.len() == 4 && "webp"@[0] == 'w' && "webp"@[3] == 'p',
        "svg"@.len() == 3 && "svg"@[0] == 's' && "svg"@[1] == 'v' && "svg"@[2] == 'g',
        "ico"@.len() == 3 && "ico"@[0] == 'i' && "ico"@[1] == 'c' && "ico"@[2] == 'o',
        "woff"@.len() == 4 && "woff"@[0] == 'w' && "woff"@[3] == 'f',
        "woff2"@.len() == 5 && "woff2"@[0] == 'w',
        "ttf"@.len() == 3 && "ttf"@[0] == 't' && "ttf"@[1] == 't' && "ttf"@[2] == 'f',
        "otf"@.len() == 3 && "otf"@[0] == 'o' && "otf"@[1] == 't' && "otf"@[2] == 'f',
        "eot"@.len() == 3 && "eot"@[0] == 'e' && "eot"@[1] == 'o' && "eot"@[2] == 't',
        "mp3"@.len() == 3 && "mp3"@[0] == 'm' && "mp3"@[1] == 'p' && "mp3"@[2] == '3',
        "mp4"@.len() == 3 && "mp4"@[0] == 'm' && "mp4"@[1] == 'p' && "mp4"@[2] == '4',
        "mkv"@.len() == 3 && "mkv"@[0] == 'm' && "mkv"@[1] == 'k' && "mkv"@[2] == 'v',
        "avi"@.len() == 3 && "avi"@[0] == 'a' && "avi"@[1] == 'v' && "avi"@[2] == 'i',
        "wav"@.len() == 3 && "wav"@[0] == 'w' && "wav"@[1] == 'a' && "wav"@[2] == 'v',
        "flac"@.len() == 4 && "flac"@[0] == 'f' && "flac"@[3] == 'c',
        "ogg"@.len() == 3 && "ogg"@[0] == 'o' && "ogg"@[1] == 'g' && "ogg"@[2] == 'g',
        "webm"@.len() == 4 && "webm"@[0] == 'w' && "webm"@[3] == 'm',
        "rlib"@.len() == 4 && "rlib"@[0] == 'r' && "rlib"@[3] == 'b',
        "rmeta"@.len() == 5 && "rmeta"@[0] == 'r',
        "pdb"@.len() == 3 && "pdb"@[0] == 'p' && "pdb"@[1] == 'd' && "pdb"@[2] == 'b',
        "ilk"@.len() == 3 && "ilk"@[0] == 'i' && "ilk"@[1] == 'l' && "ilk"@[2] == 'k',
        "map"@.len() == 3 && "map"@[0] == 'm' && "map"@[1] == 'a' && "map"@[2] == 'p',
        "log"@.len() == 3 && "log"@[0] == 'l' && "log"@[1] == 'o' && "log"@[2] == 'g',
        "tmp"@.len() == 3 && "tmp"@[0] == 't' && "tmp"@[1] == 'm' && "tmp"@[2] == 'p',
        "bak"@.len() == 3 && "bak"@[0] == 'b' && "bak"@[1] == 'a' && "bak"@[2] == 'k',
        "lock"@.len() == 4 && "lock"@[0] == 'l' && "lock"@[3] == 'k',
{
    reveal_strlit("exe");
    reveal_strlit("dll");
    reveal_strlit("scr");
    reveal_strlit("com");
    reveal_strlit("pif");
    reveal_strlit("bat");
    reveal_strlit("cmd");
    reveal_strlit("ps1");
    reveal_strlit("vbs");
    reveal_strlit("js");
    reveal_strlit("wsh");
    reveal_strlit("wsf");
    reveal_strlit("msi");
    reveal_strlit("msix");
    reveal_strlit("appx");
    reveal_strlit("zip");
    reveal_strlit("rar");
    reveal_strlit("7z");
    reveal_strlit("tar");
    reveal_strlit("gz");
    reveal_strlit("iso");
    reveal_strlit("cab");
    reveal_strlit("doc");
    reveal_strlit("docx");
    reveal_strlit("docm");
    reveal_strlit("xls");
    reveal_strlit("xlsx");
    reveal_strlit("xlsm");
    reveal_strlit("ppt");
    reveal_strlit("pptx");
    reveal_strlit("pptm");
    reveal_strlit("pdf");
    reveal_strlit("lnk");
    reveal_strlit("url");
    reveal_strlit("reg");
    reveal_strlit("inf");
    reveal_strlit("jpg");
    reveal_strlit("jpeg");
    reveal_strlit("png");
    reveal_strlit("gif");
    reveal_strlit("bmp");
    reveal_strlit("webp");
    reveal_strlit("svg");
    reveal_strlit("ico");
    reveal_strlit("woff");
    reveal_strlit("woff2");
    reveal_strlit("ttf");
    reveal_strlit("otf");
    reveal_strlit("eot");
    reveal_strlit("mp3");
    reveal_strlit("mp4");
    reveal_strlit("mkv");
    reveal_strlit("avi");
    reveal_strlit("wav");
    reveal_strlit("flac");
    reveal_strlit("ogg");
    reveal_strlit("webm");
    reveal_strlit("rlib");
    reveal_strlit("rmeta");
    reveal_strlit("pdb");
    reveal_strlit("ilk");
    reveal_strlit("map");
    reveal_strlit("log");
    reveal_strlit("tmp");
    reveal_strlit("bak");
    reveal_strlit("lock");
}

/// Programs are scanned first, then scripts, installers, archives, documents, links
/// and registry files, and everything else last.
pub proof fn dangerous_kinds_go_first(lower: Seq<char>)
    ensures
        priority(lower) == 0 <==> (lower == "exe"@
            || lower == "dll"@
            || lower == "scr"@
            || lower == "com"@
            || lower == "pif"@),
        priority(lower) == 1 <==> (lower == "bat"@
            || lower == "cmd"@
            || lower == "ps1"@
            || lower == "vbs"@
            || lower == "js"@
            || lower == "wsh"@
            || lower == "wsf"@),
        priority(lower) == 2 <==> (lower == "msi"@
            || lower == "msix"@
            || lower == "appx"@),
        priority(lower) == 3 <==> (lower == "zip"@
            || lower == "rar"@
            || lower == "7z"@
            || lower == "tar"@
            || lower == "gz"@
            || lower == "iso"@
            || lower == "cab"@),
        priority(lower) == 4 <==> (lower == "doc"@
            || lower == "docx"@
            || lower == "docm"@
            || lower == "xls"@
            || lower == "xlsx"@
            || lower == "xlsm"@
            || lower == "ppt"@
            || lower == "pptx"@
            || lower == "pptm"@
            || lower == "pdf"@),
        priority(lower) == 5 <==> (lower == "lnk"@
            || lower == "url"@),
        priority(lower) == 6 <==> (lower == "reg"@
            || lower == "inf"@),
        priority(lower) == 10 <==> !(lower == "exe"@
            || lower == "dll"@
            || lower == "scr"@
            || lower == "com"@
            || lower == "pif"@
            || lower == "bat"@
            || lower == "cmd"@
            || lower == "ps1"@
            || lower == "vbs"@
            || lower == "js"@
            || lower == "wsh"@
            || lower == "wsf"@
            || lower == "msi"@
            || lower == "msix"@
            || lower == "appx"@
            || lower == "zip"@
            || lower == "rar"@
            || lower == "7z"@
            || lower == "tar"@
            || lower == "gz"@
            || lower == "iso"@
            || lower == "cab"@
            || lower == "doc"@
            || lower == "docx"@
            || lower == "docm"@
            || lower == "xls"@
            || lower == "xlsx"@
            || lower == "xlsm"@
            || lower == "ppt"@
            || lower == "pptx"@
            || lower == "pptm"@
            || lower == "pdf"@
            || lower == "lnk"@
            || lower == "url"@
            || lower == "reg"@
            || lower == "inf"@),
{
    lemma_extensions();
    let words0 = seq!["exe", "dll", "scr", "com", "pif"];
    assert(words0[0]@ == "exe"@);
    assert(words0[1]@ == "dll"@);
    assert(words0[2]@ == "scr"@);
    assert(words0[3]@ == "com"@);
    assert(words0[4]@ == "pif"@);
    let words1 = seq!["bat", "cmd", "ps1", "vbs", "js", "wsh", "wsf"];
    assert(words1[0]@ == "bat"@);
    assert(words1[1]@ == "cmd"@);
    assert(words1[2]@ == "ps1"@);
    assert(words1[3]@ == "vbs"@);
    assert(words1[4]@ == "js"@);
    assert(words1[5]@ == "wsh"@);
    assert(words1[6]@ == "wsf"@);
    let words2 = seq!["msi", "msix", "appx"];
    assert(words2[0]@ == "msi"@);
    assert(words2[1]@ == "msix"@);
    assert(words2[2]@ == "appx"@);
    let words3 = seq!["zip", "rar", "7z", "tar", "gz", "iso", "cab"];
    assert(words3[0]@ == "zip"@);
    assert(words3[1]@ == "rar"@);
    assert(words3[2]@ == "7z"@);
    assert(words3[3]@ == "tar"@);
    assert(words3[4]@ == "gz"@);
    assert(words3[5]@ == "iso"@);
    assert(words3[6]@ == "cab"@);
    let words4 = seq!["doc", "docx", "docm", "xls", "xlsx", "xlsm", "ppt", "pptx", "pptm", "pdf"];
    assert(words4[0]@ == "doc"@);
    assert(words4[1]@ == "docx"@);
    assert(words4[2]@ == "docm"@);
    assert(words4[3]@ == "xls"@);
    assert(words4[4]@ == "xlsx"@);
    assert(words4[5]@ == "xlsm"@);
    assert(words4[6]@ == "ppt"@);
    assert(words4[7]@ == "pptx"@);
    assert(words4[8]@ == "pptm"@);
    assert(words4[9]@ == "pdf"@);
    let words5 = seq!["lnk", "url"];
    assert(words5[0]@ == "lnk"@);
    assert(words5[1]@ == "url"@);
    let words6 = seq!["reg", "inf"];
    assert(words6[0]@ == "reg"@);
    assert(words6[1]@ == "inf"@);
}

/// A file is kept where it is a plain file of a size that can be scanned and nothing
/// speaks against it, as long as there is room; no directory is.
pub proof fn plain_files_are_kept(found: int, max_count: int, e: IdleEntry, max_size: u64)
    ensures
        keeps(found, max_count, e, max_size) ==> !e.is_symlink && !e.excluded && !e.own
            && !e.skippable && !e.build_or_dev && !e.is_dir && e.is_file && found < max_count
            && e.size is Some && 0 < e.size->0 <= max_size,
        found < max_count && e.is_file && !e.is_dir && !e.is_symlink && !e.excluded && !e.own
            && !e.skippable && !e.build_or_dev && e.size is Some && 0 < e.size->0 <= max_size
            && e.extension is None ==> keeps(found, max_count, e, max_size),
        (e.extension matches Some(x) && one_of(lowercased(x@), harmless_extensions())) ==> !keeps(
            found,
            max_count,
            e,
            max_size,
        ),
        found < max_count && e.is_file && !e.is_dir && !e.is_symlink && !e.excluded && !e.own
            && !e.skippable && !e.build_or_dev && e.size is Some && 0 < e.size->0 <= max_size && (
        e.extension matches Some(x) && !one_of(lowercased(x@), harmless_extensions())) ==> keeps(
            found,
            max_count,
            e,
            max_size,
        ),
{
}

/// A directory is entered unless it is excluded, the daemon's own or noisy, and the
/// walk ends when there are enough files or it is eight levels deep.
pub proof fn plain_directories_are_entered(found: int, max_count: int, e: IdleEntry, depth: u32)
    ensures
        next_offer(found, max_count, e) is Full <==> found >= max_count,
        next_offer(found, max_count, e) is Enter ==> e.is_dir && !e.excluded && !e.own,
        found < max_count && e.is_dir && !e.excluded && !e.own && e.name is Some && !one_of(
            lowercased(e.name->0@),
            noisy_directories(),
        ) ==> next_offer(found, max_count, e) is Enter,
        (e.name matches Some(n) && one_of(lowercased(n@), noisy_directories())) ==> !(next_offer(
            found,
            max_count,
            e,
        ) is Enter),
        !e.is_dir ==> !(next_offer(found, max_count, e) is Enter),
        listable(depth, found, max_count) <==> depth <= 8 && found < max_count,
{
}

/// A kept file is added behind the others as it is, with the priority of its
/// extension in any case.
pub proof fn kept_file_is_added(files: Seq<Candidate>, e: IdleEntry, after: Seq<Candidate>)
    requires
        offered(files, e, after),
    ensures
        after.len() == files.len() + 1,
        after.take(files.len() as int) == files,
        after.last().path@ == e.path@,
        after.last().modified == e.modified,
        e.extension matches Some(x) ==> after.last().priority == priority(lowercased(x@)),
        e.extension is None ==> after.last().priority == 10,
{
    assert(after.take(files.len() as int) =~= after.drop_last());
    reveal_strlit("");
    lemma_extensions();
    dangerous_kinds_go_first(""@);
}

} // verus!
