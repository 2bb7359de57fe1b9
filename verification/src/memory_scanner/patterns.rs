//! Patterns in executable memory that injected code leaves behind.

use super::{finding_list, MemoryFinding, MemorySeverity};
use crate::text::{decimal, decimal_text, text_view};
use vstd::prelude::*;
use vstd::utf8::*;

verus! {

/// Whether `needle` stands in `data` at `at`.
pub open spec fn bytes_at(data: Seq<u8>, needle: Seq<u8>, at: int) -> bool {
    0 <= at && at + needle.len() <= data.len() && data.subrange(at, at + needle.len()) == needle
}

/// Whether the bytes of a text occur in `data`.
pub open spec fn holds_text(data: Seq<u8>, text: Seq<char>) -> bool {
    exists|at: int| bytes_at(data, encode_utf8(text), at)
}

fn stands_at(data: &[u8], needle: &[u8], at: usize) -> (found: bool)
    requires
        at + needle@.len() <= data@.len(),
    ensures
        found == bytes_at(data@, needle@, at as int),
{
    let n: usize = data.len();
    let mut i: usize = 0;
    while i < needle.len()
        invariant
            i <= needle@.len(),
            n == data@.len(),
            at + needle@.len() <= n,
            forall|j: int| 0 <= j < i ==> data@[at + j] == #[trigger] needle@[j],
        decreases needle@.len() - i,
    {
        if data[at + i] != needle[i] {
            assert(data@.subrange(at as int, at + needle@.len())[i as int] != needle@[i as int]);
            return false;
        }
        i = i + 1;
    }
    assert(data@.subrange(at as int, at + needle@.len()) =~= needle@);
    true
}

/// Look for the bytes of a text.
pub fn contains_text(data: &[u8], text: &str) -> (found: bool)
    ensures
        found == holds_text(data@, text@),
{
    let needle = text.as_bytes();
    if needle.len() > data.len() {
        return false;
    }
    let last: usize = data.len() - needle.len();
    let mut i: usize = 0;
    loop
        invariant
            needle@ == encode_utf8(text@),
            needle@.len() <= data@.len(),
            last == data@.len() - needle@.len(),
            i <= last,
            forall|j: int| 0 <= j < i ==> !(#[trigger] bytes_at(data@, needle@, j)),
        decreases last - i,
    {
        if stands_at(data, needle, i) {
            return true;
        }
        if i == last {
            assert forall|j: int| !(#[trigger] bytes_at(data@, encode_utf8(text@), j)) by {
                if 0 <= j <= last && j < i {
                }
            }
            return false;
        }
        i = i + 1;
    }
}

/// The number of four bytes, the least significant first.
pub open spec fn number_at(data: Seq<u8>, at: int) -> int {
    data[at] + 0x100 * data[at + 1] + 0x1_0000 * data[at + 2] + 0x100_0000 * data[at + 3]
}

/// Whether `data` begins like a program: the old header, and the new one where
/// the old header says.
pub open spec fn begins_like_program(data: Seq<u8>) -> bool {
    &&& data.len() >= 64
    &&& data[0] == 0x4D
    &&& data[1] == 0x5A
    &&& number_at(data, 60) + 4 <= data.len()
    &&& data[number_at(data, 60)] == 0x50
    &&& data[number_at(data, 60) + 1] == 0x45
    &&& data[number_at(data, 60) + 2] == 0
    &&& data[number_at(data, 60) + 3] == 0
}

pub fn has_program_header(data: &[u8]) -> (yes: bool)
    ensures
        yes == begins_like_program(data@),
{
    if data.len() < 64 || data[0] != 0x4D || data[1] != 0x5A {
        return false;
    }
    let at: u64 = data[60] as u64 + 0x100 * data[61] as u64 + 0x1_0000 * data[62] as u64
        + 0x100_0000 * data[63] as u64;
    if at + 4 > data.len() as u64 {
        return false;
    }
    let at: usize = at as usize;
    data[at] == 0x50 && data[at + 1] == 0x45 && data[at + 2] == 0 && data[at + 3] == 0
}

/// How far a run of no-operations is looked for.
pub const SLED_WINDOW: usize = 8192;

/// Whether 32 no-operations stand in a row from `at` on.
pub open spec fn sled_at(data: Seq<u8>, at: int) -> bool {
    0 <= at && at + 32 <= data.len() && at + 32 <= SLED_WINDOW && forall|i: int|
        at <= i < at + 32 ==> (#[trigger] data[i]) == 0x90
}

/// Whether such a row begins in the first bytes.
pub open spec fn has_sled(data: Seq<u8>) -> bool {
    exists|at: int| sled_at(data, at)
}

pub fn has_nop_sled(data: &[u8]) -> (yes: bool)
    ensures
        yes == has_sled(data@),
{
    let end: usize = if data.len() < SLED_WINDOW {
        data.len()
    } else {
        SLED_WINDOW
    };
    let mut run: usize = 0;
    let mut i: usize = 0;
    while i < end
        invariant
            end <= data@.len(),
            end <= SLED_WINDOW,
            end == data@.len() || end == SLED_WINDOW,
            i <= end,
            run < 32,
            run <= i,
            forall|j: int| i - run <= j < i ==> (#[trigger] data@[j]) == 0x90,
            i - run > 0 ==> data@[i - run - 1] != 0x90,
            forall|at: int| at + 32 <= i ==> !(#[trigger] sled_at(data@, at)),
        decreases end - i,
    {
        let ghost start = i - run;
        if data[i] == 0x90 {
            run = run + 1;
            if run >= 32 {
                assert(sled_at(data@, start));
                return true;
            }
            assert forall|at: int| at + 32 <= i + 1 implies !(#[trigger] sled_at(data@, at)) by {
                if at >= 0 && at + 32 == i + 1 {
                    assert(at <= start - 1 < at + 32);
                    assert(data@[start - 1] != 0x90);
                }
            }
        } else {
            run = 0;
            assert forall|at: int| at + 32 <= i + 1 implies !(#[trigger] sled_at(data@, at)) by {
                if at >= 0 && at + 32 == i + 1 {
                    assert(data@[i as int] != 0x90);
                }
            }
        }
        i = i + 1;
    }
    assert forall|at: int| !(#[trigger] sled_at(data@, at)) by {
        if at + 32 <= end {
        }
    }
    false
}

/// One where `yes`, else none.
pub open spec fn one_if(yes: bool) -> int {
    if yes {
        1
    } else {
        0
    }
}

/// How many of the names that shellcode looks up are there.
pub open spec fn api_names(data: Seq<u8>) -> int {
    one_if(holds_text(data, "kernel32.dll"@)) + one_if(holds_text(data, "ntdll.dll"@)) + one_if(
        holds_text(data, "VirtualAlloc"@),
    ) + one_if(holds_text(data, "LoadLibraryA"@)) + one_if(holds_text(data, "GetProcAddress"@))
}

fn count_if(count: u64, yes: bool) -> (n: u64)
    requires
        count < 100,
    ensures
        n == count + one_if(yes),
{
    if yes {
        count + 1
    } else {
        count
    }
}

pub fn count_api_names(data: &[u8]) -> (n: u64)
    ensures
        n == api_names(data@),
{
    let n: u64 = count_if(0, contains_text(data, "kernel32.dll"));
    let n: u64 = count_if(n, contains_text(data, "ntdll.dll"));
    let n: u64 = count_if(n, contains_text(data, "VirtualAlloc"));
    let n: u64 = count_if(n, contains_text(data, "LoadLibraryA"));
    count_if(n, contains_text(data, "GetProcAddress"))
}

/// Smallest amount of data whose entropy says something.
pub const ENTROPY_MIN: usize = 1024;

/// How much of the data the entropy is taken of.
pub const ENTROPY_WINDOW: usize = 65_536;

/// How many bytes to take the entropy of, if it says something.
pub open spec fn sample_size(len: int) -> Option<int> {
    if len < ENTROPY_MIN {
        None
    } else if len < ENTROPY_WINDOW {
        Some(len)
    } else {
        Some(ENTROPY_WINDOW as int)
    }
}

pub fn entropy_sample(len: usize) -> (n: Option<usize>)
    ensures
        sample_size(len as int) == (match n {
            Some(k) => Some(k as int),
            None => None,
        }),
        n == if len < ENTROPY_MIN {
            None
        } else if len < ENTROPY_WINDOW {
            Some(len)
        } else {
            Some(ENTROPY_WINDOW)
        },
{
    if len < ENTROPY_MIN {
        None
    } else if len < ENTROPY_WINDOW {
        Some(len)
    } else {
        Some(ENTROPY_WINDOW)
    }
}

/// How often a byte occurs.
pub open spec fn occurrences(data: Seq<u8>, byte: u8) -> nat
    decreases data.len(),
{
    if data.len() == 0 {
        0
    } else if data.last() == byte {
        occurrences(data.drop_last(), byte) + 1
    } else {
        occurrences(data.drop_last(), byte)
    }
}

/// Count each byte of the sample, for its entropy.
pub fn byte_counts(data: &[u8]) -> (counts: Vec<u64>)
    ensures
        counts@.len() == 256,
        forall|b: u8| #[trigger] counts@[b as int] == occurrences(data@, b),
{
    let mut counts: Vec<u64> = Vec::new();
    let mut k: usize = 0;
    while k < 256
        invariant
            k <= 256,
            counts@.len() == k,
            forall|j: int| 0 <= j < k ==> counts@[j] == 0,
        decreases 256 - k,
    {
        counts.push(0);
        k = k + 1;
    }
    let mut i: usize = 0;
    while i < data.len()
        invariant
            counts@.len() == 256,
            i <= data@.len(),
            forall|b: u8|
                #[trigger] counts@[b as int] == occurrences(data@.take(i as int), b) && counts@[b as int]
                    <= i,
        decreases data@.len() - i,
    {
        assert(data@.take(i + 1).drop_last() =~= data@.take(i as int));
        let b: u8 = data[i];
        let ghost before = counts@;
        assert(before[b as int] <= i);
        let seen: u64 = counts[b as usize];
        counts[b as usize] = seen + 1;
        assert forall|c: u8|
            #[trigger] counts@[c as int] == occurrences(data@.take(i + 1), c) && counts@[c as int] <= i
                + 1 by {
            assert(before[c as int] == occurrences(data@.take(i as int), c));
        }
        i = i + 1;
    }
    assert(data@.take(data@.len() as int) =~= data@);
    counts
}

/// A pattern that was found: what it is and how serious.
pub struct Pattern {
    pub description: Seq<char>,
    pub severity: MemorySeverity,
}

/// The pattern as a list of one, if it is there.
pub open spec fn pattern_if(yes: bool, description: Seq<char>, severity: MemorySeverity) -> Seq<
    Pattern,
> {
    if yes {
        seq![Pattern { description, severity }]
    } else {
        Seq::empty()
    }
}

/// Patterns of code.
pub open spec fn code_patterns(data: Seq<u8>) -> Seq<Pattern> {
    pattern_if(
        begins_like_program(data),
        "PE header found in executable memory — possible injected or unpacked module"@,
        MemorySeverity::Suspicious,
    ) + pattern_if(
        has_sled(data),
        "Large NOP sled detected — common shellcode landing pad"@,
        MemorySeverity::Suspicious,
    )
}

/// Patterns of names that loaders use.
pub open spec fn loader_patterns(data: Seq<u8>) -> Seq<Pattern> {
    pattern_if(
        holds_text(data, "ReflectiveLoader"@) || holds_text(data, "reflective_loader"@),
        "Reflective DLL loader string found in memory — technique used to load DLLs without LoadLibrary"@,
        MemorySeverity::Malicious,
    ) + pattern_if(
        api_names(data) >= 3,
        "Manual API resolution pattern ("@ + decimal(api_names(data) as nat)
            + "/5 common APIs as strings) — indicates position-independent shellcode or reflective loader"@,
        MemorySeverity::Suspicious,
    )
}

/// Patterns of a payload.
pub open spec fn payload_patterns(data: Seq<u8>, high_entropy: Option<Seq<char>>) -> Seq<Pattern> {
    pattern_if(
        data.len() >= ENTROPY_MIN && high_entropy is Some,
        "High entropy ("@ + high_entropy->0
            + ") in executable memory — possible encrypted or compressed payload"@,
        MemorySeverity::Suspicious,
    ) + pattern_if(
        holds_text(data, "NtUnmapViewOfSection"@) || holds_text(data, "ZwUnmapViewOfSection"@),
        "Process hollowing API string (NtUnmapViewOfSection) in memory — used to replace process image"@,
        MemorySeverity::Malicious,
    )
}

/// The patterns in `data`, given its entropy in words where that is high.
pub open spec fn patterns_in(data: Seq<u8>, high_entropy: Option<Seq<char>>) -> Seq<Pattern> {
    code_patterns(data) + loader_patterns(data) + payload_patterns(data, high_entropy)
}

/// Patterns as findings on a region.
pub open spec fn as_findings(patterns: Seq<Pattern>, base_addr: u64, size: u64) -> Seq<
    MemoryFinding<Seq<char>>,
> {
    patterns.map_values(
        |p: Pattern|
            MemoryFinding {
                region_address: base_addr,
                region_size: size,
                description: p.description,
                severity: p.severity,
                yara_rule: None::<Seq<char>>,
            },
    )
}

fn push_pattern(
    findings: &mut Vec<MemoryFinding>,
    yes: bool,
    description: String,
    severity: MemorySeverity,
    base_addr: u64,
    size: u64,
)
    ensures
        finding_list(final(findings)@) == finding_list(old(findings)@) + as_findings(
            pattern_if(yes, description@, severity),
            base_addr,
            size,
        ),
{
    let ghost before = finding_list(findings@);
    if yes {
        findings.push(
            MemoryFinding {
                region_address: base_addr,
                region_size: size,
                description,
                severity,
                yara_rule: None,
            },
        );
    }
    assert(finding_list(findings@) =~= before + as_findings(
        pattern_if(yes, description@, severity),
        base_addr,
        size,
    ));
}

proof fn lemma_findings_add(a: Seq<Pattern>, b: Seq<Pattern>, base_addr: u64, size: u64)
    ensures
        as_findings(a + b, base_addr, size) == as_findings(a, base_addr, size) + as_findings(
            b,
            base_addr,
            size,
        ),
{
    assert(as_findings(a + b, base_addr, size) =~= as_findings(a, base_addr, size) + as_findings(
        b,
        base_addr,
        size,
    ));
}

fn add_code_patterns(data: &[u8], base_addr: u64, size: u64, findings: &mut Vec<MemoryFinding>)
    ensures
        finding_list(final(findings)@) == finding_list(old(findings)@) + as_findings(
            code_patterns(data@),
            base_addr,
            size,
        ),
{
    let ghost first = finding_list(findings@);
    let program = has_program_header(data);
    push_pattern(
        findings,
        program,
        "PE header found in executable memory — possible injected or unpacked module".to_owned(),
        MemorySeverity::Suspicious,
        base_addr,
        size,
    );
    let sled = has_nop_sled(data);
    push_pattern(
        findings,
        sled,
        "Large NOP sled detected — common shellcode landing pad".to_owned(),
        MemorySeverity::Suspicious,
        base_addr,
        size,
    );
    assert(finding_list(findings@) =~= first + as_findings(code_patterns(data@), base_addr, size));
}

fn add_loader_patterns(data: &[u8], base_addr: u64, size: u64, findings: &mut Vec<MemoryFinding>)
    ensures
        finding_list(final(findings)@) == finding_list(old(findings)@) + as_findings(
            loader_patterns(data@),
            base_addr,
            size,
        ),
{
    let ghost first = finding_list(findings@);
    let loader = contains_text(data, "ReflectiveLoader") || contains_text(
        data,
        "reflective_loader",
    );
    push_pattern(
        findings,
        loader,
        "Reflective DLL loader string found in memory — technique used to load DLLs without LoadLibrary".to_owned(),
        MemorySeverity::Malicious,
        base_addr,
        size,
    );
    let hits: u64 = count_api_names(data);
    let mut resolution = "Manual API resolution pattern (".to_owned();
    resolution.append(decimal_text(hits).as_str());
    resolution.append(
        "/5 common APIs as strings) — indicates position-independent shellcode or reflective loader",
    );
    push_pattern(findings, hits >= 3, resolution, MemorySeverity::Suspicious, base_addr, size);
    assert(finding_list(findings@) =~= first + as_findings(
        loader_patterns(data@),
        base_addr,
        size,
    ));
}

fn add_payload_patterns(
    data: &[u8],
    base_addr: u64,
    size: u64,
    high_entropy: Option<&str>,
    findings: &mut Vec<MemoryFinding>,
)
    ensures
        finding_list(final(findings)@) == finding_list(old(findings)@) + as_findings(
            payload_patterns(data@, text_view(high_entropy)),
            base_addr,
            size,
        ),
{
    let ghost first = finding_list(findings@);
    if data.len() >= ENTROPY_MIN {
        if let Some(text) = high_entropy {
            let mut entropy = "High entropy (".to_owned();
            entropy.append(text);
            entropy.append(") in executable memory — possible encrypted or compressed payload");
            push_pattern(findings, true, entropy, MemorySeverity::Suspicious, base_addr, size);
        }
    }
    let hollowing = contains_text(data, "NtUnmapViewOfSection") || contains_text(
        data,
        "ZwUnmapViewOfSection",
    );
    push_pattern(
        findings,
        hollowing,
        "Process hollowing API string (NtUnmapViewOfSection) in memory — used to replace process image".to_owned(),
        MemorySeverity::Malicious,
        base_addr,
        size,
    );
    assert(finding_list(findings@) =~= first + as_findings(
        payload_patterns(data@, text_view(high_entropy)),
        base_addr,
        size,
    ));
}

/// Look for the patterns in a region and add what is found. The entropy comes in
/// words, with two decimals, where it is above 7.5 bits per byte.
pub fn check_memory_patterns(
    data: &[u8],
    base_addr: u64,
    size: u64,
    high_entropy: Option<&str>,
    findings: &mut Vec<MemoryFinding>,
)
    ensures
        finding_list(final(findings)@) == finding_list(old(findings)@) + as_findings(
            patterns_in(data@, text_view(high_entropy)),
            base_addr,
            size,
        ),
{
    let ghost first = finding_list(findings@);
    add_code_patterns(data, base_addr, size, findings);
    add_loader_patterns(data, base_addr, size, findings);
    add_payload_patterns(data, base_addr, size, high_entropy, findings);
    proof {
        let a = code_patterns(data@);
        let b = loader_patterns(data@);
        let c = payload_patterns(data@, text_view(high_entropy));
        lemma_findings_add(a, b, base_addr, size);
        lemma_findings_add(a + b, c, base_addr, size);
        assert(finding_list(findings@) =~= first + as_findings(a + b + c, base_addr, size));
    }
}

/// A region without any of the patterns yields nothing.
pub proof fn clean_region_yields_nothing(data: Seq<u8>, base_addr: u64, size: u64)
    requires
        !begins_like_program(data),
        !has_sled(data),
        !holds_text(data, "ReflectiveLoader"@),
        !holds_text(data, "reflective_loader"@),
        api_names(data) < 3,
        !holds_text(data, "NtUnmapViewOfSection"@),
        !holds_text(data, "ZwUnmapViewOfSection"@),
    ensures
        as_findings(patterns_in(data, None), base_addr, size).len() == 0,
{
}

/// Bytes occur where some front and some end complete them to the data.
pub proof fn bytes_split_the_data(data: Seq<u8>, text: Seq<char>, front: Seq<u8>, end: Seq<u8>)
    ensures
        data == front + encode_utf8(text) + end ==> holds_text(data, text),
        holds_text(data, text) ==> exists|f: Seq<u8>, e: Seq<u8>|
            data == #[trigger] (f + encode_utf8(text) + e),
{
    let needle = encode_utf8(text);
    if data == front + needle + end {
        assert(data.subrange(front.len() as int, (front.len() + needle.len()) as int) =~= needle);
        assert(bytes_at(data, needle, front.len() as int));
    }
    if holds_text(data, text) {
        let at = choose|at: int| bytes_at(data, needle, at);
        let f = data.take(at);
        let e = data.skip(at + needle.len());
        assert(data =~= f + needle + e);
    }
}

/// A program begins with the letters of the old header, and has those of the new
/// header where the number at byte 60 says.
pub proof fn program_is_told_by_its_headers(data: Seq<u8>, at: int)
    requires
        data.len() >= 64,
        at == data[60] + 256 * data[61] + 65536 * data[62] + 16777216 * data[63],
    ensures
        begins_like_program(data) <==> data[0] == 'M' as u8 && data[1] == 'Z' as u8 && at + 4
            <= data.len() && data.subrange(at, at + 4) == seq!['P' as u8, 'E' as u8, 0u8, 0u8],
{
    let header = data.subrange(at, at + 4);
    if begins_like_program(data) {
        assert(header =~= seq!['P' as u8, 'E' as u8, 0u8, 0u8]);
    }
    if at + 4 <= data.len() && header == seq!['P' as u8, 'E' as u8, 0u8, 0u8] {
        assert(header[0] == data[at] && header[1] == data[at + 1]);
        assert(header[2] == data[at + 2] && header[3] == data[at + 3]);
    }
}

/// What is shorter than the old header is no program.
pub proof fn short_data_is_no_program(data: Seq<u8>)
    requires
        data.len() < 64,
    ensures
        !begins_like_program(data),
{
}

/// A sled is 32 no-operations in a row within the first 8192 bytes; a row that is
/// broken every 32 bytes is none.
pub proof fn sled_is_a_long_row(data: Seq<u8>, at: int)
    ensures
        0 <= at && at + 32 <= data.len() && at + 32 <= 8192 && (forall|i: int|
            at <= i < at + 32 ==> (#[trigger] data[i]) == 0x90) ==> has_sled(data),
        has_sled(data) ==> exists|k: int|
            0 <= k && k + 32 <= data.len() && k + 32 <= 8192 && (forall|i: int|
                k <= i < k + 32 ==> data[i] == 0x90) && #[trigger] data.skip(k).len() >= 32,
{
    if 0 <= at && at + 32 <= data.len() && at + 32 <= 8192 && (forall|i: int|
        at <= i < at + 32 ==> (#[trigger] data[i]) == 0x90) {
        assert(sled_at(data, at));
    }
    if has_sled(data) {
        let k = choose|k: int| sled_at(data, k);
        assert(data.skip(k).len() >= 32);
    }
}

/// Each of the five names counts once, and nothing else does.
pub proof fn each_api_name_counts_once(data: Seq<u8>)
    ensures
        0 <= api_names(data) <= 5,
        api_names(data) == 5 <==> holds_text(data, "kernel32.dll"@) && holds_text(
            data,
            "ntdll.dll"@,
        ) && holds_text(data, "VirtualAlloc"@) && holds_text(data, "LoadLibraryA"@) && holds_text(
            data,
            "GetProcAddress"@,
        ),
        api_names(data) == 0 <==> !holds_text(data, "kernel32.dll"@) && !holds_text(
            data,
            "ntdll.dll"@,
        ) && !holds_text(data, "VirtualAlloc"@) && !holds_text(data, "LoadLibraryA"@)
            && !holds_text(data, "GetProcAddress"@),
        holds_text(data, "kernel32.dll"@) && holds_text(data, "ntdll.dll"@) && holds_text(
            data,
            "VirtualAlloc"@,
        ) ==> api_names(data) >= 3,
        holds_text(data, "VirtualAlloc"@) && holds_text(data, "LoadLibraryA"@) && holds_text(
            data,
            "GetProcAddress"@,
        ) ==> api_names(data) >= 3,
{
}

/// Two pieces of data that hold the same of the five names have the same count, and
/// one name more makes it one higher.
pub proof fn one_more_api_name_counts_one(a: Seq<u8>, b: Seq<u8>)
    requires
        holds_text(a, "ntdll.dll"@) == holds_text(b, "ntdll.dll"@),
        holds_text(a, "VirtualAlloc"@) == holds_text(b, "VirtualAlloc"@),
        holds_text(a, "LoadLibraryA"@) == holds_text(b, "LoadLibraryA"@),
        holds_text(a, "GetProcAddress"@) == holds_text(b, "GetProcAddress"@),
    ensures
        holds_text(a, "kernel32.dll"@) == holds_text(b, "kernel32.dll"@) ==> api_names(a)
            == api_names(b),
        holds_text(a, "kernel32.dll"@) && !holds_text(b, "kernel32.dll"@) ==> api_names(a)
            == api_names(b) + 1,
{
}

proof fn lemma_one_of(a: Seq<Pattern>, b: Seq<Pattern>, p: Pattern)
    ensures
        (a + b).contains(p) <==> a.contains(p) || b.contains(p),
{
    let all = a + b;
    if a.contains(p) {
        let i = choose|i: int| 0 <= i < a.len() && a[i] == p;
        assert(all[i] == p);
    }
    if b.contains(p) {
        let i = choose|i: int| 0 <= i < b.len() && b[i] == p;
        assert(all[a.len() + i] == p);
    }
    if all.contains(p) {
        let i = choose|i: int| 0 <= i < all.len() && all[i] == p;
        if i < a.len() {
            assert(a[i] == p);
        } else {
            assert(b[i - a.len()] == p);
        }
    }
}

proof fn lemma_pattern_if(yes: bool, description: Seq<char>, severity: MemorySeverity, p: Pattern)
    ensures
        pattern_if(yes, description, severity).contains(p) <==> yes && p == (Pattern {
            description,
            severity,
        }),
{
    if yes {
        assert(pattern_if(yes, description, severity)[0] == (Pattern { description, severity }));
    }
}

/// Each pattern that is there is found, once and with its own words and severity,
/// and none that is not there.
pub proof fn patterns_are_found_where_they_are(
    data: Seq<u8>,
    high_entropy: Option<Seq<char>>,
    p: Pattern,
)
    ensures
        patterns_in(data, high_entropy).contains(p) <==> {
            ||| begins_like_program(data) && p.severity == MemorySeverity::Suspicious
                && p.description
                == "PE header found in executable memory — possible injected or unpacked module"@
            ||| has_sled(data) && p.severity == MemorySeverity::Suspicious && p.description
                == "Large NOP sled detected — common shellcode landing pad"@
            ||| (holds_text(data, "ReflectiveLoader"@) || holds_text(data, "reflective_loader"@))
                && p.severity == MemorySeverity::Malicious && p.description
                == "Reflective DLL loader string found in memory — technique used to load DLLs without LoadLibrary"@
            ||| api_names(data) >= 3 && p.severity == MemorySeverity::Suspicious && p.description
                == "Manual API resolution pattern ("@ + decimal(api_names(data) as nat)
                + "/5 common APIs as strings) — indicates position-independent shellcode or reflective loader"@
            ||| data.len() >= 1024 && high_entropy is Some && p.severity
                == MemorySeverity::Suspicious && p.description == "High entropy ("@
                + high_entropy->0
                + ") in executable memory — possible encrypted or compressed payload"@
            ||| (holds_text(data, "NtUnmapViewOfSection"@) || holds_text(
                data,
                "ZwUnmapViewOfSection"@,
            )) && p.severity == MemorySeverity::Malicious && p.description
                == "Process hollowing API string (NtUnmapViewOfSection) in memory — used to replace process image"@
        },
        patterns_in(data, high_entropy).len() == one_if(begins_like_program(data)) + one_if(
            has_sled(data),
        ) + one_if(
            holds_text(data, "ReflectiveLoader"@) || holds_text(data, "reflective_loader"@),
        ) + one_if(api_names(data) >= 3) + one_if(data.len() >= 1024 && high_entropy is Some)
            + one_if(
            holds_text(data, "NtUnmapViewOfSection"@) || holds_text(data, "ZwUnmapViewOfSection"@),
        ),
{
    lemma_one_of(
        code_patterns(data) + loader_patterns(data),
        payload_patterns(data, high_entropy),
        p,
    );
    lemma_one_of(code_patterns(data), loader_patterns(data), p);
    let program = "PE header found in executable memory — possible injected or unpacked module"@;
    let sled = "Large NOP sled detected — common shellcode landing pad"@;
    let loader =
        "Reflective DLL loader string found in memory — technique used to load DLLs without LoadLibrary"@;
    let names = "Manual API resolution pattern ("@ + decimal(api_names(data) as nat)
        + "/5 common APIs as strings) — indicates position-independent shellcode or reflective loader"@;
    let entropy = "High entropy ("@ + high_entropy->0
        + ") in executable memory — possible encrypted or compressed payload"@;
    let hollow =
        "Process hollowing API string (NtUnmapViewOfSection) in memory — used to replace process image"@;
    let soft = MemorySeverity::Suspicious;
    let hard = MemorySeverity::Malicious;
    let reflective = holds_text(data, "ReflectiveLoader"@) || holds_text(
        data,
        "reflective_loader"@,
    );
    let unmaps = holds_text(data, "NtUnmapViewOfSection"@) || holds_text(
        data,
        "ZwUnmapViewOfSection"@,
    );
    let dense = data.len() >= ENTROPY_MIN && high_entropy is Some;
    lemma_one_of(
        pattern_if(begins_like_program(data), program, soft),
        pattern_if(has_sled(data), sled, soft),
        p,
    );
    lemma_one_of(
        pattern_if(reflective, loader, hard),
        pattern_if(api_names(data) >= 3, names, soft),
        p,
    );
    lemma_one_of(pattern_if(dense, entropy, soft), pattern_if(unmaps, hollow, hard), p);
    lemma_pattern_if(begins_like_program(data), program, soft, p);
    lemma_pattern_if(has_sled(data), sled, soft, p);
    lemma_pattern_if(reflective, loader, hard, p);
    lemma_pattern_if(api_names(data) >= 3, names, soft, p);
    lemma_pattern_if(dense, entropy, soft, p);
    lemma_pattern_if(unmaps, hollow, hard, p);
}

/// A pattern becomes one finding on the region it was found in, under no rule's name.
pub proof fn pattern_becomes_one_finding(
    patterns: Seq<Pattern>,
    base_addr: u64,
    size: u64,
    f: MemoryFinding<Seq<char>>,
)
    ensures
        as_findings(patterns, base_addr, size).len() == patterns.len(),
        as_findings(patterns, base_addr, size).contains(f) <==> f.region_address == base_addr
            && f.region_size == size && f.yara_rule is None && patterns.contains(
            Pattern { description: f.description, severity: f.severity },
        ),
{
    let all = as_findings(patterns, base_addr, size);
    let p = Pattern { description: f.description, severity: f.severity };
    if all.contains(f) {
        let i = choose|i: int| 0 <= i < all.len() && all[i] == f;
        assert(patterns[i] == p);
    }
    if patterns.contains(p) {
        let i = choose|i: int| 0 <= i < patterns.len() && patterns[i] == p;
        assert(all[i].description == f.description);
        if f.region_address == base_addr && f.region_size == size && f.yara_rule is None {
            assert(all[i] == f);
        }
    }
}

proof fn lemma_occurrences_add(a: Seq<u8>, b: Seq<u8>, byte: u8)
    ensures
        occurrences(a + b, byte) == occurrences(a, byte) + occurrences(b, byte),
    decreases b.len(),
{
    if b.len() == 0 {
        assert(a + b =~= a);
    } else {
        assert((a + b).drop_last() =~= a + b.drop_last());
        lemma_occurrences_add(a, b.drop_last(), byte);
    }
}

/// The counts of two pieces add up; a single byte counts once, for itself only.
pub proof fn counts_add_up(a: Seq<u8>, b: Seq<u8>, byte: u8, other: u8)
    ensures
        occurrences(a + b, byte) == occurrences(a, byte) + occurrences(b, byte),
        occurrences(seq![byte], other) == one_if(byte == other),
        occurrences(Seq::empty(), byte) == 0,
{
    lemma_occurrences_add(a, b, byte);
    assert(seq![byte].drop_last() =~= Seq::<u8>::empty());
    assert(occurrences(seq![byte].drop_last(), other) == 0);
}

/// The entropy is that of up to 64 kilobytes, and of nothing where there is too little
/// to say something.
pub proof fn entropy_takes_a_sample(len: int)
    ensures
        sample_size(len) is None <==> len < 1024,
        sample_size(len) matches Some(n) ==> n <= len && n <= 65_536 && (n < len ==> n == 65_536),
{
}

} // verus!
