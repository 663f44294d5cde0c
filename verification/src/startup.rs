//! Startup / persistence monitoring: the evidence-based classification
//! of startup commands, reading a scheduled task's command out of its XML
//! definition, deciding which enumerated entries are new, and where a
//! removal has to happen.
use vstd::prelude::*;

use crate::models::monitoring::{StartupClassification, StartupEntry, StartupLocationType};
use crate::models::{AppError, Severity};
use crate::split::views;
use crate::text::{
    ascii_lower_seq, chars_eq, chars_of, contains_chars, contains_seq, ends_with_chars,
    ends_with_seq, find_from, first_occurrence_from, lower_chars, owned, push_str, string_of,
    sub_chars, trim, trim_chars,
};

verus! {

// ---------------------------------------------------------------------
// Classification
// ---------------------------------------------------------------------

/// The evidence line for a command that runs from an abused location.
pub open spec fn location_line(marker: Seq<char>) -> Seq<char> {
    "Runs from a commonly-abused location ("@ + marker + ")"@
}

/// The evidence lines for the abused-location markers the (lower-case)
/// command contains, in marker order: `\temp\`, `\appdata\local\temp\`,
/// `\downloads\`.
pub open spec fn location_lines(lower: Seq<char>) -> Seq<Seq<char>> {
    (if contains_seq(lower, "\\temp\\"@) {
        seq![location_line("\\temp\\"@)]
    } else {
        Seq::empty()
    }) + (if contains_seq(lower, "\\appdata\\local\\temp\\"@) {
        seq![location_line("\\appdata\\local\\temp\\"@)]
    } else {
        Seq::empty()
    }) + (if contains_seq(lower, "\\downloads\\"@) {
        seq![location_line("\\downloads\\"@)]
    } else {
        Seq::empty()
    })
}

/// The evidence line for a script file (`.vbs`, `.js`, `.ps1`).
pub open spec fn script_lines(lower: Seq<char>) -> Seq<Seq<char>> {
    if ends_with_seq(lower, ".vbs"@) || ends_with_seq(lower, ".js"@) || ends_with_seq(
        lower,
        ".ps1"@,
    ) {
        seq!["Uses a script interpreter rather than a compiled executable"@]
    } else {
        Seq::empty()
    }
}

/// The evidence line for PowerShell with an encoded command (`-enc` or
/// `-e `).
pub open spec fn powershell_lines(lower: Seq<char>) -> Seq<Seq<char>> {
    if contains_seq(lower, "powershell"@) && (contains_seq(lower, "-enc"@) || contains_seq(
        lower,
        "-e "@,
    )) {
        seq!["Invokes PowerShell with an encoded/obfuscated command"@]
    } else {
        Seq::empty()
    }
}

/// Every reason for suspicion a command shows, in check order.
pub open spec fn suspicion_lines(command: Seq<char>) -> Seq<Seq<char>> {
    let lower = ascii_lower_seq(command);
    location_lines(lower) + script_lines(lower) + powershell_lines(lower)
}

/// The evidence line of a command without reasons for suspicion.
pub open spec fn unchecked_line() -> Seq<char> {
    "Signature/publisher not yet checked (Phase 3 follow-up)"@
}

/// The classification of a startup command and its evidence: Suspicious
/// with every reason when there is one, otherwise Unknown with the note
/// that signatures are not checked yet.
///
/// The checks look at the command lower-cased. Only ASCII letters are
/// folded here; Unicode lower-casing (`str::to_lowercase`) differs from
/// that only by turning non-ASCII characters into non-ASCII text, except
/// U+212A (to `k`) and U+0130 (to `i` and a combining dot), and no marker
/// contains `k` or `i`, so both give the same verdict.
pub open spec fn classification_of(command: Seq<char>) -> (
    StartupClassification,
    Seq<Seq<char>>,
) {
    if suspicion_lines(command).len() > 0 {
        (StartupClassification::Suspicious, suspicion_lines(command))
    } else {
        (StartupClassification::Unknown, seq![unchecked_line()])
    }
}

/// The evidence line for an abused location.
fn location_evidence(marker: &str) -> (s: String)
    ensures
        s@ == location_line(marker@),
{
    let mut s = owned("Runs from a commonly-abused location (");
    push_str(&mut s, marker);
    push_str(&mut s, ")");
    s
}

/// `lower` contains the marker.
fn has(lower: &Vec<char>, marker: &str) -> (b: bool)
    ensures
        b == contains_seq(lower@, marker@),
{
    let m = chars_of(marker);
    contains_chars(lower, &m)
}

/// `lower` ends with the marker.
fn ends(lower: &Vec<char>, marker: &str) -> (b: bool)
    ensures
        b == ends_with_seq(lower@, marker@),
{
    let m = chars_of(marker);
    ends_with_chars(lower, &m)
}

/// The lower-cased command ends with the extension of a script file:
/// `.vbs`, `.js` or `.ps1`.
pub open spec fn names_a_script(command: Seq<char>) -> bool {
    let lower = ascii_lower_seq(command);
    ||| (lower.len() >= 4 && lower.subrange(lower.len() - 4, lower.len() as int) == ".vbs"@)
    ||| (lower.len() >= 3 && lower.subrange(lower.len() - 3, lower.len() as int) == ".js"@)
    ||| (lower.len() >= 4 && lower.subrange(lower.len() - 4, lower.len() as int) == ".ps1"@)
}

/// A script file is Suspicious, with the script-interpreter line among
/// its evidence.
pub proof fn lemma_scripts_are_suspicious(command: Seq<char>)
    requires
        names_a_script(command),
    ensures
        classification_of(command).0 == StartupClassification::Suspicious,
        classification_of(command).1.contains(
            "Uses a script interpreter rather than a compiled executable"@,
        ),
{
    reveal_strlit(".vbs");
    reveal_strlit(".js");
    reveal_strlit(".ps1");
    let lower = ascii_lower_seq(command);
    let loc = location_lines(lower);
    let line = "Uses a script interpreter rather than a compiled executable"@;
    assert(script_lines(lower) == seq![line]);
    let all = suspicion_lines(command);
    assert(all == loc + seq![line] + powershell_lines(lower));
    assert(all[loc.len() as int] == line);
}

/// Conservative, evidence-based classification of a startup command:
/// never a bare verdict. Commands running from temp or download folders,
/// script files and encoded PowerShell invocations are Suspicious;
/// everything else is Unknown, since signatures are not checked.
pub fn classify(command: &str) -> (r: (StartupClassification, Vec<String>))
    ensures
        r.0 == classification_of(command@).0,
        views(r.1@) == classification_of(command@).1,
        names_a_script(command@) ==> r.0 == StartupClassification::Suspicious && views(
            r.1@,
        ).contains("Uses a script interpreter rather than a compiled executable"@),
{
    proof {
        if names_a_script(command@) {
            lemma_scripts_are_suspicious(command@);
        }
    }
    let v = chars_of(command);
    let lower = lower_chars(&v);
    let ghost l = ascii_lower_seq(command@);
    let mut evidence: Vec<String> = Vec::new();
    let mut suspicious = false;
    if has(&lower, "\\temp\\") {
        evidence.push(location_evidence("\\temp\\"));
        suspicious = true;
    }
    if has(&lower, "\\appdata\\local\\temp\\") {
        evidence.push(location_evidence("\\appdata\\local\\temp\\"));
        suspicious = true;
    }
    if has(&lower, "\\downloads\\") {
        evidence.push(location_evidence("\\downloads\\"));
        suspicious = true;
    }
    assert(views(evidence@) =~= location_lines(l));
    let ghost after_locations = views(evidence@);
    if ends(&lower, ".vbs") || ends(&lower, ".js") || ends(&lower, ".ps1") {
        evidence.push(owned("Uses a script interpreter rather than a compiled executable"));
        suspicious = true;
    }
    assert(views(evidence@) =~= after_locations + script_lines(l));
    let ghost after_scripts = views(evidence@);
    if has(&lower, "powershell") && (has(&lower, "-enc") || has(&lower, "-e ")) {
        evidence.push(owned("Invokes PowerShell with an encoded/obfuscated command"));
        suspicious = true;
    }
    assert(views(evidence@) =~= suspicion_lines(command@));
    assert(suspicious == (suspicion_lines(command@).len() > 0));
    if suspicious {
        (StartupClassification::Suspicious, evidence)
    } else {
        evidence.push(owned("Signature/publisher not yet checked (Phase 3 follow-up)"));
        assert(views(evidence@) =~= seq![unchecked_line()]);
        (StartupClassification::Unknown, evidence)
    }
}

/// The severity of the event recorded for a newly seen startup entry.
pub open spec fn new_entry_severity(c: StartupClassification) -> Severity {
    match c {
        StartupClassification::Suspicious => Severity::High,
        StartupClassification::Unknown => Severity::Medium,
        StartupClassification::Known => Severity::Info,
    }
}

/// Computes `new_entry_severity`.
pub fn severity_for_new_entry(c: StartupClassification) -> (s: Severity)
    ensures
        s == new_entry_severity(c),
{
    match c {
        StartupClassification::Suspicious => Severity::High,
        StartupClassification::Unknown => Severity::Medium,
        StartupClassification::Known => Severity::Info,
    }
}

/// The event text for a newly seen startup entry.
pub fn new_entry_description(entry: &StartupEntry) -> (s: String)
    ensures
        s@ == "New startup entry detected: "@ + entry.name@ + " ("@ + entry.command@ + ")"@,
{
    let mut s = owned("New startup entry detected: ");
    push_str(&mut s, entry.name.as_str());
    push_str(&mut s, " (");
    push_str(&mut s, entry.command.as_str());
    push_str(&mut s, ")");
    s
}

// ---------------------------------------------------------------------
// Scheduled task XML
// ---------------------------------------------------------------------

/// The trimmed text between the first `<tag>` and the first `</tag>`
/// after it, if both occur.
pub open spec fn tag_text(xml: Seq<char>, tag: Seq<char>) -> Option<Seq<char>> {
    let open = "<"@ + tag + ">"@;
    let close = "</"@ + tag + ">"@;
    match first_occurrence_from(xml, open, 0) {
        None => None,
        Some(a) => {
            let start = a + open.len();
            match first_occurrence_from(xml, close, start) {
                None => None,
                Some(b) => Some(trim(xml.subrange(start, b))),
            }
        },
    }
}

/// Extracts the trimmed text of the first `<tag>...</tag>` element of a
/// small, predictable XML document by plain substring search.
pub fn extract_tag(xml: &str, tag: &str) -> (r: Option<String>)
    ensures
        match r {
            Some(s) => tag_text(xml@, tag@) == Some(s@),
            None => tag_text(xml@, tag@) is None,
        },
{
    let x = chars_of(xml);
    let mut open = owned("<");
    push_str(&mut open, tag);
    push_str(&mut open, ">");
    let mut close = owned("</");
    push_str(&mut close, tag);
    push_str(&mut close, ">");
    let ov = chars_of(open.as_str());
    let cv = chars_of(close.as_str());
    let a = match find_from(&x, &ov, 0) {
        Some(a) => a,
        None => {
            return None;
        },
    };
    assert(crate::text::occurs_at(x@, ov@, a as int));
    assert(a + ov@.len() <= x@.len());
    assert(a + ov.len() <= x.len());
    let start = a + ov.len();
    let b = match find_from(&x, &cv, start) {
        Some(b) => b,
        None => {
            return None;
        },
    };
    let inner = sub_chars(&x, start, b);
    let t = trim_chars(&inner);
    Some(string_of(&t))
}

/// The command of a task: its `Command`, followed by a space and its
/// `Arguments` when they are non-empty.
pub open spec fn task_command(xml: Seq<char>) -> Option<Seq<char>> {
    match tag_text(xml, "Command"@) {
        None => None,
        Some(c) => {
            let args = match tag_text(xml, "Arguments"@) {
                Some(a) => a,
                None => Seq::empty(),
            };
            if args.len() == 0 {
                Some(c)
            } else {
                Some(c + " "@ + args)
            }
        },
    }
}

/// Reads the registered command of a scheduled task out of its XML
/// definition.
pub fn extract_command(xml: &str) -> (r: Option<String>)
    ensures
        match r {
            Some(s) => task_command(xml@) == Some(s@),
            None => task_command(xml@) is None,
        },
{
    let mut command = match extract_tag(xml, "Command") {
        Some(c) => c,
        None => {
            return None;
        },
    };
    let args = match extract_tag(xml, "Arguments") {
        Some(a) => a,
        None => String::new(),
    };
    if args.as_str().is_empty() {
        Some(command)
    } else {
        push_str(&mut command, " ");
        push_str(&mut command, args.as_str());
        Some(command)
    }
}

/// The folder of a task path: everything before its last `\`, or the
/// root `\` when the last `\` is the first character or there is none.
pub open spec fn task_folder(path: Seq<char>) -> Seq<char> {
    if exists|k: int| 0 <= k < path.len() && path[k] == '\\' {
        let k = choose|k: int|
            0 <= k < path.len() && path[k] == '\\' && forall|j: int|
                k < j < path.len() ==> path[j] != '\\';
        if k == 0 {
            "\\"@
        } else {
            path.subrange(0, k)
        }
    } else {
        "\\"@
    }
}

/// The folder that holds a scheduled task, from the task's full path.
pub fn task_parent_folder(path: &str) -> (r: String)
    ensures
        r@ == task_folder(path@),
{
    let v = chars_of(path);
    let mut k: usize = v.len();
    while k > 0 && v[k - 1] != '\\'
        invariant
            k <= v.len(),
            v@ == path@,
            forall|j: int| k <= j < v.len() ==> v@[j] != '\\',
        decreases k,
    {
        k = k - 1;
    }
    if k == 0 {
        assert(!exists|i: int| 0 <= i < v@.len() && v@[i] == '\\');
        return owned("\\");
    }
    let last = k - 1;
    proof {
        let c = choose|i: int|
            0 <= i < path@.len() && path@[i] == '\\' && forall|j: int|
                i < j < path@.len() ==> path@[j] != '\\';
        assert(0 <= last < path@.len() && path@[last as int] == '\\' && forall|j: int|
            last < j < path@.len() ==> path@[j] != '\\');
        assert(c == last) by {
            if c < last {
                assert(path@[last as int] != '\\');
            } else if c > last {
            }
        }
    }
    if last == 0 {
        owned("\\")
    } else {
        let p = sub_chars(&v, 0, last);
        string_of(&p)
    }
}

/// The number of characters of a registry string value, from its size in
/// bytes including the terminating NUL.
pub fn registry_text_len(value_bytes: u32) -> (n: usize)
    ensures
        n == if value_bytes / 2 >= 1 {
            (value_bytes / 2 - 1) as nat
        } else {
            0
        },
{
    let half = (value_bytes / 2) as usize;
    if half >= 1 {
        half - 1
    } else {
        0
    }
}

// ---------------------------------------------------------------------
// Which entries are new
// ---------------------------------------------------------------------

/// The identity of a startup entry: its name and command.
pub open spec fn entry_key(e: StartupEntry) -> (Seq<char>, Seq<char>) {
    (e.name@, e.command@)
}

/// Entry `i` is new: no stored entry and no earlier entry of this
/// listing has its name and command.
pub open spec fn is_new_entry(
    entries: Seq<StartupEntry>,
    known: Seq<(Seq<char>, Seq<char>)>,
    i: int,
) -> bool {
    &&& !known.contains(entry_key(entries[i]))
    &&& forall|j: int| 0 <= j < i ==> entry_key(#[trigger] entries[j]) != entry_key(entries[i])
}

/// A stored entry's identity.
#[derive(Debug, Clone)]
pub struct EntryKey {
    pub name: String,
    pub command: String,
}

/// The identities of stored entries.
pub open spec fn key_views(ks: Seq<EntryKey>) -> Seq<(Seq<char>, Seq<char>)> {
    ks.map_values(|k: EntryKey| (k.name@, k.command@))
}

/// Two entries have the same identity.
fn same_key(name_a: &String, cmd_a: &String, name_b: &String, cmd_b: &String) -> (b: bool)
    ensures
        b == ((name_a@, cmd_a@) == (name_b@, cmd_b@)),
{
    let na = chars_of(name_a.as_str());
    let nb = chars_of(name_b.as_str());
    let ca = chars_of(cmd_a.as_str());
    let cb = chars_of(cmd_b.as_str());
    chars_eq(&na, &nb) && chars_eq(&ca, &cb)
}

/// Decides, for each freshly enumerated entry, whether it is new: new
/// entries are inserted and announced by an event, the others only have
/// their last-seen time refreshed. An entry repeated within one listing
/// is new at most once.
pub fn plan_startup_sync(entries: &Vec<StartupEntry>, known: &Vec<EntryKey>) -> (r: Vec<bool>)
    ensures
        r@.len() == entries@.len(),
        forall|i: int|
            0 <= i < entries@.len() ==> #[trigger] r@[i] == is_new_entry(
                entries@,
                key_views(known@),
                i,
            ),
{
    let mut r: Vec<bool> = Vec::new();
    let mut i: usize = 0;
    while i < entries.len()
        invariant
            i <= entries.len(),
            r@.len() == i,
            forall|k: int|
                0 <= k < i ==> #[trigger] r@[k] == is_new_entry(entries@, key_views(known@), k),
        decreases entries.len() - i,
    {
        let e = &entries[i];
        let mut stored = false;
        let mut k: usize = 0;
        while k < known.len()
            invariant
                k <= known.len(),
                i < entries.len(),
                e == entries@[i as int],
                stored == exists|m: int|
                    0 <= m < k && key_views(known@)[m] == entry_key(entries@[i as int]),
            decreases known.len() - k,
        {
            assert(key_views(known@)[k as int] == (known@[k as int].name@, known@[k as int].command@));
            if same_key(&known[k].name, &known[k].command, &e.name, &e.command) {
                stored = true;
            }
            k = k + 1;
        }
        assert(stored == key_views(known@).contains(entry_key(entries@[i as int])));
        let mut seen = false;
        let mut j: usize = 0;
        while j < i
            invariant
                j <= i < entries.len(),
                e == entries@[i as int],
                seen == exists|m: int|
                    0 <= m < j && entry_key(entries@[m]) == entry_key(entries@[i as int]),
            decreases i - j,
        {
            if same_key(&entries[j].name, &entries[j].command, &e.name, &e.command) {
                seen = true;
            }
            j = j + 1;
        }
        r.push(!stored && !seen);
        i = i + 1;
    }
    r
}

// ---------------------------------------------------------------------
// Removal
// ---------------------------------------------------------------------

/// Where removing a startup entry happens.
#[derive(Debug, Clone)]
pub enum RemovalTarget {
    /// Delete the named value from the key under HKCU, else HKLM.
    RegistryValue { subkey: String, value_name: String },
    /// Delete the file (the entry's command is its full path).
    File { path: String },
    /// Delete the scheduled task with this name and command.
    ScheduledTask { name: String, command: String },
}

/// The Run key.
pub open spec fn run_key() -> Seq<char> {
    "Software\\Microsoft\\Windows\\CurrentVersion\\Run"@
}

/// The RunOnce key.
pub open spec fn run_once_key() -> Seq<char> {
    "Software\\Microsoft\\Windows\\CurrentVersion\\RunOnce"@
}

/// Where an entry of the given location is removed.
pub fn removal_target(name: &str, command: &str, location: StartupLocationType) -> (t:
    RemovalTarget)
    ensures
        location == StartupLocationType::RegistryRun ==> (t matches RemovalTarget::RegistryValue {
            subkey,
            value_name,
        } && subkey@ == run_key() && value_name@ == name@),
        location == StartupLocationType::RegistryRunOnce ==> (
        t matches RemovalTarget::RegistryValue { subkey, value_name } && subkey@ == run_once_key()
            && value_name@ == name@),
        location == StartupLocationType::StartupFolder ==> (t matches RemovalTarget::File { path }
            && path@ == command@),
        location == StartupLocationType::ScheduledTask ==> (
        t matches RemovalTarget::ScheduledTask { name: n, command: c } && n@ == name@ && c@
            == command@),
{
    match location {
        StartupLocationType::RegistryRun => RemovalTarget::RegistryValue {
            subkey: owned("Software\\Microsoft\\Windows\\CurrentVersion\\Run"),
            value_name: owned(name),
        },
        StartupLocationType::RegistryRunOnce => RemovalTarget::RegistryValue {
            subkey: owned("Software\\Microsoft\\Windows\\CurrentVersion\\RunOnce"),
            value_name: owned(name),
        },
        StartupLocationType::StartupFolder => RemovalTarget::File { path: owned(command) },
        StartupLocationType::ScheduledTask => RemovalTarget::ScheduledTask {
            name: owned(name),
            command: owned(command),
        },
    }
}

/// The error for a failed Task Scheduler call, with the system's
/// message as details.
pub fn task_error(message: &str, details: &str) -> (e: AppError)
    ensures
        e.code@ == "TASK_SCHEDULER_COM_ERROR"@,
        e.message@ == message@,
        e.details matches Some(d) && d@ == details@,
        e.recoverable,
{
    AppError {
        code: owned("TASK_SCHEDULER_COM_ERROR"),
        message: owned(message),
        details: Some(owned(details)),
        recoverable: true,
    }
}

/// The error for an internal lock that could not be taken.
pub fn startup_lock_error() -> (e: AppError)
    ensures
        e.code@ == "LOCK_ERROR"@,
        e.message@ == "Internal lock error."@,
        e.details is None,
        e.recoverable,
{
    AppError::plain("LOCK_ERROR", "Internal lock error.", true)
}

/// The error for a failed read or write of the stored startup entries,
/// with the database's message as details.
pub fn startup_db_error(details: &str) -> (e: AppError)
    ensures
        e.code@ == "DB_ERROR"@,
        e.message@ == "Database error while recording startup entries."@,
        e.details matches Some(d) && d@ == details@,
        e.recoverable,
{
    AppError {
        code: owned("DB_ERROR"),
        message: owned("Database error while recording startup entries."),
        details: Some(owned(details)),
        recoverable: true,
    }
}

/// The error for a startup entry id that is not stored.
pub fn entry_not_found() -> (e: AppError)
    ensures
        e.code@ == "NOT_FOUND"@,
        e.message@ == "Startup entry not found."@,
        e.details is None,
        !e.recoverable,
{
    AppError::plain("NOT_FOUND", "Startup entry not found.", false)
}

/// The error for a registry startup value that could be deleted from
/// neither the per-user nor the machine-wide key.
pub fn registry_removal_error() -> (e: AppError)
    ensures
        e.code@ == "STARTUP_REMOVE_FAILED"@,
        e.message@ == "Could not remove the registry startup entry."@,
        e.details matches Some(d) && d@
            == "It may require administrator elevation, or may not exist in either HKCU or HKLM."@,
        e.recoverable,
{
    AppError {
        code: owned("STARTUP_REMOVE_FAILED"),
        message: owned("Could not remove the registry startup entry."),
        details: Some(
            owned("It may require administrator elevation, or may not exist in either HKCU or HKLM."),
        ),
        recoverable: true,
    }
}

/// The error for a Startup-folder file that could not be deleted, with
/// the system's message as details.
pub fn shortcut_removal_error(details: &str) -> (e: AppError)
    ensures
        e.code@ == "STARTUP_REMOVE_FAILED"@,
        e.message@ == "Could not remove the startup folder shortcut."@,
        e.details matches Some(d) && d@ == details@,
        e.recoverable,
{
    AppError {
        code: owned("STARTUP_REMOVE_FAILED"),
        message: owned("Could not remove the startup folder shortcut."),
        details: Some(owned(details)),
        recoverable: true,
    }
}

/// The error for a scheduled task that is no longer registered.
pub fn task_not_found_error() -> (e: AppError)
    ensures
        e.code@ == "STARTUP_REMOVE_FAILED"@,
        e.message@ == "Could not find that scheduled task \u{2014} it may already be gone."@,
        e.details is None,
        !e.recoverable,
{
    AppError::plain(
        "STARTUP_REMOVE_FAILED",
        "Could not find that scheduled task \u{2014} it may already be gone.",
        false,
    )
}

} // verus!
