//! The processes overlay: the list of a thread's processes, moving the
//! selection, and the details and inspection texts of a process.
use vstd::prelude::*;
use crate::ids::{push_uuid, uuid_text};
use crate::keys::KeyCode;
use crate::labels::{process_status_str, process_status_text, ProcessStatus};
use crate::text::{dec_int, join, push_dec_i64, push_str, trim_end};

verus! {

/// What the overlay shows of a process.
#[derive(Debug)]
pub struct ProcessInfo {
    pub process_id: u128,
    pub thread_id: u128,
    pub turn_id: Option<u128>,
    pub argv: Vec<String>,
    pub cwd: String,
    pub started_at: String,
    pub status: ProcessStatus,
    pub exit_code: Option<i32>,
    pub stdout_path: String,
    pub stderr_path: String,
    pub last_update_at: String,
}

/// A copy of a list of strings.
pub fn copy_strings(v: &Vec<String>) -> (r: Vec<String>)
    ensures
        r@ == v@,
{
    let mut out: Vec<String> = Vec::new();
    let mut i: usize = 0;
    while i < v.len()
        invariant
            i <= v.len(),
            out@ == v@.take(i as int),
        decreases v.len() - i,
    {
        out.push(v[i].clone());
        assert(out@ =~= v@.take(i + 1));
        i += 1;
    }
    assert(v@.take(v.len() as int) =~= v@);
    out
}

/// Two process records hold the same values.
pub open spec fn same_process(a: ProcessInfo, b: ProcessInfo) -> bool {
    a == (ProcessInfo { argv: a.argv, ..b }) && a.argv@ == b.argv@
}

impl Clone for ProcessInfo {
    fn clone(&self) -> (r: Self)
        ensures
            same_process(r, *self),
    {
        ProcessInfo {
            process_id: self.process_id,
            thread_id: self.thread_id,
            turn_id: self.turn_id,
            argv: copy_strings(&self.argv),
            cwd: self.cwd.clone(),
            started_at: self.started_at.clone(),
            status: self.status,
            exit_code: self.exit_code,
            stdout_path: self.stdout_path.clone(),
            stderr_path: self.stderr_path.clone(),
            last_update_at: self.last_update_at.clone(),
        }
    }
}

/// A copy of a list of processes.
pub fn copy_processes(v: &Vec<ProcessInfo>) -> (r: Vec<ProcessInfo>)
    ensures
        r@.len() == v@.len(),
        forall|i: int| 0 <= i < v@.len() ==> same_process(#[trigger] r@[i], v@[i]),
{
    let mut out: Vec<ProcessInfo> = Vec::new();
    let mut i: usize = 0;
    while i < v.len()
        invariant
            i <= v.len(),
            out@.len() == i,
            forall|j: int| 0 <= j < i ==> same_process(#[trigger] out@[j], v@[j]),
        decreases v.len() - i,
    {
        out.push(v[i].clone());
        i += 1;
    }
    out
}

#[derive(Debug)]
pub struct ProcessesOverlay {
    pub thread_id: u128,
    pub processes: Vec<ProcessInfo>,
    pub selected: usize,
}

#[derive(Debug, Clone, Copy, PartialEq, Eq)]
pub enum ProcessesLocalKeyResult {
    Unhandled,
    Handled,
}

/// Keeps the selection on the process `current` (the first with its id), or the first process.
pub fn select_process(items: &[ProcessInfo], current: Option<u128>) -> (r: usize)
    ensures
        current is None ==> r == 0,
        current matches Some(id) ==> (exists|i: int| 0 <= i < items.len() && items@[i].process_id == id)
            ==> r < items.len() && items@[r as int].process_id == id && forall|j: int|
            0 <= j < r ==> items@[j].process_id != id,
        current matches Some(id) ==> !(exists|i: int| 0 <= i < items.len() && items@[i].process_id == id)
            ==> r == 0,
{
    let id = match current {
        Some(id) => id,
        None => return 0,
    };
    let mut i: usize = 0;
    while i < items.len()
        invariant
            i <= items.len(),
            current == Some(id),
            forall|j: int| 0 <= j < i ==> items@[j].process_id != id,
        decreases items.len() - i,
    {
        if items[i].process_id == id {
            return i;
        }
        i += 1;
    }
    0
}

/// What a key does to the processes overlay: Up and Down move the
/// selection within the list (and are answered); other keys change nothing
/// and are not the overlay's own.
pub open spec fn processes_key_step(
    before: ProcessesOverlay,
    after: ProcessesOverlay,
    code: KeyCode,
    r: ProcessesLocalKeyResult,
) -> bool {
    &&& after.thread_id == before.thread_id
    &&& after.processes == before.processes
    &&& (r == ProcessesLocalKeyResult::Handled) == (code == KeyCode::Up || code == KeyCode::Down)
    &&& after.selected == (if code == KeyCode::Up {
        if before.selected > 0 { (before.selected - 1) as usize } else { 0 }
    } else if code == KeyCode::Down {
        if before.processes.len() == 0 {
            before.selected
        } else if before.selected + 1 < before.processes.len() {
            (before.selected + 1) as usize
        } else {
            (before.processes.len() - 1) as usize
        }
    } else {
        before.selected
    })
}

/// Up and Down move the selection within the list; other keys are not the overlay's own.
pub fn handle_local_processes_key(view: &mut ProcessesOverlay, code: KeyCode) -> (r: ProcessesLocalKeyResult)
    ensures
        processes_key_step(*old(view), *final(view), code, r),
{
    match code {
        KeyCode::Up => {
            view.selected = view.selected.saturating_sub(1);
            ProcessesLocalKeyResult::Handled
        },
        KeyCode::Down => {
            if view.processes.len() > 0 {
                let last = view.processes.len() - 1;
                view.selected = if view.selected < last {
                    view.selected + 1
                } else {
                    last
                };
            }
            ProcessesLocalKeyResult::Handled
        },
        _ => ProcessesLocalKeyResult::Unhandled,
    }
}

/// The texts of a list of strings.
pub open spec fn texts(v: Seq<String>) -> Seq<Seq<char>> {
    v.map_values(|s: String| s@)
}

/// `build_process_details`: one `key: value` line per field, the turn and
/// exit code only when known.
pub open spec fn process_details_text(p: ProcessInfo) -> Seq<char> {
    details_head(p) + details_times(p) + details_tail(p)
}

/// The ids, the status and the turn.
pub open spec fn details_head(p: ProcessInfo) -> Seq<char> {
    "process_id: "@ + uuid_text(p.process_id) + "\n"@ + "thread_id: "@ + uuid_text(p.thread_id)
        + "\n"@ + "status: "@ + process_status_text(p.status) + "\n"@ + (match p.turn_id {
        Some(t) => "turn_id: "@ + uuid_text(t) + "\n"@,
        None => seq![],
    })
}

/// The times and the exit code.
pub open spec fn details_times(p: ProcessInfo) -> Seq<char> {
    "started_at: "@ + p.started_at@ + "\n"@ + "last_update_at: "@ + p.last_update_at@ + "\n"@
        + (match p.exit_code {
        Some(c) => "exit_code: "@ + dec_int(c as int) + "\n"@,
        None => seq![],
    })
}

/// The command, its directory and its output files.
pub open spec fn details_tail(p: ProcessInfo) -> Seq<char> {
    "cwd: "@ + p.cwd@ + "\n"@ + "argv: "@ + join(texts(p.argv@), " "@) + "\n"@ + "stdout_path: "@
        + p.stdout_path@ + "\n"@ + "stderr_path: "@ + p.stderr_path@ + "\n"@
}

/// Appends the words joined by single spaces.
fn push_joined(out: &mut String, words: &Vec<String>)
    ensures
        final(out)@ == old(out)@ + join(texts(words@), " "@),
{
    let ghost parts = texts(words@);
    let ghost start = out@;
    let mut i: usize = 0;
    while i < words.len()
        invariant
            i <= words.len(),
            parts == texts(words@),
            out@ == start + join(parts.take(i as int), " "@),
        decreases words.len() - i,
    {
        if i > 0 {
            push_str(out, " ");
        }
        push_str(out, words[i].as_str());
        proof {
            assert(parts.take(i + 1).drop_last() =~= parts.take(i as int));
            if i == 0 {
                assert(join(parts.take(1), " "@) =~= parts[0]);
                assert(out@ =~= start + join(parts.take(1), " "@));
            } else {
                assert(out@ =~= start + (join(parts.take(i as int), " "@) + " "@ + parts[i as int]));
            }
        }
        i += 1;
    }
    assert(parts.take(words.len() as int) =~= parts);
}

fn push_head(out: &mut String, p: &ProcessInfo)
    ensures
        final(out)@ == old(out)@ + details_head(*p),
{
    push_str(out, "process_id: ");
    push_uuid(out, p.process_id);
    push_str(out, "\n");
    push_str(out, "thread_id: ");
    push_uuid(out, p.thread_id);
    push_str(out, "\n");
    push_str(out, "status: ");
    push_str(out, process_status_str(p.status));
    push_str(out, "\n");
    match p.turn_id {
        Some(t) => {
            push_str(out, "turn_id: ");
            push_uuid(out, t);
            push_str(out, "\n");
        },
        None => {},
    }
    assert(final(out)@ =~= old(out)@ + details_head(*p));
}

fn push_times(out: &mut String, p: &ProcessInfo)
    ensures
        final(out)@ == old(out)@ + details_times(*p),
{
    push_str(out, "started_at: ");
    push_str(out, p.started_at.as_str());
    push_str(out, "\n");
    push_str(out, "last_update_at: ");
    push_str(out, p.last_update_at.as_str());
    push_str(out, "\n");
    match p.exit_code {
        Some(c) => {
            push_str(out, "exit_code: ");
            push_dec_i64(out, c as i64);
            push_str(out, "\n");
        },
        None => {},
    }
    assert(final(out)@ =~= old(out)@ + details_times(*p));
}

fn push_tail(out: &mut String, p: &ProcessInfo)
    ensures
        final(out)@ == old(out)@ + details_tail(*p),
{
    push_str(out, "cwd: ");
    push_str(out, p.cwd.as_str());
    push_str(out, "\n");
    push_str(out, "argv: ");
    push_joined(out, &p.argv);
    push_str(out, "\n");
    push_str(out, "stdout_path: ");
    push_str(out, p.stdout_path.as_str());
    push_str(out, "\n");
    push_str(out, "stderr_path: ");
    push_str(out, p.stderr_path.as_str());
    push_str(out, "\n");
    assert(final(out)@ =~= old(out)@ + details_tail(*p));
}

fn push_details(out: &mut String, p: &ProcessInfo)
    ensures
        final(out)@ == old(out)@ + process_details_text(*p),
{
    push_head(out, p);
    push_times(out, p);
    push_tail(out, p);
    assert(final(out)@ =~= old(out)@ + process_details_text(*p));
}

/// The details pane of a process.
pub fn build_process_details(process: &ProcessInfo) -> (r: String)
    ensures
        r@ == process_details_text(*process),
{
    let mut out = String::new();
    push_details(&mut out, process);
    assert(out@ =~= process_details_text(*process));
    out
}

/// What an inspection returns: the process and the tails of its output.
#[derive(Debug)]
pub struct ProcessInspectResponse {
    pub process: ProcessInfo,
    pub stdout_tail: String,
    pub stderr_tail: String,
}

/// `build_process_inspect_text`: the details, then the stdout and stderr
/// tails (trimmed at the end) under their headings.
pub open spec fn inspect_text(resp: ProcessInspectResponse) -> Seq<char> {
    process_details_text(resp.process) + "\n# stdout\n\n"@ + trim_end(resp.stdout_tail@)
        + "\n\n# stderr\n\n"@ + trim_end(resp.stderr_tail@)
}

pub fn build_process_inspect_text(resp: &ProcessInspectResponse) -> (r: String)
    ensures
        r@ == inspect_text(*resp),
{
    let mut out = String::new();
    push_details(&mut out, &resp.process);
    push_str(&mut out, "\n# stdout\n\n");
    let so = crate::text::chars_of(resp.stdout_tail.as_str());
    crate::text::push_chars(&mut out, crate::text::trim_end_chars(so.as_slice()).as_slice());
    push_str(&mut out, "\n\n# stderr\n\n");
    let se = crate::text::chars_of(resp.stderr_tail.as_str());
    crate::text::push_chars(&mut out, crate::text::trim_end_chars(se.as_slice()).as_slice());
    assert(out@ =~= inspect_text(*resp));
    out
}

} // verus!
