//! The snapshot viewer: reads the snapshot log back into snapshots, sorts the
//! requests of the one shown by a chosen column, and writes one snapshot out
//! again as a log of its own.
use vstd::prelude::*;
use crate::log_labels::{export_text_labels, law_export_text_labels};
use crate::detail_laws::{law_snap_detail_labels, snap_detail_labels};
use crate::number::int_decimal;
use crate::report::{dash_line, put_int, put_text, put_trimmed, separator_line};
use crate::number::{parse_i32, parse_i32_spec, parse_i64, parse_i64_spec};
use crate::text::{
    Order, append_chars, char_is_alphanumeric, chars_equal, compare_chars, is_alphanumeric, put, flip, int_order, lemma_lex_order_flip,
    lemma_lex_order_trans, lex_order, chars_of, has_prefix, lines, lines_of, push_chars, remove_all, removed, split, split_by,
    starts_with, string_of, trim, trim_end, trimmed, trimmed_end, views,
};

verus! {

/// One request of a snapshot, every field as the log wrote it, with its
/// position among the requests of its snapshot in the log.
pub struct SessionSnapshotData {
    pub original_idx: usize,
    pub spid: String,
    pub elapsed: String,
    pub status: String,
    pub wait_type: String,
    pub wait_time_ms: String,
    pub last_wait_type: String,
    pub wait_resource: String,
    pub blocking_spid: String,
    pub cpu_time_ms: String,
    pub logical_reads: String,
    pub physical_reads: String,
    pub writes: String,
    pub row_count: String,
    pub open_trans: String,
    pub dop: String,
    pub client_address: String,
    pub login_name: String,
    pub db_name: String,
    pub command: String,
    pub start_time: String,
    pub executing_sql: String,
    pub parent_batch_sql: String,
}

/// The mathematical value of a [`SessionSnapshotData`].
pub struct SessionSnapView {
    pub original_idx: int,
    pub spid: Seq<char>,
    pub elapsed: Seq<char>,
    pub status: Seq<char>,
    pub wait_type: Seq<char>,
    pub wait_time_ms: Seq<char>,
    pub last_wait_type: Seq<char>,
    pub wait_resource: Seq<char>,
    pub blocking_spid: Seq<char>,
    pub cpu_time_ms: Seq<char>,
    pub logical_reads: Seq<char>,
    pub physical_reads: Seq<char>,
    pub writes: Seq<char>,
    pub row_count: Seq<char>,
    pub open_trans: Seq<char>,
    pub dop: Seq<char>,
    pub client_address: Seq<char>,
    pub login_name: Seq<char>,
    pub db_name: Seq<char>,
    pub command: Seq<char>,
    pub start_time: Seq<char>,
    pub executing_sql: Seq<char>,
    pub parent_batch_sql: Seq<char>,
}

impl View for SessionSnapshotData {
    type V = SessionSnapView;

    open spec fn view(&self) -> SessionSnapView {
        SessionSnapView {
            original_idx: self.original_idx as int,
            spid: self.spid@,
            elapsed: self.elapsed@,
            status: self.status@,
            wait_type: self.wait_type@,
            wait_time_ms: self.wait_time_ms@,
            last_wait_type: self.last_wait_type@,
            wait_resource: self.wait_resource@,
            blocking_spid: self.blocking_spid@,
            cpu_time_ms: self.cpu_time_ms@,
            logical_reads: self.logical_reads@,
            physical_reads: self.physical_reads@,
            writes: self.writes@,
            row_count: self.row_count@,
            open_trans: self.open_trans@,
            dop: self.dop@,
            client_address: self.client_address@,
            login_name: self.login_name@,
            db_name: self.db_name@,
            command: self.command@,
            start_time: self.start_time@,
            executing_sql: self.executing_sql@,
            parent_batch_sql: self.parent_batch_sql@,
        }
    }
}

/// A request with position `idx` and every field empty.
pub open spec fn empty_snap_session(idx: int) -> SessionSnapView {
    SessionSnapView {
        original_idx: idx,
        spid: seq![],
        elapsed: seq![],
        status: seq![],
        wait_type: seq![],
        wait_time_ms: seq![],
        last_wait_type: seq![],
        wait_resource: seq![],
        blocking_spid: seq![],
        cpu_time_ms: seq![],
        logical_reads: seq![],
        physical_reads: seq![],
        writes: seq![],
        row_count: seq![],
        open_trans: seq![],
        dop: seq![],
        client_address: seq![],
        login_name: seq![],
        db_name: seq![],
        command: seq![],
        start_time: seq![],
        executing_sql: seq![],
        parent_batch_sql: seq![],
    }
}

impl SessionSnapshotData {
    /// A request with position `idx` and every field empty.
    pub fn empty(idx: usize) -> (r: SessionSnapshotData)
        ensures
            r@ == empty_snap_session(idx as int),
    {
        SessionSnapshotData {
            original_idx: idx,
            spid: String::new(),
            elapsed: String::new(),
            status: String::new(),
            wait_type: String::new(),
            wait_time_ms: String::new(),
            last_wait_type: String::new(),
            wait_resource: String::new(),
            blocking_spid: String::new(),
            cpu_time_ms: String::new(),
            logical_reads: String::new(),
            physical_reads: String::new(),
            writes: String::new(),
            row_count: String::new(),
            open_trans: String::new(),
            dop: String::new(),
            client_address: String::new(),
            login_name: String::new(),
            db_name: String::new(),
            command: String::new(),
            start_time: String::new(),
            executing_sql: String::new(),
            parent_batch_sql: String::new(),
        }
    }

    /// A copy of this request.
    pub fn duplicate(&self) -> (r: SessionSnapshotData)
        ensures
            r@ == self@,
    {
        SessionSnapshotData {
            original_idx: self.original_idx,
            spid: self.spid.clone(),
            elapsed: self.elapsed.clone(),
            status: self.status.clone(),
            wait_type: self.wait_type.clone(),
            wait_time_ms: self.wait_time_ms.clone(),
            last_wait_type: self.last_wait_type.clone(),
            wait_resource: self.wait_resource.clone(),
            blocking_spid: self.blocking_spid.clone(),
            cpu_time_ms: self.cpu_time_ms.clone(),
            logical_reads: self.logical_reads.clone(),
            physical_reads: self.physical_reads.clone(),
            writes: self.writes.clone(),
            row_count: self.row_count.clone(),
            open_trans: self.open_trans.clone(),
            dop: self.dop.clone(),
            client_address: self.client_address.clone(),
            login_name: self.login_name.clone(),
            db_name: self.db_name.clone(),
            command: self.command.clone(),
            start_time: self.start_time.clone(),
            executing_sql: self.executing_sql.clone(),
            parent_batch_sql: self.parent_batch_sql.clone(),
        }
    }
}

/// One snapshot: the server, the capture time, the dashboard figures as
/// written, and the requests.
pub struct SnapshotData {
    pub server: String,
    pub capture_time: String,
    pub workers: String,
    pub logical_connections: String,
    pub ple: String,
    pub active_temp_tables: String,
    pub transactions: String,
    pub request_sessions_count: String,
    pub sessions: Vec<SessionSnapshotData>,
}

/// The mathematical value of a [`SnapshotData`].
pub struct SnapshotView {
    pub server: Seq<char>,
    pub capture_time: Seq<char>,
    pub workers: Seq<char>,
    pub logical_connections: Seq<char>,
    pub ple: Seq<char>,
    pub active_temp_tables: Seq<char>,
    pub transactions: Seq<char>,
    pub request_sessions_count: Seq<char>,
    pub sessions: Seq<SessionSnapView>,
}

/// The views of a list of requests.
pub open spec fn snap_session_views(v: Seq<SessionSnapshotData>) -> Seq<SessionSnapView> {
    v.map_values(|s: SessionSnapshotData| s@)
}

impl View for SnapshotData {
    type V = SnapshotView;

    open spec fn view(&self) -> SnapshotView {
        SnapshotView {
            server: self.server@,
            capture_time: self.capture_time@,
            workers: self.workers@,
            logical_connections: self.logical_connections@,
            ple: self.ple@,
            active_temp_tables: self.active_temp_tables@,
            transactions: self.transactions@,
            request_sessions_count: self.request_sessions_count@,
            sessions: snap_session_views(self.sessions@),
        }
    }
}

/// A snapshot with every field empty and no requests.
pub open spec fn empty_snapshot() -> SnapshotView {
    SnapshotView {
        server: seq![],
        capture_time: seq![],
        workers: seq![],
        logical_connections: seq![],
        ple: seq![],
        active_temp_tables: seq![],
        transactions: seq![],
        request_sessions_count: seq![],
        sessions: seq![],
    }
}

/// The views of a list of snapshots.
pub open spec fn snapshot_views(v: Seq<SnapshotData>) -> Seq<SnapshotView> {
    v.map_values(|s: SnapshotData| s@)
}

// ---------------------------------------------------------------------------
// The detail lines of a request: `label: value | label: value | ...`
// ---------------------------------------------------------------------------

/// The kinds of detail line, named by their first label.
#[derive(Clone, Copy, Debug, PartialEq, Eq, Structural)]
pub enum DetailLine {
    Spid,
    Wait,
    Resource,
    Io,
    Rows,
    Client,
    Command,
}

/// The request after one `label: value` part of a detail line of kind `kind`:
/// a label of that line gives its field (for times, without the unit); other
/// parts change nothing.
pub open spec fn part_step(kind: DetailLine, c: SessionSnapView, p: Seq<char>) -> SessionSnapView {
    match kind {
        DetailLine::Spid => if starts_with(p, "SPID: "@) {
            SessionSnapView { spid: remove_all(p, "SPID: "@), ..c }
        } else if starts_with(p, "Elapsed Time: "@) {
            SessionSnapView { elapsed: remove_all(remove_all(p, "Elapsed Time: "@), " ms"@), ..c }
        } else if starts_with(p, "Status: "@) {
            SessionSnapView { status: remove_all(p, "Status: "@), ..c }
        } else {
            c
        },
        DetailLine::Wait => if starts_with(p, "Wait Type: "@) {
            snap_wait_fields(c, remove_all(p, "Wait Type: "@))
        } else if starts_with(p, "Last Wait: "@) {
            SessionSnapView { last_wait_type: remove_all(p, "Last Wait: "@), ..c }
        } else {
            c
        },
        DetailLine::Resource => if starts_with(p, "Wait Resource: "@) {
            SessionSnapView { wait_resource: remove_all(p, "Wait Resource: "@), ..c }
        } else if starts_with(p, "Blocking SPID: "@) {
            SessionSnapView { blocking_spid: remove_all(p, "Blocking SPID: "@), ..c }
        } else {
            c
        },
        DetailLine::Io => if starts_with(p, "CPU Time: "@) {
            SessionSnapView { cpu_time_ms: remove_all(remove_all(p, "CPU Time: "@), " ms"@), ..c }
        } else if starts_with(p, "Logical Reads: "@) {
            SessionSnapView { logical_reads: remove_all(p, "Logical Reads: "@), ..c }
        } else if starts_with(p, "Physical Reads: "@) {
            SessionSnapView { physical_reads: remove_all(p, "Physical Reads: "@), ..c }
        } else if starts_with(p, "Writes: "@) {
            SessionSnapView { writes: remove_all(p, "Writes: "@), ..c }
        } else {
            c
        },
        DetailLine::Rows => if starts_with(p, "Row Count: "@) {
            SessionSnapView { row_count: remove_all(p, "Row Count: "@), ..c }
        } else if starts_with(p, "Open Trans: "@) {
            SessionSnapView { open_trans: remove_all(p, "Open Trans: "@), ..c }
        } else if starts_with(p, "DOP: "@) {
            SessionSnapView { dop: remove_all(p, "DOP: "@), ..c }
        } else {
            c
        },
        DetailLine::Client => if starts_with(p, "Client Address: "@) {
            SessionSnapView { client_address: remove_all(p, "Client Address: "@), ..c }
        } else if starts_with(p, "Login Name: "@) {
            SessionSnapView { login_name: remove_all(p, "Login Name: "@), ..c }
        } else if starts_with(p, "DB Name: "@) {
            SessionSnapView { db_name: remove_all(p, "DB Name: "@), ..c }
        } else {
            c
        },
        DetailLine::Command => if starts_with(p, "Command: "@) {
            SessionSnapView { command: remove_all(p, "Command: "@), ..c }
        } else if starts_with(p, "Start Time: "@) {
            SessionSnapView { start_time: remove_all(p, "Start Time: "@), ..c }
        } else {
            c
        },
    }
}

/// The wait fields that `w` (a "type (n ms)" text) gives; without the time part
/// the whole of `w` is the wait type.
pub open spec fn snap_wait_fields(c: SessionSnapView, w: Seq<char>) -> SessionSnapView {
    let parts = split(w, " ("@);
    if parts.len() == 2 {
        SessionSnapView { wait_type: parts[0], wait_time_ms: remove_all(parts[1], " ms)"@), ..c }
    } else {
        SessionSnapView { wait_type: w, ..c }
    }
}

/// The request after all parts of a detail line, in order.
pub open spec fn parts_fold(kind: DetailLine, c: SessionSnapView, parts: Seq<Seq<char>>) -> SessionSnapView
    decreases parts.len(),
{
    if parts.len() == 0 {
        c
    } else {
        part_step(kind, parts_fold(kind, c, parts.drop_last()), parts.last())
    }
}

fn apply_snap_wait(c: &mut SessionSnapshotData, w: &[char])
    ensures
        final(c)@ == snap_wait_fields(old(c)@, w@),
{
    let open = chars_of(" (");
    let parts = split_by(w, open.as_slice());
    if parts.len() == 2 {
        let close = chars_of(" ms)");
        c.wait_type = string_of(parts[0].as_slice());
        c.wait_time_ms = string_of(removed(parts[1].as_slice(), close.as_slice()).as_slice());
    } else {
        c.wait_type = string_of(w);
    }
}

fn apply_part(kind: DetailLine, c: &mut SessionSnapshotData, p: &[char])
    ensures
        final(c)@ == part_step(kind, old(c)@, p@),
{
    match kind {
        DetailLine::Spid => {
            let t0 = chars_of("SPID: ");
            let t1 = chars_of("Elapsed Time: ");
            let t2 = chars_of("Status: ");
            if has_prefix(p, t0.as_slice()) {
                c.spid = string_of(removed(p, t0.as_slice()).as_slice());
            } else if has_prefix(p, t1.as_slice()) {
                let a = removed(p, t1.as_slice());
                let unit = chars_of(" ms");
                c.elapsed = string_of(removed(a.as_slice(), unit.as_slice()).as_slice());
            } else if has_prefix(p, t2.as_slice()) {
                c.status = string_of(removed(p, t2.as_slice()).as_slice());
            }
        },
        DetailLine::Wait => {
            let t0 = chars_of("Wait Type: ");
            let t1 = chars_of("Last Wait: ");
            if has_prefix(p, t0.as_slice()) {
                let w = removed(p, t0.as_slice());
                apply_snap_wait(c, w.as_slice());
            } else if has_prefix(p, t1.as_slice()) {
                c.last_wait_type = string_of(removed(p, t1.as_slice()).as_slice());
            }
        },
        DetailLine::Resource => {
            let t0 = chars_of("Wait Resource: ");
            let t1 = chars_of("Blocking SPID: ");
            if has_prefix(p, t0.as_slice()) {
                c.wait_resource = string_of(removed(p, t0.as_slice()).as_slice());
            } else if has_prefix(p, t1.as_slice()) {
                c.blocking_spid = string_of(removed(p, t1.as_slice()).as_slice());
            }
        },
        DetailLine::Io => {
            let t0 = chars_of("CPU Time: ");
            let t1 = chars_of("Logical Reads: ");
            let t2 = chars_of("Physical Reads: ");
            let t3 = chars_of("Writes: ");
            if has_prefix(p, t0.as_slice()) {
                let a = removed(p, t0.as_slice());
                let unit = chars_of(" ms");
                c.cpu_time_ms = string_of(removed(a.as_slice(), unit.as_slice()).as_slice());
            } else if has_prefix(p, t1.as_slice()) {
                c.logical_reads = string_of(removed(p, t1.as_slice()).as_slice());
            } else if has_prefix(p, t2.as_slice()) {
                c.physical_reads = string_of(removed(p, t2.as_slice()).as_slice());
            } else if has_prefix(p, t3.as_slice()) {
                c.writes = string_of(removed(p, t3.as_slice()).as_slice());
            }
        },
        DetailLine::Rows => {
            let t0 = chars_of("Row Count: ");
            let t1 = chars_of("Open Trans: ");
            let t2 = chars_of("DOP: ");
            if has_prefix(p, t0.as_slice()) {
                c.row_count = string_of(removed(p, t0.as_slice()).as_slice());
            } else if has_prefix(p, t1.as_slice()) {
                c.open_trans = string_of(removed(p, t1.as_slice()).as_slice());
            } else if has_prefix(p, t2.as_slice()) {
                c.dop = string_of(removed(p, t2.as_slice()).as_slice());
            }
        },
        DetailLine::Client => {
            let t0 = chars_of("Client Address: ");
            let t1 = chars_of("Login Name: ");
            let t2 = chars_of("DB Name: ");
            if has_prefix(p, t0.as_slice()) {
                c.client_address = string_of(removed(p, t0.as_slice()).as_slice());
            } else if has_prefix(p, t1.as_slice()) {
                c.login_name = string_of(removed(p, t1.as_slice()).as_slice());
            } else if has_prefix(p, t2.as_slice()) {
                c.db_name = string_of(removed(p, t2.as_slice()).as_slice());
            }
        },
        DetailLine::Command => {
            let t0 = chars_of("Command: ");
            let t1 = chars_of("Start Time: ");
            if has_prefix(p, t0.as_slice()) {
                c.command = string_of(removed(p, t0.as_slice()).as_slice());
            } else if has_prefix(p, t1.as_slice()) {
                c.start_time = string_of(removed(p, t1.as_slice()).as_slice());
            }
        },
    }
}

fn apply_parts(kind: DetailLine, c: &mut SessionSnapshotData, line: &[char])
    ensures
        final(c)@ == parts_fold(kind, old(c)@, split(line@, " | "@)),
{
    let bar = chars_of(" | ");
    let parts = split_by(line, bar.as_slice());
    let ghost pv = views(parts@);
    let mut i: usize = 0;
    while i < parts.len()
        invariant
            i <= parts@.len(),
            pv == views(parts@),
            c@ == parts_fold(kind, old(c)@, pv.take(i as int)),
        decreases parts.len() - i,
    {
        apply_part(kind, c, parts[i].as_slice());
        assert(pv.take(i + 1).drop_last() =~= pv.take(i as int));
        i += 1;
    }
    assert(pv.take(parts@.len() as int) =~= pv);
}

// ---------------------------------------------------------------------------
// The lines of a snapshot block
// ---------------------------------------------------------------------------

/// Where the reading of a snapshot block is: the snapshot so far, the request
/// being read (if `in_session`), which statement continuation lines extend (0:
/// none, 1: the executing statement, 2: its batch), and how many requests have
/// begun.
pub struct SnapshotParseState {
    pub snap: SnapshotView,
    pub cur: SessionSnapView,
    pub in_session: bool,
    pub sql_state: int,
    pub counter: int,
}

struct SnapshotCursor {
    snap: SnapshotData,
    cur: SessionSnapshotData,
    in_session: bool,
    sql_state: u8,
    counter: usize,
}

impl View for SnapshotCursor {
    type V = SnapshotParseState;

    closed spec fn view(&self) -> SnapshotParseState {
        SnapshotParseState {
            snap: self.snap@,
            cur: self.cur@,
            in_session: self.in_session,
            sql_state: self.sql_state as int,
            counter: self.counter as int,
        }
    }
}

/// The state after one more line (without its trailing whitespace): a header
/// label gives its snapshot field; "--- [Session " closes the request being read
/// and begins the next; inside a request, a detail line gives its fields, the
/// two statement labels choose what continuation lines extend, divider lines
/// change nothing, and other lines extend the chosen statement.
pub open spec fn snapshot_line_step(st: SnapshotParseState, raw: Seq<char>) -> SnapshotParseState {
    let l = trim_end(raw);
    if starts_with(l, "Server: "@) {
        SnapshotParseState { snap: SnapshotView { server: remove_all(l, "Server: "@), ..st.snap }, ..st }
    } else if starts_with(l, "Capture Time: "@) {
        SnapshotParseState { snap: SnapshotView { capture_time: remove_all(l, "Capture Time: "@), ..st.snap }, ..st }
    } else if starts_with(l, "Workers: "@) {
        SnapshotParseState { snap: SnapshotView { workers: remove_all(l, "Workers: "@), ..st.snap }, ..st }
    } else if starts_with(l, "Logical Connections: "@) {
        SnapshotParseState { snap: SnapshotView { logical_connections: remove_all(l, "Logical Connections: "@), ..st.snap }, ..st }
    } else if starts_with(l, "Page Life Expectancy: "@) {
        SnapshotParseState { snap: SnapshotView { ple: remove_all(l, "Page Life Expectancy: "@), ..st.snap }, ..st }
    } else if starts_with(l, "Active Temp Tables: "@) {
        SnapshotParseState { snap: SnapshotView { active_temp_tables: remove_all(l, "Active Temp Tables: "@), ..st.snap }, ..st }
    } else if starts_with(l, "Transactions: "@) {
        SnapshotParseState { snap: SnapshotView { transactions: remove_all(l, "Transactions: "@), ..st.snap }, ..st }
    } else if starts_with(l, "Request Sessions: "@) {
        SnapshotParseState { snap: SnapshotView { request_sessions_count: remove_all(l, "Request Sessions: "@), ..st.snap }, ..st }
    } else if starts_with(l, "--- [Session "@) {
        SnapshotParseState {
            snap: if st.in_session {
                SnapshotView { sessions: st.snap.sessions.push(st.cur), ..st.snap }
            } else {
                st.snap
            },
            cur: empty_snap_session(st.counter),
            in_session: true,
            sql_state: 0,
            counter: st.counter + 1,
        }
    } else if st.in_session {
        session_line_step(st, l)
    } else {
        st
    }
}

/// A line inside a request (see [`snapshot_line_step`]).
pub open spec fn session_line_step(st: SnapshotParseState, l: Seq<char>) -> SnapshotParseState {
    if starts_with(l, "SPID: "@) {
        SnapshotParseState { cur: parts_fold(DetailLine::Spid, st.cur, split(l, " | "@)), ..st }
    } else if starts_with(l, "Wait Type: "@) {
        SnapshotParseState { cur: parts_fold(DetailLine::Wait, st.cur, split(l, " | "@)), ..st }
    } else if starts_with(l, "Wait Resource: "@) {
        SnapshotParseState { cur: parts_fold(DetailLine::Resource, st.cur, split(l, " | "@)), ..st }
    } else if starts_with(l, "CPU Time: "@) {
        SnapshotParseState { cur: parts_fold(DetailLine::Io, st.cur, split(l, " | "@)), ..st }
    } else if starts_with(l, "Row Count: "@) {
        SnapshotParseState { cur: parts_fold(DetailLine::Rows, st.cur, split(l, " | "@)), ..st }
    } else if starts_with(l, "Client Address: "@) {
        SnapshotParseState { cur: parts_fold(DetailLine::Client, st.cur, split(l, " | "@)), ..st }
    } else if starts_with(l, "Command: "@) {
        SnapshotParseState { cur: parts_fold(DetailLine::Command, st.cur, split(l, " | "@)), ..st }
    } else if starts_with(l, "Executing SQL:"@) {
        SnapshotParseState { sql_state: 1, ..st }
    } else if starts_with(l, "Parent Batch SQL:"@) {
        SnapshotParseState { sql_state: 2, ..st }
    } else if starts_with(l, dash_line()) || starts_with(l, "Captured Sessions Details:"@) || starts_with(
        l,
        "No sessions captured"@,
    ) {
        st
    } else if st.sql_state == 1 {
        SnapshotParseState {
            cur: SessionSnapView { executing_sql: extend_line(st.cur.executing_sql, l), ..st.cur },
            ..st
        }
    } else if st.sql_state == 2 {
        SnapshotParseState {
            cur: SessionSnapView { parent_batch_sql: extend_line(st.cur.parent_batch_sql, l), ..st.cur },
            ..st
        }
    } else {
        st
    }
}

/// `text` extended by `line`, after a line feed unless `text` is empty.
pub open spec fn extend_line(text: Seq<char>, line: Seq<char>) -> Seq<char> {
    if text.len() == 0 {
        line
    } else {
        text + seq!['\n'] + line
    }
}

fn extend_text(text: &mut String, line: &[char])
    ensures
        final(text)@ == extend_line(old(text)@, line@),
{
    let nl = ['\n'];
    assert(nl@ =~= seq!['\n']);
    if text.as_str().unicode_len() > 0 {
        push_chars(text, nl.as_slice());
    }
    push_chars(text, line);
    assert(final(text)@ =~= extend_line(old(text)@, line@));
}

fn apply_snapshot_line(st: &mut SnapshotCursor, raw: &[char])
    requires
        old(st).counter < usize::MAX,
    ensures
        final(st)@ == snapshot_line_step(old(st)@, raw@),
        final(st).counter <= old(st).counter + 1,
{
    let l = trimmed_end(raw);
    let h0 = chars_of("Server: ");
    let h1 = chars_of("Capture Time: ");
    let h2 = chars_of("Workers: ");
    let h3 = chars_of("Logical Connections: ");
    let h4 = chars_of("Page Life Expectancy: ");
    let h5 = chars_of("Active Temp Tables: ");
    let h6 = chars_of("Transactions: ");
    let h7 = chars_of("Request Sessions: ");
    let begin = chars_of("--- [Session ");
    if has_prefix(l.as_slice(), h0.as_slice()) {
        st.snap.server = string_of(removed(l.as_slice(), h0.as_slice()).as_slice());
    } else if has_prefix(l.as_slice(), h1.as_slice()) {
        st.snap.capture_time = string_of(removed(l.as_slice(), h1.as_slice()).as_slice());
    } else if has_prefix(l.as_slice(), h2.as_slice()) {
        st.snap.workers = string_of(removed(l.as_slice(), h2.as_slice()).as_slice());
    } else if has_prefix(l.as_slice(), h3.as_slice()) {
        st.snap.logical_connections = string_of(removed(l.as_slice(), h3.as_slice()).as_slice());
    } else if has_prefix(l.as_slice(), h4.as_slice()) {
        st.snap.ple = string_of(removed(l.as_slice(), h4.as_slice()).as_slice());
    } else if has_prefix(l.as_slice(), h5.as_slice()) {
        st.snap.active_temp_tables = string_of(removed(l.as_slice(), h5.as_slice()).as_slice());
    } else if has_prefix(l.as_slice(), h6.as_slice()) {
        st.snap.transactions = string_of(removed(l.as_slice(), h6.as_slice()).as_slice());
    } else if has_prefix(l.as_slice(), h7.as_slice()) {
        st.snap.request_sessions_count = string_of(removed(l.as_slice(), h7.as_slice()).as_slice());
    } else if has_prefix(l.as_slice(), begin.as_slice()) {
        if st.in_session {
            let ghost before = st.snap.sessions@;
            let done = st.cur.duplicate();
            st.snap.sessions.push(done);
            assert(snap_session_views(st.snap.sessions@) =~= snap_session_views(before).push(done@));
        }
        st.cur = SessionSnapshotData::empty(st.counter);
        st.in_session = true;
        st.sql_state = 0;
        st.counter = st.counter + 1;
    } else if st.in_session {
        apply_session_line(st, l.as_slice());
    }
}

fn apply_session_line(st: &mut SnapshotCursor, l: &[char])
    ensures
        final(st)@ == session_line_step(old(st)@, l@),
        final(st).counter == old(st).counter,
{
    let k0 = chars_of("SPID: ");
    let k1 = chars_of("Wait Type: ");
    let k2 = chars_of("Wait Resource: ");
    let k3 = chars_of("CPU Time: ");
    let k4 = chars_of("Row Count: ");
    let k5 = chars_of("Client Address: ");
    let k6 = chars_of("Command: ");
    let exec_tag = chars_of("Executing SQL:");
    let batch_tag = chars_of("Parent Batch SQL:");
    let dash = chars_of("--------------------------------------------------");
    let details = chars_of("Captured Sessions Details:");
    let none_tag = chars_of("No sessions captured");
    if has_prefix(l, k0.as_slice()) {
        apply_parts(DetailLine::Spid, &mut st.cur, l);
    } else if has_prefix(l, k1.as_slice()) {
        apply_parts(DetailLine::Wait, &mut st.cur, l);
    } else if has_prefix(l, k2.as_slice()) {
        apply_parts(DetailLine::Resource, &mut st.cur, l);
    } else if has_prefix(l, k3.as_slice()) {
        apply_parts(DetailLine::Io, &mut st.cur, l);
    } else if has_prefix(l, k4.as_slice()) {
        apply_parts(DetailLine::Rows, &mut st.cur, l);
    } else if has_prefix(l, k5.as_slice()) {
        apply_parts(DetailLine::Client, &mut st.cur, l);
    } else if has_prefix(l, k6.as_slice()) {
        apply_parts(DetailLine::Command, &mut st.cur, l);
    } else if has_prefix(l, exec_tag.as_slice()) {
        st.sql_state = 1;
    } else if has_prefix(l, batch_tag.as_slice()) {
        st.sql_state = 2;
    } else if has_prefix(l, dash.as_slice()) || has_prefix(l, details.as_slice()) || has_prefix(
        l,
        none_tag.as_slice(),
    ) {
    } else if st.sql_state == 1 {
        extend_text(&mut st.cur.executing_sql, l);
    } else if st.sql_state == 2 {
        extend_text(&mut st.cur.parent_batch_sql, l);
    }
}

/// The state after the lines of a block, from an empty snapshot.
pub open spec fn snapshot_fold(ls: Seq<Seq<char>>) -> SnapshotParseState
    decreases ls.len(),
{
    if ls.len() == 0 {
        SnapshotParseState {
            snap: empty_snapshot(),
            cur: empty_snap_session(0),
            in_session: false,
            sql_state: 0,
            counter: 0,
        }
    } else {
        snapshot_line_step(snapshot_fold(ls.drop_last()), ls.last())
    }
}

/// The snapshot a (trimmed) block gives, with its last request closed; none
/// when it names no server.
pub open spec fn snapshot_of_block(b: Seq<char>) -> Option<SnapshotView> {
    let st = snapshot_fold(lines(b));
    let snap = if st.in_session {
        SnapshotView { sessions: st.snap.sessions.push(st.cur), ..st.snap }
    } else {
        st.snap
    };
    if snap.server.len() == 0 {
        None
    } else {
        Some(snap)
    }
}

fn parse_snapshot_block(block: &[char]) -> (r: Option<SnapshotData>)
    ensures
        match r {
            Some(s) => snapshot_of_block(block@) == Some(s@),
            None => snapshot_of_block(block@) is None,
        },
{
    let ls = lines_of(block);
    let ghost lv = views(ls@);
    let mut st = SnapshotCursor {
        snap: SnapshotData {
            server: String::new(),
            capture_time: String::new(),
            workers: String::new(),
            logical_connections: String::new(),
            ple: String::new(),
            active_temp_tables: String::new(),
            transactions: String::new(),
            request_sessions_count: String::new(),
            sessions: Vec::new(),
        },
        cur: SessionSnapshotData::empty(0),
        in_session: false,
        sql_state: 0,
        counter: 0,
    };
    assert(snap_session_views(st.snap.sessions@) =~= Seq::<SessionSnapView>::empty());
    let mut i: usize = 0;
    while i < ls.len()
        invariant
            i <= ls@.len(),
            lv == views(ls@),
            st.counter <= i,
            st@ == snapshot_fold(lv.take(i as int)),
        decreases ls.len() - i,
    {
        apply_snapshot_line(&mut st, ls[i].as_slice());
        assert(lv.take(i + 1).drop_last() =~= lv.take(i as int));
        i += 1;
    }
    assert(lv.take(ls@.len() as int) =~= lv);
    let mut snap = st.snap;
    if st.in_session {
        let ghost before = snap.sessions@;
        let ghost cv = st.cur@;
        snap.sessions.push(st.cur);
        assert(snap_session_views(snap.sessions@) =~= snap_session_views(before).push(cv));
    }
    if snap.server.as_str().unicode_len() == 0 {
        None
    } else {
        Some(snap)
    }
}

/// The snapshots that the blocks give, in order; blank blocks and blocks that
/// name no server give none.
pub open spec fn snapshots_of_blocks(blocks: Seq<Seq<char>>) -> Seq<SnapshotView>
    decreases blocks.len(),
{
    if blocks.len() == 0 {
        seq![]
    } else {
        let prev = snapshots_of_blocks(blocks.drop_last());
        let b = trim(blocks.last());
        if b.len() == 0 {
            prev
        } else {
            match snapshot_of_block(b) {
                Some(s) => prev.push(s),
                None => prev,
            }
        }
    }
}

/// The snapshots of a snapshot log: its blocks are the pieces between separator
/// lines, each trimmed.
pub open spec fn parse_snapshot_log(content: Seq<char>) -> Seq<SnapshotView> {
    snapshots_of_blocks(split(content, separator_line()))
}

/// Reads the snapshots of a snapshot log.
pub fn parse_snapshots(content: &str) -> (r: Vec<SnapshotData>)
    ensures
        snapshot_views(r@) == parse_snapshot_log(content@),
{
    let text = chars_of(content);
    let sep = chars_of("==================================================");
    let blocks = split_by(text.as_slice(), sep.as_slice());
    let ghost bv = views(blocks@);
    let mut out: Vec<SnapshotData> = Vec::new();
    let mut i: usize = 0;
    while i < blocks.len()
        invariant
            i <= blocks@.len(),
            bv == views(blocks@),
            snapshot_views(out@) == snapshots_of_blocks(bv.take(i as int)),
        decreases blocks.len() - i,
    {
        assert(bv.take(i + 1).drop_last() =~= bv.take(i as int));
        let ghost before = out@;
        let b = trimmed(blocks[i].as_slice());
        if b.len() > 0 {
            match parse_snapshot_block(b.as_slice()) {
                Some(s) => {
                    let ghost sv = s@;
                    out.push(s);
                    assert(snapshot_views(out@) =~= snapshot_views(before).push(sv));
                },
                None => {},
            }
        }
        i += 1;
    }
    assert(bv.take(blocks@.len() as int) =~= bv);
    out
}

// ---------------------------------------------------------------------------
// Sorting the requests of a snapshot
// ---------------------------------------------------------------------------

/// The columns the requests can be sorted by; `Original` is the order of the
/// log.
#[derive(Clone, Copy, Debug, PartialEq, Eq, Structural)]
pub enum SortColumn {
    Original,
    Spid,
    Elapsed,
    Status,
    WaitType,
    WaitResource,
    Blocking,
    Sql,
}

/// The number a field writes, read as a 32-bit integer after trimming; 0 when
/// it is no such number.
pub open spec fn number_or_zero_i32(s: Seq<char>) -> int {
    match parse_i32_spec(trim(s)) {
        Some(v) => v as int,
        None => 0,
    }
}

/// The number a field writes, read as a 64-bit integer after trimming; 0 when
/// it is no such number.
pub open spec fn number_or_zero_i64(s: Seq<char>) -> int {
    match parse_i64_spec(trim(s)) {
        Some(v) => v as int,
        None => 0,
    }
}

/// How two requests compare by a column: by position for `Original`, by the
/// number written for the request id, elapsed time and blocking id, and by the
/// text (code-point order) for the others.
#[verifier::opaque]
pub open spec fn column_order(col: SortColumn, a: SessionSnapView, b: SessionSnapView) -> Order {
    match col {
        SortColumn::Original => int_order(a.original_idx, b.original_idx),
        SortColumn::Spid => int_order(number_or_zero_i32(a.spid), number_or_zero_i32(b.spid)),
        SortColumn::Elapsed => int_order(number_or_zero_i64(a.elapsed), number_or_zero_i64(b.elapsed)),
        SortColumn::Status => lex_order(a.status, b.status),
        SortColumn::WaitType => lex_order(a.wait_type, b.wait_type),
        SortColumn::WaitResource => lex_order(a.wait_resource, b.wait_resource),
        SortColumn::Blocking => int_order(
            number_or_zero_i32(a.blocking_spid),
            number_or_zero_i32(b.blocking_spid),
        ),
        SortColumn::Sql => lex_order(a.executing_sql, b.executing_sql),
    }
}

/// The column order, reversed when descending.
pub open spec fn directed_order(col: SortColumn, asc: bool, a: SessionSnapView, b: SessionSnapView) -> Order {
    if asc {
        column_order(col, a, b)
    } else {
        flip(column_order(col, a, b))
    }
}

/// Comparing two requests by a column the other way round gives the opposite
/// order.
pub proof fn lemma_column_order_flip(col: SortColumn, a: SessionSnapView, b: SessionSnapView)
    ensures
        column_order(col, b, a) == flip(column_order(col, a, b)),
{
    reveal(column_order);
    match col {
        SortColumn::Status => lemma_lex_order_flip(a.status, b.status),
        SortColumn::WaitType => lemma_lex_order_flip(a.wait_type, b.wait_type),
        SortColumn::WaitResource => lemma_lex_order_flip(a.wait_resource, b.wait_resource),
        SortColumn::Sql => lemma_lex_order_flip(a.executing_sql, b.executing_sql),
        _ => {},
    }
}

/// Comparing requests by a column is transitive: a request not after a second,
/// which is not after a third, is not after the third.
pub proof fn lemma_column_order_trans(
    col: SortColumn,
    a: SessionSnapView,
    b: SessionSnapView,
    c: SessionSnapView,
)
    requires
        column_order(col, a, b) != Order::Greater,
        column_order(col, b, c) != Order::Greater,
    ensures
        column_order(col, a, c) != Order::Greater,
{
    reveal(column_order);
    match col {
        SortColumn::Status => lemma_lex_order_trans(a.status, b.status, c.status),
        SortColumn::WaitType => lemma_lex_order_trans(a.wait_type, b.wait_type, c.wait_type),
        SortColumn::WaitResource => lemma_lex_order_trans(a.wait_resource, b.wait_resource, c.wait_resource),
        SortColumn::Sql => lemma_lex_order_trans(a.executing_sql, b.executing_sql, c.executing_sql),
        _ => {},
    }
}

/// Comparing two requests by a column and direction the other way round gives
/// the opposite order.
pub proof fn lemma_directed_flip(col: SortColumn, asc: bool, a: SessionSnapView, b: SessionSnapView)
    ensures
        directed_order(col, asc, b, a) == flip(directed_order(col, asc, a, b)),
{
    lemma_column_order_flip(col, a, b);
}

/// Comparing requests by a column and direction is transitive.
pub proof fn lemma_directed_trans(
    col: SortColumn,
    asc: bool,
    a: SessionSnapView,
    b: SessionSnapView,
    c: SessionSnapView,
)
    requires
        directed_order(col, asc, a, b) != Order::Greater,
        directed_order(col, asc, b, c) != Order::Greater,
    ensures
        directed_order(col, asc, a, c) != Order::Greater,
{
    if asc {
        lemma_column_order_trans(col, a, b, c);
    } else {
        lemma_column_order_flip(col, a, b);
        lemma_column_order_flip(col, b, c);
        lemma_column_order_flip(col, a, c);
        lemma_column_order_trans(col, c, b, a);
    }
}

/// `p` lists each of `0..n` exactly once.
pub open spec fn is_permutation(p: Seq<int>, n: int) -> bool {
    &&& p.len() == n
    &&& forall|i: int| 0 <= i < n ==> 0 <= #[trigger] p[i] < n
    &&& forall|i: int, j: int| 0 <= i < n && 0 <= j < n && i != j ==> p[i] != p[j]
}

/// `res` is `orig` rearranged by `p` (`res[i]` is `orig[p[i]]`), in
/// nondescending directed order, with requests that compare equal kept in their
/// order in `orig`.
pub open spec fn stable_arrangement(
    orig: Seq<SessionSnapView>,
    res: Seq<SessionSnapView>,
    col: SortColumn,
    asc: bool,
    p: Seq<int>,
) -> bool {
    &&& res.len() == orig.len()
    &&& is_permutation(p, orig.len() as int)
    &&& forall|i: int| 0 <= i < res.len() ==> #[trigger] res[i] == orig[p[i]]
    &&& forall|i: int, j: int|
        0 <= i < j < res.len() ==> directed_order(col, asc, #[trigger] res[i], #[trigger] res[j])
            != Order::Greater
    &&& forall|i: int, j: int|
        0 <= i < j < res.len() && directed_order(col, asc, #[trigger] res[i], #[trigger] res[j])
            == Order::Equal ==> p[i] < p[j]
}

/// `res` is `orig` sorted stably by `col`, ascending when `asc` (std's stable
/// `sort_by` with that column's comparison, reversed when descending).
pub open spec fn sorted_stably(
    orig: Seq<SessionSnapView>,
    res: Seq<SessionSnapView>,
    col: SortColumn,
    asc: bool,
) -> bool {
    exists|p: Seq<int>| stable_arrangement(orig, res, col, asc, p)
}

fn number_key_i32(s: &String) -> (r: i32)
    ensures
        r as int == number_or_zero_i32(s@),
{
    let v = chars_of(s.as_str());
    let t = trimmed(v.as_slice());
    match parse_i32(t.as_slice()) {
        Some(x) => x,
        None => 0,
    }
}

fn number_key_i64(s: &String) -> (r: i64)
    ensures
        r as int == number_or_zero_i64(s@),
{
    let v = chars_of(s.as_str());
    let t = trimmed(v.as_slice());
    match parse_i64(t.as_slice()) {
        Some(x) => x,
        None => 0,
    }
}

fn order_of_i64(a: i64, b: i64) -> (r: Order)
    ensures
        r == int_order(a as int, b as int),
{
    if a < b {
        Order::Less
    } else if a == b {
        Order::Equal
    } else {
        Order::Greater
    }
}

fn text_order(a: &String, b: &String) -> (r: Order)
    ensures
        r == lex_order(a@, b@),
{
    let x = chars_of(a.as_str());
    let y = chars_of(b.as_str());
    compare_chars(x.as_slice(), y.as_slice())
}

fn flipped(o: Order) -> (r: Order)
    ensures
        r == flip(o),
{
    match o {
        Order::Less => Order::Greater,
        Order::Equal => Order::Equal,
        Order::Greater => Order::Less,
    }
}

/// Compares two requests by `col`, reversed when not `asc`.
pub fn compare_sessions(
    col: SortColumn,
    asc: bool,
    a: &SessionSnapshotData,
    b: &SessionSnapshotData,
) -> (r: Order)
    ensures
        r == directed_order(col, asc, a@, b@),
{
    proof {
        reveal(column_order);
    }
    let o = match col {
        SortColumn::Original => {
            if a.original_idx < b.original_idx {
                Order::Less
            } else if a.original_idx == b.original_idx {
                Order::Equal
            } else {
                Order::Greater
            }
        },
        SortColumn::Spid => order_of_i64(number_key_i32(&a.spid) as i64, number_key_i32(&b.spid) as i64),
        SortColumn::Elapsed => order_of_i64(number_key_i64(&a.elapsed), number_key_i64(&b.elapsed)),
        SortColumn::Status => text_order(&a.status, &b.status),
        SortColumn::WaitType => text_order(&a.wait_type, &b.wait_type),
        SortColumn::WaitResource => text_order(&a.wait_resource, &b.wait_resource),
        SortColumn::Blocking => order_of_i64(
            number_key_i32(&a.blocking_spid) as i64,
            number_key_i32(&b.blocking_spid) as i64,
        ),
        SortColumn::Sql => text_order(&a.executing_sql, &b.executing_sql),
    };
    if asc {
        o
    } else {
        flipped(o)
    }
}

proof fn lemma_insert_keeps_permutation(
    orig: Seq<SessionSnapView>,
    rv: Seq<SessionSnapView>,
    p: Seq<int>,
    k: int,
    j: int,
)
    requires
        0 <= k < orig.len(),
        rv.len() == k,
        p.len() == k,
        forall|i: int| 0 <= i < k ==> 0 <= #[trigger] p[i] < k,
        forall|a: int, b: int| 0 <= a < k && 0 <= b < k && a != b ==> p[a] != p[b],
        forall|i: int| 0 <= i < k ==> #[trigger] rv[i] == orig[p[i]],
        0 <= j <= k,
    ensures
        ({
            let rv2 = rv.insert(j, orig[k]);
            let p2 = p.insert(j, k);
            &&& rv2.len() == k + 1
            &&& p2.len() == k + 1
            &&& forall|i: int| 0 <= i < k + 1 ==> 0 <= #[trigger] p2[i] < k + 1
            &&& forall|a: int, b: int| 0 <= a < k + 1 && 0 <= b < k + 1 && a != b ==> p2[a] != p2[b]
            &&& forall|i: int| 0 <= i < k + 1 ==> #[trigger] rv2[i] == orig[p2[i]]
        }),
{
    let x = orig[k];
    let rv2 = rv.insert(j, x);
    let p2 = p.insert(j, k);
    assert forall|i: int| 0 <= i < k + 1 implies 0 <= #[trigger] p2[i] < k + 1 && rv2[i] == orig[p2[i]] by {
        if i < j {
            assert(p2[i] == p[i]);
            assert(rv2[i] == rv[i]);
        } else if i > j {
            assert(p2[i] == p[i - 1]);
            assert(rv2[i] == rv[i - 1]);
        }
    }
    assert forall|a: int, b: int| 0 <= a < k + 1 && 0 <= b < k + 1 && a != b implies p2[a] != p2[b] by {
        let a1 = if a < j { a } else { a - 1 };
        let b1 = if b < j { b } else { b - 1 };
        if a != j && b != j {
            assert(p2[a] == p[a1]);
            assert(p2[b] == p[b1]);
        } else if a == j {
            assert(p2[b] == p[b1]);
        } else {
            assert(p2[a] == p[a1]);
        }
    }
}

proof fn lemma_insert_keeps_order(
    orig: Seq<SessionSnapView>,
    rv: Seq<SessionSnapView>,
    p: Seq<int>,
    k: int,
    j: int,
    col: SortColumn,
    asc: bool,
)
    requires
        0 <= k < orig.len(),
        rv.len() == k,
        p.len() == k,
        forall|i: int| 0 <= i < k ==> 0 <= #[trigger] p[i] < k,
        forall|a: int, b: int|
            0 <= a < b < k ==> directed_order(col, asc, #[trigger] rv[a], #[trigger] rv[b])
                != Order::Greater,
        forall|a: int, b: int|
            0 <= a < b < k && directed_order(col, asc, #[trigger] rv[a], #[trigger] rv[b])
                == Order::Equal ==> p[a] < p[b],
        0 <= j <= k,
        forall|m: int| j <= m < k ==> directed_order(col, asc, #[trigger] rv[m], orig[k]) == Order::Greater,
        j > 0 ==> directed_order(col, asc, rv[j - 1], orig[k]) != Order::Greater,
    ensures
        ({
            let rv2 = rv.insert(j, orig[k]);
            let p2 = p.insert(j, k);
            &&& forall|a: int, b: int|
                0 <= a < b < k + 1 ==> directed_order(col, asc, #[trigger] rv2[a], #[trigger] rv2[b])
                    != Order::Greater
            &&& forall|a: int, b: int|
                0 <= a < b < k + 1 && directed_order(col, asc, #[trigger] rv2[a], #[trigger] rv2[b])
                    == Order::Equal ==> p2[a] < p2[b]
        }),
{
    let x = orig[k];
    let rv2 = rv.insert(j, x);
    let p2 = p.insert(j, k);
    assert forall|a: int, b: int| 0 <= a < b < k + 1 implies directed_order(
        col,
        asc,
        #[trigger] rv2[a],
        #[trigger] rv2[b],
    ) != Order::Greater && (directed_order(col, asc, rv2[a], rv2[b]) == Order::Equal ==> p2[a]
        < p2[b]) by {
        if b < j {
            assert(rv2[a] == rv[a] && rv2[b] == rv[b]);
            assert(p2[a] == p[a] && p2[b] == p[b]);
        } else if a > j {
            assert(rv2[a] == rv[a - 1] && rv2[b] == rv[b - 1]);
            assert(p2[a] == p[a - 1] && p2[b] == p[b - 1]);
        } else if a < j && b > j {
            assert(rv2[a] == rv[a] && rv2[b] == rv[b - 1]);
            assert(p2[a] == p[a] && p2[b] == p[b - 1]);
        } else if b == j {
            assert(rv2[a] == rv[a]);
            assert(rv2[b] == x);
            if a < j - 1 {
                assert(directed_order(col, asc, rv[a], rv[j - 1]) != Order::Greater);
                lemma_directed_trans(col, asc, rv[a], rv[j - 1], x);
            }
            assert(p2[a] == p[a]);
            assert(p2[b] == k);
        } else {
            assert(rv2[a] == x);
            assert(rv2[b] == rv[b - 1]);
            assert(directed_order(col, asc, rv[b - 1], x) == Order::Greater);
            lemma_directed_flip(col, asc, rv[b - 1], x);
        }
    }
}

/// The requests `v` sorted stably by `col`, ascending when `asc`.
pub fn sort_sessions(v: &Vec<SessionSnapshotData>, col: SortColumn, asc: bool) -> (r: Vec<SessionSnapshotData>)
    ensures
        sorted_stably(snap_session_views(v@), snap_session_views(r@), col, asc),
{
    let ghost orig = snap_session_views(v@);
    let mut r: Vec<SessionSnapshotData> = Vec::new();
    let ghost mut p: Seq<int> = Seq::empty();
    let n = v.len();
    let mut k: usize = 0;
    while k < n
        invariant
            n == v@.len(),
            orig == snap_session_views(v@),
            k <= n,
            r@.len() == k,
            p.len() == k,
            forall|i: int| 0 <= i < k ==> 0 <= #[trigger] p[i] < k,
            forall|a: int, b: int| 0 <= a < k && 0 <= b < k && a != b ==> p[a] != p[b],
            forall|i: int| 0 <= i < k ==> #[trigger] snap_session_views(r@)[i] == orig[p[i]],
            forall|a: int, b: int|
                0 <= a < b < k ==> directed_order(
                    col,
                    asc,
                    #[trigger] snap_session_views(r@)[a],
                    #[trigger] snap_session_views(r@)[b],
                ) != Order::Greater,
            forall|a: int, b: int|
                0 <= a < b < k && directed_order(
                    col,
                    asc,
                    #[trigger] snap_session_views(r@)[a],
                    #[trigger] snap_session_views(r@)[b],
                ) == Order::Equal ==> p[a] < p[b],
        decreases n - k,
    {
        let x = v[k].duplicate();
        let ghost rv = snap_session_views(r@);
        let mut j: usize = r.len();
        while j > 0 && compare_sessions(col, asc, &r[j - 1], &x) == Order::Greater
            invariant
                j <= r@.len(),
                rv == snap_session_views(r@),
                forall|m: int| j <= m < r@.len() ==> directed_order(col, asc, #[trigger] rv[m], x@)
                    == Order::Greater,
            decreases j,
        {
            j -= 1;
        }
        proof {
            if j > 0 {
                assert(directed_order(col, asc, rv[j - 1], x@) != Order::Greater);
            }
            lemma_insert_keeps_permutation(orig, rv, p, k as int, j as int);
            lemma_insert_keeps_order(orig, rv, p, k as int, j as int, col, asc);
        }
        let ghost xv = x@;
        r.insert(j, x);
        assert(snap_session_views(r@) =~= rv.insert(j as int, xv));
        proof {
            p = p.insert(j as int, k as int);
        }
        k += 1;
    }
    assert(stable_arrangement(orig, snap_session_views(r@), col, asc, p));
    r
}

/// The opening lines of an exported snapshot: the server and the capture time.
#[verifier::opaque]
pub open spec fn export_header(d: SnapshotView) -> Seq<char> {
    separator_line()
        + "\n"@
        + "Server: "@
        + d.server
        + "\n"@
        + "Capture Time: "@
        + d.capture_time
        + "\n"@
        + dash_line()
        + "\n"@
}

fn put_export_header(out: &mut Vec<char>, d: &SnapshotData)
    ensures
        final(out)@ == old(out)@ + export_header(d@),
{
    proof {
        reveal(export_header);
    }
    let ghost start = out@;
    let ghost g_d = d@;
    put(out, "==================================================");
    put(out, "\n");
    assert(out@ =~= start + (separator_line() + "\n"@));
    put(out, "Server: ");
    assert(out@ =~= start + (separator_line() + "\n"@ + "Server: "@));
    put_text(out, &d.server);
    assert(out@ =~= start + (separator_line() + "\n"@ + "Server: "@ + g_d.server));
    put(out, "\n");
    assert(out@ =~= start + (separator_line() + "\n"@ + "Server: "@ + g_d.server + "\n"@));
    put(out, "Capture Time: ");
    assert(out@ =~= start + (separator_line() + "\n"@ + "Server: "@ + g_d.server + "\n"@ + "Capture Time: "@));
    put_text(out, &d.capture_time);
    assert(out@ =~= start + (separator_line() + "\n"@ + "Server: "@ + g_d.server + "\n"@ + "Capture Time: "@ + g_d.capture_time));
    put(out, "\n");
    assert(out@ =~= start + (separator_line() + "\n"@ + "Server: "@ + g_d.server + "\n"@ + "Capture Time: "@ + g_d.capture_time + "\n"@));
    put(out, "--------------------------------------------------");
    assert(out@ =~= start + (separator_line() + "\n"@ + "Server: "@ + g_d.server + "\n"@ + "Capture Time: "@ + g_d.capture_time + "\n"@ + dash_line()));
    put(out, "\n");
    assert(out@ =~= start + (separator_line() + "\n"@ + "Server: "@ + g_d.server + "\n"@ + "Capture Time: "@ + g_d.capture_time + "\n"@ + dash_line() + "\n"@));
    assert(final(out)@ =~= old(out)@ + export_header(d@));
}

/// The dashboard lines of an exported snapshot, as they were read.
#[verifier::opaque]
pub open spec fn export_figures(d: SnapshotView) -> Seq<char> {
    "Workers: "@
        + d.workers
        + "\n"@
        + "Logical Connections: "@
        + d.logical_connections
        + "\n"@
        + "Page Life Expectancy: "@
        + d.ple
        + "\n"@
        + "Active Temp Tables: "@
        + d.active_temp_tables
        + "\n"@
}

fn put_export_figures(out: &mut Vec<char>, d: &SnapshotData)
    ensures
        final(out)@ == old(out)@ + export_figures(d@),
{
    proof {
        reveal(export_figures);
    }
    let ghost start = out@;
    let ghost g_d = d@;
    put(out, "Workers: ");
    put_text(out, &d.workers);
    assert(out@ =~= start + ("Workers: "@ + g_d.workers));
    put(out, "\n");
    assert(out@ =~= start + ("Workers: "@ + g_d.workers + "\n"@));
    put(out, "Logical Connections: ");
    assert(out@ =~= start + ("Workers: "@ + g_d.workers + "\n"@ + "Logical Connections: "@));
    put_text(out, &d.logical_connections);
    assert(out@ =~= start + ("Workers: "@ + g_d.workers + "\n"@ + "Logical Connections: "@ + g_d.logical_connections));
    put(out, "\n");
    assert(out@ =~= start + ("Workers: "@ + g_d.workers + "\n"@ + "Logical Connections: "@ + g_d.logical_connections + "\n"@));
    put(out, "Page Life Expectancy: ");
    assert(out@ =~= start + ("Workers: "@ + g_d.workers + "\n"@ + "Logical Connections: "@ + g_d.logical_connections + "\n"@ + "Page Life Expectancy: "@));
    put_text(out, &d.ple);
    assert(out@ =~= start + ("Workers: "@ + g_d.workers + "\n"@ + "Logical Connections: "@ + g_d.logical_connections + "\n"@ + "Page Life Expectancy: "@ + g_d.ple));
    put(out, "\n");
    assert(out@ =~= start + ("Workers: "@ + g_d.workers + "\n"@ + "Logical Connections: "@ + g_d.logical_connections + "\n"@ + "Page Life Expectancy: "@ + g_d.ple + "\n"@));
    put(out, "Active Temp Tables: ");
    assert(out@ =~= start + ("Workers: "@ + g_d.workers + "\n"@ + "Logical Connections: "@ + g_d.logical_connections + "\n"@ + "Page Life Expectancy: "@ + g_d.ple + "\n"@ + "Active Temp Tables: "@));
    put_text(out, &d.active_temp_tables);
    assert(out@ =~= start + ("Workers: "@ + g_d.workers + "\n"@ + "Logical Connections: "@ + g_d.logical_connections + "\n"@ + "Page Life Expectancy: "@ + g_d.ple + "\n"@ + "Active Temp Tables: "@ + g_d.active_temp_tables));
    put(out, "\n");
    assert(out@ =~= start + ("Workers: "@ + g_d.workers + "\n"@ + "Logical Connections: "@ + g_d.logical_connections + "\n"@ + "Page Life Expectancy: "@ + g_d.ple + "\n"@ + "Active Temp Tables: "@ + g_d.active_temp_tables + "\n"@));
    assert(final(out)@ =~= old(out)@ + export_figures(d@));
}

/// The transaction and request-count lines of an exported snapshot.
#[verifier::opaque]
pub open spec fn export_activity(d: SnapshotView) -> Seq<char> {
    "Transactions: "@
        + d.transactions
        + "\n"@
        + "Request Sessions: "@
        + d.request_sessions_count
        + "\n"@
}

fn put_export_activity(out: &mut Vec<char>, d: &SnapshotData)
    ensures
        final(out)@ == old(out)@ + export_activity(d@),
{
    proof {
        reveal(export_activity);
    }
    let ghost start = out@;
    let ghost g_d = d@;
    put(out, "Transactions: ");
    put_text(out, &d.transactions);
    assert(out@ =~= start + ("Transactions: "@ + g_d.transactions));
    put(out, "\n");
    assert(out@ =~= start + ("Transactions: "@ + g_d.transactions + "\n"@));
    put(out, "Request Sessions: ");
    assert(out@ =~= start + ("Transactions: "@ + g_d.transactions + "\n"@ + "Request Sessions: "@));
    put_text(out, &d.request_sessions_count);
    assert(out@ =~= start + ("Transactions: "@ + g_d.transactions + "\n"@ + "Request Sessions: "@ + g_d.request_sessions_count));
    put(out, "\n");
    assert(out@ =~= start + ("Transactions: "@ + g_d.transactions + "\n"@ + "Request Sessions: "@ + g_d.request_sessions_count + "\n"@));
    assert(final(out)@ =~= old(out)@ + export_activity(d@));
}

/// The first detail line of an exported request.
#[verifier::opaque]
pub open spec fn export_spid_line(s: SessionSnapView) -> Seq<char> {
    "SPID: "@
        + s.spid
        + " | Elapsed Time: "@
        + s.elapsed
        + " ms | Status: "@
        + s.status
        + "\n"@
}

fn put_export_spid_line(out: &mut Vec<char>, s: &SessionSnapshotData)
    ensures
        final(out)@ == old(out)@ + export_spid_line(s@),
{
    proof {
        reveal(export_spid_line);
    }
    let ghost start = out@;
    let ghost g_s = s@;
    put(out, "SPID: ");
    put_text(out, &s.spid);
    assert(out@ =~= start + ("SPID: "@ + g_s.spid));
    put(out, " | Elapsed Time: ");
    assert(out@ =~= start + ("SPID: "@ + g_s.spid + " | Elapsed Time: "@));
    put_text(out, &s.elapsed);
    assert(out@ =~= start + ("SPID: "@ + g_s.spid + " | Elapsed Time: "@ + g_s.elapsed));
    put(out, " ms | Status: ");
    assert(out@ =~= start + ("SPID: "@ + g_s.spid + " | Elapsed Time: "@ + g_s.elapsed + " ms | Status: "@));
    put_text(out, &s.status);
    assert(out@ =~= start + ("SPID: "@ + g_s.spid + " | Elapsed Time: "@ + g_s.elapsed + " ms | Status: "@ + g_s.status));
    put(out, "\n");
    assert(out@ =~= start + ("SPID: "@ + g_s.spid + " | Elapsed Time: "@ + g_s.elapsed + " ms | Status: "@ + g_s.status + "\n"@));
    assert(final(out)@ =~= old(out)@ + export_spid_line(s@));
}

/// The wait lines of an exported request.
#[verifier::opaque]
pub open spec fn export_wait_lines(s: SessionSnapView) -> Seq<char> {
    "Wait Type: "@
        + s.wait_type
        + " ("@
        + s.wait_time_ms
        + " ms) | Last Wait: "@
        + s.last_wait_type
        + "\n"@
        + "Wait Resource: "@
        + s.wait_resource
        + " | Blocking SPID: "@
        + s.blocking_spid
        + "\n"@
}

fn put_export_wait_lines(out: &mut Vec<char>, s: &SessionSnapshotData)
    ensures
        final(out)@ == old(out)@ + export_wait_lines(s@),
{
    proof {
        reveal(export_wait_lines);
    }
    let ghost start = out@;
    let ghost g_s = s@;
    put(out, "Wait Type: ");
    put_text(out, &s.wait_type);
    assert(out@ =~= start + ("Wait Type: "@ + g_s.wait_type));
    put(out, " (");
    assert(out@ =~= start + ("Wait Type: "@ + g_s.wait_type + " ("@));
    put_text(out, &s.wait_time_ms);
    assert(out@ =~= start + ("Wait Type: "@ + g_s.wait_type + " ("@ + g_s.wait_time_ms));
    put(out, " ms) | Last Wait: ");
    assert(out@ =~= start + ("Wait Type: "@ + g_s.wait_type + " ("@ + g_s.wait_time_ms + " ms) | Last Wait: "@));
    put_text(out, &s.last_wait_type);
    assert(out@ =~= start + ("Wait Type: "@ + g_s.wait_type + " ("@ + g_s.wait_time_ms + " ms) | Last Wait: "@ + g_s.last_wait_type));
    put(out, "\n");
    assert(out@ =~= start + ("Wait Type: "@ + g_s.wait_type + " ("@ + g_s.wait_time_ms + " ms) | Last Wait: "@ + g_s.last_wait_type + "\n"@));
    put(out, "Wait Resource: ");
    assert(out@ =~= start + ("Wait Type: "@ + g_s.wait_type + " ("@ + g_s.wait_time_ms + " ms) | Last Wait: "@ + g_s.last_wait_type + "\n"@ + "Wait Resource: "@));
    put_text(out, &s.wait_resource);
    assert(out@ =~= start + ("Wait Type: "@ + g_s.wait_type + " ("@ + g_s.wait_time_ms + " ms) | Last Wait: "@ + g_s.last_wait_type + "\n"@ + "Wait Resource: "@ + g_s.wait_resource));
    put(out, " | Blocking SPID: ");
    assert(out@ =~= start + ("Wait Type: "@ + g_s.wait_type + " ("@ + g_s.wait_time_ms + " ms) | Last Wait: "@ + g_s.last_wait_type + "\n"@ + "Wait Resource: "@ + g_s.wait_resource + " | Blocking SPID: "@));
    put_text(out, &s.blocking_spid);
    assert(out@ =~= start + ("Wait Type: "@ + g_s.wait_type + " ("@ + g_s.wait_time_ms + " ms) | Last Wait: "@ + g_s.last_wait_type + "\n"@ + "Wait Resource: "@ + g_s.wait_resource + " | Blocking SPID: "@ + g_s.blocking_spid));
    put(out, "\n");
    assert(out@ =~= start + ("Wait Type: "@ + g_s.wait_type + " ("@ + g_s.wait_time_ms + " ms) | Last Wait: "@ + g_s.last_wait_type + "\n"@ + "Wait Resource: "@ + g_s.wait_resource + " | Blocking SPID: "@ + g_s.blocking_spid + "\n"@));
    assert(final(out)@ =~= old(out)@ + export_wait_lines(s@));
}

/// The resource-use line of an exported request.
#[verifier::opaque]
pub open spec fn export_io_line(s: SessionSnapView) -> Seq<char> {
    "CPU Time: "@
        + s.cpu_time_ms
        + " ms | Logical Reads: "@
        + s.logical_reads
        + " | Physical Reads: "@
        + s.physical_reads
        + " | Writes: "@
        + s.writes
        + "\n"@
}

fn put_export_io_line(out: &mut Vec<char>, s: &SessionSnapshotData)
    ensures
        final(out)@ == old(out)@ + export_io_line(s@),
{
    proof {
        reveal(export_io_line);
    }
    let ghost start = out@;
    let ghost g_s = s@;
    put(out, "CPU Time: ");
    put_text(out, &s.cpu_time_ms);
    assert(out@ =~= start + ("CPU Time: "@ + g_s.cpu_time_ms));
    put(out, " ms | Logical Reads: ");
    assert(out@ =~= start + ("CPU Time: "@ + g_s.cpu_time_ms + " ms | Logical Reads: "@));
    put_text(out, &s.logical_reads);
    assert(out@ =~= start + ("CPU Time: "@ + g_s.cpu_time_ms + " ms | Logical Reads: "@ + g_s.logical_reads));
    put(out, " | Physical Reads: ");
    assert(out@ =~= start + ("CPU Time: "@ + g_s.cpu_time_ms + " ms | Logical Reads: "@ + g_s.logical_reads + " | Physical Reads: "@));
    put_text(out, &s.physical_reads);
    assert(out@ =~= start + ("CPU Time: "@ + g_s.cpu_time_ms + " ms | Logical Reads: "@ + g_s.logical_reads + " | Physical Reads: "@ + g_s.physical_reads));
    put(out, " | Writes: ");
    assert(out@ =~= start + ("CPU Time: "@ + g_s.cpu_time_ms + " ms | Logical Reads: "@ + g_s.logical_reads + " | Physical Reads: "@ + g_s.physical_reads + " | Writes: "@));
    put_text(out, &s.writes);
    assert(out@ =~= start + ("CPU Time: "@ + g_s.cpu_time_ms + " ms | Logical Reads: "@ + g_s.logical_reads + " | Physical Reads: "@ + g_s.physical_reads + " | Writes: "@ + g_s.writes));
    put(out, "\n");
    assert(out@ =~= start + ("CPU Time: "@ + g_s.cpu_time_ms + " ms | Logical Reads: "@ + g_s.logical_reads + " | Physical Reads: "@ + g_s.physical_reads + " | Writes: "@ + g_s.writes + "\n"@));
    assert(final(out)@ =~= old(out)@ + export_io_line(s@));
}

/// The row, transaction and parallelism line of an exported request.
#[verifier::opaque]
pub open spec fn export_rows_line(s: SessionSnapView) -> Seq<char> {
    "Row Count: "@
        + s.row_count
        + " | Open Trans: "@
        + s.open_trans
        + " | DOP: "@
        + s.dop
        + "\n"@
}

fn put_export_rows_line(out: &mut Vec<char>, s: &SessionSnapshotData)
    ensures
        final(out)@ == old(out)@ + export_rows_line(s@),
{
    proof {
        reveal(export_rows_line);
    }
    let ghost start = out@;
    let ghost g_s = s@;
    put(out, "Row Count: ");
    put_text(out, &s.row_count);
    assert(out@ =~= start + ("Row Count: "@ + g_s.row_count));
    put(out, " | Open Trans: ");
    assert(out@ =~= start + ("Row Count: "@ + g_s.row_count + " | Open Trans: "@));
    put_text(out, &s.open_trans);
    assert(out@ =~= start + ("Row Count: "@ + g_s.row_count + " | Open Trans: "@ + g_s.open_trans));
    put(out, " | DOP: ");
    assert(out@ =~= start + ("Row Count: "@ + g_s.row_count + " | Open Trans: "@ + g_s.open_trans + " | DOP: "@));
    put_text(out, &s.dop);
    assert(out@ =~= start + ("Row Count: "@ + g_s.row_count + " | Open Trans: "@ + g_s.open_trans + " | DOP: "@ + g_s.dop));
    put(out, "\n");
    assert(out@ =~= start + ("Row Count: "@ + g_s.row_count + " | Open Trans: "@ + g_s.open_trans + " | DOP: "@ + g_s.dop + "\n"@));
    assert(final(out)@ =~= old(out)@ + export_rows_line(s@));
}

/// The client and command lines of an exported request.
#[verifier::opaque]
pub open spec fn export_client_lines(s: SessionSnapView) -> Seq<char> {
    "Client Address: "@
        + s.client_address
        + " | Login Name: "@
        + s.login_name
        + " | DB Name: "@
        + s.db_name
        + "\n"@
        + "Command: "@
        + s.command
        + " | Start Time: "@
        + s.start_time
        + "\n"@
}

fn put_export_client_lines(out: &mut Vec<char>, s: &SessionSnapshotData)
    ensures
        final(out)@ == old(out)@ + export_client_lines(s@),
{
    proof {
        reveal(export_client_lines);
    }
    let ghost start = out@;
    let ghost g_s = s@;
    put(out, "Client Address: ");
    put_text(out, &s.client_address);
    assert(out@ =~= start + ("Client Address: "@ + g_s.client_address));
    put(out, " | Login Name: ");
    assert(out@ =~= start + ("Client Address: "@ + g_s.client_address + " | Login Name: "@));
    put_text(out, &s.login_name);
    assert(out@ =~= start + ("Client Address: "@ + g_s.client_address + " | Login Name: "@ + g_s.login_name));
    put(out, " | DB Name: ");
    assert(out@ =~= start + ("Client Address: "@ + g_s.client_address + " | Login Name: "@ + g_s.login_name + " | DB Name: "@));
    put_text(out, &s.db_name);
    assert(out@ =~= start + ("Client Address: "@ + g_s.client_address + " | Login Name: "@ + g_s.login_name + " | DB Name: "@ + g_s.db_name));
    put(out, "\n");
    assert(out@ =~= start + ("Client Address: "@ + g_s.client_address + " | Login Name: "@ + g_s.login_name + " | DB Name: "@ + g_s.db_name + "\n"@));
    put(out, "Command: ");
    assert(out@ =~= start + ("Client Address: "@ + g_s.client_address + " | Login Name: "@ + g_s.login_name + " | DB Name: "@ + g_s.db_name + "\n"@ + "Command: "@));
    put_text(out, &s.command);
    assert(out@ =~= start + ("Client Address: "@ + g_s.client_address + " | Login Name: "@ + g_s.login_name + " | DB Name: "@ + g_s.db_name + "\n"@ + "Command: "@ + g_s.command));
    put(out, " | Start Time: ");
    assert(out@ =~= start + ("Client Address: "@ + g_s.client_address + " | Login Name: "@ + g_s.login_name + " | DB Name: "@ + g_s.db_name + "\n"@ + "Command: "@ + g_s.command + " | Start Time: "@));
    put_text(out, &s.start_time);
    assert(out@ =~= start + ("Client Address: "@ + g_s.client_address + " | Login Name: "@ + g_s.login_name + " | DB Name: "@ + g_s.db_name + "\n"@ + "Command: "@ + g_s.command + " | Start Time: "@ + g_s.start_time));
    put(out, "\n");
    assert(out@ =~= start + ("Client Address: "@ + g_s.client_address + " | Login Name: "@ + g_s.login_name + " | DB Name: "@ + g_s.db_name + "\n"@ + "Command: "@ + g_s.command + " | Start Time: "@ + g_s.start_time + "\n"@));
    assert(final(out)@ =~= old(out)@ + export_client_lines(s@));
}

/// The statement lines of an exported request, trimmed.
#[verifier::opaque]
pub open spec fn export_sql_lines(s: SessionSnapView) -> Seq<char> {
    "Executing SQL:\n"@
        + trim(s.executing_sql)
        + "\n"@
        + "Parent Batch SQL:\n"@
        + trim(s.parent_batch_sql)
        + "\n\n"@
}

fn put_export_sql_lines(out: &mut Vec<char>, s: &SessionSnapshotData)
    ensures
        final(out)@ == old(out)@ + export_sql_lines(s@),
{
    proof {
        reveal(export_sql_lines);
    }
    let ghost start = out@;
    let ghost g_s = s@;
    put(out, "Executing SQL:\n");
    put_trimmed(out, &s.executing_sql);
    assert(out@ =~= start + ("Executing SQL:\n"@ + trim(g_s.executing_sql)));
    put(out, "\n");
    assert(out@ =~= start + ("Executing SQL:\n"@ + trim(g_s.executing_sql) + "\n"@));
    put(out, "Parent Batch SQL:\n");
    assert(out@ =~= start + ("Executing SQL:\n"@ + trim(g_s.executing_sql) + "\n"@ + "Parent Batch SQL:\n"@));
    put_trimmed(out, &s.parent_batch_sql);
    assert(out@ =~= start + ("Executing SQL:\n"@ + trim(g_s.executing_sql) + "\n"@ + "Parent Batch SQL:\n"@ + trim(g_s.parent_batch_sql)));
    put(out, "\n\n");
    assert(out@ =~= start + ("Executing SQL:\n"@ + trim(g_s.executing_sql) + "\n"@ + "Parent Batch SQL:\n"@ + trim(g_s.parent_batch_sql) + "\n\n"@));
    assert(final(out)@ =~= old(out)@ + export_sql_lines(s@));
}

/// The first lines of the detail text of a request of a snapshot.
#[verifier::opaque]
pub open spec fn snap_detail_head(s: SessionSnapView) -> Seq<char> {
    "SPID: "@
        + s.spid
        + "\nElapsed Time: "@
        + s.elapsed
        + " ms\nStatus: "@
        + s.status
        + "\nWait Type: "@
        + s.wait_type
        + " ("@
        + s.wait_time_ms
        + " ms)\nLast Wait Type: "@
        + s.last_wait_type
        + "\nWait Resource: "@
        + s.wait_resource
        + "\nWait Session ID (Blocking): "@
        + s.blocking_spid
}

fn put_snap_detail_head(out: &mut Vec<char>, s: &SessionSnapshotData)
    ensures
        final(out)@ == old(out)@ + snap_detail_head(s@),
{
    proof {
        reveal(snap_detail_head);
    }
    let ghost start = out@;
    let ghost g_s = s@;
    put(out, "SPID: ");
    put_text(out, &s.spid);
    assert(out@ =~= start + ("SPID: "@ + g_s.spid));
    put(out, "\nElapsed Time: ");
    assert(out@ =~= start + ("SPID: "@ + g_s.spid + "\nElapsed Time: "@));
    put_text(out, &s.elapsed);
    assert(out@ =~= start + ("SPID: "@ + g_s.spid + "\nElapsed Time: "@ + g_s.elapsed));
    put(out, " ms\nStatus: ");
    assert(out@ =~= start + ("SPID: "@ + g_s.spid + "\nElapsed Time: "@ + g_s.elapsed + " ms\nStatus: "@));
    put_text(out, &s.status);
    assert(out@ =~= start + ("SPID: "@ + g_s.spid + "\nElapsed Time: "@ + g_s.elapsed + " ms\nStatus: "@ + g_s.status));
    put(out, "\nWait Type: ");
    assert(out@ =~= start + ("SPID: "@ + g_s.spid + "\nElapsed Time: "@ + g_s.elapsed + " ms\nStatus: "@ + g_s.status + "\nWait Type: "@));
    put_text(out, &s.wait_type);
    assert(out@ =~= start + ("SPID: "@ + g_s.spid + "\nElapsed Time: "@ + g_s.elapsed + " ms\nStatus: "@ + g_s.status + "\nWait Type: "@ + g_s.wait_type));
    put(out, " (");
    assert(out@ =~= start + ("SPID: "@ + g_s.spid + "\nElapsed Time: "@ + g_s.elapsed + " ms\nStatus: "@ + g_s.status + "\nWait Type: "@ + g_s.wait_type + " ("@));
    put_text(out, &s.wait_time_ms);
    assert(out@ =~= start + ("SPID: "@ + g_s.spid + "\nElapsed Time: "@ + g_s.elapsed + " ms\nStatus: "@ + g_s.status + "\nWait Type: "@ + g_s.wait_type + " ("@ + g_s.wait_time_ms));
    put(out, " ms)\nLast Wait Type: ");
    assert(out@ =~= start + ("SPID: "@ + g_s.spid + "\nElapsed Time: "@ + g_s.elapsed + " ms\nStatus: "@ + g_s.status + "\nWait Type: "@ + g_s.wait_type + " ("@ + g_s.wait_time_ms + " ms)\nLast Wait Type: "@));
    put_text(out, &s.last_wait_type);
    assert(out@ =~= start + ("SPID: "@ + g_s.spid + "\nElapsed Time: "@ + g_s.elapsed + " ms\nStatus: "@ + g_s.status + "\nWait Type: "@ + g_s.wait_type + " ("@ + g_s.wait_time_ms + " ms)\nLast Wait Type: "@ + g_s.last_wait_type));
    put(out, "\nWait Resource: ");
    assert(out@ =~= start + ("SPID: "@ + g_s.spid + "\nElapsed Time: "@ + g_s.elapsed + " ms\nStatus: "@ + g_s.status + "\nWait Type: "@ + g_s.wait_type + " ("@ + g_s.wait_time_ms + " ms)\nLast Wait Type: "@ + g_s.last_wait_type + "\nWait Resource: "@));
    put_text(out, &s.wait_resource);
    assert(out@ =~= start + ("SPID: "@ + g_s.spid + "\nElapsed Time: "@ + g_s.elapsed + " ms\nStatus: "@ + g_s.status + "\nWait Type: "@ + g_s.wait_type + " ("@ + g_s.wait_time_ms + " ms)\nLast Wait Type: "@ + g_s.last_wait_type + "\nWait Resource: "@ + g_s.wait_resource));
    put(out, "\nWait Session ID (Blocking): ");
    assert(out@ =~= start + ("SPID: "@ + g_s.spid + "\nElapsed Time: "@ + g_s.elapsed + " ms\nStatus: "@ + g_s.status + "\nWait Type: "@ + g_s.wait_type + " ("@ + g_s.wait_time_ms + " ms)\nLast Wait Type: "@ + g_s.last_wait_type + "\nWait Resource: "@ + g_s.wait_resource + "\nWait Session ID (Blocking): "@));
    put_text(out, &s.blocking_spid);
    assert(out@ =~= start + ("SPID: "@ + g_s.spid + "\nElapsed Time: "@ + g_s.elapsed + " ms\nStatus: "@ + g_s.status + "\nWait Type: "@ + g_s.wait_type + " ("@ + g_s.wait_time_ms + " ms)\nLast Wait Type: "@ + g_s.last_wait_type + "\nWait Resource: "@ + g_s.wait_resource + "\nWait Session ID (Blocking): "@ + g_s.blocking_spid));
    assert(final(out)@ =~= old(out)@ + snap_detail_head(s@));
}

/// The resource-use lines of the detail text of a request of a snapshot.
#[verifier::opaque]
pub open spec fn snap_detail_io(s: SessionSnapView) -> Seq<char> {
    "\nCPU Time: "@
        + s.cpu_time_ms
        + " ms\nLogical Reads: "@
        + s.logical_reads
        + "\nPhysical Reads: "@
        + s.physical_reads
        + "\nWrites: "@
        + s.writes
        + "\nRow Count: "@
        + s.row_count
        + "\nOpen Trans: "@
        + s.open_trans
        + "\nDOP: "@
        + s.dop
}

fn put_snap_detail_io(out: &mut Vec<char>, s: &SessionSnapshotData)
    ensures
        final(out)@ == old(out)@ + snap_detail_io(s@),
{
    proof {
        reveal(snap_detail_io);
    }
    let ghost start = out@;
    let ghost g_s = s@;
    put(out, "\nCPU Time: ");
    put_text(out, &s.cpu_time_ms);
    assert(out@ =~= start + ("\nCPU Time: "@ + g_s.cpu_time_ms));
    put(out, " ms\nLogical Reads: ");
    assert(out@ =~= start + ("\nCPU Time: "@ + g_s.cpu_time_ms + " ms\nLogical Reads: "@));
    put_text(out, &s.logical_reads);
    assert(out@ =~= start + ("\nCPU Time: "@ + g_s.cpu_time_ms + " ms\nLogical Reads: "@ + g_s.logical_reads));
    put(out, "\nPhysical Reads: ");
    assert(out@ =~= start + ("\nCPU Time: "@ + g_s.cpu_time_ms + " ms\nLogical Reads: "@ + g_s.logical_reads + "\nPhysical Reads: "@));
    put_text(out, &s.physical_reads);
    assert(out@ =~= start + ("\nCPU Time: "@ + g_s.cpu_time_ms + " ms\nLogical Reads: "@ + g_s.logical_reads + "\nPhysical Reads: "@ + g_s.physical_reads));
    put(out, "\nWrites: ");
    assert(out@ =~= start + ("\nCPU Time: "@ + g_s.cpu_time_ms + " ms\nLogical Reads: "@ + g_s.logical_reads + "\nPhysical Reads: "@ + g_s.physical_reads + "\nWrites: "@));
    put_text(out, &s.writes);
    assert(out@ =~= start + ("\nCPU Time: "@ + g_s.cpu_time_ms + " ms\nLogical Reads: "@ + g_s.logical_reads + "\nPhysical Reads: "@ + g_s.physical_reads + "\nWrites: "@ + g_s.writes));
    put(out, "\nRow Count: ");
    assert(out@ =~= start + ("\nCPU Time: "@ + g_s.cpu_time_ms + " ms\nLogical Reads: "@ + g_s.logical_reads + "\nPhysical Reads: "@ + g_s.physical_reads + "\nWrites: "@ + g_s.writes + "\nRow Count: "@));
    put_text(out, &s.row_count);
    assert(out@ =~= start + ("\nCPU Time: "@ + g_s.cpu_time_ms + " ms\nLogical Reads: "@ + g_s.logical_reads + "\nPhysical Reads: "@ + g_s.physical_reads + "\nWrites: "@ + g_s.writes + "\nRow Count: "@ + g_s.row_count));
    put(out, "\nOpen Trans: ");
    assert(out@ =~= start + ("\nCPU Time: "@ + g_s.cpu_time_ms + " ms\nLogical Reads: "@ + g_s.logical_reads + "\nPhysical Reads: "@ + g_s.physical_reads + "\nWrites: "@ + g_s.writes + "\nRow Count: "@ + g_s.row_count + "\nOpen Trans: "@));
    put_text(out, &s.open_trans);
    assert(out@ =~= start + ("\nCPU Time: "@ + g_s.cpu_time_ms + " ms\nLogical Reads: "@ + g_s.logical_reads + "\nPhysical Reads: "@ + g_s.physical_reads + "\nWrites: "@ + g_s.writes + "\nRow Count: "@ + g_s.row_count + "\nOpen Trans: "@ + g_s.open_trans));
    put(out, "\nDOP: ");
    assert(out@ =~= start + ("\nCPU Time: "@ + g_s.cpu_time_ms + " ms\nLogical Reads: "@ + g_s.logical_reads + "\nPhysical Reads: "@ + g_s.physical_reads + "\nWrites: "@ + g_s.writes + "\nRow Count: "@ + g_s.row_count + "\nOpen Trans: "@ + g_s.open_trans + "\nDOP: "@));
    put_text(out, &s.dop);
    assert(out@ =~= start + ("\nCPU Time: "@ + g_s.cpu_time_ms + " ms\nLogical Reads: "@ + g_s.logical_reads + "\nPhysical Reads: "@ + g_s.physical_reads + "\nWrites: "@ + g_s.writes + "\nRow Count: "@ + g_s.row_count + "\nOpen Trans: "@ + g_s.open_trans + "\nDOP: "@ + g_s.dop));
    assert(final(out)@ =~= old(out)@ + snap_detail_io(s@));
}

/// The client, command and statement parts of the detail text of a request of
/// a snapshot.
#[verifier::opaque]
pub open spec fn snap_detail_tail(s: SessionSnapView) -> Seq<char> {
    "\nClient Address: "@
        + s.client_address
        + "\nLogin Name: "@
        + s.login_name
        + "\nDB Name: "@
        + s.db_name
        + "\nCommand: "@
        + s.command
        + "\nStart Time: "@
        + s.start_time
        + "\n\n--- Executing SQL ---\n"@
        + trim(s.executing_sql)
        + "\n\n--- Parent Batch SQL ---\n"@
        + trim(s.parent_batch_sql)
}

fn put_snap_detail_tail(out: &mut Vec<char>, s: &SessionSnapshotData)
    ensures
        final(out)@ == old(out)@ + snap_detail_tail(s@),
{
    proof {
        reveal(snap_detail_tail);
    }
    let ghost start = out@;
    let ghost g_s = s@;
    put(out, "\nClient Address: ");
    put_text(out, &s.client_address);
    assert(out@ =~= start + ("\nClient Address: "@ + g_s.client_address));
    put(out, "\nLogin Name: ");
    assert(out@ =~= start + ("\nClient Address: "@ + g_s.client_address + "\nLogin Name: "@));
    put_text(out, &s.login_name);
    assert(out@ =~= start + ("\nClient Address: "@ + g_s.client_address + "\nLogin Name: "@ + g_s.login_name));
    put(out, "\nDB Name: ");
    assert(out@ =~= start + ("\nClient Address: "@ + g_s.client_address + "\nLogin Name: "@ + g_s.login_name + "\nDB Name: "@));
    put_text(out, &s.db_name);
    assert(out@ =~= start + ("\nClient Address: "@ + g_s.client_address + "\nLogin Name: "@ + g_s.login_name + "\nDB Name: "@ + g_s.db_name));
    put(out, "\nCommand: ");
    assert(out@ =~= start + ("\nClient Address: "@ + g_s.client_address + "\nLogin Name: "@ + g_s.login_name + "\nDB Name: "@ + g_s.db_name + "\nCommand: "@));
    put_text(out, &s.command);
    assert(out@ =~= start + ("\nClient Address: "@ + g_s.client_address + "\nLogin Name: "@ + g_s.login_name + "\nDB Name: "@ + g_s.db_name + "\nCommand: "@ + g_s.command));
    put(out, "\nStart Time: ");
    assert(out@ =~= start + ("\nClient Address: "@ + g_s.client_address + "\nLogin Name: "@ + g_s.login_name + "\nDB Name: "@ + g_s.db_name + "\nCommand: "@ + g_s.command + "\nStart Time: "@));
    put_text(out, &s.start_time);
    assert(out@ =~= start + ("\nClient Address: "@ + g_s.client_address + "\nLogin Name: "@ + g_s.login_name + "\nDB Name: "@ + g_s.db_name + "\nCommand: "@ + g_s.command + "\nStart Time: "@ + g_s.start_time));
    put(out, "\n\n--- Executing SQL ---\n");
    assert(out@ =~= start + ("\nClient Address: "@ + g_s.client_address + "\nLogin Name: "@ + g_s.login_name + "\nDB Name: "@ + g_s.db_name + "\nCommand: "@ + g_s.command + "\nStart Time: "@ + g_s.start_time + "\n\n--- Executing SQL ---\n"@));
    put_trimmed(out, &s.executing_sql);
    assert(out@ =~= start + ("\nClient Address: "@ + g_s.client_address + "\nLogin Name: "@ + g_s.login_name + "\nDB Name: "@ + g_s.db_name + "\nCommand: "@ + g_s.command + "\nStart Time: "@ + g_s.start_time + "\n\n--- Executing SQL ---\n"@ + trim(g_s.executing_sql)));
    put(out, "\n\n--- Parent Batch SQL ---\n");
    assert(out@ =~= start + ("\nClient Address: "@ + g_s.client_address + "\nLogin Name: "@ + g_s.login_name + "\nDB Name: "@ + g_s.db_name + "\nCommand: "@ + g_s.command + "\nStart Time: "@ + g_s.start_time + "\n\n--- Executing SQL ---\n"@ + trim(g_s.executing_sql) + "\n\n--- Parent Batch SQL ---\n"@));
    put_trimmed(out, &s.parent_batch_sql);
    assert(out@ =~= start + ("\nClient Address: "@ + g_s.client_address + "\nLogin Name: "@ + g_s.login_name + "\nDB Name: "@ + g_s.db_name + "\nCommand: "@ + g_s.command + "\nStart Time: "@ + g_s.start_time + "\n\n--- Executing SQL ---\n"@ + trim(g_s.executing_sql) + "\n\n--- Parent Batch SQL ---\n"@ + trim(g_s.parent_batch_sql)));
    assert(final(out)@ =~= old(out)@ + snap_detail_tail(s@));
}


/// The lines of an exported snapshot for its `n`-th request.
pub open spec fn export_session_block(n: int, s: SessionSnapView) -> Seq<char> {
    "--- [Session "@ + int_decimal(n) + "] ---\n"@ + export_spid_line(s) + export_wait_lines(s)
        + export_io_line(s) + export_rows_line(s) + export_client_lines(s) + export_sql_lines(s)
}

/// The lines of an exported snapshot for its requests, numbered from 1.
pub open spec fn export_sessions_text(ss: Seq<SessionSnapView>) -> Seq<char>
    decreases ss.len(),
{
    if ss.len() == 0 {
        seq![]
    } else {
        export_sessions_text(ss.drop_last()) + export_session_block(ss.len() as int, ss.last())
    }
}

fn put_export_sessions(out: &mut Vec<char>, sessions: &Vec<SessionSnapshotData>)
    ensures
        final(out)@ == old(out)@ + export_sessions_text(snap_session_views(sessions@)),
{
    let ghost all = snap_session_views(sessions@);
    let mut i: usize = 0;
    assert(all.take(0) =~= Seq::<SessionSnapView>::empty());
    assert(old(out)@ + export_sessions_text(all.take(0)) =~= old(out)@);
    while i < sessions.len()
        invariant
            i <= sessions@.len(),
            all == snap_session_views(sessions@),
            out@ == old(out)@ + export_sessions_text(all.take(i as int)),
        decreases sessions.len() - i,
    {
        let s = &sessions[i];
        let ghost start = out@;
        put(out, "--- [Session ");
        put_int(out, (i + 1) as i128);
        put(out, "] ---\n");
        put_export_spid_line(out, s);
        put_export_wait_lines(out, s);
        put_export_io_line(out, s);
        put_export_rows_line(out, s);
        put_export_client_lines(out, s);
        put_export_sql_lines(out, s);
        assert(out@ =~= start + export_session_block(i + 1, s@));
        assert(all.take(i + 1).drop_last() =~= all.take(i as int));
        assert(out@ =~= old(out)@ + export_sessions_text(all.take(i + 1)));
        i += 1;
    }
    assert(all.take(sessions@.len() as int) =~= all);
}

/// The log text of an exported snapshot, in the layout of the snapshot log,
/// with its requests in their current order.
pub open spec fn export_text(d: SnapshotView) -> Seq<char> {
    export_header(d) + export_figures(d) + export_activity(d) + dash_line() + "\n"@
        + "Captured Sessions Details:\n\n"@ + (if d.sessions.len() == 0 {
        "No sessions captured under current filter criteria.\n"@
    } else {
        export_sessions_text(d.sessions)
    }) + separator_line() + "\n\n"@
}

/// The log text of `data`, for exporting it.
pub fn export_snapshot_text(data: &SnapshotData) -> (r: String)
    ensures
        r@ == export_text(data@),
        export_text_labels(data@, r@),
{
    proof {
        law_export_text_labels(data@);
    }
    let mut out: Vec<char> = Vec::new();
    put_export_header(&mut out, data);
    put_export_figures(&mut out, data);
    put_export_activity(&mut out, data);
    put(&mut out, "--------------------------------------------------");
    put(&mut out, "\n");
    put(&mut out, "Captured Sessions Details:\n\n");
    if data.sessions.len() == 0 {
        put(&mut out, "No sessions captured under current filter criteria.\n");
    } else {
        put_export_sessions(&mut out, &data.sessions);
    }
    put(&mut out, "==================================================");
    put(&mut out, "\n\n");
    assert(out@ =~= export_text(data@));
    string_of(out.as_slice())
}

/// The time part of a capture time "date time" without its colons, or
/// "000000" when it is not two words.
pub open spec fn time_suffix(capture_time: Seq<char>) -> Seq<char> {
    let parts = split(capture_time, seq![' ']);
    if parts.len() == 2 {
        remove_all(parts[1], seq![':'])
    } else {
        "000000"@
    }
}

/// A character kept in a file name: letters, digits, '_' and '-' stay, others
/// become '_'.
pub open spec fn file_name_char(c: char) -> char {
    if char_is_alphanumeric(c) || c == '_' || c == '-' {
        c
    } else {
        '_'
    }
}

/// The name of the file a snapshot is exported to, next to the log it was read
/// from (whose name without extension is `stem`): "stem_time_server.log".
pub open spec fn export_name(stem: Seq<char>, capture_time: Seq<char>, server: Seq<char>) -> Seq<char> {
    stem + seq!['_'] + time_suffix(capture_time) + seq!['_'] + server.map_values(
        |c: char| file_name_char(c),
    ) + ".log"@
}

/// The name of the file `data` is exported to, when the log it was read from is
/// named `stem` (without extension).
pub fn export_file_name(stem: &str, data: &SnapshotData) -> (r: String)
    ensures
        r@ == export_name(stem@, data.capture_time@, data.server@),
{
    let mut out: Vec<char> = Vec::new();
    put(&mut out, stem);
    out.push('_');
    let ct = chars_of(data.capture_time.as_str());
    let space = [' '];
    assert(space@ =~= seq![' ']);
    let parts = split_by(ct.as_slice(), space.as_slice());
    let ghost before = out@;
    if parts.len() == 2 {
        let colon = [':'];
        assert(colon@ =~= seq![':']);
        let t = removed(parts[1].as_slice(), colon.as_slice());
        append_chars(&mut out, t.as_slice());
    } else {
        put(&mut out, "000000");
    }
    assert(out@ =~= before + time_suffix(data.capture_time@));
    out.push('_');
    let server = chars_of(data.server.as_str());
    let ghost mid = out@;
    let mut i: usize = 0;
    while i < server.len()
        invariant
            i <= server@.len(),
            out@ == mid + server@.take(i as int).map_values(|c: char| file_name_char(c)),
        decreases server.len() - i,
    {
        let c = server[i];
        let keep = is_alphanumeric(c) || c == '_' || c == '-';
        out.push(if keep { c } else { '_' });
        assert(server@.take(i + 1).map_values(|c: char| file_name_char(c)) =~= server@.take(
            i as int,
        ).map_values(|c: char| file_name_char(c)).push(file_name_char(c)));
        i += 1;
    }
    assert(server@.take(server@.len() as int) =~= server@);
    put(&mut out, ".log");
    assert(out@ =~= export_name(stem@, data.capture_time@, data.server@));
    string_of(out.as_slice())
}

/// The detail text of a request of a snapshot that the user can copy.
pub open spec fn snap_detail_text(s: SessionSnapView) -> Seq<char> {
    snap_detail_head(s) + snap_detail_io(s) + snap_detail_tail(s)
}

/// The detail text of `s`.
pub fn snap_session_detail(s: &SessionSnapshotData) -> (r: String)
    ensures
        r@ == snap_detail_text(s@),
        snap_detail_labels(s@, r@),
{
    proof {
        law_snap_detail_labels(s@);
    }
    let mut out: Vec<char> = Vec::new();
    put_snap_detail_head(&mut out, s);
    put_snap_detail_io(&mut out, s);
    put_snap_detail_tail(&mut out, s);
    assert(out@ =~= snap_detail_text(s@));
    string_of(out.as_slice())
}

/// The wait cell of a request of a snapshot: "-" when the wait type is blank or
/// "-", else the wait type and its time in milliseconds.
pub open spec fn snap_wait_cell_text(s: SessionSnapView) -> Seq<char> {
    if trim(s.wait_type).len() == 0 || s.wait_type == "-"@ {
        "-"@
    } else {
        s.wait_type + " ("@ + s.wait_time_ms + "ms)"@
    }
}

/// The wait cell of `s`.
pub fn snap_wait_cell(s: &SessionSnapshotData) -> (r: String)
    ensures
        r@ == snap_wait_cell_text(s@),
{
    let w = chars_of(s.wait_type.as_str());
    let t = trimmed(w.as_slice());
    let dash = chars_of("-");
    if t.len() == 0 || chars_equal(w.as_slice(), dash.as_slice()) {
        return String::from_str("-");
    }
    let mut out: Vec<char> = Vec::new();
    put_text(&mut out, &s.wait_type);
    put(&mut out, " (");
    put_text(&mut out, &s.wait_time_ms);
    put(&mut out, "ms)");
    assert(out@ =~= snap_wait_cell_text(s@));
    string_of(out.as_slice())
}

/// The label of a sortable column header: the title, with an arrow up or down
/// when the requests are sorted by that column.
pub open spec fn header_label_text(title: Seq<char>, col: SortColumn, current: SortColumn, asc: bool) -> Seq<char> {
    if col == current {
        if asc {
            title + " ⬆"@
        } else {
            title + " ⬇"@
        }
    } else {
        title
    }
}

/// The label of the header of column `col`.
pub fn header_label(title: &str, col: SortColumn, current: SortColumn, asc: bool) -> (r: String)
    ensures
        r@ == header_label_text(title@, col, current, asc),
{
    let mut out: Vec<char> = Vec::new();
    put(&mut out, title);
    if col == current {
        if asc {
            put(&mut out, " ⬆");
        } else {
            put(&mut out, " ⬇");
        }
    }
    assert(out@ =~= header_label_text(title@, col, current, asc));
    string_of(out.as_slice())
}

/// The sort state after a click on the header of `clicked`: the same column
/// again reverses the direction; another column becomes the sort column,
/// descending for the elapsed time and the blocking id, ascending otherwise.
pub open spec fn header_transition(col: SortColumn, asc: bool, clicked: SortColumn) -> (SortColumn, bool) {
    if col == clicked {
        (col, !asc)
    } else {
        (clicked, !(clicked == SortColumn::Elapsed || clicked == SortColumn::Blocking))
    }
}

/// The snapshot viewer's state: the status line, the path of the log read, the
/// snapshots, the one shown, the request whose details are open, and the sort.
pub struct SnapshotViewerApp {
    pub loaded_file_name: String,
    pub loaded_file_path: String,
    pub snapshots: Vec<SnapshotData>,
    pub selected_snapshot_idx: usize,
    pub selected_session: Option<SessionSnapshotData>,
    pub sort_col: SortColumn,
    pub sort_asc: bool,
}

impl Default for SnapshotViewerApp {
    /// A viewer with no snapshots, asking for a file to be dropped, sorted in
    /// log order.
    fn default() -> (r: SnapshotViewerApp)
        ensures
            r.loaded_file_name@ == "請將 Snapshot Log 檔案拖曳至此視窗"@,
            r.loaded_file_path@.len() == 0,
            r.snapshots@.len() == 0,
            r.selected_snapshot_idx == 0,
            r.selected_session is None,
            r.sort_col == SortColumn::Original,
            r.sort_asc,
    {
        SnapshotViewerApp {
            loaded_file_name: String::from_str("請將 Snapshot Log 檔案拖曳至此視窗"),
            loaded_file_path: String::new(),
            snapshots: Vec::new(),
            selected_snapshot_idx: 0,
            selected_session: None,
            sort_col: SortColumn::Original,
            sort_asc: true,
        }
    }

}

impl SnapshotViewerApp {
    /// The shown snapshot exists whenever there are snapshots.
    pub open spec fn selection_ok(&self) -> bool {
        self.snapshots@.len() > 0 ==> self.selected_snapshot_idx < self.snapshots@.len()
    }

    /// Replaces the snapshots with those read from `content`, shows the first,
    /// closes the details, and returns to log order.
    pub fn parse_snapshot_content(&mut self, content: &str)
        ensures
            snapshot_views(final(self).snapshots@) == parse_snapshot_log(content@),
            final(self).selected_snapshot_idx == 0,
            final(self).selected_session is None,
            final(self).sort_col == SortColumn::Original,
            final(self).sort_asc,
            final(self).loaded_file_name@ == old(self).loaded_file_name@,
            final(self).loaded_file_path@ == old(self).loaded_file_path@,
            final(self).selection_ok(),
    {
        self.selected_snapshot_idx = 0;
        self.selected_session = None;
        self.sort_col = SortColumn::Original;
        self.sort_asc = true;
        self.snapshots = parse_snapshots(content);
    }

    /// Sorts the requests of the shown snapshot by the current sort column and
    /// direction; nothing else changes.
    pub fn apply_sort(&mut self)
        requires
            old(self).selection_ok(),
        ensures
            final(self).selection_ok(),
            final(self).selected_snapshot_idx == old(self).selected_snapshot_idx,
            final(self).selected_session == old(self).selected_session,
            final(self).sort_col == old(self).sort_col,
            final(self).sort_asc == old(self).sort_asc,
            final(self).loaded_file_name@ == old(self).loaded_file_name@,
            final(self).loaded_file_path@ == old(self).loaded_file_path@,
            old(self).snapshots@.len() == 0 ==> final(self).snapshots@ == old(self).snapshots@,
            old(self).snapshots@.len() > 0 ==> {
                let i = old(self).selected_snapshot_idx as int;
                let before = snapshot_views(old(self).snapshots@);
                let after = snapshot_views(final(self).snapshots@);
                &&& after == before.update(i, SnapshotView { sessions: after[i].sessions, ..before[i] })
                &&& sorted_stably(before[i].sessions, after[i].sessions, old(self).sort_col, old(self).sort_asc)
            },
    {
        if self.snapshots.len() == 0 {
            return;
        }
        let idx = self.selected_snapshot_idx;
        let ghost before = snapshot_views(self.snapshots@);
        let mut snap = self.snapshots.remove(idx);
        let sorted = sort_sessions(&snap.sessions, self.sort_col, self.sort_asc);
        snap.sessions = sorted;
        let ghost sv = snap@;
        self.snapshots.insert(idx, snap);
        assert(snapshot_views(self.snapshots@) =~= before.update(idx as int, sv));
    }

    /// A click on the header of column `clicked`: updates the sort (see
    /// [`header_transition`]) and sorts the shown snapshot by it.
    pub fn click_header(&mut self, clicked: SortColumn)
        requires
            old(self).selection_ok(),
        ensures
            final(self).selection_ok(),
            (final(self).sort_col, final(self).sort_asc) == header_transition(
                old(self).sort_col,
                old(self).sort_asc,
                clicked,
            ),
            final(self).selected_snapshot_idx == old(self).selected_snapshot_idx,
            final(self).selected_session == old(self).selected_session,
            final(self).loaded_file_name@ == old(self).loaded_file_name@,
            final(self).loaded_file_path@ == old(self).loaded_file_path@,
            old(self).snapshots@.len() == 0 ==> final(self).snapshots@ == old(self).snapshots@,
            old(self).snapshots@.len() > 0 ==> {
                let i = old(self).selected_snapshot_idx as int;
                let before = snapshot_views(old(self).snapshots@);
                let after = snapshot_views(final(self).snapshots@);
                &&& after == before.update(i, SnapshotView { sessions: after[i].sessions, ..before[i] })
                &&& sorted_stably(before[i].sessions, after[i].sessions, final(self).sort_col, final(self).sort_asc)
            },
    {
        if self.sort_col == clicked {
            self.sort_asc = !self.sort_asc;
        } else {
            self.sort_col = clicked;
            self.sort_asc = !(clicked == SortColumn::Elapsed || clicked == SortColumn::Blocking);
        }
        self.apply_sort();
    }

    /// Shows snapshot `idx`; when it differs from the one shown, its requests are
    /// sorted by the current sort.
    pub fn select_snapshot(&mut self, idx: usize)
        requires
            old(self).selection_ok(),
            idx < old(self).snapshots@.len(),
        ensures
            final(self).selection_ok(),
            final(self).selected_snapshot_idx == idx,
            final(self).sort_col == old(self).sort_col,
            final(self).sort_asc == old(self).sort_asc,
            final(self).selected_session == old(self).selected_session,
            final(self).loaded_file_name@ == old(self).loaded_file_name@,
            final(self).loaded_file_path@ == old(self).loaded_file_path@,
            idx == old(self).selected_snapshot_idx ==> final(self).snapshots@ == old(self).snapshots@,
            idx != old(self).selected_snapshot_idx ==> {
                let before = snapshot_views(old(self).snapshots@);
                let after = snapshot_views(final(self).snapshots@);
                &&& after == before.update(idx as int, SnapshotView { sessions: after[idx as int].sessions, ..before[idx as int] })
                &&& sorted_stably(before[idx as int].sessions, after[idx as int].sessions, old(self).sort_col, old(self).sort_asc)
            },
    {
        if idx != self.selected_snapshot_idx {
            self.selected_snapshot_idx = idx;
            self.apply_sort();
        }
    }

    /// What exporting the shown snapshot writes, when the log it was read from
    /// is named `stem` (without extension): nothing when there are no snapshots
    /// or no log was read, else the file name and the log text.
    pub fn export_plan(&self, stem: &str) -> (r: Option<(String, String)>)
        requires
            self.selection_ok(),
        ensures
            r is None <==> (self.snapshots@.len() == 0 || self.loaded_file_path@.len() == 0),
            r matches Some((name, text)) ==> {
                let snap = self.snapshots@[self.selected_snapshot_idx as int];
                &&& name@ == export_name(stem@, snap.capture_time@, snap.server@)
                &&& text@ == export_text(snap@)
            },
    {
        if self.snapshots.len() == 0 || self.loaded_file_path.as_str().is_empty() {
            return None;
        }
        let data = &self.snapshots[self.selected_snapshot_idx];
        Some((export_file_name(stem, data), export_snapshot_text(data)))
    }
}

} // verus!
