//! The alert log viewer: reads the alert log the monitor writes back into
//! entries, one per long-running request and one per high worker usage.
use vstd::prelude::*;
use crate::detail_laws::{alert_detail_labels, law_alert_detail_labels};
use crate::report::{put_text, put_trimmed, separator_line};
use crate::text::{
    chars_of, put, contains, has_prefix, has_substring, lines, lines_of, push_chars, remove_all, removed,
    split, split_by, starts_with, string_of, strip_leading, stripped_leading, trim, trimmed, views,
};

verus! {

/// An alert log entry for a long-running request, every field as the log wrote it.
pub struct SessionAlertData {
    pub log_time: String,
    pub server: String,
    pub spid: String,
    pub elapsed: String,
    pub status: String,
    pub wait_type: String,
    pub wait_time_ms: String,
    pub last_wait_type: String,
    pub wait_resource: String,
    pub blocking_spid: String,
    pub cpu_time_ms: String,
    pub logical_reads: String,
    pub physical_reads: String,
    pub writes: String,
    pub row_count: String,
    pub open_trans: String,
    pub dop: String,
    pub client_address: String,
    pub login_name: String,
    pub db_name: String,
    pub command: String,
    pub start_time: String,
    pub executing_sql: String,
    pub parent_batch_sql: String,
}

/// The mathematical value of a [`SessionAlertData`].
pub struct SessionAlertView {
    pub log_time: Seq<char>,
    pub server: Seq<char>,
    pub spid: Seq<char>,
    pub elapsed: Seq<char>,
    pub status: Seq<char>,
    pub wait_type: Seq<char>,
    pub wait_time_ms: Seq<char>,
    pub last_wait_type: Seq<char>,
    pub wait_resource: Seq<char>,
    pub blocking_spid: Seq<char>,
    pub cpu_time_ms: Seq<char>,
    pub logical_reads: Seq<char>,
    pub physical_reads: Seq<char>,
    pub writes: Seq<char>,
    pub row_count: Seq<char>,
    pub open_trans: Seq<char>,
    pub dop: Seq<char>,
    pub client_address: Seq<char>,
    pub login_name: Seq<char>,
    pub db_name: Seq<char>,
    pub command: Seq<char>,
    pub start_time: Seq<char>,
    pub executing_sql: Seq<char>,
    pub parent_batch_sql: Seq<char>,
}

impl View for SessionAlertData {
    type V = SessionAlertView;

    open spec fn view(&self) -> SessionAlertView {
        SessionAlertView {
            log_time: self.log_time@,
            server: self.server@,
            spid: self.spid@,
            elapsed: self.elapsed@,
            status: self.status@,
            wait_type: self.wait_type@,
            wait_time_ms: self.wait_time_ms@,
            last_wait_type: self.last_wait_type@,
            wait_resource: self.wait_resource@,
            blocking_spid: self.blocking_spid@,
            cpu_time_ms: self.cpu_time_ms@,
            logical_reads: self.logical_reads@,
            physical_reads: self.physical_reads@,
            writes: self.writes@,
            row_count: self.row_count@,
            open_trans: self.open_trans@,
            dop: self.dop@,
            client_address: self.client_address@,
            login_name: self.login_name@,
            db_name: self.db_name@,
            command: self.command@,
            start_time: self.start_time@,
            executing_sql: self.executing_sql@,
            parent_batch_sql: self.parent_batch_sql@,
        }
    }
}

/// An entry with every field empty.
pub open spec fn empty_session_alert() -> SessionAlertView {
    SessionAlertView {
        log_time: seq![],
        server: seq![],
        spid: seq![],
        elapsed: seq![],
        status: seq![],
        wait_type: seq![],
        wait_time_ms: seq![],
        last_wait_type: seq![],
        wait_resource: seq![],
        blocking_spid: seq![],
        cpu_time_ms: seq![],
        logical_reads: seq![],
        physical_reads: seq![],
        writes: seq![],
        row_count: seq![],
        open_trans: seq![],
        dop: seq![],
        client_address: seq![],
        login_name: seq![],
        db_name: seq![],
        command: seq![],
        start_time: seq![],
        executing_sql: seq![],
        parent_batch_sql: seq![],
    }
}

impl SessionAlertData {
    /// An entry with every field empty.
    pub fn empty() -> (r: SessionAlertData)
        ensures
            r@ == empty_session_alert(),
    {
        SessionAlertData {
            log_time: String::new(),
            server: String::new(),
            spid: String::new(),
            elapsed: String::new(),
            status: String::new(),
            wait_type: String::new(),
            wait_time_ms: String::new(),
            last_wait_type: String::new(),
            wait_resource: String::new(),
            blocking_spid: String::new(),
            cpu_time_ms: String::new(),
            logical_reads: String::new(),
            physical_reads: String::new(),
            writes: String::new(),
            row_count: String::new(),
            open_trans: String::new(),
            dop: String::new(),
            client_address: String::new(),
            login_name: String::new(),
            db_name: String::new(),
            command: String::new(),
            start_time: String::new(),
            executing_sql: String::new(),
            parent_batch_sql: String::new(),
        }
    }

    /// A copy of this entry.
    pub fn duplicate(&self) -> (r: SessionAlertData)
        ensures
            r@ == self@,
    {
        SessionAlertData {
            log_time: self.log_time.clone(),
            server: self.server.clone(),
            spid: self.spid.clone(),
            elapsed: self.elapsed.clone(),
            status: self.status.clone(),
            wait_type: self.wait_type.clone(),
            wait_time_ms: self.wait_time_ms.clone(),
            last_wait_type: self.last_wait_type.clone(),
            wait_resource: self.wait_resource.clone(),
            blocking_spid: self.blocking_spid.clone(),
            cpu_time_ms: self.cpu_time_ms.clone(),
            logical_reads: self.logical_reads.clone(),
            physical_reads: self.physical_reads.clone(),
            writes: self.writes.clone(),
            row_count: self.row_count.clone(),
            open_trans: self.open_trans.clone(),
            dop: self.dop.clone(),
            client_address: self.client_address.clone(),
            login_name: self.login_name.clone(),
            db_name: self.db_name.clone(),
            command: self.command.clone(),
            start_time: self.start_time.clone(),
            executing_sql: self.executing_sql.clone(),
            parent_batch_sql: self.parent_batch_sql.clone(),
        }
    }
}

/// An alert log entry for high worker usage.
pub struct WorkerAlertData {
    pub log_time: String,
    pub server: String,
    pub usage_msg: String,
}

/// The mathematical value of a [`WorkerAlertData`].
pub struct WorkerAlertView {
    pub log_time: Seq<char>,
    pub server: Seq<char>,
    pub usage_msg: Seq<char>,
}

impl View for WorkerAlertData {
    type V = WorkerAlertView;

    open spec fn view(&self) -> WorkerAlertView {
        WorkerAlertView { log_time: self.log_time@, server: self.server@, usage_msg: self.usage_msg@ }
    }
}

/// A worker entry with every field empty.
pub open spec fn empty_worker_alert() -> WorkerAlertView {
    WorkerAlertView { log_time: seq![], server: seq![], usage_msg: seq![] }
}

/// One entry of the alert log.
pub enum AlertEntry {
    Session(SessionAlertData),
    Worker(WorkerAlertData),
}

/// The mathematical value of an [`AlertEntry`].
pub enum AlertEntryView {
    Session(SessionAlertView),
    Worker(WorkerAlertView),
}

impl View for AlertEntry {
    type V = AlertEntryView;

    open spec fn view(&self) -> AlertEntryView {
        match self {
            AlertEntry::Session(s) => AlertEntryView::Session(s@),
            AlertEntry::Worker(w) => AlertEntryView::Worker(w@),
        }
    }
}

// ---------------------------------------------------------------------------
// Worker entries
// ---------------------------------------------------------------------------

/// A worker entry after one more line: the header line `[time] Server: server |
/// message` gives the time (without its opening brackets), the server and the
/// message (without "ALERT! "); other lines change nothing.
pub open spec fn worker_line_step(d: WorkerAlertView, line: Seq<char>) -> WorkerAlertView {
    if starts_with(line, seq!['[']) && contains(line, "Server:"@) {
        let parts = split(line, "] Server: "@);
        if parts.len() == 2 {
            let rest = split(parts[1], " | "@);
            if rest.len() >= 2 {
                WorkerAlertView {
                    log_time: strip_leading(parts[0], '['),
                    server: rest[0],
                    usage_msg: remove_all(rest[1], "ALERT! "@),
                }
            } else {
                WorkerAlertView { log_time: strip_leading(parts[0], '['), ..d }
            }
        } else {
            d
        }
    } else {
        d
    }
}

/// The worker entry that the lines of a block give.
pub open spec fn worker_fold(ls: Seq<Seq<char>>) -> WorkerAlertView
    decreases ls.len(),
{
    if ls.len() == 0 {
        empty_worker_alert()
    } else {
        worker_line_step(worker_fold(ls.drop_last()), ls.last())
    }
}

fn apply_worker_line(d: &mut WorkerAlertData, line: &[char])
    ensures
        final(d)@ == worker_line_step(old(d)@, line@),
{
    let open = ['['];
    assert(open@ =~= seq!['[']);
    let server_tag = chars_of("Server:");
    if has_prefix(line, open.as_slice()) && has_substring(line, server_tag.as_slice()) {
        let head = chars_of("] Server: ");
        let parts = split_by(line, head.as_slice());
        if parts.len() == 2 {
            let bar = chars_of(" | ");
            let rest = split_by(parts[1].as_slice(), bar.as_slice());
            d.log_time = string_of(stripped_leading(parts[0].as_slice(), '[').as_slice());
            if rest.len() >= 2 {
                let tag = chars_of("ALERT! ");
                d.server = string_of(rest[0].as_slice());
                d.usage_msg = string_of(removed(rest[1].as_slice(), tag.as_slice()).as_slice());
            }
        }
    }
}

fn parse_worker_block(block: &[char]) -> (d: WorkerAlertData)
    ensures
        d@ == worker_fold(lines(block@)),
{
    let ls = lines_of(block);
    let mut d = WorkerAlertData { log_time: String::new(), server: String::new(), usage_msg: String::new() };
    let mut i: usize = 0;
    while i < ls.len()
        invariant
            i <= ls@.len(),
            d@ == worker_fold(views(ls@).take(i as int)),
        decreases ls.len() - i,
    {
        apply_worker_line(&mut d, ls[i].as_slice());
        assert(views(ls@).take(i + 1).drop_last() =~= views(ls@).take(i as int));
        i += 1;
    }
    assert(views(ls@).take(ls@.len() as int) =~= views(ls@));
    d
}

// ---------------------------------------------------------------------------
// Session entries
// ---------------------------------------------------------------------------

/// Where a session entry is while its lines are read: the fields so far and
/// which statement continuation lines extend (0: none, 1: the executing
/// statement, 2: its batch).
pub struct SessionAlertState {
    pub data: SessionAlertView,
    pub sql_field: int,
}

struct SessionAlertCursor {
    data: SessionAlertData,
    sql_field: u8,
}

impl View for SessionAlertCursor {
    type V = SessionAlertState;

    closed spec fn view(&self) -> SessionAlertState {
        SessionAlertState { data: self.data@, sql_field: self.sql_field as int }
    }
}

/// The fields that the header line `[time] Server: server | SPID: id | Alert!
/// Session Elapsed: n ms` gives.
pub open spec fn session_header_fields(d: SessionAlertView, line: Seq<char>) -> SessionAlertView {
    let parts = split(line, "] Server: "@);
    if parts.len() == 2 {
        let rest = split(parts[1], " | "@);
        if rest.len() >= 3 {
            SessionAlertView {
                log_time: strip_leading(parts[0], '['),
                server: rest[0],
                spid: remove_all(rest[1], "SPID: "@),
                elapsed: remove_all(remove_all(rest[2], "Alert! Session Elapsed: "@), " ms"@),
                ..d
            }
        } else {
            SessionAlertView { log_time: strip_leading(parts[0], '['), ..d }
        }
    } else {
        d
    }
}

fn apply_session_header(d: &mut SessionAlertData, line: &[char])
    ensures
        final(d)@ == session_header_fields(old(d)@, line@),
{
    let head = chars_of("] Server: ");
    let parts = split_by(line, head.as_slice());
    if parts.len() == 2 {
        let bar = chars_of(" | ");
        let rest = split_by(parts[1].as_slice(), bar.as_slice());
        d.log_time = string_of(stripped_leading(parts[0].as_slice(), '[').as_slice());
        if rest.len() >= 3 {
            let spid_tag = chars_of("SPID: ");
            let elapsed_tag = chars_of("Alert! Session Elapsed: ");
            let ms = chars_of(" ms");
            d.server = string_of(rest[0].as_slice());
            d.spid = string_of(removed(rest[1].as_slice(), spid_tag.as_slice()).as_slice());
            let e = removed(rest[2].as_slice(), elapsed_tag.as_slice());
            d.elapsed = string_of(removed(e.as_slice(), ms.as_slice()).as_slice());
        }
    }
}

/// The fields that the line `\tWaitType: type (Time: n ms)` gives; without the
/// time part the whole rest is the wait type.
pub open spec fn session_wait_fields(d: SessionAlertView, line: Seq<char>) -> SessionAlertView {
    let raw = remove_all(line, "\tWaitType: "@);
    let w = split(raw, " (Time: "@);
    if w.len() == 2 {
        SessionAlertView { wait_type: w[0], wait_time_ms: remove_all(w[1], " ms)"@), ..d }
    } else {
        SessionAlertView { wait_type: raw, ..d }
    }
}

fn apply_session_wait(d: &mut SessionAlertData, line: &[char])
    ensures
        final(d)@ == session_wait_fields(old(d)@, line@),
{
    let tag = chars_of("\tWaitType: ");
    let raw = removed(line, tag.as_slice());
    let time_tag = chars_of(" (Time: ");
    let w = split_by(raw.as_slice(), time_tag.as_slice());
    if w.len() == 2 {
        let close = chars_of(" ms)");
        d.wait_type = string_of(w[0].as_slice());
        d.wait_time_ms = string_of(removed(w[1].as_slice(), close.as_slice()).as_slice());
    } else {
        d.wait_type = string_of(raw.as_slice());
    }
}
/// A session entry after one more line: each labelled line gives its field
/// (the label and, for times, the unit removed); see also [`session_line_step_more`].
pub open spec fn session_line_step(st: SessionAlertState, line: Seq<char>) -> SessionAlertState {
    if starts_with(line, seq!['[']) && contains(line, "SPID:"@) {
        SessionAlertState { data: session_header_fields(st.data, line), ..st }
    } else if starts_with(line, "\tStatus: "@) {
        SessionAlertState { data: SessionAlertView { status: remove_all(line, "\tStatus: "@), ..st.data }, ..st }
    } else if starts_with(line, "\tWaitType: "@) {
        SessionAlertState { data: session_wait_fields(st.data, line), ..st }
    } else if starts_with(line, "\tLastWaitType: "@) {
        SessionAlertState { data: SessionAlertView { last_wait_type: remove_all(line, "\tLastWaitType: "@), ..st.data }, ..st }
    } else if starts_with(line, "\tWaitResource: "@) {
        SessionAlertState { data: SessionAlertView { wait_resource: remove_all(line, "\tWaitResource: "@), ..st.data }, ..st }
    } else if starts_with(line, "\tWaitSessionID (Blocking): "@) {
        SessionAlertState { data: SessionAlertView { blocking_spid: remove_all(line, "\tWaitSessionID (Blocking): "@), ..st.data }, ..st }
    } else if starts_with(line, "\tCPU Time: "@) {
        SessionAlertState { data: SessionAlertView { cpu_time_ms: remove_all(remove_all(line, "\tCPU Time: "@), " ms"@), ..st.data }, ..st }
    } else if starts_with(line, "\tLogical Reads: "@) {
        SessionAlertState { data: SessionAlertView { logical_reads: remove_all(line, "\tLogical Reads: "@), ..st.data }, ..st }
    } else if starts_with(line, "\tPhysical Reads: "@) {
        SessionAlertState { data: SessionAlertView { physical_reads: remove_all(line, "\tPhysical Reads: "@), ..st.data }, ..st }
    } else if starts_with(line, "\tWrites: "@) {
        SessionAlertState { data: SessionAlertView { writes: remove_all(line, "\tWrites: "@), ..st.data }, ..st }
    } else {
        session_line_step_more(st, line)
    }
}

/// The rest of [`session_line_step`]: the remaining labelled lines, the two
/// statement lines (which also choose what continuation lines extend), and the
/// continuation lines, each added after a line feed.
pub open spec fn session_line_step_more(st: SessionAlertState, line: Seq<char>) -> SessionAlertState {
    if starts_with(line, "\tRowCount: "@) {
        SessionAlertState { data: SessionAlertView { row_count: remove_all(line, "\tRowCount: "@), ..st.data }, ..st }
    } else if starts_with(line, "\tOpen Trans: "@) {
        SessionAlertState { data: SessionAlertView { open_trans: remove_all(line, "\tOpen Trans: "@), ..st.data }, ..st }
    } else if starts_with(line, "\tDOP: "@) {
        SessionAlertState { data: SessionAlertView { dop: remove_all(line, "\tDOP: "@), ..st.data }, ..st }
    } else if starts_with(line, "\tClient Address: "@) {
        SessionAlertState { data: SessionAlertView { client_address: remove_all(line, "\tClient Address: "@), ..st.data }, ..st }
    } else if starts_with(line, "\tLogin Name: "@) {
        SessionAlertState { data: SessionAlertView { login_name: remove_all(line, "\tLogin Name: "@), ..st.data }, ..st }
    } else if starts_with(line, "\tDB Name: "@) {
        SessionAlertState { data: SessionAlertView { db_name: remove_all(line, "\tDB Name: "@), ..st.data }, ..st }
    } else if starts_with(line, "\tCommand: "@) {
        SessionAlertState { data: SessionAlertView { command: remove_all(line, "\tCommand: "@), ..st.data }, ..st }
    } else if starts_with(line, "\tStart Time: "@) {
        SessionAlertState { data: SessionAlertView { start_time: remove_all(line, "\tStart Time: "@), ..st.data }, ..st }
    } else if starts_with(line, "\tExecuting SQL: "@) {
        SessionAlertState { data: SessionAlertView { executing_sql: remove_all(line, "\tExecuting SQL: "@), ..st.data }, sql_field: 1 }
    } else if starts_with(line, "\tParent Batch SQL: "@) {
        SessionAlertState { data: SessionAlertView { parent_batch_sql: remove_all(line, "\tParent Batch SQL: "@), ..st.data }, sql_field: 2 }
    } else if st.sql_field == 1 {
        SessionAlertState { data: SessionAlertView { executing_sql: st.data.executing_sql + seq!['\n'] + line, ..st.data }, ..st }
    } else if st.sql_field == 2 {
        SessionAlertState { data: SessionAlertView { parent_batch_sql: st.data.parent_batch_sql + seq!['\n'] + line, ..st.data }, ..st }
    } else {
        st
    }
}

fn apply_session_line(st: &mut SessionAlertCursor, line: &[char])
    ensures
        final(st)@ == session_line_step(old(st)@, line@),
{
    let open = ['['];
    assert(open@ =~= seq!['[']);
    let spid = chars_of("SPID:");
    let p0 = chars_of("\tStatus: ");
    let p1 = chars_of("\tLastWaitType: ");
    let p2 = chars_of("\tWaitResource: ");
    let p3 = chars_of("\tWaitSessionID (Blocking): ");
    let p4 = chars_of("\tCPU Time: ");
    let p5 = chars_of("\tLogical Reads: ");
    let p6 = chars_of("\tPhysical Reads: ");
    let p7 = chars_of("\tWrites: ");
    let pw = chars_of("\tWaitType: ");
    if has_prefix(line, open.as_slice()) && has_substring(line, spid.as_slice()) {
        apply_session_header(&mut st.data, line);
    } else if has_prefix(line, p0.as_slice()) {
        st.data.status = string_of(removed(line, p0.as_slice()).as_slice());
    } else if has_prefix(line, pw.as_slice()) {
        apply_session_wait(&mut st.data, line);
    } else if has_prefix(line, p1.as_slice()) {
        st.data.last_wait_type = string_of(removed(line, p1.as_slice()).as_slice());
    } else if has_prefix(line, p2.as_slice()) {
        st.data.wait_resource = string_of(removed(line, p2.as_slice()).as_slice());
    } else if has_prefix(line, p3.as_slice()) {
        st.data.blocking_spid = string_of(removed(line, p3.as_slice()).as_slice());
    } else if has_prefix(line, p4.as_slice()) {
        let a = removed(line, p4.as_slice());
        let unit = chars_of(" ms");
        st.data.cpu_time_ms = string_of(removed(a.as_slice(), unit.as_slice()).as_slice());
    } else if has_prefix(line, p5.as_slice()) {
        st.data.logical_reads = string_of(removed(line, p5.as_slice()).as_slice());
    } else if has_prefix(line, p6.as_slice()) {
        st.data.physical_reads = string_of(removed(line, p6.as_slice()).as_slice());
    } else if has_prefix(line, p7.as_slice()) {
        st.data.writes = string_of(removed(line, p7.as_slice()).as_slice());
    } else {
        apply_session_line_more(st, line);
    }
}

fn apply_session_line_more(st: &mut SessionAlertCursor, line: &[char])
    ensures
        final(st)@ == session_line_step_more(old(st)@, line@),
{
    let q0 = chars_of("\tRowCount: ");
    let q1 = chars_of("\tOpen Trans: ");
    let q2 = chars_of("\tDOP: ");
    let q3 = chars_of("\tClient Address: ");
    let q4 = chars_of("\tLogin Name: ");
    let q5 = chars_of("\tDB Name: ");
    let q6 = chars_of("\tCommand: ");
    let q7 = chars_of("\tStart Time: ");
    let qe = chars_of("\tExecuting SQL: ");
    let qp = chars_of("\tParent Batch SQL: ");
    let nl = ['\n'];
    assert(nl@ =~= seq!['\n']);
    if has_prefix(line, q0.as_slice()) {
        st.data.row_count = string_of(removed(line, q0.as_slice()).as_slice());
    } else if has_prefix(line, q1.as_slice()) {
        st.data.open_trans = string_of(removed(line, q1.as_slice()).as_slice());
    } else if has_prefix(line, q2.as_slice()) {
        st.data.dop = string_of(removed(line, q2.as_slice()).as_slice());
    } else if has_prefix(line, q3.as_slice()) {
        st.data.client_address = string_of(removed(line, q3.as_slice()).as_slice());
    } else if has_prefix(line, q4.as_slice()) {
        st.data.login_name = string_of(removed(line, q4.as_slice()).as_slice());
    } else if has_prefix(line, q5.as_slice()) {
        st.data.db_name = string_of(removed(line, q5.as_slice()).as_slice());
    } else if has_prefix(line, q6.as_slice()) {
        st.data.command = string_of(removed(line, q6.as_slice()).as_slice());
    } else if has_prefix(line, q7.as_slice()) {
        st.data.start_time = string_of(removed(line, q7.as_slice()).as_slice());
    } else if has_prefix(line, qe.as_slice()) {
        st.data.executing_sql = string_of(removed(line, qe.as_slice()).as_slice());
        st.sql_field = 1;
    } else if has_prefix(line, qp.as_slice()) {
        st.data.parent_batch_sql = string_of(removed(line, qp.as_slice()).as_slice());
        st.sql_field = 2;
    } else if st.sql_field == 1 {
        push_chars(&mut st.data.executing_sql, nl.as_slice());
        push_chars(&mut st.data.executing_sql, line);
    } else if st.sql_field == 2 {
        push_chars(&mut st.data.parent_batch_sql, nl.as_slice());
        push_chars(&mut st.data.parent_batch_sql, line);
    }
}

/// The session entry state that the lines of a block give.
pub open spec fn session_fold(ls: Seq<Seq<char>>) -> SessionAlertState
    decreases ls.len(),
{
    if ls.len() == 0 {
        SessionAlertState { data: empty_session_alert(), sql_field: 0 }
    } else {
        session_line_step(session_fold(ls.drop_last()), ls.last())
    }
}

fn parse_session_block(block: &[char]) -> (d: SessionAlertData)
    ensures
        d@ == session_fold(lines(block@)).data,
{
    let ls = lines_of(block);
    let mut st = SessionAlertCursor { data: SessionAlertData::empty(), sql_field: 0 };
    let mut i: usize = 0;
    while i < ls.len()
        invariant
            i <= ls@.len(),
            st@ == session_fold(views(ls@).take(i as int)),
        decreases ls.len() - i,
    {
        apply_session_line(&mut st, ls[i].as_slice());
        assert(views(ls@).take(i + 1).drop_last() =~= views(ls@).take(i as int));
        i += 1;
    }
    assert(views(ls@).take(ls@.len() as int) =~= views(ls@));
    st.data
}

// ---------------------------------------------------------------------------
// The whole log
// ---------------------------------------------------------------------------

/// The entry a (trimmed) block gives: a worker entry when it mentions high worker
/// usage, else a session entry when it mentions a session alert, else none.
pub open spec fn alert_of_block(b: Seq<char>) -> Option<AlertEntryView> {
    if contains(b, "Worker Threads usage is high"@) {
        Some(AlertEntryView::Worker(worker_fold(lines(b))))
    } else if contains(b, "Alert! Session Elapsed:"@) {
        Some(AlertEntryView::Session(session_fold(lines(b)).data))
    } else {
        None
    }
}

/// The entries that the blocks give, in order; blank blocks give none.
pub open spec fn alerts_of_blocks(blocks: Seq<Seq<char>>) -> Seq<AlertEntryView>
    decreases blocks.len(),
{
    if blocks.len() == 0 {
        seq![]
    } else {
        let prev = alerts_of_blocks(blocks.drop_last());
        let b = trim(blocks.last());
        if b.len() == 0 {
            prev
        } else {
            match alert_of_block(b) {
                Some(e) => prev.push(e),
                None => prev,
            }
        }
    }
}

/// The entries of an alert log: its blocks are the pieces between separator
/// lines, each trimmed.
pub open spec fn parse_alert_log(content: Seq<char>) -> Seq<AlertEntryView> {
    alerts_of_blocks(split(content, separator_line()))
}

/// The views of a list of entries.
pub open spec fn entry_views(v: Seq<AlertEntry>) -> Seq<AlertEntryView> {
    v.map_values(|e: AlertEntry| e@)
}

/// The alert log viewer's state: the status line, the entries read, and the
/// entry whose details are open.
pub struct LogViewerApp {
    pub loaded_file_name: String,
    pub alerts: Vec<AlertEntry>,
    pub selected_session: Option<SessionAlertData>,
}

impl Default for LogViewerApp {
    /// A viewer with no entries, asking for a file to be dropped.
    fn default() -> (r: LogViewerApp)
        ensures
            r.loaded_file_name@ == "請將 Alert Log 檔案拖曳至此視窗"@,
            r.alerts@.len() == 0,
            r.selected_session is None,
    {
        LogViewerApp {
            loaded_file_name: String::from_str("請將 Alert Log 檔案拖曳至此視窗"),
            alerts: Vec::new(),
            selected_session: None,
        }
    }
}

impl LogViewerApp {
    /// Replaces the entries with those read from `content`.
    pub fn parse_log_content(&mut self, content: &str)
        ensures
            entry_views(final(self).alerts@) == parse_alert_log(content@),
            final(self).loaded_file_name@ == old(self).loaded_file_name@,
            final(self).selected_session == old(self).selected_session,
    {
        let text = chars_of(content);
        let sep = chars_of("==================================================");
        let worker_tag = chars_of("Worker Threads usage is high");
        let session_tag = chars_of("Alert! Session Elapsed:");
        let blocks = split_by(text.as_slice(), sep.as_slice());
        let ghost bv = views(blocks@);
        let mut alerts: Vec<AlertEntry> = Vec::new();
        let mut i: usize = 0;
        while i < blocks.len()
            invariant
                i <= blocks@.len(),
                bv == views(blocks@),
                worker_tag@ == "Worker Threads usage is high"@,
                session_tag@ == "Alert! Session Elapsed:"@,
                entry_views(alerts@) == alerts_of_blocks(bv.take(i as int)),
            decreases blocks.len() - i,
        {
            assert(bv.take(i + 1).drop_last() =~= bv.take(i as int));
            let ghost before = alerts@;
            let b = trimmed(blocks[i].as_slice());
            if b.len() > 0 {
                if has_substring(b.as_slice(), worker_tag.as_slice()) {
                    let w = parse_worker_block(b.as_slice());
                    alerts.push(AlertEntry::Worker(w));
                    assert(entry_views(alerts@) =~= entry_views(before).push(alerts@.last()@));
                } else if has_substring(b.as_slice(), session_tag.as_slice()) {
                    let s = parse_session_block(b.as_slice());
                    alerts.push(AlertEntry::Session(s));
                    assert(entry_views(alerts@) =~= entry_views(before).push(alerts@.last()@));
                }
            }
            i += 1;
        }
        assert(bv.take(blocks@.len() as int) =~= bv);
        self.alerts = alerts;
    }
}

/// The first lines of the detail text of a session alert entry.
#[verifier::opaque]
pub open spec fn alert_detail_head(s: SessionAlertView) -> Seq<char> {
    "Log Time: "@
        + s.log_time
        + "\nServer: "@
        + s.server
        + "\nSPID: "@
        + s.spid
        + "\nElapsed Time: "@
        + s.elapsed
        + " ms\nStatus: "@
        + s.status
        + "\nWait Type: "@
        + s.wait_type
        + " ("@
        + s.wait_time_ms
        + " ms)\nLast Wait Type: "@
        + s.last_wait_type
}

fn put_alert_detail_head(out: &mut Vec<char>, s: &SessionAlertData)
    ensures
        final(out)@ == old(out)@ + alert_detail_head(s@),
{
    proof {
        reveal(alert_detail_head);
    }
    let ghost start = out@;
    let ghost g_s = s@;
    put(out, "Log Time: ");
    put_text(out, &s.log_time);
    assert(out@ =~= start + ("Log Time: "@ + g_s.log_time));
    put(out, "\nServer: ");
    assert(out@ =~= start + ("Log Time: "@ + g_s.log_time + "\nServer: "@));
    put_text(out, &s.server);
    assert(out@ =~= start + ("Log Time: "@ + g_s.log_time + "\nServer: "@ + g_s.server));
    put(out, "\nSPID: ");
    assert(out@ =~= start + ("Log Time: "@ + g_s.log_time + "\nServer: "@ + g_s.server + "\nSPID: "@));
    put_text(out, &s.spid);
    assert(out@ =~= start + ("Log Time: "@ + g_s.log_time + "\nServer: "@ + g_s.server + "\nSPID: "@ + g_s.spid));
    put(out, "\nElapsed Time: ");
    assert(out@ =~= start + ("Log Time: "@ + g_s.log_time + "\nServer: "@ + g_s.server + "\nSPID: "@ + g_s.spid + "\nElapsed Time: "@));
    put_text(out, &s.elapsed);
    assert(out@ =~= start + ("Log Time: "@ + g_s.log_time + "\nServer: "@ + g_s.server + "\nSPID: "@ + g_s.spid + "\nElapsed Time: "@ + g_s.elapsed));
    put(out, " ms\nStatus: ");
    assert(out@ =~= start + ("Log Time: "@ + g_s.log_time + "\nServer: "@ + g_s.server + "\nSPID: "@ + g_s.spid + "\nElapsed Time: "@ + g_s.elapsed + " ms\nStatus: "@));
    put_text(out, &s.status);
    assert(out@ =~= start + ("Log Time: "@ + g_s.log_time + "\nServer: "@ + g_s.server + "\nSPID: "@ + g_s.spid + "\nElapsed Time: "@ + g_s.elapsed + " ms\nStatus: "@ + g_s.status));
    put(out, "\nWait Type: ");
    assert(out@ =~= start + ("Log Time: "@ + g_s.log_time + "\nServer: "@ + g_s.server + "\nSPID: "@ + g_s.spid + "\nElapsed Time: "@ + g_s.elapsed + " ms\nStatus: "@ + g_s.status + "\nWait Type: "@));
    put_text(out, &s.wait_type);
    assert(out@ =~= start + ("Log Time: "@ + g_s.log_time + "\nServer: "@ + g_s.server + "\nSPID: "@ + g_s.spid + "\nElapsed Time: "@ + g_s.elapsed + " ms\nStatus: "@ + g_s.status + "\nWait Type: "@ + g_s.wait_type));
    put(out, " (");
    assert(out@ =~= start + ("Log Time: "@ + g_s.log_time + "\nServer: "@ + g_s.server + "\nSPID: "@ + g_s.spid + "\nElapsed Time: "@ + g_s.elapsed + " ms\nStatus: "@ + g_s.status + "\nWait Type: "@ + g_s.wait_type + " ("@));
    put_text(out, &s.wait_time_ms);
    assert(out@ =~= start + ("Log Time: "@ + g_s.log_time + "\nServer: "@ + g_s.server + "\nSPID: "@ + g_s.spid + "\nElapsed Time: "@ + g_s.elapsed + " ms\nStatus: "@ + g_s.status + "\nWait Type: "@ + g_s.wait_type + " ("@ + g_s.wait_time_ms));
    put(out, " ms)\nLast Wait Type: ");
    assert(out@ =~= start + ("Log Time: "@ + g_s.log_time + "\nServer: "@ + g_s.server + "\nSPID: "@ + g_s.spid + "\nElapsed Time: "@ + g_s.elapsed + " ms\nStatus: "@ + g_s.status + "\nWait Type: "@ + g_s.wait_type + " ("@ + g_s.wait_time_ms + " ms)\nLast Wait Type: "@));
    put_text(out, &s.last_wait_type);
    assert(out@ =~= start + ("Log Time: "@ + g_s.log_time + "\nServer: "@ + g_s.server + "\nSPID: "@ + g_s.spid + "\nElapsed Time: "@ + g_s.elapsed + " ms\nStatus: "@ + g_s.status + "\nWait Type: "@ + g_s.wait_type + " ("@ + g_s.wait_time_ms + " ms)\nLast Wait Type: "@ + g_s.last_wait_type));
    assert(final(out)@ =~= old(out)@ + alert_detail_head(s@));
}

/// The wait resource and resource-use lines of the detail text of a session
/// alert entry.
#[verifier::opaque]
pub open spec fn alert_detail_mid(s: SessionAlertView) -> Seq<char> {
    "\nWait Resource: "@
        + s.wait_resource
        + "\nWait Session ID (Blocking): "@
        + s.blocking_spid
        + "\nCPU Time: "@
        + s.cpu_time_ms
        + " ms\nLogical Reads: "@
        + s.logical_reads
        + "\nPhysical Reads: "@
        + s.physical_reads
        + "\nWrites: "@
        + s.writes
        + "\nRow Count: "@
        + s.row_count
        + "\nOpen Trans: "@
        + s.open_trans
        + "\nDOP: "@
        + s.dop
}

fn put_alert_detail_mid(out: &mut Vec<char>, s: &SessionAlertData)
    ensures
        final(out)@ == old(out)@ + alert_detail_mid(s@),
{
    proof {
        reveal(alert_detail_mid);
    }
    let ghost start = out@;
    let ghost g_s = s@;
    put(out, "\nWait Resource: ");
    put_text(out, &s.wait_resource);
    assert(out@ =~= start + ("\nWait Resource: "@ + g_s.wait_resource));
    put(out, "\nWait Session ID (Blocking): ");
    assert(out@ =~= start + ("\nWait Resource: "@ + g_s.wait_resource + "\nWait Session ID (Blocking): "@));
    put_text(out, &s.blocking_spid);
    assert(out@ =~= start + ("\nWait Resource: "@ + g_s.wait_resource + "\nWait Session ID (Blocking): "@ + g_s.blocking_spid));
    put(out, "\nCPU Time: ");
    assert(out@ =~= start + ("\nWait Resource: "@ + g_s.wait_resource + "\nWait Session ID (Blocking): "@ + g_s.blocking_spid + "\nCPU Time: "@));
    put_text(out, &s.cpu_time_ms);
    assert(out@ =~= start + ("\nWait Resource: "@ + g_s.wait_resource + "\nWait Session ID (Blocking): "@ + g_s.blocking_spid + "\nCPU Time: "@ + g_s.cpu_time_ms));
    put(out, " ms\nLogical Reads: ");
    assert(out@ =~= start + ("\nWait Resource: "@ + g_s.wait_resource + "\nWait Session ID (Blocking): "@ + g_s.blocking_spid + "\nCPU Time: "@ + g_s.cpu_time_ms + " ms\nLogical Reads: "@));
    put_text(out, &s.logical_reads);
    assert(out@ =~= start + ("\nWait Resource: "@ + g_s.wait_resource + "\nWait Session ID (Blocking): "@ + g_s.blocking_spid + "\nCPU Time: "@ + g_s.cpu_time_ms + " ms\nLogical Reads: "@ + g_s.logical_reads));
    put(out, "\nPhysical Reads: ");
    assert(out@ =~= start + ("\nWait Resource: "@ + g_s.wait_resource + "\nWait Session ID (Blocking): "@ + g_s.blocking_spid + "\nCPU Time: "@ + g_s.cpu_time_ms + " ms\nLogical Reads: "@ + g_s.logical_reads + "\nPhysical Reads: "@));
    put_text(out, &s.physical_reads);
    assert(out@ =~= start + ("\nWait Resource: "@ + g_s.wait_resource + "\nWait Session ID (Blocking): "@ + g_s.blocking_spid + "\nCPU Time: "@ + g_s.cpu_time_ms + " ms\nLogical Reads: "@ + g_s.logical_reads + "\nPhysical Reads: "@ + g_s.physical_reads));
    put(out, "\nWrites: ");
    assert(out@ =~= start + ("\nWait Resource: "@ + g_s.wait_resource + "\nWait Session ID (Blocking): "@ + g_s.blocking_spid + "\nCPU Time: "@ + g_s.cpu_time_ms + " ms\nLogical Reads: "@ + g_s.logical_reads + "\nPhysical Reads: "@ + g_s.physical_reads + "\nWrites: "@));
    put_text(out, &s.writes);
    assert(out@ =~= start + ("\nWait Resource: "@ + g_s.wait_resource + "\nWait Session ID (Blocking): "@ + g_s.blocking_spid + "\nCPU Time: "@ + g_s.cpu_time_ms + " ms\nLogical Reads: "@ + g_s.logical_reads + "\nPhysical Reads: "@ + g_s.physical_reads + "\nWrites: "@ + g_s.writes));
    put(out, "\nRow Count: ");
    assert(out@ =~= start + ("\nWait Resource: "@ + g_s.wait_resource + "\nWait Session ID (Blocking): "@ + g_s.blocking_spid + "\nCPU Time: "@ + g_s.cpu_time_ms + " ms\nLogical Reads: "@ + g_s.logical_reads + "\nPhysical Reads: "@ + g_s.physical_reads + "\nWrites: "@ + g_s.writes + "\nRow Count: "@));
    put_text(out, &s.row_count);
    assert(out@ =~= start + ("\nWait Resource: "@ + g_s.wait_resource + "\nWait Session ID (Blocking): "@ + g_s.blocking_spid + "\nCPU Time: "@ + g_s.cpu_time_ms + " ms\nLogical Reads: "@ + g_s.logical_reads + "\nPhysical Reads: "@ + g_s.physical_reads + "\nWrites: "@ + g_s.writes + "\nRow Count: "@ + g_s.row_count));
    put(out, "\nOpen Trans: ");
    assert(out@ =~= start + ("\nWait Resource: "@ + g_s.wait_resource + "\nWait Session ID (Blocking): "@ + g_s.blocking_spid + "\nCPU Time: "@ + g_s.cpu_time_ms + " ms\nLogical Reads: "@ + g_s.logical_reads + "\nPhysical Reads: "@ + g_s.physical_reads + "\nWrites: "@ + g_s.writes + "\nRow Count: "@ + g_s.row_count + "\nOpen Trans: "@));
    put_text(out, &s.open_trans);
    assert(out@ =~= start + ("\nWait Resource: "@ + g_s.wait_resource + "\nWait Session ID (Blocking): "@ + g_s.blocking_spid + "\nCPU Time: "@ + g_s.cpu_time_ms + " ms\nLogical Reads: "@ + g_s.logical_reads + "\nPhysical Reads: "@ + g_s.physical_reads + "\nWrites: "@ + g_s.writes + "\nRow Count: "@ + g_s.row_count + "\nOpen Trans: "@ + g_s.open_trans));
    put(out, "\nDOP: ");
    assert(out@ =~= start + ("\nWait Resource: "@ + g_s.wait_resource + "\nWait Session ID (Blocking): "@ + g_s.blocking_spid + "\nCPU Time: "@ + g_s.cpu_time_ms + " ms\nLogical Reads: "@ + g_s.logical_reads + "\nPhysical Reads: "@ + g_s.physical_reads + "\nWrites: "@ + g_s.writes + "\nRow Count: "@ + g_s.row_count + "\nOpen Trans: "@ + g_s.open_trans + "\nDOP: "@));
    put_text(out, &s.dop);
    assert(out@ =~= start + ("\nWait Resource: "@ + g_s.wait_resource + "\nWait Session ID (Blocking): "@ + g_s.blocking_spid + "\nCPU Time: "@ + g_s.cpu_time_ms + " ms\nLogical Reads: "@ + g_s.logical_reads + "\nPhysical Reads: "@ + g_s.physical_reads + "\nWrites: "@ + g_s.writes + "\nRow Count: "@ + g_s.row_count + "\nOpen Trans: "@ + g_s.open_trans + "\nDOP: "@ + g_s.dop));
    assert(final(out)@ =~= old(out)@ + alert_detail_mid(s@));
}

/// The client, command and statement parts of the detail text of a session
/// alert entry.
#[verifier::opaque]
pub open spec fn alert_detail_tail(s: SessionAlertView) -> Seq<char> {
    "\nClient Address: "@
        + s.client_address
        + "\nLogin Name: "@
        + s.login_name
        + "\nDB Name: "@
        + s.db_name
        + "\nCommand: "@
        + s.command
        + "\nStart Time: "@
        + s.start_time
        + "\n\n--- Executing SQL ---\n"@
        + trim(s.executing_sql)
        + "\n\n--- Parent Batch SQL ---\n"@
        + trim(s.parent_batch_sql)
}

fn put_alert_detail_tail(out: &mut Vec<char>, s: &SessionAlertData)
    ensures
        final(out)@ == old(out)@ + alert_detail_tail(s@),
{
    proof {
        reveal(alert_detail_tail);
    }
    let ghost start = out@;
    let ghost g_s = s@;
    put(out, "\nClient Address: ");
    put_text(out, &s.client_address);
    assert(out@ =~= start + ("\nClient Address: "@ + g_s.client_address));
    put(out, "\nLogin Name: ");
    assert(out@ =~= start + ("\nClient Address: "@ + g_s.client_address + "\nLogin Name: "@));
    put_text(out, &s.login_name);
    assert(out@ =~= start + ("\nClient Address: "@ + g_s.client_address + "\nLogin Name: "@ + g_s.login_name));
    put(out, "\nDB Name: ");
    assert(out@ =~= start + ("\nClient Address: "@ + g_s.client_address + "\nLogin Name: "@ + g_s.login_name + "\nDB Name: "@));
    put_text(out, &s.db_name);
    assert(out@ =~= start + ("\nClient Address: "@ + g_s.client_address + "\nLogin Name: "@ + g_s.login_name + "\nDB Name: "@ + g_s.db_name));
    put(out, "\nCommand: ");
    assert(out@ =~= start + ("\nClient Address: "@ + g_s.client_address + "\nLogin Name: "@ + g_s.login_name + "\nDB Name: "@ + g_s.db_name + "\nCommand: "@));
    put_text(out, &s.command);
    assert(out@ =~= start + ("\nClient Address: "@ + g_s.client_address + "\nLogin Name: "@ + g_s.login_name + "\nDB Name: "@ + g_s.db_name + "\nCommand: "@ + g_s.command));
    put(out, "\nStart Time: ");
    assert(out@ =~= start + ("\nClient Address: "@ + g_s.client_address + "\nLogin Name: "@ + g_s.login_name + "\nDB Name: "@ + g_s.db_name + "\nCommand: "@ + g_s.command + "\nStart Time: "@));
    put_text(out, &s.start_time);
    assert(out@ =~= start + ("\nClient Address: "@ + g_s.client_address + "\nLogin Name: "@ + g_s.login_name + "\nDB Name: "@ + g_s.db_name + "\nCommand: "@ + g_s.command + "\nStart Time: "@ + g_s.start_time));
    put(out, "\n\n--- Executing SQL ---\n");
    assert(out@ =~= start + ("\nClient Address: "@ + g_s.client_address + "\nLogin Name: "@ + g_s.login_name + "\nDB Name: "@ + g_s.db_name + "\nCommand: "@ + g_s.command + "\nStart Time: "@ + g_s.start_time + "\n\n--- Executing SQL ---\n"@));
    put_trimmed(out, &s.executing_sql);
    assert(out@ =~= start + ("\nClient Address: "@ + g_s.client_address + "\nLogin Name: "@ + g_s.login_name + "\nDB Name: "@ + g_s.db_name + "\nCommand: "@ + g_s.command + "\nStart Time: "@ + g_s.start_time + "\n\n--- Executing SQL ---\n"@ + trim(g_s.executing_sql)));
    put(out, "\n\n--- Parent Batch SQL ---\n");
    assert(out@ =~= start + ("\nClient Address: "@ + g_s.client_address + "\nLogin Name: "@ + g_s.login_name + "\nDB Name: "@ + g_s.db_name + "\nCommand: "@ + g_s.command + "\nStart Time: "@ + g_s.start_time + "\n\n--- Executing SQL ---\n"@ + trim(g_s.executing_sql) + "\n\n--- Parent Batch SQL ---\n"@));
    put_trimmed(out, &s.parent_batch_sql);
    assert(out@ =~= start + ("\nClient Address: "@ + g_s.client_address + "\nLogin Name: "@ + g_s.login_name + "\nDB Name: "@ + g_s.db_name + "\nCommand: "@ + g_s.command + "\nStart Time: "@ + g_s.start_time + "\n\n--- Executing SQL ---\n"@ + trim(g_s.executing_sql) + "\n\n--- Parent Batch SQL ---\n"@ + trim(g_s.parent_batch_sql)));
    assert(final(out)@ =~= old(out)@ + alert_detail_tail(s@));
}


/// The detail text of a session alert entry that the user can copy.
pub open spec fn alert_detail_text(s: SessionAlertView) -> Seq<char> {
    alert_detail_head(s) + alert_detail_mid(s) + alert_detail_tail(s)
}

/// The detail text of `s`.
pub fn alert_session_detail(s: &SessionAlertData) -> (r: String)
    ensures
        r@ == alert_detail_text(s@),
        alert_detail_labels(s@, r@),
{
    proof {
        law_alert_detail_labels(s@);
    }
    let mut out: Vec<char> = Vec::new();
    put_alert_detail_head(&mut out, s);
    put_alert_detail_mid(&mut out, s);
    put_alert_detail_tail(&mut out, s);
    assert(out@ =~= alert_detail_text(s@));
    string_of(out.as_slice())
}

/// The wait cell of a session alert entry: "-" when the wait type is blank,
/// else the wait type and its time in milliseconds.
pub open spec fn alert_wait_cell_text(s: SessionAlertView) -> Seq<char> {
    if trim(s.wait_type).len() == 0 {
        "-"@
    } else {
        s.wait_type + " ("@ + s.wait_time_ms + "ms)"@
    }
}

/// The wait cell of `s`.
pub fn alert_wait_cell(s: &SessionAlertData) -> (r: String)
    ensures
        r@ == alert_wait_cell_text(s@),
{
    let w = chars_of(s.wait_type.as_str());
    let t = trimmed(w.as_slice());
    if t.len() == 0 {
        return String::from_str("-");
    }
    let mut out: Vec<char> = Vec::new();
    put_text(&mut out, &s.wait_type);
    put(&mut out, " (");
    put_text(&mut out, &s.wait_time_ms);
    put(&mut out, "ms)");
    assert(out@ =~= alert_wait_cell_text(s@));
    string_of(out.as_slice())
}


} // verus!
