//! An exported snapshot reads back as the snapshot it was written from: the
//! viewer, given the text that "export" writes, shows the same figures and
//! requests again.
use vstd::prelude::*;
use crate::number::int_decimal;
use crate::model::{DashboardView, SessionView};
use crate::report::{
    client_line, command_line, dash_line, io_line, resource_line, rows_line, separator_line,
    session_block_text, sessions_text, snapshot_activity, snapshot_counters, snapshot_header,
    snapshot_log_text, snapshot_workers, spid_line, wait_line,
};
use crate::snapshot_viewer::{
    DetailLine, SessionSnapView, SnapshotParseState, SnapshotView, empty_snap_session, empty_snapshot,
    export_activity, export_client_lines, export_figures, export_header, export_io_line,
    export_rows_line, export_session_block, export_sessions_text, export_spid_line, export_sql_lines,
    export_text, export_wait_lines, extend_line, parse_snapshot_log, part_step, parts_fold,
    session_line_step, snap_wait_fields, snapshot_fold, snapshot_line_step, snapshot_of_block,
    snapshots_of_blocks,
};
use crate::text::{lemma_split_from_nonempty, char_is_whitespace, contains, lines, occurs_at, remove_all, split, starts_with, trim, trim_end, trim_start};
use crate::text_laws::{
    ends_before, lacks, lemma_blank_prefix, lemma_contains_prefix, lemma_split_concat, lemma_differ_at, lemma_ends_before_by_last,
    lemma_lacks_cat, lemma_lacks_ends_before, lemma_lacks_no_occurrence, lemma_lines_of_lines_text, lemma_decimal_lacks, lemma_trim_trimmed, lemma_split_leading, lemma_trim_leading_line_feed,
    lemma_lines_text_ends, lemma_lines_text_nl, lemma_lines_text_nl_append, lemma_plain_lines_append,
    lemma_remove_prefix, lemma_remove_suffix, lemma_split_head, lemma_split_whole, lemma_trim_ends,
    lemma_lines_text_push, lemma_lines_cons, lemma_lines_append, lemma_lines_nl_prefix, lemma_lines_line_feed_end,
    lemma_lines_of_line_feeds, lemma_split_last_line, lemma_split_lines, lines_text, lines_text_nl, plain_lines,
    trimmed_text,
};

verus! {

/// A text field that a bar follows on its detail line: no line break, no bar
/// separator after its label but the one that follows it, and no copy of its
/// label.
pub open spec fn detail_text(v: Seq<char>, label: Seq<char>) -> bool {
    &&& lacks(v, '\n')
    &&& ends_before(label + v, " | "@)
    &&& !contains(v, label)
}

/// A text field that ends its detail line: no line break, no bar separator
/// after its label, no copy of its label, and not ending in whitespace (which
/// the viewer trims from each line).
pub open spec fn last_detail_text(v: Seq<char>, label: Seq<char>) -> bool {
    &&& lacks(v, '\n')
    &&& !contains(label + v, " | "@)
    &&& !contains(v, label)
    &&& (v.len() == 0 || !char_is_whitespace(v.last()))
}

/// A field that has a header line of its own: no line break, no copy of its
/// label, not empty and not ending in whitespace.
pub open spec fn header_text(v: Seq<char>, label: Seq<char>) -> bool {
    &&& lacks(v, '\n')
    &&& !contains(v, label)
    &&& v.len() > 0
    &&& !char_is_whitespace(v.last())
}

/// A statement line that the viewer takes as statement text: one line that
/// begins with none of the labels of the snapshot log.
pub open spec fn plain_statement(v: Seq<char>) -> bool {
    &&& lacks(v, '\n')
    &&& !starts_with(v, "Server: "@)
    &&& !starts_with(v, "Capture Time: "@)
    &&& !starts_with(v, "Workers: "@)
    &&& !starts_with(v, "Logical Connections: "@)
    &&& !starts_with(v, "Page Life Expectancy: "@)
    &&& !starts_with(v, "Active Temp Tables: "@)
    &&& !starts_with(v, "Transactions: "@)
    &&& !starts_with(v, "Request Sessions: "@)
    &&& !starts_with(v, "--- [Session "@)
    &&& !starts_with(v, "SPID: "@)
    &&& !starts_with(v, "Wait Type: "@)
    &&& !starts_with(v, "Wait Resource: "@)
    &&& !starts_with(v, "CPU Time: "@)
    &&& !starts_with(v, "Row Count: "@)
    &&& !starts_with(v, "Client Address: "@)
    &&& !starts_with(v, "Command: "@)
    &&& !starts_with(v, "Executing SQL:"@)
    &&& !starts_with(v, "Parent Batch SQL:"@)
    &&& !starts_with(v, dash_line())
    &&& !starts_with(v, "Captured Sessions Details:"@)
    &&& !starts_with(v, "No sessions captured"@)
}

/// A line of a statement that the viewer keeps as it is: statement text, and
/// no whitespace at its end (which the viewer trims from each line).
pub open spec fn statement_line(l: Seq<char>) -> bool {
    &&& plain_statement(l)
    &&& trim_end(l) == l
}

/// A statement each of whose lines the viewer keeps as it is.
pub open spec fn statement_text(v: Seq<char>) -> bool {
    forall|i: int| 0 <= i < split(v, seq!['\n']).len() ==> statement_line(#[trigger] split(v, seq!['\n'])[i])
}

/// A figure that its unit follows on its detail line: no line break, the text
/// after its label (the figure, then " ms") with no bar separator but the one
/// that follows it and no copy of the label, and no " ms" in the figure before
/// its unit.
pub open spec fn timed_text(v: Seq<char>, label: Seq<char>) -> bool {
    &&& lacks(v, '\n')
    &&& ends_before(label + (v + " ms"@), " | "@)
    &&& !contains(v + " ms"@, label)
    &&& ends_before(v, " ms"@)
}

/// A request that the export writes and the viewer reads back unchanged.
pub open spec fn exportable_session(s: SessionSnapView) -> bool {
    &&& detail_text(s.spid, "SPID: "@)
    &&& timed_text(s.elapsed, "Elapsed Time: "@)
    &&& last_detail_text(s.status, "Status: "@)
    &&& lacks(s.wait_type, '\n')
    &&& lacks(s.wait_time_ms, '\n')
    &&& ends_before("Wait Type: "@ + (s.wait_type + " ("@ + s.wait_time_ms + " ms)"@), " | "@)
    &&& !contains(s.wait_type + " ("@ + s.wait_time_ms + " ms)"@, "Wait Type: "@)
    &&& ends_before(s.wait_type, " ("@)
    &&& !contains(s.wait_time_ms + " ms)"@, " ("@)
    &&& ends_before(s.wait_time_ms, " ms)"@)
    &&& last_detail_text(s.last_wait_type, "Last Wait: "@)
    &&& detail_text(s.wait_resource, "Wait Resource: "@)
    &&& last_detail_text(s.blocking_spid, "Blocking SPID: "@)
    &&& timed_text(s.cpu_time_ms, "CPU Time: "@)
    &&& detail_text(s.logical_reads, "Logical Reads: "@)
    &&& detail_text(s.physical_reads, "Physical Reads: "@)
    &&& last_detail_text(s.writes, "Writes: "@)
    &&& detail_text(s.row_count, "Row Count: "@)
    &&& detail_text(s.open_trans, "Open Trans: "@)
    &&& last_detail_text(s.dop, "DOP: "@)
    &&& detail_text(s.client_address, "Client Address: "@)
    &&& detail_text(s.login_name, "Login Name: "@)
    &&& last_detail_text(s.db_name, "DB Name: "@)
    &&& detail_text(s.command, "Command: "@)
    &&& last_detail_text(s.start_time, "Start Time: "@)
    &&& statement_text(trim(s.executing_sql))
    &&& statement_text(trim(s.parent_batch_sql))
}

/// The header of a snapshot that the export writes and the viewer reads back:
/// a server and the other header fields on one line each (all but the server
/// may be empty).
pub open spec fn exportable_header(d: SnapshotView) -> bool {
    &&& header_text(d.server, "Server: "@)
    &&& d.capture_time.len() == 0 || header_text(d.capture_time, "Capture Time: "@)
    &&& d.workers.len() == 0 || header_text(d.workers, "Workers: "@)
    &&& d.logical_connections.len() == 0 || header_text(d.logical_connections, "Logical Connections: "@)
    &&& d.ple.len() == 0 || header_text(d.ple, "Page Life Expectancy: "@)
    &&& d.active_temp_tables.len() == 0 || header_text(d.active_temp_tables, "Active Temp Tables: "@)
    &&& d.transactions.len() == 0 || header_text(d.transactions, "Transactions: "@)
    &&& d.request_sessions_count.len() == 0 || header_text(d.request_sessions_count, "Request Sessions: "@)
}

/// A snapshot that the export writes and the viewer reads back: an exportable
/// header and exportable requests.
pub open spec fn exportable_snapshot(d: SnapshotView) -> bool {
    &&& exportable_header(d)
    &&& forall|i: int| 0 <= i < d.sessions.len() ==> exportable_session(#[trigger] d.sessions[i])
}

/// The request at position `i` as the viewer reads it back: at its position,
/// the statements trimmed; a request followed by another in the same snapshot
/// also gets the blank line after its batch statement, as a line feed.
pub open spec fn read_back_session(i: int, s: SessionSnapView, followed: bool) -> SessionSnapView {
    SessionSnapView {
        original_idx: i,
        executing_sql: trim(s.executing_sql),
        parent_batch_sql: if followed {
            extend_line(trim(s.parent_batch_sql), seq![])
        } else {
            trim(s.parent_batch_sql)
        },
        ..s
    }
}

/// The snapshot as the viewer reads it back.
pub open spec fn read_back_snapshot(d: SnapshotView) -> SnapshotView {
    SnapshotView {
        sessions: Seq::new(
            d.sessions.len(),
            |i: int| read_back_session(i, d.sessions[i], i + 1 < d.sessions.len()),
        ),
        ..d
    }
}

/// The header lines of an exported snapshot, up to the blank line after
/// "Captured Sessions Details:".
pub open spec fn export_head_lines(d: SnapshotView) -> Seq<Seq<char>> {
    seq![
        "Server: "@ + d.server,
        "Capture Time: "@ + d.capture_time,
        dash_line(),
        "Workers: "@ + d.workers,
        "Logical Connections: "@ + d.logical_connections,
        "Page Life Expectancy: "@ + d.ple,
        "Active Temp Tables: "@ + d.active_temp_tables,
        "Transactions: "@ + d.transactions,
        "Request Sessions: "@ + d.request_sessions_count,
        dash_line(),
        "Captured Sessions Details:"@,
        seq![],
    ]
}

/// The lines of the exported request numbered `n` as the export writes them,
/// each statement as one piece, without the blank line that follows them.
pub open spec fn export_block_rows(n: int, s: SessionSnapView) -> Seq<Seq<char>> {
    seq![
        "--- [Session "@ + int_decimal(n) + "] ---"@,
        ("SPID: "@ + s.spid) + " | "@ + ("Elapsed Time: "@ + (s.elapsed + " ms"@)) + " | "@ + ("Status: "@ + s.status),
        ("Wait Type: "@ + (s.wait_type + " ("@ + s.wait_time_ms + " ms)"@)) + " | "@ + ("Last Wait: "@ + s.last_wait_type),
        ("Wait Resource: "@ + s.wait_resource) + " | "@ + ("Blocking SPID: "@ + s.blocking_spid),
        ("CPU Time: "@ + (s.cpu_time_ms + " ms"@)) + " | "@ + ("Logical Reads: "@ + s.logical_reads) + " | "@ + ("Physical Reads: "@ + s.physical_reads) + " | "@ + ("Writes: "@ + s.writes),
        ("Row Count: "@ + s.row_count) + " | "@ + ("Open Trans: "@ + s.open_trans) + " | "@ + ("DOP: "@ + s.dop),
        ("Client Address: "@ + s.client_address) + " | "@ + ("Login Name: "@ + s.login_name) + " | "@ + ("DB Name: "@ + s.db_name),
        ("Command: "@ + s.command) + " | "@ + ("Start Time: "@ + s.start_time),
        "Executing SQL:"@,
        trim(s.executing_sql),
        "Parent Batch SQL:"@,
        trim(s.parent_batch_sql),
    ]
}

/// The lines of an exported request as the viewer reads them: the statements
/// line by line.
pub open spec fn export_block_lines(n: int, s: SessionSnapView) -> Seq<Seq<char>> {
    export_block_rows(n, s).take(9) + split(trim(s.executing_sql), seq!['\n']) + seq!["Parent Batch SQL:"@] + split(
        trim(s.parent_batch_sql),
        seq!['\n'],
    )
}

/// The lines of the exported requests, each followed by a blank line.
pub open spec fn export_request_lines(ss: Seq<SessionSnapView>) -> Seq<Seq<char>>
    decreases ss.len(),
{
    if ss.len() == 0 {
        seq![]
    } else {
        export_request_lines(ss.drop_last()) + export_block_lines(ss.len() as int, ss.last()) + seq![seq![]]
    }
}

/// The text of an exported snapshot between its two separator lines.
pub open spec fn export_body(d: SnapshotView) -> Seq<char> {
    seq!['\n'] + lines_text_nl(
        export_head_lines(d) + if d.sessions.len() == 0 {
            seq!["No sessions captured under current filter criteria."@]
        } else {
            export_request_lines(d.sessions)
        },
    )
}

proof fn lemma_trim_end_keeps(s: Seq<char>)
    requires
        s.len() > 0,
        !char_is_whitespace(s.last()),
    ensures
        trim_end(s) == s,
{
}

proof fn lemma_head_step_0(st: SnapshotParseState, v: Seq<char>)
    requires
        header_text(v, "Server: "@),
    ensures
        snapshot_line_step(st, "Server: "@ + v) == (SnapshotParseState { snap: SnapshotView { server: v, ..st.snap }, ..st }),
{
    let l = "Server: "@;
    let line = l + v;
    reveal_strlit("Server: ");
    lemma_trim_end_keeps(line);
    assert(line.take(l.len() as int) =~= l);
    lemma_remove_prefix(l, v);
}

proof fn lemma_head_step_1(st: SnapshotParseState, v: Seq<char>)
    requires
        v.len() == 0 || header_text(v, "Capture Time: "@),
        v.len() == 0 ==> !st.in_session && st.snap.capture_time == v,
    ensures
        snapshot_line_step(st, "Capture Time: "@ + v) == (SnapshotParseState { snap: SnapshotView { capture_time: v, ..st.snap }, ..st }),
{
    if v.len() > 0 {
        let l = "Capture Time: "@;
        let line = l + v;
        reveal_strlit("Capture Time: ");
        reveal_strlit("Server: ");
        lemma_trim_end_keeps(line);
        lemma_differ_at(line, "Server: "@, 0);
        assert(line.take(l.len() as int) =~= l);
        lemma_remove_prefix(l, v);
    } else {
        let raw = "Capture Time: "@ + v;
        let t = "Capture Time:"@;
        reveal_strlit("Server: ");
        reveal_strlit("Capture Time: ");
        reveal_strlit("Workers: ");
        reveal_strlit("Logical Connections: ");
        reveal_strlit("Page Life Expectancy: ");
        reveal_strlit("Active Temp Tables: ");
        reveal_strlit("Transactions: ");
        reveal_strlit("Request Sessions: ");
        reveal_strlit("--- [Session ");
        reveal_strlit("Capture Time:");
        assert(raw =~= "Capture Time: "@);
        assert(raw.drop_last() =~= t);
        assert(t.last() == ':');
        lemma_trim_end_keeps(t);
        assert(trim_end(raw) == t);
        lemma_differ_at(t, "Server: "@, 0);
        lemma_differ_at(t, "Workers: "@, 0);
        lemma_differ_at(t, "Logical Connections: "@, 0);
        lemma_differ_at(t, "Page Life Expectancy: "@, 0);
        lemma_differ_at(t, "Active Temp Tables: "@, 0);
        lemma_differ_at(t, "Transactions: "@, 0);
        lemma_differ_at(t, "Request Sessions: "@, 0);
        lemma_differ_at(t, "--- [Session "@, 0);
    }
}

proof fn lemma_head_step_2(st: SnapshotParseState, v: Seq<char>)
    requires
        v.len() == 0 || header_text(v, "Workers: "@),
        v.len() == 0 ==> !st.in_session && st.snap.workers == v,
    ensures
        snapshot_line_step(st, "Workers: "@ + v) == (SnapshotParseState { snap: SnapshotView { workers: v, ..st.snap }, ..st }),
{
    if v.len() > 0 {
        let l = "Workers: "@;
        let line = l + v;
        reveal_strlit("Capture Time: ");
        reveal_strlit("Server: ");
        reveal_strlit("Workers: ");
        lemma_trim_end_keeps(line);
        lemma_differ_at(line, "Server: "@, 0);
        lemma_differ_at(line, "Capture Time: "@, 0);
        assert(line.take(l.len() as int) =~= l);
        lemma_remove_prefix(l, v);
    } else {
        let raw = "Workers: "@ + v;
        let t = "Workers:"@;
        reveal_strlit("Server: ");
        reveal_strlit("Capture Time: ");
        reveal_strlit("Workers: ");
        reveal_strlit("Logical Connections: ");
        reveal_strlit("Page Life Expectancy: ");
        reveal_strlit("Active Temp Tables: ");
        reveal_strlit("Transactions: ");
        reveal_strlit("Request Sessions: ");
        reveal_strlit("--- [Session ");
        reveal_strlit("Workers:");
        assert(raw =~= "Workers: "@);
        assert(raw.drop_last() =~= t);
        assert(t.last() == ':');
        lemma_trim_end_keeps(t);
        assert(trim_end(raw) == t);
        lemma_differ_at(t, "Server: "@, 0);
        lemma_differ_at(t, "Capture Time: "@, 0);
        lemma_differ_at(t, "Logical Connections: "@, 0);
        lemma_differ_at(t, "Page Life Expectancy: "@, 0);
        lemma_differ_at(t, "Active Temp Tables: "@, 0);
        lemma_differ_at(t, "Transactions: "@, 0);
        lemma_differ_at(t, "Request Sessions: "@, 0);
        lemma_differ_at(t, "--- [Session "@, 0);
    }
}

proof fn lemma_head_step_3(st: SnapshotParseState, v: Seq<char>)
    requires
        v.len() == 0 || header_text(v, "Logical Connections: "@),
        v.len() == 0 ==> !st.in_session && st.snap.logical_connections == v,
    ensures
        snapshot_line_step(st, "Logical Connections: "@ + v) == (SnapshotParseState { snap: SnapshotView { logical_connections: v, ..st.snap }, ..st }),
{
    if v.len() > 0 {
        let l = "Logical Connections: "@;
        let line = l + v;
        reveal_strlit("Capture Time: ");
        reveal_strlit("Logical Connections: ");
        reveal_strlit("Server: ");
        reveal_strlit("Workers: ");
        lemma_trim_end_keeps(line);
        lemma_differ_at(line, "Server: "@, 0);
        lemma_differ_at(line, "Capture Time: "@, 0);
        lemma_differ_at(line, "Workers: "@, 0);
        assert(line.take(l.len() as int) =~= l);
        lemma_remove_prefix(l, v);
    } else {
        let raw = "Logical Connections: "@ + v;
        let t = "Logical Connections:"@;
        reveal_strlit("Server: ");
        reveal_strlit("Capture Time: ");
        reveal_strlit("Workers: ");
        reveal_strlit("Logical Connections: ");
        reveal_strlit("Page Life Expectancy: ");
        reveal_strlit("Active Temp Tables: ");
        reveal_strlit("Transactions: ");
        reveal_strlit("Request Sessions: ");
        reveal_strlit("--- [Session ");
        reveal_strlit("Logical Connections:");
        assert(raw =~= "Logical Connections: "@);
        assert(raw.drop_last() =~= t);
        assert(t.last() == ':');
        lemma_trim_end_keeps(t);
        assert(trim_end(raw) == t);
        lemma_differ_at(t, "Server: "@, 0);
        lemma_differ_at(t, "Capture Time: "@, 0);
        lemma_differ_at(t, "Workers: "@, 0);
        lemma_differ_at(t, "Page Life Expectancy: "@, 0);
        lemma_differ_at(t, "Active Temp Tables: "@, 0);
        lemma_differ_at(t, "Transactions: "@, 0);
        lemma_differ_at(t, "Request Sessions: "@, 0);
        lemma_differ_at(t, "--- [Session "@, 0);
    }
}

proof fn lemma_head_step_4(st: SnapshotParseState, v: Seq<char>)
    requires
        v.len() == 0 || header_text(v, "Page Life Expectancy: "@),
        v.len() == 0 ==> !st.in_session && st.snap.ple == v,
    ensures
        snapshot_line_step(st, "Page Life Expectancy: "@ + v) == (SnapshotParseState { snap: SnapshotView { ple: v, ..st.snap }, ..st }),
{
    if v.len() > 0 {
        let l = "Page Life Expectancy: "@;
        let line = l + v;
        reveal_strlit("Capture Time: ");
        reveal_strlit("Logical Connections: ");
        reveal_strlit("Page Life Expectancy: ");
        reveal_strlit("Server: ");
        reveal_strlit("Workers: ");
        lemma_trim_end_keeps(line);
        lemma_differ_at(line, "Server: "@, 0);
        lemma_differ_at(line, "Capture Time: "@, 0);
        lemma_differ_at(line, "Workers: "@, 0);
        lemma_differ_at(line, "Logical Connections: "@, 0);
        assert(line.take(l.len() as int) =~= l);
        lemma_remove_prefix(l, v);
    } else {
        let raw = "Page Life Expectancy: "@ + v;
        let t = "Page Life Expectancy:"@;
        reveal_strlit("Server: ");
        reveal_strlit("Capture Time: ");
        reveal_strlit("Workers: ");
        reveal_strlit("Logical Connections: ");
        reveal_strlit("Page Life Expectancy: ");
        reveal_strlit("Active Temp Tables: ");
        reveal_strlit("Transactions: ");
        reveal_strlit("Request Sessions: ");
        reveal_strlit("--- [Session ");
        reveal_strlit("Page Life Expectancy:");
        assert(raw =~= "Page Life Expectancy: "@);
        assert(raw.drop_last() =~= t);
        assert(t.last() == ':');
        lemma_trim_end_keeps(t);
        assert(trim_end(raw) == t);
        lemma_differ_at(t, "Server: "@, 0);
        lemma_differ_at(t, "Capture Time: "@, 0);
        lemma_differ_at(t, "Workers: "@, 0);
        lemma_differ_at(t, "Logical Connections: "@, 0);
        lemma_differ_at(t, "Active Temp Tables: "@, 0);
        lemma_differ_at(t, "Transactions: "@, 0);
        lemma_differ_at(t, "Request Sessions: "@, 0);
        lemma_differ_at(t, "--- [Session "@, 0);
    }
}

proof fn lemma_head_step_5(st: SnapshotParseState, v: Seq<char>)
    requires
        v.len() == 0 || header_text(v, "Active Temp Tables: "@),
        v.len() == 0 ==> !st.in_session && st.snap.active_temp_tables == v,
    ensures
        snapshot_line_step(st, "Active Temp Tables: "@ + v) == (SnapshotParseState { snap: SnapshotView { active_temp_tables: v, ..st.snap }, ..st }),
{
    if v.len() > 0 {
        let l = "Active Temp Tables: "@;
        let line = l + v;
        reveal_strlit("Active Temp Tables: ");
        reveal_strlit("Capture Time: ");
        reveal_strlit("Logical Connections: ");
        reveal_strlit("Page Life Expectancy: ");
        reveal_strlit("Server: ");
        reveal_strlit("Workers: ");
        lemma_trim_end_keeps(line);
        lemma_differ_at(line, "Server: "@, 0);
        lemma_differ_at(line, "Capture Time: "@, 0);
        lemma_differ_at(line, "Workers: "@, 0);
        lemma_differ_at(line, "Logical Connections: "@, 0);
        lemma_differ_at(line, "Page Life Expectancy: "@, 0);
        assert(line.take(l.len() as int) =~= l);
        lemma_remove_prefix(l, v);
    } else {
        let raw = "Active Temp Tables: "@ + v;
        let t = "Active Temp Tables:"@;
        reveal_strlit("Server: ");
        reveal_strlit("Capture Time: ");
        reveal_strlit("Workers: ");
        reveal_strlit("Logical Connections: ");
        reveal_strlit("Page Life Expectancy: ");
        reveal_strlit("Active Temp Tables: ");
        reveal_strlit("Transactions: ");
        reveal_strlit("Request Sessions: ");
        reveal_strlit("--- [Session ");
        reveal_strlit("Active Temp Tables:");
        assert(raw =~= "Active Temp Tables: "@);
        assert(raw.drop_last() =~= t);
        assert(t.last() == ':');
        lemma_trim_end_keeps(t);
        assert(trim_end(raw) == t);
        lemma_differ_at(t, "Server: "@, 0);
        lemma_differ_at(t, "Capture Time: "@, 0);
        lemma_differ_at(t, "Workers: "@, 0);
        lemma_differ_at(t, "Logical Connections: "@, 0);
        lemma_differ_at(t, "Page Life Expectancy: "@, 0);
        lemma_differ_at(t, "Transactions: "@, 0);
        lemma_differ_at(t, "Request Sessions: "@, 0);
        lemma_differ_at(t, "--- [Session "@, 0);
    }
}

proof fn lemma_head_step_6(st: SnapshotParseState, v: Seq<char>)
    requires
        v.len() == 0 || header_text(v, "Transactions: "@),
        v.len() == 0 ==> !st.in_session && st.snap.transactions == v,
    ensures
        snapshot_line_step(st, "Transactions: "@ + v) == (SnapshotParseState { snap: SnapshotView { transactions: v, ..st.snap }, ..st }),
{
    if v.len() > 0 {
        let l = "Transactions: "@;
        let line = l + v;
        reveal_strlit("Active Temp Tables: ");
        reveal_strlit("Capture Time: ");
        reveal_strlit("Logical Connections: ");
        reveal_strlit("Page Life Expectancy: ");
        reveal_strlit("Server: ");
        reveal_strlit("Transactions: ");
        reveal_strlit("Workers: ");
        lemma_trim_end_keeps(line);
        lemma_differ_at(line, "Server: "@, 0);
        lemma_differ_at(line, "Capture Time: "@, 0);
        lemma_differ_at(line, "Workers: "@, 0);
        lemma_differ_at(line, "Logical Connections: "@, 0);
        lemma_differ_at(line, "Page Life Expectancy: "@, 0);
        lemma_differ_at(line, "Active Temp Tables: "@, 0);
        assert(line.take(l.len() as int) =~= l);
        lemma_remove_prefix(l, v);
    } else {
        let raw = "Transactions: "@ + v;
        let t = "Transactions:"@;
        reveal_strlit("Server: ");
        reveal_strlit("Capture Time: ");
        reveal_strlit("Workers: ");
        reveal_strlit("Logical Connections: ");
        reveal_strlit("Page Life Expectancy: ");
        reveal_strlit("Active Temp Tables: ");
        reveal_strlit("Transactions: ");
        reveal_strlit("Request Sessions: ");
        reveal_strlit("--- [Session ");
        reveal_strlit("Transactions:");
        assert(raw =~= "Transactions: "@);
        assert(raw.drop_last() =~= t);
        assert(t.last() == ':');
        lemma_trim_end_keeps(t);
        assert(trim_end(raw) == t);
        lemma_differ_at(t, "Server: "@, 0);
        lemma_differ_at(t, "Capture Time: "@, 0);
        lemma_differ_at(t, "Workers: "@, 0);
        lemma_differ_at(t, "Logical Connections: "@, 0);
        lemma_differ_at(t, "Page Life Expectancy: "@, 0);
        lemma_differ_at(t, "Active Temp Tables: "@, 0);
        lemma_differ_at(t, "Request Sessions: "@, 0);
        lemma_differ_at(t, "--- [Session "@, 0);
    }
}

proof fn lemma_head_step_7(st: SnapshotParseState, v: Seq<char>)
    requires
        v.len() == 0 || header_text(v, "Request Sessions: "@),
        v.len() == 0 ==> !st.in_session && st.snap.request_sessions_count == v,
    ensures
        snapshot_line_step(st, "Request Sessions: "@ + v) == (SnapshotParseState { snap: SnapshotView { request_sessions_count: v, ..st.snap }, ..st }),
{
    if v.len() > 0 {
        let l = "Request Sessions: "@;
        let line = l + v;
        reveal_strlit("Active Temp Tables: ");
        reveal_strlit("Capture Time: ");
        reveal_strlit("Logical Connections: ");
        reveal_strlit("Page Life Expectancy: ");
        reveal_strlit("Request Sessions: ");
        reveal_strlit("Server: ");
        reveal_strlit("Transactions: ");
        reveal_strlit("Workers: ");
        lemma_trim_end_keeps(line);
        lemma_differ_at(line, "Server: "@, 0);
        lemma_differ_at(line, "Capture Time: "@, 0);
        lemma_differ_at(line, "Workers: "@, 0);
        lemma_differ_at(line, "Logical Connections: "@, 0);
        lemma_differ_at(line, "Page Life Expectancy: "@, 0);
        lemma_differ_at(line, "Active Temp Tables: "@, 0);
        lemma_differ_at(line, "Transactions: "@, 0);
        assert(line.take(l.len() as int) =~= l);
        lemma_remove_prefix(l, v);
    } else {
        let raw = "Request Sessions: "@ + v;
        let t = "Request Sessions:"@;
        reveal_strlit("Server: ");
        reveal_strlit("Capture Time: ");
        reveal_strlit("Workers: ");
        reveal_strlit("Logical Connections: ");
        reveal_strlit("Page Life Expectancy: ");
        reveal_strlit("Active Temp Tables: ");
        reveal_strlit("Transactions: ");
        reveal_strlit("Request Sessions: ");
        reveal_strlit("--- [Session ");
        reveal_strlit("Request Sessions:");
        assert(raw =~= "Request Sessions: "@);
        assert(raw.drop_last() =~= t);
        assert(t.last() == ':');
        lemma_trim_end_keeps(t);
        assert(trim_end(raw) == t);
        lemma_differ_at(t, "Server: "@, 0);
        lemma_differ_at(t, "Capture Time: "@, 0);
        lemma_differ_at(t, "Workers: "@, 0);
        lemma_differ_at(t, "Logical Connections: "@, 0);
        lemma_differ_at(t, "Page Life Expectancy: "@, 0);
        lemma_differ_at(t, "Active Temp Tables: "@, 0);
        lemma_differ_at(t, "Transactions: "@, 0);
        lemma_differ_at(t, "--- [Session "@, 0);
    }
}

proof fn lemma_fixed_step_dash(st: SnapshotParseState)
    requires
        !st.in_session,
    ensures
        snapshot_line_step(st, dash_line()) == st,
{
    let line = dash_line();
    reveal_strlit("--- [Session ");
    reveal_strlit("--------------------------------------------------");
    reveal_strlit("Active Temp Tables: ");
    reveal_strlit("Capture Time: ");
    reveal_strlit("Logical Connections: ");
    reveal_strlit("Page Life Expectancy: ");
    reveal_strlit("Request Sessions: ");
    reveal_strlit("Server: ");
    reveal_strlit("Transactions: ");
    reveal_strlit("Workers: ");
    lemma_trim_end_keeps(line);
    lemma_differ_at(line, "Server: "@, 0);
    lemma_differ_at(line, "Capture Time: "@, 0);
    lemma_differ_at(line, "Workers: "@, 0);
    lemma_differ_at(line, "Logical Connections: "@, 0);
    lemma_differ_at(line, "Page Life Expectancy: "@, 0);
    lemma_differ_at(line, "Active Temp Tables: "@, 0);
    lemma_differ_at(line, "Transactions: "@, 0);
    lemma_differ_at(line, "Request Sessions: "@, 0);
    lemma_differ_at(line, "--- [Session "@, 3);
}

proof fn lemma_fixed_step_captured(st: SnapshotParseState)
    requires
        !st.in_session,
    ensures
        snapshot_line_step(st, "Captured Sessions Details:"@) == st,
{
    let line = "Captured Sessions Details:"@;
    reveal_strlit("--- [Session ");
    reveal_strlit("Active Temp Tables: ");
    reveal_strlit("Capture Time: ");
    reveal_strlit("Captured Sessions Details:");
    reveal_strlit("Logical Connections: ");
    reveal_strlit("Page Life Expectancy: ");
    reveal_strlit("Request Sessions: ");
    reveal_strlit("Server: ");
    reveal_strlit("Transactions: ");
    reveal_strlit("Workers: ");
    lemma_trim_end_keeps(line);
    lemma_differ_at(line, "Server: "@, 0);
    lemma_differ_at(line, "Capture Time: "@, 7);
    lemma_differ_at(line, "Workers: "@, 0);
    lemma_differ_at(line, "Logical Connections: "@, 0);
    lemma_differ_at(line, "Page Life Expectancy: "@, 0);
    lemma_differ_at(line, "Active Temp Tables: "@, 0);
    lemma_differ_at(line, "Transactions: "@, 0);
    lemma_differ_at(line, "Request Sessions: "@, 0);
    lemma_differ_at(line, "--- [Session "@, 0);
}

proof fn lemma_fixed_step_none(st: SnapshotParseState)
    requires
        !st.in_session,
    ensures
        snapshot_line_step(st, "No sessions captured under current filter criteria."@) == st,
{
    let line = "No sessions captured under current filter criteria."@;
    reveal_strlit("--- [Session ");
    reveal_strlit("Active Temp Tables: ");
    reveal_strlit("Capture Time: ");
    reveal_strlit("Logical Connections: ");
    reveal_strlit("No sessions captured under current filter criteria.");
    reveal_strlit("Page Life Expectancy: ");
    reveal_strlit("Request Sessions: ");
    reveal_strlit("Server: ");
    reveal_strlit("Transactions: ");
    reveal_strlit("Workers: ");
    lemma_trim_end_keeps(line);
    lemma_differ_at(line, "Server: "@, 0);
    lemma_differ_at(line, "Capture Time: "@, 0);
    lemma_differ_at(line, "Workers: "@, 0);
    lemma_differ_at(line, "Logical Connections: "@, 0);
    lemma_differ_at(line, "Page Life Expectancy: "@, 0);
    lemma_differ_at(line, "Active Temp Tables: "@, 0);
    lemma_differ_at(line, "Transactions: "@, 0);
    lemma_differ_at(line, "Request Sessions: "@, 0);
    lemma_differ_at(line, "--- [Session "@, 0);
}

proof fn lemma_fixed_step_blank(st: SnapshotParseState)
    requires
        !st.in_session,
    ensures
        snapshot_line_step(st, seq![]) == st,
{
    let line = Seq::<char>::empty();
    reveal_strlit("--- [Session ");
    reveal_strlit("Active Temp Tables: ");
    reveal_strlit("Capture Time: ");
    reveal_strlit("Logical Connections: ");
    reveal_strlit("Page Life Expectancy: ");
    reveal_strlit("Request Sessions: ");
    reveal_strlit("Server: ");
    reveal_strlit("Transactions: ");
    reveal_strlit("Workers: ");
    assert(trim_end(line) == line);
}

proof fn lemma_begin_step(st: SnapshotParseState, n: int)
    ensures
        snapshot_line_step(st, "--- [Session "@ + int_decimal(n) + "] ---"@) == (SnapshotParseState {
            snap: if st.in_session {
                SnapshotView { sessions: st.snap.sessions.push(st.cur), ..st.snap }
            } else {
                st.snap
            },
            cur: empty_snap_session(st.counter),
            in_session: true,
            sql_state: 0,
            counter: st.counter + 1,
        }),
{
    let l = "--- [Session "@;
    let line = l + int_decimal(n) + "] ---"@;
    reveal_strlit("--- [Session ");
    reveal_strlit("Active Temp Tables: ");
    reveal_strlit("Capture Time: ");
    reveal_strlit("Logical Connections: ");
    reveal_strlit("Page Life Expectancy: ");
    reveal_strlit("Request Sessions: ");
    reveal_strlit("Server: ");
    reveal_strlit("Transactions: ");
    reveal_strlit("Workers: ");
    reveal_strlit("] ---");
    assert(line.last() == '-');
    lemma_trim_end_keeps(line);
    lemma_differ_at(line, "Server: "@, 0);
    lemma_differ_at(line, "Capture Time: "@, 0);
    lemma_differ_at(line, "Workers: "@, 0);
    lemma_differ_at(line, "Logical Connections: "@, 0);
    lemma_differ_at(line, "Page Life Expectancy: "@, 0);
    lemma_differ_at(line, "Active Temp Tables: "@, 0);
    lemma_differ_at(line, "Transactions: "@, 0);
    lemma_differ_at(line, "Request Sessions: "@, 0);
    assert(line.take(l.len() as int) =~= l);
}

proof fn lemma_detail_step_0(st: SnapshotParseState, rest: Seq<char>)
    requires
        st.in_session,
        rest.len() > 0,
        !char_is_whitespace(rest.last()),
    ensures
        snapshot_line_step(st, "SPID: "@ + rest) == (SnapshotParseState { cur: parts_fold(DetailLine::Spid, st.cur, split("SPID: "@ + rest, " | "@)), ..st }),
{
    let l = "SPID: "@;
    let line = l + rest;
    reveal_strlit("--- [Session ");
    reveal_strlit("Active Temp Tables: ");
    reveal_strlit("Capture Time: ");
    reveal_strlit("Logical Connections: ");
    reveal_strlit("Page Life Expectancy: ");
    reveal_strlit("Request Sessions: ");
    reveal_strlit("SPID: ");
    reveal_strlit("Server: ");
    reveal_strlit("Transactions: ");
    reveal_strlit("Workers: ");
    lemma_trim_end_keeps(line);
    lemma_differ_at(line, "Server: "@, 1);
    lemma_differ_at(line, "Capture Time: "@, 0);
    lemma_differ_at(line, "Workers: "@, 0);
    lemma_differ_at(line, "Logical Connections: "@, 0);
    lemma_differ_at(line, "Page Life Expectancy: "@, 0);
    lemma_differ_at(line, "Active Temp Tables: "@, 0);
    lemma_differ_at(line, "Transactions: "@, 0);
    lemma_differ_at(line, "Request Sessions: "@, 0);
    lemma_differ_at(line, "--- [Session "@, 0);
    assert(line.take(l.len() as int) =~= l);
}

proof fn lemma_detail_step_1(st: SnapshotParseState, rest: Seq<char>)
    requires
        st.in_session,
        rest.len() > 0,
        !char_is_whitespace(rest.last()),
    ensures
        snapshot_line_step(st, "Wait Type: "@ + rest) == (SnapshotParseState { cur: parts_fold(DetailLine::Wait, st.cur, split("Wait Type: "@ + rest, " | "@)), ..st }),
{
    let l = "Wait Type: "@;
    let line = l + rest;
    reveal_strlit("--- [Session ");
    reveal_strlit("Active Temp Tables: ");
    reveal_strlit("Capture Time: ");
    reveal_strlit("Logical Connections: ");
    reveal_strlit("Page Life Expectancy: ");
    reveal_strlit("Request Sessions: ");
    reveal_strlit("SPID: ");
    reveal_strlit("Server: ");
    reveal_strlit("Transactions: ");
    reveal_strlit("Wait Type: ");
    reveal_strlit("Workers: ");
    lemma_trim_end_keeps(line);
    lemma_differ_at(line, "Server: "@, 0);
    lemma_differ_at(line, "Capture Time: "@, 0);
    lemma_differ_at(line, "Workers: "@, 1);
    lemma_differ_at(line, "Logical Connections: "@, 0);
    lemma_differ_at(line, "Page Life Expectancy: "@, 0);
    lemma_differ_at(line, "Active Temp Tables: "@, 0);
    lemma_differ_at(line, "Transactions: "@, 0);
    lemma_differ_at(line, "Request Sessions: "@, 0);
    lemma_differ_at(line, "--- [Session "@, 0);
    lemma_differ_at(line, "SPID: "@, 0);
    assert(line.take(l.len() as int) =~= l);
}

proof fn lemma_detail_step_2(st: SnapshotParseState, rest: Seq<char>)
    requires
        st.in_session,
        rest.len() > 0,
        !char_is_whitespace(rest.last()),
    ensures
        snapshot_line_step(st, "Wait Resource: "@ + rest) == (SnapshotParseState { cur: parts_fold(DetailLine::Resource, st.cur, split("Wait Resource: "@ + rest, " | "@)), ..st }),
{
    let l = "Wait Resource: "@;
    let line = l + rest;
    reveal_strlit("--- [Session ");
    reveal_strlit("Active Temp Tables: ");
    reveal_strlit("Capture Time: ");
    reveal_strlit("Logical Connections: ");
    reveal_strlit("Page Life Expectancy: ");
    reveal_strlit("Request Sessions: ");
    reveal_strlit("SPID: ");
    reveal_strlit("Server: ");
    reveal_strlit("Transactions: ");
    reveal_strlit("Wait Resource: ");
    reveal_strlit("Wait Type: ");
    reveal_strlit("Workers: ");
    lemma_trim_end_keeps(line);
    lemma_differ_at(line, "Server: "@, 0);
    lemma_differ_at(line, "Capture Time: "@, 0);
    lemma_differ_at(line, "Workers: "@, 1);
    lemma_differ_at(line, "Logical Connections: "@, 0);
    lemma_differ_at(line, "Page Life Expectancy: "@, 0);
    lemma_differ_at(line, "Active Temp Tables: "@, 0);
    lemma_differ_at(line, "Transactions: "@, 0);
    lemma_differ_at(line, "Request Sessions: "@, 0);
    lemma_differ_at(line, "--- [Session "@, 0);
    lemma_differ_at(line, "SPID: "@, 0);
    lemma_differ_at(line, "Wait Type: "@, 5);
    assert(line.take(l.len() as int) =~= l);
}

proof fn lemma_detail_step_3(st: SnapshotParseState, rest: Seq<char>)
    requires
        st.in_session,
        rest.len() > 0,
        !char_is_whitespace(rest.last()),
    ensures
        snapshot_line_step(st, "CPU Time: "@ + rest) == (SnapshotParseState { cur: parts_fold(DetailLine::Io, st.cur, split("CPU Time: "@ + rest, " | "@)), ..st }),
{
    let l = "CPU Time: "@;
    let line = l + rest;
    reveal_strlit("--- [Session ");
    reveal_strlit("Active Temp Tables: ");
    reveal_strlit("CPU Time: ");
    reveal_strlit("Capture Time: ");
    reveal_strlit("Logical Connections: ");
    reveal_strlit("Page Life Expectancy: ");
    reveal_strlit("Request Sessions: ");
    reveal_strlit("SPID: ");
    reveal_strlit("Server: ");
    reveal_strlit("Transactions: ");
    reveal_strlit("Wait Resource: ");
    reveal_strlit("Wait Type: ");
    reveal_strlit("Workers: ");
    lemma_trim_end_keeps(line);
    lemma_differ_at(line, "Server: "@, 0);
    lemma_differ_at(line, "Capture Time: "@, 1);
    lemma_differ_at(line, "Workers: "@, 0);
    lemma_differ_at(line, "Logical Connections: "@, 0);
    lemma_differ_at(line, "Page Life Expectancy: "@, 0);
    lemma_differ_at(line, "Active Temp Tables: "@, 0);
    lemma_differ_at(line, "Transactions: "@, 0);
    lemma_differ_at(line, "Request Sessions: "@, 0);
    lemma_differ_at(line, "--- [Session "@, 0);
    lemma_differ_at(line, "SPID: "@, 0);
    lemma_differ_at(line, "Wait Type: "@, 0);
    lemma_differ_at(line, "Wait Resource: "@, 0);
    assert(line.take(l.len() as int) =~= l);
}

proof fn lemma_detail_step_4(st: SnapshotParseState, rest: Seq<char>)
    requires
        st.in_session,
        rest.len() > 0,
        !char_is_whitespace(rest.last()),
    ensures
        snapshot_line_step(st, "Row Count: "@ + rest) == (SnapshotParseState { cur: parts_fold(DetailLine::Rows, st.cur, split("Row Count: "@ + rest, " | "@)), ..st }),
{
    let l = "Row Count: "@;
    let line = l + rest;
    reveal_strlit("--- [Session ");
    reveal_strlit("Active Temp Tables: ");
    reveal_strlit("CPU Time: ");
    reveal_strlit("Capture Time: ");
    reveal_strlit("Logical Connections: ");
    reveal_strlit("Page Life Expectancy: ");
    reveal_strlit("Request Sessions: ");
    reveal_strlit("Row Count: ");
    reveal_strlit("SPID: ");
    reveal_strlit("Server: ");
    reveal_strlit("Transactions: ");
    reveal_strlit("Wait Resource: ");
    reveal_strlit("Wait Type: ");
    reveal_strlit("Workers: ");
    lemma_trim_end_keeps(line);
    lemma_differ_at(line, "Server: "@, 0);
    lemma_differ_at(line, "Capture Time: "@, 0);
    lemma_differ_at(line, "Workers: "@, 0);
    lemma_differ_at(line, "Logical Connections: "@, 0);
    lemma_differ_at(line, "Page Life Expectancy: "@, 0);
    lemma_differ_at(line, "Active Temp Tables: "@, 0);
    lemma_differ_at(line, "Transactions: "@, 0);
    lemma_differ_at(line, "Request Sessions: "@, 1);
    lemma_differ_at(line, "--- [Session "@, 0);
    lemma_differ_at(line, "SPID: "@, 0);
    lemma_differ_at(line, "Wait Type: "@, 0);
    lemma_differ_at(line, "Wait Resource: "@, 0);
    lemma_differ_at(line, "CPU Time: "@, 0);
    assert(line.take(l.len() as int) =~= l);
}

proof fn lemma_detail_step_5(st: SnapshotParseState, rest: Seq<char>)
    requires
        st.in_session,
        rest.len() > 0,
        !char_is_whitespace(rest.last()),
    ensures
        snapshot_line_step(st, "Client Address: "@ + rest) == (SnapshotParseState { cur: parts_fold(DetailLine::Client, st.cur, split("Client Address: "@ + rest, " | "@)), ..st }),
{
    let l = "Client Address: "@;
    let line = l + rest;
    reveal_strlit("--- [Session ");
    reveal_strlit("Active Temp Tables: ");
    reveal_strlit("CPU Time: ");
    reveal_strlit("Capture Time: ");
    reveal_strlit("Client Address: ");
    reveal_strlit("Logical Connections: ");
    reveal_strlit("Page Life Expectancy: ");
    reveal_strlit("Request Sessions: ");
    reveal_strlit("Row Count: ");
    reveal_strlit("SPID: ");
    reveal_strlit("Server: ");
    reveal_strlit("Transactions: ");
    reveal_strlit("Wait Resource: ");
    reveal_strlit("Wait Type: ");
    reveal_strlit("Workers: ");
    lemma_trim_end_keeps(line);
    lemma_differ_at(line, "Server: "@, 0);
    lemma_differ_at(line, "Capture Time: "@, 1);
    lemma_differ_at(line, "Workers: "@, 0);
    lemma_differ_at(line, "Logical Connections: "@, 0);
    lemma_differ_at(line, "Page Life Expectancy: "@, 0);
    lemma_differ_at(line, "Active Temp Tables: "@, 0);
    lemma_differ_at(line, "Transactions: "@, 0);
    lemma_differ_at(line, "Request Sessions: "@, 0);
    lemma_differ_at(line, "--- [Session "@, 0);
    lemma_differ_at(line, "SPID: "@, 0);
    lemma_differ_at(line, "Wait Type: "@, 0);
    lemma_differ_at(line, "Wait Resource: "@, 0);
    lemma_differ_at(line, "CPU Time: "@, 1);
    lemma_differ_at(line, "Row Count: "@, 0);
    assert(line.take(l.len() as int) =~= l);
}

proof fn lemma_detail_step_6(st: SnapshotParseState, rest: Seq<char>)
    requires
        st.in_session,
        rest.len() > 0,
        !char_is_whitespace(rest.last()),
    ensures
        snapshot_line_step(st, "Command: "@ + rest) == (SnapshotParseState { cur: parts_fold(DetailLine::Command, st.cur, split("Command: "@ + rest, " | "@)), ..st }),
{
    let l = "Command: "@;
    let line = l + rest;
    reveal_strlit("--- [Session ");
    reveal_strlit("Active Temp Tables: ");
    reveal_strlit("CPU Time: ");
    reveal_strlit("Capture Time: ");
    reveal_strlit("Client Address: ");
    reveal_strlit("Command: ");
    reveal_strlit("Logical Connections: ");
    reveal_strlit("Page Life Expectancy: ");
    reveal_strlit("Request Sessions: ");
    reveal_strlit("Row Count: ");
    reveal_strlit("SPID: ");
    reveal_strlit("Server: ");
    reveal_strlit("Transactions: ");
    reveal_strlit("Wait Resource: ");
    reveal_strlit("Wait Type: ");
    reveal_strlit("Workers: ");
    lemma_trim_end_keeps(line);
    lemma_differ_at(line, "Server: "@, 0);
    lemma_differ_at(line, "Capture Time: "@, 1);
    lemma_differ_at(line, "Workers: "@, 0);
    lemma_differ_at(line, "Logical Connections: "@, 0);
    lemma_differ_at(line, "Page Life Expectancy: "@, 0);
    lemma_differ_at(line, "Active Temp Tables: "@, 0);
    lemma_differ_at(line, "Transactions: "@, 0);
    lemma_differ_at(line, "Request Sessions: "@, 0);
    lemma_differ_at(line, "--- [Session "@, 0);
    lemma_differ_at(line, "SPID: "@, 0);
    lemma_differ_at(line, "Wait Type: "@, 0);
    lemma_differ_at(line, "Wait Resource: "@, 0);
    lemma_differ_at(line, "CPU Time: "@, 1);
    lemma_differ_at(line, "Row Count: "@, 0);
    lemma_differ_at(line, "Client Address: "@, 1);
    assert(line.take(l.len() as int) =~= l);
}

proof fn lemma_label_step_exec(st: SnapshotParseState)
    requires
        st.in_session,
    ensures
        snapshot_line_step(st, "Executing SQL:"@) == (SnapshotParseState { sql_state: 1, ..st }),
{
    let line = "Executing SQL:"@;
    reveal_strlit("--- [Session ");
    reveal_strlit("Active Temp Tables: ");
    reveal_strlit("CPU Time: ");
    reveal_strlit("Capture Time: ");
    reveal_strlit("Client Address: ");
    reveal_strlit("Command: ");
    reveal_strlit("Executing SQL:");
    reveal_strlit("Logical Connections: ");
    reveal_strlit("Page Life Expectancy: ");
    reveal_strlit("Request Sessions: ");
    reveal_strlit("Row Count: ");
    reveal_strlit("SPID: ");
    reveal_strlit("Server: ");
    reveal_strlit("Transactions: ");
    reveal_strlit("Wait Resource: ");
    reveal_strlit("Wait Type: ");
    reveal_strlit("Workers: ");
    lemma_trim_end_keeps(line);
    lemma_differ_at(line, "Server: "@, 0);
    lemma_differ_at(line, "Capture Time: "@, 0);
    lemma_differ_at(line, "Workers: "@, 0);
    lemma_differ_at(line, "Logical Connections: "@, 0);
    lemma_differ_at(line, "Page Life Expectancy: "@, 0);
    lemma_differ_at(line, "Active Temp Tables: "@, 0);
    lemma_differ_at(line, "Transactions: "@, 0);
    lemma_differ_at(line, "Request Sessions: "@, 0);
    lemma_differ_at(line, "--- [Session "@, 0);
    lemma_differ_at(line, "SPID: "@, 0);
    lemma_differ_at(line, "Wait Type: "@, 0);
    lemma_differ_at(line, "Wait Resource: "@, 0);
    lemma_differ_at(line, "CPU Time: "@, 0);
    lemma_differ_at(line, "Row Count: "@, 0);
    lemma_differ_at(line, "Client Address: "@, 0);
    lemma_differ_at(line, "Command: "@, 0);
    assert(line.take(line.len() as int) =~= line);
}

proof fn lemma_label_step_batch(st: SnapshotParseState)
    requires
        st.in_session,
    ensures
        snapshot_line_step(st, "Parent Batch SQL:"@) == (SnapshotParseState { sql_state: 2, ..st }),
{
    let line = "Parent Batch SQL:"@;
    reveal_strlit("--- [Session ");
    reveal_strlit("Active Temp Tables: ");
    reveal_strlit("CPU Time: ");
    reveal_strlit("Capture Time: ");
    reveal_strlit("Client Address: ");
    reveal_strlit("Command: ");
    reveal_strlit("Executing SQL:");
    reveal_strlit("Logical Connections: ");
    reveal_strlit("Page Life Expectancy: ");
    reveal_strlit("Parent Batch SQL:");
    reveal_strlit("Request Sessions: ");
    reveal_strlit("Row Count: ");
    reveal_strlit("SPID: ");
    reveal_strlit("Server: ");
    reveal_strlit("Transactions: ");
    reveal_strlit("Wait Resource: ");
    reveal_strlit("Wait Type: ");
    reveal_strlit("Workers: ");
    lemma_trim_end_keeps(line);
    lemma_differ_at(line, "Server: "@, 0);
    lemma_differ_at(line, "Capture Time: "@, 0);
    lemma_differ_at(line, "Workers: "@, 0);
    lemma_differ_at(line, "Logical Connections: "@, 0);
    lemma_differ_at(line, "Page Life Expectancy: "@, 2);
    lemma_differ_at(line, "Active Temp Tables: "@, 0);
    lemma_differ_at(line, "Transactions: "@, 0);
    lemma_differ_at(line, "Request Sessions: "@, 0);
    lemma_differ_at(line, "--- [Session "@, 0);
    lemma_differ_at(line, "SPID: "@, 0);
    lemma_differ_at(line, "Wait Type: "@, 0);
    lemma_differ_at(line, "Wait Resource: "@, 0);
    lemma_differ_at(line, "CPU Time: "@, 0);
    lemma_differ_at(line, "Row Count: "@, 0);
    lemma_differ_at(line, "Client Address: "@, 0);
    lemma_differ_at(line, "Command: "@, 0);
    lemma_differ_at(line, "Executing SQL:"@, 0);
    assert(line.take(line.len() as int) =~= line);
}

proof fn lemma_statement_step(st: SnapshotParseState, v: Seq<char>)
    requires
        st.in_session,
        plain_statement(v),
        trim_end(v) == v,
        st.sql_state == 1 || st.sql_state == 2,
    ensures
        snapshot_line_step(st, v) == (if st.sql_state == 1 {
            SnapshotParseState {
                cur: SessionSnapView { executing_sql: extend_line(st.cur.executing_sql, v), ..st.cur },
                ..st
            }
        } else {
            SnapshotParseState {
                cur: SessionSnapView { parent_batch_sql: extend_line(st.cur.parent_batch_sql, v), ..st.cur },
                ..st
            }
        }),
{
}

proof fn lemma_blank_step_in_request(st: SnapshotParseState)
    requires
        st.in_session,
        st.sql_state == 2,
    ensures
        snapshot_line_step(st, seq![]) == (SnapshotParseState {
            cur: SessionSnapView { parent_batch_sql: extend_line(st.cur.parent_batch_sql, seq![]), ..st.cur },
            ..st
        }),
{
    let line = Seq::<char>::empty();
    reveal_strlit("--- [Session ");
    reveal_strlit("--------------------------------------------------");
    reveal_strlit("Active Temp Tables: ");
    reveal_strlit("CPU Time: ");
    reveal_strlit("Capture Time: ");
    reveal_strlit("Captured Sessions Details:");
    reveal_strlit("Client Address: ");
    reveal_strlit("Command: ");
    reveal_strlit("Executing SQL:");
    reveal_strlit("Logical Connections: ");
    reveal_strlit("No sessions captured");
    reveal_strlit("Page Life Expectancy: ");
    reveal_strlit("Parent Batch SQL:");
    reveal_strlit("Request Sessions: ");
    reveal_strlit("Row Count: ");
    reveal_strlit("SPID: ");
    reveal_strlit("Server: ");
    reveal_strlit("Transactions: ");
    reveal_strlit("Wait Resource: ");
    reveal_strlit("Wait Type: ");
    reveal_strlit("Workers: ");
    assert(trim_end(line) == line);
}

proof fn lemma_part_spid_0(c: SessionSnapView, v: Seq<char>)
    requires
        !contains(v, "SPID: "@),
    ensures
        part_step(DetailLine::Spid, c, "SPID: "@ + v) == (SessionSnapView { spid: v, ..c }),
{
    let l = "SPID: "@;
    let p = l + v;
    reveal_strlit("SPID: ");
    assert(p.take(l.len() as int) =~= l);
    lemma_remove_prefix(l, v);
}

proof fn lemma_part_spid_1(c: SessionSnapView, v: Seq<char>)
    requires
        !contains(v, "Elapsed Time: "@),
    ensures
        part_step(DetailLine::Spid, c, "Elapsed Time: "@ + v) == (SessionSnapView { elapsed: remove_all(v, " ms"@), ..c }),
{
    let l = "Elapsed Time: "@;
    let p = l + v;
    reveal_strlit("Elapsed Time: ");
    reveal_strlit("SPID: ");
    lemma_differ_at(p, "SPID: "@, 0);
    assert(p.take(l.len() as int) =~= l);
    lemma_remove_prefix(l, v);
}

proof fn lemma_part_spid_2(c: SessionSnapView, v: Seq<char>)
    requires
        !contains(v, "Status: "@),
    ensures
        part_step(DetailLine::Spid, c, "Status: "@ + v) == (SessionSnapView { status: v, ..c }),
{
    let l = "Status: "@;
    let p = l + v;
    reveal_strlit("Elapsed Time: ");
    reveal_strlit("SPID: ");
    reveal_strlit("Status: ");
    lemma_differ_at(p, "SPID: "@, 1);
    lemma_differ_at(p, "Elapsed Time: "@, 0);
    assert(p.take(l.len() as int) =~= l);
    lemma_remove_prefix(l, v);
}

proof fn lemma_part_wait_0(c: SessionSnapView, v: Seq<char>)
    requires
        !contains(v, "Wait Type: "@),
    ensures
        part_step(DetailLine::Wait, c, "Wait Type: "@ + v) == (snap_wait_fields(c, v)),
{
    let l = "Wait Type: "@;
    let p = l + v;
    reveal_strlit("Wait Type: ");
    assert(p.take(l.len() as int) =~= l);
    lemma_remove_prefix(l, v);
}

proof fn lemma_part_wait_1(c: SessionSnapView, v: Seq<char>)
    requires
        !contains(v, "Last Wait: "@),
    ensures
        part_step(DetailLine::Wait, c, "Last Wait: "@ + v) == (SessionSnapView { last_wait_type: v, ..c }),
{
    let l = "Last Wait: "@;
    let p = l + v;
    reveal_strlit("Last Wait: ");
    reveal_strlit("Wait Type: ");
    lemma_differ_at(p, "Wait Type: "@, 0);
    assert(p.take(l.len() as int) =~= l);
    lemma_remove_prefix(l, v);
}

proof fn lemma_part_resource_0(c: SessionSnapView, v: Seq<char>)
    requires
        !contains(v, "Wait Resource: "@),
    ensures
        part_step(DetailLine::Resource, c, "Wait Resource: "@ + v) == (SessionSnapView { wait_resource: v, ..c }),
{
    let l = "Wait Resource: "@;
    let p = l + v;
    reveal_strlit("Wait Resource: ");
    assert(p.take(l.len() as int) =~= l);
    lemma_remove_prefix(l, v);
}

proof fn lemma_part_resource_1(c: SessionSnapView, v: Seq<char>)
    requires
        !contains(v, "Blocking SPID: "@),
    ensures
        part_step(DetailLine::Resource, c, "Blocking SPID: "@ + v) == (SessionSnapView { blocking_spid: v, ..c }),
{
    let l = "Blocking SPID: "@;
    let p = l + v;
    reveal_strlit("Blocking SPID: ");
    reveal_strlit("Wait Resource: ");
    lemma_differ_at(p, "Wait Resource: "@, 0);
    assert(p.take(l.len() as int) =~= l);
    lemma_remove_prefix(l, v);
}

proof fn lemma_part_io_0(c: SessionSnapView, v: Seq<char>)
    requires
        !contains(v, "CPU Time: "@),
    ensures
        part_step(DetailLine::Io, c, "CPU Time: "@ + v) == (SessionSnapView { cpu_time_ms: remove_all(v, " ms"@), ..c }),
{
    let l = "CPU Time: "@;
    let p = l + v;
    reveal_strlit("CPU Time: ");
    assert(p.take(l.len() as int) =~= l);
    lemma_remove_prefix(l, v);
}

proof fn lemma_part_io_1(c: SessionSnapView, v: Seq<char>)
    requires
        !contains(v, "Logical Reads: "@),
    ensures
        part_step(DetailLine::Io, c, "Logical Reads: "@ + v) == (SessionSnapView { logical_reads: v, ..c }),
{
    let l = "Logical Reads: "@;
    let p = l + v;
    reveal_strlit("CPU Time: ");
    reveal_strlit("Logical Reads: ");
    lemma_differ_at(p, "CPU Time: "@, 0);
    assert(p.take(l.len() as int) =~= l);
    lemma_remove_prefix(l, v);
}

proof fn lemma_part_io_2(c: SessionSnapView, v: Seq<char>)
    requires
        !contains(v, "Physical Reads: "@),
    ensures
        part_step(DetailLine::Io, c, "Physical Reads: "@ + v) == (SessionSnapView { physical_reads: v, ..c }),
{
    let l = "Physical Reads: "@;
    let p = l + v;
    reveal_strlit("CPU Time: ");
    reveal_strlit("Logical Reads: ");
    reveal_strlit("Physical Reads: ");
    lemma_differ_at(p, "CPU Time: "@, 0);
    lemma_differ_at(p, "Logical Reads: "@, 0);
    assert(p.take(l.len() as int) =~= l);
    lemma_remove_prefix(l, v);
}

proof fn lemma_part_io_3(c: SessionSnapView, v: Seq<char>)
    requires
        !contains(v, "Writes: "@),
    ensures
        part_step(DetailLine::Io, c, "Writes: "@ + v) == (SessionSnapView { writes: v, ..c }),
{
    let l = "Writes: "@;
    let p = l + v;
    reveal_strlit("CPU Time: ");
    reveal_strlit("Logical Reads: ");
    reveal_strlit("Physical Reads: ");
    reveal_strlit("Writes: ");
    lemma_differ_at(p, "CPU Time: "@, 0);
    lemma_differ_at(p, "Logical Reads: "@, 0);
    lemma_differ_at(p, "Physical Reads: "@, 0);
    assert(p.take(l.len() as int) =~= l);
    lemma_remove_prefix(l, v);
}

proof fn lemma_part_rows_0(c: SessionSnapView, v: Seq<char>)
    requires
        !contains(v, "Row Count: "@),
    ensures
        part_step(DetailLine::Rows, c, "Row Count: "@ + v) == (SessionSnapView { row_count: v, ..c }),
{
    let l = "Row Count: "@;
    let p = l + v;
    reveal_strlit("Row Count: ");
    assert(p.take(l.len() as int) =~= l);
    lemma_remove_prefix(l, v);
}

proof fn lemma_part_rows_1(c: SessionSnapView, v: Seq<char>)
    requires
        !contains(v, "Open Trans: "@),
    ensures
        part_step(DetailLine::Rows, c, "Open Trans: "@ + v) == (SessionSnapView { open_trans: v, ..c }),
{
    let l = "Open Trans: "@;
    let p = l + v;
    reveal_strlit("Open Trans: ");
    reveal_strlit("Row Count: ");
    lemma_differ_at(p, "Row Count: "@, 0);
    assert(p.take(l.len() as int) =~= l);
    lemma_remove_prefix(l, v);
}

proof fn lemma_part_rows_2(c: SessionSnapView, v: Seq<char>)
    requires
        !contains(v, "DOP: "@),
    ensures
        part_step(DetailLine::Rows, c, "DOP: "@ + v) == (SessionSnapView { dop: v, ..c }),
{
    let l = "DOP: "@;
    let p = l + v;
    reveal_strlit("DOP: ");
    reveal_strlit("Open Trans: ");
    reveal_strlit("Row Count: ");
    lemma_differ_at(p, "Row Count: "@, 0);
    lemma_differ_at(p, "Open Trans: "@, 0);
    assert(p.take(l.len() as int) =~= l);
    lemma_remove_prefix(l, v);
}

proof fn lemma_part_client_0(c: SessionSnapView, v: Seq<char>)
    requires
        !contains(v, "Client Address: "@),
    ensures
        part_step(DetailLine::Client, c, "Client Address: "@ + v) == (SessionSnapView { client_address: v, ..c }),
{
    let l = "Client Address: "@;
    let p = l + v;
    reveal_strlit("Client Address: ");
    assert(p.take(l.len() as int) =~= l);
    lemma_remove_prefix(l, v);
}

proof fn lemma_part_client_1(c: SessionSnapView, v: Seq<char>)
    requires
        !contains(v, "Login Name: "@),
    ensures
        part_step(DetailLine::Client, c, "Login Name: "@ + v) == (SessionSnapView { login_name: v, ..c }),
{
    let l = "Login Name: "@;
    let p = l + v;
    reveal_strlit("Client Address: ");
    reveal_strlit("Login Name: ");
    lemma_differ_at(p, "Client Address: "@, 0);
    assert(p.take(l.len() as int) =~= l);
    lemma_remove_prefix(l, v);
}

proof fn lemma_part_client_2(c: SessionSnapView, v: Seq<char>)
    requires
        !contains(v, "DB Name: "@),
    ensures
        part_step(DetailLine::Client, c, "DB Name: "@ + v) == (SessionSnapView { db_name: v, ..c }),
{
    let l = "DB Name: "@;
    let p = l + v;
    reveal_strlit("Client Address: ");
    reveal_strlit("DB Name: ");
    reveal_strlit("Login Name: ");
    lemma_differ_at(p, "Client Address: "@, 0);
    lemma_differ_at(p, "Login Name: "@, 0);
    assert(p.take(l.len() as int) =~= l);
    lemma_remove_prefix(l, v);
}

proof fn lemma_part_command_0(c: SessionSnapView, v: Seq<char>)
    requires
        !contains(v, "Command: "@),
    ensures
        part_step(DetailLine::Command, c, "Command: "@ + v) == (SessionSnapView { command: v, ..c }),
{
    let l = "Command: "@;
    let p = l + v;
    reveal_strlit("Command: ");
    assert(p.take(l.len() as int) =~= l);
    lemma_remove_prefix(l, v);
}

proof fn lemma_part_command_1(c: SessionSnapView, v: Seq<char>)
    requires
        !contains(v, "Start Time: "@),
    ensures
        part_step(DetailLine::Command, c, "Start Time: "@ + v) == (SessionSnapView { start_time: v, ..c }),
{
    let l = "Start Time: "@;
    let p = l + v;
    reveal_strlit("Command: ");
    reveal_strlit("Start Time: ");
    lemma_differ_at(p, "Command: "@, 0);
    assert(p.take(l.len() as int) =~= l);
    lemma_remove_prefix(l, v);
}

proof fn lemma_parts_0(c: SessionSnapView, s: SessionSnapView)
    requires
        exportable_session(s),
    ensures
        parts_fold(DetailLine::Spid, c, split(("SPID: "@ + s.spid) + " | "@ + ("Elapsed Time: "@ + (s.elapsed + " ms"@)) + " | "@ + ("Status: "@ + s.status), " | "@)) == (SessionSnapView { spid: s.spid, elapsed: s.elapsed, status: s.status, ..c }),
{
    let p0 = ("SPID: "@ + s.spid);
    let p1 = ("Elapsed Time: "@ + (s.elapsed + " ms"@));
    let p2 = ("Status: "@ + s.status);
    let bar = " | "@;
    assert(bar.len() == 3 && bar[1] == '|' && bar[0] != '|' && lacks(bar, '\n') && lacks(bar, '\r')) by {
        reveal_strlit(" | ");
    }
    assert(lacks("SPID: "@, '|') && "SPID: "@.len() == 6 && "SPID: "@[4] == ':' && "SPID: "@[4] == ':' && "SPID: "@[5] == ' ') by {
        reveal_strlit("SPID: ");
    }
    assert(lacks("Elapsed Time: "@, '|') && "Elapsed Time: "@.len() == 14 && "Elapsed Time: "@[12] == ':' && "Elapsed Time: "@[12] == ':' && "Elapsed Time: "@[13] == ' ') by {
        reveal_strlit("Elapsed Time: ");
    }
    assert(lacks(" ms"@, '|') && lacks(" ms"@, ':') && " ms"@.len() == 3 && " ms"@[1] == 'm' && " ms"@[0] != 'm') by {
        reveal_strlit(" ms");
    }
    lemma_remove_suffix(s.elapsed, " ms"@);
    assert(lacks("Status: "@, '|') && "Status: "@.len() == 8 && "Status: "@[6] == ':' && "Status: "@[6] == ':' && "Status: "@[7] == ' ') by {
        reveal_strlit("Status: ");
    }
    lemma_split_head(p0, bar, p1 + bar + (p2));
    lemma_split_head(p1, bar, p2);
    lemma_split_whole(p2, bar);
    assert(p0 + bar + p1 + bar + p2 =~= p0 + bar + (p1 + bar + (p2)));
    let ps = split(p0 + bar + p1 + bar + p2, bar);
    assert(ps =~= seq![p0, p1, p2]);
    assert(ps.take(3).drop_last() =~= ps.take(2));
    assert(ps.take(2).drop_last() =~= ps.take(1));
    assert(ps.take(1).drop_last() =~= ps.take(0));
    assert(ps.take(0) =~= Seq::<Seq<char>>::empty());
    assert(ps.take(3) =~= ps);
    lemma_part_spid_0(parts_fold(DetailLine::Spid, c, ps.take(0)), s.spid);
    assert(parts_fold(DetailLine::Spid, c, ps.take(1)) == part_step(DetailLine::Spid, parts_fold(DetailLine::Spid, c, ps.take(0)), p0));
    lemma_part_spid_1(parts_fold(DetailLine::Spid, c, ps.take(1)), s.elapsed + " ms"@);
    assert(parts_fold(DetailLine::Spid, c, ps.take(2)) == part_step(DetailLine::Spid, parts_fold(DetailLine::Spid, c, ps.take(1)), p1));
    lemma_part_spid_2(parts_fold(DetailLine::Spid, c, ps.take(2)), s.status);
    assert(parts_fold(DetailLine::Spid, c, ps.take(3)) == part_step(DetailLine::Spid, parts_fold(DetailLine::Spid, c, ps.take(2)), p2));
}

proof fn lemma_parts_1(c: SessionSnapView, s: SessionSnapView)
    requires
        exportable_session(s),
    ensures
        parts_fold(DetailLine::Wait, c, split(("Wait Type: "@ + (s.wait_type + " ("@ + s.wait_time_ms + " ms)"@)) + " | "@ + ("Last Wait: "@ + s.last_wait_type), " | "@)) == (SessionSnapView { wait_type: s.wait_type, wait_time_ms: s.wait_time_ms, last_wait_type: s.last_wait_type, ..c }),
{
    let p0 = ("Wait Type: "@ + (s.wait_type + " ("@ + s.wait_time_ms + " ms)"@));
    let p1 = ("Last Wait: "@ + s.last_wait_type);
    let bar = " | "@;
    assert(bar.len() == 3 && bar[1] == '|' && bar[0] != '|' && lacks(bar, '\n') && lacks(bar, '\r')) by {
        reveal_strlit(" | ");
    }
    assert(lacks("Wait Type: "@, '|') && "Wait Type: "@.len() == 11 && "Wait Type: "@[9] == ':' && "Wait Type: "@[9] == ':' && "Wait Type: "@[10] == ' ') by {
        reveal_strlit("Wait Type: ");
    }
    assert(lacks(" ("@, '|') && lacks(" ("@, ':') && " ("@.len() == 2 && " ("@[1] == '(' && " ("@[0] == ' ') by {
        reveal_strlit(" (");
    }
    assert(lacks(" ms)"@, '|') && lacks(" ms)"@, ':') && lacks(" ms)"@, '(') && " ms)"@.len() == 4 && " ms)"@[1] == 'm' && " ms)"@[0] != 'm') by {
        reveal_strlit(" ms)");
    }
    let r = " ("@ + s.wait_time_ms + " ms)"@;
    assert(s.wait_type + " ("@ + s.wait_time_ms + " ms)"@ =~= s.wait_type + r);
    assert(s.wait_type + r =~= s.wait_type + " ("@ + (s.wait_time_ms + " ms)"@));
    lemma_split_head(s.wait_type, " ("@, s.wait_time_ms + " ms)"@);
    lemma_split_whole(s.wait_time_ms + " ms)"@, " ("@);
    assert(split(s.wait_type + r, " ("@) =~= seq![s.wait_type, s.wait_time_ms + " ms)"@]);
    lemma_remove_suffix(s.wait_time_ms, " ms)"@);
    assert(lacks("Last Wait: "@, '|') && "Last Wait: "@.len() == 11 && "Last Wait: "@[9] == ':' && "Last Wait: "@[9] == ':' && "Last Wait: "@[10] == ' ') by {
        reveal_strlit("Last Wait: ");
    }
    lemma_split_head(p0, bar, p1);
    lemma_split_whole(p1, bar);
    assert(p0 + bar + p1 =~= p0 + bar + (p1));
    let ps = split(p0 + bar + p1, bar);
    assert(ps =~= seq![p0, p1]);
    assert(ps.take(2).drop_last() =~= ps.take(1));
    assert(ps.take(1).drop_last() =~= ps.take(0));
    assert(ps.take(0) =~= Seq::<Seq<char>>::empty());
    assert(ps.take(2) =~= ps);
    lemma_part_wait_0(parts_fold(DetailLine::Wait, c, ps.take(0)), s.wait_type + " ("@ + s.wait_time_ms + " ms)"@);
    assert(parts_fold(DetailLine::Wait, c, ps.take(1)) == part_step(DetailLine::Wait, parts_fold(DetailLine::Wait, c, ps.take(0)), p0));
    lemma_part_wait_1(parts_fold(DetailLine::Wait, c, ps.take(1)), s.last_wait_type);
    assert(parts_fold(DetailLine::Wait, c, ps.take(2)) == part_step(DetailLine::Wait, parts_fold(DetailLine::Wait, c, ps.take(1)), p1));
}

proof fn lemma_parts_2(c: SessionSnapView, s: SessionSnapView)
    requires
        exportable_session(s),
    ensures
        parts_fold(DetailLine::Resource, c, split(("Wait Resource: "@ + s.wait_resource) + " | "@ + ("Blocking SPID: "@ + s.blocking_spid), " | "@)) == (SessionSnapView { wait_resource: s.wait_resource, blocking_spid: s.blocking_spid, ..c }),
{
    let p0 = ("Wait Resource: "@ + s.wait_resource);
    let p1 = ("Blocking SPID: "@ + s.blocking_spid);
    let bar = " | "@;
    assert(bar.len() == 3 && bar[1] == '|' && bar[0] != '|' && lacks(bar, '\n') && lacks(bar, '\r')) by {
        reveal_strlit(" | ");
    }
    assert(lacks("Wait Resource: "@, '|') && "Wait Resource: "@.len() == 15 && "Wait Resource: "@[13] == ':' && "Wait Resource: "@[13] == ':' && "Wait Resource: "@[14] == ' ') by {
        reveal_strlit("Wait Resource: ");
    }
    assert(lacks("Blocking SPID: "@, '|') && "Blocking SPID: "@.len() == 15 && "Blocking SPID: "@[13] == ':' && "Blocking SPID: "@[13] == ':' && "Blocking SPID: "@[14] == ' ') by {
        reveal_strlit("Blocking SPID: ");
    }
    lemma_split_head(p0, bar, p1);
    lemma_split_whole(p1, bar);
    assert(p0 + bar + p1 =~= p0 + bar + (p1));
    let ps = split(p0 + bar + p1, bar);
    assert(ps =~= seq![p0, p1]);
    assert(ps.take(2).drop_last() =~= ps.take(1));
    assert(ps.take(1).drop_last() =~= ps.take(0));
    assert(ps.take(0) =~= Seq::<Seq<char>>::empty());
    assert(ps.take(2) =~= ps);
    lemma_part_resource_0(parts_fold(DetailLine::Resource, c, ps.take(0)), s.wait_resource);
    assert(parts_fold(DetailLine::Resource, c, ps.take(1)) == part_step(DetailLine::Resource, parts_fold(DetailLine::Resource, c, ps.take(0)), p0));
    lemma_part_resource_1(parts_fold(DetailLine::Resource, c, ps.take(1)), s.blocking_spid);
    assert(parts_fold(DetailLine::Resource, c, ps.take(2)) == part_step(DetailLine::Resource, parts_fold(DetailLine::Resource, c, ps.take(1)), p1));
}

proof fn lemma_parts_3(c: SessionSnapView, s: SessionSnapView)
    requires
        exportable_session(s),
    ensures
        parts_fold(DetailLine::Io, c, split(("CPU Time: "@ + (s.cpu_time_ms + " ms"@)) + " | "@ + ("Logical Reads: "@ + s.logical_reads) + " | "@ + ("Physical Reads: "@ + s.physical_reads) + " | "@ + ("Writes: "@ + s.writes), " | "@)) == (SessionSnapView { cpu_time_ms: s.cpu_time_ms, logical_reads: s.logical_reads, physical_reads: s.physical_reads, writes: s.writes, ..c }),
{
    let p0 = ("CPU Time: "@ + (s.cpu_time_ms + " ms"@));
    let p1 = ("Logical Reads: "@ + s.logical_reads);
    let p2 = ("Physical Reads: "@ + s.physical_reads);
    let p3 = ("Writes: "@ + s.writes);
    let bar = " | "@;
    assert(bar.len() == 3 && bar[1] == '|' && bar[0] != '|' && lacks(bar, '\n') && lacks(bar, '\r')) by {
        reveal_strlit(" | ");
    }
    assert(lacks("CPU Time: "@, '|') && "CPU Time: "@.len() == 10 && "CPU Time: "@[8] == ':' && "CPU Time: "@[8] == ':' && "CPU Time: "@[9] == ' ') by {
        reveal_strlit("CPU Time: ");
    }
    assert(lacks(" ms"@, '|') && lacks(" ms"@, ':') && " ms"@.len() == 3 && " ms"@[1] == 'm' && " ms"@[0] != 'm') by {
        reveal_strlit(" ms");
    }
    lemma_remove_suffix(s.cpu_time_ms, " ms"@);
    assert(lacks("Logical Reads: "@, '|') && "Logical Reads: "@.len() == 15 && "Logical Reads: "@[13] == ':' && "Logical Reads: "@[13] == ':' && "Logical Reads: "@[14] == ' ') by {
        reveal_strlit("Logical Reads: ");
    }
    assert(lacks("Physical Reads: "@, '|') && "Physical Reads: "@.len() == 16 && "Physical Reads: "@[14] == ':' && "Physical Reads: "@[14] == ':' && "Physical Reads: "@[15] == ' ') by {
        reveal_strlit("Physical Reads: ");
    }
    assert(lacks("Writes: "@, '|') && "Writes: "@.len() == 8 && "Writes: "@[6] == ':' && "Writes: "@[6] == ':' && "Writes: "@[7] == ' ') by {
        reveal_strlit("Writes: ");
    }
    lemma_split_head(p0, bar, p1 + bar + (p2 + bar + (p3)));
    lemma_split_head(p1, bar, p2 + bar + (p3));
    lemma_split_head(p2, bar, p3);
    lemma_split_whole(p3, bar);
    assert(p0 + bar + p1 + bar + p2 + bar + p3 =~= p0 + bar + (p1 + bar + (p2 + bar + (p3))));
    let ps = split(p0 + bar + p1 + bar + p2 + bar + p3, bar);
    assert(ps =~= seq![p0, p1, p2, p3]);
    assert(ps.take(4).drop_last() =~= ps.take(3));
    assert(ps.take(3).drop_last() =~= ps.take(2));
    assert(ps.take(2).drop_last() =~= ps.take(1));
    assert(ps.take(1).drop_last() =~= ps.take(0));
    assert(ps.take(0) =~= Seq::<Seq<char>>::empty());
    assert(ps.take(4) =~= ps);
    lemma_part_io_0(parts_fold(DetailLine::Io, c, ps.take(0)), s.cpu_time_ms + " ms"@);
    assert(parts_fold(DetailLine::Io, c, ps.take(1)) == part_step(DetailLine::Io, parts_fold(DetailLine::Io, c, ps.take(0)), p0));
    lemma_part_io_1(parts_fold(DetailLine::Io, c, ps.take(1)), s.logical_reads);
    assert(parts_fold(DetailLine::Io, c, ps.take(2)) == part_step(DetailLine::Io, parts_fold(DetailLine::Io, c, ps.take(1)), p1));
    lemma_part_io_2(parts_fold(DetailLine::Io, c, ps.take(2)), s.physical_reads);
    assert(parts_fold(DetailLine::Io, c, ps.take(3)) == part_step(DetailLine::Io, parts_fold(DetailLine::Io, c, ps.take(2)), p2));
    lemma_part_io_3(parts_fold(DetailLine::Io, c, ps.take(3)), s.writes);
    assert(parts_fold(DetailLine::Io, c, ps.take(4)) == part_step(DetailLine::Io, parts_fold(DetailLine::Io, c, ps.take(3)), p3));
}

proof fn lemma_parts_4(c: SessionSnapView, s: SessionSnapView)
    requires
        exportable_session(s),
    ensures
        parts_fold(DetailLine::Rows, c, split(("Row Count: "@ + s.row_count) + " | "@ + ("Open Trans: "@ + s.open_trans) + " | "@ + ("DOP: "@ + s.dop), " | "@)) == (SessionSnapView { row_count: s.row_count, open_trans: s.open_trans, dop: s.dop, ..c }),
{
    let p0 = ("Row Count: "@ + s.row_count);
    let p1 = ("Open Trans: "@ + s.open_trans);
    let p2 = ("DOP: "@ + s.dop);
    let bar = " | "@;
    assert(bar.len() == 3 && bar[1] == '|' && bar[0] != '|' && lacks(bar, '\n') && lacks(bar, '\r')) by {
        reveal_strlit(" | ");
    }
    assert(lacks("Row Count: "@, '|') && "Row Count: "@.len() == 11 && "Row Count: "@[9] == ':' && "Row Count: "@[9] == ':' && "Row Count: "@[10] == ' ') by {
        reveal_strlit("Row Count: ");
    }
    assert(lacks("Open Trans: "@, '|') && "Open Trans: "@.len() == 12 && "Open Trans: "@[10] == ':' && "Open Trans: "@[10] == ':' && "Open Trans: "@[11] == ' ') by {
        reveal_strlit("Open Trans: ");
    }
    assert(lacks("DOP: "@, '|') && "DOP: "@.len() == 5 && "DOP: "@[3] == ':' && "DOP: "@[3] == ':' && "DOP: "@[4] == ' ') by {
        reveal_strlit("DOP: ");
    }
    lemma_split_head(p0, bar, p1 + bar + (p2));
    lemma_split_head(p1, bar, p2);
    lemma_split_whole(p2, bar);
    assert(p0 + bar + p1 + bar + p2 =~= p0 + bar + (p1 + bar + (p2)));
    let ps = split(p0 + bar + p1 + bar + p2, bar);
    assert(ps =~= seq![p0, p1, p2]);
    assert(ps.take(3).drop_last() =~= ps.take(2));
    assert(ps.take(2).drop_last() =~= ps.take(1));
    assert(ps.take(1).drop_last() =~= ps.take(0));
    assert(ps.take(0) =~= Seq::<Seq<char>>::empty());
    assert(ps.take(3) =~= ps);
    lemma_part_rows_0(parts_fold(DetailLine::Rows, c, ps.take(0)), s.row_count);
    assert(parts_fold(DetailLine::Rows, c, ps.take(1)) == part_step(DetailLine::Rows, parts_fold(DetailLine::Rows, c, ps.take(0)), p0));
    lemma_part_rows_1(parts_fold(DetailLine::Rows, c, ps.take(1)), s.open_trans);
    assert(parts_fold(DetailLine::Rows, c, ps.take(2)) == part_step(DetailLine::Rows, parts_fold(DetailLine::Rows, c, ps.take(1)), p1));
    lemma_part_rows_2(parts_fold(DetailLine::Rows, c, ps.take(2)), s.dop);
    assert(parts_fold(DetailLine::Rows, c, ps.take(3)) == part_step(DetailLine::Rows, parts_fold(DetailLine::Rows, c, ps.take(2)), p2));
}

proof fn lemma_parts_5(c: SessionSnapView, s: SessionSnapView)
    requires
        exportable_session(s),
    ensures
        parts_fold(DetailLine::Client, c, split(("Client Address: "@ + s.client_address) + " | "@ + ("Login Name: "@ + s.login_name) + " | "@ + ("DB Name: "@ + s.db_name), " | "@)) == (SessionSnapView { client_address: s.client_address, login_name: s.login_name, db_name: s.db_name, ..c }),
{
    let p0 = ("Client Address: "@ + s.client_address);
    let p1 = ("Login Name: "@ + s.login_name);
    let p2 = ("DB Name: "@ + s.db_name);
    let bar = " | "@;
    assert(bar.len() == 3 && bar[1] == '|' && bar[0] != '|' && lacks(bar, '\n') && lacks(bar, '\r')) by {
        reveal_strlit(" | ");
    }
    assert(lacks("Client Address: "@, '|') && "Client Address: "@.len() == 16 && "Client Address: "@[14] == ':' && "Client Address: "@[14] == ':' && "Client Address: "@[15] == ' ') by {
        reveal_strlit("Client Address: ");
    }
    assert(lacks("Login Name: "@, '|') && "Login Name: "@.len() == 12 && "Login Name: "@[10] == ':' && "Login Name: "@[10] == ':' && "Login Name: "@[11] == ' ') by {
        reveal_strlit("Login Name: ");
    }
    assert(lacks("DB Name: "@, '|') && "DB Name: "@.len() == 9 && "DB Name: "@[7] == ':' && "DB Name: "@[7] == ':' && "DB Name: "@[8] == ' ') by {
        reveal_strlit("DB Name: ");
    }
    lemma_split_head(p0, bar, p1 + bar + (p2));
    lemma_split_head(p1, bar, p2);
    lemma_split_whole(p2, bar);
    assert(p0 + bar + p1 + bar + p2 =~= p0 + bar + (p1 + bar + (p2)));
    let ps = split(p0 + bar + p1 + bar + p2, bar);
    assert(ps =~= seq![p0, p1, p2]);
    assert(ps.take(3).drop_last() =~= ps.take(2));
    assert(ps.take(2).drop_last() =~= ps.take(1));
    assert(ps.take(1).drop_last() =~= ps.take(0));
    assert(ps.take(0) =~= Seq::<Seq<char>>::empty());
    assert(ps.take(3) =~= ps);
    lemma_part_client_0(parts_fold(DetailLine::Client, c, ps.take(0)), s.client_address);
    assert(parts_fold(DetailLine::Client, c, ps.take(1)) == part_step(DetailLine::Client, parts_fold(DetailLine::Client, c, ps.take(0)), p0));
    lemma_part_client_1(parts_fold(DetailLine::Client, c, ps.take(1)), s.login_name);
    assert(parts_fold(DetailLine::Client, c, ps.take(2)) == part_step(DetailLine::Client, parts_fold(DetailLine::Client, c, ps.take(1)), p1));
    lemma_part_client_2(parts_fold(DetailLine::Client, c, ps.take(2)), s.db_name);
    assert(parts_fold(DetailLine::Client, c, ps.take(3)) == part_step(DetailLine::Client, parts_fold(DetailLine::Client, c, ps.take(2)), p2));
}

proof fn lemma_parts_6(c: SessionSnapView, s: SessionSnapView)
    requires
        exportable_session(s),
    ensures
        parts_fold(DetailLine::Command, c, split(("Command: "@ + s.command) + " | "@ + ("Start Time: "@ + s.start_time), " | "@)) == (SessionSnapView { command: s.command, start_time: s.start_time, ..c }),
{
    let p0 = ("Command: "@ + s.command);
    let p1 = ("Start Time: "@ + s.start_time);
    let bar = " | "@;
    assert(bar.len() == 3 && bar[1] == '|' && bar[0] != '|' && lacks(bar, '\n') && lacks(bar, '\r')) by {
        reveal_strlit(" | ");
    }
    assert(lacks("Command: "@, '|') && "Command: "@.len() == 9 && "Command: "@[7] == ':' && "Command: "@[7] == ':' && "Command: "@[8] == ' ') by {
        reveal_strlit("Command: ");
    }
    assert(lacks("Start Time: "@, '|') && "Start Time: "@.len() == 12 && "Start Time: "@[10] == ':' && "Start Time: "@[10] == ':' && "Start Time: "@[11] == ' ') by {
        reveal_strlit("Start Time: ");
    }
    lemma_split_head(p0, bar, p1);
    lemma_split_whole(p1, bar);
    assert(p0 + bar + p1 =~= p0 + bar + (p1));
    let ps = split(p0 + bar + p1, bar);
    assert(ps =~= seq![p0, p1]);
    assert(ps.take(2).drop_last() =~= ps.take(1));
    assert(ps.take(1).drop_last() =~= ps.take(0));
    assert(ps.take(0) =~= Seq::<Seq<char>>::empty());
    assert(ps.take(2) =~= ps);
    lemma_part_command_0(parts_fold(DetailLine::Command, c, ps.take(0)), s.command);
    assert(parts_fold(DetailLine::Command, c, ps.take(1)) == part_step(DetailLine::Command, parts_fold(DetailLine::Command, c, ps.take(0)), p0));
    lemma_part_command_1(parts_fold(DetailLine::Command, c, ps.take(1)), s.start_time);
    assert(parts_fold(DetailLine::Command, c, ps.take(2)) == part_step(DetailLine::Command, parts_fold(DetailLine::Command, c, ps.take(1)), p1));
}

/// The state after the lines `ls`, read from `st`.
spec fn snapshot_fold_from(st: SnapshotParseState, ls: Seq<Seq<char>>) -> SnapshotParseState
    decreases ls.len(),
{
    if ls.len() == 0 {
        st
    } else {
        snapshot_line_step(snapshot_fold_from(st, ls.drop_last()), ls.last())
    }
}

/// The state before the first line of a block.
spec fn block_start() -> SnapshotParseState {
    SnapshotParseState {
        snap: empty_snapshot(),
        cur: empty_snap_session(0),
        in_session: false,
        sql_state: 0,
        counter: 0,
    }
}

proof fn lemma_snap_fold_from_start(ls: Seq<Seq<char>>)
    ensures
        snapshot_fold(ls) == snapshot_fold_from(block_start(), ls),
    decreases ls.len(),
{
    if ls.len() > 0 {
        lemma_snap_fold_from_start(ls.drop_last());
    }
}

proof fn lemma_snap_fold_from_append(st: SnapshotParseState, a: Seq<Seq<char>>, b: Seq<Seq<char>>)
    ensures
        snapshot_fold_from(st, a + b) == snapshot_fold_from(snapshot_fold_from(st, a), b),
    decreases b.len(),
{
    if b.len() == 0 {
        assert(a + b =~= a);
    } else {
        assert((a + b).drop_last() =~= a + b.drop_last());
        lemma_snap_fold_from_append(st, a, b.drop_last());
    }
}

proof fn lemma_parts_0_blank(c: SessionSnapView, s: SessionSnapView)
    requires
        exportable_session(s),
        s.status.len() == 0,
    ensures
        parts_fold(DetailLine::Spid, c, split(("SPID: "@ + s.spid) + " | "@ + ("Elapsed Time: "@ + (s.elapsed + " ms"@)) + " | "@ + "Status:"@, " | "@)) == (SessionSnapView { spid: s.spid, elapsed: s.elapsed, ..c }),
{
    let p0 = ("SPID: "@ + s.spid);
    let p1 = ("Elapsed Time: "@ + (s.elapsed + " ms"@));
    let p2 = "Status:"@;
    let bar = " | "@;
    assert(bar.len() == 3 && bar[1] == '|' && bar[0] != '|' && lacks(bar, '\n') && lacks(bar, '\r')) by {
        reveal_strlit(" | ");
    }
    assert(lacks("SPID: "@, '|') && "SPID: "@.len() == 6 && "SPID: "@[4] == ':' && "SPID: "@[4] == ':' && "SPID: "@[5] == ' ') by {
        reveal_strlit("SPID: ");
    }
    assert(lacks("Elapsed Time: "@, '|') && "Elapsed Time: "@.len() == 14 && "Elapsed Time: "@[12] == ':' && "Elapsed Time: "@[12] == ':' && "Elapsed Time: "@[13] == ' ') by {
        reveal_strlit("Elapsed Time: ");
    }
    assert(lacks(" ms"@, '|') && lacks(" ms"@, ':') && " ms"@.len() == 3 && " ms"@[1] == 'm' && " ms"@[0] != 'm') by {
        reveal_strlit(" ms");
    }
    lemma_remove_suffix(s.elapsed, " ms"@);
    assert(lacks("Status: "@, '|') && "Status: "@.len() == 8 && "Status: "@[6] == ':' && "Status: "@[6] == ':' && "Status: "@[7] == ' ') by {
        reveal_strlit("Status: ");
    }
    lemma_split_head(p0, bar, p1 + bar + (p2));
    lemma_split_head(p1, bar, p2);
    assert(lacks(p2, '|')) by {
        reveal_strlit("Status:");
    }
    lemma_lacks_no_occurrence(p2, bar, 1);
    lemma_split_whole(p2, bar);
    assert(p0 + bar + p1 + bar + p2 =~= p0 + bar + (p1 + bar + (p2)));
    let ps = split(p0 + bar + p1 + bar + p2, bar);
    assert(ps =~= seq![p0, p1, p2]);
    assert(ps.take(3).drop_last() =~= ps.take(2));
    assert(ps.take(2).drop_last() =~= ps.take(1));
    assert(ps.take(1).drop_last() =~= ps.take(0));
    assert(ps.take(0) =~= Seq::<Seq<char>>::empty());
    assert(ps.take(3) =~= ps);
    lemma_part_spid_0(parts_fold(DetailLine::Spid, c, ps.take(0)), s.spid);
    assert(parts_fold(DetailLine::Spid, c, ps.take(1)) == part_step(DetailLine::Spid, parts_fold(DetailLine::Spid, c, ps.take(0)), p0));
    lemma_part_spid_1(parts_fold(DetailLine::Spid, c, ps.take(1)), s.elapsed + " ms"@);
    assert(parts_fold(DetailLine::Spid, c, ps.take(2)) == part_step(DetailLine::Spid, parts_fold(DetailLine::Spid, c, ps.take(1)), p1));
    lemma_part_blank_0(parts_fold(DetailLine::Spid, c, ps.take(2)));
    assert(parts_fold(DetailLine::Spid, c, ps.take(3)) == part_step(DetailLine::Spid, parts_fold(DetailLine::Spid, c, ps.take(2)), p2));
}

proof fn lemma_part_blank_0(c: SessionSnapView)
    ensures
        part_step(DetailLine::Spid, c, "Status:"@) == c,
{
    let p = "Status:"@;
    reveal_strlit("SPID: ");
    reveal_strlit("Elapsed Time: ");
    reveal_strlit("Status: ");
    reveal_strlit("Status:");
    lemma_differ_at(p, "SPID: "@, 1);
    lemma_differ_at(p, "Elapsed Time: "@, 0);
}

proof fn lemma_parts_1_blank(c: SessionSnapView, s: SessionSnapView)
    requires
        exportable_session(s),
        s.last_wait_type.len() == 0,
    ensures
        parts_fold(DetailLine::Wait, c, split(("Wait Type: "@ + (s.wait_type + " ("@ + s.wait_time_ms + " ms)"@)) + " | "@ + "Last Wait:"@, " | "@)) == (SessionSnapView { wait_type: s.wait_type, wait_time_ms: s.wait_time_ms, ..c }),
{
    let p0 = ("Wait Type: "@ + (s.wait_type + " ("@ + s.wait_time_ms + " ms)"@));
    let p1 = "Last Wait:"@;
    let bar = " | "@;
    assert(bar.len() == 3 && bar[1] == '|' && bar[0] != '|' && lacks(bar, '\n') && lacks(bar, '\r')) by {
        reveal_strlit(" | ");
    }
    assert(lacks("Wait Type: "@, '|') && "Wait Type: "@.len() == 11 && "Wait Type: "@[9] == ':' && "Wait Type: "@[9] == ':' && "Wait Type: "@[10] == ' ') by {
        reveal_strlit("Wait Type: ");
    }
    assert(lacks(" ("@, '|') && lacks(" ("@, ':') && " ("@.len() == 2 && " ("@[1] == '(' && " ("@[0] == ' ') by {
        reveal_strlit(" (");
    }
    assert(lacks(" ms)"@, '|') && lacks(" ms)"@, ':') && lacks(" ms)"@, '(') && " ms)"@.len() == 4 && " ms)"@[1] == 'm' && " ms)"@[0] != 'm') by {
        reveal_strlit(" ms)");
    }
    let r = " ("@ + s.wait_time_ms + " ms)"@;
    assert(s.wait_type + " ("@ + s.wait_time_ms + " ms)"@ =~= s.wait_type + r);
    assert(s.wait_type + r =~= s.wait_type + " ("@ + (s.wait_time_ms + " ms)"@));
    lemma_split_head(s.wait_type, " ("@, s.wait_time_ms + " ms)"@);
    lemma_split_whole(s.wait_time_ms + " ms)"@, " ("@);
    assert(split(s.wait_type + r, " ("@) =~= seq![s.wait_type, s.wait_time_ms + " ms)"@]);
    lemma_remove_suffix(s.wait_time_ms, " ms)"@);
    assert(lacks("Last Wait: "@, '|') && "Last Wait: "@.len() == 11 && "Last Wait: "@[9] == ':' && "Last Wait: "@[9] == ':' && "Last Wait: "@[10] == ' ') by {
        reveal_strlit("Last Wait: ");
    }
    lemma_split_head(p0, bar, p1);
    assert(lacks(p1, '|')) by {
        reveal_strlit("Last Wait:");
    }
    lemma_lacks_no_occurrence(p1, bar, 1);
    lemma_split_whole(p1, bar);
    assert(p0 + bar + p1 =~= p0 + bar + (p1));
    let ps = split(p0 + bar + p1, bar);
    assert(ps =~= seq![p0, p1]);
    assert(ps.take(2).drop_last() =~= ps.take(1));
    assert(ps.take(1).drop_last() =~= ps.take(0));
    assert(ps.take(0) =~= Seq::<Seq<char>>::empty());
    assert(ps.take(2) =~= ps);
    lemma_part_wait_0(parts_fold(DetailLine::Wait, c, ps.take(0)), s.wait_type + " ("@ + s.wait_time_ms + " ms)"@);
    assert(parts_fold(DetailLine::Wait, c, ps.take(1)) == part_step(DetailLine::Wait, parts_fold(DetailLine::Wait, c, ps.take(0)), p0));
    lemma_part_blank_1(parts_fold(DetailLine::Wait, c, ps.take(1)));
    assert(parts_fold(DetailLine::Wait, c, ps.take(2)) == part_step(DetailLine::Wait, parts_fold(DetailLine::Wait, c, ps.take(1)), p1));
}

proof fn lemma_part_blank_1(c: SessionSnapView)
    ensures
        part_step(DetailLine::Wait, c, "Last Wait:"@) == c,
{
    let p = "Last Wait:"@;
    reveal_strlit("Wait Type: ");
    reveal_strlit("Last Wait: ");
    reveal_strlit("Last Wait:");
    lemma_differ_at(p, "Wait Type: "@, 0);
}

proof fn lemma_parts_5_blank(c: SessionSnapView, s: SessionSnapView)
    requires
        exportable_session(s),
        s.db_name.len() == 0,
    ensures
        parts_fold(DetailLine::Client, c, split(("Client Address: "@ + s.client_address) + " | "@ + ("Login Name: "@ + s.login_name) + " | "@ + "DB Name:"@, " | "@)) == (SessionSnapView { client_address: s.client_address, login_name: s.login_name, ..c }),
{
    let p0 = ("Client Address: "@ + s.client_address);
    let p1 = ("Login Name: "@ + s.login_name);
    let p2 = "DB Name:"@;
    let bar = " | "@;
    assert(bar.len() == 3 && bar[1] == '|' && bar[0] != '|' && lacks(bar, '\n') && lacks(bar, '\r')) by {
        reveal_strlit(" | ");
    }
    assert(lacks("Client Address: "@, '|') && "Client Address: "@.len() == 16 && "Client Address: "@[14] == ':' && "Client Address: "@[14] == ':' && "Client Address: "@[15] == ' ') by {
        reveal_strlit("Client Address: ");
    }
    assert(lacks("Login Name: "@, '|') && "Login Name: "@.len() == 12 && "Login Name: "@[10] == ':' && "Login Name: "@[10] == ':' && "Login Name: "@[11] == ' ') by {
        reveal_strlit("Login Name: ");
    }
    assert(lacks("DB Name: "@, '|') && "DB Name: "@.len() == 9 && "DB Name: "@[7] == ':' && "DB Name: "@[7] == ':' && "DB Name: "@[8] == ' ') by {
        reveal_strlit("DB Name: ");
    }
    lemma_split_head(p0, bar, p1 + bar + (p2));
    lemma_split_head(p1, bar, p2);
    assert(lacks(p2, '|')) by {
        reveal_strlit("DB Name:");
    }
    lemma_lacks_no_occurrence(p2, bar, 1);
    lemma_split_whole(p2, bar);
    assert(p0 + bar + p1 + bar + p2 =~= p0 + bar + (p1 + bar + (p2)));
    let ps = split(p0 + bar + p1 + bar + p2, bar);
    assert(ps =~= seq![p0, p1, p2]);
    assert(ps.take(3).drop_last() =~= ps.take(2));
    assert(ps.take(2).drop_last() =~= ps.take(1));
    assert(ps.take(1).drop_last() =~= ps.take(0));
    assert(ps.take(0) =~= Seq::<Seq<char>>::empty());
    assert(ps.take(3) =~= ps);
    lemma_part_client_0(parts_fold(DetailLine::Client, c, ps.take(0)), s.client_address);
    assert(parts_fold(DetailLine::Client, c, ps.take(1)) == part_step(DetailLine::Client, parts_fold(DetailLine::Client, c, ps.take(0)), p0));
    lemma_part_client_1(parts_fold(DetailLine::Client, c, ps.take(1)), s.login_name);
    assert(parts_fold(DetailLine::Client, c, ps.take(2)) == part_step(DetailLine::Client, parts_fold(DetailLine::Client, c, ps.take(1)), p1));
    lemma_part_blank_5(parts_fold(DetailLine::Client, c, ps.take(2)));
    assert(parts_fold(DetailLine::Client, c, ps.take(3)) == part_step(DetailLine::Client, parts_fold(DetailLine::Client, c, ps.take(2)), p2));
}

proof fn lemma_part_blank_5(c: SessionSnapView)
    ensures
        part_step(DetailLine::Client, c, "DB Name:"@) == c,
{
    let p = "DB Name:"@;
    reveal_strlit("Client Address: ");
    reveal_strlit("Login Name: ");
    reveal_strlit("DB Name: ");
    reveal_strlit("DB Name:");
    lemma_differ_at(p, "Client Address: "@, 0);
    lemma_differ_at(p, "Login Name: "@, 0);
}

proof fn lemma_parts_6_blank(c: SessionSnapView, s: SessionSnapView)
    requires
        exportable_session(s),
        s.start_time.len() == 0,
    ensures
        parts_fold(DetailLine::Command, c, split(("Command: "@ + s.command) + " | "@ + "Start Time:"@, " | "@)) == (SessionSnapView { command: s.command, ..c }),
{
    let p0 = ("Command: "@ + s.command);
    let p1 = "Start Time:"@;
    let bar = " | "@;
    assert(bar.len() == 3 && bar[1] == '|' && bar[0] != '|' && lacks(bar, '\n') && lacks(bar, '\r')) by {
        reveal_strlit(" | ");
    }
    assert(lacks("Command: "@, '|') && "Command: "@.len() == 9 && "Command: "@[7] == ':' && "Command: "@[7] == ':' && "Command: "@[8] == ' ') by {
        reveal_strlit("Command: ");
    }
    assert(lacks("Start Time: "@, '|') && "Start Time: "@.len() == 12 && "Start Time: "@[10] == ':' && "Start Time: "@[10] == ':' && "Start Time: "@[11] == ' ') by {
        reveal_strlit("Start Time: ");
    }
    lemma_split_head(p0, bar, p1);
    assert(lacks(p1, '|')) by {
        reveal_strlit("Start Time:");
    }
    lemma_lacks_no_occurrence(p1, bar, 1);
    lemma_split_whole(p1, bar);
    assert(p0 + bar + p1 =~= p0 + bar + (p1));
    let ps = split(p0 + bar + p1, bar);
    assert(ps =~= seq![p0, p1]);
    assert(ps.take(2).drop_last() =~= ps.take(1));
    assert(ps.take(1).drop_last() =~= ps.take(0));
    assert(ps.take(0) =~= Seq::<Seq<char>>::empty());
    assert(ps.take(2) =~= ps);
    lemma_part_command_0(parts_fold(DetailLine::Command, c, ps.take(0)), s.command);
    assert(parts_fold(DetailLine::Command, c, ps.take(1)) == part_step(DetailLine::Command, parts_fold(DetailLine::Command, c, ps.take(0)), p0));
    lemma_part_blank_6(parts_fold(DetailLine::Command, c, ps.take(1)));
    assert(parts_fold(DetailLine::Command, c, ps.take(2)) == part_step(DetailLine::Command, parts_fold(DetailLine::Command, c, ps.take(1)), p1));
}

proof fn lemma_part_blank_6(c: SessionSnapView)
    ensures
        part_step(DetailLine::Command, c, "Start Time:"@) == c,
{
    let p = "Start Time:"@;
    reveal_strlit("Command: ");
    reveal_strlit("Start Time: ");
    reveal_strlit("Start Time:");
    lemma_differ_at(p, "Command: "@, 0);
}

proof fn lemma_parts_2_blank(c: SessionSnapView, s: SessionSnapView)
    requires
        exportable_session(s),
        s.blocking_spid.len() == 0,
    ensures
        parts_fold(DetailLine::Resource, c, split(("Wait Resource: "@ + s.wait_resource) + " | "@ + "Blocking SPID:"@, " | "@)) == (SessionSnapView { wait_resource: s.wait_resource, ..c }),
{
    let p0 = ("Wait Resource: "@ + s.wait_resource);
    let p1 = "Blocking SPID:"@;
    let bar = " | "@;
    assert(bar.len() == 3 && bar[1] == '|' && bar[0] != '|' && lacks(bar, '\n') && lacks(bar, '\r')) by {
        reveal_strlit(" | ");
    }
    assert(lacks("Wait Resource: "@, '|') && "Wait Resource: "@.len() == 15 && "Wait Resource: "@[13] == ':' && "Wait Resource: "@[13] == ':' && "Wait Resource: "@[14] == ' ') by {
        reveal_strlit("Wait Resource: ");
    }
    assert(lacks("Blocking SPID: "@, '|') && "Blocking SPID: "@.len() == 15 && "Blocking SPID: "@[13] == ':' && "Blocking SPID: "@[13] == ':' && "Blocking SPID: "@[14] == ' ') by {
        reveal_strlit("Blocking SPID: ");
    }
    lemma_split_head(p0, bar, p1);
    assert(lacks(p1, '|')) by {
        reveal_strlit("Blocking SPID:");
    }
    lemma_lacks_no_occurrence(p1, bar, 1);
    lemma_split_whole(p1, bar);
    assert(p0 + bar + p1 =~= p0 + bar + (p1));
    let ps = split(p0 + bar + p1, bar);
    assert(ps =~= seq![p0, p1]);
    assert(ps.take(2).drop_last() =~= ps.take(1));
    assert(ps.take(1).drop_last() =~= ps.take(0));
    assert(ps.take(0) =~= Seq::<Seq<char>>::empty());
    assert(ps.take(2) =~= ps);
    lemma_part_resource_0(parts_fold(DetailLine::Resource, c, ps.take(0)), s.wait_resource);
    assert(parts_fold(DetailLine::Resource, c, ps.take(1)) == part_step(DetailLine::Resource, parts_fold(DetailLine::Resource, c, ps.take(0)), p0));
    lemma_part_blank_2(parts_fold(DetailLine::Resource, c, ps.take(1)));
    assert(parts_fold(DetailLine::Resource, c, ps.take(2)) == part_step(DetailLine::Resource, parts_fold(DetailLine::Resource, c, ps.take(1)), p1));
}

proof fn lemma_part_blank_2(c: SessionSnapView)
    ensures
        part_step(DetailLine::Resource, c, "Blocking SPID:"@) == c,
{
    let p = "Blocking SPID:"@;
    reveal_strlit("Wait Resource: ");
    reveal_strlit("Blocking SPID: ");
    reveal_strlit("Blocking SPID:");
    lemma_differ_at(p, "Wait Resource: "@, 0);
}

proof fn lemma_parts_3_blank(c: SessionSnapView, s: SessionSnapView)
    requires
        exportable_session(s),
        s.writes.len() == 0,
    ensures
        parts_fold(DetailLine::Io, c, split(("CPU Time: "@ + (s.cpu_time_ms + " ms"@)) + " | "@ + ("Logical Reads: "@ + s.logical_reads) + " | "@ + ("Physical Reads: "@ + s.physical_reads) + " | "@ + "Writes:"@, " | "@)) == (SessionSnapView { cpu_time_ms: s.cpu_time_ms, logical_reads: s.logical_reads, physical_reads: s.physical_reads, ..c }),
{
    let p0 = ("CPU Time: "@ + (s.cpu_time_ms + " ms"@));
    let p1 = ("Logical Reads: "@ + s.logical_reads);
    let p2 = ("Physical Reads: "@ + s.physical_reads);
    let p3 = "Writes:"@;
    let bar = " | "@;
    assert(bar.len() == 3 && bar[1] == '|' && bar[0] != '|' && lacks(bar, '\n') && lacks(bar, '\r')) by {
        reveal_strlit(" | ");
    }
    assert(lacks("CPU Time: "@, '|') && "CPU Time: "@.len() == 10 && "CPU Time: "@[8] == ':' && "CPU Time: "@[8] == ':' && "CPU Time: "@[9] == ' ') by {
        reveal_strlit("CPU Time: ");
    }
    assert(lacks(" ms"@, '|') && lacks(" ms"@, ':') && " ms"@.len() == 3 && " ms"@[1] == 'm' && " ms"@[0] != 'm') by {
        reveal_strlit(" ms");
    }
    lemma_remove_suffix(s.cpu_time_ms, " ms"@);
    assert(lacks("Logical Reads: "@, '|') && "Logical Reads: "@.len() == 15 && "Logical Reads: "@[13] == ':' && "Logical Reads: "@[13] == ':' && "Logical Reads: "@[14] == ' ') by {
        reveal_strlit("Logical Reads: ");
    }
    assert(lacks("Physical Reads: "@, '|') && "Physical Reads: "@.len() == 16 && "Physical Reads: "@[14] == ':' && "Physical Reads: "@[14] == ':' && "Physical Reads: "@[15] == ' ') by {
        reveal_strlit("Physical Reads: ");
    }
    assert(lacks("Writes: "@, '|') && "Writes: "@.len() == 8 && "Writes: "@[6] == ':' && "Writes: "@[6] == ':' && "Writes: "@[7] == ' ') by {
        reveal_strlit("Writes: ");
    }
    lemma_split_head(p0, bar, p1 + bar + (p2 + bar + (p3)));
    lemma_split_head(p1, bar, p2 + bar + (p3));
    lemma_split_head(p2, bar, p3);
    assert(lacks(p3, '|')) by {
        reveal_strlit("Writes:");
    }
    lemma_lacks_no_occurrence(p3, bar, 1);
    lemma_split_whole(p3, bar);
    assert(p0 + bar + p1 + bar + p2 + bar + p3 =~= p0 + bar + (p1 + bar + (p2 + bar + (p3))));
    let ps = split(p0 + bar + p1 + bar + p2 + bar + p3, bar);
    assert(ps =~= seq![p0, p1, p2, p3]);
    assert(ps.take(4).drop_last() =~= ps.take(3));
    assert(ps.take(3).drop_last() =~= ps.take(2));
    assert(ps.take(2).drop_last() =~= ps.take(1));
    assert(ps.take(1).drop_last() =~= ps.take(0));
    assert(ps.take(0) =~= Seq::<Seq<char>>::empty());
    assert(ps.take(4) =~= ps);
    lemma_part_io_0(parts_fold(DetailLine::Io, c, ps.take(0)), s.cpu_time_ms + " ms"@);
    assert(parts_fold(DetailLine::Io, c, ps.take(1)) == part_step(DetailLine::Io, parts_fold(DetailLine::Io, c, ps.take(0)), p0));
    lemma_part_io_1(parts_fold(DetailLine::Io, c, ps.take(1)), s.logical_reads);
    assert(parts_fold(DetailLine::Io, c, ps.take(2)) == part_step(DetailLine::Io, parts_fold(DetailLine::Io, c, ps.take(1)), p1));
    lemma_part_io_2(parts_fold(DetailLine::Io, c, ps.take(2)), s.physical_reads);
    assert(parts_fold(DetailLine::Io, c, ps.take(3)) == part_step(DetailLine::Io, parts_fold(DetailLine::Io, c, ps.take(2)), p2));
    lemma_part_blank_3(parts_fold(DetailLine::Io, c, ps.take(3)));
    assert(parts_fold(DetailLine::Io, c, ps.take(4)) == part_step(DetailLine::Io, parts_fold(DetailLine::Io, c, ps.take(3)), p3));
}

proof fn lemma_part_blank_3(c: SessionSnapView)
    ensures
        part_step(DetailLine::Io, c, "Writes:"@) == c,
{
    let p = "Writes:"@;
    reveal_strlit("CPU Time: ");
    reveal_strlit("Logical Reads: ");
    reveal_strlit("Physical Reads: ");
    reveal_strlit("Writes: ");
    reveal_strlit("Writes:");
    lemma_differ_at(p, "CPU Time: "@, 0);
    lemma_differ_at(p, "Logical Reads: "@, 0);
    lemma_differ_at(p, "Physical Reads: "@, 0);
}

proof fn lemma_parts_4_blank(c: SessionSnapView, s: SessionSnapView)
    requires
        exportable_session(s),
        s.dop.len() == 0,
    ensures
        parts_fold(DetailLine::Rows, c, split(("Row Count: "@ + s.row_count) + " | "@ + ("Open Trans: "@ + s.open_trans) + " | "@ + "DOP:"@, " | "@)) == (SessionSnapView { row_count: s.row_count, open_trans: s.open_trans, ..c }),
{
    let p0 = ("Row Count: "@ + s.row_count);
    let p1 = ("Open Trans: "@ + s.open_trans);
    let p2 = "DOP:"@;
    let bar = " | "@;
    assert(bar.len() == 3 && bar[1] == '|' && bar[0] != '|' && lacks(bar, '\n') && lacks(bar, '\r')) by {
        reveal_strlit(" | ");
    }
    assert(lacks("Row Count: "@, '|') && "Row Count: "@.len() == 11 && "Row Count: "@[9] == ':' && "Row Count: "@[9] == ':' && "Row Count: "@[10] == ' ') by {
        reveal_strlit("Row Count: ");
    }
    assert(lacks("Open Trans: "@, '|') && "Open Trans: "@.len() == 12 && "Open Trans: "@[10] == ':' && "Open Trans: "@[10] == ':' && "Open Trans: "@[11] == ' ') by {
        reveal_strlit("Open Trans: ");
    }
    assert(lacks("DOP: "@, '|') && "DOP: "@.len() == 5 && "DOP: "@[3] == ':' && "DOP: "@[3] == ':' && "DOP: "@[4] == ' ') by {
        reveal_strlit("DOP: ");
    }
    lemma_split_head(p0, bar, p1 + bar + (p2));
    lemma_split_head(p1, bar, p2);
    assert(lacks(p2, '|')) by {
        reveal_strlit("DOP:");
    }
    lemma_lacks_no_occurrence(p2, bar, 1);
    lemma_split_whole(p2, bar);
    assert(p0 + bar + p1 + bar + p2 =~= p0 + bar + (p1 + bar + (p2)));
    let ps = split(p0 + bar + p1 + bar + p2, bar);
    assert(ps =~= seq![p0, p1, p2]);
    assert(ps.take(3).drop_last() =~= ps.take(2));
    assert(ps.take(2).drop_last() =~= ps.take(1));
    assert(ps.take(1).drop_last() =~= ps.take(0));
    assert(ps.take(0) =~= Seq::<Seq<char>>::empty());
    assert(ps.take(3) =~= ps);
    lemma_part_rows_0(parts_fold(DetailLine::Rows, c, ps.take(0)), s.row_count);
    assert(parts_fold(DetailLine::Rows, c, ps.take(1)) == part_step(DetailLine::Rows, parts_fold(DetailLine::Rows, c, ps.take(0)), p0));
    lemma_part_rows_1(parts_fold(DetailLine::Rows, c, ps.take(1)), s.open_trans);
    assert(parts_fold(DetailLine::Rows, c, ps.take(2)) == part_step(DetailLine::Rows, parts_fold(DetailLine::Rows, c, ps.take(1)), p1));
    lemma_part_blank_4(parts_fold(DetailLine::Rows, c, ps.take(2)));
    assert(parts_fold(DetailLine::Rows, c, ps.take(3)) == part_step(DetailLine::Rows, parts_fold(DetailLine::Rows, c, ps.take(2)), p2));
}

proof fn lemma_part_blank_4(c: SessionSnapView)
    ensures
        part_step(DetailLine::Rows, c, "DOP:"@) == c,
{
    let p = "DOP:"@;
    reveal_strlit("Row Count: ");
    reveal_strlit("Open Trans: ");
    reveal_strlit("DOP: ");
    reveal_strlit("DOP:");
    lemma_differ_at(p, "Row Count: "@, 0);
    lemma_differ_at(p, "Open Trans: "@, 0);
}

proof fn lemma_detail_line_0(st: SnapshotParseState, s: SessionSnapView)
    requires
        exportable_session(s),
        st.in_session,
        s.status.len() == 0 ==> st.cur.status == Seq::<char>::empty(),
    ensures
        snapshot_line_step(st, ("SPID: "@ + s.spid) + " | "@ + ("Elapsed Time: "@ + (s.elapsed + " ms"@)) + " | "@ + ("Status: "@ + s.status)) == (SnapshotParseState { cur: SessionSnapView { spid: s.spid, elapsed: s.elapsed, status: s.status, ..st.cur }, ..st }),
{
    let bar = " | "@;
    if s.status.len() > 0 {
        let rest = (s.spid) + bar + ("Elapsed Time: "@ + (s.elapsed + " ms"@)) + bar + ("Status: "@ + s.status);
        assert(("SPID: "@ + s.spid) + " | "@ + ("Elapsed Time: "@ + (s.elapsed + " ms"@)) + " | "@ + ("Status: "@ + s.status) =~= "SPID: "@ + rest);
        assert(rest.last() == s.status.last());
        lemma_detail_step_0(st, rest);
        lemma_parts_0(st.cur, s);
    } else {
        let rest = (s.spid) + bar + ("Elapsed Time: "@ + (s.elapsed + " ms"@)) + bar + "Status:"@;
        let raw = "SPID: "@ + ((s.spid) + bar + ("Elapsed Time: "@ + (s.elapsed + " ms"@)) + bar + ("Status: "@ + s.status));
        assert(s.status =~= Seq::<char>::empty());
        reveal_strlit("SPID: ");
        reveal_strlit("Status: ");
        reveal_strlit("Status:");
        assert(raw.drop_last() =~= "SPID: "@ + rest);
        assert(raw.last() == ' ' && rest.last() == ':');
        assert(trim_end(raw) == trim_end(raw.drop_last()));
        assert(snapshot_line_step(st, raw) == snapshot_line_step(st, raw.drop_last()));
        assert(st.cur.status == s.status);
        assert(("SPID: "@ + s.spid) + " | "@ + ("Elapsed Time: "@ + (s.elapsed + " ms"@)) + " | "@ + ("Status: "@ + s.status) =~= raw);
        lemma_detail_step_0(st, rest);
        assert("SPID: "@ + rest =~= ("SPID: "@ + s.spid) + " | "@ + ("Elapsed Time: "@ + (s.elapsed + " ms"@)) + " | "@ + "Status:"@);
        lemma_parts_0_blank(st.cur, s);
    }
}

proof fn lemma_detail_line_1(st: SnapshotParseState, s: SessionSnapView)
    requires
        exportable_session(s),
        st.in_session,
        s.last_wait_type.len() == 0 ==> st.cur.last_wait_type == Seq::<char>::empty(),
    ensures
        snapshot_line_step(st, ("Wait Type: "@ + (s.wait_type + " ("@ + s.wait_time_ms + " ms)"@)) + " | "@ + ("Last Wait: "@ + s.last_wait_type)) == (SnapshotParseState { cur: SessionSnapView { wait_type: s.wait_type, wait_time_ms: s.wait_time_ms, last_wait_type: s.last_wait_type, ..st.cur }, ..st }),
{
    let bar = " | "@;
    if s.last_wait_type.len() > 0 {
        let rest = (s.wait_type + " ("@ + s.wait_time_ms + " ms)"@) + bar + ("Last Wait: "@ + s.last_wait_type);
        assert(("Wait Type: "@ + (s.wait_type + " ("@ + s.wait_time_ms + " ms)"@)) + " | "@ + ("Last Wait: "@ + s.last_wait_type) =~= "Wait Type: "@ + rest);
        assert(rest.last() == s.last_wait_type.last());
        lemma_detail_step_1(st, rest);
        lemma_parts_1(st.cur, s);
    } else {
        let rest = (s.wait_type + " ("@ + s.wait_time_ms + " ms)"@) + bar + "Last Wait:"@;
        let raw = "Wait Type: "@ + ((s.wait_type + " ("@ + s.wait_time_ms + " ms)"@) + bar + ("Last Wait: "@ + s.last_wait_type));
        assert(s.last_wait_type =~= Seq::<char>::empty());
        reveal_strlit("Wait Type: ");
        reveal_strlit("Last Wait: ");
        reveal_strlit("Last Wait:");
        assert(raw.drop_last() =~= "Wait Type: "@ + rest);
        assert(raw.last() == ' ' && rest.last() == ':');
        assert(trim_end(raw) == trim_end(raw.drop_last()));
        assert(snapshot_line_step(st, raw) == snapshot_line_step(st, raw.drop_last()));
        assert(st.cur.last_wait_type == s.last_wait_type);
        assert(("Wait Type: "@ + (s.wait_type + " ("@ + s.wait_time_ms + " ms)"@)) + " | "@ + ("Last Wait: "@ + s.last_wait_type) =~= raw);
        lemma_detail_step_1(st, rest);
        assert("Wait Type: "@ + rest =~= ("Wait Type: "@ + (s.wait_type + " ("@ + s.wait_time_ms + " ms)"@)) + " | "@ + "Last Wait:"@);
        lemma_parts_1_blank(st.cur, s);
    }
}

proof fn lemma_detail_line_2(st: SnapshotParseState, s: SessionSnapView)
    requires
        exportable_session(s),
        st.in_session,
        s.blocking_spid.len() == 0 ==> st.cur.blocking_spid == Seq::<char>::empty(),
    ensures
        snapshot_line_step(st, ("Wait Resource: "@ + s.wait_resource) + " | "@ + ("Blocking SPID: "@ + s.blocking_spid)) == (SnapshotParseState { cur: SessionSnapView { wait_resource: s.wait_resource, blocking_spid: s.blocking_spid, ..st.cur }, ..st }),
{
    let bar = " | "@;
    if s.blocking_spid.len() > 0 {
        let rest = (s.wait_resource) + bar + ("Blocking SPID: "@ + s.blocking_spid);
        assert(("Wait Resource: "@ + s.wait_resource) + " | "@ + ("Blocking SPID: "@ + s.blocking_spid) =~= "Wait Resource: "@ + rest);
        assert(rest.last() == s.blocking_spid.last());
        lemma_detail_step_2(st, rest);
        lemma_parts_2(st.cur, s);
    } else {
        let rest = (s.wait_resource) + bar + "Blocking SPID:"@;
        let raw = "Wait Resource: "@ + ((s.wait_resource) + bar + ("Blocking SPID: "@ + s.blocking_spid));
        assert(s.blocking_spid =~= Seq::<char>::empty());
        reveal_strlit("Wait Resource: ");
        reveal_strlit("Blocking SPID: ");
        reveal_strlit("Blocking SPID:");
        assert(raw.drop_last() =~= "Wait Resource: "@ + rest);
        assert(raw.last() == ' ' && rest.last() == ':');
        assert(trim_end(raw) == trim_end(raw.drop_last()));
        assert(snapshot_line_step(st, raw) == snapshot_line_step(st, raw.drop_last()));
        assert(st.cur.blocking_spid == s.blocking_spid);
        assert(("Wait Resource: "@ + s.wait_resource) + " | "@ + ("Blocking SPID: "@ + s.blocking_spid) =~= raw);
        lemma_detail_step_2(st, rest);
        assert("Wait Resource: "@ + rest =~= ("Wait Resource: "@ + s.wait_resource) + " | "@ + "Blocking SPID:"@);
        lemma_parts_2_blank(st.cur, s);
    }
}

proof fn lemma_detail_line_3(st: SnapshotParseState, s: SessionSnapView)
    requires
        exportable_session(s),
        st.in_session,
        s.writes.len() == 0 ==> st.cur.writes == Seq::<char>::empty(),
    ensures
        snapshot_line_step(st, ("CPU Time: "@ + (s.cpu_time_ms + " ms"@)) + " | "@ + ("Logical Reads: "@ + s.logical_reads) + " | "@ + ("Physical Reads: "@ + s.physical_reads) + " | "@ + ("Writes: "@ + s.writes)) == (SnapshotParseState { cur: SessionSnapView { cpu_time_ms: s.cpu_time_ms, logical_reads: s.logical_reads, physical_reads: s.physical_reads, writes: s.writes, ..st.cur }, ..st }),
{
    let bar = " | "@;
    if s.writes.len() > 0 {
        let rest = (s.cpu_time_ms + " ms"@) + bar + ("Logical Reads: "@ + s.logical_reads) + bar + ("Physical Reads: "@ + s.physical_reads) + bar + ("Writes: "@ + s.writes);
        assert(("CPU Time: "@ + (s.cpu_time_ms + " ms"@)) + " | "@ + ("Logical Reads: "@ + s.logical_reads) + " | "@ + ("Physical Reads: "@ + s.physical_reads) + " | "@ + ("Writes: "@ + s.writes) =~= "CPU Time: "@ + rest);
        assert(rest.last() == s.writes.last());
        lemma_detail_step_3(st, rest);
        lemma_parts_3(st.cur, s);
    } else {
        let rest = (s.cpu_time_ms + " ms"@) + bar + ("Logical Reads: "@ + s.logical_reads) + bar + ("Physical Reads: "@ + s.physical_reads) + bar + "Writes:"@;
        let raw = "CPU Time: "@ + ((s.cpu_time_ms + " ms"@) + bar + ("Logical Reads: "@ + s.logical_reads) + bar + ("Physical Reads: "@ + s.physical_reads) + bar + ("Writes: "@ + s.writes));
        assert(s.writes =~= Seq::<char>::empty());
        reveal_strlit("CPU Time: ");
        reveal_strlit("Writes: ");
        reveal_strlit("Writes:");
        assert(raw.drop_last() =~= "CPU Time: "@ + rest);
        assert(raw.last() == ' ' && rest.last() == ':');
        assert(trim_end(raw) == trim_end(raw.drop_last()));
        assert(snapshot_line_step(st, raw) == snapshot_line_step(st, raw.drop_last()));
        assert(st.cur.writes == s.writes);
        assert(("CPU Time: "@ + (s.cpu_time_ms + " ms"@)) + " | "@ + ("Logical Reads: "@ + s.logical_reads) + " | "@ + ("Physical Reads: "@ + s.physical_reads) + " | "@ + ("Writes: "@ + s.writes) =~= raw);
        lemma_detail_step_3(st, rest);
        assert("CPU Time: "@ + rest =~= ("CPU Time: "@ + (s.cpu_time_ms + " ms"@)) + " | "@ + ("Logical Reads: "@ + s.logical_reads) + " | "@ + ("Physical Reads: "@ + s.physical_reads) + " | "@ + "Writes:"@);
        lemma_parts_3_blank(st.cur, s);
    }
}

proof fn lemma_detail_line_4(st: SnapshotParseState, s: SessionSnapView)
    requires
        exportable_session(s),
        st.in_session,
        s.dop.len() == 0 ==> st.cur.dop == Seq::<char>::empty(),
    ensures
        snapshot_line_step(st, ("Row Count: "@ + s.row_count) + " | "@ + ("Open Trans: "@ + s.open_trans) + " | "@ + ("DOP: "@ + s.dop)) == (SnapshotParseState { cur: SessionSnapView { row_count: s.row_count, open_trans: s.open_trans, dop: s.dop, ..st.cur }, ..st }),
{
    let bar = " | "@;
    if s.dop.len() > 0 {
        let rest = (s.row_count) + bar + ("Open Trans: "@ + s.open_trans) + bar + ("DOP: "@ + s.dop);
        assert(("Row Count: "@ + s.row_count) + " | "@ + ("Open Trans: "@ + s.open_trans) + " | "@ + ("DOP: "@ + s.dop) =~= "Row Count: "@ + rest);
        assert(rest.last() == s.dop.last());
        lemma_detail_step_4(st, rest);
        lemma_parts_4(st.cur, s);
    } else {
        let rest = (s.row_count) + bar + ("Open Trans: "@ + s.open_trans) + bar + "DOP:"@;
        let raw = "Row Count: "@ + ((s.row_count) + bar + ("Open Trans: "@ + s.open_trans) + bar + ("DOP: "@ + s.dop));
        assert(s.dop =~= Seq::<char>::empty());
        reveal_strlit("Row Count: ");
        reveal_strlit("DOP: ");
        reveal_strlit("DOP:");
        assert(raw.drop_last() =~= "Row Count: "@ + rest);
        assert(raw.last() == ' ' && rest.last() == ':');
        assert(trim_end(raw) == trim_end(raw.drop_last()));
        assert(snapshot_line_step(st, raw) == snapshot_line_step(st, raw.drop_last()));
        assert(st.cur.dop == s.dop);
        assert(("Row Count: "@ + s.row_count) + " | "@ + ("Open Trans: "@ + s.open_trans) + " | "@ + ("DOP: "@ + s.dop) =~= raw);
        lemma_detail_step_4(st, rest);
        assert("Row Count: "@ + rest =~= ("Row Count: "@ + s.row_count) + " | "@ + ("Open Trans: "@ + s.open_trans) + " | "@ + "DOP:"@);
        lemma_parts_4_blank(st.cur, s);
    }
}

proof fn lemma_detail_line_5(st: SnapshotParseState, s: SessionSnapView)
    requires
        exportable_session(s),
        st.in_session,
        s.db_name.len() == 0 ==> st.cur.db_name == Seq::<char>::empty(),
    ensures
        snapshot_line_step(st, ("Client Address: "@ + s.client_address) + " | "@ + ("Login Name: "@ + s.login_name) + " | "@ + ("DB Name: "@ + s.db_name)) == (SnapshotParseState { cur: SessionSnapView { client_address: s.client_address, login_name: s.login_name, db_name: s.db_name, ..st.cur }, ..st }),
{
    let bar = " | "@;
    if s.db_name.len() > 0 {
        let rest = (s.client_address) + bar + ("Login Name: "@ + s.login_name) + bar + ("DB Name: "@ + s.db_name);
        assert(("Client Address: "@ + s.client_address) + " | "@ + ("Login Name: "@ + s.login_name) + " | "@ + ("DB Name: "@ + s.db_name) =~= "Client Address: "@ + rest);
        assert(rest.last() == s.db_name.last());
        lemma_detail_step_5(st, rest);
        lemma_parts_5(st.cur, s);
    } else {
        let rest = (s.client_address) + bar + ("Login Name: "@ + s.login_name) + bar + "DB Name:"@;
        let raw = "Client Address: "@ + ((s.client_address) + bar + ("Login Name: "@ + s.login_name) + bar + ("DB Name: "@ + s.db_name));
        assert(s.db_name =~= Seq::<char>::empty());
        reveal_strlit("Client Address: ");
        reveal_strlit("DB Name: ");
        reveal_strlit("DB Name:");
        assert(raw.drop_last() =~= "Client Address: "@ + rest);
        assert(raw.last() == ' ' && rest.last() == ':');
        assert(trim_end(raw) == trim_end(raw.drop_last()));
        assert(snapshot_line_step(st, raw) == snapshot_line_step(st, raw.drop_last()));
        assert(st.cur.db_name == s.db_name);
        assert(("Client Address: "@ + s.client_address) + " | "@ + ("Login Name: "@ + s.login_name) + " | "@ + ("DB Name: "@ + s.db_name) =~= raw);
        lemma_detail_step_5(st, rest);
        assert("Client Address: "@ + rest =~= ("Client Address: "@ + s.client_address) + " | "@ + ("Login Name: "@ + s.login_name) + " | "@ + "DB Name:"@);
        lemma_parts_5_blank(st.cur, s);
    }
}

proof fn lemma_detail_line_6(st: SnapshotParseState, s: SessionSnapView)
    requires
        exportable_session(s),
        st.in_session,
        s.start_time.len() == 0 ==> st.cur.start_time == Seq::<char>::empty(),
    ensures
        snapshot_line_step(st, ("Command: "@ + s.command) + " | "@ + ("Start Time: "@ + s.start_time)) == (SnapshotParseState { cur: SessionSnapView { command: s.command, start_time: s.start_time, ..st.cur }, ..st }),
{
    let bar = " | "@;
    if s.start_time.len() > 0 {
        let rest = (s.command) + bar + ("Start Time: "@ + s.start_time);
        assert(("Command: "@ + s.command) + " | "@ + ("Start Time: "@ + s.start_time) =~= "Command: "@ + rest);
        assert(rest.last() == s.start_time.last());
        lemma_detail_step_6(st, rest);
        lemma_parts_6(st.cur, s);
    } else {
        let rest = (s.command) + bar + "Start Time:"@;
        let raw = "Command: "@ + ((s.command) + bar + ("Start Time: "@ + s.start_time));
        assert(s.start_time =~= Seq::<char>::empty());
        reveal_strlit("Command: ");
        reveal_strlit("Start Time: ");
        reveal_strlit("Start Time:");
        assert(raw.drop_last() =~= "Command: "@ + rest);
        assert(raw.last() == ' ' && rest.last() == ':');
        assert(trim_end(raw) == trim_end(raw.drop_last()));
        assert(snapshot_line_step(st, raw) == snapshot_line_step(st, raw.drop_last()));
        assert(st.cur.start_time == s.start_time);
        assert(("Command: "@ + s.command) + " | "@ + ("Start Time: "@ + s.start_time) =~= raw);
        lemma_detail_step_6(st, rest);
        assert("Command: "@ + rest =~= ("Command: "@ + s.command) + " | "@ + "Start Time:"@);
        lemma_parts_6_blank(st.cur, s);
    }
}

proof fn lemma_fold_from_push(st: SnapshotParseState, a: Seq<Seq<char>>, x: Seq<char>)
    ensures
        snapshot_fold_from(st, a.push(x)) == snapshot_line_step(snapshot_fold_from(st, a), x),
{
    assert(a.push(x).drop_last() =~= a);
}

/// The lines of a statement, as the viewer gathers them back: each added to
/// the text before it after a line feed, the first to empty text as it is.
spec fn extend_lines(text: Seq<char>, x: Seq<Seq<char>>) -> Seq<char>
    decreases x.len(),
{
    if x.len() == 0 {
        text
    } else {
        extend_line(extend_lines(text, x.drop_last()), x.last())
    }
}

/// Statement lines that the viewer takes as statement text, line by line.
proof fn lemma_statement_lines_fold(st: SnapshotParseState, x: Seq<Seq<char>>)
    requires
        st.in_session,
        st.sql_state == 1 || st.sql_state == 2,
        forall|i: int| 0 <= i < x.len() ==> statement_line(#[trigger] x[i]),
    ensures
        snapshot_fold_from(st, x) == (if st.sql_state == 1 {
            SnapshotParseState {
                cur: SessionSnapView { executing_sql: extend_lines(st.cur.executing_sql, x), ..st.cur },
                ..st
            }
        } else {
            SnapshotParseState {
                cur: SessionSnapView { parent_batch_sql: extend_lines(st.cur.parent_batch_sql, x), ..st.cur },
                ..st
            }
        }),
    decreases x.len(),
{
    if x.len() > 0 {
        assert forall|i: int| 0 <= i < x.drop_last().len() implies statement_line(#[trigger] x.drop_last()[i]) by {
            assert(x.drop_last()[i] == x[i]);
        }
        lemma_statement_lines_fold(st, x.drop_last());
        assert(statement_line(x[x.len() - 1]));
        lemma_statement_step(snapshot_fold_from(st, x.drop_last()), x.last());
    }
}

/// Gathered back from empty text, the lines of a statement whose first line is
/// not empty give the statement.
proof fn lemma_extend_lines_text(x: Seq<Seq<char>>)
    requires
        x.len() >= 1,
        x.len() == 1 || x[0].len() > 0,
    ensures
        extend_lines(seq![], x) == lines_text(x),
    decreases x.len(),
{
    if x.len() == 1 {
        assert(x.drop_last() =~= Seq::<Seq<char>>::empty());
        assert(extend_lines(seq![], x.drop_last()) == Seq::<char>::empty());
        assert(x.last() == x[0]);
        assert(lines_text(x) == x[0]);
    } else {
        let a = x.drop_last();
        assert(a[0] == x[0]);
        lemma_extend_lines_text(a);
        lemma_lines_text_starts(a);
        lemma_lines_text_push(a, x.last());
        assert(a.push(x.last()) =~= x);
        assert(extend_lines(seq![], x) == extend_line(lines_text(a), x.last()));
        assert(lines_text(a).len() > 0);
    }
}

/// The text of lines begins with the first line.
proof fn lemma_lines_text_starts(a: Seq<Seq<char>>)
    requires
        a.len() >= 1,
    ensures
        lines_text(a).len() >= a[0].len(),
{
    if a.len() > 1 {
        assert(lines_text(a) == a[0] + seq!['\n'] + lines_text(a.drop_first()));
    }
}

/// A statement, read line by line into empty text, gives itself back.
proof fn lemma_statement_text_fold(st: SnapshotParseState, v: Seq<char>)
    requires
        st.in_session,
        st.sql_state == 1 ==> st.cur.executing_sql == Seq::<char>::empty(),
        st.sql_state == 2 ==> st.cur.parent_batch_sql == Seq::<char>::empty(),
        st.sql_state == 1 || st.sql_state == 2,
        statement_text(v),
        v.len() == 0 || !char_is_whitespace(v[0]),
    ensures
        snapshot_fold_from(st, split(v, seq!['\n'])) == (if st.sql_state == 1 {
            SnapshotParseState { cur: SessionSnapView { executing_sql: v, ..st.cur }, ..st }
        } else {
            SnapshotParseState { cur: SessionSnapView { parent_batch_sql: v, ..st.cur }, ..st }
        }),
{
    let x = split(v, seq!['\n']);
    lemma_split_lines(v);
    lemma_statement_lines_fold(st, x);
    if x.len() > 1 {
        if x[0].len() == 0 {
            assert(lines_text(x) == x[0] + seq!['\n'] + lines_text(x.drop_first()));
            assert(v[0] == '\n');
        }
    }
    lemma_extend_lines_text(x);
}

/// The rows of a request as the export writes them and as the viewer reads
/// them give the same text.
proof fn lemma_block_rows_lines(n: int, s: SessionSnapView)
    ensures
        lines_text_nl(export_block_rows(n, s) + seq![seq![]]) == lines_text_nl(export_block_lines(n, s) + seq![seq![]]),
{
    let rows = export_block_rows(n, s);
    let r9 = rows.take(9);
    let es = trim(s.executing_sql);
    let pb = trim(s.parent_batch_sql);
    let xe = split(es, seq!['\n']);
    let xp = split(pb, seq!['\n']);
    let lp = seq!["Parent Batch SQL:"@];
    let e = seq![Seq::<char>::empty()];
    assert(rows + e =~= r9 + seq![es] + lp + seq![pb] + e);
    assert(export_block_lines(n, s) + e =~= r9 + xe + lp + xp + e);
    lemma_lines_text_nl_append(r9, seq![es]);
    lemma_lines_text_nl_append(r9 + seq![es], lp);
    lemma_lines_text_nl_append(r9 + seq![es] + lp, seq![pb]);
    lemma_lines_text_nl_append(r9 + seq![es] + lp + seq![pb], e);
    lemma_lines_text_nl_append(r9, xe);
    lemma_lines_text_nl_append(r9 + xe, lp);
    lemma_lines_text_nl_append(r9 + xe + lp, xp);
    lemma_lines_text_nl_append(r9 + xe + lp + xp, e);
    lemma_split_lines(es);
    lemma_split_lines(pb);
    lemma_lines_text_nl(xe);
    lemma_lines_text_nl(xp);
    lemma_lines_text_nl(seq![es]);
    lemma_lines_text_nl(seq![pb]);
}

proof fn lemma_block_fold(st: SnapshotParseState, n: int, s: SessionSnapView)
    requires
        exportable_session(s),
    ensures
        snapshot_fold_from(st, export_block_lines(n, s)) == (SnapshotParseState {
            snap: if st.in_session {
                SnapshotView { sessions: st.snap.sessions.push(st.cur), ..st.snap }
            } else {
                st.snap
            },
            cur: read_back_session(st.counter, s, false),
            in_session: true,
            sql_state: 2,
            counter: st.counter + 1,
        }),
        trim(s.parent_batch_sql).len() == 0 ==> snapshot_fold_from(st, export_block_lines(n, s).drop_last())
            == snapshot_fold_from(st, export_block_lines(n, s)),
{
    let c = export_block_lines(n, s);
    let rows = export_block_rows(n, s);
    let es = trim(s.executing_sql);
    let pb = trim(s.parent_batch_sql);
    let xe = split(es, seq!['\n']);
    let xp = split(pb, seq!['\n']);
    let lp = seq!["Parent Batch SQL:"@];
    let p0 = Seq::<Seq<char>>::empty();
    let p1 = p0.push(rows[0]);
    let p2 = p1.push(rows[1]);
    let p3 = p2.push(rows[2]);
    let p4 = p3.push(rows[3]);
    let p5 = p4.push(rows[4]);
    let p6 = p5.push(rows[5]);
    let p7 = p6.push(rows[6]);
    let p8 = p7.push(rows[7]);
    let p9 = p8.push(rows[8]);
    assert(rows.take(9) =~= p9);
    assert(c == p9 + xe + lp + xp);
    lemma_fold_from_push(st, p0, rows[0]);
    lemma_fold_from_push(st, p1, rows[1]);
    lemma_fold_from_push(st, p2, rows[2]);
    lemma_fold_from_push(st, p3, rows[3]);
    lemma_fold_from_push(st, p4, rows[4]);
    lemma_fold_from_push(st, p5, rows[5]);
    lemma_fold_from_push(st, p6, rows[6]);
    lemma_fold_from_push(st, p7, rows[7]);
    lemma_fold_from_push(st, p8, rows[8]);
    assert(rows[0] == "--- [Session "@ + int_decimal(n) + "] ---"@);
    lemma_begin_step(st, n);
    lemma_detail_line_0(snapshot_fold_from(st, p1), s);
    lemma_detail_line_1(snapshot_fold_from(st, p2), s);
    lemma_detail_line_2(snapshot_fold_from(st, p3), s);
    lemma_detail_line_3(snapshot_fold_from(st, p4), s);
    lemma_detail_line_4(snapshot_fold_from(st, p5), s);
    lemma_detail_line_5(snapshot_fold_from(st, p6), s);
    lemma_detail_line_6(snapshot_fold_from(st, p7), s);
    assert(rows[8] == "Executing SQL:"@);
    lemma_label_step_exec(snapshot_fold_from(st, p8));
    let s9 = snapshot_fold_from(st, p9);
    lemma_trim_ends(s.executing_sql);
    lemma_trim_ends(s.parent_batch_sql);
    lemma_statement_text_fold(s9, es);
    lemma_snap_fold_from_append(st, p9, xe);
    let s10 = snapshot_fold_from(s9, xe);
    lemma_label_step_batch(s10);
    assert(p0.push("Parent Batch SQL:"@) =~= lp);
    lemma_fold_from_push(s10, p0, "Parent Batch SQL:"@);
    lemma_snap_fold_from_append(st, p9 + xe, lp);
    let s11 = snapshot_fold_from(s10, lp);
    lemma_statement_text_fold(s11, pb);
    lemma_snap_fold_from_append(st, p9 + xe + lp, xp);
    if pb.len() == 0 {
        let e = Seq::<char>::empty();
        lemma_lacks_no_occurrence(e, seq!['\n'], 0);
        lemma_split_whole(e, seq!['\n']);
        assert(pb =~= e);
        assert(xp == seq![e]);
        assert(c.drop_last() =~= p9 + xe + lp);
        assert(s11.cur.parent_batch_sql == e);
        assert(s11.cur == SessionSnapView { parent_batch_sql: pb, ..s11.cur });
    }
}

#[verifier::spinoff_prover]
#[verifier::rlimit(30)]
proof fn lemma_head_fold(st: SnapshotParseState, d: SnapshotView)
    requires
        !st.in_session,
        exportable_header(d),
        d.capture_time.len() == 0 ==> st.snap.capture_time == Seq::<char>::empty(),
        d.workers.len() == 0 ==> st.snap.workers == Seq::<char>::empty(),
        d.logical_connections.len() == 0 ==> st.snap.logical_connections == Seq::<char>::empty(),
        d.ple.len() == 0 ==> st.snap.ple == Seq::<char>::empty(),
        d.active_temp_tables.len() == 0 ==> st.snap.active_temp_tables == Seq::<char>::empty(),
        d.transactions.len() == 0 ==> st.snap.transactions == Seq::<char>::empty(),
        d.request_sessions_count.len() == 0 ==> st.snap.request_sessions_count == Seq::<char>::empty(),
    ensures
        snapshot_fold_from(st, export_head_lines(d)) == (SnapshotParseState { snap: SnapshotView { server: d.server, capture_time: d.capture_time, workers: d.workers, logical_connections: d.logical_connections, ple: d.ple, active_temp_tables: d.active_temp_tables, transactions: d.transactions, request_sessions_count: d.request_sessions_count, ..st.snap }, ..st }),
{
    let c = export_head_lines(d);
    assert(c.len() == 12);
    assert(c.take(0) =~= Seq::<Seq<char>>::empty());
    assert(c.take(1).drop_last() =~= c.take(0));
    assert(c.take(1).last() == c[0]);
    assert(c.take(2).drop_last() =~= c.take(1));
    assert(c.take(2).last() == c[1]);
    assert(c.take(3).drop_last() =~= c.take(2));
    assert(c.take(3).last() == c[2]);
    assert(c.take(4).drop_last() =~= c.take(3));
    assert(c.take(4).last() == c[3]);
    assert(c.take(5).drop_last() =~= c.take(4));
    assert(c.take(5).last() == c[4]);
    assert(c.take(6).drop_last() =~= c.take(5));
    assert(c.take(6).last() == c[5]);
    assert(c.take(7).drop_last() =~= c.take(6));
    assert(c.take(7).last() == c[6]);
    assert(c.take(8).drop_last() =~= c.take(7));
    assert(c.take(8).last() == c[7]);
    assert(c.take(9).drop_last() =~= c.take(8));
    assert(c.take(9).last() == c[8]);
    assert(c.take(10).drop_last() =~= c.take(9));
    assert(c.take(10).last() == c[9]);
    assert(c.take(11).drop_last() =~= c.take(10));
    assert(c.take(11).last() == c[10]);
    assert(c.take(12).drop_last() =~= c.take(11));
    assert(c.take(12).last() == c[11]);
    assert(snapshot_fold_from(st, c.take(0)) == st);
    lemma_head_step_0(snapshot_fold_from(st, c.take(0)), d.server);
    let s1 = snapshot_fold_from(st, c.take(1));
    assert(s1 == snapshot_line_step(st, c[0]));
    assert(!s1.in_session && s1.snap.capture_time == st.snap.capture_time && s1.snap.workers == st.snap.workers);
    if d.capture_time.len() == 0 {
        assert(d.capture_time =~= Seq::<char>::empty());
    }
    lemma_head_step_1(s1, d.capture_time);
    let s2 = snapshot_fold_from(st, c.take(2));
    assert(s2 == snapshot_line_step(s1, c[1]));
    lemma_fixed_step_dash(s2);
    let s3 = snapshot_fold_from(st, c.take(3));
    assert(s3 == snapshot_line_step(s2, c[2]));
    assert(!s3.in_session && s3.snap.workers == st.snap.workers);
    if d.workers.len() == 0 {
        assert(d.workers =~= Seq::<char>::empty());
    }
    lemma_head_step_2(s3, d.workers);
    assert("Logical Connections: "@.len() == 21 && "Logical Connections: "@[19] == ':') by {
        reveal_strlit("Logical Connections: ");
    }
    let t4 = snapshot_fold_from(st, c.take(4));
    assert(t4 == snapshot_line_step(snapshot_fold_from(st, c.take(3)), c[3]));
    assert(!t4.in_session && t4.snap.logical_connections == st.snap.logical_connections);
    if d.logical_connections.len() == 0 {
        assert(d.logical_connections =~= Seq::<char>::empty());
    }
    lemma_head_step_3(t4, d.logical_connections);
    assert("Page Life Expectancy: "@.len() == 22 && "Page Life Expectancy: "@[20] == ':') by {
        reveal_strlit("Page Life Expectancy: ");
    }
    let t5 = snapshot_fold_from(st, c.take(5));
    assert(t5 == snapshot_line_step(snapshot_fold_from(st, c.take(4)), c[4]));
    assert(!t5.in_session && t5.snap.ple == st.snap.ple);
    if d.ple.len() == 0 {
        assert(d.ple =~= Seq::<char>::empty());
    }
    lemma_head_step_4(t5, d.ple);
    assert("Active Temp Tables: "@.len() == 20 && "Active Temp Tables: "@[18] == ':') by {
        reveal_strlit("Active Temp Tables: ");
    }
    let t6 = snapshot_fold_from(st, c.take(6));
    assert(t6 == snapshot_line_step(snapshot_fold_from(st, c.take(5)), c[5]));
    assert(!t6.in_session && t6.snap.active_temp_tables == st.snap.active_temp_tables);
    if d.active_temp_tables.len() == 0 {
        assert(d.active_temp_tables =~= Seq::<char>::empty());
    }
    lemma_head_step_5(t6, d.active_temp_tables);
    assert("Transactions: "@.len() == 14 && "Transactions: "@[12] == ':') by {
        reveal_strlit("Transactions: ");
    }
    let t7 = snapshot_fold_from(st, c.take(7));
    assert(t7 == snapshot_line_step(snapshot_fold_from(st, c.take(6)), c[6]));
    assert(!t7.in_session && t7.snap.transactions == st.snap.transactions);
    if d.transactions.len() == 0 {
        assert(d.transactions =~= Seq::<char>::empty());
    }
    lemma_head_step_6(t7, d.transactions);
    assert("Request Sessions: "@.len() == 18 && "Request Sessions: "@[16] == ':') by {
        reveal_strlit("Request Sessions: ");
    }
    let t8 = snapshot_fold_from(st, c.take(8));
    assert(t8 == snapshot_line_step(snapshot_fold_from(st, c.take(7)), c[7]));
    assert(!t8.in_session && t8.snap.request_sessions_count == st.snap.request_sessions_count);
    if d.request_sessions_count.len() == 0 {
        assert(d.request_sessions_count =~= Seq::<char>::empty());
    }
    lemma_head_step_7(t8, d.request_sessions_count);
    lemma_fixed_step_dash(snapshot_fold_from(st, c.take(9)));
    lemma_fixed_step_captured(snapshot_fold_from(st, c.take(10)));
    lemma_fixed_step_blank(snapshot_fold_from(st, c.take(11)));
    assert(c.take(12) =~= c);
}

proof fn lemma_head_text_0(d: SnapshotView)
    ensures
        export_header(d) == separator_line() + seq!['\n'] + lines_text_nl(export_head_lines(d).subrange(0, 3)),
{
    let c = export_head_lines(d).subrange(0, 3);
    assert(c.len() == 3);
    assert(c.subrange(0, 3).drop_first() =~= c.subrange(1, 3));
    assert(lines_text_nl(c.subrange(0, 3)) == c[0] + seq!['\n'] + lines_text_nl(c.subrange(1, 3)));
    assert(c.subrange(1, 3).drop_first() =~= c.subrange(2, 3));
    assert(lines_text_nl(c.subrange(1, 3)) == c[1] + seq!['\n'] + lines_text_nl(c.subrange(2, 3)));
    assert(c.subrange(2, 3).drop_first() =~= c.subrange(3, 3));
    assert(lines_text_nl(c.subrange(2, 3)) == c[2] + seq!['\n'] + lines_text_nl(c.subrange(3, 3)));
    assert(lines_text_nl(c.subrange(3, 3)) == Seq::<char>::empty());
    assert(c.subrange(0, 3) =~= c);
    reveal(export_header);
    reveal_strlit("--------------------------------------------------");
    reveal_strlit("==================================================");
    reveal_strlit("Capture Time: ");
    reveal_strlit("Server: ");
    reveal_strlit("\n");
    assert(export_header(d) =~= separator_line() + seq!['\n'] + c[0] + seq!['\n'] + c[1] + seq!['\n'] + c[2] + seq!['\n']);
}

proof fn lemma_head_text_1(d: SnapshotView)
    ensures
        export_figures(d) == lines_text_nl(export_head_lines(d).subrange(3, 7)),
{
    let c = export_head_lines(d).subrange(3, 7);
    assert(c.len() == 4);
    assert(c.subrange(0, 4).drop_first() =~= c.subrange(1, 4));
    assert(lines_text_nl(c.subrange(0, 4)) == c[0] + seq!['\n'] + lines_text_nl(c.subrange(1, 4)));
    assert(c.subrange(1, 4).drop_first() =~= c.subrange(2, 4));
    assert(lines_text_nl(c.subrange(1, 4)) == c[1] + seq!['\n'] + lines_text_nl(c.subrange(2, 4)));
    assert(c.subrange(2, 4).drop_first() =~= c.subrange(3, 4));
    assert(lines_text_nl(c.subrange(2, 4)) == c[2] + seq!['\n'] + lines_text_nl(c.subrange(3, 4)));
    assert(c.subrange(3, 4).drop_first() =~= c.subrange(4, 4));
    assert(lines_text_nl(c.subrange(3, 4)) == c[3] + seq!['\n'] + lines_text_nl(c.subrange(4, 4)));
    assert(lines_text_nl(c.subrange(4, 4)) == Seq::<char>::empty());
    assert(c.subrange(0, 4) =~= c);
    reveal(export_figures);
    reveal_strlit("Active Temp Tables: ");
    reveal_strlit("Logical Connections: ");
    reveal_strlit("Page Life Expectancy: ");
    reveal_strlit("Workers: ");
    reveal_strlit("\n");
    assert(export_figures(d) =~= c[0] + seq!['\n'] + c[1] + seq!['\n'] + c[2] + seq!['\n'] + c[3] + seq!['\n']);
}

proof fn lemma_head_text_2(d: SnapshotView)
    ensures
        export_activity(d) == lines_text_nl(export_head_lines(d).subrange(7, 9)),
{
    let c = export_head_lines(d).subrange(7, 9);
    assert(c.len() == 2);
    assert(c.subrange(0, 2).drop_first() =~= c.subrange(1, 2));
    assert(lines_text_nl(c.subrange(0, 2)) == c[0] + seq!['\n'] + lines_text_nl(c.subrange(1, 2)));
    assert(c.subrange(1, 2).drop_first() =~= c.subrange(2, 2));
    assert(lines_text_nl(c.subrange(1, 2)) == c[1] + seq!['\n'] + lines_text_nl(c.subrange(2, 2)));
    assert(lines_text_nl(c.subrange(2, 2)) == Seq::<char>::empty());
    assert(c.subrange(0, 2) =~= c);
    reveal(export_activity);
    reveal_strlit("Request Sessions: ");
    reveal_strlit("Transactions: ");
    reveal_strlit("\n");
    assert(export_activity(d) =~= c[0] + seq!['\n'] + c[1] + seq!['\n']);
}

proof fn lemma_head_text_3(d: SnapshotView)
    ensures
        dash_line() + "\n"@ + "Captured Sessions Details:\n\n"@ == lines_text_nl(export_head_lines(d).subrange(9, 12)),
{
    let c = export_head_lines(d).subrange(9, 12);
    assert(c.len() == 3);
    assert(c.subrange(0, 3).drop_first() =~= c.subrange(1, 3));
    assert(lines_text_nl(c.subrange(0, 3)) == c[0] + seq!['\n'] + lines_text_nl(c.subrange(1, 3)));
    assert(c.subrange(1, 3).drop_first() =~= c.subrange(2, 3));
    assert(lines_text_nl(c.subrange(1, 3)) == c[1] + seq!['\n'] + lines_text_nl(c.subrange(2, 3)));
    assert(c.subrange(2, 3).drop_first() =~= c.subrange(3, 3));
    assert(lines_text_nl(c.subrange(2, 3)) == c[2] + seq!['\n'] + lines_text_nl(c.subrange(3, 3)));
    assert(lines_text_nl(c.subrange(3, 3)) == Seq::<char>::empty());
    assert(c.subrange(0, 3) =~= c);
    reveal_strlit("--------------------------------------------------");
    reveal_strlit("Captured Sessions Details:");
    reveal_strlit("Captured Sessions Details:\n\n");
    reveal_strlit("\n");
    assert(dash_line() + "\n"@ + "Captured Sessions Details:\n\n"@ =~= c[0] + seq!['\n'] + c[1] + seq!['\n'] + c[2] + seq!['\n']);
}

proof fn lemma_block_text_0(n: int, s: SessionSnapView)
    ensures
        "--- [Session "@ + int_decimal(n) + "] ---\n"@ == lines_text_nl((export_block_rows(n, s) + seq![seq![]]).subrange(0, 1)),
{
    let all = export_block_rows(n, s) + seq![seq![]];
    assert(all.len() == 13);
    assert(all[0] == export_block_rows(n, s)[0]);
    let c = all.subrange(0, 1);
    assert(c.len() == 1);
    assert(c.subrange(0, 1).drop_first() =~= c.subrange(1, 1));
    assert(lines_text_nl(c.subrange(0, 1)) == c[0] + seq!['\n'] + lines_text_nl(c.subrange(1, 1)));
    assert(lines_text_nl(c.subrange(1, 1)) == Seq::<char>::empty());
    assert(c.subrange(0, 1) =~= c);
    reveal_strlit("--- [Session ");
    reveal_strlit("\n");
    reveal_strlit("] ---");
    reveal_strlit("] ---\n");
    assert("--- [Session "@ + int_decimal(n) + "] ---\n"@ =~= c[0] + seq!['\n']);
}

proof fn lemma_block_text_1(n: int, s: SessionSnapView)
    ensures
        export_spid_line(s) == lines_text_nl((export_block_rows(n, s) + seq![seq![]]).subrange(1, 2)),
{
    let all = export_block_rows(n, s) + seq![seq![]];
    assert(all.len() == 13);
    assert(all[1] == export_block_rows(n, s)[1]);
    let c = all.subrange(1, 2);
    assert(c.len() == 1);
    assert(c.subrange(0, 1).drop_first() =~= c.subrange(1, 1));
    assert(lines_text_nl(c.subrange(0, 1)) == c[0] + seq!['\n'] + lines_text_nl(c.subrange(1, 1)));
    assert(lines_text_nl(c.subrange(1, 1)) == Seq::<char>::empty());
    assert(c.subrange(0, 1) =~= c);
    reveal(export_spid_line);
    reveal_strlit(" ms");
    reveal_strlit(" ms | Status: ");
    reveal_strlit(" | ");
    reveal_strlit(" | Elapsed Time: ");
    reveal_strlit("Elapsed Time: ");
    reveal_strlit("SPID: ");
    reveal_strlit("Status: ");
    reveal_strlit("\n");
    assert(export_spid_line(s) =~= c[0] + seq!['\n']);
}

proof fn lemma_block_text_2(n: int, s: SessionSnapView)
    ensures
        export_wait_lines(s) == lines_text_nl((export_block_rows(n, s) + seq![seq![]]).subrange(2, 4)),
{
    let all = export_block_rows(n, s) + seq![seq![]];
    assert(all.len() == 13);
    assert(all[2] == export_block_rows(n, s)[2]);
    assert(all[3] == export_block_rows(n, s)[3]);
    let c = all.subrange(2, 4);
    assert(c.len() == 2);
    assert(c.subrange(0, 2).drop_first() =~= c.subrange(1, 2));
    assert(lines_text_nl(c.subrange(0, 2)) == c[0] + seq!['\n'] + lines_text_nl(c.subrange(1, 2)));
    assert(c.subrange(1, 2).drop_first() =~= c.subrange(2, 2));
    assert(lines_text_nl(c.subrange(1, 2)) == c[1] + seq!['\n'] + lines_text_nl(c.subrange(2, 2)));
    assert(lines_text_nl(c.subrange(2, 2)) == Seq::<char>::empty());
    assert(c.subrange(0, 2) =~= c);
    reveal(export_wait_lines);
    reveal_strlit(" (");
    reveal_strlit(" ms)");
    reveal_strlit(" ms) | Last Wait: ");
    reveal_strlit(" | ");
    reveal_strlit(" | Blocking SPID: ");
    reveal_strlit("Blocking SPID: ");
    reveal_strlit("Last Wait: ");
    reveal_strlit("Wait Resource: ");
    reveal_strlit("Wait Type: ");
    reveal_strlit("\n");
    assert(export_wait_lines(s) =~= c[0] + seq!['\n'] + c[1] + seq!['\n']);
}

proof fn lemma_block_text_3(n: int, s: SessionSnapView)
    ensures
        export_io_line(s) == lines_text_nl((export_block_rows(n, s) + seq![seq![]]).subrange(4, 5)),
{
    let all = export_block_rows(n, s) + seq![seq![]];
    assert(all.len() == 13);
    assert(all[4] == export_block_rows(n, s)[4]);
    let c = all.subrange(4, 5);
    assert(c.len() == 1);
    assert(c.subrange(0, 1).drop_first() =~= c.subrange(1, 1));
    assert(lines_text_nl(c.subrange(0, 1)) == c[0] + seq!['\n'] + lines_text_nl(c.subrange(1, 1)));
    assert(lines_text_nl(c.subrange(1, 1)) == Seq::<char>::empty());
    assert(c.subrange(0, 1) =~= c);
    reveal(export_io_line);
    reveal_strlit(" ms");
    reveal_strlit(" ms | Logical Reads: ");
    reveal_strlit(" | ");
    reveal_strlit(" | Physical Reads: ");
    reveal_strlit(" | Writes: ");
    reveal_strlit("CPU Time: ");
    reveal_strlit("Logical Reads: ");
    reveal_strlit("Physical Reads: ");
    reveal_strlit("Writes: ");
    reveal_strlit("\n");
    assert(export_io_line(s) =~= c[0] + seq!['\n']);
}

proof fn lemma_block_text_4(n: int, s: SessionSnapView)
    ensures
        export_rows_line(s) == lines_text_nl((export_block_rows(n, s) + seq![seq![]]).subrange(5, 6)),
{
    let all = export_block_rows(n, s) + seq![seq![]];
    assert(all.len() == 13);
    assert(all[5] == export_block_rows(n, s)[5]);
    let c = all.subrange(5, 6);
    assert(c.len() == 1);
    assert(c.subrange(0, 1).drop_first() =~= c.subrange(1, 1));
    assert(lines_text_nl(c.subrange(0, 1)) == c[0] + seq!['\n'] + lines_text_nl(c.subrange(1, 1)));
    assert(lines_text_nl(c.subrange(1, 1)) == Seq::<char>::empty());
    assert(c.subrange(0, 1) =~= c);
    reveal(export_rows_line);
    reveal_strlit(" | ");
    reveal_strlit(" | DOP: ");
    reveal_strlit(" | Open Trans: ");
    reveal_strlit("DOP: ");
    reveal_strlit("Open Trans: ");
    reveal_strlit("Row Count: ");
    reveal_strlit("\n");
    assert(export_rows_line(s) =~= c[0] + seq!['\n']);
}

proof fn lemma_block_text_5(n: int, s: SessionSnapView)
    ensures
        export_client_lines(s) == lines_text_nl((export_block_rows(n, s) + seq![seq![]]).subrange(6, 8)),
{
    let all = export_block_rows(n, s) + seq![seq![]];
    assert(all.len() == 13);
    assert(all[6] == export_block_rows(n, s)[6]);
    assert(all[7] == export_block_rows(n, s)[7]);
    let c = all.subrange(6, 8);
    assert(c.len() == 2);
    assert(c.subrange(0, 2).drop_first() =~= c.subrange(1, 2));
    assert(lines_text_nl(c.subrange(0, 2)) == c[0] + seq!['\n'] + lines_text_nl(c.subrange(1, 2)));
    assert(c.subrange(1, 2).drop_first() =~= c.subrange(2, 2));
    assert(lines_text_nl(c.subrange(1, 2)) == c[1] + seq!['\n'] + lines_text_nl(c.subrange(2, 2)));
    assert(lines_text_nl(c.subrange(2, 2)) == Seq::<char>::empty());
    assert(c.subrange(0, 2) =~= c);
    reveal(export_client_lines);
    reveal_strlit(" | ");
    reveal_strlit(" | DB Name: ");
    reveal_strlit(" | Login Name: ");
    reveal_strlit(" | Start Time: ");
    reveal_strlit("Client Address: ");
    reveal_strlit("Command: ");
    reveal_strlit("DB Name: ");
    reveal_strlit("Login Name: ");
    reveal_strlit("Start Time: ");
    reveal_strlit("\n");
    assert(export_client_lines(s) =~= c[0] + seq!['\n'] + c[1] + seq!['\n']);
}

proof fn lemma_block_text_6(n: int, s: SessionSnapView)
    ensures
        export_sql_lines(s) == lines_text_nl((export_block_rows(n, s) + seq![seq![]]).subrange(8, 13)),
{
    let all = export_block_rows(n, s) + seq![seq![]];
    assert(all.len() == 13);
    assert(all[8] == export_block_rows(n, s)[8]);
    assert(all[9] == export_block_rows(n, s)[9]);
    assert(all[10] == export_block_rows(n, s)[10]);
    assert(all[11] == export_block_rows(n, s)[11]);
    assert(all[12] == Seq::<char>::empty());
    let c = all.subrange(8, 13);
    assert(c.len() == 5);
    assert(c.subrange(0, 5).drop_first() =~= c.subrange(1, 5));
    assert(lines_text_nl(c.subrange(0, 5)) == c[0] + seq!['\n'] + lines_text_nl(c.subrange(1, 5)));
    assert(c.subrange(1, 5).drop_first() =~= c.subrange(2, 5));
    assert(lines_text_nl(c.subrange(1, 5)) == c[1] + seq!['\n'] + lines_text_nl(c.subrange(2, 5)));
    assert(c.subrange(2, 5).drop_first() =~= c.subrange(3, 5));
    assert(lines_text_nl(c.subrange(2, 5)) == c[2] + seq!['\n'] + lines_text_nl(c.subrange(3, 5)));
    assert(c.subrange(3, 5).drop_first() =~= c.subrange(4, 5));
    assert(lines_text_nl(c.subrange(3, 5)) == c[3] + seq!['\n'] + lines_text_nl(c.subrange(4, 5)));
    assert(c.subrange(4, 5).drop_first() =~= c.subrange(5, 5));
    assert(lines_text_nl(c.subrange(4, 5)) == c[4] + seq!['\n'] + lines_text_nl(c.subrange(5, 5)));
    assert(lines_text_nl(c.subrange(5, 5)) == Seq::<char>::empty());
    assert(c.subrange(0, 5) =~= c);
    reveal(export_sql_lines);
    reveal_strlit("Executing SQL:");
    reveal_strlit("Executing SQL:\n");
    reveal_strlit("Parent Batch SQL:");
    reveal_strlit("Parent Batch SQL:\n");
    reveal_strlit("\n");
    reveal_strlit("\n\n");
    assert(export_sql_lines(s) =~= c[0] + seq!['\n'] + c[1] + seq!['\n'] + c[2] + seq!['\n'] + c[3] + seq!['\n'] + c[4] + seq!['\n']);
}

proof fn lemma_detail_plain_0(s: SessionSnapView)
    requires
        exportable_session(s),
    ensures
        lacks(("SPID: "@ + s.spid) + " | "@ + ("Elapsed Time: "@ + (s.elapsed + " ms"@)) + " | "@ + ("Status: "@ + s.status), '\n'),
        (("SPID: "@ + s.spid) + " | "@ + ("Elapsed Time: "@ + (s.elapsed + " ms"@)) + " | "@ + ("Status: "@ + s.status)).last() != '\r',
{
    assert(lacks(" ms"@, '\n') && lacks(" | "@, '\n') && lacks("Elapsed Time: "@, '\n') && lacks("SPID: "@, '\n') && lacks("Status: "@, '\n')) by {
        reveal_strlit(" ms");
        reveal_strlit(" | ");
        reveal_strlit("Elapsed Time: ");
        reveal_strlit("SPID: ");
        reveal_strlit("Status: ");
    }
    lemma_lacks_cat("SPID: "@, s.spid, '\n');
    lemma_lacks_cat(s.elapsed, " ms"@, '\n');
    lemma_lacks_cat("Elapsed Time: "@, (s.elapsed + " ms"@), '\n');
    lemma_lacks_cat("Status: "@, s.status, '\n');
    lemma_lacks_cat(("SPID: "@ + s.spid), " | "@, '\n');
    lemma_lacks_cat(("SPID: "@ + s.spid) + " | "@, ("Elapsed Time: "@ + (s.elapsed + " ms"@)), '\n');
    lemma_lacks_cat(("SPID: "@ + s.spid) + " | "@ + ("Elapsed Time: "@ + (s.elapsed + " ms"@)), " | "@, '\n');
    lemma_lacks_cat(("SPID: "@ + s.spid) + " | "@ + ("Elapsed Time: "@ + (s.elapsed + " ms"@)) + " | "@, ("Status: "@ + s.status), '\n');
    let line = ("SPID: "@ + s.spid) + " | "@ + ("Elapsed Time: "@ + (s.elapsed + " ms"@)) + " | "@ + ("Status: "@ + s.status);
    reveal_strlit("Status: ");
    if s.status.len() > 0 {
        assert(line.last() == s.status[s.status.len() - 1]);
    } else {
        assert(("Status: "@ + s.status) =~= "Status: "@);
        assert(line.last() == ' ');
    }
}

proof fn lemma_detail_plain_1(s: SessionSnapView)
    requires
        exportable_session(s),
    ensures
        lacks(("Wait Type: "@ + (s.wait_type + " ("@ + s.wait_time_ms + " ms)"@)) + " | "@ + ("Last Wait: "@ + s.last_wait_type), '\n'),
        (("Wait Type: "@ + (s.wait_type + " ("@ + s.wait_time_ms + " ms)"@)) + " | "@ + ("Last Wait: "@ + s.last_wait_type)).last() != '\r',
{
    assert(lacks(" ("@, '\n') && lacks(" ms)"@, '\n') && lacks(" | "@, '\n') && lacks("Last Wait: "@, '\n') && lacks("Wait Type: "@, '\n')) by {
        reveal_strlit(" (");
        reveal_strlit(" ms)");
        reveal_strlit(" | ");
        reveal_strlit("Last Wait: ");
        reveal_strlit("Wait Type: ");
    }
    lemma_lacks_cat(s.wait_type, " ("@, '\n');
    lemma_lacks_cat(s.wait_type + " ("@, s.wait_time_ms, '\n');
    lemma_lacks_cat(s.wait_type + " ("@ + s.wait_time_ms, " ms)"@, '\n');
    lemma_lacks_cat("Wait Type: "@, (s.wait_type + " ("@ + s.wait_time_ms + " ms)"@), '\n');
    lemma_lacks_cat("Last Wait: "@, s.last_wait_type, '\n');
    lemma_lacks_cat(("Wait Type: "@ + (s.wait_type + " ("@ + s.wait_time_ms + " ms)"@)), " | "@, '\n');
    lemma_lacks_cat(("Wait Type: "@ + (s.wait_type + " ("@ + s.wait_time_ms + " ms)"@)) + " | "@, ("Last Wait: "@ + s.last_wait_type), '\n');
    let line = ("Wait Type: "@ + (s.wait_type + " ("@ + s.wait_time_ms + " ms)"@)) + " | "@ + ("Last Wait: "@ + s.last_wait_type);
    reveal_strlit("Last Wait: ");
    if s.last_wait_type.len() > 0 {
        assert(line.last() == s.last_wait_type[s.last_wait_type.len() - 1]);
    } else {
        assert(("Last Wait: "@ + s.last_wait_type) =~= "Last Wait: "@);
        assert(line.last() == ' ');
    }
}

proof fn lemma_detail_plain_2(s: SessionSnapView)
    requires
        exportable_session(s),
    ensures
        lacks(("Wait Resource: "@ + s.wait_resource) + " | "@ + ("Blocking SPID: "@ + s.blocking_spid), '\n'),
        (("Wait Resource: "@ + s.wait_resource) + " | "@ + ("Blocking SPID: "@ + s.blocking_spid)).last() != '\r',
{
    assert(lacks(" | "@, '\n') && lacks("Blocking SPID: "@, '\n') && lacks("Wait Resource: "@, '\n')) by {
        reveal_strlit(" | ");
        reveal_strlit("Blocking SPID: ");
        reveal_strlit("Wait Resource: ");
    }
    lemma_lacks_cat("Wait Resource: "@, s.wait_resource, '\n');
    lemma_lacks_cat("Blocking SPID: "@, s.blocking_spid, '\n');
    lemma_lacks_cat(("Wait Resource: "@ + s.wait_resource), " | "@, '\n');
    lemma_lacks_cat(("Wait Resource: "@ + s.wait_resource) + " | "@, ("Blocking SPID: "@ + s.blocking_spid), '\n');
    let line = ("Wait Resource: "@ + s.wait_resource) + " | "@ + ("Blocking SPID: "@ + s.blocking_spid);
    reveal_strlit("Blocking SPID: ");
    if s.blocking_spid.len() > 0 {
        assert(line.last() == s.blocking_spid[s.blocking_spid.len() - 1]);
    } else {
        assert(("Blocking SPID: "@ + s.blocking_spid) =~= "Blocking SPID: "@);
        assert(line.last() == ' ');
    }
}

proof fn lemma_detail_plain_3(s: SessionSnapView)
    requires
        exportable_session(s),
    ensures
        lacks(("CPU Time: "@ + (s.cpu_time_ms + " ms"@)) + " | "@ + ("Logical Reads: "@ + s.logical_reads) + " | "@ + ("Physical Reads: "@ + s.physical_reads) + " | "@ + ("Writes: "@ + s.writes), '\n'),
        (("CPU Time: "@ + (s.cpu_time_ms + " ms"@)) + " | "@ + ("Logical Reads: "@ + s.logical_reads) + " | "@ + ("Physical Reads: "@ + s.physical_reads) + " | "@ + ("Writes: "@ + s.writes)).last() != '\r',
{
    assert(lacks(" ms"@, '\n') && lacks(" | "@, '\n') && lacks("CPU Time: "@, '\n') && lacks("Logical Reads: "@, '\n') && lacks("Physical Reads: "@, '\n') && lacks("Writes: "@, '\n')) by {
        reveal_strlit(" ms");
        reveal_strlit(" | ");
        reveal_strlit("CPU Time: ");
        reveal_strlit("Logical Reads: ");
        reveal_strlit("Physical Reads: ");
        reveal_strlit("Writes: ");
    }
    lemma_lacks_cat(s.cpu_time_ms, " ms"@, '\n');
    lemma_lacks_cat("CPU Time: "@, (s.cpu_time_ms + " ms"@), '\n');
    lemma_lacks_cat("Logical Reads: "@, s.logical_reads, '\n');
    lemma_lacks_cat("Physical Reads: "@, s.physical_reads, '\n');
    lemma_lacks_cat("Writes: "@, s.writes, '\n');
    lemma_lacks_cat(("CPU Time: "@ + (s.cpu_time_ms + " ms"@)), " | "@, '\n');
    lemma_lacks_cat(("CPU Time: "@ + (s.cpu_time_ms + " ms"@)) + " | "@, ("Logical Reads: "@ + s.logical_reads), '\n');
    lemma_lacks_cat(("CPU Time: "@ + (s.cpu_time_ms + " ms"@)) + " | "@ + ("Logical Reads: "@ + s.logical_reads), " | "@, '\n');
    lemma_lacks_cat(("CPU Time: "@ + (s.cpu_time_ms + " ms"@)) + " | "@ + ("Logical Reads: "@ + s.logical_reads) + " | "@, ("Physical Reads: "@ + s.physical_reads), '\n');
    lemma_lacks_cat(("CPU Time: "@ + (s.cpu_time_ms + " ms"@)) + " | "@ + ("Logical Reads: "@ + s.logical_reads) + " | "@ + ("Physical Reads: "@ + s.physical_reads), " | "@, '\n');
    lemma_lacks_cat(("CPU Time: "@ + (s.cpu_time_ms + " ms"@)) + " | "@ + ("Logical Reads: "@ + s.logical_reads) + " | "@ + ("Physical Reads: "@ + s.physical_reads) + " | "@, ("Writes: "@ + s.writes), '\n');
    let line = ("CPU Time: "@ + (s.cpu_time_ms + " ms"@)) + " | "@ + ("Logical Reads: "@ + s.logical_reads) + " | "@ + ("Physical Reads: "@ + s.physical_reads) + " | "@ + ("Writes: "@ + s.writes);
    reveal_strlit("Writes: ");
    if s.writes.len() > 0 {
        assert(line.last() == s.writes[s.writes.len() - 1]);
    } else {
        assert(("Writes: "@ + s.writes) =~= "Writes: "@);
        assert(line.last() == ' ');
    }
}

proof fn lemma_detail_plain_4(s: SessionSnapView)
    requires
        exportable_session(s),
    ensures
        lacks(("Row Count: "@ + s.row_count) + " | "@ + ("Open Trans: "@ + s.open_trans) + " | "@ + ("DOP: "@ + s.dop), '\n'),
        (("Row Count: "@ + s.row_count) + " | "@ + ("Open Trans: "@ + s.open_trans) + " | "@ + ("DOP: "@ + s.dop)).last() != '\r',
{
    assert(lacks(" | "@, '\n') && lacks("DOP: "@, '\n') && lacks("Open Trans: "@, '\n') && lacks("Row Count: "@, '\n')) by {
        reveal_strlit(" | ");
        reveal_strlit("DOP: ");
        reveal_strlit("Open Trans: ");
        reveal_strlit("Row Count: ");
    }
    lemma_lacks_cat("Row Count: "@, s.row_count, '\n');
    lemma_lacks_cat("Open Trans: "@, s.open_trans, '\n');
    lemma_lacks_cat("DOP: "@, s.dop, '\n');
    lemma_lacks_cat(("Row Count: "@ + s.row_count), " | "@, '\n');
    lemma_lacks_cat(("Row Count: "@ + s.row_count) + " | "@, ("Open Trans: "@ + s.open_trans), '\n');
    lemma_lacks_cat(("Row Count: "@ + s.row_count) + " | "@ + ("Open Trans: "@ + s.open_trans), " | "@, '\n');
    lemma_lacks_cat(("Row Count: "@ + s.row_count) + " | "@ + ("Open Trans: "@ + s.open_trans) + " | "@, ("DOP: "@ + s.dop), '\n');
    let line = ("Row Count: "@ + s.row_count) + " | "@ + ("Open Trans: "@ + s.open_trans) + " | "@ + ("DOP: "@ + s.dop);
    reveal_strlit("DOP: ");
    if s.dop.len() > 0 {
        assert(line.last() == s.dop[s.dop.len() - 1]);
    } else {
        assert(("DOP: "@ + s.dop) =~= "DOP: "@);
        assert(line.last() == ' ');
    }
}

proof fn lemma_detail_plain_5(s: SessionSnapView)
    requires
        exportable_session(s),
    ensures
        lacks(("Client Address: "@ + s.client_address) + " | "@ + ("Login Name: "@ + s.login_name) + " | "@ + ("DB Name: "@ + s.db_name), '\n'),
        (("Client Address: "@ + s.client_address) + " | "@ + ("Login Name: "@ + s.login_name) + " | "@ + ("DB Name: "@ + s.db_name)).last() != '\r',
{
    assert(lacks(" | "@, '\n') && lacks("Client Address: "@, '\n') && lacks("DB Name: "@, '\n') && lacks("Login Name: "@, '\n')) by {
        reveal_strlit(" | ");
        reveal_strlit("Client Address: ");
        reveal_strlit("DB Name: ");
        reveal_strlit("Login Name: ");
    }
    lemma_lacks_cat("Client Address: "@, s.client_address, '\n');
    lemma_lacks_cat("Login Name: "@, s.login_name, '\n');
    lemma_lacks_cat("DB Name: "@, s.db_name, '\n');
    lemma_lacks_cat(("Client Address: "@ + s.client_address), " | "@, '\n');
    lemma_lacks_cat(("Client Address: "@ + s.client_address) + " | "@, ("Login Name: "@ + s.login_name), '\n');
    lemma_lacks_cat(("Client Address: "@ + s.client_address) + " | "@ + ("Login Name: "@ + s.login_name), " | "@, '\n');
    lemma_lacks_cat(("Client Address: "@ + s.client_address) + " | "@ + ("Login Name: "@ + s.login_name) + " | "@, ("DB Name: "@ + s.db_name), '\n');
    let line = ("Client Address: "@ + s.client_address) + " | "@ + ("Login Name: "@ + s.login_name) + " | "@ + ("DB Name: "@ + s.db_name);
    reveal_strlit("DB Name: ");
    if s.db_name.len() > 0 {
        assert(line.last() == s.db_name[s.db_name.len() - 1]);
    } else {
        assert(("DB Name: "@ + s.db_name) =~= "DB Name: "@);
        assert(line.last() == ' ');
    }
}

proof fn lemma_detail_plain_6(s: SessionSnapView)
    requires
        exportable_session(s),
    ensures
        lacks(("Command: "@ + s.command) + " | "@ + ("Start Time: "@ + s.start_time), '\n'),
        (("Command: "@ + s.command) + " | "@ + ("Start Time: "@ + s.start_time)).last() != '\r',
{
    assert(lacks(" | "@, '\n') && lacks("Command: "@, '\n') && lacks("Start Time: "@, '\n')) by {
        reveal_strlit(" | ");
        reveal_strlit("Command: ");
        reveal_strlit("Start Time: ");
    }
    lemma_lacks_cat("Command: "@, s.command, '\n');
    lemma_lacks_cat("Start Time: "@, s.start_time, '\n');
    lemma_lacks_cat(("Command: "@ + s.command), " | "@, '\n');
    lemma_lacks_cat(("Command: "@ + s.command) + " | "@, ("Start Time: "@ + s.start_time), '\n');
    let line = ("Command: "@ + s.command) + " | "@ + ("Start Time: "@ + s.start_time);
    reveal_strlit("Start Time: ");
    if s.start_time.len() > 0 {
        assert(line.last() == s.start_time[s.start_time.len() - 1]);
    } else {
        assert(("Start Time: "@ + s.start_time) =~= "Start Time: "@);
        assert(line.last() == ' ');
    }
}

proof fn lemma_block_text(n: int, s: SessionSnapView)
    ensures
        export_session_block(n, s) == lines_text_nl(export_block_lines(n, s) + seq![seq![]]),
{
    lemma_block_rows_lines(n, s);
    let all = export_block_rows(n, s) + seq![seq![]];
    assert(all.len() == 13);
    lemma_block_text_0(n, s);
    lemma_block_text_1(n, s);
    lemma_block_text_2(n, s);
    lemma_block_text_3(n, s);
    lemma_block_text_4(n, s);
    lemma_block_text_5(n, s);
    lemma_block_text_6(n, s);
    let a0 = all.subrange(0, 1);
    let a1 = all.subrange(1, 2);
    let a2 = all.subrange(2, 4);
    let a3 = all.subrange(4, 5);
    let a4 = all.subrange(5, 6);
    let a5 = all.subrange(6, 8);
    let a6 = all.subrange(8, 13);
    assert(all =~= a0 + a1 + a2 + a3 + a4 + a5 + a6);
    lemma_lines_text_nl_append(a0, a1);
    lemma_lines_text_nl_append(a0 + a1, a2);
    lemma_lines_text_nl_append(a0 + a1 + a2, a3);
    lemma_lines_text_nl_append(a0 + a1 + a2 + a3, a4);
    lemma_lines_text_nl_append(a0 + a1 + a2 + a3 + a4, a5);
    lemma_lines_text_nl_append(a0 + a1 + a2 + a3 + a4 + a5, a6);
}

proof fn lemma_requests_text(ss: Seq<SessionSnapView>)
    ensures
        export_sessions_text(ss) == lines_text_nl(export_request_lines(ss)),
    decreases ss.len(),
{
    if ss.len() > 0 {
        lemma_requests_text(ss.drop_last());
        let a = export_request_lines(ss.drop_last());
        let b = export_block_lines(ss.len() as int, ss.last()) + seq![seq![]];
        assert(export_request_lines(ss) =~= a + b);
        lemma_lines_text_nl_append(a, b);
        lemma_block_text(ss.len() as int, ss.last());
    }
}

proof fn lemma_block_plain(n: int, s: SessionSnapView)
    requires
        exportable_session(s),
    ensures
        plain_lines(export_block_lines(n, s)),
        plain_lines(export_block_lines(n, s) + seq![seq![]]),
{
    let c = export_block_rows(n, s);
    assert(lacks(c[0], '\n') && lacks(c[0], '\r')) by {
        reveal_strlit("--- [Session ");
        reveal_strlit("] ---");
        lemma_decimal_lacks(n, '\n');
        lemma_decimal_lacks(n, '\r');
        lemma_lacks_cat("--- [Session "@, int_decimal(n), '\n');
        lemma_lacks_cat("--- [Session "@ + int_decimal(n), "] ---"@, '\n');
        lemma_lacks_cat("--- [Session "@, int_decimal(n), '\r');
        lemma_lacks_cat("--- [Session "@ + int_decimal(n), "] ---"@, '\r');
    }
    lemma_detail_plain_0(s);
    lemma_detail_plain_1(s);
    lemma_detail_plain_2(s);
    lemma_detail_plain_3(s);
    lemma_detail_plain_4(s);
    lemma_detail_plain_5(s);
    lemma_detail_plain_6(s);
    assert(lacks(c[8], '\n') && lacks(c[8], '\r') && lacks(c[10], '\n') && lacks(c[10], '\r')) by {
        reveal_strlit("Executing SQL:");
        reveal_strlit("Parent Batch SQL:");
    }
    let r9 = c.take(9);
    assert forall|i: int| 0 <= i < r9.len() implies lacks(#[trigger] r9[i], '\n') && !(r9[i].len() > 0 && r9[i].last()
        == '\r') by {
        assert(r9[i] == c[i]);
        if i == 0 || i == 8 {
            assert(lacks(c[i], '\r'));
            if c[i].len() > 0 {
                assert(c[i][c[i].len() - 1] != '\r');
            }
        }
    }
    let lp = seq!["Parent Batch SQL:"@];
    assert(plain_lines(lp)) by {
        assert(lp[0] == c[10]);
        if lp[0].len() > 0 {
            assert(lp[0][lp[0].len() - 1] != '\r');
        }
    }
    lemma_statement_plain(trim(s.executing_sql));
    lemma_statement_plain(trim(s.parent_batch_sql));
    let xe = split(trim(s.executing_sql), seq!['\n']);
    let xp = split(trim(s.parent_batch_sql), seq!['\n']);
    lemma_plain_lines_append(r9, xe);
    lemma_plain_lines_append(r9 + xe, lp);
    lemma_plain_lines_append(r9 + xe + lp, xp);
    assert(export_block_lines(n, s) == r9 + xe + lp + xp);
    let e = seq![Seq::<char>::empty()];
    assert(plain_lines(e)) by {
        assert(lacks(e[0], '\n'));
    }
    lemma_plain_lines_append(export_block_lines(n, s), e);
}

/// The lines of a statement that the viewer takes line by line are plain.
proof fn lemma_statement_plain(v: Seq<char>)
    requires
        statement_text(v),
    ensures
        plain_lines(split(v, seq!['\n'])),
{
    let x = split(v, seq!['\n']);
    lemma_split_lines(v);
    assert forall|i: int| 0 <= i < x.len() implies lacks(#[trigger] x[i], '\n') && !(x[i].len() > 0 && x[i].last()
        == '\r') by {
        assert(statement_line(x[i]));
        if x[i].len() > 0 && char_is_whitespace(x[i].last()) {
            lemma_trim_end_shorter(x[i].drop_last());
            assert(trim_end(x[i]) == trim_end(x[i].drop_last()));
        }
    }
}

/// Trimming the end never lengthens text.
proof fn lemma_trim_end_shorter(s: Seq<char>)
    ensures
        trim_end(s).len() <= s.len(),
    decreases s.len(),
{
    if s.len() > 0 && char_is_whitespace(s.last()) {
        lemma_trim_end_shorter(s.drop_last());
    }
}

proof fn lemma_requests_plain(ss: Seq<SessionSnapView>)
    requires
        forall|i: int| 0 <= i < ss.len() ==> exportable_session(#[trigger] ss[i]),
    ensures
        plain_lines(export_request_lines(ss)),
    decreases ss.len(),
{
    if ss.len() == 0 {
        assert(plain_lines(Seq::<Seq<char>>::empty()));
    } else {
        assert(exportable_session(ss[ss.len() - 1]));
        assert forall|i: int| 0 <= i < ss.drop_last().len() implies exportable_session(#[trigger] ss.drop_last()[i]) by {
            assert(ss.drop_last()[i] == ss[i]);
        }
        lemma_requests_plain(ss.drop_last());
        lemma_block_plain(ss.len() as int, ss.last());
        let a = export_request_lines(ss.drop_last());
        let b = export_block_lines(ss.len() as int, ss.last()) + seq![seq![]];
        assert(export_request_lines(ss) =~= a + b);
        lemma_plain_lines_append(a, b);
    }
}

proof fn lemma_head_plain(d: SnapshotView)
    requires
        exportable_header(d),
    ensures
        plain_lines(export_head_lines(d)),
{
    let c = export_head_lines(d);
    reveal_strlit("Server: ");
    reveal_strlit("Capture Time: ");
    reveal_strlit("Workers: ");
    reveal_strlit("Logical Connections: ");
    reveal_strlit("Page Life Expectancy: ");
    reveal_strlit("Active Temp Tables: ");
    reveal_strlit("Transactions: ");
    reveal_strlit("Request Sessions: ");
    reveal_strlit("--------------------------------------------------");
    reveal_strlit("Captured Sessions Details:");
    lemma_lacks_cat("Server: "@, d.server, '\n');
    lemma_lacks_cat("Capture Time: "@, d.capture_time, '\n');
    lemma_lacks_cat("Workers: "@, d.workers, '\n');
    lemma_lacks_cat("Logical Connections: "@, d.logical_connections, '\n');
    lemma_lacks_cat("Page Life Expectancy: "@, d.ple, '\n');
    lemma_lacks_cat("Active Temp Tables: "@, d.active_temp_tables, '\n');
    lemma_lacks_cat("Transactions: "@, d.transactions, '\n');
    lemma_lacks_cat("Request Sessions: "@, d.request_sessions_count, '\n');
    assert forall|i: int| 0 <= i < c.len() implies lacks(#[trigger] c[i], '\n') && !(c[i].len() > 0 && c[i].last()
        == '\r') by {
        if i == 0 {
            assert(c[0].last() == d.server.last());
        } else if i == 1 {
            if d.capture_time.len() > 0 {
                assert(c[1].last() == d.capture_time.last());
            } else {
                assert(c[1] =~= "Capture Time: "@);
            }
        } else if i == 3 {
            if d.workers.len() > 0 {
                assert(c[3].last() == d.workers.last());
            } else {
                assert(c[3] =~= "Workers: "@);
            }
        } else if i == 4 {
            if d.logical_connections.len() > 0 {
                assert(c[4].last() == d.logical_connections.last());
            } else {
                assert(c[4] =~= "Logical Connections: "@);
            }
        } else if i == 5 {
            if d.ple.len() > 0 {
                assert(c[5].last() == d.ple.last());
            } else {
                assert(c[5] =~= "Page Life Expectancy: "@);
            }
        } else if i == 6 {
            if d.active_temp_tables.len() > 0 {
                assert(c[6].last() == d.active_temp_tables.last());
            } else {
                assert(c[6] =~= "Active Temp Tables: "@);
            }
        } else if i == 7 {
            if d.transactions.len() > 0 {
                assert(c[7].last() == d.transactions.last());
            } else {
                assert(c[7] =~= "Transactions: "@);
            }
        } else if i == 8 {
            if d.request_sessions_count.len() > 0 {
                assert(c[8].last() == d.request_sessions_count.last());
            } else {
                assert(c[8] =~= "Request Sessions: "@);
            }
        } else {
            assert(lacks(c[i], '\r'));
            if c[i].len() > 0 {
                assert(c[i][c[i].len() - 1] != '\r');
            }
        }
    }
}

/// The state after the header lines of a snapshot, before its requests.
spec fn head_state(d: SnapshotView) -> SnapshotParseState {
    SnapshotParseState {
        snap: SnapshotView {
            server: d.server,
            capture_time: d.capture_time,
            workers: d.workers,
            logical_connections: d.logical_connections,
            ple: d.ple,
            active_temp_tables: d.active_temp_tables,
            transactions: d.transactions,
            request_sessions_count: d.request_sessions_count,
            sessions: seq![],
        },
        cur: empty_snap_session(0),
        in_session: false,
        sql_state: 0,
        counter: 0,
    }
}

/// The state after the first `k` requests of `ss` and the blank line after each.
spec fn requests_state(d: SnapshotView, ss: Seq<SessionSnapView>, k: int) -> SnapshotParseState {
    if k == 0 {
        head_state(d)
    } else {
        SnapshotParseState {
            snap: SnapshotView {
                sessions: Seq::new((k - 1) as nat, |i: int| read_back_session(i, ss[i], true)),
                ..head_state(d).snap
            },
            cur: read_back_session(k - 1, ss[k - 1], true),
            in_session: true,
            sql_state: 2,
            counter: k,
        }
    }
}

proof fn lemma_requests_fold(d: SnapshotView, ss: Seq<SessionSnapView>, k: int)
    requires
        forall|i: int| 0 <= i < ss.len() ==> exportable_session(#[trigger] ss[i]),
        0 <= k <= ss.len(),
    ensures
        snapshot_fold_from(head_state(d), export_request_lines(ss.take(k))) == requests_state(d, ss, k),
    decreases k,
{
    if k == 0 {
        assert(ss.take(0) =~= Seq::<SessionSnapView>::empty());
    } else {
        lemma_requests_fold(d, ss, k - 1);
        let t = ss.take(k);
        assert(t.drop_last() =~= ss.take(k - 1));
        assert(t.last() == ss[k - 1]);
        assert(exportable_session(ss[k - 1]));
        let a = export_request_lines(ss.take(k - 1));
        let b = export_block_lines(k, ss[k - 1]);
        let e = Seq::<Seq<char>>::empty();
        assert(export_request_lines(t) == a + b + seq![seq![]]);
        lemma_snap_fold_from_append(head_state(d), a + b, seq![seq![]]);
        lemma_snap_fold_from_append(head_state(d), a, b);
        let st1 = requests_state(d, ss, k - 1);
        lemma_block_fold(st1, k, ss[k - 1]);
        let st2 = snapshot_fold_from(st1, b);
        lemma_blank_step_in_request(st2);
        assert(e.push(Seq::<char>::empty()) =~= seq![seq![]]);
        lemma_fold_from_push(st2, e, Seq::<char>::empty());
        if k > 1 {
            assert(st1.snap.sessions.push(st1.cur) =~= Seq::new(
                (k - 1) as nat,
                |i: int| read_back_session(i, ss[i], true),
            ));
        } else {
            assert(st1.snap.sessions =~= Seq::new((k - 1) as nat, |i: int| read_back_session(i, ss[i], true)));
        }
        assert(snapshot_fold_from(st1, b + seq![seq![]]) == snapshot_fold_from(st2, seq![seq![]])) by {
            lemma_snap_fold_from_append(st1, b, seq![seq![]]);
        }
        assert(snapshot_fold_from(head_state(d), a + b + seq![seq![]]) == snapshot_fold_from(
            snapshot_fold_from(head_state(d), a),
            b + seq![seq![]],
        )) by {
            lemma_snap_fold_from_append(head_state(d), a, b + seq![seq![]]);
            assert(a + b + seq![seq![]] =~= a + (b + seq![seq![]]));
        }
    }
}

/// The lines of an exported snapshot up to its last request.
spec fn export_all_lines(d: SnapshotView) -> Seq<Seq<char>> {
    export_head_lines(d) + export_request_lines(d.sessions.take(d.sessions.len() - 1)) + export_block_lines(
        d.sessions.len() as int,
        d.sessions.last(),
    )
}

/// The lines of the block that the viewer reads for an exported snapshot: the
/// block is trimmed, which drops the empty line of a blank last batch
/// statement.
spec fn export_read_lines(d: SnapshotView) -> Seq<Seq<char>> {
    if d.sessions.len() == 0 {
        export_head_lines(d) + seq!["No sessions captured under current filter criteria."@]
    } else if trim(d.sessions.last().parent_batch_sql).len() == 0 {
        export_all_lines(d).drop_last()
    } else {
        export_all_lines(d)
    }
}

#[verifier::spinoff_prover]
#[verifier::rlimit(30)]
proof fn lemma_export_shape(d: SnapshotView)
    ensures
        export_text(d) == separator_line() + export_body(d) + separator_line() + seq!['\n', '\n'],
{
    let h = export_head_lines(d);
    lemma_head_text_0(d);
    lemma_head_text_1(d);
    lemma_head_text_2(d);
    lemma_head_text_3(d);
    let h0 = h.subrange(0, 3);
    let h1 = h.subrange(3, 7);
    let h2 = h.subrange(7, 9);
    let h3 = h.subrange(9, 12);
    assert(h =~= h0 + h1 + h2 + h3);
    lemma_lines_text_nl_append(h0, h1);
    lemma_lines_text_nl_append(h0 + h1, h2);
    lemma_lines_text_nl_append(h0 + h1 + h2, h3);
    let x = if d.sessions.len() == 0 {
        seq!["No sessions captured under current filter criteria."@]
    } else {
        export_request_lines(d.sessions)
    };
    lemma_lines_text_nl_append(h, x);
    if d.sessions.len() == 0 {
        let nos = "No sessions captured under current filter criteria."@;
        assert(seq![nos].drop_first() =~= Seq::<Seq<char>>::empty());
        assert(lines_text_nl(seq![nos].drop_first()) == Seq::<char>::empty());
        reveal_strlit("No sessions captured under current filter criteria.\n");
        reveal_strlit("No sessions captured under current filter criteria.");
        assert("No sessions captured under current filter criteria.\n"@ =~= lines_text_nl(x));
    } else {
        lemma_requests_text(d.sessions);
    }
    reveal_strlit("\n\n");
    reveal_strlit("\n");
    assert(export_text(d) =~= separator_line() + export_body(d) + separator_line() + seq!['\n', '\n']);
}

proof fn lemma_trim_framed(s: Seq<char>, t: Seq<char>)
    requires
        trimmed_text(s),
        forall|i: int| 0 <= i < t.len() ==> t[i] == '\n',
    ensures
        trim(seq!['\n'] + s + t) == s,
{
    let u = seq!['\n'] + s + t;
    assert(u.drop_first() =~= s + t);
    assert(trim_start(u) == trim_start(s + t));
    assert((s + t)[0] == s[0]);
    assert(trim_start(s + t) == s + t);
    lemma_trim_end_line_feeds(s, t);
}

proof fn lemma_trim_end_line_feeds(s: Seq<char>, t: Seq<char>)
    requires
        trimmed_text(s),
        forall|i: int| 0 <= i < t.len() ==> t[i] == '\n',
    ensures
        trim_end(s + t) == s,
    decreases t.len(),
{
    if t.len() == 0 {
        assert(s + t =~= s);
    } else {
        assert((s + t).drop_last() =~= s + t.drop_last());
        assert((s + t).last() == '\n');
        lemma_trim_end_line_feeds(s, t.drop_last());
    }
}

#[verifier::spinoff_prover]
#[verifier::rlimit(80)]
proof fn lemma_export_block_reads(d: SnapshotView)
    requires
        exportable_snapshot(d),
    ensures
        trim(export_body(d)) == lines_text(export_read_lines(d)),
        lines(lines_text(export_read_lines(d))) == export_read_lines(d),
        export_body(d).len() > 0,
        export_body(d).last() == '\n',
{
    assert(exportable_header(d));
    let h = export_head_lines(d);
    let ss = d.sessions;
    let n = ss.len();
    let ls = export_read_lines(d);
    lemma_head_plain(d);
    assert(h[0][0] == 'S') by {
        reveal_strlit("Server: ");
    }
    if n == 0 {
        let nos = "No sessions captured under current filter criteria."@;
        assert(plain_lines(seq![nos]) && nos.len() > 0 && nos.last() == '.') by {
            reveal_strlit("No sessions captured under current filter criteria.");
        }
        lemma_plain_lines_append(h, seq![nos]);
        assert(ls.last() == nos);
        assert(ls[0] == h[0]);
        lemma_lines_text_ends(ls);
        lemma_lines_of_lines_text(ls);
        lemma_lines_text_nl(ls);
        assert(export_body(d) =~= seq!['\n'] + lines_text(ls) + seq!['\n']);
        lemma_trim_trimmed(lines_text(ls));
    } else {
        let a = export_request_lines(ss.take(n - 1));
        let b = export_block_lines(n as int, ss.last());
        assert(ss.take(n as int) =~= ss);
        assert(ss.drop_last() =~= ss.take(n - 1));
        assert(export_request_lines(ss) == a + b + seq![seq![]]);
        assert forall|i: int| 0 <= i < ss.take(n - 1).len() implies exportable_session(#[trigger] ss.take(n - 1)[i]) by {
            assert(ss.take(n - 1)[i] == ss[i]);
        }
        assert(exportable_session(ss[n - 1]));
        lemma_requests_plain(ss.take(n - 1));
        lemma_block_plain(n as int, ss.last());
        lemma_plain_lines_append(h, a);
        lemma_plain_lines_append(h + a, b);
        let full = export_all_lines(d);
        assert(full == h + a + b);
        assert(full.last() == b.last());
        let pb = trim(ss.last().parent_batch_sql);
        lemma_trim_ends(ss.last().parent_batch_sql);
        assert(full[0] == h[0]);
        assert(h + export_request_lines(ss) =~= full + seq![seq![]]);
        lemma_lines_text_nl_append(full, seq![seq![]]);
        lemma_lines_text_nl(full);
        assert(seq![Seq::<char>::empty()].drop_first() =~= Seq::<Seq<char>>::empty());
        assert(lines_text_nl(seq![Seq::<char>::empty()].drop_first()) == Seq::<char>::empty());
        assert(lines_text_nl(seq![Seq::<char>::empty()]) =~= seq!['\n']);
        assert(export_body(d) =~= seq!['\n'] + lines_text(full) + seq!['\n'] + seq!['\n']);
        if pb.len() > 0 {
            assert(ls == full);
            lemma_split_last_line(pb);
            assert(b.last() == split(pb, seq!['\n']).last());
            lemma_lines_text_ends(ls);
            lemma_lines_of_lines_text(ls);
            assert(seq!['\n'] + lines_text(ls) + seq!['\n'] + seq!['\n'] =~= seq!['\n'] + lines_text(ls) + seq![
                '\n',
                '\n',
            ]);
            lemma_trim_framed(lines_text(ls), seq!['\n', '\n']);
        } else {
            let e = Seq::<char>::empty();
            lemma_lacks_no_occurrence(e, seq!['\n'], 0);
            lemma_split_whole(e, seq!['\n']);
            assert(pb =~= e);
            assert(split(pb, seq!['\n']) == seq![e]);
            assert(b.last() == e);
            assert(ls == full.drop_last());
            assert(b.len() >= 2);
            assert(ls.last() == b[b.len() - 2]);
            assert(b[b.len() - 2] == "Parent Batch SQL:"@);
            assert(ls.last().len() > 0 && ls.last().last() == ':') by {
                reveal_strlit("Parent Batch SQL:");
            }
            assert(ls.len() >= 1 && ls[0] == h[0]);
            assert(plain_lines(ls)) by {
                assert forall|i: int| 0 <= i < ls.len() implies lacks(#[trigger] ls[i], '\n') && !(ls[i].len() > 0
                    && ls[i].last() == '\r') by {
                    assert(ls[i] == full[i]);
                }
            }
            lemma_lines_text_ends(ls);
            lemma_lines_of_lines_text(ls);
            assert(ls.push(e) =~= full);
            lemma_lines_text_push(ls, e);
            assert(seq!['\n'] + lines_text(full) + seq!['\n'] + seq!['\n'] =~= seq!['\n'] + lines_text(ls) + seq![
                '\n',
                '\n',
                '\n',
            ]);
            lemma_trim_framed(lines_text(ls), seq!['\n', '\n', '\n']);
        }
    }
}

#[verifier::spinoff_prover]
#[verifier::rlimit(40)]
proof fn lemma_export_block_fold(d: SnapshotView)
    requires
        exportable_snapshot(d),
    ensures
        snapshot_of_block(lines_text(export_read_lines(d))) == Some(read_back_snapshot(d)),
{
    let ls = export_read_lines(d);
    lemma_export_block_reads(d);
    let h = export_head_lines(d);
    let ss = d.sessions;
    let n = ss.len();
    lemma_snap_fold_from_start(ls);
    lemma_head_fold(block_start(), d);
    assert(snapshot_fold_from(block_start(), h) == head_state(d));
    if n == 0 {
        let nos = "No sessions captured under current filter criteria."@;
        lemma_snap_fold_from_append(block_start(), h, seq![nos]);
        lemma_fixed_step_none(head_state(d));
        assert(Seq::<Seq<char>>::empty().push(nos) =~= seq![nos]);
        lemma_fold_from_push(head_state(d), Seq::<Seq<char>>::empty(), nos);
        assert(read_back_snapshot(d).sessions =~= Seq::<SessionSnapView>::empty());
    } else {
        let a = export_request_lines(ss.take(n - 1));
        let b = export_block_lines(n as int, ss.last());
        let full = h + a + b;
        assert(export_all_lines(d) == full);
        lemma_snap_fold_from_append(block_start(), h + a, b);
        lemma_snap_fold_from_append(block_start(), h, a);
        if trim(ss.last().parent_batch_sql).len() == 0 {
            assert(b.len() >= 1);
            assert(ls == full.drop_last());
            assert(full.drop_last() =~= h + a + b.drop_last());
            lemma_snap_fold_from_append(block_start(), h + a, b.drop_last());
        } else {
            assert(ls == full);
        }
        lemma_requests_fold(d, ss, n - 1);
        let st1 = requests_state(d, ss, n - 1);
        assert(exportable_session(ss[n - 1]));
        lemma_block_fold(st1, n as int, ss.last());
        let st2 = snapshot_fold_from(st1, b);
        let expected = Seq::new(n, |i: int| read_back_session(i, ss[i], i + 1 < n));
        if n > 1 {
            assert(st1.snap.sessions.push(st1.cur) =~= Seq::new(
                (n - 1) as nat,
                |i: int| read_back_session(i, ss[i], true),
            ));
        }
        assert(st2.snap.sessions.push(st2.cur) =~= expected);
    }
}

/// An exported text whose block is read as `snap` is read as that snapshot
/// alone.
proof fn lemma_log_of_block(d: SnapshotView, snap: SnapshotView)
    requires
        export_body(d).len() > 0,
        export_body(d).last() == '\n',
        !contains(export_body(d), separator_line()),
        trim(export_body(d)).len() > 0,
        snapshot_of_block(trim(export_body(d))) == Some(snap),
    ensures
        parse_snapshot_log(export_text(d)) == seq![snap],
{
    let sep = separator_line();
    let body = export_body(d);
    let tail = seq!['\n', '\n'];
    let e = Seq::<char>::empty();
    lemma_export_shape(d);
    assert(sep.len() == 50 && lacks(sep, '\n') && sep[0] == '=') by {
        reveal_strlit("==================================================");
    }
    lemma_lacks_ends_before(e, sep, 0);
    assert(export_text(d) =~= e + sep + (body + sep + tail));
    lemma_split_head(e, sep, body + sep + tail);
    lemma_ends_before_by_last(body, sep);
    lemma_split_head(body, sep, tail);
    assert(lacks(tail, '='));
    lemma_lacks_no_occurrence(tail, sep, 0);
    lemma_split_whole(tail, sep);
    let blocks = seq![e] + (seq![body] + seq![tail]);
    assert(split(export_text(d), sep) == blocks);
    assert(blocks =~= seq![e, body, tail]);
    assert(trim_start(e) == e);
    assert(trim_end(e) == e);
    assert(trim(tail).len() == 0) by {
        assert(tail.drop_first() =~= seq!['\n']);
        assert(seq!['\n'].drop_first() =~= e);
        assert(trim_start(tail) == trim_start(seq!['\n']));
        assert(trim_start(seq!['\n']) == trim_start(e));
    }
    assert(trim(e).len() == 0);
    assert(seq![e, body, tail].drop_last() =~= seq![e, body]);
    assert(seq![e, body, tail].last() == tail);
    assert(seq![e, body].drop_last() =~= seq![e]);
    assert(seq![e, body].last() == body);
    assert(seq![e].drop_last() =~= Seq::<Seq<char>>::empty());
    assert(seq![e].last() == e);
    assert(snapshots_of_blocks(seq![e]) == snapshots_of_blocks(Seq::<Seq<char>>::empty()));
    assert(snapshots_of_blocks(seq![e]) =~= Seq::<SnapshotView>::empty());
    assert(trim(body).len() > 0);
    assert(snapshots_of_blocks(seq![e, body]) == seq![snap]);
    assert(snapshots_of_blocks(seq![e, body, tail]) == snapshots_of_blocks(seq![e, body]));
}

/// An exported snapshot, read back by the snapshot viewer, gives one snapshot:
/// the same figures, and the same requests at their positions with their
/// statements trimmed, statements of many lines included; each request but
/// the last also gets a line feed after its batch statement (the blank line
/// that separates it from the next). This holds for snapshots whose fields fit
/// their lines and whose statement lines the viewer keeps (see
/// [`exportable_snapshot`]), and whose text holds no separator line.
pub proof fn law_exported_snapshot_read_back(d: SnapshotView)
    requires
        exportable_snapshot(d),
        !contains(export_body(d), separator_line()),
    ensures
        parse_snapshot_log(export_text(d)) == seq![read_back_snapshot(d)],
{
    lemma_export_block_reads(d);
    lemma_export_block_fold(d);
    lemma_log_of_block(d, read_back_snapshot(d));
}

/// A request of the monitor as the snapshot log writes it: the numbers in
/// decimal, at position `i`.
pub open spec fn logged_session(i: int, s: SessionView) -> SessionSnapView {
    SessionSnapView {
        original_idx: i,
        spid: int_decimal(s.session_id),
        elapsed: int_decimal(s.elapsed_time_ms),
        status: s.status,
        wait_type: s.wait_type,
        wait_time_ms: int_decimal(s.wait_time_ms),
        last_wait_type: s.last_wait_type,
        wait_resource: s.wait_resource,
        blocking_spid: int_decimal(s.wait_session_id),
        cpu_time_ms: int_decimal(s.cpu_time_ms),
        logical_reads: int_decimal(s.logical_reads),
        physical_reads: int_decimal(s.physical_reads),
        writes: int_decimal(s.writes),
        row_count: int_decimal(s.row_count),
        open_trans: int_decimal(s.open_transaction_count),
        dop: int_decimal(s.dop),
        client_address: s.client_net_address,
        login_name: s.login_name,
        db_name: s.database_name,
        command: s.command,
        start_time: s.start_time,
        executing_sql: s.executing_sql,
        parent_batch_sql: s.parent_batch_sql,
    }
}

/// The requests of the monitor as the snapshot log writes them.
pub open spec fn logged_sessions(ss: Seq<SessionView>) -> Seq<SessionSnapView> {
    Seq::new(ss.len(), |i: int| logged_session(i, ss[i]))
}

/// A dashboard of server `server_id` as the snapshot log writes it: the worker
/// usage as "active / maximum (percent)", the counters in decimal.
pub open spec fn logged_snapshot(server_id: Seq<char>, d: DashboardView) -> SnapshotView {
    SnapshotView {
        server: server_id,
        capture_time: d.capture_time,
        workers: int_decimal(d.active_workers) + " / "@ + int_decimal(d.max_threads) + " ("@ + d.workers_percent + ")"@,
        logical_connections: int_decimal(d.conn_logical),
        ple: int_decimal(d.page_life_expectancy),
        active_temp_tables: int_decimal(d.active_temp_tables),
        transactions: int_decimal(d.transactions),
        request_sessions_count: int_decimal(d.raw_session_count),
        sessions: logged_sessions(d.sessions),
    }
}

proof fn lemma_logged_lines(i: int, s: SessionView)
    ensures
        spid_line(s) == export_spid_line(logged_session(i, s)),
        wait_line(s) + resource_line(s) == export_wait_lines(logged_session(i, s)),
        io_line(s) == export_io_line(logged_session(i, s)),
        rows_line(s) == export_rows_line(logged_session(i, s)),
        client_line(s) + command_line(s) == export_client_lines(logged_session(i, s)),
{
    let v = logged_session(i, s);
    assert(spid_line(s) == export_spid_line(v)) by {
        reveal(spid_line);
        reveal(export_spid_line);
    }
    assert(wait_line(s) + resource_line(s) =~= export_wait_lines(v)) by {
        reveal(wait_line);
        reveal(resource_line);
        reveal(export_wait_lines);
    }
    assert(io_line(s) == export_io_line(v)) by {
        reveal(io_line);
        reveal(export_io_line);
    }
    assert(rows_line(s) == export_rows_line(v)) by {
        reveal(rows_line);
        reveal(export_rows_line);
    }
    assert(client_line(s) + command_line(s) =~= export_client_lines(v)) by {
        reveal(client_line);
        reveal(command_line);
        reveal(export_client_lines);
    }
}

proof fn lemma_logged_block(n: int, i: int, s: SessionView)
    ensures
        session_block_text(n, s) == export_session_block(n, logged_session(i, s)),
{
    let v = logged_session(i, s);
    lemma_logged_lines(i, s);
    assert("Executing SQL:\n"@ + trim(s.executing_sql) + "\n"@ + "Parent Batch SQL:\n"@ + trim(s.parent_batch_sql)
        + "\n\n"@ == export_sql_lines(v)) by {
        reveal(export_sql_lines);
    }
    reveal(session_block_text);
    assert(session_block_text(n, s) =~= export_session_block(n, v));
}

proof fn lemma_logged_sessions_text(ss: Seq<SessionView>)
    ensures
        sessions_text(ss) == export_sessions_text(logged_sessions(ss)),
    decreases ss.len(),
{
    if ss.len() > 0 {
        lemma_logged_sessions_text(ss.drop_last());
        assert(logged_sessions(ss).drop_last() =~= logged_sessions(ss.drop_last()));
        assert(logged_sessions(ss).last() == logged_session(ss.len() - 1, ss.last()));
        lemma_logged_block(ss.len() as int, ss.len() - 1, ss.last());
    }
}

/// The snapshot log writes a dashboard in the layout that the export writes the
/// snapshot it stands for: the two texts are the same.
pub proof fn law_snapshot_log_is_export_layout(server_id: Seq<char>, d: DashboardView)
    ensures
        snapshot_log_text(server_id, d) == export_text(logged_snapshot(server_id, d)),
{
    let v = logged_snapshot(server_id, d);
    assert(snapshot_header(server_id, d) == export_header(v)) by {
        reveal(snapshot_header);
        reveal(export_header);
    }
    assert(snapshot_workers(d) + snapshot_counters(d) =~= export_figures(v)) by {
        reveal(snapshot_workers);
        reveal(snapshot_counters);
        reveal(export_figures);
        reveal_strlit(")\n");
        reveal_strlit(")");
        reveal_strlit("\n");
    }
    assert(snapshot_activity(d) == export_activity(v)) by {
        reveal(snapshot_activity);
        reveal(export_activity);
    }
    lemma_logged_sessions_text(d.sessions);
    assert(v.sessions.len() == d.sessions.len());
    assert(snapshot_log_text(server_id, d) =~= export_text(v));
}

/// A snapshot block that the monitor writes for a dashboard, read back by the
/// snapshot viewer, gives one snapshot: the server, the capture time, the
/// worker usage and counters as written, and each request with its fields at
/// its position (see [`law_exported_snapshot_read_back`] for the statements).
/// This holds where the written snapshot's fields fit their lines and its text
/// holds no separator line.
pub proof fn law_snapshot_log_read_back(server_id: Seq<char>, d: DashboardView)
    requires
        exportable_snapshot(logged_snapshot(server_id, d)),
        !contains(export_body(logged_snapshot(server_id, d)), separator_line()),
    ensures
        parse_snapshot_log(snapshot_log_text(server_id, d)) == seq![read_back_snapshot(logged_snapshot(server_id, d))],
{
    law_snapshot_log_is_export_layout(server_id, d);
    law_exported_snapshot_read_back(logged_snapshot(server_id, d));
}

/// Whether a line of a block, trimmed at its end, begins a request.
pub open spec fn request_start(l: Seq<char>) -> bool {
    starts_with(trim_end(l), "--- [Session "@)
}

/// A line that, trimmed at its end, begins with none of the labels of a
/// snapshot's header lines.
pub open spec fn header_neutral(l: Seq<char>) -> bool {
    let t = trim_end(l);
    &&& !starts_with(t, "Server: "@)
    &&& !starts_with(t, "Capture Time: "@)
    &&& !starts_with(t, "Workers: "@)
    &&& !starts_with(t, "Logical Connections: "@)
    &&& !starts_with(t, "Page Life Expectancy: "@)
    &&& !starts_with(t, "Active Temp Tables: "@)
    &&& !starts_with(t, "Transactions: "@)
    &&& !starts_with(t, "Request Sessions: "@)
}

/// The text of an exported request after its first line.
pub open spec fn request_body_text(s: SessionSnapView) -> Seq<char> {
    export_spid_line(s) + export_wait_lines(s) + export_io_line(s) + export_rows_line(s) + export_client_lines(s)
        + export_sql_lines(s)
}

/// A request whose text after its first line holds no line that the viewer
/// takes for a header line or for the start of another request.
pub open spec fn request_lines_neutral(s: SessionSnapView) -> bool {
    forall|i: int|
        0 <= i < lines(request_body_text(s)).len() ==> header_neutral(#[trigger] lines(request_body_text(s))[i])
            && !request_start(lines(request_body_text(s))[i])
}

/// Two snapshots with the same header fields.
pub open spec fn same_header(a: SnapshotView, b: SnapshotView) -> bool {
    &&& a.server == b.server
    &&& a.capture_time == b.capture_time
    &&& a.workers == b.workers
    &&& a.logical_connections == b.logical_connections
    &&& a.ple == b.ple
    &&& a.active_temp_tables == b.active_temp_tables
    &&& a.transactions == b.transactions
    &&& a.request_sessions_count == b.request_sessions_count
}

spec fn neutral_lines(x: Seq<Seq<char>>) -> bool {
    forall|i: int| 0 <= i < x.len() ==> header_neutral(#[trigger] x[i])
}

/// How many of the lines begin a request.
spec fn start_count(x: Seq<Seq<char>>) -> nat
    decreases x.len(),
{
    if x.len() == 0 {
        0
    } else {
        start_count(x.drop_last()) + if request_start(x.last()) {
            1nat
        } else {
            0nat
        }
    }
}

/// The requests read so far, the open one included.
spec fn open_count(st: SnapshotParseState) -> nat {
    st.snap.sessions.len() + if st.in_session {
        1nat
    } else {
        0nat
    }
}

proof fn lemma_start_count_append(a: Seq<Seq<char>>, b: Seq<Seq<char>>)
    ensures
        start_count(a + b) == start_count(a) + start_count(b),
    decreases b.len(),
{
    if b.len() == 0 {
        assert(a + b =~= a);
    } else {
        assert((a + b).drop_last() =~= a + b.drop_last());
        assert((a + b).last() == b.last());
        lemma_start_count_append(a, b.drop_last());
    }
}

proof fn lemma_start_count_none(x: Seq<Seq<char>>)
    requires
        forall|i: int| 0 <= i < x.len() ==> !request_start(#[trigger] x[i]),
    ensures
        start_count(x) == 0,
    decreases x.len(),
{
    if x.len() > 0 {
        assert forall|i: int| 0 <= i < x.drop_last().len() implies !request_start(#[trigger] x.drop_last()[i]) by {
            assert(x.drop_last()[i] == x[i]);
        }
        lemma_start_count_none(x.drop_last());
        assert(!request_start(x[x.len() - 1]));
    }
}

proof fn lemma_neutral_append(a: Seq<Seq<char>>, b: Seq<Seq<char>>)
    requires
        neutral_lines(a),
        neutral_lines(b),
    ensures
        neutral_lines(a + b),
{
    assert forall|i: int| 0 <= i < (a + b).len() implies header_neutral(#[trigger] (a + b)[i]) by {
        if i < a.len() {
            assert((a + b)[i] == a[i]);
        } else {
            assert((a + b)[i] == b[i - a.len()]);
        }
    }
}

/// Lines that begin no header line leave the header fields as they are, and
/// each line that begins a request adds one.
proof fn lemma_fold_neutral(st: SnapshotParseState, x: Seq<Seq<char>>)
    requires
        neutral_lines(x),
    ensures
        same_header(snapshot_fold_from(st, x).snap, st.snap),
        open_count(snapshot_fold_from(st, x)) == open_count(st) + start_count(x),
    decreases x.len(),
{
    if x.len() > 0 {
        let y = x.drop_last();
        assert(neutral_lines(y)) by {
            assert forall|i: int| 0 <= i < y.len() implies header_neutral(#[trigger] y[i]) by {
                assert(y[i] == x[i]);
            }
        }
        lemma_fold_neutral(st, y);
        let st1 = snapshot_fold_from(st, y);
        let l = x.last();
        assert(header_neutral(x[x.len() - 1]));
        let t = trim_end(l);
        if !starts_with(t, "--- [Session "@) && st1.in_session {
            let st2 = session_line_step(st1, t);
            assert(st2.snap == st1.snap && st2.in_session == st1.in_session);
        }
    }
}

/// The lines of an exported request: its first line, which begins it, then
/// lines that begin no header line and no other request.
proof fn lemma_block_lines_neutral(n: int, s: SessionSnapView)
    requires
        request_lines_neutral(s),
    ensures
        neutral_lines(lines(export_session_block(n, s))),
        start_count(lines(export_session_block(n, s))) == 1,
        export_session_block(n, s).len() > 0,
        export_session_block(n, s).last() == '\n',
{
    let head = "--- [Session "@ + int_decimal(n) + "] ---"@;
    let body = request_body_text(s);
    reveal_strlit("--- [Session ");
    reveal_strlit("] ---");
    reveal_strlit("] ---\n");
    reveal_strlit("\n\n");
    reveal(export_sql_lines);
    assert(export_session_block(n, s) =~= head + seq!['\n'] + body);
    assert(body.last() == '\n');
    lemma_decimal_lacks(n, '\n');
    lemma_lacks_cat("--- [Session "@, int_decimal(n), '\n');
    lemma_lacks_cat("--- [Session "@ + int_decimal(n), "] ---"@, '\n');
    assert(head.last() == '-');
    lemma_lines_cons(head, body);
    lemma_trim_end_keeps(head);
    assert(head.take(13) =~= "--- [Session "@);
    assert(request_start(head));
    reveal_strlit("Server: ");
    reveal_strlit("Capture Time: ");
    reveal_strlit("Workers: ");
    reveal_strlit("Logical Connections: ");
    reveal_strlit("Page Life Expectancy: ");
    reveal_strlit("Active Temp Tables: ");
    reveal_strlit("Transactions: ");
    reveal_strlit("Request Sessions: ");
    lemma_differ_at(head, "Server: "@, 0);
    lemma_differ_at(head, "Capture Time: "@, 0);
    lemma_differ_at(head, "Workers: "@, 0);
    lemma_differ_at(head, "Logical Connections: "@, 0);
    lemma_differ_at(head, "Page Life Expectancy: "@, 0);
    lemma_differ_at(head, "Active Temp Tables: "@, 0);
    lemma_differ_at(head, "Transactions: "@, 0);
    lemma_differ_at(head, "Request Sessions: "@, 0);
    let rest = lines(body);
    assert(neutral_lines(seq![head])) by {
        assert forall|i: int| 0 <= i < seq![head].len() implies header_neutral(#[trigger] seq![head][i]) by {
            assert(seq![head][i] == head);
        }
    }
    assert(neutral_lines(rest));
    lemma_neutral_append(seq![head], rest);
    lemma_start_count_none(rest);
    lemma_start_count_append(seq![head], rest);
    assert(seq![head].drop_last() =~= Seq::<Seq<char>>::empty());
    assert(seq![head].last() == head);
    assert(start_count(Seq::<Seq<char>>::empty()) == 0);
    assert(start_count(seq![head]) == 1);
    assert(lines(export_session_block(n, s)) == seq![head] + rest);
}

/// The lines of the exported requests begin no header line, and as many of
/// them begin a request as there are requests.
proof fn lemma_sessions_lines_neutral(ss: Seq<SessionSnapView>)
    requires
        forall|k: int| 0 <= k < ss.len() ==> request_lines_neutral(#[trigger] ss[k]),
    ensures
        neutral_lines(lines(export_sessions_text(ss))),
        start_count(lines(export_sessions_text(ss))) == ss.len(),
        export_sessions_text(ss).len() == 0 || export_sessions_text(ss).last() == '\n',
    decreases ss.len(),
{
    if ss.len() == 0 {
        let e = Seq::<char>::empty();
        lemma_lines_append(e, e);
        assert(e + e =~= e);
        assert(lines(e) =~= lines(e) + lines(e));
        assert(lines(e).len() == 0);
    } else {
        let prev = ss.drop_last();
        assert forall|k: int| 0 <= k < prev.len() implies request_lines_neutral(#[trigger] prev[k]) by {
            assert(prev[k] == ss[k]);
        }
        lemma_sessions_lines_neutral(prev);
        assert(request_lines_neutral(ss[ss.len() - 1]));
        lemma_block_lines_neutral(ss.len() as int, ss.last());
        let a = export_sessions_text(prev);
        let b = export_session_block(ss.len() as int, ss.last());
        lemma_lines_append(a, b);
        lemma_neutral_append(lines(a), lines(b));
        lemma_start_count_append(lines(a), lines(b));
    }
}

/// The block of an exported snapshot whose header fits its lines and whose
/// requests' lines begin no header line and no other request: the viewer reads
/// the header and one request for each.
#[verifier::spinoff_prover]
#[verifier::rlimit(100)]
proof fn lemma_header_block(v: SnapshotView) -> (snap: SnapshotView)
    requires
        exportable_header(v),
        forall|k: int| 0 <= k < v.sessions.len() ==> request_lines_neutral(#[trigger] v.sessions[k]),
    ensures
        export_body(v).len() > 0,
        export_body(v).last() == '\n',
        trim(export_body(v)).len() > 0,
        snapshot_of_block(trim(export_body(v))) == Some(snap),
        same_header(snap, v),
        snap.sessions.len() == v.sessions.len(),
{
    let h = export_head_lines(v);
    let ss = v.sessions;
    let n = ss.len();
    lemma_head_plain(v);
    if n == 0 {
        assert(exportable_snapshot(v));
        lemma_export_block_reads(v);
        lemma_export_block_fold(v);
        let r = read_back_snapshot(v);
        assert(trim(export_body(v)).len() > 0) by {
            assert(export_read_lines(v)[0] == h[0]);
            assert(h[0].len() > 0) by {
                reveal_strlit("Server: ");
            }
            lemma_lines_text_starts(export_read_lines(v));
        }
        r
    } else {
        let last = ss.last();
        let pb = trim(last.parent_batch_sql);
        let s_all = export_sessions_text(ss);
        lemma_requests_text(ss);
        lemma_lines_text_nl_append(h, export_request_lines(ss));
        assert(export_body(v) =~= seq!['\n'] + (lines_text_nl(h) + s_all));
        reveal(export_sql_lines);
        reveal_strlit("Parent Batch SQL:\n");
        reveal_strlit("Parent Batch SQL:");
        reveal_strlit("\n\n");
        reveal_strlit("\n");
        let pre = export_sessions_text(ss.drop_last()) + "--- [Session "@ + int_decimal(n as int) + "] ---\n"@
            + export_spid_line(last) + export_wait_lines(last) + export_io_line(last) + export_rows_line(last)
            + export_client_lines(last) + "Executing SQL:\n"@ + trim(last.executing_sql) + "\n"@;
        assert(s_all =~= pre + "Parent Batch SQL:\n"@ + pb + "\n\n"@);
        lemma_trim_ends(last.parent_batch_sql);
        let szt = if pb.len() > 0 {
            pre + "Parent Batch SQL:\n"@ + pb
        } else {
            pre + "Parent Batch SQL:"@
        };
        let w = if pb.len() > 0 {
            seq!['\n', '\n']
        } else {
            seq!['\n', '\n', '\n']
        };
        assert(s_all =~= szt + w);
        assert(szt.len() > 0 && !char_is_whitespace(szt.last()));
        let z = lines_text_nl(h) + szt;
        assert(h[0][0] == 'S') by {
            reveal_strlit("Server: ");
        }
        assert(lines_text_nl(h)[0] == 'S');
        assert(trimmed_text(z));
        assert(export_body(v) =~= seq!['\n'] + z + w);
        lemma_trim_framed(z, w);
        // the lines the viewer reads
        lemma_lines_nl_prefix(h, szt);
        lemma_lines_line_feed_end(szt);
        lemma_lines_append(szt + seq!['\n'], w.drop_first());
        assert(s_all =~= (szt + seq!['\n']) + w.drop_first());
        lemma_lines_of_line_feeds();
        let ex = lines(w.drop_first());
        if pb.len() > 0 {
            assert(w.drop_first() =~= seq!['\n']);
        } else {
            assert(w.drop_first() =~= seq!['\n', '\n']);
        }
        assert(forall|i: int| 0 <= i < ex.len() ==> ex[i] == Seq::<char>::empty());
        lemma_sessions_lines_neutral(ss);
        let rl = lines(szt);
        assert(lines(s_all) == rl + ex);
        assert(neutral_lines(rl)) by {
            assert forall|i: int| 0 <= i < rl.len() implies header_neutral(#[trigger] rl[i]) by {
                assert(rl[i] == (rl + ex)[i]);
            }
        }
        assert forall|i: int| 0 <= i < ex.len() implies !request_start(#[trigger] ex[i]) by {
            assert(ex[i] == Seq::<char>::empty());
            assert(trim_end(ex[i]) == ex[i]);
            reveal_strlit("--- [Session ");
        }
        lemma_start_count_none(ex);
        lemma_start_count_append(rl, ex);
        // reading them
        lemma_snap_fold_from_start(lines(z));
        lemma_snap_fold_from_append(block_start(), h, rl);
        lemma_head_fold(block_start(), v);
        let st0 = snapshot_fold_from(block_start(), h);
        assert(st0.snap.sessions.len() == 0 && !st0.in_session);
        lemma_fold_neutral(st0, rl);
        let st = snapshot_fold_from(st0, rl);
        let closed = if st.in_session {
            SnapshotView { sessions: st.snap.sessions.push(st.cur), ..st.snap }
        } else {
            st.snap
        };
        assert(closed.server.len() > 0);
        closed
    }
}

/// The header of a snapshot block that the monitor writes, and its number of
/// requests, read back by the snapshot viewer: one snapshot with the server,
/// the capture time, the worker usage and the counters as written, and as
/// many requests as the dashboard holds. This holds for requests whose lines,
/// past the first, the viewer cannot take for header lines or for the start of
/// another request (see [`request_lines_neutral`]), whatever else they hold;
/// for a header that fits its lines (see [`exportable_header`]); and for a block
/// that holds no separator line.
pub proof fn law_snapshot_log_header_read_back(server_id: Seq<char>, d: DashboardView)
    requires
        exportable_header(logged_snapshot(server_id, d)),
        forall|k: int|
            0 <= k < d.sessions.len() ==> request_lines_neutral(#[trigger] logged_sessions(d.sessions)[k]),
        !contains(export_body(logged_snapshot(server_id, d)), separator_line()),
    ensures
        parse_snapshot_log(snapshot_log_text(server_id, d)).len() == 1,
        same_header(parse_snapshot_log(snapshot_log_text(server_id, d))[0], logged_snapshot(server_id, d)),
        parse_snapshot_log(snapshot_log_text(server_id, d))[0].sessions.len() == d.sessions.len(),
{
    let v = logged_snapshot(server_id, d);
    law_snapshot_log_is_export_layout(server_id, d);
    let snap = lemma_header_block(v);
    lemma_log_of_block(v, snap);
}

proof fn lemma_snapshots_append(a: Seq<Seq<char>>, b: Seq<Seq<char>>)
    ensures
        snapshots_of_blocks(a + b) == snapshots_of_blocks(a) + snapshots_of_blocks(b),
    decreases b.len(),
{
    if b.len() == 0 {
        assert(a + b =~= a);
        assert(snapshots_of_blocks(a) + snapshots_of_blocks(b) =~= snapshots_of_blocks(a));
    } else {
        assert((a + b).drop_last() =~= a + b.drop_last());
        assert((a + b).last() == b.last());
        lemma_snapshots_append(a, b.drop_last());
        let prev = snapshots_of_blocks(b.drop_last());
        assert((snapshots_of_blocks(a) + prev).push(snapshot_of_block(trim(b.last()))->0) =~= snapshots_of_blocks(a)
            + prev.push(snapshot_of_block(trim(b.last()))->0));
    }
}

proof fn lemma_snapshots_after_line_feed(r: Seq<char>)
    ensures
        snapshots_of_blocks(split(seq!['\n'] + r, separator_line())) == snapshots_of_blocks(split(r, separator_line())),
{
    let sep = separator_line();
    assert(sep.len() == 50 && sep[0] == '=') by {
        reveal_strlit("==================================================");
    }
    lemma_split_leading('\n', r, sep);
    let parts = split(r, sep);
    let first = seq![seq!['\n'] + parts[0]];
    lemma_snapshots_append(first, parts.drop_first());
    lemma_snapshots_append(seq![parts[0]], parts.drop_first());
    assert(seq![parts[0]] + parts.drop_first() =~= parts);
    lemma_trim_leading_line_feed(parts[0]);
    assert(first.drop_last() =~= Seq::<Seq<char>>::empty());
    assert(seq![parts[0]].drop_last() =~= Seq::<Seq<char>>::empty());
    assert(snapshots_of_blocks(first) == snapshots_of_blocks(seq![parts[0]]));
}

/// The snapshot log is read block by block: a block (the separator, text in
/// which the separator does not begin before its end, the separator and a
/// blank line) followed by more of the log gives the block's snapshots, then
/// those of the rest.
pub proof fn law_snapshot_log_block_by_block(body: Seq<char>, rest: Seq<char>)
    requires
        ends_before(body, separator_line()),
    ensures
        parse_snapshot_log(separator_line() + body + separator_line() + seq!['\n', '\n'] + rest) == parse_snapshot_log(
            separator_line() + body + separator_line() + seq!['\n', '\n'],
        ) + parse_snapshot_log(rest),
{
    let sep = separator_line();
    let e = Seq::<char>::empty();
    let nl = seq!['\n'];
    let nn = seq!['\n', '\n'];
    assert(sep.len() == 50 && sep[0] == '=') by {
        reveal_strlit("==================================================");
    }
    lemma_lacks_ends_before(e, sep, 0);
    assert(sep + body + sep + nn + rest =~= e + sep + (body + sep + (nn + rest)));
    assert(sep + body + sep + nn =~= e + sep + (body + sep + nn));
    lemma_split_head(e, sep, body + sep + (nn + rest));
    lemma_split_head(e, sep, body + sep + nn);
    lemma_split_head(body, sep, nn + rest);
    lemma_split_head(body, sep, nn);
    assert(nn + rest =~= nl + (nl + rest));
    assert(nn =~= nl + (nl + e));
    lemma_snapshots_after_line_feed(nl + rest);
    lemma_snapshots_after_line_feed(rest);
    lemma_snapshots_after_line_feed(nl + e);
    lemma_snapshots_after_line_feed(e);
    assert(nl + e =~= nl);
    lemma_lacks_no_occurrence(e, sep, 0);
    lemma_split_whole(e, sep);
    let front = seq![e] + seq![body];
    assert(seq![e] + (seq![body] + split(nn + rest, sep)) =~= front + split(nn + rest, sep));
    assert(seq![e] + (seq![body] + split(nn, sep)) =~= front + split(nn, sep));
    lemma_snapshots_append(front, split(nn + rest, sep));
    lemma_snapshots_append(front, split(nn, sep));
    assert(trim_start(e) == e);
    assert(trim_end(e) == e);
    assert(trim(e).len() == 0);
    assert(split(e, sep) == seq![e]);
    assert(seq![e].last() == e);
    assert(seq![e].drop_last() =~= Seq::<Seq<char>>::empty());
    assert(snapshots_of_blocks(seq![e]) == snapshots_of_blocks(Seq::<Seq<char>>::empty()));
    assert(snapshots_of_blocks(split(e, sep)) =~= Seq::<SnapshotView>::empty());
    assert(parse_snapshot_log(sep + body + sep + nn) =~= snapshots_of_blocks(front));
}

proof fn lemma_trim_twice(x: Seq<char>)
    ensures
        trim(trim(x)) == trim(x),
        trim(extend_line(trim(x), seq![])) == trim(x),
{
    lemma_trim_ends(x);
    let t = trim(x);
    if t.len() > 0 {
        lemma_trim_trimmed(t);
        assert(extend_line(t, seq![]) =~= t + seq!['\n']);
    } else {
        assert(trim_start(t) == t);
        assert(trim_end(t) == t);
        assert(extend_line(t, seq![]) =~= t);
    }
}

proof fn lemma_reexport_block(n: int, i: int, s: SessionSnapView, followed: bool)
    ensures
        export_session_block(n, read_back_session(i, s, followed)) == export_session_block(n, s),
{
    lemma_trim_twice(s.executing_sql);
    lemma_trim_twice(s.parent_batch_sql);
    let r = read_back_session(i, s, followed);
    assert(export_sql_lines(r) == export_sql_lines(s)) by {
        reveal(export_sql_lines);
    }
    assert(export_spid_line(r) == export_spid_line(s)) by {
        reveal(export_spid_line);
    }
    assert(export_wait_lines(r) == export_wait_lines(s)) by {
        reveal(export_wait_lines);
    }
    assert(export_io_line(r) == export_io_line(s)) by {
        reveal(export_io_line);
    }
    assert(export_rows_line(r) == export_rows_line(s)) by {
        reveal(export_rows_line);
    }
    assert(export_client_lines(r) == export_client_lines(s)) by {
        reveal(export_client_lines);
    }
}

proof fn lemma_reexport_sessions(ss: Seq<SessionSnapView>, rs: Seq<SessionSnapView>)
    requires
        rs.len() == ss.len(),
        forall|i: int| 0 <= i < ss.len() ==> export_session_block(i + 1, #[trigger] rs[i]) == export_session_block(i + 1, ss[i]),
    ensures
        export_sessions_text(rs) == export_sessions_text(ss),
    decreases ss.len(),
{
    if ss.len() > 0 {
        assert forall|i: int| 0 <= i < ss.drop_last().len() implies export_session_block(i + 1, #[trigger] rs.drop_last()[i])
            == export_session_block(i + 1, ss.drop_last()[i]) by {
            assert(rs.drop_last()[i] == rs[i]);
            assert(ss.drop_last()[i] == ss[i]);
        }
        lemma_reexport_sessions(ss.drop_last(), rs.drop_last());
        assert(export_session_block(ss.len() as int, rs.last()) == export_session_block(ss.len() as int, ss.last()));
    }
}

/// Exporting a snapshot as the viewer reads it back writes the same text as
/// exporting the snapshot itself: reading back only renumbers the requests and
/// changes their statements by what the export trims away.
pub proof fn law_reexport_same_text(d: SnapshotView)
    ensures
        export_text(read_back_snapshot(d)) == export_text(d),
{
    let r = read_back_snapshot(d);
    let n = d.sessions.len();
    assert forall|i: int| 0 <= i < n implies export_session_block(i + 1, #[trigger] r.sessions[i]) == export_session_block(
        i + 1,
        d.sessions[i],
    ) by {
        lemma_reexport_block(i + 1, i, d.sessions[i], i + 1 < n);
    }
    lemma_reexport_sessions(d.sessions, r.sessions);
    assert(export_header(r) == export_header(d)) by {
        reveal(export_header);
    }
    assert(export_figures(r) == export_figures(d)) by {
        reveal(export_figures);
    }
    assert(export_activity(r) == export_activity(d)) by {
        reveal(export_activity);
    }
}

/// Snapshot logs read one after the other give the snapshots of the first, then
/// those of the second, when the first ends in a separator line followed by
/// nothing but whitespace (as every written block does).
pub proof fn law_snapshot_logs_concatenate(c1: Seq<char>, c2: Seq<char>)
    requires
        trim(split(c1, separator_line()).last()).len() == 0,
    ensures
        parse_snapshot_log(c1 + c2) == parse_snapshot_log(c1) + parse_snapshot_log(c2),
{
    let sep = separator_line();
    assert(sep.len() == 50 && sep[0] == '=') by {
        reveal_strlit("==================================================");
    }
    let x = split(c1, sep);
    let y = split(c2, sep);
    lemma_split_from_nonempty(c1, sep, 0);
    lemma_split_from_nonempty(c2, sep, 0);
    let t = x.last();
    let y0 = y[0];
    lemma_blank_prefix(t, y0);
    assert(lacks(t, sep[0])) by {
        assert forall|i: int| 0 <= i < t.len() implies t[i] != sep[0] by {
            assert(char_is_whitespace(t[i]));
        }
    }
    lemma_split_concat(c1, c2, sep);
    let front = x.drop_last();
    let rest = y.drop_first();
    assert(x =~= front + seq![t]);
    assert(y =~= seq![y0] + rest);
    lemma_snapshots_append(front + seq![t + y0], rest);
    lemma_snapshots_append(front, seq![t + y0]);
    lemma_snapshots_append(front, seq![t]);
    lemma_snapshots_append(seq![y0], rest);
    let e = Seq::<Seq<char>>::empty();
    assert(seq![t + y0].drop_last() =~= e);
    assert(seq![y0].drop_last() =~= e);
    assert(seq![t].drop_last() =~= e);
    assert(snapshots_of_blocks(seq![t + y0]) == snapshots_of_blocks(seq![y0]));
    assert(snapshots_of_blocks(seq![t]) =~= Seq::<SnapshotView>::empty());
    assert(snapshots_of_blocks(x) =~= snapshots_of_blocks(front));
}

} // verus!
