//! What the logs say: in each entry the monitor writes and each block the
//! viewer exports, every label is followed by the field it names, and the text
//! holds nothing but its labels, fields and fixed lines.
use vstd::prelude::*;
use crate::model::{DashboardView, SessionView};
use crate::number::int_decimal;
use crate::report::{
    alert_client_lines, alert_cpu_lines, alert_head, alert_log_text, alert_wait_lines,
    alert_write_lines, client_line, command_line, dash_line, io_line, resource_line, rows_line,
    separator_line, session_block_text, sessions_text, snapshot_activity, snapshot_counters,
    snapshot_header, snapshot_log_text, snapshot_workers, spid_line, wait_line, worker_alert_text,
};
use crate::snapshot_viewer::{
    SessionSnapView, SnapshotView, export_activity, export_client_lines, export_figures,
    export_header, export_io_line, export_rows_line, export_session_block, export_sessions_text,
    export_spid_line, export_sql_lines, export_text, export_wait_lines,
};
use crate::text::{contains, occurs_at, trim};

verus! {

proof fn lemma_occurs_middle(x: Seq<char>, w: Seq<char>, y: Seq<char>)
    ensures
        occurs_at(x + w + y, w, x.len() as int),
        contains(x + w + y, w),
{
    let s = x + w + y;
    assert(s.subrange(x.len() as int, (x.len() + w.len()) as int) =~= w);
}

#[verifier::rlimit(80)]
proof fn lemma_session_block_labels_0(n: int, s: SessionView)
    ensures
        contains(session_block_text(n, s), "--- [Session "@ + int_decimal(n) + "] ---\n"@),
{
    reveal(session_block_text);
    assert(session_block_text(n, s) =~= (Seq::<char>::empty()) + ("--- [Session "@ + int_decimal(n) + "] ---\n"@) + (spid_line(s) + wait_line(s) + resource_line(s) + io_line(s) + rows_line(s) + client_line(s) + command_line(s) + "Executing SQL:\n"@ + trim(s.executing_sql) + "\n"@ + "Parent Batch SQL:\n"@ + trim(s.parent_batch_sql) + "\n\n"@));
    lemma_occurs_middle(Seq::<char>::empty(), "--- [Session "@ + int_decimal(n) + "] ---\n"@, spid_line(s) + wait_line(s) + resource_line(s) + io_line(s) + rows_line(s) + client_line(s) + command_line(s) + "Executing SQL:\n"@ + trim(s.executing_sql) + "\n"@ + "Parent Batch SQL:\n"@ + trim(s.parent_batch_sql) + "\n\n"@);
}

#[verifier::rlimit(40)]
proof fn lemma_session_block_labels_1(n: int, s: SessionView)
    ensures
        contains(session_block_text(n, s), "SPID: "@ + int_decimal(s.session_id) + " | Elapsed Time: "@),
{
    reveal(session_block_text);
    reveal(spid_line);
    assert(session_block_text(n, s) =~= ("--- [Session "@ + int_decimal(n) + "] ---\n"@) + ("SPID: "@ + int_decimal(s.session_id) + " | Elapsed Time: "@) + ((int_decimal(s.elapsed_time_ms) + " ms | Status: "@ + s.status + "\n"@) + wait_line(s) + resource_line(s) + io_line(s) + rows_line(s) + client_line(s) + command_line(s) + "Executing SQL:\n"@ + trim(s.executing_sql) + "\n"@ + "Parent Batch SQL:\n"@ + trim(s.parent_batch_sql) + "\n\n"@));
    lemma_occurs_middle("--- [Session "@ + int_decimal(n) + "] ---\n"@, "SPID: "@ + int_decimal(s.session_id) + " | Elapsed Time: "@, (int_decimal(s.elapsed_time_ms) + " ms | Status: "@ + s.status + "\n"@) + wait_line(s) + resource_line(s) + io_line(s) + rows_line(s) + client_line(s) + command_line(s) + "Executing SQL:\n"@ + trim(s.executing_sql) + "\n"@ + "Parent Batch SQL:\n"@ + trim(s.parent_batch_sql) + "\n\n"@);
}

#[verifier::rlimit(40)]
proof fn lemma_session_block_labels_2(n: int, s: SessionView)
    ensures
        contains(session_block_text(n, s), " | Elapsed Time: "@ + int_decimal(s.elapsed_time_ms) + " ms | Status: "@),
{
    reveal(session_block_text);
    reveal(spid_line);
    assert(session_block_text(n, s) =~= ("--- [Session "@ + int_decimal(n) + "] ---\n"@ + ("SPID: "@ + int_decimal(s.session_id))) + (" | Elapsed Time: "@ + int_decimal(s.elapsed_time_ms) + " ms | Status: "@) + ((s.status + "\n"@) + wait_line(s) + resource_line(s) + io_line(s) + rows_line(s) + client_line(s) + command_line(s) + "Executing SQL:\n"@ + trim(s.executing_sql) + "\n"@ + "Parent Batch SQL:\n"@ + trim(s.parent_batch_sql) + "\n\n"@));
    lemma_occurs_middle("--- [Session "@ + int_decimal(n) + "] ---\n"@ + ("SPID: "@ + int_decimal(s.session_id)), " | Elapsed Time: "@ + int_decimal(s.elapsed_time_ms) + " ms | Status: "@, (s.status + "\n"@) + wait_line(s) + resource_line(s) + io_line(s) + rows_line(s) + client_line(s) + command_line(s) + "Executing SQL:\n"@ + trim(s.executing_sql) + "\n"@ + "Parent Batch SQL:\n"@ + trim(s.parent_batch_sql) + "\n\n"@);
}

#[verifier::rlimit(40)]
proof fn lemma_session_block_labels_3(n: int, s: SessionView)
    ensures
        contains(session_block_text(n, s), " ms | Status: "@ + s.status + "\n"@),
{
    reveal(session_block_text);
    reveal(spid_line);
    assert(session_block_text(n, s) =~= ("--- [Session "@ + int_decimal(n) + "] ---\n"@ + ("SPID: "@ + int_decimal(s.session_id) + " | Elapsed Time: "@ + int_decimal(s.elapsed_time_ms))) + (" ms | Status: "@ + s.status + "\n"@) + (wait_line(s) + resource_line(s) + io_line(s) + rows_line(s) + client_line(s) + command_line(s) + "Executing SQL:\n"@ + trim(s.executing_sql) + "\n"@ + "Parent Batch SQL:\n"@ + trim(s.parent_batch_sql) + "\n\n"@));
    lemma_occurs_middle("--- [Session "@ + int_decimal(n) + "] ---\n"@ + ("SPID: "@ + int_decimal(s.session_id) + " | Elapsed Time: "@ + int_decimal(s.elapsed_time_ms)), " ms | Status: "@ + s.status + "\n"@, wait_line(s) + resource_line(s) + io_line(s) + rows_line(s) + client_line(s) + command_line(s) + "Executing SQL:\n"@ + trim(s.executing_sql) + "\n"@ + "Parent Batch SQL:\n"@ + trim(s.parent_batch_sql) + "\n\n"@);
}

#[verifier::rlimit(40)]
proof fn lemma_session_block_labels_4(n: int, s: SessionView)
    ensures
        contains(session_block_text(n, s), "Wait Type: "@ + s.wait_type + " ("@),
{
    reveal(session_block_text);
    reveal(wait_line);
    assert(session_block_text(n, s) =~= ("--- [Session "@ + int_decimal(n) + "] ---\n"@ + spid_line(s)) + ("Wait Type: "@ + s.wait_type + " ("@) + ((int_decimal(s.wait_time_ms) + " ms) | Last Wait: "@ + s.last_wait_type + "\n"@) + resource_line(s) + io_line(s) + rows_line(s) + client_line(s) + command_line(s) + "Executing SQL:\n"@ + trim(s.executing_sql) + "\n"@ + "Parent Batch SQL:\n"@ + trim(s.parent_batch_sql) + "\n\n"@));
    lemma_occurs_middle("--- [Session "@ + int_decimal(n) + "] ---\n"@ + spid_line(s), "Wait Type: "@ + s.wait_type + " ("@, (int_decimal(s.wait_time_ms) + " ms) | Last Wait: "@ + s.last_wait_type + "\n"@) + resource_line(s) + io_line(s) + rows_line(s) + client_line(s) + command_line(s) + "Executing SQL:\n"@ + trim(s.executing_sql) + "\n"@ + "Parent Batch SQL:\n"@ + trim(s.parent_batch_sql) + "\n\n"@);
}

#[verifier::rlimit(40)]
proof fn lemma_session_block_labels_5(n: int, s: SessionView)
    ensures
        contains(session_block_text(n, s), " ("@ + int_decimal(s.wait_time_ms) + " ms) | Last Wait: "@),
{
    reveal(session_block_text);
    reveal(wait_line);
    assert(session_block_text(n, s) =~= ("--- [Session "@ + int_decimal(n) + "] ---\n"@ + spid_line(s) + ("Wait Type: "@ + s.wait_type)) + (" ("@ + int_decimal(s.wait_time_ms) + " ms) | Last Wait: "@) + ((s.last_wait_type + "\n"@) + resource_line(s) + io_line(s) + rows_line(s) + client_line(s) + command_line(s) + "Executing SQL:\n"@ + trim(s.executing_sql) + "\n"@ + "Parent Batch SQL:\n"@ + trim(s.parent_batch_sql) + "\n\n"@));
    lemma_occurs_middle("--- [Session "@ + int_decimal(n) + "] ---\n"@ + spid_line(s) + ("Wait Type: "@ + s.wait_type), " ("@ + int_decimal(s.wait_time_ms) + " ms) | Last Wait: "@, (s.last_wait_type + "\n"@) + resource_line(s) + io_line(s) + rows_line(s) + client_line(s) + command_line(s) + "Executing SQL:\n"@ + trim(s.executing_sql) + "\n"@ + "Parent Batch SQL:\n"@ + trim(s.parent_batch_sql) + "\n\n"@);
}

#[verifier::rlimit(40)]
proof fn lemma_session_block_labels_6(n: int, s: SessionView)
    ensures
        contains(session_block_text(n, s), " ms) | Last Wait: "@ + s.last_wait_type + "\n"@),
{
    reveal(session_block_text);
    reveal(wait_line);
    assert(session_block_text(n, s) =~= ("--- [Session "@ + int_decimal(n) + "] ---\n"@ + spid_line(s) + ("Wait Type: "@ + s.wait_type + " ("@ + int_decimal(s.wait_time_ms))) + (" ms) | Last Wait: "@ + s.last_wait_type + "\n"@) + (resource_line(s) + io_line(s) + rows_line(s) + client_line(s) + command_line(s) + "Executing SQL:\n"@ + trim(s.executing_sql) + "\n"@ + "Parent Batch SQL:\n"@ + trim(s.parent_batch_sql) + "\n\n"@));
    lemma_occurs_middle("--- [Session "@ + int_decimal(n) + "] ---\n"@ + spid_line(s) + ("Wait Type: "@ + s.wait_type + " ("@ + int_decimal(s.wait_time_ms)), " ms) | Last Wait: "@ + s.last_wait_type + "\n"@, resource_line(s) + io_line(s) + rows_line(s) + client_line(s) + command_line(s) + "Executing SQL:\n"@ + trim(s.executing_sql) + "\n"@ + "Parent Batch SQL:\n"@ + trim(s.parent_batch_sql) + "\n\n"@);
}

#[verifier::rlimit(40)]
proof fn lemma_session_block_labels_7(n: int, s: SessionView)
    ensures
        contains(session_block_text(n, s), "Wait Resource: "@ + s.wait_resource + " | Blocking SPID: "@),
{
    reveal(session_block_text);
    reveal(resource_line);
    assert(session_block_text(n, s) =~= ("--- [Session "@ + int_decimal(n) + "] ---\n"@ + spid_line(s) + wait_line(s)) + ("Wait Resource: "@ + s.wait_resource + " | Blocking SPID: "@) + ((int_decimal(s.wait_session_id) + "\n"@) + io_line(s) + rows_line(s) + client_line(s) + command_line(s) + "Executing SQL:\n"@ + trim(s.executing_sql) + "\n"@ + "Parent Batch SQL:\n"@ + trim(s.parent_batch_sql) + "\n\n"@));
    lemma_occurs_middle("--- [Session "@ + int_decimal(n) + "] ---\n"@ + spid_line(s) + wait_line(s), "Wait Resource: "@ + s.wait_resource + " | Blocking SPID: "@, (int_decimal(s.wait_session_id) + "\n"@) + io_line(s) + rows_line(s) + client_line(s) + command_line(s) + "Executing SQL:\n"@ + trim(s.executing_sql) + "\n"@ + "Parent Batch SQL:\n"@ + trim(s.parent_batch_sql) + "\n\n"@);
}

#[verifier::rlimit(40)]
proof fn lemma_session_block_labels_8(n: int, s: SessionView)
    ensures
        contains(session_block_text(n, s), " | Blocking SPID: "@ + int_decimal(s.wait_session_id) + "\n"@),
{
    reveal(session_block_text);
    reveal(resource_line);
    assert(session_block_text(n, s) =~= ("--- [Session "@ + int_decimal(n) + "] ---\n"@ + spid_line(s) + wait_line(s) + ("Wait Resource: "@ + s.wait_resource)) + (" | Blocking SPID: "@ + int_decimal(s.wait_session_id) + "\n"@) + (io_line(s) + rows_line(s) + client_line(s) + command_line(s) + "Executing SQL:\n"@ + trim(s.executing_sql) + "\n"@ + "Parent Batch SQL:\n"@ + trim(s.parent_batch_sql) + "\n\n"@));
    lemma_occurs_middle("--- [Session "@ + int_decimal(n) + "] ---\n"@ + spid_line(s) + wait_line(s) + ("Wait Resource: "@ + s.wait_resource), " | Blocking SPID: "@ + int_decimal(s.wait_session_id) + "\n"@, io_line(s) + rows_line(s) + client_line(s) + command_line(s) + "Executing SQL:\n"@ + trim(s.executing_sql) + "\n"@ + "Parent Batch SQL:\n"@ + trim(s.parent_batch_sql) + "\n\n"@);
}

#[verifier::rlimit(40)]
proof fn lemma_session_block_labels_9(n: int, s: SessionView)
    ensures
        contains(session_block_text(n, s), "CPU Time: "@ + int_decimal(s.cpu_time_ms) + " ms | Logical Reads: "@),
{
    reveal(session_block_text);
    reveal(io_line);
    assert(session_block_text(n, s) =~= ("--- [Session "@ + int_decimal(n) + "] ---\n"@ + spid_line(s) + wait_line(s) + resource_line(s)) + ("CPU Time: "@ + int_decimal(s.cpu_time_ms) + " ms | Logical Reads: "@) + ((int_decimal(s.logical_reads) + " | Physical Reads: "@ + int_decimal(s.physical_reads) + " | Writes: "@ + int_decimal(s.writes) + "\n"@) + rows_line(s) + client_line(s) + command_line(s) + "Executing SQL:\n"@ + trim(s.executing_sql) + "\n"@ + "Parent Batch SQL:\n"@ + trim(s.parent_batch_sql) + "\n\n"@));
    lemma_occurs_middle("--- [Session "@ + int_decimal(n) + "] ---\n"@ + spid_line(s) + wait_line(s) + resource_line(s), "CPU Time: "@ + int_decimal(s.cpu_time_ms) + " ms | Logical Reads: "@, (int_decimal(s.logical_reads) + " | Physical Reads: "@ + int_decimal(s.physical_reads) + " | Writes: "@ + int_decimal(s.writes) + "\n"@) + rows_line(s) + client_line(s) + command_line(s) + "Executing SQL:\n"@ + trim(s.executing_sql) + "\n"@ + "Parent Batch SQL:\n"@ + trim(s.parent_batch_sql) + "\n\n"@);
}

#[verifier::rlimit(40)]
proof fn lemma_session_block_labels_10(n: int, s: SessionView)
    ensures
        contains(session_block_text(n, s), " ms | Logical Reads: "@ + int_decimal(s.logical_reads) + " | Physical Reads: "@),
{
    reveal(session_block_text);
    reveal(io_line);
    assert(session_block_text(n, s) =~= ("--- [Session "@ + int_decimal(n) + "] ---\n"@ + spid_line(s) + wait_line(s) + resource_line(s) + ("CPU Time: "@ + int_decimal(s.cpu_time_ms))) + (" ms | Logical Reads: "@ + int_decimal(s.logical_reads) + " | Physical Reads: "@) + ((int_decimal(s.physical_reads) + " | Writes: "@ + int_decimal(s.writes) + "\n"@) + rows_line(s) + client_line(s) + command_line(s) + "Executing SQL:\n"@ + trim(s.executing_sql) + "\n"@ + "Parent Batch SQL:\n"@ + trim(s.parent_batch_sql) + "\n\n"@));
    lemma_occurs_middle("--- [Session "@ + int_decimal(n) + "] ---\n"@ + spid_line(s) + wait_line(s) + resource_line(s) + ("CPU Time: "@ + int_decimal(s.cpu_time_ms)), " ms | Logical Reads: "@ + int_decimal(s.logical_reads) + " | Physical Reads: "@, (int_decimal(s.physical_reads) + " | Writes: "@ + int_decimal(s.writes) + "\n"@) + rows_line(s) + client_line(s) + command_line(s) + "Executing SQL:\n"@ + trim(s.executing_sql) + "\n"@ + "Parent Batch SQL:\n"@ + trim(s.parent_batch_sql) + "\n\n"@);
}

#[verifier::rlimit(40)]
proof fn lemma_session_block_labels_11(n: int, s: SessionView)
    ensures
        contains(session_block_text(n, s), " | Physical Reads: "@ + int_decimal(s.physical_reads) + " | Writes: "@),
{
    reveal(session_block_text);
    reveal(io_line);
    assert(session_block_text(n, s) =~= ("--- [Session "@ + int_decimal(n) + "] ---\n"@ + spid_line(s) + wait_line(s) + resource_line(s) + ("CPU Time: "@ + int_decimal(s.cpu_time_ms) + " ms | Logical Reads: "@ + int_decimal(s.logical_reads))) + (" | Physical Reads: "@ + int_decimal(s.physical_reads) + " | Writes: "@) + ((int_decimal(s.writes) + "\n"@) + rows_line(s) + client_line(s) + command_line(s) + "Executing SQL:\n"@ + trim(s.executing_sql) + "\n"@ + "Parent Batch SQL:\n"@ + trim(s.parent_batch_sql) + "\n\n"@));
    lemma_occurs_middle("--- [Session "@ + int_decimal(n) + "] ---\n"@ + spid_line(s) + wait_line(s) + resource_line(s) + ("CPU Time: "@ + int_decimal(s.cpu_time_ms) + " ms | Logical Reads: "@ + int_decimal(s.logical_reads)), " | Physical Reads: "@ + int_decimal(s.physical_reads) + " | Writes: "@, (int_decimal(s.writes) + "\n"@) + rows_line(s) + client_line(s) + command_line(s) + "Executing SQL:\n"@ + trim(s.executing_sql) + "\n"@ + "Parent Batch SQL:\n"@ + trim(s.parent_batch_sql) + "\n\n"@);
}

#[verifier::rlimit(40)]
proof fn lemma_session_block_labels_12(n: int, s: SessionView)
    ensures
        contains(session_block_text(n, s), " | Writes: "@ + int_decimal(s.writes) + "\n"@),
{
    reveal(session_block_text);
    reveal(io_line);
    assert(session_block_text(n, s) =~= ("--- [Session "@ + int_decimal(n) + "] ---\n"@ + spid_line(s) + wait_line(s) + resource_line(s) + ("CPU Time: "@ + int_decimal(s.cpu_time_ms) + " ms | Logical Reads: "@ + int_decimal(s.logical_reads) + " | Physical Reads: "@ + int_decimal(s.physical_reads))) + (" | Writes: "@ + int_decimal(s.writes) + "\n"@) + (rows_line(s) + client_line(s) + command_line(s) + "Executing SQL:\n"@ + trim(s.executing_sql) + "\n"@ + "Parent Batch SQL:\n"@ + trim(s.parent_batch_sql) + "\n\n"@));
    lemma_occurs_middle("--- [Session "@ + int_decimal(n) + "] ---\n"@ + spid_line(s) + wait_line(s) + resource_line(s) + ("CPU Time: "@ + int_decimal(s.cpu_time_ms) + " ms | Logical Reads: "@ + int_decimal(s.logical_reads) + " | Physical Reads: "@ + int_decimal(s.physical_reads)), " | Writes: "@ + int_decimal(s.writes) + "\n"@, rows_line(s) + client_line(s) + command_line(s) + "Executing SQL:\n"@ + trim(s.executing_sql) + "\n"@ + "Parent Batch SQL:\n"@ + trim(s.parent_batch_sql) + "\n\n"@);
}

#[verifier::rlimit(40)]
proof fn lemma_session_block_labels_13(n: int, s: SessionView)
    ensures
        contains(session_block_text(n, s), "Row Count: "@ + int_decimal(s.row_count) + " | Open Trans: "@),
{
    reveal(session_block_text);
    reveal(rows_line);
    assert(session_block_text(n, s) =~= ("--- [Session "@ + int_decimal(n) + "] ---\n"@ + spid_line(s) + wait_line(s) + resource_line(s) + io_line(s)) + ("Row Count: "@ + int_decimal(s.row_count) + " | Open Trans: "@) + ((int_decimal(s.open_transaction_count) + " | DOP: "@ + int_decimal(s.dop) + "\n"@) + client_line(s) + command_line(s) + "Executing SQL:\n"@ + trim(s.executing_sql) + "\n"@ + "Parent Batch SQL:\n"@ + trim(s.parent_batch_sql) + "\n\n"@));
    lemma_occurs_middle("--- [Session "@ + int_decimal(n) + "] ---\n"@ + spid_line(s) + wait_line(s) + resource_line(s) + io_line(s), "Row Count: "@ + int_decimal(s.row_count) + " | Open Trans: "@, (int_decimal(s.open_transaction_count) + " | DOP: "@ + int_decimal(s.dop) + "\n"@) + client_line(s) + command_line(s) + "Executing SQL:\n"@ + trim(s.executing_sql) + "\n"@ + "Parent Batch SQL:\n"@ + trim(s.parent_batch_sql) + "\n\n"@);
}

#[verifier::rlimit(40)]
proof fn lemma_session_block_labels_14(n: int, s: SessionView)
    ensures
        contains(session_block_text(n, s), " | Open Trans: "@ + int_decimal(s.open_transaction_count) + " | DOP: "@),
{
    reveal(session_block_text);
    reveal(rows_line);
    assert(session_block_text(n, s) =~= ("--- [Session "@ + int_decimal(n) + "] ---\n"@ + spid_line(s) + wait_line(s) + resource_line(s) + io_line(s) + ("Row Count: "@ + int_decimal(s.row_count))) + (" | Open Trans: "@ + int_decimal(s.open_transaction_count) + " | DOP: "@) + ((int_decimal(s.dop) + "\n"@) + client_line(s) + command_line(s) + "Executing SQL:\n"@ + trim(s.executing_sql) + "\n"@ + "Parent Batch SQL:\n"@ + trim(s.parent_batch_sql) + "\n\n"@));
    lemma_occurs_middle("--- [Session "@ + int_decimal(n) + "] ---\n"@ + spid_line(s) + wait_line(s) + resource_line(s) + io_line(s) + ("Row Count: "@ + int_decimal(s.row_count)), " | Open Trans: "@ + int_decimal(s.open_transaction_count) + " | DOP: "@, (int_decimal(s.dop) + "\n"@) + client_line(s) + command_line(s) + "Executing SQL:\n"@ + trim(s.executing_sql) + "\n"@ + "Parent Batch SQL:\n"@ + trim(s.parent_batch_sql) + "\n\n"@);
}

#[verifier::rlimit(40)]
proof fn lemma_session_block_labels_15(n: int, s: SessionView)
    ensures
        contains(session_block_text(n, s), " | DOP: "@ + int_decimal(s.dop) + "\n"@),
{
    reveal(session_block_text);
    reveal(rows_line);
    assert(session_block_text(n, s) =~= ("--- [Session "@ + int_decimal(n) + "] ---\n"@ + spid_line(s) + wait_line(s) + resource_line(s) + io_line(s) + ("Row Count: "@ + int_decimal(s.row_count) + " | Open Trans: "@ + int_decimal(s.open_transaction_count))) + (" | DOP: "@ + int_decimal(s.dop) + "\n"@) + (client_line(s) + command_line(s) + "Executing SQL:\n"@ + trim(s.executing_sql) + "\n"@ + "Parent Batch SQL:\n"@ + trim(s.parent_batch_sql) + "\n\n"@));
    lemma_occurs_middle("--- [Session "@ + int_decimal(n) + "] ---\n"@ + spid_line(s) + wait_line(s) + resource_line(s) + io_line(s) + ("Row Count: "@ + int_decimal(s.row_count) + " | Open Trans: "@ + int_decimal(s.open_transaction_count)), " | DOP: "@ + int_decimal(s.dop) + "\n"@, client_line(s) + command_line(s) + "Executing SQL:\n"@ + trim(s.executing_sql) + "\n"@ + "Parent Batch SQL:\n"@ + trim(s.parent_batch_sql) + "\n\n"@);
}

#[verifier::rlimit(40)]
proof fn lemma_session_block_labels_16(n: int, s: SessionView)
    ensures
        contains(session_block_text(n, s), "Client Address: "@ + s.client_net_address + " | Login Name: "@),
{
    reveal(session_block_text);
    reveal(client_line);
    assert(session_block_text(n, s) =~= ("--- [Session "@ + int_decimal(n) + "] ---\n"@ + spid_line(s) + wait_line(s) + resource_line(s) + io_line(s) + rows_line(s)) + ("Client Address: "@ + s.client_net_address + " | Login Name: "@) + ((s.login_name + " | DB Name: "@ + s.database_name + "\n"@) + command_line(s) + "Executing SQL:\n"@ + trim(s.executing_sql) + "\n"@ + "Parent Batch SQL:\n"@ + trim(s.parent_batch_sql) + "\n\n"@));
    lemma_occurs_middle("--- [Session "@ + int_decimal(n) + "] ---\n"@ + spid_line(s) + wait_line(s) + resource_line(s) + io_line(s) + rows_line(s), "Client Address: "@ + s.client_net_address + " | Login Name: "@, (s.login_name + " | DB Name: "@ + s.database_name + "\n"@) + command_line(s) + "Executing SQL:\n"@ + trim(s.executing_sql) + "\n"@ + "Parent Batch SQL:\n"@ + trim(s.parent_batch_sql) + "\n\n"@);
}

#[verifier::rlimit(40)]
proof fn lemma_session_block_labels_17(n: int, s: SessionView)
    ensures
        contains(session_block_text(n, s), " | Login Name: "@ + s.login_name + " | DB Name: "@),
{
    reveal(session_block_text);
    reveal(client_line);
    assert(session_block_text(n, s) =~= ("--- [Session "@ + int_decimal(n) + "] ---\n"@ + spid_line(s) + wait_line(s) + resource_line(s) + io_line(s) + rows_line(s) + ("Client Address: "@ + s.client_net_address)) + (" | Login Name: "@ + s.login_name + " | DB Name: "@) + ((s.database_name + "\n"@) + command_line(s) + "Executing SQL:\n"@ + trim(s.executing_sql) + "\n"@ + "Parent Batch SQL:\n"@ + trim(s.parent_batch_sql) + "\n\n"@));
    lemma_occurs_middle("--- [Session "@ + int_decimal(n) + "] ---\n"@ + spid_line(s) + wait_line(s) + resource_line(s) + io_line(s) + rows_line(s) + ("Client Address: "@ + s.client_net_address), " | Login Name: "@ + s.login_name + " | DB Name: "@, (s.database_name + "\n"@) + command_line(s) + "Executing SQL:\n"@ + trim(s.executing_sql) + "\n"@ + "Parent Batch SQL:\n"@ + trim(s.parent_batch_sql) + "\n\n"@);
}

#[verifier::rlimit(40)]
proof fn lemma_session_block_labels_18(n: int, s: SessionView)
    ensures
        contains(session_block_text(n, s), " | DB Name: "@ + s.database_name + "\n"@),
{
    reveal(session_block_text);
    reveal(client_line);
    assert(session_block_text(n, s) =~= ("--- [Session "@ + int_decimal(n) + "] ---\n"@ + spid_line(s) + wait_line(s) + resource_line(s) + io_line(s) + rows_line(s) + ("Client Address: "@ + s.client_net_address + " | Login Name: "@ + s.login_name)) + (" | DB Name: "@ + s.database_name + "\n"@) + (command_line(s) + "Executing SQL:\n"@ + trim(s.executing_sql) + "\n"@ + "Parent Batch SQL:\n"@ + trim(s.parent_batch_sql) + "\n\n"@));
    lemma_occurs_middle("--- [Session "@ + int_decimal(n) + "] ---\n"@ + spid_line(s) + wait_line(s) + resource_line(s) + io_line(s) + rows_line(s) + ("Client Address: "@ + s.client_net_address + " | Login Name: "@ + s.login_name), " | DB Name: "@ + s.database_name + "\n"@, command_line(s) + "Executing SQL:\n"@ + trim(s.executing_sql) + "\n"@ + "Parent Batch SQL:\n"@ + trim(s.parent_batch_sql) + "\n\n"@);
}

#[verifier::rlimit(40)]
proof fn lemma_session_block_labels_19(n: int, s: SessionView)
    ensures
        contains(session_block_text(n, s), "Command: "@ + s.command + " | Start Time: "@),
{
    reveal(session_block_text);
    reveal(command_line);
    assert(session_block_text(n, s) =~= ("--- [Session "@ + int_decimal(n) + "] ---\n"@ + spid_line(s) + wait_line(s) + resource_line(s) + io_line(s) + rows_line(s) + client_line(s)) + ("Command: "@ + s.command + " | Start Time: "@) + ((s.start_time + "\n"@) + "Executing SQL:\n"@ + trim(s.executing_sql) + "\n"@ + "Parent Batch SQL:\n"@ + trim(s.parent_batch_sql) + "\n\n"@));
    lemma_occurs_middle("--- [Session "@ + int_decimal(n) + "] ---\n"@ + spid_line(s) + wait_line(s) + resource_line(s) + io_line(s) + rows_line(s) + client_line(s), "Command: "@ + s.command + " | Start Time: "@, (s.start_time + "\n"@) + "Executing SQL:\n"@ + trim(s.executing_sql) + "\n"@ + "Parent Batch SQL:\n"@ + trim(s.parent_batch_sql) + "\n\n"@);
}

#[verifier::rlimit(40)]
proof fn lemma_session_block_labels_20(n: int, s: SessionView)
    ensures
        contains(session_block_text(n, s), " | Start Time: "@ + s.start_time + "\n"@),
{
    reveal(session_block_text);
    reveal(command_line);
    assert(session_block_text(n, s) =~= ("--- [Session "@ + int_decimal(n) + "] ---\n"@ + spid_line(s) + wait_line(s) + resource_line(s) + io_line(s) + rows_line(s) + client_line(s) + ("Command: "@ + s.command)) + (" | Start Time: "@ + s.start_time + "\n"@) + ("Executing SQL:\n"@ + trim(s.executing_sql) + "\n"@ + "Parent Batch SQL:\n"@ + trim(s.parent_batch_sql) + "\n\n"@));
    lemma_occurs_middle("--- [Session "@ + int_decimal(n) + "] ---\n"@ + spid_line(s) + wait_line(s) + resource_line(s) + io_line(s) + rows_line(s) + client_line(s) + ("Command: "@ + s.command), " | Start Time: "@ + s.start_time + "\n"@, "Executing SQL:\n"@ + trim(s.executing_sql) + "\n"@ + "Parent Batch SQL:\n"@ + trim(s.parent_batch_sql) + "\n\n"@);
}

#[verifier::rlimit(80)]
proof fn lemma_session_block_labels_21(n: int, s: SessionView)
    ensures
        contains(session_block_text(n, s), "Executing SQL:\n"@ + trim(s.executing_sql) + "\n"@),
{
    reveal(session_block_text);
    assert(session_block_text(n, s) =~= ("--- [Session "@ + int_decimal(n) + "] ---\n"@ + spid_line(s) + wait_line(s) + resource_line(s) + io_line(s) + rows_line(s) + client_line(s) + command_line(s)) + ("Executing SQL:\n"@ + trim(s.executing_sql) + "\n"@) + ("Parent Batch SQL:\n"@ + trim(s.parent_batch_sql) + "\n\n"@));
    lemma_occurs_middle("--- [Session "@ + int_decimal(n) + "] ---\n"@ + spid_line(s) + wait_line(s) + resource_line(s) + io_line(s) + rows_line(s) + client_line(s) + command_line(s), "Executing SQL:\n"@ + trim(s.executing_sql) + "\n"@, "Parent Batch SQL:\n"@ + trim(s.parent_batch_sql) + "\n\n"@);
}

#[verifier::rlimit(80)]
proof fn lemma_session_block_labels_22(n: int, s: SessionView)
    ensures
        contains(session_block_text(n, s), "Parent Batch SQL:\n"@ + trim(s.parent_batch_sql) + "\n\n"@),
{
    reveal(session_block_text);
    assert(session_block_text(n, s) =~= ("--- [Session "@ + int_decimal(n) + "] ---\n"@ + spid_line(s) + wait_line(s) + resource_line(s) + io_line(s) + rows_line(s) + client_line(s) + command_line(s) + "Executing SQL:\n"@ + trim(s.executing_sql) + "\n"@) + ("Parent Batch SQL:\n"@ + trim(s.parent_batch_sql) + "\n\n"@) + (Seq::<char>::empty()));
    lemma_occurs_middle("--- [Session "@ + int_decimal(n) + "] ---\n"@ + spid_line(s) + wait_line(s) + resource_line(s) + io_line(s) + rows_line(s) + client_line(s) + command_line(s) + "Executing SQL:\n"@ + trim(s.executing_sql) + "\n"@, "Parent Batch SQL:\n"@ + trim(s.parent_batch_sql) + "\n\n"@, Seq::<char>::empty());
}

#[verifier::rlimit(40)]
proof fn lemma_session_block_labels_len(n: int, s: SessionView)
    ensures
        session_block_text(n, s).len() == ("--- [Session "@).len() + (int_decimal(n)).len() + ("] ---\n"@).len() + ("SPID: "@).len() + (int_decimal(s.session_id)).len() + (" | Elapsed Time: "@).len() + (int_decimal(s.elapsed_time_ms)).len() + (" ms | Status: "@).len() + (s.status).len() + ("\n"@).len() + ("Wait Type: "@).len() + (s.wait_type).len() + (" ("@).len() + (int_decimal(s.wait_time_ms)).len() + (" ms) | Last Wait: "@).len() + (s.last_wait_type).len() + ("\n"@).len() + ("Wait Resource: "@).len() + (s.wait_resource).len() + (" | Blocking SPID: "@).len() + (int_decimal(s.wait_session_id)).len() + ("\n"@).len() + ("CPU Time: "@).len() + (int_decimal(s.cpu_time_ms)).len() + (" ms | Logical Reads: "@).len() + (int_decimal(s.logical_reads)).len() + (" | Physical Reads: "@).len() + (int_decimal(s.physical_reads)).len() + (" | Writes: "@).len() + (int_decimal(s.writes)).len() + ("\n"@).len() + ("Row Count: "@).len() + (int_decimal(s.row_count)).len() + (" | Open Trans: "@).len() + (int_decimal(s.open_transaction_count)).len() + (" | DOP: "@).len() + (int_decimal(s.dop)).len() + ("\n"@).len() + ("Client Address: "@).len() + (s.client_net_address).len() + (" | Login Name: "@).len() + (s.login_name).len() + (" | DB Name: "@).len() + (s.database_name).len() + ("\n"@).len() + ("Command: "@).len() + (s.command).len() + (" | Start Time: "@).len() + (s.start_time).len() + ("\n"@).len() + ("Executing SQL:\n"@).len() + (trim(s.executing_sql)).len() + ("\n"@).len() + ("Parent Batch SQL:\n"@).len() + (trim(s.parent_batch_sql)).len() + ("\n\n"@).len(),
{
    reveal(session_block_text);
    reveal(spid_line);
    reveal(wait_line);
    reveal(resource_line);
    reveal(io_line);
    reveal(rows_line);
    reveal(client_line);
    reveal(command_line);
}

/// The snapshot log block `t` of the `n`-th captured request `s` gives each
/// field after its label, followed by the next label or the line's end, and
/// holds nothing more than its labels, fields and line breaks.
pub open spec fn session_block_labels(n: int, s: SessionView, t: Seq<char>) -> bool {
    &&& contains(t, "--- [Session "@ + int_decimal(n) + "] ---\n"@)
    &&& contains(t, "SPID: "@ + int_decimal(s.session_id) + " | Elapsed Time: "@)
    &&& contains(t, " | Elapsed Time: "@ + int_decimal(s.elapsed_time_ms) + " ms | Status: "@)
    &&& contains(t, " ms | Status: "@ + s.status + "\n"@)
    &&& contains(t, "Wait Type: "@ + s.wait_type + " ("@)
    &&& contains(t, " ("@ + int_decimal(s.wait_time_ms) + " ms) | Last Wait: "@)
    &&& contains(t, " ms) | Last Wait: "@ + s.last_wait_type + "\n"@)
    &&& contains(t, "Wait Resource: "@ + s.wait_resource + " | Blocking SPID: "@)
    &&& contains(t, " | Blocking SPID: "@ + int_decimal(s.wait_session_id) + "\n"@)
    &&& contains(t, "CPU Time: "@ + int_decimal(s.cpu_time_ms) + " ms | Logical Reads: "@)
    &&& contains(t, " ms | Logical Reads: "@ + int_decimal(s.logical_reads) + " | Physical Reads: "@)
    &&& contains(t, " | Physical Reads: "@ + int_decimal(s.physical_reads) + " | Writes: "@)
    &&& contains(t, " | Writes: "@ + int_decimal(s.writes) + "\n"@)
    &&& contains(t, "Row Count: "@ + int_decimal(s.row_count) + " | Open Trans: "@)
    &&& contains(t, " | Open Trans: "@ + int_decimal(s.open_transaction_count) + " | DOP: "@)
    &&& contains(t, " | DOP: "@ + int_decimal(s.dop) + "\n"@)
    &&& contains(t, "Client Address: "@ + s.client_net_address + " | Login Name: "@)
    &&& contains(t, " | Login Name: "@ + s.login_name + " | DB Name: "@)
    &&& contains(t, " | DB Name: "@ + s.database_name + "\n"@)
    &&& contains(t, "Command: "@ + s.command + " | Start Time: "@)
    &&& contains(t, " | Start Time: "@ + s.start_time + "\n"@)
    &&& contains(t, "Executing SQL:\n"@ + trim(s.executing_sql) + "\n"@)
    &&& contains(t, "Parent Batch SQL:\n"@ + trim(s.parent_batch_sql) + "\n\n"@)
    &&& t.len() == ("--- [Session "@).len() + (int_decimal(n)).len() + ("] ---\n"@).len() + ("SPID: "@).len() + (int_decimal(s.session_id)).len() + (" | Elapsed Time: "@).len() + (int_decimal(s.elapsed_time_ms)).len() + (" ms | Status: "@).len() + (s.status).len() + ("\n"@).len() + ("Wait Type: "@).len() + (s.wait_type).len() + (" ("@).len() + (int_decimal(s.wait_time_ms)).len() + (" ms) | Last Wait: "@).len() + (s.last_wait_type).len() + ("\n"@).len() + ("Wait Resource: "@).len() + (s.wait_resource).len() + (" | Blocking SPID: "@).len() + (int_decimal(s.wait_session_id)).len() + ("\n"@).len() + ("CPU Time: "@).len() + (int_decimal(s.cpu_time_ms)).len() + (" ms | Logical Reads: "@).len() + (int_decimal(s.logical_reads)).len() + (" | Physical Reads: "@).len() + (int_decimal(s.physical_reads)).len() + (" | Writes: "@).len() + (int_decimal(s.writes)).len() + ("\n"@).len() + ("Row Count: "@).len() + (int_decimal(s.row_count)).len() + (" | Open Trans: "@).len() + (int_decimal(s.open_transaction_count)).len() + (" | DOP: "@).len() + (int_decimal(s.dop)).len() + ("\n"@).len() + ("Client Address: "@).len() + (s.client_net_address).len() + (" | Login Name: "@).len() + (s.login_name).len() + (" | DB Name: "@).len() + (s.database_name).len() + ("\n"@).len() + ("Command: "@).len() + (s.command).len() + (" | Start Time: "@).len() + (s.start_time).len() + ("\n"@).len() + ("Executing SQL:\n"@).len() + (trim(s.executing_sql)).len() + ("\n"@).len() + ("Parent Batch SQL:\n"@).len() + (trim(s.parent_batch_sql)).len() + ("\n\n"@).len()
}

/// In the snapshot log, each request's block gives every field after its own
/// label (numbers in decimal), and nothing else.
pub proof fn law_session_block_labels(n: int, s: SessionView)
    ensures
        session_block_labels(n, s, session_block_text(n, s)),
{
    lemma_session_block_labels_0(n, s);
    lemma_session_block_labels_1(n, s);
    lemma_session_block_labels_2(n, s);
    lemma_session_block_labels_3(n, s);
    lemma_session_block_labels_4(n, s);
    lemma_session_block_labels_5(n, s);
    lemma_session_block_labels_6(n, s);
    lemma_session_block_labels_7(n, s);
    lemma_session_block_labels_8(n, s);
    lemma_session_block_labels_9(n, s);
    lemma_session_block_labels_10(n, s);
    lemma_session_block_labels_11(n, s);
    lemma_session_block_labels_12(n, s);
    lemma_session_block_labels_13(n, s);
    lemma_session_block_labels_14(n, s);
    lemma_session_block_labels_15(n, s);
    lemma_session_block_labels_16(n, s);
    lemma_session_block_labels_17(n, s);
    lemma_session_block_labels_18(n, s);
    lemma_session_block_labels_19(n, s);
    lemma_session_block_labels_20(n, s);
    lemma_session_block_labels_21(n, s);
    lemma_session_block_labels_22(n, s);
    lemma_session_block_labels_len(n, s);
}


#[verifier::rlimit(40)]
proof fn lemma_alert_entry_labels_0(log_time: Seq<char>, server_id: Seq<char>, s: SessionView)
    ensures
        contains(alert_log_text(log_time, server_id, s), "["@ + log_time + "] Server: "@),
{
    reveal(alert_head);
    assert(alert_log_text(log_time, server_id, s) =~= (Seq::<char>::empty()) + ("["@ + log_time + "] Server: "@) + ((server_id + " | SPID: "@ + int_decimal(s.session_id) + " | Alert! Session Elapsed: "@ + int_decimal(s.elapsed_time_ms) + " ms\n"@) + alert_wait_lines(s) + alert_cpu_lines(s) + alert_write_lines(s) + alert_client_lines(s) + separator_line() + "\n"@));
    lemma_occurs_middle(Seq::<char>::empty(), "["@ + log_time + "] Server: "@, (server_id + " | SPID: "@ + int_decimal(s.session_id) + " | Alert! Session Elapsed: "@ + int_decimal(s.elapsed_time_ms) + " ms\n"@) + alert_wait_lines(s) + alert_cpu_lines(s) + alert_write_lines(s) + alert_client_lines(s) + separator_line() + "\n"@);
}

#[verifier::rlimit(40)]
proof fn lemma_alert_entry_labels_1(log_time: Seq<char>, server_id: Seq<char>, s: SessionView)
    ensures
        contains(alert_log_text(log_time, server_id, s), "] Server: "@ + server_id + " | SPID: "@),
{
    reveal(alert_head);
    assert(alert_log_text(log_time, server_id, s) =~= (("["@ + log_time)) + ("] Server: "@ + server_id + " | SPID: "@) + ((int_decimal(s.session_id) + " | Alert! Session Elapsed: "@ + int_decimal(s.elapsed_time_ms) + " ms\n"@) + alert_wait_lines(s) + alert_cpu_lines(s) + alert_write_lines(s) + alert_client_lines(s) + separator_line() + "\n"@));
    lemma_occurs_middle(("["@ + log_time), "] Server: "@ + server_id + " | SPID: "@, (int_decimal(s.session_id) + " | Alert! Session Elapsed: "@ + int_decimal(s.elapsed_time_ms) + " ms\n"@) + alert_wait_lines(s) + alert_cpu_lines(s) + alert_write_lines(s) + alert_client_lines(s) + separator_line() + "\n"@);
}

#[verifier::rlimit(40)]
proof fn lemma_alert_entry_labels_2(log_time: Seq<char>, server_id: Seq<char>, s: SessionView)
    ensures
        contains(alert_log_text(log_time, server_id, s), " | SPID: "@ + int_decimal(s.session_id) + " | Alert! Session Elapsed: "@),
{
    reveal(alert_head);
    assert(alert_log_text(log_time, server_id, s) =~= (("["@ + log_time + "] Server: "@ + server_id)) + (" | SPID: "@ + int_decimal(s.session_id) + " | Alert! Session Elapsed: "@) + ((int_decimal(s.elapsed_time_ms) + " ms\n"@) + alert_wait_lines(s) + alert_cpu_lines(s) + alert_write_lines(s) + alert_client_lines(s) + separator_line() + "\n"@));
    lemma_occurs_middle(("["@ + log_time + "] Server: "@ + server_id), " | SPID: "@ + int_decimal(s.session_id) + " | Alert! Session Elapsed: "@, (int_decimal(s.elapsed_time_ms) + " ms\n"@) + alert_wait_lines(s) + alert_cpu_lines(s) + alert_write_lines(s) + alert_client_lines(s) + separator_line() + "\n"@);
}

#[verifier::rlimit(40)]
proof fn lemma_alert_entry_labels_3(log_time: Seq<char>, server_id: Seq<char>, s: SessionView)
    ensures
        contains(alert_log_text(log_time, server_id, s), " | Alert! Session Elapsed: "@ + int_decimal(s.elapsed_time_ms) + " ms\n"@),
{
    reveal(alert_head);
    assert(alert_log_text(log_time, server_id, s) =~= (("["@ + log_time + "] Server: "@ + server_id + " | SPID: "@ + int_decimal(s.session_id))) + (" | Alert! Session Elapsed: "@ + int_decimal(s.elapsed_time_ms) + " ms\n"@) + (alert_wait_lines(s) + alert_cpu_lines(s) + alert_write_lines(s) + alert_client_lines(s) + separator_line() + "\n"@));
    lemma_occurs_middle(("["@ + log_time + "] Server: "@ + server_id + " | SPID: "@ + int_decimal(s.session_id)), " | Alert! Session Elapsed: "@ + int_decimal(s.elapsed_time_ms) + " ms\n"@, alert_wait_lines(s) + alert_cpu_lines(s) + alert_write_lines(s) + alert_client_lines(s) + separator_line() + "\n"@);
}

#[verifier::rlimit(40)]
proof fn lemma_alert_entry_labels_4(log_time: Seq<char>, server_id: Seq<char>, s: SessionView)
    ensures
        contains(alert_log_text(log_time, server_id, s), "\tStatus: "@ + s.status + "\n"@),
{
    reveal(alert_wait_lines);
    assert(alert_log_text(log_time, server_id, s) =~= (alert_head(log_time, server_id, s)) + ("\tStatus: "@ + s.status + "\n"@) + (("\tWaitType: "@ + s.wait_type + " (Time: "@ + int_decimal(s.wait_time_ms) + " ms)\n"@ + "\tLastWaitType: "@ + s.last_wait_type + "\n"@ + "\tWaitResource: "@ + s.wait_resource + "\n"@ + "\tWaitSessionID (Blocking): "@ + int_decimal(s.wait_session_id) + "\n"@) + alert_cpu_lines(s) + alert_write_lines(s) + alert_client_lines(s) + separator_line() + "\n"@));
    lemma_occurs_middle(alert_head(log_time, server_id, s), "\tStatus: "@ + s.status + "\n"@, ("\tWaitType: "@ + s.wait_type + " (Time: "@ + int_decimal(s.wait_time_ms) + " ms)\n"@ + "\tLastWaitType: "@ + s.last_wait_type + "\n"@ + "\tWaitResource: "@ + s.wait_resource + "\n"@ + "\tWaitSessionID (Blocking): "@ + int_decimal(s.wait_session_id) + "\n"@) + alert_cpu_lines(s) + alert_write_lines(s) + alert_client_lines(s) + separator_line() + "\n"@);
}

#[verifier::rlimit(40)]
proof fn lemma_alert_entry_labels_5(log_time: Seq<char>, server_id: Seq<char>, s: SessionView)
    ensures
        contains(alert_log_text(log_time, server_id, s), "\tWaitType: "@ + s.wait_type + " (Time: "@),
{
    reveal(alert_wait_lines);
    assert(alert_log_text(log_time, server_id, s) =~= (alert_head(log_time, server_id, s) + ("\tStatus: "@ + s.status + "\n"@)) + ("\tWaitType: "@ + s.wait_type + " (Time: "@) + ((int_decimal(s.wait_time_ms) + " ms)\n"@ + "\tLastWaitType: "@ + s.last_wait_type + "\n"@ + "\tWaitResource: "@ + s.wait_resource + "\n"@ + "\tWaitSessionID (Blocking): "@ + int_decimal(s.wait_session_id) + "\n"@) + alert_cpu_lines(s) + alert_write_lines(s) + alert_client_lines(s) + separator_line() + "\n"@));
    lemma_occurs_middle(alert_head(log_time, server_id, s) + ("\tStatus: "@ + s.status + "\n"@), "\tWaitType: "@ + s.wait_type + " (Time: "@, (int_decimal(s.wait_time_ms) + " ms)\n"@ + "\tLastWaitType: "@ + s.last_wait_type + "\n"@ + "\tWaitResource: "@ + s.wait_resource + "\n"@ + "\tWaitSessionID (Blocking): "@ + int_decimal(s.wait_session_id) + "\n"@) + alert_cpu_lines(s) + alert_write_lines(s) + alert_client_lines(s) + separator_line() + "\n"@);
}

#[verifier::rlimit(40)]
proof fn lemma_alert_entry_labels_6(log_time: Seq<char>, server_id: Seq<char>, s: SessionView)
    ensures
        contains(alert_log_text(log_time, server_id, s), " (Time: "@ + int_decimal(s.wait_time_ms) + " ms)\n"@),
{
    reveal(alert_wait_lines);
    assert(alert_log_text(log_time, server_id, s) =~= (alert_head(log_time, server_id, s) + ("\tStatus: "@ + s.status + "\n"@ + "\tWaitType: "@ + s.wait_type)) + (" (Time: "@ + int_decimal(s.wait_time_ms) + " ms)\n"@) + (("\tLastWaitType: "@ + s.last_wait_type + "\n"@ + "\tWaitResource: "@ + s.wait_resource + "\n"@ + "\tWaitSessionID (Blocking): "@ + int_decimal(s.wait_session_id) + "\n"@) + alert_cpu_lines(s) + alert_write_lines(s) + alert_client_lines(s) + separator_line() + "\n"@));
    lemma_occurs_middle(alert_head(log_time, server_id, s) + ("\tStatus: "@ + s.status + "\n"@ + "\tWaitType: "@ + s.wait_type), " (Time: "@ + int_decimal(s.wait_time_ms) + " ms)\n"@, ("\tLastWaitType: "@ + s.last_wait_type + "\n"@ + "\tWaitResource: "@ + s.wait_resource + "\n"@ + "\tWaitSessionID (Blocking): "@ + int_decimal(s.wait_session_id) + "\n"@) + alert_cpu_lines(s) + alert_write_lines(s) + alert_client_lines(s) + separator_line() + "\n"@);
}

#[verifier::rlimit(40)]
proof fn lemma_alert_entry_labels_7(log_time: Seq<char>, server_id: Seq<char>, s: SessionView)
    ensures
        contains(alert_log_text(log_time, server_id, s), "\tLastWaitType: "@ + s.last_wait_type + "\n"@),
{
    reveal(alert_wait_lines);
    assert(alert_log_text(log_time, server_id, s) =~= (alert_head(log_time, server_id, s) + ("\tStatus: "@ + s.status + "\n"@ + "\tWaitType: "@ + s.wait_type + " (Time: "@ + int_decimal(s.wait_time_ms) + " ms)\n"@)) + ("\tLastWaitType: "@ + s.last_wait_type + "\n"@) + (("\tWaitResource: "@ + s.wait_resource + "\n"@ + "\tWaitSessionID (Blocking): "@ + int_decimal(s.wait_session_id) + "\n"@) + alert_cpu_lines(s) + alert_write_lines(s) + alert_client_lines(s) + separator_line() + "\n"@));
    lemma_occurs_middle(alert_head(log_time, server_id, s) + ("\tStatus: "@ + s.status + "\n"@ + "\tWaitType: "@ + s.wait_type + " (Time: "@ + int_decimal(s.wait_time_ms) + " ms)\n"@), "\tLastWaitType: "@ + s.last_wait_type + "\n"@, ("\tWaitResource: "@ + s.wait_resource + "\n"@ + "\tWaitSessionID (Blocking): "@ + int_decimal(s.wait_session_id) + "\n"@) + alert_cpu_lines(s) + alert_write_lines(s) + alert_client_lines(s) + separator_line() + "\n"@);
}

#[verifier::rlimit(40)]
proof fn lemma_alert_entry_labels_8(log_time: Seq<char>, server_id: Seq<char>, s: SessionView)
    ensures
        contains(alert_log_text(log_time, server_id, s), "\tWaitResource: "@ + s.wait_resource + "\n"@),
{
    reveal(alert_wait_lines);
    assert(alert_log_text(log_time, server_id, s) =~= (alert_head(log_time, server_id, s) + ("\tStatus: "@ + s.status + "\n"@ + "\tWaitType: "@ + s.wait_type + " (Time: "@ + int_decimal(s.wait_time_ms) + " ms)\n"@ + "\tLastWaitType: "@ + s.last_wait_type + "\n"@)) + ("\tWaitResource: "@ + s.wait_resource + "\n"@) + (("\tWaitSessionID (Blocking): "@ + int_decimal(s.wait_session_id) + "\n"@) + alert_cpu_lines(s) + alert_write_lines(s) + alert_client_lines(s) + separator_line() + "\n"@));
    lemma_occurs_middle(alert_head(log_time, server_id, s) + ("\tStatus: "@ + s.status + "\n"@ + "\tWaitType: "@ + s.wait_type + " (Time: "@ + int_decimal(s.wait_time_ms) + " ms)\n"@ + "\tLastWaitType: "@ + s.last_wait_type + "\n"@), "\tWaitResource: "@ + s.wait_resource + "\n"@, ("\tWaitSessionID (Blocking): "@ + int_decimal(s.wait_session_id) + "\n"@) + alert_cpu_lines(s) + alert_write_lines(s) + alert_client_lines(s) + separator_line() + "\n"@);
}

#[verifier::rlimit(40)]
proof fn lemma_alert_entry_labels_9(log_time: Seq<char>, server_id: Seq<char>, s: SessionView)
    ensures
        contains(alert_log_text(log_time, server_id, s), "\tWaitSessionID (Blocking): "@ + int_decimal(s.wait_session_id) + "\n"@),
{
    reveal(alert_wait_lines);
    assert(alert_log_text(log_time, server_id, s) =~= (alert_head(log_time, server_id, s) + ("\tStatus: "@ + s.status + "\n"@ + "\tWaitType: "@ + s.wait_type + " (Time: "@ + int_decimal(s.wait_time_ms) + " ms)\n"@ + "\tLastWaitType: "@ + s.last_wait_type + "\n"@ + "\tWaitResource: "@ + s.wait_resource + "\n"@)) + ("\tWaitSessionID (Blocking): "@ + int_decimal(s.wait_session_id) + "\n"@) + (alert_cpu_lines(s) + alert_write_lines(s) + alert_client_lines(s) + separator_line() + "\n"@));
    lemma_occurs_middle(alert_head(log_time, server_id, s) + ("\tStatus: "@ + s.status + "\n"@ + "\tWaitType: "@ + s.wait_type + " (Time: "@ + int_decimal(s.wait_time_ms) + " ms)\n"@ + "\tLastWaitType: "@ + s.last_wait_type + "\n"@ + "\tWaitResource: "@ + s.wait_resource + "\n"@), "\tWaitSessionID (Blocking): "@ + int_decimal(s.wait_session_id) + "\n"@, alert_cpu_lines(s) + alert_write_lines(s) + alert_client_lines(s) + separator_line() + "\n"@);
}

#[verifier::rlimit(40)]
proof fn lemma_alert_entry_labels_10(log_time: Seq<char>, server_id: Seq<char>, s: SessionView)
    ensures
        contains(alert_log_text(log_time, server_id, s), "\tCPU Time: "@ + int_decimal(s.cpu_time_ms) + " ms\n"@),
{
    reveal(alert_cpu_lines);
    assert(alert_log_text(log_time, server_id, s) =~= (alert_head(log_time, server_id, s) + alert_wait_lines(s)) + ("\tCPU Time: "@ + int_decimal(s.cpu_time_ms) + " ms\n"@) + (("\tLogical Reads: "@ + int_decimal(s.logical_reads) + "\n"@ + "\tPhysical Reads: "@ + int_decimal(s.physical_reads) + "\n"@) + alert_write_lines(s) + alert_client_lines(s) + separator_line() + "\n"@));
    lemma_occurs_middle(alert_head(log_time, server_id, s) + alert_wait_lines(s), "\tCPU Time: "@ + int_decimal(s.cpu_time_ms) + " ms\n"@, ("\tLogical Reads: "@ + int_decimal(s.logical_reads) + "\n"@ + "\tPhysical Reads: "@ + int_decimal(s.physical_reads) + "\n"@) + alert_write_lines(s) + alert_client_lines(s) + separator_line() + "\n"@);
}

#[verifier::rlimit(40)]
proof fn lemma_alert_entry_labels_11(log_time: Seq<char>, server_id: Seq<char>, s: SessionView)
    ensures
        contains(alert_log_text(log_time, server_id, s), "\tLogical Reads: "@ + int_decimal(s.logical_reads) + "\n"@),
{
    reveal(alert_cpu_lines);
    assert(alert_log_text(log_time, server_id, s) =~= (alert_head(log_time, server_id, s) + alert_wait_lines(s) + ("\tCPU Time: "@ + int_decimal(s.cpu_time_ms) + " ms\n"@)) + ("\tLogical Reads: "@ + int_decimal(s.logical_reads) + "\n"@) + (("\tPhysical Reads: "@ + int_decimal(s.physical_reads) + "\n"@) + alert_write_lines(s) + alert_client_lines(s) + separator_line() + "\n"@));
    lemma_occurs_middle(alert_head(log_time, server_id, s) + alert_wait_lines(s) + ("\tCPU Time: "@ + int_decimal(s.cpu_time_ms) + " ms\n"@), "\tLogical Reads: "@ + int_decimal(s.logical_reads) + "\n"@, ("\tPhysical Reads: "@ + int_decimal(s.physical_reads) + "\n"@) + alert_write_lines(s) + alert_client_lines(s) + separator_line() + "\n"@);
}

#[verifier::rlimit(40)]
proof fn lemma_alert_entry_labels_12(log_time: Seq<char>, server_id: Seq<char>, s: SessionView)
    ensures
        contains(alert_log_text(log_time, server_id, s), "\tPhysical Reads: "@ + int_decimal(s.physical_reads) + "\n"@),
{
    reveal(alert_cpu_lines);
    assert(alert_log_text(log_time, server_id, s) =~= (alert_head(log_time, server_id, s) + alert_wait_lines(s) + ("\tCPU Time: "@ + int_decimal(s.cpu_time_ms) + " ms\n"@ + "\tLogical Reads: "@ + int_decimal(s.logical_reads) + "\n"@)) + ("\tPhysical Reads: "@ + int_decimal(s.physical_reads) + "\n"@) + (alert_write_lines(s) + alert_client_lines(s) + separator_line() + "\n"@));
    lemma_occurs_middle(alert_head(log_time, server_id, s) + alert_wait_lines(s) + ("\tCPU Time: "@ + int_decimal(s.cpu_time_ms) + " ms\n"@ + "\tLogical Reads: "@ + int_decimal(s.logical_reads) + "\n"@), "\tPhysical Reads: "@ + int_decimal(s.physical_reads) + "\n"@, alert_write_lines(s) + alert_client_lines(s) + separator_line() + "\n"@);
}

#[verifier::rlimit(40)]
proof fn lemma_alert_entry_labels_13(log_time: Seq<char>, server_id: Seq<char>, s: SessionView)
    ensures
        contains(alert_log_text(log_time, server_id, s), "\tWrites: "@ + int_decimal(s.writes) + "\n"@),
{
    reveal(alert_write_lines);
    assert(alert_log_text(log_time, server_id, s) =~= (alert_head(log_time, server_id, s) + alert_wait_lines(s) + alert_cpu_lines(s)) + ("\tWrites: "@ + int_decimal(s.writes) + "\n"@) + (("\tRowCount: "@ + int_decimal(s.row_count) + "\n"@ + "\tOpen Trans: "@ + int_decimal(s.open_transaction_count) + "\n"@ + "\tDOP: "@ + int_decimal(s.dop) + "\n"@) + alert_client_lines(s) + separator_line() + "\n"@));
    lemma_occurs_middle(alert_head(log_time, server_id, s) + alert_wait_lines(s) + alert_cpu_lines(s), "\tWrites: "@ + int_decimal(s.writes) + "\n"@, ("\tRowCount: "@ + int_decimal(s.row_count) + "\n"@ + "\tOpen Trans: "@ + int_decimal(s.open_transaction_count) + "\n"@ + "\tDOP: "@ + int_decimal(s.dop) + "\n"@) + alert_client_lines(s) + separator_line() + "\n"@);
}

#[verifier::rlimit(40)]
proof fn lemma_alert_entry_labels_14(log_time: Seq<char>, server_id: Seq<char>, s: SessionView)
    ensures
        contains(alert_log_text(log_time, server_id, s), "\tRowCount: "@ + int_decimal(s.row_count) + "\n"@),
{
    reveal(alert_write_lines);
    assert(alert_log_text(log_time, server_id, s) =~= (alert_head(log_time, server_id, s) + alert_wait_lines(s) + alert_cpu_lines(s) + ("\tWrites: "@ + int_decimal(s.writes) + "\n"@)) + ("\tRowCount: "@ + int_decimal(s.row_count) + "\n"@) + (("\tOpen Trans: "@ + int_decimal(s.open_transaction_count) + "\n"@ + "\tDOP: "@ + int_decimal(s.dop) + "\n"@) + alert_client_lines(s) + separator_line() + "\n"@));
    lemma_occurs_middle(alert_head(log_time, server_id, s) + alert_wait_lines(s) + alert_cpu_lines(s) + ("\tWrites: "@ + int_decimal(s.writes) + "\n"@), "\tRowCount: "@ + int_decimal(s.row_count) + "\n"@, ("\tOpen Trans: "@ + int_decimal(s.open_transaction_count) + "\n"@ + "\tDOP: "@ + int_decimal(s.dop) + "\n"@) + alert_client_lines(s) + separator_line() + "\n"@);
}

#[verifier::rlimit(40)]
proof fn lemma_alert_entry_labels_15(log_time: Seq<char>, server_id: Seq<char>, s: SessionView)
    ensures
        contains(alert_log_text(log_time, server_id, s), "\tOpen Trans: "@ + int_decimal(s.open_transaction_count) + "\n"@),
{
    reveal(alert_write_lines);
    assert(alert_log_text(log_time, server_id, s) =~= (alert_head(log_time, server_id, s) + alert_wait_lines(s) + alert_cpu_lines(s) + ("\tWrites: "@ + int_decimal(s.writes) + "\n"@ + "\tRowCount: "@ + int_decimal(s.row_count) + "\n"@)) + ("\tOpen Trans: "@ + int_decimal(s.open_transaction_count) + "\n"@) + (("\tDOP: "@ + int_decimal(s.dop) + "\n"@) + alert_client_lines(s) + separator_line() + "\n"@));
    lemma_occurs_middle(alert_head(log_time, server_id, s) + alert_wait_lines(s) + alert_cpu_lines(s) + ("\tWrites: "@ + int_decimal(s.writes) + "\n"@ + "\tRowCount: "@ + int_decimal(s.row_count) + "\n"@), "\tOpen Trans: "@ + int_decimal(s.open_transaction_count) + "\n"@, ("\tDOP: "@ + int_decimal(s.dop) + "\n"@) + alert_client_lines(s) + separator_line() + "\n"@);
}

#[verifier::rlimit(40)]
proof fn lemma_alert_entry_labels_16(log_time: Seq<char>, server_id: Seq<char>, s: SessionView)
    ensures
        contains(alert_log_text(log_time, server_id, s), "\tDOP: "@ + int_decimal(s.dop) + "\n"@),
{
    reveal(alert_write_lines);
    assert(alert_log_text(log_time, server_id, s) =~= (alert_head(log_time, server_id, s) + alert_wait_lines(s) + alert_cpu_lines(s) + ("\tWrites: "@ + int_decimal(s.writes) + "\n"@ + "\tRowCount: "@ + int_decimal(s.row_count) + "\n"@ + "\tOpen Trans: "@ + int_decimal(s.open_transaction_count) + "\n"@)) + ("\tDOP: "@ + int_decimal(s.dop) + "\n"@) + (alert_client_lines(s) + separator_line() + "\n"@));
    lemma_occurs_middle(alert_head(log_time, server_id, s) + alert_wait_lines(s) + alert_cpu_lines(s) + ("\tWrites: "@ + int_decimal(s.writes) + "\n"@ + "\tRowCount: "@ + int_decimal(s.row_count) + "\n"@ + "\tOpen Trans: "@ + int_decimal(s.open_transaction_count) + "\n"@), "\tDOP: "@ + int_decimal(s.dop) + "\n"@, alert_client_lines(s) + separator_line() + "\n"@);
}

#[verifier::rlimit(40)]
proof fn lemma_alert_entry_labels_17(log_time: Seq<char>, server_id: Seq<char>, s: SessionView)
    ensures
        contains(alert_log_text(log_time, server_id, s), "\tClient Address: "@ + s.client_net_address + "\n"@),
{
    reveal(alert_client_lines);
    assert(alert_log_text(log_time, server_id, s) =~= (alert_head(log_time, server_id, s) + alert_wait_lines(s) + alert_cpu_lines(s) + alert_write_lines(s)) + ("\tClient Address: "@ + s.client_net_address + "\n"@) + (("\tLogin Name: "@ + s.login_name + "\n"@ + "\tDB Name: "@ + s.database_name + "\n"@ + "\tCommand: "@ + s.command + "\n"@ + "\tStart Time: "@ + s.start_time + "\n"@ + "\tExecuting SQL: "@ + trim(s.executing_sql) + "\n"@ + "\tParent Batch SQL: "@ + trim(s.parent_batch_sql) + "\n"@) + separator_line() + "\n"@));
    lemma_occurs_middle(alert_head(log_time, server_id, s) + alert_wait_lines(s) + alert_cpu_lines(s) + alert_write_lines(s), "\tClient Address: "@ + s.client_net_address + "\n"@, ("\tLogin Name: "@ + s.login_name + "\n"@ + "\tDB Name: "@ + s.database_name + "\n"@ + "\tCommand: "@ + s.command + "\n"@ + "\tStart Time: "@ + s.start_time + "\n"@ + "\tExecuting SQL: "@ + trim(s.executing_sql) + "\n"@ + "\tParent Batch SQL: "@ + trim(s.parent_batch_sql) + "\n"@) + separator_line() + "\n"@);
}

#[verifier::rlimit(40)]
proof fn lemma_alert_entry_labels_18(log_time: Seq<char>, server_id: Seq<char>, s: SessionView)
    ensures
        contains(alert_log_text(log_time, server_id, s), "\tLogin Name: "@ + s.login_name + "\n"@),
{
    reveal(alert_client_lines);
    assert(alert_log_text(log_time, server_id, s) =~= (alert_head(log_time, server_id, s) + alert_wait_lines(s) + alert_cpu_lines(s) + alert_write_lines(s) + ("\tClient Address: "@ + s.client_net_address + "\n"@)) + ("\tLogin Name: "@ + s.login_name + "\n"@) + (("\tDB Name: "@ + s.database_name + "\n"@ + "\tCommand: "@ + s.command + "\n"@ + "\tStart Time: "@ + s.start_time + "\n"@ + "\tExecuting SQL: "@ + trim(s.executing_sql) + "\n"@ + "\tParent Batch SQL: "@ + trim(s.parent_batch_sql) + "\n"@) + separator_line() + "\n"@));
    lemma_occurs_middle(alert_head(log_time, server_id, s) + alert_wait_lines(s) + alert_cpu_lines(s) + alert_write_lines(s) + ("\tClient Address: "@ + s.client_net_address + "\n"@), "\tLogin Name: "@ + s.login_name + "\n"@, ("\tDB Name: "@ + s.database_name + "\n"@ + "\tCommand: "@ + s.command + "\n"@ + "\tStart Time: "@ + s.start_time + "\n"@ + "\tExecuting SQL: "@ + trim(s.executing_sql) + "\n"@ + "\tParent Batch SQL: "@ + trim(s.parent_batch_sql) + "\n"@) + separator_line() + "\n"@);
}

#[verifier::rlimit(40)]
proof fn lemma_alert_entry_labels_19(log_time: Seq<char>, server_id: Seq<char>, s: SessionView)
    ensures
        contains(alert_log_text(log_time, server_id, s), "\tDB Name: "@ + s.database_name + "\n"@),
{
    reveal(alert_client_lines);
    assert(alert_log_text(log_time, server_id, s) =~= (alert_head(log_time, server_id, s) + alert_wait_lines(s) + alert_cpu_lines(s) + alert_write_lines(s) + ("\tClient Address: "@ + s.client_net_address + "\n"@ + "\tLogin Name: "@ + s.login_name + "\n"@)) + ("\tDB Name: "@ + s.database_name + "\n"@) + (("\tCommand: "@ + s.command + "\n"@ + "\tStart Time: "@ + s.start_time + "\n"@ + "\tExecuting SQL: "@ + trim(s.executing_sql) + "\n"@ + "\tParent Batch SQL: "@ + trim(s.parent_batch_sql) + "\n"@) + separator_line() + "\n"@));
    lemma_occurs_middle(alert_head(log_time, server_id, s) + alert_wait_lines(s) + alert_cpu_lines(s) + alert_write_lines(s) + ("\tClient Address: "@ + s.client_net_address + "\n"@ + "\tLogin Name: "@ + s.login_name + "\n"@), "\tDB Name: "@ + s.database_name + "\n"@, ("\tCommand: "@ + s.command + "\n"@ + "\tStart Time: "@ + s.start_time + "\n"@ + "\tExecuting SQL: "@ + trim(s.executing_sql) + "\n"@ + "\tParent Batch SQL: "@ + trim(s.parent_batch_sql) + "\n"@) + separator_line() + "\n"@);
}

#[verifier::rlimit(40)]
proof fn lemma_alert_entry_labels_20(log_time: Seq<char>, server_id: Seq<char>, s: SessionView)
    ensures
        contains(alert_log_text(log_time, server_id, s), "\tCommand: "@ + s.command + "\n"@),
{
    reveal(alert_client_lines);
    assert(alert_log_text(log_time, server_id, s) =~= (alert_head(log_time, server_id, s) + alert_wait_lines(s) + alert_cpu_lines(s) + alert_write_lines(s) + ("\tClient Address: "@ + s.client_net_address + "\n"@ + "\tLogin Name: "@ + s.login_name + "\n"@ + "\tDB Name: "@ + s.database_name + "\n"@)) + ("\tCommand: "@ + s.command + "\n"@) + (("\tStart Time: "@ + s.start_time + "\n"@ + "\tExecuting SQL: "@ + trim(s.executing_sql) + "\n"@ + "\tParent Batch SQL: "@ + trim(s.parent_batch_sql) + "\n"@) + separator_line() + "\n"@));
    lemma_occurs_middle(alert_head(log_time, server_id, s) + alert_wait_lines(s) + alert_cpu_lines(s) + alert_write_lines(s) + ("\tClient Address: "@ + s.client_net_address + "\n"@ + "\tLogin Name: "@ + s.login_name + "\n"@ + "\tDB Name: "@ + s.database_name + "\n"@), "\tCommand: "@ + s.command + "\n"@, ("\tStart Time: "@ + s.start_time + "\n"@ + "\tExecuting SQL: "@ + trim(s.executing_sql) + "\n"@ + "\tParent Batch SQL: "@ + trim(s.parent_batch_sql) + "\n"@) + separator_line() + "\n"@);
}

#[verifier::rlimit(40)]
proof fn lemma_alert_entry_labels_21(log_time: Seq<char>, server_id: Seq<char>, s: SessionView)
    ensures
        contains(alert_log_text(log_time, server_id, s), "\tStart Time: "@ + s.start_time + "\n"@),
{
    reveal(alert_client_lines);
    assert(alert_log_text(log_time, server_id, s) =~= (alert_head(log_time, server_id, s) + alert_wait_lines(s) + alert_cpu_lines(s) + alert_write_lines(s) + ("\tClient Address: "@ + s.client_net_address + "\n"@ + "\tLogin Name: "@ + s.login_name + "\n"@ + "\tDB Name: "@ + s.database_name + "\n"@ + "\tCommand: "@ + s.command + "\n"@)) + ("\tStart Time: "@ + s.start_time + "\n"@) + (("\tExecuting SQL: "@ + trim(s.executing_sql) + "\n"@ + "\tParent Batch SQL: "@ + trim(s.parent_batch_sql) + "\n"@) + separator_line() + "\n"@));
    lemma_occurs_middle(alert_head(log_time, server_id, s) + alert_wait_lines(s) + alert_cpu_lines(s) + alert_write_lines(s) + ("\tClient Address: "@ + s.client_net_address + "\n"@ + "\tLogin Name: "@ + s.login_name + "\n"@ + "\tDB Name: "@ + s.database_name + "\n"@ + "\tCommand: "@ + s.command + "\n"@), "\tStart Time: "@ + s.start_time + "\n"@, ("\tExecuting SQL: "@ + trim(s.executing_sql) + "\n"@ + "\tParent Batch SQL: "@ + trim(s.parent_batch_sql) + "\n"@) + separator_line() + "\n"@);
}

#[verifier::rlimit(40)]
proof fn lemma_alert_entry_labels_22(log_time: Seq<char>, server_id: Seq<char>, s: SessionView)
    ensures
        contains(alert_log_text(log_time, server_id, s), "\tExecuting SQL: "@ + trim(s.executing_sql) + "\n"@),
{
    reveal(alert_client_lines);
    assert(alert_log_text(log_time, server_id, s) =~= (alert_head(log_time, server_id, s) + alert_wait_lines(s) + alert_cpu_lines(s) + alert_write_lines(s) + ("\tClient Address: "@ + s.client_net_address + "\n"@ + "\tLogin Name: "@ + s.login_name + "\n"@ + "\tDB Name: "@ + s.database_name + "\n"@ + "\tCommand: "@ + s.command + "\n"@ + "\tStart Time: "@ + s.start_time + "\n"@)) + ("\tExecuting SQL: "@ + trim(s.executing_sql) + "\n"@) + (("\tParent Batch SQL: "@ + trim(s.parent_batch_sql) + "\n"@) + separator_line() + "\n"@));
    lemma_occurs_middle(alert_head(log_time, server_id, s) + alert_wait_lines(s) + alert_cpu_lines(s) + alert_write_lines(s) + ("\tClient Address: "@ + s.client_net_address + "\n"@ + "\tLogin Name: "@ + s.login_name + "\n"@ + "\tDB Name: "@ + s.database_name + "\n"@ + "\tCommand: "@ + s.command + "\n"@ + "\tStart Time: "@ + s.start_time + "\n"@), "\tExecuting SQL: "@ + trim(s.executing_sql) + "\n"@, ("\tParent Batch SQL: "@ + trim(s.parent_batch_sql) + "\n"@) + separator_line() + "\n"@);
}

#[verifier::rlimit(40)]
proof fn lemma_alert_entry_labels_23(log_time: Seq<char>, server_id: Seq<char>, s: SessionView)
    ensures
        contains(alert_log_text(log_time, server_id, s), "\tParent Batch SQL: "@ + trim(s.parent_batch_sql) + "\n"@),
{
    reveal(alert_client_lines);
    assert(alert_log_text(log_time, server_id, s) =~= (alert_head(log_time, server_id, s) + alert_wait_lines(s) + alert_cpu_lines(s) + alert_write_lines(s) + ("\tClient Address: "@ + s.client_net_address + "\n"@ + "\tLogin Name: "@ + s.login_name + "\n"@ + "\tDB Name: "@ + s.database_name + "\n"@ + "\tCommand: "@ + s.command + "\n"@ + "\tStart Time: "@ + s.start_time + "\n"@ + "\tExecuting SQL: "@ + trim(s.executing_sql) + "\n"@)) + ("\tParent Batch SQL: "@ + trim(s.parent_batch_sql) + "\n"@) + (separator_line() + "\n"@));
    lemma_occurs_middle(alert_head(log_time, server_id, s) + alert_wait_lines(s) + alert_cpu_lines(s) + alert_write_lines(s) + ("\tClient Address: "@ + s.client_net_address + "\n"@ + "\tLogin Name: "@ + s.login_name + "\n"@ + "\tDB Name: "@ + s.database_name + "\n"@ + "\tCommand: "@ + s.command + "\n"@ + "\tStart Time: "@ + s.start_time + "\n"@ + "\tExecuting SQL: "@ + trim(s.executing_sql) + "\n"@), "\tParent Batch SQL: "@ + trim(s.parent_batch_sql) + "\n"@, separator_line() + "\n"@);
}

#[verifier::rlimit(40)]
proof fn lemma_alert_entry_labels_len(log_time: Seq<char>, server_id: Seq<char>, s: SessionView)
    ensures
        alert_log_text(log_time, server_id, s).len() == ("["@).len() + (log_time).len() + ("] Server: "@).len() + (server_id).len() + (" | SPID: "@).len() + (int_decimal(s.session_id)).len() + (" | Alert! Session Elapsed: "@).len() + (int_decimal(s.elapsed_time_ms)).len() + (" ms\n"@).len() + ("\tStatus: "@).len() + (s.status).len() + ("\n"@).len() + ("\tWaitType: "@).len() + (s.wait_type).len() + (" (Time: "@).len() + (int_decimal(s.wait_time_ms)).len() + (" ms)\n"@).len() + ("\tLastWaitType: "@).len() + (s.last_wait_type).len() + ("\n"@).len() + ("\tWaitResource: "@).len() + (s.wait_resource).len() + ("\n"@).len() + ("\tWaitSessionID (Blocking): "@).len() + (int_decimal(s.wait_session_id)).len() + ("\n"@).len() + ("\tCPU Time: "@).len() + (int_decimal(s.cpu_time_ms)).len() + (" ms\n"@).len() + ("\tLogical Reads: "@).len() + (int_decimal(s.logical_reads)).len() + ("\n"@).len() + ("\tPhysical Reads: "@).len() + (int_decimal(s.physical_reads)).len() + ("\n"@).len() + ("\tWrites: "@).len() + (int_decimal(s.writes)).len() + ("\n"@).len() + ("\tRowCount: "@).len() + (int_decimal(s.row_count)).len() + ("\n"@).len() + ("\tOpen Trans: "@).len() + (int_decimal(s.open_transaction_count)).len() + ("\n"@).len() + ("\tDOP: "@).len() + (int_decimal(s.dop)).len() + ("\n"@).len() + ("\tClient Address: "@).len() + (s.client_net_address).len() + ("\n"@).len() + ("\tLogin Name: "@).len() + (s.login_name).len() + ("\n"@).len() + ("\tDB Name: "@).len() + (s.database_name).len() + ("\n"@).len() + ("\tCommand: "@).len() + (s.command).len() + ("\n"@).len() + ("\tStart Time: "@).len() + (s.start_time).len() + ("\n"@).len() + ("\tExecuting SQL: "@).len() + (trim(s.executing_sql)).len() + ("\n"@).len() + ("\tParent Batch SQL: "@).len() + (trim(s.parent_batch_sql)).len() + ("\n"@).len() + (separator_line()).len() + ("\n"@).len(),
{
    reveal(alert_head);
    reveal(alert_wait_lines);
    reveal(alert_cpu_lines);
    reveal(alert_write_lines);
    reveal(alert_client_lines);
}

/// The alert log entry `t` for request `s` gives the time, the server and each
/// field after its label, followed by the next label or the line's end, and
/// holds nothing more than its labels, fields and fixed lines.
pub open spec fn alert_entry_labels(log_time: Seq<char>, server_id: Seq<char>, s: SessionView, t: Seq<char>) -> bool {
    &&& contains(t, "["@ + log_time + "] Server: "@)
    &&& contains(t, "] Server: "@ + server_id + " | SPID: "@)
    &&& contains(t, " | SPID: "@ + int_decimal(s.session_id) + " | Alert! Session Elapsed: "@)
    &&& contains(t, " | Alert! Session Elapsed: "@ + int_decimal(s.elapsed_time_ms) + " ms\n"@)
    &&& contains(t, "\tStatus: "@ + s.status + "\n"@)
    &&& contains(t, "\tWaitType: "@ + s.wait_type + " (Time: "@)
    &&& contains(t, " (Time: "@ + int_decimal(s.wait_time_ms) + " ms)\n"@)
    &&& contains(t, "\tLastWaitType: "@ + s.last_wait_type + "\n"@)
    &&& contains(t, "\tWaitResource: "@ + s.wait_resource + "\n"@)
    &&& contains(t, "\tWaitSessionID (Blocking): "@ + int_decimal(s.wait_session_id) + "\n"@)
    &&& contains(t, "\tCPU Time: "@ + int_decimal(s.cpu_time_ms) + " ms\n"@)
    &&& contains(t, "\tLogical Reads: "@ + int_decimal(s.logical_reads) + "\n"@)
    &&& contains(t, "\tPhysical Reads: "@ + int_decimal(s.physical_reads) + "\n"@)
    &&& contains(t, "\tWrites: "@ + int_decimal(s.writes) + "\n"@)
    &&& contains(t, "\tRowCount: "@ + int_decimal(s.row_count) + "\n"@)
    &&& contains(t, "\tOpen Trans: "@ + int_decimal(s.open_transaction_count) + "\n"@)
    &&& contains(t, "\tDOP: "@ + int_decimal(s.dop) + "\n"@)
    &&& contains(t, "\tClient Address: "@ + s.client_net_address + "\n"@)
    &&& contains(t, "\tLogin Name: "@ + s.login_name + "\n"@)
    &&& contains(t, "\tDB Name: "@ + s.database_name + "\n"@)
    &&& contains(t, "\tCommand: "@ + s.command + "\n"@)
    &&& contains(t, "\tStart Time: "@ + s.start_time + "\n"@)
    &&& contains(t, "\tExecuting SQL: "@ + trim(s.executing_sql) + "\n"@)
    &&& contains(t, "\tParent Batch SQL: "@ + trim(s.parent_batch_sql) + "\n"@)
    &&& t.len() == ("["@).len() + (log_time).len() + ("] Server: "@).len() + (server_id).len() + (" | SPID: "@).len() + (int_decimal(s.session_id)).len() + (" | Alert! Session Elapsed: "@).len() + (int_decimal(s.elapsed_time_ms)).len() + (" ms\n"@).len() + ("\tStatus: "@).len() + (s.status).len() + ("\n"@).len() + ("\tWaitType: "@).len() + (s.wait_type).len() + (" (Time: "@).len() + (int_decimal(s.wait_time_ms)).len() + (" ms)\n"@).len() + ("\tLastWaitType: "@).len() + (s.last_wait_type).len() + ("\n"@).len() + ("\tWaitResource: "@).len() + (s.wait_resource).len() + ("\n"@).len() + ("\tWaitSessionID (Blocking): "@).len() + (int_decimal(s.wait_session_id)).len() + ("\n"@).len() + ("\tCPU Time: "@).len() + (int_decimal(s.cpu_time_ms)).len() + (" ms\n"@).len() + ("\tLogical Reads: "@).len() + (int_decimal(s.logical_reads)).len() + ("\n"@).len() + ("\tPhysical Reads: "@).len() + (int_decimal(s.physical_reads)).len() + ("\n"@).len() + ("\tWrites: "@).len() + (int_decimal(s.writes)).len() + ("\n"@).len() + ("\tRowCount: "@).len() + (int_decimal(s.row_count)).len() + ("\n"@).len() + ("\tOpen Trans: "@).len() + (int_decimal(s.open_transaction_count)).len() + ("\n"@).len() + ("\tDOP: "@).len() + (int_decimal(s.dop)).len() + ("\n"@).len() + ("\tClient Address: "@).len() + (s.client_net_address).len() + ("\n"@).len() + ("\tLogin Name: "@).len() + (s.login_name).len() + ("\n"@).len() + ("\tDB Name: "@).len() + (s.database_name).len() + ("\n"@).len() + ("\tCommand: "@).len() + (s.command).len() + ("\n"@).len() + ("\tStart Time: "@).len() + (s.start_time).len() + ("\n"@).len() + ("\tExecuting SQL: "@).len() + (trim(s.executing_sql)).len() + ("\n"@).len() + ("\tParent Batch SQL: "@).len() + (trim(s.parent_batch_sql)).len() + ("\n"@).len() + (separator_line()).len() + ("\n"@).len()
}

/// An alert log entry gives the time, the server and every field of the request
/// after its own label (numbers in decimal), and nothing else.
pub proof fn law_alert_entry_labels(log_time: Seq<char>, server_id: Seq<char>, s: SessionView)
    ensures
        alert_entry_labels(log_time, server_id, s, alert_log_text(log_time, server_id, s)),
{
    lemma_alert_entry_labels_0(log_time, server_id, s);
    lemma_alert_entry_labels_1(log_time, server_id, s);
    lemma_alert_entry_labels_2(log_time, server_id, s);
    lemma_alert_entry_labels_3(log_time, server_id, s);
    lemma_alert_entry_labels_4(log_time, server_id, s);
    lemma_alert_entry_labels_5(log_time, server_id, s);
    lemma_alert_entry_labels_6(log_time, server_id, s);
    lemma_alert_entry_labels_7(log_time, server_id, s);
    lemma_alert_entry_labels_8(log_time, server_id, s);
    lemma_alert_entry_labels_9(log_time, server_id, s);
    lemma_alert_entry_labels_10(log_time, server_id, s);
    lemma_alert_entry_labels_11(log_time, server_id, s);
    lemma_alert_entry_labels_12(log_time, server_id, s);
    lemma_alert_entry_labels_13(log_time, server_id, s);
    lemma_alert_entry_labels_14(log_time, server_id, s);
    lemma_alert_entry_labels_15(log_time, server_id, s);
    lemma_alert_entry_labels_16(log_time, server_id, s);
    lemma_alert_entry_labels_17(log_time, server_id, s);
    lemma_alert_entry_labels_18(log_time, server_id, s);
    lemma_alert_entry_labels_19(log_time, server_id, s);
    lemma_alert_entry_labels_20(log_time, server_id, s);
    lemma_alert_entry_labels_21(log_time, server_id, s);
    lemma_alert_entry_labels_22(log_time, server_id, s);
    lemma_alert_entry_labels_23(log_time, server_id, s);
    lemma_alert_entry_labels_len(log_time, server_id, s);
}


#[verifier::rlimit(40)]
proof fn lemma_worker_entry_labels_0(log_time: Seq<char>, server_id: Seq<char>, active_workers: int, max_threads: int, percent: int)
    ensures
        contains(worker_alert_text(log_time, server_id, active_workers, max_threads, percent), "["@ + log_time + "] Server: "@),
{
    reveal(worker_alert_text);
    assert(worker_alert_text(log_time, server_id, active_workers, max_threads, percent) =~= (Seq::<char>::empty()) + ("["@ + log_time + "] Server: "@) + ((server_id + " | ALERT! Worker Threads usage is high: "@ + int_decimal(percent) + "% ("@ + int_decimal(active_workers) + " / "@ + int_decimal(max_threads) + ")\n"@ + separator_line() + "\n"@)));
    lemma_occurs_middle(Seq::<char>::empty(), "["@ + log_time + "] Server: "@, (server_id + " | ALERT! Worker Threads usage is high: "@ + int_decimal(percent) + "% ("@ + int_decimal(active_workers) + " / "@ + int_decimal(max_threads) + ")\n"@ + separator_line() + "\n"@));
}

#[verifier::rlimit(40)]
proof fn lemma_worker_entry_labels_1(log_time: Seq<char>, server_id: Seq<char>, active_workers: int, max_threads: int, percent: int)
    ensures
        contains(worker_alert_text(log_time, server_id, active_workers, max_threads, percent), "] Server: "@ + server_id + " | ALERT! Worker Threads usage is high: "@),
{
    reveal(worker_alert_text);
    assert(worker_alert_text(log_time, server_id, active_workers, max_threads, percent) =~= (("["@ + log_time)) + ("] Server: "@ + server_id + " | ALERT! Worker Threads usage is high: "@) + ((int_decimal(percent) + "% ("@ + int_decimal(active_workers) + " / "@ + int_decimal(max_threads) + ")\n"@ + separator_line() + "\n"@)));
    lemma_occurs_middle(("["@ + log_time), "] Server: "@ + server_id + " | ALERT! Worker Threads usage is high: "@, (int_decimal(percent) + "% ("@ + int_decimal(active_workers) + " / "@ + int_decimal(max_threads) + ")\n"@ + separator_line() + "\n"@));
}

#[verifier::rlimit(40)]
proof fn lemma_worker_entry_labels_2(log_time: Seq<char>, server_id: Seq<char>, active_workers: int, max_threads: int, percent: int)
    ensures
        contains(worker_alert_text(log_time, server_id, active_workers, max_threads, percent), " | ALERT! Worker Threads usage is high: "@ + int_decimal(percent) + "% ("@),
{
    reveal(worker_alert_text);
    assert(worker_alert_text(log_time, server_id, active_workers, max_threads, percent) =~= (("["@ + log_time + "] Server: "@ + server_id)) + (" | ALERT! Worker Threads usage is high: "@ + int_decimal(percent) + "% ("@) + ((int_decimal(active_workers) + " / "@ + int_decimal(max_threads) + ")\n"@ + separator_line() + "\n"@)));
    lemma_occurs_middle(("["@ + log_time + "] Server: "@ + server_id), " | ALERT! Worker Threads usage is high: "@ + int_decimal(percent) + "% ("@, (int_decimal(active_workers) + " / "@ + int_decimal(max_threads) + ")\n"@ + separator_line() + "\n"@));
}

#[verifier::rlimit(40)]
proof fn lemma_worker_entry_labels_3(log_time: Seq<char>, server_id: Seq<char>, active_workers: int, max_threads: int, percent: int)
    ensures
        contains(worker_alert_text(log_time, server_id, active_workers, max_threads, percent), "% ("@ + int_decimal(active_workers) + " / "@),
{
    reveal(worker_alert_text);
    assert(worker_alert_text(log_time, server_id, active_workers, max_threads, percent) =~= (("["@ + log_time + "] Server: "@ + server_id + " | ALERT! Worker Threads usage is high: "@ + int_decimal(percent))) + ("% ("@ + int_decimal(active_workers) + " / "@) + ((int_decimal(max_threads) + ")\n"@ + separator_line() + "\n"@)));
    lemma_occurs_middle(("["@ + log_time + "] Server: "@ + server_id + " | ALERT! Worker Threads usage is high: "@ + int_decimal(percent)), "% ("@ + int_decimal(active_workers) + " / "@, (int_decimal(max_threads) + ")\n"@ + separator_line() + "\n"@));
}

#[verifier::rlimit(40)]
proof fn lemma_worker_entry_labels_4(log_time: Seq<char>, server_id: Seq<char>, active_workers: int, max_threads: int, percent: int)
    ensures
        contains(worker_alert_text(log_time, server_id, active_workers, max_threads, percent), " / "@ + int_decimal(max_threads) + ")\n"@),
{
    reveal(worker_alert_text);
    assert(worker_alert_text(log_time, server_id, active_workers, max_threads, percent) =~= (("["@ + log_time + "] Server: "@ + server_id + " | ALERT! Worker Threads usage is high: "@ + int_decimal(percent) + "% ("@ + int_decimal(active_workers))) + (" / "@ + int_decimal(max_threads) + ")\n"@) + ((separator_line() + "\n"@)));
    lemma_occurs_middle(("["@ + log_time + "] Server: "@ + server_id + " | ALERT! Worker Threads usage is high: "@ + int_decimal(percent) + "% ("@ + int_decimal(active_workers)), " / "@ + int_decimal(max_threads) + ")\n"@, (separator_line() + "\n"@));
}

#[verifier::rlimit(40)]
proof fn lemma_worker_entry_labels_len(log_time: Seq<char>, server_id: Seq<char>, active_workers: int, max_threads: int, percent: int)
    ensures
        worker_alert_text(log_time, server_id, active_workers, max_threads, percent).len() == ("["@).len() + (log_time).len() + ("] Server: "@).len() + (server_id).len() + (" | ALERT! Worker Threads usage is high: "@).len() + (int_decimal(percent)).len() + ("% ("@).len() + (int_decimal(active_workers)).len() + (" / "@).len() + (int_decimal(max_threads)).len() + (")\n"@).len() + (separator_line()).len() + ("\n"@).len(),
{
    reveal(worker_alert_text);
}

/// The worker alert entry `t` gives the time, the server, the usage in percent,
/// then the active workers before the slash and the most threads after it.
pub open spec fn worker_entry_labels(log_time: Seq<char>, server_id: Seq<char>, active_workers: int, max_threads: int, percent: int, t: Seq<char>) -> bool {
    &&& contains(t, "["@ + log_time + "] Server: "@)
    &&& contains(t, "] Server: "@ + server_id + " | ALERT! Worker Threads usage is high: "@)
    &&& contains(t, " | ALERT! Worker Threads usage is high: "@ + int_decimal(percent) + "% ("@)
    &&& contains(t, "% ("@ + int_decimal(active_workers) + " / "@)
    &&& contains(t, " / "@ + int_decimal(max_threads) + ")\n"@)
    &&& t.len() == ("["@).len() + (log_time).len() + ("] Server: "@).len() + (server_id).len() + (" | ALERT! Worker Threads usage is high: "@).len() + (int_decimal(percent)).len() + ("% ("@).len() + (int_decimal(active_workers)).len() + (" / "@).len() + (int_decimal(max_threads)).len() + (")\n"@).len() + (separator_line()).len() + ("\n"@).len()
}

/// A worker alert entry gives the usage percent, then the active workers over
/// the most threads, in that order, and nothing else.
pub proof fn law_worker_entry_labels(log_time: Seq<char>, server_id: Seq<char>, active_workers: int, max_threads: int, percent: int)
    ensures
        worker_entry_labels(log_time, server_id, active_workers, max_threads, percent, worker_alert_text(log_time, server_id, active_workers, max_threads, percent)),
{
    lemma_worker_entry_labels_0(log_time, server_id, active_workers, max_threads, percent);
    lemma_worker_entry_labels_1(log_time, server_id, active_workers, max_threads, percent);
    lemma_worker_entry_labels_2(log_time, server_id, active_workers, max_threads, percent);
    lemma_worker_entry_labels_3(log_time, server_id, active_workers, max_threads, percent);
    lemma_worker_entry_labels_4(log_time, server_id, active_workers, max_threads, percent);
    lemma_worker_entry_labels_len(log_time, server_id, active_workers, max_threads, percent);
}


#[verifier::rlimit(40)]
proof fn lemma_snapshot_log_labels_0(server_id: Seq<char>, d: DashboardView)
    ensures
        contains(snapshot_log_text(server_id, d), "Server: "@ + server_id + "\n"@),
{
    reveal(snapshot_header);
    assert(snapshot_log_text(server_id, d) =~= ((separator_line() + "\n"@)) + ("Server: "@ + server_id + "\n"@) + (("Capture Time: "@ + d.capture_time + "\n"@ + dash_line() + "\n"@) + snapshot_workers(d) + snapshot_counters(d) + snapshot_activity(d) + dash_line() + "\n"@ + "Captured Sessions Details:\n\n"@ + (if d.sessions.len() == 0 {
        "No sessions captured under current filter criteria.\n"@
    } else {
        sessions_text(d.sessions)
    }) + separator_line() + "\n\n"@));
    lemma_occurs_middle((separator_line() + "\n"@), "Server: "@ + server_id + "\n"@, ("Capture Time: "@ + d.capture_time + "\n"@ + dash_line() + "\n"@) + snapshot_workers(d) + snapshot_counters(d) + snapshot_activity(d) + dash_line() + "\n"@ + "Captured Sessions Details:\n\n"@ + (if d.sessions.len() == 0 {
        "No sessions captured under current filter criteria.\n"@
    } else {
        sessions_text(d.sessions)
    }) + separator_line() + "\n\n"@);
}

#[verifier::rlimit(40)]
proof fn lemma_snapshot_log_labels_1(server_id: Seq<char>, d: DashboardView)
    ensures
        contains(snapshot_log_text(server_id, d), "Capture Time: "@ + d.capture_time + "\n"@),
{
    reveal(snapshot_header);
    assert(snapshot_log_text(server_id, d) =~= ((separator_line() + "\n"@ + "Server: "@ + server_id + "\n"@)) + ("Capture Time: "@ + d.capture_time + "\n"@) + ((dash_line() + "\n"@) + snapshot_workers(d) + snapshot_counters(d) + snapshot_activity(d) + dash_line() + "\n"@ + "Captured Sessions Details:\n\n"@ + (if d.sessions.len() == 0 {
        "No sessions captured under current filter criteria.\n"@
    } else {
        sessions_text(d.sessions)
    }) + separator_line() + "\n\n"@));
    lemma_occurs_middle((separator_line() + "\n"@ + "Server: "@ + server_id + "\n"@), "Capture Time: "@ + d.capture_time + "\n"@, (dash_line() + "\n"@) + snapshot_workers(d) + snapshot_counters(d) + snapshot_activity(d) + dash_line() + "\n"@ + "Captured Sessions Details:\n\n"@ + (if d.sessions.len() == 0 {
        "No sessions captured under current filter criteria.\n"@
    } else {
        sessions_text(d.sessions)
    }) + separator_line() + "\n\n"@);
}

#[verifier::rlimit(40)]
proof fn lemma_snapshot_log_labels_2(server_id: Seq<char>, d: DashboardView)
    ensures
        contains(snapshot_log_text(server_id, d), "Workers: "@ + int_decimal(d.active_workers) + " / "@),
{
    reveal(snapshot_workers);
    assert(snapshot_log_text(server_id, d) =~= (snapshot_header(server_id, d)) + ("Workers: "@ + int_decimal(d.active_workers) + " / "@) + ((int_decimal(d.max_threads) + " ("@ + d.workers_percent + ")\n"@) + snapshot_counters(d) + snapshot_activity(d) + dash_line() + "\n"@ + "Captured Sessions Details:\n\n"@ + (if d.sessions.len() == 0 {
        "No sessions captured under current filter criteria.\n"@
    } else {
        sessions_text(d.sessions)
    }) + separator_line() + "\n\n"@));
    lemma_occurs_middle(snapshot_header(server_id, d), "Workers: "@ + int_decimal(d.active_workers) + " / "@, (int_decimal(d.max_threads) + " ("@ + d.workers_percent + ")\n"@) + snapshot_counters(d) + snapshot_activity(d) + dash_line() + "\n"@ + "Captured Sessions Details:\n\n"@ + (if d.sessions.len() == 0 {
        "No sessions captured under current filter criteria.\n"@
    } else {
        sessions_text(d.sessions)
    }) + separator_line() + "\n\n"@);
}

#[verifier::rlimit(40)]
proof fn lemma_snapshot_log_labels_3(server_id: Seq<char>, d: DashboardView)
    ensures
        contains(snapshot_log_text(server_id, d), " / "@ + int_decimal(d.max_threads) + " ("@),
{
    reveal(snapshot_workers);
    assert(snapshot_log_text(server_id, d) =~= (snapshot_header(server_id, d) + ("Workers: "@ + int_decimal(d.active_workers))) + (" / "@ + int_decimal(d.max_threads) + " ("@) + ((d.workers_percent + ")\n"@) + snapshot_counters(d) + snapshot_activity(d) + dash_line() + "\n"@ + "Captured Sessions Details:\n\n"@ + (if d.sessions.len() == 0 {
        "No sessions captured under current filter criteria.\n"@
    } else {
        sessions_text(d.sessions)
    }) + separator_line() + "\n\n"@));
    lemma_occurs_middle(snapshot_header(server_id, d) + ("Workers: "@ + int_decimal(d.active_workers)), " / "@ + int_decimal(d.max_threads) + " ("@, (d.workers_percent + ")\n"@) + snapshot_counters(d) + snapshot_activity(d) + dash_line() + "\n"@ + "Captured Sessions Details:\n\n"@ + (if d.sessions.len() == 0 {
        "No sessions captured under current filter criteria.\n"@
    } else {
        sessions_text(d.sessions)
    }) + separator_line() + "\n\n"@);
}

#[verifier::rlimit(40)]
proof fn lemma_snapshot_log_labels_4(server_id: Seq<char>, d: DashboardView)
    ensures
        contains(snapshot_log_text(server_id, d), " ("@ + d.workers_percent + ")\n"@),
{
    reveal(snapshot_workers);
    assert(snapshot_log_text(server_id, d) =~= (snapshot_header(server_id, d) + ("Workers: "@ + int_decimal(d.active_workers) + " / "@ + int_decimal(d.max_threads))) + (" ("@ + d.workers_percent + ")\n"@) + (snapshot_counters(d) + snapshot_activity(d) + dash_line() + "\n"@ + "Captured Sessions Details:\n\n"@ + (if d.sessions.len() == 0 {
        "No sessions captured under current filter criteria.\n"@
    } else {
        sessions_text(d.sessions)
    }) + separator_line() + "\n\n"@));
    lemma_occurs_middle(snapshot_header(server_id, d) + ("Workers: "@ + int_decimal(d.active_workers) + " / "@ + int_decimal(d.max_threads)), " ("@ + d.workers_percent + ")\n"@, snapshot_counters(d) + snapshot_activity(d) + dash_line() + "\n"@ + "Captured Sessions Details:\n\n"@ + (if d.sessions.len() == 0 {
        "No sessions captured under current filter criteria.\n"@
    } else {
        sessions_text(d.sessions)
    }) + separator_line() + "\n\n"@);
}

#[verifier::rlimit(40)]
proof fn lemma_snapshot_log_labels_5(server_id: Seq<char>, d: DashboardView)
    ensures
        contains(snapshot_log_text(server_id, d), "Logical Connections: "@ + int_decimal(d.conn_logical) + "\n"@),
{
    reveal(snapshot_counters);
    assert(snapshot_log_text(server_id, d) =~= (snapshot_header(server_id, d) + snapshot_workers(d)) + ("Logical Connections: "@ + int_decimal(d.conn_logical) + "\n"@) + (("Page Life Expectancy: "@ + int_decimal(d.page_life_expectancy) + "\n"@ + "Active Temp Tables: "@ + int_decimal(d.active_temp_tables) + "\n"@) + snapshot_activity(d) + dash_line() + "\n"@ + "Captured Sessions Details:\n\n"@ + (if d.sessions.len() == 0 {
        "No sessions captured under current filter criteria.\n"@
    } else {
        sessions_text(d.sessions)
    }) + separator_line() + "\n\n"@));
    lemma_occurs_middle(snapshot_header(server_id, d) + snapshot_workers(d), "Logical Connections: "@ + int_decimal(d.conn_logical) + "\n"@, ("Page Life Expectancy: "@ + int_decimal(d.page_life_expectancy) + "\n"@ + "Active Temp Tables: "@ + int_decimal(d.active_temp_tables) + "\n"@) + snapshot_activity(d) + dash_line() + "\n"@ + "Captured Sessions Details:\n\n"@ + (if d.sessions.len() == 0 {
        "No sessions captured under current filter criteria.\n"@
    } else {
        sessions_text(d.sessions)
    }) + separator_line() + "\n\n"@);
}

#[verifier::rlimit(40)]
proof fn lemma_snapshot_log_labels_6(server_id: Seq<char>, d: DashboardView)
    ensures
        contains(snapshot_log_text(server_id, d), "Page Life Expectancy: "@ + int_decimal(d.page_life_expectancy) + "\n"@),
{
    reveal(snapshot_counters);
    assert(snapshot_log_text(server_id, d) =~= (snapshot_header(server_id, d) + snapshot_workers(d) + ("Logical Connections: "@ + int_decimal(d.conn_logical) + "\n"@)) + ("Page Life Expectancy: "@ + int_decimal(d.page_life_expectancy) + "\n"@) + (("Active Temp Tables: "@ + int_decimal(d.active_temp_tables) + "\n"@) + snapshot_activity(d) + dash_line() + "\n"@ + "Captured Sessions Details:\n\n"@ + (if d.sessions.len() == 0 {
        "No sessions captured under current filter criteria.\n"@
    } else {
        sessions_text(d.sessions)
    }) + separator_line() + "\n\n"@));
    lemma_occurs_middle(snapshot_header(server_id, d) + snapshot_workers(d) + ("Logical Connections: "@ + int_decimal(d.conn_logical) + "\n"@), "Page Life Expectancy: "@ + int_decimal(d.page_life_expectancy) + "\n"@, ("Active Temp Tables: "@ + int_decimal(d.active_temp_tables) + "\n"@) + snapshot_activity(d) + dash_line() + "\n"@ + "Captured Sessions Details:\n\n"@ + (if d.sessions.len() == 0 {
        "No sessions captured under current filter criteria.\n"@
    } else {
        sessions_text(d.sessions)
    }) + separator_line() + "\n\n"@);
}

#[verifier::rlimit(40)]
proof fn lemma_snapshot_log_labels_7(server_id: Seq<char>, d: DashboardView)
    ensures
        contains(snapshot_log_text(server_id, d), "Active Temp Tables: "@ + int_decimal(d.active_temp_tables) + "\n"@),
{
    reveal(snapshot_counters);
    assert(snapshot_log_text(server_id, d) =~= (snapshot_header(server_id, d) + snapshot_workers(d) + ("Logical Connections: "@ + int_decimal(d.conn_logical) + "\n"@ + "Page Life Expectancy: "@ + int_decimal(d.page_life_expectancy) + "\n"@)) + ("Active Temp Tables: "@ + int_decimal(d.active_temp_tables) + "\n"@) + (snapshot_activity(d) + dash_line() + "\n"@ + "Captured Sessions Details:\n\n"@ + (if d.sessions.len() == 0 {
        "No sessions captured under current filter criteria.\n"@
    } else {
        sessions_text(d.sessions)
    }) + separator_line() + "\n\n"@));
    lemma_occurs_middle(snapshot_header(server_id, d) + snapshot_workers(d) + ("Logical Connections: "@ + int_decimal(d.conn_logical) + "\n"@ + "Page Life Expectancy: "@ + int_decimal(d.page_life_expectancy) + "\n"@), "Active Temp Tables: "@ + int_decimal(d.active_temp_tables) + "\n"@, snapshot_activity(d) + dash_line() + "\n"@ + "Captured Sessions Details:\n\n"@ + (if d.sessions.len() == 0 {
        "No sessions captured under current filter criteria.\n"@
    } else {
        sessions_text(d.sessions)
    }) + separator_line() + "\n\n"@);
}

#[verifier::rlimit(40)]
proof fn lemma_snapshot_log_labels_8(server_id: Seq<char>, d: DashboardView)
    ensures
        contains(snapshot_log_text(server_id, d), "Transactions: "@ + int_decimal(d.transactions) + "\n"@),
{
    reveal(snapshot_activity);
    assert(snapshot_log_text(server_id, d) =~= (snapshot_header(server_id, d) + snapshot_workers(d) + snapshot_counters(d)) + ("Transactions: "@ + int_decimal(d.transactions) + "\n"@) + (("Request Sessions: "@ + int_decimal(d.raw_session_count) + "\n"@) + dash_line() + "\n"@ + "Captured Sessions Details:\n\n"@ + (if d.sessions.len() == 0 {
        "No sessions captured under current filter criteria.\n"@
    } else {
        sessions_text(d.sessions)
    }) + separator_line() + "\n\n"@));
    lemma_occurs_middle(snapshot_header(server_id, d) + snapshot_workers(d) + snapshot_counters(d), "Transactions: "@ + int_decimal(d.transactions) + "\n"@, ("Request Sessions: "@ + int_decimal(d.raw_session_count) + "\n"@) + dash_line() + "\n"@ + "Captured Sessions Details:\n\n"@ + (if d.sessions.len() == 0 {
        "No sessions captured under current filter criteria.\n"@
    } else {
        sessions_text(d.sessions)
    }) + separator_line() + "\n\n"@);
}

#[verifier::rlimit(40)]
proof fn lemma_snapshot_log_labels_9(server_id: Seq<char>, d: DashboardView)
    ensures
        contains(snapshot_log_text(server_id, d), "Request Sessions: "@ + int_decimal(d.raw_session_count) + "\n"@),
{
    reveal(snapshot_activity);
    assert(snapshot_log_text(server_id, d) =~= (snapshot_header(server_id, d) + snapshot_workers(d) + snapshot_counters(d) + ("Transactions: "@ + int_decimal(d.transactions) + "\n"@)) + ("Request Sessions: "@ + int_decimal(d.raw_session_count) + "\n"@) + (dash_line() + "\n"@ + "Captured Sessions Details:\n\n"@ + (if d.sessions.len() == 0 {
        "No sessions captured under current filter criteria.\n"@
    } else {
        sessions_text(d.sessions)
    }) + separator_line() + "\n\n"@));
    lemma_occurs_middle(snapshot_header(server_id, d) + snapshot_workers(d) + snapshot_counters(d) + ("Transactions: "@ + int_decimal(d.transactions) + "\n"@), "Request Sessions: "@ + int_decimal(d.raw_session_count) + "\n"@, dash_line() + "\n"@ + "Captured Sessions Details:\n\n"@ + (if d.sessions.len() == 0 {
        "No sessions captured under current filter criteria.\n"@
    } else {
        sessions_text(d.sessions)
    }) + separator_line() + "\n\n"@);
}

#[verifier::rlimit(40)]
proof fn lemma_snapshot_log_labels_len(server_id: Seq<char>, d: DashboardView)
    ensures
        snapshot_log_text(server_id, d).len() == (separator_line()).len() + ("\n"@).len() + ("Server: "@).len() + (server_id).len() + ("\n"@).len() + ("Capture Time: "@).len() + (d.capture_time).len() + ("\n"@).len() + (dash_line()).len() + ("\n"@).len() + ("Workers: "@).len() + (int_decimal(d.active_workers)).len() + (" / "@).len() + (int_decimal(d.max_threads)).len() + (" ("@).len() + (d.workers_percent).len() + (")\n"@).len() + ("Logical Connections: "@).len() + (int_decimal(d.conn_logical)).len() + ("\n"@).len() + ("Page Life Expectancy: "@).len() + (int_decimal(d.page_life_expectancy)).len() + ("\n"@).len() + ("Active Temp Tables: "@).len() + (int_decimal(d.active_temp_tables)).len() + ("\n"@).len() + ("Transactions: "@).len() + (int_decimal(d.transactions)).len() + ("\n"@).len() + ("Request Sessions: "@).len() + (int_decimal(d.raw_session_count)).len() + ("\n"@).len() + (dash_line()).len() + ("\n"@).len() + ("Captured Sessions Details:\n\n"@).len() + ((if d.sessions.len() == 0 {
        "No sessions captured under current filter criteria.\n"@
    } else {
        sessions_text(d.sessions)
    })).len() + (separator_line()).len() + ("\n\n"@).len(),
{
    reveal(snapshot_header);
    reveal(snapshot_workers);
    reveal(snapshot_counters);
    reveal(snapshot_activity);
}

/// The snapshot log text `t` of dashboard `d` from server `server_id` gives the
/// server, the capture time and each figure after its own label.
pub open spec fn snapshot_log_labels(server_id: Seq<char>, d: DashboardView, t: Seq<char>) -> bool {
    &&& contains(t, "Server: "@ + server_id + "\n"@)
    &&& contains(t, "Capture Time: "@ + d.capture_time + "\n"@)
    &&& contains(t, "Workers: "@ + int_decimal(d.active_workers) + " / "@)
    &&& contains(t, " / "@ + int_decimal(d.max_threads) + " ("@)
    &&& contains(t, " ("@ + d.workers_percent + ")\n"@)
    &&& contains(t, "Logical Connections: "@ + int_decimal(d.conn_logical) + "\n"@)
    &&& contains(t, "Page Life Expectancy: "@ + int_decimal(d.page_life_expectancy) + "\n"@)
    &&& contains(t, "Active Temp Tables: "@ + int_decimal(d.active_temp_tables) + "\n"@)
    &&& contains(t, "Transactions: "@ + int_decimal(d.transactions) + "\n"@)
    &&& contains(t, "Request Sessions: "@ + int_decimal(d.raw_session_count) + "\n"@)
    &&& t.len() == (separator_line()).len() + ("\n"@).len() + ("Server: "@).len() + (server_id).len() + ("\n"@).len() + ("Capture Time: "@).len() + (d.capture_time).len() + ("\n"@).len() + (dash_line()).len() + ("\n"@).len() + ("Workers: "@).len() + (int_decimal(d.active_workers)).len() + (" / "@).len() + (int_decimal(d.max_threads)).len() + (" ("@).len() + (d.workers_percent).len() + (")\n"@).len() + ("Logical Connections: "@).len() + (int_decimal(d.conn_logical)).len() + ("\n"@).len() + ("Page Life Expectancy: "@).len() + (int_decimal(d.page_life_expectancy)).len() + ("\n"@).len() + ("Active Temp Tables: "@).len() + (int_decimal(d.active_temp_tables)).len() + ("\n"@).len() + ("Transactions: "@).len() + (int_decimal(d.transactions)).len() + ("\n"@).len() + ("Request Sessions: "@).len() + (int_decimal(d.raw_session_count)).len() + ("\n"@).len() + (dash_line()).len() + ("\n"@).len() + ("Captured Sessions Details:\n\n"@).len() + ((if d.sessions.len() == 0 {
        "No sessions captured under current filter criteria.\n"@
    } else {
        sessions_text(d.sessions)
    })).len() + (separator_line()).len() + ("\n\n"@).len()
}

/// A snapshot log block gives the server, the capture time and every figure of
/// the dashboard after its own label (numbers in decimal).
pub proof fn law_snapshot_log_labels(server_id: Seq<char>, d: DashboardView)
    ensures
        snapshot_log_labels(server_id, d, snapshot_log_text(server_id, d)),
{
    lemma_snapshot_log_labels_0(server_id, d);
    lemma_snapshot_log_labels_1(server_id, d);
    lemma_snapshot_log_labels_2(server_id, d);
    lemma_snapshot_log_labels_3(server_id, d);
    lemma_snapshot_log_labels_4(server_id, d);
    lemma_snapshot_log_labels_5(server_id, d);
    lemma_snapshot_log_labels_6(server_id, d);
    lemma_snapshot_log_labels_7(server_id, d);
    lemma_snapshot_log_labels_8(server_id, d);
    lemma_snapshot_log_labels_9(server_id, d);
    lemma_snapshot_log_labels_len(server_id, d);
}


#[verifier::rlimit(80)]
proof fn lemma_export_block_labels_0(n: int, s: SessionSnapView)
    ensures
        contains(export_session_block(n, s), "--- [Session "@ + int_decimal(n) + "] ---\n"@),
{
    assert(export_session_block(n, s) =~= (Seq::<char>::empty()) + ("--- [Session "@ + int_decimal(n) + "] ---\n"@) + (export_spid_line(s) + export_wait_lines(s) + export_io_line(s) + export_rows_line(s) + export_client_lines(s) + export_sql_lines(s)));
    lemma_occurs_middle(Seq::<char>::empty(), "--- [Session "@ + int_decimal(n) + "] ---\n"@, export_spid_line(s) + export_wait_lines(s) + export_io_line(s) + export_rows_line(s) + export_client_lines(s) + export_sql_lines(s));
}

#[verifier::rlimit(40)]
proof fn lemma_export_block_labels_1(n: int, s: SessionSnapView)
    ensures
        contains(export_session_block(n, s), "SPID: "@ + s.spid + " | Elapsed Time: "@),
{
    reveal(export_spid_line);
    assert(export_session_block(n, s) =~= ("--- [Session "@ + int_decimal(n) + "] ---\n"@) + ("SPID: "@ + s.spid + " | Elapsed Time: "@) + ((s.elapsed + " ms | Status: "@ + s.status + "\n"@) + export_wait_lines(s) + export_io_line(s) + export_rows_line(s) + export_client_lines(s) + export_sql_lines(s)));
    lemma_occurs_middle("--- [Session "@ + int_decimal(n) + "] ---\n"@, "SPID: "@ + s.spid + " | Elapsed Time: "@, (s.elapsed + " ms | Status: "@ + s.status + "\n"@) + export_wait_lines(s) + export_io_line(s) + export_rows_line(s) + export_client_lines(s) + export_sql_lines(s));
}

#[verifier::rlimit(40)]
proof fn lemma_export_block_labels_2(n: int, s: SessionSnapView)
    ensures
        contains(export_session_block(n, s), " | Elapsed Time: "@ + s.elapsed + " ms | Status: "@),
{
    reveal(export_spid_line);
    assert(export_session_block(n, s) =~= ("--- [Session "@ + int_decimal(n) + "] ---\n"@ + ("SPID: "@ + s.spid)) + (" | Elapsed Time: "@ + s.elapsed + " ms | Status: "@) + ((s.status + "\n"@) + export_wait_lines(s) + export_io_line(s) + export_rows_line(s) + export_client_lines(s) + export_sql_lines(s)));
    lemma_occurs_middle("--- [Session "@ + int_decimal(n) + "] ---\n"@ + ("SPID: "@ + s.spid), " | Elapsed Time: "@ + s.elapsed + " ms | Status: "@, (s.status + "\n"@) + export_wait_lines(s) + export_io_line(s) + export_rows_line(s) + export_client_lines(s) + export_sql_lines(s));
}

#[verifier::rlimit(40)]
proof fn lemma_export_block_labels_3(n: int, s: SessionSnapView)
    ensures
        contains(export_session_block(n, s), " ms | Status: "@ + s.status + "\n"@),
{
    reveal(export_spid_line);
    assert(export_session_block(n, s) =~= ("--- [Session "@ + int_decimal(n) + "] ---\n"@ + ("SPID: "@ + s.spid + " | Elapsed Time: "@ + s.elapsed)) + (" ms | Status: "@ + s.status + "\n"@) + (export_wait_lines(s) + export_io_line(s) + export_rows_line(s) + export_client_lines(s) + export_sql_lines(s)));
    lemma_occurs_middle("--- [Session "@ + int_decimal(n) + "] ---\n"@ + ("SPID: "@ + s.spid + " | Elapsed Time: "@ + s.elapsed), " ms | Status: "@ + s.status + "\n"@, export_wait_lines(s) + export_io_line(s) + export_rows_line(s) + export_client_lines(s) + export_sql_lines(s));
}

#[verifier::rlimit(40)]
proof fn lemma_export_block_labels_4(n: int, s: SessionSnapView)
    ensures
        contains(export_session_block(n, s), "Wait Type: "@ + s.wait_type + " ("@),
{
    reveal(export_wait_lines);
    assert(export_session_block(n, s) =~= ("--- [Session "@ + int_decimal(n) + "] ---\n"@ + export_spid_line(s)) + ("Wait Type: "@ + s.wait_type + " ("@) + ((s.wait_time_ms + " ms) | Last Wait: "@ + s.last_wait_type + "\n"@ + "Wait Resource: "@ + s.wait_resource + " | Blocking SPID: "@ + s.blocking_spid + "\n"@) + export_io_line(s) + export_rows_line(s) + export_client_lines(s) + export_sql_lines(s)));
    lemma_occurs_middle("--- [Session "@ + int_decimal(n) + "] ---\n"@ + export_spid_line(s), "Wait Type: "@ + s.wait_type + " ("@, (s.wait_time_ms + " ms) | Last Wait: "@ + s.last_wait_type + "\n"@ + "Wait Resource: "@ + s.wait_resource + " | Blocking SPID: "@ + s.blocking_spid + "\n"@) + export_io_line(s) + export_rows_line(s) + export_client_lines(s) + export_sql_lines(s));
}

#[verifier::rlimit(40)]
proof fn lemma_export_block_labels_5(n: int, s: SessionSnapView)
    ensures
        contains(export_session_block(n, s), " ("@ + s.wait_time_ms + " ms) | Last Wait: "@),
{
    reveal(export_wait_lines);
    assert(export_session_block(n, s) =~= ("--- [Session "@ + int_decimal(n) + "] ---\n"@ + export_spid_line(s) + ("Wait Type: "@ + s.wait_type)) + (" ("@ + s.wait_time_ms + " ms) | Last Wait: "@) + ((s.last_wait_type + "\n"@ + "Wait Resource: "@ + s.wait_resource + " | Blocking SPID: "@ + s.blocking_spid + "\n"@) + export_io_line(s) + export_rows_line(s) + export_client_lines(s) + export_sql_lines(s)));
    lemma_occurs_middle("--- [Session "@ + int_decimal(n) + "] ---\n"@ + export_spid_line(s) + ("Wait Type: "@ + s.wait_type), " ("@ + s.wait_time_ms + " ms) | Last Wait: "@, (s.last_wait_type + "\n"@ + "Wait Resource: "@ + s.wait_resource + " | Blocking SPID: "@ + s.blocking_spid + "\n"@) + export_io_line(s) + export_rows_line(s) + export_client_lines(s) + export_sql_lines(s));
}

#[verifier::rlimit(40)]
proof fn lemma_export_block_labels_6(n: int, s: SessionSnapView)
    ensures
        contains(export_session_block(n, s), " ms) | Last Wait: "@ + s.last_wait_type + "\n"@),
{
    reveal(export_wait_lines);
    assert(export_session_block(n, s) =~= ("--- [Session "@ + int_decimal(n) + "] ---\n"@ + export_spid_line(s) + ("Wait Type: "@ + s.wait_type + " ("@ + s.wait_time_ms)) + (" ms) | Last Wait: "@ + s.last_wait_type + "\n"@) + (("Wait Resource: "@ + s.wait_resource + " | Blocking SPID: "@ + s.blocking_spid + "\n"@) + export_io_line(s) + export_rows_line(s) + export_client_lines(s) + export_sql_lines(s)));
    lemma_occurs_middle("--- [Session "@ + int_decimal(n) + "] ---\n"@ + export_spid_line(s) + ("Wait Type: "@ + s.wait_type + " ("@ + s.wait_time_ms), " ms) | Last Wait: "@ + s.last_wait_type + "\n"@, ("Wait Resource: "@ + s.wait_resource + " | Blocking SPID: "@ + s.blocking_spid + "\n"@) + export_io_line(s) + export_rows_line(s) + export_client_lines(s) + export_sql_lines(s));
}

#[verifier::rlimit(40)]
proof fn lemma_export_block_labels_7(n: int, s: SessionSnapView)
    ensures
        contains(export_session_block(n, s), "Wait Resource: "@ + s.wait_resource + " | Blocking SPID: "@),
{
    reveal(export_wait_lines);
    assert(export_session_block(n, s) =~= ("--- [Session "@ + int_decimal(n) + "] ---\n"@ + export_spid_line(s) + ("Wait Type: "@ + s.wait_type + " ("@ + s.wait_time_ms + " ms) | Last Wait: "@ + s.last_wait_type + "\n"@)) + ("Wait Resource: "@ + s.wait_resource + " | Blocking SPID: "@) + ((s.blocking_spid + "\n"@) + export_io_line(s) + export_rows_line(s) + export_client_lines(s) + export_sql_lines(s)));
    lemma_occurs_middle("--- [Session "@ + int_decimal(n) + "] ---\n"@ + export_spid_line(s) + ("Wait Type: "@ + s.wait_type + " ("@ + s.wait_time_ms + " ms) | Last Wait: "@ + s.last_wait_type + "\n"@), "Wait Resource: "@ + s.wait_resource + " | Blocking SPID: "@, (s.blocking_spid + "\n"@) + export_io_line(s) + export_rows_line(s) + export_client_lines(s) + export_sql_lines(s));
}

#[verifier::rlimit(40)]
proof fn lemma_export_block_labels_8(n: int, s: SessionSnapView)
    ensures
        contains(export_session_block(n, s), " | Blocking SPID: "@ + s.blocking_spid + "\n"@),
{
    reveal(export_wait_lines);
    assert(export_session_block(n, s) =~= ("--- [Session "@ + int_decimal(n) + "] ---\n"@ + export_spid_line(s) + ("Wait Type: "@ + s.wait_type + " ("@ + s.wait_time_ms + " ms) | Last Wait: "@ + s.last_wait_type + "\n"@ + "Wait Resource: "@ + s.wait_resource)) + (" | Blocking SPID: "@ + s.blocking_spid + "\n"@) + (export_io_line(s) + export_rows_line(s) + export_client_lines(s) + export_sql_lines(s)));
    lemma_occurs_middle("--- [Session "@ + int_decimal(n) + "] ---\n"@ + export_spid_line(s) + ("Wait Type: "@ + s.wait_type + " ("@ + s.wait_time_ms + " ms) | Last Wait: "@ + s.last_wait_type + "\n"@ + "Wait Resource: "@ + s.wait_resource), " | Blocking SPID: "@ + s.blocking_spid + "\n"@, export_io_line(s) + export_rows_line(s) + export_client_lines(s) + export_sql_lines(s));
}

#[verifier::rlimit(40)]
proof fn lemma_export_block_labels_9(n: int, s: SessionSnapView)
    ensures
        contains(export_session_block(n, s), "CPU Time: "@ + s.cpu_time_ms + " ms | Logical Reads: "@),
{
    reveal(export_io_line);
    assert(export_session_block(n, s) =~= ("--- [Session "@ + int_decimal(n) + "] ---\n"@ + export_spid_line(s) + export_wait_lines(s)) + ("CPU Time: "@ + s.cpu_time_ms + " ms | Logical Reads: "@) + ((s.logical_reads + " | Physical Reads: "@ + s.physical_reads + " | Writes: "@ + s.writes + "\n"@) + export_rows_line(s) + export_client_lines(s) + export_sql_lines(s)));
    lemma_occurs_middle("--- [Session "@ + int_decimal(n) + "] ---\n"@ + export_spid_line(s) + export_wait_lines(s), "CPU Time: "@ + s.cpu_time_ms + " ms | Logical Reads: "@, (s.logical_reads + " | Physical Reads: "@ + s.physical_reads + " | Writes: "@ + s.writes + "\n"@) + export_rows_line(s) + export_client_lines(s) + export_sql_lines(s));
}

#[verifier::rlimit(40)]
proof fn lemma_export_block_labels_10(n: int, s: SessionSnapView)
    ensures
        contains(export_session_block(n, s), " ms | Logical Reads: "@ + s.logical_reads + " | Physical Reads: "@),
{
    reveal(export_io_line);
    assert(export_session_block(n, s) =~= ("--- [Session "@ + int_decimal(n) + "] ---\n"@ + export_spid_line(s) + export_wait_lines(s) + ("CPU Time: "@ + s.cpu_time_ms)) + (" ms | Logical Reads: "@ + s.logical_reads + " | Physical Reads: "@) + ((s.physical_reads + " | Writes: "@ + s.writes + "\n"@) + export_rows_line(s) + export_client_lines(s) + export_sql_lines(s)));
    lemma_occurs_middle("--- [Session "@ + int_decimal(n) + "] ---\n"@ + export_spid_line(s) + export_wait_lines(s) + ("CPU Time: "@ + s.cpu_time_ms), " ms | Logical Reads: "@ + s.logical_reads + " | Physical Reads: "@, (s.physical_reads + " | Writes: "@ + s.writes + "\n"@) + export_rows_line(s) + export_client_lines(s) + export_sql_lines(s));
}

#[verifier::rlimit(40)]
proof fn lemma_export_block_labels_11(n: int, s: SessionSnapView)
    ensures
        contains(export_session_block(n, s), " | Physical Reads: "@ + s.physical_reads + " | Writes: "@),
{
    reveal(export_io_line);
    assert(export_session_block(n, s) =~= ("--- [Session "@ + int_decimal(n) + "] ---\n"@ + export_spid_line(s) + export_wait_lines(s) + ("CPU Time: "@ + s.cpu_time_ms + " ms | Logical Reads: "@ + s.logical_reads)) + (" | Physical Reads: "@ + s.physical_reads + " | Writes: "@) + ((s.writes + "\n"@) + export_rows_line(s) + export_client_lines(s) + export_sql_lines(s)));
    lemma_occurs_middle("--- [Session "@ + int_decimal(n) + "] ---\n"@ + export_spid_line(s) + export_wait_lines(s) + ("CPU Time: "@ + s.cpu_time_ms + " ms | Logical Reads: "@ + s.logical_reads), " | Physical Reads: "@ + s.physical_reads + " | Writes: "@, (s.writes + "\n"@) + export_rows_line(s) + export_client_lines(s) + export_sql_lines(s));
}

#[verifier::rlimit(40)]
proof fn lemma_export_block_labels_12(n: int, s: SessionSnapView)
    ensures
        contains(export_session_block(n, s), " | Writes: "@ + s.writes + "\n"@),
{
    reveal(export_io_line);
    assert(export_session_block(n, s) =~= ("--- [Session "@ + int_decimal(n) + "] ---\n"@ + export_spid_line(s) + export_wait_lines(s) + ("CPU Time: "@ + s.cpu_time_ms + " ms | Logical Reads: "@ + s.logical_reads + " | Physical Reads: "@ + s.physical_reads)) + (" | Writes: "@ + s.writes + "\n"@) + (export_rows_line(s) + export_client_lines(s) + export_sql_lines(s)));
    lemma_occurs_middle("--- [Session "@ + int_decimal(n) + "] ---\n"@ + export_spid_line(s) + export_wait_lines(s) + ("CPU Time: "@ + s.cpu_time_ms + " ms | Logical Reads: "@ + s.logical_reads + " | Physical Reads: "@ + s.physical_reads), " | Writes: "@ + s.writes + "\n"@, export_rows_line(s) + export_client_lines(s) + export_sql_lines(s));
}

#[verifier::rlimit(40)]
proof fn lemma_export_block_labels_13(n: int, s: SessionSnapView)
    ensures
        contains(export_session_block(n, s), "Row Count: "@ + s.row_count + " | Open Trans: "@),
{
    reveal(export_rows_line);
    assert(export_session_block(n, s) =~= ("--- [Session "@ + int_decimal(n) + "] ---\n"@ + export_spid_line(s) + export_wait_lines(s) + export_io_line(s)) + ("Row Count: "@ + s.row_count + " | Open Trans: "@) + ((s.open_trans + " | DOP: "@ + s.dop + "\n"@) + export_client_lines(s) + export_sql_lines(s)));
    lemma_occurs_middle("--- [Session "@ + int_decimal(n) + "] ---\n"@ + export_spid_line(s) + export_wait_lines(s) + export_io_line(s), "Row Count: "@ + s.row_count + " | Open Trans: "@, (s.open_trans + " | DOP: "@ + s.dop + "\n"@) + export_client_lines(s) + export_sql_lines(s));
}

#[verifier::rlimit(40)]
proof fn lemma_export_block_labels_14(n: int, s: SessionSnapView)
    ensures
        contains(export_session_block(n, s), " | Open Trans: "@ + s.open_trans + " | DOP: "@),
{
    reveal(export_rows_line);
    assert(export_session_block(n, s) =~= ("--- [Session "@ + int_decimal(n) + "] ---\n"@ + export_spid_line(s) + export_wait_lines(s) + export_io_line(s) + ("Row Count: "@ + s.row_count)) + (" | Open Trans: "@ + s.open_trans + " | DOP: "@) + ((s.dop + "\n"@) + export_client_lines(s) + export_sql_lines(s)));
    lemma_occurs_middle("--- [Session "@ + int_decimal(n) + "] ---\n"@ + export_spid_line(s) + export_wait_lines(s) + export_io_line(s) + ("Row Count: "@ + s.row_count), " | Open Trans: "@ + s.open_trans + " | DOP: "@, (s.dop + "\n"@) + export_client_lines(s) + export_sql_lines(s));
}

#[verifier::rlimit(40)]
proof fn lemma_export_block_labels_15(n: int, s: SessionSnapView)
    ensures
        contains(export_session_block(n, s), " | DOP: "@ + s.dop + "\n"@),
{
    reveal(export_rows_line);
    assert(export_session_block(n, s) =~= ("--- [Session "@ + int_decimal(n) + "] ---\n"@ + export_spid_line(s) + export_wait_lines(s) + export_io_line(s) + ("Row Count: "@ + s.row_count + " | Open Trans: "@ + s.open_trans)) + (" | DOP: "@ + s.dop + "\n"@) + (export_client_lines(s) + export_sql_lines(s)));
    lemma_occurs_middle("--- [Session "@ + int_decimal(n) + "] ---\n"@ + export_spid_line(s) + export_wait_lines(s) + export_io_line(s) + ("Row Count: "@ + s.row_count + " | Open Trans: "@ + s.open_trans), " | DOP: "@ + s.dop + "\n"@, export_client_lines(s) + export_sql_lines(s));
}

#[verifier::rlimit(40)]
proof fn lemma_export_block_labels_16(n: int, s: SessionSnapView)
    ensures
        contains(export_session_block(n, s), "Client Address: "@ + s.client_address + " | Login Name: "@),
{
    reveal(export_client_lines);
    assert(export_session_block(n, s) =~= ("--- [Session "@ + int_decimal(n) + "] ---\n"@ + export_spid_line(s) + export_wait_lines(s) + export_io_line(s) + export_rows_line(s)) + ("Client Address: "@ + s.client_address + " | Login Name: "@) + ((s.login_name + " | DB Name: "@ + s.db_name + "\n"@ + "Command: "@ + s.command + " | Start Time: "@ + s.start_time + "\n"@) + export_sql_lines(s)));
    lemma_occurs_middle("--- [Session "@ + int_decimal(n) + "] ---\n"@ + export_spid_line(s) + export_wait_lines(s) + export_io_line(s) + export_rows_line(s), "Client Address: "@ + s.client_address + " | Login Name: "@, (s.login_name + " | DB Name: "@ + s.db_name + "\n"@ + "Command: "@ + s.command + " | Start Time: "@ + s.start_time + "\n"@) + export_sql_lines(s));
}

#[verifier::rlimit(40)]
proof fn lemma_export_block_labels_17(n: int, s: SessionSnapView)
    ensures
        contains(export_session_block(n, s), " | Login Name: "@ + s.login_name + " | DB Name: "@),
{
    reveal(export_client_lines);
    assert(export_session_block(n, s) =~= ("--- [Session "@ + int_decimal(n) + "] ---\n"@ + export_spid_line(s) + export_wait_lines(s) + export_io_line(s) + export_rows_line(s) + ("Client Address: "@ + s.client_address)) + (" | Login Name: "@ + s.login_name + " | DB Name: "@) + ((s.db_name + "\n"@ + "Command: "@ + s.command + " | Start Time: "@ + s.start_time + "\n"@) + export_sql_lines(s)));
    lemma_occurs_middle("--- [Session "@ + int_decimal(n) + "] ---\n"@ + export_spid_line(s) + export_wait_lines(s) + export_io_line(s) + export_rows_line(s) + ("Client Address: "@ + s.client_address), " | Login Name: "@ + s.login_name + " | DB Name: "@, (s.db_name + "\n"@ + "Command: "@ + s.command + " | Start Time: "@ + s.start_time + "\n"@) + export_sql_lines(s));
}

#[verifier::rlimit(40)]
proof fn lemma_export_block_labels_18(n: int, s: SessionSnapView)
    ensures
        contains(export_session_block(n, s), " | DB Name: "@ + s.db_name + "\n"@),
{
    reveal(export_client_lines);
    assert(export_session_block(n, s) =~= ("--- [Session "@ + int_decimal(n) + "] ---\n"@ + export_spid_line(s) + export_wait_lines(s) + export_io_line(s) + export_rows_line(s) + ("Client Address: "@ + s.client_address + " | Login Name: "@ + s.login_name)) + (" | DB Name: "@ + s.db_name + "\n"@) + (("Command: "@ + s.command + " | Start Time: "@ + s.start_time + "\n"@) + export_sql_lines(s)));
    lemma_occurs_middle("--- [Session "@ + int_decimal(n) + "] ---\n"@ + export_spid_line(s) + export_wait_lines(s) + export_io_line(s) + export_rows_line(s) + ("Client Address: "@ + s.client_address + " | Login Name: "@ + s.login_name), " | DB Name: "@ + s.db_name + "\n"@, ("Command: "@ + s.command + " | Start Time: "@ + s.start_time + "\n"@) + export_sql_lines(s));
}

#[verifier::rlimit(40)]
proof fn lemma_export_block_labels_19(n: int, s: SessionSnapView)
    ensures
        contains(export_session_block(n, s), "Command: "@ + s.command + " | Start Time: "@),
{
    reveal(export_client_lines);
    assert(export_session_block(n, s) =~= ("--- [Session "@ + int_decimal(n) + "] ---\n"@ + export_spid_line(s) + export_wait_lines(s) + export_io_line(s) + export_rows_line(s) + ("Client Address: "@ + s.client_address + " | Login Name: "@ + s.login_name + " | DB Name: "@ + s.db_name + "\n"@)) + ("Command: "@ + s.command + " | Start Time: "@) + ((s.start_time + "\n"@) + export_sql_lines(s)));
    lemma_occurs_middle("--- [Session "@ + int_decimal(n) + "] ---\n"@ + export_spid_line(s) + export_wait_lines(s) + export_io_line(s) + export_rows_line(s) + ("Client Address: "@ + s.client_address + " | Login Name: "@ + s.login_name + " | DB Name: "@ + s.db_name + "\n"@), "Command: "@ + s.command + " | Start Time: "@, (s.start_time + "\n"@) + export_sql_lines(s));
}

#[verifier::rlimit(40)]
proof fn lemma_export_block_labels_20(n: int, s: SessionSnapView)
    ensures
        contains(export_session_block(n, s), " | Start Time: "@ + s.start_time + "\n"@),
{
    reveal(export_client_lines);
    assert(export_session_block(n, s) =~= ("--- [Session "@ + int_decimal(n) + "] ---\n"@ + export_spid_line(s) + export_wait_lines(s) + export_io_line(s) + export_rows_line(s) + ("Client Address: "@ + s.client_address + " | Login Name: "@ + s.login_name + " | DB Name: "@ + s.db_name + "\n"@ + "Command: "@ + s.command)) + (" | Start Time: "@ + s.start_time + "\n"@) + (export_sql_lines(s)));
    lemma_occurs_middle("--- [Session "@ + int_decimal(n) + "] ---\n"@ + export_spid_line(s) + export_wait_lines(s) + export_io_line(s) + export_rows_line(s) + ("Client Address: "@ + s.client_address + " | Login Name: "@ + s.login_name + " | DB Name: "@ + s.db_name + "\n"@ + "Command: "@ + s.command), " | Start Time: "@ + s.start_time + "\n"@, export_sql_lines(s));
}

#[verifier::rlimit(40)]
proof fn lemma_export_block_labels_21(n: int, s: SessionSnapView)
    ensures
        contains(export_session_block(n, s), "Executing SQL:\n"@ + trim(s.executing_sql) + "\n"@),
{
    reveal(export_sql_lines);
    assert(export_session_block(n, s) =~= ("--- [Session "@ + int_decimal(n) + "] ---\n"@ + export_spid_line(s) + export_wait_lines(s) + export_io_line(s) + export_rows_line(s) + export_client_lines(s)) + ("Executing SQL:\n"@ + trim(s.executing_sql) + "\n"@) + (("Parent Batch SQL:\n"@ + trim(s.parent_batch_sql) + "\n\n"@)));
    lemma_occurs_middle("--- [Session "@ + int_decimal(n) + "] ---\n"@ + export_spid_line(s) + export_wait_lines(s) + export_io_line(s) + export_rows_line(s) + export_client_lines(s), "Executing SQL:\n"@ + trim(s.executing_sql) + "\n"@, ("Parent Batch SQL:\n"@ + trim(s.parent_batch_sql) + "\n\n"@));
}

#[verifier::rlimit(40)]
proof fn lemma_export_block_labels_22(n: int, s: SessionSnapView)
    ensures
        contains(export_session_block(n, s), "Parent Batch SQL:\n"@ + trim(s.parent_batch_sql) + "\n\n"@),
{
    reveal(export_sql_lines);
    assert(export_session_block(n, s) =~= ("--- [Session "@ + int_decimal(n) + "] ---\n"@ + export_spid_line(s) + export_wait_lines(s) + export_io_line(s) + export_rows_line(s) + export_client_lines(s) + ("Executing SQL:\n"@ + trim(s.executing_sql) + "\n"@)) + ("Parent Batch SQL:\n"@ + trim(s.parent_batch_sql) + "\n\n"@) + (Seq::<char>::empty()));
    lemma_occurs_middle("--- [Session "@ + int_decimal(n) + "] ---\n"@ + export_spid_line(s) + export_wait_lines(s) + export_io_line(s) + export_rows_line(s) + export_client_lines(s) + ("Executing SQL:\n"@ + trim(s.executing_sql) + "\n"@), "Parent Batch SQL:\n"@ + trim(s.parent_batch_sql) + "\n\n"@, Seq::<char>::empty());
}

#[verifier::rlimit(40)]
proof fn lemma_export_block_labels_len(n: int, s: SessionSnapView)
    ensures
        export_session_block(n, s).len() == ("--- [Session "@).len() + (int_decimal(n)).len() + ("] ---\n"@).len() + ("SPID: "@).len() + (s.spid).len() + (" | Elapsed Time: "@).len() + (s.elapsed).len() + (" ms | Status: "@).len() + (s.status).len() + ("\n"@).len() + ("Wait Type: "@).len() + (s.wait_type).len() + (" ("@).len() + (s.wait_time_ms).len() + (" ms) | Last Wait: "@).len() + (s.last_wait_type).len() + ("\n"@).len() + ("Wait Resource: "@).len() + (s.wait_resource).len() + (" | Blocking SPID: "@).len() + (s.blocking_spid).len() + ("\n"@).len() + ("CPU Time: "@).len() + (s.cpu_time_ms).len() + (" ms | Logical Reads: "@).len() + (s.logical_reads).len() + (" | Physical Reads: "@).len() + (s.physical_reads).len() + (" | Writes: "@).len() + (s.writes).len() + ("\n"@).len() + ("Row Count: "@).len() + (s.row_count).len() + (" | Open Trans: "@).len() + (s.open_trans).len() + (" | DOP: "@).len() + (s.dop).len() + ("\n"@).len() + ("Client Address: "@).len() + (s.client_address).len() + (" | Login Name: "@).len() + (s.login_name).len() + (" | DB Name: "@).len() + (s.db_name).len() + ("\n"@).len() + ("Command: "@).len() + (s.command).len() + (" | Start Time: "@).len() + (s.start_time).len() + ("\n"@).len() + ("Executing SQL:\n"@).len() + (trim(s.executing_sql)).len() + ("\n"@).len() + ("Parent Batch SQL:\n"@).len() + (trim(s.parent_batch_sql)).len() + ("\n\n"@).len(),
{
    reveal(export_spid_line);
    reveal(export_wait_lines);
    reveal(export_io_line);
    reveal(export_rows_line);
    reveal(export_client_lines);
    reveal(export_sql_lines);
}

/// The exported block `t` of the `n`-th request `s` of a snapshot gives each
/// field after its label, followed by the next label or the line's end, and
/// holds nothing more than its labels, fields and line breaks.
pub open spec fn export_block_labels(n: int, s: SessionSnapView, t: Seq<char>) -> bool {
    &&& contains(t, "--- [Session "@ + int_decimal(n) + "] ---\n"@)
    &&& contains(t, "SPID: "@ + s.spid + " | Elapsed Time: "@)
    &&& contains(t, " | Elapsed Time: "@ + s.elapsed + " ms | Status: "@)
    &&& contains(t, " ms | Status: "@ + s.status + "\n"@)
    &&& contains(t, "Wait Type: "@ + s.wait_type + " ("@)
    &&& contains(t, " ("@ + s.wait_time_ms + " ms) | Last Wait: "@)
    &&& contains(t, " ms) | Last Wait: "@ + s.last_wait_type + "\n"@)
    &&& contains(t, "Wait Resource: "@ + s.wait_resource + " | Blocking SPID: "@)
    &&& contains(t, " | Blocking SPID: "@ + s.blocking_spid + "\n"@)
    &&& contains(t, "CPU Time: "@ + s.cpu_time_ms + " ms | Logical Reads: "@)
    &&& contains(t, " ms | Logical Reads: "@ + s.logical_reads + " | Physical Reads: "@)
    &&& contains(t, " | Physical Reads: "@ + s.physical_reads + " | Writes: "@)
    &&& contains(t, " | Writes: "@ + s.writes + "\n"@)
    &&& contains(t, "Row Count: "@ + s.row_count + " | Open Trans: "@)
    &&& contains(t, " | Open Trans: "@ + s.open_trans + " | DOP: "@)
    &&& contains(t, " | DOP: "@ + s.dop + "\n"@)
    &&& contains(t, "Client Address: "@ + s.client_address + " | Login Name: "@)
    &&& contains(t, " | Login Name: "@ + s.login_name + " | DB Name: "@)
    &&& contains(t, " | DB Name: "@ + s.db_name + "\n"@)
    &&& contains(t, "Command: "@ + s.command + " | Start Time: "@)
    &&& contains(t, " | Start Time: "@ + s.start_time + "\n"@)
    &&& contains(t, "Executing SQL:\n"@ + trim(s.executing_sql) + "\n"@)
    &&& contains(t, "Parent Batch SQL:\n"@ + trim(s.parent_batch_sql) + "\n\n"@)
    &&& t.len() == ("--- [Session "@).len() + (int_decimal(n)).len() + ("] ---\n"@).len() + ("SPID: "@).len() + (s.spid).len() + (" | Elapsed Time: "@).len() + (s.elapsed).len() + (" ms | Status: "@).len() + (s.status).len() + ("\n"@).len() + ("Wait Type: "@).len() + (s.wait_type).len() + (" ("@).len() + (s.wait_time_ms).len() + (" ms) | Last Wait: "@).len() + (s.last_wait_type).len() + ("\n"@).len() + ("Wait Resource: "@).len() + (s.wait_resource).len() + (" | Blocking SPID: "@).len() + (s.blocking_spid).len() + ("\n"@).len() + ("CPU Time: "@).len() + (s.cpu_time_ms).len() + (" ms | Logical Reads: "@).len() + (s.logical_reads).len() + (" | Physical Reads: "@).len() + (s.physical_reads).len() + (" | Writes: "@).len() + (s.writes).len() + ("\n"@).len() + ("Row Count: "@).len() + (s.row_count).len() + (" | Open Trans: "@).len() + (s.open_trans).len() + (" | DOP: "@).len() + (s.dop).len() + ("\n"@).len() + ("Client Address: "@).len() + (s.client_address).len() + (" | Login Name: "@).len() + (s.login_name).len() + (" | DB Name: "@).len() + (s.db_name).len() + ("\n"@).len() + ("Command: "@).len() + (s.command).len() + (" | Start Time: "@).len() + (s.start_time).len() + ("\n"@).len() + ("Executing SQL:\n"@).len() + (trim(s.executing_sql)).len() + ("\n"@).len() + ("Parent Batch SQL:\n"@).len() + (trim(s.parent_batch_sql)).len() + ("\n\n"@).len()
}

/// In an exported snapshot, each request's block gives every field after its
/// own label, and nothing else.
pub proof fn law_export_block_labels(n: int, s: SessionSnapView)
    ensures
        export_block_labels(n, s, export_session_block(n, s)),
{
    lemma_export_block_labels_0(n, s);
    lemma_export_block_labels_1(n, s);
    lemma_export_block_labels_2(n, s);
    lemma_export_block_labels_3(n, s);
    lemma_export_block_labels_4(n, s);
    lemma_export_block_labels_5(n, s);
    lemma_export_block_labels_6(n, s);
    lemma_export_block_labels_7(n, s);
    lemma_export_block_labels_8(n, s);
    lemma_export_block_labels_9(n, s);
    lemma_export_block_labels_10(n, s);
    lemma_export_block_labels_11(n, s);
    lemma_export_block_labels_12(n, s);
    lemma_export_block_labels_13(n, s);
    lemma_export_block_labels_14(n, s);
    lemma_export_block_labels_15(n, s);
    lemma_export_block_labels_16(n, s);
    lemma_export_block_labels_17(n, s);
    lemma_export_block_labels_18(n, s);
    lemma_export_block_labels_19(n, s);
    lemma_export_block_labels_20(n, s);
    lemma_export_block_labels_21(n, s);
    lemma_export_block_labels_22(n, s);
    lemma_export_block_labels_len(n, s);
}


#[verifier::rlimit(40)]
proof fn lemma_export_text_labels_0(d: SnapshotView)
    ensures
        contains(export_text(d), "Server: "@ + d.server + "\n"@),
{
    reveal(export_header);
    assert(export_text(d) =~= ((separator_line() + "\n"@)) + ("Server: "@ + d.server + "\n"@) + (("Capture Time: "@ + d.capture_time + "\n"@ + dash_line() + "\n"@) + export_figures(d) + export_activity(d) + dash_line() + "\n"@ + "Captured Sessions Details:\n\n"@ + (if d.sessions.len() == 0 {
        "No sessions captured under current filter criteria.\n"@
    } else {
        export_sessions_text(d.sessions)
    }) + separator_line() + "\n\n"@));
    lemma_occurs_middle((separator_line() + "\n"@), "Server: "@ + d.server + "\n"@, ("Capture Time: "@ + d.capture_time + "\n"@ + dash_line() + "\n"@) + export_figures(d) + export_activity(d) + dash_line() + "\n"@ + "Captured Sessions Details:\n\n"@ + (if d.sessions.len() == 0 {
        "No sessions captured under current filter criteria.\n"@
    } else {
        export_sessions_text(d.sessions)
    }) + separator_line() + "\n\n"@);
}

#[verifier::rlimit(40)]
proof fn lemma_export_text_labels_1(d: SnapshotView)
    ensures
        contains(export_text(d), "Capture Time: "@ + d.capture_time + "\n"@),
{
    reveal(export_header);
    assert(export_text(d) =~= ((separator_line() + "\n"@ + "Server: "@ + d.server + "\n"@)) + ("Capture Time: "@ + d.capture_time + "\n"@) + ((dash_line() + "\n"@) + export_figures(d) + export_activity(d) + dash_line() + "\n"@ + "Captured Sessions Details:\n\n"@ + (if d.sessions.len() == 0 {
        "No sessions captured under current filter criteria.\n"@
    } else {
        export_sessions_text(d.sessions)
    }) + separator_line() + "\n\n"@));
    lemma_occurs_middle((separator_line() + "\n"@ + "Server: "@ + d.server + "\n"@), "Capture Time: "@ + d.capture_time + "\n"@, (dash_line() + "\n"@) + export_figures(d) + export_activity(d) + dash_line() + "\n"@ + "Captured Sessions Details:\n\n"@ + (if d.sessions.len() == 0 {
        "No sessions captured under current filter criteria.\n"@
    } else {
        export_sessions_text(d.sessions)
    }) + separator_line() + "\n\n"@);
}

#[verifier::rlimit(40)]
proof fn lemma_export_text_labels_2(d: SnapshotView)
    ensures
        contains(export_text(d), "Workers: "@ + d.workers + "\n"@),
{
    reveal(export_figures);
    assert(export_text(d) =~= (export_header(d)) + ("Workers: "@ + d.workers + "\n"@) + (("Logical Connections: "@ + d.logical_connections + "\n"@ + "Page Life Expectancy: "@ + d.ple + "\n"@ + "Active Temp Tables: "@ + d.active_temp_tables + "\n"@) + export_activity(d) + dash_line() + "\n"@ + "Captured Sessions Details:\n\n"@ + (if d.sessions.len() == 0 {
        "No sessions captured under current filter criteria.\n"@
    } else {
        export_sessions_text(d.sessions)
    }) + separator_line() + "\n\n"@));
    lemma_occurs_middle(export_header(d), "Workers: "@ + d.workers + "\n"@, ("Logical Connections: "@ + d.logical_connections + "\n"@ + "Page Life Expectancy: "@ + d.ple + "\n"@ + "Active Temp Tables: "@ + d.active_temp_tables + "\n"@) + export_activity(d) + dash_line() + "\n"@ + "Captured Sessions Details:\n\n"@ + (if d.sessions.len() == 0 {
        "No sessions captured under current filter criteria.\n"@
    } else {
        export_sessions_text(d.sessions)
    }) + separator_line() + "\n\n"@);
}

#[verifier::rlimit(40)]
proof fn lemma_export_text_labels_3(d: SnapshotView)
    ensures
        contains(export_text(d), "Logical Connections: "@ + d.logical_connections + "\n"@),
{
    reveal(export_figures);
    assert(export_text(d) =~= (export_header(d) + ("Workers: "@ + d.workers + "\n"@)) + ("Logical Connections: "@ + d.logical_connections + "\n"@) + (("Page Life Expectancy: "@ + d.ple + "\n"@ + "Active Temp Tables: "@ + d.active_temp_tables + "\n"@) + export_activity(d) + dash_line() + "\n"@ + "Captured Sessions Details:\n\n"@ + (if d.sessions.len() == 0 {
        "No sessions captured under current filter criteria.\n"@
    } else {
        export_sessions_text(d.sessions)
    }) + separator_line() + "\n\n"@));
    lemma_occurs_middle(export_header(d) + ("Workers: "@ + d.workers + "\n"@), "Logical Connections: "@ + d.logical_connections + "\n"@, ("Page Life Expectancy: "@ + d.ple + "\n"@ + "Active Temp Tables: "@ + d.active_temp_tables + "\n"@) + export_activity(d) + dash_line() + "\n"@ + "Captured Sessions Details:\n\n"@ + (if d.sessions.len() == 0 {
        "No sessions captured under current filter criteria.\n"@
    } else {
        export_sessions_text(d.sessions)
    }) + separator_line() + "\n\n"@);
}

#[verifier::rlimit(40)]
proof fn lemma_export_text_labels_4(d: SnapshotView)
    ensures
        contains(export_text(d), "Page Life Expectancy: "@ + d.ple + "\n"@),
{
    reveal(export_figures);
    assert(export_text(d) =~= (export_header(d) + ("Workers: "@ + d.workers + "\n"@ + "Logical Connections: "@ + d.logical_connections + "\n"@)) + ("Page Life Expectancy: "@ + d.ple + "\n"@) + (("Active Temp Tables: "@ + d.active_temp_tables + "\n"@) + export_activity(d) + dash_line() + "\n"@ + "Captured Sessions Details:\n\n"@ + (if d.sessions.len() == 0 {
        "No sessions captured under current filter criteria.\n"@
    } else {
        export_sessions_text(d.sessions)
    }) + separator_line() + "\n\n"@));
    lemma_occurs_middle(export_header(d) + ("Workers: "@ + d.workers + "\n"@ + "Logical Connections: "@ + d.logical_connections + "\n"@), "Page Life Expectancy: "@ + d.ple + "\n"@, ("Active Temp Tables: "@ + d.active_temp_tables + "\n"@) + export_activity(d) + dash_line() + "\n"@ + "Captured Sessions Details:\n\n"@ + (if d.sessions.len() == 0 {
        "No sessions captured under current filter criteria.\n"@
    } else {
        export_sessions_text(d.sessions)
    }) + separator_line() + "\n\n"@);
}

#[verifier::rlimit(40)]
proof fn lemma_export_text_labels_5(d: SnapshotView)
    ensures
        contains(export_text(d), "Active Temp Tables: "@ + d.active_temp_tables + "\n"@),
{
    reveal(export_figures);
    assert(export_text(d) =~= (export_header(d) + ("Workers: "@ + d.workers + "\n"@ + "Logical Connections: "@ + d.logical_connections + "\n"@ + "Page Life Expectancy: "@ + d.ple + "\n"@)) + ("Active Temp Tables: "@ + d.active_temp_tables + "\n"@) + (export_activity(d) + dash_line() + "\n"@ + "Captured Sessions Details:\n\n"@ + (if d.sessions.len() == 0 {
        "No sessions captured under current filter criteria.\n"@
    } else {
        export_sessions_text(d.sessions)
    }) + separator_line() + "\n\n"@));
    lemma_occurs_middle(export_header(d) + ("Workers: "@ + d.workers + "\n"@ + "Logical Connections: "@ + d.logical_connections + "\n"@ + "Page Life Expectancy: "@ + d.ple + "\n"@), "Active Temp Tables: "@ + d.active_temp_tables + "\n"@, export_activity(d) + dash_line() + "\n"@ + "Captured Sessions Details:\n\n"@ + (if d.sessions.len() == 0 {
        "No sessions captured under current filter criteria.\n"@
    } else {
        export_sessions_text(d.sessions)
    }) + separator_line() + "\n\n"@);
}

#[verifier::rlimit(40)]
proof fn lemma_export_text_labels_6(d: SnapshotView)
    ensures
        contains(export_text(d), "Transactions: "@ + d.transactions + "\n"@),
{
    reveal(export_activity);
    assert(export_text(d) =~= (export_header(d) + export_figures(d)) + ("Transactions: "@ + d.transactions + "\n"@) + (("Request Sessions: "@ + d.request_sessions_count + "\n"@) + dash_line() + "\n"@ + "Captured Sessions Details:\n\n"@ + (if d.sessions.len() == 0 {
        "No sessions captured under current filter criteria.\n"@
    } else {
        export_sessions_text(d.sessions)
    }) + separator_line() + "\n\n"@));
    lemma_occurs_middle(export_header(d) + export_figures(d), "Transactions: "@ + d.transactions + "\n"@, ("Request Sessions: "@ + d.request_sessions_count + "\n"@) + dash_line() + "\n"@ + "Captured Sessions Details:\n\n"@ + (if d.sessions.len() == 0 {
        "No sessions captured under current filter criteria.\n"@
    } else {
        export_sessions_text(d.sessions)
    }) + separator_line() + "\n\n"@);
}

#[verifier::rlimit(40)]
proof fn lemma_export_text_labels_7(d: SnapshotView)
    ensures
        contains(export_text(d), "Request Sessions: "@ + d.request_sessions_count + "\n"@),
{
    reveal(export_activity);
    assert(export_text(d) =~= (export_header(d) + export_figures(d) + ("Transactions: "@ + d.transactions + "\n"@)) + ("Request Sessions: "@ + d.request_sessions_count + "\n"@) + (dash_line() + "\n"@ + "Captured Sessions Details:\n\n"@ + (if d.sessions.len() == 0 {
        "No sessions captured under current filter criteria.\n"@
    } else {
        export_sessions_text(d.sessions)
    }) + separator_line() + "\n\n"@));
    lemma_occurs_middle(export_header(d) + export_figures(d) + ("Transactions: "@ + d.transactions + "\n"@), "Request Sessions: "@ + d.request_sessions_count + "\n"@, dash_line() + "\n"@ + "Captured Sessions Details:\n\n"@ + (if d.sessions.len() == 0 {
        "No sessions captured under current filter criteria.\n"@
    } else {
        export_sessions_text(d.sessions)
    }) + separator_line() + "\n\n"@);
}

#[verifier::rlimit(40)]
proof fn lemma_export_text_labels_len(d: SnapshotView)
    ensures
        export_text(d).len() == (separator_line()).len() + ("\n"@).len() + ("Server: "@).len() + (d.server).len() + ("\n"@).len() + ("Capture Time: "@).len() + (d.capture_time).len() + ("\n"@).len() + (dash_line()).len() + ("\n"@).len() + ("Workers: "@).len() + (d.workers).len() + ("\n"@).len() + ("Logical Connections: "@).len() + (d.logical_connections).len() + ("\n"@).len() + ("Page Life Expectancy: "@).len() + (d.ple).len() + ("\n"@).len() + ("Active Temp Tables: "@).len() + (d.active_temp_tables).len() + ("\n"@).len() + ("Transactions: "@).len() + (d.transactions).len() + ("\n"@).len() + ("Request Sessions: "@).len() + (d.request_sessions_count).len() + ("\n"@).len() + (dash_line()).len() + ("\n"@).len() + ("Captured Sessions Details:\n\n"@).len() + ((if d.sessions.len() == 0 {
        "No sessions captured under current filter criteria.\n"@
    } else {
        export_sessions_text(d.sessions)
    })).len() + (separator_line()).len() + ("\n\n"@).len(),
{
    reveal(export_header);
    reveal(export_figures);
    reveal(export_activity);
}

/// The exported text `t` of snapshot `d` gives the server, the capture time and
/// each figure after its own label.
pub open spec fn export_text_labels(d: SnapshotView, t: Seq<char>) -> bool {
    &&& contains(t, "Server: "@ + d.server + "\n"@)
    &&& contains(t, "Capture Time: "@ + d.capture_time + "\n"@)
    &&& contains(t, "Workers: "@ + d.workers + "\n"@)
    &&& contains(t, "Logical Connections: "@ + d.logical_connections + "\n"@)
    &&& contains(t, "Page Life Expectancy: "@ + d.ple + "\n"@)
    &&& contains(t, "Active Temp Tables: "@ + d.active_temp_tables + "\n"@)
    &&& contains(t, "Transactions: "@ + d.transactions + "\n"@)
    &&& contains(t, "Request Sessions: "@ + d.request_sessions_count + "\n"@)
    &&& t.len() == (separator_line()).len() + ("\n"@).len() + ("Server: "@).len() + (d.server).len() + ("\n"@).len() + ("Capture Time: "@).len() + (d.capture_time).len() + ("\n"@).len() + (dash_line()).len() + ("\n"@).len() + ("Workers: "@).len() + (d.workers).len() + ("\n"@).len() + ("Logical Connections: "@).len() + (d.logical_connections).len() + ("\n"@).len() + ("Page Life Expectancy: "@).len() + (d.ple).len() + ("\n"@).len() + ("Active Temp Tables: "@).len() + (d.active_temp_tables).len() + ("\n"@).len() + ("Transactions: "@).len() + (d.transactions).len() + ("\n"@).len() + ("Request Sessions: "@).len() + (d.request_sessions_count).len() + ("\n"@).len() + (dash_line()).len() + ("\n"@).len() + ("Captured Sessions Details:\n\n"@).len() + ((if d.sessions.len() == 0 {
        "No sessions captured under current filter criteria.\n"@
    } else {
        export_sessions_text(d.sessions)
    })).len() + (separator_line()).len() + ("\n\n"@).len()
}

/// An exported snapshot gives the server, the capture time and every figure
/// after its own label.
pub proof fn law_export_text_labels(d: SnapshotView)
    ensures
        export_text_labels(d, export_text(d)),
{
    lemma_export_text_labels_0(d);
    lemma_export_text_labels_1(d);
    lemma_export_text_labels_2(d);
    lemma_export_text_labels_3(d);
    lemma_export_text_labels_4(d);
    lemma_export_text_labels_5(d);
    lemma_export_text_labels_6(d);
    lemma_export_text_labels_7(d);
    lemma_export_text_labels_len(d);
}

}
