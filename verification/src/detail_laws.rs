//! What the detail texts of a request say: each label is followed by the field
//! it names, and the text holds nothing but its labels and fields.
use vstd::prelude::*;
use crate::alert_viewer::{
    SessionAlertView, alert_detail_head, alert_detail_mid, alert_detail_tail, alert_detail_text,
    alert_wait_cell_text,
};
use crate::model::SessionView;
use crate::number::int_decimal;
use crate::report::{detail_client_lines, detail_io_lines, detail_wait_lines, session_detail_text};
use crate::snapshot_viewer::{
    SessionSnapView, snap_detail_head, snap_detail_io, snap_detail_tail, snap_detail_text,
    snap_wait_cell_text,
};
use crate::text::{contains, occurs_at, starts_with, trim};

verus! {

proof fn lemma_occurs_middle(x: Seq<char>, w: Seq<char>, y: Seq<char>)
    ensures
        occurs_at(x + w + y, w, x.len() as int),
        contains(x + w + y, w),
{
    let s = x + w + y;
    assert(s.subrange(x.len() as int, (x.len() + w.len()) as int) =~= w);
}

#[verifier::rlimit(40)]
proof fn lemma_session_detail_labels_0(s: SessionView)
    ensures
        occurs_at(session_detail_text(s), "Capture Time: "@ + s.capture_time + "\nSPID: "@, 0),
{
    reveal(detail_wait_lines);
    assert(session_detail_text(s) =~= (Seq::<char>::empty()) + ("Capture Time: "@ + s.capture_time + "\nSPID: "@) + ((int_decimal(s.session_id) + "\nElapsed Time: "@ + int_decimal(s.elapsed_time_ms) + " ms\nStatus: "@ + s.status + "\nWait Type: "@ + s.wait_type + " ("@ + int_decimal(s.wait_time_ms) + " ms)\nLast Wait Type: "@ + s.last_wait_type + "\nWait Resource: "@ + s.wait_resource + "\nWait Session ID (Blocking): "@ + int_decimal(s.wait_session_id)) + detail_io_lines(s) + detail_client_lines(s)));
    lemma_occurs_middle(Seq::<char>::empty(), "Capture Time: "@ + s.capture_time + "\nSPID: "@, (int_decimal(s.session_id) + "\nElapsed Time: "@ + int_decimal(s.elapsed_time_ms) + " ms\nStatus: "@ + s.status + "\nWait Type: "@ + s.wait_type + " ("@ + int_decimal(s.wait_time_ms) + " ms)\nLast Wait Type: "@ + s.last_wait_type + "\nWait Resource: "@ + s.wait_resource + "\nWait Session ID (Blocking): "@ + int_decimal(s.wait_session_id)) + detail_io_lines(s) + detail_client_lines(s));
}

#[verifier::rlimit(40)]
proof fn lemma_session_detail_labels_1(s: SessionView)
    ensures
        contains(session_detail_text(s), "\nSPID: "@ + int_decimal(s.session_id) + "\nElapsed Time: "@),
{
    reveal(detail_wait_lines);
    assert(session_detail_text(s) =~= (("Capture Time: "@ + s.capture_time)) + ("\nSPID: "@ + int_decimal(s.session_id) + "\nElapsed Time: "@) + ((int_decimal(s.elapsed_time_ms) + " ms\nStatus: "@ + s.status + "\nWait Type: "@ + s.wait_type + " ("@ + int_decimal(s.wait_time_ms) + " ms)\nLast Wait Type: "@ + s.last_wait_type + "\nWait Resource: "@ + s.wait_resource + "\nWait Session ID (Blocking): "@ + int_decimal(s.wait_session_id)) + detail_io_lines(s) + detail_client_lines(s)));
    lemma_occurs_middle(("Capture Time: "@ + s.capture_time), "\nSPID: "@ + int_decimal(s.session_id) + "\nElapsed Time: "@, (int_decimal(s.elapsed_time_ms) + " ms\nStatus: "@ + s.status + "\nWait Type: "@ + s.wait_type + " ("@ + int_decimal(s.wait_time_ms) + " ms)\nLast Wait Type: "@ + s.last_wait_type + "\nWait Resource: "@ + s.wait_resource + "\nWait Session ID (Blocking): "@ + int_decimal(s.wait_session_id)) + detail_io_lines(s) + detail_client_lines(s));
}

#[verifier::rlimit(40)]
proof fn lemma_session_detail_labels_2(s: SessionView)
    ensures
        contains(session_detail_text(s), "\nElapsed Time: "@ + int_decimal(s.elapsed_time_ms) + " ms\nStatus: "@),
{
    reveal(detail_wait_lines);
    assert(session_detail_text(s) =~= (("Capture Time: "@ + s.capture_time + "\nSPID: "@ + int_decimal(s.session_id))) + ("\nElapsed Time: "@ + int_decimal(s.elapsed_time_ms) + " ms\nStatus: "@) + ((s.status + "\nWait Type: "@ + s.wait_type + " ("@ + int_decimal(s.wait_time_ms) + " ms)\nLast Wait Type: "@ + s.last_wait_type + "\nWait Resource: "@ + s.wait_resource + "\nWait Session ID (Blocking): "@ + int_decimal(s.wait_session_id)) + detail_io_lines(s) + detail_client_lines(s)));
    lemma_occurs_middle(("Capture Time: "@ + s.capture_time + "\nSPID: "@ + int_decimal(s.session_id)), "\nElapsed Time: "@ + int_decimal(s.elapsed_time_ms) + " ms\nStatus: "@, (s.status + "\nWait Type: "@ + s.wait_type + " ("@ + int_decimal(s.wait_time_ms) + " ms)\nLast Wait Type: "@ + s.last_wait_type + "\nWait Resource: "@ + s.wait_resource + "\nWait Session ID (Blocking): "@ + int_decimal(s.wait_session_id)) + detail_io_lines(s) + detail_client_lines(s));
}

#[verifier::rlimit(40)]
proof fn lemma_session_detail_labels_3(s: SessionView)
    ensures
        contains(session_detail_text(s), " ms\nStatus: "@ + s.status + "\nWait Type: "@),
{
    reveal(detail_wait_lines);
    assert(session_detail_text(s) =~= (("Capture Time: "@ + s.capture_time + "\nSPID: "@ + int_decimal(s.session_id) + "\nElapsed Time: "@ + int_decimal(s.elapsed_time_ms))) + (" ms\nStatus: "@ + s.status + "\nWait Type: "@) + ((s.wait_type + " ("@ + int_decimal(s.wait_time_ms) + " ms)\nLast Wait Type: "@ + s.last_wait_type + "\nWait Resource: "@ + s.wait_resource + "\nWait Session ID (Blocking): "@ + int_decimal(s.wait_session_id)) + detail_io_lines(s) + detail_client_lines(s)));
    lemma_occurs_middle(("Capture Time: "@ + s.capture_time + "\nSPID: "@ + int_decimal(s.session_id) + "\nElapsed Time: "@ + int_decimal(s.elapsed_time_ms)), " ms\nStatus: "@ + s.status + "\nWait Type: "@, (s.wait_type + " ("@ + int_decimal(s.wait_time_ms) + " ms)\nLast Wait Type: "@ + s.last_wait_type + "\nWait Resource: "@ + s.wait_resource + "\nWait Session ID (Blocking): "@ + int_decimal(s.wait_session_id)) + detail_io_lines(s) + detail_client_lines(s));
}

#[verifier::rlimit(40)]
proof fn lemma_session_detail_labels_4(s: SessionView)
    ensures
        contains(session_detail_text(s), "\nWait Type: "@ + s.wait_type + " ("@),
{
    reveal(detail_wait_lines);
    assert(session_detail_text(s) =~= (("Capture Time: "@ + s.capture_time + "\nSPID: "@ + int_decimal(s.session_id) + "\nElapsed Time: "@ + int_decimal(s.elapsed_time_ms) + " ms\nStatus: "@ + s.status)) + ("\nWait Type: "@ + s.wait_type + " ("@) + ((int_decimal(s.wait_time_ms) + " ms)\nLast Wait Type: "@ + s.last_wait_type + "\nWait Resource: "@ + s.wait_resource + "\nWait Session ID (Blocking): "@ + int_decimal(s.wait_session_id)) + detail_io_lines(s) + detail_client_lines(s)));
    lemma_occurs_middle(("Capture Time: "@ + s.capture_time + "\nSPID: "@ + int_decimal(s.session_id) + "\nElapsed Time: "@ + int_decimal(s.elapsed_time_ms) + " ms\nStatus: "@ + s.status), "\nWait Type: "@ + s.wait_type + " ("@, (int_decimal(s.wait_time_ms) + " ms)\nLast Wait Type: "@ + s.last_wait_type + "\nWait Resource: "@ + s.wait_resource + "\nWait Session ID (Blocking): "@ + int_decimal(s.wait_session_id)) + detail_io_lines(s) + detail_client_lines(s));
}

#[verifier::rlimit(40)]
proof fn lemma_session_detail_labels_5(s: SessionView)
    ensures
        contains(session_detail_text(s), " ("@ + int_decimal(s.wait_time_ms) + " ms)\nLast Wait Type: "@),
{
    reveal(detail_wait_lines);
    assert(session_detail_text(s) =~= (("Capture Time: "@ + s.capture_time + "\nSPID: "@ + int_decimal(s.session_id) + "\nElapsed Time: "@ + int_decimal(s.elapsed_time_ms) + " ms\nStatus: "@ + s.status + "\nWait Type: "@ + s.wait_type)) + (" ("@ + int_decimal(s.wait_time_ms) + " ms)\nLast Wait Type: "@) + ((s.last_wait_type + "\nWait Resource: "@ + s.wait_resource + "\nWait Session ID (Blocking): "@ + int_decimal(s.wait_session_id)) + detail_io_lines(s) + detail_client_lines(s)));
    lemma_occurs_middle(("Capture Time: "@ + s.capture_time + "\nSPID: "@ + int_decimal(s.session_id) + "\nElapsed Time: "@ + int_decimal(s.elapsed_time_ms) + " ms\nStatus: "@ + s.status + "\nWait Type: "@ + s.wait_type), " ("@ + int_decimal(s.wait_time_ms) + " ms)\nLast Wait Type: "@, (s.last_wait_type + "\nWait Resource: "@ + s.wait_resource + "\nWait Session ID (Blocking): "@ + int_decimal(s.wait_session_id)) + detail_io_lines(s) + detail_client_lines(s));
}

#[verifier::rlimit(40)]
proof fn lemma_session_detail_labels_6(s: SessionView)
    ensures
        contains(session_detail_text(s), " ms)\nLast Wait Type: "@ + s.last_wait_type + "\nWait Resource: "@),
{
    reveal(detail_wait_lines);
    assert(session_detail_text(s) =~= (("Capture Time: "@ + s.capture_time + "\nSPID: "@ + int_decimal(s.session_id) + "\nElapsed Time: "@ + int_decimal(s.elapsed_time_ms) + " ms\nStatus: "@ + s.status + "\nWait Type: "@ + s.wait_type + " ("@ + int_decimal(s.wait_time_ms))) + (" ms)\nLast Wait Type: "@ + s.last_wait_type + "\nWait Resource: "@) + ((s.wait_resource + "\nWait Session ID (Blocking): "@ + int_decimal(s.wait_session_id)) + detail_io_lines(s) + detail_client_lines(s)));
    lemma_occurs_middle(("Capture Time: "@ + s.capture_time + "\nSPID: "@ + int_decimal(s.session_id) + "\nElapsed Time: "@ + int_decimal(s.elapsed_time_ms) + " ms\nStatus: "@ + s.status + "\nWait Type: "@ + s.wait_type + " ("@ + int_decimal(s.wait_time_ms)), " ms)\nLast Wait Type: "@ + s.last_wait_type + "\nWait Resource: "@, (s.wait_resource + "\nWait Session ID (Blocking): "@ + int_decimal(s.wait_session_id)) + detail_io_lines(s) + detail_client_lines(s));
}

#[verifier::rlimit(40)]
proof fn lemma_session_detail_labels_7(s: SessionView)
    ensures
        contains(session_detail_text(s), "\nWait Resource: "@ + s.wait_resource + "\nWait Session ID (Blocking): "@),
{
    reveal(detail_wait_lines);
    assert(session_detail_text(s) =~= (("Capture Time: "@ + s.capture_time + "\nSPID: "@ + int_decimal(s.session_id) + "\nElapsed Time: "@ + int_decimal(s.elapsed_time_ms) + " ms\nStatus: "@ + s.status + "\nWait Type: "@ + s.wait_type + " ("@ + int_decimal(s.wait_time_ms) + " ms)\nLast Wait Type: "@ + s.last_wait_type)) + ("\nWait Resource: "@ + s.wait_resource + "\nWait Session ID (Blocking): "@) + ((int_decimal(s.wait_session_id)) + detail_io_lines(s) + detail_client_lines(s)));
    lemma_occurs_middle(("Capture Time: "@ + s.capture_time + "\nSPID: "@ + int_decimal(s.session_id) + "\nElapsed Time: "@ + int_decimal(s.elapsed_time_ms) + " ms\nStatus: "@ + s.status + "\nWait Type: "@ + s.wait_type + " ("@ + int_decimal(s.wait_time_ms) + " ms)\nLast Wait Type: "@ + s.last_wait_type), "\nWait Resource: "@ + s.wait_resource + "\nWait Session ID (Blocking): "@, (int_decimal(s.wait_session_id)) + detail_io_lines(s) + detail_client_lines(s));
}

#[verifier::rlimit(80)]
proof fn lemma_session_detail_labels_8(s: SessionView)
    ensures
        contains(session_detail_text(s), "\nWait Session ID (Blocking): "@ + int_decimal(s.wait_session_id) + "\nCPU Time: "@),
{
    reveal(detail_wait_lines);
    reveal(detail_io_lines);
    assert(session_detail_text(s) =~= (("Capture Time: "@ + s.capture_time + "\nSPID: "@ + int_decimal(s.session_id) + "\nElapsed Time: "@ + int_decimal(s.elapsed_time_ms) + " ms\nStatus: "@ + s.status + "\nWait Type: "@ + s.wait_type + " ("@ + int_decimal(s.wait_time_ms) + " ms)\nLast Wait Type: "@ + s.last_wait_type + "\nWait Resource: "@ + s.wait_resource)) + ("\nWait Session ID (Blocking): "@ + int_decimal(s.wait_session_id) + "\nCPU Time: "@) + ((int_decimal(s.cpu_time_ms) + " ms\nLogical Reads: "@ + int_decimal(s.logical_reads) + "\nPhysical Reads: "@ + int_decimal(s.physical_reads) + "\nWrites: "@ + int_decimal(s.writes) + "\nRow Count: "@ + int_decimal(s.row_count) + "\nOpen Trans: "@ + int_decimal(s.open_transaction_count) + "\nDOP: "@ + int_decimal(s.dop)) + detail_client_lines(s)));
    lemma_occurs_middle(("Capture Time: "@ + s.capture_time + "\nSPID: "@ + int_decimal(s.session_id) + "\nElapsed Time: "@ + int_decimal(s.elapsed_time_ms) + " ms\nStatus: "@ + s.status + "\nWait Type: "@ + s.wait_type + " ("@ + int_decimal(s.wait_time_ms) + " ms)\nLast Wait Type: "@ + s.last_wait_type + "\nWait Resource: "@ + s.wait_resource), "\nWait Session ID (Blocking): "@ + int_decimal(s.wait_session_id) + "\nCPU Time: "@, (int_decimal(s.cpu_time_ms) + " ms\nLogical Reads: "@ + int_decimal(s.logical_reads) + "\nPhysical Reads: "@ + int_decimal(s.physical_reads) + "\nWrites: "@ + int_decimal(s.writes) + "\nRow Count: "@ + int_decimal(s.row_count) + "\nOpen Trans: "@ + int_decimal(s.open_transaction_count) + "\nDOP: "@ + int_decimal(s.dop)) + detail_client_lines(s));
}

#[verifier::rlimit(40)]
proof fn lemma_session_detail_labels_9(s: SessionView)
    ensures
        contains(session_detail_text(s), "\nCPU Time: "@ + int_decimal(s.cpu_time_ms) + " ms\nLogical Reads: "@),
{
    reveal(detail_io_lines);
    assert(session_detail_text(s) =~= (detail_wait_lines(s)) + ("\nCPU Time: "@ + int_decimal(s.cpu_time_ms) + " ms\nLogical Reads: "@) + ((int_decimal(s.logical_reads) + "\nPhysical Reads: "@ + int_decimal(s.physical_reads) + "\nWrites: "@ + int_decimal(s.writes) + "\nRow Count: "@ + int_decimal(s.row_count) + "\nOpen Trans: "@ + int_decimal(s.open_transaction_count) + "\nDOP: "@ + int_decimal(s.dop)) + detail_client_lines(s)));
    lemma_occurs_middle(detail_wait_lines(s), "\nCPU Time: "@ + int_decimal(s.cpu_time_ms) + " ms\nLogical Reads: "@, (int_decimal(s.logical_reads) + "\nPhysical Reads: "@ + int_decimal(s.physical_reads) + "\nWrites: "@ + int_decimal(s.writes) + "\nRow Count: "@ + int_decimal(s.row_count) + "\nOpen Trans: "@ + int_decimal(s.open_transaction_count) + "\nDOP: "@ + int_decimal(s.dop)) + detail_client_lines(s));
}

#[verifier::rlimit(40)]
proof fn lemma_session_detail_labels_10(s: SessionView)
    ensures
        contains(session_detail_text(s), " ms\nLogical Reads: "@ + int_decimal(s.logical_reads) + "\nPhysical Reads: "@),
{
    reveal(detail_io_lines);
    assert(session_detail_text(s) =~= (detail_wait_lines(s) + ("\nCPU Time: "@ + int_decimal(s.cpu_time_ms))) + (" ms\nLogical Reads: "@ + int_decimal(s.logical_reads) + "\nPhysical Reads: "@) + ((int_decimal(s.physical_reads) + "\nWrites: "@ + int_decimal(s.writes) + "\nRow Count: "@ + int_decimal(s.row_count) + "\nOpen Trans: "@ + int_decimal(s.open_transaction_count) + "\nDOP: "@ + int_decimal(s.dop)) + detail_client_lines(s)));
    lemma_occurs_middle(detail_wait_lines(s) + ("\nCPU Time: "@ + int_decimal(s.cpu_time_ms)), " ms\nLogical Reads: "@ + int_decimal(s.logical_reads) + "\nPhysical Reads: "@, (int_decimal(s.physical_reads) + "\nWrites: "@ + int_decimal(s.writes) + "\nRow Count: "@ + int_decimal(s.row_count) + "\nOpen Trans: "@ + int_decimal(s.open_transaction_count) + "\nDOP: "@ + int_decimal(s.dop)) + detail_client_lines(s));
}

#[verifier::rlimit(40)]
proof fn lemma_session_detail_labels_11(s: SessionView)
    ensures
        contains(session_detail_text(s), "\nPhysical Reads: "@ + int_decimal(s.physical_reads) + "\nWrites: "@),
{
    reveal(detail_io_lines);
    assert(session_detail_text(s) =~= (detail_wait_lines(s) + ("\nCPU Time: "@ + int_decimal(s.cpu_time_ms) + " ms\nLogical Reads: "@ + int_decimal(s.logical_reads))) + ("\nPhysical Reads: "@ + int_decimal(s.physical_reads) + "\nWrites: "@) + ((int_decimal(s.writes) + "\nRow Count: "@ + int_decimal(s.row_count) + "\nOpen Trans: "@ + int_decimal(s.open_transaction_count) + "\nDOP: "@ + int_decimal(s.dop)) + detail_client_lines(s)));
    lemma_occurs_middle(detail_wait_lines(s) + ("\nCPU Time: "@ + int_decimal(s.cpu_time_ms) + " ms\nLogical Reads: "@ + int_decimal(s.logical_reads)), "\nPhysical Reads: "@ + int_decimal(s.physical_reads) + "\nWrites: "@, (int_decimal(s.writes) + "\nRow Count: "@ + int_decimal(s.row_count) + "\nOpen Trans: "@ + int_decimal(s.open_transaction_count) + "\nDOP: "@ + int_decimal(s.dop)) + detail_client_lines(s));
}

#[verifier::rlimit(40)]
proof fn lemma_session_detail_labels_12(s: SessionView)
    ensures
        contains(session_detail_text(s), "\nWrites: "@ + int_decimal(s.writes) + "\nRow Count: "@),
{
    reveal(detail_io_lines);
    assert(session_detail_text(s) =~= (detail_wait_lines(s) + ("\nCPU Time: "@ + int_decimal(s.cpu_time_ms) + " ms\nLogical Reads: "@ + int_decimal(s.logical_reads) + "\nPhysical Reads: "@ + int_decimal(s.physical_reads))) + ("\nWrites: "@ + int_decimal(s.writes) + "\nRow Count: "@) + ((int_decimal(s.row_count) + "\nOpen Trans: "@ + int_decimal(s.open_transaction_count) + "\nDOP: "@ + int_decimal(s.dop)) + detail_client_lines(s)));
    lemma_occurs_middle(detail_wait_lines(s) + ("\nCPU Time: "@ + int_decimal(s.cpu_time_ms) + " ms\nLogical Reads: "@ + int_decimal(s.logical_reads) + "\nPhysical Reads: "@ + int_decimal(s.physical_reads)), "\nWrites: "@ + int_decimal(s.writes) + "\nRow Count: "@, (int_decimal(s.row_count) + "\nOpen Trans: "@ + int_decimal(s.open_transaction_count) + "\nDOP: "@ + int_decimal(s.dop)) + detail_client_lines(s));
}

#[verifier::rlimit(40)]
proof fn lemma_session_detail_labels_13(s: SessionView)
    ensures
        contains(session_detail_text(s), "\nRow Count: "@ + int_decimal(s.row_count) + "\nOpen Trans: "@),
{
    reveal(detail_io_lines);
    assert(session_detail_text(s) =~= (detail_wait_lines(s) + ("\nCPU Time: "@ + int_decimal(s.cpu_time_ms) + " ms\nLogical Reads: "@ + int_decimal(s.logical_reads) + "\nPhysical Reads: "@ + int_decimal(s.physical_reads) + "\nWrites: "@ + int_decimal(s.writes))) + ("\nRow Count: "@ + int_decimal(s.row_count) + "\nOpen Trans: "@) + ((int_decimal(s.open_transaction_count) + "\nDOP: "@ + int_decimal(s.dop)) + detail_client_lines(s)));
    lemma_occurs_middle(detail_wait_lines(s) + ("\nCPU Time: "@ + int_decimal(s.cpu_time_ms) + " ms\nLogical Reads: "@ + int_decimal(s.logical_reads) + "\nPhysical Reads: "@ + int_decimal(s.physical_reads) + "\nWrites: "@ + int_decimal(s.writes)), "\nRow Count: "@ + int_decimal(s.row_count) + "\nOpen Trans: "@, (int_decimal(s.open_transaction_count) + "\nDOP: "@ + int_decimal(s.dop)) + detail_client_lines(s));
}

#[verifier::rlimit(40)]
proof fn lemma_session_detail_labels_14(s: SessionView)
    ensures
        contains(session_detail_text(s), "\nOpen Trans: "@ + int_decimal(s.open_transaction_count) + "\nDOP: "@),
{
    reveal(detail_io_lines);
    assert(session_detail_text(s) =~= (detail_wait_lines(s) + ("\nCPU Time: "@ + int_decimal(s.cpu_time_ms) + " ms\nLogical Reads: "@ + int_decimal(s.logical_reads) + "\nPhysical Reads: "@ + int_decimal(s.physical_reads) + "\nWrites: "@ + int_decimal(s.writes) + "\nRow Count: "@ + int_decimal(s.row_count))) + ("\nOpen Trans: "@ + int_decimal(s.open_transaction_count) + "\nDOP: "@) + ((int_decimal(s.dop)) + detail_client_lines(s)));
    lemma_occurs_middle(detail_wait_lines(s) + ("\nCPU Time: "@ + int_decimal(s.cpu_time_ms) + " ms\nLogical Reads: "@ + int_decimal(s.logical_reads) + "\nPhysical Reads: "@ + int_decimal(s.physical_reads) + "\nWrites: "@ + int_decimal(s.writes) + "\nRow Count: "@ + int_decimal(s.row_count)), "\nOpen Trans: "@ + int_decimal(s.open_transaction_count) + "\nDOP: "@, (int_decimal(s.dop)) + detail_client_lines(s));
}

#[verifier::rlimit(80)]
proof fn lemma_session_detail_labels_15(s: SessionView)
    ensures
        contains(session_detail_text(s), "\nDOP: "@ + int_decimal(s.dop) + "\nClient Address: "@),
{
    reveal(detail_io_lines);
    reveal(detail_client_lines);
    assert(session_detail_text(s) =~= (detail_wait_lines(s) + ("\nCPU Time: "@ + int_decimal(s.cpu_time_ms) + " ms\nLogical Reads: "@ + int_decimal(s.logical_reads) + "\nPhysical Reads: "@ + int_decimal(s.physical_reads) + "\nWrites: "@ + int_decimal(s.writes) + "\nRow Count: "@ + int_decimal(s.row_count) + "\nOpen Trans: "@ + int_decimal(s.open_transaction_count))) + ("\nDOP: "@ + int_decimal(s.dop) + "\nClient Address: "@) + ((s.client_net_address + "\nLogin Name: "@ + s.login_name + "\nDB Name: "@ + s.database_name + "\nCommand: "@ + s.command + "\nStart Time: "@ + s.start_time + "\n\n--- Executing SQL ---\n"@ + trim(s.executing_sql) + "\n\n--- Parent Batch SQL ---\n"@ + trim(s.parent_batch_sql))));
    lemma_occurs_middle(detail_wait_lines(s) + ("\nCPU Time: "@ + int_decimal(s.cpu_time_ms) + " ms\nLogical Reads: "@ + int_decimal(s.logical_reads) + "\nPhysical Reads: "@ + int_decimal(s.physical_reads) + "\nWrites: "@ + int_decimal(s.writes) + "\nRow Count: "@ + int_decimal(s.row_count) + "\nOpen Trans: "@ + int_decimal(s.open_transaction_count)), "\nDOP: "@ + int_decimal(s.dop) + "\nClient Address: "@, (s.client_net_address + "\nLogin Name: "@ + s.login_name + "\nDB Name: "@ + s.database_name + "\nCommand: "@ + s.command + "\nStart Time: "@ + s.start_time + "\n\n--- Executing SQL ---\n"@ + trim(s.executing_sql) + "\n\n--- Parent Batch SQL ---\n"@ + trim(s.parent_batch_sql)));
}

#[verifier::rlimit(40)]
proof fn lemma_session_detail_labels_16(s: SessionView)
    ensures
        contains(session_detail_text(s), "\nClient Address: "@ + s.client_net_address + "\nLogin Name: "@),
{
    reveal(detail_client_lines);
    assert(session_detail_text(s) =~= (detail_wait_lines(s) + detail_io_lines(s)) + ("\nClient Address: "@ + s.client_net_address + "\nLogin Name: "@) + ((s.login_name + "\nDB Name: "@ + s.database_name + "\nCommand: "@ + s.command + "\nStart Time: "@ + s.start_time + "\n\n--- Executing SQL ---\n"@ + trim(s.executing_sql) + "\n\n--- Parent Batch SQL ---\n"@ + trim(s.parent_batch_sql))));
    lemma_occurs_middle(detail_wait_lines(s) + detail_io_lines(s), "\nClient Address: "@ + s.client_net_address + "\nLogin Name: "@, (s.login_name + "\nDB Name: "@ + s.database_name + "\nCommand: "@ + s.command + "\nStart Time: "@ + s.start_time + "\n\n--- Executing SQL ---\n"@ + trim(s.executing_sql) + "\n\n--- Parent Batch SQL ---\n"@ + trim(s.parent_batch_sql)));
}

#[verifier::rlimit(40)]
proof fn lemma_session_detail_labels_17(s: SessionView)
    ensures
        contains(session_detail_text(s), "\nLogin Name: "@ + s.login_name + "\nDB Name: "@),
{
    reveal(detail_client_lines);
    assert(session_detail_text(s) =~= (detail_wait_lines(s) + detail_io_lines(s) + ("\nClient Address: "@ + s.client_net_address)) + ("\nLogin Name: "@ + s.login_name + "\nDB Name: "@) + ((s.database_name + "\nCommand: "@ + s.command + "\nStart Time: "@ + s.start_time + "\n\n--- Executing SQL ---\n"@ + trim(s.executing_sql) + "\n\n--- Parent Batch SQL ---\n"@ + trim(s.parent_batch_sql))));
    lemma_occurs_middle(detail_wait_lines(s) + detail_io_lines(s) + ("\nClient Address: "@ + s.client_net_address), "\nLogin Name: "@ + s.login_name + "\nDB Name: "@, (s.database_name + "\nCommand: "@ + s.command + "\nStart Time: "@ + s.start_time + "\n\n--- Executing SQL ---\n"@ + trim(s.executing_sql) + "\n\n--- Parent Batch SQL ---\n"@ + trim(s.parent_batch_sql)));
}

#[verifier::rlimit(40)]
proof fn lemma_session_detail_labels_18(s: SessionView)
    ensures
        contains(session_detail_text(s), "\nDB Name: "@ + s.database_name + "\nCommand: "@),
{
    reveal(detail_client_lines);
    assert(session_detail_text(s) =~= (detail_wait_lines(s) + detail_io_lines(s) + ("\nClient Address: "@ + s.client_net_address + "\nLogin Name: "@ + s.login_name)) + ("\nDB Name: "@ + s.database_name + "\nCommand: "@) + ((s.command + "\nStart Time: "@ + s.start_time + "\n\n--- Executing SQL ---\n"@ + trim(s.executing_sql) + "\n\n--- Parent Batch SQL ---\n"@ + trim(s.parent_batch_sql))));
    lemma_occurs_middle(detail_wait_lines(s) + detail_io_lines(s) + ("\nClient Address: "@ + s.client_net_address + "\nLogin Name: "@ + s.login_name), "\nDB Name: "@ + s.database_name + "\nCommand: "@, (s.command + "\nStart Time: "@ + s.start_time + "\n\n--- Executing SQL ---\n"@ + trim(s.executing_sql) + "\n\n--- Parent Batch SQL ---\n"@ + trim(s.parent_batch_sql)));
}

#[verifier::rlimit(40)]
proof fn lemma_session_detail_labels_19(s: SessionView)
    ensures
        contains(session_detail_text(s), "\nCommand: "@ + s.command + "\nStart Time: "@),
{
    reveal(detail_client_lines);
    assert(session_detail_text(s) =~= (detail_wait_lines(s) + detail_io_lines(s) + ("\nClient Address: "@ + s.client_net_address + "\nLogin Name: "@ + s.login_name + "\nDB Name: "@ + s.database_name)) + ("\nCommand: "@ + s.command + "\nStart Time: "@) + ((s.start_time + "\n\n--- Executing SQL ---\n"@ + trim(s.executing_sql) + "\n\n--- Parent Batch SQL ---\n"@ + trim(s.parent_batch_sql))));
    lemma_occurs_middle(detail_wait_lines(s) + detail_io_lines(s) + ("\nClient Address: "@ + s.client_net_address + "\nLogin Name: "@ + s.login_name + "\nDB Name: "@ + s.database_name), "\nCommand: "@ + s.command + "\nStart Time: "@, (s.start_time + "\n\n--- Executing SQL ---\n"@ + trim(s.executing_sql) + "\n\n--- Parent Batch SQL ---\n"@ + trim(s.parent_batch_sql)));
}

#[verifier::rlimit(40)]
proof fn lemma_session_detail_labels_20(s: SessionView)
    ensures
        contains(session_detail_text(s), "\nStart Time: "@ + s.start_time + "\n\n--- Executing SQL ---\n"@),
{
    reveal(detail_client_lines);
    assert(session_detail_text(s) =~= (detail_wait_lines(s) + detail_io_lines(s) + ("\nClient Address: "@ + s.client_net_address + "\nLogin Name: "@ + s.login_name + "\nDB Name: "@ + s.database_name + "\nCommand: "@ + s.command)) + ("\nStart Time: "@ + s.start_time + "\n\n--- Executing SQL ---\n"@) + ((trim(s.executing_sql) + "\n\n--- Parent Batch SQL ---\n"@ + trim(s.parent_batch_sql))));
    lemma_occurs_middle(detail_wait_lines(s) + detail_io_lines(s) + ("\nClient Address: "@ + s.client_net_address + "\nLogin Name: "@ + s.login_name + "\nDB Name: "@ + s.database_name + "\nCommand: "@ + s.command), "\nStart Time: "@ + s.start_time + "\n\n--- Executing SQL ---\n"@, (trim(s.executing_sql) + "\n\n--- Parent Batch SQL ---\n"@ + trim(s.parent_batch_sql)));
}

#[verifier::rlimit(40)]
proof fn lemma_session_detail_labels_21(s: SessionView)
    ensures
        contains(session_detail_text(s), "\n\n--- Executing SQL ---\n"@ + trim(s.executing_sql) + "\n\n--- Parent Batch SQL ---\n"@),
{
    reveal(detail_client_lines);
    assert(session_detail_text(s) =~= (detail_wait_lines(s) + detail_io_lines(s) + ("\nClient Address: "@ + s.client_net_address + "\nLogin Name: "@ + s.login_name + "\nDB Name: "@ + s.database_name + "\nCommand: "@ + s.command + "\nStart Time: "@ + s.start_time)) + ("\n\n--- Executing SQL ---\n"@ + trim(s.executing_sql) + "\n\n--- Parent Batch SQL ---\n"@) + ((trim(s.parent_batch_sql))));
    lemma_occurs_middle(detail_wait_lines(s) + detail_io_lines(s) + ("\nClient Address: "@ + s.client_net_address + "\nLogin Name: "@ + s.login_name + "\nDB Name: "@ + s.database_name + "\nCommand: "@ + s.command + "\nStart Time: "@ + s.start_time), "\n\n--- Executing SQL ---\n"@ + trim(s.executing_sql) + "\n\n--- Parent Batch SQL ---\n"@, (trim(s.parent_batch_sql)));
}

#[verifier::rlimit(40)]
proof fn lemma_session_detail_labels_22(s: SessionView)
    ensures
        occurs_at(session_detail_text(s), "\n\n--- Parent Batch SQL ---\n"@ + trim(s.parent_batch_sql), session_detail_text(s).len() - ("\n\n--- Parent Batch SQL ---\n"@ + trim(s.parent_batch_sql)).len()),
{
    reveal(detail_client_lines);
    assert(session_detail_text(s) =~= (detail_wait_lines(s) + detail_io_lines(s) + ("\nClient Address: "@ + s.client_net_address + "\nLogin Name: "@ + s.login_name + "\nDB Name: "@ + s.database_name + "\nCommand: "@ + s.command + "\nStart Time: "@ + s.start_time + "\n\n--- Executing SQL ---\n"@ + trim(s.executing_sql))) + ("\n\n--- Parent Batch SQL ---\n"@ + trim(s.parent_batch_sql)) + (Seq::<char>::empty()));
    lemma_occurs_middle(detail_wait_lines(s) + detail_io_lines(s) + ("\nClient Address: "@ + s.client_net_address + "\nLogin Name: "@ + s.login_name + "\nDB Name: "@ + s.database_name + "\nCommand: "@ + s.command + "\nStart Time: "@ + s.start_time + "\n\n--- Executing SQL ---\n"@ + trim(s.executing_sql)), "\n\n--- Parent Batch SQL ---\n"@ + trim(s.parent_batch_sql), Seq::<char>::empty());
}

#[verifier::rlimit(40)]
proof fn lemma_session_detail_labels_len(s: SessionView)
    ensures
        session_detail_text(s).len() == ("Capture Time: "@).len() + (s.capture_time).len() + ("\nSPID: "@).len() + (int_decimal(s.session_id)).len() + ("\nElapsed Time: "@).len() + (int_decimal(s.elapsed_time_ms)).len() + (" ms\nStatus: "@).len() + (s.status).len() + ("\nWait Type: "@).len() + (s.wait_type).len() + (" ("@).len() + (int_decimal(s.wait_time_ms)).len() + (" ms)\nLast Wait Type: "@).len() + (s.last_wait_type).len() + ("\nWait Resource: "@).len() + (s.wait_resource).len() + ("\nWait Session ID (Blocking): "@).len() + (int_decimal(s.wait_session_id)).len() + ("\nCPU Time: "@).len() + (int_decimal(s.cpu_time_ms)).len() + (" ms\nLogical Reads: "@).len() + (int_decimal(s.logical_reads)).len() + ("\nPhysical Reads: "@).len() + (int_decimal(s.physical_reads)).len() + ("\nWrites: "@).len() + (int_decimal(s.writes)).len() + ("\nRow Count: "@).len() + (int_decimal(s.row_count)).len() + ("\nOpen Trans: "@).len() + (int_decimal(s.open_transaction_count)).len() + ("\nDOP: "@).len() + (int_decimal(s.dop)).len() + ("\nClient Address: "@).len() + (s.client_net_address).len() + ("\nLogin Name: "@).len() + (s.login_name).len() + ("\nDB Name: "@).len() + (s.database_name).len() + ("\nCommand: "@).len() + (s.command).len() + ("\nStart Time: "@).len() + (s.start_time).len() + ("\n\n--- Executing SQL ---\n"@).len() + (trim(s.executing_sql)).len() + ("\n\n--- Parent Batch SQL ---\n"@).len() + (trim(s.parent_batch_sql)).len(),
{
    reveal(detail_wait_lines);
    reveal(detail_io_lines);
    reveal(detail_client_lines);
}

/// A request's detail text `t` gives each field of `s` after its label: the
/// capture time first, each labelled value followed by the next label, the
/// batch statement last, and nothing more than the labels and the fields.
pub open spec fn session_detail_labels(s: SessionView, t: Seq<char>) -> bool {
    &&& occurs_at(t, "Capture Time: "@ + s.capture_time + "\nSPID: "@, 0)
    &&& contains(t, "\nSPID: "@ + int_decimal(s.session_id) + "\nElapsed Time: "@)
    &&& contains(t, "\nElapsed Time: "@ + int_decimal(s.elapsed_time_ms) + " ms\nStatus: "@)
    &&& contains(t, " ms\nStatus: "@ + s.status + "\nWait Type: "@)
    &&& contains(t, "\nWait Type: "@ + s.wait_type + " ("@)
    &&& contains(t, " ("@ + int_decimal(s.wait_time_ms) + " ms)\nLast Wait Type: "@)
    &&& contains(t, " ms)\nLast Wait Type: "@ + s.last_wait_type + "\nWait Resource: "@)
    &&& contains(t, "\nWait Resource: "@ + s.wait_resource + "\nWait Session ID (Blocking): "@)
    &&& contains(t, "\nWait Session ID (Blocking): "@ + int_decimal(s.wait_session_id) + "\nCPU Time: "@)
    &&& contains(t, "\nCPU Time: "@ + int_decimal(s.cpu_time_ms) + " ms\nLogical Reads: "@)
    &&& contains(t, " ms\nLogical Reads: "@ + int_decimal(s.logical_reads) + "\nPhysical Reads: "@)
    &&& contains(t, "\nPhysical Reads: "@ + int_decimal(s.physical_reads) + "\nWrites: "@)
    &&& contains(t, "\nWrites: "@ + int_decimal(s.writes) + "\nRow Count: "@)
    &&& contains(t, "\nRow Count: "@ + int_decimal(s.row_count) + "\nOpen Trans: "@)
    &&& contains(t, "\nOpen Trans: "@ + int_decimal(s.open_transaction_count) + "\nDOP: "@)
    &&& contains(t, "\nDOP: "@ + int_decimal(s.dop) + "\nClient Address: "@)
    &&& contains(t, "\nClient Address: "@ + s.client_net_address + "\nLogin Name: "@)
    &&& contains(t, "\nLogin Name: "@ + s.login_name + "\nDB Name: "@)
    &&& contains(t, "\nDB Name: "@ + s.database_name + "\nCommand: "@)
    &&& contains(t, "\nCommand: "@ + s.command + "\nStart Time: "@)
    &&& contains(t, "\nStart Time: "@ + s.start_time + "\n\n--- Executing SQL ---\n"@)
    &&& contains(t, "\n\n--- Executing SQL ---\n"@ + trim(s.executing_sql) + "\n\n--- Parent Batch SQL ---\n"@)
    &&& occurs_at(t, "\n\n--- Parent Batch SQL ---\n"@ + trim(s.parent_batch_sql), t.len() - ("\n\n--- Parent Batch SQL ---\n"@ + trim(s.parent_batch_sql)).len())
    &&& t.len() == ("Capture Time: "@).len() + (s.capture_time).len() + ("\nSPID: "@).len() + (int_decimal(s.session_id)).len() + ("\nElapsed Time: "@).len() + (int_decimal(s.elapsed_time_ms)).len() + (" ms\nStatus: "@).len() + (s.status).len() + ("\nWait Type: "@).len() + (s.wait_type).len() + (" ("@).len() + (int_decimal(s.wait_time_ms)).len() + (" ms)\nLast Wait Type: "@).len() + (s.last_wait_type).len() + ("\nWait Resource: "@).len() + (s.wait_resource).len() + ("\nWait Session ID (Blocking): "@).len() + (int_decimal(s.wait_session_id)).len() + ("\nCPU Time: "@).len() + (int_decimal(s.cpu_time_ms)).len() + (" ms\nLogical Reads: "@).len() + (int_decimal(s.logical_reads)).len() + ("\nPhysical Reads: "@).len() + (int_decimal(s.physical_reads)).len() + ("\nWrites: "@).len() + (int_decimal(s.writes)).len() + ("\nRow Count: "@).len() + (int_decimal(s.row_count)).len() + ("\nOpen Trans: "@).len() + (int_decimal(s.open_transaction_count)).len() + ("\nDOP: "@).len() + (int_decimal(s.dop)).len() + ("\nClient Address: "@).len() + (s.client_net_address).len() + ("\nLogin Name: "@).len() + (s.login_name).len() + ("\nDB Name: "@).len() + (s.database_name).len() + ("\nCommand: "@).len() + (s.command).len() + ("\nStart Time: "@).len() + (s.start_time).len() + ("\n\n--- Executing SQL ---\n"@).len() + (trim(s.executing_sql)).len() + ("\n\n--- Parent Batch SQL ---\n"@).len() + (trim(s.parent_batch_sql)).len()
}

/// The monitor's detail text of a request: each label is followed by the value
/// of the field it names (numbers in decimal), in order, and nothing else.
pub proof fn law_session_detail_labels(s: SessionView)
    ensures
        session_detail_labels(s, session_detail_text(s)),
{
    lemma_session_detail_labels_0(s);
    lemma_session_detail_labels_1(s);
    lemma_session_detail_labels_2(s);
    lemma_session_detail_labels_3(s);
    lemma_session_detail_labels_4(s);
    lemma_session_detail_labels_5(s);
    lemma_session_detail_labels_6(s);
    lemma_session_detail_labels_7(s);
    lemma_session_detail_labels_8(s);
    lemma_session_detail_labels_9(s);
    lemma_session_detail_labels_10(s);
    lemma_session_detail_labels_11(s);
    lemma_session_detail_labels_12(s);
    lemma_session_detail_labels_13(s);
    lemma_session_detail_labels_14(s);
    lemma_session_detail_labels_15(s);
    lemma_session_detail_labels_16(s);
    lemma_session_detail_labels_17(s);
    lemma_session_detail_labels_18(s);
    lemma_session_detail_labels_19(s);
    lemma_session_detail_labels_20(s);
    lemma_session_detail_labels_21(s);
    lemma_session_detail_labels_22(s);
    lemma_session_detail_labels_len(s);
}

#[verifier::rlimit(40)]
proof fn lemma_snap_detail_labels_0(s: SessionSnapView)
    ensures
        occurs_at(snap_detail_text(s), "SPID: "@ + s.spid + "\nElapsed Time: "@, 0),
{
    reveal(snap_detail_head);
    assert(snap_detail_text(s) =~= (Seq::<char>::empty()) + ("SPID: "@ + s.spid + "\nElapsed Time: "@) + ((s.elapsed + " ms\nStatus: "@ + s.status + "\nWait Type: "@ + s.wait_type + " ("@ + s.wait_time_ms + " ms)\nLast Wait Type: "@ + s.last_wait_type + "\nWait Resource: "@ + s.wait_resource + "\nWait Session ID (Blocking): "@ + s.blocking_spid) + snap_detail_io(s) + snap_detail_tail(s)));
    lemma_occurs_middle(Seq::<char>::empty(), "SPID: "@ + s.spid + "\nElapsed Time: "@, (s.elapsed + " ms\nStatus: "@ + s.status + "\nWait Type: "@ + s.wait_type + " ("@ + s.wait_time_ms + " ms)\nLast Wait Type: "@ + s.last_wait_type + "\nWait Resource: "@ + s.wait_resource + "\nWait Session ID (Blocking): "@ + s.blocking_spid) + snap_detail_io(s) + snap_detail_tail(s));
}

#[verifier::rlimit(40)]
proof fn lemma_snap_detail_labels_1(s: SessionSnapView)
    ensures
        contains(snap_detail_text(s), "\nElapsed Time: "@ + s.elapsed + " ms\nStatus: "@),
{
    reveal(snap_detail_head);
    assert(snap_detail_text(s) =~= (("SPID: "@ + s.spid)) + ("\nElapsed Time: "@ + s.elapsed + " ms\nStatus: "@) + ((s.status + "\nWait Type: "@ + s.wait_type + " ("@ + s.wait_time_ms + " ms)\nLast Wait Type: "@ + s.last_wait_type + "\nWait Resource: "@ + s.wait_resource + "\nWait Session ID (Blocking): "@ + s.blocking_spid) + snap_detail_io(s) + snap_detail_tail(s)));
    lemma_occurs_middle(("SPID: "@ + s.spid), "\nElapsed Time: "@ + s.elapsed + " ms\nStatus: "@, (s.status + "\nWait Type: "@ + s.wait_type + " ("@ + s.wait_time_ms + " ms)\nLast Wait Type: "@ + s.last_wait_type + "\nWait Resource: "@ + s.wait_resource + "\nWait Session ID (Blocking): "@ + s.blocking_spid) + snap_detail_io(s) + snap_detail_tail(s));
}

#[verifier::rlimit(40)]
proof fn lemma_snap_detail_labels_2(s: SessionSnapView)
    ensures
        contains(snap_detail_text(s), " ms\nStatus: "@ + s.status + "\nWait Type: "@),
{
    reveal(snap_detail_head);
    assert(snap_detail_text(s) =~= (("SPID: "@ + s.spid + "\nElapsed Time: "@ + s.elapsed)) + (" ms\nStatus: "@ + s.status + "\nWait Type: "@) + ((s.wait_type + " ("@ + s.wait_time_ms + " ms)\nLast Wait Type: "@ + s.last_wait_type + "\nWait Resource: "@ + s.wait_resource + "\nWait Session ID (Blocking): "@ + s.blocking_spid) + snap_detail_io(s) + snap_detail_tail(s)));
    lemma_occurs_middle(("SPID: "@ + s.spid + "\nElapsed Time: "@ + s.elapsed), " ms\nStatus: "@ + s.status + "\nWait Type: "@, (s.wait_type + " ("@ + s.wait_time_ms + " ms)\nLast Wait Type: "@ + s.last_wait_type + "\nWait Resource: "@ + s.wait_resource + "\nWait Session ID (Blocking): "@ + s.blocking_spid) + snap_detail_io(s) + snap_detail_tail(s));
}

#[verifier::rlimit(40)]
proof fn lemma_snap_detail_labels_3(s: SessionSnapView)
    ensures
        contains(snap_detail_text(s), "\nWait Type: "@ + s.wait_type + " ("@),
{
    reveal(snap_detail_head);
    assert(snap_detail_text(s) =~= (("SPID: "@ + s.spid + "\nElapsed Time: "@ + s.elapsed + " ms\nStatus: "@ + s.status)) + ("\nWait Type: "@ + s.wait_type + " ("@) + ((s.wait_time_ms + " ms)\nLast Wait Type: "@ + s.last_wait_type + "\nWait Resource: "@ + s.wait_resource + "\nWait Session ID (Blocking): "@ + s.blocking_spid) + snap_detail_io(s) + snap_detail_tail(s)));
    lemma_occurs_middle(("SPID: "@ + s.spid + "\nElapsed Time: "@ + s.elapsed + " ms\nStatus: "@ + s.status), "\nWait Type: "@ + s.wait_type + " ("@, (s.wait_time_ms + " ms)\nLast Wait Type: "@ + s.last_wait_type + "\nWait Resource: "@ + s.wait_resource + "\nWait Session ID (Blocking): "@ + s.blocking_spid) + snap_detail_io(s) + snap_detail_tail(s));
}

#[verifier::rlimit(40)]
proof fn lemma_snap_detail_labels_4(s: SessionSnapView)
    ensures
        contains(snap_detail_text(s), " ("@ + s.wait_time_ms + " ms)\nLast Wait Type: "@),
{
    reveal(snap_detail_head);
    assert(snap_detail_text(s) =~= (("SPID: "@ + s.spid + "\nElapsed Time: "@ + s.elapsed + " ms\nStatus: "@ + s.status + "\nWait Type: "@ + s.wait_type)) + (" ("@ + s.wait_time_ms + " ms)\nLast Wait Type: "@) + ((s.last_wait_type + "\nWait Resource: "@ + s.wait_resource + "\nWait Session ID (Blocking): "@ + s.blocking_spid) + snap_detail_io(s) + snap_detail_tail(s)));
    lemma_occurs_middle(("SPID: "@ + s.spid + "\nElapsed Time: "@ + s.elapsed + " ms\nStatus: "@ + s.status + "\nWait Type: "@ + s.wait_type), " ("@ + s.wait_time_ms + " ms)\nLast Wait Type: "@, (s.last_wait_type + "\nWait Resource: "@ + s.wait_resource + "\nWait Session ID (Blocking): "@ + s.blocking_spid) + snap_detail_io(s) + snap_detail_tail(s));
}

#[verifier::rlimit(40)]
proof fn lemma_snap_detail_labels_5(s: SessionSnapView)
    ensures
        contains(snap_detail_text(s), " ms)\nLast Wait Type: "@ + s.last_wait_type + "\nWait Resource: "@),
{
    reveal(snap_detail_head);
    assert(snap_detail_text(s) =~= (("SPID: "@ + s.spid + "\nElapsed Time: "@ + s.elapsed + " ms\nStatus: "@ + s.status + "\nWait Type: "@ + s.wait_type + " ("@ + s.wait_time_ms)) + (" ms)\nLast Wait Type: "@ + s.last_wait_type + "\nWait Resource: "@) + ((s.wait_resource + "\nWait Session ID (Blocking): "@ + s.blocking_spid) + snap_detail_io(s) + snap_detail_tail(s)));
    lemma_occurs_middle(("SPID: "@ + s.spid + "\nElapsed Time: "@ + s.elapsed + " ms\nStatus: "@ + s.status + "\nWait Type: "@ + s.wait_type + " ("@ + s.wait_time_ms), " ms)\nLast Wait Type: "@ + s.last_wait_type + "\nWait Resource: "@, (s.wait_resource + "\nWait Session ID (Blocking): "@ + s.blocking_spid) + snap_detail_io(s) + snap_detail_tail(s));
}

#[verifier::rlimit(40)]
proof fn lemma_snap_detail_labels_6(s: SessionSnapView)
    ensures
        contains(snap_detail_text(s), "\nWait Resource: "@ + s.wait_resource + "\nWait Session ID (Blocking): "@),
{
    reveal(snap_detail_head);
    assert(snap_detail_text(s) =~= (("SPID: "@ + s.spid + "\nElapsed Time: "@ + s.elapsed + " ms\nStatus: "@ + s.status + "\nWait Type: "@ + s.wait_type + " ("@ + s.wait_time_ms + " ms)\nLast Wait Type: "@ + s.last_wait_type)) + ("\nWait Resource: "@ + s.wait_resource + "\nWait Session ID (Blocking): "@) + ((s.blocking_spid) + snap_detail_io(s) + snap_detail_tail(s)));
    lemma_occurs_middle(("SPID: "@ + s.spid + "\nElapsed Time: "@ + s.elapsed + " ms\nStatus: "@ + s.status + "\nWait Type: "@ + s.wait_type + " ("@ + s.wait_time_ms + " ms)\nLast Wait Type: "@ + s.last_wait_type), "\nWait Resource: "@ + s.wait_resource + "\nWait Session ID (Blocking): "@, (s.blocking_spid) + snap_detail_io(s) + snap_detail_tail(s));
}

#[verifier::rlimit(80)]
proof fn lemma_snap_detail_labels_7(s: SessionSnapView)
    ensures
        contains(snap_detail_text(s), "\nWait Session ID (Blocking): "@ + s.blocking_spid + "\nCPU Time: "@),
{
    reveal(snap_detail_head);
    reveal(snap_detail_io);
    assert(snap_detail_text(s) =~= (("SPID: "@ + s.spid + "\nElapsed Time: "@ + s.elapsed + " ms\nStatus: "@ + s.status + "\nWait Type: "@ + s.wait_type + " ("@ + s.wait_time_ms + " ms)\nLast Wait Type: "@ + s.last_wait_type + "\nWait Resource: "@ + s.wait_resource)) + ("\nWait Session ID (Blocking): "@ + s.blocking_spid + "\nCPU Time: "@) + ((s.cpu_time_ms + " ms\nLogical Reads: "@ + s.logical_reads + "\nPhysical Reads: "@ + s.physical_reads + "\nWrites: "@ + s.writes + "\nRow Count: "@ + s.row_count + "\nOpen Trans: "@ + s.open_trans + "\nDOP: "@ + s.dop) + snap_detail_tail(s)));
    lemma_occurs_middle(("SPID: "@ + s.spid + "\nElapsed Time: "@ + s.elapsed + " ms\nStatus: "@ + s.status + "\nWait Type: "@ + s.wait_type + " ("@ + s.wait_time_ms + " ms)\nLast Wait Type: "@ + s.last_wait_type + "\nWait Resource: "@ + s.wait_resource), "\nWait Session ID (Blocking): "@ + s.blocking_spid + "\nCPU Time: "@, (s.cpu_time_ms + " ms\nLogical Reads: "@ + s.logical_reads + "\nPhysical Reads: "@ + s.physical_reads + "\nWrites: "@ + s.writes + "\nRow Count: "@ + s.row_count + "\nOpen Trans: "@ + s.open_trans + "\nDOP: "@ + s.dop) + snap_detail_tail(s));
}

#[verifier::rlimit(40)]
proof fn lemma_snap_detail_labels_8(s: SessionSnapView)
    ensures
        contains(snap_detail_text(s), "\nCPU Time: "@ + s.cpu_time_ms + " ms\nLogical Reads: "@),
{
    reveal(snap_detail_io);
    assert(snap_detail_text(s) =~= (snap_detail_head(s)) + ("\nCPU Time: "@ + s.cpu_time_ms + " ms\nLogical Reads: "@) + ((s.logical_reads + "\nPhysical Reads: "@ + s.physical_reads + "\nWrites: "@ + s.writes + "\nRow Count: "@ + s.row_count + "\nOpen Trans: "@ + s.open_trans + "\nDOP: "@ + s.dop) + snap_detail_tail(s)));
    lemma_occurs_middle(snap_detail_head(s), "\nCPU Time: "@ + s.cpu_time_ms + " ms\nLogical Reads: "@, (s.logical_reads + "\nPhysical Reads: "@ + s.physical_reads + "\nWrites: "@ + s.writes + "\nRow Count: "@ + s.row_count + "\nOpen Trans: "@ + s.open_trans + "\nDOP: "@ + s.dop) + snap_detail_tail(s));
}

#[verifier::rlimit(40)]
proof fn lemma_snap_detail_labels_9(s: SessionSnapView)
    ensures
        contains(snap_detail_text(s), " ms\nLogical Reads: "@ + s.logical_reads + "\nPhysical Reads: "@),
{
    reveal(snap_detail_io);
    assert(snap_detail_text(s) =~= (snap_detail_head(s) + ("\nCPU Time: "@ + s.cpu_time_ms)) + (" ms\nLogical Reads: "@ + s.logical_reads + "\nPhysical Reads: "@) + ((s.physical_reads + "\nWrites: "@ + s.writes + "\nRow Count: "@ + s.row_count + "\nOpen Trans: "@ + s.open_trans + "\nDOP: "@ + s.dop) + snap_detail_tail(s)));
    lemma_occurs_middle(snap_detail_head(s) + ("\nCPU Time: "@ + s.cpu_time_ms), " ms\nLogical Reads: "@ + s.logical_reads + "\nPhysical Reads: "@, (s.physical_reads + "\nWrites: "@ + s.writes + "\nRow Count: "@ + s.row_count + "\nOpen Trans: "@ + s.open_trans + "\nDOP: "@ + s.dop) + snap_detail_tail(s));
}

#[verifier::rlimit(40)]
proof fn lemma_snap_detail_labels_10(s: SessionSnapView)
    ensures
        contains(snap_detail_text(s), "\nPhysical Reads: "@ + s.physical_reads + "\nWrites: "@),
{
    reveal(snap_detail_io);
    assert(snap_detail_text(s) =~= (snap_detail_head(s) + ("\nCPU Time: "@ + s.cpu_time_ms + " ms\nLogical Reads: "@ + s.logical_reads)) + ("\nPhysical Reads: "@ + s.physical_reads + "\nWrites: "@) + ((s.writes + "\nRow Count: "@ + s.row_count + "\nOpen Trans: "@ + s.open_trans + "\nDOP: "@ + s.dop) + snap_detail_tail(s)));
    lemma_occurs_middle(snap_detail_head(s) + ("\nCPU Time: "@ + s.cpu_time_ms + " ms\nLogical Reads: "@ + s.logical_reads), "\nPhysical Reads: "@ + s.physical_reads + "\nWrites: "@, (s.writes + "\nRow Count: "@ + s.row_count + "\nOpen Trans: "@ + s.open_trans + "\nDOP: "@ + s.dop) + snap_detail_tail(s));
}

#[verifier::rlimit(40)]
proof fn lemma_snap_detail_labels_11(s: SessionSnapView)
    ensures
        contains(snap_detail_text(s), "\nWrites: "@ + s.writes + "\nRow Count: "@),
{
    reveal(snap_detail_io);
    assert(snap_detail_text(s) =~= (snap_detail_head(s) + ("\nCPU Time: "@ + s.cpu_time_ms + " ms\nLogical Reads: "@ + s.logical_reads + "\nPhysical Reads: "@ + s.physical_reads)) + ("\nWrites: "@ + s.writes + "\nRow Count: "@) + ((s.row_count + "\nOpen Trans: "@ + s.open_trans + "\nDOP: "@ + s.dop) + snap_detail_tail(s)));
    lemma_occurs_middle(snap_detail_head(s) + ("\nCPU Time: "@ + s.cpu_time_ms + " ms\nLogical Reads: "@ + s.logical_reads + "\nPhysical Reads: "@ + s.physical_reads), "\nWrites: "@ + s.writes + "\nRow Count: "@, (s.row_count + "\nOpen Trans: "@ + s.open_trans + "\nDOP: "@ + s.dop) + snap_detail_tail(s));
}

#[verifier::rlimit(40)]
proof fn lemma_snap_detail_labels_12(s: SessionSnapView)
    ensures
        contains(snap_detail_text(s), "\nRow Count: "@ + s.row_count + "\nOpen Trans: "@),
{
    reveal(snap_detail_io);
    assert(snap_detail_text(s) =~= (snap_detail_head(s) + ("\nCPU Time: "@ + s.cpu_time_ms + " ms\nLogical Reads: "@ + s.logical_reads + "\nPhysical Reads: "@ + s.physical_reads + "\nWrites: "@ + s.writes)) + ("\nRow Count: "@ + s.row_count + "\nOpen Trans: "@) + ((s.open_trans + "\nDOP: "@ + s.dop) + snap_detail_tail(s)));
    lemma_occurs_middle(snap_detail_head(s) + ("\nCPU Time: "@ + s.cpu_time_ms + " ms\nLogical Reads: "@ + s.logical_reads + "\nPhysical Reads: "@ + s.physical_reads + "\nWrites: "@ + s.writes), "\nRow Count: "@ + s.row_count + "\nOpen Trans: "@, (s.open_trans + "\nDOP: "@ + s.dop) + snap_detail_tail(s));
}

#[verifier::rlimit(40)]
proof fn lemma_snap_detail_labels_13(s: SessionSnapView)
    ensures
        contains(snap_detail_text(s), "\nOpen Trans: "@ + s.open_trans + "\nDOP: "@),
{
    reveal(snap_detail_io);
    assert(snap_detail_text(s) =~= (snap_detail_head(s) + ("\nCPU Time: "@ + s.cpu_time_ms + " ms\nLogical Reads: "@ + s.logical_reads + "\nPhysical Reads: "@ + s.physical_reads + "\nWrites: "@ + s.writes + "\nRow Count: "@ + s.row_count)) + ("\nOpen Trans: "@ + s.open_trans + "\nDOP: "@) + ((s.dop) + snap_detail_tail(s)));
    lemma_occurs_middle(snap_detail_head(s) + ("\nCPU Time: "@ + s.cpu_time_ms + " ms\nLogical Reads: "@ + s.logical_reads + "\nPhysical Reads: "@ + s.physical_reads + "\nWrites: "@ + s.writes + "\nRow Count: "@ + s.row_count), "\nOpen Trans: "@ + s.open_trans + "\nDOP: "@, (s.dop) + snap_detail_tail(s));
}

#[verifier::rlimit(80)]
proof fn lemma_snap_detail_labels_14(s: SessionSnapView)
    ensures
        contains(snap_detail_text(s), "\nDOP: "@ + s.dop + "\nClient Address: "@),
{
    reveal(snap_detail_io);
    reveal(snap_detail_tail);
    assert(snap_detail_text(s) =~= (snap_detail_head(s) + ("\nCPU Time: "@ + s.cpu_time_ms + " ms\nLogical Reads: "@ + s.logical_reads + "\nPhysical Reads: "@ + s.physical_reads + "\nWrites: "@ + s.writes + "\nRow Count: "@ + s.row_count + "\nOpen Trans: "@ + s.open_trans)) + ("\nDOP: "@ + s.dop + "\nClient Address: "@) + ((s.client_address + "\nLogin Name: "@ + s.login_name + "\nDB Name: "@ + s.db_name + "\nCommand: "@ + s.command + "\nStart Time: "@ + s.start_time + "\n\n--- Executing SQL ---\n"@ + trim(s.executing_sql) + "\n\n--- Parent Batch SQL ---\n"@ + trim(s.parent_batch_sql))));
    lemma_occurs_middle(snap_detail_head(s) + ("\nCPU Time: "@ + s.cpu_time_ms + " ms\nLogical Reads: "@ + s.logical_reads + "\nPhysical Reads: "@ + s.physical_reads + "\nWrites: "@ + s.writes + "\nRow Count: "@ + s.row_count + "\nOpen Trans: "@ + s.open_trans), "\nDOP: "@ + s.dop + "\nClient Address: "@, (s.client_address + "\nLogin Name: "@ + s.login_name + "\nDB Name: "@ + s.db_name + "\nCommand: "@ + s.command + "\nStart Time: "@ + s.start_time + "\n\n--- Executing SQL ---\n"@ + trim(s.executing_sql) + "\n\n--- Parent Batch SQL ---\n"@ + trim(s.parent_batch_sql)));
}

#[verifier::rlimit(40)]
proof fn lemma_snap_detail_labels_15(s: SessionSnapView)
    ensures
        contains(snap_detail_text(s), "\nClient Address: "@ + s.client_address + "\nLogin Name: "@),
{
    reveal(snap_detail_tail);
    assert(snap_detail_text(s) =~= (snap_detail_head(s) + snap_detail_io(s)) + ("\nClient Address: "@ + s.client_address + "\nLogin Name: "@) + ((s.login_name + "\nDB Name: "@ + s.db_name + "\nCommand: "@ + s.command + "\nStart Time: "@ + s.start_time + "\n\n--- Executing SQL ---\n"@ + trim(s.executing_sql) + "\n\n--- Parent Batch SQL ---\n"@ + trim(s.parent_batch_sql))));
    lemma_occurs_middle(snap_detail_head(s) + snap_detail_io(s), "\nClient Address: "@ + s.client_address + "\nLogin Name: "@, (s.login_name + "\nDB Name: "@ + s.db_name + "\nCommand: "@ + s.command + "\nStart Time: "@ + s.start_time + "\n\n--- Executing SQL ---\n"@ + trim(s.executing_sql) + "\n\n--- Parent Batch SQL ---\n"@ + trim(s.parent_batch_sql)));
}

#[verifier::rlimit(40)]
proof fn lemma_snap_detail_labels_16(s: SessionSnapView)
    ensures
        contains(snap_detail_text(s), "\nLogin Name: "@ + s.login_name + "\nDB Name: "@),
{
    reveal(snap_detail_tail);
    assert(snap_detail_text(s) =~= (snap_detail_head(s) + snap_detail_io(s) + ("\nClient Address: "@ + s.client_address)) + ("\nLogin Name: "@ + s.login_name + "\nDB Name: "@) + ((s.db_name + "\nCommand: "@ + s.command + "\nStart Time: "@ + s.start_time + "\n\n--- Executing SQL ---\n"@ + trim(s.executing_sql) + "\n\n--- Parent Batch SQL ---\n"@ + trim(s.parent_batch_sql))));
    lemma_occurs_middle(snap_detail_head(s) + snap_detail_io(s) + ("\nClient Address: "@ + s.client_address), "\nLogin Name: "@ + s.login_name + "\nDB Name: "@, (s.db_name + "\nCommand: "@ + s.command + "\nStart Time: "@ + s.start_time + "\n\n--- Executing SQL ---\n"@ + trim(s.executing_sql) + "\n\n--- Parent Batch SQL ---\n"@ + trim(s.parent_batch_sql)));
}

#[verifier::rlimit(40)]
proof fn lemma_snap_detail_labels_17(s: SessionSnapView)
    ensures
        contains(snap_detail_text(s), "\nDB Name: "@ + s.db_name + "\nCommand: "@),
{
    reveal(snap_detail_tail);
    assert(snap_detail_text(s) =~= (snap_detail_head(s) + snap_detail_io(s) + ("\nClient Address: "@ + s.client_address + "\nLogin Name: "@ + s.login_name)) + ("\nDB Name: "@ + s.db_name + "\nCommand: "@) + ((s.command + "\nStart Time: "@ + s.start_time + "\n\n--- Executing SQL ---\n"@ + trim(s.executing_sql) + "\n\n--- Parent Batch SQL ---\n"@ + trim(s.parent_batch_sql))));
    lemma_occurs_middle(snap_detail_head(s) + snap_detail_io(s) + ("\nClient Address: "@ + s.client_address + "\nLogin Name: "@ + s.login_name), "\nDB Name: "@ + s.db_name + "\nCommand: "@, (s.command + "\nStart Time: "@ + s.start_time + "\n\n--- Executing SQL ---\n"@ + trim(s.executing_sql) + "\n\n--- Parent Batch SQL ---\n"@ + trim(s.parent_batch_sql)));
}

#[verifier::rlimit(40)]
proof fn lemma_snap_detail_labels_18(s: SessionSnapView)
    ensures
        contains(snap_detail_text(s), "\nCommand: "@ + s.command + "\nStart Time: "@),
{
    reveal(snap_detail_tail);
    assert(snap_detail_text(s) =~= (snap_detail_head(s) + snap_detail_io(s) + ("\nClient Address: "@ + s.client_address + "\nLogin Name: "@ + s.login_name + "\nDB Name: "@ + s.db_name)) + ("\nCommand: "@ + s.command + "\nStart Time: "@) + ((s.start_time + "\n\n--- Executing SQL ---\n"@ + trim(s.executing_sql) + "\n\n--- Parent Batch SQL ---\n"@ + trim(s.parent_batch_sql))));
    lemma_occurs_middle(snap_detail_head(s) + snap_detail_io(s) + ("\nClient Address: "@ + s.client_address + "\nLogin Name: "@ + s.login_name + "\nDB Name: "@ + s.db_name), "\nCommand: "@ + s.command + "\nStart Time: "@, (s.start_time + "\n\n--- Executing SQL ---\n"@ + trim(s.executing_sql) + "\n\n--- Parent Batch SQL ---\n"@ + trim(s.parent_batch_sql)));
}

#[verifier::rlimit(40)]
proof fn lemma_snap_detail_labels_19(s: SessionSnapView)
    ensures
        contains(snap_detail_text(s), "\nStart Time: "@ + s.start_time + "\n\n--- Executing SQL ---\n"@),
{
    reveal(snap_detail_tail);
    assert(snap_detail_text(s) =~= (snap_detail_head(s) + snap_detail_io(s) + ("\nClient Address: "@ + s.client_address + "\nLogin Name: "@ + s.login_name + "\nDB Name: "@ + s.db_name + "\nCommand: "@ + s.command)) + ("\nStart Time: "@ + s.start_time + "\n\n--- Executing SQL ---\n"@) + ((trim(s.executing_sql) + "\n\n--- Parent Batch SQL ---\n"@ + trim(s.parent_batch_sql))));
    lemma_occurs_middle(snap_detail_head(s) + snap_detail_io(s) + ("\nClient Address: "@ + s.client_address + "\nLogin Name: "@ + s.login_name + "\nDB Name: "@ + s.db_name + "\nCommand: "@ + s.command), "\nStart Time: "@ + s.start_time + "\n\n--- Executing SQL ---\n"@, (trim(s.executing_sql) + "\n\n--- Parent Batch SQL ---\n"@ + trim(s.parent_batch_sql)));
}

#[verifier::rlimit(40)]
proof fn lemma_snap_detail_labels_20(s: SessionSnapView)
    ensures
        contains(snap_detail_text(s), "\n\n--- Executing SQL ---\n"@ + trim(s.executing_sql) + "\n\n--- Parent Batch SQL ---\n"@),
{
    reveal(snap_detail_tail);
    assert(snap_detail_text(s) =~= (snap_detail_head(s) + snap_detail_io(s) + ("\nClient Address: "@ + s.client_address + "\nLogin Name: "@ + s.login_name + "\nDB Name: "@ + s.db_name + "\nCommand: "@ + s.command + "\nStart Time: "@ + s.start_time)) + ("\n\n--- Executing SQL ---\n"@ + trim(s.executing_sql) + "\n\n--- Parent Batch SQL ---\n"@) + ((trim(s.parent_batch_sql))));
    lemma_occurs_middle(snap_detail_head(s) + snap_detail_io(s) + ("\nClient Address: "@ + s.client_address + "\nLogin Name: "@ + s.login_name + "\nDB Name: "@ + s.db_name + "\nCommand: "@ + s.command + "\nStart Time: "@ + s.start_time), "\n\n--- Executing SQL ---\n"@ + trim(s.executing_sql) + "\n\n--- Parent Batch SQL ---\n"@, (trim(s.parent_batch_sql)));
}

#[verifier::rlimit(40)]
proof fn lemma_snap_detail_labels_21(s: SessionSnapView)
    ensures
        occurs_at(snap_detail_text(s), "\n\n--- Parent Batch SQL ---\n"@ + trim(s.parent_batch_sql), snap_detail_text(s).len() - ("\n\n--- Parent Batch SQL ---\n"@ + trim(s.parent_batch_sql)).len()),
{
    reveal(snap_detail_tail);
    assert(snap_detail_text(s) =~= (snap_detail_head(s) + snap_detail_io(s) + ("\nClient Address: "@ + s.client_address + "\nLogin Name: "@ + s.login_name + "\nDB Name: "@ + s.db_name + "\nCommand: "@ + s.command + "\nStart Time: "@ + s.start_time + "\n\n--- Executing SQL ---\n"@ + trim(s.executing_sql))) + ("\n\n--- Parent Batch SQL ---\n"@ + trim(s.parent_batch_sql)) + (Seq::<char>::empty()));
    lemma_occurs_middle(snap_detail_head(s) + snap_detail_io(s) + ("\nClient Address: "@ + s.client_address + "\nLogin Name: "@ + s.login_name + "\nDB Name: "@ + s.db_name + "\nCommand: "@ + s.command + "\nStart Time: "@ + s.start_time + "\n\n--- Executing SQL ---\n"@ + trim(s.executing_sql)), "\n\n--- Parent Batch SQL ---\n"@ + trim(s.parent_batch_sql), Seq::<char>::empty());
}

#[verifier::rlimit(40)]
proof fn lemma_snap_detail_labels_len(s: SessionSnapView)
    ensures
        snap_detail_text(s).len() == ("SPID: "@).len() + (s.spid).len() + ("\nElapsed Time: "@).len() + (s.elapsed).len() + (" ms\nStatus: "@).len() + (s.status).len() + ("\nWait Type: "@).len() + (s.wait_type).len() + (" ("@).len() + (s.wait_time_ms).len() + (" ms)\nLast Wait Type: "@).len() + (s.last_wait_type).len() + ("\nWait Resource: "@).len() + (s.wait_resource).len() + ("\nWait Session ID (Blocking): "@).len() + (s.blocking_spid).len() + ("\nCPU Time: "@).len() + (s.cpu_time_ms).len() + (" ms\nLogical Reads: "@).len() + (s.logical_reads).len() + ("\nPhysical Reads: "@).len() + (s.physical_reads).len() + ("\nWrites: "@).len() + (s.writes).len() + ("\nRow Count: "@).len() + (s.row_count).len() + ("\nOpen Trans: "@).len() + (s.open_trans).len() + ("\nDOP: "@).len() + (s.dop).len() + ("\nClient Address: "@).len() + (s.client_address).len() + ("\nLogin Name: "@).len() + (s.login_name).len() + ("\nDB Name: "@).len() + (s.db_name).len() + ("\nCommand: "@).len() + (s.command).len() + ("\nStart Time: "@).len() + (s.start_time).len() + ("\n\n--- Executing SQL ---\n"@).len() + (trim(s.executing_sql)).len() + ("\n\n--- Parent Batch SQL ---\n"@).len() + (trim(s.parent_batch_sql)).len(),
{
    reveal(snap_detail_head);
    reveal(snap_detail_io);
    reveal(snap_detail_tail);
}

/// A snapshot request's detail text `t` gives each field of `s` after its
/// label: the request id first, each labelled value followed by the next
/// label, the batch statement last, and nothing more.
pub open spec fn snap_detail_labels(s: SessionSnapView, t: Seq<char>) -> bool {
    &&& occurs_at(t, "SPID: "@ + s.spid + "\nElapsed Time: "@, 0)
    &&& contains(t, "\nElapsed Time: "@ + s.elapsed + " ms\nStatus: "@)
    &&& contains(t, " ms\nStatus: "@ + s.status + "\nWait Type: "@)
    &&& contains(t, "\nWait Type: "@ + s.wait_type + " ("@)
    &&& contains(t, " ("@ + s.wait_time_ms + " ms)\nLast Wait Type: "@)
    &&& contains(t, " ms)\nLast Wait Type: "@ + s.last_wait_type + "\nWait Resource: "@)
    &&& contains(t, "\nWait Resource: "@ + s.wait_resource + "\nWait Session ID (Blocking): "@)
    &&& contains(t, "\nWait Session ID (Blocking): "@ + s.blocking_spid + "\nCPU Time: "@)
    &&& contains(t, "\nCPU Time: "@ + s.cpu_time_ms + " ms\nLogical Reads: "@)
    &&& contains(t, " ms\nLogical Reads: "@ + s.logical_reads + "\nPhysical Reads: "@)
    &&& contains(t, "\nPhysical Reads: "@ + s.physical_reads + "\nWrites: "@)
    &&& contains(t, "\nWrites: "@ + s.writes + "\nRow Count: "@)
    &&& contains(t, "\nRow Count: "@ + s.row_count + "\nOpen Trans: "@)
    &&& contains(t, "\nOpen Trans: "@ + s.open_trans + "\nDOP: "@)
    &&& contains(t, "\nDOP: "@ + s.dop + "\nClient Address: "@)
    &&& contains(t, "\nClient Address: "@ + s.client_address + "\nLogin Name: "@)
    &&& contains(t, "\nLogin Name: "@ + s.login_name + "\nDB Name: "@)
    &&& contains(t, "\nDB Name: "@ + s.db_name + "\nCommand: "@)
    &&& contains(t, "\nCommand: "@ + s.command + "\nStart Time: "@)
    &&& contains(t, "\nStart Time: "@ + s.start_time + "\n\n--- Executing SQL ---\n"@)
    &&& contains(t, "\n\n--- Executing SQL ---\n"@ + trim(s.executing_sql) + "\n\n--- Parent Batch SQL ---\n"@)
    &&& occurs_at(t, "\n\n--- Parent Batch SQL ---\n"@ + trim(s.parent_batch_sql), t.len() - ("\n\n--- Parent Batch SQL ---\n"@ + trim(s.parent_batch_sql)).len())
    &&& t.len() == ("SPID: "@).len() + (s.spid).len() + ("\nElapsed Time: "@).len() + (s.elapsed).len() + (" ms\nStatus: "@).len() + (s.status).len() + ("\nWait Type: "@).len() + (s.wait_type).len() + (" ("@).len() + (s.wait_time_ms).len() + (" ms)\nLast Wait Type: "@).len() + (s.last_wait_type).len() + ("\nWait Resource: "@).len() + (s.wait_resource).len() + ("\nWait Session ID (Blocking): "@).len() + (s.blocking_spid).len() + ("\nCPU Time: "@).len() + (s.cpu_time_ms).len() + (" ms\nLogical Reads: "@).len() + (s.logical_reads).len() + ("\nPhysical Reads: "@).len() + (s.physical_reads).len() + ("\nWrites: "@).len() + (s.writes).len() + ("\nRow Count: "@).len() + (s.row_count).len() + ("\nOpen Trans: "@).len() + (s.open_trans).len() + ("\nDOP: "@).len() + (s.dop).len() + ("\nClient Address: "@).len() + (s.client_address).len() + ("\nLogin Name: "@).len() + (s.login_name).len() + ("\nDB Name: "@).len() + (s.db_name).len() + ("\nCommand: "@).len() + (s.command).len() + ("\nStart Time: "@).len() + (s.start_time).len() + ("\n\n--- Executing SQL ---\n"@).len() + (trim(s.executing_sql)).len() + ("\n\n--- Parent Batch SQL ---\n"@).len() + (trim(s.parent_batch_sql)).len()
}

/// The snapshot viewer's detail text of a request: each label is followed by
/// the field it names, in order, and nothing else.
pub proof fn law_snap_detail_labels(s: SessionSnapView)
    ensures
        snap_detail_labels(s, snap_detail_text(s)),
{
    lemma_snap_detail_labels_0(s);
    lemma_snap_detail_labels_1(s);
    lemma_snap_detail_labels_2(s);
    lemma_snap_detail_labels_3(s);
    lemma_snap_detail_labels_4(s);
    lemma_snap_detail_labels_5(s);
    lemma_snap_detail_labels_6(s);
    lemma_snap_detail_labels_7(s);
    lemma_snap_detail_labels_8(s);
    lemma_snap_detail_labels_9(s);
    lemma_snap_detail_labels_10(s);
    lemma_snap_detail_labels_11(s);
    lemma_snap_detail_labels_12(s);
    lemma_snap_detail_labels_13(s);
    lemma_snap_detail_labels_14(s);
    lemma_snap_detail_labels_15(s);
    lemma_snap_detail_labels_16(s);
    lemma_snap_detail_labels_17(s);
    lemma_snap_detail_labels_18(s);
    lemma_snap_detail_labels_19(s);
    lemma_snap_detail_labels_20(s);
    lemma_snap_detail_labels_21(s);
    lemma_snap_detail_labels_len(s);
}

#[verifier::rlimit(40)]
proof fn lemma_alert_detail_labels_0(s: SessionAlertView)
    ensures
        occurs_at(alert_detail_text(s), "Log Time: "@ + s.log_time + "\nServer: "@, 0),
{
    reveal(alert_detail_head);
    assert(alert_detail_text(s) =~= (Seq::<char>::empty()) + ("Log Time: "@ + s.log_time + "\nServer: "@) + ((s.server + "\nSPID: "@ + s.spid + "\nElapsed Time: "@ + s.elapsed + " ms\nStatus: "@ + s.status + "\nWait Type: "@ + s.wait_type + " ("@ + s.wait_time_ms + " ms)\nLast Wait Type: "@ + s.last_wait_type) + alert_detail_mid(s) + alert_detail_tail(s)));
    lemma_occurs_middle(Seq::<char>::empty(), "Log Time: "@ + s.log_time + "\nServer: "@, (s.server + "\nSPID: "@ + s.spid + "\nElapsed Time: "@ + s.elapsed + " ms\nStatus: "@ + s.status + "\nWait Type: "@ + s.wait_type + " ("@ + s.wait_time_ms + " ms)\nLast Wait Type: "@ + s.last_wait_type) + alert_detail_mid(s) + alert_detail_tail(s));
}

#[verifier::rlimit(40)]
proof fn lemma_alert_detail_labels_1(s: SessionAlertView)
    ensures
        contains(alert_detail_text(s), "\nServer: "@ + s.server + "\nSPID: "@),
{
    reveal(alert_detail_head);
    assert(alert_detail_text(s) =~= (("Log Time: "@ + s.log_time)) + ("\nServer: "@ + s.server + "\nSPID: "@) + ((s.spid + "\nElapsed Time: "@ + s.elapsed + " ms\nStatus: "@ + s.status + "\nWait Type: "@ + s.wait_type + " ("@ + s.wait_time_ms + " ms)\nLast Wait Type: "@ + s.last_wait_type) + alert_detail_mid(s) + alert_detail_tail(s)));
    lemma_occurs_middle(("Log Time: "@ + s.log_time), "\nServer: "@ + s.server + "\nSPID: "@, (s.spid + "\nElapsed Time: "@ + s.elapsed + " ms\nStatus: "@ + s.status + "\nWait Type: "@ + s.wait_type + " ("@ + s.wait_time_ms + " ms)\nLast Wait Type: "@ + s.last_wait_type) + alert_detail_mid(s) + alert_detail_tail(s));
}

#[verifier::rlimit(40)]
proof fn lemma_alert_detail_labels_2(s: SessionAlertView)
    ensures
        contains(alert_detail_text(s), "\nSPID: "@ + s.spid + "\nElapsed Time: "@),
{
    reveal(alert_detail_head);
    assert(alert_detail_text(s) =~= (("Log Time: "@ + s.log_time + "\nServer: "@ + s.server)) + ("\nSPID: "@ + s.spid + "\nElapsed Time: "@) + ((s.elapsed + " ms\nStatus: "@ + s.status + "\nWait Type: "@ + s.wait_type + " ("@ + s.wait_time_ms + " ms)\nLast Wait Type: "@ + s.last_wait_type) + alert_detail_mid(s) + alert_detail_tail(s)));
    lemma_occurs_middle(("Log Time: "@ + s.log_time + "\nServer: "@ + s.server), "\nSPID: "@ + s.spid + "\nElapsed Time: "@, (s.elapsed + " ms\nStatus: "@ + s.status + "\nWait Type: "@ + s.wait_type + " ("@ + s.wait_time_ms + " ms)\nLast Wait Type: "@ + s.last_wait_type) + alert_detail_mid(s) + alert_detail_tail(s));
}

#[verifier::rlimit(40)]
proof fn lemma_alert_detail_labels_3(s: SessionAlertView)
    ensures
        contains(alert_detail_text(s), "\nElapsed Time: "@ + s.elapsed + " ms\nStatus: "@),
{
    reveal(alert_detail_head);
    assert(alert_detail_text(s) =~= (("Log Time: "@ + s.log_time + "\nServer: "@ + s.server + "\nSPID: "@ + s.spid)) + ("\nElapsed Time: "@ + s.elapsed + " ms\nStatus: "@) + ((s.status + "\nWait Type: "@ + s.wait_type + " ("@ + s.wait_time_ms + " ms)\nLast Wait Type: "@ + s.last_wait_type) + alert_detail_mid(s) + alert_detail_tail(s)));
    lemma_occurs_middle(("Log Time: "@ + s.log_time + "\nServer: "@ + s.server + "\nSPID: "@ + s.spid), "\nElapsed Time: "@ + s.elapsed + " ms\nStatus: "@, (s.status + "\nWait Type: "@ + s.wait_type + " ("@ + s.wait_time_ms + " ms)\nLast Wait Type: "@ + s.last_wait_type) + alert_detail_mid(s) + alert_detail_tail(s));
}

#[verifier::rlimit(40)]
proof fn lemma_alert_detail_labels_4(s: SessionAlertView)
    ensures
        contains(alert_detail_text(s), " ms\nStatus: "@ + s.status + "\nWait Type: "@),
{
    reveal(alert_detail_head);
    assert(alert_detail_text(s) =~= (("Log Time: "@ + s.log_time + "\nServer: "@ + s.server + "\nSPID: "@ + s.spid + "\nElapsed Time: "@ + s.elapsed)) + (" ms\nStatus: "@ + s.status + "\nWait Type: "@) + ((s.wait_type + " ("@ + s.wait_time_ms + " ms)\nLast Wait Type: "@ + s.last_wait_type) + alert_detail_mid(s) + alert_detail_tail(s)));
    lemma_occurs_middle(("Log Time: "@ + s.log_time + "\nServer: "@ + s.server + "\nSPID: "@ + s.spid + "\nElapsed Time: "@ + s.elapsed), " ms\nStatus: "@ + s.status + "\nWait Type: "@, (s.wait_type + " ("@ + s.wait_time_ms + " ms)\nLast Wait Type: "@ + s.last_wait_type) + alert_detail_mid(s) + alert_detail_tail(s));
}

#[verifier::rlimit(40)]
proof fn lemma_alert_detail_labels_5(s: SessionAlertView)
    ensures
        contains(alert_detail_text(s), "\nWait Type: "@ + s.wait_type + " ("@),
{
    reveal(alert_detail_head);
    assert(alert_detail_text(s) =~= (("Log Time: "@ + s.log_time + "\nServer: "@ + s.server + "\nSPID: "@ + s.spid + "\nElapsed Time: "@ + s.elapsed + " ms\nStatus: "@ + s.status)) + ("\nWait Type: "@ + s.wait_type + " ("@) + ((s.wait_time_ms + " ms)\nLast Wait Type: "@ + s.last_wait_type) + alert_detail_mid(s) + alert_detail_tail(s)));
    lemma_occurs_middle(("Log Time: "@ + s.log_time + "\nServer: "@ + s.server + "\nSPID: "@ + s.spid + "\nElapsed Time: "@ + s.elapsed + " ms\nStatus: "@ + s.status), "\nWait Type: "@ + s.wait_type + " ("@, (s.wait_time_ms + " ms)\nLast Wait Type: "@ + s.last_wait_type) + alert_detail_mid(s) + alert_detail_tail(s));
}

#[verifier::rlimit(40)]
proof fn lemma_alert_detail_labels_6(s: SessionAlertView)
    ensures
        contains(alert_detail_text(s), " ("@ + s.wait_time_ms + " ms)\nLast Wait Type: "@),
{
    reveal(alert_detail_head);
    assert(alert_detail_text(s) =~= (("Log Time: "@ + s.log_time + "\nServer: "@ + s.server + "\nSPID: "@ + s.spid + "\nElapsed Time: "@ + s.elapsed + " ms\nStatus: "@ + s.status + "\nWait Type: "@ + s.wait_type)) + (" ("@ + s.wait_time_ms + " ms)\nLast Wait Type: "@) + ((s.last_wait_type) + alert_detail_mid(s) + alert_detail_tail(s)));
    lemma_occurs_middle(("Log Time: "@ + s.log_time + "\nServer: "@ + s.server + "\nSPID: "@ + s.spid + "\nElapsed Time: "@ + s.elapsed + " ms\nStatus: "@ + s.status + "\nWait Type: "@ + s.wait_type), " ("@ + s.wait_time_ms + " ms)\nLast Wait Type: "@, (s.last_wait_type) + alert_detail_mid(s) + alert_detail_tail(s));
}

#[verifier::rlimit(80)]
proof fn lemma_alert_detail_labels_7(s: SessionAlertView)
    ensures
        contains(alert_detail_text(s), " ms)\nLast Wait Type: "@ + s.last_wait_type + "\nWait Resource: "@),
{
    reveal(alert_detail_head);
    reveal(alert_detail_mid);
    assert(alert_detail_text(s) =~= (("Log Time: "@ + s.log_time + "\nServer: "@ + s.server + "\nSPID: "@ + s.spid + "\nElapsed Time: "@ + s.elapsed + " ms\nStatus: "@ + s.status + "\nWait Type: "@ + s.wait_type + " ("@ + s.wait_time_ms)) + (" ms)\nLast Wait Type: "@ + s.last_wait_type + "\nWait Resource: "@) + ((s.wait_resource + "\nWait Session ID (Blocking): "@ + s.blocking_spid + "\nCPU Time: "@ + s.cpu_time_ms + " ms\nLogical Reads: "@ + s.logical_reads + "\nPhysical Reads: "@ + s.physical_reads + "\nWrites: "@ + s.writes + "\nRow Count: "@ + s.row_count + "\nOpen Trans: "@ + s.open_trans + "\nDOP: "@ + s.dop) + alert_detail_tail(s)));
    lemma_occurs_middle(("Log Time: "@ + s.log_time + "\nServer: "@ + s.server + "\nSPID: "@ + s.spid + "\nElapsed Time: "@ + s.elapsed + " ms\nStatus: "@ + s.status + "\nWait Type: "@ + s.wait_type + " ("@ + s.wait_time_ms), " ms)\nLast Wait Type: "@ + s.last_wait_type + "\nWait Resource: "@, (s.wait_resource + "\nWait Session ID (Blocking): "@ + s.blocking_spid + "\nCPU Time: "@ + s.cpu_time_ms + " ms\nLogical Reads: "@ + s.logical_reads + "\nPhysical Reads: "@ + s.physical_reads + "\nWrites: "@ + s.writes + "\nRow Count: "@ + s.row_count + "\nOpen Trans: "@ + s.open_trans + "\nDOP: "@ + s.dop) + alert_detail_tail(s));
}

#[verifier::rlimit(40)]
proof fn lemma_alert_detail_labels_8(s: SessionAlertView)
    ensures
        contains(alert_detail_text(s), "\nWait Resource: "@ + s.wait_resource + "\nWait Session ID (Blocking): "@),
{
    reveal(alert_detail_mid);
    assert(alert_detail_text(s) =~= (alert_detail_head(s)) + ("\nWait Resource: "@ + s.wait_resource + "\nWait Session ID (Blocking): "@) + ((s.blocking_spid + "\nCPU Time: "@ + s.cpu_time_ms + " ms\nLogical Reads: "@ + s.logical_reads + "\nPhysical Reads: "@ + s.physical_reads + "\nWrites: "@ + s.writes + "\nRow Count: "@ + s.row_count + "\nOpen Trans: "@ + s.open_trans + "\nDOP: "@ + s.dop) + alert_detail_tail(s)));
    lemma_occurs_middle(alert_detail_head(s), "\nWait Resource: "@ + s.wait_resource + "\nWait Session ID (Blocking): "@, (s.blocking_spid + "\nCPU Time: "@ + s.cpu_time_ms + " ms\nLogical Reads: "@ + s.logical_reads + "\nPhysical Reads: "@ + s.physical_reads + "\nWrites: "@ + s.writes + "\nRow Count: "@ + s.row_count + "\nOpen Trans: "@ + s.open_trans + "\nDOP: "@ + s.dop) + alert_detail_tail(s));
}

#[verifier::rlimit(40)]
proof fn lemma_alert_detail_labels_9(s: SessionAlertView)
    ensures
        contains(alert_detail_text(s), "\nWait Session ID (Blocking): "@ + s.blocking_spid + "\nCPU Time: "@),
{
    reveal(alert_detail_mid);
    assert(alert_detail_text(s) =~= (alert_detail_head(s) + ("\nWait Resource: "@ + s.wait_resource)) + ("\nWait Session ID (Blocking): "@ + s.blocking_spid + "\nCPU Time: "@) + ((s.cpu_time_ms + " ms\nLogical Reads: "@ + s.logical_reads + "\nPhysical Reads: "@ + s.physical_reads + "\nWrites: "@ + s.writes + "\nRow Count: "@ + s.row_count + "\nOpen Trans: "@ + s.open_trans + "\nDOP: "@ + s.dop) + alert_detail_tail(s)));
    lemma_occurs_middle(alert_detail_head(s) + ("\nWait Resource: "@ + s.wait_resource), "\nWait Session ID (Blocking): "@ + s.blocking_spid + "\nCPU Time: "@, (s.cpu_time_ms + " ms\nLogical Reads: "@ + s.logical_reads + "\nPhysical Reads: "@ + s.physical_reads + "\nWrites: "@ + s.writes + "\nRow Count: "@ + s.row_count + "\nOpen Trans: "@ + s.open_trans + "\nDOP: "@ + s.dop) + alert_detail_tail(s));
}

#[verifier::rlimit(40)]
proof fn lemma_alert_detail_labels_10(s: SessionAlertView)
    ensures
        contains(alert_detail_text(s), "\nCPU Time: "@ + s.cpu_time_ms + " ms\nLogical Reads: "@),
{
    reveal(alert_detail_mid);
    assert(alert_detail_text(s) =~= (alert_detail_head(s) + ("\nWait Resource: "@ + s.wait_resource + "\nWait Session ID (Blocking): "@ + s.blocking_spid)) + ("\nCPU Time: "@ + s.cpu_time_ms + " ms\nLogical Reads: "@) + ((s.logical_reads + "\nPhysical Reads: "@ + s.physical_reads + "\nWrites: "@ + s.writes + "\nRow Count: "@ + s.row_count + "\nOpen Trans: "@ + s.open_trans + "\nDOP: "@ + s.dop) + alert_detail_tail(s)));
    lemma_occurs_middle(alert_detail_head(s) + ("\nWait Resource: "@ + s.wait_resource + "\nWait Session ID (Blocking): "@ + s.blocking_spid), "\nCPU Time: "@ + s.cpu_time_ms + " ms\nLogical Reads: "@, (s.logical_reads + "\nPhysical Reads: "@ + s.physical_reads + "\nWrites: "@ + s.writes + "\nRow Count: "@ + s.row_count + "\nOpen Trans: "@ + s.open_trans + "\nDOP: "@ + s.dop) + alert_detail_tail(s));
}

#[verifier::rlimit(40)]
proof fn lemma_alert_detail_labels_11(s: SessionAlertView)
    ensures
        contains(alert_detail_text(s), " ms\nLogical Reads: "@ + s.logical_reads + "\nPhysical Reads: "@),
{
    reveal(alert_detail_mid);
    assert(alert_detail_text(s) =~= (alert_detail_head(s) + ("\nWait Resource: "@ + s.wait_resource + "\nWait Session ID (Blocking): "@ + s.blocking_spid + "\nCPU Time: "@ + s.cpu_time_ms)) + (" ms\nLogical Reads: "@ + s.logical_reads + "\nPhysical Reads: "@) + ((s.physical_reads + "\nWrites: "@ + s.writes + "\nRow Count: "@ + s.row_count + "\nOpen Trans: "@ + s.open_trans + "\nDOP: "@ + s.dop) + alert_detail_tail(s)));
    lemma_occurs_middle(alert_detail_head(s) + ("\nWait Resource: "@ + s.wait_resource + "\nWait Session ID (Blocking): "@ + s.blocking_spid + "\nCPU Time: "@ + s.cpu_time_ms), " ms\nLogical Reads: "@ + s.logical_reads + "\nPhysical Reads: "@, (s.physical_reads + "\nWrites: "@ + s.writes + "\nRow Count: "@ + s.row_count + "\nOpen Trans: "@ + s.open_trans + "\nDOP: "@ + s.dop) + alert_detail_tail(s));
}

#[verifier::rlimit(40)]
proof fn lemma_alert_detail_labels_12(s: SessionAlertView)
    ensures
        contains(alert_detail_text(s), "\nPhysical Reads: "@ + s.physical_reads + "\nWrites: "@),
{
    reveal(alert_detail_mid);
    assert(alert_detail_text(s) =~= (alert_detail_head(s) + ("\nWait Resource: "@ + s.wait_resource + "\nWait Session ID (Blocking): "@ + s.blocking_spid + "\nCPU Time: "@ + s.cpu_time_ms + " ms\nLogical Reads: "@ + s.logical_reads)) + ("\nPhysical Reads: "@ + s.physical_reads + "\nWrites: "@) + ((s.writes + "\nRow Count: "@ + s.row_count + "\nOpen Trans: "@ + s.open_trans + "\nDOP: "@ + s.dop) + alert_detail_tail(s)));
    lemma_occurs_middle(alert_detail_head(s) + ("\nWait Resource: "@ + s.wait_resource + "\nWait Session ID (Blocking): "@ + s.blocking_spid + "\nCPU Time: "@ + s.cpu_time_ms + " ms\nLogical Reads: "@ + s.logical_reads), "\nPhysical Reads: "@ + s.physical_reads + "\nWrites: "@, (s.writes + "\nRow Count: "@ + s.row_count + "\nOpen Trans: "@ + s.open_trans + "\nDOP: "@ + s.dop) + alert_detail_tail(s));
}

#[verifier::rlimit(40)]
proof fn lemma_alert_detail_labels_13(s: SessionAlertView)
    ensures
        contains(alert_detail_text(s), "\nWrites: "@ + s.writes + "\nRow Count: "@),
{
    reveal(alert_detail_mid);
    assert(alert_detail_text(s) =~= (alert_detail_head(s) + ("\nWait Resource: "@ + s.wait_resource + "\nWait Session ID (Blocking): "@ + s.blocking_spid + "\nCPU Time: "@ + s.cpu_time_ms + " ms\nLogical Reads: "@ + s.logical_reads + "\nPhysical Reads: "@ + s.physical_reads)) + ("\nWrites: "@ + s.writes + "\nRow Count: "@) + ((s.row_count + "\nOpen Trans: "@ + s.open_trans + "\nDOP: "@ + s.dop) + alert_detail_tail(s)));
    lemma_occurs_middle(alert_detail_head(s) + ("\nWait Resource: "@ + s.wait_resource + "\nWait Session ID (Blocking): "@ + s.blocking_spid + "\nCPU Time: "@ + s.cpu_time_ms + " ms\nLogical Reads: "@ + s.logical_reads + "\nPhysical Reads: "@ + s.physical_reads), "\nWrites: "@ + s.writes + "\nRow Count: "@, (s.row_count + "\nOpen Trans: "@ + s.open_trans + "\nDOP: "@ + s.dop) + alert_detail_tail(s));
}

#[verifier::rlimit(40)]
proof fn lemma_alert_detail_labels_14(s: SessionAlertView)
    ensures
        contains(alert_detail_text(s), "\nRow Count: "@ + s.row_count + "\nOpen Trans: "@),
{
    reveal(alert_detail_mid);
    assert(alert_detail_text(s) =~= (alert_detail_head(s) + ("\nWait Resource: "@ + s.wait_resource + "\nWait Session ID (Blocking): "@ + s.blocking_spid + "\nCPU Time: "@ + s.cpu_time_ms + " ms\nLogical Reads: "@ + s.logical_reads + "\nPhysical Reads: "@ + s.physical_reads + "\nWrites: "@ + s.writes)) + ("\nRow Count: "@ + s.row_count + "\nOpen Trans: "@) + ((s.open_trans + "\nDOP: "@ + s.dop) + alert_detail_tail(s)));
    lemma_occurs_middle(alert_detail_head(s) + ("\nWait Resource: "@ + s.wait_resource + "\nWait Session ID (Blocking): "@ + s.blocking_spid + "\nCPU Time: "@ + s.cpu_time_ms + " ms\nLogical Reads: "@ + s.logical_reads + "\nPhysical Reads: "@ + s.physical_reads + "\nWrites: "@ + s.writes), "\nRow Count: "@ + s.row_count + "\nOpen Trans: "@, (s.open_trans + "\nDOP: "@ + s.dop) + alert_detail_tail(s));
}

#[verifier::rlimit(40)]
proof fn lemma_alert_detail_labels_15(s: SessionAlertView)
    ensures
        contains(alert_detail_text(s), "\nOpen Trans: "@ + s.open_trans + "\nDOP: "@),
{
    reveal(alert_detail_mid);
    assert(alert_detail_text(s) =~= (alert_detail_head(s) + ("\nWait Resource: "@ + s.wait_resource + "\nWait Session ID (Blocking): "@ + s.blocking_spid + "\nCPU Time: "@ + s.cpu_time_ms + " ms\nLogical Reads: "@ + s.logical_reads + "\nPhysical Reads: "@ + s.physical_reads + "\nWrites: "@ + s.writes + "\nRow Count: "@ + s.row_count)) + ("\nOpen Trans: "@ + s.open_trans + "\nDOP: "@) + ((s.dop) + alert_detail_tail(s)));
    lemma_occurs_middle(alert_detail_head(s) + ("\nWait Resource: "@ + s.wait_resource + "\nWait Session ID (Blocking): "@ + s.blocking_spid + "\nCPU Time: "@ + s.cpu_time_ms + " ms\nLogical Reads: "@ + s.logical_reads + "\nPhysical Reads: "@ + s.physical_reads + "\nWrites: "@ + s.writes + "\nRow Count: "@ + s.row_count), "\nOpen Trans: "@ + s.open_trans + "\nDOP: "@, (s.dop) + alert_detail_tail(s));
}

#[verifier::rlimit(80)]
proof fn lemma_alert_detail_labels_16(s: SessionAlertView)
    ensures
        contains(alert_detail_text(s), "\nDOP: "@ + s.dop + "\nClient Address: "@),
{
    reveal(alert_detail_mid);
    reveal(alert_detail_tail);
    assert(alert_detail_text(s) =~= (alert_detail_head(s) + ("\nWait Resource: "@ + s.wait_resource + "\nWait Session ID (Blocking): "@ + s.blocking_spid + "\nCPU Time: "@ + s.cpu_time_ms + " ms\nLogical Reads: "@ + s.logical_reads + "\nPhysical Reads: "@ + s.physical_reads + "\nWrites: "@ + s.writes + "\nRow Count: "@ + s.row_count + "\nOpen Trans: "@ + s.open_trans)) + ("\nDOP: "@ + s.dop + "\nClient Address: "@) + ((s.client_address + "\nLogin Name: "@ + s.login_name + "\nDB Name: "@ + s.db_name + "\nCommand: "@ + s.command + "\nStart Time: "@ + s.start_time + "\n\n--- Executing SQL ---\n"@ + trim(s.executing_sql) + "\n\n--- Parent Batch SQL ---\n"@ + trim(s.parent_batch_sql))));
    lemma_occurs_middle(alert_detail_head(s) + ("\nWait Resource: "@ + s.wait_resource + "\nWait Session ID (Blocking): "@ + s.blocking_spid + "\nCPU Time: "@ + s.cpu_time_ms + " ms\nLogical Reads: "@ + s.logical_reads + "\nPhysical Reads: "@ + s.physical_reads + "\nWrites: "@ + s.writes + "\nRow Count: "@ + s.row_count + "\nOpen Trans: "@ + s.open_trans), "\nDOP: "@ + s.dop + "\nClient Address: "@, (s.client_address + "\nLogin Name: "@ + s.login_name + "\nDB Name: "@ + s.db_name + "\nCommand: "@ + s.command + "\nStart Time: "@ + s.start_time + "\n\n--- Executing SQL ---\n"@ + trim(s.executing_sql) + "\n\n--- Parent Batch SQL ---\n"@ + trim(s.parent_batch_sql)));
}

#[verifier::rlimit(40)]
proof fn lemma_alert_detail_labels_17(s: SessionAlertView)
    ensures
        contains(alert_detail_text(s), "\nClient Address: "@ + s.client_address + "\nLogin Name: "@),
{
    reveal(alert_detail_tail);
    assert(alert_detail_text(s) =~= (alert_detail_head(s) + alert_detail_mid(s)) + ("\nClient Address: "@ + s.client_address + "\nLogin Name: "@) + ((s.login_name + "\nDB Name: "@ + s.db_name + "\nCommand: "@ + s.command + "\nStart Time: "@ + s.start_time + "\n\n--- Executing SQL ---\n"@ + trim(s.executing_sql) + "\n\n--- Parent Batch SQL ---\n"@ + trim(s.parent_batch_sql))));
    lemma_occurs_middle(alert_detail_head(s) + alert_detail_mid(s), "\nClient Address: "@ + s.client_address + "\nLogin Name: "@, (s.login_name + "\nDB Name: "@ + s.db_name + "\nCommand: "@ + s.command + "\nStart Time: "@ + s.start_time + "\n\n--- Executing SQL ---\n"@ + trim(s.executing_sql) + "\n\n--- Parent Batch SQL ---\n"@ + trim(s.parent_batch_sql)));
}

#[verifier::rlimit(40)]
proof fn lemma_alert_detail_labels_18(s: SessionAlertView)
    ensures
        contains(alert_detail_text(s), "\nLogin Name: "@ + s.login_name + "\nDB Name: "@),
{
    reveal(alert_detail_tail);
    assert(alert_detail_text(s) =~= (alert_detail_head(s) + alert_detail_mid(s) + ("\nClient Address: "@ + s.client_address)) + ("\nLogin Name: "@ + s.login_name + "\nDB Name: "@) + ((s.db_name + "\nCommand: "@ + s.command + "\nStart Time: "@ + s.start_time + "\n\n--- Executing SQL ---\n"@ + trim(s.executing_sql) + "\n\n--- Parent Batch SQL ---\n"@ + trim(s.parent_batch_sql))));
    lemma_occurs_middle(alert_detail_head(s) + alert_detail_mid(s) + ("\nClient Address: "@ + s.client_address), "\nLogin Name: "@ + s.login_name + "\nDB Name: "@, (s.db_name + "\nCommand: "@ + s.command + "\nStart Time: "@ + s.start_time + "\n\n--- Executing SQL ---\n"@ + trim(s.executing_sql) + "\n\n--- Parent Batch SQL ---\n"@ + trim(s.parent_batch_sql)));
}

#[verifier::rlimit(40)]
proof fn lemma_alert_detail_labels_19(s: SessionAlertView)
    ensures
        contains(alert_detail_text(s), "\nDB Name: "@ + s.db_name + "\nCommand: "@),
{
    reveal(alert_detail_tail);
    assert(alert_detail_text(s) =~= (alert_detail_head(s) + alert_detail_mid(s) + ("\nClient Address: "@ + s.client_address + "\nLogin Name: "@ + s.login_name)) + ("\nDB Name: "@ + s.db_name + "\nCommand: "@) + ((s.command + "\nStart Time: "@ + s.start_time + "\n\n--- Executing SQL ---\n"@ + trim(s.executing_sql) + "\n\n--- Parent Batch SQL ---\n"@ + trim(s.parent_batch_sql))));
    lemma_occurs_middle(alert_detail_head(s) + alert_detail_mid(s) + ("\nClient Address: "@ + s.client_address + "\nLogin Name: "@ + s.login_name), "\nDB Name: "@ + s.db_name + "\nCommand: "@, (s.command + "\nStart Time: "@ + s.start_time + "\n\n--- Executing SQL ---\n"@ + trim(s.executing_sql) + "\n\n--- Parent Batch SQL ---\n"@ + trim(s.parent_batch_sql)));
}

#[verifier::rlimit(40)]
proof fn lemma_alert_detail_labels_20(s: SessionAlertView)
    ensures
        contains(alert_detail_text(s), "\nCommand: "@ + s.command + "\nStart Time: "@),
{
    reveal(alert_detail_tail);
    assert(alert_detail_text(s) =~= (alert_detail_head(s) + alert_detail_mid(s) + ("\nClient Address: "@ + s.client_address + "\nLogin Name: "@ + s.login_name + "\nDB Name: "@ + s.db_name)) + ("\nCommand: "@ + s.command + "\nStart Time: "@) + ((s.start_time + "\n\n--- Executing SQL ---\n"@ + trim(s.executing_sql) + "\n\n--- Parent Batch SQL ---\n"@ + trim(s.parent_batch_sql))));
    lemma_occurs_middle(alert_detail_head(s) + alert_detail_mid(s) + ("\nClient Address: "@ + s.client_address + "\nLogin Name: "@ + s.login_name + "\nDB Name: "@ + s.db_name), "\nCommand: "@ + s.command + "\nStart Time: "@, (s.start_time + "\n\n--- Executing SQL ---\n"@ + trim(s.executing_sql) + "\n\n--- Parent Batch SQL ---\n"@ + trim(s.parent_batch_sql)));
}

#[verifier::rlimit(40)]
proof fn lemma_alert_detail_labels_21(s: SessionAlertView)
    ensures
        contains(alert_detail_text(s), "\nStart Time: "@ + s.start_time + "\n\n--- Executing SQL ---\n"@),
{
    reveal(alert_detail_tail);
    assert(alert_detail_text(s) =~= (alert_detail_head(s) + alert_detail_mid(s) + ("\nClient Address: "@ + s.client_address + "\nLogin Name: "@ + s.login_name + "\nDB Name: "@ + s.db_name + "\nCommand: "@ + s.command)) + ("\nStart Time: "@ + s.start_time + "\n\n--- Executing SQL ---\n"@) + ((trim(s.executing_sql) + "\n\n--- Parent Batch SQL ---\n"@ + trim(s.parent_batch_sql))));
    lemma_occurs_middle(alert_detail_head(s) + alert_detail_mid(s) + ("\nClient Address: "@ + s.client_address + "\nLogin Name: "@ + s.login_name + "\nDB Name: "@ + s.db_name + "\nCommand: "@ + s.command), "\nStart Time: "@ + s.start_time + "\n\n--- Executing SQL ---\n"@, (trim(s.executing_sql) + "\n\n--- Parent Batch SQL ---\n"@ + trim(s.parent_batch_sql)));
}

#[verifier::rlimit(40)]
proof fn lemma_alert_detail_labels_22(s: SessionAlertView)
    ensures
        contains(alert_detail_text(s), "\n\n--- Executing SQL ---\n"@ + trim(s.executing_sql) + "\n\n--- Parent Batch SQL ---\n"@),
{
    reveal(alert_detail_tail);
    assert(alert_detail_text(s) =~= (alert_detail_head(s) + alert_detail_mid(s) + ("\nClient Address: "@ + s.client_address + "\nLogin Name: "@ + s.login_name + "\nDB Name: "@ + s.db_name + "\nCommand: "@ + s.command + "\nStart Time: "@ + s.start_time)) + ("\n\n--- Executing SQL ---\n"@ + trim(s.executing_sql) + "\n\n--- Parent Batch SQL ---\n"@) + ((trim(s.parent_batch_sql))));
    lemma_occurs_middle(alert_detail_head(s) + alert_detail_mid(s) + ("\nClient Address: "@ + s.client_address + "\nLogin Name: "@ + s.login_name + "\nDB Name: "@ + s.db_name + "\nCommand: "@ + s.command + "\nStart Time: "@ + s.start_time), "\n\n--- Executing SQL ---\n"@ + trim(s.executing_sql) + "\n\n--- Parent Batch SQL ---\n"@, (trim(s.parent_batch_sql)));
}

#[verifier::rlimit(40)]
proof fn lemma_alert_detail_labels_23(s: SessionAlertView)
    ensures
        occurs_at(alert_detail_text(s), "\n\n--- Parent Batch SQL ---\n"@ + trim(s.parent_batch_sql), alert_detail_text(s).len() - ("\n\n--- Parent Batch SQL ---\n"@ + trim(s.parent_batch_sql)).len()),
{
    reveal(alert_detail_tail);
    assert(alert_detail_text(s) =~= (alert_detail_head(s) + alert_detail_mid(s) + ("\nClient Address: "@ + s.client_address + "\nLogin Name: "@ + s.login_name + "\nDB Name: "@ + s.db_name + "\nCommand: "@ + s.command + "\nStart Time: "@ + s.start_time + "\n\n--- Executing SQL ---\n"@ + trim(s.executing_sql))) + ("\n\n--- Parent Batch SQL ---\n"@ + trim(s.parent_batch_sql)) + (Seq::<char>::empty()));
    lemma_occurs_middle(alert_detail_head(s) + alert_detail_mid(s) + ("\nClient Address: "@ + s.client_address + "\nLogin Name: "@ + s.login_name + "\nDB Name: "@ + s.db_name + "\nCommand: "@ + s.command + "\nStart Time: "@ + s.start_time + "\n\n--- Executing SQL ---\n"@ + trim(s.executing_sql)), "\n\n--- Parent Batch SQL ---\n"@ + trim(s.parent_batch_sql), Seq::<char>::empty());
}

#[verifier::rlimit(40)]
proof fn lemma_alert_detail_labels_len(s: SessionAlertView)
    ensures
        alert_detail_text(s).len() == ("Log Time: "@).len() + (s.log_time).len() + ("\nServer: "@).len() + (s.server).len() + ("\nSPID: "@).len() + (s.spid).len() + ("\nElapsed Time: "@).len() + (s.elapsed).len() + (" ms\nStatus: "@).len() + (s.status).len() + ("\nWait Type: "@).len() + (s.wait_type).len() + (" ("@).len() + (s.wait_time_ms).len() + (" ms)\nLast Wait Type: "@).len() + (s.last_wait_type).len() + ("\nWait Resource: "@).len() + (s.wait_resource).len() + ("\nWait Session ID (Blocking): "@).len() + (s.blocking_spid).len() + ("\nCPU Time: "@).len() + (s.cpu_time_ms).len() + (" ms\nLogical Reads: "@).len() + (s.logical_reads).len() + ("\nPhysical Reads: "@).len() + (s.physical_reads).len() + ("\nWrites: "@).len() + (s.writes).len() + ("\nRow Count: "@).len() + (s.row_count).len() + ("\nOpen Trans: "@).len() + (s.open_trans).len() + ("\nDOP: "@).len() + (s.dop).len() + ("\nClient Address: "@).len() + (s.client_address).len() + ("\nLogin Name: "@).len() + (s.login_name).len() + ("\nDB Name: "@).len() + (s.db_name).len() + ("\nCommand: "@).len() + (s.command).len() + ("\nStart Time: "@).len() + (s.start_time).len() + ("\n\n--- Executing SQL ---\n"@).len() + (trim(s.executing_sql)).len() + ("\n\n--- Parent Batch SQL ---\n"@).len() + (trim(s.parent_batch_sql)).len(),
{
    reveal(alert_detail_head);
    reveal(alert_detail_mid);
    reveal(alert_detail_tail);
}

/// An alert entry's detail text `t` gives each field of `s` after its label:
/// the log time first, each labelled value followed by the next label, the
/// batch statement last, and nothing more.
pub open spec fn alert_detail_labels(s: SessionAlertView, t: Seq<char>) -> bool {
    &&& occurs_at(t, "Log Time: "@ + s.log_time + "\nServer: "@, 0)
    &&& contains(t, "\nServer: "@ + s.server + "\nSPID: "@)
    &&& contains(t, "\nSPID: "@ + s.spid + "\nElapsed Time: "@)
    &&& contains(t, "\nElapsed Time: "@ + s.elapsed + " ms\nStatus: "@)
    &&& contains(t, " ms\nStatus: "@ + s.status + "\nWait Type: "@)
    &&& contains(t, "\nWait Type: "@ + s.wait_type + " ("@)
    &&& contains(t, " ("@ + s.wait_time_ms + " ms)\nLast Wait Type: "@)
    &&& contains(t, " ms)\nLast Wait Type: "@ + s.last_wait_type + "\nWait Resource: "@)
    &&& contains(t, "\nWait Resource: "@ + s.wait_resource + "\nWait Session ID (Blocking): "@)
    &&& contains(t, "\nWait Session ID (Blocking): "@ + s.blocking_spid + "\nCPU Time: "@)
    &&& contains(t, "\nCPU Time: "@ + s.cpu_time_ms + " ms\nLogical Reads: "@)
    &&& contains(t, " ms\nLogical Reads: "@ + s.logical_reads + "\nPhysical Reads: "@)
    &&& contains(t, "\nPhysical Reads: "@ + s.physical_reads + "\nWrites: "@)
    &&& contains(t, "\nWrites: "@ + s.writes + "\nRow Count: "@)
    &&& contains(t, "\nRow Count: "@ + s.row_count + "\nOpen Trans: "@)
    &&& contains(t, "\nOpen Trans: "@ + s.open_trans + "\nDOP: "@)
    &&& contains(t, "\nDOP: "@ + s.dop + "\nClient Address: "@)
    &&& contains(t, "\nClient Address: "@ + s.client_address + "\nLogin Name: "@)
    &&& contains(t, "\nLogin Name: "@ + s.login_name + "\nDB Name: "@)
    &&& contains(t, "\nDB Name: "@ + s.db_name + "\nCommand: "@)
    &&& contains(t, "\nCommand: "@ + s.command + "\nStart Time: "@)
    &&& contains(t, "\nStart Time: "@ + s.start_time + "\n\n--- Executing SQL ---\n"@)
    &&& contains(t, "\n\n--- Executing SQL ---\n"@ + trim(s.executing_sql) + "\n\n--- Parent Batch SQL ---\n"@)
    &&& occurs_at(t, "\n\n--- Parent Batch SQL ---\n"@ + trim(s.parent_batch_sql), t.len() - ("\n\n--- Parent Batch SQL ---\n"@ + trim(s.parent_batch_sql)).len())
    &&& t.len() == ("Log Time: "@).len() + (s.log_time).len() + ("\nServer: "@).len() + (s.server).len() + ("\nSPID: "@).len() + (s.spid).len() + ("\nElapsed Time: "@).len() + (s.elapsed).len() + (" ms\nStatus: "@).len() + (s.status).len() + ("\nWait Type: "@).len() + (s.wait_type).len() + (" ("@).len() + (s.wait_time_ms).len() + (" ms)\nLast Wait Type: "@).len() + (s.last_wait_type).len() + ("\nWait Resource: "@).len() + (s.wait_resource).len() + ("\nWait Session ID (Blocking): "@).len() + (s.blocking_spid).len() + ("\nCPU Time: "@).len() + (s.cpu_time_ms).len() + (" ms\nLogical Reads: "@).len() + (s.logical_reads).len() + ("\nPhysical Reads: "@).len() + (s.physical_reads).len() + ("\nWrites: "@).len() + (s.writes).len() + ("\nRow Count: "@).len() + (s.row_count).len() + ("\nOpen Trans: "@).len() + (s.open_trans).len() + ("\nDOP: "@).len() + (s.dop).len() + ("\nClient Address: "@).len() + (s.client_address).len() + ("\nLogin Name: "@).len() + (s.login_name).len() + ("\nDB Name: "@).len() + (s.db_name).len() + ("\nCommand: "@).len() + (s.command).len() + ("\nStart Time: "@).len() + (s.start_time).len() + ("\n\n--- Executing SQL ---\n"@).len() + (trim(s.executing_sql)).len() + ("\n\n--- Parent Batch SQL ---\n"@).len() + (trim(s.parent_batch_sql)).len()
}

/// The alert viewer's detail text of an entry: each label is followed by the
/// field it names, in order, and nothing else.
pub proof fn law_alert_detail_labels(s: SessionAlertView)
    ensures
        alert_detail_labels(s, alert_detail_text(s)),
{
    lemma_alert_detail_labels_0(s);
    lemma_alert_detail_labels_1(s);
    lemma_alert_detail_labels_2(s);
    lemma_alert_detail_labels_3(s);
    lemma_alert_detail_labels_4(s);
    lemma_alert_detail_labels_5(s);
    lemma_alert_detail_labels_6(s);
    lemma_alert_detail_labels_7(s);
    lemma_alert_detail_labels_8(s);
    lemma_alert_detail_labels_9(s);
    lemma_alert_detail_labels_10(s);
    lemma_alert_detail_labels_11(s);
    lemma_alert_detail_labels_12(s);
    lemma_alert_detail_labels_13(s);
    lemma_alert_detail_labels_14(s);
    lemma_alert_detail_labels_15(s);
    lemma_alert_detail_labels_16(s);
    lemma_alert_detail_labels_17(s);
    lemma_alert_detail_labels_18(s);
    lemma_alert_detail_labels_19(s);
    lemma_alert_detail_labels_20(s);
    lemma_alert_detail_labels_21(s);
    lemma_alert_detail_labels_22(s);
    lemma_alert_detail_labels_23(s);
    lemma_alert_detail_labels_len(s);
}


/// A snapshot request's wait cell is "-" when the request waits on nothing (a
/// blank wait type, or "-"); otherwise it starts with the wait type and ends
/// with the request's own wait time in parentheses.
pub proof fn law_snap_wait_cell(s: SessionSnapView)
    ensures
        (trim(s.wait_type).len() == 0 || s.wait_type == "-"@) ==> snap_wait_cell_text(s) == "-"@,
        !(trim(s.wait_type).len() == 0 || s.wait_type == "-"@) ==> {
            let cell = snap_wait_cell_text(s);
            let tail = " ("@ + s.wait_time_ms + "ms)"@;
            &&& starts_with(cell, s.wait_type)
            &&& occurs_at(cell, tail, s.wait_type.len() as int)
            &&& cell.len() == s.wait_type.len() + tail.len()
        },
{
    let cell = snap_wait_cell_text(s);
    let tail = " ("@ + s.wait_time_ms + "ms)"@;
    if !(trim(s.wait_type).len() == 0 || s.wait_type == "-"@) {
        assert(cell.take(s.wait_type.len() as int) =~= s.wait_type);
        assert(cell.subrange(s.wait_type.len() as int, cell.len() as int) =~= tail);
    }
}

/// An alert entry's wait cell is "-" when the request waits on nothing (a
/// blank wait type); otherwise it starts with the wait type and ends with the
/// entry's own wait time in parentheses.
pub proof fn law_alert_wait_cell(s: SessionAlertView)
    ensures
        trim(s.wait_type).len() == 0 ==> alert_wait_cell_text(s) == "-"@,
        trim(s.wait_type).len() != 0 ==> {
            let cell = alert_wait_cell_text(s);
            let tail = " ("@ + s.wait_time_ms + "ms)"@;
            &&& starts_with(cell, s.wait_type)
            &&& occurs_at(cell, tail, s.wait_type.len() as int)
            &&& cell.len() == s.wait_type.len() + tail.len()
        },
{
    let cell = alert_wait_cell_text(s);
    let tail = " ("@ + s.wait_time_ms + "ms)"@;
    if trim(s.wait_type).len() != 0 {
        assert(cell.take(s.wait_type.len() as int) =~= s.wait_type);
        assert(cell.subrange(s.wait_type.len() as int, cell.len() as int) =~= tail);
    }
}

}
