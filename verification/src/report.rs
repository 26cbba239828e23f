//! The texts the monitor writes: the snapshot log of a dashboard, the alert
//! log entries for a long-running request and for high worker usage, and the
//! detail text of one request that the user can copy.
use vstd::prelude::*;
use crate::log_labels::{
    alert_entry_labels, law_alert_entry_labels, law_snapshot_log_labels, law_worker_entry_labels,
    snapshot_log_labels, worker_entry_labels,
};
use crate::detail_laws::{law_session_detail_labels, session_detail_labels};
use crate::model::{DashboardData, DashboardView, SessionData, SessionView};
use crate::number::{int_decimal, push_decimal};
use crate::text::{append_chars, chars_of, put, replace, replace_all, string_of, trim, trimmed};

verus! {

/// The line that opens and closes each block of the logs.
pub open spec fn separator_line() -> Seq<char> {
    "=================================================="@
}

/// The line that divides the parts of a snapshot block.
pub open spec fn dash_line() -> Seq<char> {
    "--------------------------------------------------"@
}

/// Appends the decimal text of `n`.
pub(crate) fn put_int(out: &mut Vec<char>, n: i128)
    requires
        -0x1_0000_0000_0000_0000 < n < 0x1_0000_0000_0000_0000,
    ensures
        final(out)@ == old(out)@ + int_decimal(n as int),
{
    push_decimal(out, n);
}

/// Appends the characters of `s`.
pub(crate) fn put_text(out: &mut Vec<char>, s: &String)
    ensures
        final(out)@ == old(out)@ + s@,
{
    let v = chars_of(s.as_str());
    append_chars(out, v.as_slice());
}

/// Appends `s` without leading and trailing whitespace.
pub(crate) fn put_trimmed(out: &mut Vec<char>, s: &String)
    ensures
        final(out)@ == old(out)@ + trim(s@),
{
    let v = chars_of(s.as_str());
    let t = trimmed(v.as_slice());
    append_chars(out, t.as_slice());
}

/// The lines of the snapshot log that describe the `n`-th captured session.
#[verifier::opaque]
pub open spec fn session_block_text(n: int, s: SessionView) -> Seq<char> {
    "--- [Session "@ + int_decimal(n) + "] ---\n"@ + spid_line(s) + wait_line(s) + resource_line(s)
        + io_line(s) + rows_line(s) + client_line(s) + command_line(s) + "Executing SQL:\n"@ + trim(
        s.executing_sql,
    ) + "\n"@ + "Parent Batch SQL:\n"@ + trim(s.parent_batch_sql) + "\n\n"@
}

#[verifier::opaque]
pub open spec fn spid_line(s: SessionView) -> Seq<char> {
    "SPID: "@ + int_decimal(s.session_id) + " | Elapsed Time: "@ + int_decimal(s.elapsed_time_ms)
        + " ms | Status: "@ + s.status + "\n"@
}

#[verifier::opaque]
pub open spec fn wait_line(s: SessionView) -> Seq<char> {
    "Wait Type: "@ + s.wait_type + " ("@ + int_decimal(s.wait_time_ms) + " ms) | Last Wait: "@
        + s.last_wait_type + "\n"@
}

#[verifier::opaque]
pub open spec fn resource_line(s: SessionView) -> Seq<char> {
    "Wait Resource: "@ + s.wait_resource + " | Blocking SPID: "@ + int_decimal(s.wait_session_id)
        + "\n"@
}

#[verifier::opaque]
pub open spec fn io_line(s: SessionView) -> Seq<char> {
    "CPU Time: "@ + int_decimal(s.cpu_time_ms) + " ms | Logical Reads: "@ + int_decimal(
        s.logical_reads,
    ) + " | Physical Reads: "@ + int_decimal(s.physical_reads) + " | Writes: "@ + int_decimal(
        s.writes,
    ) + "\n"@
}

#[verifier::opaque]
pub open spec fn rows_line(s: SessionView) -> Seq<char> {
    "Row Count: "@ + int_decimal(s.row_count) + " | Open Trans: "@ + int_decimal(
        s.open_transaction_count,
    ) + " | DOP: "@ + int_decimal(s.dop) + "\n"@
}

#[verifier::opaque]
pub open spec fn client_line(s: SessionView) -> Seq<char> {
    "Client Address: "@ + s.client_net_address + " | Login Name: "@ + s.login_name
        + " | DB Name: "@ + s.database_name + "\n"@
}

#[verifier::opaque]
pub open spec fn command_line(s: SessionView) -> Seq<char> {
    "Command: "@ + s.command + " | Start Time: "@ + s.start_time + "\n"@
}

fn put_spid_line(out: &mut Vec<char>, s: &SessionData)
    ensures
        final(out)@ == old(out)@ + spid_line(s@),
{
    proof {
        reveal(spid_line);
    }
    put(out, "SPID: ");
    put_int(out, s.session_id as i128);
    put(out, " | Elapsed Time: ");
    put_int(out, s.elapsed_time_ms as i128);
    put(out, " ms | Status: ");
    put_text(out, &s.status);
    put(out, "\n");
    assert(final(out)@ =~= old(out)@ + spid_line(s@));
}

fn put_wait_line(out: &mut Vec<char>, s: &SessionData)
    ensures
        final(out)@ == old(out)@ + wait_line(s@),
{
    proof {
        reveal(wait_line);
    }
    put(out, "Wait Type: ");
    put_text(out, &s.wait_type);
    put(out, " (");
    put_int(out, s.wait_time_ms as i128);
    put(out, " ms) | Last Wait: ");
    put_text(out, &s.last_wait_type);
    put(out, "\n");
    assert(final(out)@ =~= old(out)@ + wait_line(s@));
}

fn put_resource_line(out: &mut Vec<char>, s: &SessionData)
    ensures
        final(out)@ == old(out)@ + resource_line(s@),
{
    proof {
        reveal(resource_line);
    }
    put(out, "Wait Resource: ");
    put_text(out, &s.wait_resource);
    put(out, " | Blocking SPID: ");
    put_int(out, s.wait_session_id as i128);
    put(out, "\n");
    assert(final(out)@ =~= old(out)@ + resource_line(s@));
}

fn put_io_line(out: &mut Vec<char>, s: &SessionData)
    ensures
        final(out)@ == old(out)@ + io_line(s@),
{
    proof {
        reveal(io_line);
    }
    put(out, "CPU Time: ");
    put_int(out, s.cpu_time_ms as i128);
    put(out, " ms | Logical Reads: ");
    put_int(out, s.logical_reads as i128);
    put(out, " | Physical Reads: ");
    put_int(out, s.physical_reads as i128);
    put(out, " | Writes: ");
    put_int(out, s.writes as i128);
    put(out, "\n");
    assert(final(out)@ =~= old(out)@ + io_line(s@));
}

fn put_rows_line(out: &mut Vec<char>, s: &SessionData)
    ensures
        final(out)@ == old(out)@ + rows_line(s@),
{
    proof {
        reveal(rows_line);
    }
    put(out, "Row Count: ");
    put_int(out, s.row_count as i128);
    put(out, " | Open Trans: ");
    put_int(out, s.open_transaction_count as i128);
    put(out, " | DOP: ");
    put_int(out, s.dop as i128);
    put(out, "\n");
    assert(final(out)@ =~= old(out)@ + rows_line(s@));
}

fn put_client_line(out: &mut Vec<char>, s: &SessionData)
    ensures
        final(out)@ == old(out)@ + client_line(s@),
{
    proof {
        reveal(client_line);
    }
    put(out, "Client Address: ");
    put_text(out, &s.client_net_address);
    put(out, " | Login Name: ");
    put_text(out, &s.login_name);
    put(out, " | DB Name: ");
    put_text(out, &s.database_name);
    put(out, "\n");
    assert(final(out)@ =~= old(out)@ + client_line(s@));
}

fn put_command_line(out: &mut Vec<char>, s: &SessionData)
    ensures
        final(out)@ == old(out)@ + command_line(s@),
{
    proof {
        reveal(command_line);
    }
    put(out, "Command: ");
    put_text(out, &s.command);
    put(out, " | Start Time: ");
    put_text(out, &s.start_time);
    put(out, "\n");
    assert(final(out)@ =~= old(out)@ + command_line(s@));
}

fn put_session_block(out: &mut Vec<char>, n: usize, s: &SessionData)
    ensures
        final(out)@ == old(out)@ + session_block_text(n as int, s@),
{
    proof {
        reveal(session_block_text);
    }
    put(out, "--- [Session ");
    put_int(out, n as i128);
    put(out, "] ---\n");
    put_spid_line(out, s);
    put_wait_line(out, s);
    put_resource_line(out, s);
    put_io_line(out, s);
    put_rows_line(out, s);
    put_client_line(out, s);
    put_command_line(out, s);
    put(out, "Executing SQL:\n");
    put_trimmed(out, &s.executing_sql);
    put(out, "\n");
    put(out, "Parent Batch SQL:\n");
    put_trimmed(out, &s.parent_batch_sql);
    put(out, "\n\n");
    assert(final(out)@ =~= old(out)@ + session_block_text(n as int, s@));
}

/// The opening lines of a snapshot block: the server and the capture time.
#[verifier::opaque]
pub open spec fn snapshot_header(server_id: Seq<char>, d: DashboardView) -> Seq<char> {
    separator_line()
        + "\n"@
        + "Server: "@
        + server_id
        + "\n"@
        + "Capture Time: "@
        + d.capture_time
        + "\n"@
        + dash_line()
        + "\n"@
}

fn put_snapshot_header(out: &mut Vec<char>, server_id: &str, d: &DashboardData)
    ensures
        final(out)@ == old(out)@ + snapshot_header(server_id@, d@),
{
    proof {
        reveal(snapshot_header);
    }
    let ghost start = out@;
    let ghost g_server_id = server_id@;
    let ghost g_d = d@;
    put(out, "==================================================");
    put(out, "\n");
    assert(out@ =~= start + (separator_line() + "\n"@));
    put(out, "Server: ");
    assert(out@ =~= start + (separator_line() + "\n"@ + "Server: "@));
    put(out, server_id);
    assert(out@ =~= start + (separator_line() + "\n"@ + "Server: "@ + g_server_id));
    put(out, "\n");
    assert(out@ =~= start + (separator_line() + "\n"@ + "Server: "@ + g_server_id + "\n"@));
    put(out, "Capture Time: ");
    assert(out@ =~= start + (separator_line() + "\n"@ + "Server: "@ + g_server_id + "\n"@ + "Capture Time: "@));
    put_text(out, &d.capture_time);
    assert(out@ =~= start + (separator_line() + "\n"@ + "Server: "@ + g_server_id + "\n"@ + "Capture Time: "@ + g_d.capture_time));
    put(out, "\n");
    assert(out@ =~= start + (separator_line() + "\n"@ + "Server: "@ + g_server_id + "\n"@ + "Capture Time: "@ + g_d.capture_time + "\n"@));
    put(out, "--------------------------------------------------");
    assert(out@ =~= start + (separator_line() + "\n"@ + "Server: "@ + g_server_id + "\n"@ + "Capture Time: "@ + g_d.capture_time + "\n"@ + dash_line()));
    put(out, "\n");
    assert(out@ =~= start + (separator_line() + "\n"@ + "Server: "@ + g_server_id + "\n"@ + "Capture Time: "@ + g_d.capture_time + "\n"@ + dash_line() + "\n"@));
    assert(final(out)@ =~= old(out)@ + snapshot_header(server_id@, d@));
}

/// The worker-usage line of a snapshot block.
#[verifier::opaque]
pub open spec fn snapshot_workers(d: DashboardView) -> Seq<char> {
    "Workers: "@
        + int_decimal(d.active_workers)
        + " / "@
        + int_decimal(d.max_threads)
        + " ("@
        + d.workers_percent
        + ")\n"@
}

fn put_snapshot_workers(out: &mut Vec<char>, d: &DashboardData)
    ensures
        final(out)@ == old(out)@ + snapshot_workers(d@),
{
    proof {
        reveal(snapshot_workers);
    }
    let ghost start = out@;
    let ghost g_d = d@;
    put(out, "Workers: ");
    put_int(out, d.active_workers as i128);
    assert(out@ =~= start + ("Workers: "@ + int_decimal(g_d.active_workers)));
    put(out, " / ");
    assert(out@ =~= start + ("Workers: "@ + int_decimal(g_d.active_workers) + " / "@));
    put_int(out, d.max_threads as i128);
    assert(out@ =~= start + ("Workers: "@ + int_decimal(g_d.active_workers) + " / "@ + int_decimal(g_d.max_threads)));
    put(out, " (");
    assert(out@ =~= start + ("Workers: "@ + int_decimal(g_d.active_workers) + " / "@ + int_decimal(g_d.max_threads) + " ("@));
    put_text(out, &d.workers_percent);
    assert(out@ =~= start + ("Workers: "@ + int_decimal(g_d.active_workers) + " / "@ + int_decimal(g_d.max_threads) + " ("@ + g_d.workers_percent));
    put(out, ")\n");
    assert(out@ =~= start + ("Workers: "@ + int_decimal(g_d.active_workers) + " / "@ + int_decimal(g_d.max_threads) + " ("@ + g_d.workers_percent + ")\n"@));
    assert(final(out)@ =~= old(out)@ + snapshot_workers(d@));
}

/// The counter lines of a snapshot block.
#[verifier::opaque]
pub open spec fn snapshot_counters(d: DashboardView) -> Seq<char> {
    "Logical Connections: "@
        + int_decimal(d.conn_logical)
        + "\n"@
        + "Page Life Expectancy: "@
        + int_decimal(d.page_life_expectancy)
        + "\n"@
        + "Active Temp Tables: "@
        + int_decimal(d.active_temp_tables)
        + "\n"@
}

fn put_snapshot_counters(out: &mut Vec<char>, d: &DashboardData)
    ensures
        final(out)@ == old(out)@ + snapshot_counters(d@),
{
    proof {
        reveal(snapshot_counters);
    }
    let ghost start = out@;
    let ghost g_d = d@;
    put(out, "Logical Connections: ");
    put_int(out, d.conn_logical as i128);
    assert(out@ =~= start + ("Logical Connections: "@ + int_decimal(g_d.conn_logical)));
    put(out, "\n");
    assert(out@ =~= start + ("Logical Connections: "@ + int_decimal(g_d.conn_logical) + "\n"@));
    put(out, "Page Life Expectancy: ");
    assert(out@ =~= start + ("Logical Connections: "@ + int_decimal(g_d.conn_logical) + "\n"@ + "Page Life Expectancy: "@));
    put_int(out, d.page_life_expectancy as i128);
    assert(out@ =~= start + ("Logical Connections: "@ + int_decimal(g_d.conn_logical) + "\n"@ + "Page Life Expectancy: "@ + int_decimal(g_d.page_life_expectancy)));
    put(out, "\n");
    assert(out@ =~= start + ("Logical Connections: "@ + int_decimal(g_d.conn_logical) + "\n"@ + "Page Life Expectancy: "@ + int_decimal(g_d.page_life_expectancy) + "\n"@));
    put(out, "Active Temp Tables: ");
    assert(out@ =~= start + ("Logical Connections: "@ + int_decimal(g_d.conn_logical) + "\n"@ + "Page Life Expectancy: "@ + int_decimal(g_d.page_life_expectancy) + "\n"@ + "Active Temp Tables: "@));
    put_int(out, d.active_temp_tables as i128);
    assert(out@ =~= start + ("Logical Connections: "@ + int_decimal(g_d.conn_logical) + "\n"@ + "Page Life Expectancy: "@ + int_decimal(g_d.page_life_expectancy) + "\n"@ + "Active Temp Tables: "@ + int_decimal(g_d.active_temp_tables)));
    put(out, "\n");
    assert(out@ =~= start + ("Logical Connections: "@ + int_decimal(g_d.conn_logical) + "\n"@ + "Page Life Expectancy: "@ + int_decimal(g_d.page_life_expectancy) + "\n"@ + "Active Temp Tables: "@ + int_decimal(g_d.active_temp_tables) + "\n"@));
    assert(final(out)@ =~= old(out)@ + snapshot_counters(d@));
}

/// The transaction and request-count lines of a snapshot block.
#[verifier::opaque]
pub open spec fn snapshot_activity(d: DashboardView) -> Seq<char> {
    "Transactions: "@
        + int_decimal(d.transactions)
        + "\n"@
        + "Request Sessions: "@
        + int_decimal(d.raw_session_count)
        + "\n"@
}

fn put_snapshot_activity(out: &mut Vec<char>, d: &DashboardData)
    ensures
        final(out)@ == old(out)@ + snapshot_activity(d@),
{
    proof {
        reveal(snapshot_activity);
    }
    let ghost start = out@;
    let ghost g_d = d@;
    put(out, "Transactions: ");
    put_int(out, d.transactions as i128);
    assert(out@ =~= start + ("Transactions: "@ + int_decimal(g_d.transactions)));
    put(out, "\n");
    assert(out@ =~= start + ("Transactions: "@ + int_decimal(g_d.transactions) + "\n"@));
    put(out, "Request Sessions: ");
    assert(out@ =~= start + ("Transactions: "@ + int_decimal(g_d.transactions) + "\n"@ + "Request Sessions: "@));
    put_int(out, d.raw_session_count as i128);
    assert(out@ =~= start + ("Transactions: "@ + int_decimal(g_d.transactions) + "\n"@ + "Request Sessions: "@ + int_decimal(g_d.raw_session_count)));
    put(out, "\n");
    assert(out@ =~= start + ("Transactions: "@ + int_decimal(g_d.transactions) + "\n"@ + "Request Sessions: "@ + int_decimal(g_d.raw_session_count) + "\n"@));
    assert(final(out)@ =~= old(out)@ + snapshot_activity(d@));
}

/// The first line of an alert log entry for a long-running request.
#[verifier::opaque]
pub open spec fn alert_head(log_time: Seq<char>, server_id: Seq<char>, s: SessionView) -> Seq<char> {
    "["@
        + log_time
        + "] Server: "@
        + server_id
        + " | SPID: "@
        + int_decimal(s.session_id)
        + " | Alert! Session Elapsed: "@
        + int_decimal(s.elapsed_time_ms)
        + " ms\n"@
}

fn put_alert_head(out: &mut Vec<char>, log_time: &str, server_id: &str, s: &SessionData)
    ensures
        final(out)@ == old(out)@ + alert_head(log_time@, server_id@, s@),
{
    proof {
        reveal(alert_head);
    }
    let ghost start = out@;
    let ghost g_log_time = log_time@;
    let ghost g_server_id = server_id@;
    let ghost g_s = s@;
    put(out, "[");
    put(out, log_time);
    assert(out@ =~= start + ("["@ + g_log_time));
    put(out, "] Server: ");
    assert(out@ =~= start + ("["@ + g_log_time + "] Server: "@));
    put(out, server_id);
    assert(out@ =~= start + ("["@ + g_log_time + "] Server: "@ + g_server_id));
    put(out, " | SPID: ");
    assert(out@ =~= start + ("["@ + g_log_time + "] Server: "@ + g_server_id + " | SPID: "@));
    put_int(out, s.session_id as i128);
    assert(out@ =~= start + ("["@ + g_log_time + "] Server: "@ + g_server_id + " | SPID: "@ + int_decimal(g_s.session_id)));
    put(out, " | Alert! Session Elapsed: ");
    assert(out@ =~= start + ("["@ + g_log_time + "] Server: "@ + g_server_id + " | SPID: "@ + int_decimal(g_s.session_id) + " | Alert! Session Elapsed: "@));
    put_int(out, s.elapsed_time_ms as i128);
    assert(out@ =~= start + ("["@ + g_log_time + "] Server: "@ + g_server_id + " | SPID: "@ + int_decimal(g_s.session_id) + " | Alert! Session Elapsed: "@ + int_decimal(g_s.elapsed_time_ms)));
    put(out, " ms\n");
    assert(out@ =~= start + ("["@ + g_log_time + "] Server: "@ + g_server_id + " | SPID: "@ + int_decimal(g_s.session_id) + " | Alert! Session Elapsed: "@ + int_decimal(g_s.elapsed_time_ms) + " ms\n"@));
    assert(final(out)@ =~= old(out)@ + alert_head(log_time@, server_id@, s@));
}

/// The status and wait lines of an alert log entry.
#[verifier::opaque]
pub open spec fn alert_wait_lines(s: SessionView) -> Seq<char> {
    "\tStatus: "@
        + s.status
        + "\n"@
        + "\tWaitType: "@
        + s.wait_type
        + " (Time: "@
        + int_decimal(s.wait_time_ms)
        + " ms)\n"@
        + "\tLastWaitType: "@
        + s.last_wait_type
        + "\n"@
        + "\tWaitResource: "@
        + s.wait_resource
        + "\n"@
        + "\tWaitSessionID (Blocking): "@
        + int_decimal(s.wait_session_id)
        + "\n"@
}

#[verifier::rlimit(30)]
fn put_alert_wait_lines(out: &mut Vec<char>, s: &SessionData)
    ensures
        final(out)@ == old(out)@ + alert_wait_lines(s@),
{
    proof {
        reveal(alert_wait_lines);
    }
    let ghost start = out@;
    let ghost g_s = s@;
    put(out, "\tStatus: ");
    put_text(out, &s.status);
    assert(out@ =~= start + ("\tStatus: "@ + g_s.status));
    put(out, "\n");
    assert(out@ =~= start + ("\tStatus: "@ + g_s.status + "\n"@));
    put(out, "\tWaitType: ");
    assert(out@ =~= start + ("\tStatus: "@ + g_s.status + "\n"@ + "\tWaitType: "@));
    put_text(out, &s.wait_type);
    assert(out@ =~= start + ("\tStatus: "@ + g_s.status + "\n"@ + "\tWaitType: "@ + g_s.wait_type));
    put(out, " (Time: ");
    assert(out@ =~= start + ("\tStatus: "@ + g_s.status + "\n"@ + "\tWaitType: "@ + g_s.wait_type + " (Time: "@));
    put_int(out, s.wait_time_ms as i128);
    assert(out@ =~= start + ("\tStatus: "@ + g_s.status + "\n"@ + "\tWaitType: "@ + g_s.wait_type + " (Time: "@ + int_decimal(g_s.wait_time_ms)));
    put(out, " ms)\n");
    assert(out@ =~= start + ("\tStatus: "@ + g_s.status + "\n"@ + "\tWaitType: "@ + g_s.wait_type + " (Time: "@ + int_decimal(g_s.wait_time_ms) + " ms)\n"@));
    put(out, "\tLastWaitType: ");
    assert(out@ =~= start + ("\tStatus: "@ + g_s.status + "\n"@ + "\tWaitType: "@ + g_s.wait_type + " (Time: "@ + int_decimal(g_s.wait_time_ms) + " ms)\n"@ + "\tLastWaitType: "@));
    put_text(out, &s.last_wait_type);
    assert(out@ =~= start + ("\tStatus: "@ + g_s.status + "\n"@ + "\tWaitType: "@ + g_s.wait_type + " (Time: "@ + int_decimal(g_s.wait_time_ms) + " ms)\n"@ + "\tLastWaitType: "@ + g_s.last_wait_type));
    put(out, "\n");
    assert(out@ =~= start + ("\tStatus: "@ + g_s.status + "\n"@ + "\tWaitType: "@ + g_s.wait_type + " (Time: "@ + int_decimal(g_s.wait_time_ms) + " ms)\n"@ + "\tLastWaitType: "@ + g_s.last_wait_type + "\n"@));
    put(out, "\tWaitResource: ");
    assert(out@ =~= start + ("\tStatus: "@ + g_s.status + "\n"@ + "\tWaitType: "@ + g_s.wait_type + " (Time: "@ + int_decimal(g_s.wait_time_ms) + " ms)\n"@ + "\tLastWaitType: "@ + g_s.last_wait_type + "\n"@ + "\tWaitResource: "@));
    put_text(out, &s.wait_resource);
    assert(out@ =~= start + ("\tStatus: "@ + g_s.status + "\n"@ + "\tWaitType: "@ + g_s.wait_type + " (Time: "@ + int_decimal(g_s.wait_time_ms) + " ms)\n"@ + "\tLastWaitType: "@ + g_s.last_wait_type + "\n"@ + "\tWaitResource: "@ + g_s.wait_resource));
    put(out, "\n");
    assert(out@ =~= start + ("\tStatus: "@ + g_s.status + "\n"@ + "\tWaitType: "@ + g_s.wait_type + " (Time: "@ + int_decimal(g_s.wait_time_ms) + " ms)\n"@ + "\tLastWaitType: "@ + g_s.last_wait_type + "\n"@ + "\tWaitResource: "@ + g_s.wait_resource + "\n"@));
    put(out, "\tWaitSessionID (Blocking): ");
    assert(out@ =~= start + ("\tStatus: "@ + g_s.status + "\n"@ + "\tWaitType: "@ + g_s.wait_type + " (Time: "@ + int_decimal(g_s.wait_time_ms) + " ms)\n"@ + "\tLastWaitType: "@ + g_s.last_wait_type + "\n"@ + "\tWaitResource: "@ + g_s.wait_resource + "\n"@ + "\tWaitSessionID (Blocking): "@));
    put_int(out, s.wait_session_id as i128);
    assert(out@ =~= start + ("\tStatus: "@ + g_s.status + "\n"@ + "\tWaitType: "@ + g_s.wait_type + " (Time: "@ + int_decimal(g_s.wait_time_ms) + " ms)\n"@ + "\tLastWaitType: "@ + g_s.last_wait_type + "\n"@ + "\tWaitResource: "@ + g_s.wait_resource + "\n"@ + "\tWaitSessionID (Blocking): "@ + int_decimal(g_s.wait_session_id)));
    put(out, "\n");
    assert(out@ =~= start + ("\tStatus: "@ + g_s.status + "\n"@ + "\tWaitType: "@ + g_s.wait_type + " (Time: "@ + int_decimal(g_s.wait_time_ms) + " ms)\n"@ + "\tLastWaitType: "@ + g_s.last_wait_type + "\n"@ + "\tWaitResource: "@ + g_s.wait_resource + "\n"@ + "\tWaitSessionID (Blocking): "@ + int_decimal(g_s.wait_session_id) + "\n"@));
    assert(final(out)@ =~= old(out)@ + alert_wait_lines(s@));
}

/// The CPU and read lines of an alert log entry.
#[verifier::opaque]
pub open spec fn alert_cpu_lines(s: SessionView) -> Seq<char> {
    "\tCPU Time: "@
        + int_decimal(s.cpu_time_ms)
        + " ms\n"@
        + "\tLogical Reads: "@
        + int_decimal(s.logical_reads)
        + "\n"@
        + "\tPhysical Reads: "@
        + int_decimal(s.physical_reads)
        + "\n"@
}

fn put_alert_cpu_lines(out: &mut Vec<char>, s: &SessionData)
    ensures
        final(out)@ == old(out)@ + alert_cpu_lines(s@),
{
    proof {
        reveal(alert_cpu_lines);
    }
    let ghost start = out@;
    let ghost g_s = s@;
    put(out, "\tCPU Time: ");
    put_int(out, s.cpu_time_ms as i128);
    assert(out@ =~= start + ("\tCPU Time: "@ + int_decimal(g_s.cpu_time_ms)));
    put(out, " ms\n");
    assert(out@ =~= start + ("\tCPU Time: "@ + int_decimal(g_s.cpu_time_ms) + " ms\n"@));
    put(out, "\tLogical Reads: ");
    assert(out@ =~= start + ("\tCPU Time: "@ + int_decimal(g_s.cpu_time_ms) + " ms\n"@ + "\tLogical Reads: "@));
    put_int(out, s.logical_reads as i128);
    assert(out@ =~= start + ("\tCPU Time: "@ + int_decimal(g_s.cpu_time_ms) + " ms\n"@ + "\tLogical Reads: "@ + int_decimal(g_s.logical_reads)));
    put(out, "\n");
    assert(out@ =~= start + ("\tCPU Time: "@ + int_decimal(g_s.cpu_time_ms) + " ms\n"@ + "\tLogical Reads: "@ + int_decimal(g_s.logical_reads) + "\n"@));
    put(out, "\tPhysical Reads: ");
    assert(out@ =~= start + ("\tCPU Time: "@ + int_decimal(g_s.cpu_time_ms) + " ms\n"@ + "\tLogical Reads: "@ + int_decimal(g_s.logical_reads) + "\n"@ + "\tPhysical Reads: "@));
    put_int(out, s.physical_reads as i128);
    assert(out@ =~= start + ("\tCPU Time: "@ + int_decimal(g_s.cpu_time_ms) + " ms\n"@ + "\tLogical Reads: "@ + int_decimal(g_s.logical_reads) + "\n"@ + "\tPhysical Reads: "@ + int_decimal(g_s.physical_reads)));
    put(out, "\n");
    assert(out@ =~= start + ("\tCPU Time: "@ + int_decimal(g_s.cpu_time_ms) + " ms\n"@ + "\tLogical Reads: "@ + int_decimal(g_s.logical_reads) + "\n"@ + "\tPhysical Reads: "@ + int_decimal(g_s.physical_reads) + "\n"@));
    assert(final(out)@ =~= old(out)@ + alert_cpu_lines(s@));
}

/// The write, row, transaction and parallelism lines of an alert log entry.
#[verifier::opaque]
pub open spec fn alert_write_lines(s: SessionView) -> Seq<char> {
    "\tWrites: "@
        + int_decimal(s.writes)
        + "\n"@
        + "\tRowCount: "@
        + int_decimal(s.row_count)
        + "\n"@
        + "\tOpen Trans: "@
        + int_decimal(s.open_transaction_count)
        + "\n"@
        + "\tDOP: "@
        + int_decimal(s.dop)
        + "\n"@
}

fn put_alert_write_lines(out: &mut Vec<char>, s: &SessionData)
    ensures
        final(out)@ == old(out)@ + alert_write_lines(s@),
{
    proof {
        reveal(alert_write_lines);
    }
    let ghost start = out@;
    let ghost g_s = s@;
    put(out, "\tWrites: ");
    put_int(out, s.writes as i128);
    assert(out@ =~= start + ("\tWrites: "@ + int_decimal(g_s.writes)));
    put(out, "\n");
    assert(out@ =~= start + ("\tWrites: "@ + int_decimal(g_s.writes) + "\n"@));
    put(out, "\tRowCount: ");
    assert(out@ =~= start + ("\tWrites: "@ + int_decimal(g_s.writes) + "\n"@ + "\tRowCount: "@));
    put_int(out, s.row_count as i128);
    assert(out@ =~= start + ("\tWrites: "@ + int_decimal(g_s.writes) + "\n"@ + "\tRowCount: "@ + int_decimal(g_s.row_count)));
    put(out, "\n");
    assert(out@ =~= start + ("\tWrites: "@ + int_decimal(g_s.writes) + "\n"@ + "\tRowCount: "@ + int_decimal(g_s.row_count) + "\n"@));
    put(out, "\tOpen Trans: ");
    assert(out@ =~= start + ("\tWrites: "@ + int_decimal(g_s.writes) + "\n"@ + "\tRowCount: "@ + int_decimal(g_s.row_count) + "\n"@ + "\tOpen Trans: "@));
    put_int(out, s.open_transaction_count as i128);
    assert(out@ =~= start + ("\tWrites: "@ + int_decimal(g_s.writes) + "\n"@ + "\tRowCount: "@ + int_decimal(g_s.row_count) + "\n"@ + "\tOpen Trans: "@ + int_decimal(g_s.open_transaction_count)));
    put(out, "\n");
    assert(out@ =~= start + ("\tWrites: "@ + int_decimal(g_s.writes) + "\n"@ + "\tRowCount: "@ + int_decimal(g_s.row_count) + "\n"@ + "\tOpen Trans: "@ + int_decimal(g_s.open_transaction_count) + "\n"@));
    put(out, "\tDOP: ");
    assert(out@ =~= start + ("\tWrites: "@ + int_decimal(g_s.writes) + "\n"@ + "\tRowCount: "@ + int_decimal(g_s.row_count) + "\n"@ + "\tOpen Trans: "@ + int_decimal(g_s.open_transaction_count) + "\n"@ + "\tDOP: "@));
    put_int(out, s.dop as i128);
    assert(out@ =~= start + ("\tWrites: "@ + int_decimal(g_s.writes) + "\n"@ + "\tRowCount: "@ + int_decimal(g_s.row_count) + "\n"@ + "\tOpen Trans: "@ + int_decimal(g_s.open_transaction_count) + "\n"@ + "\tDOP: "@ + int_decimal(g_s.dop)));
    put(out, "\n");
    assert(out@ =~= start + ("\tWrites: "@ + int_decimal(g_s.writes) + "\n"@ + "\tRowCount: "@ + int_decimal(g_s.row_count) + "\n"@ + "\tOpen Trans: "@ + int_decimal(g_s.open_transaction_count) + "\n"@ + "\tDOP: "@ + int_decimal(g_s.dop) + "\n"@));
    assert(final(out)@ =~= old(out)@ + alert_write_lines(s@));
}

/// The client, command and SQL lines of an alert log entry.
#[verifier::opaque]
pub open spec fn alert_client_lines(s: SessionView) -> Seq<char> {
    "\tClient Address: "@
        + s.client_net_address
        + "\n"@
        + "\tLogin Name: "@
        + s.login_name
        + "\n"@
        + "\tDB Name: "@
        + s.database_name
        + "\n"@
        + "\tCommand: "@
        + s.command
        + "\n"@
        + "\tStart Time: "@
        + s.start_time
        + "\n"@
        + "\tExecuting SQL: "@
        + trim(s.executing_sql)
        + "\n"@
        + "\tParent Batch SQL: "@
        + trim(s.parent_batch_sql)
        + "\n"@
}

#[verifier::rlimit(30)]
fn put_alert_client_lines(out: &mut Vec<char>, s: &SessionData)
    ensures
        final(out)@ == old(out)@ + alert_client_lines(s@),
{
    proof {
        reveal(alert_client_lines);
    }
    let ghost start = out@;
    let ghost g_s = s@;
    put(out, "\tClient Address: ");
    put_text(out, &s.client_net_address);
    assert(out@ =~= start + ("\tClient Address: "@ + g_s.client_net_address));
    put(out, "\n");
    assert(out@ =~= start + ("\tClient Address: "@ + g_s.client_net_address + "\n"@));
    put(out, "\tLogin Name: ");
    assert(out@ =~= start + ("\tClient Address: "@ + g_s.client_net_address + "\n"@ + "\tLogin Name: "@));
    put_text(out, &s.login_name);
    assert(out@ =~= start + ("\tClient Address: "@ + g_s.client_net_address + "\n"@ + "\tLogin Name: "@ + g_s.login_name));
    put(out, "\n");
    assert(out@ =~= start + ("\tClient Address: "@ + g_s.client_net_address + "\n"@ + "\tLogin Name: "@ + g_s.login_name + "\n"@));
    put(out, "\tDB Name: ");
    assert(out@ =~= start + ("\tClient Address: "@ + g_s.client_net_address + "\n"@ + "\tLogin Name: "@ + g_s.login_name + "\n"@ + "\tDB Name: "@));
    put_text(out, &s.database_name);
    assert(out@ =~= start + ("\tClient Address: "@ + g_s.client_net_address + "\n"@ + "\tLogin Name: "@ + g_s.login_name + "\n"@ + "\tDB Name: "@ + g_s.database_name));
    put(out, "\n");
    assert(out@ =~= start + ("\tClient Address: "@ + g_s.client_net_address + "\n"@ + "\tLogin Name: "@ + g_s.login_name + "\n"@ + "\tDB Name: "@ + g_s.database_name + "\n"@));
    put(out, "\tCommand: ");
    assert(out@ =~= start + ("\tClient Address: "@ + g_s.client_net_address + "\n"@ + "\tLogin Name: "@ + g_s.login_name + "\n"@ + "\tDB Name: "@ + g_s.database_name + "\n"@ + "\tCommand: "@));
    put_text(out, &s.command);
    assert(out@ =~= start + ("\tClient Address: "@ + g_s.client_net_address + "\n"@ + "\tLogin Name: "@ + g_s.login_name + "\n"@ + "\tDB Name: "@ + g_s.database_name + "\n"@ + "\tCommand: "@ + g_s.command));
    put(out, "\n");
    assert(out@ =~= start + ("\tClient Address: "@ + g_s.client_net_address + "\n"@ + "\tLogin Name: "@ + g_s.login_name + "\n"@ + "\tDB Name: "@ + g_s.database_name + "\n"@ + "\tCommand: "@ + g_s.command + "\n"@));
    put(out, "\tStart Time: ");
    assert(out@ =~= start + ("\tClient Address: "@ + g_s.client_net_address + "\n"@ + "\tLogin Name: "@ + g_s.login_name + "\n"@ + "\tDB Name: "@ + g_s.database_name + "\n"@ + "\tCommand: "@ + g_s.command + "\n"@ + "\tStart Time: "@));
    put_text(out, &s.start_time);
    assert(out@ =~= start + ("\tClient Address: "@ + g_s.client_net_address + "\n"@ + "\tLogin Name: "@ + g_s.login_name + "\n"@ + "\tDB Name: "@ + g_s.database_name + "\n"@ + "\tCommand: "@ + g_s.command + "\n"@ + "\tStart Time: "@ + g_s.start_time));
    put(out, "\n");
    assert(out@ =~= start + ("\tClient Address: "@ + g_s.client_net_address + "\n"@ + "\tLogin Name: "@ + g_s.login_name + "\n"@ + "\tDB Name: "@ + g_s.database_name + "\n"@ + "\tCommand: "@ + g_s.command + "\n"@ + "\tStart Time: "@ + g_s.start_time + "\n"@));
    put(out, "\tExecuting SQL: ");
    assert(out@ =~= start + ("\tClient Address: "@ + g_s.client_net_address + "\n"@ + "\tLogin Name: "@ + g_s.login_name + "\n"@ + "\tDB Name: "@ + g_s.database_name + "\n"@ + "\tCommand: "@ + g_s.command + "\n"@ + "\tStart Time: "@ + g_s.start_time + "\n"@ + "\tExecuting SQL: "@));
    put_trimmed(out, &s.executing_sql);
    assert(out@ =~= start + ("\tClient Address: "@ + g_s.client_net_address + "\n"@ + "\tLogin Name: "@ + g_s.login_name + "\n"@ + "\tDB Name: "@ + g_s.database_name + "\n"@ + "\tCommand: "@ + g_s.command + "\n"@ + "\tStart Time: "@ + g_s.start_time + "\n"@ + "\tExecuting SQL: "@ + trim(g_s.executing_sql)));
    put(out, "\n");
    assert(out@ =~= start + ("\tClient Address: "@ + g_s.client_net_address + "\n"@ + "\tLogin Name: "@ + g_s.login_name + "\n"@ + "\tDB Name: "@ + g_s.database_name + "\n"@ + "\tCommand: "@ + g_s.command + "\n"@ + "\tStart Time: "@ + g_s.start_time + "\n"@ + "\tExecuting SQL: "@ + trim(g_s.executing_sql) + "\n"@));
    put(out, "\tParent Batch SQL: ");
    assert(out@ =~= start + ("\tClient Address: "@ + g_s.client_net_address + "\n"@ + "\tLogin Name: "@ + g_s.login_name + "\n"@ + "\tDB Name: "@ + g_s.database_name + "\n"@ + "\tCommand: "@ + g_s.command + "\n"@ + "\tStart Time: "@ + g_s.start_time + "\n"@ + "\tExecuting SQL: "@ + trim(g_s.executing_sql) + "\n"@ + "\tParent Batch SQL: "@));
    put_trimmed(out, &s.parent_batch_sql);
    assert(out@ =~= start + ("\tClient Address: "@ + g_s.client_net_address + "\n"@ + "\tLogin Name: "@ + g_s.login_name + "\n"@ + "\tDB Name: "@ + g_s.database_name + "\n"@ + "\tCommand: "@ + g_s.command + "\n"@ + "\tStart Time: "@ + g_s.start_time + "\n"@ + "\tExecuting SQL: "@ + trim(g_s.executing_sql) + "\n"@ + "\tParent Batch SQL: "@ + trim(g_s.parent_batch_sql)));
    put(out, "\n");
    assert(out@ =~= start + ("\tClient Address: "@ + g_s.client_net_address + "\n"@ + "\tLogin Name: "@ + g_s.login_name + "\n"@ + "\tDB Name: "@ + g_s.database_name + "\n"@ + "\tCommand: "@ + g_s.command + "\n"@ + "\tStart Time: "@ + g_s.start_time + "\n"@ + "\tExecuting SQL: "@ + trim(g_s.executing_sql) + "\n"@ + "\tParent Batch SQL: "@ + trim(g_s.parent_batch_sql) + "\n"@));
    assert(final(out)@ =~= old(out)@ + alert_client_lines(s@));
}

/// The alert log entry for high worker usage: the time, the server, the usage
/// in percent and the active and maximum worker counts.
#[verifier::opaque]
pub open spec fn worker_alert_text(log_time: Seq<char>, server_id: Seq<char>, active_workers: int, max_threads: int, percent: int) -> Seq<char> {
    "["@
        + log_time
        + "] Server: "@
        + server_id
        + " | ALERT! Worker Threads usage is high: "@
        + int_decimal(percent)
        + "% ("@
        + int_decimal(active_workers)
        + " / "@
        + int_decimal(max_threads)
        + ")\n"@
        + separator_line()
        + "\n"@
}

fn put_worker_alert_text(out: &mut Vec<char>, log_time: &str, server_id: &str, active_workers: u32, max_threads: u32, percent: u64)
    ensures
        final(out)@ == old(out)@ + worker_alert_text(log_time@, server_id@, active_workers as int, max_threads as int, percent as int),
{
    proof {
        reveal(worker_alert_text);
    }
    let ghost start = out@;
    let ghost g_log_time = log_time@;
    let ghost g_server_id = server_id@;
    let ghost g_active_workers = active_workers as int;
    let ghost g_max_threads = max_threads as int;
    let ghost g_percent = percent as int;
    put(out, "[");
    put(out, log_time);
    assert(out@ =~= start + ("["@ + g_log_time));
    put(out, "] Server: ");
    assert(out@ =~= start + ("["@ + g_log_time + "] Server: "@));
    put(out, server_id);
    assert(out@ =~= start + ("["@ + g_log_time + "] Server: "@ + g_server_id));
    put(out, " | ALERT! Worker Threads usage is high: ");
    assert(out@ =~= start + ("["@ + g_log_time + "] Server: "@ + g_server_id + " | ALERT! Worker Threads usage is high: "@));
    put_int(out, percent as i128);
    assert(out@ =~= start + ("["@ + g_log_time + "] Server: "@ + g_server_id + " | ALERT! Worker Threads usage is high: "@ + int_decimal(g_percent)));
    put(out, "% (");
    assert(out@ =~= start + ("["@ + g_log_time + "] Server: "@ + g_server_id + " | ALERT! Worker Threads usage is high: "@ + int_decimal(g_percent) + "% ("@));
    put_int(out, active_workers as i128);
    assert(out@ =~= start + ("["@ + g_log_time + "] Server: "@ + g_server_id + " | ALERT! Worker Threads usage is high: "@ + int_decimal(g_percent) + "% ("@ + int_decimal(g_active_workers)));
    put(out, " / ");
    assert(out@ =~= start + ("["@ + g_log_time + "] Server: "@ + g_server_id + " | ALERT! Worker Threads usage is high: "@ + int_decimal(g_percent) + "% ("@ + int_decimal(g_active_workers) + " / "@));
    put_int(out, max_threads as i128);
    assert(out@ =~= start + ("["@ + g_log_time + "] Server: "@ + g_server_id + " | ALERT! Worker Threads usage is high: "@ + int_decimal(g_percent) + "% ("@ + int_decimal(g_active_workers) + " / "@ + int_decimal(g_max_threads)));
    put(out, ")\n");
    assert(out@ =~= start + ("["@ + g_log_time + "] Server: "@ + g_server_id + " | ALERT! Worker Threads usage is high: "@ + int_decimal(g_percent) + "% ("@ + int_decimal(g_active_workers) + " / "@ + int_decimal(g_max_threads) + ")\n"@));
    put(out, "==================================================");
    assert(out@ =~= start + ("["@ + g_log_time + "] Server: "@ + g_server_id + " | ALERT! Worker Threads usage is high: "@ + int_decimal(g_percent) + "% ("@ + int_decimal(g_active_workers) + " / "@ + int_decimal(g_max_threads) + ")\n"@ + separator_line()));
    put(out, "\n");
    assert(out@ =~= start + ("["@ + g_log_time + "] Server: "@ + g_server_id + " | ALERT! Worker Threads usage is high: "@ + int_decimal(g_percent) + "% ("@ + int_decimal(g_active_workers) + " / "@ + int_decimal(g_max_threads) + ")\n"@ + separator_line() + "\n"@));
    assert(final(out)@ =~= old(out)@ + worker_alert_text(log_time@, server_id@, active_workers as int, max_threads as int, percent as int));
}

/// The identity and wait lines of the detail text of a request.
#[verifier::opaque]
pub open spec fn detail_wait_lines(s: SessionView) -> Seq<char> {
    "Capture Time: "@
        + s.capture_time
        + "\nSPID: "@
        + int_decimal(s.session_id)
        + "\nElapsed Time: "@
        + int_decimal(s.elapsed_time_ms)
        + " ms\nStatus: "@
        + s.status
        + "\nWait Type: "@
        + s.wait_type
        + " ("@
        + int_decimal(s.wait_time_ms)
        + " ms)\nLast Wait Type: "@
        + s.last_wait_type
        + "\nWait Resource: "@
        + s.wait_resource
        + "\nWait Session ID (Blocking): "@
        + int_decimal(s.wait_session_id)
}

fn put_detail_wait_lines(out: &mut Vec<char>, s: &SessionData)
    ensures
        final(out)@ == old(out)@ + detail_wait_lines(s@),
{
    proof {
        reveal(detail_wait_lines);
    }
    let ghost start = out@;
    let ghost g_s = s@;
    put(out, "Capture Time: ");
    put_text(out, &s.capture_time);
    assert(out@ =~= start + ("Capture Time: "@ + g_s.capture_time));
    put(out, "\nSPID: ");
    assert(out@ =~= start + ("Capture Time: "@ + g_s.capture_time + "\nSPID: "@));
    put_int(out, s.session_id as i128);
    assert(out@ =~= start + ("Capture Time: "@ + g_s.capture_time + "\nSPID: "@ + int_decimal(g_s.session_id)));
    put(out, "\nElapsed Time: ");
    assert(out@ =~= start + ("Capture Time: "@ + g_s.capture_time + "\nSPID: "@ + int_decimal(g_s.session_id) + "\nElapsed Time: "@));
    put_int(out, s.elapsed_time_ms as i128);
    assert(out@ =~= start + ("Capture Time: "@ + g_s.capture_time + "\nSPID: "@ + int_decimal(g_s.session_id) + "\nElapsed Time: "@ + int_decimal(g_s.elapsed_time_ms)));
    put(out, " ms\nStatus: ");
    assert(out@ =~= start + ("Capture Time: "@ + g_s.capture_time + "\nSPID: "@ + int_decimal(g_s.session_id) + "\nElapsed Time: "@ + int_decimal(g_s.elapsed_time_ms) + " ms\nStatus: "@));
    put_text(out, &s.status);
    assert(out@ =~= start + ("Capture Time: "@ + g_s.capture_time + "\nSPID: "@ + int_decimal(g_s.session_id) + "\nElapsed Time: "@ + int_decimal(g_s.elapsed_time_ms) + " ms\nStatus: "@ + g_s.status));
    put(out, "\nWait Type: ");
    assert(out@ =~= start + ("Capture Time: "@ + g_s.capture_time + "\nSPID: "@ + int_decimal(g_s.session_id) + "\nElapsed Time: "@ + int_decimal(g_s.elapsed_time_ms) + " ms\nStatus: "@ + g_s.status + "\nWait Type: "@));
    put_text(out, &s.wait_type);
    assert(out@ =~= start + ("Capture Time: "@ + g_s.capture_time + "\nSPID: "@ + int_decimal(g_s.session_id) + "\nElapsed Time: "@ + int_decimal(g_s.elapsed_time_ms) + " ms\nStatus: "@ + g_s.status + "\nWait Type: "@ + g_s.wait_type));
    put(out, " (");
    assert(out@ =~= start + ("Capture Time: "@ + g_s.capture_time + "\nSPID: "@ + int_decimal(g_s.session_id) + "\nElapsed Time: "@ + int_decimal(g_s.elapsed_time_ms) + " ms\nStatus: "@ + g_s.status + "\nWait Type: "@ + g_s.wait_type + " ("@));
    put_int(out, s.wait_time_ms as i128);
    assert(out@ =~= start + ("Capture Time: "@ + g_s.capture_time + "\nSPID: "@ + int_decimal(g_s.session_id) + "\nElapsed Time: "@ + int_decimal(g_s.elapsed_time_ms) + " ms\nStatus: "@ + g_s.status + "\nWait Type: "@ + g_s.wait_type + " ("@ + int_decimal(g_s.wait_time_ms)));
    put(out, " ms)\nLast Wait Type: ");
    assert(out@ =~= start + ("Capture Time: "@ + g_s.capture_time + "\nSPID: "@ + int_decimal(g_s.session_id) + "\nElapsed Time: "@ + int_decimal(g_s.elapsed_time_ms) + " ms\nStatus: "@ + g_s.status + "\nWait Type: "@ + g_s.wait_type + " ("@ + int_decimal(g_s.wait_time_ms) + " ms)\nLast Wait Type: "@));
    put_text(out, &s.last_wait_type);
    assert(out@ =~= start + ("Capture Time: "@ + g_s.capture_time + "\nSPID: "@ + int_decimal(g_s.session_id) + "\nElapsed Time: "@ + int_decimal(g_s.elapsed_time_ms) + " ms\nStatus: "@ + g_s.status + "\nWait Type: "@ + g_s.wait_type + " ("@ + int_decimal(g_s.wait_time_ms) + " ms)\nLast Wait Type: "@ + g_s.last_wait_type));
    put(out, "\nWait Resource: ");
    assert(out@ =~= start + ("Capture Time: "@ + g_s.capture_time + "\nSPID: "@ + int_decimal(g_s.session_id) + "\nElapsed Time: "@ + int_decimal(g_s.elapsed_time_ms) + " ms\nStatus: "@ + g_s.status + "\nWait Type: "@ + g_s.wait_type + " ("@ + int_decimal(g_s.wait_time_ms) + " ms)\nLast Wait Type: "@ + g_s.last_wait_type + "\nWait Resource: "@));
    put_text(out, &s.wait_resource);
    assert(out@ =~= start + ("Capture Time: "@ + g_s.capture_time + "\nSPID: "@ + int_decimal(g_s.session_id) + "\nElapsed Time: "@ + int_decimal(g_s.elapsed_time_ms) + " ms\nStatus: "@ + g_s.status + "\nWait Type: "@ + g_s.wait_type + " ("@ + int_decimal(g_s.wait_time_ms) + " ms)\nLast Wait Type: "@ + g_s.last_wait_type + "\nWait Resource: "@ + g_s.wait_resource));
    put(out, "\nWait Session ID (Blocking): ");
    assert(out@ =~= start + ("Capture Time: "@ + g_s.capture_time + "\nSPID: "@ + int_decimal(g_s.session_id) + "\nElapsed Time: "@ + int_decimal(g_s.elapsed_time_ms) + " ms\nStatus: "@ + g_s.status + "\nWait Type: "@ + g_s.wait_type + " ("@ + int_decimal(g_s.wait_time_ms) + " ms)\nLast Wait Type: "@ + g_s.last_wait_type + "\nWait Resource: "@ + g_s.wait_resource + "\nWait Session ID (Blocking): "@));
    put_int(out, s.wait_session_id as i128);
    assert(out@ =~= start + ("Capture Time: "@ + g_s.capture_time + "\nSPID: "@ + int_decimal(g_s.session_id) + "\nElapsed Time: "@ + int_decimal(g_s.elapsed_time_ms) + " ms\nStatus: "@ + g_s.status + "\nWait Type: "@ + g_s.wait_type + " ("@ + int_decimal(g_s.wait_time_ms) + " ms)\nLast Wait Type: "@ + g_s.last_wait_type + "\nWait Resource: "@ + g_s.wait_resource + "\nWait Session ID (Blocking): "@ + int_decimal(g_s.wait_session_id)));
    assert(final(out)@ =~= old(out)@ + detail_wait_lines(s@));
}

/// The resource-use lines of the detail text of a request.
#[verifier::opaque]
pub open spec fn detail_io_lines(s: SessionView) -> Seq<char> {
    "\nCPU Time: "@
        + int_decimal(s.cpu_time_ms)
        + " ms\nLogical Reads: "@
        + int_decimal(s.logical_reads)
        + "\nPhysical Reads: "@
        + int_decimal(s.physical_reads)
        + "\nWrites: "@
        + int_decimal(s.writes)
        + "\nRow Count: "@
        + int_decimal(s.row_count)
        + "\nOpen Trans: "@
        + int_decimal(s.open_transaction_count)
        + "\nDOP: "@
        + int_decimal(s.dop)
}

fn put_detail_io_lines(out: &mut Vec<char>, s: &SessionData)
    ensures
        final(out)@ == old(out)@ + detail_io_lines(s@),
{
    proof {
        reveal(detail_io_lines);
    }
    let ghost start = out@;
    let ghost g_s = s@;
    put(out, "\nCPU Time: ");
    put_int(out, s.cpu_time_ms as i128);
    assert(out@ =~= start + ("\nCPU Time: "@ + int_decimal(g_s.cpu_time_ms)));
    put(out, " ms\nLogical Reads: ");
    assert(out@ =~= start + ("\nCPU Time: "@ + int_decimal(g_s.cpu_time_ms) + " ms\nLogical Reads: "@));
    put_int(out, s.logical_reads as i128);
    assert(out@ =~= start + ("\nCPU Time: "@ + int_decimal(g_s.cpu_time_ms) + " ms\nLogical Reads: "@ + int_decimal(g_s.logical_reads)));
    put(out, "\nPhysical Reads: ");
    assert(out@ =~= start + ("\nCPU Time: "@ + int_decimal(g_s.cpu_time_ms) + " ms\nLogical Reads: "@ + int_decimal(g_s.logical_reads) + "\nPhysical Reads: "@));
    put_int(out, s.physical_reads as i128);
    assert(out@ =~= start + ("\nCPU Time: "@ + int_decimal(g_s.cpu_time_ms) + " ms\nLogical Reads: "@ + int_decimal(g_s.logical_reads) + "\nPhysical Reads: "@ + int_decimal(g_s.physical_reads)));
    put(out, "\nWrites: ");
    assert(out@ =~= start + ("\nCPU Time: "@ + int_decimal(g_s.cpu_time_ms) + " ms\nLogical Reads: "@ + int_decimal(g_s.logical_reads) + "\nPhysical Reads: "@ + int_decimal(g_s.physical_reads) + "\nWrites: "@));
    put_int(out, s.writes as i128);
    assert(out@ =~= start + ("\nCPU Time: "@ + int_decimal(g_s.cpu_time_ms) + " ms\nLogical Reads: "@ + int_decimal(g_s.logical_reads) + "\nPhysical Reads: "@ + int_decimal(g_s.physical_reads) + "\nWrites: "@ + int_decimal(g_s.writes)));
    put(out, "\nRow Count: ");
    assert(out@ =~= start + ("\nCPU Time: "@ + int_decimal(g_s.cpu_time_ms) + " ms\nLogical Reads: "@ + int_decimal(g_s.logical_reads) + "\nPhysical Reads: "@ + int_decimal(g_s.physical_reads) + "\nWrites: "@ + int_decimal(g_s.writes) + "\nRow Count: "@));
    put_int(out, s.row_count as i128);
    assert(out@ =~= start + ("\nCPU Time: "@ + int_decimal(g_s.cpu_time_ms) + " ms\nLogical Reads: "@ + int_decimal(g_s.logical_reads) + "\nPhysical Reads: "@ + int_decimal(g_s.physical_reads) + "\nWrites: "@ + int_decimal(g_s.writes) + "\nRow Count: "@ + int_decimal(g_s.row_count)));
    put(out, "\nOpen Trans: ");
    assert(out@ =~= start + ("\nCPU Time: "@ + int_decimal(g_s.cpu_time_ms) + " ms\nLogical Reads: "@ + int_decimal(g_s.logical_reads) + "\nPhysical Reads: "@ + int_decimal(g_s.physical_reads) + "\nWrites: "@ + int_decimal(g_s.writes) + "\nRow Count: "@ + int_decimal(g_s.row_count) + "\nOpen Trans: "@));
    put_int(out, s.open_transaction_count as i128);
    assert(out@ =~= start + ("\nCPU Time: "@ + int_decimal(g_s.cpu_time_ms) + " ms\nLogical Reads: "@ + int_decimal(g_s.logical_reads) + "\nPhysical Reads: "@ + int_decimal(g_s.physical_reads) + "\nWrites: "@ + int_decimal(g_s.writes) + "\nRow Count: "@ + int_decimal(g_s.row_count) + "\nOpen Trans: "@ + int_decimal(g_s.open_transaction_count)));
    put(out, "\nDOP: ");
    assert(out@ =~= start + ("\nCPU Time: "@ + int_decimal(g_s.cpu_time_ms) + " ms\nLogical Reads: "@ + int_decimal(g_s.logical_reads) + "\nPhysical Reads: "@ + int_decimal(g_s.physical_reads) + "\nWrites: "@ + int_decimal(g_s.writes) + "\nRow Count: "@ + int_decimal(g_s.row_count) + "\nOpen Trans: "@ + int_decimal(g_s.open_transaction_count) + "\nDOP: "@));
    put_int(out, s.dop as i128);
    assert(out@ =~= start + ("\nCPU Time: "@ + int_decimal(g_s.cpu_time_ms) + " ms\nLogical Reads: "@ + int_decimal(g_s.logical_reads) + "\nPhysical Reads: "@ + int_decimal(g_s.physical_reads) + "\nWrites: "@ + int_decimal(g_s.writes) + "\nRow Count: "@ + int_decimal(g_s.row_count) + "\nOpen Trans: "@ + int_decimal(g_s.open_transaction_count) + "\nDOP: "@ + int_decimal(g_s.dop)));
    assert(final(out)@ =~= old(out)@ + detail_io_lines(s@));
}

/// The client, command and SQL parts of the detail text of a request.
#[verifier::opaque]
pub open spec fn detail_client_lines(s: SessionView) -> Seq<char> {
    "\nClient Address: "@
        + s.client_net_address
        + "\nLogin Name: "@
        + s.login_name
        + "\nDB Name: "@
        + s.database_name
        + "\nCommand: "@
        + s.command
        + "\nStart Time: "@
        + s.start_time
        + "\n\n--- Executing SQL ---\n"@
        + trim(s.executing_sql)
        + "\n\n--- Parent Batch SQL ---\n"@
        + trim(s.parent_batch_sql)
}

fn put_detail_client_lines(out: &mut Vec<char>, s: &SessionData)
    ensures
        final(out)@ == old(out)@ + detail_client_lines(s@),
{
    proof {
        reveal(detail_client_lines);
    }
    let ghost start = out@;
    let ghost g_s = s@;
    put(out, "\nClient Address: ");
    put_text(out, &s.client_net_address);
    assert(out@ =~= start + ("\nClient Address: "@ + g_s.client_net_address));
    put(out, "\nLogin Name: ");
    assert(out@ =~= start + ("\nClient Address: "@ + g_s.client_net_address + "\nLogin Name: "@));
    put_text(out, &s.login_name);
    assert(out@ =~= start + ("\nClient Address: "@ + g_s.client_net_address + "\nLogin Name: "@ + g_s.login_name));
    put(out, "\nDB Name: ");
    assert(out@ =~= start + ("\nClient Address: "@ + g_s.client_net_address + "\nLogin Name: "@ + g_s.login_name + "\nDB Name: "@));
    put_text(out, &s.database_name);
    assert(out@ =~= start + ("\nClient Address: "@ + g_s.client_net_address + "\nLogin Name: "@ + g_s.login_name + "\nDB Name: "@ + g_s.database_name));
    put(out, "\nCommand: ");
    assert(out@ =~= start + ("\nClient Address: "@ + g_s.client_net_address + "\nLogin Name: "@ + g_s.login_name + "\nDB Name: "@ + g_s.database_name + "\nCommand: "@));
    put_text(out, &s.command);
    assert(out@ =~= start + ("\nClient Address: "@ + g_s.client_net_address + "\nLogin Name: "@ + g_s.login_name + "\nDB Name: "@ + g_s.database_name + "\nCommand: "@ + g_s.command));
    put(out, "\nStart Time: ");
    assert(out@ =~= start + ("\nClient Address: "@ + g_s.client_net_address + "\nLogin Name: "@ + g_s.login_name + "\nDB Name: "@ + g_s.database_name + "\nCommand: "@ + g_s.command + "\nStart Time: "@));
    put_text(out, &s.start_time);
    assert(out@ =~= start + ("\nClient Address: "@ + g_s.client_net_address + "\nLogin Name: "@ + g_s.login_name + "\nDB Name: "@ + g_s.database_name + "\nCommand: "@ + g_s.command + "\nStart Time: "@ + g_s.start_time));
    put(out, "\n\n--- Executing SQL ---\n");
    assert(out@ =~= start + ("\nClient Address: "@ + g_s.client_net_address + "\nLogin Name: "@ + g_s.login_name + "\nDB Name: "@ + g_s.database_name + "\nCommand: "@ + g_s.command + "\nStart Time: "@ + g_s.start_time + "\n\n--- Executing SQL ---\n"@));
    put_trimmed(out, &s.executing_sql);
    assert(out@ =~= start + ("\nClient Address: "@ + g_s.client_net_address + "\nLogin Name: "@ + g_s.login_name + "\nDB Name: "@ + g_s.database_name + "\nCommand: "@ + g_s.command + "\nStart Time: "@ + g_s.start_time + "\n\n--- Executing SQL ---\n"@ + trim(g_s.executing_sql)));
    put(out, "\n\n--- Parent Batch SQL ---\n");
    assert(out@ =~= start + ("\nClient Address: "@ + g_s.client_net_address + "\nLogin Name: "@ + g_s.login_name + "\nDB Name: "@ + g_s.database_name + "\nCommand: "@ + g_s.command + "\nStart Time: "@ + g_s.start_time + "\n\n--- Executing SQL ---\n"@ + trim(g_s.executing_sql) + "\n\n--- Parent Batch SQL ---\n"@));
    put_trimmed(out, &s.parent_batch_sql);
    assert(out@ =~= start + ("\nClient Address: "@ + g_s.client_net_address + "\nLogin Name: "@ + g_s.login_name + "\nDB Name: "@ + g_s.database_name + "\nCommand: "@ + g_s.command + "\nStart Time: "@ + g_s.start_time + "\n\n--- Executing SQL ---\n"@ + trim(g_s.executing_sql) + "\n\n--- Parent Batch SQL ---\n"@ + trim(g_s.parent_batch_sql)));
    assert(final(out)@ =~= old(out)@ + detail_client_lines(s@));
}


/// The blocks of the snapshot log for the captured sessions, numbered from 1.
pub open spec fn sessions_text(ss: Seq<SessionView>) -> Seq<char>
    decreases ss.len(),
{
    if ss.len() == 0 {
        seq![]
    } else {
        sessions_text(ss.drop_last()) + session_block_text(ss.len() as int, ss.last())
    }
}

fn put_sessions(out: &mut Vec<char>, sessions: &Vec<SessionData>)
    ensures
        final(out)@ == old(out)@ + sessions_text(sessions@.map_values(|s: SessionData| s@)),
{
    let ghost all = sessions@.map_values(|s: SessionData| s@);
    let mut i: usize = 0;
    assert(all.take(0) =~= Seq::<SessionView>::empty());
    assert(old(out)@ + sessions_text(all.take(0)) =~= old(out)@);
    while i < sessions.len()
        invariant
            i <= sessions@.len(),
            all == sessions@.map_values(|s: SessionData| s@),
            out@ == old(out)@ + sessions_text(all.take(i as int)),
        decreases sessions.len() - i,
    {
        let ghost before = out@;
        put_session_block(out, i + 1, &sessions[i]);
        assert(all.take(i + 1).drop_last() =~= all.take(i as int));
        assert(out@ =~= old(out)@ + sessions_text(all.take(i + 1)));
        i += 1;
    }
    assert(all.take(sessions@.len() as int) =~= all);
}

/// The snapshot log block for a dashboard of server `server_id`: the header, the
/// worker usage and counters, then one block per captured session (or a note
/// that none was captured), closed by a separator line.
pub open spec fn snapshot_log_text(server_id: Seq<char>, d: DashboardView) -> Seq<char> {
    snapshot_header(server_id, d) + snapshot_workers(d) + snapshot_counters(d)
        + snapshot_activity(d) + dash_line() + "\n"@
        + "Captured Sessions Details:\n\n"@ + (if d.sessions.len() == 0 {
        "No sessions captured under current filter criteria.\n"@
    } else {
        sessions_text(d.sessions)
    }) + separator_line() + "\n\n"@
}

/// The snapshot log block for `data`, captured from server `server_id`.
pub fn snapshot_log(server_id: &str, data: &DashboardData) -> (r: String)
    ensures
        r@ == snapshot_log_text(server_id@, data@),
        snapshot_log_labels(server_id@, data@, r@),
{
    proof {
        law_snapshot_log_labels(server_id@, data@);
    }
    let mut out: Vec<char> = Vec::new();
    put_snapshot_header(&mut out, server_id, data);
    put_snapshot_workers(&mut out, data);
    put_snapshot_counters(&mut out, data);
    put_snapshot_activity(&mut out, data);
    put(&mut out, "--------------------------------------------------");
    put(&mut out, "\n");
    put(&mut out, "Captured Sessions Details:\n\n");
    if data.sessions.len() == 0 {
        put(&mut out, "No sessions captured under current filter criteria.\n");
    } else {
        put_sessions(&mut out, &data.sessions);
    }
    put(&mut out, "==================================================");
    put(&mut out, "\n\n");
    assert(out@ =~= snapshot_log_text(server_id@, data@));
    string_of(out.as_slice())
}

/// The alert log entry for a request whose elapsed time crossed the alert
/// threshold: a header line with the time, server, request and elapsed time,
/// one tab-indented line per detail, and a separator line.
pub open spec fn alert_log_text(log_time: Seq<char>, server_id: Seq<char>, s: SessionView) -> Seq<char> {
    alert_head(log_time, server_id, s) + alert_wait_lines(s) + alert_cpu_lines(s)
        + alert_write_lines(s) + alert_client_lines(s)
        + separator_line() + "\n"@
}

/// The alert log entry for `session` on server `server_id`, logged at `log_time`.
pub fn alert_log_entry(log_time: &str, server_id: &str, session: &SessionData) -> (r: String)
    ensures
        r@ == alert_log_text(log_time@, server_id@, session@),
        alert_entry_labels(log_time@, server_id@, session@, r@),
{
    proof {
        law_alert_entry_labels(log_time@, server_id@, session@);
    }
    let mut out: Vec<char> = Vec::new();
    put_alert_head(&mut out, log_time, server_id, session);
    put_alert_wait_lines(&mut out, session);
    put_alert_cpu_lines(&mut out, session);
    put_alert_write_lines(&mut out, session);
    put_alert_client_lines(&mut out, session);
    put(&mut out, "==================================================");
    put(&mut out, "\n");
    assert(out@ =~= alert_log_text(log_time@, server_id@, session@));
    string_of(out.as_slice())
}

/// The alert log entry for high worker usage on server `server_id`.
pub fn worker_alert_log_entry(
    log_time: &str,
    server_id: &str,
    active_workers: u32,
    max_threads: u32,
    percent: u64,
) -> (r: String)
    ensures
        r@ == worker_alert_text(
            log_time@,
            server_id@,
            active_workers as int,
            max_threads as int,
            percent as int,
        ),
        worker_entry_labels(
            log_time@,
            server_id@,
            active_workers as int,
            max_threads as int,
            percent as int,
            r@,
        ),
{
    proof {
        law_worker_entry_labels(log_time@, server_id@, active_workers as int, max_threads as int, percent as int);
    }
    let mut out: Vec<char> = Vec::new();
    put_worker_alert_text(&mut out, log_time, server_id, active_workers, max_threads, percent);
    assert(out@ =~= worker_alert_text(
        log_time@,
        server_id@,
        active_workers as int,
        max_threads as int,
        percent as int,
    ));
    string_of(out.as_slice())
}

/// The detail text of a request that the user can copy: one labelled line per
/// field, then the executing statement and its batch, trimmed.
pub open spec fn session_detail_text(s: SessionView) -> Seq<char> {
    detail_wait_lines(s) + detail_io_lines(s) + detail_client_lines(s)
}

/// The detail text of `session`.
pub fn session_detail(session: &SessionData) -> (r: String)
    ensures
        r@ == session_detail_text(session@),
        session_detail_labels(session@, r@),
{
    proof {
        law_session_detail_labels(session@);
    }
    let mut out: Vec<char> = Vec::new();
    put_detail_wait_lines(&mut out, session);
    put_detail_io_lines(&mut out, session);
    put_detail_client_lines(&mut out, session);
    assert(out@ =~= session_detail_text(session@));
    string_of(out.as_slice())
}

/// `sql` on one line: line feeds become spaces and carriage returns are dropped.
pub open spec fn single_line(sql: Seq<char>) -> Seq<char> {
    replace(replace(sql, seq!['\n'], seq![' ']), seq!['\r'], seq![])
}

/// `sql` on one line, as the request tables show it.
pub fn single_line_sql(sql: &str) -> (r: String)
    ensures
        r@ == single_line(sql@),
{
    let v = chars_of(sql);
    let nl = ['\n'];
    let sp = [' '];
    let cr = ['\r'];
    let none: Vec<char> = Vec::new();
    let a = replace_all(v.as_slice(), nl.as_slice(), sp.as_slice());
    let b = replace_all(a.as_slice(), cr.as_slice(), none.as_slice());
    assert(nl@ =~= seq!['\n']);
    assert(sp@ =~= seq![' ']);
    assert(cr@ =~= seq!['\r']);
    assert(none@ =~= Seq::<char>::empty());
    string_of(b.as_slice())
}

} // verus!
