//! One poll of a server: the decisions of the polling task (case by case, from
//! what happened to what it does next) and the assembly of a dashboard from the
//! rows of its three queries.
use vstd::prelude::*;
use crate::model::{DashboardData, DashboardView, ServerController, SessionData, SessionView};
use crate::text::{
    chars_of, eq_ignore_ascii_case, equal_ignore_ascii_case, string_of, trim, trimmed,
};

verus! {

// ---------------------------------------------------------------------------
// The polling task
// ---------------------------------------------------------------------------

/// What the polling task knows between steps: whether it holds an open
/// connection.
#[derive(Clone, Copy, Debug, PartialEq, Eq, Structural)]
pub struct PollState {
    pub connected: bool,
}

/// What just happened to the polling task.
#[derive(Clone, Copy, Debug, PartialEq, Eq, Structural)]
pub enum PollEvent {
    /// The start of a round (after a wait); `paused` is the user's pause switch.
    Tick { paused: bool },
    /// A connection attempt ended; `ok` when the server accepted the login.
    Connected { ok: bool },
    /// The worker query was sent; `ok` unless sending it failed.
    WorkersQueried { ok: bool },
    /// The counter query was sent; `ok` unless sending it failed.
    CountersQueried { ok: bool },
    /// The session query was sent; `ok` unless sending it failed.
    SessionsQueried { ok: bool },
}

/// What the polling task does next.
#[derive(Clone, Copy, Debug, PartialEq, Eq, Structural)]
pub enum PollAction {
    /// Wait this many milliseconds, then start a round.
    WaitMillis { millis: u64 },
    /// Wait this many seconds, then start a round.
    WaitSeconds { secs: u64 },
    /// Open a connection and log in.
    Connect,
    /// Run the worker query.
    QueryWorkers,
    /// Run the counter query.
    QueryCounters,
    /// Run the session query.
    QuerySessions,
    /// Send the assembled dashboard, then wait this many seconds.
    PublishThenWait { secs: u64 },
    /// Drop the connection and the partial dashboard, then wait this many seconds.
    DisconnectThenWait { secs: u64 },
}

/// How long a paused task waits before it looks at the pause switch again.
pub open spec fn pause_wait_millis() -> u64 {
    500
}

/// The task's next state and action after `event`, with `interval_sec` the
/// poll interval the user has set.
pub open spec fn poll_transition(state: PollState, event: PollEvent, interval_sec: u64) -> (
    PollState,
    PollAction,
) {
    match event {
        PollEvent::Tick { paused } => if paused {
            (state, PollAction::WaitMillis { millis: pause_wait_millis() })
        } else if !state.connected {
            (state, PollAction::Connect)
        } else {
            (state, PollAction::QueryWorkers)
        },
        PollEvent::Connected { ok } => if ok {
            (PollState { connected: true }, PollAction::QueryWorkers)
        } else {
            (PollState { connected: false }, PollAction::WaitSeconds { secs: interval_sec })
        },
        PollEvent::WorkersQueried { ok } => if ok {
            (state, PollAction::QueryCounters)
        } else {
            (PollState { connected: false }, PollAction::DisconnectThenWait { secs: interval_sec })
        },
        PollEvent::CountersQueried { ok } => if ok {
            (state, PollAction::QuerySessions)
        } else {
            (PollState { connected: false }, PollAction::DisconnectThenWait { secs: interval_sec })
        },
        PollEvent::SessionsQueried { ok } => if ok {
            (state, PollAction::PublishThenWait { secs: interval_sec })
        } else {
            (PollState { connected: false }, PollAction::DisconnectThenWait { secs: interval_sec })
        },
    }
}

/// Takes one step of the polling task.
pub fn poll_step(state: &mut PollState, event: PollEvent, interval_sec: u64) -> (action: PollAction)
    ensures
        (*final(state), action) == poll_transition(*old(state), event, interval_sec),
{
    match event {
        PollEvent::Tick { paused } => {
            if paused {
                PollAction::WaitMillis { millis: 500 }
            } else if !state.connected {
                PollAction::Connect
            } else {
                PollAction::QueryWorkers
            }
        },
        PollEvent::Connected { ok } => {
            state.connected = ok;
            if ok {
                PollAction::QueryWorkers
            } else {
                PollAction::WaitSeconds { secs: interval_sec }
            }
        },
        PollEvent::WorkersQueried { ok } => {
            if ok {
                PollAction::QueryCounters
            } else {
                state.connected = false;
                PollAction::DisconnectThenWait { secs: interval_sec }
            }
        },
        PollEvent::CountersQueried { ok } => {
            if ok {
                PollAction::QuerySessions
            } else {
                state.connected = false;
                PollAction::DisconnectThenWait { secs: interval_sec }
            }
        },
        PollEvent::SessionsQueried { ok } => {
            if ok {
                PollAction::PublishThenWait { secs: interval_sec }
            } else {
                state.connected = false;
                PollAction::DisconnectThenWait { secs: interval_sec }
            }
        },
    }
}

/// A paused task only waits half a second and looks again; it keeps its
/// connection and does nothing else.
pub proof fn law_paused_task_waits(state: PollState, interval_sec: u64)
    ensures
        poll_transition(state, PollEvent::Tick { paused: true }, interval_sec) == (
            state,
            PollAction::WaitMillis { millis: 500 },
        ),
{
}

/// A failed query drops the connection and waits the poll interval; the next
/// round that is not paused connects again.
pub proof fn law_failed_query_reconnects(state: PollState, event: PollEvent, interval_sec: u64)
    requires
        event == (PollEvent::WorkersQueried { ok: false }) || event == (PollEvent::CountersQueried { ok: false })
            || event == (PollEvent::SessionsQueried { ok: false }),
    ensures
        ({
            let (next, action) = poll_transition(state, event, interval_sec);
            &&& !next.connected
            &&& action == PollAction::DisconnectThenWait { secs: interval_sec }
            &&& poll_transition(next, PollEvent::Tick { paused: false }, interval_sec) == (
                next,
                PollAction::Connect,
            )
        }),
{
}

/// A failed login leaves the task unconnected; it waits the poll interval and
/// then tries again.
pub proof fn law_failed_login_retries(state: PollState, interval_sec: u64)
    ensures
        ({
            let (next, action) = poll_transition(state, PollEvent::Connected { ok: false }, interval_sec);
            &&& !next.connected
            &&& action == PollAction::WaitSeconds { secs: interval_sec }
            &&& poll_transition(next, PollEvent::Tick { paused: false }, interval_sec).1 == PollAction::Connect
        }),
{
}

/// A round in which every query succeeds runs the three queries in order and
/// publishes the dashboard, keeping the connection for the next round.
pub proof fn law_successful_round_publishes(interval_sec: u64)
    ensures
        ({
            let s = PollState { connected: true };
            &&& poll_transition(s, PollEvent::Tick { paused: false }, interval_sec) == (s, PollAction::QueryWorkers)
            &&& poll_transition(s, PollEvent::WorkersQueried { ok: true }, interval_sec) == (
                s,
                PollAction::QueryCounters,
            )
            &&& poll_transition(s, PollEvent::CountersQueried { ok: true }, interval_sec) == (
                s,
                PollAction::QuerySessions,
            )
            &&& poll_transition(s, PollEvent::SessionsQueried { ok: true }, interval_sec) == (
                s,
                PollAction::PublishThenWait { secs: interval_sec },
            )
        }),
{
}

// ---------------------------------------------------------------------------
// Query rows, as read from the server
// ---------------------------------------------------------------------------

/// The row of the worker query; a column that is missing, NULL or of another
/// type is `None`.
pub struct WorkerRow {
    pub max_threads: Option<i32>,
    pub active_workers: Option<i32>,
    pub workers_percent: Option<String>,
}

/// One row of the counter query.
pub struct CounterRow {
    pub counter_name: Option<String>,
    pub cntr_value: Option<i64>,
}

/// One row of the session query, one request running on the server.
pub struct SessionRow {
    pub session_id: Option<i16>,
    pub total_elapsed_time: Option<i32>,
    pub status: Option<String>,
    pub wait_type: Option<String>,
    pub wait_time: Option<i64>,
    pub last_wait_type: Option<String>,
    pub wait_resource: Option<String>,
    pub blocking_session_id: Option<i16>,
    pub executing_sql: Option<String>,
    pub parent_batch_sql: Option<String>,
    pub cpu_time: Option<i32>,
    pub logical_reads: Option<i64>,
    pub reads: Option<i64>,
    pub writes: Option<i64>,
    pub row_count: Option<i64>,
    pub open_transaction_count: Option<i32>,
    pub dop: Option<i16>,
    pub client_net_address: Option<String>,
    pub login_name: Option<String>,
    pub database_name: Option<String>,
    pub command: Option<String>,
    pub start_time: Option<String>,
}

/// The text of a column, empty when it is absent.
pub open spec fn text_or_empty(o: Option<String>) -> Seq<char> {
    match o {
        Some(s) => s@,
        None => seq![],
    }
}

/// The value a missing column takes: zero.
pub open spec fn i16_or_zero(o: Option<i16>) -> int {
    match o {
        Some(v) => v as int,
        None => 0,
    }
}

/// The value a missing column takes: zero.
pub open spec fn i32_or_zero(o: Option<i32>) -> int {
    match o {
        Some(v) => v as int,
        None => 0,
    }
}

/// The value a missing column takes: zero.
pub open spec fn i64_or_zero(o: Option<i64>) -> int {
    match o {
        Some(v) => v as int,
        None => 0,
    }
}

fn owned_text(o: &Option<String>) -> (r: String)
    ensures
        r@ == text_or_empty(*o),
{
    match o {
        Some(s) => s.clone(),
        None => String::new(),
    }
}

fn trimmed_text(o: &Option<String>) -> (r: String)
    ensures
        r@ == trim(text_or_empty(*o)),
{
    let s = owned_text(o);
    let v = chars_of(s.as_str());
    let t = trimmed(v.as_slice());
    string_of(t.as_slice())
}

// ---------------------------------------------------------------------------
// The worker row
// ---------------------------------------------------------------------------

/// The usage text shown when the worker query gave none.
pub open spec fn default_workers_percent() -> Seq<char> {
    "0.00%"@
}

/// Takes the worker counts and the usage text from the worker row: absent
/// counts are 0, and each count is taken as an unsigned 32-bit number, bit for
/// bit; absent text is "0.00%".
pub fn apply_worker_row(d: &mut DashboardData, row: &WorkerRow)
    ensures
        final(d)@ == (DashboardView {
            max_threads: (i32_or_zero(row.max_threads) as i32) as u32 as int,
            active_workers: (i32_or_zero(row.active_workers) as i32) as u32 as int,
            workers_percent: match row.workers_percent {
                Some(s) => s@,
                None => default_workers_percent(),
            },
            ..old(d)@
        }),
{
    let max_threads: i32 = match row.max_threads {
        Some(v) => v,
        None => 0,
    };
    let active: i32 = match row.active_workers {
        Some(v) => v,
        None => 0,
    };
    d.max_threads = max_threads as u32;
    d.active_workers = active as u32;
    d.workers_percent = match &row.workers_percent {
        Some(s) => s.clone(),
        None => String::from_str("0.00%"),
    };
}

/// Whether worker usage `current_percent` crosses the threshold; when it does
/// the dashboard is marked as alerting.
pub fn apply_worker_alert(d: &mut DashboardData, current_percent: u64, threshold: u64) -> (alert: bool)
    ensures
        alert == (current_percent >= threshold),
        final(d)@ == (DashboardView { is_alerting: old(d)@.is_alerting || alert, ..old(d)@ }),
{
    if current_percent >= threshold {
        d.is_alerting = true;
        true
    } else {
        false
    }
}

// ---------------------------------------------------------------------------
// The counter rows
// ---------------------------------------------------------------------------

/// The four counters a dashboard shows.
pub struct Counters {
    pub conn_logical: int,
    pub page_life_expectancy: int,
    pub transactions: int,
    pub active_temp_tables: int,
}

/// The counters after one row: the row's value goes to the counter whose name
/// matches the row's trimmed name up to ASCII case; other rows change nothing.
pub open spec fn counter_step(c: Counters, row: CounterRow) -> Counters {
    let name = trim(text_or_empty(row.counter_name));
    let val = i64_or_zero(row.cntr_value);
    if eq_ignore_ascii_case(name, "Logical connections"@) {
        Counters { conn_logical: val, ..c }
    } else if eq_ignore_ascii_case(name, "Page life expectancy"@) {
        Counters { page_life_expectancy: val, ..c }
    } else if eq_ignore_ascii_case(name, "Transactions"@) {
        Counters { transactions: val, ..c }
    } else if eq_ignore_ascii_case(name, "Active Temp Tables"@) {
        Counters { active_temp_tables: val, ..c }
    } else {
        c
    }
}

/// A counter row whose trimmed name is one of the four counter names, up to
/// ASCII case, sets that counter to the row's value (0 when absent) and leaves
/// the other three; a row that names none of them changes nothing.
pub proof fn law_counter_row_sets_its_counter(c: Counters, row: CounterRow)
    ensures
        ({
            let name = trim(text_or_empty(row.counter_name));
            let v = i64_or_zero(row.cntr_value);
            let after = counter_step(c, row);
            &&& eq_ignore_ascii_case(name, "Logical connections"@) ==> after == (Counters { conn_logical: v, ..c })
            &&& eq_ignore_ascii_case(name, "Page life expectancy"@) ==> after == (Counters { page_life_expectancy: v, ..c })
            &&& eq_ignore_ascii_case(name, "Transactions"@) ==> after == (Counters { transactions: v, ..c })
            &&& eq_ignore_ascii_case(name, "Active Temp Tables"@) ==> after == (Counters { active_temp_tables: v, ..c })
            &&& !eq_ignore_ascii_case(name, "Logical connections"@) && !eq_ignore_ascii_case(name, "Page life expectancy"@)
                && !eq_ignore_ascii_case(name, "Transactions"@) && !eq_ignore_ascii_case(name, "Active Temp Tables"@)
                ==> after == c
        }),
{
    reveal_strlit("Logical connections");
    reveal_strlit("Page life expectancy");
    reveal_strlit("Transactions");
    reveal_strlit("Active Temp Tables");
}

/// The counters after the rows, in order.
pub open spec fn counters_after(c: Counters, rows: Seq<CounterRow>) -> Counters
    decreases rows.len(),
{
    if rows.len() == 0 {
        c
    } else {
        counter_step(counters_after(c, rows.drop_last()), rows.last())
    }
}

/// The counters a dashboard shows.
pub open spec fn counters_of(d: DashboardView) -> Counters {
    Counters {
        conn_logical: d.conn_logical,
        page_life_expectancy: d.page_life_expectancy,
        transactions: d.transactions,
        active_temp_tables: d.active_temp_tables,
    }
}

fn apply_counter_row(d: &mut DashboardData, row: &CounterRow)
    ensures
        counters_of(final(d)@) == counter_step(counters_of(old(d)@), *row),
        final(d)@ == (DashboardView {
            conn_logical: final(d)@.conn_logical,
            page_life_expectancy: final(d)@.page_life_expectancy,
            transactions: final(d)@.transactions,
            active_temp_tables: final(d)@.active_temp_tables,
            ..old(d)@
        }),
{
    let text = owned_text(&row.counter_name);
    let v = chars_of(text.as_str());
    let name = trimmed(v.as_slice());
    let val: i64 = match row.cntr_value {
        Some(x) => x,
        None => 0,
    };
    let logical = chars_of("Logical connections");
    let ple = chars_of("Page life expectancy");
    let trans = chars_of("Transactions");
    let temp = chars_of("Active Temp Tables");
    if equal_ignore_ascii_case(name.as_slice(), logical.as_slice()) {
        d.conn_logical = val;
    } else if equal_ignore_ascii_case(name.as_slice(), ple.as_slice()) {
        d.page_life_expectancy = val;
    } else if equal_ignore_ascii_case(name.as_slice(), trans.as_slice()) {
        d.transactions = val;
    } else if equal_ignore_ascii_case(name.as_slice(), temp.as_slice()) {
        d.active_temp_tables = val;
    }
}

/// Takes the four counters from the counter rows; a later row for the same
/// counter overrides an earlier one, and nothing else of the dashboard changes.
pub fn apply_counter_rows(d: &mut DashboardData, rows: &Vec<CounterRow>)
    ensures
        counters_of(final(d)@) == counters_after(counters_of(old(d)@), rows@),
        final(d)@ == (DashboardView {
            conn_logical: final(d)@.conn_logical,
            page_life_expectancy: final(d)@.page_life_expectancy,
            transactions: final(d)@.transactions,
            active_temp_tables: final(d)@.active_temp_tables,
            ..old(d)@
        }),
{
    let mut i: usize = 0;
    while i < rows.len()
        invariant
            i <= rows@.len(),
            counters_of(d@) == counters_after(counters_of(old(d)@), rows@.take(i as int)),
            d@ == (DashboardView {
                conn_logical: d@.conn_logical,
                page_life_expectancy: d@.page_life_expectancy,
                transactions: d@.transactions,
                active_temp_tables: d@.active_temp_tables,
                ..old(d)@
            }),
        decreases rows.len() - i,
    {
        apply_counter_row(d, &rows[i]);
        assert(rows@.take(i + 1).drop_last() =~= rows@.take(i as int));
        i += 1;
    }
    assert(rows@.take(rows@.len() as int) =~= rows@);
}

// ---------------------------------------------------------------------------
// The session rows
// ---------------------------------------------------------------------------

/// The elapsed time of a row, 0 when absent.
pub open spec fn row_elapsed(row: SessionRow) -> int {
    i32_or_zero(row.total_elapsed_time)
}

/// The session a row describes, captured at `capture_time`: absent numbers are
/// 0 and absent texts empty; the status and the three wait texts are trimmed.
pub open spec fn session_of_row(row: SessionRow, capture_time: Seq<char>) -> SessionView {
    SessionView {
        session_id: i16_or_zero(row.session_id),
        elapsed_time_ms: row_elapsed(row),
        status: trim(text_or_empty(row.status)),
        wait_type: trim(text_or_empty(row.wait_type)),
        wait_time_ms: i64_or_zero(row.wait_time),
        executing_sql: text_or_empty(row.executing_sql),
        wait_session_id: i16_or_zero(row.blocking_session_id),
        last_wait_type: trim(text_or_empty(row.last_wait_type)),
        wait_resource: trim(text_or_empty(row.wait_resource)),
        parent_batch_sql: text_or_empty(row.parent_batch_sql),
        cpu_time_ms: i32_or_zero(row.cpu_time),
        logical_reads: i64_or_zero(row.logical_reads),
        physical_reads: i64_or_zero(row.reads),
        writes: i64_or_zero(row.writes),
        row_count: i64_or_zero(row.row_count),
        open_transaction_count: i32_or_zero(row.open_transaction_count),
        dop: i16_or_zero(row.dop),
        client_net_address: text_or_empty(row.client_net_address),
        login_name: text_or_empty(row.login_name),
        database_name: text_or_empty(row.database_name),
        command: text_or_empty(row.command),
        start_time: text_or_empty(row.start_time),
        capture_time,
    }
}

/// Each field of the session a row describes comes from its own column: the
/// request id from `session_id`, the elapsed time from `total_elapsed_time`,
/// the wait time from `wait_time`, the blocking request from
/// `blocking_session_id`, the CPU time from `cpu_time`, the logical reads from
/// `logical_reads`, the physical reads from `reads`, and so on (0 for an absent
/// number, empty for an absent text); the status and wait texts are trimmed.
pub proof fn law_session_fields_from_columns(row: SessionRow, capture_time: Seq<char>)
    ensures
        session_of_row(row, capture_time).session_id == i16_or_zero(row.session_id),
        session_of_row(row, capture_time).elapsed_time_ms == i32_or_zero(row.total_elapsed_time),
        session_of_row(row, capture_time).wait_time_ms == i64_or_zero(row.wait_time),
        session_of_row(row, capture_time).wait_session_id == i16_or_zero(row.blocking_session_id),
        session_of_row(row, capture_time).cpu_time_ms == i32_or_zero(row.cpu_time),
        session_of_row(row, capture_time).logical_reads == i64_or_zero(row.logical_reads),
        session_of_row(row, capture_time).physical_reads == i64_or_zero(row.reads),
        session_of_row(row, capture_time).writes == i64_or_zero(row.writes),
        session_of_row(row, capture_time).row_count == i64_or_zero(row.row_count),
        session_of_row(row, capture_time).open_transaction_count == i32_or_zero(row.open_transaction_count),
        session_of_row(row, capture_time).dop == i16_or_zero(row.dop),
        session_of_row(row, capture_time).status == trim(text_or_empty(row.status)),
        session_of_row(row, capture_time).wait_type == trim(text_or_empty(row.wait_type)),
        session_of_row(row, capture_time).last_wait_type == trim(text_or_empty(row.last_wait_type)),
        session_of_row(row, capture_time).wait_resource == trim(text_or_empty(row.wait_resource)),
        session_of_row(row, capture_time).executing_sql == text_or_empty(row.executing_sql),
        session_of_row(row, capture_time).parent_batch_sql == text_or_empty(row.parent_batch_sql),
        session_of_row(row, capture_time).client_net_address == text_or_empty(row.client_net_address),
        session_of_row(row, capture_time).login_name == text_or_empty(row.login_name),
        session_of_row(row, capture_time).database_name == text_or_empty(row.database_name),
        session_of_row(row, capture_time).command == text_or_empty(row.command),
        session_of_row(row, capture_time).start_time == text_or_empty(row.start_time),
        session_of_row(row, capture_time).capture_time == capture_time,
{
}

/// The session a row describes.
pub fn session_from_row(row: &SessionRow, capture_time: &String) -> (s: SessionData)
    ensures
        s@ == session_of_row(*row, capture_time@),
        s.session_id as int == i16_or_zero(row.session_id),
        s.elapsed_time_ms as int == i32_or_zero(row.total_elapsed_time),
        s.wait_time_ms as int == i64_or_zero(row.wait_time),
        s.wait_session_id as int == i16_or_zero(row.blocking_session_id),
        s.cpu_time_ms as int == i32_or_zero(row.cpu_time),
        s.logical_reads as int == i64_or_zero(row.logical_reads),
        s.physical_reads as int == i64_or_zero(row.reads),
        s.writes as int == i64_or_zero(row.writes),
        s.row_count as int == i64_or_zero(row.row_count),
        s.open_transaction_count as int == i32_or_zero(row.open_transaction_count),
        s.dop as int == i16_or_zero(row.dop),
        s.status@ == trim(text_or_empty(row.status)),
        s.wait_type@ == trim(text_or_empty(row.wait_type)),
        s.last_wait_type@ == trim(text_or_empty(row.last_wait_type)),
        s.wait_resource@ == trim(text_or_empty(row.wait_resource)),
        s.executing_sql@ == text_or_empty(row.executing_sql),
        s.parent_batch_sql@ == text_or_empty(row.parent_batch_sql),
        s.client_net_address@ == text_or_empty(row.client_net_address),
        s.login_name@ == text_or_empty(row.login_name),
        s.database_name@ == text_or_empty(row.database_name),
        s.command@ == text_or_empty(row.command),
        s.start_time@ == text_or_empty(row.start_time),
        s.capture_time@ == capture_time@,
{
    proof {
        law_session_fields_from_columns(*row, capture_time@);
    }
    SessionData {
        session_id: match row.session_id {
            Some(v) => v,
            None => 0,
        },
        elapsed_time_ms: match row.total_elapsed_time {
            Some(v) => v,
            None => 0,
        },
        status: trimmed_text(&row.status),
        wait_type: trimmed_text(&row.wait_type),
        wait_time_ms: match row.wait_time {
            Some(v) => v,
            None => 0,
        },
        executing_sql: owned_text(&row.executing_sql),
        wait_session_id: match row.blocking_session_id {
            Some(v) => v,
            None => 0,
        },
        last_wait_type: trimmed_text(&row.last_wait_type),
        wait_resource: trimmed_text(&row.wait_resource),
        parent_batch_sql: owned_text(&row.parent_batch_sql),
        cpu_time_ms: match row.cpu_time {
            Some(v) => v,
            None => 0,
        },
        logical_reads: match row.logical_reads {
            Some(v) => v,
            None => 0,
        },
        physical_reads: match row.reads {
            Some(v) => v,
            None => 0,
        },
        writes: match row.writes {
            Some(v) => v,
            None => 0,
        },
        row_count: match row.row_count {
            Some(v) => v,
            None => 0,
        },
        open_transaction_count: match row.open_transaction_count {
            Some(v) => v,
            None => 0,
        },
        dop: match row.dop {
            Some(v) => v,
            None => 0,
        },
        client_net_address: owned_text(&row.client_net_address),
        login_name: owned_text(&row.login_name),
        database_name: owned_text(&row.database_name),
        command: owned_text(&row.command),
        start_time: owned_text(&row.start_time),
        capture_time: capture_time.clone(),
    }
}

/// The sessions the rows describe whose elapsed time reaches `filter`, in order.
pub open spec fn captured_sessions(rows: Seq<SessionRow>, filter: int, capture_time: Seq<char>) -> Seq<
    SessionView,
>
    decreases rows.len(),
{
    if rows.len() == 0 {
        seq![]
    } else {
        let before = captured_sessions(rows.drop_last(), filter, capture_time);
        if row_elapsed(rows.last()) >= filter {
            before.push(session_of_row(rows.last(), capture_time))
        } else {
            before
        }
    }
}

/// The positions, among the captured sessions, of those whose elapsed time
/// also reaches `alert`.
pub open spec fn alert_positions(rows: Seq<SessionRow>, filter: int, alert: int) -> Seq<int>
    decreases rows.len(),
{
    if rows.len() == 0 {
        seq![]
    } else {
        let before = alert_positions(rows.drop_last(), filter, alert);
        let e = row_elapsed(rows.last());
        if e >= filter && e >= alert {
            before.push(captured_sessions(rows.drop_last(), filter, seq![]).len() as int)
        } else {
            before
        }
    }
}

proof fn lemma_captured_len(rows: Seq<SessionRow>, filter: int, a: Seq<char>, b: Seq<char>)
    ensures
        captured_sessions(rows, filter, a).len() == captured_sessions(rows, filter, b).len(),
    decreases rows.len(),
{
    if rows.len() > 0 {
        lemma_captured_len(rows.drop_last(), filter, a, b);
    }
}

/// The captured sessions are exactly the rows whose elapsed time (0 when
/// absent) reaches the filter, kept in their order, each taken as the session
/// it describes.
pub proof fn law_captured_rows_reach_filter(rows: Seq<SessionRow>, filter: int, capture_time: Seq<char>)
    ensures
        captured_sessions(rows, filter, capture_time) == rows.filter(
            |r: SessionRow| i32_or_zero(r.total_elapsed_time) >= filter,
        ).map_values(|r: SessionRow| session_of_row(r, capture_time)),
    decreases rows.len(),
{
    reveal(Seq::filter);
    let pred = |r: SessionRow| i32_or_zero(r.total_elapsed_time) >= filter;
    let f = |r: SessionRow| session_of_row(r, capture_time);
    if rows.len() > 0 {
        law_captured_rows_reach_filter(rows.drop_last(), filter, capture_time);
        let sub = rows.drop_last().filter(pred);
        assert(rows.filter(pred) == if pred(rows.last()) { sub.push(rows.last()) } else { sub });
        assert(sub.push(rows.last()).map_values(f) =~= sub.map_values(f).push(f(rows.last())));
    } else {
        assert(rows.filter(pred).map_values(f) =~= Seq::<SessionView>::empty());
    }
}

/// The alert positions are, in increasing order, exactly the positions among
/// the captured sessions of those whose elapsed time also reaches the alert
/// threshold.
pub proof fn law_alert_positions_reach_alert(rows: Seq<SessionRow>, filter: int, alert: int, capture_time: Seq<char>)
    ensures
        ({
            let c = captured_sessions(rows, filter, capture_time);
            let pos = alert_positions(rows, filter, alert);
            &&& forall|j: int| 0 <= j < pos.len() ==> 0 <= #[trigger] pos[j] < c.len() && c[pos[j]].elapsed_time_ms >= alert
            &&& forall|j1: int, j2: int| 0 <= j1 < j2 < pos.len() ==> #[trigger] pos[j1] < #[trigger] pos[j2]
            &&& forall|k: int| 0 <= k < c.len() && (#[trigger] c[k]).elapsed_time_ms >= alert ==> exists|j: int|
                0 <= j < pos.len() && pos[j] == k
        }),
    decreases rows.len(),
{
    if rows.len() > 0 {
        let pre = rows.drop_last();
        law_alert_positions_reach_alert(pre, filter, alert, capture_time);
        lemma_captured_len(pre, filter, capture_time, seq![]);
        let c0 = captured_sessions(pre, filter, capture_time);
        let p0 = alert_positions(pre, filter, alert);
        let c = captured_sessions(rows, filter, capture_time);
        let pos = alert_positions(rows, filter, alert);
        let e = row_elapsed(rows.last());
        assert forall|k: int| 0 <= k < c.len() && (#[trigger] c[k]).elapsed_time_ms >= alert implies exists|j: int|
            0 <= j < pos.len() && pos[j] == k by {
            if k < c0.len() {
                assert(c[k] == c0[k]);
                let j = choose|j: int| 0 <= j < p0.len() && p0[j] == k;
                assert(pos[j] == p0[j]);
            } else {
                assert(pos[p0.len() as int] == k);
            }
        }
        assert forall|j: int| 0 <= j < pos.len() implies 0 <= #[trigger] pos[j] < c.len() && c[pos[j]].elapsed_time_ms >= alert by {
            if j < p0.len() {
                assert(pos[j] == p0[j]);
                assert(c[p0[j]] == c0[p0[j]]);
            }
        }
        assert forall|j1: int, j2: int| 0 <= j1 < j2 < pos.len() implies #[trigger] pos[j1] < #[trigger] pos[j2] by {
            assert(pos[j1] == p0[j1]);
            if j2 < p0.len() {
                assert(pos[j2] == p0[j2]);
            }
        }
    }
}

/// Takes the session rows: the count of all rows, the sessions whose elapsed
/// time reaches the filter (as a 32-bit number, bit for bit, as the setting is
/// read), appended in order and stamped with the dashboard's capture time, and
/// the alert mark when one of them also reaches the alert threshold. Returns
/// the positions in the dashboard of the sessions that reached the alert
/// threshold, in order, for the alert log.
pub fn apply_session_rows(
    d: &mut DashboardData,
    rows: &Vec<SessionRow>,
    settings: &ServerController,
) -> (alerts: Vec<usize>)
    ensures
        ({
            let filter = (settings.filter_elapsed_ms as i32) as int;
            let alert = (settings.alert_elapsed_ms as i32) as int;
            let base = old(d)@.sessions.len() as int;
            &&& final(d)@ == (DashboardView {
                sessions: old(d)@.sessions + captured_sessions(rows@, filter, old(d)@.capture_time),
                raw_session_count: rows@.len() as int,
                is_alerting: old(d)@.is_alerting || alert_positions(rows@, filter, alert).len() > 0,
                ..old(d)@
            })
            &&& final(d)@.sessions == old(d)@.sessions + rows@.filter(
                |r: SessionRow| i32_or_zero(r.total_elapsed_time) >= filter,
            ).map_values(|r: SessionRow| session_of_row(r, old(d)@.capture_time))
            &&& alerts@.len() == alert_positions(rows@, filter, alert).len()
            &&& forall|k: int|
                0 <= k < alerts@.len() ==> alerts@[k] as int == base + alert_positions(
                    rows@,
                    filter,
                    alert,
                )[k]
        }),
{
    let filter: i32 = settings.filter_elapsed_ms as i32;
    let alert: i32 = settings.alert_elapsed_ms as i32;
    let ghost base = old(d)@.sessions.len() as int;
    let ghost ct = old(d)@.capture_time;
    proof {
        law_captured_rows_reach_filter(rows@, filter as int, ct);
    }
    d.raw_session_count = rows.len();
    let mut alerts: Vec<usize> = Vec::new();
    let mut i: usize = 0;
    assert(rows@.take(0) =~= Seq::<SessionRow>::empty());
    assert(old(d)@.sessions + captured_sessions(rows@.take(0), filter as int, ct) =~= old(d)@.sessions);
    while i < rows.len()
        invariant
            i <= rows@.len(),
            filter == settings.filter_elapsed_ms as i32,
            alert == settings.alert_elapsed_ms as i32,
            base == old(d)@.sessions.len(),
            ct == old(d)@.capture_time,
            d@ == (DashboardView {
                sessions: old(d)@.sessions + captured_sessions(rows@.take(i as int), filter as int, ct),
                raw_session_count: rows@.len() as int,
                is_alerting: old(d)@.is_alerting || alert_positions(
                    rows@.take(i as int),
                    filter as int,
                    alert as int,
                ).len() > 0,
                ..old(d)@
            }),
            alerts@.len() == alert_positions(rows@.take(i as int), filter as int, alert as int).len(),
            forall|k: int|
                0 <= k < alerts@.len() ==> alerts@[k] as int == base + alert_positions(
                    rows@.take(i as int),
                    filter as int,
                    alert as int,
                )[k],
        decreases rows.len() - i,
    {
        let row = &rows[i];
        let ghost pre = rows@.take(i as int);
        let ghost post = rows@.take(i + 1);
        assert(post.drop_last() =~= pre);
        assert(post.last() == *row);
        let elapsed: i32 = match row.total_elapsed_time {
            Some(v) => v,
            None => 0,
        };
        if elapsed >= filter {
            let session = session_from_row(row, &d.capture_time);
            let pos = d.sessions.len();
            proof {
                lemma_captured_len(pre, filter as int, ct, seq![]);
            }
            if elapsed >= alert {
                d.is_alerting = true;
                alerts.push(pos);
            }
            let ghost before = d.sessions@;
            let ghost sv = session@;
            assert(sv == session_of_row(post.last(), ct));
            d.sessions.push(session);
            assert(d.sessions@.map_values(|s: SessionData| s@) =~= before.map_values(
                |s: SessionData| s@,
            ).push(sv));
            assert(d@.sessions =~= old(d)@.sessions + captured_sessions(post, filter as int, ct));
        }
        i += 1;
    }
    assert(rows@.take(rows@.len() as int) =~= rows@);
    alerts
}

} // verus!
