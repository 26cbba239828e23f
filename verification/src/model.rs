//! The monitor's data: its configuration, the per-server settings that the
//! user adjusts while it runs, and what one poll of a server captures.
use vstd::prelude::*;

verus! {

/// The port used when the configuration names none.
pub fn default_port() -> (r: u16)
    ensures
        r == 1433,
{
    1433
}

/// The worker-usage alert threshold, in percent, used when the configuration
/// names none.
pub fn default_alert_worker_percent() -> (r: u64)
    ensures
        r == 40,
{
    40
}

/// The request-count snapshot threshold used when the configuration names none
/// (0: no automatic snapshots).
pub fn default_requests_snapshot() -> (r: u64)
    ensures
        r == 0,
{
    0
}

/// The snapshot-pause flag used when the configuration names none (0: not paused).
pub fn default_pause_snapshot() -> (r: u64)
    ensures
        r == 0,
{
    0
}

/// The whole configuration: the servers to watch.
pub struct AppConfig {
    pub servers: Vec<ServerConfig>,
}

/// How to reach one server and the initial settings for watching it.
pub struct ServerConfig {
    pub id: String,
    pub host: String,
    pub port: u16,
    pub username: String,
    pub password: String,
    pub filter_elapsed_ms: u64,
    pub alert_elapsed_ms: u64,
    pub alert_worker_percent: u64,
    pub requests_snapshot: u64,
    pub pause_snapshot: u64,
    pub default_interval_sec: u64,
}

impl ServerConfig {
    /// A copy of this configuration.
    pub fn duplicate(&self) -> (r: ServerConfig)
        ensures
            r.id@ == self.id@,
            r.host@ == self.host@,
            r.port == self.port,
            r.username@ == self.username@,
            r.password@ == self.password@,
            r.filter_elapsed_ms == self.filter_elapsed_ms,
            r.alert_elapsed_ms == self.alert_elapsed_ms,
            r.alert_worker_percent == self.alert_worker_percent,
            r.requests_snapshot == self.requests_snapshot,
            r.pause_snapshot == self.pause_snapshot,
            r.default_interval_sec == self.default_interval_sec,
    {
        ServerConfig {
            id: self.id.clone(),
            host: self.host.clone(),
            port: self.port,
            username: self.username.clone(),
            password: self.password.clone(),
            filter_elapsed_ms: self.filter_elapsed_ms,
            alert_elapsed_ms: self.alert_elapsed_ms,
            alert_worker_percent: self.alert_worker_percent,
            requests_snapshot: self.requests_snapshot,
            pause_snapshot: self.pause_snapshot,
            default_interval_sec: self.default_interval_sec,
        }
    }
}

/// The settings of one watched server that the user may change while it runs:
/// whether polling is paused, the poll interval, the elapsed-time filter and
/// alert thresholds, the worker-usage alert threshold, and the automatic
/// snapshot threshold and its pause switch.
#[derive(Clone, Copy)]
pub struct ServerController {
    pub is_paused: bool,
    pub interval_sec: u64,
    pub filter_elapsed_ms: u64,
    pub alert_elapsed_ms: u64,
    pub alert_worker_percent: u64,
    pub requests_snapshot: u64,
    pub pause_snapshot: bool,
}

impl ServerController {
    /// The settings a server starts with: running, with the configured
    /// interval and thresholds, and snapshots paused when the configured flag
    /// is nonzero.
    pub fn from_config(cfg: &ServerConfig) -> (r: ServerController)
        ensures
            !r.is_paused,
            r.interval_sec == cfg.default_interval_sec,
            r.filter_elapsed_ms == cfg.filter_elapsed_ms,
            r.alert_elapsed_ms == cfg.alert_elapsed_ms,
            r.alert_worker_percent == cfg.alert_worker_percent,
            r.requests_snapshot == cfg.requests_snapshot,
            r.pause_snapshot == (cfg.pause_snapshot != 0),
    {
        ServerController {
            is_paused: false,
            interval_sec: cfg.default_interval_sec,
            filter_elapsed_ms: cfg.filter_elapsed_ms,
            alert_elapsed_ms: cfg.alert_elapsed_ms,
            alert_worker_percent: cfg.alert_worker_percent,
            requests_snapshot: cfg.requests_snapshot,
            pause_snapshot: cfg.pause_snapshot != 0,
        }
    }
}

/// One request that was running on the server when it was polled.
pub struct SessionData {
    pub session_id: i16,
    pub elapsed_time_ms: i32,
    pub status: String,
    pub wait_type: String,
    pub wait_time_ms: i64,
    pub executing_sql: String,
    pub wait_session_id: i16,
    pub last_wait_type: String,
    pub wait_resource: String,
    pub parent_batch_sql: String,
    pub cpu_time_ms: i32,
    pub logical_reads: i64,
    pub physical_reads: i64,
    pub writes: i64,
    pub row_count: i64,
    pub open_transaction_count: i32,
    pub dop: i16,
    pub client_net_address: String,
    pub login_name: String,
    pub database_name: String,
    pub command: String,
    pub start_time: String,
    pub capture_time: String,
}

/// The mathematical value of a [`SessionData`].
pub struct SessionView {
    pub session_id: int,
    pub elapsed_time_ms: int,
    pub status: Seq<char>,
    pub wait_type: Seq<char>,
    pub wait_time_ms: int,
    pub executing_sql: Seq<char>,
    pub wait_session_id: int,
    pub last_wait_type: Seq<char>,
    pub wait_resource: Seq<char>,
    pub parent_batch_sql: Seq<char>,
    pub cpu_time_ms: int,
    pub logical_reads: int,
    pub physical_reads: int,
    pub writes: int,
    pub row_count: int,
    pub open_transaction_count: int,
    pub dop: int,
    pub client_net_address: Seq<char>,
    pub login_name: Seq<char>,
    pub database_name: Seq<char>,
    pub command: Seq<char>,
    pub start_time: Seq<char>,
    pub capture_time: Seq<char>,
}

impl View for SessionData {
    type V = SessionView;

    open spec fn view(&self) -> SessionView {
        SessionView {
            session_id: self.session_id as int,
            elapsed_time_ms: self.elapsed_time_ms as int,
            status: self.status@,
            wait_type: self.wait_type@,
            wait_time_ms: self.wait_time_ms as int,
            executing_sql: self.executing_sql@,
            wait_session_id: self.wait_session_id as int,
            last_wait_type: self.last_wait_type@,
            wait_resource: self.wait_resource@,
            parent_batch_sql: self.parent_batch_sql@,
            cpu_time_ms: self.cpu_time_ms as int,
            logical_reads: self.logical_reads as int,
            physical_reads: self.physical_reads as int,
            writes: self.writes as int,
            row_count: self.row_count as int,
            open_transaction_count: self.open_transaction_count as int,
            dop: self.dop as int,
            client_net_address: self.client_net_address@,
            login_name: self.login_name@,
            database_name: self.database_name@,
            command: self.command@,
            start_time: self.start_time@,
            capture_time: self.capture_time@,
        }
    }
}

/// A session with every number zero and every text empty.
pub open spec fn empty_session() -> SessionView {
    SessionView {
        session_id: 0,
        elapsed_time_ms: 0,
        status: seq![],
        wait_type: seq![],
        wait_time_ms: 0,
        executing_sql: seq![],
        wait_session_id: 0,
        last_wait_type: seq![],
        wait_resource: seq![],
        parent_batch_sql: seq![],
        cpu_time_ms: 0,
        logical_reads: 0,
        physical_reads: 0,
        writes: 0,
        row_count: 0,
        open_transaction_count: 0,
        dop: 0,
        client_net_address: seq![],
        login_name: seq![],
        database_name: seq![],
        command: seq![],
        start_time: seq![],
        capture_time: seq![],
    }
}

impl Default for SessionData {
    fn default() -> (r: SessionData)
        ensures
            r@ == empty_session(),
    {
        SessionData {
            session_id: 0,
            elapsed_time_ms: 0,
            status: String::new(),
            wait_type: String::new(),
            wait_time_ms: 0,
            executing_sql: String::new(),
            wait_session_id: 0,
            last_wait_type: String::new(),
            wait_resource: String::new(),
            parent_batch_sql: String::new(),
            cpu_time_ms: 0,
            logical_reads: 0,
            physical_reads: 0,
            writes: 0,
            row_count: 0,
            open_transaction_count: 0,
            dop: 0,
            client_net_address: String::new(),
            login_name: String::new(),
            database_name: String::new(),
            command: String::new(),
            start_time: String::new(),
            capture_time: String::new(),
        }
    }
}

impl SessionData {
    /// A copy of this session.
    pub fn duplicate(&self) -> (r: SessionData)
        ensures
            r@ == self@,
    {
        SessionData {
            session_id: self.session_id,
            elapsed_time_ms: self.elapsed_time_ms,
            status: self.status.clone(),
            wait_type: self.wait_type.clone(),
            wait_time_ms: self.wait_time_ms,
            executing_sql: self.executing_sql.clone(),
            wait_session_id: self.wait_session_id,
            last_wait_type: self.last_wait_type.clone(),
            wait_resource: self.wait_resource.clone(),
            parent_batch_sql: self.parent_batch_sql.clone(),
            cpu_time_ms: self.cpu_time_ms,
            logical_reads: self.logical_reads,
            physical_reads: self.physical_reads,
            writes: self.writes,
            row_count: self.row_count,
            open_transaction_count: self.open_transaction_count,
            dop: self.dop,
            client_net_address: self.client_net_address.clone(),
            login_name: self.login_name.clone(),
            database_name: self.database_name.clone(),
            command: self.command.clone(),
            start_time: self.start_time.clone(),
            capture_time: self.capture_time.clone(),
        }
    }
}

/// What one poll of a server captured: the capture time, the requests that
/// passed the elapsed-time filter, the worker usage, four performance counters,
/// how many requests were running in all, and whether anything crossed an
/// alert threshold.
pub struct DashboardData {
    pub capture_time: String,
    pub sessions: Vec<SessionData>,
    pub active_workers: u32,
    pub max_threads: u32,
    pub workers_percent: String,
    pub conn_logical: i64,
    pub page_life_expectancy: i64,
    pub active_temp_tables: i64,
    pub transactions: i64,
    pub raw_session_count: usize,
    pub is_alerting: bool,
}

/// The mathematical value of a [`DashboardData`].
pub struct DashboardView {
    pub capture_time: Seq<char>,
    pub sessions: Seq<SessionView>,
    pub active_workers: int,
    pub max_threads: int,
    pub workers_percent: Seq<char>,
    pub conn_logical: int,
    pub page_life_expectancy: int,
    pub active_temp_tables: int,
    pub transactions: int,
    pub raw_session_count: int,
    pub is_alerting: bool,
}

impl View for DashboardData {
    type V = DashboardView;

    open spec fn view(&self) -> DashboardView {
        DashboardView {
            capture_time: self.capture_time@,
            sessions: self.sessions@.map_values(|s: SessionData| s@),
            active_workers: self.active_workers as int,
            max_threads: self.max_threads as int,
            workers_percent: self.workers_percent@,
            conn_logical: self.conn_logical as int,
            page_life_expectancy: self.page_life_expectancy as int,
            active_temp_tables: self.active_temp_tables as int,
            transactions: self.transactions as int,
            raw_session_count: self.raw_session_count as int,
            is_alerting: self.is_alerting,
        }
    }
}

/// A dashboard with nothing captured.
pub open spec fn empty_dashboard() -> DashboardView {
    DashboardView {
        capture_time: seq![],
        sessions: seq![],
        active_workers: 0,
        max_threads: 0,
        workers_percent: seq![],
        conn_logical: 0,
        page_life_expectancy: 0,
        active_temp_tables: 0,
        transactions: 0,
        raw_session_count: 0,
        is_alerting: false,
    }
}

impl Default for DashboardData {
    fn default() -> (r: DashboardData)
        ensures
            r@ == empty_dashboard(),
    {
        let r = DashboardData {
            capture_time: String::new(),
            sessions: Vec::new(),
            active_workers: 0,
            max_threads: 0,
            workers_percent: String::new(),
            conn_logical: 0,
            page_life_expectancy: 0,
            active_temp_tables: 0,
            transactions: 0,
            raw_session_count: 0,
            is_alerting: false,
        };
        assert(r@.sessions =~= Seq::<SessionView>::empty());
        r
    }
}

} // verus!
