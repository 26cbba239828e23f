use sql_monitor::model::{
    default_alert_worker_percent, default_pause_snapshot, default_port, default_requests_snapshot, AppConfig,
    DashboardData, ServerConfig, ServerController,
};
use sql_monitor::monitor::{ends_grid_row, initial_controllers, MonitorBoard};
use sql_monitor::poll::{
    apply_counter_rows, apply_session_rows, apply_worker_alert, apply_worker_row, poll_step, session_from_row,
    CounterRow, PollAction, PollEvent, PollState, SessionRow, WorkerRow,
};

fn server(id: &str) -> ServerConfig {
    ServerConfig {
        id: id.to_string(),
        host: "db.example".to_string(),
        port: default_port(),
        username: "monitor".to_string(),
        password: "SECRET-REDACTED".to_string(),
        filter_elapsed_ms: 1000,
        alert_elapsed_ms: 60000,
        alert_worker_percent: default_alert_worker_percent(),
        requests_snapshot: default_requests_snapshot(),
        pause_snapshot: default_pause_snapshot(),
        default_interval_sec: 5,
    }
}

fn settings() -> ServerController {
    ServerController::from_config(&server("A"))
}

fn empty_dashboard() -> DashboardData {
    DashboardData {
        capture_time: "2026-08-24 13:34:09".to_string(),
        sessions: Vec::new(),
        active_workers: 0,
        max_threads: 0,
        workers_percent: String::new(),
        conn_logical: 0,
        page_life_expectancy: 0,
        active_temp_tables: 0,
        transactions: 0,
        raw_session_count: 0,
        is_alerting: false,
    }
}

fn row(spid: i16, elapsed: Option<i32>) -> SessionRow {
    SessionRow {
        session_id: Some(spid),
        total_elapsed_time: elapsed,
        status: Some(" running ".to_string()),
        wait_type: None,
        wait_time: Some(0),
        last_wait_type: Some("SOS_SCHEDULER_YIELD ".to_string()),
        wait_resource: Some("".to_string()),
        blocking_session_id: Some(0),
        executing_sql: Some("SELECT 1".to_string()),
        parent_batch_sql: Some("SELECT 1".to_string()),
        cpu_time: Some(10),
        logical_reads: Some(100),
        reads: Some(1),
        writes: None,
        row_count: Some(1),
        open_transaction_count: Some(0),
        dop: Some(1),
        client_net_address: Some("10.0.0.5".to_string()),
        login_name: Some("app".to_string()),
        database_name: None,
        command: Some("SELECT".to_string()),
        start_time: Some("2026-08-24 13:34:00".to_string()),
    }
}

#[test]
fn configured_defaults() {
    assert_eq!(default_port(), 1433);
    assert_eq!(default_alert_worker_percent(), 40);
    assert_eq!(default_requests_snapshot(), 0);
    assert_eq!(default_pause_snapshot(), 0);
}

#[test]
fn board_watches_at_most_four_servers() {
    let config = AppConfig { servers: vec![server("A"), server("B"), server("C"), server("D"), server("E")] };
    let board = MonitorBoard::new(config);
    let ids: Vec<&str> = board.server_configs.iter().map(|c| c.id.as_str()).collect();
    assert_eq!(ids, vec!["A", "B", "C", "D"]);
    assert_eq!(board.server_data.len(), 4);
    assert!(board.server_data.iter().all(|d| d.sessions.is_empty() && !d.is_alerting));
    assert_eq!(board.grid_columns(), 2);
    let one = MonitorBoard::new(AppConfig { servers: vec![server("A")] });
    assert_eq!(one.grid_columns(), 1);
    assert!(!ends_grid_row(0, 2));
    assert!(ends_grid_row(1, 2));
    assert!(ends_grid_row(0, 1));
}

#[test]
fn initial_settings_follow_the_configuration() {
    let mut b = server("B");
    b.pause_snapshot = 1;
    b.requests_snapshot = 30;
    let cs = initial_controllers(&vec![server("A"), b]);
    assert_eq!(cs.len(), 2);
    assert!(!cs[0].is_paused && !cs[1].is_paused);
    assert_eq!(cs[0].interval_sec, 5);
    assert!(!cs[0].pause_snapshot);
    assert!(cs[1].pause_snapshot);
    assert_eq!(cs[1].requests_snapshot, 30);
    assert_eq!(cs[1].alert_elapsed_ms, 60000);
}

#[test]
fn snapshots_are_kept_when_running_requests_reach_the_threshold() {
    let mut board = MonitorBoard::new(AppConfig { servers: vec![server("A")] });
    let mut s = settings();
    let mut d = empty_dashboard();
    d.raw_session_count = 30;
    // threshold 0 means never
    assert!(!board.accept_data(0, DashboardData { raw_session_count: 30, ..empty_dashboard() }, &s));
    s.requests_snapshot = 30;
    assert!(board.accept_data(0, d, &s));
    assert_eq!(board.server_data[0].raw_session_count, 30);
    assert!(!board.accept_data(0, DashboardData { raw_session_count: 29, ..empty_dashboard() }, &s));
    s.pause_snapshot = true;
    assert!(!board.accept_data(0, DashboardData { raw_session_count: 31, ..empty_dashboard() }, &s));
}

#[test]
fn attention_is_asked_once_per_alert() {
    let mut board = MonitorBoard::new(AppConfig { servers: vec![server("A"), server("B")] });
    let s = settings();
    assert!(!board.attend(false));
    board.accept_data(1, DashboardData { is_alerting: true, ..empty_dashboard() }, &s);
    assert!(board.any_alerting());
    assert!(board.attend(false));
    assert!(!board.attend(false));
    assert!(!board.attend(false));
    // focusing acknowledges; losing focus again with the alert still on asks again
    assert!(!board.attend(true));
    assert!(!board.unacknowledged_alert);
    assert!(board.attend(false));
    // when the alert clears, the next one asks again
    board.accept_data(1, empty_dashboard(), &s);
    assert!(!board.attend(false));
    board.accept_data(0, DashboardData { is_alerting: true, ..empty_dashboard() }, &s);
    assert!(board.attend(false));
}

#[test]
fn polling_rounds() {
    let mut st = PollState { connected: false };
    assert_eq!(poll_step(&mut st, PollEvent::Tick { paused: true }, 5), PollAction::WaitMillis { millis: 500 });
    assert_eq!(poll_step(&mut st, PollEvent::Tick { paused: false }, 5), PollAction::Connect);
    assert_eq!(poll_step(&mut st, PollEvent::Connected { ok: false }, 5), PollAction::WaitSeconds { secs: 5 });
    assert!(!st.connected);
    assert_eq!(poll_step(&mut st, PollEvent::Tick { paused: false }, 5), PollAction::Connect);
    assert_eq!(poll_step(&mut st, PollEvent::Connected { ok: true }, 5), PollAction::QueryWorkers);
    assert!(st.connected);
    assert_eq!(poll_step(&mut st, PollEvent::WorkersQueried { ok: true }, 5), PollAction::QueryCounters);
    assert_eq!(poll_step(&mut st, PollEvent::CountersQueried { ok: true }, 5), PollAction::QuerySessions);
    assert_eq!(poll_step(&mut st, PollEvent::SessionsQueried { ok: true }, 7), PollAction::PublishThenWait { secs: 7 });
    assert_eq!(poll_step(&mut st, PollEvent::Tick { paused: false }, 7), PollAction::QueryWorkers);
    assert_eq!(poll_step(&mut st, PollEvent::WorkersQueried { ok: true }, 7), PollAction::QueryCounters);
    assert_eq!(poll_step(&mut st, PollEvent::CountersQueried { ok: false }, 7), PollAction::DisconnectThenWait { secs: 7 });
    assert!(!st.connected);
    assert_eq!(poll_step(&mut st, PollEvent::Tick { paused: false }, 7), PollAction::Connect);
}

#[test]
fn worker_row_and_alert() {
    let mut d = empty_dashboard();
    apply_worker_row(&mut d, &WorkerRow { max_threads: Some(512), active_workers: Some(410), workers_percent: Some("80.08%".to_string()) });
    assert_eq!((d.max_threads, d.active_workers, d.workers_percent.as_str()), (512, 410, "80.08%"));
    apply_worker_row(&mut d, &WorkerRow { max_threads: None, active_workers: Some(-1), workers_percent: None });
    assert_eq!((d.max_threads, d.active_workers, d.workers_percent.as_str()), (0, u32::MAX, "0.00%"));
    assert!(!apply_worker_alert(&mut d, 79, 80));
    assert!(!d.is_alerting);
    assert!(apply_worker_alert(&mut d, 80, 80));
    assert!(d.is_alerting);
    assert!(!apply_worker_alert(&mut d, 10, 80));
    assert!(d.is_alerting);
}

#[test]
fn counter_rows_by_name() {
    let mut d = empty_dashboard();
    let rows = vec![
        CounterRow { counter_name: Some("Logical Connections                ".to_string()), cntr_value: Some(230) },
        CounterRow { counter_name: Some("page life expectancy".to_string()), cntr_value: Some(86000) },
        CounterRow { counter_name: Some("Transactions".to_string()), cntr_value: None },
        CounterRow { counter_name: Some("Active Temp Tables".to_string()), cntr_value: Some(12) },
        CounterRow { counter_name: Some("Batch Requests/sec".to_string()), cntr_value: Some(99) },
        CounterRow { counter_name: None, cntr_value: Some(5) },
        CounterRow { counter_name: Some("Page life expectancy".to_string()), cntr_value: Some(86001) },
    ];
    apply_counter_rows(&mut d, &rows);
    assert_eq!(d.conn_logical, 230);
    assert_eq!(d.page_life_expectancy, 86001);
    assert_eq!(d.transactions, 0);
    assert_eq!(d.active_temp_tables, 12);
}

#[test]
fn session_rows_are_filtered_and_alerts_found() {
    let mut d = empty_dashboard();
    let rows = vec![row(51, Some(500)), row(52, Some(1000)), row(53, Some(70000)), row(54, None), row(55, Some(60000))];
    let alerts = apply_session_rows(&mut d, &rows, &settings());
    assert_eq!(d.raw_session_count, 5);
    let ids: Vec<i16> = d.sessions.iter().map(|s| s.session_id).collect();
    assert_eq!(ids, vec![52, 53, 55]);
    assert_eq!(alerts, vec![1, 2]);
    assert!(d.is_alerting);
    assert_eq!(d.sessions[0].status, "running");
    assert_eq!(d.sessions[0].last_wait_type, "SOS_SCHEDULER_YIELD");
    assert_eq!(d.sessions[0].capture_time, "2026-08-24 13:34:09");
}

#[test]
fn filter_settings_are_read_as_32_bit_numbers() {
    let mut d = empty_dashboard();
    let mut s = settings();
    s.filter_elapsed_ms = 0xFFFF_FFFF; // reads as -1: every request passes
    s.alert_elapsed_ms = 0x1_0000_0000; // reads as 0: every request alerts
    let alerts = apply_session_rows(&mut d, &vec![row(51, Some(0)), row(52, Some(-5))], &s);
    assert_eq!(d.sessions.len(), 1);
    assert_eq!(alerts, vec![0]);
}

#[test]
fn absent_columns_read_as_zero_or_empty() {
    let s = session_from_row(&row(51, None), &"t".to_string());
    assert_eq!(s.elapsed_time_ms, 0);
    assert_eq!(s.wait_type, "");
    assert_eq!(s.writes, 0);
    assert_eq!(s.database_name, "");
    assert_eq!(s.capture_time, "t");
}
