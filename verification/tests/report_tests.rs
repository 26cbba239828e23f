use sql_monitor::model::{DashboardData, SessionData};
use sql_monitor::report::{
    alert_log_entry, session_detail, single_line_sql, snapshot_log, worker_alert_log_entry,
};

fn request(spid: i16, elapsed: i32, status: &str) -> SessionData {
    SessionData {
        session_id: spid,
        elapsed_time_ms: elapsed,
        status: status.to_string(),
        wait_type: "PAGEIOLATCH_SH".to_string(),
        wait_time_ms: 120,
        executing_sql: "  SELECT * FROM orders WHERE id = 7  ".to_string(),
        wait_session_id: 0,
        last_wait_type: "PAGEIOLATCH_SH".to_string(),
        wait_resource: "PAGE: 5:1:4411".to_string(),
        parent_batch_sql: "\nEXEC dbo.load_orders @id = 7\n".to_string(),
        cpu_time_ms: 35,
        logical_reads: 1200,
        physical_reads: 3,
        writes: 0,
        row_count: 1,
        open_transaction_count: 1,
        dop: 1,
        client_net_address: "10.0.0.12".to_string(),
        login_name: "app_user".to_string(),
        database_name: "Sales".to_string(),
        command: "SELECT".to_string(),
        start_time: "2026-08-24 13:34:01.123".to_string(),
        capture_time: "2026-08-24 13:34:09".to_string(),
    }
}

#[test]
fn alert_entry_has_the_monitor_layout() {
    let text = alert_log_entry("2026-08-24 13:34:09", "PROD1", &request(57, 65000, "suspended"));
    let expected = "[2026-08-24 13:34:09] Server: PROD1 | SPID: 57 | Alert! Session Elapsed: 65000 ms\n\
\tStatus: suspended\n\
\tWaitType: PAGEIOLATCH_SH (Time: 120 ms)\n\
\tLastWaitType: PAGEIOLATCH_SH\n\
\tWaitResource: PAGE: 5:1:4411\n\
\tWaitSessionID (Blocking): 0\n\
\tCPU Time: 35 ms\n\
\tLogical Reads: 1200\n\
\tPhysical Reads: 3\n\
\tWrites: 0\n\
\tRowCount: 1\n\
\tOpen Trans: 1\n\
\tDOP: 1\n\
\tClient Address: 10.0.0.12\n\
\tLogin Name: app_user\n\
\tDB Name: Sales\n\
\tCommand: SELECT\n\
\tStart Time: 2026-08-24 13:34:01.123\n\
\tExecuting SQL: SELECT * FROM orders WHERE id = 7\n\
\tParent Batch SQL: EXEC dbo.load_orders @id = 7\n\
==================================================\n";
    assert_eq!(text, expected);
}

#[test]
fn worker_alert_entry_has_the_monitor_layout() {
    let text = worker_alert_log_entry("2026-08-24 13:34:09", "PROD1", 410, 512, 80);
    assert_eq!(
        text,
        "[2026-08-24 13:34:09] Server: PROD1 | ALERT! Worker Threads usage is high: 80% (410 / 512)\n==================================================\n"
    );
}

#[test]
fn snapshot_block_without_requests() {
    let d = DashboardData {
        capture_time: "2026-08-24 13:34:09".to_string(),
        sessions: Vec::new(),
        active_workers: 41,
        max_threads: 512,
        workers_percent: "8.01%".to_string(),
        conn_logical: 230,
        page_life_expectancy: 86000,
        active_temp_tables: 12,
        transactions: 3,
        raw_session_count: 0,
        is_alerting: false,
    };
    let text = snapshot_log("PROD1", &d);
    assert_eq!(
        text,
        "==================================================\n\
Server: PROD1\n\
Capture Time: 2026-08-24 13:34:09\n\
--------------------------------------------------\n\
Workers: 41 / 512 (8.01%)\n\
Logical Connections: 230\n\
Page Life Expectancy: 86000\n\
Active Temp Tables: 12\n\
Transactions: 3\n\
Request Sessions: 0\n\
--------------------------------------------------\n\
Captured Sessions Details:\n\n\
No sessions captured under current filter criteria.\n\
==================================================\n\n"
    );
}

#[test]
fn snapshot_block_numbers_requests_from_one() {
    let d = DashboardData {
        capture_time: "2026-08-24 13:34:09".to_string(),
        sessions: vec![request(57, 65000, "suspended"), request(61, 1200, "running")],
        active_workers: 41,
        max_threads: 512,
        workers_percent: "8.01%".to_string(),
        conn_logical: 230,
        page_life_expectancy: 86000,
        active_temp_tables: 12,
        transactions: 3,
        raw_session_count: 9,
        is_alerting: true,
    };
    let text = snapshot_log("PROD1", &d);
    assert!(text.contains("--- [Session 1] ---\nSPID: 57 | Elapsed Time: 65000 ms | Status: suspended\n"));
    assert!(text.contains("--- [Session 2] ---\nSPID: 61 | Elapsed Time: 1200 ms | Status: running\n"));
    assert!(text.contains("Request Sessions: 9\n"));
    assert!(text.contains("Executing SQL:\nSELECT * FROM orders WHERE id = 7\nParent Batch SQL:\nEXEC dbo.load_orders @id = 7\n\n"));
    assert!(text.ends_with("\n\n==================================================\n\n"));
}

#[test]
fn detail_text_lists_every_field() {
    let text = session_detail(&request(57, 65000, "suspended"));
    assert!(text.starts_with("Capture Time: 2026-08-24 13:34:09\nSPID: 57\n"));
    assert!(text.contains("\n--- Executing SQL ---\nSELECT * FROM orders WHERE id = 7\n"));
    assert!(text.ends_with("\n--- Parent Batch SQL ---\nEXEC dbo.load_orders @id = 7"));
}

#[test]
fn sql_is_shown_on_one_line() {
    assert_eq!(single_line_sql("SELECT a\r\nFROM t\nWHERE x = 1"), "SELECT a FROM t WHERE x = 1");
    assert_eq!(single_line_sql(""), "");
}
