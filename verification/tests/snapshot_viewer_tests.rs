use sql_monitor::model::{DashboardData, SessionData};
use sql_monitor::report::snapshot_log;
use sql_monitor::snapshot_viewer::{
    compare_sessions, export_file_name, export_snapshot_text, header_label, parse_snapshots, snap_session_detail,
    snap_wait_cell, sort_sessions, SessionSnapshotData, SnapshotData, SnapshotViewerApp, SortColumn,
};
use sql_monitor::text::Order;

fn request(spid: i16, elapsed: i32, blocking: i16, status: &str, sql: &str, batch: &str) -> SessionData {
    SessionData {
        session_id: spid,
        elapsed_time_ms: elapsed,
        status: status.to_string(),
        wait_type: "LCK_M_X".to_string(),
        wait_time_ms: 300,
        executing_sql: sql.to_string(),
        wait_session_id: blocking,
        last_wait_type: "LCK_M_X".to_string(),
        wait_resource: "KEY: 5:72057594043236352 (8194443284a0)".to_string(),
        parent_batch_sql: batch.to_string(),
        cpu_time_ms: 12,
        logical_reads: 88,
        physical_reads: 0,
        writes: 2,
        row_count: 0,
        open_transaction_count: 1,
        dop: 1,
        client_net_address: "10.0.0.12".to_string(),
        login_name: "app_user".to_string(),
        database_name: "Sales".to_string(),
        command: "UPDATE".to_string(),
        start_time: "2026-08-24 13:33:55.700".to_string(),
        capture_time: "2026-08-24 13:34:09".to_string(),
    }
}

fn dashboard(sessions: Vec<SessionData>) -> DashboardData {
    let n = sessions.len();
    DashboardData {
        capture_time: "2026-08-24 13:34:09".to_string(),
        sessions,
        active_workers: 41,
        max_threads: 512,
        workers_percent: "8.01%".to_string(),
        conn_logical: 230,
        page_life_expectancy: 86000,
        active_temp_tables: 12,
        transactions: 3,
        raw_session_count: n + 4,
        is_alerting: false,
    }
}

fn three_requests() -> Vec<SessionData> {
    vec![
        request(57, 65000, 0, "suspended", "UPDATE t SET x = 1", "BEGIN TRAN; UPDATE t SET x = 1"),
        request(9, 120, 57, "suspended", "SELECT * FROM t", "SELECT * FROM t"),
        request(103, 9000, 57, "running", "DELETE FROM q", "DELETE FROM q"),
    ]
}

fn spids(s: &SnapshotData) -> Vec<String> {
    s.sessions.iter().map(|r| r.spid.clone()).collect()
}

#[test]
fn monitor_snapshot_reads_back() {
    let log = snapshot_log("PROD1", &dashboard(three_requests()));
    let snaps = parse_snapshots(&log);
    assert_eq!(snaps.len(), 1);
    let s = &snaps[0];
    assert_eq!(s.server, "PROD1");
    assert_eq!(s.capture_time, "2026-08-24 13:34:09");
    assert_eq!(s.workers, "41 / 512 (8.01%)");
    assert_eq!(s.logical_connections, "230");
    assert_eq!(s.ple, "86000");
    assert_eq!(s.active_temp_tables, "12");
    assert_eq!(s.transactions, "3");
    assert_eq!(s.request_sessions_count, "7");
    assert_eq!(spids(s), vec!["57", "9", "103"]);
    let r = &s.sessions[1];
    assert_eq!(r.original_idx, 1);
    assert_eq!(r.elapsed, "120");
    assert_eq!(r.status, "suspended");
    assert_eq!(r.wait_type, "LCK_M_X");
    assert_eq!(r.wait_time_ms, "300");
    assert_eq!(r.last_wait_type, "LCK_M_X");
    assert_eq!(r.wait_resource, "KEY: 5:72057594043236352 (8194443284a0)");
    assert_eq!(r.blocking_spid, "57");
    assert_eq!(r.cpu_time_ms, "12");
    assert_eq!(r.logical_reads, "88");
    assert_eq!(r.physical_reads, "0");
    assert_eq!(r.writes, "2");
    assert_eq!(r.row_count, "0");
    assert_eq!(r.open_trans, "1");
    assert_eq!(r.dop, "1");
    assert_eq!(r.client_address, "10.0.0.12");
    assert_eq!(r.login_name, "app_user");
    assert_eq!(r.db_name, "Sales");
    assert_eq!(r.command, "UPDATE");
    assert_eq!(r.start_time, "2026-08-24 13:33:55.700");
    assert_eq!(r.executing_sql, "SELECT * FROM t");
    // the blank line after a request's batch reads as one more line feed,
    // except after the last request of the block
    assert_eq!(r.parent_batch_sql, "SELECT * FROM t\n");
    assert_eq!(s.sessions[2].parent_batch_sql, "DELETE FROM q");
}

#[test]
fn snapshot_without_requests_reads_back() {
    let snaps = parse_snapshots(&snapshot_log("PROD2", &dashboard(Vec::new())));
    assert_eq!(snaps.len(), 1);
    assert_eq!(snaps[0].server, "PROD2");
    assert!(snaps[0].sessions.is_empty());
}

#[test]
fn log_is_read_block_by_block() {
    let mut log = snapshot_log("PROD1", &dashboard(three_requests()));
    log.push_str(&snapshot_log("PROD2", &dashboard(Vec::new())));
    log.push_str(&snapshot_log("PROD3", &dashboard(vec![request(77, 5, 0, "running", "SELECT 1", "SELECT 1")])));
    let snaps = parse_snapshots(&log);
    let servers: Vec<&str> = snaps.iter().map(|s| s.server.as_str()).collect();
    assert_eq!(servers, vec!["PROD1", "PROD2", "PROD3"]);
    assert_eq!(snaps[2].sessions[0].spid, "77");
}

#[test]
fn blocks_without_server_and_blank_blocks_are_skipped() {
    let text = "==================================================\n\n   \n==================================================\nCapture Time: x\n==================================================\n";
    assert!(parse_snapshots(text).is_empty());
    assert!(parse_snapshots("").is_empty());
}

#[test]
fn export_reads_back_and_reexports_the_same_text() {
    let snaps = parse_snapshots(&snapshot_log("PROD1", &dashboard(three_requests())));
    let exported = export_snapshot_text(&snaps[0]);
    let again = parse_snapshots(&exported);
    assert_eq!(again.len(), 1);
    assert_eq!(spids(&again[0]), spids(&snaps[0]));
    assert_eq!(again[0].workers, snaps[0].workers);
    assert_eq!(export_snapshot_text(&again[0]), exported);
    // the export writes the layout of the monitor's snapshot log
    assert_eq!(exported, snapshot_log("PROD1", &dashboard(three_requests())));
}

#[test]
fn export_keeps_the_current_order() {
    let mut app = SnapshotViewerApp::default();
    app.parse_snapshot_content(&snapshot_log("PROD1", &dashboard(three_requests())));
    app.click_header(SortColumn::Spid);
    let exported = export_snapshot_text(&app.snapshots[0]);
    let first = exported.find("SPID: 9 ").unwrap();
    let second = exported.find("SPID: 57 ").unwrap();
    let third = exported.find("SPID: 103 ").unwrap();
    assert!(first < second && second < third);
    assert!(exported.contains("--- [Session 1] ---\nSPID: 9 "));
}

#[test]
fn sorting_by_a_column_and_back_to_log_order() {
    let mut app = SnapshotViewerApp::default();
    assert_eq!(app.loaded_file_name, "請將 Snapshot Log 檔案拖曳至此視窗");
    app.parse_snapshot_content(&snapshot_log("PROD1", &dashboard(three_requests())));
    assert_eq!(app.sort_col, SortColumn::Original);
    assert!(app.sort_asc);
    // elapsed time sorts descending first
    app.click_header(SortColumn::Elapsed);
    assert_eq!(app.sort_col, SortColumn::Elapsed);
    assert!(!app.sort_asc);
    assert_eq!(spids(&app.snapshots[0]), vec!["57", "103", "9"]);
    // the same header again turns the direction
    app.click_header(SortColumn::Elapsed);
    assert!(app.sort_asc);
    assert_eq!(spids(&app.snapshots[0]), vec!["9", "103", "57"]);
    // the action column gives the log order back
    app.click_header(SortColumn::Original);
    assert_eq!(app.sort_col, SortColumn::Original);
    assert!(app.sort_asc);
    assert_eq!(spids(&app.snapshots[0]), vec!["57", "9", "103"]);
    // a second click there turns the log order around
    app.click_header(SortColumn::Original);
    assert!(!app.sort_asc);
    assert_eq!(spids(&app.snapshots[0]), vec!["103", "9", "57"]);
}

#[test]
fn request_ids_sort_as_numbers_and_blocking_sorts_descending() {
    let mut app = SnapshotViewerApp::default();
    app.parse_snapshot_content(&snapshot_log("PROD1", &dashboard(three_requests())));
    app.click_header(SortColumn::Spid);
    assert!(app.sort_asc);
    assert_eq!(spids(&app.snapshots[0]), vec!["9", "57", "103"]);
    app.click_header(SortColumn::Blocking);
    assert!(!app.sort_asc);
    // 9 and 103 are both blocked by 57 and keep their order from the previous sort
    assert_eq!(spids(&app.snapshots[0]), vec!["9", "103", "57"]);
    app.click_header(SortColumn::Status);
    assert!(app.sort_asc);
    assert_eq!(spids(&app.snapshots[0]), vec!["103", "9", "57"]);
}

#[test]
fn choosing_another_snapshot_sorts_it_by_the_current_column() {
    let mut log = snapshot_log("PROD1", &dashboard(three_requests()));
    log.push_str(&snapshot_log("PROD2", &dashboard(three_requests())));
    let mut app = SnapshotViewerApp::default();
    app.parse_snapshot_content(&log);
    app.click_header(SortColumn::Spid);
    assert_eq!(spids(&app.snapshots[1]), vec!["57", "9", "103"]);
    app.select_snapshot(1);
    assert_eq!(app.selected_snapshot_idx, 1);
    assert_eq!(spids(&app.snapshots[1]), vec!["9", "57", "103"]);
}

#[test]
fn loading_a_log_resets_the_view() {
    let mut app = SnapshotViewerApp::default();
    app.parse_snapshot_content(&snapshot_log("PROD1", &dashboard(three_requests())));
    app.click_header(SortColumn::Sql);
    app.parse_snapshot_content(&snapshot_log("PROD9", &dashboard(Vec::new())));
    assert_eq!(app.sort_col, SortColumn::Original);
    assert!(app.sort_asc);
    assert_eq!(app.selected_snapshot_idx, 0);
    assert!(app.selected_session.is_none());
    assert_eq!(app.snapshots[0].server, "PROD9");
}

#[test]
fn sorting_keeps_equal_requests_in_order() {
    let snaps = parse_snapshots(&snapshot_log("PROD1", &dashboard(three_requests())));
    let sorted = sort_sessions(&snaps[0].sessions, SortColumn::WaitType, true);
    let ids: Vec<usize> = sorted.iter().map(|r| r.original_idx).collect();
    assert_eq!(ids, vec![0, 1, 2]);
    let sorted = sort_sessions(&snaps[0].sessions, SortColumn::WaitType, false);
    let ids: Vec<usize> = sorted.iter().map(|r| r.original_idx).collect();
    assert_eq!(ids, vec![0, 1, 2]);
}

#[test]
fn unreadable_numbers_sort_as_zero() {
    let mut a = SessionSnapshotData::empty(0);
    a.spid = " 12 ".to_string();
    let mut b = SessionSnapshotData::empty(1);
    b.spid = "n/a".to_string();
    assert_eq!(compare_sessions(SortColumn::Spid, true, &a, &b), Order::Greater);
    assert_eq!(compare_sessions(SortColumn::Spid, false, &a, &b), Order::Less);
    assert_eq!(compare_sessions(SortColumn::Original, true, &a, &b), Order::Less);
    b.spid = "0".to_string();
    a.spid = "x".to_string();
    assert_eq!(compare_sessions(SortColumn::Spid, true, &a, &b), Order::Equal);
}

#[test]
fn export_file_name_from_time_and_server() {
    let mut d = parse_snapshots(&snapshot_log("PROD-1\\SQL EXPRESS", &dashboard(Vec::new()))).remove(0);
    assert_eq!(export_file_name("snapshot_log_20260824", &d), "snapshot_log_20260824_133409_PROD-1_SQL_EXPRESS.log");
    d.server = "資料庫_A1".to_string();
    d.capture_time = "13:34:09".to_string();
    assert_eq!(export_file_name("x", &d), "x_000000_資料庫_A1.log");
}

#[test]
fn header_labels_show_the_direction() {
    assert_eq!(header_label("SPID", SortColumn::Spid, SortColumn::Spid, true), "SPID ⬆");
    assert_eq!(header_label("SPID", SortColumn::Spid, SortColumn::Spid, false), "SPID ⬇");
    assert_eq!(header_label("SPID", SortColumn::Spid, SortColumn::Elapsed, true), "SPID");
}

#[test]
fn snapshot_wait_cell_and_detail_text() {
    let snaps = parse_snapshots(&snapshot_log("PROD1", &dashboard(three_requests())));
    let r = &snaps[0].sessions[0];
    assert_eq!(snap_wait_cell(r), "LCK_M_X (300ms)");
    let detail = snap_session_detail(r);
    assert!(detail.starts_with("SPID: 57\nElapsed Time: 65000 ms\nStatus: suspended\nWait Type: LCK_M_X (300 ms)\n"));
    assert!(detail.ends_with("--- Parent Batch SQL ---\nBEGIN TRAN; UPDATE t SET x = 1"));
}

#[test]
fn statements_over_several_lines_read_back() {
    let r = request(57, 65000, 0, "running", "  SELECT a,\n       b\nFROM t  ", "EXEC x\n\nGO");
    let snaps = parse_snapshots(&snapshot_log("PROD1", &dashboard(vec![r])));
    let s = &snaps[0].sessions[0];
    assert_eq!(s.executing_sql, "SELECT a,\n       b\nFROM t");
    assert_eq!(s.parent_batch_sql, "EXEC x\n\nGO");
}

#[test]
fn whitespace_at_the_end_of_a_statement_line_is_not_read_back() {
    let r = request(57, 65000, 0, "running", "SELECT a, \nFROM t", "EXEC x");
    let snaps = parse_snapshots(&snapshot_log("PROD1", &dashboard(vec![r])));
    assert_eq!(snaps[0].sessions[0].executing_sql, "SELECT a,\nFROM t");
}

#[test]
fn blank_batch_statements_read_back() {
    let reqs = vec![
        request(57, 65000, 0, "running", "SELECT 1", "   "),
        request(9, 10, 0, "running", "SELECT 2", ""),
    ];
    let snaps = parse_snapshots(&snapshot_log("PROD1", &dashboard(reqs)));
    assert_eq!(snaps.len(), 1);
    assert_eq!(spids(&snaps[0]), vec!["57", "9"]);
    assert_eq!(snaps[0].sessions[0].parent_batch_sql, "");
    assert_eq!(snaps[0].sessions[1].executing_sql, "SELECT 2");
    assert_eq!(snaps[0].sessions[1].parent_batch_sql, "");
}

#[test]
fn empty_fields_at_the_ends_of_lines_read_back() {
    let mut r = request(57, 65000, 0, "", "SELECT 1", "EXEC x");
    r.last_wait_type = String::new();
    r.database_name = String::new();
    r.start_time = String::new();
    let mut d = dashboard(vec![r]);
    d.capture_time = String::new();
    let snaps = parse_snapshots(&snapshot_log("PROD1", &d));
    assert_eq!(snaps.len(), 1);
    assert_eq!(snaps[0].capture_time, "");
    let s = &snaps[0].sessions[0];
    assert_eq!(s.status, "");
    assert_eq!(s.last_wait_type, "");
    assert_eq!(s.db_name, "");
    assert_eq!(s.start_time, "");
    assert_eq!(s.command, "UPDATE");
    assert_eq!(s.executing_sql, "SELECT 1");
}

#[test]
fn figures_that_are_not_numbers_read_back_after_export() {
    let mut d = dashboard(three_requests());
    d.workers_percent = "n/a".to_string();
    let mut snaps = parse_snapshots(&snapshot_log("PROD1", &d));
    let snap = &mut snaps[0];
    snap.ple = "unknown".to_string();
    snap.sessions[0].elapsed = "about 5 s".to_string();
    snap.sessions[0].dop = String::new();
    let again = parse_snapshots(&export_snapshot_text(snap));
    assert_eq!(again.len(), 1);
    assert_eq!(again[0].ple, "unknown");
    assert_eq!(again[0].workers, "41 / 512 (n/a)");
    assert_eq!(again[0].sessions[0].elapsed, "about 5 s");
    assert_eq!(again[0].sessions[0].dop, "");
}

#[test]
fn header_and_request_count_read_back_whatever_the_requests_hold() {
    let mut r = request(57, 65000, 0, "running\n| odd", "SELECT 1\n  Server: elsewhere", "EXEC x");
    r.login_name = "a | b".to_string();
    let reqs = vec![r, request(9, 10, 0, "running", "SELECT 2", "EXEC y")];
    let snaps = parse_snapshots(&snapshot_log("PROD1", &dashboard(reqs)));
    assert_eq!(snaps.len(), 1);
    assert_eq!(snaps[0].server, "PROD1");
    assert_eq!(snaps[0].capture_time, "2026-08-24 13:34:09");
    assert_eq!(snaps[0].workers, "41 / 512 (8.01%)");
    assert_eq!(snaps[0].request_sessions_count, "6");
    assert_eq!(snaps[0].sessions.len(), 2);
}

#[test]
fn logs_read_one_after_the_other() {
    let first = snapshot_log("PROD1", &dashboard(three_requests()));
    let second = snapshot_log("PROD2", &dashboard(Vec::new()));
    let both = parse_snapshots(&(first.clone() + &second));
    let a = parse_snapshots(&first);
    let b = parse_snapshots(&second);
    assert_eq!(both.len(), a.len() + b.len());
    assert_eq!(both[0].server, "PROD1");
    assert_eq!(both[1].server, "PROD2");
}

#[test]
fn export_plan_needs_a_snapshot_and_a_log_path() {
    let mut app = SnapshotViewerApp::default();
    assert!(app.export_plan("snapshot_log").is_none());
    app.parse_snapshot_content(&snapshot_log("PROD1", &dashboard(three_requests())));
    assert!(app.export_plan("snapshot_log").is_none());
    app.loaded_file_path = "/logs/snapshot_log.log".to_string();
    app.click_header(SortColumn::Spid);
    let (name, text) = app.export_plan("snapshot_log").unwrap();
    assert_eq!(name, "snapshot_log_133409_PROD1.log");
    assert_eq!(text, export_snapshot_text(&app.snapshots[0]));
    assert!(text.contains("--- [Session 1] ---\nSPID: 9 "));
    app.loaded_file_path = String::new();
    assert!(app.export_plan("snapshot_log").is_none());
}

#[test]
fn sorting_and_choosing_keep_the_loaded_file_and_open_request() {
    let mut log = snapshot_log("PROD1", &dashboard(three_requests()));
    log.push_str(&snapshot_log("PROD2", &dashboard(three_requests())));
    let mut app = SnapshotViewerApp::default();
    app.loaded_file_name = "loaded".to_string();
    app.loaded_file_path = "/logs/a.log".to_string();
    app.parse_snapshot_content(&log);
    app.selected_session = Some(app.snapshots[0].sessions[1].duplicate());
    app.click_header(SortColumn::Elapsed);
    app.select_snapshot(1);
    assert_eq!(app.loaded_file_name, "loaded");
    assert_eq!(app.loaded_file_path, "/logs/a.log");
    assert_eq!(app.selected_session.as_ref().unwrap().spid, "9");
}

#[test]
fn sorting_again_by_the_same_column_changes_nothing() {
    let mut app = SnapshotViewerApp::default();
    app.parse_snapshot_content(&snapshot_log("PROD1", &dashboard(three_requests())));
    app.click_header(SortColumn::Elapsed);
    let once = spids(&app.snapshots[0]);
    assert_eq!(once, vec!["57", "103", "9"]);
    app.apply_sort();
    assert_eq!(spids(&app.snapshots[0]), once);
    let snaps = parse_snapshots(&snapshot_log("PROD1", &dashboard(three_requests())));
    let sorted = sort_sessions(&snaps[0].sessions, SortColumn::Status, false);
    let again = sort_sessions(&sorted, SortColumn::Status, false);
    let a: Vec<usize> = sorted.iter().map(|r| r.original_idx).collect();
    let b: Vec<usize> = again.iter().map(|r| r.original_idx).collect();
    assert_eq!(a, b);
}
