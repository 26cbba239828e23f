use sql_monitor::alert_viewer::{alert_session_detail, alert_wait_cell, AlertEntry, LogViewerApp, SessionAlertData};
use sql_monitor::model::SessionData;
use sql_monitor::report::{alert_log_entry, worker_alert_log_entry};

fn request(spid: i16, elapsed: i32, sql: &str, batch: &str) -> SessionData {
    SessionData {
        session_id: spid,
        elapsed_time_ms: elapsed,
        status: "suspended".to_string(),
        wait_type: "CXPACKET".to_string(),
        wait_time_ms: 4500,
        executing_sql: sql.to_string(),
        wait_session_id: 12,
        last_wait_type: "CXPACKET".to_string(),
        wait_resource: "".to_string(),
        parent_batch_sql: batch.to_string(),
        cpu_time_ms: 88000,
        logical_reads: 123456,
        physical_reads: 77,
        writes: 5,
        row_count: 10,
        open_transaction_count: 0,
        dop: 8,
        client_net_address: "10.1.2.3".to_string(),
        login_name: "report".to_string(),
        database_name: "DW".to_string(),
        command: "SELECT".to_string(),
        start_time: "2026-08-24 13:20:00".to_string(),
        capture_time: "2026-08-24 13:34:09".to_string(),
    }
}

fn read(content: &str) -> Vec<AlertEntry> {
    let mut app = LogViewerApp::default();
    assert_eq!(app.loaded_file_name, "請將 Alert Log 檔案拖曳至此視窗");
    app.parse_log_content(content);
    app.alerts
}

fn session(e: &AlertEntry) -> &SessionAlertData {
    match e {
        AlertEntry::Session(s) => s,
        AlertEntry::Worker(_) => panic!("expected a session entry"),
    }
}

#[test]
fn session_entry_reads_back() {
    let log = alert_log_entry("2026-08-24 13:34:09", "PROD1", &request(57, 65000, " SELECT 1 ", "EXEC dbo.report"));
    let alerts = read(&log);
    assert_eq!(alerts.len(), 1);
    let s = session(&alerts[0]);
    assert_eq!(s.log_time, "2026-08-24 13:34:09");
    assert_eq!(s.server, "PROD1");
    assert_eq!(s.spid, "57");
    assert_eq!(s.elapsed, "65000");
    assert_eq!(s.status, "suspended");
    assert_eq!(s.wait_type, "CXPACKET");
    assert_eq!(s.wait_time_ms, "4500");
    assert_eq!(s.last_wait_type, "CXPACKET");
    assert_eq!(s.wait_resource, "");
    assert_eq!(s.blocking_spid, "12");
    assert_eq!(s.cpu_time_ms, "88000");
    assert_eq!(s.logical_reads, "123456");
    assert_eq!(s.physical_reads, "77");
    assert_eq!(s.writes, "5");
    assert_eq!(s.row_count, "10");
    assert_eq!(s.open_trans, "0");
    assert_eq!(s.dop, "8");
    assert_eq!(s.client_address, "10.1.2.3");
    assert_eq!(s.login_name, "report");
    assert_eq!(s.db_name, "DW");
    assert_eq!(s.command, "SELECT");
    assert_eq!(s.start_time, "2026-08-24 13:20:00");
    assert_eq!(s.executing_sql, "SELECT 1");
    assert_eq!(s.parent_batch_sql, "EXEC dbo.report");
}

#[test]
fn worker_entry_reads_back() {
    let log = worker_alert_log_entry("2026-08-24 13:34:09", "PROD1", 410, 512, 80);
    let alerts = read(&log);
    assert_eq!(alerts.len(), 1);
    match &alerts[0] {
        AlertEntry::Worker(w) => {
            assert_eq!(w.log_time, "2026-08-24 13:34:09");
            assert_eq!(w.server, "PROD1");
            assert_eq!(w.usage_msg, "Worker Threads usage is high: 80% (410 / 512)");
        }
        AlertEntry::Session(_) => panic!("expected a worker entry"),
    }
}

#[test]
fn log_is_read_entry_by_entry() {
    let mut log = worker_alert_log_entry("2026-08-24 13:34:09", "PROD1", 410, 512, 80);
    log.push_str(&alert_log_entry("2026-08-24 13:34:10", "PROD2", &request(57, 65000, "SELECT 1", "SELECT 1")));
    log.push_str(&alert_log_entry("2026-08-24 13:34:11", "PROD2", &request(58, 61000, "SELECT 2", "SELECT 2")));
    let alerts = read(&log);
    assert_eq!(alerts.len(), 3);
    assert!(matches!(alerts[0], AlertEntry::Worker(_)));
    assert_eq!(session(&alerts[1]).spid, "57");
    assert_eq!(session(&alerts[2]).spid, "58");
    assert_eq!(session(&alerts[2]).log_time, "2026-08-24 13:34:11");
}

#[test]
fn statements_over_several_lines_are_joined() {
    let log = alert_log_entry("t", "PROD1", &request(57, 65000, "SELECT a,\n       b\nFROM t", "EXEC x"));
    let s = session(&read(&log)[0]).clone_fields();
    assert_eq!(s.0, "SELECT a,\n       b\nFROM t");
    assert_eq!(s.1, "EXEC x");
}

#[test]
fn a_blank_batch_statement_ends_up_in_the_executing_statement() {
    // the entry's last line "\tParent Batch SQL: " loses its trailing space
    // when the block is trimmed, and is then read as a continuation line
    let log = alert_log_entry("t", "PROD1", &request(57, 65000, "SELECT 1", "   "));
    let s = session(&read(&log)[0]).clone_fields();
    assert_eq!(s.0, "SELECT 1\n\tParent Batch SQL:");
    assert_eq!(s.1, "");
}

#[test]
fn blocks_of_neither_kind_are_skipped() {
    assert!(read("==================================================\nsomething else\n==================================================\n\n").is_empty());
    assert!(read("").is_empty());
}

#[test]
fn alert_wait_cell_and_detail_text() {
    let log = alert_log_entry("2026-08-24 13:34:09", "PROD1", &request(57, 65000, "SELECT 1", "EXEC dbo.report"));
    let alerts = read(&log);
    let s = session(&alerts[0]);
    assert_eq!(alert_wait_cell(s), "CXPACKET (4500ms)");
    let detail = alert_session_detail(s);
    assert!(detail.starts_with("Log Time: 2026-08-24 13:34:09\nServer: PROD1\nSPID: 57\n"));
    assert!(detail.ends_with("\n--- Parent Batch SQL ---\nEXEC dbo.report"));
}

trait Statements {
    fn clone_fields(&self) -> (String, String);
}

impl Statements for SessionAlertData {
    fn clone_fields(&self) -> (String, String) {
        (self.executing_sql.clone(), self.parent_batch_sql.clone())
    }
}

#[test]
fn fields_with_tabs_and_brackets_read_back() {
    let mut r = request(57, 65000, "SELECT 1", "BEGIN\n  EXEC dbo.report\nEND");
    r.login_name = "domain\\user\t[ops]".to_string();
    r.wait_resource = "PAGE: 5:1:104 | key".to_string();
    let log = alert_log_entry("2026-08-24 13:34:09", "PROD[1]", &r);
    let alerts = read(&log);
    assert_eq!(alerts.len(), 1);
    let s = session(&alerts[0]);
    assert_eq!(s.server, "PROD[1]");
    assert_eq!(s.login_name, "domain\\user\t[ops]");
    assert_eq!(s.wait_resource, "PAGE: 5:1:104 | key");
    assert_eq!(s.parent_batch_sql, "BEGIN\n  EXEC dbo.report\nEND");
}

#[test]
fn alert_logs_read_one_after_the_other() {
    let first = alert_log_entry("t1", "PROD1", &request(57, 65000, "SELECT 1", "EXEC a"));
    let second = worker_alert_log_entry("t2", "PROD2", 400, 512, 78);
    let both = read(&(first.clone() + &second));
    assert_eq!(both.len(), read(&first).len() + read(&second).len());
    assert_eq!(session(&both[0]).spid, "57");
    assert!(matches!(both[1], AlertEntry::Worker(_)));
}
