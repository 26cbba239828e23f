//! The alert log viewer reads back what the monitor writes: an entry for high
//! worker usage gives its time, server and message again, and an entry for a
//! long-running request gives its fields again.
use vstd::prelude::*;
use crate::alert_viewer::{
    AlertEntryView, SessionAlertState, SessionAlertView, WorkerAlertView, alert_of_block, empty_session_alert,
    alerts_of_blocks, empty_worker_alert, parse_alert_log, session_fold, session_line_step,
    session_wait_fields, worker_fold, worker_line_step,
};
use crate::model::SessionView;
use crate::number::int_decimal;
use crate::report::{
    alert_client_lines, alert_cpu_lines, alert_head, alert_log_text, alert_wait_lines,
    alert_write_lines, separator_line, worker_alert_text,
};
use crate::text::{
    lemma_split_from_nonempty, char_is_whitespace, contains, lines, occurs_at, remove_all, split, starts_with, trim, trim_end, trim_start,
};
use crate::text_laws::{
    clear_of, ends_before, lacks, lemma_blank_prefix, lemma_clear_of_before, lemma_split_concat, lemma_contains_prefix,
    lemma_lines_text_labelled, lemma_lines_text_push, lemma_split_last_line, lemma_split_lines, lemma_lacks_cat, lemma_decimal_lacks, lemma_differ_at,
    lemma_ends_before_by_last, lemma_lacks_ends_before, lemma_lacks_no_occurrence, lemma_split_leading, lemma_trim_leading_line_feed,
    lemma_lines_of_lines_text, lemma_lines_one, lemma_lines_text_ends, lemma_lines_text_nl,
    lemma_lines_text_nl_append, lemma_plain_lines_append, lemma_remove_prefix, lines_text_nl,
    lemma_remove_suffix, lemma_split_head, lemma_split_whole, lemma_strip_one, lemma_trim_ends,
    lemma_trim_line_feed, lemma_trim_trimmed, lines_text, plain_lines, trimmed_text,
};

verus! {

/// The message of a worker entry, as the viewer shows it.
pub open spec fn worker_usage_message(active_workers: int, max_threads: int, percent: int) -> Seq<char> {
    "Worker Threads usage is high: "@ + int_decimal(percent) + "% ("@ + int_decimal(active_workers) + " / "@
        + int_decimal(max_threads) + ")"@
}

proof fn lemma_occurs_middle(x: Seq<char>, w: Seq<char>, y: Seq<char>)
    ensures
        occurs_at(x + w + y, w, x.len() as int),
        contains(x + w + y, w),
{
    let s = x + w + y;
    assert(s.subrange(x.len() as int, (x.len() + w.len()) as int) =~= w);
}


/// The line of a worker entry, without its line feed.
pub open spec fn worker_alert_line(log_time: Seq<char>, server_id: Seq<char>, active_workers: int, max_threads: int, percent: int) -> Seq<char> {
    seq!['['] + log_time + "] Server: "@ + server_id + " | "@ + ("ALERT! "@ + worker_usage_message(
        active_workers,
        max_threads,
        percent,
    ))
}

proof fn lemma_message_lacks(active_workers: int, max_threads: int, percent: int, c: char)
    requires
        c == '\n' || c == ']' || c == '=' || c == '|' || c == '!',
    ensures
        lacks(worker_usage_message(active_workers, max_threads, percent), c),
        lacks("ALERT! "@ + worker_usage_message(active_workers, max_threads, percent), c) <== c != '!',
{
    lemma_decimal_lacks(percent, c);
    lemma_decimal_lacks(active_workers, c);
    lemma_decimal_lacks(max_threads, c);
    let l1 = "Worker Threads usage is high: "@;
    let l2 = "% ("@;
    let l3 = " / "@;
    let l4 = ")"@;
    assert(lacks(l1, c) && lacks(l2, c) && lacks(l3, c) && lacks(l4, c)) by {
        reveal_strlit("Worker Threads usage is high: ");
        reveal_strlit("% (");
        reveal_strlit(" / ");
        reveal_strlit(")");
    }
    let dp = int_decimal(percent);
    let da = int_decimal(active_workers);
    let dm = int_decimal(max_threads);
    lemma_lacks_cat(l1, dp, c);
    lemma_lacks_cat(l1 + dp, l2, c);
    lemma_lacks_cat(l1 + dp + l2, da, c);
    lemma_lacks_cat(l1 + dp + l2 + da, l3, c);
    lemma_lacks_cat(l1 + dp + l2 + da + l3, dm, c);
    lemma_lacks_cat(l1 + dp + l2 + da + l3 + dm, l4, c);
    if c != '!' {
        assert(lacks("ALERT! "@, c)) by {
            reveal_strlit("ALERT! ");
        }
        lemma_lacks_cat("ALERT! "@, worker_usage_message(active_workers, max_threads, percent), c);
    }
}

proof fn lemma_worker_line_lacks(log_time: Seq<char>, server_id: Seq<char>, active_workers: int, max_threads: int, percent: int, c: char)
    requires
        c == '\n',
        lacks(log_time, c),
        lacks(server_id, c),
    ensures
        lacks(worker_alert_line(log_time, server_id, active_workers, max_threads, percent), c),
{
    lemma_message_lacks(active_workers, max_threads, percent, c);
    let q = "ALERT! "@ + worker_usage_message(active_workers, max_threads, percent);
    assert(lacks(seq!['['], c));
    assert(lacks("] Server: "@, c) && lacks(" | "@, c)) by {
        reveal_strlit("] Server: ");
        reveal_strlit(" | ");
    }
    lemma_lacks_cat(seq!['['], log_time, c);
    lemma_lacks_cat(seq!['['] + log_time, "] Server: "@, c);
    lemma_lacks_cat(seq!['['] + log_time + "] Server: "@, server_id, c);
    lemma_lacks_cat(seq!['['] + log_time + "] Server: "@ + server_id, " | "@, c);
    lemma_lacks_cat(seq!['['] + log_time + "] Server: "@ + server_id + " | "@, q, c);
}

proof fn lemma_worker_text_shape(log_time: Seq<char>, server_id: Seq<char>, active_workers: int, max_threads: int, percent: int)
    ensures
        worker_alert_text(log_time, server_id, active_workers, max_threads, percent) == (worker_alert_line(
            log_time,
            server_id,
            active_workers,
            max_threads,
            percent,
        ) + seq!['\n']) + separator_line() + seq!['\n'],
{
    reveal(worker_alert_text);
    reveal_strlit("[");
    reveal_strlit(" | ALERT! Worker Threads usage is high: ");
    reveal_strlit("Worker Threads usage is high: ");
    reveal_strlit("ALERT! ");
    reveal_strlit(" | ");
    reveal_strlit(")\n");
    reveal_strlit(")");
    reveal_strlit("\n");
    assert(worker_alert_text(log_time, server_id, active_workers, max_threads, percent) =~= (worker_alert_line(
        log_time,
        server_id,
        active_workers,
        max_threads,
        percent,
    ) + seq!['\n']) + separator_line() + seq!['\n']);
}

proof fn lemma_worker_line_read(log_time: Seq<char>, server_id: Seq<char>, active_workers: int, max_threads: int, percent: int)
    requires
        !(log_time.len() > 0 && log_time[0] == '['),
        ends_before(seq!['['] + log_time, "] Server: "@),
        clear_of(server_id, "] Server: "@),
        ends_before(server_id, " | "@),
    ensures
        worker_line_step(empty_worker_alert(), worker_alert_line(log_time, server_id, active_workers, max_threads, percent))
            == (WorkerAlertView {
            log_time,
            server: server_id,
            usage_msg: worker_usage_message(active_workers, max_threads, percent),
        }),
{
    let line = worker_alert_line(log_time, server_id, active_workers, max_threads, percent);
    let msg = worker_usage_message(active_workers, max_threads, percent);
    let alert = "ALERT! "@;
    let q = alert + msg;
    let bar = " | "@;
    let rest_text = server_id + bar + q;
    let open = seq!['['] + log_time;
    let head = "] Server: "@;
    assert(line =~= open + head + rest_text);
    assert(starts_with(line, seq!['['])) by {
        assert(line.take(1) =~= seq!['[']);
    }
    assert(contains(line, "Server:"@)) by {
        reveal_strlit("] Server: ");
        reveal_strlit("] ");
        reveal_strlit(" ");
        reveal_strlit("Server:");
        assert(line =~= (open + "] "@) + "Server:"@ + (" "@ + rest_text));
        lemma_occurs_middle(open + "] "@, "Server:"@, " "@ + rest_text);
    }
    lemma_message_lacks(active_workers, max_threads, percent, ']');
    lemma_message_lacks(active_workers, max_threads, percent, '|');
    lemma_message_lacks(active_workers, max_threads, percent, '!');
    assert(head.len() == 10 && head[0] == ']' && lacks(head, '|')) by {
        reveal_strlit("] Server: ");
    }
    assert(lacks(bar, ']') && bar.len() == 3 && bar[1] == '|' && bar[0] == ' ') by {
        reveal_strlit(" | ");
    }
    lemma_lacks_cat(bar, q, ']');
    assert(rest_text =~= server_id + (bar + q));
    lemma_clear_of_before(server_id, head, bar + q);
    lemma_split_head(open, head, rest_text);
    lemma_split_whole(rest_text, head);
    let parts = split(line, head);
    assert(parts == seq![open] + seq![rest_text]);
    assert(parts.len() == 2 && parts[0] == open && parts[1] == rest_text);
    lemma_split_head(server_id, bar, q);
    lemma_lacks_no_occurrence(q, bar, 1);
    lemma_split_whole(q, bar);
    let rest = split(rest_text, bar);
    assert(rest == seq![server_id] + seq![q]);
    assert(rest.len() == 2 && rest[0] == server_id && rest[1] == q);
    lemma_strip_one('[', log_time);
    assert(alert[5] == '!' && alert.len() == 7 && forall|k: int| 0 <= k < 5 ==> alert[k] != '!') by {
        reveal_strlit("ALERT! ");
    }
    lemma_lacks_no_occurrence(msg, alert, 5);
    lemma_remove_prefix(alert, msg);
}

/// An entry for high worker usage, read back by the alert log viewer, gives
/// one worker entry with the time, the server and the usage message. This
/// holds for a time and a server on one line each, the time neither opening
/// with "[" nor holding "] Server: " before its own, the server clear of
/// "] Server: " and running cleanly into " | ", and an entry that holds no
/// separator line before its own.
pub proof fn law_worker_entry_read_back(
    log_time: Seq<char>,
    server_id: Seq<char>,
    active_workers: int,
    max_threads: int,
    percent: int,
)
    requires
        lacks(log_time, '\n'),
        !(log_time.len() > 0 && log_time[0] == '['),
        ends_before(seq!['['] + log_time, "] Server: "@),
        lacks(server_id, '\n'),
        clear_of(server_id, "] Server: "@),
        ends_before(server_id, " | "@),
        !contains(worker_alert_line(log_time, server_id, active_workers, max_threads, percent) + seq!['\n'], separator_line()),
    ensures
        parse_alert_log(worker_alert_text(log_time, server_id, active_workers, max_threads, percent))
            == seq![
            AlertEntryView::Worker(
                WorkerAlertView {
                    log_time,
                    server: server_id,
                    usage_msg: worker_usage_message(active_workers, max_threads, percent),
                },
            ),
        ],
{
    let text = worker_alert_text(log_time, server_id, active_workers, max_threads, percent);
    let line = worker_alert_line(log_time, server_id, active_workers, max_threads, percent);
    let entry = AlertEntryView::Worker(
        WorkerAlertView {
            log_time,
            server: server_id,
            usage_msg: worker_usage_message(active_workers, max_threads, percent),
        },
    );
    let sep = separator_line();
    let nl = seq!['\n'];
    lemma_worker_text_shape(log_time, server_id, active_workers, max_threads, percent);
    lemma_worker_line_lacks(log_time, server_id, active_workers, max_threads, percent, '\n');
    assert(sep.len() == 50 && sep[0] == '=' && lacks(sep, '\n')) by {
        reveal_strlit("==================================================");
    }
    assert((line + nl).last() == '\n');
    lemma_ends_before_by_last(line + nl, sep);
    lemma_split_head(line + nl, sep, nl);
    lemma_lacks_no_occurrence(nl, sep, 0);
    lemma_split_whole(nl, sep);
    let blocks = seq![line + nl] + seq![nl];
    assert(split(text, sep) == blocks);
    assert(line[0] == '[');
    assert(line.last() == ')') by {
        reveal_strlit(")");
    }
    assert(trimmed_text(line));
    lemma_trim_trimmed(line);
    lemma_trim_line_feed();
    assert(blocks.drop_last() =~= seq![line + nl]);
    assert(seq![line + nl].drop_last() =~= Seq::<Seq<char>>::empty());
    let w = "Worker Threads usage is high"@;
    let x = seq!['['] + log_time + "] Server: "@ + server_id + " | "@ + "ALERT! "@;
    let y = ": "@ + int_decimal(percent) + "% ("@ + int_decimal(active_workers) + " / "@ + int_decimal(
        max_threads,
    ) + ")"@;
    assert(line =~= x + w + y) by {
        reveal_strlit("Worker Threads usage is high: ");
        reveal_strlit("Worker Threads usage is high");
        reveal_strlit(": ");
    }
    lemma_occurs_middle(x, w, y);
    lemma_lines_one(line);
    lemma_worker_line_read(log_time, server_id, active_workers, max_threads, percent);
    assert(seq![line].drop_last() =~= Seq::<Seq<char>>::empty());
    assert(worker_fold(seq![line]) == worker_line_step(worker_fold(Seq::<Seq<char>>::empty()), line));
    assert(alert_of_block(line) == Some(entry));
    assert(alerts_of_blocks(seq![line + nl]) == alerts_of_blocks(Seq::<Seq<char>>::empty()).push(entry));
    assert(alerts_of_blocks(blocks) == seq![entry]);
}


/// A field of a session entry that its line gives back: no line break, no
/// carriage return at its end, and no copy of its label.
pub open spec fn entry_field(v: Seq<char>, label: Seq<char>) -> bool {
    &&& lacks(v, '\n')
    &&& !(v.len() > 0 && v.last() == '\r')
    &&& !contains(v, label)
}

/// A line that the alert log viewer takes as one more line of the statement
/// being read: neither a header line nor a labelled line.
pub open spec fn alert_continuation(l: Seq<char>) -> bool {
    &&& !(starts_with(l, seq!['[']) && contains(l, "SPID:"@))
    &&& !starts_with(l, "\tStatus: "@)
    &&& !starts_with(l, "\tWaitType: "@)
    &&& !starts_with(l, "\tLastWaitType: "@)
    &&& !starts_with(l, "\tWaitResource: "@)
    &&& !starts_with(l, "\tWaitSessionID (Blocking): "@)
    &&& !starts_with(l, "\tCPU Time: "@)
    &&& !starts_with(l, "\tLogical Reads: "@)
    &&& !starts_with(l, "\tPhysical Reads: "@)
    &&& !starts_with(l, "\tWrites: "@)
    &&& !starts_with(l, "\tRowCount: "@)
    &&& !starts_with(l, "\tOpen Trans: "@)
    &&& !starts_with(l, "\tDOP: "@)
    &&& !starts_with(l, "\tClient Address: "@)
    &&& !starts_with(l, "\tLogin Name: "@)
    &&& !starts_with(l, "\tDB Name: "@)
    &&& !starts_with(l, "\tCommand: "@)
    &&& !starts_with(l, "\tStart Time: "@)
    &&& !starts_with(l, "\tExecuting SQL: "@)
    &&& !starts_with(l, "\tParent Batch SQL: "@)
}

/// A statement of a session entry that the viewer gives back: no line of it
/// ends in a carriage return, its first line holds no copy of the label, and
/// the viewer takes each line after the first as one more statement line.
pub open spec fn entry_statement(v: Seq<char>, label: Seq<char>) -> bool {
    &&& plain_lines(split(v, seq!['\n']))
    &&& !contains(split(v, seq!['\n'])[0], label)
    &&& forall|i: int| 1 <= i < split(v, seq!['\n']).len() ==> alert_continuation(#[trigger] split(v, seq!['\n'])[i])
}

/// The entry that the viewer shows for `s` logged at `log_time` on
/// `server_id`: the numbers in decimal, the statements trimmed.
pub open spec fn session_alert_view(log_time: Seq<char>, server_id: Seq<char>, s: SessionView) -> SessionAlertView {
    SessionAlertView {
        log_time,
        server: server_id,
        spid: int_decimal(s.session_id),
        elapsed: int_decimal(s.elapsed_time_ms),
        status: s.status,
        wait_type: s.wait_type,
        wait_time_ms: int_decimal(s.wait_time_ms),
        last_wait_type: s.last_wait_type,
        wait_resource: s.wait_resource,
        blocking_spid: int_decimal(s.wait_session_id),
        cpu_time_ms: int_decimal(s.cpu_time_ms),
        logical_reads: int_decimal(s.logical_reads),
        physical_reads: int_decimal(s.physical_reads),
        writes: int_decimal(s.writes),
        row_count: int_decimal(s.row_count),
        open_trans: int_decimal(s.open_transaction_count),
        dop: int_decimal(s.dop),
        client_address: s.client_net_address,
        login_name: s.login_name,
        db_name: s.database_name,
        command: s.command,
        start_time: s.start_time,
        executing_sql: trim(s.executing_sql),
        parent_batch_sql: trim(s.parent_batch_sql),
    }
}

/// The first line of a session entry, without its line feed.
pub open spec fn session_alert_header(log_time: Seq<char>, server_id: Seq<char>, s: SessionView) -> Seq<char> {
    seq!['['] + log_time + "] Server: "@ + server_id + " | "@ + ("SPID: "@ + int_decimal(s.session_id)) + " | "@ + (
    "Alert! Session Elapsed: "@ + int_decimal(s.elapsed_time_ms) + " ms"@)
}

/// The wait lines of a session entry, without line feeds.
pub open spec fn session_alert_wait_lines(s: SessionView) -> Seq<Seq<char>> {
    seq![
        "\tStatus: "@ + (s.status),
        "\tWaitType: "@ + (s.wait_type + " (Time: "@ + int_decimal(s.wait_time_ms) + " ms)"@),
        "\tLastWaitType: "@ + (s.last_wait_type),
        "\tWaitResource: "@ + (s.wait_resource),
        "\tWaitSessionID (Blocking): "@ + (int_decimal(s.wait_session_id)),
    ]
}

/// The cpu lines of a session entry, without line feeds.
pub open spec fn session_alert_cpu_lines(s: SessionView) -> Seq<Seq<char>> {
    seq![
        "\tCPU Time: "@ + (int_decimal(s.cpu_time_ms) + " ms"@),
        "\tLogical Reads: "@ + (int_decimal(s.logical_reads)),
        "\tPhysical Reads: "@ + (int_decimal(s.physical_reads)),
    ]
}

/// The write lines of a session entry, without line feeds.
pub open spec fn session_alert_write_lines(s: SessionView) -> Seq<Seq<char>> {
    seq![
        "\tWrites: "@ + (int_decimal(s.writes)),
        "\tRowCount: "@ + (int_decimal(s.row_count)),
        "\tOpen Trans: "@ + (int_decimal(s.open_transaction_count)),
        "\tDOP: "@ + (int_decimal(s.dop)),
    ]
}

/// The client lines of a session entry, without line feeds.
pub open spec fn session_alert_client_lines(s: SessionView) -> Seq<Seq<char>> {
    seq![
        "\tClient Address: "@ + (s.client_net_address),
        "\tLogin Name: "@ + (s.login_name),
        "\tDB Name: "@ + (s.database_name),
        "\tCommand: "@ + (s.command),
        "\tStart Time: "@ + (s.start_time),
    ]
}

/// The lines of a statement of a session entry: the first after its label.
pub open spec fn statement_lines(label: Seq<char>, v: Seq<char>) -> Seq<Seq<char>> {
    seq![label + split(v, seq!['\n'])[0]] + split(v, seq!['\n']).drop_first()
}

/// The lines of a session entry, without line feeds.
pub open spec fn session_alert_lines(log_time: Seq<char>, server_id: Seq<char>, s: SessionView) -> Seq<Seq<char>> {
    seq![session_alert_header(log_time, server_id, s)] + session_alert_wait_lines(s) + session_alert_cpu_lines(s)
        + session_alert_write_lines(s) + session_alert_client_lines(s) + statement_lines(
        "\tExecuting SQL: "@,
        trim(s.executing_sql),
    ) + statement_lines("\tParent Batch SQL: "@, trim(s.parent_batch_sql))
}

/// The text of a session entry before its closing separator line.
pub open spec fn session_alert_body(log_time: Seq<char>, server_id: Seq<char>, s: SessionView) -> Seq<char> {
    lines_text(session_alert_lines(log_time, server_id, s)) + seq!['\n']
}

/// The state after the lines `ls`, read from `st`.
spec fn session_fold_from(st: SessionAlertState, ls: Seq<Seq<char>>) -> SessionAlertState
    decreases ls.len(),
{
    if ls.len() == 0 {
        st
    } else {
        session_line_step(session_fold_from(st, ls.drop_last()), ls.last())
    }
}

proof fn lemma_fold_from_start(ls: Seq<Seq<char>>)
    ensures
        session_fold(ls) == session_fold_from(SessionAlertState { data: empty_session_alert(), sql_field: 0 }, ls),
    decreases ls.len(),
{
    if ls.len() > 0 {
        lemma_fold_from_start(ls.drop_last());
    }
}

proof fn lemma_fold_from_append(st: SessionAlertState, a: Seq<Seq<char>>, b: Seq<Seq<char>>)
    ensures
        session_fold_from(st, a + b) == session_fold_from(session_fold_from(st, a), b),
    decreases b.len(),
{
    if b.len() == 0 {
        assert(a + b =~= a);
    } else {
        assert((a + b).drop_last() =~= a + b.drop_last());
        lemma_fold_from_append(st, a, b.drop_last());
    }
}

proof fn lemma_alert_step_1(st: SessionAlertState, v: Seq<char>)
    requires
        !contains(v, "\tStatus: "@),
    ensures
        session_line_step(st, "\tStatus: "@ + v) == (SessionAlertState { data: SessionAlertView { status: v, ..st.data }, ..st }),
{
    let l = "\tStatus: "@;
    let line = l + v;
    reveal_strlit("\tStatus: ");
    assert(line[0] == '\t');
    lemma_differ_at(line, seq!['['], 0);
    assert(line.take(l.len() as int) =~= l);
    lemma_remove_prefix(l, v);
}

proof fn lemma_alert_step_2(st: SessionAlertState, v: Seq<char>)
    requires
        !contains(v, "\tWaitType: "@),
    ensures
        session_line_step(st, "\tWaitType: "@ + v) == (SessionAlertState { data: session_wait_fields(st.data, "\tWaitType: "@ + v), ..st }),
{
    let l = "\tWaitType: "@;
    let line = l + v;
    reveal_strlit("\tWaitType: ");
    reveal_strlit("\tStatus: ");
    assert(line[0] == '\t');
    lemma_differ_at(line, seq!['['], 0);
    lemma_differ_at(line, "\tStatus: "@, 1);
    assert(line.take(l.len() as int) =~= l);
    lemma_remove_prefix(l, v);
}

proof fn lemma_alert_step_3(st: SessionAlertState, v: Seq<char>)
    requires
        !contains(v, "\tLastWaitType: "@),
    ensures
        session_line_step(st, "\tLastWaitType: "@ + v) == (SessionAlertState { data: SessionAlertView { last_wait_type: v, ..st.data }, ..st }),
{
    let l = "\tLastWaitType: "@;
    let line = l + v;
    reveal_strlit("\tLastWaitType: ");
    reveal_strlit("\tStatus: ");
    reveal_strlit("\tWaitType: ");
    assert(line[0] == '\t');
    lemma_differ_at(line, seq!['['], 0);
    lemma_differ_at(line, "\tStatus: "@, 1);
    lemma_differ_at(line, "\tWaitType: "@, 1);
    assert(line.take(l.len() as int) =~= l);
    lemma_remove_prefix(l, v);
}

proof fn lemma_alert_step_4(st: SessionAlertState, v: Seq<char>)
    requires
        !contains(v, "\tWaitResource: "@),
    ensures
        session_line_step(st, "\tWaitResource: "@ + v) == (SessionAlertState { data: SessionAlertView { wait_resource: v, ..st.data }, ..st }),
{
    let l = "\tWaitResource: "@;
    let line = l + v;
    reveal_strlit("\tWaitResource: ");
    reveal_strlit("\tLastWaitType: ");
    reveal_strlit("\tStatus: ");
    reveal_strlit("\tWaitType: ");
    assert(line[0] == '\t');
    lemma_differ_at(line, seq!['['], 0);
    lemma_differ_at(line, "\tStatus: "@, 1);
    lemma_differ_at(line, "\tWaitType: "@, 5);
    lemma_differ_at(line, "\tLastWaitType: "@, 1);
    assert(line.take(l.len() as int) =~= l);
    lemma_remove_prefix(l, v);
}

proof fn lemma_alert_step_5(st: SessionAlertState, v: Seq<char>)
    requires
        !contains(v, "\tWaitSessionID (Blocking): "@),
    ensures
        session_line_step(st, "\tWaitSessionID (Blocking): "@ + v) == (SessionAlertState { data: SessionAlertView { blocking_spid: v, ..st.data }, ..st }),
{
    let l = "\tWaitSessionID (Blocking): "@;
    let line = l + v;
    reveal_strlit("\tWaitSessionID (Blocking): ");
    reveal_strlit("\tLastWaitType: ");
    reveal_strlit("\tStatus: ");
    reveal_strlit("\tWaitResource: ");
    reveal_strlit("\tWaitType: ");
    assert(line[0] == '\t');
    lemma_differ_at(line, seq!['['], 0);
    lemma_differ_at(line, "\tStatus: "@, 1);
    lemma_differ_at(line, "\tWaitType: "@, 5);
    lemma_differ_at(line, "\tLastWaitType: "@, 1);
    lemma_differ_at(line, "\tWaitResource: "@, 5);
    assert(line.take(l.len() as int) =~= l);
    lemma_remove_prefix(l, v);
}

proof fn lemma_alert_step_6(st: SessionAlertState, v: Seq<char>)
    requires
        !contains(v, "\tCPU Time: "@),
    ensures
        session_line_step(st, "\tCPU Time: "@ + v) == (SessionAlertState { data: SessionAlertView { cpu_time_ms: remove_all(v, " ms"@), ..st.data }, ..st }),
{
    let l = "\tCPU Time: "@;
    let line = l + v;
    reveal_strlit("\tCPU Time: ");
    reveal_strlit("\tLastWaitType: ");
    reveal_strlit("\tStatus: ");
    reveal_strlit("\tWaitResource: ");
    reveal_strlit("\tWaitSessionID (Blocking): ");
    reveal_strlit("\tWaitType: ");
    assert(line[0] == '\t');
    lemma_differ_at(line, seq!['['], 0);
    lemma_differ_at(line, "\tStatus: "@, 1);
    lemma_differ_at(line, "\tWaitType: "@, 1);
    lemma_differ_at(line, "\tLastWaitType: "@, 1);
    lemma_differ_at(line, "\tWaitResource: "@, 1);
    lemma_differ_at(line, "\tWaitSessionID (Blocking): "@, 1);
    assert(line.take(l.len() as int) =~= l);
    lemma_remove_prefix(l, v);
}

proof fn lemma_alert_step_7(st: SessionAlertState, v: Seq<char>)
    requires
        !contains(v, "\tLogical Reads: "@),
    ensures
        session_line_step(st, "\tLogical Reads: "@ + v) == (SessionAlertState { data: SessionAlertView { logical_reads: v, ..st.data }, ..st }),
{
    let l = "\tLogical Reads: "@;
    let line = l + v;
    reveal_strlit("\tLogical Reads: ");
    reveal_strlit("\tCPU Time: ");
    reveal_strlit("\tLastWaitType: ");
    reveal_strlit("\tStatus: ");
    reveal_strlit("\tWaitResource: ");
    reveal_strlit("\tWaitSessionID (Blocking): ");
    reveal_strlit("\tWaitType: ");
    assert(line[0] == '\t');
    lemma_differ_at(line, seq!['['], 0);
    lemma_differ_at(line, "\tStatus: "@, 1);
    lemma_differ_at(line, "\tWaitType: "@, 1);
    lemma_differ_at(line, "\tLastWaitType: "@, 2);
    lemma_differ_at(line, "\tWaitResource: "@, 1);
    lemma_differ_at(line, "\tWaitSessionID (Blocking): "@, 1);
    lemma_differ_at(line, "\tCPU Time: "@, 1);
    assert(line.take(l.len() as int) =~= l);
    lemma_remove_prefix(l, v);
}

proof fn lemma_alert_step_8(st: SessionAlertState, v: Seq<char>)
    requires
        !contains(v, "\tPhysical Reads: "@),
    ensures
        session_line_step(st, "\tPhysical Reads: "@ + v) == (SessionAlertState { data: SessionAlertView { physical_reads: v, ..st.data }, ..st }),
{
    let l = "\tPhysical Reads: "@;
    let line = l + v;
    reveal_strlit("\tPhysical Reads: ");
    reveal_strlit("\tCPU Time: ");
    reveal_strlit("\tLastWaitType: ");
    reveal_strlit("\tLogical Reads: ");
    reveal_strlit("\tStatus: ");
    reveal_strlit("\tWaitResource: ");
    reveal_strlit("\tWaitSessionID (Blocking): ");
    reveal_strlit("\tWaitType: ");
    assert(line[0] == '\t');
    lemma_differ_at(line, seq!['['], 0);
    lemma_differ_at(line, "\tStatus: "@, 1);
    lemma_differ_at(line, "\tWaitType: "@, 1);
    lemma_differ_at(line, "\tLastWaitType: "@, 1);
    lemma_differ_at(line, "\tWaitResource: "@, 1);
    lemma_differ_at(line, "\tWaitSessionID (Blocking): "@, 1);
    lemma_differ_at(line, "\tCPU Time: "@, 1);
    lemma_differ_at(line, "\tLogical Reads: "@, 1);
    assert(line.take(l.len() as int) =~= l);
    lemma_remove_prefix(l, v);
}

proof fn lemma_alert_step_9(st: SessionAlertState, v: Seq<char>)
    requires
        !contains(v, "\tWrites: "@),
    ensures
        session_line_step(st, "\tWrites: "@ + v) == (SessionAlertState { data: SessionAlertView { writes: v, ..st.data }, ..st }),
{
    let l = "\tWrites: "@;
    let line = l + v;
    reveal_strlit("\tWrites: ");
    reveal_strlit("\tCPU Time: ");
    reveal_strlit("\tLastWaitType: ");
    reveal_strlit("\tLogical Reads: ");
    reveal_strlit("\tPhysical Reads: ");
    reveal_strlit("\tStatus: ");
    reveal_strlit("\tWaitResource: ");
    reveal_strlit("\tWaitSessionID (Blocking): ");
    reveal_strlit("\tWaitType: ");
    assert(line[0] == '\t');
    lemma_differ_at(line, seq!['['], 0);
    lemma_differ_at(line, "\tStatus: "@, 1);
    lemma_differ_at(line, "\tWaitType: "@, 2);
    lemma_differ_at(line, "\tLastWaitType: "@, 1);
    lemma_differ_at(line, "\tWaitResource: "@, 2);
    lemma_differ_at(line, "\tWaitSessionID (Blocking): "@, 2);
    lemma_differ_at(line, "\tCPU Time: "@, 1);
    lemma_differ_at(line, "\tLogical Reads: "@, 1);
    lemma_differ_at(line, "\tPhysical Reads: "@, 1);
    assert(line.take(l.len() as int) =~= l);
    lemma_remove_prefix(l, v);
}

proof fn lemma_alert_step_10(st: SessionAlertState, v: Seq<char>)
    requires
        !contains(v, "\tRowCount: "@),
    ensures
        session_line_step(st, "\tRowCount: "@ + v) == (SessionAlertState { data: SessionAlertView { row_count: v, ..st.data }, ..st }),
{
    let l = "\tRowCount: "@;
    let line = l + v;
    reveal_strlit("\tRowCount: ");
    reveal_strlit("\tCPU Time: ");
    reveal_strlit("\tLastWaitType: ");
    reveal_strlit("\tLogical Reads: ");
    reveal_strlit("\tPhysical Reads: ");
    reveal_strlit("\tStatus: ");
    reveal_strlit("\tWaitResource: ");
    reveal_strlit("\tWaitSessionID (Blocking): ");
    reveal_strlit("\tWaitType: ");
    reveal_strlit("\tWrites: ");
    assert(line[0] == '\t');
    lemma_differ_at(line, seq!['['], 0);
    lemma_differ_at(line, "\tStatus: "@, 1);
    lemma_differ_at(line, "\tWaitType: "@, 1);
    lemma_differ_at(line, "\tLastWaitType: "@, 1);
    lemma_differ_at(line, "\tWaitResource: "@, 1);
    lemma_differ_at(line, "\tWaitSessionID (Blocking): "@, 1);
    lemma_differ_at(line, "\tCPU Time: "@, 1);
    lemma_differ_at(line, "\tLogical Reads: "@, 1);
    lemma_differ_at(line, "\tPhysical Reads: "@, 1);
    lemma_differ_at(line, "\tWrites: "@, 1);
    assert(line.take(l.len() as int) =~= l);
    lemma_remove_prefix(l, v);
}

proof fn lemma_alert_step_11(st: SessionAlertState, v: Seq<char>)
    requires
        !contains(v, "\tOpen Trans: "@),
    ensures
        session_line_step(st, "\tOpen Trans: "@ + v) == (SessionAlertState { data: SessionAlertView { open_trans: v, ..st.data }, ..st }),
{
    let l = "\tOpen Trans: "@;
    let line = l + v;
    reveal_strlit("\tOpen Trans: ");
    reveal_strlit("\tCPU Time: ");
    reveal_strlit("\tLastWaitType: ");
    reveal_strlit("\tLogical Reads: ");
    reveal_strlit("\tPhysical Reads: ");
    reveal_strlit("\tRowCount: ");
    reveal_strlit("\tStatus: ");
    reveal_strlit("\tWaitResource: ");
    reveal_strlit("\tWaitSessionID (Blocking): ");
    reveal_strlit("\tWaitType: ");
    reveal_strlit("\tWrites: ");
    assert(line[0] == '\t');
    lemma_differ_at(line, seq!['['], 0);
    lemma_differ_at(line, "\tStatus: "@, 1);
    lemma_differ_at(line, "\tWaitType: "@, 1);
    lemma_differ_at(line, "\tLastWaitType: "@, 1);
    lemma_differ_at(line, "\tWaitResource: "@, 1);
    lemma_differ_at(line, "\tWaitSessionID (Blocking): "@, 1);
    lemma_differ_at(line, "\tCPU Time: "@, 1);
    lemma_differ_at(line, "\tLogical Reads: "@, 1);
    lemma_differ_at(line, "\tPhysical Reads: "@, 1);
    lemma_differ_at(line, "\tWrites: "@, 1);
    lemma_differ_at(line, "\tRowCount: "@, 1);
    assert(line.take(l.len() as int) =~= l);
    lemma_remove_prefix(l, v);
}

proof fn lemma_alert_step_12(st: SessionAlertState, v: Seq<char>)
    requires
        !contains(v, "\tDOP: "@),
    ensures
        session_line_step(st, "\tDOP: "@ + v) == (SessionAlertState { data: SessionAlertView { dop: v, ..st.data }, ..st }),
{
    let l = "\tDOP: "@;
    let line = l + v;
    reveal_strlit("\tDOP: ");
    reveal_strlit("\tCPU Time: ");
    reveal_strlit("\tLastWaitType: ");
    reveal_strlit("\tLogical Reads: ");
    reveal_strlit("\tOpen Trans: ");
    reveal_strlit("\tPhysical Reads: ");
    reveal_strlit("\tRowCount: ");
    reveal_strlit("\tStatus: ");
    reveal_strlit("\tWaitResource: ");
    reveal_strlit("\tWaitSessionID (Blocking): ");
    reveal_strlit("\tWaitType: ");
    reveal_strlit("\tWrites: ");
    assert(line[0] == '\t');
    lemma_differ_at(line, seq!['['], 0);
    lemma_differ_at(line, "\tStatus: "@, 1);
    lemma_differ_at(line, "\tWaitType: "@, 1);
    lemma_differ_at(line, "\tLastWaitType: "@, 1);
    lemma_differ_at(line, "\tWaitResource: "@, 1);
    lemma_differ_at(line, "\tWaitSessionID (Blocking): "@, 1);
    lemma_differ_at(line, "\tCPU Time: "@, 1);
    lemma_differ_at(line, "\tLogical Reads: "@, 1);
    lemma_differ_at(line, "\tPhysical Reads: "@, 1);
    lemma_differ_at(line, "\tWrites: "@, 1);
    lemma_differ_at(line, "\tRowCount: "@, 1);
    lemma_differ_at(line, "\tOpen Trans: "@, 1);
    assert(line.take(l.len() as int) =~= l);
    lemma_remove_prefix(l, v);
}

proof fn lemma_alert_step_13(st: SessionAlertState, v: Seq<char>)
    requires
        !contains(v, "\tClient Address: "@),
    ensures
        session_line_step(st, "\tClient Address: "@ + v) == (SessionAlertState { data: SessionAlertView { client_address: v, ..st.data }, ..st }),
{
    let l = "\tClient Address: "@;
    let line = l + v;
    reveal_strlit("\tClient Address: ");
    reveal_strlit("\tCPU Time: ");
    reveal_strlit("\tDOP: ");
    reveal_strlit("\tLastWaitType: ");
    reveal_strlit("\tLogical Reads: ");
    reveal_strlit("\tOpen Trans: ");
    reveal_strlit("\tPhysical Reads: ");
    reveal_strlit("\tRowCount: ");
    reveal_strlit("\tStatus: ");
    reveal_strlit("\tWaitResource: ");
    reveal_strlit("\tWaitSessionID (Blocking): ");
    reveal_strlit("\tWaitType: ");
    reveal_strlit("\tWrites: ");
    assert(line[0] == '\t');
    lemma_differ_at(line, seq!['['], 0);
    lemma_differ_at(line, "\tStatus: "@, 1);
    lemma_differ_at(line, "\tWaitType: "@, 1);
    lemma_differ_at(line, "\tLastWaitType: "@, 1);
    lemma_differ_at(line, "\tWaitResource: "@, 1);
    lemma_differ_at(line, "\tWaitSessionID (Blocking): "@, 1);
    lemma_differ_at(line, "\tCPU Time: "@, 2);
    lemma_differ_at(line, "\tLogical Reads: "@, 1);
    lemma_differ_at(line, "\tPhysical Reads: "@, 1);
    lemma_differ_at(line, "\tWrites: "@, 1);
    lemma_differ_at(line, "\tRowCount: "@, 1);
    lemma_differ_at(line, "\tOpen Trans: "@, 1);
    lemma_differ_at(line, "\tDOP: "@, 1);
    assert(line.take(l.len() as int) =~= l);
    lemma_remove_prefix(l, v);
}

proof fn lemma_alert_step_14(st: SessionAlertState, v: Seq<char>)
    requires
        !contains(v, "\tLogin Name: "@),
    ensures
        session_line_step(st, "\tLogin Name: "@ + v) == (SessionAlertState { data: SessionAlertView { login_name: v, ..st.data }, ..st }),
{
    let l = "\tLogin Name: "@;
    let line = l + v;
    reveal_strlit("\tLogin Name: ");
    reveal_strlit("\tCPU Time: ");
    reveal_strlit("\tClient Address: ");
    reveal_strlit("\tDOP: ");
    reveal_strlit("\tLastWaitType: ");
    reveal_strlit("\tLogical Reads: ");
    reveal_strlit("\tOpen Trans: ");
    reveal_strlit("\tPhysical Reads: ");
    reveal_strlit("\tRowCount: ");
    reveal_strlit("\tStatus: ");
    reveal_strlit("\tWaitResource: ");
    reveal_strlit("\tWaitSessionID (Blocking): ");
    reveal_strlit("\tWaitType: ");
    reveal_strlit("\tWrites: ");
    assert(line[0] == '\t');
    lemma_differ_at(line, seq!['['], 0);
    lemma_differ_at(line, "\tStatus: "@, 1);
    lemma_differ_at(line, "\tWaitType: "@, 1);
    lemma_differ_at(line, "\tLastWaitType: "@, 2);
    lemma_differ_at(line, "\tWaitResource: "@, 1);
    lemma_differ_at(line, "\tWaitSessionID (Blocking): "@, 1);
    lemma_differ_at(line, "\tCPU Time: "@, 1);
    lemma_differ_at(line, "\tLogical Reads: "@, 5);
    lemma_differ_at(line, "\tPhysical Reads: "@, 1);
    lemma_differ_at(line, "\tWrites: "@, 1);
    lemma_differ_at(line, "\tRowCount: "@, 1);
    lemma_differ_at(line, "\tOpen Trans: "@, 1);
    lemma_differ_at(line, "\tDOP: "@, 1);
    lemma_differ_at(line, "\tClient Address: "@, 1);
    assert(line.take(l.len() as int) =~= l);
    lemma_remove_prefix(l, v);
}

proof fn lemma_alert_step_15(st: SessionAlertState, v: Seq<char>)
    requires
        !contains(v, "\tDB Name: "@),
    ensures
        session_line_step(st, "\tDB Name: "@ + v) == (SessionAlertState { data: SessionAlertView { db_name: v, ..st.data }, ..st }),
{
    let l = "\tDB Name: "@;
    let line = l + v;
    reveal_strlit("\tDB Name: ");
    reveal_strlit("\tCPU Time: ");
    reveal_strlit("\tClient Address: ");
    reveal_strlit("\tDOP: ");
    reveal_strlit("\tLastWaitType: ");
    reveal_strlit("\tLogical Reads: ");
    reveal_strlit("\tLogin Name: ");
    reveal_strlit("\tOpen Trans: ");
    reveal_strlit("\tPhysical Reads: ");
    reveal_strlit("\tRowCount: ");
    reveal_strlit("\tStatus: ");
    reveal_strlit("\tWaitResource: ");
    reveal_strlit("\tWaitSessionID (Blocking): ");
    reveal_strlit("\tWaitType: ");
    reveal_strlit("\tWrites: ");
    assert(line[0] == '\t');
    lemma_differ_at(line, seq!['['], 0);
    lemma_differ_at(line, "\tStatus: "@, 1);
    lemma_differ_at(line, "\tWaitType: "@, 1);
    lemma_differ_at(line, "\tLastWaitType: "@, 1);
    lemma_differ_at(line, "\tWaitResource: "@, 1);
    lemma_differ_at(line, "\tWaitSessionID (Blocking): "@, 1);
    lemma_differ_at(line, "\tCPU Time: "@, 1);
    lemma_differ_at(line, "\tLogical Reads: "@, 1);
    lemma_differ_at(line, "\tPhysical Reads: "@, 1);
    lemma_differ_at(line, "\tWrites: "@, 1);
    lemma_differ_at(line, "\tRowCount: "@, 1);
    lemma_differ_at(line, "\tOpen Trans: "@, 1);
    lemma_differ_at(line, "\tDOP: "@, 2);
    lemma_differ_at(line, "\tClient Address: "@, 1);
    lemma_differ_at(line, "\tLogin Name: "@, 1);
    assert(line.take(l.len() as int) =~= l);
    lemma_remove_prefix(l, v);
}

proof fn lemma_alert_step_16(st: SessionAlertState, v: Seq<char>)
    requires
        !contains(v, "\tCommand: "@),
    ensures
        session_line_step(st, "\tCommand: "@ + v) == (SessionAlertState { data: SessionAlertView { command: v, ..st.data }, ..st }),
{
    let l = "\tCommand: "@;
    let line = l + v;
    reveal_strlit("\tCommand: ");
    reveal_strlit("\tCPU Time: ");
    reveal_strlit("\tClient Address: ");
    reveal_strlit("\tDB Name: ");
    reveal_strlit("\tDOP: ");
    reveal_strlit("\tLastWaitType: ");
    reveal_strlit("\tLogical Reads: ");
    reveal_strlit("\tLogin Name: ");
    reveal_strlit("\tOpen Trans: ");
    reveal_strlit("\tPhysical Reads: ");
    reveal_strlit("\tRowCount: ");
    reveal_strlit("\tStatus: ");
    reveal_strlit("\tWaitResource: ");
    reveal_strlit("\tWaitSessionID (Blocking): ");
    reveal_strlit("\tWaitType: ");
    reveal_strlit("\tWrites: ");
    assert(line[0] == '\t');
    lemma_differ_at(line, seq!['['], 0);
    lemma_differ_at(line, "\tStatus: "@, 1);
    lemma_differ_at(line, "\tWaitType: "@, 1);
    lemma_differ_at(line, "\tLastWaitType: "@, 1);
    lemma_differ_at(line, "\tWaitResource: "@, 1);
    lemma_differ_at(line, "\tWaitSessionID (Blocking): "@, 1);
    lemma_differ_at(line, "\tCPU Time: "@, 2);
    lemma_differ_at(line, "\tLogical Reads: "@, 1);
    lemma_differ_at(line, "\tPhysical Reads: "@, 1);
    lemma_differ_at(line, "\tWrites: "@, 1);
    lemma_differ_at(line, "\tRowCount: "@, 1);
    lemma_differ_at(line, "\tOpen Trans: "@, 1);
    lemma_differ_at(line, "\tDOP: "@, 1);
    lemma_differ_at(line, "\tClient Address: "@, 2);
    lemma_differ_at(line, "\tLogin Name: "@, 1);
    lemma_differ_at(line, "\tDB Name: "@, 1);
    assert(line.take(l.len() as int) =~= l);
    lemma_remove_prefix(l, v);
}

proof fn lemma_alert_step_17(st: SessionAlertState, v: Seq<char>)
    requires
        !contains(v, "\tStart Time: "@),
    ensures
        session_line_step(st, "\tStart Time: "@ + v) == (SessionAlertState { data: SessionAlertView { start_time: v, ..st.data }, ..st }),
{
    let l = "\tStart Time: "@;
    let line = l + v;
    reveal_strlit("\tStart Time: ");
    reveal_strlit("\tCPU Time: ");
    reveal_strlit("\tClient Address: ");
    reveal_strlit("\tCommand: ");
    reveal_strlit("\tDB Name: ");
    reveal_strlit("\tDOP: ");
    reveal_strlit("\tLastWaitType: ");
    reveal_strlit("\tLogical Reads: ");
    reveal_strlit("\tLogin Name: ");
    reveal_strlit("\tOpen Trans: ");
    reveal_strlit("\tPhysical Reads: ");
    reveal_strlit("\tRowCount: ");
    reveal_strlit("\tStatus: ");
    reveal_strlit("\tWaitResource: ");
    reveal_strlit("\tWaitSessionID (Blocking): ");
    reveal_strlit("\tWaitType: ");
    reveal_strlit("\tWrites: ");
    assert(line[0] == '\t');
    lemma_differ_at(line, seq!['['], 0);
    lemma_differ_at(line, "\tStatus: "@, 4);
    lemma_differ_at(line, "\tWaitType: "@, 1);
    lemma_differ_at(line, "\tLastWaitType: "@, 1);
    lemma_differ_at(line, "\tWaitResource: "@, 1);
    lemma_differ_at(line, "\tWaitSessionID (Blocking): "@, 1);
    lemma_differ_at(line, "\tCPU Time: "@, 1);
    lemma_differ_at(line, "\tLogical Reads: "@, 1);
    lemma_differ_at(line, "\tPhysical Reads: "@, 1);
    lemma_differ_at(line, "\tWrites: "@, 1);
    lemma_differ_at(line, "\tRowCount: "@, 1);
    lemma_differ_at(line, "\tOpen Trans: "@, 1);
    lemma_differ_at(line, "\tDOP: "@, 1);
    lemma_differ_at(line, "\tClient Address: "@, 1);
    lemma_differ_at(line, "\tLogin Name: "@, 1);
    lemma_differ_at(line, "\tDB Name: "@, 1);
    lemma_differ_at(line, "\tCommand: "@, 1);
    assert(line.take(l.len() as int) =~= l);
    lemma_remove_prefix(l, v);
}

proof fn lemma_alert_step_18(st: SessionAlertState, v: Seq<char>)
    requires
        !contains(v, "\tExecuting SQL: "@),
    ensures
        session_line_step(st, "\tExecuting SQL: "@ + v) == (SessionAlertState { data: SessionAlertView { executing_sql: v, ..st.data }, sql_field: 1 }),
{
    let l = "\tExecuting SQL: "@;
    let line = l + v;
    reveal_strlit("\tExecuting SQL: ");
    reveal_strlit("\tCPU Time: ");
    reveal_strlit("\tClient Address: ");
    reveal_strlit("\tCommand: ");
    reveal_strlit("\tDB Name: ");
    reveal_strlit("\tDOP: ");
    reveal_strlit("\tLastWaitType: ");
    reveal_strlit("\tLogical Reads: ");
    reveal_strlit("\tLogin Name: ");
    reveal_strlit("\tOpen Trans: ");
    reveal_strlit("\tPhysical Reads: ");
    reveal_strlit("\tRowCount: ");
    reveal_strlit("\tStart Time: ");
    reveal_strlit("\tStatus: ");
    reveal_strlit("\tWaitResource: ");
    reveal_strlit("\tWaitSessionID (Blocking): ");
    reveal_strlit("\tWaitType: ");
    reveal_strlit("\tWrites: ");
    assert(line[0] == '\t');
    lemma_differ_at(line, seq!['['], 0);
    lemma_differ_at(line, "\tStatus: "@, 1);
    lemma_differ_at(line, "\tWaitType: "@, 1);
    lemma_differ_at(line, "\tLastWaitType: "@, 1);
    lemma_differ_at(line, "\tWaitResource: "@, 1);
    lemma_differ_at(line, "\tWaitSessionID (Blocking): "@, 1);
    lemma_differ_at(line, "\tCPU Time: "@, 1);
    lemma_differ_at(line, "\tLogical Reads: "@, 1);
    lemma_differ_at(line, "\tPhysical Reads: "@, 1);
    lemma_differ_at(line, "\tWrites: "@, 1);
    lemma_differ_at(line, "\tRowCount: "@, 1);
    lemma_differ_at(line, "\tOpen Trans: "@, 1);
    lemma_differ_at(line, "\tDOP: "@, 1);
    lemma_differ_at(line, "\tClient Address: "@, 1);
    lemma_differ_at(line, "\tLogin Name: "@, 1);
    lemma_differ_at(line, "\tDB Name: "@, 1);
    lemma_differ_at(line, "\tCommand: "@, 1);
    lemma_differ_at(line, "\tStart Time: "@, 1);
    assert(line.take(l.len() as int) =~= l);
    lemma_remove_prefix(l, v);
}

proof fn lemma_alert_step_19(st: SessionAlertState, v: Seq<char>)
    requires
        !contains(v, "\tParent Batch SQL: "@),
    ensures
        session_line_step(st, "\tParent Batch SQL: "@ + v) == (SessionAlertState { data: SessionAlertView { parent_batch_sql: v, ..st.data }, sql_field: 2 }),
{
    let l = "\tParent Batch SQL: "@;
    let line = l + v;
    reveal_strlit("\tParent Batch SQL: ");
    reveal_strlit("\tCPU Time: ");
    reveal_strlit("\tClient Address: ");
    reveal_strlit("\tCommand: ");
    reveal_strlit("\tDB Name: ");
    reveal_strlit("\tDOP: ");
    reveal_strlit("\tExecuting SQL: ");
    reveal_strlit("\tLastWaitType: ");
    reveal_strlit("\tLogical Reads: ");
    reveal_strlit("\tLogin Name: ");
    reveal_strlit("\tOpen Trans: ");
    reveal_strlit("\tPhysical Reads: ");
    reveal_strlit("\tRowCount: ");
    reveal_strlit("\tStart Time: ");
    reveal_strlit("\tStatus: ");
    reveal_strlit("\tWaitResource: ");
    reveal_strlit("\tWaitSessionID (Blocking): ");
    reveal_strlit("\tWaitType: ");
    reveal_strlit("\tWrites: ");
    assert(line[0] == '\t');
    lemma_differ_at(line, seq!['['], 0);
    lemma_differ_at(line, "\tStatus: "@, 1);
    lemma_differ_at(line, "\tWaitType: "@, 1);
    lemma_differ_at(line, "\tLastWaitType: "@, 1);
    lemma_differ_at(line, "\tWaitResource: "@, 1);
    lemma_differ_at(line, "\tWaitSessionID (Blocking): "@, 1);
    lemma_differ_at(line, "\tCPU Time: "@, 1);
    lemma_differ_at(line, "\tLogical Reads: "@, 1);
    lemma_differ_at(line, "\tPhysical Reads: "@, 2);
    lemma_differ_at(line, "\tWrites: "@, 1);
    lemma_differ_at(line, "\tRowCount: "@, 1);
    lemma_differ_at(line, "\tOpen Trans: "@, 1);
    lemma_differ_at(line, "\tDOP: "@, 1);
    lemma_differ_at(line, "\tClient Address: "@, 1);
    lemma_differ_at(line, "\tLogin Name: "@, 1);
    lemma_differ_at(line, "\tDB Name: "@, 1);
    lemma_differ_at(line, "\tCommand: "@, 1);
    lemma_differ_at(line, "\tStart Time: "@, 1);
    lemma_differ_at(line, "\tExecuting SQL: "@, 1);
    assert(line.take(l.len() as int) =~= l);
    lemma_remove_prefix(l, v);
}

proof fn lemma_alert_continuation_step_1(st: SessionAlertState, l: Seq<char>)
    requires
        alert_continuation(l),
        st.sql_field == 1,
    ensures
        session_line_step(st, l) == (SessionAlertState { data: SessionAlertView { executing_sql: st.data.executing_sql + seq!['\n'] + l, ..st.data }, ..st }),
{
}

proof fn lemma_alert_continuation_fold_1(st: SessionAlertState, c: Seq<Seq<char>>)
    requires
        forall|i: int| 0 <= i < c.len() ==> alert_continuation(#[trigger] c[i]),
        st.sql_field == 1,
    ensures
        session_fold_from(st, c) == (SessionAlertState { data: SessionAlertView { executing_sql: lines_text(seq![st.data.executing_sql] + c), ..st.data }, ..st }),
    decreases c.len(),
{
    if c.len() == 0 {
        assert(seq![st.data.executing_sql] + c =~= seq![st.data.executing_sql]);
        assert(lines_text(seq![st.data.executing_sql]) == st.data.executing_sql);
    } else {
        assert forall|i: int| 0 <= i < c.drop_last().len() implies alert_continuation(#[trigger] c.drop_last()[i]) by {
            assert(c.drop_last()[i] == c[i]);
        }
        lemma_alert_continuation_fold_1(st, c.drop_last());
        assert(alert_continuation(c[c.len() - 1]));
        lemma_alert_continuation_step_1(session_fold_from(st, c.drop_last()), c.last());
        assert(seq![st.data.executing_sql] + c =~= (seq![st.data.executing_sql] + c.drop_last()).push(c.last()));
        lemma_lines_text_push(seq![st.data.executing_sql] + c.drop_last(), c.last());
    }
}

proof fn lemma_alert_continuation_step_2(st: SessionAlertState, l: Seq<char>)
    requires
        alert_continuation(l),
        st.sql_field == 2,
    ensures
        session_line_step(st, l) == (SessionAlertState { data: SessionAlertView { parent_batch_sql: st.data.parent_batch_sql + seq!['\n'] + l, ..st.data }, ..st }),
{
}

proof fn lemma_alert_continuation_fold_2(st: SessionAlertState, c: Seq<Seq<char>>)
    requires
        forall|i: int| 0 <= i < c.len() ==> alert_continuation(#[trigger] c[i]),
        st.sql_field == 2,
    ensures
        session_fold_from(st, c) == (SessionAlertState { data: SessionAlertView { parent_batch_sql: lines_text(seq![st.data.parent_batch_sql] + c), ..st.data }, ..st }),
    decreases c.len(),
{
    if c.len() == 0 {
        assert(seq![st.data.parent_batch_sql] + c =~= seq![st.data.parent_batch_sql]);
        assert(lines_text(seq![st.data.parent_batch_sql]) == st.data.parent_batch_sql);
    } else {
        assert forall|i: int| 0 <= i < c.drop_last().len() implies alert_continuation(#[trigger] c.drop_last()[i]) by {
            assert(c.drop_last()[i] == c[i]);
        }
        lemma_alert_continuation_fold_2(st, c.drop_last());
        assert(alert_continuation(c[c.len() - 1]));
        lemma_alert_continuation_step_2(session_fold_from(st, c.drop_last()), c.last());
        assert(seq![st.data.parent_batch_sql] + c =~= (seq![st.data.parent_batch_sql] + c.drop_last()).push(c.last()));
        lemma_lines_text_push(seq![st.data.parent_batch_sql] + c.drop_last(), c.last());
    }
}

proof fn lemma_alert_wait_text(s: SessionView)
    ensures
        alert_wait_lines(s) == lines_text_nl(session_alert_wait_lines(s)),
{
    let c = session_alert_wait_lines(s);
    assert(c.subrange(0, 5).drop_first() =~= c.subrange(1, 5));
    assert(lines_text_nl(c.subrange(0, 5)) == c[0] + seq!['\n'] + lines_text_nl(c.subrange(1, 5)));
    assert(c.subrange(1, 5).drop_first() =~= c.subrange(2, 5));
    assert(lines_text_nl(c.subrange(1, 5)) == c[1] + seq!['\n'] + lines_text_nl(c.subrange(2, 5)));
    assert(c.subrange(2, 5).drop_first() =~= c.subrange(3, 5));
    assert(lines_text_nl(c.subrange(2, 5)) == c[2] + seq!['\n'] + lines_text_nl(c.subrange(3, 5)));
    assert(c.subrange(3, 5).drop_first() =~= c.subrange(4, 5));
    assert(lines_text_nl(c.subrange(3, 5)) == c[3] + seq!['\n'] + lines_text_nl(c.subrange(4, 5)));
    assert(c.subrange(4, 5).drop_first() =~= c.subrange(5, 5));
    assert(lines_text_nl(c.subrange(4, 5)) == c[4] + seq!['\n'] + lines_text_nl(c.subrange(5, 5)));
    assert(lines_text_nl(c.subrange(5, 5)) == Seq::<char>::empty());
    assert(c.subrange(0, 5) =~= c);
    reveal(alert_wait_lines);
    reveal_strlit(" (Time: ");
    reveal_strlit(" ms");
    reveal_strlit(" ms)");
    reveal_strlit(" ms)\n");
    reveal_strlit(" ms\n");
    reveal_strlit("\n");
    reveal_strlit("\tLastWaitType: ");
    reveal_strlit("\tStatus: ");
    reveal_strlit("\tWaitResource: ");
    reveal_strlit("\tWaitSessionID (Blocking): ");
    reveal_strlit("\tWaitType: ");
    assert(alert_wait_lines(s) =~= c[0] + seq!['\n'] + c[1] + seq!['\n'] + c[2] + seq!['\n'] + c[3] + seq!['\n'] + c[4] + seq!['\n']);
}

proof fn lemma_alert_wait_fold(st: SessionAlertState, s: SessionView)
    requires
        entry_field(s.status, "\tStatus: "@),
        lacks(s.wait_type, '\n'),
        clear_of(s.wait_type, "\tWaitType: "@),
        ends_before(s.wait_type, " (Time: "@),
        entry_field(s.last_wait_type, "\tLastWaitType: "@),
        entry_field(s.wait_resource, "\tWaitResource: "@),
    ensures
        session_fold_from(st, session_alert_wait_lines(s)) == (SessionAlertState { data: SessionAlertView { status: s.status, wait_type: s.wait_type, wait_time_ms: int_decimal(s.wait_time_ms), last_wait_type: s.last_wait_type, wait_resource: s.wait_resource, blocking_spid: int_decimal(s.wait_session_id), ..st.data }, ..st }),
{
    let c = session_alert_wait_lines(s);
    assert(c.take(0) =~= Seq::<Seq<char>>::empty());
    assert(c.take(1).drop_last() =~= c.take(0));
    assert(c.take(1).last() == c[0]);
    lemma_alert_step_1(session_fold_from(st, c.take(0)), s.status);
    assert(c.take(2).drop_last() =~= c.take(1));
    assert(c.take(2).last() == c[1]);
    lemma_alert_wait_value(s.wait_type, s.wait_time_ms);
    lemma_alert_wait_read(session_fold_from(st, c.take(1)).data, s.wait_type, s.wait_time_ms);
    lemma_alert_step_2(session_fold_from(st, c.take(1)), s.wait_type + " (Time: "@ + int_decimal(s.wait_time_ms) + " ms)"@);
    assert(c.take(3).drop_last() =~= c.take(2));
    assert(c.take(3).last() == c[2]);
    lemma_alert_step_3(session_fold_from(st, c.take(2)), s.last_wait_type);
    assert(c.take(4).drop_last() =~= c.take(3));
    assert(c.take(4).last() == c[3]);
    lemma_alert_step_4(session_fold_from(st, c.take(3)), s.wait_resource);
    assert(c.take(5).drop_last() =~= c.take(4));
    assert(c.take(5).last() == c[4]);
    lemma_decimal_lacks(s.wait_session_id, '\t');
    reveal_strlit("\tWaitSessionID (Blocking): ");
    lemma_lacks_no_occurrence(int_decimal(s.wait_session_id), "\tWaitSessionID (Blocking): "@, 0);
    lemma_alert_step_5(session_fold_from(st, c.take(4)), int_decimal(s.wait_session_id));
    assert(c.take(5) =~= c);
}

proof fn lemma_alert_wait_plain(s: SessionView)
    requires
        entry_field(s.status, "\tStatus: "@),
        lacks(s.wait_type, '\n'),
        entry_field(s.last_wait_type, "\tLastWaitType: "@),
        entry_field(s.wait_resource, "\tWaitResource: "@),
    ensures
        plain_lines(session_alert_wait_lines(s)),
{
    let c = session_alert_wait_lines(s);
    assert(lacks(c[0], '\n') && c[0].len() > 0 && c[0].last() != '\r') by {
        reveal_strlit("\tStatus: ");
        let l = "\tStatus: "@;
        lemma_lacks_cat(l, s.status, '\n');
        assert(s.status.len() > 0 ==> (l + s.status).last() == s.status.last());
        assert(c[0] == l + s.status);
        assert(c[0][c[0].len() - 1] != '\r');
    }
    assert(lacks(c[1], '\n') && c[1].len() > 0 && c[1].last() != '\r') by {
        reveal_strlit("\tWaitType: ");
        let l = "\tWaitType: "@;
        reveal_strlit(" (Time: ");
        reveal_strlit(" ms)");
        lemma_decimal_lacks(s.wait_time_ms, '\n');
        let a = s.wait_type + " (Time: "@;
        lemma_lacks_cat(s.wait_type, " (Time: "@, '\n');
        lemma_lacks_cat(a, int_decimal(s.wait_time_ms), '\n');
        lemma_lacks_cat(a + int_decimal(s.wait_time_ms), " ms)"@, '\n');
        lemma_lacks_cat(l, a + int_decimal(s.wait_time_ms) + " ms)"@, '\n');
        assert(c[1] == l + (a + int_decimal(s.wait_time_ms) + " ms)"@));
        assert(c[1].last() == ')');
    }
    assert(lacks(c[2], '\n') && c[2].len() > 0 && c[2].last() != '\r') by {
        reveal_strlit("\tLastWaitType: ");
        let l = "\tLastWaitType: "@;
        lemma_lacks_cat(l, s.last_wait_type, '\n');
        assert(s.last_wait_type.len() > 0 ==> (l + s.last_wait_type).last() == s.last_wait_type.last());
        assert(c[2] == l + s.last_wait_type);
        assert(c[2][c[2].len() - 1] != '\r');
    }
    assert(lacks(c[3], '\n') && c[3].len() > 0 && c[3].last() != '\r') by {
        reveal_strlit("\tWaitResource: ");
        let l = "\tWaitResource: "@;
        lemma_lacks_cat(l, s.wait_resource, '\n');
        assert(s.wait_resource.len() > 0 ==> (l + s.wait_resource).last() == s.wait_resource.last());
        assert(c[3] == l + s.wait_resource);
        assert(c[3][c[3].len() - 1] != '\r');
    }
    assert(lacks(c[4], '\n') && c[4].len() > 0 && c[4].last() != '\r') by {
        reveal_strlit("\tWaitSessionID (Blocking): ");
        let l = "\tWaitSessionID (Blocking): "@;
        lemma_decimal_lacks(s.wait_session_id, '\n');
        lemma_decimal_lacks(s.wait_session_id, '\r');
        lemma_lacks_cat(l, int_decimal(s.wait_session_id), '\n');
        lemma_lacks_cat(l, int_decimal(s.wait_session_id), '\r');
        assert(c[4] == l + int_decimal(s.wait_session_id));
        assert(c[4][c[4].len() - 1] != '\r');
    }
    assert forall|i: int| 0 <= i < c.len() implies lacks(#[trigger] c[i], '\n') && !(c[i].len() > 0 && c[i].last() == '\r') by {
        assert(i == 0 || i == 1 || i == 2 || i == 3 || i == 4);
    }
}

proof fn lemma_alert_cpu_text(s: SessionView)
    ensures
        alert_cpu_lines(s) == lines_text_nl(session_alert_cpu_lines(s)),
{
    let c = session_alert_cpu_lines(s);
    assert(c.subrange(0, 3).drop_first() =~= c.subrange(1, 3));
    assert(lines_text_nl(c.subrange(0, 3)) == c[0] + seq!['\n'] + lines_text_nl(c.subrange(1, 3)));
    assert(c.subrange(1, 3).drop_first() =~= c.subrange(2, 3));
    assert(lines_text_nl(c.subrange(1, 3)) == c[1] + seq!['\n'] + lines_text_nl(c.subrange(2, 3)));
    assert(c.subrange(2, 3).drop_first() =~= c.subrange(3, 3));
    assert(lines_text_nl(c.subrange(2, 3)) == c[2] + seq!['\n'] + lines_text_nl(c.subrange(3, 3)));
    assert(lines_text_nl(c.subrange(3, 3)) == Seq::<char>::empty());
    assert(c.subrange(0, 3) =~= c);
    reveal(alert_cpu_lines);
    reveal_strlit(" (Time: ");
    reveal_strlit(" ms");
    reveal_strlit(" ms)");
    reveal_strlit(" ms)\n");
    reveal_strlit(" ms\n");
    reveal_strlit("\n");
    reveal_strlit("\tCPU Time: ");
    reveal_strlit("\tLogical Reads: ");
    reveal_strlit("\tPhysical Reads: ");
    assert(alert_cpu_lines(s) =~= c[0] + seq!['\n'] + c[1] + seq!['\n'] + c[2] + seq!['\n']);
}

proof fn lemma_alert_cpu_fold(st: SessionAlertState, s: SessionView)
    requires
    ensures
        session_fold_from(st, session_alert_cpu_lines(s)) == (SessionAlertState { data: SessionAlertView { cpu_time_ms: int_decimal(s.cpu_time_ms), logical_reads: int_decimal(s.logical_reads), physical_reads: int_decimal(s.physical_reads), ..st.data }, ..st }),
{
    let c = session_alert_cpu_lines(s);
    assert(c.take(0) =~= Seq::<Seq<char>>::empty());
    assert(c.take(1).drop_last() =~= c.take(0));
    assert(c.take(1).last() == c[0]);
    lemma_decimal_lacks(s.cpu_time_ms, '\t');
    lemma_decimal_lacks(s.cpu_time_ms, 'm');
    assert(lacks(" ms"@, '\t') && " ms"@.len() == 3 && " ms"@[1] == 'm' && " ms"@[0] != 'm') by {
        reveal_strlit(" ms");
    }
    lemma_lacks_cat(int_decimal(s.cpu_time_ms), " ms"@, '\t');
    reveal_strlit("\tCPU Time: ");
    lemma_lacks_no_occurrence(int_decimal(s.cpu_time_ms) + " ms"@, "\tCPU Time: "@, 0);
    lemma_lacks_ends_before(int_decimal(s.cpu_time_ms), " ms"@, 1);
    lemma_remove_suffix(int_decimal(s.cpu_time_ms), " ms"@);
    lemma_alert_step_6(session_fold_from(st, c.take(0)), int_decimal(s.cpu_time_ms) + " ms"@);
    assert(c.take(2).drop_last() =~= c.take(1));
    assert(c.take(2).last() == c[1]);
    lemma_decimal_lacks(s.logical_reads, '\t');
    reveal_strlit("\tLogical Reads: ");
    lemma_lacks_no_occurrence(int_decimal(s.logical_reads), "\tLogical Reads: "@, 0);
    lemma_alert_step_7(session_fold_from(st, c.take(1)), int_decimal(s.logical_reads));
    assert(c.take(3).drop_last() =~= c.take(2));
    assert(c.take(3).last() == c[2]);
    lemma_decimal_lacks(s.physical_reads, '\t');
    reveal_strlit("\tPhysical Reads: ");
    lemma_lacks_no_occurrence(int_decimal(s.physical_reads), "\tPhysical Reads: "@, 0);
    lemma_alert_step_8(session_fold_from(st, c.take(2)), int_decimal(s.physical_reads));
    assert(c.take(3) =~= c);
}

proof fn lemma_alert_cpu_plain(s: SessionView)
    requires
    ensures
        plain_lines(session_alert_cpu_lines(s)),
{
    let c = session_alert_cpu_lines(s);
    assert(lacks(c[0], '\n') && c[0].len() > 0 && c[0].last() != '\r') by {
        reveal_strlit("\tCPU Time: ");
        let l = "\tCPU Time: "@;
        reveal_strlit(" ms");
        lemma_decimal_lacks(s.cpu_time_ms, '\n');
        lemma_lacks_cat(int_decimal(s.cpu_time_ms), " ms"@, '\n');
        lemma_lacks_cat(l, int_decimal(s.cpu_time_ms) + " ms"@, '\n');
        assert(c[0] == l + (int_decimal(s.cpu_time_ms) + " ms"@));
        assert(c[0].last() == 's');
    }
    assert(lacks(c[1], '\n') && c[1].len() > 0 && c[1].last() != '\r') by {
        reveal_strlit("\tLogical Reads: ");
        let l = "\tLogical Reads: "@;
        lemma_decimal_lacks(s.logical_reads, '\n');
        lemma_decimal_lacks(s.logical_reads, '\r');
        lemma_lacks_cat(l, int_decimal(s.logical_reads), '\n');
        lemma_lacks_cat(l, int_decimal(s.logical_reads), '\r');
        assert(c[1] == l + int_decimal(s.logical_reads));
        assert(c[1][c[1].len() - 1] != '\r');
    }
    assert(lacks(c[2], '\n') && c[2].len() > 0 && c[2].last() != '\r') by {
        reveal_strlit("\tPhysical Reads: ");
        let l = "\tPhysical Reads: "@;
        lemma_decimal_lacks(s.physical_reads, '\n');
        lemma_decimal_lacks(s.physical_reads, '\r');
        lemma_lacks_cat(l, int_decimal(s.physical_reads), '\n');
        lemma_lacks_cat(l, int_decimal(s.physical_reads), '\r');
        assert(c[2] == l + int_decimal(s.physical_reads));
        assert(c[2][c[2].len() - 1] != '\r');
    }
    assert forall|i: int| 0 <= i < c.len() implies lacks(#[trigger] c[i], '\n') && !(c[i].len() > 0 && c[i].last() == '\r') by {
        assert(i == 0 || i == 1 || i == 2);
    }
}

proof fn lemma_alert_write_text(s: SessionView)
    ensures
        alert_write_lines(s) == lines_text_nl(session_alert_write_lines(s)),
{
    let c = session_alert_write_lines(s);
    assert(c.subrange(0, 4).drop_first() =~= c.subrange(1, 4));
    assert(lines_text_nl(c.subrange(0, 4)) == c[0] + seq!['\n'] + lines_text_nl(c.subrange(1, 4)));
    assert(c.subrange(1, 4).drop_first() =~= c.subrange(2, 4));
    assert(lines_text_nl(c.subrange(1, 4)) == c[1] + seq!['\n'] + lines_text_nl(c.subrange(2, 4)));
    assert(c.subrange(2, 4).drop_first() =~= c.subrange(3, 4));
    assert(lines_text_nl(c.subrange(2, 4)) == c[2] + seq!['\n'] + lines_text_nl(c.subrange(3, 4)));
    assert(c.subrange(3, 4).drop_first() =~= c.subrange(4, 4));
    assert(lines_text_nl(c.subrange(3, 4)) == c[3] + seq!['\n'] + lines_text_nl(c.subrange(4, 4)));
    assert(lines_text_nl(c.subrange(4, 4)) == Seq::<char>::empty());
    assert(c.subrange(0, 4) =~= c);
    reveal(alert_write_lines);
    reveal_strlit(" (Time: ");
    reveal_strlit(" ms");
    reveal_strlit(" ms)");
    reveal_strlit(" ms)\n");
    reveal_strlit(" ms\n");
    reveal_strlit("\n");
    reveal_strlit("\tDOP: ");
    reveal_strlit("\tOpen Trans: ");
    reveal_strlit("\tRowCount: ");
    reveal_strlit("\tWrites: ");
    assert(alert_write_lines(s) =~= c[0] + seq!['\n'] + c[1] + seq!['\n'] + c[2] + seq!['\n'] + c[3] + seq!['\n']);
}

proof fn lemma_alert_write_fold(st: SessionAlertState, s: SessionView)
    requires
    ensures
        session_fold_from(st, session_alert_write_lines(s)) == (SessionAlertState { data: SessionAlertView { writes: int_decimal(s.writes), row_count: int_decimal(s.row_count), open_trans: int_decimal(s.open_transaction_count), dop: int_decimal(s.dop), ..st.data }, ..st }),
{
    let c = session_alert_write_lines(s);
    assert(c.take(0) =~= Seq::<Seq<char>>::empty());
    assert(c.take(1).drop_last() =~= c.take(0));
    assert(c.take(1).last() == c[0]);
    lemma_decimal_lacks(s.writes, '\t');
    reveal_strlit("\tWrites: ");
    lemma_lacks_no_occurrence(int_decimal(s.writes), "\tWrites: "@, 0);
    lemma_alert_step_9(session_fold_from(st, c.take(0)), int_decimal(s.writes));
    assert(c.take(2).drop_last() =~= c.take(1));
    assert(c.take(2).last() == c[1]);
    lemma_decimal_lacks(s.row_count, '\t');
    reveal_strlit("\tRowCount: ");
    lemma_lacks_no_occurrence(int_decimal(s.row_count), "\tRowCount: "@, 0);
    lemma_alert_step_10(session_fold_from(st, c.take(1)), int_decimal(s.row_count));
    assert(c.take(3).drop_last() =~= c.take(2));
    assert(c.take(3).last() == c[2]);
    lemma_decimal_lacks(s.open_transaction_count, '\t');
    reveal_strlit("\tOpen Trans: ");
    lemma_lacks_no_occurrence(int_decimal(s.open_transaction_count), "\tOpen Trans: "@, 0);
    lemma_alert_step_11(session_fold_from(st, c.take(2)), int_decimal(s.open_transaction_count));
    assert(c.take(4).drop_last() =~= c.take(3));
    assert(c.take(4).last() == c[3]);
    lemma_decimal_lacks(s.dop, '\t');
    reveal_strlit("\tDOP: ");
    lemma_lacks_no_occurrence(int_decimal(s.dop), "\tDOP: "@, 0);
    lemma_alert_step_12(session_fold_from(st, c.take(3)), int_decimal(s.dop));
    assert(c.take(4) =~= c);
}

proof fn lemma_alert_write_plain(s: SessionView)
    requires
    ensures
        plain_lines(session_alert_write_lines(s)),
{
    let c = session_alert_write_lines(s);
    assert(lacks(c[0], '\n') && c[0].len() > 0 && c[0].last() != '\r') by {
        reveal_strlit("\tWrites: ");
        let l = "\tWrites: "@;
        lemma_decimal_lacks(s.writes, '\n');
        lemma_decimal_lacks(s.writes, '\r');
        lemma_lacks_cat(l, int_decimal(s.writes), '\n');
        lemma_lacks_cat(l, int_decimal(s.writes), '\r');
        assert(c[0] == l + int_decimal(s.writes));
        assert(c[0][c[0].len() - 1] != '\r');
    }
    assert(lacks(c[1], '\n') && c[1].len() > 0 && c[1].last() != '\r') by {
        reveal_strlit("\tRowCount: ");
        let l = "\tRowCount: "@;
        lemma_decimal_lacks(s.row_count, '\n');
        lemma_decimal_lacks(s.row_count, '\r');
        lemma_lacks_cat(l, int_decimal(s.row_count), '\n');
        lemma_lacks_cat(l, int_decimal(s.row_count), '\r');
        assert(c[1] == l + int_decimal(s.row_count));
        assert(c[1][c[1].len() - 1] != '\r');
    }
    assert(lacks(c[2], '\n') && c[2].len() > 0 && c[2].last() != '\r') by {
        reveal_strlit("\tOpen Trans: ");
        let l = "\tOpen Trans: "@;
        lemma_decimal_lacks(s.open_transaction_count, '\n');
        lemma_decimal_lacks(s.open_transaction_count, '\r');
        lemma_lacks_cat(l, int_decimal(s.open_transaction_count), '\n');
        lemma_lacks_cat(l, int_decimal(s.open_transaction_count), '\r');
        assert(c[2] == l + int_decimal(s.open_transaction_count));
        assert(c[2][c[2].len() - 1] != '\r');
    }
    assert(lacks(c[3], '\n') && c[3].len() > 0 && c[3].last() != '\r') by {
        reveal_strlit("\tDOP: ");
        let l = "\tDOP: "@;
        lemma_decimal_lacks(s.dop, '\n');
        lemma_decimal_lacks(s.dop, '\r');
        lemma_lacks_cat(l, int_decimal(s.dop), '\n');
        lemma_lacks_cat(l, int_decimal(s.dop), '\r');
        assert(c[3] == l + int_decimal(s.dop));
        assert(c[3][c[3].len() - 1] != '\r');
    }
    assert forall|i: int| 0 <= i < c.len() implies lacks(#[trigger] c[i], '\n') && !(c[i].len() > 0 && c[i].last() == '\r') by {
        assert(i == 0 || i == 1 || i == 2 || i == 3);
    }
}

proof fn lemma_alert_client_fold(st: SessionAlertState, s: SessionView)
    requires
        entry_field(s.client_net_address, "\tClient Address: "@),
        entry_field(s.login_name, "\tLogin Name: "@),
        entry_field(s.database_name, "\tDB Name: "@),
        entry_field(s.command, "\tCommand: "@),
        entry_field(s.start_time, "\tStart Time: "@),
    ensures
        session_fold_from(st, session_alert_client_lines(s)) == (SessionAlertState { data: SessionAlertView { client_address: s.client_net_address, login_name: s.login_name, db_name: s.database_name, command: s.command, start_time: s.start_time, ..st.data }, ..st }),
{
    let c = session_alert_client_lines(s);
    assert(c.take(0) =~= Seq::<Seq<char>>::empty());
    assert(c.take(1).drop_last() =~= c.take(0));
    assert(c.take(1).last() == c[0]);
    lemma_alert_step_13(session_fold_from(st, c.take(0)), s.client_net_address);
    assert(c.take(2).drop_last() =~= c.take(1));
    assert(c.take(2).last() == c[1]);
    lemma_alert_step_14(session_fold_from(st, c.take(1)), s.login_name);
    assert(c.take(3).drop_last() =~= c.take(2));
    assert(c.take(3).last() == c[2]);
    lemma_alert_step_15(session_fold_from(st, c.take(2)), s.database_name);
    assert(c.take(4).drop_last() =~= c.take(3));
    assert(c.take(4).last() == c[3]);
    lemma_alert_step_16(session_fold_from(st, c.take(3)), s.command);
    assert(c.take(5).drop_last() =~= c.take(4));
    assert(c.take(5).last() == c[4]);
    lemma_alert_step_17(session_fold_from(st, c.take(4)), s.start_time);
    assert(c.take(5) =~= c);
}

proof fn lemma_alert_client_plain(s: SessionView)
    requires
        entry_field(s.client_net_address, "\tClient Address: "@),
        entry_field(s.login_name, "\tLogin Name: "@),
        entry_field(s.database_name, "\tDB Name: "@),
        entry_field(s.command, "\tCommand: "@),
        entry_field(s.start_time, "\tStart Time: "@),
    ensures
        plain_lines(session_alert_client_lines(s)),
{
    let c = session_alert_client_lines(s);
    assert(lacks(c[0], '\n') && c[0].len() > 0 && c[0].last() != '\r') by {
        reveal_strlit("\tClient Address: ");
        let l = "\tClient Address: "@;
        lemma_lacks_cat(l, s.client_net_address, '\n');
        assert(s.client_net_address.len() > 0 ==> (l + s.client_net_address).last() == s.client_net_address.last());
        assert(c[0] == l + s.client_net_address);
        assert(c[0][c[0].len() - 1] != '\r');
    }
    assert(lacks(c[1], '\n') && c[1].len() > 0 && c[1].last() != '\r') by {
        reveal_strlit("\tLogin Name: ");
        let l = "\tLogin Name: "@;
        lemma_lacks_cat(l, s.login_name, '\n');
        assert(s.login_name.len() > 0 ==> (l + s.login_name).last() == s.login_name.last());
        assert(c[1] == l + s.login_name);
        assert(c[1][c[1].len() - 1] != '\r');
    }
    assert(lacks(c[2], '\n') && c[2].len() > 0 && c[2].last() != '\r') by {
        reveal_strlit("\tDB Name: ");
        let l = "\tDB Name: "@;
        lemma_lacks_cat(l, s.database_name, '\n');
        assert(s.database_name.len() > 0 ==> (l + s.database_name).last() == s.database_name.last());
        assert(c[2] == l + s.database_name);
        assert(c[2][c[2].len() - 1] != '\r');
    }
    assert(lacks(c[3], '\n') && c[3].len() > 0 && c[3].last() != '\r') by {
        reveal_strlit("\tCommand: ");
        let l = "\tCommand: "@;
        lemma_lacks_cat(l, s.command, '\n');
        assert(s.command.len() > 0 ==> (l + s.command).last() == s.command.last());
        assert(c[3] == l + s.command);
        assert(c[3][c[3].len() - 1] != '\r');
    }
    assert(lacks(c[4], '\n') && c[4].len() > 0 && c[4].last() != '\r') by {
        reveal_strlit("\tStart Time: ");
        let l = "\tStart Time: "@;
        lemma_lacks_cat(l, s.start_time, '\n');
        assert(s.start_time.len() > 0 ==> (l + s.start_time).last() == s.start_time.last());
        assert(c[4] == l + s.start_time);
        assert(c[4][c[4].len() - 1] != '\r');
    }
    assert forall|i: int| 0 <= i < c.len() implies lacks(#[trigger] c[i], '\n') && !(c[i].len() > 0 && c[i].last() == '\r') by {
        assert(i == 0 || i == 1 || i == 2 || i == 3 || i == 4);
    }
}

proof fn lemma_alert_statement_fold_1(st: SessionAlertState, v: Seq<char>)
    requires
        entry_statement(v, "\tExecuting SQL: "@),
    ensures
        session_fold_from(st, statement_lines("\tExecuting SQL: "@, v)) == (SessionAlertState { data: SessionAlertView { executing_sql: v, ..st.data }, sql_field: 1 }),
{
    let x = split(v, seq!['\n']);
    lemma_split_lines(v);
    let c = statement_lines("\tExecuting SQL: "@, v);
    let first = seq!["\tExecuting SQL: "@ + x[0]];
    assert(c == first + x.drop_first());
    lemma_fold_from_append(st, first, x.drop_first());
    assert(first.drop_last() =~= Seq::<Seq<char>>::empty());
    lemma_alert_step_18(st, x[0]);
    assert(first.last() == "\tExecuting SQL: "@ + x[0]);
    assert(session_fold_from(st, first.drop_last()) == st);
    let s1 = session_fold_from(st, first);
    assert(s1 == session_line_step(st, "\tExecuting SQL: "@ + x[0]));
    assert forall|i: int| 0 <= i < x.drop_first().len() implies alert_continuation(#[trigger] x.drop_first()[i]) by {
        assert(x.drop_first()[i] == x[i + 1]);
    }
    lemma_alert_continuation_fold_1(s1, x.drop_first());
    assert(seq![x[0]] + x.drop_first() =~= x);
}

proof fn lemma_alert_statement_text_1(v: Seq<char>)
    ensures
        lines_text_nl(statement_lines("\tExecuting SQL: "@, v)) == "\tExecuting SQL: "@ + v + seq!['\n'],
{
    let x = split(v, seq!['\n']);
    lemma_split_lines(v);
    lemma_lines_text_labelled("\tExecuting SQL: "@, x);
    lemma_lines_text_nl(statement_lines("\tExecuting SQL: "@, v));
}

proof fn lemma_alert_statement_plain_1(v: Seq<char>)
    requires
        plain_lines(split(v, seq!['\n'])),
    ensures
        plain_lines(statement_lines("\tExecuting SQL: "@, v)),
        v.len() > 0 && !char_is_whitespace(v.last()) ==> {
            let c = statement_lines("\tExecuting SQL: "@, v);
            c.last().len() > 0 && c.last().last() == v.last()
        },
{
    let x = split(v, seq!['\n']);
    lemma_split_lines(v);
    let c = statement_lines("\tExecuting SQL: "@, v);
    lemma_lines_text_labelled("\tExecuting SQL: "@, x);
    assert(lacks("\tExecuting SQL: "@, '\n') && "\tExecuting SQL: "@.last() == ' ') by {
        reveal_strlit("\tExecuting SQL: ");
    }
    assert forall|i: int| 0 <= i < c.len() implies lacks(#[trigger] c[i], '\n') && !(c[i].len() > 0 && c[i].last() == '\r') by {
        if i == 0 {
            lemma_lacks_cat("\tExecuting SQL: "@, x[0], '\n');
            assert(c[0] == "\tExecuting SQL: "@ + x[0]);
            assert(x[0].len() > 0 ==> c[0].last() == x[0].last());
            if c[0].len() > 0 {
                assert(c[0][c[0].len() - 1] != '\r');
            }
        } else {
            assert(c[i] == x[i]);
        }
    }
    if v.len() > 0 && !char_is_whitespace(v.last()) {
        assert(v.last() != '\n');
        lemma_split_last_line(v);
        if x.len() == 1 {
            assert(c.last() == "\tExecuting SQL: "@ + x[0]);
            assert(x[0] == x.last());
        } else {
            assert(c.last() == x.last());
        }
    }
}

proof fn lemma_alert_statement_fold_2(st: SessionAlertState, v: Seq<char>)
    requires
        entry_statement(v, "\tParent Batch SQL: "@),
    ensures
        session_fold_from(st, statement_lines("\tParent Batch SQL: "@, v)) == (SessionAlertState { data: SessionAlertView { parent_batch_sql: v, ..st.data }, sql_field: 2 }),
{
    let x = split(v, seq!['\n']);
    lemma_split_lines(v);
    let c = statement_lines("\tParent Batch SQL: "@, v);
    let first = seq!["\tParent Batch SQL: "@ + x[0]];
    assert(c == first + x.drop_first());
    lemma_fold_from_append(st, first, x.drop_first());
    assert(first.drop_last() =~= Seq::<Seq<char>>::empty());
    lemma_alert_step_19(st, x[0]);
    assert(first.last() == "\tParent Batch SQL: "@ + x[0]);
    assert(session_fold_from(st, first.drop_last()) == st);
    let s1 = session_fold_from(st, first);
    assert(s1 == session_line_step(st, "\tParent Batch SQL: "@ + x[0]));
    assert forall|i: int| 0 <= i < x.drop_first().len() implies alert_continuation(#[trigger] x.drop_first()[i]) by {
        assert(x.drop_first()[i] == x[i + 1]);
    }
    lemma_alert_continuation_fold_2(s1, x.drop_first());
    assert(seq![x[0]] + x.drop_first() =~= x);
}

proof fn lemma_alert_statement_text_2(v: Seq<char>)
    ensures
        lines_text_nl(statement_lines("\tParent Batch SQL: "@, v)) == "\tParent Batch SQL: "@ + v + seq!['\n'],
{
    let x = split(v, seq!['\n']);
    lemma_split_lines(v);
    lemma_lines_text_labelled("\tParent Batch SQL: "@, x);
    lemma_lines_text_nl(statement_lines("\tParent Batch SQL: "@, v));
}

proof fn lemma_alert_statement_plain_2(v: Seq<char>)
    requires
        plain_lines(split(v, seq!['\n'])),
    ensures
        plain_lines(statement_lines("\tParent Batch SQL: "@, v)),
        v.len() > 0 && !char_is_whitespace(v.last()) ==> {
            let c = statement_lines("\tParent Batch SQL: "@, v);
            c.last().len() > 0 && c.last().last() == v.last()
        },
{
    let x = split(v, seq!['\n']);
    lemma_split_lines(v);
    let c = statement_lines("\tParent Batch SQL: "@, v);
    lemma_lines_text_labelled("\tParent Batch SQL: "@, x);
    assert(lacks("\tParent Batch SQL: "@, '\n') && "\tParent Batch SQL: "@.last() == ' ') by {
        reveal_strlit("\tParent Batch SQL: ");
    }
    assert forall|i: int| 0 <= i < c.len() implies lacks(#[trigger] c[i], '\n') && !(c[i].len() > 0 && c[i].last() == '\r') by {
        if i == 0 {
            lemma_lacks_cat("\tParent Batch SQL: "@, x[0], '\n');
            assert(c[0] == "\tParent Batch SQL: "@ + x[0]);
            assert(x[0].len() > 0 ==> c[0].last() == x[0].last());
            if c[0].len() > 0 {
                assert(c[0][c[0].len() - 1] != '\r');
            }
        } else {
            assert(c[i] == x[i]);
        }
    }
    if v.len() > 0 && !char_is_whitespace(v.last()) {
        assert(v.last() != '\n');
        lemma_split_last_line(v);
        if x.len() == 1 {
            assert(c.last() == "\tParent Batch SQL: "@ + x[0]);
            assert(x[0] == x.last());
        } else {
            assert(c.last() == x.last());
        }
    }
}

proof fn lemma_alert_header_read(st: SessionAlertState, log_time: Seq<char>, server_id: Seq<char>, s: SessionView)
    requires
        !(log_time.len() > 0 && log_time[0] == '['),
        ends_before(seq!['['] + log_time, "] Server: "@),
        clear_of(server_id, "] Server: "@),
        ends_before(server_id, " | "@),
    ensures
        session_line_step(st, session_alert_header(log_time, server_id, s)) == (SessionAlertState {
            data: SessionAlertView {
                log_time,
                server: server_id,
                spid: int_decimal(s.session_id),
                elapsed: int_decimal(s.elapsed_time_ms),
                ..st.data
            },
            ..st
        }),
{
    let line = session_alert_header(log_time, server_id, s);
    let ds = int_decimal(s.session_id);
    let de = int_decimal(s.elapsed_time_ms);
    let spid_tag = "SPID: "@;
    let el_tag = "Alert! Session Elapsed: "@;
    let ms = " ms"@;
    let a = spid_tag + ds;
    let b = el_tag + de + ms;
    let bar = " | "@;
    let head = "] Server: "@;
    let open = seq!['['] + log_time;
    let rest_text = server_id + bar + (a + bar + b);
    assert(line =~= open + head + rest_text);
    assert(starts_with(line, seq!['['])) by {
        assert(line.take(1) =~= seq!['[']);
    }
    assert(contains(line, "SPID:"@)) by {
        reveal_strlit("SPID: ");
        reveal_strlit("SPID:");
        reveal_strlit(" ");
        assert(line =~= (open + head + server_id + bar) + "SPID:"@ + (" "@ + ds + bar + b));
        lemma_occurs_middle(open + head + server_id + bar, "SPID:"@, " "@ + ds + bar + b);
    }
    lemma_decimal_lacks(s.session_id, ']');
    lemma_decimal_lacks(s.session_id, '|');
    lemma_decimal_lacks(s.session_id, ':');
    lemma_decimal_lacks(s.elapsed_time_ms, ']');
    lemma_decimal_lacks(s.elapsed_time_ms, '|');
    lemma_decimal_lacks(s.elapsed_time_ms, '!');
    lemma_decimal_lacks(s.elapsed_time_ms, 'm');
    assert(head.len() == 10 && head[0] == ']' && lacks(head, '|')) by {
        reveal_strlit("] Server: ");
    }
    assert(bar.len() == 3 && bar[1] == '|' && bar[0] == ' ' && lacks(bar, ']')) by {
        reveal_strlit(" | ");
    }
    assert(lacks(spid_tag, ']') && lacks(spid_tag, '|') && spid_tag.len() == 6 && spid_tag[4] == ':') by {
        reveal_strlit("SPID: ");
    }
    assert(lacks(el_tag, ']') && lacks(el_tag, '|') && el_tag.len() == 24 && el_tag[5] == '!') by {
        reveal_strlit("Alert! Session Elapsed: ");
    }
    assert(lacks(ms, ']') && lacks(ms, '|') && lacks(ms, '!') && ms.len() == 3 && ms[1] == 'm' && ms[0] != 'm') by {
        reveal_strlit(" ms");
    }
    lemma_lacks_cat(spid_tag, ds, ']');
    lemma_lacks_cat(spid_tag, ds, '|');
    lemma_lacks_cat(el_tag, de, ']');
    lemma_lacks_cat(el_tag, de, '|');
    lemma_lacks_cat(el_tag + de, ms, ']');
    lemma_lacks_cat(el_tag + de, ms, '|');
    lemma_lacks_cat(de, ms, '!');
    lemma_lacks_cat(a, bar, ']');
    lemma_lacks_cat(a + bar, b, ']');
    lemma_lacks_cat(bar, a + bar + b, ']');
    assert(server_id + (bar + (a + bar + b)) =~= rest_text);
    lemma_clear_of_before(server_id, head, bar + (a + bar + b));
    lemma_split_head(open, head, rest_text);
    lemma_split_whole(rest_text, head);
    let parts = split(line, head);
    assert(parts == seq![open] + seq![rest_text]);
    assert(parts.len() == 2 && parts[0] == open && parts[1] == rest_text);
    lemma_split_head(server_id, bar, a + bar + b);
    lemma_lacks_ends_before(a, bar, 1);
    lemma_split_head(a, bar, b);
    lemma_lacks_no_occurrence(b, bar, 1);
    lemma_split_whole(b, bar);
    let rest = split(rest_text, bar);
    assert(rest == seq![server_id] + (seq![a] + seq![b]));
    assert(rest.len() == 3 && rest[0] == server_id && rest[1] == a && rest[2] == b);
    lemma_strip_one('[', log_time);
    lemma_lacks_no_occurrence(ds, spid_tag, 4);
    lemma_remove_prefix(spid_tag, ds);
    lemma_lacks_no_occurrence(de + ms, el_tag, 5);
    assert(b =~= el_tag + (de + ms));
    lemma_remove_prefix(el_tag, de + ms);
    lemma_lacks_ends_before(de, ms, 1);
    lemma_remove_suffix(de, ms);
}

#[verifier::spinoff_prover]
#[verifier::rlimit(40)]
proof fn lemma_alert_client_text(s: SessionView)
    ensures
        alert_client_lines(s) == lines_text_nl(session_alert_client_lines(s)) + lines_text_nl(
            statement_lines("\tExecuting SQL: "@, trim(s.executing_sql)),
        ) + lines_text_nl(statement_lines("\tParent Batch SQL: "@, trim(s.parent_batch_sql))),
{
    let c = session_alert_client_lines(s);
    assert(c.subrange(0, 5).drop_first() =~= c.subrange(1, 5));
    assert(lines_text_nl(c.subrange(0, 5)) == c[0] + seq!['\n'] + lines_text_nl(c.subrange(1, 5)));
    assert(c.subrange(1, 5).drop_first() =~= c.subrange(2, 5));
    assert(lines_text_nl(c.subrange(1, 5)) == c[1] + seq!['\n'] + lines_text_nl(c.subrange(2, 5)));
    assert(c.subrange(2, 5).drop_first() =~= c.subrange(3, 5));
    assert(lines_text_nl(c.subrange(2, 5)) == c[2] + seq!['\n'] + lines_text_nl(c.subrange(3, 5)));
    assert(c.subrange(3, 5).drop_first() =~= c.subrange(4, 5));
    assert(lines_text_nl(c.subrange(3, 5)) == c[3] + seq!['\n'] + lines_text_nl(c.subrange(4, 5)));
    assert(c.subrange(4, 5).drop_first() =~= c.subrange(5, 5));
    assert(lines_text_nl(c.subrange(4, 5)) == c[4] + seq!['\n'] + lines_text_nl(c.subrange(5, 5)));
    assert(lines_text_nl(c.subrange(5, 5)) == Seq::<char>::empty());
    assert(c.subrange(0, 5) =~= c);
    lemma_alert_statement_text_1(trim(s.executing_sql));
    lemma_alert_statement_text_2(trim(s.parent_batch_sql));
    reveal(alert_client_lines);
    reveal_strlit("\n");
    reveal_strlit("\tClient Address: ");
    reveal_strlit("\tCommand: ");
    reveal_strlit("\tDB Name: ");
    reveal_strlit("\tExecuting SQL: ");
    reveal_strlit("\tLogin Name: ");
    reveal_strlit("\tParent Batch SQL: ");
    reveal_strlit("\tStart Time: ");
    assert(alert_client_lines(s) =~= c[0] + seq!['\n'] + c[1] + seq!['\n'] + c[2] + seq!['\n'] + c[3] + seq!['\n']
        + c[4] + seq!['\n'] + ("\tExecuting SQL: "@ + trim(s.executing_sql) + seq!['\n']) + (
    "\tParent Batch SQL: "@ + trim(s.parent_batch_sql) + seq!['\n']));
}

proof fn lemma_alert_wait_value(wait_type: Seq<char>, n: int)
    requires
        clear_of(wait_type, "\tWaitType: "@),
    ensures
        !contains(wait_type + " (Time: "@ + int_decimal(n) + " ms)"@, "\tWaitType: "@),
{
    let tag = "\tWaitType: "@;
    let r = " (Time: "@ + int_decimal(n) + " ms)"@;
    assert(wait_type + " (Time: "@ + int_decimal(n) + " ms)"@ =~= wait_type + r);
    assert(lacks(" (Time: "@, '\t') && " (Time: "@.len() == 8 && " (Time: "@[0] == ' ' && " (Time: "@[1] == '(') by {
        reveal_strlit(" (Time: ");
    }
    assert(lacks(" ms)"@, '\t')) by {
        reveal_strlit(" ms)");
    }
    assert(tag.len() == 11 && tag[0] == '\t' && lacks(tag, '(')) by {
        reveal_strlit("\tWaitType: ");
    }
    lemma_decimal_lacks(n, '\t');
    lemma_lacks_cat(" (Time: "@, int_decimal(n), '\t');
    lemma_lacks_cat(" (Time: "@ + int_decimal(n), " ms)"@, '\t');
    assert(r[0] == ' ' && r[1] == '(');
    lemma_clear_of_before(wait_type, tag, r);
}

proof fn lemma_alert_wait_read(d: SessionAlertView, wait_type: Seq<char>, n: int)
    requires
        clear_of(wait_type, "\tWaitType: "@),
        ends_before(wait_type, " (Time: "@),
    ensures
        session_wait_fields(d, "\tWaitType: "@ + (wait_type + " (Time: "@ + int_decimal(n) + " ms)"@)) == (
        SessionAlertView { wait_type, wait_time_ms: int_decimal(n), ..d }),
{
    let tag = "\tWaitType: "@;
    let time_tag = " (Time: "@;
    let close = " ms)"@;
    let dn = int_decimal(n);
    let v = wait_type + time_tag + dn + close;
    assert(tag.len() > 0) by {
        reveal_strlit("\tWaitType: ");
    }
    assert(time_tag.len() == 8 && time_tag[1] == '(') by {
        reveal_strlit(" (Time: ");
    }
    assert(lacks(close, '(') && close.len() == 4 && close[1] == 'm' && close[0] != 'm') by {
        reveal_strlit(" ms)");
    }
    lemma_decimal_lacks(n, '(');
    lemma_decimal_lacks(n, 'm');
    lemma_alert_wait_value(wait_type, n);
    lemma_remove_prefix(tag, v);
    assert(v =~= wait_type + time_tag + (dn + close));
    lemma_split_head(wait_type, time_tag, dn + close);
    lemma_lacks_cat(dn, close, '(');
    lemma_lacks_no_occurrence(dn + close, time_tag, 1);
    lemma_split_whole(dn + close, time_tag);
    let w = split(v, time_tag);
    assert(w == seq![wait_type] + seq![dn + close]);
    assert(w.len() == 2 && w[0] == wait_type && w[1] == dn + close);
    lemma_lacks_ends_before(dn, close, 1);
    lemma_remove_suffix(dn, close);
}

proof fn lemma_alert_header_text(log_time: Seq<char>, server_id: Seq<char>, s: SessionView)
    ensures
        alert_head(log_time, server_id, s) == lines_text_nl(seq![session_alert_header(log_time, server_id, s)]),
{
    let c = seq![session_alert_header(log_time, server_id, s)];
    assert(c.drop_first() =~= Seq::<Seq<char>>::empty());
    assert(lines_text_nl(c.drop_first()) == Seq::<char>::empty());
    reveal(alert_head);
    reveal_strlit("[");
    reveal_strlit("] Server: ");
    reveal_strlit(" | SPID: ");
    reveal_strlit(" | Alert! Session Elapsed: ");
    reveal_strlit(" ms\n");
    reveal_strlit(" | ");
    reveal_strlit("SPID: ");
    reveal_strlit("Alert! Session Elapsed: ");
    reveal_strlit(" ms");
    assert(alert_head(log_time, server_id, s) =~= c[0] + seq!['\n']);
}

proof fn lemma_alert_header_plain(log_time: Seq<char>, server_id: Seq<char>, s: SessionView)
    requires
        lacks(log_time, '\n'),
        lacks(server_id, '\n'),
    ensures
        plain_lines(seq![session_alert_header(log_time, server_id, s)]),
        session_alert_header(log_time, server_id, s).len() > 0,
        session_alert_header(log_time, server_id, s)[0] == '[',
{
    let h = session_alert_header(log_time, server_id, s);
    let ds = int_decimal(s.session_id);
    let de = int_decimal(s.elapsed_time_ms);
    lemma_decimal_lacks(s.session_id, '\n');
    lemma_decimal_lacks(s.elapsed_time_ms, '\n');
    reveal_strlit("] Server: ");
    reveal_strlit(" | ");
    reveal_strlit("SPID: ");
    reveal_strlit("Alert! Session Elapsed: ");
    reveal_strlit(" ms");
    let p0 = seq!['['] + log_time;
    let p1 = p0 + "] Server: "@;
    let p2 = p1 + server_id;
    let p3 = p2 + " | "@;
    let p4 = p3 + ("SPID: "@ + ds);
    let p5 = p4 + " | "@;
    let p6 = p5 + ("Alert! Session Elapsed: "@ + de + " ms"@);
    lemma_lacks_cat(seq!['['], log_time, '\n');
    lemma_lacks_cat(p0, "] Server: "@, '\n');
    lemma_lacks_cat(p1, server_id, '\n');
    lemma_lacks_cat(p2, " | "@, '\n');
    lemma_lacks_cat("SPID: "@, ds, '\n');
    lemma_lacks_cat(p3, "SPID: "@ + ds, '\n');
    lemma_lacks_cat(p4, " | "@, '\n');
    lemma_lacks_cat("Alert! Session Elapsed: "@, de, '\n');
    lemma_lacks_cat("Alert! Session Elapsed: "@ + de, " ms"@, '\n');
    lemma_lacks_cat(p5, "Alert! Session Elapsed: "@ + de + " ms"@, '\n');
    assert(h == p6);
    assert(h.last() == 's');
    let c = seq![h];
    assert forall|i: int| 0 <= i < c.len() implies lacks(#[trigger] c[i], '\n') && !(c[i].len() > 0 && c[i].last() == '\r') by {
        assert(i == 0);
    }
}

proof fn lemma_alert_text_shape(log_time: Seq<char>, server_id: Seq<char>, s: SessionView)
    ensures
        alert_log_text(log_time, server_id, s) == session_alert_body(log_time, server_id, s) + separator_line() + seq![
            '\n',
        ],
{
    let h = seq![session_alert_header(log_time, server_id, s)];
    let cw = session_alert_wait_lines(s);
    let cc = session_alert_cpu_lines(s);
    let cr = session_alert_write_lines(s);
    let cl = session_alert_client_lines(s);
    let se = statement_lines("\tExecuting SQL: "@, trim(s.executing_sql));
    let sp = statement_lines("\tParent Batch SQL: "@, trim(s.parent_batch_sql));
    let ls = session_alert_lines(log_time, server_id, s);
    assert(ls == h + cw + cc + cr + cl + se + sp);
    lemma_alert_header_text(log_time, server_id, s);
    lemma_alert_wait_text(s);
    lemma_alert_cpu_text(s);
    lemma_alert_write_text(s);
    lemma_alert_client_text(s);
    lemma_lines_text_nl_append(h, cw);
    lemma_lines_text_nl_append(h + cw, cc);
    lemma_lines_text_nl_append(h + cw + cc, cr);
    lemma_lines_text_nl_append(h + cw + cc + cr, cl);
    lemma_lines_text_nl_append(h + cw + cc + cr + cl, se);
    lemma_lines_text_nl_append(h + cw + cc + cr + cl + se, sp);
    lemma_lines_text_nl(ls);
    reveal_strlit("\n");
    assert(alert_log_text(log_time, server_id, s) =~= session_alert_body(log_time, server_id, s) + separator_line()
        + seq!['\n']);
}

proof fn lemma_alert_block_lines(log_time: Seq<char>, server_id: Seq<char>, s: SessionView)
    requires
        lacks(log_time, '\n'),
        lacks(server_id, '\n'),
        entry_field(s.status, "\tStatus: "@),
        lacks(s.wait_type, '\n'),
        entry_field(s.last_wait_type, "\tLastWaitType: "@),
        entry_field(s.wait_resource, "\tWaitResource: "@),
        entry_field(s.client_net_address, "\tClient Address: "@),
        entry_field(s.login_name, "\tLogin Name: "@),
        entry_field(s.database_name, "\tDB Name: "@),
        entry_field(s.command, "\tCommand: "@),
        entry_field(s.start_time, "\tStart Time: "@),
        entry_statement(trim(s.executing_sql), "\tExecuting SQL: "@),
        entry_statement(trim(s.parent_batch_sql), "\tParent Batch SQL: "@),
        trim(s.parent_batch_sql).len() > 0,
    ensures
        lines(lines_text(session_alert_lines(log_time, server_id, s))) == session_alert_lines(log_time, server_id, s),
        trimmed_text(lines_text(session_alert_lines(log_time, server_id, s))),
{
    let h = seq![session_alert_header(log_time, server_id, s)];
    let cw = session_alert_wait_lines(s);
    let cc = session_alert_cpu_lines(s);
    let cr = session_alert_write_lines(s);
    let cl = session_alert_client_lines(s);
    let pb = trim(s.parent_batch_sql);
    let se = statement_lines("\tExecuting SQL: "@, trim(s.executing_sql));
    let sp = statement_lines("\tParent Batch SQL: "@, pb);
    let ls = session_alert_lines(log_time, server_id, s);
    assert(ls == h + cw + cc + cr + cl + se + sp);
    lemma_alert_header_plain(log_time, server_id, s);
    lemma_alert_wait_plain(s);
    lemma_alert_cpu_plain(s);
    lemma_alert_write_plain(s);
    lemma_alert_client_plain(s);
    lemma_trim_ends(s.parent_batch_sql);
    lemma_alert_statement_plain_1(trim(s.executing_sql));
    lemma_alert_statement_plain_2(pb);
    lemma_plain_lines_append(h, cw);
    lemma_plain_lines_append(h + cw, cc);
    lemma_plain_lines_append(h + cw + cc, cr);
    lemma_plain_lines_append(h + cw + cc + cr, cl);
    lemma_plain_lines_append(h + cw + cc + cr + cl, se);
    lemma_plain_lines_append(h + cw + cc + cr + cl + se, sp);
    assert(sp.len() >= 1);
    assert(ls.last() == sp.last());
    assert(ls.last().len() > 0 && ls.last().last() == pb.last());
    lemma_lines_of_lines_text(ls);
    assert(ls[0] == h[0]);
    lemma_lines_text_ends(ls);
}

#[verifier::spinoff_prover]
#[verifier::rlimit(40)]
proof fn lemma_alert_block_fold(log_time: Seq<char>, server_id: Seq<char>, s: SessionView)
    requires
        !(log_time.len() > 0 && log_time[0] == '['),
        ends_before(seq!['['] + log_time, "] Server: "@),
        clear_of(server_id, "] Server: "@),
        ends_before(server_id, " | "@),
        entry_field(s.status, "\tStatus: "@),
        lacks(s.wait_type, '\n'),
        clear_of(s.wait_type, "\tWaitType: "@),
        ends_before(s.wait_type, " (Time: "@),
        entry_field(s.last_wait_type, "\tLastWaitType: "@),
        entry_field(s.wait_resource, "\tWaitResource: "@),
        entry_field(s.client_net_address, "\tClient Address: "@),
        entry_field(s.login_name, "\tLogin Name: "@),
        entry_field(s.database_name, "\tDB Name: "@),
        entry_field(s.command, "\tCommand: "@),
        entry_field(s.start_time, "\tStart Time: "@),
        entry_statement(trim(s.executing_sql), "\tExecuting SQL: "@),
        entry_statement(trim(s.parent_batch_sql), "\tParent Batch SQL: "@),
    ensures
        session_fold(session_alert_lines(log_time, server_id, s)).data == session_alert_view(log_time, server_id, s),
{
    let h = seq![session_alert_header(log_time, server_id, s)];
    let cw = session_alert_wait_lines(s);
    let cc = session_alert_cpu_lines(s);
    let cr = session_alert_write_lines(s);
    let cl = session_alert_client_lines(s);
    let se = statement_lines("\tExecuting SQL: "@, trim(s.executing_sql));
    let sp = statement_lines("\tParent Batch SQL: "@, trim(s.parent_batch_sql));
    let ls = session_alert_lines(log_time, server_id, s);
    assert(ls == h + cw + cc + cr + cl + se + sp);
    let init = SessionAlertState { data: empty_session_alert(), sql_field: 0 };
    lemma_fold_from_start(ls);
    lemma_fold_from_append(init, h, cw);
    lemma_fold_from_append(init, h + cw, cc);
    lemma_fold_from_append(init, h + cw + cc, cr);
    lemma_fold_from_append(init, h + cw + cc + cr, cl);
    lemma_fold_from_append(init, h + cw + cc + cr + cl, se);
    lemma_fold_from_append(init, h + cw + cc + cr + cl + se, sp);
    assert(h.drop_last() =~= Seq::<Seq<char>>::empty());
    lemma_alert_header_read(init, log_time, server_id, s);
    let s1 = session_fold_from(init, h);
    lemma_alert_wait_fold(s1, s);
    let s2 = session_fold_from(s1, cw);
    lemma_alert_cpu_fold(s2, s);
    let s3 = session_fold_from(s2, cc);
    lemma_alert_write_fold(s3, s);
    let s4 = session_fold_from(s3, cr);
    lemma_alert_client_fold(s4, s);
    let s5 = session_fold_from(s4, cl);
    lemma_alert_statement_fold_1(s5, trim(s.executing_sql));
    let s6 = session_fold_from(s5, se);
    lemma_alert_statement_fold_2(s6, trim(s.parent_batch_sql));
}

/// An entry for a long-running request, read back by the alert log viewer,
/// gives one session entry with every field the monitor wrote: the time, the
/// server, the numbers in decimal and the statements trimmed, statements of
/// many lines included. This holds for fields that their lines give back (see
/// [`entry_field`]; the wait type also clear of its label and running cleanly
/// into its time), statements whose lines the viewer keeps together (see
/// [`entry_statement`]), a batch statement that is not blank, a time and a
/// server as in [`law_worker_entry_read_back`], and an entry that holds no
/// separator line before its own and does not mention high worker usage.
pub proof fn law_session_entry_read_back(log_time: Seq<char>, server_id: Seq<char>, s: SessionView)
    requires
        lacks(log_time, '\n'),
        !(log_time.len() > 0 && log_time[0] == '['),
        ends_before(seq!['['] + log_time, "] Server: "@),
        lacks(server_id, '\n'),
        clear_of(server_id, "] Server: "@),
        ends_before(server_id, " | "@),
        entry_field(s.status, "\tStatus: "@),
        lacks(s.wait_type, '\n'),
        clear_of(s.wait_type, "\tWaitType: "@),
        ends_before(s.wait_type, " (Time: "@),
        entry_field(s.last_wait_type, "\tLastWaitType: "@),
        entry_field(s.wait_resource, "\tWaitResource: "@),
        entry_field(s.client_net_address, "\tClient Address: "@),
        entry_field(s.login_name, "\tLogin Name: "@),
        entry_field(s.database_name, "\tDB Name: "@),
        entry_field(s.command, "\tCommand: "@),
        entry_field(s.start_time, "\tStart Time: "@),
        entry_statement(trim(s.executing_sql), "\tExecuting SQL: "@),
        entry_statement(trim(s.parent_batch_sql), "\tParent Batch SQL: "@),
        trim(s.parent_batch_sql).len() > 0,
        !contains(session_alert_body(log_time, server_id, s), separator_line()),
        !contains(alert_log_text(log_time, server_id, s), "Worker Threads usage is high"@),
    ensures
        parse_alert_log(alert_log_text(log_time, server_id, s)) == seq![
            AlertEntryView::Session(session_alert_view(log_time, server_id, s)),
        ],
{
    let ls = session_alert_lines(log_time, server_id, s);
    let b = lines_text(ls);
    let body = session_alert_body(log_time, server_id, s);
    let text = alert_log_text(log_time, server_id, s);
    let sep = separator_line();
    let nl = seq!['\n'];
    let entry = AlertEntryView::Session(session_alert_view(log_time, server_id, s));
    lemma_alert_text_shape(log_time, server_id, s);
    lemma_alert_block_lines(log_time, server_id, s);
    lemma_alert_block_fold(log_time, server_id, s);
    lemma_trim_trimmed(b);
    lemma_trim_line_feed();
    // the blocks between separators
    assert(sep.len() == 50 && lacks(sep, '\n') && sep[0] == '=') by {
        reveal_strlit("==================================================");
    }
    lemma_ends_before_by_last(body, sep);
    lemma_split_head(body, sep, nl);
    lemma_lacks_no_occurrence(nl, sep, 0);
    lemma_split_whole(nl, sep);
    let blocks = seq![body] + seq![nl];
    assert(split(text, sep) == blocks);
    assert(blocks.drop_last() =~= seq![body]);
    assert(seq![body].drop_last() =~= Seq::<Seq<char>>::empty());
    // the block is a session entry
    assert(!contains(b, "Worker Threads usage is high"@)) by {
        if contains(b, "Worker Threads usage is high"@) {
            lemma_contains_prefix(b, nl + sep + nl, "Worker Threads usage is high"@);
            assert(b + (nl + sep + nl) =~= text);
        }
    }
    assert(contains(b, "Alert! Session Elapsed:"@)) by {
        let x = seq!['['] + log_time + "] Server: "@ + server_id + " | "@ + ("SPID: "@ + int_decimal(
            s.session_id,
        )) + " | "@;
        let y = " "@ + int_decimal(s.elapsed_time_ms) + " ms"@;
        reveal_strlit("Alert! Session Elapsed: ");
        reveal_strlit("Alert! Session Elapsed:");
        reveal_strlit(" ");
        assert(ls[0] =~= x + "Alert! Session Elapsed:"@ + y);
        lemma_occurs_middle(x, "Alert! Session Elapsed:"@, y);
        assert(ls.len() >= 2);
        assert(b == ls[0] + nl + lines_text(ls.drop_first()));
        lemma_contains_prefix(ls[0], nl + lines_text(ls.drop_first()), "Alert! Session Elapsed:"@);
        assert(ls[0] + (nl + lines_text(ls.drop_first())) =~= b);
    }
    assert(alert_of_block(b) == Some(entry));
    assert(alerts_of_blocks(seq![body]) == alerts_of_blocks(Seq::<Seq<char>>::empty()).push(entry));
    assert(alerts_of_blocks(blocks) == seq![entry]);
}


proof fn lemma_alerts_of_blocks_append(a: Seq<Seq<char>>, b: Seq<Seq<char>>)
    ensures
        alerts_of_blocks(a + b) == alerts_of_blocks(a) + alerts_of_blocks(b),
    decreases b.len(),
{
    if b.len() == 0 {
        assert(a + b =~= a);
        assert(alerts_of_blocks(a) + alerts_of_blocks(b) =~= alerts_of_blocks(a));
    } else {
        assert((a + b).drop_last() =~= a + b.drop_last());
        assert((a + b).last() == b.last());
        lemma_alerts_of_blocks_append(a, b.drop_last());
        let prev = alerts_of_blocks(b.drop_last());
        assert((alerts_of_blocks(a) + prev).push(alert_of_block(trim(b.last()))->0) =~= alerts_of_blocks(a) + prev.push(
            alert_of_block(trim(b.last()))->0,
        ));
    }
}

proof fn lemma_alerts_after_line_feed(r: Seq<char>)
    ensures
        alerts_of_blocks(split(seq!['\n'] + r, separator_line())) == alerts_of_blocks(split(r, separator_line())),
{
    let sep = separator_line();
    assert(sep.len() == 50 && sep[0] == '=') by {
        reveal_strlit("==================================================");
    }
    lemma_split_leading('\n', r, sep);
    let parts = split(r, sep);
    let first = seq![seq!['\n'] + parts[0]];
    lemma_alerts_of_blocks_append(first, parts.drop_first());
    lemma_alerts_of_blocks_append(seq![parts[0]], parts.drop_first());
    assert(seq![parts[0]] + parts.drop_first() =~= parts);
    lemma_trim_leading_line_feed(parts[0]);
    assert(first.drop_last() =~= Seq::<Seq<char>>::empty());
    assert(seq![parts[0]].drop_last() =~= Seq::<Seq<char>>::empty());
    assert(alerts_of_blocks(first) == alerts_of_blocks(seq![parts[0]]));
}

/// The alert log is read entry by entry: an entry (its text, in which the
/// separator does not begin before its end, then the separator line and a line
/// feed) followed by more of the log gives the entry's alerts, then those of
/// the rest.
pub proof fn law_alert_log_entry_by_entry(body: Seq<char>, rest: Seq<char>)
    requires
        ends_before(body, separator_line()),
    ensures
        parse_alert_log(body + separator_line() + seq!['\n'] + rest) == parse_alert_log(
            body + separator_line() + seq!['\n'],
        ) + parse_alert_log(rest),
{
    let sep = separator_line();
    let nl = seq!['\n'];
    assert(sep.len() == 50 && sep[0] == '=') by {
        reveal_strlit("==================================================");
    }
    assert(body + sep + nl + rest =~= body + sep + (nl + rest));
    lemma_split_head(body, sep, nl + rest);
    lemma_split_head(body, sep, nl);
    lemma_alerts_of_blocks_append(seq![body], split(nl + rest, sep));
    lemma_alerts_of_blocks_append(seq![body], split(nl, sep));
    lemma_alerts_after_line_feed(rest);
    lemma_alerts_after_line_feed(Seq::<char>::empty());
    assert(nl + Seq::<char>::empty() =~= nl);
    lemma_lacks_no_occurrence(Seq::<char>::empty(), sep, 0);
    lemma_split_whole(Seq::<char>::empty(), sep);
    assert(seq![Seq::<char>::empty()].drop_last() =~= Seq::<Seq<char>>::empty());
    let e = Seq::<char>::empty();
    assert(trim_start(e) == e);
    assert(trim_end(e) == e);
    assert(trim(e).len() == 0);
    assert(split(e, sep) == seq![e]);
    assert(seq![e].last() == e);
    assert(alerts_of_blocks(seq![e]) == alerts_of_blocks(Seq::<Seq<char>>::empty()));
    assert(alerts_of_blocks(split(e, sep)) =~= Seq::<AlertEntryView>::empty());
    assert(parse_alert_log(body + sep + nl) =~= alerts_of_blocks(seq![body]));
}

/// Alert logs read one after the other give the entries of the first, then those
/// of the second, when the first ends in a separator line followed by nothing
/// but whitespace (as every written entry does).
pub proof fn law_alert_logs_concatenate(c1: Seq<char>, c2: Seq<char>)
    requires
        trim(split(c1, separator_line()).last()).len() == 0,
    ensures
        parse_alert_log(c1 + c2) == parse_alert_log(c1) + parse_alert_log(c2),
{
    let sep = separator_line();
    assert(sep.len() == 50 && sep[0] == '=') by {
        reveal_strlit("==================================================");
    }
    let x = split(c1, sep);
    let y = split(c2, sep);
    lemma_split_from_nonempty(c1, sep, 0);
    lemma_split_from_nonempty(c2, sep, 0);
    let t = x.last();
    let y0 = y[0];
    lemma_blank_prefix(t, y0);
    assert(lacks(t, sep[0])) by {
        assert forall|i: int| 0 <= i < t.len() implies t[i] != sep[0] by {
            assert(char_is_whitespace(t[i]));
        }
    }
    lemma_split_concat(c1, c2, sep);
    let front = x.drop_last();
    let rest = y.drop_first();
    assert(x =~= front + seq![t]);
    assert(y =~= seq![y0] + rest);
    lemma_alerts_of_blocks_append(front + seq![t + y0], rest);
    lemma_alerts_of_blocks_append(front, seq![t + y0]);
    lemma_alerts_of_blocks_append(front, seq![t]);
    lemma_alerts_of_blocks_append(seq![y0], rest);
    let e = Seq::<Seq<char>>::empty();
    assert(seq![t + y0].drop_last() =~= e);
    assert(seq![y0].drop_last() =~= e);
    assert(seq![t].drop_last() =~= e);
    assert(alerts_of_blocks(seq![t + y0]) == alerts_of_blocks(seq![y0]));
    assert(alerts_of_blocks(seq![t]) =~= Seq::<AlertEntryView>::empty());
    assert(alerts_of_blocks(x) =~= alerts_of_blocks(front));
}

} // verus!
