# sql_monitor

A monitor for SQL Server instances, with two viewers for the logs it writes.
The monitor polls each configured server for worker usage, counters and
long-running requests, shows them on a dashboard, and writes three logs: a
snapshot log of the dashboard, an alert log of long-running requests and an
alert log of high worker usage. The alert log viewer and the snapshot viewer
read those logs back; the snapshot viewer also sorts a snapshot's requests by
column and exports a snapshot on its own.

## Layout

- `src/` is the verified library (Verus):
  - `text`, `number`: text and number primitives with their specifications
    (splitting, trimming, replacing, decimal text, parsing).
  - `model`: configuration, dashboard and request data.
  - `report`: the text of the three logs and of the detail views.
  - `poll`: one polling step of a server (what to do after a connection, a
    login, a query, a pause), and the assembly of the rows a query returns.
  - `monitor`: the dashboard's attention state and grid layout.
  - `alert_viewer`, `snapshot_viewer`: the two log readers, sorting and export.
  - `log_order`, `alert_laws`, `snapshot_laws`, `text_laws`: the laws that
    relate these parts: sorting rearranges and restores the log order,
    sorting again by the same column changes nothing, an
    export exports the same text again, logs read one after the other give
    their entries one after the other, and the logs read back as written where
    the written fields allow it. Each read-back law names its conditions:
    fields with no line break, no copy of their own label and no separator
    line in the text; for the alert log, a time and server that run cleanly
    into "] Server: " and " | " and a batch statement that is not blank (see
    `entry_field`, `entry_statement`); for the snapshot log, a non-empty
    server, fields that end their line without whitespace and a bar separator
    only where the layout puts one (see `exportable_header`,
    `exportable_session`). The header fields and the number of requests of a
    written snapshot read back on wider inputs: any requests whose lines the
    viewer cannot take for header lines or for the start of another request
    (see `request_lines_neutral`).
- `tests/`: tests of the library on concrete values.
- `app/`: the program around the library: the windows, the database
  connection and the polling loop, the files, the configuration file. One
  program runs the monitor or either viewer, chosen by its first argument.
  The windows use `eframe`, which `Cargo.toml` does not list; add
  `eframe = "0.27"` under `[dependencies]` to build `app/`.
