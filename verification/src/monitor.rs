//! The monitor's board: the watched servers, the latest dashboard of each, and
//! the decisions the board makes each frame (when to keep a snapshot, when to
//! ask for the user's attention, how to lay out the servers).
use vstd::prelude::*;
use crate::model::{
    AppConfig, DashboardData, DashboardView, ServerConfig, ServerController, SessionData,
    empty_dashboard,
};

verus! {

/// The most servers the board watches; later ones in the configuration are
/// ignored.
pub open spec fn max_servers() -> int {
    4
}

/// The board's state.
pub struct MonitorBoard {
    pub server_configs: Vec<ServerConfig>,
    pub server_data: Vec<DashboardData>,
    pub selected_session: Option<SessionData>,
    pub unacknowledged_alert: bool,
}

impl MonitorBoard {
    /// At most four servers, each with one dashboard.
    pub open spec fn wf(&self) -> bool {
        &&& self.server_configs@.len() <= max_servers()
        &&& self.server_data@.len() == self.server_configs@.len()
    }

    /// The board for `config`: its first four servers (or fewer), each with an
    /// empty dashboard, no request selected and no pending alert.
    pub fn new(config: AppConfig) -> (b: MonitorBoard)
        ensures
            b.wf(),
            b.server_configs@ == config.servers@.take(
                if config.servers@.len() < 4 {
                    config.servers@.len() as int
                } else {
                    4
                },
            ),
            forall|i: int| 0 <= i < b.server_data@.len() ==> #[trigger] b.server_data@[i]@ == empty_dashboard(),
            b.selected_session is None,
            !b.unacknowledged_alert,
    {
        let mut server_configs = config.servers;
        let ghost all = server_configs@;
        server_configs.truncate(4);
        assert(server_configs@ =~= all.take(if all.len() < 4 { all.len() as int } else { 4 }));
        let n = server_configs.len();
        let mut server_data: Vec<DashboardData> = Vec::new();
        for i in 0..n
            invariant
                server_data@.len() == i,
                forall|k: int| 0 <= k < i ==> #[trigger] server_data@[k]@ == empty_dashboard(),
        {
            server_data.push(DashboardData::default());
        }
        MonitorBoard {
            server_configs,
            server_data,
            selected_session: None,
            unacknowledged_alert: false,
        }
    }

    /// Whether some server's latest dashboard holds an alert.
    pub open spec fn any_alerting_spec(&self) -> bool {
        exists|i: int| 0 <= i < self.server_data@.len() && (#[trigger] self.server_data@[i])@.is_alerting
    }

    /// Whether some server's latest dashboard holds an alert.
    pub fn any_alerting(&self) -> (r: bool)
        ensures
            r == self.any_alerting_spec(),
    {
        let mut i: usize = 0;
        while i < self.server_data.len()
            invariant
                i <= self.server_data@.len(),
                forall|k: int| 0 <= k < i ==> !(#[trigger] self.server_data@[k])@.is_alerting,
            decreases self.server_data.len() - i,
        {
            if self.server_data[i].is_alerting {
                assert(self.server_data@[i as int]@.is_alerting);
                return true;
            }
            i += 1;
        }
        false
    }

    /// Takes a new dashboard of server `i`. Returns whether to keep a snapshot
    /// of it: when the snapshot threshold is set (nonzero), the count of
    /// running requests reaches it, and snapshots are not paused.
    pub fn accept_data(&mut self, i: usize, data: DashboardData, settings: &ServerController) -> (keep_snapshot: bool)
        requires
            old(self).wf(),
            i < old(self).server_data@.len(),
        ensures
            final(self).wf(),
            final(self).server_configs@ == old(self).server_configs@,
            final(self).server_data@ == old(self).server_data@.update(i as int, data),
            final(self).selected_session == old(self).selected_session,
            final(self).unacknowledged_alert == old(self).unacknowledged_alert,
            keep_snapshot == snapshot_due(settings.requests_snapshot, settings.pause_snapshot, data@.raw_session_count),
    {
        let keep = settings.requests_snapshot > 0 && data.raw_session_count as u64 >= settings.requests_snapshot
            && !settings.pause_snapshot;
        self.server_data.set(i, data);
        keep
    }

    /// Decides, once per frame, whether to ask for the user's attention; see
    /// [`attention_transition`].
    pub fn attend(&mut self, focused: bool) -> (request_attention: bool)
        requires
            old(self).wf(),
        ensures
            final(self).wf(),
            final(self).server_configs@ == old(self).server_configs@,
            final(self).server_data@ == old(self).server_data@,
            final(self).selected_session == old(self).selected_session,
            (final(self).unacknowledged_alert, request_attention) == attention_transition(
                old(self).unacknowledged_alert,
                focused,
                old(self).any_alerting_spec(),
            ),
    {
        let any = self.any_alerting();
        if focused {
            self.unacknowledged_alert = false;
            false
        } else if any && !self.unacknowledged_alert {
            self.unacknowledged_alert = true;
            true
        } else if !any {
            self.unacknowledged_alert = false;
            false
        } else {
            false
        }
    }

    /// How many columns the servers are laid out in: one for a single server,
    /// two otherwise.
    pub fn grid_columns(&self) -> (c: usize)
        ensures
            c == (if self.server_configs@.len() == 1 { 1usize } else { 2usize }),
    {
        if self.server_configs.len() == 1 {
            1
        } else {
            2
        }
    }
}

/// Whether a dashboard with `count` running requests is kept as a snapshot.
pub open spec fn snapshot_due(threshold: u64, paused: bool, count: int) -> bool {
    threshold > 0 && count >= threshold && !paused
}

/// The attention decision: with the window focused, the pending alert is
/// acknowledged; without focus, a new alert (none pending) asks for attention
/// once and stays pending; when no server alerts, nothing is pending. Gives the
/// new pending flag and whether to ask for attention now.
pub open spec fn attention_transition(pending: bool, focused: bool, alerting: bool) -> (bool, bool) {
    if focused {
        (false, false)
    } else if alerting && !pending {
        (true, true)
    } else if !alerting {
        (false, false)
    } else {
        (pending, false)
    }
}

/// While the window stays unfocused and some server keeps alerting, attention
/// is asked for on the first such frame only.
pub proof fn law_attention_asked_once(pending: bool)
    ensures
        ({
            let first = attention_transition(pending, false, true);
            let second = attention_transition(first.0, false, true);
            &&& first.0
            &&& first.1 == !pending
            &&& second == (true, false)
        }),
{
}

/// The pending flag after the frames `fs`, from `pending`; each frame is
/// whether the window had focus and whether some server was alerting.
pub open spec fn attention_after(pending: bool, fs: Seq<(bool, bool)>) -> bool
    decreases fs.len(),
{
    if fs.len() == 0 {
        pending
    } else {
        attention_transition(attention_after(pending, fs.drop_last()), fs.last().0, fs.last().1).0
    }
}

/// Whether frame `k` of `fs` asks for attention, from `pending` before the
/// first frame.
pub open spec fn attention_asked(pending: bool, fs: Seq<(bool, bool)>, k: int) -> bool {
    attention_transition(attention_after(pending, fs.take(k)), fs[k].0, fs[k].1).1
}

proof fn lemma_alerting_run_pending(pending: bool, fs: Seq<(bool, bool)>, k: int)
    requires
        forall|j: int| 0 <= j < fs.len() ==> #[trigger] fs[j] == (false, true),
        1 <= k <= fs.len(),
    ensures
        attention_after(pending, fs.take(k)),
    decreases k,
{
    let t = fs.take(k);
    assert(t.drop_last() =~= fs.take(k - 1));
    assert(t.last() == fs[k - 1]);
    if k > 1 {
        lemma_alerting_run_pending(pending, fs, k - 1);
    } else {
        assert(fs.take(0) =~= Seq::<(bool, bool)>::empty());
    }
}

/// Over a run of frames of any length in which the window never has focus and
/// some server alerts on every frame, attention is asked for at most once: on
/// the first frame, and only when no alert was pending before it.
pub proof fn law_attention_asked_once_per_run(pending: bool, fs: Seq<(bool, bool)>)
    requires
        forall|j: int| 0 <= j < fs.len() ==> #[trigger] fs[j] == (false, true),
    ensures
        forall|k: int| 0 <= k < fs.len() ==> #[trigger] attention_asked(pending, fs, k) == (k == 0 && !pending),
{
    assert forall|k: int| 0 <= k < fs.len() implies #[trigger] attention_asked(pending, fs, k) == (k == 0 && !pending) by {
        assert(fs[k] == (false, true));
        if k == 0 {
            assert(fs.take(0) =~= Seq::<(bool, bool)>::empty());
        } else {
            lemma_alerting_run_pending(pending, fs, k);
        }
    }
}

/// Focusing the window acknowledges the alert: nothing is pending and nothing
/// is asked for, whatever the servers show.
pub proof fn law_focus_acknowledges(pending: bool, alerting: bool)
    ensures
        attention_transition(pending, true, alerting) == (false, false),
{
}

/// Once no server alerts (or the window was focused), the next alert seen
/// without focus asks for attention again.
pub proof fn law_new_alert_asks_again(pending: bool, focused: bool)
    ensures
        ({
            let cleared = attention_transition(pending, focused, false);
            attention_transition(cleared.0, false, true) == (true, true)
        }),
{
}

/// Whether the server in position `i` ends a row of the grid.
pub fn ends_grid_row(i: usize, columns: usize) -> (r: bool)
    requires
        columns > 0,
        i < usize::MAX,
    ensures
        r == ((i + 1) % (columns as int) == 0),
{
    (i + 1) % columns == 0
}

/// The initial settings of each configured server.
pub fn initial_controllers(configs: &Vec<ServerConfig>) -> (r: Vec<ServerController>)
    ensures
        r@.len() == configs@.len(),
        forall|i: int|
            0 <= i < r@.len() ==> {
                let c = #[trigger] r@[i];
                let cfg = configs@[i];
                &&& !c.is_paused
                &&& c.interval_sec == cfg.default_interval_sec
                &&& c.filter_elapsed_ms == cfg.filter_elapsed_ms
                &&& c.alert_elapsed_ms == cfg.alert_elapsed_ms
                &&& c.alert_worker_percent == cfg.alert_worker_percent
                &&& c.requests_snapshot == cfg.requests_snapshot
                &&& c.pause_snapshot == (cfg.pause_snapshot != 0)
            },
{
    let mut r: Vec<ServerController> = Vec::new();
    for i in 0..configs.len()
        invariant
            r@.len() == i,
            forall|k: int|
                0 <= k < i ==> {
                    let c = #[trigger] r@[k];
                    let cfg = configs@[k];
                    &&& !c.is_paused
                    &&& c.interval_sec == cfg.default_interval_sec
                    &&& c.filter_elapsed_ms == cfg.filter_elapsed_ms
                    &&& c.alert_elapsed_ms == cfg.alert_elapsed_ms
                    &&& c.alert_worker_percent == cfg.alert_worker_percent
                    &&& c.requests_snapshot == cfg.requests_snapshot
                    &&& c.pause_snapshot == (cfg.pause_snapshot != 0)
                },
    {
        r.push(ServerController::from_config(&configs[i]));
    }
    r
}

} // verus!
