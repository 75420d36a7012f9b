//! Routing decisions of the daemon: how an incoming connection is told
//! apart, and which waiting peer it is paired with.
//!
//! Command-line clients and browsers connect in any order. A connection of
//! one kind is paired with a waiting connection of the other kind, preferring
//! one for the same dashboard and otherwise taking the first that waits; when
//! none waits, it waits itself.

use vstd::prelude::*;
use crate::json::opt_string_view;

verus! {

/// A connection waiting for a peer, with the dashboard it asked for.
pub struct Waiting<T> {
    pub dashboard: Option<String>,
    pub conn: T,
}

/// The connections that wait for a peer.
pub struct Connections<C, W> {
    /// Browsers waiting for a command-line client.
    pub web_sockets: Vec<Waiting<W>>,
    /// Command-line clients waiting for a browser.
    pub cli_connections: Vec<Waiting<C>>,
}

/// Whether the `i`-th waiting connection asked for dashboard `d`.
pub open spec fn waits_for<T>(s: Seq<Waiting<T>>, d: Option<Seq<char>>, i: int) -> bool {
    0 <= i < s.len() && opt_string_view(s[i].dashboard) == d
}

/// Whether `i` is the first waiting connection that asked for dashboard `d`.
pub open spec fn first_waiting_for<T>(s: Seq<Waiting<T>>, d: Option<Seq<char>>, i: int) -> bool {
    waits_for(s, d, i) && forall|j: int| 0 <= j < i ==> !waits_for(s, d, j)
}

/// The waiting connection chosen for a peer that asks for dashboard `d`:
/// for a named dashboard, the first that asked for the same one, else the
/// first that waits; with no dashboard named, the first that waits.
pub open spec fn pick_index<T>(s: Seq<Waiting<T>>, d: Option<Seq<char>>) -> Option<int> {
    if d is Some && exists|i: int| first_waiting_for(s, d, i) {
        Some(choose|i: int| first_waiting_for(s, d, i))
    } else if s.len() > 0 {
        Some(0)
    } else {
        None
    }
}

impl<C, W> Connections<C, W> {
    /// At most one kind of connection waits: a connection never waits while
    /// a connection of the other kind waits too.
    pub open spec fn one_side_waits(&self) -> bool {
        self.web_sockets@.len() == 0 || self.cli_connections@.len() == 0
    }

    /// No connection waits.
    pub fn new() -> (r: Self)
        ensures
            r.web_sockets@.len() == 0,
            r.cli_connections@.len() == 0,
    {
        Connections { web_sockets: Vec::new(), cli_connections: Vec::new() }
    }

    /// Routes an incoming command-line client: paired with a waiting browser
    /// if there is one (returned, to forward the client's data to it),
    /// otherwise saved to wait for a browser.
    pub fn connect_cli(&mut self, dashboard: Option<String>, cli: C) -> (r: Option<(C, W)>)
        ensures
            match pick_index(old(self).web_sockets@, opt_string_view(dashboard)) {
                Some(i) => {
                    &&& r == Some((cli, old(self).web_sockets@[i].conn))
                    &&& final(self).web_sockets@ == old(self).web_sockets@.remove(i)
                    &&& final(self).cli_connections@ == old(self).cli_connections@
                },
                None => {
                    &&& r is None
                    &&& final(self).web_sockets@ == old(self).web_sockets@
                    &&& final(self).cli_connections@ == old(self).cli_connections@.push(
                        (Waiting { dashboard, conn: cli }),
                    )
                },
            },
            old(self).one_side_waits() ==> final(self).one_side_waits(),
    {
        proof {
            law_pick_takes_any_waiting(self.web_sockets@, opt_string_view(dashboard));
        }
        match matching_browser_ws(&dashboard, &mut self.web_sockets) {
            Some(ws) => Some((cli, ws)),
            None => {
                self.cli_connections.push(Waiting { dashboard, conn: cli });
                None
            },
        }
    }

    /// Routes an incoming browser: paired with a waiting command-line client
    /// if there is one (returned, to forward that client's data to it),
    /// otherwise saved to wait for a client.
    pub fn connect_ws(&mut self, dashboard: Option<String>, ws: W) -> (r: Option<(C, W)>)
        ensures
            match pick_index(old(self).cli_connections@, opt_string_view(dashboard)) {
                Some(i) => {
                    &&& r == Some((old(self).cli_connections@[i].conn, ws))
                    &&& final(self).cli_connections@ == old(self).cli_connections@.remove(i)
                    &&& final(self).web_sockets@ == old(self).web_sockets@
                },
                None => {
                    &&& r is None
                    &&& final(self).cli_connections@ == old(self).cli_connections@
                    &&& final(self).web_sockets@ == old(self).web_sockets@.push(
                        (Waiting { dashboard, conn: ws }),
                    )
                },
            },
            old(self).one_side_waits() ==> final(self).one_side_waits(),
    {
        proof {
            law_pick_takes_any_waiting(self.cli_connections@, opt_string_view(dashboard));
        }
        match matching_cli_connection(&dashboard, &mut self.cli_connections) {
            Some(cli) => Some((cli.conn, ws)),
            None => {
                self.web_sockets.push(Waiting { dashboard, conn: ws });
                None
            },
        }
    }
}

/// Whether two optional dashboard names are the same.
fn same_dashboard(a: &Option<String>, b: &Option<String>) -> (r: bool)
    ensures
        r == (opt_string_view(*a) == opt_string_view(*b)),
{
    match (a, b) {
        (Some(x), Some(y)) => x.eq(y),
        (None, None) => true,
        _ => false,
    }
}

/// Removes and returns the waiting connection chosen for a peer that asks
/// for `dashboard` (see `pick_index`).
fn take_waiting<T>(dashboard: &Option<String>, waiting: &mut Vec<Waiting<T>>) -> (r: Option<
    Waiting<T>,
>)
    ensures
        match pick_index(old(waiting)@, opt_string_view(*dashboard)) {
            Some(i) => r == Some(old(waiting)@[i]) && final(waiting)@ == old(waiting)@.remove(i),
            None => r is None && final(waiting)@ == old(waiting)@,
        },
{
    let ghost d = opt_string_view(*dashboard);
    if dashboard.is_none() {
        return match first_index(waiting.as_slice()) {
            Some(k) => Some(waiting.remove(k)),
            None => None,
        };
    }
    let len = waiting.len();
    let mut i: usize = 0;
    while i < len
        invariant
            i <= len,
            len == waiting@.len(),
            waiting@ == old(waiting)@,
            d == opt_string_view(*dashboard),
            d is Some,
            forall|j: int| 0 <= j < i ==> !waits_for(waiting@, d, j),
        decreases len - i,
    {
        let same = same_dashboard(&waiting[i].dashboard, dashboard);
        assert(same == waits_for(waiting@, d, i as int));
        if same {
            assert(first_waiting_for(waiting@, d, i as int));
            assert forall|k: int| first_waiting_for(waiting@, d, k) implies k == i by {
                if k < i {
                } else if k > i {
                    assert(!waits_for(waiting@, d, i as int));
                }
            }
            let w = waiting.remove(i);
            return Some(w);
        }
        i = i + 1;
    }
    assert(!exists|k: int| first_waiting_for(waiting@, d, k));
    match first_index(waiting.as_slice()) {
        Some(k) => Some(waiting.remove(k)),
        None => None,
    }
}

/// Returns the waiting command-line client for a browser on `dashboard`:
/// the first that asked for the same dashboard, else the first that waits;
/// with no dashboard given, the first that waits.
pub fn matching_cli_connection<C>(
    dashboard: &Option<String>,
    cli_connections: &mut Vec<Waiting<C>>,
) -> (r: Option<Waiting<C>>)
    ensures
        match pick_index(old(cli_connections)@, opt_string_view(*dashboard)) {
            Some(i) => r == Some(old(cli_connections)@[i]) && final(cli_connections)@ == old(
                cli_connections,
            )@.remove(i),
            None => r is None && final(cli_connections)@ == old(cli_connections)@,
        },
{
    take_waiting(dashboard, cli_connections)
}

/// Returns the waiting browser for a command-line client on `dashboard`:
/// the first that asked for the same dashboard, else the first that waits;
/// with no dashboard given, the first that waits.
pub fn matching_browser_ws<W>(dashboard: &Option<String>, web_sockets: &mut Vec<Waiting<W>>) -> (r:
    Option<W>)
    ensures
        match pick_index(old(web_sockets)@, opt_string_view(*dashboard)) {
            Some(i) => r == Some(old(web_sockets)@[i].conn) && final(web_sockets)@ == old(
                web_sockets,
            )@.remove(i),
            None => r is None && final(web_sockets)@ == old(web_sockets)@,
        },
{
    match take_waiting(dashboard, web_sockets) {
        Some(w) => Some(w.conn),
        None => None,
    }
}

/// Index of the first element of a slice, if it has one.
pub fn first_index<V>(vec: &[V]) -> (r: Option<usize>)
    ensures
        r == (if vec@.len() > 0 { Some(0usize) } else { None::<usize> }),
{
    if vec.len() > 0 {
        Some(0)
    } else {
        None
    }
}

/// The choice of a waiting peer, stated over the dashboards the waiting
/// connections asked for: nobody is chosen when nobody waits; with no
/// dashboard named, the first waiting connection is chosen; with a dashboard
/// named, the first connection that asked for exactly that dashboard is
/// chosen, and when none did, the first waiting connection.
pub proof fn law_pick_choice<T>(s: Seq<Waiting<T>>, d: Option<Seq<char>>)
    ensures
        s.len() == 0 ==> pick_index(s, d) is None,
        (d is None && s.len() > 0) ==> pick_index(s, d) == Some(0int),
        (d is Some && s.len() > 0 && (forall|j: int|
            0 <= j < s.len() ==> opt_string_view(#[trigger] s[j].dashboard) != d))
            ==> pick_index(s, d) == Some(0int),
        forall|i: int|
            0 <= i < s.len() && d is Some && opt_string_view(#[trigger] s[i].dashboard) == d && (
            forall|j: int| 0 <= j < i ==> opt_string_view(s[j].dashboard) != d)
                ==> pick_index(s, d) == Some(i),
{
    assert forall|i: int|
        0 <= i < s.len() && d is Some && opt_string_view(#[trigger] s[i].dashboard) == d && (
        forall|j: int| 0 <= j < i ==> opt_string_view(s[j].dashboard) != d)
            implies pick_index(s, d) == Some(i) by {
        assert(first_waiting_for(s, d, i));
        let k = choose|k: int| first_waiting_for(s, d, k);
        assert(first_waiting_for(s, d, k));
        if k < i {
            assert(opt_string_view(s[k].dashboard) != d);
        } else if k > i {
            assert(!waits_for(s, d, i));
        }
    }
    if d is Some && s.len() > 0 && (forall|j: int|
        0 <= j < s.len() ==> opt_string_view(#[trigger] s[j].dashboard) != d) {
        if exists|i: int| first_waiting_for(s, d, i) {
            let i = choose|i: int| first_waiting_for(s, d, i);
            assert(opt_string_view(s[i].dashboard) == d);
        }
    }
}

/// With no dashboard named, the first waiting connection is chosen.
pub proof fn law_pick_without_dashboard_takes_first<T>(s: Seq<Waiting<T>>)
    requires
        s.len() > 0,
    ensures
        pick_index(s, None) == Some(0int),
{
}

/// A peer is chosen exactly when some connection of the other kind waits.
pub proof fn law_pick_takes_any_waiting<T>(s: Seq<Waiting<T>>, d: Option<Seq<char>>)
    ensures
        pick_index(s, d) is Some <==> s.len() > 0,
        pick_index(s, d) matches Some(i) ==> 0 <= i < s.len(),
{
    if exists|i: int| first_waiting_for(s, d, i) {
        let i = choose|i: int| first_waiting_for(s, d, i);
        assert(first_waiting_for(s, d, i));
    }
}

/// When a dashboard is named and some waiting connection asked for it, the
/// chosen one did too, and none before it did.
pub proof fn law_pick_prefers_same_dashboard<T>(s: Seq<Waiting<T>>, d: Option<Seq<char>>, k: int)
    requires
        d is Some,
        waits_for(s, d, k),
    ensures
        pick_index(s, d) matches Some(i) && first_waiting_for(s, d, i) && i <= k,
{
    lemma_first_exists(s, d, k);
    let i = choose|i: int| first_waiting_for(s, d, i);
    assert(first_waiting_for(s, d, i));
    if i > k {
        assert(!waits_for(s, d, k));
    }
}

proof fn lemma_first_exists<T>(s: Seq<Waiting<T>>, d: Option<Seq<char>>, k: int)
    requires
        waits_for(s, d, k),
    ensures
        exists|i: int| first_waiting_for(s, d, i),
    decreases k,
{
    if forall|j: int| 0 <= j < k ==> !waits_for(s, d, j) {
        assert(first_waiting_for(s, d, k));
    } else {
        let j = choose|j: int| 0 <= j < k && waits_for(s, d, j);
        lemma_first_exists(s, d, j);
    }
}

/// The request line with which a browser opens a websocket to the daemon:
/// the ASCII text `GET / HTTP/1.1`.
pub open spec fn websocket_request_line() -> Seq<u8> {
    seq![71u8, 69, 84, 32, 47, 32, 72, 84, 84, 80, 47, 49, 46, 49]
}

/// The two kinds of connection the daemon accepts.
pub enum ConnectionKind {
    /// A browser opening a websocket.
    Browser,
    /// A command-line client sending a header frame and data.
    CommandLine,
}

/// Tells a new connection's kind from its first bytes: a browser's begins
/// with the websocket request line, anything else is a command-line client.
pub fn classify_connection(front: &[u8]) -> (r: ConnectionKind)
    ensures
        r is Browser <==> front@ == websocket_request_line(),
{
    let expected: [u8; 14] = [71u8, 69, 84, 32, 47, 32, 72, 84, 84, 80, 47, 49, 46, 49];
    assert(expected@ =~= websocket_request_line());
    if front.len() != 14 {
        return ConnectionKind::CommandLine;
    }
    let mut i: usize = 0;
    while i < 14
        invariant
            i <= 14,
            front@.len() == 14,
            expected@ == websocket_request_line(),
            forall|j: int| 0 <= j < i ==> front@[j] == expected@[j],
        decreases 14 - i,
    {
        if front[i] != expected[i] {
            return ConnectionKind::CommandLine;
        }
        i = i + 1;
    }
    assert(front@ =~= websocket_request_line());
    ConnectionKind::Browser
}

/// What the daemon's serving loop has just seen.
pub enum DaemonEvent {
    /// A new connection was handled (paired, saved, or refused with an error).
    ConnectionHandled,
    /// A forward of one client's data to a browser completed.
    ForwardDone,
}

/// What the daemon's serving loop does next.
pub enum DaemonStep {
    /// Go on accepting connections.
    Serve,
    /// Stop serving.
    Quit,
}

/// Decides whether the daemon goes on serving: with `once_only`, it quits
/// after the first completed data transfer; otherwise it serves on.
pub fn next_step(once_only: bool, event: DaemonEvent) -> (r: DaemonStep)
    ensures
        r is Quit <==> (once_only && event is ForwardDone),
{
    match event {
        DaemonEvent::ForwardDone => if once_only {
            DaemonStep::Quit
        } else {
            DaemonStep::Serve
        },
        DaemonEvent::ConnectionHandled => DaemonStep::Serve,
    }
}

} // verus!
