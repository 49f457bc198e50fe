//! Server lifecycle manager: the single slot for "a server is running",
//! the start/stop/status operations on it, and the laws of the lifecycle
//! state machine.
//!
//! The manager owns the sending half of a one-shot shutdown signal exactly
//! while a server is up. Start claims the slot and hands the receiving
//! half to the caller, who moves it into the background serving task; stop
//! takes the sender out and fires it; the serving task clears the slot
//! itself when its serve loop exits, so stop and self-termination converge
//! on the stopped state.
use vstd::prelude::*;
use vstd::string::*;

use crate::errors::ServerError;
use crate::info::{
    lemma_info_for_some_ip, make_server_info, spec_info_for, spec_info_for_some_ip, ServerInfo,
    STATUS_PORT,
};
use crate::net::get_local_ip;

verus! {

/// tokio's one-shot sender half, opaque here: it is only held in the
/// running slot and eventually consumed by `send`.
#[verifier::external_type_specification]
#[verifier::external_body]
#[verifier::reject_recursive_types(T)]
pub struct ExOneshotSender<T>(tokio::sync::oneshot::Sender<T>);

/// tokio's one-shot receiver half, opaque here: it is handed out to the
/// background serving task, whose shutdown wait-point awaits it.
#[verifier::external_type_specification]
#[verifier::external_body]
#[verifier::reject_recursive_types(T)]
pub struct ExOneshotReceiver<T>(tokio::sync::oneshot::Receiver<T>);

/// The error type of the receiver's awaited future, named only because
/// declaring the receiver brings its `Future` impl into view.
#[verifier::external_type_specification]
#[verifier::external_body]
pub struct ExRecvError(tokio::sync::oneshot::error::RecvError);

/// Relies on tokio::sync::oneshot::channel: creates a fresh linked
/// sender/receiver pair for the one-shot shutdown signal.
#[verifier::external_body]
fn shutdown_channel() -> (r: (
    tokio::sync::oneshot::Sender<()>,
    tokio::sync::oneshot::Receiver<()>,
)) {
    tokio::sync::oneshot::channel()
}

/// Relies on tokio::sync::oneshot::Sender::send: consumes the sender and
/// delivers the value, or fails when the receiver was already dropped.
/// Which of the two happens depends on the peer task, so nothing more is
/// stated.
#[verifier::external_body]
fn send_shutdown(tx: tokio::sync::oneshot::Sender<()>) -> (r: Result<(), ()>) {
    match tx.send(()) {
        Ok(()) => Ok(()),
        Err(()) => Err(()),
    }
}

/// What the host environment found when probing for the content root: the
/// resolved directory path, and whether that directory exists on disk.
pub struct ContentRoot {
    pub path: String,
    pub exists: bool,
}

/// What a successful start hands back: the report for the host, and the
/// receiving half of the shutdown signal, which the caller moves into the
/// background serving task.
pub struct StartHandle {
    pub info: ServerInfo,
    pub shutdown_rx: tokio::sync::oneshot::Receiver<()>,
}

/// Whether a start attempt succeeds: only from a stopped manager whose
/// content root was resolved and exists.
pub open spec fn spec_start_succeeds(running: bool, root: Option<ContentRoot>) -> bool {
    &&& !running
    &&& root matches Some(cr) && cr.exists
}

/// The running flag after a start attempt: set exactly by a success,
/// untouched by a failure.
pub open spec fn spec_running_after_start(running: bool, root: Option<ContentRoot>) -> bool {
    running || spec_start_succeeds(running, root)
}

/// Which error a failed start attempt reports: an occupied slot wins over
/// everything, then a failed resolution, then a missing directory.
pub open spec fn spec_start_error(running: bool, root: Option<ContentRoot>) -> ServerError {
    if running {
        ServerError::AlreadyRunning
    } else if root is None {
        ServerError::ResourceResolutionFailed
    } else {
        ServerError::ContentRootMissing(root->0.path)
    }
}

/// The running flag after any stop attempt: stop always leaves the
/// manager stopped.
pub open spec fn spec_running_after_stop(running: bool) -> bool {
    false
}

/// The message a successful stop reports.
pub open spec fn spec_stop_message() -> Seq<char> {
    "服务器已停止"@
}

/// The single slot for "a server is running". It holds the sending half
/// of the shutdown signal exactly while a server is up.
pub struct ServerManager {
    shutdown: Option<tokio::sync::oneshot::Sender<()>>,
}

impl ServerManager {
    /// The abstract lifecycle state: running iff the slot is occupied.
    pub closed spec fn is_running(&self) -> bool {
        self.shutdown is Some
    }

    /// A fresh manager, stopped.
    pub fn new() -> (m: ServerManager)
        ensures
            !m.is_running(),
    {
        ServerManager { shutdown: None }
    }

    /// Start: claim the running slot and hand back the report for the
    /// host together with the shutdown receiver for the background
    /// serving task. Fails without side effects when the slot is
    /// occupied, when the content root could not be resolved, or when the
    /// resolved directory is missing; succeeds exactly otherwise, with a
    /// report naming the requested port and well-formed URLs.
    pub fn start(&mut self, port: u16, root: Option<ContentRoot>) -> (r: Result<
        StartHandle,
        ServerError,
    >)
        ensures
            r is Ok <==> spec_start_succeeds(old(self).is_running(), root),
            final(self).is_running() == spec_running_after_start(old(self).is_running(), root),
            r matches Ok(h) ==> spec_info_for_some_ip(h.info, true, port),
            r matches Err(e) ==> e == spec_start_error(old(self).is_running(), root) && *final(self)
                == *old(self),
    {
        if self.shutdown.is_some() {
            return Err(ServerError::AlreadyRunning);
        }
        let cr = match root {
            None => {
                return Err(ServerError::ResourceResolutionFailed);
            },
            Some(cr) => cr,
        };
        if !cr.exists {
            return Err(ServerError::ContentRootMissing(cr.path));
        }
        let ip = get_local_ip();
        let (tx, rx) = shutdown_channel();
        self.shutdown = Some(tx);
        let info = make_server_info(true, port, ip.as_str());
        proof {
            lemma_info_for_some_ip(info, true, port, ip@);
        }
        Ok(StartHandle { info, shutdown_rx: rx })
    }

    /// Stop: take the sender out of the slot, if present, and fire the
    /// one-shot shutdown signal; returns as soon as the signal is sent,
    /// without waiting for the drain. On a stopped manager this fails
    /// with `NotRunning` and changes nothing. On a running manager the
    /// slot is emptied either way; whether the signal arrived or the
    /// background task was already gone decides between success and
    /// `SignalDeliveryFailed`.
    pub fn stop(&mut self) -> (r: Result<String, ServerError>)
        ensures
            final(self).is_running() == spec_running_after_stop(old(self).is_running()),
            !old(self).is_running() ==> (r matches Err(e) && e == ServerError::NotRunning
                && *final(self) == *old(self)),
            old(self).is_running() ==> (r matches Ok(m) && m@ == spec_stop_message()) || (
            r matches Err(e) && e == ServerError::SignalDeliveryFailed),
    {
        match self.shutdown.take() {
            None => Err(ServerError::NotRunning),
            Some(tx) => match send_shutdown(tx) {
                Ok(()) => {
                    proof {
                        reveal_strlit("服务器已停止");
                    }
                    Ok(String::from_str("服务器已停止"))
                },
                Err(()) => Err(ServerError::SignalDeliveryFailed),
            },
        }
    }

    /// Status: report whether the slot is occupied, under the fixed
    /// status port and a freshly resolved network address. A pure read;
    /// never fails.
    pub fn status(&self) -> (info: ServerInfo)
        ensures
            info.running == self.is_running(),
            spec_info_for_some_ip(info, self.is_running(), STATUS_PORT),
    {
        let running = self.shutdown.is_some();
        let ip = get_local_ip();
        let info = make_server_info(running, STATUS_PORT, ip.as_str());
        proof {
            lemma_info_for_some_ip(info, self.is_running(), STATUS_PORT, ip@);
        }
        info
    }

    /// The background serving task's own clearing of the slot when its
    /// serve loop exits (shutdown observed, bind failure, or fatal serve
    /// error): self-termination and stop converge on the stopped state.
    pub fn on_serve_exit(&mut self)
        ensures
            !final(self).is_running(),
    {
        self.shutdown = None;
    }
}

/// Law: from a stopped manager, once one start attempt has succeeded, no
/// further start attempt can succeed, whatever its probe found — it
/// reports `AlreadyRunning` — so no two background tasks are ever live at
/// once.
pub proof fn lemma_start_exclusive(root1: Option<ContentRoot>, root2: Option<ContentRoot>)
    requires
        spec_start_succeeds(false, root1),
    ensures
        !spec_start_succeeds(spec_running_after_start(false, root1), root2),
        spec_start_error(spec_running_after_start(false, root1), root2)
            == ServerError::AlreadyRunning,
{
}

/// How many of a sequence of start attempts succeed, when they run one
/// after the other from the given running flag. Concurrent start calls
/// serialize through the slot's mutual exclusion, so every interleaving
/// is some such sequence.
pub open spec fn spec_count_start_successes(running: bool, probes: Seq<Option<ContentRoot>>) -> nat
    decreases probes.len(),
{
    if probes.len() == 0 {
        0
    } else {
        (if spec_start_succeeds(running, probes[0]) {
            1nat
        } else {
            0nat
        }) + spec_count_start_successes(
            spec_running_after_start(running, probes[0]),
            probes.skip(1),
        )
    }
}

/// Law: while the manager is running, no sequence of start attempts has
/// any success at all.
pub proof fn lemma_no_start_succeeds_while_running(probes: Seq<Option<ContentRoot>>)
    ensures
        spec_count_start_successes(true, probes) == 0,
    decreases probes.len(),
{
    if probes.len() > 0 {
        lemma_no_start_succeeds_while_running(probes.skip(1));
    }
}

/// Law: from a stopped manager, any sequence of start attempts has at
/// most one success; and as soon as some attempt's probe found a good
/// content root, exactly one succeeds — all the others fail.
pub proof fn lemma_exactly_one_start_succeeds(probes: Seq<Option<ContentRoot>>)
    ensures
        spec_count_start_successes(false, probes) <= 1,
        (exists|i: int| 0 <= i < probes.len() && spec_start_succeeds(false, probes[i]))
            ==> spec_count_start_successes(false, probes) == 1,
    decreases probes.len(),
{
    if probes.len() > 0 {
        if spec_start_succeeds(false, probes[0]) {
            lemma_no_start_succeeds_while_running(probes.skip(1));
        } else {
            lemma_exactly_one_start_succeeds(probes.skip(1));
            if exists|i: int| 0 <= i < probes.len() && spec_start_succeeds(false, probes[i]) {
                let i = choose|i: int|
                    0 <= i < probes.len() && spec_start_succeeds(false, probes[i]);
                assert(probes.skip(1)[i - 1] == probes[i]);
            }
        }
    }
}

/// Law: stopping is idempotent — any stop leaves the manager stopped, and
/// a further stop finds it stopped and changes nothing more.
pub proof fn lemma_stop_idempotent(running: bool)
    ensures
        spec_running_after_stop(running) == false,
        spec_running_after_stop(spec_running_after_stop(running)) == spec_running_after_stop(
            running,
        ),
{
}

/// Law: the slot is correctly reset — after a successful start and then a
/// stop, a new start attempt succeeds exactly when its probe found a good
/// content root, independent of any port involved.
pub proof fn lemma_restart_after_stop(root1: Option<ContentRoot>, root2: Option<ContentRoot>)
    requires
        spec_start_succeeds(false, root1),
    ensures
        spec_start_succeeds(
            spec_running_after_stop(spec_running_after_start(false, root1)),
            root2,
        ) == (root2 matches Some(cr) && cr.exists),
{
}

} // verus!
