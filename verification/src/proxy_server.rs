//! The proxy server's run state: the stop signal of its listener, and the
//! command channel to the session manager.
use vstd::prelude::*;

use crate::session_manager::SessionManagerCommand;
use crate::tokio_handles::clone_mpsc_sender;
use tokio::net::TcpStream;
use tokio::sync::{mpsc, oneshot};

verus! {

/// The error of `stop` when the stop signal could not be delivered.
pub const STOP_SIGNAL_FAILED: &'static str = "发送停止信号失败";

/// The error of `stop` when the server is not running.
pub const NOT_RUNNING: &'static str = "代理服务器未运行或已停止";

/// An operation that changes whether the server runs.
#[derive(Clone, Copy, Debug, PartialEq, Eq, Structural)]
pub enum ServerOp {
    Start,
    Stop,
}

/// Whether the server runs after `op`, having run (or not) before it.
pub open spec fn running_after_op(running: bool, op: ServerOp) -> bool {
    match op {
        ServerOp::Start => true,
        ServerOp::Stop => false,
    }
}

/// Whether the server runs after the operations `ops`, applied in order.
pub open spec fn running_after(running: bool, ops: Seq<ServerOp>) -> bool
    decreases ops.len(),
{
    if ops.len() == 0 {
        running
    } else {
        running_after(running_after_op(running, ops[0]), ops.drop_first())
    }
}

/// Whether the last start of `ops` has no stop after it.
pub open spec fn started_and_not_stopped(ops: Seq<ServerOp>) -> bool {
    exists|i: int|
        0 <= i < ops.len() && ops[i] == ServerOp::Start && forall|j: int|
            i < j < ops.len() ==> #[trigger] ops[j] != ServerOp::Stop
}

/// A server made by `new` and then started and stopped in any order runs
/// (and `get_state` says so) exactly when some start has no later stop.
pub proof fn running_tracks_start_and_stop(ops: Seq<ServerOp>)
    ensures
        running_after(false, ops) == started_and_not_stopped(ops),
{
    running_after_is_last(false, ops);
    if ops.len() > 0 {
        if ops.last() == ServerOp::Start {
            assert(started_and_not_stopped(ops)) by {
                let i = ops.len() - 1;
                assert(ops[i] == ServerOp::Start);
            }
        } else {
            assert(!started_and_not_stopped(ops)) by {
                if started_and_not_stopped(ops) {
                    let i = choose|i: int|
                        0 <= i < ops.len() && ops[i] == ServerOp::Start && forall|j: int|
                            i < j < ops.len() ==> #[trigger] ops[j] != ServerOp::Stop;
                    assert(ops[ops.len() - 1] != ServerOp::Stop);
                }
            }
        }
    }
}

/// After a nonempty run of operations, the server runs exactly when the
/// last one was a start.
proof fn running_after_is_last(running: bool, ops: Seq<ServerOp>)
    ensures
        ops.len() == 0 ==> running_after(running, ops) == running,
        ops.len() > 0 ==> running_after(running, ops) == (ops.last() == ServerOp::Start),
    decreases ops.len(),
{
    if ops.len() > 0 {
        let rest = ops.drop_first();
        running_after_is_last(running_after_op(running, ops[0]), rest);
        if rest.len() > 0 {
            assert(rest.last() == ops.last());
        }
    }
}

/// The proxy server: running exactly while it holds its listener's stop
/// signal.
#[verifier::reject_recursive_types(S)]
pub struct ProxyServer<S = TcpStream> {
    pub stop_signal: Option<oneshot::Sender<()>>,
    pub session_manager_command_sender: mpsc::Sender<SessionManagerCommand<S>>,
}

impl<S> ProxyServer<S> {
    /// A stopped server that talks to the session manager over `sender`.
    pub fn new(session_manager_command_sender: mpsc::Sender<SessionManagerCommand<S>>) -> (r: ProxyServer<S>)
        ensures
            r.stop_signal is None,
            r.session_manager_command_sender == session_manager_command_sender,
    {
        ProxyServer { stop_signal: None, session_manager_command_sender }
    }

    /// Records that the listener is up: keeps its stop signal (replacing
    /// any earlier one) and hands out a sender to the session manager for
    /// the accept loop.
    pub fn start(&mut self, stop_signal: oneshot::Sender<()>) -> (r: mpsc::Sender<SessionManagerCommand<S>>)
        ensures
            final(self).stop_signal == Some(stop_signal),
            (final(self).stop_signal is Some) == running_after_op(
                old(self).stop_signal is Some,
                ServerOp::Start,
            ),
            final(self).session_manager_command_sender == old(
                self,
            ).session_manager_command_sender,
    {
        self.stop_signal = Some(stop_signal);
        clone_mpsc_sender(&self.session_manager_command_sender)
    }

    /// Stops the server: takes its stop signal out, for the caller to send
    /// to the listener. Refused when the server is not running.
    pub fn stop(&mut self) -> (r: Result<oneshot::Sender<()>, &'static str>)
        ensures
            final(self).stop_signal is None,
            (final(self).stop_signal is Some) == running_after_op(
                old(self).stop_signal is Some,
                ServerOp::Stop,
            ),
            final(self).session_manager_command_sender == old(
                self,
            ).session_manager_command_sender,
            match old(self).stop_signal {
                Some(signal) => r == Ok::<oneshot::Sender<()>, &'static str>(signal),
                None => r == Err::<oneshot::Sender<()>, &'static str>(NOT_RUNNING),
            },
    {
        match self.stop_signal.take() {
            Some(signal) => Ok(signal),
            None => Err(NOT_RUNNING),
        }
    }

    /// The result of stopping once the stop signal has been sent: success
    /// when the listener received it, `STOP_SIGNAL_FAILED` when it was gone.
    pub fn stop_signal_delivered(delivered: bool) -> (r: Result<(), &'static str>)
        ensures
            delivered ==> r == Ok::<(), &'static str>(()),
            !delivered ==> r == Err::<(), &'static str>(STOP_SIGNAL_FAILED),
    {
        if delivered {
            Ok(())
        } else {
            Err(STOP_SIGNAL_FAILED)
        }
    }

    /// Whether the server is running.
    pub fn get_state(&self) -> (r: bool)
        ensures
            r == self.stop_signal is Some,
    {
        self.stop_signal.is_some()
    }
}

} // verus!
