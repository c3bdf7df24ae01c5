//! The list of sessions the proxy has opened, and the commands that the
//! server sends to the task that keeps it.
use std::sync::Arc;
use vstd::prelude::*;

use crate::session_handler::SessionHandler;
use crate::tokio_handles::share;
use tokio::net::TcpStream;
use tokio::sync::oneshot;

verus! {

/// A command to the session manager.
#[verifier::reject_recursive_types(S)]
pub enum SessionManagerCommand<S = TcpStream> {
    /// Keep this new session and run it.
    Add(Arc<SessionHandler<S>>),
    /// Send back the list of sessions.
    GetSessions(oneshot::Sender<Vec<Arc<SessionHandler<S>>>>),
}

/// What the manager's task does after a command.
#[verifier::reject_recursive_types(S)]
pub enum CommandOutcome<S = TcpStream> {
    /// Start running this session.
    Run(Arc<SessionHandler<S>>),
    /// Send this list of sessions on this channel.
    Reply(oneshot::Sender<Vec<Arc<SessionHandler<S>>>>, Vec<Arc<SessionHandler<S>>>),
}

/// The sessions opened so far, in the order they were added.
#[verifier::reject_recursive_types(S)]
pub struct SessionManager<S = TcpStream> {
    pub sessions: Vec<Arc<SessionHandler<S>>>,
}

impl<S> SessionManager<S> {
    /// Keeps a new session at the end of the list.
    pub fn add_session(&mut self, session: Arc<SessionHandler<S>>)
        ensures
            final(self).sessions@ == old(self).sessions@.push(session),
    {
        self.sessions.push(session);
    }

    /// A copy of the list: the same sessions, shared, in the same order.
    pub fn sessions_snapshot(&self) -> (r: Vec<Arc<SessionHandler<S>>>)
        ensures
            r@ == self.sessions@,
    {
        let mut r: Vec<Arc<SessionHandler<S>>> = Vec::new();
        let mut i: usize = 0;
        while i < self.sessions.len()
            invariant
                0 <= i <= self.sessions@.len(),
                r@ == self.sessions@.subrange(0, i as int),
            decreases self.sessions@.len() - i,
        {
            r.push(share(&self.sessions[i]));
            i = i + 1;
            assert(r@ =~= self.sessions@.subrange(0, i as int));
        }
        assert(r@ =~= self.sessions@);
        r
    }

    /// Carries out one command. `Add` keeps the session and hands it back
    /// so that its run can be started; `GetSessions` leaves the list
    /// unchanged and hands back the asker's channel with a copy of the list
    /// to send on it.
    pub fn handle_command(&mut self, command: SessionManagerCommand<S>) -> (r: CommandOutcome<S>)
        ensures
            match command {
                SessionManagerCommand::Add(s) => final(self).sessions@ == old(self).sessions@.push(s)
                    && r == CommandOutcome::Run(s),
                SessionManagerCommand::GetSessions(asker) => {
                    &&& final(self).sessions@ == old(self).sessions@
                    &&& r matches CommandOutcome::Reply(to, list) && to == asker && list@ == old(
                        self,
                    ).sessions@
                },
            },
    {
        match command {
            SessionManagerCommand::Add(session) => {
                self.add_session(share(&session));
                CommandOutcome::Run(session)
            },
            SessionManagerCommand::GetSessions(reply) => {
                let snapshot = self.sessions_snapshot();
                CommandOutcome::Reply(reply, snapshot)
            },
        }
    }
}

} // verus!
