//! One client session: its life-cycle states, the decisions of its run loop,
//! and the summary that the user interface shows of it.
use vstd::prelude::*;

pub use crate::address::{Address, AddressView, SocketAddr};
use crate::address::address_text;
use crate::protocol::ProxyProtocol;
pub use crate::tokio_handles::{CancelReceiver, CancelSender};
use crate::tokio_handles::cancel_channel;
use std::sync::Arc;
use tokio::net::TcpStream;
use tokio::sync::Mutex;

verus! {

/// The life cycle of a session.
#[derive(Clone, Copy, Debug, PartialEq, Eq, Structural)]
pub enum SessionState {
    /// Reading the client's protocol request.
    RequestParsing,
    /// Opening the connection to the requested target.
    ConnectingToTarget,
    /// Relaying data between client and target.
    ForwardingData,
    /// Stopped by a cancel signal while relaying.
    Canceled,
    /// Ended: the relay finished, or the target could not be reached.
    Finished,
}

/// How far along its life cycle a state is; a session only moves forward.
pub open spec fn state_rank(s: SessionState) -> int {
    match s {
        SessionState::RequestParsing => 0,
        SessionState::ConnectingToTarget => 1,
        SessionState::ForwardingData => 2,
        SessionState::Canceled => 3,
        SessionState::Finished => 3,
    }
}

/// A state in which the run loop ends.
pub open spec fn is_terminal(s: SessionState) -> bool {
    s == SessionState::Canceled || s == SessionState::Finished
}

/// What the run loop does in one round.
#[derive(Clone, Copy, Debug, PartialEq, Eq, Structural)]
pub enum SessionAction {
    /// Run the protocol's opening exchange on the client connection.
    ParseRequest,
    /// Open the connection to the stored target address.
    ConnectToTarget,
    /// Relay data both ways until one side ends or the cancel signal fires.
    ForwardData,
    /// Nothing to run this round: go round again.
    Continue,
    /// Leave the loop.
    Exit,
}

/// What came of the work of one round.
#[derive(Clone, Debug)]
pub enum SessionEvent {
    /// The request was read; it asks for this target.
    RequestParsed(Address),
    /// The request could not be read.
    RequestFailed,
    /// The target connection is open and stored.
    TargetConnected,
    /// The target could not be reached.
    TargetUnreachable,
    /// The cancel signal fired while relaying.
    CancelReceived,
    /// The relay ended, with or without an error.
    ForwardingEnded,
}

/// Mathematical model of [`SessionEvent`].
pub enum SessionEventView {
    RequestParsed(AddressView),
    RequestFailed,
    TargetConnected,
    TargetUnreachable,
    CancelReceived,
    ForwardingEnded,
}

impl View for SessionEvent {
    type V = SessionEventView;

    open spec fn view(&self) -> SessionEventView {
        match self {
            SessionEvent::RequestParsed(a) => SessionEventView::RequestParsed(a@),
            SessionEvent::RequestFailed => SessionEventView::RequestFailed,
            SessionEvent::TargetConnected => SessionEventView::TargetConnected,
            SessionEvent::TargetUnreachable => SessionEventView::TargetUnreachable,
            SessionEvent::CancelReceived => SessionEventView::CancelReceived,
            SessionEvent::ForwardingEnded => SessionEventView::ForwardingEnded,
        }
    }
}

/// Mathematical model of a stored target.
pub open spec fn target_view(t: Option<Address>) -> Option<AddressView> {
    match t {
        Some(a) => Some(a@),
        None => None,
    }
}

/// The state to store and the action to run at the start of a round.
pub open spec fn next_action_spec(
    state: SessionState,
    has_target_addr: bool,
    has_target_connection: bool,
    has_cancel_receiver: bool,
) -> (SessionState, SessionAction) {
    match state {
        SessionState::RequestParsing => (state, SessionAction::ParseRequest),
        SessionState::ConnectingToTarget => if has_target_addr {
            (state, SessionAction::ConnectToTarget)
        } else {
            (SessionState::Finished, SessionAction::Continue)
        },
        SessionState::ForwardingData => if !has_target_connection {
            (SessionState::Finished, SessionAction::Continue)
        } else if has_cancel_receiver {
            (state, SessionAction::ForwardData)
        } else {
            (state, SessionAction::Continue)
        },
        SessionState::Canceled => (state, SessionAction::Exit),
        SessionState::Finished => (state, SessionAction::Exit),
    }
}

/// Decides a round of the session loop from the stored state and from which
/// of the target address, the target connection and the (single-use) cancel
/// receiver the session holds.
pub fn next_action(
    state: SessionState,
    has_target_addr: bool,
    has_target_connection: bool,
    has_cancel_receiver: bool,
) -> (r: (SessionState, SessionAction))
    ensures
        r == next_action_spec(state, has_target_addr, has_target_connection, has_cancel_receiver),
{
    match state {
        SessionState::RequestParsing => (state, SessionAction::ParseRequest),
        SessionState::ConnectingToTarget => {
            if has_target_addr {
                (state, SessionAction::ConnectToTarget)
            } else {
                (SessionState::Finished, SessionAction::Continue)
            }
        },
        SessionState::ForwardingData => {
            if !has_target_connection {
                (SessionState::Finished, SessionAction::Continue)
            } else if has_cancel_receiver {
                (state, SessionAction::ForwardData)
            } else {
                (state, SessionAction::Continue)
            }
        },
        SessionState::Canceled => (state, SessionAction::Exit),
        SessionState::Finished => (state, SessionAction::Exit),
    }
}

/// The state and stored target after an event, and whether the loop keeps
/// running.
pub open spec fn after_event_spec(
    state: SessionState,
    target: Option<AddressView>,
    event: SessionEventView,
) -> (SessionState, Option<AddressView>, bool) {
    match event {
        SessionEventView::RequestParsed(a) => (SessionState::ConnectingToTarget, Some(a), true),
        SessionEventView::RequestFailed => (state, target, false),
        SessionEventView::TargetConnected => (SessionState::ForwardingData, target, true),
        SessionEventView::TargetUnreachable => (SessionState::Finished, target, true),
        SessionEventView::CancelReceived => (SessionState::Canceled, target, true),
        SessionEventView::ForwardingEnded => (SessionState::Finished, target, true),
    }
}

/// Applies what came of a round's work to the session state and its stored
/// target. A parsed request stores its target; a request that cannot be
/// read ends the loop and leaves the state as it was.
pub fn after_event(state: SessionState, target: Option<Address>, event: SessionEvent) -> (r: (
    SessionState,
    Option<Address>,
    bool,
))
    ensures
        (r.0, target_view(r.1), r.2) == after_event_spec(state, target_view(target), event@),
{
    match event {
        SessionEvent::RequestParsed(a) => (SessionState::ConnectingToTarget, Some(a), true),
        SessionEvent::RequestFailed => (state, target, false),
        SessionEvent::TargetConnected => (SessionState::ForwardingData, target, true),
        SessionEvent::TargetUnreachable => (SessionState::Finished, target, true),
        SessionEvent::CancelReceived => (SessionState::Canceled, target, true),
        SessionEvent::ForwardingEnded => (SessionState::Finished, target, true),
    }
}

/// The events that the work of an action can end in.
pub open spec fn event_of_action(action: SessionAction, event: SessionEventView) -> bool {
    match action {
        SessionAction::ParseRequest => event is RequestParsed || event is RequestFailed,
        SessionAction::ConnectToTarget => event is TargetConnected || event is TargetUnreachable,
        SessionAction::ForwardData => event is CancelReceived || event is ForwardingEnded,
        _ => false,
    }
}

/// Once past RequestParsing, a session holds its target address.
pub open spec fn holds_target_when_past_parsing(
    state: SessionState,
    target: Option<AddressView>,
) -> bool {
    state != SessionState::RequestParsing ==> target is Some
}

/// A round that runs work leaves the stored state as it was while the work
/// runs: a session shows RequestParsing while it reads the request,
/// ConnectingToTarget while it connects and ForwardingData while it relays.
/// It relays exactly when it is ForwardingData with a target connection and
/// its cancel receiver.
pub proof fn working_rounds_keep_the_state(
    state: SessionState,
    has_target_addr: bool,
    has_target_connection: bool,
    has_cancel_receiver: bool,
)
    ensures
        ({
            let (s1, action) = next_action_spec(
                state,
                has_target_addr,
                has_target_connection,
                has_cancel_receiver,
            );
            &&& action == SessionAction::ParseRequest || action == SessionAction::ConnectToTarget
                || action == SessionAction::ForwardData ==> s1 == state
            &&& action == SessionAction::ParseRequest <==> state == SessionState::RequestParsing
            &&& action == SessionAction::ConnectToTarget <==> state
                == SessionState::ConnectingToTarget && has_target_addr
            &&& action == SessionAction::ForwardData <==> state == SessionState::ForwardingData
                && has_target_connection && has_cancel_receiver
        }),
{
}

/// A round with no work to run either finishes a session that cannot go
/// on (nothing to connect to, or no target connection to relay over) or,
/// relaying with its cancel receiver already taken, leaves it as it is. The
/// loop is left exactly in Canceled and Finished, which stay as they are.
pub proof fn rounds_without_work(
    state: SessionState,
    has_target_addr: bool,
    has_target_connection: bool,
    has_cancel_receiver: bool,
)
    ensures
        ({
            let (s1, action) = next_action_spec(
                state,
                has_target_addr,
                has_target_connection,
                has_cancel_receiver,
            );
            &&& action == SessionAction::Continue ==> (s1 == SessionState::Finished && ((state
                == SessionState::ConnectingToTarget && !has_target_addr) || (state
                == SessionState::ForwardingData && !has_target_connection))) || (s1 == state
                && state == SessionState::ForwardingData && has_target_connection
                && !has_cancel_receiver)
            &&& action == SessionAction::Exit <==> is_terminal(state)
            &&& action == SessionAction::Exit ==> s1 == state
        }),
{
}

/// Each outcome of work moves the session to the stage it leads to: a
/// parsed request to connecting, a reached target to relaying, an
/// unreachable target or the end of the relay to Finished, and the cancel
/// signal to Canceled.
pub proof fn events_move_to_their_stage(
    state: SessionState,
    target: Option<AddressView>,
    event: SessionEventView,
)
    ensures
        ({
            let (s2, _, _) = after_event_spec(state, target, event);
            &&& event is RequestParsed ==> s2 == SessionState::ConnectingToTarget
            &&& event is TargetConnected ==> s2 == SessionState::ForwardingData
            &&& event is TargetUnreachable ==> s2 == SessionState::Finished
            &&& event is ForwardingEnded ==> s2 == SessionState::Finished
            &&& event is CancelReceived ==> s2 == SessionState::Canceled
        }),
{
}

/// A parsed request stores exactly its target; every other event keeps the
/// stored target. Only a failed request stops the loop, and it leaves the
/// state as it was.
pub proof fn events_store_the_parsed_target(
    state: SessionState,
    target: Option<AddressView>,
    event: SessionEventView,
)
    ensures
        ({
            let (s2, t2, running) = after_event_spec(state, target, event);
            &&& event matches SessionEventView::RequestParsed(a) ==> t2 == Some(a)
            &&& !(event is RequestParsed) ==> t2 == target
            &&& !running <==> event is RequestFailed
            &&& event is RequestFailed ==> s2 == state
        }),
{
}

/// Canceled and Finished end the loop at once, whatever the session holds.
pub proof fn terminal_states_exit(
    state: SessionState,
    has_target_addr: bool,
    has_target_connection: bool,
    has_cancel_receiver: bool,
)
    requires
        is_terminal(state),
    ensures
        next_action_spec(state, has_target_addr, has_target_connection, has_cancel_receiver) == (
        state,
        SessionAction::Exit,
        ),
{
}

/// Every round of the loop either moves the session strictly forward in its
/// life cycle or ends the loop, except one: relaying with the cancel
/// receiver already taken, where the round does nothing.
pub proof fn each_round_progresses(
    state: SessionState,
    has_target_addr: bool,
    has_target_connection: bool,
    has_cancel_receiver: bool,
    target: Option<AddressView>,
    event: SessionEventView,
)
    requires
        !(state == SessionState::ForwardingData && has_target_connection && !has_cancel_receiver),
    ensures
        ({
            let (s1, action) = next_action_spec(
                state,
                has_target_addr,
                has_target_connection,
                has_cancel_receiver,
            );
            &&& action == SessionAction::Exit ==> is_terminal(state)
            &&& action == SessionAction::Continue ==> state_rank(s1) > state_rank(state)
            &&& event_of_action(action, event) ==> {
                let (s2, _, running) = after_event_spec(s1, target, event);
                !running || state_rank(s2) > state_rank(state)
            }
        }),
{
}

/// A session is Canceled only by the cancel signal, and only while relaying.
pub proof fn canceled_only_by_signal(
    state: SessionState,
    has_target_addr: bool,
    has_target_connection: bool,
    has_cancel_receiver: bool,
    target: Option<AddressView>,
    event: SessionEventView,
)
    requires
        !is_terminal(state),
    ensures
        ({
            let (s1, action) = next_action_spec(
                state,
                has_target_addr,
                has_target_connection,
                has_cancel_receiver,
            );
            &&& s1 != SessionState::Canceled
            &&& event_of_action(action, event) && after_event_spec(s1, target, event).0
                == SessionState::Canceled ==> state == SessionState::ForwardingData && event
                is CancelReceived
        }),
{
}

/// Once a session leaves RequestParsing it holds a target address, and
/// from then on that target never changes: every round of the loop, with any
/// event its action can end in, keeps both facts.
pub proof fn target_held_once_parsed(
    state: SessionState,
    target: Option<AddressView>,
    has_target_connection: bool,
    has_cancel_receiver: bool,
    event: SessionEventView,
)
    requires
        holds_target_when_past_parsing(state, target),
    ensures
        ({
            let (s1, action) = next_action_spec(
                state,
                target is Some,
                has_target_connection,
                has_cancel_receiver,
            );
            &&& holds_target_when_past_parsing(s1, target)
            &&& event_of_action(action, event) ==> {
                let (s2, t2, _) = after_event_spec(s1, target, event);
                &&& holds_target_when_past_parsing(s2, t2)
                &&& state != SessionState::RequestParsing ==> t2 == target
            }
        }),
{
}

/// What the outside world contributes to one round of the session loop:
/// whether the session holds a target connection and its cancel receiver,
/// and how each kind of work would come out this round: the target the
/// request asks for (none when it cannot be read), whether the target is
/// reached, and whether the cancel signal fires before the relay ends.
pub struct RoundInput {
    pub has_target_connection: bool,
    pub has_cancel_receiver: bool,
    pub parsed: Option<AddressView>,
    pub connected: bool,
    pub canceled: bool,
}

/// The event that the work of `action` ends in, given the round's outcomes.
pub open spec fn round_event(action: SessionAction, input: RoundInput) -> SessionEventView {
    match action {
        SessionAction::ParseRequest => match input.parsed {
            Some(a) => SessionEventView::RequestParsed(a),
            None => SessionEventView::RequestFailed,
        },
        SessionAction::ConnectToTarget => if input.connected {
            SessionEventView::TargetConnected
        } else {
            SessionEventView::TargetUnreachable
        },
        _ => if input.canceled {
            SessionEventView::CancelReceived
        } else {
            SessionEventView::ForwardingEnded
        },
    }
}

/// One round of the loop from state `state` and stored target `target`: the
/// state and target after it, and whether the loop goes on.
pub open spec fn round_spec(
    state: SessionState,
    target: Option<AddressView>,
    input: RoundInput,
) -> (SessionState, Option<AddressView>, bool) {
    let (s1, action) = next_action_spec(
        state,
        target is Some,
        input.has_target_connection,
        input.has_cancel_receiver,
    );
    match action {
        SessionAction::Exit => (s1, target, false),
        SessionAction::Continue => (s1, target, true),
        _ => after_event_spec(s1, target, round_event(action, input)),
    }
}

/// The states and targets a run goes through, from `(state, target)`
/// onwards, one per round, until the loop ends or the inputs run out.
pub open spec fn run_trace(
    state: SessionState,
    target: Option<AddressView>,
    rounds: Seq<RoundInput>,
) -> Seq<(SessionState, Option<AddressView>)>
    decreases rounds.len(),
{
    if rounds.len() == 0 {
        seq![(state, target)]
    } else {
        let (s2, t2, running) = round_spec(state, target, rounds[0]);
        if running {
            seq![(state, target)] + run_trace(s2, t2, rounds.drop_first())
        } else {
            seq![(state, target), (s2, t2)]
        }
    }
}

/// From point `i` to a later point `j` of a run: the state has not gone
/// back, a terminal state has stayed, and a target held past RequestParsing
/// has stayed.
pub open spec fn ordered_between(tr: Seq<(SessionState, Option<AddressView>)>, i: int, j: int) -> bool {
    &&& state_rank(tr[i].0) <= state_rank(tr[j].0)
    &&& is_terminal(tr[i].0) ==> tr[j].0 == tr[i].0
    &&& tr[i].0 != SessionState::RequestParsing ==> tr[j].1 == tr[i].1
}

/// The facts a whole run keeps between any two of its observed points.
pub open spec fn trace_is_orderly(tr: Seq<(SessionState, Option<AddressView>)>) -> bool {
    &&& forall|i: int|
        0 <= i < tr.len() ==> holds_target_when_past_parsing(#[trigger] tr[i].0, tr[i].1)
    &&& forall|i: int, j: int| 0 <= i <= j < tr.len() ==> #[trigger] ordered_between(tr, i, j)
    &&& forall|i: int|
        0 < i < tr.len() && #[trigger] tr[i].0 == SessionState::Canceled ==> tr[i - 1].0
            == SessionState::ForwardingData || tr[i - 1].0 == SessionState::Canceled
}

/// One round keeps the orderly facts between its two points.
proof fn round_is_orderly(state: SessionState, target: Option<AddressView>, input: RoundInput)
    requires
        holds_target_when_past_parsing(state, target),
    ensures
        ({
            let (s2, t2, _) = round_spec(state, target, input);
            &&& holds_target_when_past_parsing(s2, t2)
            &&& state_rank(state) <= state_rank(s2)
            &&& is_terminal(state) ==> s2 == state
            &&& state != SessionState::RequestParsing ==> t2 == target
            &&& s2 == SessionState::Canceled ==> state == SessionState::ForwardingData || state
                == SessionState::Canceled
        }),
{
}

/// The facts one round keeps, from point `a` of a run to the next point `b`.
pub open spec fn step_orderly(
    a: (SessionState, Option<AddressView>),
    b: (SessionState, Option<AddressView>),
) -> bool {
    &&& holds_target_when_past_parsing(b.0, b.1)
    &&& state_rank(a.0) <= state_rank(b.0)
    &&& is_terminal(a.0) ==> b.0 == a.0
    &&& a.0 != SessionState::RequestParsing ==> b.1 == a.1
    &&& b.0 == SessionState::Canceled ==> a.0 == SessionState::ForwardingData || a.0
        == SessionState::Canceled
}

/// The round that ends at point `i` of a run keeps the orderly facts.
pub open spec fn step_at(tr: Seq<(SessionState, Option<AddressView>)>, i: int) -> bool {
    step_orderly(tr[i - 1], tr[i])
}

/// Every round of a run keeps the orderly facts, and its first point holds
/// its target once past RequestParsing.
pub open spec fn steps_orderly(tr: Seq<(SessionState, Option<AddressView>)>) -> bool {
    &&& tr.len() > 0
    &&& holds_target_when_past_parsing(tr[0].0, tr[0].1)
    &&& forall|i: int| 0 < i < tr.len() ==> #[trigger] step_at(tr, i)
}

/// The rounds of a run, one by one, keep the orderly facts.
proof fn run_steps_orderly(state: SessionState, target: Option<AddressView>, rounds: Seq<RoundInput>)
    requires
        holds_target_when_past_parsing(state, target),
    ensures
        steps_orderly(run_trace(state, target, rounds)),
        run_trace(state, target, rounds)[0] == (state, target),
    decreases rounds.len(),
{
    let tr = run_trace(state, target, rounds);
    if rounds.len() == 0 {
        assert(tr =~= seq![(state, target)]);
    } else {
        let (s2, t2, running) = round_spec(state, target, rounds[0]);
        round_is_orderly(state, target, rounds[0]);
        let rest = if running {
            run_steps_orderly(s2, t2, rounds.drop_first());
            run_trace(s2, t2, rounds.drop_first())
        } else {
            seq![(s2, t2)]
        };
        assert(tr =~= seq![(state, target)] + rest);
        assert(rest[0] == (s2, t2));
        assert(steps_orderly(rest)) by {
            if !running {
                assert(rest.len() == 1);
            }
        }
        assert forall|i: int| 0 < i < tr.len() implies #[trigger] step_at(tr, i) by {
            if i == 1 {
                assert(tr[0] == (state, target));
                assert(tr[1] == rest[0]);
            } else {
                assert(step_at(rest, i - 1));
                assert(tr[i] == rest[i - 1]);
                assert(tr[i - 1] == rest[i - 2]);
            }
        }
    }
}

/// Between any two points of a run whose rounds are orderly, the state has
/// not gone back, a terminal state has stayed, and a target held past
/// RequestParsing has stayed.
proof fn orderly_between(tr: Seq<(SessionState, Option<AddressView>)>, i: int, j: int)
    requires
        steps_orderly(tr),
        0 <= i <= j < tr.len(),
    ensures
        holds_target_when_past_parsing(tr[j].0, tr[j].1),
        state_rank(tr[i].0) <= state_rank(tr[j].0),
        is_terminal(tr[i].0) ==> tr[j].0 == tr[i].0,
        tr[i].0 != SessionState::RequestParsing ==> tr[j].1 == tr[i].1,
    decreases j,
{
    if j > 0 {
        assert(step_at(tr, j));
        if i < j {
            orderly_between(tr, i, j - 1);
        } else {
            orderly_between(tr, 0, j - 1);
        }
    }
}

/// Over a whole run of the session loop, whatever the outcomes of its
/// rounds, from any state in which the session holds its target once past
/// RequestParsing (as a new session does): the state only moves forward (RequestParsing, ConnectingToTarget,
/// ForwardingData, then Finished or Canceled), so no state is come back to;
/// Finished and Canceled are never left; Canceled is entered only from
/// ForwardingData; and once past RequestParsing the session holds a target
/// that never changes.
pub proof fn whole_run_is_orderly(
    state: SessionState,
    target: Option<AddressView>,
    rounds: Seq<RoundInput>,
)
    requires
        holds_target_when_past_parsing(state, target),
    ensures
        trace_is_orderly(run_trace(state, target, rounds)),
{
    let tr = run_trace(state, target, rounds);
    run_steps_orderly(state, target, rounds);
    assert forall|i: int| 0 <= i < tr.len() implies holds_target_when_past_parsing(
        #[trigger] tr[i].0,
        tr[i].1,
    ) by {
        orderly_between(tr, 0, i);
    }
    assert forall|i: int, j: int| 0 <= i <= j < tr.len() implies #[trigger] ordered_between(
        tr,
        i,
        j,
    ) by {
        orderly_between(tr, i, j);
    }
    assert forall|i: int|
        0 < i < tr.len() && #[trigger] tr[i].0 == SessionState::Canceled implies tr[i - 1].0
        == SessionState::ForwardingData || tr[i - 1].0 == SessionState::Canceled by {
        assert(step_at(tr, i));
    }
}

/// A new session (RequestParsing, no target) runs orderly, whatever the
/// outcomes of its rounds.
pub proof fn new_session_runs_are_orderly(rounds: Seq<RoundInput>)
    ensures
        trace_is_orderly(run_trace(SessionState::RequestParsing, None, rounds)),
{
    whole_run_is_orderly(SessionState::RequestParsing, None, rounds);
}

/// What the user interface shows of a session.
pub struct SessionHandlerData {
    pub id: u64,
    pub state: SessionState,
    pub protocol: ProxyProtocol,
    pub target_addr: Option<String>,
}

impl SessionHandlerData {
    /// The summary of a session from its id, state, protocol and target: the
    /// target is shown as `a.b.c.d:port`, `[ipv6]:port` or `name:port`.
    pub fn describe(
        id: u64,
        state: SessionState,
        protocol: ProxyProtocol,
        target_addr: &Option<Address>,
    ) -> (r: SessionHandlerData)
        ensures
            r.id == id,
            r.state == state,
            r.protocol == protocol,
            match target_addr {
                Some(a) => r.target_addr matches Some(t) && t@ == address_text(a@),
                None => r.target_addr is None,
            },
    {
        let text = match target_addr {
            Some(a) => Some(a.to_text()),
            None => None,
        };
        SessionHandlerData { id, state, protocol, target_addr: text }
    }
}

/// One client session: its connections (TCP streams, unless a caller picks
/// another stream type), its state and target behind locks shared with the
/// task that runs it, and both ends of its cancel channel.
#[verifier::reject_recursive_types(S)]
pub struct SessionHandler<S = TcpStream> {
    pub id: u64,
    pub client_connection: Arc<Mutex<S>>,
    pub target_connection: Arc<Mutex<Option<S>>>,
    pub state: Arc<Mutex<SessionState>>,
    pub protocol: ProxyProtocol,
    pub target_addr: Arc<Mutex<Option<Address>>>,
    pub cancel_sender: Option<CancelSender>,
    pub cancel_receiver: Arc<Mutex<Option<CancelReceiver>>>,
}

/// The values a new session starts with. The caller puts the client
/// connection, the target connection, the state, the target and the cancel
/// receiver behind the locks of a [`SessionHandler`], shared with the task
/// that runs the session.
pub struct NewSession<S> {
    pub id: u64,
    pub client_connection: S,
    pub target_connection: Option<S>,
    pub state: SessionState,
    pub protocol: ProxyProtocol,
    pub target_addr: Option<Address>,
    pub cancel_sender: CancelSender,
    pub cancel_receiver: CancelReceiver,
}

impl<S> SessionHandler<S> {
    /// A session numbered `id` for a client connection already identified
    /// as speaking `protocol`: it starts in RequestParsing with no target
    /// and no target connection, and holds both ends of one fresh cancel
    /// channel.
    pub fn new(id: u64, client_connection: S, protocol: ProxyProtocol) -> (r: NewSession<S>)
        ensures
            r.id == id,
            r.client_connection == client_connection,
            r.target_connection is None,
            r.state == SessionState::RequestParsing,
            r.protocol == protocol,
            r.target_addr is None,
            r.cancel_sender.channel@ == r.cancel_receiver.channel@,
    {
        let (cancel_sender, cancel_receiver) = cancel_channel();
        NewSession {
            id,
            client_connection,
            target_connection: None,
            state: SessionState::RequestParsing,
            protocol,
            target_addr: None,
            cancel_sender,
            cancel_receiver,
        }
    }

    /// Takes out the cancel signal of this session, for the caller to send:
    /// the first call hands it back, every later call hands back nothing.
    /// Nothing else about the session changes.
    pub fn cancel(&mut self) -> (signal: Option<CancelSender>)
        ensures
            signal == old(self).cancel_sender,
            final(self).cancel_sender is None,
            final(self).id == old(self).id,
            final(self).protocol == old(self).protocol,
            final(self).client_connection == old(self).client_connection,
            final(self).target_connection == old(self).target_connection,
            final(self).state == old(self).state,
            final(self).target_addr == old(self).target_addr,
            final(self).cancel_receiver == old(self).cancel_receiver,
    {
        self.cancel_sender.take()
    }
}

} // verus!
