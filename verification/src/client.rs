//! The protocol client: one exchange at a time over one channel, as a state
//! machine that the caller drives.
//!
//! The client owns no socket. An operation or an event moves the machine and
//! returns a [`Step`]: what to hand to the operator, and what to do on the
//! channel next. The caller performs the action and reports what came of it.

use vstd::prelude::*;
use crate::codec::{
    decode, decoded, encode, wire_text, Mode, Operation, OperationView, Request, RequestView,
    Response, ResponseView,
};
use crate::dispatch::{
    dispatch, dispatch_line, outcome_of, outcome_of_line, texts, Command, CommandView, Outcome,
    OutcomeView,
};
use crate::error::ClientError;
use crate::text::same_text;

verus! {

/// How a subscription is read once it is confirmed.
#[derive(Clone, Copy, Debug, PartialEq, Eq, Structural)]
pub enum StreamMode {
    /// One reading: the confirming frame is delivered, then the subscription
    /// is cancelled.
    Once,
    /// Continuous: every frame is delivered until the operator cancels or the
    /// channel closes.
    Stream,
}

/// What the message that was handed to the channel is expected to bring.
#[derive(Clone, Debug, PartialEq, Eq)]
pub enum Expect {
    /// The single reply of a one-shot exchange.
    Reply,
    /// The frame that confirms a subscription.
    Subscription(StreamMode),
    /// The acknowledgment of a `forget` for the given subscription.
    Acknowledgment(String),
    /// Nothing: the connection is closed as soon as the message is out.
    Shutdown,
}

/// The mathematical value of an [`Expect`].
pub enum ExpectView {
    Reply,
    Subscription(StreamMode),
    Acknowledgment(Seq<char>),
    Shutdown,
}

impl View for Expect {
    type V = ExpectView;

    open spec fn view(&self) -> ExpectView {
        match self {
            Expect::Reply => ExpectView::Reply,
            Expect::Subscription(mode) => ExpectView::Subscription(*mode),
            Expect::Acknowledgment(id) => ExpectView::Acknowledgment(id@),
            Expect::Shutdown => ExpectView::Shutdown,
        }
    }
}

/// Where the current exchange stands.
#[derive(Clone, Debug, PartialEq, Eq)]
pub enum State {
    /// No exchange has been started.
    Idle,
    /// A delayed subscribing ping waits for its time.
    Delayed { remaining_ms: u64, mode: StreamMode },
    /// A message was handed to the channel.
    Sent(Expect),
    /// The message is out and its first frame is awaited; `subscribing` tells
    /// whether that frame has to confirm a subscription, and how it is read.
    AwaitingReply { subscribing: Option<StreamMode> },
    /// The subscription is active under the id that the server issued.
    Subscribed { id: String },
    /// A `forget` for the subscription is out; its frames are discarded.
    Cancelling { id: String },
    /// The exchange ended with its reply.
    Completed,
    /// The exchange ended with a failure.
    Failed(ClientError),
    /// The cancellation was acknowledged, or the channel closed after it.
    Cancelled,
    /// The channel closed while the subscription was active.
    Terminated,
    /// The connection was closed by the client.
    Closed,
}

/// The mathematical value of a [`State`].
pub enum StateView {
    Idle,
    Delayed { remaining_ms: u64, mode: StreamMode },
    Sent(ExpectView),
    AwaitingReply { subscribing: Option<StreamMode> },
    Subscribed { id: Seq<char> },
    Cancelling { id: Seq<char> },
    Completed,
    Failed(ClientError),
    Cancelled,
    Terminated,
    Closed,
}

impl View for State {
    type V = StateView;

    open spec fn view(&self) -> StateView {
        match self {
            State::Idle => StateView::Idle,
            State::Delayed { remaining_ms, mode } => StateView::Delayed {
                remaining_ms: *remaining_ms,
                mode: *mode,
            },
            State::Sent(expect) => StateView::Sent(expect@),
            State::AwaitingReply { subscribing } => StateView::AwaitingReply {
                subscribing: *subscribing,
            },
            State::Subscribed { id } => StateView::Subscribed { id: id@ },
            State::Cancelling { id } => StateView::Cancelling { id: id@ },
            State::Completed => StateView::Completed,
            State::Failed(error) => StateView::Failed(*error),
            State::Cancelled => StateView::Cancelled,
            State::Terminated => StateView::Terminated,
            State::Closed => StateView::Closed,
        }
    }
}

impl StateView {
    /// No exchange is outstanding and the connection is open: a new exchange
    /// may start.
    pub open spec fn ready(self) -> bool {
        self is Idle || self is Completed || self is Failed || self is Cancelled
            || self is Terminated
    }
}

/// What the caller does on the channel next.
#[derive(Clone, Debug, PartialEq, Eq)]
pub enum Action {
    /// Nothing follows from what was reported; the machine did not move.
    Nothing,
    /// Let the given number of milliseconds pass, then report them with
    /// `on_elapsed`.
    Wait(u64),
    /// Transmit the text as one frame, then report with `on_sent`.
    Send(String),
    /// Await the next frame; report it with `on_frame`, or the end of the
    /// stream with `on_closed`.
    Receive,
    /// Close the channel.
    Close,
    /// The exchange is over; the operator's next command may follow.
    Finish,
}

/// The mathematical value of an [`Action`].
pub enum ActionView {
    Nothing,
    Wait(u64),
    Send(Seq<char>),
    Receive,
    Close,
    Finish,
}

impl View for Action {
    type V = ActionView;

    open spec fn view(&self) -> ActionView {
        match self {
            Action::Nothing => ActionView::Nothing,
            Action::Wait(ms) => ActionView::Wait(*ms),
            Action::Send(text) => ActionView::Send(text@),
            Action::Receive => ActionView::Receive,
            Action::Close => ActionView::Close,
            Action::Finish => ActionView::Finish,
        }
    }
}

/// The result of one move of the machine.
#[derive(Clone, Debug, PartialEq, Eq)]
pub struct Step {
    /// What to hand to the operator: a response to show, a failure to report,
    /// or nothing.
    pub report: Option<Result<Response, ClientError>>,
    /// What to do on the channel next.
    pub action: Action,
}

/// The mathematical value of a [`Step`].
pub struct StepView {
    pub report: Option<Result<ResponseView, ClientError>>,
    pub action: ActionView,
}

impl View for Step {
    type V = StepView;

    open spec fn view(&self) -> StepView {
        StepView {
            report: match self.report {
                Some(Ok(response)) => Some(Ok(response@)),
                Some(Err(error)) => Some(Err(error)),
                None => None,
            },
            action: self.action@,
        }
    }
}

/// What the channel or the clock reports to the machine.
pub enum EventView {
    /// The message was handed to the transport.
    Sent,
    /// So many milliseconds have passed.
    Elapsed(u64),
    /// A frame arrived; `None` where it did not decode.
    Frame(Option<ResponseView>),
    /// The stream ended.
    Closed,
}

/// A step that reports nothing.
pub open spec fn quiet(action: ActionView) -> StepView {
    StepView { report: None, action }
}

/// A step that hands a response to the operator.
pub open spec fn deliver(response: ResponseView, action: ActionView) -> StepView {
    StepView { report: Some(Ok(response)), action }
}

/// A step that reports a failure.
pub open spec fn fail(error: ClientError, action: ActionView) -> StepView {
    StepView { report: Some(Err(error)), action }
}

/// The request that cancels the subscription `id`.
pub open spec fn forget_request(id: Seq<char>) -> RequestView {
    RequestView { operation: OperationView::Forget(id), subscribe: false }
}

/// The subscribing ping that a delayed `ping` sends.
pub open spec fn subscribing_ping() -> RequestView {
    RequestView { operation: OperationView::Ping, subscribe: true }
}

/// The machine's reaction to an event: the state that follows and the step
/// that is returned. An event that the state does not wait for changes nothing.
pub open spec fn react(state: StateView, event: EventView) -> (StateView, StepView) {
    match (state, event) {
        (StateView::Delayed { remaining_ms, mode }, EventView::Elapsed(ms)) => {
            if ms >= remaining_ms {
                (
                    StateView::Sent(ExpectView::Subscription(mode)),
                    quiet(ActionView::Send(wire_text(subscribing_ping()))),
                )
            } else {
                (
                    StateView::Delayed { remaining_ms: (remaining_ms - ms) as u64, mode },
                    quiet(ActionView::Wait((remaining_ms - ms) as u64)),
                )
            }
        },
        (StateView::Sent(ExpectView::Reply), EventView::Sent) => (
            StateView::AwaitingReply { subscribing: None },
            quiet(ActionView::Receive),
        ),
        (StateView::Sent(ExpectView::Subscription(mode)), EventView::Sent) => (
            StateView::AwaitingReply { subscribing: Some(mode) },
            quiet(ActionView::Receive),
        ),
        (StateView::Sent(ExpectView::Acknowledgment(id)), EventView::Sent) => (
            StateView::Cancelling { id },
            quiet(ActionView::Receive),
        ),
        (StateView::Sent(ExpectView::Shutdown), EventView::Sent) => (
            StateView::Closed,
            quiet(ActionView::Close),
        ),
        (StateView::AwaitingReply { subscribing }, EventView::Frame(frame)) => match frame {
            None => (
                StateView::Failed(ClientError::DecodeError),
                fail(ClientError::DecodeError, ActionView::Finish),
            ),
            Some(response) => match subscribing {
                None => (StateView::Completed, deliver(response, ActionView::Finish)),
                Some(mode) => match response.subscription_id {
                    None => (
                        StateView::Failed(ClientError::MissingSubscriptionId),
                        fail(ClientError::MissingSubscriptionId, ActionView::Finish),
                    ),
                    Some(id) => match mode {
                        StreamMode::Stream => (
                            StateView::Subscribed { id },
                            deliver(response, ActionView::Receive),
                        ),
                        StreamMode::Once => (
                            StateView::Sent(ExpectView::Acknowledgment(id)),
                            deliver(response, ActionView::Send(wire_text(forget_request(id)))),
                        ),
                    },
                },
            },
        },
        (StateView::AwaitingReply { subscribing }, EventView::Closed) => (
            StateView::Failed(ClientError::NoResponse),
            fail(ClientError::NoResponse, ActionView::Finish),
        ),
        (StateView::Subscribed { id }, EventView::Frame(frame)) => match frame {
            None => (state, fail(ClientError::DecodeError, ActionView::Receive)),
            Some(response) => (state, deliver(response, ActionView::Receive)),
        },
        (StateView::Subscribed { id }, EventView::Closed) => (
            StateView::Terminated,
            quiet(ActionView::Finish),
        ),
        (StateView::Cancelling { id }, EventView::Frame(frame)) => match frame {
            None => (state, fail(ClientError::DecodeError, ActionView::Receive)),
            Some(response) => if response.subscription_id == Some(id) {
                (state, quiet(ActionView::Receive))
            } else {
                (StateView::Cancelled, deliver(response, ActionView::Finish))
            },
        },
        (StateView::Cancelling { id }, EventView::Closed) => (
            StateView::Cancelled,
            quiet(ActionView::Finish),
        ),
        _ => (state, quiet(ActionView::Nothing)),
    }
}

/// How an exchange starts: a request whose argument is outside its domain is
/// rejected and nothing is sent; any other is encoded and handed out.
pub open spec fn start(state: StateView, request: RequestView, expect: ExpectView) -> (
    StateView,
    StepView,
) {
    if request.operation.well_formed() {
        (StateView::Sent(expect), quiet(ActionView::Send(wire_text(request))))
    } else {
        (state, fail(ClientError::InvalidArgument, ActionView::Finish))
    }
}

/// The request that an operation makes, with or without the subscribe flag.
pub open spec fn request_for(operation: OperationView, subscribe: bool) -> RequestView {
    RequestView { operation, subscribe }
}

/// What `ping` does: without a delay a one-shot ping is handed out at once;
/// with a delay nothing is handed out and the caller is told to wait.
pub open spec fn ping_start(state: StateView, mode: StreamMode, delay_ms: u64) -> (
    StateView,
    StepView,
) {
    if delay_ms == 0 {
        start(state, request_for(OperationView::Ping, false), ExpectView::Reply)
    } else {
        (StateView::Delayed { remaining_ms: delay_ms, mode }, quiet(ActionView::Wait(delay_ms)))
    }
}

/// What a validated command does to a client that is ready.
pub open spec fn run_command(state: StateView, mode: StreamMode, command: CommandView) -> (
    StateView,
    StepView,
) {
    match command {
        CommandView::Exit => (StateView::Closed, quiet(ActionView::Close)),
        CommandView::ActiveSymbols(detail) => start(
            state,
            request_for(OperationView::ActiveSymbols(detail), false),
            ExpectView::Reply,
        ),
        CommandView::Forget(id) => start(
            state,
            forget_request(id),
            ExpectView::Acknowledgment(id),
        ),
        CommandView::Ping(delay_ms) => ping_start(state, mode, delay_ms),
        CommandView::Ticks(symbol) => start(
            state,
            request_for(OperationView::Ticks(symbol), true),
            ExpectView::Subscription(mode),
        ),
        CommandView::WebsiteStatus => start(
            state,
            request_for(OperationView::WebsiteStatus, false),
            ExpectView::Reply,
        ),
    }
}

/// What the dispatcher's outcome does to a client that is ready: an accepted
/// command runs; a rejected one is reported and changes nothing.
pub open spec fn run_outcome(state: StateView, mode: StreamMode, outcome: OutcomeView) -> (
    StateView,
    StepView,
) {
    match outcome {
        OutcomeView::Accepted(command) => run_command(state, mode, command),
        OutcomeView::InvalidCommand => (
            state,
            fail(ClientError::InvalidCommand, ActionView::Finish),
        ),
        OutcomeView::InvalidArgument => (
            state,
            fail(ClientError::InvalidArgument, ActionView::Finish),
        ),
    }
}

/// The protocol client. It owns the channel in the sense that every frame
/// that is sent or received passes through its operations, one exchange at a
/// time.
#[derive(Clone, Debug, PartialEq, Eq)]
pub struct WebSocket {
    /// Where the current exchange stands.
    pub state: State,
    /// How subscriptions are read unless an operation says otherwise.
    pub mode: StreamMode,
}

impl WebSocket {
    /// A client on a fresh connection, with no exchange started.
    pub fn new(mode: StreamMode) -> (client: WebSocket)
        ensures
            client.state@ == StateView::Idle,
            client.mode == mode,
    {
        WebSocket { state: State::Idle, mode }
    }

    /// Whether a new exchange may start.
    pub fn is_ready(&self) -> (ready: bool)
        ensures
            ready == self.state@.ready(),
    {
        match &self.state {
            State::Idle => true,
            State::Completed => true,
            State::Failed(_) => true,
            State::Cancelled => true,
            State::Terminated => true,
            _ => false,
        }
    }

    /// The id of the active subscription, which the client retains from the
    /// confirming frame until the subscription ends.
    pub fn subscription_id(&self) -> (id: Option<String>)
        ensures
            match id {
                Some(id) => self.state@ == (StateView::Subscribed { id: id@ }),
                None => !(self.state@ is Subscribed),
            },
    {
        match &self.state {
            State::Subscribed { id } => Some(id.clone()),
            _ => None,
        }
    }

    fn begin(&mut self, request: &Request, expect: Expect) -> (step: Step)
        ensures
            final(self).mode == old(self).mode,
            (final(self).state@, step@) == start(old(self).state@, request@, expect@),
    {
        if request.operation.is_well_formed() {
            let text = encode(request);
            self.state = State::Sent(expect);
            Step { report: None, action: Action::Send(text) }
        } else {
            Step { report: Some(Err(ClientError::InvalidArgument)), action: Action::Finish }
        }
    }

    /// Starts a one-shot exchange: the request is sent without the subscribe
    /// flag and exactly one frame is awaited. Like every operation that starts
    /// an exchange it asks for a ready client: the channel carries one
    /// exchange at a time.
    pub fn send(&mut self, operation: Operation) -> (step: Step)
        requires
            old(self).state@.ready(),
        ensures
            final(self).mode == old(self).mode,
            (final(self).state@, step@) == start(
                old(self).state@,
                RequestView { operation: operation@, subscribe: false },
                ExpectView::Reply,
            ),
    {
        let request = Request { operation, subscribe: false };
        self.begin(&request, Expect::Reply)
    }

    /// Starts a subscribing exchange that is read in the client's own mode.
    pub fn subscribe(&mut self, operation: Operation) -> (step: Step)
        requires
            old(self).state@.ready(),
        ensures
            final(self).mode == old(self).mode,
            (final(self).state@, step@) == start(
                old(self).state@,
                RequestView { operation: operation@, subscribe: true },
                ExpectView::Subscription(old(self).mode),
            ),
    {
        let request = Request { operation, subscribe: true };
        let mode = self.mode;
        self.begin(&request, Expect::Subscription(mode))
    }

    /// Starts a subscribing exchange for a single reading: the confirming
    /// frame is delivered and the subscription is cancelled at once.
    pub fn subscribe_once(&mut self, operation: Operation) -> (step: Step)
        requires
            old(self).state@.ready(),
        ensures
            final(self).mode == old(self).mode,
            (final(self).state@, step@) == start(
                old(self).state@,
                RequestView { operation: operation@, subscribe: true },
                ExpectView::Subscription(StreamMode::Once),
            ),
    {
        let request = Request { operation, subscribe: true };
        self.begin(&request, Expect::Subscription(StreamMode::Once))
    }

    /// Starts a subscribing exchange that delivers frames until it is
    /// cancelled or the channel closes.
    pub fn subscribe_stream(&mut self, operation: Operation) -> (step: Step)
        requires
            old(self).state@.ready(),
        ensures
            final(self).mode == old(self).mode,
            (final(self).state@, step@) == start(
                old(self).state@,
                RequestView { operation: operation@, subscribe: true },
                ExpectView::Subscription(StreamMode::Stream),
            ),
    {
        let request = Request { operation, subscribe: true };
        self.begin(&request, Expect::Subscription(StreamMode::Stream))
    }

    /// Asks for the instruments on offer, in the given detail.
    pub fn active_symbols(&mut self, mode: Mode) -> (step: Step)
        requires
            old(self).state@.ready(),
        ensures
            final(self).mode == old(self).mode,
            final(self).state@ == StateView::Sent(ExpectView::Reply),
            step@ == quiet(
                ActionView::Send(
                    wire_text(
                        RequestView {
                            operation: OperationView::ActiveSymbols(mode),
                            subscribe: false,
                        },
                    ),
                ),
            ),
    {
        self.send(Operation::ActiveSymbols(mode))
    }

    /// Cancels the subscription `id`: exactly one `forget` message is handed
    /// out, and frames of that subscription are discarded from then on. An
    /// empty id is rejected and nothing is sent.
    pub fn forget(&mut self, id: String) -> (step: Step)
        requires
            old(self).state@.ready(),
        ensures
            final(self).mode == old(self).mode,
            (final(self).state@, step@) == start(
                old(self).state@,
                forget_request(id@),
                ExpectView::Acknowledgment(id@),
            ),
    {
        let expect = Expect::Acknowledgment(id.clone());
        let request = Request { operation: Operation::Forget(id), subscribe: false };
        self.begin(&request, expect)
    }

    /// Cancels the active subscription under the id that the client retained.
    pub fn cancel(&mut self) -> (step: Step)
        requires
            old(self).state@ is Subscribed,
        ensures
            final(self).mode == old(self).mode,
            final(self).state@ == StateView::Sent(
                ExpectView::Acknowledgment(old(self).state@->Subscribed_id),
            ),
            step@ == quiet(
                ActionView::Send(wire_text(forget_request(old(self).state@->Subscribed_id))),
            ),
    {
        let id = match &self.state {
            State::Subscribed { id } => id.clone(),
            _ => String::new(),
        };
        let request = Request { operation: Operation::Forget(id.clone()), subscribe: false };
        let text = encode(&request);
        self.state = State::Sent(Expect::Acknowledgment(id));
        Step { report: None, action: Action::Send(text) }
    }

    /// Pings the server. Without a delay the ping is a one-shot exchange and
    /// is handed out at once. With a delay nothing is handed out yet: the
    /// caller waits, and the ping goes out as a subscribing request once the
    /// delay has passed.
    pub fn ping(&mut self, delay_ms: u64) -> (step: Step)
        requires
            old(self).state@.ready(),
        ensures
            final(self).mode == old(self).mode,
            (final(self).state@, step@) == ping_start(old(self).state@, old(self).mode, delay_ms),
    {
        if delay_ms == 0 {
            self.send(Operation::Ping)
        } else {
            self.state = State::Delayed { remaining_ms: delay_ms, mode: self.mode };
            Step { report: None, action: Action::Wait(delay_ms) }
        }
    }

    /// Subscribes to the ticks of `symbol`. An empty symbol is rejected and
    /// nothing is sent.
    pub fn ticks(&mut self, symbol: String) -> (step: Step)
        requires
            old(self).state@.ready(),
        ensures
            final(self).mode == old(self).mode,
            (final(self).state@, step@) == start(
                old(self).state@,
                RequestView { operation: OperationView::Ticks(symbol@), subscribe: true },
                ExpectView::Subscription(old(self).mode),
            ),
    {
        self.subscribe(Operation::Ticks(symbol))
    }

    /// Asks for the status of the site.
    pub fn website_status(&mut self) -> (step: Step)
        requires
            old(self).state@.ready(),
        ensures
            final(self).mode == old(self).mode,
            final(self).state@ == StateView::Sent(ExpectView::Reply),
            step@ == quiet(
                ActionView::Send(
                    wire_text(
                        RequestView { operation: OperationView::WebsiteStatus, subscribe: false },
                    ),
                ),
            ),
    {
        self.send(Operation::WebsiteStatus)
    }

    /// Closes the connection, whatever the state: an exchange or a
    /// subscription that is under way ends with it.
    pub fn close(&mut self) -> (step: Step)
        ensures
            final(self).mode == old(self).mode,
            final(self).state@ == StateView::Closed,
            step@ == quiet(ActionView::Close),
    {
        self.state = State::Closed;
        Step { report: None, action: Action::Close }
    }

    /// The operator's interrupt. An active subscription is cancelled first:
    /// its `forget` is handed out, and the connection closes once that is
    /// sent. In any other state the connection closes at once.
    pub fn interrupt(&mut self) -> (step: Step)
        ensures
            final(self).mode == old(self).mode,
            old(self).state@ matches StateView::Subscribed { id } ==> final(self).state@
                == StateView::Sent(ExpectView::Shutdown) && step@ == quiet(
                ActionView::Send(wire_text(forget_request(id))),
            ),
            !(old(self).state@ is Subscribed) ==> final(self).state@ == StateView::Closed && step@
                == quiet(ActionView::Close),
    {
        let pending = match &self.state {
            State::Subscribed { id } => Some(id.clone()),
            _ => None,
        };
        match pending {
            Some(id) => {
                let request = Request { operation: Operation::Forget(id), subscribe: false };
                let text = encode(&request);
                self.state = State::Sent(Expect::Shutdown);
                Step { report: None, action: Action::Send(text) }
            },
            None => self.close(),
        }
    }

    /// Runs a validated command.
    pub fn run(&mut self, command: Command) -> (step: Step)
        requires
            old(self).state@.ready(),
        ensures
            final(self).mode == old(self).mode,
            (final(self).state@, step@) == run_command(
                old(self).state@,
                old(self).mode,
                command@,
            ),
    {
        match command {
            Command::Exit => self.close(),
            Command::ActiveSymbols(detail) => self.active_symbols(detail),
            Command::Forget(id) => self.forget(id),
            Command::Ping(delay_ms) => self.ping(delay_ms),
            Command::Ticks(symbol) => self.ticks(symbol),
            Command::WebsiteStatus => self.website_status(),
        }
    }

    /// Acts on what the dispatcher made of a command.
    pub fn run_dispatched(&mut self, outcome: Outcome) -> (step: Step)
        requires
            old(self).state@.ready(),
        ensures
            final(self).mode == old(self).mode,
            (final(self).state@, step@) == run_outcome(
                old(self).state@,
                old(self).mode,
                outcome@,
            ),
    {
        match outcome {
            Outcome::Accepted(command) => self.run(command),
            Outcome::InvalidCommand => Step {
                report: Some(Err(ClientError::InvalidCommand)),
                action: Action::Finish,
            },
            Outcome::InvalidArgument => Step {
                report: Some(Err(ClientError::InvalidArgument)),
                action: Action::Finish,
            },
        }
    }

    /// Validates a command and, where it is valid, starts what it asks for.
    /// A command that is rejected produces no traffic.
    pub fn execute(&mut self, name: &str, args: &Vec<String>) -> (step: Step)
        requires
            old(self).state@.ready(),
        ensures
            final(self).mode == old(self).mode,
            (final(self).state@, step@) == run_outcome(
                old(self).state@,
                old(self).mode,
                outcome_of(name@, texts(args@)),
            ),
    {
        let outcome = dispatch(name, args);
        self.run_dispatched(outcome)
    }

    /// Validates a line as the operator typed it and, where it is valid,
    /// starts what it asks for.
    pub fn execute_line(&mut self, line: &str) -> (step: Step)
        requires
            old(self).state@.ready(),
        ensures
            final(self).mode == old(self).mode,
            (final(self).state@, step@) == run_outcome(
                old(self).state@,
                old(self).mode,
                outcome_of_line(line@),
            ),
    {
        let outcome = dispatch_line(line);
        self.run_dispatched(outcome)
    }

    /// The message was handed to the transport.
    pub fn on_sent(&mut self) -> (step: Step)
        ensures
            final(self).mode == old(self).mode,
            (final(self).state@, step@) == react(old(self).state@, EventView::Sent),
    {
        let next = match &self.state {
            State::Sent(Expect::Reply) => Some((State::AwaitingReply { subscribing: None }, Action::Receive)),
            State::Sent(Expect::Subscription(mode)) => Some(
                (State::AwaitingReply { subscribing: Some(*mode) }, Action::Receive),
            ),
            State::Sent(Expect::Acknowledgment(id)) => Some(
                (State::Cancelling { id: id.clone() }, Action::Receive),
            ),
            State::Sent(Expect::Shutdown) => Some((State::Closed, Action::Close)),
            _ => None,
        };
        match next {
            Some((state, action)) => {
                self.state = state;
                Step { report: None, action }
            },
            None => Step { report: None, action: Action::Nothing },
        }
    }

    /// `elapsed_ms` milliseconds have passed since the last `Wait` was handed
    /// out. The delayed ping goes out only when the whole delay has passed;
    /// until then the caller is told how long is left.
    pub fn on_elapsed(&mut self, elapsed_ms: u64) -> (step: Step)
        ensures
            final(self).mode == old(self).mode,
            (final(self).state@, step@) == react(old(self).state@, EventView::Elapsed(elapsed_ms)),
    {
        let waiting = match &self.state {
            State::Delayed { remaining_ms, mode } => Some((*remaining_ms, *mode)),
            _ => None,
        };
        match waiting {
            Some((remaining_ms, mode)) => {
                if elapsed_ms >= remaining_ms {
                    let request = Request { operation: Operation::Ping, subscribe: true };
                    let text = encode(&request);
                    self.state = State::Sent(Expect::Subscription(mode));
                    Step { report: None, action: Action::Send(text) }
                } else {
                    let left: u64 = remaining_ms - elapsed_ms;
                    self.state = State::Delayed { remaining_ms: left, mode };
                    Step { report: None, action: Action::Wait(left) }
                }
            },
            None => Step { report: None, action: Action::Nothing },
        }
    }

    /// A frame arrived and was decoded, or failed to decode (`None`).
    pub fn on_decoded(&mut self, frame: Option<Response>) -> (step: Step)
        ensures
            final(self).mode == old(self).mode,
            (final(self).state@, step@) == react(
                old(self).state@,
                EventView::Frame(
                    match frame {
                        Some(response) => Some(response@),
                        None => None,
                    },
                ),
            ),
    {
        match &self.state {
            State::AwaitingReply { subscribing } => {
                let subscribing = *subscribing;
                match frame {
                    None => self.conclude(ClientError::DecodeError),
                    Some(response) => match subscribing {
                        None => {
                            self.state = State::Completed;
                            Step { report: Some(Ok(response)), action: Action::Finish }
                        },
                        Some(mode) => self.confirm(response, mode),
                    },
                }
            },
            State::Subscribed { .. } => match frame {
                None => Step {
                    report: Some(Err(ClientError::DecodeError)),
                    action: Action::Receive,
                },
                Some(response) => Step { report: Some(Ok(response)), action: Action::Receive },
            },
            State::Cancelling { id } => match frame {
                None => Step {
                    report: Some(Err(ClientError::DecodeError)),
                    action: Action::Receive,
                },
                Some(response) => {
                    let late = match &response.subscription_id {
                        Some(other) => same_text(other.as_str(), id.as_str()),
                        None => false,
                    };
                    if late {
                        Step { report: None, action: Action::Receive }
                    } else {
                        self.state = State::Cancelled;
                        Step { report: Some(Ok(response)), action: Action::Finish }
                    }
                },
            },
            _ => Step { report: None, action: Action::Nothing },
        }
    }

    /// Ends the exchange with a failure.
    fn conclude(&mut self, error: ClientError) -> (step: Step)
        ensures
            final(self).mode == old(self).mode,
            final(self).state@ == StateView::Failed(error),
            step@ == fail(error, ActionView::Finish),
    {
        self.state = State::Failed(error);
        Step { report: Some(Err(error)), action: Action::Finish }
    }

    /// Reads the frame that has to confirm a subscription.
    fn confirm(&mut self, response: Response, mode: StreamMode) -> (step: Step)
        requires
            old(self).state@ == (StateView::AwaitingReply { subscribing: Some(mode) }),
        ensures
            final(self).mode == old(self).mode,
            (final(self).state@, step@) == react(
                old(self).state@,
                EventView::Frame(Some(response@)),
            ),
    {
        let found = match &response.subscription_id {
            Some(id) => Some(id.clone()),
            None => None,
        };
        match found {
            None => self.conclude(ClientError::MissingSubscriptionId),
            Some(id) => match mode {
                StreamMode::Stream => {
                    self.state = State::Subscribed { id };
                    Step { report: Some(Ok(response)), action: Action::Receive }
                },
                StreamMode::Once => {
                    let request = Request {
                        operation: Operation::Forget(id.clone()),
                        subscribe: false,
                    };
                    let text = encode(&request);
                    self.state = State::Sent(Expect::Acknowledgment(id));
                    Step { report: Some(Ok(response)), action: Action::Send(text) }
                },
            },
        }
    }

    /// A frame arrived. It is decoded and the machine reacts to the result.
    pub fn on_frame(&mut self, text: &str) -> (step: Step)
        ensures
            final(self).mode == old(self).mode,
            (final(self).state@, step@) == react(
                old(self).state@,
                EventView::Frame(decoded(text@)),
            ),
    {
        match decode(text) {
            Ok(response) => self.on_decoded(Some(response)),
            Err(_) => self.on_decoded(None),
        }
    }

    /// The stream ended: the channel is closed. A reply that was still
    /// awaited will not come.
    pub fn on_closed(&mut self) -> (step: Step)
        ensures
            final(self).mode == old(self).mode,
            (final(self).state@, step@) == react(old(self).state@, EventView::Closed),
    {
        match &self.state {
            State::AwaitingReply { .. } => self.conclude(ClientError::NoResponse),
            State::Subscribed { .. } => {
                self.state = State::Terminated;
                Step { report: None, action: Action::Finish }
            },
            State::Cancelling { .. } => {
                self.state = State::Cancelled;
                Step { report: None, action: Action::Finish }
            },
            _ => Step { report: None, action: Action::Nothing },
        }
    }
}

/// The sum of the reported times.
pub open spec fn total(waits: Seq<u64>) -> nat
    decreases waits.len(),
{
    if waits.len() == 0 {
        0
    } else {
        total(waits.drop_last()) + waits.last() as nat
    }
}

/// The state after the clock has reported each of `waits` in turn.
pub open spec fn after_waits(state: StateView, waits: Seq<u64>) -> StateView
    decreases waits.len(),
{
    if waits.len() == 0 {
        state
    } else {
        react(after_waits(state, waits.drop_last()), EventView::Elapsed(waits.last())).0
    }
}

/// Whether a message was handed out while the clock reported `waits`.
pub open spec fn sent_during(state: StateView, waits: Seq<u64>) -> bool
    decreases waits.len(),
{
    if waits.len() == 0 {
        false
    } else {
        sent_during(state, waits.drop_last()) || react(
            after_waits(state, waits.drop_last()),
            EventView::Elapsed(waits.last()),
        ).1.action is Send
    }
}

/// A delayed ping transmits nothing while the time that has been reported
/// adds up to less than its delay: the machine still waits, for what is left.
pub proof fn delayed_ping_holds_back(delay_ms: u64, mode: StreamMode, waits: Seq<u64>)
    requires
        total(waits) < delay_ms,
    ensures
        !sent_during(StateView::Delayed { remaining_ms: delay_ms, mode }, waits),
        after_waits(StateView::Delayed { remaining_ms: delay_ms, mode }, waits) == (
        StateView::Delayed { remaining_ms: (delay_ms - total(waits)) as u64, mode }),
    decreases waits.len(),
{
    if waits.len() > 0 {
        delayed_ping_holds_back(delay_ms, mode, waits.drop_last());
    }
}

/// The report that completes the delay hands out the ping, and the ping
/// carries the subscribe flag.
pub proof fn delayed_ping_goes_out(delay_ms: u64, mode: StreamMode, waits: Seq<u64>, last: u64)
    requires
        total(waits) < delay_ms,
        total(waits) + last >= delay_ms,
    ensures
        react(
            after_waits(StateView::Delayed { remaining_ms: delay_ms, mode }, waits),
            EventView::Elapsed(last),
        ) == (
            StateView::Sent(ExpectView::Subscription(mode)),
            quiet(ActionView::Send(wire_text(subscribing_ping()))),
        ),
        subscribing_ping().subscribe,
{
    delayed_ping_holds_back(delay_ms, mode, waits);
}

/// A ping without delay is handed out at once, without the subscribe flag.
pub proof fn immediate_ping_goes_out(state: StateView, mode: StreamMode)
    ensures
        ping_start(state, mode, 0) == (
            StateView::Sent(ExpectView::Reply),
            quiet(ActionView::Send(wire_text(request_for(OperationView::Ping, false)))),
        ),
        !request_for(OperationView::Ping, false).subscribe,
{
}

/// Every message is handed out in a step that leaves the machine in `Sent`:
/// nothing is transmitted that the machine does not wait to hear sent.
pub proof fn a_message_leaves_the_machine_in_sent(state: StateView, event: EventView)
    requires
        react(state, event).1.action is Send,
    ensures
        react(state, event).0 is Sent,
{
}

/// No event starts an exchange: once an exchange is over or the connection
/// is closed, the machine stays where it is until the operator's next
/// command.
pub proof fn a_finished_exchange_stays_finished(state: StateView, event: EventView)
    requires
        state.ready() || state is Closed,
    ensures
        react(state, event) == (state, quiet(ActionView::Nothing)),
{
}

/// A failure in the middle of a stream does not end it: a frame that fails
/// to decode is reported and the subscription stays active.
pub proof fn a_malformed_push_keeps_the_subscription(id: Seq<char>)
    ensures
        react(StateView::Subscribed { id }, EventView::Frame(None)) == (
            StateView::Subscribed { id },
            fail(ClientError::DecodeError, ActionView::Receive),
        ),
{
}

/// When the stream ends while a reply is awaited, the exchange fails with
/// `NoResponse`, never with a decode error.
pub proof fn closure_while_awaiting_is_no_response(subscribing: Option<StreamMode>)
    ensures
        react(StateView::AwaitingReply { subscribing }, EventView::Closed) == (
            StateView::Failed(ClientError::NoResponse),
            fail(ClientError::NoResponse, ActionView::Finish),
        ),
{
}

/// A command that the dispatcher rejects leaves the machine where it was,
/// is reported as a failure, and hands out no message.
pub proof fn rejected_command_sends_nothing(
    state: StateView,
    mode: StreamMode,
    name: Seq<char>,
    args: Seq<Seq<char>>,
)
    requires
        !(outcome_of(name, args) is Accepted),
    ensures
        run_outcome(state, mode, outcome_of(name, args)).0 == state,
        run_outcome(state, mode, outcome_of(name, args)).1.report matches Some(Err(_)),
        run_outcome(state, mode, outcome_of(name, args)).1.action == ActionView::Finish,
{
}

/// An `active_symbols` command whose argument is missing or is neither
/// `brief` nor `full` is rejected as an invalid argument.
pub proof fn active_symbols_rejects_other_modes(args: Seq<Seq<char>>)
    requires
        args.len() == 0 || (args[0] != "brief"@ && args[0] != "full"@),
    ensures
        outcome_of("active_symbols"@, args) == OutcomeView::InvalidArgument,
{
    reveal_strlit("active_symbols");
    reveal_strlit("exit");
    assert("active_symbols"@.len() != "exit"@.len());
}

/// A subscribing exchange whose first frame names the subscription `id`
/// delivers that frame and retains the id: as the active subscription when
/// it streams, as the one to cancel when it takes a single reading. The
/// cancellation is one `forget` message that carries the id.
pub proof fn confirmation_retains_the_id(mode: StreamMode, response: ResponseView, id: Seq<char>)
    requires
        response.subscription_id == Some(id),
    ensures
        mode == StreamMode::Stream ==> react(
            StateView::AwaitingReply { subscribing: Some(mode) },
            EventView::Frame(Some(response)),
        ) == (StateView::Subscribed { id }, deliver(response, ActionView::Receive)),
        mode == StreamMode::Once ==> react(
            StateView::AwaitingReply { subscribing: Some(mode) },
            EventView::Frame(Some(response)),
        ) == (
            StateView::Sent(ExpectView::Acknowledgment(id)),
            deliver(response, ActionView::Send(wire_text(forget_request(id)))),
        ),
{
}

} // verus!
