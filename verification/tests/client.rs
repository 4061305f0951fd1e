use std::collections::VecDeque;

use deriv_client::client::{Action, Expect, State, Step, StreamMode, WebSocket};
use deriv_client::codec::{Mode, Operation, Response};
use deriv_client::dispatch::{Command, Outcome};
use deriv_client::error::ClientError;

/// A channel that hands out prepared frames and then ends, and a clock that
/// moves only when the client is told to wait.
struct Simulation {
    frames: VecDeque<String>,
    sent: Vec<String>,
    sent_at: Vec<u64>,
    now_ms: u64,
    closed: bool,
    reports: Vec<Result<Response, ClientError>>,
}

impl Simulation {
    fn new(frames: &[&str]) -> Simulation {
        Simulation {
            frames: frames.iter().map(|frame| frame.to_string()).collect(),
            sent: Vec::new(),
            sent_at: Vec::new(),
            now_ms: 0,
            closed: false,
            reports: Vec::new(),
        }
    }

    /// Performs one step's action and returns the step that follows, or
    /// `None` where the step asks for nothing more.
    fn perform(&mut self, client: &mut WebSocket, step: Step) -> Option<Step> {
        if let Some(report) = step.report {
            self.reports.push(report);
        }
        match step.action {
            Action::Nothing | Action::Finish => None,
            Action::Wait(ms) => {
                self.now_ms += ms;
                Some(client.on_elapsed(ms))
            }
            Action::Send(text) => {
                self.sent.push(text);
                self.sent_at.push(self.now_ms);
                Some(client.on_sent())
            }
            Action::Receive => match self.frames.pop_front() {
                Some(frame) => Some(client.on_frame(&frame)),
                None => Some(client.on_closed()),
            },
            Action::Close => {
                self.closed = true;
                None
            }
        }
    }

    /// Performs steps until the exchange asks for nothing more.
    fn run(&mut self, client: &mut WebSocket, step: Step) {
        let mut next = Some(step);
        while let Some(step) = next {
            next = self.perform(client, step);
        }
    }

    /// Performs steps until the client holds a subscription or the exchange
    /// asks for nothing more; returns the step that was not performed.
    fn run_until_subscribed(&mut self, client: &mut WebSocket, step: Step) -> Option<Step> {
        let mut next = Some(step);
        while let Some(step) = next {
            if client.subscription_id().is_some() {
                return Some(step);
            }
            next = self.perform(client, step);
        }
        None
    }
}

fn response(text: &str, id: Option<&str>) -> Response {
    Response { text: text.to_string(), subscription_id: id.map(|id| id.to_string()) }
}

fn quiet(action: Action) -> Step {
    Step { report: None, action }
}

const FIRST: &str = "{\"subscription\":{\"id\":\"S1\"},\"tick\":{\"quote\":1,\"symbol\":\"R_50\"}}";
const SECOND: &str = "{\"subscription\":{\"id\":\"S1\"},\"tick\":{\"quote\":2,\"symbol\":\"R_50\"}}";
const THIRD: &str = "{\"subscription\":{\"id\":\"S1\"},\"tick\":{\"quote\":3,\"symbol\":\"R_50\"}}";
const ACKNOWLEDGED: &str = "{\"echo_req\":{\"forget\":\"S1\"},\"forget\":1,\"msg_type\":\"forget\"}";

#[test]
fn a_new_client_is_idle_and_ready() {
    let client = WebSocket::new(StreamMode::Stream);
    assert_eq!(client.state, State::Idle);
    assert_eq!(client.mode, StreamMode::Stream);
    assert!(client.is_ready());
    assert_eq!(client.subscription_id(), None);
}

#[test]
fn a_one_shot_exchange_passes_through_its_states() {
    let mut client = WebSocket::new(StreamMode::Stream);
    let step = client.send(Operation::WebsiteStatus);
    assert_eq!(step, quiet(Action::Send("{\"website_status\":1}".to_string())));
    assert_eq!(client.state, State::Sent(Expect::Reply));
    assert!(!client.is_ready());
    let step = client.on_sent();
    assert_eq!(step, quiet(Action::Receive));
    assert_eq!(client.state, State::AwaitingReply { subscribing: None });
    let frame = "{\"website_status\":{\"site_status\":\"up\"}}";
    let step = client.on_frame(frame);
    assert_eq!(step, Step { report: Some(Ok(response(frame, None))), action: Action::Finish });
    assert_eq!(client.state, State::Completed);
    assert!(client.is_ready());
}

#[test]
fn subscription_is_correlated_and_cancelled_with_one_forget() {
    let mut client = WebSocket::new(StreamMode::Stream);
    let mut channel = Simulation::new(&[FIRST, SECOND, THIRD]);
    let step = client.ticks("R_50".to_string());
    let pending = channel.run_until_subscribed(&mut client, step).expect("subscribed");
    assert_eq!(channel.sent, vec!["{\"ticks\":\"R_50\",\"subscribe\":1}".to_string()]);
    assert_eq!(client.subscription_id(), Some("S1".to_string()));
    assert_eq!(client.state, State::Subscribed { id: "S1".to_string() });
    assert_eq!(pending, Step { report: Some(Ok(response(FIRST, Some("S1")))), action: Action::Receive });

    channel.run(&mut client, pending);
    assert_eq!(
        channel.reports,
        vec![
            Ok(response(FIRST, Some("S1"))),
            Ok(response(SECOND, Some("S1"))),
            Ok(response(THIRD, Some("S1"))),
        ]
    );
    assert_eq!(client.state, State::Terminated);

    let step = client.forget("S1".to_string());
    assert_eq!(step, quiet(Action::Send("{\"forget\":\"S1\"}".to_string())));
    channel.run(&mut client, step);
    let forgets: Vec<&String> = channel.sent.iter().filter(|text| text.contains("\"forget\"")).collect();
    assert_eq!(forgets, vec!["{\"forget\":\"S1\"}"]);
    assert_eq!(channel.sent.len(), 2);
    assert_eq!(client.state, State::Cancelled);
}

#[test]
fn cancel_while_subscribed_sends_the_retained_id() {
    let mut client = WebSocket::new(StreamMode::Stream);
    let mut channel = Simulation::new(&[FIRST, SECOND, ACKNOWLEDGED, THIRD]);
    let step = client.subscribe_stream(Operation::Ticks("R_50".to_string()));
    channel.run_until_subscribed(&mut client, step).expect("subscribed");
    let step = client.cancel();
    assert_eq!(step, quiet(Action::Send("{\"forget\":\"S1\"}".to_string())));
    assert_eq!(client.state, State::Sent(Expect::Acknowledgment("S1".to_string())));
    channel.run(&mut client, step);
    // The push that was still under way is discarded; the acknowledgment
    // ends the exchange and is shown.
    assert_eq!(channel.reports, vec![Ok(response(ACKNOWLEDGED, None))]);
    assert_eq!(client.state, State::Cancelled);
    assert_eq!(channel.frames.len(), 1);
    assert_eq!(channel.sent.len(), 2);
}

#[test]
fn a_single_reading_cancels_at_once() {
    let mut client = WebSocket::new(StreamMode::Once);
    let mut channel = Simulation::new(&[FIRST, SECOND, "garbage", ACKNOWLEDGED]);
    let step = client.ticks("R_50".to_string());
    channel.run(&mut client, step);
    assert_eq!(
        channel.sent,
        vec!["{\"ticks\":\"R_50\",\"subscribe\":1}".to_string(), "{\"forget\":\"S1\"}".to_string()]
    );
    assert_eq!(
        channel.reports,
        vec![
            Ok(response(FIRST, Some("S1"))),
            Err(ClientError::DecodeError),
            Ok(response(ACKNOWLEDGED, None)),
        ]
    );
    assert_eq!(client.state, State::Cancelled);
}

#[test]
fn the_two_subscription_modes_are_distinct_operations() {
    let mut once = WebSocket::new(StreamMode::Stream);
    let step = once.subscribe_once(Operation::Ticks("R_50".to_string()));
    assert_eq!(step, quiet(Action::Send("{\"ticks\":\"R_50\",\"subscribe\":1}".to_string())));
    assert_eq!(once.state, State::Sent(Expect::Subscription(StreamMode::Once)));
    once.on_sent();
    let step = once.on_frame(FIRST);
    assert_eq!(
        step,
        Step {
            report: Some(Ok(response(FIRST, Some("S1")))),
            action: Action::Send("{\"forget\":\"S1\"}".to_string()),
        }
    );
    assert_eq!(once.state, State::Sent(Expect::Acknowledgment("S1".to_string())));

    let mut stream = WebSocket::new(StreamMode::Once);
    stream.subscribe_stream(Operation::Ticks("R_50".to_string()));
    assert_eq!(stream.state, State::Sent(Expect::Subscription(StreamMode::Stream)));
    stream.on_sent();
    let step = stream.on_frame(FIRST);
    assert_eq!(step, Step { report: Some(Ok(response(FIRST, Some("S1")))), action: Action::Receive });
    assert_eq!(stream.state, State::Subscribed { id: "S1".to_string() });

    let mut configured = WebSocket::new(StreamMode::Once);
    configured.subscribe(Operation::Ticks("R_50".to_string()));
    assert_eq!(configured.state, State::Sent(Expect::Subscription(StreamMode::Once)));
}

#[test]
fn a_confirmation_without_an_id_is_a_protocol_violation() {
    let mut client = WebSocket::new(StreamMode::Stream);
    let mut channel = Simulation::new(&["{\"ping\":\"pong\"}", SECOND]);
    let step = client.subscribe(Operation::Ping);
    channel.run(&mut client, step);
    assert_eq!(channel.sent, vec!["{\"ping\":1,\"subscribe\":1}".to_string()]);
    assert_eq!(channel.reports, vec![Err(ClientError::MissingSubscriptionId)]);
    assert_eq!(client.state, State::Failed(ClientError::MissingSubscriptionId));
    assert_eq!(client.subscription_id(), None);
    assert!(client.is_ready());
}

#[test]
fn closure_while_awaiting_a_reply_is_no_response() {
    for subscribing in [false, true] {
        let mut client = WebSocket::new(StreamMode::Stream);
        let mut channel = Simulation::new(&[]);
        let step = if subscribing {
            client.ticks("R_50".to_string())
        } else {
            client.website_status()
        };
        channel.run(&mut client, step);
        assert_eq!(channel.reports, vec![Err(ClientError::NoResponse)]);
        assert_eq!(client.state, State::Failed(ClientError::NoResponse));
        // The dead channel fails the next command in the same way.
        let step = client.ping(0);
        channel.run(&mut client, step);
        assert_eq!(channel.reports, vec![Err(ClientError::NoResponse), Err(ClientError::NoResponse)]);
    }
}

#[test]
fn a_malformed_reply_fails_the_exchange_only() {
    let mut client = WebSocket::new(StreamMode::Stream);
    let mut channel = Simulation::new(&["{oops", "{\"ping\":\"pong\"}"]);
    let step = client.ping(0);
    channel.run(&mut client, step);
    assert_eq!(channel.reports, vec![Err(ClientError::DecodeError)]);
    assert_eq!(client.state, State::Failed(ClientError::DecodeError));
    let step = client.ping(0);
    channel.run(&mut client, step);
    assert_eq!(
        channel.reports,
        vec![Err(ClientError::DecodeError), Ok(response("{\"ping\":\"pong\"}", None))]
    );
    assert_eq!(client.state, State::Completed);
}

#[test]
fn a_malformed_push_is_reported_and_the_stream_goes_on() {
    let mut client = WebSocket::new(StreamMode::Stream);
    let mut channel = Simulation::new(&[FIRST, "???", THIRD]);
    let step = client.ticks("R_50".to_string());
    channel.run(&mut client, step);
    assert_eq!(
        channel.reports,
        vec![
            Ok(response(FIRST, Some("S1"))),
            Err(ClientError::DecodeError),
            Ok(response(THIRD, Some("S1"))),
        ]
    );
    assert_eq!(client.state, State::Terminated);
}

#[test]
fn a_delayed_ping_waits_and_then_subscribes() {
    let mut client = WebSocket::new(StreamMode::Stream);
    let step = client.ping(500);
    assert_eq!(step, quiet(Action::Wait(500)));
    assert_eq!(client.state, State::Delayed { remaining_ms: 500, mode: StreamMode::Stream });
    let step = client.on_elapsed(200);
    assert_eq!(step, quiet(Action::Wait(300)));
    let step = client.on_elapsed(299);
    assert_eq!(step, quiet(Action::Wait(1)));
    let step = client.on_elapsed(1);
    assert_eq!(step, quiet(Action::Send("{\"ping\":1,\"subscribe\":1}".to_string())));
    assert_eq!(client.state, State::Sent(Expect::Subscription(StreamMode::Stream)));

    let mut client = WebSocket::new(StreamMode::Stream);
    let mut channel = Simulation::new(&[]);
    let step = client.ping(500);
    channel.run(&mut client, step);
    assert_eq!(channel.sent, vec!["{\"ping\":1,\"subscribe\":1}".to_string()]);
    assert_eq!(channel.sent_at, vec![500]);
}

#[test]
fn a_ping_without_delay_goes_out_at_once_without_the_flag() {
    let mut client = WebSocket::new(StreamMode::Stream);
    let mut channel = Simulation::new(&["{\"ping\":\"pong\"}"]);
    let step = client.ping(0);
    assert_eq!(step, quiet(Action::Send("{\"ping\":1}".to_string())));
    channel.run(&mut client, step);
    assert_eq!(channel.sent, vec!["{\"ping\":1}".to_string()]);
    assert_eq!(channel.sent_at, vec![0]);
    assert_eq!(channel.reports, vec![Ok(response("{\"ping\":\"pong\"}", None))]);
}

#[test]
fn an_invalid_argument_sends_nothing() {
    let mut client = WebSocket::new(StreamMode::Stream);
    let mut channel = Simulation::new(&[FIRST]);
    let step = client.execute("active_symbols", &vec!["weird".to_string()]);
    assert_eq!(
        step,
        Step { report: Some(Err(ClientError::InvalidArgument)), action: Action::Finish }
    );
    channel.run(&mut client, step);
    assert!(channel.sent.is_empty());
    assert_eq!(channel.frames.len(), 1);
    assert_eq!(client.state, State::Idle);

    let step = client.execute_line("launch rockets");
    assert_eq!(
        step,
        Step { report: Some(Err(ClientError::InvalidCommand)), action: Action::Finish }
    );
    channel.run(&mut client, step);
    assert!(channel.sent.is_empty());
    assert_eq!(client.state, State::Idle);

    for step in [client.ticks(String::new()), client.forget(String::new())] {
        assert_eq!(
            step,
            Step { report: Some(Err(ClientError::InvalidArgument)), action: Action::Finish }
        );
    }
    assert_eq!(client.state, State::Idle);
    assert_eq!(
        client.subscribe(Operation::Forget(String::new())),
        Step { report: Some(Err(ClientError::InvalidArgument)), action: Action::Finish }
    );
    assert_eq!(
        client.send(Operation::Ticks(String::new())),
        Step { report: Some(Err(ClientError::InvalidArgument)), action: Action::Finish }
    );
}

#[test]
fn commands_start_the_exchange_they_name() {
    let cases = vec![
        ("active_symbols brief", "{\"active_symbols\":\"brief\",\"product_type\":\"basic\"}", Expect::Reply),
        ("active_symbols full", "{\"active_symbols\":\"full\",\"product_type\":\"basic\"}", Expect::Reply),
        ("forget S9", "{\"forget\":\"S9\"}", Expect::Acknowledgment("S9".to_string())),
        ("ping", "{\"ping\":1}", Expect::Reply),
        ("ping 0", "{\"ping\":1}", Expect::Reply),
        ("ping later", "{\"ping\":1}", Expect::Reply),
        ("ticks R_50", "{\"ticks\":\"R_50\",\"subscribe\":1}", Expect::Subscription(StreamMode::Once)),
        ("website_status", "{\"website_status\":1}", Expect::Reply),
    ];
    for (line, wire, expect) in cases {
        let mut client = WebSocket::new(StreamMode::Once);
        let step = client.execute_line(line);
        assert_eq!(step, quiet(Action::Send(wire.to_string())), "{}", line);
        assert_eq!(client.state, State::Sent(expect), "{}", line);
    }
    let mut client = WebSocket::new(StreamMode::Once);
    assert_eq!(client.execute_line("ping 500"), quiet(Action::Wait(500)));
    assert_eq!(client.state, State::Delayed { remaining_ms: 500, mode: StreamMode::Once });
    let mut client = WebSocket::new(StreamMode::Once);
    assert_eq!(client.execute_line("exit"), quiet(Action::Close));
    assert_eq!(client.state, State::Closed);
    assert!(!client.is_ready());
}

#[test]
fn run_and_run_dispatched_follow_the_command() {
    let mut client = WebSocket::new(StreamMode::Stream);
    assert_eq!(
        client.run(Command::ActiveSymbols(Mode::Full)),
        quiet(Action::Send("{\"active_symbols\":\"full\",\"product_type\":\"basic\"}".to_string()))
    );
    let mut client = WebSocket::new(StreamMode::Stream);
    assert_eq!(
        client.run_dispatched(Outcome::Accepted(Command::WebsiteStatus)),
        quiet(Action::Send("{\"website_status\":1}".to_string()))
    );
    assert_eq!(
        WebSocket::new(StreamMode::Stream).run_dispatched(Outcome::InvalidCommand),
        Step { report: Some(Err(ClientError::InvalidCommand)), action: Action::Finish }
    );
    assert_eq!(
        WebSocket::new(StreamMode::Stream).active_symbols(Mode::Brief),
        quiet(Action::Send("{\"active_symbols\":\"brief\",\"product_type\":\"basic\"}".to_string()))
    );
}

#[test]
fn close_ends_whatever_is_under_way() {
    let mut client = WebSocket::new(StreamMode::Stream);
    let mut channel = Simulation::new(&[FIRST]);
    let step = client.ticks("R_50".to_string());
    channel.run_until_subscribed(&mut client, step).expect("subscribed");
    let step = client.close();
    assert_eq!(step, quiet(Action::Close));
    assert_eq!(client.state, State::Closed);
    channel.run(&mut client, step);
    assert!(channel.closed);
    // Nothing moves a closed client.
    assert_eq!(client.on_frame(SECOND), quiet(Action::Nothing));
    assert_eq!(client.on_closed(), quiet(Action::Nothing));
    assert_eq!(client.on_sent(), quiet(Action::Nothing));
    assert_eq!(client.on_elapsed(10), quiet(Action::Nothing));
    assert_eq!(client.state, State::Closed);
}

#[test]
fn an_interrupt_forgets_before_it_closes() {
    let mut client = WebSocket::new(StreamMode::Stream);
    let mut channel = Simulation::new(&[FIRST, SECOND]);
    let step = client.ticks("R_50".to_string());
    channel.run_until_subscribed(&mut client, step).expect("subscribed");
    let step = client.interrupt();
    assert_eq!(step, quiet(Action::Send("{\"forget\":\"S1\"}".to_string())));
    assert_eq!(client.state, State::Sent(Expect::Shutdown));
    channel.run(&mut client, step);
    assert_eq!(
        channel.sent,
        vec!["{\"ticks\":\"R_50\",\"subscribe\":1}".to_string(), "{\"forget\":\"S1\"}".to_string()]
    );
    assert!(channel.closed);
    assert_eq!(client.state, State::Closed);

    let mut client = WebSocket::new(StreamMode::Stream);
    client.ping(0);
    assert_eq!(client.interrupt(), quiet(Action::Close));
    assert_eq!(client.state, State::Closed);
}

#[test]
fn events_that_are_not_awaited_change_nothing() {
    let mut client = WebSocket::new(StreamMode::Stream);
    assert_eq!(client.on_frame(FIRST), quiet(Action::Nothing));
    assert_eq!(client.on_decoded(None), quiet(Action::Nothing));
    assert_eq!(client.on_closed(), quiet(Action::Nothing));
    assert_eq!(client.on_sent(), quiet(Action::Nothing));
    assert_eq!(client.on_elapsed(5), quiet(Action::Nothing));
    assert_eq!(client.state, State::Idle);
    client.ping(0);
    assert_eq!(client.on_elapsed(5), quiet(Action::Nothing));
    assert_eq!(client.on_frame(FIRST), quiet(Action::Nothing));
    assert_eq!(client.state, State::Sent(Expect::Reply));
}

#[test]
fn a_forgotten_subscription_tolerates_silence() {
    let mut client = WebSocket::new(StreamMode::Stream);
    let mut channel = Simulation::new(&[SECOND, THIRD]);
    let step = client.forget("S1".to_string());
    channel.run(&mut client, step);
    assert_eq!(channel.sent, vec!["{\"forget\":\"S1\"}".to_string()]);
    assert!(channel.reports.is_empty());
    assert_eq!(client.state, State::Cancelled);
}

#[test]
fn on_decoded_takes_any_response() {
    let mut client = WebSocket::new(StreamMode::Stream);
    client.subscribe(Operation::Ticks("R_50".to_string()));
    client.on_sent();
    let made_up = response("anything", Some("Z"));
    let step = client.on_decoded(Some(made_up.clone()));
    assert_eq!(step, Step { report: Some(Ok(made_up)), action: Action::Receive });
    assert_eq!(client.subscription_id(), Some("Z".to_string()));
    let other = response("else", Some("Y"));
    assert_eq!(
        client.on_decoded(Some(other.clone())),
        Step { report: Some(Ok(other)), action: Action::Receive }
    );
    assert_eq!(
        client.on_decoded(None),
        Step { report: Some(Err(ClientError::DecodeError)), action: Action::Receive }
    );
    assert_eq!(client.subscription_id(), Some("Z".to_string()));
}
