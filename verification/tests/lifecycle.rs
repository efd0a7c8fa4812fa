use next_slide_client::connection::{advance, on_opened, on_received, on_registered, on_sent};
use next_slide_client::protocol::{
    REGISTER_ENDPOINT, REGISTRATION_BODY, REGISTRATION_CONTENT_TYPE, RETRY_DELAY_SECS,
};
use next_slide_client::{
    Command, Config, ConnectionError, Event, Fields, Frame, Outcome, Phase, Reaction,
    RegistrationError, Report, Session, StateChange, WebSocketConnection,
};

const ENDPOINT: &str = "https://next-slide-please.com/register";

fn reply(publish_url: &str, websocket_url: &str, secret: &str) -> Fields {
    let mut fields = Fields::new();
    fields.insert("publish_url".to_string(), publish_url.to_string());
    fields.insert("websocket_url".to_string(), websocket_url.to_string());
    fields.insert("secret".to_string(), secret.to_string());
    fields
}

fn example_reply() -> Fields {
    reply("https://ctl.example/abc", "wss://ws.example/abc", "s3cr3t")
}

fn example_session() -> Session {
    Session {
        publish_url: "https://ctl.example/abc".to_string(),
        websocket_url: "wss://ws.example/abc".to_string(),
        secret: "s3cr3t".to_string(),
    }
}

fn closed(cause: &str) -> ConnectionError {
    ConnectionError::Closed(cause.to_string())
}

fn quiet(command: Command) -> Reaction {
    Reaction { notification: None, report: None, command }
}

fn retry(report: Report) -> Reaction {
    Reaction { notification: None, report: Some(report), command: Command::Wait { seconds: 1 } }
}

fn connecting() -> Reaction {
    Reaction {
        notification: Some(StateChange::Connecting),
        report: None,
        command: Command::Register {
            endpoint: ENDPOINT.to_string(),
            content_type: "application/json".to_string(),
            body: "{}".to_string(),
        },
    }
}

fn tell(connection: &mut WebSocketConnection, outcomes: Vec<Outcome>) -> Vec<Reaction> {
    outcomes.into_iter().map(|outcome| connection.step(outcome)).collect()
}

fn notifications(reactions: &[Reaction]) -> Vec<StateChange> {
    reactions.iter().filter_map(|reaction| reaction.notification.clone()).collect()
}

fn live_connection() -> WebSocketConnection {
    let mut connection = WebSocketConnection::new(Config::default());
    tell(
        &mut connection,
        vec![
            Outcome::Elapsed,
            Outcome::Registered(Ok(example_reply())),
            Outcome::Opened(Ok(())),
            Outcome::Sent(Ok(())),
        ],
    );
    assert_eq!(connection.phase(), &Phase::Connected);
    connection
}

#[test]
fn default_config_is_the_standard_endpoint_and_one_second() {
    assert_eq!(REGISTER_ENDPOINT, ENDPOINT);
    assert_eq!(RETRY_DELAY_SECS, 1);
    assert_eq!(REGISTRATION_CONTENT_TYPE, "application/json");
    assert_eq!(REGISTRATION_BODY, "{}");
    assert_eq!(
        Config::default(),
        Config { register_endpoint: ENDPOINT.to_string(), retry_delay_secs: 1 }
    );
    let config = Config { register_endpoint: "http://localhost:1/r".to_string(), retry_delay_secs: 9 };
    assert_eq!(config.clone(), config);
}

#[test]
fn new_connection_is_idle() {
    let config = Config { register_endpoint: "http://localhost:1/r".to_string(), retry_delay_secs: 7 };
    let connection = WebSocketConnection::new(config.clone());
    assert_eq!(connection.phase(), &Phase::Idle);
    assert_eq!(connection.config(), &config);
}

#[test]
fn end_to_end_registration_stream_secret_then_next() {
    let mut connection = WebSocketConnection::new(Config::default());
    let reactions = tell(
        &mut connection,
        vec![
            Outcome::Elapsed,
            Outcome::Registered(Ok(example_reply())),
            Outcome::Opened(Ok(())),
            Outcome::Sent(Ok(())),
            Outcome::Received(Ok(Frame::Text("Next".to_string()))),
        ],
    );
    let connected = StateChange::Connected {
        websocket_url: "wss://ws.example/abc".to_string(),
        publish_url: "https://ctl.example/abc".to_string(),
    };
    assert_eq!(
        reactions,
        vec![
            connecting(),
            quiet(Command::Open { url: "wss://ws.example/abc".to_string() }),
            Reaction {
                notification: Some(connected.clone()),
                report: None,
                command: Command::Send { text: "s3cr3t".to_string() },
            },
            quiet(Command::Receive),
            Reaction {
                notification: Some(StateChange::EventReceived(Event::Next)),
                report: None,
                command: Command::Receive,
            },
        ]
    );
    assert_eq!(
        notifications(&reactions),
        vec![StateChange::Connecting, connected, StateChange::EventReceived(Event::Next)]
    );
    let sends: Vec<&Command> = reactions
        .iter()
        .map(|reaction| &reaction.command)
        .filter(|command| matches!(command, Command::Send { .. }))
        .collect();
    assert_eq!(sends, vec![&Command::Send { text: "s3cr3t".to_string() }]);
    assert_eq!(connection.phase(), &Phase::Connected);
}

#[test]
fn registration_failing_twice_then_succeeding() {
    let mut connection = WebSocketConnection::new(Config::default());
    let reactions = tell(
        &mut connection,
        vec![
            Outcome::Elapsed,
            Outcome::Registered(Err("timed out".to_string())),
            Outcome::Elapsed,
            Outcome::Registered(Err("timed out again".to_string())),
            Outcome::Elapsed,
            Outcome::Registered(Ok(example_reply())),
            Outcome::Opened(Ok(())),
        ],
    );
    let connected = StateChange::Connected {
        websocket_url: "wss://ws.example/abc".to_string(),
        publish_url: "https://ctl.example/abc".to_string(),
    };
    assert_eq!(
        reactions,
        vec![
            connecting(),
            retry(Report::Registration(RegistrationError::Transport("timed out".to_string()))),
            connecting(),
            retry(Report::Registration(RegistrationError::Transport(
                "timed out again".to_string()
            ))),
            connecting(),
            quiet(Command::Open { url: "wss://ws.example/abc".to_string() }),
            Reaction {
                notification: Some(connected.clone()),
                report: None,
                command: Command::Send { text: "s3cr3t".to_string() },
            },
        ]
    );
    // One `Connecting` per attempt; the two that follow a failure each come
    // after a wait of one second, and `Connected` comes last.
    assert_eq!(
        notifications(&reactions),
        vec![
            StateChange::Connecting,
            StateChange::Connecting,
            StateChange::Connecting,
            connected
        ]
    );
    let waits: Vec<u64> = reactions
        .iter()
        .filter_map(|reaction| match reaction.command {
            Command::Wait { seconds } => Some(seconds),
            _ => None,
        })
        .collect();
    assert_eq!(waits, vec![1, 1]);
}

#[test]
fn missing_field_ends_the_attempt() {
    let mut connection = WebSocketConnection::new(Config::default());
    connection.step(Outcome::Elapsed);
    let mut fields = Fields::new();
    fields.insert("publish_url".to_string(), "https://ctl.example/abc".to_string());
    fields.insert("websocket_url".to_string(), "wss://ws.example/abc".to_string());
    assert_eq!(
        connection.step(Outcome::Registered(Ok(fields))),
        retry(Report::Registration(RegistrationError::MissingField("secret".to_string())))
    );
    assert_eq!(connection.phase(), &Phase::Failed);
    assert_eq!(connection.step(Outcome::Elapsed), connecting());
    assert_eq!(connection.phase(), &Phase::Registering);
}

#[test]
fn stream_url_that_is_no_url_ends_the_attempt() {
    for text in ["", "not a url", "/relative/path", "ws://"] {
        let mut connection = WebSocketConnection::new(Config::default());
        connection.step(Outcome::Elapsed);
        assert_eq!(
            connection.step(Outcome::Registered(Ok(reply("https://ctl.example/abc", text, "x")))),
            retry(Report::Connection(ConnectionError::InvalidUrl)),
            "{:?}",
            text
        );
        assert_eq!(connection.phase(), &Phase::Failed);
    }
}

#[test]
fn stream_is_opened_at_the_parsed_url() {
    let mut connection = WebSocketConnection::new(Config::default());
    connection.step(Outcome::Elapsed);
    let reaction =
        connection.step(Outcome::Registered(Ok(reply("http://p", "WS://Example.COM", "x"))));
    assert_eq!(reaction, quiet(Command::Open { url: "ws://example.com/".to_string() }));
    // The notification carries the URL as the backend gave it.
    assert_eq!(
        connection.step(Outcome::Opened(Ok(()))),
        Reaction {
            notification: Some(StateChange::Connected {
                websocket_url: "WS://Example.COM".to_string(),
                publish_url: "http://p".to_string(),
            }),
            report: None,
            command: Command::Send { text: "x".to_string() },
        }
    );
}

#[test]
fn failed_handshake_ends_the_attempt() {
    let mut connection = WebSocketConnection::new(Config::default());
    tell(&mut connection, vec![Outcome::Elapsed, Outcome::Registered(Ok(example_reply()))]);
    assert_eq!(
        connection.phase(),
        &Phase::StreamOpening { session: example_session() }
    );
    let error = ConnectionError::HandshakeFailed("403 Forbidden".to_string());
    assert_eq!(
        connection.step(Outcome::Opened(Err(error.clone()))),
        retry(Report::Connection(error))
    );
    assert_eq!(connection.phase(), &Phase::Failed);
    assert_eq!(connection.step(Outcome::Elapsed), connecting());
}

#[test]
fn failing_to_send_the_secret_ends_the_attempt() {
    let mut connection = WebSocketConnection::new(Config::default());
    tell(
        &mut connection,
        vec![
            Outcome::Elapsed,
            Outcome::Registered(Ok(example_reply())),
            Outcome::Opened(Ok(())),
        ],
    );
    assert_eq!(connection.phase(), &Phase::Authenticating);
    assert_eq!(
        connection.step(Outcome::Sent(Err(closed("broken pipe")))),
        retry(Report::Connection(closed("broken pipe")))
    );
    assert_eq!(connection.step(Outcome::Elapsed), connecting());
}

#[test]
fn commands_on_a_live_stream_are_notified_once_each() {
    let mut connection = live_connection();
    let reactions = tell(
        &mut connection,
        vec![
            Outcome::Received(Ok(Frame::Text("Next".to_string()))),
            Outcome::Received(Ok(Frame::Text("Previous".to_string()))),
            Outcome::Received(Ok(Frame::Text("Next".to_string()))),
        ],
    );
    assert_eq!(
        notifications(&reactions),
        vec![
            StateChange::EventReceived(Event::Next),
            StateChange::EventReceived(Event::Previous),
            StateChange::EventReceived(Event::Next),
        ]
    );
    for reaction in &reactions {
        assert_eq!(reaction.report, None);
        assert_eq!(reaction.command, Command::Receive);
    }
}

#[test]
fn other_text_is_reported_and_not_notified() {
    let mut connection = live_connection();
    for text in ["next", "", "Next!", "{\"cmd\":\"Next\"}"] {
        assert_eq!(
            connection.step(Outcome::Received(Ok(Frame::Text(text.to_string())))),
            Reaction {
                notification: None,
                report: Some(Report::UnexpectedFrame),
                command: Command::Receive,
            }
        );
        assert_eq!(connection.phase(), &Phase::Connected);
    }
    assert_eq!(
        connection.step(Outcome::Received(Ok(Frame::Other))),
        Reaction {
            notification: None,
            report: Some(Report::UnexpectedFrame),
            command: Command::Receive,
        }
    );
    assert_eq!(connection.phase(), &Phase::Connected);
}

#[test]
fn ping_is_silent() {
    let mut connection = live_connection();
    assert_eq!(connection.step(Outcome::Received(Ok(Frame::Ping))), quiet(Command::Receive));
    assert_eq!(connection.phase(), &Phase::Connected);
}

#[test]
fn ping_is_never_notified_in_any_phase() {
    let phases = vec![
        Phase::Idle,
        Phase::Registering,
        Phase::StreamOpening { session: example_session() },
        Phase::Authenticating,
        Phase::Connected,
        Phase::Failed,
        Phase::Stopped,
    ];
    for phase in phases {
        let (_, reaction) =
            advance(&Config::default(), phase, Outcome::Received(Ok(Frame::Ping)));
        assert_eq!(reaction.notification, None);
    }
}

#[test]
fn closure_after_events_is_followed_by_connecting() {
    let mut connection = live_connection();
    let reactions = tell(
        &mut connection,
        vec![
            Outcome::Received(Ok(Frame::Text("Next".to_string()))),
            Outcome::Received(Ok(Frame::Text("Next".to_string()))),
            Outcome::Received(Ok(Frame::Text("Previous".to_string()))),
            Outcome::Received(Err(closed("connection reset"))),
            Outcome::Elapsed,
        ],
    );
    assert_eq!(reactions[3], retry(Report::Connection(closed("connection reset"))));
    assert_eq!(reactions[4], connecting());
    assert_eq!(
        notifications(&reactions),
        vec![
            StateChange::EventReceived(Event::Next),
            StateChange::EventReceived(Event::Next),
            StateChange::EventReceived(Event::Previous),
            StateChange::Connecting,
        ]
    );
}

#[test]
fn frames_that_come_after_the_closure_are_not_notified() {
    let mut connection = live_connection();
    connection.step(Outcome::Received(Err(closed("eof"))));
    assert_eq!(
        connection.step(Outcome::Received(Ok(Frame::Text("Next".to_string())))),
        retry(Report::OutOfTurn)
    );
    assert_eq!(connection.phase(), &Phase::Failed);
    assert_eq!(connection.step(Outcome::Elapsed), connecting());
}

#[test]
fn every_reconnect_registers_again() {
    let mut connection = live_connection();
    let reactions = tell(
        &mut connection,
        vec![
            Outcome::Received(Err(closed("eof"))),
            Outcome::Elapsed,
            Outcome::Registered(Ok(reply("http://p2", "ws://h2/", "second"))),
            Outcome::Opened(Ok(())),
        ],
    );
    assert_eq!(reactions[1], connecting());
    assert_eq!(reactions[2], quiet(Command::Open { url: "ws://h2/".to_string() }));
    assert_eq!(
        reactions[3],
        Reaction {
            notification: Some(StateChange::Connected {
                websocket_url: "ws://h2/".to_string(),
                publish_url: "http://p2".to_string(),
            }),
            report: None,
            command: Command::Send { text: "second".to_string() },
        }
    );
}

#[test]
fn the_configured_delay_and_endpoint_are_used() {
    let config = Config { register_endpoint: "http://localhost:9/reg".to_string(), retry_delay_secs: 30 };
    let mut connection = WebSocketConnection::new(config);
    assert_eq!(
        connection.step(Outcome::Elapsed),
        Reaction {
            notification: Some(StateChange::Connecting),
            report: None,
            command: Command::Register {
                endpoint: "http://localhost:9/reg".to_string(),
                content_type: "application/json".to_string(),
                body: "{}".to_string(),
            },
        }
    );
    assert_eq!(
        connection.step(Outcome::Registered(Err("down".to_string()))),
        Reaction {
            notification: None,
            report: Some(Report::Registration(RegistrationError::Transport("down".to_string()))),
            command: Command::Wait { seconds: 30 },
        }
    );
    let zero = Config { register_endpoint: String::new(), retry_delay_secs: 0 };
    let (_, reaction) = advance(&zero, Phase::Connected, Outcome::Received(Err(closed("eof"))));
    assert_eq!(reaction.command, Command::Wait { seconds: 0 });
    let longest = Config { register_endpoint: String::new(), retry_delay_secs: u64::MAX };
    let (_, reaction) = advance(&longest, Phase::Connected, Outcome::Received(Err(closed("eof"))));
    assert_eq!(reaction.command, Command::Wait { seconds: u64::MAX });
}

#[test]
fn an_outcome_out_of_turn_ends_the_attempt() {
    let config = Config::default();
    let cases = vec![
        (Phase::Idle, Outcome::Opened(Ok(()))),
        (Phase::Registering, Outcome::Elapsed),
        (Phase::Registering, Outcome::Sent(Ok(()))),
        (Phase::StreamOpening { session: example_session() }, Outcome::Sent(Ok(()))),
        (Phase::Authenticating, Outcome::Opened(Ok(()))),
        (Phase::Authenticating, Outcome::Received(Ok(Frame::Text("Next".to_string())))),
        (Phase::Connected, Outcome::Registered(Ok(example_reply()))),
        (Phase::Connected, Outcome::Elapsed),
        (Phase::Failed, Outcome::Registered(Ok(example_reply()))),
    ];
    for (phase, outcome) in cases {
        assert_eq!(advance(&config, phase, outcome), (Phase::Failed, retry(Report::OutOfTurn)));
    }
}

#[test]
fn cancelling_stops_the_connection_for_good() {
    let phases = vec![
        Phase::Idle,
        Phase::Registering,
        Phase::StreamOpening { session: example_session() },
        Phase::Authenticating,
        Phase::Connected,
        Phase::Failed,
        Phase::Stopped,
    ];
    for phase in phases {
        assert_eq!(
            advance(&Config::default(), phase, Outcome::Cancelled),
            (Phase::Stopped, quiet(Command::Halt))
        );
    }
    let mut connection = live_connection();
    assert_eq!(connection.step(Outcome::Cancelled), quiet(Command::Halt));
    for outcome in [
        Outcome::Elapsed,
        Outcome::Registered(Ok(example_reply())),
        Outcome::Opened(Ok(())),
        Outcome::Sent(Ok(())),
        Outcome::Received(Ok(Frame::Text("Next".to_string()))),
        Outcome::Cancelled,
    ] {
        assert_eq!(connection.step(outcome), quiet(Command::Halt));
        assert_eq!(connection.phase(), &Phase::Stopped);
    }
}

#[test]
fn going_on_after_registration() {
    let config = Config::default();
    assert_eq!(
        on_registered(&config, Ok(example_session()), Some("wss://elsewhere/".to_string())),
        (
            Phase::StreamOpening { session: example_session() },
            quiet(Command::Open { url: "wss://elsewhere/".to_string() })
        )
    );
    assert_eq!(
        on_registered(&config, Ok(example_session()), None),
        (Phase::Failed, retry(Report::Connection(ConnectionError::InvalidUrl)))
    );
    let error = RegistrationError::MissingField("secret".to_string());
    assert_eq!(
        on_registered(&config, Err(error.clone()), None),
        (Phase::Failed, retry(Report::Registration(error.clone())))
    );
    assert_eq!(
        on_registered(&config, Err(error.clone()), Some("ws://h/".to_string())),
        (Phase::Failed, retry(Report::Registration(error)))
    );
}

#[test]
fn going_on_after_the_handshake_the_send_and_a_read() {
    let config = Config::default();
    assert_eq!(
        on_opened(&config, example_session(), Ok(())),
        (
            Phase::Authenticating,
            Reaction {
                notification: Some(StateChange::Connected {
                    websocket_url: "wss://ws.example/abc".to_string(),
                    publish_url: "https://ctl.example/abc".to_string(),
                }),
                report: None,
                command: Command::Send { text: "s3cr3t".to_string() },
            }
        )
    );
    assert_eq!(
        on_opened(&config, example_session(), Err(ConnectionError::InvalidUrl)),
        (Phase::Failed, retry(Report::Connection(ConnectionError::InvalidUrl)))
    );
    assert_eq!(on_sent(&config, Ok(())), (Phase::Connected, quiet(Command::Receive)));
    assert_eq!(
        on_sent(&config, Err(closed("eof"))),
        (Phase::Failed, retry(Report::Connection(closed("eof"))))
    );
    assert_eq!(
        on_received(&config, Ok(Frame::Text("Previous".to_string()))),
        (
            Phase::Connected,
            Reaction {
                notification: Some(StateChange::EventReceived(Event::Previous)),
                report: None,
                command: Command::Receive,
            }
        )
    );
    assert_eq!(on_received(&config, Ok(Frame::Ping)), (Phase::Connected, quiet(Command::Receive)));
    assert_eq!(
        on_received(&config, Err(closed("eof"))),
        (Phase::Failed, retry(Report::Connection(closed("eof"))))
    );
}

fn scripted_outcome(choice: u64) -> Outcome {
    match choice % 12 {
        0 | 1 => Outcome::Elapsed,
        2 => Outcome::Registered(Ok(example_reply())),
        3 => Outcome::Registered(Err("down".to_string())),
        4 => Outcome::Registered(Ok(reply("http://p", "no url", "x"))),
        5 => Outcome::Opened(Ok(())),
        6 => Outcome::Opened(Err(ConnectionError::HandshakeFailed("refused".to_string()))),
        7 => Outcome::Sent(Ok(())),
        8 => Outcome::Received(Ok(Frame::Text("Next".to_string()))),
        9 => Outcome::Received(Ok(Frame::Ping)),
        10 => Outcome::Received(Ok(Frame::Text("Previous".to_string()))),
        _ => Outcome::Received(Err(closed("eof"))),
    }
}

fn expected_outcome(phase: &Phase, choice: u64) -> Outcome {
    // Mostly what the pending command would give, sometimes anything.
    if choice % 5 == 0 {
        return scripted_outcome(choice / 5);
    }
    let pick = choice / 5;
    match phase {
        Phase::Idle | Phase::Failed | Phase::Stopped => Outcome::Elapsed,
        Phase::Registering => scripted_outcome(2 + pick % 3),
        Phase::StreamOpening { .. } => scripted_outcome(5 + pick % 2),
        Phase::Authenticating => {
            if pick % 4 == 0 {
                Outcome::Sent(Err(closed("reset")))
            } else {
                Outcome::Sent(Ok(()))
            }
        }
        Phase::Connected => scripted_outcome(8 + pick % 4),
    }
}

#[test]
fn whatever_fails_the_connection_keeps_running_and_notifies_in_order() {
    let mut seed: u64 = 0x2545_f491_4f6c_dd1d;
    let mut connection = WebSocketConnection::new(Config::default());
    let mut last: Option<StateChange> = None;
    let mut waiting = false;
    let mut connected_seen = 0;
    let mut events_seen = 0;
    for _ in 0..20_000 {
        seed = seed.wrapping_mul(6364136223846793005).wrapping_add(1442695040888963407);
        let outcome = expected_outcome(connection.phase(), seed >> 33);
        let elapsed = matches!(outcome, Outcome::Elapsed);
        let reaction = connection.step(outcome);
        assert_ne!(reaction.command, Command::Halt);
        assert_ne!(connection.phase(), &Phase::Stopped);
        if let Command::Wait { seconds } = reaction.command {
            assert_eq!(seconds, 1);
            assert_eq!(reaction.notification, None);
            assert_eq!(connection.phase(), &Phase::Failed);
        }
        if waiting && elapsed {
            assert_eq!(reaction, connecting());
        }
        waiting = connection.phase() == &Phase::Failed;
        if let Some(notification) = reaction.notification {
            match &notification {
                StateChange::Connecting => {}
                StateChange::Connected { .. } => {
                    assert_eq!(last, Some(StateChange::Connecting));
                    connected_seen += 1;
                }
                StateChange::EventReceived(_) => {
                    assert!(matches!(
                        last,
                        Some(StateChange::Connected { .. }) | Some(StateChange::EventReceived(_))
                    ));
                    events_seen += 1;
                }
            }
            last = Some(notification);
        }
    }
    assert!(connected_seen > 100);
    assert!(events_seen > 100);
}
