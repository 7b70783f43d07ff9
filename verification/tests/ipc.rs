//! The protocol with the daemon: requests as they are written, messages as they are read.

use jarvis_ui::client::IpcClient;
use jarvis_ui::command::{as_line, command_json, command_line, must_be_written, IpcCommand};
use jarvis_ui::connection::{
    between_attempts, connection_marks, on_forwarded, on_inbox, on_pending, on_written,
    reader_step, Action, Inbox, LineRead, Pending, ReaderAction, COMMAND_POLL_MS,
    RECONNECT_DELAY_MS,
};
use jarvis_ui::event::{
    interpret_line, interpret_message, parse_daemon_message, unknown_type, IpcEvent,
};
use jarvis_ui::json::{export_value, import_value, parse_json, print_json, Json};

fn value(text: &str) -> serde_json::Value {
    serde_json::from_str(text).unwrap()
}

fn json(text: &str) -> Json {
    parse_json(text).unwrap()
}

/// What the daemon reads of the next request, written as the connection writes it.
fn next_written(client: &mut IpcClient) -> serde_json::Value {
    let pending = match client.next_command() {
        Some(command) => Pending::Command(command),
        None => Pending::Nothing,
    };
    match on_pending(pending) {
        Action::Write { line, .. } => {
            assert!(line.ends_with('\n'));
            assert_eq!(line.matches('\n').count(), 1);
            value(line.trim_end())
        }
        other => panic!("nothing written: {other:?}"),
    }
}

/// Has the daemon write a line, and the client receive what came of it.
fn receive(client: &mut IpcClient, line: &str) -> IpcEvent {
    let event = match reader_step(LineRead::Line(line.to_string())) {
        ReaderAction::Pass(event) => event,
        other => panic!("nothing passed: {other:?}"),
    };
    match on_inbox(Inbox::Event(event)) {
        Action::Forward(event) => client.deliver(event),
        other => panic!("nothing forwarded: {other:?}"),
    }
    client.try_recv().unwrap()
}

/// A client with a connection.
fn connected_client() -> IpcClient {
    let mut client = IpcClient::new();
    let (begin, _) = connection_marks(true).unwrap();
    client.deliver(begin);
    assert_eq!(client.try_recv(), Some(IpcEvent::Connected));
    client
}

#[test]
fn confirmation_commands_round_trip_over_real_socket() {
    let mut client = connected_client();

    client.list_confirmations();
    assert_eq!(next_written(&mut client), value(r#"{"type": "list_confirmations"}"#));

    client.approve_confirmation("req1".into());
    assert_eq!(
        next_written(&mut client),
        value(r#"{"type": "approve_confirmation", "id": "req1"}"#)
    );

    client.deny_confirmation("req2".into());
    assert_eq!(
        next_written(&mut client),
        value(r#"{"type": "deny_confirmation", "id": "req2"}"#)
    );

    // The daemon denies the items that are not listed, so the indices must reach the wire
    // exactly as chosen.
    client.partial_approve_confirmation("req5".into(), vec![0, 2]);
    assert_eq!(
        next_written(&mut client),
        value(
            r#"{"type": "partial_approve_confirmation", "id": "req5", "approved_indices": [0, 2]}"#
        )
    );

    client.approve_all_confirmations();
    assert_eq!(next_written(&mut client), value(r#"{"type": "approve_all_confirmations"}"#));

    match receive(
        &mut client,
        "{\"type\":\"confirmation_list\",\"confirmations\":\
         [{\"id\":\"req1\",\"tool_names\":[\"fs.delete\"],\"created_at\":1.0}]}",
    ) {
        IpcEvent::ConfirmationList(list) => {
            assert_eq!(list.len(), 1);
            assert_eq!(list[0].text_at("id"), Some("req1"));
        }
        _ => unreachable!(),
    }

    match receive(&mut client, "{\"type\":\"error\",\"message\":\"tool exploded\"}") {
        IpcEvent::Error(message) => assert!(message.contains("tool exploded")),
        _ => unreachable!(),
    }

    assert!(matches!(
        receive(&mut client, "{\"type\":\"ack\",\"message\":\"Approved req1\"}"),
        IpcEvent::Ack
    ));

    match receive(
        &mut client,
        "{\"type\":\"confirmation_request\",\"id\":\"req3\",\"tools\":[\"net.request\"]}",
    ) {
        IpcEvent::ConfirmationRequest { id, tool_names } => {
            assert_eq!(id, "req3");
            assert_eq!(tool_names, vec!["net.request".to_string()]);
        }
        _ => unreachable!(),
    }

    client.set_wake_chime_path("/tmp/my-chime.wav".into());
    assert_eq!(
        next_written(&mut client),
        value(r#"{"type": "set_wake_chime_path", "path": "/tmp/my-chime.wav"}"#)
    );

    match receive(
        &mut client,
        "{\"type\":\"config_updated\",\"key\":\"WAKE_CHIME_PATH\",\"value\":\"/tmp/my-chime.wav\"}",
    ) {
        IpcEvent::ConfigUpdated { key, value } => {
            assert_eq!(key, "WAKE_CHIME_PATH");
            assert_eq!(value, "/tmp/my-chime.wav");
        }
        _ => unreachable!(),
    }

    match receive(
        &mut client,
        "{\"type\":\"config_error\",\"key\":\"WAKE_CHIME_PATH\",\"message\":\"not a file: x\"}",
    ) {
        IpcEvent::ConfigError { key, message } => {
            assert_eq!(key, "WAKE_CHIME_PATH");
            assert_eq!(message, "not a file: x");
        }
        _ => unreachable!(),
    }
}

#[test]
fn settings_and_provider_commands_round_trip_over_real_socket() {
    let mut client = connected_client();

    client.get_settings();
    assert_eq!(next_written(&mut client), value(r#"{"type": "get_settings"}"#));

    match receive(
        &mut client,
        "{\"type\":\"settings\",\"confirmation_mode\":\"smart\",\"wake_chime_path\":\"/x.wav\"}",
    ) {
        IpcEvent::Settings { confirmation_mode, wake_chime_path } => {
            assert_eq!(confirmation_mode, "smart");
            assert_eq!(wake_chime_path, "/x.wav");
        }
        _ => unreachable!(),
    }

    client.set_confirmation_mode("ask_all".into());
    assert_eq!(
        next_written(&mut client),
        value(r#"{"type": "set_confirmation_mode", "mode": "ask_all"}"#)
    );

    client.reset_wake_chime_path();
    assert_eq!(next_written(&mut client), value(r#"{"type": "reset_wake_chime_path"}"#));

    client.list_providers();
    assert_eq!(next_written(&mut client), value(r#"{"type": "list_providers"}"#));

    client.add_provider(
        "ollama".into(),
        "qwen3:8b".into(),
        Some("my-ollama".into()),
        None,
        None,
        None,
    );
    assert_eq!(
        next_written(&mut client),
        value(
            r#"{
                "type": "add_provider",
                "ptype": "ollama",
                "model": "qwen3:8b",
                "name": "my-ollama",
                "url": null,
                "api_key": null,
                "temperature": null
            }"#
        )
    );

    client.edit_provider("my-ollama".into(), json(r#"{"model": "qwen3:14b"}"#));
    assert_eq!(
        next_written(&mut client),
        value(
            r#"{"type": "edit_provider", "name": "my-ollama", "fields": {"model": "qwen3:14b"}}"#
        )
    );

    client.remove_provider("my-ollama".into());
    assert_eq!(
        next_written(&mut client),
        value(r#"{"type": "remove_provider", "name": "my-ollama"}"#)
    );

    match receive(
        &mut client,
        "{\"type\":\"provider_list\",\"providers\":[{\"name\":\"my-ollama\",\"type\":\"ollama\"}]}",
    ) {
        IpcEvent::ProviderList(list) => {
            assert_eq!(list.len(), 1);
            assert_eq!(list[0].text_at("name"), Some("my-ollama"));
        }
        _ => unreachable!(),
    }

    match receive(&mut client, "{\"type\":\"provider_error\",\"message\":\"boom\"}") {
        IpcEvent::ProviderError(message) => assert_eq!(message, "boom"),
        _ => unreachable!(),
    }
}

#[test]
fn shutdown_protocol_round_trips_over_real_socket() {
    let mut client = connected_client();

    client.list_clients();
    assert_eq!(next_written(&mut client), value(r#"{"type": "list_clients"}"#));

    match receive(&mut client, "{\"type\":\"client_list\",\"clients\":[\"jarvis-app\",\"TUI\"]}") {
        IpcEvent::ClientList(clients) => {
            assert_eq!(clients, vec!["jarvis-app".to_string(), "TUI".to_string()])
        }
        _ => unreachable!(),
    }

    client.request_daemon_shutdown();
    assert_eq!(next_written(&mut client), value(r#"{"type": "shutdown_request"}"#));

    match receive(
        &mut client,
        "{\"type\":\"DAEMON_SHUTDOWN\",\"state\":\"idle\",\"goals\":[],\
         \"session_id\":\"sess-1\",\"timestamp\":1700000000.5}",
    ) {
        IpcEvent::DaemonShutdown { state, goals, session_id, timestamp_bits } => {
            assert_eq!(state, "idle");
            assert!(goals.is_empty());
            assert_eq!(session_id, Some("sess-1".to_string()));
            assert_eq!(f64::from_bits(timestamp_bits), 1700000000.5);
        }
        _ => unreachable!(),
    }
}

#[test]
fn every_request_has_its_wire_form() {
    let wire = |command: IpcCommand| value(command_line(command).trim_end());
    assert_eq!(
        wire(IpcCommand::SendMessage("hi".into())),
        value(r#"{"type":"message","content":"hi"}"#)
    );
    assert_eq!(wire(IpcCommand::StartListening), value(r#"{"type":"start_listening"}"#));
    assert_eq!(wire(IpcCommand::StopListening), value(r#"{"type":"stop_listening"}"#));
    assert_eq!(wire(IpcCommand::StopStream), value(r#"{"type":"stop_stream"}"#));
    assert_eq!(
        wire(IpcCommand::ConfirmationResponse { id: "r".into(), approved: false }),
        value(r#"{"type":"confirmation_response","id":"r","approved":false}"#)
    );
    assert_eq!(wire(IpcCommand::ListSessions), value(r#"{"type":"list_sessions"}"#));
    assert_eq!(
        wire(IpcCommand::CreateSession { title: None }),
        value(r#"{"type":"create_session","title":null}"#)
    );
    assert_eq!(
        wire(IpcCommand::CreateSession { title: Some("t".into()) }),
        value(r#"{"type":"create_session","title":"t"}"#)
    );
    assert_eq!(
        wire(IpcCommand::SwitchSession { id: "s".into() }),
        value(r#"{"type":"switch_session","id":"s"}"#)
    );
    assert_eq!(
        wire(IpcCommand::RenameSession { id: "s".into(), title: "t".into() }),
        value(r#"{"type":"rename_session","id":"s","title":"t"}"#)
    );
    assert_eq!(
        wire(IpcCommand::DeleteSession { id: "s".into() }),
        value(r#"{"type":"delete_session","id":"s"}"#)
    );
    assert_eq!(
        wire(IpcCommand::AddProvider {
            ptype: "openai".into(),
            model: "m".into(),
            name: None,
            url: Some("http://localhost".into()),
            api_key: Some("k".into()),
            temperature: serde_json::Number::from_f64(0.5),
        }),
        value(
            r#"{"type":"add_provider","ptype":"openai","model":"m","name":null,
                "url":"http://localhost","api_key":"k","temperature":0.5}"#
        )
    );
}

#[test]
fn the_client_makes_the_request_that_it_is_asked_for() {
    let mut client = IpcClient::default();
    client.send_message("hi".into());
    client.start_listening();
    client.stop_listening();
    client.stop_stream();
    client.confirmation_response("r".into(), true);
    client.list_sessions();
    client.create_session(Some("t".into()));
    client.switch_session("s".into());
    client.rename_session("s".into(), "t".into());
    client.delete_session("s".into());
    assert_eq!(client.next_command(), Some(IpcCommand::SendMessage("hi".into())));
    assert_eq!(client.next_command(), Some(IpcCommand::StartListening));
    assert_eq!(client.next_command(), Some(IpcCommand::StopListening));
    assert_eq!(client.next_command(), Some(IpcCommand::StopStream));
    assert_eq!(
        client.next_command(),
        Some(IpcCommand::ConfirmationResponse { id: "r".into(), approved: true })
    );
    assert_eq!(client.next_command(), Some(IpcCommand::ListSessions));
    assert_eq!(
        client.next_command(),
        Some(IpcCommand::CreateSession { title: Some("t".into()) })
    );
    assert_eq!(client.next_command(), Some(IpcCommand::SwitchSession { id: "s".into() }));
    assert_eq!(
        client.next_command(),
        Some(IpcCommand::RenameSession { id: "s".into(), title: "t".into() })
    );
    assert_eq!(client.next_command(), Some(IpcCommand::DeleteSession { id: "s".into() }));
    assert_eq!(client.next_command(), None);
}

#[test]
fn events_keep_their_order_and_a_closed_client_reads_as_disconnected() {
    let mut client = IpcClient::new();
    assert_eq!(client.try_recv(), None);
    client.deliver(IpcEvent::Ack);
    client.deliver(IpcEvent::WakeWordDetected);
    client.close();
    assert_eq!(client.try_recv(), Some(IpcEvent::Ack));
    assert_eq!(client.try_recv(), Some(IpcEvent::WakeWordDetected));
    assert_eq!(client.try_recv(), Some(IpcEvent::Disconnected));
    assert_eq!(client.try_recv(), Some(IpcEvent::Disconnected));
}

#[test]
fn a_request_is_one_line_whatever_it_holds() {
    let line = command_line(IpcCommand::SendMessage("two\nlines, a \"quote\"".into()));
    assert_eq!(line, "{\"content\":\"two\\nlines, a \\\"quote\\\"\",\"type\":\"message\"}\n");
    assert_eq!(as_line("x".to_string()), "x\n");
}

#[test]
fn requests_that_differ_are_written_differently() {
    let approve = command_json(IpcCommand::ApproveConfirmation { id: "x".into() });
    let deny = command_json(IpcCommand::DenyConfirmation { id: "x".into() });
    assert_ne!(approve, deny);
    let none = command_json(IpcCommand::CreateSession { title: None });
    let empty = command_json(IpcCommand::CreateSession { title: Some(String::new()) });
    assert_ne!(none, empty);
    assert_eq!(none.get("title"), Some(&Json::Null));
    assert_eq!(empty.get("title"), Some(&Json::Text(String::new())));
}

#[test]
fn the_largest_index_reaches_the_wire() {
    let line = command_line(IpcCommand::PartialApproveConfirmation {
        id: "i".into(),
        approved_indices: vec![usize::MAX, 0],
    });
    let read = value(line.trim_end());
    assert_eq!(read["approved_indices"][0].as_u64(), Some(usize::MAX as u64));
    assert_eq!(read["approved_indices"][1].as_u64(), Some(0));
}

#[test]
fn messages_fall_back_to_their_defaults() {
    let parse = parse_daemon_message;
    assert_eq!(parse(r#"{"type":"state"}"#), IpcEvent::State("idle".into()));
    assert_eq!(parse(r#"{"type":"state","state":"busy"}"#), IpcEvent::State("busy".into()));
    assert_eq!(parse(r#"{"type":"state","state":7}"#), IpcEvent::State("idle".into()));
    assert_eq!(
        parse(r#"{"type":"response"}"#),
        IpcEvent::ResponseChunk { content: "".into(), done: true }
    );
    assert_eq!(
        parse(r#"{"type":"response","content":"a","done":false}"#),
        IpcEvent::ResponseChunk { content: "a".into(), done: false }
    );
    assert_eq!(parse(r#"{"type":"wake_word_detected"}"#), IpcEvent::WakeWordDetected);
    assert_eq!(
        parse(r#"{"type":"confirmation_request","id":"i","tools":["a",1,null,"b"]}"#),
        IpcEvent::ConfirmationRequest { id: "i".into(), tool_names: vec!["a".into(), "b".into()] }
    );
    assert_eq!(
        parse(r#"{"type":"confirmation_request"}"#),
        IpcEvent::ConfirmationRequest { id: "".into(), tool_names: vec![] }
    );
    assert_eq!(parse(r#"{"type":"confirmation_list"}"#), IpcEvent::ConfirmationList(vec![]));
    assert_eq!(
        parse(r#"{"type":"config_updated"}"#),
        IpcEvent::ConfigUpdated { key: "".into(), value: "".into() }
    );
    assert_eq!(
        parse(r#"{"type":"config_error"}"#),
        IpcEvent::ConfigError { key: "".into(), message: "".into() }
    );
    assert_eq!(parse(r#"{"type":"error"}"#), IpcEvent::Error("Unknown error".into()));
    assert_eq!(
        parse(r#"{"type":"session_list","sessions":[1,"x"]}"#),
        IpcEvent::SessionList(vec![
            Json::Number(serde_json::Number::from(1)),
            Json::Text("x".into())
        ])
    );
    assert_eq!(
        parse(r#"{"type":"session_switched"}"#),
        IpcEvent::SessionSwitched { session: Json::Null, messages: vec![] }
    );
    assert_eq!(
        parse(r#"{"type":"session_switched","session":{"id":"s"},"messages":[true]}"#),
        IpcEvent::SessionSwitched {
            session: Json::Object(vec![("id".into(), Json::Text("s".into()))]),
            messages: vec![Json::Bool(true)],
        }
    );
    assert_eq!(
        parse(r#"{"type":"session_error"}"#),
        IpcEvent::SessionError("Unknown session error".into())
    );
    assert_eq!(
        parse(r#"{"type":"settings"}"#),
        IpcEvent::Settings { confirmation_mode: "smart".into(), wake_chime_path: "".into() }
    );
    assert_eq!(parse(r#"{"type":"provider_list","providers":{}}"#), IpcEvent::ProviderList(vec![]));
    assert_eq!(
        parse(r#"{"type":"provider_error"}"#),
        IpcEvent::ProviderError("Unknown provider error".into())
    );
    assert_eq!(parse(r#"{"type":"client_list"}"#), IpcEvent::ClientList(vec![]));
    assert_eq!(
        parse(r#"{"type":"DAEMON_SHUTDOWN"}"#),
        IpcEvent::DaemonShutdown {
            state: "idle".into(),
            goals: vec![],
            session_id: None,
            timestamp_bits: 0.0f64.to_bits(),
        }
    );
    assert_eq!(parse(r#"{"type":"ping"}"#), IpcEvent::State("idle".into()));
    assert_eq!(parse(r#"{"type":"pong"}"#), IpcEvent::State("idle".into()));
}

#[test]
fn an_integer_timestamp_is_read_as_a_float() {
    match parse_daemon_message(r#"{"type":"DAEMON_SHUTDOWN","timestamp":1700000000}"#) {
        IpcEvent::DaemonShutdown { timestamp_bits, .. } => {
            assert_eq!(f64::from_bits(timestamp_bits), 1700000000.0)
        }
        _ => unreachable!(),
    }
    match parse_daemon_message(r#"{"type":"DAEMON_SHUTDOWN","timestamp":-3}"#) {
        IpcEvent::DaemonShutdown { timestamp_bits, .. } => {
            assert_eq!(f64::from_bits(timestamp_bits), -3.0)
        }
        _ => unreachable!(),
    }
}

#[test]
fn a_message_of_no_known_type_is_an_error() {
    assert_eq!(
        parse_daemon_message(r#"{"type":"bogus"}"#),
        IpcEvent::Error("unknown type: Some(\"bogus\")".into())
    );
    assert_eq!(
        parse_daemon_message(r#"{"type":"a\"b"}"#),
        IpcEvent::Error("unknown type: Some(\"a\\\"b\")".into())
    );
    assert_eq!(
        parse_daemon_message(r#"{"state":"idle"}"#),
        IpcEvent::Error("unknown type: None".into())
    );
    assert_eq!(parse_daemon_message("[1]"), IpcEvent::Error("unknown type: None".into()));
    assert_eq!(unknown_type("x"), IpcEvent::Error("unknown type: x".into()));
}

#[test]
fn a_line_that_is_no_json_is_an_error_that_holds_it() {
    assert_eq!(
        parse_daemon_message("{not json"),
        IpcEvent::Error("invalid JSON: {not json".into())
    );
    assert_eq!(interpret_line("abc", None), IpcEvent::Error("invalid JSON: abc".into()));
    assert_eq!(
        interpret_line("abc", Some(json(r#"{"type":"ack"}"#))),
        IpcEvent::Ack
    );
}

#[test]
fn the_last_of_two_fields_of_one_name_counts() {
    assert_eq!(
        parse_daemon_message(r#"{"type":"ack","type":"wake_word_detected"}"#),
        IpcEvent::WakeWordDetected
    );
    let twice = Json::Object(vec![
        ("type".into(), Json::Text("ack".into())),
        ("type".into(), Json::Text("wake_word_detected".into())),
    ]);
    assert_eq!(interpret_message(&twice), IpcEvent::WakeWordDetected);
    assert_eq!(print_json(&twice), r#"{"type":"wake_word_detected"}"#);
}

#[test]
fn json_reads_back_as_it_was_written() {
    let text = r#"{"a":[null,true,-5,18446744073709551615,"x\n\u00e9"],"b":{"c":[]}}"#;
    let read = json(text);
    let copy = read.clone();
    assert_eq!(copy, read);
    let printed = print_json(&read);
    assert_eq!(printed, "{\"a\":[null,true,-5,18446744073709551615,\"x\\n\u{e9}\"],\"b\":{\"c\":[]}}");
    assert_eq!(parse_json(&printed), Some(read));
    assert_eq!(parse_json("{"), None);
    assert_eq!(parse_json(""), None);
}

#[test]
fn json_is_read_to_a_depth_of_127() {
    let nested = |n: usize| format!("{}{}", "[".repeat(n), "]".repeat(n));
    let deepest = parse_json(&nested(127)).unwrap();
    assert_eq!(print_json(&deepest), nested(127));
    assert_eq!(parse_json(&nested(128)), None);
}

#[test]
fn json_fields_are_looked_up() {
    let object = json(r#"{"t":"x","b":true,"l":["p",1,"q"],"n":2.5}"#);
    assert_eq!(object.get("none"), None);
    assert_eq!(Json::Null.get("t"), None);
    assert_eq!(object.get("b"), Some(&Json::Bool(true)));
    assert_eq!(object.text_at("t"), Some("x"));
    assert_eq!(object.text_at("b"), None);
    assert_eq!(object.text_or("t", "d"), "x");
    assert_eq!(object.text_or("none", "d"), "d");
    assert!(object.bool_or("b", false));
    assert!(object.bool_or("t", true));
    assert_eq!(object.items_at("l").len(), 3);
    assert!(object.items_at("t").is_empty());
    assert_eq!(object.texts_at("l"), vec!["p".to_string(), "q".to_string()]);
    assert_eq!(object.field_or_null("t"), Json::Text("x".into()));
    assert_eq!(object.field_or_null("none"), Json::Null);
    assert_eq!(object.float_bits_at("n"), 2.5f64.to_bits());
    assert_eq!(object.float_bits_at("t"), 0);
    assert_eq!(Json::Text("x".into()).as_str(), Some("x"));
    assert_eq!(Json::Null.as_str(), None);
}

#[test]
fn the_reader_skips_empty_lines_and_reports_failure() {
    assert_eq!(reader_step(LineRead::Line(String::new())), ReaderAction::Skip);
    assert_eq!(reader_step(LineRead::Failed), ReaderAction::Fail);
    assert_eq!(
        reader_step(LineRead::Line(r#"{"type":"ack"}"#.into())),
        ReaderAction::Pass(IpcEvent::Ack)
    );
    // A line of white space is not empty, and no JSON.
    assert_eq!(
        reader_step(LineRead::Line(" ".into())),
        ReaderAction::Pass(IpcEvent::Error("invalid JSON:  ".into()))
    );
}

#[test]
fn a_connection_decides_what_to_do_next() {
    assert_eq!(on_inbox(Inbox::Event(IpcEvent::Ack)), Action::Forward(IpcEvent::Ack));
    assert_eq!(on_inbox(Inbox::ReadFailed), Action::Stop);
    assert_eq!(on_inbox(Inbox::Closed), Action::Stop);
    assert_eq!(on_inbox(Inbox::Empty), Action::AwaitCommand);
    assert_eq!(on_forwarded(true), Action::PollInbox);
    assert_eq!(on_forwarded(false), Action::Stop);
    assert_eq!(on_pending(Pending::Nothing), Action::PollInbox);
    assert_eq!(on_pending(Pending::Closed), Action::Stop);
    assert_eq!(
        on_pending(Pending::Command(IpcCommand::StartListening)),
        Action::Write { line: "{\"type\":\"start_listening\"}\n".into(), must: true }
    );
    assert_eq!(
        on_pending(Pending::Command(IpcCommand::StopListening)),
        Action::Write { line: "{\"type\":\"stop_listening\"}\n".into(), must: false }
    );
    assert_eq!(on_written(true, true), Action::PollInbox);
    assert_eq!(on_written(true, false), Action::PollInbox);
    assert_eq!(on_written(false, false), Action::PollInbox);
    assert_eq!(on_written(false, true), Action::Stop);
    assert!(must_be_written(&IpcCommand::SendMessage("x".into())));
    assert!(must_be_written(&IpcCommand::StartListening));
    assert!(!must_be_written(&IpcCommand::RequestDaemonShutdown));
}

#[test]
fn attempts_go_on_until_the_client_is_gone() {
    assert_eq!(connection_marks(true), Some((IpcEvent::Connected, IpcEvent::Disconnected)));
    assert_eq!(connection_marks(false), None);
    assert_eq!(between_attempts(Pending::Nothing), Some(2000));
    assert_eq!(between_attempts(Pending::Command(IpcCommand::ListClients)), Some(2000));
    assert_eq!(between_attempts(Pending::Closed), None);
    assert_eq!(RECONNECT_DELAY_MS, 2000);
    assert_eq!(COMMAND_POLL_MS, 50);
}

#[test]
fn values_go_over_and_back() {
    let there = value(r#"{"b":[1,-2,0.5,"x",null],"a":{"c":true},"e":{},"l":[[]]}"#);
    let here = import_value(there.clone());
    assert_eq!(here.text_at("b"), None);
    assert_eq!(here.items_at("b").len(), 5);
    assert_eq!(here.items_at("b")[3], Json::Text("x".into()));
    assert_eq!(export_value(&here), there);
    assert_eq!(import_value(export_value(&here)), here);
}

/// Adds a provider of a temperature, and gives what the daemon reads of it.
fn read_with_temperature(temperature: f64) -> Option<Json> {
    let line = command_line(IpcCommand::AddProvider {
        ptype: "p".into(),
        model: "m".into(),
        name: None,
        url: Some("u".into()),
        api_key: None,
        temperature: serde_json::Number::from_f64(temperature),
    });
    parse_json(line.trim_end())
}

#[test]
fn a_float_touches_nothing_else_of_a_request() {
    let top = f64::from_bits(0x7fe0_0000_0000_0000 - 1);
    for temperature in [0.7, 0.0, -0.0, 1.0, 1e16, 1e-7, 5e-324, 0.1 + 0.2, 2e300, top, -top] {
        let read = read_with_temperature(temperature).unwrap();
        assert_eq!(read.text_at("type"), Some("add_provider"));
        assert_eq!(read.text_at("ptype"), Some("p"));
        assert_eq!(read.text_at("model"), Some("m"));
        assert_eq!(read.get("name"), Some(&Json::Null));
        assert_eq!(read.text_at("url"), Some("u"));
        assert_eq!(read.get("api_key"), Some(&Json::Null));
        match read.get("temperature") {
            Some(Json::Number(number)) => assert!(number.is_f64()),
            _ => unreachable!(),
        }
    }
    let read = read_with_temperature(0.7).unwrap();
    assert_eq!(read.float_bits_at("temperature"), 0.7f64.to_bits());
}

#[test]
fn a_connection_writes_one_line_for_each_request_in_order() {
    let mut client = IpcClient::new();
    client.send_message("one\ntwo\r\n\u{2028}".into());
    client.stop_listening();
    client.partial_approve_confirmation("\n".into(), vec![3]);

    let mut wire = String::new();
    let mut handed: Vec<IpcEvent> = Vec::new();
    let mut inbox = vec![IpcEvent::WakeWordDetected, IpcEvent::Ack];
    let mut action = Action::PollInbox;
    loop {
        action = match action {
            Action::PollInbox => on_inbox(match inbox.pop() {
                Some(event) => Inbox::Event(event),
                None => Inbox::Empty,
            }),
            Action::Forward(event) => {
                handed.push(event);
                on_forwarded(true)
            }
            Action::AwaitCommand => on_pending(match client.next_command() {
                Some(command) => Pending::Command(command),
                None => Pending::Closed,
            }),
            Action::Write { line, must } => {
                wire.push_str(&line);
                on_written(true, must)
            }
            Action::Stop => break,
        };
    }
    assert_eq!(handed, vec![IpcEvent::Ack, IpcEvent::WakeWordDetected]);
    let lines: Vec<&str> = wire.split_terminator('\n').collect();
    assert_eq!(lines.len(), 3);
    assert_eq!(
        value(lines[0]),
        value(r#"{"type":"message","content":"one\ntwo\r\n\u2028"}"#)
    );
    assert_eq!(value(lines[1]), value(r#"{"type":"stop_listening"}"#));
    assert_eq!(
        value(lines[2]),
        value(r#"{"type":"partial_approve_confirmation","id":"\n","approved_indices":[3]}"#)
    );
}
