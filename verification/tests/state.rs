//! The state of the application, and what it makes of events.

use jarvis_ui::app_state::{AppState, Effect, StatusPayload};
use jarvis_ui::command::IpcCommand;
use jarvis_ui::event::IpcEvent;
use jarvis_ui::json::Json;
use jarvis_ui::shell::{
    menu_action, on_window_event, toggle_autostart, toggle_main_window,
    wake_chime_bootstrap_decision, AutostartChange, MenuAction, Visibility, WindowHappening,
    WindowReaction,
};
use jarvis_ui::text::{is_blank, same_text};
use jarvis_ui::ui_event::UiEvent;

fn idle() -> AppState<u8> {
    AppState::new(None)
}

fn told(state: &str) -> Effect<u8> {
    Effect::Emit(UiEvent::State(state.to_string()))
}

#[test]
fn pending_when_marker_absent_and_resource_present() {
    let dir = std::path::PathBuf::from("/data");
    let marker = dir.join(".wake_chime_bootstrapped");
    let resource = dir.join("wake_chime.wav");

    let result = wake_chime_bootstrap_decision(
        marker.clone(),
        false,
        resource.to_string_lossy().into_owned(),
        true,
    );
    assert_eq!(result, Some((resource.to_string_lossy().into_owned(), marker)));
}

#[test]
fn none_when_marker_already_written() {
    let dir = std::path::PathBuf::from("/data");
    let marker = dir.join(".wake_chime_bootstrapped");
    let resource = dir.join("wake_chime.wav");

    assert_eq!(
        wake_chime_bootstrap_decision(
            marker,
            true,
            resource.to_string_lossy().into_owned(),
            true,
        ),
        None
    );
}

#[test]
fn none_when_bundled_resource_is_missing() {
    let dir = std::path::PathBuf::from("/data");
    let marker = dir.join(".wake_chime_bootstrapped");
    let resource = dir.join("wake_chime.wav");

    assert_eq!(
        wake_chime_bootstrap_decision(
            marker,
            false,
            resource.to_string_lossy().into_owned(),
            false,
        ),
        None
    );
}

#[test]
fn the_application_starts_offline() {
    let state = idle();
    assert_eq!(
        state.get_status(),
        StatusPayload { connected: false, state: "offline".to_string() }
    );
    assert!(!state.is_listening);
}

#[test]
fn a_connection_begins_and_ends() {
    let mut state = idle();
    assert_eq!(
        state.handle_event(IpcEvent::Connected),
        vec![
            Effect::Tooltip("JARVIS -- Connected"),
            Effect::Emit(UiEvent::Connected),
            told("idle"),
        ]
    );
    assert_eq!(
        state.get_status(),
        StatusPayload { connected: true, state: "idle".to_string() }
    );
    assert_eq!(state.ipc.next_command(), None);
    state.handle_event(IpcEvent::WakeWordDetected);
    assert!(state.is_listening);
    assert_eq!(
        state.handle_event(IpcEvent::Disconnected),
        vec![
            Effect::Tooltip("JARVIS -- Offline"),
            Effect::Emit(UiEvent::Disconnected),
            told("offline"),
        ]
    );
    assert_eq!(
        state.get_status(),
        StatusPayload { connected: false, state: "offline".to_string() }
    );
    assert!(!state.is_listening);
}

#[test]
fn the_daemon_says_what_it_does() {
    let mut state = idle();
    assert_eq!(state.handle_event(IpcEvent::State("listening".into())), vec![told("listening")]);
    assert!(state.is_listening);
    assert_eq!(state.handle_event(IpcEvent::State("thinking".into())), vec![told("thinking")]);
    assert!(!state.is_listening);
    assert_eq!(
        state.handle_event(IpcEvent::ResponseChunk { content: "a".into(), done: false }),
        vec![Effect::Emit(UiEvent::Chunk { content: "a".into(), done: false })]
    );
    assert_eq!(state.get_status().state, "thinking");
    assert_eq!(
        state.handle_event(IpcEvent::ResponseChunk { content: "b".into(), done: true }),
        vec![Effect::Emit(UiEvent::Chunk { content: "b".into(), done: true }), told("idle")]
    );
    assert_eq!(state.get_status().state, "idle");
    assert_eq!(
        state.handle_event(IpcEvent::WakeWordDetected),
        vec![Effect::Emit(UiEvent::Wake), told("listening")]
    );
    assert_eq!(state.get_status().state, "listening");
}

#[test]
fn the_chime_is_asked_for_at_every_connection_until_it_is_taken() {
    let mut state: AppState<u8> = AppState::new(Some(("/chime.wav".to_string(), 7)));
    let ask = || Some(IpcCommand::SetWakeChimePath { path: "/chime.wav".to_string() });
    state.handle_event(IpcEvent::Connected);
    assert_eq!(state.ipc.next_command(), ask());
    let refused = IpcEvent::ConfigError { key: "WAKE_CHIME_PATH".into(), message: "no".into() };
    assert_eq!(
        state.handle_event(refused),
        vec![
            Effect::ReportRejection("no".into()),
            Effect::Emit(UiEvent::ConfigError {
                key: "WAKE_CHIME_PATH".into(),
                message: "no".into()
            }),
        ]
    );
    state.handle_event(IpcEvent::Disconnected);
    state.handle_event(IpcEvent::Connected);
    assert_eq!(state.ipc.next_command(), ask());

    let other = IpcEvent::ConfigUpdated { key: "MODE".into(), value: "x".into() };
    assert_eq!(
        state.handle_event(other),
        vec![Effect::Emit(UiEvent::ConfigUpdated { key: "MODE".into(), value: "x".into() })]
    );
    let taken = || IpcEvent::ConfigUpdated { key: "WAKE_CHIME_PATH".into(), value: "/c".into() };
    let said = || {
        Effect::Emit(UiEvent::ConfigUpdated {
            key: "WAKE_CHIME_PATH".into(),
            value: "/c".into(),
        })
    };
    assert_eq!(state.handle_event(taken()), vec![Effect::WriteMarker(7), said()]);
    assert_eq!(state.handle_event(taken()), vec![said()]);
    state.handle_event(IpcEvent::Connected);
    assert_eq!(state.ipc.next_command(), None);
    let refused = IpcEvent::ConfigError { key: "WAKE_CHIME_PATH".into(), message: "no".into() };
    assert_eq!(state.handle_event(refused).len(), 1);
}

#[test]
fn all_other_events_are_passed_on() {
    let mut state = idle();
    assert_eq!(state.handle_event(IpcEvent::Ack), vec![]);
    let pairs = vec![
        (
            IpcEvent::ConfirmationRequest { id: "i".into(), tool_names: vec!["t".into()] },
            UiEvent::Confirm { id: "i".into(), tool_names: vec!["t".into()] },
            "ipc-confirm",
        ),
        (
            IpcEvent::ConfirmationList(vec![Json::Null]),
            UiEvent::ConfirmationList(vec![Json::Null]),
            "ipc-confirmation-list",
        ),
        (IpcEvent::Error("e".into()), UiEvent::Error("e".into()), "ipc-error"),
        (
            IpcEvent::SessionList(vec![Json::Bool(true)]),
            UiEvent::SessionList(vec![Json::Bool(true)]),
            "ipc-session-list",
        ),
        (
            IpcEvent::SessionSwitched { session: Json::Null, messages: vec![] },
            UiEvent::SessionSwitched { session: Json::Null, messages: vec![] },
            "ipc-session-switched",
        ),
        (IpcEvent::SessionError("e".into()), UiEvent::SessionError("e".into()), "ipc-session-error"),
        (
            IpcEvent::Settings { confirmation_mode: "m".into(), wake_chime_path: "p".into() },
            UiEvent::Settings { confirmation_mode: "m".into(), wake_chime_path: "p".into() },
            "ipc-settings",
        ),
        (IpcEvent::ProviderList(vec![]), UiEvent::ProviderList(vec![]), "ipc-provider-list"),
        (
            IpcEvent::ProviderError("e".into()),
            UiEvent::ProviderError("e".into()),
            "ipc-provider-error",
        ),
        (
            IpcEvent::ClientList(vec!["c".into()]),
            UiEvent::ClientList(vec!["c".into()]),
            "ipc-client-list",
        ),
    ];
    for (event, ui_event, channel) in pairs {
        assert_eq!(ui_event.channel(), channel);
        assert_eq!(state.handle_event(event), vec![Effect::Emit(ui_event)]);
    }
    assert_eq!(
        state.handle_event(IpcEvent::DaemonShutdown {
            state: "idle".into(),
            goals: vec![],
            session_id: None,
            timestamp_bits: 3,
        }),
        vec![
            Effect::Emit(UiEvent::DaemonShutdown {
                state: "idle".into(),
                goals: vec![],
                session_id: None,
                timestamp_bits: 3,
            }),
            Effect::QuitIfSet,
        ]
    );
}

#[test]
fn channels_have_their_names() {
    assert_eq!(UiEvent::Connected.channel(), "ipc-connected");
    assert_eq!(UiEvent::Disconnected.channel(), "ipc-disconnected");
    assert_eq!(UiEvent::State("x".into()).channel(), "ipc-state");
    assert_eq!(UiEvent::Chunk { content: "".into(), done: true }.channel(), "ipc-chunk");
    assert_eq!(UiEvent::Wake.channel(), "ipc-wake");
    let updated = UiEvent::ConfigUpdated { key: "".into(), value: "".into() };
    assert_eq!(updated.channel(), "ipc-config-updated");
    let refused = UiEvent::ConfigError { key: "".into(), message: "".into() };
    assert_eq!(refused.channel(), "ipc-config-error");
    let shutdown = UiEvent::DaemonShutdown {
        state: "".into(),
        goals: vec![],
        session_id: None,
        timestamp_bits: 0,
    };
    assert_eq!(shutdown.channel(), "ipc-daemon-shutdown");
    assert_eq!(UiEvent::OpenShutdownModal.channel(), "ipc-open-shutdown-modal");
}

#[test]
fn polling_takes_one_event_at_a_time() {
    let mut state = idle();
    assert_eq!(state.poll(), None);
    state.ipc.deliver(IpcEvent::Ack);
    state.ipc.deliver(IpcEvent::State("busy".into()));
    assert_eq!(state.poll(), Some(vec![]));
    assert_eq!(state.poll(), Some(vec![told("busy")]));
    assert_eq!(state.poll(), None);
    state.ipc.close();
    let offline = state.poll().unwrap();
    assert_eq!(offline[0], Effect::Tooltip("JARVIS -- Offline"));
    assert_eq!(state.get_status().state, "offline");
}

#[test]
fn blank_messages_are_not_sent() {
    let mut state = idle();
    state.send_message("".into());
    state.send_message(" \t\n\u{a0}\u{3000}".into());
    assert_eq!(state.ipc.next_command(), None);
    state.send_message(" hi ".into());
    assert_eq!(state.ipc.next_command(), Some(IpcCommand::SendMessage(" hi ".into())));
    assert!(is_blank("\r\n"));
    assert!(is_blank("\u{85}\u{1680}\u{2000}\u{200a}\u{2028}\u{2029}\u{202f}\u{205f}"));
    assert!(!is_blank("\u{200b}"));
    assert!(!is_blank("\u{180e}"));
    assert!(!is_blank(" x "));
}

#[test]
fn listening_is_turned_on_and_off() {
    let mut state = idle();
    assert_eq!(state.toggle_listening(), UiEvent::State("listening".into()));
    assert!(state.is_listening);
    assert_eq!(state.ipc.next_command(), Some(IpcCommand::StartListening));
    assert_eq!(state.toggle_listening(), UiEvent::State("idle".into()));
    assert!(!state.is_listening);
    assert_eq!(state.ipc.next_command(), Some(IpcCommand::StopListening));
    assert_eq!(state.get_status().state, "offline");
}

#[test]
fn windows_react() {
    assert_eq!(
        on_window_event("main", WindowHappening::CloseRequested),
        WindowReaction::HideInstead
    );
    assert_eq!(
        on_window_event("main", WindowHappening::Moved { x: 1, y: 2 }),
        WindowReaction::Nothing
    );
    assert_eq!(
        on_window_event("widget-orb", WindowHappening::Moved { x: -1, y: 2 }),
        WindowReaction::SavePosition { id: "orb".into(), x: -1, y: 2 }
    );
    assert_eq!(
        on_window_event("widget-orb", WindowHappening::CloseRequested),
        WindowReaction::Nothing
    );
    assert_eq!(on_window_event("widget-orb", WindowHappening::Other), WindowReaction::Nothing);
    assert_eq!(
        on_window_event("other", WindowHappening::Moved { x: 1, y: 2 }),
        WindowReaction::Nothing
    );
    assert_eq!(toggle_main_window(true), Visibility::Hide);
    assert_eq!(toggle_main_window(false), Visibility::ShowAndFocus);
}

#[test]
fn the_tray_menu_acts() {
    assert_eq!(menu_action("show_hide"), MenuAction::ToggleMainWindow);
    assert_eq!(menu_action("start_on_login"), MenuAction::ToggleAutostart);
    assert_eq!(menu_action("shutdown_daemon"), MenuAction::AskForShutdown);
    assert_eq!(menu_action("quit"), MenuAction::Quit);
    assert_eq!(menu_action("other"), MenuAction::Nothing);
    assert_eq!(toggle_autostart(true), AutostartChange::Disable);
    assert_eq!(toggle_autostart(false), AutostartChange::Enable);
}

#[test]
fn texts_are_compared_by_their_characters() {
    assert!(same_text("h\u{e9}", "h\u{e9}"));
    assert!(!same_text("he", "h\u{e9}"));
    assert!(!same_text("he", "hel"));
}

#[test]
fn white_space_is_told_as_the_standard_library_tells_it() {
    for c in '\0'..=char::MAX {
        let mut buffer = [0u8; 4];
        assert_eq!(is_blank(c.encode_utf8(&mut buffer)), c.is_whitespace());
        let listed = matches!(
            c,
            '\t'..='\r'
                | ' '
                | '\u{85}'
                | '\u{a0}'
                | '\u{1680}'
                | '\u{2000}'..='\u{200a}'
                | '\u{2028}'
                | '\u{2029}'
                | '\u{202f}'
                | '\u{205f}'
                | '\u{3000}'
        );
        assert_eq!(listed, c.is_whitespace(), "{c:?}");
    }
}
