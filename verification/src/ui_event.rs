//! What the user interface is told.

use vstd::prelude::*;
use vstd::string::*;

use crate::json::{Json, JsonTree};

verus! {

/// Something that the user interface is told.
#[derive(Debug, Clone, PartialEq)]
pub enum UiEvent {
    Connected,
    Disconnected,
    State(String),
    Chunk { content: String, done: bool },
    Wake,
    Confirm { id: String, tool_names: Vec<String> },
    ConfirmationList(Vec<Json>),
    ConfigUpdated { key: String, value: String },
    ConfigError { key: String, message: String },
    Error(String),
    SessionList(Vec<Json>),
    SessionSwitched { session: Json, messages: Vec<Json> },
    SessionError(String),
    Settings { confirmation_mode: String, wake_chime_path: String },
    ProviderList(Vec<Json>),
    ProviderError(String),
    ClientList(Vec<String>),
    /// The timestamp is a float, given by its IEEE 754 bits.
    DaemonShutdown {
        state: String,
        goals: Vec<Json>,
        session_id: Option<String>,
        timestamp_bits: u64,
    },
    /// Ask the user whether to shut the daemon down.
    OpenShutdownModal,
}

/// The content of such an event.
pub enum UiEventView {
    Connected,
    Disconnected,
    State(Seq<char>),
    Chunk { content: Seq<char>, done: bool },
    Wake,
    Confirm { id: Seq<char>, tool_names: Seq<Seq<char>> },
    ConfirmationList(Seq<JsonTree>),
    ConfigUpdated { key: Seq<char>, value: Seq<char> },
    ConfigError { key: Seq<char>, message: Seq<char> },
    Error(Seq<char>),
    SessionList(Seq<JsonTree>),
    SessionSwitched { session: JsonTree, messages: Seq<JsonTree> },
    SessionError(Seq<char>),
    Settings { confirmation_mode: Seq<char>, wake_chime_path: Seq<char> },
    ProviderList(Seq<JsonTree>),
    ProviderError(Seq<char>),
    ClientList(Seq<Seq<char>>),
    DaemonShutdown {
        state: Seq<char>,
        goals: Seq<JsonTree>,
        session_id: Option<Seq<char>>,
        timestamp_bits: u64,
    },
    OpenShutdownModal,
}

impl View for UiEvent {
    type V = UiEventView;

    open spec fn view(&self) -> UiEventView {
        match *self {
            UiEvent::Connected => UiEventView::Connected,
            UiEvent::Disconnected => UiEventView::Disconnected,
            UiEvent::State(state) => UiEventView::State(state@),
            UiEvent::Chunk { content, done } => UiEventView::Chunk { content: content@, done },
            UiEvent::Wake => UiEventView::Wake,
            UiEvent::Confirm { id, tool_names } => UiEventView::Confirm {
                id: id@,
                tool_names: tool_names.deep_view(),
            },
            UiEvent::ConfirmationList(list) => UiEventView::ConfirmationList(list.deep_view()),
            UiEvent::ConfigUpdated { key, value } => UiEventView::ConfigUpdated {
                key: key@,
                value: value@,
            },
            UiEvent::ConfigError { key, message } => UiEventView::ConfigError {
                key: key@,
                message: message@,
            },
            UiEvent::Error(message) => UiEventView::Error(message@),
            UiEvent::SessionList(sessions) => UiEventView::SessionList(sessions.deep_view()),
            UiEvent::SessionSwitched { session, messages } => UiEventView::SessionSwitched {
                session: session@,
                messages: messages.deep_view(),
            },
            UiEvent::SessionError(message) => UiEventView::SessionError(message@),
            UiEvent::Settings { confirmation_mode, wake_chime_path } => UiEventView::Settings {
                confirmation_mode: confirmation_mode@,
                wake_chime_path: wake_chime_path@,
            },
            UiEvent::ProviderList(providers) => UiEventView::ProviderList(providers.deep_view()),
            UiEvent::ProviderError(message) => UiEventView::ProviderError(message@),
            UiEvent::ClientList(clients) => UiEventView::ClientList(clients.deep_view()),
            UiEvent::DaemonShutdown { state, goals, session_id, timestamp_bits } => {
                UiEventView::DaemonShutdown {
                    state: state@,
                    goals: goals.deep_view(),
                    session_id: session_id.deep_view(),
                    timestamp_bits,
                }
            },
            UiEvent::OpenShutdownModal => UiEventView::OpenShutdownModal,
        }
    }
}

/// The name under which the user interface listens for an event.
pub open spec fn channel_name(event: UiEventView) -> Seq<char> {
    match event {
        UiEventView::Connected => "ipc-connected"@,
        UiEventView::Disconnected => "ipc-disconnected"@,
        UiEventView::State(_) => "ipc-state"@,
        UiEventView::Chunk { .. } => "ipc-chunk"@,
        UiEventView::Wake => "ipc-wake"@,
        UiEventView::Confirm { .. } => "ipc-confirm"@,
        UiEventView::ConfirmationList(_) => "ipc-confirmation-list"@,
        UiEventView::ConfigUpdated { .. } => "ipc-config-updated"@,
        UiEventView::ConfigError { .. } => "ipc-config-error"@,
        UiEventView::Error(_) => "ipc-error"@,
        UiEventView::SessionList(_) => "ipc-session-list"@,
        UiEventView::SessionSwitched { .. } => "ipc-session-switched"@,
        UiEventView::SessionError(_) => "ipc-session-error"@,
        UiEventView::Settings { .. } => "ipc-settings"@,
        UiEventView::ProviderList(_) => "ipc-provider-list"@,
        UiEventView::ProviderError(_) => "ipc-provider-error"@,
        UiEventView::ClientList(_) => "ipc-client-list"@,
        UiEventView::DaemonShutdown { .. } => "ipc-daemon-shutdown"@,
        UiEventView::OpenShutdownModal => "ipc-open-shutdown-modal"@,
    }
}

impl UiEvent {
    /// The name under which the user interface listens for this event.
    pub fn channel(&self) -> (name: &'static str)
        ensures
            name@ == channel_name(self@),
    {
        match self {
            UiEvent::Connected => "ipc-connected",
            UiEvent::Disconnected => "ipc-disconnected",
            UiEvent::State(_) => "ipc-state",
            UiEvent::Chunk { .. } => "ipc-chunk",
            UiEvent::Wake => "ipc-wake",
            UiEvent::Confirm { .. } => "ipc-confirm",
            UiEvent::ConfirmationList(_) => "ipc-confirmation-list",
            UiEvent::ConfigUpdated { .. } => "ipc-config-updated",
            UiEvent::ConfigError { .. } => "ipc-config-error",
            UiEvent::Error(_) => "ipc-error",
            UiEvent::SessionList(_) => "ipc-session-list",
            UiEvent::SessionSwitched { .. } => "ipc-session-switched",
            UiEvent::SessionError(_) => "ipc-session-error",
            UiEvent::Settings { .. } => "ipc-settings",
            UiEvent::ProviderList(_) => "ipc-provider-list",
            UiEvent::ProviderError(_) => "ipc-provider-error",
            UiEvent::ClientList(_) => "ipc-client-list",
            UiEvent::DaemonShutdown { .. } => "ipc-daemon-shutdown",
            UiEvent::OpenShutdownModal => "ipc-open-shutdown-modal",
        }
    }
}

/// The names, spelt out far enough to be told apart.
proof fn lemma_channels()
    ensures
        "ipc-connected"@.len() == 13 && "ipc-connected"@[4] == 'c',
        "ipc-disconnected"@.len() == 16 && "ipc-disconnected"@[4] == 'd',
        "ipc-state"@.len() == 9 && "ipc-state"@[4] == 's',
        "ipc-chunk"@.len() == 9 && "ipc-chunk"@[4] == 'c',
        "ipc-wake"@.len() == 8 && "ipc-wake"@[4] == 'w',
        "ipc-confirm"@.len() == 11 && "ipc-confirm"@[4] == 'c',
        "ipc-confirmation-list"@.len() == 21 && "ipc-confirmation-list"@[4] == 'c',
        "ipc-config-updated"@.len() == 18 && "ipc-config-updated"@[4] == 'c',
        "ipc-config-error"@.len() == 16 && "ipc-config-error"@[4] == 'c',
        "ipc-error"@.len() == 9 && "ipc-error"@[4] == 'e',
        "ipc-session-list"@.len() == 16 && "ipc-session-list"@[4] == 's',
        "ipc-session-switched"@.len() == 20 && "ipc-session-switched"@[4] == 's',
        "ipc-session-error"@.len() == 17 && "ipc-session-error"@[4] == 's',
        "ipc-settings"@.len() == 12 && "ipc-settings"@[4] == 's',
        "ipc-provider-list"@.len() == 17 && "ipc-provider-list"@[4] == 'p',
        "ipc-provider-error"@.len() == 18 && "ipc-provider-error"@[4] == 'p',
        "ipc-client-list"@.len() == 15 && "ipc-client-list"@[4] == 'c',
        "ipc-daemon-shutdown"@.len() == 19 && "ipc-daemon-shutdown"@[4] == 'd',
        "ipc-open-shutdown-modal"@.len() == 23 && "ipc-open-shutdown-modal"@[4] == 'o',
{
    reveal_strlit("ipc-connected");
    reveal_strlit("ipc-disconnected");
    reveal_strlit("ipc-state");
    reveal_strlit("ipc-chunk");
    reveal_strlit("ipc-wake");
    reveal_strlit("ipc-confirm");
    reveal_strlit("ipc-confirmation-list");
    reveal_strlit("ipc-config-updated");
    reveal_strlit("ipc-config-error");
    reveal_strlit("ipc-error");
    reveal_strlit("ipc-session-list");
    reveal_strlit("ipc-session-switched");
    reveal_strlit("ipc-session-error");
    reveal_strlit("ipc-settings");
    reveal_strlit("ipc-provider-list");
    reveal_strlit("ipc-provider-error");
    reveal_strlit("ipc-client-list");
    reveal_strlit("ipc-daemon-shutdown");
    reveal_strlit("ipc-open-shutdown-modal");
}

/// What is heard under a name is always of one kind: no two kinds of events share a name.
pub proof fn law_channels_tell_events_apart(a: UiEventView, b: UiEventView)
    requires
        channel_name(a) == channel_name(b),
    ensures
        a is Connected == b is Connected,
        a is Disconnected == b is Disconnected,
        a is State == b is State,
        a is Chunk == b is Chunk,
        a is Wake == b is Wake,
        a is Confirm == b is Confirm,
        a is ConfirmationList == b is ConfirmationList,
        a is ConfigUpdated == b is ConfigUpdated,
        a is ConfigError == b is ConfigError,
        a is Error == b is Error,
        a is SessionList == b is SessionList,
        a is SessionSwitched == b is SessionSwitched,
        a is SessionError == b is SessionError,
        a is Settings == b is Settings,
        a is ProviderList == b is ProviderList,
        a is ProviderError == b is ProviderError,
        a is ClientList == b is ClientList,
        a is DaemonShutdown == b is DaemonShutdown,
        a is OpenShutdownModal == b is OpenShutdownModal,
{
    lemma_channels();
    assert(channel_name(a).len() == channel_name(b).len());
    assert(channel_name(a)[4] == channel_name(b)[4]);
}

/// An event is heard under the name of its kind, whatever it holds.
pub proof fn law_events_are_heard_under_their_kind(event: UiEventView)
    ensures
        event is Connected ==> channel_name(event) == "ipc-connected"@,
        event is Disconnected ==> channel_name(event) == "ipc-disconnected"@,
        event is State ==> channel_name(event) == "ipc-state"@,
        event is Chunk ==> channel_name(event) == "ipc-chunk"@,
        event is Wake ==> channel_name(event) == "ipc-wake"@,
        event is Confirm ==> channel_name(event) == "ipc-confirm"@,
        event is ConfirmationList ==> channel_name(event) == "ipc-confirmation-list"@,
        event is ConfigUpdated ==> channel_name(event) == "ipc-config-updated"@,
        event is ConfigError ==> channel_name(event) == "ipc-config-error"@,
        event is Error ==> channel_name(event) == "ipc-error"@,
        event is SessionList ==> channel_name(event) == "ipc-session-list"@,
        event is SessionSwitched ==> channel_name(event) == "ipc-session-switched"@,
        event is SessionError ==> channel_name(event) == "ipc-session-error"@,
        event is Settings ==> channel_name(event) == "ipc-settings"@,
        event is ProviderList ==> channel_name(event) == "ipc-provider-list"@,
        event is ProviderError ==> channel_name(event) == "ipc-provider-error"@,
        event is ClientList ==> channel_name(event) == "ipc-client-list"@,
        event is DaemonShutdown ==> channel_name(event) == "ipc-daemon-shutdown"@,
        event is OpenShutdownModal ==> channel_name(event) == "ipc-open-shutdown-modal"@,
{
}

/// What an event holds is what its view says.
pub proof fn law_ui_events_are_seen_as_they_are(
    a: String,
    b: String,
    flag: bool,
    texts: Vec<String>,
    items: Vec<Json>,
    value: Json,
    id: Option<String>,
    bits: u64,
)
    ensures
        UiEvent::Connected@ == UiEventView::Connected,
        UiEvent::Disconnected@ == UiEventView::Disconnected,
        UiEvent::State(a)@ == UiEventView::State(a@),
        (UiEvent::Chunk { content: a, done: flag })@ == (UiEventView::Chunk {
            content: a@,
            done: flag,
        }),
        UiEvent::Wake@ == UiEventView::Wake,
        (UiEvent::Confirm { id: a, tool_names: texts })@ == (UiEventView::Confirm {
            id: a@,
            tool_names: texts.deep_view(),
        }),
        UiEvent::ConfirmationList(items)@ == UiEventView::ConfirmationList(items.deep_view()),
        (UiEvent::ConfigUpdated { key: a, value: b })@ == (UiEventView::ConfigUpdated {
            key: a@,
            value: b@,
        }),
        (UiEvent::ConfigError { key: a, message: b })@ == (UiEventView::ConfigError {
            key: a@,
            message: b@,
        }),
        UiEvent::Error(a)@ == UiEventView::Error(a@),
        UiEvent::SessionList(items)@ == UiEventView::SessionList(items.deep_view()),
        (UiEvent::SessionSwitched { session: value, messages: items })@ == (
        UiEventView::SessionSwitched { session: value@, messages: items.deep_view() }),
        UiEvent::SessionError(a)@ == UiEventView::SessionError(a@),
        (UiEvent::Settings { confirmation_mode: a, wake_chime_path: b })@ == (UiEventView::Settings {
            confirmation_mode: a@,
            wake_chime_path: b@,
        }),
        UiEvent::ProviderList(items)@ == UiEventView::ProviderList(items.deep_view()),
        UiEvent::ProviderError(a)@ == UiEventView::ProviderError(a@),
        UiEvent::ClientList(texts)@ == UiEventView::ClientList(texts.deep_view()),
        (UiEvent::DaemonShutdown {
            state: a,
            goals: items,
            session_id: id,
            timestamp_bits: bits,
        })@ == (UiEventView::DaemonShutdown {
            state: a@,
            goals: items.deep_view(),
            session_id: id.deep_view(),
            timestamp_bits: bits,
        }),
        UiEvent::OpenShutdownModal@ == UiEventView::OpenShutdownModal,
{
}

} // verus!
