//! What the daemon tells the client, and how its messages are read.

use vstd::prelude::*;
use vstd::string::*;

use crate::json::{
    integer_float_bits, json_document, parse_json, texts_among, Json, JsonTree, NumberTree,
};
use crate::text::same_text;

verus! {

/// An event on the connection with the daemon.
#[derive(Debug, Clone, PartialEq)]
pub enum IpcEvent {
    Connected,
    Disconnected,
    State(String),
    ResponseChunk { content: String, done: bool },
    WakeWordDetected,
    ConfirmationRequest { id: String, tool_names: Vec<String> },
    ConfirmationList(Vec<Json>),
    Ack,
    ConfigUpdated { key: String, value: String },
    ConfigError { key: String, message: String },
    Error(String),
    SessionList(Vec<Json>),
    SessionSwitched { session: Json, messages: Vec<Json> },
    SessionError(String),
    Settings { confirmation_mode: String, wake_chime_path: String },
    ProviderList(Vec<Json>),
    ProviderError(String),
    ClientList(Vec<String>),
    /// The timestamp is a float, given by its IEEE 754 bits.
    DaemonShutdown {
        state: String,
        goals: Vec<Json>,
        session_id: Option<String>,
        timestamp_bits: u64,
    },
}

/// The content of an event.
pub enum IpcEventView {
    Connected,
    Disconnected,
    State(Seq<char>),
    ResponseChunk { content: Seq<char>, done: bool },
    WakeWordDetected,
    ConfirmationRequest { id: Seq<char>, tool_names: Seq<Seq<char>> },
    ConfirmationList(Seq<JsonTree>),
    Ack,
    ConfigUpdated { key: Seq<char>, value: Seq<char> },
    ConfigError { key: Seq<char>, message: Seq<char> },
    Error(Seq<char>),
    SessionList(Seq<JsonTree>),
    SessionSwitched { session: JsonTree, messages: Seq<JsonTree> },
    SessionError(Seq<char>),
    Settings { confirmation_mode: Seq<char>, wake_chime_path: Seq<char> },
    ProviderList(Seq<JsonTree>),
    ProviderError(Seq<char>),
    ClientList(Seq<Seq<char>>),
    DaemonShutdown {
        state: Seq<char>,
        goals: Seq<JsonTree>,
        session_id: Option<Seq<char>>,
        timestamp_bits: u64,
    },
}

impl View for IpcEvent {
    type V = IpcEventView;

    open spec fn view(&self) -> IpcEventView {
        match *self {
            IpcEvent::Connected => IpcEventView::Connected,
            IpcEvent::Disconnected => IpcEventView::Disconnected,
            IpcEvent::State(state) => IpcEventView::State(state@),
            IpcEvent::ResponseChunk { content, done } => IpcEventView::ResponseChunk {
                content: content@,
                done,
            },
            IpcEvent::WakeWordDetected => IpcEventView::WakeWordDetected,
            IpcEvent::ConfirmationRequest { id, tool_names } => IpcEventView::ConfirmationRequest {
                id: id@,
                tool_names: tool_names.deep_view(),
            },
            IpcEvent::ConfirmationList(list) => IpcEventView::ConfirmationList(list.deep_view()),
            IpcEvent::Ack => IpcEventView::Ack,
            IpcEvent::ConfigUpdated { key, value } => IpcEventView::ConfigUpdated {
                key: key@,
                value: value@,
            },
            IpcEvent::ConfigError { key, message } => IpcEventView::ConfigError {
                key: key@,
                message: message@,
            },
            IpcEvent::Error(message) => IpcEventView::Error(message@),
            IpcEvent::SessionList(sessions) => IpcEventView::SessionList(sessions.deep_view()),
            IpcEvent::SessionSwitched { session, messages } => IpcEventView::SessionSwitched {
                session: session@,
                messages: messages.deep_view(),
            },
            IpcEvent::SessionError(message) => IpcEventView::SessionError(message@),
            IpcEvent::Settings { confirmation_mode, wake_chime_path } => IpcEventView::Settings {
                confirmation_mode: confirmation_mode@,
                wake_chime_path: wake_chime_path@,
            },
            IpcEvent::ProviderList(providers) => IpcEventView::ProviderList(providers.deep_view()),
            IpcEvent::ProviderError(message) => IpcEventView::ProviderError(message@),
            IpcEvent::ClientList(clients) => IpcEventView::ClientList(clients.deep_view()),
            IpcEvent::DaemonShutdown { state, goals, session_id, timestamp_bits } => {
                IpcEventView::DaemonShutdown {
                    state: state@,
                    goals: goals.deep_view(),
                    session_id: session_id.deep_view(),
                    timestamp_bits,
                }
            },
        }
    }
}

impl DeepView for IpcEvent {
    type V = IpcEventView;

    open spec fn deep_view(&self) -> IpcEventView {
        self@
    }
}

/// Whether a text is made of letters and digits of ASCII, underscores and hyphens.
pub open spec fn plain_word(text: Seq<char>) -> bool {
    forall|i: int|
        0 <= i < text.len() ==> {
            let c = #[trigger] text[i];
            'a' <= c <= 'z' || 'A' <= c <= 'Z' || '0' <= c <= '9' || c == '_' || c == '-'
        }
}

/// The text that the `Debug` of `str` gives of a text.
pub uninterp spec fn escaped(text: Seq<char>) -> Seq<char>;

/// A text in quotes, with what needs it escaped: nothing in a plain word does.
pub open spec fn in_quotes(text: Seq<char>) -> Seq<char> {
    if plain_word(text) {
        "\""@ + text + "\""@
    } else {
        escaped(text)
    }
}

/// How the type of a message is shown.
pub open spec fn shown(kind: Option<Seq<char>>) -> Seq<char> {
    match kind {
        Some(kind) => "Some("@ + in_quotes(kind) + ")"@,
        None => "None"@,
    }
}

/// Formats an optional text with the `Debug` of `Option<&str>`. It gives no text as
/// `None`, and a text as the `Debug` of `str` does, inside `Some(` and `)`. That puts it in
/// quotes; in a word of letters and digits of ASCII, underscores and hyphens there is
/// nothing to escape. What it gives of other texts is named, as a function of the text
/// alone.
#[verifier::external_body]
fn debug_optional_text(text: Option<&str>) -> (debug: String)
    ensures
        match text {
            Some(t) => debug@ == "Some("@ + (if plain_word(t@) {
                "\""@ + t@ + "\""@
            } else {
                escaped(t@)
            }) + ")"@,
            None => debug@ == "None"@,
        },
{
    format!("{:?}", text)
}

/// The event that a message of the daemon stands for.
pub open spec fn message_event(message: JsonTree) -> IpcEventView {
    match message.text_at("type"@) {
        Some(kind) => if kind == "state"@ {
            IpcEventView::State(message.text_or("state"@, "idle"@))
        } else if kind == "response"@ {
            IpcEventView::ResponseChunk {
                content: message.text_or("content"@, ""@),
                done: message.bool_or("done"@, true),
            }
        } else if kind == "wake_word_detected"@ {
            IpcEventView::WakeWordDetected
        } else if kind == "confirmation_request"@ {
            IpcEventView::ConfirmationRequest {
                id: message.text_or("id"@, ""@),
                tool_names: texts_among(message.items_at("tools"@)),
            }
        } else if kind == "confirmation_list"@ {
            IpcEventView::ConfirmationList(message.items_at("confirmations"@))
        } else if kind == "config_updated"@ {
            IpcEventView::ConfigUpdated {
                key: message.text_or("key"@, ""@),
                value: message.text_or("value"@, ""@),
            }
        } else if kind == "config_error"@ {
            IpcEventView::ConfigError {
                key: message.text_or("key"@, ""@),
                message: message.text_or("message"@, ""@),
            }
        } else if kind == "ack"@ {
            IpcEventView::Ack
        } else if kind == "error"@ {
            IpcEventView::Error(message.text_or("message"@, "Unknown error"@))
        } else if kind == "session_list"@ {
            IpcEventView::SessionList(message.items_at("sessions"@))
        } else if kind == "session_switched"@ {
            IpcEventView::SessionSwitched {
                session: message.field_or_null("session"@),
                messages: message.items_at("messages"@),
            }
        } else if kind == "session_error"@ {
            IpcEventView::SessionError(message.text_or("message"@, "Unknown session error"@))
        } else if kind == "settings"@ {
            IpcEventView::Settings {
                confirmation_mode: message.text_or("confirmation_mode"@, "smart"@),
                wake_chime_path: message.text_or("wake_chime_path"@, ""@),
            }
        } else if kind == "provider_list"@ {
            IpcEventView::ProviderList(message.items_at("providers"@))
        } else if kind == "provider_error"@ {
            IpcEventView::ProviderError(message.text_or("message"@, "Unknown provider error"@))
        } else if kind == "client_list"@ {
            IpcEventView::ClientList(texts_among(message.items_at("clients"@)))
        } else if kind == "DAEMON_SHUTDOWN"@ {
            IpcEventView::DaemonShutdown {
                state: message.text_or("state"@, "idle"@),
                goals: message.items_at("goals"@),
                session_id: message.text_at("session_id"@),
                timestamp_bits: message.float_bits_at("timestamp"@),
            }
        } else if kind == "ping"@ || kind == "pong"@ {
            IpcEventView::State("idle"@)
        } else {
            IpcEventView::Error("unknown type: "@ + shown(Some(kind)))
        },
        None => IpcEventView::Error("unknown type: "@ + shown(None)),
    }
}

/// The event that a line from the daemon stands for, given what the line reads as.
pub open spec fn line_event(line: Seq<char>, document: Option<JsonTree>) -> IpcEventView {
    match document {
        Some(message) => message_event(message),
        None => IpcEventView::Error("invalid JSON: "@ + line),
    }
}

/// The error that a message of an unknown type stands for, given the type as it is shown.
pub fn unknown_type(kind: &str) -> (event: IpcEvent)
    ensures
        event@ == IpcEventView::Error("unknown type: "@ + kind@),
{
    IpcEvent::Error("unknown type: ".to_owned().concat(kind))
}

/// Gives the event that a message of the daemon stands for.
///
/// Every message gives an event: one of an unknown type, or of none, gives an error.
pub fn interpret_message(value: &Json) -> (event: IpcEvent)
    ensures
        event@ == message_event(value@),
{
    let kind: &str = match value.text_at("type") {
        Some(kind) => kind,
        None => return unknown_type(debug_optional_text(None).as_str()),
    };
    if same_text(kind, "state") {
        IpcEvent::State(value.text_or("state", "idle"))
    } else if same_text(kind, "response") {
        IpcEvent::ResponseChunk {
            content: value.text_or("content", ""),
            done: value.bool_or("done", true),
        }
    } else if same_text(kind, "wake_word_detected") {
        IpcEvent::WakeWordDetected
    } else if same_text(kind, "confirmation_request") {
        IpcEvent::ConfirmationRequest {
            id: value.text_or("id", ""),
            tool_names: value.texts_at("tools"),
        }
    } else if same_text(kind, "confirmation_list") {
        IpcEvent::ConfirmationList(value.items_at("confirmations"))
    } else if same_text(kind, "config_updated") {
        IpcEvent::ConfigUpdated { key: value.text_or("key", ""), value: value.text_or("value", "") }
    } else if same_text(kind, "config_error") {
        IpcEvent::ConfigError {
            key: value.text_or("key", ""),
            message: value.text_or("message", ""),
        }
    } else if same_text(kind, "ack") {
        IpcEvent::Ack
    } else if same_text(kind, "error") {
        IpcEvent::Error(value.text_or("message", "Unknown error"))
    } else if same_text(kind, "session_list") {
        IpcEvent::SessionList(value.items_at("sessions"))
    } else if same_text(kind, "session_switched") {
        IpcEvent::SessionSwitched {
            session: value.field_or_null("session"),
            messages: value.items_at("messages"),
        }
    } else if same_text(kind, "session_error") {
        IpcEvent::SessionError(value.text_or("message", "Unknown session error"))
    } else if same_text(kind, "settings") {
        IpcEvent::Settings {
            confirmation_mode: value.text_or("confirmation_mode", "smart"),
            wake_chime_path: value.text_or("wake_chime_path", ""),
        }
    } else if same_text(kind, "provider_list") {
        IpcEvent::ProviderList(value.items_at("providers"))
    } else if same_text(kind, "provider_error") {
        IpcEvent::ProviderError(value.text_or("message", "Unknown provider error"))
    } else if same_text(kind, "client_list") {
        IpcEvent::ClientList(value.texts_at("clients"))
    } else if same_text(kind, "DAEMON_SHUTDOWN") {
        let session_id: Option<String> = match value.text_at("session_id") {
            Some(id) => Some(id.to_owned()),
            None => None,
        };
        IpcEvent::DaemonShutdown {
            state: value.text_or("state", "idle"),
            goals: value.items_at("goals"),
            session_id,
            timestamp_bits: value.float_bits_at("timestamp"),
        }
    } else if same_text(kind, "ping") || same_text(kind, "pong") {
        IpcEvent::State("idle".to_owned())
    } else {
        unknown_type(debug_optional_text(Some(kind)).as_str())
    }
}

/// Gives the event that a line from the daemon stands for, given what the line reads
/// as: `None` where it is no JSON.
///
/// A line that is no JSON gives an error that holds the line.
pub fn interpret_line(line: &str, document: Option<Json>) -> (event: IpcEvent)
    ensures
        event@ == line_event(line@, document.deep_view()),
{
    match document {
        Some(value) => interpret_message(&value),
        None => IpcEvent::Error("invalid JSON: ".to_owned().concat(line)),
    }
}

/// Reads a line from the daemon.
pub fn parse_daemon_message(line: &str) -> (event: IpcEvent)
    ensures
        event@ == line_event(line@, json_document(line@)),
{
    interpret_line(line, parse_json(line))
}

/// The state of the connection is no matter of what the daemon writes: no message
/// stands for its beginning or its end.
pub proof fn law_messages_leave_the_connection(line: Seq<char>, document: Option<JsonTree>)
    ensures
        line_event(line, document) != IpcEventView::Connected,
        line_event(line, document) != IpcEventView::Disconnected,
{
}

/// The text that some fields hold under a key.
pub open spec fn told_text(fields: Map<Seq<char>, JsonTree>, key: Seq<char>) -> Option<Seq<char>> {
    if fields.contains_key(key) && fields[key] is Text {
        Some(fields[key]->Text_0)
    } else {
        None
    }
}

/// Whether a text is the one that some fields hold under a key, or stands in for it where
/// they hold none.
pub open spec fn is_told(
    fields: Map<Seq<char>, JsonTree>,
    key: Seq<char>,
    default: Seq<char>,
    text: Seq<char>,
) -> bool {
    &&& told_text(fields, key) matches Some(told) ==> text == told
    &&& told_text(fields, key) is None ==> text == default
}

/// Whether some items are those of the list that some fields hold under a key, all of them
/// and in order; none where they hold no list there.
pub open spec fn are_told(
    fields: Map<Seq<char>, JsonTree>,
    key: Seq<char>,
    items: Seq<JsonTree>,
) -> bool {
    if fields.contains_key(key) && fields[key] is List {
        items == fields[key]->List_0
    } else {
        items.len() == 0
    }
}

/// Whether some texts are the texts of the list that some fields hold under a key; all of
/// its items, where it is a list of texts.
pub open spec fn are_told_texts(
    fields: Map<Seq<char>, JsonTree>,
    key: Seq<char>,
    texts: Seq<Seq<char>>,
) -> bool {
    if fields.contains_key(key) && fields[key] is List {
        let items = fields[key]->List_0;
        &&& texts == texts_among(items)
        &&& (forall|i: int| 0 <= i < items.len() ==> (#[trigger] items[i]) is Text)
            ==> texts.len() == items.len() && forall|i: int|
            0 <= i < items.len() ==> #[trigger] items[i] == JsonTree::Text(texts[i])
    } else {
        texts.len() == 0
    }
}

/// A list of texts alone is told with all of its items.
proof fn lemma_all_texts_are_told(items: Seq<JsonTree>)
    requires
        forall|i: int| 0 <= i < items.len() ==> (#[trigger] items[i]) is Text,
    ensures
        texts_among(items).len() == items.len(),
        forall|i: int|
            0 <= i < items.len() ==> #[trigger] items[i] == JsonTree::Text(texts_among(items)[i]),
    decreases items.len(),
{
    if items.len() > 0 {
        let front = items.drop_last();
        assert(forall|i: int| 0 <= i < front.len() ==> front[i] == items[i]);
        lemma_all_texts_are_told(front);
        assert(items.last() == items[items.len() - 1]);
        assert(texts_among(items).drop_last() =~= texts_among(front));
        assert forall|i: int| 0 <= i < items.len() implies #[trigger] items[i] == JsonTree::Text(
            texts_among(items)[i],
        ) by {
            if i < front.len() {
                assert(front[i] == JsonTree::Text(texts_among(front)[i]));
            }
        }
    }
}

/// The types of messages, spelt out far enough to be told apart.
proof fn lemma_kinds()
    ensures
        "state"@.len() == 5 && "state"@[0] == 's' && "state"@[1] == 't',
        "response"@.len() == 8 && "response"@[0] == 'r' && "response"@[1] == 'e',
        "wake_word_detected"@.len() == 18 && "wake_word_detected"@[0] == 'w' && "wake_word_detected"@[1] == 'a',
        "confirmation_request"@.len() == 20 && "confirmation_request"@[0] == 'c' && "confirmation_request"@[1] == 'o',
        "confirmation_list"@.len() == 17 && "confirmation_list"@[0] == 'c' && "confirmation_list"@[1] == 'o',
        "config_updated"@.len() == 14 && "config_updated"@[0] == 'c' && "config_updated"@[1] == 'o',
        "config_error"@.len() == 12 && "config_error"@[0] == 'c' && "config_error"@[1] == 'o',
        "ack"@.len() == 3 && "ack"@[0] == 'a' && "ack"@[1] == 'c',
        "error"@.len() == 5 && "error"@[0] == 'e' && "error"@[1] == 'r',
        "session_list"@.len() == 12 && "session_list"@[0] == 's' && "session_list"@[1] == 'e',
        "session_switched"@.len() == 16 && "session_switched"@[0] == 's' && "session_switched"@[1] == 'e',
        "session_error"@.len() == 13 && "session_error"@[0] == 's' && "session_error"@[1] == 'e',
        "settings"@.len() == 8 && "settings"@[0] == 's' && "settings"@[1] == 'e',
        "provider_list"@.len() == 13 && "provider_list"@[0] == 'p' && "provider_list"@[1] == 'r',
        "provider_error"@.len() == 14 && "provider_error"@[0] == 'p' && "provider_error"@[1] == 'r',
        "client_list"@.len() == 11 && "client_list"@[0] == 'c' && "client_list"@[1] == 'l',
        "DAEMON_SHUTDOWN"@.len() == 15 && "DAEMON_SHUTDOWN"@[0] == 'D' && "DAEMON_SHUTDOWN"@[1] == 'A',
        "ping"@.len() == 4 && "ping"@[0] == 'p' && "ping"@[1] == 'i',
        "pong"@.len() == 4 && "pong"@[0] == 'p' && "pong"@[1] == 'o',
{
    reveal_strlit("state");
    reveal_strlit("response");
    reveal_strlit("wake_word_detected");
    reveal_strlit("confirmation_request");
    reveal_strlit("confirmation_list");
    reveal_strlit("config_updated");
    reveal_strlit("config_error");
    reveal_strlit("ack");
    reveal_strlit("error");
    reveal_strlit("session_list");
    reveal_strlit("session_switched");
    reveal_strlit("session_error");
    reveal_strlit("settings");
    reveal_strlit("provider_list");
    reveal_strlit("provider_error");
    reveal_strlit("client_list");
    reveal_strlit("DAEMON_SHUTDOWN");
    reveal_strlit("ping");
    reveal_strlit("pong");
}

/// A message of a state gives the state that it names, idle where it names none.
pub proof fn law_a_state_is_read(fields: Map<Seq<char>, JsonTree>)
    requires
        fields.contains_key("type"@),
        fields["type"@] == JsonTree::Text("state"@),
    ensures
        message_event(JsonTree::Object(fields)) matches IpcEventView::State(state) && is_told(
            fields,
            "state"@,
            "idle"@,
            state,
        ),
{
    lemma_kinds();
}

/// A part of an answer is given as it is. Unless the message says that more follows, it is
/// the last.
pub proof fn law_a_part_of_an_answer_is_read(fields: Map<Seq<char>, JsonTree>)
    requires
        fields.contains_key("type"@),
        fields["type"@] == JsonTree::Text("response"@),
    ensures
        message_event(JsonTree::Object(fields)) matches IpcEventView::ResponseChunk { content, done }
            && is_told(fields, "content"@, ""@, content) && (done <==> !(fields.contains_key("done"@)
            && fields["done"@] == JsonTree::Bool(false))),
{
    lemma_kinds();
}

/// A confirmation that is asked for is given with its id and the tools that it is for.
pub proof fn law_a_confirmation_request_is_read(fields: Map<Seq<char>, JsonTree>)
    requires
        fields.contains_key("type"@),
        fields["type"@] == JsonTree::Text("confirmation_request"@),
    ensures
        message_event(JsonTree::Object(fields)) matches IpcEventView::ConfirmationRequest { id, tool_names }
            && is_told(fields, "id"@, ""@, id) && are_told_texts(fields, "tools"@, tool_names),
{
    lemma_kinds();
    if fields.contains_key("tools"@) && fields["tools"@] is List {
        let items = fields["tools"@]->List_0;
        if forall|i: int| 0 <= i < items.len() ==> (#[trigger] items[i]) is Text {
            lemma_all_texts_are_told(items);
        }
    }
}

/// The clients of the daemon are all given, in order.
pub proof fn law_clients_are_read(fields: Map<Seq<char>, JsonTree>)
    requires
        fields.contains_key("type"@),
        fields["type"@] == JsonTree::Text("client_list"@),
    ensures
        message_event(JsonTree::Object(fields)) matches IpcEventView::ClientList(clients)
            && are_told_texts(fields, "clients"@, clients),
{
    lemma_kinds();
    if fields.contains_key("clients"@) && fields["clients"@] is List {
        let items = fields["clients"@]->List_0;
        if forall|i: int| 0 <= i < items.len() ==> (#[trigger] items[i]) is Text {
            lemma_all_texts_are_told(items);
        }
    }
}

/// The open confirmations are all given, in order and as they are.
pub proof fn law_confirmations_are_read(fields: Map<Seq<char>, JsonTree>)
    requires
        fields.contains_key("type"@),
        fields["type"@] == JsonTree::Text("confirmation_list"@),
    ensures
        message_event(JsonTree::Object(fields)) matches IpcEventView::ConfirmationList(list)
            && are_told(fields, "confirmations"@, list),
{
    lemma_kinds();
}

/// The sessions are all given, in order and as they are.
pub proof fn law_sessions_are_read(fields: Map<Seq<char>, JsonTree>)
    requires
        fields.contains_key("type"@),
        fields["type"@] == JsonTree::Text("session_list"@),
    ensures
        message_event(JsonTree::Object(fields)) matches IpcEventView::SessionList(list)
            && are_told(fields, "sessions"@, list),
{
    lemma_kinds();
}

/// The model providers are all given, in order and as they are.
pub proof fn law_providers_are_read(fields: Map<Seq<char>, JsonTree>)
    requires
        fields.contains_key("type"@),
        fields["type"@] == JsonTree::Text("provider_list"@),
    ensures
        message_event(JsonTree::Object(fields)) matches IpcEventView::ProviderList(list)
            && are_told(fields, "providers"@, list),
{
    lemma_kinds();
}

/// An error of the daemon is given with what it says.
pub proof fn law_an_error_is_read(fields: Map<Seq<char>, JsonTree>)
    requires
        fields.contains_key("type"@),
        fields["type"@] == JsonTree::Text("error"@),
    ensures
        message_event(JsonTree::Object(fields)) matches IpcEventView::Error(message) && is_told(
            fields,
            "message"@,
            "Unknown error"@,
            message,
        ),
{
    lemma_kinds();
}

/// An error about a session is given with what it says.
pub proof fn law_a_session_error_is_read(fields: Map<Seq<char>, JsonTree>)
    requires
        fields.contains_key("type"@),
        fields["type"@] == JsonTree::Text("session_error"@),
    ensures
        message_event(JsonTree::Object(fields)) matches IpcEventView::SessionError(message) && is_told(
            fields,
            "message"@,
            "Unknown session error"@,
            message,
        ),
{
    lemma_kinds();
}

/// An error about a model provider is given with what it says.
pub proof fn law_a_provider_error_is_read(fields: Map<Seq<char>, JsonTree>)
    requires
        fields.contains_key("type"@),
        fields["type"@] == JsonTree::Text("provider_error"@),
    ensures
        message_event(JsonTree::Object(fields)) matches IpcEventView::ProviderError(message) && is_told(
            fields,
            "message"@,
            "Unknown provider error"@,
            message,
        ),
{
    lemma_kinds();
}

/// A setting of the daemon that changed is given with its key and its value.
pub proof fn law_a_changed_setting_is_read(fields: Map<Seq<char>, JsonTree>)
    requires
        fields.contains_key("type"@),
        fields["type"@] == JsonTree::Text("config_updated"@),
    ensures
        message_event(JsonTree::Object(fields)) matches IpcEventView::ConfigUpdated { key, value }
            && is_told(fields, "key"@, ""@, key) && is_told(fields, "value"@, ""@, value),
{
    lemma_kinds();
}

/// A setting that the daemon refused is given with its key and the reason.
pub proof fn law_a_refused_setting_is_read(fields: Map<Seq<char>, JsonTree>)
    requires
        fields.contains_key("type"@),
        fields["type"@] == JsonTree::Text("config_error"@),
    ensures
        message_event(JsonTree::Object(fields)) matches IpcEventView::ConfigError { key, message }
            && is_told(fields, "key"@, ""@, key) && is_told(fields, "message"@, ""@, message),
{
    lemma_kinds();
}

/// The session that was switched to is given as it is, with all of its messages.
pub proof fn law_a_switch_of_sessions_is_read(fields: Map<Seq<char>, JsonTree>)
    requires
        fields.contains_key("type"@),
        fields["type"@] == JsonTree::Text("session_switched"@),
    ensures
        message_event(JsonTree::Object(fields)) matches IpcEventView::SessionSwitched {
            session,
            messages,
        } && (if fields.contains_key("session"@) {
            session == fields["session"@]
        } else {
            session == JsonTree::Null
        }) && are_told(fields, "messages"@, messages),
{
    lemma_kinds();
}

/// The settings of the daemon are given as it names them: the mode in which it asks for
/// confirmation, and the sound of its wake chime.
pub proof fn law_settings_are_read(fields: Map<Seq<char>, JsonTree>)
    requires
        fields.contains_key("type"@),
        fields["type"@] == JsonTree::Text("settings"@),
    ensures
        message_event(JsonTree::Object(fields)) matches IpcEventView::Settings {
            confirmation_mode,
            wake_chime_path,
        } && is_told(fields, "confirmation_mode"@, "smart"@, confirmation_mode) && is_told(
            fields,
            "wake_chime_path"@,
            ""@,
            wake_chime_path,
        ),
{
    lemma_kinds();
}

/// That the daemon shuts down is given with all that it says of it. The time is the float
/// that it names, or that of the integer that it names.
pub proof fn law_a_shutdown_is_read(fields: Map<Seq<char>, JsonTree>)
    requires
        fields.contains_key("type"@),
        fields["type"@] == JsonTree::Text("DAEMON_SHUTDOWN"@),
    ensures
        message_event(JsonTree::Object(fields)) matches IpcEventView::DaemonShutdown {
            state,
            goals,
            session_id,
            timestamp_bits,
        } && is_told(fields, "state"@, "idle"@, state) && are_told(fields, "goals"@, goals)
            && session_id == told_text(fields, "session_id"@) && (if fields.contains_key(
            "timestamp"@,
        ) && fields["timestamp"@] is Number {
            timestamp_bits == match fields["timestamp"@]->Number_0 {
                NumberTree::Float(bits) => bits,
                NumberTree::Integer(n) => integer_float_bits(n),
            }
        } else {
            timestamp_bits == 0
        }),
{
    lemma_kinds();
}

/// Settings that differ in what the daemon names are different events: nothing of them is
/// passed over.
pub proof fn law_settings_that_differ_are_told_apart(
    a: Map<Seq<char>, JsonTree>,
    b: Map<Seq<char>, JsonTree>,
)
    requires
        a.contains_key("type"@) && a["type"@] == JsonTree::Text("settings"@),
        b.contains_key("type"@) && b["type"@] == JsonTree::Text("settings"@),
        told_text(a, "confirmation_mode"@) is Some && told_text(b, "confirmation_mode"@) is Some,
        told_text(a, "wake_chime_path"@) is Some && told_text(b, "wake_chime_path"@) is Some,
    ensures
        message_event(JsonTree::Object(a)) == message_event(JsonTree::Object(b)) <==> told_text(
            a,
            "confirmation_mode"@,
        ) == told_text(b, "confirmation_mode"@) && told_text(a, "wake_chime_path"@) == told_text(
            b,
            "wake_chime_path"@,
        ),
{
    law_settings_are_read(a);
    law_settings_are_read(b);
}

/// Messages that say nothing but their type: the wake word, an acknowledgement, and the two
/// that keep the connection up, which read as an idle daemon.
pub proof fn law_bare_messages_are_read(fields: Map<Seq<char>, JsonTree>)
    requires
        fields.contains_key("type"@),
    ensures
        fields["type"@] == JsonTree::Text("wake_word_detected"@) ==> message_event(
            JsonTree::Object(fields),
        ) == IpcEventView::WakeWordDetected,
        fields["type"@] == JsonTree::Text("ack"@) ==> message_event(JsonTree::Object(fields))
            == IpcEventView::Ack,
        fields["type"@] == JsonTree::Text("ping"@) || fields["type"@] == JsonTree::Text("pong"@)
            ==> message_event(JsonTree::Object(fields)) == IpcEventView::State("idle"@),
{
    lemma_kinds();
}

/// Whether a text is a type of a message.
pub open spec fn is_known_type(kind: Seq<char>) -> bool {
    ||| kind == "state"@
    ||| kind == "response"@
    ||| kind == "wake_word_detected"@
    ||| kind == "confirmation_request"@
    ||| kind == "confirmation_list"@
    ||| kind == "config_updated"@
    ||| kind == "config_error"@
    ||| kind == "ack"@
    ||| kind == "error"@
    ||| kind == "session_list"@
    ||| kind == "session_switched"@
    ||| kind == "session_error"@
    ||| kind == "settings"@
    ||| kind == "provider_list"@
    ||| kind == "provider_error"@
    ||| kind == "client_list"@
    ||| kind == "DAEMON_SHUTDOWN"@
    ||| kind == "ping"@
    ||| kind == "pong"@
}

/// A line that does not read is an error that shows the line. A message without a type, or
/// of a type that there is none of, is an error that shows the type.
pub proof fn law_what_is_not_understood_is_shown(
    line: Seq<char>,
    message: JsonTree,
    fields: Map<Seq<char>, JsonTree>,
    kind: Seq<char>,
)
    ensures
        line_event(line, Some(message)) == message_event(message),
        line_event(line, None) == IpcEventView::Error("invalid JSON: "@ + line),
        !(message is Object) ==> message_event(message) == IpcEventView::Error(
            "unknown type: "@ + "None"@,
        ),
        told_text(fields, "type"@) is None ==> message_event(JsonTree::Object(fields))
            == IpcEventView::Error("unknown type: "@ + "None"@),
        told_text(fields, "type"@) == Some(kind) && !is_known_type(kind) ==> message_event(
            JsonTree::Object(fields),
        ) == IpcEventView::Error(
            "unknown type: "@ + ("Some("@ + (if plain_word(kind) {
                "\""@ + kind + "\""@
            } else {
                escaped(kind)
            }) + ")"@),
        ),
{
}

/// What an event holds is what its view says.
pub proof fn law_events_are_seen_as_they_are(
    a: String,
    b: String,
    flag: bool,
    texts: Vec<String>,
    items: Vec<Json>,
    value: Json,
    id: Option<String>,
    bits: u64,
)
    ensures
        IpcEvent::State(a)@ == IpcEventView::State(a@),
        (IpcEvent::ResponseChunk { content: a, done: flag })@ == (IpcEventView::ResponseChunk {
            content: a@,
            done: flag,
        }),
        (IpcEvent::ConfirmationRequest { id: a, tool_names: texts })@ == (
        IpcEventView::ConfirmationRequest { id: a@, tool_names: texts.deep_view() }),
        IpcEvent::ConfirmationList(items)@ == IpcEventView::ConfirmationList(items.deep_view()),
        (IpcEvent::ConfigUpdated { key: a, value: b })@ == (IpcEventView::ConfigUpdated {
            key: a@,
            value: b@,
        }),
        (IpcEvent::ConfigError { key: a, message: b })@ == (IpcEventView::ConfigError {
            key: a@,
            message: b@,
        }),
        IpcEvent::Error(a)@ == IpcEventView::Error(a@),
        IpcEvent::SessionList(items)@ == IpcEventView::SessionList(items.deep_view()),
        (IpcEvent::SessionSwitched { session: value, messages: items })@ == (
        IpcEventView::SessionSwitched { session: value@, messages: items.deep_view() }),
        IpcEvent::SessionError(a)@ == IpcEventView::SessionError(a@),
        (IpcEvent::Settings { confirmation_mode: a, wake_chime_path: b })@ == (
        IpcEventView::Settings { confirmation_mode: a@, wake_chime_path: b@ }),
        IpcEvent::ProviderList(items)@ == IpcEventView::ProviderList(items.deep_view()),
        IpcEvent::ProviderError(a)@ == IpcEventView::ProviderError(a@),
        IpcEvent::ClientList(texts)@ == IpcEventView::ClientList(texts.deep_view()),
        (IpcEvent::DaemonShutdown {
            state: a,
            goals: items,
            session_id: id,
            timestamp_bits: bits,
        })@ == (IpcEventView::DaemonShutdown {
            state: a@,
            goals: items.deep_view(),
            session_id: id.deep_view(),
            timestamp_bits: bits,
        }),
        IpcEvent::Connected@ == IpcEventView::Connected,
        IpcEvent::Disconnected@ == IpcEventView::Disconnected,
        IpcEvent::WakeWordDetected@ == IpcEventView::WakeWordDetected,
        IpcEvent::Ack@ == IpcEventView::Ack,
{
}

} // verus!
