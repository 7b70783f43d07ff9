//! What the client asks of the daemon, and how it is written on the wire.

use vstd::prelude::*;
use vstd::string::*;

use crate::json::{
    entry_map, is_below_top, json_document, json_text, json_tree, list_trees, number_content,
    plain_to_depth, print_json, readable_to_depth, same_but_floats, unsigned_number, Json, JsonTree,
    NumberTree, MAX_NESTING,
};

verus! {

/// A request to the daemon.
#[derive(Debug, PartialEq)]
pub enum IpcCommand {
    SendMessage(String),
    StartListening,
    StopListening,
    StopStream,
    ConfirmationResponse { id: String, approved: bool },
    ListConfirmations,
    ApproveConfirmation { id: String },
    DenyConfirmation { id: String },
    PartialApproveConfirmation { id: String, approved_indices: Vec<usize> },
    ApproveAllConfirmations,
    SetWakeChimePath { path: String },
    ResetWakeChimePath,
    ListSessions,
    CreateSession { title: Option<String> },
    SwitchSession { id: String },
    RenameSession { id: String, title: String },
    DeleteSession { id: String },
    GetSettings,
    SetConfirmationMode { mode: String },
    ListProviders,
    AddProvider {
        ptype: String,
        model: String,
        name: Option<String>,
        url: Option<String>,
        api_key: Option<String>,
        temperature: Option<serde_json::Number>,
    },
    EditProvider { name: String, fields: Json },
    RemoveProvider { name: String },
    ListClients,
    RequestDaemonShutdown,
}

/// The content of a request.
pub enum IpcCommandView {
    SendMessage(Seq<char>),
    StartListening,
    StopListening,
    StopStream,
    ConfirmationResponse { id: Seq<char>, approved: bool },
    ListConfirmations,
    ApproveConfirmation { id: Seq<char> },
    DenyConfirmation { id: Seq<char> },
    PartialApproveConfirmation { id: Seq<char>, approved_indices: Seq<usize> },
    ApproveAllConfirmations,
    SetWakeChimePath { path: Seq<char> },
    ResetWakeChimePath,
    ListSessions,
    CreateSession { title: Option<Seq<char>> },
    SwitchSession { id: Seq<char> },
    RenameSession { id: Seq<char>, title: Seq<char> },
    DeleteSession { id: Seq<char> },
    GetSettings,
    SetConfirmationMode { mode: Seq<char> },
    ListProviders,
    AddProvider {
        ptype: Seq<char>,
        model: Seq<char>,
        name: Option<Seq<char>>,
        url: Option<Seq<char>>,
        api_key: Option<Seq<char>>,
        temperature: Option<NumberTree>,
    },
    EditProvider { name: Seq<char>, fields: JsonTree },
    RemoveProvider { name: Seq<char> },
    ListClients,
    RequestDaemonShutdown,
}

impl View for IpcCommand {
    type V = IpcCommandView;

    open spec fn view(&self) -> IpcCommandView {
        match *self {
            IpcCommand::SendMessage(content) => IpcCommandView::SendMessage(content@),
            IpcCommand::StartListening => IpcCommandView::StartListening,
            IpcCommand::StopListening => IpcCommandView::StopListening,
            IpcCommand::StopStream => IpcCommandView::StopStream,
            IpcCommand::ConfirmationResponse { id, approved } => {
                IpcCommandView::ConfirmationResponse { id: id@, approved }
            },
            IpcCommand::ListConfirmations => IpcCommandView::ListConfirmations,
            IpcCommand::ApproveConfirmation { id } => IpcCommandView::ApproveConfirmation {
                id: id@,
            },
            IpcCommand::DenyConfirmation { id } => IpcCommandView::DenyConfirmation { id: id@ },
            IpcCommand::PartialApproveConfirmation { id, approved_indices } => {
                IpcCommandView::PartialApproveConfirmation {
                    id: id@,
                    approved_indices: approved_indices@,
                }
            },
            IpcCommand::ApproveAllConfirmations => IpcCommandView::ApproveAllConfirmations,
            IpcCommand::SetWakeChimePath { path } => IpcCommandView::SetWakeChimePath {
                path: path@,
            },
            IpcCommand::ResetWakeChimePath => IpcCommandView::ResetWakeChimePath,
            IpcCommand::ListSessions => IpcCommandView::ListSessions,
            IpcCommand::CreateSession { title } => IpcCommandView::CreateSession {
                title: title.deep_view(),
            },
            IpcCommand::SwitchSession { id } => IpcCommandView::SwitchSession { id: id@ },
            IpcCommand::RenameSession { id, title } => IpcCommandView::RenameSession {
                id: id@,
                title: title@,
            },
            IpcCommand::DeleteSession { id } => IpcCommandView::DeleteSession { id: id@ },
            IpcCommand::GetSettings => IpcCommandView::GetSettings,
            IpcCommand::SetConfirmationMode { mode } => IpcCommandView::SetConfirmationMode {
                mode: mode@,
            },
            IpcCommand::ListProviders => IpcCommandView::ListProviders,
            IpcCommand::AddProvider { ptype, model, name, url, api_key, temperature } => {
                IpcCommandView::AddProvider {
                    ptype: ptype@,
                    model: model@,
                    name: name.deep_view(),
                    url: url.deep_view(),
                    api_key: api_key.deep_view(),
                    temperature: match temperature {
                        Some(number) => Some(number_content(number)),
                        None => None,
                    },
                }
            },
            IpcCommand::EditProvider { name, fields } => IpcCommandView::EditProvider {
                name: name@,
                fields: fields@,
            },
            IpcCommand::RemoveProvider { name } => IpcCommandView::RemoveProvider { name: name@ },
            IpcCommand::ListClients => IpcCommandView::ListClients,
            IpcCommand::RequestDaemonShutdown => IpcCommandView::RequestDaemonShutdown,
        }
    }
}

impl DeepView for IpcCommand {
    type V = IpcCommandView;

    open spec fn deep_view(&self) -> IpcCommandView {
        self@
    }
}

/// The type that a request carries on the wire.
pub open spec fn command_type(command: IpcCommandView) -> Seq<char> {
    match command {
        IpcCommandView::SendMessage(_) => "message"@,
        IpcCommandView::StartListening => "start_listening"@,
        IpcCommandView::StopListening => "stop_listening"@,
        IpcCommandView::StopStream => "stop_stream"@,
        IpcCommandView::ConfirmationResponse { .. } => "confirmation_response"@,
        IpcCommandView::ListConfirmations => "list_confirmations"@,
        IpcCommandView::ApproveConfirmation { .. } => "approve_confirmation"@,
        IpcCommandView::DenyConfirmation { .. } => "deny_confirmation"@,
        IpcCommandView::PartialApproveConfirmation { .. } => "partial_approve_confirmation"@,
        IpcCommandView::ApproveAllConfirmations => "approve_all_confirmations"@,
        IpcCommandView::SetWakeChimePath { .. } => "set_wake_chime_path"@,
        IpcCommandView::ResetWakeChimePath => "reset_wake_chime_path"@,
        IpcCommandView::ListSessions => "list_sessions"@,
        IpcCommandView::CreateSession { .. } => "create_session"@,
        IpcCommandView::SwitchSession { .. } => "switch_session"@,
        IpcCommandView::RenameSession { .. } => "rename_session"@,
        IpcCommandView::DeleteSession { .. } => "delete_session"@,
        IpcCommandView::GetSettings => "get_settings"@,
        IpcCommandView::SetConfirmationMode { .. } => "set_confirmation_mode"@,
        IpcCommandView::ListProviders => "list_providers"@,
        IpcCommandView::AddProvider { .. } => "add_provider"@,
        IpcCommandView::EditProvider { .. } => "edit_provider"@,
        IpcCommandView::RemoveProvider { .. } => "remove_provider"@,
        IpcCommandView::ListClients => "list_clients"@,
        IpcCommandView::RequestDaemonShutdown => "shutdown_request"@,
    }
}

/// An optional text: null where there is none.
pub open spec fn optional_text_tree(text: Option<Seq<char>>) -> JsonTree {
    match text {
        Some(t) => JsonTree::Text(t),
        None => JsonTree::Null,
    }
}

/// An optional number: null where there is none.
pub open spec fn optional_number_tree(number: Option<NumberTree>) -> JsonTree {
    match number {
        Some(n) => JsonTree::Number(n),
        None => JsonTree::Null,
    }
}

/// Indices as a list of numbers.
pub open spec fn index_trees(indices: Seq<usize>) -> Seq<JsonTree> {
    indices.map_values(|n: usize| JsonTree::Number(NumberTree::Integer(n as int)))
}

/// The fields of the object that a request is on the wire.
pub open spec fn command_fields(command: IpcCommandView) -> Map<Seq<char>, JsonTree> {
    let typed = Map::<Seq<char>, JsonTree>::empty().insert(
        "type"@,
        JsonTree::Text(command_type(command)),
    );
    match command {
        IpcCommandView::SendMessage(content) => typed.insert("content"@, JsonTree::Text(content)),
        IpcCommandView::ConfirmationResponse { id, approved } => typed.insert(
            "id"@,
            JsonTree::Text(id),
        ).insert("approved"@, JsonTree::Bool(approved)),
        IpcCommandView::ApproveConfirmation { id } => typed.insert("id"@, JsonTree::Text(id)),
        IpcCommandView::DenyConfirmation { id } => typed.insert("id"@, JsonTree::Text(id)),
        IpcCommandView::PartialApproveConfirmation { id, approved_indices } => typed.insert(
            "id"@,
            JsonTree::Text(id),
        ).insert("approved_indices"@, JsonTree::List(index_trees(approved_indices))),
        IpcCommandView::SetWakeChimePath { path } => typed.insert("path"@, JsonTree::Text(path)),
        IpcCommandView::CreateSession { title } => typed.insert(
            "title"@,
            optional_text_tree(title),
        ),
        IpcCommandView::SwitchSession { id } => typed.insert("id"@, JsonTree::Text(id)),
        IpcCommandView::RenameSession { id, title } => typed.insert(
            "id"@,
            JsonTree::Text(id),
        ).insert("title"@, JsonTree::Text(title)),
        IpcCommandView::DeleteSession { id } => typed.insert("id"@, JsonTree::Text(id)),
        IpcCommandView::SetConfirmationMode { mode } => typed.insert("mode"@, JsonTree::Text(mode)),
        IpcCommandView::AddProvider { ptype, model, name, url, api_key, temperature } => {
            typed.insert("ptype"@, JsonTree::Text(ptype)).insert(
                "model"@,
                JsonTree::Text(model),
            ).insert("name"@, optional_text_tree(name)).insert(
                "url"@,
                optional_text_tree(url),
            ).insert("api_key"@, optional_text_tree(api_key)).insert(
                "temperature"@,
                optional_number_tree(temperature),
            )
        },
        IpcCommandView::EditProvider { name, fields } => typed.insert(
            "name"@,
            JsonTree::Text(name),
        ).insert("fields"@, fields),
        IpcCommandView::RemoveProvider { name } => typed.insert("name"@, JsonTree::Text(name)),
        _ => typed,
    }
}

/// The object that a request is on the wire.
pub open spec fn command_tree(command: IpcCommandView) -> JsonTree {
    JsonTree::Object(command_fields(command))
}

/// The line that a request is on the wire, with its newline.
pub open spec fn command_line_text(command: IpcCommandView) -> Seq<char> {
    json_text(command_tree(command)).push('\n')
}

/// An object of the wire under construction.
struct Fields {
    entries: Vec<(String, Json)>,
}

impl View for Fields {
    type V = Map<Seq<char>, JsonTree>;

    closed spec fn view(&self) -> Map<Seq<char>, JsonTree> {
        entry_map(self.entries@)
    }
}

impl Fields {
    /// An object that carries a type alone.
    fn typed(kind: &str) -> (fields: Fields)
        ensures
            fields@ == Map::<Seq<char>, JsonTree>::empty().insert("type"@, JsonTree::Text(kind@)),
    {
        let fields = Fields { entries: Vec::new() };
        fields.with("type", Json::Text(kind.to_owned()))
    }

    /// The object with one more field.
    fn with(self, key: &str, value: Json) -> (fields: Fields)
        ensures
            fields@ == self@.insert(key@, value@),
    {
        let mut entries = self.entries;
        let ghost before = entries@;
        entries.push((key.to_owned(), value));
        assert(entries@.drop_last() =~= before);
        Fields { entries }
    }

    fn with_text(self, key: &str, text: String) -> (fields: Fields)
        ensures
            fields@ == self@.insert(key@, JsonTree::Text(text@)),
    {
        self.with(key, Json::Text(text))
    }

    fn with_optional_text(self, key: &str, text: Option<String>) -> (fields: Fields)
        ensures
            fields@ == self@.insert(key@, optional_text_tree(text.deep_view())),
    {
        match text {
            Some(text) => self.with(key, Json::Text(text)),
            None => self.with(key, Json::Null),
        }
    }

    /// The object as a value.
    fn object(self) -> (json: Json)
        ensures
            json@ == JsonTree::Object(self@),
    {
        Json::Object(self.entries)
    }
}

/// Indices as a list of JSON numbers.
fn index_list(indices: &Vec<usize>) -> (list: Json)
    ensures
        list@ == JsonTree::List(index_trees(indices@)),
{
    let mut items: Vec<Json> = Vec::new();
    let mut i: usize = 0;
    while i < indices.len()
        invariant
            i <= indices.len(),
            items.len() == i,
            forall|j: int|
                0 <= j < i ==> json_tree(items@[j]) == JsonTree::Number(
                    NumberTree::Integer(indices@[j] as int),
                ),
        decreases indices.len() - i,
    {
        items.push(Json::Number(unsigned_number(indices[i])));
        i += 1;
    }
    assert(list_trees(items@) =~= index_trees(indices@));
    Json::List(items)
}

/// The object that a request is on the wire.
pub fn command_json(command: IpcCommand) -> (json: Json)
    ensures
        json@ == command_tree(command@),
{
    let fields: Fields = match command {
        IpcCommand::SendMessage(content) => Fields::typed("message").with_text("content", content),
        IpcCommand::StartListening => Fields::typed("start_listening"),
        IpcCommand::StopListening => Fields::typed("stop_listening"),
        IpcCommand::StopStream => Fields::typed("stop_stream"),
        IpcCommand::ConfirmationResponse { id, approved } => Fields::typed(
            "confirmation_response",
        ).with_text("id", id).with("approved", Json::Bool(approved)),
        IpcCommand::ListConfirmations => Fields::typed("list_confirmations"),
        IpcCommand::ApproveConfirmation { id } => Fields::typed("approve_confirmation").with_text(
            "id",
            id,
        ),
        IpcCommand::DenyConfirmation { id } => Fields::typed("deny_confirmation").with_text(
            "id",
            id,
        ),
        IpcCommand::PartialApproveConfirmation { id, approved_indices } => Fields::typed(
            "partial_approve_confirmation",
        ).with_text("id", id).with("approved_indices", index_list(&approved_indices)),
        IpcCommand::ApproveAllConfirmations => Fields::typed("approve_all_confirmations"),
        IpcCommand::SetWakeChimePath { path } => Fields::typed("set_wake_chime_path").with_text(
            "path",
            path,
        ),
        IpcCommand::ResetWakeChimePath => Fields::typed("reset_wake_chime_path"),
        IpcCommand::ListSessions => Fields::typed("list_sessions"),
        IpcCommand::CreateSession { title } => Fields::typed("create_session").with_optional_text(
            "title",
            title,
        ),
        IpcCommand::SwitchSession { id } => Fields::typed("switch_session").with_text("id", id),
        IpcCommand::RenameSession { id, title } => Fields::typed("rename_session").with_text(
            "id",
            id,
        ).with_text("title", title),
        IpcCommand::DeleteSession { id } => Fields::typed("delete_session").with_text("id", id),
        IpcCommand::GetSettings => Fields::typed("get_settings"),
        IpcCommand::SetConfirmationMode { mode } => Fields::typed(
            "set_confirmation_mode",
        ).with_text("mode", mode),
        IpcCommand::ListProviders => Fields::typed("list_providers"),
        IpcCommand::AddProvider { ptype, model, name, url, api_key, temperature } => {
            let fields = Fields::typed("add_provider").with_text("ptype", ptype).with_text(
                "model",
                model,
            ).with_optional_text("name", name).with_optional_text("url", url).with_optional_text(
                "api_key",
                api_key,
            );
            match temperature {
                Some(number) => fields.with("temperature", Json::Number(number)),
                None => fields.with("temperature", Json::Null),
            }
        },
        IpcCommand::EditProvider { name, fields } => Fields::typed("edit_provider").with_text(
            "name",
            name,
        ).with("fields", fields),
        IpcCommand::RemoveProvider { name } => Fields::typed("remove_provider").with_text(
            "name",
            name,
        ),
        IpcCommand::ListClients => Fields::typed("list_clients"),
        IpcCommand::RequestDaemonShutdown => Fields::typed("shutdown_request"),
    };
    fields.object()
}

/// Whether a request's object reads back as it is: it holds no float, and it nests no
/// deeper than the reader follows.
pub open spec fn reads_back(command: IpcCommandView) -> bool {
    match command {
        IpcCommandView::AddProvider { temperature: Some(number), .. } => number is Integer,
        IpcCommandView::EditProvider { fields, .. } => plain_to_depth(
            fields,
            (MAX_NESTING - 1) as nat,
        ),
        _ => true,
    }
}

/// Whether a request's object can be read at all: a float that it holds is not near the
/// largest, and it nests no deeper than the reader follows.
pub open spec fn reads(command: IpcCommandView) -> bool {
    match command {
        IpcCommandView::AddProvider { temperature: Some(NumberTree::Float(bits)), .. } => {
            is_below_top(bits)
        },
        IpcCommandView::EditProvider { fields, .. } => readable_to_depth(
            fields,
            (MAX_NESTING - 1) as nat,
        ),
        _ => true,
    }
}

/// A request that can be read is readable JSON throughout.
proof fn lemma_reads_is_readable(command: IpcCommandView)
    requires
        reads(command),
    ensures
        readable_to_depth(command_tree(command), MAX_NESTING as nat),
{
    let fields = command_fields(command);
    assert forall|key: Seq<char>| fields.contains_key(key) implies readable_to_depth(
        #[trigger] fields[key],
        (MAX_NESTING - 1) as nat,
    ) by {
        match command {
            IpcCommandView::PartialApproveConfirmation { id, approved_indices } => {
                let indices = index_trees(approved_indices);
                assert(forall|i: int|
                    0 <= i < indices.len() ==> readable_to_depth(#[trigger] indices[i], 125));
            },
            _ => {},
        }
    }
}

/// A request that reads back is plain JSON throughout.
proof fn lemma_reads_back_is_plain(command: IpcCommandView)
    requires
        reads_back(command),
    ensures
        plain_to_depth(command_tree(command), MAX_NESTING as nat),
{
    let fields = command_fields(command);
    assert forall|key: Seq<char>| fields.contains_key(key) implies plain_to_depth(
        #[trigger] fields[key],
        (MAX_NESTING - 1) as nat,
    ) by {
        match command {
            IpcCommandView::PartialApproveConfirmation { id, approved_indices } => {
                let indices = index_trees(approved_indices);
                assert(forall|i: int|
                    0 <= i < indices.len() ==> plain_to_depth(#[trigger] indices[i], 125));
            },
            _ => {},
        }
    }
}

/// Whether a text is one line: its last character, and no other, is a newline.
pub open spec fn is_one_line(text: Seq<char>) -> bool {
    text.len() > 0 && text.last() == '\n' && !text.drop_last().contains('\n')
}

/// A text as a line, with its newline.
pub fn as_line(text: String) -> (line: String)
    ensures
        line@ == text@.push('\n'),
{
    proof {
        reveal_strlit("\n");
        assert("\n"@ =~= seq!['\n']);
        assert(text@ + "\n"@ =~= text@.push('\n'));
    }
    text.concat("\n")
}

/// The line that a request is on the wire, with its newline.
///
/// It is one line: its only newline is its last character. What stands before it is
/// JSON that reads back as the request's object. Where it holds a float, it reads back as
/// the object but for the float. It cannot be read where it nests deeper than the reader
/// follows, or where a float of it is near the largest.
pub fn command_line(command: IpcCommand) -> (line: String)
    ensures
        line@ == command_line_text(command@),
        is_one_line(line@),
        reads_back(command@) ==> json_document(line@.drop_last()) == Some(command_tree(command@)),
        reads(command@) ==> json_document(line@.drop_last()) is Some,
        json_document(line@.drop_last()) matches Some(read) ==> same_but_floats(
            read,
            command_tree(command@),
        ),
{
    proof {
        if reads_back(command@) {
            lemma_reads_back_is_plain(command@);
        }
        if reads(command@) {
            lemma_reads_is_readable(command@);
        }
    }
    let json = command_json(command);
    let text: String = print_json(&json);
    assert(text@.push('\n').drop_last() =~= text@);
    as_line(text)
}

/// Whether a request must reach the daemon: what the user said, and that the user is
/// about to speak.
pub open spec fn must_reach(command: IpcCommandView) -> bool {
    command is SendMessage || command is StartListening
}

/// Whether a request must reach the daemon: the connection is given up where it
/// cannot be written. A failure to write any other request is passed over.
pub fn must_be_written(command: &IpcCommand) -> (must: bool)
    ensures
        must == must_reach(command@),
{
    matches!(command, IpcCommand::SendMessage(_) | IpcCommand::StartListening)
}

/// The keys of the wire, spelt out far enough to be told apart.
proof fn lemma_keys()
    ensures
        "type"@.len() == 4 && "type"@[0] == 't',
        "content"@.len() == 7 && "content"@[0] == 'c',
        "id"@.len() == 2 && "id"@[0] == 'i',
        "approved"@.len() == 8 && "approved"@[0] == 'a',
        "approved_indices"@.len() == 16 && "approved_indices"@[0] == 'a',
        "path"@.len() == 4 && "path"@[0] == 'p',
        "title"@.len() == 5 && "title"@[0] == 't',
        "mode"@.len() == 4 && "mode"@[0] == 'm',
        "ptype"@.len() == 5 && "ptype"@[0] == 'p',
        "model"@.len() == 5 && "model"@[0] == 'm',
        "name"@.len() == 4 && "name"@[0] == 'n',
        "url"@.len() == 3 && "url"@[0] == 'u',
        "api_key"@.len() == 7 && "api_key"@[0] == 'a',
        "temperature"@.len() == 11 && "temperature"@[0] == 't',
        "fields"@.len() == 6 && "fields"@[0] == 'f',
{
    reveal_strlit("type");
    reveal_strlit("content");
    reveal_strlit("id");
    reveal_strlit("approved");
    reveal_strlit("approved_indices");
    reveal_strlit("path");
    reveal_strlit("title");
    reveal_strlit("mode");
    reveal_strlit("ptype");
    reveal_strlit("model");
    reveal_strlit("name");
    reveal_strlit("url");
    reveal_strlit("api_key");
    reveal_strlit("temperature");
    reveal_strlit("fields");
}

/// The types of the wire, spelt out far enough to be told apart.
proof fn lemma_types()
    ensures
        "message"@.len() == 7 && "message"@[2] == 's',
        "start_listening"@.len() == 15 && "start_listening"@[2] == 'a',
        "stop_listening"@.len() == 14 && "stop_listening"@[2] == 'o',
        "stop_stream"@.len() == 11 && "stop_stream"@[2] == 'o',
        "confirmation_response"@.len() == 21 && "confirmation_response"@[2] == 'n',
        "list_confirmations"@.len() == 18 && "list_confirmations"@[2] == 's',
        "approve_confirmation"@.len() == 20 && "approve_confirmation"@[2] == 'p',
        "deny_confirmation"@.len() == 17 && "deny_confirmation"@[2] == 'n',
        "partial_approve_confirmation"@.len() == 28 && "partial_approve_confirmation"@[2] == 'r',
        "approve_all_confirmations"@.len() == 25 && "approve_all_confirmations"@[2] == 'p',
        "set_wake_chime_path"@.len() == 19 && "set_wake_chime_path"@[2] == 't',
        "reset_wake_chime_path"@.len() == 21 && "reset_wake_chime_path"@[2] == 's',
        "list_sessions"@.len() == 13 && "list_sessions"@[2] == 's',
        "create_session"@.len() == 14 && "create_session"@[2] == 'e',
        "switch_session"@.len() == 14 && "switch_session"@[2] == 'i',
        "rename_session"@.len() == 14 && "rename_session"@[2] == 'n',
        "delete_session"@.len() == 14 && "delete_session"@[2] == 'l',
        "get_settings"@.len() == 12 && "get_settings"@[2] == 't',
        "set_confirmation_mode"@.len() == 21 && "set_confirmation_mode"@[2] == 't',
        "list_providers"@.len() == 14 && "list_providers"@[2] == 's',
        "add_provider"@.len() == 12 && "add_provider"@[2] == 'd',
        "edit_provider"@.len() == 13 && "edit_provider"@[2] == 'i',
        "remove_provider"@.len() == 15 && "remove_provider"@[2] == 'm',
        "list_clients"@.len() == 12 && "list_clients"@[2] == 's',
        "shutdown_request"@.len() == 16 && "shutdown_request"@[2] == 'u',
{
    reveal_strlit("message");
    reveal_strlit("start_listening");
    reveal_strlit("stop_listening");
    reveal_strlit("stop_stream");
    reveal_strlit("confirmation_response");
    reveal_strlit("list_confirmations");
    reveal_strlit("approve_confirmation");
    reveal_strlit("deny_confirmation");
    reveal_strlit("partial_approve_confirmation");
    reveal_strlit("approve_all_confirmations");
    reveal_strlit("set_wake_chime_path");
    reveal_strlit("reset_wake_chime_path");
    reveal_strlit("list_sessions");
    reveal_strlit("create_session");
    reveal_strlit("switch_session");
    reveal_strlit("rename_session");
    reveal_strlit("delete_session");
    reveal_strlit("get_settings");
    reveal_strlit("set_confirmation_mode");
    reveal_strlit("list_providers");
    reveal_strlit("add_provider");
    reveal_strlit("edit_provider");
    reveal_strlit("remove_provider");
    reveal_strlit("list_clients");
    reveal_strlit("shutdown_request");
}

/// Indices that are equal as JSON are equal.
proof fn lemma_index_trees_injective(a: Seq<usize>, b: Seq<usize>)
    requires
        index_trees(a) == index_trees(b),
    ensures
        a == b,
{
    assert(index_trees(a).len() == a.len());
    assert(index_trees(b).len() == b.len());
    assert forall|i: int| 0 <= i < a.len() implies a[i] == b[i] by {
        assert(index_trees(a)[i] == JsonTree::Number(NumberTree::Integer(a[i] as int)));
        assert(index_trees(b)[i] == JsonTree::Number(NumberTree::Integer(b[i] as int)));
    }
    assert(a =~= b);
}

/// Nothing of a request is lost on the wire: two requests that are the same object
/// there are the same request.
pub proof fn law_requests_are_told_apart(a: IpcCommandView, b: IpcCommandView)
    requires
        command_tree(a) == command_tree(b),
    ensures
        a == b,
{
    lemma_keys();
    lemma_types();
    let x = command_fields(a);
    let y = command_fields(b);
    assert(x == y);
    assert(x["type"@] == JsonTree::Text(command_type(a)));
    assert(y["type"@] == JsonTree::Text(command_type(b)));
    assert(command_type(a).len() == command_type(b).len());
    assert(command_type(a)[2] == command_type(b)[2]);
    assert(x["content"@] == y["content"@]);
    assert(x["id"@] == y["id"@]);
    assert(x["approved"@] == y["approved"@]);
    assert(x["approved_indices"@] == y["approved_indices"@]);
    assert(x["path"@] == y["path"@]);
    assert(x["title"@] == y["title"@]);
    assert(x["mode"@] == y["mode"@]);
    assert(x["ptype"@] == y["ptype"@]);
    assert(x["model"@] == y["model"@]);
    assert(x["name"@] == y["name"@]);
    assert(x["url"@] == y["url"@]);
    assert(x["api_key"@] == y["api_key"@]);
    assert(x["temperature"@] == y["temperature"@]);
    assert(x["fields"@] == y["fields"@]);
    if let IpcCommandView::PartialApproveConfirmation { approved_indices: m, .. } = a {
        if let IpcCommandView::PartialApproveConfirmation { approved_indices: n, .. } = b {
            lemma_index_trees_injective(m, n);
        }
    }
}

/// A request carries its type on the wire, as a text, whatever else it carries.
pub proof fn law_requests_carry_their_type(command: IpcCommandView)
    ensures
        command_tree(command).text_at("type"@) == Some(command_type(command)),
{
    lemma_keys();
}

/// Whether a value is an object of a type, with some keys and no others.
pub open spec fn is_object_of(tree: JsonTree, kind: Seq<char>, keys: Set<Seq<char>>) -> bool {
    &&& tree matches JsonTree::Object(fields) && fields.dom() == keys
    &&& holds(tree, "type"@, JsonTree::Text(kind))
}

/// Whether a value is an object that holds something under a key.
pub open spec fn holds(tree: JsonTree, key: Seq<char>, value: JsonTree) -> bool {
    tree matches JsonTree::Object(fields) && fields.contains_key(key) && fields[key] == value
}

/// A request that asks for nothing but itself is on the wire its type, and nothing else.
pub proof fn law_bare_requests_are_their_type()
    ensures
        is_object_of(command_tree(IpcCommandView::StartListening), "start_listening"@, set!["type"@]),
        is_object_of(command_tree(IpcCommandView::StopListening), "stop_listening"@, set!["type"@]),
        is_object_of(command_tree(IpcCommandView::StopStream), "stop_stream"@, set!["type"@]),
        is_object_of(command_tree(IpcCommandView::ListConfirmations), "list_confirmations"@, set!["type"@]),
        is_object_of(command_tree(IpcCommandView::ApproveAllConfirmations), "approve_all_confirmations"@, set!["type"@]),
        is_object_of(command_tree(IpcCommandView::ResetWakeChimePath), "reset_wake_chime_path"@, set!["type"@]),
        is_object_of(command_tree(IpcCommandView::ListSessions), "list_sessions"@, set!["type"@]),
        is_object_of(command_tree(IpcCommandView::GetSettings), "get_settings"@, set!["type"@]),
        is_object_of(command_tree(IpcCommandView::ListProviders), "list_providers"@, set!["type"@]),
        is_object_of(command_tree(IpcCommandView::ListClients), "list_clients"@, set!["type"@]),
        is_object_of(command_tree(IpcCommandView::RequestDaemonShutdown), "shutdown_request"@, set!["type"@]),
{
}

/// A request that carries one text carries it on the wire, whatever the text: what the user
/// said, the confirmation, the session or the provider that is meant, the sound, the mode.
pub proof fn law_a_text_reaches_the_wire(text: Seq<char>)
    ensures
        ({
            let tree = command_tree(IpcCommandView::SendMessage(text));
            is_object_of(tree, "message"@, set!["type"@, "content"@]) && holds(
                tree,
                "content"@,
                JsonTree::Text(text),
            )
        }),
        ({
            let tree = command_tree(IpcCommandView::ApproveConfirmation { id: text });
            is_object_of(tree, "approve_confirmation"@, set!["type"@, "id"@]) && holds(
                tree,
                "id"@,
                JsonTree::Text(text),
            )
        }),
        ({
            let tree = command_tree(IpcCommandView::DenyConfirmation { id: text });
            is_object_of(tree, "deny_confirmation"@, set!["type"@, "id"@]) && holds(
                tree,
                "id"@,
                JsonTree::Text(text),
            )
        }),
        ({
            let tree = command_tree(IpcCommandView::SetWakeChimePath { path: text });
            is_object_of(tree, "set_wake_chime_path"@, set!["type"@, "path"@]) && holds(
                tree,
                "path"@,
                JsonTree::Text(text),
            )
        }),
        ({
            let tree = command_tree(IpcCommandView::SwitchSession { id: text });
            is_object_of(tree, "switch_session"@, set!["type"@, "id"@]) && holds(
                tree,
                "id"@,
                JsonTree::Text(text),
            )
        }),
        ({
            let tree = command_tree(IpcCommandView::DeleteSession { id: text });
            is_object_of(tree, "delete_session"@, set!["type"@, "id"@]) && holds(
                tree,
                "id"@,
                JsonTree::Text(text),
            )
        }),
        ({
            let tree = command_tree(IpcCommandView::SetConfirmationMode { mode: text });
            is_object_of(tree, "set_confirmation_mode"@, set!["type"@, "mode"@]) && holds(
                tree,
                "mode"@,
                JsonTree::Text(text),
            )
        }),
        ({
            let tree = command_tree(IpcCommandView::RemoveProvider { name: text });
            is_object_of(tree, "remove_provider"@, set!["type"@, "name"@]) && holds(
                tree,
                "name"@,
                JsonTree::Text(text),
            )
        }),
{
    lemma_keys();
}

/// The answer to a confirmation reaches the wire: which one it answers, and whether it
/// approves or denies, as a truth value. Two answers to one confirmation are opposite there.
pub proof fn law_an_answer_reaches_the_wire(id: Seq<char>, approved: bool)
    ensures
        ({
            let tree = command_tree(IpcCommandView::ConfirmationResponse { id, approved });
            &&& is_object_of(tree, "confirmation_response"@, set!["type"@, "id"@, "approved"@])
            &&& holds(tree, "id"@, JsonTree::Text(id))
            &&& holds(tree, "approved"@, JsonTree::Bool(approved))
            &&& !holds(tree, "approved"@, JsonTree::Bool(!approved))
        }),
{
    lemma_keys();
}

/// The items of a batch that are approved reach the wire exactly as chosen: each index, in
/// order, as an integer.
pub proof fn law_chosen_items_reach_the_wire(id: Seq<char>, approved_indices: Seq<usize>)
    ensures
        ({
            let tree = command_tree(
                IpcCommandView::PartialApproveConfirmation { id, approved_indices },
            );
            &&& is_object_of(
                tree,
                "partial_approve_confirmation"@,
                set!["type"@, "id"@, "approved_indices"@],
            )
            &&& holds(tree, "id"@, JsonTree::Text(id))
            &&& (tree->Object_0)["approved_indices"@] matches JsonTree::List(items)
                && items.len() == approved_indices.len() && forall|i: int|
                0 <= i < items.len() ==> #[trigger] items[i] == JsonTree::Number(
                    NumberTree::Integer(approved_indices[i] as int),
                )
        }),
{
    lemma_keys();
}

/// A session is begun with its title, or with none; and it is given another title by its id.
pub proof fn law_titles_reach_the_wire(id: Seq<char>, title: Seq<char>)
    ensures
        ({
            let tree = command_tree(IpcCommandView::CreateSession { title: Some(title) });
            is_object_of(tree, "create_session"@, set!["type"@, "title"@]) && holds(
                tree,
                "title"@,
                JsonTree::Text(title),
            )
        }),
        ({
            let tree = command_tree(IpcCommandView::CreateSession { title: None });
            is_object_of(tree, "create_session"@, set!["type"@, "title"@]) && holds(
                tree,
                "title"@,
                JsonTree::Null,
            )
        }),
        ({
            let tree = command_tree(IpcCommandView::RenameSession { id, title });
            is_object_of(tree, "rename_session"@, set!["type"@, "id"@, "title"@]) && holds(
                tree,
                "id"@,
                JsonTree::Text(id),
            ) && holds(tree, "title"@, JsonTree::Text(title))
        }),
{
    lemma_keys();
}

/// A model provider is added with all that is said of it, and null for what is not said; and
/// the fields of one that are changed reach the wire as they are.
pub proof fn law_providers_reach_the_wire(
    ptype: Seq<char>,
    model: Seq<char>,
    name: Option<Seq<char>>,
    url: Option<Seq<char>>,
    api_key: Option<Seq<char>>,
    temperature: Option<NumberTree>,
    changed: Seq<char>,
    fields: JsonTree,
)
    ensures
        ({
            let tree = command_tree(
                IpcCommandView::AddProvider { ptype, model, name, url, api_key, temperature },
            );
            &&& is_object_of(
                tree,
                "add_provider"@,
                set!["type"@, "ptype"@, "model"@, "name"@, "url"@, "api_key"@, "temperature"@],
            )
            &&& holds(tree, "ptype"@, JsonTree::Text(ptype))
            &&& holds(tree, "model"@, JsonTree::Text(model))
            &&& name matches Some(text) ==> holds(tree, "name"@, JsonTree::Text(text))
            &&& name is None ==> holds(tree, "name"@, JsonTree::Null)
            &&& url matches Some(text) ==> holds(tree, "url"@, JsonTree::Text(text))
            &&& url is None ==> holds(tree, "url"@, JsonTree::Null)
            &&& api_key matches Some(text) ==> holds(tree, "api_key"@, JsonTree::Text(text))
            &&& api_key is None ==> holds(tree, "api_key"@, JsonTree::Null)
            &&& temperature matches Some(n) ==> holds(tree, "temperature"@, JsonTree::Number(n))
            &&& temperature is None ==> holds(tree, "temperature"@, JsonTree::Null)
        }),
        ({
            let tree = command_tree(IpcCommandView::EditProvider { name: changed, fields });
            is_object_of(tree, "edit_provider"@, set!["type"@, "name"@, "fields"@]) && holds(
                tree,
                "name"@,
                JsonTree::Text(changed),
            ) && holds(tree, "fields"@, fields)
        }),
{
    lemma_keys();
}

/// A line is the text of the object and a newline behind it, which nothing else is.
pub proof fn law_a_line_is_the_object_and_a_newline(command: IpcCommandView)
    ensures
        command_line_text(command).len() == json_text(command_tree(command)).len() + 1,
        command_line_text(command).drop_last() == json_text(command_tree(command)),
        command_line_text(command).last() == '\n',
{
    assert(command_line_text(command).drop_last() =~= json_text(command_tree(command)));
}

/// What a request holds is what its view says.
pub proof fn law_requests_are_seen_as_they_are(
    a: String,
    b: String,
    flag: bool,
    indices: Vec<usize>,
    c: Option<String>,
    d: Option<String>,
    e: Option<String>,
    number: serde_json::Number,
    value: Json,
)
    ensures
        IpcCommand::SendMessage(a)@ == IpcCommandView::SendMessage(a@),
        (IpcCommand::ConfirmationResponse { id: a, approved: flag })@ == (
        IpcCommandView::ConfirmationResponse { id: a@, approved: flag }),
        (IpcCommand::ApproveConfirmation { id: a })@ == (IpcCommandView::ApproveConfirmation {
            id: a@,
        }),
        (IpcCommand::DenyConfirmation { id: a })@ == (IpcCommandView::DenyConfirmation { id: a@ }),
        (IpcCommand::PartialApproveConfirmation { id: a, approved_indices: indices })@ == (
        IpcCommandView::PartialApproveConfirmation { id: a@, approved_indices: indices@ }),
        (IpcCommand::SetWakeChimePath { path: a })@ == (IpcCommandView::SetWakeChimePath {
            path: a@,
        }),
        (IpcCommand::CreateSession { title: c })@ == (IpcCommandView::CreateSession {
            title: c.deep_view(),
        }),
        (IpcCommand::SwitchSession { id: a })@ == (IpcCommandView::SwitchSession { id: a@ }),
        (IpcCommand::RenameSession { id: a, title: b })@ == (IpcCommandView::RenameSession {
            id: a@,
            title: b@,
        }),
        (IpcCommand::DeleteSession { id: a })@ == (IpcCommandView::DeleteSession { id: a@ }),
        (IpcCommand::SetConfirmationMode { mode: a })@ == (IpcCommandView::SetConfirmationMode {
            mode: a@,
        }),
        (IpcCommand::AddProvider {
            ptype: a,
            model: b,
            name: c,
            url: d,
            api_key: e,
            temperature: Some(number),
        })@ == (IpcCommandView::AddProvider {
            ptype: a@,
            model: b@,
            name: c.deep_view(),
            url: d.deep_view(),
            api_key: e.deep_view(),
            temperature: Some(number_content(number)),
        }),
        (IpcCommand::AddProvider {
            ptype: a,
            model: b,
            name: c,
            url: d,
            api_key: e,
            temperature: None,
        })@ == (IpcCommandView::AddProvider {
            ptype: a@,
            model: b@,
            name: c.deep_view(),
            url: d.deep_view(),
            api_key: e.deep_view(),
            temperature: None,
        }),
        (IpcCommand::EditProvider { name: a, fields: value })@ == (IpcCommandView::EditProvider {
            name: a@,
            fields: value@,
        }),
        (IpcCommand::RemoveProvider { name: a })@ == (IpcCommandView::RemoveProvider { name: a@ }),
        IpcCommand::StartListening@ == IpcCommandView::StartListening,
        IpcCommand::StopListening@ == IpcCommandView::StopListening,
        IpcCommand::StopStream@ == IpcCommandView::StopStream,
        IpcCommand::ListConfirmations@ == IpcCommandView::ListConfirmations,
        IpcCommand::ApproveAllConfirmations@ == IpcCommandView::ApproveAllConfirmations,
        IpcCommand::ResetWakeChimePath@ == IpcCommandView::ResetWakeChimePath,
        IpcCommand::ListSessions@ == IpcCommandView::ListSessions,
        IpcCommand::GetSettings@ == IpcCommandView::GetSettings,
        IpcCommand::ListProviders@ == IpcCommandView::ListProviders,
        IpcCommand::ListClients@ == IpcCommandView::ListClients,
        IpcCommand::RequestDaemonShutdown@ == IpcCommandView::RequestDaemonShutdown,
{
}

} // verus!
