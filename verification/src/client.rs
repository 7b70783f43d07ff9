//! The client's end of the connection: the events that came, and the requests that go.

use std::collections::VecDeque;

use vstd::prelude::*;

use crate::command::{IpcCommand, IpcCommandView};
use crate::event::{IpcEvent, IpcEventView};
use crate::json::{number_content, Json};

verus! {

/// The client's end of the connection with the daemon.
///
/// Events come out in the order in which they were delivered, and requests in the
/// order in which they were made.
pub struct IpcClient {
    events: VecDeque<IpcEvent>,
    commands: VecDeque<IpcCommand>,
    closed: bool,
}

/// The content of a client.
pub struct IpcClientView {
    /// The events that were delivered and not yet received.
    pub events: Seq<IpcEventView>,
    /// The requests that were made and not yet taken.
    pub commands: Seq<IpcCommandView>,
    /// Whether no event will be delivered any more.
    pub closed: bool,
}

impl IpcClientView {
    /// The client with one more request.
    pub open spec fn asking(self, command: IpcCommandView) -> IpcClientView {
        IpcClientView { commands: self.commands.push(command), ..self }
    }

    /// The client with one more event.
    pub open spec fn delivering(self, event: IpcEventView) -> IpcClientView {
        IpcClientView { events: self.events.push(event), ..self }
    }

    /// A client that nothing has happened to.
    pub open spec fn fresh() -> IpcClientView {
        IpcClientView { events: Seq::empty(), commands: Seq::empty(), closed: false }
    }
}

impl View for IpcClient {
    type V = IpcClientView;

    closed spec fn view(&self) -> IpcClientView {
        IpcClientView {
            events: self.events.deep_view(),
            commands: self.commands.deep_view(),
            closed: self.closed,
        }
    }
}

impl Default for IpcClient {
    fn default() -> (client: Self)
        ensures
            client@ == IpcClientView::fresh(),
    {
        Self::new()
    }
}

impl IpcClient {
    /// A client with no event and no request.
    pub fn new() -> (client: Self)
        ensures
            client@ == IpcClientView::fresh(),
    {
        let client = IpcClient { events: VecDeque::new(), commands: VecDeque::new(), closed: false };
        assert(client.events.deep_view() =~= Seq::empty());
        assert(client.commands.deep_view() =~= Seq::empty());
        client
    }

    /// Hands the client an event.
    pub fn deliver(&mut self, event: IpcEvent)
        ensures
            final(self)@ == old(self)@.delivering(event@),
    {
        self.events.push_back(event);
        assert(self.events.deep_view() =~= old(self).events.deep_view().push(event@));
    }

    /// Tells the client that no event will be delivered any more.
    pub fn close(&mut self)
        ensures
            final(self)@ == (IpcClientView { closed: true, ..old(self)@ }),
    {
        self.closed = true;
    }

    /// The next event, if there is one. Once no more can come and all have been
    /// received, the connection reads as lost.
    pub fn try_recv(&mut self) -> (event: Option<IpcEvent>)
        ensures
            old(self)@.events.len() > 0 ==> event.deep_view() == Some(old(self)@.events[0])
                && final(self)@ == (IpcClientView {
                events: old(self)@.events.drop_first(),
                ..old(self)@
            }),
            old(self)@.events.len() == 0 ==> final(self)@ == old(self)@ && event.deep_view() == if old(
                self,
            )@.closed {
                Some(IpcEventView::Disconnected)
            } else {
                None
            },
    {
        match self.events.pop_front() {
            Some(event) => {
                assert(self.events.deep_view() =~= old(self).events.deep_view().drop_first());
                Some(event)
            },
            None => {
                assert(self.events.deep_view() =~= old(self).events.deep_view());
                if self.closed {
                    Some(IpcEvent::Disconnected)
                } else {
                    None
                }
            },
        }
    }

    /// Takes the oldest request that was made, if there is one.
    pub fn next_command(&mut self) -> (command: Option<IpcCommand>)
        ensures
            old(self)@.commands.len() > 0 ==> command.deep_view() == Some(old(self)@.commands[0])
                && final(self)@ == (IpcClientView {
                commands: old(self)@.commands.drop_first(),
                ..old(self)@
            }),
            old(self)@.commands.len() == 0 ==> final(self)@ == old(self)@ && command is None,
    {
        match self.commands.pop_front() {
            Some(command) => {
                assert(self.commands.deep_view() =~= old(self).commands.deep_view().drop_first());
                Some(command)
            },
            None => {
                assert(self.commands.deep_view() =~= old(self).commands.deep_view());
                None
            },
        }
    }

    fn ask(&mut self, command: IpcCommand)
        ensures
            final(self)@ == old(self)@.asking(command@),
    {
        self.commands.push_back(command);
        assert(self.commands.deep_view() =~= old(self).commands.deep_view().push(command@));
    }

    /// Asks the assistant something.
    pub fn send_message(&mut self, content: String)
        ensures
            final(self)@ == old(self)@.asking(IpcCommandView::SendMessage(content@)),
    {
        self.ask(IpcCommand::SendMessage(content));
    }

    /// Asks the daemon to listen.
    pub fn start_listening(&mut self)
        ensures
            final(self)@ == old(self)@.asking(IpcCommandView::StartListening),
    {
        self.ask(IpcCommand::StartListening);
    }

    /// Asks the daemon to stop listening.
    pub fn stop_listening(&mut self)
        ensures
            final(self)@ == old(self)@.asking(IpcCommandView::StopListening),
    {
        self.ask(IpcCommand::StopListening);
    }

    /// Asks the daemon to stop the answer that it is giving.
    pub fn stop_stream(&mut self)
        ensures
            final(self)@ == old(self)@.asking(IpcCommandView::StopStream),
    {
        self.ask(IpcCommand::StopStream);
    }

    /// Answers a confirmation that was asked for.
    pub fn confirmation_response(&mut self, id: String, approved: bool)
        ensures
            final(self)@ == old(self)@.asking(IpcCommandView::ConfirmationResponse { id: id@, approved }),
    {
        self.ask(IpcCommand::ConfirmationResponse { id, approved });
    }

    /// Asks for the confirmations that are open.
    pub fn list_confirmations(&mut self)
        ensures
            final(self)@ == old(self)@.asking(IpcCommandView::ListConfirmations),
    {
        self.ask(IpcCommand::ListConfirmations);
    }

    /// Approves a confirmation.
    pub fn approve_confirmation(&mut self, id: String)
        ensures
            final(self)@ == old(self)@.asking(IpcCommandView::ApproveConfirmation { id: id@ }),
    {
        self.ask(IpcCommand::ApproveConfirmation { id });
    }

    /// Denies a confirmation.
    pub fn deny_confirmation(&mut self, id: String)
        ensures
            final(self)@ == old(self)@.asking(IpcCommandView::DenyConfirmation { id: id@ }),
    {
        self.ask(IpcCommand::DenyConfirmation { id });
    }

    /// Approves only the listed items of a batch; the daemon denies the rest.
    pub fn partial_approve_confirmation(&mut self, id: String, approved_indices: Vec<usize>)
        ensures
            final(self)@ == old(self)@.asking(IpcCommandView::PartialApproveConfirmation {
                    id: id@,
                    approved_indices: approved_indices@,
                }),
    {
        self.ask(IpcCommand::PartialApproveConfirmation { id, approved_indices });
    }

    /// Approves every open confirmation.
    pub fn approve_all_confirmations(&mut self)
        ensures
            final(self)@ == old(self)@.asking(IpcCommandView::ApproveAllConfirmations),
    {
        self.ask(IpcCommand::ApproveAllConfirmations);
    }

    /// Sets the sound of the wake chime.
    pub fn set_wake_chime_path(&mut self, path: String)
        ensures
            final(self)@ == old(self)@.asking(IpcCommandView::SetWakeChimePath { path: path@ }),
    {
        self.ask(IpcCommand::SetWakeChimePath { path });
    }

    /// Sets the wake chime back to the daemon's own.
    pub fn reset_wake_chime_path(&mut self)
        ensures
            final(self)@ == old(self)@.asking(IpcCommandView::ResetWakeChimePath),
    {
        self.ask(IpcCommand::ResetWakeChimePath);
    }

    /// Asks for the daemon's settings.
    pub fn get_settings(&mut self)
        ensures
            final(self)@ == old(self)@.asking(IpcCommandView::GetSettings),
    {
        self.ask(IpcCommand::GetSettings);
    }

    /// Sets when the daemon asks for confirmation.
    pub fn set_confirmation_mode(&mut self, mode: String)
        ensures
            final(self)@ == old(self)@.asking(IpcCommandView::SetConfirmationMode { mode: mode@ }),
    {
        self.ask(IpcCommand::SetConfirmationMode { mode });
    }

    /// Asks for the model providers.
    pub fn list_providers(&mut self)
        ensures
            final(self)@ == old(self)@.asking(IpcCommandView::ListProviders),
    {
        self.ask(IpcCommand::ListProviders);
    }

    /// Adds a model provider.
    pub fn add_provider(
        &mut self,
        ptype: String,
        model: String,
        name: Option<String>,
        url: Option<String>,
        api_key: Option<String>,
        temperature: Option<serde_json::Number>,
    )
        ensures
            final(self)@ == old(self)@.asking(IpcCommandView::AddProvider {
                    ptype: ptype@,
                    model: model@,
                    name: name.deep_view(),
                    url: url.deep_view(),
                    api_key: api_key.deep_view(),
                    temperature: match temperature {
                        Some(number) => Some(number_content(number)),
                        None => None,
                    },
                }),
    {
        self.ask(IpcCommand::AddProvider { ptype, model, name, url, api_key, temperature });
    }

    /// Changes fields of a model provider.
    pub fn edit_provider(&mut self, name: String, fields: Json)
        ensures
            final(self)@ == old(self)@.asking(IpcCommandView::EditProvider { name: name@, fields: fields@ }),
    {
        self.ask(IpcCommand::EditProvider { name, fields });
    }

    /// Removes a model provider.
    pub fn remove_provider(&mut self, name: String)
        ensures
            final(self)@ == old(self)@.asking(IpcCommandView::RemoveProvider { name: name@ }),
    {
        self.ask(IpcCommand::RemoveProvider { name });
    }

    /// Asks who is connected to the daemon.
    pub fn list_clients(&mut self)
        ensures
            final(self)@ == old(self)@.asking(IpcCommandView::ListClients),
    {
        self.ask(IpcCommand::ListClients);
    }

    /// Asks the daemon to shut down.
    pub fn request_daemon_shutdown(&mut self)
        ensures
            final(self)@ == old(self)@.asking(IpcCommandView::RequestDaemonShutdown),
    {
        self.ask(IpcCommand::RequestDaemonShutdown);
    }

    /// Asks for the sessions.
    pub fn list_sessions(&mut self)
        ensures
            final(self)@ == old(self)@.asking(IpcCommandView::ListSessions),
    {
        self.ask(IpcCommand::ListSessions);
    }

    /// Begins a session.
    pub fn create_session(&mut self, title: Option<String>)
        ensures
            final(self)@ == old(self)@.asking(IpcCommandView::CreateSession { title: title.deep_view() }),
    {
        self.ask(IpcCommand::CreateSession { title });
    }

    /// Goes on with another session.
    pub fn switch_session(&mut self, id: String)
        ensures
            final(self)@ == old(self)@.asking(IpcCommandView::SwitchSession { id: id@ }),
    {
        self.ask(IpcCommand::SwitchSession { id });
    }

    /// Gives a session another title.
    pub fn rename_session(&mut self, id: String, title: String)
        ensures
            final(self)@ == old(self)@.asking(IpcCommandView::RenameSession { id: id@, title: title@ }),
    {
        self.ask(IpcCommand::RenameSession { id, title });
    }

    /// Deletes a session.
    pub fn delete_session(&mut self, id: String)
        ensures
            final(self)@ == old(self)@.asking(IpcCommandView::DeleteSession { id: id@ }),
    {
        self.ask(IpcCommand::DeleteSession { id });
    }
}

/// The client with some more requests, one after the other.
pub open spec fn asking_all(client: IpcClientView, commands: Seq<IpcCommandView>) -> IpcClientView
    decreases commands.len(),
{
    if commands.len() == 0 {
        client
    } else {
        asking_all(client, commands.drop_last()).asking(commands.last())
    }
}

/// Requests are taken in the order in which they were made, none lost and none twice,
/// and making them touches no event.
pub proof fn law_requests_keep_their_order(client: IpcClientView, commands: Seq<IpcCommandView>)
    ensures
        asking_all(client, commands).commands == client.commands + commands,
        asking_all(client, commands).events == client.events,
        asking_all(client, commands).closed == client.closed,
    decreases commands.len(),
{
    if commands.len() > 0 {
        law_requests_keep_their_order(client, commands.drop_last());
        assert(commands =~= commands.drop_last().push(commands.last()));
    }
    assert(asking_all(client, commands).commands =~= client.commands + commands);
}

/// The client with some more events, one after the other.
pub open spec fn delivering_all(client: IpcClientView, events: Seq<IpcEventView>) -> IpcClientView
    decreases events.len(),
{
    if events.len() == 0 {
        client
    } else {
        delivering_all(client, events.drop_last()).delivering(events.last())
    }
}

/// Events are received in the order in which they were delivered, none lost and none
/// twice, and delivering them touches no request.
pub proof fn law_events_keep_their_order(client: IpcClientView, events: Seq<IpcEventView>)
    ensures
        delivering_all(client, events).events == client.events + events,
        delivering_all(client, events).commands == client.commands,
        delivering_all(client, events).closed == client.closed,
    decreases events.len(),
{
    if events.len() > 0 {
        law_events_keep_their_order(client, events.drop_last());
        assert(events =~= events.drop_last().push(events.last()));
    }
    assert(delivering_all(client, events).events =~= client.events + events);
}

/// A client that nothing has happened to has no event to receive and no request to hand on,
/// and is not closed. One request, or one event, more is the last of them, and changes
/// nothing else.
pub proof fn law_a_client_begins_empty(
    client: IpcClientView,
    command: IpcCommandView,
    event: IpcEventView,
)
    ensures
        IpcClientView::fresh().events.len() == 0,
        IpcClientView::fresh().commands.len() == 0,
        !IpcClientView::fresh().closed,
        client.asking(command).commands.len() == client.commands.len() + 1,
        client.asking(command).commands.last() == command,
        client.asking(command).commands.drop_last() == client.commands,
        client.asking(command).events == client.events,
        client.asking(command).closed == client.closed,
        client.delivering(event).events.len() == client.events.len() + 1,
        client.delivering(event).events.last() == event,
        client.delivering(event).events.drop_last() == client.events,
        client.delivering(event).commands == client.commands,
        client.delivering(event).closed == client.closed,
{
}

} // verus!
