//! The state of the application, and what it makes of the events of the connection.

use vstd::prelude::*;
use vstd::string::*;

use crate::client::{IpcClient, IpcClientView};
use crate::command::IpcCommandView;
use crate::event::{IpcEvent, IpcEventView};
use crate::json::JsonTree;
use crate::text::{blank, is_blank, same_text};
use crate::ui_event::{UiEvent, UiEventView};

verus! {

/// The setting of the daemon that holds the sound of the wake chime.
pub const WAKE_CHIME_KEY: &'static str = "WAKE_CHIME_PATH";

/// The state of the application.
///
/// The marker of the wake chime is a path, in whatever form the host has paths.
pub struct AppState<P> {
    pub ipc: IpcClient,
    pub is_listening: bool,
    pub connected: bool,
    pub daemon_state: String,
    /// The sound that the daemon is still to be given as its wake chime, and the marker
    /// to write when it has taken it.
    pub wake_chime_bootstrap: Option<(String, P)>,
}

/// The content of the state.
pub struct AppStateView<P> {
    pub ipc: IpcClientView,
    pub is_listening: bool,
    pub connected: bool,
    pub daemon_state: Seq<char>,
    pub wake_chime_bootstrap: Option<(Seq<char>, P)>,
}

impl<P> View for AppState<P> {
    type V = AppStateView<P>;

    open spec fn view(&self) -> AppStateView<P> {
        AppStateView {
            ipc: self.ipc@,
            is_listening: self.is_listening,
            connected: self.connected,
            daemon_state: self.daemon_state@,
            wake_chime_bootstrap: match self.wake_chime_bootstrap {
                Some(pending) => Some((pending.0@, pending.1)),
                None => None,
            },
        }
    }
}

/// Something that the application does to the world around it.
#[derive(Debug, PartialEq)]
pub enum Effect<P> {
    /// Show a text at the tray icon.
    Tooltip(&'static str),
    /// Tell the user interface.
    Emit(UiEvent),
    /// Write the marker that says that the daemon has the wake chime.
    WriteMarker(P),
    /// Report that the daemon did not take the wake chime, with its reason.
    ReportRejection(String),
    /// Quit, if the settings say so.
    QuitIfSet,
}

/// The content of an effect.
pub enum EffectView<P> {
    Tooltip(Seq<char>),
    Emit(UiEventView),
    WriteMarker(P),
    ReportRejection(Seq<char>),
    QuitIfSet,
}

impl<P> DeepView for Effect<P> {
    type V = EffectView<P>;

    open spec fn deep_view(&self) -> EffectView<P> {
        match *self {
            Effect::Tooltip(text) => EffectView::Tooltip(text@),
            Effect::Emit(event) => EffectView::Emit(event@),
            Effect::WriteMarker(marker) => EffectView::WriteMarker(marker),
            Effect::ReportRejection(reason) => EffectView::ReportRejection(reason@),
            Effect::QuitIfSet => EffectView::QuitIfSet,
        }
    }
}

/// What the user interface is told of a state of the daemon.
pub open spec fn tell_state<P>(state: Seq<char>) -> EffectView<P> {
    EffectView::Emit(UiEventView::State(state))
}

/// What an event makes of the state.
pub open spec fn state_after<P>(state: AppStateView<P>, event: IpcEventView) -> AppStateView<P> {
    match event {
        IpcEventView::Connected => AppStateView {
            connected: true,
            daemon_state: "idle"@,
            ipc: match state.wake_chime_bootstrap {
                Some(pending) => state.ipc.asking(
                    IpcCommandView::SetWakeChimePath { path: pending.0 },
                ),
                None => state.ipc,
            },
            ..state
        },
        IpcEventView::Disconnected => AppStateView {
            connected: false,
            is_listening: false,
            daemon_state: "offline"@,
            ..state
        },
        IpcEventView::State(now) => AppStateView {
            is_listening: now == "listening"@,
            daemon_state: now,
            ..state
        },
        IpcEventView::ResponseChunk { content, done } => if done {
            AppStateView { daemon_state: "idle"@, ..state }
        } else {
            state
        },
        IpcEventView::WakeWordDetected => AppStateView {
            is_listening: true,
            daemon_state: "listening"@,
            ..state
        },
        IpcEventView::ConfigUpdated { key, value } => if key == WAKE_CHIME_KEY@ {
            AppStateView { wake_chime_bootstrap: None, ..state }
        } else {
            state
        },
        _ => state,
    }
}

/// What an event has the application do, in order.
pub open spec fn effects_of<P>(state: AppStateView<P>, event: IpcEventView) -> Seq<EffectView<P>> {
    match event {
        IpcEventView::Connected => seq![
            EffectView::Tooltip("JARVIS -- Connected"@),
            EffectView::Emit(UiEventView::Connected),
            tell_state("idle"@),
        ],
        IpcEventView::Disconnected => seq![
            EffectView::Tooltip("JARVIS -- Offline"@),
            EffectView::Emit(UiEventView::Disconnected),
            tell_state("offline"@),
        ],
        IpcEventView::State(now) => seq![tell_state(now)],
        IpcEventView::ResponseChunk { content, done } => if done {
            seq![EffectView::Emit(UiEventView::Chunk { content, done }), tell_state("idle"@)]
        } else {
            seq![EffectView::Emit(UiEventView::Chunk { content, done })]
        },
        IpcEventView::WakeWordDetected => seq![
            EffectView::Emit(UiEventView::Wake),
            tell_state("listening"@),
        ],
        IpcEventView::ConfirmationRequest { id, tool_names } => seq![
            EffectView::Emit(UiEventView::Confirm { id, tool_names }),
        ],
        IpcEventView::ConfirmationList(list) => seq![
            EffectView::Emit(UiEventView::ConfirmationList(list)),
        ],
        IpcEventView::Ack => Seq::empty(),
        IpcEventView::ConfigUpdated { key, value } => {
            let told = EffectView::Emit(UiEventView::ConfigUpdated { key, value });
            match state.wake_chime_bootstrap {
                Some(pending) => if key == WAKE_CHIME_KEY@ {
                    seq![EffectView::WriteMarker(pending.1), told]
                } else {
                    seq![told]
                },
                None => seq![told],
            }
        },
        IpcEventView::ConfigError { key, message } => {
            let told = EffectView::Emit(UiEventView::ConfigError { key, message });
            if key == WAKE_CHIME_KEY@ && state.wake_chime_bootstrap is Some {
                seq![EffectView::ReportRejection(message), told]
            } else {
                seq![told]
            }
        },
        IpcEventView::Error(message) => seq![EffectView::Emit(UiEventView::Error(message))],
        IpcEventView::SessionList(sessions) => seq![
            EffectView::Emit(UiEventView::SessionList(sessions)),
        ],
        IpcEventView::SessionSwitched { session, messages } => seq![
            EffectView::Emit(UiEventView::SessionSwitched { session, messages }),
        ],
        IpcEventView::SessionError(message) => seq![
            EffectView::Emit(UiEventView::SessionError(message)),
        ],
        IpcEventView::Settings { confirmation_mode, wake_chime_path } => seq![
            EffectView::Emit(UiEventView::Settings { confirmation_mode, wake_chime_path }),
        ],
        IpcEventView::ProviderList(providers) => seq![
            EffectView::Emit(UiEventView::ProviderList(providers)),
        ],
        IpcEventView::ProviderError(message) => seq![
            EffectView::Emit(UiEventView::ProviderError(message)),
        ],
        IpcEventView::ClientList(clients) => seq![EffectView::Emit(UiEventView::ClientList(clients))],
        IpcEventView::DaemonShutdown { state, goals, session_id, timestamp_bits } => seq![
            EffectView::Emit(
                UiEventView::DaemonShutdown { state, goals, session_id, timestamp_bits },
            ),
            EffectView::QuitIfSet,
        ],
    }
}

/// The state with listening turned around, and the daemon asked for it.
pub open spec fn toggled<P>(state: AppStateView<P>) -> AppStateView<P> {
    AppStateView {
        is_listening: !state.is_listening,
        ipc: state.ipc.asking(
            if state.is_listening {
                IpcCommandView::StopListening
            } else {
                IpcCommandView::StartListening
            },
        ),
        ..state
    }
}

/// The state with other events to receive.
pub open spec fn with_events<P>(state: AppStateView<P>, events: Seq<IpcEventView>) -> AppStateView<
    P,
> {
    AppStateView { ipc: IpcClientView { events, ..state.ipc }, ..state }
}

/// The state after the oldest event that the client holds is taken in. A client that is
/// closed for good and holds none reads as disconnected.
pub open spec fn polled<P>(state: AppStateView<P>) -> AppStateView<P> {
    let events = state.ipc.events;
    if events.len() > 0 {
        state_after(with_events(state, events.drop_first()), events[0])
    } else if state.ipc.closed {
        state_after(state, IpcEventView::Disconnected)
    } else {
        state
    }
}

/// What is to be done for the oldest event that the client holds; `None` where there is
/// none.
pub open spec fn polled_effects<P>(state: AppStateView<P>) -> Option<Seq<EffectView<P>>> {
    let events = state.ipc.events;
    if events.len() > 0 {
        Some(effects_of(with_events(state, events.drop_first()), events[0]))
    } else if state.ipc.closed {
        Some(effects_of(state, IpcEventView::Disconnected))
    } else {
        None
    }
}

/// Whether the connection is up, and what the daemon is doing.
#[derive(Debug, Clone, PartialEq)]
pub struct StatusPayload {
    pub connected: bool,
    pub state: String,
}

fn no_effects<P>() -> (effects: Vec<Effect<P>>)
    ensures
        effects.deep_view() == Seq::<EffectView<P>>::empty(),
{
    let effects: Vec<Effect<P>> = Vec::new();
    assert(effects.deep_view() =~= Seq::empty());
    effects
}

/// The effects with one more.
fn and<P>(effects: Vec<Effect<P>>, effect: Effect<P>) -> (more: Vec<Effect<P>>)
    ensures
        more.deep_view() == effects.deep_view().push(effect.deep_view()),
{
    let mut more = effects;
    let ghost before = more.deep_view();
    more.push(effect);
    assert(more.deep_view() =~= before.push(effect.deep_view()));
    more
}

/// One effect alone.
fn only<P>(event: UiEvent) -> (effects: Vec<Effect<P>>)
    ensures
        effects.deep_view() == seq![EffectView::<P>::Emit(event@)],
{
    let effects = and(no_effects(), Effect::Emit(event));
    assert(effects.deep_view() =~= seq![EffectView::<P>::Emit(event@)]);
    effects
}

/// Tell the user interface of a state of the daemon.
fn telling<P>(state: &str) -> (effect: Effect<P>)
    ensures
        effect.deep_view() == tell_state::<P>(state@),
{
    Effect::Emit(UiEvent::State(state.to_owned()))
}

impl<P> AppState<P> {
    /// The state in which the application starts: not connected.
    pub fn new(wake_chime_bootstrap: Option<(String, P)>) -> (state: Self)
        ensures
            state@.ipc == IpcClientView::fresh(),
            !state@.is_listening,
            !state@.connected,
            state@.daemon_state == "offline"@,
            state.wake_chime_bootstrap == wake_chime_bootstrap,
    {
        AppState {
            ipc: IpcClient::new(),
            is_listening: false,
            connected: false,
            daemon_state: "offline".to_owned(),
            wake_chime_bootstrap,
        }
    }

    /// Takes an event in, and gives what is to be done for it, in order.
    pub fn handle_event(&mut self, event: IpcEvent) -> (effects: Vec<Effect<P>>)
        ensures
            final(self)@ == state_after(old(self)@, event@),
            effects.deep_view() == effects_of(old(self)@, event@),
    {
        match event {
            IpcEvent::Connected => {
                self.connected = true;
                self.daemon_state = "idle".to_owned();
                if let Some(pending) = &self.wake_chime_bootstrap {
                    let path: String = pending.0.clone();
                    self.ipc.set_wake_chime_path(path);
                }
                let effects = and(
                    and(
                        and(no_effects(), Effect::Tooltip("JARVIS -- Connected")),
                        Effect::Emit(UiEvent::Connected),
                    ),
                    telling("idle"),
                );
                assert(effects.deep_view() =~= effects_of(old(self)@, event@));
                effects
            },
            IpcEvent::Disconnected => {
                self.connected = false;
                self.is_listening = false;
                self.daemon_state = "offline".to_owned();
                let effects = and(
                    and(
                        and(no_effects(), Effect::Tooltip("JARVIS -- Offline")),
                        Effect::Emit(UiEvent::Disconnected),
                    ),
                    telling("offline"),
                );
                assert(effects.deep_view() =~= effects_of(old(self)@, event@));
                effects
            },
            IpcEvent::State(now) => {
                self.is_listening = same_text(now.as_str(), "listening");
                self.daemon_state = now.clone();
                only(UiEvent::State(now))
            },
            IpcEvent::ResponseChunk { content, done } => {
                let effects = only(UiEvent::Chunk { content, done });
                if done {
                    self.daemon_state = "idle".to_owned();
                    let effects = and(effects, telling("idle"));
                    assert(effects.deep_view() =~= effects_of(old(self)@, event@));
                    effects
                } else {
                    effects
                }
            },
            IpcEvent::WakeWordDetected => {
                self.is_listening = true;
                self.daemon_state = "listening".to_owned();
                let effects = and(only(UiEvent::Wake), telling("listening"));
                assert(effects.deep_view() =~= effects_of(old(self)@, event@));
                effects
            },
            IpcEvent::ConfirmationRequest { id, tool_names } => only(
                UiEvent::Confirm { id, tool_names },
            ),
            IpcEvent::ConfirmationList(list) => only(UiEvent::ConfirmationList(list)),
            IpcEvent::Ack => no_effects(),
            IpcEvent::ConfigUpdated { key, value } => {
                let mut effects: Vec<Effect<P>> = no_effects();
                if same_text(key.as_str(), WAKE_CHIME_KEY) {
                    if let Some(pending) = self.wake_chime_bootstrap.take() {
                        effects = and(effects, Effect::WriteMarker(pending.1));
                    }
                }
                let effects = and(effects, Effect::Emit(UiEvent::ConfigUpdated { key, value }));
                assert(effects.deep_view() =~= effects_of(old(self)@, event@));
                effects
            },
            IpcEvent::ConfigError { key, message } => {
                let mut effects: Vec<Effect<P>> = no_effects();
                if same_text(key.as_str(), WAKE_CHIME_KEY) && self.wake_chime_bootstrap.is_some() {
                    effects = and(effects, Effect::ReportRejection(message.clone()));
                }
                let effects = and(effects, Effect::Emit(UiEvent::ConfigError { key, message }));
                assert(effects.deep_view() =~= effects_of(old(self)@, event@));
                effects
            },
            IpcEvent::Error(message) => only(UiEvent::Error(message)),
            IpcEvent::SessionList(sessions) => only(UiEvent::SessionList(sessions)),
            IpcEvent::SessionSwitched { session, messages } => only(
                UiEvent::SessionSwitched { session, messages },
            ),
            IpcEvent::SessionError(message) => only(UiEvent::SessionError(message)),
            IpcEvent::Settings { confirmation_mode, wake_chime_path } => only(
                UiEvent::Settings { confirmation_mode, wake_chime_path },
            ),
            IpcEvent::ProviderList(providers) => only(UiEvent::ProviderList(providers)),
            IpcEvent::ProviderError(message) => only(UiEvent::ProviderError(message)),
            IpcEvent::ClientList(clients) => only(UiEvent::ClientList(clients)),
            IpcEvent::DaemonShutdown { state, goals, session_id, timestamp_bits } => {
                let effects = and(
                    only(UiEvent::DaemonShutdown { state, goals, session_id, timestamp_bits }),
                    Effect::QuitIfSet,
                );
                assert(effects.deep_view() =~= effects_of(old(self)@, event@));
                effects
            },
        }
    }

    /// Takes in the oldest event that the client holds, and gives what is to be done for
    /// it; `None` where there is none. A client that is closed for good and holds none
    /// reads as disconnected.
    pub fn poll(&mut self) -> (effects: Option<Vec<Effect<P>>>)
        ensures
            final(self)@ == polled(old(self)@),
            effects is Some <==> polled_effects(old(self)@) is Some,
            effects matches Some(list) ==> polled_effects(old(self)@) == Some(list.deep_view()),
    {
        match self.ipc.try_recv() {
            Some(event) => Some(self.handle_event(event)),
            None => None,
        }
    }

    /// Asks the assistant something, unless there is nothing but white space in it.
    pub fn send_message(&mut self, content: String)
        ensures
            final(self)@ == if blank(content@) {
                old(self)@
            } else {
                AppStateView {
                    ipc: old(self)@.ipc.asking(IpcCommandView::SendMessage(content@)),
                    ..old(self)@
                }
            },
    {
        if is_blank(content.as_str()) {
            return;
        }
        self.ipc.send_message(content);
    }

    /// Has the daemon listen where it does not, and stop where it does. Gives what the
    /// user interface is to be told.
    pub fn toggle_listening(&mut self) -> (told: UiEvent)
        ensures
            final(self)@ == toggled(old(self)@),
            told@ == UiEventView::State(
                if old(self)@.is_listening {
                    "idle"@
                } else {
                    "listening"@
                },
            ),
    {
        if self.is_listening {
            self.ipc.stop_listening();
            self.is_listening = false;
            UiEvent::State("idle".to_owned())
        } else {
            self.ipc.start_listening();
            self.is_listening = true;
            UiEvent::State("listening".to_owned())
        }
    }

    /// Whether the connection is up, and what the daemon is doing.
    pub fn get_status(&self) -> (status: StatusPayload)
        ensures
            status.connected == self@.connected,
            status.state@ == self@.daemon_state,
    {
        StatusPayload { connected: self.connected, state: self.daemon_state.clone() }
    }
}

/// The state after some events.
pub open spec fn run_state<P>(state: AppStateView<P>, events: Seq<IpcEventView>) -> AppStateView<P>
    decreases events.len(),
{
    if events.len() == 0 {
        state
    } else {
        state_after(run_state(state, events.drop_last()), events.last())
    }
}

/// What some events have the application do, in order.
pub open spec fn run_effects<P>(state: AppStateView<P>, events: Seq<IpcEventView>) -> Seq<
    EffectView<P>,
>
    decreases events.len(),
{
    if events.len() == 0 {
        Seq::empty()
    } else {
        run_effects(state, events.drop_last()) + effects_of(
            run_state(state, events.drop_last()),
            events.last(),
        )
    }
}

/// The state after some polls.
pub open spec fn polled_often<P>(state: AppStateView<P>, n: nat) -> AppStateView<P>
    decreases n,
{
    if n == 0 {
        state
    } else {
        polled(polled_often(state, (n - 1) as nat))
    }
}

/// What some polls have the application do, in order.
pub open spec fn often_polled_effects<P>(state: AppStateView<P>, n: nat) -> Seq<EffectView<P>>
    decreases n,
{
    if n == 0 {
        Seq::empty()
    } else {
        let earlier = often_polled_effects(state, (n - 1) as nat);
        match polled_effects(polled_often(state, (n - 1) as nat)) {
            Some(effects) => earlier + effects,
            None => earlier,
        }
    }
}

/// What an event does has nothing to do with the events that come after it.
proof fn lemma_later_events_do_not_matter<P>(
    state: AppStateView<P>,
    event: IpcEventView,
    later: Seq<IpcEventView>,
)
    ensures
        state_after(with_events(state, later), event) == with_events(
            state_after(state, event),
            later,
        ),
        effects_of(with_events(state, later), event) == effects_of(state, event),
{
}

/// Polling takes the events that the client holds in order, each once: it makes of the
/// state, and has the application do, what the events do one after the other, and the
/// later events stay with the client.
pub proof fn law_polling_takes_events_in_order<P>(state: AppStateView<P>, n: nat)
    requires
        n <= state.ipc.events.len(),
    ensures
        polled_often(state, n) == with_events(
            run_state(state, state.ipc.events.take(n as int)),
            state.ipc.events.skip(n as int),
        ),
        often_polled_effects(state, n) == run_effects(state, state.ipc.events.take(n as int)),
    decreases n,
{
    let events = state.ipc.events;
    if n == 0 {
        assert(events.take(0) =~= Seq::empty());
        assert(events.skip(0) =~= events);
    } else {
        let m = (n - 1) as nat;
        let before = run_state(state, events.take(m as int));
        law_polling_takes_events_in_order(state, m);
        assert(events.take(n as int).drop_last() =~= events.take(m as int));
        assert(events.take(n as int).last() == events[m as int]);
        assert(events.skip(m as int).drop_first() =~= events.skip(n as int));
        assert(with_events(with_events(before, events.skip(m as int)), events.skip(n as int))
            == with_events(before, events.skip(n as int)));
        lemma_later_events_do_not_matter(before, events[m as int], events.skip(n as int));
    }
}

/// The markers that some effects write, in order.
pub open spec fn markers_written<P>(effects: Seq<EffectView<P>>) -> Seq<P>
    decreases effects.len(),
{
    if effects.len() == 0 {
        Seq::empty()
    } else {
        let earlier = markers_written(effects.drop_last());
        match effects.last() {
            EffectView::WriteMarker(marker) => earlier.push(marker),
            _ => earlier,
        }
    }
}

/// The state of the daemon that the user interface was last told, `before` where it was
/// told none.
pub open spec fn last_told<P>(effects: Seq<EffectView<P>>, before: Seq<char>) -> Seq<char>
    decreases effects.len(),
{
    if effects.len() == 0 {
        before
    } else {
        match effects.last() {
            EffectView::Emit(UiEventView::State(state)) => state,
            _ => last_told(effects.drop_last(), before),
        }
    }
}

/// Whether an event says that the daemon has taken a wake chime.
pub open spec fn takes_chime(event: IpcEventView) -> bool {
    event matches IpcEventView::ConfigUpdated { key, .. } && key == WAKE_CHIME_KEY@
}

/// Whether one of some events says that the daemon has taken a wake chime.
pub open spec fn chime_taken(events: Seq<IpcEventView>) -> bool {
    exists|i: int| 0 <= i < events.len() && takes_chime(#[trigger] events[i])
}

proof fn lemma_chime_taken_step(events: Seq<IpcEventView>)
    requires
        events.len() > 0,
    ensures
        chime_taken(events) <==> chime_taken(events.drop_last()) || takes_chime(events.last()),
{
    let front = events.drop_last();
    if chime_taken(front) {
        let i = choose|i: int| 0 <= i < front.len() && takes_chime(#[trigger] front[i]);
        assert(takes_chime(events[i]));
    }
    if takes_chime(events.last()) {
        assert(takes_chime(events[events.len() - 1]));
    }
    if chime_taken(events) && !takes_chime(events.last()) {
        let i = choose|i: int| 0 <= i < events.len() && takes_chime(#[trigger] events[i]);
        assert(takes_chime(front[i]));
    }
}

proof fn lemma_markers_append<P>(a: Seq<EffectView<P>>, b: Seq<EffectView<P>>)
    ensures
        markers_written(a + b) == markers_written(a) + markers_written(b),
    decreases b.len(),
{
    if b.len() == 0 {
        assert(a + b =~= a);
        assert(markers_written(a) + markers_written(b) =~= markers_written(a));
    } else {
        assert((a + b).drop_last() =~= a + b.drop_last());
        lemma_markers_append(a, b.drop_last());
        assert(markers_written(a + b) =~= markers_written(a) + markers_written(b));
    }
}

proof fn lemma_markers_of_one<P>(state: AppStateView<P>, event: IpcEventView)
    ensures
        markers_written(effects_of(state, event)) == match state.wake_chime_bootstrap {
            Some(pending) => if takes_chime(event) {
                seq![pending.1]
            } else {
                Seq::empty()
            },
            None => Seq::empty(),
        },
{
    reveal_with_fuel(markers_written, 5);
    let effects = effects_of(state, event);
    let expected = match state.wake_chime_bootstrap {
        Some(pending) => if takes_chime(event) {
            seq![pending.1]
        } else {
            Seq::empty()
        },
        None => Seq::empty(),
    };
    assert(effects.len() <= 3);
    assert(markers_written(effects) =~= expected);
}

/// The wake chime stays to be given until the daemon says that it has taken it, and is
/// asked for anew at the beginning of every connection until then; a daemon that
/// refuses it is asked again.
pub proof fn law_chime_is_asked_until_taken<P>(state: AppStateView<P>, events: Seq<IpcEventView>)
    ensures
        run_state(state, events).wake_chime_bootstrap == if chime_taken(events) {
            None
        } else {
            state.wake_chime_bootstrap
        },
        ({
            let now = run_state(state, events);
            state_after(now, IpcEventView::Connected).ipc == match now.wake_chime_bootstrap {
                Some(pending) => now.ipc.asking(
                    IpcCommandView::SetWakeChimePath { path: pending.0 },
                ),
                None => now.ipc,
            }
        }),
    decreases events.len(),
{
    if events.len() > 0 {
        law_chime_is_asked_until_taken(state, events.drop_last());
        lemma_chime_taken_step(events);
    }
}

/// The marker of the wake chime is written once, when the daemon first says that it has
/// taken the chime, and never otherwise.
pub proof fn law_marker_is_written_once<P>(state: AppStateView<P>, events: Seq<IpcEventView>)
    ensures
        markers_written(run_effects(state, events)) == match state.wake_chime_bootstrap {
            Some(pending) => if chime_taken(events) {
                seq![pending.1]
            } else {
                Seq::empty()
            },
            None => Seq::empty(),
        },
    decreases events.len(),
{
    if events.len() > 0 {
        let front = events.drop_last();
        let now = run_state(state, front);
        law_marker_is_written_once(state, front);
        law_chime_is_asked_until_taken(state, front);
        lemma_chime_taken_step(events);
        lemma_markers_of_one(now, events.last());
        lemma_markers_append(run_effects(state, front), effects_of(now, events.last()));
        assert(markers_written(run_effects(state, events)) =~= match state.wake_chime_bootstrap {
            Some(pending) => if chime_taken(events) {
                seq![pending.1]
            } else {
                Seq::empty()
            },
            None => Seq::empty(),
        });
    }
}

proof fn lemma_last_told_append<P>(a: Seq<EffectView<P>>, b: Seq<EffectView<P>>, before: Seq<char>)
    ensures
        last_told(a + b, before) == last_told(b, last_told(a, before)),
    decreases b.len(),
{
    if b.len() == 0 {
        assert(a + b =~= a);
    } else {
        assert((a + b).drop_last() =~= a + b.drop_last());
        lemma_last_told_append(a, b.drop_last(), before);
    }
}

/// The status is what the user interface was last told: one that asks for it late is
/// where one that heard every event is.
pub proof fn law_status_is_what_was_told<P>(state: AppStateView<P>, events: Seq<IpcEventView>)
    ensures
        last_told(run_effects(state, events), state.daemon_state) == run_state(
            state,
            events,
        ).daemon_state,
    decreases events.len(),
{
    if events.len() > 0 {
        let front = events.drop_last();
        let now = run_state(state, front);
        let effects = effects_of(now, events.last());
        law_status_is_what_was_told(state, front);
        lemma_last_told_append(run_effects(state, front), effects, state.daemon_state);
        reveal_with_fuel(last_told, 5);
        assert(effects.len() <= 3);
    }
}

/// Every event reaches the user interface but an acknowledgement: an error as it is, and
/// a setting of the daemon that was changed or refused as it is, whoever asked for it.
pub proof fn law_every_event_is_told<P>(state: AppStateView<P>, event: IpcEventView)
    ensures
        event != IpcEventView::Ack ==> exists|i: int|
            0 <= i < effects_of(state, event).len() && (#[trigger] effects_of(state, event)[i]) is Emit,
        event matches IpcEventView::Error(message) ==> effects_of(state, event).last()
            == EffectView::<P>::Emit(UiEventView::Error(message)),
        event matches IpcEventView::ConfigUpdated { key, value } ==> effects_of(
            state,
            event,
        ).last() == EffectView::<P>::Emit(UiEventView::ConfigUpdated { key, value }),
        event matches IpcEventView::ConfigError { key, message } ==> effects_of(
            state,
            event,
        ).last() == EffectView::<P>::Emit(UiEventView::ConfigError { key, message }),
{
    let effects = effects_of(state, event);
    if event != IpcEventView::Ack {
        assert(effects.len() > 0);
        assert(effects[0] is Emit || effects[1] is Emit);
    }
}

/// Only the beginning and the end of a connection change whether the application is
/// connected, and at its end the application is offline and does not listen.
pub proof fn law_connection_state<P>(state: AppStateView<P>, event: IpcEventView)
    ensures
        state_after(state, IpcEventView::Connected).connected,
        state_after(state, IpcEventView::Disconnected).connected == false,
        state_after(state, IpcEventView::Disconnected).is_listening == false,
        state_after(state, IpcEventView::Disconnected).daemon_state == "offline"@,
        event != IpcEventView::Connected && event != IpcEventView::Disconnected ==> state_after(
            state,
            event,
        ).connected == state.connected,
{
}

/// Listening turned around twice is as it was.
pub proof fn law_toggling_twice_restores_listening<P>(state: AppStateView<P>)
    ensures
        toggled(toggled(state)).is_listening == state.is_listening,
        toggled(state).is_listening != state.is_listening,
        toggled(toggled(state)).daemon_state == state.daemon_state,
        toggled(toggled(state)).ipc.commands == if state.is_listening {
            state.ipc.commands.push(IpcCommandView::StopListening).push(
                IpcCommandView::StartListening,
            )
        } else {
            state.ipc.commands.push(IpcCommandView::StartListening).push(
                IpcCommandView::StopListening,
            )
        },
{
}

/// Whether an event has the application tell the user interface one thing and do nothing
/// else.
pub open spec fn only_tells<P>(
    state: AppStateView<P>,
    event: IpcEventView,
    told: UiEventView,
) -> bool {
    effects_of(state, event).len() == 1 && effects_of(state, event)[0] == EffectView::<P>::Emit(told)
}

/// What the daemon only passes on reaches the user interface with all of its data, as it is
/// and once, and changes nothing here: confirmations, sessions and their messages, settings,
/// model providers, clients, and errors.
pub proof fn law_data_is_passed_on_whole<P>(state: AppStateView<P>, event: IpcEventView)
    ensures
        event matches IpcEventView::ConfirmationRequest { id, tool_names } ==> only_tells(
            state,
            event,
            UiEventView::Confirm { id, tool_names },
        ) && state_after(state, event) == state,
        event matches IpcEventView::ConfirmationList(list) ==> only_tells(
            state,
            event,
            UiEventView::ConfirmationList(list),
        ) && state_after(state, event) == state,
        event matches IpcEventView::Error(message) ==> only_tells(
            state,
            event,
            UiEventView::Error(message),
        ) && state_after(state, event) == state,
        event matches IpcEventView::SessionList(sessions) ==> only_tells(
            state,
            event,
            UiEventView::SessionList(sessions),
        ) && state_after(state, event) == state,
        event matches IpcEventView::SessionSwitched { session, messages } ==> only_tells(
            state,
            event,
            UiEventView::SessionSwitched { session, messages },
        ) && state_after(state, event) == state,
        event matches IpcEventView::SessionError(message) ==> only_tells(
            state,
            event,
            UiEventView::SessionError(message),
        ) && state_after(state, event) == state,
        event matches IpcEventView::Settings { confirmation_mode, wake_chime_path } ==> only_tells(
            state,
            event,
            UiEventView::Settings { confirmation_mode, wake_chime_path },
        ) && state_after(state, event) == state,
        event matches IpcEventView::ProviderList(providers) ==> only_tells(
            state,
            event,
            UiEventView::ProviderList(providers),
        ) && state_after(state, event) == state,
        event matches IpcEventView::ProviderError(message) ==> only_tells(
            state,
            event,
            UiEventView::ProviderError(message),
        ) && state_after(state, event) == state,
        event matches IpcEventView::ClientList(clients) ==> only_tells(
            state,
            event,
            UiEventView::ClientList(clients),
        ) && state_after(state, event) == state,
        event is Ack ==> effects_of(state, event).len() == 0 && state_after(state, event) == state,
{
}

/// A connection that begins makes the application connected and the daemon idle, a connection
/// that ends makes it offline and not listening, and both are shown at the tray and told. Of
/// the rest of the state, nothing changes but that a wake chime that is still to be given is
/// asked for.
pub proof fn law_connections_are_shown_and_told<P>(state: AppStateView<P>)
    ensures
        ({
            let up = state_after(state, IpcEventView::Connected);
            let told = effects_of(state, IpcEventView::Connected);
            &&& up.connected && up.daemon_state == "idle"@
            &&& up.is_listening == state.is_listening
            &&& up.wake_chime_bootstrap == state.wake_chime_bootstrap
            &&& up.ipc.events == state.ipc.events && up.ipc.closed == state.ipc.closed
            &&& state.wake_chime_bootstrap is None ==> up.ipc.commands == state.ipc.commands
            &&& state.wake_chime_bootstrap matches Some(pending) ==> up.ipc.commands
                == state.ipc.commands.push(IpcCommandView::SetWakeChimePath { path: pending.0 })
            &&& told.len() == 3
            &&& told[0] == EffectView::<P>::Tooltip("JARVIS -- Connected"@)
            &&& told[1] == EffectView::<P>::Emit(UiEventView::Connected)
            &&& told[2] == EffectView::<P>::Emit(UiEventView::State("idle"@))
        }),
        ({
            let down = state_after(state, IpcEventView::Disconnected);
            let told = effects_of(state, IpcEventView::Disconnected);
            &&& !down.connected && !down.is_listening && down.daemon_state == "offline"@
            &&& down.wake_chime_bootstrap == state.wake_chime_bootstrap
            &&& down.ipc == state.ipc
            &&& told.len() == 3
            &&& told[0] == EffectView::<P>::Tooltip("JARVIS -- Offline"@)
            &&& told[1] == EffectView::<P>::Emit(UiEventView::Disconnected)
            &&& told[2] == EffectView::<P>::Emit(UiEventView::State("offline"@))
        }),
{
}

/// What the daemon says that it does is what it does here, and what is told: it listens where
/// it says so or heard its wake word, and it is idle again after the last part of an answer.
/// Every part of an answer is told as it is.
pub proof fn law_the_daemon_does_what_it_says<P>(
    state: AppStateView<P>,
    now: Seq<char>,
    content: Seq<char>,
)
    ensures
        ({
            let after = state_after(state, IpcEventView::State(now));
            &&& after.daemon_state == now
            &&& after.is_listening <==> now == "listening"@
            &&& after.connected == state.connected && after.ipc == state.ipc
            &&& after.wake_chime_bootstrap == state.wake_chime_bootstrap
            &&& only_tells(state, IpcEventView::State(now), UiEventView::State(now))
        }),
        ({
            let after = state_after(state, IpcEventView::WakeWordDetected);
            let told = effects_of(state, IpcEventView::WakeWordDetected);
            &&& after.is_listening && after.daemon_state == "listening"@
            &&& after.connected == state.connected && after.ipc == state.ipc
            &&& after.wake_chime_bootstrap == state.wake_chime_bootstrap
            &&& told.len() == 2
            &&& told[0] == EffectView::<P>::Emit(UiEventView::Wake)
            &&& told[1] == EffectView::<P>::Emit(UiEventView::State("listening"@))
        }),
        ({
            let more = IpcEventView::ResponseChunk { content, done: false };
            &&& state_after(state, more) == state
            &&& only_tells(state, more, UiEventView::Chunk { content, done: false })
        }),
        ({
            let last = IpcEventView::ResponseChunk { content, done: true };
            let after = state_after(state, last);
            let told = effects_of(state, last);
            &&& after.daemon_state == "idle"@
            &&& after.is_listening == state.is_listening
            &&& after.connected == state.connected && after.ipc == state.ipc
            &&& after.wake_chime_bootstrap == state.wake_chime_bootstrap
            &&& told.len() == 2
            &&& told[0] == EffectView::<P>::Emit(UiEventView::Chunk { content, done: true })
            &&& told[1] == EffectView::<P>::Emit(UiEventView::State("idle"@))
        }),
{
}

/// That a setting of the daemon changed or was refused is told as it is. Where it is the
/// wake chime that was still to be given, the marker is written before, or the reason of the
/// refusal reported; only where it was taken is it no longer to be given. Nothing else
/// changes.
pub proof fn law_settings_of_the_daemon_are_told<P>(
    state: AppStateView<P>,
    key: Seq<char>,
    text: Seq<char>,
)
    ensures
        ({
            let event = IpcEventView::ConfigUpdated { key, value: text };
            let after = state_after(state, event);
            let effects = effects_of(state, event);
            let taken = key == "WAKE_CHIME_PATH"@;
            &&& effects.last() == EffectView::<P>::Emit(
                UiEventView::ConfigUpdated { key, value: text },
            )
            &&& taken && state.wake_chime_bootstrap is Some ==> effects.len() == 2 && effects[0]
                == EffectView::WriteMarker((state.wake_chime_bootstrap->0).1)
            &&& !taken || state.wake_chime_bootstrap is None ==> effects.len() == 1
            &&& taken ==> after.wake_chime_bootstrap is None
            &&& !taken ==> after.wake_chime_bootstrap == state.wake_chime_bootstrap
            &&& after.ipc == state.ipc && after.connected == state.connected
            &&& after.is_listening == state.is_listening
            &&& after.daemon_state == state.daemon_state
        }),
        ({
            let event = IpcEventView::ConfigError { key, message: text };
            let effects = effects_of(state, event);
            let refused = key == "WAKE_CHIME_PATH"@ && state.wake_chime_bootstrap is Some;
            &&& effects.last() == EffectView::<P>::Emit(
                UiEventView::ConfigError { key, message: text },
            )
            &&& refused ==> effects.len() == 2 && effects[0] == EffectView::<P>::ReportRejection(
                text,
            )
            &&& !refused ==> effects.len() == 1
            &&& state_after(state, event) == state
        }),
{
}

/// That the daemon shuts down is told with all that it said of it, and then the application
/// quits if it is set to. Nothing changes here.
pub proof fn law_a_shutdown_is_told_before_quitting<P>(
    state: AppStateView<P>,
    now: Seq<char>,
    goals: Seq<JsonTree>,
    session_id: Option<Seq<char>>,
    timestamp_bits: u64,
)
    ensures
        ({
            let event = IpcEventView::DaemonShutdown { state: now, goals, session_id, timestamp_bits };
            let effects = effects_of(state, event);
            &&& effects.len() == 2
            &&& effects[0] == EffectView::<P>::Emit(
                UiEventView::DaemonShutdown { state: now, goals, session_id, timestamp_bits },
            )
            &&& effects[1] == EffectView::<P>::QuitIfSet
            &&& state_after(state, event) == state
        }),
{
}

/// Turning listening around asks the daemon for the opposite of what is, once and as the
/// last of the requests, and changes nothing else.
pub proof fn law_toggling_asks_for_the_opposite<P>(state: AppStateView<P>)
    ensures
        toggled(state).is_listening == !state.is_listening,
        state.is_listening ==> toggled(state).ipc.commands == state.ipc.commands.push(
            IpcCommandView::StopListening,
        ),
        !state.is_listening ==> toggled(state).ipc.commands == state.ipc.commands.push(
            IpcCommandView::StartListening,
        ),
        toggled(state).ipc.events == state.ipc.events,
        toggled(state).ipc.closed == state.ipc.closed,
        toggled(state).connected == state.connected,
        toggled(state).daemon_state == state.daemon_state,
        toggled(state).wake_chime_bootstrap == state.wake_chime_bootstrap,
{
}

/// With no event to receive, polling does nothing while more can come; once none can, the
/// application is offline.
pub proof fn law_polling_without_events<P>(state: AppStateView<P>)
    requires
        state.ipc.events.len() == 0,
    ensures
        !state.ipc.closed ==> polled(state) == state && polled_effects(state) is None,
        state.ipc.closed ==> !polled(state).connected && !polled(state).is_listening
            && polled(state).daemon_state == "offline"@ && polled(state).ipc == state.ipc
            && polled_effects(state) == Some(effects_of(state, IpcEventView::Disconnected)),
{
}

/// The state, and what is done, are seen as they are.
pub proof fn law_state_and_effects_are_seen_as_they_are<P>(
    state: AppState<P>,
    text: &'static str,
    event: UiEvent,
    marker: P,
    reason: String,
)
    ensures
        state@.ipc == state.ipc@,
        state@.is_listening == state.is_listening,
        state@.connected == state.connected,
        state@.daemon_state == state.daemon_state@,
        state.wake_chime_bootstrap is None <==> state@.wake_chime_bootstrap is None,
        state.wake_chime_bootstrap matches Some(pending) ==> state@.wake_chime_bootstrap == Some(
            (pending.0@, pending.1),
        ),
        Effect::<P>::Tooltip(text).deep_view() == EffectView::<P>::Tooltip(text@),
        Effect::<P>::Emit(event).deep_view() == EffectView::<P>::Emit(event@),
        Effect::<P>::WriteMarker(marker).deep_view() == EffectView::<P>::WriteMarker(marker),
        Effect::<P>::ReportRejection(reason).deep_view() == EffectView::<P>::ReportRejection(
            reason@,
        ),
        Effect::<P>::QuitIfSet.deep_view() == EffectView::<P>::QuitIfSet,
{
}

/// A poll takes the oldest event from the client and no other: it does what the event does,
/// and leaves the later events to be received.
pub proof fn law_a_poll_takes_the_oldest_event<P>(state: AppStateView<P>)
    requires
        state.ipc.events.len() > 0,
    ensures
        ({
            let oldest = state.ipc.events[0];
            let after = state_after(state, oldest);
            &&& polled(state).ipc.events == state.ipc.events.drop_first()
            &&& polled(state).ipc.commands == after.ipc.commands
            &&& polled(state).ipc.closed == after.ipc.closed
            &&& polled(state).is_listening == after.is_listening
            &&& polled(state).connected == after.connected
            &&& polled(state).daemon_state == after.daemon_state
            &&& polled(state).wake_chime_bootstrap == after.wake_chime_bootstrap
            &&& polled_effects(state) == Some(effects_of(state, oldest))
        }),
{
    lemma_later_events_do_not_matter(state, state.ipc.events[0], state.ipc.events.drop_first());
}

} // verus!
