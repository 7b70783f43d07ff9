//! The decisions of the two threads that serve a connection, and of the one that
//! keeps making connections. The threads themselves only wait, read and write.

use vstd::prelude::*;
use vstd::string::*;

use crate::command::{
    command_line, command_line_text, command_tree, is_one_line, must_be_written, must_reach, reads,
    reads_back, IpcCommand, IpcCommandView,
};
use crate::event::{
    law_messages_leave_the_connection, line_event, parse_daemon_message, IpcEvent, IpcEventView,
};
use crate::json::{json_document, json_text, same_but_floats};

verus! {

/// How long to wait before the next attempt at a connection, in milliseconds.
pub const RECONNECT_DELAY_MS: u64 = 2000;

/// How long to wait for a request before looking at the inbox again, in milliseconds.
pub const COMMAND_POLL_MS: u64 = 50;

/// What came from the daemon's end of the connection.
#[derive(Debug, PartialEq)]
pub enum LineRead {
    /// A line, without its end.
    Line(String),
    /// The line could not be read.
    Failed,
}

/// What the reading thread does with it.
#[derive(Debug, PartialEq)]
pub enum ReaderAction {
    /// Put the event in the inbox, and read on.
    Pass(IpcEvent),
    /// Read on.
    Skip,
    /// Put the failure in the inbox, and end.
    Fail,
}

/// What the inbox of a connection holds.
#[derive(Debug, PartialEq)]
pub enum Inbox {
    Event(IpcEvent),
    /// A line could not be read.
    ReadFailed,
    /// Nothing, yet.
    Empty,
    /// Nothing, for good.
    Closed,
}

/// What the client asks for.
#[derive(Debug, PartialEq)]
pub enum Pending {
    Command(IpcCommand),
    /// Nothing, yet.
    Nothing,
    /// Nothing, for good: the client is gone.
    Closed,
}

/// What the thread of a connection does next.
#[derive(Debug, PartialEq)]
pub enum Action {
    /// Look at the inbox.
    PollInbox,
    /// Hand the event to the client.
    Forward(IpcEvent),
    /// Wait for a request.
    AwaitCommand,
    /// Write the line. Where it `must` be written, the connection ends on a failure.
    Write { line: String, must: bool },
    /// End the connection.
    Stop,
}

/// The content of an action.
pub enum ActionView {
    PollInbox,
    Forward(IpcEventView),
    AwaitCommand,
    Write { line: Seq<char>, must: bool },
    Stop,
}

impl View for Action {
    type V = ActionView;

    open spec fn view(&self) -> ActionView {
        match *self {
            Action::PollInbox => ActionView::PollInbox,
            Action::Forward(event) => ActionView::Forward(event@),
            Action::AwaitCommand => ActionView::AwaitCommand,
            Action::Write { line, must } => ActionView::Write { line: line@, must },
            Action::Stop => ActionView::Stop,
        }
    }
}

/// What the inbox of a connection holds, by content.
pub enum InboxView {
    Event(IpcEventView),
    ReadFailed,
    Empty,
    Closed,
}

impl View for Inbox {
    type V = InboxView;

    open spec fn view(&self) -> InboxView {
        match *self {
            Inbox::Event(event) => InboxView::Event(event@),
            Inbox::ReadFailed => InboxView::ReadFailed,
            Inbox::Empty => InboxView::Empty,
            Inbox::Closed => InboxView::Closed,
        }
    }
}

/// What the client asks for, by content.
pub enum PendingView {
    Command(IpcCommandView),
    Nothing,
    Closed,
}

impl View for Pending {
    type V = PendingView;

    open spec fn view(&self) -> PendingView {
        match *self {
            Pending::Command(command) => PendingView::Command(command@),
            Pending::Nothing => PendingView::Nothing,
            Pending::Closed => PendingView::Closed,
        }
    }
}

/// What the reading thread does with what it read: an empty line says nothing.
pub fn reader_step(read: LineRead) -> (action: ReaderAction)
    ensures
        match read {
            LineRead::Line(line) => if line@.len() == 0 {
                action is Skip
            } else {
                action matches ReaderAction::Pass(event) && event@ == line_event(
                    line@,
                    json_document(line@),
                )
            },
            LineRead::Failed => action is Fail,
        },
{
    match read {
        LineRead::Line(line) => if line.as_str().is_empty() {
            ReaderAction::Skip
        } else {
            ReaderAction::Pass(parse_daemon_message(line.as_str()))
        },
        LineRead::Failed => ReaderAction::Fail,
    }
}

/// What is done with what the inbox holds.
pub open spec fn inbox_action(inbox: InboxView) -> ActionView {
    match inbox {
        InboxView::Event(event) => ActionView::Forward(event),
        InboxView::ReadFailed => ActionView::Stop,
        InboxView::Empty => ActionView::AwaitCommand,
        InboxView::Closed => ActionView::Stop,
    }
}

/// What to do with what the inbox holds. It is emptied before a request is waited for.
pub fn on_inbox(inbox: Inbox) -> (action: Action)
    ensures
        action@ == inbox_action(inbox@),
{
    match inbox {
        Inbox::Event(event) => Action::Forward(event),
        Inbox::ReadFailed => Action::Stop,
        Inbox::Empty => Action::AwaitCommand,
        Inbox::Closed => Action::Stop,
    }
}

/// What is done after an event was handed to the client, or could not be.
pub open spec fn forwarded_action(delivered: bool) -> ActionView {
    if delivered {
        ActionView::PollInbox
    } else {
        ActionView::Stop
    }
}

/// What to do after an event was handed to the client, or could not be.
pub fn on_forwarded(delivered: bool) -> (action: Action)
    ensures
        action@ == forwarded_action(delivered),
{
    if delivered {
        Action::PollInbox
    } else {
        Action::Stop
    }
}

/// What is done about what the client asks for.
pub open spec fn pending_action(pending: PendingView) -> ActionView {
    match pending {
        PendingView::Command(command) => ActionView::Write {
            line: command_line_text(command),
            must: must_reach(command),
        },
        PendingView::Nothing => ActionView::PollInbox,
        PendingView::Closed => ActionView::Stop,
    }
}

/// What to do about what the client asks for. A request is written as one line, which
/// reads back as the request's object, as far as its floats allow.
pub fn on_pending(pending: Pending) -> (action: Action)
    ensures
        action@ == pending_action(pending@),
        pending is Command ==> is_one_line(action@->line),
        pending matches Pending::Command(command) && reads_back(command@)
            ==> json_document((action@->line).drop_last()) == Some(command_tree(pending->0@)),
        pending matches Pending::Command(command) && reads(command@)
            ==> json_document((action@->line).drop_last()) is Some,
        pending matches Pending::Command(command)
            ==> (json_document((action@->line).drop_last()) matches Some(read)
            ==> same_but_floats(read, command_tree(command@))),
{
    match pending {
        Pending::Command(command) => {
            let must: bool = must_be_written(&command);
            Action::Write { line: command_line(command), must }
        },
        Pending::Nothing => Action::PollInbox,
        Pending::Closed => Action::Stop,
    }
}

/// What is done after a line was written, or could not be.
pub open spec fn written_action(written: bool, must: bool) -> ActionView {
    if must && !written {
        ActionView::Stop
    } else {
        ActionView::PollInbox
    }
}

/// What to do after a line was written, or could not be.
pub fn on_written(written: bool, must: bool) -> (action: Action)
    ensures
        action@ == written_action(written, must),
{
    if must && !written {
        Action::Stop
    } else {
        Action::PollInbox
    }
}

/// A request ends the connection only where it could not be written, and only where it
/// is something that the user said, or the wish to speak. After any other the inbox is
/// looked at again.
pub proof fn law_few_requests_end_the_connection(command: IpcCommandView, written: bool)
    ensures
        written_action(written, must_reach(command)) == ActionView::Stop <==> !written && (
        command is SendMessage || command is StartListening),
        written || !(command is SendMessage || command is StartListening) ==> written_action(
            written,
            must_reach(command),
        ) == ActionView::PollInbox,
{
}

/// The events that mark a connection, at its beginning and at its end. An attempt that
/// made no connection has none.
pub fn connection_marks(connected: bool) -> (marks: Option<(IpcEvent, IpcEvent)>)
    ensures
        marks is Some <==> connected,
        marks matches Some(pair) ==> pair.0@ == IpcEventView::Connected && pair.1@
            == IpcEventView::Disconnected,
{
    if connected {
        Some((IpcEvent::Connected, IpcEvent::Disconnected))
    } else {
        None
    }
}

/// How long the next attempt at a connection waits, in milliseconds, given what is asked
/// for after the last; `None` where there is no next.
pub open spec fn delay_after(pending: PendingView) -> Option<u64> {
    if pending is Closed {
        None
    } else {
        Some(RECONNECT_DELAY_MS)
    }
}

/// How long to wait, in milliseconds, before the next attempt at a connection; `None`
/// where the client is gone, for then nothing will ever be asked again.
///
/// A request that is found between two attempts is dropped.
pub fn between_attempts(pending: Pending) -> (delay: Option<u64>)
    ensures
        delay == delay_after(pending@),
{
    match pending {
        Pending::Closed => None,
        _ => Some(RECONNECT_DELAY_MS),
    }
}

/// What came of an action.
pub enum Happening {
    Inbox(InboxView),
    Forwarded(bool),
    Pending(PendingView),
    Written(bool),
}

/// Whether something is what can come of an action. Nothing comes of the end.
pub open spec fn comes_of(action: ActionView, happening: Happening) -> bool {
    match action {
        ActionView::PollInbox => happening is Inbox,
        ActionView::Forward(_) => happening is Forwarded,
        ActionView::AwaitCommand => happening is Pending,
        ActionView::Write { .. } => happening is Written,
        ActionView::Stop => false,
    }
}

/// The action after an action, given what came of it.
pub open spec fn next_action(action: ActionView, happening: Happening) -> ActionView {
    match happening {
        Happening::Inbox(inbox) => inbox_action(inbox),
        Happening::Forwarded(delivered) => forwarded_action(delivered),
        Happening::Pending(pending) => pending_action(pending),
        Happening::Written(written) => written_action(
            written,
            action matches ActionView::Write { must, .. } && must,
        ),
    }
}

/// What the thread of a connection does next, after all that has come of what it did. It
/// begins with a look at the inbox.
pub open spec fn action_after(run: Seq<Happening>) -> ActionView
    decreases run.len(),
{
    if run.len() == 0 {
        ActionView::PollInbox
    } else {
        next_action(action_after(run.drop_last()), run.last())
    }
}

/// Whether a connection can run so: each happening is what can come of the action that
/// it followed.
pub open spec fn is_run(run: Seq<Happening>) -> bool
    decreases run.len(),
{
    run.len() > 0 ==> is_run(run.drop_last()) && comes_of(action_after(run.drop_last()), run.last())
}

/// The requests that a connection took from the client, in order.
pub open spec fn taken(run: Seq<Happening>) -> Seq<IpcCommandView>
    decreases run.len(),
{
    if run.len() == 0 {
        Seq::empty()
    } else {
        match run.last() {
            Happening::Pending(PendingView::Command(command)) => taken(run.drop_last()).push(
                command,
            ),
            _ => taken(run.drop_last()),
        }
    }
}

/// The lines that a connection gave to be written, in order, whether or not they could be.
pub open spec fn lines_given(run: Seq<Happening>) -> Seq<Seq<char>>
    decreases run.len(),
{
    if run.len() == 0 {
        Seq::empty()
    } else {
        match action_after(run.drop_last()) {
            ActionView::Write { line, .. } => lines_given(run.drop_last()).push(line),
            _ => lines_given(run.drop_last()),
        }
    }
}

/// The lines that a connection wrote, in order.
pub open spec fn lines_written(run: Seq<Happening>) -> Seq<Seq<char>>
    decreases run.len(),
{
    if run.len() == 0 {
        Seq::empty()
    } else {
        match action_after(run.drop_last()) {
            ActionView::Write { line, .. } => if run.last() == Happening::Written(true) {
                lines_written(run.drop_last()).push(line)
            } else {
                lines_written(run.drop_last())
            },
            _ => lines_written(run.drop_last()),
        }
    }
}

/// The lines of some requests, one each.
pub open spec fn lines_of(commands: Seq<IpcCommandView>) -> Seq<Seq<char>> {
    commands.map_values(|command: IpcCommandView| command_line_text(command))
}

/// Whether nothing that was given to be written failed to be.
pub open spec fn all_written(run: Seq<Happening>) -> bool {
    !run.contains(Happening::Written(false))
}

/// The line of one request more.
proof fn lemma_lines_of_push(commands: Seq<IpcCommandView>, command: IpcCommandView)
    ensures
        lines_of(commands.push(command)) == lines_of(commands).push(command_line_text(command)),
{
    assert(lines_of(commands.push(command)) =~= lines_of(commands).push(
        command_line_text(command),
    ));
}

/// What does not occur in a run does not occur in the run before its last happening.
proof fn lemma_not_before(run: Seq<Happening>, happening: Happening)
    requires
        run.len() > 0,
        !run.contains(happening),
    ensures
        !run.drop_last().contains(happening),
        run.last() != happening,
{
    let front = run.drop_last();
    if front.contains(happening) {
        let i = choose|i: int| 0 <= i < front.len() && front[i] == happening;
        assert(run[i] == happening);
    }
    assert(run[run.len() - 1] == run.last());
}

/// A connection gives one line to be written for each request that it takes, in the order
/// in which it takes them, and the line depends on the request alone: none is lost, none
/// doubled. The last one is yet to be given only while it is what the connection does
/// next. Where every write succeeds, the lines given are the lines written.
pub proof fn law_each_request_taken_is_one_line(run: Seq<Happening>)
    requires
        is_run(run),
    ensures
        action_after(run) matches ActionView::Write { line, .. } ==> lines_of(taken(run))
            == lines_given(run).push(line),
        !(action_after(run) is Write) ==> lines_of(taken(run)) == lines_given(run),
        all_written(run) ==> lines_written(run) == lines_given(run),
    decreases run.len(),
{
    if run.len() == 0 {
        assert(lines_of(taken(run)) =~= Seq::empty());
    } else {
        let front = run.drop_last();
        law_each_request_taken_is_one_line(front);
        if let Happening::Pending(PendingView::Command(command)) = run.last() {
            lemma_lines_of_push(taken(front), command);
        }
        if all_written(run) {
            lemma_not_before(run, Happening::Written(false));
        }
    }
}

/// Lines as they are on the wire, one after the other.
pub open spec fn stream(lines: Seq<Seq<char>>) -> Seq<char>
    decreases lines.len(),
{
    if lines.len() == 0 {
        Seq::empty()
    } else {
        stream(lines.drop_last()) + lines.last()
    }
}

/// The lines of a text, each with the newline that ends it. What stands behind the last
/// newline is a line without one.
pub open spec fn split_lines(text: Seq<char>) -> Seq<Seq<char>>
    decreases text.len(),
{
    if text.len() == 0 {
        Seq::empty()
    } else {
        let front = split_lines(text.drop_last());
        if front.len() == 0 || front.last().last() == '\n' {
            front.push(seq![text.last()])
        } else {
            front.drop_last().push(front.last().push(text.last()))
        }
    }
}

/// A line begun behind whole lines is split off from them.
proof fn lemma_split_partial(lines: Seq<Seq<char>>, text: Seq<char>, begun: Seq<char>)
    requires
        split_lines(text) == lines,
        lines.len() > 0 ==> lines.last().len() > 0 && lines.last().last() == '\n',
        !begun.contains('\n'),
    ensures
        begun.len() == 0 ==> split_lines(text + begun) == lines,
        begun.len() > 0 ==> split_lines(text + begun) == lines.push(begun),
    decreases begun.len(),
{
    if begun.len() == 0 {
        assert(text + begun =~= text);
    } else {
        let shorter = begun.drop_last();
        assert forall|i: int| 0 <= i < shorter.len() implies shorter[i] != '\n' by {
            assert(begun[i] == shorter[i]);
            assert(begun.contains(begun[i]));
        }
        lemma_split_partial(lines, text, shorter);
        assert((text + begun).drop_last() =~= text + shorter);
        assert((text + begun).last() == begun.last());
        if shorter.len() == 0 {
            assert(begun =~= seq![begun.last()]);
        } else {
            assert(shorter.last() != '\n');
            assert(lines.push(shorter).drop_last() =~= lines);
            assert(begun =~= shorter.push(begun.last()));
        }
    }
}

/// Lines on the wire are told apart again, whatever they hold: what is written as some
/// lines, each with one newline and that its last character, splits into these lines. None
/// is merged with another, and none split.
pub proof fn law_the_wire_splits_into_the_lines(lines: Seq<Seq<char>>)
    requires
        forall|i: int| 0 <= i < lines.len() ==> is_one_line(#[trigger] lines[i]),
    ensures
        split_lines(stream(lines)) == lines,
    decreases lines.len(),
{
    if lines.len() == 0 {
        assert(lines =~= Seq::empty());
    } else {
        let front = lines.drop_last();
        let line = lines.last();
        let text = stream(front);
        assert forall|i: int| 0 <= i < front.len() implies is_one_line(#[trigger] front[i]) by {
            assert(front[i] == lines[i]);
        }
        law_the_wire_splits_into_the_lines(front);
        assert(is_one_line(lines[lines.len() - 1]));
        if front.len() > 0 {
            assert(is_one_line(front[front.len() - 1]));
        }
        let begun = line.drop_last();
        lemma_split_partial(front, text, begun);
        assert((text + line).drop_last() =~= text + begun);
        assert((text + line).last() == '\n');
        assert(lines =~= front.push(line));
        if begun.len() == 0 {
            assert(line =~= seq!['\n']);
        } else {
            assert(begun.last() != '\n') by {
                assert(begun.contains(begun.last()));
            }
            assert(front.push(begun).drop_last() =~= front);
            assert(line =~= begun.push('\n'));
        }
    }
}

/// The daemon reads the requests that a connection took, in order, one line each, from what
/// the connection wrote, where every write succeeds and none is still to come. That the
/// line of a request is one line is what is owed where it is made.
pub proof fn law_the_wire_holds_the_requests(run: Seq<Happening>)
    requires
        is_run(run),
        all_written(run),
        !(action_after(run) is Write),
        forall|i: int|
            0 <= i < taken(run).len() ==> is_one_line(command_line_text(#[trigger] taken(run)[i])),
    ensures
        split_lines(stream(lines_written(run))) == lines_of(taken(run)),
        split_lines(stream(lines_written(run))).len() == taken(run).len(),
{
    let lines = lines_of(taken(run));
    law_each_request_taken_is_one_line(run);
    assert forall|i: int| 0 <= i < lines.len() implies is_one_line(#[trigger] lines[i]) by {
        assert(lines[i] == command_line_text(taken(run)[i]));
    }
    law_the_wire_splits_into_the_lines(lines);
}

/// The events that a connection took from its inbox, in order.
pub open spec fn inbox_events(run: Seq<Happening>) -> Seq<IpcEventView>
    decreases run.len(),
{
    if run.len() == 0 {
        Seq::empty()
    } else {
        match run.last() {
            Happening::Inbox(InboxView::Event(event)) => inbox_events(run.drop_last()).push(event),
            _ => inbox_events(run.drop_last()),
        }
    }
}

/// The events that a connection handed to the client, in order. Only the last can have
/// found the client gone, for the connection ends on that.
pub open spec fn events_handed(run: Seq<Happening>) -> Seq<IpcEventView>
    decreases run.len(),
{
    if run.len() == 0 {
        Seq::empty()
    } else {
        match action_after(run.drop_last()) {
            ActionView::Forward(event) => events_handed(run.drop_last()).push(event),
            _ => events_handed(run.drop_last()),
        }
    }
}

/// A connection hands each event of its inbox to the client, in order and once. The last
/// one is yet to be handed over only while it is what the connection does next, so that no
/// request is waited for before.
pub proof fn law_events_of_the_inbox_are_handed_over(run: Seq<Happening>)
    requires
        is_run(run),
    ensures
        action_after(run) matches ActionView::Forward(event) ==> inbox_events(run)
            == events_handed(run).push(event),
        !(action_after(run) is Forward) ==> inbox_events(run) == events_handed(run),
    decreases run.len(),
{
    if run.len() > 0 {
        law_events_of_the_inbox_are_handed_over(run.drop_last());
    }
}

/// A connection ends only where reading failed or came to its end, where the client is
/// gone, or where a request that must reach the daemon could not be written.
pub proof fn law_what_ends_a_connection(run: Seq<Happening>)
    requires
        is_run(run),
    ensures
        action_after(run) is Stop <==> run.len() > 0 && match run.last() {
            Happening::Inbox(inbox) => inbox is ReadFailed || inbox is Closed,
            Happening::Forwarded(delivered) => !delivered,
            Happening::Pending(pending) => pending is Closed,
            Happening::Written(written) => !written && action_after(run.drop_last())->must,
        },
{
}

/// The events that the reading thread puts in the inbox for some lines, in order: one for
/// each line that is not empty.
pub open spec fn events_read(lines: Seq<Seq<char>>) -> Seq<IpcEventView>
    decreases lines.len(),
{
    if lines.len() == 0 {
        Seq::empty()
    } else {
        let earlier = events_read(lines.drop_last());
        if lines.last().len() == 0 {
            earlier
        } else {
            earlier.push(line_event(lines.last(), json_document(lines.last())))
        }
    }
}

/// A connection that was made: the lines that came on it, and how it ran.
pub struct Served {
    pub lines: Seq<Seq<char>>,
    pub run: Seq<Happening>,
}

/// One attempt at a connection, `None` where it failed, and what the client was found to
/// ask for after it.
pub struct Attempt {
    pub served: Option<Served>,
    pub pending: PendingView,
}

/// Whether a connection ran to its end on an inbox that gives what was read, in order: what
/// the run found in it is the beginning of that.
pub open spec fn ran_to_its_end(served: Served) -> bool {
    &&& is_run(served.run)
    &&& action_after(served.run) is Stop
    &&& inbox_events(served.run).is_prefix_of(events_read(served.lines))
}

/// The events that the client is sent for an attempt.
pub open spec fn attempt_events(attempt: Attempt) -> Seq<IpcEventView> {
    match attempt.served {
        Some(served) => seq![IpcEventView::Connected] + events_handed(served.run)
            + seq![IpcEventView::Disconnected],
        None => Seq::empty(),
    }
}

/// Whether the thread that makes connections can go so: it goes on after every attempt
/// but the last, and the connections run to their end.
pub open spec fn are_attempts(attempts: Seq<Attempt>) -> bool {
    &&& forall|i: int|
        0 <= i < attempts.len() ==> ((#[trigger] attempts[i]).served matches Some(served)
            ==> ran_to_its_end(served))
    &&& forall|i: int|
        0 <= i < attempts.len() - 1 ==> delay_after((#[trigger] attempts[i]).pending) is Some
}

/// The events that the client is sent for some attempts, in order.
pub open spec fn events_sent(attempts: Seq<Attempt>) -> Seq<IpcEventView>
    decreases attempts.len(),
{
    if attempts.len() == 0 {
        Seq::empty()
    } else {
        events_sent(attempts.drop_last()) + attempt_events(attempts.last())
    }
}

/// Whether the client is connected after some events; `None` where they are not in order:
/// where a connection begins in another, or anything else comes while there is none.
pub open spec fn connected_after(events: Seq<IpcEventView>) -> Option<bool>
    decreases events.len(),
{
    if events.len() == 0 {
        Some(false)
    } else {
        match connected_after(events.drop_last()) {
            Some(connected) => if connected {
                if events.last() is Connected {
                    None
                } else {
                    Some(!(events.last() is Disconnected))
                }
            } else if events.last() is Connected {
                Some(true)
            } else {
                None
            },
            None => None,
        }
    }
}

/// What is read from the daemon marks no connection.
proof fn lemma_events_read_are_no_marks(lines: Seq<Seq<char>>)
    ensures
        forall|i: int|
            0 <= i < events_read(lines).len() ==> !((#[trigger] events_read(lines)[i]) is Connected)
                && !(events_read(lines)[i] is Disconnected),
    decreases lines.len(),
{
    if lines.len() > 0 {
        let earlier = events_read(lines.drop_last());
        lemma_events_read_are_no_marks(lines.drop_last());
        law_messages_leave_the_connection(lines.last(), json_document(lines.last()));
        assert forall|i: int| 0 <= i < events_read(lines).len() implies !(
        (#[trigger] events_read(lines)[i]) is Connected) && !(events_read(lines)[i] is Disconnected) by {
            if i < earlier.len() {
                assert(events_read(lines)[i] == earlier[i]);
            }
        }
    }
}

/// Events that mark no connection leave one that is there.
proof fn lemma_messages_in_a_connection(before: Seq<IpcEventView>, events: Seq<IpcEventView>)
    requires
        connected_after(before) == Some(true),
        forall|i: int|
            0 <= i < events.len() ==> !((#[trigger] events[i]) is Connected) && !(
            events[i] is Disconnected),
    ensures
        connected_after(before + events) == Some(true),
    decreases events.len(),
{
    if events.len() == 0 {
        assert(before + events =~= before);
    } else {
        let front = events.drop_last();
        assert forall|i: int| 0 <= i < front.len() implies !((#[trigger] front[i]) is Connected) && !(
        front[i] is Disconnected) by {
            assert(front[i] == events[i]);
        }
        lemma_messages_in_a_connection(before, front);
        assert((before + events).drop_last() =~= before + front);
        assert(events.last() == events[events.len() - 1]);
    }
}

/// An attempt leaves the client without a connection, as it found it.
proof fn lemma_attempt_is_marked(before: Seq<IpcEventView>, attempt: Attempt)
    requires
        connected_after(before) == Some(false),
        attempt.served matches Some(served) ==> ran_to_its_end(served),
    ensures
        connected_after(before + attempt_events(attempt)) == Some(false),
{
    match attempt.served {
        Some(served) => {
            let handed = events_handed(served.run);
            let all = events_read(served.lines);
            law_events_of_the_inbox_are_handed_over(served.run);
            lemma_events_read_are_no_marks(served.lines);
            assert forall|i: int| 0 <= i < handed.len() implies !((#[trigger] handed[i]) is Connected)
                && !(handed[i] is Disconnected) by {
                assert(all[i] == handed[i]);
            }
            let begun = before.push(IpcEventView::Connected);
            assert(begun.drop_last() =~= before);
            lemma_messages_in_a_connection(begun, handed);
            let ended = (begun + handed).push(IpcEventView::Disconnected);
            assert(ended.drop_last() =~= begun + handed);
            assert(before + attempt_events(attempt) =~= ended);
        },
        None => {
            assert(before + attempt_events(attempt) =~= before);
        },
    }
}

/// Whatever attempts succeed or fail, the client is sent a beginning, the daemon's events
/// and an end for each connection that was made, in this order, and nothing for an attempt
/// that failed. What stands between the marks is what the daemon said on this connection,
/// in order, from the first on. After each attempt but the last the thread waits, and it
/// ends only once the client is gone.
pub proof fn law_connections_are_marked(attempts: Seq<Attempt>)
    requires
        are_attempts(attempts),
    ensures
        connected_after(events_sent(attempts)) == Some(false),
        forall|i: int|
            0 <= i < attempts.len() ==> ((#[trigger] attempts[i]).served matches Some(served)
                ==> events_handed(served.run).is_prefix_of(events_read(served.lines))
                && attempt_events(attempts[i]) == seq![IpcEventView::Connected] + events_handed(
                served.run,
            ) + seq![IpcEventView::Disconnected]),
        forall|i: int|
            0 <= i < attempts.len() && (#[trigger] attempts[i]).served is None ==> attempt_events(
                attempts[i],
            ).len() == 0,
        forall|i: int|
            0 <= i < attempts.len() - 1 ==> delay_after((#[trigger] attempts[i]).pending) == Some(
                RECONNECT_DELAY_MS,
            ),
        attempts.len() > 0 ==> (delay_after(attempts.last().pending) is None
            <==> attempts.last().pending is Closed),
    decreases attempts.len(),
{
    if attempts.len() > 0 {
        let front = attempts.drop_last();
        assert(forall|i: int| 0 <= i < front.len() ==> front[i] == attempts[i]);
        law_connections_are_marked(front);
        assert(attempts.last() == attempts[attempts.len() - 1]);
        lemma_attempt_is_marked(events_sent(front), attempts.last());
        assert forall|i: int| 0 <= i < attempts.len() implies ((#[trigger] attempts[i]).served matches Some(
            served,
        ) ==> events_handed(served.run).is_prefix_of(events_read(served.lines))) by {
            if let Some(served) = attempts[i].served {
                law_events_of_the_inbox_are_handed_over(served.run);
            }
        }
    }
}

/// One happening more of a run.
proof fn lemma_run_step(run: Seq<Happening>, happening: Happening)
    ensures
        action_after(run.push(happening)) == next_action(action_after(run), happening),
        is_run(run.push(happening)) <==> is_run(run) && comes_of(action_after(run), happening),
{
    assert(run.push(happening).drop_last() =~= run);
}

/// A connection goes on as it should: with an empty inbox it waits for a request; with an
/// event it hands the event over and looks at the inbox again; with no request it looks at
/// the inbox again; a request is written; and after that it looks at the inbox again, unless
/// the request could not be written and is what the user said or the wish to speak, on which
/// the connection ends.
pub proof fn law_a_connection_goes_on(
    run: Seq<Happening>,
    event: IpcEventView,
    command: IpcCommandView,
    written: bool,
)
    requires
        is_run(run),
    ensures
        action_after(Seq::empty()) == ActionView::PollInbox,
        action_after(run) is PollInbox ==> {
            let empty = run.push(Happening::Inbox(InboxView::Empty));
            let met = run.push(Happening::Inbox(InboxView::Event(event)));
            &&& is_run(empty) && action_after(empty) == ActionView::AwaitCommand
            &&& is_run(met) && action_after(met) == ActionView::Forward(event)
            &&& is_run(met.push(Happening::Forwarded(true))) && action_after(
                met.push(Happening::Forwarded(true)),
            ) == ActionView::PollInbox
            &&& action_after(met.push(Happening::Forwarded(false))) == ActionView::Stop
        },
        action_after(run) is AwaitCommand ==> {
            let none = run.push(Happening::Pending(PendingView::Nothing));
            let asked = run.push(Happening::Pending(PendingView::Command(command)));
            let done = asked.push(Happening::Written(written));
            &&& is_run(none) && action_after(none) == ActionView::PollInbox
            &&& is_run(asked) && action_after(asked) is Write
            &&& is_run(done) && (action_after(done) == ActionView::Stop <==> !written && (
            command is SendMessage || command is StartListening))
            &&& !(action_after(done) is Stop) ==> action_after(done) == ActionView::PollInbox
            &&& action_after(run.push(Happening::Pending(PendingView::Closed))) == ActionView::Stop
        },
{
    let met = run.push(Happening::Inbox(InboxView::Event(event)));
    let asked = run.push(Happening::Pending(PendingView::Command(command)));
    lemma_run_step(run, Happening::Inbox(InboxView::Empty));
    lemma_run_step(run, Happening::Inbox(InboxView::Event(event)));
    lemma_run_step(run, Happening::Pending(PendingView::Nothing));
    lemma_run_step(run, Happening::Pending(PendingView::Closed));
    lemma_run_step(run, Happening::Pending(PendingView::Command(command)));
    lemma_run_step(met, Happening::Forwarded(true));
    lemma_run_step(met, Happening::Forwarded(false));
    lemma_run_step(asked, Happening::Written(written));
}

/// The line that is written for a request is the text of its object, with a newline.
pub proof fn law_what_is_written_is_the_request(command: IpcCommandView)
    ensures
        pending_action(PendingView::Command(command)) matches ActionView::Write { line, must }
            && line == json_text(command_tree(command)).push('\n') && must == (
        command is SendMessage || command is StartListening),
{
}

/// Every attempt but the last is followed by another two seconds later, whatever is asked
/// for in between; only a client that is gone ends them.
pub proof fn law_attempts_follow_one_another(pending: PendingView)
    ensures
        pending == PendingView::Closed <==> delay_after(pending) is None,
        pending != PendingView::Closed ==> delay_after(pending) == Some(2000u64),
{
}

/// What comes of an action is seen as it is.
pub proof fn law_observations_are_seen_as_they_are(
    event: IpcEvent,
    command: IpcCommand,
    line: String,
    must: bool,
)
    ensures
        Inbox::Event(event)@ == InboxView::Event(event@),
        Inbox::ReadFailed@ == InboxView::ReadFailed,
        Inbox::Empty@ == InboxView::Empty,
        Inbox::Closed@ == InboxView::Closed,
        Pending::Command(command)@ == PendingView::Command(command@),
        Pending::Nothing@ == PendingView::Nothing,
        Pending::Closed@ == PendingView::Closed,
        Action::PollInbox@ == ActionView::PollInbox,
        Action::Forward(event)@ == ActionView::Forward(event@),
        Action::AwaitCommand@ == ActionView::AwaitCommand,
        (Action::Write { line, must })@ == (ActionView::Write { line: line@, must }),
        Action::Stop@ == ActionView::Stop,
{
}

} // verus!
