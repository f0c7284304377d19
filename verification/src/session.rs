//! One client session: the line protocol as a state machine.
//!
//! The session owns no socket. Its driver performs each action that the
//! session asks for and reports what came of it as the next event; the
//! session answers with the next action. Every exchange is one line in and
//! one reply out, in that order.

use crate::text::{lemma_utf8_of_parts, same_text, space, trim, trim_end, trim_start, trimmed};
use vstd::prelude::*;
use vstd::utf8::{encode_utf8, is_ascii_chars_encode_utf8};

verus! {

/// The programs whose output the server reports.
#[derive(Clone, Copy, Debug, PartialEq, Eq, Structural)]
pub enum Utility {
    /// Who is logged in.
    Users,
    /// The date and time.
    Date,
    /// The running processes.
    Processes,
}

/// What a line from the client asks for.
#[derive(Clone, Copy, Debug, PartialEq, Eq, Structural)]
pub enum Command {
    /// Run a program and report its output.
    Report(Utility),
    /// End the session.
    Quit,
    /// Anything that is not in the vocabulary.
    Unknown,
}

/// Where a session stands.
#[derive(Clone, Copy, Debug, PartialEq, Eq, Structural)]
pub enum SessionState {
    /// The connection was accepted; nothing has been sent.
    Connected,
    /// The session waits for the client's next line.
    ReadingLine,
    /// A program runs for the client; its output is awaited.
    Reporting,
    /// The farewell is on its way and the connection is being shut down.
    Closing,
    /// Over: the client closed the connection.
    ClosedByClient,
    /// Over: the client asked to leave and the server closed the connection.
    ClosedByServer,
    /// Over: an action failed.
    Failed,
}

/// What the driver reports to a session.
#[derive(Debug, PartialEq, Eq)]
pub enum SessionEvent {
    /// The connection stands.
    Opened,
    /// A read returned `read` bytes, which decode to `text`. No bytes means
    /// that the client has closed the connection.
    Line { read: usize, text: String },
    /// The program that was run has ended; `0` is what it wrote to its
    /// standard output.
    Output(Vec<u8>),
    /// The farewell was sent and the connection is shut down.
    Closed,
    /// The last action could not be carried out.
    Failed,
}

/// What a session asks of its driver.
#[derive(Debug, PartialEq, Eq)]
pub enum SessionAction {
    /// Send these bytes, then read a line; report it with `Line`.
    Send(Vec<u8>),
    /// Run this program to its end; report its output with `Output`.
    Run(Utility),
    /// Send these bytes, then shut the connection down in both directions;
    /// report with `Closed`.
    SendAndClose(Vec<u8>),
    /// The session is over and went well. Nothing is to be done.
    Finish,
    /// The session is over and went wrong. Nothing is to be done but to
    /// report the failure.
    Abort,
}

/// An event, as mathematical values.
pub enum EventView {
    Opened,
    Line { read: nat, text: Seq<char> },
    Output(Seq<u8>),
    Closed,
    Failed,
}

/// An action, as mathematical values.
pub enum ActionView {
    Send(Seq<u8>),
    Run(Utility),
    SendAndClose(Seq<u8>),
    Finish,
    Abort,
}

impl View for SessionEvent {
    type V = EventView;

    open spec fn view(&self) -> EventView {
        match self {
            SessionEvent::Opened => EventView::Opened,
            SessionEvent::Line { read, text } => EventView::Line {
                read: *read as nat,
                text: text@,
            },
            SessionEvent::Output(bytes) => EventView::Output(bytes@),
            SessionEvent::Closed => EventView::Closed,
            SessionEvent::Failed => EventView::Failed,
        }
    }
}

impl View for SessionAction {
    type V = ActionView;

    open spec fn view(&self) -> ActionView {
        match self {
            SessionAction::Send(bytes) => ActionView::Send(bytes@),
            SessionAction::Run(utility) => ActionView::Run(*utility),
            SessionAction::SendAndClose(bytes) => ActionView::SendAndClose(bytes@),
            SessionAction::Finish => ActionView::Finish,
            SessionAction::Abort => ActionView::Abort,
        }
    }
}

/// The command that `word` names. The match is exact and tells upper case
/// from lower case.
pub open spec fn command_of(word: Seq<char>) -> Command {
    if word == "usuarios"@ {
        Command::Report(Utility::Users)
    } else if word == "fecha"@ {
        Command::Report(Utility::Date)
    } else if word == "procesos"@ {
        Command::Report(Utility::Processes)
    } else if word == "salir"@ {
        Command::Quit
    } else {
        Command::Unknown
    }
}

/// The name of the program that reports `utility`.
pub open spec fn program_of(utility: Utility) -> Seq<char> {
    match utility {
        Utility::Users => "who"@,
        Utility::Date => "date"@,
        Utility::Processes => "ps"@,
    }
}

/// The greeting sent to a client whose address reads `peer`.
pub open spec fn welcome(peer: Seq<char>) -> Seq<u8> {
    encode_utf8("Bienvenido "@ + peer + "\n"@)
}

/// The reply that carries a program's output: a status line, the output as
/// it came, and a closing line.
pub open spec fn envelope(output: Seq<u8>) -> Seq<u8> {
    encode_utf8("OK.\n"@) + output + encode_utf8("FIN.\n"@)
}

/// The reply to a client that leaves.
pub open spec fn farewell() -> Seq<u8> {
    encode_utf8("ADIOS.\n"@)
}

/// The reply to a line that names no command.
pub open spec fn complaint() -> Seq<u8> {
    encode_utf8("ERR.\n"@)
}

/// Whether a session in `state` is over.
pub open spec fn over(state: SessionState) -> bool {
    state == SessionState::ClosedByClient || state == SessionState::ClosedByServer || state
        == SessionState::Failed
}

/// The protocol: the state that follows `state` on `event`, and the action
/// that the session asks for, for a client whose address reads `peer`.
///
/// A session that is over stays as it is. An event that does not answer the
/// action last asked for, and the failure of any action, end the session in
/// `Failed`.
pub open spec fn step(peer: Seq<char>, state: SessionState, event: EventView) -> (
    SessionState,
    ActionView,
) {
    match (state, event) {
        (SessionState::Connected, EventView::Opened) => (
            SessionState::ReadingLine,
            ActionView::Send(welcome(peer)),
        ),
        (SessionState::ReadingLine, EventView::Line { read, text }) => if read == 0 {
            (SessionState::ClosedByClient, ActionView::Finish)
        } else {
            match command_of(trimmed(text)) {
                Command::Report(utility) => (SessionState::Reporting, ActionView::Run(utility)),
                Command::Quit => (SessionState::Closing, ActionView::SendAndClose(farewell())),
                Command::Unknown => (SessionState::ReadingLine, ActionView::Send(complaint())),
            }
        },
        (SessionState::Reporting, EventView::Output(output)) => (
            SessionState::ReadingLine,
            ActionView::Send(envelope(output)),
        ),
        (SessionState::Closing, EventView::Closed) => (
            SessionState::ClosedByServer,
            ActionView::Finish,
        ),
        (SessionState::ClosedByClient, _) => (SessionState::ClosedByClient, ActionView::Finish),
        (SessionState::ClosedByServer, _) => (SessionState::ClosedByServer, ActionView::Finish),
        _ => (SessionState::Failed, ActionView::Abort),
    }
}

/// What a session holds, as mathematical values.
pub struct SessionView {
    pub peer: Seq<char>,
    pub state: SessionState,
}

/// One client's session: the client's address, and where the exchange stands.
#[derive(Debug)]
pub struct Session {
    peer: String,
    state: SessionState,
}

impl View for Session {
    type V = SessionView;

    closed spec fn view(&self) -> SessionView {
        SessionView { peer: self.peer@, state: self.state }
    }
}

impl Utility {
    /// The name of the program to run.
    pub fn program(&self) -> (name: &'static str)
        ensures
            name@ == program_of(*self),
    {
        match self {
            Utility::Users => "who",
            Utility::Date => "date",
            Utility::Processes => "ps",
        }
    }
}

/// Reads a command off a line, white space at either end set aside.
pub fn parse_command(line: &str) -> (command: Command)
    ensures
        command == command_of(trimmed(line@)),
{
    let word = trim(line);
    if same_text(word, "usuarios") {
        Command::Report(Utility::Users)
    } else if same_text(word, "fecha") {
        Command::Report(Utility::Date)
    } else if same_text(word, "procesos") {
        Command::Report(Utility::Processes)
    } else if same_text(word, "salir") {
        Command::Quit
    } else {
        Command::Unknown
    }
}

/// Builds the greeting for a client whose address reads `peer`.
pub fn greet(peer: &str) -> (bytes: Vec<u8>)
    ensures
        bytes@ == welcome(peer@),
{
    let mut line = String::from_str("Bienvenido ");
    line.append(peer);
    line.append("\n");
    line.as_str().as_bytes_vec()
}

/// Wraps a program's output into the reply that carries it.
pub fn wrap(output: Vec<u8>) -> (bytes: Vec<u8>)
    ensures
        bytes@ == envelope(output@),
{
    let mut bytes = "OK.\n".as_bytes_vec();
    let mut body = output;
    let mut tail = "FIN.\n".as_bytes_vec();
    bytes.append(&mut body);
    bytes.append(&mut tail);
    bytes
}

impl Session {
    /// A session for the connection just accepted from `peer`.
    pub fn new(peer: String) -> (session: Session)
        ensures
            session@ == (SessionView { peer: peer@, state: SessionState::Connected }),
    {
        Session { peer, state: SessionState::Connected }
    }

    /// The client's address.
    pub fn peer(&self) -> (peer: &str)
        ensures
            peer@ == self@.peer,
    {
        self.peer.as_str()
    }

    /// Where the session stands.
    pub fn state(&self) -> (state: SessionState)
        ensures
            state == self@.state,
    {
        self.state
    }

    /// Whether the session is over.
    pub fn is_over(&self) -> (done: bool)
        ensures
            done == over(self@.state),
    {
        match self.state {
            SessionState::ClosedByClient | SessionState::ClosedByServer | SessionState::Failed => true,
            _ => false,
        }
    }
}

/// Advances `session` by one event and says what to do next.
pub fn handle_client(session: &mut Session, event: SessionEvent) -> (action: SessionAction)
    ensures
        final(session)@.peer == old(session)@.peer,
        (final(session)@.state, action@) == step(old(session)@.peer, old(session)@.state, event@),
{
    let (state, action) = match (session.state, event) {
        (SessionState::Connected, SessionEvent::Opened) => (
            SessionState::ReadingLine,
            SessionAction::Send(greet(session.peer.as_str())),
        ),
        (SessionState::ReadingLine, SessionEvent::Line { read, text }) => {
            if read == 0 {
                (SessionState::ClosedByClient, SessionAction::Finish)
            } else {
                match parse_command(text.as_str()) {
                    Command::Report(utility) => (
                        SessionState::Reporting,
                        SessionAction::Run(utility),
                    ),
                    Command::Quit => (
                        SessionState::Closing,
                        SessionAction::SendAndClose("ADIOS.\n".as_bytes_vec()),
                    ),
                    Command::Unknown => (
                        SessionState::ReadingLine,
                        SessionAction::Send("ERR.\n".as_bytes_vec()),
                    ),
                }
            }
        },
        (SessionState::Reporting, SessionEvent::Output(output)) => (
            SessionState::ReadingLine,
            SessionAction::Send(wrap(output)),
        ),
        (SessionState::Closing, SessionEvent::Closed) => (
            SessionState::ClosedByServer,
            SessionAction::Finish,
        ),
        (SessionState::ClosedByClient, _) => (SessionState::ClosedByClient, SessionAction::Finish),
        (SessionState::ClosedByServer, _) => (SessionState::ClosedByServer, SessionAction::Finish),
        _ => (SessionState::Failed, SessionAction::Abort),
    };
    session.state = state;
    action
}

/// The replies, byte for byte: `ERR.`, `ADIOS.`, `OK.` and `FIN.` in ASCII,
/// each line ended by a line feed. Between `OK.` and `FIN.` stands the
/// output, and nothing else.
pub proof fn lemma_replies_in_bytes()
    ensures
        complaint() == seq![0x45u8, 0x52, 0x52, 0x2e, 0x0a],
        farewell() == seq![0x41u8, 0x44, 0x49, 0x4f, 0x53, 0x2e, 0x0a],
        forall|output: Seq<u8>| #[trigger]
            envelope(output) == seq![0x4fu8, 0x4b, 0x2e, 0x0a] + output + seq![
                0x46u8,
                0x49,
                0x4e,
                0x2e,
                0x0a,
            ],
{
    reveal_strlit("ERR.\n");
    reveal_strlit("ADIOS.\n");
    reveal_strlit("OK.\n");
    reveal_strlit("FIN.\n");
    is_ascii_chars_encode_utf8("ERR.\n"@);
    is_ascii_chars_encode_utf8("ADIOS.\n"@);
    is_ascii_chars_encode_utf8("OK.\n"@);
    is_ascii_chars_encode_utf8("FIN.\n"@);
    assert(complaint() =~= seq![0x45u8, 0x52, 0x52, 0x2e, 0x0a]);
    assert(farewell() =~= seq![0x41u8, 0x44, 0x49, 0x4f, 0x53, 0x2e, 0x0a]);
    assert(encode_utf8("OK.\n"@) =~= seq![0x4fu8, 0x4b, 0x2e, 0x0a]);
    assert(encode_utf8("FIN.\n"@) =~= seq![0x46u8, 0x49, 0x4e, 0x2e, 0x0a]);
}

/// The greeting, byte for byte: `Bienvenido` and a space in ASCII, the
/// client's address in UTF-8, and a line feed.
pub proof fn lemma_welcome_in_bytes(peer: Seq<char>)
    ensures
        welcome(peer) == seq![
            0x42u8,
            0x69,
            0x65,
            0x6e,
            0x76,
            0x65,
            0x6e,
            0x69,
            0x64,
            0x6f,
            0x20,
        ] + encode_utf8(peer) + seq![0x0au8],
{
    reveal_strlit("Bienvenido ");
    reveal_strlit("\n");
    is_ascii_chars_encode_utf8("Bienvenido "@);
    is_ascii_chars_encode_utf8("\n"@);
    lemma_utf8_of_parts("Bienvenido "@ + peer, "\n"@);
    lemma_utf8_of_parts("Bienvenido "@, peer);
    assert(encode_utf8("Bienvenido "@) =~= seq![
        0x42u8,
        0x69,
        0x65,
        0x6e,
        0x76,
        0x65,
        0x6e,
        0x69,
        0x64,
        0x6f,
        0x20,
    ]);
    assert(encode_utf8("\n"@) =~= seq![0x0au8]);
}

/// The four words of the vocabulary differ, so each names its own command.
pub proof fn lemma_vocabulary()
    ensures
        command_of("usuarios"@) == Command::Report(Utility::Users),
        command_of("fecha"@) == Command::Report(Utility::Date),
        command_of("procesos"@) == Command::Report(Utility::Processes),
        command_of("salir"@) == Command::Quit,
{
    reveal_strlit("usuarios");
    reveal_strlit("fecha");
    reveal_strlit("procesos");
    reveal_strlit("salir");
    assert("usuarios"@.len() == 8 && "usuarios"@[0] == 'u');
    assert("fecha"@.len() == 5 && "fecha"@[0] == 'f');
    assert("procesos"@.len() == 8 && "procesos"@[0] == 'p');
    assert("salir"@.len() == 5 && "salir"@[0] == 's');
}

/// A session begins with the greeting to its client, and then reads.
pub proof fn lemma_session_opens_with_welcome(peer: Seq<char>)
    ensures
        step(peer, SessionState::Connected, EventView::Opened) == (
            SessionState::ReadingLine,
            ActionView::Send(welcome(peer)),
        ),
{
}

/// A line that names a program, white space aside, has the program run, and
/// the program's output is answered with exactly the envelope round it; the
/// session then reads on.
pub proof fn lemma_report_is_enveloped(
    peer: Seq<char>,
    read: nat,
    text: Seq<char>,
    output: Seq<u8>,
)
    requires
        read > 0,
        trimmed(text) == "usuarios"@ || trimmed(text) == "fecha"@ || trimmed(text) == "procesos"@,
    ensures
        ({
            let utility = if trimmed(text) == "usuarios"@ {
                Utility::Users
            } else if trimmed(text) == "fecha"@ {
                Utility::Date
            } else {
                Utility::Processes
            };
            &&& step(peer, SessionState::ReadingLine, EventView::Line { read, text }) == (
                SessionState::Reporting,
                ActionView::Run(utility),
            )
            &&& step(peer, SessionState::Reporting, EventView::Output(output)) == (
                SessionState::ReadingLine,
                ActionView::Send(envelope(output)),
            )
        }),
{
    lemma_vocabulary();
}

/// A line that reads `salir`, white space aside, is answered with exactly
/// the farewell and the shutting down of the connection; once that is done
/// the session is closed by the server, and whatever happens then, nothing
/// more is sent.
pub proof fn lemma_quit_closes(peer: Seq<char>, read: nat, text: Seq<char>, later: EventView)
    requires
        read > 0,
        trimmed(text) == "salir"@,
    ensures
        step(peer, SessionState::ReadingLine, EventView::Line { read, text }) == (
            SessionState::Closing,
            ActionView::SendAndClose(farewell()),
        ),
        step(peer, SessionState::Closing, EventView::Closed) == (
            SessionState::ClosedByServer,
            ActionView::Finish,
        ),
        step(peer, SessionState::ClosedByServer, later) == (
            SessionState::ClosedByServer,
            ActionView::Finish,
        ),
{
    lemma_vocabulary();
}

/// A line that names no command is answered with exactly the complaint, and
/// the session reads on: whatever comes next is treated as if the line had
/// not been sent.
pub proof fn lemma_unknown_line_keeps_reading(
    peer: Seq<char>,
    read: nat,
    text: Seq<char>,
    next: EventView,
)
    requires
        read > 0,
        trimmed(text) != "usuarios"@,
        trimmed(text) != "fecha"@,
        trimmed(text) != "procesos"@,
        trimmed(text) != "salir"@,
    ensures
        step(peer, SessionState::ReadingLine, EventView::Line { read, text }) == (
            SessionState::ReadingLine,
            ActionView::Send(complaint()),
        ),
        step(
            peer,
            step(peer, SessionState::ReadingLine, EventView::Line { read, text }).0,
            next,
        ) == step(peer, SessionState::ReadingLine, next),
{
}

/// A read of no bytes ends the session as closed by the client: nothing is
/// sent, and the session has not failed.
pub proof fn lemma_end_of_stream_is_silent(peer: Seq<char>, text: Seq<char>, later: EventView)
    ensures
        step(peer, SessionState::ReadingLine, EventView::Line { read: 0, text }) == (
            SessionState::ClosedByClient,
            ActionView::Finish,
        ),
        step(peer, SessionState::ClosedByClient, later) == (
            SessionState::ClosedByClient,
            ActionView::Finish,
        ),
{
}

/// The state of a session that has handled the first `n` of `events`, from
/// its beginning.
pub open spec fn state_at(peer: Seq<char>, events: Seq<EventView>, n: nat) -> SessionState
    decreases n,
{
    if n == 0 {
        SessionState::Connected
    } else {
        step(peer, state_at(peer, events, (n - 1) as nat), events[n - 1]).0
    }
}

/// The action with which such a session answers `events[n]`.
pub open spec fn answer_at(peer: Seq<char>, events: Seq<EventView>, n: nat) -> ActionView {
    step(peer, state_at(peer, events, n), events[n as int]).1
}

/// Whether `action` puts bytes on the wire.
pub open spec fn sends(action: ActionView) -> bool {
    action is Send || action is SendAndClose
}

/// Whether `events[n]` is a line that the session takes up: one of at least
/// one byte, read while the session was waiting for a line.
pub open spec fn takes_line(peer: Seq<char>, events: Seq<EventView>, n: nat) -> bool {
    &&& state_at(peer, events, n) == SessionState::ReadingLine
    &&& events[n as int] is Line
    &&& events[n as int]->read > 0
}

/// A session that is over stays as it is, and sends nothing and runs nothing
/// from then on.
pub proof fn lemma_over_is_final(peer: Seq<char>, events: Seq<EventView>, n: nat, m: nat)
    requires
        n <= m,
        over(state_at(peer, events, n)),
    ensures
        state_at(peer, events, m) == state_at(peer, events, n),
        !sends(answer_at(peer, events, m)),
        !(answer_at(peer, events, m) is Run),
    decreases m - n,
{
    if n < m {
        lemma_over_is_final(peer, events, n, (m - 1) as nat);
    }
}

/// Bytes go out only in answer to three things: the connection standing,
/// which is the first event of all and is answered by the greeting; a line
/// that the session takes up; and the output of the program that such a line
/// asked for.
pub proof fn lemma_replies_answer_lines(peer: Seq<char>, events: Seq<EventView>, n: nat)
    requires
        sends(answer_at(peer, events, n)),
    ensures
        match events[n as int] {
            EventView::Opened => n == 0,
            EventView::Line { .. } => takes_line(peer, events, n),
            EventView::Output(_) => state_at(peer, events, n) == SessionState::Reporting,
            _ => false,
        },
{
}

/// Lines and replies alternate. Of two lines that a session takes up one
/// after the other, the first has had its one reply before the second is
/// taken up: either the complaint, at once, or the envelope round the output
/// of the program that the line asked for, as soon as that output is there.
/// No line is taken up while a reply is owed.
pub proof fn lemma_lines_and_replies_alternate(
    peer: Seq<char>,
    events: Seq<EventView>,
    i: nat,
    j: nat,
)
    requires
        i < j,
        takes_line(peer, events, i),
        takes_line(peer, events, j),
        forall|k: nat| i < k < j ==> !takes_line(peer, events, k),
    ensures
        ({
            ||| j == i + 1 && answer_at(peer, events, i) == ActionView::Send(complaint())
            ||| {
                &&& j == i + 2
                &&& answer_at(peer, events, i) is Run
                &&& events[i as int + 1] is Output
                &&& answer_at(peer, events, i + 1) == ActionView::Send(
                    envelope(events[i as int + 1]->Output_0),
                )
            }
        }),
{
    let next = state_at(peer, events, i + 1);
    assert(next == step(peer, state_at(peer, events, i), events[i as int]).0);
    if next == SessionState::ReadingLine {
        if j > i + 1 {
            assert(!takes_line(peer, events, i + 1));
            assert(over(state_at(peer, events, i + 2)));
            lemma_over_is_final(peer, events, i + 2, j);
        }
    } else if next == SessionState::Reporting {
        if j == i + 1 {
        } else if events[i as int + 1] is Output {
            assert(state_at(peer, events, i + 2) == SessionState::ReadingLine);
            if j > i + 2 {
                assert(!takes_line(peer, events, i + 2));
                assert(over(state_at(peer, events, i + 3)));
                lemma_over_is_final(peer, events, i + 3, j);
            }
        } else {
            assert(over(state_at(peer, events, i + 2)));
            lemma_over_is_final(peer, events, i + 2, j);
        }
    } else {
        assert(next == SessionState::Closing);
        if j > i + 1 {
            assert(over(state_at(peer, events, i + 2)));
            lemma_over_is_final(peer, events, i + 2, j);
        }
    }
}

/// The lines that a session has taken up among the first `n` of `events`.
pub open spec fn lines_taken(peer: Seq<char>, events: Seq<EventView>, n: nat) -> nat
    decreases n,
{
    if n == 0 {
        0
    } else {
        lines_taken(peer, events, (n - 1) as nat) + if takes_line(peer, events, (n - 1) as nat) {
            1nat
        } else {
            0nat
        }
    }
}

/// The replies that a session has sent in answer to the first `n` of
/// `events`, the greeting among them.
pub open spec fn replies_sent(peer: Seq<char>, events: Seq<EventView>, n: nat) -> nat
    decreases n,
{
    if n == 0 {
        0
    } else {
        replies_sent(peer, events, (n - 1) as nat) + if sends(
            answer_at(peer, events, (n - 1) as nat),
        ) {
            1nat
        } else {
            0nat
        }
    }
}

/// One reply per line, whatever the events: at every moment a session has
/// sent the greeting and one reply for each line it has taken up, but for the
/// one reply that it may still owe. While it waits for a line it owes none;
/// while a program runs for the client it owes exactly the reply to the line
/// that asked for it. Before the greeting nothing has been taken up or sent.
pub proof fn lemma_one_reply_per_line(peer: Seq<char>, events: Seq<EventView>, n: nat)
    ensures
        ({
            let lines = lines_taken(peer, events, n);
            let replies = replies_sent(peer, events, n);
            match state_at(peer, events, n) {
                SessionState::Connected => n == 0 && lines == 0 && replies == 0,
                SessionState::ReadingLine => replies == lines + 1,
                SessionState::Reporting => replies == lines,
                SessionState::Closing => replies == lines + 1,
                SessionState::ClosedByClient => replies == lines + 1,
                SessionState::ClosedByServer => replies == lines + 1,
                SessionState::Failed => lines <= replies <= lines + 1,
            }
        }),
    decreases n,
{
    if n > 0 {
        lemma_one_reply_per_line(peer, events, (n - 1) as nat);
    }
}

/// The whole of a session in which the client asks for the date and then
/// closes the connection: the greeting, then `OK.`, the output of the program
/// as it came and `FIN.`, and nothing after that; the session ends as closed
/// by the client, without a failure.
pub proof fn lemma_date_exchange(peer: Seq<char>, output: Seq<u8>)
    ensures
        ({
            let events = seq![
                EventView::Opened,
                EventView::Line { read: 6, text: "fecha\n"@ },
                EventView::Output(output),
                EventView::Line { read: 0, text: Seq::<char>::empty() },
            ];
            &&& answer_at(peer, events, 0) == ActionView::Send(welcome(peer))
            &&& answer_at(peer, events, 1) == ActionView::Run(Utility::Date)
            &&& answer_at(peer, events, 2) == ActionView::Send(
                encode_utf8("OK.\n"@) + output + encode_utf8("FIN.\n"@),
            )
            &&& answer_at(peer, events, 3) == ActionView::Finish
            &&& state_at(peer, events, 4) == SessionState::ClosedByClient
        }),
{
    let events = seq![
        EventView::Opened,
        EventView::Line { read: 6, text: "fecha\n"@ },
        EventView::Output(output),
        EventView::Line { read: 0, text: Seq::<char>::empty() },
    ];
    lemma_vocabulary();
    reveal_strlit("fecha\n");
    reveal_strlit("fecha");
    let line = "fecha\n"@;
    assert(!space(line.first()));
    assert(trim_start(line) == line);
    assert(space(line.last()));
    assert(line.drop_last() =~= "fecha"@);
    assert(!space("fecha"@.last()));
    assert(trim_end(line) == trim_end("fecha"@));
    assert(trimmed(line) == "fecha"@);
    assert(state_at(peer, events, 0) == SessionState::Connected);
    assert(state_at(peer, events, 1) == SessionState::ReadingLine);
    assert(state_at(peer, events, 2) == SessionState::Reporting);
    assert(state_at(peer, events, 3) == SessionState::ReadingLine);
}

} // verus!
