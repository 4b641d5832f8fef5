//! The lifecycle of the MIDI connection, and the reading of MIDI messages.
//!
//! The driver itself lives with the caller. The lifecycle says what to ask of
//! the driver and takes what the driver answered; it holds the phase, the
//! selected port and the port names last listed.

use crate::bind::BindExecuteState;
use crate::note::{Note, MAX_MIDI};
use midly::live::LiveEvent;
use midly::MidiMessage;
use vstd::prelude::*;

verus! {

/// Where the lifecycle stands. The driver's input is held for listing ports in
/// `Enumerating` and given up for the connection in `Connected`: the two are
/// never held at once.
#[derive(Clone, Copy, Debug, PartialEq, Eq, Structural)]
pub enum Phase {
    /// The driver has not been opened.
    Uninitialized,
    /// The driver is open and can list its ports.
    Enumerating,
    /// A connection to one port is open and delivers messages.
    Connected,
}

/// Why a step of the lifecycle failed.
#[derive(Clone, Copy, Debug, PartialEq, Eq, Structural)]
pub enum MidiError {
    /// The driver could not be opened, or could not name its ports.
    DeviceUnavailable,
    /// The port index lies outside the ports last listed.
    InvalidPort,
    /// The driver refused the connection.
    ConnectFailure,
    /// A connection is open; it has to be stopped first.
    AlreadyConnected,
}

/// A step of the lifecycle.
#[derive(Clone, Copy, Debug, PartialEq, Eq, Structural)]
pub enum MidiOp {
    /// Open the driver.
    Init,
    /// List the names of the ports.
    ListPorts,
    /// Select the port for the next connection.
    SetPort(usize),
    /// Open the connection.
    Start,
    /// Close the connection.
    Stop,
}

/// What a step asks of the driver before it is taken.
#[derive(Clone, Copy, Debug, PartialEq, Eq, Structural)]
pub enum DriverRequest {
    /// Leave the driver alone.
    Nothing,
    /// Open the driver's input.
    Open,
    /// List the names of the ports.
    Scan,
    /// Open the driver afresh and connect to the port with this index.
    Connect(usize),
    /// Close the connection and take the input back.
    Close,
}

/// What the driver answered.
#[derive(Debug, PartialEq, Eq)]
pub enum DriverReply {
    /// The driver was not asked.
    Nothing,
    /// The input is open.
    Opened,
    /// The input could not be opened.
    OpenFailed,
    /// The names of the ports, in the driver's order.
    Ports(Vec<String>),
    /// A port could not be named.
    ScanFailed,
    /// The connection is open.
    Connected,
    /// The input could not be opened for the connection.
    Unavailable,
    /// The driver has no port with the index asked for.
    PortMissing,
    /// The driver refused the connection.
    Rejected,
    /// The connection is closed.
    Closed,
}

/// A driver's answer as contracts see it.
pub enum DriverReplyView {
    Nothing,
    Opened,
    OpenFailed,
    Ports(Seq<Seq<char>>),
    ScanFailed,
    Connected,
    Unavailable,
    PortMissing,
    Rejected,
    Closed,
}

/// The lifecycle as contracts see it.
pub struct MidiView {
    pub phase: Phase,
    /// The port selected for the next connection, if one was selected.
    pub port: Option<usize>,
    /// The port names last listed.
    pub port_names: Seq<Seq<char>>,
}

/// The lifecycle of the MIDI connection.
#[derive(Debug, PartialEq, Eq)]
pub struct Midi {
    phase: Phase,
    port: Option<usize>,
    port_names: Vec<String>,
}

/// The texts of a list of strings, in the list's order.
pub open spec fn spec_texts(names: Seq<String>) -> Seq<Seq<char>> {
    names.map_values(|name: String| name@)
}

impl View for DriverReply {
    type V = DriverReplyView;

    open spec fn view(&self) -> DriverReplyView {
        match *self {
            DriverReply::Nothing => DriverReplyView::Nothing,
            DriverReply::Opened => DriverReplyView::Opened,
            DriverReply::OpenFailed => DriverReplyView::OpenFailed,
            DriverReply::Ports(names) => DriverReplyView::Ports(spec_texts(names@)),
            DriverReply::ScanFailed => DriverReplyView::ScanFailed,
            DriverReply::Connected => DriverReplyView::Connected,
            DriverReply::Unavailable => DriverReplyView::Unavailable,
            DriverReply::PortMissing => DriverReplyView::PortMissing,
            DriverReply::Rejected => DriverReplyView::Rejected,
            DriverReply::Closed => DriverReplyView::Closed,
        }
    }
}

impl View for Midi {
    type V = MidiView;

    closed spec fn view(&self) -> MidiView {
        MidiView { phase: self.phase, port: self.port, port_names: spec_texts(self.port_names@) }
    }
}

/// The port that a connection goes to: the one selected, or the first.
pub open spec fn spec_port(midi: MidiView) -> int {
    match midi.port {
        Some(idx) => idx as int,
        None => 0,
    }
}

/// What a step asks of the driver.
///
/// While a connection is open the driver is asked for nothing but to close
/// it: no port is listed and no second input is opened. A connection is asked
/// for only to a port that was listed.
pub open spec fn spec_request(midi: MidiView, op: MidiOp) -> DriverRequest {
    match op {
        MidiOp::Init => if midi.phase is Connected {
            DriverRequest::Nothing
        } else {
            DriverRequest::Open
        },
        MidiOp::ListPorts | MidiOp::SetPort(_) => if midi.phase is Enumerating {
            DriverRequest::Scan
        } else {
            DriverRequest::Nothing
        },
        MidiOp::Start => if !(midi.phase is Connected) && spec_port(midi)
            < midi.port_names.len() {
            DriverRequest::Connect(spec_port(midi) as usize)
        } else {
            DriverRequest::Nothing
        },
        MidiOp::Stop => if midi.phase is Connected {
            DriverRequest::Close
        } else {
            DriverRequest::Nothing
        },
    }
}

/// Opening the driver: refused while a connection is open; otherwise the
/// lifecycle lists ports from now on if the input was opened, and stays as it
/// is if it was not.
pub open spec fn spec_init(midi: MidiView, reply: DriverReplyView) -> (
    MidiView,
    Result<(), MidiError>,
) {
    if midi.phase is Connected {
        (midi, Err(MidiError::AlreadyConnected))
    } else if reply is Opened {
        (MidiView { phase: Phase::Enumerating, ..midi }, Ok(()))
    } else {
        (midi, Err(MidiError::DeviceUnavailable))
    }
}

/// Listing the ports: while the driver can list, the names it answered are
/// kept and returned, and a failed listing is an error that keeps the old
/// names; in every other case the names last kept are returned and the answer
/// is not looked at.
pub open spec fn spec_names(midi: MidiView, reply: DriverReplyView) -> (
    MidiView,
    Result<Seq<Seq<char>>, MidiError>,
) {
    if midi.phase is Enumerating {
        match reply {
            DriverReplyView::Ports(names) => (MidiView { port_names: names, ..midi }, Ok(names)),
            DriverReplyView::ScanFailed => (midi, Err(MidiError::DeviceUnavailable)),
            _ => (midi, Ok(midi.port_names)),
        }
    } else {
        (midi, Ok(midi.port_names))
    }
}

/// Selecting a port: the ports are listed as by `spec_names`, and the index
/// is kept if it names one of them.
pub open spec fn spec_set_port(midi: MidiView, idx: usize, reply: DriverReplyView) -> (
    MidiView,
    Result<(), MidiError>,
) {
    let (listed, names) = spec_names(midi, reply);
    match names {
        Err(e) => (listed, Err(e)),
        Ok(names) => if idx < names.len() {
            (MidiView { port: Some(idx), ..listed }, Ok(()))
        } else {
            (listed, Err(MidiError::InvalidPort))
        },
    }
}

/// Opening the connection: refused while one is open, and refused for a port
/// that was not listed. Otherwise the driver's answer decides. An attempt that
/// got as far as an open input leaves the lifecycle listing ports.
pub open spec fn spec_start(midi: MidiView, reply: DriverReplyView) -> (
    MidiView,
    Result<(), MidiError>,
) {
    if midi.phase is Connected {
        (midi, Err(MidiError::AlreadyConnected))
    } else if spec_port(midi) >= midi.port_names.len() {
        (midi, Err(MidiError::InvalidPort))
    } else {
        match reply {
            DriverReplyView::Connected => (MidiView { phase: Phase::Connected, ..midi }, Ok(())),
            DriverReplyView::Unavailable => (midi, Err(MidiError::DeviceUnavailable)),
            DriverReplyView::PortMissing => (
                MidiView { phase: Phase::Enumerating, ..midi },
                Err(MidiError::InvalidPort),
            ),
            DriverReplyView::Rejected => (
                MidiView { phase: Phase::Enumerating, ..midi },
                Err(MidiError::ConnectFailure),
            ),
            _ => (midi, Err(MidiError::ConnectFailure)),
        }
    }
}

/// Closing the connection: an open connection gives way to listing ports;
/// without one nothing changes.
pub open spec fn spec_stop(midi: MidiView) -> MidiView {
    if midi.phase is Connected {
        MidiView { phase: Phase::Enumerating, ..midi }
    } else {
        midi
    }
}

/// A copy of a list of names.
pub fn clone_names(names: &Vec<String>) -> (copy: Vec<String>)
    ensures
        spec_texts(copy@) == spec_texts(names@),
{
    let mut copy: Vec<String> = Vec::new();
    let mut i: usize = 0;
    while i < names.len()
        invariant
            i <= names.len(),
            copy@.len() == i,
            forall|k: int| 0 <= k < i ==> copy@[k]@ == names@[k]@,
        decreases names.len() - i,
    {
        copy.push(names[i].clone());
        i += 1;
    }
    assert(spec_texts(copy@) =~= spec_texts(names@));
    copy
}

impl Midi {
    /// A lifecycle that has not opened the driver, selected no port and
    /// listed no names.
    pub fn new() -> (midi: Self)
        ensures
            midi@ == (MidiView {
                phase: Phase::Uninitialized,
                port: None,
                port_names: Seq::empty(),
            }),
    {
        let midi = Midi { phase: Phase::Uninitialized, port: None, port_names: Vec::new() };
        assert(midi@.port_names =~= Seq::<Seq<char>>::empty());
        midi
    }

    /// Whether a connection is open.
    pub fn has_open_connection(&self) -> (open: bool)
        ensures
            open == (self@.phase is Connected),
    {
        match self.phase {
            Phase::Connected => true,
            _ => false,
        }
    }

    /// Where the lifecycle stands.
    pub fn phase(&self) -> (phase: Phase)
        ensures
            phase == self@.phase,
    {
        self.phase
    }

    /// The port that the next connection goes to.
    pub fn port(&self) -> (port: usize)
        ensures
            port == spec_port(self@),
    {
        match self.port {
            Some(idx) => idx,
            None => 0,
        }
    }

    /// What a step asks of the driver before it is taken.
    pub fn driver_request(&self, op: MidiOp) -> (request: DriverRequest)
        ensures
            request == spec_request(self@, op),
    {
        let connected = self.has_open_connection();
        match op {
            MidiOp::Init => if connected {
                DriverRequest::Nothing
            } else {
                DriverRequest::Open
            },
            MidiOp::ListPorts | MidiOp::SetPort(_) => match self.phase {
                Phase::Enumerating => DriverRequest::Scan,
                _ => DriverRequest::Nothing,
            },
            MidiOp::Start => {
                let port = self.port();
                if !connected && port < self.port_names.len() {
                    DriverRequest::Connect(port)
                } else {
                    DriverRequest::Nothing
                }
            },
            MidiOp::Stop => if connected {
                DriverRequest::Close
            } else {
                DriverRequest::Nothing
            },
        }
    }

    /// Opens the driver, given the driver's answer.
    pub fn init_midi(&mut self, reply: &DriverReply) -> (done: Result<(), MidiError>)
        ensures
            (final(self)@, done) == spec_init(old(self)@, reply@),
    {
        if self.has_open_connection() {
            return Err(MidiError::AlreadyConnected);
        }
        match reply {
            DriverReply::Opened => {
                self.phase = Phase::Enumerating;
                Ok(())
            },
            _ => Err(MidiError::DeviceUnavailable),
        }
    }

    /// The names of the ports, given the driver's answer.
    pub fn get_midi_input_names(&mut self, reply: DriverReply) -> (names: Result<
        Vec<String>,
        MidiError,
    >)
        ensures
            final(self)@ == spec_names(old(self)@, reply@).0,
            match spec_names(old(self)@, reply@).1 {
                Ok(listed) => names matches Ok(copy) && spec_texts(copy@) == listed,
                Err(e) => names == Err::<Vec<String>, MidiError>(e),
            },
    {
        match self.phase {
            Phase::Enumerating => match reply {
                DriverReply::Ports(listed) => {
                    self.port_names = listed;
                },
                DriverReply::ScanFailed => {
                    return Err(MidiError::DeviceUnavailable);
                },
                _ => {},
            },
            _ => {},
        }
        Ok(clone_names(&self.port_names))
    }

    /// Selects the port for the next connection, given the driver's answer.
    pub fn set_midi_input_port(&mut self, idx: usize, reply: DriverReply) -> (done: Result<
        (),
        MidiError,
    >)
        ensures
            (final(self)@, done) == spec_set_port(old(self)@, idx, reply@),
    {
        match self.get_midi_input_names(reply) {
            Err(e) => Err(e),
            Ok(names) => {
                assert(spec_texts(names@).len() == names@.len());
                if idx < names.len() {
                    self.port = Some(idx);
                    Ok(())
                } else {
                    Err(MidiError::InvalidPort)
                }
            },
        }
    }

    /// Opens the connection, given the driver's answer.
    pub fn start_midi_connection(&mut self, reply: &DriverReply) -> (done: Result<(), MidiError>)
        ensures
            (final(self)@, done) == spec_start(old(self)@, reply@),
    {
        if self.has_open_connection() {
            return Err(MidiError::AlreadyConnected);
        }
        if self.port() >= self.port_names.len() {
            return Err(MidiError::InvalidPort);
        }
        match reply {
            DriverReply::Connected => {
                self.phase = Phase::Connected;
                Ok(())
            },
            DriverReply::Unavailable => Err(MidiError::DeviceUnavailable),
            DriverReply::PortMissing => {
                self.phase = Phase::Enumerating;
                Err(MidiError::InvalidPort)
            },
            DriverReply::Rejected => {
                self.phase = Phase::Enumerating;
                Err(MidiError::ConnectFailure)
            },
            _ => Err(MidiError::ConnectFailure),
        }
    }

    /// Closes the connection, if one is open.
    pub fn stop_midi_connection(&mut self)
        ensures
            final(self)@ == spec_stop(old(self)@),
    {
        if self.has_open_connection() {
            self.phase = Phase::Enumerating;
        }
    }
}

impl Default for Midi {
    fn default() -> (midi: Self)
        ensures
            midi@ == (MidiView {
                phase: Phase::Uninitialized,
                port: None,
                port_names: Seq::empty(),
            }),
    {
        Midi::new()
    }
}

/// A MIDI message as far as the actor reads it.
#[derive(Clone, Copy, Debug, PartialEq, Eq, Structural)]
pub enum LiveMessage {
    /// A note begins to sound.
    NoteOn { key: u8, vel: u8 },
    /// A note is released.
    NoteOff { key: u8, vel: u8 },
    /// Any other well-formed message.
    Other,
}

/// A note event: the note, how hard it was struck or let go, and the phase.
#[derive(Clone, Copy, Debug, PartialEq, Eq)]
pub struct NoteEvent {
    pub note: Note,
    pub vel: u8,
    pub state: BindExecuteState,
}

/// What the bytes of one MIDI message turned out to be.
#[derive(Clone, Copy, Debug, PartialEq, Eq)]
pub enum Decoded {
    /// A note event, to be dispatched.
    Event(NoteEvent),
    /// A well-formed message that is no note event.
    Ignored,
    /// Bytes that are no MIDI message.
    Malformed,
}

/// What `midly::live::LiveEvent::parse` makes of the bytes of one message,
/// reduced to what the actor reads; `None` where it reports an error.
pub uninterp spec fn midly_live_event(raw: Seq<u8>) -> Option<LiveMessage>;

/// `midly::live::LiveEvent::parse`: the result is a function of the bytes
/// alone and is named, not described. Of a channel message only note-on and
/// note-off are told apart, with their key and velocity; every other message
/// that parses is `Other`.
#[verifier::external_body]
fn parse_live_event(raw: &[u8]) -> (parsed: Option<LiveMessage>)
    ensures
        parsed == midly_live_event(raw@),
{
    match LiveEvent::parse(raw) {
        Ok(LiveEvent::Midi { message: MidiMessage::NoteOn { key, vel }, .. }) => {
            Some(LiveMessage::NoteOn { key: key.as_int(), vel: vel.as_int() })
        },
        Ok(LiveEvent::Midi { message: MidiMessage::NoteOff { key, vel }, .. }) => {
            Some(LiveMessage::NoteOff { key: key.as_int(), vel: vel.as_int() })
        },
        Ok(_) => Some(LiveMessage::Other),
        Err(_) => None,
    }
}

/// The note event that a message stands for: note-on begins the note and
/// note-off releases it. A key beyond 127 is no note, and any other message is
/// no note event.
pub open spec fn spec_note_event(message: LiveMessage) -> Option<(int, u8, BindExecuteState)> {
    match message {
        LiveMessage::NoteOn { key, vel } => if key <= MAX_MIDI {
            Some((key as int, vel, BindExecuteState::Begin))
        } else {
            None
        },
        LiveMessage::NoteOff { key, vel } => if key <= MAX_MIDI {
            Some((key as int, vel, BindExecuteState::Release))
        } else {
            None
        },
        LiveMessage::Other => None,
    }
}

/// The note event that a message stands for.
pub fn note_event(message: LiveMessage) -> (event: Option<NoteEvent>)
    ensures
        match spec_note_event(message) {
            Some((note, vel, state)) => event matches Some(e) && e.note@ == note && e.vel == vel
                && e.state == state,
            None => event is None,
        },
{
    match message {
        LiveMessage::NoteOn { key, vel } => if key <= MAX_MIDI {
            Some(NoteEvent { note: Note::from_midi(key), vel, state: BindExecuteState::Begin })
        } else {
            None
        },
        LiveMessage::NoteOff { key, vel } => if key <= MAX_MIDI {
            Some(NoteEvent { note: Note::from_midi(key), vel, state: BindExecuteState::Release })
        } else {
            None
        },
        LiveMessage::Other => None,
    }
}

/// Reads the bytes of one MIDI message as the driver delivers them: a note
/// event where they are a note-on or a note-off, to be ignored where they are
/// another message, malformed where they are none.
pub fn handle_midi_message(midi_data: &[u8]) -> (decoded: Decoded)
    ensures
        match midly_live_event(midi_data@) {
            None => decoded is Malformed,
            Some(message) => match spec_note_event(message) {
                Some((note, vel, state)) => decoded matches Decoded::Event(e) && e.note@ == note
                    && e.vel == vel && e.state == state,
                None => decoded is Ignored,
            },
        },
{
    match parse_live_event(midi_data) {
        None => Decoded::Malformed,
        Some(message) => match note_event(message) {
            Some(event) => Decoded::Event(event),
            None => Decoded::Ignored,
        },
    }
}

/// The connection and the listing of ports exclude each other. Once the
/// connection is open, nothing but closing it is asked of the driver: listing
/// the ports asks for nothing and answers with the names kept from before the
/// connection, whatever the driver is said to have answered. Once the
/// connection is closed again, listing asks the driver and answers with the
/// names that it gave.
pub proof fn lemma_connection_excludes_listing(
    midi: MidiView,
    start: DriverReplyView,
    during: DriverReplyView,
    after: Seq<Seq<char>>,
)
    requires
        spec_start(midi, start).1 is Ok,
    ensures
        ({
            let connected = spec_start(midi, start).0;
            let stopped = spec_stop(connected);
            &&& connected.phase is Connected
            &&& connected.port_names == midi.port_names
            &&& spec_request(connected, MidiOp::ListPorts) is Nothing
            &&& spec_request(connected, MidiOp::Init) is Nothing
            &&& spec_request(connected, MidiOp::Start) is Nothing
            &&& spec_names(connected, during) == (connected, Ok::<Seq<Seq<char>>, MidiError>(
                midi.port_names,
            ))
            &&& stopped.phase is Enumerating
            &&& spec_request(stopped, MidiOp::ListPorts) is Scan
            &&& spec_names(stopped, DriverReplyView::Ports(after)).1 == Ok::<
                Seq<Seq<char>>,
                MidiError,
            >(after)
        }),
{
}

/// Closing the connection is idempotent and never fails: a second close
/// changes nothing, and without a connection the first changes nothing either.
pub proof fn lemma_stop_idempotent(midi: MidiView)
    ensures
        spec_stop(spec_stop(midi)) == spec_stop(midi),
        !(spec_stop(midi).phase is Connected),
        !(midi.phase is Connected) ==> spec_stop(midi) == midi,
{
}

} // verus!
