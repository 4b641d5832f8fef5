//! The messages between the handles and the actor: one kind of response for
//! each kind of request.

use crate::bind::BindExecuteState;
use crate::config::{Bind, BindView, NotFound};
use crate::note::Note;
use crate::state::midi::{spec_texts, MidiError};
use vstd::prelude::*;

verus! {

/// A request to the actor.
#[derive(Debug, PartialEq, Eq)]
pub enum StateMessageRequest {
    /// How many binds are there?
    LenBinds,
    /// The written form of the note of the bind at an index.
    NoteString(usize),
    /// The name of the kind of action of the bind at an index.
    ActionString(usize),
    /// Select the bind at an index, or clear the selection.
    SetActiveBind(Option<usize>),
    /// Is a bind selected?
    HasActiveBind,
    /// A copy of the selected bind.
    GetActiveBind,
    /// Append the default bind.
    AddDefaultBind,
    /// Delete the selected bind.
    DeleteActiveBind,
    /// Put a bind in the place of the selected one.
    UpdateActiveBind(Bind),
    /// The names of the MIDI input ports.
    MidiInputNames,
    /// Select the MIDI input port for the next connection.
    SetMidiInputPort(usize),
    /// Open the MIDI connection.
    StartMidiConnection,
    /// Close the MIDI connection.
    StopMidiConnection,
    /// Is the MIDI connection open?
    HasMidiConnection,
    /// Dispatch a note event: the note, its velocity and its phase.
    ExecuteBindsForNote(Note, u8, BindExecuteState),
    /// Persist the registry to a destination.
    SaveConfig(String),
    /// Close the MIDI connection and stop serving requests.
    Shutdown,
}

/// The actor's answer to a request.
#[derive(Debug, PartialEq, Eq)]
pub enum StateMessageResponse {
    LenBinds(usize),
    NoteString(Result<String, NotFound>),
    ActionString(Result<String, NotFound>),
    SetActiveBind,
    HasActiveBind(bool),
    GetActiveBind(Option<Bind>),
    AddDefaultBind(usize),
    DeleteActiveBind(Option<usize>),
    UpdateActiveBind(Option<usize>),
    MidiInputNames(Result<Vec<String>, MidiError>),
    SetMidiInputPort(Result<(), MidiError>),
    StartMidiConnection(Result<(), MidiError>),
    StopMidiConnection,
    HasMidiConnection(bool),
    ExecuteBindsForNote,
    SaveConfig,
    Shutdown,
}

/// A request as contracts see it.
pub enum RequestView {
    LenBinds,
    NoteString(usize),
    ActionString(usize),
    SetActiveBind(Option<usize>),
    HasActiveBind,
    GetActiveBind,
    AddDefaultBind,
    DeleteActiveBind,
    UpdateActiveBind(BindView),
    MidiInputNames,
    SetMidiInputPort(usize),
    StartMidiConnection,
    StopMidiConnection,
    HasMidiConnection,
    ExecuteBindsForNote(int, u8, BindExecuteState),
    SaveConfig(Seq<char>),
    Shutdown,
}

/// A response as contracts see it.
pub enum ResponseView {
    LenBinds(usize),
    NoteString(Result<Seq<char>, NotFound>),
    ActionString(Result<Seq<char>, NotFound>),
    SetActiveBind,
    HasActiveBind(bool),
    GetActiveBind(Option<BindView>),
    AddDefaultBind(usize),
    DeleteActiveBind(Option<usize>),
    UpdateActiveBind(Option<usize>),
    MidiInputNames(Result<Seq<Seq<char>>, MidiError>),
    SetMidiInputPort(Result<(), MidiError>),
    StartMidiConnection(Result<(), MidiError>),
    StopMidiConnection,
    HasMidiConnection(bool),
    ExecuteBindsForNote,
    SaveConfig,
    Shutdown,
}

/// The text of a name, or the error in its place.
pub open spec fn spec_text_result<E>(name: Result<String, E>) -> Result<Seq<char>, E> {
    match name {
        Ok(text) => Ok(text@),
        Err(e) => Err(e),
    }
}

/// The view of a bind, if there is one.
pub open spec fn spec_bind_option(bind: Option<Bind>) -> Option<BindView> {
    match bind {
        Some(bind) => Some(bind@),
        None => None,
    }
}

/// The texts of a list of names, or the error in its place.
pub open spec fn spec_texts_result(names: Result<Vec<String>, MidiError>) -> Result<
    Seq<Seq<char>>,
    MidiError,
> {
    match names {
        Ok(names) => Ok(spec_texts(names@)),
        Err(e) => Err(e),
    }
}

impl View for StateMessageRequest {
    type V = RequestView;

    open spec fn view(&self) -> RequestView {
        match *self {
            StateMessageRequest::LenBinds => RequestView::LenBinds,
            StateMessageRequest::NoteString(x) => RequestView::NoteString(x),
            StateMessageRequest::ActionString(x) => RequestView::ActionString(x),
            StateMessageRequest::SetActiveBind(x) => RequestView::SetActiveBind(x),
            StateMessageRequest::HasActiveBind => RequestView::HasActiveBind,
            StateMessageRequest::GetActiveBind => RequestView::GetActiveBind,
            StateMessageRequest::AddDefaultBind => RequestView::AddDefaultBind,
            StateMessageRequest::DeleteActiveBind => RequestView::DeleteActiveBind,
            StateMessageRequest::UpdateActiveBind(bind) => RequestView::UpdateActiveBind(bind@),
            StateMessageRequest::MidiInputNames => RequestView::MidiInputNames,
            StateMessageRequest::SetMidiInputPort(x) => RequestView::SetMidiInputPort(x),
            StateMessageRequest::StartMidiConnection => RequestView::StartMidiConnection,
            StateMessageRequest::StopMidiConnection => RequestView::StopMidiConnection,
            StateMessageRequest::HasMidiConnection => RequestView::HasMidiConnection,
            StateMessageRequest::ExecuteBindsForNote(note, vel, state) => RequestView::ExecuteBindsForNote(
                note@,
                vel,
                state,
            ),
            StateMessageRequest::SaveConfig(destination) => RequestView::SaveConfig(destination@),
            StateMessageRequest::Shutdown => RequestView::Shutdown,
        }
    }
}

impl View for StateMessageResponse {
    type V = ResponseView;

    open spec fn view(&self) -> ResponseView {
        match *self {
            StateMessageResponse::LenBinds(x) => ResponseView::LenBinds(x),
            StateMessageResponse::NoteString(name) => ResponseView::NoteString(spec_text_result(name)),
            StateMessageResponse::ActionString(name) => ResponseView::ActionString(spec_text_result(name)),
            StateMessageResponse::SetActiveBind => ResponseView::SetActiveBind,
            StateMessageResponse::HasActiveBind(x) => ResponseView::HasActiveBind(x),
            StateMessageResponse::GetActiveBind(bind) => ResponseView::GetActiveBind(spec_bind_option(bind)),
            StateMessageResponse::AddDefaultBind(x) => ResponseView::AddDefaultBind(x),
            StateMessageResponse::DeleteActiveBind(x) => ResponseView::DeleteActiveBind(x),
            StateMessageResponse::UpdateActiveBind(x) => ResponseView::UpdateActiveBind(x),
            StateMessageResponse::MidiInputNames(names) => ResponseView::MidiInputNames(
                spec_texts_result(names),
            ),
            StateMessageResponse::SetMidiInputPort(x) => ResponseView::SetMidiInputPort(x),
            StateMessageResponse::StartMidiConnection(x) => ResponseView::StartMidiConnection(x),
            StateMessageResponse::StopMidiConnection => ResponseView::StopMidiConnection,
            StateMessageResponse::HasMidiConnection(x) => ResponseView::HasMidiConnection(x),
            StateMessageResponse::ExecuteBindsForNote => ResponseView::ExecuteBindsForNote,
            StateMessageResponse::SaveConfig => ResponseView::SaveConfig,
            StateMessageResponse::Shutdown => ResponseView::Shutdown,
        }
    }
}

/// The number of a request's kind.
pub open spec fn spec_request_kind(request: RequestView) -> int {
    match request {
        RequestView::LenBinds => 0,
        RequestView::NoteString(..) => 1,
        RequestView::ActionString(..) => 2,
        RequestView::SetActiveBind(..) => 3,
        RequestView::HasActiveBind => 4,
        RequestView::GetActiveBind => 5,
        RequestView::AddDefaultBind => 6,
        RequestView::DeleteActiveBind => 7,
        RequestView::UpdateActiveBind(..) => 8,
        RequestView::MidiInputNames => 9,
        RequestView::SetMidiInputPort(..) => 10,
        RequestView::StartMidiConnection => 11,
        RequestView::StopMidiConnection => 12,
        RequestView::HasMidiConnection => 13,
        RequestView::ExecuteBindsForNote(..) => 14,
        RequestView::SaveConfig(..) => 15,
        RequestView::Shutdown => 16,
    }
}

/// The number of a response's kind.
pub open spec fn spec_response_kind(response: ResponseView) -> int {
    match response {
        ResponseView::LenBinds(..) => 0,
        ResponseView::NoteString(..) => 1,
        ResponseView::ActionString(..) => 2,
        ResponseView::SetActiveBind => 3,
        ResponseView::HasActiveBind(..) => 4,
        ResponseView::GetActiveBind(..) => 5,
        ResponseView::AddDefaultBind(..) => 6,
        ResponseView::DeleteActiveBind(..) => 7,
        ResponseView::UpdateActiveBind(..) => 8,
        ResponseView::MidiInputNames(..) => 9,
        ResponseView::SetMidiInputPort(..) => 10,
        ResponseView::StartMidiConnection(..) => 11,
        ResponseView::StopMidiConnection => 12,
        ResponseView::HasMidiConnection(..) => 13,
        ResponseView::ExecuteBindsForNote => 14,
        ResponseView::SaveConfig => 15,
        ResponseView::Shutdown => 16,
    }
}

/// Whether a response is of the kind that answers a request.
pub open spec fn spec_answers(request: RequestView, response: ResponseView) -> bool {
    spec_request_kind(request) == spec_response_kind(response)
}

impl StateMessageResponse {
    /// What the answer `LenBinds` carries; `None` for an answer of another kind.
    pub fn len_binds(self) -> (carried: Option<usize>)
        ensures
            carried == (match self {
                StateMessageResponse::LenBinds(x) => Some(x),
                _ => None,
            }),
    {
        match self {
            StateMessageResponse::LenBinds(x) => Some(x),
            _ => None,
        }
    }

    /// What the answer `NoteString` carries; `None` for an answer of another kind.
    pub fn note_string(self) -> (carried: Option<Result<String, NotFound>>)
        ensures
            carried == (match self {
                StateMessageResponse::NoteString(x) => Some(x),
                _ => None,
            }),
    {
        match self {
            StateMessageResponse::NoteString(x) => Some(x),
            _ => None,
        }
    }

    /// What the answer `ActionString` carries; `None` for an answer of another kind.
    pub fn action_string(self) -> (carried: Option<Result<String, NotFound>>)
        ensures
            carried == (match self {
                StateMessageResponse::ActionString(x) => Some(x),
                _ => None,
            }),
    {
        match self {
            StateMessageResponse::ActionString(x) => Some(x),
            _ => None,
        }
    }

    /// Whether this is the answer `SetActiveBind`.
    pub fn set_active_bind(self) -> (is: bool)
        ensures
            is == (self is SetActiveBind),
    {
        match self {
            StateMessageResponse::SetActiveBind => true,
            _ => false,
        }
    }

    /// What the answer `HasActiveBind` carries; `None` for an answer of another kind.
    pub fn has_active_bind(self) -> (carried: Option<bool>)
        ensures
            carried == (match self {
                StateMessageResponse::HasActiveBind(x) => Some(x),
                _ => None,
            }),
    {
        match self {
            StateMessageResponse::HasActiveBind(x) => Some(x),
            _ => None,
        }
    }

    /// What the answer `GetActiveBind` carries; `None` for an answer of another kind.
    pub fn active_bind(self) -> (carried: Option<Option<Bind>>)
        ensures
            carried == (match self {
                StateMessageResponse::GetActiveBind(x) => Some(x),
                _ => None,
            }),
    {
        match self {
            StateMessageResponse::GetActiveBind(x) => Some(x),
            _ => None,
        }
    }

    /// What the answer `AddDefaultBind` carries; `None` for an answer of another kind.
    pub fn added_bind(self) -> (carried: Option<usize>)
        ensures
            carried == (match self {
                StateMessageResponse::AddDefaultBind(x) => Some(x),
                _ => None,
            }),
    {
        match self {
            StateMessageResponse::AddDefaultBind(x) => Some(x),
            _ => None,
        }
    }

    /// What the answer `DeleteActiveBind` carries; `None` for an answer of another kind.
    pub fn deleted_bind(self) -> (carried: Option<Option<usize>>)
        ensures
            carried == (match self {
                StateMessageResponse::DeleteActiveBind(x) => Some(x),
                _ => None,
            }),
    {
        match self {
            StateMessageResponse::DeleteActiveBind(x) => Some(x),
            _ => None,
        }
    }

    /// What the answer `UpdateActiveBind` carries; `None` for an answer of another kind.
    pub fn updated_bind(self) -> (carried: Option<Option<usize>>)
        ensures
            carried == (match self {
                StateMessageResponse::UpdateActiveBind(x) => Some(x),
                _ => None,
            }),
    {
        match self {
            StateMessageResponse::UpdateActiveBind(x) => Some(x),
            _ => None,
        }
    }

    /// What the answer `MidiInputNames` carries; `None` for an answer of another kind.
    pub fn midi_input_names(self) -> (carried: Option<Result<Vec<String>, MidiError>>)
        ensures
            carried == (match self {
                StateMessageResponse::MidiInputNames(x) => Some(x),
                _ => None,
            }),
    {
        match self {
            StateMessageResponse::MidiInputNames(x) => Some(x),
            _ => None,
        }
    }

    /// What the answer `SetMidiInputPort` carries; `None` for an answer of another kind.
    pub fn midi_input_port_set(self) -> (carried: Option<Result<(), MidiError>>)
        ensures
            carried == (match self {
                StateMessageResponse::SetMidiInputPort(x) => Some(x),
                _ => None,
            }),
    {
        match self {
            StateMessageResponse::SetMidiInputPort(x) => Some(x),
            _ => None,
        }
    }

    /// What the answer `StartMidiConnection` carries; `None` for an answer of another kind.
    pub fn midi_connection_started(self) -> (carried: Option<Result<(), MidiError>>)
        ensures
            carried == (match self {
                StateMessageResponse::StartMidiConnection(x) => Some(x),
                _ => None,
            }),
    {
        match self {
            StateMessageResponse::StartMidiConnection(x) => Some(x),
            _ => None,
        }
    }

    /// Whether this is the answer `StopMidiConnection`.
    pub fn midi_connection_stopped(self) -> (is: bool)
        ensures
            is == (self is StopMidiConnection),
    {
        match self {
            StateMessageResponse::StopMidiConnection => true,
            _ => false,
        }
    }

    /// What the answer `HasMidiConnection` carries; `None` for an answer of another kind.
    pub fn has_midi_connection(self) -> (carried: Option<bool>)
        ensures
            carried == (match self {
                StateMessageResponse::HasMidiConnection(x) => Some(x),
                _ => None,
            }),
    {
        match self {
            StateMessageResponse::HasMidiConnection(x) => Some(x),
            _ => None,
        }
    }

    /// Whether this is the answer `ExecuteBindsForNote`.
    pub fn binds_executed(self) -> (is: bool)
        ensures
            is == (self is ExecuteBindsForNote),
    {
        match self {
            StateMessageResponse::ExecuteBindsForNote => true,
            _ => false,
        }
    }

    /// Whether this is the answer `SaveConfig`.
    pub fn config_saved(self) -> (is: bool)
        ensures
            is == (self is SaveConfig),
    {
        match self {
            StateMessageResponse::SaveConfig => true,
            _ => false,
        }
    }

    /// Whether this is the answer `Shutdown`.
    pub fn shut_down(self) -> (is: bool)
        ensures
            is == (self is Shutdown),
    {
        match self {
            StateMessageResponse::Shutdown => true,
            _ => false,
        }
    }

}

} // verus!
