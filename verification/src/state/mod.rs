//! The state that one actor owns: the registry, the selection and the MIDI
//! lifecycle.
//!
//! The actor's loop belongs to the caller. For each request it asks
//! `driver_request` what the MIDI driver has to do first, does it, and hands
//! the request and the driver's answer to `handle`, which changes the state and
//! says what to answer and what else to do.

pub mod interface;
pub mod midi;
pub mod table_data_adaptor;

use crate::bind::{
    dispatch, spec_calls, spec_dispatch_calls, spec_dispatch_failures, BindExecuteState, SynthCall,
    SynthCallView, SynthesisFailure,
};
use crate::config::{
    spec_action_name, spec_edit, spec_found, Bind, BindView, Config, Edit, NotFound,
};
use crate::note::spec_name;
use crate::state::interface::{
    spec_answers, RequestView, ResponseView, StateMessageRequest, StateMessageResponse,
};
use crate::state::midi::{
    spec_init, spec_names, spec_request, spec_set_port, spec_start, spec_stop, DriverReply,
    DriverReplyView, DriverRequest, Midi, MidiError, MidiOp, MidiView, Phase,
};
use vstd::prelude::*;

verus! {

/// The state as contracts see it.
pub struct StateView {
    /// The registry.
    pub binds: Seq<BindView>,
    /// The index of the bind that is being edited, if one is selected. It may
    /// be stale: an index that names no bind.
    pub active: Option<usize>,
    /// The MIDI lifecycle.
    pub midi: MidiView,
}

/// The state that the actor owns.
#[derive(Debug, PartialEq, Eq)]
pub struct State {
    config: Config,
    active_bind: Option<usize>,
    midi: Midi,
}

/// What the actor does about a request, besides changing its state.
#[derive(Debug, PartialEq, Eq)]
pub struct Reaction {
    /// The synthesis calls to make, in order, before answering.
    pub calls: Vec<SynthCall>,
    /// The failures to report; none of them held up a call.
    pub failures: Vec<SynthesisFailure>,
    /// The destination to persist the registry to, before answering.
    pub persist: Option<String>,
    /// The answer to send.
    pub response: StateMessageResponse,
    /// Whether the actor stops after this answer.
    pub shutdown: bool,
}

/// A reaction as contracts see it.
pub struct ReactionView {
    pub calls: Seq<SynthCallView>,
    pub failures: Seq<SynthesisFailure>,
    pub persist: Option<Seq<char>>,
    pub response: ResponseView,
    pub shutdown: bool,
}

impl View for State {
    type V = StateView;

    closed spec fn view(&self) -> StateView {
        StateView { binds: self.config@, active: self.active_bind, midi: self.midi@ }
    }
}

impl View for Reaction {
    type V = ReactionView;

    open spec fn view(&self) -> ReactionView {
        ReactionView {
            calls: spec_calls(self.calls@),
            failures: self.failures@,
            persist: match self.persist {
                Some(destination) => Some(destination@),
                None => None,
            },
            response: self.response@,
            shutdown: self.shutdown,
        }
    }
}

/// A reaction that only answers.
pub open spec fn spec_answer(response: ResponseView) -> ReactionView {
    ReactionView {
        calls: Seq::empty(),
        failures: Seq::empty(),
        persist: None,
        response,
        shutdown: false,
    }
}

/// The selected bind: the one at the selected index, if a bind is selected
/// and the index names one.
pub open spec fn spec_active_bind(state: StateView) -> Option<BindView> {
    match state.active {
        Some(idx) => if spec_found(state.binds, idx as int) {
            Some(state.binds[idx as int])
        } else {
            None
        },
        None => None,
    }
}

/// Where the selection stands after the bind at `idx` was deleted: cleared if
/// it was that bind, moved down by one if it lay behind it, so that it names
/// the same bind as before, and unchanged if it lay before it.
pub open spec fn spec_selection_after_delete(active: Option<usize>, idx: usize) -> Option<usize> {
    match active {
        Some(selected) => if selected == idx {
            None
        } else if selected > idx {
            Some((selected - 1) as usize)
        } else {
            Some(selected)
        },
        None => None,
    }
}

/// Deleting the bind at an index: the registry loses the bind and the
/// selection follows. An index that names no bind changes nothing.
pub open spec fn spec_delete(state: StateView, idx: usize) -> (StateView, Result<(), NotFound>) {
    if spec_found(state.binds, idx as int) {
        (
            StateView {
                binds: state.binds.remove(idx as int),
                active: spec_selection_after_delete(state.active, idx),
                ..state
            },
            Ok(()),
        )
    } else {
        (state, Err(NotFound))
    }
}

/// Deleting the selected bind: the bind goes, the selection is cleared and
/// the bind's index is returned. A stale selection is cleared and nothing is
/// deleted.
pub open spec fn spec_delete_active(state: StateView) -> (StateView, Option<usize>) {
    match state.active {
        Some(idx) => if spec_found(state.binds, idx as int) {
            (spec_delete(state, idx).0, Some(idx))
        } else {
            (StateView { active: None, ..state }, None)
        },
        None => (state, None),
    }
}

/// Overwriting the selected bind: the bind is replaced and its index
/// returned. Without a selection, or with a stale one, nothing changes.
pub open spec fn spec_update_active(state: StateView, bind: BindView) -> (
    StateView,
    Option<usize>,
) {
    match state.active {
        Some(idx) => if spec_found(state.binds, idx as int) {
            (StateView { binds: state.binds.update(idx as int, bind), ..state }, Some(idx))
        } else {
            (state, None)
        },
        None => (state, None),
    }
}

/// The step of the MIDI lifecycle that a request takes, if it takes one.
pub open spec fn spec_midi_op(request: RequestView) -> Option<MidiOp> {
    match request {
        RequestView::MidiInputNames => Some(MidiOp::ListPorts),
        RequestView::SetMidiInputPort(idx) => Some(MidiOp::SetPort(idx)),
        RequestView::StartMidiConnection => Some(MidiOp::Start),
        RequestView::StopMidiConnection => Some(MidiOp::Stop),
        RequestView::Shutdown => Some(MidiOp::Stop),
        _ => None,
    }
}

/// What a request asks of the MIDI driver before it is handled.
pub open spec fn spec_driver_request(state: StateView, request: RequestView) -> DriverRequest {
    match spec_midi_op(request) {
        Some(op) => spec_request(state.midi, op),
        None => DriverRequest::Nothing,
    }
}

/// The actor's step: the state after a request and the reaction to it, given
/// what the driver answered.
pub open spec fn spec_handle(state: StateView, request: RequestView, reply: DriverReplyView) -> (
    StateView,
    ReactionView,
) {
    match request {
        RequestView::LenBinds => (
            state,
            spec_answer(ResponseView::LenBinds(state.binds.len() as usize)),
        ),
        RequestView::NoteString(idx) => (
            state,
            spec_answer(
                ResponseView::NoteString(
                    if spec_found(state.binds, idx as int) {
                        Ok(spec_name(state.binds[idx as int].note))
                    } else {
                        Err(NotFound)
                    },
                ),
            ),
        ),
        RequestView::ActionString(idx) => (
            state,
            spec_answer(
                ResponseView::ActionString(
                    if spec_found(state.binds, idx as int) {
                        Ok(spec_action_name(state.binds[idx as int].action))
                    } else {
                        Err(NotFound)
                    },
                ),
            ),
        ),
        RequestView::SetActiveBind(selection) => (
            StateView { active: selection, ..state },
            spec_answer(ResponseView::SetActiveBind),
        ),
        RequestView::HasActiveBind => (
            state,
            spec_answer(ResponseView::HasActiveBind(state.active is Some)),
        ),
        RequestView::GetActiveBind => (
            state,
            spec_answer(ResponseView::GetActiveBind(spec_active_bind(state))),
        ),
        RequestView::AddDefaultBind => (
            StateView { binds: spec_edit(state.binds, Edit::AddDefault), ..state },
            spec_answer(ResponseView::AddDefaultBind(state.binds.len() as usize)),
        ),
        RequestView::DeleteActiveBind => (
            spec_delete_active(state).0,
            spec_answer(ResponseView::DeleteActiveBind(spec_delete_active(state).1)),
        ),
        RequestView::UpdateActiveBind(bind) => (
            spec_update_active(state, bind).0,
            spec_answer(ResponseView::UpdateActiveBind(spec_update_active(state, bind).1)),
        ),
        RequestView::MidiInputNames => (
            StateView { midi: spec_names(state.midi, reply).0, ..state },
            spec_answer(ResponseView::MidiInputNames(spec_names(state.midi, reply).1)),
        ),
        RequestView::SetMidiInputPort(idx) => (
            StateView { midi: spec_set_port(state.midi, idx, reply).0, ..state },
            spec_answer(ResponseView::SetMidiInputPort(spec_set_port(state.midi, idx, reply).1)),
        ),
        RequestView::StartMidiConnection => (
            StateView { midi: spec_start(state.midi, reply).0, ..state },
            spec_answer(ResponseView::StartMidiConnection(spec_start(state.midi, reply).1)),
        ),
        RequestView::StopMidiConnection => (
            StateView { midi: spec_stop(state.midi), ..state },
            spec_answer(ResponseView::StopMidiConnection),
        ),
        RequestView::HasMidiConnection => (
            state,
            spec_answer(ResponseView::HasMidiConnection(state.midi.phase is Connected)),
        ),
        RequestView::ExecuteBindsForNote(note, vel, phase) => (
            state,
            ReactionView {
                calls: spec_dispatch_calls(state.binds, note, vel, phase),
                failures: spec_dispatch_failures(state.binds, note, vel, phase),
                ..spec_answer(ResponseView::ExecuteBindsForNote)
            },
        ),
        RequestView::SaveConfig(destination) => (
            state,
            ReactionView { persist: Some(destination), ..spec_answer(ResponseView::SaveConfig) },
        ),
        RequestView::Shutdown => (
            StateView { midi: spec_stop(state.midi), ..state },
            ReactionView { shutdown: true, ..spec_answer(ResponseView::Shutdown) },
        ),
    }
}

/// A reaction that only answers.
fn answer(response: StateMessageResponse) -> (reaction: Reaction)
    ensures
        reaction@ == spec_answer(response@),
        reaction.response == response,
{
    let reaction = Reaction {
        calls: Vec::new(),
        failures: Vec::new(),
        persist: None,
        response,
        shutdown: false,
    };
    assert(reaction@.calls =~= Seq::<SynthCallView>::empty());
    assert(reaction@.failures =~= Seq::<SynthesisFailure>::empty());
    reaction
}

impl State {
    /// The state at the start: the given registry, no selection, and a MIDI
    /// lifecycle that has not opened the driver.
    pub fn from_config(config: Config) -> (state: Self)
        ensures
            state@ == (StateView {
                binds: config@,
                active: None,
                midi: MidiView {
                    phase: Phase::Uninitialized,
                    port: None,
                    port_names: Seq::empty(),
                },
            }),
    {
        State { config, active_bind: None, midi: Midi::new() }
    }

    /// The registry.
    pub fn config(&self) -> (config: &Config)
        ensures
            config@ == self@.binds,
    {
        &self.config
    }

    /// Opens the MIDI driver, given the driver's answer.
    pub fn init_midi(&mut self, reply: &DriverReply) -> (done: Result<(), MidiError>)
        ensures
            final(self)@ == (StateView { midi: spec_init(old(self)@.midi, reply@).0, ..old(self)@ }),
            done == spec_init(old(self)@.midi, reply@).1,
    {
        self.midi.init_midi(reply)
    }

    /// Whether the MIDI connection is open.
    pub fn has_midi_connection(&self) -> (open: bool)
        ensures
            open == (self@.midi.phase is Connected),
    {
        self.midi.has_open_connection()
    }

    /// Selects the bind at an index, or clears the selection. The index is
    /// taken as it is; a selection that names no bind is stale.
    pub fn set_active_bind(&mut self, idx: Option<usize>)
        ensures
            final(self)@ == (StateView { active: idx, ..old(self)@ }),
    {
        self.active_bind = idx;
    }

    /// Whether a bind is selected.
    pub fn has_active_bind(&self) -> (selected: bool)
        ensures
            selected == (self@.active is Some),
    {
        self.active_bind.is_some()
    }

    /// A copy of the selected bind; `None` without a selection or with a
    /// stale one.
    pub fn get_active_bind(&self) -> (bind: Option<Bind>)
        ensures
            match spec_active_bind(self@) {
                Some(selected) => bind matches Some(b) && b@ == selected,
                None => bind is None,
            },
    {
        match self.active_bind {
            Some(idx) => match self.config.get_bind(idx) {
                Ok(bind) => Some(bind),
                Err(_) => None,
            },
            None => None,
        }
    }

    /// Deletes the bind at an index and lets the selection follow: it is
    /// cleared if it named that bind and moved down by one if it lay behind it.
    pub fn delete_bind(&mut self, idx: usize) -> (done: Result<(), NotFound>)
        ensures
            (final(self)@, done) == spec_delete(old(self)@, idx),
    {
        match self.config.delete_bind(idx) {
            Err(e) => Err(e),
            Ok(()) => {
                self.active_bind = match self.active_bind {
                    Some(selected) => if selected == idx {
                        None
                    } else if selected > idx {
                        Some(selected - 1)
                    } else {
                        Some(selected)
                    },
                    None => None,
                };
                Ok(())
            },
        }
    }

    /// Deletes the selected bind, clears the selection and returns the bind's
    /// index; `None` without a selection or with a stale one.
    pub fn delete_active_bind(&mut self) -> (deleted: Option<usize>)
        ensures
            (final(self)@, deleted) == spec_delete_active(old(self)@),
    {
        match self.active_bind {
            Some(idx) => match self.delete_bind(idx) {
                Ok(()) => Some(idx),
                Err(_) => {
                    self.active_bind = None;
                    None
                },
            },
            None => None,
        }
    }

    /// Puts a bind in the place of the selected one and returns its index;
    /// `None` without a selection or with a stale one.
    pub fn update_active_bind(&mut self, bind: Bind) -> (updated: Option<usize>)
        ensures
            (final(self)@, updated) == spec_update_active(old(self)@, bind@),
    {
        match self.active_bind {
            Some(idx) => match self.config.set_bind(idx, bind) {
                Ok(()) => Some(idx),
                Err(_) => None,
            },
            None => None,
        }
    }

    /// What a request asks of the MIDI driver before it is handled.
    pub fn driver_request(&self, request: &StateMessageRequest) -> (asked: DriverRequest)
        ensures
            asked == spec_driver_request(self@, request@),
    {
        match request {
            StateMessageRequest::MidiInputNames => self.midi.driver_request(MidiOp::ListPorts),
            StateMessageRequest::SetMidiInputPort(idx) => self.midi.driver_request(
                MidiOp::SetPort(*idx),
            ),
            StateMessageRequest::StartMidiConnection => self.midi.driver_request(MidiOp::Start),
            StateMessageRequest::StopMidiConnection => self.midi.driver_request(MidiOp::Stop),
            StateMessageRequest::Shutdown => self.midi.driver_request(MidiOp::Stop),
            _ => DriverRequest::Nothing,
        }
    }

    /// Handles one request, given what the MIDI driver answered: changes the
    /// state and says what to do and what to answer. Every request is answered,
    /// with the kind of response that belongs to it; none makes the actor fail.
    pub fn handle(&mut self, request: StateMessageRequest, reply: DriverReply) -> (reaction:
        Reaction)
        ensures
            (final(self)@, reaction@) == spec_handle(old(self)@, request@, reply@),
            spec_answers(request@, reaction@.response),
    {
        match request {
            StateMessageRequest::LenBinds => answer(
                StateMessageResponse::LenBinds(self.config.len_binds()),
            ),
            StateMessageRequest::NoteString(idx) => answer(
                StateMessageResponse::NoteString(self.config.get_bind_note_string(idx)),
            ),
            StateMessageRequest::ActionString(idx) => answer(
                StateMessageResponse::ActionString(self.config.get_bind_action_string(idx)),
            ),
            StateMessageRequest::SetActiveBind(selection) => {
                self.set_active_bind(selection);
                answer(StateMessageResponse::SetActiveBind)
            },
            StateMessageRequest::HasActiveBind => answer(
                StateMessageResponse::HasActiveBind(self.has_active_bind()),
            ),
            StateMessageRequest::GetActiveBind => answer(
                StateMessageResponse::GetActiveBind(self.get_active_bind()),
            ),
            StateMessageRequest::AddDefaultBind => answer(
                StateMessageResponse::AddDefaultBind(self.config.add_default_bind()),
            ),
            StateMessageRequest::DeleteActiveBind => answer(
                StateMessageResponse::DeleteActiveBind(self.delete_active_bind()),
            ),
            StateMessageRequest::UpdateActiveBind(bind) => answer(
                StateMessageResponse::UpdateActiveBind(self.update_active_bind(bind)),
            ),
            StateMessageRequest::MidiInputNames => answer(
                StateMessageResponse::MidiInputNames(self.midi.get_midi_input_names(reply)),
            ),
            StateMessageRequest::SetMidiInputPort(idx) => answer(
                StateMessageResponse::SetMidiInputPort(self.midi.set_midi_input_port(idx, reply)),
            ),
            StateMessageRequest::StartMidiConnection => answer(
                StateMessageResponse::StartMidiConnection(self.midi.start_midi_connection(&reply)),
            ),
            StateMessageRequest::StopMidiConnection => {
                self.midi.stop_midi_connection();
                answer(StateMessageResponse::StopMidiConnection)
            },
            StateMessageRequest::HasMidiConnection => answer(
                StateMessageResponse::HasMidiConnection(self.midi.has_open_connection()),
            ),
            StateMessageRequest::ExecuteBindsForNote(note, vel, phase) => {
                let outcome = dispatch(&self.config, &note, vel, &phase);
                Reaction {
                    calls: outcome.calls,
                    failures: outcome.failures,
                    persist: None,
                    response: StateMessageResponse::ExecuteBindsForNote,
                    shutdown: false,
                }
            },
            StateMessageRequest::SaveConfig(destination) => {
                let mut reaction = answer(StateMessageResponse::SaveConfig);
                reaction.persist = Some(destination);
                reaction
            },
            StateMessageRequest::Shutdown => {
                self.midi.stop_midi_connection();
                let mut reaction = answer(StateMessageResponse::Shutdown);
                reaction.shutdown = true;
                reaction
            },
        }
    }
}

/// Deleting a bind and the selection. Deleting the selected bind clears the
/// selection. Deleting a bind behind the selected one leaves the selection and
/// the bind at its index as they are. Deleting a bind before the selected one
/// moves the selection down by one. In the two last cases the selection names
/// the same bind after the deletion as before.
pub proof fn lemma_delete_keeps_selection(state: StateView, idx: usize)
    requires
        spec_found(state.binds, idx as int),
    ensures
        ({
            let after = spec_delete(state, idx).0;
            &&& after.binds.len() == state.binds.len() - 1
            &&& match state.active {
                Some(selected) => if selected == idx {
                    after.active is None
                } else if selected < idx {
                    after.active == Some(selected) && after.binds[selected as int]
                        == state.binds[selected as int]
                } else {
                    after.active == Some((selected - 1) as usize) && (spec_found(
                        state.binds,
                        selected as int,
                    ) ==> after.binds[selected - 1] == state.binds[selected as int])
                },
                None => after.active is None,
            }
            &&& state.active != Some(idx) ==> spec_active_bind(after) == spec_active_bind(state)
        }),
{
}

/// Deleting the selected bind through the actor clears the selection and
/// shortens the registry by that bind; afterwards no bind is selected, so
/// nothing can be read or overwritten through a selection that has gone stale.
pub proof fn lemma_delete_active_clears(state: StateView)
    ensures
        spec_delete_active(state).0.active is None,
        spec_active_bind(spec_delete_active(state).0) is None,
        spec_delete_active(state).1 is Some <==> spec_active_bind(state) is Some,
        spec_delete_active(state).1 is Some ==> spec_delete_active(state).0.binds
            == state.binds.remove(state.active->Some_0 as int),
        spec_delete_active(state).1 is None ==> spec_delete_active(state).0.binds == state.binds,
{
}

/// Dispatching a note event leaves the state as it is: a second event of the
/// same kind leads to the same calls again, and nothing stays held in the actor.
pub proof fn lemma_dispatch_keeps_state(
    state: StateView,
    note: int,
    vel: u8,
    phase: BindExecuteState,
    reply: DriverReplyView,
)
    ensures
        spec_handle(state, RequestView::ExecuteBindsForNote(note, vel, phase), reply).0 == state,
        spec_driver_request(state, RequestView::ExecuteBindsForNote(note, vel, phase))
            is Nothing,
{
}

/// While the MIDI connection is open, the names of the ports are answered
/// from the names kept before it was opened, and the driver is asked for
/// nothing; only a request to stop, or to shut down, asks it to close.
pub proof fn lemma_connected_lists_from_cache(state: StateView, reply: DriverReplyView)
    requires
        state.midi.phase is Connected,
    ensures
        spec_driver_request(state, RequestView::MidiInputNames) is Nothing,
        spec_driver_request(state, RequestView::StartMidiConnection) is Nothing,
        spec_driver_request(state, RequestView::StopMidiConnection) is Close,
        spec_driver_request(state, RequestView::Shutdown) is Close,
        spec_handle(state, RequestView::MidiInputNames, reply) == (
            state,
            spec_answer(
                ResponseView::MidiInputNames(
                    Ok::<Seq<Seq<char>>, MidiError>(state.midi.port_names),
                ),
            ),
        ),
{
}

/// After a shutdown no connection is open, and the actor is told to stop.
pub proof fn lemma_shutdown_closes(state: StateView, reply: DriverReplyView)
    ensures
        !(spec_handle(state, RequestView::Shutdown, reply).0.midi.phase is Connected),
        spec_handle(state, RequestView::Shutdown, reply).1.shutdown,
{
}

} // verus!
