use bindmidi::bind::{BindExecuteState, SynthCall, SynthesisFailure};
use bindmidi::config::{
    Bind, BindAction, Config, KeyboardKeyBindAction, MouseButton, NotFound,
};
use bindmidi::note::Note;
use bindmidi::state::interface::{StateMessageRequest as Req, StateMessageResponse as Res};
use bindmidi::state::midi::{DriverReply, DriverRequest, MidiError};
use bindmidi::state::{Reaction, State};

fn key(text: &str) -> KeyboardKeyBindAction {
    KeyboardKeyBindAction { key: text.to_string() }
}

fn bind(note: u8, action: BindAction) -> Bind {
    Bind { note: Note::from_midi(note), action }
}

fn state_with(binds: Vec<Bind>) -> State {
    let mut config = Config::new();
    for b in binds {
        config.add_bind(b);
    }
    State::from_config(config)
}

fn notes(state: &State) -> Vec<u8> {
    (0..state.config().len_binds())
        .map(|i| state.config().get_bind(i).unwrap().note.midi())
        .collect()
}

fn ask(state: &mut State, request: Req) -> Res {
    let reaction = state.handle(request, DriverReply::Nothing);
    assert!(reaction.calls.is_empty());
    assert!(reaction.failures.is_empty());
    assert_eq!(reaction.persist, None);
    assert!(!reaction.shutdown);
    reaction.response
}

fn names(list: &[&str]) -> Vec<String> {
    list.iter().map(|name| name.to_string()).collect()
}

#[test]
fn registry_queries_are_answered() {
    let mut state = state_with(vec![bind(60, BindAction::PressKey(key("x"))), bind(61, BindAction::Debug)]);
    assert_eq!(ask(&mut state, Req::LenBinds), Res::LenBinds(2));
    assert_eq!(ask(&mut state, Req::NoteString(0)), Res::NoteString(Ok("C4".to_string())));
    assert_eq!(ask(&mut state, Req::NoteString(2)), Res::NoteString(Err(NotFound)));
    assert_eq!(ask(&mut state, Req::ActionString(1)), Res::ActionString(Ok("Debug".to_string())));
    assert_eq!(ask(&mut state, Req::ActionString(9)), Res::ActionString(Err(NotFound)));
    assert_eq!(ask(&mut state, Req::AddDefaultBind), Res::AddDefaultBind(2));
    assert_eq!(ask(&mut state, Req::LenBinds), Res::LenBinds(3));
}

#[test]
fn selection_is_set_read_and_cleared() {
    let mut state = state_with(vec![bind(10, BindAction::Debug), bind(20, BindAction::Debug)]);
    assert_eq!(ask(&mut state, Req::HasActiveBind), Res::HasActiveBind(false));
    assert_eq!(ask(&mut state, Req::GetActiveBind), Res::GetActiveBind(None));
    assert_eq!(ask(&mut state, Req::SetActiveBind(Some(1))), Res::SetActiveBind);
    assert_eq!(ask(&mut state, Req::HasActiveBind), Res::HasActiveBind(true));
    assert_eq!(ask(&mut state, Req::GetActiveBind), Res::GetActiveBind(Some(bind(20, BindAction::Debug))));
    assert_eq!(ask(&mut state, Req::SetActiveBind(None)), Res::SetActiveBind);
    assert_eq!(ask(&mut state, Req::HasActiveBind), Res::HasActiveBind(false));
}

#[test]
fn stale_selection_does_not_fail() {
    let mut state = state_with(vec![bind(10, BindAction::Debug)]);
    assert_eq!(ask(&mut state, Req::SetActiveBind(Some(5))), Res::SetActiveBind);
    assert_eq!(ask(&mut state, Req::HasActiveBind), Res::HasActiveBind(true));
    assert_eq!(ask(&mut state, Req::GetActiveBind), Res::GetActiveBind(None));
    assert_eq!(ask(&mut state, Req::UpdateActiveBind(bind(1, BindAction::Debug))), Res::UpdateActiveBind(None));
    assert_eq!(notes(&state), vec![10]);
    assert_eq!(ask(&mut state, Req::HasActiveBind), Res::HasActiveBind(true));
    assert_eq!(ask(&mut state, Req::DeleteActiveBind), Res::DeleteActiveBind(None));
    assert_eq!(notes(&state), vec![10]);
    assert_eq!(ask(&mut state, Req::HasActiveBind), Res::HasActiveBind(false));
}

#[test]
fn deleting_the_selected_bind_clears_the_selection() {
    let mut state = state_with(vec![bind(10, BindAction::Debug), bind(20, BindAction::Debug), bind(30, BindAction::Debug)]);
    assert_eq!(ask(&mut state, Req::DeleteActiveBind), Res::DeleteActiveBind(None));
    ask(&mut state, Req::SetActiveBind(Some(1)));
    assert_eq!(ask(&mut state, Req::DeleteActiveBind), Res::DeleteActiveBind(Some(1)));
    assert_eq!(notes(&state), vec![10, 30]);
    assert_eq!(ask(&mut state, Req::HasActiveBind), Res::HasActiveBind(false));
    assert_eq!(ask(&mut state, Req::GetActiveBind), Res::GetActiveBind(None));
    assert_eq!(ask(&mut state, Req::DeleteActiveBind), Res::DeleteActiveBind(None));
    assert_eq!(notes(&state), vec![10, 30]);
}

#[test]
fn deleting_another_bind_keeps_the_selected_bind_selected() {
    let four = || state_with((1..=4).map(|n| bind(n * 10, BindAction::Debug)).collect());

    let mut state = four();
    state.set_active_bind(Some(1));
    assert_eq!(state.delete_bind(3), Ok(()));
    assert_eq!(notes(&state), vec![10, 20, 30]);
    assert_eq!(state.get_active_bind(), Some(bind(20, BindAction::Debug)));
    assert_eq!(state.delete_active_bind(), Some(1));

    let mut state = four();
    state.set_active_bind(Some(2));
    assert_eq!(state.delete_bind(0), Ok(()));
    assert_eq!(notes(&state), vec![20, 30, 40]);
    assert_eq!(state.get_active_bind(), Some(bind(30, BindAction::Debug)));
    assert_eq!(state.delete_active_bind(), Some(1));
    assert_eq!(notes(&state), vec![20, 40]);

    let mut state = four();
    state.set_active_bind(Some(2));
    assert_eq!(state.delete_bind(2), Ok(()));
    assert!(!state.has_active_bind());
    assert_eq!(state.get_active_bind(), None);

    let mut state = four();
    state.set_active_bind(Some(2));
    assert_eq!(state.delete_bind(4), Err(NotFound));
    assert_eq!(notes(&state), vec![10, 20, 30, 40]);
    assert_eq!(state.get_active_bind(), Some(bind(30, BindAction::Debug)));
}

#[test]
fn update_overwrites_the_selected_bind() {
    let mut state = state_with(vec![bind(10, BindAction::Debug), bind(20, BindAction::Debug)]);
    let new = bind(99, BindAction::Click(MouseButton::Middle));
    assert_eq!(ask(&mut state, Req::UpdateActiveBind(new.clone())), Res::UpdateActiveBind(None));
    ask(&mut state, Req::SetActiveBind(Some(0)));
    assert_eq!(ask(&mut state, Req::UpdateActiveBind(new.clone())), Res::UpdateActiveBind(Some(0)));
    assert_eq!(notes(&state), vec![99, 20]);
    assert_eq!(ask(&mut state, Req::GetActiveBind), Res::GetActiveBind(Some(new)));
}

#[test]
fn press_key_end_to_end() {
    let mut state = state_with(vec![bind(60, BindAction::PressKey(key("x")))]);
    assert_eq!(state.config().get_bind_note_string(0), Ok("C4".to_string()));
    let note = Note::from_midi(60);
    let on = Req::ExecuteBindsForNote(note, 100, BindExecuteState::Begin);
    assert_eq!(state.driver_request(&on), DriverRequest::Nothing);
    let reaction = state.handle(on, DriverReply::Nothing);
    assert_eq!(
        reaction,
        Reaction {
            calls: vec![SynthCall::KeyClick('x')],
            failures: vec![],
            persist: None,
            response: Res::ExecuteBindsForNote,
            shutdown: false,
        }
    );
    let off = state.handle(Req::ExecuteBindsForNote(note, 0, BindExecuteState::Release), DriverReply::Nothing);
    assert!(off.calls.is_empty());
    assert_eq!(off.response, Res::ExecuteBindsForNote);
    assert_eq!(notes(&state), vec![60]);
}

#[test]
fn hold_click_and_debug_end_to_end() {
    let mut state = state_with(vec![
        bind(64, BindAction::HoldClick(MouseButton::Left)),
        bind(64, BindAction::Debug),
    ]);
    let note = Note::from_midi(64);
    let on = state.handle(Req::ExecuteBindsForNote(note, 90, BindExecuteState::Begin), DriverReply::Nothing);
    assert_eq!(
        on.calls,
        vec![
            SynthCall::ButtonDown(MouseButton::Left),
            SynthCall::Trace { note, velocity: 90, state: BindExecuteState::Begin },
        ]
    );
    let off = state.handle(Req::ExecuteBindsForNote(note, 0, BindExecuteState::Release), DriverReply::Nothing);
    assert_eq!(
        off.calls,
        vec![
            SynthCall::ButtonUp(MouseButton::Left),
            SynthCall::Trace { note, velocity: 0, state: BindExecuteState::Release },
        ]
    );
    assert!(on.failures.is_empty() && off.failures.is_empty());
}

#[test]
fn dispatch_reports_failures_and_goes_on() {
    let mut state = state_with(vec![
        bind(60, BindAction::HoldKey(key(""))),
        bind(60, BindAction::PressKey(key("b"))),
    ]);
    let reaction = state.handle(
        Req::ExecuteBindsForNote(Note::from_midi(60), 1, BindExecuteState::Begin),
        DriverReply::Nothing,
    );
    assert_eq!(reaction.calls, vec![SynthCall::KeyClick('b')]);
    assert_eq!(reaction.failures, vec![SynthesisFailure::InvalidKey]);
    assert_eq!(reaction.response, Res::ExecuteBindsForNote);
    assert_eq!(ask(&mut state, Req::LenBinds), Res::LenBinds(2));
}

#[test]
fn midi_requests_drive_the_lifecycle() {
    let mut state = state_with(vec![]);
    assert_eq!(state.init_midi(&DriverReply::OpenFailed), Err(MidiError::DeviceUnavailable));
    assert_eq!(state.init_midi(&DriverReply::Opened), Ok(()));
    assert_eq!(ask(&mut state, Req::HasMidiConnection), Res::HasMidiConnection(false));

    assert_eq!(state.driver_request(&Req::MidiInputNames), DriverRequest::Scan);
    let listed = state.handle(Req::MidiInputNames, DriverReply::Ports(names(&["in 0", "in 1"])));
    assert_eq!(listed.response, Res::MidiInputNames(Ok(names(&["in 0", "in 1"]))));
    let failed = state.handle(Req::MidiInputNames, DriverReply::ScanFailed);
    assert_eq!(failed.response, Res::MidiInputNames(Err(MidiError::DeviceUnavailable)));

    assert_eq!(state.driver_request(&Req::SetMidiInputPort(1)), DriverRequest::Scan);
    let set = state.handle(Req::SetMidiInputPort(1), DriverReply::Ports(names(&["in 0", "in 1"])));
    assert_eq!(set.response, Res::SetMidiInputPort(Ok(())));
    let bad = state.handle(Req::SetMidiInputPort(2), DriverReply::Ports(names(&["in 0", "in 1"])));
    assert_eq!(bad.response, Res::SetMidiInputPort(Err(MidiError::InvalidPort)));

    assert_eq!(state.driver_request(&Req::StartMidiConnection), DriverRequest::Connect(1));
    let rejected = state.handle(Req::StartMidiConnection, DriverReply::Rejected);
    assert_eq!(rejected.response, Res::StartMidiConnection(Err(MidiError::ConnectFailure)));
    assert!(!state.has_midi_connection());
    let started = state.handle(Req::StartMidiConnection, DriverReply::Connected);
    assert_eq!(started.response, Res::StartMidiConnection(Ok(())));
    assert_eq!(ask(&mut state, Req::HasMidiConnection), Res::HasMidiConnection(true));

    assert_eq!(state.driver_request(&Req::MidiInputNames), DriverRequest::Nothing);
    assert_eq!(state.driver_request(&Req::StartMidiConnection), DriverRequest::Nothing);
    let cached = state.handle(Req::MidiInputNames, DriverReply::Ports(names(&["other"])));
    assert_eq!(cached.response, Res::MidiInputNames(Ok(names(&["in 0", "in 1"]))));
    let again = state.handle(Req::StartMidiConnection, DriverReply::Connected);
    assert_eq!(again.response, Res::StartMidiConnection(Err(MidiError::AlreadyConnected)));

    assert_eq!(state.driver_request(&Req::StopMidiConnection), DriverRequest::Close);
    let stopped = state.handle(Req::StopMidiConnection, DriverReply::Closed);
    assert_eq!(stopped.response, Res::StopMidiConnection);
    assert!(!state.has_midi_connection());
    assert_eq!(state.driver_request(&Req::StopMidiConnection), DriverRequest::Nothing);
    assert_eq!(ask(&mut state, Req::StopMidiConnection), Res::StopMidiConnection);
    let relisted = state.handle(Req::MidiInputNames, DriverReply::Ports(names(&["other"])));
    assert_eq!(relisted.response, Res::MidiInputNames(Ok(names(&["other"]))));
}

#[test]
fn save_names_the_destination() {
    let mut state = state_with(vec![bind(1, BindAction::Debug)]);
    let reaction = state.handle(Req::SaveConfig("config.json".to_string()), DriverReply::Nothing);
    assert_eq!(reaction.persist, Some("config.json".to_string()));
    assert_eq!(reaction.response, Res::SaveConfig);
    assert!(!reaction.shutdown);
    assert!(reaction.calls.is_empty());
    assert_eq!(notes(&state), vec![1]);
}

#[test]
fn shutdown_closes_the_connection_and_stops() {
    let mut state = state_with(vec![]);
    state.init_midi(&DriverReply::Opened).unwrap();
    state.handle(Req::MidiInputNames, DriverReply::Ports(names(&["in"])));
    state.handle(Req::StartMidiConnection, DriverReply::Connected);
    assert!(state.has_midi_connection());
    assert_eq!(state.driver_request(&Req::Shutdown), DriverRequest::Close);
    let reaction = state.handle(Req::Shutdown, DriverReply::Closed);
    assert_eq!(reaction.response, Res::Shutdown);
    assert!(reaction.shutdown);
    assert!(!state.has_midi_connection());

    let mut idle = state_with(vec![]);
    assert_eq!(idle.driver_request(&Req::Shutdown), DriverRequest::Nothing);
    assert!(idle.handle(Req::Shutdown, DriverReply::Nothing).shutdown);
}

#[test]
fn responses_give_up_what_they_carry() {
    assert_eq!(Res::LenBinds(3).len_binds(), Some(3));
    assert_eq!(Res::SetActiveBind.len_binds(), None);
    assert_eq!(Res::NoteString(Ok("C4".to_string())).note_string(), Some(Ok("C4".to_string())));
    assert_eq!(Res::NoteString(Err(NotFound)).note_string(), Some(Err(NotFound)));
    assert_eq!(Res::ActionString(Ok("Debug".to_string())).action_string(), Some(Ok("Debug".to_string())));
    assert_eq!(Res::NoteString(Ok("C4".to_string())).action_string(), None);
    assert!(Res::SetActiveBind.set_active_bind());
    assert!(!Res::Shutdown.set_active_bind());
    assert_eq!(Res::HasActiveBind(true).has_active_bind(), Some(true));
    assert_eq!(Res::GetActiveBind(Some(Bind::default())).active_bind(), Some(Some(Bind::default())));
    assert_eq!(Res::GetActiveBind(None).active_bind(), Some(None));
    assert_eq!(Res::AddDefaultBind(4).added_bind(), Some(4));
    assert_eq!(Res::DeleteActiveBind(Some(1)).deleted_bind(), Some(Some(1)));
    assert_eq!(Res::UpdateActiveBind(None).updated_bind(), Some(None));
    assert_eq!(Res::UpdateActiveBind(None).deleted_bind(), None);
    assert_eq!(Res::MidiInputNames(Ok(names(&["a"]))).midi_input_names(), Some(Ok(names(&["a"]))));
    assert_eq!(
        Res::SetMidiInputPort(Err(MidiError::InvalidPort)).midi_input_port_set(),
        Some(Err(MidiError::InvalidPort))
    );
    assert_eq!(Res::StartMidiConnection(Ok(())).midi_connection_started(), Some(Ok(())));
    assert!(Res::StopMidiConnection.midi_connection_stopped());
    assert_eq!(Res::HasMidiConnection(false).has_midi_connection(), Some(false));
    assert!(Res::ExecuteBindsForNote.binds_executed());
    assert!(Res::SaveConfig.config_saved());
    assert!(Res::Shutdown.shut_down());
    assert!(!Res::LenBinds(0).shut_down());
}
