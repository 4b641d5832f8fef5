//! The dispatch engine: which synthesis calls a note event leads to.
//!
//! Nothing here touches a keyboard or a mouse. A call is a value; the caller
//! hands the recorded calls to its synthesizer, in order.

use crate::config::{
    spec_binds, spec_for_note, ActionView, Bind, BindAction, BindView, Config, MouseButton,
    ScrollDirection,
};
use crate::note::Note;
use vstd::prelude::*;

verus! {

/// The phase of a note event: the note begins to sound, or it is released.
#[derive(Clone, Copy, Debug, PartialEq, Eq, Structural)]
pub enum BindExecuteState {
    Begin,
    Release,
}

/// Why an action could not be turned into a synthesis call.
#[derive(Clone, Copy, Debug, PartialEq, Eq, Structural)]
pub enum SynthesisFailure {
    /// The bind names no key: its key text is empty.
    InvalidKey,
    /// The scroll amount has no opposite within `i32`, so it cannot be turned
    /// towards the left or upwards.
    ScrollOutOfRange,
}

/// One call to the input synthesizer.
#[derive(Debug, PartialEq, Eq)]
pub enum SynthCall {
    /// Press and release a key.
    KeyClick(char),
    /// Press a key and keep it down.
    KeyDown(char),
    /// Release a key.
    KeyUp(char),
    /// Press and release a mouse button.
    ButtonClick(MouseButton),
    /// Press a mouse button and keep it down.
    ButtonDown(MouseButton),
    /// Release a mouse button.
    ButtonUp(MouseButton),
    /// Move the pointer by an offset.
    MoveRelative(i32, i32),
    /// Move the pointer to a place.
    MoveAbsolute(i32, i32),
    /// Scroll by an amount to the right and an amount downwards.
    Scroll(i32, i32),
    /// Type a text.
    TypeText(String),
    /// Write a trace record of the note event.
    Trace { note: Note, velocity: u8, state: BindExecuteState },
}

/// A synthesis call as contracts see it.
pub enum SynthCallView {
    KeyClick(char),
    KeyDown(char),
    KeyUp(char),
    ButtonClick(MouseButton),
    ButtonDown(MouseButton),
    ButtonUp(MouseButton),
    MoveRelative(i32, i32),
    MoveAbsolute(i32, i32),
    Scroll(i32, i32),
    TypeText(Seq<char>),
    Trace { note: int, velocity: u8, state: BindExecuteState },
}

impl View for SynthCall {
    type V = SynthCallView;

    open spec fn view(&self) -> SynthCallView {
        match *self {
            SynthCall::KeyClick(key) => SynthCallView::KeyClick(key),
            SynthCall::KeyDown(key) => SynthCallView::KeyDown(key),
            SynthCall::KeyUp(key) => SynthCallView::KeyUp(key),
            SynthCall::ButtonClick(button) => SynthCallView::ButtonClick(button),
            SynthCall::ButtonDown(button) => SynthCallView::ButtonDown(button),
            SynthCall::ButtonUp(button) => SynthCallView::ButtonUp(button),
            SynthCall::MoveRelative(x, y) => SynthCallView::MoveRelative(x, y),
            SynthCall::MoveAbsolute(x, y) => SynthCallView::MoveAbsolute(x, y),
            SynthCall::Scroll(x, y) => SynthCallView::Scroll(x, y),
            SynthCall::TypeText(text) => SynthCallView::TypeText(text@),
            SynthCall::Trace { note, velocity, state } => SynthCallView::Trace {
                note: note@,
                velocity,
                state,
            },
        }
    }
}

/// The views of a list of calls, in the list's order.
pub open spec fn spec_calls(calls: Seq<SynthCall>) -> Seq<SynthCallView> {
    calls.map_values(|call: SynthCall| call@)
}

/// Whether an action is momentary: a single impulse that fires when the note
/// begins and leaves nothing held.
pub open spec fn spec_momentary(action: ActionView) -> bool {
    action is PressKey || action is Click || action is MoveMouseRelative
        || action is MoveMouseAbsolute || action is Scroll || action is Text
}

/// Whether an action is holdable: it follows the note for as long as the note
/// is held.
pub open spec fn spec_holdable(action: ActionView) -> bool {
    action is HoldKey || action is HoldClick
}

/// What a scroll action asks of the synthesizer: the amount towards the right
/// and the amount downwards, of which one is zero.
pub open spec fn spec_scroll(direction: ScrollDirection, amount: int) -> (int, int) {
    match direction {
        ScrollDirection::Up => (0, -amount),
        ScrollDirection::Down => (0, amount),
        ScrollDirection::Left => (-amount, 0),
        ScrollDirection::Right => (amount, 0),
    }
}

/// What one action leads to in one phase of a note event: a call, nothing, or
/// a failure.
///
/// A momentary action fires when the note begins and does nothing when it is
/// released. A holdable action presses when the note begins and releases when
/// it is released. The trace action writes a record in both phases. A key
/// action takes the first character of its key text and fails without one; a key
/// press that has nothing to do on release does not look at its key.
pub open spec fn spec_plan(
    action: ActionView,
    note: int,
    vel: u8,
    state: BindExecuteState,
) -> Result<Option<SynthCallView>, SynthesisFailure> {
    match action {
        ActionView::Debug => Ok(Some(SynthCallView::Trace { note, velocity: vel, state })),
        ActionView::PressKey(key) => match state {
            BindExecuteState::Begin => if key.len() == 0 {
                Err(SynthesisFailure::InvalidKey)
            } else {
                Ok(Some(SynthCallView::KeyClick(key[0])))
            },
            BindExecuteState::Release => Ok(None),
        },
        ActionView::HoldKey(key) => if key.len() == 0 {
            Err(SynthesisFailure::InvalidKey)
        } else {
            match state {
                BindExecuteState::Begin => Ok(Some(SynthCallView::KeyDown(key[0]))),
                BindExecuteState::Release => Ok(Some(SynthCallView::KeyUp(key[0]))),
            }
        },
        ActionView::Click(button) => match state {
            BindExecuteState::Begin => Ok(Some(SynthCallView::ButtonClick(button))),
            BindExecuteState::Release => Ok(None),
        },
        ActionView::HoldClick(button) => match state {
            BindExecuteState::Begin => Ok(Some(SynthCallView::ButtonDown(button))),
            BindExecuteState::Release => Ok(Some(SynthCallView::ButtonUp(button))),
        },
        ActionView::MoveMouseRelative(by) => match state {
            BindExecuteState::Begin => Ok(Some(SynthCallView::MoveRelative(by.x, by.y))),
            BindExecuteState::Release => Ok(None),
        },
        ActionView::MoveMouseAbsolute(to) => match state {
            BindExecuteState::Begin => Ok(Some(SynthCallView::MoveAbsolute(to.x, to.y))),
            BindExecuteState::Release => Ok(None),
        },
        ActionView::Scroll(param) => match state {
            BindExecuteState::Begin => {
                let (x, y) = spec_scroll(param.direction, param.amount as int);
                if x > i32::MAX || y > i32::MAX {
                    Err(SynthesisFailure::ScrollOutOfRange)
                } else {
                    Ok(Some(SynthCallView::Scroll(x as i32, y as i32)))
                }
            },
            BindExecuteState::Release => Ok(None),
        },
        ActionView::Text(text) => match state {
            BindExecuteState::Begin => Ok(Some(SynthCallView::TypeText(text))),
            BindExecuteState::Release => Ok(None),
        },
    }
}

/// The calls that a list of binds leads to when each of them is executed, in
/// the list's order. A bind that fails adds no call and stops nothing.
pub open spec fn spec_run_calls(
    binds: Seq<BindView>,
    note: int,
    vel: u8,
    state: BindExecuteState,
) -> Seq<SynthCallView>
    decreases binds.len(),
{
    if binds.len() == 0 {
        Seq::empty()
    } else {
        let before = spec_run_calls(binds.drop_last(), note, vel, state);
        match spec_plan(binds.last().action, note, vel, state) {
            Ok(Some(call)) => before.push(call),
            _ => before,
        }
    }
}

/// The failures that a list of binds leads to when each of them is executed,
/// in the list's order.
pub open spec fn spec_run_failures(
    binds: Seq<BindView>,
    note: int,
    vel: u8,
    state: BindExecuteState,
) -> Seq<SynthesisFailure>
    decreases binds.len(),
{
    if binds.len() == 0 {
        Seq::empty()
    } else {
        let before = spec_run_failures(binds.drop_last(), note, vel, state);
        match spec_plan(binds.last().action, note, vel, state) {
            Err(failure) => before.push(failure),
            _ => before,
        }
    }
}

/// The calls that a note event leads to: those of the binds of its note, in
/// the registry's order.
pub open spec fn spec_dispatch_calls(
    registry: Seq<BindView>,
    note: int,
    vel: u8,
    state: BindExecuteState,
) -> Seq<SynthCallView> {
    spec_run_calls(spec_for_note(registry, note), note, vel, state)
}

/// The failures that a note event leads to: those of the binds of its note,
/// in the registry's order.
pub open spec fn spec_dispatch_failures(
    registry: Seq<BindView>,
    note: int,
    vel: u8,
    state: BindExecuteState,
) -> Seq<SynthesisFailure> {
    spec_run_failures(spec_for_note(registry, note), note, vel, state)
}

/// Records the synthesis calls that binds lead to, in the order in which the
/// binds were executed.
#[derive(Debug, PartialEq, Eq)]
pub struct Executor {
    calls: Vec<SynthCall>,
}

impl View for Executor {
    type V = Seq<SynthCallView>;

    closed spec fn view(&self) -> Seq<SynthCallView> {
        spec_calls(self.calls@)
    }
}

/// What a note event led to.
#[derive(Debug, PartialEq, Eq)]
pub struct Dispatch {
    /// The calls to make, in order.
    pub calls: Vec<SynthCall>,
    /// The failures to report, in order; none of them held up a call.
    pub failures: Vec<SynthesisFailure>,
}

/// The first character of a key text.
fn first_key(key: &String) -> (first: Result<char, SynthesisFailure>)
    ensures
        key@.len() == 0 ==> first == Err::<char, SynthesisFailure>(SynthesisFailure::InvalidKey),
        key@.len() > 0 ==> first == Ok::<char, SynthesisFailure>(key@[0]),
{
    let text = key.as_str();
    if text.is_empty() {
        Err(SynthesisFailure::InvalidKey)
    } else {
        Ok(text.get_char(0))
    }
}

/// The opposite of a scroll amount, where `i32` has one.
fn turned(amount: i32) -> (opposite: Result<i32, SynthesisFailure>)
    ensures
        -amount > i32::MAX ==> opposite == Err::<i32, SynthesisFailure>(
            SynthesisFailure::ScrollOutOfRange,
        ),
        -amount <= i32::MAX ==> opposite == Ok::<i32, SynthesisFailure>((-amount) as i32),
{
    if amount == i32::MIN {
        Err(SynthesisFailure::ScrollOutOfRange)
    } else {
        Ok(-amount)
    }
}

/// What one action leads to in one phase of a note event.
pub fn plan(action: &BindAction, vel: u8, note: &Note, state: &BindExecuteState) -> (planned:
    Result<Option<SynthCall>, SynthesisFailure>)
    ensures
        match spec_plan(action@, note@, vel, *state) {
            Ok(Some(call)) => planned matches Ok(Some(made)) && made@ == call,
            Ok(None) => planned == Ok::<Option<SynthCall>, SynthesisFailure>(None),
            Err(failure) => planned == Err::<Option<SynthCall>, SynthesisFailure>(failure),
        },
{
    let begin = match state {
        BindExecuteState::Begin => true,
        BindExecuteState::Release => false,
    };
    match action {
        BindAction::Debug => Ok(
            Some(SynthCall::Trace { note: *note, velocity: vel, state: *state }),
        ),
        BindAction::PressKey(param) => {
            if begin {
                match first_key(&param.key) {
                    Ok(key) => Ok(Some(SynthCall::KeyClick(key))),
                    Err(failure) => Err(failure),
                }
            } else {
                Ok(None)
            }
        },
        BindAction::HoldKey(param) => {
            match first_key(&param.key) {
                Ok(key) => if begin {
                    Ok(Some(SynthCall::KeyDown(key)))
                } else {
                    Ok(Some(SynthCall::KeyUp(key)))
                },
                Err(failure) => Err(failure),
            }
        },
        BindAction::Click(button) => {
            if begin {
                Ok(Some(SynthCall::ButtonClick(*button)))
            } else {
                Ok(None)
            }
        },
        BindAction::HoldClick(button) => {
            if begin {
                Ok(Some(SynthCall::ButtonDown(*button)))
            } else {
                Ok(Some(SynthCall::ButtonUp(*button)))
            }
        },
        BindAction::MoveMouseRelative(by) => {
            if begin {
                Ok(Some(SynthCall::MoveRelative(by.x, by.y)))
            } else {
                Ok(None)
            }
        },
        BindAction::MoveMouseAbsolute(to) => {
            if begin {
                Ok(Some(SynthCall::MoveAbsolute(to.x, to.y)))
            } else {
                Ok(None)
            }
        },
        BindAction::Scroll(param) => {
            if begin {
                match param.direction {
                    ScrollDirection::Right => Ok(Some(SynthCall::Scroll(param.amount, 0))),
                    ScrollDirection::Down => Ok(Some(SynthCall::Scroll(0, param.amount))),
                    ScrollDirection::Left => match turned(param.amount) {
                        Ok(x) => Ok(Some(SynthCall::Scroll(x, 0))),
                        Err(failure) => Err(failure),
                    },
                    ScrollDirection::Up => match turned(param.amount) {
                        Ok(y) => Ok(Some(SynthCall::Scroll(0, y))),
                        Err(failure) => Err(failure),
                    },
                }
            } else {
                Ok(None)
            }
        },
        BindAction::Text(param) => {
            if begin {
                Ok(Some(SynthCall::TypeText(param.text.clone())))
            } else {
                Ok(None)
            }
        },
    }
}

impl Executor {
    /// An executor that has recorded nothing.
    pub fn new() -> (executor: Self)
        ensures
            executor@ == Seq::<SynthCallView>::empty(),
    {
        let executor = Executor { calls: Vec::new() };
        assert(executor@ =~= Seq::<SynthCallView>::empty());
        executor
    }

    /// Executes a bind for a note event: records the call that the bind's
    /// action leads to, if it leads to one. On a failure nothing is recorded.
    pub fn execute(
        &mut self,
        bind: &Bind,
        vel: u8,
        note: &Note,
        state: &BindExecuteState,
    ) -> (done: Result<(), SynthesisFailure>)
        ensures
            match spec_plan(bind@.action, note@, vel, *state) {
                Ok(Some(call)) => done is Ok && final(self)@ == old(self)@.push(call),
                Ok(None) => done is Ok && final(self)@ == old(self)@,
                Err(failure) => done == Err::<(), SynthesisFailure>(failure) && final(self)@
                    == old(self)@,
            },
    {
        match plan(&bind.action, vel, note, state) {
            Ok(Some(call)) => {
                self.calls.push(call);
                assert(self@ =~= old(self)@.push(call@));
                Ok(())
            },
            Ok(None) => Ok(()),
            Err(failure) => Err(failure),
        }
    }

    /// The calls recorded so far, in order.
    pub fn into_calls(self) -> (calls: Vec<SynthCall>)
        ensures
            spec_calls(calls@) == self@,
    {
        self.calls
    }
}

/// Dispatches a note event: executes every bind of the note, in the
/// registry's order. A bind that fails is reported and the binds behind it are
/// executed all the same.
pub fn dispatch(config: &Config, note: &Note, vel: u8, state: &BindExecuteState) -> (outcome:
    Dispatch)
    ensures
        spec_calls(outcome.calls@) == spec_dispatch_calls(config@, note@, vel, *state),
        outcome.failures@ == spec_dispatch_failures(config@, note@, vel, *state),
{
    let binds = config.get_binds_for_note(note);
    let mut executor = Executor::new();
    let mut failures: Vec<SynthesisFailure> = Vec::new();
    let mut i: usize = 0;
    assert(spec_binds(binds@).take(0) =~= Seq::<BindView>::empty());
    while i < binds.len()
        invariant
            i <= binds.len(),
            executor@ == spec_run_calls(spec_binds(binds@).take(i as int), note@, vel, *state),
            failures@ == spec_run_failures(spec_binds(binds@).take(i as int), note@, vel, *state),
        decreases binds.len() - i,
    {
        proof {
            let done = spec_binds(binds@).take(i as int);
            let next = spec_binds(binds@).take(i + 1);
            assert(next.drop_last() =~= done);
            assert(next.last() == binds@[i as int]@);
        }
        match executor.execute(&binds[i], vel, note, state) {
            Ok(()) => {},
            Err(failure) => {
                failures.push(failure);
            },
        }
        i += 1;
    }
    assert(spec_binds(binds@).take(i as int) =~= spec_binds(binds@));
    Dispatch { calls: executor.into_calls(), failures }
}

/// A momentary action fires once when the note begins and does nothing when
/// the note is released: on release it leads to no call and to no failure, and
/// where it does not fail at the beginning it leads to exactly one call there.
/// What it leads to depends on the action and the event alone, so a second
/// event of the same kind leads to the same call again.
pub proof fn lemma_momentary(action: ActionView, note: int, vel: u8)
    requires
        spec_momentary(action),
    ensures
        spec_plan(action, note, vel, BindExecuteState::Release) == Ok::<
            Option<SynthCallView>,
            SynthesisFailure,
        >(None),
        spec_plan(action, note, vel, BindExecuteState::Begin) is Ok ==> spec_plan(
            action,
            note,
            vel,
            BindExecuteState::Begin,
        )->Ok_0 is Some,
{
}

/// A holdable action mirrors the note: where it does not fail, the beginning
/// of the note leads to exactly one press and the release to exactly one
/// release, of the same key or button.
pub proof fn lemma_hold_symmetry(action: ActionView, note: int, vel: u8)
    requires
        spec_holdable(action),
        spec_plan(action, note, vel, BindExecuteState::Begin) is Ok,
    ensures
        match action {
            ActionView::HoldKey(key) => key.len() > 0 && spec_plan(
                action,
                note,
                vel,
                BindExecuteState::Begin,
            ) == Ok::<Option<SynthCallView>, SynthesisFailure>(
                Some(SynthCallView::KeyDown(key[0])),
            ) && spec_plan(action, note, vel, BindExecuteState::Release) == Ok::<
                Option<SynthCallView>,
                SynthesisFailure,
            >(Some(SynthCallView::KeyUp(key[0]))),
            ActionView::HoldClick(button) => spec_plan(
                action,
                note,
                vel,
                BindExecuteState::Begin,
            ) == Ok::<Option<SynthCallView>, SynthesisFailure>(
                Some(SynthCallView::ButtonDown(button)),
            ) && spec_plan(action, note, vel, BindExecuteState::Release) == Ok::<
                Option<SynthCallView>,
                SynthesisFailure,
            >(Some(SynthCallView::ButtonUp(button))),
            _ => false,
        },
{
}

/// A failing bind holds up nothing: the calls of a note event are those of the
/// binds that do not fail, whatever fails among them. For a registry that
/// grows by one bind of the note, the calls before stay as they are and the new
/// bind's call, if it leads to one, comes last.
pub proof fn lemma_dispatch_appends(
    registry: Seq<BindView>,
    bind: BindView,
    vel: u8,
    state: BindExecuteState,
)
    ensures
        spec_dispatch_calls(registry.push(bind), bind.note, vel, state) == match spec_plan(
            bind.action,
            bind.note,
            vel,
            state,
        ) {
            Ok(Some(call)) => spec_dispatch_calls(registry, bind.note, vel, state).push(call),
            _ => spec_dispatch_calls(registry, bind.note, vel, state),
        },
{
    reveal(Seq::filter);
    let grown = registry.push(bind);
    assert(grown.drop_last() =~= registry);
    let chosen = spec_for_note(grown, bind.note);
    assert(chosen == spec_for_note(registry, bind.note).push(bind));
    assert(chosen.drop_last() =~= spec_for_note(registry, bind.note));
}

} // verus!
