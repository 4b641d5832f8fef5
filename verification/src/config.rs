//! The registry of binds: an ordered list that maps notes to actions.

use crate::note::{spec_name, Note};
use vstd::prelude::*;

verus! {

/// An index that names no bind of the registry.
#[derive(Clone, Copy, Debug, PartialEq, Eq, Structural)]
pub struct NotFound;

/// A mouse button.
#[derive(Clone, Copy, Debug, PartialEq, Eq, Structural)]
pub enum MouseButton {
    Left,
    Right,
    Middle,
}

/// A direction on the screen.
#[derive(Clone, Copy, Debug, PartialEq, Eq, Structural)]
pub enum ScrollDirection {
    Up,
    Down,
    Left,
    Right,
}

/// A move of the pointer by an offset.
#[derive(Clone, Copy, Debug, PartialEq, Eq, Structural)]
pub struct RelativePos2D {
    pub x: i32,
    pub y: i32,
}

/// A place on the screen.
#[derive(Clone, Copy, Debug, PartialEq, Eq, Structural)]
pub struct AbsolutePos2D {
    pub x: i32,
    pub y: i32,
}

/// A turn of the scroll wheel.
#[derive(Clone, Copy, Debug, PartialEq, Eq, Structural)]
pub struct ScrollBindAction {
    pub direction: ScrollDirection,
    pub amount: i32,
}

/// A key of the keyboard, named by the first character of `key`.
#[derive(Debug, PartialEq, Eq)]
pub struct KeyboardKeyBindAction {
    pub key: String,
}

/// A text to type.
#[derive(Debug, PartialEq, Eq)]
pub struct TextBindAction {
    pub text: String,
}

/// What is done when a bind's note is played.
#[derive(Debug, PartialEq, Eq)]
pub enum BindAction {
    PressKey(KeyboardKeyBindAction),
    HoldKey(KeyboardKeyBindAction),
    Click(MouseButton),
    HoldClick(MouseButton),
    MoveMouseRelative(RelativePos2D),
    MoveMouseAbsolute(AbsolutePos2D),
    Scroll(ScrollBindAction),
    Text(TextBindAction),
    Debug,
}

/// A note and the action that it triggers.
#[derive(Debug, PartialEq, Eq)]
pub struct Bind {
    /// The note that triggers the action.
    pub note: Note,
    /// What is done when the note is played.
    pub action: BindAction,
}

/// The ordered list of binds. A note may have none, one or many binds, and
/// two binds may be alike.
#[derive(Debug, PartialEq, Eq)]
pub struct Config {
    binds: Vec<Bind>,
}

/// An action as contracts see it: texts are sequences of characters.
pub enum ActionView {
    PressKey(Seq<char>),
    HoldKey(Seq<char>),
    Click(MouseButton),
    HoldClick(MouseButton),
    MoveMouseRelative(RelativePos2D),
    MoveMouseAbsolute(AbsolutePos2D),
    Scroll(ScrollBindAction),
    Text(Seq<char>),
    Debug,
}

/// A bind as contracts see it: the note's number and the action's view.
pub struct BindView {
    pub note: int,
    pub action: ActionView,
}

/// One change to a registry.
pub enum Edit {
    /// Append the default bind.
    AddDefault,
    /// Put a bind in the place of the one at an index.
    Replace(int, BindView),
    /// Take out the bind at an index.
    Delete(int),
}

impl View for KeyboardKeyBindAction {
    type V = Seq<char>;

    open spec fn view(&self) -> Seq<char> {
        self.key@
    }
}

impl View for TextBindAction {
    type V = Seq<char>;

    open spec fn view(&self) -> Seq<char> {
        self.text@
    }
}

impl View for BindAction {
    type V = ActionView;

    open spec fn view(&self) -> ActionView {
        match *self {
            BindAction::PressKey(param) => ActionView::PressKey(param@),
            BindAction::HoldKey(param) => ActionView::HoldKey(param@),
            BindAction::Click(button) => ActionView::Click(button),
            BindAction::HoldClick(button) => ActionView::HoldClick(button),
            BindAction::MoveMouseRelative(by) => ActionView::MoveMouseRelative(by),
            BindAction::MoveMouseAbsolute(to) => ActionView::MoveMouseAbsolute(to),
            BindAction::Scroll(param) => ActionView::Scroll(param),
            BindAction::Text(param) => ActionView::Text(param@),
            BindAction::Debug => ActionView::Debug,
        }
    }
}

impl View for Bind {
    type V = BindView;

    open spec fn view(&self) -> BindView {
        BindView { note: self.note@, action: self.action@ }
    }
}

impl View for Config {
    type V = Seq<BindView>;

    closed spec fn view(&self) -> Seq<BindView> {
        spec_binds(self.binds@)
    }
}

/// The views of a list of binds, in the list's order.
pub open spec fn spec_binds(binds: Seq<Bind>) -> Seq<BindView> {
    binds.map_values(|bind: Bind| bind@)
}

/// The bind that a registry starts a new entry with: middle C, and a move of
/// the pointer by nothing.
pub open spec fn spec_default_bind() -> BindView {
    BindView { note: 60, action: ActionView::MoveMouseRelative(RelativePos2D { x: 0, y: 0 }) }
}

/// Whether an index names a bind of the registry.
pub open spec fn spec_found(binds: Seq<BindView>, idx: int) -> bool {
    0 <= idx < binds.len()
}

/// The binds of a note, in the registry's order.
pub open spec fn spec_for_note(binds: Seq<BindView>, note: int) -> Seq<BindView> {
    binds.filter(|bind: BindView| bind.note == note)
}

/// The registry after one change. A change at an index that names no bind
/// leaves the registry as it is.
pub open spec fn spec_edit(binds: Seq<BindView>, edit: Edit) -> Seq<BindView> {
    match edit {
        Edit::AddDefault => binds.push(spec_default_bind()),
        Edit::Replace(idx, bind) => if spec_found(binds, idx) {
            binds.update(idx, bind)
        } else {
            binds
        },
        Edit::Delete(idx) => if spec_found(binds, idx) {
            binds.remove(idx)
        } else {
            binds
        },
    }
}

/// The registry after a run of changes, made in order.
pub open spec fn spec_edits(binds: Seq<BindView>, edits: Seq<Edit>) -> Seq<BindView>
    decreases edits.len(),
{
    if edits.len() == 0 {
        binds
    } else {
        spec_edit(spec_edits(binds, edits.drop_last()), edits.last())
    }
}

/// How many binds a run of changes adds.
pub open spec fn spec_adds(edits: Seq<Edit>) -> nat
    decreases edits.len(),
{
    if edits.len() == 0 {
        0
    } else {
        spec_adds(edits.drop_last()) + if edits.last() is AddDefault {
            1nat
        } else {
            0nat
        }
    }
}

/// How many binds a run of changes deletes: the deletions that name a bind at
/// the time they are made.
pub open spec fn spec_deletes(binds: Seq<BindView>, edits: Seq<Edit>) -> nat
    decreases edits.len(),
{
    if edits.len() == 0 {
        0
    } else {
        spec_deletes(binds, edits.drop_last()) + if edits.last() matches Edit::Delete(idx)
            && spec_found(spec_edits(binds, edits.drop_last()), idx) {
            1nat
        } else {
            0nat
        }
    }
}

/// The number that stands for a kind of action.
pub open spec fn spec_action_index(action: ActionView) -> int {
    match action {
        ActionView::PressKey(_) => 0,
        ActionView::HoldKey(_) => 1,
        ActionView::Click(_) => 2,
        ActionView::HoldClick(_) => 3,
        ActionView::MoveMouseRelative(_) => 4,
        ActionView::MoveMouseAbsolute(_) => 5,
        ActionView::Scroll(_) => 6,
        ActionView::Text(_) => 7,
        ActionView::Debug => 8,
    }
}

/// The name that a kind of action is shown under.
pub open spec fn spec_action_name(action: ActionView) -> Seq<char> {
    match action {
        ActionView::PressKey(_) => "Press Key"@,
        ActionView::HoldKey(_) => "Hold Key"@,
        ActionView::Click(_) => "Click"@,
        ActionView::HoldClick(_) => "Hold Click"@,
        ActionView::MoveMouseRelative(_) => "Move Mouse"@,
        ActionView::MoveMouseAbsolute(_) => "Move Mouse to"@,
        ActionView::Scroll(_) => "Scroll"@,
        ActionView::Text(_) => "Text"@,
        ActionView::Debug => "Debug"@,
    }
}

impl Clone for KeyboardKeyBindAction {
    fn clone(&self) -> (copy: Self)
        ensures
            copy == *self,
    {
        KeyboardKeyBindAction { key: self.key.clone() }
    }
}

impl Clone for TextBindAction {
    fn clone(&self) -> (copy: Self)
        ensures
            copy == *self,
    {
        TextBindAction { text: self.text.clone() }
    }
}

impl Clone for BindAction {
    fn clone(&self) -> (copy: Self)
        ensures
            copy == *self,
    {
        match self {
            BindAction::PressKey(param) => BindAction::PressKey(param.clone()),
            BindAction::HoldKey(param) => BindAction::HoldKey(param.clone()),
            BindAction::Click(button) => BindAction::Click(*button),
            BindAction::HoldClick(button) => BindAction::HoldClick(*button),
            BindAction::MoveMouseRelative(by) => BindAction::MoveMouseRelative(*by),
            BindAction::MoveMouseAbsolute(to) => BindAction::MoveMouseAbsolute(*to),
            BindAction::Scroll(param) => BindAction::Scroll(*param),
            BindAction::Text(param) => BindAction::Text(param.clone()),
            BindAction::Debug => BindAction::Debug,
        }
    }
}

impl Clone for Bind {
    fn clone(&self) -> (copy: Self)
        ensures
            copy == *self,
    {
        Bind { note: self.note, action: self.action.clone() }
    }
}

impl Default for MouseButton {
    fn default() -> (button: Self)
        ensures
            button == MouseButton::Left,
    {
        MouseButton::Left
    }
}

impl Default for ScrollDirection {
    fn default() -> (direction: Self)
        ensures
            direction == ScrollDirection::Down,
    {
        ScrollDirection::Down
    }
}

impl Default for RelativePos2D {
    fn default() -> (by: Self)
        ensures
            by == (RelativePos2D { x: 0, y: 0 }),
    {
        RelativePos2D { x: 0, y: 0 }
    }
}

impl Default for AbsolutePos2D {
    fn default() -> (to: Self)
        ensures
            to == (AbsolutePos2D { x: 0, y: 0 }),
    {
        AbsolutePos2D { x: 0, y: 0 }
    }
}

impl Default for ScrollBindAction {
    fn default() -> (param: Self)
        ensures
            param == (ScrollBindAction { direction: ScrollDirection::Down, amount: 0 }),
    {
        ScrollBindAction { direction: ScrollDirection::Down, amount: 0 }
    }
}

impl Default for KeyboardKeyBindAction {
    fn default() -> (param: Self)
        ensures
            param@ == Seq::<char>::empty(),
    {
        KeyboardKeyBindAction { key: String::new() }
    }
}

impl Default for TextBindAction {
    fn default() -> (param: Self)
        ensures
            param@ == Seq::<char>::empty(),
    {
        TextBindAction { text: String::new() }
    }
}

impl Default for BindAction {
    fn default() -> (action: Self)
        ensures
            action@ == spec_default_bind().action,
    {
        BindAction::MoveMouseRelative(RelativePos2D { x: 0, y: 0 })
    }
}

impl Default for Bind {
    fn default() -> (bind: Self)
        ensures
            bind@ == spec_default_bind(),
    {
        Bind {
            note: Note::from_midi(60),
            action: BindAction::MoveMouseRelative(RelativePos2D { x: 0, y: 0 }),
        }
    }
}

impl MouseButton {
    /// The number that stands for the button: 0 for left, 1 for right, 2 for
    /// middle.
    pub open spec fn spec_index(self) -> int {
        match self {
            MouseButton::Left => 0,
            MouseButton::Right => 1,
            MouseButton::Middle => 2,
        }
    }

    /// The number that stands for the button.
    pub fn index(&self) -> (index: u8)
        ensures
            index == self.spec_index(),
    {
        match self {
            MouseButton::Left => 0,
            MouseButton::Right => 1,
            MouseButton::Middle => 2,
        }
    }
}

impl ScrollDirection {
    /// The number that stands for the direction: 0 for up, 1 for down, 2 for
    /// left, 3 for right.
    pub open spec fn spec_index(self) -> int {
        match self {
            ScrollDirection::Up => 0,
            ScrollDirection::Down => 1,
            ScrollDirection::Left => 2,
            ScrollDirection::Right => 3,
        }
    }

    /// The number that stands for the direction.
    pub fn index(&self) -> (index: u8)
        ensures
            index == self.spec_index(),
    {
        match self {
            ScrollDirection::Up => 0,
            ScrollDirection::Down => 1,
            ScrollDirection::Left => 2,
            ScrollDirection::Right => 3,
        }
    }
}

impl BindAction {
    /// The number that stands for the kind of action.
    pub fn index(&self) -> (index: u8)
        ensures
            index == spec_action_index(self@),
    {
        match self {
            BindAction::PressKey(_) => 0,
            BindAction::HoldKey(_) => 1,
            BindAction::Click(_) => 2,
            BindAction::HoldClick(_) => 3,
            BindAction::MoveMouseRelative(_) => 4,
            BindAction::MoveMouseAbsolute(_) => 5,
            BindAction::Scroll(_) => 6,
            BindAction::Text(_) => 7,
            BindAction::Debug => 8,
        }
    }

    /// The name that the kind of action is shown under.
    pub fn name(&self) -> (name: String)
        ensures
            name@ == spec_action_name(self@),
    {
        let name = match self {
            BindAction::PressKey(_) => "Press Key",
            BindAction::HoldKey(_) => "Hold Key",
            BindAction::Click(_) => "Click",
            BindAction::HoldClick(_) => "Hold Click",
            BindAction::MoveMouseRelative(_) => "Move Mouse",
            BindAction::MoveMouseAbsolute(_) => "Move Mouse to",
            BindAction::Scroll(_) => "Scroll",
            BindAction::Text(_) => "Text",
            BindAction::Debug => "Debug",
        };
        String::from_str(name)
    }
}

impl Config {
    /// An empty registry.
    pub fn new() -> (config: Self)
        ensures
            config@ == Seq::<BindView>::empty(),
    {
        let config = Config { binds: Vec::new() };
        assert(config@ =~= Seq::<BindView>::empty());
        config
    }

    /// A copy of the bind at an index.
    pub fn get_bind(&self, idx: usize) -> (bind: Result<Bind, NotFound>)
        ensures
            spec_found(self@, idx as int) ==> (bind matches Ok(b) && b@ == self@[idx as int]),
            !spec_found(self@, idx as int) ==> bind == Err::<Bind, NotFound>(NotFound),
    {
        if idx < self.binds.len() {
            Ok(self.binds[idx].clone())
        } else {
            Err(NotFound)
        }
    }

    /// Appends a bind and returns its index, the last of the registry.
    pub fn add_bind(&mut self, bind: Bind) -> (idx: usize)
        ensures
            final(self)@ == old(self)@.push(bind@),
            idx == old(self)@.len(),
    {
        self.binds.push(bind);
        assert(self@ =~= old(self)@.push(bind@));
        self.binds.len() - 1
    }

    /// Appends the default bind and returns its index.
    pub fn add_default_bind(&mut self) -> (idx: usize)
        ensures
            final(self)@ == spec_edit(old(self)@, Edit::AddDefault),
            idx == old(self)@.len(),
    {
        self.add_bind(Bind::default())
    }

    /// Takes out the bind at an index; the binds behind it move down by one.
    pub fn delete_bind(&mut self, idx: usize) -> (done: Result<(), NotFound>)
        ensures
            final(self)@ == spec_edit(old(self)@, Edit::Delete(idx as int)),
            done is Ok <==> spec_found(old(self)@, idx as int),
    {
        if idx >= self.binds.len() {
            return Err(NotFound);
        }
        self.binds.remove(idx);
        assert(self@ =~= old(self)@.remove(idx as int));
        Ok(())
    }

    /// Copies of the binds of a note, in the registry's order.
    pub fn get_binds_for_note(&self, note: &Note) -> (found: Vec<Bind>)
        ensures
            spec_binds(found@) == spec_for_note(self@, note@),
    {
        let number = note.midi();
        let mut found: Vec<Bind> = Vec::new();
        let mut i: usize = 0;
        assert(spec_binds(self.binds@.take(0)) =~= Seq::<BindView>::empty());
        assert(spec_binds(found@) =~= Seq::<BindView>::empty());
        while i < self.binds.len()
            invariant
                i <= self.binds.len(),
                number == note@,
                spec_binds(found@) == spec_for_note(
                    spec_binds(self.binds@.take(i as int)),
                    note@,
                ),
            decreases self.binds.len() - i,
        {
            let ghost before = spec_binds(self.binds@.take(i as int));
            let ghost after = spec_binds(self.binds@.take(i + 1));
            let ghost copies = spec_binds(found@);
            proof {
                assert(after.drop_last() =~= before);
                assert(after.last() == self.binds@[i as int]@);
                lemma_for_note_last(after, note@);
            }
            if self.binds[i].note.midi() == number {
                found.push(self.binds[i].clone());
                assert(spec_binds(found@) =~= copies.push(self.binds@[i as int]@));
            }
            i += 1;
        }
        assert(self.binds@.take(i as int) =~= self.binds@);
        found
    }

    /// The written form of the note of the bind at an index.
    pub fn get_bind_note_string(&self, idx: usize) -> (name: Result<String, NotFound>)
        ensures
            spec_found(self@, idx as int) ==> (name matches Ok(text) && text@ == spec_name(
                self@[idx as int].note,
            )),
            !spec_found(self@, idx as int) ==> name == Err::<String, NotFound>(NotFound),
    {
        match self.get_bind(idx) {
            Ok(bind) => Ok(bind.note.to_string()),
            Err(e) => Err(e),
        }
    }

    /// The name of the kind of action of the bind at an index.
    pub fn get_bind_action_string(&self, idx: usize) -> (name: Result<String, NotFound>)
        ensures
            spec_found(self@, idx as int) ==> (name matches Ok(text) && text@ == spec_action_name(
                self@[idx as int].action,
            )),
            !spec_found(self@, idx as int) ==> name == Err::<String, NotFound>(NotFound),
    {
        match self.get_bind(idx) {
            Ok(bind) => Ok(bind.action.name()),
            Err(e) => Err(e),
        }
    }

    /// The number of binds.
    pub fn len_binds(&self) -> (len: usize)
        ensures
            len == self@.len(),
    {
        self.binds.len()
    }

    /// Puts a bind in the place of the one at an index.
    pub fn set_bind(&mut self, idx: usize, bind: Bind) -> (done: Result<(), NotFound>)
        ensures
            final(self)@ == spec_edit(old(self)@, Edit::Replace(idx as int, bind@)),
            done is Ok <==> spec_found(old(self)@, idx as int),
    {
        if idx >= self.binds.len() {
            return Err(NotFound);
        }
        self.binds.set(idx, bind);
        assert(self@ =~= old(self)@.update(idx as int, bind@));
        Ok(())
    }
}

/// The binds of a note in a registry that is not empty: those among all but
/// the last bind, and then the last bind if it is of that note.
pub proof fn lemma_for_note_last(binds: Seq<BindView>, note: int)
    requires
        binds.len() > 0,
    ensures
        spec_for_note(binds, note) == if binds.last().note == note {
            spec_for_note(binds.drop_last(), note).push(binds.last())
        } else {
            spec_for_note(binds.drop_last(), note)
        },
{
    reveal(Seq::filter);
}

/// The length of a registry after a run of changes is its length before, plus
/// the binds added, minus the binds deleted; and every index below that length
/// names a bind.
pub proof fn lemma_edits_len(binds: Seq<BindView>, edits: Seq<Edit>)
    ensures
        spec_edits(binds, edits).len() == binds.len() + spec_adds(edits) - spec_deletes(
            binds,
            edits,
        ),
        forall|idx: int|
            0 <= idx < spec_edits(binds, edits).len() ==> spec_found(
                spec_edits(binds, edits),
                idx,
            ),
    decreases edits.len(),
{
    if edits.len() > 0 {
        lemma_edits_len(binds, edits.drop_last());
    }
}

} // verus!
