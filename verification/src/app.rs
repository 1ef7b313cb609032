//! The editor state machine: modes, focus, edit buffers and the committed
//! mapping, with the transition rules that keystrokes drive.

use vstd::prelude::*;

use crate::chars::{pop_char, push_char};

verus! {

/// The top-level mode of the editor, governing which commands are legal.
#[derive(Clone, Copy, PartialEq, Eq, Structural, Debug)]
pub enum CurrentScreen {
    Main,
    Editing,
    Exiting,
}

/// Which of the two edit buffers receives input while editing.
#[derive(Clone, Copy, PartialEq, Eq, Structural, Debug)]
pub enum CurrentlyEditing {
    Key,
    Value,
}

/// An abstract key press, as the input layer hands it to the editor.
#[derive(Clone, Copy, PartialEq, Eq, Structural, Debug)]
pub enum InputKey {
    Char(char),
    Enter,
    Backspace,
    Esc,
    Tab,
    Other,
}

/// What one key press asks of the surrounding event loop.
#[derive(Clone, Copy, PartialEq, Eq, Structural, Debug)]
pub enum Step {
    /// Keep reading input.
    Continue,
    /// A pair was committed; the caller should persist the mapping now.
    Committed,
    /// Leave the loop and export the mapping.
    SaveAndQuit,
    /// Leave the loop without exporting.
    QuitWithoutSave,
}

/// The editor state seen abstractly: buffers as character sequences and
/// the committed pairs as a map.
#[verifier::ext_equal]
pub ghost struct StateView {
    pub screen: CurrentScreen,
    pub editing: Option<CurrentlyEditing>,
    pub key: Seq<char>,
    pub value: Seq<char>,
    pub pairs: Map<Seq<char>, Seq<char>>,
}

/// The whole editor state: the two in-progress buffers, the committed
/// key-to-value pairs, the mode, and the focused buffer (present exactly
/// while the mode is `Editing`).
pub struct App {
    pub key_input: String,
    pub value_input: String,
    pub pairs: Vec<(String, String)>,
    pub current_screen: CurrentScreen,
    pub currently_editing: Option<CurrentlyEditing>,
}

impl App {
    /// The map that a sequence of pairs denotes when each entry overwrites
    /// any earlier entry with the same key.
    pub open spec fn map_of(ps: Seq<(String, String)>) -> Map<Seq<char>, Seq<char>>
        decreases ps.len(),
    {
        if ps.len() == 0 {
            Map::empty()
        } else {
            Self::map_of(ps.drop_last()).insert(ps.last().0@, ps.last().1@)
        }
    }

    /// No two committed pairs share a key.
    pub open spec fn keys_unique(ps: Seq<(String, String)>) -> bool {
        forall|i: int, j: int| 0 <= i < j < ps.len() ==> ps[i].0@ != ps[j].0@
    }

    /// The committed pairs as a mathematical map from key to value.
    pub open spec fn pairs_map(&self) -> Map<Seq<char>, Seq<char>> {
        Self::map_of(self.pairs@)
    }

    /// The abstract view of the whole state.
    pub open spec fn abs(&self) -> StateView {
        StateView {
            screen: self.current_screen,
            editing: self.currently_editing,
            key: self.key_input@,
            value: self.value_input@,
            pairs: self.pairs_map(),
        }
    }

    /// Well-formedness: the focus is present exactly in editing mode, and
    /// committed keys are unique.
    pub open spec fn wf(&self) -> bool {
        &&& (self.currently_editing is Some <==> self.current_screen is Editing)
        &&& Self::keys_unique(self.pairs@)
    }

    /// What one key press does to the abstract state, and what it asks of
    /// the event loop: the whole transition table of the editor.
    pub open spec fn step(s: StateView, k: InputKey) -> (StateView, Step) {
        match s.screen {
            CurrentScreen::Main => match k {
                InputKey::Char(c) => if c == 'e' {
                    (
                        StateView {
                            screen: CurrentScreen::Editing,
                            editing: Some(CurrentlyEditing::Key),
                            ..s
                        },
                        Step::Continue,
                    )
                } else if c == 'q' {
                    (StateView { screen: CurrentScreen::Exiting, ..s }, Step::Continue)
                } else {
                    (s, Step::Continue)
                },
                InputKey::Esc => (StateView { screen: CurrentScreen::Exiting, ..s }, Step::Continue),
                _ => (s, Step::Continue),
            },
            CurrentScreen::Exiting => match k {
                InputKey::Char(c) => if c == 'y' {
                    (s, Step::SaveAndQuit)
                } else if c == 'n' || c == 'q' {
                    (s, Step::QuitWithoutSave)
                } else {
                    (s, Step::Continue)
                },
                _ => (s, Step::Continue),
            },
            CurrentScreen::Editing => match k {
                InputKey::Enter => match s.editing {
                    Some(CurrentlyEditing::Key) => (
                        StateView { editing: Some(CurrentlyEditing::Value), ..s },
                        Step::Continue,
                    ),
                    Some(CurrentlyEditing::Value) => (
                        StateView {
                            screen: CurrentScreen::Main,
                            editing: None,
                            key: Seq::empty(),
                            value: Seq::empty(),
                            pairs: s.pairs.insert(s.key, s.value),
                        },
                        Step::Committed,
                    ),
                    None => (s, Step::Continue),
                },
                InputKey::Backspace => match s.editing {
                    Some(CurrentlyEditing::Key) => (
                        StateView {
                            key: if s.key.len() > 0 { s.key.drop_last() } else { s.key },
                            ..s
                        },
                        Step::Continue,
                    ),
                    Some(CurrentlyEditing::Value) => (
                        StateView {
                            value: if s.value.len() > 0 { s.value.drop_last() } else { s.value },
                            ..s
                        },
                        Step::Continue,
                    ),
                    None => (s, Step::Continue),
                },
                InputKey::Esc => (
                    StateView { screen: CurrentScreen::Main, editing: None, ..s },
                    Step::Continue,
                ),
                InputKey::Tab => match s.editing {
                    Some(CurrentlyEditing::Key) => (
                        StateView { editing: Some(CurrentlyEditing::Value), ..s },
                        Step::Continue,
                    ),
                    Some(CurrentlyEditing::Value) => (
                        StateView { editing: Some(CurrentlyEditing::Key), ..s },
                        Step::Continue,
                    ),
                    None => (s, Step::Continue),
                },
                InputKey::Char(c) => match s.editing {
                    Some(CurrentlyEditing::Key) => (
                        StateView { key: s.key.push(c), ..s },
                        Step::Continue,
                    ),
                    Some(CurrentlyEditing::Value) => (
                        StateView { value: s.value.push(c), ..s },
                        Step::Continue,
                    ),
                    None => (s, Step::Continue),
                },
                InputKey::Other => (s, Step::Continue),
            },
        }
    }

    /// A fresh editor: empty buffers, nothing committed, main mode.
    pub fn new() -> (app: App)
        ensures
            app.wf(),
            app.key_input@ == Seq::<char>::empty(),
            app.value_input@ == Seq::<char>::empty(),
            app.pairs@ == Seq::<(String, String)>::empty(),
            app.current_screen is Main,
            app.currently_editing is None,
    {
        App {
            key_input: String::new(),
            value_input: String::new(),
            pairs: Vec::new(),
            current_screen: CurrentScreen::Main,
            currently_editing: None,
        }
    }

    /// Begin an edit session: legal only from the main screen; the key
    /// buffer takes the focus.
    pub fn enter_edit_mode(&mut self)
        requires
            old(self).wf(),
            old(self).current_screen is Main,
        ensures
            final(self).wf(),
            final(self).abs() == (StateView {
                screen: CurrentScreen::Editing,
                editing: Some(CurrentlyEditing::Key),
                ..old(self).abs()
            }),
    {
        self.current_screen = CurrentScreen::Editing;
        self.currently_editing = Some(CurrentlyEditing::Key);
    }

    /// Ask to leave: legal only from the main screen.
    pub fn begin_exit(&mut self)
        requires
            old(self).wf(),
            old(self).current_screen is Main,
        ensures
            final(self).wf(),
            final(self).abs() == (StateView { screen: CurrentScreen::Exiting, ..old(self).abs() }),
    {
        self.current_screen = CurrentScreen::Exiting;
    }

    /// Confirm leaving: the editor signals save-and-quit.
    pub fn confirm_exit(&self) -> (r: bool)
        requires
            self.current_screen is Exiting,
        ensures
            r == true,
    {
        true
    }

    /// Decline saving on the way out: the editor signals quit-without-save.
    pub fn cancel_exit(&self) -> (r: bool)
        requires
            self.current_screen is Exiting,
        ensures
            r == false,
    {
        false
    }

    /// Commit the in-progress pair: the key buffer's content maps to the
    /// value buffer's content, overwriting any earlier value under the same
    /// key; both buffers are cleared and the focus is dropped. The caller
    /// persists the mapping after each commit.
    pub fn save_key_value(&mut self)
        requires
            App::keys_unique(old(self).pairs@),
        ensures
            App::keys_unique(final(self).pairs@),
            final(self).pairs_map() == old(self).pairs_map().insert(
                old(self).key_input@,
                old(self).value_input@,
            ),
            final(self).key_input@ == Seq::<char>::empty(),
            final(self).value_input@ == Seq::<char>::empty(),
            final(self).currently_editing is None,
            final(self).current_screen == old(self).current_screen,
    {
        let k = self.key_input.clone();
        let v = self.value_input.clone();
        insert_pair(&mut self.pairs, k, v);
        self.key_input = String::new();
        self.value_input = String::new();
        self.currently_editing = None;
    }

    /// Move the focus from the key buffer to the value buffer, or, when the
    /// value buffer has the focus, commit the pair and return to the main
    /// screen.
    pub fn advance_field(&mut self)
        requires
            old(self).wf(),
            old(self).current_screen is Editing,
        ensures
            final(self).wf(),
            final(self).abs() == Self::step(old(self).abs(), InputKey::Enter).0,
    {
        match self.currently_editing {
            Some(CurrentlyEditing::Key) => {
                self.currently_editing = Some(CurrentlyEditing::Value);
            },
            Some(CurrentlyEditing::Value) => {
                self.save_key_value();
                self.current_screen = CurrentScreen::Main;
            },
            None => {},
        }
    }

    /// Remove the last character of the focused buffer; an empty buffer
    /// stays empty.
    pub fn delete_last_char(&mut self)
        requires
            old(self).wf(),
            old(self).current_screen is Editing,
        ensures
            final(self).wf(),
            final(self).abs() == Self::step(old(self).abs(), InputKey::Backspace).0,
    {
        match self.currently_editing {
            Some(CurrentlyEditing::Key) => {
                let _ = pop_char(&mut self.key_input);
            },
            Some(CurrentlyEditing::Value) => {
                let _ = pop_char(&mut self.value_input);
            },
            None => {},
        }
    }

    /// Append one character to the focused buffer.
    pub fn append_char(&mut self, c: char)
        requires
            old(self).wf(),
            old(self).current_screen is Editing,
        ensures
            final(self).wf(),
            final(self).abs() == Self::step(old(self).abs(), InputKey::Char(c)).0,
    {
        match self.currently_editing {
            Some(CurrentlyEditing::Key) => {
                push_char(&mut self.key_input, c);
            },
            Some(CurrentlyEditing::Value) => {
                push_char(&mut self.value_input, c);
            },
            None => {},
        }
    }

    /// Abandon the edit session and return to the main screen. The buffers
    /// keep their text: re-entering edit mode shows it again.
    pub fn cancel_edit(&mut self)
        requires
            old(self).wf(),
            old(self).current_screen is Editing,
        ensures
            final(self).wf(),
            final(self).abs() == Self::step(old(self).abs(), InputKey::Esc).0,
    {
        self.current_screen = CurrentScreen::Main;
        self.currently_editing = None;
    }

    /// Move the focus to the other buffer without touching any text.
    pub fn toggle_editing(&mut self)
        requires
            old(self).wf(),
            old(self).current_screen is Editing,
        ensures
            final(self).wf(),
            final(self).abs() == Self::step(old(self).abs(), InputKey::Tab).0,
    {
        match self.currently_editing {
            Some(CurrentlyEditing::Key) => {
                self.currently_editing = Some(CurrentlyEditing::Value);
            },
            Some(CurrentlyEditing::Value) => {
                self.currently_editing = Some(CurrentlyEditing::Key);
            },
            None => {
                self.currently_editing = Some(CurrentlyEditing::Key);
            },
        }
    }

    /// A read-only snapshot of the committed pairs.
    pub fn export(&self) -> (r: Vec<(String, String)>)
        ensures
            r@ == self.pairs@,
    {
        let mut r: Vec<(String, String)> = Vec::new();
        let n = self.pairs.len();
        let mut i: usize = 0;
        while i < n
            invariant
                n == self.pairs@.len(),
                i <= n,
                r@ == self.pairs@.subrange(0, i as int),
            decreases n - i,
        {
            let k = self.pairs[i].0.clone();
            let v = self.pairs[i].1.clone();
            r.push((k, v));
            proof {
                assert(r@ =~= self.pairs@.subrange(0, i + 1 as int));
            }
            i = i + 1;
        }
        proof {
            assert(self.pairs@.subrange(0, n as int) =~= self.pairs@);
        }
        r
    }

    /// Apply one key press: dispatch it to the operation that is legal for
    /// the current mode, or ignore it, exactly as `step` says.
    pub fn handle_key(&mut self, k: InputKey) -> (r: Step)
        requires
            old(self).wf(),
        ensures
            final(self).wf(),
            ({
                let sr = Self::step(old(self).abs(), k);
                final(self).abs() == sr.0 && r == sr.1
            }),
    {
        match self.current_screen {
            CurrentScreen::Main => {
                match k {
                    InputKey::Char(c) => {
                        if c == 'e' {
                            self.enter_edit_mode();
                        } else if c == 'q' {
                            self.begin_exit();
                        }
                        Step::Continue
                    },
                    InputKey::Esc => {
                        self.begin_exit();
                        Step::Continue
                    },
                    _ => Step::Continue,
                }
            },
            CurrentScreen::Exiting => {
                match k {
                    InputKey::Char(c) => {
                        if c == 'y' {
                            if self.confirm_exit() {
                                Step::SaveAndQuit
                            } else {
                                Step::QuitWithoutSave
                            }
                        } else if c == 'n' || c == 'q' {
                            if self.cancel_exit() {
                                Step::SaveAndQuit
                            } else {
                                Step::QuitWithoutSave
                            }
                        } else {
                            Step::Continue
                        }
                    },
                    _ => Step::Continue,
                }
            },
            CurrentScreen::Editing => {
                match k {
                    InputKey::Enter => {
                        let committed = matches!(
                            self.currently_editing,
                            Some(CurrentlyEditing::Value)
                        );
                        self.advance_field();
                        if committed {
                            Step::Committed
                        } else {
                            Step::Continue
                        }
                    },
                    InputKey::Backspace => {
                        self.delete_last_char();
                        Step::Continue
                    },
                    InputKey::Esc => {
                        self.cancel_edit();
                        Step::Continue
                    },
                    InputKey::Tab => {
                        self.toggle_editing();
                        Step::Continue
                    },
                    InputKey::Char(c) => {
                        self.append_char(c);
                        Step::Continue
                    },
                    InputKey::Other => Step::Continue,
                }
            },
        }
    }
}

/// Insert-or-overwrite one pair in the committed list, keeping keys unique.
pub fn insert_pair(pairs: &mut Vec<(String, String)>, k: String, v: String)
    requires
        App::keys_unique(old(pairs)@),
    ensures
        App::keys_unique(final(pairs)@),
        App::map_of(final(pairs)@) == App::map_of(old(pairs)@).insert(k@, v@),
{
    let n = pairs.len();
    let mut i: usize = 0;
    while i < n
        invariant
            n == pairs@.len(),
            i <= n,
            pairs@ == old(pairs)@,
            App::keys_unique(pairs@),
            forall|j: int| 0 <= j < i ==> pairs@[j].0@ != k@,
        decreases n - i,
    {
        if pairs[i].0 == k {
            let ghost before = pairs@;
            pairs[i] = (k, v);
            proof {
                lemma_map_of_update(before, i as int, pairs@[i as int]);
            }
            return;
        }
        i = i + 1;
    }
    let ghost before = pairs@;
    pairs.push((k, v));
    proof {
        assert(pairs@.drop_last() =~= before);
    }
}

/// Overwriting the entry at a position whose key the new pair keeps leaves
/// the denoted map with that key bound to the new value and nothing else
/// changed.
proof fn lemma_map_of_update(ps: Seq<(String, String)>, i: int, p: (String, String))
    requires
        0 <= i < ps.len(),
        App::keys_unique(ps),
        ps[i].0@ == p.0@,
    ensures
        App::map_of(ps.update(i, p)) == App::map_of(ps).insert(p.0@, p.1@),
    decreases ps.len(),
{
    let u = ps.update(i, p);
    if i == ps.len() - 1 {
        assert(u.drop_last() =~= ps.drop_last());
        assert(App::map_of(u) =~= App::map_of(ps).insert(p.0@, p.1@));
    } else {
        assert(u.drop_last() =~= ps.drop_last().update(i, p));
        assert(u.last() == ps.last());
        lemma_map_of_update(ps.drop_last(), i, p);
        assert(ps.last().0@ != p.0@);
        assert(App::map_of(u) =~= App::map_of(ps).insert(p.0@, p.1@));
    }
}

} // verus!
