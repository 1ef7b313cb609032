//! Laws of the editor's transition table: statements about sequences of
//! key presses, proved once over `App::step` and so holding of every run
//! of `App::handle_key`.

use vstd::prelude::*;

use crate::app::{App, CurrentScreen, CurrentlyEditing, InputKey, StateView, Step};

verus! {

/// The state after typing the characters of `cs`, one key press each.
pub open spec fn steps_append(s: StateView, cs: Seq<char>) -> StateView
    decreases cs.len(),
{
    if cs.len() == 0 {
        s
    } else {
        steps_append(App::step(s, InputKey::Char(cs[0])).0, cs.drop_first())
    }
}

/// The state after pressing backspace `n` times.
pub open spec fn steps_delete(s: StateView, n: nat) -> StateView
    decreases n,
{
    if n == 0 {
        s
    } else {
        steps_delete(App::step(s, InputKey::Backspace).0, (n - 1) as nat)
    }
}

/// Typing one more character after a string of key presses is the same as
/// typing it last.
proof fn lemma_steps_append_snoc(s: StateView, cs: Seq<char>, c: char)
    ensures
        steps_append(s, cs.push(c)) == App::step(steps_append(s, cs), InputKey::Char(c)).0,
    decreases cs.len(),
{
    if cs.len() == 0 {
        assert(cs.push(c).drop_first() =~= Seq::<char>::empty());
        assert(cs.push(c)[0] == c);
        let s1 = App::step(s, InputKey::Char(c)).0;
        assert(steps_append(s, cs.push(c)) == steps_append(s1, cs.push(c).drop_first()));
        assert(steps_append(s1, Seq::<char>::empty()) == s1);
    } else {
        assert(cs.push(c)[0] == cs[0]);
        assert(cs.push(c).drop_first() =~= cs.drop_first().push(c));
        lemma_steps_append_snoc(App::step(s, InputKey::Char(cs[0])).0, cs.drop_first(), c);
    }
}

/// Typing characters while editing keeps the mode, the focus and the
/// committed pairs as they were.
proof fn lemma_steps_append_keeps_editing(s: StateView, cs: Seq<char>)
    requires
        s.screen is Editing,
        s.editing is Some,
    ensures
        steps_append(s, cs).screen == s.screen,
        steps_append(s, cs).editing == s.editing,
        steps_append(s, cs).pairs == s.pairs,
    decreases cs.len(),
{
    if cs.len() > 0 {
        lemma_steps_append_keeps_editing(App::step(s, InputKey::Char(cs[0])).0, cs.drop_first());
    }
}

/// While editing, any run of `append_char` key presses followed by as many
/// `delete_last_char` presses returns the editor to the state it started
/// in: the round trip changes nothing.
pub proof fn lemma_append_then_delete_round_trip(s: StateView, cs: Seq<char>)
    requires
        s.screen is Editing,
        s.editing is Some,
    ensures
        steps_delete(steps_append(s, cs), cs.len()) == s,
    decreases cs.len(),
{
    if cs.len() > 0 {
        let cs0 = cs.drop_last();
        let c = cs.last();
        assert(cs0.push(c) =~= cs);
        lemma_steps_append_snoc(s, cs0, c);
        let u = steps_append(s, cs0);
        lemma_steps_append_keeps_editing(s, cs0);
        let t = App::step(u, InputKey::Char(c)).0;
        match u.editing {
            Some(CurrentlyEditing::Key) => {
                assert(u.key.push(c).drop_last() =~= u.key);
                assert(App::step(t, InputKey::Backspace).0 =~= u);
            },
            Some(CurrentlyEditing::Value) => {
                assert(u.value.push(c).drop_last() =~= u.value);
                assert(App::step(t, InputKey::Backspace).0 =~= u);
            },
            None => {},
        }
        lemma_append_then_delete_round_trip(s, cs0);
        assert(steps_delete(steps_append(s, cs), cs.len()) == steps_delete(
            App::step(t, InputKey::Backspace).0,
            (cs.len() - 1) as nat,
        ));
    }
}

/// Pressing enter twice from a key-focused edit session first moves the
/// focus to the value buffer and then commits: afterwards the editor is
/// back on the main screen, both buffers are empty, and the mapping holds
/// the typed pair, overwriting any earlier value under that key.
pub proof fn lemma_advance_twice_commits(s: StateView)
    requires
        s.screen is Editing,
        s.editing == Some(CurrentlyEditing::Key),
    ensures
        ({
            let s1 = App::step(s, InputKey::Enter).0;
            let sr2 = App::step(s1, InputKey::Enter);
            &&& s1.editing == Some(CurrentlyEditing::Value)
            &&& s1.key == s.key && s1.value == s.value && s1.pairs == s.pairs
            &&& sr2.0.screen is Main
            &&& sr2.0.editing is None
            &&& sr2.0.key == Seq::<char>::empty()
            &&& sr2.0.value == Seq::<char>::empty()
            &&& sr2.0.pairs == s.pairs.insert(s.key, s.value)
            &&& sr2.1 == Step::Committed
        }),
{
}

/// Committing the same key twice overwrites: when a second edit session
/// commits under the key of an earlier commit, the mapping ends exactly as
/// if only the second commit had happened, and no entry is added.
pub proof fn lemma_commit_same_key_overwrites(s: StateView, s2: StateView)
    requires
        s.screen is Editing,
        s.editing == Some(CurrentlyEditing::Value),
        s2.screen is Editing,
        s2.editing == Some(CurrentlyEditing::Value),
        s2.key == s.key,
        s2.pairs == App::step(s, InputKey::Enter).0.pairs,
    ensures
        App::step(s2, InputKey::Enter).0.pairs == s.pairs.insert(s.key, s2.value),
        App::step(s2, InputKey::Enter).0.pairs.dom() == s2.pairs.dom(),
{
    assert(App::step(s2, InputKey::Enter).0.pairs =~= s.pairs.insert(s.key, s2.value));
    assert(App::step(s2, InputKey::Enter).0.pairs.dom() =~= s2.pairs.dom());
}

/// From the main screen, asking to exit and confirming yields the
/// save-and-quit signal; asking to exit and declining yields the
/// quit-without-save signal. Neither touches buffers or mapping.
pub proof fn lemma_exit_signals(s: StateView)
    requires
        s.screen is Main,
    ensures
        ({
            let s1 = App::step(s, InputKey::Char('q')).0;
            &&& s1 == (StateView { screen: CurrentScreen::Exiting, ..s })
            &&& App::step(s, InputKey::Esc).0 == s1
            &&& App::step(s1, InputKey::Char('y')) == (s1, Step::SaveAndQuit)
            &&& App::step(s1, InputKey::Char('n')) == (s1, Step::QuitWithoutSave)
            &&& App::step(s1, InputKey::Char('q')) == (s1, Step::QuitWithoutSave)
        }),
{
}

/// The key presses that do anything in a given state: all others must
/// leave the editor exactly as it was.
pub open spec fn legal_key(s: StateView, k: InputKey) -> bool {
    match s.screen {
        CurrentScreen::Main => k == InputKey::Char('e') || k == InputKey::Char('q') || k
            == InputKey::Esc,
        CurrentScreen::Exiting => k == InputKey::Char('y') || k == InputKey::Char('n') || k
            == InputKey::Char('q'),
        CurrentScreen::Editing => k == InputKey::Esc || (s.editing is Some && (k
            matches InputKey::Char(_) || k == InputKey::Enter || k == InputKey::Backspace || k
            == InputKey::Tab)),
    }
}

/// A key press that is not legal for the current mode is ignored: the
/// state is unchanged and the loop just continues.
pub proof fn lemma_illegal_key_is_noop(s: StateView, k: InputKey)
    requires
        !legal_key(s, k),
    ensures
        App::step(s, k) == (s, Step::Continue),
{
}

} // verus!
