//! The interactive session: the pending input buffer, the scroll offset, the
//! render-loop state machine, and the dispatch of key events to UI actions.
//! The session owns the transcript; a streaming client never mutates it and
//! only hands fragments back through a channel that the loop drains.

use vstd::prelude::*;
use crate::transcript::ChatHistory;
use crate::transcript::Fragment;
use crate::transcript::FragmentView;
use crate::transcript::MessageView;
use crate::transcript::Role;
use crate::transcript::fragments_view;
use crate::transcript::lemma_apply_fragments_batching;
use crate::transcript::lines_view;
use crate::transcript::spec_apply_fragment;
use crate::transcript::spec_apply_fragments;

verus! {

/// How far one paging action moves the scroll offset.
pub const SCROLL_STEP: usize = 5;

/// One polled terminal key event, reduced to the keys the client reacts to.
#[derive(Clone, Copy, PartialEq, Eq, Structural, Debug)]
pub enum Key {
    Char(char),
    Backspace,
    Enter,
    PageUp,
    PageDown,
    Esc,
    Other,
}

/// The UI action a key event maps to.
#[derive(Clone, Copy, PartialEq, Eq, Structural, Debug)]
pub enum UiAction {
    InsertChar(char),
    DeleteChar,
    Submit,
    ScrollUp,
    ScrollDown,
    Quit,
    Ignore,
}

/// The render loop's state: it keeps iterating while `Running` and exits on
/// `Terminating`, after which the terminal session is released exactly once.
#[derive(Clone, Copy, PartialEq, Eq, Structural, Debug)]
pub enum LoopState {
    Running,
    Terminating,
}

/// The key-to-action mapping: each key yields exactly one action.
pub open spec fn spec_action_for(key: Key) -> UiAction {
    match key {
        Key::Char(c) => UiAction::InsertChar(c),
        Key::Backspace => UiAction::DeleteChar,
        Key::Enter => UiAction::Submit,
        Key::PageUp => UiAction::ScrollUp,
        Key::PageDown => UiAction::ScrollDown,
        Key::Esc => UiAction::Quit,
        Key::Other => UiAction::Ignore,
    }
}

/// Maps one polled key event to exactly one UI action.
pub fn action_for(key: Key) -> (a: UiAction)
    ensures
        a == spec_action_for(key),
{
    match key {
        Key::Char(c) => UiAction::InsertChar(c),
        Key::Backspace => UiAction::DeleteChar,
        Key::Enter => UiAction::Submit,
        Key::PageUp => UiAction::ScrollUp,
        Key::PageDown => UiAction::ScrollDown,
        Key::Esc => UiAction::Quit,
        Key::Other => UiAction::Ignore,
    }
}

/// The mathematical model of a session.
#[verifier::ext_equal]
pub ghost struct SessionView {
    pub transcript: Seq<MessageView>,
    pub input: Seq<char>,
    pub scroll: nat,
    pub state: LoopState,
}

/// The interactive session owned by the render loop.
pub struct Session {
    pub transcript: ChatHistory,
    pub input: String,
    pub scroll_offset: usize,
    pub state: LoopState,
}

impl View for Session {
    type V = SessionView;

    open spec fn view(&self) -> SessionView {
        SessionView {
            transcript: self.transcript@,
            input: self.input@,
            scroll: self.scroll_offset as nat,
            state: self.state,
        }
    }
}

/// What submitting the input buffer does. Submitting an empty buffer is,
/// by explicit choice, a no-op: no empty user message is sent. A non-empty
/// buffer becomes a user message, followed by an empty assistant placeholder
/// that marks the turn in progress, and the buffer is cleared.
pub open spec fn spec_submit(s: SessionView) -> SessionView {
    if s.input.len() == 0 {
        s
    } else {
        SessionView {
            transcript: s.transcript.push(
                MessageView { role: Role::User, content: s.input },
            ).push(MessageView { role: Role::Assistant, content: Seq::empty() }),
            input: Seq::empty(),
            scroll: s.scroll,
            state: s.state,
        }
    }
}

/// What one UI action does to the session.
pub open spec fn spec_apply_action(s: SessionView, a: UiAction) -> SessionView {
    match a {
        UiAction::InsertChar(c) => SessionView { input: s.input.push(c), ..s },
        UiAction::DeleteChar => SessionView {
            input: if s.input.len() > 0 {
                s.input.drop_last()
            } else {
                s.input
            },
            ..s
        },
        UiAction::Submit => spec_submit(s),
        UiAction::ScrollUp => SessionView {
            scroll: if s.scroll >= SCROLL_STEP as nat {
                (s.scroll - SCROLL_STEP as nat) as nat
            } else {
                0
            },
            ..s
        },
        UiAction::ScrollDown => SessionView {
            scroll: if s.scroll + SCROLL_STEP as nat <= usize::MAX as nat {
                s.scroll + SCROLL_STEP as nat
            } else {
                usize::MAX as nat
            },
            ..s
        },
        UiAction::Quit => SessionView { state: LoopState::Terminating, ..s },
        UiAction::Ignore => s,
    }
}

/// What one key event does to the session: dispatch through the action map.
pub open spec fn spec_step(s: SessionView, key: Key) -> SessionView {
    spec_apply_action(s, spec_action_for(key))
}

/// What the render loop must do after an action: keep looping, launch a
/// streaming client for a new turn, or leave the loop.
pub enum Directive {
    /// Keep looping; nothing to launch.
    Stay,
    /// Launch a streaming client bound to this snapshot of the conversation
    /// (the context of the request, excluding the placeholder) and this turn
    /// index (the transcript index of the assistant placeholder, which every
    /// fragment of the reply must name).
    Launch(ChatHistory, usize),
    /// Leave the loop and release the terminal session.
    Quit,
}

/// Relies on String::push: appends the given character to the end.
#[verifier::external_body]
fn push_char(s: &mut String, c: char)
    ensures
        final(s)@ == old(s)@.push(c),
{
    s.push(c);
}

/// Relies on String::pop: removes and returns the last character, or returns
/// None and leaves the string unchanged when it is empty.
#[verifier::external_body]
fn pop_char(s: &mut String) -> (r: Option<char>)
    ensures
        old(s)@.len() > 0 ==> r == Some(old(s)@.last()) && final(s)@ == old(s)@.drop_last(),
        old(s)@.len() == 0 ==> r == None::<char> && final(s)@ == old(s)@,
{
    s.pop()
}

impl Session {
    /// A fresh session: empty conversation, empty input, top of scroll,
    /// loop running.
    pub fn new() -> (r: Session)
        ensures
            r@.transcript == Seq::<MessageView>::empty(),
            r@.input == Seq::<char>::empty(),
            r@.scroll == 0,
            r@.state == LoopState::Running,
    {
        Session {
            transcript: ChatHistory::new(),
            input: String::new(),
            scroll_offset: 0,
            state: LoopState::Running,
        }
    }

    /// Whether the render loop should run another iteration.
    pub fn should_continue(&self) -> (r: bool)
        ensures
            r == (self@.state == LoopState::Running),
    {
        self.state == LoopState::Running
    }

    /// Applies one drained fragment to the conversation; the rest of the
    /// session is untouched.
    pub fn apply_fragment(&mut self, fragment: &Fragment)
        ensures
            final(self)@ == (SessionView {
                transcript: spec_apply_fragment(old(self)@.transcript, fragment@),
                ..old(self)@
            }),
    {
        self.transcript.append_fragment(fragment);
    }

    /// Drains one tick's batch: applies each pending fragment to the
    /// conversation, in arrival order. By the batching law the outcome
    /// depends only on that order, never on the batch sizes in which the
    /// channel happened to hand the fragments over.
    pub fn apply_fragments(&mut self, fragments: &Vec<Fragment>)
        ensures
            final(self)@ == (SessionView {
                transcript: spec_apply_fragments(
                    old(self)@.transcript,
                    fragments_view(fragments@),
                ),
                ..old(self)@
            }),
    {
        let ghost fs = fragments_view(fragments@);
        let n = fragments.len();
        let mut i: usize = 0;
        while i < n
            invariant
                n == fragments@.len(),
                i <= n,
                fs == fragments_view(fragments@),
                self@ == (SessionView {
                    transcript: spec_apply_fragments(old(self)@.transcript, fs.take(i as int)),
                    ..old(self)@
                }),
            decreases n - i,
        {
            self.transcript.append_fragment(&fragments[i]);
            proof {
                let prev = spec_apply_fragments(old(self)@.transcript, fs.take(i as int));
                let one = seq![fs[i as int]];
                lemma_apply_fragments_batching(old(self)@.transcript, fs.take(i as int), one);
                assert(fs.take(i as int) + one =~= fs.take(i as int + 1));
                assert(one.drop_first() =~= Seq::<FragmentView>::empty());
                assert(spec_apply_fragments(
                    spec_apply_fragment(prev, fs[i as int]),
                    one.drop_first(),
                ) == spec_apply_fragment(prev, fs[i as int]));
                assert(spec_apply_fragments(prev, one) == spec_apply_fragment(prev, fs[i as int]));
            }
            i = i + 1;
        }
        proof {
            assert(fs.take(n as int) =~= fs);
        }
    }

    /// Applies one UI action and says what the loop must do next. A launch
    /// directive carries the snapshot taken before the assistant placeholder
    /// was appended, and the placeholder's turn index.
    pub fn apply_action(&mut self, a: UiAction) -> (d: Directive)
        ensures
            final(self)@ == spec_apply_action(old(self)@, a),
            match d {
                Directive::Launch(snapshot, turn) => {
                    &&& a == UiAction::Submit
                    &&& old(self)@.input.len() > 0
                    &&& snapshot@ == old(self)@.transcript.push(
                        (MessageView { role: Role::User, content: old(self)@.input }),
                    )
                    &&& turn == old(self)@.transcript.len() + 1
                },
                Directive::Quit => a == UiAction::Quit,
                Directive::Stay => a != UiAction::Quit && !(a == UiAction::Submit
                    && old(self)@.input.len() > 0),
            },
    {
        match a {
            UiAction::InsertChar(c) => {
                push_char(&mut self.input, c);
                Directive::Stay
            },
            UiAction::DeleteChar => {
                let _ = pop_char(&mut self.input);
                Directive::Stay
            },
            UiAction::Submit => {
                if self.input.as_str().is_empty() {
                    Directive::Stay
                } else {
                    let submitted = self.input.clone();
                    self.input = String::new();
                    let _user_idx = self.transcript.append(Role::User, submitted);
                    let snapshot = self.transcript.snapshot();
                    let turn = self.transcript.append(Role::Assistant, String::new());
                    Directive::Launch(snapshot, turn)
                }
            },
            UiAction::ScrollUp => {
                if self.scroll_offset >= SCROLL_STEP {
                    self.scroll_offset = self.scroll_offset - SCROLL_STEP;
                } else {
                    self.scroll_offset = 0;
                }
                Directive::Stay
            },
            UiAction::ScrollDown => {
                if self.scroll_offset <= usize::MAX - SCROLL_STEP {
                    self.scroll_offset = self.scroll_offset + SCROLL_STEP;
                } else {
                    self.scroll_offset = usize::MAX;
                }
                Directive::Stay
            },
            UiAction::Quit => {
                self.state = LoopState::Terminating;
                Directive::Quit
            },
            UiAction::Ignore => Directive::Stay,
        }
    }

    /// Dispatches one polled key event: maps it to its action and applies it.
    pub fn handle_key(&mut self, key: Key) -> (d: Directive)
        ensures
            final(self)@ == spec_step(old(self)@, key),
            match d {
                Directive::Launch(snapshot, turn) => {
                    &&& key == Key::Enter
                    &&& old(self)@.input.len() > 0
                    &&& snapshot@ == old(self)@.transcript.push(
                        (MessageView { role: Role::User, content: old(self)@.input }),
                    )
                    &&& turn == old(self)@.transcript.len() + 1
                },
                Directive::Quit => key == Key::Esc,
                Directive::Stay => key != Key::Esc && !(key == Key::Enter
                    && old(self)@.input.len() > 0),
            },
    {
        let a = action_for(key);
        self.apply_action(a)
    }
}

/// The visible window of rendered lines for a scroll offset: the lines
/// before the offset are clipped top-down; an offset at or past the total
/// line count leaves the window empty.
pub open spec fn spec_window(ls: Seq<Seq<char>>, offset: nat) -> Seq<Seq<char>> {
    if offset <= ls.len() {
        ls.skip(offset as int)
    } else {
        Seq::empty()
    }
}

/// Clips the rendered lines to the window the scroll offset selects. The
/// offset is clamped to the available line count at draw time, so an
/// out-of-range offset yields an empty window rather than a failure.
pub fn visible_window(lines: &Vec<String>, offset: usize) -> (r: Vec<String>)
    ensures
        lines_view(r@) == spec_window(lines_view(lines@), offset as nat),
        offset >= lines@.len() ==> r@.len() == 0,
{
    let n = lines.len();
    let start = if offset < n {
        offset
    } else {
        n
    };
    let mut r: Vec<String> = Vec::new();
    let mut i: usize = start;
    while i < n
        invariant
            n == lines.len(),
            start <= i <= n,
            r@.len() == i - start,
            forall|j: int| 0 <= j < r@.len() ==> r@[j]@ == lines@[start + j]@,
        decreases n - i,
    {
        r.push(lines[i].clone());
        i = i + 1;
    }
    proof {
        assert(lines_view(r@) =~= spec_window(lines_view(lines@), offset as nat));
    }
    r
}

/// Law: the visible window never reaches outside the rendered lines: for an
/// offset at or past the total line count it is empty, and otherwise it is
/// exactly the suffix of the lines that starts at the offset.
pub proof fn lemma_window_in_range(ls: Seq<Seq<char>>, offset: nat)
    ensures
        offset >= ls.len() ==> spec_window(ls, offset).len() == 0,
        offset <= ls.len() ==> spec_window(ls, offset) == ls.skip(offset as int),
        spec_window(ls, offset).len() <= ls.len(),
{
}

/// Law: escape, at any point — whatever the transcript, input, scroll offset
/// or loop state — moves the session to `Terminating` and touches nothing
/// else; the loop then exits and the terminal release step runs once.
pub proof fn lemma_escape_terminates(s: SessionView)
    ensures
        spec_step(s, Key::Esc) == (SessionView { state: LoopState::Terminating, ..s }),
{
}

/// Law: submitting an empty input buffer is a no-op: no transcript entries
/// are created and the session is unchanged.
pub proof fn lemma_empty_submit_no_op(s: SessionView)
    requires
        s.input.len() == 0,
    ensures
        spec_step(s, Key::Enter) == s,
{
}

} // verus!
