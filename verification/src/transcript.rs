//! The conversation transcript: an ordered, append-only list of role-tagged
//! messages. The last entry may be an assistant message "in progress", whose
//! content grows monotonically as streamed fragments are applied to it.

use vstd::prelude::*;
use vstd::string::StringExecFns;

verus! {

/// Who said a message: the user, or the assistant replying.
#[derive(Clone, Copy, PartialEq, Eq, Structural, Debug)]
pub enum Role {
    User,
    Assistant,
}

/// One entry of the transcript. An assistant message starts empty and its
/// content grows by appending fragments; it is never reassigned wholesale.
pub struct Message {
    pub role: Role,
    pub content: String,
}

/// The mathematical model of one message.
#[verifier::ext_equal]
pub ghost struct MessageView {
    pub role: Role,
    pub content: Seq<char>,
}

impl View for Message {
    type V = MessageView;

    open spec fn view(&self) -> MessageView {
        MessageView { role: self.role, content: self.content@ }
    }
}

/// An incremental piece of the assistant's reply, tagged with the index of
/// the transcript entry (the turn) it belongs to, so that a late fragment
/// from an earlier turn can never be misattributed to a newer message.
pub struct Fragment {
    pub turn: usize,
    pub text: String,
}

/// The mathematical model of one fragment.
#[verifier::ext_equal]
pub ghost struct FragmentView {
    pub turn: int,
    pub text: Seq<char>,
}

impl View for Fragment {
    type V = FragmentView;

    open spec fn view(&self) -> FragmentView {
        FragmentView { turn: self.turn as int, text: self.text@ }
    }
}

/// A message is "in progress" when it is the most recent entry and carries
/// the assistant role: it is the one still receiving streamed fragments.
pub open spec fn has_in_progress(t: Seq<MessageView>) -> bool {
    t.len() > 0 && t.last().role == Role::Assistant
}

/// What applying one fragment does: when a message is in progress and the
/// fragment's turn identifier names it, the fragment's text is appended to
/// that message's content; otherwise the fragment is discarded and the
/// transcript is unchanged.
pub open spec fn spec_apply_fragment(t: Seq<MessageView>, f: FragmentView) -> Seq<MessageView> {
    if has_in_progress(t) && f.turn == t.len() - 1 {
        t.update(
            t.len() - 1,
            MessageView { role: Role::Assistant, content: t.last().content + f.text },
        )
    } else {
        t
    }
}

/// Applying a whole batch of fragments, in order.
pub open spec fn spec_apply_fragments(
    t: Seq<MessageView>,
    fs: Seq<FragmentView>,
) -> Seq<MessageView>
    decreases fs.len(),
{
    if fs.len() == 0 {
        t
    } else {
        spec_apply_fragments(spec_apply_fragment(t, fs.first()), fs.drop_first())
    }
}

/// The ordered concatenation of a batch's texts.
pub open spec fn concat_texts(fs: Seq<FragmentView>) -> Seq<char>
    decreases fs.len(),
{
    if fs.len() == 0 {
        Seq::empty()
    } else {
        fs.first().text + concat_texts(fs.drop_first())
    }
}

/// The display label of a role.
pub open spec fn role_text(r: Role) -> Seq<char> {
    match r {
        Role::User => "user"@,
        Role::Assistant => "assistant"@,
    }
}

/// The display line of one message: `{role}: {content}`.
pub open spec fn spec_line(m: MessageView) -> Seq<char> {
    role_text(m.role) + ": "@ + m.content
}

/// The rendered transcript: one display line per message, in order.
pub open spec fn spec_render(t: Seq<MessageView>) -> Seq<Seq<char>> {
    t.map_values(|m: MessageView| spec_line(m))
}

/// The text of a sequence of display lines.
pub open spec fn lines_view(ls: Seq<String>) -> Seq<Seq<char>> {
    ls.map_values(|s: String| s@)
}

/// The models of a batch of fragments.
pub open spec fn fragments_view(fs: Seq<Fragment>) -> Seq<FragmentView> {
    fs.map_values(|f: Fragment| f@)
}

/// The display label of a role.
pub fn role_label(r: Role) -> (s: &'static str)
    ensures
        s@ == role_text(r),
{
    match r {
        Role::User => "user",
        Role::Assistant => "assistant",
    }
}

/// The ordered conversation. Insertion order is conversation order: it is
/// replayed verbatim to the server as the context of each new turn.
pub struct ChatHistory {
    pub messages: Vec<Message>,
}

impl View for ChatHistory {
    type V = Seq<MessageView>;

    open spec fn view(&self) -> Seq<MessageView> {
        self.messages@.map_values(|m: Message| m@)
    }
}

impl ChatHistory {
    /// An empty conversation.
    pub fn new() -> (r: ChatHistory)
        ensures
            r@ == Seq::<MessageView>::empty(),
    {
        let r = ChatHistory { messages: Vec::new() };
        proof {
            assert(r@ =~= Seq::<MessageView>::empty());
        }
        r
    }

    /// Appends a new message and returns its index. Always succeeds.
    pub fn append(&mut self, role: Role, initial_content: String) -> (idx: usize)
        ensures
            final(self)@ == old(self)@.push(
                (MessageView { role, content: initial_content@ }),
            ),
            idx == old(self)@.len(),
    {
        let idx = self.messages.len();
        let ghost c = initial_content@;
        self.messages.push(Message { role, content: initial_content });
        proof {
            assert(self@ =~= old(self)@.push(MessageView { role, content: c }));
        }
        idx
    }

    /// Applies one streamed fragment: appended to the in-progress message's
    /// content when one exists and the fragment's turn names it, and
    /// discarded otherwise — a stray fragment must neither crash nor be
    /// misattributed to the wrong message.
    pub fn append_fragment(&mut self, fragment: &Fragment)
        ensures
            final(self)@ == spec_apply_fragment(old(self)@, fragment@),
    {
        let n = self.messages.len();
        if n == 0 {
            return ;
        }
        let is_target = self.messages[n - 1].role == Role::Assistant && fragment.turn == n - 1;
        if is_target {
            let popped = self.messages.pop();
            match popped {
                Some(mut last) => {
                    last.content.append(fragment.text.as_str());
                    self.messages.push(last);
                    proof {
                        assert(self@ =~= spec_apply_fragment(old(self)@, fragment@));
                    }
                },
                None => {},
            }
        }
    }

    /// Renders the conversation for display: one `{role}: {content}` line
    /// per message, in conversation order. A pure read: the result is a
    /// function of the transcript alone and the transcript is untouched.
    pub fn render_as_text(&self) -> (r: Vec<String>)
        ensures
            lines_view(r@) == spec_render(self@),
    {
        let mut lines: Vec<String> = Vec::new();
        let n = self.messages.len();
        let mut i: usize = 0;
        while i < n
            invariant
                n == self.messages.len(),
                i <= n,
                lines@.len() == i,
                forall|j: int| 0 <= j < i ==> lines@[j]@ == spec_line(self@[j]),
            decreases n - i,
        {
            let mut line = role_label(self.messages[i].role).to_owned();
            line.append(": ");
            line.append(self.messages[i].content.as_str());
            lines.push(line);
            i = i + 1;
        }
        proof {
            assert(lines_view(lines@) =~= spec_render(self@));
        }
        lines
    }

    /// A deep copy of the conversation.
    pub fn clone(&self) -> (r: ChatHistory)
        ensures
            r@ == self@,
    {
        let mut messages: Vec<Message> = Vec::new();
        let n = self.messages.len();
        let mut i: usize = 0;
        while i < n
            invariant
                n == self.messages.len(),
                i <= n,
                messages@.len() == i,
                forall|j: int| 0 <= j < i ==> messages@[j]@ == self@[j],
            decreases n - i,
        {
            let m = &self.messages[i];
            messages.push(Message { role: m.role, content: m.content.clone() });
            i = i + 1;
        }
        let r = ChatHistory { messages };
        proof {
            assert(r@ =~= self@);
        }
        r
    }

    /// An immutable copy of all messages, suitable for handing to a
    /// concurrently-running streaming client: later appends to the live
    /// transcript never race with the client's read of the request context.
    pub fn snapshot(&self) -> (r: ChatHistory)
        ensures
            r@ == self@,
    {
        self.clone()
    }
}

/// Law: fragments may be drained and applied in batches of any size; applying
/// the concatenation of two batches equals applying one batch after the other.
pub proof fn lemma_apply_fragments_batching(
    t: Seq<MessageView>,
    fs1: Seq<FragmentView>,
    fs2: Seq<FragmentView>,
)
    ensures
        spec_apply_fragments(t, fs1 + fs2) == spec_apply_fragments(
            spec_apply_fragments(t, fs1),
            fs2,
        ),
    decreases fs1.len(),
{
    if fs1.len() == 0 {
        assert(fs1 + fs2 =~= fs2);
    } else {
        assert((fs1 + fs2).first() == fs1.first());
        assert((fs1 + fs2).drop_first() =~= fs1.drop_first() + fs2);
        lemma_apply_fragments_batching(
            spec_apply_fragment(t, fs1.first()),
            fs1.drop_first(),
            fs2,
        );
    }
}

/// Law: while exactly one message is in progress and every fragment of a
/// batch names it, applying the batch appends the ordered concatenation of
/// the fragments' texts to that message's content and changes nothing else.
pub proof fn lemma_apply_fragments_concat(t: Seq<MessageView>, fs: Seq<FragmentView>)
    requires
        has_in_progress(t),
        forall|i: int| 0 <= i < fs.len() ==> fs[i].turn == t.len() - 1,
    ensures
        spec_apply_fragments(t, fs) == t.update(
            t.len() - 1,
            (MessageView { role: Role::Assistant, content: t.last().content + concat_texts(fs) }),
        ),
    decreases fs.len(),
{
    if fs.len() == 0 {
        assert(t.last().content + concat_texts(fs) =~= t.last().content);
        assert(t.update(
            t.len() - 1,
            MessageView { role: Role::Assistant, content: t.last().content },
        ) =~= t);
    } else {
        let t1 = spec_apply_fragment(t, fs.first());
        assert(t1 == t.update(
            t.len() - 1,
            MessageView { role: Role::Assistant, content: t.last().content + fs.first().text },
        ));
        assert(has_in_progress(t1));
        assert(forall|i: int|
            0 <= i < fs.drop_first().len() ==> fs.drop_first()[i].turn == t1.len() - 1);
        lemma_apply_fragments_concat(t1, fs.drop_first());
        assert(t1.last().content + concat_texts(fs.drop_first()) =~= t.last().content
            + concat_texts(fs));
        assert(t1.update(
            t1.len() - 1,
            MessageView {
                role: Role::Assistant,
                content: t1.last().content + concat_texts(fs.drop_first()),
            },
        ) =~= t.update(
            t.len() - 1,
            MessageView { role: Role::Assistant, content: t.last().content + concat_texts(fs) },
        ));
    }
}

/// Law: a fragment arriving while no message is in progress is discarded:
/// the transcript's length and all existing contents are unchanged.
pub proof fn lemma_fragment_discarded(t: Seq<MessageView>, f: FragmentView)
    requires
        !has_in_progress(t),
    ensures
        spec_apply_fragment(t, f) == t,
{
}

/// Law: rendering is idempotent. The rendered text is a pure function of the
/// transcript, so two renderings with no intervening mutation are identical.
pub proof fn lemma_render_idempotent(
    t: Seq<MessageView>,
    first: Seq<Seq<char>>,
    second: Seq<Seq<char>>,
)
    requires
        first == spec_render(t),
        second == spec_render(t),
    ensures
        first == second,
{
}

} // verus!
