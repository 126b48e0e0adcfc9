use vstd::prelude::*;
use vstd::string::*;

verus! {

/// One message of a conversation: who spoke, and what was said.
#[derive(Debug, Clone)]
pub struct ChatMessage {
    pub role: String,
    pub content: String,
}

impl View for ChatMessage {
    type V = (Seq<char>, Seq<char>);

    open spec fn view(&self) -> (Seq<char>, Seq<char>) {
        (self.role@, self.content@)
    }
}

/// The messages exchanged so far, oldest first.
pub struct Conversation {
    messages: Vec<ChatMessage>,
}

impl View for Conversation {
    type V = Seq<(Seq<char>, Seq<char>)>;

    closed spec fn view(&self) -> Seq<(Seq<char>, Seq<char>)> {
        self.messages@.map_values(|m: ChatMessage| m@)
    }
}

impl Conversation {
    /// A conversation with no message yet.
    pub fn new() -> (c: Self)
        ensures
            c@ == Seq::<(Seq<char>, Seq<char>)>::empty(),
    {
        let c = Conversation { messages: Vec::new() };
        assert(c@ =~= Seq::<(Seq<char>, Seq<char>)>::empty());
        c
    }

    /// The messages, oldest first.
    pub fn messages(&self) -> (m: &Vec<ChatMessage>)
        ensures
            m@.map_values(|x: ChatMessage| x@) == self@,
    {
        &self.messages
    }

    /// The number of messages.
    pub fn len(&self) -> (n: usize)
        ensures
            n == self@.len(),
    {
        self.messages.len()
    }

    fn push(&mut self, role: &str, content: &str)
        ensures
            final(self)@ == old(self)@.push((role@, content@)),
    {
        let m = ChatMessage { role: String::from_str(role), content: String::from_str(content) };
        self.messages.push(m);
        assert(self@ =~= old(self)@.push((role@, content@)));
    }

    /// Records what the user said.
    pub fn push_user(&mut self, content: &str)
        ensures
            final(self)@ == old(self)@.push(("user"@, content@)),
    {
        self.push("user", content)
    }

    /// Records what the model answered.
    pub fn push_assistant(&mut self, content: &str)
        ensures
            final(self)@ == old(self)@.push(("assistant"@, content@)),
    {
        self.push("assistant", content)
    }
}

/// The prompt the model is given for a turn: the conversation rendered by
/// the model's chat template where the model has one and rendering
/// succeeded, else the user's input alone.
pub fn select_prompt(templated: Option<String>, user_input: &str) -> (p: String)
    ensures
        p@ == match templated {
            Some(t) => t@,
            None => user_input@,
        },
{
    match templated {
        Some(t) => t,
        None => String::from_str(user_input),
    }
}

/// How the `i`-th of `n` prompt tokens is fed to the model: its position,
/// and whether the model is to compute logits for it, which it does for
/// the last token only. Positions and the last index are taken as `i32`,
/// as the batch interface counts them.
pub open spec fn spec_prompt_slot(i: usize, n: usize) -> (i32, bool) {
    ((i as i32), (i as i32) == ((n - 1) as usize) as i32)
}

/// The position and logits flag of the `i`-th of `n` prompt tokens. With no
/// token at all, the last index does not exist; `requires` leaves that out.
pub fn prompt_slot(i: usize, n: usize) -> (slot: (i32, bool))
    requires
        n >= 1,
    ensures
        slot == spec_prompt_slot(i, n),
{
    #[verifier::truncate]
    let last_index: i32 = (n - 1) as i32;
    #[verifier::truncate]
    let pos: i32 = i as i32;
    (pos, pos == last_index)
}

/// Of a prompt that fits the batch interface's `i32` positions, exactly the
/// last token asks for logits, and every token sits at its own index.
pub proof fn lemma_only_last_prompt_token_has_logits(i: usize, n: usize)
    requires
        1 <= n <= i32::MAX as usize + 1,
        i < n,
    ensures
        spec_prompt_slot(i, n).0 == i,
        spec_prompt_slot(i, n).1 <==> i == n - 1,
{
}

/// The state of generating an answer token by token.
pub struct Generation {
    max_tokens: usize,
    generated: usize,
    next_position: i32,
    eos_token: i32,
    text: String,
}

/// What the generation loop does next.
#[derive(Debug, Clone, Copy, PartialEq, Eq, Structural)]
pub enum GenerationStep {
    /// Sample another token.
    Sample,
    /// The token budget is spent: stop.
    Done,
}

impl Generation {
    pub closed spec fn max_tokens(&self) -> nat {
        self.max_tokens as nat
    }

    pub closed spec fn generated(&self) -> nat {
        self.generated as nat
    }

    pub closed spec fn next_position(&self) -> int {
        self.next_position as int
    }

    pub closed spec fn eos_token(&self) -> int {
        self.eos_token as int
    }

    pub closed spec fn text(&self) -> Seq<char> {
        self.text@
    }

    /// Never more tokens than the budget.
    pub closed spec fn wf(&self) -> bool {
        self.generated <= self.max_tokens
    }

    /// A generation that may produce `max_tokens` tokens, whose first
    /// generated token goes at `first_position` (the number of prompt
    /// tokens), and which ends at `eos_token`.
    pub fn new(max_tokens: usize, first_position: i32, eos_token: i32) -> (g: Self)
        ensures
            g.wf(),
            g.max_tokens() == max_tokens,
            g.generated() == 0,
            g.next_position() == first_position,
            g.eos_token() == eos_token,
            g.text() == Seq::<char>::empty(),
    {
        Generation { max_tokens, generated: 0, next_position: first_position, eos_token, text: String::new() }
    }

    /// Sample while the budget is not spent.
    pub fn next_step(&self) -> (s: GenerationStep)
        ensures
            s == (if self.generated() < self.max_tokens() { GenerationStep::Sample } else { GenerationStep::Done }),
    {
        if self.generated < self.max_tokens {
            GenerationStep::Sample
        } else {
            GenerationStep::Done
        }
    }

    /// Whether a sampled token ends the answer.
    pub fn is_end(&self, token: i32) -> (b: bool)
        ensures
            b <==> token == self.eos_token(),
    {
        token == self.eos_token
    }

    /// Appends the text of a sampled token that does not end the answer,
    /// and returns the position at which the token is fed back.
    pub fn accept_piece(&mut self, piece: &str) -> (position: i32)
        requires
            old(self).wf(),
            old(self).generated() < old(self).max_tokens(),
            old(self).next_position() < i32::MAX,
        ensures
            position == old(self).next_position(),
            final(self).text() == old(self).text() + piece@,
            final(self).next_position() == old(self).next_position() + 1,
            final(self).generated() == old(self).generated(),
            final(self).max_tokens() == old(self).max_tokens(),
            final(self).eos_token() == old(self).eos_token(),
            final(self).wf(),
    {
        let position = self.next_position;
        self.text.append(piece);
        self.next_position = self.next_position + 1;
        position
    }

    /// Counts a token once the model has taken it in.
    pub fn token_done(&mut self)
        requires
            old(self).wf(),
            old(self).generated() < old(self).max_tokens(),
        ensures
            final(self).generated() == old(self).generated() + 1,
            final(self).text() == old(self).text(),
            final(self).next_position() == old(self).next_position(),
            final(self).max_tokens() == old(self).max_tokens(),
            final(self).eos_token() == old(self).eos_token(),
            final(self).wf(),
    {
        self.generated = self.generated + 1;
    }

    /// The position at which the next accepted token is fed back.
    pub fn position(&self) -> (p: i32)
        ensures
            p == self.next_position(),
    {
        self.next_position
    }

    /// The number of tokens generated so far.
    pub fn generated_tokens(&self) -> (n: usize)
        ensures
            n == self.generated(),
    {
        self.generated
    }

    /// The answer so far.
    pub fn into_text(self) -> (t: String)
        ensures
            t@ == self.text(),
    {
        self.text
    }
}

} // verus!
