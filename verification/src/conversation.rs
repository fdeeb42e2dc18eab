//! Token-budgeted conversation history and prompt assembly.
//!
//! The manager keeps the turns of one conversation, estimates what each costs
//! in tokens, drops the oldest turns when the budget is short, and renders
//! the prompt for the next generation.

use vstd::prelude::*;
use vstd::string::StringExecFns;
use vstd::string::StrSliceExecFns;
use crate::emotion::EmotionalContext;

verus! {

/// Tokens kept free for what no estimate covers.
pub const SAFETY_BUFFER: usize = 50;

/// Characters that one token is taken to stand for.
pub const CHARS_PER_TOKEN: usize = 4;

/// Tokens added to every estimate for the tags around a text.
pub const TOKEN_OVERHEAD: usize = 4;

/// Who said a turn.
#[derive(Clone, Copy, Debug, PartialEq, Eq, Structural)]
pub enum Role {
    System,
    User,
    Assistant,
}

/// One message of a conversation, with its estimated cost.
#[derive(Clone, Debug)]
pub struct ConversationTurn {
    pub role: Role,
    pub content: String,
    pub token_count: usize,
}

/// The state of one conversation.
#[derive(Clone, Debug)]
pub struct ConversationManager {
    /// The turns, oldest first.
    pub turns: Vec<ConversationTurn>,
    pub system_prompt: String,
    pub system_prompt_tokens: usize,
    pub max_context_tokens: usize,
    pub emotional_context: Option<EmotionalContext>,
}

/// The estimated number of tokens of a text: a quarter of its length in
/// characters, plus a fixed overhead.
pub open spec fn estimate_tokens_spec(text: Seq<char>) -> nat {
    text.len() / (CHARS_PER_TOKEN as nat) + TOKEN_OVERHEAD as nat
}

/// The tokens of the turns from index `from` on.
pub open spec fn suffix_tokens(turns: Seq<ConversationTurn>, from: int) -> int
    decreases turns.len() - from,
{
    if from < 0 || from >= turns.len() {
        0
    } else {
        turns[from].token_count + suffix_tokens(turns, from + 1)
    }
}

/// The tokens of all the turns.
pub open spec fn total_tokens(turns: Seq<ConversationTurn>) -> int {
    suffix_tokens(turns, 0)
}

/// The first index at or after `from` from which the turns cost no more than
/// `available`; the number of turns if there is none.
pub open spec fn first_fit(turns: Seq<ConversationTurn>, available: int, from: int) -> int
    decreases turns.len() - from,
{
    if from < 0 || from >= turns.len() {
        turns.len() as int
    } else if suffix_tokens(turns, from) <= available {
        from
    } else {
        first_fit(turns, available, from + 1)
    }
}

/// The turns that stay when `available` tokens are left for the history: the
/// longest run of the most recent turns that costs no more.
pub open spec fn retained(turns: Seq<ConversationTurn>, available: int) -> Seq<ConversationTurn> {
    turns.subrange(first_fit(turns, available, 0), turns.len() as int)
}

/// The tag of a role in a prompt.
pub open spec fn role_tag(role: Role) -> Seq<char> {
    match role {
        Role::System => "system"@,
        Role::User => "user"@,
        Role::Assistant => "assistant"@,
    }
}

/// A closed block of a prompt: the opening marker, the role's tag, a line
/// break, the content, the closing marker and a line break.
pub open spec fn render_block(role: Role, content: Seq<char>) -> Seq<char> {
    "<|im_start|>"@ + role_tag(role) + "\n"@ + content + "<|im_end|>\n"@
}

/// The blocks of the turns from index `from` on, in order.
pub open spec fn render_turns(turns: Seq<ConversationTurn>, from: int) -> Seq<char>
    decreases turns.len() - from,
{
    if from < 0 || from >= turns.len() {
        Seq::<char>::empty()
    } else {
        render_block(turns[from].role, turns[from].content@) + render_turns(turns, from + 1)
    }
}

/// What a context adds to the system prompt: nothing without one, else two
/// line breaks and its advisory.
pub open spec fn advisory_suffix(context: Option<EmotionalContext>) -> Seq<char> {
    match context {
        Some(c) => "\n\n"@ + c.llm_context(),
        None => Seq::<char>::empty(),
    }
}

/// What a context adds to the cost of the system prompt in tokens: nothing
/// without one, else the estimate of what it adds to the text.
pub open spec fn advisory_tokens(context: Option<EmotionalContext>) -> nat {
    match context {
        Some(_) => estimate_tokens_spec(advisory_suffix(context)),
        None => 0,
    }
}

/// The tag of a role in a prompt.
pub fn role_tag_of(role: Role) -> (r: &'static str)
    ensures
        r@ == role_tag(role),
{
    match role {
        Role::System => "system",
        Role::User => "user",
        Role::Assistant => "assistant",
    }
}

/// Estimates the number of tokens of a text.
pub fn estimate_tokens(text: &str) -> (r: usize)
    ensures
        r == estimate_tokens_spec(text@),
{
    text.unicode_len() / CHARS_PER_TOKEN + TOKEN_OVERHEAD
}

/// What a context adds to the system prompt.
pub fn advisory_suffix_of(context: Option<EmotionalContext>) -> (r: String)
    ensures
        r@ == advisory_suffix(context),
{
    match context {
        Some(c) => {
            let mut r = String::from_str("\n\n");
            let advisory = c.to_llm_context();
            r.append(advisory.as_str());
            r
        },
        None => String::new(),
    }
}

/// Appends a closed block to a prompt.
pub fn push_block(out: &mut String, role: Role, content: &str)
    ensures
        final(out)@ == old(out)@ + render_block(role, content@),
{
    out.append("<|im_start|>");
    out.append(role_tag_of(role));
    out.append("\n");
    out.append(content);
    out.append("<|im_end|>\n");
    assert(out@ =~= old(out)@ + render_block(role, content@));
}

impl ConversationManager {
    /// What the emotional advisory costs in tokens.
    pub open spec fn emotion_overhead(&self) -> nat {
        advisory_tokens(self.emotional_context)
    }

    /// The tokens left for the history beside a new message: the limit less
    /// the system prompt, the advisory, the message and the safety buffer.
    /// Negative where these alone pass the limit.
    pub open spec fn available_for(&self, new_message_tokens: int) -> int {
        self.max_context_tokens - self.system_prompt_tokens - self.emotion_overhead()
            - new_message_tokens - SAFETY_BUFFER
    }

    /// The budget: history, system prompt, advisory, new message and safety
    /// buffer together stay within the limit.
    pub open spec fn within_budget(&self, new_message_tokens: int) -> bool {
        total_tokens(self.turns@) + self.system_prompt_tokens + self.emotion_overhead()
            + new_message_tokens + SAFETY_BUFFER <= self.max_context_tokens
    }

    /// The system section of a prompt: the system prompt, with the advisory
    /// behind it where there is an emotional context.
    pub open spec fn render_system(&self) -> Seq<char> {
        "<|im_start|>system\n"@ + self.system_prompt@ + advisory_suffix(self.emotional_context)
            + "<|im_end|>\n"@
    }

    /// The prompt for a new user message: the system section, the turns in
    /// order, the new message as a user turn, and the open assistant turn.
    pub open spec fn render(&self, user_message: Seq<char>) -> Seq<char> {
        self.render_system() + render_turns(self.turns@, 0) + render_block(
            Role::User,
            user_message,
        ) + "<|im_start|>assistant\n"@
    }

    /// A conversation without turns and without emotional context.
    pub fn new(system_prompt: &str, max_context_tokens: usize) -> (r: ConversationManager)
        ensures
            r.turns@.len() == 0,
            r.system_prompt@ == system_prompt@,
            r.system_prompt_tokens == estimate_tokens_spec(system_prompt@),
            r.max_context_tokens == max_context_tokens,
            r.emotional_context is None,
    {
        ConversationManager {
            turns: Vec::new(),
            system_prompt: String::from_str(system_prompt),
            system_prompt_tokens: estimate_tokens(system_prompt),
            max_context_tokens,
            emotional_context: None,
        }
    }

    /// Replaces the emotional context that prompts are built with.
    pub fn update_emotional_context(&mut self, context: EmotionalContext)
        ensures
            final(self).emotional_context == Some(context),
            final(self).turns == old(self).turns,
            final(self).system_prompt == old(self).system_prompt,
            final(self).system_prompt_tokens == old(self).system_prompt_tokens,
            final(self).max_context_tokens == old(self).max_context_tokens,
    {
        self.emotional_context = Some(context);
    }

    /// Removes the emotional context: prompts carry no advisory after this.
    pub fn clear_emotional_context(&mut self)
        ensures
            final(self).emotional_context is None,
            final(self).turns == old(self).turns,
            final(self).system_prompt == old(self).system_prompt,
            final(self).system_prompt_tokens == old(self).system_prompt_tokens,
            final(self).max_context_tokens == old(self).max_context_tokens,
    {
        self.emotional_context = None;
    }

    /// What the emotional advisory costs in tokens.
    pub fn emotion_overhead_tokens(&self) -> (r: usize)
        ensures
            r == self.emotion_overhead(),
    {
        match self.emotional_context {
            Some(_) => {
                let suffix = advisory_suffix_of(self.emotional_context);
                estimate_tokens(suffix.as_str())
            },
            None => 0,
        }
    }

    /// Drops the oldest turns until the history fits beside a new message of
    /// `new_message_tokens` tokens. The history is scanned from the most
    /// recent turn back; the first turn that no longer fits goes, and every
    /// turn before it. A turn that fits exactly stays. No turn is cut short.
    pub fn prune_to_fit(&mut self, new_message_tokens: usize)
        ensures
            final(self).turns@ == retained(
                old(self).turns@,
                old(self).available_for(new_message_tokens as int),
            ),
            final(self).system_prompt == old(self).system_prompt,
            final(self).system_prompt_tokens == old(self).system_prompt_tokens,
            final(self).max_context_tokens == old(self).max_context_tokens,
            final(self).emotional_context == old(self).emotional_context,
            old(self).available_for(new_message_tokens as int) >= 0 ==> final(self).within_budget(
                new_message_tokens as int,
            ),
            old(self).within_budget(new_message_tokens as int) ==> final(self).turns@
                == old(self).turns@,
    {
        let overhead = self.emotion_overhead_tokens();
        let fixed: u128 = self.system_prompt_tokens as u128 + overhead as u128
            + new_message_tokens as u128 + SAFETY_BUFFER as u128;
        let ghost available = self.available_for(new_message_tokens as int);
        let ghost before = self.turns@;
        proof {
            lemma_retained_fits(before, available);
            lemma_first_fit_props(before, available, 0);
        }
        if fixed > self.max_context_tokens as u128 {
            self.turns.clear();
            assert(self.turns@ =~= retained(before, available));
        } else {
            let room: usize = (self.max_context_tokens as u128 - fixed) as usize;
            let mut cut: usize = self.turns.len();
            let mut used: usize = 0;
            while cut > 0 && self.turns[cut - 1].token_count <= room - used
                invariant
                    self.turns@ == before,
                    cut <= before.len(),
                    used == suffix_tokens(before, cut as int),
                    used <= room,
                decreases cut,
            {
                used += self.turns[cut - 1].token_count;
                cut -= 1;
            }
            proof {
                lemma_first_fit_is(before, available, cut as int, 0);
                if total_tokens(before) <= available && cut > 0 {
                    lemma_suffix_tokens_monotone(before, 0, cut - 1);
                }
            }
            let kept = self.turns.split_off(cut);
            self.turns = kept;
            assert(cut == 0 ==> self.turns@ =~= before);
        }
    }

    /// Builds the prompt for a new user message: estimates the message,
    /// prunes the history to fit beside it, and renders the system section,
    /// the retained turns, the message as a user turn and the open assistant
    /// turn.
    pub fn build_prompt(&mut self, user_message: &str) -> (r: String)
        ensures
            final(self).turns@ == retained(
                old(self).turns@,
                old(self).available_for(estimate_tokens_spec(user_message@) as int),
            ),
            final(self).system_prompt == old(self).system_prompt,
            final(self).system_prompt_tokens == old(self).system_prompt_tokens,
            final(self).max_context_tokens == old(self).max_context_tokens,
            final(self).emotional_context == old(self).emotional_context,
            old(self).available_for(estimate_tokens_spec(user_message@) as int) >= 0
                ==> final(self).within_budget(estimate_tokens_spec(user_message@) as int),
            r@ == final(self).render(user_message@),
    {
        let user_tokens = estimate_tokens(user_message);
        self.prune_to_fit(user_tokens);
        let mut out = String::from_str("<|im_start|>system\n");
        out.append(self.system_prompt.as_str());
        let suffix = advisory_suffix_of(self.emotional_context);
        out.append(suffix.as_str());
        out.append("<|im_end|>\n");
        assert(out@ =~= self.render_system());
        let mut i: usize = 0;
        while i < self.turns.len()
            invariant
                i <= self.turns@.len(),
                out@ + render_turns(self.turns@, i as int) == self.render_system() + render_turns(
                    self.turns@,
                    0,
                ),
            decreases self.turns@.len() - i,
        {
            let ghost prefix = out@;
            push_block(&mut out, self.turns[i].role, self.turns[i].content.as_str());
            assert(prefix + render_turns(self.turns@, i as int) =~= out@ + render_turns(
                self.turns@,
                i + 1,
            ));
            i += 1;
        }
        assert(out@ =~= self.render_system() + render_turns(self.turns@, 0));
        push_block(&mut out, Role::User, user_message);
        out.append("<|im_start|>assistant\n");
        out
    }

    /// Appends a turn, with the estimate of its content as its cost.
    pub fn record_turn(&mut self, role: Role, content: &str)
        ensures
            final(self).turns@.len() == old(self).turns@.len() + 1,
            final(self).turns@.subrange(0, old(self).turns@.len() as int) == old(self).turns@,
            final(self).turns@.last().role == role,
            final(self).turns@.last().content@ == content@,
            final(self).turns@.last().token_count == estimate_tokens_spec(content@),
            final(self).system_prompt == old(self).system_prompt,
            final(self).system_prompt_tokens == old(self).system_prompt_tokens,
            final(self).max_context_tokens == old(self).max_context_tokens,
            final(self).emotional_context == old(self).emotional_context,
    {
        let turn = ConversationTurn {
            role,
            content: String::from_str(content),
            token_count: estimate_tokens(content),
        };
        self.turns.push(turn);
        assert(self.turns@.subrange(0, old(self).turns@.len() as int) =~= old(self).turns@);
    }

    /// Removes all turns; the system prompt and the rest stay.
    pub fn clear_history(&mut self)
        ensures
            final(self).turns@.len() == 0,
            final(self).system_prompt == old(self).system_prompt,
            final(self).system_prompt_tokens == old(self).system_prompt_tokens,
            final(self).max_context_tokens == old(self).max_context_tokens,
            final(self).emotional_context == old(self).emotional_context,
    {
        self.turns.clear();
    }

    /// The number of turns in the history.
    pub fn history_length(&self) -> (r: usize)
        ensures
            r == self.turns@.len(),
    {
        self.turns.len()
    }

    /// The tokens of the history, or the largest `usize` where they pass it.
    pub fn history_tokens(&self) -> (r: usize)
        ensures
            total_tokens(self.turns@) <= usize::MAX ==> r == total_tokens(self.turns@),
            total_tokens(self.turns@) > usize::MAX ==> r == usize::MAX,
    {
        let mut sum: usize = 0;
        let mut i: usize = self.turns.len();
        while i > 0
            invariant
                i <= self.turns@.len(),
                suffix_tokens(self.turns@, i as int) <= usize::MAX ==> sum == suffix_tokens(
                    self.turns@,
                    i as int,
                ),
                suffix_tokens(self.turns@, i as int) > usize::MAX ==> sum == usize::MAX,
            decreases i,
        {
            proof {
                lemma_suffix_tokens_nonnegative(self.turns@, i as int);
            }
            sum = sum.saturating_add(self.turns[i - 1].token_count);
            i -= 1;
        }
        sum
    }
}

/// The estimate never falls when a text gets longer.
pub proof fn lemma_estimate_monotone(shorter: Seq<char>, longer: Seq<char>)
    requires
        shorter.len() <= longer.len(),
    ensures
        estimate_tokens_spec(shorter) <= estimate_tokens_spec(longer),
{
}

/// The tokens from an index on are never negative.
pub proof fn lemma_suffix_tokens_nonnegative(turns: Seq<ConversationTurn>, from: int)
    ensures
        0 <= suffix_tokens(turns, from),
    decreases turns.len() - from,
{
    if 0 <= from < turns.len() {
        lemma_suffix_tokens_nonnegative(turns, from + 1);
    }
}

/// The tokens from an index on never fall when the index moves back.
pub proof fn lemma_suffix_tokens_monotone(turns: Seq<ConversationTurn>, i: int, j: int)
    requires
        0 <= i <= j,
    ensures
        0 <= suffix_tokens(turns, j) <= suffix_tokens(turns, i),
    decreases j - i,
{
    lemma_suffix_tokens_nonnegative(turns, j);
    if i < j {
        lemma_suffix_tokens_monotone(turns, i + 1, j);
    }
}

/// The tokens of a tail of the turns, counted in the tail or in the whole.
pub proof fn lemma_suffix_tokens_subrange(turns: Seq<ConversationTurn>, cut: int, from: int)
    requires
        0 <= cut <= turns.len(),
        0 <= from,
    ensures
        suffix_tokens(turns.subrange(cut, turns.len() as int), from) == suffix_tokens(
            turns,
            cut + from,
        ),
    decreases turns.len() - cut - from,
{
    let tail = turns.subrange(cut, turns.len() as int);
    if from < tail.len() {
        lemma_suffix_tokens_subrange(turns, cut, from + 1);
    }
}

/// Where the scan from the newest turn stops is the first index that fits:
/// the turns from `cut` on fit, and one more turn would not.
pub proof fn lemma_first_fit_is(turns: Seq<ConversationTurn>, available: int, cut: int, from: int)
    requires
        0 <= from <= cut <= turns.len(),
        cut < turns.len() ==> suffix_tokens(turns, cut) <= available,
        cut > 0 ==> suffix_tokens(turns, cut - 1) > available,
    ensures
        first_fit(turns, available, from) == cut,
    decreases cut - from,
{
    if from < cut {
        lemma_suffix_tokens_monotone(turns, from, cut - 1);
        lemma_first_fit_is(turns, available, cut, from + 1);
    }
}

/// What is retained fits: it costs no more than `available`, unless
/// `available` is negative, and then nothing is retained.
pub proof fn lemma_retained_fits(turns: Seq<ConversationTurn>, available: int)
    ensures
        available >= 0 ==> total_tokens(retained(turns, available)) <= available,
        available < 0 ==> retained(turns, available).len() == 0,
{
    lemma_first_fit_props(turns, available, 0);
    let cut = first_fit(turns, available, 0);
    lemma_suffix_tokens_subrange(turns, cut, 0);
    lemma_suffix_tokens_monotone(turns, cut, cut);
}

/// Pruning is idempotent: what was retained is retained whole when the same
/// number of tokens is available again.
pub proof fn lemma_retained_idempotent(turns: Seq<ConversationTurn>, available: int)
    ensures
        retained(retained(turns, available), available) == retained(turns, available),
{
    let kept = retained(turns, available);
    lemma_retained_fits(turns, available);
    if kept.len() > 0 {
        assert(first_fit(kept, available, 0) == 0);
        assert(kept.subrange(0, kept.len() as int) =~= kept);
    } else {
        assert(kept.subrange(0, 0) =~= kept);
    }
}

/// Pruning keeps the most recent turns: what is retained is the end of the
/// history, turn for turn.
pub proof fn lemma_retained_is_suffix(turns: Seq<ConversationTurn>, available: int)
    ensures
        retained(turns, available).len() <= turns.len(),
        forall|k: int|
            0 <= k < retained(turns, available).len() ==> #[trigger] retained(turns, available)[k]
                == turns[turns.len() - retained(turns, available).len() + k],
{
    lemma_first_fit_props(turns, available, 0);
}

/// The first index that fits lies between `from` and the number of turns;
/// the turns from it on fit, or it is the number of turns.
pub proof fn lemma_first_fit_props(turns: Seq<ConversationTurn>, available: int, from: int)
    requires
        0 <= from <= turns.len(),
    ensures
        from <= first_fit(turns, available, from) <= turns.len(),
        first_fit(turns, available, from) < turns.len() ==> suffix_tokens(
            turns,
            first_fit(turns, available, from),
        ) <= available,
        available < 0 ==> first_fit(turns, available, from) == turns.len(),
    decreases turns.len() - from,
{
    if from < turns.len() {
        lemma_suffix_tokens_monotone(turns, from, from);
        if suffix_tokens(turns, from) > available {
            lemma_first_fit_props(turns, available, from + 1);
        }
    }
}

} // verus!
