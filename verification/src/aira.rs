//! The session: one conversation and the emotional context that colours it.

use vstd::prelude::*;
use crate::conversation::{total_tokens, ConversationManager};
use crate::emotion::EmotionalContext;

verus! {

/// The state of the one active session.
#[derive(Debug)]
pub struct Aira {
    pub conversation: ConversationManager,
}

impl Aira {
    /// A session with an empty history and no emotional context.
    pub fn new(system_prompt: &str, max_context_tokens: usize) -> (r: Aira)
        ensures
            r.conversation.turns@.len() == 0,
            r.conversation.system_prompt@ == system_prompt@,
            r.conversation.max_context_tokens == max_context_tokens,
            r.conversation.emotional_context is None,
    {
        Aira { conversation: ConversationManager::new(system_prompt, max_context_tokens) }
    }

    /// Replaces the emotional context with one derived from the camera.
    pub fn update_emotional_context(&mut self, context: EmotionalContext)
        ensures
            final(self).conversation.emotional_context == Some(context),
            final(self).conversation.turns == old(self).conversation.turns,
            final(self).conversation.system_prompt == old(self).conversation.system_prompt,
            final(self).conversation.system_prompt_tokens
                == old(self).conversation.system_prompt_tokens,
            final(self).conversation.max_context_tokens
                == old(self).conversation.max_context_tokens,
    {
        self.conversation.update_emotional_context(context);
    }

    /// The current emotional context.
    pub fn get_emotional_context(&self) -> (r: Option<EmotionalContext>)
        ensures
            r == self.conversation.emotional_context,
    {
        self.conversation.emotional_context
    }

    /// Clears the conversation history, as when a new conversation starts.
    pub fn clear_history(&mut self)
        ensures
            final(self).conversation.turns@.len() == 0,
            final(self).conversation.system_prompt == old(self).conversation.system_prompt,
            final(self).conversation.system_prompt_tokens
                == old(self).conversation.system_prompt_tokens,
            final(self).conversation.max_context_tokens
                == old(self).conversation.max_context_tokens,
            final(self).conversation.emotional_context == old(self).conversation.emotional_context,
    {
        self.conversation.clear_history();
    }

    /// The number of turns in the history and their tokens, the tokens
    /// capped at the largest `usize`.
    pub fn get_conversation_stats(&self) -> (r: (usize, usize))
        ensures
            r.0 == self.conversation.turns@.len(),
            total_tokens(self.conversation.turns@) <= usize::MAX ==> r.1 == total_tokens(
                self.conversation.turns@,
            ),
            total_tokens(self.conversation.turns@) > usize::MAX ==> r.1 == usize::MAX,
    {
        (self.conversation.history_length(), self.conversation.history_tokens())
    }
}

} // verus!
