//! What every prompt builder promises, and the step that the single-turn
//! templates share: dropping what stands before the first user message.

use vstd::prelude::*;

use crate::error::PromptError;
use crate::message::{
    from_first_user, leading_non_user, lemma_leading_non_user, views, ChatMessage, MessageView,
    Role,
};

verus! {

/// A template that turns a message history into the text of one prompt.
pub trait BuildChatPrompt {
    /// The prompt that this builder makes of a history, wherever it makes one.
    /// It depends on the roles and texts of the messages and on nothing else.
    spec fn prompt(&self, messages: Seq<MessageView>) -> Seq<char>;

    /// Makes the prompt of `messages`. The builder may take messages out of
    /// the history while it works; what it leaves there is its own affair.
    fn build(&self, messages: &mut Vec<ChatMessage>) -> (res: Result<String, PromptError>)
        ensures
            res matches Ok(text) ==> text@ == self.prompt(views(old(messages)@)),
    ;
}

/// Removes the messages that stand before the first user message, so that the
/// history is left empty or begins with a user message. A history that is
/// empty or begins with a user message is left as it is.
pub fn discard_leading_non_user(messages: &mut Vec<ChatMessage>)
    ensures
        final(messages)@ == old(messages)@.skip(leading_non_user(views(old(messages)@)) as int),
        views(final(messages)@) == from_first_user(views(old(messages)@)),
        final(messages)@.len() == 0 || final(messages)@[0].role == Role::User,
        old(messages)@.len() == 0 || old(messages)@[0].role == Role::User ==> final(messages)@
            == old(messages)@,
{
    while !messages.is_empty() && messages[0].role != Role::User
        invariant
            messages@.len() <= old(messages)@.len(),
            messages@ == old(messages)@.skip(old(messages)@.len() - messages@.len()),
            leading_non_user(views(old(messages)@)) == old(messages)@.len() - messages@.len()
                + leading_non_user(views(messages@)),
        decreases messages@.len(),
    {
        assert(views(messages@).drop_first() == views(messages@.remove(0)));
        messages.remove(0);
    }
}

/// Filtering a second time changes nothing: what the filter leaves is empty
/// or begins with a user message, and of such a history it drops nothing.
pub proof fn lemma_filter_idempotent(messages: Seq<MessageView>)
    ensures
        messages.len() == 0 || messages[0].role == Role::User ==> from_first_user(messages)
            == messages,
        from_first_user(from_first_user(messages)) == from_first_user(messages),
{
    lemma_leading_non_user(messages);
}

/// Histories that agree in length and, place by place, in role and text have
/// the same views, so every builder makes the same prompt of both.
pub proof fn lemma_same_history_same_prompt<B: BuildChatPrompt>(
    builder: &B,
    first: Seq<ChatMessage>,
    second: Seq<ChatMessage>,
)
    requires
        first.len() == second.len(),
        forall|i: int|
            0 <= i < first.len() ==> (#[trigger] first[i]).role == second[i].role
                && first[i].content@ == second[i].content@,
    ensures
        views(first) == views(second),
        builder.prompt(views(first)) == builder.prompt(views(second)),
{
    assert(views(first) =~= views(second));
}

} // verus!
