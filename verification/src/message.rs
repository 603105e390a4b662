//! Chat messages and their mathematical model.

use vstd::prelude::*;

verus! {

/// Who a chat message comes from.
#[derive(Clone, Copy, Debug, PartialEq, Eq, Structural)]
pub enum Role {
    /// An instruction from the system that runs the conversation.
    System,
    /// Input of the end user.
    User,
    /// An earlier answer of the model.
    Assistant,
    /// Output of a tool that the model called.
    Tool,
}

/// One turn of a conversation.
#[derive(Debug)]
pub struct ChatMessage {
    /// Who the message comes from.
    pub role: Role,
    /// The text of the message.
    pub content: String,
}

/// What a prompt builder reads of a message: its role and its text.
pub ghost struct MessageView {
    pub role: Role,
    pub content: Seq<char>,
}

impl View for ChatMessage {
    type V = MessageView;

    open spec fn view(&self) -> MessageView {
        MessageView { role: self.role, content: self.content@ }
    }
}

/// The views of the messages of a history, in order.
pub open spec fn views(messages: Seq<ChatMessage>) -> Seq<MessageView> {
    Seq::new(messages.len(), |i: int| messages[i]@)
}

/// No message of the history comes from the user.
pub open spec fn no_user_message(messages: Seq<MessageView>) -> bool {
    forall|i: int| 0 <= i < messages.len() ==> (#[trigger] messages[i]).role != Role::User
}

/// The message at `index` comes from the user and none before it does.
pub open spec fn is_first_user_message(messages: Seq<MessageView>, index: int) -> bool {
    &&& 0 <= index < messages.len()
    &&& messages[index].role == Role::User
    &&& forall|i: int| 0 <= i < index ==> (#[trigger] messages[i]).role != Role::User
}

/// How many messages stand before the first one of the user; where there is
/// none of the user, the length of the history.
pub open spec fn leading_non_user(messages: Seq<MessageView>) -> nat
    decreases messages.len(),
{
    if messages.len() == 0 || messages.first().role == Role::User {
        0
    } else {
        1 + leading_non_user(messages.drop_first())
    }
}

/// The history from its first user message on; empty where there is none.
pub open spec fn from_first_user(messages: Seq<MessageView>) -> Seq<MessageView> {
    messages.skip(leading_non_user(messages) as int)
}

/// The text of the first user message, if there is one.
pub open spec fn first_user_content(messages: Seq<MessageView>) -> Option<Seq<char>> {
    let index = leading_non_user(messages) as int;
    if index < messages.len() {
        Some(messages[index].content)
    } else {
        None
    }
}

/// `leading_non_user` stays within the history, and it is the place of the
/// first user message or, in a history without one, the length.
pub proof fn lemma_leading_non_user(messages: Seq<MessageView>)
    ensures
        leading_non_user(messages) <= messages.len(),
        leading_non_user(messages) < messages.len() ==> is_first_user_message(
            messages,
            leading_non_user(messages) as int,
        ),
        leading_non_user(messages) == messages.len() ==> no_user_message(messages),
    decreases messages.len(),
{
    if messages.len() == 0 || messages.first().role == Role::User {
    } else {
        let rest = messages.drop_first();
        let count = leading_non_user(rest) as int;
        lemma_leading_non_user(rest);
        assert forall|i: int| 0 <= i < count + 1 implies (#[trigger] messages[i]).role
            != Role::User by {
            if i > 0 {
                assert(messages[i] == rest[i - 1]);
            }
        }
    }
}

/// A history whose first user message stands at `index` has exactly the
/// `index` messages before it to drop, and its text is that message's.
pub proof fn lemma_first_user_message(messages: Seq<MessageView>, index: int)
    requires
        is_first_user_message(messages, index),
    ensures
        leading_non_user(messages) == index,
        first_user_content(messages) == Some(messages[index].content),
    decreases messages.len(),
{
    if index > 0 {
        lemma_first_user_message(messages.drop_first(), index - 1);
    }
}

/// A history without a user message is dropped whole and has no text.
pub proof fn lemma_no_user_message(messages: Seq<MessageView>)
    requires
        no_user_message(messages),
    ensures
        leading_non_user(messages) == messages.len(),
        first_user_content(messages) == None::<Seq<char>>,
    decreases messages.len(),
{
    if messages.len() > 0 {
        lemma_no_user_message(messages.drop_first());
    }
}

/// The two cases of a history, as far as a single-turn template reads it:
/// without a user message there is no text, and with the first user message
/// at some place the text is that message's. Either way it is the text at
/// the head of the history from the first user message on.
pub proof fn lemma_first_user_content(messages: Seq<MessageView>)
    ensures
        no_user_message(messages) ==> first_user_content(messages) == None::<Seq<char>>,
        forall|index: int| #[trigger]
            is_first_user_message(messages, index) ==> first_user_content(messages) == Some(
                messages[index].content,
            ),
        first_user_content(messages) == if from_first_user(messages).len() == 0 {
            None
        } else {
            Some(from_first_user(messages).first().content)
        },
{
    lemma_leading_non_user(messages);
    if no_user_message(messages) {
        lemma_no_user_message(messages);
    }
    assert forall|index: int| #[trigger] is_first_user_message(messages, index) implies
        first_user_content(messages) == Some(messages[index].content) by {
        lemma_first_user_message(messages, index);
    }
}

} // verus!
