//! The single-turn templates: each wraps the first user message of a history
//! in the markers of one model family and drops the rest of the history.

use vstd::prelude::*;
use vstd::string::StringExecFns;

use crate::builder::{discard_leading_non_user, BuildChatPrompt};
use crate::error::PromptError;
use crate::message::{
    first_user_content, is_first_user_message, lemma_first_user_content, no_user_message, views,
    ChatMessage, MessageView,
};
use crate::text::trimmed;

verus! {

/// Prompts for the `Mistral-instruct-v0.1` model.
#[derive(Debug, Default, Clone, Copy)]
pub struct MistralInstructPrompt;

impl MistralInstructPrompt {
    /// The trimmed text between the instruction markers.
    pub open spec fn user_message(content: Seq<char>) -> Seq<char> {
        "<s>[INST] "@ + trimmed(content) + " [/INST]"@
    }

    /// Wraps the trimmed text of a user message in the instruction markers.
    pub fn append_user_message(&self, content: &str) -> (prompt: String)
        ensures
            prompt@ == Self::user_message(content@),
    {
        let mut prompt = "<s>[INST] ".to_owned();
        prompt.append(content.trim());
        prompt.append(" [/INST]");
        prompt
    }
}

impl BuildChatPrompt for MistralInstructPrompt {
    open spec fn prompt(&self, messages: Seq<MessageView>) -> Seq<char> {
        match first_user_content(messages) {
            Some(content) => Self::user_message(content),
            None => Seq::empty(),
        }
    }

    /// Makes the prompt of the first user message and empties the history:
    /// what stands before that message and what follows it is dropped unread.
    /// A history without a user message gives the empty prompt.
    fn build(&self, messages: &mut Vec<ChatMessage>) -> (res: Result<String, PromptError>)
        ensures
            final(messages)@.len() == 0,
            res is Ok,
            res->Ok_0@ == self.prompt(views(old(messages)@)),
            no_user_message(views(old(messages)@)) ==> res->Ok_0@ == Seq::<char>::empty(),
            forall|index: int| #[trigger]
                is_first_user_message(views(old(messages)@), index) ==> res->Ok_0@
                    == Self::user_message(old(messages)@[index].content@),
    {
        proof {
            lemma_first_user_content(views(messages@));
        }
        discard_leading_non_user(messages);

        if messages.is_empty() {
            return Ok(String::new());
        }
        let message = messages.remove(0);
        let prompt = self.append_user_message(message.content.as_str());

        messages.clear();

        Ok(prompt)
    }
}

/// Prompts for the `MistralLite-7B` model.
#[derive(Debug, Default, Clone, Copy)]
pub struct MistralLitePrompt;

impl MistralLitePrompt {
    /// The trimmed text between the prompter and assistant markers.
    pub open spec fn user_message(content: Seq<char>) -> Seq<char> {
        "<|prompter|>"@ + trimmed(content) + "</s><|assistant|>"@
    }

    /// Wraps the trimmed text of a user message in the prompter and assistant
    /// markers.
    pub fn append_user_message(&self, content: &str) -> (prompt: String)
        ensures
            prompt@ == Self::user_message(content@),
    {
        let mut prompt = "<|prompter|>".to_owned();
        prompt.append(content.trim());
        prompt.append("</s><|assistant|>");
        prompt
    }
}

impl BuildChatPrompt for MistralLitePrompt {
    open spec fn prompt(&self, messages: Seq<MessageView>) -> Seq<char> {
        match first_user_content(messages) {
            Some(content) => Self::user_message(content),
            None => Seq::empty(),
        }
    }

    /// Makes the prompt of the first user message and empties the history:
    /// what stands before that message and what follows it is dropped unread.
    /// A history without a user message gives the empty prompt.
    fn build(&self, messages: &mut Vec<ChatMessage>) -> (res: Result<String, PromptError>)
        ensures
            final(messages)@.len() == 0,
            res is Ok,
            res->Ok_0@ == self.prompt(views(old(messages)@)),
            no_user_message(views(old(messages)@)) ==> res->Ok_0@ == Seq::<char>::empty(),
            forall|index: int| #[trigger]
                is_first_user_message(views(old(messages)@), index) ==> res->Ok_0@
                    == Self::user_message(old(messages)@[index].content@),
    {
        proof {
            lemma_first_user_content(views(messages@));
        }
        discard_leading_non_user(messages);

        if messages.is_empty() {
            return Ok(String::new());
        }
        let message = messages.remove(0);
        let prompt = self.append_user_message(message.content.as_str());

        messages.clear();

        Ok(prompt)
    }
}

/// Prompts for the `OpenChat` models.
#[derive(Debug, Default, Clone, Copy)]
pub struct OpenChatPrompt;

impl OpenChatPrompt {
    /// The trimmed text between the user marker and the assistant marker.
    pub open spec fn user_message(content: Seq<char>) -> Seq<char> {
        "GPT4 User: "@ + trimmed(content) + "<|end_of_turn|>GPT4 Assistant:"@
    }

    /// Wraps the trimmed text of a user message in the user and assistant
    /// markers.
    pub fn append_user_message(&self, content: &str) -> (prompt: String)
        ensures
            prompt@ == Self::user_message(content@),
    {
        let mut prompt = "GPT4 User: ".to_owned();
        prompt.append(content.trim());
        prompt.append("<|end_of_turn|>GPT4 Assistant:");
        prompt
    }
}

impl BuildChatPrompt for OpenChatPrompt {
    open spec fn prompt(&self, messages: Seq<MessageView>) -> Seq<char> {
        match first_user_content(messages) {
            Some(content) => Self::user_message(content),
            None => Seq::empty(),
        }
    }

    /// Makes the prompt of the first user message and empties the history:
    /// what stands before that message and what follows it is dropped unread.
    /// A history without a user message gives the empty prompt.
    fn build(&self, messages: &mut Vec<ChatMessage>) -> (res: Result<String, PromptError>)
        ensures
            final(messages)@.len() == 0,
            res is Ok,
            res->Ok_0@ == self.prompt(views(old(messages)@)),
            no_user_message(views(old(messages)@)) ==> res->Ok_0@ == Seq::<char>::empty(),
            forall|index: int| #[trigger]
                is_first_user_message(views(old(messages)@), index) ==> res->Ok_0@
                    == Self::user_message(old(messages)@[index].content@),
    {
        proof {
            lemma_first_user_content(views(messages@));
        }
        discard_leading_non_user(messages);

        if messages.is_empty() {
            return Ok(String::new());
        }
        let message = messages.remove(0);
        let prompt = self.append_user_message(message.content.as_str());

        messages.clear();

        Ok(prompt)
    }
}

} // verus!
