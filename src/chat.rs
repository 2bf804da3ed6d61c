//! The transcript of an exchange with a language model, and the state of the
//! request in flight.
use vstd::prelude::*;

verus! {

/// Who wrote a turn of the transcript.
#[derive(Clone, Copy, Debug, PartialEq, Eq, Structural)]
pub enum Role {
    User,
    Assistant,
}

/// One turn of the transcript.
#[derive(Clone, Debug)]
pub struct ChatMessage {
    pub role: Role,
    pub content: String,
}

/// Largest number of tokens a reply may have.
pub const MAX_REPLY_TOKENS: i32 = 500;

/// A generation request to hand to the model's endpoint: the model to use and
/// the prompt. Replies are asked for whole, not streamed.
#[derive(Clone, Debug)]
pub struct AiRequest {
    pub model: String,
    pub prompt: String,
    pub max_tokens: i32,
}

/// How a request ended.
#[derive(Clone, Debug)]
pub enum AiOutcome {
    /// The endpoint answered with this text.
    Reply(String),
    /// The endpoint could not be reached; the client's description.
    Unreachable(String),
    /// The endpoint answered with a status that is not a success.
    Rejected(String),
    /// The endpoint's answer could not be decoded; the decoder's description.
    Undecodable(String),
}

pub const UNREACHABLE_PREFIX: &'static str = "Failed to connect to Ollama. Make sure Ollama is running: ";

pub const REJECTED_PREFIX: &'static str = "API request failed: ";

pub const UNDECODABLE_PREFIX: &'static str = "Failed to parse response: ";

/// The error text shown for a failed outcome; `None` for a reply.
pub open spec fn outcome_error(outcome: AiOutcome) -> Option<Seq<char>> {
    match outcome {
        AiOutcome::Reply(_) => None,
        AiOutcome::Unreachable(e) => Some(UNREACHABLE_PREFIX@ + e@),
        AiOutcome::Rejected(e) => Some(REJECTED_PREFIX@ + e@),
        AiOutcome::Undecodable(e) => Some(UNDECODABLE_PREFIX@ + e@),
    }
}

/// The view of an optional error text.
pub open spec fn error_view(e: Option<String>) -> Option<Seq<char>> {
    match e {
        Some(s) => Some(s@),
        None => None,
    }
}

/// State of the exchange with the model: whether a request is in flight, the
/// latest reply, the transcript, and the latest error.
#[derive(Clone, Debug)]
pub struct AiState {
    pub is_processing: bool,
    pub current_response: String,
    pub chat_history: Vec<ChatMessage>,
    pub error: Option<String>,
}

impl AiState {
    /// Nothing in flight, no reply, an empty transcript, no error.
    pub fn new() -> (r: AiState)
        ensures
            !r.is_processing,
            r.current_response@.len() == 0,
            r.chat_history@.len() == 0,
            r.error is None,
    {
        AiState {
            is_processing: false,
            current_response: String::new(),
            chat_history: Vec::new(),
            error: None,
        }
    }

    /// Marks a request as in flight: the reply and error are cleared, and a
    /// question, if given, is added to the transcript as the user's turn.
    pub fn begin(&mut self, question: Option<String>)
        ensures
            final(self).is_processing,
            final(self).current_response@.len() == 0,
            final(self).error is None,
            match question {
                Some(q) => final(self).chat_history@ == old(self).chat_history@.push(
                    ChatMessage { role: Role::User, content: q },
                ),
                None => final(self).chat_history@ == old(self).chat_history@,
            },
    {
        self.is_processing = true;
        self.current_response = String::new();
        self.error = None;
        match question {
            Some(q) => {
                self.chat_history.push(ChatMessage { role: Role::User, content: q });
            },
            None => {},
        }
    }

    /// Records how a request ended: a reply becomes the current response and
    /// the assistant's turn; a failure sets the error and leaves the
    /// transcript as it was. Either way nothing is in flight any more.
    pub fn finish(&mut self, outcome: AiOutcome)
        ensures
            !final(self).is_processing,
            match outcome {
                AiOutcome::Reply(t) => {
                    &&& final(self).current_response@ == t@
                    &&& final(self).chat_history@ == old(self).chat_history@.push(
                        ChatMessage { role: Role::Assistant, content: t },
                    )
                    &&& final(self).error == old(self).error
                },
                _ => {
                    &&& error_view(final(self).error) == outcome_error(outcome)
                    &&& final(self).chat_history@ == old(self).chat_history@
                    &&& final(self).current_response == old(self).current_response
                },
            },
    {
        match outcome {
            AiOutcome::Reply(t) => {
                self.current_response = t.clone();
                self.chat_history.push(ChatMessage { role: Role::Assistant, content: t });
            },
            AiOutcome::Unreachable(e) => {
                self.error = Some(String::from_str(UNREACHABLE_PREFIX).concat(e.as_str()));
            },
            AiOutcome::Rejected(e) => {
                self.error = Some(String::from_str(REJECTED_PREFIX).concat(e.as_str()));
            },
            AiOutcome::Undecodable(e) => {
                self.error = Some(String::from_str(UNDECODABLE_PREFIX).concat(e.as_str()));
            },
        }
        self.is_processing = false;
    }

    /// Empties the transcript and drops the reply and the error; a request in
    /// flight stays so.
    pub fn clear(&mut self)
        ensures
            final(self).chat_history@.len() == 0,
            final(self).current_response@.len() == 0,
            final(self).error is None,
            final(self).is_processing == old(self).is_processing,
    {
        self.chat_history.clear();
        self.current_response = String::new();
        self.error = None;
    }
}

} // verus!
