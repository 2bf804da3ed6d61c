//! The viewer's state and the decisions behind its controls: loading the
//! file, asking questions, clearing the transcript. Drawing the window,
//! reading the disk and calling the model are left to the caller, which
//! hands in what it found and sends the requests handed out.
use vstd::prelude::*;
use crate::chat::{AiRequest, AiState, ChatMessage, MAX_REPLY_TOKENS, Role};
use crate::document::{FileProbe, LoadError, failure_of, load_failure, loaded_text};
use crate::highlight::{Fragment, Highlighter, fragments_text, is_line, lines_text};
use crate::prompt::{question_prompt, question_prompt_of, summary_prompt, summary_prompt_of};
use crate::text::{DocStats, line_count_of, stats_of};

verus! {

pub const DEFAULT_MODEL: &'static str = "llama2";

/// What `str::trim` gives for a text: the text without leading and trailing
/// whitespace.
pub uninterp spec fn trimmed(s: Seq<char>) -> Seq<char>;

/// The characters with Unicode's White_Space property, which
/// `char::is_whitespace` accepts.
pub open spec fn is_white_space(c: char) -> bool {
    let u = c as u32;
    ||| 0x9 <= u <= 0xd
    ||| u == 0x20
    ||| u == 0x85
    ||| u == 0xa0
    ||| u == 0x1680
    ||| 0x2000 <= u <= 0x200a
    ||| u == 0x2028
    ||| u == 0x2029
    ||| u == 0x202f
    ||| u == 0x205f
    ||| u == 0x3000
}

/// `s` holds nothing but whitespace.
pub open spec fn is_blank(s: Seq<char>) -> bool {
    forall|i: int| 0 <= i < s.len() ==> is_white_space(#[trigger] s[i])
}

/// Relies on `str::trim`, which strips leading and trailing whitespace as
/// `char::is_whitespace` defines it: nothing is left exactly when the text
/// is all whitespace.
#[verifier::external_body]
fn trim_text(s: &str) -> (r: &str)
    ensures
        r@ == trimmed(s@),
        r@.len() == 0 <==> is_blank(s@),
{
    s.trim()
}

/// The state of a viewer of one file.
pub struct Viewer {
    pub file_path: String,
    pub file_content: String,
    pub error: Option<LoadError>,
    pub highlighted: Option<Vec<Vec<Fragment>>>,
    pub ai: AiState,
    pub current_question: String,
    pub selected_model: String,
    pub available_models: Vec<String>,
    pub show_ai_panel: bool,
    pub initial_summary_generated: bool,
    pub highlighter: Highlighter,
}

impl Viewer {
    /// The highlighted lines are there exactly when there is text, one per
    /// line of it, and spell it out.
    pub open spec fn wf(&self) -> bool {
        &&& (self.highlighted is None <==> self.file_content@.len() == 0)
        &&& (self.highlighted matches Some(lines) ==> lines_text(lines@) == self.file_content@
            && lines.len() == line_count_of(self.file_content@)
            && forall|i: int|
                0 <= i < lines.len() ==> is_line(
                    #[trigger] fragments_text(lines@[i]@),
                    i == lines.len() - 1,
                ))
    }

    /// A viewer of `file_path` with nothing loaded yet, the AI panel shown
    /// and the default model selected. An empty path is an error from the
    /// start; for any other the caller goes on with `load_file`.
    pub fn new(file_path: String) -> (r: Viewer)
        ensures
            r.wf(),
            r.file_path@ == file_path@,
            r.file_content@.len() == 0,
            r.highlighted is None,
            failure_of(r.error) == if file_path@.len() == 0 {
                Some(crate::document::LoadFailure::NoPath)
            } else {
                None
            },
            !r.ai.is_processing,
            r.ai.current_response@.len() == 0,
            r.ai.chat_history@.len() == 0,
            r.ai.error is None,
            r.current_question@.len() == 0,
            r.selected_model@ == DEFAULT_MODEL@,
            r.available_models@.len() == 4,
            r.available_models@[0]@ == DEFAULT_MODEL@,
            r.available_models@[1]@ == "mistral"@,
            r.available_models@[2]@ == "phi"@,
            r.available_models@[3]@ == "codellama"@,
            r.show_ai_panel,
            !r.initial_summary_generated,
    {
        let error = if file_path.as_str().is_empty() {
            Some(LoadError::NoPath)
        } else {
            None
        };
        let mut models: Vec<String> = Vec::new();
        models.push(String::from_str(DEFAULT_MODEL));
        models.push(String::from_str("mistral"));
        models.push(String::from_str("phi"));
        models.push(String::from_str("codellama"));
        Viewer {
            file_path,
            file_content: String::new(),
            error,
            highlighted: None,
            ai: AiState::new(),
            current_question: String::new(),
            selected_model: String::from_str(DEFAULT_MODEL),
            available_models: models,
            show_ai_panel: true,
            initial_summary_generated: false,
            highlighter: Highlighter::new(),
        }
    }

    /// Marks a request as in flight and hands it out: `prompt` for the
    /// selected model. Unless it is a summary, the pending question is added
    /// to the transcript as the user's turn.
    pub fn send_to_ai(&mut self, prompt: String, is_summary: bool) -> (r: AiRequest)
        ensures
            r.model == old(self).selected_model,
            r.prompt == prompt,
            r.max_tokens == MAX_REPLY_TOKENS,
            final(self).ai.is_processing,
            final(self).ai.current_response@.len() == 0,
            final(self).ai.error is None,
            final(self).ai.chat_history@ == if is_summary {
                old(self).ai.chat_history@
            } else {
                old(self).ai.chat_history@.push(
                    ChatMessage { role: Role::User, content: old(self).current_question },
                )
            },
            final(self).file_path == old(self).file_path,
            final(self).file_content == old(self).file_content,
            final(self).error == old(self).error,
            final(self).highlighted == old(self).highlighted,
            final(self).current_question == old(self).current_question,
            final(self).selected_model == old(self).selected_model,
            final(self).available_models == old(self).available_models,
            final(self).show_ai_panel == old(self).show_ai_panel,
            final(self).initial_summary_generated == old(self).initial_summary_generated,
    {
        let question = if is_summary {
            None
        } else {
            Some(self.current_question.clone())
        };
        self.ai.begin(question);
        AiRequest { model: self.selected_model.clone(), prompt, max_tokens: MAX_REPLY_TOKENS }
    }

    /// Asks for a summary of the loaded text; the transcript is not amended.
    pub fn generate_initial_summary(&mut self) -> (r: AiRequest)
        ensures
            r.model == old(self).selected_model,
            r.prompt@ == summary_prompt_of(old(self).file_content@),
            r.max_tokens == MAX_REPLY_TOKENS,
            final(self).ai.is_processing,
            final(self).ai.current_response@.len() == 0,
            final(self).ai.error is None,
            final(self).ai.chat_history@ == old(self).ai.chat_history@,
            final(self).file_path == old(self).file_path,
            final(self).file_content == old(self).file_content,
            final(self).error == old(self).error,
            final(self).highlighted == old(self).highlighted,
            final(self).current_question == old(self).current_question,
            final(self).selected_model == old(self).selected_model,
            final(self).available_models == old(self).available_models,
            final(self).show_ai_panel == old(self).show_ai_panel,
            final(self).initial_summary_generated == old(self).initial_summary_generated,
    {
        let prompt = summary_prompt(self.file_content.as_str());
        self.send_to_ai(prompt, true)
    }

    /// Takes in what looking at the file found. The text is kept and
    /// highlighted on success; on any failure the error is recorded and no
    /// text is kept. The first time a non-empty text is loaded, a summary of
    /// it is asked for and handed out.
    pub fn load_file(&mut self, probe: FileProbe) -> (r: Option<AiRequest>)
        requires
            old(self).wf(),
        ensures
            final(self).wf(),
            final(self).file_content@ == loaded_text(old(self).file_path@, probe),
            failure_of(final(self).error) == load_failure(old(self).file_path@, probe),
            final(self).file_path == old(self).file_path,
            final(self).current_question == old(self).current_question,
            final(self).selected_model == old(self).selected_model,
            final(self).available_models == old(self).available_models,
            final(self).show_ai_panel == old(self).show_ai_panel,
            ({
                let summarize = !old(self).initial_summary_generated
                    && final(self).file_content@.len() > 0;
                &&& summarize ==> {
                    &&& r matches Some(req)
                    &&& req.model == old(self).selected_model
                    &&& req.prompt@ == summary_prompt_of(final(self).file_content@)
                    &&& req.max_tokens == MAX_REPLY_TOKENS
                    &&& final(self).initial_summary_generated
                    &&& final(self).ai.is_processing
                    &&& final(self).ai.current_response@.len() == 0
                    &&& final(self).ai.error is None
                    &&& final(self).ai.chat_history@ == old(self).ai.chat_history@
                }
                &&& !summarize ==> {
                    &&& r is None
                    &&& final(self).initial_summary_generated
                        == old(self).initial_summary_generated
                    &&& final(self).ai == old(self).ai
                }
            }),
    {
        if self.file_path.as_str().is_empty() {
            self.error = Some(LoadError::NoPath);
            self.file_content = String::new();
            self.highlighted = None;
            return None;
        }
        match probe {
            FileProbe::Missing => {
                self.error = Some(LoadError::NotFound(self.file_path.clone()));
                self.file_content = String::new();
                self.highlighted = None;
                None
            },
            FileProbe::Unreadable(e) => {
                self.error = Some(LoadError::ReadFailed(e));
                self.file_content = String::new();
                self.highlighted = None;
                None
            },
            FileProbe::Text(t) => {
                self.highlighted = self.highlighter.highlight(self.file_path.as_str(), t.as_str());
                self.file_content = t;
                self.error = None;
                if !self.initial_summary_generated && !self.file_content.as_str().is_empty() {
                    let req = self.generate_initial_summary();
                    self.initial_summary_generated = true;
                    Some(req)
                } else {
                    None
                }
            },
        }
    }

    /// Puts the pending question to the model, unless `blank` says it holds
    /// nothing but whitespace: the question becomes the user's turn, the
    /// request embeds it with an excerpt of the text, and the pending
    /// question is emptied. A blank question changes nothing.
    pub fn submit_question(&mut self, blank: bool) -> (r: Option<AiRequest>)
        ensures
            blank ==> r is None && *final(self) == *old(self),
            !blank ==> {
                &&& r matches Some(req)
                &&& req.model == old(self).selected_model
                &&& req.prompt@ == question_prompt_of(
                    old(self).file_content@,
                    old(self).current_question@,
                )
                &&& req.max_tokens == MAX_REPLY_TOKENS
                &&& final(self).ai.is_processing
                &&& final(self).ai.current_response@.len() == 0
                &&& final(self).ai.error is None
                &&& final(self).ai.chat_history@ == old(self).ai.chat_history@.push(
                    ChatMessage { role: Role::User, content: old(self).current_question },
                )
                &&& final(self).current_question@.len() == 0
                &&& final(self).file_path == old(self).file_path
                &&& final(self).file_content == old(self).file_content
                &&& final(self).error == old(self).error
                &&& final(self).highlighted == old(self).highlighted
                &&& final(self).selected_model == old(self).selected_model
                &&& final(self).available_models == old(self).available_models
                &&& final(self).show_ai_panel == old(self).show_ai_panel
                &&& final(self).initial_summary_generated
                    == old(self).initial_summary_generated
            },
    {
        if blank {
            return None;
        }
        let prompt = question_prompt(self.file_content.as_str(), self.current_question.as_str());
        let req = self.send_to_ai(prompt, false);
        self.current_question = String::new();
        Some(req)
    }

    /// Puts the pending question to the model, as `submit_question` does,
    /// unless it holds nothing but whitespace.
    pub fn ask_question(&mut self) -> (r: Option<AiRequest>)
        ensures
            (r is None) == is_blank(old(self).current_question@),
            is_blank(old(self).current_question@) ==> *final(self) == *old(self),
            r matches Some(req) ==> {
                &&& req.model == old(self).selected_model
                &&& req.prompt@ == question_prompt_of(
                    old(self).file_content@,
                    old(self).current_question@,
                )
                &&& req.max_tokens == MAX_REPLY_TOKENS
                &&& final(self).ai.is_processing
                &&& final(self).ai.current_response@.len() == 0
                &&& final(self).ai.error is None
                &&& final(self).ai.chat_history@ == old(self).ai.chat_history@.push(
                    ChatMessage { role: Role::User, content: old(self).current_question },
                )
                &&& final(self).current_question@.len() == 0
                &&& final(self).file_path == old(self).file_path
                &&& final(self).file_content == old(self).file_content
                &&& final(self).error == old(self).error
                &&& final(self).highlighted == old(self).highlighted
                &&& final(self).selected_model == old(self).selected_model
                &&& final(self).available_models == old(self).available_models
                &&& final(self).show_ai_panel == old(self).show_ai_panel
                &&& final(self).initial_summary_generated
                    == old(self).initial_summary_generated
            },
    {
        let blank = trim_text(self.current_question.as_str()).is_empty();
        self.submit_question(blank)
    }

    /// The send control: while a request is in flight nothing happens;
    /// otherwise as `ask_question`.
    pub fn send_question(&mut self) -> (r: Option<AiRequest>)
        ensures
            old(self).ai.is_processing ==> r is None && *final(self) == *old(self),
            !old(self).ai.is_processing ==> {
                &&& (r is None) == is_blank(old(self).current_question@)
                &&& r matches Some(req) ==> {
                    &&& req.model == old(self).selected_model
                    &&& req.prompt@ == question_prompt_of(
                        old(self).file_content@,
                        old(self).current_question@,
                    )
                    &&& req.max_tokens == MAX_REPLY_TOKENS
                    &&& final(self).ai.is_processing
                    &&& final(self).ai.current_response@.len() == 0
                    &&& final(self).ai.error is None
                    &&& final(self).ai.chat_history@ == old(self).ai.chat_history@.push(
                        ChatMessage { role: Role::User, content: old(self).current_question },
                    )
                    &&& final(self).current_question@.len() == 0
                    &&& final(self).file_path == old(self).file_path
                    &&& final(self).file_content == old(self).file_content
                    &&& final(self).error == old(self).error
                    &&& final(self).highlighted == old(self).highlighted
                    &&& final(self).selected_model == old(self).selected_model
                    &&& final(self).available_models == old(self).available_models
                    &&& final(self).show_ai_panel == old(self).show_ai_panel
                    &&& final(self).initial_summary_generated
                        == old(self).initial_summary_generated
                }
            },
    {
        if self.ai.is_processing {
            return None;
        }
        self.ask_question()
    }

    /// Empties the transcript, drops the reply, the error and the pending
    /// question; when a text is loaded, asks for a fresh summary of it and
    /// hands that one request out.
    pub fn clear_chat(&mut self) -> (r: Option<AiRequest>)
        ensures
            final(self).ai.chat_history@.len() == 0,
            final(self).ai.current_response@.len() == 0,
            final(self).ai.error is None,
            final(self).current_question@.len() == 0,
            (r is Some) == (old(self).file_content@.len() > 0),
            r matches Some(req) ==> {
                &&& req.model == old(self).selected_model
                &&& req.prompt@ == summary_prompt_of(old(self).file_content@)
                &&& req.max_tokens == MAX_REPLY_TOKENS
                &&& final(self).ai.is_processing
            },
            r is None ==> final(self).ai.is_processing == old(self).ai.is_processing,
            final(self).file_path == old(self).file_path,
            final(self).file_content == old(self).file_content,
            final(self).error == old(self).error,
            final(self).highlighted == old(self).highlighted,
            final(self).selected_model == old(self).selected_model,
            final(self).available_models == old(self).available_models,
            final(self).show_ai_panel == old(self).show_ai_panel,
            final(self).initial_summary_generated == old(self).initial_summary_generated,
    {
        self.ai.clear();
        self.current_question = String::new();
        if !self.file_content.as_str().is_empty() {
            Some(self.generate_initial_summary())
        } else {
            None
        }
    }

    /// Line, character and byte counts of the loaded text; `None` when there
    /// is no text.
    pub fn file_info(&self) -> (r: Option<DocStats>)
        ensures
            r is None <==> self.file_content@.len() == 0,
            r matches Some(stats) ==> stats.describes(self.file_content@),
    {
        if self.file_content.as_str().is_empty() {
            None
        } else {
            Some(stats_of(self.file_content.as_str()))
        }
    }
}

impl Default for Viewer {
    /// A viewer that was given no path.
    fn default() -> (r: Viewer)
        ensures
            r.wf(),
            r.file_path@.len() == 0,
            r.file_content@.len() == 0,
            failure_of(r.error) == Some(crate::document::LoadFailure::NoPath),
            r.highlighted is None,
            !r.ai.is_processing,
            r.ai.current_response@.len() == 0,
            r.ai.chat_history@.len() == 0,
            r.ai.error is None,
            r.current_question@.len() == 0,
            r.selected_model@ == DEFAULT_MODEL@,
            r.available_models@.len() == 4,
            r.available_models@[0]@ == DEFAULT_MODEL@,
            r.available_models@[1]@ == "mistral"@,
            r.available_models@[2]@ == "phi"@,
            r.available_models@[3]@ == "codellama"@,
            r.show_ai_panel,
            !r.initial_summary_generated,
    {
        Viewer::new(String::new())
    }
}

} // verus!
