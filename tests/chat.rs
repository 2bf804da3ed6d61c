use tty_doc::chat::{AiOutcome, AiState, Role, MAX_REPLY_TOKENS};
use tty_doc::document::FileProbe;
use tty_doc::prompt::{excerpt, question_prompt, summary_prompt, QUESTION_LIMIT, SUMMARY_LIMIT};
use tty_doc::viewer::Viewer;

fn loaded(path: &str, text: &str) -> Viewer {
    let mut v = Viewer::new(path.to_string());
    v.load_file(FileProbe::Text(text.to_string()));
    v
}

#[test]
fn unreachable_endpoint_keeps_only_user_turn() {
    let mut v = loaded("notes.md", "# Title\nBody text");
    v.current_question = "summarize".to_string();
    let req = v.ask_question();
    assert!(req.is_some());
    assert!(v.ai.is_processing);
    v.ai.finish(AiOutcome::Unreachable("connection refused".to_string()));
    assert_eq!(v.ai.chat_history.len(), 1);
    assert_eq!(v.ai.chat_history[0].role, Role::User);
    assert_eq!(v.ai.chat_history[0].content, "summarize");
    assert_eq!(
        v.ai.error.as_deref(),
        Some("Failed to connect to Ollama. Make sure Ollama is running: connection refused")
    );
    assert!(!v.ai.is_processing);
}

#[test]
fn new_ai_state_is_idle() {
    let s = AiState::new();
    assert!(!s.is_processing);
    assert_eq!(s.current_response, "");
    assert!(s.chat_history.is_empty());
    assert!(s.error.is_none());
}

#[test]
fn reply_becomes_assistant_turn() {
    let mut s = AiState::new();
    s.begin(Some("what is it?".to_string()));
    s.finish(AiOutcome::Reply("a file".to_string()));
    assert_eq!(s.current_response, "a file");
    assert_eq!(s.chat_history.len(), 2);
    assert_eq!(s.chat_history[1].role, Role::Assistant);
    assert_eq!(s.chat_history[1].content, "a file");
    assert!(s.error.is_none());
    assert!(!s.is_processing);
}

#[test]
fn rejected_and_undecodable_errors() {
    let mut s = AiState::new();
    s.begin(None);
    s.finish(AiOutcome::Rejected("500 Internal Server Error".to_string()));
    assert_eq!(s.error.as_deref(), Some("API request failed: 500 Internal Server Error"));
    assert!(s.chat_history.is_empty());
    s.begin(None);
    assert!(s.error.is_none());
    s.finish(AiOutcome::Undecodable("missing field `response`".to_string()));
    assert_eq!(s.error.as_deref(), Some("Failed to parse response: missing field `response`"));
    assert!(!s.is_processing);
}

#[test]
fn clear_chat_with_document_requests_one_summary() {
    let mut v = loaded("notes.md", "# Title\nBody text");
    v.current_question = "why?".to_string();
    v.ask_question();
    v.ai.finish(AiOutcome::Reply("because".to_string()));
    assert_eq!(v.ai.chat_history.len(), 2);
    let req = v.clear_chat().unwrap();
    assert!(v.ai.chat_history.is_empty());
    assert_eq!(v.current_question, "");
    assert!(v.ai.error.is_none());
    assert_eq!(req.prompt, summary_prompt("# Title\nBody text"));
    assert_eq!(req.model, "llama2");
    assert!(v.ai.is_processing);
}

#[test]
fn clear_chat_without_document_requests_nothing() {
    let mut v = Viewer::new("gone.txt".to_string());
    v.load_file(FileProbe::Missing);
    v.ai.begin(Some("hi".to_string()));
    v.ai.finish(AiOutcome::Reply("hello".to_string()));
    assert!(v.clear_chat().is_none());
    assert!(v.ai.chat_history.is_empty());
    assert_eq!(v.ai.current_response, "");
}

#[test]
fn first_load_requests_summary_once() {
    let mut v = Viewer::new("a.txt".to_string());
    let first = v.load_file(FileProbe::Text("alpha".to_string())).unwrap();
    assert_eq!(first.prompt, summary_prompt("alpha"));
    assert_eq!(first.max_tokens, MAX_REPLY_TOKENS);
    assert!(v.ai.chat_history.is_empty());
    assert!(v.load_file(FileProbe::Text("beta".to_string())).is_none());
}

#[test]
fn empty_file_requests_no_summary() {
    let mut v = Viewer::new("empty.txt".to_string());
    assert!(v.load_file(FileProbe::Text(String::new())).is_none());
    assert!(v.error.is_none());
    assert!(v.highlighted.is_none());
    assert!(!v.initial_summary_generated);
}

#[test]
fn blank_question_is_ignored() {
    let mut v = loaded("a.txt", "alpha");
    v.current_question = "   \t ".to_string();
    let before = v.ai.chat_history.len();
    assert!(v.ask_question().is_none());
    assert_eq!(v.ai.chat_history.len(), before);
    assert_eq!(v.current_question, "   \t ");
}

#[test]
fn question_is_sent_untrimmed() {
    let mut v = loaded("a.txt", "alpha");
    v.current_question = " what? ".to_string();
    let req = v.ask_question().unwrap();
    assert_eq!(
        req.prompt,
        "Based on the following document content:\n\nalpha\n\nPlease answer this question:  what? \n\nAnswer:"
    );
    assert_eq!(v.ai.chat_history.last().unwrap().content, " what? ");
    assert_eq!(v.current_question, "");
}

#[test]
fn selected_model_is_used() {
    let mut v = loaded("a.txt", "alpha");
    v.selected_model = v.available_models[1].clone();
    v.current_question = "q".to_string();
    let req = v.ask_question().unwrap();
    assert_eq!(req.model, "mistral");
}

#[test]
fn summary_prompt_exact() {
    assert_eq!(
        summary_prompt("doc"),
        "Please provide a concise summary of the following document. Focus on the main purpose, key points, and structure:\n\ndoc\n\nSummary:"
    );
}

#[test]
fn question_prompt_exact() {
    assert_eq!(
        question_prompt("doc", "why"),
        "Based on the following document content:\n\ndoc\n\nPlease answer this question: why\n\nAnswer:"
    );
}

#[test]
fn excerpt_cuts_long_text() {
    let long = "a".repeat(SUMMARY_LIMIT + 10);
    let cut = excerpt(&long, SUMMARY_LIMIT);
    assert_eq!(cut, format!("{}...", "a".repeat(SUMMARY_LIMIT)));
    let exact = "b".repeat(QUESTION_LIMIT);
    assert_eq!(excerpt(&exact, QUESTION_LIMIT), exact);
    assert_eq!(excerpt("ééé", 2), "éé...");
}

#[test]
fn default_models_listed() {
    let v = Viewer::new("x.txt".to_string());
    assert_eq!(v.available_models, vec!["llama2", "mistral", "phi", "codellama"]);
    assert_eq!(v.selected_model, "llama2");
    assert!(v.show_ai_panel);
    assert!(v.error.is_none());
}

#[test]
fn no_question_while_request_in_flight() {
    let mut v = loaded("a.txt", "alpha");
    assert!(v.ai.is_processing);
    v.current_question = "second?".to_string();
    assert!(v.send_question().is_none());
    assert_eq!(v.current_question, "second?");
    assert!(v.ai.chat_history.is_empty());
    v.ai.finish(AiOutcome::Reply("done".to_string()));
    let req = v.send_question().unwrap();
    assert!(req.prompt.contains("second?"));
    assert_eq!(v.ai.chat_history.len(), 2);
}

#[test]
fn unicode_whitespace_question_is_blank() {
    let mut v = loaded("a.txt", "alpha");
    v.ai.finish(AiOutcome::Reply("summary".to_string()));
    v.current_question = "\u{3000}\u{a0}\u{2009}\n".to_string();
    assert!(v.send_question().is_none());
    v.current_question = "\u{3000}x".to_string();
    assert!(v.send_question().is_some());
}
