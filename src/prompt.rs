//! The prompts sent to the model: a document excerpt wrapped in an
//! instruction.
use vstd::prelude::*;

verus! {

/// Characters of the document that a summary request includes.
pub const SUMMARY_LIMIT: usize = 4000;

/// Characters of the document that a question includes.
pub const QUESTION_LIMIT: usize = 3000;

/// Marks an excerpt that was cut short.
pub const ELLIPSIS: &'static str = "...";

pub const SUMMARY_HEAD: &'static str = "Please provide a concise summary of the following document. Focus on the main purpose, key points, and structure:\n\n";

pub const SUMMARY_TAIL: &'static str = "\n\nSummary:";

pub const QUESTION_HEAD: &'static str = "Based on the following document content:\n\n";

pub const QUESTION_MID: &'static str = "\n\nPlease answer this question: ";

pub const QUESTION_TAIL: &'static str = "\n\nAnswer:";

/// The first `limit` characters of `s` followed by an ellipsis where `s` is
/// longer; else `s` itself.
pub open spec fn excerpt_of(s: Seq<char>, limit: nat) -> Seq<char> {
    if s.len() > limit {
        s.subrange(0, limit as int) + ELLIPSIS@
    } else {
        s
    }
}

/// The prompt that asks for a summary of a document.
pub open spec fn summary_prompt_of(content: Seq<char>) -> Seq<char> {
    SUMMARY_HEAD@ + excerpt_of(content, SUMMARY_LIMIT as nat) + SUMMARY_TAIL@
}

/// The prompt that asks `question` about a document.
pub open spec fn question_prompt_of(content: Seq<char>, question: Seq<char>) -> Seq<char> {
    QUESTION_HEAD@ + excerpt_of(content, QUESTION_LIMIT as nat) + QUESTION_MID@ + question
        + QUESTION_TAIL@
}

/// `s`, cut to `limit` characters and marked so where it is longer.
pub fn excerpt(s: &str, limit: usize) -> (r: String)
    ensures
        r@ == excerpt_of(s@, limit as nat),
{
    if s.unicode_len() > limit {
        String::from_str(s.substring_char(0, limit)).concat(ELLIPSIS)
    } else {
        String::from_str(s)
    }
}

/// The prompt that asks for a summary of `content`.
pub fn summary_prompt(content: &str) -> (r: String)
    ensures
        r@ == summary_prompt_of(content@),
{
    let body = excerpt(content, SUMMARY_LIMIT);
    String::from_str(SUMMARY_HEAD).concat(body.as_str()).concat(SUMMARY_TAIL)
}

/// The prompt that asks `question` about `content`.
pub fn question_prompt(content: &str, question: &str) -> (r: String)
    ensures
        r@ == question_prompt_of(content@, question@),
{
    let body = excerpt(content, QUESTION_LIMIT);
    String::from_str(QUESTION_HEAD).concat(body.as_str()).concat(QUESTION_MID).concat(
        question,
    ).concat(QUESTION_TAIL)
}

} // verus!
