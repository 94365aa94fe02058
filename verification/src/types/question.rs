//! Question types: interactive question/answer prompts exposed by the
//! OpenCode HTTP API.

use vstd::prelude::*;

verus! {

/// A selectable option for a question.
#[derive(Debug, Clone, PartialEq, Eq)]
pub struct QuestionOption {
    /// Label returned when selected.
    pub label: String,
    /// Human-readable description shown to users.
    pub description: String,
}

/// A single question item.
#[derive(Debug, Clone)]
pub struct QuestionInfo {
    /// The question text.
    pub question: String,
    /// Short header/title for the question.
    pub header: String,
    /// Available options.
    pub options: Vec<QuestionOption>,
    /// Whether multiple options can be selected.
    pub multiple: Option<bool>,
    /// Whether custom free-form input is allowed.
    pub custom: Option<bool>,
}

/// Optional tool context for a question request.
#[derive(Debug, Clone, PartialEq, Eq)]
pub struct QuestionToolRef {
    /// Message ID containing the originating tool call.
    pub message_id: String,
    /// Tool call ID.
    pub call_id: String,
}

/// A pending question request from the server.
#[derive(Debug, Clone)]
pub struct QuestionRequest {
    /// Unique request identifier.
    pub id: String,
    /// Session ID that this question belongs to.
    pub session_id: String,
    /// Question list (typically one item, but the API supports many).
    pub questions: Vec<QuestionInfo>,
    /// Optional tool reference context.
    pub tool: Option<QuestionToolRef>,
}

/// Request body for replying to a question: one answer per question, in
/// order, each the selected option labels.
#[derive(Debug, Clone)]
pub struct QuestionReplyRequest {
    /// User answers in order of questions.
    pub answers: Vec<Vec<String>>,
}

} // verus!
