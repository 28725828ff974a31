//! The status lines of a backup run: each is shown on the console and
//! entered in the application log.

use vstd::prelude::*;

use crate::logger::LogLevel;

verus! {

/// A status line and the level at which it is logged.
#[derive(Debug, PartialEq, Eq)]
pub struct Feedback {
    pub level: LogLevel,
    pub text: String,
}

/// A `Feedback` as contracts see it.
pub struct FeedbackModel {
    pub level: LogLevel,
    pub text: Seq<char>,
}

impl View for Feedback {
    type V = FeedbackModel;

    open spec fn view(&self) -> FeedbackModel {
        FeedbackModel { level: self.level, text: self.text@ }
    }
}

/// A line at level `Info`.
pub open spec fn info(text: Seq<char>) -> FeedbackModel {
    FeedbackModel { level: LogLevel::Info, text }
}

/// A line at level `Error`.
pub open spec fn error(text: Seq<char>) -> FeedbackModel {
    FeedbackModel { level: LogLevel::Error, text }
}

/// The lines of a list, as contracts see them.
pub open spec fn feedback_models(lines: Seq<Feedback>) -> Seq<FeedbackModel> {
    lines.map_values(|line: Feedback| line@)
}

/// The texts of a list, as contracts see them.
pub open spec fn text_models(lines: Seq<String>) -> Seq<Seq<char>> {
    lines.map_values(|line: String| line@)
}

/// An optional text as contracts see it.
pub open spec fn optional_text(text: Option<String>) -> Option<Seq<char>> {
    match text {
        Some(text) => Some(text@),
        None => None,
    }
}

impl Feedback {
    /// A line at level `Info`.
    pub fn info(text: String) -> (line: Feedback)
        ensures
            line@ == info(text@),
    {
        Feedback { level: LogLevel::Info, text }
    }

    /// A line at level `Error`.
    pub fn error(text: String) -> (line: Feedback)
        ensures
            line@ == error(text@),
    {
        Feedback { level: LogLevel::Error, text }
    }
}

/// Puts `line` behind `lines`.
pub(crate) fn push_feedback(lines: &mut Vec<Feedback>, line: Feedback)
    ensures
        feedback_models(final(lines)@) == feedback_models(old(lines)@).push(line@),
{
    lines.push(line);
}

/// Puts `line` behind `lines`.
pub(crate) fn push_text(lines: &mut Vec<String>, line: String)
    ensures
        text_models(final(lines)@) == text_models(old(lines)@).push(line@),
{
    lines.push(line);
}

} // verus!
