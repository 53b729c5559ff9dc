use vstd::prelude::*;

verus! {

/// The title and the two renderings of a newsletter issue.
pub struct NewsletterContent {
    pub title: String,
    pub text_content: String,
    pub html_content: String,
}

#[derive(Debug)]
pub enum GetNewsletterContentError {
    NotFound(uuid::Uuid),
    Unexpected(eyre::Report),
}

#[derive(Debug)]
pub enum InsertNewsletterIssueError {
    Unexpected(eyre::Report),
}

} // verus!
