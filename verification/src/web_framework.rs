//! The post served by the first web server, with its summary and the texts of
//! its plain routes.

use vstd::prelude::*;

use crate::decimal::{decimal, push_decimal};
use crate::text::{first_chars, lemma_first_chars, push_first_chars};

verus! {

/// A blog post.
#[derive(Debug, Clone)]
pub struct Post {
    pub id: u32,
    pub title: String,
    pub body: String,
}

/// Something that can be told in one line.
pub trait Summary {
    /// The one-line summary of `self`.
    spec fn summary(&self) -> Seq<char>;

    /// Returns the one-line summary.
    fn summarize(&self) -> (line: String)
        ensures
            line@ == self.summary(),
    ;
}

impl Summary for Post {
    /// `Post #{id}: Title: {first 20 characters of title}, Body: {first 20
    /// characters of body}...`
    open spec fn summary(&self) -> Seq<char> {
        "Post #"@ + decimal(self.id as nat) + ": Title: "@ + first_chars(self.title@, 20)
            + ", Body: "@ + first_chars(self.body@, 20) + "..."@
    }

    fn summarize(&self) -> (line: String) {
        let mut line = String::new();
        line.append("Post #");
        push_decimal(&mut line, self.id);
        line.append(": Title: ");
        push_first_chars(&mut line, self.title.as_str(), 20);
        line.append(", Body: ");
        push_first_chars(&mut line, self.body.as_str(), 20);
        line.append("...");
        line
    }
}

/// The text of the root route.
pub fn handler() -> (text: &'static str)
    ensures
        text@ == "Hello, you are running an Axum server!"@,
{
    "Hello, you are running an Axum server!"
}

/// The text of the health route.
pub fn health_check() -> (text: &'static str)
    ensures
        text@ == "OK"@,
{
    "OK"
}

/// The post that the `/post` route serves.
pub fn get_sample_post() -> (post: Post)
    ensures
        post.id == 42,
        post.title@ == "Learning Axum"@,
        post.body@ == "The M4 silicon handles this with zero effort."@,
{
    Post {
        id: 42,
        title: String::from_str("Learning Axum"),
        body: String::from_str("The M4 silicon handles this with zero effort."),
    }
}

/// The summary tells the id in decimal, then the first 20 characters of the
/// title (all of it when shorter), then the first 20 characters of the body
/// (all of it when shorter), in this frame.
pub proof fn lemma_summary_cuts_title_and_body(post: &Post)
    ensures
        ({
            let tn = if post.title@.len() <= 20 { post.title@.len() as int } else { 20 };
            let bn = if post.body@.len() <= 20 { post.body@.len() as int } else { 20 };
            post.summary() == "Post #"@ + decimal(post.id as nat) + ": Title: "@
                + post.title@.subrange(0, tn) + ", Body: "@ + post.body@.subrange(0, bn) + "..."@
        }),
{
    lemma_first_chars(post.title@, 20);
    lemma_first_chars(post.body@, 20);
}

} // verus!
