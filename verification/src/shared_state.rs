//! The server whose routes share a visitor counter: the post it relays, its
//! summary, and what each route answers.

use vstd::prelude::*;

use crate::decimal::{decimal, push_decimal};
use crate::text::{first_chars, lemma_first_chars, push_first_chars};

verus! {

/// A blog post.
#[derive(Debug, Clone)]
pub struct Post {
    pub id: u32,
    pub title: String,
    pub body: String,
}

/// Something that can be told in one line.
pub trait Summary {
    /// The one-line summary of `self`.
    spec fn summary(&self) -> Seq<char>;

    /// Returns the one-line summary.
    fn summarize(&self) -> (line: String)
        ensures
            line@ == self.summary(),
    ;
}

impl Summary for Post {
    /// `Post #{id}: Title: {first 20 characters of title}..., Body: {first 20
    /// characters of body}...`
    open spec fn summary(&self) -> Seq<char> {
        "Post #"@ + decimal(self.id as nat) + ": Title: "@ + first_chars(self.title@, 20)
            + "..., Body: "@ + first_chars(self.body@, 20) + "..."@
    }

    fn summarize(&self) -> (line: String) {
        let mut line = String::new();
        line.append("Post #");
        push_decimal(&mut line, self.id);
        line.append(": Title: ");
        push_first_chars(&mut line, self.title.as_str(), 20);
        line.append("..., Body: ");
        push_first_chars(&mut line, self.body.as_str(), 20);
        line.append("...");
        line
    }
}

/// The greeting for visitor number `number`.
pub open spec fn visitor_greeting(number: nat) -> Seq<char> {
    "You are visitor number "@ + decimal(number) + "!"@
}

/// The root route: counts one more visitor and greets them with their number.
/// The counter must have room for one more visitor.
pub fn handler(count: &mut u32) -> (greeting: String)
    requires
        *old(count) < u32::MAX,
    ensures
        *final(count) == *old(count) + 1,
        greeting@ == visitor_greeting(*final(count) as nat),
        greeting@ == "You are visitor number "@ + decimal(*old(count) as nat + 1) + "!"@,
{
    *count = *count + 1;
    let mut greeting = String::new();
    greeting.append("You are visitor number ");
    push_decimal(&mut greeting, *count);
    greeting.append("!");
    greeting
}

/// The text of the health route.
pub fn health_check() -> (text: &'static str)
    ensures
        text@ == "OK"@,
{
    "OK"
}

/// The answer of the post route when fetching fails with the error text `reason`.
pub fn fetch_failure_message(reason: &str) -> (message: String)
    ensures
        message@ == "Failed to fetch post: "@ + reason@,
{
    let mut message = String::new();
    message.append("Failed to fetch post: ");
    message.append(reason);
    message
}

/// Greetings tell visitors apart: two greetings are the same text only for
/// the same visitor number, so the visitors counted one after the other by
/// `handler` all read different numbers.
pub proof fn lemma_greetings_distinct(a: nat, b: nat)
    requires
        visitor_greeting(a) == visitor_greeting(b),
    ensures
        a == b,
{
    reveal_strlit("!");
    let n = "You are visitor number "@.len();
    let ga = visitor_greeting(a);
    let gb = visitor_greeting(b);
    assert(ga.subrange(n as int, ga.len() - 1) =~= decimal(a));
    assert(gb.subrange(n as int, gb.len() - 1) =~= decimal(b));
    crate::decimal::lemma_decimal_injective(a, b);
}

/// The summary tells the id in decimal, then the first 20 characters of the
/// title (all of it when shorter), then the first 20 characters of the body
/// (all of it when shorter), in this frame.
pub proof fn lemma_summary_cuts_title_and_body(post: &Post)
    ensures
        ({
            let tn = if post.title@.len() <= 20 { post.title@.len() as int } else { 20 };
            let bn = if post.body@.len() <= 20 { post.body@.len() as int } else { 20 };
            post.summary() == "Post #"@ + decimal(post.id as nat) + ": Title: "@
                + post.title@.subrange(0, tn) + "..., Body: "@ + post.body@.subrange(0, bn) + "..."@
        }),
{
    lemma_first_chars(post.title@, 20);
    lemma_first_chars(post.body@, 20);
}

} // verus!
