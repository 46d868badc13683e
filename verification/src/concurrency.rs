//! A post fetched by one of several concurrent tasks.

use vstd::prelude::*;

use crate::decimal::{decimal, push_decimal};

verus! {

/// A post as the concurrent fetchers read it: its id and title.
#[derive(Debug, Clone)]
pub struct Post {
    pub id: u32,
    pub title: String,
}

impl Post {
    /// `(Post #{id}): Title: {title}`, the line reported for a fetched post.
    pub fn headline(&self) -> (line: String)
        ensures
            line@ == "(Post #"@ + decimal(self.id as nat) + "): Title: "@ + self.title@,
    {
        let mut line = String::new();
        line.append("(Post #");
        push_decimal(&mut line, self.id);
        line.append("): Title: ");
        line.append(self.title.as_str());
        line
    }
}

} // verus!
