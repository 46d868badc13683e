//! A post read from the JSON that the placeholder service sends.

use vstd::prelude::*;

use crate::text::{byte_len, byte_prefix, lemma_byte_prefix, on_char_boundary, str_byte_prefix};

verus! {

/// A blog post as the service describes it.
#[derive(Debug)]
pub struct Post {
    pub id: u32,
    pub title: String,
    pub body: String,
}

impl Post {
    /// `&post.body[..20]`: the first 20 bytes of the body, which must have at
    /// least 20 bytes with a character boundary after the twentieth.
    pub fn body_preview(&self) -> (preview: &str)
        requires
            20 <= byte_len(self.body@),
            on_char_boundary(self.body@, 20),
        ensures
            preview@ == byte_prefix(self.body@, 20),
            preview@.is_prefix_of(self.body@),
            byte_len(preview@) == 20,
    {
        proof {
            lemma_byte_prefix(self.body@, 20);
        }
        str_byte_prefix(self.body.as_str(), 20)
    }
}

} // verus!
