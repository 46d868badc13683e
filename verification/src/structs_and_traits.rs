//! A post as a plain struct, with a constructor and a summary trait.

use vstd::prelude::*;

use crate::decimal::{decimal, push_decimal};
use crate::text::{
    boundary_at_or_before, byte_len, byte_prefix, last_boundary_at_or_before, lemma_boundary_at_or_before,
    lemma_byte_prefix, on_char_boundary, str_byte_prefix,
};

verus! {

/// A blog post.
pub struct Post {
    pub id: u32,
    pub title: String,
    pub body: String,
}

impl Post {
    /// Creates a post from its three fields.
    pub fn new(id: u32, title: String, body: String) -> (post: Self)
        ensures
            post.id == id,
            post.title@ == title@,
            post.body@ == body@,
    {
        Self { id, title, body }
    }

    /// Where a summary would like to cut the body: after the whole body, or
    /// after its first 20 bytes when it is longer.
    pub open spec fn body_end(&self) -> nat {
        if byte_len(self.body@) < 20 {
            byte_len(self.body@)
        } else {
            20
        }
    }

    /// How many bytes of the body a summary shows: the safe end point, which
    /// is the last character boundary at or before [`Post::body_end`].
    pub open spec fn body_cut(&self) -> nat {
        boundary_at_or_before(self.body@, self.body_end())
    }
}

/// Something that can be told in one line.
pub trait Summary {
    /// The one-line summary of `self`.
    spec fn summary(&self) -> Seq<char>;

    /// Returns the one-line summary.
    fn summarize(&self) -> (line: String)
        ensures
            line@ == self.summary(),
    ;
}

impl Summary for Post {
    /// `(Post #{id}) Title: {title}, Body: {body up to its safe end point}...`
    open spec fn summary(&self) -> Seq<char> {
        "(Post #"@ + decimal(self.id as nat) + ") Title: "@ + self.title@ + ", Body: "@
            + byte_prefix(self.body@, self.body_cut()) + "..."@
    }

    fn summarize(&self) -> (line: String) {
        let body_len = self.body.as_str().as_bytes().len();
        let body_end = if body_len < 20 {
            body_len
        } else {
            20
        };
        let body_end = last_boundary_at_or_before(self.body.as_str(), body_end);
        proof {
            lemma_boundary_at_or_before(self.body@, self.body_end());
        }
        let mut line = String::new();
        line.append("(Post #");
        push_decimal(&mut line, self.id);
        line.append(") Title: ");
        line.append(self.title.as_str());
        line.append(", Body: ");
        line.append(str_byte_prefix(self.body.as_str(), body_end));
        line.append("...");
        line
    }
}

/// The body shown in a summary is the start of the body, cut at a character
/// boundary: all of it when it has at most 20 bytes; else as many of its first
/// 20 bytes as end on a character boundary, which is all 20 of them whenever
/// byte 20 is a boundary.
pub proof fn lemma_summary_shows_start_of_body(post: &Post)
    ensures
        byte_prefix(post.body@, post.body_cut()).is_prefix_of(post.body@),
        byte_len(byte_prefix(post.body@, post.body_cut())) == post.body_cut(),
        post.body_cut() <= 20,
        forall|j: nat|
            post.body_cut() < j <= post.body_end() ==> !#[trigger] on_char_boundary(post.body@, j),
        byte_len(post.body@) <= 20 ==> byte_prefix(post.body@, post.body_cut()) == post.body@,
        on_char_boundary(post.body@, 20) ==> post.body_cut() == post.body_end(),
{
    lemma_boundary_at_or_before(post.body@, post.body_end());
    lemma_byte_prefix(post.body@, post.body_cut());
    if byte_len(post.body@) <= 20 {
        vstd::utf8::encode_utf8_valid_utf8(post.body@);
        vstd::utf8::is_char_boundary_start_end_of_seq(vstd::utf8::encode_utf8(post.body@));
        assert(post.body_cut() == byte_len(post.body@));
        vstd::utf8::encode_utf8_decode_utf8(post.body@);
        assert(vstd::utf8::encode_utf8(post.body@).take(byte_len(post.body@) as int)
            =~= vstd::utf8::encode_utf8(post.body@));
    }
}


/// What a summary is, read off the summary itself: the id in decimal and the
/// whole title in a fixed frame, then a piece of the body, then `...`. The
/// piece is the start of the body and ends on a character boundary, at or
/// before byte 20 (or the end of a shorter body), with no character boundary
/// between it and that byte; so it is the whole of a body of at most 20 bytes,
/// and exactly the first 20 bytes when byte 20 is a boundary.
pub proof fn lemma_summary_frame(post: &Post)
    ensures
        ({
            let head = "(Post #"@ + decimal(post.id as nat) + ") Title: "@ + post.title@
                + ", Body: "@;
            let end: nat = if byte_len(post.body@) <= 20 { byte_len(post.body@) } else { 20 };
            let shown = post.summary().subrange(head.len() as int, post.summary().len() - 3);
            &&& post.summary() == head + shown + "..."@
            &&& shown.is_prefix_of(post.body@)
            &&& byte_len(shown) <= end
            &&& on_char_boundary(post.body@, byte_len(shown))
            &&& forall|j: nat|
                byte_len(shown) < j <= end ==> !#[trigger] on_char_boundary(post.body@, j)
            &&& (byte_len(post.body@) >= 20 && on_char_boundary(post.body@, 20)) ==> byte_len(
                shown,
            ) == 20
            &&& byte_len(post.body@) <= 20 ==> shown == post.body@
        }),
{
    reveal_strlit("...");
    lemma_summary_shows_start_of_body(post);
    lemma_boundary_at_or_before(post.body@, post.body_end());
    let head = "(Post #"@ + decimal(post.id as nat) + ") Title: "@ + post.title@ + ", Body: "@;
    let piece = byte_prefix(post.body@, post.body_cut());
    assert(post.summary() =~= head + piece + "..."@);
    let shown = post.summary().subrange(head.len() as int, post.summary().len() - 3);
    assert(shown =~= piece);
}

} // verus!
