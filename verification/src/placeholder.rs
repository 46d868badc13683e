//! Addresses of posts on the JSONPlaceholder service.

use vstd::prelude::*;

use crate::decimal::{decimal, lemma_decimal_injective, push_decimal};

verus! {

/// The address that every post address starts with.
pub open spec fn posts_base() -> Seq<char> {
    "https://jsonplaceholder.typicode.com/posts/"@
}

/// The address of post `id`: the posts collection followed by the id in decimal.
pub open spec fn spec_post_url(id: u32) -> Seq<char> {
    posts_base() + decimal(id as nat)
}

/// `https://jsonplaceholder.typicode.com/posts/{id}`.
pub fn post_url(id: u32) -> (url: String)
    ensures
        url@ == spec_post_url(id),
        url@ == "https://jsonplaceholder.typicode.com/posts/"@ + decimal(id as nat),
{
    let mut url = String::new();
    url.append("https://jsonplaceholder.typicode.com/posts/");
    push_decimal(&mut url, id);
    url
}

/// Two ids share an address only if they are the same id: each post has an
/// address of its own.
pub proof fn lemma_post_url_injective(a: u32, b: u32)
    requires
        spec_post_url(a) == spec_post_url(b),
    ensures
        a == b,
{
    let n = posts_base().len();
    assert(spec_post_url(a).skip(n as int) =~= decimal(a as nat));
    assert(spec_post_url(b).skip(n as int) =~= decimal(b as nat));
    lemma_decimal_injective(a as nat, b as nat);
}

} // verus!
