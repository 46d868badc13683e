use rust_tour::concurrency;
use rust_tour::serialization;
use rust_tour::shared_state;
use rust_tour::structs_and_traits::{Post, Summary};
use rust_tour::web_framework;

#[test]
fn constructor_keeps_fields() {
    let post = Post::new(7, String::from("t"), String::from("b"));
    assert_eq!(post.id, 7);
    assert_eq!(post.title, "t");
    assert_eq!(post.body, "b");
}

#[test]
fn struct_summary_cuts_body_at_twenty_bytes() {
    let post = Post::new(
        1,
        String::from("Rust on M4"),
        String::from("Testing the M4 performance."),
    );
    assert_eq!(
        post.summarize(),
        "(Post #1) Title: Rust on M4, Body: Testing the M4 perfo..."
    );
}

#[test]
fn struct_summary_keeps_short_body() {
    let post = Post::new(12, String::from("A long title that is not cut at all"), String::from("short"));
    assert_eq!(
        post.summarize(),
        "(Post #12) Title: A long title that is not cut at all, Body: short..."
    );
}

#[test]
fn struct_summary_cuts_at_boundary_of_multibyte_text() {
    // 9 two-byte characters and two ASCII ones: byte 20 ends a character.
    let post = Post::new(3, String::from("x"), String::from("ab\u{e9}\u{e9}\u{e9}\u{e9}\u{e9}\u{e9}\u{e9}\u{e9}\u{e9}zzz"));
    assert_eq!(
        post.summarize(),
        "(Post #3) Title: x, Body: ab\u{e9}\u{e9}\u{e9}\u{e9}\u{e9}\u{e9}\u{e9}\u{e9}\u{e9}..."
    );
}

#[test]
fn struct_summary_stops_before_a_split_character() {
    let post = Post::new(4, String::from("t"), format!("{}\u{e9}xyz", "a".repeat(19)));
    assert_eq!(
        post.summarize(),
        format!("(Post #4) Title: t, Body: {}...", "a".repeat(19))
    );
    let post = Post::new(5, String::from("t"), format!("{}\u{1F600}", "a".repeat(18)));
    assert_eq!(
        post.summarize(),
        format!("(Post #5) Title: t, Body: {}...", "a".repeat(18))
    );
}

#[test]
fn sample_post_summary() {
    let post = web_framework::get_sample_post();
    assert_eq!(post.id, 42);
    assert_eq!(post.title, "Learning Axum");
    assert_eq!(post.body, "The M4 silicon handles this with zero effort.");
    assert_eq!(
        web_framework::Summary::summarize(&post),
        "Post #42: Title: Learning Axum, Body: The M4 silicon handl..."
    );
}

#[test]
fn web_summary_cuts_by_characters() {
    let post = web_framework::Post {
        id: 5,
        title: "\u{e9}".repeat(25),
        body: String::from("b"),
    };
    assert_eq!(
        web_framework::Summary::summarize(&post),
        format!("Post #5: Title: {}, Body: b...", "\u{e9}".repeat(20))
    );
}

#[test]
fn shared_state_summary_marks_title_and_body() {
    let post = shared_state::Post {
        id: 1,
        title: String::from("sunt aut facere repellat provident occaecati"),
        body: String::from("quia et suscipit"),
    };
    assert_eq!(
        shared_state::Summary::summarize(&post),
        "Post #1: Title: sunt aut facere repe..., Body: quia et suscipit..."
    );
}

#[test]
fn plain_routes_answer_fixed_texts() {
    assert_eq!(web_framework::handler(), "Hello, you are running an Axum server!");
    assert_eq!(web_framework::health_check(), "OK");
    assert_eq!(shared_state::health_check(), "OK");
}

#[test]
fn body_preview_is_first_twenty_bytes() {
    let post = serialization::Post {
        id: 1,
        title: String::from("t"),
        body: String::from("quia et suscipit\nsuscipit recusandae"),
    };
    assert_eq!(post.body_preview(), "quia et suscipit\nsus");
}

#[test]
fn headline_of_fetched_post() {
    let post = concurrency::Post { id: 3, title: String::from("ea molestias") };
    assert_eq!(post.headline(), "(Post #3): Title: ea molestias");
}

#[test]
fn visitors_are_counted_one_by_one() {
    let mut count = 0u32;
    assert_eq!(shared_state::handler(&mut count), "You are visitor number 1!");
    assert_eq!(count, 1);
    assert_eq!(shared_state::handler(&mut count), "You are visitor number 2!");
    assert_eq!(count, 2);
    let mut count = 99u32;
    assert_eq!(shared_state::handler(&mut count), "You are visitor number 100!");
}

#[test]
fn fetch_failure_is_reported_with_its_reason() {
    assert_eq!(
        shared_state::fetch_failure_message("timed out"),
        "Failed to fetch post: timed out"
    );
}
