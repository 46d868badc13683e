use rust_tour::ownership::calculate_length;
use rust_tour::placeholder::post_url;
use rust_tour::random::{lucky_number, random_post_id};

#[test]
fn length_counts_bytes() {
    let s = String::from("hello");
    assert_eq!(calculate_length(&s), 5);
    assert_eq!(s, "hello");
}

#[test]
fn length_of_non_ascii_text_counts_bytes() {
    assert_eq!(calculate_length(&String::from("héllo")), 6);
    assert_eq!(calculate_length(&String::new()), 0);
}

#[test]
fn url_of_single_digit_id() {
    assert_eq!(post_url(1), "https://jsonplaceholder.typicode.com/posts/1");
}

#[test]
fn url_of_zero_and_large_ids() {
    assert_eq!(post_url(0), "https://jsonplaceholder.typicode.com/posts/0");
    assert_eq!(post_url(100), "https://jsonplaceholder.typicode.com/posts/100");
    assert_eq!(
        post_url(u32::MAX),
        "https://jsonplaceholder.typicode.com/posts/4294967295"
    );
}

#[test]
fn urls_of_distinct_ids_differ() {
    assert_ne!(post_url(12), post_url(21));
    assert_ne!(post_url(1), post_url(10));
}

#[test]
fn lucky_numbers_stay_between_one_and_hundred() {
    let mut seen_high = false;
    for _ in 0..2000 {
        let n = lucky_number();
        assert!((1..=100).contains(&n));
        if n > 50 {
            seen_high = true;
        }
    }
    assert!(seen_high);
}

#[test]
fn random_post_ids_stay_between_one_and_nine() {
    let mut seen = [false; 10];
    for _ in 0..2000 {
        let id = random_post_id();
        assert!((1..=9).contains(&id));
        seen[id as usize] = true;
    }
    assert!(seen[1..].iter().filter(|b| **b).count() > 1);
}
