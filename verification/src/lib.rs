//! Posts from the JSONPlaceholder service: the data types, their one-line
//! summaries, the addresses they are fetched from, and the decisions that the
//! web handlers around them take (visitor counting, error responses, and the
//! cache-then-fetch flow of a post lookup).

pub mod decimal;
pub mod text;
pub mod ownership;
pub mod placeholder;
pub mod random;
pub mod structs_and_traits;
pub mod serialization;
pub mod concurrency;
pub mod web_framework;
pub mod shared_state;
pub mod database;
