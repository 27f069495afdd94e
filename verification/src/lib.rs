//! A small line-oriented text-search library: a validated search
//! configuration, substring matching over the lines of a text, and a
//! case-folded variant of the same search, together with a few verified
//! general-purpose helpers.

mod config;
mod extremes;
mod fold;
mod geometry;
mod gh;
mod lines;
mod search;
mod summary;
mod text;

pub use config::Config;
pub use config::ConfigError;
pub use extremes::largest;
pub use extremes::largest_char;
pub use extremes::largest_gen;
pub use fold::fold_lower;
pub use geometry::Point;
pub use geometry::Rectangle;
pub use gh::find_gh_token;
pub use gh::is_gh_token;
pub use lines::split_lines;
pub use search::search;
pub use search::search_case_insensetive;
pub use search::search_with;
pub use summary::BlogPost;
pub use summary::NewsArticle;
pub use summary::Summary;
pub use summary::Tweet;
pub use summary::summarize_caller;
pub use summary::tweet_summarize_fn;
pub use text::contains_str;
pub use text::first_word;
pub use text::first_word_idx;
pub use text::str_eq;
