use vstd::prelude::*;

use crate::text::{join_strings, join_with};

verus! {

/// The configured settings: how many posts to fetch, the ordered search
/// terms, and the blocklist patterns. Loading and validating the
/// configuration document is outside this library; it hands the parsed
/// values in.
pub struct Config {
    pub search_count: u32,
    pub search_terms: Vec<String>,
    pub black_list: Vec<String>,
}

/// The search query: the configured terms joined with single spaces.
pub fn build_query(config: &Config) -> (r: String)
    ensures
        r@ == join_with(config.search_terms@.map_values(|t: String| t@), " "@),
{
    join_strings(&config.search_terms, " ")
}

} // verus!
