//! The query parameters of the anime service's endpoints.

use vstd::prelude::*;

verus! {

/// Parameters of `/search`: the text to look for.
pub struct SearchQuery {
    pub q: String,
}

/// Parameters of `/episodes`: the show id.
pub struct EpisodesQuery {
    pub id: String,
}

/// Parameters of `/links` (and `/stream`): show id and episode string.
pub struct StreamQuery {
    pub id: String,
    pub episode: String,
}

} // verus!
