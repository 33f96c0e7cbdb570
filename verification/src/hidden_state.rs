//! The permanently hidden items, kept across restarts. Items are
//! identified by match conditions rather than object ids, since object ids
//! never survive a restart.
use vstd::prelude::*;

use crate::config::MatchCondition;

verus! {

/// The match conditions of the permanently hidden items.
#[derive(Debug)]
pub struct HiddenState {
    pub hidden: Vec<MatchCondition>,
}

impl Default for HiddenState {
    /// No item hidden: the state before anything was ever hidden.
    fn default() -> (r: Self)
        ensures
            r.hidden@.len() == 0,
    {
        HiddenState { hidden: Vec::new() }
    }
}

} // verus!
