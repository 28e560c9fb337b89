//! The session log: one snapshot of a run's raw results is written next to
//! the corpus before merging. This module builds its file name from the
//! experiment's stem and a second-precision timestamp.

use vstd::prelude::*;
use vstd::string::StringExecFns;

verus! {

/// The session log's file name: the experiment stem, an underscore, the
/// timestamp, and the `.json` extension.
pub open spec fn log_file_name_spec(stem: Seq<char>, timestamp: Seq<char>) -> Seq<char> {
    stem + "_"@ + timestamp + ".json"@
}

/// Build the session log's file name.
pub fn log_file_name(stem: &str, timestamp: &str) -> (r: String)
    ensures
        r@ == log_file_name_spec(stem@, timestamp@),
{
    let mut s = stem.to_owned();
    s.append("_");
    s.append(timestamp);
    s.append(".json");
    s
}

} // verus!
