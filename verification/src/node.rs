//! Discovery of the interpreter that runs the bundled server.

use vstd::prelude::*;
use vstd::string::*;

verus! {

/// The well-known installation paths of the interpreter, in the order in
/// which they are tried.
pub open spec fn node_candidates() -> Seq<Seq<char>> {
    seq!["/opt/homebrew/bin/node"@, "/usr/local/bin/node"@, "/usr/bin/node"@]
}

/// The bare command name, left to the inherited search path to resolve.
pub open spec fn fallback_node() -> Seq<char> {
    "node"@
}

/// The interpreter chosen when candidates from index `from` on are still to
/// be considered and `present[i]` tells whether candidate `i` was found on
/// disk. A candidate without an entry in `present` counts as absent.
pub open spec fn selected_from(present: Seq<bool>, from: int) -> Seq<char>
    decreases node_candidates().len() - from,
{
    if from < 0 || from >= node_candidates().len() {
        fallback_node()
    } else if from < present.len() && present[from] {
        node_candidates()[from]
    } else {
        selected_from(present, from + 1)
    }
}

/// The interpreter chosen for the given probe results: the first candidate
/// that is present, and the bare command name when none is.
pub open spec fn selected_node(present: Seq<bool>) -> Seq<char> {
    selected_from(present, 0)
}

/// Whether candidate `index` is present and no candidate before it is.
pub open spec fn first_present(present: Seq<bool>, index: int) -> bool {
    &&& 0 <= index < present.len()
    &&& index < node_candidates().len()
    &&& present[index]
    &&& forall|j: int| 0 <= j < index ==> !present[j]
}

/// Whether no candidate is present.
pub open spec fn none_present(present: Seq<bool>) -> bool {
    forall|j: int| 0 <= j < present.len() && j < node_candidates().len() ==> !present[j]
}

/// The first candidate that is present is the one selected.
pub proof fn lemma_first_present_is_selected(present: Seq<bool>, index: int)
    requires
        first_present(present, index),
    ensures
        selected_node(present) == node_candidates()[index],
{
    reveal_with_fuel(selected_from, 4);
}

/// Where no candidate is present, the bare command name is selected.
pub proof fn lemma_none_present_falls_back(present: Seq<bool>)
    requires
        none_present(present),
    ensures
        selected_node(present) == fallback_node(),
{
    reveal_with_fuel(selected_from, 4);
}

/// Whatever the probes say, the selection is one of the candidates or the
/// bare command name.
pub proof fn lemma_selected_is_known(present: Seq<bool>)
    ensures
        selected_node(present) == fallback_node() || exists|index: int|
            0 <= index < node_candidates().len() && selected_node(present)
                == #[trigger] node_candidates()[index],
{
    reveal_with_fuel(selected_from, 4);
}

/// Number of candidate paths.
pub fn candidate_count() -> (n: usize)
    ensures
        n == node_candidates().len(),
{
    3
}

/// The candidate path at position `index`.
pub fn node_candidate(index: usize) -> (path: &'static str)
    requires
        index < node_candidates().len(),
    ensures
        path@ == node_candidates()[index as int],
{
    if index == 0 {
        "/opt/homebrew/bin/node"
    } else if index == 1 {
        "/usr/local/bin/node"
    } else {
        "/usr/bin/node"
    }
}

/// Picks the interpreter from the probe results of the candidates.
pub fn select_node(present: &Vec<bool>) -> (node: String)
    ensures
        node@ == selected_node(present@),
{
    let mut index: usize = 0;
    while index < candidate_count()
        invariant
            index <= node_candidates().len(),
            selected_node(present@) == selected_from(present@, index as int),
        decreases node_candidates().len() - index,
    {
        if index < present.len() && present[index] {
            return String::from_str(node_candidate(index));
        }
        index += 1;
    }
    String::from_str("node")
}

/// Whether something exists at `path`, by `std::path::Path::exists`. The
/// answer depends on the disk at the moment of the call, so nothing is
/// claimed of it.
#[verifier::external_body]
fn path_exists(path: &str) -> (present: bool) {
    std::path::Path::new(path).exists()
}

/// Finds the interpreter on this machine: probes the candidates in order,
/// stops at the first one that exists, and falls back to the bare command
/// name. Whatever the disk holds, the result is what `select_node` gives for
/// some outcome of the probes.
pub fn find_node() -> (node: String)
    ensures
        exists|present: Seq<bool>|
            present.len() <= node_candidates().len() && node@ == #[trigger] selected_node(present),
{
    let mut probes: Vec<bool> = Vec::new();
    let mut hit = false;
    while !hit && probes.len() < candidate_count()
        invariant
            probes.len() <= node_candidates().len(),
        decreases node_candidates().len() - probes.len(),
    {
        hit = path_exists(node_candidate(probes.len()));
        probes.push(hit);
    }
    select_node(&probes)
}

} // verus!
