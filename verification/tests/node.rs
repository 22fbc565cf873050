use server_supervisor::node::{candidate_count, find_node, node_candidate, select_node};

#[test]
fn candidates_are_listed_in_order() {
    assert_eq!(candidate_count(), 3);
    assert_eq!(node_candidate(0), "/opt/homebrew/bin/node");
    assert_eq!(node_candidate(1), "/usr/local/bin/node");
    assert_eq!(node_candidate(2), "/usr/bin/node");
}

#[test]
fn no_candidate_present_falls_back_to_bare_name() {
    assert_eq!(select_node(&vec![false, false, false]), "node");
}

#[test]
fn no_probe_at_all_falls_back_to_bare_name() {
    assert_eq!(select_node(&Vec::new()), "node");
}

#[test]
fn first_present_candidate_wins() {
    assert_eq!(select_node(&vec![true, true, true]), "/opt/homebrew/bin/node");
    assert_eq!(select_node(&vec![true, false, false]), "/opt/homebrew/bin/node");
    assert_eq!(select_node(&vec![false, true, true]), "/usr/local/bin/node");
    assert_eq!(select_node(&vec![false, true, false]), "/usr/local/bin/node");
    assert_eq!(select_node(&vec![false, false, true]), "/usr/bin/node");
}

#[test]
fn missing_probe_results_count_as_absent() {
    assert_eq!(select_node(&vec![true]), "/opt/homebrew/bin/node");
    assert_eq!(select_node(&vec![false]), "node");
    assert_eq!(select_node(&vec![false, true]), "/usr/local/bin/node");
}

#[test]
fn probe_results_beyond_the_candidates_are_ignored() {
    assert_eq!(select_node(&vec![false, false, false, true]), "node");
    assert_eq!(select_node(&vec![false, false, true, true]), "/usr/bin/node");
}

#[test]
fn find_node_returns_a_candidate_or_the_bare_name() {
    let node = find_node();
    let known = ["/opt/homebrew/bin/node", "/usr/local/bin/node", "/usr/bin/node", "node"];
    assert!(known.contains(&node.as_str()));
}

#[test]
fn find_node_agrees_with_the_disk() {
    let node = find_node();
    let mut expected = String::from("node");
    for index in 0..candidate_count() {
        if std::path::Path::new(node_candidate(index)).exists() {
            expected = String::from(node_candidate(index));
            break;
        }
    }
    assert_eq!(node, expected);
}
