use clemen::data::{is_taken, Data, Proposal, Withdrawal};

fn names(data: &Data) -> Vec<String> {
    data.queue.iter().map(|p| p.name.clone()).collect()
}

#[test]
fn default_data_is_empty() {
    let data = Data::default();
    assert!(data.music.is_empty());
    assert!(data.queue.is_empty());
}

#[test]
fn proposals_keep_their_order() {
    let mut data = Data::default();
    assert!(data.add("Rocky Horror Picture Show".to_string(), "Ana".to_string()));
    assert!(data.add("Heat".to_string(), "Beto".to_string()));
    assert_eq!(names(&data), vec!["Rocky Horror Picture Show", "Heat"]);
    assert_eq!(data.queue[1].user, "Beto");
}

#[test]
fn a_film_is_proposed_once() {
    let mut data = Data::default();
    assert!(data.add("Heat".to_string(), "Ana".to_string()));
    assert!(!data.add("Heat".to_string(), "Beto".to_string()));
    assert!(!data.add("  hEAT \n".to_string(), "Beto".to_string()));
    assert_eq!(names(&data), vec!["Heat"]);
    assert_eq!(data.queue[0].user, "Ana");
}

#[test]
fn names_fold_case_in_other_alphabets_too() {
    let mut data = Data::default();
    assert!(data.add("ÁRBOL".to_string(), "Ana".to_string()));
    assert!(!data.add("árbol\u{3000}".to_string(), "Ana".to_string()));
    assert!(data.add("arbol".to_string(), "Ana".to_string()));
    assert_eq!(names(&data), vec!["ÁRBOL", "arbol"]);
}

#[test]
fn white_space_inside_a_name_counts() {
    let mut data = Data::default();
    assert!(data.add("Die Hard".to_string(), "Ana".to_string()));
    assert!(data.add("Die  Hard".to_string(), "Ana".to_string()));
    assert_eq!(data.queue.len(), 2);
}

#[test]
fn lowered_names_are_compared_without_surrounding_space() {
    let lowered = vec!["heat".to_string(), " up ".to_string()];
    assert!(is_taken(&lowered, "up"));
    assert!(is_taken(&lowered, "\theat"));
    assert!(!is_taken(&lowered, "Heat"));
    assert!(!is_taken(&lowered, ""));
    assert!(!is_taken(&Vec::new(), "heat"));
}

#[test]
fn withdrawing_undoes_proposing() {
    let mut data = Data::default();
    data.add("Up".to_string(), "Ana".to_string());
    data.add("Heat".to_string(), "Beto".to_string());
    assert_eq!(data.withdraw("Heat", "Beto"), Withdrawal::Removed);
    assert_eq!(names(&data), vec!["Up"]);
}

#[test]
fn withdrawing_needs_the_exact_name_and_the_same_user() {
    let mut data = Data::default();
    data.add("Up".to_string(), "Ana".to_string());
    assert_eq!(data.withdraw("up", "Ana"), Withdrawal::Unknown);
    assert_eq!(data.withdraw("Up", "Beto"), Withdrawal::NotYours);
    assert_eq!(names(&data), vec!["Up"]);
    assert_eq!(data.withdraw("Up", "Ana"), Withdrawal::Removed);
    assert!(data.queue.is_empty());
    assert_eq!(data.withdraw("Up", "Ana"), Withdrawal::Unknown);
}

#[test]
fn only_the_first_proposal_with_a_name_is_withdrawn() {
    let mut data = Data::default();
    data.queue.push(Proposal::new("Up".to_string(), "Ana".to_string()));
    data.queue.push(Proposal::new("Up".to_string(), "Beto".to_string()));
    assert_eq!(data.withdraw("Up", "Beto"), Withdrawal::NotYours);
    assert_eq!(data.withdraw("Up", "Ana"), Withdrawal::Removed);
    assert_eq!(data.queue.len(), 1);
    assert_eq!(data.queue[0].user, "Beto");
}

#[test]
fn clearing_hands_out_the_queue() {
    let mut data = Data::default();
    data.add("Up".to_string(), "Ana".to_string());
    data.add("Heat".to_string(), "Beto".to_string());
    let queue = data.clear();
    assert_eq!(queue.len(), 2);
    assert_eq!(queue[0].name, "Up");
    assert_eq!(queue[1].user, "Beto");
    assert!(data.queue.is_empty());
    assert!(data.add("UP".to_string(), "Beto".to_string()));
}
