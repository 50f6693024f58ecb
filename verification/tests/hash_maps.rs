use rust_primer::hash_maps::{
    accessing_hashmap_values, create_hashmap_with_collect, create_new_hashmap,
    insert_if_key_not_exist, overwriting_value, update_value_based_on_old_value, Scores,
};

fn listed(scores: &Scores) -> Vec<(&str, i32)> {
    let mut list: Vec<(&str, i32)> =
        scores.entries().iter().map(|(name, score)| (name.as_str(), *score)).collect();
    list.sort();
    list
}

#[test]
fn new_table_is_empty() {
    let scores = Scores::new();
    assert!(scores.entries().is_empty());
    assert_eq!(scores.get(&String::from("Blue")), None);
}

#[test]
fn inserted_scores_can_be_read() {
    let mut scores = Scores::new();
    assert_eq!(scores.insert(String::from("Blue"), 10), None);
    assert_eq!(scores.insert(String::from("Yellow"), 50), None);
    let team_name = String::from("Blue");
    assert_eq!(scores.get(&team_name), Some(10));
    assert_eq!(scores.get(&String::from("Yellow")), Some(50));
    assert_eq!(scores.get(&String::from("Red")), None);
    assert_eq!(scores.get(&String::from("blue")), None);
    assert_eq!(listed(&scores), vec![("Blue", 10), ("Yellow", 50)]);
}

#[test]
fn inserting_again_overwrites_the_score() {
    let mut scores = Scores::new();
    assert_eq!(scores.insert(String::from("Blue"), 10), None);
    assert_eq!(scores.insert(String::from("Blue"), 25), Some(10));
    assert_eq!(scores.get(&String::from("Blue")), Some(25));
    assert_eq!(listed(&scores), vec![("Blue", 25)]);
}

#[test]
fn or_insert_only_fills_a_gap() {
    let mut scores = Scores::new();
    scores.insert(String::from("Blue"), 10);
    assert_eq!(scores.or_insert(String::from("Yellow"), 50), 50);
    assert_eq!(scores.or_insert(String::from("Blue"), 50), 10);
    assert_eq!(listed(&scores), vec![("Blue", 10), ("Yellow", 50)]);
}

fn words(text: &str) -> Vec<String> {
    text.split_whitespace().map(String::from).collect()
}

#[test]
fn words_are_counted() {
    let map = update_value_based_on_old_value(&words("hello world wonderful world"));
    assert_eq!(map.get(&String::from("hello")), Some(1));
    assert_eq!(map.get(&String::from("world")), Some(2));
    assert_eq!(map.get(&String::from("wonderful")), Some(1));
    assert_eq!(map.get(&String::from("absent")), None);
    assert_eq!(listed(&map), vec![("hello", 1), ("wonderful", 1), ("world", 2)]);
}

#[test]
fn no_words_give_an_empty_table() {
    let map = update_value_based_on_old_value(&Vec::new());
    assert!(map.entries().is_empty());
}

#[test]
fn one_word_many_times_is_one_entry() {
    let map = update_value_based_on_old_value(&words("a a a a a a a"));
    assert_eq!(listed(&map), vec![("a", 7)]);
}

#[test]
fn two_lists_are_collected_side_by_side() {
    let teams = vec![String::from("Blue"), String::from("Yellow")];
    let initial_scores = vec![10, 50];
    let scores = create_hashmap_with_collect(&teams, &initial_scores);
    assert_eq!(listed(&scores), vec![("Blue", 10), ("Yellow", 50)]);
}

#[test]
fn collecting_stops_with_the_shorter_list() {
    let teams = vec![String::from("Blue"), String::from("Yellow"), String::from("Red")];
    assert_eq!(listed(&create_hashmap_with_collect(&teams, &vec![1])), vec![("Blue", 1)]);
    assert_eq!(
        listed(&create_hashmap_with_collect(&teams[..2].to_vec(), &vec![1, 2, 3])),
        vec![("Blue", 1), ("Yellow", 2)]
    );
    assert!(create_hashmap_with_collect(&Vec::new(), &vec![1]).entries().is_empty());
}

#[test]
fn collecting_a_name_twice_keeps_its_last_score() {
    let teams = vec![String::from("Blue"), String::from("Yellow"), String::from("Blue")];
    let scores = create_hashmap_with_collect(&teams, &vec![10, 50, 30]);
    assert_eq!(listed(&scores), vec![("Blue", 30), ("Yellow", 50)]);
}

#[test]
fn table_of_the_two_teams() {
    assert_eq!(listed(&create_new_hashmap()), vec![("Blue", 10), ("Yellow", 50)]);
}

#[test]
fn score_of_the_blue_team_is_ten() {
    assert_eq!(accessing_hashmap_values(), Some(10));
}

#[test]
fn second_score_replaces_the_first() {
    assert_eq!(listed(&overwriting_value()), vec![("Blue", 25)]);
}

#[test]
fn only_the_team_without_a_score_gets_one() {
    assert_eq!(listed(&insert_if_key_not_exist()), vec![("Blue", 10), ("Yellow", 50)]);
}
