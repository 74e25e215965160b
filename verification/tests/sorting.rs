use tranquilo::sorting::{
    insert_sorted, into_newest_first, into_sorted_set, reversed, sort_by_key,
};
use tranquilo::tasks::{Task, TaskStatus};

fn strings(items: &[&str]) -> Vec<String> {
    items.iter().map(|s| s.to_string()).collect()
}

fn task(id: &str, text: &str) -> Task {
    Task {
        id: id.to_string(),
        text: text.to_string(),
        status: TaskStatus::Pending,
        timestamp: String::new(),
    }
}

#[test]
fn strings_are_sorted_lexicographically() {
    assert_eq!(
        sort_by_key(strings(&["pear", "Apple", "apple", "fig", "", "figs"])),
        strings(&["", "Apple", "apple", "fig", "figs", "pear"])
    );
    assert_eq!(sort_by_key(Vec::<String>::new()), Vec::<String>::new());
}

#[test]
fn sorting_agrees_with_the_standard_sort() {
    let input = strings(&["d", "b", "a", "c", "b", "é", "Z", "a", "10", "9"]);
    let mut expected = input.clone();
    expected.sort();
    assert_eq!(sort_by_key(input), expected);
}

#[test]
fn equal_keys_keep_their_order() {
    let sorted = sort_by_key(vec![task("2", "x"), task("1", "a"), task("2", "y"), task("1", "b")]);
    let texts: Vec<&str> = sorted.iter().map(|t| t.text.as_str()).collect();
    assert_eq!(texts, vec!["a", "b", "x", "y"]);
}

#[test]
fn insertion_goes_before_equal_keys() {
    let mut v = vec![task("1", "a"), task("3", "c"), task("3", "d")];
    insert_sorted(&mut v, task("3", "new"));
    insert_sorted(&mut v, task("0", "first"));
    insert_sorted(&mut v, task("9", "last"));
    let texts: Vec<&str> = v.iter().map(|t| t.text.as_str()).collect();
    assert_eq!(texts, vec!["first", "a", "new", "c", "d", "last"]);
}

#[test]
fn newest_first_drops_repeated_keys() {
    let out = into_newest_first(vec![task("1", "a"), task("2", "b"), task("2", "c"), task("3", "d")]);
    let seen: Vec<(&str, &str)> = out.iter().map(|t| (t.id.as_str(), t.text.as_str())).collect();
    assert_eq!(seen, vec![("3", "d"), ("2", "c"), ("1", "a")]);
    assert_eq!(into_newest_first(Vec::<String>::new()), Vec::<String>::new());
}

#[test]
fn reversal() {
    assert_eq!(reversed(strings(&["a", "b", "c"])), strings(&["c", "b", "a"]));
    assert_eq!(reversed(Vec::<String>::new()), Vec::<String>::new());
}

#[test]
fn sorted_set_holds_each_key_once() {
    assert_eq!(
        into_sorted_set(strings(&["b", "a", "c", "a", "b", "a"])),
        strings(&["a", "b", "c"])
    );
    let tasks = into_sorted_set(vec![task("2", "x"), task("1", "a"), task("2", "y")]);
    let seen: Vec<(&str, &str)> = tasks.iter().map(|t| (t.id.as_str(), t.text.as_str())).collect();
    assert_eq!(seen, vec![("1", "a"), ("2", "y")]);
}
