use swaynimated::natural::{arrange, natural_order, natural_precedes, sort_naturally};

fn names(list: &[&str]) -> Vec<String> {
    list.iter().map(|name| String::from(*name)).collect()
}

#[test]
fn natural_sort_of_frames() {
    let sorted = sort_naturally(&names(&["frame1", "frame2", "frame10"]));
    assert_eq!(sorted.names, names(&["frame1", "frame2", "frame10"]));
    assert_eq!(sorted.order, vec![0, 1, 2]);
}

#[test]
fn natural_sort_is_not_lexicographic() {
    let sorted = sort_naturally(&names(&["frame1", "frame10", "frame2"]));
    assert_eq!(sorted.names, names(&["frame1", "frame2", "frame10"]));
    assert_eq!(sorted.order, vec![0, 2, 1]);
}

#[test]
fn natural_sort_of_numbered_documents() {
    let sorted = sort_naturally(&names(&["rfc2086.txt", "rfc822.txt", "rfc1.txt"]));
    assert_eq!(sorted.names, names(&["rfc1.txt", "rfc822.txt", "rfc2086.txt"]));
    assert_eq!(sorted.order, vec![2, 1, 0]);
}

#[test]
fn natural_sort_of_nothing_and_of_one() {
    assert_eq!(natural_order(&names(&[])), Vec::<usize>::new());
    assert_eq!(natural_order(&names(&["only.png"])), vec![0]);
}

#[test]
fn natural_sort_keeps_equal_names_in_their_order() {
    // White space does not count, so these two compare equal.
    let sorted = sort_naturally(&names(&["b", "a 1", "a1", "a"]));
    assert_eq!(sorted.order, vec![3, 1, 2, 0]);
    assert_eq!(sorted.names, names(&["a", "a 1", "a1", "b"]));
}

#[test]
fn natural_sort_reverses_a_descending_run() {
    let sorted = sort_naturally(&names(&["f100", "f20", "f3", "f0"]));
    assert_eq!(sorted.names, names(&["f0", "f3", "f20", "f100"]));
    assert_eq!(sorted.order, vec![3, 2, 1, 0]);
}

#[test]
fn natural_precedes_compares_digits_by_value() {
    assert!(natural_precedes("frame2", "frame10"));
    assert!(!natural_precedes("frame10", "frame2"));
    assert!(!natural_precedes("frame2", "frame2"));
    assert!(natural_precedes("a", "b"));
    assert!(!natural_precedes("b", "a"));
}

#[test]
fn arrange_picks_by_place() {
    let picked = arrange(&names(&["x", "y", "z"]), &vec![2, 0, 2]);
    assert_eq!(picked, names(&["z", "x", "z"]));
}
