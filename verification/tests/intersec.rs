use rust_hw::intersec::intersection;

fn strings(v: &[&str]) -> Vec<String> {
    v.iter().map(|s| s.to_string()).collect()
}

#[test]
fn intersection_keeps_order_of_second_list() {
    let a = strings(&["x", "b", "a"]);
    let b = strings(&["a", "c", "b", "a"]);
    assert_eq!(intersection(&a, &b), strings(&["a", "b", "a"]));
}

#[test]
fn intersection_with_empty_list_is_empty() {
    let a = strings(&[]);
    let b = strings(&["a"]);
    assert!(intersection(&a, &b).is_empty());
    assert!(intersection(&b, &a).is_empty());
}
