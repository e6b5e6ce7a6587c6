use gh_ec_audit::sort::{pair_before, sorted, text_before};

fn strings(items: &[&str]) -> Vec<String> {
    items.iter().map(|s| s.to_string()).collect()
}

#[test]
fn texts_are_ordered_by_their_first_difference() {
    assert!(text_before("", ""));
    assert!(text_before("", "a"));
    assert!(!text_before("a", ""));
    assert!(text_before("alp", "alpha"));
    assert!(!text_before("alpha", "alp"));
    assert!(text_before("Zeta", "alpha"));
    assert!(!text_before("alpha", "Zeta"));
    assert!(text_before("same", "same"));
    assert!(text_before("z", "\u{e9}"));
    assert!(!text_before("\u{e9}", "z"));
    assert!(text_before("\u{ffff}", "\u{10000}"));
}

#[test]
fn pairs_are_ordered_by_the_first_text_then_the_second() {
    assert!(pair_before(("a", "z"), ("b", "a")));
    assert!(!pair_before(("b", "a"), ("a", "z")));
    assert!(pair_before(("a", "x"), ("a", "y")));
    assert!(!pair_before(("a", "y"), ("a", "x")));
    assert!(pair_before(("a", "x"), ("a", "x")));
}

#[test]
fn sorting_keeps_every_item_and_orders_them() {
    assert_eq!(
        sorted(strings(&["delta", "alpha", "", "beta", "alpha", "Beta", "alp"])),
        strings(&["", "Beta", "alp", "alpha", "alpha", "beta", "delta"])
    );
    assert_eq!(sorted(strings(&["one"])), strings(&["one"]));
    assert!(sorted(Vec::<String>::new()).is_empty());
    let mut expected = strings(&["m", "c", "x", "a", "q", "b", "z", "k"]);
    let got = sorted(strings(&["m", "c", "x", "a", "q", "b", "z", "k"]));
    expected.sort();
    assert_eq!(got, expected);
}
