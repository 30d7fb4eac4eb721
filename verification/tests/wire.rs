use notify_cleaner::wire::{push_number, push_numbers, push_text, Field, Pair};

#[test]
fn pairs_are_added_at_the_end() {
    let mut pairs = Vec::new();
    push_number(&mut pairs, "build", 0);
    push_text(&mut pairs, "csrf", "abc");
    push_numbers(&mut pairs, "ids", vec![3, 1, 2]);
    push_numbers(&mut pairs, "station_ids", vec![]);
    assert_eq!(
        pairs,
        vec![
            Pair { name: "build", value: Field::Number(0) },
            Pair { name: "csrf", value: Field::Text("abc".to_string()) },
            Pair { name: "ids", value: Field::Numbers(vec![3, 1, 2]) },
            Pair { name: "station_ids", value: Field::Numbers(vec![]) },
        ]
    );
}

#[test]
fn text_is_kept_as_given() {
    let mut pairs = Vec::new();
    push_text(&mut pairs, "csrf", "a b&c=d/é");
    assert_eq!(pairs[0].value, Field::Text("a b&c=d/é".to_string()));
    push_text(&mut pairs, "empty", "");
    assert_eq!(pairs[1].value, Field::Text(String::new()));
}
