use numeracle::jsonout::{render_session_json, render_table_json, session_json_entries};
use numeracle::scoring::score_words;
use numeracle::table::WeightTable;

#[test]
fn scoring_json_is_a_three_element_array_with_totals() {
    let session = score_words(&vec![String::from("cat"), String::from("dog")]);
    let out = render_session_json(&session, false);
    let expected = "[\n  {\n    \"cat\": 8\n  },\n  {\n    \"dog\": 14\n  },\n  {\n    \"TOTAL_VALUE\": 22\n  }\n]";
    assert_eq!(out, expected);
}

#[test]
fn scoring_json_parses_to_word_objects_in_order() {
    let session = score_words(&vec![String::from("cat"), String::from("dog")]);
    let out = render_session_json(&session, false);
    let value: serde_json::Value = serde_json::from_str(&out).unwrap();
    let array = value.as_array().unwrap();
    assert_eq!(array.len(), 3);
    assert_eq!(array[0].as_object().unwrap().get("cat").unwrap(), 8);
    assert_eq!(array[1].as_object().unwrap().get("dog").unwrap(), 14);
    assert_eq!(array[2].as_object().unwrap().get("TOTAL_VALUE").unwrap(), 22);
}

#[test]
fn no_total_omits_the_total_entry() {
    let session = score_words(&vec![String::from("cat"), String::from("dog")]);
    let out = render_session_json(&session, true);
    assert!(!out.contains("TOTAL_VALUE"));
    let value: serde_json::Value = serde_json::from_str(&out).unwrap();
    assert_eq!(value.as_array().unwrap().len(), 2);
}

#[test]
fn empty_word_list_yields_only_the_total_entry() {
    let session = score_words(&Vec::new());
    let out = render_session_json(&session, false);
    assert_eq!(out, "[\n  {\n    \"TOTAL_VALUE\": 0\n  }\n]");
    let none = render_session_json(&session, true);
    assert_eq!(none, "[]");
}

#[test]
fn session_json_entries_list_words_then_total() {
    let session = score_words(&vec![String::from("ab"), String::from("c")]);
    let entries = session_json_entries(&session, false);
    assert_eq!(entries.len(), 3);
    assert_eq!(entries[0], (String::from("ab"), 3));
    assert_eq!(entries[1], (String::from("c"), 3));
    assert_eq!(entries[2], (String::from("TOTAL_VALUE"), 6));
    let bare = session_json_entries(&session, true);
    assert_eq!(bare.len(), 2);
}

#[test]
fn table_json_maps_all_36_characters() {
    let table = WeightTable::new();
    let out = render_table_json(&table);
    let value: serde_json::Value = serde_json::from_str(&out).unwrap();
    let object = value.as_object().unwrap();
    assert_eq!(object.len(), 36);
    let keys: Vec<&str> = object.keys().map(|k| k.as_str()).collect();
    let expected: Vec<String> = "0123456789abcdefghijklmnopqrstuvwxyz"
        .chars()
        .map(|c| c.to_string())
        .collect();
    assert_eq!(keys, expected);
    for &(c, w) in table.entries().iter() {
        let key = c.to_string();
        assert_eq!(object.get(&key).unwrap().as_u64().unwrap(), w as u64);
    }
}

#[test]
fn table_json_ignores_display_flags() {
    // The renderer takes no display flag at all: the same table renders the
    // same text that a quiet, raw, or less run would print.
    let table = WeightTable::new();
    let a = render_table_json(&table);
    let b = render_table_json(&table);
    assert_eq!(a, b);
    assert!(a.starts_with("{\n  \"0\": 0"));
}
