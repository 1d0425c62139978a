use traco::json::Json;
use traco::ledger::{ActivityLedger, ActivityRecord};
use traco::store::{
    decode_ledger, decode_record, encode_ledger, encode_record, find_member, load_ledger,
    save_text, store_directory, store_file,
};

fn record(title: &str, first_seen: u64, accumulated_seconds: u64) -> ActivityRecord {
    ActivityRecord { title: title.to_string(), first_seen, accumulated_seconds }
}

fn stored(name: &str, start_time: u64, duration: u64) -> Json {
    Json::Object(vec![
        ("name".to_string(), Json::Text(name.to_string())),
        ("start_time".to_string(), Json::Number(Some(start_time))),
        ("duration".to_string(), Json::Number(Some(duration))),
    ])
}

fn records_of(ledger: &ActivityLedger) -> Vec<(String, u64, u64)> {
    let mut all = Vec::new();
    for i in 0..ledger.len() {
        let r = ledger.record_at(i).unwrap();
        all.push((r.title.clone(), r.first_seen, r.accumulated_seconds));
    }
    all.sort();
    all
}

#[test]
fn find_member_gives_the_first_with_the_key() {
    let members = vec![
        ("a".to_string(), Json::Number(Some(1))),
        ("b".to_string(), Json::Null),
        ("a".to_string(), Json::Number(Some(2))),
    ];
    assert_eq!(find_member(&members, "a"), Some(&Json::Number(Some(1))));
    assert_eq!(find_member(&members, "b"), Some(&Json::Null));
    assert_eq!(find_member(&members, "c"), None);
}

#[test]
fn encode_record_writes_name_start_time_and_duration() {
    assert_eq!(encode_record(&record("Editor", 100, 3)), stored("Editor", 100, 3));
}

#[test]
fn encode_ledger_keys_each_record_by_its_title() {
    let mut ledger = ActivityLedger::new();
    ledger.record_tick("Editor", 100);
    ledger.record_tick("Browser", 101);
    ledger.record_tick("Editor", 102);
    let expected = Json::Object(vec![
        ("Editor".to_string(), stored("Editor", 100, 2)),
        ("Browser".to_string(), stored("Browser", 101, 1)),
    ]);
    assert_eq!(encode_ledger(&ledger), expected);
    assert_eq!(encode_ledger(&ActivityLedger::new()), Json::Object(vec![]));
}

#[test]
fn decode_record_reads_what_encode_record_wrote() {
    let written = record("Editor", 100, 3);
    assert_eq!(decode_record("Editor", &encode_record(&written)), Some(written));
}

#[test]
fn decode_record_takes_members_in_any_order_and_passes_over_others() {
    let value = Json::Object(vec![
        ("duration".to_string(), Json::Number(Some(7))),
        ("colour".to_string(), Json::Text("red".to_string())),
        ("name".to_string(), Json::Text("Mail".to_string())),
        ("start_time".to_string(), Json::Number(Some(9))),
    ]);
    assert_eq!(decode_record("Mail", &value), Some(record("Mail", 9, 7)));
}

#[test]
fn decode_record_rejects_a_name_that_is_not_the_key() {
    assert_eq!(decode_record("Browser", &stored("Editor", 1, 1)), None);
}

#[test]
fn decode_record_rejects_missing_and_ill_typed_members() {
    let no_duration = Json::Object(vec![
        ("name".to_string(), Json::Text("Mail".to_string())),
        ("start_time".to_string(), Json::Number(Some(9))),
    ]);
    assert_eq!(decode_record("Mail", &no_duration), None);
    let text_duration = Json::Object(vec![
        ("name".to_string(), Json::Text("Mail".to_string())),
        ("start_time".to_string(), Json::Number(Some(9))),
        ("duration".to_string(), Json::Text("7".to_string())),
    ]);
    assert_eq!(decode_record("Mail", &text_duration), None);
    let other_number = Json::Object(vec![
        ("name".to_string(), Json::Text("Mail".to_string())),
        ("start_time".to_string(), Json::Number(None)),
        ("duration".to_string(), Json::Number(Some(7))),
    ]);
    assert_eq!(decode_record("Mail", &other_number), None);
    assert_eq!(decode_record("Mail", &Json::List(vec![])), None);
    assert_eq!(decode_record("Mail", &Json::Null), None);
}

#[test]
fn decode_ledger_reads_what_encode_ledger_wrote() {
    let mut ledger = ActivityLedger::new();
    ledger.record_tick("Editor", 100);
    ledger.record_tick("", 101);
    ledger.record_tick("Editor", 102);
    ledger.record_tick("Browser \"two\"", 103);
    let decoded = decode_ledger(&encode_ledger(&ledger)).unwrap();
    assert_eq!(decoded.len(), 3);
    assert_eq!(*decoded.record_at(0).unwrap(), record("Editor", 100, 2));
    assert_eq!(*decoded.record_at(1).unwrap(), record("", 101, 1));
    assert_eq!(*decoded.record_at(2).unwrap(), record("Browser \"two\"", 103, 1));
}

#[test]
fn decode_ledger_rejects_what_is_no_store() {
    assert!(decode_ledger(&Json::List(vec![])).is_none());
    assert!(decode_ledger(&Json::Null).is_none());
    assert!(decode_ledger(&Json::Text("Editor".to_string())).is_none());
    let bad_member = Json::Object(vec![
        ("Editor".to_string(), stored("Editor", 1, 1)),
        ("Browser".to_string(), Json::Number(Some(3))),
    ]);
    assert!(decode_ledger(&bad_member).is_none());
    let twice = Json::Object(vec![
        ("Editor".to_string(), stored("Editor", 1, 1)),
        ("Editor".to_string(), stored("Editor", 2, 2)),
    ]);
    assert!(decode_ledger(&twice).is_none());
}

#[test]
fn load_of_an_empty_text_is_an_empty_ledger() {
    assert_eq!(load_ledger("").unwrap().len(), 0);
}

#[test]
fn load_of_an_empty_object_is_an_empty_ledger() {
    assert_eq!(load_ledger("{}").unwrap().len(), 0);
}

#[test]
fn load_reads_a_store() {
    let text = r#"{"Browser":{"name":"Browser","start_time":1700000000,"duration":10},
                   "Editor":{"duration":3,"start_time":5,"name":"Editor"}}"#;
    let ledger = load_ledger(text).unwrap();
    assert_eq!(
        records_of(&ledger),
        vec![("Browser".to_string(), 1_700_000_000, 10), ("Editor".to_string(), 5, 3)]
    );
}

#[test]
fn load_reads_the_largest_counter() {
    let text = r#"{"x":{"name":"x","start_time":0,"duration":18446744073709551615}}"#;
    let ledger = load_ledger(text).unwrap();
    assert_eq!(ledger.seconds_for("x"), Some(u64::MAX));
}

#[test]
fn load_rejects_a_text_that_is_no_json() {
    assert!(load_ledger("not json at all").is_none());
    assert!(load_ledger("{\"Editor\":").is_none());
    assert!(load_ledger(" ").is_none());
    assert!(load_ledger("{} trailing").is_none());
}

#[test]
fn load_rejects_json_that_is_no_store() {
    assert!(load_ledger("[]").is_none());
    assert!(load_ledger("3").is_none());
    assert!(load_ledger("null").is_none());
    assert!(load_ledger(r#"{"Editor":3}"#).is_none());
    assert!(load_ledger(r#"{"Editor":{"name":"Editor","start_time":1}}"#).is_none());
    assert!(load_ledger(r#"{"Editor":{"name":"Editor","start_time":1,"duration":-1}}"#).is_none());
    assert!(load_ledger(r#"{"Editor":{"name":"Editor","start_time":1,"duration":1.5}}"#).is_none());
    assert!(load_ledger(r#"{"Editor":{"name":"Editor","start_time":"1","duration":1}}"#).is_none());
    assert!(load_ledger(r#"{"Editor":{"name":"Other","start_time":1,"duration":1}}"#).is_none());
    assert!(
        load_ledger(r#"{"Editor":{"name":"Editor","start_time":1,"duration":18446744073709551616}}"#)
            .is_none()
    );
}

#[test]
fn save_of_an_empty_ledger_is_an_empty_object() {
    assert_eq!(save_text(&ActivityLedger::new()), Some("{}".to_string()));
}

#[test]
fn save_writes_one_member_for_each_title() {
    let mut ledger = ActivityLedger::new();
    ledger.record_tick("Editor", 100);
    ledger.record_tick("Editor", 101);
    ledger.record_tick("Editor", 102);
    let text = save_text(&ledger).unwrap();
    let value: serde_json::Value = serde_json::from_str(&text).unwrap();
    let store = value.as_object().unwrap();
    assert_eq!(store.len(), 1);
    let editor = store["Editor"].as_object().unwrap();
    assert_eq!(editor.len(), 3);
    assert_eq!(editor["name"].as_str(), Some("Editor"));
    assert_eq!(editor["start_time"].as_u64(), Some(100));
    assert_eq!(editor["duration"].as_u64(), Some(3));
}

#[test]
fn save_escapes_what_json_must_escape() {
    let mut ledger = ActivityLedger::new();
    ledger.record_tick("a\"b\\c\nd", 1);
    let text = save_text(&ledger).unwrap();
    assert!(text.contains(r#""a\"b\\c\nd""#));
    let again = load_ledger(&text).unwrap();
    assert_eq!(records_of(&again), vec![("a\"b\\c\nd".to_string(), 1, 1)]);
}

#[test]
fn what_was_saved_loads_as_the_same_records() {
    let mut ledger = ActivityLedger::new();
    let samples = ["Editor", "Browser", "", "Editor", "Terminal \u{1F600}", "Browser", "Editor"];
    let mut now = 1_700_000_000;
    for title in samples {
        ledger.record_tick(title, now);
        now += 1;
    }
    let text = save_text(&ledger).unwrap();
    let again = load_ledger(&text).unwrap();
    assert_eq!(records_of(&again), records_of(&ledger));
    assert_eq!(
        records_of(&again),
        vec![
            ("".to_string(), 1_700_000_002, 1),
            ("Browser".to_string(), 1_700_000_001, 2),
            ("Editor".to_string(), 1_700_000_000, 3),
            ("Terminal \u{1F600}".to_string(), 1_700_000_004, 1),
        ]
    );
}

#[test]
fn saving_a_loaded_store_keeps_it_as_it_was() {
    let text = r#"{"Mail":{"name":"Mail","start_time":7,"duration":70},"Editor":{"name":"Editor","start_time":5,"duration":3}}"#;
    let saved = save_text(&load_ledger(text).unwrap()).unwrap();
    let before: serde_json::Value = serde_json::from_str(text).unwrap();
    let after: serde_json::Value = serde_json::from_str(&saved).unwrap();
    assert_eq!(before, after);
}

#[test]
fn store_lies_under_the_profile_directory() {
    assert_eq!(store_directory("C:\\Users\\ann"), "C:\\Users\\ann\\OneDrive/Documents/Traco/\\");
    assert_eq!(
        store_file("C:\\Users\\ann"),
        "C:\\Users\\ann\\OneDrive/Documents/Traco/\\data.json"
    );
    assert_eq!(store_file(""), "\\OneDrive/Documents/Traco/\\data.json");
}
