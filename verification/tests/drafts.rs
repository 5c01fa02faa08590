use skeet_drafts::store::drafts_file_path;
use skeet_drafts::store::get_drafts_path;
use skeet_drafts::store::load_drafts;
use skeet_drafts::store::save_drafts;
use skeet_drafts::store::save_load_round_trip;
use skeet_drafts::store::DraftsError;

#[test]
fn load_missing_file_returns_empty_array() {
    assert_eq!(load_drafts(None).unwrap(), "[]");
}

#[test]
fn round_trip_preserves_array() {
    let data = "[{\"id\":1,\"text\":\"hi\"},[2,3],null,\"x\"]";
    let written = save_drafts(data).unwrap();
    let loaded = load_drafts(Some(&written)).unwrap();
    let expected: serde_json::Value = serde_json::from_str(data).unwrap();
    let got: serde_json::Value = serde_json::from_str(&loaded).unwrap();
    assert_eq!(got, expected);
}

#[test]
fn save_rejects_object() {
    assert_eq!(save_drafts("{\"a\":1}"), Err(DraftsError::InvalidFormat));
}

#[test]
fn save_rejects_string() {
    assert_eq!(save_drafts("\"hi\""), Err(DraftsError::InvalidFormat));
}

#[test]
fn save_rejects_number() {
    assert_eq!(save_drafts("5"), Err(DraftsError::InvalidFormat));
}

#[test]
fn save_rejects_malformed_text() {
    assert_eq!(save_drafts("not json"), Err(DraftsError::ParseFailed));
}

#[test]
fn failed_save_leaves_file_unchanged() {
    let mut file: Option<String> = None;
    if let Ok(written) = save_drafts("[1,2]") {
        file = Some(written);
    }
    let before = file.clone();
    assert!(save_drafts("{\"a\":1}").is_err());
    assert_eq!(file, before);
    assert_eq!(load_drafts(file.as_deref()).unwrap(), "[1,2]");
}

#[test]
fn load_rejects_object() {
    assert_eq!(load_drafts(Some("{\"a\":1}")), Err(DraftsError::InvalidFormat));
}

#[test]
fn load_rejects_malformed_text() {
    assert_eq!(load_drafts(Some("oops")), Err(DraftsError::ParseFailed));
}

#[test]
fn second_save_wins() {
    let first = save_drafts("[1]").unwrap();
    let mut file: Option<String> = Some(first);
    let second = save_drafts("[2,3]").unwrap();
    file = Some(second);
    assert_eq!(load_drafts(file.as_deref()).unwrap(), "[2,3]");
}

#[test]
fn drafts_path_ends_with_file_name() {
    let path = get_drafts_path(Some("/home/user/.local/share/app")).unwrap();
    assert!(path.ends_with("skeet-drafts.json"));
    assert_eq!(path, "/home/user/.local/share/app/skeet-drafts.json");
}

#[test]
fn drafts_path_without_data_dir_fails() {
    assert_eq!(drafts_file_path(None), Err(DraftsError::LocationUnavailable));
    assert_eq!(get_drafts_path(None), Err(DraftsError::LocationUnavailable));
}

#[test]
fn save_then_load_single_object() {
    let written = save_drafts("[{\"id\":1,\"text\":\"hi\"}]").unwrap();
    let loaded = load_drafts(Some(&written)).unwrap();
    assert_eq!(loaded, "[{\"id\":1,\"text\":\"hi\"}]");
    let value: serde_json::Value = serde_json::from_str(&loaded).unwrap();
    let records = value.as_array().unwrap();
    assert_eq!(records.len(), 1);
    assert_eq!(records[0].get("id").unwrap(), &serde_json::Value::from(1));
    assert_eq!(records[0].get("text").unwrap().as_str().unwrap(), "hi");
}

#[test]
fn failed_save_then_load_returns_previous() {
    assert!(save_drafts("not json").is_err());
    assert_eq!(load_drafts(None).unwrap(), "[]");
    let written = save_drafts("[\"draft\"]").unwrap();
    assert!(save_drafts("not json").is_err());
    assert_eq!(load_drafts(Some(&written)).unwrap(), "[\"draft\"]");
}

#[test]
fn load_reserializes_compactly() {
    assert_eq!(load_drafts(Some("[ 1 , 2 ]")).unwrap(), "[1,2]");
}

#[test]
fn save_pretty_prints() {
    let written = save_drafts("[1,2]").unwrap();
    assert_ne!(written, "[1,2]");
    assert!(written.contains('\n'));
    let value: serde_json::Value = serde_json::from_str(&written).unwrap();
    assert!(value.is_array());
}

#[test]
fn round_trip_law_on_concrete_values() {
    assert_eq!(save_load_round_trip("[true,null]").unwrap(), "[true,null]");
    assert!(save_load_round_trip("{}").is_none());
    assert!(save_load_round_trip("nope").is_none());
}

#[test]
fn loaded_collection_can_be_saved_back() {
    let loaded = load_drafts(None).unwrap();
    let written = save_drafts(&loaded).unwrap();
    assert_eq!(load_drafts(Some(&written)).unwrap(), "[]");
    let written = save_drafts("[7]").unwrap();
    let loaded = load_drafts(Some(&written)).unwrap();
    let rewritten = save_drafts(&loaded).unwrap();
    assert_eq!(load_drafts(Some(&rewritten)).unwrap(), "[7]");
}

#[test]
fn error_messages_name_each_failure() {
    assert_eq!(
        DraftsError::InvalidFormat.message(),
        "Invalid format - expected a JSON array."
    );
    assert_eq!(DraftsError::ParseFailed.message(), "Invalid JSON.");
    assert_eq!(
        DraftsError::LocationUnavailable.message(),
        "Could not determine the app data directory."
    );
    assert_eq!(
        DraftsError::DirectoryCreateFailed.message(),
        "Could not create the app data directory."
    );
    assert_eq!(DraftsError::ReadFailed.message(), "Could not read the drafts file.");
    assert_eq!(DraftsError::WriteFailed.message(), "Could not write the drafts file.");
}
