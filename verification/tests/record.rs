use yt_monitor::avatars::get_all_avatars;
use yt_monitor::creator::YTCreator;
use yt_monitor::loading::{get_json_data, get_live_status};
use yt_monitor::sorting::AllowedFieldNamesForSorting;

const SAMPLE_DATA: &str = r#"{
    "names": ["Kush", "Kushashwa"],
    "avatar_links": [
        "https://avatars.githubusercontent.com/u/19997320?v=4",
        "https://media-exp1.licdn.com/dms/image/C4D03AQGiAbH1TT3fNA/profile-displayphoto-shrink_800_800/0/1642226109876?e=2147483647&v=beta&t=fcJojobq-NZv0oNX_WW9RrCsYsoTqz0TSYMcC6zOGco"
    ],
    "descriptions": ["Developer", "Developer"],
    "is_live_status": ["true", "false"],
    "subscribers": ["100", "200"]
}"#;

const EMPTY_DATA: &str = r#"{
    "names": [],
    "avatar_links": [],
    "descriptions": [],
    "is_live_status": [],
    "subscribers": []
}"#;

const MORE_DATA: &str = r#"{
    "names": ["Kush", "Kushashwa", "Ravi", "Shrimali"],
    "avatar_links": [
        "https://example.org/avatars/kush.png",
        "https://example.org/avatars/kushashwa.png",
        "https://example.org/avatars/ravi.png",
        "https://example.org/avatars/shrimali.png"
    ],
    "descriptions": ["Developer", "Developer", "Writer", "Speaker"],
    "is_live_status": ["true", "true", "false", "false"],
    "subscribers": ["200", "400", "100", "300"]
}"#;

fn column(value: &serde_json::Value, name: &str) -> Vec<String> {
    value
        .get(name)
        .and_then(|entries| entries.as_array())
        .expect("missing field")
        .iter()
        .map(|entry| entry.as_str().expect("invalid type").to_string())
        .collect()
}

// Stands for reading the file at `json_path`: the files are kept in this
// source, and their text goes the way of a file's.
fn json_data(json_path: Option<&str>) -> YTCreator {
    let text = match json_path.unwrap_or("list_users.json") {
        "test_assets/sample_data.json" => SAMPLE_DATA,
        "test_assets/empty_data.json" => EMPTY_DATA,
        "test_assets/more_data.json" => MORE_DATA,
        _ => panic!("No such file or directory"),
    };
    let value: serde_json::Value = serde_json::from_str(text).unwrap();
    let loaded = YTCreator {
        names: column(&value, "names"),
        avatar_links: column(&value, "avatar_links"),
        descriptions: column(&value, "descriptions"),
        is_live_status: column(&value, "is_live_status"),
        subscribers: column(&value, "subscribers"),
    };
    get_json_data(loaded).unwrap()
}

#[test]
fn test_yt_creator_size_empty() {
    let mock_yt_creator = YTCreator::default();
    assert_eq!(mock_yt_creator.size(), 0);
}

#[test]
fn test_yt_creator_size_non_empty() {
    let mock_yt_creator = YTCreator {
        names: vec!["Kush".to_string()],
        avatar_links: vec!["sample".to_string()],
        descriptions: vec!["Dev".to_string()],
        is_live_status: vec!["true".to_string()],
        subscribers: vec!["200".to_string()],
    };
    assert_eq!(mock_yt_creator.size(), 1);
}

#[test]
fn test_yt_creator_get_field_names() {
    assert_eq!(
        YTCreator::field_names(),
        vec![
            "names",
            "avatar_links",
            "descriptions",
            "is_live_status",
            "subscribers"
        ]
    );
}

#[test]
fn test_yt_creator_get_field() {
    let mock_yt_creator = json_data(Some("test_assets/sample_data.json"));
    let output_names = mock_yt_creator.get_field("names");
    assert!(output_names.is_some());
    assert_eq!(output_names.unwrap(), &vec!["Kush", "Kushashwa"]);
}

#[test]
fn test_yt_creator_get_field_invalid() {
    let mock_yt_creator = json_data(Some("test_assets/sample_data.json"));
    assert!(mock_yt_creator.get_field("doesn't_exist").is_none());
}

#[test]
fn test_get_json_data_valid_file() {
    let expected_output: YTCreator = YTCreator {
        names: vec!["Kush", "Kushashwa"].iter().map(|&s| s.into()).collect(),
        avatar_links: vec!["https://avatars.githubusercontent.com/u/19997320?v=4", "https://media-exp1.licdn.com/dms/image/C4D03AQGiAbH1TT3fNA/profile-displayphoto-shrink_800_800/0/1642226109876?e=2147483647&v=beta&t=fcJojobq-NZv0oNX_WW9RrCsYsoTqz0TSYMcC6zOGco"].iter().map(|&s| s.into()).collect(),
        descriptions: vec!["Developer", "Developer"].iter().map(|&s| s.into()).collect(),
        is_live_status: vec!["true", "false"].iter().map(|&s| s.into()).collect(),
        subscribers: vec!["100", "200"].iter().map(|&s| s.into()).collect(),
    };
    assert_eq!(
        json_data(Some("test_assets/sample_data.json")),
        expected_output
    );
}

#[test]
fn test_get_all_avatars_valid() {
    let sample_data_yt_creator: YTCreator = json_data(Some("test_assets/sample_data.json"));
    let fetched: Vec<Option<Vec<u8>>> = sample_data_yt_creator
        .avatar_links
        .iter()
        .map(|link| Some(link.as_bytes().to_vec()))
        .collect();
    assert!(!get_all_avatars(fetched).unwrap().is_empty());
}

#[test]
fn test_get_all_avatars_empty_data() {
    let sample_data_yt_creator: YTCreator = json_data(Some("test_assets/empty_data.json"));
    let fetched: Vec<Option<Vec<u8>>> = sample_data_yt_creator
        .avatar_links
        .iter()
        .map(|link| Some(link.as_bytes().to_vec()))
        .collect();
    assert!(get_all_avatars(fetched).unwrap().is_empty());
}

#[test]
fn test_get_live_status_valid() {
    let sample_data_yt_creator: YTCreator = json_data(Some("test_assets/sample_data.json"));
    assert_eq!(
        get_live_status(Some(&sample_data_yt_creator.is_live_status)),
        vec![true, false]
    );
}

#[test]
fn test_get_live_status_empty() {
    let sample_data_yt_creator: YTCreator = json_data(Some("test_assets/empty_data.json"));
    assert_eq!(
        get_live_status(Some(&sample_data_yt_creator.is_live_status)).len(),
        0
    );
}

#[test]
fn test_yt_creator_slice_to() {
    let yt_creator_mock: YTCreator = json_data(Some("test_assets/sample_data.json"));
    assert_eq!(yt_creator_mock.slice_to(1).size(), 1);
}

#[test]
fn test_yt_creator_slice_to_on_empty_valid() {
    let yt_creator_mock: YTCreator = json_data(Some("test_assets/empty_data.json"));
    assert_eq!(yt_creator_mock.slice_to(0).size(), 0);
}

#[test]
fn test_yt_creator_set_field() {
    let mut yt_creator_mock: YTCreator = json_data(Some("test_assets/more_data.json"));
    let new_data: Vec<String> = vec![
        "0".to_string(),
        "0".to_string(),
        "0".to_string(),
        "0".to_string(),
    ];
    yt_creator_mock.set_field("subscribers", new_data);
    assert_eq!(yt_creator_mock.subscribers, vec!["0", "0", "0", "0"]);
}

#[test]
fn test_yt_creator_sort_by_is_live_status() {
    let yt_creator_mock: YTCreator = json_data(Some("test_assets/more_data.json"));
    let sorted_tuple_with_indices =
        yt_creator_mock.sort_by(AllowedFieldNamesForSorting::IsLiveStatus);
    let new_yt_creator_mock = sorted_tuple_with_indices.unwrap().0;
    assert_eq!(
        new_yt_creator_mock.subscribers,
        ["300", "100", "400", "200"]
    );
}

#[test]
fn test_yt_creator_sort_by_subscribers() {
    let yt_creator_mock: YTCreator = json_data(Some("test_assets/more_data.json"));
    let new_yt_creator_mock = yt_creator_mock
        .sort_by(AllowedFieldNamesForSorting::Subscribers)
        .unwrap()
        .0;
    assert_ne!(
        new_yt_creator_mock.avatar_links,
        yt_creator_mock.avatar_links
    );
    assert_eq!(
        new_yt_creator_mock.subscribers,
        ["100", "200", "300", "400"]
    );
}
