use manga_sync::collection::{check_collection, Manga};
use manga_sync::decimal::decimal_string;
use manga_sync::navigation::Action;
use manga_sync::page::{home_page, HOME_PAGE_HEAD, HOME_PAGE_TAIL};
use manga_sync::resolver::{finish_read, resolve, ImageError, IMAGE_CONTENT_TYPE};
use manga_sync::snapshot::{frame_snapshot, page_src, ClientState};
use manga_sync::state::AppState;

fn shown(name: &str, comment: &str, score: i64) -> ClientState {
    ClientState {
        manga_name: name.to_string(),
        page_src: page_src(0, 4),
        manga_score: score,
        manga_comment: comment.to_string(),
        manga_pos: (1, 12),
        page_pos: (5, 30),
    }
}

#[test]
fn decimal_digits() {
    assert_eq!(decimal_string(0), "0");
    assert_eq!(decimal_string(7), "7");
    assert_eq!(decimal_string(10), "10");
    assert_eq!(decimal_string(1234567890), "1234567890");
    assert_eq!(decimal_string(u64::MAX), "18446744073709551615");
}

#[test]
fn page_address_names_item_and_page() {
    assert_eq!(page_src(0, 0), "/image?manga=0&page=0");
    assert_eq!(page_src(12, 345), "/image?manga=12&page=345");
}

#[test]
fn snapshot_json_is_exact() {
    let json = shown("Berserk", "dark", 10).to_json();
    assert_eq!(
        json,
        "{\"manga_name\":\"Berserk\",\"page_src\":\"/image?manga=0&page=4\",\"manga_score\":10,\
         \"manga_comment\":\"dark\",\"manga_pos\":[1,12],\"page_pos\":[5,30]}"
    );
}

#[test]
fn snapshot_json_escapes_texts() {
    let json = shown("say \"hi\"", "a\\b\nc\t\u{1}\u{e9}", -3).to_json();
    assert_eq!(
        json,
        "{\"manga_name\":\"say \\\"hi\\\"\",\"page_src\":\"/image?manga=0&page=4\",\
         \"manga_score\":-3,\"manga_comment\":\"a\\\\b\\nc\\t\\u0001\u{e9}\",\
         \"manga_pos\":[1,12],\"page_pos\":[5,30]}"
    );
}

#[test]
fn snapshot_json_of_extreme_score() {
    let json = shown("x", "", i64::MIN).to_json();
    assert!(json.contains("\"manga_score\":-9223372036854775808,"));
    let json = shown("x", "", i64::MAX).to_json();
    assert!(json.contains("\"manga_score\":9223372036854775807,"));
}

#[test]
fn frame_takes_quoted_texts_as_they_are() {
    let json = frame_snapshot("\"n\"", "\"s\"", 0, "\"\"", (1, 1), (2, 3));
    assert_eq!(
        json,
        "{\"manga_name\":\"n\",\"page_src\":\"s\",\"manga_score\":0,\"manga_comment\":\"\",\
         \"manga_pos\":[1,1],\"page_pos\":[2,3]}"
    );
}

#[test]
fn snapshot_round_trip_keeps_positions() {
    let cases = [
        shown("plain", "text", 5),
        shown("quote \" and \\ slash", "line\nbreak \u{7} \u{2039}", -1),
        ClientState {
            manga_name: String::new(),
            page_src: page_src(usize::MAX - 1, 0),
            manga_score: 0,
            manga_comment: String::new(),
            manga_pos: (usize::MAX, usize::MAX),
            page_pos: (1, 1),
        },
    ];
    for case in cases {
        let json = case.to_json();
        let back: serde_json::Value = serde_json::from_str(&json).expect("valid JSON");
        let pair = |key: &str| {
            let a = back[key].as_array().expect("an array");
            assert_eq!(a.len(), 2);
            (a[0].as_u64().unwrap() as usize, a[1].as_u64().unwrap() as usize)
        };
        assert_eq!(pair("manga_pos"), case.manga_pos);
        assert_eq!(pair("page_pos"), case.page_pos);
        assert_eq!(back["manga_name"].as_str(), Some(case.manga_name.as_str()));
        assert_eq!(back["page_src"].as_str(), Some(case.page_src.as_str()));
        assert_eq!(back["manga_score"].as_i64(), Some(case.manga_score));
        assert_eq!(back["manga_comment"].as_str(), Some(case.manga_comment.as_str()));
        assert_eq!(back.as_object().unwrap().len(), 6);
    }
}

#[test]
fn snapshot_json_matches_serde_json_value() {
    let case = shown("A \"title\"", "c", 8);
    let mut expected = serde_json::Map::new();
    expected.insert("manga_name".to_string(), serde_json::Value::from("A \"title\""));
    expected.insert("page_src".to_string(), serde_json::Value::from("/image?manga=0&page=4"));
    expected.insert("manga_score".to_string(), serde_json::Value::from(8i64));
    expected.insert("manga_comment".to_string(), serde_json::Value::from("c"));
    expected.insert("manga_pos".to_string(), serde_json::Value::from(vec![1u64, 12]));
    expected.insert("page_pos".to_string(), serde_json::Value::from(vec![5u64, 30]));
    let back: serde_json::Value = serde_json::from_str(&case.to_json()).unwrap();
    assert_eq!(back, serde_json::Value::Object(expected));
}

#[test]
fn home_page_embeds_the_snapshot() {
    let json = shown("Home", "", 1).to_json();
    let html = home_page(&json);
    assert_eq!(html, format!("{}{}{}", HOME_PAGE_HEAD, json, HOME_PAGE_TAIL));
    assert!(html.contains(&format!("const initialState = {};", json)));
    assert!(html.trim_start().starts_with("<!DOCTYPE html>"));
    assert!(html.contains("ws.send(JSON.stringify({ type: 'next', uuid: uuid }));"));
    assert!(html.contains("<span class=\"arrow-char\">\u{2039}</span>"));
    assert!(html.trim_end().ends_with("</html>"));
}

fn two_items() -> AppState {
    let mangas = vec![
        Manga::new("A".into(), 1, "".into(), vec!["a0".into(), "a1".into(), "a2".into()]),
        Manga::new("B".into(), 2, "".into(), vec!["b0".into(), "b1".into()]),
    ];
    assert!(check_collection(&mangas).is_ok());
    AppState::from_displayed(mangas)
}

#[test]
fn resolve_finds_paths_and_reports_bad_indices() {
    let state = two_items();
    let mangas = state.collection();
    assert_eq!(resolve(mangas, 0, 0), Ok("a0".to_string()));
    assert_eq!(resolve(mangas, 0, 2), Ok("a2".to_string()));
    assert_eq!(resolve(mangas, 1, 1), Ok("b1".to_string()));
    assert_eq!(resolve(mangas, 2, 0), Err(ImageError::InvalidMangaIndex));
    assert_eq!(resolve(mangas, usize::MAX, usize::MAX), Err(ImageError::InvalidMangaIndex));
    assert_eq!(resolve(mangas, 1, 2), Err(ImageError::InvalidPageIndex));
    assert_eq!(resolve(mangas, 0, 3), Err(ImageError::InvalidPageIndex));
}

#[test]
fn image_errors_in_words() {
    assert_eq!(ImageError::InvalidMangaIndex.message(), "Invalid manga index");
    assert_eq!(ImageError::InvalidPageIndex.message(), "Invalid page index");
    assert_eq!(ImageError::ReadFailed.message(), "Failed to read image");
    assert_eq!(IMAGE_CONTENT_TYPE, "image/webp");
}

#[test]
fn unreadable_file_is_an_error_response() {
    assert_eq!(finish_read(None), Err(ImageError::ReadFailed));
    assert_eq!(finish_read(Some(vec![1, 2, 3])), Ok(vec![1, 2, 3]));
    assert_eq!(finish_read(Some(Vec::new())), Ok(Vec::new()));
}

#[test]
fn failed_image_request_leaves_the_state_alone() {
    let mut state = two_items();
    assert!(state.register_with(1));
    assert!(state.register_with(2));
    assert!(state.cast_vote(1, Action::Next).is_none());
    assert!(resolve(state.collection(), 9, 9).is_err());
    assert_eq!(state.vote_of(1), Some(Action::Next));
    assert_eq!(state.cursor(), (0, 0));
    assert_eq!(state.viewer_count(), 2);
}
