//! GIF result records, response extraction, and the user-interface state.

use openwire::error::CoreError;
use openwire::klipy::{extract_gifs, Gif, JsonValue};
use openwire::ui::UiState;

fn text(s: &str) -> JsonValue {
    JsonValue::Text(s.to_string())
}

fn obj(fields: Vec<(&str, JsonValue)>) -> JsonValue {
    JsonValue::Object(fields.into_iter().map(|(k, v)| (k.to_string(), v)).collect())
}

#[test]
fn test_extract_gifs_from_data_array() {
    let response = obj(vec![(
        "data",
        JsonValue::Array(vec![
            obj(vec![
                ("id", text("g1")),
                ("title", text("first")),
                ("url", text("https://example.com/1.gif")),
                ("preview_url", text("https://example.com/1-small.gif")),
            ]),
            // An advertisement is skipped.
            obj(vec![("type", text("ad")), ("id", text("spam"))]),
            // Neither identifier nor URL: dropped.
            obj(vec![("title", text("empty"))]),
        ]),
    )]);
    let gifs = extract_gifs(&response).unwrap();
    assert_eq!(gifs.len(), 1);
    assert_eq!(gifs[0].id, "g1");
    assert_eq!(gifs[0].title.as_deref(), Some("first"));
    assert_eq!(gifs[0].share_url(), Some("https://example.com/1.gif"));
    assert_eq!(gifs[0].preview_url(), Some("https://example.com/1-small.gif"));
}

#[test]
fn test_extract_gifs_from_nested_and_bare_shapes() {
    // {"data": {"items": [...]}}
    let nested = obj(vec![(
        "data",
        obj(vec![(
            "items",
            JsonValue::Array(vec![obj(vec![("id", text("n1")), ("original_url", text("u1"))])]),
        )]),
    )]);
    let gifs = extract_gifs(&nested).unwrap();
    assert_eq!(gifs.len(), 1);
    assert_eq!(gifs[0].id, "n1");
    assert_eq!(gifs[0].share_url(), Some("u1"));

    // A bare top-level array.
    let bare = JsonValue::Array(vec![obj(vec![("id", text("b1"))])]);
    let gifs = extract_gifs(&bare).unwrap();
    assert_eq!(gifs.len(), 1);
    assert_eq!(gifs[0].id, "b1");

    // {"results": [...]}
    let results = obj(vec![(
        "results",
        JsonValue::Array(vec![obj(vec![("id", text("r1"))])]),
    )]);
    assert_eq!(extract_gifs(&results).unwrap().len(), 1);
}

#[test]
fn test_extract_gifs_from_map_shape() {
    // {"data": {"id1": {...}, "id2": {...}}}
    let response = obj(vec![(
        "data",
        obj(vec![
            ("id1", obj(vec![("id", text("m1")), ("url", text("mu1"))])),
            ("not-an-object", text("skipped")),
            ("id2", obj(vec![("id", text("m2")), ("preview", text("mp2"))])),
        ]),
    )]);
    let gifs = extract_gifs(&response).unwrap();
    assert_eq!(gifs.len(), 2);
    assert_eq!(gifs[0].id, "m1");
    assert_eq!(gifs[0].share_url(), Some("mu1"));
    assert_eq!(gifs[1].id, "m2");
    assert_eq!(gifs[1].preview_url(), Some("mp2"));
}

#[test]
fn test_extract_gifs_rejects_unrecognized_shape() {
    let response = obj(vec![("message", text("rate limited"))]);
    assert_eq!(extract_gifs(&response).unwrap_err(), CoreError::MalformedInput);
    assert_eq!(extract_gifs(&text("nope")).unwrap_err(), CoreError::MalformedInput);
}

#[test]
fn test_gif_url_extraction() {
    let gif = Gif {
        id: "test123".to_string(),
        title: Some("Test GIF".to_string()),
        url: Some("https://example.com/test.gif".to_string()),
        preview_url: Some("https://example.com/test-preview.gif".to_string()),
        media_formats: None,
    };

    assert_eq!(gif.share_url(), Some("https://example.com/test.gif"));
    assert_eq!(
        gif.preview_url(),
        Some("https://example.com/test-preview.gif")
    );
}

#[test]
fn test_gif_without_urls() {
    let gif = Gif {
        id: "bare".to_string(),
        title: None,
        url: None,
        preview_url: None,
        media_formats: None,
    };
    assert_eq!(gif.share_url(), None);
    assert_eq!(gif.preview_url(), None);
}

#[test]
fn test_ui_state_starts_with_welcome_notices() {
    let state = UiState::new("nick".to_string(), "peer".to_string());
    assert_eq!(state.messages.len(), 3);
    assert!(state.messages.iter().all(|m| m.is_system));
    assert!(state.auto_scroll);
    assert_eq!(state.scroll_offset, 0);
    assert!(state.active_game.is_none());
}

#[test]
fn test_ui_state_appends_messages() {
    let mut state = UiState::new("nick".to_string(), "peer".to_string());
    state.add_chat_message("alice", "hello");
    let last = state.messages.last().unwrap();
    assert_eq!(last.sender, "alice");
    assert_eq!(last.content, "hello");
    assert!(!last.is_system);
    assert!(!last.is_file);

    state.add_file_message("bob", "notes.txt");
    let last = state.messages.last().unwrap();
    assert_eq!(last.content, "\u{1f4ce} File: notes.txt");
    assert!(last.is_file);
    assert_eq!(state.messages.len(), 5);
}
