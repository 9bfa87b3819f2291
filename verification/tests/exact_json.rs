use lingxi_llm_client::exact_json::{json_string_len_from_utf16, serialize, TextOverrides};
use lingxi_llm_client::json::{self, Json};
use lingxi_llm_client::protocol::LlmError;

fn value(text: &str) -> Json {
    json::value_of_bytes(text.as_bytes())
}

#[test]
fn a_string_is_written_from_its_code_units() {
    let mut overrides = TextOverrides::new();
    overrides.insert("/a/1/b~1c", vec![0x61, 0xD800, 0x22, 0x0A, 0xD83D, 0xDE00]);
    let bytes = serialize(&value(r#"{"a":[1,{"b/c":"x"}],"z":null}"#), &overrides).unwrap();
    assert_eq!(
        String::from_utf8(bytes).unwrap(),
        "{\"a\":[1,{\"b/c\":\"a\\ud800\\\"\\n\u{1F600}\"}],\"z\":null}"
    );
}

#[test]
fn without_overrides_the_text_is_the_usual_one() {
    let text = r#"{"a":[1,-2,0.5,"q\"\\\u0001"],"b":{"c":true}}"#;
    let bytes = serialize(&value(text), &TextOverrides::new()).unwrap();
    assert_eq!(String::from_utf8(bytes).unwrap(), text);
}

#[test]
fn an_override_that_leads_nowhere_is_refused() {
    let mut overrides = TextOverrides::new();
    overrides.insert("/a", vec![0x61]);
    let error = serialize(&value(r#"{"a":1}"#), &overrides).unwrap_err();
    assert_eq!(
        error,
        LlmError::InvalidRequest {
            message: "UTF-16 JSON override does not target a string leaf: /a".to_owned()
        }
    );
}

#[test]
fn the_length_is_what_is_written_for_it() {
    let units = [0x61u16, 0xD800, 0x1F, 0x2028, 0xD83D, 0xDE00];
    let mut overrides = TextOverrides::new();
    overrides.insert("", units.to_vec());
    let bytes = serialize(&Json::Str(String::new()), &overrides).unwrap();
    assert_eq!(json_string_len_from_utf16(&units), bytes.len() as u64);
    assert_eq!(json_string_len_from_utf16(&[]), 2);
}

#[test]
fn an_override_of_the_same_text_changes_nothing() {
    let text = "{\"a\":[\"q\\\"\\\\\\u0001\\u001f\u{1F600}\\b\\f\\t\u{7F}\",7,-1,true,null],\"\u{E9}\":{\"k\\n\":\"\u{2028}\"}}";
    let parsed = value(text);
    let usual = serialize(&parsed, &TextOverrides::new()).unwrap();
    assert_eq!(String::from_utf8(usual.clone()).unwrap(), text);
    let mut overrides = TextOverrides::new();
    overrides.insert("/a/0", "q\"\\\u{1}\u{1F}\u{1F600}\u{8}\u{C}\t\u{7F}".encode_utf16().collect());
    overrides.insert("/\u{E9}/k\n", "\u{2028}".encode_utf16().collect());
    assert_eq!(serialize(&parsed, &overrides).unwrap(), usual);
}

#[test]
fn a_pointer_is_read_token_by_token() {
    let parsed = value(r#"{"":{"~":["x","y"]},"a/b":"z","~1":"w"}"#);
    for (pointer, found) in [
        ("//~0/0", true),
        ("//~0/1", true),
        ("/a~1b", true),
        ("/~01", true),
        ("//~0/2", false),
        ("//~0/01", false),
        ("//~0/+1", false),
        ("//~0/", false),
        ("//~0", false),
        ("/a/b", false),
        ("a~1b", false),
        ("", false),
    ] {
        let mut overrides = TextOverrides::new();
        overrides.insert(pointer, vec![0x71]);
        assert_eq!(serialize(&parsed, &overrides).is_ok(), found, "{pointer:?}");
    }
    let mut overrides = TextOverrides::new();
    overrides.insert("//~0/1", vec![0x71]);
    assert_eq!(
        String::from_utf8(serialize(&parsed, &overrides).unwrap()).unwrap(),
        r#"{"":{"~":["x","q"]},"a/b":"z","~1":"w"}"#
    );
}
