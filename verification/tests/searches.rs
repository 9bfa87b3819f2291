use lingxi_llm_client::codecs::file_search_decode::{self, FileSearchStream};
use lingxi_llm_client::codecs::web_search_decode::{self, SearchStream};
use lingxi_llm_client::json::{self, Json, Number};
use lingxi_llm_client::protocol::StreamEvent;

fn value(text: &str) -> Json {
    json::value_of_bytes(text.as_bytes())
}

#[test]
fn responses_results_keep_queries_and_provider_metadata() {
    let result = file_search_decode::responses(&value(
        r#"{"output":[{"type":"file_search_call","queries":["q"],"results":[{"file_id":"file-1","filename":"a.txt","score":0.9,"text":"hit"}]}]}"#,
    ))
    .unwrap();
    assert_eq!(result.queries, ["q"]);
    assert_eq!(result.hits[0].file_id, "file-1");
    assert_eq!(result.hits[0].filename.as_deref(), Some("a.txt"));
    assert_eq!(result.hits[0].score, Some(Number::Float("0.9".to_owned())));
    assert_eq!(result.hits[0].text.as_deref(), Some("hit"));
}

#[test]
fn streaming_completion_deduplicates_output_item_and_final_response() {
    let body = value(
        r#"{"output":[{"type":"file_search_call","queries":["q"],"results":[{"file_id":"file-1"}]}]}"#,
    );
    let mut stream = FileSearchStream::new();
    let mut events = Vec::new();
    stream.emit(&body, &mut events);
    stream.emit(&body, &mut events);
    assert_eq!(events.len(), 1);
    assert!(matches!(events[0], StreamEvent::FileSearch { .. }));
}

#[test]
fn file_search_usage_does_not_claim_that_web_search_occurred() {
    assert!(web_search_decode::with_usage(
        None,
        Some(&value(r#"{"x_tools":{"file_search":{"count":1}}}"#))
    )
    .is_none());
}

#[test]
fn a_web_search_that_comes_again_is_not_shown_again() {
    let body = value(
        r#"{"output":[{"type":"web_search_call","id":"ws_1","action":{"type":"search","query":"q"}}]}"#,
    );
    let mut stream = SearchStream::new();
    let mut events = Vec::new();
    let found = web_search_decode::responses(&body);
    assert!(found.is_some());
    stream.emit(found, &mut events);
    stream.emit(web_search_decode::responses(&body), &mut events);
    assert_eq!(events.len(), 1);
    assert!(matches!(events[0], StreamEvent::WebSearch { .. }));
}
