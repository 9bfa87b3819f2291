//! A request as a codec encodes it, before its body is written out.

use crate::codecs::extras::HeaderViews;
use crate::encoding;
use crate::json::{self, Json, JsonView};
use crate::protocol::LlmErrorView;
use crate::text;
use crate::transport::{HttpRequest, HttpRequestView};
use vstd::prelude::*;

verus! {

broadcast use {crate::views::group_views, crate::json::group_json};

pub struct WireRequest {
    pub url: String,
    pub headers: Vec<(String, String)>,
    pub body: Json,
}

pub struct WireRequestView {
    pub url: Seq<char>,
    pub headers: HeaderViews,
    pub body: JsonView,
}

impl DeepView for WireRequest {
    type V = WireRequestView;

    open spec fn deep_view(&self) -> WireRequestView {
        WireRequestView {
            url: self.url@,
            headers: self.headers.deep_view(),
            body: self.body@,
        }
    }
}

/// The request with its body written out.
pub open spec fn written(wire: WireRequestView) -> HttpRequestView {
    HttpRequestView {
        method: "POST"@,
        url: wire.url,
        headers: wire.headers,
        body: json::bytes_of(wire.body),
        timeout: None,
    }
}

/// The request with its body written out, or the encoder's error.
pub open spec fn sent(wire: Result<WireRequestView, LlmErrorView>) -> Result<
    HttpRequestView,
    LlmErrorView,
> {
    match wire {
        Ok(wire) => Ok(written(wire)),
        Err(error) => Err(error),
    }
}

impl WireRequest {
    pub fn encode(self) -> (request: HttpRequest)
        ensures
            request@ == written(self.deep_view()),
    {
        let body = json::to_bytes(&self.body);
        HttpRequest {
            method: "POST".to_owned(),
            url: self.url,
            headers: self.headers,
            body,
            timeout: None,
        }
    }

    pub fn body_len(&self) -> (len: usize)
        ensures
            len == json::bytes_of(self.body@).len(),
    {
        json::to_bytes(&self.body).len()
    }
}

/// A data URI of Base64 text.
pub open spec fn data_uri(media_type: Seq<char>, data: Seq<char>) -> Seq<char> {
    "data:"@ + media_type + ";base64,"@ + data
}

pub fn data_url(media_type: &str, data: &str) -> (result: String)
    ensures
        result@ == data_uri(media_type@, data@),
{
    text::cat4("data:", media_type, ";base64,", data)
}

/// A data URI of bytes.
pub fn bytes_url(media_type: &str, bytes: &[u8]) -> (result: String)
    ensures
        result@ == data_uri(media_type@, encoding::base64_encoded(bytes@)),
{
    data_url(media_type, &encoding::base64_encode(bytes))
}

} // verus!
