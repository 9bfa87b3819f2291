//! Controls that each protocol family spells in its own way.

use crate::json::{self, Entries, Json, JsonView};
use crate::protocol::error;
use crate::protocol::{
    CompletionRequest, LlmError, LlmErrorView, ProtocolFamily, ResponseFormat, ToolSpec,
};
use crate::text;
use crate::views;
use vstd::prelude::*;

verus! {

broadcast use {crate::views::group_views, crate::json::group_json};

pub open spec fn is_claude(family: ProtocolFamily) -> bool {
    family == ProtocolFamily::AnthropicMessages || family == ProtocolFamily::VertexClaude || family
        == ProtocolFamily::BedrockClaude || family == ProtocolFamily::FoundryClaude
}

pub open spec fn is_gemini(family: ProtocolFamily) -> bool {
    family == ProtocolFamily::GeminiGenerateContent || family == ProtocolFamily::VertexGemini
}

fn claude(family: ProtocolFamily) -> (result: bool)
    ensures
        result == is_claude(family),
{
    family == ProtocolFamily::AnthropicMessages || family == ProtocolFamily::VertexClaude || family
        == ProtocolFamily::BedrockClaude || family == ProtocolFamily::FoundryClaude
}

fn gemini(family: ProtocolFamily) -> (result: bool)
    ensures
        result == is_gemini(family),
{
    family == ProtocolFamily::GeminiGenerateContent || family == ProtocolFamily::VertexGemini
}

/// The body with the sampling share.
pub open spec fn with_top_p(req: CompletionRequest, family: ProtocolFamily, body: Entries) -> Result<
    Entries,
    LlmErrorView,
> {
    match req.controls.top_p {
        None => Ok(body),
        Some(top_p) => if !top_p.in_range {
            Err(error::invalid_view("top_p must be between zero and one"@))
        } else if is_gemini(family) {
            Ok(json::put_in(body, "generationConfig"@, "topP"@, JsonView::Number(top_p.value@)))
        } else {
            Ok(json::put(body, "top_p"@, JsonView::Number(top_p.value@)))
        },
    }
}

/// The body with the caller's metadata.
pub open spec fn with_metadata(req: CompletionRequest, family: ProtocolFamily, body: Entries) -> Entries {
    if req.metadata@ != JsonView::Null && !is_gemini(family) {
        json::put(body, "metadata"@, req.metadata@)
    } else {
        body
    }
}

/// The body with the hint for context editing.
pub open spec fn with_hint(req: CompletionRequest, family: ProtocolFamily, body: Entries) -> Result<
    Entries,
    LlmErrorView,
> {
    match req.controls.context_hint {
        None => Ok(body),
        Some(hint) => if is_claude(family) {
            Ok(json::put(body, "context_hint"@, hint@))
        } else {
            Err(error::unsupported_view("context_hint requires an Anthropic protocol"@))
        },
    }
}

/// The body with the Responses controls.
pub open spec fn with_responses(req: CompletionRequest, family: ProtocolFamily, body: Entries) -> Result<
    Entries,
    LlmErrorView,
> {
    if req.controls.responses@.len() == 0 {
        Ok(body)
    } else if family != ProtocolFamily::OpenAiResponses {
        Err(
            error::unsupported_view("Responses controls require the Responses protocol"@),
        )
    } else {
        Ok(json::put_all(body, req.controls.responses.deep_view(), 0))
    }
}

/// The body with the response format.
pub open spec fn with_format(req: CompletionRequest, family: ProtocolFamily, body: Entries) -> Result<
    Entries,
    LlmErrorView,
> {
    match req.controls.response_format {
        None => Ok(body),
        Some(ResponseFormat::JsonObject) => if is_gemini(family) {
            Ok(
                json::put_in(
                    body,
                    "generationConfig"@,
                    "responseMimeType"@,
                    JsonView::Str("application/json"@),
                ),
            )
        } else if is_claude(family) {
            Err(
                error::unsupported_view("Anthropic structured output requires a JSON schema"@),
            )
        } else {
            let format = json::obj1("type"@, JsonView::Str("json_object"@));
            Ok(
                if family == ProtocolFamily::OpenAiResponses {
                    json::put_in(body, "text"@, "format"@, format)
                } else {
                    json::put(body, "response_format"@, format)
                },
            )
        },
        Some(ResponseFormat::JsonSchema { name, schema, strict }) => Ok(
            if is_gemini(family) {
                json::put_in(
                    json::put_in(
                        body,
                        "generationConfig"@,
                        "responseMimeType"@,
                        JsonView::Str("application/json"@),
                    ),
                    "generationConfig"@,
                    "responseJsonSchema"@,
                    schema@,
                )
            } else if is_claude(family) {
                json::put_in(
                    body,
                    "output_config"@,
                    "format"@,
                    json::obj2("type"@, JsonView::Str("json_schema"@), "schema"@, schema@),
                )
            } else if family == ProtocolFamily::OpenAiResponses {
                json::put_in(
                    body,
                    "text"@,
                    "format"@,
                    json::obj4(
                        "type"@,
                        JsonView::Str("json_schema"@),
                        "name"@,
                        JsonView::Str(name@),
                        "schema"@,
                        schema@,
                        "strict"@,
                        json::bool_or_null(strict),
                    ),
                )
            } else {
                json::put(
                    body,
                    "response_format"@,
                    json::obj2(
                        "type"@,
                        JsonView::Str("json_schema"@),
                        "json_schema"@,
                        json::obj3(
                            "name"@,
                            JsonView::Str(name@),
                            "schema"@,
                            schema@,
                            "strict"@,
                            json::bool_or_null(strict),
                        ),
                    ),
                )
            },
        ),
    }
}

/// The body with every control.
pub open spec fn with_controls(req: CompletionRequest, family: ProtocolFamily, body: Entries) -> Result<
    Entries,
    LlmErrorView,
> {
    match with_top_p(req, family, body) {
        Err(error) => Err(error),
        Ok(body) => match with_hint(req, family, with_metadata(req, family, body)) {
            Err(error) => Err(error),
            Ok(body) => match with_responses(req, family, body) {
                Err(error) => Err(error),
                Ok(body) => with_format(req, family, body),
            },
        },
    }
}

fn add_format(req: &CompletionRequest, family: ProtocolFamily, body: Vec<(String, Json)>) -> (result:
    Result<Vec<(String, Json)>, LlmError>)
    ensures
        views::res(result) == with_format(*req, family, body.deep_view()),
{
    let mut body = body;
    match &req.controls.response_format {
        None => {},
        Some(ResponseFormat::JsonObject) => {
            if gemini(family) {
                json::set_in(
                    &mut body,
                    "generationConfig",
                    "responseMimeType",
                    json::string("application/json"),
                );
            } else if claude(family) {
                return Err(
                    error::unsupported("Anthropic structured output requires a JSON schema"),
                );
            } else {
                let format = json::object1("type", json::string("json_object"));
                if family == ProtocolFamily::OpenAiResponses {
                    json::set_in(&mut body, "text", "format", format);
                } else {
                    json::set(&mut body, "response_format", format);
                }
            }
        },
        Some(ResponseFormat::JsonSchema { name, schema, strict }) => {
            if gemini(family) {
                json::set_in(
                    &mut body,
                    "generationConfig",
                    "responseMimeType",
                    json::string("application/json"),
                );
                json::set_in(&mut body, "generationConfig", "responseJsonSchema", schema.dup());
            } else if claude(family) {
                let format = json::object2(
                    "type",
                    json::string("json_schema"),
                    "schema",
                    schema.dup(),
                );
                json::set_in(&mut body, "output_config", "format", format);
            } else if family == ProtocolFamily::OpenAiResponses {
                let format = json::object4(
                    "type",
                    json::string("json_schema"),
                    "name",
                    json::string(name),
                    "schema",
                    schema.dup(),
                    "strict",
                    json::optional_bool(*strict),
                );
                json::set_in(&mut body, "text", "format", format);
            } else {
                let inner = json::object3(
                    "name",
                    json::string(name),
                    "schema",
                    schema.dup(),
                    "strict",
                    json::optional_bool(*strict),
                );
                let format = json::object2(
                    "type",
                    json::string("json_schema"),
                    "json_schema",
                    inner,
                );
                json::set(&mut body, "response_format", format);
            }
        },
    }
    Ok(body)
}

pub fn apply(req: &CompletionRequest, family: ProtocolFamily, body: Vec<(String, Json)>) -> (result:
    Result<Vec<(String, Json)>, LlmError>)
    ensures
        views::res(result) == with_controls(*req, family, body.deep_view()),
{
    let mut body = body;
    if let Some(top_p) = &req.controls.top_p {
        if !top_p.in_range {
            return Err(error::invalid("top_p must be between zero and one"));
        }
        let value = Json::Number(top_p.value.dup());
        if gemini(family) {
            json::set_in(&mut body, "generationConfig", "topP", value);
        } else {
            json::set(&mut body, "top_p", value);
        }
    }
    if !json::is_null(Some(&req.metadata)) && !gemini(family) {
        json::set(&mut body, "metadata", req.metadata.dup());
    }
    if let Some(hint) = &req.controls.context_hint {
        if !claude(family) {
            return Err(error::unsupported("context_hint requires an Anthropic protocol"));
        }
        json::set(&mut body, "context_hint", hint.dup());
    }
    if req.controls.responses.len() > 0 {
        if family != ProtocolFamily::OpenAiResponses {
            return Err(
                error::unsupported("Responses controls require the Responses protocol"),
            );
        }
        json::set_all(&mut body, &req.controls.responses);
    }
    add_format(req, family, body)
}

/// The entries with those of `more`, from the `i`th on, that are missing.
pub open spec fn put_missing(entries: Entries, more: Entries, i: int) -> Entries
    decreases more.len() - i,
{
    if i < 0 || i >= more.len() {
        entries
    } else {
        put_missing(
            if json::entry(entries, more[i].0) is Some {
                entries
            } else {
                json::put(entries, more[i].0, more[i].1)
            },
            more,
            i + 1,
        )
    }
}

/// A tool's wire object with the tool's native fields.
pub open spec fn extended(tool: ToolSpec, value: Entries) -> Entries {
    let typed = match tool.tool_type {
        Some(kind) => {
            let typed = json::put(value, "type"@, JsonView::Str(kind@));
            if kind@ != "function"@ && !"custom"@.is_prefix_of(kind@) {
                json::without(json::without(typed, "input_schema"@), "parameters"@)
            } else {
                typed
            }
        },
        None => value,
    };
    let deferred = match tool.defer_loading {
        Some(defer) => json::put(typed, "defer_loading"@, JsonView::Bool(defer)),
        None => typed,
    };
    match json::entries_of(tool.extra@) {
        Some(extra) => put_missing(deferred, extra, 0),
        None => deferred,
    }
}

pub fn tool_extensions(tool: &ToolSpec, value: Vec<(String, Json)>) -> (result: Vec<(String, Json)>)
    ensures
        result.deep_view() == extended(*tool, value.deep_view()),
{
    let mut value = value;
    if let Some(kind) = &tool.tool_type {
        json::set(&mut value, "type", json::string(kind));
        if !text::same(kind, "function") && !text::starts_with(kind, "custom") {
            let _ = json::unset(&mut value, "input_schema");
            let _ = json::unset(&mut value, "parameters");
        }
    }
    if let Some(defer) = tool.defer_loading {
        json::set(&mut value, "defer_loading", Json::Bool(defer));
    }
    if let Some(extra) = tool.extra.as_object() {
        let ghost first = value.deep_view();
        let mut i: usize = 0;
        while i < extra.len()
            invariant
                i <= extra.len(),
                put_missing(first, extra.deep_view(), 0) == put_missing(
                    value.deep_view(),
                    extra.deep_view(),
                    i as int,
                ),
            decreases extra.len() - i,
        {
            assert(extra.deep_view()[i as int] == extra@[i as int].deep_view());
            if json::find(&value, &extra[i].0).is_none() {
                json::set(&mut value, &extra[i].0, extra[i].1.dup());
            }
            i = i + 1;
        }
    }
    value
}

} // verus!
