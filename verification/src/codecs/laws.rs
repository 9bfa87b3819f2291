//! What every request of a wire holds, whatever the profile adds to it, and what it is
//! held against.

use crate::codecs::anthropic;
use crate::codecs::extras;
use crate::codecs::hosted;
use crate::codecs::inference;
use crate::codecs::input::{self, CodecContext, EncodeRequest, RequestMode};
use crate::codecs::openai::{chat, responses};
use crate::codecs::request_controls;
use crate::codecs::web_search;
use crate::json::{self, Entries, JsonView};
use crate::protocol::profile;
use crate::protocol::{
    CompletionRequest, ModelProfile, ProtocolFamily, ProviderProfile, ServiceTier, ThinkingConfig,
};
use vstd::prelude::*;

verus! {

/// The entries, with `key` set in them, and what else is known of them.
proof fn lemma_put(entries: Entries, key: Seq<char>, value: JsonView, other: Seq<char>)
    requires
        json::ordered(entries),
    ensures
        json::ordered(json::put(entries, key, value)),
        json::entry(json::put(entries, key, value), key) == Some(value),
        other != key ==> json::entry(json::put(entries, key, value), other) == json::entry(
            entries,
            other,
        ),
{
    json::put_keeps_order(entries, key, value);
    json::put_then_entry(entries, key, value, other);
}

/// A body that asks for a model.
spec fn names(body: Entries, model: Seq<char>) -> bool {
    json::ordered(body) && json::entry(body, "model"@) == Some(JsonView::Str(model))
}

/// The keys that are written beside the model.
proof fn lemma_keys()
    ensures
        "model"@.len() == 5,
        "web_search_options"@.len() == 18,
        "include"@.len() == 7,
        "tools"@ != "model"@,
        "tool_choice"@.len() == 11,
        "messages"@.len() == 8,
        "stream"@.len() == 6,
        "stream_options"@.len() == 14,
        "temperature"@.len() == 11,
        "stop"@.len() == 4,
        "max_tokens"@.len() == 10,
        "max_completion_tokens"@.len() == 21,
        "system"@.len() == 6,
        "stop_sequences"@.len() == 14,
        "anthropic_version"@.len() == 17,
{
    reveal_strlit("model");
    reveal_strlit("web_search_options");
    reveal_strlit("include");
    reveal_strlit("tools");
    reveal_strlit("tool_choice");
    reveal_strlit("messages");
    reveal_strlit("stream");
    reveal_strlit("stream_options");
    reveal_strlit("temperature");
    reveal_strlit("stop");
    reveal_strlit("max_tokens");
    reveal_strlit("max_completion_tokens");
    reveal_strlit("system");
    reveal_strlit("stop_sequences");
    reveal_strlit("anthropic_version");
    assert("tools"@[0] == 't' && "model"@[0] == 'm');
}

/// A hosted search leaves the model as it is.
proof fn lemma_search_keeps_the_model(req: CompletionRequest, profile: ProviderProfile, body: Entries)
    requires
        json::ordered(body),
    ensures
        web_search::with_search(req, profile, body) matches Ok(after) ==> json::ordered(after)
            && json::entry(after, "model"@) == json::entry(body, "model"@),
{
    lemma_keys();
    if let Ok(after) = web_search::with_search(req, profile, body) {
        if let Some(search) = req.web_search {
            let name = json::str_at(profile.extra@, "web_search"@)->0;
            let adapter = web_search::adapter_named(name)->0;
            lemma_put(body, "web_search_options"@, json::obj0(), "model"@);
            let sources = JsonView::Array(
                seq![JsonView::Str("web_search_call.action.sources"@)],
            );
            lemma_put(body, "include"@, sources, "model"@);
            let included = if adapter == web_search::SearchAdapter::Kimi {
                json::put(body, "include"@, sources)
            } else {
                body
            };
            let tool = JsonView::Object(web_search::search_tool(adapter, search, profile));
            let tools = JsonView::Array(json::items_at(included, "tools"@).push(tool));
            lemma_put(included, "tools"@, tools, "model"@);
            let tooled = json::pushed(included, "tools"@, tool);
            if let Ok(choice) = web_search::search_choice(adapter, req.tool_choice) {
                lemma_put(tooled, "tool_choice"@, choice, "model"@);
            }
        }
    }
}

/// The controls of a request leave a text of the body as it is.
proof fn lemma_fields_keep_a_text(
    body: Entries,
    fields: Entries,
    i: int,
    extra: JsonView,
    key: Seq<char>,
    text: Seq<char>,
)
    requires
        json::ordered(body),
        json::entry(body, key) == Some(JsonView::Str(text)),
    ensures
        inference::with_fields(body, fields, i, extra) matches Ok(after) ==> json::ordered(after)
            && json::entry(after, key) == Some(JsonView::Str(text)),
    decreases fields.len() - i,
{
    if 0 <= i < fields.len() {
        let name = fields[i].0;
        let value = match json::member(extra, name) {
            Some(extra) => inference::merged(extra, fields[i].1, name),
            None => Ok(fields[i].1),
        };
        if let Ok(value) = value {
            let new = match json::entry(body, name) {
                Some(existing) => inference::merged(existing, value, name),
                None => Ok(value),
            };
            if let Ok(new) = new {
                lemma_put(body, name, new, key);
                lemma_fields_keep_a_text(json::put(body, name, new), fields, i + 1, extra, key, text);
            }
        }
    }
}

proof fn lemma_extras_keep_the_order(extra: Entries, i: int, body: Entries, refused: Seq<Seq<char>>)
    requires
        json::ordered(body),
    ensures
        json::ordered(extras::merged_body(extra, i, body, refused).0),
    decreases extra.len() - i,
{
    if 0 <= i < extra.len() {
        json::put_keeps_order(body, extra[i].0, extra[i].1);
        lemma_extras_keep_the_order(extra, i + 1, body, refused.push(extra[i].0));
        lemma_extras_keep_the_order(
            extra,
            i + 1,
            json::put(body, extra[i].0, extra[i].1),
            refused,
        );
    }
}

/// The reasoning and tier controls leave the model of a body as it is.
proof fn lemma_inference_keeps_the_model(
    req: CompletionRequest,
    context: CodecContext,
    body: Entries,
    headers: extras::HeaderViews,
    text: Seq<char>,
)
    requires
        names(body, text),
    ensures
        inference::applied(req, context, body, headers) matches Ok((controlled, _)) ==> names(
            controlled,
            text,
        ),
{
    let profile = context.profile;
    if let Ok((controlled, _)) = inference::applied(req, context, body, headers) {
        let (thinking, tier) = inference::controls_of(req, profile)->Ok_0;
        let t = inference::effective(thinking, profile.inference.reasoning);
        let fields = inference::with_tier(
            inference::thinking_fields(t, profile),
            tier,
            profile,
        )->Ok_0;
        lemma_fields_keep_a_text(
            body,
            fields,
            0,
            inference::extra_body(profile),
            "model"@,
            text,
        );
    }
}

/// The profile's additions leave the model of a body as it is.
proof fn lemma_extras_keep_the_model(profile: ProviderProfile, body: Entries, text: Seq<char>)
    requires
        names(body, text),
    ensures
        names(extras::with_extra_body(profile, body).0, text),
{
    lemma_extras_keep_the_order(extras::extra_entries(profile, "body"@), 0, body, Seq::empty());
    extras::configuration_never_overrides_the_body(profile, body, "model"@);
}

/// What a body holds after the search, the controls and the profile's additions.
proof fn lemma_body_keeps_the_model(
    req: CompletionRequest,
    context: CodecContext,
    body: Entries,
    headers: extras::HeaderViews,
    text: Seq<char>,
)
    requires
        names(body, text),
    ensures
        web_search::with_search(req, context.profile, body) matches Ok(searched) ==> (
        inference::applied(req, context, searched, headers) matches Ok((controlled, _)) ==> names(
            extras::with_extra_body(context.profile, controlled).0,
            text,
        )),
{
    let profile = context.profile;
    lemma_search_keeps_the_model(req, profile, body);
    if let Ok(searched) = web_search::with_search(req, profile, body) {
        lemma_inference_keeps_the_model(req, context, searched, headers, text);
        if let Ok((controlled, _)) = inference::applied(req, context, searched, headers) {
            lemma_extras_keep_the_model(profile, controlled, text);
        }
    }
}

/// The controls of a request leave a member as it is that is no object, or that they
/// do not write.
proof fn lemma_fields_keep(body: Entries, fields: Entries, i: int, extra: JsonView, key: Seq<char>)
    requires
        json::entry(body, key) matches Some(value) && (value is Object ==> json::entry(fields, key)
            is None),
    ensures
        inference::with_fields(body, fields, i, extra) matches Ok(after) ==> json::entry(after, key)
            == json::entry(body, key),
    decreases fields.len() - i,
{
    if 0 <= i < fields.len() {
        json::a_key_is_found(fields, i);
        let name = fields[i].0;
        let value = match json::member(extra, name) {
            Some(extra) => inference::merged(extra, fields[i].1, name),
            None => Ok(fields[i].1),
        };
        if let Ok(value) = value {
            let new = match json::entry(body, name) {
                Some(existing) => inference::merged(existing, value, name),
                None => Ok(value),
            };
            if let Ok(new) = new {
                json::put_then_entry(body, name, new, key);
                lemma_fields_keep(json::put(body, name, new), fields, i + 1, extra, key);
            }
        }
    }
}

/// A key that no control of a request is written under.
pub(crate) open spec fn uncontrolled(key: Seq<char>) -> bool {
    &&& key != "reasoning_effort"@
    &&& key != "reasoning"@
    &&& key != "thinking"@
    &&& key != "output_config"@
    &&& key != "generationConfig"@
    &&& key != "thinking_budget"@
    &&& key != "enable_thinking"@
    &&& key != "speed"@
    &&& key != "service_tier"@
    &&& key != "serviceTier"@
}

proof fn lemma_uncontrolled(
    t: ThinkingConfig,
    tier: Option<ServiceTier>,
    profile: ProviderProfile,
    key: Seq<char>,
)
    requires
        uncontrolled(key),
    ensures
        inference::with_tier(inference::thinking_fields(t, profile), tier, profile) matches Ok(fields)
            ==> json::entry(fields, key) is None,
{
    broadcast use json::entry_after_put;

    let none = Seq::<(Seq<char>, JsonView)>::empty();
    assert(json::entry(none, key) is None);
}

/// A member of a body is still there after the controls.
pub(crate) proof fn lemma_applied_keeps(
    req: CompletionRequest,
    context: CodecContext,
    body: Entries,
    headers: extras::HeaderViews,
    key: Seq<char>,
)
    requires
        json::entry(body, key) matches Some(value) && (value is Object ==> uncontrolled(key)),
    ensures
        inference::applied(req, context, body, headers) matches Ok((controlled, _)) ==> json::entry(
            controlled,
            key,
        ) == json::entry(body, key),
{
    let profile = context.profile;
    if let Ok((controlled, _)) = inference::applied(req, context, body, headers) {
        let (thinking, tier) = inference::controls_of(req, profile)->Ok_0;
        let t = inference::effective(thinking, profile.inference.reasoning);
        if uncontrolled(key) {
            lemma_uncontrolled(t, tier, profile, key);
        }
        let fields = inference::with_tier(
            inference::thinking_fields(t, profile),
            tier,
            profile,
        )->Ok_0;
        lemma_fields_keep(body, fields, 0, inference::extra_body(profile), key);
    }
}

/// A member of a body is still there after the search, the controls and the profile's
/// additions, unless the search writes it.
pub(crate) proof fn lemma_body_keeps(
    req: CompletionRequest,
    context: CodecContext,
    body: Entries,
    headers: extras::HeaderViews,
    key: Seq<char>,
)
    requires
        json::entry(body, key) matches Some(value) && (value is Object ==> uncontrolled(key)),
        req.web_search is None || (key != "web_search_options"@ && key != "include"@ && key
            != "tools"@ && key != "tool_choice"@),
    ensures
        web_search::with_search(req, context.profile, body) matches Ok(searched) ==> (
        inference::applied(req, context, searched, headers) matches Ok((controlled, _))
            ==> json::entry(extras::with_extra_body(context.profile, controlled).0, key)
            == json::entry(body, key)),
{
    broadcast use json::entry_after_put;

    let profile = context.profile;
    if let Ok(searched) = web_search::with_search(req, profile, body) {
        assert(json::entry(searched, key) == json::entry(body, key));
        if let Ok((controlled, _)) = inference::applied(req, context, searched, headers) {
            lemma_applied_keeps(req, context, searched, headers, key);
            extras::configuration_never_overrides_the_body(profile, controlled, key);
        }
    }
}

/// The controls of a request leave a member of an object of the body as it is that is no
/// object itself.
proof fn lemma_merged_keeps(dst: Entries, src: Entries, i: int, path: Seq<char>, key: Seq<char>)
    requires
        json::entry(dst, key) matches Some(value) && !(value is Object),
    ensures
        inference::merged_entries(dst, src, i, path) matches Ok(after) ==> json::entry(after, key)
            == json::entry(dst, key),
    decreases src.len() - i,
{
    if 0 <= i < src.len() {
        let name = src[i].0;
        match json::entry(dst, name) {
            None => {
                json::put_then_entry(dst, name, src[i].1, key);
                lemma_merged_keeps(json::put(dst, name, src[i].1), src, i + 1, path, key);
            },
            Some(old) => {
                if let Ok(new) = inference::merged(old, src[i].1, path + "."@ + name) {
                    json::put_then_entry(dst, name, new, key);
                    lemma_merged_keeps(json::put(dst, name, new), src, i + 1, path, key);
                }
            },
        }
    }
}

proof fn lemma_fields_keep_within(
    body: Entries,
    fields: Entries,
    i: int,
    extra: JsonView,
    outer: Seq<char>,
    key: Seq<char>,
)
    requires
        json::entry(body, outer) matches Some(JsonView::Object(inner)) && json::entry(
            inner,
            key,
        ) matches Some(value) && !(value is Object),
    ensures
        inference::with_fields(body, fields, i, extra) matches Ok(after) ==> json::member2(
            JsonView::Object(after),
            outer,
            key,
        ) == json::member2(JsonView::Object(body), outer, key),
    decreases fields.len() - i,
{
    if 0 <= i < fields.len() {
        let name = fields[i].0;
        let value = match json::member(extra, name) {
            Some(extra) => inference::merged(extra, fields[i].1, name),
            None => Ok(fields[i].1),
        };
        if let Ok(value) = value {
            let new = match json::entry(body, name) {
                Some(existing) => inference::merged(existing, value, name),
                None => Ok(value),
            };
            if let Ok(new) = new {
                json::put_then_entry(body, name, new, outer);
                if name == outer {
                    if let JsonView::Object(src) = value {
                        lemma_merged_keeps(
                            json::entry(body, outer)->0->Object_0,
                            src,
                            0,
                            name,
                            key,
                        );
                    }
                }
                lemma_fields_keep_within(
                    json::put(body, name, new),
                    fields,
                    i + 1,
                    extra,
                    outer,
                    key,
                );
            }
        }
    }
}

/// A member of an object of a body is still there after the search, the controls and the
/// profile's additions.
pub(crate) proof fn lemma_body_keeps_within(
    req: CompletionRequest,
    context: CodecContext,
    body: Entries,
    headers: extras::HeaderViews,
    outer: Seq<char>,
    key: Seq<char>,
)
    requires
        json::entry(body, outer) matches Some(JsonView::Object(inner)) && json::entry(
            inner,
            key,
        ) matches Some(value) && !(value is Object),
        outer != "web_search_options"@ && outer != "include"@ && outer != "tools"@ && outer
            != "tool_choice"@,
    ensures
        web_search::with_search(req, context.profile, body) matches Ok(searched) ==> (
        inference::applied(req, context, searched, headers) matches Ok((controlled, _))
            ==> json::member2(
            JsonView::Object(extras::with_extra_body(context.profile, controlled).0),
            outer,
            key,
        ) == json::member2(JsonView::Object(body), outer, key)),
{
    broadcast use json::entry_after_put;

    let profile = context.profile;
    if let Ok(searched) = web_search::with_search(req, profile, body) {
        assert(json::entry(searched, outer) == json::entry(body, outer));
        if let Ok((controlled, _)) = inference::applied(req, context, searched, headers) {
            let (thinking, tier) = inference::controls_of(req, profile)->Ok_0;
            let t = inference::effective(thinking, profile.inference.reasoning);
            let fields = inference::with_tier(
                inference::thinking_fields(t, profile),
                tier,
                profile,
            )->Ok_0;
            lemma_fields_keep_within(
                searched,
                fields,
                0,
                inference::extra_body(profile),
                outer,
                key,
            );
            extras::configuration_never_overrides_the_body(profile, controlled, outer);
        }
    }
}

proof fn lemma_chat_body(
    messages: Seq<JsonView>,
    limit: Seq<char>,
    req: CompletionRequest,
    context: CodecContext,
)
    requires
        limit == "max_tokens"@ || limit == "max_completion_tokens"@,
    ensures
        ({
            let body = chat::encode::body_of(messages, limit, req, context);
            json::ordered(body) && json::entry(body, "model"@) == Some(
                JsonView::Str(context.request_model@),
            )
        }),
{
    lemma_keys();
    let none = Seq::<(Seq<char>, JsonView)>::empty();
    let model = JsonView::Str(context.request_model@);
    lemma_put(none, "model"@, model, "model"@);
    let named = json::put(none, "model"@, model);
    lemma_put(named, "messages"@, JsonView::Array(messages), "model"@);
    let base = json::put(named, "messages"@, JsonView::Array(messages));
    lemma_put(base, "stream"@, JsonView::Bool(true), "model"@);
    let on = json::put(base, "stream"@, JsonView::Bool(true));
    let options = json::obj1("include_usage"@, JsonView::Bool(true));
    lemma_put(on, "stream_options"@, options, "model"@);
    let streamed = if context.stream {
        if crate::protocol::profile::flag_of(context.profile, "stream_usage_opt_in"@) {
            json::put(on, "stream_options"@, options)
        } else {
            on
        }
    } else {
        base
    };
    let limited = match req.max_tokens {
        Some(max) => {
            lemma_put(streamed, limit, json::uint_view(max as u64), "model"@);
            json::put(streamed, limit, json::uint_view(max as u64))
        },
        None => streamed,
    };
    let warmed = match req.temperature {
        Some(t) => {
            lemma_put(limited, "temperature"@, JsonView::Number(t@), "model"@);
            json::put(limited, "temperature"@, JsonView::Number(t@))
        },
        None => limited,
    };
    let stops = json::text_array(req.stop_sequences.deep_view());
    lemma_put(warmed, "stop"@, stops, "model"@);
    let stopped = if req.stop_sequences@.len() > 0 {
        json::put(warmed, "stop"@, stops)
    } else {
        warmed
    };
    let tools = chat::encode::tools_json(req.tools@);
    lemma_put(stopped, "tools"@, tools, "model"@);
    let tooled = json::put(stopped, "tools"@, tools);
    lemma_put(tooled, "tool_choice"@, chat::encode::choice_json(req.tool_choice), "model"@);
}

/// A Chat Completions request asks for the model that was resolved. No search, no
/// control and no addition of the profile redirects it.
pub proof fn a_chat_request_names_its_model(wire: EncodeRequest, context: CodecContext)
    ensures
        chat::encode::encoded(wire, context) matches Ok(sent) ==> {
            &&& sent.body is Object
            &&& json::ordered(hosted::members(sent.body))
            &&& json::entry(hosted::members(sent.body), "model"@) == Some(
                JsonView::Str(context.request_model@),
            )
        },
{
    if let Ok(sent) = chat::encode::encoded(wire, context) {
        lemma_keys();
        let req = *wire.request;
        let profile = context.profile;
        let limit = chat::encode::limit_field(profile)->Ok_0;
        let messages = chat::encode::messages_of(wire, context)->Ok_0;
        let body = chat::encode::body_of(messages, limit, req, context);
        lemma_chat_body(messages, limit, req, context);
        lemma_body_keeps_the_model(
            req,
            context,
            body,
            chat::encode::json_headers(),
            context.request_model@,
        );
        let searched = web_search::with_search(req, profile, body)->Ok_0;
        let (controlled, _) = inference::applied(
            req,
            context,
            searched,
            chat::encode::json_headers(),
        )->Ok_0;
        let after = extras::with_extra_body(profile, controlled).0;
        json::without_then_entry(after, "max_completion_tokens"@, "model"@);
        json::without_then_entry(after, "max_tokens"@, "model"@);
    }
}

proof fn lemma_messages_body(req: CompletionRequest, messages: Seq<JsonView>, context: CodecContext)
    ensures
        ({
            let body = anthropic::encode::body_of(req, messages, context);
            json::ordered(body) && json::entry(body, "model"@) == Some(
                JsonView::Str(context.request_model@),
            )
        }),
{
    lemma_keys();
    let none = Seq::<(Seq<char>, JsonView)>::empty();
    let model = JsonView::Str(context.request_model@);
    lemma_put(none, "model"@, model, "model"@);
    let named = json::put(none, "model"@, model);
    let limit = json::uint_view(anthropic::encode::limit_of(req));
    lemma_put(named, "max_tokens"@, limit, "model"@);
    let limited = json::put(named, "max_tokens"@, limit);
    let system = anthropic::encode::systems_json(req.system@);
    lemma_put(limited, "system"@, system, "model"@);
    let instructed = if req.system@.len() == 0 {
        limited
    } else {
        json::put(limited, "system"@, system)
    };
    lemma_put(instructed, "messages"@, JsonView::Array(messages), "model"@);
    let spoken = json::put(instructed, "messages"@, JsonView::Array(messages));
    let warm = match req.temperature {
        Some(t) => {
            lemma_put(spoken, "temperature"@, JsonView::Number(t@), "model"@);
            json::put(spoken, "temperature"@, JsonView::Number(t@))
        },
        None => spoken,
    };
    let stops = json::text_array(req.stop_sequences.deep_view());
    lemma_put(warm, "stop_sequences"@, stops, "model"@);
    let stopped = if req.stop_sequences@.len() == 0 {
        warm
    } else {
        json::put(warm, "stop_sequences"@, stops)
    };
    lemma_put(stopped, "stream"@, JsonView::Bool(true), "model"@);
    let streamed = if context.stream {
        json::put(stopped, "stream"@, JsonView::Bool(true))
    } else {
        stopped
    };
    let tools = anthropic::encode::tools_json(req.tools@);
    lemma_put(streamed, "tools"@, tools, "model"@);
    let tooled = json::put(streamed, "tools"@, tools);
    lemma_put(tooled, "tool_choice"@, anthropic::encode::choice_json(req.tool_choice), "model"@);
}

/// A Messages request asks for the model that was resolved. No search, no control
/// and no addition of the profile redirects it.
pub proof fn a_messages_request_names_its_model(wire: EncodeRequest, context: CodecContext)
    ensures
        anthropic::encode::encoded(wire, context) matches Ok(sent) ==> {
            &&& sent.body is Object
            &&& json::ordered(hosted::members(sent.body))
            &&& json::entry(hosted::members(sent.body), "model"@) == Some(
                JsonView::Str(context.request_model@),
            )
        },
{
    if let Ok(sent) = anthropic::encode::encoded(wire, context) {
        let req = *wire.request;
        let profile = context.profile;
        let messages = anthropic::encode::messages_json(
            Seq::empty(),
            0,
            crate::protocol::profile::flag_of(profile, "supports_unsigned_thinking"@),
            context,
            wire,
        )->Ok_0;
        lemma_messages_body(req, messages, context);
        lemma_body_keeps_the_model(
            req,
            context,
            anthropic::encode::body_of(req, messages, context),
            anthropic::encode::base_headers(profile),
            context.request_model@,
        );
    }
}

proof fn lemma_names_still(body: Entries, model: Seq<char>, key: Seq<char>, value: JsonView)
    requires
        names(body, model),
        key != "model"@,
    ensures
        names(json::put(body, key, value), model),
{
    lemma_put(body, key, value, "model"@);
}

proof fn lemma_names_with_more(body: Entries, model: Seq<char>, more: Entries, i: int)
    requires
        names(body, model),
        forall|k: int| 0 <= k < more.len() ==> (#[trigger] more[k]).0 != "model"@,
    ensures
        names(json::put_all(body, more, i), model),
    decreases more.len() - i,
{
    if 0 <= i < more.len() {
        lemma_names_still(body, model, more[i].0, more[i].1);
        lemma_names_with_more(json::put(body, more[i].0, more[i].1), model, more, i + 1);
    }
}

/// The keys that a Responses request writes beside the model.
proof fn lemma_response_keys()
    ensures
        "instructions"@ != "model"@,
        "input"@ != "model"@,
        "previous_response_id"@ != "model"@,
        "tools"@ != "model"@,
        "tool_choice"@ != "model"@,
        "max_output_tokens"@ != "model"@,
        "temperature"@ != "model"@,
        "stream"@ != "model"@,
        "top_p"@ != "model"@,
        "generationConfig"@ != "model"@,
        "metadata"@ != "model"@,
        "context_hint"@ != "model"@,
        "text"@ != "model"@,
        "response_format"@ != "model"@,
        "output_config"@ != "model"@,
{
    reveal_strlit("model");
    reveal_strlit("instructions");
    reveal_strlit("input");
    reveal_strlit("previous_response_id");
    reveal_strlit("tools");
    reveal_strlit("tool_choice");
    reveal_strlit("max_output_tokens");
    reveal_strlit("temperature");
    reveal_strlit("stream");
    reveal_strlit("top_p");
    reveal_strlit("generationConfig");
    reveal_strlit("metadata");
    reveal_strlit("context_hint");
    reveal_strlit("text");
    reveal_strlit("response_format");
    reveal_strlit("output_config");
    assert("model"@.len() == 5 && "model"@[0] == 'm');
    assert("max_output_tokens"@.len() == 17);
    assert("metadata"@.len() == 8);
    assert("input"@[0] == 'i');
    assert("tools"@[0] == 't');
    assert("top_p"@[0] == 't');
}

proof fn lemma_first_body(req: CompletionRequest, model: Seq<char>)
    ensures
        names(responses::encode::first_body(req, model), model),
{
    lemma_response_keys();
    let none = Seq::<(Seq<char>, JsonView)>::empty();
    lemma_put(none, "model"@, JsonView::Str(model), "model"@);
    let named = json::put(none, "model"@, JsonView::Str(model));
    let said = JsonView::Str(chat::encode::system_text(req.system@));
    lemma_names_still(named, model, "instructions"@, said);
    let instructed = if req.system@.len() == 0 {
        named
    } else {
        json::put(named, "instructions"@, said)
    };
    lemma_names_still(instructed, model, "input"@, JsonView::Null);
    let begun = json::put(instructed, "input"@, JsonView::Null);
    let continued = match req.previous_response_id {
        Some(id) => {
            lemma_names_still(begun, model, "previous_response_id"@, JsonView::Str(id@));
            json::put(begun, "previous_response_id"@, JsonView::Str(id@))
        },
        None => begun,
    };
    let tools = responses::encode::tools_json(req.tools@);
    let choice = responses::encode::choice_json(req.tool_choice);
    lemma_names_still(continued, model, "tools"@, tools);
    lemma_names_still(json::put(continued, "tools"@, tools), model, "tool_choice"@, choice);
}

/// The tools, the choice and the limits of a Responses request leave its model as
/// it is.
proof fn lemma_tooled_body(req: CompletionRequest, context: CodecContext)
    ensures
        responses::encode::tooled_body(req, context) matches Ok(body) ==> names(
            body,
            context.request_model@,
        ),
{
    let model = context.request_model@;
    let profile = context.profile;
    let first = responses::encode::first_body(req, model);
    lemma_response_keys();
    lemma_first_body(req, model);
    lemma_search_keeps_the_model(req, profile, first);
    if let Ok(searched) = web_search::with_search(req, profile, first) {
        if let Some(search) = req.file_search {
            let tools = json::items_at(searched, "tools"@).push(
                responses::encode::search_tool(search),
            );
            lemma_names_still(searched, model, "tools"@, JsonView::Array(tools));
        }
        if let Ok(found) = responses::encode::with_file_search(
            req.file_search,
            profile,
            model,
            searched,
        ) {
            assert(names(found, model));
            let choice = responses::encode::choice_json(req.tool_choice);
            lemma_names_still(found, model, "tool_choice"@, choice);
            if let Ok(chosen) = responses::encode::with_choice(req, found) {
                lemma_limits(req, context.stream, chosen, model);
            }
        }
    }
}

proof fn lemma_limits(req: CompletionRequest, stream: bool, body: Entries, model: Seq<char>)
    requires
        names(body, model),
    ensures
        names(responses::encode::with_limits(req, stream, body), model),
{
    lemma_response_keys();
    let limited = match req.max_tokens {
        Some(max) => {
            lemma_names_still(body, model, "max_output_tokens"@, json::uint_view(max as u64));
            json::put(body, "max_output_tokens"@, json::uint_view(max as u64))
        },
        None => body,
    };
    let warm = match req.temperature {
        Some(t) => {
            lemma_names_still(limited, model, "temperature"@, JsonView::Number(t@));
            json::put(limited, "temperature"@, JsonView::Number(t@))
        },
        None => limited,
    };
    lemma_names_still(warm, model, "stream"@, JsonView::Bool(true));
}

proof fn lemma_names_in(
    body: Entries,
    model: Seq<char>,
    outer: Seq<char>,
    key: Seq<char>,
    value: JsonView,
)
    requires
        names(body, model),
        outer != "model"@,
    ensures
        names(json::put_in(body, outer, key, value), model),
{
    lemma_names_still(
        body,
        model,
        outer,
        JsonView::Object(json::put(json::fields_at(body, outer), key, value)),
    );
}

/// The typed controls leave the model as it is, unless they name it themselves.
proof fn lemma_controls_keep_the_model(
    req: CompletionRequest,
    family: ProtocolFamily,
    body: Entries,
    model: Seq<char>,
)
    requires
        names(body, model),
        forall|k: int|
            0 <= k < req.controls.responses@.len() ==> (#[trigger] req.controls.responses@[k]).0@
                != "model"@,
    ensures
        request_controls::with_controls(req, family, body) matches Ok(after) ==> names(after, model),
{
    lemma_response_keys();
    if let Some(top_p) = req.controls.top_p {
        let value = JsonView::Number(top_p.value@);
        lemma_names_in(body, model, "generationConfig"@, "topP"@, value);
        lemma_names_still(body, model, "top_p"@, value);
    }
    if let Ok(sampled) = request_controls::with_top_p(req, family, body) {
        lemma_names_still(sampled, model, "metadata"@, req.metadata@);
        let noted = request_controls::with_metadata(req, family, sampled);
        if let Some(hint) = req.controls.context_hint {
            lemma_names_still(noted, model, "context_hint"@, hint@);
        }
        if let Ok(hinted) = request_controls::with_hint(req, family, noted) {
            let more = req.controls.responses.deep_view();
            assert forall|k: int| 0 <= k < more.len() implies (#[trigger] more[k]).0 != "model"@ by {
                assert(more[k] == req.controls.responses@[k].deep_view());
            }
            lemma_names_with_more(hinted, model, more, 0);
            if let Ok(full) = request_controls::with_responses(req, family, hinted) {
                lemma_format_keeps_the_model(req, family, full, model);
            }
        }
    }
}

proof fn lemma_format_keeps_the_model(
    req: CompletionRequest,
    family: ProtocolFamily,
    body: Entries,
    model: Seq<char>,
)
    requires
        names(body, model),
    ensures
        request_controls::with_format(req, family, body) matches Ok(after) ==> names(after, model),
{
    lemma_response_keys();
    let plain = JsonView::Str("application/json"@);
    lemma_names_in(body, model, "generationConfig"@, "responseMimeType"@, plain);
    let typed = json::put_in(body, "generationConfig"@, "responseMimeType"@, plain);
    let format = json::obj1("type"@, JsonView::Str("json_object"@));
    lemma_names_in(body, model, "text"@, "format"@, format);
    lemma_names_still(body, model, "response_format"@, format);
    assert forall|value: JsonView|
        names(#[trigger] json::put_in(typed, "generationConfig"@, "responseJsonSchema"@, value), model) by {
        lemma_names_in(typed, model, "generationConfig"@, "responseJsonSchema"@, value);
    }
    assert forall|value: JsonView|
        names(#[trigger] json::put_in(body, "output_config"@, "format"@, value), model) by {
        lemma_names_in(body, model, "output_config"@, "format"@, value);
    }
    assert forall|value: JsonView|
        names(#[trigger] json::put_in(body, "text"@, "format"@, value), model) by {
        lemma_names_in(body, model, "text"@, "format"@, value);
    }
    assert forall|value: JsonView|
        names(#[trigger] json::put(body, "response_format"@, value), model) by {
        lemma_names_still(body, model, "response_format"@, value);
    }
}

/// A Responses request asks for the model that was resolved. No search, no tool and
/// no addition of the profile redirects it; only a typed control that itself names
/// a model does.
pub proof fn a_responses_request_names_its_model(wire: EncodeRequest, context: CodecContext)
    requires
        forall|k: int|
            0 <= k < wire.request.controls.responses@.len() ==> (
            #[trigger] wire.request.controls.responses@[k]).0@ != "model"@,
    ensures
        responses::encode::encoded(wire, context) matches Ok(sent) ==> {
            &&& sent.body is Object
            &&& json::ordered(hosted::members(sent.body))
            &&& json::entry(hosted::members(sent.body), "model"@) == Some(
                JsonView::Str(context.request_model@),
            )
        },
{
    if let Ok(sent) = responses::encode::encoded(wire, context) {
        let req = *wire.request;
        let profile = context.profile;
        let model = context.request_model@;
        lemma_response_keys();
        lemma_tooled_body(req, context);
        let tooled = responses::encode::tooled_body(req, context)->Ok_0;
        lemma_inference_keeps_the_model(req, context, tooled, chat::encode::json_headers(), model);
        let (controlled, _) = inference::applied(
            req,
            context,
            tooled,
            chat::encode::json_headers(),
        )->Ok_0;
        lemma_controls_keep_the_model(req, profile.protocol, controlled, model);
        let full = request_controls::with_controls(req, profile.protocol, controlled)->Ok_0;
        lemma_extras_keep_the_model(profile, full, model);
        let draft = responses::encode::with_messages(
            responses::encode::no_items(),
            0,
            context,
            wire,
        )->Ok_0;
        lemma_names_still(
            extras::with_extra_body(profile, full).0,
            model,
            "input"@,
            JsonView::Array(draft.items),
        );
    }
}

/// Azure takes the deployment from the path: the body names no model, and keeps
/// everything else.
pub proof fn azure_is_sent_no_model(wire: EncodeRequest, context: CodecContext, key: Seq<char>)
    ensures
        hosted::azure_encoded(wire, context) matches Ok(sent) ==> {
            &&& json::entry(hosted::members(sent.body), "model"@) is None
            &&& key != "model"@ ==> json::entry(hosted::members(sent.body), key) == json::entry(
                hosted::members(chat::encode::encoded(wire, context)->Ok_0.body),
                key,
            )
        },
{
    if let Ok(sent) = hosted::azure_encoded(wire, context) {
        a_chat_request_names_its_model(wire, context);
        let body = hosted::members(chat::encode::encoded(wire, context)->Ok_0.body);
        json::without_then_entry(body, "model"@, key);
    }
}

proof fn lemma_named_headers_go(
    headers: extras::HeaderViews,
    name: Seq<char>,
    i: int,
    before: extras::HeaderViews,
)
    requires
        i >= 0,
        forall|k: int| 0 <= k < before.len() ==> (#[trigger] before[k]).0 != name,
    ensures
        forall|k: int|
            0 <= k < hosted::without_named(headers, name, i, before).len() ==> (
            #[trigger] hosted::without_named(headers, name, i, before)[k]).0 != name,
    decreases headers.len() - i,
{
    if i < headers.len() {
        let more = if headers[i].0 == name {
            before
        } else {
            before.push(headers[i])
        };
        lemma_named_headers_go(headers, name, i + 1, more);
        assert(hosted::without_named(headers, name, i, before) == hosted::without_named(
            headers,
            name,
            i + 1,
            more,
        ));
    }
}

/// Vertex takes the model from the path and the version from the body: the body
/// names no model and one version, and no header does.
pub proof fn vertex_takes_the_version_from_the_body(wire: EncodeRequest, context: CodecContext)
    ensures
        hosted::vertex_encoded(wire, context) matches Ok(sent) ==> {
            &&& json::entry(hosted::members(sent.body), "model"@) is None
            &&& json::entry(hosted::members(sent.body), "anthropic_version"@) is Some
            &&& forall|k: int|
                0 <= k < sent.headers.len() ==> (#[trigger] sent.headers[k]).0
                    != "anthropic-version"@
        },
{
    if let Ok(sent) = hosted::vertex_encoded(wire, context) {
        lemma_keys();
        a_messages_request_names_its_model(wire, context);
        let http = anthropic::encode::encoded(wire, context)->Ok_0;
        let body = hosted::members(http.body);
        json::without_then_entry(body, "model"@, "model"@);
        let rest = json::without(body, "model"@);
        lemma_named_headers_go(http.headers, "anthropic-version"@, 0, Seq::empty());
        assert forall|value: JsonView|
            #![trigger json::put(rest, "anthropic_version"@, value)]
            json::entry(json::put(rest, "anthropic_version"@, value), "model"@) is None
                && json::entry(
                json::put(rest, "anthropic_version"@, value),
                "anthropic_version"@,
            ) == Some(value) by {
            lemma_put(rest, "anthropic_version"@, value, "model"@);
        }
    }
}

/// Bedrock takes the model and the streaming from the path, and its own version
/// from the body: the body names neither model nor stream, and no header names a
/// version.
pub proof fn bedrock_takes_its_own_version(wire: EncodeRequest, context: CodecContext)
    ensures
        hosted::bedrock_encoded(wire, context) matches Ok(sent) ==> {
            &&& json::entry(hosted::members(sent.body), "model"@) is None
            &&& json::entry(hosted::members(sent.body), "stream"@) is None
            &&& json::entry(hosted::members(sent.body), "anthropic_version"@) == Some(
                JsonView::Str(hosted::BEDROCK_ANTHROPIC_VERSION@),
            )
            &&& forall|k: int|
                0 <= k < sent.headers.len() ==> (#[trigger] sent.headers[k]).0
                    != "anthropic-version"@
        },
{
    if let Ok(sent) = hosted::bedrock_encoded(wire, context) {
        lemma_keys();
        a_messages_request_names_its_model(wire, context);
        let http = anthropic::encode::encoded(wire, context)->Ok_0;
        let body = hosted::members(http.body);
        json::without_then_entry(body, "model"@, "model"@);
        let rest = json::without(body, "model"@);
        json::without_then_entry(rest, "stream"@, "model"@);
        let bare = json::without(rest, "stream"@);
        let version = JsonView::Str(hosted::BEDROCK_ANTHROPIC_VERSION@);
        lemma_put(bare, "anthropic_version"@, version, "model"@);
        lemma_put(bare, "anthropic_version"@, version, "stream"@);
        lemma_named_headers_go(http.headers, "anthropic-version"@, 0, Seq::empty());
    }
}

proof fn lemma_first_row(models: Seq<ModelProfile>, model: Seq<char>, i: int)
    requires
        i >= 0,
    ensures
        match profile::row_for(models, model, i) {
            Some(row) => input::rows_of(models, model, i).len() > 0 && input::rows_of(
                models,
                model,
                i,
            )[0] == row && row.request_model@ == model,
            None => input::rows_of(models, model, i).len() == 0,
        },
    decreases models.len() - i,
{
    if i < models.len() {
        lemma_first_row(models, model, i + 1);
    }
}

/// A request is held against the same facts on a snapshot of a connection as on the
/// connection itself.
pub proof fn a_snapshot_knows_what_its_connection_knows(
    context: CodecContext,
    connection: ProviderProfile,
    model: Seq<char>,
    mode: RequestMode,
)
    requires
        input::snapshot_of(
            context,
            connection,
            input::rows_of(connection.models@, model, 0),
            model,
            mode,
        ),
    ensures
        inference::features_of(context.profile, model) == inference::features_of(connection, model),
{
    let rows = input::rows_of(connection.models@, model, 0);
    lemma_first_row(connection.models@, model, 0);
    if rows.len() > 0 {
        assert(profile::unpriced(context.profile.models@[0], rows[0]));
    }
}

} // verus!
