//! What the cloud routes change of a request, and what a hosted search adds to it.

use crate::codecs::anthropic;
use crate::codecs::anthropic::stream::{AnthropicStreamDecoder, AnthropicStreamView};
use crate::codecs::extras::HeaderViews;
use crate::codecs::hosted;
use crate::codecs::input::{CodecContext, EncodeRequest};
use crate::codecs::openai::chat;
use crate::codecs::usage;
use crate::codecs::web_search::{self, SearchAdapter};
use crate::codecs::EventDecoder;
use crate::encoding;
use crate::framing::eventstream::{self, MessageView};
use crate::json::{self, Entries, JsonView};
use crate::protocol::{
    CompletionRequest, ProtocolFamily, ProviderProfile, StreamEventView, WebSearchOptions,
};
use crate::text;
use vstd::prelude::*;

verus! {

broadcast use {crate::views::group_views, crate::json::group_json};

/// A list of headers that holds none of this name.
pub open spec fn unheaded(headers: HeaderViews, name: Seq<char>) -> bool {
    forall|i: int| 0 <= i < headers.len() ==> (#[trigger] headers[i]).0 != name
}

proof fn lemma_unheaded(headers: HeaderViews, name: Seq<char>, i: int, before: HeaderViews)
    requires
        unheaded(before, name),
    ensures
        unheaded(hosted::without_named(headers, name, i, before), name),
    decreases headers.len() - i,
{
    if 0 <= i < headers.len() {
        lemma_unheaded(
            headers,
            name,
            i + 1,
            if headers[i].0 == name {
                before
            } else {
                before.push(headers[i])
            },
        );
    }
}

proof fn lemma_others_stay(
    headers: HeaderViews,
    name: Seq<char>,
    i: int,
    before: HeaderViews,
    header: (Seq<char>, Seq<char>),
)
    requires
        0 <= i <= headers.len(),
        header.0 != name,
    ensures
        hosted::without_named(headers, name, i, before).contains(header) <==> before.contains(header)
            || exists|k: int| i <= k < headers.len() && #[trigger] headers[k] == header,
    decreases headers.len() - i,
{
    if i < headers.len() {
        let next = if headers[i].0 == name {
            before
        } else {
            before.push(headers[i])
        };
        lemma_others_stay(headers, name, i + 1, next, header);
        if headers[i].0 != name {
            if before.contains(header) {
                let k = choose|k: int| 0 <= k < before.len() && before[k] == header;
                assert(next[k] == header);
            }
            if headers[i] == header {
                assert(next[before.len() as int] == header);
            }
            if next.contains(header) {
                let k = choose|k: int| 0 <= k < next.len() && next[k] == header;
                if k < before.len() {
                    assert(before[k] == header);
                }
            }
        }
    }
}

/// An Azure request is the Chat request of the same conversation: every member but the
/// model, which the address names by its deployment, with the version that the profile
/// asks for.
#[verifier::spinoff_prover]
pub proof fn azure_sends_the_chat_request(wire: EncodeRequest, context: CodecContext, key: Seq<char>)
    ensures
        hosted::azure_encoded(wire, context) matches Ok(sent) ==> {
            &&& chat::encode::encoded(wire, context) matches Ok(plain)
            &&& key != "model"@ ==> json::member(sent.body, key) == json::member(plain.body, key)
            &&& sent.headers == plain.headers
            &&& context.profile.azure matches Some(azure)
            &&& azure.api_version matches Some(version)
            &&& sent.url == text::without_trailing(context.profile.base_url@, '/')
                + "/openai/deployments/"@ + (match azure.deployment {
                Some(deployment) => deployment@,
                None => context.request_model@,
            }) + "/chat/completions?api-version="@ + version@
        },
{
    if let Ok(plain) = chat::encode::encoded(wire, context) {
        if key != "model"@ {
            json::without_keeps_other_keys(hosted::members(plain.body), "model"@, key);
        }
    }
}

/// A Vertex request is the Messages request of the same conversation: every member but
/// the model, which the address names, with the version in the body and not in a header.
#[verifier::spinoff_prover]
pub proof fn vertex_sends_the_messages_request(
    wire: EncodeRequest,
    context: CodecContext,
    key: Seq<char>,
    header: (Seq<char>, Seq<char>),
)
    ensures
        hosted::vertex_encoded(wire, context) matches Ok(sent) ==> {
            &&& anthropic::encode::encoded(wire, context) matches Ok(plain)
            &&& key != "model"@ && key != "anthropic_version"@ ==> json::member(sent.body, key)
                == json::member(plain.body, key)
            &&& json::str_at(context.profile.extra@, "api_version"@) is None ==> json::str_at(
                sent.body,
                "anthropic_version"@,
            ) == Some("vertex-2023-10-16"@)
            &&& unheaded(sent.headers, "anthropic-version"@)
            &&& header.0 != "anthropic-version"@ ==> (sent.headers.contains(header)
                <==> plain.headers.contains(header))
            &&& sent.url == text::without_trailing(context.profile.base_url@, '/')
                + "/publishers/anthropic/models/"@ + context.request_model@ + (if context.stream {
                ":streamRawPredict"@
            } else {
                ":rawPredict"@
            })
        },
{
    broadcast use json::entry_after_put;

    if let Ok(plain) = anthropic::encode::encoded(wire, context) {
        let none = Seq::<(Seq<char>, Seq<char>)>::empty();
        if key != "model"@ {
            json::without_keeps_other_keys(hosted::members(plain.body), "model"@, key);
        }
        lemma_unheaded(plain.headers, "anthropic-version"@, 0, none);
        if header.0 != "anthropic-version"@ {
            lemma_others_stay(plain.headers, "anthropic-version"@, 0, none, header);
            if plain.headers.contains(header) {
                let k = choose|k: int| 0 <= k < plain.headers.len() && plain.headers[k] == header;
                assert(plain.headers[k] == header);
            }
        }
    }
}

/// A Bedrock request is the Messages request of the same conversation: every member but
/// the model and the wish to stream, which the address names, with the version in the
/// body and not in a header.
#[verifier::spinoff_prover]
pub proof fn bedrock_sends_the_messages_request(
    wire: EncodeRequest,
    context: CodecContext,
    key: Seq<char>,
)
    ensures
        hosted::bedrock_encoded(wire, context) matches Ok(sent) ==> {
            &&& anthropic::encode::encoded(wire, context) matches Ok(plain)
            &&& key != "model"@ && key != "stream"@ && key != "anthropic_version"@ ==> json::member(
                sent.body,
                key,
            ) == json::member(plain.body, key)
            &&& json::str_at(sent.body, "anthropic_version"@) == Some("bedrock-2023-05-31"@)
            &&& unheaded(sent.headers, "anthropic-version"@)
            &&& encoding::url_with_segments(
                text::without_trailing(context.profile.base_url@, '/'),
                seq![
                    "model"@,
                    context.request_model@,
                    if context.stream {
                        "invoke-with-response-stream"@
                    } else {
                        "invoke"@
                    },
                ],
            ) == Ok::<Seq<char>, Option<Seq<char>>>(sent.url)
        },
{
    broadcast use json::entry_after_put;

    if let Ok(plain) = anthropic::encode::encoded(wire, context) {
        let members = hosted::members(plain.body);
        if key != "model"@ {
            json::without_keeps_other_keys(members, "model"@, key);
        }
        if key != "stream"@ {
            json::without_keeps_other_keys(json::without(members, "model"@), "stream"@, key);
        }
        lemma_unheaded(
            plain.headers,
            "anthropic-version"@,
            0,
            Seq::<(Seq<char>, Seq<char>)>::empty(),
        );
    }
}

/// A Bedrock event is the frame that it wraps: its payload holds the bytes of a Messages
/// frame in base64. An exception is an error, and any other message says nothing.
#[verifier::spinoff_prover]
pub proof fn a_bedrock_event_is_its_frame(state: AnthropicStreamView, message: MessageView, frame: Seq<u8>)
    ensures
        ({
            let kind = eventstream::header_value(message.headers, ":message-type"@);
            let stepped = hosted::message_step(state, message);
            &&& kind == Some("event"@) && (json::parsed(message.payload) matches Ok(value)
                && json::str_at(value, "bytes"@) matches Some(text) && encoding::base64_decoded(text)
                == Ok::<Seq<u8>, Seq<char>>(frame)) ==> stepped
                == AnthropicStreamDecoder::frame_step(state, frame)
            &&& kind == Some("exception"@) || kind == Some("error"@) ==> stepped.0 == state
                && stepped.1 is Err && stepped.1->Err_0 is StreamInterrupted
            &&& kind != Some("event"@) && kind != Some("exception"@) && kind != Some("error"@)
                ==> stepped == (state, Ok::<
                Seq<StreamEventView>,
                crate::protocol::LlmErrorView,
            >(Seq::empty()))
        }),
{
    lemma_names();
}

proof fn lemma_folded_last(seed: Entries, reported: Entries, i: int, k: int)
    requires
        0 <= i <= k < reported.len(),
        json::ordered(reported),
        reported[k].1 != JsonView::Null,
    ensures
        json::entry(usage::folded_entries(seed, reported, i), reported[k].0) == Some(reported[k].1),
    decreases reported.len() - i,
{
    let next = if reported[i].1 == JsonView::Null {
        seed
    } else {
        json::put(seed, reported[i].0, reported[i].1)
    };
    if i < k {
        lemma_folded_last(next, reported, i + 1, k);
    } else {
        json::put_then_entry(seed, reported[k].0, reported[k].1, reported[k].0);
        assert forall|j: int| k < j < reported.len() implies (#[trigger] reported[j]).0
            != reported[k].0 by {
            assert(text::less(reported[k].0, reported[j].0));
            text::less_is_total(reported[k].0, reported[j].0);
        }
        lemma_folded_rest(next, reported, k + 1, reported[k].0);
    }
}

proof fn lemma_folded_rest(seed: Entries, reported: Entries, i: int, key: Seq<char>)
    requires
        0 <= i,
        forall|j: int| i <= j < reported.len() ==> (#[trigger] reported[j]).0 != key,
    ensures
        json::entry(usage::folded_entries(seed, reported, i), key) == json::entry(seed, key),
    decreases reported.len() - i,
{
    if i < reported.len() {
        json::put_then_entry(seed, reported[i].0, reported[i].1, key);
        lemma_folded_rest(seed, reported, i + 1, key);
        lemma_folded_rest(json::put(seed, reported[i].0, reported[i].1), reported, i + 1, key);
    }
}

/// A counter that a later report gives is the one that counts.
pub proof fn a_later_counter_counts(seed: Entries, reported: Entries, k: int)
    requires
        0 <= k < reported.len(),
        json::ordered(reported),
        reported[k].1 != JsonView::Null,
    ensures
        json::member(
            usage::folded(JsonView::Object(seed), JsonView::Object(reported)),
            reported[k].0,
        ) == Some(reported[k].1),
{
    lemma_folded_last(seed, reported, 0, k);
}

/// A hosted search adds one tool after those of the request, which stay as they are, and
/// names the choice of tools where the request did not.
#[verifier::spinoff_prover]
pub proof fn a_hosted_search_is_one_more_tool(
    adapter: SearchAdapter,
    search: WebSearchOptions,
    req: CompletionRequest,
    profile: ProviderProfile,
    body: Entries,
)
    requires
        adapter != SearchAdapter::OpenAiChat,
    ensures
        web_search::with_tool(adapter, search, req, profile, body) matches Ok(after) ==> {
            let before = json::items_in(json::entry(body, "tools"@));
            let tools = json::items_in(json::entry(after, "tools"@));
            let choice = json::entry(after, "tool_choice"@);
            &&& tools.len() == before.len() + 1
            &&& forall|i: int| 0 <= i < before.len() ==> #[trigger] tools[i] == before[i]
            &&& tools.last() == JsonView::Object(web_search::search_tool(adapter, search, profile))
            &&& json::entry(body, "tool_choice"@) is Some ==> choice == json::entry(
                body,
                "tool_choice"@,
            )
            &&& json::entry(body, "tool_choice"@) is None && adapter != SearchAdapter::Gemini ==> {
                let named = adapter == SearchAdapter::Anthropic || adapter
                    == SearchAdapter::DeepSeek;
                &&& req.tool_choice is Auto ==> (if named {
                    json::str_at(json::or_null(choice), "type"@) == Some("auto"@)
                } else {
                    choice == Some(JsonView::Str("auto"@))
                })
                &&& req.tool_choice is Forbidden ==> (if named {
                    json::str_at(json::or_null(choice), "type"@) == Some("none"@)
                } else {
                    choice == Some(JsonView::Str("none"@))
                })
                &&& req.tool_choice is Any ==> (if named {
                    json::str_at(json::or_null(choice), "type"@) == Some("any"@)
                } else {
                    choice == Some(JsonView::Str("required"@))
                })
            }
        },
{
    broadcast use json::entry_after_put;

    lemma_names();
}

/// The texts of a list of strings.
pub open spec fn listed(domains: Seq<String>, sent: Option<JsonView>) -> bool {
    sent matches Some(JsonView::Array(items)) && items.len() == domains.len() && forall|i: int|
        0 <= i < items.len() ==> #[trigger] items[i] == JsonView::Str(domains[i]@)
}

/// The search tool is the one that the provider has, with the domains to keep to and to
/// keep away from, and the number of uses where the provider takes one.
#[verifier::spinoff_prover]
#[verifier::rlimit(60)]
pub proof fn a_search_tool_says_where_to_search(
    adapter: SearchAdapter,
    search: WebSearchOptions,
    profile: ProviderProfile,
)
    ensures
        ({
            let tool = JsonView::Object(web_search::search_tool(adapter, search, profile));
            let kind = json::str_at(tool, "type"@);
            let allowed = search.allowed_domains@;
            let blocked = search.blocked_domains@;
            &&& adapter == SearchAdapter::Anthropic || adapter == SearchAdapter::DeepSeek ==> {
                &&& kind == Some("web_search_20250305"@)
                &&& json::str_at(tool, "name"@) == Some("web_search"@)
                &&& allowed.len() > 0 ==> listed(allowed, json::member(tool, "allowed_domains"@))
                &&& blocked.len() > 0 ==> listed(blocked, json::member(tool, "blocked_domains"@))
                &&& search.max_uses matches Some(max) ==> json::u64_at(tool, "max_uses"@) == Some(
                    max as u64,
                )
            }
            &&& adapter == SearchAdapter::OpenAiResponses || adapter == SearchAdapter::Xai || adapter
                == SearchAdapter::Kimi ==> {
                &&& kind == Some("web_search"@)
                &&& allowed.len() > 0 && blocked.len() == 0 ==> listed(
                    allowed,
                    json::member2(tool, "filters"@, "allowed_domains"@),
                )
                &&& blocked.len() > 0 ==> listed(
                    blocked,
                    json::member2(tool, "filters"@, "excluded_domains"@),
                )
            }
            &&& adapter == SearchAdapter::OpenRouter ==> {
                &&& kind == Some("openrouter:web_search"@)
                &&& allowed.len() > 0 && blocked.len() == 0 ==> listed(
                    allowed,
                    json::member2(tool, "parameters"@, "allowed_domains"@),
                )
                &&& blocked.len() > 0 ==> listed(
                    blocked,
                    json::member2(tool, "parameters"@, "excluded_domains"@),
                )
            }
            &&& adapter == SearchAdapter::Gemini ==> json::member(tool, "googleSearch"@) is Some
            &&& adapter == SearchAdapter::Glm ==> {
                &&& kind == Some("web_search"@)
                &&& json::member2(tool, "web_search"@, "enable"@) == Some(JsonView::Bool(true))
                &&& allowed.len() > 0 ==> json::str_in(
                    json::member2(tool, "web_search"@, "search_domain_filter"@),
                ) == Some(allowed[0]@)
            }
        }),
{
    broadcast use json::entry_after_put;

    lemma_names();
}

/// A hosted search that is let through is one that the provider takes: one list of domains
/// at most, a number of uses that is not nought and that only one provider takes, and no
/// client tool of the same name where the two would be confused.
pub proof fn a_search_is_one_that_the_provider_takes(
    adapter: SearchAdapter,
    search: WebSearchOptions,
    req: CompletionRequest,
    profile: ProviderProfile,
    i: int,
)
    ensures
        web_search::search_error(adapter, search, req, profile) is None ==> {
            let allowed = search.allowed_domains@;
            let blocked = search.blocked_domains@;
            &&& allowed.len() == 0 || blocked.len() == 0
            &&& search.max_uses != Some(0u32)
            &&& search.max_uses is Some ==> adapter == SearchAdapter::Anthropic
            &&& adapter == SearchAdapter::Gemini || adapter == SearchAdapter::OpenAiChat || adapter
                == SearchAdapter::DeepSeek ==> allowed.len() == 0 && blocked.len() == 0
            &&& adapter == SearchAdapter::Glm ==> allowed.len() <= 1 && blocked.len() == 0
            &&& adapter == SearchAdapter::Xai ==> allowed.len() <= 5 && blocked.len() <= 5
            &&& 0 <= i < allowed.len() ==> allowed[i]@.len() > 0 && !allowed[i]@.contains('/')
            &&& 0 <= i < req.tools@.len() && adapter == SearchAdapter::Anthropic
                ==> req.tools@[i].name@ != "web_search"@
            &&& adapter == SearchAdapter::Anthropic ==> profile.protocol
                == ProtocolFamily::AnthropicMessages || profile.protocol
                == ProtocolFamily::FoundryClaude || profile.protocol == ProtocolFamily::VertexClaude
            &&& adapter == SearchAdapter::OpenAiResponses ==> profile.protocol
                == ProtocolFamily::OpenAiResponses
        },
{
    if web_search::search_error(adapter, search, req, profile) is None {
        let allowed = search.allowed_domains@;
        if 0 <= i < allowed.len() {
            assert(!web_search::bad_domain(allowed[i]@));
            if allowed[i]@.contains('/') {
                let k = choose|k: int| 0 <= k < allowed[i]@.len() && allowed[i]@[k] == '/';
                assert(allowed[i]@[k] == '/');
            }
        }
        if 0 <= i < req.tools@.len() && adapter == SearchAdapter::Anthropic {
            assert(!web_search::has_search_tool(req.tools@));
            assert(req.tools@[i].name@ == req.tools@[i].name@);
        }
    }
}

/// A hosted search is the one that the profile names, and every name stands for its own.
#[verifier::spinoff_prover]
pub proof fn a_search_is_the_one_that_is_named(name: Seq<char>)
    ensures
        ({
            let adapter = web_search::adapter_named(name);
            &&& adapter == Some(SearchAdapter::OpenAiResponses) <==> name == "openai_responses"@
            &&& adapter == Some(SearchAdapter::OpenAiChat) <==> name == "openai_chat"@
            &&& adapter == Some(SearchAdapter::Anthropic) <==> name == "anthropic"@
            &&& adapter == Some(SearchAdapter::Gemini) <==> name == "gemini"@
            &&& adapter == Some(SearchAdapter::Xai) <==> name == "xai"@
            &&& adapter == Some(SearchAdapter::Kimi) <==> name == "kimi"@
            &&& adapter == Some(SearchAdapter::DeepSeek) <==> name == "deepseek"@
            &&& adapter == Some(SearchAdapter::OpenRouter) <==> name == "openrouter"@
            &&& adapter == Some(SearchAdapter::Glm) <==> name == "glm"@
        }),
{
    lemma_names();
}

/// A request that searches is sent only where the profile names a search, and one that
/// does not search is sent as it is.
pub proof fn a_search_is_never_made_up(req: CompletionRequest, profile: ProviderProfile, body: Entries)
    ensures
        req.web_search is None ==> web_search::with_search(req, profile, body) == Ok::<
            Entries,
            crate::protocol::LlmErrorView,
        >(body),
        req.web_search is Some && json::str_at(profile.extra@, "web_search"@) is None
            ==> web_search::with_search(req, profile, body) is Err,
        web_search::with_search(req, profile, body) matches Ok(after) ==> (
        req.web_search matches Some(search) ==> (json::str_at(
            profile.extra@,
            "web_search"@,
        ) matches Some(name) && (web_search::adapter_named(name) matches Some(adapter)
            && web_search::search_error(adapter, search, req, profile) is None
            && web_search::with_tool(adapter, search, req, profile, body) == Ok::<
            Entries,
            crate::protocol::LlmErrorView,
        >(after)))),
{
}

/// A search of GLM is made with the engine that the profile names, or with its own, and
/// hands its results back; one of Kimi hands its sources back.
#[verifier::spinoff_prover]
pub proof fn a_search_hands_its_results_back(
    search: WebSearchOptions,
    req: CompletionRequest,
    profile: ProviderProfile,
    body: Entries,
)
    ensures
        ({
            let tool = JsonView::Object(
                web_search::search_tool(SearchAdapter::Glm, search, profile),
            );
            let options = json::at(tool, "web_search"@);
            &&& json::bool_at(options, "enable"@) == Some(true)
            &&& json::bool_at(options, "search_result"@) == Some(true)
            &&& json::member(profile.extra@, "web_search_engine"@) is None ==> json::str_at(
                options,
                "search_engine"@,
            ) == Some("search_pro"@)
            &&& json::str_at(profile.extra@, "web_search_engine"@) matches Some(engine) ==> (
            !text::blank(engine) ==> json::str_at(options, "search_engine"@) == Some(engine))
        }),
        web_search::with_tool(SearchAdapter::Kimi, search, req, profile, body) matches Ok(after)
            ==> json::entry(after, "include"@) == Some(
            JsonView::Array(seq![JsonView::Str("web_search_call.action.sources"@)]),
        ),
{
    broadcast use json::entry_after_put;

    lemma_names();
}

/// A Gemini request on Vertex goes to Google's models there.
pub proof fn vertex_serves_gemini_under_its_publisher(context: CodecContext)
    ensures
        ({
            let base = text::without_trailing(context.profile.base_url@, '/');
            let front = text::without_trailing(base + "/publishers/google"@, '/') + "/models/"@
                + context.request_model@;
            hosted::vertex_gemini_url(context) == front + (if context.stream {
                ":streamGenerateContent?alt=sse"@
            } else {
                ":generateContent"@
            })
        }),
{
}

/// An exception of a Bedrock stream is told under the name that it states.
pub proof fn an_exception_is_told_under_its_name(message: MessageView, kind: Seq<char>)
    requires
        eventstream::header_value(message.headers, ":exception-type"@) == Some(kind),
    ensures
        hosted::exception_error(message) matches crate::protocol::LlmErrorView::StreamInterrupted {
            message: told,
        } && told == "provider stream exception "@ + kind + ": "@ + text::lossy_text(
            message.payload,
        ),
{
}

/// The names on the wire, told apart.
#[verifier::spinoff_prover]
proof fn lemma_names()
    ensures
        ": "@.len() == 2,
        "any"@.len() == 3,
        "glm"@.len() == 3,
        "xai"@.len() == 3,
        "any"@[0] == 'a',
        "glm"@[0] == 'g',
        "xai"@[0] == 'x',
        "auto"@.len() == 4,
        "kimi"@.len() == 4,
        "name"@.len() == 4,
        "none"@.len() == 4,
        "tool"@.len() == 4,
        "type"@.len() == 4,
        "auto"@[1] == 'u',
        "kimi"@[1] == 'i',
        "name"@[1] == 'a',
        "none"@[1] == 'o',
        "tool"@[1] == 'o',
        "type"@[1] == 'y',
        "auto"@[0] == 'a',
        "kimi"@[0] == 'k',
        "name"@[0] == 'n',
        "none"@[0] == 'n',
        "tool"@[0] == 't',
        "type"@[0] == 't',
        "bytes"@.len() == 5,
        "error"@.len() == 5,
        "event"@.len() == 5,
        "model"@.len() == 5,
        "tools"@.len() == 5,
        "bytes"@[2] == 't',
        "error"@[2] == 'r',
        "event"@[2] == 'e',
        "model"@[2] == 'd',
        "tools"@[2] == 'o',
        "enable"@.len() == 6,
        "gemini"@.len() == 6,
        "invoke"@.len() == 6,
        "stream"@.len() == 6,
        "enable"@[0] == 'e',
        "gemini"@[0] == 'g',
        "invoke"@[0] == 'i',
        "stream"@[0] == 's',
        "filters"@.len() == 7,
        "include"@.len() == 7,
        "filters"@[0] == 'f',
        "include"@[0] == 'i',
        "/models/"@.len() == 8,
        "deepseek"@.len() == 8,
        "max_uses"@.len() == 8,
        "required"@.len() == 8,
        "/models/"@[0] == '/',
        "deepseek"@[0] == 'd',
        "max_uses"@[0] == 'm',
        "required"@[0] == 'r',
        "anthropic"@.len() == 9,
        "exception"@.len() == 9,
        "anthropic"@[0] == 'a',
        "exception"@[0] == 'e',
        "openrouter"@.len() == 10,
        "parameters"@.len() == 10,
        "search_pro"@.len() == 10,
        "web_search"@.len() == 10,
        "openrouter"@[0] == 'o',
        "parameters"@[0] == 'p',
        "search_pro"@[0] == 's',
        "web_search"@[0] == 'w',
        ":rawPredict"@.len() == 11,
        "api_version"@.len() == 11,
        "openai_chat"@.len() == 11,
        "tool_choice"@.len() == 11,
        ":rawPredict"@[0] == ':',
        "api_version"@[0] == 'a',
        "openai_chat"@[0] == 'o',
        "tool_choice"@[0] == 't',
        "googleSearch"@.len() == 12,
        ":message-type"@.len() == 13,
        "search_engine"@.len() == 13,
        "search_result"@.len() == 13,
        ":message-type"@[8] == '-',
        "search_engine"@[8] == 'n',
        "search_result"@[8] == 'e',
        ":exception-type"@.len() == 15,
        "allowed_domains"@.len() == 15,
        "blocked_domains"@.len() == 15,
        ":exception-type"@[0] == ':',
        "allowed_domains"@[0] == 'a',
        "blocked_domains"@[0] == 'b',
        ":generateContent"@.len() == 16,
        "excluded_domains"@.len() == 16,
        "openai_responses"@.len() == 16,
        ":generateContent"@[0] == ':',
        "excluded_domains"@[0] == 'e',
        "openai_responses"@[0] == 'o',
        ":streamRawPredict"@.len() == 17,
        "anthropic-version"@.len() == 17,
        "anthropic_version"@.len() == 17,
        "vertex-2023-10-16"@.len() == 17,
        "web_search_engine"@.len() == 17,
        ":streamRawPredict"@[9] == 'w',
        "anthropic-version"@[9] == '-',
        "anthropic_version"@[9] == '_',
        "vertex-2023-10-16"@[9] == '2',
        "web_search_engine"@[9] == 'h',
        "/publishers/google"@.len() == 18,
        "bedrock-2023-05-31"@.len() == 18,
        "web_search_options"@.len() == 18,
        "/publishers/google"@[0] == '/',
        "bedrock-2023-05-31"@[0] == 'b',
        "web_search_options"@[0] == 'w',
        "web_search_20250305"@.len() == 19,
        "/openai/deployments/"@.len() == 20,
        "search_domain_filter"@.len() == 20,
        "/openai/deployments/"@[0] == '/',
        "search_domain_filter"@[0] == 's',
        "openrouter:web_search"@.len() == 21,
        "provider stream exception "@.len() == 26,
        "invoke-with-response-stream"@.len() == 27,
        "/publishers/anthropic/models/"@.len() == 29,
        "/chat/completions?api-version="@.len() == 30,
        ":streamGenerateContent?alt=sse"@.len() == 30,
        "web_search_call.action.sources"@.len() == 30,
        "/chat/completions?api-version="@[0] == '/',
        ":streamGenerateContent?alt=sse"@[0] == ':',
        "web_search_call.action.sources"@[0] == 'w',
{
    reveal_strlit("/chat/completions?api-version=");
    reveal_strlit("/models/");
    reveal_strlit("/openai/deployments/");
    reveal_strlit("/publishers/anthropic/models/");
    reveal_strlit("/publishers/google");
    reveal_strlit(": ");
    reveal_strlit(":exception-type");
    reveal_strlit(":generateContent");
    reveal_strlit(":message-type");
    reveal_strlit(":rawPredict");
    reveal_strlit(":streamGenerateContent?alt=sse");
    reveal_strlit(":streamRawPredict");
    reveal_strlit("allowed_domains");
    reveal_strlit("anthropic");
    reveal_strlit("anthropic-version");
    reveal_strlit("anthropic_version");
    reveal_strlit("any");
    reveal_strlit("api_version");
    reveal_strlit("auto");
    reveal_strlit("bedrock-2023-05-31");
    reveal_strlit("blocked_domains");
    reveal_strlit("bytes");
    reveal_strlit("deepseek");
    reveal_strlit("enable");
    reveal_strlit("error");
    reveal_strlit("event");
    reveal_strlit("exception");
    reveal_strlit("excluded_domains");
    reveal_strlit("filters");
    reveal_strlit("gemini");
    reveal_strlit("glm");
    reveal_strlit("googleSearch");
    reveal_strlit("include");
    reveal_strlit("invoke");
    reveal_strlit("invoke-with-response-stream");
    reveal_strlit("kimi");
    reveal_strlit("max_uses");
    reveal_strlit("model");
    reveal_strlit("name");
    reveal_strlit("none");
    reveal_strlit("openai_chat");
    reveal_strlit("openai_responses");
    reveal_strlit("openrouter");
    reveal_strlit("openrouter:web_search");
    reveal_strlit("parameters");
    reveal_strlit("provider stream exception ");
    reveal_strlit("required");
    reveal_strlit("search_domain_filter");
    reveal_strlit("search_engine");
    reveal_strlit("search_pro");
    reveal_strlit("search_result");
    reveal_strlit("stream");
    reveal_strlit("tool");
    reveal_strlit("tool_choice");
    reveal_strlit("tools");
    reveal_strlit("type");
    reveal_strlit("vertex-2023-10-16");
    reveal_strlit("web_search");
    reveal_strlit("web_search_20250305");
    reveal_strlit("web_search_call.action.sources");
    reveal_strlit("web_search_engine");
    reveal_strlit("web_search_options");
    reveal_strlit("xai");
}

} // verus!
