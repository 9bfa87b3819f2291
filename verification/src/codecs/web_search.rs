//! Hosted web search. A wire that looks compatible does not by itself mean that
//! the endpoint searches: a profile has to declare its adapter.

use crate::json::{self, Entries, Json, JsonView};
use crate::protocol::error;
use crate::protocol::{
    CompletionRequest, LlmError, LlmErrorView, ProtocolFamily, ProviderProfile, ToolChoice,
    ToolSpec, WebSearchOptions,
};
use crate::text;
use crate::views;
use vstd::prelude::*;

verus! {

broadcast use {crate::views::group_views, crate::json::group_json};

/// A search adapter that a profile can declare.
#[derive(Debug, Clone, Copy, PartialEq, Eq, Structural)]
pub enum SearchAdapter {
    OpenAiResponses,
    Xai,
    Kimi,
    DeepSeek,
    OpenAiChat,
    OpenRouter,
    Glm,
    Anthropic,
    Gemini,
}

pub open spec fn adapter_named(name: Seq<char>) -> Option<SearchAdapter> {
    if name == "openai_responses"@ {
        Some(SearchAdapter::OpenAiResponses)
    } else if name == "xai"@ {
        Some(SearchAdapter::Xai)
    } else if name == "kimi"@ {
        Some(SearchAdapter::Kimi)
    } else if name == "deepseek"@ {
        Some(SearchAdapter::DeepSeek)
    } else if name == "openai_chat"@ {
        Some(SearchAdapter::OpenAiChat)
    } else if name == "openrouter"@ {
        Some(SearchAdapter::OpenRouter)
    } else if name == "glm"@ {
        Some(SearchAdapter::Glm)
    } else if name == "anthropic"@ {
        Some(SearchAdapter::Anthropic)
    } else if name == "gemini"@ {
        Some(SearchAdapter::Gemini)
    } else {
        None
    }
}

fn find_adapter(name: &str) -> (result: Option<SearchAdapter>)
    ensures
        result == adapter_named(name@),
{
    if text::same(name, "openai_responses") {
        Some(SearchAdapter::OpenAiResponses)
    } else if text::same(name, "xai") {
        Some(SearchAdapter::Xai)
    } else if text::same(name, "kimi") {
        Some(SearchAdapter::Kimi)
    } else if text::same(name, "deepseek") {
        Some(SearchAdapter::DeepSeek)
    } else if text::same(name, "openai_chat") {
        Some(SearchAdapter::OpenAiChat)
    } else if text::same(name, "openrouter") {
        Some(SearchAdapter::OpenRouter)
    } else if text::same(name, "glm") {
        Some(SearchAdapter::Glm)
    } else if text::same(name, "anthropic") {
        Some(SearchAdapter::Anthropic)
    } else if text::same(name, "gemini") {
        Some(SearchAdapter::Gemini)
    } else {
        None
    }
}

/// Whether the adapter's tool can stand on the protocol.
pub open spec fn compatible(adapter: SearchAdapter, protocol: ProtocolFamily) -> bool {
    match adapter {
        SearchAdapter::OpenAiResponses
        | SearchAdapter::Xai
        | SearchAdapter::Kimi => protocol == ProtocolFamily::OpenAiResponses,
        SearchAdapter::DeepSeek => protocol == ProtocolFamily::AnthropicMessages,
        SearchAdapter::OpenAiChat
        | SearchAdapter::OpenRouter
        | SearchAdapter::Glm => protocol == ProtocolFamily::OpenAiChat,
        SearchAdapter::Anthropic => protocol == ProtocolFamily::AnthropicMessages || protocol
            == ProtocolFamily::FoundryClaude || protocol == ProtocolFamily::VertexClaude,
        SearchAdapter::Gemini => protocol == ProtocolFamily::GeminiGenerateContent || protocol
            == ProtocolFamily::VertexGemini,
    }
}

fn is_compatible(adapter: SearchAdapter, protocol: ProtocolFamily) -> (result: bool)
    ensures
        result == compatible(adapter, protocol),
{
    match adapter {
        SearchAdapter::OpenAiResponses => protocol == ProtocolFamily::OpenAiResponses,
        SearchAdapter::Xai => protocol == ProtocolFamily::OpenAiResponses,
        SearchAdapter::Kimi => protocol == ProtocolFamily::OpenAiResponses,
        SearchAdapter::DeepSeek => protocol == ProtocolFamily::AnthropicMessages,
        SearchAdapter::OpenAiChat => protocol == ProtocolFamily::OpenAiChat,
        SearchAdapter::OpenRouter => protocol == ProtocolFamily::OpenAiChat,
        SearchAdapter::Glm => protocol == ProtocolFamily::OpenAiChat,
        SearchAdapter::Anthropic => protocol == ProtocolFamily::AnthropicMessages || protocol
            == ProtocolFamily::FoundryClaude || protocol == ProtocolFamily::VertexClaude,
        SearchAdapter::Gemini => protocol == ProtocolFamily::GeminiGenerateContent || protocol
            == ProtocolFamily::VertexGemini,
    }
}

pub open spec fn unsupported_search(profile: ProviderProfile, message: Seq<char>) -> LlmErrorView {
    error::unsupported_view(
        "web search on profile "@ + text::debug_text(profile.profile_name@) + ": "@ + message,
    )
}

fn refuse(profile: &ProviderProfile, message: &str) -> (error: LlmError)
    ensures
        error@ == unsupported_search(*profile, message@),
{
    error::unsupported(
        &text::cat4(
            "web search on profile ",
            &text::debug(&profile.profile_name),
            ": ",
            message,
        ),
    )
}

/// A domain filter that is no domain name.
pub open spec fn bad_domain(domain: Seq<char>) -> bool {
    domain.len() == 0 || exists|i: int|
        0 <= i < domain.len() && (#[trigger] domain[i] == '/' || text::white_space(domain[i]))
}

fn is_bad_domain(domain: &str) -> (result: bool)
    ensures
        result == bad_domain(domain@),
{
    let cs = text::chars(domain);
    let mut i: usize = 0;
    while i < cs.len()
        invariant
            i <= cs.len(),
            cs@ == domain@,
            forall|k: int|
                0 <= k < i ==> #[trigger] cs@[k] != '/' && !text::white_space(cs@[k]),
        decreases cs.len() - i,
    {
        if cs[i] == '/' || text::is_white_space(cs[i]) {
            assert(domain@[i as int] == '/' || text::white_space(domain@[i as int]));
            return true;
        }
        i = i + 1;
    }
    cs.len() == 0
}

pub open spec fn any_bad_domain(domains: Seq<String>) -> bool {
    exists|i: int| 0 <= i < domains.len() && bad_domain((#[trigger] domains[i])@)
}

fn has_bad_domain(domains: &Vec<String>) -> (result: bool)
    ensures
        result == any_bad_domain(domains@),
{
    let mut i: usize = 0;
    while i < domains.len()
        invariant
            i <= domains.len(),
            forall|k: int| 0 <= k < i ==> !bad_domain((#[trigger] domains@[k])@),
        decreases domains.len() - i,
    {
        if is_bad_domain(&domains[i]) {
            return true;
        }
        i = i + 1;
    }
    false
}

pub open spec fn has_search_tool(tools: Seq<ToolSpec>) -> bool {
    exists|i: int| 0 <= i < tools.len() && (#[trigger] tools[i]).name@ == "web_search"@
}

fn names_search_tool(tools: &Vec<ToolSpec>) -> (result: bool)
    ensures
        result == has_search_tool(tools@),
{
    let mut i: usize = 0;
    while i < tools.len()
        invariant
            i <= tools.len(),
            forall|k: int| 0 <= k < i ==> (#[trigger] tools@[k]).name@ != "web_search"@,
        decreases tools.len() - i,
    {
        if text::same(&tools[i].name, "web_search") {
            return true;
        }
        i = i + 1;
    }
    false
}

/// What speaks against a search on the adapter, if anything, in the order of the
/// checks.
pub open spec fn search_error(
    adapter: SearchAdapter,
    search: WebSearchOptions,
    req: CompletionRequest,
    profile: ProviderProfile,
) -> Option<LlmErrorView> {
    let allowed = search.allowed_domains@.len();
    let blocked = search.blocked_domains@.len();
    if !compatible(adapter, profile.protocol) {
        Some(unsupported_search(profile, "unknown adapter or incompatible protocol"@))
    } else if allowed > 0 && blocked > 0 {
        Some(
            error::invalid_view("web search accepts allowed_domains or blocked_domains, not both"@),
        )
    } else if search.max_uses == Some(0u32) {
        Some(error::invalid_view("web search max_uses must be positive"@))
    } else if any_bad_domain(search.allowed_domains@) || any_bad_domain(search.blocked_domains@) {
        Some(
            error::invalid_view(
                "web search domain filters must be domain names without schemes or paths"@,
            ),
        )
    } else if search.max_uses is Some && adapter != SearchAdapter::Anthropic {
        Some(
            unsupported_search(profile, "max_uses is supported only by the anthropic adapter"@),
        )
    } else if (adapter == SearchAdapter::Gemini || adapter == SearchAdapter::OpenAiChat || adapter
        == SearchAdapter::DeepSeek) && (allowed > 0 || blocked > 0) {
        Some(unsupported_search(profile, "this adapter does not support domain filters"@))
    } else if (adapter == SearchAdapter::OpenAiResponses || adapter == SearchAdapter::Kimi)
        && blocked > 0 {
        Some(unsupported_search(profile, "this adapter supports allowed_domains only"@))
    } else if adapter == SearchAdapter::Glm && (blocked > 0 || allowed > 1) {
        Some(
            unsupported_search(
                profile,
                "GLM search supports one allowed domain and no blocked domains"@,
            ),
        )
    } else if adapter == SearchAdapter::Xai && (allowed > 5 || blocked > 5) {
        Some(error::invalid_view("xAI web search accepts at most five domain filters"@))
    } else if (adapter == SearchAdapter::OpenAiResponses || adapter == SearchAdapter::Kimi)
        && allowed > 100 {
        Some(
            error::invalid_view("this web search adapter accepts at most 100 allowed domains"@),
        )
    } else if (adapter == SearchAdapter::Gemini || adapter == SearchAdapter::OpenAiChat || adapter
        == SearchAdapter::Glm || adapter == SearchAdapter::Kimi || adapter
        == SearchAdapter::DeepSeek) && !(req.tool_choice is Auto) {
        Some(
            unsupported_search(profile, "search requires automatic tool choice on this adapter"@),
        )
    } else if (adapter == SearchAdapter::Anthropic || adapter == SearchAdapter::OpenRouter
        || adapter == SearchAdapter::Glm || adapter == SearchAdapter::DeepSeek) && has_search_tool(
        req.tools@,
    ) {
        Some(
            error::invalid_view("a client tool named web_search conflicts with hosted search"@),
        )
    } else if adapter == SearchAdapter::Kimi && (req.temperature is Some || req.thinking is Some) {
        Some(
            unsupported_search(
                profile,
                "Kimi Responses search does not support temperature or a thinking token budget"@,
            ),
        )
    } else if adapter == SearchAdapter::Glm && engine_of(profile) is None {
        Some(error::invalid_view("extra.web_search_engine must be a nonempty string"@))
    } else {
        None
    }
}

/// The search engine that a profile declares, or the default.
pub open spec fn engine_of(profile: ProviderProfile) -> Option<Seq<char>> {
    match json::member(profile.extra@, "web_search_engine"@) {
        None => Some("search_pro"@),
        Some(JsonView::Str(engine)) => if text::blank(engine) {
            None
        } else {
            Some(engine)
        },
        _ => None,
    }
}

fn engine(profile: &ProviderProfile) -> (result: Option<&str>)
    ensures
        result.deep_view() == engine_of(*profile),
{
    match profile.extra.get("web_search_engine") {
        None => Some("search_pro"),
        Some(Json::Str(engine)) => if text::is_blank(engine) {
            None
        } else {
            Some(engine.as_str())
        },
        Some(_) => None,
    }
}

fn check_search(
    adapter: SearchAdapter,
    search: &WebSearchOptions,
    req: &CompletionRequest,
    profile: &ProviderProfile,
) -> (result: Result<(), LlmError>)
    ensures
        views::res(result) == crate::codecs::checked(
            search_error(adapter, *search, *req, *profile),
        ),
{
    let allowed = search.allowed_domains.len();
    let blocked = search.blocked_domains.len();
    if !is_compatible(adapter, profile.protocol) {
        return Err(refuse(profile, "unknown adapter or incompatible protocol"));
    }
    if allowed > 0 && blocked > 0 {
        return Err(
            error::invalid("web search accepts allowed_domains or blocked_domains, not both"),
        );
    }
    let none = match search.max_uses {
        Some(max) => max == 0,
        None => false,
    };
    if none {
        return Err(error::invalid("web search max_uses must be positive"));
    }
    if has_bad_domain(&search.allowed_domains) || has_bad_domain(&search.blocked_domains) {
        return Err(
            error::invalid(
                "web search domain filters must be domain names without schemes or paths",
            ),
        );
    }
    if search.max_uses.is_some() && adapter != SearchAdapter::Anthropic {
        return Err(
            refuse(profile, "max_uses is supported only by the anthropic adapter"),
        );
    }
    if (adapter == SearchAdapter::Gemini || adapter == SearchAdapter::OpenAiChat || adapter
        == SearchAdapter::DeepSeek) && (allowed > 0 || blocked > 0) {
        return Err(refuse(profile, "this adapter does not support domain filters"));
    }
    if (adapter == SearchAdapter::OpenAiResponses || adapter == SearchAdapter::Kimi) && blocked > 0 {
        return Err(refuse(profile, "this adapter supports allowed_domains only"));
    }
    if adapter == SearchAdapter::Glm && (blocked > 0 || allowed > 1) {
        return Err(
            refuse(profile, "GLM search supports one allowed domain and no blocked domains"),
        );
    }
    if adapter == SearchAdapter::Xai && (allowed > 5 || blocked > 5) {
        return Err(error::invalid("xAI web search accepts at most five domain filters"));
    }
    if (adapter == SearchAdapter::OpenAiResponses || adapter == SearchAdapter::Kimi) && allowed
        > 100 {
        return Err(
            error::invalid("this web search adapter accepts at most 100 allowed domains"),
        );
    }
    let auto = match &req.tool_choice {
        ToolChoice::Auto => true,
        _ => false,
    };
    // Gemini's function calling mode does not control its hosted search tool, and
    // chat search models always search: a choice could not be honored.
    if (adapter == SearchAdapter::Gemini || adapter == SearchAdapter::OpenAiChat || adapter
        == SearchAdapter::Glm || adapter == SearchAdapter::Kimi || adapter
        == SearchAdapter::DeepSeek) && !auto {
        return Err(
            refuse(profile, "search requires automatic tool choice on this adapter"),
        );
    }
    if (adapter == SearchAdapter::Anthropic || adapter == SearchAdapter::OpenRouter || adapter
        == SearchAdapter::Glm || adapter == SearchAdapter::DeepSeek) && names_search_tool(
        &req.tools,
    ) {
        return Err(
            error::invalid("a client tool named web_search conflicts with hosted search"),
        );
    }
    if adapter == SearchAdapter::Kimi && (req.temperature.is_some() || req.thinking.is_some()) {
        return Err(
            refuse(
                profile,
                "Kimi Responses search does not support temperature or a thinking token budget",
            ),
        );
    }
    if adapter == SearchAdapter::Glm && engine(profile).is_none() {
        return Err(error::invalid("extra.web_search_engine must be a nonempty string"));
    }
    Ok(())
}

/// The entries with the domains under a key of an object, where there are any.
pub open spec fn with_filter(
    tool: Entries,
    outer: Seq<char>,
    key: Seq<char>,
    domains: Seq<String>,
) -> Entries {
    if domains.len() == 0 {
        tool
    } else {
        json::put(tool, outer, json::obj1(key, json::text_array(texts(domains))))
    }
}

/// The texts of the strings.
pub open spec fn texts(strings: Seq<String>) -> Seq<Seq<char>> {
    views::each(strings)
}

fn add_filter(tool: &mut Vec<(String, Json)>, outer: &str, key: &str, domains: &Vec<String>)
    ensures
        final(tool).deep_view() == with_filter(
            old(tool).deep_view(),
            outer@,
            key@,
            domains@,
        ),
{
    if domains.len() > 0 {
        json::set(tool, outer, json::object1(key, json::strings(domains)));
    }
}

pub open spec fn with_domains(tool: Entries, key: Seq<char>, domains: Seq<String>) -> Entries {
    if domains.len() == 0 {
        tool
    } else {
        json::put(tool, key, json::text_array(texts(domains)))
    }
}

fn add_domains(tool: &mut Vec<(String, Json)>, key: &str, domains: &Vec<String>)
    ensures
        final(tool).deep_view() == with_domains(old(tool).deep_view(), key@, domains@),
{
    if domains.len() > 0 {
        json::set(tool, key, json::strings(domains));
    }
}

/// The hosted tool of the adapter.
pub open spec fn search_tool(
    adapter: SearchAdapter,
    search: WebSearchOptions,
    profile: ProviderProfile,
) -> Entries {
    let none = Seq::<(Seq<char>, JsonView)>::empty();
    match adapter {
        SearchAdapter::OpenAiResponses | SearchAdapter::Xai | SearchAdapter::Kimi => with_filter(
            with_filter(
                json::put(none, "type"@, JsonView::Str("web_search"@)),
                "filters"@,
                "allowed_domains"@,
                search.allowed_domains@,
            ),
            "filters"@,
            "excluded_domains"@,
            search.blocked_domains@,
        ),
        SearchAdapter::Anthropic | SearchAdapter::DeepSeek => with_domains(
            with_domains(
                json::put_some(
                    json::put(
                        json::put(none, "type"@, JsonView::Str("web_search_20250305"@)),
                        "name"@,
                        JsonView::Str("web_search"@),
                    ),
                    "max_uses"@,
                    match search.max_uses {
                        Some(max) => Some(json::uint_view(max as u64)),
                        None => None,
                    },
                ),
                "allowed_domains"@,
                search.allowed_domains@,
            ),
            "blocked_domains"@,
            search.blocked_domains@,
        ),
        SearchAdapter::Gemini => json::put(none, "googleSearch"@, json::obj0()),
        SearchAdapter::Glm => {
            let options = json::put(
                json::put(
                    json::put(none, "enable"@, JsonView::Bool(true)),
                    "search_result"@,
                    JsonView::Bool(true),
                ),
                "search_engine"@,
                JsonView::Str(
                    match engine_of(profile) {
                        Some(engine) => engine,
                        None => ""@,
                    },
                ),
            );
            let filtered = if search.allowed_domains@.len() > 0 {
                json::put(
                    options,
                    "search_domain_filter"@,
                    JsonView::Str(search.allowed_domains@[0]@),
                )
            } else {
                options
            };
            json::put(
                json::put(none, "type"@, JsonView::Str("web_search"@)),
                "web_search"@,
                JsonView::Object(filtered),
            )
        },
        SearchAdapter::OpenRouter => with_filter(
            with_filter(
                json::put(none, "type"@, JsonView::Str("openrouter:web_search"@)),
                "parameters"@,
                "allowed_domains"@,
                search.allowed_domains@,
            ),
            "parameters"@,
            "excluded_domains"@,
            search.blocked_domains@,
        ),
        SearchAdapter::OpenAiChat => none,
    }
}

fn build_tool(adapter: SearchAdapter, search: &WebSearchOptions, profile: &ProviderProfile) -> (tool:
    Vec<(String, Json)>)
    ensures
        tool.deep_view() == search_tool(adapter, *search, *profile),
{
    let mut tool = json::fields();
    match adapter {
        SearchAdapter::OpenAiResponses | SearchAdapter::Xai | SearchAdapter::Kimi => {
            json::set(&mut tool, "type", json::string("web_search"));
            add_filter(&mut tool, "filters", "allowed_domains", &search.allowed_domains);
            add_filter(&mut tool, "filters", "excluded_domains", &search.blocked_domains);
        },
        SearchAdapter::Anthropic | SearchAdapter::DeepSeek => {
            json::set(&mut tool, "type", json::string("web_search_20250305"));
            json::set(&mut tool, "name", json::string("web_search"));
            if let Some(max) = search.max_uses {
                json::set(&mut tool, "max_uses", json::uint(max as u64));
            }
            add_domains(&mut tool, "allowed_domains", &search.allowed_domains);
            add_domains(&mut tool, "blocked_domains", &search.blocked_domains);
        },
        SearchAdapter::Gemini => {
            json::set(&mut tool, "googleSearch", json::object0());
        },
        SearchAdapter::Glm => {
            let mut options = json::fields();
            json::set(&mut options, "enable", Json::Bool(true));
            json::set(&mut options, "search_result", Json::Bool(true));
            let engine = match engine(profile) {
                Some(engine) => engine,
                None => "",
            };
            json::set(&mut options, "search_engine", json::string(engine));
            if search.allowed_domains.len() > 0 {
                json::set(
                    &mut options,
                    "search_domain_filter",
                    json::string(&search.allowed_domains[0]),
                );
            }
            json::set(&mut tool, "type", json::string("web_search"));
            json::set(&mut tool, "web_search", Json::Object(options));
        },
        SearchAdapter::OpenRouter => {
            json::set(&mut tool, "type", json::string("openrouter:web_search"));
            add_filter(&mut tool, "parameters", "allowed_domains", &search.allowed_domains);
            add_filter(&mut tool, "parameters", "excluded_domains", &search.blocked_domains);
        },
        SearchAdapter::OpenAiChat => {},
    }
    tool
}

/// The tool choice that stands beside a hosted tool.
pub open spec fn search_choice(adapter: SearchAdapter, choice: ToolChoice) -> Result<
    JsonView,
    LlmErrorView,
> {
    if adapter == SearchAdapter::Anthropic || adapter == SearchAdapter::DeepSeek {
        Ok(
            match choice {
                ToolChoice::Auto => json::obj1("type"@, JsonView::Str("auto"@)),
                ToolChoice::Forbidden => json::obj1("type"@, JsonView::Str("none"@)),
                ToolChoice::Any => json::obj1("type"@, JsonView::Str("any"@)),
                ToolChoice::Tool { name } => json::obj2(
                    "type"@,
                    JsonView::Str("tool"@),
                    "name"@,
                    JsonView::Str(name@),
                ),
            },
        )
    } else {
        match choice {
            ToolChoice::Auto => Ok(JsonView::Str("auto"@)),
            ToolChoice::Forbidden => Ok(JsonView::Str("none"@)),
            ToolChoice::Any => Ok(JsonView::Str("required"@)),
            ToolChoice::Tool { name } => Err(
                error::invalid_view(
                    "named client tool "@ + text::debug_text(name@) + " is not advertised"@,
                ),
            ),
        }
    }
}

fn hosted_choice(adapter: SearchAdapter, choice: &ToolChoice) -> (result: Result<Json, LlmError>)
    ensures
        views::res(result) == search_choice(adapter, *choice),
{
    if adapter == SearchAdapter::Anthropic || adapter == SearchAdapter::DeepSeek {
        Ok(
            match choice {
                ToolChoice::Auto => json::object1("type", json::string("auto")),
                ToolChoice::Forbidden => json::object1("type", json::string("none")),
                ToolChoice::Any => json::object1("type", json::string("any")),
                ToolChoice::Tool { name } => json::object2(
                    "type",
                    json::string("tool"),
                    "name",
                    json::string(name),
                ),
            },
        )
    } else {
        match choice {
            ToolChoice::Auto => Ok(json::string("auto")),
            ToolChoice::Forbidden => Ok(json::string("none")),
            ToolChoice::Any => Ok(json::string("required")),
            ToolChoice::Tool { name } => Err(
                error::invalid(
                    &text::cat3("named client tool ", &text::debug(name), " is not advertised"),
                ),
            ),
        }
    }
}

/// The body with the hosted tool, behind the ordinary ones.
pub open spec fn with_tool(
    adapter: SearchAdapter,
    search: WebSearchOptions,
    req: CompletionRequest,
    profile: ProviderProfile,
    body: Entries,
) -> Result<Entries, LlmErrorView> {
    if adapter == SearchAdapter::OpenAiChat {
        Ok(json::put(body, "web_search_options"@, json::obj0()))
    } else {
        let included = if adapter == SearchAdapter::Kimi {
            json::put(
                body,
                "include"@,
                JsonView::Array(seq![JsonView::Str("web_search_call.action.sources"@)]),
            )
        } else {
            body
        };
        let tooled = json::pushed(
            included,
            "tools"@,
            JsonView::Object(search_tool(adapter, search, profile)),
        );
        if adapter == SearchAdapter::Gemini || json::entry(tooled, "tool_choice"@) is Some {
            Ok(tooled)
        } else {
            match search_choice(adapter, req.tool_choice) {
                Err(error) => Err(error),
                Ok(choice) => Ok(json::put(tooled, "tool_choice"@, choice)),
            }
        }
    }
}

/// The body with the requested search.
pub open spec fn with_search(req: CompletionRequest, profile: ProviderProfile, body: Entries) -> Result<
    Entries,
    LlmErrorView,
> {
    match req.web_search {
        None => Ok(body),
        Some(search) => match json::str_at(profile.extra@, "web_search"@) {
            None => Err(
                unsupported_search(profile, "no extra.web_search adapter declared"@),
            ),
            Some(name) => match adapter_named(name) {
                None => Err(
                    unsupported_search(profile, "unknown adapter or incompatible protocol"@),
                ),
                Some(adapter) => match search_error(adapter, search, req, profile) {
                    Some(error) => Err(error),
                    None => with_tool(adapter, search, req, profile, body),
                },
            },
        },
    }
}

/// Adds the configured hosted tool after ordinary tools, before profile extras.
/// The profile's data selects the adapter; provider names never do.
pub fn apply(req: &CompletionRequest, profile: &ProviderProfile, body: Vec<(String, Json)>) -> (result:
    Result<Vec<(String, Json)>, LlmError>)
    ensures
        views::res(result) == with_search(*req, *profile, body.deep_view()),
{
    let mut body = body;
    let search = match &req.web_search {
        Some(search) => search,
        None => return Ok(body),
    };
    let name = match profile.extra.str_at("web_search") {
        Some(name) => name,
        None => return Err(refuse(profile, "no extra.web_search adapter declared")),
    };
    let adapter = match find_adapter(name) {
        Some(adapter) => adapter,
        None => return Err(refuse(profile, "unknown adapter or incompatible protocol")),
    };
    check_search(adapter, search, req, profile)?;
    if adapter == SearchAdapter::OpenAiChat {
        json::set(&mut body, "web_search_options", json::object0());
        return Ok(body);
    }
    if adapter == SearchAdapter::Kimi {
        json::set(
            &mut body,
            "include",
            json::array1(json::string("web_search_call.action.sources")),
        );
    }
    json::push_at(&mut body, "tools", Json::Object(build_tool(adapter, search, profile)));
    // The encoders emit a choice only where client tools exist. Hosted tools need
    // one too, an explicit refusal included.
    if adapter != SearchAdapter::Gemini && json::find(&body, "tool_choice").is_none() {
        let choice = hosted_choice(adapter, &req.tool_choice)?;
        json::set(&mut body, "tool_choice", choice);
    }
    Ok(body)
}

} // verus!
