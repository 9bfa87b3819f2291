//! Message-level reasoning metadata. Opaque details keep their wire order:
//! display text cannot reconstruct encrypted or signed replay data.

use crate::json::{self, Entries, Json, JsonView};
use crate::protocol::error;
use crate::protocol::{LlmError, LlmErrorView, ProtocolFamily};
use crate::text;
use crate::views;
use vstd::prelude::*;

verus! {

broadcast use {crate::views::group_views, crate::json::group_json};

/// The two reasoning fields of a message.
pub struct ReasoningFields {
    pub reasoning: Option<String>,
    pub details: Option<Vec<Json>>,
}

pub struct ReasoningView {
    pub reasoning: Option<Seq<char>>,
    pub details: Option<Seq<JsonView>>,
}

impl DeepView for ReasoningFields {
    type V = ReasoningView;

    open spec fn deep_view(&self) -> ReasoningView {
        ReasoningView {
            reasoning: self.reasoning.deep_view(),
            details: self.details.deep_view(),
        }
    }
}

pub open spec fn invalid_field(name: Seq<char>) -> LlmErrorView {
    LlmErrorView::ProviderInternal { message: "Chat response has invalid "@ + name }
}

/// The reasoning fields of a message. Null counts as missing.
pub open spec fn fields_of(message: JsonView) -> Result<ReasoningView, LlmErrorView> {
    let reasoning = match json::at(message, "reasoning"@) {
        JsonView::Null => Ok(None),
        JsonView::Str(text) => Ok(Some(text)),
        _ => Err(invalid_field("reasoning"@)),
    };
    let details = match json::at(message, "reasoning_details"@) {
        JsonView::Null => Ok(None),
        JsonView::Array(details) => Ok(Some(details)),
        _ => Err(invalid_field("reasoning_details"@)),
    };
    match reasoning {
        Err(error) => Err(error),
        Ok(reasoning) => match details {
            Err(error) => Err(error),
            Ok(details) => Ok(ReasoningView { reasoning, details }),
        },
    }
}

fn invalid(name: &str) -> (error: LlmError)
    ensures
        error@ == invalid_field(name@),
{
    LlmError::ProviderInternal { message: text::cat2("Chat response has invalid ", name) }
}

fn fields(message: &Json) -> (result: Result<ReasoningFields, LlmError>)
    ensures
        views::res(result) == fields_of(message@),
{
    let reasoning = match message.get("reasoning") {
        None => None,
        Some(Json::Null) => None,
        Some(Json::Str(text)) => Some(text.clone()),
        Some(_) => return Err(invalid("reasoning")),
    };
    let details = match message.get("reasoning_details") {
        None => None,
        Some(Json::Null) => None,
        Some(Json::Array(details)) => Some(json::dup_items(details)),
        Some(_) => return Err(invalid("reasoning_details")),
    };
    Ok(ReasoningFields { reasoning, details })
}

pub open spec fn some_text(text: Option<Seq<char>>) -> Option<JsonView> {
    match text {
        Some(text) => Some(JsonView::Str(text)),
        None => None,
    }
}

pub open spec fn some_array(items: Option<Seq<JsonView>>) -> Option<JsonView> {
    match items {
        Some(items) => Some(JsonView::Array(items)),
        None => None,
    }
}

/// The fields as members of a message.
pub open spec fn members(fields: ReasoningView) -> Entries {
    json::put_some(
        json::put_some(Seq::empty(), "reasoning"@, some_text(fields.reasoning)),
        "reasoning_details"@,
        some_array(fields.details),
    )
}

fn as_members(fields: ReasoningFields) -> (result: Vec<(String, Json)>)
    ensures
        result.deep_view() == members(fields.deep_view()),
{
    let mut out = json::fields();
    if let Some(text) = fields.reasoning {
        json::set(&mut out, "reasoning", Json::Str(text));
    }
    if let Some(details) = fields.details {
        json::set(&mut out, "reasoning_details", Json::Array(details));
    }
    out
}

pub open spec fn no_reasoning(fields: ReasoningView) -> bool {
    fields.reasoning is None && fields.details is None
}

/// The envelope that keeps the fields for replay.
pub open spec fn envelope_of(fields: ReasoningView) -> Option<JsonView> {
    if no_reasoning(fields) {
        None
    } else {
        Some(
            JsonView::Object(
                json::put(members(fields), "type"@, JsonView::Str("chat_reasoning"@)),
            ),
        )
    }
}

fn envelope(fields: ReasoningFields) -> (result: Option<Json>)
    ensures
        result.deep_view() == envelope_of(fields.deep_view()),
{
    if fields.reasoning.is_none() && fields.details.is_none() {
        return None;
    }
    let mut out = as_members(fields);
    json::set(&mut out, "type", json::string("chat_reasoning"));
    Some(Json::Object(out))
}

/// The replay envelope of a message, if it has reasoning metadata.
pub fn from_message(message: &Json) -> (result: Result<Option<Json>, LlmError>)
    ensures
        views::res(result) == (match fields_of(message@) {
            Ok(fields) => Ok(envelope_of(fields)),
            Err(error) => Err(error),
        }),
{
    let fields = fields(message)?;
    Ok(envelope(fields))
}

/// The text that a detail displays.
pub open spec fn detail_text(detail: JsonView) -> Seq<char> {
    let kind = json::str_at(detail, "type"@);
    let shown = if kind == Some("reasoning.text"@) {
        json::str_at(detail, "text"@)
    } else if kind == Some("reasoning.summary"@) {
        json::str_at(detail, "summary"@)
    } else {
        None
    };
    match shown {
        Some(text) => text,
        None => Seq::empty(),
    }
}

/// The display text of the details from the `i`th on.
pub open spec fn details_text(details: Seq<JsonView>, i: int, before: Seq<char>) -> Seq<char>
    decreases details.len() - i,
{
    if i < 0 || i >= details.len() {
        before
    } else {
        details_text(details, i + 1, before + detail_text(details[i]))
    }
}

/// A text that is there and not empty.
pub open spec fn shown(message: JsonView, name: Seq<char>) -> Option<Seq<char>> {
    match json::str_at(message, name) {
        Some(text) => if text.len() > 0 {
            Some(text)
        } else {
            None
        },
        None => None,
    }
}

/// What a message shows of its reasoning.
pub open spec fn display_of(message: JsonView) -> Seq<char> {
    match shown(message, "reasoning_content"@) {
        Some(text) => text,
        None => match shown(message, "reasoning"@) {
            Some(text) => text,
            None => details_text(
                json::items_in(json::member(message, "reasoning_details"@)),
                0,
                Seq::empty(),
            ),
        },
    }
}

fn shown_text<'a>(message: &'a Json, name: &str) -> (result: Option<&'a str>)
    ensures
        result.deep_view() == shown(message@, name@),
{
    match message.str_at(name) {
        Some(text) => if text::is_empty(text) {
            None
        } else {
            Some(text)
        },
        None => None,
    }
}

pub fn display_text(message: &Json) -> (result: String)
    ensures
        result@ == display_of(message@),
{
    if let Some(text) = shown_text(message, "reasoning_content") {
        return text.to_owned();
    }
    if let Some(text) = shown_text(message, "reasoning") {
        return text.to_owned();
    }
    let mut out = String::new();
    if let Some(Json::Array(details)) = message.get("reasoning_details") {
        let mut i: usize = 0;
        while i < details.len()
            invariant
                i <= details.len(),
                details_text(details.deep_view(), 0, Seq::empty()) == details_text(
                    details.deep_view(),
                    i as int,
                    out@,
                ),
            decreases details.len() - i,
        {
            assert(details.deep_view()[i as int] == details@[i as int]@);
            let detail = &details[i];
            let shown = if json::kind_is(detail, "reasoning.text") {
                detail.str_at("text")
            } else if json::kind_is(detail, "reasoning.summary") {
                detail.str_at("summary")
            } else {
                None
            };
            let ghost before = out@;
            if let Some(text) = shown {
                out.append(text);
            }
            assert(out@ =~= before + detail_text(detail@));
            i = i + 1;
        }
    }
    out
}

pub open spec fn replay_error() -> LlmErrorView {
    error::invalid_view(
        "Chat reasoning metadata must contain a string reasoning or array reasoning_details and no other fields"@,
    )
}

/// Whether an envelope holds only what it may.
pub open spec fn only_known(entries: Entries) -> bool {
    forall|i: int|
        0 <= i < entries.len() ==> (#[trigger] entries[i]).0 == "type"@ || entries[i].0
            == "reasoning"@ || entries[i].0 == "reasoning_details"@
}

/// The message members that an envelope replays. Only recognized metadata may
/// leave the envelope, never a field that replaces role, content or tool calls.
pub open spec fn replayed(protocol: ProtocolFamily, value: JsonView) -> Result<Entries, LlmErrorView> {
    if protocol != ProtocolFamily::OpenAiChat || json::str_at(value, "type"@) != Some(
        "chat_reasoning"@,
    ) {
        Err(error::unsupported_view("native content is not Chat reasoning metadata"@))
    } else {
        match value {
            JsonView::Object(entries) => {
                let reasoning = json::entry(entries, "reasoning"@);
                let details = json::entry(entries, "reasoning_details"@);
                if !only_known(entries) || (reasoning is Some && !(reasoning->0 is Str)) || (
                details is Some && !(details->0 is Array)) {
                    Err(replay_error())
                } else {
                    match fields_of(value) {
                        Ok(fields) => if no_reasoning(fields) {
                            Err(replay_error())
                        } else {
                            Ok(members(fields))
                        },
                        Err(_) => Err(replay_error()),
                    }
                }
            },
            _ => Err(replay_error()),
        }
    }
}

fn bad_replay() -> (error: LlmError)
    ensures
        error@ == replay_error(),
{
    error::invalid(
        "Chat reasoning metadata must contain a string reasoning or array reasoning_details and no other fields",
    )
}

fn holds_only_known(entries: &Vec<(String, Json)>) -> (result: bool)
    ensures
        result == only_known(entries.deep_view()),
{
    let mut i: usize = 0;
    while i < entries.len()
        invariant
            i <= entries.len(),
            forall|k: int|
                0 <= k < i ==> (#[trigger] entries.deep_view()[k]).0 == "type"@
                    || entries.deep_view()[k].0 == "reasoning"@ || entries.deep_view()[k].0
                    == "reasoning_details"@,
        decreases entries.len() - i,
    {
        assert(entries.deep_view()[i as int] == entries@[i as int].deep_view());
        let key = entries[i].0.as_str();
        if !text::same(key, "type") && !text::same(key, "reasoning") && !text::same(
            key,
            "reasoning_details",
        ) {
            return false;
        }
        i = i + 1;
    }
    true
}

pub fn replay_fields(protocol: ProtocolFamily, value: &Json) -> (result: Result<
    Vec<(String, Json)>,
    LlmError,
>)
    ensures
        views::res(result) == replayed(protocol, value@),
{
    if protocol != ProtocolFamily::OpenAiChat || !json::kind_is(value, "chat_reasoning") {
        return Err(error::unsupported("native content is not Chat reasoning metadata"));
    }
    let entries = match value.as_object() {
        Some(entries) => entries,
        None => return Err(bad_replay()),
    };
    let wrong_text = match json::find(entries, "reasoning") {
        Some(Json::Str(_)) => false,
        Some(_) => true,
        None => false,
    };
    let wrong_details = match json::find(entries, "reasoning_details") {
        Some(Json::Array(_)) => false,
        Some(_) => true,
        None => false,
    };
    if !holds_only_known(entries) || wrong_text || wrong_details {
        return Err(bad_replay());
    }
    match fields(value) {
        Ok(found) => if found.reasoning.is_none() && found.details.is_none() {
            Err(bad_replay())
        } else {
            Ok(as_members(found))
        },
        Err(_) => Err(bad_replay()),
    }
}

/// The reasoning metadata of a message that arrives in pieces.
pub struct ReasoningStream {
    pub fields: ReasoningFields,
}

impl View for ReasoningStream {
    type V = ReasoningView;

    open spec fn view(&self) -> ReasoningView {
        self.fields.deep_view()
    }
}

/// What is held once a piece came in.
pub open spec fn continued(held: ReasoningView, piece: ReasoningView) -> ReasoningView {
    ReasoningView {
        reasoning: match (held.reasoning, piece.reasoning) {
            (Some(a), Some(b)) => Some(a + b),
            (None, b) => b,
            (a, None) => a,
        },
        details: match (held.details, piece.details) {
            (Some(a), Some(b)) => Some(a + b),
            (None, b) => b,
            (a, None) => a,
        },
    }
}

impl ReasoningStream {
    pub fn new() -> (result: Self)
        ensures
            result@ == (ReasoningView { reasoning: None, details: None }),
    {
        ReasoningStream { fields: ReasoningFields { reasoning: None, details: None } }
    }

    /// Takes in a piece, and says whether it held reasoning metadata.
    pub fn observe(&mut self, delta: &Json) -> (result: Result<bool, LlmError>)
        ensures
            match fields_of(delta@) {
                Err(error) => final(self)@ == old(self)@ && views::res(result) == Err::<
                    bool,
                    LlmErrorView,
                >(error),
                Ok(piece) => final(self)@ == continued(old(self)@, piece) && views::res(result)
                    == Ok::<bool, LlmErrorView>(!no_reasoning(piece)),
            },
    {
        let ghost held = self@;
        let piece = fields(delta)?;
        let ghost came = piece.deep_view();
        let present = piece.reasoning.is_some() || piece.details.is_some();
        if let Some(more) = piece.reasoning {
            let text = match &self.fields.reasoning {
                Some(text) => text::cat2(text, &more),
                None => more,
            };
            self.fields.reasoning = Some(text);
        }
        if let Some(more) = piece.details {
            let mut all = match &self.fields.details {
                Some(details) => json::dup_items(details),
                None => Vec::new(),
            };
            let ghost first = all.deep_view();
            let mut i: usize = 0;
            assert(all.deep_view() =~= first + more.deep_view().take(0));
            while i < more.len()
                invariant
                    i <= more.len(),
                    all.deep_view() == first + more.deep_view().take(i as int),
                decreases more.len() - i,
            {
                all.push(more[i].dup());
                i = i + 1;
                assert(more.deep_view().take(i as int) =~= more.deep_view().take(i - 1).push(
                    more@[i - 1]@,
                ));
                assert(all.deep_view() =~= first + more.deep_view().take(i as int));
            }
            assert(more.deep_view().take(i as int) =~= more.deep_view());
            assert(held.details is None ==> first + more.deep_view() =~= more.deep_view());
            self.fields.details = Some(all);
        }
        assert(self@ =~= continued(held, came));
        Ok(present)
    }

    /// The replay envelope of what was held, which is held no more.
    pub fn take(&mut self) -> (result: Option<Json>)
        ensures
            result.deep_view() == envelope_of(old(self)@),
            final(self)@ == (ReasoningView { reasoning: None, details: None }),
    {
        let mut held = ReasoningFields { reasoning: None, details: None };
        std::mem::swap(&mut held, &mut self.fields);
        envelope(held)
    }
}

/// What was kept of a message's reasoning is what a later request replays, field
/// for field.
pub proof fn kept_reasoning_is_replayed(fields: ReasoningView)
    requires
        !no_reasoning(fields),
    ensures
        replayed(ProtocolFamily::OpenAiChat, envelope_of(fields)->0) == Ok::<_, LlmErrorView>(
            members(fields),
        ),
{
    reveal_strlit("type");
    reveal_strlit("reasoning");
    reveal_strlit("reasoning_details");
    assert("type"@.len() == 4 && "reasoning"@.len() == 9 && "reasoning_details"@.len() == 17);
    let none = Seq::<(Seq<char>, JsonView)>::empty();
    let first = json::put_some(none, "reasoning"@, some_text(fields.reasoning));
    let both = members(fields);
    let kind = JsonView::Str("chat_reasoning"@);
    let all = json::put(both, "type"@, kind);
    if let Some(text) = fields.reasoning {
        json::put_then_entry(none, "reasoning"@, JsonView::Str(text), "reasoning_details"@);
    }
    if let Some(details) = fields.details {
        json::put_then_entry(
            first,
            "reasoning_details"@,
            JsonView::Array(details),
            "reasoning"@,
        );
    }
    json::put_then_entry(both, "type"@, kind, "reasoning"@);
    json::put_then_entry(both, "type"@, kind, "reasoning_details"@);
    assert forall|k: int| 0 <= k < all.len() implies (#[trigger] all[k]).0 == "type"@ || all[k].0
        == "reasoning"@ || all[k].0 == "reasoning_details"@ by {
        json::put_adds_one_key(both, "type"@, kind, k);
        if all[k].0 != "type"@ {
            let n = choose|n: int| 0 <= n < both.len() && both[n] == all[k];
            if let Some(details) = fields.details {
                json::put_adds_one_key(first, "reasoning_details"@, JsonView::Array(details), n);
                if both[n].0 != "reasoning_details"@ {
                    let m = choose|m: int| 0 <= m < first.len() && first[m] == both[n];
                    if let Some(text) = fields.reasoning {
                        json::put_adds_one_key(none, "reasoning"@, JsonView::Str(text), m);
                    }
                }
            } else if let Some(text) = fields.reasoning {
                json::put_adds_one_key(none, "reasoning"@, JsonView::Str(text), n);
            }
        }
    }
}

} // verus!
