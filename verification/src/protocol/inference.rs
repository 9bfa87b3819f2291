//! Reasoning and service-tier controls, and what a model supports of them.

use crate::text;
use vstd::prelude::*;

verus! {

#[derive(Debug, Clone, Copy, PartialEq, Eq, Structural)]
pub enum CapabilitySupport {
    Unknown,
    Supported,
    Unsupported,
}

/// What a plain yes or no says.
pub open spec fn known(flag: bool) -> CapabilitySupport {
    if flag {
        CapabilitySupport::Supported
    } else {
        CapabilitySupport::Unsupported
    }
}

impl CapabilitySupport {
    /// What a plain yes or no says.
    pub fn stated(flag: bool) -> (result: CapabilitySupport)
        ensures
            result == known(flag),
    {
        if flag {
            CapabilitySupport::Supported
        } else {
            CapabilitySupport::Unsupported
        }
    }
}

#[derive(Debug, Clone, Copy, PartialEq, Eq, PartialOrd, Ord, Structural)]
pub enum ThinkingMode {
    Enabled,
    Disabled,
    Adaptive,
}

pub open spec fn mode_name(mode: ThinkingMode) -> Seq<char> {
    match mode {
        ThinkingMode::Enabled => "enabled"@,
        ThinkingMode::Disabled => "disabled"@,
        ThinkingMode::Adaptive => "adaptive"@,
    }
}

pub open spec fn mode_named(name: Seq<char>) -> Option<ThinkingMode> {
    if name == "enabled"@ {
        Some(ThinkingMode::Enabled)
    } else if name == "disabled"@ {
        Some(ThinkingMode::Disabled)
    } else if name == "adaptive"@ {
        Some(ThinkingMode::Adaptive)
    } else {
        None
    }
}

impl ThinkingMode {
    pub fn as_str(self) -> (result: &'static str)
        ensures
            result@ == mode_name(self),
    {
        match self {
            ThinkingMode::Enabled => "enabled",
            ThinkingMode::Disabled => "disabled",
            ThinkingMode::Adaptive => "adaptive",
        }
    }

    /// The mode with the name.
    pub fn named(name: &str) -> (result: Option<ThinkingMode>)
        ensures
            result == mode_named(name@),
    {
        if text::same(name, "enabled") {
            Some(ThinkingMode::Enabled)
        } else if text::same(name, "disabled") {
            Some(ThinkingMode::Disabled)
        } else if text::same(name, "adaptive") {
            Some(ThinkingMode::Adaptive)
        } else {
            None
        }
    }
}

#[derive(Debug, Clone, Copy, PartialEq, Eq, PartialOrd, Ord, Structural)]
pub enum ReasoningEffort {
    Off,
    Minimal,
    Low,
    Medium,
    High,
    XHigh,
    Max,
}

pub open spec fn effort_name(effort: ReasoningEffort) -> Seq<char> {
    match effort {
        ReasoningEffort::Off => "none"@,
        ReasoningEffort::Minimal => "minimal"@,
        ReasoningEffort::Low => "low"@,
        ReasoningEffort::Medium => "medium"@,
        ReasoningEffort::High => "high"@,
        ReasoningEffort::XHigh => "xhigh"@,
        ReasoningEffort::Max => "max"@,
    }
}

pub open spec fn effort_named(name: Seq<char>) -> Option<ReasoningEffort> {
    if name == "none"@ {
        Some(ReasoningEffort::Off)
    } else if name == "minimal"@ {
        Some(ReasoningEffort::Minimal)
    } else if name == "low"@ {
        Some(ReasoningEffort::Low)
    } else if name == "medium"@ {
        Some(ReasoningEffort::Medium)
    } else if name == "high"@ {
        Some(ReasoningEffort::High)
    } else if name == "xhigh"@ {
        Some(ReasoningEffort::XHigh)
    } else if name == "max"@ {
        Some(ReasoningEffort::Max)
    } else {
        None
    }
}

/// Every effort, in rising order.
pub open spec fn all_efforts() -> Seq<ReasoningEffort> {
    seq![
        ReasoningEffort::Off,
        ReasoningEffort::Minimal,
        ReasoningEffort::Low,
        ReasoningEffort::Medium,
        ReasoningEffort::High,
        ReasoningEffort::XHigh,
        ReasoningEffort::Max,
    ]
}

impl ReasoningEffort {
    pub fn as_str(self) -> (result: &'static str)
        ensures
            result@ == effort_name(self),
    {
        match self {
            ReasoningEffort::Off => "none",
            ReasoningEffort::Minimal => "minimal",
            ReasoningEffort::Low => "low",
            ReasoningEffort::Medium => "medium",
            ReasoningEffort::High => "high",
            ReasoningEffort::XHigh => "xhigh",
            ReasoningEffort::Max => "max",
        }
    }

    /// The effort with the name.
    pub fn named(name: &str) -> (result: Option<ReasoningEffort>)
        ensures
            result == effort_named(name@),
    {
        if text::same(name, "none") {
            Some(ReasoningEffort::Off)
        } else if text::same(name, "minimal") {
            Some(ReasoningEffort::Minimal)
        } else if text::same(name, "low") {
            Some(ReasoningEffort::Low)
        } else if text::same(name, "medium") {
            Some(ReasoningEffort::Medium)
        } else if text::same(name, "high") {
            Some(ReasoningEffort::High)
        } else if text::same(name, "xhigh") {
            Some(ReasoningEffort::XHigh)
        } else if text::same(name, "max") {
            Some(ReasoningEffort::Max)
        } else {
            None
        }
    }

    /// Every effort, in rising order.
    pub fn all() -> (result: Vec<ReasoningEffort>)
        ensures
            result@ == all_efforts(),
    {
        let result = vec![
            ReasoningEffort::Off,
            ReasoningEffort::Minimal,
            ReasoningEffort::Low,
            ReasoningEffort::Medium,
            ReasoningEffort::High,
            ReasoningEffort::XHigh,
            ReasoningEffort::Max,
        ];
        assert(result@ =~= all_efforts());
        result
    }
}

#[derive(Debug, Clone, Copy, PartialEq, Eq, Structural)]
pub enum ThinkingBudget {
    Tokens(u32),
    /// The provider chooses.
    Dynamic,
}

#[derive(Debug, Clone, Copy, PartialEq, Eq)]
pub struct ThinkingConfig {
    pub mode: Option<ThinkingMode>,
    pub budget: Option<ThinkingBudget>,
    pub effort: Option<ReasoningEffort>,
}

#[derive(Debug, Clone, Copy, PartialEq, Eq, Structural)]
pub enum ServiceTier {
    Standard,
    Fast,
}

/// How a wire asks for faster service.
#[derive(Debug, Clone, Copy, PartialEq, Eq, Structural)]
pub enum FastWire {
    Priority,
    Speed,
    Fast,
    Unavailable,
}

/// How a wire writes reasoning controls.
#[derive(Debug, Clone, Copy, PartialEq, Eq, Structural)]
pub enum ReasoningWire {
    OpenAiChat,
    OpenAiResponses,
    Anthropic,
    Gemini,
    ThinkingType,
    EnableThinking,
    ReasoningObject,
    Unavailable,
}

/// How a connection takes reasoning and service-tier controls.
#[derive(Debug, Clone, PartialEq, Eq)]
pub struct InferenceConfig {
    pub reasoning: ReasoningWire,
    pub fast: Option<FastWire>,
    pub enabled_requires_budget: Option<bool>,
    pub fast_beta: Option<String>,
    pub tier_response_header: Option<String>,
}

pub fn same_mode(a: Option<ThinkingMode>, b: Option<ThinkingMode>) -> (result: bool)
    ensures
        result == (a == b),
{
    match (a, b) {
        (Some(a), Some(b)) => a == b,
        (None, None) => true,
        _ => false,
    }
}

pub fn same_effort(a: Option<ReasoningEffort>, b: Option<ReasoningEffort>) -> (result: bool)
    ensures
        result == (a == b),
{
    match (a, b) {
        (Some(a), Some(b)) => a == b,
        (None, None) => true,
        _ => false,
    }
}

pub fn same_tier(a: Option<ServiceTier>, b: Option<ServiceTier>) -> (result: bool)
    ensures
        result == (a == b),
{
    match (a, b) {
        (Some(a), Some(b)) => a == b,
        (None, None) => true,
        _ => false,
    }
}

/// What was asked of inference, and what the provider reports.
#[derive(Debug, Clone, PartialEq, Eq)]
pub struct InferenceReport {
    pub requested_effort: Option<ReasoningEffort>,
    pub requested_service_tier: Option<ServiceTier>,
    pub requested_raw_service_tier: Option<String>,
    pub reported_effort: Option<ReasoningEffort>,
    pub raw_effort: Option<String>,
    pub service_tier: Option<ServiceTier>,
    pub raw_service_tier: Option<String>,
    pub raw_speed: Option<String>,
}

pub struct InferenceReportView {
    pub requested_effort: Option<ReasoningEffort>,
    pub requested_service_tier: Option<ServiceTier>,
    pub requested_raw_service_tier: Option<Seq<char>>,
    pub reported_effort: Option<ReasoningEffort>,
    pub raw_effort: Option<Seq<char>>,
    pub service_tier: Option<ServiceTier>,
    pub raw_service_tier: Option<Seq<char>>,
    pub raw_speed: Option<Seq<char>>,
}

impl View for InferenceReport {
    type V = InferenceReportView;

    open spec fn view(&self) -> InferenceReportView {
        InferenceReportView {
            requested_effort: self.requested_effort,
            requested_service_tier: self.requested_service_tier,
            requested_raw_service_tier: self.requested_raw_service_tier.deep_view(),
            reported_effort: self.reported_effort,
            raw_effort: self.raw_effort.deep_view(),
            service_tier: self.service_tier,
            raw_service_tier: self.raw_service_tier.deep_view(),
            raw_speed: self.raw_speed.deep_view(),
        }
    }
}

impl DeepView for InferenceReport {
    type V = InferenceReportView;

    open spec fn deep_view(&self) -> InferenceReportView {
        self@
    }
}

/// Nothing asked, nothing reported.
pub open spec fn no_report() -> InferenceReportView {
    InferenceReportView {
        requested_effort: None,
        requested_service_tier: None,
        requested_raw_service_tier: None,
        reported_effort: None,
        raw_effort: None,
        service_tier: None,
        raw_service_tier: None,
        raw_speed: None,
    }
}

impl Default for InferenceReport {
    fn default() -> (result: Self)
        ensures
            result@ == no_report(),
    {
        InferenceReport {
            requested_effort: None,
            requested_service_tier: None,
            requested_raw_service_tier: None,
            reported_effort: None,
            raw_effort: None,
            service_tier: None,
            raw_service_tier: None,
            raw_speed: None,
        }
    }
}

/// A copy of a text that may be there.
pub fn dup_text(s: &Option<String>) -> (result: Option<String>)
    ensures
        result.deep_view() == s.deep_view(),
{
    match s {
        Some(s) => Some(s.clone()),
        None => None,
    }
}

/// Whether two texts that may be there are the same.
pub fn same_text(a: &Option<String>, b: &Option<String>) -> (result: bool)
    ensures
        result == (a.deep_view() == b.deep_view()),
{
    match (a, b) {
        (Some(a), Some(b)) => text::same(a, b),
        (None, None) => true,
        _ => false,
    }
}

impl InferenceReport {
    pub fn dup(&self) -> (result: InferenceReport)
        ensures
            result@ == self@,
    {
        InferenceReport {
            requested_effort: self.requested_effort,
            requested_service_tier: self.requested_service_tier,
            requested_raw_service_tier: dup_text(&self.requested_raw_service_tier),
            reported_effort: self.reported_effort,
            raw_effort: dup_text(&self.raw_effort),
            service_tier: self.service_tier,
            raw_service_tier: dup_text(&self.raw_service_tier),
            raw_speed: dup_text(&self.raw_speed),
        }
    }

    pub fn same(&self, other: &InferenceReport) -> (result: bool)
        ensures
            result == (self@ == other@),
    {
        same_effort(self.requested_effort, other.requested_effort) && same_tier(
            self.requested_service_tier,
            other.requested_service_tier,
        ) && same_text(&self.requested_raw_service_tier, &other.requested_raw_service_tier)
            && same_effort(self.reported_effort, other.reported_effort) && same_text(
            &self.raw_effort,
            &other.raw_effort,
        ) && same_tier(self.service_tier, other.service_tier) && same_text(
            &self.raw_service_tier,
            &other.raw_service_tier,
        ) && same_text(&self.raw_speed, &other.raw_speed)
    }
}

impl InferenceConfig {
    pub fn dup(&self) -> (result: InferenceConfig)
        ensures
            result == *self,
    {
        InferenceConfig {
            reasoning: self.reasoning,
            fast: self.fast,
            enabled_requires_budget: self.enabled_requires_budget,
            fast_beta: match &self.fast_beta {
                Some(beta) => Some(beta.clone()),
                None => None,
            },
            tier_response_header: match &self.tier_response_header {
                Some(header) => Some(header.clone()),
                None => None,
            },
        }
    }
}

} // verus!
