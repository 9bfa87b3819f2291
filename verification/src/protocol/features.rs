//! What is known of a model's reasoning controls: what a catalog, a directory and
//! settings state of them, and what a request is held against.

use crate::content::Content;
use crate::protocol::inference::{self, CapabilitySupport, ReasoningEffort, ThinkingMode};
use crate::protocol::profile;
use crate::text;
use vstd::prelude::*;

verus! {

broadcast use crate::views::group_views;

/// What is known of each mode.
#[derive(Debug, Clone, Copy, PartialEq, Eq, Structural)]
pub struct ModeSupport {
    pub enabled: CapabilitySupport,
    pub disabled: CapabilitySupport,
    pub adaptive: CapabilitySupport,
}

/// What is known of each effort.
#[derive(Debug, Clone, Copy, PartialEq, Eq, Structural)]
pub struct EffortSupport {
    pub off: CapabilitySupport,
    pub minimal: CapabilitySupport,
    pub low: CapabilitySupport,
    pub medium: CapabilitySupport,
    pub high: CapabilitySupport,
    pub xhigh: CapabilitySupport,
    pub max: CapabilitySupport,
}

/// What is known of one effort under one mode, or under none.
#[derive(Debug, Clone, PartialEq, Eq)]
pub struct EffortRule {
    pub mode: Option<ThinkingMode>,
    pub effort: ReasoningEffort,
    pub support: CapabilitySupport,
    /// Why the effort contradicts the mode, where it does.
    pub conflict: Option<String>,
}

pub struct EffortRuleView {
    pub mode: Option<ThinkingMode>,
    pub effort: ReasoningEffort,
    pub support: CapabilitySupport,
    pub conflict: Option<Seq<char>>,
}

impl DeepView for EffortRule {
    type V = EffortRuleView;

    open spec fn deep_view(&self) -> EffortRuleView {
        EffortRuleView {
            mode: self.mode,
            effort: self.effort,
            support: self.support,
            conflict: self.conflict.deep_view(),
        }
    }
}

/// What is known of a model's reasoning controls. Absence is "unknown", not a
/// negative.
#[derive(Debug, Clone, PartialEq, Eq)]
pub struct InferenceFeatures {
    pub thinking: CapabilitySupport,
    pub fast: CapabilitySupport,
    pub modes: Option<Vec<ThinkingMode>>,
    pub default_mode: Option<ThinkingMode>,
    pub mode_support: ModeSupport,
    /// Whether a tool can be forced in each mode.
    pub forced_tool_choice: ModeSupport,
    pub effort: CapabilitySupport,
    pub efforts: Option<Vec<ReasoningEffort>>,
    pub default_effort: Option<ReasoningEffort>,
    pub effort_support: EffortSupport,
    /// What is known of efforts under modes. The first rule for a case holds.
    pub effort_rules: Vec<EffortRule>,
    pub budget: CapabilitySupport,
    pub dynamic_budget: CapabilitySupport,
    pub min_budget: Option<u32>,
    pub max_budget: Option<u32>,
    /// Where the facts come from.
    pub sources: Vec<String>,
}

pub struct FeaturesView {
    pub thinking: CapabilitySupport,
    pub fast: CapabilitySupport,
    pub modes: Option<Seq<ThinkingMode>>,
    pub default_mode: Option<ThinkingMode>,
    pub mode_support: ModeSupport,
    pub forced_tool_choice: ModeSupport,
    pub effort: CapabilitySupport,
    pub efforts: Option<Seq<ReasoningEffort>>,
    pub default_effort: Option<ReasoningEffort>,
    pub effort_support: EffortSupport,
    pub effort_rules: Seq<EffortRuleView>,
    pub budget: CapabilitySupport,
    pub dynamic_budget: CapabilitySupport,
    pub min_budget: Option<u32>,
    pub max_budget: Option<u32>,
    pub sources: Seq<Seq<char>>,
}

/// The list, if it is there.
pub open spec fn listed<T>(list: Option<Vec<T>>) -> Option<Seq<T>> {
    match list {
        Some(list) => Some(list@),
        None => None,
    }
}

impl View for InferenceFeatures {
    type V = FeaturesView;

    open spec fn view(&self) -> FeaturesView {
        FeaturesView {
            thinking: self.thinking,
            fast: self.fast,
            modes: listed(self.modes),
            default_mode: self.default_mode,
            mode_support: self.mode_support,
            forced_tool_choice: self.forced_tool_choice,
            effort: self.effort,
            efforts: listed(self.efforts),
            default_effort: self.default_effort,
            effort_support: self.effort_support,
            effort_rules: self.effort_rules.deep_view(),
            budget: self.budget,
            dynamic_budget: self.dynamic_budget,
            min_budget: self.min_budget,
            max_budget: self.max_budget,
            sources: self.sources.deep_view(),
        }
    }
}

impl DeepView for InferenceFeatures {
    type V = FeaturesView;

    open spec fn deep_view(&self) -> FeaturesView {
        self@
    }
}

pub open spec fn no_modes() -> ModeSupport {
    ModeSupport {
        enabled: CapabilitySupport::Unknown,
        disabled: CapabilitySupport::Unknown,
        adaptive: CapabilitySupport::Unknown,
    }
}

pub open spec fn no_efforts() -> EffortSupport {
    EffortSupport {
        off: CapabilitySupport::Unknown,
        minimal: CapabilitySupport::Unknown,
        low: CapabilitySupport::Unknown,
        medium: CapabilitySupport::Unknown,
        high: CapabilitySupport::Unknown,
        xhigh: CapabilitySupport::Unknown,
        max: CapabilitySupport::Unknown,
    }
}

/// Nothing known.
pub open spec fn no_features() -> FeaturesView {
    FeaturesView {
        thinking: CapabilitySupport::Unknown,
        fast: CapabilitySupport::Unknown,
        modes: None,
        default_mode: None,
        mode_support: no_modes(),
        forced_tool_choice: no_modes(),
        effort: CapabilitySupport::Unknown,
        efforts: None,
        default_effort: None,
        effort_support: no_efforts(),
        effort_rules: Seq::empty(),
        budget: CapabilitySupport::Unknown,
        dynamic_budget: CapabilitySupport::Unknown,
        min_budget: None,
        max_budget: None,
        sources: Seq::empty(),
    }
}

impl Default for InferenceFeatures {
    fn default() -> (result: Self)
        ensures
            result@ == no_features(),
    {
        let unknown = CapabilitySupport::Unknown;
        let modes = ModeSupport { enabled: unknown, disabled: unknown, adaptive: unknown };
        let result = InferenceFeatures {
            thinking: unknown,
            fast: unknown,
            modes: None,
            default_mode: None,
            mode_support: modes,
            forced_tool_choice: modes,
            effort: unknown,
            efforts: None,
            default_effort: None,
            effort_support: EffortSupport {
                off: unknown,
                minimal: unknown,
                low: unknown,
                medium: unknown,
                high: unknown,
                xhigh: unknown,
                max: unknown,
            },
            effort_rules: Vec::new(),
            budget: unknown,
            dynamic_budget: unknown,
            min_budget: None,
            max_budget: None,
            sources: Vec::new(),
        };
        assert(result@.sources =~= Seq::empty());
        assert(result@.effort_rules =~= Seq::empty());
        result
    }
}

impl ModeSupport {
    pub open spec fn of(&self, mode: ThinkingMode) -> CapabilitySupport {
        match mode {
            ThinkingMode::Enabled => self.enabled,
            ThinkingMode::Disabled => self.disabled,
            ThinkingMode::Adaptive => self.adaptive,
        }
    }

    pub open spec fn with(&self, mode: ThinkingMode, support: CapabilitySupport) -> ModeSupport {
        match mode {
            ThinkingMode::Enabled => ModeSupport { enabled: support, ..*self },
            ThinkingMode::Disabled => ModeSupport { disabled: support, ..*self },
            ThinkingMode::Adaptive => ModeSupport { adaptive: support, ..*self },
        }
    }

    pub fn get(&self, mode: ThinkingMode) -> (support: CapabilitySupport)
        ensures
            support == self.of(mode),
    {
        match mode {
            ThinkingMode::Enabled => self.enabled,
            ThinkingMode::Disabled => self.disabled,
            ThinkingMode::Adaptive => self.adaptive,
        }
    }

    pub fn set(&mut self, mode: ThinkingMode, support: CapabilitySupport)
        ensures
            *final(self) == old(self).with(mode, support),
    {
        match mode {
            ThinkingMode::Enabled => self.enabled = support,
            ThinkingMode::Disabled => self.disabled = support,
            ThinkingMode::Adaptive => self.adaptive = support,
        }
    }
}

impl EffortSupport {
    pub open spec fn of(&self, effort: ReasoningEffort) -> CapabilitySupport {
        match effort {
            ReasoningEffort::Off => self.off,
            ReasoningEffort::Minimal => self.minimal,
            ReasoningEffort::Low => self.low,
            ReasoningEffort::Medium => self.medium,
            ReasoningEffort::High => self.high,
            ReasoningEffort::XHigh => self.xhigh,
            ReasoningEffort::Max => self.max,
        }
    }

    pub fn get(&self, effort: ReasoningEffort) -> (support: CapabilitySupport)
        ensures
            support == self.of(effort),
    {
        match effort {
            ReasoningEffort::Off => self.off,
            ReasoningEffort::Minimal => self.minimal,
            ReasoningEffort::Low => self.low,
            ReasoningEffort::Medium => self.medium,
            ReasoningEffort::High => self.high,
            ReasoningEffort::XHigh => self.xhigh,
            ReasoningEffort::Max => self.max,
        }
    }
}

/// The later fact, unless it is unknown.
pub open spec fn over(seed: CapabilitySupport, later: CapabilitySupport) -> CapabilitySupport {
    if later == CapabilitySupport::Unknown {
        seed
    } else {
        later
    }
}

fn overlay_support(seed: CapabilitySupport, later: CapabilitySupport) -> (result: CapabilitySupport)
    ensures
        result == over(seed, later),
{
    if later == CapabilitySupport::Unknown {
        seed
    } else {
        later
    }
}

pub open spec fn over_option<T>(seed: Option<T>, later: Option<T>) -> Option<T> {
    match later {
        Some(later) => Some(later),
        None => seed,
    }
}

/// The sources, once those from the `i`th on that are not among them follow.
pub open spec fn with_sources(all: Seq<Seq<char>>, more: Seq<Seq<char>>, i: int) -> Seq<Seq<char>>
    decreases more.len() - i,
{
    if i < 0 || i >= more.len() {
        all
    } else {
        with_sources(
            if all.contains(more[i]) {
                all
            } else {
                all.push(more[i])
            },
            more,
            i + 1,
        )
    }
}

/// The rule for an effort under a mode, from the `i`th on.
pub open spec fn effort_rule(
    rules: Seq<EffortRuleView>,
    mode: Option<ThinkingMode>,
    effort: ReasoningEffort,
    i: int,
) -> Option<EffortRuleView>
    decreases rules.len() - i,
{
    if i < 0 || i >= rules.len() {
        None
    } else if rules[i].mode == mode && rules[i].effort == effort {
        Some(rules[i])
    } else {
        effort_rule(rules, mode, effort, i + 1)
    }
}

/// Whether the rules speak of the case of a rule.
pub open spec fn ruled(rules: Seq<EffortRuleView>, rule: EffortRuleView) -> bool {
    effort_rule(rules, rule.mode, rule.effort, 0) is Some
}

/// The rules from the `i`th on whose cases are not ruled already, behind those before.
pub open spec fn unruled(
    rules: Seq<EffortRuleView>,
    ruling: Seq<EffortRuleView>,
    i: int,
    before: Seq<EffortRuleView>,
) -> Seq<EffortRuleView>
    decreases rules.len() - i,
{
    if i < 0 || i >= rules.len() {
        before
    } else {
        unruled(
            rules,
            ruling,
            i + 1,
            if ruled(ruling, rules[i]) {
                before
            } else {
                before.push(rules[i])
            },
        )
    }
}

/// The later rules, and those of the seed for other cases.
pub open spec fn over_rules(seed: Seq<EffortRuleView>, later: Seq<EffortRuleView>) -> Seq<
    EffortRuleView,
> {
    unruled(seed, later, 0, later)
}

/// What is known once a later observation came in: what it states replaces what was
/// known, and what it does not state stays.
pub open spec fn overlaid(seed: FeaturesView, later: FeaturesView) -> FeaturesView {
    FeaturesView {
        thinking: over(seed.thinking, later.thinking),
        fast: over(seed.fast, later.fast),
        modes: over_option(seed.modes, later.modes),
        default_mode: over_option(seed.default_mode, later.default_mode),
        mode_support: over_modes(seed.mode_support, later.mode_support),
        forced_tool_choice: over_modes(seed.forced_tool_choice, later.forced_tool_choice),
        effort: over(seed.effort, later.effort),
        efforts: over_option(seed.efforts, later.efforts),
        default_effort: over_option(seed.default_effort, later.default_effort),
        effort_support: over_efforts(seed.effort_support, later.effort_support),
        effort_rules: over_rules(seed.effort_rules, later.effort_rules),
        budget: over(seed.budget, later.budget),
        dynamic_budget: over(seed.dynamic_budget, later.dynamic_budget),
        min_budget: over_option(seed.min_budget, later.min_budget),
        max_budget: over_option(seed.max_budget, later.max_budget),
        sources: with_sources(seed.sources, later.sources, 0),
    }
}

fn has_text(all: &Vec<String>, wanted: &str) -> (result: bool)
    ensures
        result == all.deep_view().contains(wanted@),
{
    let mut i: usize = 0;
    while i < all.len()
        invariant
            i <= all.len(),
            forall|k: int| 0 <= k < i ==> all.deep_view()[k] != wanted@,
        decreases all.len() - i,
    {
        assert(all.deep_view()[i as int] == all@[i as int]@);
        if text::same(&all[i], wanted) {
            return true;
        }
        i = i + 1;
    }
    false
}

fn add_sources(all: &mut Vec<String>, more: &Vec<String>)
    ensures
        final(all).deep_view() == with_sources(old(all).deep_view(), more.deep_view(), 0),
{
    let mut i: usize = 0;
    while i < more.len()
        invariant
            i <= more.len(),
            with_sources(old(all).deep_view(), more.deep_view(), 0) == with_sources(
                all.deep_view(),
                more.deep_view(),
                i as int,
            ),
        decreases more.len() - i,
    {
        assert(more.deep_view()[i as int] == more@[i as int]@);
        if !has_text(all, &more[i]) {
            all.push(more[i].clone());
        }
        i = i + 1;
    }
}

fn dup_list<T: Copy>(list: &Option<Vec<T>>) -> (result: Option<Vec<T>>)
    ensures
        listed(result) == listed(*list),
{
    match list {
        Some(list) => {
            let mut out: Vec<T> = Vec::new();
            let mut i: usize = 0;
            while i < list.len()
                invariant
                    i <= list.len(),
                    out@ == list@.take(i as int),
                decreases list.len() - i,
            {
                out.push(list[i]);
                i = i + 1;
                assert(list@.take(i as int) =~= list@.take(i - 1).push(list@[i - 1]));
            }
            assert(list@.take(i as int) =~= list@);
            Some(out)
        },
        None => None,
    }
}

fn same_mode_list(a: &Vec<ThinkingMode>, b: &Vec<ThinkingMode>) -> (result: bool)
    ensures
        result == (a@ == b@),
{
    if a.len() != b.len() {
        return false;
    }
    let mut i: usize = 0;
    while i < a.len()
        invariant
            i <= a.len() == b.len(),
            forall|k: int| 0 <= k < i ==> a@[k] == b@[k],
        decreases a.len() - i,
    {
        if a[i] != b[i] {
            return false;
        }
        i = i + 1;
    }
    assert(a@ =~= b@);
    true
}

fn same_modes(a: &Option<Vec<ThinkingMode>>, b: &Option<Vec<ThinkingMode>>) -> (result: bool)
    ensures
        result == (listed(*a) == listed(*b)),
{
    match (a, b) {
        (Some(a), Some(b)) => same_mode_list(a, b),
        (None, None) => true,
        _ => false,
    }
}

fn same_effort_list(a: &Vec<ReasoningEffort>, b: &Vec<ReasoningEffort>) -> (result: bool)
    ensures
        result == (a@ == b@),
{
    if a.len() != b.len() {
        return false;
    }
    let mut i: usize = 0;
    while i < a.len()
        invariant
            i <= a.len() == b.len(),
            forall|k: int| 0 <= k < i ==> a@[k] == b@[k],
        decreases a.len() - i,
    {
        if a[i] != b[i] {
            return false;
        }
        i = i + 1;
    }
    assert(a@ =~= b@);
    true
}

fn same_efforts(a: &Option<Vec<ReasoningEffort>>, b: &Option<Vec<ReasoningEffort>>) -> (result: bool)
    ensures
        result == (listed(*a) == listed(*b)),
{
    match (a, b) {
        (Some(a), Some(b)) => same_effort_list(a, b),
        (None, None) => true,
        _ => false,
    }
}

pub open spec fn over_modes(seed: ModeSupport, later: ModeSupport) -> ModeSupport {
    ModeSupport {
        enabled: over(seed.enabled, later.enabled),
        disabled: over(seed.disabled, later.disabled),
        adaptive: over(seed.adaptive, later.adaptive),
    }
}

fn overlay_modes(seed: ModeSupport, later: ModeSupport) -> (result: ModeSupport)
    ensures
        result == over_modes(seed, later),
{
    ModeSupport {
        enabled: overlay_support(seed.enabled, later.enabled),
        disabled: overlay_support(seed.disabled, later.disabled),
        adaptive: overlay_support(seed.adaptive, later.adaptive),
    }
}

pub open spec fn over_efforts(seed: EffortSupport, later: EffortSupport) -> EffortSupport {
    EffortSupport {
        off: over(seed.off, later.off),
        minimal: over(seed.minimal, later.minimal),
        low: over(seed.low, later.low),
        medium: over(seed.medium, later.medium),
        high: over(seed.high, later.high),
        xhigh: over(seed.xhigh, later.xhigh),
        max: over(seed.max, later.max),
    }
}

fn overlay_efforts(seed: EffortSupport, later: EffortSupport) -> (result: EffortSupport)
    ensures
        result == over_efforts(seed, later),
{
    EffortSupport {
        off: overlay_support(seed.off, later.off),
        minimal: overlay_support(seed.minimal, later.minimal),
        low: overlay_support(seed.low, later.low),
        medium: overlay_support(seed.medium, later.medium),
        high: overlay_support(seed.high, later.high),
        xhigh: overlay_support(seed.xhigh, later.xhigh),
        max: overlay_support(seed.max, later.max),
    }
}

fn find_rule<'a>(
    rules: &'a Vec<EffortRule>,
    mode: Option<ThinkingMode>,
    effort: ReasoningEffort,
) -> (result: Option<&'a EffortRule>)
    ensures
        result.deep_view() == effort_rule(rules.deep_view(), mode, effort, 0),
{
    let mut i: usize = 0;
    while i < rules.len()
        invariant
            i <= rules.len(),
            effort_rule(rules.deep_view(), mode, effort, 0) == effort_rule(
                rules.deep_view(),
                mode,
                effort,
                i as int,
            ),
        decreases rules.len() - i,
    {
        assert(rules.deep_view()[i as int] == rules@[i as int].deep_view());
        if inference::same_mode(rules[i].mode, mode) && rules[i].effort == effort {
            return Some(&rules[i]);
        }
        i = i + 1;
    }
    None
}

fn overlay_rules(seed: &Vec<EffortRule>, later: &Vec<EffortRule>) -> (result: Vec<EffortRule>)
    ensures
        result.deep_view() == over_rules(seed.deep_view(), later.deep_view()),
{
    let mut out = later.duplicate();
    let mut i: usize = 0;
    while i < seed.len()
        invariant
            i <= seed.len(),
            over_rules(seed.deep_view(), later.deep_view()) == unruled(
                seed.deep_view(),
                later.deep_view(),
                i as int,
                out.deep_view(),
            ),
        decreases seed.len() - i,
    {
        assert(seed.deep_view()[i as int] == seed@[i as int].deep_view());
        if find_rule(later, seed[i].mode, seed[i].effort).is_none() {
            out.push(seed[i].duplicate());
        }
        i = i + 1;
    }
    out
}

/// What a model and its connection come to: what the connection rules out is out, and
/// what is unknown of the model is as the connection says.
pub open spec fn narrowed(own: CapabilitySupport, connection: CapabilitySupport) -> CapabilitySupport {
    if own == CapabilitySupport::Unknown || connection == CapabilitySupport::Unsupported {
        connection
    } else {
        own
    }
}

fn narrow(own: CapabilitySupport, connection: CapabilitySupport) -> (result: CapabilitySupport)
    ensures
        result == narrowed(own, connection),
{
    if own == CapabilitySupport::Unknown || connection == CapabilitySupport::Unsupported {
        connection
    } else {
        own
    }
}

pub open spec fn narrowed_modes(own: ModeSupport, connection: ModeSupport) -> ModeSupport {
    ModeSupport {
        enabled: narrowed(own.enabled, connection.enabled),
        disabled: narrowed(own.disabled, connection.disabled),
        adaptive: narrowed(own.adaptive, connection.adaptive),
    }
}

fn narrow_modes(own: ModeSupport, connection: ModeSupport) -> (result: ModeSupport)
    ensures
        result == narrowed_modes(own, connection),
{
    ModeSupport {
        enabled: narrow(own.enabled, connection.enabled),
        disabled: narrow(own.disabled, connection.disabled),
        adaptive: narrow(own.adaptive, connection.adaptive),
    }
}

pub open spec fn narrowed_efforts(own: EffortSupport, connection: EffortSupport) -> EffortSupport {
    EffortSupport {
        off: narrowed(own.off, connection.off),
        minimal: narrowed(own.minimal, connection.minimal),
        low: narrowed(own.low, connection.low),
        medium: narrowed(own.medium, connection.medium),
        high: narrowed(own.high, connection.high),
        xhigh: narrowed(own.xhigh, connection.xhigh),
        max: narrowed(own.max, connection.max),
    }
}

fn narrow_efforts(own: EffortSupport, connection: EffortSupport) -> (result: EffortSupport)
    ensures
        result == narrowed_efforts(own, connection),
{
    EffortSupport {
        off: narrow(own.off, connection.off),
        minimal: narrow(own.minimal, connection.minimal),
        low: narrow(own.low, connection.low),
        medium: narrow(own.medium, connection.medium),
        high: narrow(own.high, connection.high),
        xhigh: narrow(own.xhigh, connection.xhigh),
        max: narrow(own.max, connection.max),
    }
}

/// The items from the `i`th on that the other list has too, behind those before.
pub open spec fn shared<T>(list: Seq<T>, other: Seq<T>, i: int, before: Seq<T>) -> Seq<T>
    decreases list.len() - i,
{
    if i < 0 || i >= list.len() {
        before
    } else {
        shared(
            list,
            other,
            i + 1,
            if other.contains(list[i]) {
                before.push(list[i])
            } else {
                before
            },
        )
    }
}

/// What both lists name; where there is one list, what it names.
pub open spec fn narrowed_list<T>(own: Option<Seq<T>>, connection: Option<Seq<T>>) -> Option<
    Seq<T>,
> {
    match (own, connection) {
        (Some(own), Some(connection)) => Some(shared(own, connection, 0, Seq::empty())),
        (Some(own), None) => Some(own),
        (None, connection) => connection,
    }
}

fn has_mode(list: &Vec<ThinkingMode>, mode: ThinkingMode) -> (result: bool)
    ensures
        result == list@.contains(mode),
{
    let mut i: usize = 0;
    while i < list.len()
        invariant
            i <= list.len(),
            forall|k: int| 0 <= k < i ==> list@[k] != mode,
        decreases list.len() - i,
    {
        if list[i] == mode {
            return true;
        }
        i = i + 1;
    }
    false
}

fn has_effort(list: &Vec<ReasoningEffort>, effort: ReasoningEffort) -> (result: bool)
    ensures
        result == list@.contains(effort),
{
    let mut i: usize = 0;
    while i < list.len()
        invariant
            i <= list.len(),
            forall|k: int| 0 <= k < i ==> list@[k] != effort,
        decreases list.len() - i,
    {
        if list[i] == effort {
            return true;
        }
        i = i + 1;
    }
    false
}

fn narrow_mode_list(own: &Option<Vec<ThinkingMode>>, connection: &Option<Vec<ThinkingMode>>) -> (result:
    Option<Vec<ThinkingMode>>)
    ensures
        listed(result) == narrowed_list(listed(*own), listed(*connection)),
{
    match (own, connection) {
        (Some(list), Some(other)) => {
            let mut out: Vec<ThinkingMode> = Vec::new();
            let mut i: usize = 0;
            while i < list.len()
                invariant
                    i <= list.len(),
                    shared(list@, other@, 0, Seq::empty()) == shared(
                        list@,
                        other@,
                        i as int,
                        out@,
                    ),
                decreases list.len() - i,
            {
                if has_mode(other, list[i]) {
                    out.push(list[i]);
                }
                i = i + 1;
            }
            Some(out)
        },
        (Some(_), None) => dup_list(own),
        (None, _) => dup_list(connection),
    }
}

fn narrow_effort_list(
    own: &Option<Vec<ReasoningEffort>>,
    connection: &Option<Vec<ReasoningEffort>>,
) -> (result: Option<Vec<ReasoningEffort>>)
    ensures
        listed(result) == narrowed_list(listed(*own), listed(*connection)),
{
    match (own, connection) {
        (Some(list), Some(other)) => {
            let mut out: Vec<ReasoningEffort> = Vec::new();
            let mut i: usize = 0;
            while i < list.len()
                invariant
                    i <= list.len(),
                    shared(list@, other@, 0, Seq::empty()) == shared(
                        list@,
                        other@,
                        i as int,
                        out@,
                    ),
                decreases list.len() - i,
            {
                if has_effort(other, list[i]) {
                    out.push(list[i]);
                }
                i = i + 1;
            }
            Some(out)
        },
        (Some(_), None) => dup_list(own),
        (None, _) => dup_list(connection),
    }
}

/// The greater of two bounds that may be there.
pub open spec fn greater(a: Option<u32>, b: Option<u32>) -> Option<u32> {
    match (a, b) {
        (Some(a), Some(b)) => Some(
            if a < b {
                b
            } else {
                a
            },
        ),
        (Some(a), None) => Some(a),
        (None, b) => b,
    }
}

/// The lesser of two bounds that may be there.
pub open spec fn lesser(a: Option<u32>, b: Option<u32>) -> Option<u32> {
    match (a, b) {
        (Some(a), Some(b)) => Some(
            if b < a {
                b
            } else {
                a
            },
        ),
        (Some(a), None) => Some(a),
        (None, b) => b,
    }
}

fn larger(a: Option<u32>, b: Option<u32>) -> (result: Option<u32>)
    ensures
        result == greater(a, b),
{
    match (a, b) {
        (Some(a), Some(b)) => Some(
            if a < b {
                b
            } else {
                a
            },
        ),
        (Some(a), None) => Some(a),
        (None, b) => b,
    }
}

fn smaller(a: Option<u32>, b: Option<u32>) -> (result: Option<u32>)
    ensures
        result == lesser(a, b),
{
    match (a, b) {
        (Some(a), Some(b)) => Some(
            if b < a {
                b
            } else {
                a
            },
        ),
        (Some(a), None) => Some(a),
        (None, b) => b,
    }
}

/// The rule for a case that the connection rules on: it narrows the model's own rule,
/// and where it names a conflict that is the one.
pub open spec fn narrowed_rule(
    own: Seq<EffortRuleView>,
    connection: Seq<EffortRuleView>,
    mode: Option<ThinkingMode>,
    effort: ReasoningEffort,
) -> EffortRuleView {
    let rule = effort_rule(connection, mode, effort, 0)->0;
    match effort_rule(own, mode, effort, 0) {
        Some(held) => EffortRuleView {
            support: narrowed(held.support, rule.support),
            conflict: over_option(held.conflict, rule.conflict),
            ..rule
        },
        None => rule,
    }
}

/// The rules for the cases that the connection rules on.
pub open spec fn ruled_cases(own: Seq<EffortRuleView>, connection: Seq<EffortRuleView>) -> Seq<
    EffortRuleView,
> {
    Seq::new(
        connection.len(),
        |i: int| narrowed_rule(own, connection, connection[i].mode, connection[i].effort),
    )
}

/// The rules for the cases that the connection rules on, and the model's own for the
/// others.
pub open spec fn narrowed_rules(own: Seq<EffortRuleView>, connection: Seq<EffortRuleView>) -> Seq<
    EffortRuleView,
> {
    unruled(own, connection, 0, ruled_cases(own, connection))
}

fn narrow_rule(own: Option<&EffortRule>, rule: &EffortRule) -> (result: EffortRule)
    ensures
        result.deep_view() == (match own.deep_view() {
            Some(held) => EffortRuleView {
                support: narrowed(held.support, rule.support),
                conflict: over_option(held.conflict, rule.deep_view().conflict),
                ..rule.deep_view()
            },
            None => rule.deep_view(),
        }),
{
    let mut out = rule.duplicate();
    if let Some(held) = own {
        out.support = narrow(held.support, rule.support);
        if out.conflict.is_none() {
            out.conflict = held.conflict.duplicate();
        }
    }
    out
}

fn narrow_rules(own: &Vec<EffortRule>, connection: &Vec<EffortRule>) -> (result: Vec<EffortRule>)
    ensures
        result.deep_view() == narrowed_rules(own.deep_view(), connection.deep_view()),
{
    let ghost ruling = connection.deep_view();
    let ghost front = ruled_cases(own.deep_view(), ruling);
    let mut out: Vec<EffortRule> = Vec::new();
    let mut i: usize = 0;
    while i < connection.len()
        invariant
            i <= connection.len(),
            ruling == connection.deep_view(),
            front == ruled_cases(own.deep_view(), ruling),
            out.deep_view() == front.take(i as int),
        decreases connection.len() - i,
    {
        let mode = connection[i].mode;
        let effort = connection[i].effort;
        assert(ruling[i as int] == connection@[i as int].deep_view());
        proof {
            lemma_rules_itself(ruling, i as int, 0);
        }
        if let Some(rule) = find_rule(connection, mode, effort) {
            out.push(narrow_rule(find_rule(own, mode, effort), rule));
            assert(front.take(i + 1) =~= front.take(i as int).push(front[i as int]));
        }
        i = i + 1;
    }
    assert(front.take(i as int) =~= front);
    i = 0;
    while i < own.len()
        invariant
            i <= own.len(),
            narrowed_rules(own.deep_view(), connection.deep_view()) == unruled(
                own.deep_view(),
                connection.deep_view(),
                i as int,
                out.deep_view(),
            ),
        decreases own.len() - i,
    {
        assert(own.deep_view()[i as int] == own@[i as int].deep_view());
        if find_rule(connection, own[i].mode, own[i].effort).is_none() {
            out.push(own[i].duplicate());
        }
        i = i + 1;
    }
    out
}

/// What is known of a model on a connection: what the connection rules out is out,
/// its limits hold, and it fills in what is unknown of the model. The model keeps
/// defaults of its own.
pub open spec fn on_connection(own: FeaturesView, connection: FeaturesView) -> FeaturesView {
    FeaturesView {
        thinking: narrowed(own.thinking, connection.thinking),
        fast: narrowed(own.fast, connection.fast),
        modes: narrowed_list(own.modes, connection.modes),
        default_mode: over_option(connection.default_mode, own.default_mode),
        mode_support: narrowed_modes(own.mode_support, connection.mode_support),
        forced_tool_choice: narrowed_modes(own.forced_tool_choice, connection.forced_tool_choice),
        effort: narrowed(own.effort, connection.effort),
        efforts: narrowed_list(own.efforts, connection.efforts),
        default_effort: over_option(connection.default_effort, own.default_effort),
        effort_support: narrowed_efforts(own.effort_support, connection.effort_support),
        effort_rules: narrowed_rules(own.effort_rules, connection.effort_rules),
        budget: narrowed(own.budget, connection.budget),
        dynamic_budget: narrowed(own.dynamic_budget, connection.dynamic_budget),
        min_budget: greater(own.min_budget, connection.min_budget),
        max_budget: lesser(own.max_budget, connection.max_budget),
        sources: with_sources(own.sources, connection.sources, 0),
    }
}

impl FeaturesView {
    /// Whether a mode is supported: what is known of the mode itself, else whether the
    /// modes are listed without it, else whether there is no thinking to turn on.
    pub open spec fn mode_fact(self, mode: ThinkingMode) -> CapabilitySupport {
        if self.mode_support.of(mode) != CapabilitySupport::Unknown {
            self.mode_support.of(mode)
        } else if self.modes is Some {
            inference::known(self.modes->0.contains(mode))
        } else if mode != ThinkingMode::Disabled && self.thinking == CapabilitySupport::Unsupported {
            CapabilitySupport::Unsupported
        } else {
            CapabilitySupport::Unknown
        }
    }

    /// Whether an effort is supported under a mode: what the rule for the case says,
    /// else what is known of the effort itself, else whether the efforts are listed
    /// without it, else whether there are no efforts at all.
    pub open spec fn effort_fact(self, mode: Option<ThinkingMode>, effort: ReasoningEffort) -> CapabilitySupport {
        let rule = effort_rule(self.effort_rules, mode, effort, 0);
        if rule is Some && rule->0.support != CapabilitySupport::Unknown {
            rule->0.support
        } else if self.effort_support.of(effort) != CapabilitySupport::Unknown {
            self.effort_support.of(effort)
        } else if self.efforts is Some {
            inference::known(self.efforts->0.contains(effort))
        } else if self.effort == CapabilitySupport::Unsupported {
            CapabilitySupport::Unsupported
        } else {
            CapabilitySupport::Unknown
        }
    }

    /// Why an effort contradicts a mode, where it does.
    pub open spec fn effort_conflict(self, mode: Option<ThinkingMode>, effort: ReasoningEffort) -> Option<
        Seq<char>,
    > {
        match effort_rule(self.effort_rules, mode, effort, 0) {
            Some(rule) => rule.conflict,
            None => None,
        }
    }
}

impl InferenceFeatures {
    pub fn dup(&self) -> (result: InferenceFeatures)
        ensures
            result@ == self@,
    {
        let result = InferenceFeatures {
            thinking: self.thinking,
            fast: self.fast,
            modes: dup_list(&self.modes),
            default_mode: self.default_mode,
            mode_support: self.mode_support,
            forced_tool_choice: self.forced_tool_choice,
            effort: self.effort,
            efforts: dup_list(&self.efforts),
            default_effort: self.default_effort,
            effort_support: self.effort_support,
            effort_rules: self.effort_rules.duplicate(),
            budget: self.budget,
            dynamic_budget: self.dynamic_budget,
            min_budget: self.min_budget,
            max_budget: self.max_budget,
            sources: profile::dup_strings(&self.sources),
        };
        assert(result@.sources =~= self@.sources);
        result
    }

    pub fn same(&self, other: &InferenceFeatures) -> (result: bool)
        ensures
            result == (self@ == other@),
    {
        proof {
            lemma_rules_alike(self@.effort_rules, other@.effort_rules);
        }
        self.thinking == other.thinking && self.fast == other.fast && same_modes(
            &self.modes,
            &other.modes,
        ) && inference::same_mode(self.default_mode, other.default_mode) && self.mode_support
            == other.mode_support && self.forced_tool_choice == other.forced_tool_choice
            && self.effort == other.effort && same_efforts(&self.efforts, &other.efforts)
            && inference::same_effort(self.default_effort, other.default_effort)
            && self.effort_support == other.effort_support && self.effort_rules.same_content(
            &other.effort_rules,
        ) && self.budget == other.budget && self.dynamic_budget == other.dynamic_budget
            && self.min_budget.same_content(&other.min_budget) && self.max_budget.same_content(
            &other.max_budget,
        ) && profile::same_strings(&self.sources, &other.sources)
    }

    /// What is known once a later observation came in.
    #[verifier::spinoff_prover]
    fn merged(&self, later: &InferenceFeatures) -> (result: InferenceFeatures)
        ensures
            result@ == overlaid(self@, later@),
    {
        let mut sources = profile::dup_strings(&self.sources);
        assert(sources.deep_view() =~= self@.sources);
        add_sources(&mut sources, &later.sources);
        let modes = dup_list(
            if later.modes.is_some() {
                &later.modes
            } else {
                &self.modes
            },
        );
        let efforts = dup_list(
            if later.efforts.is_some() {
                &later.efforts
            } else {
                &self.efforts
            },
        );
        InferenceFeatures {
            thinking: overlay_support(self.thinking, later.thinking),
            fast: overlay_support(self.fast, later.fast),
            modes,
            default_mode: if later.default_mode.is_some() {
                later.default_mode
            } else {
                self.default_mode
            },
            mode_support: overlay_modes(self.mode_support, later.mode_support),
            forced_tool_choice: overlay_modes(self.forced_tool_choice, later.forced_tool_choice),
            effort: overlay_support(self.effort, later.effort),
            efforts,
            default_effort: if later.default_effort.is_some() {
                later.default_effort
            } else {
                self.default_effort
            },
            effort_support: overlay_efforts(self.effort_support, later.effort_support),
            effort_rules: overlay_rules(&self.effort_rules, &later.effort_rules),
            budget: overlay_support(self.budget, later.budget),
            dynamic_budget: overlay_support(self.dynamic_budget, later.dynamic_budget),
            min_budget: if later.min_budget.is_some() {
                later.min_budget
            } else {
                self.min_budget
            },
            max_budget: if later.max_budget.is_some() {
                later.max_budget
            } else {
                self.max_budget
            },
            sources,
        }
    }

    /// Takes in a later observation.
    pub fn overlay(&mut self, later: &InferenceFeatures)
        ensures
            final(self)@ == overlaid(old(self)@, later@),
    {
        *self = self.merged(later);
    }

    /// What is known on a connection that states its own facts.
    #[verifier::spinoff_prover]
    pub fn on_connection(&self, connection: &InferenceFeatures) -> (result: InferenceFeatures)
        ensures
            result@ == on_connection(self@, connection@),
    {
        let mut sources = profile::dup_strings(&self.sources);
        assert(sources.deep_view() =~= self@.sources);
        add_sources(&mut sources, &connection.sources);
        InferenceFeatures {
            thinking: narrow(self.thinking, connection.thinking),
            fast: narrow(self.fast, connection.fast),
            modes: narrow_mode_list(&self.modes, &connection.modes),
            default_mode: if self.default_mode.is_some() {
                self.default_mode
            } else {
                connection.default_mode
            },
            mode_support: narrow_modes(self.mode_support, connection.mode_support),
            forced_tool_choice: narrow_modes(
                self.forced_tool_choice,
                connection.forced_tool_choice,
            ),
            effort: narrow(self.effort, connection.effort),
            efforts: narrow_effort_list(&self.efforts, &connection.efforts),
            default_effort: if self.default_effort.is_some() {
                self.default_effort
            } else {
                connection.default_effort
            },
            effort_support: narrow_efforts(self.effort_support, connection.effort_support),
            effort_rules: narrow_rules(&self.effort_rules, &connection.effort_rules),
            budget: narrow(self.budget, connection.budget),
            dynamic_budget: narrow(self.dynamic_budget, connection.dynamic_budget),
            min_budget: larger(self.min_budget, connection.min_budget),
            max_budget: smaller(self.max_budget, connection.max_budget),
            sources,
        }
    }

    pub fn supports_mode(&self, mode: ThinkingMode) -> (result: CapabilitySupport)
        ensures
            result == self@.mode_fact(mode),
    {
        let own = self.mode_support.get(mode);
        if own != CapabilitySupport::Unknown {
            return own;
        }
        match &self.modes {
            Some(modes) => CapabilitySupport::stated(has_mode(modes, mode)),
            None => if mode != ThinkingMode::Disabled && self.thinking
                == CapabilitySupport::Unsupported {
                CapabilitySupport::Unsupported
            } else {
                CapabilitySupport::Unknown
            },
        }
    }

    pub fn supports_forced_tool_choice(&self, mode: ThinkingMode) -> (result: CapabilitySupport)
        ensures
            result == self@.forced_tool_choice.of(mode),
    {
        self.forced_tool_choice.get(mode)
    }

    pub fn supports_effort(&self, mode: Option<ThinkingMode>, effort: ReasoningEffort) -> (result:
        CapabilitySupport)
        ensures
            result == self@.effort_fact(mode, effort),
    {
        if let Some(rule) = find_rule(&self.effort_rules, mode, effort) {
            if rule.support != CapabilitySupport::Unknown {
                return rule.support;
            }
        }
        let own = self.effort_support.get(effort);
        if own != CapabilitySupport::Unknown {
            return own;
        }
        match &self.efforts {
            Some(efforts) => CapabilitySupport::stated(has_effort(efforts, effort)),
            None => if self.effort == CapabilitySupport::Unsupported {
                CapabilitySupport::Unsupported
            } else {
                CapabilitySupport::Unknown
            },
        }
    }

    pub fn effort_mode_error(&self, mode: Option<ThinkingMode>, effort: ReasoningEffort) -> (result:
        Option<String>)
        ensures
            result.deep_view() == self@.effort_conflict(mode, effort),
    {
        match find_rule(&self.effort_rules, mode, effort) {
            Some(rule) => match &rule.conflict {
                Some(message) => Some(message.clone()),
                None => None,
            },
            None => None,
        }
    }
}

proof fn lemma_rules_alike(a: Seq<EffortRuleView>, b: Seq<EffortRuleView>)
    ensures
        <Vec<EffortRule> as Content>::alike(a, b) <==> a == b,
{
    if a == b {
        <Vec<EffortRule> as Content>::alike_itself(a);
    }
    if <Vec<EffortRule> as Content>::alike(a, b) {
        assert forall|i: int| 0 <= i < a.len() implies a[i] == b[i] by {
            assert(<EffortRule as Content>::alike(a[i], b[i]));
        }
        assert(a =~= b);
    }
}

proof fn lemma_nothing_ruled(rules: Seq<EffortRuleView>, i: int)
    requires
        0 <= i <= rules.len(),
    ensures
        unruled(rules, Seq::empty(), i, rules.take(i)) == rules,
    decreases rules.len() - i,
{
    if i < rules.len() {
        assert(rules.take(i).push(rules[i]) =~= rules.take(i + 1));
        lemma_nothing_ruled(rules, i + 1);
    } else {
        assert(rules.take(i) =~= rules);
    }
}

/// An observation that states nothing changes nothing.
pub proof fn an_empty_observation_changes_nothing(seed: FeaturesView)
    ensures
        overlaid(seed, no_features()) == seed,
{
    assert(seed.effort_rules.take(0) =~= Seq::empty());
    lemma_nothing_ruled(seed.effort_rules, 0);
}

/// On a connection that states nothing a model is as it is.
pub proof fn a_silent_connection_changes_nothing(own: FeaturesView)
    ensures
        on_connection(own, no_features()) == own,
{
    assert(own.effort_rules.take(0) =~= Seq::empty());
    assert(ruled_cases(own.effort_rules, Seq::empty()) =~= Seq::empty());
    lemma_nothing_ruled(own.effort_rules, 0);
}

/// Rules that begin with one for each case that is ruled, and speak of other cases
/// behind them.
spec fn settled(rules: Seq<EffortRuleView>, ruling: Seq<EffortRuleView>) -> bool {
    &&& ruling.len() <= rules.len()
    &&& forall|k: int|
        0 <= k < ruling.len() ==> (#[trigger] rules[k]).mode == ruling[k].mode && rules[k].effort
            == ruling[k].effort
    &&& forall|k: int| ruling.len() <= k < rules.len() ==> !ruled(ruling, #[trigger] rules[k])
}

proof fn lemma_settles(
    rules: Seq<EffortRuleView>,
    ruling: Seq<EffortRuleView>,
    i: int,
    before: Seq<EffortRuleView>,
)
    requires
        0 <= i,
        settled(before, ruling),
    ensures
        settled(unruled(rules, ruling, i, before), ruling),
        before.is_prefix_of(unruled(rules, ruling, i, before)),
    decreases rules.len() - i,
{
    if i < rules.len() {
        let more = if ruled(ruling, rules[i]) {
            before
        } else {
            before.push(rules[i])
        };
        lemma_settles(rules, ruling, i + 1, more);
        let all = unruled(rules, ruling, i, before);
        assert(before =~= all.take(before.len() as int)) by {
            assert forall|k: int| 0 <= k < before.len() implies before[k] == all[k] by {
                assert(before[k] == more[k]);
                assert(more[k] == all.take(more.len() as int)[k]);
            }
        }
    } else {
        assert(before =~= before.take(before.len() as int));
    }
}

proof fn lemma_rules_itself(ruling: Seq<EffortRuleView>, i: int, from: int)
    requires
        0 <= from <= i < ruling.len(),
    ensures
        effort_rule(ruling, ruling[i].mode, ruling[i].effort, from) is Some,
    decreases i - from,
{
    if from < i {
        lemma_rules_itself(ruling, i, from + 1);
    }
}

proof fn lemma_rule_is_for_its_case(
    rules: Seq<EffortRuleView>,
    mode: Option<ThinkingMode>,
    effort: ReasoningEffort,
    i: int,
)
    ensures
        effort_rule(rules, mode, effort, i) matches Some(rule) ==> rule.mode == mode && rule.effort
            == effort,
    decreases rules.len() - i,
{
    if 0 <= i < rules.len() {
        lemma_rule_is_for_its_case(rules, mode, effort, i + 1);
    }
}

proof fn lemma_settled_stays(rules: Seq<EffortRuleView>, ruling: Seq<EffortRuleView>, i: int)
    requires
        settled(rules, ruling),
        0 <= i <= rules.len(),
    ensures
        unruled(
            rules,
            ruling,
            i,
            rules.take(
                if i <= ruling.len() {
                    ruling.len() as int
                } else {
                    i
                },
            ),
        ) == rules,
    decreases rules.len() - i,
{
    let before = rules.take(
        if i <= ruling.len() {
            ruling.len() as int
        } else {
            i
        },
    );
    if i < rules.len() {
        lemma_settled_stays(rules, ruling, i + 1);
        if i < ruling.len() {
            assert(rules[i].mode == ruling[i].mode && rules[i].effort == ruling[i].effort);
            lemma_rules_itself(ruling, i, 0);
        } else {
            assert(!ruled(ruling, rules[i]));
            assert(before.push(rules[i]) =~= rules.take(i + 1));
        }
    } else {
        assert(before =~= rules);
    }
}

/// A case that the connection rules on is found among the narrowed rules.
proof fn lemma_narrowed_rule_is_found(
    own: Seq<EffortRuleView>,
    connection: Seq<EffortRuleView>,
    rules: Seq<EffortRuleView>,
    mode: Option<ThinkingMode>,
    effort: ReasoningEffort,
    i: int,
)
    requires
        i >= 0,
        connection.len() <= rules.len(),
        forall|k: int|
            0 <= k < connection.len() ==> #[trigger] rules[k] == narrowed_rule(
                own,
                connection,
                connection[k].mode,
                connection[k].effort,
            ) && rules[k].mode == connection[k].mode && rules[k].effort == connection[k].effort,
        effort_rule(connection, mode, effort, i) is Some,
    ensures
        effort_rule(rules, mode, effort, i) == Some(narrowed_rule(own, connection, mode, effort)),
    decreases connection.len() - i,
{
    assert(rules[i].mode == connection[i].mode);
    if connection[i].mode != mode || connection[i].effort != effort {
        lemma_narrowed_rule_is_found(own, connection, rules, mode, effort, i + 1);
    }
}

proof fn lemma_rules_narrowed_once(own: Seq<EffortRuleView>, connection: Seq<EffortRuleView>)
    ensures
        narrowed_rules(narrowed_rules(own, connection), connection) == narrowed_rules(
            own,
            connection,
        ),
{
    let front = ruled_cases(own, connection);
    let once = narrowed_rules(own, connection);
    assert forall|k: int| 0 <= k < connection.len() implies (#[trigger] front[k]).mode
        == connection[k].mode && front[k].effort == connection[k].effort by {
        lemma_rules_itself(connection, k, 0);
        lemma_rule_is_for_its_case(connection, connection[k].mode, connection[k].effort, 0);
    }
    lemma_settles(own, connection, 0, front);
    assert forall|k: int| 0 <= k < connection.len() implies #[trigger] once[k] == front[k] by {
        assert(front[k] == once.take(front.len() as int)[k]);
    }
    let again = ruled_cases(once, connection);
    assert forall|k: int| 0 <= k < connection.len() implies #[trigger] again[k] == front[k] by {
        let mode = connection[k].mode;
        let effort = connection[k].effort;
        lemma_rules_itself(connection, k, 0);
        lemma_narrowed_rule_is_found(own, connection, once, mode, effort, 0);
    }
    assert(again =~= once.take(connection.len() as int));
    lemma_settled_stays(once, connection, 0);
}

proof fn lemma_shares<T>(list: Seq<T>, other: Seq<T>, i: int, before: Seq<T>)
    requires
        0 <= i,
        forall|k: int| 0 <= k < before.len() ==> other.contains(#[trigger] before[k]),
    ensures
        forall|k: int|
            0 <= k < shared(list, other, i, before).len() ==> other.contains(
                #[trigger] shared(list, other, i, before)[k],
            ),
    decreases list.len() - i,
{
    if i < list.len() {
        let more = if other.contains(list[i]) {
            before.push(list[i])
        } else {
            before
        };
        lemma_shares(list, other, i + 1, more);
        assert(shared(list, other, i, before) == shared(list, other, i + 1, more));
    }
}

proof fn lemma_all_shared<T>(list: Seq<T>, other: Seq<T>, i: int)
    requires
        0 <= i <= list.len(),
        forall|k: int| 0 <= k < list.len() ==> other.contains(#[trigger] list[k]),
    ensures
        shared(list, other, i, list.take(i)) == list,
    decreases list.len() - i,
{
    if i < list.len() {
        assert(other.contains(list[i]));
        assert(list.take(i).push(list[i]) =~= list.take(i + 1));
        lemma_all_shared(list, other, i + 1);
    } else {
        assert(list.take(i) =~= list);
    }
}

proof fn lemma_list_narrowed_once<T>(own: Option<Seq<T>>, connection: Option<Seq<T>>)
    ensures
        narrowed_list(narrowed_list(own, connection), connection) == narrowed_list(own, connection),
{
    if let Some(other) = connection {
        let once = match own {
            Some(list) => {
                lemma_shares(list, other, 0, Seq::empty());
                shared(list, other, 0, Seq::empty())
            },
            None => {
                assert forall|k: int| 0 <= k < other.len() implies other.contains(
                    #[trigger] other[k],
                ) by {}
                other
            },
        };
        assert(once.take(0) =~= Seq::empty());
        lemma_all_shared(once, other, 0);
    }
}

proof fn lemma_sources_held(all: Seq<Seq<char>>, more: Seq<Seq<char>>, i: int, text: Seq<char>)
    requires
        0 <= i,
        all.contains(text) || exists|k: int| i <= k < more.len() && more[k] == text,
    ensures
        with_sources(all, more, i).contains(text),
    decreases more.len() - i,
{
    if i < more.len() {
        let next = if all.contains(more[i]) {
            all
        } else {
            all.push(more[i])
        };
        assert(next.contains(more[i])) by {
            if !all.contains(more[i]) {
                assert(next.last() == more[i]);
            }
        }
        if all.contains(text) {
            let k = choose|k: int| 0 <= k < all.len() && all[k] == text;
            assert(next[k] == text);
        }
        lemma_sources_held(next, more, i + 1, text);
    }
}

proof fn lemma_no_source_added(all: Seq<Seq<char>>, more: Seq<Seq<char>>, i: int)
    requires
        0 <= i,
        forall|k: int| 0 <= k < more.len() ==> all.contains(#[trigger] more[k]),
    ensures
        with_sources(all, more, i) == all,
    decreases more.len() - i,
{
    if i < more.len() {
        assert(all.contains(more[i]));
        lemma_no_source_added(all, more, i + 1);
    }
}

/// What holds on a connection holds on it again: a row that is shown as the
/// connection has it is read as it is shown.
pub proof fn a_connection_narrows_once(own: FeaturesView, connection: FeaturesView)
    ensures
        on_connection(on_connection(own, connection), connection) == on_connection(own, connection),
{
    let once = on_connection(own, connection);
    lemma_list_narrowed_once(own.modes, connection.modes);
    lemma_list_narrowed_once(own.efforts, connection.efforts);
    lemma_rules_narrowed_once(own.effort_rules, connection.effort_rules);
    assert forall|k: int| 0 <= k < connection.sources.len() implies once.sources.contains(
        #[trigger] connection.sources[k],
    ) by {
        lemma_sources_held(own.sources, connection.sources, 0, connection.sources[k]);
    }
    lemma_no_source_added(once.sources, connection.sources, 0);
}

/// What a connection does not support, no model on it does.
pub proof fn a_connection_rules_out(own: FeaturesView, connection: FeaturesView, mode: ThinkingMode)
    ensures
        connection.thinking == CapabilitySupport::Unsupported ==> on_connection(
            own,
            connection,
        ).thinking == CapabilitySupport::Unsupported,
        connection.budget == CapabilitySupport::Unsupported ==> on_connection(
            own,
            connection,
        ).budget == CapabilitySupport::Unsupported,
        connection.fast == CapabilitySupport::Unsupported ==> on_connection(own, connection).fast
            == CapabilitySupport::Unsupported,
        connection.mode_support.of(mode) == CapabilitySupport::Unsupported ==> on_connection(
            own,
            connection,
        ).mode_fact(mode) == CapabilitySupport::Unsupported,
{
}

} // verus!
