//! What is known of a model when two sources speak of it.

use crate::protocol::features::{self, FeaturesView};
use crate::protocol::inference::{CapabilitySupport, ReasoningEffort, ThinkingMode};
use vstd::prelude::*;

verus! {

/// A fact that is known.
pub open spec fn told(fact: CapabilitySupport) -> bool {
    fact != CapabilitySupport::Unknown
}

/// A later fact counts where there is one, and else the earlier one.
pub open spec fn follows(after: CapabilitySupport, seed: CapabilitySupport, later: CapabilitySupport) -> bool {
    (told(later) ==> after == later) && (!told(later) ==> after == seed)
}

/// What was observed later of a model counts over what was known of it, fact by fact, and
/// what was not observed stays as it was known.
pub proof fn the_latest_fact_counts(
    seed: FeaturesView,
    later: FeaturesView,
    mode: ThinkingMode,
    effort: ReasoningEffort,
)
    ensures
        ({
            let after = features::overlaid(seed, later);
            &&& follows(after.thinking, seed.thinking, later.thinking)
            &&& follows(after.fast, seed.fast, later.fast)
            &&& follows(after.effort, seed.effort, later.effort)
            &&& follows(after.budget, seed.budget, later.budget)
            &&& follows(after.dynamic_budget, seed.dynamic_budget, later.dynamic_budget)
            &&& follows(
                after.mode_support.of(mode),
                seed.mode_support.of(mode),
                later.mode_support.of(mode),
            )
            &&& follows(
                after.forced_tool_choice.of(mode),
                seed.forced_tool_choice.of(mode),
                later.forced_tool_choice.of(mode),
            )
            &&& follows(
                after.effort_support.of(effort),
                seed.effort_support.of(effort),
                later.effort_support.of(effort),
            )
            &&& after.modes == if later.modes is Some { later.modes } else { seed.modes }
            &&& after.efforts == if later.efforts is Some { later.efforts } else { seed.efforts }
            &&& after.default_mode == if later.default_mode is Some {
                later.default_mode
            } else {
                seed.default_mode
            }
            &&& after.default_effort == if later.default_effort is Some {
                later.default_effort
            } else {
                seed.default_effort
            }
            &&& after.min_budget == if later.min_budget is Some {
                later.min_budget
            } else {
                seed.min_budget
            }
            &&& after.max_budget == if later.max_budget is Some {
                later.max_budget
            } else {
                seed.max_budget
            }
        }),
{
}

/// What a connection leaves of a fact: it rules out, it fills in, and it never grants what
/// is known to be missing.
pub open spec fn narrows(
    after: CapabilitySupport,
    own: CapabilitySupport,
    connection: CapabilitySupport,
) -> bool {
    &&& connection == CapabilitySupport::Unsupported ==> after == CapabilitySupport::Unsupported
    &&& !told(own) ==> after == connection
    &&& told(own) && connection != CapabilitySupport::Unsupported ==> after == own
}

proof fn lemma_shared<T>(list: Seq<T>, other: Seq<T>, i: int, before: Seq<T>, item: T)
    requires
        0 <= i <= list.len(),
    ensures
        features::shared(list, other, i, before).contains(item) <==> before.contains(item) || (
        other.contains(item) && exists|k: int| i <= k < list.len() && #[trigger] list[k] == item),
    decreases list.len() - i,
{
    if i < list.len() {
        let next = if other.contains(list[i]) {
            before.push(list[i])
        } else {
            before
        };
        lemma_shared(list, other, i + 1, next, item);
        if next.len() > before.len() {
            assert(next[before.len() as int] == list[i]);
            if before.contains(item) {
                let k = choose|k: int| 0 <= k < before.len() && before[k] == item;
                assert(next[k] == item);
            }
            if next.contains(item) && item != list[i] {
                let k = choose|k: int| 0 <= k < next.len() && next[k] == item;
                assert(before[k] == item);
            }
        }
        if exists|k: int| i <= k < list.len() && #[trigger] list[k] == item {
            let k = choose|k: int| i <= k < list.len() && #[trigger] list[k] == item;
            if k > i {
                assert(i + 1 <= k && list[k] == item);
            }
        }
    }
}

/// A connection only narrows what a model can: a fact that it rules out is out, a list is
/// cut down to what both have, and a budget lies within both bounds.
pub proof fn a_connection_only_narrows(
    own: FeaturesView,
    connection: FeaturesView,
    mode: ThinkingMode,
    effort: ReasoningEffort,
)
    ensures
        ({
            let after = features::on_connection(own, connection);
            &&& narrows(after.thinking, own.thinking, connection.thinking)
            &&& narrows(after.fast, own.fast, connection.fast)
            &&& narrows(after.effort, own.effort, connection.effort)
            &&& narrows(after.budget, own.budget, connection.budget)
            &&& narrows(after.dynamic_budget, own.dynamic_budget, connection.dynamic_budget)
            &&& narrows(
                after.mode_support.of(mode),
                own.mode_support.of(mode),
                connection.mode_support.of(mode),
            )
            &&& narrows(
                after.effort_support.of(effort),
                own.effort_support.of(effort),
                connection.effort_support.of(effort),
            )
            &&& own.modes is Some && connection.modes is Some ==> (after.modes matches Some(all)
                && (all.contains(mode) <==> own.modes->0.contains(mode)
                && connection.modes->0.contains(mode)))
            &&& own.efforts is Some && connection.efforts is Some ==> (
            after.efforts matches Some(all) && (all.contains(effort) <==> own.efforts->0.contains(
                effort,
            ) && connection.efforts->0.contains(effort)))
            &&& own.modes is None ==> after.modes == connection.modes
            &&& connection.modes is None ==> after.modes == own.modes
            &&& own.max_budget matches Some(n) ==> (after.max_budget matches Some(max) && max <= n)
            &&& connection.max_budget matches Some(n) ==> (after.max_budget matches Some(max) && max
                <= n)
            &&& own.min_budget matches Some(n) ==> (after.min_budget matches Some(min) && min >= n)
            &&& connection.min_budget matches Some(n) ==> (after.min_budget matches Some(min) && min
                >= n)
            &&& own.default_mode is Some ==> after.default_mode == own.default_mode
            &&& own.default_mode is None ==> after.default_mode == connection.default_mode
        }),
{
    if own.modes is Some && connection.modes is Some {
        let list = own.modes->0;
        lemma_shared(list, connection.modes->0, 0, Seq::empty(), mode);
        if list.contains(mode) {
            let k = choose|k: int| 0 <= k < list.len() && list[k] == mode;
            assert(list[k] == mode);
        }
    }
    if own.efforts is Some && connection.efforts is Some {
        let list = own.efforts->0;
        lemma_shared(list, connection.efforts->0, 0, Seq::empty(), effort);
        if list.contains(effort) {
            let k = choose|k: int| 0 <= k < list.len() && list[k] == effort;
            assert(list[k] == effort);
        }
    }
}

/// What is known of a mode is its own fact where there is one, else whether it is listed;
/// a model that cannot think can only be told not to.
pub proof fn a_mode_is_known_by_its_own_fact(facts: FeaturesView, mode: ThinkingMode)
    ensures
        told(facts.mode_support.of(mode)) ==> facts.mode_fact(mode) == facts.mode_support.of(mode),
        !told(facts.mode_support.of(mode)) ==> (facts.modes matches Some(all) ==> (facts.mode_fact(
            mode,
        ) == CapabilitySupport::Supported <==> all.contains(mode)) && (facts.mode_fact(mode)
            == CapabilitySupport::Unsupported <==> !all.contains(mode))),
        !told(facts.mode_support.of(mode)) && facts.modes is None && facts.thinking
            == CapabilitySupport::Unsupported && mode != ThinkingMode::Disabled ==> facts.mode_fact(
            mode,
        ) == CapabilitySupport::Unsupported,
{
}

} // verus!
