//! What a walk of a directory brings home, and what becomes of it in an account.

use crate::configuration::error::MAX_PAGES;
use crate::configuration::merge::{self, DefinitionsView};
use crate::configuration::model::{self, ObservationView, SavedView};
use crate::configuration::sync::{self, ListingView, SyncView};
use crate::directory::{DecodedPageView, LiveModelView};
use crate::protocol::ProviderView;
use crate::sorted;
use vstd::prelude::*;

verus! {

/// The listing after the first `n` pages.
pub open spec fn after_pages(pages: Seq<DecodedPageView>, n: int) -> ListingView
    decreases n,
{
    if n <= 0 {
        sync::no_listing()
    } else {
        sync::with_page(after_pages(pages, n - 1), pages[n - 1])
    }
}

/// The models of the first `n` pages, one page after the other.
pub open spec fn models_of(pages: Seq<DecodedPageView>, n: int) -> Seq<LiveModelView>
    decreases n,
{
    if n <= 0 {
        Seq::empty()
    } else {
        models_of(pages, n - 1) + pages[n - 1].page.models
    }
}

/// The models of the first `n` pages that do not serve the wire.
pub open spec fn incompatible_of(pages: Seq<DecodedPageView>, n: int) -> Seq<Seq<char>>
    decreases n,
{
    if n <= 0 {
        Seq::empty()
    } else {
        incompatible_of(pages, n - 1) + pages[n - 1].incompatible
    }
}

/// The models of the first `n` pages that are known to serve the wire.
pub open spec fn compatible_of(pages: Seq<DecodedPageView>, n: int) -> Seq<Seq<char>>
    decreases n,
{
    if n <= 0 {
        Seq::empty()
    } else {
        compatible_of(pages, n - 1) + pages[n - 1].compatible
    }
}

/// What a walk brings home is what its pages say, all of them and in their order: every
/// model that a page lists is among the live models.
pub proof fn a_walk_brings_every_page_home(
    pages: Seq<DecodedPageView>,
    n: int,
    source: ProviderView,
    generation: u64,
)
    requires
        0 <= n <= pages.len(),
    ensures
        ({
            let read = sync::read_of(source, generation, after_pages(pages, n));
            &&& read.source == source
            &&& read.generation == generation
            &&& read.live == models_of(pages, n)
            &&& read.incompatible == incompatible_of(pages, n)
            &&& read.compatible == compatible_of(pages, n)
            &&& forall|p: int, k: int|
                #![trigger pages[p].page.models[k]]
                0 <= p < n && 0 <= k < pages[p].page.models.len() ==> read.live.contains(
                    pages[p].page.models[k],
                )
        }),
    decreases n,
{
    if n > 0 {
        a_walk_brings_every_page_home(pages, n - 1, source, generation);
        let before = sync::read_of(source, generation, after_pages(pages, n - 1)).live;
        let read = sync::read_of(source, generation, after_pages(pages, n)).live;
        let last = pages[n - 1].page.models;
        assert(read =~= before + last);
        assert forall|p: int, k: int|
            #![trigger pages[p].page.models[k]]
            0 <= p < n && 0 <= k < pages[p].page.models.len() implies read.contains(
            pages[p].page.models[k],
        ) by {
            let model = pages[p].page.models[k];
            if p < n - 1 {
                let j = choose|j: int| 0 <= j < before.len() && before[j] == model;
                assert(read[j] == model);
            } else {
                assert(read[before.len() + k] == model);
            }
        }
    }
}

/// The cursors that are remembered are those that the pages named.
pub proof fn a_walk_remembers_its_cursors(pages: Seq<DecodedPageView>, n: int, cursor: Seq<char>)
    requires
        0 <= n <= pages.len(),
        n <= MAX_PAGES,
    ensures
        after_pages(pages, n).pages == n,
        after_pages(pages, n).cursors.contains(cursor) <==> exists|p: int|
            0 <= p < n && (#[trigger] pages[p]).page.next_cursor == Some(cursor),
    decreases n,
{
    if n > 0 {
        a_walk_remembers_its_cursors(pages, n - 1, cursor);
        if let Some(next) = pages[n - 1].page.next_cursor {
            sorted::inserting_adds_one_text(after_pages(pages, n - 1).cursors, next, cursor);
        }
        let last = pages[n - 1];
        if exists|p: int| 0 <= p < n - 1 && (#[trigger] pages[p]).page.next_cursor == Some(cursor) {
            let p = choose|p: int|
                0 <= p < n - 1 && (#[trigger] pages[p]).page.next_cursor == Some(cursor);
            assert(pages[p].page.next_cursor == Some(cursor));
        }
    }
}

/// A walk goes on at the cursor that a page names, and is over where a page names none.
/// It fails if and only if an earlier page named that cursor too, or the directory has
/// too many pages.
pub proof fn a_walk_goes_on_at_the_cursor(pages: Seq<DecodedPageView>, n: int)
    requires
        0 <= n < pages.len(),
        n < MAX_PAGES,
    ensures
        ({
            let next = pages[n].page.next_cursor;
            let again = exists|p: int|
                0 <= p < n && next is Some && (#[trigger] pages[p]).page.next_cursor == next;
            match sync::next_of(after_pages(pages, n), pages[n]) {
                Ok(cursor) => cursor == next && !again && (next is Some ==> n + 1 < MAX_PAGES),
                Err(error) => error is InvalidPagination && next is Some && (again || n + 1
                    >= MAX_PAGES),
            }
        }),
{
    if let Some(cursor) = pages[n].page.next_cursor {
        a_walk_remembers_its_cursors(pages, n, cursor);
    } else {
        a_walk_remembers_its_cursors(pages, n, Seq::empty());
    }
}

/// Which models an account holds back after a walk: those that it held back before or
/// that the walk found not to serve the wire, without those that it found to serve it.
pub proof fn the_held_back_models_follow_the_walk(saved: SavedView, listing: SyncView, wire: Seq<char>)
    ensures
        sync::with_operations(saved, listing).incompatible_models.contains(wire) <==> (
        saved.incompatible_models.contains(wire) || listing.incompatible.contains(wire))
            && !listing.compatible.contains(wire),
{
    let more = sorted::extended(saved.incompatible_models, listing.incompatible, 0);
    sorted::extending_adds_every_text(saved.incompatible_models, listing.incompatible, 0, wire);
    sorted::dropping_takes_every_text(more, listing.compatible, 0, Seq::empty(), wire);
    if listing.incompatible.contains(wire) {
        let k = choose|k: int|
            0 <= k < listing.incompatible.len() && listing.incompatible[k] == wire;
        assert(listing.incompatible[k] == wire);
    }
    if more.contains(wire) {
        let k = choose|k: int| 0 <= k < more.len() && more[k] == wire;
        assert(more[k] == wire);
    }
}

/// What is known of a model.
pub open spec fn known(saved: SavedView, wire: Seq<char>) -> Option<ObservationView> {
    sorted::found(saved.observations, wire, 0)
}

/// What was observed holds what a directory says of a model, and what was known before
/// where it says nothing.
pub open spec fn learned(before: Option<ObservationView>, live: LiveModelView, after: ObservationView) -> bool {
    let held = match before {
        Some(held) => held,
        None => model::no_observation(),
    };
    &&& live.context_window is Some ==> after.context_window == live.context_window
    &&& live.context_window is None ==> after.context_window == held.context_window
    &&& live.max_output_tokens is Some ==> after.max_output_tokens == live.max_output_tokens
    &&& live.max_output_tokens is None ==> after.max_output_tokens == held.max_output_tokens
    &&& live.description is Some ==> after.description == live.description
    &&& live.inference_features is None ==> after.inference_features == held.inference_features
    &&& live.inference_features is Some ==> after.inference_features is Some
}

/// A model that a directory lists is learned of, and shown: the account has a row for it
/// afterwards, and nothing that it knew of another model is changed.
pub proof fn a_listed_model_is_learned(
    saved: SavedView,
    live: LiveModelView,
    definitions: DefinitionsView,
    other: Seq<char>,
)
    ensures
        ({
            let after = sync::with_model(saved, live, definitions);
            let wire = live.request_model;
            &&& known(after, wire) matches Some(now) && learned(known(saved, wire), live, now)
            &&& other != wire ==> known(after, other) == known(saved, other)
            &&& after.incompatible_models == saved.incompatible_models
            &&& !sync::shows(merge::rows_of(saved, definitions), wire) ==> exists|i: int|
                0 <= i < after.models.len() && (#[trigger] after.models[i]).observed
                    && after.models[i].initial == Some(model::bare_model(wire))
            &&& sync::shows(merge::rows_of(saved, definitions), wire) ==> after.models
                == saved.models
        }),
{
    let after = sync::with_model(saved, live, definitions);
    let wire = live.request_model;
    let held = match known(saved, wire) {
        Some(held) => held,
        None => model::no_observation(),
    };
    let exists_already = sync::shows(merge::rows_of(saved, definitions), wire);
    let now = sync::with_live(held, live, exists_already);
    sorted::put_then_found(saved.observations, wire, now, other);
    if !exists_already {
        if sync::restorable(saved.models, wire) {
            let i = choose|i: int|
                0 <= i < saved.models.len() && sync::stands_for(#[trigger] saved.models[i], wire);
            assert(after.models[i] == sync::restored(saved.models[i], wire));
            assert(after.models[i].observed);
        } else {
            let last = after.models.len() - 1;
            assert(after.models[last].observed);
        }
    }
}

/// Whether a walk takes a listed model into an account: it is one that is asked for, and
/// it is not held back.
pub open spec fn wanted(saved: SavedView, ids: Seq<Seq<char>>, wire: Seq<char>) -> bool {
    ids.contains(wire) && !saved.incompatible_models.contains(wire)
}

/// How many of the models from the `i`th on are wanted.
pub open spec fn wanted_count(saved: SavedView, ids: Seq<Seq<char>>, live: Seq<LiveModelView>, i: int) -> int
    decreases live.len() - i,
{
    if i < 0 || i >= live.len() {
        0
    } else if wanted(saved, ids, live[i].request_model) {
        1 + wanted_count(saved, ids, live, i + 1)
    } else {
        wanted_count(saved, ids, live, i + 1)
    }
}

proof fn lemma_count(a: SavedView, b: SavedView, ids: Seq<Seq<char>>, live: Seq<LiveModelView>, i: int)
    requires
        a.incompatible_models == b.incompatible_models,
    ensures
        wanted_count(a, ids, live, i) == wanted_count(b, ids, live, i),
    decreases live.len() - i,
{
    if 0 <= i < live.len() {
        lemma_count(a, b, ids, live, i + 1);
    }
}

/// Every wanted model of a walk is learned of, and as many are counted; of a model that
/// is not wanted, and of one that the walk does not list, what is known stays the same.
pub proof fn every_wanted_model_is_learned(
    saved: SavedView,
    ids: Seq<Seq<char>>,
    live: Seq<LiveModelView>,
    definitions: DefinitionsView,
    i: int,
    count: int,
    wire: Seq<char>,
)
    requires
        0 <= i <= live.len(),
        forall|a: int, b: int|
            0 <= a < b < live.len() ==> (#[trigger] live[a]).request_model != (
            #[trigger] live[b]).request_model,
    ensures
        ({
            let (after, taken) = sync::with_models(saved, ids, live, definitions, i, count);
            &&& taken == count + wanted_count(saved, ids, live, i)
            &&& after.incompatible_models == saved.incompatible_models
            &&& forall|k: int|
                i <= k < live.len() && wanted(saved, ids, live[k].request_model) ==> (known(
                    after,
                    (#[trigger] live[k]).request_model,
                ) matches Some(now) && learned(known(saved, live[k].request_model), live[k], now))
            &&& (forall|k: int|
                i <= k < live.len() && wanted(saved, ids, live[k].request_model) ==> (
                #[trigger] live[k]).request_model != wire) ==> known(after, wire) == known(
                saved,
                wire,
            )
        }),
    decreases live.len() - i,
{
    if i < live.len() {
        let name = live[i].request_model;
        if sync::taken(saved, ids, live[i]) {
            let next = sync::with_model(saved, live[i], definitions);
            a_listed_model_is_learned(saved, live[i], definitions, wire);
            lemma_count(saved, next, ids, live, i + 1);
            every_wanted_model_is_learned(next, ids, live, definitions, i + 1, count + 1, name);
            assert forall|k: int|
                i + 1 <= k < live.len() && wanted(
                    next,
                    ids,
                    live[k].request_model,
                ) implies (#[trigger] live[k]).request_model != name by {
                assert(live[i].request_model != live[k].request_model);
            }
            let after = sync::with_models(next, ids, live, definitions, i + 1, count + 1).0;
            assert(known(after, name) == known(next, name));
            assert forall|k: int| i <= k < live.len() && wanted(saved, ids, live[k].request_model) implies (
            known(after, (#[trigger] live[k]).request_model) matches Some(now) && learned(
                known(saved, live[k].request_model),
                live[k],
                now,
            )) by {
                if k > i {
                    assert(live[i].request_model != live[k].request_model);
                    a_listed_model_is_learned(
                        saved,
                        live[i],
                        definitions,
                        live[k].request_model,
                    );
                    assert(wanted(next, ids, live[k].request_model));
                }
            }
            every_wanted_model_is_learned(next, ids, live, definitions, i + 1, count + 1, wire);
        } else {
            every_wanted_model_is_learned(saved, ids, live, definitions, i + 1, count, wire);
        }
    }
}

} // verus!
