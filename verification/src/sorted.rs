//! Lists in ascending order that stand for sets of texts and for maps by text.

use crate::text;
use vstd::prelude::*;

verus! {

broadcast use crate::views::group_views;

/// In ascending order, none twice.
pub open spec fn ascending(set: Seq<Seq<char>>) -> bool {
    forall|i: int, j: int| 0 <= i < j < set.len() ==> text::less(#[trigger] set[i], #[trigger] set[j])
}

/// The list with a text: before the first greater one, unless it is there.
pub open spec fn inserted(set: Seq<Seq<char>>, item: Seq<char>) -> Seq<Seq<char>>
    decreases set.len(),
{
    if set.len() == 0 {
        seq![item]
    } else if set[0] == item {
        set
    } else if text::less(item, set[0]) {
        seq![item] + set
    } else {
        seq![set[0]] + inserted(set.skip(1), item)
    }
}

pub fn insert(set: &mut Vec<String>, item: &str)
    ensures
        final(set).deep_view() == inserted(old(set).deep_view(), item@),
{
    let ghost all = set.deep_view();
    let ghost wanted = inserted(all, item@);
    let mut i: usize = 0;
    assert(all.skip(0) =~= all);
    assert(all.take(0) + inserted(all.skip(0), item@) =~= wanted);
    while i < set.len()
        invariant
            i <= set.len(),
            all == set.deep_view(),
            *set == *old(set),
            wanted == inserted(all, item@),
            wanted == all.take(i as int) + inserted(all.skip(i as int), item@),
        decreases set.len() - i,
    {
        let ghost rest = all.skip(i as int);
        proof {
            assert(all[i as int] == set@[i as int]@);
            assert(rest[0] == all[i as int]);
            assert(rest.skip(1) =~= all.skip(i + 1));
        }
        if text::same(&set[i], item) {
            assert(all.take(i as int) + rest =~= all);
            return ;
        }
        if text::is_less(item, &set[i]) {
            set.insert(i, item.to_owned());
            assert(set.deep_view() =~= all.take(i as int) + (seq![item@] + rest));
            return ;
        }
        assert(all.take(i as int) + (seq![rest[0]] + inserted(rest.skip(1), item@)) =~= all.take(
            i + 1,
        ) + inserted(all.skip(i + 1), item@));
        i = i + 1;
    }
    set.push(item.to_owned());
    proof {
        assert(all.skip(i as int) =~= seq![]);
        assert(set.deep_view() =~= all.take(i as int) + seq![item@]);
    }
}

/// Whether the text is there.
pub fn holds(set: &Vec<String>, item: &str) -> (result: bool)
    ensures
        result == set.deep_view().contains(item@),
{
    let mut i: usize = 0;
    while i < set.len()
        invariant
            i <= set.len(),
            forall|k: int| 0 <= k < i ==> set.deep_view()[k] != item@,
        decreases set.len() - i,
    {
        assert(set.deep_view()[i as int] == set@[i as int]@);
        if text::same(&set[i], item) {
            assert(set.deep_view().contains(item@));
            return true;
        }
        i = i + 1;
    }
    false
}

/// Every text of another list, from the `i`th on, inserted.
pub open spec fn extended(set: Seq<Seq<char>>, more: Seq<Seq<char>>, i: int) -> Seq<Seq<char>>
    decreases more.len() - i,
{
    if i < 0 || i >= more.len() {
        set
    } else {
        extended(inserted(set, more[i]), more, i + 1)
    }
}

pub fn extend(set: &mut Vec<String>, more: &Vec<String>)
    ensures
        final(set).deep_view() == extended(old(set).deep_view(), more.deep_view(), 0),
{
    let ghost first = set.deep_view();
    let mut i: usize = 0;
    while i < more.len()
        invariant
            i <= more.len(),
            extended(first, more.deep_view(), 0) == extended(
                set.deep_view(),
                more.deep_view(),
                i as int,
            ),
        decreases more.len() - i,
    {
        assert(more.deep_view()[i as int] == more@[i as int]@);
        insert(set, &more[i]);
        i = i + 1;
    }
}

/// The texts that another list does not hold, from the `i`th on, behind those
/// before.
pub open spec fn dropped(
    set: Seq<Seq<char>>,
    drop: Seq<Seq<char>>,
    i: int,
    before: Seq<Seq<char>>,
) -> Seq<Seq<char>>
    decreases set.len() - i,
{
    if i < 0 || i >= set.len() {
        before
    } else {
        dropped(
            set,
            drop,
            i + 1,
            if drop.contains(set[i]) {
                before
            } else {
                before.push(set[i])
            },
        )
    }
}

/// The list without the texts of another.
pub fn without(set: &Vec<String>, drop: &Vec<String>) -> (result: Vec<String>)
    ensures
        result.deep_view() == dropped(set.deep_view(), drop.deep_view(), 0, Seq::empty()),
{
    let mut out: Vec<String> = Vec::new();
    let mut i: usize = 0;
    while i < set.len()
        invariant
            i <= set.len(),
            dropped(set.deep_view(), drop.deep_view(), 0, Seq::empty()) == dropped(
                set.deep_view(),
                drop.deep_view(),
                i as int,
                out.deep_view(),
            ),
        decreases set.len() - i,
    {
        assert(set.deep_view()[i as int] == set@[i as int]@);
        if !holds(drop, &set[i]) {
            out.push(set[i].clone());
        }
        i = i + 1;
    }
    out
}

/// The first entry with the key, from the `i`th on.
pub open spec fn found<V>(entries: Seq<(Seq<char>, V)>, key: Seq<char>, i: int) -> Option<V>
    decreases entries.len() - i,
{
    if i < 0 || i >= entries.len() {
        None
    } else if entries[i].0 == key {
        Some(entries[i].1)
    } else {
        found(entries, key, i + 1)
    }
}

pub fn find<'a, T: DeepView>(entries: &'a Vec<(String, T)>, key: &str) -> (result: Option<&'a T>)
    ensures
        result.deep_view() == found(entries.deep_view(), key@, 0),
{
    let mut i: usize = 0;
    while i < entries.len()
        invariant
            i <= entries.len(),
            found(entries.deep_view(), key@, 0) == found(entries.deep_view(), key@, i as int),
        decreases entries.len() - i,
    {
        assert(entries.deep_view()[i as int] == entries@[i as int].deep_view());
        if text::same(&entries[i].0, key) {
            return Some(&entries[i].1);
        }
        i = i + 1;
    }
    None
}

/// The entries with `key` set: in place where the key is there, else before the
/// first greater key.
pub open spec fn put<V>(entries: Seq<(Seq<char>, V)>, key: Seq<char>, value: V) -> Seq<
    (Seq<char>, V),
>
    decreases entries.len(),
{
    if entries.len() == 0 {
        seq![(key, value)]
    } else if entries[0].0 == key {
        entries.update(0, (key, value))
    } else if text::less(key, entries[0].0) {
        seq![(key, value)] + entries
    } else {
        seq![entries[0]] + put(entries.skip(1), key, value)
    }
}

pub fn set<T: DeepView>(entries: &mut Vec<(String, T)>, key: &str, value: T)
    ensures
        final(entries).deep_view() == put(old(entries).deep_view(), key@, value.deep_view()),
{
    let ghost all = entries.deep_view();
    let ghost held = value.deep_view();
    let ghost wanted = put(all, key@, held);
    let mut i: usize = 0;
    assert(all.skip(0) =~= all);
    assert(all.take(0) + put(all.skip(0), key@, held) =~= wanted);
    while i < entries.len()
        invariant
            i <= entries.len(),
            all == entries.deep_view(),
            *entries == *old(entries),
            held == value.deep_view(),
            wanted == put(all, key@, held),
            wanted == all.take(i as int) + put(all.skip(i as int), key@, held),
        decreases entries.len() - i,
    {
        let ghost rest = all.skip(i as int);
        proof {
            assert(all[i as int] == entries@[i as int].deep_view());
            assert(rest[0] == all[i as int]);
            assert(rest.skip(1) =~= all.skip(i + 1));
        }
        if text::same(&entries[i].0, key) {
            let ghost before = entries@;
            let name = entries[i].0.clone();
            entries[i] = (name, value);
            proof {
                assert(entries@ =~= before.update(i as int, (name, value)));
                assert(entries.deep_view() =~= all.update(i as int, (key@, held)));
                assert(entries.deep_view() =~= all.take(i as int) + rest.update(0, (key@, held)));
            }
            return ;
        }
        if text::is_less(key, &entries[i].0) {
            entries.insert(i, (key.to_owned(), value));
            assert(entries.deep_view() =~= all.take(i as int) + (seq![(key@, held)] + rest));
            return ;
        }
        assert(all.take(i as int) + (seq![rest[0]] + put(rest.skip(1), key@, held)) =~= all.take(
            i + 1,
        ) + put(all.skip(i + 1), key@, held));
        i = i + 1;
    }
    entries.push((key.to_owned(), value));
    proof {
        assert(all.skip(i as int) =~= seq![]);
        assert(entries.deep_view() =~= all.take(i as int) + seq![(key@, held)]);
    }
}

proof fn lemma_found_later<V>(entries: Seq<(Seq<char>, V)>, key: Seq<char>, i: int)
    requires
        1 <= i,
        entries.len() > 0,
    ensures
        found(entries, key, i) == found(entries.skip(1), key, i - 1),
    decreases entries.len() - i,
{
    if i < entries.len() {
        lemma_found_later(entries, key, i + 1);
    }
}

/// Reading gives back what was set, and other keys keep their values.
pub proof fn put_then_found<V>(entries: Seq<(Seq<char>, V)>, key: Seq<char>, value: V, other: Seq<char>)
    ensures
        found(put(entries, key, value), key, 0) == Some(value),
        other != key ==> found(put(entries, key, value), other, 0) == found(entries, other, 0),
    decreases entries.len(),
{
    let after = put(entries, key, value);
    lemma_found_later(after, key, 1);
    lemma_found_later(after, other, 1);
    if entries.len() == 0 {
        assert(after.skip(1) =~= entries);
    } else {
        lemma_found_later(entries, other, 1);
        if entries[0].0 == key {
            assert(after.skip(1) =~= entries.skip(1));
        } else if text::less(key, entries[0].0) {
            assert(after.skip(1) =~= entries);
        } else {
            assert(after.skip(1) =~= put(entries.skip(1), key, value));
            put_then_found(entries.skip(1), key, value, other);
        }
    }
}

/// A list is extended by every text of the other, and by nothing else.
pub proof fn extending_adds_every_text(set: Seq<Seq<char>>, more: Seq<Seq<char>>, i: int, item: Seq<char>)
    requires
        0 <= i <= more.len(),
    ensures
        extended(set, more, i).contains(item) <==> set.contains(item) || exists|k: int|
            i <= k < more.len() && #[trigger] more[k] == item,
    decreases more.len() - i,
{
    if i < more.len() {
        inserting_adds_one_text(set, more[i], item);
        extending_adds_every_text(inserted(set, more[i]), more, i + 1, item);
    }
}

/// Dropping takes out every text of the other list, and nothing else.
pub proof fn dropping_takes_every_text(
    set: Seq<Seq<char>>,
    drop: Seq<Seq<char>>,
    i: int,
    before: Seq<Seq<char>>,
    item: Seq<char>,
)
    requires
        0 <= i <= set.len(),
    ensures
        dropped(set, drop, i, before).contains(item) <==> before.contains(item) || (!drop.contains(
            item,
        ) && exists|k: int| i <= k < set.len() && #[trigger] set[k] == item),
    decreases set.len() - i,
{
    if i < set.len() {
        let more = if drop.contains(set[i]) {
            before
        } else {
            before.push(set[i])
        };
        dropping_takes_every_text(set, drop, i + 1, more, item);
        if !drop.contains(set[i]) {
            if before.contains(item) {
                let k = choose|k: int| 0 <= k < before.len() && before[k] == item;
                assert(more[k] == item);
            }
            if set[i] == item {
                assert(more[before.len() as int] == item);
            }
            if more.contains(item) {
                let k = choose|k: int| 0 <= k < more.len() && more[k] == item;
                if k < before.len() {
                    assert(before[k] == item);
                }
            }
        }
    }
}

/// Inserting adds the text, keeps the others, and adds nothing else.
pub proof fn inserting_adds_one_text(set: Seq<Seq<char>>, item: Seq<char>, other: Seq<char>)
    ensures
        inserted(set, item).contains(item),
        other != item ==> inserted(set, item).contains(other) == set.contains(other),
    decreases set.len(),
{
    if set.len() == 0 {
        assert(seq![item][0] == item);
    } else if set[0] == item {
    } else if text::less(item, set[0]) {
        let all = seq![item] + set;
        assert(all[0] == item);
        if other != item && set.contains(other) {
            let k = choose|k: int| 0 <= k < set.len() && set[k] == other;
            assert(all[k + 1] == other);
        }
    } else {
        let rest = inserted(set.skip(1), item);
        let all = seq![set[0]] + rest;
        inserting_adds_one_text(set.skip(1), item, other);
        let k = choose|k: int| 0 <= k < rest.len() && rest[k] == item;
        assert(all[k + 1] == item);
        if other != item {
            if all.contains(other) {
                let k = choose|k: int| 0 <= k < all.len() && all[k] == other;
                if k > 0 {
                    assert(rest[k - 1] == other);
                    let n = choose|n: int| 0 <= n < set.skip(1).len() && set.skip(1)[n] == other;
                    assert(set[n + 1] == other);
                }
            }
            if set.contains(other) {
                let k = choose|k: int| 0 <= k < set.len() && set[k] == other;
                if k > 0 {
                    assert(set.skip(1)[k - 1] == other);
                    let n = choose|n: int| 0 <= n < rest.len() && rest[n] == other;
                    assert(all[n + 1] == other);
                } else {
                    assert(all[0] == other);
                }
            }
        }
    }
}

/// Inserting keeps the order.
pub proof fn inserting_keeps_the_order(set: Seq<Seq<char>>, item: Seq<char>)
    requires
        ascending(set),
    ensures
        ascending(inserted(set, item)),
        inserted(set, item).len() > 0,
        inserted(set, item)[0] == item || (set.len() > 0 && inserted(set, item)[0] == set[0]),
    decreases set.len(),
{
    if set.len() > 0 {
        text::less_is_total(item, set[0]);
        if set[0] == item {
        } else if text::less(item, set[0]) {
            let all = seq![item] + set;
            assert forall|i: int, j: int| 0 <= i < j < all.len() implies text::less(
                #[trigger] all[i],
                #[trigger] all[j],
            ) by {
                if i == 0 && j > 1 {
                    text::less_is_transitive(item, set[0], set[j - 1]);
                }
            }
        } else {
            let tail = set.skip(1);
            inserting_keeps_the_order(tail, item);
            let rest = inserted(tail, item);
            assert forall|j: int| 0 <= j < rest.len() implies text::less(
                set[0],
                #[trigger] rest[j],
            ) by {
                if j > 0 {
                    assert(text::less(set[0], rest[0]));
                    text::less_is_transitive(set[0], rest[0], rest[j]);
                }
            }
        }
    }
}

/// Two lists in order that hold the same texts are the same list.
pub proof fn the_same_texts_are_the_same_list(a: Seq<Seq<char>>, b: Seq<Seq<char>>)
    requires
        ascending(a),
        ascending(b),
        forall|x: Seq<char>| a.contains(x) <==> b.contains(x),
    ensures
        a == b,
    decreases a.len(),
{
    if a.len() == 0 {
        if b.len() > 0 {
            assert(b.contains(b[0]));
        }
        assert(a =~= b);
    } else {
        assert(a.contains(a[0]));
        let n = choose|n: int| 0 <= n < b.len() && b[n] == a[0];
        assert(b.contains(b[0]));
        let m = choose|m: int| 0 <= m < a.len() && a[m] == b[0];
        text::less_is_total(a[0], b[0]);
        if n > 0 && m > 0 {
            assert(text::less(b[0], b[n]));
            assert(text::less(a[0], a[m]));
        }
        assert(a[0] == b[0]);
        let x = a.skip(1);
        let y = b.skip(1);
        lemma_rest_ascends(a);
        lemma_rest_ascends(b);
        assert forall|t: Seq<char>| x.contains(t) <==> y.contains(t) by {
            lemma_rest_holds(a, t);
            lemma_rest_holds(b, t);
        }
        the_same_texts_are_the_same_list(x, y);
        assert(a =~= seq![a[0]] + x);
        assert(b =~= seq![b[0]] + y);
    }
}

proof fn lemma_rest_ascends(set: Seq<Seq<char>>)
    requires
        ascending(set),
        set.len() > 0,
    ensures
        ascending(set.skip(1)),
{
    assert forall|i: int, j: int| 0 <= i < j < set.skip(1).len() implies text::less(
        #[trigger] set.skip(1)[i],
        #[trigger] set.skip(1)[j],
    ) by {
        assert(text::less(set[i + 1], set[j + 1]));
    }
}

/// The rest of a list in order holds what the list does but for its first text.
proof fn lemma_rest_holds(set: Seq<Seq<char>>, item: Seq<char>)
    requires
        ascending(set),
        set.len() > 0,
    ensures
        set.skip(1).contains(item) <==> set.contains(item) && item != set[0],
{
    let rest = set.skip(1);
    if rest.contains(item) {
        let k = choose|k: int| 0 <= k < rest.len() && rest[k] == item;
        assert(set[k + 1] == item);
        assert(text::less(set[0], set[k + 1]));
        text::less_is_total(set[0], item);
    }
    if set.contains(item) && item != set[0] {
        let k = choose|k: int| 0 <= k < set.len() && set[k] == item;
        assert(rest[k - 1] == item);
    }
}

} // verus!
