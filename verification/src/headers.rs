//! HTTP headers as key/value pairs: how the headers of a collection, of a
//! request and of a form are combined, and the rows they are stored as.
use vstd::prelude::*;

use crate::models::{NewCollectionHeader, NewRequestHeader};

verus! {

/// A header: a key and its value.
#[derive(Debug, Clone)]
pub struct Header {
    pub key: String,
    pub value: String,
}

/// A header as a pair of texts.
pub type HeaderPair = (Seq<char>, Seq<char>);

/// The headers of `v` as pairs of texts.
pub open spec fn pairs_of(v: Seq<Header>) -> Seq<HeaderPair> {
    v.map_values(|h: Header| (h.key@, h.value@))
}

/// Some header of `hs` has the key `k`.
pub open spec fn has_key(hs: Seq<HeaderPair>, k: Seq<char>) -> bool {
    exists|i: int| 0 <= i < hs.len() && #[trigger] hs[i].0 == k
}

/// No two headers of `hs` share a key.
pub open spec fn distinct_keys(hs: Seq<HeaderPair>) -> bool {
    forall|i: int, j: int| 0 <= i < j < hs.len() ==> #[trigger] hs[i].0 != #[trigger] hs[j].0
}

/// The headers of `base` whose key no header of `over` has, in order.
pub open spec fn without_keys_of(base: Seq<HeaderPair>, over: Seq<HeaderPair>) -> Seq<HeaderPair>
    decreases base.len(),
{
    if base.len() == 0 {
        base
    } else {
        let rest = without_keys_of(base.drop_last(), over);
        if has_key(over, base.last().0) {
            rest
        } else {
            rest.push(base.last())
        }
    }
}

/// `base` with `over` laid on top: the headers of `base` whose key `over` does
/// not set, then all of `over`.
pub open spec fn overridden(base: Seq<HeaderPair>, over: Seq<HeaderPair>) -> Seq<HeaderPair> {
    without_keys_of(base, over) + over
}

/// The headers of `extra`, in order, whose key neither `known` nor an earlier
/// header of `extra` has.
pub open spec fn new_keys_of(known: Seq<HeaderPair>, extra: Seq<HeaderPair>) -> Seq<HeaderPair>
    decreases extra.len(),
{
    if extra.len() == 0 {
        Seq::empty()
    } else {
        let prev = extra.drop_last();
        let rest = new_keys_of(known, prev);
        if has_key(known, extra.last().0) || has_key(prev, extra.last().0) {
            rest
        } else {
            rest.push(extra.last())
        }
    }
}

/// `first` completed by the headers of `second` with keys not yet present.
pub open spec fn filled_in(first: Seq<HeaderPair>, second: Seq<HeaderPair>) -> Seq<HeaderPair> {
    first + new_keys_of(first, second)
}

/// The map from key to value that inserting the headers of `hs` one after the
/// other builds: a later header replaces an earlier one with the same key.
pub open spec fn header_map(hs: Seq<HeaderPair>) -> Map<Seq<char>, Seq<char>>
    decreases hs.len(),
{
    if hs.len() == 0 {
        Map::empty()
    } else {
        header_map(hs.drop_last()).insert(hs.last().0, hs.last().1)
    }
}

/// A copy of `h`.
fn copy_header(h: &Header) -> (res: Header)
    ensures
        res == *h,
{
    Header { key: h.key.clone(), value: h.value.clone() }
}

/// The position of the first header of `hs` with key `key`, if any.
pub fn find_key(hs: &Vec<Header>, key: &String) -> (res: Option<usize>)
    ensures
        res matches Some(i) ==> i < hs.len() && pairs_of(hs@)[i as int].0 == key@ && forall|j: int|
            0 <= j < i ==> pairs_of(hs@)[j].0 != key@,
        res is None ==> !has_key(pairs_of(hs@), key@),
{
    let n = hs.len();
    for i in 0..n
        invariant
            n == hs.len(),
            forall|j: int| 0 <= j < i ==> pairs_of(hs@)[j].0 != key@,
    {
        if hs[i].key == *key {
            return Some(i);
        }
    }
    None
}

/// Whether some header of `hs` has the key `key`.
pub fn key_present(hs: &Vec<Header>, key: &String) -> (res: bool)
    ensures
        res == has_key(pairs_of(hs@), key@),
{
    find_key(hs, key).is_some()
}

/// Lays `overrides` on top of `base`: drops every header of `base` whose key
/// `overrides` sets, then appends `overrides`.
pub fn override_headers(base: Vec<Header>, overrides: Vec<Header>) -> (res: Vec<Header>)
    ensures
        pairs_of(res@) == overridden(pairs_of(base@), pairs_of(overrides@)),
{
    let mut out: Vec<Header> = Vec::new();
    let n = base.len();
    for i in 0..n
        invariant
            n == base.len(),
            pairs_of(out@) == without_keys_of(pairs_of(base@.take(i as int)), pairs_of(overrides@)),
    {
        let h = &base[i];
        assert(pairs_of(base@.take(i + 1)).drop_last() =~= pairs_of(base@.take(i as int)));
        assert(pairs_of(base@.take(i + 1)).last() == (h.key@, h.value@));
        if !key_present(&overrides, &h.key) {
            let c = copy_header(h);
            let ghost before = out@;
            out.push(c);
            assert(pairs_of(out@) =~= pairs_of(before).push((h.key@, h.value@)));
        }
    }
    assert(base@.take(n as int) =~= base@);
    let ghost kept = out@;
    let mut rest = overrides;
    let ghost over = rest@;
    out.append(&mut rest);
    assert(pairs_of(out@) =~= pairs_of(kept) + pairs_of(over));
    out
}

/// A key is in `first` completed by `second` exactly when one of them has it.
pub proof fn lemma_filled_in_keys(first: Seq<HeaderPair>, second: Seq<HeaderPair>, k: Seq<char>)
    ensures
        has_key(filled_in(first, second), k) <==> (has_key(first, k) || has_key(second, k)),
    decreases second.len(),
{
    let f = filled_in(first, second);
    if second.len() == 0 {
        assert(f =~= first);
    } else {
        let prev = second.drop_last();
        let h = second.last();
        lemma_filled_in_keys(first, prev, k);
        let g = filled_in(first, prev);
        if has_key(first, h.0) || has_key(prev, h.0) {
            assert(f =~= g);
            if has_key(second, k) && !has_key(first, k) {
                let i = choose|i: int| 0 <= i < second.len() && #[trigger] second[i].0 == k;
                if i < prev.len() {
                    assert(prev[i].0 == k);
                } else {
                    assert(h.0 == k);
                    if has_key(prev, h.0) {
                    }
                }
            }
            if has_key(prev, k) {
                let i = choose|i: int| 0 <= i < prev.len() && #[trigger] prev[i].0 == k;
                assert(second[i].0 == k);
            }
        } else {
            assert(f =~= g.push(h));
            if has_key(f, k) {
                let i = choose|i: int| 0 <= i < f.len() && #[trigger] f[i].0 == k;
                if i < g.len() {
                    assert(g[i].0 == k);
                } else {
                    assert(second[second.len() - 1].0 == k);
                }
            }
            if has_key(second, k) {
                let i = choose|i: int| 0 <= i < second.len() && #[trigger] second[i].0 == k;
                if i < prev.len() {
                    assert(prev[i].0 == k);
                } else {
                    assert(f[f.len() - 1].0 == k);
                }
            }
            if has_key(g, k) {
                let i = choose|i: int| 0 <= i < g.len() && #[trigger] g[i].0 == k;
                assert(f[i].0 == k);
            }
            if has_key(prev, k) {
                let i = choose|i: int| 0 <= i < prev.len() && #[trigger] prev[i].0 == k;
                assert(second[i].0 == k);
            }
        }
    }
}

/// Completes `first` by each header of `second` whose key is not present yet.
pub fn fill_in_headers(first: Vec<Header>, second: Vec<Header>) -> (res: Vec<Header>)
    ensures
        pairs_of(res@) == filled_in(pairs_of(first@), pairs_of(second@)),
{
    let ghost f = pairs_of(first@);
    let mut out = first;
    let n = second.len();
    assert(new_keys_of(f, pairs_of(second@.take(0))) =~= Seq::<HeaderPair>::empty());
    assert(pairs_of(out@) =~= filled_in(f, pairs_of(second@.take(0))));
    for i in 0..n
        invariant
            n == second.len(),
            pairs_of(out@) == filled_in(f, pairs_of(second@.take(i as int))),
    {
        let h = &second[i];
        let ghost prev = pairs_of(second@.take(i as int));
        assert(pairs_of(second@.take(i + 1)).drop_last() =~= prev);
        assert(pairs_of(second@.take(i + 1)).last() == (h.key@, h.value@));
        proof {
            lemma_filled_in_keys(f, prev, h.key@);
        }
        if !key_present(&out, &h.key) {
            let c = copy_header(h);
            let ghost before = out@;
            out.push(c);
            assert(pairs_of(out@) =~= pairs_of(before).push((h.key@, h.value@)));
        }
    }
    assert(second@.take(n as int) =~= second@);
    out
}

/// Replacing the value under a key that occurs once changes the map at that key only.
pub proof fn lemma_header_map_update(hs: Seq<HeaderPair>, j: int, v: Seq<char>)
    requires
        distinct_keys(hs),
        0 <= j < hs.len(),
    ensures
        header_map(hs.update(j, (hs[j].0, v))) == header_map(hs).insert(hs[j].0, v),
    decreases hs.len(),
{
    let k = hs[j].0;
    let u = hs.update(j, (k, v));
    let last = hs.last();
    if j == hs.len() - 1 {
        assert(u.drop_last() =~= hs.drop_last());
        assert(header_map(u) =~= header_map(hs).insert(k, v));
    } else {
        assert(u.drop_last() =~= hs.drop_last().update(j, (k, v)));
        assert(distinct_keys(hs.drop_last()));
        lemma_header_map_update(hs.drop_last(), j, v);
        assert(hs[j].0 != hs[hs.len() - 1].0);
        assert(u.last() == last);
        assert(header_map(u) =~= header_map(hs).insert(k, v));
    }
}

/// The map of a list with one more header.
pub proof fn lemma_header_map_push(hs: Seq<HeaderPair>, p: HeaderPair)
    ensures
        header_map(hs.push(p)) == header_map(hs).insert(p.0, p.1),
{
    assert(hs.push(p).drop_last() =~= hs);
}

/// Lays the headers of `hs`, in order, on top of the distinct-key list `out`.
fn lay_headers(out: &mut Vec<Header>, hs: &Vec<Header>)
    requires
        distinct_keys(pairs_of(old(out)@)),
    ensures
        distinct_keys(pairs_of(final(out)@)),
        header_map(pairs_of(final(out)@)) == header_map(pairs_of(old(out)@) + pairs_of(hs@)),
{
    let ghost start = pairs_of(out@);
    let n = hs.len();
    assert(start + pairs_of(hs@.take(0)) =~= start);
    for i in 0..n
        invariant
            n == hs.len(),
            distinct_keys(pairs_of(out@)),
            header_map(pairs_of(out@)) == header_map(start + pairs_of(hs@.take(i as int))),
    {
        let h = &hs[i];
        let ghost p = (h.key@, h.value@);
        assert(start + pairs_of(hs@.take(i + 1)) =~= (start + pairs_of(hs@.take(i as int))).push(
            p,
        ));
        proof {
            lemma_header_map_push(start + pairs_of(hs@.take(i as int)), p);
        }
        match find_key(out, &h.key) {
            Some(j) => {
                let ghost before = pairs_of(out@);
                let c = copy_header(h);
                out.set(j, c);
                assert(pairs_of(out@) =~= before.update(j as int, (before[j as int].0, h.value@)));
                proof {
                    lemma_header_map_update(before, j as int, h.value@);
                    assert forall|a: int, b: int|
                        0 <= a < b < pairs_of(out@).len() implies #[trigger] pairs_of(out@)[a].0
                        != #[trigger] pairs_of(out@)[b].0 by {
                        assert(pairs_of(out@)[a].0 == before[a].0);
                        assert(pairs_of(out@)[b].0 == before[b].0);
                    }
                }
            },
            None => {
                let ghost before = pairs_of(out@);
                let c = copy_header(h);
                out.push(c);
                assert(pairs_of(out@) =~= before.push(p));
                proof {
                    lemma_header_map_push(before, p);
                    assert forall|a: int, b: int|
                        0 <= a < b < pairs_of(out@).len() implies #[trigger] pairs_of(out@)[a].0
                        != #[trigger] pairs_of(out@)[b].0 by {
                        if b == before.len() {
                            assert(before[a].0 == pairs_of(out@)[a].0);
                        } else {
                            assert(pairs_of(out@)[a].0 == before[a].0);
                            assert(pairs_of(out@)[b].0 == before[b].0);
                        }
                    }
                }
            },
        }
    }
    assert(hs@.take(n as int) =~= hs@);
}

/// The headers a request is sent with: the collection's headers, then the
/// request's own, each replacing an earlier one with the same key; one header
/// per key.
pub fn effective_headers(collection: &Vec<Header>, request: &Vec<Header>) -> (res: Vec<Header>)
    ensures
        distinct_keys(pairs_of(res@)),
        header_map(pairs_of(res@)) == header_map(pairs_of(collection@) + pairs_of(request@)),
{
    let mut out: Vec<Header> = Vec::new();
    assert(pairs_of(out@) =~= Seq::<HeaderPair>::empty());
    lay_headers(&mut out, collection);
    let ghost mid = pairs_of(out@);
    lay_headers(&mut out, request);
    proof {
        lemma_header_map_append(mid, pairs_of(collection@), pairs_of(request@));
    }
    out
}

/// Two lists with the same map keep the same map when the same headers follow.
pub proof fn lemma_header_map_append(a: Seq<HeaderPair>, b: Seq<HeaderPair>, c: Seq<HeaderPair>)
    requires
        header_map(a) == header_map(b),
    ensures
        header_map(a + c) == header_map(b + c),
    decreases c.len(),
{
    if c.len() == 0 {
        assert(a + c =~= a);
        assert(b + c =~= b);
    } else {
        lemma_header_map_append(a, b, c.drop_last());
        assert((a + c).drop_last() =~= a + c.drop_last());
        assert((b + c).drop_last() =~= b + c.drop_last());
    }
}

/// The rows that store `hs`, in order, as the default headers of collection `id`.
pub open spec fn collection_rows(id: i32, hs: Seq<Header>) -> Seq<NewCollectionHeader> {
    hs.map_values(|h: Header| NewCollectionHeader { collection_id: id, key: h.key, value: h.value })
}

/// The rows that store `hs`, in order, as the headers of request `id`.
pub open spec fn request_rows(id: i32, hs: Seq<Header>) -> Seq<NewRequestHeader> {
    hs.map_values(|h: Header| NewRequestHeader { request_id: id, key: h.key, value: h.value })
}

/// The rows that store `headers` as the default headers of collection `collection_id`.
pub fn collection_header_rows(collection_id: i32, headers: Vec<Header>) -> (res: Vec<
    NewCollectionHeader,
>)
    ensures
        res@ == collection_rows(collection_id, headers@),
{
    let mut out: Vec<NewCollectionHeader> = Vec::new();
    let ghost hs = headers@;
    for h in it: headers
        invariant
            it.seq() == hs,
            out@ == collection_rows(collection_id, hs.take(it.index() as int)),
    {
        let ghost k = it.index();
        assert(hs.take(k + 1) =~= hs.take(k as int).push(h));
        out.push(NewCollectionHeader { collection_id, key: h.key, value: h.value });
        assert(out@ =~= collection_rows(collection_id, hs.take(k + 1)));
    }
    assert(hs.take(hs.len() as int) =~= hs);
    out
}

/// The rows that store `headers` as the headers of request `request_id`.
pub fn request_header_rows(request_id: i32, headers: Vec<Header>) -> (res: Vec<NewRequestHeader>)
    ensures
        res@ == request_rows(request_id, headers@),
{
    let mut out: Vec<NewRequestHeader> = Vec::new();
    let ghost hs = headers@;
    for h in it: headers
        invariant
            it.seq() == hs,
            out@ == request_rows(request_id, hs.take(it.index() as int)),
    {
        let ghost k = it.index();
        assert(hs.take(k + 1) =~= hs.take(k as int).push(h));
        out.push(NewRequestHeader { request_id, key: h.key, value: h.value });
        assert(out@ =~= request_rows(request_id, hs.take(k + 1)));
    }
    assert(hs.take(hs.len() as int) =~= hs);
    out
}

// ---------------------------------------------------------------------------
// Laws
// ---------------------------------------------------------------------------

/// The map of a header list has exactly the keys of its headers.
pub proof fn lemma_header_map_dom(hs: Seq<HeaderPair>, k: Seq<char>)
    ensures
        header_map(hs).dom().contains(k) <==> has_key(hs, k),
    decreases hs.len(),
{
    if hs.len() > 0 {
        let prev = hs.drop_last();
        lemma_header_map_dom(prev, k);
        if has_key(prev, k) {
            let i = choose|i: int| 0 <= i < prev.len() && #[trigger] prev[i].0 == k;
            assert(hs[i].0 == k);
        }
        if has_key(hs, k) && hs.last().0 != k {
            let i = choose|i: int| 0 <= i < hs.len() && #[trigger] hs[i].0 == k;
            assert(prev[i].0 == k);
        }
    }
}

/// Headers that come later decide the value of every key they set.
pub proof fn lemma_later_headers_decide(x: Seq<HeaderPair>, o: Seq<HeaderPair>, k: Seq<char>)
    requires
        has_key(o, k),
    ensures
        header_map(x + o).dom().contains(k),
        header_map(o).dom().contains(k),
        header_map(x + o)[k] == header_map(o)[k],
    decreases o.len(),
{
    let prev = o.drop_last();
    assert((x + o).drop_last() =~= x + prev);
    assert((x + o).last() == o.last());
    if o.last().0 != k {
        let i = choose|i: int| 0 <= i < o.len() && #[trigger] o[i].0 == k;
        assert(prev[i].0 == k);
        lemma_later_headers_decide(x, prev, k);
    }
}

/// Headers that come later leave every key they do not set as it was.
pub proof fn lemma_later_headers_keep(x: Seq<HeaderPair>, o: Seq<HeaderPair>, k: Seq<char>)
    requires
        !has_key(o, k),
    ensures
        header_map(x + o).dom().contains(k) == header_map(x).dom().contains(k),
        header_map(x).dom().contains(k) ==> header_map(x + o)[k] == header_map(x)[k],
    decreases o.len(),
{
    if o.len() == 0 {
        assert(x + o =~= x);
    } else {
        let prev = o.drop_last();
        assert((x + o).drop_last() =~= x + prev);
        assert(o[o.len() - 1].0 != k);
        assert(!has_key(prev, k)) by {
            if has_key(prev, k) {
                let i = choose|i: int| 0 <= i < prev.len() && #[trigger] prev[i].0 == k;
                assert(o[i].0 == k);
            }
        }
        lemma_later_headers_keep(x, prev, k);
    }
}

/// Dropping the headers with keys of `o` leaves every other key as it was.
pub proof fn lemma_without_keys_keep(b: Seq<HeaderPair>, o: Seq<HeaderPair>, k: Seq<char>)
    requires
        !has_key(o, k),
    ensures
        header_map(without_keys_of(b, o)).dom().contains(k) == header_map(b).dom().contains(k),
        header_map(b).dom().contains(k) ==> header_map(without_keys_of(b, o))[k] == header_map(
            b,
        )[k],
    decreases b.len(),
{
    if b.len() > 0 {
        let prev = b.drop_last();
        lemma_without_keys_keep(prev, o, k);
        let p = b.last();
        if has_key(o, p.0) {
            assert(p.0 != k);
        } else {
            let w = without_keys_of(prev, o);
            assert(without_keys_of(b, o) == w.push(p));
            assert(w.push(p).drop_last() =~= w);
        }
    }
}

/// Dropping keys distributes over concatenation.
proof fn lemma_without_keys_concat(x: Seq<HeaderPair>, y: Seq<HeaderPair>, o: Seq<HeaderPair>)
    ensures
        without_keys_of(x + y, o) == without_keys_of(x, o) + without_keys_of(y, o),
    decreases y.len(),
{
    if y.len() == 0 {
        assert(x + y =~= x);
        assert(without_keys_of(x, o) + without_keys_of(y, o) =~= without_keys_of(x, o));
    } else {
        let prev = y.drop_last();
        assert((x + y).drop_last() =~= x + prev);
        assert((x + y).last() == y.last());
        lemma_without_keys_concat(x, prev, o);
        if !has_key(o, y.last().0) {
            assert(without_keys_of(x, o) + without_keys_of(prev, o).push(y.last()) =~= (
            without_keys_of(x, o) + without_keys_of(prev, o)).push(y.last()));
        }
    }
}

/// Every header of `y` has a key of `o`: dropping the keys of `o` drops all of `y`.
proof fn lemma_without_own_keys(y: Seq<HeaderPair>, o: Seq<HeaderPair>)
    requires
        forall|i: int| 0 <= i < y.len() ==> has_key(o, #[trigger] y[i].0),
    ensures
        without_keys_of(y, o) =~= Seq::<HeaderPair>::empty(),
    decreases y.len(),
{
    if y.len() > 0 {
        let prev = y.drop_last();
        assert forall|i: int| 0 <= i < prev.len() implies has_key(o, #[trigger] prev[i].0) by {
            assert(prev[i] == y[i]);
        }
        lemma_without_own_keys(prev, o);
        assert(has_key(o, y[y.len() - 1].0));
    }
}

/// What is left after dropping the keys of `o` has none of them.
proof fn lemma_without_keys_stable(b: Seq<HeaderPair>, o: Seq<HeaderPair>)
    ensures
        without_keys_of(without_keys_of(b, o), o) == without_keys_of(b, o),
    decreases b.len(),
{
    if b.len() > 0 {
        let prev = b.drop_last();
        lemma_without_keys_stable(prev, o);
        let w = without_keys_of(prev, o);
        if !has_key(o, b.last().0) {
            assert(w.push(b.last()).drop_last() =~= w);
        }
    }
}

/// Laying headers on top sets each of their keys to their value: for every key
/// `k` that `over` sets, the combined headers give `k` the value that `over`
/// gives it.
pub proof fn law_overriding_headers_win(base: Seq<HeaderPair>, over: Seq<HeaderPair>, k: Seq<char>)
    requires
        has_key(over, k),
    ensures
        header_map(overridden(base, over)).dom().contains(k),
        header_map(overridden(base, over))[k] == header_map(over)[k],
{
    lemma_later_headers_decide(without_keys_of(base, over), over, k);
}

/// Laying headers on top keeps every other key of the base headers: for a key
/// `k` that `over` does not set, the combined headers have `k` exactly when
/// `base` has it, with the value that `base` gives it.
pub proof fn law_overriding_keeps_other_headers(
    base: Seq<HeaderPair>,
    over: Seq<HeaderPair>,
    k: Seq<char>,
)
    requires
        !has_key(over, k),
    ensures
        header_map(overridden(base, over)).dom().contains(k) == header_map(base).dom().contains(k),
        header_map(base).dom().contains(k) ==> header_map(overridden(base, over))[k] == header_map(
            base,
        )[k],
{
    lemma_later_headers_keep(without_keys_of(base, over), over, k);
    lemma_without_keys_keep(base, over, k);
}

/// Laying the same headers on top a second time changes nothing.
pub proof fn law_overriding_is_idempotent(base: Seq<HeaderPair>, over: Seq<HeaderPair>)
    ensures
        overridden(overridden(base, over), over) == overridden(base, over),
{
    let w = without_keys_of(base, over);
    lemma_without_keys_concat(w, over, over);
    assert forall|i: int| 0 <= i < over.len() implies has_key(over, #[trigger] over[i].0) by {}
    lemma_without_own_keys(over, over);
    lemma_without_keys_stable(base, over);
    assert(without_keys_of(w, over) + Seq::<HeaderPair>::empty() =~= w);
}

/// A request is sent with its own value for every header it sets, whatever the
/// collection's defaults.
pub proof fn law_request_headers_win(
    collection: Seq<HeaderPair>,
    request: Seq<HeaderPair>,
    k: Seq<char>,
)
    requires
        has_key(request, k),
    ensures
        header_map(collection + request).dom().contains(k),
        header_map(collection + request)[k] == header_map(request)[k],
{
    lemma_later_headers_decide(collection, request, k);
}

/// A request is sent with the collection's value for every header that it does
/// not set itself.
pub proof fn law_collection_headers_fill_in(
    collection: Seq<HeaderPair>,
    request: Seq<HeaderPair>,
    k: Seq<char>,
)
    requires
        !has_key(request, k),
    ensures
        header_map(collection + request).dom().contains(k) == has_key(collection, k),
        has_key(collection, k) ==> header_map(collection + request)[k] == header_map(collection)[k],
{
    lemma_later_headers_keep(collection, request, k);
    lemma_header_map_dom(collection, k);
}

/// The headers shown for a load test hold each key of the request's and of the
/// collection's headers, the request's own first and unchanged.
pub proof fn law_filled_in_headers(first: Seq<HeaderPair>, second: Seq<HeaderPair>, k: Seq<char>)
    ensures
        has_key(filled_in(first, second), k) <==> (has_key(first, k) || has_key(second, k)),
        first.is_prefix_of(filled_in(first, second)),
{
    lemma_filled_in_keys(first, second, k);
    assert(filled_in(first, second).subrange(0, first.len() as int) =~= first);
}

} // verus!
