//! The tabs that a browser session keeps open, and how requests change them.
use vstd::prelude::*;

use crate::text::{parse_i32, parsed_i32};

verus! {

/// An open tab of the editor: a request or a collection.
#[derive(Debug, Clone)]
pub struct Tab {
    pub name: String,
    /// What the tab shows (`request`, ...); stored under the key `type`.
    pub kind: String,
    pub collection_id: i32,
    pub id: Option<i32>,
}

/// The tab list after a tab was placed with `index`: it replaces the tab at
/// `index` when there is one, and is appended otherwise.
pub open spec fn placed(tabs: Seq<Tab>, tab: Tab, index: Option<usize>) -> Seq<Tab> {
    match index {
        Some(i) => if i < tabs.len() {
            tabs.update(i as int, tab)
        } else {
            tabs.push(tab)
        },
        None => tabs.push(tab),
    }
}

/// Places `tab`: at `index` in place of the tab there, or at the end.
pub fn place_tab(tabs: &mut Vec<Tab>, tab: Tab, index: Option<usize>)
    ensures
        final(tabs)@ == placed(old(tabs)@, tab, index),
{
    match index {
        Some(i) => {
            if i < tabs.len() {
                tabs.set(i, tab);
            } else {
                tabs.push(tab);
            }
        },
        None => {
            tabs.push(tab);
        },
    }
}

/// `t` is the tab named `name`, of kind `kind`, showing `id`.
pub open spec fn is_tab(t: Tab, name: Seq<char>, id: Option<i32>, kind: Seq<char>) -> bool {
    t.name@ == name && t.id == id && t.kind@ == kind
}

/// The tabs of `tabs`, in order, that are not the tab `name`/`id`/`kind`.
pub open spec fn tabs_without(tabs: Seq<Tab>, name: Seq<char>, id: Option<i32>, kind: Seq<char>) -> Seq<
    Tab,
>
    decreases tabs.len(),
{
    if tabs.len() == 0 {
        tabs
    } else {
        let rest = tabs_without(tabs.drop_last(), name, id, kind);
        if is_tab(tabs.last(), name, id, kind) {
            rest
        } else {
            rest.push(tabs.last())
        }
    }
}

/// Whether `t` is the tab `name`/`id`/`kind`.
fn tab_is(t: &Tab, name: &String, id: Option<i32>, kind: &String) -> (res: bool)
    ensures
        res == is_tab(*t, name@, id, kind@),
{
    let same_id = match (t.id, id) {
        (Some(a), Some(b)) => a == b,
        (None, None) => true,
        _ => false,
    };
    same_id && t.name == *name && t.kind == *kind
}

/// The query that names a tab to close.
#[derive(Debug, Clone)]
pub struct QueryParams {
    pub name: String,
    pub id: Option<i32>,
    pub kind: String,
}

/// Closes the tab that `params` names: every tab with its name, id and kind is
/// removed, the others stay in order.
pub fn remove_tab(tabs: &mut Vec<Tab>, params: &QueryParams)
    ensures
        final(tabs)@ == tabs_without(old(tabs)@, params.name@, params.id, params.kind@),
{
    let name = &params.name;
    let id = params.id;
    let kind = &params.kind;
    let mut all: Vec<Tab> = Vec::new();
    std::mem::swap(&mut all, tabs);
    let ghost start = all@;
    assert(tabs@ =~= tabs_without(start.take(0), name@, id, kind@));
    for t in it: all
        invariant
            it.seq() == start,
            name == &params.name,
            kind == &params.kind,
            id == params.id,
            tabs@ == tabs_without(start.take(it.index() as int), name@, id, kind@),
    {
        let ghost k = it.index();
        assert(start.take(k + 1).drop_last() =~= start.take(k as int));
        assert(start.take(k + 1).last() == t);
        if !tab_is(&t, name, id, kind) {
            tabs.push(t);
        }
    }
    assert(start.take(start.len() as int) =~= start);
}

/// The form that opens a tab.
#[derive(Debug, Clone)]
pub struct JsonData {
    pub name: String,
    pub id: Option<i32>,
    pub kind: String,
    pub collection_id: String,
}

/// Opens the tab that `form` describes at the end of `tabs`; the form's
/// collection id must be a number.
pub fn new_tab(tabs: &mut Vec<Tab>, form: JsonData)
    requires
        parsed_i32(form.collection_id@) is Some,
    ensures
        final(tabs)@.len() == old(tabs)@.len() + 1,
        final(tabs)@.drop_last() == old(tabs)@,
        final(tabs)@.last().name == form.name,
        final(tabs)@.last().kind == form.kind,
        final(tabs)@.last().id == form.id,
        Some(final(tabs)@.last().collection_id) == parsed_i32(form.collection_id@),
{
    let collection_id = match parse_i32(form.collection_id.as_str()) {
        Some(c) => c,
        None => 0,
    };
    let ghost before = tabs@;
    tabs.push(Tab { name: form.name, kind: form.kind, collection_id, id: form.id });
    assert(tabs@.drop_last() =~= before);
}

/// After a tab was closed, no tab with its name, id and kind is left.
pub proof fn law_closed_tab_is_gone(tabs: Seq<Tab>, name: Seq<char>, id: Option<i32>, kind: Seq<char>)
    ensures
        forall|i: int|
            0 <= i < tabs_without(tabs, name, id, kind).len() ==> !is_tab(
                #[trigger] tabs_without(tabs, name, id, kind)[i],
                name,
                id,
                kind,
            ),
    decreases tabs.len(),
{
    if tabs.len() > 0 {
        let prev = tabs.drop_last();
        law_closed_tab_is_gone(prev, name, id, kind);
        let r = tabs_without(prev, name, id, kind);
        if !is_tab(tabs.last(), name, id, kind) {
            assert forall|i: int| 0 <= i < r.push(tabs.last()).len() implies !is_tab(
                #[trigger] r.push(tabs.last())[i],
                name,
                id,
                kind,
            ) by {
                if i < r.len() {
                    assert(r.push(tabs.last())[i] == r[i]);
                }
            }
        }
    }
}

/// Closing a tab keeps every other tab: a list without that tab is left as it is.
pub proof fn law_closing_keeps_other_tabs(
    tabs: Seq<Tab>,
    name: Seq<char>,
    id: Option<i32>,
    kind: Seq<char>,
)
    requires
        forall|i: int| 0 <= i < tabs.len() ==> !is_tab(#[trigger] tabs[i], name, id, kind),
    ensures
        tabs_without(tabs, name, id, kind) == tabs,
    decreases tabs.len(),
{
    if tabs.len() > 0 {
        let prev = tabs.drop_last();
        assert forall|i: int| 0 <= i < prev.len() implies !is_tab(#[trigger] prev[i], name, id, kind) by {
            assert(prev[i] == tabs[i]);
        }
        law_closing_keeps_other_tabs(prev, name, id, kind);
        assert(!is_tab(tabs[tabs.len() - 1], name, id, kind));
        assert(prev.push(tabs.last()) =~= tabs);
    }
}

/// Closing the same tab twice is closing it once.
pub proof fn law_closing_twice_is_closing_once(
    tabs: Seq<Tab>,
    name: Seq<char>,
    id: Option<i32>,
    kind: Seq<char>,
)
    ensures
        tabs_without(tabs_without(tabs, name, id, kind), name, id, kind) == tabs_without(
            tabs,
            name,
            id,
            kind,
        ),
{
    law_closed_tab_is_gone(tabs, name, id, kind);
    law_closing_keeps_other_tabs(tabs_without(tabs, name, id, kind), name, id, kind);
}

/// Placing a tab at a position that holds one keeps the number of tabs; any
/// other placement adds one; either way the placed tab is there.
pub proof fn law_placing_a_tab(tabs: Seq<Tab>, tab: Tab, index: Option<usize>)
    ensures
        index matches Some(i) ==> (i < tabs.len() ==> placed(tabs, tab, index).len() == tabs.len()
            && placed(tabs, tab, index)[i as int] == tab),
        !(index matches Some(i) && i < tabs.len()) ==> placed(tabs, tab, index).len() == tabs.len()
            + 1 && placed(tabs, tab, index).last() == tab,
{
}

/// Closing a tab that was just opened gives back the tabs as they were before,
/// when none of them was that tab: `opened` is `tabs` with one tab more at the
/// end, as opening a tab leaves them, and that tab is the one closed.
pub proof fn law_closing_a_new_tab_restores(
    tabs: Seq<Tab>,
    opened: Seq<Tab>,
    name: Seq<char>,
    id: Option<i32>,
    kind: Seq<char>,
)
    requires
        opened.len() == tabs.len() + 1,
        opened.drop_last() == tabs,
        is_tab(opened.last(), name, id, kind),
        forall|i: int| 0 <= i < tabs.len() ==> !is_tab(#[trigger] tabs[i], name, id, kind),
    ensures
        tabs_without(opened, name, id, kind) == tabs,
{
    law_closing_keeps_other_tabs(tabs, name, id, kind);
}

/// Closing the tab `name`/`id`/`kind` keeps, in order, exactly the tabs that
/// differ from it in name, in id or in kind.
pub proof fn law_closing_keeps_exactly_the_differing_tabs(
    tabs: Seq<Tab>,
    name: Seq<char>,
    id: Option<i32>,
    kind: Seq<char>,
)
    ensures
        tabs_without(tabs, name, id, kind) == tabs.filter(
            |t: Tab| t.name@ != name || t.id != id || t.kind@ != kind,
        ),
    decreases tabs.len(),
{
    reveal(Seq::filter);
    let pred = |t: Tab| t.name@ != name || t.id != id || t.kind@ != kind;
    if tabs.len() > 0 {
        law_closing_keeps_exactly_the_differing_tabs(tabs.drop_last(), name, id, kind);
        assert(tabs.drop_last().filter(pred) == tabs_without(tabs.drop_last(), name, id, kind));
        assert(pred(tabs.last()) == !is_tab(tabs.last(), name, id, kind));
        assert(tabs.filter(pred) == (if pred(tabs.last()) {
            tabs.drop_last().filter(pred).push(tabs.last())
        } else {
            tabs.drop_last().filter(pred)
        }));
    } else {
        assert(tabs.filter(pred) == tabs);
    }
}

/// A tab that differs from the closed one in name, id or kind is still open
/// after the closing.
pub proof fn law_differing_tab_stays_open(
    tabs: Seq<Tab>,
    name: Seq<char>,
    id: Option<i32>,
    kind: Seq<char>,
    i: int,
)
    requires
        0 <= i < tabs.len(),
        tabs[i].name@ != name || tabs[i].id != id || tabs[i].kind@ != kind,
    ensures
        tabs_without(tabs, name, id, kind).contains(tabs[i]),
    decreases tabs.len(),
{
    let prev = tabs.drop_last();
    let rest = tabs_without(prev, name, id, kind);
    if i < prev.len() {
        assert(prev[i] == tabs[i]);
        law_differing_tab_stays_open(prev, name, id, kind, i);
        let k = choose|k: int| 0 <= k < rest.len() && rest[k] == tabs[i];
        if is_tab(tabs.last(), name, id, kind) {
        } else {
            assert(rest.push(tabs.last())[k] == tabs[i]);
        }
    } else {
        assert(tabs.last() == tabs[i]);
        assert(!is_tab(tabs.last(), name, id, kind));
        assert(rest.push(tabs.last())[rest.len() as int] == tabs[i]);
    }
}

} // verus!
