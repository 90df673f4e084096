//! Extraction: the pure reshaping of a raw upstream payload into the
//! structured record shape.
//!
//! Extraction is best-effort throughout: a malformed document subtree is
//! dropped rather than reported, and a component, component-set or style
//! entry that does not fit its target shape is skipped while the rest of
//! the map is still extracted. For every entry that does parse, the
//! mapping key is authoritative: it overwrites whatever `key` field the
//! definition itself carried.

use vstd::prelude::*;
use crate::json::{
    JsonValue, JsonView, entries_view, lemma_entries_view, views_of, lemma_views_of, lookup_entry,
    spec_field,
};
use crate::model::{
    FigmaComponent, ComponentView, FigmaComponentSet, ComponentSetView, FigmaStyle, StyleView,
    FigmaNode, NodeView, node_views, lemma_node_views, FigmaDocument, DocumentView,
    FigmaData, DataView, opt_view, strs_view, components_view, component_sets_view, styles_view,
};
use crate::text::str_eq;

verus! {

/// An optional string field, as a tolerant decoder reads it: absent or
/// `null` is an absent value, a string is a present value, and any other
/// shape fails the decode (the outer `None`).
pub open spec fn opt_text(entries: Seq<(Seq<char>, JsonView)>, key: Seq<char>) -> Option<
    Option<Seq<char>>,
> {
    match lookup_entry(entries, key) {
        None => Some(None),
        Some(JsonView::Null) => Some(None),
        Some(JsonView::Text(s)) => Some(Some(s)),
        Some(_) => None,
    }
}

/// A required string field: present with a string value, or the decode
/// fails.
pub open spec fn req_text(entries: Seq<(Seq<char>, JsonView)>, key: Seq<char>) -> Option<
    Seq<char>,
> {
    match lookup_entry(entries, key) {
        Some(JsonView::Text(s)) => Some(s),
        _ => None,
    }
}

/// The entries that are not captured by named fields: everything whose
/// key is not in `skip`, in entry order.
pub open spec fn extras(entries: Seq<(Seq<char>, JsonView)>, skip: Seq<Seq<char>>) -> Seq<
    (Seq<char>, JsonView),
>
    decreases entries.len(),
{
    if entries.len() == 0 {
        Seq::empty()
    } else {
        let rest = extras(entries.drop_last(), skip);
        if skip.contains(entries.last().0) {
            rest
        } else {
            rest.push(entries.last())
        }
    }
}

/// The view of a list of string slices.
pub open spec fn strslices_view(items: Seq<&str>) -> Seq<Seq<char>> {
    Seq::new(items.len(), |i: int| items[i]@)
}

/// Whether `key` occurs in `list`, compared by contents.
pub fn in_list(key: &str, list: &Vec<&str>) -> (r: bool)
    ensures
        r == strslices_view(list@).contains(key@),
{
    let ghost lv = strslices_view(list@);
    let mut i: usize = 0;
    while i < list.len()
        invariant
            i <= list.len(),
            lv == strslices_view(list@),
            forall|j: int| 0 <= j < i ==> lv[j] != key@,
        decreases list.len() - i,
    {
        if str_eq(key, list[i]) {
            proof {
                assert(lv[i as int] == key@);
            }
            return true;
        }
        proof {
            assert(lv[i as int] == list@[i as int]@);
        }
        i = i + 1;
    }
    proof {
        assert(forall|j: int| 0 <= j < lv.len() ==> lv[j] != key@);
    }
    false
}

/// Index of the first entry whose key is `key`, if any; relates the
/// result to [`lookup_entry`] on the entry list's view.
pub fn find_key(entries: &Vec<(String, JsonValue)>, key: &str) -> (r: Option<usize>)
    ensures
        match r {
            Some(j) => j < entries@.len() && entries@[j as int].0@ == key@ && lookup_entry(
                entries_view(entries@),
                key@,
            ) == Some(entries@[j as int].1@),
            None => lookup_entry(entries_view(entries@), key@) is None,
        },
{
    proof {
        broadcast use lemma_entries_view;

    }
    let ghost all = entries_view(entries@);
    proof {
        assert(all.skip(0) =~= all);
    }
    let mut i: usize = 0;
    while i < entries.len()
        invariant
            i <= entries.len(),
            all == entries_view(entries@),
            all.len() == entries@.len(),
            lookup_entry(all, key@) == lookup_entry(all.skip(i as int), key@),
        decreases entries.len() - i,
    {
        proof {
            broadcast use lemma_entries_view;

            assert(all.skip(i as int)[0] == all[i as int]);
        }
        if str_eq(entries[i].0.as_str(), key) {
            return Some(i);
        }
        proof {
            assert(all.skip(i as int).drop_first() =~= all.skip(i as int + 1));
        }
        i = i + 1;
    }
    proof {
        assert(all.skip(entries@.len() as int).len() == 0);
    }
    None
}

/// Read an optional string field, as [`opt_text`] specifies.
pub fn opt_text_field(entries: &Vec<(String, JsonValue)>, key: &str) -> (r: Result<
    Option<String>,
    (),
>)
    ensures
        match r {
            Ok(o) => opt_text(entries_view(entries@), key@) == Some(opt_view(o)),
            Err(_) => opt_text(entries_view(entries@), key@) is None,
        },
{
    match find_key(entries, key) {
        None => Ok(None),
        Some(j) => match &entries[j].1 {
            JsonValue::Null => Ok(None),
            JsonValue::Text(s) => Ok(Some(s.clone())),
            _ => Err(()),
        },
    }
}

/// Read a required string field, as [`req_text`] specifies.
pub fn req_text_field(entries: &Vec<(String, JsonValue)>, key: &str) -> (r: Result<String, ()>)
    ensures
        match r {
            Ok(s) => req_text(entries_view(entries@), key@) == Some(s@),
            Err(_) => req_text(entries_view(entries@), key@) is None,
        },
{
    match find_key(entries, key) {
        None => Err(()),
        Some(j) => match &entries[j].1 {
            JsonValue::Text(s) => Ok(s.clone()),
            _ => Err(()),
        },
    }
}

/// Collect the entries not captured by named fields, as [`extras`]
/// specifies.
pub fn collect_extras(entries: &Vec<(String, JsonValue)>, skip: &Vec<&str>) -> (r: Vec<
    (String, JsonValue),
>)
    ensures
        entries_view(r@) == extras(entries_view(entries@), strslices_view(skip@)),
{
    proof {
        broadcast use lemma_entries_view;

    }
    let ghost all = entries_view(entries@);
    let ghost skipv = strslices_view(skip@);
    let mut out: Vec<(String, JsonValue)> = Vec::new();
    proof {
        assert(all.take(0) =~= Seq::<(Seq<char>, JsonView)>::empty());
        assert(entries_view(out@) =~= extras(all.take(0), skipv));
    }
    let mut i: usize = 0;
    while i < entries.len()
        invariant
            i <= entries.len(),
            all == entries_view(entries@),
            skipv == strslices_view(skip@),
            all.len() == entries@.len(),
            entries_view(out@) == extras(all.take(i as int), skipv),
        decreases entries.len() - i,
    {
        proof {
            broadcast use lemma_entries_view;

            assert(all.take(i as int + 1).drop_last() =~= all.take(i as int));
            assert(all.take(i as int + 1).last() == all[i as int]);
        }
        let ghost before = entries_view(out@);
        if !in_list(entries[i].0.as_str(), skip) {
            let key = entries[i].0.clone();
            let value = entries[i].1.clone();
            out.push((key, value));
            proof {
                assert(entries_view(out@) =~= before.push(all[i as int]));
            }
        }
        i = i + 1;
    }
    proof {
        assert(all.take(entries@.len() as int) =~= all);
    }
    out
}

/// A component definition parses when `key`, `name` and `nodeId` are
/// strings and `description` and `componentSetId`, if present, are
/// strings or null; the mapping key `key` overwrites the definition's
/// own.
pub open spec fn component_of(key: Seq<char>, v: JsonView) -> Option<ComponentView> {
    match v {
        JsonView::Object(entries) => {
            if req_text(entries, "key"@) is Some && req_text(entries, "name"@) is Some && req_text(
                entries,
                "nodeId"@,
            ) is Some && opt_text(entries, "description"@) is Some && opt_text(
                entries,
                "componentSetId"@,
            ) is Some {
                Some(
                    ComponentView {
                        key: key,
                        name: req_text(entries, "name"@).unwrap(),
                        description: opt_text(entries, "description"@).unwrap(),
                        component_set_id: opt_text(entries, "componentSetId"@).unwrap(),
                        node_id: req_text(entries, "nodeId"@).unwrap(),
                        properties: extras(entries, component_skip()),
                    },
                )
            } else {
                None
            }
        },
        _ => None,
    }
}

/// The named fields of a component definition.
pub open spec fn component_skip() -> Seq<Seq<char>> {
    seq!["key"@, "name"@, "description"@, "componentSetId"@, "nodeId"@]
}

/// Parse one component entry, as [`component_of`] specifies.
pub fn parse_component(key: &String, v: &JsonValue) -> (r: Option<FigmaComponent>)
    ensures
        match r {
            Some(c) => component_of(key@, v@) == Some(c@),
            None => component_of(key@, v@) is None,
        },
{
    let entries = match v {
        JsonValue::Object(entries) => entries,
        _ => { return None },
    };
    let name = match req_text_field(entries, "name") {
        Ok(s) => s,
        Err(_) => { return None },
    };
    let node_id = match req_text_field(entries, "nodeId") {
        Ok(s) => s,
        Err(_) => { return None },
    };
    match req_text_field(entries, "key") {
        Ok(_) => (),
        Err(_) => { return None },
    };
    let description = match opt_text_field(entries, "description") {
        Ok(o) => o,
        Err(_) => { return None },
    };
    let component_set_id = match opt_text_field(entries, "componentSetId") {
        Ok(o) => o,
        Err(_) => { return None },
    };
    let skip: Vec<&str> = vec!["key", "name", "description", "componentSetId", "nodeId"];
    let properties = collect_extras(entries, &skip);
    proof {
        assert(strslices_view(skip@) =~= component_skip());
    }
    Some(
        FigmaComponent {
            key: key.clone(),
            name,
            description,
            component_set_id,
            node_id,
            properties,
        },
    )
}

/// All elements as strings, or nothing if any element is not a string.
pub open spec fn text_items(items: Seq<JsonView>) -> Option<Seq<Seq<char>>>
    decreases items.len(),
{
    if items.len() == 0 {
        Some(Seq::empty())
    } else {
        match (text_items(items.drop_last()), items.last()) {
            (Some(s), JsonView::Text(t)) => Some(s.push(t)),
            _ => None,
        }
    }
}

/// The `component_ids` field: absent means empty, an array of strings
/// means its contents, and anything else fails the decode.
pub open spec fn ids_of(entries: Seq<(Seq<char>, JsonView)>) -> Option<Seq<Seq<char>>> {
    match lookup_entry(entries, "component_ids"@) {
        None => Some(Seq::empty()),
        Some(JsonView::Array(items)) => text_items(items),
        Some(_) => None,
    }
}

/// Parse an array of strings, as [`text_items`] specifies.
pub fn parse_string_array(items: &Vec<JsonValue>) -> (r: Option<Vec<String>>)
    ensures
        match r {
            Some(out) => text_items(views_of(items@)) == Some(strs_view(out@)),
            None => text_items(views_of(items@)) is None,
        },
{
    proof {
        broadcast use lemma_views_of;

    }
    let ghost iv = views_of(items@);
    let mut out: Vec<String> = Vec::new();
    proof {
        assert(iv.take(0) =~= Seq::<JsonView>::empty());
        assert(strs_view(out@) =~= Seq::<Seq<char>>::empty());
    }
    let mut i: usize = 0;
    while i < items.len()
        invariant
            i <= items.len(),
            iv == views_of(items@),
            iv.len() == items@.len(),
            text_items(iv.take(i as int)) == Some(strs_view(out@)),
        decreases items.len() - i,
    {
        proof {
            broadcast use lemma_views_of;

            assert(iv.take(i as int + 1).drop_last() =~= iv.take(i as int));
            assert(iv.take(i as int + 1).last() == iv[i as int]);
        }
        let ghost before = strs_view(out@);
        match &items[i] {
            JsonValue::Text(s) => {
                out.push(s.clone());
                proof {
                    assert(strs_view(out@) =~= before.push(s@));
                }
            },
            _ => {
                proof {
                    lemma_text_items_fail(iv, i as int);
                }
                return None;
            },
        }
        i = i + 1;
    }
    proof {
        assert(iv.take(items@.len() as int) =~= iv);
    }
    Some(out)
}

/// If one element is not a string, the whole array fails the decode.
proof fn lemma_text_items_fail(items: Seq<JsonView>, i: int)
    requires
        0 <= i < items.len(),
        !(items[i] is Text),
    ensures
        text_items(items) is None,
    decreases items.len(),
{
    if i < items.len() - 1 {
        lemma_text_items_fail(items.drop_last(), i);
    }
}

/// A component-set definition parses when `key`, `name` and `nodeId` are
/// strings, `description` is tolerant-optional, and `component_ids`, if
/// present, is an array of strings; the mapping key overwrites the
/// definition's own.
pub open spec fn component_set_of(key: Seq<char>, v: JsonView) -> Option<ComponentSetView> {
    match v {
        JsonView::Object(entries) => {
            if req_text(entries, "key"@) is Some && req_text(entries, "name"@) is Some && req_text(
                entries,
                "nodeId"@,
            ) is Some && opt_text(entries, "description"@) is Some && ids_of(entries) is Some {
                Some(
                    ComponentSetView {
                        key: key,
                        name: req_text(entries, "name"@).unwrap(),
                        description: opt_text(entries, "description"@).unwrap(),
                        node_id: req_text(entries, "nodeId"@).unwrap(),
                        component_ids: ids_of(entries).unwrap(),
                        properties: extras(entries, component_set_skip()),
                    },
                )
            } else {
                None
            }
        },
        _ => None,
    }
}

/// The named fields of a component-set definition.
pub open spec fn component_set_skip() -> Seq<Seq<char>> {
    seq!["key"@, "name"@, "description"@, "nodeId"@, "component_ids"@]
}

/// Parse one component-set entry, as [`component_set_of`] specifies.
pub fn parse_component_set(key: &String, v: &JsonValue) -> (r: Option<FigmaComponentSet>)
    ensures
        match r {
            Some(c) => component_set_of(key@, v@) == Some(c@),
            None => component_set_of(key@, v@) is None,
        },
{
    let entries = match v {
        JsonValue::Object(entries) => entries,
        _ => { return None },
    };
    let name = match req_text_field(entries, "name") {
        Ok(s) => s,
        Err(_) => { return None },
    };
    let node_id = match req_text_field(entries, "nodeId") {
        Ok(s) => s,
        Err(_) => { return None },
    };
    match req_text_field(entries, "key") {
        Ok(_) => (),
        Err(_) => { return None },
    };
    let description = match opt_text_field(entries, "description") {
        Ok(o) => o,
        Err(_) => { return None },
    };
    let component_ids: Vec<String> = match find_key(entries, "component_ids") {
        None => Vec::new(),
        Some(j) => match &entries[j].1 {
            JsonValue::Array(items) => match parse_string_array(items) {
                Some(ids) => ids,
                None => { return None },
            },
            _ => { return None },
        },
    };
    proof {
        assert(strs_view(Seq::<String>::empty()) =~= Seq::<Seq<char>>::empty());
    }
    let skip: Vec<&str> = vec!["key", "name", "description", "nodeId", "component_ids"];
    let properties = collect_extras(entries, &skip);
    proof {
        assert(strslices_view(skip@) =~= component_set_skip());
    }
    Some(
        FigmaComponentSet { key: key.clone(), name, description, node_id, component_ids, properties },
    )
}

/// A style definition parses when `key`, `name` and `styleType` are
/// strings and `description` and `nodeId` are tolerant-optional; the
/// mapping key overwrites the definition's own.
pub open spec fn style_of(key: Seq<char>, v: JsonView) -> Option<StyleView> {
    match v {
        JsonView::Object(entries) => {
            if req_text(entries, "key"@) is Some && req_text(entries, "name"@) is Some && req_text(
                entries,
                "styleType"@,
            ) is Some && opt_text(entries, "description"@) is Some && opt_text(
                entries,
                "nodeId"@,
            ) is Some {
                Some(
                    StyleView {
                        key: key,
                        name: req_text(entries, "name"@).unwrap(),
                        description: opt_text(entries, "description"@).unwrap(),
                        style_type: req_text(entries, "styleType"@).unwrap(),
                        node_id: opt_text(entries, "nodeId"@).unwrap(),
                        properties: extras(entries, style_skip()),
                    },
                )
            } else {
                None
            }
        },
        _ => None,
    }
}

/// The named fields of a style definition.
pub open spec fn style_skip() -> Seq<Seq<char>> {
    seq!["key"@, "name"@, "description"@, "styleType"@, "nodeId"@]
}

/// Parse one style entry, as [`style_of`] specifies.
pub fn parse_style(key: &String, v: &JsonValue) -> (r: Option<FigmaStyle>)
    ensures
        match r {
            Some(s) => style_of(key@, v@) == Some(s@),
            None => style_of(key@, v@) is None,
        },
{
    let entries = match v {
        JsonValue::Object(entries) => entries,
        _ => { return None },
    };
    let name = match req_text_field(entries, "name") {
        Ok(s) => s,
        Err(_) => { return None },
    };
    let style_type = match req_text_field(entries, "styleType") {
        Ok(s) => s,
        Err(_) => { return None },
    };
    match req_text_field(entries, "key") {
        Ok(_) => (),
        Err(_) => { return None },
    };
    let description = match opt_text_field(entries, "description") {
        Ok(o) => o,
        Err(_) => { return None },
    };
    let node_id = match opt_text_field(entries, "nodeId") {
        Ok(o) => o,
        Err(_) => { return None },
    };
    let skip: Vec<&str> = vec!["key", "name", "description", "styleType", "nodeId"];
    let properties = collect_extras(entries, &skip);
    proof {
        assert(strslices_view(skip@) =~= style_skip());
    }
    Some(FigmaStyle { key: key.clone(), name, description, style_type, node_id, properties })
}

/// All elements as nodes, or nothing if any element fails to parse.
pub open spec fn nodes_of(items: Seq<JsonView>) -> Option<Seq<NodeView>>
    decreases items,
{
    if items.len() == 0 {
        Some(Seq::empty())
    } else {
        match (nodes_of(items.drop_last()), node_of(items.last())) {
            (Some(s), Some(n)) => Some(s.push(n)),
            _ => None,
        }
    }
}

/// The `children` field of a node or document: absent means no
/// children, an array means every element must parse as a node, and any
/// other shape fails the decode.
pub open spec fn children_field(entries: Seq<(Seq<char>, JsonView)>) -> Option<Seq<NodeView>>
    decreases entries,
{
    if entries.len() == 0 {
        Some(Seq::empty())
    } else if entries[0].0 == "children"@ {
        match entries[0].1 {
            JsonView::Array(items) => nodes_of(items),
            _ => None,
        }
    } else {
        children_field(entries.drop_first())
    }
}

/// A node parses when its `id`, `name` and `type` fields are
/// tolerant-optional strings and every child parses in turn.
pub open spec fn node_of(v: JsonView) -> Option<NodeView>
    decreases v,
{
    match v {
        JsonView::Object(entries) => {
            if opt_text(entries, "id"@) is Some && opt_text(entries, "name"@) is Some && opt_text(
                entries,
                "type"@,
            ) is Some && children_field(entries) is Some {
                Some(
                    NodeView {
                        id: opt_text(entries, "id"@).unwrap(),
                        name: opt_text(entries, "name"@).unwrap(),
                        node_type: opt_text(entries, "type"@).unwrap(),
                        children: children_field(entries).unwrap(),
                        properties: extras(entries, node_skip()),
                    },
                )
            } else {
                None
            }
        },
        _ => None,
    }
}

/// The named fields of a node.
pub open spec fn node_skip() -> Seq<Seq<char>> {
    seq!["id"@, "name"@, "type"@, "children"@]
}

/// [`children_field`] reads the first `children` entry, exactly as
/// [`lookup_entry`] finds it.
pub proof fn lemma_children_field(entries: Seq<(Seq<char>, JsonView)>)
    ensures
        children_field(entries) == match lookup_entry(entries, "children"@) {
            None => Some(Seq::<NodeView>::empty()),
            Some(JsonView::Array(items)) => nodes_of(items),
            Some(_) => None::<Seq<NodeView>>,
        },
    decreases entries.len(),
{
    if entries.len() > 0 && entries[0].0 != "children"@ {
        lemma_children_field(entries.drop_first());
    }
}

/// If one element fails to parse as a node, the whole array fails.
proof fn lemma_nodes_of_fail(items: Seq<JsonView>, i: int)
    requires
        0 <= i < items.len(),
        node_of(items[i]) is None,
    ensures
        nodes_of(items) is None,
    decreases items.len(),
{
    if i < items.len() - 1 {
        lemma_nodes_of_fail(items.drop_last(), i);
    }
}

/// Parse one node, as [`node_of`] specifies.
#[verifier::loop_isolation(false)]
pub fn parse_node(v: &JsonValue) -> (r: Option<FigmaNode>)
    ensures
        match r {
            Some(n) => node_of(v@) == Some(n@),
            None => node_of(v@) is None,
        },
    decreases *v,
{
    let entries = match v {
        JsonValue::Object(entries) => entries,
        _ => { return None },
    };
    let ghost ev = entries_view(entries@);
    let id = match opt_text_field(entries, "id") {
        Ok(o) => o,
        Err(_) => { return None },
    };
    let name = match opt_text_field(entries, "name") {
        Ok(o) => o,
        Err(_) => { return None },
    };
    let node_type = match opt_text_field(entries, "type") {
        Ok(o) => o,
        Err(_) => { return None },
    };
    proof {
        lemma_children_field(ev);
    }
    let mut kids: Vec<FigmaNode> = Vec::new();
    match find_key(entries, "children") {
        None => {
            proof {
                assert(node_views(kids@) =~= Seq::<NodeView>::empty());
            }
        },
        Some(ci) => {
            match &entries[ci].1 {
                JsonValue::Array(items) => {
                    proof {
                        broadcast use lemma_views_of;

                    }
                    let ghost iv = views_of(items@);
                    proof {
                        assert(iv.take(0) =~= Seq::<JsonView>::empty());
                        assert(node_views(kids@) =~= Seq::<NodeView>::empty());
                    }
                    let mut i: usize = 0;
                    while i < items.len()
                        invariant
                            i <= items.len(),
                            nodes_of(iv.take(i as int)) == Some(node_views(kids@)),
                        decreases items.len() - i,
                    {
                        proof {
                            assert(iv.take(i as int + 1).drop_last() =~= iv.take(i as int));
                            assert(iv.take(i as int + 1).last() == iv[i as int]);
                            assert(decreases_to!(entries@[ci as int] => entries@[ci as int].1));
                            assert(decreases_to!(entries@ => entries@[ci as int]));
                            assert(decreases_to!(*entries => entries@));
                            assert(decreases_to!(items@ => items@[i as int]));
                            assert(decreases_to!(*items => items@));
                        }
                        let ghost before = node_views(kids@);
                        match parse_node(&items[i]) {
                            Some(n) => {
                                kids.push(n);
                                proof {
                                    broadcast use lemma_node_views;

                                    assert(node_views(kids@) =~= before.push(n@));
                                }
                            },
                            None => {
                                proof {
                                    lemma_nodes_of_fail(iv, i as int);
                                }
                                return None;
                            },
                        }
                        i = i + 1;
                    }
                    proof {
                        assert(iv.take(items@.len() as int) =~= iv);
                    }
                },
                _ => { return None },
            }
        },
    }
    let skip: Vec<&str> = vec!["id", "name", "type", "children"];
    let properties = collect_extras(entries, &skip);
    proof {
        assert(strslices_view(skip@) =~= node_skip());
    }
    Some(FigmaNode { id, name, node_type, children: kids, properties })
}

/// A document parses when its `id`, `name` and `type_field` fields are
/// tolerant-optional strings and every child parses as a node.
pub open spec fn document_of(v: JsonView) -> Option<DocumentView> {
    match v {
        JsonView::Object(entries) => {
            if opt_text(entries, "id"@) is Some && opt_text(entries, "name"@) is Some && opt_text(
                entries,
                "type_field"@,
            ) is Some && children_field(entries) is Some {
                Some(
                    DocumentView {
                        id: opt_text(entries, "id"@).unwrap(),
                        name: opt_text(entries, "name"@).unwrap(),
                        type_field: opt_text(entries, "type_field"@).unwrap(),
                        children: children_field(entries).unwrap(),
                        properties: extras(entries, document_skip()),
                    },
                )
            } else {
                None
            }
        },
        _ => None,
    }
}

/// The named fields of a document.
pub open spec fn document_skip() -> Seq<Seq<char>> {
    seq!["id"@, "name"@, "type_field"@, "children"@]
}

/// Parse the document subtree, as [`document_of`] specifies.
#[verifier::loop_isolation(false)]
pub fn parse_document(v: &JsonValue) -> (r: Option<FigmaDocument>)
    ensures
        match r {
            Some(d) => document_of(v@) == Some(d@),
            None => document_of(v@) is None,
        },
{
    let entries = match v {
        JsonValue::Object(entries) => entries,
        _ => { return None },
    };
    let ghost ev = entries_view(entries@);
    let id = match opt_text_field(entries, "id") {
        Ok(o) => o,
        Err(_) => { return None },
    };
    let name = match opt_text_field(entries, "name") {
        Ok(o) => o,
        Err(_) => { return None },
    };
    let type_field = match opt_text_field(entries, "type_field") {
        Ok(o) => o,
        Err(_) => { return None },
    };
    proof {
        lemma_children_field(ev);
    }
    let mut kids: Vec<FigmaNode> = Vec::new();
    match find_key(entries, "children") {
        None => {
            proof {
                assert(node_views(kids@) =~= Seq::<NodeView>::empty());
            }
        },
        Some(ci) => {
            match &entries[ci].1 {
                JsonValue::Array(items) => {
                    proof {
                        broadcast use lemma_views_of;

                    }
                    let ghost iv = views_of(items@);
                    proof {
                        assert(iv.take(0) =~= Seq::<JsonView>::empty());
                        assert(node_views(kids@) =~= Seq::<NodeView>::empty());
                    }
                    let mut i: usize = 0;
                    while i < items.len()
                        invariant
                            i <= items.len(),
                            iv == views_of(items@),
                            iv.len() == items@.len(),
                            nodes_of(iv.take(i as int)) == Some(node_views(kids@)),
                        decreases items.len() - i,
                    {
                        proof {
                            broadcast use lemma_views_of;

                            assert(iv.take(i as int + 1).drop_last() =~= iv.take(i as int));
                            assert(iv.take(i as int + 1).last() == iv[i as int]);
                        }
                        let ghost before = node_views(kids@);
                        match parse_node(&items[i]) {
                            Some(n) => {
                                kids.push(n);
                                proof {
                                    broadcast use lemma_node_views;

                                    assert(node_views(kids@) =~= before.push(n@));
                                }
                            },
                            None => {
                                proof {
                                    lemma_nodes_of_fail(iv, i as int);
                                }
                                return None;
                            },
                        }
                        i = i + 1;
                    }
                    proof {
                        assert(iv.take(items@.len() as int) =~= iv);
                    }
                },
                _ => { return None },
            }
        },
    }
    let skip: Vec<&str> = vec!["id", "name", "type_field", "children"];
    let properties = collect_extras(entries, &skip);
    proof {
        assert(strslices_view(skip@) =~= document_skip());
    }
    Some(FigmaDocument { id, name, type_field, children: kids, properties })
}

/// The components extracted from a components map: every entry that
/// parses, in entry order, each keyed by its mapping key.
pub open spec fn components_of(entries: Seq<(Seq<char>, JsonView)>) -> Seq<ComponentView>
    decreases entries.len(),
{
    if entries.len() == 0 {
        Seq::empty()
    } else {
        let rest = components_of(entries.drop_last());
        match component_of(entries.last().0, entries.last().1) {
            Some(c) => rest.push(c),
            None => rest,
        }
    }
}

/// The component sets extracted from a map, entries that parse only.
pub open spec fn component_sets_of(entries: Seq<(Seq<char>, JsonView)>) -> Seq<ComponentSetView>
    decreases entries.len(),
{
    if entries.len() == 0 {
        Seq::empty()
    } else {
        let rest = component_sets_of(entries.drop_last());
        match component_set_of(entries.last().0, entries.last().1) {
            Some(c) => rest.push(c),
            None => rest,
        }
    }
}

/// The styles extracted from a map, entries that parse only, each keyed
/// by its mapping key.
pub open spec fn styles_of(entries: Seq<(Seq<char>, JsonView)>) -> Seq<(Seq<char>, StyleView)>
    decreases entries.len(),
{
    if entries.len() == 0 {
        Seq::empty()
    } else {
        let rest = styles_of(entries.drop_last());
        match style_of(entries.last().0, entries.last().1) {
            Some(s) => rest.push((entries.last().0, s)),
            None => rest,
        }
    }
}

/// What extraction yields on a raw payload: the document subtree if it
/// is a well-formed object, and the entries of each map that fit their
/// target shape, everything else dropped silently.
pub open spec fn extract_data(raw: JsonView) -> DataView {
    DataView {
        document: match spec_field(raw, "document"@) {
            Some(d) => document_of(d),
            None => None,
        },
        components: match spec_field(raw, "components"@) {
            Some(JsonView::Object(entries)) => components_of(entries),
            _ => Seq::empty(),
        },
        component_sets: match spec_field(raw, "componentSets"@) {
            Some(JsonView::Object(entries)) => component_sets_of(entries),
            _ => Seq::empty(),
        },
        styles: match spec_field(raw, "styles"@) {
            Some(JsonView::Object(entries)) => styles_of(entries),
            _ => Seq::empty(),
        },
    }
}

/// Parse every entry of a components map that fits, in entry order.
pub fn parse_components(entries: &Vec<(String, JsonValue)>) -> (r: Vec<FigmaComponent>)
    ensures
        components_view(r@) == components_of(entries_view(entries@)),
{
    proof {
        broadcast use lemma_entries_view;

    }
    let ghost all = entries_view(entries@);
    let mut out: Vec<FigmaComponent> = Vec::new();
    proof {
        assert(all.take(0) =~= Seq::<(Seq<char>, JsonView)>::empty());
        assert(components_view(out@) =~= Seq::<ComponentView>::empty());
    }
    let mut i: usize = 0;
    while i < entries.len()
        invariant
            i <= entries.len(),
            all == entries_view(entries@),
            all.len() == entries@.len(),
            components_view(out@) == components_of(all.take(i as int)),
        decreases entries.len() - i,
    {
        proof {
            broadcast use lemma_entries_view;

            assert(all.take(i as int + 1).drop_last() =~= all.take(i as int));
            assert(all.take(i as int + 1).last() == all[i as int]);
        }
        let ghost before = components_view(out@);
        match parse_component(&entries[i].0, &entries[i].1) {
            Some(c) => {
                out.push(c);
                proof {
                    assert(components_view(out@) =~= before.push(c@));
                }
            },
            None => (),
        }
        i = i + 1;
    }
    proof {
        assert(all.take(entries@.len() as int) =~= all);
    }
    out
}

/// Parse every entry of a component-sets map that fits, in entry order.
pub fn parse_component_sets(entries: &Vec<(String, JsonValue)>) -> (r: Vec<FigmaComponentSet>)
    ensures
        component_sets_view(r@) == component_sets_of(entries_view(entries@)),
{
    proof {
        broadcast use lemma_entries_view;

    }
    let ghost all = entries_view(entries@);
    let mut out: Vec<FigmaComponentSet> = Vec::new();
    proof {
        assert(all.take(0) =~= Seq::<(Seq<char>, JsonView)>::empty());
        assert(component_sets_view(out@) =~= Seq::<ComponentSetView>::empty());
    }
    let mut i: usize = 0;
    while i < entries.len()
        invariant
            i <= entries.len(),
            all == entries_view(entries@),
            all.len() == entries@.len(),
            component_sets_view(out@) == component_sets_of(all.take(i as int)),
        decreases entries.len() - i,
    {
        proof {
            broadcast use lemma_entries_view;

            assert(all.take(i as int + 1).drop_last() =~= all.take(i as int));
            assert(all.take(i as int + 1).last() == all[i as int]);
        }
        let ghost before = component_sets_view(out@);
        match parse_component_set(&entries[i].0, &entries[i].1) {
            Some(c) => {
                out.push(c);
                proof {
                    assert(component_sets_view(out@) =~= before.push(c@));
                }
            },
            None => (),
        }
        i = i + 1;
    }
    proof {
        assert(all.take(entries@.len() as int) =~= all);
    }
    out
}

/// Parse every entry of a styles map that fits, in entry order, each
/// keyed by its mapping key.
pub fn parse_styles(entries: &Vec<(String, JsonValue)>) -> (r: Vec<(String, FigmaStyle)>)
    ensures
        styles_view(r@) == styles_of(entries_view(entries@)),
{
    proof {
        broadcast use lemma_entries_view;

    }
    let ghost all = entries_view(entries@);
    let mut out: Vec<(String, FigmaStyle)> = Vec::new();
    proof {
        assert(all.take(0) =~= Seq::<(Seq<char>, JsonView)>::empty());
        assert(styles_view(out@) =~= Seq::<(Seq<char>, StyleView)>::empty());
    }
    let mut i: usize = 0;
    while i < entries.len()
        invariant
            i <= entries.len(),
            all == entries_view(entries@),
            all.len() == entries@.len(),
            styles_view(out@) == styles_of(all.take(i as int)),
        decreases entries.len() - i,
    {
        proof {
            broadcast use lemma_entries_view;

            assert(all.take(i as int + 1).drop_last() =~= all.take(i as int));
            assert(all.take(i as int + 1).last() == all[i as int]);
        }
        let ghost before = styles_view(out@);
        match parse_style(&entries[i].0, &entries[i].1) {
            Some(s) => {
                let key = entries[i].0.clone();
                out.push((key, s));
                proof {
                    assert(styles_view(out@) =~= before.push((all[i as int].0, s@)));
                }
            },
            None => (),
        }
        i = i + 1;
    }
    proof {
        assert(all.take(entries@.len() as int) =~= all);
    }
    out
}

/// Extract structured data from a raw upstream payload, as
/// [`extract_data`] specifies. Extraction is total: malformed pieces
/// are dropped or skipped, never reported.
pub fn extract_figma_data(raw: &JsonValue) -> (r: FigmaData)
    ensures
        r@ == extract_data(raw@),
{
    let document = match raw.field("document") {
        Some(d) => parse_document(d),
        None => None,
    };
    let components = match raw.field("components") {
        Some(JsonValue::Object(entries)) => parse_components(entries),
        _ => Vec::new(),
    };
    let component_sets = match raw.field("componentSets") {
        Some(JsonValue::Object(entries)) => parse_component_sets(entries),
        _ => Vec::new(),
    };
    let styles = match raw.field("styles") {
        Some(JsonValue::Object(entries)) => parse_styles(entries),
        _ => Vec::new(),
    };
    proof {
        assert(components_view(Seq::<FigmaComponent>::empty()) =~= Seq::<ComponentView>::empty());
        assert(component_sets_view(Seq::<FigmaComponentSet>::empty()) =~= Seq::<
            ComponentSetView,
        >::empty());
        assert(styles_view(Seq::<(String, FigmaStyle)>::empty()) =~= Seq::<
            (Seq<char>, StyleView),
        >::empty());
    }
    FigmaData { document, components, component_sets, styles }
}

} // verus!
