//! The records the service works with: one cached snapshot of an
//! upstream design file, the structured data extracted from its payload,
//! and the lookup query callers hand in.
//!
//! Each executable type has a spec-level view; contracts throughout the
//! crate speak of those views. Timestamps are carried as integral
//! milliseconds. The styles mapping is carried as a keyed list in entry
//! order; its keys are unique whenever the JSON object it was extracted
//! from had unique keys.

use vstd::prelude::*;
use crate::json::{JsonValue, JsonView, entries_view, clone_entries};

verus! {

/// Spec view of a sequence of strings.
pub open spec fn strs_view(items: Seq<String>) -> Seq<Seq<char>> {
    Seq::new(items.len(), |i: int| items[i]@)
}

/// Spec view of an optional string.
pub open spec fn opt_view(o: Option<String>) -> Option<Seq<char>> {
    match o {
        Some(s) => Some(s@),
        None => None,
    }
}

/// Clone an optional string, contents preserved.
pub fn clone_opt_string(o: &Option<String>) -> (r: Option<String>)
    ensures
        opt_view(r) == opt_view(*o),
{
    match o {
        Some(s) => Some(s.clone()),
        None => None,
    }
}

/// Clone a vector of strings, contents preserved.
pub fn clone_strings(items: &Vec<String>) -> (r: Vec<String>)
    ensures
        strs_view(r@) == strs_view(items@),
{
    let mut out: Vec<String> = Vec::new();
    let mut i: usize = 0;
    while i < items.len()
        invariant
            i <= items.len(),
            out@.len() == i as nat,
            forall|j: int| 0 <= j < i ==> out@[j]@ == items@[j]@,
        decreases items.len() - i,
    {
        out.push(items[i].clone());
        i = i + 1;
    }
    proof {
        assert(strs_view(out@) =~= strs_view(items@));
    }
    out
}

/// A component definition from the upstream component library.
pub struct FigmaComponent {
    pub key: String,
    pub name: String,
    pub description: Option<String>,
    pub component_set_id: Option<String>,
    pub node_id: String,
    /// Fields of the raw definition not captured above, kept verbatim.
    pub properties: Vec<(String, JsonValue)>,
}

/// Spec view of [`FigmaComponent`].
pub struct ComponentView {
    pub key: Seq<char>,
    pub name: Seq<char>,
    pub description: Option<Seq<char>>,
    pub component_set_id: Option<Seq<char>>,
    pub node_id: Seq<char>,
    pub properties: Seq<(Seq<char>, JsonView)>,
}

impl View for FigmaComponent {
    type V = ComponentView;

    open spec fn view(&self) -> ComponentView {
        ComponentView {
            key: self.key@,
            name: self.name@,
            description: opt_view(self.description),
            component_set_id: opt_view(self.component_set_id),
            node_id: self.node_id@,
            properties: entries_view(self.properties@),
        }
    }
}

impl Clone for FigmaComponent {
    fn clone(&self) -> (res: Self)
        ensures
            res@ == self@,
    {
        FigmaComponent {
            key: self.key.clone(),
            name: self.name.clone(),
            description: clone_opt_string(&self.description),
            component_set_id: clone_opt_string(&self.component_set_id),
            node_id: self.node_id.clone(),
            properties: clone_entries(&self.properties),
        }
    }
}

/// A component set (a group of component variants).
pub struct FigmaComponentSet {
    pub key: String,
    pub name: String,
    pub description: Option<String>,
    pub node_id: String,
    pub component_ids: Vec<String>,
    /// Fields of the raw definition not captured above, kept verbatim.
    pub properties: Vec<(String, JsonValue)>,
}

/// Spec view of [`FigmaComponentSet`].
pub struct ComponentSetView {
    pub key: Seq<char>,
    pub name: Seq<char>,
    pub description: Option<Seq<char>>,
    pub node_id: Seq<char>,
    pub component_ids: Seq<Seq<char>>,
    pub properties: Seq<(Seq<char>, JsonView)>,
}

impl View for FigmaComponentSet {
    type V = ComponentSetView;

    open spec fn view(&self) -> ComponentSetView {
        ComponentSetView {
            key: self.key@,
            name: self.name@,
            description: opt_view(self.description),
            node_id: self.node_id@,
            component_ids: strs_view(self.component_ids@),
            properties: entries_view(self.properties@),
        }
    }
}

impl Clone for FigmaComponentSet {
    fn clone(&self) -> (res: Self)
        ensures
            res@ == self@,
    {
        FigmaComponentSet {
            key: self.key.clone(),
            name: self.name.clone(),
            description: clone_opt_string(&self.description),
            node_id: self.node_id.clone(),
            component_ids: clone_strings(&self.component_ids),
            properties: clone_entries(&self.properties),
        }
    }
}

/// A named style (color, text, effect, ...).
pub struct FigmaStyle {
    pub key: String,
    pub name: String,
    pub description: Option<String>,
    pub style_type: String,
    pub node_id: Option<String>,
    /// Fields of the raw definition not captured above, kept verbatim.
    pub properties: Vec<(String, JsonValue)>,
}

/// Spec view of [`FigmaStyle`].
pub struct StyleView {
    pub key: Seq<char>,
    pub name: Seq<char>,
    pub description: Option<Seq<char>>,
    pub style_type: Seq<char>,
    pub node_id: Option<Seq<char>>,
    pub properties: Seq<(Seq<char>, JsonView)>,
}

impl View for FigmaStyle {
    type V = StyleView;

    open spec fn view(&self) -> StyleView {
        StyleView {
            key: self.key@,
            name: self.name@,
            description: opt_view(self.description),
            style_type: self.style_type@,
            node_id: opt_view(self.node_id),
            properties: entries_view(self.properties@),
        }
    }
}

impl Clone for FigmaStyle {
    fn clone(&self) -> (res: Self)
        ensures
            res@ == self@,
    {
        FigmaStyle {
            key: self.key.clone(),
            name: self.name.clone(),
            description: clone_opt_string(&self.description),
            style_type: self.style_type.clone(),
            node_id: clone_opt_string(&self.node_id),
            properties: clone_entries(&self.properties),
        }
    }
}

/// A node of the document tree.
pub struct FigmaNode {
    pub id: Option<String>,
    pub name: Option<String>,
    pub node_type: Option<String>,
    pub children: Vec<FigmaNode>,
    /// Fields of the raw node not captured above, kept verbatim.
    pub properties: Vec<(String, JsonValue)>,
}

/// Spec view of [`FigmaNode`].
pub struct NodeView {
    pub id: Option<Seq<char>>,
    pub name: Option<Seq<char>>,
    pub node_type: Option<Seq<char>>,
    pub children: Seq<NodeView>,
    pub properties: Seq<(Seq<char>, JsonView)>,
}

/// The views of a sequence of nodes, element by element.
pub open spec fn node_views(items: Seq<FigmaNode>) -> Seq<NodeView>
    decreases items,
{
    if items.len() == 0 {
        Seq::empty()
    } else {
        node_views(items.drop_last()).push(node_view(items.last()))
    }
}

/// The view of a [`FigmaNode`].
pub open spec fn node_view(n: FigmaNode) -> NodeView
    decreases n,
{
    NodeView {
        id: opt_view(n.id),
        name: opt_view(n.name),
        node_type: opt_view(n.node_type),
        children: node_views(n.children@),
        properties: entries_view(n.properties@),
    }
}

/// [`node_views`] maps the sequence element by element.
pub broadcast proof fn lemma_node_views(items: Seq<FigmaNode>)
    ensures
        (#[trigger] node_views(items)).len() == items.len(),
        forall|i: int| 0 <= i < items.len() ==> node_views(items)[i] == node_view(items[i]),
    decreases items.len(),
{
    if items.len() > 0 {
        lemma_node_views(items.drop_last());
    }
}

impl View for FigmaNode {
    type V = NodeView;

    open spec fn view(&self) -> NodeView {
        node_view(*self)
    }
}

impl Clone for FigmaNode {
    #[verifier::loop_isolation(false)]
    fn clone(&self) -> (res: Self)
        ensures
            res@ == self@,
        decreases *self,
    {
        let mut kids: Vec<FigmaNode> = Vec::new();
        let mut i: usize = 0;
        while i < self.children.len()
            invariant
                i <= self.children.len(),
                kids@.len() == i as nat,
                forall|j: int| 0 <= j < i ==> kids@[j]@ == self.children@[j]@,
            decreases self.children.len() - i,
        {
            proof {
                assert(decreases_to!(self.children@ => self.children@[i as int]));
                assert(decreases_to!(self.children => self.children@));
            }
            kids.push(self.children[i].clone());
            i = i + 1;
        }
        proof {
            broadcast use lemma_node_views;

            assert(node_views(kids@) =~= node_views(self.children@));
        }
        FigmaNode {
            id: clone_opt_string(&self.id),
            name: clone_opt_string(&self.name),
            node_type: clone_opt_string(&self.node_type),
            children: kids,
            properties: clone_entries(&self.properties),
        }
    }
}

/// The document tree of a design file.
pub struct FigmaDocument {
    pub id: Option<String>,
    pub name: Option<String>,
    pub type_field: Option<String>,
    pub children: Vec<FigmaNode>,
    /// Fields of the raw document not captured above, kept verbatim.
    pub properties: Vec<(String, JsonValue)>,
}

/// Spec view of [`FigmaDocument`].
pub struct DocumentView {
    pub id: Option<Seq<char>>,
    pub name: Option<Seq<char>>,
    pub type_field: Option<Seq<char>>,
    pub children: Seq<NodeView>,
    pub properties: Seq<(Seq<char>, JsonView)>,
}

impl View for FigmaDocument {
    type V = DocumentView;

    open spec fn view(&self) -> DocumentView {
        DocumentView {
            id: opt_view(self.id),
            name: opt_view(self.name),
            type_field: opt_view(self.type_field),
            children: node_views(self.children@),
            properties: entries_view(self.properties@),
        }
    }
}

impl Clone for FigmaDocument {
    fn clone(&self) -> (res: Self)
        ensures
            res@ == self@,
    {
        let mut kids: Vec<FigmaNode> = Vec::new();
        let mut i: usize = 0;
        while i < self.children.len()
            invariant
                i <= self.children.len(),
                kids@.len() == i as nat,
                forall|j: int| 0 <= j < i ==> kids@[j]@ == self.children@[j]@,
            decreases self.children.len() - i,
        {
            kids.push(self.children[i].clone());
            i = i + 1;
        }
        proof {
            broadcast use lemma_node_views;

            assert(node_views(kids@) =~= node_views(self.children@));
        }
        FigmaDocument {
            id: clone_opt_string(&self.id),
            name: clone_opt_string(&self.name),
            type_field: clone_opt_string(&self.type_field),
            children: kids,
            properties: clone_entries(&self.properties),
        }
    }
}

/// Structured data extracted from an upstream payload.
pub struct FigmaData {
    pub document: Option<FigmaDocument>,
    pub components: Vec<FigmaComponent>,
    pub component_sets: Vec<FigmaComponentSet>,
    /// Styles keyed by their mapping key, in entry order.
    pub styles: Vec<(String, FigmaStyle)>,
}

/// Spec view of [`FigmaData`].
pub struct DataView {
    pub document: Option<DocumentView>,
    pub components: Seq<ComponentView>,
    pub component_sets: Seq<ComponentSetView>,
    pub styles: Seq<(Seq<char>, StyleView)>,
}

/// Spec view of a sequence of components.
pub open spec fn components_view(items: Seq<FigmaComponent>) -> Seq<ComponentView> {
    Seq::new(items.len(), |i: int| items[i]@)
}

/// Spec view of a sequence of component sets.
pub open spec fn component_sets_view(items: Seq<FigmaComponentSet>) -> Seq<ComponentSetView> {
    Seq::new(items.len(), |i: int| items[i]@)
}

/// Spec view of the keyed style list.
pub open spec fn styles_view(items: Seq<(String, FigmaStyle)>) -> Seq<(Seq<char>, StyleView)> {
    Seq::new(items.len(), |i: int| (items[i].0@, items[i].1@))
}

impl View for FigmaData {
    type V = DataView;

    open spec fn view(&self) -> DataView {
        DataView {
            document: match self.document {
                Some(d) => Some(d@),
                None => None,
            },
            components: components_view(self.components@),
            component_sets: component_sets_view(self.component_sets@),
            styles: styles_view(self.styles@),
        }
    }
}

impl Clone for FigmaData {
    fn clone(&self) -> (res: Self)
        ensures
            res@ == self@,
    {
        let document = match &self.document {
            Some(d) => Some(d.clone()),
            None => None,
        };
        let mut components: Vec<FigmaComponent> = Vec::new();
        let mut i: usize = 0;
        while i < self.components.len()
            invariant
                i <= self.components.len(),
                components@.len() == i as nat,
                forall|j: int| 0 <= j < i ==> components@[j]@ == self.components@[j]@,
            decreases self.components.len() - i,
        {
            components.push(self.components[i].clone());
            i = i + 1;
        }
        let mut component_sets: Vec<FigmaComponentSet> = Vec::new();
        let mut k: usize = 0;
        while k < self.component_sets.len()
            invariant
                k <= self.component_sets.len(),
                component_sets@.len() == k as nat,
                forall|j: int| 0 <= j < k ==> component_sets@[j]@ == self.component_sets@[j]@,
            decreases self.component_sets.len() - k,
        {
            component_sets.push(self.component_sets[k].clone());
            k = k + 1;
        }
        let mut styles: Vec<(String, FigmaStyle)> = Vec::new();
        let mut m: usize = 0;
        while m < self.styles.len()
            invariant
                m <= self.styles.len(),
                styles@.len() == m as nat,
                forall|j: int| 0 <= j < m ==> styles@[j].0@ == self.styles@[j].0@ && styles@[j].1@
                    == self.styles@[j].1@,
            decreases self.styles.len() - m,
        {
            let key = self.styles[m].0.clone();
            let style = self.styles[m].1.clone();
            styles.push((key, style));
            m = m + 1;
        }
        proof {
            assert(components_view(components@) =~= components_view(self.components@));
            assert(component_sets_view(component_sets@) =~= component_sets_view(
                self.component_sets@,
            ));
            assert(styles_view(styles@) =~= styles_view(self.styles@));
        }
        FigmaData { document, components, component_sets, styles }
    }
}

impl FigmaData {
    /// Structured data with nothing extracted yet.
    pub fn empty() -> (r: FigmaData)
        ensures
            r@.document is None,
            r@.components.len() == 0,
            r@.component_sets.len() == 0,
            r@.styles.len() == 0,
    {
        proof {
            assert(components_view(Seq::<FigmaComponent>::empty()).len() == 0);
            assert(component_sets_view(Seq::<FigmaComponentSet>::empty()).len() == 0);
            assert(styles_view(Seq::<(String, FigmaStyle)>::empty()).len() == 0);
        }
        FigmaData { document: None, components: Vec::new(), component_sets: Vec::new(), styles: Vec::new() }
    }
}

/// One cached snapshot of an upstream design file.
pub struct FigmaFile {
    /// System-assigned identifier; absent until first persisted.
    pub file_id: Option<String>,
    /// The upstream resource identifier; the natural cache key.
    pub file_key: String,
    pub name: Option<String>,
    pub last_modified: Option<String>,
    pub thumbnail_url: Option<String>,
    pub version: Option<String>,
    /// Set once on first write, milliseconds.
    pub created_at: i64,
    /// Set on every write, milliseconds.
    pub updated_at: i64,
    pub data: FigmaData,
    /// The full upstream payload, retained for fields the structured
    /// model does not capture.
    pub raw_data: Option<JsonValue>,
}

/// Spec view of [`FigmaFile`].
pub struct FileView {
    pub file_id: Option<Seq<char>>,
    pub file_key: Seq<char>,
    pub name: Option<Seq<char>>,
    pub last_modified: Option<Seq<char>>,
    pub thumbnail_url: Option<Seq<char>>,
    pub version: Option<Seq<char>>,
    pub created_at: int,
    pub updated_at: int,
    pub data: DataView,
    pub raw_data: Option<JsonView>,
}

impl FileView {
    /// A record is well formed when it was never updated before it was
    /// created.
    pub open spec fn wf(&self) -> bool {
        self.updated_at >= self.created_at
    }
}

impl View for FigmaFile {
    type V = FileView;

    open spec fn view(&self) -> FileView {
        FileView {
            file_id: opt_view(self.file_id),
            file_key: self.file_key@,
            name: opt_view(self.name),
            last_modified: opt_view(self.last_modified),
            thumbnail_url: opt_view(self.thumbnail_url),
            version: opt_view(self.version),
            created_at: self.created_at as int,
            updated_at: self.updated_at as int,
            data: self.data@,
            raw_data: match self.raw_data {
                Some(v) => Some(v@),
                None => None,
            },
        }
    }
}

impl Clone for FigmaFile {
    fn clone(&self) -> (res: Self)
        ensures
            res@ == self@,
    {
        FigmaFile {
            file_id: clone_opt_string(&self.file_id),
            file_key: self.file_key.clone(),
            name: clone_opt_string(&self.name),
            last_modified: clone_opt_string(&self.last_modified),
            thumbnail_url: clone_opt_string(&self.thumbnail_url),
            version: clone_opt_string(&self.version),
            created_at: self.created_at,
            updated_at: self.updated_at,
            data: self.data.clone(),
            raw_data: match &self.raw_data {
                Some(v) => Some(v.clone()),
                None => None,
            },
        }
    }
}

/// A lookup request: the upstream file key plus optional filters.
pub struct FigmaFileQuery {
    pub file_key: String,
    pub version: Option<String>,
    pub ids: Option<String>,
    pub depth: Option<String>,
    pub geometry: Option<String>,
    pub plugin_data: Option<String>,
    pub branch_data: Option<String>,
}

/// Spec view of [`FigmaFileQuery`].
pub struct QueryView {
    pub file_key: Seq<char>,
    pub version: Option<Seq<char>>,
    pub ids: Option<Seq<char>>,
    pub depth: Option<Seq<char>>,
    pub geometry: Option<Seq<char>>,
    pub plugin_data: Option<Seq<char>>,
    pub branch_data: Option<Seq<char>>,
}

impl View for FigmaFileQuery {
    type V = QueryView;

    open spec fn view(&self) -> QueryView {
        QueryView {
            file_key: self.file_key@,
            version: opt_view(self.version),
            ids: opt_view(self.ids),
            depth: opt_view(self.depth),
            geometry: opt_view(self.geometry),
            plugin_data: opt_view(self.plugin_data),
            branch_data: opt_view(self.branch_data),
        }
    }
}

impl Clone for FigmaFileQuery {
    fn clone(&self) -> (res: Self)
        ensures
            res@ == self@,
    {
        FigmaFileQuery {
            file_key: self.file_key.clone(),
            version: clone_opt_string(&self.version),
            ids: clone_opt_string(&self.ids),
            depth: clone_opt_string(&self.depth),
            geometry: clone_opt_string(&self.geometry),
            plugin_data: clone_opt_string(&self.plugin_data),
            branch_data: clone_opt_string(&self.branch_data),
        }
    }
}

} // verus!
