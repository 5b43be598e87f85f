//! The NeXus structure of a file, and the plan of groups, attributes and writer
//! modules that it asks for.
use crate::error::NexusStructureError;
use crate::writer_module::WriterModuleKind;
use crate::writer_module_registry::WriterModuleFactories;
use vstd::prelude::*;

verus! {

/// The JSON value of an attribute in a NeXus structure. Only string values are
/// written to the file.
#[derive(Debug, Clone, PartialEq, Eq)]
pub enum AttributeValue {
    Text(String),
    Other,
}

/// The NeXus structure of a whole file.
#[derive(Debug, Default)]
pub struct NexusFileStructure {
    pub children: Vec<NexusStructureItem>,
    /// Attributes of the root group, each name at most once.
    pub attributes: Vec<(String, AttributeValue)>,
}

/// A group in a NeXus structure.
#[derive(Debug)]
pub struct NexusGroup {
    pub name: String,
    pub children: Vec<NexusStructureItem>,
    /// Attributes of the group, each name at most once.
    pub attributes: Vec<(String, AttributeValue)>,
}

/// A writer module in a NeXus structure, with its configuration as JSON text.
#[derive(Debug, Clone, PartialEq, Eq)]
pub struct NexusWriterModule {
    pub module: String,
    pub config: String,
}

/// A child in a NeXus structure.
#[derive(Debug)]
pub enum NexusStructureItem {
    Group(NexusGroup),
    WriterModule(NexusWriterModule),
    /// Anything else, as its JSON text.
    Invalid(String),
}

/// One step of building a file from its NeXus structure.
#[derive(Debug, Clone, PartialEq, Eq)]
pub enum StructureStep {
    /// Create group `name` in the group at `parent`.
    CreateGroup { parent: String, name: String },
    /// Write the ASCII string attribute `name` = `value` on the group at `location`.
    WriteAttribute { location: String, name: String, value: String },
    /// Create a writer module of kind `kind` writing to the group at `location`.
    PlaceWriter { location: String, module: NexusWriterModule, kind: WriterModuleKind },
    /// Write the standard attributes of the root group of a NeXus file.
    WriteRootDatasetAttributes,
}

pub enum StructureStepView {
    CreateGroup { parent: Seq<char>, name: Seq<char> },
    WriteAttribute { location: Seq<char>, name: Seq<char>, value: Seq<char> },
    PlaceWriter { location: Seq<char>, module: Seq<char>, config: Seq<char>, kind: WriterModuleKind },
    WriteRootDatasetAttributes,
}

impl View for StructureStep {
    type V = StructureStepView;

    open spec fn view(&self) -> StructureStepView {
        match self {
            StructureStep::CreateGroup { parent, name } => StructureStepView::CreateGroup { parent: parent@, name: name@ },
            StructureStep::WriteAttribute { location, name, value } => StructureStepView::WriteAttribute { location: location@, name: name@, value: value@ },
            StructureStep::PlaceWriter { location, module, kind } => StructureStepView::PlaceWriter { location: location@, module: module.module@, config: module.config@, kind: *kind },
            StructureStep::WriteRootDatasetAttributes => StructureStepView::WriteRootDatasetAttributes,
        }
    }
}

/// Why a NeXus structure cannot be built.
pub enum StructureFailure {
    UnknownChildType { invalid_json: Seq<char>, location: Seq<char> },
    UnknownWriterModule { name: Seq<char>, location: Seq<char> },
}

/// The plan for a NeXus structure: the steps to take, in order, and the failure after
/// them, if the structure cannot be built.
pub struct StructurePlan {
    pub steps: Vec<StructureStep>,
    pub failure: Option<NexusStructureError>,
}

pub open spec fn steps_view(s: Seq<StructureStep>) -> Seq<StructureStepView> {
    s.map_values(|st: StructureStep| st@)
}

/// Whether an error is the given failure.
pub open spec fn failure_matches(e: Option<NexusStructureError>, f: Option<StructureFailure>) -> bool {
    match (e, f) {
        (None, None) => true,
        (Some(NexusStructureError::UnknownChildType { invalid_json, location }), Some(StructureFailure::UnknownChildType { invalid_json: j, location: l })) =>
            invalid_json@ == j && location@ == l,
        (Some(NexusStructureError::UnknownWriterModule { name, location }), Some(StructureFailure::UnknownWriterModule { name: n, location: l })) =>
            name@ == n && location@ == l,
        _ => false,
    }
}

/// The location of the root group.
pub open spec fn root_location() -> Seq<char> {
    seq!['/']
}

/// The location of group `name` in the group at `parent`.
pub open spec fn child_location(parent: Seq<char>, name: Seq<char>) -> Seq<char> {
    if parent == root_location() {
        root_location() + name
    } else {
        parent + root_location() + name
    }
}

/// The attribute writes for `attributes` on the group at `location`: one for each
/// attribute whose value is a string, in order.
pub open spec fn attribute_steps(attributes: Seq<(String, AttributeValue)>, location: Seq<char>) -> Seq<StructureStepView>
    decreases attributes.len(),
{
    if attributes.len() == 0 {
        Seq::empty()
    } else {
        let prev = attribute_steps(attributes.drop_last(), location);
        match attributes.last().1 {
            AttributeValue::Text(v) => prev.push(StructureStepView::WriteAttribute { location, name: attributes.last().0@, value: v@ }),
            AttributeValue::Other => prev,
        }
    }
}

/// The plan for one child of the group at `parent`.
pub open spec fn item_plan(item: NexusStructureItem, parent: Seq<char>, registry: Map<Seq<char>, WriterModuleKind>) -> (Seq<StructureStepView>, Option<StructureFailure>)
    decreases item, 0int,
{
    match item {
        NexusStructureItem::Group(g) => {
            let location = child_location(parent, g.name@);
            let head = seq![StructureStepView::CreateGroup { parent, name: g.name@ }] + attribute_steps(g.attributes@, location);
            let children = items_plan(g.children@, location, registry);
            (head + children.0, children.1)
        },
        NexusStructureItem::WriterModule(m) => if registry.contains_key(m.module@) {
            (seq![StructureStepView::PlaceWriter { location: parent, module: m.module@, config: m.config@, kind: registry[m.module@] }], None)
        } else {
            (Seq::empty(), Some(StructureFailure::UnknownWriterModule { name: m.module@, location: parent }))
        },
        NexusStructureItem::Invalid(json) => (Seq::empty(), Some(StructureFailure::UnknownChildType { invalid_json: json@, location: parent })),
    }
}

/// The plan for the children `items` of the group at `parent`: the children in order,
/// up to and including the first that fails.
pub open spec fn items_plan(items: Seq<NexusStructureItem>, parent: Seq<char>, registry: Map<Seq<char>, WriterModuleKind>) -> (Seq<StructureStepView>, Option<StructureFailure>)
    decreases items, items.len(),
{
    if items.len() == 0 {
        (Seq::empty(), None)
    } else {
        let prev = items_plan(items.drop_last(), parent, registry);
        if prev.1 is Some {
            prev
        } else {
            let last = item_plan(items.last(), parent, registry);
            (prev.0 + last.0, last.1)
        }
    }
}

} // verus!

verus! {

/// The plan for a whole file: its children, then the string attributes of the root
/// group, then the standard root attributes; or the children up to the first failure.
pub open spec fn structure_plan(s: NexusFileStructure, registry: Map<Seq<char>, WriterModuleKind>) -> (Seq<StructureStepView>, Option<StructureFailure>) {
    let children = items_plan(s.children@, root_location(), registry);
    if children.1 is Some {
        children
    } else {
        (children.0 + attribute_steps(s.attributes@, root_location()) + seq![StructureStepView::WriteRootDatasetAttributes], None)
    }
}

fn root_location_text() -> (s: String)
    ensures
        s@ == root_location(),
{
    proof { reveal_strlit("/"); }
    let s = "/".to_owned();
    assert(s@ =~= root_location());
    s
}

fn child_location_text(parent: &String, name: &String) -> (s: String)
    ensures
        s@ == child_location(parent@, name@),
{
    let root = root_location_text();
    if *parent == root {
        root.concat(name.as_str())
    } else {
        parent.clone().concat(root.as_str()).concat(name.as_str())
    }
}

fn push_attribute_steps(attributes: &Vec<(String, AttributeValue)>, location: &String, steps: &mut Vec<StructureStep>)
    ensures
        steps_view(final(steps)@) == steps_view(old(steps)@) + attribute_steps(attributes@, location@),
{
    let mut i: usize = 0;
    while i < attributes.len()
        invariant
            i <= attributes@.len(),
            steps_view(steps@) == steps_view(old(steps)@) + attribute_steps(attributes@.subrange(0, i as int), location@),
        decreases attributes@.len() - i,
    {
        let ghost before = steps_view(steps@);
        proof {
            assert(attributes@.subrange(0, i + 1).drop_last() =~= attributes@.subrange(0, i as int));
        }
        let (name, value) = &attributes[i];
        match value {
            AttributeValue::Text(v) => {
                steps.push(StructureStep::WriteAttribute { location: location.clone(), name: name.clone(), value: v.clone() });
                proof {
                    assert(steps_view(steps@) =~= before.push(StructureStepView::WriteAttribute { location: location@, name: name@, value: v@ }));
                }
            },
            AttributeValue::Other => {},
        }
        i = i + 1;
    }
    proof {
        assert(attributes@.subrange(0, i as int) =~= attributes@);
    }
}

fn plan_item(item: &NexusStructureItem, parent: &String, registry: &WriterModuleFactories, steps: &mut Vec<StructureStep>) -> (r: Option<NexusStructureError>)
    ensures
        steps_view(final(steps)@) == steps_view(old(steps)@) + item_plan(*item, parent@, registry@).0,
        failure_matches(r, item_plan(*item, parent@, registry@).1),
    decreases item, 0int,
{
    match item {
        NexusStructureItem::Group(g) => {
            steps.push(StructureStep::CreateGroup { parent: parent.clone(), name: g.name.clone() });
            let location = child_location_text(parent, &g.name);
            push_attribute_steps(&g.attributes, &location, steps);
            let r = plan_items(&g.children, &location, registry, steps);
            proof {
                let plan = item_plan(*item, parent@, registry@);
                assert(steps_view(steps@) =~= steps_view(old(steps)@) + plan.0);
            }
            r
        },
        NexusStructureItem::WriterModule(m) => {
            match registry.get(m.module.as_str()) {
                Some(kind) => {
                    let ghost before = steps_view(steps@);
                    steps.push(StructureStep::PlaceWriter {
                        location: parent.clone(),
                        module: NexusWriterModule { module: m.module.clone(), config: m.config.clone() },
                        kind,
                    });
                    proof {
                        assert(steps_view(steps@) =~= steps_view(old(steps)@) + item_plan(*item, parent@, registry@).0);
                    }
                    None
                },
                None => {
                    proof {
                        assert(steps_view(steps@) =~= steps_view(old(steps)@) + item_plan(*item, parent@, registry@).0);
                    }
                    Some(NexusStructureError::UnknownWriterModule { name: m.module.clone(), location: parent.clone() })
                },
            }
        },
        NexusStructureItem::Invalid(json) => {
            proof {
                assert(steps_view(steps@) =~= steps_view(old(steps)@) + item_plan(*item, parent@, registry@).0);
            }
            Some(NexusStructureError::UnknownChildType { location: parent.clone(), invalid_json: json.clone() })
        },
    }
}

fn plan_items(items: &Vec<NexusStructureItem>, parent: &String, registry: &WriterModuleFactories, steps: &mut Vec<StructureStep>) -> (r: Option<NexusStructureError>)
    ensures
        steps_view(final(steps)@) == steps_view(old(steps)@) + items_plan(items@, parent@, registry@).0,
        failure_matches(r, items_plan(items@, parent@, registry@).1),
    decreases items@, 1int,
{
    let mut i: usize = 0;
    while i < items.len()
        invariant
            i <= items@.len(),
            steps_view(steps@) == steps_view(old(steps)@) + items_plan(items@.subrange(0, i as int), parent@, registry@).0,
            items_plan(items@.subrange(0, i as int), parent@, registry@).1 is None,
        decreases items@.len() - i,
    {
        let ghost before = steps_view(steps@);
        proof {
            assert(items@.subrange(0, i + 1).drop_last() =~= items@.subrange(0, i as int));
            assert(items@.subrange(0, i + 1).last() == items@[i as int]);
        }
        let r = plan_item(&items[i], parent, registry, steps);
        proof {
            let prev = items_plan(items@.subrange(0, i as int), parent@, registry@);
            let last = item_plan(items@[i as int], parent@, registry@);
            assert(items_plan(items@.subrange(0, i + 1), parent@, registry@) == (prev.0 + last.0, last.1));
            assert(steps_view(steps@) =~= steps_view(old(steps)@) + (prev.0 + last.0));
        }
        if r.is_some() {
            proof {
                assert(items_plan(items@, parent@, registry@) == items_plan(items@.subrange(0, i + 1), parent@, registry@)) by {
                    lemma_items_plan_stops(items@, (i + 1) as int, parent@, registry@);
                }
            }
            return r;
        }
        i = i + 1;
    }
    proof {
        assert(items@.subrange(0, i as int) =~= items@);
    }
    None
}

/// Once the plan for a prefix of the children fails, the plan for all of them is the same.
proof fn lemma_items_plan_stops(items: Seq<NexusStructureItem>, n: int, parent: Seq<char>, registry: Map<Seq<char>, WriterModuleKind>)
    requires
        0 <= n <= items.len(),
        items_plan(items.subrange(0, n), parent, registry).1 is Some,
    ensures
        items_plan(items, parent, registry) == items_plan(items.subrange(0, n), parent, registry),
    decreases items.len() - n,
{
    if n < items.len() {
        assert(items.subrange(0, n + 1).drop_last() =~= items.subrange(0, n));
        lemma_items_plan_stops(items, n + 1, parent, registry);
    } else {
        assert(items.subrange(0, n) =~= items);
    }
}

/// The plan for building a file with NeXus structure `structure`, whose writer modules
/// are looked up in `registry`.
pub fn plan_structure(structure: &NexusFileStructure, registry: &WriterModuleFactories) -> (p: StructurePlan)
    ensures
        steps_view(p.steps@) == structure_plan(*structure, registry@).0,
        failure_matches(p.failure, structure_plan(*structure, registry@).1),
{
    let mut steps: Vec<StructureStep> = Vec::new();
    let root = root_location_text();
    let failure = plan_items(&structure.children, &root, registry, &mut steps);
    if failure.is_some() {
        proof {
            assert(steps_view(steps@) =~= structure_plan(*structure, registry@).0);
        }
        return StructurePlan { steps, failure };
    }
    push_attribute_steps(&structure.attributes, &root, &mut steps);
    let ghost before = steps_view(steps@);
    steps.push(StructureStep::WriteRootDatasetAttributes);
    proof {
        assert(steps_view(steps@) =~= before.push(StructureStepView::WriteRootDatasetAttributes));
        assert(steps_view(steps@) =~= structure_plan(*structure, registry@).0);
    }
    StructurePlan { steps, failure: None }
}

} // verus!

verus! {

/// Whether every child in `item`, at any depth, is a group or a writer module that
/// `registry` knows.
pub open spec fn item_buildable(item: NexusStructureItem, registry: Map<Seq<char>, WriterModuleKind>) -> bool
    decreases item, 0int,
{
    match item {
        NexusStructureItem::Group(g) => items_buildable(g.children@, registry),
        NexusStructureItem::WriterModule(m) => registry.contains_key(m.module@),
        NexusStructureItem::Invalid(_) => false,
    }
}

/// Whether every one of `items`, at any depth, is a group or a known writer module.
pub open spec fn items_buildable(items: Seq<NexusStructureItem>, registry: Map<Seq<char>, WriterModuleKind>) -> bool
    decreases items, items.len(),
{
    if items.len() == 0 {
        true
    } else {
        items_buildable(items.drop_last(), registry) && item_buildable(items.last(), registry)
    }
}

proof fn lemma_item_plan_fails_iff(item: NexusStructureItem, parent: Seq<char>, registry: Map<Seq<char>, WriterModuleKind>)
    ensures
        item_plan(item, parent, registry).1 is None <==> item_buildable(item, registry),
    decreases item, 0int,
{
    match item {
        NexusStructureItem::Group(g) => {
            lemma_items_plan_fails_iff(g.children@, child_location(parent, g.name@), registry);
        },
        _ => {},
    }
}

proof fn lemma_items_plan_fails_iff(items: Seq<NexusStructureItem>, parent: Seq<char>, registry: Map<Seq<char>, WriterModuleKind>)
    ensures
        items_plan(items, parent, registry).1 is None <==> items_buildable(items, registry),
    decreases items, items.len(),
{
    if items.len() > 0 {
        lemma_items_plan_fails_iff(items.drop_last(), parent, registry);
        lemma_item_plan_fails_iff(items.last(), parent, registry);
    }
}

/// Structure law: a NeXus structure can be built exactly when every child in it, at
/// any depth, is a group or a writer module that the registry knows; building one that
/// can be built ends with the standard attributes of the root group.
pub proof fn lemma_structure_buildable(s: NexusFileStructure, registry: Map<Seq<char>, WriterModuleKind>)
    ensures
        structure_plan(s, registry).1 is None <==> items_buildable(s.children@, registry),
        items_buildable(s.children@, registry) ==> structure_plan(s, registry).0.last() == StructureStepView::WriteRootDatasetAttributes,
{
    lemma_items_plan_fails_iff(s.children@, root_location(), registry);
}

} // verus!

verus! {

/// Whether each writer module that `steps` place is registered in `registry` under its
/// name, with the kind that the step gives.
pub open spec fn places_registered(steps: Seq<StructureStepView>, registry: Map<Seq<char>, WriterModuleKind>) -> bool {
    forall|i: int| 0 <= i < steps.len() ==> match #[trigger] steps[i] {
        StructureStepView::PlaceWriter { module, kind, .. } => registry.contains_key(module) && registry[module] == kind,
        _ => true,
    }
}

proof fn lemma_places_registered_concat(a: Seq<StructureStepView>, b: Seq<StructureStepView>, registry: Map<Seq<char>, WriterModuleKind>)
    requires
        places_registered(a, registry),
        places_registered(b, registry),
    ensures
        places_registered(a + b, registry),
{
    assert forall|i: int| 0 <= i < (a + b).len() implies match #[trigger] (a + b)[i] {
        StructureStepView::PlaceWriter { module, kind, .. } => registry.contains_key(module) && registry[module] == kind,
        _ => true,
    } by {
        if i < a.len() {
            assert((a + b)[i] == a[i]);
        } else {
            assert((a + b)[i] == b[i - a.len()]);
        }
    }
}

proof fn lemma_attribute_steps_place_nothing(attributes: Seq<(String, AttributeValue)>, location: Seq<char>, registry: Map<Seq<char>, WriterModuleKind>)
    ensures
        places_registered(attribute_steps(attributes, location), registry),
    decreases attributes.len(),
{
    if attributes.len() > 0 {
        lemma_attribute_steps_place_nothing(attributes.drop_last(), location, registry);
        let prev = attribute_steps(attributes.drop_last(), location);
        match attributes.last().1 {
            AttributeValue::Text(v) => {
                let step = StructureStepView::WriteAttribute { location, name: attributes.last().0@, value: v@ };
                assert(prev.push(step) =~= prev + seq![step]);
                lemma_places_registered_concat(prev, seq![step], registry);
            },
            AttributeValue::Other => {},
        }
    }
}

proof fn lemma_item_plan_registered(item: NexusStructureItem, parent: Seq<char>, registry: Map<Seq<char>, WriterModuleKind>)
    ensures
        places_registered(item_plan(item, parent, registry).0, registry),
    decreases item, 0int,
{
    match item {
        NexusStructureItem::Group(g) => {
            let location = child_location(parent, g.name@);
            let first = seq![StructureStepView::CreateGroup { parent, name: g.name@ }];
            let attrs = attribute_steps(g.attributes@, location);
            lemma_attribute_steps_place_nothing(g.attributes@, location, registry);
            lemma_items_plan_registered(g.children@, location, registry);
            lemma_places_registered_concat(first, attrs, registry);
            lemma_places_registered_concat(first + attrs, items_plan(g.children@, location, registry).0, registry);
        },
        _ => {},
    }
}

proof fn lemma_items_plan_registered(items: Seq<NexusStructureItem>, parent: Seq<char>, registry: Map<Seq<char>, WriterModuleKind>)
    ensures
        places_registered(items_plan(items, parent, registry).0, registry),
    decreases items, items.len(),
{
    if items.len() > 0 {
        lemma_items_plan_registered(items.drop_last(), parent, registry);
        lemma_item_plan_registered(items.last(), parent, registry);
        lemma_places_registered_concat(items_plan(items.drop_last(), parent, registry).0, item_plan(items.last(), parent, registry).0, registry);
    }
}

/// Every writer module that the plan for a structure places is registered under its
/// name, with the kind that the plan gives it.
pub proof fn lemma_structure_plan_registered(s: NexusFileStructure, registry: Map<Seq<char>, WriterModuleKind>)
    ensures
        places_registered(structure_plan(s, registry).0, registry),
{
    let children = items_plan(s.children@, root_location(), registry);
    lemma_items_plan_registered(s.children@, root_location(), registry);
    if children.1 is None {
        let attrs = attribute_steps(s.attributes@, root_location());
        lemma_attribute_steps_place_nothing(s.attributes@, root_location(), registry);
        lemma_places_registered_concat(children.0, attrs, registry);
        lemma_places_registered_concat(children.0 + attrs, seq![StructureStepView::WriteRootDatasetAttributes], registry);
    }
}

} // verus!

verus! {

/// Attribute law: the attribute writes for a group are its string-valued attributes,
/// each written once, in order, on the group's location; other attributes are skipped.
pub proof fn lemma_attribute_steps_are_string_attributes(attributes: Seq<(String, AttributeValue)>, location: Seq<char>)
    ensures
        attribute_steps(attributes, location) == attributes.filter(|a: (String, AttributeValue)| a.1 is Text).map_values(
            |a: (String, AttributeValue)| StructureStepView::WriteAttribute { location, name: a.0@, value: (a.1->Text_0)@ },
        ),
    decreases attributes.len(),
{
    let is_text = |a: (String, AttributeValue)| a.1 is Text;
    let write = |a: (String, AttributeValue)| StructureStepView::WriteAttribute { location, name: a.0@, value: (a.1->Text_0)@ };
    if attributes.len() == 0 {
        assert(attributes.filter(is_text) =~= Seq::<(String, AttributeValue)>::empty());
        assert(attributes.filter(is_text).map_values(write) =~= Seq::<StructureStepView>::empty());
    } else {
        let prefix = attributes.drop_last();
        let last = attributes.last();
        lemma_attribute_steps_are_string_attributes(prefix, location);
        assert(attributes =~= prefix.push(last));
        prefix.lemma_filter_push(last, is_text);
        if last.1 is Text {
            assert(prefix.filter(is_text).push(last).map_values(write) =~= prefix.filter(is_text).map_values(write).push(write(last)));
        }
    }
}

} // verus!
