//! Validation failures, and their flattening into error nodes.
//!
//! Validating a request body yields a nested structure: a field may break
//! several rules, a nested object may fail in its own fields, and a list may
//! fail at some of its elements. Clients get one flat list with a node for
//! every broken rule, in the order in which the fields and rules were
//! declared.

use crate::error_node::{node_views, ErrorNode, ErrorNodeView};
use vstd::prelude::*;

verus! {

/// One element of a list that failed validation.
#[derive(Debug)]
pub struct ListItem {
    /// The position of the element in its list.
    pub index: usize,
    /// What failed inside the element.
    pub nested: Vec<Failure>,
}

/// What failed at one field.
#[derive(Debug)]
pub enum Failure {
    /// The field's value broke rules; each broken rule gives its code.
    Field { field: String, codes: Vec<String> },
    /// The field is an object that failed in fields of its own.
    Struct { field: String, nested: Vec<Failure> },
    /// The field is a list that failed at some of its elements.
    List { field: String, items: Vec<ListItem> },
}

/// A [`Failure`] as a mathematical value.
pub enum FailureView {
    Field { field: Seq<char>, codes: Seq<Seq<char>> },
    Struct { field: Seq<char>, nested: Seq<FailureView> },
    List { field: Seq<char>, items: Seq<(nat, Seq<FailureView>)> },
}

impl Failure {
    /// The failure as a mathematical value.
    pub open spec fn model(self) -> FailureView
        decreases self,
    {
        match self {
            Failure::Field { field, codes } => FailureView::Field {
                field: field@,
                codes: Seq::new(codes.len() as nat, |i: int| codes[i]@),
            },
            Failure::Struct { field, nested } => FailureView::Struct {
                field: field@,
                nested: Seq::new(
                    nested.len() as nat,
                    |i: int|
                        if 0 <= i < nested.len() {
                            nested[i].model()
                        } else {
                            arbitrary()
                        },
                ),
            },
            Failure::List { field, items } => FailureView::List {
                field: field@,
                items: Seq::new(
                    items.len() as nat,
                    |i: int|
                        if 0 <= i < items.len() {
                            (
                                items[i].index as nat,
                                Seq::new(
                                    items[i].nested.len() as nat,
                                    |j: int|
                                        if 0 <= j < items[i].nested.len() {
                                            items[i].nested[j].model()
                                        } else {
                                            arbitrary()
                                        },
                                ),
                            )
                        } else {
                            arbitrary()
                        },
                ),
            },
        }
    }
}

impl View for Failure {
    type V = FailureView;

    open spec fn view(&self) -> FailureView {
        self.model()
    }
}

/// The views of a list of failures, in the same order.
pub open spec fn failure_views(failures: Seq<Failure>) -> Seq<FailureView> {
    Seq::new(failures.len(), |i: int| failures[i]@)
}

/// The codes of the rules broken at or below one field, in declared order.
pub open spec fn flat_codes(failure: FailureView) -> Seq<Seq<char>>
    decreases failure,
{
    match failure {
        FailureView::Field { codes, .. } => codes,
        FailureView::Struct { nested, .. } => flat_codes_all(nested),
        FailureView::List { items, .. } => flat_codes_items(items),
    }
}

/// The codes of the rules broken in a list of fields: those of the first
/// field, then those of the second, and so on.
pub open spec fn flat_codes_all(failures: Seq<FailureView>) -> Seq<Seq<char>>
    decreases failures,
{
    if failures.len() == 0 {
        Seq::empty()
    } else {
        flat_codes_all(failures.drop_last()) + flat_codes(failures.last())
    }
}

/// The codes of the rules broken in the elements of a list, element by
/// element.
pub open spec fn flat_codes_items(items: Seq<(nat, Seq<FailureView>)>) -> Seq<Seq<char>>
    decreases items,
{
    if items.len() == 0 {
        Seq::empty()
    } else {
        flat_codes_items(items.drop_last()) + flat_codes_all(items.last().1)
    }
}

/// The number of rules broken at or below one field.
pub open spec fn violation_count(failure: FailureView) -> nat
    decreases failure,
{
    match failure {
        FailureView::Field { codes, .. } => codes.len(),
        FailureView::Struct { nested, .. } => violation_count_all(nested),
        FailureView::List { items, .. } => violation_count_items(items),
    }
}

/// The number of rules broken in a list of fields.
pub open spec fn violation_count_all(failures: Seq<FailureView>) -> nat
    decreases failures,
{
    if failures.len() == 0 {
        0
    } else {
        violation_count_all(failures.drop_last()) + violation_count(failures.last())
    }
}

/// The number of rules broken in the elements of a list.
pub open spec fn violation_count_items(items: Seq<(nat, Seq<FailureView>)>) -> nat
    decreases items,
{
    if items.len() == 0 {
        0
    } else {
        violation_count_items(items.drop_last()) + violation_count_all(items.last().1)
    }
}

/// The nodes of a list of broken rules, in the same order.
pub open spec fn leaf_nodes(codes: Seq<Seq<char>>) -> Seq<ErrorNodeView> {
    Seq::new(codes.len(), |i: int| ErrorNodeView::leaf(codes[i]))
}

/// What [`flatten`] returns for `failures`.
pub open spec fn flattened(failures: Seq<FailureView>) -> Seq<ErrorNodeView> {
    leaf_nodes(flat_codes_all(failures))
}

/// The flat list has exactly one entry for every broken rule.
pub proof fn lemma_flat_length(failure: FailureView)
    ensures
        flat_codes(failure).len() == violation_count(failure),
    decreases failure,
{
    match failure {
        FailureView::Field { .. } => {},
        FailureView::Struct { nested, .. } => lemma_flat_length_all(nested),
        FailureView::List { items, .. } => lemma_flat_length_items(items),
    }
}

/// The flat list of a list of fields has exactly one entry for every broken
/// rule, and so has the list of nodes made from it.
pub proof fn lemma_flat_length_all(failures: Seq<FailureView>)
    ensures
        flat_codes_all(failures).len() == violation_count_all(failures),
        flattened(failures).len() == violation_count_all(failures),
    decreases failures,
{
    if failures.len() > 0 {
        lemma_flat_length_all(failures.drop_last());
        lemma_flat_length(failures.last());
    }
}

/// The flat list of the elements of a list has exactly one entry for every
/// broken rule.
pub proof fn lemma_flat_length_items(items: Seq<(nat, Seq<FailureView>)>)
    ensures
        flat_codes_items(items).len() == violation_count_items(items),
    decreases items,
{
    if items.len() > 0 {
        lemma_flat_length_items(items.drop_last());
        lemma_flat_length_all(items.last().1);
    }
}

/// Flattening keeps the declared order: the codes of two lists of fields
/// put one behind the other are the codes of the first list followed by
/// those of the second.
pub proof fn lemma_flat_order(first: Seq<FailureView>, second: Seq<FailureView>)
    ensures
        flat_codes_all(first + second) == flat_codes_all(first) + flat_codes_all(second),
    decreases second.len(),
{
    if second.len() == 0 {
        assert(first + second =~= first);
        assert(flat_codes_all(first) + flat_codes_all(second) =~= flat_codes_all(first));
    } else {
        lemma_flat_order(first, second.drop_last());
        assert((first + second).drop_last() =~= first + second.drop_last());
        assert((first + second).last() == second.last());
        assert(flat_codes_all(first + second) =~= flat_codes_all(first) + flat_codes_all(second));
    }
}

/// Every node of a flat list is a leaf: it has a code, no arguments and no
/// children.
pub proof fn lemma_flattened_are_leaves(failures: Seq<FailureView>, i: int)
    requires
        0 <= i < flattened(failures).len(),
    ensures
        flattened(failures)[i].children.len() == 0,
        flattened(failures)[i].args is None,
        flattened(failures)[i].code == flat_codes_all(failures)[i],
{
}

/// A value that can be checked against the rules declared for its type.
pub trait Validate {
    /// What the value breaks: an entry for each failing field, in the order
    /// in which the fields are declared.
    spec fn failures(&self) -> Seq<FailureView>;

    /// Checks the value, and reports exactly what it breaks.
    fn validate(&self) -> (result: Result<(), Vec<Failure>>)
        ensures
            result is Ok <==> self.failures().len() == 0,
            result matches Err(found) ==> failure_views(found@) == self.failures(),
    ;
}

/// Checks the length of a text with `validator::ValidateLength`: the
/// number of its characters must be at least `min` and at most `max`.
///
/// Trusted: `validate_length` counts the characters of a `String` and
/// compares the count with both bounds.
#[verifier::external_body]
pub(crate) fn length_within(text: &String, min: u64, max: u64) -> (ok: bool)
    ensures
        ok == (min <= text@.len() && text@.len() <= max),
{
    validator::ValidateLength::validate_length(text, Some(min), Some(max), None)
}

/// The failure of a single field that broke a single rule.
pub open spec fn field_failure(field: Seq<char>, code: Seq<char>) -> FailureView {
    FailureView::Field { field, codes: seq![code] }
}

/// Reports that the field `field` broke the rule with code `code`.
pub fn single_failure(field: &str, code: &str) -> (failure: Failure)
    ensures
        failure@ == field_failure(field@, code@),
{
    let mut codes: Vec<String> = Vec::new();
    codes.push(code.to_owned());
    let failure = Failure::Field { field: field.to_owned(), codes };
    assert(failure@->Field_codes =~= seq![code@]);
    failure
}

/// Appends the nodes of the rules broken at or below one field.
fn flatten_into(failure: &Failure, nodes: &mut Vec<ErrorNode>)
    ensures
        node_views(final(nodes)@) == node_views(old(nodes)@) + leaf_nodes(flat_codes(failure@)),
    decreases failure,
{
    let ghost before = node_views(nodes@);
    match failure {
        Failure::Field { field: _, codes } => {
            let mut i: usize = 0;
            while i < codes.len()
                invariant
                    i <= codes.len(),
                    failure@ matches FailureView::Field { codes: all, .. } && all.len()
                        == codes.len() && forall|j: int|
                        0 <= j < codes.len() ==> all[j] == (#[trigger] codes[j])@,
                    node_views(nodes@) == before + leaf_nodes(flat_codes(failure@).take(i as int)),
                decreases codes.len() - i,
            {
                let node = ErrorNode::leaf(codes[i].as_str());
                let ghost earlier = nodes@;
                let ghost added = node@;
                nodes.push(node);
                proof {
                    let all = flat_codes(failure@);
                    assert(added == ErrorNodeView::leaf(all[i as int]));
                    assert(node_views(nodes@) =~= node_views(earlier).push(added));
                    assert(all.take(i + 1) =~= all.take(i as int).push(all[i as int]));
                    assert(leaf_nodes(all.take(i + 1)) =~= leaf_nodes(all.take(i as int)).push(
                        added,
                    ));
                    assert(node_views(nodes@) =~= before + leaf_nodes(all.take(i + 1)));
                }
                i = i + 1;
            }
            assert(flat_codes(failure@).take(i as int) =~= flat_codes(failure@));
        },
        Failure::Struct { field: _, nested } => {
            append_all(nested, nodes);
            assert(failure_views(nested@) =~= failure@->Struct_nested);
        },
        Failure::List { field: _, items } => {
            let ghost all = failure@->List_items;
            let mut i: usize = 0;
            assert(flat_codes_items(all.take(0)) =~= Seq::<Seq<char>>::empty());
            while i < items.len()
                invariant
                    i <= items.len(),
                    failure@ == failure.model(),
                    failure matches Failure::List { items: own, .. } && own == items,
                    all == failure@->List_items,
                    all.len() == items.len(),
                    node_views(nodes@) == before + leaf_nodes(
                        flat_codes_items(all.take(i as int)),
                    ),
                decreases items.len() - i,
            {
                let ghost so_far = node_views(nodes@);
                append_all(&items[i].nested, nodes);
                proof {
                    assert(failure_views(items[i as int].nested@) =~= all[i as int].1);
                    assert(all.take(i + 1).drop_last() =~= all.take(i as int));
                    assert(all.take(i + 1).last() == all[i as int]);
                    let head = flat_codes_items(all.take(i as int));
                    let tail = flat_codes_all(all[i as int].1);
                    assert(leaf_nodes(head + tail) =~= leaf_nodes(head) + leaf_nodes(tail));
                    assert(node_views(nodes@) =~= before + leaf_nodes(head + tail));
                }
                i = i + 1;
            }
            assert(all.take(i as int) =~= all);
        },
    }
}

/// Appends the nodes of the rules broken in a list of fields.
fn append_all(failures: &Vec<Failure>, nodes: &mut Vec<ErrorNode>)
    ensures
        node_views(final(nodes)@) == node_views(old(nodes)@) + flattened(failure_views(failures@)),
    decreases failures,
{
    let ghost before = node_views(nodes@);
    let ghost all = failure_views(failures@);
    let mut i: usize = 0;
    assert(flat_codes_all(all.take(0)) =~= Seq::<Seq<char>>::empty());
    while i < failures.len()
        invariant
            i <= failures.len(),
            all == failure_views(failures@),
            node_views(nodes@) == before + leaf_nodes(flat_codes_all(all.take(i as int))),
        decreases failures.len() - i,
    {
        flatten_into(&failures[i], nodes);
        proof {
            assert(all.take(i + 1).drop_last() =~= all.take(i as int));
            assert(all.take(i + 1).last() == failures[i as int]@);
            let head = flat_codes_all(all.take(i as int));
            let tail = flat_codes(failures[i as int]@);
            assert(leaf_nodes(head + tail) =~= leaf_nodes(head) + leaf_nodes(tail));
            assert(node_views(nodes@) =~= before + leaf_nodes(head + tail));
        }
        i = i + 1;
    }
    assert(all.take(i as int) =~= all);
}

/// The flat list of a validation result: one leaf node for every broken
/// rule, fields in declared order and, within a field, rules in declared
/// order. A result without failures gives the empty list.
pub fn flatten(failures: &Vec<Failure>) -> (nodes: Vec<ErrorNode>)
    ensures
        node_views(nodes@) == flattened(failure_views(failures@)),
        nodes.len() == violation_count_all(failure_views(failures@)),
{
    let mut nodes: Vec<ErrorNode> = Vec::new();
    append_all(failures, &mut nodes);
    proof {
        lemma_flat_length_all(failure_views(failures@));
        assert(node_views(nodes@) =~= flattened(failure_views(failures@)));
    }
    nodes
}

} // verus!
