//! The JSON form of error trees.
//!
//! A handler sends a failure as an object with the members `code`, `args`
//! and `children`; the client receives an object with the members `code`,
//! `message` and `children`. This module says which documents are error
//! trees, and which tree each of them is.

use crate::args::{
    has_key, keys_distinct, lemma_pairs_insert, pairs_insert, position_of, Args, Pairs,
};
use crate::error_node::{node_views, ErrorNode, ErrorNodeView, TranslatedError, TranslatedView};
use crate::json::{
    json_parsed, json_rendered, json_views, member_views, parse_json, render_json, JsonMember,
    JsonValue, JsonView,
};
use vstd::prelude::*;

verus! {

/// The members of a JSON object, as mathematical values.
pub type Members = Seq<(Seq<char>, JsonView)>;

/// The position of the first member at or behind `from` whose key is `key`,
/// or -1 where there is none.
pub open spec fn member_index_from(members: Members, key: Seq<char>, from: int) -> int
    decreases members.len() - from,
{
    if from < 0 || from >= members.len() {
        -1
    } else if members[from].0 == key {
        from
    } else {
        member_index_from(members, key, from + 1)
    }
}

/// The position of the first member whose key is `key`, or -1 where there
/// is none.
pub open spec fn member_index(members: Members, key: Seq<char>) -> int {
    member_index_from(members, key, 0)
}

/// Whether every member of an object is a text.
pub open spec fn all_texts(members: Members) -> bool {
    forall|i: int| 0 <= i < members.len() ==> (#[trigger] members[i]).1 is Text
}

/// The entries that an object of texts stands for, in the order in which
/// their keys first occur; of two members with the same key the later one
/// gives the value.
pub open spec fn members_pairs(members: Members) -> Pairs
    decreases members.len(),
{
    if members.len() == 0 {
        Seq::empty()
    } else {
        pairs_insert(
            members_pairs(members.drop_last()),
            members.last().0,
            members.last().1->Text_0,
        )
    }
}

/// The arguments that the member `args` gives: none where it is `null`,
/// a mapping where it is an object of texts. Any other document is no
/// arguments at all, and the outer result is `None`.
pub open spec fn decoded_args(value: JsonView) -> Option<Option<Pairs>> {
    match value {
        JsonView::Null => Some(None),
        JsonView::Object(members) => if all_texts(members) {
            Some(Some(members_pairs(members)))
        } else {
            None
        },
        _ => None,
    }
}

/// The tree that a document stands for, if it stands for one: an object
/// whose member `code` is a text that is not empty, whose member `args`, if
/// it has one, gives arguments, and whose member `children`, if it has one,
/// gives a list of trees. Other members are not looked at.
pub open spec fn decoded_node(value: JsonView) -> Option<ErrorNodeView>
    decreases value,
{
    match value {
        JsonView::Object(members) => {
            let code = member_index(members, "code"@);
            let args = member_index(members, "args"@);
            let children = member_index(members, "children"@);
            if !(0 <= code < members.len()) {
                None
            } else if !(members[code].1 is Text) || members[code].1->Text_0.len() == 0 {
                None
            } else if 0 <= args < members.len() && decoded_args(members[args].1) is None {
                None
            } else if 0 <= children < members.len() && decoded_children(members[children].1)
                is None {
                None
            } else {
                Some(
                    ErrorNodeView {
                        code: members[code].1->Text_0,
                        args: if 0 <= args < members.len() {
                            decoded_args(members[args].1)->0
                        } else {
                            None
                        },
                        children: if 0 <= children < members.len() {
                            decoded_children(members[children].1)->0
                        } else {
                            Seq::empty()
                        },
                    },
                )
            }
        },
        _ => None,
    }
}

/// The trees that the member `children` gives: none where it is `null`,
/// one for each element where it is an array of trees, in the array's
/// order.
pub open spec fn decoded_children(value: JsonView) -> Option<Seq<ErrorNodeView>>
    decreases value,
{
    match value {
        JsonView::Null => Some(Seq::empty()),
        JsonView::Array(items) => if forall|i: int|
            0 <= i < items.len() ==> decoded_node(#[trigger] items[i]) is Some {
            Some(
                Seq::new(
                    items.len(),
                    |i: int|
                        if 0 <= i < items.len() {
                            decoded_node(items[i])->0
                        } else {
                            arbitrary()
                        },
                ),
            )
        } else {
            None
        },
        _ => None,
    }
}

/// The object that stands for a mapping: a member for each entry, in the
/// entries' order.
pub open spec fn args_json(pairs: Pairs) -> JsonView {
    JsonView::Object(Seq::new(pairs.len(), |i: int| (pairs[i].0, JsonView::Text(pairs[i].1))))
}

/// The document a translated error is sent as.
pub open spec fn translated_json(error: TranslatedView) -> JsonView
    decreases error,
{
    JsonView::Object(
        seq![
            ("code"@, JsonView::Text(error.code)),
            ("message"@, JsonView::Text(error.message)),
            (
                "children"@,
                JsonView::Array(
                    Seq::new(
                        error.children.len(),
                        |i: int|
                            if 0 <= i < error.children.len() {
                                translated_json(error.children[i])
                            } else {
                                arbitrary()
                            },
                    ),
                ),
            ),
        ],
    )
}

/// The document a node is sent as: its code, its arguments (`null` where
/// it has none) and its children.
pub open spec fn wire_form(node: ErrorNodeView) -> JsonView
    decreases node,
{
    JsonView::Object(
        seq![
            ("code"@, JsonView::Text(node.code)),
            (
                "args"@,
                match node.args {
                    Some(pairs) => args_json(pairs),
                    None => JsonView::Null,
                },
            ),
            (
                "children"@,
                JsonView::Array(
                    Seq::new(
                        node.children.len(),
                        |i: int|
                            if 0 <= i < node.children.len() {
                                wire_form(node.children[i])
                            } else {
                                arbitrary()
                            },
                    ),
                ),
            ),
        ],
    )
}

/// The view of a node that may be missing.
pub open spec fn optional_node(node: Option<ErrorNode>) -> Option<ErrorNodeView> {
    match node {
        Some(node) => Some(node@),
        None => None,
    }
}

/// The position of the first member of `members` under `key`.
fn find_member(members: &Vec<JsonMember>, key: &str) -> (found: Option<usize>)
    ensures
        found matches Some(i) ==> i < members.len() && i == member_index(
            member_views(members@),
            key@,
        ),
        found is None ==> member_index(member_views(members@), key@) == -1,
{
    let wanted = key.to_owned();
    let ghost views = member_views(members@);
    let mut i: usize = 0;
    while i < members.len()
        invariant
            i <= members.len(),
            wanted@ == key@,
            views == member_views(members@),
            member_index(views, key@) == member_index_from(views, key@, i as int),
        decreases members.len() - i,
    {
        if members[i].key == wanted {
            return Some(i);
        }
        i = i + 1;
    }
    None
}

/// Reads the arguments that an object of texts stands for.
fn decode_args(value: &JsonValue) -> (args: Option<Option<Args>>)
    ensures
        args is Some <==> decoded_args(value@) is Some,
        args matches Some(inner) ==> (inner is Some <==> decoded_args(value@)->0 is Some),
        args matches Some(Some(map)) ==> decoded_args(value@) == Some(Some(map.pairs())),
{
    match value {
        JsonValue::Null => Some(None),
        JsonValue::Object(members) => {
            let ghost views = value@->Object_0;
            assert(views =~= member_views(members@));
            let mut args = Args::new();
            let mut i: usize = 0;
            assert(views.take(0) =~= Seq::<(Seq<char>, JsonView)>::empty());
            while i < members.len()
                invariant
                    i <= members.len(),
                    views == member_views(members@),
                    value@ == JsonView::Object(views),
                    all_texts(views.take(i as int)),
                    args.pairs() == members_pairs(views.take(i as int)),
                decreases members.len() - i,
            {
                match &members[i].value {
                    JsonValue::Text(text) => {
                        args.insert(members[i].key.clone(), text.clone());
                        proof {
                            assert(views.take(i + 1).drop_last() =~= views.take(i as int));
                            assert(views.take(i + 1).last() == views[i as int]);
                        }
                    },
                    _ => {
                        assert(!(views[i as int].1 is Text));
                        return None;
                    },
                }
                i = i + 1;
            }
            assert(views.take(i as int) =~= views);
            Some(Some(args))
        },
        _ => None,
    }
}

/// Reads the trees that an array of documents stands for.
fn decode_children(value: &JsonValue) -> (children: Option<Vec<ErrorNode>>)
    ensures
        children is Some <==> decoded_children(value@) is Some,
        children matches Some(nodes) ==> decoded_children(value@) == Some(
            node_views(nodes@),
        ),
    decreases value, 0nat,
{
    match value {
        JsonValue::Null => {
            let nodes: Vec<ErrorNode> = Vec::new();
            assert(node_views(nodes@) =~= Seq::<ErrorNodeView>::empty());
            Some(nodes)
        },
        JsonValue::Array(items) => {
            let ghost views = value@->Array_0;
            assert(views =~= json_views(items@));
            let mut nodes: Vec<ErrorNode> = Vec::new();
            let mut i: usize = 0;
            while i < items.len()
                invariant
                    i <= items.len(),
                    value matches JsonValue::Array(own) && own == items,
                    value@ == JsonView::Array(views),
                    views == json_views(items@),
                    nodes.len() == i,
                    forall|j: int|
                        0 <= j < i ==> decoded_node(views[j]) == Some((#[trigger] nodes[j])@),
                decreases items.len() - i,
            {
                match decode_node(&items[i]) {
                    Some(node) => {
                        nodes.push(node);
                    },
                    None => {
                        assert(decoded_node(views[i as int]) is None);
                        return None;
                    },
                }
                i = i + 1;
            }
            assert forall|j: int| 0 <= j < views.len() implies decoded_node(
                #[trigger] views[j],
            ) is Some by {
                assert(decoded_node(views[j]) == Some(nodes[j]@));
            }
            assert(node_views(nodes@) =~= decoded_children(value@)->0);
            Some(nodes)
        },
        _ => None,
    }
}

/// Reads the tree that a document stands for, as [`decoded_node`] says.
pub fn decode_node(value: &JsonValue) -> (node: Option<ErrorNode>)
    ensures
        optional_node(node) == decoded_node(value@),
    decreases value, 1nat,
{
    match value {
        JsonValue::Object(members) => {
            let ghost views = value@->Object_0;
            assert(views =~= member_views(members@));
            let code = match find_member(members, "code") {
                Some(at) => match &members[at].value {
                    JsonValue::Text(text) => {
                        if text.as_str().is_empty() {
                            return None;
                        }
                        text.clone()
                    },
                    _ => {
                        return None;
                    },
                },
                None => {
                    return None;
                },
            };
            let args = match find_member(members, "args") {
                Some(at) => match decode_args(&members[at].value) {
                    Some(args) => args,
                    None => {
                        return None;
                    },
                },
                None => None,
            };
            let children = match find_member(members, "children") {
                Some(at) => match decode_children(&members[at].value) {
                    Some(children) => children,
                    None => {
                        return None;
                    },
                },
                None => {
                    let children: Vec<ErrorNode> = Vec::new();
                    children
                },
            };
            let node = ErrorNode { code, args, children };
            assert(node@.children =~= decoded_node(value@)->0.children);
            Some(node)
        },
        _ => None,
    }
}

/// Writes the object that stands for a mapping.
fn encode_args(args: &Args) -> (value: JsonValue)
    ensures
        value@ == args_json(args.pairs()),
{
    let mut members: Vec<JsonMember> = Vec::new();
    let count = args.len();
    let mut i: usize = 0;
    while i < count
        invariant
            i <= count,
            count == args.pairs().len(),
            members.len() == i,
            forall|j: int|
                0 <= j < i ==> (#[trigger] members[j]).key@ == args.pairs()[j].0 && members[j].value@
                    == JsonView::Text(args.pairs()[j].1),
        decreases count - i,
    {
        members.push(
            JsonMember { key: args.key_at(i).clone(), value: JsonValue::Text(args.value_at(i).clone()) },
        );
        i = i + 1;
    }
    let value = JsonValue::Object(members);
    assert(value@->Object_0 =~= args_json(args.pairs())->Object_0);
    value
}

/// Writes the document a node is sent as.
pub fn encode_node(node: &ErrorNode) -> (value: JsonValue)
    ensures
        value@ == wire_form(node@),
    decreases node,
{
    let mut items: Vec<JsonValue> = Vec::new();
    let mut i: usize = 0;
    while i < node.children.len()
        invariant
            i <= node.children.len(),
            node@.children.len() == node.children.len(),
            items.len() == i,
            forall|j: int| 0 <= j < i ==> (#[trigger] items[j])@ == wire_form(node@.children[j]),
        decreases node.children.len() - i,
    {
        let item = encode_node(&node.children[i]);
        items.push(item);
        i = i + 1;
    }
    let args = match &node.args {
        Some(args) => encode_args(args),
        None => JsonValue::Null,
    };
    let array = JsonValue::Array(items);
    let code = JsonValue::Text(node.code.clone());
    let ghost wanted = wire_form(node@)->Object_0;
    proof {
        assert(array@->Array_0 =~= wanted[2].1->Array_0);
        assert(array@ == wanted[2].1);
        assert(args@ == wanted[1].1);
        assert(code@ == wanted[0].1);
    }
    let mut members: Vec<JsonMember> = Vec::new();
    members.push(JsonMember { key: "code".to_owned(), value: code });
    members.push(JsonMember { key: "args".to_owned(), value: args });
    members.push(JsonMember { key: "children".to_owned(), value: array });
    let value = JsonValue::Object(members);
    assert(value@->Object_0 =~= wanted);
    value
}

/// Writes the document a translated error is sent as.
pub fn encode_translated(error: &TranslatedError) -> (value: JsonValue)
    ensures
        value@ == translated_json(error@),
    decreases error,
{
    let mut items: Vec<JsonValue> = Vec::new();
    let mut i: usize = 0;
    while i < error.children.len()
        invariant
            i <= error.children.len(),
            error@.children.len() == error.children.len(),
            items.len() == i,
            forall|j: int|
                0 <= j < i ==> (#[trigger] items[j])@ == translated_json(error@.children[j]),
        decreases error.children.len() - i,
    {
        let item = encode_translated(&error.children[i]);
        items.push(item);
        i = i + 1;
    }
    let array = JsonValue::Array(items);
    let code = JsonValue::Text(error.code.clone());
    let message = JsonValue::Text(error.message.clone());
    let ghost wanted = translated_json(error@)->Object_0;
    proof {
        assert(array@->Array_0 =~= wanted[2].1->Array_0);
        assert(array@ == wanted[2].1);
        assert(message@ == wanted[1].1);
        assert(code@ == wanted[0].1);
    }
    let mut members: Vec<JsonMember> = Vec::new();
    members.push(JsonMember { key: "code".to_owned(), value: code });
    members.push(JsonMember { key: "message".to_owned(), value: message });
    members.push(JsonMember { key: "children".to_owned(), value: array });
    let value = JsonValue::Object(members);
    assert(value@->Object_0 =~= wanted);
    value
}

/// What [`node_from_bytes`] reads from `bytes`.
pub open spec fn node_in_bytes(bytes: Seq<u8>) -> Option<ErrorNodeView> {
    match json_parsed(bytes) {
        Some(value) => decoded_node(value),
        None => None,
    }
}

/// Reads a tree from the bytes of a body: the bytes must be a JSON document
/// and the document must stand for a tree.
pub fn node_from_bytes(bytes: &[u8]) -> (node: Option<ErrorNode>)
    ensures
        optional_node(node) == node_in_bytes(bytes@),
{
    match parse_json(bytes) {
        Some(value) => decode_node(&value),
        None => None,
    }
}

/// The bytes of the document a node is sent as.
pub fn node_to_bytes(node: &ErrorNode) -> (bytes: Vec<u8>)
    ensures
        bytes@ == json_rendered(wire_form(node@)),
{
    let value = encode_node(node);
    render_json(&value)
}

/// The bytes of the document a translated error is sent as.
pub fn translated_to_bytes(error: &TranslatedError) -> (bytes: Vec<u8>)
    ensures
        bytes@ == json_rendered(translated_json(error@)),
{
    let value = encode_translated(error);
    render_json(&value)
}

/// The entries read from an object never hold a key twice.
pub proof fn lemma_members_pairs_distinct(members: Members)
    ensures
        keys_distinct(members_pairs(members)),
    decreases members.len(),
{
    if members.len() > 0 {
        lemma_members_pairs_distinct(members.drop_last());
        lemma_pairs_insert(
            members_pairs(members.drop_last()),
            members.last().0,
            members.last().1->Text_0,
        );
    }
}

/// Every tree that is read from a document is well formed: each node has a
/// code that is not empty, and no node holds an argument twice.
pub proof fn lemma_decoded_is_well_formed(value: JsonView)
    requires
        decoded_node(value) is Some,
    ensures
        decoded_node(value)->0.well_formed(),
    decreases value,
{
    let members = value->Object_0;
    let node = decoded_node(value)->0;
    let args = member_index(members, "args"@);
    let children = member_index(members, "children"@);
    if 0 <= args < members.len() {
        match members[args].1 {
            JsonView::Object(inner) => {
                lemma_members_pairs_distinct(inner);
            },
            _ => {},
        }
    }
    if 0 <= children < members.len() {
        match members[children].1 {
            JsonView::Array(items) => {
                assert forall|i: int| 0 <= i < node.children.len() implies (
                #[trigger] node.children[i]).well_formed() by {
                    assert(decoded_node(items[i]) is Some);
                    lemma_decoded_is_well_formed(items[i]);
                }
            },
            _ => {},
        }
    }
}

/// The object written for a list of entries with distinct keys is read
/// back as those entries, in their order.
pub proof fn lemma_args_round_trip(pairs: Pairs)
    requires
        keys_distinct(pairs),
    ensures
        decoded_args(args_json(pairs)) == Some(Some(pairs)),
        members_pairs(args_json(pairs)->Object_0) == pairs,
    decreases pairs.len(),
{
    let members = args_json(pairs)->Object_0;
    assert(all_texts(members));
    if pairs.len() == 0 {
        assert(members_pairs(members) =~= pairs);
    } else {
        let head = pairs.drop_last();
        let last = pairs.last();
        assert(keys_distinct(head));
        assert(!has_key(head, last.0)) by {
            if has_key(head, last.0) {
                let p = position_of(head, last.0);
                assert(pairs[p].0 == pairs[pairs.len() - 1].0);
            }
        }
        lemma_args_round_trip(head);
        assert(members.drop_last() =~= args_json(head)->Object_0);
        assert(head.push((last.0, last.1)) =~= pairs);
    }
}

/// A node that is sent and read back is the same node: every code, every
/// argument, every child in its place.
pub proof fn lemma_wire_round_trip(node: ErrorNodeView)
    requires
        node.well_formed(),
    ensures
        decoded_node(wire_form(node)) == Some(node),
    decreases node,
{
    reveal_strlit("code");
    reveal_strlit("args");
    reveal_strlit("children");
    let members = wire_form(node)->Object_0;
    assert("code"@ != "args"@ && "code"@ != "children"@ && "args"@ != "children"@) by {
        assert("code"@.len() == 4 && "args"@.len() == 4 && "children"@.len() == 8);
        assert("code"@[0] == 'c' && "args"@[0] == 'a');
    }
    reveal_with_fuel(member_index_from, 4);
    assert(member_index(members, "code"@) == 0);
    assert(member_index(members, "args"@) == 1);
    assert(member_index(members, "children"@) == 2);
    match node.args {
        Some(pairs) => {
            lemma_args_round_trip(pairs);
        },
        None => {},
    }
    assert(decoded_args(members[1].1) == Some(node.args));
    let items = members[2].1->Array_0;
    assert(items.len() == node.children.len());
    assert forall|i: int| 0 <= i < items.len() implies decoded_node(#[trigger] items[i]) == Some(
        node.children[i],
    ) by {
        assert(node.children[i].well_formed());
        lemma_wire_round_trip(node.children[i]);
    }
    assert(decoded_children(members[2].1) is Some);
    assert(decoded_children(members[2].1)->0 =~= node.children);
    assert(members[0].1 is Text && members[0].1->Text_0 == node.code);
}

} // verus!
