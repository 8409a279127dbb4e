//! The JSON adapter's document tree, and the path-directed edits on it.
//!
//! A node is `Null` while it is only a registered placeholder, a `Text` leaf
//! once character data resolved it, or an `Object` mapping child keys to
//! child nodes. Every edit walks the current path from the root, lazily
//! materializing missing ancestors, and applies one change at the
//! destination; a `Text` leaf standing on the path is a structural
//! violation and the edit is refused with the tree left unchanged.

use vstd::prelude::*;

use crate::model::XmlAttribute;
use crate::model::attrs_pairs;

verus! {

/// One node of the JSON document under construction.
pub enum Node {
    /// A placeholder: registered under its key, not yet resolved to a shape.
    Null,
    /// A resolved scalar leaf.
    Text(String),
    /// A mapping of child keys to child nodes, in insertion order.
    Object(Vec<(String, Node)>),
}

/// The mathematical shape of a [`Node`].
pub enum NodeView {
    Null,
    Text(Seq<char>),
    Object(Seq<(Seq<char>, NodeView)>),
}

pub type EntriesView = Seq<(Seq<char>, NodeView)>;

/// The shape of an entry list: keys and child shapes, in order.
pub open spec fn entries_view(es: Seq<(String, Node)>) -> EntriesView
    decreases es,
{
    if es.len() == 0 {
        Seq::empty()
    } else {
        entries_view(es.drop_last()).push((es.last().0@, node_view(es.last().1)))
    }
}

/// The shape of a node.
pub open spec fn node_view(n: Node) -> NodeView
    decreases n,
{
    match n {
        Node::Null => NodeView::Null,
        Node::Text(s) => NodeView::Text(s@),
        Node::Object(es) => NodeView::Object(entries_view(es@)),
    }
}

/// An entry list and its shape have the same length.
pub(crate) broadcast proof fn lemma_entries_view_len(es: Seq<(String, Node)>)
    ensures
        (#[trigger] entries_view(es)).len() == es.len(),
    decreases es,
{
    if es.len() > 0 {
        lemma_entries_view_len(es.drop_last());
    }
}

/// The shape of an entry list is the entrywise shape.
pub(crate) broadcast proof fn lemma_entries_view_index(es: Seq<(String, Node)>, i: int)
    requires
        0 <= i < es.len(),
    ensures
        #[trigger] entries_view(es)[i] == (es[i].0@, node_view(es[i].1)),
    decreases es,
{
    lemma_entries_view_len(es);
    if es.len() > 0 {
        lemma_entries_view_len(es.drop_last());
        if i < es.len() - 1 {
            lemma_entries_view_index(es.drop_last(), i);
        }
    }
}

/// The first position holding `key`, in any sequence of key/value pairs.
pub open spec fn find_pair<T>(es: Seq<(Seq<char>, T)>, key: Seq<char>) -> Option<int>
    decreases es.len(),
{
    if es.len() == 0 {
        None
    } else if es[0].0 == key {
        Some(0)
    } else {
        match find_pair(es.drop_first(), key) {
            None => None,
            Some(i) => Some(i + 1),
        }
    }
}

/// `find_pair` finds exactly the first position whose key matches.
pub(crate) proof fn lemma_find_pair<T>(es: Seq<(Seq<char>, T)>, key: Seq<char>)
    ensures
        match find_pair(es, key) {
            None => forall|i: int| 0 <= i < es.len() ==> es[i].0 != key,
            Some(j) => 0 <= j < es.len() && es[j].0 == key && (forall|i: int|
                0 <= i < j ==> es[i].0 != key),
        },
    decreases es.len(),
{
    if es.len() > 0 && es[0].0 != key {
        lemma_find_pair(es.drop_first(), key);
        match find_pair(es.drop_first(), key) {
            None => {
                assert forall|i: int| 0 <= i < es.len() implies es[i].0 != key by {
                    if i > 0 {
                        assert(es.drop_first()[i - 1] == es[i]);
                    }
                }
            }
            Some(j) => {
                assert(es.drop_first()[j] == es[j + 1]);
                assert forall|i: int| 0 <= i < j + 1 implies es[i].0 != key by {
                    if i > 0 {
                        assert(es.drop_first()[i - 1] == es[i]);
                    }
                }
            }
        }
    }
}

/// The value under `key`, if present.
pub open spec fn obj_get(es: EntriesView, key: Seq<char>) -> Option<NodeView> {
    match find_pair(es, key) {
        None => None,
        Some(j) => Some(es[j].1),
    }
}

/// Insert or overwrite: replaces the value at the first matching key in
/// place, or appends a new entry.
pub open spec fn obj_set(es: EntriesView, key: Seq<char>, v: NodeView) -> EntriesView {
    match find_pair(es, key) {
        Some(j) => es.update(j, (es[j].0, v)),
        None => es.push((key, v)),
    }
}

/// A single content edit, directed by the current path stack.
pub enum TreeOp {
    /// Register the key in its parent with a `Null` placeholder value
    /// (an open-element event without attributes, or a `Data` element).
    OpenPlain(Seq<char>),
    /// Ensure the child under the key is an object and give it an
    /// `"#attributes"` entry built from the attribute list.
    OpenAttrs(Seq<char>, Seq<(Seq<char>, Seq<char>)>),
    /// Write character data at the node the path leads to.
    Chars(Seq<char>),
}

/// The key an open edit registers; irrelevant for character data.
pub open spec fn op_key(op: TreeOp) -> Seq<char> {
    match op {
        TreeOp::OpenPlain(key) => key,
        TreeOp::OpenAttrs(key, _) => key,
        TreeOp::Chars(_) => Seq::empty(),
    }
}

/// The entries of an `"#attributes"` object: one string entry per
/// attribute, a later duplicate name overwriting an earlier one.
pub open spec fn attrs_entries(attrs: Seq<(Seq<char>, Seq<char>)>) -> EntriesView
    decreases attrs.len(),
{
    if attrs.len() == 0 {
        Seq::empty()
    } else {
        obj_set(
            attrs_entries(attrs.drop_last()),
            attrs.last().0,
            NodeView::Text(attrs.last().1),
        )
    }
}

/// The `"#attributes"` object for an attribute list.
pub open spec fn attrs_object(attrs: Seq<(Seq<char>, Seq<char>)>) -> NodeView {
    NodeView::Object(attrs_entries(attrs))
}

/// Give `child` its `"#attributes"` entry, promoting a placeholder to an
/// object; a scalar leaf cannot carry attributes.
pub open spec fn set_attrs(child: NodeView, attrs: Seq<(Seq<char>, Seq<char>)>) -> Option<
    NodeView,
> {
    match child {
        NodeView::Null => Some(
            NodeView::Object(obj_set(Seq::empty(), "#attributes"@, attrs_object(attrs))),
        ),
        NodeView::Object(ces) => Some(
            NodeView::Object(obj_set(ces, "#attributes"@, attrs_object(attrs))),
        ),
        NodeView::Text(_) => None,
    }
}

/// What an edit does once the walk has reached its destination: the parent
/// of the opened key for the open edits, the current node for character
/// data. `None` reports a structural violation: content was directed at a
/// scalar leaf.
pub open spec fn apply_at(n: NodeView, op: TreeOp) -> Option<NodeView> {
    match op {
        TreeOp::OpenPlain(key) => match n {
            NodeView::Null => Some(NodeView::Object(obj_set(Seq::empty(), key, NodeView::Null))),
            NodeView::Object(es) => Some(NodeView::Object(obj_set(es, key, NodeView::Null))),
            NodeView::Text(_) => None,
        },
        TreeOp::OpenAttrs(key, attrs) => match n {
            NodeView::Null => match set_attrs(NodeView::Null, attrs) {
                Some(c) => Some(NodeView::Object(obj_set(Seq::empty(), key, c))),
                None => None,
            },
            NodeView::Object(es) => {
                let child = match obj_get(es, key) {
                    Some(c) => c,
                    None => NodeView::Null,
                };
                match set_attrs(child, attrs) {
                    Some(c2) => Some(NodeView::Object(obj_set(es, key, c2))),
                    None => None,
                }
            },
            NodeView::Text(_) => None,
        },
        TreeOp::Chars(text) => match n {
            NodeView::Null => Some(NodeView::Text(text)),
            NodeView::Object(es) => Some(
                NodeView::Object(obj_set(es, "#text"@, NodeView::Text(text))),
            ),
            NodeView::Text(_) => None,
        },
    }
}

/// Walk the remaining path from `n`, lazily materializing missing ancestors
/// as placeholders, and apply `op` at the destination. `None` reports a
/// scalar leaf standing on the path.
pub open spec fn walk_spec(n: NodeView, path: Seq<Seq<char>>, op: TreeOp) -> Option<NodeView>
    decreases path.len(),
{
    if path.len() == 0 {
        apply_at(n, op)
    } else {
        let key = path[0];
        let rest = path.drop_first();
        match n {
            NodeView::Text(_) => None,
            NodeView::Null => match walk_spec(NodeView::Null, rest, op) {
                None => None,
                Some(c) => Some(NodeView::Object(obj_set(Seq::empty(), key, c))),
            },
            NodeView::Object(es) => match find_pair(es, key) {
                Some(j) => match walk_spec(es[j].1, rest, op) {
                    None => None,
                    Some(c) => Some(NodeView::Object(es.update(j, (es[j].0, c)))),
                },
                None => match walk_spec(NodeView::Null, rest, op) {
                    None => None,
                    Some(c) => Some(NodeView::Object(es.push((key, c)))),
                },
            },
        }
    }
}

/// The executable counterpart of [`TreeOp`].
pub enum EditOp {
    OpenPlain(String),
    OpenAttrs(String, Vec<XmlAttribute>),
    Chars(String),
}

pub open spec fn edit_view(op: EditOp) -> TreeOp {
    match op {
        EditOp::OpenPlain(k) => TreeOp::OpenPlain(k@),
        EditOp::OpenAttrs(k, attrs) => TreeOp::OpenAttrs(k@, attrs_pairs(attrs@)),
        EditOp::Chars(t) => TreeOp::Chars(t@),
    }
}

} // verus!
