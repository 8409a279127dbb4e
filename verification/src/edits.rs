//! Executable edits on the document tree, verified against the
//! specification walk in [`crate::node`].

use vstd::prelude::*;

use crate::model::XmlAttribute;
use crate::model::attrs_pairs;
use crate::node::EditOp;
use crate::node::Node;
use crate::node::NodeView;
use crate::node::apply_at;
use crate::node::attrs_entries;
use crate::node::edit_view;
use crate::node::entries_view;
use crate::node::find_pair;
use crate::node::lemma_entries_view_index;
use crate::node::lemma_entries_view_len;
use crate::node::lemma_find_pair;
use crate::node::node_view;
use crate::node::obj_set;
use crate::node::set_attrs;
use crate::node::walk_spec;
use crate::node::attrs_object;
use vstd::pervasive::VecAdditionalExecFns;

verus! {

broadcast use lemma_entries_view_len, lemma_entries_view_index;

/// The first entry whose key equals `key`, by string comparison.
fn entries_find(es: &Vec<(String, Node)>, key: &String) -> (r: Option<usize>)
    ensures
        match r {
            Some(j) => find_pair(entries_view(es@), key@) == Some(j as int),
            None => find_pair(entries_view(es@), key@) is None,
        },
{
    let n = es.len();
    let mut j: usize = 0;
    while j < n
        invariant
            j <= n,
            n == es@.len(),
            forall|m: int| 0 <= m < j ==> es@[m].0@ != key@,
        decreases n - j,
    {
        if es[j].0 == *key {
            proof {
                let ev = entries_view(es@);
                lemma_find_pair(ev, key@);
                assert(ev[j as int] == (es@[j as int].0@, node_view(es@[j as int].1)));
                match find_pair(ev, key@) {
                    None => {
                        assert(false);
                    },
                    Some(j0) => {
                        if j0 < j as int {
                            assert(ev[j0] == (es@[j0].0@, node_view(es@[j0].1)));
                            assert(false);
                        }
                    },
                }
            }
            return Some(j);
        }
        j += 1;
    }
    proof {
        let ev = entries_view(es@);
        lemma_find_pair(ev, key@);
        match find_pair(ev, key@) {
            None => {},
            Some(j0) => {
                assert(ev[j0] == (es@[j0].0@, node_view(es@[j0].1)));
                assert(false);
            },
        }
    }
    None
}

/// Insert or overwrite `key` with `v`: at the first match in place, else
/// appended at the end.
fn entries_set(es: &mut Vec<(String, Node)>, key: String, v: Node)
    ensures
        entries_view(final(es)@) == obj_set(entries_view(old(es)@), key@, node_view(v)),
{
    proof {
        lemma_find_pair(entries_view(old(es)@), key@);
    }
    match entries_find(es, &key) {
        Some(j) => {
            es.set(j, (key, v));
            assert(entries_view(es@) =~= obj_set(
                entries_view(old(es)@),
                key@,
                node_view(v),
            ));
        },
        None => {
            es.push((key, v));
            assert(entries_view(es@) =~= obj_set(
                entries_view(old(es)@),
                key@,
                node_view(v),
            ));
        },
    }
}

/// The `"#attributes"` node for an element's attribute list.
fn build_attrs_node(attrs: &Vec<XmlAttribute>) -> (r: Node)
    ensures
        node_view(r) == attrs_object(attrs_pairs(attrs@)),
{
    let ghost pairs = attrs_pairs(attrs@);
    let mut es: Vec<(String, Node)> = Vec::new();
    let n = attrs.len();
    let mut i: usize = 0;
    assert(entries_view(es@) =~= attrs_entries(pairs.take(0)));
    while i < n
        invariant
            i <= n,
            n == attrs@.len(),
            pairs == attrs_pairs(attrs@),
            pairs.len() == n,
            entries_view(es@) == attrs_entries(pairs.take(i as int)),
        decreases n - i,
    {
        let a = &attrs[i];
        entries_set(&mut es, a.name.clone(), Node::Text(a.value.clone()));
        proof {
            assert(pairs.take(i + 1).drop_last() =~= pairs.take(i as int));
            assert(pairs.take(i + 1).last() == pairs[i as int]);
        }
        i += 1;
    }
    proof {
        assert(pairs.take(n as int) =~= pairs);
    }
    Node::Object(es)
}

/// Apply `op` at the destination node, which is consumed and rebuilt.
/// The second component reports success; on failure the node is returned
/// with its shape unchanged.
fn apply_edit(node: Node, op: &EditOp) -> (r: (Node, bool))
    ensures
        match apply_at(node_view(node), edit_view(*op)) {
            Some(t2) => r.1 && node_view(r.0) == t2,
            None => !r.1 && node_view(r.0) == node_view(node),
        },
{
    match op {
        EditOp::OpenPlain(key) => match node {
            Node::Text(s) => (Node::Text(s), false),
            Node::Null => {
                let mut es: Vec<(String, Node)> = Vec::new();
                assert(entries_view(es@) =~= Seq::<(Seq<char>, NodeView)>::empty());
                entries_set(&mut es, key.clone(), Node::Null);
                (Node::Object(es), true)
            },
            Node::Object(mut es) => {
                entries_set(&mut es, key.clone(), Node::Null);
                (Node::Object(es), true)
            },
        },
        EditOp::OpenAttrs(key, attrs) => match node {
            Node::Text(s) => (Node::Text(s), false),
            Node::Null => {
                let child = attrs_only_child(attrs);
                let mut es: Vec<(String, Node)> = Vec::new();
                assert(entries_view(es@) =~= Seq::<(Seq<char>, NodeView)>::empty());
                entries_set(&mut es, key.clone(), child);
                (Node::Object(es), true)
            },
            Node::Object(mut es) => {
                match entries_find(&es, key) {
                    Some(j) => {
                        proof {
                            lemma_find_pair(entries_view(es@), key@);
                        }
                        let ghost es0 = es@;
                        let mut pair = (String::new(), Node::Null);
                        es.set_and_swap(j, &mut pair);
                        let (k0, child) = pair;
                        match child {
                            Node::Text(s) => {
                                es.set(j, (k0, Node::Text(s)));
                                assert(entries_view(es@) =~= entries_view(es0));
                                (Node::Object(es), false)
                            },
                            Node::Null => {
                                let c2 = attrs_only_child(attrs);
                                es.set(j, (k0, c2));
                                assert(entries_view(es@) =~= obj_set(
                                    entries_view(es0),
                                    key@,
                                    node_view(es@[j as int].1),
                                ));
                                (Node::Object(es), true)
                            },
                            Node::Object(mut ces) => {
                                entries_set(&mut ces, "#attributes".to_owned(), build_attrs_node(attrs));
                                let c2 = Node::Object(ces);
                                es.set(j, (k0, c2));
                                assert(entries_view(es@) =~= obj_set(
                                    entries_view(es0),
                                    key@,
                                    node_view(es@[j as int].1),
                                ));
                                (Node::Object(es), true)
                            },
                        }
                    },
                    None => {
                        proof {
                            lemma_find_pair(entries_view(es@), key@);
                        }
                        let ghost es0 = es@;
                        let child = attrs_only_child(attrs);
                        es.push((key.clone(), child));
                        assert(entries_view(es@) =~= obj_set(
                            entries_view(es0),
                            key@,
                            node_view(es@[es@.len() - 1].1),
                        ));
                        (Node::Object(es), true)
                    },
                }
            },
        },
        EditOp::Chars(text) => match node {
            Node::Null => (Node::Text(text.clone()), true),
            Node::Text(s) => (Node::Text(s), false),
            Node::Object(mut es) => {
                entries_set(&mut es, "#text".to_owned(), Node::Text(text.clone()));
                (Node::Object(es), true)
            },
        },
    }
}

/// A fresh object whose only entry is the `"#attributes"` object: the shape
/// a placeholder takes when an attribute-bearing element resolves it.
fn attrs_only_child(attrs: &Vec<XmlAttribute>) -> (r: Node)
    ensures
        node_view(r) == set_attrs(NodeView::Null, attrs_pairs(attrs@)).unwrap(),
{
    let a = build_attrs_node(attrs);
    let mut ces: Vec<(String, Node)> = Vec::new();
    assert(entries_view(ces@) =~= Seq::<(Seq<char>, NodeView)>::empty());
    entries_set(&mut ces, "#attributes".to_owned(), a);
    Node::Object(ces)
}

/// Walk the path from `stack[i]` on and apply `op` at the destination.
/// The node is consumed and rebuilt; on failure its shape is unchanged.
pub(crate) fn walk_edit(node: Node, stack: &Vec<String>, i: usize, op: &EditOp) -> (r: (Node, bool))
    requires
        i <= stack@.len(),
    ensures
        match walk_spec(node_view(node), stack.deep_view().skip(i as int), edit_view(*op)) {
            Some(t2) => r.1 && node_view(r.0) == t2,
            None => !r.1 && node_view(r.0) == node_view(node),
        },
    decreases stack@.len() - i,
{
    let ghost rest = stack.deep_view().skip(i as int);
    if i == stack.len() {
        assert(rest =~= Seq::<Seq<char>>::empty());
        apply_edit(node, op)
    } else {
        let key: &String = &stack[i];
        proof {
            assert(stack.deep_view()[i as int] == stack@[i as int]@);
            assert(rest[0] == key@);
            assert(rest.drop_first() =~= stack.deep_view().skip(i + 1));
        }
        match node {
            Node::Text(s) => (Node::Text(s), false),
            Node::Null => {
                let (child, ok) = walk_edit(Node::Null, stack, i + 1, op);
                if ok {
                    let mut es: Vec<(String, Node)> = Vec::new();
                    assert(entries_view(es@) =~= Seq::<(Seq<char>, NodeView)>::empty());
                    entries_set(&mut es, key.clone(), child);
                    (Node::Object(es), true)
                } else {
                    (Node::Null, false)
                }
            },
            Node::Object(mut es) => {
                match entries_find(&es, key) {
                    Some(j) => {
                        proof {
                            lemma_find_pair(entries_view(es@), key@);
                        }
                        let ghost es0 = es@;
                        let mut pair = (String::new(), Node::Null);
                        es.set_and_swap(j, &mut pair);
                        let (k0, c0) = pair;
                        let (child2, ok) = walk_edit(c0, stack, i + 1, op);
                        es.set(j, (k0, child2));
                        proof {
                            if ok {
                                assert(entries_view(es@) =~= entries_view(es0).update(
                                    j as int,
                                    (entries_view(es0)[j as int].0, node_view(es@[j as int].1)),
                                ));
                            } else {
                                assert(entries_view(es@) =~= entries_view(es0));
                            }
                        }
                        (Node::Object(es), ok)
                    },
                    None => {
                        proof {
                            lemma_find_pair(entries_view(es@), key@);
                        }
                        let ghost es0 = es@;
                        let (child, ok) = walk_edit(Node::Null, stack, i + 1, op);
                        if ok {
                            es.push((key.clone(), child));
                            assert(entries_view(es@) =~= entries_view(es0).push(
                                (key@, node_view(es@[es@.len() - 1].1)),
                            ));
                            (Node::Object(es), true)
                        } else {
                            (Node::Object(es), false)
                        }
                    },
                }
            },
        }
    }
}


} // verus!
