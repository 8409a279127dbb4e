//! Stated laws of the visitor protocol, proved over the specification
//! functions that the adapters' contracts use.
//!
//! The model run here mirrors the tree adapter's contracts: an open event
//! moves the tree by [`walk_spec`] with the edit [`open_op`] selects and
//! pushes the key that [`op_key`] names, exactly as
//! `SerdeOutput::visit_open_start_element` ensures; a close event pops one
//! key, exactly as `SerdeOutput::visit_close_element` ensures. For the XML
//! adapter the balance law is immediate from `XMLOutput::into_writer`,
//! whose contract promises success whenever end-of-stream was observed.

use vstd::prelude::*;

use crate::node::EntriesView;
use crate::node::NodeView;
use crate::node::TreeOp;
use crate::node::attrs_object;
use crate::node::find_pair;
use crate::node::lemma_find_pair;
use crate::node::obj_get;
use crate::node::obj_set;
use crate::node::op_key;
use crate::node::set_attrs;
use crate::node::walk_spec;
use crate::serde_output::open_op;

verus! {

/// One event of an open/close run; an open event carries the element's
/// name and its attribute pairs.
pub enum PairEvent {
    Open(Seq<char>, Seq<(Seq<char>, Seq<char>)>),
    Close,
}

/// Opens minus closes.
pub open spec fn excess(evs: Seq<PairEvent>) -> int
    decreases evs.len(),
{
    if evs.len() == 0 {
        0
    } else {
        excess(evs.drop_last()) + (match evs.last() {
            PairEvent::Open(_, _) => 1int,
            PairEvent::Close => -1int,
        })
    }
}

/// Matched pairs: no prefix closes more than was opened before it, and
/// the whole sequence closes everything it opens.
pub open spec fn balanced(evs: Seq<PairEvent>) -> bool {
    excess(evs) == 0 && (forall|i: int|
        0 <= i <= evs.len() ==> excess(#[trigger] evs.take(i)) >= 0)
}

/// The tree adapter's model state moved by a sequence of open/close
/// events, as the visit contracts describe it; `None` reports the first
/// visit call that fails.
pub open spec fn run_pairs(
    t: NodeView,
    path: Seq<Seq<char>>,
    evs: Seq<PairEvent>,
) -> Option<(NodeView, Seq<Seq<char>>)>
    decreases evs.len(),
{
    if evs.len() == 0 {
        Some((t, path))
    } else {
        match evs[0] {
            PairEvent::Open(name, attrs) => match open_op(name, attrs) {
                None => None,
                Some(op) => match walk_spec(t, path, op) {
                    None => None,
                    Some(t2) => run_pairs(t2, path.push(op_key(op)), evs.drop_first()),
                },
            },
            PairEvent::Close => run_pairs(
                t,
                if path.len() == 0 {
                    path
                } else {
                    path.drop_last()
                },
                evs.drop_first(),
            ),
        }
    }
}

/// An open event the adapter is bound to accept: the edit is defined (a
/// `Data` element carries its `Name` attribute) and the key it registers
/// is not the reserved `"#attributes"`.
pub open spec fn pair_event_ok(ev: PairEvent) -> bool {
    match ev {
        PairEvent::Open(name, attrs) => match open_op(name, attrs) {
            Some(op) => op_key(op) != "#attributes"@,
            None => false,
        },
        PairEvent::Close => true,
    }
}

/// Away from `"#attributes"` entries the entry holds no scalar leaf.
pub open spec fn tidy_entry(e: (Seq<char>, NodeView)) -> bool
    decreases e,
{
    e.0 != "#attributes"@ ==> (!(e.1 is Text) && tidy(e.1))
}

/// Away from `"#attributes"` entries the tree holds no scalar leaf: the
/// shape every tree keeps while only open and close events have arrived.
pub open spec fn tidy(t: NodeView) -> bool
    decreases t,
{
    match t {
        NodeView::Null => true,
        NodeView::Text(_) => true,
        NodeView::Object(es) => forall|i: int| 0 <= i < es.len() ==> tidy_entry(#[trigger] es[i]),
    }
}

/// `obj_set` keeps an entry list tidy when the inserted value is sound.
proof fn lemma_tidy_obj_set(es: EntriesView, key: Seq<char>, v: NodeView)
    requires
        forall|i: int| 0 <= i < es.len() ==> tidy_entry(#[trigger] es[i]),
        key == "#attributes"@ || (!(v is Text) && tidy(v)),
    ensures
        forall|i: int|
            0 <= i < obj_set(es, key, v).len() ==> tidy_entry(#[trigger] obj_set(es, key, v)[i]),
{
    lemma_find_pair(es, key);
    let es2 = obj_set(es, key, v);
    match find_pair(es, key) {
        Some(j) => {
            assert forall|i: int| 0 <= i < es2.len() implies tidy_entry(es2[i]) by {
                if i == j {
                    assert(es2[i] == (es[j].0, v));
                } else {
                    assert(es2[i] == es[i]);
                }
            }
        },
        None => {
            assert forall|i: int| 0 <= i < es2.len() implies tidy_entry(es2[i]) by {
                if i < es.len() {
                    assert(es2[i] == es[i]);
                } else {
                    assert(es2[i] == (key, v));
                }
            }
        },
    }
}

/// On a tidy tree whose path avoids the reserved `"#attributes"` key, an
/// open edit always succeeds and leaves the tree tidy again.
proof fn lemma_open_walk(t: NodeView, path: Seq<Seq<char>>, op: TreeOp)
    requires
        tidy(t),
        !(t is Text),
        forall|j: int| 0 <= j < path.len() ==> path[j] != "#attributes"@,
        op is OpenPlain || op is OpenAttrs,
        op_key(op) != "#attributes"@,
    ensures
        walk_spec(t, path, op) matches Some(t2) && tidy(t2) && t2 is Object,
    decreases path.len(),
{
    if path.len() == 0 {
        match op {
            TreeOp::OpenPlain(key) => {
                match t {
                    NodeView::Null => {
                        lemma_tidy_obj_set(Seq::empty(), key, NodeView::Null);
                    },
                    NodeView::Object(es) => {
                        lemma_tidy_obj_set(es, key, NodeView::Null);
                    },
                    NodeView::Text(_) => {},
                }
            },
            TreeOp::OpenAttrs(key, attrs) => {
                match t {
                    NodeView::Null => {
                        lemma_tidy_obj_set(Seq::empty(), "#attributes"@, attrs_object(attrs));
                        let c = set_attrs(NodeView::Null, attrs).unwrap();
                        assert(tidy(c));
                        lemma_tidy_obj_set(Seq::empty(), key, c);
                    },
                    NodeView::Object(es) => {
                        lemma_find_pair(es, key);
                        let child = match obj_get(es, key) {
                            Some(c) => c,
                            None => NodeView::Null,
                        };
                        match find_pair(es, key) {
                            Some(j) => {
                                assert(tidy_entry(es[j]));
                            },
                            None => {},
                        }
                        assert(!(child is Text) && tidy(child));
                        match child {
                            NodeView::Null => {
                                lemma_tidy_obj_set(
                                    Seq::empty(),
                                    "#attributes"@,
                                    attrs_object(attrs),
                                );
                            },
                            NodeView::Object(ces) => {
                                lemma_tidy_obj_set(ces, "#attributes"@, attrs_object(attrs));
                            },
                            NodeView::Text(_) => {},
                        }
                        let c2 = set_attrs(child, attrs).unwrap();
                        assert(tidy(c2));
                        lemma_tidy_obj_set(es, key, c2);
                    },
                    NodeView::Text(_) => {},
                }
            },
            TreeOp::Chars(_) => {},
        }
    } else {
        let key = path[0];
        let rest = path.drop_first();
        assert forall|j: int| 0 <= j < rest.len() implies rest[j] != "#attributes"@ by {
            assert(rest[j] == path[j + 1]);
        }
        match t {
            NodeView::Text(_) => {},
            NodeView::Null => {
                lemma_open_walk(NodeView::Null, rest, op);
                let c = walk_spec(NodeView::Null, rest, op).unwrap();
                lemma_tidy_obj_set(Seq::empty(), key, c);
            },
            NodeView::Object(es) => {
                lemma_find_pair(es, key);
                match find_pair(es, key) {
                    Some(j) => {
                        assert(tidy_entry(es[j]));
                        lemma_open_walk(es[j].1, rest, op);
                        let c = walk_spec(es[j].1, rest, op).unwrap();
                        let es2 = es.update(j, (es[j].0, c));
                        assert forall|i: int| 0 <= i < es2.len() implies tidy_entry(es2[i]) by {
                            if i == j {
                                assert(es2[i] == (es[j].0, c));
                            } else {
                                assert(es2[i] == es[i]);
                            }
                        }
                    },
                    None => {
                        lemma_open_walk(NodeView::Null, rest, op);
                        let c = walk_spec(NodeView::Null, rest, op).unwrap();
                        let es2 = es.push((key, c));
                        assert forall|i: int| 0 <= i < es2.len() implies tidy_entry(es2[i]) by {
                            if i < es.len() {
                                assert(es2[i] == es[i]);
                            } else {
                                assert(es2[i] == (key, c));
                            }
                        }
                    },
                }
            },
        }
    }
}

/// `excess` seen from the left end.
proof fn lemma_excess_cons(evs: Seq<PairEvent>)
    requires
        evs.len() > 0,
    ensures
        excess(evs) == (match evs[0] {
            PairEvent::Open(_, _) => 1int,
            PairEvent::Close => -1int,
        }) + excess(evs.drop_first()),
    decreases evs.len(),
{
    if evs.len() == 1 {
        assert(evs.drop_first() =~= Seq::<PairEvent>::empty());
        assert(evs.drop_last() =~= Seq::<PairEvent>::empty());
    } else {
        lemma_excess_cons(evs.drop_last());
        assert(evs.drop_last().drop_first() =~= evs.drop_first().drop_last());
        assert(evs.drop_last()[0] == evs[0]);
        assert(evs.drop_first().last() == evs.last());
    }
}

/// The run over matched pairs never fails and moves the path depth by the
/// open/close excess.
proof fn lemma_run_pairs(t: NodeView, path: Seq<Seq<char>>, evs: Seq<PairEvent>)
    requires
        tidy(t),
        t is Object,
        forall|j: int| 0 <= j < path.len() ==> path[j] != "#attributes"@,
        forall|k: int| 0 <= k < evs.len() ==> pair_event_ok(#[trigger] evs[k]),
        forall|i: int| 0 <= i <= evs.len() ==> path.len() + excess(#[trigger] evs.take(i)) >= 0,
    ensures
        run_pairs(t, path, evs) matches Some(st) && st.1.len() == path.len() + excess(evs)
            && tidy(st.0) && st.0 is Object,
    decreases evs.len(),
{
    if evs.len() == 0 {
        assert(evs.take(0) =~= evs);
    } else {
        let evs2 = evs.drop_first();
        assert forall|k: int| 0 <= k < evs2.len() implies pair_event_ok(evs2[k]) by {
            assert(evs2[k] == evs[k + 1]);
        }
        lemma_excess_cons(evs);
        match evs[0] {
            PairEvent::Open(name, attrs) => {
                assert(pair_event_ok(evs[0]));
                let op = open_op(name, attrs).unwrap();
                lemma_open_walk(t, path, op);
                let t2 = walk_spec(t, path, op).unwrap();
                let path2 = path.push(op_key(op));
                assert forall|j: int| 0 <= j < path2.len() implies path2[j] != "#attributes"@ by {
                    if j < path.len() {
                        assert(path2[j] == path[j]);
                    } else {
                        assert(path2[j] == op_key(op));
                    }
                }
                assert forall|i: int|
                    0 <= i <= evs2.len() implies path2.len() + excess(#[trigger] evs2.take(i))
                    >= 0 by {
                    lemma_excess_cons(evs.take(i + 1));
                    assert(evs.take(i + 1)[0] == evs[0]);
                    assert(evs.take(i + 1).drop_first() =~= evs2.take(i));
                    assert(path.len() + excess(evs.take(i + 1)) >= 0);
                }
                lemma_run_pairs(t2, path2, evs2);
            },
            PairEvent::Close => {
                assert(excess(evs.take(1)) == -1) by {
                    assert(evs.take(1).len() == 1);
                    assert(evs.take(1).drop_last() =~= Seq::<PairEvent>::empty());
                    assert(excess(Seq::<PairEvent>::empty()) == 0);
                    assert(evs.take(1).last() == evs[0]);
                }
                assert(path.len() + excess(evs.take(1)) >= 0);
                assert(path.len() >= 1);
                let path2 = path.drop_last();
                assert forall|j: int| 0 <= j < path2.len() implies path2[j] != "#attributes"@ by {
                    assert(path2[j] == path[j]);
                }
                assert forall|i: int|
                    0 <= i <= evs2.len() implies path2.len() + excess(#[trigger] evs2.take(i))
                    >= 0 by {
                    lemma_excess_cons(evs.take(i + 1));
                    assert(evs.take(i + 1)[0] == evs[0]);
                    assert(evs.take(i + 1).drop_first() =~= evs2.take(i));
                    assert(path.len() + excess(evs.take(i + 1)) >= 0);
                }
                lemma_run_pairs(t, path2, evs2);
            },
        }
    }
}

/// Balance law: from a fresh tree adapter, a balanced stream of matched
/// open/close events is accepted in full and returns the path stack to
/// empty — so with the end marker last, finalization cannot fail with a
/// protocol error (`InvalidState` or `IncompleteOutput`), by the contract
/// of `SerdeOutput::into_writer`. The open events must register keys other
/// than the reserved `"#attributes"`, and a `Data` element must carry its
/// `Name` attribute: an open of `Data` without it is refused, and a key
/// named `"#attributes"` can collide with an attribute entry and make a
/// later open fail.
pub proof fn lemma_balanced_pairs_finalize(evs: Seq<PairEvent>)
    requires
        balanced(evs),
        forall|k: int| 0 <= k < evs.len() ==> pair_event_ok(#[trigger] evs[k]),
    ensures
        run_pairs(NodeView::Object(Seq::empty()), Seq::empty(), evs) matches Some(st)
            && st.1.len() == 0,
{
    lemma_run_pairs(NodeView::Object(Seq::empty()), Seq::empty(), evs);
}

} // verus!
