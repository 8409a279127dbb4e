//! The tree adapter: materializes the event stream as a JSON document.
//!
//! State: the document root, the path stack of currently open elements, and
//! the end-of-stream flag. Every mutating visit re-walks the path from the
//! root, so the tree's shape after each call is pinned by
//! [`crate::node::walk_spec`]. Finalization pretty-prints the root through
//! serde_json and hands the sink back.
//!
//! A known limitation: two sibling elements resolving to the same key at
//! the same nesting level overwrite one another in the object map; there
//! is no array-valued merge of repeated elements.

use vstd::prelude::*;

use crate::errors::OutputError;
use crate::model::XmlAttribute;
use crate::model::XmlElement;
use crate::model::attrs_pairs;
use crate::node::EditOp;
use crate::node::Node;
use crate::node::NodeView;
use crate::node::TreeOp;
use crate::node::edit_view;
use crate::node::entries_view;
use crate::node::find_pair;
use crate::node::lemma_find_pair;
use crate::node::node_view;
use crate::node::op_key;
use crate::node::walk_spec;
use crate::edits::walk_edit;
use crate::xml_output::BinXMLOutput;

verus! {

/// Declares serde_json's value type: the mirror into which the finished
/// document tree is converted for serialization.
#[verifier::external_type_specification]
#[verifier::external_body]
pub struct ExJsonValue(serde_json::Value);

/// The serde_json value a document tree of the given shape converts to.
pub uninterp spec fn json_value_of(n: NodeView) -> serde_json::Value;

/// The UTF-8 text serde_json pretty-printing produces for a value.
pub uninterp spec fn pretty_bytes_of(v: serde_json::Value) -> Seq<u8>;

/// Relies on serde_json::Value and serde_json::Map construction: the body
/// mirrors the node one for one (a placeholder to `Value::Null`, a leaf to
/// `Value::String`, entries to object members with a later duplicate key
/// overwriting an earlier one, as `Map::insert` does), so the result is a
/// function of the node's shape alone.
#[verifier::external_body]
fn node_to_value(n: &Node) -> (r: serde_json::Value)
    ensures
        r == json_value_of(node_view(*n)),
{
    match n {
        Node::Null => serde_json::Value::Null,
        Node::Text(s) => serde_json::Value::String(s.clone()),
        Node::Object(es) => {
            let mut m = serde_json::Map::new();
            for (k, v) in es.iter() {
                m.insert(k.clone(), node_to_value(v));
            }
            serde_json::Value::Object(m)
        },
    }
}

/// Relies on serde_json::to_vec_pretty: pretty-prints the value as UTF-8
/// JSON text; the text depends on the value alone.
#[verifier::external_body]
fn value_to_pretty(v: &serde_json::Value) -> (r: Result<Vec<u8>, serde_json::Error>)
    ensures
        r matches Ok(b) ==> b@ == pretty_bytes_of(*v),
{
    serde_json::to_vec_pretty(v)
}

/// Relies on std::io::Write::write_all: writes the entire buffer to the
/// sink, or reports the first error the sink raised.
#[verifier::external_body]
fn sink_write<W: std::io::Write>(w: &mut W, bytes: &Vec<u8>) -> (r: Result<(), std::io::Error>) {
    w.write_all(bytes.as_slice())
}

/// The edit an open-element event performs: a `Data` element is keyed by
/// the value of its `Name` attribute (`None` when that attribute is
/// missing), an attribute-free element registers a placeholder under its
/// own name, and an attribute-bearing element becomes an object carrying
/// an `"#attributes"` entry.
pub open spec fn open_op(name: Seq<char>, attrs: Seq<(Seq<char>, Seq<char>)>) -> Option<TreeOp> {
    if name == "Data"@ {
        match find_pair(attrs, "Name"@) {
            None => None,
            Some(j) => Some(TreeOp::OpenPlain(attrs[j].1)),
        }
    } else if attrs.len() == 0 {
        Some(TreeOp::OpenPlain(name))
    } else {
        Some(TreeOp::OpenAttrs(name, attrs))
    }
}

/// The first attribute carrying `name`, by string comparison.
fn find_attr(attrs: &Vec<XmlAttribute>, name: &String) -> (r: Option<usize>)
    ensures
        match r {
            Some(j) => find_pair(attrs_pairs(attrs@), name@) == Some(j as int) && j < attrs@.len(),
            None => find_pair(attrs_pairs(attrs@), name@) is None,
        },
{
    let n = attrs.len();
    let mut j: usize = 0;
    while j < n
        invariant
            j <= n,
            n == attrs@.len(),
            forall|m: int| 0 <= m < j ==> attrs@[m].name@ != name@,
        decreases n - j,
    {
        if attrs[j].name == *name {
            proof {
                let av = attrs_pairs(attrs@);
                lemma_find_pair(av, name@);
                assert(av[j as int] == attrs@[j as int].view_pair());
                match find_pair(av, name@) {
                    None => {
                        assert(false);
                    },
                    Some(j0) => {
                        if j0 < j as int {
                            assert(av[j0] == attrs@[j0].view_pair());
                            assert(false);
                        }
                    },
                }
            }
            return Some(j);
        }
        j += 1;
    }
    proof {
        let av = attrs_pairs(attrs@);
        lemma_find_pair(av, name@);
        match find_pair(av, name@) {
            None => {},
            Some(j0) => {
                assert(av[j0] == attrs@[j0].view_pair());
                assert(false);
            },
        }
    }
    None
}

/// A by-value copy of an attribute list with the same names and values.
fn clone_attrs(attrs: &Vec<XmlAttribute>) -> (r: Vec<XmlAttribute>)
    ensures
        attrs_pairs(r@) == attrs_pairs(attrs@),
{
    let n = attrs.len();
    let mut out: Vec<XmlAttribute> = Vec::new();
    let mut i: usize = 0;
    while i < n
        invariant
            i <= n,
            n == attrs@.len(),
            out@.len() == i,
            forall|m: int| 0 <= m < i ==> (#[trigger] out@[m]).view_pair() == attrs@[m].view_pair(),
        decreases n - i,
    {
        let a = &attrs[i];
        out.push(XmlAttribute { name: a.name.clone(), value: a.value.clone() });
        i += 1;
    }
    proof {
        assert(attrs_pairs(out@) =~= attrs_pairs(attrs@));
    }
    out
}

/// The tree adapter: builds a JSON document from the event stream and
/// serializes it at finalization.
pub struct SerdeOutput<W> {
    writer: W,
    map: Node,
    stack: Vec<String>,
    eof_reached: bool,
}

impl<W> SerdeOutput<W> {
    /// The shape of the document tree built so far.
    pub closed spec fn tree(&self) -> NodeView {
        node_view(self.map)
    }

    /// The keys of the currently open elements, outermost first.
    pub closed spec fn path(&self) -> Seq<Seq<char>> {
        self.stack.deep_view()
    }

    /// Whether end-of-stream has been observed.
    pub closed spec fn eof(&self) -> bool {
        self.eof_reached
    }
}

impl<W: std::io::Write> SerdeOutput<W> {
    /// Builds an adapter owning `target`, with an empty document and an
    /// empty path.
    pub fn with_writer(target: W) -> (r: Self)
        ensures
            r.tree() == NodeView::Object(Seq::<(Seq<char>, NodeView)>::empty()),
            r.path() == Seq::<Seq<char>>::empty(),
            !r.eof(),
    {
        let map = Node::Object(Vec::new());
        let stack: Vec<String> = Vec::new();
        let r = SerdeOutput { writer: target, map, stack, eof_reached: false };
        proof {
            assert(entries_view(Seq::<(String, Node)>::empty()) =~= Seq::<(
                Seq<char>,
                NodeView,
            )>::empty());
            assert(r.path() =~= Seq::<Seq<char>>::empty());
        }
        r
    }

    /// Serializes the document and hands the sink back: only legal after
    /// end-of-stream, and only with every element closed again.
    pub fn into_writer(self) -> (r: Result<W, OutputError>)
        ensures
            !self.eof() ==> (r matches Err(e) && e is IncompleteOutput),
            self.eof() && self.path().len() > 0 ==> (r matches Err(e) && e is InvalidState),
            self.eof() && self.path().len() == 0 ==> (r is Ok || (r matches Err(e) && (
            e is Serialization || e is Io))),
    {
        if !self.eof_reached {
            return Err(OutputError::IncompleteOutput);
        }
        if self.stack.len() > 0 {
            return Err(OutputError::InvalidState);
        }
        let mut writer = self.writer;
        let map = self.map;
        let value = node_to_value(&map);
        match value_to_pretty(&value) {
            Err(e) => Err(OutputError::Serialization(e)),
            Ok(bytes) => match sink_write(&mut writer, &bytes) {
                Err(e) => Err(OutputError::Io(e)),
                Ok(_) => Ok(writer),
            },
        }
    }

    /// No output is produced for the start marker; the call is only
    /// refused after end-of-stream.
    pub fn visit_start_of_stream(&mut self) -> (r: Result<(), OutputError>)
        ensures
            *final(self) == *old(self),
            old(self).eof() ==> (r matches Err(e) && e is InvalidState),
            !old(self).eof() ==> r is Ok,
    {
        if self.eof_reached {
            return Err(OutputError::InvalidState);
        }
        Ok(())
    }

    /// Records that the stream is complete; structural checks are left to
    /// finalization.
    pub fn visit_end_of_stream(&mut self) -> (r: Result<(), OutputError>)
        ensures
            r is Ok,
            final(self).eof(),
            final(self).tree() == old(self).tree(),
            final(self).path() == old(self).path(),
    {
        self.eof_reached = true;
        Ok(())
    }

    /// Registers the element's key under the current path and pushes it;
    /// the tree changes exactly as the walk specification says.
    pub fn visit_open_start_element(&mut self, element: &XmlElement) -> (r: Result<
        (),
        OutputError,
    >)
        ensures
            old(self).eof() ==> (r matches Err(e) && e is InvalidState) && *final(self) == *old(self),
            !old(self).eof() && open_op(element.name@, element.attrs_view()) is None ==> (
            r matches Err(e) && e is InvariantViolation) && *final(self) == *old(self),
            !old(self).eof() ==> (open_op(element.name@, element.attrs_view()) matches Some(top)
                ==> {
                &&& final(self).path() == old(self).path().push(op_key(top))
                &&& final(self).eof() == old(self).eof()
                &&& match walk_spec(old(self).tree(), old(self).path(), top) {
                    Some(t2) => r is Ok && final(self).tree() == t2,
                    None => (r matches Err(e) && e is InvariantViolation) && final(self).tree()
                        == old(self).tree(),
                }
            }),
    {
        if self.eof_reached {
            return Err(OutputError::InvalidState);
        }
        let data_lit: String = "Data".to_owned();
        let op: EditOp;
        if element.name == data_lit {
            let name_lit: String = "Name".to_owned();
            match find_attr(&element.attributes, &name_lit) {
                None => {
                    return Err(OutputError::InvariantViolation);
                },
                Some(j) => {
                    op = EditOp::OpenPlain(element.attributes[j].value.clone());
                },
            }
        } else if element.attributes.len() == 0 {
            op = EditOp::OpenPlain(element.name.clone());
        } else {
            op = EditOp::OpenAttrs(element.name.clone(), clone_attrs(&element.attributes));
        }
        proof {
            assert(edit_view(op) == open_op(element.name@, element.attrs_view()).unwrap());
        }
        let key_for_stack: String = match &op {
            EditOp::OpenPlain(k) => k.clone(),
            EditOp::OpenAttrs(k, _) => k.clone(),
            EditOp::Chars(t) => t.clone(),
        };
        let mut m = Node::Null;
        core::mem::swap(&mut m, &mut self.map);
        let ghost path0 = self.stack.deep_view();
        let (m2, ok) = walk_edit(m, &self.stack, 0, &op);
        self.map = m2;
        proof {
            assert(path0.skip(0) =~= path0);
        }
        self.stack.push(key_for_stack);
        proof {
            assert(self.stack.deep_view() =~= path0.push(op_key(edit_view(op))));
        }
        if ok {
            Ok(())
        } else {
            Err(OutputError::InvariantViolation)
        }
    }

    /// Pops the innermost open element; no content is touched.
    pub fn visit_close_element(&mut self) -> (r: Result<(), OutputError>)
        ensures
            old(self).eof() ==> (r matches Err(e) && e is InvalidState) && *final(self) == *old(self),
            !old(self).eof() ==> r is Ok && final(self).tree() == old(self).tree() && final(self).eof() == old(self).eof() && final(self).path() == (if old(self).path().len() == 0 {
                old(self).path()
            } else {
                old(self).path().drop_last()
            }),
    {
        if self.eof_reached {
            return Err(OutputError::InvalidState);
        }
        let ghost path0 = self.stack.deep_view();
        let _popped = self.stack.pop();
        proof {
            if path0.len() == 0 {
                assert(self.stack.deep_view() =~= path0);
            } else {
                assert(self.stack.deep_view() =~= path0.drop_last());
            }
        }
        Ok(())
    }

    /// Writes character data at the node the current path leads to: a
    /// placeholder becomes the leaf itself, an object gains its `"#text"`
    /// entry, and a leaf already holding text is a structural violation.
    pub fn visit_characters(&mut self, value: &str) -> (r: Result<(), OutputError>)
        ensures
            old(self).eof() ==> (r matches Err(e) && e is InvalidState) && *final(self) == *old(self),
            !old(self).eof() ==> {
                &&& final(self).path() == old(self).path()
                &&& final(self).eof() == old(self).eof()
                &&& match walk_spec(old(self).tree(), old(self).path(), TreeOp::Chars(value@)) {
                    Some(t2) => r is Ok && final(self).tree() == t2,
                    None => (r matches Err(e) && e is InvariantViolation) && final(self).tree()
                        == old(self).tree(),
                }
            },
    {
        if self.eof_reached {
            return Err(OutputError::InvalidState);
        }
        let op = EditOp::Chars(value.to_owned());
        let mut m = Node::Null;
        core::mem::swap(&mut m, &mut self.map);
        let (m2, ok) = walk_edit(m, &self.stack, 0, &op);
        self.map = m2;
        proof {
            assert(self.stack.deep_view().skip(0) =~= self.stack.deep_view());
        }
        if ok {
            Ok(())
        } else {
            Err(OutputError::InvariantViolation)
        }
    }

    /// CDATA sections are not supported by this adapter.
    pub fn visit_cdata_section(&mut self) -> (r: Result<(), OutputError>)
        ensures
            (r matches Err(e) && e is Unsupported),
            *final(self) == *old(self),
    {
        Err(OutputError::Unsupported)
    }

    /// Entity references are not supported by this adapter.
    pub fn visit_entity_reference(&mut self) -> (r: Result<(), OutputError>)
        ensures
            (r matches Err(e) && e is Unsupported),
            *final(self) == *old(self),
    {
        Err(OutputError::Unsupported)
    }

    /// Processing instructions are not supported by this adapter.
    pub fn visit_processing_instruction_target(&mut self) -> (r: Result<(), OutputError>)
        ensures
            (r matches Err(e) && e is Unsupported),
            *final(self) == *old(self),
    {
        Err(OutputError::Unsupported)
    }

    /// Processing instructions are not supported by this adapter.
    pub fn visit_processing_instruction_data(&mut self) -> (r: Result<(), OutputError>)
        ensures
            (r matches Err(e) && e is Unsupported),
            *final(self) == *old(self),
    {
        Err(OutputError::Unsupported)
    }
}

/// The protocol impl is provided at the in-memory sink; generic users
/// reach the same operations as inherent methods.
impl BinXMLOutput<Vec<u8>> for SerdeOutput<Vec<u8>> {
    closed spec fn eof(&self) -> bool {
        self.eof_reached
    }

    fn with_writer(target: Vec<u8>) -> Self {
        SerdeOutput::with_writer(target)
    }

    fn into_writer(self) -> Result<Vec<u8>, OutputError> {
        SerdeOutput::into_writer(self)
    }

    fn visit_end_of_stream(&mut self) -> Result<(), OutputError> {
        SerdeOutput::visit_end_of_stream(self)
    }

    fn visit_open_start_element(&mut self, element: &XmlElement) -> Result<(), OutputError> {
        SerdeOutput::visit_open_start_element(self, element)
    }

    fn visit_close_element(&mut self) -> Result<(), OutputError> {
        SerdeOutput::visit_close_element(self)
    }

    fn visit_characters(&mut self, value: &str) -> Result<(), OutputError> {
        SerdeOutput::visit_characters(self, value)
    }

    fn visit_cdata_section(&mut self) -> Result<(), OutputError> {
        SerdeOutput::visit_cdata_section(self)
    }

    fn visit_entity_reference(&mut self) -> Result<(), OutputError> {
        SerdeOutput::visit_entity_reference(self)
    }

    fn visit_processing_instruction_target(&mut self) -> Result<(), OutputError> {
        SerdeOutput::visit_processing_instruction_target(self)
    }

    fn visit_processing_instruction_data(&mut self) -> Result<(), OutputError> {
        SerdeOutput::visit_processing_instruction_data(self)
    }

    fn visit_start_of_stream(&mut self) -> Result<(), OutputError> {
        SerdeOutput::visit_start_of_stream(self)
    }
}

} // verus!
