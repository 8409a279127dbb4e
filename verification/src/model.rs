//! The element model: immutable value types carried by structural events.

use vstd::prelude::*;

verus! {

/// One attribute of an element: a name and a string value.
pub struct XmlAttribute {
    pub name: String,
    pub value: String,
}

/// An element carried by an open-element event: a name and an ordered
/// sequence of attributes. Attribute order is significant for XML emission.
pub struct XmlElement {
    pub name: String,
    pub attributes: Vec<XmlAttribute>,
}

impl XmlAttribute {
    pub open spec fn view_pair(&self) -> (Seq<char>, Seq<char>) {
        (self.name@, self.value@)
    }
}

/// An attribute list as a sequence of (name, value) character sequences.
pub open spec fn attrs_pairs(attrs: Seq<XmlAttribute>) -> Seq<(Seq<char>, Seq<char>)> {
    attrs.map_values(|a: XmlAttribute| a.view_pair())
}

impl XmlElement {
    /// The attributes as a sequence of (name, value) character sequences.
    pub open spec fn attrs_view(&self) -> Seq<(Seq<char>, Seq<char>)> {
        attrs_pairs(self.attributes@)
    }
}

} // verus!
