//! What a graph element reports about itself.

use crate::protocol::value::{Value, ValueModel};
use vstd::prelude::*;

verus! {

/// The kind of a graph element.
#[derive(Debug, Clone, Copy, PartialEq, Eq, Structural)]
pub enum FilterableType {
    Node,
    Edge,
    Vector,
}

/// A graph element as plain data. The end points are those of an edge and
/// are empty for any other element.
pub struct ElementModel {
    pub kind: FilterableType,
    pub id: Seq<char>,
    pub label: Seq<char>,
    pub from_node: Seq<char>,
    pub to_node: Seq<char>,
    pub properties: Seq<(Seq<char>, ValueModel)>,
}

/// The models of stored properties, in their order.
pub open spec fn property_list_model(properties: Seq<(String, Value)>) -> Seq<(Seq<char>, ValueModel)> {
    Seq::new(properties.len(), |i: int| (properties[i].0@, properties[i].1@))
}

/// A graph element: it reports its kind, its id, its label, its stored
/// properties in their order, and, where it is an edge, its end points.
pub trait Filterable {
    /// The element as plain data.
    spec fn element(&self) -> ElementModel;

    fn kind(&self) -> (kind: FilterableType)
        ensures
            kind == self.element().kind,
    ;

    fn id(&self) -> (id: String)
        ensures
            id@ == self.element().id,
    ;

    fn label(&self) -> (label: String)
        ensures
            label@ == self.element().label,
    ;

    fn from_node(&self) -> (id: String)
        ensures
            id@ == self.element().from_node,
    ;

    fn to_node(&self) -> (id: String)
        ensures
            id@ == self.element().to_node,
    ;

    fn properties(&self) -> (properties: Vec<(String, Value)>)
        ensures
            property_list_model(properties@) == self.element().properties,
    ;
}

/// A copy of a property list.
pub fn copy_properties(properties: &Vec<(String, Value)>) -> (copy: Vec<(String, Value)>)
    ensures
        property_list_model(copy@) == property_list_model(properties@),
{
    let mut copy: Vec<(String, Value)> = Vec::new();
    let mut i: usize = 0;
    while i < properties.len()
        invariant
            i <= properties@.len(),
            copy@.len() == i,
            forall|j: int|
                0 <= j < i ==> (#[trigger] copy@[j]).0@ == properties@[j].0@ && copy@[j].1@
                    == properties@[j].1@,
        decreases properties@.len() - i,
    {
        let value = properties[i].1.duplicate();
        copy.push((properties[i].0.clone(), value));
        i = i + 1;
    }
    proof {
        assert(property_list_model(copy@) =~= property_list_model(properties@));
    }
    copy
}

} // verus!
