//! The stored elements of a graph.

use crate::protocol::filterable::{
    copy_properties, property_list_model, ElementModel, Filterable, FilterableType,
};
use crate::protocol::value::Value;
use vstd::prelude::*;
use vstd::string::*;

verus! {

#[derive(Debug, Clone)]
pub struct Node {
    pub id: String,
    pub label: String,
    pub properties: Vec<(String, Value)>,
}

#[derive(Debug, Clone)]
pub struct Edge {
    pub id: String,
    pub label: String,
    pub from_node: String,
    pub to_node: String,
    pub properties: Vec<(String, Value)>,
}

/// A stored embedding. Its components are the property named `data`.
#[derive(Debug, Clone)]
pub struct Vector {
    pub id: String,
    pub label: String,
    pub properties: Vec<(String, Value)>,
}

impl Filterable for Node {
    open spec fn element(&self) -> ElementModel {
        ElementModel {
            kind: FilterableType::Node,
            id: self.id@,
            label: self.label@,
            from_node: Seq::empty(),
            to_node: Seq::empty(),
            properties: property_list_model(self.properties@),
        }
    }

    fn kind(&self) -> (kind: FilterableType) {
        FilterableType::Node
    }

    fn id(&self) -> (id: String) {
        self.id.clone()
    }

    fn label(&self) -> (label: String) {
        self.label.clone()
    }

    fn from_node(&self) -> (id: String) {
        String::new()
    }

    fn to_node(&self) -> (id: String) {
        String::new()
    }

    fn properties(&self) -> (properties: Vec<(String, Value)>) {
        copy_properties(&self.properties)
    }
}

impl Filterable for Edge {
    open spec fn element(&self) -> ElementModel {
        ElementModel {
            kind: FilterableType::Edge,
            id: self.id@,
            label: self.label@,
            from_node: self.from_node@,
            to_node: self.to_node@,
            properties: property_list_model(self.properties@),
        }
    }

    fn kind(&self) -> (kind: FilterableType) {
        FilterableType::Edge
    }

    fn id(&self) -> (id: String) {
        self.id.clone()
    }

    fn label(&self) -> (label: String) {
        self.label.clone()
    }

    fn from_node(&self) -> (id: String) {
        self.from_node.clone()
    }

    fn to_node(&self) -> (id: String) {
        self.to_node.clone()
    }

    fn properties(&self) -> (properties: Vec<(String, Value)>) {
        copy_properties(&self.properties)
    }
}

impl Filterable for Vector {
    open spec fn element(&self) -> ElementModel {
        ElementModel {
            kind: FilterableType::Vector,
            id: self.id@,
            label: self.label@,
            from_node: Seq::empty(),
            to_node: Seq::empty(),
            properties: property_list_model(self.properties@),
        }
    }

    fn kind(&self) -> (kind: FilterableType) {
        FilterableType::Vector
    }

    fn id(&self) -> (id: String) {
        self.id.clone()
    }

    fn label(&self) -> (label: String) {
        self.label.clone()
    }

    fn from_node(&self) -> (id: String) {
        String::new()
    }

    fn to_node(&self) -> (id: String) {
        String::new()
    }

    fn properties(&self) -> (properties: Vec<(String, Value)>) {
        copy_properties(&self.properties)
    }
}

} // verus!
