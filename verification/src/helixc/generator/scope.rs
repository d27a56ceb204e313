//! The names a query can refer to while it is compiled.

use crate::helixc::generator::plan::name_models;
use vstd::prelude::*;

verus! {

/// The binding table of one compilation: the declared parameters, and the
/// variables that the statements so far have bound, in the order of binding.
#[derive(Debug)]
pub struct Scope {
    pub parameters: Vec<String>,
    pub variables: Vec<String>,
}

pub struct ScopeModel {
    pub parameters: Seq<Seq<char>>,
    pub variables: Seq<Seq<char>>,
}

impl View for Scope {
    type V = ScopeModel;

    open spec fn view(&self) -> ScopeModel {
        ScopeModel { parameters: name_models(self.parameters@), variables: name_models(self.variables@) }
    }
}

impl ScopeModel {
    pub open spec fn is_bound(self, name: Seq<char>) -> bool {
        self.variables.contains(name)
    }

    pub open spec fn is_parameter(self, name: Seq<char>) -> bool {
        self.parameters.contains(name)
    }

    /// The scope after `name` has been bound.
    pub open spec fn bind(self, name: Seq<char>) -> ScopeModel {
        ScopeModel { parameters: self.parameters, variables: self.variables.push(name) }
    }
}

/// Whether `name` occurs in `names`.
pub fn contains_name(names: &Vec<String>, name: &String) -> (found: bool)
    ensures
        found == name_models(names@).contains(name@),
{
    let mut i: usize = 0;
    while i < names.len()
        invariant
            i <= names.len(),
            forall|j: int| 0 <= j < i ==> (#[trigger] name_models(names@)[j]) != name@,
        decreases names.len() - i,
    {
        if names[i] == *name {
            proof {
                assert(name_models(names@)[i as int] == name@);
            }
            return true;
        }
        i = i + 1;
    }
    false
}

impl Scope {
    /// A scope with the given parameters and no variable.
    pub fn new(parameters: Vec<String>) -> (scope: Scope)
        ensures
            scope@.parameters == name_models(parameters@),
            scope@.variables == Seq::<Seq<char>>::empty(),
    {
        let scope = Scope { parameters, variables: Vec::new() };
        proof {
            assert(scope@.variables =~= Seq::<Seq<char>>::empty());
        }
        scope
    }

    pub fn is_bound(&self, name: &String) -> (found: bool)
        ensures
            found == self@.is_bound(name@),
    {
        contains_name(&self.variables, name)
    }

    pub fn is_parameter(&self, name: &String) -> (found: bool)
        ensures
            found == self@.is_parameter(name@),
    {
        contains_name(&self.parameters, name)
    }

    /// Records that `name` is bound from here on.
    pub fn bind(&mut self, name: String)
        ensures
            final(self)@ == old(self)@.bind(name@),
    {
        self.variables.push(name);
        proof {
            assert(name_models(self.variables@) =~= name_models(old(self).variables@).push(name@));
        }
    }
}

} // verus!
