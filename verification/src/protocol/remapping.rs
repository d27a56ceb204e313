//! The transform of one field, and the transforms registered for one
//! element.

use crate::protocol::association::{
    find_last, lemma_map_of_absent, lemma_map_of_last, lemma_map_of_push,
    lemma_map_of_remove_entry, map_of,
};
use crate::protocol::return_values::{ReturnValue, ReturnValueModel};
use vstd::prelude::*;

verus! {

/// The transform of one field of an element.
#[derive(Debug, Clone)]
pub struct Remapping {
    pub exclude: bool,
    pub new_name: Option<String>,
    pub return_value: Option<ReturnValue>,
}

pub struct RemappingModel {
    pub exclude: bool,
    pub new_name: Option<Seq<char>>,
    pub return_value: Option<ReturnValueModel>,
}

impl View for Remapping {
    type V = RemappingModel;

    open spec fn view(&self) -> RemappingModel {
        RemappingModel {
            exclude: self.exclude,
            new_name: match self.new_name {
                Some(name) => Some(name@),
                None => None,
            },
            return_value: match self.return_value {
                Some(value) => Some(value@),
                None => None,
            },
        }
    }
}

impl Remapping {
    pub fn new(exclude: bool, new_name: Option<String>, return_value: Option<ReturnValue>) -> (r:
        Remapping)
        ensures
            r.exclude == exclude,
            r.new_name == new_name,
            r.return_value == return_value,
    {
        Remapping { exclude, new_name, return_value }
    }
}

/// The models of a table of remappings, in its order.
pub open spec fn remapping_table_model(table: Seq<(String, Remapping)>) -> Seq<
    (Seq<char>, RemappingModel),
> {
    Seq::new(table.len(), |i: int| (table[i].0@, table[i].1@))
}

/// The transforms registered for one element: a table from field names to
/// remappings, applied in its order, and whether the element starts from
/// its full representation or from nothing.
#[derive(Debug, Clone)]
pub struct ResponseRemapping {
    pub remappings: Vec<(String, Remapping)>,
    pub should_spread: bool,
}

pub struct ResponseRemappingModel {
    pub remappings: Seq<(Seq<char>, RemappingModel)>,
    pub should_spread: bool,
}

impl View for ResponseRemapping {
    type V = ResponseRemappingModel;

    open spec fn view(&self) -> ResponseRemappingModel {
        ResponseRemappingModel {
            remappings: remapping_table_model(self.remappings@),
            should_spread: self.should_spread,
        }
    }
}

impl ResponseRemapping {
    pub fn new(remappings: Vec<(String, Remapping)>, should_spread: bool) -> (r: ResponseRemapping)
        ensures
            r.remappings == remappings,
            r.should_spread == should_spread,
    {
        ResponseRemapping { remappings, should_spread }
    }
}

/// The models of a list of registrations, in its order.
pub open spec fn registry_model(registry: Seq<(String, ResponseRemapping)>) -> Seq<
    (Seq<char>, ResponseRemappingModel),
> {
    Seq::new(registry.len(), |i: int| (registry[i].0@, registry[i].1@))
}

/// The response remappings of one request, each under the id of its
/// element. An element has at most one: a registration replaces the one
/// that was there.
#[derive(Debug)]
pub struct RemappingRegistry {
    entries: Vec<(String, ResponseRemapping)>,
}

impl View for RemappingRegistry {
    type V = Map<Seq<char>, ResponseRemappingModel>;

    closed spec fn view(&self) -> Map<Seq<char>, ResponseRemappingModel> {
        map_of(registry_model(self.entries@))
    }
}

impl RemappingRegistry {
    /// A registry without registrations.
    pub fn new() -> (registry: RemappingRegistry)
        ensures
            registry@ == Map::<Seq<char>, ResponseRemappingModel>::empty(),
    {
        let registry = RemappingRegistry { entries: Vec::new() };
        proof {
            assert(registry_model(registry.entries@) =~= Seq::<
                (Seq<char>, ResponseRemappingModel),
            >::empty());
        }
        registry
    }

    /// Registers the remapping of an element, in place of any earlier one.
    pub fn insert(&mut self, id: String, remapping: ResponseRemapping)
        ensures
            final(self)@ == old(self)@.insert(id@, remapping@),
    {
        let ghost before = map_of(registry_model(self.entries@));
        loop
            invariant
                map_of(registry_model(self.entries@)).remove(id@) == before.remove(id@),
            ensures
                map_of(registry_model(self.entries@)) == before.remove(id@),
            decreases self.entries@.len(),
        {
            let ghost current = registry_model(self.entries@);
            match find_last(&self.entries, &id) {
                Some(i) => {
                    proof {
                        lemma_map_of_remove_entry(current, i as int);
                    }
                    let _ = self.entries.remove(i);
                    proof {
                        assert(registry_model(self.entries@) =~= current.remove(i as int));
                    }
                },
                None => {
                    proof {
                        assert forall|j: int| 0 <= j < current.len() implies (
                        #[trigger] current[j]).0 != id@ by {
                            assert(self.entries@[j].0@ != id@);
                        }
                        lemma_map_of_absent(current, id@);
                    }
                    break;
                },
            }
        }
        proof {
            lemma_map_of_push(registry_model(self.entries@), id@, remapping@);
            assert(registry_model(self.entries@.push((id, remapping))) =~= registry_model(
                self.entries@,
            ).push((id@, remapping@)));
            assert(before.remove(id@).insert(id@, remapping@) =~= before.insert(id@, remapping@));
        }
        self.entries.push((id, remapping));
    }

    /// The remapping registered for an element, if there is one.
    pub fn get(&self, id: &String) -> (found: Option<&ResponseRemapping>)
        ensures
            match found {
                Some(remapping) => self@.contains_key(id@) && remapping@ == self@[id@],
                None => !self@.contains_key(id@),
            },
    {
        let ghost entries = registry_model(self.entries@);
        match find_last(&self.entries, id) {
            Some(i) => {
                proof {
                    assert forall|j: int| i < j < entries.len() implies (#[trigger] entries[j]).0
                        != entries[i as int].0 by {
                        assert(self.entries@[j].0@ != id@);
                    }
                    lemma_map_of_last(entries, i as int);
                }
                Some(&self.entries[i].1)
            },
            None => {
                proof {
                    assert forall|j: int| 0 <= j < entries.len() implies (#[trigger] entries[j]).0
                        != id@ by {
                        assert(self.entries@[j].0@ != id@);
                    }
                    lemma_map_of_absent(entries, id@);
                }
                None
            },
        }
    }
}

} // verus!
