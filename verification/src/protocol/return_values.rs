//! The shape of a response, and the remapping of the fields of an element.

use crate::protocol::association::{
    find_last, lemma_map_of_absent, lemma_map_of_contains, lemma_map_of_last, lemma_map_of_push,
    lemma_map_of_remove_entry, map_of,
};
use crate::protocol::count::Count;
use crate::protocol::filterable::{property_list_model, ElementModel, Filterable, FilterableType};
use crate::protocol::remapping::{
    remapping_table_model, Remapping, RemappingModel, RemappingRegistry, ResponseRemapping,
    ResponseRemappingModel,
};
use crate::protocol::traversal_value::TraversalValue;
use crate::protocol::value::{Value, ValueModel};
use vstd::prelude::*;
use vstd::string::*;

verus! {

/// What a handler returns under one name: a sequence, an object, a scalar
/// or nothing.
///
/// An object is kept as a list of named fields. Where a name occurs more
/// than once the last field counts; the order of the fields means nothing
/// else.
#[derive(Debug)]
pub enum ReturnValue {
    Array(Vec<ReturnValue>),
    Object(Vec<(String, ReturnValue)>),
    Value(Value),
    Empty,
}

/// The mathematical content of a [`ReturnValue`].
pub enum ReturnValueModel {
    Array(Seq<ReturnValueModel>),
    Object(Map<Seq<char>, ReturnValueModel>),
    Value(ValueModel),
    Empty,
}

pub open spec fn return_model(v: ReturnValue) -> ReturnValueModel
    decreases v,
{
    match v {
        ReturnValue::Array(items) => ReturnValueModel::Array(return_models(items@)),
        ReturnValue::Object(fields) => ReturnValueModel::Object(map_of(field_models(fields@))),
        ReturnValue::Value(value) => ReturnValueModel::Value(value@),
        ReturnValue::Empty => ReturnValueModel::Empty,
    }
}

/// The models of the items of a sequence, in order.
pub open spec fn return_models(items: Seq<ReturnValue>) -> Seq<ReturnValueModel>
    decreases items,
{
    Seq::new(
        items.len(),
        |i: int|
            if 0 <= i < items.len() {
                return_model(items[i])
            } else {
                ReturnValueModel::Empty
            },
    )
}

/// The models of the fields of an object, in order.
pub open spec fn field_models(fields: Seq<(String, ReturnValue)>) -> Seq<
    (Seq<char>, ReturnValueModel),
>
    decreases fields,
{
    Seq::new(
        fields.len(),
        |i: int|
            if 0 <= i < fields.len() {
                (fields[i].0@, return_model(fields[i].1))
            } else {
                (Seq::empty(), ReturnValueModel::Empty)
            },
    )
}

impl View for ReturnValue {
    type V = ReturnValueModel;

    open spec fn view(&self) -> ReturnValueModel {
        return_model(*self)
    }
}

/// The stored properties as fields that hold scalars.
pub open spec fn property_fields(properties: Seq<(Seq<char>, ValueModel)>) -> Seq<
    (Seq<char>, ReturnValueModel),
> {
    Seq::new(properties.len(), |i: int| (properties[i].0, ReturnValueModel::Value(properties[i].1)))
}

/// A text as a response value.
pub open spec fn text_value(text: Seq<char>) -> ReturnValueModel {
    ReturnValueModel::Value(ValueModel::String(text))
}

/// The fields that come before the stored properties of an element: the
/// end points of an edge, the components of a vector, then id and label.
pub open spec fn leading_fields(e: ElementModel) -> Seq<(Seq<char>, ReturnValueModel)> {
    let identity = seq![("id"@, text_value(e.id)), ("label"@, text_value(e.label))];
    match e.kind {
        FilterableType::Node => identity,
        FilterableType::Edge => seq![
            ("from_node"@, text_value(e.from_node)),
            ("to_node"@, text_value(e.to_node)),
        ] + identity,
        FilterableType::Vector => seq![
            ("data"@, ReturnValueModel::Value(map_of(e.properties)["data"@])),
        ] + identity,
    }
}

/// The response value of an element: an object of its id, its label and
/// its stored properties; an edge adds its end points. A stored property
/// takes precedence over a field of the same name. A vector without
/// components yields the empty value.
pub open spec fn element_value(e: ElementModel) -> ReturnValueModel {
    if e.kind == FilterableType::Vector && !map_of(e.properties).contains_key("data"@) {
        ReturnValueModel::Empty
    } else {
        ReturnValueModel::Object(map_of(leading_fields(e) + property_fields(e.properties)))
    }
}

/// One remapping applied to the fields of an object: an exclusion removes
/// the field; a new name moves the field's value to that name, if the field
/// is there; otherwise the replacement, if the remapping carries one, is
/// stored under the field's name.
pub open spec fn apply_remapping(
    fields: Map<Seq<char>, ReturnValueModel>,
    field: Seq<char>,
    r: RemappingModel,
) -> Map<Seq<char>, ReturnValueModel> {
    if r.exclude {
        fields.remove(field)
    } else if r.new_name is Some {
        if fields.contains_key(field) {
            fields.remove(field).insert(r.new_name->Some_0, fields[field])
        } else {
            fields
        }
    } else {
        match r.return_value {
            Some(replacement) => fields.insert(field, replacement),
            None => fields,
        }
    }
}

/// The first `n` remappings of `table` applied in their order.
pub open spec fn apply_remappings(
    fields: Map<Seq<char>, ReturnValueModel>,
    table: Seq<(Seq<char>, RemappingModel)>,
    n: nat,
) -> Map<Seq<char>, ReturnValueModel>
    decreases n,
{
    if n == 0 || n > table.len() {
        fields
    } else {
        apply_remapping(apply_remappings(fields, table, (n - 1) as nat), table[n - 1].0, table[n - 1].1)
    }
}

/// A table applied to a value: to the fields of an object; any other value
/// has no fields and stays as it is.
pub open spec fn remapped(v: ReturnValueModel, table: Seq<(Seq<char>, RemappingModel)>) -> ReturnValueModel {
    match v {
        ReturnValueModel::Object(fields) => ReturnValueModel::Object(
            apply_remappings(fields, table, table.len()),
        ),
        _ => v,
    }
}

/// The empty object.
pub open spec fn empty_object() -> ReturnValueModel {
    ReturnValueModel::Object(Map::empty())
}

/// The response value of an element under a registry: where the registry
/// holds an entry for the element's id, the entry's table is applied, to
/// the element's full value where the entry spreads and to the empty object
/// where it does not; where it holds none, the element's full value.
pub open spec fn item_value(e: ElementModel, registry: Map<Seq<char>, ResponseRemappingModel>) -> ReturnValueModel {
    let entries = registry;
    if entries.contains_key(e.id) {
        if entries[e.id].should_spread {
            remapped(element_value(e), entries[e.id].remappings)
        } else {
            remapped(empty_object(), entries[e.id].remappings)
        }
    } else {
        element_value(e)
    }
}

/// The count as a scalar: the number itself where it fits a 32-bit signed
/// integer, its low 32 bits otherwise.
pub open spec fn count_value(count: usize) -> ReturnValueModel {
    ReturnValueModel::Value(ValueModel::Integer((count as i32) as int))
}

fn text_field(name: &str, text: String) -> (field: (String, ReturnValue))
    ensures
        field.0@ == name@,
        field.1@ == text_value(text@),
{
    (String::from_str(name), ReturnValue::Value(Value::String(text)))
}

/// Removes every field under `key` and hands out the value that counted.
fn take_field(fields: &mut Vec<(String, ReturnValue)>, key: &String) -> (taken: Option<ReturnValue>)
    ensures
        map_of(field_models(final(fields)@)) == map_of(field_models(old(fields)@)).remove(key@),
        match taken {
            Some(value) => map_of(field_models(old(fields)@)).contains_key(key@) && value@
                == map_of(field_models(old(fields)@))[key@],
            None => !map_of(field_models(old(fields)@)).contains_key(key@),
        },
{
    let ghost before = field_models(fields@);
    let mut taken: Option<ReturnValue> = None;
    match find_last(fields, key) {
        Some(i) => {
            proof {
                assert forall|j: int| i < j < before.len() implies (#[trigger] before[j]).0
                    != before[i as int].0 by {
                    assert(fields@[j].0@ != key@);
                }
                lemma_map_of_last(before, i as int);
                lemma_map_of_remove_entry(before, i as int);
            }
            let entry = fields.remove(i);
            proof {
                assert(field_models(fields@) =~= before.remove(i as int));
            }
            taken = Some(entry.1);
        },
        None => {
            proof {
                assert forall|j: int| 0 <= j < before.len() implies (#[trigger] before[j]).0
                    != key@ by {
                    assert(fields@[j].0@ != key@);
                }
                lemma_map_of_absent(before, key@);
            }
        },
    }
    loop
        invariant
            map_of(field_models(fields@)).remove(key@) == map_of(before).remove(key@),
        ensures
            map_of(field_models(fields@)) == map_of(before).remove(key@),
        decreases fields@.len(),
    {
        let ghost current = field_models(fields@);
        match find_last(fields, key) {
            Some(i) => {
                proof {
                    lemma_map_of_remove_entry(current, i as int);
                }
                let _ = fields.remove(i);
                proof {
                    assert(field_models(fields@) =~= current.remove(i as int));
                }
            },
            None => {
                proof {
                    assert forall|j: int| 0 <= j < current.len() implies (#[trigger] current[j]).0
                        != key@ by {
                        assert(fields@[j].0@ != key@);
                    }
                    lemma_map_of_absent(current, key@);
                }
                break;
            },
        }
    }
    taken
}

/// Stores `value` under `key`, in place of what was there.
fn put_field(fields: &mut Vec<(String, ReturnValue)>, key: String, value: ReturnValue)
    ensures
        map_of(field_models(final(fields)@)) == map_of(field_models(old(fields)@)).insert(
            key@,
            value@,
        ),
{
    let ghost before = map_of(field_models(fields@));
    let _ = take_field(fields, &key);
    proof {
        lemma_map_of_push(field_models(fields@), key@, value@);
        assert(field_models(fields@.push((key, value))) =~= field_models(fields@).push(
            (key@, value@),
        ));
        assert(before.remove(key@).insert(key@, value@) =~= before.insert(key@, value@));
    }
    fields.push((key, value));
}

impl ReturnValue {
    /// A deep copy with the same content.
    #[verifier::loop_isolation(false)]
    pub fn duplicate(&self) -> (r: ReturnValue)
        ensures
            r@ == self@,
        decreases self,
    {
        match self {
            ReturnValue::Array(items) => {
                let mut copy: Vec<ReturnValue> = Vec::new();
                let mut i: usize = 0;
                while i < items.len()
                    invariant
                        i <= items@.len(),
                        copy@.len() == i,
                        forall|j: int| 0 <= j < i ==> (#[trigger] copy@[j])@ == items@[j]@,
                    decreases items@.len() - i,
                {
                    let item = items[i].duplicate();
                    copy.push(item);
                    i = i + 1;
                }
                proof {
                    assert(return_models(copy@) =~= return_models(items@));
                }
                ReturnValue::Array(copy)
            },
            ReturnValue::Object(fields) => {
                let mut copy: Vec<(String, ReturnValue)> = Vec::new();
                let mut i: usize = 0;
                while i < fields.len()
                    invariant
                        i <= fields@.len(),
                        copy@.len() == i,
                        forall|j: int|
                            0 <= j < i ==> (#[trigger] copy@[j]).0@ == fields@[j].0@
                                && copy@[j].1@ == fields@[j].1@,
                    decreases fields@.len() - i,
                {
                    let value = fields[i].1.duplicate();
                    copy.push((fields[i].0.clone(), value));
                    i = i + 1;
                }
                proof {
                    assert(field_models(copy@) =~= field_models(fields@));
                }
                ReturnValue::Object(copy)
            },
            ReturnValue::Value(value) => ReturnValue::Value(value.duplicate()),
            ReturnValue::Empty => ReturnValue::Empty,
        }
    }

    /// Whether two values have the same content. Two objects have the same
    /// content where they hold the same fields with the same content,
    /// whatever the order of the fields.
    #[verifier::loop_isolation(false)]
    pub fn equals(&self, other: &ReturnValue) -> (same: bool)
        ensures
            same == (self@ == other@),
        decreases self,
    {
        match (self, other) {
            (ReturnValue::Array(a), ReturnValue::Array(b)) => {
                if a.len() != b.len() {
                    proof {
                        assert(return_models(a@).len() != return_models(b@).len());
                    }
                    return false;
                }
                let mut i: usize = 0;
                while i < a.len()
                    invariant
                        i <= a@.len(),
                        a@.len() == b@.len(),
                        forall|j: int| 0 <= j < i ==> (#[trigger] a@[j])@ == b@[j]@,
                    decreases a@.len() - i,
                {
                    if !a[i].equals(&b[i]) {
                        proof {
                            assert(return_models(a@)[i as int] != return_models(b@)[i as int]);
                        }
                        return false;
                    }
                    i = i + 1;
                }
                proof {
                    assert(return_models(a@) =~= return_models(b@));
                }
                true
            },
            (ReturnValue::Object(a), ReturnValue::Object(b)) => {
                let ghost left = field_models(a@);
                let ghost right = field_models(b@);
                let mut i: usize = 0;
                while i < a.len()
                    invariant
                        i <= a@.len(),
                        forall|j: int|
                            0 <= j < i ==> map_of(right).contains_key((#[trigger] left[j]).0)
                                && map_of(right)[left[j].0] == map_of(left)[left[j].0],
                    decreases a@.len() - i,
                {
                    let key = &a[i].0;
                    let here = find_last(a, key);
                    let there = find_last(b, key);
                    match (here, there) {
                        (Some(k), Some(m)) => {
                            proof {
                                assert forall|j: int| k < j < left.len() implies (
                                #[trigger] left[j]).0 != left[k as int].0 by {
                                    assert(a@[j].0@ != key@);
                                }
                                lemma_map_of_last(left, k as int);
                                assert forall|j: int| m < j < right.len() implies (
                                #[trigger] right[j]).0 != right[m as int].0 by {
                                    assert(b@[j].0@ != key@);
                                }
                                lemma_map_of_last(right, m as int);
                            }
                            if !a[k].1.equals(&b[m].1) {
                                return false;
                            }
                        },
                        (_, None) => {
                            proof {
                                assert forall|j: int| 0 <= j < right.len() implies (
                                #[trigger] right[j]).0 != key@ by {
                                    assert(b@[j].0@ != key@);
                                }
                                lemma_map_of_absent(right, key@);
                                lemma_map_of_contains(left, key@);
                                assert(left[i as int].0 == key@);
                            }
                            return false;
                        },
                        (None, Some(_)) => {
                            proof {
                                assert(a@[i as int].0@ == key@);
                            }
                            return false;
                        },
                    }
                    i = i + 1;
                }
                let mut n: usize = 0;
                while n < b.len()
                    invariant
                        n <= b@.len(),
                        forall|j: int|
                            0 <= j < n ==> map_of(left).contains_key((#[trigger] right[j]).0),
                    decreases b@.len() - n,
                {
                    let key = &b[n].0;
                    match find_last(a, key) {
                        Some(k) => {
                            proof {
                                assert forall|j: int| k < j < left.len() implies (
                                #[trigger] left[j]).0 != left[k as int].0 by {
                                    assert(a@[j].0@ != key@);
                                }
                                lemma_map_of_last(left, k as int);
                            }
                        },
                        None => {
                            proof {
                                assert forall|j: int| 0 <= j < left.len() implies (
                                #[trigger] left[j]).0 != key@ by {
                                    assert(a@[j].0@ != key@);
                                }
                                lemma_map_of_absent(left, key@);
                                lemma_map_of_contains(right, key@);
                                assert(right[n as int].0 == key@);
                            }
                            return false;
                        },
                    }
                    n = n + 1;
                }
                proof {
                    assert forall|key: Seq<char>| #[trigger]
                        map_of(left).dom().contains(key) implies map_of(right).dom().contains(key)
                        && map_of(right)[key] == map_of(left)[key] by {
                        lemma_map_of_contains(left, key);
                        let j = choose|j: int| 0 <= j < left.len() && (#[trigger] left[j]).0 == key;
                        assert(map_of(right).contains_key(left[j].0));
                    }
                    assert forall|key: Seq<char>| #[trigger]
                        map_of(right).dom().contains(key) implies map_of(left).dom().contains(
                        key,
                    ) by {
                        lemma_map_of_contains(right, key);
                        let j = choose|j: int|
                            0 <= j < right.len() && (#[trigger] right[j]).0 == key;
                        assert(map_of(left).contains_key(right[j].0));
                    }
                    assert(map_of(left).dom() =~= map_of(right).dom());
                    assert(map_of(left) =~= map_of(right));
                }
                true
            },
            (ReturnValue::Value(a), ReturnValue::Value(b)) => a.equals(b),
            (ReturnValue::Empty, ReturnValue::Empty) => true,
            _ => false,
        }
    }

    /// The value under `key` of an object; nothing for any other value.
    pub fn get(&self, key: &String) -> (found: Option<&ReturnValue>)
        ensures
            match found {
                Some(value) => self@ is Object && self@->Object_0.contains_key(key@) && value@
                    == self@->Object_0[key@],
                None => !(self@ is Object && self@->Object_0.contains_key(key@)),
            },
    {
        match self {
            ReturnValue::Object(fields) => {
                let ghost models = field_models(fields@);
                match find_last(fields, key) {
                    Some(i) => {
                        proof {
                            assert forall|j: int| i < j < models.len() implies (
                            #[trigger] models[j]).0 != models[i as int].0 by {
                                assert(fields@[j].0@ != key@);
                            }
                            lemma_map_of_last(models, i as int);
                        }
                        Some(&fields[i].1)
                    },
                    None => {
                        proof {
                            assert forall|j: int| 0 <= j < models.len() implies (
                            #[trigger] models[j]).0 != key@ by {
                                assert(fields@[j].0@ != key@);
                            }
                            lemma_map_of_absent(models, key@);
                        }
                        None
                    },
                }
            },
            _ => None,
        }
    }

    /// The object whose fields are the given properties.
    pub fn from_properties(properties: Vec<(String, Value)>) -> (r: ReturnValue)
        ensures
            r@ == ReturnValueModel::Object(
                map_of(property_fields(property_list_model(properties@))),
            ),
    {
        let mut fields: Vec<(String, ReturnValue)> = Vec::new();
        let mut i: usize = 0;
        while i < properties.len()
            invariant
                i <= properties@.len(),
                fields@.len() == i,
                forall|j: int|
                    0 <= j < i ==> (#[trigger] field_models(fields@)[j]) == property_fields(
                        property_list_model(properties@),
                    )[j],
            decreases properties@.len() - i,
        {
            let value = properties[i].1.duplicate();
            let ghost before = fields@;
            fields.push((properties[i].0.clone(), ReturnValue::Value(value)));
            proof {
                assert forall|j: int| 0 <= j < i + 1 implies (#[trigger] field_models(fields@)[j])
                    == property_fields(property_list_model(properties@))[j] by {
                    if j < i {
                        assert(field_models(before)[j] == property_fields(
                            property_list_model(properties@),
                        )[j]);
                    }
                }
            }
            i = i + 1;
        }
        proof {
            assert(field_models(fields@) =~= property_fields(property_list_model(properties@)));
        }
        ReturnValue::Object(fields)
    }

    /// The response value of a graph element.
    pub fn from_item<I: Filterable>(item: &I) -> (r: ReturnValue)
        ensures
            r@ == element_value(item.element()),
    {
        let ghost e = item.element();
        let properties = item.properties();
        let mut fields: Vec<(String, ReturnValue)> = Vec::new();
        match item.kind() {
            FilterableType::Node => {},
            FilterableType::Edge => {
                fields.push(text_field("from_node", item.from_node()));
                fields.push(text_field("to_node", item.to_node()));
            },
            FilterableType::Vector => {
                let data = String::from_str("data");
                let ghost stored = property_list_model(properties@);
                match find_last(&properties, &data) {
                    Some(i) => {
                        proof {
                            assert forall|j: int| i < j < stored.len() implies (
                            #[trigger] stored[j]).0 != stored[i as int].0 by {
                                assert(properties@[j].0@ != data@);
                            }
                            lemma_map_of_last(stored, i as int);
                        }
                        fields.push((data, ReturnValue::Value(properties[i].1.duplicate())));
                    },
                    None => {
                        proof {
                            assert forall|j: int| 0 <= j < stored.len() implies (
                            #[trigger] stored[j]).0 != data@ by {
                                assert(properties@[j].0@ != data@);
                            }
                            lemma_map_of_absent(stored, data@);
                        }
                        return ReturnValue::Empty;
                    },
                }
            },
        }
        fields.push(text_field("id", item.id()));
        fields.push(text_field("label", item.label()));
        proof {
            assert(field_models(fields@) =~= leading_fields(e));
        }
        let ghost leading = fields@;
        let mut i: usize = 0;
        while i < properties.len()
            invariant
                i <= properties@.len(),
                property_list_model(properties@) == e.properties,
                field_models(fields@) == leading_fields(e) + property_fields(e.properties).take(
                    i as int,
                ),
            decreases properties@.len() - i,
        {
            let value = properties[i].1.duplicate();
            let ghost before = fields@;
            fields.push((properties[i].0.clone(), ReturnValue::Value(value)));
            proof {
                assert(field_models(fields@) =~= field_models(before).push(
                    property_fields(e.properties)[i as int],
                ));
                assert(field_models(fields@) =~= leading_fields(e) + property_fields(
                    e.properties,
                ).take(i + 1));
            }
            i = i + 1;
        }
        proof {
            assert(property_fields(e.properties).take(i as int) =~= property_fields(e.properties));
        }
        ReturnValue::Object(fields)
    }

    /// Applies a table of remappings to an object, each remapping in the
    /// order of the table.
    pub fn mixin_remapping(self, remappings: &Vec<(String, Remapping)>) -> (r: ReturnValue)
        requires
            self@ is Object,
        ensures
            r@ == remapped(self@, remapping_table_model(remappings@)),
    {
        match self {
            ReturnValue::Object(fields) => {
                let ghost table = remapping_table_model(remappings@);
                let ghost start = map_of(field_models(fields@));
                let mut fields = fields;
                let mut i: usize = 0;
                while i < remappings.len()
                    invariant
                        i <= remappings@.len(),
                        table == remapping_table_model(remappings@),
                        map_of(field_models(fields@)) == apply_remappings(start, table, i as nat),
                    decreases remappings@.len() - i,
                {
                    let key = &remappings[i].0;
                    let remapping = &remappings[i].1;
                    proof {
                        assert(table[i as int] == (key@, remapping@));
                    }
                    if remapping.exclude {
                        let _ = take_field(&mut fields, key);
                    } else {
                        match &remapping.new_name {
                            Some(new_name) => {
                                match take_field(&mut fields, key) {
                                    Some(value) => {
                                        put_field(&mut fields, new_name.clone(), value);
                                    },
                                    None => {
                                        proof {
                                            let current = apply_remappings(start, table, i as nat);
                                            assert(current.remove(key@) =~= current);
                                        }
                                    },
                                }
                            },
                            None => match &remapping.return_value {
                                Some(replacement) => {
                                    put_field(&mut fields, key.clone(), replacement.duplicate());
                                },
                                None => {},
                            },
                        }
                    }
                    i = i + 1;
                }
                ReturnValue::Object(fields)
            },
            other => other,
        }
    }

    /// Applies a table of remappings to a value that may be no object: an
    /// object is remapped, any other value is handed back.
    pub fn remap(self, remappings: &Vec<(String, Remapping)>) -> (r: ReturnValue)
        ensures
            r@ == remapped(self@, remapping_table_model(remappings@)),
    {
        match self {
            ReturnValue::Object(fields) => ReturnValue::Object(fields).mixin_remapping(remappings),
            other => other,
        }
    }

    /// The fields of two objects in one: those of `other` take precedence.
    pub fn mixin(self, other: ReturnValue) -> (r: ReturnValue)
        requires
            self@ is Object,
            other@ is Object,
        ensures
            r@ == ReturnValueModel::Object(
                self@->Object_0.union_prefer_right(other@->Object_0),
            ),
    {
        match (self, other) {
            (ReturnValue::Object(a), ReturnValue::Object(b)) => {
                let mut fields = a;
                let ghost base = map_of(field_models(fields@));
                let ghost added = field_models(b@);
                let mut rest = b;
                let mut i: usize = 0;
                proof {
                    assert(base.union_prefer_right(map_of(added.take(0))) =~= base);
                }
                while i < rest.len()
                    invariant
                        i <= rest@.len(),
                        added == field_models(rest@),
                        map_of(field_models(fields@)) == base.union_prefer_right(
                            map_of(added.take(i as int)),
                        ),
                    decreases rest@.len() - i,
                {
                    let value = rest[i].1.duplicate();
                    let key = rest[i].0.clone();
                    proof {
                        lemma_map_of_push(field_models(fields@), key@, value@);
                        assert(field_models(fields@.push((key, value))) =~= field_models(
                            fields@,
                        ).push((key@, value@)));
                        assert(added.take(i + 1).drop_last() =~= added.take(i as int));
                        assert(added.take(i + 1).last() == (key@, value@));
                        assert(base.union_prefer_right(map_of(added.take(i as int))).insert(
                            key@,
                            value@,
                        ) =~= base.union_prefer_right(map_of(added.take(i + 1))));
                    }
                    fields.push((key, value));
                    i = i + 1;
                }
                proof {
                    assert(added.take(i as int) =~= added);
                }
                ReturnValue::Object(fields)
            },
            (a, _) => a,
        }
    }

    /// The response value of one element under one response remapping: the
    /// table is applied to the element's full value where the remapping
    /// does not spread, and to the empty object where it does.
    pub fn mixin_other<I: Filterable>(&self, item: I, secondary_properties: ResponseRemapping) -> (r:
        ReturnValue)
        ensures
            r@ == remapped(
                if secondary_properties.should_spread {
                    empty_object()
                } else {
                    element_value(item.element())
                },
                remapping_table_model(secondary_properties.remappings@),
            ),
    {
        let start = if secondary_properties.should_spread {
            empty()
        } else {
            ReturnValue::from_item(&item)
        };
        start.remap(&secondary_properties.remappings)
    }

    /// The response values of the elements a traversal reached, in their
    /// order: one value per element, each remapped as the registry says.
    pub fn process_items_with_mixin<T: Filterable>(items: Vec<T>, mixin: &RemappingRegistry) -> (r:
        ReturnValue)
        ensures
            r@ is Array,
            r@->Array_0.len() == items@.len(),
            forall|i: int|
                0 <= i < items@.len() ==> (#[trigger] r@->Array_0[i]) == item_value(
                    items@[i].element(),
                    mixin@,
                ),
    {
        let mut values: Vec<ReturnValue> = Vec::new();
        let mut i: usize = 0;
        while i < items.len()
            invariant
                i <= items@.len(),
                values@.len() == i,
                forall|j: int|
                    0 <= j < i ==> (#[trigger] values@[j])@ == item_value(
                        items@[j].element(),
                        mixin@,
                    ),
            decreases items@.len() - i,
        {
            let id = items[i].id();
            let value = match mixin.get(&id) {
                Some(entry) => {
                    if entry.should_spread {
                        ReturnValue::from_item(&items[i]).remap(&entry.remappings)
                    } else {
                        empty().remap(&entry.remappings)
                    }
                },
                None => ReturnValue::from_item(&items[i]),
            };
            values.push(value);
            i = i + 1;
        }
        let r = ReturnValue::Array(values);
        proof {
            assert(r@->Array_0 =~= return_models(values@));
        }
        r
    }

    /// The response value of what a traversal yielded: the elements of a
    /// sequence of nodes, edges or vectors, each remapped as the registry
    /// says; a count as a scalar; the empty value for the empty result and
    /// for a bare sequence of scalars.
    pub fn from_traversal_value_array_with_mixin(
        traversal_value: TraversalValue,
        mixin: &RemappingRegistry,
    ) -> (r: ReturnValue)
        ensures
            match traversal_value {
                TraversalValue::NodeArray(nodes) => {
                    &&& r@ is Array
                    &&& r@->Array_0.len() == nodes@.len()
                    &&& forall|i: int|
                        0 <= i < nodes@.len() ==> (#[trigger] r@->Array_0[i]) == item_value(
                            nodes@[i].element(),
                            mixin@,
                        )
                },
                TraversalValue::EdgeArray(edges) => {
                    &&& r@ is Array
                    &&& r@->Array_0.len() == edges@.len()
                    &&& forall|i: int|
                        0 <= i < edges@.len() ==> (#[trigger] r@->Array_0[i]) == item_value(
                            edges@[i].element(),
                            mixin@,
                        )
                },
                TraversalValue::VectorArray(vectors) => {
                    &&& r@ is Array
                    &&& r@->Array_0.len() == vectors@.len()
                    &&& forall|i: int|
                        0 <= i < vectors@.len() ==> (#[trigger] r@->Array_0[i]) == item_value(
                            vectors@[i].element(),
                            mixin@,
                        )
                },
                TraversalValue::ValueArray(_) => r@ == ReturnValueModel::Empty,
                TraversalValue::Count(count) => r@ == count_value(count.value()),
                TraversalValue::Empty => r@ == ReturnValueModel::Empty,
            },
    {
        match traversal_value {
            TraversalValue::VectorArray(vectors) => ReturnValue::process_items_with_mixin(
                vectors,
                mixin,
            ),
            TraversalValue::NodeArray(nodes) => ReturnValue::process_items_with_mixin(nodes, mixin),
            TraversalValue::EdgeArray(edges) => ReturnValue::process_items_with_mixin(edges, mixin),
            TraversalValue::ValueArray(_) => ReturnValue::Empty,
            TraversalValue::Count(count) => from_count(count),
            TraversalValue::Empty => ReturnValue::Empty,
        }
    }
}

/// The empty object.
pub fn empty() -> (r: ReturnValue)
    ensures
        r@ == empty_object(),
{
    let fields: Vec<(String, ReturnValue)> = Vec::new();
    let r = ReturnValue::Object(fields);
    proof {
        assert(field_models(fields@) =~= Seq::<(Seq<char>, ReturnValueModel)>::empty());
    }
    r
}

/// A count as a scalar.
pub fn from_count(count: Count) -> (r: ReturnValue)
    ensures
        r@ == count_value(count.value()),
{
    let n: i32 = #[verifier::truncate]
    (count.value() as i32);
    ReturnValue::Value(Value::Integer(n))
}

impl Clone for ReturnValue {
    fn clone(&self) -> (r: ReturnValue)
        ensures
            r@ == self@,
    {
        self.duplicate()
    }
}

impl Default for ReturnValue {
    fn default() -> (r: ReturnValue)
        ensures
            r@ == empty_object(),
    {
        empty()
    }
}

} // verus!
