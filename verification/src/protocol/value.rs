use vstd::prelude::*;

verus! {

/// A stored scalar, or a sequence of them.
///
/// A float is carried as its shortest round-trip decimal text, so that values
/// stay comparable and printable without floating-point arithmetic.
#[derive(Debug)]
pub enum Value {
    String(String),
    Integer(i32),
    Float(String),
    Boolean(bool),
    Array(Vec<Value>),
    Empty,
}

/// The mathematical content of a [`Value`].
pub enum ValueModel {
    String(Seq<char>),
    Integer(int),
    Float(Seq<char>),
    Boolean(bool),
    Array(Seq<ValueModel>),
    Empty,
}

pub open spec fn value_model(v: Value) -> ValueModel
    decreases v,
{
    match v {
        Value::String(s) => ValueModel::String(s@),
        Value::Integer(i) => ValueModel::Integer(i as int),
        Value::Float(f) => ValueModel::Float(f@),
        Value::Boolean(b) => ValueModel::Boolean(b),
        Value::Array(items) => ValueModel::Array(value_models(items@)),
        Value::Empty => ValueModel::Empty,
    }
}

/// The models of the items of a sequence, in order.
pub open spec fn value_models(items: Seq<Value>) -> Seq<ValueModel>
    decreases items,
{
    Seq::new(
        items.len(),
        |i: int|
            if 0 <= i < items.len() {
                value_model(items[i])
            } else {
                ValueModel::Empty
            },
    )
}

impl View for Value {
    type V = ValueModel;

    open spec fn view(&self) -> ValueModel {
        value_model(*self)
    }
}

impl Value {
    /// A deep copy with the same content.
    #[verifier::loop_isolation(false)]
    pub fn duplicate(&self) -> (r: Value)
        ensures
            r@ == self@,
        decreases self,
    {
        match self {
            Value::String(s) => Value::String(s.clone()),
            Value::Integer(i) => Value::Integer(*i),
            Value::Float(f) => Value::Float(f.clone()),
            Value::Boolean(b) => Value::Boolean(*b),
            Value::Array(items) => {
                let mut copy: Vec<Value> = Vec::new();
                let mut i: usize = 0;
                while i < items.len()
                    invariant
                        i <= items@.len(),
                        copy@.len() == i,
                        forall|j: int| 0 <= j < i ==> (#[trigger] copy@[j])@ == items@[j]@,
                    decreases items@.len() - i,
                {
                    let item = items[i].duplicate();
                    copy.push(item);
                    i = i + 1;
                }
                proof {
                    assert(value_models(copy@) =~= value_models(items@));
                }
                Value::Array(copy)
            },
            Value::Empty => Value::Empty,
        }
    }

    /// Whether two values have the same content.
    #[verifier::loop_isolation(false)]
    pub fn equals(&self, other: &Value) -> (same: bool)
        ensures
            same == (self@ == other@),
        decreases self,
    {
        match (self, other) {
            (Value::String(a), Value::String(b)) => *a == *b,
            (Value::Integer(a), Value::Integer(b)) => *a == *b,
            (Value::Float(a), Value::Float(b)) => *a == *b,
            (Value::Boolean(a), Value::Boolean(b)) => *a == *b,
            (Value::Array(a), Value::Array(b)) => {
                if a.len() != b.len() {
                    proof {
                        assert(value_models(a@).len() != value_models(b@).len());
                    }
                    return false;
                }
                let mut i: usize = 0;
                while i < a.len()
                    invariant
                        i <= a@.len(),
                        a@.len() == b@.len(),
                        forall|j: int| 0 <= j < i ==> (#[trigger] a@[j])@ == b@[j]@,
                    decreases a@.len() - i,
                {
                    if !a[i].equals(&b[i]) {
                        proof {
                            assert(value_models(a@)[i as int] != value_models(b@)[i as int]);
                        }
                        return false;
                    }
                    i = i + 1;
                }
                proof {
                    assert(value_models(a@) =~= value_models(b@));
                }
                true
            },
            (Value::Empty, Value::Empty) => true,
            _ => false,
        }
    }
}

impl Clone for Value {
    fn clone(&self) -> (r: Value)
        ensures
            r@ == self@,
    {
        self.duplicate()
    }
}

} // verus!
