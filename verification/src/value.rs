//! The closed union of plain values a render hook may store per module.

use vstd::prelude::*;

verus! {

/// A value passed across the hook boundary and kept in the metadata store.
///
/// `Object` carries its fields as ordered key-value pairs; values are always
/// built fresh at the boundary, so an object can never reach itself.
#[derive(Debug, PartialEq, Eq)]
pub enum Value {
    Null,
    Undefined,
    String(String),
    Number(i64),
    Object(Vec<(String, Value)>),
}

/// The mathematical shape of a `Value`: strings become character sequences
/// and object fields become a sequence of key-value pairs.
pub enum ValueView {
    Null,
    Undefined,
    String(Seq<char>),
    Number(i64),
    Object(Seq<(Seq<char>, ValueView)>),
}

pub open spec fn value_view(v: Value) -> ValueView
    decreases v,
{
    match v {
        Value::Null => ValueView::Null,
        Value::Undefined => ValueView::Undefined,
        Value::String(s) => ValueView::String(s@),
        Value::Number(n) => ValueView::Number(n),
        Value::Object(pairs) => ValueView::Object(object_view(pairs@)),
    }
}

pub open spec fn object_view(pairs: Seq<(String, Value)>) -> Seq<(Seq<char>, ValueView)>
    decreases pairs,
{
    if pairs.len() == 0 {
        Seq::empty()
    } else {
        object_view(pairs.drop_last()).push((pairs.last().0@, value_view(pairs.last().1)))
    }
}

impl View for Value {
    type V = ValueView;

    open spec fn view(&self) -> ValueView {
        value_view(*self)
    }
}

/// Appending one pair extends the object's view by that pair's view.
pub proof fn lemma_object_view_push(pairs: Seq<(String, Value)>, p: (String, Value))
    ensures
        object_view(pairs.push(p)) == object_view(pairs).push((p.0@, value_view(p.1))),
{
    assert(pairs.push(p).drop_last() =~= pairs);
    assert(pairs.push(p).last() == p);
}

impl Clone for Value {
    /// A deep copy: the copy has the same view as the value cloned.
    fn clone(&self) -> (r: Self)
        ensures
            r@ == self@,
        decreases *self,
    {
        match self {
            Value::Null => Value::Null,
            Value::Undefined => Value::Undefined,
            Value::String(s) => Value::String(s.clone()),
            Value::Number(n) => Value::Number(*n),
            Value::Object(pairs) => {
                let mut out: Vec<(String, Value)> = Vec::new();
                let mut i: usize = 0;
                while i < pairs.len()
                    invariant
                        i <= pairs.len(),
                        object_view(out@) == object_view(pairs@.subrange(0, i as int)),
                        *self == Value::Object(*pairs),
                    decreases pairs.len() - i,
                {
                    proof {
                        assert(decreases_to!(*self => self->Object_0));
                        assert(self->Object_0 == *pairs);
                        assert(decreases_to!(*pairs => pairs@[i as int]));
                        assert(decreases_to!(pairs@[i as int] => pairs@[i as int].1));
                    }
                    let pair = &pairs[i];
                    let copied = (pair.0.clone(), pair.1.clone());
                    proof {
                        lemma_object_view_push(out@, copied);
                        lemma_object_view_push(pairs@.subrange(0, i as int), pairs@[i as int]);
                        assert(pairs@.subrange(0, i as int).push(pairs@[i as int]) =~= pairs@.subrange(
                            0,
                            i + 1,
                        ));
                    }
                    out.push(copied);
                    i = i + 1;
                }
                proof {
                    assert(pairs@.subrange(0, pairs@.len() as int) =~= pairs@);
                }
                Value::Object(out)
            },
        }
    }
}

} // verus!
