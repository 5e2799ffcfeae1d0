//! The library's own model of an untyped feed value: the shape of JSON,
//! with numbers split into integers and textual floating-point literals
//! (the numeric text is kept as it appeared in the feed).

use vstd::prelude::*;

verus! {

/// Mathematical value of a feed value, used by every contract.
#[verifier::ext_equal]
pub ghost enum JVal {
    Null,
    Bool(bool),
    Int(int),
    /// A number that is not a plain integer, kept as its textual form.
    Float(Seq<char>),
    Str(Seq<char>),
    Arr(Seq<JVal>),
    /// Object entries in their original order.
    Obj(Seq<(Seq<char>, JVal)>),
}

/// An untyped value of the feed, as handed to the decoder.
#[derive(Debug, PartialEq)]
pub enum JsonValue {
    Null,
    Bool(bool),
    Int(i64),
    /// A non-integer number, kept as the text of its literal.
    Float(String),
    Str(String),
    Arr(Vec<JsonValue>),
    Obj(Vec<(String, JsonValue)>),
}

/// The mathematical value of a feed value: strings become character
/// sequences and containers become sequences of their elements' values.
pub open spec fn jv_of(v: JsonValue) -> JVal
    decreases v,
{
    match v {
        JsonValue::Null => JVal::Null,
        JsonValue::Bool(b) => JVal::Bool(b),
        JsonValue::Int(i) => JVal::Int(i as int),
        JsonValue::Float(s) => JVal::Float(s@),
        JsonValue::Str(s) => JVal::Str(s@),
        JsonValue::Arr(a) => JVal::Arr(jv_of_arr(a@)),
        JsonValue::Obj(o) => JVal::Obj(jv_of_obj(o@)),
    }
}

/// Element-wise value of an array's contents.
pub open spec fn jv_of_arr(s: Seq<JsonValue>) -> Seq<JVal>
    decreases s,
{
    if s.len() == 0 {
        Seq::empty()
    } else {
        jv_of_arr(s.drop_last()).push(jv_of(s.last()))
    }
}

/// Entry-wise value of an object's contents.
pub open spec fn jv_of_obj(s: Seq<(String, JsonValue)>) -> Seq<(Seq<char>, JVal)>
    decreases s,
{
    if s.len() == 0 {
        Seq::empty()
    } else {
        jv_of_obj(s.drop_last()).push((s.last().0@, jv_of(s.last().1)))
    }
}

impl View for JsonValue {
    type V = JVal;

    open spec fn view(&self) -> JVal {
        jv_of(*self)
    }
}

impl Clone for JsonValue {
    /// A clone carries the same mathematical value.
    #[verifier::loop_isolation(false)]
    fn clone(&self) -> (r: JsonValue)
        ensures
            r@ == self@,
        decreases *self,
    {
        match self {
            JsonValue::Null => JsonValue::Null,
            JsonValue::Bool(b) => JsonValue::Bool(*b),
            JsonValue::Int(i) => JsonValue::Int(*i),
            JsonValue::Float(s) => JsonValue::Float(s.clone()),
            JsonValue::Str(s) => JsonValue::Str(s.clone()),
            JsonValue::Arr(a) => {
                let mut out: Vec<JsonValue> = Vec::new();
                let mut i: usize = 0;
                while i < a.len()
                    invariant
                        i <= a.len(),
                        jv_of_arr(out@) == jv_of_arr(a@.take(i as int)),
                    decreases a.len() - i,
                {
                    proof {
                        assert(*a == (*self)->Arr_0);
                        assert(decreases_to!(*self => (*self)->Arr_0));
                        assert(decreases_to!(*a => a@));
                        assert(decreases_to!(a@ => a@[i as int]));
                    }
                    let ghost prev = out@;
                    let c = a[i].clone();
                    out.push(c);
                    proof {
                        assert(out@.drop_last() =~= prev);
                        assert(a@.take(i + 1 as int).drop_last() =~= a@.take(i as int));
                        assert(a@.take(i + 1 as int).last() == a@[i as int]);
                    }
                    i += 1;
                }
                proof {
                    assert(a@.take(a@.len() as int) =~= a@);
                }
                JsonValue::Arr(out)
            },
            JsonValue::Obj(o) => {
                let mut out: Vec<(String, JsonValue)> = Vec::new();
                let mut i: usize = 0;
                while i < o.len()
                    invariant
                        i <= o.len(),
                        jv_of_obj(out@) == jv_of_obj(o@.take(i as int)),
                    decreases o.len() - i,
                {
                    proof {
                        assert(*o == (*self)->Obj_0);
                        assert(decreases_to!(*self => (*self)->Obj_0));
                        assert(decreases_to!(*o => o@));
                        assert(decreases_to!(o@ => o@[i as int]));
                        assert(decreases_to!(o@[i as int] => o@[i as int].1));
                    }
                    let ghost prev = out@;
                    let k = o[i].0.clone();
                    let v = o[i].1.clone();
                    out.push((k, v));
                    proof {
                        assert(out@.drop_last() =~= prev);
                        assert(o@.take(i + 1 as int).drop_last() =~= o@.take(i as int));
                        assert(o@.take(i + 1 as int).last() == o@[i as int]);
                    }
                    i += 1;
                }
                proof {
                    assert(o@.take(o@.len() as int) =~= o@);
                }
                JsonValue::Obj(out)
            },
        }
    }
}

/// Appending an element appends its value.
pub proof fn lemma_jv_of_arr_push(s: Seq<JsonValue>, v: JsonValue)
    ensures
        jv_of_arr(s.push(v)) == jv_of_arr(s).push(jv_of(v)),
{
    assert(s.push(v).drop_last() =~= s);
    assert(s.push(v).last() == v);
}

/// Appending an entry appends its value.
pub proof fn lemma_jv_of_obj_push(s: Seq<(String, JsonValue)>, kv: (String, JsonValue))
    ensures
        jv_of_obj(s.push(kv)) == jv_of_obj(s).push((kv.0@, jv_of(kv.1))),
{
    assert(s.push(kv).drop_last() =~= s);
    assert(s.push(kv).last() == kv);
}

/// `jv_of_arr` maps `jv_of` over the sequence, element by element.
pub broadcast proof fn lemma_jv_of_arr(s: Seq<JsonValue>)
    ensures
        #[trigger] jv_of_arr(s).len() == s.len(),
        forall|i: int| 0 <= i < s.len() ==> jv_of_arr(s)[i] == jv_of(s[i]),
    decreases s.len(),
{
    if s.len() > 0 {
        lemma_jv_of_arr(s.drop_last());
        assert forall|i: int| 0 <= i < s.len() implies jv_of_arr(s)[i] == jv_of(s[i]) by {
            if i < s.len() - 1 {
                assert(s.drop_last()[i] == s[i]);
            }
        }
    }
}

/// `jv_of_obj` maps key views and `jv_of` over the entries, one by one.
pub broadcast proof fn lemma_jv_of_obj(s: Seq<(String, JsonValue)>)
    ensures
        #[trigger] jv_of_obj(s).len() == s.len(),
        forall|i: int|
            0 <= i < s.len() ==> jv_of_obj(s)[i] == (s[i].0@, jv_of(s[i].1)),
    decreases s.len(),
{
    if s.len() > 0 {
        lemma_jv_of_obj(s.drop_last());
        assert forall|i: int|
            0 <= i < s.len() implies jv_of_obj(s)[i] == (s[i].0@, jv_of(s[i].1)) by {
            if i < s.len() - 1 {
                assert(s.drop_last()[i] == s[i]);
            }
        }
    }
}

} // verus!
