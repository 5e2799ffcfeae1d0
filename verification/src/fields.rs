//! Looking declared fields up in the normalized mapping and applying the
//! field's coercion, with the failure annotated with the field's name —
//! and, inside arrays and objects, with the index or key of the failing
//! element. Decoding is fail-fast: the first failing field reports.

use vstd::prelude::*;

use crate::coerce::{int_as_bool, number, spec_int_as_bool, spec_number, JsonNumber};
use crate::error::{
    spec_err_here, spec_err_nested, DecodeError, ErrV, ErrorKind, ErrorKindV, PathSegV,
};
use crate::json::{jv_of_arr, jv_of_obj, lemma_jv_of_arr, lemma_jv_of_obj, JVal, JsonValue};
use crate::normalize::NormalizedMap;
use crate::numtext::{spec_strf32, WrappedStrF32};

verus! {

/// A failure of the named field itself.
pub open spec fn spec_field_err(k: Seq<char>, kind: ErrorKindV) -> ErrV {
    spec_err_nested(PathSegV::Field(k), spec_err_here(kind))
}

/// Build a failure of the named field.
pub fn field_err(key: &str, kind: ErrorKind) -> (r: DecodeError)
    ensures
        r.deep_view() == spec_field_err(key@, kind.deep_view()),
{
    DecodeError::here(kind).in_field(key)
}

/// What decoding a required field yields: the coercion applied to the
/// value under the key, its failure annotated with the field's name; a
/// missing key is a failure naming the field.
pub open spec fn spec_field<T>(
    m: Map<Seq<char>, JVal>,
    k: Seq<char>,
    f: spec_fn(JVal) -> Result<T, ErrV>,
) -> Result<T, ErrV> {
    if m.contains_key(k) {
        match f(m[k]) {
            Ok(t) => Ok(t),
            Err(e) => Err(spec_err_nested(PathSegV::Field(k), e)),
        }
    } else {
        Err(spec_field_err(k, ErrorKindV::Missing))
    }
}

/// What decoding an optional field yields: a missing key or a null value
/// is no error, merely absence.
pub open spec fn spec_opt_field<T>(
    m: Map<Seq<char>, JVal>,
    k: Seq<char>,
    f: spec_fn(JVal) -> Result<T, ErrV>,
) -> Result<Option<T>, ErrV> {
    if !m.contains_key(k) {
        Ok(None)
    } else if m[k] == JVal::Null {
        Ok(None)
    } else {
        match f(m[k]) {
            Ok(t) => Ok(Some(t)),
            Err(e) => Err(spec_err_nested(PathSegV::Field(k), e)),
        }
    }
}

/// What decoding a defaulted field yields: a missing key falls back to
/// the given default; a present value must coerce.
pub open spec fn spec_field_or<T>(
    m: Map<Seq<char>, JVal>,
    k: Seq<char>,
    f: spec_fn(JVal) -> Result<T, ErrV>,
    d: T,
) -> Result<T, ErrV> {
    if !m.contains_key(k) {
        Ok(d)
    } else {
        match f(m[k]) {
            Ok(t) => Ok(t),
            Err(e) => Err(spec_err_nested(PathSegV::Field(k), e)),
        }
    }
}

/// A raw value that must be a string.
pub open spec fn spec_str_of(v: JVal) -> Result<Seq<char>, ErrV> {
    match v {
        JVal::Str(s) => Ok(s),
        _ => Err(spec_err_here(ErrorKindV::NotAString)),
    }
}

/// A raw value that must be an integer.
pub open spec fn spec_int_of(v: JVal) -> Result<int, ErrV> {
    match v {
        JVal::Int(n) => Ok(n),
        _ => Err(spec_err_here(ErrorKindV::NotAnInt)),
    }
}

/// A raw value that must be a plain boolean.
pub open spec fn spec_bool_of(v: JVal) -> Result<bool, ErrV> {
    match v {
        JVal::Bool(b) => Ok(b),
        _ => Err(spec_err_here(ErrorKindV::NotABool)),
    }
}

/// The integer-domain boolean coercion, as an element decoder.
pub open spec fn spec_intbool_of(v: JVal) -> Result<bool, ErrV> {
    match spec_int_as_bool(v) {
        Ok(b) => Ok(b),
        Err(k) => Err(spec_err_here(k)),
    }
}

/// The string-encoded float coercion, as an element decoder.
pub open spec fn spec_strf32_of(v: JVal) -> Result<Seq<char>, ErrV> {
    match spec_strf32(v) {
        Ok(s) => Ok(s),
        Err(k) => Err(spec_err_here(k)),
    }
}

/// The number coercion, as an element decoder.
pub open spec fn spec_number_of(v: JVal) -> Result<JVal, ErrV> {
    match spec_number(v) {
        Ok(n) => Ok(n),
        Err(k) => Err(spec_err_here(k)),
    }
}

/// A raw value kept untouched: the deliberate escape hatch for fields
/// whose shape is not modelled.
pub open spec fn spec_raw_of(v: JVal) -> Result<JVal, ErrV> {
    Ok(v)
}

/// The string element decoder, as a value.
pub open spec fn f_str() -> spec_fn(JVal) -> Result<Seq<char>, ErrV> {
    |v: JVal| spec_str_of(v)
}

/// The integer element decoder, as a value.
pub open spec fn f_int() -> spec_fn(JVal) -> Result<int, ErrV> {
    |v: JVal| spec_int_of(v)
}

/// The plain boolean element decoder, as a value.
pub open spec fn f_bool() -> spec_fn(JVal) -> Result<bool, ErrV> {
    |v: JVal| spec_bool_of(v)
}

/// The integer-domain boolean element decoder, as a value.
pub open spec fn f_intbool() -> spec_fn(JVal) -> Result<bool, ErrV> {
    |v: JVal| spec_intbool_of(v)
}

/// The string-encoded float element decoder, as a value.
pub open spec fn f_strf32() -> spec_fn(JVal) -> Result<Seq<char>, ErrV> {
    |v: JVal| spec_strf32_of(v)
}

/// The number element decoder, as a value.
pub open spec fn f_number() -> spec_fn(JVal) -> Result<JVal, ErrV> {
    |v: JVal| spec_number_of(v)
}

/// The passthrough element decoder, as a value.
pub open spec fn f_raw() -> spec_fn(JVal) -> Result<JVal, ErrV> {
    |v: JVal| spec_raw_of(v)
}

/// What decoding every element of an array yields: the decoded elements
/// in order, or the failure of the first bad element, annotated with
/// that element's index.
pub open spec fn spec_vec_dec<T>(
    q: Seq<JVal>,
    f: spec_fn(JVal) -> Result<T, ErrV>,
) -> Result<Seq<T>, ErrV>
    decreases q.len(),
{
    if q.len() == 0 {
        Ok(Seq::empty())
    } else {
        match spec_vec_dec(q.drop_last(), f) {
            Ok(ts) => match f(q.last()) {
                Ok(t) => Ok(ts.push(t)),
                Err(e) => Err(spec_err_nested(PathSegV::Index(q.len() - 1), e)),
            },
            Err(e) => Err(e),
        }
    }
}

/// Once a prefix of the elements fails, the whole array fails the same
/// way: the first bad element is the one reported.
pub proof fn lemma_vec_dec_err_stays<T>(q: Seq<JVal>, f: spec_fn(JVal) -> Result<T, ErrV>, j: int)
    requires
        0 <= j <= q.len(),
        spec_vec_dec(q.take(j), f) is Err,
    ensures
        spec_vec_dec(q, f) == spec_vec_dec(q.take(j), f),
    decreases q.len() - j,
{
    if j == q.len() {
        assert(q.take(j) =~= q);
    } else {
        assert(q.take(j + 1).drop_last() =~= q.take(j));
        lemma_vec_dec_err_stays(q, f, j + 1);
    }
}

/// What decoding every entry of an object yields: the entries with their
/// values decoded, in order, or the failure of the first bad value,
/// annotated with that entry's key.
pub open spec fn spec_obj_dec<T>(
    o: Seq<(Seq<char>, JVal)>,
    f: spec_fn(JVal) -> Result<T, ErrV>,
) -> Result<Seq<(Seq<char>, T)>, ErrV>
    decreases o.len(),
{
    if o.len() == 0 {
        Ok(Seq::empty())
    } else {
        match spec_obj_dec(o.drop_last(), f) {
            Ok(ts) => match f(o.last().1) {
                Ok(t) => Ok(ts.push((o.last().0, t))),
                Err(e) => Err(spec_err_nested(PathSegV::Field(o.last().0), e)),
            },
            Err(e) => Err(e),
        }
    }
}

/// Once a prefix of the entries fails, the whole object fails the same
/// way: the first bad entry is the one reported.
pub proof fn lemma_obj_dec_err_stays<T>(
    o: Seq<(Seq<char>, JVal)>,
    f: spec_fn(JVal) -> Result<T, ErrV>,
    j: int,
)
    requires
        0 <= j <= o.len(),
        spec_obj_dec(o.take(j), f) is Err,
    ensures
        spec_obj_dec(o, f) == spec_obj_dec(o.take(j), f),
    decreases o.len() - j,
{
    if j == o.len() {
        assert(o.take(j) =~= o);
    } else {
        assert(o.take(j + 1).drop_last() =~= o.take(j));
        lemma_obj_dec_err_stays(o, f, j + 1);
    }
}

/// An array whose every element must decode.
pub open spec fn spec_arr_of<T>(v: JVal, f: spec_fn(JVal) -> Result<T, ErrV>) -> Result<
    Seq<T>,
    ErrV,
> {
    match v {
        JVal::Arr(q) => spec_vec_dec(q, f),
        _ => Err(spec_err_here(ErrorKindV::NotAnArray)),
    }
}

/// An object whose every value must decode.
pub open spec fn spec_obj_of<T>(v: JVal, f: spec_fn(JVal) -> Result<T, ErrV>) -> Result<
    Seq<(Seq<char>, T)>,
    ErrV,
> {
    match v {
        JVal::Obj(o) => spec_obj_dec(o, f),
        _ => Err(spec_err_here(ErrorKindV::NotAnObject)),
    }
}

/// The array decoder over an element decoder, as a value.
pub open spec fn f_arr<T>(f: spec_fn(JVal) -> Result<T, ErrV>) -> spec_fn(JVal) -> Result<
    Seq<T>,
    ErrV,
> {
    |v: JVal| spec_arr_of(v, f)
}

/// The object decoder over an element decoder, as a value.
pub open spec fn f_obj<T>(f: spec_fn(JVal) -> Result<T, ErrV>) -> spec_fn(JVal) -> Result<
    Seq<(Seq<char>, T)>,
    ErrV,
> {
    |v: JVal| spec_obj_of(v, f)
}

/// A required field kept as its raw value.
pub fn get_raw(m: &NormalizedMap, key: &str) -> (r: Result<JsonValue, DecodeError>)
    ensures
        match r {
            Ok(v) => spec_field(m@, key@, f_raw()) == Ok::<_, ErrV>(v@),
            Err(e) => spec_field(m@, key@, f_raw()) == Err::<JVal, _>(e.deep_view()),
        },
{
    match m.get(key) {
        Some(v) => Ok(v.clone()),
        None => Err(field_err(key, ErrorKind::Missing)),
    }
}

/// A required string field.
pub fn get_string(m: &NormalizedMap, key: &str) -> (r: Result<String, DecodeError>)
    ensures
        match r {
            Ok(s) => spec_field(m@, key@, f_str()) == Ok::<_, ErrV>(s@),
            Err(e) => spec_field(m@, key@, f_str()) == Err::<Seq<char>, _>(e.deep_view()),
        },
{
    match m.get(key) {
        Some(v) => match v {
            JsonValue::Str(s) => Ok(s.clone()),
            _ => Err(DecodeError::here(ErrorKind::NotAString).in_field(key)),
        },
        None => Err(field_err(key, ErrorKind::Missing)),
    }
}

/// A required integer field.
pub fn get_int(m: &NormalizedMap, key: &str) -> (r: Result<i64, DecodeError>)
    ensures
        match r {
            Ok(n) => spec_field(m@, key@, f_int()) == Ok::<_, ErrV>(n as int),
            Err(e) => spec_field(m@, key@, f_int()) == Err::<int, _>(e.deep_view()),
        },
{
    match m.get(key) {
        Some(v) => match v {
            JsonValue::Int(n) => Ok(*n),
            _ => Err(DecodeError::here(ErrorKind::NotAnInt).in_field(key)),
        },
        None => Err(field_err(key, ErrorKind::Missing)),
    }
}

/// A required plain boolean field.
pub fn get_bool(m: &NormalizedMap, key: &str) -> (r: Result<bool, DecodeError>)
    ensures
        match r {
            Ok(b) => spec_field(m@, key@, f_bool()) == Ok::<_, ErrV>(b),
            Err(e) => spec_field(m@, key@, f_bool()) == Err::<bool, _>(e.deep_view()),
        },
{
    match m.get(key) {
        Some(v) => match v {
            JsonValue::Bool(b) => Ok(*b),
            _ => Err(DecodeError::here(ErrorKind::NotABool).in_field(key)),
        },
        None => Err(field_err(key, ErrorKind::Missing)),
    }
}

/// A required integer-domain boolean flag field.
pub fn get_int_bool(m: &NormalizedMap, key: &str) -> (r: Result<bool, DecodeError>)
    ensures
        match r {
            Ok(b) => spec_field(m@, key@, f_intbool()) == Ok::<_, ErrV>(b),
            Err(e) => spec_field(m@, key@, f_intbool()) == Err::<bool, _>(e.deep_view()),
        },
{
    match m.get(key) {
        Some(v) => match int_as_bool(v) {
            Ok(b) => Ok(b),
            Err(k) => Err(DecodeError::here(k).in_field(key)),
        },
        None => Err(field_err(key, ErrorKind::Missing)),
    }
}

/// An integer-domain boolean flag field that is absent-as-false.
pub fn get_int_bool_or_false(m: &NormalizedMap, key: &str) -> (r: Result<bool, DecodeError>)
    ensures
        match r {
            Ok(b) => spec_field_or(m@, key@, f_intbool(), false) == Ok::<_, ErrV>(b),
            Err(e) => spec_field_or(m@, key@, f_intbool(), false) == Err::<bool, _>(e.deep_view()),
        },
{
    match m.get(key) {
        Some(v) => match int_as_bool(v) {
            Ok(b) => Ok(b),
            Err(k) => Err(DecodeError::here(k).in_field(key)),
        },
        None => Ok(false),
    }
}

/// An optional string field.
pub fn get_opt_string(m: &NormalizedMap, key: &str) -> (r: Result<Option<String>, DecodeError>)
    ensures
        match r {
            Ok(s) => spec_opt_field(m@, key@, f_str()) == Ok::<_, ErrV>(s.deep_view()),
            Err(e) => spec_opt_field(m@, key@, f_str()) == Err::<Option<Seq<char>>, _>(
                e.deep_view(),
            ),
        },
{
    match m.get(key) {
        Some(v) => match v {
            JsonValue::Null => Ok(None),
            JsonValue::Str(s) => Ok(Some(s.clone())),
            _ => Err(DecodeError::here(ErrorKind::NotAString).in_field(key)),
        },
        None => Ok(None),
    }
}

/// An optional integer field.
pub fn get_opt_int(m: &NormalizedMap, key: &str) -> (r: Result<Option<i64>, DecodeError>)
    ensures
        match r {
            Ok(n) => spec_opt_field(m@, key@, f_int()) == Ok::<_, ErrV>(
                match n {
                    Some(x) => Some(x as int),
                    None => None,
                },
            ),
            Err(e) => spec_opt_field(m@, key@, f_int()) == Err::<Option<int>, _>(e.deep_view()),
        },
{
    match m.get(key) {
        Some(v) => match v {
            JsonValue::Null => Ok(None),
            JsonValue::Int(n) => Ok(Some(*n)),
            _ => Err(DecodeError::here(ErrorKind::NotAnInt).in_field(key)),
        },
        None => Ok(None),
    }
}

/// An optional raw field, kept untouched when present.
pub fn get_opt_raw(m: &NormalizedMap, key: &str) -> (r: Result<Option<JsonValue>, DecodeError>)
    ensures
        match r {
            Ok(v) => spec_opt_field(m@, key@, f_raw()) == Ok::<_, ErrV>(
                match v {
                    Some(x) => Some(x@),
                    None => None,
                },
            ),
            Err(e) => spec_opt_field(m@, key@, f_raw()) == Err::<Option<JVal>, _>(e.deep_view()),
        },
{
    match m.get(key) {
        Some(v) => match v {
            JsonValue::Null => Ok(None),
            _ => Ok(Some(v.clone())),
        },
        None => Ok(None),
    }
}

/// An optional string-encoded float field.
pub fn get_opt_strf32(m: &NormalizedMap, key: &str) -> (r: Result<
    Option<WrappedStrF32>,
    DecodeError,
>)
    ensures
        match r {
            Ok(w) => spec_opt_field(m@, key@, f_strf32()) == Ok::<_, ErrV>(w.deep_view()),
            Err(e) => spec_opt_field(m@, key@, f_strf32()) == Err::<Option<Seq<char>>, _>(
                e.deep_view(),
            ),
        },
{
    match m.get(key) {
        Some(v) => match v {
            JsonValue::Null => Ok(None),
            _ => match WrappedStrF32::coerce(v) {
                Ok(w) => Ok(Some(w)),
                Err(k) => Err(DecodeError::here(k).in_field(key)),
            },
        },
        None => Ok(None),
    }
}

/// A required number field.
pub fn get_number(m: &NormalizedMap, key: &str) -> (r: Result<JsonNumber, DecodeError>)
    ensures
        match r {
            Ok(n) => spec_field(m@, key@, f_number()) == Ok::<_, ErrV>(n@),
            Err(e) => spec_field(m@, key@, f_number()) == Err::<JVal, _>(e.deep_view()),
        },
{
    match m.get(key) {
        Some(v) => match number(v) {
            Ok(n) => Ok(n),
            Err(k) => Err(DecodeError::here(k).in_field(key)),
        },
        None => Err(field_err(key, ErrorKind::Missing)),
    }
}

/// A raw value that must be an array of strings.
#[verifier::loop_isolation(false)]
pub fn str_vec_of(v: &JsonValue) -> (r: Result<Vec<String>, DecodeError>)
    ensures
        match r {
            Ok(out) => spec_arr_of(v@, f_str()) == Ok::<_, ErrV>(out.deep_view()),
            Err(e) => spec_arr_of(v@, f_str()) == Err::<Seq<Seq<char>>, _>(e.deep_view()),
        },
{
    match v {
        JsonValue::Arr(q) => {
            let ghost qs = jv_of_arr(q@);
            proof {
                lemma_jv_of_arr(q@);
            }
            let mut out: Vec<String> = Vec::new();
            proof {
                assert(qs.take(0) =~= Seq::<JVal>::empty());
                assert(out.deep_view() =~= Seq::<Seq<char>>::empty());
            }
            let mut i: usize = 0;
            while i < q.len()
                invariant
                    i <= q.len(),
                    spec_vec_dec(qs.take(i as int), f_str()) == Ok::<_, ErrV>(out.deep_view()),
                decreases q.len() - i,
            {
                proof {
                    assert(qs.take(i + 1 as int).drop_last() =~= qs.take(i as int));
                    assert(qs.take(i + 1 as int).last() == qs[i as int]);
                }
                match &q[i] {
                    JsonValue::Str(s) => {
                        let ghost prev = out.deep_view();
                        out.push(s.clone());
                        proof {
                            assert(out.deep_view() =~= prev.push(s@));
                        }
                    },
                    _ => {
                        let e = DecodeError::here(ErrorKind::NotAString).at_index(i);
                        proof {
                            lemma_vec_dec_err_stays(qs, f_str(), i + 1 as int);
                        }
                        return Err(e);
                    },
                }
                i += 1;
            }
            proof {
                assert(qs.take(q@.len() as int) =~= qs);
            }
            Ok(out)
        },
        _ => Err(DecodeError::here(ErrorKind::NotAnArray)),
    }
}

/// A required field holding an array of strings.
#[verifier::loop_isolation(false)]
pub fn get_str_vec(m: &NormalizedMap, key: &str) -> (r: Result<Vec<String>, DecodeError>)
    ensures
        match r {
            Ok(out) => spec_field(m@, key@, f_arr(f_str())) == Ok::<_, ErrV>(out.deep_view()),
            Err(e) => spec_field(m@, key@, f_arr(f_str())) == Err::<Seq<Seq<char>>, _>(
                e.deep_view(),
            ),
        },
{
    match m.get(key) {
        Some(v) => match v {
            JsonValue::Arr(q) => {
                let ghost qs = jv_of_arr(q@);
                proof {
                    lemma_jv_of_arr(q@);
                }
                let mut out: Vec<String> = Vec::new();
                proof {
                    assert(qs.take(0) =~= Seq::<JVal>::empty());
                    assert(out.deep_view() =~= Seq::<Seq<char>>::empty());
                }
                let mut i: usize = 0;
                while i < q.len()
                    invariant
                        i <= q.len(),
                        spec_vec_dec(qs.take(i as int), f_str()) == Ok::<_, ErrV>(out.deep_view()),
                    decreases q.len() - i,
                {
                    proof {
                        assert(qs.take(i + 1 as int).drop_last() =~= qs.take(i as int));
                        assert(qs.take(i + 1 as int).last() == qs[i as int]);
                    }
                    match &q[i] {
                        JsonValue::Str(s) => {
                            let ghost prev = out.deep_view();
                            out.push(s.clone());
                            proof {
                                assert(out.deep_view() =~= prev.push(s@));
                            }
                        },
                        _ => {
                            let e = DecodeError::here(ErrorKind::NotAString).at_index(i).in_field(
                                key,
                            );
                            proof {
                                lemma_vec_dec_err_stays(qs, f_str(), i + 1 as int);
                            }
                            return Err(e);
                        },
                    }
                    i += 1;
                }
                proof {
                    assert(qs.take(q@.len() as int) =~= qs);
                }
                Ok(out)
            },
            _ => Err(DecodeError::here(ErrorKind::NotAnArray).in_field(key)),
        },
        None => Err(field_err(key, ErrorKind::Missing)),
    }
}

/// The mathematical values of a vector of machine integers.
pub open spec fn ints_of(s: Seq<i64>) -> Seq<int> {
    s.map_values(|x: i64| x as int)
}

/// The mathematical values of a vector of keyed machine integers.
pub open spec fn int_entries_of(s: Seq<(String, i64)>) -> Seq<(Seq<char>, int)> {
    s.map_values(|p: (String, i64)| (p.0@, p.1 as int))
}

/// A required field holding an array of integers.
#[verifier::loop_isolation(false)]
pub fn get_int_vec(m: &NormalizedMap, key: &str) -> (r: Result<Vec<i64>, DecodeError>)
    ensures
        match r {
            Ok(out) => spec_field(m@, key@, f_arr(f_int())) == Ok::<_, ErrV>(ints_of(out@)),
            Err(e) => spec_field(m@, key@, f_arr(f_int())) == Err::<Seq<int>, _>(e.deep_view()),
        },
{
    match m.get(key) {
        Some(v) => match v {
            JsonValue::Arr(q) => {
                let ghost qs = jv_of_arr(q@);
                proof {
                    lemma_jv_of_arr(q@);
                }
                let mut out: Vec<i64> = Vec::new();
                proof {
                    assert(qs.take(0) =~= Seq::<JVal>::empty());
                    assert(ints_of(out@) =~= Seq::<int>::empty());
                }
                let mut i: usize = 0;
                while i < q.len()
                    invariant
                        i <= q.len(),
                        spec_vec_dec(qs.take(i as int), f_int()) == Ok::<_, ErrV>(ints_of(out@)),
                    decreases q.len() - i,
                {
                    proof {
                        assert(qs.take(i + 1 as int).drop_last() =~= qs.take(i as int));
                        assert(qs.take(i + 1 as int).last() == qs[i as int]);
                    }
                    match &q[i] {
                        JsonValue::Int(n) => {
                            let ghost prev = ints_of(out@);
                            out.push(*n);
                            proof {
                                assert(ints_of(out@) =~= prev.push(*n as int));
                            }
                        },
                        _ => {
                            let e = DecodeError::here(ErrorKind::NotAnInt).at_index(i).in_field(
                                key,
                            );
                            proof {
                                lemma_vec_dec_err_stays(qs, f_int(), i + 1 as int);
                            }
                            return Err(e);
                        },
                    }
                    i += 1;
                }
                proof {
                    assert(qs.take(q@.len() as int) =~= qs);
                }
                Ok(out)
            },
            _ => Err(DecodeError::here(ErrorKind::NotAnArray).in_field(key)),
        },
        None => Err(field_err(key, ErrorKind::Missing)),
    }
}

/// A required field holding an array of raw values, kept untouched.
#[verifier::loop_isolation(false)]
pub fn get_raw_vec(m: &NormalizedMap, key: &str) -> (r: Result<Vec<JsonValue>, DecodeError>)
    ensures
        match r {
            Ok(out) => spec_field(m@, key@, f_arr(f_raw())) == Ok::<_, ErrV>(jv_of_arr(out@)),
            Err(e) => spec_field(m@, key@, f_arr(f_raw())) == Err::<Seq<JVal>, _>(e.deep_view()),
        },
{
    match m.get(key) {
        Some(v) => match v {
            JsonValue::Arr(q) => {
                let ghost qs = jv_of_arr(q@);
                proof {
                    lemma_jv_of_arr(q@);
                }
                let mut out: Vec<JsonValue> = Vec::new();
                proof {
                    assert(qs.take(0) =~= Seq::<JVal>::empty());
                    assert(jv_of_arr(out@) =~= Seq::<JVal>::empty());
                }
                let mut i: usize = 0;
                while i < q.len()
                    invariant
                        i <= q.len(),
                        spec_vec_dec(qs.take(i as int), f_raw()) == Ok::<_, ErrV>(jv_of_arr(out@)),
                    decreases q.len() - i,
                {
                    proof {
                        assert(qs.take(i + 1 as int).drop_last() =~= qs.take(i as int));
                        assert(qs.take(i + 1 as int).last() == qs[i as int]);
                    }
                    let ghost prev = out@;
                    let c = q[i].clone();
                    out.push(c);
                    proof {
                        crate::json::lemma_jv_of_arr_push(prev, out@.last());
                        assert(out@.drop_last() =~= prev);
                        assert(out@ =~= prev.push(out@.last()));
                    }
                    i += 1;
                }
                proof {
                    assert(qs.take(q@.len() as int) =~= qs);
                }
                Ok(out)
            },
            _ => Err(DecodeError::here(ErrorKind::NotAnArray).in_field(key)),
        },
        None => Err(field_err(key, ErrorKind::Missing)),
    }
}

/// A required field holding an array of numbers.
#[verifier::loop_isolation(false)]
pub fn get_number_vec(m: &NormalizedMap, key: &str) -> (r: Result<Vec<JsonNumber>, DecodeError>)
    ensures
        match r {
            Ok(out) => spec_field(m@, key@, f_arr(f_number())) == Ok::<_, ErrV>(out.deep_view()),
            Err(e) => spec_field(m@, key@, f_arr(f_number())) == Err::<Seq<JVal>, _>(e.deep_view()),
        },
{
    match m.get(key) {
        Some(v) => match v {
            JsonValue::Arr(q) => {
                let ghost qs = jv_of_arr(q@);
                proof {
                    lemma_jv_of_arr(q@);
                }
                let mut out: Vec<JsonNumber> = Vec::new();
                proof {
                    assert(qs.take(0) =~= Seq::<JVal>::empty());
                    assert(out.deep_view() =~= Seq::<JVal>::empty());
                }
                let mut i: usize = 0;
                while i < q.len()
                    invariant
                        i <= q.len(),
                        spec_vec_dec(qs.take(i as int), f_number()) == Ok::<_, ErrV>(
                            out.deep_view(),
                        ),
                    decreases q.len() - i,
                {
                    proof {
                        assert(qs.take(i + 1 as int).drop_last() =~= qs.take(i as int));
                        assert(qs.take(i + 1 as int).last() == qs[i as int]);
                    }
                    match number(&q[i]) {
                        Ok(n) => {
                            let ghost prev = out.deep_view();
                            let ghost nv = n@;
                            out.push(n);
                            proof {
                                assert(out.deep_view() =~= prev.push(nv));
                            }
                        },
                        Err(k) => {
                            let e = DecodeError::here(k).at_index(i).in_field(key);
                            proof {
                                lemma_vec_dec_err_stays(qs, f_number(), i + 1 as int);
                            }
                            return Err(e);
                        },
                    }
                    i += 1;
                }
                proof {
                    assert(qs.take(q@.len() as int) =~= qs);
                }
                Ok(out)
            },
            _ => Err(DecodeError::here(ErrorKind::NotAnArray).in_field(key)),
        },
        None => Err(field_err(key, ErrorKind::Missing)),
    }
}

/// A required field holding an object whose every value is a string.
#[verifier::loop_isolation(false)]
pub fn get_str_map(m: &NormalizedMap, key: &str) -> (r: Result<Vec<(String, String)>, DecodeError>)
    ensures
        match r {
            Ok(out) => spec_field(m@, key@, f_obj(f_str())) == Ok::<_, ErrV>(out.deep_view()),
            Err(e) => spec_field(m@, key@, f_obj(f_str())) == Err::<
                Seq<(Seq<char>, Seq<char>)>,
                _,
            >(e.deep_view()),
        },
{
    match m.get(key) {
        Some(v) => match v {
            JsonValue::Obj(o) => {
                let ghost os = jv_of_obj(o@);
                proof {
                    lemma_jv_of_obj(o@);
                }
                let mut out: Vec<(String, String)> = Vec::new();
                proof {
                    assert(os.take(0) =~= Seq::<(Seq<char>, JVal)>::empty());
                    assert(out.deep_view() =~= Seq::<(Seq<char>, Seq<char>)>::empty());
                }
                let mut i: usize = 0;
                while i < o.len()
                    invariant
                        i <= o.len(),
                        spec_obj_dec(os.take(i as int), f_str()) == Ok::<_, ErrV>(out.deep_view()),
                    decreases o.len() - i,
                {
                    proof {
                        assert(os.take(i + 1 as int).drop_last() =~= os.take(i as int));
                        assert(os.take(i + 1 as int).last() == os[i as int]);
                    }
                    match &o[i].1 {
                        JsonValue::Str(s) => {
                            let ghost prev = out.deep_view();
                            let k = o[i].0.clone();
                            out.push((k, s.clone()));
                            proof {
                                assert(out.deep_view() =~= prev.push((o@[i as int].0@, s@)));
                            }
                        },
                        _ => {
                            let e = DecodeError::here(ErrorKind::NotAString).in_field(
                                o[i].0.as_str(),
                            ).in_field(key);
                            proof {
                                lemma_obj_dec_err_stays(os, f_str(), i + 1 as int);
                            }
                            return Err(e);
                        },
                    }
                    i += 1;
                }
                proof {
                    assert(os.take(o@.len() as int) =~= os);
                }
                Ok(out)
            },
            _ => Err(DecodeError::here(ErrorKind::NotAnObject).in_field(key)),
        },
        None => Err(field_err(key, ErrorKind::Missing)),
    }
}

/// A required field holding an object whose every value is an integer.
#[verifier::loop_isolation(false)]
pub fn get_int_map(m: &NormalizedMap, key: &str) -> (r: Result<Vec<(String, i64)>, DecodeError>)
    ensures
        match r {
            Ok(out) => spec_field(m@, key@, f_obj(f_int())) == Ok::<_, ErrV>(int_entries_of(out@)),
            Err(e) => spec_field(m@, key@, f_obj(f_int())) == Err::<Seq<(Seq<char>, int)>, _>(
                e.deep_view(),
            ),
        },
{
    match m.get(key) {
        Some(v) => match v {
            JsonValue::Obj(o) => {
                let ghost os = jv_of_obj(o@);
                proof {
                    lemma_jv_of_obj(o@);
                }
                let mut out: Vec<(String, i64)> = Vec::new();
                proof {
                    assert(os.take(0) =~= Seq::<(Seq<char>, JVal)>::empty());
                    assert(int_entries_of(out@) =~= Seq::<(Seq<char>, int)>::empty());
                }
                let mut i: usize = 0;
                while i < o.len()
                    invariant
                        i <= o.len(),
                        spec_obj_dec(os.take(i as int), f_int()) == Ok::<_, ErrV>(
                            int_entries_of(out@),
                        ),
                    decreases o.len() - i,
                {
                    proof {
                        assert(os.take(i + 1 as int).drop_last() =~= os.take(i as int));
                        assert(os.take(i + 1 as int).last() == os[i as int]);
                    }
                    match &o[i].1 {
                        JsonValue::Int(n) => {
                            let ghost prev = int_entries_of(out@);
                            let k = o[i].0.clone();
                            out.push((k, *n));
                            proof {
                                assert(int_entries_of(out@) =~= prev.push(
                                    (o@[i as int].0@, *n as int),
                                ));
                            }
                        },
                        _ => {
                            let e = DecodeError::here(ErrorKind::NotAnInt).in_field(
                                o[i].0.as_str(),
                            ).in_field(key);
                            proof {
                                lemma_obj_dec_err_stays(os, f_int(), i + 1 as int);
                            }
                            return Err(e);
                        },
                    }
                    i += 1;
                }
                proof {
                    assert(os.take(o@.len() as int) =~= os);
                }
                Ok(out)
            },
            _ => Err(DecodeError::here(ErrorKind::NotAnObject).in_field(key)),
        },
        None => Err(field_err(key, ErrorKind::Missing)),
    }
}

/// A required field holding an object whose values are kept untouched.
#[verifier::loop_isolation(false)]
pub fn get_raw_obj(m: &NormalizedMap, key: &str) -> (r: Result<
    Vec<(String, JsonValue)>,
    DecodeError,
>)
    ensures
        match r {
            Ok(out) => spec_field(m@, key@, f_obj(f_raw())) == Ok::<_, ErrV>(jv_of_obj(out@)),
            Err(e) => spec_field(m@, key@, f_obj(f_raw())) == Err::<Seq<(Seq<char>, JVal)>, _>(
                e.deep_view(),
            ),
        },
{
    match m.get(key) {
        Some(v) => match v {
            JsonValue::Obj(o) => {
                let ghost os = jv_of_obj(o@);
                proof {
                    lemma_jv_of_obj(o@);
                }
                let mut out: Vec<(String, JsonValue)> = Vec::new();
                proof {
                    assert(os.take(0) =~= Seq::<(Seq<char>, JVal)>::empty());
                    assert(jv_of_obj(out@) =~= Seq::<(Seq<char>, JVal)>::empty());
                }
                let mut i: usize = 0;
                while i < o.len()
                    invariant
                        i <= o.len(),
                        spec_obj_dec(os.take(i as int), f_raw()) == Ok::<_, ErrV>(jv_of_obj(out@)),
                    decreases o.len() - i,
                {
                    proof {
                        assert(os.take(i + 1 as int).drop_last() =~= os.take(i as int));
                        assert(os.take(i + 1 as int).last() == os[i as int]);
                    }
                    let ghost prev = out@;
                    let k = o[i].0.clone();
                    let c = o[i].1.clone();
                    out.push((k, c));
                    proof {
                        crate::json::lemma_jv_of_obj_push(prev, out@.last());
                        assert(out@.drop_last() =~= prev);
                        assert(out@ =~= prev.push(out@.last()));
                    }
                    i += 1;
                }
                proof {
                    assert(os.take(o@.len() as int) =~= os);
                }
                Ok(out)
            },
            _ => Err(DecodeError::here(ErrorKind::NotAnObject).in_field(key)),
        },
        None => Err(field_err(key, ErrorKind::Missing)),
    }
}

} // verus!
