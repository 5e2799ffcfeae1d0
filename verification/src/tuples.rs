//! Positional tuples-as-records: fixed-length arrays whose elements are
//! assigned to named fields by position. Each decoder asserts the exact
//! length up front; implicit truncation never happens.

use vstd::prelude::*;

use crate::error::{spec_err_here, DecodeError, ErrV, ErrorKind, ErrorKindV};
use crate::fields::{
    f_arr, f_str, field_err, lemma_vec_dec_err_stays, spec_arr_of, spec_field, spec_vec_dec,
    str_vec_of,
};
use crate::json::{jv_of_arr, lemma_jv_of_arr, JVal, JsonValue};
use crate::normalize::NormalizedMap;
use crate::text::contains_char;

verus! {

/// A person of the feed: name, surname and email, encoded positionally.
#[derive(Debug, PartialEq)]
pub struct Person {
    pub name: String,
    pub surname: String,
    pub mail: String,
}

/// Mathematical value of a person.
#[verifier::ext_equal]
pub ghost struct PersonV {
    pub name: Seq<char>,
    pub surname: Seq<char>,
    pub mail: Seq<char>,
}

impl DeepView for Person {
    type V = PersonV;

    open spec fn deep_view(&self) -> PersonV {
        PersonV { name: self.name@, surname: self.surname@, mail: self.mail@ }
    }
}

/// What decoding a person yields: the value must be an array of exactly
/// three strings, in the order name, surname, email, and the email must
/// hold an `@`; the failures report the actual length, the offending
/// element, or the address without its `@`.
pub open spec fn spec_person_of(v: JVal) -> Result<PersonV, ErrV> {
    match spec_arr_of(v, f_str()) {
        Ok(ss) => if ss.len() != 3 {
            Err(spec_err_here(ErrorKindV::WrongLength { expected: 3, actual: ss.len() as int }))
        } else if !ss[2].contains('@') {
            Err(spec_err_here(ErrorKindV::NoAtSign { value: ss[2] }))
        } else {
            Ok(PersonV { name: ss[0], surname: ss[1], mail: ss[2] })
        },
        Err(e) => Err(e),
    }
}

/// The person decoder, as a value.
pub open spec fn f_person() -> spec_fn(JVal) -> Result<PersonV, ErrV> {
    |v: JVal| spec_person_of(v)
}

impl Person {
    /// Decode one positionally encoded person.
    pub fn decode(v: &JsonValue) -> (r: Result<Person, DecodeError>)
        ensures
            match r {
                Ok(p) => spec_person_of(v@) == Ok::<_, ErrV>(p.deep_view()),
                Err(e) => spec_person_of(v@) == Err::<PersonV, _>(e.deep_view()),
            },
    {
        let ss = match str_vec_of(v) {
            Ok(ss) => ss,
            Err(e) => {
                return Err(e);
            },
        };
        if ss.len() != 3 {
            return Err(
                DecodeError::here(ErrorKind::WrongLength { expected: 3, actual: ss.len() }),
            );
        }
        if !contains_char(ss[2].as_str(), '@') {
            return Err(DecodeError::here(ErrorKind::NoAtSign { value: ss[2].clone() }));
        }
        let p = Person { name: ss[0].clone(), surname: ss[1].clone(), mail: ss[2].clone() };
        proof {
            assert(p.deep_view() =~= (spec_person_of(v@)->Ok_0));
        }
        Ok(p)
    }
}

/// A justified absence of the feed: start, end and comment, encoded
/// positionally. The two dates stay opaque strings: their format is not
/// specified upstream.
#[derive(Debug, PartialEq)]
pub struct JustifiedAbsence {
    pub start: String,
    pub end: String,
    pub comment: String,
}

/// Mathematical value of a justified absence.
#[verifier::ext_equal]
pub ghost struct AbsenceV {
    pub start: Seq<char>,
    pub end: Seq<char>,
    pub comment: Seq<char>,
}

impl DeepView for JustifiedAbsence {
    type V = AbsenceV;

    open spec fn deep_view(&self) -> AbsenceV {
        AbsenceV { start: self.start@, end: self.end@, comment: self.comment@ }
    }
}

/// What decoding a justified absence yields: an array of exactly three
/// strings, in the order start, end, comment; nothing further is
/// validated.
pub open spec fn spec_absence_of(v: JVal) -> Result<AbsenceV, ErrV> {
    match spec_arr_of(v, f_str()) {
        Ok(ss) => if ss.len() != 3 {
            Err(spec_err_here(ErrorKindV::WrongLength { expected: 3, actual: ss.len() as int }))
        } else {
            Ok(AbsenceV { start: ss[0], end: ss[1], comment: ss[2] })
        },
        Err(e) => Err(e),
    }
}

/// The justified-absence decoder, as a value.
pub open spec fn f_absence() -> spec_fn(JVal) -> Result<AbsenceV, ErrV> {
    |v: JVal| spec_absence_of(v)
}

impl JustifiedAbsence {
    /// Decode one positionally encoded justified absence.
    pub fn decode(v: &JsonValue) -> (r: Result<JustifiedAbsence, DecodeError>)
        ensures
            match r {
                Ok(a) => spec_absence_of(v@) == Ok::<_, ErrV>(a.deep_view()),
                Err(e) => spec_absence_of(v@) == Err::<AbsenceV, _>(e.deep_view()),
            },
    {
        let ss = match str_vec_of(v) {
            Ok(ss) => ss,
            Err(e) => {
                return Err(e);
            },
        };
        if ss.len() != 3 {
            return Err(
                DecodeError::here(ErrorKind::WrongLength { expected: 3, actual: ss.len() }),
            );
        }
        let a = JustifiedAbsence {
            start: ss[0].clone(),
            end: ss[1].clone(),
            comment: ss[2].clone(),
        };
        proof {
            assert(a.deep_view() =~= (spec_absence_of(v@)->Ok_0));
        }
        Ok(a)
    }
}

/// A required field holding one person.
pub fn get_person(m: &NormalizedMap, key: &str) -> (r: Result<Person, DecodeError>)
    ensures
        match r {
            Ok(p) => spec_field(m@, key@, f_person()) == Ok::<_, ErrV>(p.deep_view()),
            Err(e) => spec_field(m@, key@, f_person()) == Err::<PersonV, _>(e.deep_view()),
        },
{
    match m.get(key) {
        Some(v) => match Person::decode(v) {
            Ok(p) => Ok(p),
            Err(e) => Err(e.in_field(key)),
        },
        None => Err(field_err(key, ErrorKind::Missing)),
    }
}

/// A required field holding an array of persons.
#[verifier::loop_isolation(false)]
pub fn get_person_vec(m: &NormalizedMap, key: &str) -> (r: Result<Vec<Person>, DecodeError>)
    ensures
        match r {
            Ok(out) => spec_field(m@, key@, f_arr(f_person())) == Ok::<_, ErrV>(out.deep_view()),
            Err(e) => spec_field(m@, key@, f_arr(f_person())) == Err::<Seq<PersonV>, _>(
                e.deep_view(),
            ),
        },
{
    match m.get(key) {
        Some(v) => match v {
            JsonValue::Arr(q) => {
                let ghost qs = jv_of_arr(q@);
                proof {
                    lemma_jv_of_arr(q@);
                }
                let mut out: Vec<Person> = Vec::new();
                proof {
                    assert(qs.take(0) =~= Seq::<JVal>::empty());
                    assert(out.deep_view() =~= Seq::<PersonV>::empty());
                }
                let mut i: usize = 0;
                while i < q.len()
                    invariant
                        i <= q.len(),
                        spec_vec_dec(qs.take(i as int), f_person()) == Ok::<_, ErrV>(
                            out.deep_view(),
                        ),
                    decreases q.len() - i,
                {
                    proof {
                        assert(qs.take(i + 1 as int).drop_last() =~= qs.take(i as int));
                        assert(qs.take(i + 1 as int).last() == qs[i as int]);
                    }
                    match Person::decode(&q[i]) {
                        Ok(p) => {
                            let ghost prev = out.deep_view();
                            let ghost pv = p.deep_view();
                            out.push(p);
                            proof {
                                assert(out.deep_view() =~= prev.push(pv));
                            }
                        },
                        Err(e0) => {
                            let e = e0.at_index(i).in_field(key);
                            proof {
                                lemma_vec_dec_err_stays(qs, f_person(), i + 1 as int);
                            }
                            return Err(e);
                        },
                    }
                    i += 1;
                }
                proof {
                    assert(qs.take(q@.len() as int) =~= qs);
                }
                Ok(out)
            },
            _ => Err(DecodeError::here(ErrorKind::NotAnArray).in_field(key)),
        },
        None => Err(field_err(key, ErrorKind::Missing)),
    }
}

/// A required field holding an array of justified absences.
#[verifier::loop_isolation(false)]
pub fn get_absence_vec(m: &NormalizedMap, key: &str) -> (r: Result<
    Vec<JustifiedAbsence>,
    DecodeError,
>)
    ensures
        match r {
            Ok(out) => spec_field(m@, key@, f_arr(f_absence())) == Ok::<_, ErrV>(out.deep_view()),
            Err(e) => spec_field(m@, key@, f_arr(f_absence())) == Err::<Seq<AbsenceV>, _>(
                e.deep_view(),
            ),
        },
{
    match m.get(key) {
        Some(v) => match v {
            JsonValue::Arr(q) => {
                let ghost qs = jv_of_arr(q@);
                proof {
                    lemma_jv_of_arr(q@);
                }
                let mut out: Vec<JustifiedAbsence> = Vec::new();
                proof {
                    assert(qs.take(0) =~= Seq::<JVal>::empty());
                    assert(out.deep_view() =~= Seq::<AbsenceV>::empty());
                }
                let mut i: usize = 0;
                while i < q.len()
                    invariant
                        i <= q.len(),
                        spec_vec_dec(qs.take(i as int), f_absence()) == Ok::<_, ErrV>(
                            out.deep_view(),
                        ),
                    decreases q.len() - i,
                {
                    proof {
                        assert(qs.take(i + 1 as int).drop_last() =~= qs.take(i as int));
                        assert(qs.take(i + 1 as int).last() == qs[i as int]);
                    }
                    match JustifiedAbsence::decode(&q[i]) {
                        Ok(a) => {
                            let ghost prev = out.deep_view();
                            let ghost av = a.deep_view();
                            out.push(a);
                            proof {
                                assert(out.deep_view() =~= prev.push(av));
                            }
                        },
                        Err(e0) => {
                            let e = e0.at_index(i).in_field(key);
                            proof {
                                lemma_vec_dec_err_stays(qs, f_absence(), i + 1 as int);
                            }
                            return Err(e);
                        },
                    }
                    i += 1;
                }
                proof {
                    assert(qs.take(q@.len() as int) =~= qs);
                }
                Ok(out)
            },
            _ => Err(DecodeError::here(ErrorKind::NotAnArray).in_field(key)),
        },
        None => Err(field_err(key, ErrorKind::Missing)),
    }
}

} // verus!
