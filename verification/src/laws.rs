//! The laws of the decoder, stated and proved once and for all inputs:
//! the domain of the integer-as-boolean coercion, the exact behaviour of
//! the positional person decoder, the grade-feed envelope's shape, and
//! the decoder being a pure function of its input.

use vstd::prelude::*;

use crate::coerce::spec_int_as_bool;
use crate::error::{spec_category, spec_err_here, ErrV, ErrorCategory, ErrorKindV};
use crate::fields::{f_str, spec_arr_of, spec_vec_dec};
use crate::grades::{f_grade, spec_grades_of};
use crate::json::JVal;
use crate::record::{spec_tomuss_map, TomussDataV};
use crate::tuples::{spec_person_of, PersonV};

verus! {

/// An integer flag coerces to exactly false on 0 and true on 1; every
/// other integer fails with a domain violation naming that integer.
pub proof fn lemma_int_bool_domain(n: int)
    ensures
        n == 0 ==> spec_int_as_bool(JVal::Int(n)) == Ok::<bool, ErrorKindV>(false),
        n == 1 ==> spec_int_as_bool(JVal::Int(n)) == Ok::<bool, ErrorKindV>(true),
        n != 0 && n != 1 ==> spec_int_as_bool(JVal::Int(n)) == Err::<bool, _>(
            ErrorKindV::NotZeroOrOne { value: n },
        ),
        spec_category(ErrorKindV::NotZeroOrOne { value: n }) == ErrorCategory::DomainViolation,
{
}

/// In a sequence whose every element decodes, the results map the
/// elements one for one, in order.
pub proof fn lemma_vec_dec_ok_elements<T>(q: Seq<JVal>, f: spec_fn(JVal) -> Result<T, ErrV>)
    requires
        spec_vec_dec(q, f) is Ok,
    ensures
        (spec_vec_dec(q, f)->Ok_0).len() == q.len(),
        forall|i: int| #![trigger q[i]]
            0 <= i < q.len() ==> f(q[i]) is Ok && (spec_vec_dec(q, f)->Ok_0)[i] == (f(q[i])->Ok_0),
    decreases q.len(),
{
    if q.len() > 0 {
        assert(spec_vec_dec(q.drop_last(), f) is Ok);
        lemma_vec_dec_ok_elements(q.drop_last(), f);
        assert forall|i: int| #![trigger q[i]]
            0 <= i < q.len() implies f(q[i]) is Ok && (spec_vec_dec(q, f)->Ok_0)[i] == (f(
            q[i],
        )->Ok_0) by {
            let ts = spec_vec_dec(q.drop_last(), f)->Ok_0;
            let t = f(q.last())->Ok_0;
            assert(spec_vec_dec(q, f)->Ok_0 == ts.push(t));
            if i < q.len() - 1 {
                assert(q.drop_last()[i] == q[i]);
                assert(ts.push(t)[i] == ts[i]);
            } else {
                assert(q.last() == q[i]);
                assert(ts.push(t)[i] == t);
            }
        }
    }
}

/// The person decoder, over every array of strings: a length other than
/// three is a structural error reporting the actual length; with length
/// three and no `@` in the third element it is a domain violation; and
/// with an `@` it succeeds, the fields mapping positionally (name,
/// surname, email).
pub proof fn lemma_person_decode(v: JVal, ss: Seq<Seq<char>>)
    requires
        spec_arr_of(v, f_str()) == Ok::<_, ErrV>(ss),
    ensures
        ss.len() != 3 ==> spec_person_of(v) == Err::<PersonV, _>(
            spec_err_here(ErrorKindV::WrongLength { expected: 3, actual: ss.len() as int }),
        ) && spec_category(ErrorKindV::WrongLength { expected: 3, actual: ss.len() as int })
            == ErrorCategory::StructuralError,
        ss.len() == 3 && !ss[2].contains('@') ==> spec_person_of(v) == Err::<PersonV, _>(
            spec_err_here(ErrorKindV::NoAtSign { value: ss[2] }),
        ) && spec_category(ErrorKindV::NoAtSign { value: ss[2] })
            == ErrorCategory::DomainViolation,
        ss.len() == 3 && ss[2].contains('@') ==> spec_person_of(v) == Ok::<_, ErrV>(
            PersonV { name: ss[0], surname: ss[1], mail: ss[2] },
        ),
{
}

/// The grade-feed envelope, over every well-shaped input: with exactly
/// two elements, the second an empty list, and every table in the first
/// decoding, the result holds exactly the decoded tables of element 0,
/// in their original order; a non-empty second element or a wrong outer
/// length is a structural error.
pub proof fn lemma_grades_envelope(q: Seq<JVal>, g: Seq<JVal>, z: Seq<JVal>)
    ensures
        (q.len() == 2 && q[0] == JVal::Arr(g) && q[1] == JVal::Arr(z) && z.len() == 0
            && spec_vec_dec(g, f_grade()) is Ok) ==> {
            &&& spec_grades_of(JVal::Arr(q)) is Ok
            &&& (spec_grades_of(JVal::Arr(q))->Ok_0).len() == g.len()
            &&& forall|i: int|
                0 <= i < g.len() ==> (spec_grades_of(JVal::Arr(q))->Ok_0)[i] == (f_grade()(
                    g[i],
                )->Ok_0)
        },
        (q.len() == 2 && q[1] == JVal::Arr(z) && z.len() != 0) ==> spec_grades_of(JVal::Arr(q))
            is Err && spec_category((spec_grades_of(JVal::Arr(q))->Err_0).kind)
            == ErrorCategory::StructuralError,
        q.len() != 2 ==> spec_grades_of(JVal::Arr(q)) == Err::<Seq<crate::grades::GradeV>, _>(
            spec_err_here(ErrorKindV::WrongLength { expected: 2, actual: q.len() as int }),
        ) && spec_category(ErrorKindV::WrongLength { expected: 2, actual: q.len() as int })
            == ErrorCategory::StructuralError,
{
    if q.len() == 2 && q[0] == JVal::Arr(g) && q[1] == JVal::Arr(z) && z.len() == 0
        && spec_vec_dec(g, f_grade()) is Ok {
        lemma_vec_dec_ok_elements(g, f_grade());
    }
}

/// Decoding is a pure function of the normalized mapping: two results
/// that both meet the decoder's contract on the same mapping are the
/// same value, so decoding the same mapping twice yields identical
/// records.
pub proof fn lemma_decode_deterministic(
    m: Map<Seq<char>, JVal>,
    r1: Result<TomussDataV, ErrV>,
    r2: Result<TomussDataV, ErrV>,
)
    requires
        r1 == spec_tomuss_map(m),
        r2 == spec_tomuss_map(m),
    ensures
        r1 == r2,
{
}

} // verus!
