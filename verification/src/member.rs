//! Group memberships: LDAP-style groups as (common-name,
//! organizational-unit) pairs, and an auxiliary list of other groups as
//! raw (label, value) pairs.

use vstd::prelude::*;

use crate::error::{spec_err_here, DecodeError, ErrV, ErrorKind, ErrorKindV};
use crate::fields::{
    f_arr, f_str, field_err, lemma_vec_dec_err_stays, spec_arr_of, spec_field, spec_vec_dec,
    str_vec_of,
};
use crate::json::{jv_of_arr, lemma_jv_of_arr, JVal, JsonValue};
use crate::normalize::{map_of, NormalizedMap};

verus! {

/// One LDAP-style group membership, encoded positionally as a pair.
#[derive(Debug, PartialEq)]
pub struct LDAPGroup {
    pub common_name: String,
    pub organizational_unit: String,
}

/// Mathematical value of a group membership.
#[verifier::ext_equal]
pub ghost struct LDAPGroupV {
    pub common_name: Seq<char>,
    pub organizational_unit: Seq<char>,
}

impl DeepView for LDAPGroup {
    type V = LDAPGroupV;

    open spec fn deep_view(&self) -> LDAPGroupV {
        LDAPGroupV {
            common_name: self.common_name@,
            organizational_unit: self.organizational_unit@,
        }
    }
}

/// What decoding a group membership yields: an array of exactly two
/// strings, common name first.
pub open spec fn spec_ldap_of(v: JVal) -> Result<LDAPGroupV, ErrV> {
    match spec_arr_of(v, f_str()) {
        Ok(ss) => if ss.len() != 2 {
            Err(spec_err_here(ErrorKindV::WrongLength { expected: 2, actual: ss.len() as int }))
        } else {
            Ok(LDAPGroupV { common_name: ss[0], organizational_unit: ss[1] })
        },
        Err(e) => Err(e),
    }
}

/// The group-membership decoder, as a value.
pub open spec fn f_ldap() -> spec_fn(JVal) -> Result<LDAPGroupV, ErrV> {
    |v: JVal| spec_ldap_of(v)
}

impl LDAPGroup {
    /// Decode one positionally encoded group membership.
    pub fn decode(v: &JsonValue) -> (r: Result<LDAPGroup, DecodeError>)
        ensures
            match r {
                Ok(g) => spec_ldap_of(v@) == Ok::<_, ErrV>(g.deep_view()),
                Err(e) => spec_ldap_of(v@) == Err::<LDAPGroupV, _>(e.deep_view()),
            },
    {
        let ss = match str_vec_of(v) {
            Ok(ss) => ss,
            Err(e) => {
                return Err(e);
            },
        };
        if ss.len() != 2 {
            return Err(
                DecodeError::here(ErrorKind::WrongLength { expected: 2, actual: ss.len() }),
            );
        }
        let g = LDAPGroup { common_name: ss[0].clone(), organizational_unit: ss[1].clone() };
        proof {
            assert(g.deep_view() =~= (spec_ldap_of(v@)->Ok_0));
        }
        Ok(g)
    }
}

/// A raw (label, value) pair: an array of exactly two strings.
pub open spec fn spec_pair2_of(v: JVal) -> Result<(Seq<char>, Seq<char>), ErrV> {
    match spec_arr_of(v, f_str()) {
        Ok(ss) => if ss.len() != 2 {
            Err(spec_err_here(ErrorKindV::WrongLength { expected: 2, actual: ss.len() as int }))
        } else {
            Ok((ss[0], ss[1]))
        },
        Err(e) => Err(e),
    }
}

/// The raw-pair decoder, as a value.
pub open spec fn f_pair() -> spec_fn(JVal) -> Result<(Seq<char>, Seq<char>), ErrV> {
    |v: JVal| spec_pair2_of(v)
}

/// Decode one raw (label, value) pair.
fn pair2_of(v: &JsonValue) -> (r: Result<(String, String), DecodeError>)
    ensures
        match r {
            Ok(p) => spec_pair2_of(v@) == Ok::<_, ErrV>(p.deep_view()),
            Err(e) => spec_pair2_of(v@) == Err::<(Seq<char>, Seq<char>), _>(e.deep_view()),
        },
{
    let ss = match str_vec_of(v) {
        Ok(ss) => ss,
        Err(e) => {
            return Err(e);
        },
    };
    if ss.len() != 2 {
        return Err(DecodeError::here(ErrorKind::WrongLength { expected: 2, actual: ss.len() }));
    }
    let p = (ss[0].clone(), ss[1].clone());
    proof {
        assert(p.deep_view() =~= (spec_pair2_of(v@)->Ok_0));
    }
    Ok(p)
}

/// A required field holding an array of group memberships.
#[verifier::loop_isolation(false)]
pub fn get_ldap_vec(m: &NormalizedMap, key: &str) -> (r: Result<Vec<LDAPGroup>, DecodeError>)
    ensures
        match r {
            Ok(out) => spec_field(m@, key@, f_arr(f_ldap())) == Ok::<_, ErrV>(out.deep_view()),
            Err(e) => spec_field(m@, key@, f_arr(f_ldap())) == Err::<Seq<LDAPGroupV>, _>(
                e.deep_view(),
            ),
        },
{
    match m.get(key) {
        Some(v) => match v {
            JsonValue::Arr(q) => {
                let ghost qs = jv_of_arr(q@);
                proof {
                    lemma_jv_of_arr(q@);
                }
                let mut out: Vec<LDAPGroup> = Vec::new();
                proof {
                    assert(qs.take(0) =~= Seq::<JVal>::empty());
                    assert(out.deep_view() =~= Seq::<LDAPGroupV>::empty());
                }
                let mut i: usize = 0;
                while i < q.len()
                    invariant
                        i <= q.len(),
                        spec_vec_dec(qs.take(i as int), f_ldap()) == Ok::<_, ErrV>(
                            out.deep_view(),
                        ),
                    decreases q.len() - i,
                {
                    proof {
                        assert(qs.take(i + 1 as int).drop_last() =~= qs.take(i as int));
                        assert(qs.take(i + 1 as int).last() == qs[i as int]);
                    }
                    match LDAPGroup::decode(&q[i]) {
                        Ok(x) => {
                            let ghost prev = out.deep_view();
                            let ghost xv = x.deep_view();
                            out.push(x);
                            proof {
                                assert(out.deep_view() =~= prev.push(xv));
                            }
                        },
                        Err(e0) => {
                            let e = e0.at_index(i).in_field(key);
                            proof {
                                lemma_vec_dec_err_stays(qs, f_ldap(), i + 1 as int);
                            }
                            return Err(e);
                        },
                    }
                    i += 1;
                }
                proof {
                    assert(qs.take(q@.len() as int) =~= qs);
                }
                Ok(out)
            },
            _ => Err(DecodeError::here(ErrorKind::NotAnArray).in_field(key)),
        },
        None => Err(field_err(key, ErrorKind::Missing)),
    }
}

/// A required field holding an array of raw (label, value) pairs.
#[verifier::loop_isolation(false)]
pub fn get_pair_vec(m: &NormalizedMap, key: &str) -> (r: Result<Vec<(String, String)>, DecodeError>)
    ensures
        match r {
            Ok(out) => spec_field(m@, key@, f_arr(f_pair())) == Ok::<_, ErrV>(out.deep_view()),
            Err(e) => spec_field(m@, key@, f_arr(f_pair())) == Err::<Seq<(Seq<char>, Seq<char>)>, _>(
                e.deep_view(),
            ),
        },
{
    match m.get(key) {
        Some(v) => match v {
            JsonValue::Arr(q) => {
                let ghost qs = jv_of_arr(q@);
                proof {
                    lemma_jv_of_arr(q@);
                }
                let mut out: Vec<(String, String)> = Vec::new();
                proof {
                    assert(qs.take(0) =~= Seq::<JVal>::empty());
                    assert(out.deep_view() =~= Seq::<(Seq<char>, Seq<char>)>::empty());
                }
                let mut i: usize = 0;
                while i < q.len()
                    invariant
                        i <= q.len(),
                        spec_vec_dec(qs.take(i as int), f_pair()) == Ok::<_, ErrV>(
                            out.deep_view(),
                        ),
                    decreases q.len() - i,
                {
                    proof {
                        assert(qs.take(i + 1 as int).drop_last() =~= qs.take(i as int));
                        assert(qs.take(i + 1 as int).last() == qs[i as int]);
                    }
                    match pair2_of(&q[i]) {
                        Ok(x) => {
                            let ghost prev = out.deep_view();
                            let ghost xv = x.deep_view();
                            out.push(x);
                            proof {
                                assert(out.deep_view() =~= prev.push(xv));
                            }
                        },
                        Err(e0) => {
                            let e = e0.at_index(i).in_field(key);
                            proof {
                                lemma_vec_dec_err_stays(qs, f_pair(), i + 1 as int);
                            }
                            return Err(e);
                        },
                    }
                    i += 1;
                }
                proof {
                    assert(qs.take(q@.len() as int) =~= qs);
                }
                Ok(out)
            },
            _ => Err(DecodeError::here(ErrorKind::NotAnArray).in_field(key)),
        },
        None => Err(field_err(key, ErrorKind::Missing)),
    }
}

/// The group memberships of the account.
#[derive(Debug, PartialEq)]
pub struct MemberOf {
    pub ldap_groups: Vec<LDAPGroup>,
    pub other_groups: Vec<(String, String)>,
}

/// Mathematical value of the record.
#[verifier::ext_equal]
pub ghost struct MemberOfV {
    pub ldap_groups: Seq<LDAPGroupV>,
    pub other_groups: Seq<(Seq<char>, Seq<char>)>,
}

impl DeepView for MemberOf {
    type V = MemberOfV;

    open spec fn deep_view(&self) -> MemberOfV {
        MemberOfV {
            ldap_groups: self.ldap_groups.deep_view(),
            other_groups: self.other_groups.deep_view(),
        }
    }
}

/// What decoding the membership record yields, field by field.
pub open spec fn spec_member_map(m: Map<Seq<char>, JVal>) -> Result<MemberOfV, ErrV> {
    if spec_field(m, "ldap_groups"@, f_arr(f_ldap())) is Err {
        Err(spec_field(m, "ldap_groups"@, f_arr(f_ldap()))->Err_0)
    } else if spec_field(m, "other_groups"@, f_arr(f_pair())) is Err {
        Err(spec_field(m, "other_groups"@, f_arr(f_pair()))->Err_0)
    } else {
        Ok(MemberOfV {
            ldap_groups: spec_field(m, "ldap_groups"@, f_arr(f_ldap()))->Ok_0,
            other_groups: spec_field(m, "other_groups"@, f_arr(f_pair()))->Ok_0,
        })
    }
}

/// The record, decoded from an object value.
pub open spec fn spec_member_of(v: JVal) -> Result<MemberOfV, ErrV> {
    match v {
        JVal::Obj(o) => spec_member_map(map_of(o)),
        _ => Err(spec_err_here(ErrorKindV::NotAnObject)),
    }
}

/// The record decoder, as a value.
pub open spec fn f_member() -> spec_fn(JVal) -> Result<MemberOfV, ErrV> {
    |v: JVal| spec_member_of(v)
}

impl MemberOf {
    /// Decode the record from an object value, field by field; the
    /// first failing field reports, annotated with its name.
    #[verifier::rlimit(100)]
    pub fn decode(v: &JsonValue) -> (r: Result<MemberOf, DecodeError>)
        ensures
            match r {
                Ok(d) => spec_member_of(v@) == Ok::<_, ErrV>(d.deep_view()),
                Err(e) => spec_member_of(v@) == Err::<MemberOfV, _>(e.deep_view()),
            },
    {
        let pm = match NormalizedMap::of_object(v) {
            Ok(pm) => pm,
            Err(k) => {
                return Err(DecodeError::here(k));
            },
        };
        proof {
            assert(spec_member_of(v@) == spec_member_map(pm@));
        }
        let ldap_groups = match get_ldap_vec(&pm, "ldap_groups") {
            Ok(x) => x,
            Err(e) => {
                return Err(e);
            },
        };
        let other_groups = match get_pair_vec(&pm, "other_groups") {
            Ok(x) => x,
            Err(e) => {
                return Err(e);
            },
        };
        let r = MemberOf {
            ldap_groups,
            other_groups,
        };
        proof {
            assert(spec_member_map(pm@) is Ok);
            assert(spec_member_map(pm@)->Ok_0 =~= r.deep_view());
        }
        Ok(r)
    }
}

} // verus!
