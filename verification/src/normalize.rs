//! The pair-list normalizer: the feed's sequence of `[key, value]` pairs
//! becomes a uniquely keyed mapping from key to raw value. Duplicate keys
//! follow a last-write-wins policy, matching the feed producer's own
//! overwrite behaviour. The first malformed pair stops the normalization.

use vstd::prelude::*;

use crate::error::{DecodeError, ErrV, ErrorKind, ErrorKindV, PathSegV};
use crate::json::{jv_of, jv_of_arr, jv_of_obj, lemma_jv_of_arr, lemma_jv_of_obj, JVal, JsonValue};
use crate::text::str_eq;

verus! {

/// The mapping that a sequence of (key, value) entries builds up when the
/// entries are applied in order, each overwriting the key it names.
pub open spec fn map_of(s: Seq<(Seq<char>, JVal)>) -> Map<Seq<char>, JVal>
    decreases s.len(),
{
    if s.len() == 0 {
        Map::empty()
    } else {
        map_of(s.drop_last()).insert(s.last().0, s.last().1)
    }
}

/// Applying one more entry inserts its key.
pub proof fn lemma_map_of_push(s: Seq<(Seq<char>, JVal)>, kv: (Seq<char>, JVal))
    ensures
        map_of(s.push(kv)) == map_of(s).insert(kv.0, kv.1),
{
    assert(s.push(kv).drop_last() =~= s);
    assert(s.push(kv).last() == kv);
}

/// What one pair of the feed contributes: its key and raw value, or the
/// failure it causes. `i` is the pair's position in the feed.
pub open spec fn spec_pair(p: JVal, i: int) -> Result<(Seq<char>, JVal), ErrV> {
    match p {
        JVal::Arr(q) => if q.len() == 2 {
            match q[0] {
                JVal::Str(k) => Ok((k, q[1])),
                _ => Err(
                    ErrV {
                        path: seq![PathSegV::Index(i)],
                        kind: ErrorKindV::KeyNotString { index: i },
                    },
                ),
            }
        } else {
            Err(
                ErrV {
                    path: seq![PathSegV::Index(i)],
                    kind: ErrorKindV::WrongLength { expected: 2, actual: q.len() as int },
                },
            )
        },
        _ => Err(ErrV { path: seq![PathSegV::Index(i)], kind: ErrorKindV::NotAnArray }),
    }
}

/// The normalized mapping of a pair list, or the failure caused by the
/// first malformed pair. Later pairs overwrite earlier ones.
pub open spec fn spec_normalize(pairs: Seq<JVal>) -> Result<Map<Seq<char>, JVal>, ErrV>
    decreases pairs.len(),
{
    if pairs.len() == 0 {
        Ok(Map::empty())
    } else {
        match spec_normalize(pairs.drop_last()) {
            Ok(m) => match spec_pair(pairs.last(), pairs.len() - 1) {
                Ok(kv) => Ok(m.insert(kv.0, kv.1)),
                Err(e) => Err(e),
            },
            Err(e) => Err(e),
        }
    }
}

/// Once some prefix of the pair list fails, the whole list fails the same
/// way: the first error is the one reported.
proof fn lemma_normalize_err_stays(pairs: Seq<JVal>, j: int)
    requires
        0 <= j <= pairs.len(),
        spec_normalize(pairs.take(j)) is Err,
    ensures
        spec_normalize(pairs) == spec_normalize(pairs.take(j)),
    decreases pairs.len() - j,
{
    if j == pairs.len() {
        assert(pairs.take(j) =~= pairs);
    } else {
        assert(pairs.take(j + 1).drop_last() =~= pairs.take(j));
        lemma_normalize_err_stays(pairs, j + 1);
    }
}

/// The uniquely keyed mapping from field name to raw value that stands
/// between the normalizer and the typed decoder.
#[derive(Debug)]
pub struct NormalizedMap {
    entries: Vec<(String, JsonValue)>,
}

impl View for NormalizedMap {
    type V = Map<Seq<char>, JVal>;

    closed spec fn view(&self) -> Map<Seq<char>, JVal> {
        map_of(jv_of_obj(self.entries@))
    }
}

/// What a lookup in the mapping built from `s` returns for `k`.
pub open spec fn spec_lookup(s: Seq<(Seq<char>, JVal)>, k: Seq<char>) -> Option<JVal> {
    if map_of(s).contains_key(k) {
        Some(map_of(s)[k])
    } else {
        None
    }
}

impl NormalizedMap {
    /// Turn the feed's pair list into the normalized mapping, or report
    /// the first malformed pair: one that is not an array, not of length
    /// two, or whose first element is not a string.
    pub fn normalize(pairs: &Vec<JsonValue>) -> (r: Result<NormalizedMap, DecodeError>)
        ensures
            match r {
                Ok(m) => spec_normalize(jv_of_arr(pairs@)) == Ok::<_, ErrV>(m@),
                Err(e) => spec_normalize(jv_of_arr(pairs@)) == Err::<Map<Seq<char>, JVal>, _>(
                    e.deep_view(),
                ),
            },
    {
        broadcast use crate::json::lemma_jv_of_arr;
        broadcast use crate::json::lemma_jv_of_obj;

        let ghost ps = jv_of_arr(pairs@);
        let mut entries: Vec<(String, JsonValue)> = Vec::new();
        let mut i: usize = 0;
        while i < pairs.len()
            invariant
                i <= pairs.len(),
                ps == jv_of_arr(pairs@),
                ps.len() == pairs@.len(),
                spec_normalize(ps.take(i as int)) == Ok::<_, ErrV>(map_of(jv_of_obj(entries@))),
            decreases pairs.len() - i,
        {
            proof {
                lemma_jv_of_arr(pairs@);
                assert(ps.take(i + 1 as int).drop_last() =~= ps.take(i as int));
                assert(ps.take(i + 1 as int).last() == ps[i as int]);
                assert(ps[i as int] == jv_of(pairs@[i as int]));
            }
            let kv: (String, JsonValue) = match &pairs[i] {
                JsonValue::Arr(p) => {
                    if p.len() != 2 {
                        let e = DecodeError::here(
                            ErrorKind::WrongLength { expected: 2, actual: p.len() },
                        ).at_index(i);
                        proof {
                            lemma_jv_of_arr(p@);
                            assert(e.deep_view() =~= ErrV {
                                path: seq![PathSegV::Index(i as int)],
                                kind: ErrorKindV::WrongLength { expected: 2, actual: p@.len() as int },
                            });
                            assert(spec_normalize(ps.take(i + 1 as int)) == Err::<
                                Map<Seq<char>, JVal>,
                                _,
                            >(e.deep_view()));
                            lemma_normalize_err_stays(ps, i + 1 as int);
                        }
                        return Err(e);
                    } else {
                        match &p[0] {
                            JsonValue::Str(k) => {
                                let kv = (k.clone(), p[1].clone());
                                proof {
                                    lemma_jv_of_arr(p@);
                                    assert(spec_pair(ps[i as int], i as int) == Ok::<_, ErrV>(
                                        (kv.0@, jv_of(kv.1)),
                                    ));
                                }
                                kv
                            },
                            _ => {
                                let e = DecodeError::here(
                                    ErrorKind::KeyNotString { index: i },
                                ).at_index(i);
                                proof {
                                    lemma_jv_of_arr(p@);
                                    assert(e.deep_view() =~= ErrV {
                                        path: seq![PathSegV::Index(i as int)],
                                        kind: ErrorKindV::KeyNotString { index: i as int },
                                    });
                                    assert(spec_normalize(ps.take(i + 1 as int)) == Err::<
                                        Map<Seq<char>, JVal>,
                                        _,
                                    >(e.deep_view()));
                                    lemma_normalize_err_stays(ps, i + 1 as int);
                                }
                                return Err(e);
                            },
                        }
                    }
                },
                _ => {
                    let e = DecodeError::here(ErrorKind::NotAnArray).at_index(i);
                    proof {
                        assert(e.deep_view() =~= ErrV {
                            path: seq![PathSegV::Index(i as int)],
                            kind: ErrorKindV::NotAnArray,
                        });
                        assert(spec_normalize(ps.take(i + 1 as int)) == Err::<
                            Map<Seq<char>, JVal>,
                            _,
                        >(e.deep_view()));
                        lemma_normalize_err_stays(ps, i + 1 as int);
                    }
                    return Err(e);
                },
            };
            let ghost prev = entries@;
            let ghost gkv = kv;
            entries.push(kv);
            proof {
                crate::json::lemma_jv_of_obj_push(prev, gkv);
                lemma_map_of_push(jv_of_obj(prev), (gkv.0@, jv_of(gkv.1)));
                assert(spec_normalize(ps.take(i + 1 as int)) == Ok::<_, ErrV>(
                    map_of(jv_of_obj(entries@)),
                ));
            }
            i += 1;
        }
        proof {
            assert(ps.take(pairs@.len() as int) =~= ps);
        }
        Ok(NormalizedMap { entries })
    }

    /// The mapping held by an object value: its entries, later ones
    /// overwriting earlier ones, as the feed's nested records are keyed
    /// objects already.
    pub fn of_object(v: &JsonValue) -> (r: Result<NormalizedMap, ErrorKind>)
        ensures
            match r {
                Ok(m) => v@ is Obj && m@ == map_of(v@->Obj_0),
                Err(k) => !(v@ is Obj) && k.deep_view() == ErrorKindV::NotAnObject,
            },
    {
        match v {
            JsonValue::Obj(_) => {
                let c = v.clone();
                match c {
                    JsonValue::Obj(o) => Ok(NormalizedMap { entries: o }),
                    _ => vstd::pervasive::unreached(),
                }
            },
            _ => Err(ErrorKind::NotAnObject),
        }
    }

    /// Look a field name up. The raw value of the last pair that named
    /// this key is returned; a key no pair named gives `None`.
    pub fn get<'a>(&'a self, key: &str) -> (r: Option<&'a JsonValue>)
        ensures
            match r {
                Some(v) => self@.contains_key(key@) && v@ == self@[key@],
                None => !self@.contains_key(key@),
            },
    {
        broadcast use crate::json::lemma_jv_of_obj;

        let ghost s = jv_of_obj(self.entries@);
        proof {
            assert(s.take(self.entries@.len() as int) =~= s);
        }
        let mut j: usize = self.entries.len();
        while j > 0
            invariant
                j <= self.entries.len(),
                s == jv_of_obj(self.entries@),
                s.len() == self.entries@.len(),
                spec_lookup(s, key@) == spec_lookup(s.take(j as int), key@),
            decreases j,
        {
            j = j - 1;
            proof {
                lemma_jv_of_obj(self.entries@);
                assert(s.take(j + 1 as int).drop_last() =~= s.take(j as int));
                assert(s.take(j + 1 as int).last() == s[j as int]);
                assert(s[j as int] == (self.entries@[j as int].0@, jv_of(self.entries@[j as int].1)));
                assert(map_of(s.take(j + 1 as int)) == map_of(s.take(j as int)).insert(
                    s[j as int].0,
                    s[j as int].1,
                ));
            }
            if str_eq(self.entries[j].0.as_str(), key) {
                proof {
                    assert(spec_lookup(s.take(j + 1 as int), key@) == Some(s[j as int].1));
                }
                return Some(&self.entries[j].1);
            }
            proof {
                assert(s[j as int].0 != key@);
                assert(spec_lookup(s.take(j + 1 as int), key@) == spec_lookup(
                    s.take(j as int),
                    key@,
                ));
            }
        }
        proof {
            assert(s.take(0) =~= Seq::<(Seq<char>, JVal)>::empty());
        }
        None
    }
}

} // verus!
