//! Grade sheets: one table per sheet, with its masters, rounding rule,
//! column definitions, per-student line and aggregate stats. The feed
//! wraps the tables in a two-element envelope whose second slot is a
//! reserved empty list.

use vstd::prelude::*;

use crate::coerce::JsonNumber;
use crate::error::{
    spec_err_here, spec_err_nested, DecodeError, ErrV, ErrorKind, ErrorKindV, PathSegV,
};
use crate::fields::{
    f_arr, f_int, f_intbool, f_number, f_raw, f_str, f_strf32, field_err, get_int, get_int_bool,
    get_int_bool_or_false, get_int_vec, get_number, get_number_vec, get_opt_int, get_opt_raw,
    get_opt_string, get_opt_strf32, get_raw, get_raw_vec, get_str_vec, get_string, ints_of,
    lemma_vec_dec_err_stays, spec_field, spec_field_or, spec_opt_field, spec_vec_dec,
};
use crate::json::{jv_of_arr, lemma_jv_of_arr, JVal, JsonValue};
use crate::normalize::{map_of, NormalizedMap};
use crate::numtext::WrappedStrF32;
use crate::text::str_eq;
use crate::tuples::{f_person, get_person_vec, Person, PersonV};

verus! {

/// The tri-state freeze marker of a column; absent means not frozen.
#[derive(Debug, PartialEq, Eq, Structural, Clone, Copy)]
pub enum Freezed {
    NotFrozen,
    F,
    C,
}

/// What decoding a freeze marker yields: one of the tags `None`, `F`
/// or `C`; any other tag is a domain violation naming it.
pub open spec fn spec_freezed_of(v: JVal) -> Result<Freezed, ErrV> {
    match v {
        JVal::Str(s) => if s == "None"@ {
            Ok(Freezed::NotFrozen)
        } else if s == "F"@ {
            Ok(Freezed::F)
        } else if s == "C"@ {
            Ok(Freezed::C)
        } else {
            Err(spec_err_here(ErrorKindV::UnknownTag { value: s }))
        },
        _ => Err(spec_err_here(ErrorKindV::NotAString)),
    }
}

/// The freeze-marker decoder, as a value.
pub open spec fn f_freezed() -> spec_fn(JVal) -> Result<Freezed, ErrV> {
    |v: JVal| spec_freezed_of(v)
}

/// Decode a freeze marker tag.
fn freezed_of(v: &JsonValue) -> (r: Result<Freezed, DecodeError>)
    ensures
        match r {
            Ok(t) => spec_freezed_of(v@) == Ok::<_, ErrV>(t),
            Err(e) => spec_freezed_of(v@) == Err::<Freezed, _>(e.deep_view()),
        },
{
    match v {
        JsonValue::Str(s) => {
            if str_eq(s.as_str(), "None") {
                Ok(Freezed::NotFrozen)
            } else if str_eq(s.as_str(), "F") {
                Ok(Freezed::F)
            } else if str_eq(s.as_str(), "C") {
                Ok(Freezed::C)
            } else {
                Err(DecodeError::here(ErrorKind::UnknownTag { value: s.clone() }))
            }
        },
        _ => Err(DecodeError::here(ErrorKind::NotAString)),
    }
}

/// A freeze-marker field, absent-as-not-frozen.
pub fn get_freezed(m: &NormalizedMap, key: &str) -> (r: Result<Freezed, DecodeError>)
    ensures
        match r {
            Ok(t) => spec_field_or(m@, key@, f_freezed(), Freezed::NotFrozen) == Ok::<_, ErrV>(t),
            Err(e) => spec_field_or(m@, key@, f_freezed(), Freezed::NotFrozen) == Err::<Freezed, _>(
                e.deep_view(),
            ),
        },
{
    match m.get(key) {
        Some(v) => match freezed_of(v) {
            Ok(t) => Ok(t),
            Err(e) => Err(e.in_field(key)),
        },
        None => Ok(Freezed::NotFrozen),
    }
}

/// The closed enumeration of column types. An unrecognized tag is a hard
/// decode failure: it signals a schema change upstream.
#[derive(Debug, PartialEq, Eq, Structural, Clone, Copy)]
pub enum GradeType {
    Text,
    Note,
    Login,
    Moy,
    Prst,
    Enumeration,
    Upload,
    Max,
}

/// What decoding a column type yields: exactly one of the eight known
/// tags; any other tag is a domain violation naming it.
pub open spec fn spec_gradetype_of(v: JVal) -> Result<GradeType, ErrV> {
    match v {
        JVal::Str(s) => if s == "Text"@ {
            Ok(GradeType::Text)
        } else if s == "Note"@ {
            Ok(GradeType::Note)
        } else if s == "Login"@ {
            Ok(GradeType::Login)
        } else if s == "Moy"@ {
            Ok(GradeType::Moy)
        } else if s == "Prst"@ {
            Ok(GradeType::Prst)
        } else if s == "Enumeration"@ {
            Ok(GradeType::Enumeration)
        } else if s == "Upload"@ {
            Ok(GradeType::Upload)
        } else if s == "Max"@ {
            Ok(GradeType::Max)
        } else {
            Err(spec_err_here(ErrorKindV::UnknownTag { value: s }))
        },
        _ => Err(spec_err_here(ErrorKindV::NotAString)),
    }
}

/// The column-type decoder, as a value.
pub open spec fn f_gradetype() -> spec_fn(JVal) -> Result<GradeType, ErrV> {
    |v: JVal| spec_gradetype_of(v)
}

/// Decode a column type tag.
fn gradetype_of(v: &JsonValue) -> (r: Result<GradeType, DecodeError>)
    ensures
        match r {
            Ok(t) => spec_gradetype_of(v@) == Ok::<_, ErrV>(t),
            Err(e) => spec_gradetype_of(v@) == Err::<GradeType, _>(e.deep_view()),
        },
{
    match v {
        JsonValue::Str(s) => {
            if str_eq(s.as_str(), "Text") {
                Ok(GradeType::Text)
            } else if str_eq(s.as_str(), "Note") {
                Ok(GradeType::Note)
            } else if str_eq(s.as_str(), "Login") {
                Ok(GradeType::Login)
            } else if str_eq(s.as_str(), "Moy") {
                Ok(GradeType::Moy)
            } else if str_eq(s.as_str(), "Prst") {
                Ok(GradeType::Prst)
            } else if str_eq(s.as_str(), "Enumeration") {
                Ok(GradeType::Enumeration)
            } else if str_eq(s.as_str(), "Upload") {
                Ok(GradeType::Upload)
            } else if str_eq(s.as_str(), "Max") {
                Ok(GradeType::Max)
            } else {
                Err(DecodeError::here(ErrorKind::UnknownTag { value: s.clone() }))
            }
        },
        _ => Err(DecodeError::here(ErrorKind::NotAString)),
    }
}

/// A required column-type field.
pub fn get_grade_type(m: &NormalizedMap, key: &str) -> (r: Result<GradeType, DecodeError>)
    ensures
        match r {
            Ok(t) => spec_field(m@, key@, f_gradetype()) == Ok::<_, ErrV>(t),
            Err(e) => spec_field(m@, key@, f_gradetype()) == Err::<GradeType, _>(e.deep_view()),
        },
{
    match m.get(key) {
        Some(v) => match gradetype_of(v) {
            Ok(t) => Ok(t),
            Err(e) => Err(e.in_field(key)),
        },
        None => Err(field_err(key, ErrorKind::Missing)),
    }
}

/// One column of a grade table: its tagged type, its author, its freeze marker, and its optional presentation and weighting settings.
#[derive(Debug, PartialEq)]
pub struct GradeColumn {
    pub type_: GradeType,
    pub author: String,
    pub freezed: Freezed,
    pub position: JsonNumber,
    pub title: String,
    pub width: Option<i64>,
    pub comment: Option<String>,
    pub the_id: String,
    pub hidden: bool,
    pub repetition: Option<i64>,
    pub weight: Option<WrappedStrF32>,
    pub visibility_date: Option<String>,
    pub green: Option<String>,
    pub red: Option<String>,
    pub enumeration: Option<String>,
    pub cell_writable: Option<String>,
    pub grade_type: Option<i64>,
    pub minmax: Option<JsonValue>,
    pub locked: Option<i64>,
}

/// Mathematical value of the record.
#[verifier::ext_equal]
pub ghost struct GradeColumnV {
    pub type_: GradeType,
    pub author: Seq<char>,
    pub freezed: Freezed,
    pub position: JVal,
    pub title: Seq<char>,
    pub width: Option<int>,
    pub comment: Option<Seq<char>>,
    pub the_id: Seq<char>,
    pub hidden: bool,
    pub repetition: Option<int>,
    pub weight: Option<Seq<char>>,
    pub visibility_date: Option<Seq<char>>,
    pub green: Option<Seq<char>>,
    pub red: Option<Seq<char>>,
    pub enumeration: Option<Seq<char>>,
    pub cell_writable: Option<Seq<char>>,
    pub grade_type: Option<int>,
    pub minmax: Option<JVal>,
    pub locked: Option<int>,
}

impl DeepView for GradeColumn {
    type V = GradeColumnV;

    open spec fn deep_view(&self) -> GradeColumnV {
        GradeColumnV {
            type_: self.type_,
            author: self.author@,
            freezed: self.freezed,
            position: self.position@,
            title: self.title@,
            width: (match self.width { Some(x) => Some(x as int), None => None }),
            comment: self.comment.deep_view(),
            the_id: self.the_id@,
            hidden: self.hidden,
            repetition: (match self.repetition { Some(x) => Some(x as int), None => None }),
            weight: self.weight.deep_view(),
            visibility_date: self.visibility_date.deep_view(),
            green: self.green.deep_view(),
            red: self.red.deep_view(),
            enumeration: self.enumeration.deep_view(),
            cell_writable: self.cell_writable.deep_view(),
            grade_type: (match self.grade_type { Some(x) => Some(x as int), None => None }),
            minmax: (match self.minmax { Some(x) => Some(x@), None => None }),
            locked: (match self.locked { Some(x) => Some(x as int), None => None }),
        }
    }
}

/// What decoding a grade-table column yields, field by field.
pub open spec fn spec_column_map(m: Map<Seq<char>, JVal>) -> Result<GradeColumnV, ErrV> {
    if spec_field(m, "type"@, f_gradetype()) is Err {
        Err(spec_field(m, "type"@, f_gradetype())->Err_0)
    } else if spec_field(m, "author"@, f_str()) is Err {
        Err(spec_field(m, "author"@, f_str())->Err_0)
    } else if spec_field_or(m, "freezed"@, f_freezed(), Freezed::NotFrozen) is Err {
        Err(spec_field_or(m, "freezed"@, f_freezed(), Freezed::NotFrozen)->Err_0)
    } else if spec_field(m, "position"@, f_number()) is Err {
        Err(spec_field(m, "position"@, f_number())->Err_0)
    } else if spec_field(m, "title"@, f_str()) is Err {
        Err(spec_field(m, "title"@, f_str())->Err_0)
    } else if spec_opt_field(m, "width"@, f_int()) is Err {
        Err(spec_opt_field(m, "width"@, f_int())->Err_0)
    } else if spec_opt_field(m, "comment"@, f_str()) is Err {
        Err(spec_opt_field(m, "comment"@, f_str())->Err_0)
    } else if spec_field(m, "the_id"@, f_str()) is Err {
        Err(spec_field(m, "the_id"@, f_str())->Err_0)
    } else if spec_field_or(m, "hidden"@, f_intbool(), false) is Err {
        Err(spec_field_or(m, "hidden"@, f_intbool(), false)->Err_0)
    } else if spec_opt_field(m, "repetition"@, f_int()) is Err {
        Err(spec_opt_field(m, "repetition"@, f_int())->Err_0)
    } else if spec_opt_field(m, "weight"@, f_strf32()) is Err {
        Err(spec_opt_field(m, "weight"@, f_strf32())->Err_0)
    } else if spec_opt_field(m, "visibility_date"@, f_str()) is Err {
        Err(spec_opt_field(m, "visibility_date"@, f_str())->Err_0)
    } else if spec_opt_field(m, "green"@, f_str()) is Err {
        Err(spec_opt_field(m, "green"@, f_str())->Err_0)
    } else if spec_opt_field(m, "red"@, f_str()) is Err {
        Err(spec_opt_field(m, "red"@, f_str())->Err_0)
    } else if spec_opt_field(m, "enumeration"@, f_str()) is Err {
        Err(spec_opt_field(m, "enumeration"@, f_str())->Err_0)
    } else if spec_opt_field(m, "cell_writable"@, f_str()) is Err {
        Err(spec_opt_field(m, "cell_writable"@, f_str())->Err_0)
    } else if spec_opt_field(m, "grade_type"@, f_int()) is Err {
        Err(spec_opt_field(m, "grade_type"@, f_int())->Err_0)
    } else if spec_opt_field(m, "minmax"@, f_raw()) is Err {
        Err(spec_opt_field(m, "minmax"@, f_raw())->Err_0)
    } else if spec_opt_field(m, "locked"@, f_int()) is Err {
        Err(spec_opt_field(m, "locked"@, f_int())->Err_0)
    } else {
        Ok(GradeColumnV {
            type_: spec_field(m, "type"@, f_gradetype())->Ok_0,
            author: spec_field(m, "author"@, f_str())->Ok_0,
            freezed: spec_field_or(m, "freezed"@, f_freezed(), Freezed::NotFrozen)->Ok_0,
            position: spec_field(m, "position"@, f_number())->Ok_0,
            title: spec_field(m, "title"@, f_str())->Ok_0,
            width: spec_opt_field(m, "width"@, f_int())->Ok_0,
            comment: spec_opt_field(m, "comment"@, f_str())->Ok_0,
            the_id: spec_field(m, "the_id"@, f_str())->Ok_0,
            hidden: spec_field_or(m, "hidden"@, f_intbool(), false)->Ok_0,
            repetition: spec_opt_field(m, "repetition"@, f_int())->Ok_0,
            weight: spec_opt_field(m, "weight"@, f_strf32())->Ok_0,
            visibility_date: spec_opt_field(m, "visibility_date"@, f_str())->Ok_0,
            green: spec_opt_field(m, "green"@, f_str())->Ok_0,
            red: spec_opt_field(m, "red"@, f_str())->Ok_0,
            enumeration: spec_opt_field(m, "enumeration"@, f_str())->Ok_0,
            cell_writable: spec_opt_field(m, "cell_writable"@, f_str())->Ok_0,
            grade_type: spec_opt_field(m, "grade_type"@, f_int())->Ok_0,
            minmax: spec_opt_field(m, "minmax"@, f_raw())->Ok_0,
            locked: spec_opt_field(m, "locked"@, f_int())->Ok_0,
        })
    }
}

/// The record, decoded from an object value.
pub open spec fn spec_column_of(v: JVal) -> Result<GradeColumnV, ErrV> {
    match v {
        JVal::Obj(o) => spec_column_map(map_of(o)),
        _ => Err(spec_err_here(ErrorKindV::NotAnObject)),
    }
}

/// The record decoder, as a value.
pub open spec fn f_column() -> spec_fn(JVal) -> Result<GradeColumnV, ErrV> {
    |v: JVal| spec_column_of(v)
}

impl GradeColumn {
    /// Decode the record from an object value, field by field; the
    /// first failing field reports, annotated with its name.
    #[verifier::rlimit(100)]
    pub fn decode(v: &JsonValue) -> (r: Result<GradeColumn, DecodeError>)
        ensures
            match r {
                Ok(d) => spec_column_of(v@) == Ok::<_, ErrV>(d.deep_view()),
                Err(e) => spec_column_of(v@) == Err::<GradeColumnV, _>(e.deep_view()),
            },
    {
        let pm = match NormalizedMap::of_object(v) {
            Ok(pm) => pm,
            Err(k) => {
                return Err(DecodeError::here(k));
            },
        };
        proof {
            assert(spec_column_of(v@) == spec_column_map(pm@));
        }
        let type_ = match get_grade_type(&pm, "type") {
            Ok(x) => x,
            Err(e) => {
                return Err(e);
            },
        };
        let author = match get_string(&pm, "author") {
            Ok(x) => x,
            Err(e) => {
                return Err(e);
            },
        };
        let freezed = match get_freezed(&pm, "freezed") {
            Ok(x) => x,
            Err(e) => {
                return Err(e);
            },
        };
        let position = match get_number(&pm, "position") {
            Ok(x) => x,
            Err(e) => {
                return Err(e);
            },
        };
        let title = match get_string(&pm, "title") {
            Ok(x) => x,
            Err(e) => {
                return Err(e);
            },
        };
        let width = match get_opt_int(&pm, "width") {
            Ok(x) => x,
            Err(e) => {
                return Err(e);
            },
        };
        let comment = match get_opt_string(&pm, "comment") {
            Ok(x) => x,
            Err(e) => {
                return Err(e);
            },
        };
        let the_id = match get_string(&pm, "the_id") {
            Ok(x) => x,
            Err(e) => {
                return Err(e);
            },
        };
        let hidden = match get_int_bool_or_false(&pm, "hidden") {
            Ok(x) => x,
            Err(e) => {
                return Err(e);
            },
        };
        let repetition = match get_opt_int(&pm, "repetition") {
            Ok(x) => x,
            Err(e) => {
                return Err(e);
            },
        };
        let weight = match get_opt_strf32(&pm, "weight") {
            Ok(x) => x,
            Err(e) => {
                return Err(e);
            },
        };
        let visibility_date = match get_opt_string(&pm, "visibility_date") {
            Ok(x) => x,
            Err(e) => {
                return Err(e);
            },
        };
        let green = match get_opt_string(&pm, "green") {
            Ok(x) => x,
            Err(e) => {
                return Err(e);
            },
        };
        let red = match get_opt_string(&pm, "red") {
            Ok(x) => x,
            Err(e) => {
                return Err(e);
            },
        };
        let enumeration = match get_opt_string(&pm, "enumeration") {
            Ok(x) => x,
            Err(e) => {
                return Err(e);
            },
        };
        let cell_writable = match get_opt_string(&pm, "cell_writable") {
            Ok(x) => x,
            Err(e) => {
                return Err(e);
            },
        };
        let grade_type = match get_opt_int(&pm, "grade_type") {
            Ok(x) => x,
            Err(e) => {
                return Err(e);
            },
        };
        let minmax = match get_opt_raw(&pm, "minmax") {
            Ok(x) => x,
            Err(e) => {
                return Err(e);
            },
        };
        let locked = match get_opt_int(&pm, "locked") {
            Ok(x) => x,
            Err(e) => {
                return Err(e);
            },
        };
        let r = GradeColumn {
            type_,
            author,
            freezed,
            position,
            title,
            width,
            comment,
            the_id,
            hidden,
            repetition,
            weight,
            visibility_date,
            green,
            red,
            enumeration,
            cell_writable,
            grade_type,
            minmax,
            locked,
        };
        proof {
            assert(spec_column_map(pm@) is Ok);
            assert(spec_column_map(pm@)->Ok_0 =~= r.deep_view());
        }
        Ok(r)
    }
}

/// The column decoder, reused for the array of columns.
/// A required field holding an array of grade-table columns.
#[verifier::loop_isolation(false)]
pub fn get_column_vec(m: &NormalizedMap, key: &str) -> (r: Result<Vec<GradeColumn>, DecodeError>)
    ensures
        match r {
            Ok(out) => spec_field(m@, key@, f_arr(f_column())) == Ok::<_, ErrV>(out.deep_view()),
            Err(e) => spec_field(m@, key@, f_arr(f_column())) == Err::<Seq<GradeColumnV>, _>(
                e.deep_view(),
            ),
        },
{
    match m.get(key) {
        Some(v) => match v {
            JsonValue::Arr(q) => {
                let ghost qs = jv_of_arr(q@);
                proof {
                    lemma_jv_of_arr(q@);
                }
                let mut out: Vec<GradeColumn> = Vec::new();
                proof {
                    assert(qs.take(0) =~= Seq::<JVal>::empty());
                    assert(out.deep_view() =~= Seq::<GradeColumnV>::empty());
                }
                let mut i: usize = 0;
                while i < q.len()
                    invariant
                        i <= q.len(),
                        spec_vec_dec(qs.take(i as int), f_column()) == Ok::<_, ErrV>(
                            out.deep_view(),
                        ),
                    decreases q.len() - i,
                {
                    proof {
                        assert(qs.take(i + 1 as int).drop_last() =~= qs.take(i as int));
                        assert(qs.take(i + 1 as int).last() == qs[i as int]);
                    }
                    match GradeColumn::decode(&q[i]) {
                        Ok(x) => {
                            let ghost prev = out.deep_view();
                            let ghost xv = x.deep_view();
                            out.push(x);
                            proof {
                                assert(out.deep_view() =~= prev.push(xv));
                            }
                        },
                        Err(e0) => {
                            let e = e0.at_index(i).in_field(key);
                            proof {
                                lemma_vec_dec_err_stays(qs, f_column(), i + 1 as int);
                            }
                            return Err(e);
                        },
                    }
                    i += 1;
                }
                proof {
                    assert(qs.take(q@.len() as int) =~= qs);
                }
                Ok(out)
            },
            _ => Err(DecodeError::here(ErrorKind::NotAnArray).in_field(key)),
        },
        None => Err(field_err(key, ErrorKind::Missing)),
    }
}

/// One grade sheet: its masters, rounding rule, column definitions, per-student line and aggregate stats (kept untyped: their internal shape varies).
#[derive(Debug, PartialEq)]
pub struct Grade {
    pub masters: Vec<Person>,
    pub rounding: i64,
    pub contains_users: i64,
    pub default_sort_column: Vec<i64>,
    pub competence: String,
    pub table_title: String,
    pub popup_on_red_line: i64,
    pub managers: Vec<String>,
    pub code: i64,
    pub bookmark: i64,
    pub dates: Vec<JsonNumber>,
    pub official_ue: bool,
    pub ue: String,
    pub year: i64,
    pub columns: Vec<GradeColumn>,
    pub line_id: String,
    pub line: Vec<JsonValue>,
    pub stats: JsonValue,
}

/// Mathematical value of the record.
#[verifier::ext_equal]
pub ghost struct GradeV {
    pub masters: Seq<PersonV>,
    pub rounding: int,
    pub contains_users: int,
    pub default_sort_column: Seq<int>,
    pub competence: Seq<char>,
    pub table_title: Seq<char>,
    pub popup_on_red_line: int,
    pub managers: Seq<Seq<char>>,
    pub code: int,
    pub bookmark: int,
    pub dates: Seq<JVal>,
    pub official_ue: bool,
    pub ue: Seq<char>,
    pub year: int,
    pub columns: Seq<GradeColumnV>,
    pub line_id: Seq<char>,
    pub line: Seq<JVal>,
    pub stats: JVal,
}

impl DeepView for Grade {
    type V = GradeV;

    open spec fn deep_view(&self) -> GradeV {
        GradeV {
            masters: self.masters.deep_view(),
            rounding: self.rounding as int,
            contains_users: self.contains_users as int,
            default_sort_column: ints_of(self.default_sort_column@),
            competence: self.competence@,
            table_title: self.table_title@,
            popup_on_red_line: self.popup_on_red_line as int,
            managers: self.managers.deep_view(),
            code: self.code as int,
            bookmark: self.bookmark as int,
            dates: self.dates.deep_view(),
            official_ue: self.official_ue,
            ue: self.ue@,
            year: self.year as int,
            columns: self.columns.deep_view(),
            line_id: self.line_id@,
            line: jv_of_arr(self.line@),
            stats: self.stats@,
        }
    }
}

/// What decoding one grade sheet yields, field by field.
pub open spec fn spec_grade_map(m: Map<Seq<char>, JVal>) -> Result<GradeV, ErrV> {
    if spec_field(m, "masters"@, f_arr(f_person())) is Err {
        Err(spec_field(m, "masters"@, f_arr(f_person()))->Err_0)
    } else if spec_field(m, "rounding"@, f_int()) is Err {
        Err(spec_field(m, "rounding"@, f_int())->Err_0)
    } else if spec_field(m, "contains_users"@, f_int()) is Err {
        Err(spec_field(m, "contains_users"@, f_int())->Err_0)
    } else if spec_field(m, "default_sort_column"@, f_arr(f_int())) is Err {
        Err(spec_field(m, "default_sort_column"@, f_arr(f_int()))->Err_0)
    } else if spec_field(m, "competence"@, f_str()) is Err {
        Err(spec_field(m, "competence"@, f_str())->Err_0)
    } else if spec_field(m, "table_title"@, f_str()) is Err {
        Err(spec_field(m, "table_title"@, f_str())->Err_0)
    } else if spec_field(m, "popup_on_red_line"@, f_int()) is Err {
        Err(spec_field(m, "popup_on_red_line"@, f_int())->Err_0)
    } else if spec_field(m, "managers"@, f_arr(f_str())) is Err {
        Err(spec_field(m, "managers"@, f_arr(f_str()))->Err_0)
    } else if spec_field(m, "code"@, f_int()) is Err {
        Err(spec_field(m, "code"@, f_int())->Err_0)
    } else if spec_field(m, "bookmark"@, f_int()) is Err {
        Err(spec_field(m, "bookmark"@, f_int())->Err_0)
    } else if spec_field(m, "dates"@, f_arr(f_number())) is Err {
        Err(spec_field(m, "dates"@, f_arr(f_number()))->Err_0)
    } else if spec_field(m, "official_ue"@, f_intbool()) is Err {
        Err(spec_field(m, "official_ue"@, f_intbool())->Err_0)
    } else if spec_field(m, "ue"@, f_str()) is Err {
        Err(spec_field(m, "ue"@, f_str())->Err_0)
    } else if spec_field(m, "year"@, f_int()) is Err {
        Err(spec_field(m, "year"@, f_int())->Err_0)
    } else if spec_field(m, "columns"@, f_arr(f_column())) is Err {
        Err(spec_field(m, "columns"@, f_arr(f_column()))->Err_0)
    } else if spec_field(m, "line_id"@, f_str()) is Err {
        Err(spec_field(m, "line_id"@, f_str())->Err_0)
    } else if spec_field(m, "line"@, f_arr(f_raw())) is Err {
        Err(spec_field(m, "line"@, f_arr(f_raw()))->Err_0)
    } else if spec_field(m, "stats"@, f_raw()) is Err {
        Err(spec_field(m, "stats"@, f_raw())->Err_0)
    } else {
        Ok(GradeV {
            masters: spec_field(m, "masters"@, f_arr(f_person()))->Ok_0,
            rounding: spec_field(m, "rounding"@, f_int())->Ok_0,
            contains_users: spec_field(m, "contains_users"@, f_int())->Ok_0,
            default_sort_column: spec_field(m, "default_sort_column"@, f_arr(f_int()))->Ok_0,
            competence: spec_field(m, "competence"@, f_str())->Ok_0,
            table_title: spec_field(m, "table_title"@, f_str())->Ok_0,
            popup_on_red_line: spec_field(m, "popup_on_red_line"@, f_int())->Ok_0,
            managers: spec_field(m, "managers"@, f_arr(f_str()))->Ok_0,
            code: spec_field(m, "code"@, f_int())->Ok_0,
            bookmark: spec_field(m, "bookmark"@, f_int())->Ok_0,
            dates: spec_field(m, "dates"@, f_arr(f_number()))->Ok_0,
            official_ue: spec_field(m, "official_ue"@, f_intbool())->Ok_0,
            ue: spec_field(m, "ue"@, f_str())->Ok_0,
            year: spec_field(m, "year"@, f_int())->Ok_0,
            columns: spec_field(m, "columns"@, f_arr(f_column()))->Ok_0,
            line_id: spec_field(m, "line_id"@, f_str())->Ok_0,
            line: spec_field(m, "line"@, f_arr(f_raw()))->Ok_0,
            stats: spec_field(m, "stats"@, f_raw())->Ok_0,
        })
    }
}

/// The record, decoded from an object value.
pub open spec fn spec_grade_of(v: JVal) -> Result<GradeV, ErrV> {
    match v {
        JVal::Obj(o) => spec_grade_map(map_of(o)),
        _ => Err(spec_err_here(ErrorKindV::NotAnObject)),
    }
}

/// The record decoder, as a value.
pub open spec fn f_grade() -> spec_fn(JVal) -> Result<GradeV, ErrV> {
    |v: JVal| spec_grade_of(v)
}

impl Grade {
    /// Decode the record from an object value, field by field; the
    /// first failing field reports, annotated with its name.
    #[verifier::rlimit(100)]
    pub fn decode(v: &JsonValue) -> (r: Result<Grade, DecodeError>)
        ensures
            match r {
                Ok(d) => spec_grade_of(v@) == Ok::<_, ErrV>(d.deep_view()),
                Err(e) => spec_grade_of(v@) == Err::<GradeV, _>(e.deep_view()),
            },
    {
        let pm = match NormalizedMap::of_object(v) {
            Ok(pm) => pm,
            Err(k) => {
                return Err(DecodeError::here(k));
            },
        };
        proof {
            assert(spec_grade_of(v@) == spec_grade_map(pm@));
        }
        let masters = match get_person_vec(&pm, "masters") {
            Ok(x) => x,
            Err(e) => {
                return Err(e);
            },
        };
        let rounding = match get_int(&pm, "rounding") {
            Ok(x) => x,
            Err(e) => {
                return Err(e);
            },
        };
        let contains_users = match get_int(&pm, "contains_users") {
            Ok(x) => x,
            Err(e) => {
                return Err(e);
            },
        };
        let default_sort_column = match get_int_vec(&pm, "default_sort_column") {
            Ok(x) => x,
            Err(e) => {
                return Err(e);
            },
        };
        let competence = match get_string(&pm, "competence") {
            Ok(x) => x,
            Err(e) => {
                return Err(e);
            },
        };
        let table_title = match get_string(&pm, "table_title") {
            Ok(x) => x,
            Err(e) => {
                return Err(e);
            },
        };
        let popup_on_red_line = match get_int(&pm, "popup_on_red_line") {
            Ok(x) => x,
            Err(e) => {
                return Err(e);
            },
        };
        let managers = match get_str_vec(&pm, "managers") {
            Ok(x) => x,
            Err(e) => {
                return Err(e);
            },
        };
        let code = match get_int(&pm, "code") {
            Ok(x) => x,
            Err(e) => {
                return Err(e);
            },
        };
        let bookmark = match get_int(&pm, "bookmark") {
            Ok(x) => x,
            Err(e) => {
                return Err(e);
            },
        };
        let dates = match get_number_vec(&pm, "dates") {
            Ok(x) => x,
            Err(e) => {
                return Err(e);
            },
        };
        let official_ue = match get_int_bool(&pm, "official_ue") {
            Ok(x) => x,
            Err(e) => {
                return Err(e);
            },
        };
        let ue = match get_string(&pm, "ue") {
            Ok(x) => x,
            Err(e) => {
                return Err(e);
            },
        };
        let year = match get_int(&pm, "year") {
            Ok(x) => x,
            Err(e) => {
                return Err(e);
            },
        };
        let columns = match get_column_vec(&pm, "columns") {
            Ok(x) => x,
            Err(e) => {
                return Err(e);
            },
        };
        let line_id = match get_string(&pm, "line_id") {
            Ok(x) => x,
            Err(e) => {
                return Err(e);
            },
        };
        let line = match get_raw_vec(&pm, "line") {
            Ok(x) => x,
            Err(e) => {
                return Err(e);
            },
        };
        let stats = match get_raw(&pm, "stats") {
            Ok(x) => x,
            Err(e) => {
                return Err(e);
            },
        };
        let r = Grade {
            masters,
            rounding,
            contains_users,
            default_sort_column,
            competence,
            table_title,
            popup_on_red_line,
            managers,
            code,
            bookmark,
            dates,
            official_ue,
            ue,
            year,
            columns,
            line_id,
            line,
            stats,
        };
        proof {
            assert(spec_grade_map(pm@) is Ok);
            assert(spec_grade_map(pm@)->Ok_0 =~= r.deep_view());
        }
        Ok(r)
    }
}

/// What decoding the grade-feed envelope yields: a two-element outer
/// list whose element 1 must be an empty list (a reserved slot), and
/// whose element 0 holds the grade tables, kept in their order. A wrong
/// outer length, a non-empty reserved slot, or a malformed table is a
/// hard decode failure.
pub open spec fn spec_grades_of(v: JVal) -> Result<Seq<GradeV>, ErrV> {
    match v {
        JVal::Arr(q) => if q.len() != 2 {
            Err(spec_err_here(ErrorKindV::WrongLength { expected: 2, actual: q.len() as int }))
        } else {
            match q[1] {
                JVal::Arr(z) => if z.len() != 0 {
                    Err(
                        spec_err_nested(
                            PathSegV::Index(1),
                            spec_err_here(
                                ErrorKindV::WrongLength { expected: 0, actual: z.len() as int },
                            ),
                        ),
                    )
                } else {
                    match q[0] {
                        JVal::Arr(g) => match spec_vec_dec(g, f_grade()) {
                            Ok(ts) => Ok(ts),
                            Err(e) => Err(spec_err_nested(PathSegV::Index(0), e)),
                        },
                        _ => Err(
                            spec_err_nested(
                                PathSegV::Index(0),
                                spec_err_here(ErrorKindV::NotAnArray),
                            ),
                        ),
                    }
                },
                _ => Err(
                    spec_err_nested(PathSegV::Index(1), spec_err_here(ErrorKindV::NotAnArray)),
                ),
            }
        },
        _ => Err(spec_err_here(ErrorKindV::NotAnArray)),
    }
}

/// The envelope decoder, as a value.
pub open spec fn f_grades() -> spec_fn(JVal) -> Result<Seq<GradeV>, ErrV> {
    |v: JVal| spec_grades_of(v)
}

/// Decode the grade-feed envelope into its grade tables.
#[verifier::loop_isolation(false)]
pub fn grades_vec_of(v: &JsonValue) -> (r: Result<Vec<Grade>, DecodeError>)
    ensures
        match r {
            Ok(out) => spec_grades_of(v@) == Ok::<_, ErrV>(out.deep_view()),
            Err(e) => spec_grades_of(v@) == Err::<Seq<GradeV>, _>(e.deep_view()),
        },
{
    let q = match v {
        JsonValue::Arr(q) => q,
        _ => {
            return Err(DecodeError::here(ErrorKind::NotAnArray));
        },
    };
    proof {
        lemma_jv_of_arr(q@);
    }
    if q.len() != 2 {
        return Err(DecodeError::here(ErrorKind::WrongLength { expected: 2, actual: q.len() }));
    }
    match &q[1] {
        JsonValue::Arr(z) => {
            proof {
                lemma_jv_of_arr(z@);
            }
            if z.len() != 0 {
                return Err(
                    DecodeError::here(
                        ErrorKind::WrongLength { expected: 0, actual: z.len() },
                    ).at_index(1),
                );
            }
        },
        _ => {
            return Err(DecodeError::here(ErrorKind::NotAnArray).at_index(1));
        },
    }
    let g = match &q[0] {
        JsonValue::Arr(g) => g,
        _ => {
            return Err(DecodeError::here(ErrorKind::NotAnArray).at_index(0));
        },
    };
    let ghost gs = jv_of_arr(g@);
    proof {
        lemma_jv_of_arr(g@);
    }
    let mut out: Vec<Grade> = Vec::new();
    proof {
        assert(gs.take(0) =~= Seq::<JVal>::empty());
        assert(out.deep_view() =~= Seq::<GradeV>::empty());
    }
    let mut i: usize = 0;
    while i < g.len()
        invariant
            i <= g.len(),
            spec_vec_dec(gs.take(i as int), f_grade()) == Ok::<_, ErrV>(out.deep_view()),
        decreases g.len() - i,
    {
        proof {
            assert(gs.take(i + 1 as int).drop_last() =~= gs.take(i as int));
            assert(gs.take(i + 1 as int).last() == gs[i as int]);
        }
        match Grade::decode(&g[i]) {
            Ok(x) => {
                let ghost prev = out.deep_view();
                let ghost xv = x.deep_view();
                out.push(x);
                proof {
                    assert(out.deep_view() =~= prev.push(xv));
                }
            },
            Err(e0) => {
                let e = e0.at_index(i).at_index(0);
                proof {
                    lemma_vec_dec_err_stays(gs, f_grade(), i + 1 as int);
                }
                return Err(e);
            },
        }
        i += 1;
    }
    proof {
        assert(gs.take(g@.len() as int) =~= gs);
    }
    Ok(out)
}

/// A required field holding the grade-feed envelope.
pub fn get_grades(m: &NormalizedMap, key: &str) -> (r: Result<Vec<Grade>, DecodeError>)
    ensures
        match r {
            Ok(out) => spec_field(m@, key@, f_grades()) == Ok::<_, ErrV>(out.deep_view()),
            Err(e) => spec_field(m@, key@, f_grades()) == Err::<Seq<GradeV>, _>(e.deep_view()),
        },
{
    match m.get(key) {
        Some(v) => match grades_vec_of(v) {
            Ok(out) => Ok(out),
            Err(e) => Err(e.in_field(key)),
        },
        None => Err(field_err(key, ErrorKind::Missing)),
    }
}

} // verus!
