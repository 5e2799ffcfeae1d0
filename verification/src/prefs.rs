//! The user's preferences: a flat mapping of integer-domain boolean
//! flags plus a few numeric settings. Every flag field uses the
//! integer-as-boolean coercion.

use vstd::prelude::*;

use crate::error::{spec_err_here, DecodeError, ErrV, ErrorKind, ErrorKindV};
use crate::fields::{f_int, f_intbool, get_int, get_int_bool, spec_field};
use crate::json::{JVal, JsonValue};
use crate::normalize::{map_of, NormalizedMap};

verus! {

/// The user's preferences: integer-domain boolean flags and numeric settings.
#[derive(Debug, PartialEq)]
pub struct Preferences {
    pub black_and_white: bool,
    pub can_bring_a_pc: bool,
    pub commute_time: i64,
    pub compact_suivi: bool,
    pub green_prst: bool,
    pub hide_civilite: bool,
    pub hide_picture: bool,
    pub highlight_grade: bool,
    pub private_suivi: bool,
    pub recursive_formula: bool,
    pub show_empty: bool,
    pub uniform_width: bool,
    pub color_value: bool,
    pub hide_right_column: bool,
    pub big_text: bool,
    pub no_teacher_color: bool,
    pub big_box: bool,
    pub hide_grade: bool,
    pub working_hours_per_week: i64,
    pub sunburst_hide_layers: i64,
}

/// Mathematical value of the record.
#[verifier::ext_equal]
pub ghost struct PreferencesV {
    pub black_and_white: bool,
    pub can_bring_a_pc: bool,
    pub commute_time: int,
    pub compact_suivi: bool,
    pub green_prst: bool,
    pub hide_civilite: bool,
    pub hide_picture: bool,
    pub highlight_grade: bool,
    pub private_suivi: bool,
    pub recursive_formula: bool,
    pub show_empty: bool,
    pub uniform_width: bool,
    pub color_value: bool,
    pub hide_right_column: bool,
    pub big_text: bool,
    pub no_teacher_color: bool,
    pub big_box: bool,
    pub hide_grade: bool,
    pub working_hours_per_week: int,
    pub sunburst_hide_layers: int,
}

impl DeepView for Preferences {
    type V = PreferencesV;

    open spec fn deep_view(&self) -> PreferencesV {
        PreferencesV {
            black_and_white: self.black_and_white,
            can_bring_a_pc: self.can_bring_a_pc,
            commute_time: self.commute_time as int,
            compact_suivi: self.compact_suivi,
            green_prst: self.green_prst,
            hide_civilite: self.hide_civilite,
            hide_picture: self.hide_picture,
            highlight_grade: self.highlight_grade,
            private_suivi: self.private_suivi,
            recursive_formula: self.recursive_formula,
            show_empty: self.show_empty,
            uniform_width: self.uniform_width,
            color_value: self.color_value,
            hide_right_column: self.hide_right_column,
            big_text: self.big_text,
            no_teacher_color: self.no_teacher_color,
            big_box: self.big_box,
            hide_grade: self.hide_grade,
            working_hours_per_week: self.working_hours_per_week as int,
            sunburst_hide_layers: self.sunburst_hide_layers as int,
        }
    }
}

/// What decoding the preferences mapping yields, field by field.
pub open spec fn spec_prefs_map(m: Map<Seq<char>, JVal>) -> Result<PreferencesV, ErrV> {
    if spec_field(m, "black_and_white"@, f_intbool()) is Err {
        Err(spec_field(m, "black_and_white"@, f_intbool())->Err_0)
    } else if spec_field(m, "can_bring_a_pc"@, f_intbool()) is Err {
        Err(spec_field(m, "can_bring_a_pc"@, f_intbool())->Err_0)
    } else if spec_field(m, "commute_time"@, f_int()) is Err {
        Err(spec_field(m, "commute_time"@, f_int())->Err_0)
    } else if spec_field(m, "compact_suivi"@, f_intbool()) is Err {
        Err(spec_field(m, "compact_suivi"@, f_intbool())->Err_0)
    } else if spec_field(m, "green_prst"@, f_intbool()) is Err {
        Err(spec_field(m, "green_prst"@, f_intbool())->Err_0)
    } else if spec_field(m, "hide_civilite"@, f_intbool()) is Err {
        Err(spec_field(m, "hide_civilite"@, f_intbool())->Err_0)
    } else if spec_field(m, "hide_picture"@, f_intbool()) is Err {
        Err(spec_field(m, "hide_picture"@, f_intbool())->Err_0)
    } else if spec_field(m, "highlight_grade"@, f_intbool()) is Err {
        Err(spec_field(m, "highlight_grade"@, f_intbool())->Err_0)
    } else if spec_field(m, "private_suivi"@, f_intbool()) is Err {
        Err(spec_field(m, "private_suivi"@, f_intbool())->Err_0)
    } else if spec_field(m, "recursive_formula"@, f_intbool()) is Err {
        Err(spec_field(m, "recursive_formula"@, f_intbool())->Err_0)
    } else if spec_field(m, "show_empty"@, f_intbool()) is Err {
        Err(spec_field(m, "show_empty"@, f_intbool())->Err_0)
    } else if spec_field(m, "uniform_width"@, f_intbool()) is Err {
        Err(spec_field(m, "uniform_width"@, f_intbool())->Err_0)
    } else if spec_field(m, "color_value"@, f_intbool()) is Err {
        Err(spec_field(m, "color_value"@, f_intbool())->Err_0)
    } else if spec_field(m, "hide_right_column"@, f_intbool()) is Err {
        Err(spec_field(m, "hide_right_column"@, f_intbool())->Err_0)
    } else if spec_field(m, "big_text"@, f_intbool()) is Err {
        Err(spec_field(m, "big_text"@, f_intbool())->Err_0)
    } else if spec_field(m, "no_teacher_color"@, f_intbool()) is Err {
        Err(spec_field(m, "no_teacher_color"@, f_intbool())->Err_0)
    } else if spec_field(m, "big_box"@, f_intbool()) is Err {
        Err(spec_field(m, "big_box"@, f_intbool())->Err_0)
    } else if spec_field(m, "hide_grade"@, f_intbool()) is Err {
        Err(spec_field(m, "hide_grade"@, f_intbool())->Err_0)
    } else if spec_field(m, "working_hours_per_week"@, f_int()) is Err {
        Err(spec_field(m, "working_hours_per_week"@, f_int())->Err_0)
    } else if spec_field(m, "sunburst_hide_layers"@, f_int()) is Err {
        Err(spec_field(m, "sunburst_hide_layers"@, f_int())->Err_0)
    } else {
        Ok(PreferencesV {
            black_and_white: spec_field(m, "black_and_white"@, f_intbool())->Ok_0,
            can_bring_a_pc: spec_field(m, "can_bring_a_pc"@, f_intbool())->Ok_0,
            commute_time: spec_field(m, "commute_time"@, f_int())->Ok_0,
            compact_suivi: spec_field(m, "compact_suivi"@, f_intbool())->Ok_0,
            green_prst: spec_field(m, "green_prst"@, f_intbool())->Ok_0,
            hide_civilite: spec_field(m, "hide_civilite"@, f_intbool())->Ok_0,
            hide_picture: spec_field(m, "hide_picture"@, f_intbool())->Ok_0,
            highlight_grade: spec_field(m, "highlight_grade"@, f_intbool())->Ok_0,
            private_suivi: spec_field(m, "private_suivi"@, f_intbool())->Ok_0,
            recursive_formula: spec_field(m, "recursive_formula"@, f_intbool())->Ok_0,
            show_empty: spec_field(m, "show_empty"@, f_intbool())->Ok_0,
            uniform_width: spec_field(m, "uniform_width"@, f_intbool())->Ok_0,
            color_value: spec_field(m, "color_value"@, f_intbool())->Ok_0,
            hide_right_column: spec_field(m, "hide_right_column"@, f_intbool())->Ok_0,
            big_text: spec_field(m, "big_text"@, f_intbool())->Ok_0,
            no_teacher_color: spec_field(m, "no_teacher_color"@, f_intbool())->Ok_0,
            big_box: spec_field(m, "big_box"@, f_intbool())->Ok_0,
            hide_grade: spec_field(m, "hide_grade"@, f_intbool())->Ok_0,
            working_hours_per_week: spec_field(m, "working_hours_per_week"@, f_int())->Ok_0,
            sunburst_hide_layers: spec_field(m, "sunburst_hide_layers"@, f_int())->Ok_0,
        })
    }
}

/// The record, decoded from an object value.
pub open spec fn spec_prefs_of(v: JVal) -> Result<PreferencesV, ErrV> {
    match v {
        JVal::Obj(o) => spec_prefs_map(map_of(o)),
        _ => Err(spec_err_here(ErrorKindV::NotAnObject)),
    }
}

/// The record decoder, as a value.
pub open spec fn f_prefs() -> spec_fn(JVal) -> Result<PreferencesV, ErrV> {
    |v: JVal| spec_prefs_of(v)
}

impl Preferences {
    /// Decode the record from an object value, field by field; the
    /// first failing field reports, annotated with its name.
    #[verifier::rlimit(100)]
    pub fn decode(v: &JsonValue) -> (r: Result<Preferences, DecodeError>)
        ensures
            match r {
                Ok(d) => spec_prefs_of(v@) == Ok::<_, ErrV>(d.deep_view()),
                Err(e) => spec_prefs_of(v@) == Err::<PreferencesV, _>(e.deep_view()),
            },
    {
        let pm = match NormalizedMap::of_object(v) {
            Ok(pm) => pm,
            Err(k) => {
                return Err(DecodeError::here(k));
            },
        };
        proof {
            assert(spec_prefs_of(v@) == spec_prefs_map(pm@));
        }
        let black_and_white = match get_int_bool(&pm, "black_and_white") {
            Ok(x) => x,
            Err(e) => {
                return Err(e);
            },
        };
        let can_bring_a_pc = match get_int_bool(&pm, "can_bring_a_pc") {
            Ok(x) => x,
            Err(e) => {
                return Err(e);
            },
        };
        let commute_time = match get_int(&pm, "commute_time") {
            Ok(x) => x,
            Err(e) => {
                return Err(e);
            },
        };
        let compact_suivi = match get_int_bool(&pm, "compact_suivi") {
            Ok(x) => x,
            Err(e) => {
                return Err(e);
            },
        };
        let green_prst = match get_int_bool(&pm, "green_prst") {
            Ok(x) => x,
            Err(e) => {
                return Err(e);
            },
        };
        let hide_civilite = match get_int_bool(&pm, "hide_civilite") {
            Ok(x) => x,
            Err(e) => {
                return Err(e);
            },
        };
        let hide_picture = match get_int_bool(&pm, "hide_picture") {
            Ok(x) => x,
            Err(e) => {
                return Err(e);
            },
        };
        let highlight_grade = match get_int_bool(&pm, "highlight_grade") {
            Ok(x) => x,
            Err(e) => {
                return Err(e);
            },
        };
        let private_suivi = match get_int_bool(&pm, "private_suivi") {
            Ok(x) => x,
            Err(e) => {
                return Err(e);
            },
        };
        let recursive_formula = match get_int_bool(&pm, "recursive_formula") {
            Ok(x) => x,
            Err(e) => {
                return Err(e);
            },
        };
        let show_empty = match get_int_bool(&pm, "show_empty") {
            Ok(x) => x,
            Err(e) => {
                return Err(e);
            },
        };
        let uniform_width = match get_int_bool(&pm, "uniform_width") {
            Ok(x) => x,
            Err(e) => {
                return Err(e);
            },
        };
        let color_value = match get_int_bool(&pm, "color_value") {
            Ok(x) => x,
            Err(e) => {
                return Err(e);
            },
        };
        let hide_right_column = match get_int_bool(&pm, "hide_right_column") {
            Ok(x) => x,
            Err(e) => {
                return Err(e);
            },
        };
        let big_text = match get_int_bool(&pm, "big_text") {
            Ok(x) => x,
            Err(e) => {
                return Err(e);
            },
        };
        let no_teacher_color = match get_int_bool(&pm, "no_teacher_color") {
            Ok(x) => x,
            Err(e) => {
                return Err(e);
            },
        };
        let big_box = match get_int_bool(&pm, "big_box") {
            Ok(x) => x,
            Err(e) => {
                return Err(e);
            },
        };
        let hide_grade = match get_int_bool(&pm, "hide_grade") {
            Ok(x) => x,
            Err(e) => {
                return Err(e);
            },
        };
        let working_hours_per_week = match get_int(&pm, "working_hours_per_week") {
            Ok(x) => x,
            Err(e) => {
                return Err(e);
            },
        };
        let sunburst_hide_layers = match get_int(&pm, "sunburst_hide_layers") {
            Ok(x) => x,
            Err(e) => {
                return Err(e);
            },
        };
        let r = Preferences {
            black_and_white,
            can_bring_a_pc,
            commute_time,
            compact_suivi,
            green_prst,
            hide_civilite,
            hide_picture,
            highlight_grade,
            private_suivi,
            recursive_formula,
            show_empty,
            uniform_width,
            color_value,
            hide_right_column,
            big_text,
            no_teacher_color,
            big_box,
            hide_grade,
            working_hours_per_week,
            sunburst_hide_layers,
        };
        proof {
            assert(spec_prefs_map(pm@) is Ok);
            assert(spec_prefs_map(pm@)->Ok_0 =~= r.deep_view());
        }
        Ok(r)
    }
}

} // verus!
