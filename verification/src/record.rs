//! The top-level typed record of the feed: account metadata, settings,
//! group memberships, justified absences and grade sheets, decoded from
//! the normalized pair mapping field by field. Decoding is fail-fast:
//! the first failing field reports, with the full path to the fault.
//! Fields not in the declared schema are ignored; several declared
//! fields are deliberate untyped passthroughs.

use vstd::prelude::*;

use crate::error::{spec_err_here, DecodeError, ErrV, ErrorKind, ErrorKindV};
use crate::fields::{
    f_arr, f_bool, f_int, f_intbool, f_obj, f_raw, f_str, field_err, get_bool, get_int_bool,
    get_int_map, get_raw, get_raw_obj, get_raw_vec, get_str_map, get_str_vec, get_string,
    int_entries_of, spec_field,
};
use crate::grades::{f_grades, get_grades, Grade, GradeV};
use crate::json::{jv_of_arr, jv_of_obj, JVal, JsonValue};
use crate::member::{f_member, MemberOf, MemberOfV};
use crate::normalize::{spec_normalize, NormalizedMap};
use crate::prefs::{f_prefs, Preferences, PreferencesV};
use crate::tuples::{
    f_absence, f_person, get_absence_vec, get_person, AbsenceV, JustifiedAbsence, Person, PersonV,
};

verus! {

/// The fully validated top-level record of one feed.
#[derive(Debug, PartialEq)]
pub struct TomussData {
    pub explanation: String,
    pub message: String,
    pub more_on_suivi: String,
    pub logo: String,
    pub go_home: bool,
    pub grp_messages: Vec<String>,
    pub advertising: bool,
    pub da: Vec<String>,
    pub abjs: Vec<JustifiedAbsence>,
    pub login: String,
    pub rdv: String,
    pub compte: String,
    pub charte: String,
    pub semesters: Vec<(String, String)>,
    pub signature: String,
    pub fst: Vec<String>,
    pub bilan_apogee: String,
    pub set_referent: String,
    pub bilan: String,
    pub birth_date: String,
    pub edt: String,
    pub picture_upload: bool,
    pub preferences: Preferences,
    pub civilite: String,
    pub names: Person,
    pub member_of: MemberOf,
    pub ia_scol: String,
    pub tables: String,
    pub notes: String,
    pub students: String,
    pub ffsu: String,
    pub tt: String,
    pub rss: String,
    pub rss_stream: Vec<JsonValue>,
    pub questionnaire: String,
    pub ue_tree: Vec<(String, String)>,
    pub referent_np: String,
    pub referent: JsonValue,
    pub mails: String,
    pub choix_tvl: String,
    pub ip_annuelle: Vec<(String, JsonValue)>,
    pub p_template: Vec<JsonValue>,
    pub grades: Vec<Grade>,
    pub profiling: Vec<(String, i64)>,
}

/// Mathematical value of the record.
#[verifier::ext_equal]
pub ghost struct TomussDataV {
    pub explanation: Seq<char>,
    pub message: Seq<char>,
    pub more_on_suivi: Seq<char>,
    pub logo: Seq<char>,
    pub go_home: bool,
    pub grp_messages: Seq<Seq<char>>,
    pub advertising: bool,
    pub da: Seq<Seq<char>>,
    pub abjs: Seq<AbsenceV>,
    pub login: Seq<char>,
    pub rdv: Seq<char>,
    pub compte: Seq<char>,
    pub charte: Seq<char>,
    pub semesters: Seq<(Seq<char>, Seq<char>)>,
    pub signature: Seq<char>,
    pub fst: Seq<Seq<char>>,
    pub bilan_apogee: Seq<char>,
    pub set_referent: Seq<char>,
    pub bilan: Seq<char>,
    pub birth_date: Seq<char>,
    pub edt: Seq<char>,
    pub picture_upload: bool,
    pub preferences: PreferencesV,
    pub civilite: Seq<char>,
    pub names: PersonV,
    pub member_of: MemberOfV,
    pub ia_scol: Seq<char>,
    pub tables: Seq<char>,
    pub notes: Seq<char>,
    pub students: Seq<char>,
    pub ffsu: Seq<char>,
    pub tt: Seq<char>,
    pub rss: Seq<char>,
    pub rss_stream: Seq<JVal>,
    pub questionnaire: Seq<char>,
    pub ue_tree: Seq<(Seq<char>, Seq<char>)>,
    pub referent_np: Seq<char>,
    pub referent: JVal,
    pub mails: Seq<char>,
    pub choix_tvl: Seq<char>,
    pub ip_annuelle: Seq<(Seq<char>, JVal)>,
    pub p_template: Seq<JVal>,
    pub grades: Seq<GradeV>,
    pub profiling: Seq<(Seq<char>, int)>,
}

impl DeepView for TomussData {
    type V = TomussDataV;

    open spec fn deep_view(&self) -> TomussDataV {
        TomussDataV {
            explanation: self.explanation@,
            message: self.message@,
            more_on_suivi: self.more_on_suivi@,
            logo: self.logo@,
            go_home: self.go_home,
            grp_messages: self.grp_messages.deep_view(),
            advertising: self.advertising,
            da: self.da.deep_view(),
            abjs: self.abjs.deep_view(),
            login: self.login@,
            rdv: self.rdv@,
            compte: self.compte@,
            charte: self.charte@,
            semesters: self.semesters.deep_view(),
            signature: self.signature@,
            fst: self.fst.deep_view(),
            bilan_apogee: self.bilan_apogee@,
            set_referent: self.set_referent@,
            bilan: self.bilan@,
            birth_date: self.birth_date@,
            edt: self.edt@,
            picture_upload: self.picture_upload,
            preferences: self.preferences.deep_view(),
            civilite: self.civilite@,
            names: self.names.deep_view(),
            member_of: self.member_of.deep_view(),
            ia_scol: self.ia_scol@,
            tables: self.tables@,
            notes: self.notes@,
            students: self.students@,
            ffsu: self.ffsu@,
            tt: self.tt@,
            rss: self.rss@,
            rss_stream: jv_of_arr(self.rss_stream@),
            questionnaire: self.questionnaire@,
            ue_tree: self.ue_tree.deep_view(),
            referent_np: self.referent_np@,
            referent: self.referent@,
            mails: self.mails@,
            choix_tvl: self.choix_tvl@,
            ip_annuelle: jv_of_obj(self.ip_annuelle@),
            p_template: jv_of_arr(self.p_template@),
            grades: self.grades.deep_view(),
            profiling: int_entries_of(self.profiling@),
        }
    }
}

/// What decoding the normalized mapping into the record yields, field by field, in declaration order.
pub open spec fn spec_tomuss_map(m: Map<Seq<char>, JVal>) -> Result<TomussDataV, ErrV> {
    if spec_field(m, "Explanation"@, f_str()) is Err {
        Err(spec_field(m, "Explanation"@, f_str())->Err_0)
    } else if spec_field(m, "Message"@, f_str()) is Err {
        Err(spec_field(m, "Message"@, f_str())->Err_0)
    } else if spec_field(m, "MoreOnSuivi"@, f_str()) is Err {
        Err(spec_field(m, "MoreOnSuivi"@, f_str())->Err_0)
    } else if spec_field(m, "Logo"@, f_str()) is Err {
        Err(spec_field(m, "Logo"@, f_str())->Err_0)
    } else if spec_field(m, "GoHome"@, f_intbool()) is Err {
        Err(spec_field(m, "GoHome"@, f_intbool())->Err_0)
    } else if spec_field(m, "GrpMessages"@, f_arr(f_str())) is Err {
        Err(spec_field(m, "GrpMessages"@, f_arr(f_str()))->Err_0)
    } else if spec_field(m, "Advertising"@, f_bool()) is Err {
        Err(spec_field(m, "Advertising"@, f_bool())->Err_0)
    } else if spec_field(m, "DA"@, f_arr(f_str())) is Err {
        Err(spec_field(m, "DA"@, f_arr(f_str()))->Err_0)
    } else if spec_field(m, "Abjs"@, f_arr(f_absence())) is Err {
        Err(spec_field(m, "Abjs"@, f_arr(f_absence()))->Err_0)
    } else if spec_field(m, "Login"@, f_str()) is Err {
        Err(spec_field(m, "Login"@, f_str())->Err_0)
    } else if spec_field(m, "RdV"@, f_str()) is Err {
        Err(spec_field(m, "RdV"@, f_str())->Err_0)
    } else if spec_field(m, "Compte"@, f_str()) is Err {
        Err(spec_field(m, "Compte"@, f_str())->Err_0)
    } else if spec_field(m, "Charte"@, f_str()) is Err {
        Err(spec_field(m, "Charte"@, f_str())->Err_0)
    } else if spec_field(m, "Semesters"@, f_obj(f_str())) is Err {
        Err(spec_field(m, "Semesters"@, f_obj(f_str()))->Err_0)
    } else if spec_field(m, "Signature"@, f_str()) is Err {
        Err(spec_field(m, "Signature"@, f_str())->Err_0)
    } else if spec_field(m, "FST"@, f_arr(f_str())) is Err {
        Err(spec_field(m, "FST"@, f_arr(f_str()))->Err_0)
    } else if spec_field(m, "BilanAPOGEE"@, f_str()) is Err {
        Err(spec_field(m, "BilanAPOGEE"@, f_str())->Err_0)
    } else if spec_field(m, "SetReferent"@, f_str()) is Err {
        Err(spec_field(m, "SetReferent"@, f_str())->Err_0)
    } else if spec_field(m, "Bilan"@, f_str()) is Err {
        Err(spec_field(m, "Bilan"@, f_str())->Err_0)
    } else if spec_field(m, "DateDeNaissance"@, f_str()) is Err {
        Err(spec_field(m, "DateDeNaissance"@, f_str())->Err_0)
    } else if spec_field(m, "EDT"@, f_str()) is Err {
        Err(spec_field(m, "EDT"@, f_str())->Err_0)
    } else if spec_field(m, "PictureUpload"@, f_bool()) is Err {
        Err(spec_field(m, "PictureUpload"@, f_bool())->Err_0)
    } else if spec_field(m, "Preferences"@, f_prefs()) is Err {
        Err(spec_field(m, "Preferences"@, f_prefs())->Err_0)
    } else if spec_field(m, "Civilite"@, f_str()) is Err {
        Err(spec_field(m, "Civilite"@, f_str())->Err_0)
    } else if spec_field(m, "Names"@, f_person()) is Err {
        Err(spec_field(m, "Names"@, f_person())->Err_0)
    } else if spec_field(m, "MemberOf"@, f_member()) is Err {
        Err(spec_field(m, "MemberOf"@, f_member())->Err_0)
    } else if spec_field(m, "IA_scol"@, f_str()) is Err {
        Err(spec_field(m, "IA_scol"@, f_str())->Err_0)
    } else if spec_field(m, "Tables"@, f_str()) is Err {
        Err(spec_field(m, "Tables"@, f_str())->Err_0)
    } else if spec_field(m, "Notes"@, f_str()) is Err {
        Err(spec_field(m, "Notes"@, f_str())->Err_0)
    } else if spec_field(m, "Students"@, f_str()) is Err {
        Err(spec_field(m, "Students"@, f_str())->Err_0)
    } else if spec_field(m, "FFSU"@, f_str()) is Err {
        Err(spec_field(m, "FFSU"@, f_str())->Err_0)
    } else if spec_field(m, "TT"@, f_str()) is Err {
        Err(spec_field(m, "TT"@, f_str())->Err_0)
    } else if spec_field(m, "RSS"@, f_str()) is Err {
        Err(spec_field(m, "RSS"@, f_str())->Err_0)
    } else if spec_field(m, "RSSStream"@, f_arr(f_raw())) is Err {
        Err(spec_field(m, "RSSStream"@, f_arr(f_raw()))->Err_0)
    } else if spec_field(m, "Questionnaire"@, f_str()) is Err {
        Err(spec_field(m, "Questionnaire"@, f_str())->Err_0)
    } else if spec_field(m, "UETree"@, f_obj(f_str())) is Err {
        Err(spec_field(m, "UETree"@, f_obj(f_str()))->Err_0)
    } else if spec_field(m, "ReferentNP"@, f_str()) is Err {
        Err(spec_field(m, "ReferentNP"@, f_str())->Err_0)
    } else if spec_field(m, "Referent"@, f_raw()) is Err {
        Err(spec_field(m, "Referent"@, f_raw())->Err_0)
    } else if spec_field(m, "Mails"@, f_str()) is Err {
        Err(spec_field(m, "Mails"@, f_str())->Err_0)
    } else if spec_field(m, "choix_TVL"@, f_str()) is Err {
        Err(spec_field(m, "choix_TVL"@, f_str())->Err_0)
    } else if spec_field(m, "IPAnnuelle"@, f_obj(f_raw())) is Err {
        Err(spec_field(m, "IPAnnuelle"@, f_obj(f_raw()))->Err_0)
    } else if spec_field(m, "P_template"@, f_arr(f_raw())) is Err {
        Err(spec_field(m, "P_template"@, f_arr(f_raw()))->Err_0)
    } else if spec_field(m, "Grades"@, f_grades()) is Err {
        Err(spec_field(m, "Grades"@, f_grades())->Err_0)
    } else if spec_field(m, "Profiling"@, f_obj(f_int())) is Err {
        Err(spec_field(m, "Profiling"@, f_obj(f_int()))->Err_0)
    } else {
        Ok(TomussDataV {
            explanation: spec_field(m, "Explanation"@, f_str())->Ok_0,
            message: spec_field(m, "Message"@, f_str())->Ok_0,
            more_on_suivi: spec_field(m, "MoreOnSuivi"@, f_str())->Ok_0,
            logo: spec_field(m, "Logo"@, f_str())->Ok_0,
            go_home: spec_field(m, "GoHome"@, f_intbool())->Ok_0,
            grp_messages: spec_field(m, "GrpMessages"@, f_arr(f_str()))->Ok_0,
            advertising: spec_field(m, "Advertising"@, f_bool())->Ok_0,
            da: spec_field(m, "DA"@, f_arr(f_str()))->Ok_0,
            abjs: spec_field(m, "Abjs"@, f_arr(f_absence()))->Ok_0,
            login: spec_field(m, "Login"@, f_str())->Ok_0,
            rdv: spec_field(m, "RdV"@, f_str())->Ok_0,
            compte: spec_field(m, "Compte"@, f_str())->Ok_0,
            charte: spec_field(m, "Charte"@, f_str())->Ok_0,
            semesters: spec_field(m, "Semesters"@, f_obj(f_str()))->Ok_0,
            signature: spec_field(m, "Signature"@, f_str())->Ok_0,
            fst: spec_field(m, "FST"@, f_arr(f_str()))->Ok_0,
            bilan_apogee: spec_field(m, "BilanAPOGEE"@, f_str())->Ok_0,
            set_referent: spec_field(m, "SetReferent"@, f_str())->Ok_0,
            bilan: spec_field(m, "Bilan"@, f_str())->Ok_0,
            birth_date: spec_field(m, "DateDeNaissance"@, f_str())->Ok_0,
            edt: spec_field(m, "EDT"@, f_str())->Ok_0,
            picture_upload: spec_field(m, "PictureUpload"@, f_bool())->Ok_0,
            preferences: spec_field(m, "Preferences"@, f_prefs())->Ok_0,
            civilite: spec_field(m, "Civilite"@, f_str())->Ok_0,
            names: spec_field(m, "Names"@, f_person())->Ok_0,
            member_of: spec_field(m, "MemberOf"@, f_member())->Ok_0,
            ia_scol: spec_field(m, "IA_scol"@, f_str())->Ok_0,
            tables: spec_field(m, "Tables"@, f_str())->Ok_0,
            notes: spec_field(m, "Notes"@, f_str())->Ok_0,
            students: spec_field(m, "Students"@, f_str())->Ok_0,
            ffsu: spec_field(m, "FFSU"@, f_str())->Ok_0,
            tt: spec_field(m, "TT"@, f_str())->Ok_0,
            rss: spec_field(m, "RSS"@, f_str())->Ok_0,
            rss_stream: spec_field(m, "RSSStream"@, f_arr(f_raw()))->Ok_0,
            questionnaire: spec_field(m, "Questionnaire"@, f_str())->Ok_0,
            ue_tree: spec_field(m, "UETree"@, f_obj(f_str()))->Ok_0,
            referent_np: spec_field(m, "ReferentNP"@, f_str())->Ok_0,
            referent: spec_field(m, "Referent"@, f_raw())->Ok_0,
            mails: spec_field(m, "Mails"@, f_str())->Ok_0,
            choix_tvl: spec_field(m, "choix_TVL"@, f_str())->Ok_0,
            ip_annuelle: spec_field(m, "IPAnnuelle"@, f_obj(f_raw()))->Ok_0,
            p_template: spec_field(m, "P_template"@, f_arr(f_raw()))->Ok_0,
            grades: spec_field(m, "Grades"@, f_grades())->Ok_0,
            profiling: spec_field(m, "Profiling"@, f_obj(f_int()))->Ok_0,
        })
    }
}

/// The record, decoded from the whole feed document: the document must
/// be an array of `[key, value]` pairs; it is normalized into the keyed
/// mapping, and the mapping decoded field by field.
pub open spec fn spec_tomuss_of(v: JVal) -> Result<TomussDataV, ErrV> {
    match v {
        JVal::Arr(ps) => match spec_normalize(ps) {
            Ok(m) => spec_tomuss_map(m),
            Err(e) => Err(e),
        },
        _ => Err(spec_err_here(ErrorKindV::NotAnArray)),
    }
}

impl TomussData {
    /// Decode the whole feed document: the pair list is normalized into
    /// the keyed mapping, and the mapping decoded field by field; the
    /// first failure reports, with the full path to the fault.
    #[verifier::rlimit(100)]
    pub fn new(doc: &JsonValue) -> (r: Result<TomussData, DecodeError>)
        ensures
            match r {
                Ok(d) => spec_tomuss_of(doc@) == Ok::<_, ErrV>(d.deep_view()),
                Err(e) => spec_tomuss_of(doc@) == Err::<TomussDataV, _>(e.deep_view()),
            },
    {
        let pairs = match doc {
            JsonValue::Arr(ps) => ps,
            _ => {
                return Err(DecodeError::here(ErrorKind::NotAnArray));
            },
        };
        let pm = match NormalizedMap::normalize(pairs) {
            Ok(pm) => pm,
            Err(e) => {
                return Err(e);
            },
        };
        proof {
            assert(spec_tomuss_of(doc@) == spec_tomuss_map(pm@));
        }
        let explanation = match get_string(&pm, "Explanation") {
            Ok(x) => x,
            Err(e) => {
                return Err(e);
            },
        };
        let message = match get_string(&pm, "Message") {
            Ok(x) => x,
            Err(e) => {
                return Err(e);
            },
        };
        let more_on_suivi = match get_string(&pm, "MoreOnSuivi") {
            Ok(x) => x,
            Err(e) => {
                return Err(e);
            },
        };
        let logo = match get_string(&pm, "Logo") {
            Ok(x) => x,
            Err(e) => {
                return Err(e);
            },
        };
        let go_home = match get_int_bool(&pm, "GoHome") {
            Ok(x) => x,
            Err(e) => {
                return Err(e);
            },
        };
        let grp_messages = match get_str_vec(&pm, "GrpMessages") {
            Ok(x) => x,
            Err(e) => {
                return Err(e);
            },
        };
        let advertising = match get_bool(&pm, "Advertising") {
            Ok(x) => x,
            Err(e) => {
                return Err(e);
            },
        };
        let da = match get_str_vec(&pm, "DA") {
            Ok(x) => x,
            Err(e) => {
                return Err(e);
            },
        };
        let abjs = match get_absence_vec(&pm, "Abjs") {
            Ok(x) => x,
            Err(e) => {
                return Err(e);
            },
        };
        let login = match get_string(&pm, "Login") {
            Ok(x) => x,
            Err(e) => {
                return Err(e);
            },
        };
        let rdv = match get_string(&pm, "RdV") {
            Ok(x) => x,
            Err(e) => {
                return Err(e);
            },
        };
        let compte = match get_string(&pm, "Compte") {
            Ok(x) => x,
            Err(e) => {
                return Err(e);
            },
        };
        let charte = match get_string(&pm, "Charte") {
            Ok(x) => x,
            Err(e) => {
                return Err(e);
            },
        };
        let semesters = match get_str_map(&pm, "Semesters") {
            Ok(x) => x,
            Err(e) => {
                return Err(e);
            },
        };
        let signature = match get_string(&pm, "Signature") {
            Ok(x) => x,
            Err(e) => {
                return Err(e);
            },
        };
        let fst = match get_str_vec(&pm, "FST") {
            Ok(x) => x,
            Err(e) => {
                return Err(e);
            },
        };
        let bilan_apogee = match get_string(&pm, "BilanAPOGEE") {
            Ok(x) => x,
            Err(e) => {
                return Err(e);
            },
        };
        let set_referent = match get_string(&pm, "SetReferent") {
            Ok(x) => x,
            Err(e) => {
                return Err(e);
            },
        };
        let bilan = match get_string(&pm, "Bilan") {
            Ok(x) => x,
            Err(e) => {
                return Err(e);
            },
        };
        let birth_date = match get_string(&pm, "DateDeNaissance") {
            Ok(x) => x,
            Err(e) => {
                return Err(e);
            },
        };
        let edt = match get_string(&pm, "EDT") {
            Ok(x) => x,
            Err(e) => {
                return Err(e);
            },
        };
        let picture_upload = match get_bool(&pm, "PictureUpload") {
            Ok(x) => x,
            Err(e) => {
                return Err(e);
            },
        };
        let preferences = match pm.get("Preferences") {
            Some(w) => match Preferences::decode(w) {
                Ok(x) => x,
                Err(e) => {
                    return Err(e.in_field("Preferences"));
                },
            },
            None => {
                return Err(field_err("Preferences", ErrorKind::Missing));
            },
        };
        let civilite = match get_string(&pm, "Civilite") {
            Ok(x) => x,
            Err(e) => {
                return Err(e);
            },
        };
        let names = match get_person(&pm, "Names") {
            Ok(x) => x,
            Err(e) => {
                return Err(e);
            },
        };
        let member_of = match pm.get("MemberOf") {
            Some(w) => match MemberOf::decode(w) {
                Ok(x) => x,
                Err(e) => {
                    return Err(e.in_field("MemberOf"));
                },
            },
            None => {
                return Err(field_err("MemberOf", ErrorKind::Missing));
            },
        };
        let ia_scol = match get_string(&pm, "IA_scol") {
            Ok(x) => x,
            Err(e) => {
                return Err(e);
            },
        };
        let tables = match get_string(&pm, "Tables") {
            Ok(x) => x,
            Err(e) => {
                return Err(e);
            },
        };
        let notes = match get_string(&pm, "Notes") {
            Ok(x) => x,
            Err(e) => {
                return Err(e);
            },
        };
        let students = match get_string(&pm, "Students") {
            Ok(x) => x,
            Err(e) => {
                return Err(e);
            },
        };
        let ffsu = match get_string(&pm, "FFSU") {
            Ok(x) => x,
            Err(e) => {
                return Err(e);
            },
        };
        let tt = match get_string(&pm, "TT") {
            Ok(x) => x,
            Err(e) => {
                return Err(e);
            },
        };
        let rss = match get_string(&pm, "RSS") {
            Ok(x) => x,
            Err(e) => {
                return Err(e);
            },
        };
        let rss_stream = match get_raw_vec(&pm, "RSSStream") {
            Ok(x) => x,
            Err(e) => {
                return Err(e);
            },
        };
        let questionnaire = match get_string(&pm, "Questionnaire") {
            Ok(x) => x,
            Err(e) => {
                return Err(e);
            },
        };
        let ue_tree = match get_str_map(&pm, "UETree") {
            Ok(x) => x,
            Err(e) => {
                return Err(e);
            },
        };
        let referent_np = match get_string(&pm, "ReferentNP") {
            Ok(x) => x,
            Err(e) => {
                return Err(e);
            },
        };
        let referent = match get_raw(&pm, "Referent") {
            Ok(x) => x,
            Err(e) => {
                return Err(e);
            },
        };
        let mails = match get_string(&pm, "Mails") {
            Ok(x) => x,
            Err(e) => {
                return Err(e);
            },
        };
        let choix_tvl = match get_string(&pm, "choix_TVL") {
            Ok(x) => x,
            Err(e) => {
                return Err(e);
            },
        };
        let ip_annuelle = match get_raw_obj(&pm, "IPAnnuelle") {
            Ok(x) => x,
            Err(e) => {
                return Err(e);
            },
        };
        let p_template = match get_raw_vec(&pm, "P_template") {
            Ok(x) => x,
            Err(e) => {
                return Err(e);
            },
        };
        let grades = match get_grades(&pm, "Grades") {
            Ok(x) => x,
            Err(e) => {
                return Err(e);
            },
        };
        let profiling = match get_int_map(&pm, "Profiling") {
            Ok(x) => x,
            Err(e) => {
                return Err(e);
            },
        };
        let r = TomussData {
            explanation,
            message,
            more_on_suivi,
            logo,
            go_home,
            grp_messages,
            advertising,
            da,
            abjs,
            login,
            rdv,
            compte,
            charte,
            semesters,
            signature,
            fst,
            bilan_apogee,
            set_referent,
            bilan,
            birth_date,
            edt,
            picture_upload,
            preferences,
            civilite,
            names,
            member_of,
            ia_scol,
            tables,
            notes,
            students,
            ffsu,
            tt,
            rss,
            rss_stream,
            questionnaire,
            ue_tree,
            referent_np,
            referent,
            mails,
            choix_tvl,
            ip_annuelle,
            p_template,
            grades,
            profiling,
        };
        proof {
            assert(spec_tomuss_map(pm@) is Ok);
            assert(spec_tomuss_map(pm@)->Ok_0 =~= r.deep_view());
        }
        Ok(r)
    }
}

} // verus!
