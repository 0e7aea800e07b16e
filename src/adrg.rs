//! ADRG resolution within the chosen category, and the QY correction.
use vstd::prelude::*;

use crate::case::DrgCase;
use crate::codes::{codes, lit, names, unclassified};
use crate::mdc::{mdc_of, process_mdc, trauma_adrg_list, trauma_adrgs};
use crate::rules::{first_adrg, first_match};
use crate::tables::{GroupError, RuleTables};

verus! {

/// `ch` lies in the letter band `lo..=hi`.
pub open spec fn in_band(ch: char, lo: char, hi: char) -> bool {
    lo as u32 <= ch as u32 <= hi as u32
}

/// The second letter of an ADRG in the internal (medical) band `R..=Z`.
pub open spec fn internal_letter(ch: char) -> bool {
    in_band(ch, 'R', 'Z')
}

/// An ADRG code already marked QY in its second and third letters.
pub open spec fn is_qy_code(s: Seq<char>) -> bool {
    s.len() >= 3 && s[1] == 'Q' && s[2] == 'Y'
}

/// The kind of group an ADRG code names, by its second letter.
pub open spec fn drg_kind(s: Seq<char>) -> Seq<char> {
    if s == unclassified() {
        "KBBZ"@
    } else if is_qy_code(s) {
        "QY"@
    } else if s.len() >= 2 && in_band(s[1], 'A', 'J') {
        "surgery"@
    } else if s.len() >= 2 && in_band(s[1], 'K', 'Q') {
        "operation"@
    } else if s.len() >= 2 && internal_letter(s[1]) {
        "internal"@
    } else {
        "other"@
    }
}

/// The QY correction: a case whose principal procedure is a valid procedure
/// but which landed in an internal (medical) group is marked with the group's
/// first letter and `QY`.
pub open spec fn qy_of(valid_opts: Seq<String>, c: DrgCase, adrg: Seq<char>) -> Seq<char> {
    if adrg != unclassified() && c.has_surgery() && codes(valid_opts).contains(c.main_opt@)
        && adrg.len() >= 2 && internal_letter(adrg[1]) {
        adrg.subrange(0, 1) + "QY"@
    } else {
        adrg
    }
}

/// The ADRG that category `m` gives the case, before the QY correction.
pub open spec fn adrg_in(t: RuleTables, c: DrgCase, m: Seq<char>) -> Result<Seq<char>, GroupError> {
    let found = if m == "MDCA"@ {
        first_match(t, c, trauma_adrgs())
    } else {
        match t.candidates.lookup(m) {
            None => Err(GroupError::UnknownCategory),
            Some(l) => first_match(t, c, names(l@)),
        }
    };
    match found {
        Err(e) => Err(e),
        Ok(Some(a)) => Ok(a),
        Ok(None) => Ok(unclassified()),
    }
}

/// The ADRG of a case, after the QY correction.
pub open spec fn adrg_of(t: RuleTables, c: DrgCase) -> Result<Seq<char>, GroupError> {
    match mdc_of(t, c) {
        Err(e) => Err(e),
        Ok(m) => if m == unclassified() {
            Ok(unclassified())
        } else {
            match adrg_in(t, c, m) {
                Err(e) => Err(e),
                Ok(a) => Ok(qy_of(t.valid_opts@, c, a)),
            }
        },
    }
}

/// Reading ADRG codes.
pub struct DrgFunc {}

impl DrgFunc {
    /// Whether the code is marked QY in its second and third letters.
    pub fn is_qy(adrg_name: &String) -> (r: bool)
        ensures
            r == is_qy_code(adrg_name@),
    {
        let s = adrg_name.as_str();
        s.unicode_len() >= 3 && s.get_char(1) == 'Q' && s.get_char(2) == 'Y'
    }

    /// The kind of group the code names: `KBBZ`, `QY`, `surgery`,
    /// `operation`, `internal` or `other`.
    pub fn drg_type(adrg_name: String) -> (r: String)
        ensures
            r@ == drg_kind(adrg_name@),
    {
        if adrg_name == lit("KBBZ") {
            return lit("KBBZ");
        }
        if DrgFunc::is_qy(&adrg_name) {
            return lit("QY");
        }
        let s = adrg_name.as_str();
        if s.unicode_len() < 2 {
            return lit("other");
        }
        let ch = s.get_char(1) as u32;
        if 'A' as u32 <= ch && ch <= 'J' as u32 {
            lit("surgery")
        } else if 'K' as u32 <= ch && ch <= 'Q' as u32 {
            lit("operation")
        } else if 'R' as u32 <= ch && ch <= 'Z' as u32 {
            lit("internal")
        } else {
            lit("other")
        }
    }
}

/// Whether the code's second letter lies in the internal (medical) band.
pub fn is_internal(adrg_name: &String) -> (r: bool)
    ensures
        r == (adrg_name@.len() >= 2 && internal_letter(adrg_name@[1])),
{
    let s = adrg_name.as_str();
    if s.unicode_len() < 2 {
        return false;
    }
    let ch = s.get_char(1) as u32;
    'R' as u32 <= ch && ch <= 'Z' as u32
}

/// Applies the QY correction to the chosen ADRG.
pub fn qy_judge(record: &DrgCase, adrg_name: String, all_opt_list: &Vec<String>) -> (r: String)
    ensures
        r@ == qy_of(all_opt_list@, *record, adrg_name@),
{
    if adrg_name == lit("KBBZ") {
        return adrg_name;
    }
    if !record.no_surgery() && record.is_vaild_surgrey(all_opt_list) && is_internal(&adrg_name) {
        let mut res = String::from_str(adrg_name.as_str().substring_char(0, 1));
        res.append("QY");
        res
    } else {
        adrg_name
    }
}

/// Resolves the case's ADRG: its category, then the first candidate ADRG of
/// that category whose rule admits the case, then the QY correction.
pub fn which_adrg(record: &DrgCase, tables: &RuleTables) -> (r: Result<String, GroupError>)
    ensures
        match r {
            Ok(a) => adrg_of(*tables, *record) == Ok::<Seq<char>, GroupError>(a@),
            Err(e) => adrg_of(*tables, *record) == Err::<Seq<char>, GroupError>(e),
        },
{
    let mdc = match process_mdc(record, tables) {
        Err(e) => {
            return Err(e);
        },
        Ok(m) => m,
    };
    if mdc == lit("KBBZ") {
        return Ok(mdc);
    }
    let found = if mdc == lit("MDCA") {
        let list = trauma_adrg_list();
        first_adrg(record, tables, &list)
    } else {
        match tables.candidates.find(&mdc) {
            None => Err(GroupError::UnknownCategory),
            Some(i) => first_adrg(record, tables, &tables.candidates.entries[i].1),
        }
    };
    match found {
        Err(e) => Err(e),
        Ok(Some(a)) => Ok(qy_judge(record, a, &tables.valid_opts)),
        Ok(None) => Ok(qy_judge(record, lit("KBBZ"), &tables.valid_opts)),
    }
}

} // verus!
