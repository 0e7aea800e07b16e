//! DRG refinement: the final code chosen under an ADRG by the severity of
//! the case's complications and comorbidities.
use vstd::prelude::*;

use crate::adrg::{is_qy_code, DrgFunc};
use crate::case::DrgCase;
use crate::codes::{lit, names, unclassified};
use crate::tables::{GroupError, RuleTables, Severity};

verus! {

/// The exclusion group that the case's principal diagnosis suppresses.
pub open spec fn excluded_group(t: RuleTables, c: DrgCase) -> Option<Seq<char>> {
    match t.exclusions.lookup(c.main_dis@) {
        Some(g) => Some(g@),
        None => None,
    }
}

/// Diagnosis `d` counts for the case at severity `level`: the severity table
/// gives it that level, in a group that the principal diagnosis does not
/// suppress.
pub open spec fn counts(t: RuleTables, c: DrgCase, d: Seq<char>, level: Severity) -> bool {
    match t.severity.lookup(d) {
        Some(e) => e.level == Some(level) && excluded_group(t, c) != Some(e.group@),
        None => false,
    }
}

/// Some other diagnosis of the case counts at severity `level`.
pub open spec fn has_level(t: RuleTables, c: DrgCase, level: Severity) -> bool {
    exists|i: int| 0 <= i < c.other_dis@.len() && counts(t, c, c.other_dis@[i]@, level)
}

/// The case's qualifying severity: major if any other diagnosis counts as
/// major, else minor if any counts as minor, else none.
pub open spec fn qualifying(t: RuleTables, c: DrgCase) -> Option<Severity> {
    if has_level(t, c, Severity::Major) {
        Some(Severity::Major)
    } else if has_level(t, c, Severity::Minor) {
        Some(Severity::Minor)
    } else {
        None
    }
}

/// Code `s` ends in the tier digit `d`.
pub open spec fn ends_in(s: Seq<char>, d: char) -> bool {
    s.len() > 0 && s.last() == d
}

/// The first of the codes that ends in tier digit `d`.
pub open spec fn tier_code(drgs: Seq<Seq<char>>, d: char) -> Option<Seq<char>>
    decreases drgs.len(),
{
    if drgs.len() == 0 {
        None
    } else if ends_in(drgs[0], d) {
        Some(drgs[0])
    } else {
        tier_code(drgs.drop_first(), d)
    }
}

/// The tier digit that a case of severity `sev` takes under an ADRG with
/// `n` (two or three) registered codes; `has1` tells whether a code of
/// tier 1 is among them.
pub open spec fn wanted_tier(n: nat, sev: Option<Severity>, has1: bool) -> char {
    if n == 2 {
        match sev {
            None => '5',
            Some(Severity::Major) => if has1 {
                '1'
            } else {
                '3'
            },
            Some(Severity::Minor) => if has1 {
                '5'
            } else {
                '3'
            },
        }
    } else {
        match sev {
            None => '5',
            Some(Severity::Major) => '1',
            Some(Severity::Minor) => '3',
        }
    }
}

/// The DRG chosen among the registered codes for severity `sev`.
pub open spec fn select_drg(drgs: Seq<Seq<char>>, sev: Option<Severity>) -> Result<
    Seq<char>,
    GroupError,
> {
    if drgs.len() == 1 {
        Ok(drgs[0])
    } else if drgs.len() == 0 || drgs.len() > 3 {
        Err(GroupError::DrgCodesMalformed)
    } else {
        match tier_code(drgs, wanted_tier(drgs.len(), sev, tier_code(drgs, '1') is Some)) {
            Some(x) => Ok(x),
            None => Err(GroupError::TierMissing),
        }
    }
}

/// The DRG of a case under ADRG `adrg`. The unclassified marker and a QY
/// code are kept as they are.
pub open spec fn drg_of(t: RuleTables, c: DrgCase, adrg: Seq<char>) -> Result<
    Seq<char>,
    GroupError,
> {
    if adrg == unclassified() || is_qy_code(adrg) {
        Ok(adrg)
    } else {
        match t.drg_codes.lookup(adrg) {
            None => Err(GroupError::DrgCodesMissing),
            Some(l) => select_drg(names(l@), qualifying(t, c)),
        }
    }
}

/// The qualifying severity of the case.
pub fn case_severity(record: &DrgCase, tables: &RuleTables) -> (r: Option<Severity>)
    ensures
        r == qualifying(*tables, *record),
{
    let excluded: Option<&String> = match tables.exclusions.find(&record.main_dis) {
        Some(i) => Some(&tables.exclusions.entries[i].1),
        None => None,
    };
    assert(match excluded {
        Some(g) => excluded_group(*tables, *record) == Some(g@),
        None => excluded_group(*tables, *record) is None,
    });
    let mut has_major = false;
    let mut has_minor = false;
    let mut k: usize = 0;
    while k < record.other_dis.len()
        invariant
            0 <= k <= record.other_dis@.len(),
            match excluded {
                Some(g) => excluded_group(*tables, *record) == Some(g@),
                None => excluded_group(*tables, *record) is None,
            },
            has_major == exists|i: int|
                0 <= i < k && counts(*tables, *record, record.other_dis@[i]@, Severity::Major),
            has_minor == exists|i: int|
                0 <= i < k && counts(*tables, *record, record.other_dis@[i]@, Severity::Minor),
        decreases record.other_dis@.len() - k,
    {
        let ghost d = record.other_dis@[k as int]@;
        match tables.severity.find(&record.other_dis[k]) {
            None => {
                assert(!counts(*tables, *record, d, Severity::Major));
                assert(!counts(*tables, *record, d, Severity::Minor));
            },
            Some(j) => {
                let e = &tables.severity.entries[j].1;
                let kept = match excluded {
                    Some(g) => !(e.group == *g),
                    None => true,
                };
                if kept {
                    match e.level {
                        Some(Severity::Major) => {
                            has_major = true;
                        },
                        Some(Severity::Minor) => {
                            has_minor = true;
                        },
                        None => {},
                    }
                }
                assert(counts(*tables, *record, d, Severity::Major) == (kept && e.level
                    == Some(Severity::Major)));
                assert(counts(*tables, *record, d, Severity::Minor) == (kept && e.level
                    == Some(Severity::Minor)));
            },
        }
        k += 1;
    }
    if has_major {
        Some(Severity::Major)
    } else if has_minor {
        Some(Severity::Minor)
    } else {
        None
    }
}

/// Whether code `s` ends in tier digit `d`.
pub fn ends_with_tier(s: &String, d: char) -> (r: bool)
    ensures
        r == ends_in(s@, d),
{
    let t = s.as_str();
    let n = t.unicode_len();
    n > 0 && t.get_char(n - 1) == d
}

/// The first registered code that ends in tier digit `d`.
pub fn find_tier(drgs: &Vec<String>, d: char) -> (r: Option<String>)
    ensures
        match r {
            Some(x) => tier_code(names(drgs@), d) == Some(x@),
            None => tier_code(names(drgs@), d) is None,
        },
{
    let ghost all = names(drgs@);
    assert(all.subrange(0, all.len() as int) =~= all);
    let mut i: usize = 0;
    while i < drgs.len()
        invariant
            0 <= i <= drgs@.len(),
            all == names(drgs@),
            tier_code(all, d) == tier_code(all.subrange(i as int, all.len() as int), d),
        decreases drgs@.len() - i,
    {
        let ghost rest = all.subrange(i as int, all.len() as int);
        assert(rest.drop_first() =~= all.subrange(i + 1, all.len() as int));
        assert(rest[0] == drgs@[i as int]@);
        if ends_with_tier(&drgs[i], d) {
            return Some(drgs[i].clone());
        }
        i += 1;
    }
    assert(all.subrange(i as int, all.len() as int) =~= Seq::<Seq<char>>::empty());
    None
}

/// Chooses among the registered codes of an ADRG for severity `sev`.
pub fn select_code(drgs: &Vec<String>, sev: Option<Severity>) -> (r: Result<String, GroupError>)
    ensures
        match r {
            Ok(x) => select_drg(names(drgs@), sev) == Ok::<Seq<char>, GroupError>(x@),
            Err(e) => select_drg(names(drgs@), sev) == Err::<Seq<char>, GroupError>(e),
        },
{
    let n = drgs.len();
    if n == 1 {
        return Ok(drgs[0].clone());
    }
    if n == 0 || n > 3 {
        return Err(GroupError::DrgCodesMalformed);
    }
    let has1 = find_tier(drgs, '1').is_some();
    let d = if n == 2 {
        match sev {
            None => '5',
            Some(Severity::Major) => if has1 {
                '1'
            } else {
                '3'
            },
            Some(Severity::Minor) => if has1 {
                '5'
            } else {
                '3'
            },
        }
    } else {
        match sev {
            None => '5',
            Some(Severity::Major) => '1',
            Some(Severity::Minor) => '3',
        }
    };
    match find_tier(drgs, d) {
        Some(x) => Ok(x),
        None => Err(GroupError::TierMissing),
    }
}

/// Refines the ADRG of a case into its DRG.
pub fn process_drg(record: &DrgCase, adrg_name: String, tables: &RuleTables) -> (r: Result<
    String,
    GroupError,
>)
    ensures
        match r {
            Ok(x) => drg_of(*tables, *record, adrg_name@) == Ok::<Seq<char>, GroupError>(x@),
            Err(e) => drg_of(*tables, *record, adrg_name@) == Err::<Seq<char>, GroupError>(e),
        },
{
    if adrg_name == lit("KBBZ") || DrgFunc::is_qy(&adrg_name) {
        return Ok(adrg_name);
    }
    match tables.drg_codes.find(&adrg_name) {
        None => Err(GroupError::DrgCodesMissing),
        Some(i) => {
            let sev = case_severity(record, tables);
            select_code(&tables.drg_codes.entries[i].1, sev)
        },
    }
}

} // verus!
