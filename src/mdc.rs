//! Major diagnostic category (MDC) resolution.
use vstd::prelude::*;

use crate::case::{DrgCase, Sex};
use crate::codes::{any_shared, codes, lit, names, unclassified};
use crate::rules::{first_adrg, first_match, is_mdcz_dis, meets, multi_region, region_count};
use crate::tables::{GroupError, RuleTables};

verus! {

/// The ADRGs of the trauma category (MDCA), probed in this order.
pub open spec fn trauma_adrgs() -> Seq<Seq<char>> {
    seq![
        "AA1"@,
        "AA2"@,
        "AB1"@,
        "AC1"@,
        "AD1"@,
        "AE1"@,
        "AF1"@,
        "AG1"@,
        "AG2"@,
        "AG3"@,
        "AH1"@,
        "AH2"@,
    ]
}

/// An infant of at most 29 days: `age <= 29 / 365` years.
pub open spec fn neonate(age_millionths: u64) -> bool {
    age_millionths * 365 <= 29 * 1_000_000
}

/// The first category that the principal-diagnosis table lists for `dx`.
pub open spec fn first_category(t: RuleTables, dx: Seq<char>) -> Option<Seq<char>> {
    match t.categories.lookup(dx) {
        Some(l) => if l@.len() > 0 {
            Some(l@[0]@)
        } else {
            None
        },
        None => None,
    }
}

/// The trauma probe: the first trauma ADRG that admits a case with surgery.
pub open spec fn trauma_probe(t: RuleTables, c: DrgCase) -> Result<Option<Seq<char>>, GroupError> {
    if c.has_surgery() {
        first_match(t, c, trauma_adrgs())
    } else {
        Ok(None)
    }
}

/// The category that the principal-diagnosis table gives a case. Only the
/// first listed category can claim it; the sex-restricted categories
/// redirect a case of the matching sex to the catch-all category, and the
/// pre-emptive categories claim nothing through the table.
pub open spec fn table_mdc(t: RuleTables, c: DrgCase) -> Seq<char> {
    match first_category(t, c.main_dis@) {
        None => unclassified(),
        Some(f) => if f == "MDCN"@ {
            if c.sex == Sex::Female {
                "MDCY"@
            } else {
                unclassified()
            }
        } else if f == "MDCM"@ {
            if c.sex == Sex::Male {
                "MDCY"@
            } else {
                unclassified()
            }
        } else if f == "MDCA"@ || f == "MDCP"@ || f == "MDCY"@ || f == "MDCZ"@ {
            unclassified()
        } else {
            f
        },
    }
}

/// The category of a case once the trauma category has not claimed it.
pub open spec fn later_mdc(t: RuleTables, c: DrgCase) -> Seq<char> {
    if neonate(c.age_millionths) {
        "MDCP"@
    } else if meets(t.catch_all, c.all_dis@) {
        "MDCY"@
    } else if multi_region(t.regions@, codes(c.all_dis@)) {
        "MDCZ"@
    } else {
        table_mdc(t, c)
    }
}

/// The category of a case, or the unclassified marker.
pub open spec fn mdc_of(t: RuleTables, c: DrgCase) -> Result<Seq<char>, GroupError> {
    if !c.has_main_diagnosis() {
        Ok(unclassified())
    } else {
        match trauma_probe(t, c) {
            Err(e) => Err(e),
            Ok(Some(_)) => Ok("MDCA"@),
            Ok(None) => Ok(later_mdc(t, c)),
        }
    }
}

/// The trauma ADRGs as strings.
pub fn trauma_adrg_list() -> (r: Vec<String>)
    ensures
        names(r@) == trauma_adrgs(),
{
    let mut r: Vec<String> = Vec::new();
    r.push(lit("AA1"));
    r.push(lit("AA2"));
    r.push(lit("AB1"));
    r.push(lit("AC1"));
    r.push(lit("AD1"));
    r.push(lit("AE1"));
    r.push(lit("AF1"));
    r.push(lit("AG1"));
    r.push(lit("AG2"));
    r.push(lit("AG3"));
    r.push(lit("AH1"));
    r.push(lit("AH2"));
    assert(names(r@) =~= trauma_adrgs());
    r
}

/// The trauma probe: a case with a principal procedure is claimed by the
/// trauma category where one of its ADRGs admits it.
pub fn is_mdca(record: &DrgCase, tables: &RuleTables) -> (r: Result<Option<String>, GroupError>)
    ensures
        match r {
            Ok(Some(a)) => trauma_probe(*tables, *record) == Ok::<Option<Seq<char>>, GroupError>(
                Some(a@),
            ),
            Ok(None) => trauma_probe(*tables, *record) == Ok::<Option<Seq<char>>, GroupError>(
                None,
            ),
            Err(e) => trauma_probe(*tables, *record) == Err::<Option<Seq<char>>, GroupError>(e),
        },
{
    if record.no_surgery() {
        return Ok(None);
    }
    let list = trauma_adrg_list();
    first_adrg(record, tables, &list)
}

/// The multi-region category claims a case whose diagnoses reach at least
/// two body regions.
pub fn is_mdcz(record: &DrgCase, tables: &RuleTables) -> (r: bool)
    ensures
        r == multi_region(tables.regions@, codes(record.all_dis@)),
{
    is_mdcz_dis(record, &tables.regions)
}

/// The neonate category claims a case aged at most 29 days.
pub fn is_mdcp(record: &DrgCase) -> (r: bool)
    ensures
        r == neonate(record.age_millionths),
{
    (record.age_millionths as u128) * 365 <= 29_000_000
}

/// The catch-all category claims a case with a diagnosis in its set.
pub fn is_mdcy(record: &DrgCase, tables: &RuleTables) -> (r: bool)
    ensures
        r == meets(tables.catch_all, record.all_dis@),
{
    any_shared(&tables.catch_all, &record.all_dis)
}

/// The first category listed for the principal diagnosis, if any.
pub fn first_listed(record: &DrgCase, tables: &RuleTables) -> (r: Option<String>)
    ensures
        match r {
            Some(f) => first_category(*tables, record.main_dis@) == Some(f@),
            None => first_category(*tables, record.main_dis@) is None,
        },
{
    match tables.categories.find(&record.main_dis) {
        None => None,
        Some(i) => {
            let l = &tables.categories.entries[i].1;
            if l.len() > 0 {
                Some(l[0].clone())
            } else {
                None
            }
        },
    }
}

/// A female case whose principal diagnosis is first listed under the
/// female-restricted category is redirected to the catch-all category.
pub fn is_mdcn(record: &DrgCase, first: &String) -> (r: bool)
    ensures
        r == (record.sex == Sex::Female && first@ == "MDCN"@),
{
    record.sex == Sex::Female && *first == lit("MDCN")
}

/// A male case whose principal diagnosis is first listed under the
/// male-restricted category is redirected to the catch-all category.
pub fn is_mdcm(record: &DrgCase, first: &String) -> (r: bool)
    ensures
        r == (record.sex == Sex::Male && first@ == "MDCM"@),
{
    record.sex == Sex::Male && *first == lit("MDCM")
}

/// An ordinary category claims a case whose principal diagnosis lists it
/// first.
pub fn is_common_mdc(first: &String, mdc_name: &String) -> (r: bool)
    ensures
        r == (first@ == mdc_name@),
{
    *first == *mdc_name
}

/// The category that the principal-diagnosis table gives the case.
pub fn table_category(record: &DrgCase, tables: &RuleTables) -> (r: String)
    ensures
        r@ == table_mdc(*tables, *record),
{
    let first = match first_listed(record, tables) {
        None => {
            return lit("KBBZ");
        },
        Some(f) => f,
    };
    if first == lit("MDCN") {
        if is_mdcn(record, &first) {
            lit("MDCY")
        } else {
            lit("KBBZ")
        }
    } else if first == lit("MDCM") {
        if is_mdcm(record, &first) {
            lit("MDCY")
        } else {
            lit("KBBZ")
        }
    } else if first == lit("MDCA") || first == lit("MDCP") || first == lit("MDCY") || first == lit(
        "MDCZ",
    ) {
        lit("KBBZ")
    } else {
        first
    }
}

/// Resolves the case's major diagnostic category: the trauma, neonate,
/// catch-all and multi-region categories in turn, then the principal
/// diagnosis's own category.
pub fn process_mdc(record: &DrgCase, tables: &RuleTables) -> (r: Result<String, GroupError>)
    ensures
        match r {
            Ok(m) => mdc_of(*tables, *record) == Ok::<Seq<char>, GroupError>(m@),
            Err(e) => mdc_of(*tables, *record) == Err::<Seq<char>, GroupError>(e),
        },
{
    if record.no_main_diagnosis() {
        return Ok(lit("KBBZ"));
    }
    match is_mdca(record, tables) {
        Err(e) => {
            return Err(e);
        },
        Ok(Some(_)) => {
            return Ok(lit("MDCA"));
        },
        Ok(None) => {},
    }
    if is_mdcp(record) {
        Ok(lit("MDCP"))
    } else if is_mdcy(record, tables) {
        Ok(lit("MDCY"))
    } else if is_mdcz(record, tables) {
        Ok(lit("MDCZ"))
    } else {
        Ok(table_category(record, tables))
    }
}

/// Past the trauma, neonate and catch-all categories, a case is claimed by
/// the multi-region category exactly when its diagnoses reach two or more
/// body regions: one region is not enough.
pub proof fn lemma_multi_region_claim(t: RuleTables, c: DrgCase)
    requires
        c.has_main_diagnosis(),
        trauma_probe(t, c) == Ok::<Option<Seq<char>>, GroupError>(None),
        !neonate(c.age_millionths),
        !meets(t.catch_all, c.all_dis@),
    ensures
        (mdc_of(t, c) == Ok::<Seq<char>, GroupError>("MDCZ"@)) == (region_count(
            t.regions@,
            codes(c.all_dis@),
        ) >= 2),
{
    reveal_strlit("MDCZ");
    reveal_strlit("MDCY");
    reveal_strlit("KBBZ");
    assert("MDCY"@ != "MDCZ"@) by {
        assert("MDCY"@[3] != "MDCZ"@[3]);
    }
    assert(unclassified() != "MDCZ"@) by {
        assert("KBBZ"@[0] != "MDCZ"@[0]);
    }
}

} // verus!
