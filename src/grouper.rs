//! The whole grouping of a case, and of a batch of cases.
use vstd::prelude::*;

use crate::adrg::{adrg_of, internal_letter, qy_of, which_adrg};
use crate::case::{DrgCase, Sex};
use crate::codes::{codes, names, unclassified};
use crate::drg::{drg_of, process_drg};
use crate::mdc::mdc_of;
use crate::rules::{first_match, rule_holds};
use crate::tables::{GroupError, RuleTables};

verus! {

/// The ADRG and the DRG of a case.
pub open spec fn grouping(t: RuleTables, c: DrgCase) -> Result<(Seq<char>, Seq<char>), GroupError> {
    match adrg_of(t, c) {
        Err(e) => Err(e),
        Ok(a) => match drg_of(t, c, a) {
            Err(e) => Err(e),
            Ok(d) => Ok((a, d)),
        },
    }
}

/// The DRG of a case.
pub open spec fn drg_code(t: RuleTables, c: DrgCase) -> Result<Seq<char>, GroupError> {
    match grouping(t, c) {
        Err(e) => Err(e),
        Ok(p) => Ok(p.1),
    }
}

/// The codes joined with `|` between them.
pub open spec fn joined(s: Seq<Seq<char>>) -> Seq<char>
    decreases s.len(),
{
    if s.len() == 0 {
        Seq::empty()
    } else if s.len() == 1 {
        s[0]
    } else {
        joined(s.drop_last()) + "|"@ + s.last()
    }
}

/// Joins the codes with `|` between them.
pub fn join_codes(v: &Vec<String>) -> (r: String)
    ensures
        r@ == joined(names(v@)),
{
    let ghost all = names(v@);
    let mut r = String::new();
    let mut i: usize = 0;
    while i < v.len()
        invariant
            0 <= i <= v@.len(),
            all == names(v@),
            r@ == joined(all.subrange(0, i as int)),
        decreases v@.len() - i,
    {
        let ghost next = all.subrange(0, i + 1);
        assert(next.drop_last() =~= all.subrange(0, i as int));
        assert(next.last() == v@[i as int]@);
        if i > 0 {
            r.append("|");
        }
        r.append(v[i].as_str());
        i += 1;
    }
    assert(all.subrange(0, i as int) =~= all);
    r
}

/// A grouped case: the fields of the case, with the multi-valued ones
/// joined by `|`, and its final code.
pub struct DrgCaseGrouped {
    pub id: String,
    pub main_dis: String,
    pub main_opt: String,
    pub other_dis: String,
    pub other_opt: String,
    pub sex: Sex,
    pub age_millionths: u64,
    pub weight: i32,
    pub code: String,
}

/// Row `g` carries the fields of case `c` and the code `code`.
pub open spec fn row_of(g: DrgCaseGrouped, c: DrgCase, code: Seq<char>) -> bool {
    &&& g.id@ == c.id@
    &&& g.main_dis@ == c.main_dis@
    &&& g.main_opt@ == c.main_opt@
    &&& g.other_dis@ == joined(names(c.other_dis@))
    &&& g.other_opt@ == joined(names(c.other_opt@))
    &&& g.sex == c.sex
    &&& g.age_millionths == c.age_millionths
    &&& g.weight == c.weight
    &&& g.code@ == code
}

impl DrgCaseGrouped {
    /// The output row of a case and its final code.
    pub fn new(drgcase: &DrgCase, code: String) -> (r: DrgCaseGrouped)
        ensures
            row_of(r, *drgcase, code@),
    {
        DrgCaseGrouped {
            id: drgcase.id.clone(),
            main_dis: drgcase.main_dis.clone(),
            main_opt: drgcase.main_opt.clone(),
            other_dis: join_codes(&drgcase.other_dis),
            other_opt: join_codes(&drgcase.other_opt),
            sex: drgcase.sex,
            age_millionths: drgcase.age_millionths,
            weight: drgcase.weight,
            code,
        }
    }
}

/// Groups a case: its ADRG and its DRG.
pub fn group_case(record: &DrgCase, tables: &RuleTables) -> (r: Result<(String, String), GroupError>)
    ensures
        match r {
            Ok(p) => grouping(*tables, *record) == Ok::<(Seq<char>, Seq<char>), GroupError>(
                (p.0@, p.1@),
            ),
            Err(e) => grouping(*tables, *record) == Err::<(Seq<char>, Seq<char>), GroupError>(e),
        },
{
    let adrg = match which_adrg(record, tables) {
        Err(e) => {
            return Err(e);
        },
        Ok(a) => a,
    };
    let kept = adrg.clone();
    match process_drg(record, adrg, tables) {
        Err(e) => Err(e),
        Ok(d) => Ok((kept, d)),
    }
}

/// Groups one case and gives its DRG.
pub fn single_drg_process(drgcase: &DrgCase, tables: &RuleTables) -> (r: Result<String, GroupError>)
    ensures
        match r {
            Ok(d) => drg_code(*tables, *drgcase) == Ok::<Seq<char>, GroupError>(d@),
            Err(e) => drg_code(*tables, *drgcase) == Err::<Seq<char>, GroupError>(e),
        },
{
    match group_case(drgcase, tables) {
        Err(e) => Err(e),
        Ok(p) => Ok(p.1),
    }
}

/// Groups a batch of cases: one row per case, in the order of the cases,
/// each with the case's DRG; or the error of the first case that fails.
pub fn batch_drg_process(case_vec: &Vec<DrgCase>, tables: &RuleTables) -> (r: Result<
    Vec<DrgCaseGrouped>,
    GroupError,
>)
    ensures
        match r {
            Ok(out) => {
                &&& out@.len() == case_vec@.len()
                &&& forall|i: int|
                    0 <= i < case_vec@.len() ==> #[trigger] drg_code(*tables, case_vec@[i]) == Ok::<
                        Seq<char>,
                        GroupError,
                    >(out@[i].code@) && row_of(out@[i], case_vec@[i], out@[i].code@)
            },
            Err(e) => exists|i: int|
                0 <= i < case_vec@.len() && #[trigger] drg_code(*tables, case_vec@[i]) == Err::<
                    Seq<char>,
                    GroupError,
                >(e) && forall|j: int| 0 <= j < i ==> drg_code(*tables, case_vec@[j]) is Ok,
        },
{
    let mut out: Vec<DrgCaseGrouped> = Vec::new();
    let mut i: usize = 0;
    while i < case_vec.len()
        invariant
            0 <= i <= case_vec@.len(),
            out@.len() == i,
            forall|k: int|
                0 <= k < i ==> #[trigger] drg_code(*tables, case_vec@[k]) == Ok::<
                    Seq<char>,
                    GroupError,
                >(out@[k].code@) && row_of(out@[k], case_vec@[k], out@[k].code@),
        decreases case_vec@.len() - i,
    {
        match single_drg_process(&case_vec[i], tables) {
            Err(e) => {
                assert(forall|j: int| 0 <= j < i ==> drg_code(*tables, case_vec@[j]) is Ok);
                return Err(e);
            },
            Ok(code) => {
                let row = DrgCaseGrouped::new(&case_vec[i], code);
                out.push(row);
            },
        }
        i += 1;
    }
    Ok(out)
}

/// A case without a principal diagnosis is unclassified at both stages,
/// whatever its other fields.
pub proof fn lemma_no_principal_unclassified(t: RuleTables, c: DrgCase)
    requires
        !c.has_main_diagnosis(),
    ensures
        grouping(t, c) == Ok::<(Seq<char>, Seq<char>), GroupError>(
            (unclassified(), unclassified()),
        ),
{
}

/// The QY correction marks a valid-procedure case in an internal group, and
/// never touches a case without a principal procedure.
pub proof fn lemma_qy_rewrite(valid_opts: Seq<String>, c: DrgCase, adrg: Seq<char>)
    ensures
        adrg != unclassified() && c.has_surgery() && codes(valid_opts).contains(c.main_opt@)
            && adrg.len() >= 2 && internal_letter(adrg[1]) ==> qy_of(valid_opts, c, adrg)
            == seq![adrg[0], 'Q', 'Y'],
        !c.has_surgery() ==> qy_of(valid_opts, c, adrg) == adrg,
{
    reveal_strlit("QY");
    if adrg != unclassified() && c.has_surgery() && codes(valid_opts).contains(c.main_opt@)
        && adrg.len() >= 2 && internal_letter(adrg[1]) {
        assert(adrg.subrange(0, 1) + "QY"@ =~= seq![adrg[0], 'Q', 'Y']);
    }
}

/// Two cases that agree on every code, on sex and on age.
pub open spec fn same_codes(a: DrgCase, b: DrgCase) -> bool {
    &&& a.main_dis@ == b.main_dis@
    &&& a.main_opt@ == b.main_opt@
    &&& names(a.other_dis@) == names(b.other_dis@)
    &&& names(a.all_dis@) == names(b.all_dis@)
    &&& names(a.all_opt@) == names(b.all_opt@)
    &&& a.sex == b.sex
    &&& a.age_millionths == b.age_millionths
}

/// Lists with the same codes in the same order hold the same set of codes.
pub proof fn lemma_codes_of_names(a: Seq<String>, b: Seq<String>)
    requires
        names(a) == names(b),
    ensures
        codes(a) == codes(b),
{
    assert(a.len() == names(a).len());
    assert(b.len() == names(b).len());
    assert forall|c: Seq<char>| codes(a).contains(c) <==> codes(b).contains(c) by {
        if codes(a).contains(c) {
            let i = choose|i: int| 0 <= i < a.len() && a[i]@ == c;
            assert(names(a)[i] == a[i]@);
            assert(names(b)[i] == b[i]@);
        }
        if codes(b).contains(c) {
            let i = choose|i: int| 0 <= i < b.len() && b[i]@ == c;
            assert(names(a)[i] == a[i]@);
            assert(names(b)[i] == b[i]@);
        }
    }
    assert(codes(a) =~= codes(b));
}

/// Cases that agree on every code get the same candidate scan.
proof fn lemma_first_match_same(t: RuleTables, a: DrgCase, b: DrgCase, cands: Seq<Seq<char>>)
    requires
        same_codes(a, b),
    ensures
        first_match(t, a, cands) == first_match(t, b, cands),
    decreases cands.len(),
{
    lemma_codes_of_names(a.other_dis@, b.other_dis@);
    lemma_codes_of_names(a.all_dis@, b.all_dis@);
    lemma_codes_of_names(a.all_opt@, b.all_opt@);
    if cands.len() > 0 {
        match t.rules.lookup(cands[0]) {
            None => {},
            Some(rule) => {
                assert(rule_holds(rule, a, t.valid_opts@, t.regions@) == rule_holds(
                    rule,
                    b,
                    t.valid_opts@,
                    t.regions@,
                ));
                lemma_first_match_same(t, a, b, cands.drop_first());
            },
        }
    }
}

/// Grouping is deterministic: cases that agree on every code, on sex and on
/// age get the same ADRG and DRG from the same tables.
pub proof fn lemma_grouping_deterministic(t: RuleTables, a: DrgCase, b: DrgCase)
    requires
        same_codes(a, b),
    ensures
        grouping(t, a) == grouping(t, b),
{
    lemma_codes_of_names(a.other_dis@, b.other_dis@);
    lemma_codes_of_names(a.all_dis@, b.all_dis@);
    lemma_codes_of_names(a.all_opt@, b.all_opt@);
    lemma_first_match_same(t, a, b, crate::mdc::trauma_adrgs());
    assert(mdc_of(t, a) == mdc_of(t, b));
    match mdc_of(t, a) {
        Err(_) => {},
        Ok(m) => {
            match t.candidates.lookup(m) {
                None => {},
                Some(l) => {
                    lemma_first_match_same(t, a, b, names(l@));
                },
            }
        },
    }
    assert(adrg_of(t, a) == adrg_of(t, b));
    assert(a.other_dis@.len() == names(a.other_dis@).len());
    assert(b.other_dis@.len() == names(b.other_dis@).len());
    assert forall|i: int| 0 <= i < a.other_dis@.len() implies a.other_dis@[i]@ == b.other_dis@[i]@ by {
        assert(names(a.other_dis@)[i] == a.other_dis@[i]@);
        assert(names(b.other_dis@)[i] == b.other_dis@[i]@);
    }
    assert(crate::drg::qualifying(t, a) == crate::drg::qualifying(t, b));
}

} // verus!
