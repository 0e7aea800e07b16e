//! The ADRG entry rules: one predicate per rule kind, and the scan of a
//! category's candidate ADRGs.
use vstd::prelude::*;

use crate::case::DrgCase;
use crate::codes::{any_shared, codes, has_code, names};
use crate::tables::{AdrgRule, GroupError, RuleTables};

verus! {

/// `c` is one of the codes of `list`.
pub open spec fn listed(list: Vec<String>, c: Seq<char>) -> bool {
    codes(list@).contains(c)
}

/// Some code of `s` is one of the codes of `list`.
pub open spec fn meets(list: Vec<String>, s: Seq<String>) -> bool {
    !codes(list@).disjoint(codes(s))
}

/// How many of the region sets share a code with the diagnoses `dis`.
pub open spec fn region_count(regions: Seq<Vec<String>>, dis: Set<Seq<char>>) -> nat
    decreases regions.len(),
{
    if regions.len() == 0 {
        0
    } else {
        region_count(regions.drop_last(), dis) + if !codes(regions.last()@).disjoint(dis) {
            1nat
        } else {
            0nat
        }
    }
}

/// The diagnoses reach at least two body regions.
pub open spec fn multi_region(regions: Seq<Vec<String>>, dis: Set<Seq<char>>) -> bool {
    region_count(regions, dis) >= 2
}

/// Whether `rule` admits case `c`, given the global valid-procedure set and
/// the body-region sets.
pub open spec fn rule_holds(
    rule: AdrgRule,
    c: DrgCase,
    valid_opts: Seq<String>,
    regions: Seq<Vec<String>>,
) -> bool {
    let md = c.main_dis@;
    let mo = c.main_opt@;
    let od = c.other_dis@;
    let ad = c.all_dis@;
    let ao = c.all_opt@;
    let s = c.has_surgery();
    match rule {
        AdrgRule::MainOpt { opts } => s && listed(opts, mo),
        AdrgRule::MainDis { dis } => listed(dis, md),
        AdrgRule::MainDisAndMainOpt { dis, opts } => s && listed(dis, md) && listed(opts, mo),
        AdrgRule::Dis { dis } => listed(dis, md) && meets(dis, od),
        AdrgRule::TwoOpts { first, second } => s && meets(first, ao) && meets(second, ao),
        AdrgRule::AnyValidOpt => s && !codes(valid_opts).disjoint(codes(ao)),
        AdrgRule::OtherDisOrOpt1AndOpt2 { other_dis, opt1, opt2 } => s && (meets(other_dis, od)
            || meets(opt1, ao)) && meets(opt2, ao),
        AdrgRule::Multi1 { main_dis, main_opt1, main_opt2, opt3, opt4 } => s && ((listed(
            main_dis,
            md,
        ) && listed(main_opt1, mo)) || listed(main_opt2, mo) || (meets(opt3, ao) && meets(
            opt4,
            ao,
        ))),
        AdrgRule::Multi2 { main_dis, opt1, opt2, opt3, opt4, opt5 } => s && listed(main_dis, md)
            && ((meets(opt1, ao) && meets(opt2, ao)) || (meets(opt1, ao) && meets(opt3, ao)
            && meets(opt4, ao)) || (meets(opt4, ao) && meets(opt5, ao))),
        AdrgRule::Multi3 { main_dis, main_opt1, opt2 } => s && listed(main_dis, md) && (listed(
            main_opt1,
            mo,
        ) || listed(opt2, mo) || meets(opt2, ao)),
        AdrgRule::Multi4 { main_dis1, main_dis2, main_opt, other_dis } => s && listed(
            main_opt,
            mo,
        ) && (listed(main_dis1, md) || (listed(main_dis2, md) && meets(other_dis, od))),
        AdrgRule::Multi5 { main_dis, main_opt, other_dis1, other_dis2 } => s && listed(
            main_opt,
            mo,
        ) && ((listed(main_dis, md) && meets(other_dis1, od)) || meets(other_dis2, od)),
        AdrgRule::OtherDis { dis } => meets(dis, od),
        AdrgRule::ThreeMainOpts { first, second, third } => s && (listed(first, mo) || listed(
            second,
            mo,
        ) || listed(third, mo)),
        AdrgRule::DisAndMainOpt { dis, opts } => s && meets(dis, ad) && listed(opts, mo),
        AdrgRule::MultiRegion => multi_region(regions, codes(ad)),
        AdrgRule::Unrecognized => false,
    }
}

/// The case has a principal procedure and it is in `opts`.
pub fn is_contain_main_opt(record: &DrgCase, opts: &Vec<String>) -> (r: bool)
    ensures
        r == (record.has_surgery() && listed(*opts, record.main_opt@)),
{
    !record.no_surgery() && has_code(opts, &record.main_opt)
}

/// The case has a principal procedure, and procedures in both lists.
pub fn is_contain_opt_simultaneously(
    record: &DrgCase,
    first: &Vec<String>,
    second: &Vec<String>,
) -> (r: bool)
    ensures
        r == (record.has_surgery() && meets(*first, record.all_opt@) && meets(
            *second,
            record.all_opt@,
        )),
{
    !record.no_surgery() && any_shared(first, &record.all_opt) && any_shared(
        second,
        &record.all_opt,
    )
}

/// The case has a principal procedure; an other diagnosis in `other_dis` or
/// a procedure in `opt1`; and a procedure in `opt2`.
pub fn is_contain_other_dis_or_other_opt1_and_other_opt2(
    record: &DrgCase,
    other_dis: &Vec<String>,
    opt1: &Vec<String>,
    opt2: &Vec<String>,
) -> (r: bool)
    ensures
        r == (record.has_surgery() && (meets(*other_dis, record.other_dis@) || meets(
            *opt1,
            record.all_opt@,
        )) && meets(*opt2, record.all_opt@)),
{
    !record.no_surgery() && (any_shared(other_dis, &record.other_dis) || any_shared(
        opt1,
        &record.all_opt,
    )) && any_shared(opt2, &record.all_opt)
}

/// The case has a principal procedure, its principal diagnosis is in `dis`
/// and its principal procedure in `opts`.
pub fn is_contain_main_dis_and_main_opt_simultaneously(
    record: &DrgCase,
    dis: &Vec<String>,
    opts: &Vec<String>,
) -> (r: bool)
    ensures
        r == (record.has_surgery() && listed(*dis, record.main_dis@) && listed(
            *opts,
            record.main_opt@,
        )),
{
    !record.no_surgery() && has_code(dis, &record.main_dis) && has_code(opts, &record.main_opt)
}

/// The principal diagnosis is in `dis`.
pub fn is_contain_main_dis(record: &DrgCase, dis: &Vec<String>) -> (r: bool)
    ensures
        r == listed(*dis, record.main_dis@),
{
    has_code(dis, &record.main_dis)
}

/// Multi-condition rule 1: the principal diagnosis in `main_dis` with the
/// principal procedure in `main_opt1`; or the principal procedure in
/// `main_opt2`; or procedures in both `opt3` and `opt4`.
pub fn is_contain_multi_opt1(
    record: &DrgCase,
    main_dis: &Vec<String>,
    main_opt1: &Vec<String>,
    main_opt2: &Vec<String>,
    opt3: &Vec<String>,
    opt4: &Vec<String>,
) -> (r: bool)
    ensures
        r == (record.has_surgery() && ((listed(*main_dis, record.main_dis@) && listed(
            *main_opt1,
            record.main_opt@,
        )) || listed(*main_opt2, record.main_opt@) || (meets(*opt3, record.all_opt@) && meets(
            *opt4,
            record.all_opt@,
        )))),
{
    if record.no_surgery() {
        false
    } else if has_code(main_dis, &record.main_dis) && has_code(main_opt1, &record.main_opt) {
        true
    } else if has_code(main_opt2, &record.main_opt) {
        true
    } else {
        any_shared(opt3, &record.all_opt) && any_shared(opt4, &record.all_opt)
    }
}

/// Multi-condition rule 2: the principal diagnosis in `main_dis` with one of
/// three procedure combinations.
pub fn is_contain_multi_opt2(
    record: &DrgCase,
    main_dis: &Vec<String>,
    opt1: &Vec<String>,
    opt2: &Vec<String>,
    opt3: &Vec<String>,
    opt4: &Vec<String>,
    opt5: &Vec<String>,
) -> (r: bool)
    ensures
        r == (record.has_surgery() && listed(*main_dis, record.main_dis@) && ((meets(
            *opt1,
            record.all_opt@,
        ) && meets(*opt2, record.all_opt@)) || (meets(*opt1, record.all_opt@) && meets(
            *opt3,
            record.all_opt@,
        ) && meets(*opt4, record.all_opt@)) || (meets(*opt4, record.all_opt@) && meets(
            *opt5,
            record.all_opt@,
        )))),
{
    if record.no_surgery() || !has_code(main_dis, &record.main_dis) {
        return false;
    }
    let has1 = any_shared(opt1, &record.all_opt);
    let has4 = any_shared(opt4, &record.all_opt);
    if has1 && any_shared(opt2, &record.all_opt) {
        true
    } else if has1 && any_shared(opt3, &record.all_opt) && has4 {
        true
    } else {
        has4 && any_shared(opt5, &record.all_opt)
    }
}

/// Multi-condition rule 3: the principal diagnosis in `main_dis`, with the
/// principal procedure in `main_opt1` or `opt2`, or some procedure in `opt2`.
pub fn is_contain_multi_opt3(
    record: &DrgCase,
    main_dis: &Vec<String>,
    main_opt1: &Vec<String>,
    opt2: &Vec<String>,
) -> (r: bool)
    ensures
        r == (record.has_surgery() && listed(*main_dis, record.main_dis@) && (listed(
            *main_opt1,
            record.main_opt@,
        ) || listed(*opt2, record.main_opt@) || meets(*opt2, record.all_opt@))),
{
    if record.no_surgery() || !has_code(main_dis, &record.main_dis) {
        return false;
    }
    has_code(main_opt1, &record.main_opt) || has_code(opt2, &record.main_opt) || any_shared(
        opt2,
        &record.all_opt,
    )
}

/// Multi-condition rule 4: the principal procedure in `main_opt`, with the
/// principal diagnosis in `main_dis1`, or in `main_dis2` with an other
/// diagnosis in `other_dis`.
pub fn is_contain_multi_opt4(
    record: &DrgCase,
    main_dis1: &Vec<String>,
    main_dis2: &Vec<String>,
    main_opt: &Vec<String>,
    other_dis: &Vec<String>,
) -> (r: bool)
    ensures
        r == (record.has_surgery() && listed(*main_opt, record.main_opt@) && (listed(
            *main_dis1,
            record.main_dis@,
        ) || (listed(*main_dis2, record.main_dis@) && meets(*other_dis, record.other_dis@)))),
{
    if record.no_surgery() || !has_code(main_opt, &record.main_opt) {
        return false;
    }
    has_code(main_dis1, &record.main_dis) || (has_code(main_dis2, &record.main_dis) && any_shared(
        other_dis,
        &record.other_dis,
    ))
}

/// Multi-condition rule 5: the principal procedure in `main_opt`, with the
/// principal diagnosis in `main_dis` and an other diagnosis in
/// `other_dis1`, or an other diagnosis in `other_dis2`.
pub fn is_contain_multi_opt5(
    record: &DrgCase,
    main_dis: &Vec<String>,
    main_opt: &Vec<String>,
    other_dis1: &Vec<String>,
    other_dis2: &Vec<String>,
) -> (r: bool)
    ensures
        r == (record.has_surgery() && listed(*main_opt, record.main_opt@) && ((listed(
            *main_dis,
            record.main_dis@,
        ) && meets(*other_dis1, record.other_dis@)) || meets(*other_dis2, record.other_dis@))),
{
    if record.no_surgery() || !has_code(main_opt, &record.main_opt) {
        return false;
    }
    (has_code(main_dis, &record.main_dis) && any_shared(other_dis1, &record.other_dis))
        || any_shared(other_dis2, &record.other_dis)
}

/// The case has a principal procedure and it is in one of three lists.
pub fn is_contain_multi_wb_opt(
    record: &DrgCase,
    first: &Vec<String>,
    second: &Vec<String>,
    third: &Vec<String>,
) -> (r: bool)
    ensures
        r == (record.has_surgery() && (listed(*first, record.main_opt@) || listed(
            *second,
            record.main_opt@,
        ) || listed(*third, record.main_opt@))),
{
    !record.no_surgery() && (has_code(first, &record.main_opt) || has_code(
        second,
        &record.main_opt,
    ) || has_code(third, &record.main_opt))
}

/// Some other diagnosis is in `dis`.
pub fn is_contain_other_dis(record: &DrgCase, dis: &Vec<String>) -> (r: bool)
    ensures
        r == meets(*dis, record.other_dis@),
{
    any_shared(dis, &record.other_dis)
}

/// The principal diagnosis is in `dis`, and so is some other diagnosis.
pub fn is_contain_dis(record: &DrgCase, dis: &Vec<String>) -> (r: bool)
    ensures
        r == (listed(*dis, record.main_dis@) && meets(*dis, record.other_dis@)),
{
    has_code(dis, &record.main_dis) && any_shared(dis, &record.other_dis)
}

/// The case has a principal procedure and some procedure is in `all_opt`.
pub fn is_contain_all_opt(record: &DrgCase, all_opt: &Vec<String>) -> (r: bool)
    ensures
        r == (record.has_surgery() && !codes(all_opt@).disjoint(codes(record.all_opt@))),
{
    !record.no_surgery() && any_shared(all_opt, &record.all_opt)
}

/// The case has a principal procedure in `opts`, and some diagnosis in `dis`.
pub fn is_contain_dis_and_main_opt(record: &DrgCase, dis: &Vec<String>, opts: &Vec<String>) -> (r:
    bool)
    ensures
        r == (record.has_surgery() && meets(*dis, record.all_dis@) && listed(
            *opts,
            record.main_opt@,
        )),
{
    !record.no_surgery() && any_shared(dis, &record.all_dis) && has_code(opts, &record.main_opt)
}

/// The case's diagnoses reach at least two of the body-region sets.
pub fn is_mdcz_dis(record: &DrgCase, regions: &Vec<Vec<String>>) -> (r: bool)
    ensures
        r == multi_region(regions@, codes(record.all_dis@)),
{
    let mut counter: usize = 0;
    let mut i: usize = 0;
    while i < regions.len()
        invariant
            0 <= i <= regions@.len(),
            counter == region_count(regions@.subrange(0, i as int), codes(record.all_dis@)),
            counter <= i,
        decreases regions@.len() - i,
    {
        let ghost before = regions@.subrange(0, i as int);
        let ghost after = regions@.subrange(0, i + 1);
        assert(after.drop_last() =~= before);
        if any_shared(&regions[i], &record.all_dis) {
            counter += 1;
        }
        i += 1;
    }
    assert(regions@.subrange(0, i as int) =~= regions@);
    counter >= 2
}

/// Whether `rule` admits the case.
pub fn rule_matches(
    rule: &AdrgRule,
    record: &DrgCase,
    valid_opts: &Vec<String>,
    regions: &Vec<Vec<String>>,
) -> (r: bool)
    ensures
        r == rule_holds(*rule, *record, valid_opts@, regions@),
{
    match rule {
        AdrgRule::MainOpt { opts } => is_contain_main_opt(record, opts),
        AdrgRule::MainDis { dis } => is_contain_main_dis(record, dis),
        AdrgRule::MainDisAndMainOpt { dis, opts } => {
            is_contain_main_dis_and_main_opt_simultaneously(record, dis, opts)
        },
        AdrgRule::Dis { dis } => is_contain_dis(record, dis),
        AdrgRule::TwoOpts { first, second } => is_contain_opt_simultaneously(
            record,
            first,
            second,
        ),
        AdrgRule::AnyValidOpt => is_contain_all_opt(record, valid_opts),
        AdrgRule::OtherDisOrOpt1AndOpt2 { other_dis, opt1, opt2 } => {
            is_contain_other_dis_or_other_opt1_and_other_opt2(record, other_dis, opt1, opt2)
        },
        AdrgRule::Multi1 { main_dis, main_opt1, main_opt2, opt3, opt4 } => {
            is_contain_multi_opt1(record, main_dis, main_opt1, main_opt2, opt3, opt4)
        },
        AdrgRule::Multi2 { main_dis, opt1, opt2, opt3, opt4, opt5 } => {
            is_contain_multi_opt2(record, main_dis, opt1, opt2, opt3, opt4, opt5)
        },
        AdrgRule::Multi3 { main_dis, main_opt1, opt2 } => {
            is_contain_multi_opt3(record, main_dis, main_opt1, opt2)
        },
        AdrgRule::Multi4 { main_dis1, main_dis2, main_opt, other_dis } => {
            is_contain_multi_opt4(record, main_dis1, main_dis2, main_opt, other_dis)
        },
        AdrgRule::Multi5 { main_dis, main_opt, other_dis1, other_dis2 } => {
            is_contain_multi_opt5(record, main_dis, main_opt, other_dis1, other_dis2)
        },
        AdrgRule::OtherDis { dis } => is_contain_other_dis(record, dis),
        AdrgRule::ThreeMainOpts { first, second, third } => {
            is_contain_multi_wb_opt(record, first, second, third)
        },
        AdrgRule::DisAndMainOpt { dis, opts } => is_contain_dis_and_main_opt(record, dis, opts),
        AdrgRule::MultiRegion => is_mdcz_dis(record, regions),
        AdrgRule::Unrecognized => false,
    }
}

/// The first of `cands` whose entry rule admits the case; an error where a
/// candidate before it, or it, has no rule.
pub open spec fn first_match(t: RuleTables, c: DrgCase, cands: Seq<Seq<char>>) -> Result<
    Option<Seq<char>>,
    GroupError,
>
    decreases cands.len(),
{
    if cands.len() == 0 {
        Ok(None)
    } else {
        match t.rules.lookup(cands[0]) {
            None => Err(GroupError::UnknownAdrg),
            Some(rule) => if rule_holds(rule, c, t.valid_opts@, t.regions@) {
                Ok(Some(cands[0]))
            } else {
                first_match(t, c, cands.drop_first())
            },
        }
    }
}

/// Whether the entry rule of `adrg_name` admits the case; an error where the
/// ADRG has no rule.
pub fn process_adrg(record: &DrgCase, tables: &RuleTables, adrg_name: &String) -> (r: Result<
    bool,
    GroupError,
>)
    ensures
        match tables.rules.lookup(adrg_name@) {
            None => r == Err::<bool, GroupError>(GroupError::UnknownAdrg),
            Some(rule) => r == Ok::<bool, GroupError>(
                rule_holds(rule, *record, tables.valid_opts@, tables.regions@),
            ),
        },
{
    match tables.rules.find(adrg_name) {
        None => Err(GroupError::UnknownAdrg),
        Some(i) => Ok(
            rule_matches(&tables.rules.entries[i].1, record, &tables.valid_opts, &tables.regions),
        ),
    }
}

/// The first of `cands` whose rule admits the case.
pub fn first_adrg(record: &DrgCase, tables: &RuleTables, cands: &Vec<String>) -> (r: Result<
    Option<String>,
    GroupError,
>)
    ensures
        match r {
            Ok(Some(a)) => first_match(*tables, *record, names(cands@)) == Ok::<
                Option<Seq<char>>,
                GroupError,
            >(Some(a@)),
            Ok(None) => first_match(*tables, *record, names(cands@)) == Ok::<
                Option<Seq<char>>,
                GroupError,
            >(None),
            Err(e) => first_match(*tables, *record, names(cands@)) == Err::<
                Option<Seq<char>>,
                GroupError,
            >(e),
        },
{
    let ghost all = names(cands@);
    assert(all.subrange(0, all.len() as int) =~= all);
    let mut i: usize = 0;
    while i < cands.len()
        invariant
            0 <= i <= cands@.len(),
            all == names(cands@),
            first_match(*tables, *record, all) == first_match(
                *tables,
                *record,
                all.subrange(i as int, all.len() as int),
            ),
        decreases cands@.len() - i,
    {
        let ghost rest = all.subrange(i as int, all.len() as int);
        assert(rest.drop_first() =~= all.subrange(i + 1, all.len() as int));
        assert(rest[0] == cands@[i as int]@);
        match process_adrg(record, tables, &cands[i]) {
            Err(e) => {
                return Err(e);
            },
            Ok(true) => {
                return Ok(Some(cands[i].clone()));
            },
            Ok(false) => {},
        }
        i += 1;
    }
    assert(all.subrange(i as int, all.len() as int) =~= Seq::<Seq<char>>::empty());
    Ok(None)
}

} // verus!
