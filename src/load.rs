//! Building the typed rule tables from the policy's string-keyed documents.
use vstd::prelude::*;

use crate::codes::{copy_codes, lit, names, Table};
use crate::tables::{AdrgRule, SevEntry, Severity};

verus! {

/// A fault in the policy's documents, found while loading them.
#[derive(PartialEq, Eq, Structural, Clone, Copy, Debug)]
pub enum LoadError {
    /// A code list that a rule or a region names is absent.
    MissingList,
}

/// The position of a rule kind among the variants of `AdrgRule`.
pub open spec fn rule_tag(rule: AdrgRule) -> nat {
    match rule {
        AdrgRule::MainOpt { .. } => 0,
        AdrgRule::MainDis { .. } => 1,
        AdrgRule::MainDisAndMainOpt { .. } => 2,
        AdrgRule::Dis { .. } => 3,
        AdrgRule::TwoOpts { .. } => 4,
        AdrgRule::AnyValidOpt => 5,
        AdrgRule::OtherDisOrOpt1AndOpt2 { .. } => 6,
        AdrgRule::Multi1 { .. } => 7,
        AdrgRule::Multi2 { .. } => 8,
        AdrgRule::Multi3 { .. } => 9,
        AdrgRule::Multi4 { .. } => 10,
        AdrgRule::Multi5 { .. } => 11,
        AdrgRule::OtherDis { .. } => 12,
        AdrgRule::ThreeMainOpts { .. } => 13,
        AdrgRule::DisAndMainOpt { .. } => 14,
        AdrgRule::MultiRegion => 15,
        AdrgRule::Unrecognized => 16,
    }
}

/// The code lists that a rule carries, in the order of its fields.
pub open spec fn rule_lists(rule: AdrgRule) -> Seq<Seq<Seq<char>>> {
    match rule {
        AdrgRule::MainOpt { opts } => seq![names(opts@)],
        AdrgRule::MainDis { dis } => seq![names(dis@)],
        AdrgRule::MainDisAndMainOpt { dis, opts } => seq![names(dis@), names(opts@)],
        AdrgRule::Dis { dis } => seq![names(dis@)],
        AdrgRule::TwoOpts { first, second } => seq![names(first@), names(second@)],
        AdrgRule::AnyValidOpt => seq![],
        AdrgRule::OtherDisOrOpt1AndOpt2 { other_dis, opt1, opt2 } => seq![
            names(other_dis@),
            names(opt1@),
            names(opt2@),
        ],
        AdrgRule::Multi1 { main_dis, main_opt1, main_opt2, opt3, opt4 } => seq![
            names(main_dis@),
            names(main_opt1@),
            names(main_opt2@),
            names(opt3@),
            names(opt4@),
        ],
        AdrgRule::Multi2 { main_dis, opt1, opt2, opt3, opt4, opt5 } => seq![
            names(main_dis@),
            names(opt1@),
            names(opt2@),
            names(opt3@),
            names(opt4@),
            names(opt5@),
        ],
        AdrgRule::Multi3 { main_dis, main_opt1, opt2 } => seq![
            names(main_dis@),
            names(main_opt1@),
            names(opt2@),
        ],
        AdrgRule::Multi4 { main_dis1, main_dis2, main_opt, other_dis } => seq![
            names(main_dis1@),
            names(main_dis2@),
            names(main_opt@),
            names(other_dis@),
        ],
        AdrgRule::Multi5 { main_dis, main_opt, other_dis1, other_dis2 } => seq![
            names(main_dis@),
            names(main_opt@),
            names(other_dis1@),
            names(other_dis2@),
        ],
        AdrgRule::OtherDis { dis } => seq![names(dis@)],
        AdrgRule::ThreeMainOpts { first, second, third } => seq![
            names(first@),
            names(second@),
            names(third@),
        ],
        AdrgRule::DisAndMainOpt { dis, opts } => seq![names(dis@), names(opts@)],
        AdrgRule::MultiRegion => seq![],
        AdrgRule::Unrecognized => seq![],
    }
}

/// How many code lists a rule of tag `tag` carries.
pub open spec fn arity(tag: nat) -> nat {
    if tag == 0 || tag == 1 || tag == 3 || tag == 12 {
        1
    } else if tag == 2 || tag == 4 || tag == 14 {
        2
    } else if tag == 6 || tag == 9 || tag == 13 {
        3
    } else if tag == 10 || tag == 11 {
        4
    } else if tag == 7 {
        5
    } else if tag == 8 {
        6
    } else {
        0
    }
}

/// The keys `adrg` + suffix, for each suffix.
pub open spec fn suffixed(adrg: Seq<char>, sfx: Seq<Seq<char>>) -> Seq<Seq<char>> {
    sfx.map_values(|x: Seq<char>| adrg + x)
}

/// The rule kind that a rule-type name selects, and the keys of the code
/// lists it reads for ADRG `adrg`. An unknown name selects a rule that
/// admits nothing.
pub open spec fn kind_plan(name: Seq<char>, adrg: Seq<char>) -> (nat, Seq<Seq<char>>) {
    if name == "is_contain_main_dis"@ {
        (1, seq![adrg])
    } else if name == "is_contain_main_opt"@ {
        (0, seq![adrg])
    } else if name == "is_contain_main_dis_and_main_opt_simultaneously"@ {
        (2, suffixed(adrg, seq!["_contain_main_dis_list"@, "_contain_main_opt_list"@]))
    } else if name == "is_contain_dis"@ {
        (3, seq![adrg])
    } else if name == "is_contain_opt_simultaneously"@ {
        (4, suffixed(adrg, seq!["_normal_list"@, "_other_list"@]))
    } else if name == "is_contain_all_opt"@ {
        (5, seq![])
    } else if name == "is_contain_multi_opt3"@ {
        (9, suffixed(adrg, seq!["_main_dis_list"@, "_main_opt_list1"@, "_other_opt_list2"@]))
    } else if name == "is_contain_other_dis"@ {
        (12, seq![adrg])
    } else if name == "is_contain_multi_opt5"@ {
        (
            11,
            suffixed(
                adrg,
                seq![
                    "_main_dis_list"@,
                    "_main_opt_list"@,
                    "_other_dis_list1"@,
                    "_other_dis_list2"@,
                ],
            ),
        )
    } else if name == "is_contain_other_dis_or_other_opt1_and_other_opt2"@ {
        (6, suffixed(adrg, seq!["_other_dis_list"@, "_other_opt_list1"@, "_other_opt_list2"@]))
    } else if name == "is_contain_cb4_opt_and_cb5_opt"@ || name
        == "is_contain_cb5_opt_and_cb6_opt"@ {
        (4, seq!["CB4"@, "CB5"@])
    } else if name == "is_contain_multi_opt1"@ {
        (
            7,
            suffixed(
                adrg,
                seq![
                    "_main_dis_list"@,
                    "_main_opt_list1"@,
                    "_main_opt_list2"@,
                    "_other_opt_list3"@,
                    "_other_opt_list4"@,
                ],
            ),
        )
    } else if name == "is_contain_multi_opt2"@ {
        (
            8,
            suffixed(
                adrg,
                seq![
                    "_main_dis_list"@,
                    "_other_opt_list1"@,
                    "_other_opt_list2"@,
                    "_other_opt_list3"@,
                    "_other_opt_list4"@,
                    "_other_opt_list5"@,
                ],
            ),
        )
    } else if name == "is_contain_multi_opt4"@ {
        (
            10,
            suffixed(
                adrg,
                seq![
                    "_main_dis_list1"@,
                    "_main_dis_list2"@,
                    "_main_opt_list"@,
                    "_other_dis_list"@,
                ],
            ),
        )
    } else if name == "is_dis_and_main_opt"@ {
        (14, suffixed(adrg, seq!["_main_dis_list"@, "_main_opt_list"@]))
    } else if name == "is_contain_multi_wb_opt"@ {
        (
            13,
            suffixed(
                adrg,
                seq!["WB1_main_opt_list"@, "WB2_main_opt_list"@, "WB3_main_opt_list"@],
            ),
        )
    } else if name == "is_mdcz_dis"@ {
        (15, seq![])
    } else {
        (16, seq![])
    }
}

/// The codes that `slices` holds under key `k`, if any.
pub open spec fn slice_of(slices: Table<Vec<String>>, k: Seq<char>) -> Option<Seq<Seq<char>>> {
    match slices.lookup(k) {
        Some(v) => Some(names(v@)),
        None => None,
    }
}

/// Every key is present in `slices`, and `lists` holds their codes in order.
pub open spec fn fetched(
    slices: Table<Vec<String>>,
    keys: Seq<Seq<char>>,
    lists: Seq<Seq<Seq<char>>>,
) -> bool {
    &&& lists.len() == keys.len()
    &&& forall|i: int| 0 <= i < keys.len() ==> slice_of(slices, keys[i]) == Some(lists[i])
}

/// Some key is absent from `slices`.
pub open spec fn some_missing(slices: Table<Vec<String>>, keys: Seq<Seq<char>>) -> bool {
    exists|i: int| 0 <= i < keys.len() && slice_of(slices, keys[i]) is None
}

/// The views of a list of code lists.
pub open spec fn list_views(v: Seq<Vec<String>>) -> Seq<Seq<Seq<char>>> {
    v.map_values(|l: Vec<String>| names(l@))
}

/// The key `adrg` + `suffix`.
fn key_with(adrg: &String, suffix: &str) -> (r: String)
    ensures
        r@ == adrg@ + suffix@,
{
    let mut r = adrg.clone();
    r.append(suffix);
    r
}

/// Keys made of the ADRG code and each suffix.
fn keys_with(adrg: &String, sfx: &Vec<&str>) -> (r: Vec<String>)
    ensures
        names(r@) == suffixed(adrg@, sfx@.map_values(|s: &str| s@)),
{
    let mut r: Vec<String> = Vec::new();
    let mut i: usize = 0;
    while i < sfx.len()
        invariant
            0 <= i <= sfx@.len(),
            r@.len() == i,
            forall|k: int| 0 <= k < i ==> #[trigger] r@[k]@ == adrg@ + sfx@[k]@,
        decreases sfx@.len() - i,
    {
        r.push(key_with(adrg, sfx[i]));
        i += 1;
    }
    assert(names(r@) =~= suffixed(adrg@, sfx@.map_values(|s: &str| s@)));
    r
}

/// The rule kind that a rule-type name selects, and the keys of its lists.
pub fn plan_for(kind: &String, adrg: &String) -> (r: (usize, Vec<String>))
    ensures
        r.0 as nat == kind_plan(kind@, adrg@).0,
        names(r.1@) == kind_plan(kind@, adrg@).1,
        r.1@.len() == arity(r.0 as nat),
{
    let single = vec![adrg.clone()];
    assert(names(single@) =~= seq![adrg@]);
    if *kind == lit("is_contain_main_dis") {
        (1, single)
    } else if *kind == lit("is_contain_main_opt") {
        (0, single)
    } else if *kind == lit("is_contain_main_dis_and_main_opt_simultaneously") {
        let sfx = vec!["_contain_main_dis_list", "_contain_main_opt_list"];
        assert(sfx@.map_values(|s: &str| s@) =~= seq![
            "_contain_main_dis_list"@,
            "_contain_main_opt_list"@,
        ]);
        (2, keys_with(adrg, &sfx))
    } else if *kind == lit("is_contain_dis") {
        (3, single)
    } else if *kind == lit("is_contain_opt_simultaneously") {
        let sfx = vec!["_normal_list", "_other_list"];
        assert(sfx@.map_values(|s: &str| s@) =~= seq!["_normal_list"@, "_other_list"@]);
        (4, keys_with(adrg, &sfx))
    } else if *kind == lit("is_contain_all_opt") {
        let none: Vec<String> = Vec::new();
        assert(names(none@) =~= seq![]);
        (5, none)
    } else if *kind == lit("is_contain_multi_opt3") {
        let sfx = vec!["_main_dis_list", "_main_opt_list1", "_other_opt_list2"];
        assert(sfx@.map_values(|s: &str| s@) =~= seq![
            "_main_dis_list"@,
            "_main_opt_list1"@,
            "_other_opt_list2"@,
        ]);
        (9, keys_with(adrg, &sfx))
    } else if *kind == lit("is_contain_other_dis") {
        (12, single)
    } else if *kind == lit("is_contain_multi_opt5") {
        let sfx = vec!["_main_dis_list", "_main_opt_list", "_other_dis_list1", "_other_dis_list2"];
        assert(sfx@.map_values(|s: &str| s@) =~= seq![
            "_main_dis_list"@,
            "_main_opt_list"@,
            "_other_dis_list1"@,
            "_other_dis_list2"@,
        ]);
        (11, keys_with(adrg, &sfx))
    } else if *kind == lit("is_contain_other_dis_or_other_opt1_and_other_opt2") {
        let sfx = vec!["_other_dis_list", "_other_opt_list1", "_other_opt_list2"];
        assert(sfx@.map_values(|s: &str| s@) =~= seq![
            "_other_dis_list"@,
            "_other_opt_list1"@,
            "_other_opt_list2"@,
        ]);
        (6, keys_with(adrg, &sfx))
    } else if *kind == lit("is_contain_cb4_opt_and_cb5_opt") || *kind == lit(
        "is_contain_cb5_opt_and_cb6_opt",
    ) {
        let keys = vec![lit("CB4"), lit("CB5")];
        assert(names(keys@) =~= seq!["CB4"@, "CB5"@]);
        (4, keys)
    } else if *kind == lit("is_contain_multi_opt1") {
        let sfx = vec![
            "_main_dis_list",
            "_main_opt_list1",
            "_main_opt_list2",
            "_other_opt_list3",
            "_other_opt_list4",
        ];
        assert(sfx@.map_values(|s: &str| s@) =~= seq![
            "_main_dis_list"@,
            "_main_opt_list1"@,
            "_main_opt_list2"@,
            "_other_opt_list3"@,
            "_other_opt_list4"@,
        ]);
        (7, keys_with(adrg, &sfx))
    } else if *kind == lit("is_contain_multi_opt2") {
        let sfx = vec![
            "_main_dis_list",
            "_other_opt_list1",
            "_other_opt_list2",
            "_other_opt_list3",
            "_other_opt_list4",
            "_other_opt_list5",
        ];
        assert(sfx@.map_values(|s: &str| s@) =~= seq![
            "_main_dis_list"@,
            "_other_opt_list1"@,
            "_other_opt_list2"@,
            "_other_opt_list3"@,
            "_other_opt_list4"@,
            "_other_opt_list5"@,
        ]);
        (8, keys_with(adrg, &sfx))
    } else if *kind == lit("is_contain_multi_opt4") {
        let sfx = vec!["_main_dis_list1", "_main_dis_list2", "_main_opt_list", "_other_dis_list"];
        assert(sfx@.map_values(|s: &str| s@) =~= seq![
            "_main_dis_list1"@,
            "_main_dis_list2"@,
            "_main_opt_list"@,
            "_other_dis_list"@,
        ]);
        (10, keys_with(adrg, &sfx))
    } else if *kind == lit("is_dis_and_main_opt") {
        let sfx = vec!["_main_dis_list", "_main_opt_list"];
        assert(sfx@.map_values(|s: &str| s@) =~= seq!["_main_dis_list"@, "_main_opt_list"@]);
        (14, keys_with(adrg, &sfx))
    } else if *kind == lit("is_contain_multi_wb_opt") {
        let sfx = vec!["WB1_main_opt_list", "WB2_main_opt_list", "WB3_main_opt_list"];
        assert(sfx@.map_values(|s: &str| s@) =~= seq![
            "WB1_main_opt_list"@,
            "WB2_main_opt_list"@,
            "WB3_main_opt_list"@,
        ]);
        (13, keys_with(adrg, &sfx))
    } else if *kind == lit("is_mdcz_dis") {
        let none: Vec<String> = Vec::new();
        assert(names(none@) =~= seq![]);
        (15, none)
    } else {
        let none: Vec<String> = Vec::new();
        assert(names(none@) =~= seq![]);
        (16, none)
    }
}

/// Fetches the code list stored under each key.
pub fn fetch_lists(keys: &Vec<String>, slices: &Table<Vec<String>>) -> (r: Result<
    Vec<Vec<String>>,
    LoadError,
>)
    ensures
        match r {
            Ok(lists) => fetched(*slices, names(keys@), list_views(lists@)),
            Err(e) => e == LoadError::MissingList && some_missing(*slices, names(keys@)),
        },
{
    let mut lists: Vec<Vec<String>> = Vec::new();
    let mut i: usize = 0;
    while i < keys.len()
        invariant
            0 <= i <= keys@.len(),
            fetched(*slices, names(keys@).subrange(0, i as int), list_views(lists@)),
        decreases keys@.len() - i,
    {
        match slices.find(&keys[i]) {
            None => {
                assert(slice_of(*slices, names(keys@)[i as int]) is None);
                return Err(LoadError::MissingList);
            },
            Some(j) => {
                let l = copy_codes(&slices.entries[j].1);
                let ghost before = list_views(lists@);
                lists.push(l);
                assert(list_views(lists@) =~= before.push(names(l@)));
            },
        }
        i += 1;
    }
    assert(names(keys@).subrange(0, i as int) =~= names(keys@));
    Ok(lists)
}

/// The rule of tag `tag` carrying the fetched lists.
pub fn assemble(tag: usize, lists: &Vec<Vec<String>>) -> (r: AdrgRule)
    requires
        lists@.len() == arity(tag as nat),
    ensures
        tag <= 16 ==> rule_tag(r) == tag as nat,
        tag > 16 ==> r == AdrgRule::Unrecognized,
        rule_lists(r) == list_views(lists@),
{
    let ghost v = list_views(lists@);
    let r = if tag == 0 {
        AdrgRule::MainOpt { opts: copy_codes(&lists[0]) }
    } else if tag == 1 {
        AdrgRule::MainDis { dis: copy_codes(&lists[0]) }
    } else if tag == 2 {
        AdrgRule::MainDisAndMainOpt { dis: copy_codes(&lists[0]), opts: copy_codes(&lists[1]) }
    } else if tag == 3 {
        AdrgRule::Dis { dis: copy_codes(&lists[0]) }
    } else if tag == 4 {
        AdrgRule::TwoOpts { first: copy_codes(&lists[0]), second: copy_codes(&lists[1]) }
    } else if tag == 5 {
        AdrgRule::AnyValidOpt
    } else if tag == 6 {
        AdrgRule::OtherDisOrOpt1AndOpt2 {
            other_dis: copy_codes(&lists[0]),
            opt1: copy_codes(&lists[1]),
            opt2: copy_codes(&lists[2]),
        }
    } else if tag == 7 {
        AdrgRule::Multi1 {
            main_dis: copy_codes(&lists[0]),
            main_opt1: copy_codes(&lists[1]),
            main_opt2: copy_codes(&lists[2]),
            opt3: copy_codes(&lists[3]),
            opt4: copy_codes(&lists[4]),
        }
    } else if tag == 8 {
        AdrgRule::Multi2 {
            main_dis: copy_codes(&lists[0]),
            opt1: copy_codes(&lists[1]),
            opt2: copy_codes(&lists[2]),
            opt3: copy_codes(&lists[3]),
            opt4: copy_codes(&lists[4]),
            opt5: copy_codes(&lists[5]),
        }
    } else if tag == 9 {
        AdrgRule::Multi3 {
            main_dis: copy_codes(&lists[0]),
            main_opt1: copy_codes(&lists[1]),
            opt2: copy_codes(&lists[2]),
        }
    } else if tag == 10 {
        AdrgRule::Multi4 {
            main_dis1: copy_codes(&lists[0]),
            main_dis2: copy_codes(&lists[1]),
            main_opt: copy_codes(&lists[2]),
            other_dis: copy_codes(&lists[3]),
        }
    } else if tag == 11 {
        AdrgRule::Multi5 {
            main_dis: copy_codes(&lists[0]),
            main_opt: copy_codes(&lists[1]),
            other_dis1: copy_codes(&lists[2]),
            other_dis2: copy_codes(&lists[3]),
        }
    } else if tag == 12 {
        AdrgRule::OtherDis { dis: copy_codes(&lists[0]) }
    } else if tag == 13 {
        AdrgRule::ThreeMainOpts {
            first: copy_codes(&lists[0]),
            second: copy_codes(&lists[1]),
            third: copy_codes(&lists[2]),
        }
    } else if tag == 14 {
        AdrgRule::DisAndMainOpt { dis: copy_codes(&lists[0]), opts: copy_codes(&lists[1]) }
    } else if tag == 15 {
        AdrgRule::MultiRegion
    } else {
        AdrgRule::Unrecognized
    };
    assert(rule_lists(r) =~= v);
    r
}

/// Builds the entry rule of ADRG `adrg` from its rule-type name and the
/// named code lists; an error where a list that the rule reads is absent.
pub fn build_rule(adrg: &String, kind: &String, slices: &Table<Vec<String>>) -> (r: Result<
    AdrgRule,
    LoadError,
>)
    ensures
        match r {
            Ok(rule) => {
                &&& rule_tag(rule) == kind_plan(kind@, adrg@).0
                &&& fetched(*slices, kind_plan(kind@, adrg@).1, rule_lists(rule))
            },
            Err(e) => e == LoadError::MissingList && some_missing(
                *slices,
                kind_plan(kind@, adrg@).1,
            ),
        },
{
    let (tag, keys) = plan_for(kind, adrg);
    match fetch_lists(&keys, slices) {
        Err(e) => Err(e),
        Ok(lists) => Ok(assemble(tag, &lists)),
    }
}

/// Builds the rule table: for each ADRG of `types`, in order, the rule
/// that its rule-type name selects.
pub fn load_rules(types: &Table<String>, slices: &Table<Vec<String>>) -> (r: Result<
    Table<AdrgRule>,
    LoadError,
>)
    ensures
        match r {
            Ok(t) => {
                &&& t.entries@.len() == types.entries@.len()
                &&& forall|i: int|
                    0 <= i < types.entries@.len() ==> {
                        let p = kind_plan(#[trigger] types.entries@[i].1@, types.key(i));
                        &&& t.key(i) == types.key(i)
                        &&& rule_tag(t.entries@[i].1) == p.0
                        &&& fetched(*slices, p.1, rule_lists(t.entries@[i].1))
                    }
            },
            Err(e) => e == LoadError::MissingList && exists|i: int|
                0 <= i < types.entries@.len() && some_missing(
                    *slices,
                    kind_plan(#[trigger] types.entries@[i].1@, types.key(i)).1,
                ),
        },
{
    let mut out: Vec<(String, AdrgRule)> = Vec::new();
    let mut i: usize = 0;
    while i < types.entries.len()
        invariant
            0 <= i <= types.entries@.len(),
            out@.len() == i,
            forall|k: int|
                0 <= k < i ==> {
                    let p = kind_plan(types.entries@[k].1@, types.key(k));
                    &&& (#[trigger] out@[k]).0@ == types.key(k)
                    &&& rule_tag(out@[k].1) == p.0
                    &&& fetched(*slices, p.1, rule_lists(out@[k].1))
                },
        decreases types.entries@.len() - i,
    {
        let adrg = &types.entries[i].0;
        let kind = &types.entries[i].1;
        match build_rule(adrg, kind, slices) {
            Err(e) => {
                assert(some_missing(
                    *slices,
                    kind_plan(types.entries@[i as int].1@, types.key(i as int)).1,
                ));
                return Err(e);
            },
            Ok(rule) => {
                let ghost prev = out@;
                out.push((adrg.clone(), rule));
                assert(forall|k: int| 0 <= k < i ==> out@[k] == prev[k]);
            },
        }
        i += 1;
    }
    Ok(Table { entries: out })
}

/// The names of the nine body-region diagnosis lists, in the order they
/// are counted.
pub open spec fn region_names() -> Seq<Seq<char>> {
    seq![
        "belly_dis_sheet"@,
        "body_spine_dis_sheet"@,
        "chest_dis_sheet"@,
        "down_limb_dis_sheet"@,
        "genital_dis_sheet"@,
        "head_neck_dis_sheet"@,
        "pelvis_dis_sheet"@,
        "up_limb_dis_sheet"@,
        "urinary_dis_sheet"@,
    ]
}

/// Picks the nine body-region diagnosis lists out of the multi-region
/// document.
pub fn load_regions(sheets: &Table<Vec<String>>) -> (r: Result<Vec<Vec<String>>, LoadError>)
    ensures
        match r {
            Ok(lists) => fetched(*sheets, region_names(), list_views(lists@)),
            Err(e) => e == LoadError::MissingList && some_missing(*sheets, region_names()),
        },
{
    let keys = vec![
        lit("belly_dis_sheet"),
        lit("body_spine_dis_sheet"),
        lit("chest_dis_sheet"),
        lit("down_limb_dis_sheet"),
        lit("genital_dis_sheet"),
        lit("head_neck_dis_sheet"),
        lit("pelvis_dis_sheet"),
        lit("up_limb_dis_sheet"),
        lit("urinary_dis_sheet"),
    ];
    assert(names(keys@) =~= region_names());
    fetch_lists(&keys, sheets)
}

/// The severity that a label names: `MCC` is major, `CC` minor.
pub open spec fn severity_of(label: Seq<char>) -> Option<Severity> {
    if label == "MCC"@ {
        Some(Severity::Major)
    } else if label == "CC"@ {
        Some(Severity::Minor)
    } else {
        None
    }
}

impl Severity {
    /// Reads a severity label: `MCC` is major, `CC` minor, anything else
    /// names no severity.
    pub fn from_label(label: &String) -> (r: Option<Severity>)
        ensures
            r == severity_of(label@),
    {
        if *label == lit("MCC") {
            Some(Severity::Major)
        } else if *label == lit("CC") {
            Some(Severity::Minor)
        } else {
            None
        }
    }
}

/// The severity entry that a row `[group, label]` of the severity document
/// describes; a shorter row names no group and no severity.
pub open spec fn entry_matches(e: SevEntry, row: Seq<String>) -> bool {
    if row.len() >= 2 {
        e.group@ == row[0]@ && e.level == severity_of(row[1]@)
    } else {
        e.group@ == Seq::<char>::empty() && e.level is None
    }
}

impl SevEntry {
    /// Reads a row `[group, label]` of the severity document.
    pub fn from_row(row: &Vec<String>) -> (r: SevEntry)
        ensures
            entry_matches(r, row@),
    {
        if row.len() >= 2 {
            SevEntry { group: row[0].clone(), level: Severity::from_label(&row[1]) }
        } else {
            SevEntry { group: String::new(), level: None }
        }
    }
}

/// Builds the severity table from the rows of the severity document, entry
/// for entry.
pub fn load_severity(rows: &Table<Vec<String>>) -> (r: Table<SevEntry>)
    ensures
        r.entries@.len() == rows.entries@.len(),
        forall|i: int|
            0 <= i < rows.entries@.len() ==> r.key(i) == rows.key(i) && entry_matches(
                #[trigger] r.entries@[i].1,
                rows.entries@[i].1@,
            ),
{
    let mut out: Vec<(String, SevEntry)> = Vec::new();
    let mut i: usize = 0;
    while i < rows.entries.len()
        invariant
            0 <= i <= rows.entries@.len(),
            out@.len() == i,
            forall|k: int|
                0 <= k < i ==> (#[trigger] out@[k]).0@ == rows.key(k) && entry_matches(
                    out@[k].1,
                    rows.entries@[k].1@,
                ),
        decreases rows.entries@.len() - i,
    {
        let ghost prev = out@;
        out.push((rows.entries[i].0.clone(), SevEntry::from_row(&rows.entries[i].1)));
        assert(forall|k: int| 0 <= k < i ==> out@[k] == prev[k]);
        i += 1;
    }
    Table { entries: out }
}

} // verus!
