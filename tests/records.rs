use std::collections::BTreeSet;

use drg_grouper::case::{DrgCase, Sex};
use drg_grouper::codes::{any_shared, has_code, Table};
use drg_grouper::fields::{deserialize_i32, deserialize_sep_str, split_codes};
use drg_grouper::load::{build_rule, load_regions, load_rules, load_severity, LoadError};
use drg_grouper::rules::{
    is_contain_dis, is_contain_main_dis_and_main_opt_simultaneously, is_contain_main_opt,
    is_contain_multi_opt1, is_contain_multi_opt2, is_contain_multi_opt3, is_contain_multi_opt4,
    is_contain_multi_opt5, is_contain_multi_wb_opt, is_contain_opt_simultaneously,
    is_contain_other_dis, is_contain_other_dis_or_other_opt1_and_other_opt2,
};
use drg_grouper::tables::{AdrgRule, SevEntry, Severity};

fn s(x: &str) -> String {
    x.to_string()
}

fn v(xs: &[&str]) -> Vec<String> {
    xs.iter().map(|x| x.to_string()).collect()
}

fn case(main_dis: &str, main_opt: &str, other_dis: &[&str], other_opt: &[&str]) -> DrgCase {
    DrgCase::new(s("1"), s(main_dis), s(main_opt), v(other_dis), v(other_opt), Sex::Female, 30_000_000, 55)
}

fn set(xs: &[String]) -> BTreeSet<String> {
    xs.iter().cloned().collect()
}

#[test]
fn case_sets_ignore_order() {
    let a = case("J18.900", "32.2901", &["I50.000", "E11.900", "I10.000"], &["99.0400", "41.0100"]);
    let b = case("J18.900", "32.2901", &["I10.000", "I50.000", "E11.900"], &["41.0100", "99.0400"]);
    assert_eq!(set(&a.all_dis), set(&b.all_dis));
    assert_eq!(set(&a.all_opt), set(&b.all_opt));
    assert_eq!(set(&a.all_dis), set(&v(&["J18.900", "I50.000", "E11.900", "I10.000"])));
    assert_eq!(set(&a.all_opt), set(&v(&["32.2901", "99.0400", "41.0100"])));
}

#[test]
fn case_construction_keeps_fields() {
    let c = case("J18.900", "", &["I50.000"], &[]);
    assert_eq!(c.id, "1");
    assert_eq!(c.main_dis, "J18.900");
    assert!(c.no_surgery());
    assert!(!c.no_main_diagnosis());
    assert!(c.no_other_surgery());
    assert!(!c.no_other_diagnosis());
    assert_eq!(c.sex, Sex::Female);
    assert_eq!(c.age_millionths, 30_000_000);
    assert_eq!(c.weight, 55);
    assert!(c.is_vaild_surgrey(&v(&[""])));
    assert!(!c.is_vaild_surgrey(&v(&["32.2901"])));
}

#[test]
fn concat_dis_adds_principal_and_others() {
    let mut c = case("J18.900", "", &["I50.000", "E11.900"], &[]);
    c.all_dis = vec![s("Z00.000")];
    c.concat_dis();
    assert_eq!(set(&c.all_dis), set(&v(&["Z00.000", "J18.900", "I50.000", "E11.900"])));
    assert_eq!(c.other_dis, v(&["I50.000", "E11.900"]));
}

#[test]
fn sex_codes() {
    assert_eq!(Sex::from_code(0), Some(Sex::Female));
    assert_eq!(Sex::from_code(1), Some(Sex::Male));
    assert_eq!(Sex::from_code(2), None);
    assert_eq!(Sex::Male.code(), 1);
    assert_eq!(Sex::Female.code(), 0);
}

#[test]
fn code_lists() {
    assert!(has_code(&v(&["A", "B"]), &s("B")));
    assert!(!has_code(&v(&["A", "B"]), &s("C")));
    assert!(!has_code(&vec![], &s("A")));
    assert!(any_shared(&v(&["A", "B"]), &v(&["C", "B"])));
    assert!(!any_shared(&v(&["A", "B"]), &v(&["C", "D"])));
    let t = Table { entries: vec![(s("k"), 1), (s("j"), 2), (s("k"), 3)] };
    assert_eq!(t.find(&s("k")), Some(0));
    assert_eq!(t.find(&s("j")), Some(1));
    assert_eq!(t.find(&s("x")), None);
}

#[test]
fn separated_field() {
    assert_eq!(deserialize_sep_str("I50.000| E11.900 ||I10.000 "), v(&["I50.000", "E11.900", "I10.000"]));
    assert_eq!(deserialize_sep_str(""), Vec::<String>::new());
    assert_eq!(deserialize_sep_str("  |  "), Vec::<String>::new());
    assert_eq!(deserialize_sep_str("A"), v(&["A"]));
    assert_eq!(deserialize_sep_str("A\t|\u{3000}B"), v(&["A", "B"]));
}

#[test]
fn integer_field() {
    assert_eq!(deserialize_i32("2,288"), Some(2288));
    assert_eq!(deserialize_i32("  12 "), Some(12));
    assert_eq!(deserialize_i32("-7"), Some(-7));
    assert_eq!(deserialize_i32("+7"), Some(7));
    assert_eq!(deserialize_i32("0"), Some(0));
    assert_eq!(deserialize_i32("2147483647"), Some(i32::MAX));
    assert_eq!(deserialize_i32("-2,147,483,648"), Some(i32::MIN));
    assert_eq!(deserialize_i32("2147483648"), None);
    assert_eq!(deserialize_i32("-2147483649"), None);
    assert_eq!(deserialize_i32("99999999999999999999"), None);
    assert_eq!(deserialize_i32(""), None);
    assert_eq!(deserialize_i32("-"), None);
    assert_eq!(deserialize_i32("1 2"), None);
    assert_eq!(deserialize_i32("abc"), None);
    assert_eq!(deserialize_i32("1.5"), None);
}

fn slices() -> Table<Vec<String>> {
    Table {
        entries: vec![
            (s("EB1"), v(&["32.2901"])),
            (s("EB1_normal_list"), v(&["n1"])),
            (s("EB1_other_list"), v(&["o1"])),
            (s("CB4"), v(&["c4"])),
            (s("CB5"), v(&["c5"])),
            (s("WB3WB1_main_opt_list"), v(&["w1"])),
            (s("WB3WB2_main_opt_list"), v(&["w2"])),
            (s("WB3WB3_main_opt_list"), v(&["w3"])),
            (s("IB1_main_dis_list"), v(&["d"])),
            (s("IB1_main_opt_list1"), v(&["m1"])),
            (s("IB1_other_opt_list2"), v(&["o2"])),
        ],
    }
}

#[test]
fn rule_building() {
    let t = slices();
    match build_rule(&s("EB1"), &s("is_contain_main_opt"), &t) {
        Ok(AdrgRule::MainOpt { opts }) => assert_eq!(opts, v(&["32.2901"])),
        _ => panic!("expected a main-procedure rule"),
    }
    match build_rule(&s("EB1"), &s("is_contain_opt_simultaneously"), &t) {
        Ok(AdrgRule::TwoOpts { first, second }) => {
            assert_eq!(first, v(&["n1"]));
            assert_eq!(second, v(&["o1"]));
        }
        _ => panic!("expected a two-procedure rule"),
    }
    for name in ["is_contain_cb4_opt_and_cb5_opt", "is_contain_cb5_opt_and_cb6_opt"] {
        match build_rule(&s("CB3"), &s(name), &t) {
            Ok(AdrgRule::TwoOpts { first, second }) => {
                assert_eq!(first, v(&["c4"]));
                assert_eq!(second, v(&["c5"]));
            }
            _ => panic!("expected a two-procedure rule"),
        }
    }
    match build_rule(&s("WB3"), &s("is_contain_multi_wb_opt"), &t) {
        Ok(AdrgRule::ThreeMainOpts { first, second, third }) => {
            assert_eq!(first, v(&["w1"]));
            assert_eq!(second, v(&["w2"]));
            assert_eq!(third, v(&["w3"]));
        }
        _ => panic!("expected a three-list rule"),
    }
    match build_rule(&s("IB1"), &s("is_contain_multi_opt3"), &t) {
        Ok(AdrgRule::Multi3 { main_dis, main_opt1, opt2 }) => {
            assert_eq!(main_dis, v(&["d"]));
            assert_eq!(main_opt1, v(&["m1"]));
            assert_eq!(opt2, v(&["o2"]));
        }
        _ => panic!("expected multi-condition rule 3"),
    }
    assert!(matches!(build_rule(&s("XX1"), &s("is_contain_all_opt"), &t), Ok(AdrgRule::AnyValidOpt)));
    assert!(matches!(build_rule(&s("ZZ1"), &s("is_mdcz_dis"), &t), Ok(AdrgRule::MultiRegion)));
    assert!(matches!(build_rule(&s("XX1"), &s("no_such_rule"), &t), Ok(AdrgRule::Unrecognized)));
    assert!(matches!(
        build_rule(&s("XX1"), &s("is_contain_main_dis"), &t),
        Err(LoadError::MissingList)
    ));
    assert!(matches!(
        build_rule(&s("IB1"), &s("is_contain_multi_opt1"), &t),
        Err(LoadError::MissingList)
    ));
}

#[test]
fn rule_table_loading() {
    let t = slices();
    let types = Table { entries: vec![(s("EB1"), s("is_contain_main_opt")), (s("ZZ1"), s("is_mdcz_dis"))] };
    let rules = load_rules(&types, &t).unwrap();
    assert_eq!(rules.entries.len(), 2);
    assert_eq!(rules.entries[0].0, "EB1");
    assert!(matches!(rules.entries[1].1, AdrgRule::MultiRegion));
    let bad = Table { entries: vec![(s("QQ1"), s("is_contain_dis"))] };
    assert!(matches!(load_rules(&bad, &t), Err(LoadError::MissingList)));
}

#[test]
fn region_and_severity_loading() {
    let names = [
        "belly_dis_sheet",
        "body_spine_dis_sheet",
        "chest_dis_sheet",
        "down_limb_dis_sheet",
        "genital_dis_sheet",
        "head_neck_dis_sheet",
        "pelvis_dis_sheet",
        "up_limb_dis_sheet",
        "urinary_dis_sheet",
    ];
    let sheets = Table { entries: names.iter().rev().map(|n| (s(n), v(&[n]))).collect() };
    let regions = load_regions(&sheets).unwrap();
    assert_eq!(regions.len(), 9);
    assert_eq!(regions[0], v(&["belly_dis_sheet"]));
    assert_eq!(regions[8], v(&["urinary_dis_sheet"]));
    let partial = Table { entries: vec![(s("belly_dis_sheet"), v(&["x"]))] };
    assert!(matches!(load_regions(&partial), Err(LoadError::MissingList)));

    let rows = Table {
        entries: vec![
            (s("I50.000"), v(&["T1", "MCC"])),
            (s("E11.900"), v(&["T2", "CC"])),
            (s("Z99.000"), v(&["T3", "other"])),
            (s("Z98.000"), v(&["T4"])),
        ],
    };
    let sev: Table<SevEntry> = load_severity(&rows);
    assert_eq!(sev.entries.len(), 4);
    assert_eq!(sev.entries[0].1.level, Some(Severity::Major));
    assert_eq!(sev.entries[0].1.group, "T1");
    assert_eq!(sev.entries[1].1.level, Some(Severity::Minor));
    assert_eq!(sev.entries[2].1.level, None);
    assert_eq!(sev.entries[3].1.level, None);
    assert_eq!(sev.entries[3].1.group, "");
    assert_eq!(Severity::from_label(&s("MCC")), Some(Severity::Major));
    assert_eq!(Severity::from_label(&s("CC")), Some(Severity::Minor));
    assert_eq!(Severity::from_label(&s("cc")), None);
}

#[test]
fn procedure_rules_need_a_principal_procedure() {
    let with = case("D1", "op1", &["D2"], &["op2"]);
    let without = case("D1", "", &["D2"], &["op1", "op2"]);
    assert!(is_contain_main_opt(&with, &v(&["op1"])));
    assert!(!is_contain_main_opt(&without, &v(&["op1", ""])));
    assert!(is_contain_opt_simultaneously(&with, &v(&["op1"]), &v(&["op2"])));
    assert!(!is_contain_opt_simultaneously(&without, &v(&["op1"]), &v(&["op2"])));
    assert!(!is_contain_opt_simultaneously(&with, &v(&["op1"]), &v(&["op3"])));
    assert!(is_contain_main_dis_and_main_opt_simultaneously(&with, &v(&["D1"]), &v(&["op1"])));
    assert!(!is_contain_main_dis_and_main_opt_simultaneously(&with, &v(&["D2"]), &v(&["op1"])));
    assert!(is_contain_multi_wb_opt(&with, &v(&[]), &v(&[]), &v(&["op1"])));
    assert!(!is_contain_multi_wb_opt(&without, &v(&["op1"]), &v(&["op1"]), &v(&["op1"])));
}

#[test]
fn diagnosis_rules() {
    let c = case("D1", "", &["D2", "D3"], &[]);
    assert!(is_contain_other_dis(&c, &v(&["D3"])));
    assert!(!is_contain_other_dis(&c, &v(&["D1"])));
    assert!(is_contain_dis(&c, &v(&["D1", "D2"])));
    assert!(!is_contain_dis(&c, &v(&["D1"])));
}

#[test]
fn multi_condition_rules() {
    let c = case("D1", "op1", &["D2"], &["op2", "op3"]);
    let e: Vec<String> = vec![];
    // rule 1: each of its three alternatives
    assert!(is_contain_multi_opt1(&c, &v(&["D1"]), &v(&["op1"]), &e, &e, &e));
    assert!(is_contain_multi_opt1(&c, &e, &e, &v(&["op1"]), &e, &e));
    assert!(is_contain_multi_opt1(&c, &e, &e, &e, &v(&["op2"]), &v(&["op3"])));
    assert!(!is_contain_multi_opt1(&c, &v(&["D1"]), &e, &e, &v(&["op2"]), &e));
    // rule 2
    assert!(is_contain_multi_opt2(&c, &v(&["D1"]), &v(&["op1"]), &v(&["op2"]), &e, &e, &e));
    assert!(is_contain_multi_opt2(&c, &v(&["D1"]), &v(&["op1"]), &e, &v(&["op2"]), &v(&["op3"]), &e));
    assert!(is_contain_multi_opt2(&c, &v(&["D1"]), &e, &e, &e, &v(&["op2"]), &v(&["op3"])));
    assert!(!is_contain_multi_opt2(&c, &v(&["D9"]), &v(&["op1"]), &v(&["op2"]), &e, &e, &e));
    // rule 3
    assert!(is_contain_multi_opt3(&c, &v(&["D1"]), &v(&["op1"]), &e));
    assert!(is_contain_multi_opt3(&c, &v(&["D1"]), &e, &v(&["op3"])));
    assert!(!is_contain_multi_opt3(&c, &v(&["D1"]), &e, &v(&["op9"])));
    // rule 4
    assert!(is_contain_multi_opt4(&c, &v(&["D1"]), &e, &v(&["op1"]), &e));
    assert!(is_contain_multi_opt4(&c, &e, &v(&["D1"]), &v(&["op1"]), &v(&["D2"])));
    assert!(!is_contain_multi_opt4(&c, &e, &v(&["D1"]), &v(&["op1"]), &v(&["D9"])));
    // rule 5
    assert!(is_contain_multi_opt5(&c, &v(&["D1"]), &v(&["op1"]), &v(&["D2"]), &e));
    assert!(is_contain_multi_opt5(&c, &e, &v(&["op1"]), &e, &v(&["D2"])));
    assert!(!is_contain_multi_opt5(&c, &v(&["D1"]), &v(&["op9"]), &v(&["D2"]), &v(&["D2"])));
    // other diagnosis, or first procedure list, and second procedure list
    assert!(is_contain_other_dis_or_other_opt1_and_other_opt2(&c, &v(&["D2"]), &e, &v(&["op3"])));
    assert!(is_contain_other_dis_or_other_opt1_and_other_opt2(&c, &e, &v(&["op2"]), &v(&["op3"])));
    assert!(!is_contain_other_dis_or_other_opt1_and_other_opt2(&c, &v(&["D2"]), &e, &v(&["op9"])));
}

#[test]
fn plain_split() {
    assert_eq!(split_codes("A00.000,B01.100, C02", ','), v(&["A00.000", "B01.100", " C02"]));
    assert_eq!(split_codes("", ','), v(&[""]));
    assert_eq!(split_codes("a||b|", '|'), v(&["a", "", "b", ""]));
    assert_eq!(split_codes("abc", '|'), v(&["abc"]));
}
