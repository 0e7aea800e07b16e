use drg_grouper::adrg::{qy_judge, which_adrg, DrgFunc};
use drg_grouper::case::{DrgCase, Sex};
use drg_grouper::codes::Table;
use drg_grouper::drg::{case_severity, process_drg};
use drg_grouper::grouper::{batch_drg_process, group_case, single_drg_process, DrgCaseGrouped};
use drg_grouper::mdc::{is_mdcp, process_mdc};
use drg_grouper::rules::is_mdcz_dis;
use drg_grouper::tables::{AdrgRule, GroupError, RuleTables, SevEntry, Severity};

fn s(x: &str) -> String {
    x.to_string()
}

fn v(xs: &[&str]) -> Vec<String> {
    xs.iter().map(|x| x.to_string()).collect()
}

fn years(y: u64) -> u64 {
    y * 1_000_000
}

fn case(main_dis: &str, main_opt: &str, other_dis: &[&str], other_opt: &[&str]) -> DrgCase {
    DrgCase::new(s("0001"), s(main_dis), s(main_opt), v(other_dis), v(other_opt), Sex::Male, years(40), 70)
}

fn case_with(main_dis: &str, main_opt: &str, other_dis: &[&str], sex: Sex, age: u64) -> DrgCase {
    DrgCase::new(s("0002"), s(main_dis), s(main_opt), v(other_dis), vec![], sex, age, 60)
}

fn trauma_rules() -> Vec<(String, AdrgRule)> {
    ["AA1", "AA2", "AB1", "AC1", "AD1", "AE1", "AF1", "AG1", "AG2", "AG3", "AH1", "AH2"]
        .iter()
        .map(|a| {
            let rule = if *a == "AC1" {
                AdrgRule::MainOpt { opts: v(&["41.0100"]) }
            } else {
                AdrgRule::MainOpt { opts: vec![] }
            };
            (s(a), rule)
        })
        .collect()
}

fn regions() -> Vec<Vec<String>> {
    vec![
        v(&["S36.000"]),
        v(&["S32.000"]),
        v(&["S21.100"]),
        v(&["S82.000"]),
        v(&["S31.200"]),
        v(&["S06.000"]),
        v(&["S32.500"]),
        v(&["S42.000"]),
        v(&["S37.000"]),
    ]
}

fn tables() -> RuleTables {
    let mut rules = trauma_rules();
    rules.push((s("ER1"), AdrgRule::MainDis { dis: v(&["J18.900"]) }));
    rules.push((s("EB1"), AdrgRule::MainOpt { opts: v(&["32.2901"]) }));
    rules.push((s("PR1"), AdrgRule::MainDis { dis: v(&["P07.300"]) }));
    rules.push((s("YR1"), AdrgRule::MainDis { dis: v(&["B20.000", "N70.900", "N45.900"]) }));
    rules.push((s("ZZ1"), AdrgRule::MultiRegion));
    rules.push((s("GR1"), AdrgRule::OtherDis { dis: v(&["K92.200"]) }));
    rules.push((s("GB1"), AdrgRule::MainDis { dis: v(&["K25.000"]) }));
    RuleTables {
        rules: Table { entries: rules },
        categories: Table {
            entries: vec![
                (s("J18.900"), v(&["MDCE"])),
                (s("P07.300"), v(&["MDCP"])),
                (s("N70.900"), v(&["MDCN"])),
                (s("N45.900"), v(&["MDCM"])),
                (s("K25.000"), v(&["MDCG"])),
                (s("K30.000"), v(&["MDCH"])),
            ],
        },
        catch_all: v(&["B20.000"]),
        regions: regions(),
        candidates: Table {
            entries: vec![
                (s("MDCE"), v(&["EB1", "ER1"])),
                (s("MDCP"), v(&["PR1"])),
                (s("MDCY"), v(&["YR1"])),
                (s("MDCZ"), v(&["ZZ1"])),
                (s("MDCG"), v(&["GB1", "GX9"])),
            ],
        },
        drg_codes: Table {
            entries: vec![
                (s("AC1"), v(&["AC19"])),
                (s("GB1"), v(&["GB19"])),
                (s("ER1"), v(&["ER11", "ER13", "ER15"])),
                (s("EB1"), v(&["EB11", "EB15"])),
                (s("PR1"), v(&["PR13", "PR15"])),
                (s("YR1"), v(&["YR19"])),
                (s("ZZ1"), v(&["ZZ19"])),
                (s("X1"), v(&["X11", "X13", "X15"])),
                (s("W1"), v(&["W19"])),
                (s("V1"), v(&["V13", "V15"])),
                (s("U1"), v(&["U11", "U15"])),
                (s("T1"), v(&["T11", "T13", "T15", "T17"])),
                (s("S1"), vec![]),
                (s("R1"), v(&["R11", "R13"])),
            ],
        },
        severity: Table {
            entries: vec![
                (s("I50.000"), SevEntry { group: s("T1"), level: Some(Severity::Major) }),
                (s("E11.900"), SevEntry { group: s("T2"), level: Some(Severity::Minor) }),
                (s("I10.000"), SevEntry { group: s("T3"), level: Some(Severity::Major) }),
                (s("Z99.000"), SevEntry { group: s("T4"), level: None }),
            ],
        },
        exclusions: Table { entries: vec![(s("I11.000"), s("T3"))] },
        valid_opts: v(&["41.0100", "32.2901", "99.0400"]),
    }
}

fn row(d: &DrgCaseGrouped) -> (String, String) {
    (d.id.clone(), d.code.clone())
}

#[test]
fn test_write_csv() {
    let t = tables();
    let cases_vec = vec![
        case("J18.900", "", &["I50.000"], &[]),
        case("K25.000", "", &[], &[]),
        case("", "", &[], &[]),
    ];
    let rows = batch_drg_process(&cases_vec, &t).unwrap();
    assert_eq!(rows.len(), 3);
    assert_eq!(true, true);
}

#[test]
fn no_principal_diagnosis_is_unclassified() {
    let t = tables();
    let c = case("", "41.0100", &["B20.000", "S36.000", "S32.000"], &["32.2901"]);
    assert_eq!(group_case(&c, &t), Ok((s("KBBZ"), s("KBBZ"))));
    let young = case_with("", "", &[], Sex::Female, 1);
    assert_eq!(group_case(&young, &t), Ok((s("KBBZ"), s("KBBZ"))));
}

#[test]
fn neonate_boundary() {
    // 29 / 365 of a year, in millionths
    let at_limit = case_with("P07.300", "", &[], Sex::Male, 79_452);
    assert!(is_mdcp(&at_limit));
    // 0.08 of a year
    let above = case_with("P07.300", "", &[], Sex::Male, 80_000);
    assert!(!is_mdcp(&above));
    let t = tables();
    assert_eq!(process_mdc(&at_limit, &t), Ok(s("MDCP")));
    assert_eq!(group_case(&at_limit, &t), Ok((s("PR1"), s("PR15"))));
    assert_eq!(process_mdc(&above, &t), Ok(s("KBBZ")));
}

#[test]
fn multi_region_threshold() {
    let t = tables();
    let one = case("J18.900", "", &["S36.000"], &[]);
    assert!(!is_mdcz_dis(&one, &t.regions));
    assert_eq!(process_mdc(&one, &t), Ok(s("MDCE")));
    let two = case("J18.900", "", &["S36.000", "S06.000"], &[]);
    assert!(is_mdcz_dis(&two, &t.regions));
    assert_eq!(process_mdc(&two, &t), Ok(s("MDCZ")));
    assert_eq!(group_case(&two, &t), Ok((s("ZZ1"), s("ZZ19"))));
    let same_region_twice = case("J18.900", "", &["S36.000", "S36.000"], &[]);
    assert!(!is_mdcz_dis(&same_region_twice, &t.regions));
}

#[test]
fn qy_rewrite_of_internal_group() {
    let t = tables();
    // a valid procedure that no surgical group of the category admits
    let c = case("J18.900", "99.0400", &[], &[]);
    assert_eq!(which_adrg(&c, &t), Ok(s("EQY")));
    assert_eq!(group_case(&c, &t), Ok((s("EQY"), s("EQY"))));
    let no_surgery = case("J18.900", "", &[], &[]);
    assert_eq!(which_adrg(&no_surgery, &t), Ok(s("ER1")));
    assert_eq!(qy_judge(&no_surgery, s("ER1"), &t.valid_opts), s("ER1"));
    let invalid = case("J18.900", "00.0000", &[], &[]);
    assert_eq!(which_adrg(&invalid, &t), Ok(s("ER1")));
    let surgical = case("J18.900", "32.2901", &[], &[]);
    assert_eq!(which_adrg(&surgical, &t), Ok(s("EB1")));
    assert_eq!(qy_judge(&c, s("KBBZ"), &t.valid_opts), s("KBBZ"));
}

#[test]
fn drg_tie_break_three_codes() {
    let t = tables();
    let a = case("J18.900", "", &["I50.000"], &[]);
    assert_eq!(process_drg(&a, s("X1"), &t), Ok(s("X11")));
    let b = case("J18.900", "", &["E11.900"], &[]);
    assert_eq!(process_drg(&b, s("X1"), &t), Ok(s("X13")));
    let c = case("J18.900", "", &["A00.000"], &[]);
    assert_eq!(process_drg(&c, s("X1"), &t), Ok(s("X15")));
    let d = case("J18.900", "", &["I50.000", "E11.900"], &[]);
    assert_eq!(process_drg(&d, s("W1"), &t), Ok(s("W19")));
    assert_eq!(process_drg(&c, s("W1"), &t), Ok(s("W19")));
}

#[test]
fn drg_exclusion_suppresses_group() {
    let t = tables();
    let suppressed = case("I11.000", "", &["I10.000"], &[]);
    assert_eq!(case_severity(&suppressed, &t), None);
    assert_eq!(process_drg(&suppressed, s("X1"), &t), Ok(s("X15")));
    let partly = case("I11.000", "", &["I10.000", "E11.900"], &[]);
    assert_eq!(case_severity(&partly, &t), Some(Severity::Minor));
    assert_eq!(process_drg(&partly, s("X1"), &t), Ok(s("X13")));
    let other_principal = case("J18.900", "", &["I10.000"], &[]);
    assert_eq!(case_severity(&other_principal, &t), Some(Severity::Major));
    let unlabelled = case("J18.900", "", &["Z99.000"], &[]);
    assert_eq!(case_severity(&unlabelled, &t), None);
}

#[test]
fn drg_two_code_splits() {
    let t = tables();
    let major = case("J18.900", "", &["I50.000"], &[]);
    let minor = case("J18.900", "", &["E11.900"], &[]);
    let none = case("J18.900", "", &[], &[]);
    assert_eq!(process_drg(&major, s("U1"), &t), Ok(s("U11")));
    assert_eq!(process_drg(&minor, s("U1"), &t), Ok(s("U15")));
    assert_eq!(process_drg(&none, s("U1"), &t), Ok(s("U15")));
    assert_eq!(process_drg(&major, s("V1"), &t), Ok(s("V13")));
    assert_eq!(process_drg(&minor, s("V1"), &t), Ok(s("V13")));
    assert_eq!(process_drg(&none, s("V1"), &t), Ok(s("V15")));
}

#[test]
fn drg_kept_for_unclassified_and_qy() {
    let t = tables();
    let c = case("J18.900", "", &["I50.000"], &[]);
    assert_eq!(process_drg(&c, s("KBBZ"), &t), Ok(s("KBBZ")));
    assert_eq!(process_drg(&c, s("EQY"), &t), Ok(s("EQY")));
}

#[test]
fn drg_table_faults() {
    let t = tables();
    let c = case("J18.900", "", &[], &[]);
    assert_eq!(process_drg(&c, s("Q1"), &t), Err(GroupError::DrgCodesMissing));
    assert_eq!(process_drg(&c, s("T1"), &t), Err(GroupError::DrgCodesMalformed));
    assert_eq!(process_drg(&c, s("S1"), &t), Err(GroupError::DrgCodesMalformed));
    assert_eq!(process_drg(&c, s("R1"), &t), Err(GroupError::TierMissing));
}

#[test]
fn adrg_table_faults() {
    let t = tables();
    // GB1 does not admit the case, and GX9 has no rule
    let c = case("K25.100", "", &[], &[]);
    let mut t2 = tables();
    t2.categories.entries.push((s("K25.100"), v(&["MDCG"])));
    assert_eq!(which_adrg(&c, &t2), Err(GroupError::UnknownAdrg));
    let h = case("K30.000", "", &[], &[]);
    assert_eq!(which_adrg(&h, &t), Err(GroupError::UnknownCategory));
    assert_eq!(single_drg_process(&h, &t), Err(GroupError::UnknownCategory));
}

#[test]
fn trauma_category_claims_first() {
    let t = tables();
    let c = case("J18.900", "41.0100", &["B20.000"], &[]);
    assert_eq!(process_mdc(&c, &t), Ok(s("MDCA")));
    assert_eq!(group_case(&c, &t), Ok((s("AC1"), s("AC19"))));
    let without = case("J18.900", "", &["B20.000"], &["41.0100"]);
    assert_eq!(process_mdc(&without, &t), Ok(s("MDCY")));
}

#[test]
fn catch_all_and_sex_restricted() {
    let t = tables();
    let y = case("B20.000", "", &[], &[]);
    assert_eq!(group_case(&y, &t), Ok((s("YR1"), s("YR19"))));
    let female = case_with("N70.900", "", &[], Sex::Female, years(30));
    assert_eq!(process_mdc(&female, &t), Ok(s("MDCY")));
    assert_eq!(which_adrg(&female, &t), Ok(s("YR1")));
    let male_n = case_with("N70.900", "", &[], Sex::Male, years(30));
    assert_eq!(process_mdc(&male_n, &t), Ok(s("KBBZ")));
    let male = case_with("N45.900", "", &[], Sex::Male, years(30));
    assert_eq!(process_mdc(&male, &t), Ok(s("MDCY")));
    let female_m = case_with("N45.900", "", &[], Sex::Female, years(30));
    assert_eq!(process_mdc(&female_m, &t), Ok(s("KBBZ")));
}

#[test]
fn unknown_principal_diagnosis_is_unclassified() {
    let t = tables();
    let c = case("A99.999", "", &[], &[]);
    assert_eq!(process_mdc(&c, &t), Ok(s("KBBZ")));
    assert_eq!(group_case(&c, &t), Ok((s("KBBZ"), s("KBBZ"))));
}

#[test]
fn batch_keeps_order() {
    let t = tables();
    let mut cases_vec = vec![
        case("J18.900", "", &["I50.000"], &[]),
        case("K25.000", "", &[], &[]),
        case("", "", &[], &[]),
    ];
    cases_vec[1].id = s("0002");
    cases_vec[2].id = s("0003");
    let rows = batch_drg_process(&cases_vec, &t).unwrap();
    assert_eq!(rows.len(), 3);
    assert_eq!(row(&rows[0]), (s("0001"), s("ER11")));
    assert_eq!(row(&rows[1]), (s("0002"), s("GB19")));
    assert_eq!(row(&rows[2]), (s("0003"), s("KBBZ")));
    let empty: Vec<DrgCase> = vec![];
    assert_eq!(batch_drg_process(&empty, &t).unwrap().len(), 0);
    let failing = vec![case("J18.900", "", &[], &[]), case("K30.000", "", &[], &[])];
    assert!(matches!(batch_drg_process(&failing, &t), Err(GroupError::UnknownCategory)));
}

#[test]
fn grouped_row_joins_lists() {
    let c = DrgCase::new(
        s("7"),
        s("J18.900"),
        s("32.2901"),
        v(&["I50.000", "E11.900"]),
        v(&["99.0400"]),
        Sex::Female,
        years(3),
        12,
    );
    let g = DrgCaseGrouped::new(&c, s("EB15"));
    assert_eq!(g.other_dis, "I50.000|E11.900");
    assert_eq!(g.other_opt, "99.0400");
    assert_eq!(g.sex, Sex::Female);
    assert_eq!(g.age_millionths, 3_000_000);
    assert_eq!(g.weight, 12);
    assert_eq!(g.code, "EB15");
}

#[test]
fn deterministic_grouping() {
    let t = tables();
    let a = case("J18.900", "99.0400", &["E11.900", "S36.000"], &[]);
    let b = case("J18.900", "99.0400", &["E11.900", "S36.000"], &[]);
    assert_eq!(group_case(&a, &t), group_case(&b, &t));
    assert_eq!(group_case(&a, &t), group_case(&a, &t));
}

#[test]
fn qy_and_drg_type() {
    assert!(DrgFunc::is_qy(&s("EQY")));
    assert!(!DrgFunc::is_qy(&s("ER1")));
    assert!(!DrgFunc::is_qy(&s("Q")));
    assert_eq!(DrgFunc::drg_type(s("KBBZ")), "KBBZ");
    assert_eq!(DrgFunc::drg_type(s("EQY")), "QY");
    assert_eq!(DrgFunc::drg_type(s("EB1")), "surgery");
    assert_eq!(DrgFunc::drg_type(s("EK1")), "operation");
    assert_eq!(DrgFunc::drg_type(s("ER1")), "internal");
    assert_eq!(DrgFunc::drg_type(s("E11")), "other");
    assert_eq!(DrgFunc::drg_type(s("E")), "other");
}
