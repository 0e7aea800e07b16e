//! The grouping policy's reference tables, loaded once and read by every case.
use vstd::prelude::*;

use crate::codes::Table;

verus! {

/// How an ADRG admits a case. Each kind carries the code lists it reads.
pub enum AdrgRule {
    /// The principal procedure is in `opts`.
    MainOpt { opts: Vec<String> },
    /// The principal diagnosis is in `dis`.
    MainDis { dis: Vec<String> },
    /// The principal diagnosis is in `dis` and the principal procedure in `opts`.
    MainDisAndMainOpt { dis: Vec<String>, opts: Vec<String> },
    /// The principal diagnosis is in `dis` and so is some other diagnosis.
    Dis { dis: Vec<String> },
    /// Some procedure is in `first` and some procedure is in `second`.
    TwoOpts { first: Vec<String>, second: Vec<String> },
    /// Some procedure is in the global valid-procedure set.
    AnyValidOpt,
    /// Some other diagnosis is in `other_dis` or some procedure in `opt1`;
    /// and some procedure is in `opt2`.
    OtherDisOrOpt1AndOpt2 { other_dis: Vec<String>, opt1: Vec<String>, opt2: Vec<String> },
    /// Principal diagnosis and principal procedure in `main_dis` and
    /// `main_opt1`; or principal procedure in `main_opt2`; or procedures in
    /// both `opt3` and `opt4`.
    Multi1 {
        main_dis: Vec<String>,
        main_opt1: Vec<String>,
        main_opt2: Vec<String>,
        opt3: Vec<String>,
        opt4: Vec<String>,
    },
    /// Principal diagnosis in `main_dis`, with procedures in `opt1` and
    /// `opt2`; or in `opt1`, `opt3` and `opt4`; or in `opt4` and `opt5`.
    Multi2 {
        main_dis: Vec<String>,
        opt1: Vec<String>,
        opt2: Vec<String>,
        opt3: Vec<String>,
        opt4: Vec<String>,
        opt5: Vec<String>,
    },
    /// Principal diagnosis in `main_dis`, with the principal procedure in
    /// `main_opt1` or `opt2`, or some procedure in `opt2`.
    Multi3 { main_dis: Vec<String>, main_opt1: Vec<String>, opt2: Vec<String> },
    /// Principal procedure in `main_opt`, with the principal diagnosis in
    /// `main_dis1`, or in `main_dis2` together with an other diagnosis in
    /// `other_dis`.
    Multi4 {
        main_dis1: Vec<String>,
        main_dis2: Vec<String>,
        main_opt: Vec<String>,
        other_dis: Vec<String>,
    },
    /// Principal procedure in `main_opt`, with the principal diagnosis in
    /// `main_dis` and an other diagnosis in `other_dis1`, or with an other
    /// diagnosis in `other_dis2`.
    Multi5 {
        main_dis: Vec<String>,
        main_opt: Vec<String>,
        other_dis1: Vec<String>,
        other_dis2: Vec<String>,
    },
    /// Some other diagnosis is in `dis`.
    OtherDis { dis: Vec<String> },
    /// The principal procedure is in one of three lists.
    ThreeMainOpts { first: Vec<String>, second: Vec<String>, third: Vec<String> },
    /// Some diagnosis is in `dis` and the principal procedure is in `opts`.
    DisAndMainOpt { dis: Vec<String>, opts: Vec<String> },
    /// The diagnoses reach at least two body regions.
    MultiRegion,
    /// A rule kind that the policy does not know: it admits no case.
    Unrecognized,
}

/// A fault in the reference tables, met while grouping a case.
#[derive(PartialEq, Eq, Structural, Clone, Copy, Debug)]
pub enum GroupError {
    /// A candidate ADRG has no entry rule.
    UnknownAdrg,
    /// A category that claimed the case has no candidate ADRG list.
    UnknownCategory,
    /// An ADRG has no registered DRG codes.
    DrgCodesMissing,
    /// An ADRG has a number of registered DRG codes other than one to three.
    DrgCodesMalformed,
    /// The severity tier that the case calls for has no registered DRG code.
    TierMissing,
}

/// The severity of a complication or comorbidity.
#[derive(PartialEq, Eq, Structural, Clone, Copy, Debug)]
pub enum Severity {
    /// A major complication or comorbidity (MCC).
    Major,
    /// A complication or comorbidity (CC).
    Minor,
}

/// A diagnosis's entry in the severity table: the exclusion group it
/// belongs to and its severity, if its label names one.
pub struct SevEntry {
    pub group: String,
    pub level: Option<Severity>,
}

/// The reference tables of a grouping policy.
pub struct RuleTables {
    /// ADRG code to the rule that admits a case into it.
    pub rules: Table<AdrgRule>,
    /// Principal diagnosis to its ordered category names.
    pub categories: Table<Vec<String>>,
    /// The diagnoses of the catch-all category (MDCY).
    pub catch_all: Vec<String>,
    /// The diagnosis sets of the body regions of the multi-region category.
    pub regions: Vec<Vec<String>>,
    /// Category name to its ordered candidate ADRG codes.
    pub candidates: Table<Vec<String>>,
    /// ADRG code to its registered DRG codes.
    pub drg_codes: Table<Vec<String>>,
    /// Diagnosis to its severity entry.
    pub severity: Table<SevEntry>,
    /// Principal diagnosis to the exclusion group it suppresses.
    pub exclusions: Table<String>,
    /// The global set of valid procedures.
    pub valid_opts: Vec<String>,
}

} // verus!
