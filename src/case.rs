//! The case record that the grouper classifies.
use vstd::prelude::*;

use crate::codes::{codes, copy_codes, has_code};

verus! {

/// The patient's sex.
#[derive(PartialEq, Eq, Structural, Clone, Copy, Debug)]
pub enum Sex {
    Female,
    Male,
}

impl Sex {
    /// Reads the numeric sex code of a case row: `0` is female, `1` male.
    pub fn from_code(code: i32) -> (r: Option<Sex>)
        ensures
            code == 0 ==> r == Some(Sex::Female),
            code == 1 ==> r == Some(Sex::Male),
            code != 0 && code != 1 ==> r is None,
    {
        if code == 0 {
            Some(Sex::Female)
        } else if code == 1 {
            Some(Sex::Male)
        } else {
            None
        }
    }

    /// The numeric code of this sex, as case rows write it.
    pub fn code(&self) -> (r: i32)
        ensures
            *self == Sex::Female ==> r == 0,
            *self == Sex::Male ==> r == 1,
    {
        match self {
            Sex::Female => 0,
            Sex::Male => 1,
        }
    }
}

/// A clinical case. An empty principal diagnosis means none was given; an
/// empty principal procedure means no surgery. The age is counted in
/// millionths of a year, so an infant of `d` days is `d * 1_000_000 / 365`.
pub struct DrgCase {
    pub id: String,
    pub main_dis: String,
    pub main_opt: String,
    pub other_dis: Vec<String>,
    pub other_opt: Vec<String>,
    pub sex: Sex,
    pub age_millionths: u64,
    pub weight: i32,
    /// The principal diagnosis and the other diagnoses, together.
    pub all_dis: Vec<String>,
    /// The principal procedure and the other procedures, together.
    pub all_opt: Vec<String>,
}

/// The codes of `others` with `main` added.
pub open spec fn with_main(main: Seq<char>, others: Seq<String>) -> Set<Seq<char>> {
    codes(others).insert(main)
}

/// Adding an element at the end of a list adds its code to the set.
pub proof fn lemma_codes_push(s: Seq<String>, x: String)
    ensures
        codes(s.push(x)) == codes(s).insert(x@),
{
    let t = s.push(x);
    assert forall|c: Seq<char>| codes(t).contains(c) <==> codes(s).insert(x@).contains(c) by {
        if codes(t).contains(c) {
            let i = choose|i: int| 0 <= i < t.len() && t[i]@ == c;
            if i < s.len() {
                assert(s[i]@ == c);
            }
        }
        if codes(s).contains(c) {
            let i = choose|i: int| 0 <= i < s.len() && s[i]@ == c;
            assert(t[i]@ == c);
        }
        if c == x@ {
            assert(t[s.len() as int]@ == c);
        }
    }
    assert(codes(t) =~= codes(s).insert(x@));
}

/// Lists that hold the same items, in any order, hold the same codes.
pub proof fn lemma_codes_permutation(a: Seq<String>, b: Seq<String>)
    requires
        a.to_multiset() == b.to_multiset(),
    ensures
        codes(a) == codes(b),
{
    broadcast use vstd::seq_lib::to_multiset_contains;

    assert forall|c: Seq<char>| codes(a).contains(c) implies codes(b).contains(c) by {
        let i = choose|i: int| 0 <= i < a.len() && a[i]@ == c;
        assert(a.contains(a[i]));
        assert(a.to_multiset().count(a[i]) > 0);
        assert(b.contains(a[i]));
    }
    assert forall|c: Seq<char>| codes(b).contains(c) implies codes(a).contains(c) by {
        let i = choose|i: int| 0 <= i < b.len() && b[i]@ == c;
        assert(b.contains(b[i]));
        assert(b.to_multiset().count(b[i]) > 0);
        assert(a.contains(b[i]));
    }
    assert(codes(a) =~= codes(b));
}

impl DrgCase {
    /// The derived sets hold exactly the principal code and the other codes.
    pub open spec fn wf(&self) -> bool {
        &&& codes(self.all_dis@) == with_main(self.main_dis@, self.other_dis@)
        &&& codes(self.all_opt@) == with_main(self.main_opt@, self.other_opt@)
    }

    /// A principal procedure was given.
    pub open spec fn has_surgery(&self) -> bool {
        self.main_opt@.len() > 0
    }

    /// A principal diagnosis was given.
    pub open spec fn has_main_diagnosis(&self) -> bool {
        self.main_dis@.len() > 0
    }

    /// Builds a case and derives its full diagnosis and procedure sets.
    pub fn new(
        admission_number: String,
        principal_diagnosis: String,
        principal_operation: String,
        other_diagnosis: Vec<String>,
        other_operation: Vec<String>,
        gender: Sex,
        age_millionths: u64,
        mass: i32,
    ) -> (r: DrgCase)
        ensures
            r.id == admission_number,
            r.main_dis == principal_diagnosis,
            r.main_opt == principal_operation,
            r.other_dis == other_diagnosis,
            r.other_opt == other_operation,
            r.sex == gender,
            r.age_millionths == age_millionths,
            r.weight == mass,
            r.all_dis@ == other_diagnosis@.push(principal_diagnosis),
            r.all_opt@ == other_operation@.push(principal_operation),
            r.wf(),
    {
        let mut all_dis = copy_codes(&other_diagnosis);
        let mut all_opt = copy_codes(&other_operation);
        all_dis.push(principal_diagnosis.clone());
        all_opt.push(principal_operation.clone());
        proof {
            lemma_codes_push(other_diagnosis@, principal_diagnosis);
            lemma_codes_push(other_operation@, principal_operation);
        }
        DrgCase {
            id: admission_number,
            main_dis: principal_diagnosis,
            main_opt: principal_operation,
            other_dis: other_diagnosis,
            other_opt: other_operation,
            sex: gender,
            age_millionths,
            weight: mass,
            all_dis,
            all_opt,
        }
    }

    /// No principal diagnosis was given.
    pub fn no_main_diagnosis(&self) -> (r: bool)
        ensures
            r == !self.has_main_diagnosis(),
    {
        self.main_dis.as_str().is_empty()
    }

    /// No principal procedure was given.
    pub fn no_surgery(&self) -> (r: bool)
        ensures
            r == !self.has_surgery(),
    {
        self.main_opt.as_str().is_empty()
    }

    /// No other procedure was given.
    pub fn no_other_surgery(&self) -> (r: bool)
        ensures
            r == (self.other_opt@.len() == 0),
    {
        self.other_opt.len() == 0
    }

    /// No other diagnosis was given.
    pub fn no_other_diagnosis(&self) -> (r: bool)
        ensures
            r == (self.other_dis@.len() == 0),
    {
        self.other_dis.len() == 0
    }

    /// Adds the principal diagnosis and the other diagnoses to the full
    /// diagnosis set.
    pub fn concat_dis(&mut self)
        ensures
            final(self).id == old(self).id,
            final(self).main_dis == old(self).main_dis,
            final(self).main_opt == old(self).main_opt,
            final(self).other_dis == old(self).other_dis,
            final(self).other_opt == old(self).other_opt,
            final(self).sex == old(self).sex,
            final(self).age_millionths == old(self).age_millionths,
            final(self).weight == old(self).weight,
            final(self).all_opt == old(self).all_opt,
            codes(final(self).all_dis@) == codes(old(self).all_dis@).union(
                with_main(old(self).main_dis@, old(self).other_dis@),
            ),
            old(self).wf() ==> final(self).wf(),
    {
        let ghost start = self.all_dis@;
        self.all_dis.push(self.main_dis.clone());
        proof {
            lemma_codes_push(start, self.main_dis);
        }
        let mut i: usize = 0;
        while i < self.other_dis.len()
            invariant
                self.id == old(self).id,
                self.main_dis == old(self).main_dis,
                self.main_opt == old(self).main_opt,
                self.other_dis == old(self).other_dis,
                self.other_opt == old(self).other_opt,
                self.sex == old(self).sex,
                self.age_millionths == old(self).age_millionths,
                self.weight == old(self).weight,
                self.all_opt == old(self).all_opt,
                start == old(self).all_dis@,
                0 <= i <= self.other_dis@.len(),
                codes(self.all_dis@) == codes(start).insert(self.main_dis@).union(
                    codes(self.other_dis@.subrange(0, i as int)),
                ),
            decreases self.other_dis@.len() - i,
        {
            let d = self.other_dis[i].clone();
            let ghost before = self.all_dis@;
            self.all_dis.push(d);
            proof {
                lemma_codes_push(before, d);
                lemma_codes_push(self.other_dis@.subrange(0, i as int), d);
                assert(self.other_dis@.subrange(0, i as int).push(d) =~= self.other_dis@.subrange(
                    0,
                    i + 1,
                ));
            }
            i += 1;
        }
        proof {
            assert(self.other_dis@.subrange(0, i as int) =~= self.other_dis@);
            assert(codes(self.all_dis@) =~= codes(start).union(
                with_main(self.main_dis@, self.other_dis@),
            ));
            let w = with_main(self.main_dis@, self.other_dis@);
            assert(w.union(w) =~= w);
        }
    }

    /// Whether the principal procedure is in the given procedure set.
    pub fn is_vaild_surgrey(&self, all_opt_list: &Vec<String>) -> (r: bool)
        ensures
            r == codes(all_opt_list@).contains(self.main_opt@),
    {
        has_code(all_opt_list, &self.main_opt)
    }
}

/// Building a case twice from the same fields, with the other diagnoses and
/// procedures given in any order, yields the same full diagnosis and
/// procedure sets.
pub proof fn lemma_case_sets_ignore_order(a: DrgCase, b: DrgCase)
    requires
        a.wf(),
        b.wf(),
        a.main_dis@ == b.main_dis@,
        a.main_opt@ == b.main_opt@,
        a.other_dis@.to_multiset() == b.other_dis@.to_multiset(),
        a.other_opt@.to_multiset() == b.other_opt@.to_multiset(),
    ensures
        codes(a.all_dis@) == codes(b.all_dis@),
        codes(a.all_opt@) == codes(b.all_opt@),
{
    lemma_codes_permutation(a.other_dis@, b.other_dis@);
    lemma_codes_permutation(a.other_opt@, b.other_opt@);
}

} // verus!
