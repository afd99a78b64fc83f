use vstd::prelude::*;
use crate::score::{Record, ScoreError, Subject};
use crate::weight::{SciencePolicy, University, UniversityWeight, WeightCatalog};

verus! {

/// An exact score `num / den` in points; `den` is positive.
#[derive(Debug, Clone, Copy, PartialEq, Eq, Structural)]
pub struct Fraction {
    pub num: i128,
    pub den: i128,
}

/// The numerator and denominator of a result, as mathematical integers.
pub open spec fn as_pair(r: Result<Fraction, ScoreError>) -> Result<(int, int), ScoreError> {
    match r {
        Ok(f) => Ok((f.num as int, f.den as int)),
        Err(e) => Err(e),
    }
}

/// The larger of two integers.
pub open spec fn max_int(a: int, b: int) -> int {
    if a >= b {
        a
    } else {
        b
    }
}

/// The combined elective-science score for policy `p`.
pub open spec fn science_candidate_spec(p: SciencePolicy, chem: int, earth: int) -> int {
    match p {
        SciencePolicy::BestOfTwo => 2 * max_int(chem, earth),
        SciencePolicy::SumOfTwo => chem + earth,
    }
}

/// Korean + Math + Science weights.
pub open spec fn weight_sum_no_english(w: UniversityWeight) -> int {
    w.korean + w.math + w.science
}

/// The base total (three subjects, rescaled by three) times
/// `100 * weight_sum_no_english(w)`; the 100 undoes the hundredths.
pub open spec fn base_total_scaled(w: UniversityWeight, korean: int, math: int, science: int) -> int {
    3 * (korean * w.korean + math * w.math + science * w.science)
}

/// The English adjustment for a table difference `diff` (in hundredths),
/// as a numerator and a denominator in hundredths.
pub open spec fn adjustment_parts(w: UniversityWeight, diff: int) -> (int, int) {
    if w.english > 0 {
        (diff * w.english, weight_sum_no_english(w) + w.english)
    } else {
        (diff, 4)
    }
}

/// English table score for `rank` minus the one for the reference rank, when
/// both ranks lie in the table.
pub open spec fn english_difference(w: UniversityWeight, rank: usize) -> Result<int, ScoreError> {
    if w.english_required >= w.english_table@.len() {
        Err(ScoreError::RankOutOfRange(w.english_required))
    } else if rank >= w.english_table@.len() {
        Err(ScoreError::RankOutOfRange(rank))
    } else {
        Ok(w.english_table@[rank as int] - w.english_table@[w.english_required as int])
    }
}

/// The English adjustment in points, as numerator and denominator.
pub open spec fn english_adjustment_spec(w: UniversityWeight, rank: usize) -> Result<
    (int, int),
    ScoreError,
> {
    match english_difference(w, rank) {
        Ok(diff) => Ok((adjustment_parts(w, diff).0, 100 * adjustment_parts(w, diff).1)),
        Err(e) => Err(e),
    }
}

/// The final score in points, as numerator and denominator:
/// `base / (100 * W) + adj / (100 * d)` for `(adj, d) = adjustment_parts(w, diff)`.
pub open spec fn final_score(
    w: UniversityWeight,
    korean: int,
    math: int,
    chem: int,
    earth: int,
    diff: int,
) -> (int, int) {
    let base = base_total_scaled(w, korean, math, science_candidate_spec(w.science_policy, chem, earth));
    let adj = adjustment_parts(w, diff);
    (
        base * adj.1 + adj.0 * weight_sum_no_english(w),
        100 * weight_sum_no_english(w) * adj.1,
    )
}

/// What `calculate` returns for `rec` under `w`.
pub open spec fn calculation(rec: Record, w: UniversityWeight) -> Result<(int, int), ScoreError> {
    if rec.entry(Subject::Korean) is None {
        Err(ScoreError::MissingSubject(Subject::Korean))
    } else if rec.entry(Subject::Math) is None {
        Err(ScoreError::MissingSubject(Subject::Math))
    } else if rec.entry(Subject::Chemistry) is None {
        Err(ScoreError::MissingSubject(Subject::Chemistry))
    } else if rec.entry(Subject::EarthScience) is None {
        Err(ScoreError::MissingSubject(Subject::EarthScience))
    } else if rec.entry(Subject::English) is None {
        Err(ScoreError::MissingSubject(Subject::English))
    } else if weight_sum_no_english(w) == 0 {
        Err(ScoreError::InvalidWeightTable)
    } else {
        match english_difference(w, rec.entry(Subject::English)->Some_0.rank) {
            Err(e) => Err(e),
            Ok(diff) => Ok(
                final_score(
                    w,
                    rec.entry(Subject::Korean)->Some_0.standard_score as int,
                    rec.entry(Subject::Math)->Some_0.standard_score as int,
                    rec.entry(Subject::Chemistry)->Some_0.standard_score as int,
                    rec.entry(Subject::EarthScience)->Some_0.standard_score as int,
                    diff,
                ),
            ),
        }
    }
}

/// What `calc_with_university` returns.
pub open spec fn calculation_for(
    rec: Record,
    catalog: WeightCatalog,
    u: University,
    y: usize,
) -> Result<(int, int), ScoreError> {
    match catalog.resolve_spec(u, y) {
        Ok(w) => calculation(rec, w),
        Err(e) => Err(e),
    }
}

proof fn lemma_mul_bounded(a: int, b: int, ba: int, bb: int)
    requires
        -ba <= a <= ba,
        0 <= b <= bb,
    ensures
        -(ba * bb) <= a * b <= ba * bb,
{
    assert(-(ba * bb) <= a * b <= ba * bb) by (nonlinear_arith)
        requires
            -ba <= a <= ba,
            0 <= b <= bb,
    ;
}

impl SciencePolicy {
    /// Combines the two elective standard scores under this policy.
    pub fn candidate(&self, chem: i32, earth: i32) -> (r: i64)
        ensures
            r == science_candidate_spec(*self, chem as int, earth as int),
    {
        match self {
            SciencePolicy::BestOfTwo => {
                if chem >= earth {
                    2 * chem as i64
                } else {
                    2 * earth as i64
                }
            },
            SciencePolicy::SumOfTwo => chem as i64 + earth as i64,
        }
    }
}

impl UniversityWeight {
    /// The English adjustment for a student of English rank `rank`.
    pub fn english_adjustment(&self, rank: usize) -> (r: Result<Fraction, ScoreError>)
        ensures
            as_pair(r) == english_adjustment_spec(*self, rank),
            r is Ok ==> r->Ok_0.den > 0,
    {
        let len = self.english_table.len();
        if self.english_required >= len {
            return Err(ScoreError::RankOutOfRange(self.english_required));
        }
        if rank >= len {
            return Err(ScoreError::RankOutOfRange(rank));
        }
        let diff: i128 = self.english_table[rank] as i128 - self.english_table[self.english_required] as i128;
        if self.english > 0 {
            let d: i128 = self.korean as i128 + self.math as i128 + self.science as i128
                + self.english as i128;
            proof {
                lemma_mul_bounded(diff as int, self.english as int, 0x1_0000_0000, 0xffff_ffff);
            }
            Ok(Fraction { num: diff * self.english as i128, den: 100 * d })
        } else {
            Ok(Fraction { num: diff, den: 400 })
        }
    }
}

impl Record {
    /// The admission score of this record under the weighting scheme `w`.
    pub fn calculate(&self, w: &UniversityWeight) -> (r: Result<Fraction, ScoreError>)
        ensures
            as_pair(r) == calculation(*self, *w),
            r is Ok ==> r->Ok_0.den > 0,
    {
        let korean = match self.get(Subject::Korean) {
            Ok(t) => t,
            Err(e) => return Err(e),
        };
        let math = match self.get(Subject::Math) {
            Ok(t) => t,
            Err(e) => return Err(e),
        };
        let chem = match self.get(Subject::Chemistry) {
            Ok(t) => t,
            Err(e) => return Err(e),
        };
        let earth = match self.get(Subject::EarthScience) {
            Ok(t) => t,
            Err(e) => return Err(e),
        };
        let english = match self.get(Subject::English) {
            Ok(t) => t,
            Err(e) => return Err(e),
        };
        let sum: i128 = w.korean as i128 + w.math as i128 + w.science as i128;
        if sum == 0 {
            return Err(ScoreError::InvalidWeightTable);
        }
        let adj = match w.english_adjustment(english.rank) {
            Ok(a) => a,
            Err(e) => return Err(e),
        };
        let cand: i128 = w.science_policy.candidate(chem.standard_score, earth.standard_score) as i128;
        proof {
            lemma_mul_bounded(korean.standard_score as int, w.korean as int, 0x8000_0000, 0xffff_ffff);
            lemma_mul_bounded(math.standard_score as int, w.math as int, 0x8000_0000, 0xffff_ffff);
            lemma_mul_bounded(cand as int, w.science as int, 0x1_0000_0000, 0xffff_ffff);
        }
        let base: i128 = 3 * (korean.standard_score as i128 * w.korean as i128
            + math.standard_score as i128 * w.math as i128 + cand * w.science as i128);
        // `adj` is (n, 100 * d); the final denominator is 100 * sum * d.
        let adj_den: i128 = adj.den / 100;
        assert(adj_den * 100 == adj.den);
        proof {
            let diff = english_difference(*w, english.rank)->Ok_0;
            lemma_mul_bounded(diff, w.english as int, 0x1_0000_0000, 0xffff_ffff);
            lemma_mul_bounded(base as int, adj_den as int, 0x8_0000_0000_0000_0000, 0x4_0000_0000);
            lemma_mul_bounded(adj.num as int, sum as int, 0x1_0000_0000_0000_0000, 0x4_0000_0000);
            lemma_mul_bounded(100 * sum, adj_den as int, 0x200_0000_0000, 0x4_0000_0000);
            assert(100 * sum * adj_den > 0) by (nonlinear_arith)
                requires
                    sum > 0,
                    adj_den > 0,
            ;
        }
        Ok(Fraction { num: base * adj_den + adj.num * sum, den: 100 * sum * adj_den })
    }

    /// The admission score of this record for `university` in `year`, with
    /// the weight table that `catalog` holds for them.
    pub fn calc_with_university(
        &self,
        catalog: &WeightCatalog,
        university: University,
        year: usize,
    ) -> (r: Result<Fraction, ScoreError>)
        ensures
            as_pair(r) == calculation_for(*self, *catalog, university, year),
            r is Ok ==> r->Ok_0.den > 0,
    {
        match catalog.resolve(university, year) {
            Ok(w) => self.calculate(w),
            Err(e) => Err(e),
        }
    }
}

} // verus!
