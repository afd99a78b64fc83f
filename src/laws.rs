use vstd::prelude::*;
use crate::calc::{calculation, english_adjustment_spec, english_difference};
use crate::score::{updated, Record, Score, ScoreError, Subject};
use crate::weight::{filed, University, UniversityWeight, WeightCatalog};

verus! {

/// Recording all five subjects one after another and then reading each back
/// gives exactly the triple that was recorded for it.
pub proof fn lemma_record_then_get(
    r0: Record,
    r1: Record,
    r2: Record,
    r3: Record,
    r4: Record,
    r5: Record,
    korean: Score,
    math: Score,
    english: Score,
    chemistry: Score,
    earth_science: Score,
)
    requires
        updated(r0, r1, Subject::Korean, korean),
        updated(r1, r2, Subject::Math, math),
        updated(r2, r3, Subject::English, english),
        updated(r3, r4, Subject::Chemistry, chemistry),
        updated(r4, r5, Subject::EarthScience, earth_science),
    ensures
        r5.lookup(Subject::Korean) == Ok::<Score, ScoreError>(korean),
        r5.lookup(Subject::Math) == Ok::<Score, ScoreError>(math),
        r5.lookup(Subject::English) == Ok::<Score, ScoreError>(english),
        r5.lookup(Subject::Chemistry) == Ok::<Score, ScoreError>(chemistry),
        r5.lookup(Subject::EarthScience) == Ok::<Score, ScoreError>(earth_science),
        r5.complete(),
{
    assert(r5.entry(Subject::Korean) == r1.entry(Subject::Korean));
    assert(r5.entry(Subject::Math) == r2.entry(Subject::Math));
    assert(r5.entry(Subject::English) == r3.entry(Subject::English));
    assert(r5.entry(Subject::Chemistry) == r4.entry(Subject::Chemistry));
    assert forall|s: Subject| (#[trigger] r5.entry(s)) is Some by {
        match s {
            Subject::Korean => {},
            Subject::Math => {},
            Subject::English => {},
            Subject::Chemistry => {},
            Subject::EarthScience => {},
        }
    }
}

/// Resolution is total: a pair that the catalog holds resolves to its table,
/// and every other pair fails with `UnsupportedCombination`.
pub proof fn lemma_resolve_total(c: WeightCatalog, u: University, y: usize)
    ensures
        c.table(u, y) is Some ==> c.resolve_spec(u, y) == Ok::<UniversityWeight, ScoreError>(
            c.table(u, y)->Some_0,
        ),
        c.table(u, y) is None ==> c.resolve_spec(u, y) == Err::<UniversityWeight, ScoreError>(
            ScoreError::UnsupportedCombination(u, y),
        ),
{
}

/// A table filed under a pair is what that pair then resolves to; every other
/// pair resolves as it did before.
pub proof fn lemma_add_then_resolve(
    before: WeightCatalog,
    after: WeightCatalog,
    u: University,
    y: usize,
    w: UniversityWeight,
    u2: University,
    y2: usize,
)
    requires
        filed(before, after, u, y, w),
    ensures
        after.resolve_spec(u, y) == Ok::<UniversityWeight, ScoreError>(w),
        !(u2 == u && y2 == y) ==> after.resolve_spec(u2, y2) == before.resolve_spec(u2, y2),
{
    if !(u2 == u && y2 == y) {
        assert(after.table(u2, y2) == before.table(u2, y2));
    }
}

/// The calculation depends on the recorded entries and the weight table's
/// contents alone: two records with the same entries, under two tables with
/// the same contents, give the same exact score.
pub proof fn lemma_calculate_deterministic(
    r1: Record,
    r2: Record,
    w1: UniversityWeight,
    w2: UniversityWeight,
)
    requires
        forall|s: Subject| #[trigger] r1.entry(s) == r2.entry(s),
        w1.korean == w2.korean,
        w1.math == w2.math,
        w1.english == w2.english,
        w1.science == w2.science,
        w1.science_policy == w2.science_policy,
        w1.english_required == w2.english_required,
        w1.english_table@ == w2.english_table@,
    ensures
        calculation(r1, w1) == calculation(r2, w2),
{
    assert(r1.entry(Subject::Korean) == r2.entry(Subject::Korean));
    assert(r1.entry(Subject::Math) == r2.entry(Subject::Math));
    assert(r1.entry(Subject::English) == r2.entry(Subject::English));
    assert(r1.entry(Subject::Chemistry) == r2.entry(Subject::Chemistry));
    assert(r1.entry(Subject::EarthScience) == r2.entry(Subject::EarthScience));
}

/// With an English weight of zero, the English adjustment is the difference
/// of the two table scores divided by four, whatever the other weights are.
pub proof fn lemma_english_zero_weight(w1: UniversityWeight, w2: UniversityWeight, rank: usize)
    requires
        w1.english == 0,
        w2.english == 0,
        w1.english_required == w2.english_required,
        w1.english_table@ == w2.english_table@,
    ensures
        english_adjustment_spec(w1, rank) == english_adjustment_spec(w2, rank),
        english_difference(w1, rank) is Ok ==> english_adjustment_spec(w1, rank) == Ok::<
            (int, int),
            ScoreError,
        >((english_difference(w1, rank)->Ok_0, 400)),
{
}

} // verus!
