use admission_score::{
    Fraction, Record, SciencePolicy, Score, ScoreError, Subject, University, UniversityWeight,
    WeightCatalog,
};

fn full_record() -> Record {
    let mut r = Record::new("kim");
    r.record(Subject::Korean, 13000, 9600, 2);
    r.record(Subject::Math, 12500, 9100, 2);
    r.record(Subject::English, 0, 0, 2);
    r.record(Subject::Chemistry, 6800, 9000, 2);
    r.record(Subject::EarthScience, 6500, 8800, 3);
    r
}

fn sample_weight(english: u32, policy: SciencePolicy) -> UniversityWeight {
    UniversityWeight::new(30, 30, english, 40, policy, 1, vec![0, 10000, 9700, 9400])
}

fn value_is(f: Fraction, num: i128, den: i128) -> bool {
    f.den > 0 && f.num * den == num * f.den
}

#[test]
fn record_then_get_round_trip() {
    let mut r = Record::new("lee");
    r.record(Subject::Korean, 13100, 9700, 1);
    r.record(Subject::Math, 12900, 9500, 2);
    r.record(Subject::English, 8500, 9000, 3);
    r.record(Subject::Chemistry, 6700, 9200, 2);
    r.record(Subject::EarthScience, 6400, 8700, 4);
    assert_eq!(r.get(Subject::Korean), Ok(Score::new(13100, 9700, 1)));
    assert_eq!(r.get(Subject::Math), Ok(Score::new(12900, 9500, 2)));
    assert_eq!(r.get(Subject::English), Ok(Score::new(8500, 9000, 3)));
    assert_eq!(r.get(Subject::Chemistry), Ok(Score::new(6700, 9200, 2)));
    assert_eq!(r.get(Subject::EarthScience), Ok(Score::new(6400, 8700, 4)));
    assert_eq!(r.korean().unwrap().standard_score(), 13100);
    assert_eq!(r.english().unwrap().percentile(), 9000);
    assert_eq!(r.earth_science().unwrap().rank(), 4);
    assert_eq!(r.standard_score(Subject::Math), Ok(12900));
    assert_eq!(r.percentile(Subject::Chemistry), Ok(9200));
    assert_eq!(r.rank(Subject::English), Ok(3));
    assert_eq!(r.name(), "lee");
}

#[test]
fn last_write_wins() {
    let mut r = Record::new("park");
    r.record(Subject::Math, 12000, 8000, 3);
    r.record(Subject::Math, 12800, 9300, 2);
    assert_eq!(r.math(), Ok(Score::new(12800, 9300, 2)));
}

#[test]
fn missing_subject_is_an_error() {
    let mut r = Record::new("choi");
    assert_eq!(r.get(Subject::Korean), Err(ScoreError::MissingSubject(Subject::Korean)));
    r.record(Subject::Korean, 13000, 9600, 2);
    assert_eq!(r.chemistry(), Err(ScoreError::MissingSubject(Subject::Chemistry)));
    assert_eq!(r.rank(Subject::English), Err(ScoreError::MissingSubject(Subject::English)));
    let w = sample_weight(0, SciencePolicy::SumOfTwo);
    assert_eq!(r.calculate(&w), Err(ScoreError::MissingSubject(Subject::Math)));
}

#[test]
fn columns_store_english_rank_only() {
    let mut r = Record::new("jung");
    r.record(Subject::Korean, 13000, 9600, 2);
    r.record(Subject::Math, 12500, 9100, 2);
    r.record(Subject::English, 8700, 9400, 2);
    r.record(Subject::Chemistry, 6800, 9000, 2);
    r.record(Subject::EarthScience, 6500, 8800, 3);
    let cols = r.to_columns().unwrap();
    assert_eq!(
        cols,
        vec![
            (Subject::Korean, Score::new(13000, 9600, 2)),
            (Subject::Math, Score::new(12500, 9100, 2)),
            (Subject::English, Score::new(0, 0, 2)),
            (Subject::Chemistry, Score::new(6800, 9000, 2)),
            (Subject::EarthScience, Score::new(6500, 8800, 3)),
        ]
    );
    let back = Record::from_columns("jung", cols[0].1, cols[1].1, cols[2].1, cols[3].1, cols[4].1);
    assert_eq!(back.name(), "jung");
    assert_eq!(back.korean(), Ok(Score::new(13000, 9600, 2)));
    assert_eq!(back.english(), Ok(Score::new(0, 0, 2)));
    assert_eq!(back.earth_science(), Ok(Score::new(6500, 8800, 3)));
    let partial = Record::new("none");
    assert_eq!(partial.to_columns(), Err(ScoreError::MissingSubject(Subject::Korean)));
}

#[test]
fn subject_and_university_names() {
    assert_eq!(Subject::Korean.name(), "Korean");
    assert_eq!(Subject::EarthScience.name(), "EarthScience");
    assert_eq!(University::SOGANG.name(), "서강대");
    assert_eq!(University::ERICA.name(), "한양대(ERICA)");
}

#[test]
fn resolve_present_and_absent() {
    let mut catalog = WeightCatalog::new();
    catalog.add(University::KYUNGHEE, 2024, sample_weight(20, SciencePolicy::BestOfTwo));
    let w = catalog.resolve(University::KYUNGHEE, 2024).unwrap();
    assert_eq!(w.korean(), 30);
    assert_eq!(w.english(), 20);
    assert_eq!(w.science_required(), 1);
    assert_eq!(w.english_required(), 1);
    assert_eq!(w.english_table(), &vec![0, 10000, 9700, 9400]);
    assert_eq!(
        catalog.resolve(University::KYUNGHEE, 2021).err(),
        Some(ScoreError::UnsupportedCombination(University::KYUNGHEE, 2021))
    );
    assert_eq!(
        UniversityWeight::load(&catalog, University::INHA, 2024).err(),
        Some(ScoreError::UnsupportedCombination(University::INHA, 2024))
    );
    assert_eq!(UniversityWeight::load(&catalog, University::KYUNGHEE, 2024).unwrap().math(), 30);
}

#[test]
fn add_replaces_table() {
    let mut catalog = WeightCatalog::new();
    catalog.add(University::AJU, 2023, sample_weight(20, SciencePolicy::BestOfTwo));
    catalog.add(University::AJU, 2023, sample_weight(0, SciencePolicy::SumOfTwo));
    let w = catalog.resolve(University::AJU, 2023).unwrap();
    assert_eq!(w.english(), 0);
    assert_eq!(w.science_required(), 2);
}

#[test]
fn calculate_is_repeatable() {
    let r = full_record();
    let w = sample_weight(20, SciencePolicy::BestOfTwo);
    let a = r.calculate(&w).unwrap();
    let b = r.calculate(&w).unwrap();
    assert_eq!(a, b);
}

#[test]
fn science_candidate_examples() {
    assert_eq!(SciencePolicy::BestOfTwo.candidate(68, 65), 136);
    assert_eq!(SciencePolicy::SumOfTwo.candidate(68, 65), 133);
    assert_eq!(SciencePolicy::BestOfTwo.candidate(6500, 6800), 13600);
}

#[test]
fn english_zero_weight_divides_by_four() {
    let a = UniversityWeight::new(30, 30, 0, 40, SciencePolicy::SumOfTwo, 1, vec![0, 10000, 9700, 9400]);
    let b = UniversityWeight::new(5, 70, 0, 1, SciencePolicy::BestOfTwo, 1, vec![0, 10000, 9700, 9400]);
    let x = a.english_adjustment(3).unwrap();
    let y = b.english_adjustment(3).unwrap();
    assert!(value_is(x, -6, 4));
    assert!(value_is(y, -6, 4));
}

#[test]
fn english_weighted_adjustment() {
    let w = UniversityWeight::new(30, 30, 20, 20, SciencePolicy::SumOfTwo, 1, vec![0, 10000, 9700, 9400]);
    // (97 - 100) * 20 / 100
    assert!(value_is(w.english_adjustment(2).unwrap(), -60, 100));
}

#[test]
fn end_to_end_zero_english_weight() {
    let r = full_record();
    let w = sample_weight(0, SciencePolicy::SumOfTwo);
    let f = r.calculate(&w).unwrap();
    assert!(value_is(f, 38835, 100));
    let mut catalog = WeightCatalog::new();
    catalog.add(University::DONGGUK, 2025, sample_weight(0, SciencePolicy::SumOfTwo));
    let g = r.calc_with_university(&catalog, University::DONGGUK, 2025).unwrap();
    assert!(value_is(g, 38835, 100));
    assert_eq!(
        r.calc_with_university(&catalog, University::DONGGUK, 2022),
        Err(ScoreError::UnsupportedCombination(University::DONGGUK, 2022))
    );
}

#[test]
fn end_to_end_best_of_two_with_english_weight() {
    let r = full_record();
    let w = UniversityWeight::new(25, 25, 20, 30, SciencePolicy::BestOfTwo, 1, vec![0, 10000, 9700, 9400]);
    // base = (130*25 + 125*25 + 136*30) / 80 * 3 = 392.0625
    // english = (97 - 100) * 20 / 100 = -0.6
    let f = r.calculate(&w).unwrap();
    assert!(value_is(f, 3914625, 10000));
}

#[test]
fn rank_beyond_table_is_out_of_range() {
    let w = sample_weight(0, SciencePolicy::SumOfTwo);
    assert_eq!(w.english_adjustment(4), Err(ScoreError::RankOutOfRange(4)));
    let mut r = full_record();
    r.record(Subject::English, 0, 0, 9);
    assert_eq!(r.calculate(&w), Err(ScoreError::RankOutOfRange(9)));
    let bad_ref = UniversityWeight::new(30, 30, 0, 40, SciencePolicy::SumOfTwo, 7, vec![0, 10000, 9700]);
    assert_eq!(bad_ref.english_adjustment(1), Err(ScoreError::RankOutOfRange(7)));
}

#[test]
fn zero_weight_sum_is_invalid() {
    let r = full_record();
    let w = UniversityWeight::new(0, 0, 10, 0, SciencePolicy::SumOfTwo, 1, vec![0, 10000, 9700, 9400]);
    assert_eq!(r.calculate(&w), Err(ScoreError::InvalidWeightTable));
}
