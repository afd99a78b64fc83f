use vstd::prelude::*;
use crate::score::ScoreError;

verus! {

/// The supported admission targets.
#[derive(Debug, Clone, Copy, PartialEq, Eq, Structural, Hash)]
pub enum University {
    KYUNGHEE,
    DONGGUK,
    SEOULSCITECH,
    KWANGWOON,
    INHA,
    ERICA,
    SEJONG,
    KOOKMIN,
    AJU,
    SOONGSIL,
    KONKUK,
    CATHOLIC,
    CHUNGANG,
    SEOUL,
    SOGANG,
}

pub open spec fn university_name(u: University) -> Seq<char> {
    match u {
        University::KYUNGHEE => "경희대(서울)"@,
        University::DONGGUK => "동국대"@,
        University::SEOULSCITECH => "서울과기대"@,
        University::KWANGWOON => "광운대"@,
        University::INHA => "인하대"@,
        University::ERICA => "한양대(ERICA)"@,
        University::SEJONG => "세종대"@,
        University::KOOKMIN => "국민대"@,
        University::AJU => "아주대"@,
        University::SOONGSIL => "숭실대"@,
        University::KONKUK => "건국대"@,
        University::CATHOLIC => "가톨릭대"@,
        University::CHUNGANG => "중앙대"@,
        University::SEOUL => "서울시립대"@,
        University::SOGANG => "서강대"@,
    }
}

impl University {
    /// Display name of the institution.
    pub fn name(&self) -> (r: &'static str)
        ensures
            r@ == university_name(*self),
    {
        match self {
            University::KYUNGHEE => "경희대(서울)",
            University::DONGGUK => "동국대",
            University::SEOULSCITECH => "서울과기대",
            University::KWANGWOON => "광운대",
            University::INHA => "인하대",
            University::ERICA => "한양대(ERICA)",
            University::SEJONG => "세종대",
            University::KOOKMIN => "국민대",
            University::AJU => "아주대",
            University::SOONGSIL => "숭실대",
            University::KONKUK => "건국대",
            University::CATHOLIC => "가톨릭대",
            University::CHUNGANG => "중앙대",
            University::SEOUL => "서울시립대",
            University::SOGANG => "서강대",
        }
    }
}

/// How the two elective sciences are combined.
#[derive(Debug, Clone, Copy, PartialEq, Eq, Structural)]
pub enum SciencePolicy {
    /// The better of the two, counted twice.
    BestOfTwo,
    /// The sum of both.
    SumOfTwo,
}

/// One institution's weighting scheme for one admission year.
///
/// `english_table[rank]` is the English score (in hundredths) for that rank;
/// index 0 is a sentinel, ranks begin at 1.
#[derive(Debug)]
pub struct UniversityWeight {
    pub korean: u32,
    pub math: u32,
    pub english: u32,
    pub science: u32,
    pub science_policy: SciencePolicy,
    pub english_required: usize,
    pub english_table: Vec<i32>,
}

impl UniversityWeight {
    pub fn new(
        korean: u32,
        math: u32,
        english: u32,
        science: u32,
        science_policy: SciencePolicy,
        english_required: usize,
        english_table: Vec<i32>,
    ) -> (r: UniversityWeight)
        ensures
            r == (UniversityWeight {
                korean,
                math,
                english,
                science,
                science_policy,
                english_required,
                english_table,
            }),
    {
        UniversityWeight {
            korean,
            math,
            english,
            science,
            science_policy,
            english_required,
            english_table,
        }
    }

    /// Looks up the weight table of `univ` for `year` in `catalog`.
    pub fn load(catalog: &WeightCatalog, univ: University, year: usize) -> (r: Result<
        &UniversityWeight,
        ScoreError,
    >)
        ensures
            owned(r) == catalog.resolve_spec(univ, year),
    {
        catalog.resolve(univ, year)
    }

    pub fn korean(&self) -> (r: u32)
        ensures
            r == self.korean,
    {
        self.korean
    }

    pub fn math(&self) -> (r: u32)
        ensures
            r == self.math,
    {
        self.math
    }

    pub fn english(&self) -> (r: u32)
        ensures
            r == self.english,
    {
        self.english
    }

    pub fn science(&self) -> (r: u32)
        ensures
            r == self.science,
    {
        self.science
    }

    /// How many elective sciences count: 1 for best-of-two, 2 for sum-of-two.
    pub fn science_required(&self) -> (r: usize)
        ensures
            r == (if self.science_policy == SciencePolicy::BestOfTwo { 1usize } else { 2usize }),
    {
        match self.science_policy {
            SciencePolicy::BestOfTwo => 1,
            SciencePolicy::SumOfTwo => 2,
        }
    }

    /// The English reference rank (the neutral baseline).
    pub fn english_required(&self) -> (r: usize)
        ensures
            r == self.english_required,
    {
        self.english_required
    }

    pub fn english_table(&self) -> (r: &Vec<i32>)
        ensures
            r@ == self.english_table@,
    {
        &self.english_table
    }
}

/// `r` with the table it refers to in place of the reference.
pub open spec fn owned(r: Result<&UniversityWeight, ScoreError>) -> Result<UniversityWeight, ScoreError> {
    match r {
        Ok(w) => Ok(*w),
        Err(e) => Err(e),
    }
}

/// A weight table filed under an institution and a year.
#[derive(Debug)]
pub struct CatalogEntry {
    pub university: University,
    pub year: usize,
    pub weight: UniversityWeight,
}

/// The table filed last under `(u, y)` among `entries`, if any.
pub open spec fn catalog_lookup(entries: Seq<CatalogEntry>, u: University, y: usize) -> Option<
    UniversityWeight,
>
    decreases entries.len(),
{
    if entries.len() == 0 {
        None
    } else if entries.last().university == u && entries.last().year == y {
        Some(entries.last().weight)
    } else {
        catalog_lookup(entries.drop_last(), u, y)
    }
}

/// `after` is `before` with `w` filed under `(u, y)`, and nothing else changed.
pub open spec fn filed(
    before: WeightCatalog,
    after: WeightCatalog,
    u: University,
    y: usize,
    w: UniversityWeight,
) -> bool {
    &&& after.table(u, y) == Some(w)
    &&& forall|u2: University, y2: usize|
        !(u2 == u && y2 == y) ==> #[trigger] after.table(u2, y2) == before.table(u2, y2)
}

/// The registry of weight tables, keyed by institution and year.
/// Filing a table under a key that is already present replaces it.
#[derive(Debug)]
pub struct WeightCatalog {
    entries: Vec<CatalogEntry>,
}

impl WeightCatalog {
    /// The table under `(u, y)`, if one is filed.
    pub closed spec fn table(&self, u: University, y: usize) -> Option<UniversityWeight> {
        catalog_lookup(self.entries@, u, y)
    }

    /// What `resolve` returns.
    pub open spec fn resolve_spec(&self, u: University, y: usize) -> Result<
        UniversityWeight,
        ScoreError,
    > {
        match self.table(u, y) {
            Some(w) => Ok(w),
            None => Err(ScoreError::UnsupportedCombination(u, y)),
        }
    }

    pub fn new() -> (r: WeightCatalog)
        ensures
            forall|u: University, y: usize| #[trigger] r.table(u, y) == None::<UniversityWeight>,
    {
        WeightCatalog { entries: Vec::new() }
    }

    /// Files `weight` under `(univ, year)`, replacing any earlier table there.
    pub fn add(&mut self, univ: University, year: usize, weight: UniversityWeight)
        ensures
            filed(*old(self), *final(self), univ, year, weight),
    {
        let ghost w = weight;
        self.entries.push(CatalogEntry { university: univ, year, weight });
        assert(self.entries@.drop_last() == old(self).entries@);
        assert(self.entries@.last().weight == w);
    }

    /// The table under `(univ, year)`, or `UnsupportedCombination`.
    pub fn resolve(&self, univ: University, year: usize) -> (r: Result<&UniversityWeight, ScoreError>)
        ensures
            owned(r) == self.resolve_spec(univ, year),
    {
        let mut i: usize = self.entries.len();
        assert(self.entries@.subrange(0, i as int) == self.entries@);
        while i > 0
            invariant
                i <= self.entries@.len(),
                catalog_lookup(self.entries@, univ, year) == catalog_lookup(
                    self.entries@.subrange(0, i as int),
                    univ,
                    year,
                ),
            decreases i,
        {
            let e = &self.entries[i - 1];
            assert(self.entries@.subrange(0, i as int).last() == self.entries@[i - 1]);
            if e.university == univ && e.year == year {
                return Ok(&e.weight);
            }
            assert(self.entries@.subrange(0, i as int).drop_last() == self.entries@.subrange(
                0,
                i - 1,
            ));
            i = i - 1;
        }
        Err(ScoreError::UnsupportedCombination(univ, year))
    }
}

} // verus!
