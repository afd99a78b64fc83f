use vstd::prelude::*;
use crate::weight::University;

verus! {

/// One subject's result: standard score and percentile in hundredths, and rank.
#[derive(Debug, Clone, Copy, PartialEq, Eq, Structural)]
pub struct Score {
    pub standard_score: i32,
    pub percentile: i32,
    pub rank: usize,
}

impl Score {
    pub fn new(standard_score: i32, percentile: i32, rank: usize) -> (r: Score)
        ensures
            r == (Score { standard_score, percentile, rank }),
    {
        Score { standard_score, percentile, rank }
    }

    pub fn standard_score(&self) -> (r: i32)
        ensures
            r == self.standard_score,
    {
        self.standard_score
    }

    pub fn percentile(&self) -> (r: i32)
        ensures
            r == self.percentile,
    {
        self.percentile
    }

    pub fn rank(&self) -> (r: usize)
        ensures
            r == self.rank,
    {
        self.rank
    }
}

/// The closed set of examined subjects.
#[derive(Debug, Clone, Copy, PartialEq, Eq, Structural, Hash)]
pub enum Subject {
    Korean,
    Math,
    English,
    Chemistry,
    EarthScience,
}

pub open spec fn subject_name(s: Subject) -> Seq<char> {
    match s {
        Subject::Korean => "Korean"@,
        Subject::Math => "Math"@,
        Subject::English => "English"@,
        Subject::Chemistry => "Chemistry"@,
        Subject::EarthScience => "EarthScience"@,
    }
}

impl Subject {
    /// The key under which the subject is stored.
    pub fn name(&self) -> (r: &'static str)
        ensures
            r@ == subject_name(*self),
    {
        match self {
            Subject::Korean => "Korean",
            Subject::Math => "Math",
            Subject::English => "English",
            Subject::Chemistry => "Chemistry",
            Subject::EarthScience => "EarthScience",
        }
    }
}

/// Why a score could not be produced.
#[derive(Debug, Clone, Copy, PartialEq, Eq, Structural)]
pub enum ScoreError {
    /// The subject was never recorded.
    MissingSubject(Subject),
    /// The catalog holds no weight table for this institution and year.
    UnsupportedCombination(University, usize),
    /// The English rank table has no entry for this rank.
    RankOutOfRange(usize),
    /// Korean, Math and Science weights sum to zero.
    InvalidWeightTable,
}

/// `after` is `before` with `t` recorded for `subject`, and nothing else changed.
pub open spec fn updated(before: Record, after: Record, subject: Subject, t: Score) -> bool {
    &&& after.student() == before.student()
    &&& after.entry(subject) == Some(t)
    &&& forall|s: Subject| s != subject ==> #[trigger] after.entry(s) == before.entry(s)
}

/// A student's score sheet: at most one entry per subject.
#[derive(Debug)]
pub struct Record {
    name: String,
    korean: Option<Score>,
    math: Option<Score>,
    english: Option<Score>,
    chemistry: Option<Score>,
    earth_science: Option<Score>,
}

impl Record {
    pub closed spec fn student(&self) -> Seq<char> {
        self.name@
    }

    /// The entry recorded for `s`, if any.
    pub closed spec fn entry(&self, s: Subject) -> Option<Score> {
        match s {
            Subject::Korean => self.korean,
            Subject::Math => self.math,
            Subject::English => self.english,
            Subject::Chemistry => self.chemistry,
            Subject::EarthScience => self.earth_science,
        }
    }

    /// What `get` returns for `s`.
    pub open spec fn lookup(&self, s: Subject) -> Result<Score, ScoreError> {
        match self.entry(s) {
            Some(t) => Ok(t),
            None => Err(ScoreError::MissingSubject(s)),
        }
    }

    /// Whether every subject has an entry.
    pub open spec fn complete(&self) -> bool {
        forall|s: Subject| (#[trigger] self.entry(s)) is Some
    }

    /// The entry for `s` as it is stored: English keeps only its rank.
    pub open spec fn stored(&self, s: Subject) -> Score {
        if s == Subject::English {
            Score { standard_score: 0, percentile: 0, rank: self.entry(s)->Some_0.rank }
        } else {
            self.entry(s)->Some_0
        }
    }

    /// The first subject, in storage order, that has no entry.
    pub open spec fn first_missing(&self) -> Subject {
        if self.entry(Subject::Korean) is None {
            Subject::Korean
        } else if self.entry(Subject::Math) is None {
            Subject::Math
        } else if self.entry(Subject::English) is None {
            Subject::English
        } else if self.entry(Subject::Chemistry) is None {
            Subject::Chemistry
        } else {
            Subject::EarthScience
        }
    }

    pub fn new(name: &str) -> (r: Record)
        ensures
            r.student() == name@,
            forall|s: Subject| #[trigger] r.entry(s) == None::<Score>,
    {
        Record {
            name: name.to_owned(),
            korean: None,
            math: None,
            english: None,
            chemistry: None,
            earth_science: None,
        }
    }

    /// Records `subject`, replacing any earlier entry for it.
    pub fn record(&mut self, subject: Subject, standard_score: i32, percentile: i32, rank: usize)
        ensures
            updated(*old(self), *final(self), subject, Score { standard_score, percentile, rank }),
    {
        let t = Score { standard_score, percentile, rank };
        match subject {
            Subject::Korean => self.korean = Some(t),
            Subject::Math => self.math = Some(t),
            Subject::English => self.english = Some(t),
            Subject::Chemistry => self.chemistry = Some(t),
            Subject::EarthScience => self.earth_science = Some(t),
        }
    }

    pub fn name(&self) -> (r: &str)
        ensures
            r@ == self.student(),
    {
        self.name.as_str()
    }

    /// The entry for `subject`, or `MissingSubject` when there is none.
    pub fn get(&self, subject: Subject) -> (r: Result<Score, ScoreError>)
        ensures
            r == self.lookup(subject),
    {
        let e = match subject {
            Subject::Korean => self.korean,
            Subject::Math => self.math,
            Subject::English => self.english,
            Subject::Chemistry => self.chemistry,
            Subject::EarthScience => self.earth_science,
        };
        match e {
            Some(t) => Ok(t),
            None => Err(ScoreError::MissingSubject(subject)),
        }
    }

    pub fn korean(&self) -> (r: Result<Score, ScoreError>)
        ensures
            r == self.lookup(Subject::Korean),
    {
        self.get(Subject::Korean)
    }

    pub fn math(&self) -> (r: Result<Score, ScoreError>)
        ensures
            r == self.lookup(Subject::Math),
    {
        self.get(Subject::Math)
    }

    pub fn english(&self) -> (r: Result<Score, ScoreError>)
        ensures
            r == self.lookup(Subject::English),
    {
        self.get(Subject::English)
    }

    pub fn chemistry(&self) -> (r: Result<Score, ScoreError>)
        ensures
            r == self.lookup(Subject::Chemistry),
    {
        self.get(Subject::Chemistry)
    }

    pub fn earth_science(&self) -> (r: Result<Score, ScoreError>)
        ensures
            r == self.lookup(Subject::EarthScience),
    {
        self.get(Subject::EarthScience)
    }

    pub fn standard_score(&self, subject: Subject) -> (r: Result<i32, ScoreError>)
        ensures
            r == (match self.lookup(subject) {
                Ok(t) => Ok(t.standard_score),
                Err(e) => Err(e),
            }),
    {
        match self.get(subject) {
            Ok(t) => Ok(t.standard_score),
            Err(e) => Err(e),
        }
    }

    pub fn percentile(&self, subject: Subject) -> (r: Result<i32, ScoreError>)
        ensures
            r == (match self.lookup(subject) {
                Ok(t) => Ok(t.percentile),
                Err(e) => Err(e),
            }),
    {
        match self.get(subject) {
            Ok(t) => Ok(t.percentile),
            Err(e) => Err(e),
        }
    }

    pub fn rank(&self, subject: Subject) -> (r: Result<usize, ScoreError>)
        ensures
            r == (match self.lookup(subject) {
                Ok(t) => Ok(t.rank),
                Err(e) => Err(e),
            }),
    {
        match self.get(subject) {
            Ok(t) => Ok(t.rank),
            Err(e) => Err(e),
        }
    }

    /// The five stored columns, keyed by subject, in storage order. English is
    /// stored as `(0, 0, rank)`: only its rank takes part in scoring.
    pub fn to_columns(&self) -> (r: Result<Vec<(Subject, Score)>, ScoreError>)
        ensures
            r is Ok <==> self.complete(),
            r is Err ==> r->Err_0 == ScoreError::MissingSubject(self.first_missing()),
            r is Ok ==> r->Ok_0@ == seq![
                (Subject::Korean, self.stored(Subject::Korean)),
                (Subject::Math, self.stored(Subject::Math)),
                (Subject::English, self.stored(Subject::English)),
                (Subject::Chemistry, self.stored(Subject::Chemistry)),
                (Subject::EarthScience, self.stored(Subject::EarthScience)),
            ],
    {
        let korean = match self.get(Subject::Korean) {
            Ok(t) => t,
            Err(e) => return Err(e),
        };
        let math = match self.get(Subject::Math) {
            Ok(t) => t,
            Err(e) => return Err(e),
        };
        let english = match self.get(Subject::English) {
            Ok(t) => t,
            Err(e) => return Err(e),
        };
        let chemistry = match self.get(Subject::Chemistry) {
            Ok(t) => t,
            Err(e) => return Err(e),
        };
        let earth_science = match self.get(Subject::EarthScience) {
            Ok(t) => t,
            Err(e) => return Err(e),
        };
        proof {
            assert forall|s: Subject| (#[trigger] self.entry(s)) is Some by {
                match s {
                    Subject::Korean => {},
                    Subject::Math => {},
                    Subject::English => {},
                    Subject::Chemistry => {},
                    Subject::EarthScience => {},
                }
            }
        }
        let mut cols: Vec<(Subject, Score)> = Vec::new();
        cols.push((Subject::Korean, korean));
        cols.push((Subject::Math, math));
        cols.push((Subject::English, Score { standard_score: 0, percentile: 0, rank: english.rank }));
        cols.push((Subject::Chemistry, chemistry));
        cols.push((Subject::EarthScience, earth_science));
        Ok(cols)
    }

    /// Rebuilds a record from its stored columns. English keeps only its
    /// rank; its standard score and percentile come back as zero.
    pub fn from_columns(
        name: &str,
        korean: Score,
        math: Score,
        english: Score,
        chemistry: Score,
        earth_science: Score,
    ) -> (r: Record)
        ensures
            r.student() == name@,
            r.entry(Subject::Korean) == Some(korean),
            r.entry(Subject::Math) == Some(math),
            r.entry(Subject::English) == Some(
                Score { standard_score: 0, percentile: 0, rank: english.rank },
            ),
            r.entry(Subject::Chemistry) == Some(chemistry),
            r.entry(Subject::EarthScience) == Some(earth_science),
    {
        let mut r = Record::new(name);
        r.record(Subject::Korean, korean.standard_score, korean.percentile, korean.rank);
        r.record(Subject::Math, math.standard_score, math.percentile, math.rank);
        r.record(Subject::English, 0, 0, english.rank);
        r.record(Subject::Chemistry, chemistry.standard_score, chemistry.percentile, chemistry.rank);
        r.record(
            Subject::EarthScience,
            earth_science.standard_score,
            earth_science.percentile,
            earth_science.rank,
        );
        r
    }
}

} // verus!
