//! Admission score engine: per-subject score records, per-institution weight
//! tables, and the weighted aggregation that turns one into a single figure.
//!
//! All scores are fixed-point values in hundredths of a point (`13050` is
//! `130.50`). Weights are plain non-negative integers; only their ratios matter.

mod score;
mod weight;
mod calc;
mod laws;

pub use score::{Record, Score, ScoreError, Subject};
pub use weight::{CatalogEntry, SciencePolicy, University, UniversityWeight, WeightCatalog};
pub use calc::Fraction;
pub use laws::{lemma_add_then_resolve, lemma_calculate_deterministic, lemma_english_zero_weight, lemma_record_then_get, lemma_resolve_total};
