//! Reviews with four-dimensional scoring.
//!
//! No single star rating. Four separate dimensions, each scored 1-5:
//! - **Reliability**: showed up, completed on time, didn't cancel
//! - **Quality**: work met expectations and description
//! - **Communication**: responsive, clear, professional
//! - **Integrity**: honest, no disputes, followed platform rules

use vstd::prelude::*;
use vstd::string::StringExecFns;

verus! {

/// Lowest and highest score of a dimension.
pub const MIN_SCORE: i16 = 1;

pub const MAX_SCORE: i16 = 5;

/// From this score on, a dimension counts as positive.
pub const POSITIVE_SCORE: i16 = 3;

/// Whether a score lies on the scale.
pub open spec fn score_on_scale(score: int) -> bool {
    1 <= score <= 5
}

/// The name of the first dimension, in the order reliability, quality,
/// communication, integrity, whose score is off the scale.
pub open spec fn first_invalid_dimension(
    reliability: int,
    quality: int,
    communication: int,
    integrity: int,
) -> Option<Seq<char>> {
    if !score_on_scale(reliability) {
        Some("reliability"@)
    } else if !score_on_scale(quality) {
        Some("quality"@)
    } else if !score_on_scale(communication) {
        Some("communication"@)
    } else if !score_on_scale(integrity) {
        Some("integrity"@)
    } else {
        None
    }
}

#[derive(Debug, Clone, PartialEq, Eq)]
pub struct CreateReviewRequest {
    pub reliability: i16,
    pub quality: i16,
    pub communication: i16,
    pub integrity: i16,
    pub comment: Option<String>,
}

impl CreateReviewRequest {
    /// The first dimension of this review that is off the scale, if any.
    pub open spec fn first_invalid(&self) -> Option<Seq<char>> {
        first_invalid_dimension(
            self.reliability as int,
            self.quality as int,
            self.communication as int,
            self.integrity as int,
        )
    }

    /// All four dimensions are at least 3.
    pub open spec fn positive(&self) -> bool {
        self.reliability >= 3 && self.quality >= 3 && self.communication >= 3 && self.integrity
            >= 3
    }

    /// Accepts a review whose four scores all lie between 1 and 5; otherwise
    /// names the first dimension that does not.
    pub fn validate(&self) -> (r: Result<(), String>)
        ensures
            match r {
                Ok(_) => self.first_invalid() is None,
                Err(message) => self.first_invalid() matches Some(name) && message@ == name
                    + " must be between 1 and 5"@,
            },
    {
        let name: &'static str = if self.reliability < MIN_SCORE || self.reliability > MAX_SCORE {
            "reliability"
        } else if self.quality < MIN_SCORE || self.quality > MAX_SCORE {
            "quality"
        } else if self.communication < MIN_SCORE || self.communication > MAX_SCORE {
            "communication"
        } else if self.integrity < MIN_SCORE || self.integrity > MAX_SCORE {
            "integrity"
        } else {
            return Ok(());
        };
        let mut message = String::from_str(name);
        message.append(" must be between 1 and 5");
        Err(message)
    }

    /// A review is "positive" if all dimensions are >= 3.
    pub fn is_positive(&self) -> (p: bool)
        ensures
            p == self.positive(),
    {
        self.reliability >= POSITIVE_SCORE && self.quality >= POSITIVE_SCORE && self.communication
            >= POSITIVE_SCORE && self.integrity >= POSITIVE_SCORE
    }
}

} // verus!
