//! Classifications used by the keyword database: where a keyword came from,
//! how far a skill is adopted, and kinds of learning resources.
use vstd::prelude::*;

verus! {

/// Where a keyword was learned from.
#[derive(Debug, Clone, Copy, PartialEq, Eq, Structural)]
pub enum KeywordSource {
    JobPosting,
    UserFeedback,
    AIAnalysis,
    IndustryReport,
    TrendAnalysis,
    ManualCuration,
}

/// How far a skill is adopted in the market.
#[derive(Debug, Clone, Copy, PartialEq, Eq, Structural)]
pub enum AdoptionStage {
    /// Just appearing.
    Emerging,
    /// Gaining traction.
    Growing,
    /// Widely adopted.
    Mainstream,
    /// An established standard.
    Mature,
    /// Losing relevance.
    Declining,
}

/// Kind of a learning resource.
#[derive(Debug, Clone, Copy, PartialEq, Eq, Structural)]
pub enum ResourceType {
    Course,
    Certification,
    Book,
    Tutorial,
    Project,
    Bootcamp,
    Workshop,
    Conference,
}

} // verus!
