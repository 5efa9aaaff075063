//! Classifications of the optimization engine's insights, suggestions and
//! models.
use vstd::prelude::*;

verus! {

/// Kind of a predictive insight.
#[derive(Debug, Clone, Copy, PartialEq, Eq, Structural)]
pub enum PredictiveInsightType {
    CareerTrajectory,
    SkillDemandForecast,
    MarketOpportunity,
    LearningOutcome,
    JobMatchProbability,
    SalaryProgression,
    SkillGapEvolution,
    IndustryTrend,
    CompetitivePosition,
}

/// Kind of an improvement to the recommendation system.
#[derive(Debug, Clone, Copy, PartialEq, Eq, Structural)]
pub enum ImprovementType {
    AlgorithmOptimization,
    FeatureEngineering,
    ParameterTuning,
    ModelArchitecture,
    DataQuality,
    UserExperience,
    PersonalizationEnhancement,
    RealTimeAdaptation,
}

/// Effort of carrying out an improvement.
#[derive(Debug, Clone, Copy, PartialEq, Eq, Structural)]
pub enum ImplementationEffort {
    /// Less than a week.
    Low,
    /// One to two weeks.
    Medium,
    /// Two to four weeks.
    High,
    /// A month or more.
    Complex,
}

/// How a change is rolled out.
#[derive(Debug, Clone, Copy, PartialEq, Eq, Structural)]
pub enum RolloutType {
    Gradual,
    ABTest,
    BluGreen,
    CanaryRelease,
    FeatureFlag,
    Immediate,
}

/// How two features interact.
#[derive(Debug, Clone, Copy, PartialEq, Eq, Structural)]
pub enum InteractionType {
    /// The features enhance each other.
    Synergistic,
    /// The features compete for influence.
    Competitive,
    /// The effect of one depends on the other.
    Conditional,
    /// The features carry similar information.
    Redundant,
    /// The features complete each other's information.
    Complementary,
}

/// State of a training run.
#[derive(Debug, Clone, Copy, PartialEq, Eq, Structural)]
pub enum ConvergenceStatus {
    Converged,
    Converging,
    Oscillating,
    Diverging,
    StagnantImprovement,
    EarlyStopped,
}

/// Kind of an optimization suggestion for a model.
#[derive(Debug, Clone, Copy, PartialEq, Eq, Structural)]
pub enum OptimizationSuggestionType {
    HyperparameterTuning,
    FeatureEngineering,
    DataAugmentation,
    ModelEnsemble,
    ArchitectureChange,
    RegularizationAdjustment,
    LearningRateOptimization,
    BatchSizeOptimization,
    EarlyStoppingTuning,
    CrossValidationStrategy,
}

/// Risk of a change.
#[derive(Debug, Clone, Copy, PartialEq, Eq, Structural)]
pub enum RiskLevel {
    Low,
    Medium,
    High,
    Critical,
}

/// Kind of a prediction model.
#[derive(Debug, Clone, Copy, PartialEq, Eq, Structural)]
pub enum ModelType {
    LinearRegression,
    LogisticRegression,
    RandomForest,
    GradientBoosting,
    NeuralNetwork,
    EnsembleModel,
}

} // verus!
