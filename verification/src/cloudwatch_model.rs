//! CloudWatch service model: enumerations, shared shapes, and the request
//! shapes of its operations.

use vstd::prelude::*;
use crate::text::str_eq;

verus! {
/// CloudWatch ActionsSuppressedBy enum.
#[derive(Debug, Clone, Copy, PartialEq, Eq, Structural, Hash, Default)]
pub enum ActionsSuppressedBy {
    #[default]
    Alarm,
    ExtensionPeriod,
    WaitPeriod,
}

impl ActionsSuppressedBy {
    /// The wire-format name of this variant.
    pub open spec fn wire(self) -> Seq<char> {
        match self {
            ActionsSuppressedBy::Alarm => "Alarm"@,
            ActionsSuppressedBy::ExtensionPeriod => "ExtensionPeriod"@,
            ActionsSuppressedBy::WaitPeriod => "WaitPeriod"@,
        }
    }

    /// The variant named by a wire string; unknown names give the default variant.
    pub open spec fn spec_from_wire(s: Seq<char>) -> ActionsSuppressedBy {
        if s == "Alarm"@ {
            ActionsSuppressedBy::Alarm
        } else if s == "ExtensionPeriod"@ {
            ActionsSuppressedBy::ExtensionPeriod
        } else if s == "WaitPeriod"@ {
            ActionsSuppressedBy::WaitPeriod
        } else {
            ActionsSuppressedBy::Alarm
        }
    }

    /// Returns the string value of this enum variant.
    pub fn as_str(&self) -> (r: &'static str)
        ensures
            r@ == self.wire(),
    {
        match self {
            ActionsSuppressedBy::Alarm => "Alarm",
            ActionsSuppressedBy::ExtensionPeriod => "ExtensionPeriod",
            ActionsSuppressedBy::WaitPeriod => "WaitPeriod",
        }
    }

    /// Parses a wire-format name; unknown names give the default variant.
    pub fn from_wire(s: &str) -> (r: ActionsSuppressedBy)
        ensures
            r == ActionsSuppressedBy::spec_from_wire(s@),
    {
        if str_eq(s, "Alarm") {
            ActionsSuppressedBy::Alarm
        } else if str_eq(s, "ExtensionPeriod") {
            ActionsSuppressedBy::ExtensionPeriod
        } else if str_eq(s, "WaitPeriod") {
            ActionsSuppressedBy::WaitPeriod
        } else {
            ActionsSuppressedBy::Alarm
        }
    }

    /// Parsing the wire name of a variant gives that variant back.
    pub proof fn lemma_wire_roundtrip(self)
        ensures
            ActionsSuppressedBy::spec_from_wire(self.wire()) == self,
    {
        reveal_strlit("Alarm");
        reveal_strlit("ExtensionPeriod");
        reveal_strlit("WaitPeriod");
        assert("Alarm"@.len() == 5);
        assert("ExtensionPeriod"@.len() == 15);
        assert("WaitPeriod"@.len() == 10);
    }
}

/// CloudWatch AlarmType enum.
#[derive(Debug, Clone, Copy, PartialEq, Eq, Structural, Hash, Default)]
pub enum AlarmType {
    #[default]
    CompositeAlarm,
    MetricAlarm,
}

impl AlarmType {
    /// The wire-format name of this variant.
    pub open spec fn wire(self) -> Seq<char> {
        match self {
            AlarmType::CompositeAlarm => "CompositeAlarm"@,
            AlarmType::MetricAlarm => "MetricAlarm"@,
        }
    }

    /// The variant named by a wire string; unknown names give the default variant.
    pub open spec fn spec_from_wire(s: Seq<char>) -> AlarmType {
        if s == "CompositeAlarm"@ {
            AlarmType::CompositeAlarm
        } else if s == "MetricAlarm"@ {
            AlarmType::MetricAlarm
        } else {
            AlarmType::CompositeAlarm
        }
    }

    /// Returns the string value of this enum variant.
    pub fn as_str(&self) -> (r: &'static str)
        ensures
            r@ == self.wire(),
    {
        match self {
            AlarmType::CompositeAlarm => "CompositeAlarm",
            AlarmType::MetricAlarm => "MetricAlarm",
        }
    }

    /// Parses a wire-format name; unknown names give the default variant.
    pub fn from_wire(s: &str) -> (r: AlarmType)
        ensures
            r == AlarmType::spec_from_wire(s@),
    {
        if str_eq(s, "CompositeAlarm") {
            AlarmType::CompositeAlarm
        } else if str_eq(s, "MetricAlarm") {
            AlarmType::MetricAlarm
        } else {
            AlarmType::CompositeAlarm
        }
    }

    /// Parsing the wire name of a variant gives that variant back.
    pub proof fn lemma_wire_roundtrip(self)
        ensures
            AlarmType::spec_from_wire(self.wire()) == self,
    {
        reveal_strlit("CompositeAlarm");
        reveal_strlit("MetricAlarm");
        assert("CompositeAlarm"@.len() == 14);
        assert("MetricAlarm"@.len() == 11);
    }
}

/// CloudWatch AnomalyDetectorStateValue enum.
#[derive(Debug, Clone, Copy, PartialEq, Eq, Structural, Hash, Default)]
pub enum AnomalyDetectorStateValue {
    #[default]
    PendingTraining,
    Trained,
    TrainedInsufficientData,
}

impl AnomalyDetectorStateValue {
    /// The wire-format name of this variant.
    pub open spec fn wire(self) -> Seq<char> {
        match self {
            AnomalyDetectorStateValue::PendingTraining => "PENDING_TRAINING"@,
            AnomalyDetectorStateValue::Trained => "TRAINED"@,
            AnomalyDetectorStateValue::TrainedInsufficientData => "TRAINED_INSUFFICIENT_DATA"@,
        }
    }

    /// The variant named by a wire string; unknown names give the default variant.
    pub open spec fn spec_from_wire(s: Seq<char>) -> AnomalyDetectorStateValue {
        if s == "PENDING_TRAINING"@ {
            AnomalyDetectorStateValue::PendingTraining
        } else if s == "TRAINED"@ {
            AnomalyDetectorStateValue::Trained
        } else if s == "TRAINED_INSUFFICIENT_DATA"@ {
            AnomalyDetectorStateValue::TrainedInsufficientData
        } else {
            AnomalyDetectorStateValue::PendingTraining
        }
    }

    /// Returns the string value of this enum variant.
    pub fn as_str(&self) -> (r: &'static str)
        ensures
            r@ == self.wire(),
    {
        match self {
            AnomalyDetectorStateValue::PendingTraining => "PENDING_TRAINING",
            AnomalyDetectorStateValue::Trained => "TRAINED",
            AnomalyDetectorStateValue::TrainedInsufficientData => "TRAINED_INSUFFICIENT_DATA",
        }
    }

    /// Parses a wire-format name; unknown names give the default variant.
    pub fn from_wire(s: &str) -> (r: AnomalyDetectorStateValue)
        ensures
            r == AnomalyDetectorStateValue::spec_from_wire(s@),
    {
        if str_eq(s, "PENDING_TRAINING") {
            AnomalyDetectorStateValue::PendingTraining
        } else if str_eq(s, "TRAINED") {
            AnomalyDetectorStateValue::Trained
        } else if str_eq(s, "TRAINED_INSUFFICIENT_DATA") {
            AnomalyDetectorStateValue::TrainedInsufficientData
        } else {
            AnomalyDetectorStateValue::PendingTraining
        }
    }

    /// Parsing the wire name of a variant gives that variant back.
    pub proof fn lemma_wire_roundtrip(self)
        ensures
            AnomalyDetectorStateValue::spec_from_wire(self.wire()) == self,
    {
        reveal_strlit("PENDING_TRAINING");
        reveal_strlit("TRAINED");
        reveal_strlit("TRAINED_INSUFFICIENT_DATA");
        assert("PENDING_TRAINING"@.len() == 16);
        assert("TRAINED"@.len() == 7);
        assert("TRAINED_INSUFFICIENT_DATA"@.len() == 25);
    }
}

/// CloudWatch AnomalyDetectorType enum.
#[derive(Debug, Clone, Copy, PartialEq, Eq, Structural, Hash, Default)]
pub enum AnomalyDetectorType {
    #[default]
    MetricMath,
    SingleMetric,
}

impl AnomalyDetectorType {
    /// The wire-format name of this variant.
    pub open spec fn wire(self) -> Seq<char> {
        match self {
            AnomalyDetectorType::MetricMath => "METRIC_MATH"@,
            AnomalyDetectorType::SingleMetric => "SINGLE_METRIC"@,
        }
    }

    /// The variant named by a wire string; unknown names give the default variant.
    pub open spec fn spec_from_wire(s: Seq<char>) -> AnomalyDetectorType {
        if s == "METRIC_MATH"@ {
            AnomalyDetectorType::MetricMath
        } else if s == "SINGLE_METRIC"@ {
            AnomalyDetectorType::SingleMetric
        } else {
            AnomalyDetectorType::MetricMath
        }
    }

    /// Returns the string value of this enum variant.
    pub fn as_str(&self) -> (r: &'static str)
        ensures
            r@ == self.wire(),
    {
        match self {
            AnomalyDetectorType::MetricMath => "METRIC_MATH",
            AnomalyDetectorType::SingleMetric => "SINGLE_METRIC",
        }
    }

    /// Parses a wire-format name; unknown names give the default variant.
    pub fn from_wire(s: &str) -> (r: AnomalyDetectorType)
        ensures
            r == AnomalyDetectorType::spec_from_wire(s@),
    {
        if str_eq(s, "METRIC_MATH") {
            AnomalyDetectorType::MetricMath
        } else if str_eq(s, "SINGLE_METRIC") {
            AnomalyDetectorType::SingleMetric
        } else {
            AnomalyDetectorType::MetricMath
        }
    }

    /// Parsing the wire name of a variant gives that variant back.
    pub proof fn lemma_wire_roundtrip(self)
        ensures
            AnomalyDetectorType::spec_from_wire(self.wire()) == self,
    {
        reveal_strlit("METRIC_MATH");
        reveal_strlit("SINGLE_METRIC");
        assert("METRIC_MATH"@.len() == 11);
        assert("SINGLE_METRIC"@.len() == 13);
    }
}

/// CloudWatch ComparisonOperator enum.
#[derive(Debug, Clone, Copy, PartialEq, Eq, Structural, Hash, Default)]
pub enum ComparisonOperator {
    #[default]
    GreaterThanOrEqualToThreshold,
    GreaterThanThreshold,
    GreaterThanUpperThreshold,
    LessThanLowerOrGreaterThanUpperThreshold,
    LessThanLowerThreshold,
    LessThanOrEqualToThreshold,
    LessThanThreshold,
}

impl ComparisonOperator {
    /// The wire-format name of this variant.
    pub open spec fn wire(self) -> Seq<char> {
        match self {
            ComparisonOperator::GreaterThanOrEqualToThreshold => "GreaterThanOrEqualToThreshold"@,
            ComparisonOperator::GreaterThanThreshold => "GreaterThanThreshold"@,
            ComparisonOperator::GreaterThanUpperThreshold => "GreaterThanUpperThreshold"@,
            ComparisonOperator::LessThanLowerOrGreaterThanUpperThreshold => "LessThanLowerOrGreaterThanUpperThreshold"@,
            ComparisonOperator::LessThanLowerThreshold => "LessThanLowerThreshold"@,
            ComparisonOperator::LessThanOrEqualToThreshold => "LessThanOrEqualToThreshold"@,
            ComparisonOperator::LessThanThreshold => "LessThanThreshold"@,
        }
    }

    /// The variant named by a wire string; unknown names give the default variant.
    pub open spec fn spec_from_wire(s: Seq<char>) -> ComparisonOperator {
        if s == "GreaterThanOrEqualToThreshold"@ {
            ComparisonOperator::GreaterThanOrEqualToThreshold
        } else if s == "GreaterThanThreshold"@ {
            ComparisonOperator::GreaterThanThreshold
        } else if s == "GreaterThanUpperThreshold"@ {
            ComparisonOperator::GreaterThanUpperThreshold
        } else if s == "LessThanLowerOrGreaterThanUpperThreshold"@ {
            ComparisonOperator::LessThanLowerOrGreaterThanUpperThreshold
        } else if s == "LessThanLowerThreshold"@ {
            ComparisonOperator::LessThanLowerThreshold
        } else if s == "LessThanOrEqualToThreshold"@ {
            ComparisonOperator::LessThanOrEqualToThreshold
        } else if s == "LessThanThreshold"@ {
            ComparisonOperator::LessThanThreshold
        } else {
            ComparisonOperator::GreaterThanOrEqualToThreshold
        }
    }

    /// Returns the string value of this enum variant.
    pub fn as_str(&self) -> (r: &'static str)
        ensures
            r@ == self.wire(),
    {
        match self {
            ComparisonOperator::GreaterThanOrEqualToThreshold => "GreaterThanOrEqualToThreshold",
            ComparisonOperator::GreaterThanThreshold => "GreaterThanThreshold",
            ComparisonOperator::GreaterThanUpperThreshold => "GreaterThanUpperThreshold",
            ComparisonOperator::LessThanLowerOrGreaterThanUpperThreshold => "LessThanLowerOrGreaterThanUpperThreshold",
            ComparisonOperator::LessThanLowerThreshold => "LessThanLowerThreshold",
            ComparisonOperator::LessThanOrEqualToThreshold => "LessThanOrEqualToThreshold",
            ComparisonOperator::LessThanThreshold => "LessThanThreshold",
        }
    }

    /// Parses a wire-format name; unknown names give the default variant.
    pub fn from_wire(s: &str) -> (r: ComparisonOperator)
        ensures
            r == ComparisonOperator::spec_from_wire(s@),
    {
        if str_eq(s, "GreaterThanOrEqualToThreshold") {
            ComparisonOperator::GreaterThanOrEqualToThreshold
        } else if str_eq(s, "GreaterThanThreshold") {
            ComparisonOperator::GreaterThanThreshold
        } else if str_eq(s, "GreaterThanUpperThreshold") {
            ComparisonOperator::GreaterThanUpperThreshold
        } else if str_eq(s, "LessThanLowerOrGreaterThanUpperThreshold") {
            ComparisonOperator::LessThanLowerOrGreaterThanUpperThreshold
        } else if str_eq(s, "LessThanLowerThreshold") {
            ComparisonOperator::LessThanLowerThreshold
        } else if str_eq(s, "LessThanOrEqualToThreshold") {
            ComparisonOperator::LessThanOrEqualToThreshold
        } else if str_eq(s, "LessThanThreshold") {
            ComparisonOperator::LessThanThreshold
        } else {
            ComparisonOperator::GreaterThanOrEqualToThreshold
        }
    }

    /// Parsing the wire name of a variant gives that variant back.
    pub proof fn lemma_wire_roundtrip(self)
        ensures
            ComparisonOperator::spec_from_wire(self.wire()) == self,
    {
        reveal_strlit("GreaterThanOrEqualToThreshold");
        reveal_strlit("GreaterThanThreshold");
        reveal_strlit("GreaterThanUpperThreshold");
        reveal_strlit("LessThanLowerOrGreaterThanUpperThreshold");
        reveal_strlit("LessThanLowerThreshold");
        reveal_strlit("LessThanOrEqualToThreshold");
        reveal_strlit("LessThanThreshold");
        assert("GreaterThanOrEqualToThreshold"@.len() == 29);
        assert("GreaterThanThreshold"@.len() == 20);
        assert("GreaterThanUpperThreshold"@.len() == 25);
        assert("LessThanLowerOrGreaterThanUpperThreshold"@.len() == 40);
        assert("LessThanLowerThreshold"@.len() == 22);
        assert("LessThanOrEqualToThreshold"@.len() == 26);
        assert("LessThanThreshold"@.len() == 17);
    }
}

/// CloudWatch EvaluationState enum.
#[derive(Debug, Clone, Copy, PartialEq, Eq, Structural, Hash, Default)]
pub enum EvaluationState {
    #[default]
    EvaluationError,
    EvaluationFailure,
    PartialData,
}

impl EvaluationState {
    /// The wire-format name of this variant.
    pub open spec fn wire(self) -> Seq<char> {
        match self {
            EvaluationState::EvaluationError => "EVALUATION_ERROR"@,
            EvaluationState::EvaluationFailure => "EVALUATION_FAILURE"@,
            EvaluationState::PartialData => "PARTIAL_DATA"@,
        }
    }

    /// The variant named by a wire string; unknown names give the default variant.
    pub open spec fn spec_from_wire(s: Seq<char>) -> EvaluationState {
        if s == "EVALUATION_ERROR"@ {
            EvaluationState::EvaluationError
        } else if s == "EVALUATION_FAILURE"@ {
            EvaluationState::EvaluationFailure
        } else if s == "PARTIAL_DATA"@ {
            EvaluationState::PartialData
        } else {
            EvaluationState::EvaluationError
        }
    }

    /// Returns the string value of this enum variant.
    pub fn as_str(&self) -> (r: &'static str)
        ensures
            r@ == self.wire(),
    {
        match self {
            EvaluationState::EvaluationError => "EVALUATION_ERROR",
            EvaluationState::EvaluationFailure => "EVALUATION_FAILURE",
            EvaluationState::PartialData => "PARTIAL_DATA",
        }
    }

    /// Parses a wire-format name; unknown names give the default variant.
    pub fn from_wire(s: &str) -> (r: EvaluationState)
        ensures
            r == EvaluationState::spec_from_wire(s@),
    {
        if str_eq(s, "EVALUATION_ERROR") {
            EvaluationState::EvaluationError
        } else if str_eq(s, "EVALUATION_FAILURE") {
            EvaluationState::EvaluationFailure
        } else if str_eq(s, "PARTIAL_DATA") {
            EvaluationState::PartialData
        } else {
            EvaluationState::EvaluationError
        }
    }

    /// Parsing the wire name of a variant gives that variant back.
    pub proof fn lemma_wire_roundtrip(self)
        ensures
            EvaluationState::spec_from_wire(self.wire()) == self,
    {
        reveal_strlit("EVALUATION_ERROR");
        reveal_strlit("EVALUATION_FAILURE");
        reveal_strlit("PARTIAL_DATA");
        assert("EVALUATION_ERROR"@.len() == 16);
        assert("EVALUATION_FAILURE"@.len() == 18);
        assert("PARTIAL_DATA"@.len() == 12);
    }
}

/// CloudWatch HistoryItemType enum.
#[derive(Debug, Clone, Copy, PartialEq, Eq, Structural, Hash, Default)]
pub enum HistoryItemType {
    #[default]
    Action,
    AlarmContributorAction,
    AlarmContributorStateUpdate,
    ConfigurationUpdate,
    StateUpdate,
}

impl HistoryItemType {
    /// The wire-format name of this variant.
    pub open spec fn wire(self) -> Seq<char> {
        match self {
            HistoryItemType::Action => "Action"@,
            HistoryItemType::AlarmContributorAction => "AlarmContributorAction"@,
            HistoryItemType::AlarmContributorStateUpdate => "AlarmContributorStateUpdate"@,
            HistoryItemType::ConfigurationUpdate => "ConfigurationUpdate"@,
            HistoryItemType::StateUpdate => "StateUpdate"@,
        }
    }

    /// The variant named by a wire string; unknown names give the default variant.
    pub open spec fn spec_from_wire(s: Seq<char>) -> HistoryItemType {
        if s == "Action"@ {
            HistoryItemType::Action
        } else if s == "AlarmContributorAction"@ {
            HistoryItemType::AlarmContributorAction
        } else if s == "AlarmContributorStateUpdate"@ {
            HistoryItemType::AlarmContributorStateUpdate
        } else if s == "ConfigurationUpdate"@ {
            HistoryItemType::ConfigurationUpdate
        } else if s == "StateUpdate"@ {
            HistoryItemType::StateUpdate
        } else {
            HistoryItemType::Action
        }
    }

    /// Returns the string value of this enum variant.
    pub fn as_str(&self) -> (r: &'static str)
        ensures
            r@ == self.wire(),
    {
        match self {
            HistoryItemType::Action => "Action",
            HistoryItemType::AlarmContributorAction => "AlarmContributorAction",
            HistoryItemType::AlarmContributorStateUpdate => "AlarmContributorStateUpdate",
            HistoryItemType::ConfigurationUpdate => "ConfigurationUpdate",
            HistoryItemType::StateUpdate => "StateUpdate",
        }
    }

    /// Parses a wire-format name; unknown names give the default variant.
    pub fn from_wire(s: &str) -> (r: HistoryItemType)
        ensures
            r == HistoryItemType::spec_from_wire(s@),
    {
        if str_eq(s, "Action") {
            HistoryItemType::Action
        } else if str_eq(s, "AlarmContributorAction") {
            HistoryItemType::AlarmContributorAction
        } else if str_eq(s, "AlarmContributorStateUpdate") {
            HistoryItemType::AlarmContributorStateUpdate
        } else if str_eq(s, "ConfigurationUpdate") {
            HistoryItemType::ConfigurationUpdate
        } else if str_eq(s, "StateUpdate") {
            HistoryItemType::StateUpdate
        } else {
            HistoryItemType::Action
        }
    }

    /// Parsing the wire name of a variant gives that variant back.
    pub proof fn lemma_wire_roundtrip(self)
        ensures
            HistoryItemType::spec_from_wire(self.wire()) == self,
    {
        reveal_strlit("Action");
        reveal_strlit("AlarmContributorAction");
        reveal_strlit("AlarmContributorStateUpdate");
        reveal_strlit("ConfigurationUpdate");
        reveal_strlit("StateUpdate");
        assert("Action"@.len() == 6);
        assert("AlarmContributorAction"@.len() == 22);
        assert("AlarmContributorStateUpdate"@.len() == 27);
        assert("ConfigurationUpdate"@.len() == 19);
        assert("StateUpdate"@.len() == 11);
    }
}

/// CloudWatch MetricStreamOutputFormat enum.
#[derive(Debug, Clone, Copy, PartialEq, Eq, Structural, Hash, Default)]
pub enum MetricStreamOutputFormat {
    #[default]
    Json,
    OpenTelemetry07,
    OpenTelemetry10,
}

impl MetricStreamOutputFormat {
    /// The wire-format name of this variant.
    pub open spec fn wire(self) -> Seq<char> {
        match self {
            MetricStreamOutputFormat::Json => "json"@,
            MetricStreamOutputFormat::OpenTelemetry07 => "opentelemetry0.7"@,
            MetricStreamOutputFormat::OpenTelemetry10 => "opentelemetry1.0"@,
        }
    }

    /// The variant named by a wire string; unknown names give the default variant.
    pub open spec fn spec_from_wire(s: Seq<char>) -> MetricStreamOutputFormat {
        if s == "json"@ {
            MetricStreamOutputFormat::Json
        } else if s == "opentelemetry0.7"@ {
            MetricStreamOutputFormat::OpenTelemetry07
        } else if s == "opentelemetry1.0"@ {
            MetricStreamOutputFormat::OpenTelemetry10
        } else {
            MetricStreamOutputFormat::Json
        }
    }

    /// Returns the string value of this enum variant.
    pub fn as_str(&self) -> (r: &'static str)
        ensures
            r@ == self.wire(),
    {
        match self {
            MetricStreamOutputFormat::Json => "json",
            MetricStreamOutputFormat::OpenTelemetry07 => "opentelemetry0.7",
            MetricStreamOutputFormat::OpenTelemetry10 => "opentelemetry1.0",
        }
    }

    /// Parses a wire-format name; unknown names give the default variant.
    pub fn from_wire(s: &str) -> (r: MetricStreamOutputFormat)
        ensures
            r == MetricStreamOutputFormat::spec_from_wire(s@),
    {
        if str_eq(s, "json") {
            MetricStreamOutputFormat::Json
        } else if str_eq(s, "opentelemetry0.7") {
            MetricStreamOutputFormat::OpenTelemetry07
        } else if str_eq(s, "opentelemetry1.0") {
            MetricStreamOutputFormat::OpenTelemetry10
        } else {
            MetricStreamOutputFormat::Json
        }
    }

    /// Parsing the wire name of a variant gives that variant back.
    pub proof fn lemma_wire_roundtrip(self)
        ensures
            MetricStreamOutputFormat::spec_from_wire(self.wire()) == self,
    {
        reveal_strlit("json");
        reveal_strlit("opentelemetry0.7");
        reveal_strlit("opentelemetry1.0");
        assert("json"@.len() == 4);
        assert("opentelemetry0.7"@.len() == 16);
        assert("opentelemetry1.0"@.len() == 16);
        assert("opentelemetry0.7"@[13] == '0' && "opentelemetry1.0"@[13] == '1');
    }
}

/// CloudWatch RecentlyActive enum.
#[derive(Debug, Clone, Copy, PartialEq, Eq, Structural, Hash, Default)]
pub enum RecentlyActive {
    #[default]
    Pt3h,
}

impl RecentlyActive {
    /// The wire-format name of this variant.
    pub open spec fn wire(self) -> Seq<char> {
        match self {
            RecentlyActive::Pt3h => "PT3H"@,
        }
    }

    /// The variant named by a wire string; unknown names give the default variant.
    pub open spec fn spec_from_wire(s: Seq<char>) -> RecentlyActive {
        if s == "PT3H"@ {
            RecentlyActive::Pt3h
        } else {
            RecentlyActive::Pt3h
        }
    }

    /// Returns the string value of this enum variant.
    pub fn as_str(&self) -> (r: &'static str)
        ensures
            r@ == self.wire(),
    {
        match self {
            RecentlyActive::Pt3h => "PT3H",
        }
    }

    /// Parses a wire-format name; unknown names give the default variant.
    pub fn from_wire(s: &str) -> (r: RecentlyActive)
        ensures
            r == RecentlyActive::spec_from_wire(s@),
    {
        if str_eq(s, "PT3H") {
            RecentlyActive::Pt3h
        } else {
            RecentlyActive::Pt3h
        }
    }

    /// Parsing the wire name of a variant gives that variant back.
    pub proof fn lemma_wire_roundtrip(self)
        ensures
            RecentlyActive::spec_from_wire(self.wire()) == self,
    {
        reveal_strlit("PT3H");
        assert("PT3H"@.len() == 4);
    }
}

/// CloudWatch ScanBy enum.
#[derive(Debug, Clone, Copy, PartialEq, Eq, Structural, Hash, Default)]
pub enum ScanBy {
    #[default]
    TimestampAscending,
    TimestampDescending,
}

impl ScanBy {
    /// The wire-format name of this variant.
    pub open spec fn wire(self) -> Seq<char> {
        match self {
            ScanBy::TimestampAscending => "TimestampAscending"@,
            ScanBy::TimestampDescending => "TimestampDescending"@,
        }
    }

    /// The variant named by a wire string; unknown names give the default variant.
    pub open spec fn spec_from_wire(s: Seq<char>) -> ScanBy {
        if s == "TimestampAscending"@ {
            ScanBy::TimestampAscending
        } else if s == "TimestampDescending"@ {
            ScanBy::TimestampDescending
        } else {
            ScanBy::TimestampAscending
        }
    }

    /// Returns the string value of this enum variant.
    pub fn as_str(&self) -> (r: &'static str)
        ensures
            r@ == self.wire(),
    {
        match self {
            ScanBy::TimestampAscending => "TimestampAscending",
            ScanBy::TimestampDescending => "TimestampDescending",
        }
    }

    /// Parses a wire-format name; unknown names give the default variant.
    pub fn from_wire(s: &str) -> (r: ScanBy)
        ensures
            r == ScanBy::spec_from_wire(s@),
    {
        if str_eq(s, "TimestampAscending") {
            ScanBy::TimestampAscending
        } else if str_eq(s, "TimestampDescending") {
            ScanBy::TimestampDescending
        } else {
            ScanBy::TimestampAscending
        }
    }

    /// Parsing the wire name of a variant gives that variant back.
    pub proof fn lemma_wire_roundtrip(self)
        ensures
            ScanBy::spec_from_wire(self.wire()) == self,
    {
        reveal_strlit("TimestampAscending");
        reveal_strlit("TimestampDescending");
        assert("TimestampAscending"@.len() == 18);
        assert("TimestampDescending"@.len() == 19);
    }
}

/// CloudWatch StandardUnit enum.
#[derive(Debug, Clone, Copy, PartialEq, Eq, Structural, Hash, Default)]
pub enum StandardUnit {
    #[default]
    Bits,
    BitsSecond,
    Bytes,
    BytesSecond,
    Count,
    CountSecond,
    Gigabits,
    GigabitsSecond,
    Gigabytes,
    GigabytesSecond,
    Kilobits,
    KilobitsSecond,
    Kilobytes,
    KilobytesSecond,
    Megabits,
    MegabitsSecond,
    Megabytes,
    MegabytesSecond,
    Microseconds,
    Milliseconds,
    NoUnit,
    Percent,
    Seconds,
    Terabits,
    TerabitsSecond,
    Terabytes,
    TerabytesSecond,
}

impl StandardUnit {
    /// The wire-format name of this variant.
    pub open spec fn wire(self) -> Seq<char> {
        match self {
            StandardUnit::Bits => "Bits"@,
            StandardUnit::BitsSecond => "Bits/Second"@,
            StandardUnit::Bytes => "Bytes"@,
            StandardUnit::BytesSecond => "Bytes/Second"@,
            StandardUnit::Count => "Count"@,
            StandardUnit::CountSecond => "Count/Second"@,
            StandardUnit::Gigabits => "Gigabits"@,
            StandardUnit::GigabitsSecond => "Gigabits/Second"@,
            StandardUnit::Gigabytes => "Gigabytes"@,
            StandardUnit::GigabytesSecond => "Gigabytes/Second"@,
            StandardUnit::Kilobits => "Kilobits"@,
            StandardUnit::KilobitsSecond => "Kilobits/Second"@,
            StandardUnit::Kilobytes => "Kilobytes"@,
            StandardUnit::KilobytesSecond => "Kilobytes/Second"@,
            StandardUnit::Megabits => "Megabits"@,
            StandardUnit::MegabitsSecond => "Megabits/Second"@,
            StandardUnit::Megabytes => "Megabytes"@,
            StandardUnit::MegabytesSecond => "Megabytes/Second"@,
            StandardUnit::Microseconds => "Microseconds"@,
            StandardUnit::Milliseconds => "Milliseconds"@,
            StandardUnit::NoUnit => "None"@,
            StandardUnit::Percent => "Percent"@,
            StandardUnit::Seconds => "Seconds"@,
            StandardUnit::Terabits => "Terabits"@,
            StandardUnit::TerabitsSecond => "Terabits/Second"@,
            StandardUnit::Terabytes => "Terabytes"@,
            StandardUnit::TerabytesSecond => "Terabytes/Second"@,
        }
    }

    /// The variant named by a wire string; unknown names give the default variant.
    pub open spec fn spec_from_wire(s: Seq<char>) -> StandardUnit {
        if s == "Bits"@ {
            StandardUnit::Bits
        } else if s == "Bits/Second"@ {
            StandardUnit::BitsSecond
        } else if s == "Bytes"@ {
            StandardUnit::Bytes
        } else if s == "Bytes/Second"@ {
            StandardUnit::BytesSecond
        } else if s == "Count"@ {
            StandardUnit::Count
        } else if s == "Count/Second"@ {
            StandardUnit::CountSecond
        } else if s == "Gigabits"@ {
            StandardUnit::Gigabits
        } else if s == "Gigabits/Second"@ {
            StandardUnit::GigabitsSecond
        } else if s == "Gigabytes"@ {
            StandardUnit::Gigabytes
        } else if s == "Gigabytes/Second"@ {
            StandardUnit::GigabytesSecond
        } else if s == "Kilobits"@ {
            StandardUnit::Kilobits
        } else if s == "Kilobits/Second"@ {
            StandardUnit::KilobitsSecond
        } else if s == "Kilobytes"@ {
            StandardUnit::Kilobytes
        } else if s == "Kilobytes/Second"@ {
            StandardUnit::KilobytesSecond
        } else if s == "Megabits"@ {
            StandardUnit::Megabits
        } else if s == "Megabits/Second"@ {
            StandardUnit::MegabitsSecond
        } else if s == "Megabytes"@ {
            StandardUnit::Megabytes
        } else if s == "Megabytes/Second"@ {
            StandardUnit::MegabytesSecond
        } else if s == "Microseconds"@ {
            StandardUnit::Microseconds
        } else if s == "Milliseconds"@ {
            StandardUnit::Milliseconds
        } else if s == "None"@ {
            StandardUnit::NoUnit
        } else if s == "Percent"@ {
            StandardUnit::Percent
        } else if s == "Seconds"@ {
            StandardUnit::Seconds
        } else if s == "Terabits"@ {
            StandardUnit::Terabits
        } else if s == "Terabits/Second"@ {
            StandardUnit::TerabitsSecond
        } else if s == "Terabytes"@ {
            StandardUnit::Terabytes
        } else if s == "Terabytes/Second"@ {
            StandardUnit::TerabytesSecond
        } else {
            StandardUnit::Bits
        }
    }

    /// Returns the string value of this enum variant.
    pub fn as_str(&self) -> (r: &'static str)
        ensures
            r@ == self.wire(),
    {
        match self {
            StandardUnit::Bits => "Bits",
            StandardUnit::BitsSecond => "Bits/Second",
            StandardUnit::Bytes => "Bytes",
            StandardUnit::BytesSecond => "Bytes/Second",
            StandardUnit::Count => "Count",
            StandardUnit::CountSecond => "Count/Second",
            StandardUnit::Gigabits => "Gigabits",
            StandardUnit::GigabitsSecond => "Gigabits/Second",
            StandardUnit::Gigabytes => "Gigabytes",
            StandardUnit::GigabytesSecond => "Gigabytes/Second",
            StandardUnit::Kilobits => "Kilobits",
            StandardUnit::KilobitsSecond => "Kilobits/Second",
            StandardUnit::Kilobytes => "Kilobytes",
            StandardUnit::KilobytesSecond => "Kilobytes/Second",
            StandardUnit::Megabits => "Megabits",
            StandardUnit::MegabitsSecond => "Megabits/Second",
            StandardUnit::Megabytes => "Megabytes",
            StandardUnit::MegabytesSecond => "Megabytes/Second",
            StandardUnit::Microseconds => "Microseconds",
            StandardUnit::Milliseconds => "Milliseconds",
            StandardUnit::NoUnit => "None",
            StandardUnit::Percent => "Percent",
            StandardUnit::Seconds => "Seconds",
            StandardUnit::Terabits => "Terabits",
            StandardUnit::TerabitsSecond => "Terabits/Second",
            StandardUnit::Terabytes => "Terabytes",
            StandardUnit::TerabytesSecond => "Terabytes/Second",
        }
    }

    /// Parses a wire-format name; unknown names give the default variant.
    pub fn from_wire(s: &str) -> (r: StandardUnit)
        ensures
            r == StandardUnit::spec_from_wire(s@),
    {
        if str_eq(s, "Bits") {
            StandardUnit::Bits
        } else if str_eq(s, "Bits/Second") {
            StandardUnit::BitsSecond
        } else if str_eq(s, "Bytes") {
            StandardUnit::Bytes
        } else if str_eq(s, "Bytes/Second") {
            StandardUnit::BytesSecond
        } else if str_eq(s, "Count") {
            StandardUnit::Count
        } else if str_eq(s, "Count/Second") {
            StandardUnit::CountSecond
        } else if str_eq(s, "Gigabits") {
            StandardUnit::Gigabits
        } else if str_eq(s, "Gigabits/Second") {
            StandardUnit::GigabitsSecond
        } else if str_eq(s, "Gigabytes") {
            StandardUnit::Gigabytes
        } else if str_eq(s, "Gigabytes/Second") {
            StandardUnit::GigabytesSecond
        } else if str_eq(s, "Kilobits") {
            StandardUnit::Kilobits
        } else if str_eq(s, "Kilobits/Second") {
            StandardUnit::KilobitsSecond
        } else if str_eq(s, "Kilobytes") {
            StandardUnit::Kilobytes
        } else if str_eq(s, "Kilobytes/Second") {
            StandardUnit::KilobytesSecond
        } else if str_eq(s, "Megabits") {
            StandardUnit::Megabits
        } else if str_eq(s, "Megabits/Second") {
            StandardUnit::MegabitsSecond
        } else if str_eq(s, "Megabytes") {
            StandardUnit::Megabytes
        } else if str_eq(s, "Megabytes/Second") {
            StandardUnit::MegabytesSecond
        } else if str_eq(s, "Microseconds") {
            StandardUnit::Microseconds
        } else if str_eq(s, "Milliseconds") {
            StandardUnit::Milliseconds
        } else if str_eq(s, "None") {
            StandardUnit::NoUnit
        } else if str_eq(s, "Percent") {
            StandardUnit::Percent
        } else if str_eq(s, "Seconds") {
            StandardUnit::Seconds
        } else if str_eq(s, "Terabits") {
            StandardUnit::Terabits
        } else if str_eq(s, "Terabits/Second") {
            StandardUnit::TerabitsSecond
        } else if str_eq(s, "Terabytes") {
            StandardUnit::Terabytes
        } else if str_eq(s, "Terabytes/Second") {
            StandardUnit::TerabytesSecond
        } else {
            StandardUnit::Bits
        }
    }

    /// Parsing the wire name of a variant gives that variant back.
    pub proof fn lemma_wire_roundtrip(self)
        ensures
            StandardUnit::spec_from_wire(self.wire()) == self,
    {
        reveal_strlit("Bits");
        reveal_strlit("Bits/Second");
        reveal_strlit("Bytes");
        reveal_strlit("Bytes/Second");
        reveal_strlit("Count");
        reveal_strlit("Count/Second");
        reveal_strlit("Gigabits");
        reveal_strlit("Gigabits/Second");
        reveal_strlit("Gigabytes");
        reveal_strlit("Gigabytes/Second");
        reveal_strlit("Kilobits");
        reveal_strlit("Kilobits/Second");
        reveal_strlit("Kilobytes");
        reveal_strlit("Kilobytes/Second");
        reveal_strlit("Megabits");
        reveal_strlit("Megabits/Second");
        reveal_strlit("Megabytes");
        reveal_strlit("Megabytes/Second");
        reveal_strlit("Microseconds");
        reveal_strlit("Milliseconds");
        reveal_strlit("None");
        reveal_strlit("Percent");
        reveal_strlit("Seconds");
        reveal_strlit("Terabits");
        reveal_strlit("Terabits/Second");
        reveal_strlit("Terabytes");
        reveal_strlit("Terabytes/Second");
        assert("Bits"@.len() == 4);
        assert("Bits/Second"@.len() == 11);
        assert("Bytes"@.len() == 5);
        assert("Bytes/Second"@.len() == 12);
        assert("Count"@.len() == 5);
        assert("Count/Second"@.len() == 12);
        assert("Gigabits"@.len() == 8);
        assert("Gigabits/Second"@.len() == 15);
        assert("Gigabytes"@.len() == 9);
        assert("Gigabytes/Second"@.len() == 16);
        assert("Kilobits"@.len() == 8);
        assert("Kilobits/Second"@.len() == 15);
        assert("Kilobytes"@.len() == 9);
        assert("Kilobytes/Second"@.len() == 16);
        assert("Megabits"@.len() == 8);
        assert("Megabits/Second"@.len() == 15);
        assert("Megabytes"@.len() == 9);
        assert("Megabytes/Second"@.len() == 16);
        assert("Microseconds"@.len() == 12);
        assert("Milliseconds"@.len() == 12);
        assert("None"@.len() == 4);
        assert("Percent"@.len() == 7);
        assert("Seconds"@.len() == 7);
        assert("Terabits"@.len() == 8);
        assert("Terabits/Second"@.len() == 15);
        assert("Terabytes"@.len() == 9);
        assert("Terabytes/Second"@.len() == 16);
        assert("Bits"@[0] == 'B' && "None"@[0] == 'N');
        assert("Bytes"@[0] == 'B' && "Count"@[0] == 'C');
        assert("Bytes/Second"@[0] == 'B' && "Count/Second"@[0] == 'C');
        assert("Bytes/Second"@[0] == 'B' && "Microseconds"@[0] == 'M');
        assert("Bytes/Second"@[0] == 'B' && "Milliseconds"@[0] == 'M');
        assert("Count/Second"@[0] == 'C' && "Microseconds"@[0] == 'M');
        assert("Count/Second"@[0] == 'C' && "Milliseconds"@[0] == 'M');
        assert("Gigabits"@[0] == 'G' && "Kilobits"@[0] == 'K');
        assert("Gigabits"@[0] == 'G' && "Megabits"@[0] == 'M');
        assert("Gigabits"@[0] == 'G' && "Terabits"@[0] == 'T');
        assert("Gigabits/Second"@[0] == 'G' && "Kilobits/Second"@[0] == 'K');
        assert("Gigabits/Second"@[0] == 'G' && "Megabits/Second"@[0] == 'M');
        assert("Gigabits/Second"@[0] == 'G' && "Terabits/Second"@[0] == 'T');
        assert("Gigabytes"@[0] == 'G' && "Kilobytes"@[0] == 'K');
        assert("Gigabytes"@[0] == 'G' && "Megabytes"@[0] == 'M');
        assert("Gigabytes"@[0] == 'G' && "Terabytes"@[0] == 'T');
        assert("Gigabytes/Second"@[0] == 'G' && "Kilobytes/Second"@[0] == 'K');
        assert("Gigabytes/Second"@[0] == 'G' && "Megabytes/Second"@[0] == 'M');
        assert("Gigabytes/Second"@[0] == 'G' && "Terabytes/Second"@[0] == 'T');
        assert("Kilobits"@[0] == 'K' && "Megabits"@[0] == 'M');
        assert("Kilobits"@[0] == 'K' && "Terabits"@[0] == 'T');
        assert("Kilobits/Second"@[0] == 'K' && "Megabits/Second"@[0] == 'M');
        assert("Kilobits/Second"@[0] == 'K' && "Terabits/Second"@[0] == 'T');
        assert("Kilobytes"@[0] == 'K' && "Megabytes"@[0] == 'M');
        assert("Kilobytes"@[0] == 'K' && "Terabytes"@[0] == 'T');
        assert("Kilobytes/Second"@[0] == 'K' && "Megabytes/Second"@[0] == 'M');
        assert("Kilobytes/Second"@[0] == 'K' && "Terabytes/Second"@[0] == 'T');
        assert("Megabits"@[0] == 'M' && "Terabits"@[0] == 'T');
        assert("Megabits/Second"@[0] == 'M' && "Terabits/Second"@[0] == 'T');
        assert("Megabytes"@[0] == 'M' && "Terabytes"@[0] == 'T');
        assert("Megabytes/Second"@[0] == 'M' && "Terabytes/Second"@[0] == 'T');
        assert("Microseconds"@[2] == 'c' && "Milliseconds"@[2] == 'l');
        assert("Percent"@[0] == 'P' && "Seconds"@[0] == 'S');
    }
}

/// CloudWatch StateValue enum.
#[derive(Debug, Clone, Copy, PartialEq, Eq, Structural, Hash, Default)]
pub enum StateValue {
    #[default]
    Alarm,
    InsufficientData,
    OkState,
}

impl StateValue {
    /// The wire-format name of this variant.
    pub open spec fn wire(self) -> Seq<char> {
        match self {
            StateValue::Alarm => "ALARM"@,
            StateValue::InsufficientData => "INSUFFICIENT_DATA"@,
            StateValue::OkState => "OK"@,
        }
    }

    /// The variant named by a wire string; unknown names give the default variant.
    pub open spec fn spec_from_wire(s: Seq<char>) -> StateValue {
        if s == "ALARM"@ {
            StateValue::Alarm
        } else if s == "INSUFFICIENT_DATA"@ {
            StateValue::InsufficientData
        } else if s == "OK"@ {
            StateValue::OkState
        } else {
            StateValue::Alarm
        }
    }

    /// Returns the string value of this enum variant.
    pub fn as_str(&self) -> (r: &'static str)
        ensures
            r@ == self.wire(),
    {
        match self {
            StateValue::Alarm => "ALARM",
            StateValue::InsufficientData => "INSUFFICIENT_DATA",
            StateValue::OkState => "OK",
        }
    }

    /// Parses a wire-format name; unknown names give the default variant.
    pub fn from_wire(s: &str) -> (r: StateValue)
        ensures
            r == StateValue::spec_from_wire(s@),
    {
        if str_eq(s, "ALARM") {
            StateValue::Alarm
        } else if str_eq(s, "INSUFFICIENT_DATA") {
            StateValue::InsufficientData
        } else if str_eq(s, "OK") {
            StateValue::OkState
        } else {
            StateValue::Alarm
        }
    }

    /// Parsing the wire name of a variant gives that variant back.
    pub proof fn lemma_wire_roundtrip(self)
        ensures
            StateValue::spec_from_wire(self.wire()) == self,
    {
        reveal_strlit("ALARM");
        reveal_strlit("INSUFFICIENT_DATA");
        reveal_strlit("OK");
        assert("ALARM"@.len() == 5);
        assert("INSUFFICIENT_DATA"@.len() == 17);
        assert("OK"@.len() == 2);
    }
}

/// CloudWatch Statistic enum.
#[derive(Debug, Clone, Copy, PartialEq, Eq, Structural, Hash, Default)]
pub enum Statistic {
    #[default]
    Average,
    Maximum,
    Minimum,
    SampleCount,
    Sum,
}

impl Statistic {
    /// The wire-format name of this variant.
    pub open spec fn wire(self) -> Seq<char> {
        match self {
            Statistic::Average => "Average"@,
            Statistic::Maximum => "Maximum"@,
            Statistic::Minimum => "Minimum"@,
            Statistic::SampleCount => "SampleCount"@,
            Statistic::Sum => "Sum"@,
        }
    }

    /// The variant named by a wire string; unknown names give the default variant.
    pub open spec fn spec_from_wire(s: Seq<char>) -> Statistic {
        if s == "Average"@ {
            Statistic::Average
        } else if s == "Maximum"@ {
            Statistic::Maximum
        } else if s == "Minimum"@ {
            Statistic::Minimum
        } else if s == "SampleCount"@ {
            Statistic::SampleCount
        } else if s == "Sum"@ {
            Statistic::Sum
        } else {
            Statistic::Average
        }
    }

    /// Returns the string value of this enum variant.
    pub fn as_str(&self) -> (r: &'static str)
        ensures
            r@ == self.wire(),
    {
        match self {
            Statistic::Average => "Average",
            Statistic::Maximum => "Maximum",
            Statistic::Minimum => "Minimum",
            Statistic::SampleCount => "SampleCount",
            Statistic::Sum => "Sum",
        }
    }

    /// Parses a wire-format name; unknown names give the default variant.
    pub fn from_wire(s: &str) -> (r: Statistic)
        ensures
            r == Statistic::spec_from_wire(s@),
    {
        if str_eq(s, "Average") {
            Statistic::Average
        } else if str_eq(s, "Maximum") {
            Statistic::Maximum
        } else if str_eq(s, "Minimum") {
            Statistic::Minimum
        } else if str_eq(s, "SampleCount") {
            Statistic::SampleCount
        } else if str_eq(s, "Sum") {
            Statistic::Sum
        } else {
            Statistic::Average
        }
    }

    /// Parsing the wire name of a variant gives that variant back.
    pub proof fn lemma_wire_roundtrip(self)
        ensures
            Statistic::spec_from_wire(self.wire()) == self,
    {
        reveal_strlit("Average");
        reveal_strlit("Maximum");
        reveal_strlit("Minimum");
        reveal_strlit("SampleCount");
        reveal_strlit("Sum");
        assert("Average"@.len() == 7);
        assert("Maximum"@.len() == 7);
        assert("Minimum"@.len() == 7);
        assert("SampleCount"@.len() == 11);
        assert("Sum"@.len() == 3);
        assert("Average"@[0] == 'A' && "Maximum"@[0] == 'M');
        assert("Average"@[0] == 'A' && "Minimum"@[0] == 'M');
        assert("Maximum"@[1] == 'a' && "Minimum"@[1] == 'i');
    }
}

/// CloudWatch StatusCode enum.
#[derive(Debug, Clone, Copy, PartialEq, Eq, Structural, Hash, Default)]
pub enum StatusCode {
    #[default]
    Complete,
    Forbidden,
    InternalError,
    PartialData,
}

impl StatusCode {
    /// The wire-format name of this variant.
    pub open spec fn wire(self) -> Seq<char> {
        match self {
            StatusCode::Complete => "Complete"@,
            StatusCode::Forbidden => "Forbidden"@,
            StatusCode::InternalError => "InternalError"@,
            StatusCode::PartialData => "PartialData"@,
        }
    }

    /// The variant named by a wire string; unknown names give the default variant.
    pub open spec fn spec_from_wire(s: Seq<char>) -> StatusCode {
        if s == "Complete"@ {
            StatusCode::Complete
        } else if s == "Forbidden"@ {
            StatusCode::Forbidden
        } else if s == "InternalError"@ {
            StatusCode::InternalError
        } else if s == "PartialData"@ {
            StatusCode::PartialData
        } else {
            StatusCode::Complete
        }
    }

    /// Returns the string value of this enum variant.
    pub fn as_str(&self) -> (r: &'static str)
        ensures
            r@ == self.wire(),
    {
        match self {
            StatusCode::Complete => "Complete",
            StatusCode::Forbidden => "Forbidden",
            StatusCode::InternalError => "InternalError",
            StatusCode::PartialData => "PartialData",
        }
    }

    /// Parses a wire-format name; unknown names give the default variant.
    pub fn from_wire(s: &str) -> (r: StatusCode)
        ensures
            r == StatusCode::spec_from_wire(s@),
    {
        if str_eq(s, "Complete") {
            StatusCode::Complete
        } else if str_eq(s, "Forbidden") {
            StatusCode::Forbidden
        } else if str_eq(s, "InternalError") {
            StatusCode::InternalError
        } else if str_eq(s, "PartialData") {
            StatusCode::PartialData
        } else {
            StatusCode::Complete
        }
    }

    /// Parsing the wire name of a variant gives that variant back.
    pub proof fn lemma_wire_roundtrip(self)
        ensures
            StatusCode::spec_from_wire(self.wire()) == self,
    {
        reveal_strlit("Complete");
        reveal_strlit("Forbidden");
        reveal_strlit("InternalError");
        reveal_strlit("PartialData");
        assert("Complete"@.len() == 8);
        assert("Forbidden"@.len() == 9);
        assert("InternalError"@.len() == 13);
        assert("PartialData"@.len() == 11);
    }
}

/// CloudWatch DashboardValidationMessage.
#[derive(Debug, Clone, Default)]
pub struct DashboardValidationMessage {
    pub data_path: Option<String>,
    pub message: Option<String>,
}

/// CloudWatch Dimension.
#[derive(Debug, Clone, Default, Hash, PartialEq, Eq)]
pub struct Dimension {
    /// Dimension name.
    pub name: String,
    /// Dimension value.
    pub value: String,
}

/// CloudWatch DimensionFilter.
#[derive(Debug, Clone, Default)]
pub struct DimensionFilter {
    pub name: String,
    pub value: Option<String>,
}

/// CloudWatch Entity.
#[derive(Debug, Clone, Default)]
pub struct Entity {
    pub attributes: Vec<(String, String)>,
    pub key_attributes: Vec<(String, String)>,
}

/// CloudWatch InsightRule.
#[derive(Debug, Clone, Default)]
pub struct InsightRule {
    pub apply_on_transformed_logs: Option<bool>,
    pub definition: String,
    pub managed_rule: Option<bool>,
    pub name: String,
    pub schema: String,
    pub state: String,
}

/// CloudWatch LabelOptions.
#[derive(Debug, Clone, Default)]
pub struct LabelOptions {
    pub timezone: Option<String>,
}

/// CloudWatch ManagedRule.
#[derive(Debug, Clone, Default)]
pub struct ManagedRule {
    pub resource_arn: String,
    pub tags: Vec<Tag>,
    pub template_name: String,
}

/// CloudWatch MessageData.
#[derive(Debug, Clone, Default)]
pub struct MessageData {
    pub code: Option<String>,
    pub value: Option<String>,
}

/// CloudWatch Metric.
#[derive(Debug, Clone, Default)]
pub struct Metric {
    pub dimensions: Vec<Dimension>,
    pub metric_name: Option<String>,
    pub namespace: Option<String>,
}

/// CloudWatch MetricCharacteristics.
#[derive(Debug, Clone, Default)]
pub struct MetricCharacteristics {
    pub periodic_spikes: Option<bool>,
}

/// CloudWatch MetricDataQuery.
#[derive(Debug, Clone, Default)]
pub struct MetricDataQuery {
    pub account_id: Option<String>,
    pub expression: Option<String>,
    pub id: String,
    pub label: Option<String>,
    pub metric_stat: Option<MetricStat>,
    pub period: Option<i32>,
    pub return_data: Option<bool>,
}

/// CloudWatch MetricMathAnomalyDetector.
#[derive(Debug, Clone, Default)]
pub struct MetricMathAnomalyDetector {
    pub metric_data_queries: Vec<MetricDataQuery>,
}

/// CloudWatch MetricStat.
#[derive(Debug, Clone, Default)]
pub struct MetricStat {
    pub metric: Metric,
    pub period: i32,
    pub stat: String,
    pub unit: Option<StandardUnit>,
}

/// CloudWatch MetricStreamFilter.
#[derive(Debug, Clone, Default)]
pub struct MetricStreamFilter {
    pub metric_names: Vec<String>,
    pub namespace: Option<String>,
}

/// CloudWatch MetricStreamStatisticsConfiguration.
#[derive(Debug, Clone, Default)]
pub struct MetricStreamStatisticsConfiguration {
    pub additional_statistics: Vec<String>,
    pub include_metrics: Vec<MetricStreamStatisticsMetric>,
}

/// CloudWatch MetricStreamStatisticsMetric.
#[derive(Debug, Clone, Default)]
pub struct MetricStreamStatisticsMetric {
    pub metric_name: String,
    pub namespace: String,
}

/// CloudWatch PartialFailure.
#[derive(Debug, Clone, Default)]
pub struct PartialFailure {
    pub exception_type: Option<String>,
    pub failure_code: Option<String>,
    pub failure_description: Option<String>,
    pub failure_resource: Option<String>,
}

/// CloudWatch SingleMetricAnomalyDetector.
#[derive(Debug, Clone, Default)]
pub struct SingleMetricAnomalyDetector {
    pub account_id: Option<String>,
    pub dimensions: Vec<Dimension>,
    pub metric_name: Option<String>,
    pub namespace: Option<String>,
    pub stat: Option<String>,
}

/// CloudWatch Tag.
#[derive(Debug, Clone, Default)]
pub struct Tag {
    pub key: String,
    pub value: String,
}

/// CloudWatch DeleteAlarmsInput.
#[derive(Debug, Clone, Default)]
pub struct DeleteAlarmsInput {
    pub alarm_names: Vec<String>,
}

/// CloudWatch DeleteAnomalyDetectorInput.
#[derive(Debug, Clone, Default)]
pub struct DeleteAnomalyDetectorInput {
    pub dimensions: Vec<Dimension>,
    pub metric_math_anomaly_detector: Option<MetricMathAnomalyDetector>,
    pub metric_name: Option<String>,
    pub namespace: Option<String>,
    pub single_metric_anomaly_detector: Option<SingleMetricAnomalyDetector>,
    pub stat: Option<String>,
}

/// CloudWatch DeleteDashboardsInput.
#[derive(Debug, Clone, Default)]
pub struct DeleteDashboardsInput {
    pub dashboard_names: Vec<String>,
}

/// CloudWatch DeleteInsightRulesInput.
#[derive(Debug, Clone, Default)]
pub struct DeleteInsightRulesInput {
    pub rule_names: Vec<String>,
}

/// CloudWatch DeleteMetricStreamInput.
#[derive(Debug, Clone, Default)]
pub struct DeleteMetricStreamInput {
    pub name: String,
}

/// CloudWatch DescribeAlarmsForMetricInput.
#[derive(Debug, Clone, Default)]
pub struct DescribeAlarmsForMetricInput {
    pub dimensions: Vec<Dimension>,
    pub extended_statistic: Option<String>,
    pub metric_name: String,
    pub namespace: String,
    pub period: Option<i32>,
    pub statistic: Option<Statistic>,
    pub unit: Option<StandardUnit>,
}

/// CloudWatch DescribeAlarmsInput.
#[derive(Debug, Clone, Default)]
pub struct DescribeAlarmsInput {
    pub action_prefix: Option<String>,
    pub alarm_name_prefix: Option<String>,
    pub alarm_names: Vec<String>,
    pub alarm_types: Vec<AlarmType>,
    pub children_of_alarm_name: Option<String>,
    pub max_records: Option<i32>,
    pub next_token: Option<String>,
    pub parents_of_alarm_name: Option<String>,
    pub state_value: Option<StateValue>,
}

/// CloudWatch DescribeAnomalyDetectorsInput.
#[derive(Debug, Clone, Default)]
pub struct DescribeAnomalyDetectorsInput {
    pub anomaly_detector_types: Vec<AnomalyDetectorType>,
    pub dimensions: Vec<Dimension>,
    pub max_results: Option<i32>,
    pub metric_name: Option<String>,
    pub namespace: Option<String>,
    pub next_token: Option<String>,
}

/// CloudWatch DescribeInsightRulesInput.
#[derive(Debug, Clone, Default)]
pub struct DescribeInsightRulesInput {
    pub max_results: Option<i32>,
    pub next_token: Option<String>,
}

/// CloudWatch DisableAlarmActionsInput.
#[derive(Debug, Clone, Default)]
pub struct DisableAlarmActionsInput {
    pub alarm_names: Vec<String>,
}

/// CloudWatch EnableAlarmActionsInput.
#[derive(Debug, Clone, Default)]
pub struct EnableAlarmActionsInput {
    pub alarm_names: Vec<String>,
}

/// CloudWatch GetDashboardInput.
#[derive(Debug, Clone, Default)]
pub struct GetDashboardInput {
    pub dashboard_name: String,
}

/// CloudWatch GetMetricStreamInput.
#[derive(Debug, Clone, Default)]
pub struct GetMetricStreamInput {
    pub name: String,
}

/// CloudWatch ListDashboardsInput.
#[derive(Debug, Clone, Default)]
pub struct ListDashboardsInput {
    pub dashboard_name_prefix: Option<String>,
    pub next_token: Option<String>,
}

/// CloudWatch ListMetricStreamsInput.
#[derive(Debug, Clone, Default)]
pub struct ListMetricStreamsInput {
    pub max_results: Option<i32>,
    pub next_token: Option<String>,
}

/// CloudWatch ListMetricsInput.
#[derive(Debug, Clone, Default)]
pub struct ListMetricsInput {
    pub dimensions: Vec<DimensionFilter>,
    pub include_linked_accounts: Option<bool>,
    pub metric_name: Option<String>,
    pub namespace: Option<String>,
    pub next_token: Option<String>,
    pub owning_account: Option<String>,
    pub recently_active: Option<RecentlyActive>,
}

/// CloudWatch ListTagsForResourceInput.
#[derive(Debug, Clone, Default)]
pub struct ListTagsForResourceInput {
    pub resource_arn: String,
}

/// CloudWatch PutCompositeAlarmInput.
#[derive(Debug, Clone, Default)]
pub struct PutCompositeAlarmInput {
    pub actions_enabled: Option<bool>,
    pub actions_suppressor: Option<String>,
    pub actions_suppressor_extension_period: Option<i32>,
    pub actions_suppressor_wait_period: Option<i32>,
    pub alarm_actions: Vec<String>,
    pub alarm_description: Option<String>,
    pub alarm_name: String,
    pub alarm_rule: String,
    pub insufficient_data_actions: Vec<String>,
    pub ok_actions: Vec<String>,
    pub tags: Vec<Tag>,
}

/// CloudWatch PutDashboardInput.
#[derive(Debug, Clone, Default)]
pub struct PutDashboardInput {
    pub dashboard_body: String,
    pub dashboard_name: String,
}

/// CloudWatch PutInsightRuleInput.
#[derive(Debug, Clone, Default)]
pub struct PutInsightRuleInput {
    pub apply_on_transformed_logs: Option<bool>,
    pub rule_definition: String,
    pub rule_name: String,
    pub rule_state: Option<String>,
    pub tags: Vec<Tag>,
}

/// CloudWatch PutManagedInsightRulesInput.
#[derive(Debug, Clone, Default)]
pub struct PutManagedInsightRulesInput {
    pub managed_rules: Vec<ManagedRule>,
}

/// CloudWatch PutMetricStreamInput.
#[derive(Debug, Clone, Default)]
pub struct PutMetricStreamInput {
    pub exclude_filters: Vec<MetricStreamFilter>,
    pub firehose_arn: String,
    pub include_filters: Vec<MetricStreamFilter>,
    pub include_linked_accounts_metrics: Option<bool>,
    pub name: String,
    pub output_format: MetricStreamOutputFormat,
    pub role_arn: String,
    pub statistics_configurations: Vec<MetricStreamStatisticsConfiguration>,
    pub tags: Vec<Tag>,
}

/// CloudWatch SetAlarmStateInput.
#[derive(Debug, Clone, Default)]
pub struct SetAlarmStateInput {
    pub alarm_name: String,
    pub state_reason: String,
    pub state_reason_data: Option<String>,
    pub state_value: StateValue,
}

/// CloudWatch TagResourceInput.
#[derive(Debug, Clone, Default)]
pub struct TagResourceInput {
    pub resource_arn: String,
    pub tags: Vec<Tag>,
}

/// CloudWatch UntagResourceInput.
#[derive(Debug, Clone, Default)]
pub struct UntagResourceInput {
    pub resource_arn: String,
    pub tag_keys: Vec<String>,
}

/// Each ActionsSuppressedBy variant has its wire name (`Alarm` for `Alarm`, and so on),
/// and reading that wire name gives the variant back.
pub proof fn lemma_actions_suppressed_by_wire_names()
    ensures
        ActionsSuppressedBy::Alarm.wire() == "Alarm"@,
        ActionsSuppressedBy::ExtensionPeriod.wire() == "ExtensionPeriod"@,
        ActionsSuppressedBy::WaitPeriod.wire() == "WaitPeriod"@,
        ActionsSuppressedBy::spec_from_wire("Alarm"@) == ActionsSuppressedBy::Alarm,
        ActionsSuppressedBy::spec_from_wire("ExtensionPeriod"@) == ActionsSuppressedBy::ExtensionPeriod,
        ActionsSuppressedBy::spec_from_wire("WaitPeriod"@) == ActionsSuppressedBy::WaitPeriod,
{
    reveal_strlit("Alarm");
    reveal_strlit("ExtensionPeriod");
    reveal_strlit("WaitPeriod");
    assert("ExtensionPeriod"@ != "Alarm"@) by { assert("ExtensionPeriod"@.len() != "Alarm"@.len()); }
    assert("WaitPeriod"@ != "Alarm"@) by { assert("WaitPeriod"@.len() != "Alarm"@.len()); }
    assert("WaitPeriod"@ != "ExtensionPeriod"@) by { assert("WaitPeriod"@.len() != "ExtensionPeriod"@.len()); }
}

/// Each AlarmType variant has its wire name (`CompositeAlarm` for `CompositeAlarm`, and so on),
/// and reading that wire name gives the variant back.
pub proof fn lemma_alarm_type_wire_names()
    ensures
        AlarmType::CompositeAlarm.wire() == "CompositeAlarm"@,
        AlarmType::MetricAlarm.wire() == "MetricAlarm"@,
        AlarmType::spec_from_wire("CompositeAlarm"@) == AlarmType::CompositeAlarm,
        AlarmType::spec_from_wire("MetricAlarm"@) == AlarmType::MetricAlarm,
{
    reveal_strlit("CompositeAlarm");
    reveal_strlit("MetricAlarm");
    assert("MetricAlarm"@ != "CompositeAlarm"@) by { assert("MetricAlarm"@.len() != "CompositeAlarm"@.len()); }
}

/// Each AnomalyDetectorStateValue variant has its wire name (`PENDING_TRAINING` for `PendingTraining`, and so on),
/// and reading that wire name gives the variant back.
pub proof fn lemma_anomaly_detector_state_value_wire_names()
    ensures
        AnomalyDetectorStateValue::PendingTraining.wire() == "PENDING_TRAINING"@,
        AnomalyDetectorStateValue::Trained.wire() == "TRAINED"@,
        AnomalyDetectorStateValue::TrainedInsufficientData.wire() == "TRAINED_INSUFFICIENT_DATA"@,
        AnomalyDetectorStateValue::spec_from_wire("PENDING_TRAINING"@) == AnomalyDetectorStateValue::PendingTraining,
        AnomalyDetectorStateValue::spec_from_wire("TRAINED"@) == AnomalyDetectorStateValue::Trained,
        AnomalyDetectorStateValue::spec_from_wire("TRAINED_INSUFFICIENT_DATA"@) == AnomalyDetectorStateValue::TrainedInsufficientData,
{
    reveal_strlit("PENDING_TRAINING");
    reveal_strlit("TRAINED");
    reveal_strlit("TRAINED_INSUFFICIENT_DATA");
    assert("TRAINED"@ != "PENDING_TRAINING"@) by { assert("TRAINED"@.len() != "PENDING_TRAINING"@.len()); }
    assert("TRAINED_INSUFFICIENT_DATA"@ != "PENDING_TRAINING"@) by { assert("TRAINED_INSUFFICIENT_DATA"@.len() != "PENDING_TRAINING"@.len()); }
    assert("TRAINED_INSUFFICIENT_DATA"@ != "TRAINED"@) by { assert("TRAINED_INSUFFICIENT_DATA"@.len() != "TRAINED"@.len()); }
}

/// Each AnomalyDetectorType variant has its wire name (`METRIC_MATH` for `MetricMath`, and so on),
/// and reading that wire name gives the variant back.
pub proof fn lemma_anomaly_detector_type_wire_names()
    ensures
        AnomalyDetectorType::MetricMath.wire() == "METRIC_MATH"@,
        AnomalyDetectorType::SingleMetric.wire() == "SINGLE_METRIC"@,
        AnomalyDetectorType::spec_from_wire("METRIC_MATH"@) == AnomalyDetectorType::MetricMath,
        AnomalyDetectorType::spec_from_wire("SINGLE_METRIC"@) == AnomalyDetectorType::SingleMetric,
{
    reveal_strlit("METRIC_MATH");
    reveal_strlit("SINGLE_METRIC");
    assert("SINGLE_METRIC"@ != "METRIC_MATH"@) by { assert("SINGLE_METRIC"@.len() != "METRIC_MATH"@.len()); }
}

/// Each ComparisonOperator variant has its wire name (`GreaterThanOrEqualToThreshold` for `GreaterThanOrEqualToThreshold`, and so on),
/// and reading that wire name gives the variant back.
pub proof fn lemma_comparison_operator_wire_names()
    ensures
        ComparisonOperator::GreaterThanOrEqualToThreshold.wire() == "GreaterThanOrEqualToThreshold"@,
        ComparisonOperator::GreaterThanThreshold.wire() == "GreaterThanThreshold"@,
        ComparisonOperator::GreaterThanUpperThreshold.wire() == "GreaterThanUpperThreshold"@,
        ComparisonOperator::LessThanLowerOrGreaterThanUpperThreshold.wire() == "LessThanLowerOrGreaterThanUpperThreshold"@,
        ComparisonOperator::LessThanLowerThreshold.wire() == "LessThanLowerThreshold"@,
        ComparisonOperator::LessThanOrEqualToThreshold.wire() == "LessThanOrEqualToThreshold"@,
        ComparisonOperator::LessThanThreshold.wire() == "LessThanThreshold"@,
        ComparisonOperator::spec_from_wire("GreaterThanOrEqualToThreshold"@) == ComparisonOperator::GreaterThanOrEqualToThreshold,
        ComparisonOperator::spec_from_wire("GreaterThanThreshold"@) == ComparisonOperator::GreaterThanThreshold,
        ComparisonOperator::spec_from_wire("GreaterThanUpperThreshold"@) == ComparisonOperator::GreaterThanUpperThreshold,
        ComparisonOperator::spec_from_wire("LessThanLowerOrGreaterThanUpperThreshold"@) == ComparisonOperator::LessThanLowerOrGreaterThanUpperThreshold,
        ComparisonOperator::spec_from_wire("LessThanLowerThreshold"@) == ComparisonOperator::LessThanLowerThreshold,
        ComparisonOperator::spec_from_wire("LessThanOrEqualToThreshold"@) == ComparisonOperator::LessThanOrEqualToThreshold,
        ComparisonOperator::spec_from_wire("LessThanThreshold"@) == ComparisonOperator::LessThanThreshold,
{
    reveal_strlit("GreaterThanOrEqualToThreshold");
    reveal_strlit("GreaterThanThreshold");
    reveal_strlit("GreaterThanUpperThreshold");
    reveal_strlit("LessThanLowerOrGreaterThanUpperThreshold");
    reveal_strlit("LessThanLowerThreshold");
    reveal_strlit("LessThanOrEqualToThreshold");
    reveal_strlit("LessThanThreshold");
    assert("GreaterThanThreshold"@ != "GreaterThanOrEqualToThreshold"@) by { assert("GreaterThanThreshold"@.len() != "GreaterThanOrEqualToThreshold"@.len()); }
    assert("GreaterThanUpperThreshold"@ != "GreaterThanOrEqualToThreshold"@) by { assert("GreaterThanUpperThreshold"@.len() != "GreaterThanOrEqualToThreshold"@.len()); }
    assert("GreaterThanUpperThreshold"@ != "GreaterThanThreshold"@) by { assert("GreaterThanUpperThreshold"@.len() != "GreaterThanThreshold"@.len()); }
    assert("LessThanLowerOrGreaterThanUpperThreshold"@ != "GreaterThanOrEqualToThreshold"@) by { assert("LessThanLowerOrGreaterThanUpperThreshold"@.len() != "GreaterThanOrEqualToThreshold"@.len()); }
    assert("LessThanLowerOrGreaterThanUpperThreshold"@ != "GreaterThanThreshold"@) by { assert("LessThanLowerOrGreaterThanUpperThreshold"@.len() != "GreaterThanThreshold"@.len()); }
    assert("LessThanLowerOrGreaterThanUpperThreshold"@ != "GreaterThanUpperThreshold"@) by { assert("LessThanLowerOrGreaterThanUpperThreshold"@.len() != "GreaterThanUpperThreshold"@.len()); }
    assert("LessThanLowerThreshold"@ != "GreaterThanOrEqualToThreshold"@) by { assert("LessThanLowerThreshold"@.len() != "GreaterThanOrEqualToThreshold"@.len()); }
    assert("LessThanLowerThreshold"@ != "GreaterThanThreshold"@) by { assert("LessThanLowerThreshold"@.len() != "GreaterThanThreshold"@.len()); }
    assert("LessThanLowerThreshold"@ != "GreaterThanUpperThreshold"@) by { assert("LessThanLowerThreshold"@.len() != "GreaterThanUpperThreshold"@.len()); }
    assert("LessThanLowerThreshold"@ != "LessThanLowerOrGreaterThanUpperThreshold"@) by { assert("LessThanLowerThreshold"@.len() != "LessThanLowerOrGreaterThanUpperThreshold"@.len()); }
    assert("LessThanOrEqualToThreshold"@ != "GreaterThanOrEqualToThreshold"@) by { assert("LessThanOrEqualToThreshold"@.len() != "GreaterThanOrEqualToThreshold"@.len()); }
    assert("LessThanOrEqualToThreshold"@ != "GreaterThanThreshold"@) by { assert("LessThanOrEqualToThreshold"@.len() != "GreaterThanThreshold"@.len()); }
    assert("LessThanOrEqualToThreshold"@ != "GreaterThanUpperThreshold"@) by { assert("LessThanOrEqualToThreshold"@.len() != "GreaterThanUpperThreshold"@.len()); }
    assert("LessThanOrEqualToThreshold"@ != "LessThanLowerOrGreaterThanUpperThreshold"@) by { assert("LessThanOrEqualToThreshold"@.len() != "LessThanLowerOrGreaterThanUpperThreshold"@.len()); }
    assert("LessThanOrEqualToThreshold"@ != "LessThanLowerThreshold"@) by { assert("LessThanOrEqualToThreshold"@.len() != "LessThanLowerThreshold"@.len()); }
    assert("LessThanThreshold"@ != "GreaterThanOrEqualToThreshold"@) by { assert("LessThanThreshold"@.len() != "GreaterThanOrEqualToThreshold"@.len()); }
    assert("LessThanThreshold"@ != "GreaterThanThreshold"@) by { assert("LessThanThreshold"@.len() != "GreaterThanThreshold"@.len()); }
    assert("LessThanThreshold"@ != "GreaterThanUpperThreshold"@) by { assert("LessThanThreshold"@.len() != "GreaterThanUpperThreshold"@.len()); }
    assert("LessThanThreshold"@ != "LessThanLowerOrGreaterThanUpperThreshold"@) by { assert("LessThanThreshold"@.len() != "LessThanLowerOrGreaterThanUpperThreshold"@.len()); }
    assert("LessThanThreshold"@ != "LessThanLowerThreshold"@) by { assert("LessThanThreshold"@.len() != "LessThanLowerThreshold"@.len()); }
    assert("LessThanThreshold"@ != "LessThanOrEqualToThreshold"@) by { assert("LessThanThreshold"@.len() != "LessThanOrEqualToThreshold"@.len()); }
}

/// Each EvaluationState variant has its wire name (`EVALUATION_ERROR` for `EvaluationError`, and so on),
/// and reading that wire name gives the variant back.
pub proof fn lemma_evaluation_state_wire_names()
    ensures
        EvaluationState::EvaluationError.wire() == "EVALUATION_ERROR"@,
        EvaluationState::EvaluationFailure.wire() == "EVALUATION_FAILURE"@,
        EvaluationState::PartialData.wire() == "PARTIAL_DATA"@,
        EvaluationState::spec_from_wire("EVALUATION_ERROR"@) == EvaluationState::EvaluationError,
        EvaluationState::spec_from_wire("EVALUATION_FAILURE"@) == EvaluationState::EvaluationFailure,
        EvaluationState::spec_from_wire("PARTIAL_DATA"@) == EvaluationState::PartialData,
{
    reveal_strlit("EVALUATION_ERROR");
    reveal_strlit("EVALUATION_FAILURE");
    reveal_strlit("PARTIAL_DATA");
    assert("EVALUATION_FAILURE"@ != "EVALUATION_ERROR"@) by { assert("EVALUATION_FAILURE"@.len() != "EVALUATION_ERROR"@.len()); }
    assert("PARTIAL_DATA"@ != "EVALUATION_ERROR"@) by { assert("PARTIAL_DATA"@.len() != "EVALUATION_ERROR"@.len()); }
    assert("PARTIAL_DATA"@ != "EVALUATION_FAILURE"@) by { assert("PARTIAL_DATA"@.len() != "EVALUATION_FAILURE"@.len()); }
}

/// Each HistoryItemType variant has its wire name (`Action` for `Action`, and so on),
/// and reading that wire name gives the variant back.
pub proof fn lemma_history_item_type_wire_names()
    ensures
        HistoryItemType::Action.wire() == "Action"@,
        HistoryItemType::AlarmContributorAction.wire() == "AlarmContributorAction"@,
        HistoryItemType::AlarmContributorStateUpdate.wire() == "AlarmContributorStateUpdate"@,
        HistoryItemType::ConfigurationUpdate.wire() == "ConfigurationUpdate"@,
        HistoryItemType::StateUpdate.wire() == "StateUpdate"@,
        HistoryItemType::spec_from_wire("Action"@) == HistoryItemType::Action,
        HistoryItemType::spec_from_wire("AlarmContributorAction"@) == HistoryItemType::AlarmContributorAction,
        HistoryItemType::spec_from_wire("AlarmContributorStateUpdate"@) == HistoryItemType::AlarmContributorStateUpdate,
        HistoryItemType::spec_from_wire("ConfigurationUpdate"@) == HistoryItemType::ConfigurationUpdate,
        HistoryItemType::spec_from_wire("StateUpdate"@) == HistoryItemType::StateUpdate,
{
    reveal_strlit("Action");
    reveal_strlit("AlarmContributorAction");
    reveal_strlit("AlarmContributorStateUpdate");
    reveal_strlit("ConfigurationUpdate");
    reveal_strlit("StateUpdate");
    assert("AlarmContributorAction"@ != "Action"@) by { assert("AlarmContributorAction"@.len() != "Action"@.len()); }
    assert("AlarmContributorStateUpdate"@ != "Action"@) by { assert("AlarmContributorStateUpdate"@.len() != "Action"@.len()); }
    assert("AlarmContributorStateUpdate"@ != "AlarmContributorAction"@) by { assert("AlarmContributorStateUpdate"@.len() != "AlarmContributorAction"@.len()); }
    assert("ConfigurationUpdate"@ != "Action"@) by { assert("ConfigurationUpdate"@.len() != "Action"@.len()); }
    assert("ConfigurationUpdate"@ != "AlarmContributorAction"@) by { assert("ConfigurationUpdate"@.len() != "AlarmContributorAction"@.len()); }
    assert("ConfigurationUpdate"@ != "AlarmContributorStateUpdate"@) by { assert("ConfigurationUpdate"@.len() != "AlarmContributorStateUpdate"@.len()); }
    assert("StateUpdate"@ != "Action"@) by { assert("StateUpdate"@.len() != "Action"@.len()); }
    assert("StateUpdate"@ != "AlarmContributorAction"@) by { assert("StateUpdate"@.len() != "AlarmContributorAction"@.len()); }
    assert("StateUpdate"@ != "AlarmContributorStateUpdate"@) by { assert("StateUpdate"@.len() != "AlarmContributorStateUpdate"@.len()); }
    assert("StateUpdate"@ != "ConfigurationUpdate"@) by { assert("StateUpdate"@.len() != "ConfigurationUpdate"@.len()); }
}

/// Each MetricStreamOutputFormat variant has its wire name (`json` for `Json`, and so on),
/// and reading that wire name gives the variant back.
pub proof fn lemma_metric_stream_output_format_wire_names()
    ensures
        MetricStreamOutputFormat::Json.wire() == "json"@,
        MetricStreamOutputFormat::OpenTelemetry07.wire() == "opentelemetry0.7"@,
        MetricStreamOutputFormat::OpenTelemetry10.wire() == "opentelemetry1.0"@,
        MetricStreamOutputFormat::spec_from_wire("json"@) == MetricStreamOutputFormat::Json,
        MetricStreamOutputFormat::spec_from_wire("opentelemetry0.7"@) == MetricStreamOutputFormat::OpenTelemetry07,
        MetricStreamOutputFormat::spec_from_wire("opentelemetry1.0"@) == MetricStreamOutputFormat::OpenTelemetry10,
{
    reveal_strlit("json");
    reveal_strlit("opentelemetry0.7");
    reveal_strlit("opentelemetry1.0");
    assert("opentelemetry0.7"@ != "json"@) by { assert("opentelemetry0.7"@.len() != "json"@.len()); }
    assert("opentelemetry1.0"@ != "json"@) by { assert("opentelemetry1.0"@.len() != "json"@.len()); }
    assert("opentelemetry1.0"@ != "opentelemetry0.7"@) by { assert("opentelemetry1.0"@[13] != "opentelemetry0.7"@[13]); }
}

/// Each RecentlyActive variant has its wire name (`PT3H` for `Pt3h`, and so on),
/// and reading that wire name gives the variant back.
pub proof fn lemma_recently_active_wire_names()
    ensures
        RecentlyActive::Pt3h.wire() == "PT3H"@,
        RecentlyActive::spec_from_wire("PT3H"@) == RecentlyActive::Pt3h,
{
    reveal_strlit("PT3H");
}

/// Each ScanBy variant has its wire name (`TimestampAscending` for `TimestampAscending`, and so on),
/// and reading that wire name gives the variant back.
pub proof fn lemma_scan_by_wire_names()
    ensures
        ScanBy::TimestampAscending.wire() == "TimestampAscending"@,
        ScanBy::TimestampDescending.wire() == "TimestampDescending"@,
        ScanBy::spec_from_wire("TimestampAscending"@) == ScanBy::TimestampAscending,
        ScanBy::spec_from_wire("TimestampDescending"@) == ScanBy::TimestampDescending,
{
    reveal_strlit("TimestampAscending");
    reveal_strlit("TimestampDescending");
    assert("TimestampDescending"@ != "TimestampAscending"@) by { assert("TimestampDescending"@.len() != "TimestampAscending"@.len()); }
}

/// Each StandardUnit variant has its wire name (`Bits` for `Bits`, and so on),
/// and reading that wire name gives the variant back.
pub proof fn lemma_standard_unit_wire_names()
    ensures
        StandardUnit::Bits.wire() == "Bits"@,
        StandardUnit::BitsSecond.wire() == "Bits/Second"@,
        StandardUnit::Bytes.wire() == "Bytes"@,
        StandardUnit::BytesSecond.wire() == "Bytes/Second"@,
        StandardUnit::Count.wire() == "Count"@,
        StandardUnit::CountSecond.wire() == "Count/Second"@,
        StandardUnit::Gigabits.wire() == "Gigabits"@,
        StandardUnit::GigabitsSecond.wire() == "Gigabits/Second"@,
        StandardUnit::Gigabytes.wire() == "Gigabytes"@,
        StandardUnit::GigabytesSecond.wire() == "Gigabytes/Second"@,
        StandardUnit::Kilobits.wire() == "Kilobits"@,
        StandardUnit::KilobitsSecond.wire() == "Kilobits/Second"@,
        StandardUnit::Kilobytes.wire() == "Kilobytes"@,
        StandardUnit::KilobytesSecond.wire() == "Kilobytes/Second"@,
        StandardUnit::Megabits.wire() == "Megabits"@,
        StandardUnit::MegabitsSecond.wire() == "Megabits/Second"@,
        StandardUnit::Megabytes.wire() == "Megabytes"@,
        StandardUnit::MegabytesSecond.wire() == "Megabytes/Second"@,
        StandardUnit::Microseconds.wire() == "Microseconds"@,
        StandardUnit::Milliseconds.wire() == "Milliseconds"@,
        StandardUnit::NoUnit.wire() == "None"@,
        StandardUnit::Percent.wire() == "Percent"@,
        StandardUnit::Seconds.wire() == "Seconds"@,
        StandardUnit::Terabits.wire() == "Terabits"@,
        StandardUnit::TerabitsSecond.wire() == "Terabits/Second"@,
        StandardUnit::Terabytes.wire() == "Terabytes"@,
        StandardUnit::TerabytesSecond.wire() == "Terabytes/Second"@,
        StandardUnit::spec_from_wire("Bits"@) == StandardUnit::Bits,
        StandardUnit::spec_from_wire("Bits/Second"@) == StandardUnit::BitsSecond,
        StandardUnit::spec_from_wire("Bytes"@) == StandardUnit::Bytes,
        StandardUnit::spec_from_wire("Bytes/Second"@) == StandardUnit::BytesSecond,
        StandardUnit::spec_from_wire("Count"@) == StandardUnit::Count,
        StandardUnit::spec_from_wire("Count/Second"@) == StandardUnit::CountSecond,
        StandardUnit::spec_from_wire("Gigabits"@) == StandardUnit::Gigabits,
        StandardUnit::spec_from_wire("Gigabits/Second"@) == StandardUnit::GigabitsSecond,
        StandardUnit::spec_from_wire("Gigabytes"@) == StandardUnit::Gigabytes,
        StandardUnit::spec_from_wire("Gigabytes/Second"@) == StandardUnit::GigabytesSecond,
        StandardUnit::spec_from_wire("Kilobits"@) == StandardUnit::Kilobits,
        StandardUnit::spec_from_wire("Kilobits/Second"@) == StandardUnit::KilobitsSecond,
        StandardUnit::spec_from_wire("Kilobytes"@) == StandardUnit::Kilobytes,
        StandardUnit::spec_from_wire("Kilobytes/Second"@) == StandardUnit::KilobytesSecond,
        StandardUnit::spec_from_wire("Megabits"@) == StandardUnit::Megabits,
        StandardUnit::spec_from_wire("Megabits/Second"@) == StandardUnit::MegabitsSecond,
        StandardUnit::spec_from_wire("Megabytes"@) == StandardUnit::Megabytes,
        StandardUnit::spec_from_wire("Megabytes/Second"@) == StandardUnit::MegabytesSecond,
        StandardUnit::spec_from_wire("Microseconds"@) == StandardUnit::Microseconds,
        StandardUnit::spec_from_wire("Milliseconds"@) == StandardUnit::Milliseconds,
        StandardUnit::spec_from_wire("None"@) == StandardUnit::NoUnit,
        StandardUnit::spec_from_wire("Percent"@) == StandardUnit::Percent,
        StandardUnit::spec_from_wire("Seconds"@) == StandardUnit::Seconds,
        StandardUnit::spec_from_wire("Terabits"@) == StandardUnit::Terabits,
        StandardUnit::spec_from_wire("Terabits/Second"@) == StandardUnit::TerabitsSecond,
        StandardUnit::spec_from_wire("Terabytes"@) == StandardUnit::Terabytes,
        StandardUnit::spec_from_wire("Terabytes/Second"@) == StandardUnit::TerabytesSecond,
{
    reveal_strlit("Bits");
    reveal_strlit("Bits/Second");
    reveal_strlit("Bytes");
    reveal_strlit("Bytes/Second");
    reveal_strlit("Count");
    reveal_strlit("Count/Second");
    reveal_strlit("Gigabits");
    reveal_strlit("Gigabits/Second");
    reveal_strlit("Gigabytes");
    reveal_strlit("Gigabytes/Second");
    reveal_strlit("Kilobits");
    reveal_strlit("Kilobits/Second");
    reveal_strlit("Kilobytes");
    reveal_strlit("Kilobytes/Second");
    reveal_strlit("Megabits");
    reveal_strlit("Megabits/Second");
    reveal_strlit("Megabytes");
    reveal_strlit("Megabytes/Second");
    reveal_strlit("Microseconds");
    reveal_strlit("Milliseconds");
    reveal_strlit("None");
    reveal_strlit("Percent");
    reveal_strlit("Seconds");
    reveal_strlit("Terabits");
    reveal_strlit("Terabits/Second");
    reveal_strlit("Terabytes");
    reveal_strlit("Terabytes/Second");
    assert("Bits/Second"@ != "Bits"@) by { assert("Bits/Second"@.len() != "Bits"@.len()); }
    assert("Bytes"@ != "Bits"@) by { assert("Bytes"@.len() != "Bits"@.len()); }
    assert("Bytes"@ != "Bits/Second"@) by { assert("Bytes"@.len() != "Bits/Second"@.len()); }
    assert("Bytes/Second"@ != "Bits"@) by { assert("Bytes/Second"@.len() != "Bits"@.len()); }
    assert("Bytes/Second"@ != "Bits/Second"@) by { assert("Bytes/Second"@.len() != "Bits/Second"@.len()); }
    assert("Bytes/Second"@ != "Bytes"@) by { assert("Bytes/Second"@.len() != "Bytes"@.len()); }
    assert("Count"@ != "Bits"@) by { assert("Count"@.len() != "Bits"@.len()); }
    assert("Count"@ != "Bits/Second"@) by { assert("Count"@.len() != "Bits/Second"@.len()); }
    assert("Count"@ != "Bytes"@) by { assert("Count"@[0] != "Bytes"@[0]); }
    assert("Count"@ != "Bytes/Second"@) by { assert("Count"@.len() != "Bytes/Second"@.len()); }
    assert("Count/Second"@ != "Bits"@) by { assert("Count/Second"@.len() != "Bits"@.len()); }
    assert("Count/Second"@ != "Bits/Second"@) by { assert("Count/Second"@.len() != "Bits/Second"@.len()); }
    assert("Count/Second"@ != "Bytes"@) by { assert("Count/Second"@.len() != "Bytes"@.len()); }
    assert("Count/Second"@ != "Bytes/Second"@) by { assert("Count/Second"@[0] != "Bytes/Second"@[0]); }
    assert("Count/Second"@ != "Count"@) by { assert("Count/Second"@.len() != "Count"@.len()); }
    assert("Gigabits"@ != "Bits"@) by { assert("Gigabits"@.len() != "Bits"@.len()); }
    assert("Gigabits"@ != "Bits/Second"@) by { assert("Gigabits"@.len() != "Bits/Second"@.len()); }
    assert("Gigabits"@ != "Bytes"@) by { assert("Gigabits"@.len() != "Bytes"@.len()); }
    assert("Gigabits"@ != "Bytes/Second"@) by { assert("Gigabits"@.len() != "Bytes/Second"@.len()); }
    assert("Gigabits"@ != "Count"@) by { assert("Gigabits"@.len() != "Count"@.len()); }
    assert("Gigabits"@ != "Count/Second"@) by { assert("Gigabits"@.len() != "Count/Second"@.len()); }
    assert("Gigabits/Second"@ != "Bits"@) by { assert("Gigabits/Second"@.len() != "Bits"@.len()); }
    assert("Gigabits/Second"@ != "Bits/Second"@) by { assert("Gigabits/Second"@.len() != "Bits/Second"@.len()); }
    assert("Gigabits/Second"@ != "Bytes"@) by { assert("Gigabits/Second"@.len() != "Bytes"@.len()); }
    assert("Gigabits/Second"@ != "Bytes/Second"@) by { assert("Gigabits/Second"@.len() != "Bytes/Second"@.len()); }
    assert("Gigabits/Second"@ != "Count"@) by { assert("Gigabits/Second"@.len() != "Count"@.len()); }
    assert("Gigabits/Second"@ != "Count/Second"@) by { assert("Gigabits/Second"@.len() != "Count/Second"@.len()); }
    assert("Gigabits/Second"@ != "Gigabits"@) by { assert("Gigabits/Second"@.len() != "Gigabits"@.len()); }
    assert("Gigabytes"@ != "Bits"@) by { assert("Gigabytes"@.len() != "Bits"@.len()); }
    assert("Gigabytes"@ != "Bits/Second"@) by { assert("Gigabytes"@.len() != "Bits/Second"@.len()); }
    assert("Gigabytes"@ != "Bytes"@) by { assert("Gigabytes"@.len() != "Bytes"@.len()); }
    assert("Gigabytes"@ != "Bytes/Second"@) by { assert("Gigabytes"@.len() != "Bytes/Second"@.len()); }
    assert("Gigabytes"@ != "Count"@) by { assert("Gigabytes"@.len() != "Count"@.len()); }
    assert("Gigabytes"@ != "Count/Second"@) by { assert("Gigabytes"@.len() != "Count/Second"@.len()); }
    assert("Gigabytes"@ != "Gigabits"@) by { assert("Gigabytes"@.len() != "Gigabits"@.len()); }
    assert("Gigabytes"@ != "Gigabits/Second"@) by { assert("Gigabytes"@.len() != "Gigabits/Second"@.len()); }
    assert("Gigabytes/Second"@ != "Bits"@) by { assert("Gigabytes/Second"@.len() != "Bits"@.len()); }
    assert("Gigabytes/Second"@ != "Bits/Second"@) by { assert("Gigabytes/Second"@.len() != "Bits/Second"@.len()); }
    assert("Gigabytes/Second"@ != "Bytes"@) by { assert("Gigabytes/Second"@.len() != "Bytes"@.len()); }
    assert("Gigabytes/Second"@ != "Bytes/Second"@) by { assert("Gigabytes/Second"@.len() != "Bytes/Second"@.len()); }
    assert("Gigabytes/Second"@ != "Count"@) by { assert("Gigabytes/Second"@.len() != "Count"@.len()); }
    assert("Gigabytes/Second"@ != "Count/Second"@) by { assert("Gigabytes/Second"@.len() != "Count/Second"@.len()); }
    assert("Gigabytes/Second"@ != "Gigabits"@) by { assert("Gigabytes/Second"@.len() != "Gigabits"@.len()); }
    assert("Gigabytes/Second"@ != "Gigabits/Second"@) by { assert("Gigabytes/Second"@.len() != "Gigabits/Second"@.len()); }
    assert("Gigabytes/Second"@ != "Gigabytes"@) by { assert("Gigabytes/Second"@.len() != "Gigabytes"@.len()); }
    assert("Kilobits"@ != "Bits"@) by { assert("Kilobits"@.len() != "Bits"@.len()); }
    assert("Kilobits"@ != "Bits/Second"@) by { assert("Kilobits"@.len() != "Bits/Second"@.len()); }
    assert("Kilobits"@ != "Bytes"@) by { assert("Kilobits"@.len() != "Bytes"@.len()); }
    assert("Kilobits"@ != "Bytes/Second"@) by { assert("Kilobits"@.len() != "Bytes/Second"@.len()); }
    assert("Kilobits"@ != "Count"@) by { assert("Kilobits"@.len() != "Count"@.len()); }
    assert("Kilobits"@ != "Count/Second"@) by { assert("Kilobits"@.len() != "Count/Second"@.len()); }
    assert("Kilobits"@ != "Gigabits"@) by { assert("Kilobits"@[0] != "Gigabits"@[0]); }
    assert("Kilobits"@ != "Gigabits/Second"@) by { assert("Kilobits"@.len() != "Gigabits/Second"@.len()); }
    assert("Kilobits"@ != "Gigabytes"@) by { assert("Kilobits"@.len() != "Gigabytes"@.len()); }
    assert("Kilobits"@ != "Gigabytes/Second"@) by { assert("Kilobits"@.len() != "Gigabytes/Second"@.len()); }
    assert("Kilobits/Second"@ != "Bits"@) by { assert("Kilobits/Second"@.len() != "Bits"@.len()); }
    assert("Kilobits/Second"@ != "Bits/Second"@) by { assert("Kilobits/Second"@.len() != "Bits/Second"@.len()); }
    assert("Kilobits/Second"@ != "Bytes"@) by { assert("Kilobits/Second"@.len() != "Bytes"@.len()); }
    assert("Kilobits/Second"@ != "Bytes/Second"@) by { assert("Kilobits/Second"@.len() != "Bytes/Second"@.len()); }
    assert("Kilobits/Second"@ != "Count"@) by { assert("Kilobits/Second"@.len() != "Count"@.len()); }
    assert("Kilobits/Second"@ != "Count/Second"@) by { assert("Kilobits/Second"@.len() != "Count/Second"@.len()); }
    assert("Kilobits/Second"@ != "Gigabits"@) by { assert("Kilobits/Second"@.len() != "Gigabits"@.len()); }
    assert("Kilobits/Second"@ != "Gigabits/Second"@) by { assert("Kilobits/Second"@[0] != "Gigabits/Second"@[0]); }
    assert("Kilobits/Second"@ != "Gigabytes"@) by { assert("Kilobits/Second"@.len() != "Gigabytes"@.len()); }
    assert("Kilobits/Second"@ != "Gigabytes/Second"@) by { assert("Kilobits/Second"@.len() != "Gigabytes/Second"@.len()); }
    assert("Kilobits/Second"@ != "Kilobits"@) by { assert("Kilobits/Second"@.len() != "Kilobits"@.len()); }
    assert("Kilobytes"@ != "Bits"@) by { assert("Kilobytes"@.len() != "Bits"@.len()); }
    assert("Kilobytes"@ != "Bits/Second"@) by { assert("Kilobytes"@.len() != "Bits/Second"@.len()); }
    assert("Kilobytes"@ != "Bytes"@) by { assert("Kilobytes"@.len() != "Bytes"@.len()); }
    assert("Kilobytes"@ != "Bytes/Second"@) by { assert("Kilobytes"@.len() != "Bytes/Second"@.len()); }
    assert("Kilobytes"@ != "Count"@) by { assert("Kilobytes"@.len() != "Count"@.len()); }
    assert("Kilobytes"@ != "Count/Second"@) by { assert("Kilobytes"@.len() != "Count/Second"@.len()); }
    assert("Kilobytes"@ != "Gigabits"@) by { assert("Kilobytes"@.len() != "Gigabits"@.len()); }
    assert("Kilobytes"@ != "Gigabits/Second"@) by { assert("Kilobytes"@.len() != "Gigabits/Second"@.len()); }
    assert("Kilobytes"@ != "Gigabytes"@) by { assert("Kilobytes"@[0] != "Gigabytes"@[0]); }
    assert("Kilobytes"@ != "Gigabytes/Second"@) by { assert("Kilobytes"@.len() != "Gigabytes/Second"@.len()); }
    assert("Kilobytes"@ != "Kilobits"@) by { assert("Kilobytes"@.len() != "Kilobits"@.len()); }
    assert("Kilobytes"@ != "Kilobits/Second"@) by { assert("Kilobytes"@.len() != "Kilobits/Second"@.len()); }
    assert("Kilobytes/Second"@ != "Bits"@) by { assert("Kilobytes/Second"@.len() != "Bits"@.len()); }
    assert("Kilobytes/Second"@ != "Bits/Second"@) by { assert("Kilobytes/Second"@.len() != "Bits/Second"@.len()); }
    assert("Kilobytes/Second"@ != "Bytes"@) by { assert("Kilobytes/Second"@.len() != "Bytes"@.len()); }
    assert("Kilobytes/Second"@ != "Bytes/Second"@) by { assert("Kilobytes/Second"@.len() != "Bytes/Second"@.len()); }
    assert("Kilobytes/Second"@ != "Count"@) by { assert("Kilobytes/Second"@.len() != "Count"@.len()); }
    assert("Kilobytes/Second"@ != "Count/Second"@) by { assert("Kilobytes/Second"@.len() != "Count/Second"@.len()); }
    assert("Kilobytes/Second"@ != "Gigabits"@) by { assert("Kilobytes/Second"@.len() != "Gigabits"@.len()); }
    assert("Kilobytes/Second"@ != "Gigabits/Second"@) by { assert("Kilobytes/Second"@.len() != "Gigabits/Second"@.len()); }
    assert("Kilobytes/Second"@ != "Gigabytes"@) by { assert("Kilobytes/Second"@.len() != "Gigabytes"@.len()); }
    assert("Kilobytes/Second"@ != "Gigabytes/Second"@) by { assert("Kilobytes/Second"@[0] != "Gigabytes/Second"@[0]); }
    assert("Kilobytes/Second"@ != "Kilobits"@) by { assert("Kilobytes/Second"@.len() != "Kilobits"@.len()); }
    assert("Kilobytes/Second"@ != "Kilobits/Second"@) by { assert("Kilobytes/Second"@.len() != "Kilobits/Second"@.len()); }
    assert("Kilobytes/Second"@ != "Kilobytes"@) by { assert("Kilobytes/Second"@.len() != "Kilobytes"@.len()); }
    assert("Megabits"@ != "Bits"@) by { assert("Megabits"@.len() != "Bits"@.len()); }
    assert("Megabits"@ != "Bits/Second"@) by { assert("Megabits"@.len() != "Bits/Second"@.len()); }
    assert("Megabits"@ != "Bytes"@) by { assert("Megabits"@.len() != "Bytes"@.len()); }
    assert("Megabits"@ != "Bytes/Second"@) by { assert("Megabits"@.len() != "Bytes/Second"@.len()); }
    assert("Megabits"@ != "Count"@) by { assert("Megabits"@.len() != "Count"@.len()); }
    assert("Megabits"@ != "Count/Second"@) by { assert("Megabits"@.len() != "Count/Second"@.len()); }
    assert("Megabits"@ != "Gigabits"@) by { assert("Megabits"@[0] != "Gigabits"@[0]); }
    assert("Megabits"@ != "Gigabits/Second"@) by { assert("Megabits"@.len() != "Gigabits/Second"@.len()); }
    assert("Megabits"@ != "Gigabytes"@) by { assert("Megabits"@.len() != "Gigabytes"@.len()); }
    assert("Megabits"@ != "Gigabytes/Second"@) by { assert("Megabits"@.len() != "Gigabytes/Second"@.len()); }
    assert("Megabits"@ != "Kilobits"@) by { assert("Megabits"@[0] != "Kilobits"@[0]); }
    assert("Megabits"@ != "Kilobits/Second"@) by { assert("Megabits"@.len() != "Kilobits/Second"@.len()); }
    assert("Megabits"@ != "Kilobytes"@) by { assert("Megabits"@.len() != "Kilobytes"@.len()); }
    assert("Megabits"@ != "Kilobytes/Second"@) by { assert("Megabits"@.len() != "Kilobytes/Second"@.len()); }
    assert("Megabits/Second"@ != "Bits"@) by { assert("Megabits/Second"@.len() != "Bits"@.len()); }
    assert("Megabits/Second"@ != "Bits/Second"@) by { assert("Megabits/Second"@.len() != "Bits/Second"@.len()); }
    assert("Megabits/Second"@ != "Bytes"@) by { assert("Megabits/Second"@.len() != "Bytes"@.len()); }
    assert("Megabits/Second"@ != "Bytes/Second"@) by { assert("Megabits/Second"@.len() != "Bytes/Second"@.len()); }
    assert("Megabits/Second"@ != "Count"@) by { assert("Megabits/Second"@.len() != "Count"@.len()); }
    assert("Megabits/Second"@ != "Count/Second"@) by { assert("Megabits/Second"@.len() != "Count/Second"@.len()); }
    assert("Megabits/Second"@ != "Gigabits"@) by { assert("Megabits/Second"@.len() != "Gigabits"@.len()); }
    assert("Megabits/Second"@ != "Gigabits/Second"@) by { assert("Megabits/Second"@[0] != "Gigabits/Second"@[0]); }
    assert("Megabits/Second"@ != "Gigabytes"@) by { assert("Megabits/Second"@.len() != "Gigabytes"@.len()); }
    assert("Megabits/Second"@ != "Gigabytes/Second"@) by { assert("Megabits/Second"@.len() != "Gigabytes/Second"@.len()); }
    assert("Megabits/Second"@ != "Kilobits"@) by { assert("Megabits/Second"@.len() != "Kilobits"@.len()); }
    assert("Megabits/Second"@ != "Kilobits/Second"@) by { assert("Megabits/Second"@[0] != "Kilobits/Second"@[0]); }
    assert("Megabits/Second"@ != "Kilobytes"@) by { assert("Megabits/Second"@.len() != "Kilobytes"@.len()); }
    assert("Megabits/Second"@ != "Kilobytes/Second"@) by { assert("Megabits/Second"@.len() != "Kilobytes/Second"@.len()); }
    assert("Megabits/Second"@ != "Megabits"@) by { assert("Megabits/Second"@.len() != "Megabits"@.len()); }
    assert("Megabytes"@ != "Bits"@) by { assert("Megabytes"@.len() != "Bits"@.len()); }
    assert("Megabytes"@ != "Bits/Second"@) by { assert("Megabytes"@.len() != "Bits/Second"@.len()); }
    assert("Megabytes"@ != "Bytes"@) by { assert("Megabytes"@.len() != "Bytes"@.len()); }
    assert("Megabytes"@ != "Bytes/Second"@) by { assert("Megabytes"@.len() != "Bytes/Second"@.len()); }
    assert("Megabytes"@ != "Count"@) by { assert("Megabytes"@.len() != "Count"@.len()); }
    assert("Megabytes"@ != "Count/Second"@) by { assert("Megabytes"@.len() != "Count/Second"@.len()); }
    assert("Megabytes"@ != "Gigabits"@) by { assert("Megabytes"@.len() != "Gigabits"@.len()); }
    assert("Megabytes"@ != "Gigabits/Second"@) by { assert("Megabytes"@.len() != "Gigabits/Second"@.len()); }
    assert("Megabytes"@ != "Gigabytes"@) by { assert("Megabytes"@[0] != "Gigabytes"@[0]); }
    assert("Megabytes"@ != "Gigabytes/Second"@) by { assert("Megabytes"@.len() != "Gigabytes/Second"@.len()); }
    assert("Megabytes"@ != "Kilobits"@) by { assert("Megabytes"@.len() != "Kilobits"@.len()); }
    assert("Megabytes"@ != "Kilobits/Second"@) by { assert("Megabytes"@.len() != "Kilobits/Second"@.len()); }
    assert("Megabytes"@ != "Kilobytes"@) by { assert("Megabytes"@[0] != "Kilobytes"@[0]); }
    assert("Megabytes"@ != "Kilobytes/Second"@) by { assert("Megabytes"@.len() != "Kilobytes/Second"@.len()); }
    assert("Megabytes"@ != "Megabits"@) by { assert("Megabytes"@.len() != "Megabits"@.len()); }
    assert("Megabytes"@ != "Megabits/Second"@) by { assert("Megabytes"@.len() != "Megabits/Second"@.len()); }
    assert("Megabytes/Second"@ != "Bits"@) by { assert("Megabytes/Second"@.len() != "Bits"@.len()); }
    assert("Megabytes/Second"@ != "Bits/Second"@) by { assert("Megabytes/Second"@.len() != "Bits/Second"@.len()); }
    assert("Megabytes/Second"@ != "Bytes"@) by { assert("Megabytes/Second"@.len() != "Bytes"@.len()); }
    assert("Megabytes/Second"@ != "Bytes/Second"@) by { assert("Megabytes/Second"@.len() != "Bytes/Second"@.len()); }
    assert("Megabytes/Second"@ != "Count"@) by { assert("Megabytes/Second"@.len() != "Count"@.len()); }
    assert("Megabytes/Second"@ != "Count/Second"@) by { assert("Megabytes/Second"@.len() != "Count/Second"@.len()); }
    assert("Megabytes/Second"@ != "Gigabits"@) by { assert("Megabytes/Second"@.len() != "Gigabits"@.len()); }
    assert("Megabytes/Second"@ != "Gigabits/Second"@) by { assert("Megabytes/Second"@.len() != "Gigabits/Second"@.len()); }
    assert("Megabytes/Second"@ != "Gigabytes"@) by { assert("Megabytes/Second"@.len() != "Gigabytes"@.len()); }
    assert("Megabytes/Second"@ != "Gigabytes/Second"@) by { assert("Megabytes/Second"@[0] != "Gigabytes/Second"@[0]); }
    assert("Megabytes/Second"@ != "Kilobits"@) by { assert("Megabytes/Second"@.len() != "Kilobits"@.len()); }
    assert("Megabytes/Second"@ != "Kilobits/Second"@) by { assert("Megabytes/Second"@.len() != "Kilobits/Second"@.len()); }
    assert("Megabytes/Second"@ != "Kilobytes"@) by { assert("Megabytes/Second"@.len() != "Kilobytes"@.len()); }
    assert("Megabytes/Second"@ != "Kilobytes/Second"@) by { assert("Megabytes/Second"@[0] != "Kilobytes/Second"@[0]); }
    assert("Megabytes/Second"@ != "Megabits"@) by { assert("Megabytes/Second"@.len() != "Megabits"@.len()); }
    assert("Megabytes/Second"@ != "Megabits/Second"@) by { assert("Megabytes/Second"@.len() != "Megabits/Second"@.len()); }
    assert("Megabytes/Second"@ != "Megabytes"@) by { assert("Megabytes/Second"@.len() != "Megabytes"@.len()); }
    assert("Microseconds"@ != "Bits"@) by { assert("Microseconds"@.len() != "Bits"@.len()); }
    assert("Microseconds"@ != "Bits/Second"@) by { assert("Microseconds"@.len() != "Bits/Second"@.len()); }
    assert("Microseconds"@ != "Bytes"@) by { assert("Microseconds"@.len() != "Bytes"@.len()); }
    assert("Microseconds"@ != "Bytes/Second"@) by { assert("Microseconds"@[0] != "Bytes/Second"@[0]); }
    assert("Microseconds"@ != "Count"@) by { assert("Microseconds"@.len() != "Count"@.len()); }
    assert("Microseconds"@ != "Count/Second"@) by { assert("Microseconds"@[0] != "Count/Second"@[0]); }
    assert("Microseconds"@ != "Gigabits"@) by { assert("Microseconds"@.len() != "Gigabits"@.len()); }
    assert("Microseconds"@ != "Gigabits/Second"@) by { assert("Microseconds"@.len() != "Gigabits/Second"@.len()); }
    assert("Microseconds"@ != "Gigabytes"@) by { assert("Microseconds"@.len() != "Gigabytes"@.len()); }
    assert("Microseconds"@ != "Gigabytes/Second"@) by { assert("Microseconds"@.len() != "Gigabytes/Second"@.len()); }
    assert("Microseconds"@ != "Kilobits"@) by { assert("Microseconds"@.len() != "Kilobits"@.len()); }
    assert("Microseconds"@ != "Kilobits/Second"@) by { assert("Microseconds"@.len() != "Kilobits/Second"@.len()); }
    assert("Microseconds"@ != "Kilobytes"@) by { assert("Microseconds"@.len() != "Kilobytes"@.len()); }
    assert("Microseconds"@ != "Kilobytes/Second"@) by { assert("Microseconds"@.len() != "Kilobytes/Second"@.len()); }
    assert("Microseconds"@ != "Megabits"@) by { assert("Microseconds"@.len() != "Megabits"@.len()); }
    assert("Microseconds"@ != "Megabits/Second"@) by { assert("Microseconds"@.len() != "Megabits/Second"@.len()); }
    assert("Microseconds"@ != "Megabytes"@) by { assert("Microseconds"@.len() != "Megabytes"@.len()); }
    assert("Microseconds"@ != "Megabytes/Second"@) by { assert("Microseconds"@.len() != "Megabytes/Second"@.len()); }
    assert("Milliseconds"@ != "Bits"@) by { assert("Milliseconds"@.len() != "Bits"@.len()); }
    assert("Milliseconds"@ != "Bits/Second"@) by { assert("Milliseconds"@.len() != "Bits/Second"@.len()); }
    assert("Milliseconds"@ != "Bytes"@) by { assert("Milliseconds"@.len() != "Bytes"@.len()); }
    assert("Milliseconds"@ != "Bytes/Second"@) by { assert("Milliseconds"@[0] != "Bytes/Second"@[0]); }
    assert("Milliseconds"@ != "Count"@) by { assert("Milliseconds"@.len() != "Count"@.len()); }
    assert("Milliseconds"@ != "Count/Second"@) by { assert("Milliseconds"@[0] != "Count/Second"@[0]); }
    assert("Milliseconds"@ != "Gigabits"@) by { assert("Milliseconds"@.len() != "Gigabits"@.len()); }
    assert("Milliseconds"@ != "Gigabits/Second"@) by { assert("Milliseconds"@.len() != "Gigabits/Second"@.len()); }
    assert("Milliseconds"@ != "Gigabytes"@) by { assert("Milliseconds"@.len() != "Gigabytes"@.len()); }
    assert("Milliseconds"@ != "Gigabytes/Second"@) by { assert("Milliseconds"@.len() != "Gigabytes/Second"@.len()); }
    assert("Milliseconds"@ != "Kilobits"@) by { assert("Milliseconds"@.len() != "Kilobits"@.len()); }
    assert("Milliseconds"@ != "Kilobits/Second"@) by { assert("Milliseconds"@.len() != "Kilobits/Second"@.len()); }
    assert("Milliseconds"@ != "Kilobytes"@) by { assert("Milliseconds"@.len() != "Kilobytes"@.len()); }
    assert("Milliseconds"@ != "Kilobytes/Second"@) by { assert("Milliseconds"@.len() != "Kilobytes/Second"@.len()); }
    assert("Milliseconds"@ != "Megabits"@) by { assert("Milliseconds"@.len() != "Megabits"@.len()); }
    assert("Milliseconds"@ != "Megabits/Second"@) by { assert("Milliseconds"@.len() != "Megabits/Second"@.len()); }
    assert("Milliseconds"@ != "Megabytes"@) by { assert("Milliseconds"@.len() != "Megabytes"@.len()); }
    assert("Milliseconds"@ != "Megabytes/Second"@) by { assert("Milliseconds"@.len() != "Megabytes/Second"@.len()); }
    assert("Milliseconds"@ != "Microseconds"@) by { assert("Milliseconds"@[2] != "Microseconds"@[2]); }
    assert("None"@ != "Bits"@) by { assert("None"@[0] != "Bits"@[0]); }
    assert("None"@ != "Bits/Second"@) by { assert("None"@.len() != "Bits/Second"@.len()); }
    assert("None"@ != "Bytes"@) by { assert("None"@.len() != "Bytes"@.len()); }
    assert("None"@ != "Bytes/Second"@) by { assert("None"@.len() != "Bytes/Second"@.len()); }
    assert("None"@ != "Count"@) by { assert("None"@.len() != "Count"@.len()); }
    assert("None"@ != "Count/Second"@) by { assert("None"@.len() != "Count/Second"@.len()); }
    assert("None"@ != "Gigabits"@) by { assert("None"@.len() != "Gigabits"@.len()); }
    assert("None"@ != "Gigabits/Second"@) by { assert("None"@.len() != "Gigabits/Second"@.len()); }
    assert("None"@ != "Gigabytes"@) by { assert("None"@.len() != "Gigabytes"@.len()); }
    assert("None"@ != "Gigabytes/Second"@) by { assert("None"@.len() != "Gigabytes/Second"@.len()); }
    assert("None"@ != "Kilobits"@) by { assert("None"@.len() != "Kilobits"@.len()); }
    assert("None"@ != "Kilobits/Second"@) by { assert("None"@.len() != "Kilobits/Second"@.len()); }
    assert("None"@ != "Kilobytes"@) by { assert("None"@.len() != "Kilobytes"@.len()); }
    assert("None"@ != "Kilobytes/Second"@) by { assert("None"@.len() != "Kilobytes/Second"@.len()); }
    assert("None"@ != "Megabits"@) by { assert("None"@.len() != "Megabits"@.len()); }
    assert("None"@ != "Megabits/Second"@) by { assert("None"@.len() != "Megabits/Second"@.len()); }
    assert("None"@ != "Megabytes"@) by { assert("None"@.len() != "Megabytes"@.len()); }
    assert("None"@ != "Megabytes/Second"@) by { assert("None"@.len() != "Megabytes/Second"@.len()); }
    assert("None"@ != "Microseconds"@) by { assert("None"@.len() != "Microseconds"@.len()); }
    assert("None"@ != "Milliseconds"@) by { assert("None"@.len() != "Milliseconds"@.len()); }
    assert("Percent"@ != "Bits"@) by { assert("Percent"@.len() != "Bits"@.len()); }
    assert("Percent"@ != "Bits/Second"@) by { assert("Percent"@.len() != "Bits/Second"@.len()); }
    assert("Percent"@ != "Bytes"@) by { assert("Percent"@.len() != "Bytes"@.len()); }
    assert("Percent"@ != "Bytes/Second"@) by { assert("Percent"@.len() != "Bytes/Second"@.len()); }
    assert("Percent"@ != "Count"@) by { assert("Percent"@.len() != "Count"@.len()); }
    assert("Percent"@ != "Count/Second"@) by { assert("Percent"@.len() != "Count/Second"@.len()); }
    assert("Percent"@ != "Gigabits"@) by { assert("Percent"@.len() != "Gigabits"@.len()); }
    assert("Percent"@ != "Gigabits/Second"@) by { assert("Percent"@.len() != "Gigabits/Second"@.len()); }
    assert("Percent"@ != "Gigabytes"@) by { assert("Percent"@.len() != "Gigabytes"@.len()); }
    assert("Percent"@ != "Gigabytes/Second"@) by { assert("Percent"@.len() != "Gigabytes/Second"@.len()); }
    assert("Percent"@ != "Kilobits"@) by { assert("Percent"@.len() != "Kilobits"@.len()); }
    assert("Percent"@ != "Kilobits/Second"@) by { assert("Percent"@.len() != "Kilobits/Second"@.len()); }
    assert("Percent"@ != "Kilobytes"@) by { assert("Percent"@.len() != "Kilobytes"@.len()); }
    assert("Percent"@ != "Kilobytes/Second"@) by { assert("Percent"@.len() != "Kilobytes/Second"@.len()); }
    assert("Percent"@ != "Megabits"@) by { assert("Percent"@.len() != "Megabits"@.len()); }
    assert("Percent"@ != "Megabits/Second"@) by { assert("Percent"@.len() != "Megabits/Second"@.len()); }
    assert("Percent"@ != "Megabytes"@) by { assert("Percent"@.len() != "Megabytes"@.len()); }
    assert("Percent"@ != "Megabytes/Second"@) by { assert("Percent"@.len() != "Megabytes/Second"@.len()); }
    assert("Percent"@ != "Microseconds"@) by { assert("Percent"@.len() != "Microseconds"@.len()); }
    assert("Percent"@ != "Milliseconds"@) by { assert("Percent"@.len() != "Milliseconds"@.len()); }
    assert("Percent"@ != "None"@) by { assert("Percent"@.len() != "None"@.len()); }
    assert("Seconds"@ != "Bits"@) by { assert("Seconds"@.len() != "Bits"@.len()); }
    assert("Seconds"@ != "Bits/Second"@) by { assert("Seconds"@.len() != "Bits/Second"@.len()); }
    assert("Seconds"@ != "Bytes"@) by { assert("Seconds"@.len() != "Bytes"@.len()); }
    assert("Seconds"@ != "Bytes/Second"@) by { assert("Seconds"@.len() != "Bytes/Second"@.len()); }
    assert("Seconds"@ != "Count"@) by { assert("Seconds"@.len() != "Count"@.len()); }
    assert("Seconds"@ != "Count/Second"@) by { assert("Seconds"@.len() != "Count/Second"@.len()); }
    assert("Seconds"@ != "Gigabits"@) by { assert("Seconds"@.len() != "Gigabits"@.len()); }
    assert("Seconds"@ != "Gigabits/Second"@) by { assert("Seconds"@.len() != "Gigabits/Second"@.len()); }
    assert("Seconds"@ != "Gigabytes"@) by { assert("Seconds"@.len() != "Gigabytes"@.len()); }
    assert("Seconds"@ != "Gigabytes/Second"@) by { assert("Seconds"@.len() != "Gigabytes/Second"@.len()); }
    assert("Seconds"@ != "Kilobits"@) by { assert("Seconds"@.len() != "Kilobits"@.len()); }
    assert("Seconds"@ != "Kilobits/Second"@) by { assert("Seconds"@.len() != "Kilobits/Second"@.len()); }
    assert("Seconds"@ != "Kilobytes"@) by { assert("Seconds"@.len() != "Kilobytes"@.len()); }
    assert("Seconds"@ != "Kilobytes/Second"@) by { assert("Seconds"@.len() != "Kilobytes/Second"@.len()); }
    assert("Seconds"@ != "Megabits"@) by { assert("Seconds"@.len() != "Megabits"@.len()); }
    assert("Seconds"@ != "Megabits/Second"@) by { assert("Seconds"@.len() != "Megabits/Second"@.len()); }
    assert("Seconds"@ != "Megabytes"@) by { assert("Seconds"@.len() != "Megabytes"@.len()); }
    assert("Seconds"@ != "Megabytes/Second"@) by { assert("Seconds"@.len() != "Megabytes/Second"@.len()); }
    assert("Seconds"@ != "Microseconds"@) by { assert("Seconds"@.len() != "Microseconds"@.len()); }
    assert("Seconds"@ != "Milliseconds"@) by { assert("Seconds"@.len() != "Milliseconds"@.len()); }
    assert("Seconds"@ != "None"@) by { assert("Seconds"@.len() != "None"@.len()); }
    assert("Seconds"@ != "Percent"@) by { assert("Seconds"@[0] != "Percent"@[0]); }
    assert("Terabits"@ != "Bits"@) by { assert("Terabits"@.len() != "Bits"@.len()); }
    assert("Terabits"@ != "Bits/Second"@) by { assert("Terabits"@.len() != "Bits/Second"@.len()); }
    assert("Terabits"@ != "Bytes"@) by { assert("Terabits"@.len() != "Bytes"@.len()); }
    assert("Terabits"@ != "Bytes/Second"@) by { assert("Terabits"@.len() != "Bytes/Second"@.len()); }
    assert("Terabits"@ != "Count"@) by { assert("Terabits"@.len() != "Count"@.len()); }
    assert("Terabits"@ != "Count/Second"@) by { assert("Terabits"@.len() != "Count/Second"@.len()); }
    assert("Terabits"@ != "Gigabits"@) by { assert("Terabits"@[0] != "Gigabits"@[0]); }
    assert("Terabits"@ != "Gigabits/Second"@) by { assert("Terabits"@.len() != "Gigabits/Second"@.len()); }
    assert("Terabits"@ != "Gigabytes"@) by { assert("Terabits"@.len() != "Gigabytes"@.len()); }
    assert("Terabits"@ != "Gigabytes/Second"@) by { assert("Terabits"@.len() != "Gigabytes/Second"@.len()); }
    assert("Terabits"@ != "Kilobits"@) by { assert("Terabits"@[0] != "Kilobits"@[0]); }
    assert("Terabits"@ != "Kilobits/Second"@) by { assert("Terabits"@.len() != "Kilobits/Second"@.len()); }
    assert("Terabits"@ != "Kilobytes"@) by { assert("Terabits"@.len() != "Kilobytes"@.len()); }
    assert("Terabits"@ != "Kilobytes/Second"@) by { assert("Terabits"@.len() != "Kilobytes/Second"@.len()); }
    assert("Terabits"@ != "Megabits"@) by { assert("Terabits"@[0] != "Megabits"@[0]); }
    assert("Terabits"@ != "Megabits/Second"@) by { assert("Terabits"@.len() != "Megabits/Second"@.len()); }
    assert("Terabits"@ != "Megabytes"@) by { assert("Terabits"@.len() != "Megabytes"@.len()); }
    assert("Terabits"@ != "Megabytes/Second"@) by { assert("Terabits"@.len() != "Megabytes/Second"@.len()); }
    assert("Terabits"@ != "Microseconds"@) by { assert("Terabits"@.len() != "Microseconds"@.len()); }
    assert("Terabits"@ != "Milliseconds"@) by { assert("Terabits"@.len() != "Milliseconds"@.len()); }
    assert("Terabits"@ != "None"@) by { assert("Terabits"@.len() != "None"@.len()); }
    assert("Terabits"@ != "Percent"@) by { assert("Terabits"@.len() != "Percent"@.len()); }
    assert("Terabits"@ != "Seconds"@) by { assert("Terabits"@.len() != "Seconds"@.len()); }
    assert("Terabits/Second"@ != "Bits"@) by { assert("Terabits/Second"@.len() != "Bits"@.len()); }
    assert("Terabits/Second"@ != "Bits/Second"@) by { assert("Terabits/Second"@.len() != "Bits/Second"@.len()); }
    assert("Terabits/Second"@ != "Bytes"@) by { assert("Terabits/Second"@.len() != "Bytes"@.len()); }
    assert("Terabits/Second"@ != "Bytes/Second"@) by { assert("Terabits/Second"@.len() != "Bytes/Second"@.len()); }
    assert("Terabits/Second"@ != "Count"@) by { assert("Terabits/Second"@.len() != "Count"@.len()); }
    assert("Terabits/Second"@ != "Count/Second"@) by { assert("Terabits/Second"@.len() != "Count/Second"@.len()); }
    assert("Terabits/Second"@ != "Gigabits"@) by { assert("Terabits/Second"@.len() != "Gigabits"@.len()); }
    assert("Terabits/Second"@ != "Gigabits/Second"@) by { assert("Terabits/Second"@[0] != "Gigabits/Second"@[0]); }
    assert("Terabits/Second"@ != "Gigabytes"@) by { assert("Terabits/Second"@.len() != "Gigabytes"@.len()); }
    assert("Terabits/Second"@ != "Gigabytes/Second"@) by { assert("Terabits/Second"@.len() != "Gigabytes/Second"@.len()); }
    assert("Terabits/Second"@ != "Kilobits"@) by { assert("Terabits/Second"@.len() != "Kilobits"@.len()); }
    assert("Terabits/Second"@ != "Kilobits/Second"@) by { assert("Terabits/Second"@[0] != "Kilobits/Second"@[0]); }
    assert("Terabits/Second"@ != "Kilobytes"@) by { assert("Terabits/Second"@.len() != "Kilobytes"@.len()); }
    assert("Terabits/Second"@ != "Kilobytes/Second"@) by { assert("Terabits/Second"@.len() != "Kilobytes/Second"@.len()); }
    assert("Terabits/Second"@ != "Megabits"@) by { assert("Terabits/Second"@.len() != "Megabits"@.len()); }
    assert("Terabits/Second"@ != "Megabits/Second"@) by { assert("Terabits/Second"@[0] != "Megabits/Second"@[0]); }
    assert("Terabits/Second"@ != "Megabytes"@) by { assert("Terabits/Second"@.len() != "Megabytes"@.len()); }
    assert("Terabits/Second"@ != "Megabytes/Second"@) by { assert("Terabits/Second"@.len() != "Megabytes/Second"@.len()); }
    assert("Terabits/Second"@ != "Microseconds"@) by { assert("Terabits/Second"@.len() != "Microseconds"@.len()); }
    assert("Terabits/Second"@ != "Milliseconds"@) by { assert("Terabits/Second"@.len() != "Milliseconds"@.len()); }
    assert("Terabits/Second"@ != "None"@) by { assert("Terabits/Second"@.len() != "None"@.len()); }
    assert("Terabits/Second"@ != "Percent"@) by { assert("Terabits/Second"@.len() != "Percent"@.len()); }
    assert("Terabits/Second"@ != "Seconds"@) by { assert("Terabits/Second"@.len() != "Seconds"@.len()); }
    assert("Terabits/Second"@ != "Terabits"@) by { assert("Terabits/Second"@.len() != "Terabits"@.len()); }
    assert("Terabytes"@ != "Bits"@) by { assert("Terabytes"@.len() != "Bits"@.len()); }
    assert("Terabytes"@ != "Bits/Second"@) by { assert("Terabytes"@.len() != "Bits/Second"@.len()); }
    assert("Terabytes"@ != "Bytes"@) by { assert("Terabytes"@.len() != "Bytes"@.len()); }
    assert("Terabytes"@ != "Bytes/Second"@) by { assert("Terabytes"@.len() != "Bytes/Second"@.len()); }
    assert("Terabytes"@ != "Count"@) by { assert("Terabytes"@.len() != "Count"@.len()); }
    assert("Terabytes"@ != "Count/Second"@) by { assert("Terabytes"@.len() != "Count/Second"@.len()); }
    assert("Terabytes"@ != "Gigabits"@) by { assert("Terabytes"@.len() != "Gigabits"@.len()); }
    assert("Terabytes"@ != "Gigabits/Second"@) by { assert("Terabytes"@.len() != "Gigabits/Second"@.len()); }
    assert("Terabytes"@ != "Gigabytes"@) by { assert("Terabytes"@[0] != "Gigabytes"@[0]); }
    assert("Terabytes"@ != "Gigabytes/Second"@) by { assert("Terabytes"@.len() != "Gigabytes/Second"@.len()); }
    assert("Terabytes"@ != "Kilobits"@) by { assert("Terabytes"@.len() != "Kilobits"@.len()); }
    assert("Terabytes"@ != "Kilobits/Second"@) by { assert("Terabytes"@.len() != "Kilobits/Second"@.len()); }
    assert("Terabytes"@ != "Kilobytes"@) by { assert("Terabytes"@[0] != "Kilobytes"@[0]); }
    assert("Terabytes"@ != "Kilobytes/Second"@) by { assert("Terabytes"@.len() != "Kilobytes/Second"@.len()); }
    assert("Terabytes"@ != "Megabits"@) by { assert("Terabytes"@.len() != "Megabits"@.len()); }
    assert("Terabytes"@ != "Megabits/Second"@) by { assert("Terabytes"@.len() != "Megabits/Second"@.len()); }
    assert("Terabytes"@ != "Megabytes"@) by { assert("Terabytes"@[0] != "Megabytes"@[0]); }
    assert("Terabytes"@ != "Megabytes/Second"@) by { assert("Terabytes"@.len() != "Megabytes/Second"@.len()); }
    assert("Terabytes"@ != "Microseconds"@) by { assert("Terabytes"@.len() != "Microseconds"@.len()); }
    assert("Terabytes"@ != "Milliseconds"@) by { assert("Terabytes"@.len() != "Milliseconds"@.len()); }
    assert("Terabytes"@ != "None"@) by { assert("Terabytes"@.len() != "None"@.len()); }
    assert("Terabytes"@ != "Percent"@) by { assert("Terabytes"@.len() != "Percent"@.len()); }
    assert("Terabytes"@ != "Seconds"@) by { assert("Terabytes"@.len() != "Seconds"@.len()); }
    assert("Terabytes"@ != "Terabits"@) by { assert("Terabytes"@.len() != "Terabits"@.len()); }
    assert("Terabytes"@ != "Terabits/Second"@) by { assert("Terabytes"@.len() != "Terabits/Second"@.len()); }
    assert("Terabytes/Second"@ != "Bits"@) by { assert("Terabytes/Second"@.len() != "Bits"@.len()); }
    assert("Terabytes/Second"@ != "Bits/Second"@) by { assert("Terabytes/Second"@.len() != "Bits/Second"@.len()); }
    assert("Terabytes/Second"@ != "Bytes"@) by { assert("Terabytes/Second"@.len() != "Bytes"@.len()); }
    assert("Terabytes/Second"@ != "Bytes/Second"@) by { assert("Terabytes/Second"@.len() != "Bytes/Second"@.len()); }
    assert("Terabytes/Second"@ != "Count"@) by { assert("Terabytes/Second"@.len() != "Count"@.len()); }
    assert("Terabytes/Second"@ != "Count/Second"@) by { assert("Terabytes/Second"@.len() != "Count/Second"@.len()); }
    assert("Terabytes/Second"@ != "Gigabits"@) by { assert("Terabytes/Second"@.len() != "Gigabits"@.len()); }
    assert("Terabytes/Second"@ != "Gigabits/Second"@) by { assert("Terabytes/Second"@.len() != "Gigabits/Second"@.len()); }
    assert("Terabytes/Second"@ != "Gigabytes"@) by { assert("Terabytes/Second"@.len() != "Gigabytes"@.len()); }
    assert("Terabytes/Second"@ != "Gigabytes/Second"@) by { assert("Terabytes/Second"@[0] != "Gigabytes/Second"@[0]); }
    assert("Terabytes/Second"@ != "Kilobits"@) by { assert("Terabytes/Second"@.len() != "Kilobits"@.len()); }
    assert("Terabytes/Second"@ != "Kilobits/Second"@) by { assert("Terabytes/Second"@.len() != "Kilobits/Second"@.len()); }
    assert("Terabytes/Second"@ != "Kilobytes"@) by { assert("Terabytes/Second"@.len() != "Kilobytes"@.len()); }
    assert("Terabytes/Second"@ != "Kilobytes/Second"@) by { assert("Terabytes/Second"@[0] != "Kilobytes/Second"@[0]); }
    assert("Terabytes/Second"@ != "Megabits"@) by { assert("Terabytes/Second"@.len() != "Megabits"@.len()); }
    assert("Terabytes/Second"@ != "Megabits/Second"@) by { assert("Terabytes/Second"@.len() != "Megabits/Second"@.len()); }
    assert("Terabytes/Second"@ != "Megabytes"@) by { assert("Terabytes/Second"@.len() != "Megabytes"@.len()); }
    assert("Terabytes/Second"@ != "Megabytes/Second"@) by { assert("Terabytes/Second"@[0] != "Megabytes/Second"@[0]); }
    assert("Terabytes/Second"@ != "Microseconds"@) by { assert("Terabytes/Second"@.len() != "Microseconds"@.len()); }
    assert("Terabytes/Second"@ != "Milliseconds"@) by { assert("Terabytes/Second"@.len() != "Milliseconds"@.len()); }
    assert("Terabytes/Second"@ != "None"@) by { assert("Terabytes/Second"@.len() != "None"@.len()); }
    assert("Terabytes/Second"@ != "Percent"@) by { assert("Terabytes/Second"@.len() != "Percent"@.len()); }
    assert("Terabytes/Second"@ != "Seconds"@) by { assert("Terabytes/Second"@.len() != "Seconds"@.len()); }
    assert("Terabytes/Second"@ != "Terabits"@) by { assert("Terabytes/Second"@.len() != "Terabits"@.len()); }
    assert("Terabytes/Second"@ != "Terabits/Second"@) by { assert("Terabytes/Second"@.len() != "Terabits/Second"@.len()); }
    assert("Terabytes/Second"@ != "Terabytes"@) by { assert("Terabytes/Second"@.len() != "Terabytes"@.len()); }
}

/// Each StateValue variant has its wire name (`ALARM` for `Alarm`, and so on),
/// and reading that wire name gives the variant back.
pub proof fn lemma_state_value_wire_names()
    ensures
        StateValue::Alarm.wire() == "ALARM"@,
        StateValue::InsufficientData.wire() == "INSUFFICIENT_DATA"@,
        StateValue::OkState.wire() == "OK"@,
        StateValue::spec_from_wire("ALARM"@) == StateValue::Alarm,
        StateValue::spec_from_wire("INSUFFICIENT_DATA"@) == StateValue::InsufficientData,
        StateValue::spec_from_wire("OK"@) == StateValue::OkState,
{
    reveal_strlit("ALARM");
    reveal_strlit("INSUFFICIENT_DATA");
    reveal_strlit("OK");
    assert("INSUFFICIENT_DATA"@ != "ALARM"@) by { assert("INSUFFICIENT_DATA"@.len() != "ALARM"@.len()); }
    assert("OK"@ != "ALARM"@) by { assert("OK"@.len() != "ALARM"@.len()); }
    assert("OK"@ != "INSUFFICIENT_DATA"@) by { assert("OK"@.len() != "INSUFFICIENT_DATA"@.len()); }
}

/// Each Statistic variant has its wire name (`Average` for `Average`, and so on),
/// and reading that wire name gives the variant back.
pub proof fn lemma_statistic_wire_names()
    ensures
        Statistic::Average.wire() == "Average"@,
        Statistic::Maximum.wire() == "Maximum"@,
        Statistic::Minimum.wire() == "Minimum"@,
        Statistic::SampleCount.wire() == "SampleCount"@,
        Statistic::Sum.wire() == "Sum"@,
        Statistic::spec_from_wire("Average"@) == Statistic::Average,
        Statistic::spec_from_wire("Maximum"@) == Statistic::Maximum,
        Statistic::spec_from_wire("Minimum"@) == Statistic::Minimum,
        Statistic::spec_from_wire("SampleCount"@) == Statistic::SampleCount,
        Statistic::spec_from_wire("Sum"@) == Statistic::Sum,
{
    reveal_strlit("Average");
    reveal_strlit("Maximum");
    reveal_strlit("Minimum");
    reveal_strlit("SampleCount");
    reveal_strlit("Sum");
    assert("Maximum"@ != "Average"@) by { assert("Maximum"@[0] != "Average"@[0]); }
    assert("Minimum"@ != "Average"@) by { assert("Minimum"@[0] != "Average"@[0]); }
    assert("Minimum"@ != "Maximum"@) by { assert("Minimum"@[1] != "Maximum"@[1]); }
    assert("SampleCount"@ != "Average"@) by { assert("SampleCount"@.len() != "Average"@.len()); }
    assert("SampleCount"@ != "Maximum"@) by { assert("SampleCount"@.len() != "Maximum"@.len()); }
    assert("SampleCount"@ != "Minimum"@) by { assert("SampleCount"@.len() != "Minimum"@.len()); }
    assert("Sum"@ != "Average"@) by { assert("Sum"@.len() != "Average"@.len()); }
    assert("Sum"@ != "Maximum"@) by { assert("Sum"@.len() != "Maximum"@.len()); }
    assert("Sum"@ != "Minimum"@) by { assert("Sum"@.len() != "Minimum"@.len()); }
    assert("Sum"@ != "SampleCount"@) by { assert("Sum"@.len() != "SampleCount"@.len()); }
}

/// Each StatusCode variant has its wire name (`Complete` for `Complete`, and so on),
/// and reading that wire name gives the variant back.
pub proof fn lemma_status_code_wire_names()
    ensures
        StatusCode::Complete.wire() == "Complete"@,
        StatusCode::Forbidden.wire() == "Forbidden"@,
        StatusCode::InternalError.wire() == "InternalError"@,
        StatusCode::PartialData.wire() == "PartialData"@,
        StatusCode::spec_from_wire("Complete"@) == StatusCode::Complete,
        StatusCode::spec_from_wire("Forbidden"@) == StatusCode::Forbidden,
        StatusCode::spec_from_wire("InternalError"@) == StatusCode::InternalError,
        StatusCode::spec_from_wire("PartialData"@) == StatusCode::PartialData,
{
    reveal_strlit("Complete");
    reveal_strlit("Forbidden");
    reveal_strlit("InternalError");
    reveal_strlit("PartialData");
    assert("Forbidden"@ != "Complete"@) by { assert("Forbidden"@.len() != "Complete"@.len()); }
    assert("InternalError"@ != "Complete"@) by { assert("InternalError"@.len() != "Complete"@.len()); }
    assert("InternalError"@ != "Forbidden"@) by { assert("InternalError"@.len() != "Forbidden"@.len()); }
    assert("PartialData"@ != "Complete"@) by { assert("PartialData"@.len() != "Complete"@.len()); }
    assert("PartialData"@ != "Forbidden"@) by { assert("PartialData"@.len() != "Forbidden"@.len()); }
    assert("PartialData"@ != "InternalError"@) by { assert("PartialData"@.len() != "InternalError"@.len()); }
}

} // verus!
