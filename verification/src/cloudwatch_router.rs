//! CloudWatch operations, errors, and request routing.
//!
//! CloudWatch uses the `awsQuery` protocol where requests are `POST /` with
//! `Content-Type: application/x-www-form-urlencoded`; the operation is named
//! by the `Action=<OperationName>` form parameter.

use vstd::prelude::*;
use crate::seqs::{first_index, lemma_first_index_is};
use crate::text::{push_str_chars, str_eq, string_from_chars};

verus! {

/// All supported CloudWatch operations.
#[derive(Debug, Clone, Copy, PartialEq, Eq, Structural, Hash)]
pub enum CloudWatchOperation {
    DeleteAlarms,
    DeleteAnomalyDetector,
    DeleteDashboards,
    DeleteInsightRules,
    DeleteMetricStream,
    DescribeAlarmHistory,
    DescribeAlarms,
    DescribeAlarmsForMetric,
    DescribeAnomalyDetectors,
    DescribeInsightRules,
    DisableAlarmActions,
    DisableInsightRules,
    EnableAlarmActions,
    EnableInsightRules,
    GetDashboard,
    GetInsightRuleReport,
    GetMetricData,
    GetMetricStatistics,
    GetMetricStream,
    GetMetricWidgetImage,
    ListDashboards,
    ListManagedInsightRules,
    ListMetricStreams,
    ListMetrics,
    ListTagsForResource,
    PutAnomalyDetector,
    PutCompositeAlarm,
    PutDashboard,
    PutInsightRule,
    PutManagedInsightRules,
    PutMetricAlarm,
    PutMetricData,
    PutMetricStream,
    SetAlarmState,
    StartMetricStreams,
    StopMetricStreams,
    TagResource,
    UntagResource,
}

impl CloudWatchOperation {
    /// The AWS operation name.
    pub open spec fn name(self) -> Seq<char> {
        match self {
            CloudWatchOperation::DeleteAlarms => "DeleteAlarms"@,
            CloudWatchOperation::DeleteAnomalyDetector => "DeleteAnomalyDetector"@,
            CloudWatchOperation::DeleteDashboards => "DeleteDashboards"@,
            CloudWatchOperation::DeleteInsightRules => "DeleteInsightRules"@,
            CloudWatchOperation::DeleteMetricStream => "DeleteMetricStream"@,
            CloudWatchOperation::DescribeAlarmHistory => "DescribeAlarmHistory"@,
            CloudWatchOperation::DescribeAlarms => "DescribeAlarms"@,
            CloudWatchOperation::DescribeAlarmsForMetric => "DescribeAlarmsForMetric"@,
            CloudWatchOperation::DescribeAnomalyDetectors => "DescribeAnomalyDetectors"@,
            CloudWatchOperation::DescribeInsightRules => "DescribeInsightRules"@,
            CloudWatchOperation::DisableAlarmActions => "DisableAlarmActions"@,
            CloudWatchOperation::DisableInsightRules => "DisableInsightRules"@,
            CloudWatchOperation::EnableAlarmActions => "EnableAlarmActions"@,
            CloudWatchOperation::EnableInsightRules => "EnableInsightRules"@,
            CloudWatchOperation::GetDashboard => "GetDashboard"@,
            CloudWatchOperation::GetInsightRuleReport => "GetInsightRuleReport"@,
            CloudWatchOperation::GetMetricData => "GetMetricData"@,
            CloudWatchOperation::GetMetricStatistics => "GetMetricStatistics"@,
            CloudWatchOperation::GetMetricStream => "GetMetricStream"@,
            CloudWatchOperation::GetMetricWidgetImage => "GetMetricWidgetImage"@,
            CloudWatchOperation::ListDashboards => "ListDashboards"@,
            CloudWatchOperation::ListManagedInsightRules => "ListManagedInsightRules"@,
            CloudWatchOperation::ListMetricStreams => "ListMetricStreams"@,
            CloudWatchOperation::ListMetrics => "ListMetrics"@,
            CloudWatchOperation::ListTagsForResource => "ListTagsForResource"@,
            CloudWatchOperation::PutAnomalyDetector => "PutAnomalyDetector"@,
            CloudWatchOperation::PutCompositeAlarm => "PutCompositeAlarm"@,
            CloudWatchOperation::PutDashboard => "PutDashboard"@,
            CloudWatchOperation::PutInsightRule => "PutInsightRule"@,
            CloudWatchOperation::PutManagedInsightRules => "PutManagedInsightRules"@,
            CloudWatchOperation::PutMetricAlarm => "PutMetricAlarm"@,
            CloudWatchOperation::PutMetricData => "PutMetricData"@,
            CloudWatchOperation::PutMetricStream => "PutMetricStream"@,
            CloudWatchOperation::SetAlarmState => "SetAlarmState"@,
            CloudWatchOperation::StartMetricStreams => "StartMetricStreams"@,
            CloudWatchOperation::StopMetricStreams => "StopMetricStreams"@,
            CloudWatchOperation::TagResource => "TagResource"@,
            CloudWatchOperation::UntagResource => "UntagResource"@,
        }
    }

    /// The operation whose name is `s`, if any.
    pub open spec fn spec_from_name(s: Seq<char>) -> Option<CloudWatchOperation> {
        if s == "DeleteAlarms"@ {
            Some(CloudWatchOperation::DeleteAlarms)
        } else if s == "DeleteAnomalyDetector"@ {
            Some(CloudWatchOperation::DeleteAnomalyDetector)
        } else if s == "DeleteDashboards"@ {
            Some(CloudWatchOperation::DeleteDashboards)
        } else if s == "DeleteInsightRules"@ {
            Some(CloudWatchOperation::DeleteInsightRules)
        } else if s == "DeleteMetricStream"@ {
            Some(CloudWatchOperation::DeleteMetricStream)
        } else if s == "DescribeAlarmHistory"@ {
            Some(CloudWatchOperation::DescribeAlarmHistory)
        } else if s == "DescribeAlarms"@ {
            Some(CloudWatchOperation::DescribeAlarms)
        } else if s == "DescribeAlarmsForMetric"@ {
            Some(CloudWatchOperation::DescribeAlarmsForMetric)
        } else if s == "DescribeAnomalyDetectors"@ {
            Some(CloudWatchOperation::DescribeAnomalyDetectors)
        } else if s == "DescribeInsightRules"@ {
            Some(CloudWatchOperation::DescribeInsightRules)
        } else if s == "DisableAlarmActions"@ {
            Some(CloudWatchOperation::DisableAlarmActions)
        } else if s == "DisableInsightRules"@ {
            Some(CloudWatchOperation::DisableInsightRules)
        } else if s == "EnableAlarmActions"@ {
            Some(CloudWatchOperation::EnableAlarmActions)
        } else if s == "EnableInsightRules"@ {
            Some(CloudWatchOperation::EnableInsightRules)
        } else if s == "GetDashboard"@ {
            Some(CloudWatchOperation::GetDashboard)
        } else if s == "GetInsightRuleReport"@ {
            Some(CloudWatchOperation::GetInsightRuleReport)
        } else if s == "GetMetricData"@ {
            Some(CloudWatchOperation::GetMetricData)
        } else if s == "GetMetricStatistics"@ {
            Some(CloudWatchOperation::GetMetricStatistics)
        } else if s == "GetMetricStream"@ {
            Some(CloudWatchOperation::GetMetricStream)
        } else if s == "GetMetricWidgetImage"@ {
            Some(CloudWatchOperation::GetMetricWidgetImage)
        } else if s == "ListDashboards"@ {
            Some(CloudWatchOperation::ListDashboards)
        } else if s == "ListManagedInsightRules"@ {
            Some(CloudWatchOperation::ListManagedInsightRules)
        } else if s == "ListMetricStreams"@ {
            Some(CloudWatchOperation::ListMetricStreams)
        } else if s == "ListMetrics"@ {
            Some(CloudWatchOperation::ListMetrics)
        } else if s == "ListTagsForResource"@ {
            Some(CloudWatchOperation::ListTagsForResource)
        } else if s == "PutAnomalyDetector"@ {
            Some(CloudWatchOperation::PutAnomalyDetector)
        } else if s == "PutCompositeAlarm"@ {
            Some(CloudWatchOperation::PutCompositeAlarm)
        } else if s == "PutDashboard"@ {
            Some(CloudWatchOperation::PutDashboard)
        } else if s == "PutInsightRule"@ {
            Some(CloudWatchOperation::PutInsightRule)
        } else if s == "PutManagedInsightRules"@ {
            Some(CloudWatchOperation::PutManagedInsightRules)
        } else if s == "PutMetricAlarm"@ {
            Some(CloudWatchOperation::PutMetricAlarm)
        } else if s == "PutMetricData"@ {
            Some(CloudWatchOperation::PutMetricData)
        } else if s == "PutMetricStream"@ {
            Some(CloudWatchOperation::PutMetricStream)
        } else if s == "SetAlarmState"@ {
            Some(CloudWatchOperation::SetAlarmState)
        } else if s == "StartMetricStreams"@ {
            Some(CloudWatchOperation::StartMetricStreams)
        } else if s == "StopMetricStreams"@ {
            Some(CloudWatchOperation::StopMetricStreams)
        } else if s == "TagResource"@ {
            Some(CloudWatchOperation::TagResource)
        } else if s == "UntagResource"@ {
            Some(CloudWatchOperation::UntagResource)
        } else {
            None
        }
    }

    /// Returns the AWS operation name string.
    pub fn as_str(&self) -> (r: &'static str)
        ensures
            r@ == self.name(),
    {
        match self {
            CloudWatchOperation::DeleteAlarms => "DeleteAlarms",
            CloudWatchOperation::DeleteAnomalyDetector => "DeleteAnomalyDetector",
            CloudWatchOperation::DeleteDashboards => "DeleteDashboards",
            CloudWatchOperation::DeleteInsightRules => "DeleteInsightRules",
            CloudWatchOperation::DeleteMetricStream => "DeleteMetricStream",
            CloudWatchOperation::DescribeAlarmHistory => "DescribeAlarmHistory",
            CloudWatchOperation::DescribeAlarms => "DescribeAlarms",
            CloudWatchOperation::DescribeAlarmsForMetric => "DescribeAlarmsForMetric",
            CloudWatchOperation::DescribeAnomalyDetectors => "DescribeAnomalyDetectors",
            CloudWatchOperation::DescribeInsightRules => "DescribeInsightRules",
            CloudWatchOperation::DisableAlarmActions => "DisableAlarmActions",
            CloudWatchOperation::DisableInsightRules => "DisableInsightRules",
            CloudWatchOperation::EnableAlarmActions => "EnableAlarmActions",
            CloudWatchOperation::EnableInsightRules => "EnableInsightRules",
            CloudWatchOperation::GetDashboard => "GetDashboard",
            CloudWatchOperation::GetInsightRuleReport => "GetInsightRuleReport",
            CloudWatchOperation::GetMetricData => "GetMetricData",
            CloudWatchOperation::GetMetricStatistics => "GetMetricStatistics",
            CloudWatchOperation::GetMetricStream => "GetMetricStream",
            CloudWatchOperation::GetMetricWidgetImage => "GetMetricWidgetImage",
            CloudWatchOperation::ListDashboards => "ListDashboards",
            CloudWatchOperation::ListManagedInsightRules => "ListManagedInsightRules",
            CloudWatchOperation::ListMetricStreams => "ListMetricStreams",
            CloudWatchOperation::ListMetrics => "ListMetrics",
            CloudWatchOperation::ListTagsForResource => "ListTagsForResource",
            CloudWatchOperation::PutAnomalyDetector => "PutAnomalyDetector",
            CloudWatchOperation::PutCompositeAlarm => "PutCompositeAlarm",
            CloudWatchOperation::PutDashboard => "PutDashboard",
            CloudWatchOperation::PutInsightRule => "PutInsightRule",
            CloudWatchOperation::PutManagedInsightRules => "PutManagedInsightRules",
            CloudWatchOperation::PutMetricAlarm => "PutMetricAlarm",
            CloudWatchOperation::PutMetricData => "PutMetricData",
            CloudWatchOperation::PutMetricStream => "PutMetricStream",
            CloudWatchOperation::SetAlarmState => "SetAlarmState",
            CloudWatchOperation::StartMetricStreams => "StartMetricStreams",
            CloudWatchOperation::StopMetricStreams => "StopMetricStreams",
            CloudWatchOperation::TagResource => "TagResource",
            CloudWatchOperation::UntagResource => "UntagResource",
        }
    }

    /// Parse an operation name string.
    pub fn from_name(name: &str) -> (r: Option<CloudWatchOperation>)
        ensures
            r == CloudWatchOperation::spec_from_name(name@),
    {
        if str_eq(name, "DeleteAlarms") {
            Some(CloudWatchOperation::DeleteAlarms)
        } else if str_eq(name, "DeleteAnomalyDetector") {
            Some(CloudWatchOperation::DeleteAnomalyDetector)
        } else if str_eq(name, "DeleteDashboards") {
            Some(CloudWatchOperation::DeleteDashboards)
        } else if str_eq(name, "DeleteInsightRules") {
            Some(CloudWatchOperation::DeleteInsightRules)
        } else if str_eq(name, "DeleteMetricStream") {
            Some(CloudWatchOperation::DeleteMetricStream)
        } else if str_eq(name, "DescribeAlarmHistory") {
            Some(CloudWatchOperation::DescribeAlarmHistory)
        } else if str_eq(name, "DescribeAlarms") {
            Some(CloudWatchOperation::DescribeAlarms)
        } else if str_eq(name, "DescribeAlarmsForMetric") {
            Some(CloudWatchOperation::DescribeAlarmsForMetric)
        } else if str_eq(name, "DescribeAnomalyDetectors") {
            Some(CloudWatchOperation::DescribeAnomalyDetectors)
        } else if str_eq(name, "DescribeInsightRules") {
            Some(CloudWatchOperation::DescribeInsightRules)
        } else if str_eq(name, "DisableAlarmActions") {
            Some(CloudWatchOperation::DisableAlarmActions)
        } else if str_eq(name, "DisableInsightRules") {
            Some(CloudWatchOperation::DisableInsightRules)
        } else if str_eq(name, "EnableAlarmActions") {
            Some(CloudWatchOperation::EnableAlarmActions)
        } else if str_eq(name, "EnableInsightRules") {
            Some(CloudWatchOperation::EnableInsightRules)
        } else if str_eq(name, "GetDashboard") {
            Some(CloudWatchOperation::GetDashboard)
        } else if str_eq(name, "GetInsightRuleReport") {
            Some(CloudWatchOperation::GetInsightRuleReport)
        } else if str_eq(name, "GetMetricData") {
            Some(CloudWatchOperation::GetMetricData)
        } else if str_eq(name, "GetMetricStatistics") {
            Some(CloudWatchOperation::GetMetricStatistics)
        } else if str_eq(name, "GetMetricStream") {
            Some(CloudWatchOperation::GetMetricStream)
        } else if str_eq(name, "GetMetricWidgetImage") {
            Some(CloudWatchOperation::GetMetricWidgetImage)
        } else if str_eq(name, "ListDashboards") {
            Some(CloudWatchOperation::ListDashboards)
        } else if str_eq(name, "ListManagedInsightRules") {
            Some(CloudWatchOperation::ListManagedInsightRules)
        } else if str_eq(name, "ListMetricStreams") {
            Some(CloudWatchOperation::ListMetricStreams)
        } else if str_eq(name, "ListMetrics") {
            Some(CloudWatchOperation::ListMetrics)
        } else if str_eq(name, "ListTagsForResource") {
            Some(CloudWatchOperation::ListTagsForResource)
        } else if str_eq(name, "PutAnomalyDetector") {
            Some(CloudWatchOperation::PutAnomalyDetector)
        } else if str_eq(name, "PutCompositeAlarm") {
            Some(CloudWatchOperation::PutCompositeAlarm)
        } else if str_eq(name, "PutDashboard") {
            Some(CloudWatchOperation::PutDashboard)
        } else if str_eq(name, "PutInsightRule") {
            Some(CloudWatchOperation::PutInsightRule)
        } else if str_eq(name, "PutManagedInsightRules") {
            Some(CloudWatchOperation::PutManagedInsightRules)
        } else if str_eq(name, "PutMetricAlarm") {
            Some(CloudWatchOperation::PutMetricAlarm)
        } else if str_eq(name, "PutMetricData") {
            Some(CloudWatchOperation::PutMetricData)
        } else if str_eq(name, "PutMetricStream") {
            Some(CloudWatchOperation::PutMetricStream)
        } else if str_eq(name, "SetAlarmState") {
            Some(CloudWatchOperation::SetAlarmState)
        } else if str_eq(name, "StartMetricStreams") {
            Some(CloudWatchOperation::StartMetricStreams)
        } else if str_eq(name, "StopMetricStreams") {
            Some(CloudWatchOperation::StopMetricStreams)
        } else if str_eq(name, "TagResource") {
            Some(CloudWatchOperation::TagResource)
        } else if str_eq(name, "UntagResource") {
            Some(CloudWatchOperation::UntagResource)
        } else {
            None
        }
    }

    /// Parsing the name of an operation gives that operation back.
    #[verifier::rlimit(50)]
    pub proof fn lemma_name_roundtrip(self)
        ensures
            CloudWatchOperation::spec_from_name(self.name()) == Some(self),
    {
        reveal_strlit("DeleteAlarms");
        reveal_strlit("DeleteAnomalyDetector");
        reveal_strlit("DeleteDashboards");
        reveal_strlit("DeleteInsightRules");
        reveal_strlit("DeleteMetricStream");
        reveal_strlit("DescribeAlarmHistory");
        reveal_strlit("DescribeAlarms");
        reveal_strlit("DescribeAlarmsForMetric");
        reveal_strlit("DescribeAnomalyDetectors");
        reveal_strlit("DescribeInsightRules");
        reveal_strlit("DisableAlarmActions");
        reveal_strlit("DisableInsightRules");
        reveal_strlit("EnableAlarmActions");
        reveal_strlit("EnableInsightRules");
        reveal_strlit("GetDashboard");
        reveal_strlit("GetInsightRuleReport");
        reveal_strlit("GetMetricData");
        reveal_strlit("GetMetricStatistics");
        reveal_strlit("GetMetricStream");
        reveal_strlit("GetMetricWidgetImage");
        reveal_strlit("ListDashboards");
        reveal_strlit("ListManagedInsightRules");
        reveal_strlit("ListMetricStreams");
        reveal_strlit("ListMetrics");
        reveal_strlit("ListTagsForResource");
        reveal_strlit("PutAnomalyDetector");
        reveal_strlit("PutCompositeAlarm");
        reveal_strlit("PutDashboard");
        reveal_strlit("PutInsightRule");
        reveal_strlit("PutManagedInsightRules");
        reveal_strlit("PutMetricAlarm");
        reveal_strlit("PutMetricData");
        reveal_strlit("PutMetricStream");
        reveal_strlit("SetAlarmState");
        reveal_strlit("StartMetricStreams");
        reveal_strlit("StopMetricStreams");
        reveal_strlit("TagResource");
        reveal_strlit("UntagResource");
        assert("DeleteAlarms"@.len() == 12);
        assert("DeleteAnomalyDetector"@.len() == 21);
        assert("DeleteDashboards"@.len() == 16);
        assert("DeleteInsightRules"@.len() == 18);
        assert("DeleteMetricStream"@.len() == 18);
        assert("DescribeAlarmHistory"@.len() == 20);
        assert("DescribeAlarms"@.len() == 14);
        assert("DescribeAlarmsForMetric"@.len() == 23);
        assert("DescribeAnomalyDetectors"@.len() == 24);
        assert("DescribeInsightRules"@.len() == 20);
        assert("DisableAlarmActions"@.len() == 19);
        assert("DisableInsightRules"@.len() == 19);
        assert("EnableAlarmActions"@.len() == 18);
        assert("EnableInsightRules"@.len() == 18);
        assert("GetDashboard"@.len() == 12);
        assert("GetInsightRuleReport"@.len() == 20);
        assert("GetMetricData"@.len() == 13);
        assert("GetMetricStatistics"@.len() == 19);
        assert("GetMetricStream"@.len() == 15);
        assert("GetMetricWidgetImage"@.len() == 20);
        assert("ListDashboards"@.len() == 14);
        assert("ListManagedInsightRules"@.len() == 23);
        assert("ListMetricStreams"@.len() == 17);
        assert("ListMetrics"@.len() == 11);
        assert("ListTagsForResource"@.len() == 19);
        assert("PutAnomalyDetector"@.len() == 18);
        assert("PutCompositeAlarm"@.len() == 17);
        assert("PutDashboard"@.len() == 12);
        assert("PutInsightRule"@.len() == 14);
        assert("PutManagedInsightRules"@.len() == 22);
        assert("PutMetricAlarm"@.len() == 14);
        assert("PutMetricData"@.len() == 13);
        assert("PutMetricStream"@.len() == 15);
        assert("SetAlarmState"@.len() == 13);
        assert("StartMetricStreams"@.len() == 18);
        assert("StopMetricStreams"@.len() == 17);
        assert("TagResource"@.len() == 11);
        assert("UntagResource"@.len() == 13);
        assert("DeleteAlarms"@[0] == 'D' && "GetDashboard"@[0] == 'G');
        assert("DeleteAlarms"@[0] == 'D' && "PutDashboard"@[0] == 'P');
        assert("DeleteInsightRules"@[6] == 'I' && "DeleteMetricStream"@[6] == 'M');
        assert("DeleteInsightRules"@[0] == 'D' && "EnableAlarmActions"@[0] == 'E');
        assert("DeleteInsightRules"@[0] == 'D' && "EnableInsightRules"@[0] == 'E');
        assert("DeleteInsightRules"@[0] == 'D' && "PutAnomalyDetector"@[0] == 'P');
        assert("DeleteInsightRules"@[0] == 'D' && "StartMetricStreams"@[0] == 'S');
        assert("DeleteMetricStream"@[0] == 'D' && "EnableAlarmActions"@[0] == 'E');
        assert("DeleteMetricStream"@[0] == 'D' && "EnableInsightRules"@[0] == 'E');
        assert("DeleteMetricStream"@[0] == 'D' && "PutAnomalyDetector"@[0] == 'P');
        assert("DeleteMetricStream"@[0] == 'D' && "StartMetricStreams"@[0] == 'S');
        assert("DescribeAlarmHistory"@[8] == 'A' && "DescribeInsightRules"@[8] == 'I');
        assert("DescribeAlarmHistory"@[0] == 'D' && "GetInsightRuleReport"@[0] == 'G');
        assert("DescribeAlarmHistory"@[0] == 'D' && "GetMetricWidgetImage"@[0] == 'G');
        assert("DescribeAlarms"@[0] == 'D' && "ListDashboards"@[0] == 'L');
        assert("DescribeAlarms"@[0] == 'D' && "PutInsightRule"@[0] == 'P');
        assert("DescribeAlarms"@[0] == 'D' && "PutMetricAlarm"@[0] == 'P');
        assert("DescribeAlarmsForMetric"@[0] == 'D' && "ListManagedInsightRules"@[0] == 'L');
        assert("DescribeInsightRules"@[0] == 'D' && "GetInsightRuleReport"@[0] == 'G');
        assert("DescribeInsightRules"@[0] == 'D' && "GetMetricWidgetImage"@[0] == 'G');
        assert("DisableAlarmActions"@[7] == 'A' && "DisableInsightRules"@[7] == 'I');
        assert("DisableAlarmActions"@[0] == 'D' && "GetMetricStatistics"@[0] == 'G');
        assert("DisableAlarmActions"@[0] == 'D' && "ListTagsForResource"@[0] == 'L');
        assert("DisableInsightRules"@[0] == 'D' && "GetMetricStatistics"@[0] == 'G');
        assert("DisableInsightRules"@[0] == 'D' && "ListTagsForResource"@[0] == 'L');
        assert("EnableAlarmActions"@[6] == 'A' && "EnableInsightRules"@[6] == 'I');
        assert("EnableAlarmActions"@[0] == 'E' && "PutAnomalyDetector"@[0] == 'P');
        assert("EnableAlarmActions"@[0] == 'E' && "StartMetricStreams"@[0] == 'S');
        assert("EnableInsightRules"@[0] == 'E' && "PutAnomalyDetector"@[0] == 'P');
        assert("EnableInsightRules"@[0] == 'E' && "StartMetricStreams"@[0] == 'S');
        assert("GetDashboard"@[0] == 'G' && "PutDashboard"@[0] == 'P');
        assert("GetInsightRuleReport"@[3] == 'I' && "GetMetricWidgetImage"@[3] == 'M');
        assert("GetMetricData"@[0] == 'G' && "PutMetricData"@[0] == 'P');
        assert("GetMetricData"@[0] == 'G' && "SetAlarmState"@[0] == 'S');
        assert("GetMetricData"@[0] == 'G' && "UntagResource"@[0] == 'U');
        assert("GetMetricStatistics"@[0] == 'G' && "ListTagsForResource"@[0] == 'L');
        assert("GetMetricStream"@[0] == 'G' && "PutMetricStream"@[0] == 'P');
        assert("ListDashboards"@[0] == 'L' && "PutInsightRule"@[0] == 'P');
        assert("ListDashboards"@[0] == 'L' && "PutMetricAlarm"@[0] == 'P');
        assert("ListMetricStreams"@[0] == 'L' && "PutCompositeAlarm"@[0] == 'P');
        assert("ListMetricStreams"@[0] == 'L' && "StopMetricStreams"@[0] == 'S');
        assert("ListMetrics"@[0] == 'L' && "TagResource"@[0] == 'T');
        assert("PutAnomalyDetector"@[0] == 'P' && "StartMetricStreams"@[0] == 'S');
        assert("PutCompositeAlarm"@[0] == 'P' && "StopMetricStreams"@[0] == 'S');
        assert("PutInsightRule"@[3] == 'I' && "PutMetricAlarm"@[3] == 'M');
        assert("PutMetricData"@[0] == 'P' && "SetAlarmState"@[0] == 'S');
        assert("PutMetricData"@[0] == 'P' && "UntagResource"@[0] == 'U');
        assert("SetAlarmState"@[0] == 'S' && "UntagResource"@[0] == 'U');
    }
}
/// CloudWatch error codes.
#[derive(Debug, Clone, Copy, PartialEq, Eq, Structural, Hash)]
pub enum CloudWatchErrorCode {
    /// The `Action` parameter is missing.
    MissingAction,
    /// The `Action` parameter names no operation.
    InvalidAction,
    /// A parameter has an invalid value.
    InvalidParameterValue,
    /// A required parameter is missing.
    MissingParameter,
    /// The named resource does not exist.
    ResourceNotFound,
    /// An internal error.
    InternalServiceError,
}

impl CloudWatchErrorCode {
    /// The error code string.
    pub open spec fn name(self) -> Seq<char> {
        match self {
            CloudWatchErrorCode::MissingAction => "MissingAction"@,
            CloudWatchErrorCode::InvalidAction => "InvalidAction"@,
            CloudWatchErrorCode::InvalidParameterValue => "InvalidParameterValue"@,
            CloudWatchErrorCode::MissingParameter => "MissingParameter"@,
            CloudWatchErrorCode::ResourceNotFound => "ResourceNotFound"@,
            CloudWatchErrorCode::InternalServiceError => "InternalServiceError"@,
        }
    }

    /// The HTTP status of the error.
    pub open spec fn status(self) -> u16 {
        match self {
            CloudWatchErrorCode::ResourceNotFound => 404,
            CloudWatchErrorCode::InternalServiceError => 500,
            _ => 400,
        }
    }

    /// Returns the error code string.
    pub fn as_str(&self) -> (r: &'static str)
        ensures
            r@ == self.name(),
    {
        match self {
            CloudWatchErrorCode::MissingAction => "MissingAction",
            CloudWatchErrorCode::InvalidAction => "InvalidAction",
            CloudWatchErrorCode::InvalidParameterValue => "InvalidParameterValue",
            CloudWatchErrorCode::MissingParameter => "MissingParameter",
            CloudWatchErrorCode::ResourceNotFound => "ResourceNotFound",
            CloudWatchErrorCode::InternalServiceError => "InternalServiceError",
        }
    }

    /// Returns the HTTP status of the error.
    pub fn default_status_code(&self) -> (r: u16)
        ensures
            r == self.status(),
    {
        match self {
            CloudWatchErrorCode::ResourceNotFound => 404,
            CloudWatchErrorCode::InternalServiceError => 500,
            _ => 400,
        }
    }
}

/// A CloudWatch error response.
#[derive(Debug, Clone)]
pub struct CloudWatchError {
    /// The error code.
    pub code: CloudWatchErrorCode,
    /// A human-readable error message.
    pub message: String,
    /// The HTTP status code.
    pub status_code: u16,
}

impl CloudWatchError {
    /// Create an error with a code and a message.
    pub fn with_message(code: CloudWatchErrorCode, message: String) -> (r: Self)
        ensures
            r.code == code,
            r.message == message,
            r.status_code == code.status(),
    {
        CloudWatchError { status_code: code.default_status_code(), message, code }
    }

    /// The `Action` parameter is missing.
    pub fn missing_action() -> (r: Self)
        ensures
            r.code == CloudWatchErrorCode::MissingAction,
            r.message@ == "Missing required parameter: Action"@,
            r.status_code == 400,
    {
        let mut m: Vec<char> = Vec::new();
        push_str_chars(&mut m, "Missing required parameter: Action");
        Self::with_message(CloudWatchErrorCode::MissingAction, string_from_chars(&m))
    }

    /// The action names no operation: the message is `Operation {action} is not supported.`.
    pub fn unknown_operation(action: &str) -> (r: Self)
        ensures
            r.code == CloudWatchErrorCode::InvalidAction,
            r.message@ == "Operation "@ + action@ + " is not supported."@,
            r.status_code == 400,
    {
        let mut m: Vec<char> = Vec::new();
        push_str_chars(&mut m, "Operation ");
        push_str_chars(&mut m, action);
        push_str_chars(&mut m, " is not supported.");
        Self::with_message(CloudWatchErrorCode::InvalidAction, string_from_chars(&m))
    }
}

/// Selects the form parameters named `Action`.
pub open spec fn is_action(p: (String, String)) -> bool {
    p.0@ == "Action"@
}

/// Resolve a CloudWatch operation from parsed form parameters: the first
/// `Action` parameter names it.
///
/// No `Action` parameter gives `MissingAction`; an unknown operation name
/// gives `InvalidAction`.
pub fn resolve_operation(params: &[(String, String)]) -> (r: Result<
    CloudWatchOperation,
    CloudWatchError,
>)
    ensures
        ({
            let i = first_index(params@, |p: (String, String)| is_action(p)) as int;
            if i < params@.len() {
                let action = params@[i].1@;
                match CloudWatchOperation::spec_from_name(action) {
                    Some(op) => r == Ok::<CloudWatchOperation, CloudWatchError>(op),
                    None => r matches Err(e) && e.code == CloudWatchErrorCode::InvalidAction
                        && e.message@ == "Operation "@ + action + " is not supported."@
                        && e.status_code == 400,
                }
            } else {
                r matches Err(e) && e.code == CloudWatchErrorCode::MissingAction
                    && e.message@ == "Missing required parameter: Action"@ && e.status_code == 400
            }
        }),
{
    let ghost pred = |p: (String, String)| is_action(p);
    let mut i: usize = 0;
    while i < params.len()
        invariant
            i <= params.len(),
            pred == (|p: (String, String)| is_action(p)),
            forall|k: int| 0 <= k < i ==> !pred(#[trigger] params@[k]),
        decreases params.len() - i,
    {
        if str_eq(params[i].0.as_str(), "Action") {
            proof {
                lemma_first_index_is(params@, pred, i as int);
            }
            let action = params[i].1.as_str();
            return match CloudWatchOperation::from_name(action) {
                Some(op) => Ok(op),
                None => Err(CloudWatchError::unknown_operation(action)),
            };
        }
        i = i + 1;
    }
    proof {
        lemma_first_index_is(params@, pred, i as int);
    }
    Err(CloudWatchError::missing_action())
}

/// Each CloudWatchOperation variant has its name (`DeleteAlarms` for `DeleteAlarms`, and so on),
/// and reading that name gives the variant back.
pub proof fn lemma_cloudwatch_operation_names()
    ensures
        CloudWatchOperation::DeleteAlarms.name() == "DeleteAlarms"@,
        CloudWatchOperation::DeleteAnomalyDetector.name() == "DeleteAnomalyDetector"@,
        CloudWatchOperation::DeleteDashboards.name() == "DeleteDashboards"@,
        CloudWatchOperation::DeleteInsightRules.name() == "DeleteInsightRules"@,
        CloudWatchOperation::DeleteMetricStream.name() == "DeleteMetricStream"@,
        CloudWatchOperation::DescribeAlarmHistory.name() == "DescribeAlarmHistory"@,
        CloudWatchOperation::DescribeAlarms.name() == "DescribeAlarms"@,
        CloudWatchOperation::DescribeAlarmsForMetric.name() == "DescribeAlarmsForMetric"@,
        CloudWatchOperation::DescribeAnomalyDetectors.name() == "DescribeAnomalyDetectors"@,
        CloudWatchOperation::DescribeInsightRules.name() == "DescribeInsightRules"@,
        CloudWatchOperation::DisableAlarmActions.name() == "DisableAlarmActions"@,
        CloudWatchOperation::DisableInsightRules.name() == "DisableInsightRules"@,
        CloudWatchOperation::EnableAlarmActions.name() == "EnableAlarmActions"@,
        CloudWatchOperation::EnableInsightRules.name() == "EnableInsightRules"@,
        CloudWatchOperation::GetDashboard.name() == "GetDashboard"@,
        CloudWatchOperation::GetInsightRuleReport.name() == "GetInsightRuleReport"@,
        CloudWatchOperation::GetMetricData.name() == "GetMetricData"@,
        CloudWatchOperation::GetMetricStatistics.name() == "GetMetricStatistics"@,
        CloudWatchOperation::GetMetricStream.name() == "GetMetricStream"@,
        CloudWatchOperation::GetMetricWidgetImage.name() == "GetMetricWidgetImage"@,
        CloudWatchOperation::ListDashboards.name() == "ListDashboards"@,
        CloudWatchOperation::ListManagedInsightRules.name() == "ListManagedInsightRules"@,
        CloudWatchOperation::ListMetricStreams.name() == "ListMetricStreams"@,
        CloudWatchOperation::ListMetrics.name() == "ListMetrics"@,
        CloudWatchOperation::ListTagsForResource.name() == "ListTagsForResource"@,
        CloudWatchOperation::PutAnomalyDetector.name() == "PutAnomalyDetector"@,
        CloudWatchOperation::PutCompositeAlarm.name() == "PutCompositeAlarm"@,
        CloudWatchOperation::PutDashboard.name() == "PutDashboard"@,
        CloudWatchOperation::PutInsightRule.name() == "PutInsightRule"@,
        CloudWatchOperation::PutManagedInsightRules.name() == "PutManagedInsightRules"@,
        CloudWatchOperation::PutMetricAlarm.name() == "PutMetricAlarm"@,
        CloudWatchOperation::PutMetricData.name() == "PutMetricData"@,
        CloudWatchOperation::PutMetricStream.name() == "PutMetricStream"@,
        CloudWatchOperation::SetAlarmState.name() == "SetAlarmState"@,
        CloudWatchOperation::StartMetricStreams.name() == "StartMetricStreams"@,
        CloudWatchOperation::StopMetricStreams.name() == "StopMetricStreams"@,
        CloudWatchOperation::TagResource.name() == "TagResource"@,
        CloudWatchOperation::UntagResource.name() == "UntagResource"@,
        CloudWatchOperation::spec_from_name("DeleteAlarms"@) == Some(CloudWatchOperation::DeleteAlarms),
        CloudWatchOperation::spec_from_name("DeleteAnomalyDetector"@) == Some(CloudWatchOperation::DeleteAnomalyDetector),
        CloudWatchOperation::spec_from_name("DeleteDashboards"@) == Some(CloudWatchOperation::DeleteDashboards),
        CloudWatchOperation::spec_from_name("DeleteInsightRules"@) == Some(CloudWatchOperation::DeleteInsightRules),
        CloudWatchOperation::spec_from_name("DeleteMetricStream"@) == Some(CloudWatchOperation::DeleteMetricStream),
        CloudWatchOperation::spec_from_name("DescribeAlarmHistory"@) == Some(CloudWatchOperation::DescribeAlarmHistory),
        CloudWatchOperation::spec_from_name("DescribeAlarms"@) == Some(CloudWatchOperation::DescribeAlarms),
        CloudWatchOperation::spec_from_name("DescribeAlarmsForMetric"@) == Some(CloudWatchOperation::DescribeAlarmsForMetric),
        CloudWatchOperation::spec_from_name("DescribeAnomalyDetectors"@) == Some(CloudWatchOperation::DescribeAnomalyDetectors),
        CloudWatchOperation::spec_from_name("DescribeInsightRules"@) == Some(CloudWatchOperation::DescribeInsightRules),
        CloudWatchOperation::spec_from_name("DisableAlarmActions"@) == Some(CloudWatchOperation::DisableAlarmActions),
        CloudWatchOperation::spec_from_name("DisableInsightRules"@) == Some(CloudWatchOperation::DisableInsightRules),
        CloudWatchOperation::spec_from_name("EnableAlarmActions"@) == Some(CloudWatchOperation::EnableAlarmActions),
        CloudWatchOperation::spec_from_name("EnableInsightRules"@) == Some(CloudWatchOperation::EnableInsightRules),
        CloudWatchOperation::spec_from_name("GetDashboard"@) == Some(CloudWatchOperation::GetDashboard),
        CloudWatchOperation::spec_from_name("GetInsightRuleReport"@) == Some(CloudWatchOperation::GetInsightRuleReport),
        CloudWatchOperation::spec_from_name("GetMetricData"@) == Some(CloudWatchOperation::GetMetricData),
        CloudWatchOperation::spec_from_name("GetMetricStatistics"@) == Some(CloudWatchOperation::GetMetricStatistics),
        CloudWatchOperation::spec_from_name("GetMetricStream"@) == Some(CloudWatchOperation::GetMetricStream),
        CloudWatchOperation::spec_from_name("GetMetricWidgetImage"@) == Some(CloudWatchOperation::GetMetricWidgetImage),
        CloudWatchOperation::spec_from_name("ListDashboards"@) == Some(CloudWatchOperation::ListDashboards),
        CloudWatchOperation::spec_from_name("ListManagedInsightRules"@) == Some(CloudWatchOperation::ListManagedInsightRules),
        CloudWatchOperation::spec_from_name("ListMetricStreams"@) == Some(CloudWatchOperation::ListMetricStreams),
        CloudWatchOperation::spec_from_name("ListMetrics"@) == Some(CloudWatchOperation::ListMetrics),
        CloudWatchOperation::spec_from_name("ListTagsForResource"@) == Some(CloudWatchOperation::ListTagsForResource),
        CloudWatchOperation::spec_from_name("PutAnomalyDetector"@) == Some(CloudWatchOperation::PutAnomalyDetector),
        CloudWatchOperation::spec_from_name("PutCompositeAlarm"@) == Some(CloudWatchOperation::PutCompositeAlarm),
        CloudWatchOperation::spec_from_name("PutDashboard"@) == Some(CloudWatchOperation::PutDashboard),
        CloudWatchOperation::spec_from_name("PutInsightRule"@) == Some(CloudWatchOperation::PutInsightRule),
        CloudWatchOperation::spec_from_name("PutManagedInsightRules"@) == Some(CloudWatchOperation::PutManagedInsightRules),
        CloudWatchOperation::spec_from_name("PutMetricAlarm"@) == Some(CloudWatchOperation::PutMetricAlarm),
        CloudWatchOperation::spec_from_name("PutMetricData"@) == Some(CloudWatchOperation::PutMetricData),
        CloudWatchOperation::spec_from_name("PutMetricStream"@) == Some(CloudWatchOperation::PutMetricStream),
        CloudWatchOperation::spec_from_name("SetAlarmState"@) == Some(CloudWatchOperation::SetAlarmState),
        CloudWatchOperation::spec_from_name("StartMetricStreams"@) == Some(CloudWatchOperation::StartMetricStreams),
        CloudWatchOperation::spec_from_name("StopMetricStreams"@) == Some(CloudWatchOperation::StopMetricStreams),
        CloudWatchOperation::spec_from_name("TagResource"@) == Some(CloudWatchOperation::TagResource),
        CloudWatchOperation::spec_from_name("UntagResource"@) == Some(CloudWatchOperation::UntagResource),
{
    reveal_strlit("DeleteAlarms");
    reveal_strlit("DeleteAnomalyDetector");
    reveal_strlit("DeleteDashboards");
    reveal_strlit("DeleteInsightRules");
    reveal_strlit("DeleteMetricStream");
    reveal_strlit("DescribeAlarmHistory");
    reveal_strlit("DescribeAlarms");
    reveal_strlit("DescribeAlarmsForMetric");
    reveal_strlit("DescribeAnomalyDetectors");
    reveal_strlit("DescribeInsightRules");
    reveal_strlit("DisableAlarmActions");
    reveal_strlit("DisableInsightRules");
    reveal_strlit("EnableAlarmActions");
    reveal_strlit("EnableInsightRules");
    reveal_strlit("GetDashboard");
    reveal_strlit("GetInsightRuleReport");
    reveal_strlit("GetMetricData");
    reveal_strlit("GetMetricStatistics");
    reveal_strlit("GetMetricStream");
    reveal_strlit("GetMetricWidgetImage");
    reveal_strlit("ListDashboards");
    reveal_strlit("ListManagedInsightRules");
    reveal_strlit("ListMetricStreams");
    reveal_strlit("ListMetrics");
    reveal_strlit("ListTagsForResource");
    reveal_strlit("PutAnomalyDetector");
    reveal_strlit("PutCompositeAlarm");
    reveal_strlit("PutDashboard");
    reveal_strlit("PutInsightRule");
    reveal_strlit("PutManagedInsightRules");
    reveal_strlit("PutMetricAlarm");
    reveal_strlit("PutMetricData");
    reveal_strlit("PutMetricStream");
    reveal_strlit("SetAlarmState");
    reveal_strlit("StartMetricStreams");
    reveal_strlit("StopMetricStreams");
    reveal_strlit("TagResource");
    reveal_strlit("UntagResource");
    assert("DeleteAnomalyDetector"@ != "DeleteAlarms"@) by { assert("DeleteAnomalyDetector"@.len() != "DeleteAlarms"@.len()); }
    assert("DeleteDashboards"@ != "DeleteAlarms"@) by { assert("DeleteDashboards"@.len() != "DeleteAlarms"@.len()); }
    assert("DeleteDashboards"@ != "DeleteAnomalyDetector"@) by { assert("DeleteDashboards"@.len() != "DeleteAnomalyDetector"@.len()); }
    assert("DeleteInsightRules"@ != "DeleteAlarms"@) by { assert("DeleteInsightRules"@.len() != "DeleteAlarms"@.len()); }
    assert("DeleteInsightRules"@ != "DeleteAnomalyDetector"@) by { assert("DeleteInsightRules"@.len() != "DeleteAnomalyDetector"@.len()); }
    assert("DeleteInsightRules"@ != "DeleteDashboards"@) by { assert("DeleteInsightRules"@.len() != "DeleteDashboards"@.len()); }
    assert("DeleteMetricStream"@ != "DeleteAlarms"@) by { assert("DeleteMetricStream"@.len() != "DeleteAlarms"@.len()); }
    assert("DeleteMetricStream"@ != "DeleteAnomalyDetector"@) by { assert("DeleteMetricStream"@.len() != "DeleteAnomalyDetector"@.len()); }
    assert("DeleteMetricStream"@ != "DeleteDashboards"@) by { assert("DeleteMetricStream"@.len() != "DeleteDashboards"@.len()); }
    assert("DeleteMetricStream"@ != "DeleteInsightRules"@) by { assert("DeleteMetricStream"@[6] != "DeleteInsightRules"@[6]); }
    assert("DescribeAlarmHistory"@ != "DeleteAlarms"@) by { assert("DescribeAlarmHistory"@.len() != "DeleteAlarms"@.len()); }
    assert("DescribeAlarmHistory"@ != "DeleteAnomalyDetector"@) by { assert("DescribeAlarmHistory"@.len() != "DeleteAnomalyDetector"@.len()); }
    assert("DescribeAlarmHistory"@ != "DeleteDashboards"@) by { assert("DescribeAlarmHistory"@.len() != "DeleteDashboards"@.len()); }
    assert("DescribeAlarmHistory"@ != "DeleteInsightRules"@) by { assert("DescribeAlarmHistory"@.len() != "DeleteInsightRules"@.len()); }
    assert("DescribeAlarmHistory"@ != "DeleteMetricStream"@) by { assert("DescribeAlarmHistory"@.len() != "DeleteMetricStream"@.len()); }
    assert("DescribeAlarms"@ != "DeleteAlarms"@) by { assert("DescribeAlarms"@.len() != "DeleteAlarms"@.len()); }
    assert("DescribeAlarms"@ != "DeleteAnomalyDetector"@) by { assert("DescribeAlarms"@.len() != "DeleteAnomalyDetector"@.len()); }
    assert("DescribeAlarms"@ != "DeleteDashboards"@) by { assert("DescribeAlarms"@.len() != "DeleteDashboards"@.len()); }
    assert("DescribeAlarms"@ != "DeleteInsightRules"@) by { assert("DescribeAlarms"@.len() != "DeleteInsightRules"@.len()); }
    assert("DescribeAlarms"@ != "DeleteMetricStream"@) by { assert("DescribeAlarms"@.len() != "DeleteMetricStream"@.len()); }
    assert("DescribeAlarms"@ != "DescribeAlarmHistory"@) by { assert("DescribeAlarms"@.len() != "DescribeAlarmHistory"@.len()); }
    assert("DescribeAlarmsForMetric"@ != "DeleteAlarms"@) by { assert("DescribeAlarmsForMetric"@.len() != "DeleteAlarms"@.len()); }
    assert("DescribeAlarmsForMetric"@ != "DeleteAnomalyDetector"@) by { assert("DescribeAlarmsForMetric"@.len() != "DeleteAnomalyDetector"@.len()); }
    assert("DescribeAlarmsForMetric"@ != "DeleteDashboards"@) by { assert("DescribeAlarmsForMetric"@.len() != "DeleteDashboards"@.len()); }
    assert("DescribeAlarmsForMetric"@ != "DeleteInsightRules"@) by { assert("DescribeAlarmsForMetric"@.len() != "DeleteInsightRules"@.len()); }
    assert("DescribeAlarmsForMetric"@ != "DeleteMetricStream"@) by { assert("DescribeAlarmsForMetric"@.len() != "DeleteMetricStream"@.len()); }
    assert("DescribeAlarmsForMetric"@ != "DescribeAlarmHistory"@) by { assert("DescribeAlarmsForMetric"@.len() != "DescribeAlarmHistory"@.len()); }
    assert("DescribeAlarmsForMetric"@ != "DescribeAlarms"@) by { assert("DescribeAlarmsForMetric"@.len() != "DescribeAlarms"@.len()); }
    assert("DescribeAnomalyDetectors"@ != "DeleteAlarms"@) by { assert("DescribeAnomalyDetectors"@.len() != "DeleteAlarms"@.len()); }
    assert("DescribeAnomalyDetectors"@ != "DeleteAnomalyDetector"@) by { assert("DescribeAnomalyDetectors"@.len() != "DeleteAnomalyDetector"@.len()); }
    assert("DescribeAnomalyDetectors"@ != "DeleteDashboards"@) by { assert("DescribeAnomalyDetectors"@.len() != "DeleteDashboards"@.len()); }
    assert("DescribeAnomalyDetectors"@ != "DeleteInsightRules"@) by { assert("DescribeAnomalyDetectors"@.len() != "DeleteInsightRules"@.len()); }
    assert("DescribeAnomalyDetectors"@ != "DeleteMetricStream"@) by { assert("DescribeAnomalyDetectors"@.len() != "DeleteMetricStream"@.len()); }
    assert("DescribeAnomalyDetectors"@ != "DescribeAlarmHistory"@) by { assert("DescribeAnomalyDetectors"@.len() != "DescribeAlarmHistory"@.len()); }
    assert("DescribeAnomalyDetectors"@ != "DescribeAlarms"@) by { assert("DescribeAnomalyDetectors"@.len() != "DescribeAlarms"@.len()); }
    assert("DescribeAnomalyDetectors"@ != "DescribeAlarmsForMetric"@) by { assert("DescribeAnomalyDetectors"@.len() != "DescribeAlarmsForMetric"@.len()); }
    assert("DescribeInsightRules"@ != "DeleteAlarms"@) by { assert("DescribeInsightRules"@.len() != "DeleteAlarms"@.len()); }
    assert("DescribeInsightRules"@ != "DeleteAnomalyDetector"@) by { assert("DescribeInsightRules"@.len() != "DeleteAnomalyDetector"@.len()); }
    assert("DescribeInsightRules"@ != "DeleteDashboards"@) by { assert("DescribeInsightRules"@.len() != "DeleteDashboards"@.len()); }
    assert("DescribeInsightRules"@ != "DeleteInsightRules"@) by { assert("DescribeInsightRules"@.len() != "DeleteInsightRules"@.len()); }
    assert("DescribeInsightRules"@ != "DeleteMetricStream"@) by { assert("DescribeInsightRules"@.len() != "DeleteMetricStream"@.len()); }
    assert("DescribeInsightRules"@ != "DescribeAlarmHistory"@) by { assert("DescribeInsightRules"@[8] != "DescribeAlarmHistory"@[8]); }
    assert("DescribeInsightRules"@ != "DescribeAlarms"@) by { assert("DescribeInsightRules"@.len() != "DescribeAlarms"@.len()); }
    assert("DescribeInsightRules"@ != "DescribeAlarmsForMetric"@) by { assert("DescribeInsightRules"@.len() != "DescribeAlarmsForMetric"@.len()); }
    assert("DescribeInsightRules"@ != "DescribeAnomalyDetectors"@) by { assert("DescribeInsightRules"@.len() != "DescribeAnomalyDetectors"@.len()); }
    assert("DisableAlarmActions"@ != "DeleteAlarms"@) by { assert("DisableAlarmActions"@.len() != "DeleteAlarms"@.len()); }
    assert("DisableAlarmActions"@ != "DeleteAnomalyDetector"@) by { assert("DisableAlarmActions"@.len() != "DeleteAnomalyDetector"@.len()); }
    assert("DisableAlarmActions"@ != "DeleteDashboards"@) by { assert("DisableAlarmActions"@.len() != "DeleteDashboards"@.len()); }
    assert("DisableAlarmActions"@ != "DeleteInsightRules"@) by { assert("DisableAlarmActions"@.len() != "DeleteInsightRules"@.len()); }
    assert("DisableAlarmActions"@ != "DeleteMetricStream"@) by { assert("DisableAlarmActions"@.len() != "DeleteMetricStream"@.len()); }
    assert("DisableAlarmActions"@ != "DescribeAlarmHistory"@) by { assert("DisableAlarmActions"@.len() != "DescribeAlarmHistory"@.len()); }
    assert("DisableAlarmActions"@ != "DescribeAlarms"@) by { assert("DisableAlarmActions"@.len() != "DescribeAlarms"@.len()); }
    assert("DisableAlarmActions"@ != "DescribeAlarmsForMetric"@) by { assert("DisableAlarmActions"@.len() != "DescribeAlarmsForMetric"@.len()); }
    assert("DisableAlarmActions"@ != "DescribeAnomalyDetectors"@) by { assert("DisableAlarmActions"@.len() != "DescribeAnomalyDetectors"@.len()); }
    assert("DisableAlarmActions"@ != "DescribeInsightRules"@) by { assert("DisableAlarmActions"@.len() != "DescribeInsightRules"@.len()); }
    assert("DisableInsightRules"@ != "DeleteAlarms"@) by { assert("DisableInsightRules"@.len() != "DeleteAlarms"@.len()); }
    assert("DisableInsightRules"@ != "DeleteAnomalyDetector"@) by { assert("DisableInsightRules"@.len() != "DeleteAnomalyDetector"@.len()); }
    assert("DisableInsightRules"@ != "DeleteDashboards"@) by { assert("DisableInsightRules"@.len() != "DeleteDashboards"@.len()); }
    assert("DisableInsightRules"@ != "DeleteInsightRules"@) by { assert("DisableInsightRules"@.len() != "DeleteInsightRules"@.len()); }
    assert("DisableInsightRules"@ != "DeleteMetricStream"@) by { assert("DisableInsightRules"@.len() != "DeleteMetricStream"@.len()); }
    assert("DisableInsightRules"@ != "DescribeAlarmHistory"@) by { assert("DisableInsightRules"@.len() != "DescribeAlarmHistory"@.len()); }
    assert("DisableInsightRules"@ != "DescribeAlarms"@) by { assert("DisableInsightRules"@.len() != "DescribeAlarms"@.len()); }
    assert("DisableInsightRules"@ != "DescribeAlarmsForMetric"@) by { assert("DisableInsightRules"@.len() != "DescribeAlarmsForMetric"@.len()); }
    assert("DisableInsightRules"@ != "DescribeAnomalyDetectors"@) by { assert("DisableInsightRules"@.len() != "DescribeAnomalyDetectors"@.len()); }
    assert("DisableInsightRules"@ != "DescribeInsightRules"@) by { assert("DisableInsightRules"@.len() != "DescribeInsightRules"@.len()); }
    assert("DisableInsightRules"@ != "DisableAlarmActions"@) by { assert("DisableInsightRules"@[7] != "DisableAlarmActions"@[7]); }
    assert("EnableAlarmActions"@ != "DeleteAlarms"@) by { assert("EnableAlarmActions"@.len() != "DeleteAlarms"@.len()); }
    assert("EnableAlarmActions"@ != "DeleteAnomalyDetector"@) by { assert("EnableAlarmActions"@.len() != "DeleteAnomalyDetector"@.len()); }
    assert("EnableAlarmActions"@ != "DeleteDashboards"@) by { assert("EnableAlarmActions"@.len() != "DeleteDashboards"@.len()); }
    assert("EnableAlarmActions"@ != "DeleteInsightRules"@) by { assert("EnableAlarmActions"@[0] != "DeleteInsightRules"@[0]); }
    assert("EnableAlarmActions"@ != "DeleteMetricStream"@) by { assert("EnableAlarmActions"@[0] != "DeleteMetricStream"@[0]); }
    assert("EnableAlarmActions"@ != "DescribeAlarmHistory"@) by { assert("EnableAlarmActions"@.len() != "DescribeAlarmHistory"@.len()); }
    assert("EnableAlarmActions"@ != "DescribeAlarms"@) by { assert("EnableAlarmActions"@.len() != "DescribeAlarms"@.len()); }
    assert("EnableAlarmActions"@ != "DescribeAlarmsForMetric"@) by { assert("EnableAlarmActions"@.len() != "DescribeAlarmsForMetric"@.len()); }
    assert("EnableAlarmActions"@ != "DescribeAnomalyDetectors"@) by { assert("EnableAlarmActions"@.len() != "DescribeAnomalyDetectors"@.len()); }
    assert("EnableAlarmActions"@ != "DescribeInsightRules"@) by { assert("EnableAlarmActions"@.len() != "DescribeInsightRules"@.len()); }
    assert("EnableAlarmActions"@ != "DisableAlarmActions"@) by { assert("EnableAlarmActions"@.len() != "DisableAlarmActions"@.len()); }
    assert("EnableAlarmActions"@ != "DisableInsightRules"@) by { assert("EnableAlarmActions"@.len() != "DisableInsightRules"@.len()); }
    assert("EnableInsightRules"@ != "DeleteAlarms"@) by { assert("EnableInsightRules"@.len() != "DeleteAlarms"@.len()); }
    assert("EnableInsightRules"@ != "DeleteAnomalyDetector"@) by { assert("EnableInsightRules"@.len() != "DeleteAnomalyDetector"@.len()); }
    assert("EnableInsightRules"@ != "DeleteDashboards"@) by { assert("EnableInsightRules"@.len() != "DeleteDashboards"@.len()); }
    assert("EnableInsightRules"@ != "DeleteInsightRules"@) by { assert("EnableInsightRules"@[0] != "DeleteInsightRules"@[0]); }
    assert("EnableInsightRules"@ != "DeleteMetricStream"@) by { assert("EnableInsightRules"@[0] != "DeleteMetricStream"@[0]); }
    assert("EnableInsightRules"@ != "DescribeAlarmHistory"@) by { assert("EnableInsightRules"@.len() != "DescribeAlarmHistory"@.len()); }
    assert("EnableInsightRules"@ != "DescribeAlarms"@) by { assert("EnableInsightRules"@.len() != "DescribeAlarms"@.len()); }
    assert("EnableInsightRules"@ != "DescribeAlarmsForMetric"@) by { assert("EnableInsightRules"@.len() != "DescribeAlarmsForMetric"@.len()); }
    assert("EnableInsightRules"@ != "DescribeAnomalyDetectors"@) by { assert("EnableInsightRules"@.len() != "DescribeAnomalyDetectors"@.len()); }
    assert("EnableInsightRules"@ != "DescribeInsightRules"@) by { assert("EnableInsightRules"@.len() != "DescribeInsightRules"@.len()); }
    assert("EnableInsightRules"@ != "DisableAlarmActions"@) by { assert("EnableInsightRules"@.len() != "DisableAlarmActions"@.len()); }
    assert("EnableInsightRules"@ != "DisableInsightRules"@) by { assert("EnableInsightRules"@.len() != "DisableInsightRules"@.len()); }
    assert("EnableInsightRules"@ != "EnableAlarmActions"@) by { assert("EnableInsightRules"@[6] != "EnableAlarmActions"@[6]); }
    assert("GetDashboard"@ != "DeleteAlarms"@) by { assert("GetDashboard"@[0] != "DeleteAlarms"@[0]); }
    assert("GetDashboard"@ != "DeleteAnomalyDetector"@) by { assert("GetDashboard"@.len() != "DeleteAnomalyDetector"@.len()); }
    assert("GetDashboard"@ != "DeleteDashboards"@) by { assert("GetDashboard"@.len() != "DeleteDashboards"@.len()); }
    assert("GetDashboard"@ != "DeleteInsightRules"@) by { assert("GetDashboard"@.len() != "DeleteInsightRules"@.len()); }
    assert("GetDashboard"@ != "DeleteMetricStream"@) by { assert("GetDashboard"@.len() != "DeleteMetricStream"@.len()); }
    assert("GetDashboard"@ != "DescribeAlarmHistory"@) by { assert("GetDashboard"@.len() != "DescribeAlarmHistory"@.len()); }
    assert("GetDashboard"@ != "DescribeAlarms"@) by { assert("GetDashboard"@.len() != "DescribeAlarms"@.len()); }
    assert("GetDashboard"@ != "DescribeAlarmsForMetric"@) by { assert("GetDashboard"@.len() != "DescribeAlarmsForMetric"@.len()); }
    assert("GetDashboard"@ != "DescribeAnomalyDetectors"@) by { assert("GetDashboard"@.len() != "DescribeAnomalyDetectors"@.len()); }
    assert("GetDashboard"@ != "DescribeInsightRules"@) by { assert("GetDashboard"@.len() != "DescribeInsightRules"@.len()); }
    assert("GetDashboard"@ != "DisableAlarmActions"@) by { assert("GetDashboard"@.len() != "DisableAlarmActions"@.len()); }
    assert("GetDashboard"@ != "DisableInsightRules"@) by { assert("GetDashboard"@.len() != "DisableInsightRules"@.len()); }
    assert("GetDashboard"@ != "EnableAlarmActions"@) by { assert("GetDashboard"@.len() != "EnableAlarmActions"@.len()); }
    assert("GetDashboard"@ != "EnableInsightRules"@) by { assert("GetDashboard"@.len() != "EnableInsightRules"@.len()); }
    assert("GetInsightRuleReport"@ != "DeleteAlarms"@) by { assert("GetInsightRuleReport"@.len() != "DeleteAlarms"@.len()); }
    assert("GetInsightRuleReport"@ != "DeleteAnomalyDetector"@) by { assert("GetInsightRuleReport"@.len() != "DeleteAnomalyDetector"@.len()); }
    assert("GetInsightRuleReport"@ != "DeleteDashboards"@) by { assert("GetInsightRuleReport"@.len() != "DeleteDashboards"@.len()); }
    assert("GetInsightRuleReport"@ != "DeleteInsightRules"@) by { assert("GetInsightRuleReport"@.len() != "DeleteInsightRules"@.len()); }
    assert("GetInsightRuleReport"@ != "DeleteMetricStream"@) by { assert("GetInsightRuleReport"@.len() != "DeleteMetricStream"@.len()); }
    assert("GetInsightRuleReport"@ != "DescribeAlarmHistory"@) by { assert("GetInsightRuleReport"@[0] != "DescribeAlarmHistory"@[0]); }
    assert("GetInsightRuleReport"@ != "DescribeAlarms"@) by { assert("GetInsightRuleReport"@.len() != "DescribeAlarms"@.len()); }
    assert("GetInsightRuleReport"@ != "DescribeAlarmsForMetric"@) by { assert("GetInsightRuleReport"@.len() != "DescribeAlarmsForMetric"@.len()); }
    assert("GetInsightRuleReport"@ != "DescribeAnomalyDetectors"@) by { assert("GetInsightRuleReport"@.len() != "DescribeAnomalyDetectors"@.len()); }
    assert("GetInsightRuleReport"@ != "DescribeInsightRules"@) by { assert("GetInsightRuleReport"@[0] != "DescribeInsightRules"@[0]); }
    assert("GetInsightRuleReport"@ != "DisableAlarmActions"@) by { assert("GetInsightRuleReport"@.len() != "DisableAlarmActions"@.len()); }
    assert("GetInsightRuleReport"@ != "DisableInsightRules"@) by { assert("GetInsightRuleReport"@.len() != "DisableInsightRules"@.len()); }
    assert("GetInsightRuleReport"@ != "EnableAlarmActions"@) by { assert("GetInsightRuleReport"@.len() != "EnableAlarmActions"@.len()); }
    assert("GetInsightRuleReport"@ != "EnableInsightRules"@) by { assert("GetInsightRuleReport"@.len() != "EnableInsightRules"@.len()); }
    assert("GetInsightRuleReport"@ != "GetDashboard"@) by { assert("GetInsightRuleReport"@.len() != "GetDashboard"@.len()); }
    assert("GetMetricData"@ != "DeleteAlarms"@) by { assert("GetMetricData"@.len() != "DeleteAlarms"@.len()); }
    assert("GetMetricData"@ != "DeleteAnomalyDetector"@) by { assert("GetMetricData"@.len() != "DeleteAnomalyDetector"@.len()); }
    assert("GetMetricData"@ != "DeleteDashboards"@) by { assert("GetMetricData"@.len() != "DeleteDashboards"@.len()); }
    assert("GetMetricData"@ != "DeleteInsightRules"@) by { assert("GetMetricData"@.len() != "DeleteInsightRules"@.len()); }
    assert("GetMetricData"@ != "DeleteMetricStream"@) by { assert("GetMetricData"@.len() != "DeleteMetricStream"@.len()); }
    assert("GetMetricData"@ != "DescribeAlarmHistory"@) by { assert("GetMetricData"@.len() != "DescribeAlarmHistory"@.len()); }
    assert("GetMetricData"@ != "DescribeAlarms"@) by { assert("GetMetricData"@.len() != "DescribeAlarms"@.len()); }
    assert("GetMetricData"@ != "DescribeAlarmsForMetric"@) by { assert("GetMetricData"@.len() != "DescribeAlarmsForMetric"@.len()); }
    assert("GetMetricData"@ != "DescribeAnomalyDetectors"@) by { assert("GetMetricData"@.len() != "DescribeAnomalyDetectors"@.len()); }
    assert("GetMetricData"@ != "DescribeInsightRules"@) by { assert("GetMetricData"@.len() != "DescribeInsightRules"@.len()); }
    assert("GetMetricData"@ != "DisableAlarmActions"@) by { assert("GetMetricData"@.len() != "DisableAlarmActions"@.len()); }
    assert("GetMetricData"@ != "DisableInsightRules"@) by { assert("GetMetricData"@.len() != "DisableInsightRules"@.len()); }
    assert("GetMetricData"@ != "EnableAlarmActions"@) by { assert("GetMetricData"@.len() != "EnableAlarmActions"@.len()); }
    assert("GetMetricData"@ != "EnableInsightRules"@) by { assert("GetMetricData"@.len() != "EnableInsightRules"@.len()); }
    assert("GetMetricData"@ != "GetDashboard"@) by { assert("GetMetricData"@.len() != "GetDashboard"@.len()); }
    assert("GetMetricData"@ != "GetInsightRuleReport"@) by { assert("GetMetricData"@.len() != "GetInsightRuleReport"@.len()); }
    assert("GetMetricStatistics"@ != "DeleteAlarms"@) by { assert("GetMetricStatistics"@.len() != "DeleteAlarms"@.len()); }
    assert("GetMetricStatistics"@ != "DeleteAnomalyDetector"@) by { assert("GetMetricStatistics"@.len() != "DeleteAnomalyDetector"@.len()); }
    assert("GetMetricStatistics"@ != "DeleteDashboards"@) by { assert("GetMetricStatistics"@.len() != "DeleteDashboards"@.len()); }
    assert("GetMetricStatistics"@ != "DeleteInsightRules"@) by { assert("GetMetricStatistics"@.len() != "DeleteInsightRules"@.len()); }
    assert("GetMetricStatistics"@ != "DeleteMetricStream"@) by { assert("GetMetricStatistics"@.len() != "DeleteMetricStream"@.len()); }
    assert("GetMetricStatistics"@ != "DescribeAlarmHistory"@) by { assert("GetMetricStatistics"@.len() != "DescribeAlarmHistory"@.len()); }
    assert("GetMetricStatistics"@ != "DescribeAlarms"@) by { assert("GetMetricStatistics"@.len() != "DescribeAlarms"@.len()); }
    assert("GetMetricStatistics"@ != "DescribeAlarmsForMetric"@) by { assert("GetMetricStatistics"@.len() != "DescribeAlarmsForMetric"@.len()); }
    assert("GetMetricStatistics"@ != "DescribeAnomalyDetectors"@) by { assert("GetMetricStatistics"@.len() != "DescribeAnomalyDetectors"@.len()); }
    assert("GetMetricStatistics"@ != "DescribeInsightRules"@) by { assert("GetMetricStatistics"@.len() != "DescribeInsightRules"@.len()); }
    assert("GetMetricStatistics"@ != "DisableAlarmActions"@) by { assert("GetMetricStatistics"@[0] != "DisableAlarmActions"@[0]); }
    assert("GetMetricStatistics"@ != "DisableInsightRules"@) by { assert("GetMetricStatistics"@[0] != "DisableInsightRules"@[0]); }
    assert("GetMetricStatistics"@ != "EnableAlarmActions"@) by { assert("GetMetricStatistics"@.len() != "EnableAlarmActions"@.len()); }
    assert("GetMetricStatistics"@ != "EnableInsightRules"@) by { assert("GetMetricStatistics"@.len() != "EnableInsightRules"@.len()); }
    assert("GetMetricStatistics"@ != "GetDashboard"@) by { assert("GetMetricStatistics"@.len() != "GetDashboard"@.len()); }
    assert("GetMetricStatistics"@ != "GetInsightRuleReport"@) by { assert("GetMetricStatistics"@.len() != "GetInsightRuleReport"@.len()); }
    assert("GetMetricStatistics"@ != "GetMetricData"@) by { assert("GetMetricStatistics"@.len() != "GetMetricData"@.len()); }
    assert("GetMetricStream"@ != "DeleteAlarms"@) by { assert("GetMetricStream"@.len() != "DeleteAlarms"@.len()); }
    assert("GetMetricStream"@ != "DeleteAnomalyDetector"@) by { assert("GetMetricStream"@.len() != "DeleteAnomalyDetector"@.len()); }
    assert("GetMetricStream"@ != "DeleteDashboards"@) by { assert("GetMetricStream"@.len() != "DeleteDashboards"@.len()); }
    assert("GetMetricStream"@ != "DeleteInsightRules"@) by { assert("GetMetricStream"@.len() != "DeleteInsightRules"@.len()); }
    assert("GetMetricStream"@ != "DeleteMetricStream"@) by { assert("GetMetricStream"@.len() != "DeleteMetricStream"@.len()); }
    assert("GetMetricStream"@ != "DescribeAlarmHistory"@) by { assert("GetMetricStream"@.len() != "DescribeAlarmHistory"@.len()); }
    assert("GetMetricStream"@ != "DescribeAlarms"@) by { assert("GetMetricStream"@.len() != "DescribeAlarms"@.len()); }
    assert("GetMetricStream"@ != "DescribeAlarmsForMetric"@) by { assert("GetMetricStream"@.len() != "DescribeAlarmsForMetric"@.len()); }
    assert("GetMetricStream"@ != "DescribeAnomalyDetectors"@) by { assert("GetMetricStream"@.len() != "DescribeAnomalyDetectors"@.len()); }
    assert("GetMetricStream"@ != "DescribeInsightRules"@) by { assert("GetMetricStream"@.len() != "DescribeInsightRules"@.len()); }
    assert("GetMetricStream"@ != "DisableAlarmActions"@) by { assert("GetMetricStream"@.len() != "DisableAlarmActions"@.len()); }
    assert("GetMetricStream"@ != "DisableInsightRules"@) by { assert("GetMetricStream"@.len() != "DisableInsightRules"@.len()); }
    assert("GetMetricStream"@ != "EnableAlarmActions"@) by { assert("GetMetricStream"@.len() != "EnableAlarmActions"@.len()); }
    assert("GetMetricStream"@ != "EnableInsightRules"@) by { assert("GetMetricStream"@.len() != "EnableInsightRules"@.len()); }
    assert("GetMetricStream"@ != "GetDashboard"@) by { assert("GetMetricStream"@.len() != "GetDashboard"@.len()); }
    assert("GetMetricStream"@ != "GetInsightRuleReport"@) by { assert("GetMetricStream"@.len() != "GetInsightRuleReport"@.len()); }
    assert("GetMetricStream"@ != "GetMetricData"@) by { assert("GetMetricStream"@.len() != "GetMetricData"@.len()); }
    assert("GetMetricStream"@ != "GetMetricStatistics"@) by { assert("GetMetricStream"@.len() != "GetMetricStatistics"@.len()); }
    assert("GetMetricWidgetImage"@ != "DeleteAlarms"@) by { assert("GetMetricWidgetImage"@.len() != "DeleteAlarms"@.len()); }
    assert("GetMetricWidgetImage"@ != "DeleteAnomalyDetector"@) by { assert("GetMetricWidgetImage"@.len() != "DeleteAnomalyDetector"@.len()); }
    assert("GetMetricWidgetImage"@ != "DeleteDashboards"@) by { assert("GetMetricWidgetImage"@.len() != "DeleteDashboards"@.len()); }
    assert("GetMetricWidgetImage"@ != "DeleteInsightRules"@) by { assert("GetMetricWidgetImage"@.len() != "DeleteInsightRules"@.len()); }
    assert("GetMetricWidgetImage"@ != "DeleteMetricStream"@) by { assert("GetMetricWidgetImage"@.len() != "DeleteMetricStream"@.len()); }
    assert("GetMetricWidgetImage"@ != "DescribeAlarmHistory"@) by { assert("GetMetricWidgetImage"@[0] != "DescribeAlarmHistory"@[0]); }
    assert("GetMetricWidgetImage"@ != "DescribeAlarms"@) by { assert("GetMetricWidgetImage"@.len() != "DescribeAlarms"@.len()); }
    assert("GetMetricWidgetImage"@ != "DescribeAlarmsForMetric"@) by { assert("GetMetricWidgetImage"@.len() != "DescribeAlarmsForMetric"@.len()); }
    assert("GetMetricWidgetImage"@ != "DescribeAnomalyDetectors"@) by { assert("GetMetricWidgetImage"@.len() != "DescribeAnomalyDetectors"@.len()); }
    assert("GetMetricWidgetImage"@ != "DescribeInsightRules"@) by { assert("GetMetricWidgetImage"@[0] != "DescribeInsightRules"@[0]); }
    assert("GetMetricWidgetImage"@ != "DisableAlarmActions"@) by { assert("GetMetricWidgetImage"@.len() != "DisableAlarmActions"@.len()); }
    assert("GetMetricWidgetImage"@ != "DisableInsightRules"@) by { assert("GetMetricWidgetImage"@.len() != "DisableInsightRules"@.len()); }
    assert("GetMetricWidgetImage"@ != "EnableAlarmActions"@) by { assert("GetMetricWidgetImage"@.len() != "EnableAlarmActions"@.len()); }
    assert("GetMetricWidgetImage"@ != "EnableInsightRules"@) by { assert("GetMetricWidgetImage"@.len() != "EnableInsightRules"@.len()); }
    assert("GetMetricWidgetImage"@ != "GetDashboard"@) by { assert("GetMetricWidgetImage"@.len() != "GetDashboard"@.len()); }
    assert("GetMetricWidgetImage"@ != "GetInsightRuleReport"@) by { assert("GetMetricWidgetImage"@[3] != "GetInsightRuleReport"@[3]); }
    assert("GetMetricWidgetImage"@ != "GetMetricData"@) by { assert("GetMetricWidgetImage"@.len() != "GetMetricData"@.len()); }
    assert("GetMetricWidgetImage"@ != "GetMetricStatistics"@) by { assert("GetMetricWidgetImage"@.len() != "GetMetricStatistics"@.len()); }
    assert("GetMetricWidgetImage"@ != "GetMetricStream"@) by { assert("GetMetricWidgetImage"@.len() != "GetMetricStream"@.len()); }
    assert("ListDashboards"@ != "DeleteAlarms"@) by { assert("ListDashboards"@.len() != "DeleteAlarms"@.len()); }
    assert("ListDashboards"@ != "DeleteAnomalyDetector"@) by { assert("ListDashboards"@.len() != "DeleteAnomalyDetector"@.len()); }
    assert("ListDashboards"@ != "DeleteDashboards"@) by { assert("ListDashboards"@.len() != "DeleteDashboards"@.len()); }
    assert("ListDashboards"@ != "DeleteInsightRules"@) by { assert("ListDashboards"@.len() != "DeleteInsightRules"@.len()); }
    assert("ListDashboards"@ != "DeleteMetricStream"@) by { assert("ListDashboards"@.len() != "DeleteMetricStream"@.len()); }
    assert("ListDashboards"@ != "DescribeAlarmHistory"@) by { assert("ListDashboards"@.len() != "DescribeAlarmHistory"@.len()); }
    assert("ListDashboards"@ != "DescribeAlarms"@) by { assert("ListDashboards"@[0] != "DescribeAlarms"@[0]); }
    assert("ListDashboards"@ != "DescribeAlarmsForMetric"@) by { assert("ListDashboards"@.len() != "DescribeAlarmsForMetric"@.len()); }
    assert("ListDashboards"@ != "DescribeAnomalyDetectors"@) by { assert("ListDashboards"@.len() != "DescribeAnomalyDetectors"@.len()); }
    assert("ListDashboards"@ != "DescribeInsightRules"@) by { assert("ListDashboards"@.len() != "DescribeInsightRules"@.len()); }
    assert("ListDashboards"@ != "DisableAlarmActions"@) by { assert("ListDashboards"@.len() != "DisableAlarmActions"@.len()); }
    assert("ListDashboards"@ != "DisableInsightRules"@) by { assert("ListDashboards"@.len() != "DisableInsightRules"@.len()); }
    assert("ListDashboards"@ != "EnableAlarmActions"@) by { assert("ListDashboards"@.len() != "EnableAlarmActions"@.len()); }
    assert("ListDashboards"@ != "EnableInsightRules"@) by { assert("ListDashboards"@.len() != "EnableInsightRules"@.len()); }
    assert("ListDashboards"@ != "GetDashboard"@) by { assert("ListDashboards"@.len() != "GetDashboard"@.len()); }
    assert("ListDashboards"@ != "GetInsightRuleReport"@) by { assert("ListDashboards"@.len() != "GetInsightRuleReport"@.len()); }
    assert("ListDashboards"@ != "GetMetricData"@) by { assert("ListDashboards"@.len() != "GetMetricData"@.len()); }
    assert("ListDashboards"@ != "GetMetricStatistics"@) by { assert("ListDashboards"@.len() != "GetMetricStatistics"@.len()); }
    assert("ListDashboards"@ != "GetMetricStream"@) by { assert("ListDashboards"@.len() != "GetMetricStream"@.len()); }
    assert("ListDashboards"@ != "GetMetricWidgetImage"@) by { assert("ListDashboards"@.len() != "GetMetricWidgetImage"@.len()); }
    assert("ListManagedInsightRules"@ != "DeleteAlarms"@) by { assert("ListManagedInsightRules"@.len() != "DeleteAlarms"@.len()); }
    assert("ListManagedInsightRules"@ != "DeleteAnomalyDetector"@) by { assert("ListManagedInsightRules"@.len() != "DeleteAnomalyDetector"@.len()); }
    assert("ListManagedInsightRules"@ != "DeleteDashboards"@) by { assert("ListManagedInsightRules"@.len() != "DeleteDashboards"@.len()); }
    assert("ListManagedInsightRules"@ != "DeleteInsightRules"@) by { assert("ListManagedInsightRules"@.len() != "DeleteInsightRules"@.len()); }
    assert("ListManagedInsightRules"@ != "DeleteMetricStream"@) by { assert("ListManagedInsightRules"@.len() != "DeleteMetricStream"@.len()); }
    assert("ListManagedInsightRules"@ != "DescribeAlarmHistory"@) by { assert("ListManagedInsightRules"@.len() != "DescribeAlarmHistory"@.len()); }
    assert("ListManagedInsightRules"@ != "DescribeAlarms"@) by { assert("ListManagedInsightRules"@.len() != "DescribeAlarms"@.len()); }
    assert("ListManagedInsightRules"@ != "DescribeAlarmsForMetric"@) by { assert("ListManagedInsightRules"@[0] != "DescribeAlarmsForMetric"@[0]); }
    assert("ListManagedInsightRules"@ != "DescribeAnomalyDetectors"@) by { assert("ListManagedInsightRules"@.len() != "DescribeAnomalyDetectors"@.len()); }
    assert("ListManagedInsightRules"@ != "DescribeInsightRules"@) by { assert("ListManagedInsightRules"@.len() != "DescribeInsightRules"@.len()); }
    assert("ListManagedInsightRules"@ != "DisableAlarmActions"@) by { assert("ListManagedInsightRules"@.len() != "DisableAlarmActions"@.len()); }
    assert("ListManagedInsightRules"@ != "DisableInsightRules"@) by { assert("ListManagedInsightRules"@.len() != "DisableInsightRules"@.len()); }
    assert("ListManagedInsightRules"@ != "EnableAlarmActions"@) by { assert("ListManagedInsightRules"@.len() != "EnableAlarmActions"@.len()); }
    assert("ListManagedInsightRules"@ != "EnableInsightRules"@) by { assert("ListManagedInsightRules"@.len() != "EnableInsightRules"@.len()); }
    assert("ListManagedInsightRules"@ != "GetDashboard"@) by { assert("ListManagedInsightRules"@.len() != "GetDashboard"@.len()); }
    assert("ListManagedInsightRules"@ != "GetInsightRuleReport"@) by { assert("ListManagedInsightRules"@.len() != "GetInsightRuleReport"@.len()); }
    assert("ListManagedInsightRules"@ != "GetMetricData"@) by { assert("ListManagedInsightRules"@.len() != "GetMetricData"@.len()); }
    assert("ListManagedInsightRules"@ != "GetMetricStatistics"@) by { assert("ListManagedInsightRules"@.len() != "GetMetricStatistics"@.len()); }
    assert("ListManagedInsightRules"@ != "GetMetricStream"@) by { assert("ListManagedInsightRules"@.len() != "GetMetricStream"@.len()); }
    assert("ListManagedInsightRules"@ != "GetMetricWidgetImage"@) by { assert("ListManagedInsightRules"@.len() != "GetMetricWidgetImage"@.len()); }
    assert("ListManagedInsightRules"@ != "ListDashboards"@) by { assert("ListManagedInsightRules"@.len() != "ListDashboards"@.len()); }
    assert("ListMetricStreams"@ != "DeleteAlarms"@) by { assert("ListMetricStreams"@.len() != "DeleteAlarms"@.len()); }
    assert("ListMetricStreams"@ != "DeleteAnomalyDetector"@) by { assert("ListMetricStreams"@.len() != "DeleteAnomalyDetector"@.len()); }
    assert("ListMetricStreams"@ != "DeleteDashboards"@) by { assert("ListMetricStreams"@.len() != "DeleteDashboards"@.len()); }
    assert("ListMetricStreams"@ != "DeleteInsightRules"@) by { assert("ListMetricStreams"@.len() != "DeleteInsightRules"@.len()); }
    assert("ListMetricStreams"@ != "DeleteMetricStream"@) by { assert("ListMetricStreams"@.len() != "DeleteMetricStream"@.len()); }
    assert("ListMetricStreams"@ != "DescribeAlarmHistory"@) by { assert("ListMetricStreams"@.len() != "DescribeAlarmHistory"@.len()); }
    assert("ListMetricStreams"@ != "DescribeAlarms"@) by { assert("ListMetricStreams"@.len() != "DescribeAlarms"@.len()); }
    assert("ListMetricStreams"@ != "DescribeAlarmsForMetric"@) by { assert("ListMetricStreams"@.len() != "DescribeAlarmsForMetric"@.len()); }
    assert("ListMetricStreams"@ != "DescribeAnomalyDetectors"@) by { assert("ListMetricStreams"@.len() != "DescribeAnomalyDetectors"@.len()); }
    assert("ListMetricStreams"@ != "DescribeInsightRules"@) by { assert("ListMetricStreams"@.len() != "DescribeInsightRules"@.len()); }
    assert("ListMetricStreams"@ != "DisableAlarmActions"@) by { assert("ListMetricStreams"@.len() != "DisableAlarmActions"@.len()); }
    assert("ListMetricStreams"@ != "DisableInsightRules"@) by { assert("ListMetricStreams"@.len() != "DisableInsightRules"@.len()); }
    assert("ListMetricStreams"@ != "EnableAlarmActions"@) by { assert("ListMetricStreams"@.len() != "EnableAlarmActions"@.len()); }
    assert("ListMetricStreams"@ != "EnableInsightRules"@) by { assert("ListMetricStreams"@.len() != "EnableInsightRules"@.len()); }
    assert("ListMetricStreams"@ != "GetDashboard"@) by { assert("ListMetricStreams"@.len() != "GetDashboard"@.len()); }
    assert("ListMetricStreams"@ != "GetInsightRuleReport"@) by { assert("ListMetricStreams"@.len() != "GetInsightRuleReport"@.len()); }
    assert("ListMetricStreams"@ != "GetMetricData"@) by { assert("ListMetricStreams"@.len() != "GetMetricData"@.len()); }
    assert("ListMetricStreams"@ != "GetMetricStatistics"@) by { assert("ListMetricStreams"@.len() != "GetMetricStatistics"@.len()); }
    assert("ListMetricStreams"@ != "GetMetricStream"@) by { assert("ListMetricStreams"@.len() != "GetMetricStream"@.len()); }
    assert("ListMetricStreams"@ != "GetMetricWidgetImage"@) by { assert("ListMetricStreams"@.len() != "GetMetricWidgetImage"@.len()); }
    assert("ListMetricStreams"@ != "ListDashboards"@) by { assert("ListMetricStreams"@.len() != "ListDashboards"@.len()); }
    assert("ListMetricStreams"@ != "ListManagedInsightRules"@) by { assert("ListMetricStreams"@.len() != "ListManagedInsightRules"@.len()); }
    assert("ListMetrics"@ != "DeleteAlarms"@) by { assert("ListMetrics"@.len() != "DeleteAlarms"@.len()); }
    assert("ListMetrics"@ != "DeleteAnomalyDetector"@) by { assert("ListMetrics"@.len() != "DeleteAnomalyDetector"@.len()); }
    assert("ListMetrics"@ != "DeleteDashboards"@) by { assert("ListMetrics"@.len() != "DeleteDashboards"@.len()); }
    assert("ListMetrics"@ != "DeleteInsightRules"@) by { assert("ListMetrics"@.len() != "DeleteInsightRules"@.len()); }
    assert("ListMetrics"@ != "DeleteMetricStream"@) by { assert("ListMetrics"@.len() != "DeleteMetricStream"@.len()); }
    assert("ListMetrics"@ != "DescribeAlarmHistory"@) by { assert("ListMetrics"@.len() != "DescribeAlarmHistory"@.len()); }
    assert("ListMetrics"@ != "DescribeAlarms"@) by { assert("ListMetrics"@.len() != "DescribeAlarms"@.len()); }
    assert("ListMetrics"@ != "DescribeAlarmsForMetric"@) by { assert("ListMetrics"@.len() != "DescribeAlarmsForMetric"@.len()); }
    assert("ListMetrics"@ != "DescribeAnomalyDetectors"@) by { assert("ListMetrics"@.len() != "DescribeAnomalyDetectors"@.len()); }
    assert("ListMetrics"@ != "DescribeInsightRules"@) by { assert("ListMetrics"@.len() != "DescribeInsightRules"@.len()); }
    assert("ListMetrics"@ != "DisableAlarmActions"@) by { assert("ListMetrics"@.len() != "DisableAlarmActions"@.len()); }
    assert("ListMetrics"@ != "DisableInsightRules"@) by { assert("ListMetrics"@.len() != "DisableInsightRules"@.len()); }
    assert("ListMetrics"@ != "EnableAlarmActions"@) by { assert("ListMetrics"@.len() != "EnableAlarmActions"@.len()); }
    assert("ListMetrics"@ != "EnableInsightRules"@) by { assert("ListMetrics"@.len() != "EnableInsightRules"@.len()); }
    assert("ListMetrics"@ != "GetDashboard"@) by { assert("ListMetrics"@.len() != "GetDashboard"@.len()); }
    assert("ListMetrics"@ != "GetInsightRuleReport"@) by { assert("ListMetrics"@.len() != "GetInsightRuleReport"@.len()); }
    assert("ListMetrics"@ != "GetMetricData"@) by { assert("ListMetrics"@.len() != "GetMetricData"@.len()); }
    assert("ListMetrics"@ != "GetMetricStatistics"@) by { assert("ListMetrics"@.len() != "GetMetricStatistics"@.len()); }
    assert("ListMetrics"@ != "GetMetricStream"@) by { assert("ListMetrics"@.len() != "GetMetricStream"@.len()); }
    assert("ListMetrics"@ != "GetMetricWidgetImage"@) by { assert("ListMetrics"@.len() != "GetMetricWidgetImage"@.len()); }
    assert("ListMetrics"@ != "ListDashboards"@) by { assert("ListMetrics"@.len() != "ListDashboards"@.len()); }
    assert("ListMetrics"@ != "ListManagedInsightRules"@) by { assert("ListMetrics"@.len() != "ListManagedInsightRules"@.len()); }
    assert("ListMetrics"@ != "ListMetricStreams"@) by { assert("ListMetrics"@.len() != "ListMetricStreams"@.len()); }
    assert("ListTagsForResource"@ != "DeleteAlarms"@) by { assert("ListTagsForResource"@.len() != "DeleteAlarms"@.len()); }
    assert("ListTagsForResource"@ != "DeleteAnomalyDetector"@) by { assert("ListTagsForResource"@.len() != "DeleteAnomalyDetector"@.len()); }
    assert("ListTagsForResource"@ != "DeleteDashboards"@) by { assert("ListTagsForResource"@.len() != "DeleteDashboards"@.len()); }
    assert("ListTagsForResource"@ != "DeleteInsightRules"@) by { assert("ListTagsForResource"@.len() != "DeleteInsightRules"@.len()); }
    assert("ListTagsForResource"@ != "DeleteMetricStream"@) by { assert("ListTagsForResource"@.len() != "DeleteMetricStream"@.len()); }
    assert("ListTagsForResource"@ != "DescribeAlarmHistory"@) by { assert("ListTagsForResource"@.len() != "DescribeAlarmHistory"@.len()); }
    assert("ListTagsForResource"@ != "DescribeAlarms"@) by { assert("ListTagsForResource"@.len() != "DescribeAlarms"@.len()); }
    assert("ListTagsForResource"@ != "DescribeAlarmsForMetric"@) by { assert("ListTagsForResource"@.len() != "DescribeAlarmsForMetric"@.len()); }
    assert("ListTagsForResource"@ != "DescribeAnomalyDetectors"@) by { assert("ListTagsForResource"@.len() != "DescribeAnomalyDetectors"@.len()); }
    assert("ListTagsForResource"@ != "DescribeInsightRules"@) by { assert("ListTagsForResource"@.len() != "DescribeInsightRules"@.len()); }
    assert("ListTagsForResource"@ != "DisableAlarmActions"@) by { assert("ListTagsForResource"@[0] != "DisableAlarmActions"@[0]); }
    assert("ListTagsForResource"@ != "DisableInsightRules"@) by { assert("ListTagsForResource"@[0] != "DisableInsightRules"@[0]); }
    assert("ListTagsForResource"@ != "EnableAlarmActions"@) by { assert("ListTagsForResource"@.len() != "EnableAlarmActions"@.len()); }
    assert("ListTagsForResource"@ != "EnableInsightRules"@) by { assert("ListTagsForResource"@.len() != "EnableInsightRules"@.len()); }
    assert("ListTagsForResource"@ != "GetDashboard"@) by { assert("ListTagsForResource"@.len() != "GetDashboard"@.len()); }
    assert("ListTagsForResource"@ != "GetInsightRuleReport"@) by { assert("ListTagsForResource"@.len() != "GetInsightRuleReport"@.len()); }
    assert("ListTagsForResource"@ != "GetMetricData"@) by { assert("ListTagsForResource"@.len() != "GetMetricData"@.len()); }
    assert("ListTagsForResource"@ != "GetMetricStatistics"@) by { assert("ListTagsForResource"@[0] != "GetMetricStatistics"@[0]); }
    assert("ListTagsForResource"@ != "GetMetricStream"@) by { assert("ListTagsForResource"@.len() != "GetMetricStream"@.len()); }
    assert("ListTagsForResource"@ != "GetMetricWidgetImage"@) by { assert("ListTagsForResource"@.len() != "GetMetricWidgetImage"@.len()); }
    assert("ListTagsForResource"@ != "ListDashboards"@) by { assert("ListTagsForResource"@.len() != "ListDashboards"@.len()); }
    assert("ListTagsForResource"@ != "ListManagedInsightRules"@) by { assert("ListTagsForResource"@.len() != "ListManagedInsightRules"@.len()); }
    assert("ListTagsForResource"@ != "ListMetricStreams"@) by { assert("ListTagsForResource"@.len() != "ListMetricStreams"@.len()); }
    assert("ListTagsForResource"@ != "ListMetrics"@) by { assert("ListTagsForResource"@.len() != "ListMetrics"@.len()); }
    assert("PutAnomalyDetector"@ != "DeleteAlarms"@) by { assert("PutAnomalyDetector"@.len() != "DeleteAlarms"@.len()); }
    assert("PutAnomalyDetector"@ != "DeleteAnomalyDetector"@) by { assert("PutAnomalyDetector"@.len() != "DeleteAnomalyDetector"@.len()); }
    assert("PutAnomalyDetector"@ != "DeleteDashboards"@) by { assert("PutAnomalyDetector"@.len() != "DeleteDashboards"@.len()); }
    assert("PutAnomalyDetector"@ != "DeleteInsightRules"@) by { assert("PutAnomalyDetector"@[0] != "DeleteInsightRules"@[0]); }
    assert("PutAnomalyDetector"@ != "DeleteMetricStream"@) by { assert("PutAnomalyDetector"@[0] != "DeleteMetricStream"@[0]); }
    assert("PutAnomalyDetector"@ != "DescribeAlarmHistory"@) by { assert("PutAnomalyDetector"@.len() != "DescribeAlarmHistory"@.len()); }
    assert("PutAnomalyDetector"@ != "DescribeAlarms"@) by { assert("PutAnomalyDetector"@.len() != "DescribeAlarms"@.len()); }
    assert("PutAnomalyDetector"@ != "DescribeAlarmsForMetric"@) by { assert("PutAnomalyDetector"@.len() != "DescribeAlarmsForMetric"@.len()); }
    assert("PutAnomalyDetector"@ != "DescribeAnomalyDetectors"@) by { assert("PutAnomalyDetector"@.len() != "DescribeAnomalyDetectors"@.len()); }
    assert("PutAnomalyDetector"@ != "DescribeInsightRules"@) by { assert("PutAnomalyDetector"@.len() != "DescribeInsightRules"@.len()); }
    assert("PutAnomalyDetector"@ != "DisableAlarmActions"@) by { assert("PutAnomalyDetector"@.len() != "DisableAlarmActions"@.len()); }
    assert("PutAnomalyDetector"@ != "DisableInsightRules"@) by { assert("PutAnomalyDetector"@.len() != "DisableInsightRules"@.len()); }
    assert("PutAnomalyDetector"@ != "EnableAlarmActions"@) by { assert("PutAnomalyDetector"@[0] != "EnableAlarmActions"@[0]); }
    assert("PutAnomalyDetector"@ != "EnableInsightRules"@) by { assert("PutAnomalyDetector"@[0] != "EnableInsightRules"@[0]); }
    assert("PutAnomalyDetector"@ != "GetDashboard"@) by { assert("PutAnomalyDetector"@.len() != "GetDashboard"@.len()); }
    assert("PutAnomalyDetector"@ != "GetInsightRuleReport"@) by { assert("PutAnomalyDetector"@.len() != "GetInsightRuleReport"@.len()); }
    assert("PutAnomalyDetector"@ != "GetMetricData"@) by { assert("PutAnomalyDetector"@.len() != "GetMetricData"@.len()); }
    assert("PutAnomalyDetector"@ != "GetMetricStatistics"@) by { assert("PutAnomalyDetector"@.len() != "GetMetricStatistics"@.len()); }
    assert("PutAnomalyDetector"@ != "GetMetricStream"@) by { assert("PutAnomalyDetector"@.len() != "GetMetricStream"@.len()); }
    assert("PutAnomalyDetector"@ != "GetMetricWidgetImage"@) by { assert("PutAnomalyDetector"@.len() != "GetMetricWidgetImage"@.len()); }
    assert("PutAnomalyDetector"@ != "ListDashboards"@) by { assert("PutAnomalyDetector"@.len() != "ListDashboards"@.len()); }
    assert("PutAnomalyDetector"@ != "ListManagedInsightRules"@) by { assert("PutAnomalyDetector"@.len() != "ListManagedInsightRules"@.len()); }
    assert("PutAnomalyDetector"@ != "ListMetricStreams"@) by { assert("PutAnomalyDetector"@.len() != "ListMetricStreams"@.len()); }
    assert("PutAnomalyDetector"@ != "ListMetrics"@) by { assert("PutAnomalyDetector"@.len() != "ListMetrics"@.len()); }
    assert("PutAnomalyDetector"@ != "ListTagsForResource"@) by { assert("PutAnomalyDetector"@.len() != "ListTagsForResource"@.len()); }
    assert("PutCompositeAlarm"@ != "DeleteAlarms"@) by { assert("PutCompositeAlarm"@.len() != "DeleteAlarms"@.len()); }
    assert("PutCompositeAlarm"@ != "DeleteAnomalyDetector"@) by { assert("PutCompositeAlarm"@.len() != "DeleteAnomalyDetector"@.len()); }
    assert("PutCompositeAlarm"@ != "DeleteDashboards"@) by { assert("PutCompositeAlarm"@.len() != "DeleteDashboards"@.len()); }
    assert("PutCompositeAlarm"@ != "DeleteInsightRules"@) by { assert("PutCompositeAlarm"@.len() != "DeleteInsightRules"@.len()); }
    assert("PutCompositeAlarm"@ != "DeleteMetricStream"@) by { assert("PutCompositeAlarm"@.len() != "DeleteMetricStream"@.len()); }
    assert("PutCompositeAlarm"@ != "DescribeAlarmHistory"@) by { assert("PutCompositeAlarm"@.len() != "DescribeAlarmHistory"@.len()); }
    assert("PutCompositeAlarm"@ != "DescribeAlarms"@) by { assert("PutCompositeAlarm"@.len() != "DescribeAlarms"@.len()); }
    assert("PutCompositeAlarm"@ != "DescribeAlarmsForMetric"@) by { assert("PutCompositeAlarm"@.len() != "DescribeAlarmsForMetric"@.len()); }
    assert("PutCompositeAlarm"@ != "DescribeAnomalyDetectors"@) by { assert("PutCompositeAlarm"@.len() != "DescribeAnomalyDetectors"@.len()); }
    assert("PutCompositeAlarm"@ != "DescribeInsightRules"@) by { assert("PutCompositeAlarm"@.len() != "DescribeInsightRules"@.len()); }
    assert("PutCompositeAlarm"@ != "DisableAlarmActions"@) by { assert("PutCompositeAlarm"@.len() != "DisableAlarmActions"@.len()); }
    assert("PutCompositeAlarm"@ != "DisableInsightRules"@) by { assert("PutCompositeAlarm"@.len() != "DisableInsightRules"@.len()); }
    assert("PutCompositeAlarm"@ != "EnableAlarmActions"@) by { assert("PutCompositeAlarm"@.len() != "EnableAlarmActions"@.len()); }
    assert("PutCompositeAlarm"@ != "EnableInsightRules"@) by { assert("PutCompositeAlarm"@.len() != "EnableInsightRules"@.len()); }
    assert("PutCompositeAlarm"@ != "GetDashboard"@) by { assert("PutCompositeAlarm"@.len() != "GetDashboard"@.len()); }
    assert("PutCompositeAlarm"@ != "GetInsightRuleReport"@) by { assert("PutCompositeAlarm"@.len() != "GetInsightRuleReport"@.len()); }
    assert("PutCompositeAlarm"@ != "GetMetricData"@) by { assert("PutCompositeAlarm"@.len() != "GetMetricData"@.len()); }
    assert("PutCompositeAlarm"@ != "GetMetricStatistics"@) by { assert("PutCompositeAlarm"@.len() != "GetMetricStatistics"@.len()); }
    assert("PutCompositeAlarm"@ != "GetMetricStream"@) by { assert("PutCompositeAlarm"@.len() != "GetMetricStream"@.len()); }
    assert("PutCompositeAlarm"@ != "GetMetricWidgetImage"@) by { assert("PutCompositeAlarm"@.len() != "GetMetricWidgetImage"@.len()); }
    assert("PutCompositeAlarm"@ != "ListDashboards"@) by { assert("PutCompositeAlarm"@.len() != "ListDashboards"@.len()); }
    assert("PutCompositeAlarm"@ != "ListManagedInsightRules"@) by { assert("PutCompositeAlarm"@.len() != "ListManagedInsightRules"@.len()); }
    assert("PutCompositeAlarm"@ != "ListMetricStreams"@) by { assert("PutCompositeAlarm"@[0] != "ListMetricStreams"@[0]); }
    assert("PutCompositeAlarm"@ != "ListMetrics"@) by { assert("PutCompositeAlarm"@.len() != "ListMetrics"@.len()); }
    assert("PutCompositeAlarm"@ != "ListTagsForResource"@) by { assert("PutCompositeAlarm"@.len() != "ListTagsForResource"@.len()); }
    assert("PutCompositeAlarm"@ != "PutAnomalyDetector"@) by { assert("PutCompositeAlarm"@.len() != "PutAnomalyDetector"@.len()); }
    assert("PutDashboard"@ != "DeleteAlarms"@) by { assert("PutDashboard"@[0] != "DeleteAlarms"@[0]); }
    assert("PutDashboard"@ != "DeleteAnomalyDetector"@) by { assert("PutDashboard"@.len() != "DeleteAnomalyDetector"@.len()); }
    assert("PutDashboard"@ != "DeleteDashboards"@) by { assert("PutDashboard"@.len() != "DeleteDashboards"@.len()); }
    assert("PutDashboard"@ != "DeleteInsightRules"@) by { assert("PutDashboard"@.len() != "DeleteInsightRules"@.len()); }
    assert("PutDashboard"@ != "DeleteMetricStream"@) by { assert("PutDashboard"@.len() != "DeleteMetricStream"@.len()); }
    assert("PutDashboard"@ != "DescribeAlarmHistory"@) by { assert("PutDashboard"@.len() != "DescribeAlarmHistory"@.len()); }
    assert("PutDashboard"@ != "DescribeAlarms"@) by { assert("PutDashboard"@.len() != "DescribeAlarms"@.len()); }
    assert("PutDashboard"@ != "DescribeAlarmsForMetric"@) by { assert("PutDashboard"@.len() != "DescribeAlarmsForMetric"@.len()); }
    assert("PutDashboard"@ != "DescribeAnomalyDetectors"@) by { assert("PutDashboard"@.len() != "DescribeAnomalyDetectors"@.len()); }
    assert("PutDashboard"@ != "DescribeInsightRules"@) by { assert("PutDashboard"@.len() != "DescribeInsightRules"@.len()); }
    assert("PutDashboard"@ != "DisableAlarmActions"@) by { assert("PutDashboard"@.len() != "DisableAlarmActions"@.len()); }
    assert("PutDashboard"@ != "DisableInsightRules"@) by { assert("PutDashboard"@.len() != "DisableInsightRules"@.len()); }
    assert("PutDashboard"@ != "EnableAlarmActions"@) by { assert("PutDashboard"@.len() != "EnableAlarmActions"@.len()); }
    assert("PutDashboard"@ != "EnableInsightRules"@) by { assert("PutDashboard"@.len() != "EnableInsightRules"@.len()); }
    assert("PutDashboard"@ != "GetDashboard"@) by { assert("PutDashboard"@[0] != "GetDashboard"@[0]); }
    assert("PutDashboard"@ != "GetInsightRuleReport"@) by { assert("PutDashboard"@.len() != "GetInsightRuleReport"@.len()); }
    assert("PutDashboard"@ != "GetMetricData"@) by { assert("PutDashboard"@.len() != "GetMetricData"@.len()); }
    assert("PutDashboard"@ != "GetMetricStatistics"@) by { assert("PutDashboard"@.len() != "GetMetricStatistics"@.len()); }
    assert("PutDashboard"@ != "GetMetricStream"@) by { assert("PutDashboard"@.len() != "GetMetricStream"@.len()); }
    assert("PutDashboard"@ != "GetMetricWidgetImage"@) by { assert("PutDashboard"@.len() != "GetMetricWidgetImage"@.len()); }
    assert("PutDashboard"@ != "ListDashboards"@) by { assert("PutDashboard"@.len() != "ListDashboards"@.len()); }
    assert("PutDashboard"@ != "ListManagedInsightRules"@) by { assert("PutDashboard"@.len() != "ListManagedInsightRules"@.len()); }
    assert("PutDashboard"@ != "ListMetricStreams"@) by { assert("PutDashboard"@.len() != "ListMetricStreams"@.len()); }
    assert("PutDashboard"@ != "ListMetrics"@) by { assert("PutDashboard"@.len() != "ListMetrics"@.len()); }
    assert("PutDashboard"@ != "ListTagsForResource"@) by { assert("PutDashboard"@.len() != "ListTagsForResource"@.len()); }
    assert("PutDashboard"@ != "PutAnomalyDetector"@) by { assert("PutDashboard"@.len() != "PutAnomalyDetector"@.len()); }
    assert("PutDashboard"@ != "PutCompositeAlarm"@) by { assert("PutDashboard"@.len() != "PutCompositeAlarm"@.len()); }
    assert("PutInsightRule"@ != "DeleteAlarms"@) by { assert("PutInsightRule"@.len() != "DeleteAlarms"@.len()); }
    assert("PutInsightRule"@ != "DeleteAnomalyDetector"@) by { assert("PutInsightRule"@.len() != "DeleteAnomalyDetector"@.len()); }
    assert("PutInsightRule"@ != "DeleteDashboards"@) by { assert("PutInsightRule"@.len() != "DeleteDashboards"@.len()); }
    assert("PutInsightRule"@ != "DeleteInsightRules"@) by { assert("PutInsightRule"@.len() != "DeleteInsightRules"@.len()); }
    assert("PutInsightRule"@ != "DeleteMetricStream"@) by { assert("PutInsightRule"@.len() != "DeleteMetricStream"@.len()); }
    assert("PutInsightRule"@ != "DescribeAlarmHistory"@) by { assert("PutInsightRule"@.len() != "DescribeAlarmHistory"@.len()); }
    assert("PutInsightRule"@ != "DescribeAlarms"@) by { assert("PutInsightRule"@[0] != "DescribeAlarms"@[0]); }
    assert("PutInsightRule"@ != "DescribeAlarmsForMetric"@) by { assert("PutInsightRule"@.len() != "DescribeAlarmsForMetric"@.len()); }
    assert("PutInsightRule"@ != "DescribeAnomalyDetectors"@) by { assert("PutInsightRule"@.len() != "DescribeAnomalyDetectors"@.len()); }
    assert("PutInsightRule"@ != "DescribeInsightRules"@) by { assert("PutInsightRule"@.len() != "DescribeInsightRules"@.len()); }
    assert("PutInsightRule"@ != "DisableAlarmActions"@) by { assert("PutInsightRule"@.len() != "DisableAlarmActions"@.len()); }
    assert("PutInsightRule"@ != "DisableInsightRules"@) by { assert("PutInsightRule"@.len() != "DisableInsightRules"@.len()); }
    assert("PutInsightRule"@ != "EnableAlarmActions"@) by { assert("PutInsightRule"@.len() != "EnableAlarmActions"@.len()); }
    assert("PutInsightRule"@ != "EnableInsightRules"@) by { assert("PutInsightRule"@.len() != "EnableInsightRules"@.len()); }
    assert("PutInsightRule"@ != "GetDashboard"@) by { assert("PutInsightRule"@.len() != "GetDashboard"@.len()); }
    assert("PutInsightRule"@ != "GetInsightRuleReport"@) by { assert("PutInsightRule"@.len() != "GetInsightRuleReport"@.len()); }
    assert("PutInsightRule"@ != "GetMetricData"@) by { assert("PutInsightRule"@.len() != "GetMetricData"@.len()); }
    assert("PutInsightRule"@ != "GetMetricStatistics"@) by { assert("PutInsightRule"@.len() != "GetMetricStatistics"@.len()); }
    assert("PutInsightRule"@ != "GetMetricStream"@) by { assert("PutInsightRule"@.len() != "GetMetricStream"@.len()); }
    assert("PutInsightRule"@ != "GetMetricWidgetImage"@) by { assert("PutInsightRule"@.len() != "GetMetricWidgetImage"@.len()); }
    assert("PutInsightRule"@ != "ListDashboards"@) by { assert("PutInsightRule"@[0] != "ListDashboards"@[0]); }
    assert("PutInsightRule"@ != "ListManagedInsightRules"@) by { assert("PutInsightRule"@.len() != "ListManagedInsightRules"@.len()); }
    assert("PutInsightRule"@ != "ListMetricStreams"@) by { assert("PutInsightRule"@.len() != "ListMetricStreams"@.len()); }
    assert("PutInsightRule"@ != "ListMetrics"@) by { assert("PutInsightRule"@.len() != "ListMetrics"@.len()); }
    assert("PutInsightRule"@ != "ListTagsForResource"@) by { assert("PutInsightRule"@.len() != "ListTagsForResource"@.len()); }
    assert("PutInsightRule"@ != "PutAnomalyDetector"@) by { assert("PutInsightRule"@.len() != "PutAnomalyDetector"@.len()); }
    assert("PutInsightRule"@ != "PutCompositeAlarm"@) by { assert("PutInsightRule"@.len() != "PutCompositeAlarm"@.len()); }
    assert("PutInsightRule"@ != "PutDashboard"@) by { assert("PutInsightRule"@.len() != "PutDashboard"@.len()); }
    assert("PutManagedInsightRules"@ != "DeleteAlarms"@) by { assert("PutManagedInsightRules"@.len() != "DeleteAlarms"@.len()); }
    assert("PutManagedInsightRules"@ != "DeleteAnomalyDetector"@) by { assert("PutManagedInsightRules"@.len() != "DeleteAnomalyDetector"@.len()); }
    assert("PutManagedInsightRules"@ != "DeleteDashboards"@) by { assert("PutManagedInsightRules"@.len() != "DeleteDashboards"@.len()); }
    assert("PutManagedInsightRules"@ != "DeleteInsightRules"@) by { assert("PutManagedInsightRules"@.len() != "DeleteInsightRules"@.len()); }
    assert("PutManagedInsightRules"@ != "DeleteMetricStream"@) by { assert("PutManagedInsightRules"@.len() != "DeleteMetricStream"@.len()); }
    assert("PutManagedInsightRules"@ != "DescribeAlarmHistory"@) by { assert("PutManagedInsightRules"@.len() != "DescribeAlarmHistory"@.len()); }
    assert("PutManagedInsightRules"@ != "DescribeAlarms"@) by { assert("PutManagedInsightRules"@.len() != "DescribeAlarms"@.len()); }
    assert("PutManagedInsightRules"@ != "DescribeAlarmsForMetric"@) by { assert("PutManagedInsightRules"@.len() != "DescribeAlarmsForMetric"@.len()); }
    assert("PutManagedInsightRules"@ != "DescribeAnomalyDetectors"@) by { assert("PutManagedInsightRules"@.len() != "DescribeAnomalyDetectors"@.len()); }
    assert("PutManagedInsightRules"@ != "DescribeInsightRules"@) by { assert("PutManagedInsightRules"@.len() != "DescribeInsightRules"@.len()); }
    assert("PutManagedInsightRules"@ != "DisableAlarmActions"@) by { assert("PutManagedInsightRules"@.len() != "DisableAlarmActions"@.len()); }
    assert("PutManagedInsightRules"@ != "DisableInsightRules"@) by { assert("PutManagedInsightRules"@.len() != "DisableInsightRules"@.len()); }
    assert("PutManagedInsightRules"@ != "EnableAlarmActions"@) by { assert("PutManagedInsightRules"@.len() != "EnableAlarmActions"@.len()); }
    assert("PutManagedInsightRules"@ != "EnableInsightRules"@) by { assert("PutManagedInsightRules"@.len() != "EnableInsightRules"@.len()); }
    assert("PutManagedInsightRules"@ != "GetDashboard"@) by { assert("PutManagedInsightRules"@.len() != "GetDashboard"@.len()); }
    assert("PutManagedInsightRules"@ != "GetInsightRuleReport"@) by { assert("PutManagedInsightRules"@.len() != "GetInsightRuleReport"@.len()); }
    assert("PutManagedInsightRules"@ != "GetMetricData"@) by { assert("PutManagedInsightRules"@.len() != "GetMetricData"@.len()); }
    assert("PutManagedInsightRules"@ != "GetMetricStatistics"@) by { assert("PutManagedInsightRules"@.len() != "GetMetricStatistics"@.len()); }
    assert("PutManagedInsightRules"@ != "GetMetricStream"@) by { assert("PutManagedInsightRules"@.len() != "GetMetricStream"@.len()); }
    assert("PutManagedInsightRules"@ != "GetMetricWidgetImage"@) by { assert("PutManagedInsightRules"@.len() != "GetMetricWidgetImage"@.len()); }
    assert("PutManagedInsightRules"@ != "ListDashboards"@) by { assert("PutManagedInsightRules"@.len() != "ListDashboards"@.len()); }
    assert("PutManagedInsightRules"@ != "ListManagedInsightRules"@) by { assert("PutManagedInsightRules"@.len() != "ListManagedInsightRules"@.len()); }
    assert("PutManagedInsightRules"@ != "ListMetricStreams"@) by { assert("PutManagedInsightRules"@.len() != "ListMetricStreams"@.len()); }
    assert("PutManagedInsightRules"@ != "ListMetrics"@) by { assert("PutManagedInsightRules"@.len() != "ListMetrics"@.len()); }
    assert("PutManagedInsightRules"@ != "ListTagsForResource"@) by { assert("PutManagedInsightRules"@.len() != "ListTagsForResource"@.len()); }
    assert("PutManagedInsightRules"@ != "PutAnomalyDetector"@) by { assert("PutManagedInsightRules"@.len() != "PutAnomalyDetector"@.len()); }
    assert("PutManagedInsightRules"@ != "PutCompositeAlarm"@) by { assert("PutManagedInsightRules"@.len() != "PutCompositeAlarm"@.len()); }
    assert("PutManagedInsightRules"@ != "PutDashboard"@) by { assert("PutManagedInsightRules"@.len() != "PutDashboard"@.len()); }
    assert("PutManagedInsightRules"@ != "PutInsightRule"@) by { assert("PutManagedInsightRules"@.len() != "PutInsightRule"@.len()); }
    assert("PutMetricAlarm"@ != "DeleteAlarms"@) by { assert("PutMetricAlarm"@.len() != "DeleteAlarms"@.len()); }
    assert("PutMetricAlarm"@ != "DeleteAnomalyDetector"@) by { assert("PutMetricAlarm"@.len() != "DeleteAnomalyDetector"@.len()); }
    assert("PutMetricAlarm"@ != "DeleteDashboards"@) by { assert("PutMetricAlarm"@.len() != "DeleteDashboards"@.len()); }
    assert("PutMetricAlarm"@ != "DeleteInsightRules"@) by { assert("PutMetricAlarm"@.len() != "DeleteInsightRules"@.len()); }
    assert("PutMetricAlarm"@ != "DeleteMetricStream"@) by { assert("PutMetricAlarm"@.len() != "DeleteMetricStream"@.len()); }
    assert("PutMetricAlarm"@ != "DescribeAlarmHistory"@) by { assert("PutMetricAlarm"@.len() != "DescribeAlarmHistory"@.len()); }
    assert("PutMetricAlarm"@ != "DescribeAlarms"@) by { assert("PutMetricAlarm"@[0] != "DescribeAlarms"@[0]); }
    assert("PutMetricAlarm"@ != "DescribeAlarmsForMetric"@) by { assert("PutMetricAlarm"@.len() != "DescribeAlarmsForMetric"@.len()); }
    assert("PutMetricAlarm"@ != "DescribeAnomalyDetectors"@) by { assert("PutMetricAlarm"@.len() != "DescribeAnomalyDetectors"@.len()); }
    assert("PutMetricAlarm"@ != "DescribeInsightRules"@) by { assert("PutMetricAlarm"@.len() != "DescribeInsightRules"@.len()); }
    assert("PutMetricAlarm"@ != "DisableAlarmActions"@) by { assert("PutMetricAlarm"@.len() != "DisableAlarmActions"@.len()); }
    assert("PutMetricAlarm"@ != "DisableInsightRules"@) by { assert("PutMetricAlarm"@.len() != "DisableInsightRules"@.len()); }
    assert("PutMetricAlarm"@ != "EnableAlarmActions"@) by { assert("PutMetricAlarm"@.len() != "EnableAlarmActions"@.len()); }
    assert("PutMetricAlarm"@ != "EnableInsightRules"@) by { assert("PutMetricAlarm"@.len() != "EnableInsightRules"@.len()); }
    assert("PutMetricAlarm"@ != "GetDashboard"@) by { assert("PutMetricAlarm"@.len() != "GetDashboard"@.len()); }
    assert("PutMetricAlarm"@ != "GetInsightRuleReport"@) by { assert("PutMetricAlarm"@.len() != "GetInsightRuleReport"@.len()); }
    assert("PutMetricAlarm"@ != "GetMetricData"@) by { assert("PutMetricAlarm"@.len() != "GetMetricData"@.len()); }
    assert("PutMetricAlarm"@ != "GetMetricStatistics"@) by { assert("PutMetricAlarm"@.len() != "GetMetricStatistics"@.len()); }
    assert("PutMetricAlarm"@ != "GetMetricStream"@) by { assert("PutMetricAlarm"@.len() != "GetMetricStream"@.len()); }
    assert("PutMetricAlarm"@ != "GetMetricWidgetImage"@) by { assert("PutMetricAlarm"@.len() != "GetMetricWidgetImage"@.len()); }
    assert("PutMetricAlarm"@ != "ListDashboards"@) by { assert("PutMetricAlarm"@[0] != "ListDashboards"@[0]); }
    assert("PutMetricAlarm"@ != "ListManagedInsightRules"@) by { assert("PutMetricAlarm"@.len() != "ListManagedInsightRules"@.len()); }
    assert("PutMetricAlarm"@ != "ListMetricStreams"@) by { assert("PutMetricAlarm"@.len() != "ListMetricStreams"@.len()); }
    assert("PutMetricAlarm"@ != "ListMetrics"@) by { assert("PutMetricAlarm"@.len() != "ListMetrics"@.len()); }
    assert("PutMetricAlarm"@ != "ListTagsForResource"@) by { assert("PutMetricAlarm"@.len() != "ListTagsForResource"@.len()); }
    assert("PutMetricAlarm"@ != "PutAnomalyDetector"@) by { assert("PutMetricAlarm"@.len() != "PutAnomalyDetector"@.len()); }
    assert("PutMetricAlarm"@ != "PutCompositeAlarm"@) by { assert("PutMetricAlarm"@.len() != "PutCompositeAlarm"@.len()); }
    assert("PutMetricAlarm"@ != "PutDashboard"@) by { assert("PutMetricAlarm"@.len() != "PutDashboard"@.len()); }
    assert("PutMetricAlarm"@ != "PutInsightRule"@) by { assert("PutMetricAlarm"@[3] != "PutInsightRule"@[3]); }
    assert("PutMetricAlarm"@ != "PutManagedInsightRules"@) by { assert("PutMetricAlarm"@.len() != "PutManagedInsightRules"@.len()); }
    assert("PutMetricData"@ != "DeleteAlarms"@) by { assert("PutMetricData"@.len() != "DeleteAlarms"@.len()); }
    assert("PutMetricData"@ != "DeleteAnomalyDetector"@) by { assert("PutMetricData"@.len() != "DeleteAnomalyDetector"@.len()); }
    assert("PutMetricData"@ != "DeleteDashboards"@) by { assert("PutMetricData"@.len() != "DeleteDashboards"@.len()); }
    assert("PutMetricData"@ != "DeleteInsightRules"@) by { assert("PutMetricData"@.len() != "DeleteInsightRules"@.len()); }
    assert("PutMetricData"@ != "DeleteMetricStream"@) by { assert("PutMetricData"@.len() != "DeleteMetricStream"@.len()); }
    assert("PutMetricData"@ != "DescribeAlarmHistory"@) by { assert("PutMetricData"@.len() != "DescribeAlarmHistory"@.len()); }
    assert("PutMetricData"@ != "DescribeAlarms"@) by { assert("PutMetricData"@.len() != "DescribeAlarms"@.len()); }
    assert("PutMetricData"@ != "DescribeAlarmsForMetric"@) by { assert("PutMetricData"@.len() != "DescribeAlarmsForMetric"@.len()); }
    assert("PutMetricData"@ != "DescribeAnomalyDetectors"@) by { assert("PutMetricData"@.len() != "DescribeAnomalyDetectors"@.len()); }
    assert("PutMetricData"@ != "DescribeInsightRules"@) by { assert("PutMetricData"@.len() != "DescribeInsightRules"@.len()); }
    assert("PutMetricData"@ != "DisableAlarmActions"@) by { assert("PutMetricData"@.len() != "DisableAlarmActions"@.len()); }
    assert("PutMetricData"@ != "DisableInsightRules"@) by { assert("PutMetricData"@.len() != "DisableInsightRules"@.len()); }
    assert("PutMetricData"@ != "EnableAlarmActions"@) by { assert("PutMetricData"@.len() != "EnableAlarmActions"@.len()); }
    assert("PutMetricData"@ != "EnableInsightRules"@) by { assert("PutMetricData"@.len() != "EnableInsightRules"@.len()); }
    assert("PutMetricData"@ != "GetDashboard"@) by { assert("PutMetricData"@.len() != "GetDashboard"@.len()); }
    assert("PutMetricData"@ != "GetInsightRuleReport"@) by { assert("PutMetricData"@.len() != "GetInsightRuleReport"@.len()); }
    assert("PutMetricData"@ != "GetMetricData"@) by { assert("PutMetricData"@[0] != "GetMetricData"@[0]); }
    assert("PutMetricData"@ != "GetMetricStatistics"@) by { assert("PutMetricData"@.len() != "GetMetricStatistics"@.len()); }
    assert("PutMetricData"@ != "GetMetricStream"@) by { assert("PutMetricData"@.len() != "GetMetricStream"@.len()); }
    assert("PutMetricData"@ != "GetMetricWidgetImage"@) by { assert("PutMetricData"@.len() != "GetMetricWidgetImage"@.len()); }
    assert("PutMetricData"@ != "ListDashboards"@) by { assert("PutMetricData"@.len() != "ListDashboards"@.len()); }
    assert("PutMetricData"@ != "ListManagedInsightRules"@) by { assert("PutMetricData"@.len() != "ListManagedInsightRules"@.len()); }
    assert("PutMetricData"@ != "ListMetricStreams"@) by { assert("PutMetricData"@.len() != "ListMetricStreams"@.len()); }
    assert("PutMetricData"@ != "ListMetrics"@) by { assert("PutMetricData"@.len() != "ListMetrics"@.len()); }
    assert("PutMetricData"@ != "ListTagsForResource"@) by { assert("PutMetricData"@.len() != "ListTagsForResource"@.len()); }
    assert("PutMetricData"@ != "PutAnomalyDetector"@) by { assert("PutMetricData"@.len() != "PutAnomalyDetector"@.len()); }
    assert("PutMetricData"@ != "PutCompositeAlarm"@) by { assert("PutMetricData"@.len() != "PutCompositeAlarm"@.len()); }
    assert("PutMetricData"@ != "PutDashboard"@) by { assert("PutMetricData"@.len() != "PutDashboard"@.len()); }
    assert("PutMetricData"@ != "PutInsightRule"@) by { assert("PutMetricData"@.len() != "PutInsightRule"@.len()); }
    assert("PutMetricData"@ != "PutManagedInsightRules"@) by { assert("PutMetricData"@.len() != "PutManagedInsightRules"@.len()); }
    assert("PutMetricData"@ != "PutMetricAlarm"@) by { assert("PutMetricData"@.len() != "PutMetricAlarm"@.len()); }
    assert("PutMetricStream"@ != "DeleteAlarms"@) by { assert("PutMetricStream"@.len() != "DeleteAlarms"@.len()); }
    assert("PutMetricStream"@ != "DeleteAnomalyDetector"@) by { assert("PutMetricStream"@.len() != "DeleteAnomalyDetector"@.len()); }
    assert("PutMetricStream"@ != "DeleteDashboards"@) by { assert("PutMetricStream"@.len() != "DeleteDashboards"@.len()); }
    assert("PutMetricStream"@ != "DeleteInsightRules"@) by { assert("PutMetricStream"@.len() != "DeleteInsightRules"@.len()); }
    assert("PutMetricStream"@ != "DeleteMetricStream"@) by { assert("PutMetricStream"@.len() != "DeleteMetricStream"@.len()); }
    assert("PutMetricStream"@ != "DescribeAlarmHistory"@) by { assert("PutMetricStream"@.len() != "DescribeAlarmHistory"@.len()); }
    assert("PutMetricStream"@ != "DescribeAlarms"@) by { assert("PutMetricStream"@.len() != "DescribeAlarms"@.len()); }
    assert("PutMetricStream"@ != "DescribeAlarmsForMetric"@) by { assert("PutMetricStream"@.len() != "DescribeAlarmsForMetric"@.len()); }
    assert("PutMetricStream"@ != "DescribeAnomalyDetectors"@) by { assert("PutMetricStream"@.len() != "DescribeAnomalyDetectors"@.len()); }
    assert("PutMetricStream"@ != "DescribeInsightRules"@) by { assert("PutMetricStream"@.len() != "DescribeInsightRules"@.len()); }
    assert("PutMetricStream"@ != "DisableAlarmActions"@) by { assert("PutMetricStream"@.len() != "DisableAlarmActions"@.len()); }
    assert("PutMetricStream"@ != "DisableInsightRules"@) by { assert("PutMetricStream"@.len() != "DisableInsightRules"@.len()); }
    assert("PutMetricStream"@ != "EnableAlarmActions"@) by { assert("PutMetricStream"@.len() != "EnableAlarmActions"@.len()); }
    assert("PutMetricStream"@ != "EnableInsightRules"@) by { assert("PutMetricStream"@.len() != "EnableInsightRules"@.len()); }
    assert("PutMetricStream"@ != "GetDashboard"@) by { assert("PutMetricStream"@.len() != "GetDashboard"@.len()); }
    assert("PutMetricStream"@ != "GetInsightRuleReport"@) by { assert("PutMetricStream"@.len() != "GetInsightRuleReport"@.len()); }
    assert("PutMetricStream"@ != "GetMetricData"@) by { assert("PutMetricStream"@.len() != "GetMetricData"@.len()); }
    assert("PutMetricStream"@ != "GetMetricStatistics"@) by { assert("PutMetricStream"@.len() != "GetMetricStatistics"@.len()); }
    assert("PutMetricStream"@ != "GetMetricStream"@) by { assert("PutMetricStream"@[0] != "GetMetricStream"@[0]); }
    assert("PutMetricStream"@ != "GetMetricWidgetImage"@) by { assert("PutMetricStream"@.len() != "GetMetricWidgetImage"@.len()); }
    assert("PutMetricStream"@ != "ListDashboards"@) by { assert("PutMetricStream"@.len() != "ListDashboards"@.len()); }
    assert("PutMetricStream"@ != "ListManagedInsightRules"@) by { assert("PutMetricStream"@.len() != "ListManagedInsightRules"@.len()); }
    assert("PutMetricStream"@ != "ListMetricStreams"@) by { assert("PutMetricStream"@.len() != "ListMetricStreams"@.len()); }
    assert("PutMetricStream"@ != "ListMetrics"@) by { assert("PutMetricStream"@.len() != "ListMetrics"@.len()); }
    assert("PutMetricStream"@ != "ListTagsForResource"@) by { assert("PutMetricStream"@.len() != "ListTagsForResource"@.len()); }
    assert("PutMetricStream"@ != "PutAnomalyDetector"@) by { assert("PutMetricStream"@.len() != "PutAnomalyDetector"@.len()); }
    assert("PutMetricStream"@ != "PutCompositeAlarm"@) by { assert("PutMetricStream"@.len() != "PutCompositeAlarm"@.len()); }
    assert("PutMetricStream"@ != "PutDashboard"@) by { assert("PutMetricStream"@.len() != "PutDashboard"@.len()); }
    assert("PutMetricStream"@ != "PutInsightRule"@) by { assert("PutMetricStream"@.len() != "PutInsightRule"@.len()); }
    assert("PutMetricStream"@ != "PutManagedInsightRules"@) by { assert("PutMetricStream"@.len() != "PutManagedInsightRules"@.len()); }
    assert("PutMetricStream"@ != "PutMetricAlarm"@) by { assert("PutMetricStream"@.len() != "PutMetricAlarm"@.len()); }
    assert("PutMetricStream"@ != "PutMetricData"@) by { assert("PutMetricStream"@.len() != "PutMetricData"@.len()); }
    assert("SetAlarmState"@ != "DeleteAlarms"@) by { assert("SetAlarmState"@.len() != "DeleteAlarms"@.len()); }
    assert("SetAlarmState"@ != "DeleteAnomalyDetector"@) by { assert("SetAlarmState"@.len() != "DeleteAnomalyDetector"@.len()); }
    assert("SetAlarmState"@ != "DeleteDashboards"@) by { assert("SetAlarmState"@.len() != "DeleteDashboards"@.len()); }
    assert("SetAlarmState"@ != "DeleteInsightRules"@) by { assert("SetAlarmState"@.len() != "DeleteInsightRules"@.len()); }
    assert("SetAlarmState"@ != "DeleteMetricStream"@) by { assert("SetAlarmState"@.len() != "DeleteMetricStream"@.len()); }
    assert("SetAlarmState"@ != "DescribeAlarmHistory"@) by { assert("SetAlarmState"@.len() != "DescribeAlarmHistory"@.len()); }
    assert("SetAlarmState"@ != "DescribeAlarms"@) by { assert("SetAlarmState"@.len() != "DescribeAlarms"@.len()); }
    assert("SetAlarmState"@ != "DescribeAlarmsForMetric"@) by { assert("SetAlarmState"@.len() != "DescribeAlarmsForMetric"@.len()); }
    assert("SetAlarmState"@ != "DescribeAnomalyDetectors"@) by { assert("SetAlarmState"@.len() != "DescribeAnomalyDetectors"@.len()); }
    assert("SetAlarmState"@ != "DescribeInsightRules"@) by { assert("SetAlarmState"@.len() != "DescribeInsightRules"@.len()); }
    assert("SetAlarmState"@ != "DisableAlarmActions"@) by { assert("SetAlarmState"@.len() != "DisableAlarmActions"@.len()); }
    assert("SetAlarmState"@ != "DisableInsightRules"@) by { assert("SetAlarmState"@.len() != "DisableInsightRules"@.len()); }
    assert("SetAlarmState"@ != "EnableAlarmActions"@) by { assert("SetAlarmState"@.len() != "EnableAlarmActions"@.len()); }
    assert("SetAlarmState"@ != "EnableInsightRules"@) by { assert("SetAlarmState"@.len() != "EnableInsightRules"@.len()); }
    assert("SetAlarmState"@ != "GetDashboard"@) by { assert("SetAlarmState"@.len() != "GetDashboard"@.len()); }
    assert("SetAlarmState"@ != "GetInsightRuleReport"@) by { assert("SetAlarmState"@.len() != "GetInsightRuleReport"@.len()); }
    assert("SetAlarmState"@ != "GetMetricData"@) by { assert("SetAlarmState"@[0] != "GetMetricData"@[0]); }
    assert("SetAlarmState"@ != "GetMetricStatistics"@) by { assert("SetAlarmState"@.len() != "GetMetricStatistics"@.len()); }
    assert("SetAlarmState"@ != "GetMetricStream"@) by { assert("SetAlarmState"@.len() != "GetMetricStream"@.len()); }
    assert("SetAlarmState"@ != "GetMetricWidgetImage"@) by { assert("SetAlarmState"@.len() != "GetMetricWidgetImage"@.len()); }
    assert("SetAlarmState"@ != "ListDashboards"@) by { assert("SetAlarmState"@.len() != "ListDashboards"@.len()); }
    assert("SetAlarmState"@ != "ListManagedInsightRules"@) by { assert("SetAlarmState"@.len() != "ListManagedInsightRules"@.len()); }
    assert("SetAlarmState"@ != "ListMetricStreams"@) by { assert("SetAlarmState"@.len() != "ListMetricStreams"@.len()); }
    assert("SetAlarmState"@ != "ListMetrics"@) by { assert("SetAlarmState"@.len() != "ListMetrics"@.len()); }
    assert("SetAlarmState"@ != "ListTagsForResource"@) by { assert("SetAlarmState"@.len() != "ListTagsForResource"@.len()); }
    assert("SetAlarmState"@ != "PutAnomalyDetector"@) by { assert("SetAlarmState"@.len() != "PutAnomalyDetector"@.len()); }
    assert("SetAlarmState"@ != "PutCompositeAlarm"@) by { assert("SetAlarmState"@.len() != "PutCompositeAlarm"@.len()); }
    assert("SetAlarmState"@ != "PutDashboard"@) by { assert("SetAlarmState"@.len() != "PutDashboard"@.len()); }
    assert("SetAlarmState"@ != "PutInsightRule"@) by { assert("SetAlarmState"@.len() != "PutInsightRule"@.len()); }
    assert("SetAlarmState"@ != "PutManagedInsightRules"@) by { assert("SetAlarmState"@.len() != "PutManagedInsightRules"@.len()); }
    assert("SetAlarmState"@ != "PutMetricAlarm"@) by { assert("SetAlarmState"@.len() != "PutMetricAlarm"@.len()); }
    assert("SetAlarmState"@ != "PutMetricData"@) by { assert("SetAlarmState"@[0] != "PutMetricData"@[0]); }
    assert("SetAlarmState"@ != "PutMetricStream"@) by { assert("SetAlarmState"@.len() != "PutMetricStream"@.len()); }
    assert("StartMetricStreams"@ != "DeleteAlarms"@) by { assert("StartMetricStreams"@.len() != "DeleteAlarms"@.len()); }
    assert("StartMetricStreams"@ != "DeleteAnomalyDetector"@) by { assert("StartMetricStreams"@.len() != "DeleteAnomalyDetector"@.len()); }
    assert("StartMetricStreams"@ != "DeleteDashboards"@) by { assert("StartMetricStreams"@.len() != "DeleteDashboards"@.len()); }
    assert("StartMetricStreams"@ != "DeleteInsightRules"@) by { assert("StartMetricStreams"@[0] != "DeleteInsightRules"@[0]); }
    assert("StartMetricStreams"@ != "DeleteMetricStream"@) by { assert("StartMetricStreams"@[0] != "DeleteMetricStream"@[0]); }
    assert("StartMetricStreams"@ != "DescribeAlarmHistory"@) by { assert("StartMetricStreams"@.len() != "DescribeAlarmHistory"@.len()); }
    assert("StartMetricStreams"@ != "DescribeAlarms"@) by { assert("StartMetricStreams"@.len() != "DescribeAlarms"@.len()); }
    assert("StartMetricStreams"@ != "DescribeAlarmsForMetric"@) by { assert("StartMetricStreams"@.len() != "DescribeAlarmsForMetric"@.len()); }
    assert("StartMetricStreams"@ != "DescribeAnomalyDetectors"@) by { assert("StartMetricStreams"@.len() != "DescribeAnomalyDetectors"@.len()); }
    assert("StartMetricStreams"@ != "DescribeInsightRules"@) by { assert("StartMetricStreams"@.len() != "DescribeInsightRules"@.len()); }
    assert("StartMetricStreams"@ != "DisableAlarmActions"@) by { assert("StartMetricStreams"@.len() != "DisableAlarmActions"@.len()); }
    assert("StartMetricStreams"@ != "DisableInsightRules"@) by { assert("StartMetricStreams"@.len() != "DisableInsightRules"@.len()); }
    assert("StartMetricStreams"@ != "EnableAlarmActions"@) by { assert("StartMetricStreams"@[0] != "EnableAlarmActions"@[0]); }
    assert("StartMetricStreams"@ != "EnableInsightRules"@) by { assert("StartMetricStreams"@[0] != "EnableInsightRules"@[0]); }
    assert("StartMetricStreams"@ != "GetDashboard"@) by { assert("StartMetricStreams"@.len() != "GetDashboard"@.len()); }
    assert("StartMetricStreams"@ != "GetInsightRuleReport"@) by { assert("StartMetricStreams"@.len() != "GetInsightRuleReport"@.len()); }
    assert("StartMetricStreams"@ != "GetMetricData"@) by { assert("StartMetricStreams"@.len() != "GetMetricData"@.len()); }
    assert("StartMetricStreams"@ != "GetMetricStatistics"@) by { assert("StartMetricStreams"@.len() != "GetMetricStatistics"@.len()); }
    assert("StartMetricStreams"@ != "GetMetricStream"@) by { assert("StartMetricStreams"@.len() != "GetMetricStream"@.len()); }
    assert("StartMetricStreams"@ != "GetMetricWidgetImage"@) by { assert("StartMetricStreams"@.len() != "GetMetricWidgetImage"@.len()); }
    assert("StartMetricStreams"@ != "ListDashboards"@) by { assert("StartMetricStreams"@.len() != "ListDashboards"@.len()); }
    assert("StartMetricStreams"@ != "ListManagedInsightRules"@) by { assert("StartMetricStreams"@.len() != "ListManagedInsightRules"@.len()); }
    assert("StartMetricStreams"@ != "ListMetricStreams"@) by { assert("StartMetricStreams"@.len() != "ListMetricStreams"@.len()); }
    assert("StartMetricStreams"@ != "ListMetrics"@) by { assert("StartMetricStreams"@.len() != "ListMetrics"@.len()); }
    assert("StartMetricStreams"@ != "ListTagsForResource"@) by { assert("StartMetricStreams"@.len() != "ListTagsForResource"@.len()); }
    assert("StartMetricStreams"@ != "PutAnomalyDetector"@) by { assert("StartMetricStreams"@[0] != "PutAnomalyDetector"@[0]); }
    assert("StartMetricStreams"@ != "PutCompositeAlarm"@) by { assert("StartMetricStreams"@.len() != "PutCompositeAlarm"@.len()); }
    assert("StartMetricStreams"@ != "PutDashboard"@) by { assert("StartMetricStreams"@.len() != "PutDashboard"@.len()); }
    assert("StartMetricStreams"@ != "PutInsightRule"@) by { assert("StartMetricStreams"@.len() != "PutInsightRule"@.len()); }
    assert("StartMetricStreams"@ != "PutManagedInsightRules"@) by { assert("StartMetricStreams"@.len() != "PutManagedInsightRules"@.len()); }
    assert("StartMetricStreams"@ != "PutMetricAlarm"@) by { assert("StartMetricStreams"@.len() != "PutMetricAlarm"@.len()); }
    assert("StartMetricStreams"@ != "PutMetricData"@) by { assert("StartMetricStreams"@.len() != "PutMetricData"@.len()); }
    assert("StartMetricStreams"@ != "PutMetricStream"@) by { assert("StartMetricStreams"@.len() != "PutMetricStream"@.len()); }
    assert("StartMetricStreams"@ != "SetAlarmState"@) by { assert("StartMetricStreams"@.len() != "SetAlarmState"@.len()); }
    assert("StopMetricStreams"@ != "DeleteAlarms"@) by { assert("StopMetricStreams"@.len() != "DeleteAlarms"@.len()); }
    assert("StopMetricStreams"@ != "DeleteAnomalyDetector"@) by { assert("StopMetricStreams"@.len() != "DeleteAnomalyDetector"@.len()); }
    assert("StopMetricStreams"@ != "DeleteDashboards"@) by { assert("StopMetricStreams"@.len() != "DeleteDashboards"@.len()); }
    assert("StopMetricStreams"@ != "DeleteInsightRules"@) by { assert("StopMetricStreams"@.len() != "DeleteInsightRules"@.len()); }
    assert("StopMetricStreams"@ != "DeleteMetricStream"@) by { assert("StopMetricStreams"@.len() != "DeleteMetricStream"@.len()); }
    assert("StopMetricStreams"@ != "DescribeAlarmHistory"@) by { assert("StopMetricStreams"@.len() != "DescribeAlarmHistory"@.len()); }
    assert("StopMetricStreams"@ != "DescribeAlarms"@) by { assert("StopMetricStreams"@.len() != "DescribeAlarms"@.len()); }
    assert("StopMetricStreams"@ != "DescribeAlarmsForMetric"@) by { assert("StopMetricStreams"@.len() != "DescribeAlarmsForMetric"@.len()); }
    assert("StopMetricStreams"@ != "DescribeAnomalyDetectors"@) by { assert("StopMetricStreams"@.len() != "DescribeAnomalyDetectors"@.len()); }
    assert("StopMetricStreams"@ != "DescribeInsightRules"@) by { assert("StopMetricStreams"@.len() != "DescribeInsightRules"@.len()); }
    assert("StopMetricStreams"@ != "DisableAlarmActions"@) by { assert("StopMetricStreams"@.len() != "DisableAlarmActions"@.len()); }
    assert("StopMetricStreams"@ != "DisableInsightRules"@) by { assert("StopMetricStreams"@.len() != "DisableInsightRules"@.len()); }
    assert("StopMetricStreams"@ != "EnableAlarmActions"@) by { assert("StopMetricStreams"@.len() != "EnableAlarmActions"@.len()); }
    assert("StopMetricStreams"@ != "EnableInsightRules"@) by { assert("StopMetricStreams"@.len() != "EnableInsightRules"@.len()); }
    assert("StopMetricStreams"@ != "GetDashboard"@) by { assert("StopMetricStreams"@.len() != "GetDashboard"@.len()); }
    assert("StopMetricStreams"@ != "GetInsightRuleReport"@) by { assert("StopMetricStreams"@.len() != "GetInsightRuleReport"@.len()); }
    assert("StopMetricStreams"@ != "GetMetricData"@) by { assert("StopMetricStreams"@.len() != "GetMetricData"@.len()); }
    assert("StopMetricStreams"@ != "GetMetricStatistics"@) by { assert("StopMetricStreams"@.len() != "GetMetricStatistics"@.len()); }
    assert("StopMetricStreams"@ != "GetMetricStream"@) by { assert("StopMetricStreams"@.len() != "GetMetricStream"@.len()); }
    assert("StopMetricStreams"@ != "GetMetricWidgetImage"@) by { assert("StopMetricStreams"@.len() != "GetMetricWidgetImage"@.len()); }
    assert("StopMetricStreams"@ != "ListDashboards"@) by { assert("StopMetricStreams"@.len() != "ListDashboards"@.len()); }
    assert("StopMetricStreams"@ != "ListManagedInsightRules"@) by { assert("StopMetricStreams"@.len() != "ListManagedInsightRules"@.len()); }
    assert("StopMetricStreams"@ != "ListMetricStreams"@) by { assert("StopMetricStreams"@[0] != "ListMetricStreams"@[0]); }
    assert("StopMetricStreams"@ != "ListMetrics"@) by { assert("StopMetricStreams"@.len() != "ListMetrics"@.len()); }
    assert("StopMetricStreams"@ != "ListTagsForResource"@) by { assert("StopMetricStreams"@.len() != "ListTagsForResource"@.len()); }
    assert("StopMetricStreams"@ != "PutAnomalyDetector"@) by { assert("StopMetricStreams"@.len() != "PutAnomalyDetector"@.len()); }
    assert("StopMetricStreams"@ != "PutCompositeAlarm"@) by { assert("StopMetricStreams"@[0] != "PutCompositeAlarm"@[0]); }
    assert("StopMetricStreams"@ != "PutDashboard"@) by { assert("StopMetricStreams"@.len() != "PutDashboard"@.len()); }
    assert("StopMetricStreams"@ != "PutInsightRule"@) by { assert("StopMetricStreams"@.len() != "PutInsightRule"@.len()); }
    assert("StopMetricStreams"@ != "PutManagedInsightRules"@) by { assert("StopMetricStreams"@.len() != "PutManagedInsightRules"@.len()); }
    assert("StopMetricStreams"@ != "PutMetricAlarm"@) by { assert("StopMetricStreams"@.len() != "PutMetricAlarm"@.len()); }
    assert("StopMetricStreams"@ != "PutMetricData"@) by { assert("StopMetricStreams"@.len() != "PutMetricData"@.len()); }
    assert("StopMetricStreams"@ != "PutMetricStream"@) by { assert("StopMetricStreams"@.len() != "PutMetricStream"@.len()); }
    assert("StopMetricStreams"@ != "SetAlarmState"@) by { assert("StopMetricStreams"@.len() != "SetAlarmState"@.len()); }
    assert("StopMetricStreams"@ != "StartMetricStreams"@) by { assert("StopMetricStreams"@.len() != "StartMetricStreams"@.len()); }
    assert("TagResource"@ != "DeleteAlarms"@) by { assert("TagResource"@.len() != "DeleteAlarms"@.len()); }
    assert("TagResource"@ != "DeleteAnomalyDetector"@) by { assert("TagResource"@.len() != "DeleteAnomalyDetector"@.len()); }
    assert("TagResource"@ != "DeleteDashboards"@) by { assert("TagResource"@.len() != "DeleteDashboards"@.len()); }
    assert("TagResource"@ != "DeleteInsightRules"@) by { assert("TagResource"@.len() != "DeleteInsightRules"@.len()); }
    assert("TagResource"@ != "DeleteMetricStream"@) by { assert("TagResource"@.len() != "DeleteMetricStream"@.len()); }
    assert("TagResource"@ != "DescribeAlarmHistory"@) by { assert("TagResource"@.len() != "DescribeAlarmHistory"@.len()); }
    assert("TagResource"@ != "DescribeAlarms"@) by { assert("TagResource"@.len() != "DescribeAlarms"@.len()); }
    assert("TagResource"@ != "DescribeAlarmsForMetric"@) by { assert("TagResource"@.len() != "DescribeAlarmsForMetric"@.len()); }
    assert("TagResource"@ != "DescribeAnomalyDetectors"@) by { assert("TagResource"@.len() != "DescribeAnomalyDetectors"@.len()); }
    assert("TagResource"@ != "DescribeInsightRules"@) by { assert("TagResource"@.len() != "DescribeInsightRules"@.len()); }
    assert("TagResource"@ != "DisableAlarmActions"@) by { assert("TagResource"@.len() != "DisableAlarmActions"@.len()); }
    assert("TagResource"@ != "DisableInsightRules"@) by { assert("TagResource"@.len() != "DisableInsightRules"@.len()); }
    assert("TagResource"@ != "EnableAlarmActions"@) by { assert("TagResource"@.len() != "EnableAlarmActions"@.len()); }
    assert("TagResource"@ != "EnableInsightRules"@) by { assert("TagResource"@.len() != "EnableInsightRules"@.len()); }
    assert("TagResource"@ != "GetDashboard"@) by { assert("TagResource"@.len() != "GetDashboard"@.len()); }
    assert("TagResource"@ != "GetInsightRuleReport"@) by { assert("TagResource"@.len() != "GetInsightRuleReport"@.len()); }
    assert("TagResource"@ != "GetMetricData"@) by { assert("TagResource"@.len() != "GetMetricData"@.len()); }
    assert("TagResource"@ != "GetMetricStatistics"@) by { assert("TagResource"@.len() != "GetMetricStatistics"@.len()); }
    assert("TagResource"@ != "GetMetricStream"@) by { assert("TagResource"@.len() != "GetMetricStream"@.len()); }
    assert("TagResource"@ != "GetMetricWidgetImage"@) by { assert("TagResource"@.len() != "GetMetricWidgetImage"@.len()); }
    assert("TagResource"@ != "ListDashboards"@) by { assert("TagResource"@.len() != "ListDashboards"@.len()); }
    assert("TagResource"@ != "ListManagedInsightRules"@) by { assert("TagResource"@.len() != "ListManagedInsightRules"@.len()); }
    assert("TagResource"@ != "ListMetricStreams"@) by { assert("TagResource"@.len() != "ListMetricStreams"@.len()); }
    assert("TagResource"@ != "ListMetrics"@) by { assert("TagResource"@[0] != "ListMetrics"@[0]); }
    assert("TagResource"@ != "ListTagsForResource"@) by { assert("TagResource"@.len() != "ListTagsForResource"@.len()); }
    assert("TagResource"@ != "PutAnomalyDetector"@) by { assert("TagResource"@.len() != "PutAnomalyDetector"@.len()); }
    assert("TagResource"@ != "PutCompositeAlarm"@) by { assert("TagResource"@.len() != "PutCompositeAlarm"@.len()); }
    assert("TagResource"@ != "PutDashboard"@) by { assert("TagResource"@.len() != "PutDashboard"@.len()); }
    assert("TagResource"@ != "PutInsightRule"@) by { assert("TagResource"@.len() != "PutInsightRule"@.len()); }
    assert("TagResource"@ != "PutManagedInsightRules"@) by { assert("TagResource"@.len() != "PutManagedInsightRules"@.len()); }
    assert("TagResource"@ != "PutMetricAlarm"@) by { assert("TagResource"@.len() != "PutMetricAlarm"@.len()); }
    assert("TagResource"@ != "PutMetricData"@) by { assert("TagResource"@.len() != "PutMetricData"@.len()); }
    assert("TagResource"@ != "PutMetricStream"@) by { assert("TagResource"@.len() != "PutMetricStream"@.len()); }
    assert("TagResource"@ != "SetAlarmState"@) by { assert("TagResource"@.len() != "SetAlarmState"@.len()); }
    assert("TagResource"@ != "StartMetricStreams"@) by { assert("TagResource"@.len() != "StartMetricStreams"@.len()); }
    assert("TagResource"@ != "StopMetricStreams"@) by { assert("TagResource"@.len() != "StopMetricStreams"@.len()); }
    assert("UntagResource"@ != "DeleteAlarms"@) by { assert("UntagResource"@.len() != "DeleteAlarms"@.len()); }
    assert("UntagResource"@ != "DeleteAnomalyDetector"@) by { assert("UntagResource"@.len() != "DeleteAnomalyDetector"@.len()); }
    assert("UntagResource"@ != "DeleteDashboards"@) by { assert("UntagResource"@.len() != "DeleteDashboards"@.len()); }
    assert("UntagResource"@ != "DeleteInsightRules"@) by { assert("UntagResource"@.len() != "DeleteInsightRules"@.len()); }
    assert("UntagResource"@ != "DeleteMetricStream"@) by { assert("UntagResource"@.len() != "DeleteMetricStream"@.len()); }
    assert("UntagResource"@ != "DescribeAlarmHistory"@) by { assert("UntagResource"@.len() != "DescribeAlarmHistory"@.len()); }
    assert("UntagResource"@ != "DescribeAlarms"@) by { assert("UntagResource"@.len() != "DescribeAlarms"@.len()); }
    assert("UntagResource"@ != "DescribeAlarmsForMetric"@) by { assert("UntagResource"@.len() != "DescribeAlarmsForMetric"@.len()); }
    assert("UntagResource"@ != "DescribeAnomalyDetectors"@) by { assert("UntagResource"@.len() != "DescribeAnomalyDetectors"@.len()); }
    assert("UntagResource"@ != "DescribeInsightRules"@) by { assert("UntagResource"@.len() != "DescribeInsightRules"@.len()); }
    assert("UntagResource"@ != "DisableAlarmActions"@) by { assert("UntagResource"@.len() != "DisableAlarmActions"@.len()); }
    assert("UntagResource"@ != "DisableInsightRules"@) by { assert("UntagResource"@.len() != "DisableInsightRules"@.len()); }
    assert("UntagResource"@ != "EnableAlarmActions"@) by { assert("UntagResource"@.len() != "EnableAlarmActions"@.len()); }
    assert("UntagResource"@ != "EnableInsightRules"@) by { assert("UntagResource"@.len() != "EnableInsightRules"@.len()); }
    assert("UntagResource"@ != "GetDashboard"@) by { assert("UntagResource"@.len() != "GetDashboard"@.len()); }
    assert("UntagResource"@ != "GetInsightRuleReport"@) by { assert("UntagResource"@.len() != "GetInsightRuleReport"@.len()); }
    assert("UntagResource"@ != "GetMetricData"@) by { assert("UntagResource"@[0] != "GetMetricData"@[0]); }
    assert("UntagResource"@ != "GetMetricStatistics"@) by { assert("UntagResource"@.len() != "GetMetricStatistics"@.len()); }
    assert("UntagResource"@ != "GetMetricStream"@) by { assert("UntagResource"@.len() != "GetMetricStream"@.len()); }
    assert("UntagResource"@ != "GetMetricWidgetImage"@) by { assert("UntagResource"@.len() != "GetMetricWidgetImage"@.len()); }
    assert("UntagResource"@ != "ListDashboards"@) by { assert("UntagResource"@.len() != "ListDashboards"@.len()); }
    assert("UntagResource"@ != "ListManagedInsightRules"@) by { assert("UntagResource"@.len() != "ListManagedInsightRules"@.len()); }
    assert("UntagResource"@ != "ListMetricStreams"@) by { assert("UntagResource"@.len() != "ListMetricStreams"@.len()); }
    assert("UntagResource"@ != "ListMetrics"@) by { assert("UntagResource"@.len() != "ListMetrics"@.len()); }
    assert("UntagResource"@ != "ListTagsForResource"@) by { assert("UntagResource"@.len() != "ListTagsForResource"@.len()); }
    assert("UntagResource"@ != "PutAnomalyDetector"@) by { assert("UntagResource"@.len() != "PutAnomalyDetector"@.len()); }
    assert("UntagResource"@ != "PutCompositeAlarm"@) by { assert("UntagResource"@.len() != "PutCompositeAlarm"@.len()); }
    assert("UntagResource"@ != "PutDashboard"@) by { assert("UntagResource"@.len() != "PutDashboard"@.len()); }
    assert("UntagResource"@ != "PutInsightRule"@) by { assert("UntagResource"@.len() != "PutInsightRule"@.len()); }
    assert("UntagResource"@ != "PutManagedInsightRules"@) by { assert("UntagResource"@.len() != "PutManagedInsightRules"@.len()); }
    assert("UntagResource"@ != "PutMetricAlarm"@) by { assert("UntagResource"@.len() != "PutMetricAlarm"@.len()); }
    assert("UntagResource"@ != "PutMetricData"@) by { assert("UntagResource"@[0] != "PutMetricData"@[0]); }
    assert("UntagResource"@ != "PutMetricStream"@) by { assert("UntagResource"@.len() != "PutMetricStream"@.len()); }
    assert("UntagResource"@ != "SetAlarmState"@) by { assert("UntagResource"@[0] != "SetAlarmState"@[0]); }
    assert("UntagResource"@ != "StartMetricStreams"@) by { assert("UntagResource"@.len() != "StartMetricStreams"@.len()); }
    assert("UntagResource"@ != "StopMetricStreams"@) by { assert("UntagResource"@.len() != "StopMetricStreams"@.len()); }
    assert("UntagResource"@ != "TagResource"@) by { assert("UntagResource"@.len() != "TagResource"@.len()); }
}

/// A missing resource answers with HTTP status 404, an internal error 500,
/// and every other error 400.
pub proof fn lemma_cloudwatch_error_statuses()
    ensures
        CloudWatchErrorCode::MissingAction.status() == 400,
        CloudWatchErrorCode::InvalidAction.status() == 400,
        CloudWatchErrorCode::InvalidParameterValue.status() == 400,
        CloudWatchErrorCode::MissingParameter.status() == 400,
        CloudWatchErrorCode::ResourceNotFound.status() == 404,
        CloudWatchErrorCode::InternalServiceError.status() == 500,
{
}

/// Each CloudWatchErrorCode variant has its name (`MissingAction` for `MissingAction`, and so on).
pub proof fn lemma_cloudwatch_error_code_names()
    ensures
        CloudWatchErrorCode::MissingAction.name() == "MissingAction"@,
        CloudWatchErrorCode::InvalidAction.name() == "InvalidAction"@,
        CloudWatchErrorCode::InvalidParameterValue.name() == "InvalidParameterValue"@,
        CloudWatchErrorCode::MissingParameter.name() == "MissingParameter"@,
        CloudWatchErrorCode::ResourceNotFound.name() == "ResourceNotFound"@,
        CloudWatchErrorCode::InternalServiceError.name() == "InternalServiceError"@,
{
    reveal_strlit("MissingAction");
    reveal_strlit("InvalidAction");
    reveal_strlit("InvalidParameterValue");
    reveal_strlit("MissingParameter");
    reveal_strlit("ResourceNotFound");
    reveal_strlit("InternalServiceError");
}

} // verus!
