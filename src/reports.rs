//! The Reports API (version 2009-01-01): its parameter sets, the records of
//! its answers, and the calls.
use vstd::prelude::*;
use crate::document::{bool_field, child_named, child_text, i32_field, named_children, opt_child_text, opt_date_field, opt_str, positions, ref_view, valid_ref, wrapped_children, Document};
use crate::client::{control_pairs, signed_body, Client, MwsError, ProtocolError, SignedRequest};
use crate::datetime::UtcDateTime;
use crate::params::{date_ok, list_pairs, opt_strings_view, opt_view, optional_bool_pair, optional_date_pair, optional_int_pair, optional_list_pairs, optional_pair, pairs_view, push_list, push_optional, push_optional_bool, push_optional_date, push_optional_int, push_optional_list, push_param, strings_view};
use crate::document::{tree_of, xml_events_of, TreeState};
use crate::response::{answer_document, expect_root, report_checksum, request_id, request_id_of, ResponseEnvelope};
use crate::text::str_eq;

verus! {

/// A value of the service's `ReportProcessingStatus` enumeration; values that this library
/// does not know are kept as they came.
#[allow(non_camel_case_types)]
#[derive(Clone, Debug, PartialEq, Eq)]
pub enum ReportProcessingStatus {
    _SUBMITTED_,
    _IN_PROGRESS_,
    _CANCELLED_,
    _DONE_,
    _DONE_NO_DATA_,
    UnknownValue(String),
}

/// The wire name of a `ReportProcessingStatus`.
pub open spec fn report_processing_status_text(c: ReportProcessingStatus) -> Seq<char> {
    match c {
        ReportProcessingStatus::_SUBMITTED_ => "_SUBMITTED_"@,
        ReportProcessingStatus::_IN_PROGRESS_ => "_IN_PROGRESS_"@,
        ReportProcessingStatus::_CANCELLED_ => "_CANCELLED_"@,
        ReportProcessingStatus::_DONE_ => "_DONE_"@,
        ReportProcessingStatus::_DONE_NO_DATA_ => "_DONE_NO_DATA_"@,
        ReportProcessingStatus::UnknownValue(v) => v@,
    }
}

/// Whether `c` is what the wire name `s` reads as: the known value of that
/// name, else `UnknownValue(s)`.
pub open spec fn report_processing_status_is(c: ReportProcessingStatus, s: Seq<char>) -> bool {
    if s == "_SUBMITTED_"@ {
        c is _SUBMITTED_
    } else if s == "_IN_PROGRESS_"@ {
        c is _IN_PROGRESS_
    } else if s == "_CANCELLED_"@ {
        c is _CANCELLED_
    } else if s == "_DONE_"@ {
        c is _DONE_
    } else if s == "_DONE_NO_DATA_"@ {
        c is _DONE_NO_DATA_
    } else {
        c matches ReportProcessingStatus::UnknownValue(v) && v@ == s
    }
}

impl ReportProcessingStatus {
    /// The value that the wire name `s` stands for.
    pub fn from_wire(s: &str) -> (r: ReportProcessingStatus)
        ensures
            report_processing_status_is(r, s@),
    {
        if str_eq(s, "_SUBMITTED_") {
            ReportProcessingStatus::_SUBMITTED_
        } else if str_eq(s, "_IN_PROGRESS_") {
            ReportProcessingStatus::_IN_PROGRESS_
        } else if str_eq(s, "_CANCELLED_") {
            ReportProcessingStatus::_CANCELLED_
        } else if str_eq(s, "_DONE_") {
            ReportProcessingStatus::_DONE_
        } else if str_eq(s, "_DONE_NO_DATA_") {
            ReportProcessingStatus::_DONE_NO_DATA_
        } else {
            ReportProcessingStatus::UnknownValue(s.to_owned())
        }
    }

    /// The wire name of the value.
    pub fn to_string(&self) -> (r: String)
        ensures
            r@ == report_processing_status_text(*self),
    {
        match self {
            ReportProcessingStatus::_SUBMITTED_ => "_SUBMITTED_".to_owned(),
            ReportProcessingStatus::_IN_PROGRESS_ => "_IN_PROGRESS_".to_owned(),
            ReportProcessingStatus::_CANCELLED_ => "_CANCELLED_".to_owned(),
            ReportProcessingStatus::_DONE_ => "_DONE_".to_owned(),
            ReportProcessingStatus::_DONE_NO_DATA_ => "_DONE_NO_DATA_".to_owned(),
            ReportProcessingStatus::UnknownValue(v) => v.clone(),
        }
    }
}

impl Default for ReportProcessingStatus {
    /// An unknown value with empty text.
    fn default() -> (r: ReportProcessingStatus)
        ensures
            r matches ReportProcessingStatus::UnknownValue(v) && v@.len() == 0,
    {
        ReportProcessingStatus::UnknownValue(String::new())
    }
}

/// Reading a wire name and writing the value back gives the same text, also
/// for names that are not among the known values.
pub proof fn lemma_report_processing_status_round_trip(c: ReportProcessingStatus, s: Seq<char>)
    requires
        report_processing_status_is(c, s),
    ensures
        report_processing_status_text(c) == s,
{
}

/// The wire names of a list of processing states, in order.
pub fn report_processing_status_texts(v: &Vec<ReportProcessingStatus>) -> (r: Vec<String>)
    ensures
        strings_view(r@) == v@.map_values(|c: ReportProcessingStatus| report_processing_status_text(c)),
{
    let mut r: Vec<String> = Vec::new();
    let mut i: usize = 0;
    while i < v.len()
        invariant
            i <= v@.len(),
            r@.len() == i,
            forall|k: int| 0 <= k < i ==> (#[trigger] r@[k])@ == report_processing_status_text(v@[k]),
        decreases v.len() - i,
    {
        r.push(v[i].to_string());
        i = i + 1;
    }
    assert(strings_view(r@) =~= v@.map_values(|c: ReportProcessingStatus| report_processing_status_text(c)));
    r
}

/// A report that is ready to be downloaded.
#[allow(non_snake_case)]
#[derive(Clone, Debug, Default, PartialEq)]
pub struct ReportInfo {
    pub ReportId: String,
    pub ReportType: String,
    pub ReportRequestId: String,
    pub AvailableDate: Option<UtcDateTime>,
    pub Acknowledged: bool,
    pub AcknowledgedDate: Option<UtcDateTime>,
}

/// Whether every field of a `ReportInfo` read from element `n` has a value of its type.
pub open spec fn report_info_ok(d: TreeState, n: Option<int>) -> bool {
    &&& opt_date_field(d, n, "AvailableDate"@) is Some
    &&& bool_field(d, n, "Acknowledged"@) is Some
    &&& opt_date_field(d, n, "AcknowledgedDate"@) is Some
}

/// Whether `v` is the `ReportInfo` read from element `n`; an absent element gives
/// every field its default.
pub open spec fn report_info_is(v: ReportInfo, d: TreeState, n: Option<int>) -> bool {
    &&& v.ReportId@ == child_text(d, n, "ReportId"@)
    &&& v.ReportType@ == child_text(d, n, "ReportType"@)
    &&& v.ReportRequestId@ == child_text(d, n, "ReportRequestId"@)
    &&& opt_date_field(d, n, "AvailableDate"@) == Some(v.AvailableDate)
    &&& bool_field(d, n, "Acknowledged"@) == Some(v.Acknowledged)
    &&& opt_date_field(d, n, "AcknowledgedDate"@) == Some(v.AcknowledgedDate)
}

impl ReportInfo {
    /// Reads a `ReportInfo` from element `n`: each field from its child element
    /// (the last one of that name) or attribute, absent ones at their default.
    /// Fails when a number or boolean field holds text of another kind.
    pub fn from_xml(d: &Document, n: Option<usize>) -> (r: Result<ReportInfo, ProtocolError>)
        requires
            d.wf(),
            valid_ref(d, n),
        ensures
            r is Ok <==> report_info_ok(d.tree(), ref_view(n)),
            r matches Ok(v) ==> report_info_is(v, d.tree(), ref_view(n)),
    {
        let val0 = d.child_text(n, "ReportId");
        let val1 = d.child_text(n, "ReportType");
        let val2 = d.child_text(n, "ReportRequestId");
        let val3 = match d.opt_child_date(n, "AvailableDate") { Ok(x) => x, Err(e) => return Err(e) };
        let val4 = match d.child_bool(n, "Acknowledged") { Ok(x) => x, Err(e) => return Err(e) };
        let val5 = match d.opt_child_date(n, "AcknowledgedDate") { Ok(x) => x, Err(e) => return Err(e) };
        Ok(ReportInfo { ReportId: val0, ReportType: val1, ReportRequestId: val2, AvailableDate: val3, Acknowledged: val4, AcknowledgedDate: val5 })
    }
}

/// Whether every element of `items` holds a valid `ReportInfo`.
pub open spec fn report_info_all_ok(d: TreeState, items: Seq<int>) -> bool {
    forall|k: int| 0 <= k < items.len() ==> report_info_ok(d, Some(#[trigger] items[k]))
}

/// Whether `v` holds the `ReportInfo` of each element of `items`, in order.
pub open spec fn report_info_all_are(v: Seq<ReportInfo>, d: TreeState, items: Seq<int>) -> bool {
    &&& v.len() == items.len()
    &&& forall|k: int| 0 <= k < items.len() ==> report_info_is(#[trigger] v[k], d, Some(items[k]))
}

/// Reads a `ReportInfo` from each element of `items`, in order.
pub fn report_info_list_from_xml(d: &Document, items: &Vec<usize>) -> (r: Result<Vec<ReportInfo>, ProtocolError>)
    requires
        d.wf(),
        forall|k: int| 0 <= k < items@.len() ==> (#[trigger] items@[k] as int) < d.len(),
    ensures
        r is Ok <==> report_info_all_ok(d.tree(), positions(items@)),
        r matches Ok(v) ==> report_info_all_are(v@, d.tree(), positions(items@)),
{
    let mut out: Vec<ReportInfo> = Vec::new();
    let mut k: usize = 0;
    while k < items.len()
        invariant
            d.wf(),
            forall|j: int| 0 <= j < items@.len() ==> (#[trigger] items@[j] as int) < d.len(),
            k <= items@.len(),
            out@.len() == k,
            forall|j: int| 0 <= j < k ==> report_info_ok(d.tree(), Some(#[trigger] positions(items@)[j])),
            forall|j: int| 0 <= j < k ==> report_info_is(#[trigger] out@[j], d.tree(), Some(positions(items@)[j])),
        decreases items.len() - k,
    {
        match ReportInfo::from_xml(d, Some(items[k])) {
            Ok(x) => out.push(x),
            Err(e) => {
                assert(!report_info_ok(d.tree(), Some(positions(items@)[k as int])));
                return Err(e);
            },
        }
        k = k + 1;
    }
    Ok(out)
}

/// A request for a report and how far it got.
#[allow(non_snake_case)]
#[derive(Clone, Debug, Default, PartialEq)]
pub struct ReportRequestInfo {
    pub ReportRequestId: String,
    pub ReportType: String,
    pub StartDate: Option<UtcDateTime>,
    pub EndDate: Option<UtcDateTime>,
    pub Scheduled: bool,
    pub SubmittedDate: Option<UtcDateTime>,
    pub ReportProcessingStatus: ReportProcessingStatus,
    pub GeneratedReportId: Option<String>,
    pub StartedProcessingDate: Option<UtcDateTime>,
    pub CompletedDate: Option<UtcDateTime>,
}

/// Whether every field of a `ReportRequestInfo` read from element `n` has a value of its type.
pub open spec fn report_request_info_ok(d: TreeState, n: Option<int>) -> bool {
    &&& opt_date_field(d, n, "StartDate"@) is Some
    &&& opt_date_field(d, n, "EndDate"@) is Some
    &&& bool_field(d, n, "Scheduled"@) is Some
    &&& opt_date_field(d, n, "SubmittedDate"@) is Some
    &&& opt_date_field(d, n, "StartedProcessingDate"@) is Some
    &&& opt_date_field(d, n, "CompletedDate"@) is Some
}

/// Whether `v` is the `ReportRequestInfo` read from element `n`; an absent element gives
/// every field its default.
pub open spec fn report_request_info_is(v: ReportRequestInfo, d: TreeState, n: Option<int>) -> bool {
    &&& v.ReportRequestId@ == child_text(d, n, "ReportRequestId"@)
    &&& v.ReportType@ == child_text(d, n, "ReportType"@)
    &&& opt_date_field(d, n, "StartDate"@) == Some(v.StartDate)
    &&& opt_date_field(d, n, "EndDate"@) == Some(v.EndDate)
    &&& bool_field(d, n, "Scheduled"@) == Some(v.Scheduled)
    &&& opt_date_field(d, n, "SubmittedDate"@) == Some(v.SubmittedDate)
    &&& report_processing_status_is(v.ReportProcessingStatus, child_text(d, n, "ReportProcessingStatus"@))
    &&& opt_str(v.GeneratedReportId) == opt_child_text(d, n, "GeneratedReportId"@)
    &&& opt_date_field(d, n, "StartedProcessingDate"@) == Some(v.StartedProcessingDate)
    &&& opt_date_field(d, n, "CompletedDate"@) == Some(v.CompletedDate)
}

impl ReportRequestInfo {
    /// Reads a `ReportRequestInfo` from element `n`: each field from its child element
    /// (the last one of that name) or attribute, absent ones at their default.
    /// Fails when a number or boolean field holds text of another kind.
    pub fn from_xml(d: &Document, n: Option<usize>) -> (r: Result<ReportRequestInfo, ProtocolError>)
        requires
            d.wf(),
            valid_ref(d, n),
        ensures
            r is Ok <==> report_request_info_ok(d.tree(), ref_view(n)),
            r matches Ok(v) ==> report_request_info_is(v, d.tree(), ref_view(n)),
    {
        let val0 = d.child_text(n, "ReportRequestId");
        let val1 = d.child_text(n, "ReportType");
        let val2 = match d.opt_child_date(n, "StartDate") { Ok(x) => x, Err(e) => return Err(e) };
        let val3 = match d.opt_child_date(n, "EndDate") { Ok(x) => x, Err(e) => return Err(e) };
        let val4 = match d.child_bool(n, "Scheduled") { Ok(x) => x, Err(e) => return Err(e) };
        let val5 = match d.opt_child_date(n, "SubmittedDate") { Ok(x) => x, Err(e) => return Err(e) };
        let t6 = d.child_text(n, "ReportProcessingStatus");
        let val6 = ReportProcessingStatus::from_wire(t6.as_str());
        let val7 = d.opt_child_text(n, "GeneratedReportId");
        let val8 = match d.opt_child_date(n, "StartedProcessingDate") { Ok(x) => x, Err(e) => return Err(e) };
        let val9 = match d.opt_child_date(n, "CompletedDate") { Ok(x) => x, Err(e) => return Err(e) };
        Ok(ReportRequestInfo { ReportRequestId: val0, ReportType: val1, StartDate: val2, EndDate: val3, Scheduled: val4, SubmittedDate: val5, ReportProcessingStatus: val6, GeneratedReportId: val7, StartedProcessingDate: val8, CompletedDate: val9 })
    }
}

/// Whether every element of `items` holds a valid `ReportRequestInfo`.
pub open spec fn report_request_info_all_ok(d: TreeState, items: Seq<int>) -> bool {
    forall|k: int| 0 <= k < items.len() ==> report_request_info_ok(d, Some(#[trigger] items[k]))
}

/// Whether `v` holds the `ReportRequestInfo` of each element of `items`, in order.
pub open spec fn report_request_info_all_are(v: Seq<ReportRequestInfo>, d: TreeState, items: Seq<int>) -> bool {
    &&& v.len() == items.len()
    &&& forall|k: int| 0 <= k < items.len() ==> report_request_info_is(#[trigger] v[k], d, Some(items[k]))
}

/// Reads a `ReportRequestInfo` from each element of `items`, in order.
pub fn report_request_info_list_from_xml(d: &Document, items: &Vec<usize>) -> (r: Result<Vec<ReportRequestInfo>, ProtocolError>)
    requires
        d.wf(),
        forall|k: int| 0 <= k < items@.len() ==> (#[trigger] items@[k] as int) < d.len(),
    ensures
        r is Ok <==> report_request_info_all_ok(d.tree(), positions(items@)),
        r matches Ok(v) ==> report_request_info_all_are(v@, d.tree(), positions(items@)),
{
    let mut out: Vec<ReportRequestInfo> = Vec::new();
    let mut k: usize = 0;
    while k < items.len()
        invariant
            d.wf(),
            forall|j: int| 0 <= j < items@.len() ==> (#[trigger] items@[j] as int) < d.len(),
            k <= items@.len(),
            out@.len() == k,
            forall|j: int| 0 <= j < k ==> report_request_info_ok(d.tree(), Some(#[trigger] positions(items@)[j])),
            forall|j: int| 0 <= j < k ==> report_request_info_is(#[trigger] out@[j], d.tree(), Some(positions(items@)[j])),
        decreases items.len() - k,
    {
        match ReportRequestInfo::from_xml(d, Some(items[k])) {
            Ok(x) => out.push(x),
            Err(e) => {
                assert(!report_request_info_ok(d.tree(), Some(positions(items@)[k as int])));
                return Err(e);
            },
        }
        k = k + 1;
    }
    Ok(out)
}

/// A schedule on which a report is requested.
#[allow(non_snake_case)]
#[derive(Clone, Debug, Default, PartialEq)]
pub struct ReportSchedule {
    pub ReportType: String,
    pub Schedule: String,
    pub ScheduledDate: Option<UtcDateTime>,
}

/// Whether every field of a `ReportSchedule` read from element `n` has a value of its type.
pub open spec fn report_schedule_ok(d: TreeState, n: Option<int>) -> bool {
    &&& opt_date_field(d, n, "ScheduledDate"@) is Some
}

/// Whether `v` is the `ReportSchedule` read from element `n`; an absent element gives
/// every field its default.
pub open spec fn report_schedule_is(v: ReportSchedule, d: TreeState, n: Option<int>) -> bool {
    &&& v.ReportType@ == child_text(d, n, "ReportType"@)
    &&& v.Schedule@ == child_text(d, n, "Schedule"@)
    &&& opt_date_field(d, n, "ScheduledDate"@) == Some(v.ScheduledDate)
}

impl ReportSchedule {
    /// Reads a `ReportSchedule` from element `n`: each field from its child element
    /// (the last one of that name) or attribute, absent ones at their default.
    /// Fails when a number or boolean field holds text of another kind.
    pub fn from_xml(d: &Document, n: Option<usize>) -> (r: Result<ReportSchedule, ProtocolError>)
        requires
            d.wf(),
            valid_ref(d, n),
        ensures
            r is Ok <==> report_schedule_ok(d.tree(), ref_view(n)),
            r matches Ok(v) ==> report_schedule_is(v, d.tree(), ref_view(n)),
    {
        let val0 = d.child_text(n, "ReportType");
        let val1 = d.child_text(n, "Schedule");
        let val2 = match d.opt_child_date(n, "ScheduledDate") { Ok(x) => x, Err(e) => return Err(e) };
        Ok(ReportSchedule { ReportType: val0, Schedule: val1, ScheduledDate: val2 })
    }
}

/// Whether every element of `items` holds a valid `ReportSchedule`.
pub open spec fn report_schedule_all_ok(d: TreeState, items: Seq<int>) -> bool {
    forall|k: int| 0 <= k < items.len() ==> report_schedule_ok(d, Some(#[trigger] items[k]))
}

/// Whether `v` holds the `ReportSchedule` of each element of `items`, in order.
pub open spec fn report_schedule_all_are(v: Seq<ReportSchedule>, d: TreeState, items: Seq<int>) -> bool {
    &&& v.len() == items.len()
    &&& forall|k: int| 0 <= k < items.len() ==> report_schedule_is(#[trigger] v[k], d, Some(items[k]))
}

/// Reads a `ReportSchedule` from each element of `items`, in order.
pub fn report_schedule_list_from_xml(d: &Document, items: &Vec<usize>) -> (r: Result<Vec<ReportSchedule>, ProtocolError>)
    requires
        d.wf(),
        forall|k: int| 0 <= k < items@.len() ==> (#[trigger] items@[k] as int) < d.len(),
    ensures
        r is Ok <==> report_schedule_all_ok(d.tree(), positions(items@)),
        r matches Ok(v) ==> report_schedule_all_are(v@, d.tree(), positions(items@)),
{
    let mut out: Vec<ReportSchedule> = Vec::new();
    let mut k: usize = 0;
    while k < items.len()
        invariant
            d.wf(),
            forall|j: int| 0 <= j < items@.len() ==> (#[trigger] items@[j] as int) < d.len(),
            k <= items@.len(),
            out@.len() == k,
            forall|j: int| 0 <= j < k ==> report_schedule_ok(d.tree(), Some(#[trigger] positions(items@)[j])),
            forall|j: int| 0 <= j < k ==> report_schedule_is(#[trigger] out@[j], d.tree(), Some(positions(items@)[j])),
        decreases items.len() - k,
    {
        match ReportSchedule::from_xml(d, Some(items[k])) {
            Ok(x) => out.push(x),
            Err(e) => {
                assert(!report_schedule_ok(d.tree(), Some(positions(items@)[k as int])));
                return Err(e);
            },
        }
        k = k + 1;
    }
    Ok(out)
}

/// The payload of `GetReportList` and `GetReportListByNextToken`.
#[allow(non_snake_case)]
#[derive(Clone, Debug, Default, PartialEq)]
pub struct GetReportListResponse {
    pub ReportInfo: Vec<ReportInfo>,
    pub NextToken: Option<String>,
    pub HasNext: bool,
}

/// Whether every field of a `GetReportListResponse` read from element `n` has a value of its type.
pub open spec fn get_report_list_response_ok(d: TreeState, n: Option<int>) -> bool {
    &&& report_info_all_ok(d, named_children(d, n, "ReportInfo"@))
    &&& bool_field(d, n, "HasNext"@) is Some
}

/// Whether `v` is the `GetReportListResponse` read from element `n`; an absent element gives
/// every field its default.
pub open spec fn get_report_list_response_is(v: GetReportListResponse, d: TreeState, n: Option<int>) -> bool {
    &&& report_info_all_are(v.ReportInfo@, d, named_children(d, n, "ReportInfo"@))
    &&& opt_str(v.NextToken) == opt_child_text(d, n, "NextToken"@)
    &&& bool_field(d, n, "HasNext"@) == Some(v.HasNext)
}

impl GetReportListResponse {
    /// Reads a `GetReportListResponse` from element `n`: each field from its child element
    /// (the last one of that name) or attribute, absent ones at their default.
    /// Fails when a number or boolean field holds text of another kind.
    pub fn from_xml(d: &Document, n: Option<usize>) -> (r: Result<GetReportListResponse, ProtocolError>)
        requires
            d.wf(),
            valid_ref(d, n),
        ensures
            r is Ok <==> get_report_list_response_ok(d.tree(), ref_view(n)),
            r matches Ok(v) ==> get_report_list_response_is(v, d.tree(), ref_view(n)),
    {
        let c0 = d.children_named(n, "ReportInfo");
        let val0 = match report_info_list_from_xml(d, &c0) { Ok(x) => x, Err(e) => return Err(e) };
        let val1 = d.opt_child_text(n, "NextToken");
        let val2 = match d.child_bool(n, "HasNext") { Ok(x) => x, Err(e) => return Err(e) };
        Ok(GetReportListResponse { ReportInfo: val0, NextToken: val1, HasNext: val2 })
    }
}

/// The payload of `GetReportRequestList` and `GetReportRequestListByNextToken`.
#[allow(non_snake_case)]
#[derive(Clone, Debug, Default, PartialEq)]
pub struct GetReportRequestListResponse {
    pub ReportRequestInfo: Vec<ReportRequestInfo>,
    pub NextToken: Option<String>,
    pub HasNext: bool,
}

/// Whether every field of a `GetReportRequestListResponse` read from element `n` has a value of its type.
pub open spec fn get_report_request_list_response_ok(d: TreeState, n: Option<int>) -> bool {
    &&& report_request_info_all_ok(d, named_children(d, n, "ReportRequestInfo"@))
    &&& bool_field(d, n, "HasNext"@) is Some
}

/// Whether `v` is the `GetReportRequestListResponse` read from element `n`; an absent element gives
/// every field its default.
pub open spec fn get_report_request_list_response_is(v: GetReportRequestListResponse, d: TreeState, n: Option<int>) -> bool {
    &&& report_request_info_all_are(v.ReportRequestInfo@, d, named_children(d, n, "ReportRequestInfo"@))
    &&& opt_str(v.NextToken) == opt_child_text(d, n, "NextToken"@)
    &&& bool_field(d, n, "HasNext"@) == Some(v.HasNext)
}

impl GetReportRequestListResponse {
    /// Reads a `GetReportRequestListResponse` from element `n`: each field from its child element
    /// (the last one of that name) or attribute, absent ones at their default.
    /// Fails when a number or boolean field holds text of another kind.
    pub fn from_xml(d: &Document, n: Option<usize>) -> (r: Result<GetReportRequestListResponse, ProtocolError>)
        requires
            d.wf(),
            valid_ref(d, n),
        ensures
            r is Ok <==> get_report_request_list_response_ok(d.tree(), ref_view(n)),
            r matches Ok(v) ==> get_report_request_list_response_is(v, d.tree(), ref_view(n)),
    {
        let c0 = d.children_named(n, "ReportRequestInfo");
        let val0 = match report_request_info_list_from_xml(d, &c0) { Ok(x) => x, Err(e) => return Err(e) };
        let val1 = d.opt_child_text(n, "NextToken");
        let val2 = match d.child_bool(n, "HasNext") { Ok(x) => x, Err(e) => return Err(e) };
        Ok(GetReportRequestListResponse { ReportRequestInfo: val0, NextToken: val1, HasNext: val2 })
    }
}

/// The payload of `RequestReport`.
#[allow(non_snake_case)]
#[derive(Clone, Debug, Default, PartialEq)]
pub struct RequestReportResponse {
    pub ReportRequestInfo: ReportRequestInfo,
}

/// Whether every field of a `RequestReportResponse` read from element `n` has a value of its type.
pub open spec fn request_report_response_ok(d: TreeState, n: Option<int>) -> bool {
    &&& report_request_info_ok(d, child_named(d, n, "ReportRequestInfo"@))
}

/// Whether `v` is the `RequestReportResponse` read from element `n`; an absent element gives
/// every field its default.
pub open spec fn request_report_response_is(v: RequestReportResponse, d: TreeState, n: Option<int>) -> bool {
    &&& report_request_info_is(v.ReportRequestInfo, d, child_named(d, n, "ReportRequestInfo"@))
}

impl RequestReportResponse {
    /// Reads a `RequestReportResponse` from element `n`: each field from its child element
    /// (the last one of that name) or attribute, absent ones at their default.
    /// Fails when a number or boolean field holds text of another kind.
    pub fn from_xml(d: &Document, n: Option<usize>) -> (r: Result<RequestReportResponse, ProtocolError>)
        requires
            d.wf(),
            valid_ref(d, n),
        ensures
            r is Ok <==> request_report_response_ok(d.tree(), ref_view(n)),
            r matches Ok(v) ==> request_report_response_is(v, d.tree(), ref_view(n)),
    {
        let val0 = match ReportRequestInfo::from_xml(d, d.child(n, "ReportRequestInfo")) { Ok(x) => x, Err(e) => return Err(e) };
        Ok(RequestReportResponse { ReportRequestInfo: val0 })
    }
}

/// The payload of `ManageReportSchedule`.
#[allow(non_snake_case)]
#[derive(Clone, Debug, Default, PartialEq)]
pub struct ManageReportScheduleResponse {
    pub Count: i32,
    pub ReportSchedule: Vec<ReportSchedule>,
}

/// Whether every field of a `ManageReportScheduleResponse` read from element `n` has a value of its type.
pub open spec fn manage_report_schedule_response_ok(d: TreeState, n: Option<int>) -> bool {
    &&& i32_field(d, n, "Count"@) is Some
    &&& report_schedule_all_ok(d, wrapped_children(d, n, "ReportSchedule"@))
}

/// Whether `v` is the `ManageReportScheduleResponse` read from element `n`; an absent element gives
/// every field its default.
pub open spec fn manage_report_schedule_response_is(v: ManageReportScheduleResponse, d: TreeState, n: Option<int>) -> bool {
    &&& i32_field(d, n, "Count"@) == Some(v.Count as int)
    &&& report_schedule_all_are(v.ReportSchedule@, d, wrapped_children(d, n, "ReportSchedule"@))
}

impl ManageReportScheduleResponse {
    /// Reads a `ManageReportScheduleResponse` from element `n`: each field from its child element
    /// (the last one of that name) or attribute, absent ones at their default.
    /// Fails when a number or boolean field holds text of another kind.
    pub fn from_xml(d: &Document, n: Option<usize>) -> (r: Result<ManageReportScheduleResponse, ProtocolError>)
        requires
            d.wf(),
            valid_ref(d, n),
        ensures
            r is Ok <==> manage_report_schedule_response_ok(d.tree(), ref_view(n)),
            r matches Ok(v) ==> manage_report_schedule_response_is(v, d.tree(), ref_view(n)),
    {
        let val0 = match d.child_i32(n, "Count") { Ok(x) => x, Err(e) => return Err(e) };
        let c1 = d.wrapped_children(n, "ReportSchedule");
        let val1 = match report_schedule_list_from_xml(d, &c1) { Ok(x) => x, Err(e) => return Err(e) };
        Ok(ManageReportScheduleResponse { Count: val0, ReportSchedule: val1 })
    }
}

/// The payload of `GetReportScheduleList`.
#[allow(non_snake_case)]
#[derive(Clone, Debug, Default, PartialEq)]
pub struct GetReportScheduleListResponse {
    pub ReportSchedule: Vec<ReportSchedule>,
    pub NextToken: Option<String>,
    pub HasNext: bool,
}

/// Whether every field of a `GetReportScheduleListResponse` read from element `n` has a value of its type.
pub open spec fn get_report_schedule_list_response_ok(d: TreeState, n: Option<int>) -> bool {
    &&& report_schedule_all_ok(d, named_children(d, n, "ReportSchedule"@))
    &&& bool_field(d, n, "HasNext"@) is Some
}

/// Whether `v` is the `GetReportScheduleListResponse` read from element `n`; an absent element gives
/// every field its default.
pub open spec fn get_report_schedule_list_response_is(v: GetReportScheduleListResponse, d: TreeState, n: Option<int>) -> bool {
    &&& report_schedule_all_are(v.ReportSchedule@, d, named_children(d, n, "ReportSchedule"@))
    &&& opt_str(v.NextToken) == opt_child_text(d, n, "NextToken"@)
    &&& bool_field(d, n, "HasNext"@) == Some(v.HasNext)
}

impl GetReportScheduleListResponse {
    /// Reads a `GetReportScheduleListResponse` from element `n`: each field from its child element
    /// (the last one of that name) or attribute, absent ones at their default.
    /// Fails when a number or boolean field holds text of another kind.
    pub fn from_xml(d: &Document, n: Option<usize>) -> (r: Result<GetReportScheduleListResponse, ProtocolError>)
        requires
            d.wf(),
            valid_ref(d, n),
        ensures
            r is Ok <==> get_report_schedule_list_response_ok(d.tree(), ref_view(n)),
            r matches Ok(v) ==> get_report_schedule_list_response_is(v, d.tree(), ref_view(n)),
    {
        let c0 = d.children_named(n, "ReportSchedule");
        let val0 = match report_schedule_list_from_xml(d, &c0) { Ok(x) => x, Err(e) => return Err(e) };
        let val1 = d.opt_child_text(n, "NextToken");
        let val2 = match d.child_bool(n, "HasNext") { Ok(x) => x, Err(e) => return Err(e) };
        Ok(GetReportScheduleListResponse { ReportSchedule: val0, NextToken: val1, HasNext: val2 })
    }
}

/// The payload of `GetReportScheduleCount`.
#[allow(non_snake_case)]
#[derive(Clone, Debug, Default, PartialEq)]
pub struct GetReportScheduleCountResponse {
    pub Count: i32,
}

/// Whether every field of a `GetReportScheduleCountResponse` read from element `n` has a value of its type.
pub open spec fn get_report_schedule_count_response_ok(d: TreeState, n: Option<int>) -> bool {
    &&& i32_field(d, n, "Count"@) is Some
}

/// Whether `v` is the `GetReportScheduleCountResponse` read from element `n`; an absent element gives
/// every field its default.
pub open spec fn get_report_schedule_count_response_is(v: GetReportScheduleCountResponse, d: TreeState, n: Option<int>) -> bool {
    &&& i32_field(d, n, "Count"@) == Some(v.Count as int)
}

impl GetReportScheduleCountResponse {
    /// Reads a `GetReportScheduleCountResponse` from element `n`: each field from its child element
    /// (the last one of that name) or attribute, absent ones at their default.
    /// Fails when a number or boolean field holds text of another kind.
    pub fn from_xml(d: &Document, n: Option<usize>) -> (r: Result<GetReportScheduleCountResponse, ProtocolError>)
        requires
            d.wf(),
            valid_ref(d, n),
        ensures
            r is Ok <==> get_report_schedule_count_response_ok(d.tree(), ref_view(n)),
            r matches Ok(v) ==> get_report_schedule_count_response_is(v, d.tree(), ref_view(n)),
    {
        let val0 = match d.child_i32(n, "Count") { Ok(x) => x, Err(e) => return Err(e) };
        Ok(GetReportScheduleCountResponse { Count: val0 })
    }
}

/// The payload of `UpdateReportAcknowledgements`.
#[allow(non_snake_case)]
#[derive(Clone, Debug, Default, PartialEq)]
pub struct UpdateReportAcknowledgementsResponse {
    pub Count: i32,
    pub ReportInfo: Vec<ReportInfo>,
}

/// Whether every field of a `UpdateReportAcknowledgementsResponse` read from element `n` has a value of its type.
pub open spec fn update_report_acknowledgements_response_ok(d: TreeState, n: Option<int>) -> bool {
    &&& i32_field(d, n, "Count"@) is Some
    &&& report_info_all_ok(d, wrapped_children(d, n, "ReportInfo"@))
}

/// Whether `v` is the `UpdateReportAcknowledgementsResponse` read from element `n`; an absent element gives
/// every field its default.
pub open spec fn update_report_acknowledgements_response_is(v: UpdateReportAcknowledgementsResponse, d: TreeState, n: Option<int>) -> bool {
    &&& i32_field(d, n, "Count"@) == Some(v.Count as int)
    &&& report_info_all_are(v.ReportInfo@, d, wrapped_children(d, n, "ReportInfo"@))
}

impl UpdateReportAcknowledgementsResponse {
    /// Reads a `UpdateReportAcknowledgementsResponse` from element `n`: each field from its child element
    /// (the last one of that name) or attribute, absent ones at their default.
    /// Fails when a number or boolean field holds text of another kind.
    pub fn from_xml(d: &Document, n: Option<usize>) -> (r: Result<UpdateReportAcknowledgementsResponse, ProtocolError>)
        requires
            d.wf(),
            valid_ref(d, n),
        ensures
            r is Ok <==> update_report_acknowledgements_response_ok(d.tree(), ref_view(n)),
            r matches Ok(v) ==> update_report_acknowledgements_response_is(v, d.tree(), ref_view(n)),
    {
        let val0 = match d.child_i32(n, "Count") { Ok(x) => x, Err(e) => return Err(e) };
        let c1 = d.wrapped_children(n, "ReportInfo");
        let val1 = match report_info_list_from_xml(d, &c1) { Ok(x) => x, Err(e) => return Err(e) };
        Ok(UpdateReportAcknowledgementsResponse { Count: val0, ReportInfo: val1 })
    }
}

/// Parameters of `GetReportList`.
#[allow(non_snake_case)]
#[derive(Clone, Debug, Default, PartialEq)]
pub struct GetReportListParameters {
    pub MaxCount: Option<i32>,
    pub ReportTypeList: Option<Vec<String>>,
    pub Acknowledged: Option<bool>,
    pub AvailableFromDate: Option<UtcDateTime>,
    pub AvailableToDate: Option<UtcDateTime>,
    pub ReportRequestIdList: Option<Vec<String>>,
}

/// The canonical pairs of a `GetReportListParameters`: each field under its own name, absent
/// optional fields and empty lists giving none.
pub open spec fn get_report_list_parameters_pairs(p: GetReportListParameters) -> Seq<(Seq<char>, Seq<char>)> {
    optional_int_pair("MaxCount"@, p.MaxCount)
        + optional_list_pairs("ReportTypeList"@, "Type"@, opt_strings_view(p.ReportTypeList))
        + optional_bool_pair("Acknowledged"@, p.Acknowledged)
        + optional_date_pair("AvailableFromDate"@, p.AvailableFromDate)
        + optional_date_pair("AvailableToDate"@, p.AvailableToDate)
        + optional_list_pairs("ReportRequestIdList"@, "Id"@, opt_strings_view(p.ReportRequestIdList))
}

/// Whether every date of a `GetReportListParameters` names an instant.
pub open spec fn get_report_list_parameters_ok(p: GetReportListParameters) -> bool {
    &&& date_ok(p.AvailableFromDate)
    &&& date_ok(p.AvailableToDate)
}

impl GetReportListParameters {
    /// The canonical pairs of the parameter set; an encoding error when a date
    /// names no instant.
    pub fn to_pairs(&self) -> (r: Result<Vec<(String, String)>, MwsError>)
        ensures
            r is Ok <==> get_report_list_parameters_ok(*self),
            r matches Ok(v) ==> pairs_view(v@) == get_report_list_parameters_pairs(*self),
            r matches Err(e) ==> e is Encoding,
    {
        let mut pairs: Vec<(String, String)> = Vec::new();
        push_optional_int(&mut pairs, "MaxCount", self.MaxCount);
        push_optional_list(&mut pairs, "ReportTypeList", "Type", &self.ReportTypeList);
        push_optional_bool(&mut pairs, "Acknowledged", self.Acknowledged);
        match push_optional_date(&mut pairs, "AvailableFromDate", &self.AvailableFromDate) { Ok(()) => {}, Err(e) => return Err(e) }
        match push_optional_date(&mut pairs, "AvailableToDate", &self.AvailableToDate) { Ok(()) => {}, Err(e) => return Err(e) }
        push_optional_list(&mut pairs, "ReportRequestIdList", "Id", &self.ReportRequestIdList);
        assert(pairs_view(pairs@) =~= get_report_list_parameters_pairs(*self));
        Ok(pairs)
    }
}

/// Parameters of `GetReportRequestList`.
#[allow(non_snake_case)]
#[derive(Clone, Debug, Default, PartialEq)]
pub struct GetReportRequestListParameters {
    pub MaxCount: Option<i32>,
    pub ReportTypeList: Option<Vec<String>>,
    pub RequestedFromDate: Option<UtcDateTime>,
    pub RequestedToDate: Option<UtcDateTime>,
    pub ReportRequestIdList: Option<Vec<String>>,
    pub ReportProcessingStatusList: Option<Vec<ReportProcessingStatus>>,
}

/// The canonical pairs of a `GetReportRequestListParameters`: each field under its own name, absent
/// optional fields and empty lists giving none.
pub open spec fn get_report_request_list_parameters_pairs(p: GetReportRequestListParameters) -> Seq<(Seq<char>, Seq<char>)> {
    optional_int_pair("MaxCount"@, p.MaxCount)
        + optional_list_pairs("ReportTypeList"@, "Type"@, opt_strings_view(p.ReportTypeList))
        + optional_date_pair("RequestedFromDate"@, p.RequestedFromDate)
        + optional_date_pair("RequestedToDate"@, p.RequestedToDate)
        + optional_list_pairs("ReportRequestIdList"@, "Id"@, opt_strings_view(p.ReportRequestIdList))
        + optional_list_pairs("ReportProcessingStatusList"@, "Status"@, match p.ReportProcessingStatusList { Some(v) => Some(v@.map_values(|c: ReportProcessingStatus| report_processing_status_text(c))), None => None })
}

/// Whether every date of a `GetReportRequestListParameters` names an instant.
pub open spec fn get_report_request_list_parameters_ok(p: GetReportRequestListParameters) -> bool {
    &&& date_ok(p.RequestedFromDate)
    &&& date_ok(p.RequestedToDate)
}

impl GetReportRequestListParameters {
    /// The canonical pairs of the parameter set; an encoding error when a date
    /// names no instant.
    pub fn to_pairs(&self) -> (r: Result<Vec<(String, String)>, MwsError>)
        ensures
            r is Ok <==> get_report_request_list_parameters_ok(*self),
            r matches Ok(v) ==> pairs_view(v@) == get_report_request_list_parameters_pairs(*self),
            r matches Err(e) ==> e is Encoding,
    {
        let mut pairs: Vec<(String, String)> = Vec::new();
        push_optional_int(&mut pairs, "MaxCount", self.MaxCount);
        push_optional_list(&mut pairs, "ReportTypeList", "Type", &self.ReportTypeList);
        match push_optional_date(&mut pairs, "RequestedFromDate", &self.RequestedFromDate) { Ok(()) => {}, Err(e) => return Err(e) }
        match push_optional_date(&mut pairs, "RequestedToDate", &self.RequestedToDate) { Ok(()) => {}, Err(e) => return Err(e) }
        push_optional_list(&mut pairs, "ReportRequestIdList", "Id", &self.ReportRequestIdList);
        let texts_ReportProcessingStatusList = match &self.ReportProcessingStatusList { Some(v) => Some(report_processing_status_texts(v)), None => None };
        push_optional_list(&mut pairs, "ReportProcessingStatusList", "Status", &texts_ReportProcessingStatusList);
        assert(pairs_view(pairs@) =~= get_report_request_list_parameters_pairs(*self));
        Ok(pairs)
    }
}

/// Parameters of `RequestReport`.
#[allow(non_snake_case)]
#[derive(Clone, Debug, Default, PartialEq)]
pub struct RequestReportParameters {
    pub ReportType: String,
    pub StartDate: Option<UtcDateTime>,
    pub EndDate: Option<UtcDateTime>,
    pub ReportOptions: Option<String>,
    pub MarketplaceIdList: Option<Vec<String>>,
}

/// The canonical pairs of a `RequestReportParameters`: each field under its own name, absent
/// optional fields and empty lists giving none.
pub open spec fn request_report_parameters_pairs(p: RequestReportParameters) -> Seq<(Seq<char>, Seq<char>)> {
    seq![("ReportType"@, p.ReportType@)]
        + optional_date_pair("StartDate"@, p.StartDate)
        + optional_date_pair("EndDate"@, p.EndDate)
        + optional_pair("ReportOptions"@, opt_view(p.ReportOptions))
        + optional_list_pairs("MarketplaceIdList"@, "Id"@, opt_strings_view(p.MarketplaceIdList))
}

/// Whether every date of a `RequestReportParameters` names an instant.
pub open spec fn request_report_parameters_ok(p: RequestReportParameters) -> bool {
    &&& date_ok(p.StartDate)
    &&& date_ok(p.EndDate)
}

impl RequestReportParameters {
    /// The canonical pairs of the parameter set; an encoding error when a date
    /// names no instant.
    pub fn to_pairs(&self) -> (r: Result<Vec<(String, String)>, MwsError>)
        ensures
            r is Ok <==> request_report_parameters_ok(*self),
            r matches Ok(v) ==> pairs_view(v@) == request_report_parameters_pairs(*self),
            r matches Err(e) ==> e is Encoding,
    {
        let mut pairs: Vec<(String, String)> = Vec::new();
        push_param(&mut pairs, "ReportType", self.ReportType.as_str());
        match push_optional_date(&mut pairs, "StartDate", &self.StartDate) { Ok(()) => {}, Err(e) => return Err(e) }
        match push_optional_date(&mut pairs, "EndDate", &self.EndDate) { Ok(()) => {}, Err(e) => return Err(e) }
        push_optional(&mut pairs, "ReportOptions", &self.ReportOptions);
        push_optional_list(&mut pairs, "MarketplaceIdList", "Id", &self.MarketplaceIdList);
        assert(pairs_view(pairs@) =~= request_report_parameters_pairs(*self));
        Ok(pairs)
    }
}

/// Parameters of `ManageReportSchedule`.
#[allow(non_snake_case)]
#[derive(Clone, Debug, Default, PartialEq)]
pub struct ManageReportScheduleParameters {
    pub ReportType: String,
    pub Schedule: Option<String>,
    pub ScheduleDate: Option<UtcDateTime>,
}

/// The canonical pairs of a `ManageReportScheduleParameters`: each field under its own name, absent
/// optional fields and empty lists giving none.
pub open spec fn manage_report_schedule_parameters_pairs(p: ManageReportScheduleParameters) -> Seq<(Seq<char>, Seq<char>)> {
    seq![("ReportType"@, p.ReportType@)]
        + optional_pair("Schedule"@, opt_view(p.Schedule))
        + optional_date_pair("ScheduleDate"@, p.ScheduleDate)
}

/// Whether every date of a `ManageReportScheduleParameters` names an instant.
pub open spec fn manage_report_schedule_parameters_ok(p: ManageReportScheduleParameters) -> bool {
    &&& date_ok(p.ScheduleDate)
}

impl ManageReportScheduleParameters {
    /// The canonical pairs of the parameter set; an encoding error when a date
    /// names no instant.
    pub fn to_pairs(&self) -> (r: Result<Vec<(String, String)>, MwsError>)
        ensures
            r is Ok <==> manage_report_schedule_parameters_ok(*self),
            r matches Ok(v) ==> pairs_view(v@) == manage_report_schedule_parameters_pairs(*self),
            r matches Err(e) ==> e is Encoding,
    {
        let mut pairs: Vec<(String, String)> = Vec::new();
        push_param(&mut pairs, "ReportType", self.ReportType.as_str());
        push_optional(&mut pairs, "Schedule", &self.Schedule);
        match push_optional_date(&mut pairs, "ScheduleDate", &self.ScheduleDate) { Ok(()) => {}, Err(e) => return Err(e) }
        assert(pairs_view(pairs@) =~= manage_report_schedule_parameters_pairs(*self));
        Ok(pairs)
    }
}

/// Parameters of `GetReportScheduleList`.
#[allow(non_snake_case)]
#[derive(Clone, Debug, Default, PartialEq)]
pub struct GetReportScheduleListParameters {
    pub ReportTypeList: Option<Vec<String>>,
}

/// The canonical pairs of a `GetReportScheduleListParameters`: each field under its own name, absent
/// optional fields and empty lists giving none.
pub open spec fn get_report_schedule_list_parameters_pairs(p: GetReportScheduleListParameters) -> Seq<(Seq<char>, Seq<char>)> {
    optional_list_pairs("ReportTypeList"@, "Type"@, opt_strings_view(p.ReportTypeList))
}

impl GetReportScheduleListParameters {
    /// The canonical pairs of the parameter set.
    pub fn to_pairs(&self) -> (r: Vec<(String, String)>)
        ensures
            pairs_view(r@) == get_report_schedule_list_parameters_pairs(*self),
    {
        let mut pairs: Vec<(String, String)> = Vec::new();
        push_optional_list(&mut pairs, "ReportTypeList", "Type", &self.ReportTypeList);
        assert(pairs_view(pairs@) =~= get_report_schedule_list_parameters_pairs(*self));
        pairs
    }
}

/// Parameters of `GetReportScheduleCount`.
#[allow(non_snake_case)]
#[derive(Clone, Debug, Default, PartialEq)]
pub struct GetReportScheduleCountParameters {
    pub ReportTypeList: Option<Vec<String>>,
}

/// The canonical pairs of a `GetReportScheduleCountParameters`: each field under its own name, absent
/// optional fields and empty lists giving none.
pub open spec fn get_report_schedule_count_parameters_pairs(p: GetReportScheduleCountParameters) -> Seq<(Seq<char>, Seq<char>)> {
    optional_list_pairs("ReportTypeList"@, "Type"@, opt_strings_view(p.ReportTypeList))
}

impl GetReportScheduleCountParameters {
    /// The canonical pairs of the parameter set.
    pub fn to_pairs(&self) -> (r: Vec<(String, String)>)
        ensures
            pairs_view(r@) == get_report_schedule_count_parameters_pairs(*self),
    {
        let mut pairs: Vec<(String, String)> = Vec::new();
        push_optional_list(&mut pairs, "ReportTypeList", "Type", &self.ReportTypeList);
        assert(pairs_view(pairs@) =~= get_report_schedule_count_parameters_pairs(*self));
        pairs
    }
}

/// Parameters of `UpdateReportAcknowledgements`.
#[allow(non_snake_case)]
#[derive(Clone, Debug, Default, PartialEq)]
pub struct UpdateReportAcknowledgementsParameters {
    pub ReportIdList: Vec<String>,
    pub Acknowledged: Option<bool>,
}

/// The canonical pairs of a `UpdateReportAcknowledgementsParameters`: each field under its own name, absent
/// optional fields and empty lists giving none.
pub open spec fn update_report_acknowledgements_parameters_pairs(p: UpdateReportAcknowledgementsParameters) -> Seq<(Seq<char>, Seq<char>)> {
    list_pairs("ReportIdList"@, "Id"@, strings_view(p.ReportIdList@))
        + optional_bool_pair("Acknowledged"@, p.Acknowledged)
}

impl UpdateReportAcknowledgementsParameters {
    /// The canonical pairs of the parameter set.
    pub fn to_pairs(&self) -> (r: Vec<(String, String)>)
        ensures
            pairs_view(r@) == update_report_acknowledgements_parameters_pairs(*self),
    {
        let mut pairs: Vec<(String, String)> = Vec::new();
        push_list(&mut pairs, "ReportIdList", "Id", &self.ReportIdList);
        push_optional_bool(&mut pairs, "Acknowledged", self.Acknowledged);
        assert(pairs_view(pairs@) =~= update_report_acknowledgements_parameters_pairs(*self));
        pairs
    }
}

/// Signs a `GetReportList` call; an encoding error when a date of the parameters
/// names no instant.
pub fn get_report_list_request(client: &Client, params: &GetReportListParameters, timestamp: &UtcDateTime) -> (r: Result<SignedRequest, MwsError>)
    requires
        timestamp.wf(),
    ensures
        r is Ok <==> get_report_list_parameters_ok(*params),
        r matches Ok(q) ==> q.url@ == "https://"@ + client.options().endpoint@ + "/"@,
        r matches Ok(q) ==> q.body@ == signed_body(client.options(), "/"@,
            get_report_list_parameters_pairs(*params) + control_pairs(client.options(), "GetReportList"@, "2009-01-01"@, *timestamp)),
{
    let pairs = match params.to_pairs() {
        Ok(p) => p,
        Err(e) => return Err(e),
    };
    Ok(client.sign_request("/", "2009-01-01", "GetReportList", pairs, timestamp))
}

/// Whether the tree `t` is an answer of `GetReportList` that can be read: its outer
/// element is `GetReportListResponse` and the payload fields hold values of their types.
pub open spec fn get_report_list_answer_ok(t: TreeState) -> bool {
    t.name(0) == "GetReportListResponse"@ && get_report_list_response_ok(t, child_named(t, Some(0), "GetReportListResult"@))
}

/// Whether `e` is the answer of `GetReportList` that the tree `t` holds: the payload
/// read from the `GetReportListResult` element, the request id from `ResponseMetadata`.
pub open spec fn get_report_list_answer_is(e: ResponseEnvelope<GetReportListResponse>, t: TreeState) -> bool {
    get_report_list_response_is(e.payload, t, child_named(t, Some(0), "GetReportListResult"@)) && e.request_id@ == request_id_of(t)
}

/// Unwraps the answer of `GetReportList`.
pub fn get_report_list_envelope(d: &Document) -> (r: Result<ResponseEnvelope<GetReportListResponse>, ProtocolError>)
    requires
        d.wf(),
    ensures
        r is Ok <==> get_report_list_answer_ok(d.tree()),
        r matches Ok(e) ==> get_report_list_answer_is(e, d.tree()),
{
    match expect_root(d, "GetReportListResponse") {
        Ok(()) => {},
        Err(e) => return Err(e),
    }
    let result = d.child(Some(d.root()), "GetReportListResult");
    let payload = match GetReportListResponse::from_xml(d, result) {
        Ok(p) => p,
        Err(e) => return Err(e),
    };
    Ok(ResponseEnvelope { payload, request_id: request_id(d) })
}

/// The outcome of a `GetReportList` answer with HTTP status `status` and body `body`:
/// a service error for any status but 200; for 200 the decoded answer, or a
/// protocol error when the body is not such an answer.
pub fn get_report_list_response(status: u16, body: &str) -> (r: Result<ResponseEnvelope<GetReportListResponse>, MwsError>)
    ensures
        status != 200 ==> (r matches Err(MwsError::Service(s)) && s.status == status),
        status == 200 ==> (r is Ok <==> (xml_events_of(body@) matches Some(ev) && tree_of(ev) matches Some(t) && get_report_list_answer_ok(t))),
        r matches Ok(e) ==> (xml_events_of(body@) matches Some(ev) && tree_of(ev) matches Some(t) && get_report_list_answer_is(e, t)),
        (status == 200 && r is Err) ==> (r matches Err(MwsError::Protocol(_))),
{
    let d = match answer_document(status, body) {
        Ok(d) => d,
        Err(e) => return Err(e),
    };
    match get_report_list_envelope(&d) {
        Ok(e) => Ok(e),
        Err(e) => Err(MwsError::Protocol(e)),
    }
}

/// Signs a `GetReportListByNextToken` call for the given `NextToken`.
pub fn get_report_list_by_next_token_request(client: &Client, next_token: &str, timestamp: &UtcDateTime) -> (r: SignedRequest)
    requires
        timestamp.wf(),
    ensures
        r.url@ == "https://"@ + client.options().endpoint@ + "/"@,
        r.body@ == signed_body(client.options(), "/"@,
            seq![("NextToken"@, next_token@)] + control_pairs(client.options(), "GetReportListByNextToken"@, "2009-01-01"@, *timestamp)),
{
    let mut pairs: Vec<(String, String)> = Vec::new();
    push_param(&mut pairs, "NextToken", next_token);
    assert(pairs_view(pairs@) =~= seq![("NextToken"@, next_token@)]);
    client.sign_request("/", "2009-01-01", "GetReportListByNextToken", pairs, timestamp)
}

/// Whether the tree `t` is an answer of `GetReportListByNextToken` that can be read: its outer
/// element is `GetReportListByNextTokenResponse` and the payload fields hold values of their types.
pub open spec fn get_report_list_by_next_token_answer_ok(t: TreeState) -> bool {
    t.name(0) == "GetReportListByNextTokenResponse"@ && get_report_list_response_ok(t, child_named(t, Some(0), "GetReportListByNextTokenResult"@))
}

/// Whether `e` is the answer of `GetReportListByNextToken` that the tree `t` holds: the payload
/// read from the `GetReportListByNextTokenResult` element, the request id from `ResponseMetadata`.
pub open spec fn get_report_list_by_next_token_answer_is(e: ResponseEnvelope<GetReportListResponse>, t: TreeState) -> bool {
    get_report_list_response_is(e.payload, t, child_named(t, Some(0), "GetReportListByNextTokenResult"@)) && e.request_id@ == request_id_of(t)
}

/// Unwraps the answer of `GetReportListByNextToken`.
pub fn get_report_list_by_next_token_envelope(d: &Document) -> (r: Result<ResponseEnvelope<GetReportListResponse>, ProtocolError>)
    requires
        d.wf(),
    ensures
        r is Ok <==> get_report_list_by_next_token_answer_ok(d.tree()),
        r matches Ok(e) ==> get_report_list_by_next_token_answer_is(e, d.tree()),
{
    match expect_root(d, "GetReportListByNextTokenResponse") {
        Ok(()) => {},
        Err(e) => return Err(e),
    }
    let result = d.child(Some(d.root()), "GetReportListByNextTokenResult");
    let payload = match GetReportListResponse::from_xml(d, result) {
        Ok(p) => p,
        Err(e) => return Err(e),
    };
    Ok(ResponseEnvelope { payload, request_id: request_id(d) })
}

/// The outcome of a `GetReportListByNextToken` answer with HTTP status `status` and body `body`:
/// a service error for any status but 200; for 200 the decoded answer, or a
/// protocol error when the body is not such an answer.
pub fn get_report_list_by_next_token_response(status: u16, body: &str) -> (r: Result<ResponseEnvelope<GetReportListResponse>, MwsError>)
    ensures
        status != 200 ==> (r matches Err(MwsError::Service(s)) && s.status == status),
        status == 200 ==> (r is Ok <==> (xml_events_of(body@) matches Some(ev) && tree_of(ev) matches Some(t) && get_report_list_by_next_token_answer_ok(t))),
        r matches Ok(e) ==> (xml_events_of(body@) matches Some(ev) && tree_of(ev) matches Some(t) && get_report_list_by_next_token_answer_is(e, t)),
        (status == 200 && r is Err) ==> (r matches Err(MwsError::Protocol(_))),
{
    let d = match answer_document(status, body) {
        Ok(d) => d,
        Err(e) => return Err(e),
    };
    match get_report_list_by_next_token_envelope(&d) {
        Ok(e) => Ok(e),
        Err(e) => Err(MwsError::Protocol(e)),
    }
}

/// Signs a `GetReportRequestList` call; an encoding error when a date of the parameters
/// names no instant.
pub fn get_report_request_list_request(client: &Client, params: &GetReportRequestListParameters, timestamp: &UtcDateTime) -> (r: Result<SignedRequest, MwsError>)
    requires
        timestamp.wf(),
    ensures
        r is Ok <==> get_report_request_list_parameters_ok(*params),
        r matches Ok(q) ==> q.url@ == "https://"@ + client.options().endpoint@ + "/"@,
        r matches Ok(q) ==> q.body@ == signed_body(client.options(), "/"@,
            get_report_request_list_parameters_pairs(*params) + control_pairs(client.options(), "GetReportRequestList"@, "2009-01-01"@, *timestamp)),
{
    let pairs = match params.to_pairs() {
        Ok(p) => p,
        Err(e) => return Err(e),
    };
    Ok(client.sign_request("/", "2009-01-01", "GetReportRequestList", pairs, timestamp))
}

/// Whether the tree `t` is an answer of `GetReportRequestList` that can be read: its outer
/// element is `GetReportRequestListResponse` and the payload fields hold values of their types.
pub open spec fn get_report_request_list_answer_ok(t: TreeState) -> bool {
    t.name(0) == "GetReportRequestListResponse"@ && get_report_request_list_response_ok(t, child_named(t, Some(0), "GetReportRequestListResult"@))
}

/// Whether `e` is the answer of `GetReportRequestList` that the tree `t` holds: the payload
/// read from the `GetReportRequestListResult` element, the request id from `ResponseMetadata`.
pub open spec fn get_report_request_list_answer_is(e: ResponseEnvelope<GetReportRequestListResponse>, t: TreeState) -> bool {
    get_report_request_list_response_is(e.payload, t, child_named(t, Some(0), "GetReportRequestListResult"@)) && e.request_id@ == request_id_of(t)
}

/// Unwraps the answer of `GetReportRequestList`.
pub fn get_report_request_list_envelope(d: &Document) -> (r: Result<ResponseEnvelope<GetReportRequestListResponse>, ProtocolError>)
    requires
        d.wf(),
    ensures
        r is Ok <==> get_report_request_list_answer_ok(d.tree()),
        r matches Ok(e) ==> get_report_request_list_answer_is(e, d.tree()),
{
    match expect_root(d, "GetReportRequestListResponse") {
        Ok(()) => {},
        Err(e) => return Err(e),
    }
    let result = d.child(Some(d.root()), "GetReportRequestListResult");
    let payload = match GetReportRequestListResponse::from_xml(d, result) {
        Ok(p) => p,
        Err(e) => return Err(e),
    };
    Ok(ResponseEnvelope { payload, request_id: request_id(d) })
}

/// The outcome of a `GetReportRequestList` answer with HTTP status `status` and body `body`:
/// a service error for any status but 200; for 200 the decoded answer, or a
/// protocol error when the body is not such an answer.
pub fn get_report_request_list_response(status: u16, body: &str) -> (r: Result<ResponseEnvelope<GetReportRequestListResponse>, MwsError>)
    ensures
        status != 200 ==> (r matches Err(MwsError::Service(s)) && s.status == status),
        status == 200 ==> (r is Ok <==> (xml_events_of(body@) matches Some(ev) && tree_of(ev) matches Some(t) && get_report_request_list_answer_ok(t))),
        r matches Ok(e) ==> (xml_events_of(body@) matches Some(ev) && tree_of(ev) matches Some(t) && get_report_request_list_answer_is(e, t)),
        (status == 200 && r is Err) ==> (r matches Err(MwsError::Protocol(_))),
{
    let d = match answer_document(status, body) {
        Ok(d) => d,
        Err(e) => return Err(e),
    };
    match get_report_request_list_envelope(&d) {
        Ok(e) => Ok(e),
        Err(e) => Err(MwsError::Protocol(e)),
    }
}

/// Signs a `GetReportRequestListByNextToken` call for the given `NextToken`.
pub fn get_report_request_list_by_next_token_request(client: &Client, next_token: &str, timestamp: &UtcDateTime) -> (r: SignedRequest)
    requires
        timestamp.wf(),
    ensures
        r.url@ == "https://"@ + client.options().endpoint@ + "/"@,
        r.body@ == signed_body(client.options(), "/"@,
            seq![("NextToken"@, next_token@)] + control_pairs(client.options(), "GetReportRequestListByNextToken"@, "2009-01-01"@, *timestamp)),
{
    let mut pairs: Vec<(String, String)> = Vec::new();
    push_param(&mut pairs, "NextToken", next_token);
    assert(pairs_view(pairs@) =~= seq![("NextToken"@, next_token@)]);
    client.sign_request("/", "2009-01-01", "GetReportRequestListByNextToken", pairs, timestamp)
}

/// Whether the tree `t` is an answer of `GetReportRequestListByNextToken` that can be read: its outer
/// element is `GetReportRequestListByNextTokenResponse` and the payload fields hold values of their types.
pub open spec fn get_report_request_list_by_next_token_answer_ok(t: TreeState) -> bool {
    t.name(0) == "GetReportRequestListByNextTokenResponse"@ && get_report_request_list_response_ok(t, child_named(t, Some(0), "GetReportRequestListByNextTokenResult"@))
}

/// Whether `e` is the answer of `GetReportRequestListByNextToken` that the tree `t` holds: the payload
/// read from the `GetReportRequestListByNextTokenResult` element, the request id from `ResponseMetadata`.
pub open spec fn get_report_request_list_by_next_token_answer_is(e: ResponseEnvelope<GetReportRequestListResponse>, t: TreeState) -> bool {
    get_report_request_list_response_is(e.payload, t, child_named(t, Some(0), "GetReportRequestListByNextTokenResult"@)) && e.request_id@ == request_id_of(t)
}

/// Unwraps the answer of `GetReportRequestListByNextToken`.
pub fn get_report_request_list_by_next_token_envelope(d: &Document) -> (r: Result<ResponseEnvelope<GetReportRequestListResponse>, ProtocolError>)
    requires
        d.wf(),
    ensures
        r is Ok <==> get_report_request_list_by_next_token_answer_ok(d.tree()),
        r matches Ok(e) ==> get_report_request_list_by_next_token_answer_is(e, d.tree()),
{
    match expect_root(d, "GetReportRequestListByNextTokenResponse") {
        Ok(()) => {},
        Err(e) => return Err(e),
    }
    let result = d.child(Some(d.root()), "GetReportRequestListByNextTokenResult");
    let payload = match GetReportRequestListResponse::from_xml(d, result) {
        Ok(p) => p,
        Err(e) => return Err(e),
    };
    Ok(ResponseEnvelope { payload, request_id: request_id(d) })
}

/// The outcome of a `GetReportRequestListByNextToken` answer with HTTP status `status` and body `body`:
/// a service error for any status but 200; for 200 the decoded answer, or a
/// protocol error when the body is not such an answer.
pub fn get_report_request_list_by_next_token_response(status: u16, body: &str) -> (r: Result<ResponseEnvelope<GetReportRequestListResponse>, MwsError>)
    ensures
        status != 200 ==> (r matches Err(MwsError::Service(s)) && s.status == status),
        status == 200 ==> (r is Ok <==> (xml_events_of(body@) matches Some(ev) && tree_of(ev) matches Some(t) && get_report_request_list_by_next_token_answer_ok(t))),
        r matches Ok(e) ==> (xml_events_of(body@) matches Some(ev) && tree_of(ev) matches Some(t) && get_report_request_list_by_next_token_answer_is(e, t)),
        (status == 200 && r is Err) ==> (r matches Err(MwsError::Protocol(_))),
{
    let d = match answer_document(status, body) {
        Ok(d) => d,
        Err(e) => return Err(e),
    };
    match get_report_request_list_by_next_token_envelope(&d) {
        Ok(e) => Ok(e),
        Err(e) => Err(MwsError::Protocol(e)),
    }
}

/// Signs a `RequestReport` call; an encoding error when a date of the parameters
/// names no instant.
pub fn request_report_request(client: &Client, params: &RequestReportParameters, timestamp: &UtcDateTime) -> (r: Result<SignedRequest, MwsError>)
    requires
        timestamp.wf(),
    ensures
        r is Ok <==> request_report_parameters_ok(*params),
        r matches Ok(q) ==> q.url@ == "https://"@ + client.options().endpoint@ + "/"@,
        r matches Ok(q) ==> q.body@ == signed_body(client.options(), "/"@,
            request_report_parameters_pairs(*params) + control_pairs(client.options(), "RequestReport"@, "2009-01-01"@, *timestamp)),
{
    let pairs = match params.to_pairs() {
        Ok(p) => p,
        Err(e) => return Err(e),
    };
    Ok(client.sign_request("/", "2009-01-01", "RequestReport", pairs, timestamp))
}

/// Whether the tree `t` is an answer of `RequestReport` that can be read: its outer
/// element is `RequestReportResponse` and the payload fields hold values of their types.
pub open spec fn request_report_answer_ok(t: TreeState) -> bool {
    t.name(0) == "RequestReportResponse"@ && request_report_response_ok(t, child_named(t, Some(0), "RequestReportResult"@))
}

/// Whether `e` is the answer of `RequestReport` that the tree `t` holds: the payload
/// read from the `RequestReportResult` element, the request id from `ResponseMetadata`.
pub open spec fn request_report_answer_is(e: ResponseEnvelope<RequestReportResponse>, t: TreeState) -> bool {
    request_report_response_is(e.payload, t, child_named(t, Some(0), "RequestReportResult"@)) && e.request_id@ == request_id_of(t)
}

/// Unwraps the answer of `RequestReport`.
pub fn request_report_envelope(d: &Document) -> (r: Result<ResponseEnvelope<RequestReportResponse>, ProtocolError>)
    requires
        d.wf(),
    ensures
        r is Ok <==> request_report_answer_ok(d.tree()),
        r matches Ok(e) ==> request_report_answer_is(e, d.tree()),
{
    match expect_root(d, "RequestReportResponse") {
        Ok(()) => {},
        Err(e) => return Err(e),
    }
    let result = d.child(Some(d.root()), "RequestReportResult");
    let payload = match RequestReportResponse::from_xml(d, result) {
        Ok(p) => p,
        Err(e) => return Err(e),
    };
    Ok(ResponseEnvelope { payload, request_id: request_id(d) })
}

/// The outcome of a `RequestReport` answer with HTTP status `status` and body `body`:
/// a service error for any status but 200; for 200 the decoded answer, or a
/// protocol error when the body is not such an answer.
pub fn request_report_response(status: u16, body: &str) -> (r: Result<ResponseEnvelope<RequestReportResponse>, MwsError>)
    ensures
        status != 200 ==> (r matches Err(MwsError::Service(s)) && s.status == status),
        status == 200 ==> (r is Ok <==> (xml_events_of(body@) matches Some(ev) && tree_of(ev) matches Some(t) && request_report_answer_ok(t))),
        r matches Ok(e) ==> (xml_events_of(body@) matches Some(ev) && tree_of(ev) matches Some(t) && request_report_answer_is(e, t)),
        (status == 200 && r is Err) ==> (r matches Err(MwsError::Protocol(_))),
{
    let d = match answer_document(status, body) {
        Ok(d) => d,
        Err(e) => return Err(e),
    };
    match request_report_envelope(&d) {
        Ok(e) => Ok(e),
        Err(e) => Err(MwsError::Protocol(e)),
    }
}

/// Signs a `ManageReportSchedule` call; an encoding error when a date of the parameters
/// names no instant.
pub fn manage_report_schedule_request(client: &Client, params: &ManageReportScheduleParameters, timestamp: &UtcDateTime) -> (r: Result<SignedRequest, MwsError>)
    requires
        timestamp.wf(),
    ensures
        r is Ok <==> manage_report_schedule_parameters_ok(*params),
        r matches Ok(q) ==> q.url@ == "https://"@ + client.options().endpoint@ + "/"@,
        r matches Ok(q) ==> q.body@ == signed_body(client.options(), "/"@,
            manage_report_schedule_parameters_pairs(*params) + control_pairs(client.options(), "ManageReportSchedule"@, "2009-01-01"@, *timestamp)),
{
    let pairs = match params.to_pairs() {
        Ok(p) => p,
        Err(e) => return Err(e),
    };
    Ok(client.sign_request("/", "2009-01-01", "ManageReportSchedule", pairs, timestamp))
}

/// Whether the tree `t` is an answer of `ManageReportSchedule` that can be read: its outer
/// element is `ManageReportScheduleResponse` and the payload fields hold values of their types.
pub open spec fn manage_report_schedule_answer_ok(t: TreeState) -> bool {
    t.name(0) == "ManageReportScheduleResponse"@ && manage_report_schedule_response_ok(t, child_named(t, Some(0), "ManageReportScheduleResult"@))
}

/// Whether `e` is the answer of `ManageReportSchedule` that the tree `t` holds: the payload
/// read from the `ManageReportScheduleResult` element, the request id from `ResponseMetadata`.
pub open spec fn manage_report_schedule_answer_is(e: ResponseEnvelope<ManageReportScheduleResponse>, t: TreeState) -> bool {
    manage_report_schedule_response_is(e.payload, t, child_named(t, Some(0), "ManageReportScheduleResult"@)) && e.request_id@ == request_id_of(t)
}

/// Unwraps the answer of `ManageReportSchedule`.
pub fn manage_report_schedule_envelope(d: &Document) -> (r: Result<ResponseEnvelope<ManageReportScheduleResponse>, ProtocolError>)
    requires
        d.wf(),
    ensures
        r is Ok <==> manage_report_schedule_answer_ok(d.tree()),
        r matches Ok(e) ==> manage_report_schedule_answer_is(e, d.tree()),
{
    match expect_root(d, "ManageReportScheduleResponse") {
        Ok(()) => {},
        Err(e) => return Err(e),
    }
    let result = d.child(Some(d.root()), "ManageReportScheduleResult");
    let payload = match ManageReportScheduleResponse::from_xml(d, result) {
        Ok(p) => p,
        Err(e) => return Err(e),
    };
    Ok(ResponseEnvelope { payload, request_id: request_id(d) })
}

/// The outcome of a `ManageReportSchedule` answer with HTTP status `status` and body `body`:
/// a service error for any status but 200; for 200 the decoded answer, or a
/// protocol error when the body is not such an answer.
pub fn manage_report_schedule_response(status: u16, body: &str) -> (r: Result<ResponseEnvelope<ManageReportScheduleResponse>, MwsError>)
    ensures
        status != 200 ==> (r matches Err(MwsError::Service(s)) && s.status == status),
        status == 200 ==> (r is Ok <==> (xml_events_of(body@) matches Some(ev) && tree_of(ev) matches Some(t) && manage_report_schedule_answer_ok(t))),
        r matches Ok(e) ==> (xml_events_of(body@) matches Some(ev) && tree_of(ev) matches Some(t) && manage_report_schedule_answer_is(e, t)),
        (status == 200 && r is Err) ==> (r matches Err(MwsError::Protocol(_))),
{
    let d = match answer_document(status, body) {
        Ok(d) => d,
        Err(e) => return Err(e),
    };
    match manage_report_schedule_envelope(&d) {
        Ok(e) => Ok(e),
        Err(e) => Err(MwsError::Protocol(e)),
    }
}

/// Signs a `GetReportScheduleList` call.
pub fn get_report_schedule_list_request(client: &Client, params: &GetReportScheduleListParameters, timestamp: &UtcDateTime) -> (r: SignedRequest)
    requires
        timestamp.wf(),
    ensures
        r.url@ == "https://"@ + client.options().endpoint@ + "/"@,
        r.body@ == signed_body(client.options(), "/"@,
            get_report_schedule_list_parameters_pairs(*params) + control_pairs(client.options(), "GetReportScheduleList"@, "2009-01-01"@, *timestamp)),
{
    client.sign_request("/", "2009-01-01", "GetReportScheduleList", params.to_pairs(), timestamp)
}

/// Whether the tree `t` is an answer of `GetReportScheduleList` that can be read: its outer
/// element is `GetReportScheduleListResponse` and the payload fields hold values of their types.
pub open spec fn get_report_schedule_list_answer_ok(t: TreeState) -> bool {
    t.name(0) == "GetReportScheduleListResponse"@ && get_report_schedule_list_response_ok(t, child_named(t, Some(0), "GetReportScheduleListResult"@))
}

/// Whether `e` is the answer of `GetReportScheduleList` that the tree `t` holds: the payload
/// read from the `GetReportScheduleListResult` element, the request id from `ResponseMetadata`.
pub open spec fn get_report_schedule_list_answer_is(e: ResponseEnvelope<GetReportScheduleListResponse>, t: TreeState) -> bool {
    get_report_schedule_list_response_is(e.payload, t, child_named(t, Some(0), "GetReportScheduleListResult"@)) && e.request_id@ == request_id_of(t)
}

/// Unwraps the answer of `GetReportScheduleList`.
pub fn get_report_schedule_list_envelope(d: &Document) -> (r: Result<ResponseEnvelope<GetReportScheduleListResponse>, ProtocolError>)
    requires
        d.wf(),
    ensures
        r is Ok <==> get_report_schedule_list_answer_ok(d.tree()),
        r matches Ok(e) ==> get_report_schedule_list_answer_is(e, d.tree()),
{
    match expect_root(d, "GetReportScheduleListResponse") {
        Ok(()) => {},
        Err(e) => return Err(e),
    }
    let result = d.child(Some(d.root()), "GetReportScheduleListResult");
    let payload = match GetReportScheduleListResponse::from_xml(d, result) {
        Ok(p) => p,
        Err(e) => return Err(e),
    };
    Ok(ResponseEnvelope { payload, request_id: request_id(d) })
}

/// The outcome of a `GetReportScheduleList` answer with HTTP status `status` and body `body`:
/// a service error for any status but 200; for 200 the decoded answer, or a
/// protocol error when the body is not such an answer.
pub fn get_report_schedule_list_response(status: u16, body: &str) -> (r: Result<ResponseEnvelope<GetReportScheduleListResponse>, MwsError>)
    ensures
        status != 200 ==> (r matches Err(MwsError::Service(s)) && s.status == status),
        status == 200 ==> (r is Ok <==> (xml_events_of(body@) matches Some(ev) && tree_of(ev) matches Some(t) && get_report_schedule_list_answer_ok(t))),
        r matches Ok(e) ==> (xml_events_of(body@) matches Some(ev) && tree_of(ev) matches Some(t) && get_report_schedule_list_answer_is(e, t)),
        (status == 200 && r is Err) ==> (r matches Err(MwsError::Protocol(_))),
{
    let d = match answer_document(status, body) {
        Ok(d) => d,
        Err(e) => return Err(e),
    };
    match get_report_schedule_list_envelope(&d) {
        Ok(e) => Ok(e),
        Err(e) => Err(MwsError::Protocol(e)),
    }
}

/// Signs a `GetReportScheduleCount` call.
pub fn get_report_schedule_count_request(client: &Client, params: &GetReportScheduleCountParameters, timestamp: &UtcDateTime) -> (r: SignedRequest)
    requires
        timestamp.wf(),
    ensures
        r.url@ == "https://"@ + client.options().endpoint@ + "/"@,
        r.body@ == signed_body(client.options(), "/"@,
            get_report_schedule_count_parameters_pairs(*params) + control_pairs(client.options(), "GetReportScheduleCount"@, "2009-01-01"@, *timestamp)),
{
    client.sign_request("/", "2009-01-01", "GetReportScheduleCount", params.to_pairs(), timestamp)
}

/// Whether the tree `t` is an answer of `GetReportScheduleCount` that can be read: its outer
/// element is `GetReportScheduleCountResponse` and the payload fields hold values of their types.
pub open spec fn get_report_schedule_count_answer_ok(t: TreeState) -> bool {
    t.name(0) == "GetReportScheduleCountResponse"@ && get_report_schedule_count_response_ok(t, child_named(t, Some(0), "GetReportScheduleCountResult"@))
}

/// Whether `e` is the answer of `GetReportScheduleCount` that the tree `t` holds: the payload
/// read from the `GetReportScheduleCountResult` element, the request id from `ResponseMetadata`.
pub open spec fn get_report_schedule_count_answer_is(e: ResponseEnvelope<GetReportScheduleCountResponse>, t: TreeState) -> bool {
    get_report_schedule_count_response_is(e.payload, t, child_named(t, Some(0), "GetReportScheduleCountResult"@)) && e.request_id@ == request_id_of(t)
}

/// Unwraps the answer of `GetReportScheduleCount`.
pub fn get_report_schedule_count_envelope(d: &Document) -> (r: Result<ResponseEnvelope<GetReportScheduleCountResponse>, ProtocolError>)
    requires
        d.wf(),
    ensures
        r is Ok <==> get_report_schedule_count_answer_ok(d.tree()),
        r matches Ok(e) ==> get_report_schedule_count_answer_is(e, d.tree()),
{
    match expect_root(d, "GetReportScheduleCountResponse") {
        Ok(()) => {},
        Err(e) => return Err(e),
    }
    let result = d.child(Some(d.root()), "GetReportScheduleCountResult");
    let payload = match GetReportScheduleCountResponse::from_xml(d, result) {
        Ok(p) => p,
        Err(e) => return Err(e),
    };
    Ok(ResponseEnvelope { payload, request_id: request_id(d) })
}

/// The outcome of a `GetReportScheduleCount` answer with HTTP status `status` and body `body`:
/// a service error for any status but 200; for 200 the decoded answer, or a
/// protocol error when the body is not such an answer.
pub fn get_report_schedule_count_response(status: u16, body: &str) -> (r: Result<ResponseEnvelope<GetReportScheduleCountResponse>, MwsError>)
    ensures
        status != 200 ==> (r matches Err(MwsError::Service(s)) && s.status == status),
        status == 200 ==> (r is Ok <==> (xml_events_of(body@) matches Some(ev) && tree_of(ev) matches Some(t) && get_report_schedule_count_answer_ok(t))),
        r matches Ok(e) ==> (xml_events_of(body@) matches Some(ev) && tree_of(ev) matches Some(t) && get_report_schedule_count_answer_is(e, t)),
        (status == 200 && r is Err) ==> (r matches Err(MwsError::Protocol(_))),
{
    let d = match answer_document(status, body) {
        Ok(d) => d,
        Err(e) => return Err(e),
    };
    match get_report_schedule_count_envelope(&d) {
        Ok(e) => Ok(e),
        Err(e) => Err(MwsError::Protocol(e)),
    }
}

/// Signs a `UpdateReportAcknowledgements` call.
pub fn update_report_acknowledgements_request(client: &Client, params: &UpdateReportAcknowledgementsParameters, timestamp: &UtcDateTime) -> (r: SignedRequest)
    requires
        timestamp.wf(),
    ensures
        r.url@ == "https://"@ + client.options().endpoint@ + "/"@,
        r.body@ == signed_body(client.options(), "/"@,
            update_report_acknowledgements_parameters_pairs(*params) + control_pairs(client.options(), "UpdateReportAcknowledgements"@, "2009-01-01"@, *timestamp)),
{
    client.sign_request("/", "2009-01-01", "UpdateReportAcknowledgements", params.to_pairs(), timestamp)
}

/// Whether the tree `t` is an answer of `UpdateReportAcknowledgements` that can be read: its outer
/// element is `UpdateReportAcknowledgementsResponse` and the payload fields hold values of their types.
pub open spec fn update_report_acknowledgements_answer_ok(t: TreeState) -> bool {
    t.name(0) == "UpdateReportAcknowledgementsResponse"@ && update_report_acknowledgements_response_ok(t, child_named(t, Some(0), "UpdateReportAcknowledgementsResult"@))
}

/// Whether `e` is the answer of `UpdateReportAcknowledgements` that the tree `t` holds: the payload
/// read from the `UpdateReportAcknowledgementsResult` element, the request id from `ResponseMetadata`.
pub open spec fn update_report_acknowledgements_answer_is(e: ResponseEnvelope<UpdateReportAcknowledgementsResponse>, t: TreeState) -> bool {
    update_report_acknowledgements_response_is(e.payload, t, child_named(t, Some(0), "UpdateReportAcknowledgementsResult"@)) && e.request_id@ == request_id_of(t)
}

/// Unwraps the answer of `UpdateReportAcknowledgements`.
pub fn update_report_acknowledgements_envelope(d: &Document) -> (r: Result<ResponseEnvelope<UpdateReportAcknowledgementsResponse>, ProtocolError>)
    requires
        d.wf(),
    ensures
        r is Ok <==> update_report_acknowledgements_answer_ok(d.tree()),
        r matches Ok(e) ==> update_report_acknowledgements_answer_is(e, d.tree()),
{
    match expect_root(d, "UpdateReportAcknowledgementsResponse") {
        Ok(()) => {},
        Err(e) => return Err(e),
    }
    let result = d.child(Some(d.root()), "UpdateReportAcknowledgementsResult");
    let payload = match UpdateReportAcknowledgementsResponse::from_xml(d, result) {
        Ok(p) => p,
        Err(e) => return Err(e),
    };
    Ok(ResponseEnvelope { payload, request_id: request_id(d) })
}

/// The outcome of a `UpdateReportAcknowledgements` answer with HTTP status `status` and body `body`:
/// a service error for any status but 200; for 200 the decoded answer, or a
/// protocol error when the body is not such an answer.
pub fn update_report_acknowledgements_response(status: u16, body: &str) -> (r: Result<ResponseEnvelope<UpdateReportAcknowledgementsResponse>, MwsError>)
    ensures
        status != 200 ==> (r matches Err(MwsError::Service(s)) && s.status == status),
        status == 200 ==> (r is Ok <==> (xml_events_of(body@) matches Some(ev) && tree_of(ev) matches Some(t) && update_report_acknowledgements_answer_ok(t))),
        r matches Ok(e) ==> (xml_events_of(body@) matches Some(ev) && tree_of(ev) matches Some(t) && update_report_acknowledgements_answer_is(e, t)),
        (status == 200 && r is Err) ==> (r matches Err(MwsError::Protocol(_))),
{
    let d = match answer_document(status, body) {
        Ok(d) => d,
        Err(e) => return Err(e),
    };
    match update_report_acknowledgements_envelope(&d) {
        Ok(e) => Ok(e),
        Err(e) => Err(MwsError::Protocol(e)),
    }
}

/// Signs a `GetReport` call for the given `ReportId`.
pub fn get_report_request(client: &Client, report_id: &str, timestamp: &UtcDateTime) -> (r: SignedRequest)
    requires
        timestamp.wf(),
    ensures
        r.url@ == "https://"@ + client.options().endpoint@ + "/"@,
        r.body@ == signed_body(client.options(), "/"@,
            seq![("ReportId"@, report_id@)] + control_pairs(client.options(), "GetReport"@, "2009-01-01"@, *timestamp)),
{
    let mut pairs: Vec<(String, String)> = Vec::new();
    push_param(&mut pairs, "ReportId", report_id);
    assert(pairs_view(pairs@) =~= seq![("ReportId"@, report_id@)]);
    client.sign_request("/", "2009-01-01", "GetReport", pairs, timestamp)
}


/// The outcome of a `GetReport` answer: the `Content-MD5` header that comes
/// with the report body, or the error of the answer.
pub fn get_report_response(status: u16, content_md5: Option<String>, body: &str) -> (r: Result<String, MwsError>)
    ensures
        status != 200 ==> (r matches Err(MwsError::Service(s)) && s.status == status),
        status == 200 ==> (content_md5 is None <==> r matches Err(MwsError::Protocol(ProtocolError::ContentMD5HeaderMissing))),
        status == 200 ==> (content_md5 matches Some(h) ==> r matches Ok(c) && c@ == h@),
{
    report_checksum(status, content_md5, body)
}

} // verus!
