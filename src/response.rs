//! What comes back from the service: the HTTP status, the error envelope, the
//! success envelope around every payload, and which failures may be retried.
use vstd::prelude::*;
use crate::client::{MwsError, ProtocolError, ServiceError};
use crate::document::{child_named, child_text, tree_of, xml_events_of, Document, TreeState};
use crate::sign::{base64_encode, base64_of};
use crate::text::str_eq;

verus! {

/// A decoded success answer: the operation's payload and the request id.
#[derive(Clone, Debug)]
pub struct ResponseEnvelope<T> {
    pub payload: T,
    pub request_id: String,
}

impl<T> ResponseEnvelope<T> {
    /// The payload alone.
    pub fn into_inner(self) -> (r: T)
        ensures
            r == self.payload,
    {
        self.payload
    }
}

/// The error codes with which the service says a caller sent too much, too fast.
pub open spec fn throttling_code(code: Seq<char>) -> bool {
    code == "RequestThrottled"@ || code == "QuotaExceeded"@
}

/// Whether a failed call may be sent again unchanged after a pause: the
/// service was throttling or unavailable (HTTP 500 or 503).
pub open spec fn retryable(e: MwsError) -> bool {
    match e {
        MwsError::Service(s) => s.status == 500 || s.status == 503 || throttling_code(s.code@),
        _ => false,
    }
}

/// Whether `code` is one of the throttling error codes.
pub fn is_throttling_code(code: &str) -> (r: bool)
    ensures
        r == throttling_code(code@),
{
    str_eq(code, "RequestThrottled") || str_eq(code, "QuotaExceeded")
}

impl MwsError {
    /// Whether the call may be sent again unchanged after a pause.
    pub fn is_retryable(&self) -> (r: bool)
        ensures
            r == retryable(*self),
    {
        match self {
            MwsError::Service(s) => s.status == 500 || s.status == 503 || is_throttling_code(s.code.as_str()),
            _ => false,
        }
    }
}

/// An error answer whose code is a throttling code is classified retryable,
/// whatever its status.
pub proof fn lemma_throttling_is_retryable(s: ServiceError)
    requires
        throttling_code(s.code@),
    ensures
        retryable(MwsError::Service(s)),
{
}

/// An error answer with the code `AccessDenied` is classified not retryable,
/// unless its status says the service itself failed (500 or 503).
pub proof fn lemma_access_denied_is_not_retryable(s: ServiceError)
    requires
        s.code@ == "AccessDenied"@,
        s.status != 500,
        s.status != 503,
    ensures
        !retryable(MwsError::Service(s)),
{
    reveal_strlit("AccessDenied");
    reveal_strlit("RequestThrottled");
    reveal_strlit("QuotaExceeded");
    assert("AccessDenied"@.len() == 12);
    assert("RequestThrottled"@.len() == 16);
    assert("QuotaExceeded"@.len() == 13);
}

/// The `Error` element of an error envelope.
pub open spec fn error_element(d: TreeState) -> Option<int> {
    child_named(d, Some(0), "Error"@)
}

/// Whether `e` is the service error that the error envelope `d` describes,
/// for an answer with HTTP status `status`.
pub open spec fn service_error_is(e: ServiceError, status: u16, d: TreeState) -> bool {
    &&& e.status == status
    &&& e.error_type@ == child_text(d, error_element(d), "Type"@)
    &&& e.code@ == child_text(d, error_element(d), "Code"@)
    &&& e.message@ == child_text(d, error_element(d), "Message"@)
    &&& e.request_id@ == child_text(d, Some(0), "RequestID"@)
}

/// Reads the error envelope `<ErrorResponse><Error><Type/><Code/><Message/>
/// </Error><RequestID/></ErrorResponse>` of an answer with status `status`.
pub fn service_error_from(status: u16, d: &Document) -> (r: ServiceError)
    requires
        d.wf(),
    ensures
        service_error_is(r, status, d.tree()),
{
    let root = Some(d.root());
    let err = d.child(root, "Error");
    ServiceError {
        status,
        error_type: d.child_text(err, "Type"),
        code: d.child_text(err, "Code"),
        message: d.child_text(err, "Message"),
        request_id: d.child_text(root, "RequestID"),
    }
}

/// The error that an answer other than HTTP 200 stands for: the service error
/// of its error envelope, with empty fields when the body holds none.
pub fn error_for_status(status: u16, body: &str) -> (r: MwsError)
    ensures
        r matches MwsError::Service(s) && s.status == status,
        r matches MwsError::Service(s) ==> (xml_events_of(body@) is Some && tree_of(xml_events_of(body@)->0) is Some
            ==> service_error_is(s, status, tree_of(xml_events_of(body@)->0)->0)),
        r matches MwsError::Service(s) ==> (!(xml_events_of(body@) matches Some(ev) && tree_of(ev) is Some)
            ==> s.error_type@.len() == 0 && s.code@.len() == 0 && s.message@.len() == 0 && s.request_id@.len() == 0),
{
    match Document::parse(body) {
        Ok(d) => MwsError::Service(service_error_from(status, &d)),
        Err(_) => MwsError::Service(ServiceError {
            status,
            error_type: String::new(),
            code: String::new(),
            message: String::new(),
            request_id: String::new(),
        }),
    }
}

/// The document of a successful answer: a service error for any status but
/// 200, a protocol error for a body that is not well-formed XML.
pub fn answer_document(status: u16, body: &str) -> (r: Result<Document, MwsError>)
    ensures
        status != 200 ==> (r matches Err(MwsError::Service(s)) && s.status == status),
        status == 200 ==> (r is Ok <==> (xml_events_of(body@) matches Some(ev) && tree_of(ev) is Some)),
        r matches Ok(d) ==> status == 200 && d.wf() && (xml_events_of(body@) matches Some(ev) && tree_of(ev) == Some(d.tree())),
        (status == 200 && r is Err) ==> (r matches Err(MwsError::Protocol(_))),
{
    if status != 200 {
        return Err(error_for_status(status, body));
    }
    match Document::parse(body) {
        Ok(d) => Ok(d),
        Err(e) => Err(MwsError::Protocol(e)),
    }
}

/// What a report body answer yields besides its bytes: the `Content-MD5`
/// header, which the operation promises, or the error of the answer.
pub fn report_checksum(status: u16, content_md5: Option<String>, body: &str) -> (r: Result<String, MwsError>)
    ensures
        status != 200 ==> (r matches Err(MwsError::Service(s)) && s.status == status),
        status == 200 ==> (content_md5 is None <==> r matches Err(MwsError::Protocol(ProtocolError::ContentMD5HeaderMissing))),
        status == 200 ==> (content_md5 matches Some(h) ==> r matches Ok(c) && c@ == h@),
{
    if status != 200 {
        return Err(error_for_status(status, body));
    }
    match content_md5 {
        Some(h) => Ok(h),
        None => Err(MwsError::Protocol(ProtocolError::ContentMD5HeaderMissing)),
    }
}

/// The MD5 digest of some bytes.
pub uninterp spec fn md5_of(bytes: Seq<u8>) -> Seq<u8>;

/// Relies on `md5::compute`: the 16-byte MD5 digest of the bytes.
#[verifier::external_body]
fn md5_digest(bytes: &[u8]) -> (r: Vec<u8>)
    ensures
        r@ == md5_of(bytes@),
        r@.len() == 16,
{
    md5::compute(bytes).0.to_vec()
}

/// The `Content-MD5` value of a body: base64 of its MD5 digest.
pub fn content_md5(bytes: &[u8]) -> (r: String)
    ensures
        r@ == base64_of(md5_of(bytes@)),
{
    let digest = md5_digest(bytes);
    base64_encode(digest.as_slice())
}

/// Whether a report body is the one that its `Content-MD5` header describes.
pub fn content_md5_matches(bytes: &[u8], header: &str) -> (r: bool)
    ensures
        r == (base64_of(md5_of(bytes@)) == header@),
{
    let expected = content_md5(bytes);
    str_eq(expected.as_str(), header)
}

/// The request id of a success envelope: `ResponseMetadata/RequestId`.
pub open spec fn request_id_of(d: TreeState) -> Seq<char> {
    child_text(d, child_named(d, Some(0), "ResponseMetadata"@), "RequestId"@)
}

/// Reads the request id of a success envelope.
pub fn request_id(d: &Document) -> (r: String)
    requires
        d.wf(),
    ensures
        r@ == request_id_of(d.tree()),
{
    let meta = d.child(Some(d.root()), "ResponseMetadata");
    d.child_text(meta, "RequestId")
}

/// Checks that the outer element of an answer is `tag`.
pub fn expect_root(d: &Document, tag: &str) -> (r: Result<(), ProtocolError>)
    requires
        d.wf(),
    ensures
        r is Ok <==> d.name(0) == tag@,
{
    let name = d.name_of(d.root());
    if str_eq(name, tag) {
        Ok(())
    } else {
        Err(ProtocolError::UnexpectedElement(name.to_owned()))
    }
}

} // verus!
