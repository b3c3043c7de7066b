//! Credentials, the signed request, and the errors a call can end in.
use vstd::prelude::*;
use crate::constants::{get_region, region_table};
use crate::datetime::UtcDateTime;
use crate::params::{pairs_view, opt_view, push_optional, push_param};
use crate::sign::{build_string_to_sign, canonical_query, join_query, push_url_encoded, sign_text, signature_of, sort_by_key, string_to_sign, url_encoded};
use crate::text::push_str;

verus! {

/// What a client needs to sign requests for one seller in one region.
#[derive(Clone, Debug)]
pub struct ClientOptions {
    pub endpoint: String,
    pub seller_id: String,
    pub mws_auth_token: Option<String>,
    pub aws_access_key_id: String,
    pub secret_key: String,
}

/// Whether every required credential field is filled in.
pub open spec fn configured(o: ClientOptions) -> bool {
    o.endpoint@.len() > 0 && o.seller_id@.len() > 0 && o.aws_access_key_id@.len() > 0 && o.secret_key@.len() > 0
}

/// Why a call failed.
#[derive(Clone, Debug)]
pub enum MwsError {
    /// A required credential field is empty; it names the field.
    Configuration(String),
    /// A field could not be written as text.
    Encoding(String),
    /// The connection failed (time-out, name lookup, TLS).
    Transport(String),
    /// The service answered with an error.
    Service(ServiceError),
    /// The answer broke the protocol.
    Protocol(ProtocolError),
}

/// An error answer of the service.
#[derive(Clone, Debug)]
pub struct ServiceError {
    /// The HTTP status of the answer.
    pub status: u16,
    pub error_type: String,
    pub code: String,
    pub message: String,
    pub request_id: String,
}

/// How an answer broke the protocol.
#[derive(Clone, Debug)]
pub enum ProtocolError {
    /// The answer lacks the `Content-MD5` header that the operation promises.
    ContentMD5HeaderMissing,
    /// The body is not well-formed XML; the parser's message.
    MalformedXml(String),
    /// An element stands where it may not (a second root, an end tag that
    /// closes another element, an outer element other than the expected one); its name.
    UnexpectedElement(String),
    /// The text of an element or attribute is not a value of its type; its name.
    InvalidValue(String),
}

/// A client holding filled-in credentials.
pub struct Client {
    options: ClientOptions,
}

/// A request ready to be sent: `POST` `body` to `url` as
/// `application/x-www-form-urlencoded`.
#[derive(Clone, Debug)]
pub struct SignedRequest {
    pub url: String,
    pub body: String,
}

/// The pairs that the signer adds to every request.
pub open spec fn control_pairs(o: ClientOptions, action: Seq<char>, version: Seq<char>, timestamp: UtcDateTime) -> Seq<(Seq<char>, Seq<char>)> {
    seq![("AWSAccessKeyId"@, o.aws_access_key_id@), ("SellerId"@, o.seller_id@)]
        + match o.mws_auth_token { Some(t) => seq![("MWSAuthToken"@, t@)], None => Seq::empty() }
        + seq![("SignatureMethod"@, "HmacSHA256"@), ("SignatureVersion"@, "2"@),
            ("Timestamp"@, timestamp.iso8601()), ("Version"@, version), ("Action"@, action)]
}

/// The body of a signed request: the canonical string of all pairs, then the
/// signature of the text to sign, percent-encoded.
pub open spec fn signed_body(o: ClientOptions, path: Seq<char>, all: Seq<(Seq<char>, Seq<char>)>) -> Seq<char> {
    let q = canonical_query(all);
    q + "&Signature="@ + url_encoded(signature_of(o.secret_key@, string_to_sign(o.endpoint@, path, q)))
}

/// Signing is deterministic: the same credentials, path, parameter pairs,
/// operation, version and timestamp give the same canonical string, the same
/// signature and so the same body.
pub proof fn lemma_signing_deterministic(
    options_a: ClientOptions,
    options_b: ClientOptions,
    path: Seq<char>,
    pairs_a: Seq<(Seq<char>, Seq<char>)>,
    pairs_b: Seq<(Seq<char>, Seq<char>)>,
    action: Seq<char>,
    version: Seq<char>,
    timestamp: UtcDateTime,
)
    requires
        options_a == options_b,
        pairs_a == pairs_b,
    ensures
        canonical_query(pairs_a + control_pairs(options_a, action, version, timestamp))
            == canonical_query(pairs_b + control_pairs(options_b, action, version, timestamp)),
        signed_body(options_a, path, pairs_a + control_pairs(options_a, action, version, timestamp))
            == signed_body(options_b, path, pairs_b + control_pairs(options_b, action, version, timestamp)),
{
}

impl Client {
    /// A client for the given credentials; a configuration error naming the
    /// first empty required field otherwise.
    pub fn new(options: ClientOptions) -> (r: Result<Client, MwsError>)
        ensures
            r is Ok <==> configured(options),
            r matches Ok(c) ==> c.options() == options,
            r matches Err(e) ==> e is Configuration,
    {
        if options.endpoint.as_str().unicode_len() == 0 {
            return Err(MwsError::Configuration("endpoint".to_owned()));
        }
        if options.seller_id.as_str().unicode_len() == 0 {
            return Err(MwsError::Configuration("seller_id".to_owned()));
        }
        if options.aws_access_key_id.as_str().unicode_len() == 0 {
            return Err(MwsError::Configuration("aws_access_key_id".to_owned()));
        }
        if options.secret_key.as_str().unicode_len() == 0 {
            return Err(MwsError::Configuration("secret_key".to_owned()));
        }
        Ok(Client { options })
    }

    pub closed spec fn options(&self) -> ClientOptions {
        self.options
    }

    /// The endpoint host of the client.
    pub fn endpoint(&self) -> (r: &str)
        ensures
            r@ == self.options().endpoint@,
    {
        self.options.endpoint.as_str()
    }

    /// Signs a call of `action` (API `version`, at `path`) with the given
    /// parameter pairs at the instant `timestamp`.
    pub fn sign_request(&self, path: &str, version: &str, action: &str, params: Vec<(String, String)>, timestamp: &UtcDateTime) -> (r: SignedRequest)
        requires
            timestamp.wf(),
        ensures
            r.url@ == "https://"@ + self.options().endpoint@ + path@,
            r.body@ == signed_body(self.options(), path@,
                pairs_view(params@) + control_pairs(self.options(), action@, version@, *timestamp)),
    {
        let o = &self.options;
        let mut all = params;
        let ghost start = pairs_view(all@);
        push_param(&mut all, "AWSAccessKeyId", o.aws_access_key_id.as_str());
        push_param(&mut all, "SellerId", o.seller_id.as_str());
        push_optional(&mut all, "MWSAuthToken", &o.mws_auth_token);
        push_param(&mut all, "SignatureMethod", "HmacSHA256");
        push_param(&mut all, "SignatureVersion", "2");
        let ts = timestamp.to_iso8601();
        push_param(&mut all, "Timestamp", ts.as_str());
        push_param(&mut all, "Version", version);
        push_param(&mut all, "Action", action);
        let ghost ctl = control_pairs(self.options(), action@, version@, *timestamp);
        assert(pairs_view(all@) =~= start + ctl) by {
            assert(opt_view(o.mws_auth_token) == match o.mws_auth_token { Some(t) => Some(t@), None => None::<Seq<char>> });
        }
        let sorted = sort_by_key(all);
        let query = join_query(&sorted);
        let sts = build_string_to_sign(o.endpoint.as_str(), path, query.as_str());
        let signature = sign_text(o.secret_key.as_str(), sts.as_str());
        let mut body = query.clone();
        push_str(&mut body, "&Signature=");
        push_url_encoded(&mut body, signature.as_str());
        let mut url = String::new();
        push_str(&mut url, "https://");
        push_str(&mut url, o.endpoint.as_str());
        push_str(&mut url, path);
        SignedRequest { url, body }
    }
}

/// A client for the region `region_id` with the given credentials: the
/// endpoint is the region's. A configuration error when there is no such
/// region or a required credential is empty.
pub fn get_client(
    region_id: &str,
    seller_id: String,
    mws_auth_token: Option<String>,
    aws_access_key_id: String,
    secret_key: String,
) -> (r: Result<Client, MwsError>)
    ensures
        (forall|i: int| 0 <= i < region_table().len() ==> region_table()[i].id != region_id@) ==> r matches Err(MwsError::Configuration(_)),
        r matches Ok(c) ==> configured(c.options()) && c.options().seller_id@ == seller_id@
            && c.options().mws_auth_token == mws_auth_token && c.options().aws_access_key_id@ == aws_access_key_id@
            && c.options().secret_key@ == secret_key@
            && exists|i: int| 0 <= i < region_table().len() && region_table()[i].id == region_id@
                && c.options().endpoint@ == region_table()[i].endpoint,
        r matches Err(e) ==> e is Configuration,
        (exists|i: int| 0 <= i < region_table().len() && region_table()[i].id == region_id@)
            ==> (r is Ok <==> (seller_id@.len() > 0 && aws_access_key_id@.len() > 0 && secret_key@.len() > 0)),
{
    match get_region(region_id) {
        None => Err(MwsError::Configuration("region_id".to_owned())),
        Some(region) => {
            let endpoint = region.endpoint.to_owned();
            proof {
                reveal_strlit("mws.amazonservices.com");
                reveal_strlit("mws-eu.amazonservices.com");
                reveal_strlit("mws.amazonservices.com.cn");
                reveal_strlit("mws.amazonservices.jp");
                reveal_strlit("mws.amazonservices.com.au");
            }
            Client::new(ClientOptions { endpoint, seller_id, mws_auth_token, aws_access_key_id, secret_key })
        },
    }
}

} // verus!
