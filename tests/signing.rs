use mws::client::{Client, ClientOptions, MwsError};
use mws::datetime::{parse_iso8601, UtcDateTime};
use mws::params::{decimal_text, int_to_text, list_item_key, push_list, push_object};
use mws::reports::{
    get_report_list_request, get_report_request, request_report_request, GetReportListParameters, RequestReportParameters,
};
use mws::sign::{join_query, key_less, sign_text, sort_by_key, url_encode};

fn client() -> Client {
    Client::new(ClientOptions {
        endpoint: "mws.amazonservices.com".to_string(),
        seller_id: "SELLER1".to_string(),
        mws_auth_token: None,
        aws_access_key_id: "AKIDEXAMPLE".to_string(),
        secret_key: "secret".to_string(),
    })
    .unwrap()
}

fn at() -> UtcDateTime {
    UtcDateTime::new(2020, 1, 2, 3, 4, 5, 0).unwrap()
}

fn pair(k: &str, v: &str) -> (String, String) {
    (k.to_string(), v.to_string())
}

#[test]
fn keys_sort_byte_wise() {
    let sorted = sort_by_key(vec![pair("B", "2"), pair("A", "1"), pair("AA", "3")]);
    let keys: Vec<&str> = sorted.iter().map(|p| p.0.as_str()).collect();
    assert_eq!(keys, vec!["A", "AA", "B"]);
    assert!(key_less("Z", "a"));
    assert!(!key_less("a", "a"));
}

#[test]
fn list_fields_are_numbered_from_one() {
    let mut pairs = Vec::new();
    push_list(&mut pairs, "IdList", "Id", &vec!["x".to_string(), "y".to_string()]);
    assert_eq!(pairs, vec![pair("IdList.Id.1", "x"), pair("IdList.Id.2", "y")]);
    let mut empty = Vec::new();
    push_list(&mut empty, "IdList", "Id", &Vec::new());
    assert!(empty.is_empty());
    assert_eq!(list_item_key("A", "B", 9), "A.B.10");
}

#[test]
fn nested_objects_are_put_under_their_field() {
    let mut pairs = Vec::new();
    push_object(&mut pairs, "Destination", &vec![pair("DeliveryChannel", "SQS")]);
    assert_eq!(pairs, vec![pair("Destination.DeliveryChannel", "SQS")]);
}

#[test]
fn numbers_are_written_in_decimal() {
    assert_eq!(decimal_text(0), "0");
    assert_eq!(decimal_text(1230), "1230");
    assert_eq!(int_to_text(-45), "-45");
    assert_eq!(int_to_text(i64::MIN), "-9223372036854775808");
}

#[test]
fn url_encoding_is_strict() {
    assert_eq!(url_encode("a b+c/~-_."), "a%20b%2Bc%2F~-_.");
    assert_eq!(url_encode("é"), "%C3%A9");
    assert_eq!(url_encode("2020-01-02T03:04:05.000Z"), "2020-01-02T03%3A04%3A05.000Z");
}

#[test]
fn query_joins_encoded_pairs() {
    assert_eq!(join_query(&vec![pair("a", "1 2"), pair("b", "=")]), "a=1%202&b=%3D");
    assert_eq!(join_query(&Vec::new()), "");
}

#[test]
fn signature_is_base64_of_hmac_sha256() {
    // HMAC-SHA256 with key "key" over the classic pangram.
    assert_eq!(
        sign_text("key", "The quick brown fox jumps over the lazy dog"),
        "97yD9DBThCSxMpjmqm+xQ+9NWaFJRhdZl0edvC0aPNg="
    );
}

#[test]
fn end_to_end_request_report() {
    let params = RequestReportParameters {
        ReportType: "X".to_string(),
        MarketplaceIdList: Some(vec!["A".to_string(), "B".to_string()]),
        ..Default::default()
    };
    let req = request_report_request(&client(), &params, &at()).unwrap();
    assert_eq!(req.url, "https://mws.amazonservices.com/");
    assert_eq!(
        req.body,
        "AWSAccessKeyId=AKIDEXAMPLE&Action=RequestReport&MarketplaceIdList.Id.1=A&MarketplaceIdList.Id.2=B\
&ReportType=X&SellerId=SELLER1&SignatureMethod=HmacSHA256&SignatureVersion=2\
&Timestamp=2020-01-02T03%3A04%3A05.000Z&Version=2009-01-01\
&Signature=%2FtcE7GkOD5wCiXT8aBLFZ7dlNKtzZJQeGqxMKou8fdA%3D"
    );
}

#[test]
fn same_inputs_sign_the_same_and_a_changed_value_does_not() {
    let params = RequestReportParameters { ReportType: "X".to_string(), ..Default::default() };
    let a = request_report_request(&client(), &params, &at()).unwrap();
    let b = request_report_request(&client(), &params, &at()).unwrap();
    assert_eq!(a.body, b.body);
    let other = RequestReportParameters { ReportType: "Y".to_string(), ..Default::default() };
    let c = request_report_request(&client(), &other, &at()).unwrap();
    let sig = |s: &str| s.rsplit("&Signature=").next().unwrap().to_string();
    assert_ne!(sig(&a.body), sig(&c.body));
}

#[test]
fn raw_pairs_pass_through() {
    let req = get_report_request(&client(), "123", &at());
    assert!(req.body.starts_with("AWSAccessKeyId=AKIDEXAMPLE&Action=GetReport&ReportId=123&"));
}

#[test]
fn invalid_dates_are_an_encoding_error() {
    let params = GetReportListParameters {
        AvailableFromDate: Some(UtcDateTime { year: 2020, month: 2, day: 30, hour: 0, minute: 0, second: 0, millisecond: 0 }),
        ..Default::default()
    };
    assert!(matches!(get_report_list_request(&client(), &params, &at()), Err(MwsError::Encoding(_))));
    let ok = GetReportListParameters { MaxCount: Some(10), Acknowledged: Some(false), ..Default::default() };
    let req = get_report_list_request(&client(), &ok, &at()).unwrap();
    assert!(req.body.contains("&Acknowledged=false&"));
    assert!(req.body.contains("&MaxCount=10&"));
}

#[test]
fn missing_credentials_are_a_configuration_error() {
    let r = Client::new(ClientOptions {
        endpoint: "mws.amazonservices.com".to_string(),
        seller_id: String::new(),
        mws_auth_token: None,
        aws_access_key_id: "AKIDEXAMPLE".to_string(),
        secret_key: "secret".to_string(),
    });
    assert!(matches!(r, Err(MwsError::Configuration(f)) if f == "seller_id"));
}

#[test]
fn dates_round_trip_through_iso8601() {
    let t = UtcDateTime::new(2009, 2, 20, 2, 10, 35, 7).unwrap();
    assert_eq!(t.to_iso8601(), "2009-02-20T02:10:35.007Z");
    assert_eq!(parse_iso8601("2009-02-20T02:10:35.007Z"), Some(t));
    assert_eq!(parse_iso8601("2009-02-20T02:10:35+00:00"), UtcDateTime::new(2009, 2, 20, 2, 10, 35, 0));
    assert_eq!(parse_iso8601("2009-02-30T02:10:35Z"), None);
    assert_eq!(parse_iso8601("2009-02-20T02:10:35+01:00"), None);
    assert!(UtcDateTime::new(2024, 2, 29, 0, 0, 0, 0).is_some());
    assert!(UtcDateTime::new(2023, 2, 29, 0, 0, 0, 0).is_none());
    assert!(UtcDateTime::new(2020, 1, 1, 24, 0, 0, 0).is_none());
}

#[test]
fn client_for_a_region_uses_its_endpoint() {
    let c = mws::client::get_client("jp", "S".to_string(), None, "K".to_string(), "X".to_string()).unwrap();
    assert_eq!(c.endpoint(), "mws.amazonservices.jp");
    let r = mws::client::get_client("xx", "S".to_string(), None, "K".to_string(), "X".to_string());
    assert!(matches!(r, Err(MwsError::Configuration(f)) if f == "region_id"));
    let r = mws::client::get_client("eu", "S".to_string(), None, String::new(), "X".to_string());
    assert!(matches!(r, Err(MwsError::Configuration(f)) if f == "aws_access_key_id"));
}

#[test]
fn auth_token_is_signed_when_present() {
    let c = mws::client::get_client("na", "S".to_string(), Some("amzn.mws.1".to_string()), "K".to_string(), "X".to_string()).unwrap();
    let req = get_report_request(&c, "1", &at());
    assert!(req.body.contains("&MWSAuthToken=amzn.mws.1&"));
}

#[test]
fn encoding_twice_gives_the_same_pairs() {
    let p = mws::products::GetMyPriceForASINParameters {
        MarketplaceId: "ATVPDKIKX0DER".to_string(),
        ASINList: vec!["B1".to_string(), "B2".to_string()],
        ItemCondition: Some(mws::products::ItemCondition::New),
    };
    assert_eq!(p.to_pairs(), p.to_pairs());
    assert_eq!(
        p.to_pairs(),
        vec![
            pair("MarketplaceId", "ATVPDKIKX0DER"),
            pair("ASINList.ASIN.1", "B1"),
            pair("ASINList.ASIN.2", "B2"),
            pair("ItemCondition", "New"),
        ]
    );
    assert!(GetReportListParameters::default().to_pairs().unwrap().is_empty());
}
