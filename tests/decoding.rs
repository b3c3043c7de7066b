use mws::client::{MwsError, ProtocolError, ServiceError};
use mws::datetime::UtcDateTime;
use mws::document::Document;
use mws::products::product::Price;
use mws::products::{ItemCondition, MoneyType, OfferCount};
use mws::reports::{
    get_report_list_envelope, get_report_list_response, get_report_response, get_report_schedule_count_response,
    ReportProcessingStatus, ReportRequestInfo,
};
use mws::response::{error_for_status, service_error_from};

#[test]
fn absent_fields_take_their_defaults() {
    let d = Document::parse("<GetReportListResponse><GetReportListResult/></GetReportListResponse>").unwrap();
    let e = get_report_list_envelope(&d).unwrap();
    assert!(e.payload.NextToken.is_none());
    assert!(e.payload.ReportInfo.is_empty());
    assert!(!e.payload.HasNext);
    assert_eq!(e.request_id, "");
}

#[test]
fn nested_records_decode_field_by_field() {
    let d = Document::parse(
        "<Offer><ListingPrice><CurrencyCode>USD</CurrencyCode><Amount>29.99</Amount></ListingPrice></Offer>",
    )
    .unwrap();
    let p = Price::from_xml(&d, Some(d.root())).unwrap();
    assert_eq!(p.ListingPrice, MoneyType { CurrencyCode: "USD".to_string(), Amount: "29.99".to_string() });
    assert_eq!(p.LandedPrice, MoneyType::default());
}

#[test]
fn attributes_and_text_content() {
    let d = Document::parse(r#"<OfferCount condition="new" fulfillmentChannel="Amazon">3</OfferCount>"#).unwrap();
    let c = OfferCount::from_xml(&d, Some(d.root())).unwrap();
    assert_eq!(c, OfferCount { Condition: "new".to_string(), FulfillmentChannel: "Amazon".to_string(), Value: 3 });
    let bad = Document::parse("<OfferCount>three</OfferCount>").unwrap();
    assert!(matches!(OfferCount::from_xml(&bad, Some(bad.root())), Err(ProtocolError::InvalidValue(_))));
}

#[test]
fn unknown_enum_values_are_kept() {
    let c = ItemCondition::from_wire("SlightlyDented");
    assert_eq!(c, ItemCondition::UnknownValue("SlightlyDented".to_string()));
    assert_eq!(c.to_string(), "SlightlyDented");
    assert_eq!(ItemCondition::from_wire("Used"), ItemCondition::Used);
    assert_eq!(ItemCondition::Club.to_string(), "Club");
    let s = ReportProcessingStatus::from_wire("_DONE_");
    assert_eq!(s, ReportProcessingStatus::_DONE_);
    assert_eq!(ReportProcessingStatus::default(), ReportProcessingStatus::UnknownValue(String::new()));
}

#[test]
fn report_list_with_items_and_dates() {
    let body = r#"<?xml version="1.0"?>
<GetReportListResponse xmlns="http://mws.amazonaws.com/doc/2009-01-01/">
  <GetReportListResult>
    <NextToken>2YgYW55IGNhcm5hbCBwbGVhc3VyZS4=</NextToken>
    <HasNext>true</HasNext>
    <ReportInfo>
      <ReportId>898899473</ReportId>
      <ReportType>_GET_MERCHANT_LISTINGS_DATA_</ReportType>
      <ReportRequestId>2278662938</ReportRequestId>
      <AvailableDate>2009-02-10T09:22:33+00:00</AvailableDate>
      <Acknowledged>false</Acknowledged>
    </ReportInfo>
    <ReportInfo>
      <ReportId>1</ReportId>
      <Acknowledged>true</Acknowledged>
    </ReportInfo>
  </GetReportListResult>
  <ResponseMetadata>
    <RequestId>fbf677c1-dcee-4110-bc88-2ba3702e331b</RequestId>
  </ResponseMetadata>
</GetReportListResponse>"#;
    let e = get_report_list_response(200, body).unwrap();
    assert_eq!(e.request_id, "fbf677c1-dcee-4110-bc88-2ba3702e331b");
    let p = e.into_inner();
    assert_eq!(p.NextToken, Some("2YgYW55IGNhcm5hbCBwbGVhc3VyZS4=".to_string()));
    assert!(p.HasNext);
    assert_eq!(p.ReportInfo.len(), 2);
    assert_eq!(p.ReportInfo[0].ReportId, "898899473");
    assert_eq!(p.ReportInfo[0].AvailableDate, UtcDateTime::new(2009, 2, 10, 9, 22, 33, 0));
    assert!(!p.ReportInfo[0].Acknowledged);
    assert!(p.ReportInfo[1].Acknowledged);
    assert_eq!(p.ReportInfo[1].AvailableDate, None);
}

#[test]
fn request_info_reads_its_status() {
    let d = Document::parse(
        "<ReportRequestInfo><ReportRequestId>7</ReportRequestId><Scheduled>false</Scheduled>\
<ReportProcessingStatus>_SUBMITTED_</ReportProcessingStatus></ReportRequestInfo>",
    )
    .unwrap();
    let r = ReportRequestInfo::from_xml(&d, Some(d.root())).unwrap();
    assert_eq!(r.ReportRequestId, "7");
    assert_eq!(r.ReportProcessingStatus, ReportProcessingStatus::_SUBMITTED_);
    assert_eq!(r.GeneratedReportId, None);
}

#[test]
fn wrong_outer_element_and_malformed_xml() {
    assert!(matches!(
        get_report_schedule_count_response(200, "<Other/>"),
        Err(MwsError::Protocol(ProtocolError::UnexpectedElement(_)))
    ));
    assert!(matches!(
        get_report_schedule_count_response(200, "<a><b></a>"),
        Err(MwsError::Protocol(ProtocolError::MalformedXml(_)))
    ));
    let ok = get_report_schedule_count_response(
        200,
        "<GetReportScheduleCountResponse><GetReportScheduleCountResult><Count>18</Count></GetReportScheduleCountResult></GetReportScheduleCountResponse>",
    )
    .unwrap();
    assert_eq!(ok.payload.Count, 18);
}

const THROTTLED: &str = "<ErrorResponse xmlns=\"http://mws.amazonaws.com/doc/2009-01-01/\"><Error><Type>Sender</Type>\
<Code>RequestThrottled</Code><Message>Request is throttled</Message></Error><RequestID>abc</RequestID></ErrorResponse>";

#[test]
fn throttling_is_retryable_and_access_denied_is_not() {
    let e = error_for_status(503, THROTTLED);
    assert!(e.is_retryable());
    match &e {
        MwsError::Service(s) => {
            assert_eq!(s.code, "RequestThrottled");
            assert_eq!(s.message, "Request is throttled");
            assert_eq!(s.error_type, "Sender");
            assert_eq!(s.request_id, "abc");
        }
        _ => panic!("not a service error"),
    }
    let d = Document::parse(THROTTLED).unwrap();
    assert!(MwsError::Service(service_error_from(400, &d)).is_retryable());
    let denied = MwsError::Service(ServiceError {
        status: 401,
        error_type: "Sender".to_string(),
        code: "AccessDenied".to_string(),
        message: String::new(),
        request_id: String::new(),
    });
    assert!(!denied.is_retryable());
    assert!(error_for_status(500, "not xml").is_retryable());
    assert!(!MwsError::Transport("timed out".to_string()).is_retryable());
    assert!(matches!(get_report_list_response(403, "<ErrorResponse/>"), Err(MwsError::Service(s)) if s.status == 403));
}

#[test]
fn report_body_needs_its_checksum_header() {
    assert_eq!(get_report_response(200, Some("abc==".to_string()), "").unwrap(), "abc==");
    assert!(matches!(
        get_report_response(200, None, ""),
        Err(MwsError::Protocol(ProtocolError::ContentMD5HeaderMissing))
    ));
    assert!(matches!(get_report_response(404, None, ""), Err(MwsError::Service(_))));
}

#[test]
fn lowest_priced_offers_envelope() {
    let body = r#"<GetLowestPricedOffersForSKUResponse xmlns="http://mws.amazonservices.com/schema/Products/2011-10-01">
  <GetLowestPricedOffersForSKUResult MarketplaceID="A1F83G8C2ARO7P" SKU="sku-1" ItemCondition="New" status="Success">
    <Identifier>
      <MarketplaceId>A1F83G8C2ARO7P</MarketplaceId>
      <SellerSKU>sku-1</SellerSKU>
      <ItemCondition>Mint</ItemCondition>
      <TimeOfOfferChange>2017-03-01T10:20:30.000Z</TimeOfOfferChange>
    </Identifier>
    <Summary><TotalOfferCount>2</TotalOfferCount></Summary>
    <Offers>
      <Offer>
        <MyOffer>true</MyOffer>
        <ShippingTime minimumHours="0" maximumHours="0" availabilityType="SOON" availabilityDate="2017-03-02T00:00:00Z"/>
        <IsFulfilledByAmazon>true</IsFulfilledByAmazon>
      </Offer>
    </Offers>
  </GetLowestPricedOffersForSKUResult>
  <ResponseMetadata><RequestId>r-1</RequestId></ResponseMetadata>
</GetLowestPricedOffersForSKUResponse>"#;
    let e = mws::products::get_lowest_priced_offers_for_sku_response(200, body).unwrap();
    assert_eq!(e.request_id, "r-1");
    let p = e.payload;
    assert_eq!(p.Identifier.SellerSKU, "sku-1");
    assert_eq!(p.Identifier.ItemCondition, ItemCondition::UnknownValue("Mint".to_string()));
    assert_eq!(p.Identifier.ItemCondition.to_string(), "Mint");
    assert_eq!(p.Identifier.TimeOfOfferChange, UtcDateTime::new(2017, 3, 1, 10, 20, 30, 0));
    assert_eq!(p.Summary.TotalOfferCount, 2);
    assert_eq!(p.Offers.len(), 1);
    assert!(p.Offers[0].MyOffer);
    assert!(p.Offers[0].IsFulfilledByAmazon);
    assert_eq!(p.Offers[0].ShippingTime.MinimumHours, Some(0));
    assert_eq!(
        p.Offers[0].ShippingTime.AvailabilityType,
        Some(mws::products::AvailabilityType::UnknownValue("SOON".to_string()))
    );
    assert_eq!(p.Offers[0].ShippingTime.AvailableDate, UtcDateTime::new(2017, 3, 2, 0, 0, 0, 0));
}

#[test]
fn last_occurrence_of_a_field_wins_and_unknown_children_are_skipped() {
    let d = Document::parse("<M><Amount>1</Amount><Extra><Amount>9</Amount></Extra><Amount>2</Amount></M>").unwrap();
    let m = MoneyType::from_xml(&d, Some(d.root())).unwrap();
    assert_eq!(m.Amount, "2");
    assert_eq!(m.CurrencyCode, "");
}

#[test]
fn second_root_is_refused() {
    assert!(Document::parse("<a/><b/>").is_err());
    assert!(Document::parse("").is_err());
}

#[test]
fn content_md5_of_a_body() {
    // base64 of the MD5 digest of "hello world".
    assert_eq!(mws::response::content_md5(b"hello world"), "XrY7u+Ae7tCTyyK7j1rNww==");
    assert!(mws::response::content_md5_matches(b"hello world", "XrY7u+Ae7tCTyyK7j1rNww=="));
    assert!(!mws::response::content_md5_matches(b"hello world!", "XrY7u+Ae7tCTyyK7j1rNww=="));
}
