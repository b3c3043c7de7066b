use mws::document::Document;
use mws::products::product;
use mws::products::{
    get_matching_product_for_id_envelope, get_my_price_for_asin_envelope, AvailabilityType, BuyBoxPrice, DecimalWithUnits, Dimension, Offer, SellerFeedbackRating, ShippingTime, ShipsFrom,
    GetMatchingProductForIdResult, GetMyPriceForASINResult, Image, ItemAttributes, ItemCondition, Language,
    LowestPrice, MoneyType, OfferCount, Product, SalesRank, Summary,
};

#[test]
#[allow(non_snake_case)]
fn test_summary() {
    let text = format!("<Summary>{}</Summary>", r#"
        <TotalOfferCount>9</TotalOfferCount>
        <NumberOfOffers>
            <OfferCount condition="new" fulfillmentChannel="Amazon">3</OfferCount>
            <OfferCount condition="new" fulfillmentChannel="Merchant">6</OfferCount>
        </NumberOfOffers>
        <LowestPrices>
            <LowestPrice condition="new" fulfillmentChannel="Amazon">
                <LandedPrice>
                    <CurrencyCode>GBP</CurrencyCode>
                    <Amount>239.99</Amount>
                </LandedPrice>
                <ListingPrice>
                    <CurrencyCode>GBP</CurrencyCode>
                    <Amount>239.99</Amount>
                </ListingPrice>
                <Shipping>
                    <CurrencyCode>GBP</CurrencyCode>
                    <Amount>0.00</Amount>
                </Shipping>
            </LowestPrice>
            <LowestPrice condition="new" fulfillmentChannel="Merchant">
                <LandedPrice>
                    <CurrencyCode>GBP</CurrencyCode>
                    <Amount>239.95</Amount>
                </LandedPrice>
                <ListingPrice>
                    <CurrencyCode>GBP</CurrencyCode>
                    <Amount>239.95</Amount>
                </ListingPrice>
                <Shipping>
                    <CurrencyCode>GBP</CurrencyCode>
                    <Amount>0.00</Amount>
                </Shipping>
            </LowestPrice>
        </LowestPrices>
        <BuyBoxPrices>
            <BuyBoxPrice condition="New">
                <LandedPrice>
                    <CurrencyCode>GBP</CurrencyCode>
                    <Amount>239.99</Amount>
                </LandedPrice>
                <ListingPrice>
                    <CurrencyCode>GBP</CurrencyCode>
                    <Amount>239.99</Amount>
                </ListingPrice>
                <Shipping>
                    <CurrencyCode>GBP</CurrencyCode>
                    <Amount>0.00</Amount>
                </Shipping>
            </BuyBoxPrice>
        </BuyBoxPrices>
        <BuyBoxEligibleOffers>
            <OfferCount condition="new" fulfillmentChannel="Amazon">3</OfferCount>
            <OfferCount condition="new" fulfillmentChannel="Merchant">3</OfferCount>
        </BuyBoxEligibleOffers>
      "#);
    let d = Document::parse(&text).unwrap();
    let decoded = Summary::from_xml(&d, Some(d.root())).unwrap();
    assert_eq!(
        decoded,
        Summary {
        TotalOfferCount: 9,
        NumberOfOffers: vec![
          OfferCount {
            Condition: "new".to_string(),
            FulfillmentChannel: "Amazon".to_string(),
            Value: 3,
          },
          OfferCount {
            Condition: "new".to_string(),
            FulfillmentChannel: "Merchant".to_string(),
            Value: 6,
          },
        ],
        LowestPrices: vec![
          LowestPrice {
            Condition: "new".to_string(),
            FulfillmentChannel: "Amazon".to_string(),
            LandedPrice: MoneyType {
              CurrencyCode: "GBP".to_string(),
              Amount: "239.99".to_string(),
            },
            ListingPrice: MoneyType {
              CurrencyCode: "GBP".to_string(),
              Amount: "239.99".to_string(),
            },
            Shipping: MoneyType {
              CurrencyCode: "GBP".to_string(),
              Amount: "0.00".to_string(),
            },
            Points: None,
          },
          LowestPrice {
            Condition: "new".to_string(),
            FulfillmentChannel: "Merchant".to_string(),
            LandedPrice: MoneyType {
              CurrencyCode: "GBP".to_string(),
              Amount: "239.95".to_string(),
            },
            ListingPrice: MoneyType {
              CurrencyCode: "GBP".to_string(),
              Amount: "239.95".to_string(),
            },
            Shipping: MoneyType {
              CurrencyCode: "GBP".to_string(),
              Amount: "0.00".to_string(),
            },
            Points: None,
          }
        ],
        BuyBoxPrices: vec![BuyBoxPrice {
          Condition: "New".to_string(),
          LandedPrice: MoneyType {
            CurrencyCode: "GBP".to_string(),
            Amount: "239.99".to_string(),
          },
          ListingPrice: MoneyType {
            CurrencyCode: "GBP".to_string(),
            Amount: "239.99".to_string(),
          },
          Shipping: MoneyType {
            CurrencyCode: "GBP".to_string(),
            Amount: "0.00".to_string(),
          },
        },],
        BuyBoxEligibleOffers: vec![
          OfferCount {
            Condition: "new".to_string(),
            FulfillmentChannel: "Amazon".to_string(),
            Value: 3,
          },
          OfferCount {
            Condition: "new".to_string(),
            FulfillmentChannel: "Merchant".to_string(),
            Value: 3,
          },
        ],
      }
    );
}

#[test]
#[allow(non_snake_case)]
fn test_offer() {
    let text = format!("<Offer>{}</Offer>", r#"
        <MyOffer>false</MyOffer>
        <SubCondition>new</SubCondition>
        <SellerFeedbackRating>
            <SellerPositiveFeedbackRating>95.0</SellerPositiveFeedbackRating>
            <FeedbackCount>618</FeedbackCount>
        </SellerFeedbackRating>
        <ShippingTime minimumHours="24" maximumHours="24" availabilityType="NOW"/>
        <ListingPrice>
            <CurrencyCode>GBP</CurrencyCode>
            <Amount>239.95</Amount>
        </ListingPrice>
        <Shipping>
            <CurrencyCode>GBP</CurrencyCode>
            <Amount>0.00</Amount>
        </Shipping>
        <ShipsFrom>
            <Country>GB</Country>
        </ShipsFrom>
        <IsFulfilledByAmazon>false</IsFulfilledByAmazon>
        <IsBuyBoxWinner>false</IsBuyBoxWinner>
        <IsFeaturedMerchant>true</IsFeaturedMerchant>
      "#);
    let d = Document::parse(&text).unwrap();
    let decoded = Offer::from_xml(&d, Some(d.root())).unwrap();
    assert_eq!(
        decoded,
        Offer {
        MyOffer: false,
        SubCondition: "new".to_string(),
        SellerFeedbackRating: SellerFeedbackRating {
          SellerPositiveFeedbackRating: Some("95.0".to_string()),
          FeedbackCount: 618,
        },
        ShippingTime: ShippingTime {
          MinimumHours: Some(24),
          MaximumHours: Some(24),
          AvailableDate: None,
          AvailabilityType: Some(AvailabilityType::NOW),
        },
        ListingPrice: MoneyType {
          CurrencyCode: "GBP".to_string(),
          Amount: "239.95".to_string(),
        },
        Shipping: MoneyType {
          CurrencyCode: "GBP".to_string(),
          Amount: "0.00".to_string(),
        },
        ShipsFrom: Some(ShipsFrom {
          Country: "GB".to_string(),
          ..Default::default()
        }),
        IsFulfilledByAmazon: false,
        IsBuyBoxWinner: false,
        IsFeaturedMerchant: true,
      }
    );
}

#[test]
#[allow(non_snake_case)]
fn test_product() {
    let d = Document::parse(r#"
            <Product xmlns="http://mws.amazonservices.com/schema/Products/2011-10-01" xmlns:ns2="http://mws.amazonservices.com/schema/Products/2011-10-01/default.xsd">
                <Identifiers>
                  <MarketplaceASIN>
                    <MarketplaceId>ATVPDKIKX0DER</MarketplaceId>
                    <ASIN>1933988665</ASIN>
                  </MarketplaceASIN>
                </Identifiers>
                <AttributeSets>
                    <ItemAttributes xml:lang="en-US">
                        <Author>Marmanis, Haralambos</Author>
                        <Author>Babenko, Dmitry</Author>
                        <Binding>Paperback</Binding>
                        <Edition>1</Edition>
                        <ItemDimensions>
                            <Height Units="inches">9.17</Height>
                            <Length Units="inches">7.36</Length>
                            <Width Units="inches">0.75</Width>
                            <Weight Units="pounds">1.40</Weight>
                        </ItemDimensions>
                        <IsEligibleForTradeIn>true</IsEligibleForTradeIn>
                        <Label>Manning Publications</Label>
                        <Languages>
                            <Language>
                                <Name>english</Name>
                                <Type>Unknown</Type>
                            </Language>
                            <Language>
                                <Name>english</Name>
                                <Type>Original Language</Type>
                            </Language>
                            <Language>
                                <Name>english</Name>
                                <Type>Published</Type>
                            </Language>
                        </Languages>
                        <ListPrice>
                            <Amount>44.99</Amount>
                            <CurrencyCode>USD</CurrencyCode>
                        </ListPrice>
                        <Manufacturer>Manning Publications</Manufacturer>
                        <NumberOfItems>1</NumberOfItems>
                        <NumberOfPages>368</NumberOfPages>
                        <PackageDimensions>
                            <Height Units="inches">0.80</Height>
                            <Length Units="inches">9.10</Length>
                            <Width Units="inches">7.30</Width>
                            <Weight Units="pounds">1.35</Weight>
                        </PackageDimensions>
                        <ProductGroup>Book</ProductGroup>
                        <ProductTypeName>ABIS_BOOK</ProductTypeName>
                        <PublicationDate>2009-07-05</PublicationDate>
                        <Publisher>Manning Publications</Publisher>
                        <SmallImage>
                            <URL>
                                http://ecx.images-amazon.com/images/I/51EEz05N2HL._SL75_.jpg
                            </URL>
                            <Height Units="pixels">75</Height>
                            <Width Units="pixels">60</Width>
                        </SmallImage>
                        <Studio>Manning Publications</Studio>
                        <Title>Algorithms of the Intelligent Web</Title>
                    </ItemAttributes>
                </AttributeSets>
                <Relationships/>
                <SalesRankings>
                    <SalesRank>
                        <ProductCategoryId>book_display_on_website</ProductCategoryId>
                        <Rank>59485</Rank>
                    </SalesRank>
                    <SalesRank>
                        <ProductCategoryId>377886011</ProductCategoryId>
                        <Rank>32</Rank>
                    </SalesRank>
                    <SalesRank>
                        <ProductCategoryId>3887</ProductCategoryId>
                        <Rank>66</Rank>
                    </SalesRank>
                    <SalesRank>
                        <ProductCategoryId>3870</ProductCategoryId>
                        <Rank>82</Rank>
                    </SalesRank>
                </SalesRankings>
            </Product>
    "#).unwrap();
    let decoded = Product::from_xml(&d, Some(d.root())).unwrap();
    assert_eq!(
        decoded,
        Product {
      Identifiers: product::Identifiers {
        MarketplaceASIN: Some(product::MarketplaceASIN{
          MarketplaceId: "ATVPDKIKX0DER".to_string(),
          ASIN: "1933988665".to_string()
        }),
        ..Default::default()
      },
      AttributeSets: vec![
        ItemAttributes {
          Language: Some("en-US".to_string()),
          Author: vec![
            "Marmanis, Haralambos".to_string(),
            "Babenko, Dmitry".to_string()
          ],
          Binding: Some("Paperback".to_string()),
          Edition: Some("1".to_string()),
          ItemDimensions: Some(Dimension{
            Height: Some(DecimalWithUnits{
              Value: "9.17".to_string(),
              Units: "inches".to_string(),
            }),
            Length: Some(DecimalWithUnits{
              Value: "7.36".to_string(),
              Units: "inches".to_string()
            }),
            Width: Some(DecimalWithUnits{
              Value: "0.75".to_string(),
              Units: "inches".to_string()
            }),
            Weight: Some(DecimalWithUnits{
              Value: "1.40".to_string(),
              Units: "pounds".to_string()
            })
          }),
          IsEligibleForTradeIn: Some(true),
          Label: Some("Manning Publications".to_string()),
          Languages: vec![
            Language{
              Name: "english".to_string(),
              Type: Some("Unknown".to_string()),
              ..Default::default()
            },
            Language{
              Name: "english".to_string(),
              Type: Some("Original Language".to_string()),
              ..Default::default()
            },
            Language{
              Name: "english".to_string(),
              Type: Some("Published".to_string()),
              ..Default::default()
            }
          ],
          ListPrice: Some(MoneyType{
            Amount: "44.99".to_string(),
            CurrencyCode: "USD".to_string()
          }),
          Manufacturer: Some("Manning Publications".to_string()),
          NumberOfItems: Some(1),
          NumberOfPages: Some(368),
          PackageDimensions: Some(Dimension{
            Height: Some(DecimalWithUnits{
              Value: "0.80".to_string(),
              Units: "inches".to_string()
            }),
            Length: Some(DecimalWithUnits{
              Value: "9.10".to_string(),
              Units: "inches".to_string()
            }),
            Width: Some(DecimalWithUnits{
              Value: "7.30".to_string(),
              Units: "inches".to_string()
            }),
            Weight: Some(DecimalWithUnits{
              Value: "1.35".to_string(),
              Units: "pounds".to_string()
            })
          }),
          ProductGroup: Some("Book".to_string()),
          ProductTypeName: Some("ABIS_BOOK".to_string()),
          PublicationDate: Some("2009-07-05".to_string()),
          Publisher: Some("Manning Publications".to_string()),
          SmallImage: Some(Image{
            URL: "http://ecx.images-amazon.com/images/I/51EEz05N2HL._SL75_.jpg".to_string(),
            Height: DecimalWithUnits {
              Value: "75".to_string(),
              Units: "pixels".to_string()
            },
            Width: DecimalWithUnits {
              Value: "60".to_string(),
              Units: "pixels".to_string()
            }
          }),
          Studio: Some("Manning Publications".to_string()),
          Title: Some("Algorithms of the Intelligent Web".to_string()),
          ..Default::default()
        }
      ],
      SalesRankings: vec![
        SalesRank {
          ProductCategoryId: "book_display_on_website".to_string(),
          Rank: 59485
        },
        SalesRank {
          ProductCategoryId: "377886011".to_string(),
          Rank: 32
        },
        SalesRank {
          ProductCategoryId: "3887".to_string(),
          Rank: 66
        },
        SalesRank {
          ProductCategoryId: "3870".to_string(),
          Rank: 82
        }
      ],
      ..Default::default()
    }
    );
}

#[test]
#[allow(non_snake_case)]
fn test_get_my_price_for_sku_response() {
    let d = Document::parse(r#"
        <GetMyPriceForASINResponse xmlns="http://mws.amazonservices.com/schema/Products/2011-10-01">
          <GetMyPriceForASINResult ASIN="B073000000" status="Success">
            <Product xmlns:ns2="http://mws.amazonservices.com/schema/Products/2011-10-01/default.xsd">
              <Identifiers>
                <MarketplaceASIN>
                  <MarketplaceId>ATVPDKIKX0DER</MarketplaceId>
                  <ASIN>B073000000</ASIN>
                </MarketplaceASIN>
              </Identifiers>
              <Offers>
                <Offer>
                  <BuyingPrice>
                    <LandedPrice>
                      <CurrencyCode>USD</CurrencyCode>
                      <Amount>29.99</Amount>
                    </LandedPrice>
                    <ListingPrice>
                      <CurrencyCode>USD</CurrencyCode>
                      <Amount>29.99</Amount>
                    </ListingPrice>
                    <Shipping>
                      <CurrencyCode>USD</CurrencyCode>
                      <Amount>0.00</Amount>
                    </Shipping>
                  </BuyingPrice>
                  <RegularPrice>
                    <CurrencyCode>USD</CurrencyCode>
                    <Amount>29.99</Amount>
                  </RegularPrice>
                  <FulfillmentChannel>AMAZON</FulfillmentChannel>
                  <ItemCondition>New</ItemCondition>
                  <ItemSubCondition>New</ItemSubCondition>
                  <SellerId>A23AS800000000</SellerId>
                  <SellerSKU>sku</SellerSKU>
                </Offer>
                <Offer>
                  <BuyingPrice>
                    <LandedPrice>
                      <CurrencyCode>USD</CurrencyCode>
                      <Amount>29.99</Amount>
                    </LandedPrice>
                    <ListingPrice>
                      <CurrencyCode>USD</CurrencyCode>
                      <Amount>29.99</Amount>
                    </ListingPrice>
                    <Shipping>
                      <CurrencyCode>USD</CurrencyCode>
                      <Amount>0.00</Amount>
                    </Shipping>
                  </BuyingPrice>
                  <RegularPrice>
                    <CurrencyCode>USD</CurrencyCode>
                    <Amount>29.99</Amount>
                  </RegularPrice>
                  <FulfillmentChannel>MERCHANT</FulfillmentChannel>
                  <ItemCondition>New</ItemCondition>
                  <ItemSubCondition>New</ItemSubCondition>
                  <SellerId>A23AS800000000</SellerId>
                  <SellerSKU>sku-fbm</SellerSKU>
                </Offer>
              </Offers>
            </Product>
          </GetMyPriceForASINResult>
          <GetMyPriceForASINResult ASIN="B073000001" status="Success">
            <Product xmlns:ns2="http://mws.amazonservices.com/schema/Products/2011-10-01/default.xsd">
              <Identifiers>
                <MarketplaceASIN>
                  <MarketplaceId>ATVPDKIKX0DER</MarketplaceId>
                  <ASIN>B073000001</ASIN>
                </MarketplaceASIN>
              </Identifiers>
              <Offers/>
            </Product>
          </GetMyPriceForASINResult>
          <ResponseMetadata>
            <RequestId>3e353f76-2ef6-442e-a714-6bbc26f96626</RequestId>
          </ResponseMetadata>
        </GetMyPriceForASINResponse>
      "#).unwrap();
    let decoded = get_my_price_for_asin_envelope(&d).unwrap();
    assert_eq!(
        decoded.into_inner(),
        vec![
        GetMyPriceForASINResult {
          ASIN: "B073000000".to_string(),
          Status: "Success".to_string(),
          Product: product::Product {
            Identifiers: product::Identifiers {
              MarketplaceASIN: Some(product::MarketplaceASIN {
                MarketplaceId: "ATVPDKIKX0DER".to_string(),
                ASIN: "B073000000".to_string(),
              }),
              ..Default::default()
            },
            Offers: vec![
              product::Offer {
                BuyingPrice: product::Price {
                  LandedPrice: MoneyType {
                    CurrencyCode: "USD".to_string(),
                    Amount: "29.99".to_string(),
                  },
                  ListingPrice: MoneyType {
                    CurrencyCode: "USD".to_string(),
                    Amount: "29.99".to_string(),
                  },
                  Shipping: MoneyType {
                    CurrencyCode: "USD".to_string(),
                    Amount: "0.00".to_string(),
                  },
                },
                RegularPrice: MoneyType {
                  CurrencyCode: "USD".to_string(),
                  Amount: "29.99".to_string(),
                },
                FulfillmentChannel: "AMAZON".to_string(),
                ItemCondition: ItemCondition::New,
                ItemSubCondition: "New".to_string(),
                SellerId: "A23AS800000000".to_string(),
                SellerSKU: "sku".to_string(),
              },
              product::Offer {
                BuyingPrice: product::Price {
                  LandedPrice: MoneyType {
                    CurrencyCode: "USD".to_string(),
                    Amount: "29.99".to_string(),
                  },
                  ListingPrice: MoneyType {
                    CurrencyCode: "USD".to_string(),
                    Amount: "29.99".to_string(),
                  },
                  Shipping: MoneyType {
                    CurrencyCode: "USD".to_string(),
                    Amount: "0.00".to_string(),
                  },
                },
                RegularPrice: MoneyType {
                  CurrencyCode: "USD".to_string(),
                  Amount: "29.99".to_string(),
                },
                FulfillmentChannel: "MERCHANT".to_string(),
                ItemCondition: ItemCondition::New,
                ItemSubCondition: "New".to_string(),
                SellerId: "A23AS800000000".to_string(),
                SellerSKU: "sku-fbm".to_string(),
              }
            ],
            ..Default::default()
          }
        },
        GetMyPriceForASINResult {
          ASIN: "B073000001".to_string(),
          Status: "Success".to_string(),
          Product: product::Product {
            Identifiers: product::Identifiers {
              MarketplaceASIN: Some(product::MarketplaceASIN {
                MarketplaceId: "ATVPDKIKX0DER".to_string(),
                ASIN: "B073000001".to_string(),
              }),
              ..Default::default()
            },
            Offers: vec![],
            ..Default::default()
          }
        }
      ]
    );
}

#[test]
#[allow(non_snake_case)]
fn test_get_matching_product_for_id_response() {
    let d = Document::parse(r#"
<GetMatchingProductForIdResponse
    xmlns="http://mws.amazonservices.com/schema/Products/2011-10-01">
    <GetMatchingProductForIdResult Id="9781933988665"
        IdType="ISBN"
        status="Success">
        <Products xmlns="http://mws.amazonservices.com/schema/Products/2011-10-01"
            xmlns:ns2="http://mws.amazonservices.com/schema/Products/2011-10-01/default.xsd">
            <Product>
                <Identifiers>
                    <MarketplaceASIN>
                        <MarketplaceId>ATVPDKIKX0DER</MarketplaceId>
                        <ASIN>1933988665</ASIN>
                    </MarketplaceASIN>
                </Identifiers>
                <AttributeSets>
                    <ns2:ItemAttributes xml:lang="en-US">
                        <ns2:Author>Marmanis, Haralambos</ns2:Author>
                        <ns2:Author>Babenko, Dmitry</ns2:Author>
                        <ns2:Binding>Paperback</ns2:Binding>
                        <ns2:Edition>1</ns2:Edition>
                        <ns2:ItemDimensions>
                            <ns2:Height Units="inches">9.17</ns2:Height>
                            <ns2:Length Units="inches">7.36</ns2:Length>
                            <ns2:Width Units="inches">0.75</ns2:Width>
                            <ns2:Weight Units="pounds">1.40</ns2:Weight>
                        </ns2:ItemDimensions>
                        <ns2:IsEligibleForTradeIn>true</ns2:IsEligibleForTradeIn>
                        <ns2:Label>Manning Publications</ns2:Label>
                        <ns2:Languages>
                            <ns2:Language>
                                <ns2:Name>english</ns2:Name>
                                <ns2:Type>Unknown</ns2:Type>
                            </ns2:Language>
                            <ns2:Language>
                                <ns2:Name>english</ns2:Name>
                                <ns2:Type>Original Language</ns2:Type>
                            </ns2:Language>
                            <ns2:Language>
                                <ns2:Name>english</ns2:Name>
                                <ns2:Type>Published</ns2:Type>
                            </ns2:Language>
                        </ns2:Languages>
                        <ns2:ListPrice>
                            <ns2:Amount>44.99</ns2:Amount>
                            <ns2:CurrencyCode>USD</ns2:CurrencyCode>
                        </ns2:ListPrice>
                        <ns2:Manufacturer>Manning Publications</ns2:Manufacturer>
                        <ns2:NumberOfItems>1</ns2:NumberOfItems>
                        <ns2:NumberOfPages>368</ns2:NumberOfPages>
                        <ns2:PackageDimensions>
                            <ns2:Height Units="inches">0.80</ns2:Height>
                            <ns2:Length Units="inches">9.10</ns2:Length>
                            <ns2:Width Units="inches">7.30</ns2:Width>
                            <ns2:Weight Units="pounds">1.35</ns2:Weight>
                        </ns2:PackageDimensions>
                        <ns2:ProductGroup>Book</ns2:ProductGroup>
                        <ns2:ProductTypeName>ABIS_BOOK</ns2:ProductTypeName>
                        <ns2:PublicationDate>2009-07-05</ns2:PublicationDate>
                        <ns2:Publisher>Manning Publications</ns2:Publisher>
                        <ns2:SmallImage>
                            <ns2:URL>
                                http://ecx.images-amazon.com/images/I/51EEz05N2HL._SL75_.jpg
                            </ns2:URL>
                            <ns2:Height Units="pixels">75</ns2:Height>
                            <ns2:Width Units="pixels">60</ns2:Width>
                        </ns2:SmallImage>
                        <ns2:Studio>Manning Publications</ns2:Studio>
                        <ns2:Title>Algorithms of the Intelligent Web</ns2:Title>
                    </ns2:ItemAttributes>
                </AttributeSets>
                <Relationships/>
                <SalesRankings>
                    <SalesRank>
                        <ProductCategoryId>book_display_on_website</ProductCategoryId>
                        <Rank>59485</Rank>
                    </SalesRank>
                    <SalesRank>
                        <ProductCategoryId>377886011</ProductCategoryId>
                        <Rank>32</Rank>
                    </SalesRank>
                    <SalesRank>
                        <ProductCategoryId>3887</ProductCategoryId>
                        <Rank>66</Rank>
                    </SalesRank>
                    <SalesRank>
                        <ProductCategoryId>3870</ProductCategoryId>
                        <Rank>82</Rank>
                    </SalesRank>
                </SalesRankings>
            </Product>
        </Products>
    </GetMatchingProductForIdResult>
    </GetMatchingProductForIdResponse>
       "#).unwrap();
    let decoded = get_matching_product_for_id_envelope(&d).unwrap();
    assert_eq!(
        decoded.into_inner(),
        vec![
       GetMatchingProductForIdResult {
        Id: "9781933988665".to_string(),
        IdType: "ISBN".to_string(),
        Status: "Success".to_string(),
        Products: vec![
          Product {
            Identifiers: product::Identifiers {
              MarketplaceASIN: Some(product::MarketplaceASIN{
                MarketplaceId: "ATVPDKIKX0DER".to_string(),
                ASIN: "1933988665".to_string()
              }),
              ..Default::default()
            },
            AttributeSets: vec![
              ItemAttributes {
                Language: Some("en-US".to_string()),
                Author: vec![
                  "Marmanis, Haralambos".to_string(),
                  "Babenko, Dmitry".to_string()
                ],
                Binding: Some("Paperback".to_string()),
                Edition: Some("1".to_string()),
                ItemDimensions: Some(Dimension{
                  Height: Some(DecimalWithUnits{
                    Value: "9.17".to_string(),
                    Units: "inches".to_string(),
                  }),
                  Length: Some(DecimalWithUnits{
                    Value: "7.36".to_string(),
                    Units: "inches".to_string()
                  }),
                  Width: Some(DecimalWithUnits{
                    Value: "0.75".to_string(),
                    Units: "inches".to_string()
                  }),
                  Weight: Some(DecimalWithUnits{
                    Value: "1.40".to_string(),
                    Units: "pounds".to_string()
                  })
                }),
                IsEligibleForTradeIn: Some(true),
                Label: Some("Manning Publications".to_string()),
                Languages: vec![
                  Language{
                    Name: "english".to_string(),
                    Type: Some("Unknown".to_string()),
                    ..Default::default()
                  },
                  Language{
                    Name: "english".to_string(),
                    Type: Some("Original Language".to_string()),
                    ..Default::default()
                  },
                  Language{
                    Name: "english".to_string(),
                    Type: Some("Published".to_string()),
                    ..Default::default()
                  }
                ],
                ListPrice: Some(MoneyType{
                  Amount: "44.99".to_string(),
                  CurrencyCode: "USD".to_string()
                }),
                Manufacturer: Some("Manning Publications".to_string()),
                NumberOfItems: Some(1),
                NumberOfPages: Some(368),
                PackageDimensions: Some(Dimension{
                  Height: Some(DecimalWithUnits{
                    Value: "0.80".to_string(),
                    Units: "inches".to_string()
                  }),
                  Length: Some(DecimalWithUnits{
                    Value: "9.10".to_string(),
                    Units: "inches".to_string()
                  }),
                  Width: Some(DecimalWithUnits{
                    Value: "7.30".to_string(),
                    Units: "inches".to_string()
                  }),
                  Weight: Some(DecimalWithUnits{
                    Value: "1.35".to_string(),
                    Units: "pounds".to_string()
                  })
                }),
                ProductGroup: Some("Book".to_string()),
                ProductTypeName: Some("ABIS_BOOK".to_string()),
                PublicationDate: Some("2009-07-05".to_string()),
                Publisher: Some("Manning Publications".to_string()),
                SmallImage: Some(Image{
                  URL: "http://ecx.images-amazon.com/images/I/51EEz05N2HL._SL75_.jpg".to_string(),
                  Height: DecimalWithUnits {
                    Value: "75".to_string(),
                    Units: "pixels".to_string()
                  },
                  Width: DecimalWithUnits {
                    Value: "60".to_string(),
                    Units: "pixels".to_string()
                  }
                }),
                Studio: Some("Manning Publications".to_string()),
                Title: Some("Algorithms of the Intelligent Web".to_string()),
                ..Default::default()
              }
            ],
            SalesRankings: vec![
              SalesRank {
                ProductCategoryId: "book_display_on_website".to_string(),
                Rank: 59485
              },
              SalesRank {
                ProductCategoryId: "377886011".to_string(),
                Rank: 32
              },
              SalesRank {
                ProductCategoryId: "3887".to_string(),
                Rank: 66
              },
              SalesRank {
                ProductCategoryId: "3870".to_string(),
                Rank: 82
              }
            ],
            ..Default::default()
          }
        ]
       }
       ]
    );
}
