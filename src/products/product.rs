//! The records of a product as the Products API returns it.
use vstd::prelude::*;
use crate::document::{child_named, child_text, positions, ref_view, valid_ref, wrapped_children, Document};
use crate::client::ProtocolError;
use crate::document::TreeState;
use super::{item_attributes_all_are, item_attributes_all_ok, item_attributes_list_from_xml, item_condition_is, money_type_is, money_type_ok, sales_rank_all_are, sales_rank_all_ok, sales_rank_list_from_xml, ItemAttributes, ItemCondition, MoneyType, SalesRank};

verus! {

/// The identifiers of a product.
#[allow(non_snake_case)]
#[derive(Clone, Debug, Default, PartialEq)]
pub struct Identifiers {
    pub MarketplaceASIN: Option<MarketplaceASIN>,
    pub SKUIdentifier: Option<SKUIdentifier>,
}

/// Whether every field of a `Identifiers` read from element `n` has a value of its type.
pub open spec fn identifiers_ok(d: TreeState, n: Option<int>) -> bool {
    &&& (child_named(d, n, "MarketplaceASIN"@) is Some ==> marketplace_asin_ok(d, child_named(d, n, "MarketplaceASIN"@)))
    &&& (child_named(d, n, "SKUIdentifier"@) is Some ==> sku_identifier_ok(d, child_named(d, n, "SKUIdentifier"@)))
}

/// Whether `v` is the `Identifiers` read from element `n`; an absent element gives
/// every field its default.
pub open spec fn identifiers_is(v: Identifiers, d: TreeState, n: Option<int>) -> bool {
    &&& (v.MarketplaceASIN is None <==> child_named(d, n, "MarketplaceASIN"@) is None)
    &&& (v.MarketplaceASIN matches Some(x) ==> marketplace_asin_is(x, d, child_named(d, n, "MarketplaceASIN"@)))
    &&& (v.SKUIdentifier is None <==> child_named(d, n, "SKUIdentifier"@) is None)
    &&& (v.SKUIdentifier matches Some(x) ==> sku_identifier_is(x, d, child_named(d, n, "SKUIdentifier"@)))
}

impl Identifiers {
    /// Reads a `Identifiers` from element `n`: each field from its child element
    /// (the last one of that name) or attribute, absent ones at their default.
    /// Fails when a number or boolean field holds text of another kind.
    pub fn from_xml(d: &Document, n: Option<usize>) -> (r: Result<Identifiers, ProtocolError>)
        requires
            d.wf(),
            valid_ref(d, n),
        ensures
            r is Ok <==> identifiers_ok(d.tree(), ref_view(n)),
            r matches Ok(v) ==> identifiers_is(v, d.tree(), ref_view(n)),
    {
        let val0 = match d.child(n, "MarketplaceASIN") { Some(c) => match MarketplaceASIN::from_xml(d, Some(c)) { Ok(x) => Some(x), Err(e) => return Err(e) }, None => None };
        let val1 = match d.child(n, "SKUIdentifier") { Some(c) => match SKUIdentifier::from_xml(d, Some(c)) { Ok(x) => Some(x), Err(e) => return Err(e) }, None => None };
        Ok(Identifiers { MarketplaceASIN: val0, SKUIdentifier: val1 })
    }
}

/// An ASIN in a marketplace.
#[allow(non_snake_case)]
#[derive(Clone, Debug, Default, PartialEq)]
pub struct MarketplaceASIN {
    pub MarketplaceId: String,
    pub ASIN: String,
}

/// Whether every field of a `MarketplaceASIN` read from element `n` has a value of its type.
pub open spec fn marketplace_asin_ok(d: TreeState, n: Option<int>) -> bool {
    true
}

/// Whether `v` is the `MarketplaceASIN` read from element `n`; an absent element gives
/// every field its default.
pub open spec fn marketplace_asin_is(v: MarketplaceASIN, d: TreeState, n: Option<int>) -> bool {
    &&& v.MarketplaceId@ == child_text(d, n, "MarketplaceId"@)
    &&& v.ASIN@ == child_text(d, n, "ASIN"@)
}

impl MarketplaceASIN {
    /// Reads a `MarketplaceASIN` from element `n`: each field from its child element
    /// (the last one of that name) or attribute, absent ones at their default.
    /// Fails when a number or boolean field holds text of another kind.
    pub fn from_xml(d: &Document, n: Option<usize>) -> (r: Result<MarketplaceASIN, ProtocolError>)
        requires
            d.wf(),
            valid_ref(d, n),
        ensures
            r is Ok <==> marketplace_asin_ok(d.tree(), ref_view(n)),
            r matches Ok(v) ==> marketplace_asin_is(v, d.tree(), ref_view(n)),
    {
        let val0 = d.child_text(n, "MarketplaceId");
        let val1 = d.child_text(n, "ASIN");
        Ok(MarketplaceASIN { MarketplaceId: val0, ASIN: val1 })
    }
}

/// A seller SKU in a marketplace.
#[allow(non_snake_case)]
#[derive(Clone, Debug, Default, PartialEq)]
pub struct SKUIdentifier {
    pub MarketplaceId: String,
    pub SellerId: String,
    pub SellerSKU: String,
}

/// Whether every field of a `SKUIdentifier` read from element `n` has a value of its type.
pub open spec fn sku_identifier_ok(d: TreeState, n: Option<int>) -> bool {
    true
}

/// Whether `v` is the `SKUIdentifier` read from element `n`; an absent element gives
/// every field its default.
pub open spec fn sku_identifier_is(v: SKUIdentifier, d: TreeState, n: Option<int>) -> bool {
    &&& v.MarketplaceId@ == child_text(d, n, "MarketplaceId"@)
    &&& v.SellerId@ == child_text(d, n, "SellerId"@)
    &&& v.SellerSKU@ == child_text(d, n, "SellerSKU"@)
}

impl SKUIdentifier {
    /// Reads a `SKUIdentifier` from element `n`: each field from its child element
    /// (the last one of that name) or attribute, absent ones at their default.
    /// Fails when a number or boolean field holds text of another kind.
    pub fn from_xml(d: &Document, n: Option<usize>) -> (r: Result<SKUIdentifier, ProtocolError>)
        requires
            d.wf(),
            valid_ref(d, n),
        ensures
            r is Ok <==> sku_identifier_ok(d.tree(), ref_view(n)),
            r matches Ok(v) ==> sku_identifier_is(v, d.tree(), ref_view(n)),
    {
        let val0 = d.child_text(n, "MarketplaceId");
        let val1 = d.child_text(n, "SellerId");
        let val2 = d.child_text(n, "SellerSKU");
        Ok(SKUIdentifier { MarketplaceId: val0, SellerId: val1, SellerSKU: val2 })
    }
}

/// The parts of a price.
#[allow(non_snake_case)]
#[derive(Clone, Debug, Default, PartialEq)]
pub struct Price {
    pub LandedPrice: MoneyType,
    pub ListingPrice: MoneyType,
    pub Shipping: MoneyType,
}

/// Whether every field of a `Price` read from element `n` has a value of its type.
pub open spec fn price_ok(d: TreeState, n: Option<int>) -> bool {
    &&& money_type_ok(d, child_named(d, n, "LandedPrice"@))
    &&& money_type_ok(d, child_named(d, n, "ListingPrice"@))
    &&& money_type_ok(d, child_named(d, n, "Shipping"@))
}

/// Whether `v` is the `Price` read from element `n`; an absent element gives
/// every field its default.
pub open spec fn price_is(v: Price, d: TreeState, n: Option<int>) -> bool {
    &&& money_type_is(v.LandedPrice, d, child_named(d, n, "LandedPrice"@))
    &&& money_type_is(v.ListingPrice, d, child_named(d, n, "ListingPrice"@))
    &&& money_type_is(v.Shipping, d, child_named(d, n, "Shipping"@))
}

impl Price {
    /// Reads a `Price` from element `n`: each field from its child element
    /// (the last one of that name) or attribute, absent ones at their default.
    /// Fails when a number or boolean field holds text of another kind.
    pub fn from_xml(d: &Document, n: Option<usize>) -> (r: Result<Price, ProtocolError>)
        requires
            d.wf(),
            valid_ref(d, n),
        ensures
            r is Ok <==> price_ok(d.tree(), ref_view(n)),
            r matches Ok(v) ==> price_is(v, d.tree(), ref_view(n)),
    {
        let val0 = match MoneyType::from_xml(d, d.child(n, "LandedPrice")) { Ok(x) => x, Err(e) => return Err(e) };
        let val1 = match MoneyType::from_xml(d, d.child(n, "ListingPrice")) { Ok(x) => x, Err(e) => return Err(e) };
        let val2 = match MoneyType::from_xml(d, d.child(n, "Shipping")) { Ok(x) => x, Err(e) => return Err(e) };
        Ok(Price { LandedPrice: val0, ListingPrice: val1, Shipping: val2 })
    }
}

/// One of the seller's own offers on a product.
#[allow(non_snake_case)]
#[derive(Clone, Debug, Default, PartialEq)]
pub struct Offer {
    pub BuyingPrice: Price,
    pub RegularPrice: MoneyType,
    pub FulfillmentChannel: String,
    pub ItemCondition: ItemCondition,
    pub ItemSubCondition: String,
    pub SellerId: String,
    pub SellerSKU: String,
}

/// Whether every field of a `Offer` read from element `n` has a value of its type.
pub open spec fn offer_ok(d: TreeState, n: Option<int>) -> bool {
    &&& price_ok(d, child_named(d, n, "BuyingPrice"@))
    &&& money_type_ok(d, child_named(d, n, "RegularPrice"@))
}

/// Whether `v` is the `Offer` read from element `n`; an absent element gives
/// every field its default.
pub open spec fn offer_is(v: Offer, d: TreeState, n: Option<int>) -> bool {
    &&& price_is(v.BuyingPrice, d, child_named(d, n, "BuyingPrice"@))
    &&& money_type_is(v.RegularPrice, d, child_named(d, n, "RegularPrice"@))
    &&& v.FulfillmentChannel@ == child_text(d, n, "FulfillmentChannel"@)
    &&& item_condition_is(v.ItemCondition, child_text(d, n, "ItemCondition"@))
    &&& v.ItemSubCondition@ == child_text(d, n, "ItemSubCondition"@)
    &&& v.SellerId@ == child_text(d, n, "SellerId"@)
    &&& v.SellerSKU@ == child_text(d, n, "SellerSKU"@)
}

impl Offer {
    /// Reads a `Offer` from element `n`: each field from its child element
    /// (the last one of that name) or attribute, absent ones at their default.
    /// Fails when a number or boolean field holds text of another kind.
    pub fn from_xml(d: &Document, n: Option<usize>) -> (r: Result<Offer, ProtocolError>)
        requires
            d.wf(),
            valid_ref(d, n),
        ensures
            r is Ok <==> offer_ok(d.tree(), ref_view(n)),
            r matches Ok(v) ==> offer_is(v, d.tree(), ref_view(n)),
    {
        let val0 = match Price::from_xml(d, d.child(n, "BuyingPrice")) { Ok(x) => x, Err(e) => return Err(e) };
        let val1 = match MoneyType::from_xml(d, d.child(n, "RegularPrice")) { Ok(x) => x, Err(e) => return Err(e) };
        let val2 = d.child_text(n, "FulfillmentChannel");
        let t3 = d.child_text(n, "ItemCondition");
        let val3 = ItemCondition::from_wire(t3.as_str());
        let val4 = d.child_text(n, "ItemSubCondition");
        let val5 = d.child_text(n, "SellerId");
        let val6 = d.child_text(n, "SellerSKU");
        Ok(Offer { BuyingPrice: val0, RegularPrice: val1, FulfillmentChannel: val2, ItemCondition: val3, ItemSubCondition: val4, SellerId: val5, SellerSKU: val6 })
    }
}

/// Whether every element of `items` holds a valid `Offer`.
pub open spec fn offer_all_ok(d: TreeState, items: Seq<int>) -> bool {
    forall|k: int| 0 <= k < items.len() ==> offer_ok(d, Some(#[trigger] items[k]))
}

/// Whether `v` holds the `Offer` of each element of `items`, in order.
pub open spec fn offer_all_are(v: Seq<Offer>, d: TreeState, items: Seq<int>) -> bool {
    &&& v.len() == items.len()
    &&& forall|k: int| 0 <= k < items.len() ==> offer_is(#[trigger] v[k], d, Some(items[k]))
}

/// Reads a `Offer` from each element of `items`, in order.
pub fn offer_list_from_xml(d: &Document, items: &Vec<usize>) -> (r: Result<Vec<Offer>, ProtocolError>)
    requires
        d.wf(),
        forall|k: int| 0 <= k < items@.len() ==> (#[trigger] items@[k] as int) < d.len(),
    ensures
        r is Ok <==> offer_all_ok(d.tree(), positions(items@)),
        r matches Ok(v) ==> offer_all_are(v@, d.tree(), positions(items@)),
{
    let mut out: Vec<Offer> = Vec::new();
    let mut k: usize = 0;
    while k < items.len()
        invariant
            d.wf(),
            forall|j: int| 0 <= j < items@.len() ==> (#[trigger] items@[j] as int) < d.len(),
            k <= items@.len(),
            out@.len() == k,
            forall|j: int| 0 <= j < k ==> offer_ok(d.tree(), Some(#[trigger] positions(items@)[j])),
            forall|j: int| 0 <= j < k ==> offer_is(#[trigger] out@[j], d.tree(), Some(positions(items@)[j])),
        decreases items.len() - k,
    {
        match Offer::from_xml(d, Some(items[k])) {
            Ok(x) => out.push(x),
            Err(e) => {
                assert(!offer_ok(d.tree(), Some(positions(items@)[k as int])));
                return Err(e);
            },
        }
        k = k + 1;
    }
    Ok(out)
}

/// A product with its identifiers, offers, attributes and sales ranks.
#[allow(non_snake_case)]
#[derive(Clone, Debug, Default, PartialEq)]
pub struct Product {
    pub Identifiers: Identifiers,
    pub Offers: Vec<Offer>,
    pub AttributeSets: Vec<ItemAttributes>,
    pub SalesRankings: Vec<SalesRank>,
}

/// Whether every field of a `Product` read from element `n` has a value of its type.
pub open spec fn product_ok(d: TreeState, n: Option<int>) -> bool {
    &&& identifiers_ok(d, child_named(d, n, "Identifiers"@))
    &&& offer_all_ok(d, wrapped_children(d, n, "Offers"@))
    &&& item_attributes_all_ok(d, wrapped_children(d, n, "AttributeSets"@))
    &&& sales_rank_all_ok(d, wrapped_children(d, n, "SalesRankings"@))
}

/// Whether `v` is the `Product` read from element `n`; an absent element gives
/// every field its default.
pub open spec fn product_is(v: Product, d: TreeState, n: Option<int>) -> bool {
    &&& identifiers_is(v.Identifiers, d, child_named(d, n, "Identifiers"@))
    &&& offer_all_are(v.Offers@, d, wrapped_children(d, n, "Offers"@))
    &&& item_attributes_all_are(v.AttributeSets@, d, wrapped_children(d, n, "AttributeSets"@))
    &&& sales_rank_all_are(v.SalesRankings@, d, wrapped_children(d, n, "SalesRankings"@))
}

impl Product {
    /// Reads a `Product` from element `n`: each field from its child element
    /// (the last one of that name) or attribute, absent ones at their default.
    /// Fails when a number or boolean field holds text of another kind.
    pub fn from_xml(d: &Document, n: Option<usize>) -> (r: Result<Product, ProtocolError>)
        requires
            d.wf(),
            valid_ref(d, n),
        ensures
            r is Ok <==> product_ok(d.tree(), ref_view(n)),
            r matches Ok(v) ==> product_is(v, d.tree(), ref_view(n)),
    {
        let val0 = match Identifiers::from_xml(d, d.child(n, "Identifiers")) { Ok(x) => x, Err(e) => return Err(e) };
        let c1 = d.wrapped_children(n, "Offers");
        let val1 = match offer_list_from_xml(d, &c1) { Ok(x) => x, Err(e) => return Err(e) };
        let c2 = d.wrapped_children(n, "AttributeSets");
        let val2 = match item_attributes_list_from_xml(d, &c2) { Ok(x) => x, Err(e) => return Err(e) };
        let c3 = d.wrapped_children(n, "SalesRankings");
        let val3 = match sales_rank_list_from_xml(d, &c3) { Ok(x) => x, Err(e) => return Err(e) };
        Ok(Product { Identifiers: val0, Offers: val1, AttributeSets: val2, SalesRankings: val3 })
    }
}

/// Whether every element of `items` holds a valid `Product`.
pub open spec fn product_all_ok(d: TreeState, items: Seq<int>) -> bool {
    forall|k: int| 0 <= k < items.len() ==> product_ok(d, Some(#[trigger] items[k]))
}

/// Whether `v` holds the `Product` of each element of `items`, in order.
pub open spec fn product_all_are(v: Seq<Product>, d: TreeState, items: Seq<int>) -> bool {
    &&& v.len() == items.len()
    &&& forall|k: int| 0 <= k < items.len() ==> product_is(#[trigger] v[k], d, Some(items[k]))
}

/// Reads a `Product` from each element of `items`, in order.
pub fn product_list_from_xml(d: &Document, items: &Vec<usize>) -> (r: Result<Vec<Product>, ProtocolError>)
    requires
        d.wf(),
        forall|k: int| 0 <= k < items@.len() ==> (#[trigger] items@[k] as int) < d.len(),
    ensures
        r is Ok <==> product_all_ok(d.tree(), positions(items@)),
        r matches Ok(v) ==> product_all_are(v@, d.tree(), positions(items@)),
{
    let mut out: Vec<Product> = Vec::new();
    let mut k: usize = 0;
    while k < items.len()
        invariant
            d.wf(),
            forall|j: int| 0 <= j < items@.len() ==> (#[trigger] items@[j] as int) < d.len(),
            k <= items@.len(),
            out@.len() == k,
            forall|j: int| 0 <= j < k ==> product_ok(d.tree(), Some(#[trigger] positions(items@)[j])),
            forall|j: int| 0 <= j < k ==> product_is(#[trigger] out@[j], d.tree(), Some(positions(items@)[j])),
        decreases items.len() - k,
    {
        match Product::from_xml(d, Some(items[k])) {
            Ok(x) => out.push(x),
            Err(e) => {
                assert(!product_ok(d.tree(), Some(positions(items@)[k as int])));
                return Err(e);
            },
        }
        k = k + 1;
    }
    Ok(out)
}

} // verus!
