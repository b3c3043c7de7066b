//! The Products API (version 2011-10-01): its parameter sets and the records
//! of its answers.
use vstd::prelude::*;
use crate::document::{attr_of, attr_text, bool_field, child_named, child_text, i32_content, i32_field, named_children, opt_bool_field, opt_child_text, opt_date_attr, opt_date_field, opt_i32_attr, opt_i32_field, opt_int, opt_str, positions, ref_view, text_at, valid_ref, wrapped_children, Document};
use crate::client::{control_pairs, signed_body, Client, MwsError, ProtocolError, SignedRequest};
use crate::datetime::UtcDateTime;
use crate::params::{list_pairs, pairs_view, push_list, push_param, strings_view};
use crate::document::{tree_of, xml_events_of, TreeState};
use crate::response::{answer_document, expect_root, request_id, request_id_of, ResponseEnvelope};
use crate::text::str_eq;

pub mod product;
pub use self::product::{product_all_are, product_all_ok, product_is, product_list_from_xml, product_ok, Product};

verus! {

/// A value of the service's `ItemCondition` enumeration; values that this library
/// does not know are kept as they came.
#[allow(non_camel_case_types)]
#[derive(Clone, Debug, PartialEq, Eq)]
pub enum ItemCondition {
    New,
    Used,
    Collectible,
    Refurbished,
    Club,
    UnknownValue(String),
}

/// The wire name of a `ItemCondition`.
pub open spec fn item_condition_text(c: ItemCondition) -> Seq<char> {
    match c {
        ItemCondition::New => "New"@,
        ItemCondition::Used => "Used"@,
        ItemCondition::Collectible => "Collectible"@,
        ItemCondition::Refurbished => "Refurbished"@,
        ItemCondition::Club => "Club"@,
        ItemCondition::UnknownValue(v) => v@,
    }
}

/// Whether `c` is what the wire name `s` reads as: the known value of that
/// name, else `UnknownValue(s)`.
pub open spec fn item_condition_is(c: ItemCondition, s: Seq<char>) -> bool {
    if s == "New"@ {
        c is New
    } else if s == "Used"@ {
        c is Used
    } else if s == "Collectible"@ {
        c is Collectible
    } else if s == "Refurbished"@ {
        c is Refurbished
    } else if s == "Club"@ {
        c is Club
    } else {
        c matches ItemCondition::UnknownValue(v) && v@ == s
    }
}

impl ItemCondition {
    /// The value that the wire name `s` stands for.
    pub fn from_wire(s: &str) -> (r: ItemCondition)
        ensures
            item_condition_is(r, s@),
    {
        if str_eq(s, "New") {
            ItemCondition::New
        } else if str_eq(s, "Used") {
            ItemCondition::Used
        } else if str_eq(s, "Collectible") {
            ItemCondition::Collectible
        } else if str_eq(s, "Refurbished") {
            ItemCondition::Refurbished
        } else if str_eq(s, "Club") {
            ItemCondition::Club
        } else {
            ItemCondition::UnknownValue(s.to_owned())
        }
    }

    /// The wire name of the value.
    pub fn to_string(&self) -> (r: String)
        ensures
            r@ == item_condition_text(*self),
    {
        match self {
            ItemCondition::New => "New".to_owned(),
            ItemCondition::Used => "Used".to_owned(),
            ItemCondition::Collectible => "Collectible".to_owned(),
            ItemCondition::Refurbished => "Refurbished".to_owned(),
            ItemCondition::Club => "Club".to_owned(),
            ItemCondition::UnknownValue(v) => v.clone(),
        }
    }
}

impl Default for ItemCondition {
    /// An unknown value with empty text.
    fn default() -> (r: ItemCondition)
        ensures
            r matches ItemCondition::UnknownValue(v) && v@.len() == 0,
    {
        ItemCondition::UnknownValue(String::new())
    }
}

/// Reading a wire name and writing the value back gives the same text, also
/// for names that are not among the known values.
pub proof fn lemma_item_condition_round_trip(c: ItemCondition, s: Seq<char>)
    requires
        item_condition_is(c, s),
    ensures
        item_condition_text(c) == s,
{
}

/// A value of the service's `AvailabilityType` enumeration; values that this library
/// does not know are kept as they came.
#[allow(non_camel_case_types)]
#[derive(Clone, Debug, PartialEq, Eq)]
pub enum AvailabilityType {
    NOW,
    FUTURE_WITHOUT_DATE,
    FUTURE_WITH_DATE,
    UnknownValue(String),
}

/// The wire name of a `AvailabilityType`.
pub open spec fn availability_type_text(c: AvailabilityType) -> Seq<char> {
    match c {
        AvailabilityType::NOW => "NOW"@,
        AvailabilityType::FUTURE_WITHOUT_DATE => "FUTURE_WITHOUT_DATE"@,
        AvailabilityType::FUTURE_WITH_DATE => "FUTURE_WITH_DATE"@,
        AvailabilityType::UnknownValue(v) => v@,
    }
}

/// Whether `c` is what the wire name `s` reads as: the known value of that
/// name, else `UnknownValue(s)`.
pub open spec fn availability_type_is(c: AvailabilityType, s: Seq<char>) -> bool {
    if s == "NOW"@ {
        c is NOW
    } else if s == "FUTURE_WITHOUT_DATE"@ {
        c is FUTURE_WITHOUT_DATE
    } else if s == "FUTURE_WITH_DATE"@ {
        c is FUTURE_WITH_DATE
    } else {
        c matches AvailabilityType::UnknownValue(v) && v@ == s
    }
}

impl AvailabilityType {
    /// The value that the wire name `s` stands for.
    pub fn from_wire(s: &str) -> (r: AvailabilityType)
        ensures
            availability_type_is(r, s@),
    {
        if str_eq(s, "NOW") {
            AvailabilityType::NOW
        } else if str_eq(s, "FUTURE_WITHOUT_DATE") {
            AvailabilityType::FUTURE_WITHOUT_DATE
        } else if str_eq(s, "FUTURE_WITH_DATE") {
            AvailabilityType::FUTURE_WITH_DATE
        } else {
            AvailabilityType::UnknownValue(s.to_owned())
        }
    }

    /// The wire name of the value.
    pub fn to_string(&self) -> (r: String)
        ensures
            r@ == availability_type_text(*self),
    {
        match self {
            AvailabilityType::NOW => "NOW".to_owned(),
            AvailabilityType::FUTURE_WITHOUT_DATE => "FUTURE_WITHOUT_DATE".to_owned(),
            AvailabilityType::FUTURE_WITH_DATE => "FUTURE_WITH_DATE".to_owned(),
            AvailabilityType::UnknownValue(v) => v.clone(),
        }
    }
}

impl Default for AvailabilityType {
    /// An unknown value with empty text.
    fn default() -> (r: AvailabilityType)
        ensures
            r matches AvailabilityType::UnknownValue(v) && v@.len() == 0,
    {
        AvailabilityType::UnknownValue(String::new())
    }
}

/// Reading a wire name and writing the value back gives the same text, also
/// for names that are not among the known values.
pub proof fn lemma_availability_type_round_trip(c: AvailabilityType, s: Seq<char>)
    requires
        availability_type_is(c, s),
    ensures
        availability_type_text(c) == s,
{
}

/// How many offers there are of one condition and fulfillment channel.
#[allow(non_snake_case)]
#[derive(Clone, Debug, Default, PartialEq)]
pub struct OfferCount {
    pub Condition: String,
    pub FulfillmentChannel: String,
    pub Value: i32,
}

/// Whether every field of a `OfferCount` read from element `n` has a value of its type.
pub open spec fn offer_count_ok(d: TreeState, n: Option<int>) -> bool {
    &&& i32_content(d, n) is Some
}

/// Whether `v` is the `OfferCount` read from element `n`; an absent element gives
/// every field its default.
pub open spec fn offer_count_is(v: OfferCount, d: TreeState, n: Option<int>) -> bool {
    &&& v.Condition@ == attr_text(d, n, "condition"@)
    &&& v.FulfillmentChannel@ == attr_text(d, n, "fulfillmentChannel"@)
    &&& i32_content(d, n) == Some(v.Value as int)
}

impl OfferCount {
    /// Reads a `OfferCount` from element `n`: each field from its child element
    /// (the last one of that name) or attribute, absent ones at their default.
    /// Fails when a number or boolean field holds text of another kind.
    pub fn from_xml(d: &Document, n: Option<usize>) -> (r: Result<OfferCount, ProtocolError>)
        requires
            d.wf(),
            valid_ref(d, n),
        ensures
            r is Ok <==> offer_count_ok(d.tree(), ref_view(n)),
            r matches Ok(v) ==> offer_count_is(v, d.tree(), ref_view(n)),
    {
        let val0 = d.attr_text(n, "condition");
        let val1 = d.attr_text(n, "fulfillmentChannel");
        let val2 = match d.content_i32(n) { Ok(x) => x, Err(e) => return Err(e) };
        Ok(OfferCount { Condition: val0, FulfillmentChannel: val1, Value: val2 })
    }
}

/// Whether every element of `items` holds a valid `OfferCount`.
pub open spec fn offer_count_all_ok(d: TreeState, items: Seq<int>) -> bool {
    forall|k: int| 0 <= k < items.len() ==> offer_count_ok(d, Some(#[trigger] items[k]))
}

/// Whether `v` holds the `OfferCount` of each element of `items`, in order.
pub open spec fn offer_count_all_are(v: Seq<OfferCount>, d: TreeState, items: Seq<int>) -> bool {
    &&& v.len() == items.len()
    &&& forall|k: int| 0 <= k < items.len() ==> offer_count_is(#[trigger] v[k], d, Some(items[k]))
}

/// Reads a `OfferCount` from each element of `items`, in order.
pub fn offer_count_list_from_xml(d: &Document, items: &Vec<usize>) -> (r: Result<Vec<OfferCount>, ProtocolError>)
    requires
        d.wf(),
        forall|k: int| 0 <= k < items@.len() ==> (#[trigger] items@[k] as int) < d.len(),
    ensures
        r is Ok <==> offer_count_all_ok(d.tree(), positions(items@)),
        r matches Ok(v) ==> offer_count_all_are(v@, d.tree(), positions(items@)),
{
    let mut out: Vec<OfferCount> = Vec::new();
    let mut k: usize = 0;
    while k < items.len()
        invariant
            d.wf(),
            forall|j: int| 0 <= j < items@.len() ==> (#[trigger] items@[j] as int) < d.len(),
            k <= items@.len(),
            out@.len() == k,
            forall|j: int| 0 <= j < k ==> offer_count_ok(d.tree(), Some(#[trigger] positions(items@)[j])),
            forall|j: int| 0 <= j < k ==> offer_count_is(#[trigger] out@[j], d.tree(), Some(positions(items@)[j])),
        decreases items.len() - k,
    {
        match OfferCount::from_xml(d, Some(items[k])) {
            Ok(x) => out.push(x),
            Err(e) => {
                assert(!offer_count_ok(d.tree(), Some(positions(items@)[k as int])));
                return Err(e);
            },
        }
        k = k + 1;
    }
    Ok(out)
}

/// An amount of money; the amount is kept as the service wrote it.
#[allow(non_snake_case)]
#[derive(Clone, Debug, Default, PartialEq)]
pub struct MoneyType {
    pub Amount: String,
    pub CurrencyCode: String,
}

/// Whether every field of a `MoneyType` read from element `n` has a value of its type.
pub open spec fn money_type_ok(d: TreeState, n: Option<int>) -> bool {
    true
}

/// Whether `v` is the `MoneyType` read from element `n`; an absent element gives
/// every field its default.
pub open spec fn money_type_is(v: MoneyType, d: TreeState, n: Option<int>) -> bool {
    &&& v.Amount@ == child_text(d, n, "Amount"@)
    &&& v.CurrencyCode@ == child_text(d, n, "CurrencyCode"@)
}

impl MoneyType {
    /// Reads a `MoneyType` from element `n`: each field from its child element
    /// (the last one of that name) or attribute, absent ones at their default.
    /// Fails when a number or boolean field holds text of another kind.
    pub fn from_xml(d: &Document, n: Option<usize>) -> (r: Result<MoneyType, ProtocolError>)
        requires
            d.wf(),
            valid_ref(d, n),
        ensures
            r is Ok <==> money_type_ok(d.tree(), ref_view(n)),
            r matches Ok(v) ==> money_type_is(v, d.tree(), ref_view(n)),
    {
        let val0 = d.child_text(n, "Amount");
        let val1 = d.child_text(n, "CurrencyCode");
        Ok(MoneyType { Amount: val0, CurrencyCode: val1 })
    }
}

/// Loyalty points that come with a price.
#[allow(non_snake_case)]
#[derive(Clone, Debug, Default, PartialEq)]
pub struct Points {
    pub PointsNumber: i32,
    pub PointsMonetaryValue: MoneyType,
}

/// Whether every field of a `Points` read from element `n` has a value of its type.
pub open spec fn points_ok(d: TreeState, n: Option<int>) -> bool {
    &&& i32_field(d, n, "PointsNumber"@) is Some
    &&& money_type_ok(d, child_named(d, n, "PointsMonetaryValue"@))
}

/// Whether `v` is the `Points` read from element `n`; an absent element gives
/// every field its default.
pub open spec fn points_is(v: Points, d: TreeState, n: Option<int>) -> bool {
    &&& i32_field(d, n, "PointsNumber"@) == Some(v.PointsNumber as int)
    &&& money_type_is(v.PointsMonetaryValue, d, child_named(d, n, "PointsMonetaryValue"@))
}

impl Points {
    /// Reads a `Points` from element `n`: each field from its child element
    /// (the last one of that name) or attribute, absent ones at their default.
    /// Fails when a number or boolean field holds text of another kind.
    pub fn from_xml(d: &Document, n: Option<usize>) -> (r: Result<Points, ProtocolError>)
        requires
            d.wf(),
            valid_ref(d, n),
        ensures
            r is Ok <==> points_ok(d.tree(), ref_view(n)),
            r matches Ok(v) ==> points_is(v, d.tree(), ref_view(n)),
    {
        let val0 = match d.child_i32(n, "PointsNumber") { Ok(x) => x, Err(e) => return Err(e) };
        let val1 = match MoneyType::from_xml(d, d.child(n, "PointsMonetaryValue")) { Ok(x) => x, Err(e) => return Err(e) };
        Ok(Points { PointsNumber: val0, PointsMonetaryValue: val1 })
    }
}

/// The lowest price of one condition and fulfillment channel.
#[allow(non_snake_case)]
#[derive(Clone, Debug, Default, PartialEq)]
pub struct LowestPrice {
    pub Condition: String,
    pub FulfillmentChannel: String,
    pub LandedPrice: MoneyType,
    pub ListingPrice: MoneyType,
    pub Shipping: MoneyType,
    pub Points: Option<Points>,
}

/// Whether every field of a `LowestPrice` read from element `n` has a value of its type.
pub open spec fn lowest_price_ok(d: TreeState, n: Option<int>) -> bool {
    &&& money_type_ok(d, child_named(d, n, "LandedPrice"@))
    &&& money_type_ok(d, child_named(d, n, "ListingPrice"@))
    &&& money_type_ok(d, child_named(d, n, "Shipping"@))
    &&& (child_named(d, n, "Points"@) is Some ==> points_ok(d, child_named(d, n, "Points"@)))
}

/// Whether `v` is the `LowestPrice` read from element `n`; an absent element gives
/// every field its default.
pub open spec fn lowest_price_is(v: LowestPrice, d: TreeState, n: Option<int>) -> bool {
    &&& v.Condition@ == attr_text(d, n, "condition"@)
    &&& v.FulfillmentChannel@ == attr_text(d, n, "fulfillmentChannel"@)
    &&& money_type_is(v.LandedPrice, d, child_named(d, n, "LandedPrice"@))
    &&& money_type_is(v.ListingPrice, d, child_named(d, n, "ListingPrice"@))
    &&& money_type_is(v.Shipping, d, child_named(d, n, "Shipping"@))
    &&& (v.Points is None <==> child_named(d, n, "Points"@) is None)
    &&& (v.Points matches Some(x) ==> points_is(x, d, child_named(d, n, "Points"@)))
}

impl LowestPrice {
    /// Reads a `LowestPrice` from element `n`: each field from its child element
    /// (the last one of that name) or attribute, absent ones at their default.
    /// Fails when a number or boolean field holds text of another kind.
    pub fn from_xml(d: &Document, n: Option<usize>) -> (r: Result<LowestPrice, ProtocolError>)
        requires
            d.wf(),
            valid_ref(d, n),
        ensures
            r is Ok <==> lowest_price_ok(d.tree(), ref_view(n)),
            r matches Ok(v) ==> lowest_price_is(v, d.tree(), ref_view(n)),
    {
        let val0 = d.attr_text(n, "condition");
        let val1 = d.attr_text(n, "fulfillmentChannel");
        let val2 = match MoneyType::from_xml(d, d.child(n, "LandedPrice")) { Ok(x) => x, Err(e) => return Err(e) };
        let val3 = match MoneyType::from_xml(d, d.child(n, "ListingPrice")) { Ok(x) => x, Err(e) => return Err(e) };
        let val4 = match MoneyType::from_xml(d, d.child(n, "Shipping")) { Ok(x) => x, Err(e) => return Err(e) };
        let val5 = match d.child(n, "Points") { Some(c) => match Points::from_xml(d, Some(c)) { Ok(x) => Some(x), Err(e) => return Err(e) }, None => None };
        Ok(LowestPrice { Condition: val0, FulfillmentChannel: val1, LandedPrice: val2, ListingPrice: val3, Shipping: val4, Points: val5 })
    }
}

/// Whether every element of `items` holds a valid `LowestPrice`.
pub open spec fn lowest_price_all_ok(d: TreeState, items: Seq<int>) -> bool {
    forall|k: int| 0 <= k < items.len() ==> lowest_price_ok(d, Some(#[trigger] items[k]))
}

/// Whether `v` holds the `LowestPrice` of each element of `items`, in order.
pub open spec fn lowest_price_all_are(v: Seq<LowestPrice>, d: TreeState, items: Seq<int>) -> bool {
    &&& v.len() == items.len()
    &&& forall|k: int| 0 <= k < items.len() ==> lowest_price_is(#[trigger] v[k], d, Some(items[k]))
}

/// Reads a `LowestPrice` from each element of `items`, in order.
pub fn lowest_price_list_from_xml(d: &Document, items: &Vec<usize>) -> (r: Result<Vec<LowestPrice>, ProtocolError>)
    requires
        d.wf(),
        forall|k: int| 0 <= k < items@.len() ==> (#[trigger] items@[k] as int) < d.len(),
    ensures
        r is Ok <==> lowest_price_all_ok(d.tree(), positions(items@)),
        r matches Ok(v) ==> lowest_price_all_are(v@, d.tree(), positions(items@)),
{
    let mut out: Vec<LowestPrice> = Vec::new();
    let mut k: usize = 0;
    while k < items.len()
        invariant
            d.wf(),
            forall|j: int| 0 <= j < items@.len() ==> (#[trigger] items@[j] as int) < d.len(),
            k <= items@.len(),
            out@.len() == k,
            forall|j: int| 0 <= j < k ==> lowest_price_ok(d.tree(), Some(#[trigger] positions(items@)[j])),
            forall|j: int| 0 <= j < k ==> lowest_price_is(#[trigger] out@[j], d.tree(), Some(positions(items@)[j])),
        decreases items.len() - k,
    {
        match LowestPrice::from_xml(d, Some(items[k])) {
            Ok(x) => out.push(x),
            Err(e) => {
                assert(!lowest_price_ok(d.tree(), Some(positions(items@)[k as int])));
                return Err(e);
            },
        }
        k = k + 1;
    }
    Ok(out)
}

/// The price that wins the buy box for one condition.
#[allow(non_snake_case)]
#[derive(Clone, Debug, Default, PartialEq)]
pub struct BuyBoxPrice {
    pub Condition: String,
    pub LandedPrice: MoneyType,
    pub ListingPrice: MoneyType,
    pub Shipping: MoneyType,
}

/// Whether every field of a `BuyBoxPrice` read from element `n` has a value of its type.
pub open spec fn buy_box_price_ok(d: TreeState, n: Option<int>) -> bool {
    &&& money_type_ok(d, child_named(d, n, "LandedPrice"@))
    &&& money_type_ok(d, child_named(d, n, "ListingPrice"@))
    &&& money_type_ok(d, child_named(d, n, "Shipping"@))
}

/// Whether `v` is the `BuyBoxPrice` read from element `n`; an absent element gives
/// every field its default.
pub open spec fn buy_box_price_is(v: BuyBoxPrice, d: TreeState, n: Option<int>) -> bool {
    &&& v.Condition@ == attr_text(d, n, "condition"@)
    &&& money_type_is(v.LandedPrice, d, child_named(d, n, "LandedPrice"@))
    &&& money_type_is(v.ListingPrice, d, child_named(d, n, "ListingPrice"@))
    &&& money_type_is(v.Shipping, d, child_named(d, n, "Shipping"@))
}

impl BuyBoxPrice {
    /// Reads a `BuyBoxPrice` from element `n`: each field from its child element
    /// (the last one of that name) or attribute, absent ones at their default.
    /// Fails when a number or boolean field holds text of another kind.
    pub fn from_xml(d: &Document, n: Option<usize>) -> (r: Result<BuyBoxPrice, ProtocolError>)
        requires
            d.wf(),
            valid_ref(d, n),
        ensures
            r is Ok <==> buy_box_price_ok(d.tree(), ref_view(n)),
            r matches Ok(v) ==> buy_box_price_is(v, d.tree(), ref_view(n)),
    {
        let val0 = d.attr_text(n, "condition");
        let val1 = match MoneyType::from_xml(d, d.child(n, "LandedPrice")) { Ok(x) => x, Err(e) => return Err(e) };
        let val2 = match MoneyType::from_xml(d, d.child(n, "ListingPrice")) { Ok(x) => x, Err(e) => return Err(e) };
        let val3 = match MoneyType::from_xml(d, d.child(n, "Shipping")) { Ok(x) => x, Err(e) => return Err(e) };
        Ok(BuyBoxPrice { Condition: val0, LandedPrice: val1, ListingPrice: val2, Shipping: val3 })
    }
}

/// Whether every element of `items` holds a valid `BuyBoxPrice`.
pub open spec fn buy_box_price_all_ok(d: TreeState, items: Seq<int>) -> bool {
    forall|k: int| 0 <= k < items.len() ==> buy_box_price_ok(d, Some(#[trigger] items[k]))
}

/// Whether `v` holds the `BuyBoxPrice` of each element of `items`, in order.
pub open spec fn buy_box_price_all_are(v: Seq<BuyBoxPrice>, d: TreeState, items: Seq<int>) -> bool {
    &&& v.len() == items.len()
    &&& forall|k: int| 0 <= k < items.len() ==> buy_box_price_is(#[trigger] v[k], d, Some(items[k]))
}

/// Reads a `BuyBoxPrice` from each element of `items`, in order.
pub fn buy_box_price_list_from_xml(d: &Document, items: &Vec<usize>) -> (r: Result<Vec<BuyBoxPrice>, ProtocolError>)
    requires
        d.wf(),
        forall|k: int| 0 <= k < items@.len() ==> (#[trigger] items@[k] as int) < d.len(),
    ensures
        r is Ok <==> buy_box_price_all_ok(d.tree(), positions(items@)),
        r matches Ok(v) ==> buy_box_price_all_are(v@, d.tree(), positions(items@)),
{
    let mut out: Vec<BuyBoxPrice> = Vec::new();
    let mut k: usize = 0;
    while k < items.len()
        invariant
            d.wf(),
            forall|j: int| 0 <= j < items@.len() ==> (#[trigger] items@[j] as int) < d.len(),
            k <= items@.len(),
            out@.len() == k,
            forall|j: int| 0 <= j < k ==> buy_box_price_ok(d.tree(), Some(#[trigger] positions(items@)[j])),
            forall|j: int| 0 <= j < k ==> buy_box_price_is(#[trigger] out@[j], d.tree(), Some(positions(items@)[j])),
        decreases items.len() - k,
    {
        match BuyBoxPrice::from_xml(d, Some(items[k])) {
            Ok(x) => out.push(x),
            Err(e) => {
                assert(!buy_box_price_ok(d.tree(), Some(positions(items@)[k as int])));
                return Err(e);
            },
        }
        k = k + 1;
    }
    Ok(out)
}

/// An overview of the offers on an item.
#[allow(non_snake_case)]
#[derive(Clone, Debug, Default, PartialEq)]
pub struct Summary {
    pub TotalOfferCount: i32,
    pub NumberOfOffers: Vec<OfferCount>,
    pub LowestPrices: Vec<LowestPrice>,
    pub BuyBoxPrices: Vec<BuyBoxPrice>,
    pub BuyBoxEligibleOffers: Vec<OfferCount>,
}

/// Whether every field of a `Summary` read from element `n` has a value of its type.
pub open spec fn summary_ok(d: TreeState, n: Option<int>) -> bool {
    &&& i32_field(d, n, "TotalOfferCount"@) is Some
    &&& offer_count_all_ok(d, wrapped_children(d, n, "NumberOfOffers"@))
    &&& lowest_price_all_ok(d, wrapped_children(d, n, "LowestPrices"@))
    &&& buy_box_price_all_ok(d, wrapped_children(d, n, "BuyBoxPrices"@))
    &&& offer_count_all_ok(d, wrapped_children(d, n, "BuyBoxEligibleOffers"@))
}

/// Whether `v` is the `Summary` read from element `n`; an absent element gives
/// every field its default.
pub open spec fn summary_is(v: Summary, d: TreeState, n: Option<int>) -> bool {
    &&& i32_field(d, n, "TotalOfferCount"@) == Some(v.TotalOfferCount as int)
    &&& offer_count_all_are(v.NumberOfOffers@, d, wrapped_children(d, n, "NumberOfOffers"@))
    &&& lowest_price_all_are(v.LowestPrices@, d, wrapped_children(d, n, "LowestPrices"@))
    &&& buy_box_price_all_are(v.BuyBoxPrices@, d, wrapped_children(d, n, "BuyBoxPrices"@))
    &&& offer_count_all_are(v.BuyBoxEligibleOffers@, d, wrapped_children(d, n, "BuyBoxEligibleOffers"@))
}

impl Summary {
    /// Reads a `Summary` from element `n`: each field from its child element
    /// (the last one of that name) or attribute, absent ones at their default.
    /// Fails when a number or boolean field holds text of another kind.
    pub fn from_xml(d: &Document, n: Option<usize>) -> (r: Result<Summary, ProtocolError>)
        requires
            d.wf(),
            valid_ref(d, n),
        ensures
            r is Ok <==> summary_ok(d.tree(), ref_view(n)),
            r matches Ok(v) ==> summary_is(v, d.tree(), ref_view(n)),
    {
        let val0 = match d.child_i32(n, "TotalOfferCount") { Ok(x) => x, Err(e) => return Err(e) };
        let c1 = d.wrapped_children(n, "NumberOfOffers");
        let val1 = match offer_count_list_from_xml(d, &c1) { Ok(x) => x, Err(e) => return Err(e) };
        let c2 = d.wrapped_children(n, "LowestPrices");
        let val2 = match lowest_price_list_from_xml(d, &c2) { Ok(x) => x, Err(e) => return Err(e) };
        let c3 = d.wrapped_children(n, "BuyBoxPrices");
        let val3 = match buy_box_price_list_from_xml(d, &c3) { Ok(x) => x, Err(e) => return Err(e) };
        let c4 = d.wrapped_children(n, "BuyBoxEligibleOffers");
        let val4 = match offer_count_list_from_xml(d, &c4) { Ok(x) => x, Err(e) => return Err(e) };
        Ok(Summary { TotalOfferCount: val0, NumberOfOffers: val1, LowestPrices: val2, BuyBoxPrices: val3, BuyBoxEligibleOffers: val4 })
    }
}

/// The feedback rating of a seller.
#[allow(non_snake_case)]
#[derive(Clone, Debug, Default, PartialEq)]
pub struct SellerFeedbackRating {
    pub SellerPositiveFeedbackRating: Option<String>,
    pub FeedbackCount: i32,
}

/// Whether every field of a `SellerFeedbackRating` read from element `n` has a value of its type.
pub open spec fn seller_feedback_rating_ok(d: TreeState, n: Option<int>) -> bool {
    &&& i32_field(d, n, "FeedbackCount"@) is Some
}

/// Whether `v` is the `SellerFeedbackRating` read from element `n`; an absent element gives
/// every field its default.
pub open spec fn seller_feedback_rating_is(v: SellerFeedbackRating, d: TreeState, n: Option<int>) -> bool {
    &&& opt_str(v.SellerPositiveFeedbackRating) == opt_child_text(d, n, "SellerPositiveFeedbackRating"@)
    &&& i32_field(d, n, "FeedbackCount"@) == Some(v.FeedbackCount as int)
}

impl SellerFeedbackRating {
    /// Reads a `SellerFeedbackRating` from element `n`: each field from its child element
    /// (the last one of that name) or attribute, absent ones at their default.
    /// Fails when a number or boolean field holds text of another kind.
    pub fn from_xml(d: &Document, n: Option<usize>) -> (r: Result<SellerFeedbackRating, ProtocolError>)
        requires
            d.wf(),
            valid_ref(d, n),
        ensures
            r is Ok <==> seller_feedback_rating_ok(d.tree(), ref_view(n)),
            r matches Ok(v) ==> seller_feedback_rating_is(v, d.tree(), ref_view(n)),
    {
        let val0 = d.opt_child_text(n, "SellerPositiveFeedbackRating");
        let val1 = match d.child_i32(n, "FeedbackCount") { Ok(x) => x, Err(e) => return Err(e) };
        Ok(SellerFeedbackRating { SellerPositiveFeedbackRating: val0, FeedbackCount: val1 })
    }
}

/// Where an offer ships from.
#[allow(non_snake_case)]
#[derive(Clone, Debug, Default, PartialEq)]
pub struct ShipsFrom {
    pub State: String,
    pub Country: String,
}

/// Whether every field of a `ShipsFrom` read from element `n` has a value of its type.
pub open spec fn ships_from_ok(d: TreeState, n: Option<int>) -> bool {
    true
}

/// Whether `v` is the `ShipsFrom` read from element `n`; an absent element gives
/// every field its default.
pub open spec fn ships_from_is(v: ShipsFrom, d: TreeState, n: Option<int>) -> bool {
    &&& v.State@ == child_text(d, n, "State"@)
    &&& v.Country@ == child_text(d, n, "Country"@)
}

impl ShipsFrom {
    /// Reads a `ShipsFrom` from element `n`: each field from its child element
    /// (the last one of that name) or attribute, absent ones at their default.
    /// Fails when a number or boolean field holds text of another kind.
    pub fn from_xml(d: &Document, n: Option<usize>) -> (r: Result<ShipsFrom, ProtocolError>)
        requires
            d.wf(),
            valid_ref(d, n),
        ensures
            r is Ok <==> ships_from_ok(d.tree(), ref_view(n)),
            r matches Ok(v) ==> ships_from_is(v, d.tree(), ref_view(n)),
    {
        let val0 = d.child_text(n, "State");
        let val1 = d.child_text(n, "Country");
        Ok(ShipsFrom { State: val0, Country: val1 })
    }
}

/// A decimal value, kept as written, with its unit.
#[allow(non_snake_case)]
#[derive(Clone, Debug, Default, PartialEq)]
pub struct DecimalWithUnits {
    pub Value: String,
    pub Units: String,
}

/// Whether every field of a `DecimalWithUnits` read from element `n` has a value of its type.
pub open spec fn decimal_with_units_ok(d: TreeState, n: Option<int>) -> bool {
    true
}

/// Whether `v` is the `DecimalWithUnits` read from element `n`; an absent element gives
/// every field its default.
pub open spec fn decimal_with_units_is(v: DecimalWithUnits, d: TreeState, n: Option<int>) -> bool {
    &&& v.Value@ == text_at(d, n)
    &&& v.Units@ == attr_text(d, n, "Units"@)
}

impl DecimalWithUnits {
    /// Reads a `DecimalWithUnits` from element `n`: each field from its child element
    /// (the last one of that name) or attribute, absent ones at their default.
    /// Fails when a number or boolean field holds text of another kind.
    pub fn from_xml(d: &Document, n: Option<usize>) -> (r: Result<DecimalWithUnits, ProtocolError>)
        requires
            d.wf(),
            valid_ref(d, n),
        ensures
            r is Ok <==> decimal_with_units_ok(d.tree(), ref_view(n)),
            r matches Ok(v) ==> decimal_with_units_is(v, d.tree(), ref_view(n)),
    {
        let val0 = d.text_of(n);
        let val1 = d.attr_text(n, "Units");
        Ok(DecimalWithUnits { Value: val0, Units: val1 })
    }
}

/// A whole number with its unit.
#[allow(non_snake_case)]
#[derive(Clone, Debug, Default, PartialEq)]
pub struct NonNegativeIntegerWithUnits {
    pub Value: i32,
    pub Units: String,
}

/// Whether every field of a `NonNegativeIntegerWithUnits` read from element `n` has a value of its type.
pub open spec fn non_negative_integer_with_units_ok(d: TreeState, n: Option<int>) -> bool {
    &&& i32_content(d, n) is Some
}

/// Whether `v` is the `NonNegativeIntegerWithUnits` read from element `n`; an absent element gives
/// every field its default.
pub open spec fn non_negative_integer_with_units_is(v: NonNegativeIntegerWithUnits, d: TreeState, n: Option<int>) -> bool {
    &&& i32_content(d, n) == Some(v.Value as int)
    &&& v.Units@ == attr_text(d, n, "Units"@)
}

impl NonNegativeIntegerWithUnits {
    /// Reads a `NonNegativeIntegerWithUnits` from element `n`: each field from its child element
    /// (the last one of that name) or attribute, absent ones at their default.
    /// Fails when a number or boolean field holds text of another kind.
    pub fn from_xml(d: &Document, n: Option<usize>) -> (r: Result<NonNegativeIntegerWithUnits, ProtocolError>)
        requires
            d.wf(),
            valid_ref(d, n),
        ensures
            r is Ok <==> non_negative_integer_with_units_ok(d.tree(), ref_view(n)),
            r matches Ok(v) ==> non_negative_integer_with_units_is(v, d.tree(), ref_view(n)),
    {
        let val0 = match d.content_i32(n) { Ok(x) => x, Err(e) => return Err(e) };
        let val1 = d.attr_text(n, "Units");
        Ok(NonNegativeIntegerWithUnits { Value: val0, Units: val1 })
    }
}

/// A person who took part in making an item, with the role.
#[allow(non_snake_case)]
#[derive(Clone, Debug, Default, PartialEq)]
pub struct Creator {
    pub Name: String,
    pub Role: String,
}

/// Whether every field of a `Creator` read from element `n` has a value of its type.
pub open spec fn creator_ok(d: TreeState, n: Option<int>) -> bool {
    true
}

/// Whether `v` is the `Creator` read from element `n`; an absent element gives
/// every field its default.
pub open spec fn creator_is(v: Creator, d: TreeState, n: Option<int>) -> bool {
    &&& v.Name@ == text_at(d, n)
    &&& v.Role@ == attr_text(d, n, "Role"@)
}

impl Creator {
    /// Reads a `Creator` from element `n`: each field from its child element
    /// (the last one of that name) or attribute, absent ones at their default.
    /// Fails when a number or boolean field holds text of another kind.
    pub fn from_xml(d: &Document, n: Option<usize>) -> (r: Result<Creator, ProtocolError>)
        requires
            d.wf(),
            valid_ref(d, n),
        ensures
            r is Ok <==> creator_ok(d.tree(), ref_view(n)),
            r matches Ok(v) ==> creator_is(v, d.tree(), ref_view(n)),
    {
        let val0 = d.text_of(n);
        let val1 = d.attr_text(n, "Role");
        Ok(Creator { Name: val0, Role: val1 })
    }
}

/// Whether every element of `items` holds a valid `Creator`.
pub open spec fn creator_all_ok(d: TreeState, items: Seq<int>) -> bool {
    forall|k: int| 0 <= k < items.len() ==> creator_ok(d, Some(#[trigger] items[k]))
}

/// Whether `v` holds the `Creator` of each element of `items`, in order.
pub open spec fn creator_all_are(v: Seq<Creator>, d: TreeState, items: Seq<int>) -> bool {
    &&& v.len() == items.len()
    &&& forall|k: int| 0 <= k < items.len() ==> creator_is(#[trigger] v[k], d, Some(items[k]))
}

/// Reads a `Creator` from each element of `items`, in order.
pub fn creator_list_from_xml(d: &Document, items: &Vec<usize>) -> (r: Result<Vec<Creator>, ProtocolError>)
    requires
        d.wf(),
        forall|k: int| 0 <= k < items@.len() ==> (#[trigger] items@[k] as int) < d.len(),
    ensures
        r is Ok <==> creator_all_ok(d.tree(), positions(items@)),
        r matches Ok(v) ==> creator_all_are(v@, d.tree(), positions(items@)),
{
    let mut out: Vec<Creator> = Vec::new();
    let mut k: usize = 0;
    while k < items.len()
        invariant
            d.wf(),
            forall|j: int| 0 <= j < items@.len() ==> (#[trigger] items@[j] as int) < d.len(),
            k <= items@.len(),
            out@.len() == k,
            forall|j: int| 0 <= j < k ==> creator_ok(d.tree(), Some(#[trigger] positions(items@)[j])),
            forall|j: int| 0 <= j < k ==> creator_is(#[trigger] out@[j], d.tree(), Some(positions(items@)[j])),
        decreases items.len() - k,
    {
        match Creator::from_xml(d, Some(items[k])) {
            Ok(x) => out.push(x),
            Err(e) => {
                assert(!creator_ok(d.tree(), Some(positions(items@)[k as int])));
                return Err(e);
            },
        }
        k = k + 1;
    }
    Ok(out)
}

/// The dimensions and weight of an item or its package.
#[allow(non_snake_case)]
#[derive(Clone, Debug, Default, PartialEq)]
pub struct Dimension {
    pub Height: Option<DecimalWithUnits>,
    pub Length: Option<DecimalWithUnits>,
    pub Width: Option<DecimalWithUnits>,
    pub Weight: Option<DecimalWithUnits>,
}

/// Whether every field of a `Dimension` read from element `n` has a value of its type.
pub open spec fn dimension_ok(d: TreeState, n: Option<int>) -> bool {
    &&& (child_named(d, n, "Height"@) is Some ==> decimal_with_units_ok(d, child_named(d, n, "Height"@)))
    &&& (child_named(d, n, "Length"@) is Some ==> decimal_with_units_ok(d, child_named(d, n, "Length"@)))
    &&& (child_named(d, n, "Width"@) is Some ==> decimal_with_units_ok(d, child_named(d, n, "Width"@)))
    &&& (child_named(d, n, "Weight"@) is Some ==> decimal_with_units_ok(d, child_named(d, n, "Weight"@)))
}

/// Whether `v` is the `Dimension` read from element `n`; an absent element gives
/// every field its default.
pub open spec fn dimension_is(v: Dimension, d: TreeState, n: Option<int>) -> bool {
    &&& (v.Height is None <==> child_named(d, n, "Height"@) is None)
    &&& (v.Height matches Some(x) ==> decimal_with_units_is(x, d, child_named(d, n, "Height"@)))
    &&& (v.Length is None <==> child_named(d, n, "Length"@) is None)
    &&& (v.Length matches Some(x) ==> decimal_with_units_is(x, d, child_named(d, n, "Length"@)))
    &&& (v.Width is None <==> child_named(d, n, "Width"@) is None)
    &&& (v.Width matches Some(x) ==> decimal_with_units_is(x, d, child_named(d, n, "Width"@)))
    &&& (v.Weight is None <==> child_named(d, n, "Weight"@) is None)
    &&& (v.Weight matches Some(x) ==> decimal_with_units_is(x, d, child_named(d, n, "Weight"@)))
}

impl Dimension {
    /// Reads a `Dimension` from element `n`: each field from its child element
    /// (the last one of that name) or attribute, absent ones at their default.
    /// Fails when a number or boolean field holds text of another kind.
    pub fn from_xml(d: &Document, n: Option<usize>) -> (r: Result<Dimension, ProtocolError>)
        requires
            d.wf(),
            valid_ref(d, n),
        ensures
            r is Ok <==> dimension_ok(d.tree(), ref_view(n)),
            r matches Ok(v) ==> dimension_is(v, d.tree(), ref_view(n)),
    {
        let val0 = match d.child(n, "Height") { Some(c) => match DecimalWithUnits::from_xml(d, Some(c)) { Ok(x) => Some(x), Err(e) => return Err(e) }, None => None };
        let val1 = match d.child(n, "Length") { Some(c) => match DecimalWithUnits::from_xml(d, Some(c)) { Ok(x) => Some(x), Err(e) => return Err(e) }, None => None };
        let val2 = match d.child(n, "Width") { Some(c) => match DecimalWithUnits::from_xml(d, Some(c)) { Ok(x) => Some(x), Err(e) => return Err(e) }, None => None };
        let val3 = match d.child(n, "Weight") { Some(c) => match DecimalWithUnits::from_xml(d, Some(c)) { Ok(x) => Some(x), Err(e) => return Err(e) }, None => None };
        Ok(Dimension { Height: val0, Length: val1, Width: val2, Weight: val3 })
    }
}

/// A picture of an item.
#[allow(non_snake_case)]
#[derive(Clone, Debug, Default, PartialEq)]
pub struct Image {
    pub URL: String,
    pub Height: DecimalWithUnits,
    pub Width: DecimalWithUnits,
}

/// Whether every field of a `Image` read from element `n` has a value of its type.
pub open spec fn image_ok(d: TreeState, n: Option<int>) -> bool {
    &&& decimal_with_units_ok(d, child_named(d, n, "Height"@))
    &&& decimal_with_units_ok(d, child_named(d, n, "Width"@))
}

/// Whether `v` is the `Image` read from element `n`; an absent element gives
/// every field its default.
pub open spec fn image_is(v: Image, d: TreeState, n: Option<int>) -> bool {
    &&& v.URL@ == child_text(d, n, "URL"@)
    &&& decimal_with_units_is(v.Height, d, child_named(d, n, "Height"@))
    &&& decimal_with_units_is(v.Width, d, child_named(d, n, "Width"@))
}

impl Image {
    /// Reads a `Image` from element `n`: each field from its child element
    /// (the last one of that name) or attribute, absent ones at their default.
    /// Fails when a number or boolean field holds text of another kind.
    pub fn from_xml(d: &Document, n: Option<usize>) -> (r: Result<Image, ProtocolError>)
        requires
            d.wf(),
            valid_ref(d, n),
        ensures
            r is Ok <==> image_ok(d.tree(), ref_view(n)),
            r matches Ok(v) ==> image_is(v, d.tree(), ref_view(n)),
    {
        let val0 = d.child_text(n, "URL");
        let val1 = match DecimalWithUnits::from_xml(d, d.child(n, "Height")) { Ok(x) => x, Err(e) => return Err(e) };
        let val2 = match DecimalWithUnits::from_xml(d, d.child(n, "Width")) { Ok(x) => x, Err(e) => return Err(e) };
        Ok(Image { URL: val0, Height: val1, Width: val2 })
    }
}

/// A language of an item.
#[allow(non_snake_case)]
#[derive(Clone, Debug, Default, PartialEq)]
pub struct Language {
    pub Name: String,
    pub Type: Option<String>,
    pub AudioFormat: Option<String>,
}

/// Whether every field of a `Language` read from element `n` has a value of its type.
pub open spec fn language_ok(d: TreeState, n: Option<int>) -> bool {
    true
}

/// Whether `v` is the `Language` read from element `n`; an absent element gives
/// every field its default.
pub open spec fn language_is(v: Language, d: TreeState, n: Option<int>) -> bool {
    &&& v.Name@ == child_text(d, n, "Name"@)
    &&& opt_str(v.Type) == opt_child_text(d, n, "Type"@)
    &&& opt_str(v.AudioFormat) == opt_child_text(d, n, "AudioFormat"@)
}

impl Language {
    /// Reads a `Language` from element `n`: each field from its child element
    /// (the last one of that name) or attribute, absent ones at their default.
    /// Fails when a number or boolean field holds text of another kind.
    pub fn from_xml(d: &Document, n: Option<usize>) -> (r: Result<Language, ProtocolError>)
        requires
            d.wf(),
            valid_ref(d, n),
        ensures
            r is Ok <==> language_ok(d.tree(), ref_view(n)),
            r matches Ok(v) ==> language_is(v, d.tree(), ref_view(n)),
    {
        let val0 = d.child_text(n, "Name");
        let val1 = d.opt_child_text(n, "Type");
        let val2 = d.opt_child_text(n, "AudioFormat");
        Ok(Language { Name: val0, Type: val1, AudioFormat: val2 })
    }
}

/// Whether every element of `items` holds a valid `Language`.
pub open spec fn language_all_ok(d: TreeState, items: Seq<int>) -> bool {
    forall|k: int| 0 <= k < items.len() ==> language_ok(d, Some(#[trigger] items[k]))
}

/// Whether `v` holds the `Language` of each element of `items`, in order.
pub open spec fn language_all_are(v: Seq<Language>, d: TreeState, items: Seq<int>) -> bool {
    &&& v.len() == items.len()
    &&& forall|k: int| 0 <= k < items.len() ==> language_is(#[trigger] v[k], d, Some(items[k]))
}

/// Reads a `Language` from each element of `items`, in order.
pub fn language_list_from_xml(d: &Document, items: &Vec<usize>) -> (r: Result<Vec<Language>, ProtocolError>)
    requires
        d.wf(),
        forall|k: int| 0 <= k < items@.len() ==> (#[trigger] items@[k] as int) < d.len(),
    ensures
        r is Ok <==> language_all_ok(d.tree(), positions(items@)),
        r matches Ok(v) ==> language_all_are(v@, d.tree(), positions(items@)),
{
    let mut out: Vec<Language> = Vec::new();
    let mut k: usize = 0;
    while k < items.len()
        invariant
            d.wf(),
            forall|j: int| 0 <= j < items@.len() ==> (#[trigger] items@[j] as int) < d.len(),
            k <= items@.len(),
            out@.len() == k,
            forall|j: int| 0 <= j < k ==> language_ok(d.tree(), Some(#[trigger] positions(items@)[j])),
            forall|j: int| 0 <= j < k ==> language_is(#[trigger] out@[j], d.tree(), Some(positions(items@)[j])),
        decreases items.len() - k,
    {
        match Language::from_xml(d, Some(items[k])) {
            Ok(x) => out.push(x),
            Err(e) => {
                assert(!language_ok(d.tree(), Some(positions(items@)[k as int])));
                return Err(e);
            },
        }
        k = k + 1;
    }
    Ok(out)
}

/// The rank of an item in a sales category.
#[allow(non_snake_case)]
#[derive(Clone, Debug, Default, PartialEq)]
pub struct SalesRank {
    pub ProductCategoryId: String,
    pub Rank: i32,
}

/// Whether every field of a `SalesRank` read from element `n` has a value of its type.
pub open spec fn sales_rank_ok(d: TreeState, n: Option<int>) -> bool {
    &&& i32_field(d, n, "Rank"@) is Some
}

/// Whether `v` is the `SalesRank` read from element `n`; an absent element gives
/// every field its default.
pub open spec fn sales_rank_is(v: SalesRank, d: TreeState, n: Option<int>) -> bool {
    &&& v.ProductCategoryId@ == child_text(d, n, "ProductCategoryId"@)
    &&& i32_field(d, n, "Rank"@) == Some(v.Rank as int)
}

impl SalesRank {
    /// Reads a `SalesRank` from element `n`: each field from its child element
    /// (the last one of that name) or attribute, absent ones at their default.
    /// Fails when a number or boolean field holds text of another kind.
    pub fn from_xml(d: &Document, n: Option<usize>) -> (r: Result<SalesRank, ProtocolError>)
        requires
            d.wf(),
            valid_ref(d, n),
        ensures
            r is Ok <==> sales_rank_ok(d.tree(), ref_view(n)),
            r matches Ok(v) ==> sales_rank_is(v, d.tree(), ref_view(n)),
    {
        let val0 = d.child_text(n, "ProductCategoryId");
        let val1 = match d.child_i32(n, "Rank") { Ok(x) => x, Err(e) => return Err(e) };
        Ok(SalesRank { ProductCategoryId: val0, Rank: val1 })
    }
}

/// Whether every element of `items` holds a valid `SalesRank`.
pub open spec fn sales_rank_all_ok(d: TreeState, items: Seq<int>) -> bool {
    forall|k: int| 0 <= k < items.len() ==> sales_rank_ok(d, Some(#[trigger] items[k]))
}

/// Whether `v` holds the `SalesRank` of each element of `items`, in order.
pub open spec fn sales_rank_all_are(v: Seq<SalesRank>, d: TreeState, items: Seq<int>) -> bool {
    &&& v.len() == items.len()
    &&& forall|k: int| 0 <= k < items.len() ==> sales_rank_is(#[trigger] v[k], d, Some(items[k]))
}

/// Reads a `SalesRank` from each element of `items`, in order.
pub fn sales_rank_list_from_xml(d: &Document, items: &Vec<usize>) -> (r: Result<Vec<SalesRank>, ProtocolError>)
    requires
        d.wf(),
        forall|k: int| 0 <= k < items@.len() ==> (#[trigger] items@[k] as int) < d.len(),
    ensures
        r is Ok <==> sales_rank_all_ok(d.tree(), positions(items@)),
        r matches Ok(v) ==> sales_rank_all_are(v@, d.tree(), positions(items@)),
{
    let mut out: Vec<SalesRank> = Vec::new();
    let mut k: usize = 0;
    while k < items.len()
        invariant
            d.wf(),
            forall|j: int| 0 <= j < items@.len() ==> (#[trigger] items@[j] as int) < d.len(),
            k <= items@.len(),
            out@.len() == k,
            forall|j: int| 0 <= j < k ==> sales_rank_ok(d.tree(), Some(#[trigger] positions(items@)[j])),
            forall|j: int| 0 <= j < k ==> sales_rank_is(#[trigger] out@[j], d.tree(), Some(positions(items@)[j])),
        decreases items.len() - k,
    {
        match SalesRank::from_xml(d, Some(items[k])) {
            Ok(x) => out.push(x),
            Err(e) => {
                assert(!sales_rank_ok(d.tree(), Some(positions(items@)[k as int])));
                return Err(e);
            },
        }
        k = k + 1;
    }
    Ok(out)
}

/// The catalog attributes of an item.
#[allow(non_snake_case)]
#[derive(Clone, Debug, Default, PartialEq)]
pub struct ItemAttributes {
    pub Language: Option<String>,
    pub Actor: Vec<String>,
    pub Artist: Vec<String>,
    pub AspectRatio: Option<String>,
    pub AudienceRating: Option<String>,
    pub Author: Vec<String>,
    pub BackFinding: Option<String>,
    pub BandMaterialType: Option<String>,
    pub Binding: Option<String>,
    pub BlurayRegion: Option<String>,
    pub Brand: Option<String>,
    pub CEROAgeRating: Option<String>,
    pub ChainType: Option<String>,
    pub ClaspType: Option<String>,
    pub Color: Option<String>,
    pub CPUManufacturer: Option<String>,
    pub CPUSpeed: Option<DecimalWithUnits>,
    pub CPUType: Option<String>,
    pub Creator: Vec<Creator>,
    pub Department: Option<String>,
    pub Director: Vec<String>,
    pub DisplaySize: Option<DecimalWithUnits>,
    pub Edition: Option<String>,
    pub EpisodeSequence: Option<String>,
    pub ESRBAgeRating: Option<String>,
    pub Feature: Vec<String>,
    pub Flavor: Option<String>,
    pub Format: Vec<String>,
    pub GemType: Vec<String>,
    pub Genre: Option<String>,
    pub GolfClubFlex: Option<String>,
    pub GolfClubLoft: Option<DecimalWithUnits>,
    pub HandOrientation: Option<String>,
    pub HardDiskInterface: Option<String>,
    pub HardDiskSize: Option<DecimalWithUnits>,
    pub HardwarePlatform: Option<String>,
    pub HazardousMaterialType: Option<String>,
    pub ItemDimensions: Option<Dimension>,
    pub IsAdultProduct: Option<bool>,
    pub IsAutographed: Option<bool>,
    pub IsEligibleForTradeIn: Option<bool>,
    pub IsMemorabilia: Option<bool>,
    pub IssuesPerYear: Option<String>,
    pub ItemPartNumber: Option<String>,
    pub Label: Option<String>,
    pub Languages: Vec<Language>,
    pub LegalDisclaimer: Option<String>,
    pub ListPrice: Option<MoneyType>,
    pub Manufacturer: Option<String>,
    pub ManufacturerMaximumAge: Option<DecimalWithUnits>,
    pub ManufacturerMinimumAge: Option<DecimalWithUnits>,
    pub ManufacturerPartsWarrantyDescription: Option<String>,
    pub MaterialType: Vec<String>,
    pub MaximumResolution: Option<DecimalWithUnits>,
    pub MediaType: Vec<String>,
    pub MetalStamp: Option<String>,
    pub MetalType: Option<String>,
    pub Model: Option<String>,
    pub NumberOfDiscs: Option<i32>,
    pub NumberOfIssues: Option<i32>,
    pub NumberOfItems: Option<i32>,
    pub NumberOfPages: Option<i32>,
    pub NumberOfTracks: Option<i32>,
    pub OperatingSystem: Vec<String>,
    pub OpticalZoom: Option<DecimalWithUnits>,
    pub PackageDimensions: Option<Dimension>,
    pub PackageQuantity: Option<i32>,
    pub PartNumber: Option<String>,
    pub PegiRating: Option<String>,
    pub Platform: Vec<String>,
    pub ProcessorCount: Option<i32>,
    pub ProductGroup: Option<String>,
    pub ProductTypeName: Option<String>,
    pub ProductTypeSubcategory: Option<String>,
    pub PublicationDate: Option<String>,
    pub Publisher: Option<String>,
    pub RegionCode: Option<String>,
    pub ReleaseDate: Option<String>,
    pub RingSize: Option<String>,
    pub RunningTime: Option<DecimalWithUnits>,
    pub ShaftMaterial: Option<String>,
    pub Scent: Option<String>,
    pub SeasonSequence: Option<String>,
    pub SeikodoProductCode: Option<String>,
    pub Size: Option<String>,
    pub SizePerPearl: Option<String>,
    pub SmallImage: Option<Image>,
    pub Studio: Option<String>,
    pub SubscriptionLength: Option<NonNegativeIntegerWithUnits>,
    pub SystemMemorySize: Option<DecimalWithUnits>,
    pub SystemMemoryType: Option<String>,
    pub TheatricalReleaseDate: Option<String>,
    pub Title: Option<String>,
    pub TotalDiamondWeight: Option<DecimalWithUnits>,
    pub TotalGemWeight: Option<DecimalWithUnits>,
    pub Warranty: Option<String>,
    pub WEEETaxValue: Option<MoneyType>,
}

/// Whether the fields Language to CEROAgeRating of a `ItemAttributes` read from element `n` have values of their types.
#[verifier::opaque]
pub open spec fn item_attributes_ok_0(d: TreeState, n: Option<int>) -> bool {
    true
}

/// Whether the given values are the fields Language to CEROAgeRating of the `ItemAttributes` read from element `n`.
#[verifier::opaque]
pub open spec fn item_attributes_is_0(d: TreeState, n: Option<int>, x_Language: Option<String>, x_Actor: Vec<String>, x_Artist: Vec<String>, x_AspectRatio: Option<String>, x_AudienceRating: Option<String>, x_Author: Vec<String>, x_BackFinding: Option<String>, x_BandMaterialType: Option<String>, x_Binding: Option<String>, x_BlurayRegion: Option<String>, x_Brand: Option<String>, x_CEROAgeRating: Option<String>) -> bool {
    &&& opt_str(x_Language) == attr_of(d, n, "lang"@)
    &&& x_Actor@.len() == named_children(d, n, "Actor"@).len()
    &&& (forall|k: int| 0 <= k < x_Actor@.len() ==> (#[trigger] x_Actor@[k])@ == d.text(named_children(d, n, "Actor"@)[k]))
    &&& x_Artist@.len() == named_children(d, n, "Artist"@).len()
    &&& (forall|k: int| 0 <= k < x_Artist@.len() ==> (#[trigger] x_Artist@[k])@ == d.text(named_children(d, n, "Artist"@)[k]))
    &&& opt_str(x_AspectRatio) == opt_child_text(d, n, "AspectRatio"@)
    &&& opt_str(x_AudienceRating) == opt_child_text(d, n, "AudienceRating"@)
    &&& x_Author@.len() == named_children(d, n, "Author"@).len()
    &&& (forall|k: int| 0 <= k < x_Author@.len() ==> (#[trigger] x_Author@[k])@ == d.text(named_children(d, n, "Author"@)[k]))
    &&& opt_str(x_BackFinding) == opt_child_text(d, n, "BackFinding"@)
    &&& opt_str(x_BandMaterialType) == opt_child_text(d, n, "BandMaterialType"@)
    &&& opt_str(x_Binding) == opt_child_text(d, n, "Binding"@)
    &&& opt_str(x_BlurayRegion) == opt_child_text(d, n, "BlurayRegion"@)
    &&& opt_str(x_Brand) == opt_child_text(d, n, "Brand"@)
    &&& opt_str(x_CEROAgeRating) == opt_child_text(d, n, "CEROAgeRating"@)
}

fn item_attributes_part_0(d: &Document, n: Option<usize>) -> (r: Result<(Option<String>, Vec<String>, Vec<String>, Option<String>, Option<String>, Vec<String>, Option<String>, Option<String>, Option<String>, Option<String>, Option<String>, Option<String>), ProtocolError>)
    requires
        d.wf(),
        valid_ref(d, n),
    ensures
        r is Ok <==> item_attributes_ok_0(d.tree(), ref_view(n)),
        r matches Ok(t) ==> item_attributes_is_0(d.tree(), ref_view(n), t.0, t.1, t.2, t.3, t.4, t.5, t.6, t.7, t.8, t.9, t.10, t.11),
{
    proof {
        reveal(item_attributes_ok_0);
        reveal(item_attributes_is_0);
    }
    let val0 = d.attr(n, "lang");
    let val1 = d.child_texts(n, "Actor");
    let val2 = d.child_texts(n, "Artist");
    let val3 = d.opt_child_text(n, "AspectRatio");
    let val4 = d.opt_child_text(n, "AudienceRating");
    let val5 = d.child_texts(n, "Author");
    let val6 = d.opt_child_text(n, "BackFinding");
    let val7 = d.opt_child_text(n, "BandMaterialType");
    let val8 = d.opt_child_text(n, "Binding");
    let val9 = d.opt_child_text(n, "BlurayRegion");
    let val10 = d.opt_child_text(n, "Brand");
    let val11 = d.opt_child_text(n, "CEROAgeRating");
    Ok((val0, val1, val2, val3, val4, val5, val6, val7, val8, val9, val10, val11))
}

/// Whether the fields ChainType to EpisodeSequence of a `ItemAttributes` read from element `n` have values of their types.
#[verifier::opaque]
pub open spec fn item_attributes_ok_1(d: TreeState, n: Option<int>) -> bool {
    &&& (child_named(d, n, "CPUSpeed"@) is Some ==> decimal_with_units_ok(d, child_named(d, n, "CPUSpeed"@)))
    &&& creator_all_ok(d, named_children(d, n, "Creator"@))
    &&& (child_named(d, n, "DisplaySize"@) is Some ==> decimal_with_units_ok(d, child_named(d, n, "DisplaySize"@)))
}

/// Whether the given values are the fields ChainType to EpisodeSequence of the `ItemAttributes` read from element `n`.
#[verifier::opaque]
pub open spec fn item_attributes_is_1(d: TreeState, n: Option<int>, x_ChainType: Option<String>, x_ClaspType: Option<String>, x_Color: Option<String>, x_CPUManufacturer: Option<String>, x_CPUSpeed: Option<DecimalWithUnits>, x_CPUType: Option<String>, x_Creator: Vec<Creator>, x_Department: Option<String>, x_Director: Vec<String>, x_DisplaySize: Option<DecimalWithUnits>, x_Edition: Option<String>, x_EpisodeSequence: Option<String>) -> bool {
    &&& opt_str(x_ChainType) == opt_child_text(d, n, "ChainType"@)
    &&& opt_str(x_ClaspType) == opt_child_text(d, n, "ClaspType"@)
    &&& opt_str(x_Color) == opt_child_text(d, n, "Color"@)
    &&& opt_str(x_CPUManufacturer) == opt_child_text(d, n, "CPUManufacturer"@)
    &&& (x_CPUSpeed is None <==> child_named(d, n, "CPUSpeed"@) is None)
    &&& (x_CPUSpeed matches Some(x) ==> decimal_with_units_is(x, d, child_named(d, n, "CPUSpeed"@)))
    &&& opt_str(x_CPUType) == opt_child_text(d, n, "CPUType"@)
    &&& creator_all_are(x_Creator@, d, named_children(d, n, "Creator"@))
    &&& opt_str(x_Department) == opt_child_text(d, n, "Department"@)
    &&& x_Director@.len() == named_children(d, n, "Director"@).len()
    &&& (forall|k: int| 0 <= k < x_Director@.len() ==> (#[trigger] x_Director@[k])@ == d.text(named_children(d, n, "Director"@)[k]))
    &&& (x_DisplaySize is None <==> child_named(d, n, "DisplaySize"@) is None)
    &&& (x_DisplaySize matches Some(x) ==> decimal_with_units_is(x, d, child_named(d, n, "DisplaySize"@)))
    &&& opt_str(x_Edition) == opt_child_text(d, n, "Edition"@)
    &&& opt_str(x_EpisodeSequence) == opt_child_text(d, n, "EpisodeSequence"@)
}

fn item_attributes_part_1(d: &Document, n: Option<usize>) -> (r: Result<(Option<String>, Option<String>, Option<String>, Option<String>, Option<DecimalWithUnits>, Option<String>, Vec<Creator>, Option<String>, Vec<String>, Option<DecimalWithUnits>, Option<String>, Option<String>), ProtocolError>)
    requires
        d.wf(),
        valid_ref(d, n),
    ensures
        r is Ok <==> item_attributes_ok_1(d.tree(), ref_view(n)),
        r matches Ok(t) ==> item_attributes_is_1(d.tree(), ref_view(n), t.0, t.1, t.2, t.3, t.4, t.5, t.6, t.7, t.8, t.9, t.10, t.11),
{
    proof {
        reveal(item_attributes_ok_1);
        reveal(item_attributes_is_1);
    }
    let val0 = d.opt_child_text(n, "ChainType");
    let val1 = d.opt_child_text(n, "ClaspType");
    let val2 = d.opt_child_text(n, "Color");
    let val3 = d.opt_child_text(n, "CPUManufacturer");
    let val4 = match d.child(n, "CPUSpeed") { Some(c) => match DecimalWithUnits::from_xml(d, Some(c)) { Ok(x) => Some(x), Err(e) => return Err(e) }, None => None };
    let val5 = d.opt_child_text(n, "CPUType");
    let c6 = d.children_named(n, "Creator");
    let val6 = match creator_list_from_xml(d, &c6) { Ok(x) => x, Err(e) => return Err(e) };
    let val7 = d.opt_child_text(n, "Department");
    let val8 = d.child_texts(n, "Director");
    let val9 = match d.child(n, "DisplaySize") { Some(c) => match DecimalWithUnits::from_xml(d, Some(c)) { Ok(x) => Some(x), Err(e) => return Err(e) }, None => None };
    let val10 = d.opt_child_text(n, "Edition");
    let val11 = d.opt_child_text(n, "EpisodeSequence");
    Ok((val0, val1, val2, val3, val4, val5, val6, val7, val8, val9, val10, val11))
}

/// Whether the fields ESRBAgeRating to HardwarePlatform of a `ItemAttributes` read from element `n` have values of their types.
#[verifier::opaque]
pub open spec fn item_attributes_ok_2(d: TreeState, n: Option<int>) -> bool {
    &&& (child_named(d, n, "GolfClubLoft"@) is Some ==> decimal_with_units_ok(d, child_named(d, n, "GolfClubLoft"@)))
    &&& (child_named(d, n, "HardDiskSize"@) is Some ==> decimal_with_units_ok(d, child_named(d, n, "HardDiskSize"@)))
}

/// Whether the given values are the fields ESRBAgeRating to HardwarePlatform of the `ItemAttributes` read from element `n`.
#[verifier::opaque]
pub open spec fn item_attributes_is_2(d: TreeState, n: Option<int>, x_ESRBAgeRating: Option<String>, x_Feature: Vec<String>, x_Flavor: Option<String>, x_Format: Vec<String>, x_GemType: Vec<String>, x_Genre: Option<String>, x_GolfClubFlex: Option<String>, x_GolfClubLoft: Option<DecimalWithUnits>, x_HandOrientation: Option<String>, x_HardDiskInterface: Option<String>, x_HardDiskSize: Option<DecimalWithUnits>, x_HardwarePlatform: Option<String>) -> bool {
    &&& opt_str(x_ESRBAgeRating) == opt_child_text(d, n, "ESRBAgeRating"@)
    &&& x_Feature@.len() == named_children(d, n, "Feature"@).len()
    &&& (forall|k: int| 0 <= k < x_Feature@.len() ==> (#[trigger] x_Feature@[k])@ == d.text(named_children(d, n, "Feature"@)[k]))
    &&& opt_str(x_Flavor) == opt_child_text(d, n, "Flavor"@)
    &&& x_Format@.len() == named_children(d, n, "Format"@).len()
    &&& (forall|k: int| 0 <= k < x_Format@.len() ==> (#[trigger] x_Format@[k])@ == d.text(named_children(d, n, "Format"@)[k]))
    &&& x_GemType@.len() == named_children(d, n, "GemType"@).len()
    &&& (forall|k: int| 0 <= k < x_GemType@.len() ==> (#[trigger] x_GemType@[k])@ == d.text(named_children(d, n, "GemType"@)[k]))
    &&& opt_str(x_Genre) == opt_child_text(d, n, "Genre"@)
    &&& opt_str(x_GolfClubFlex) == opt_child_text(d, n, "GolfClubFlex"@)
    &&& (x_GolfClubLoft is None <==> child_named(d, n, "GolfClubLoft"@) is None)
    &&& (x_GolfClubLoft matches Some(x) ==> decimal_with_units_is(x, d, child_named(d, n, "GolfClubLoft"@)))
    &&& opt_str(x_HandOrientation) == opt_child_text(d, n, "HandOrientation"@)
    &&& opt_str(x_HardDiskInterface) == opt_child_text(d, n, "HardDiskInterface"@)
    &&& (x_HardDiskSize is None <==> child_named(d, n, "HardDiskSize"@) is None)
    &&& (x_HardDiskSize matches Some(x) ==> decimal_with_units_is(x, d, child_named(d, n, "HardDiskSize"@)))
    &&& opt_str(x_HardwarePlatform) == opt_child_text(d, n, "HardwarePlatform"@)
}

fn item_attributes_part_2(d: &Document, n: Option<usize>) -> (r: Result<(Option<String>, Vec<String>, Option<String>, Vec<String>, Vec<String>, Option<String>, Option<String>, Option<DecimalWithUnits>, Option<String>, Option<String>, Option<DecimalWithUnits>, Option<String>), ProtocolError>)
    requires
        d.wf(),
        valid_ref(d, n),
    ensures
        r is Ok <==> item_attributes_ok_2(d.tree(), ref_view(n)),
        r matches Ok(t) ==> item_attributes_is_2(d.tree(), ref_view(n), t.0, t.1, t.2, t.3, t.4, t.5, t.6, t.7, t.8, t.9, t.10, t.11),
{
    proof {
        reveal(item_attributes_ok_2);
        reveal(item_attributes_is_2);
    }
    let val0 = d.opt_child_text(n, "ESRBAgeRating");
    let val1 = d.child_texts(n, "Feature");
    let val2 = d.opt_child_text(n, "Flavor");
    let val3 = d.child_texts(n, "Format");
    let val4 = d.child_texts(n, "GemType");
    let val5 = d.opt_child_text(n, "Genre");
    let val6 = d.opt_child_text(n, "GolfClubFlex");
    let val7 = match d.child(n, "GolfClubLoft") { Some(c) => match DecimalWithUnits::from_xml(d, Some(c)) { Ok(x) => Some(x), Err(e) => return Err(e) }, None => None };
    let val8 = d.opt_child_text(n, "HandOrientation");
    let val9 = d.opt_child_text(n, "HardDiskInterface");
    let val10 = match d.child(n, "HardDiskSize") { Some(c) => match DecimalWithUnits::from_xml(d, Some(c)) { Ok(x) => Some(x), Err(e) => return Err(e) }, None => None };
    let val11 = d.opt_child_text(n, "HardwarePlatform");
    Ok((val0, val1, val2, val3, val4, val5, val6, val7, val8, val9, val10, val11))
}

/// Whether the fields HazardousMaterialType to ListPrice of a `ItemAttributes` read from element `n` have values of their types.
#[verifier::opaque]
pub open spec fn item_attributes_ok_3(d: TreeState, n: Option<int>) -> bool {
    &&& (child_named(d, n, "ItemDimensions"@) is Some ==> dimension_ok(d, child_named(d, n, "ItemDimensions"@)))
    &&& opt_bool_field(d, n, "IsAdultProduct"@) is Some
    &&& opt_bool_field(d, n, "IsAutographed"@) is Some
    &&& opt_bool_field(d, n, "IsEligibleForTradeIn"@) is Some
    &&& opt_bool_field(d, n, "IsMemorabilia"@) is Some
    &&& language_all_ok(d, wrapped_children(d, n, "Languages"@))
    &&& (child_named(d, n, "ListPrice"@) is Some ==> money_type_ok(d, child_named(d, n, "ListPrice"@)))
}

/// Whether the given values are the fields HazardousMaterialType to ListPrice of the `ItemAttributes` read from element `n`.
#[verifier::opaque]
pub open spec fn item_attributes_is_3(d: TreeState, n: Option<int>, x_HazardousMaterialType: Option<String>, x_ItemDimensions: Option<Dimension>, x_IsAdultProduct: Option<bool>, x_IsAutographed: Option<bool>, x_IsEligibleForTradeIn: Option<bool>, x_IsMemorabilia: Option<bool>, x_IssuesPerYear: Option<String>, x_ItemPartNumber: Option<String>, x_Label: Option<String>, x_Languages: Vec<Language>, x_LegalDisclaimer: Option<String>, x_ListPrice: Option<MoneyType>) -> bool {
    &&& opt_str(x_HazardousMaterialType) == opt_child_text(d, n, "HazardousMaterialType"@)
    &&& (x_ItemDimensions is None <==> child_named(d, n, "ItemDimensions"@) is None)
    &&& (x_ItemDimensions matches Some(x) ==> dimension_is(x, d, child_named(d, n, "ItemDimensions"@)))
    &&& opt_bool_field(d, n, "IsAdultProduct"@) == Some(x_IsAdultProduct)
    &&& opt_bool_field(d, n, "IsAutographed"@) == Some(x_IsAutographed)
    &&& opt_bool_field(d, n, "IsEligibleForTradeIn"@) == Some(x_IsEligibleForTradeIn)
    &&& opt_bool_field(d, n, "IsMemorabilia"@) == Some(x_IsMemorabilia)
    &&& opt_str(x_IssuesPerYear) == opt_child_text(d, n, "IssuesPerYear"@)
    &&& opt_str(x_ItemPartNumber) == opt_child_text(d, n, "ItemPartNumber"@)
    &&& opt_str(x_Label) == opt_child_text(d, n, "Label"@)
    &&& language_all_are(x_Languages@, d, wrapped_children(d, n, "Languages"@))
    &&& opt_str(x_LegalDisclaimer) == opt_child_text(d, n, "LegalDisclaimer"@)
    &&& (x_ListPrice is None <==> child_named(d, n, "ListPrice"@) is None)
    &&& (x_ListPrice matches Some(x) ==> money_type_is(x, d, child_named(d, n, "ListPrice"@)))
}

fn item_attributes_part_3(d: &Document, n: Option<usize>) -> (r: Result<(Option<String>, Option<Dimension>, Option<bool>, Option<bool>, Option<bool>, Option<bool>, Option<String>, Option<String>, Option<String>, Vec<Language>, Option<String>, Option<MoneyType>), ProtocolError>)
    requires
        d.wf(),
        valid_ref(d, n),
    ensures
        r is Ok <==> item_attributes_ok_3(d.tree(), ref_view(n)),
        r matches Ok(t) ==> item_attributes_is_3(d.tree(), ref_view(n), t.0, t.1, t.2, t.3, t.4, t.5, t.6, t.7, t.8, t.9, t.10, t.11),
{
    proof {
        reveal(item_attributes_ok_3);
        reveal(item_attributes_is_3);
    }
    let val0 = d.opt_child_text(n, "HazardousMaterialType");
    let val1 = match d.child(n, "ItemDimensions") { Some(c) => match Dimension::from_xml(d, Some(c)) { Ok(x) => Some(x), Err(e) => return Err(e) }, None => None };
    let val2 = match d.opt_child_bool(n, "IsAdultProduct") { Ok(x) => x, Err(e) => return Err(e) };
    let val3 = match d.opt_child_bool(n, "IsAutographed") { Ok(x) => x, Err(e) => return Err(e) };
    let val4 = match d.opt_child_bool(n, "IsEligibleForTradeIn") { Ok(x) => x, Err(e) => return Err(e) };
    let val5 = match d.opt_child_bool(n, "IsMemorabilia") { Ok(x) => x, Err(e) => return Err(e) };
    let val6 = d.opt_child_text(n, "IssuesPerYear");
    let val7 = d.opt_child_text(n, "ItemPartNumber");
    let val8 = d.opt_child_text(n, "Label");
    let c9 = d.wrapped_children(n, "Languages");
    let val9 = match language_list_from_xml(d, &c9) { Ok(x) => x, Err(e) => return Err(e) };
    let val10 = d.opt_child_text(n, "LegalDisclaimer");
    let val11 = match d.child(n, "ListPrice") { Some(c) => match MoneyType::from_xml(d, Some(c)) { Ok(x) => Some(x), Err(e) => return Err(e) }, None => None };
    Ok((val0, val1, val2, val3, val4, val5, val6, val7, val8, val9, val10, val11))
}

/// Whether the fields Manufacturer to NumberOfIssues of a `ItemAttributes` read from element `n` have values of their types.
#[verifier::opaque]
pub open spec fn item_attributes_ok_4(d: TreeState, n: Option<int>) -> bool {
    &&& (child_named(d, n, "ManufacturerMaximumAge"@) is Some ==> decimal_with_units_ok(d, child_named(d, n, "ManufacturerMaximumAge"@)))
    &&& (child_named(d, n, "ManufacturerMinimumAge"@) is Some ==> decimal_with_units_ok(d, child_named(d, n, "ManufacturerMinimumAge"@)))
    &&& (child_named(d, n, "MaximumResolution"@) is Some ==> decimal_with_units_ok(d, child_named(d, n, "MaximumResolution"@)))
    &&& opt_i32_field(d, n, "NumberOfDiscs"@) is Some
    &&& opt_i32_field(d, n, "NumberOfIssues"@) is Some
}

/// Whether the given values are the fields Manufacturer to NumberOfIssues of the `ItemAttributes` read from element `n`.
#[verifier::opaque]
pub open spec fn item_attributes_is_4(d: TreeState, n: Option<int>, x_Manufacturer: Option<String>, x_ManufacturerMaximumAge: Option<DecimalWithUnits>, x_ManufacturerMinimumAge: Option<DecimalWithUnits>, x_ManufacturerPartsWarrantyDescription: Option<String>, x_MaterialType: Vec<String>, x_MaximumResolution: Option<DecimalWithUnits>, x_MediaType: Vec<String>, x_MetalStamp: Option<String>, x_MetalType: Option<String>, x_Model: Option<String>, x_NumberOfDiscs: Option<i32>, x_NumberOfIssues: Option<i32>) -> bool {
    &&& opt_str(x_Manufacturer) == opt_child_text(d, n, "Manufacturer"@)
    &&& (x_ManufacturerMaximumAge is None <==> child_named(d, n, "ManufacturerMaximumAge"@) is None)
    &&& (x_ManufacturerMaximumAge matches Some(x) ==> decimal_with_units_is(x, d, child_named(d, n, "ManufacturerMaximumAge"@)))
    &&& (x_ManufacturerMinimumAge is None <==> child_named(d, n, "ManufacturerMinimumAge"@) is None)
    &&& (x_ManufacturerMinimumAge matches Some(x) ==> decimal_with_units_is(x, d, child_named(d, n, "ManufacturerMinimumAge"@)))
    &&& opt_str(x_ManufacturerPartsWarrantyDescription) == opt_child_text(d, n, "ManufacturerPartsWarrantyDescription"@)
    &&& x_MaterialType@.len() == named_children(d, n, "MaterialType"@).len()
    &&& (forall|k: int| 0 <= k < x_MaterialType@.len() ==> (#[trigger] x_MaterialType@[k])@ == d.text(named_children(d, n, "MaterialType"@)[k]))
    &&& (x_MaximumResolution is None <==> child_named(d, n, "MaximumResolution"@) is None)
    &&& (x_MaximumResolution matches Some(x) ==> decimal_with_units_is(x, d, child_named(d, n, "MaximumResolution"@)))
    &&& x_MediaType@.len() == named_children(d, n, "MediaType"@).len()
    &&& (forall|k: int| 0 <= k < x_MediaType@.len() ==> (#[trigger] x_MediaType@[k])@ == d.text(named_children(d, n, "MediaType"@)[k]))
    &&& opt_str(x_MetalStamp) == opt_child_text(d, n, "MetalStamp"@)
    &&& opt_str(x_MetalType) == opt_child_text(d, n, "MetalType"@)
    &&& opt_str(x_Model) == opt_child_text(d, n, "Model"@)
    &&& opt_i32_field(d, n, "NumberOfDiscs"@) == Some(opt_int(x_NumberOfDiscs))
    &&& opt_i32_field(d, n, "NumberOfIssues"@) == Some(opt_int(x_NumberOfIssues))
}

fn item_attributes_part_4(d: &Document, n: Option<usize>) -> (r: Result<(Option<String>, Option<DecimalWithUnits>, Option<DecimalWithUnits>, Option<String>, Vec<String>, Option<DecimalWithUnits>, Vec<String>, Option<String>, Option<String>, Option<String>, Option<i32>, Option<i32>), ProtocolError>)
    requires
        d.wf(),
        valid_ref(d, n),
    ensures
        r is Ok <==> item_attributes_ok_4(d.tree(), ref_view(n)),
        r matches Ok(t) ==> item_attributes_is_4(d.tree(), ref_view(n), t.0, t.1, t.2, t.3, t.4, t.5, t.6, t.7, t.8, t.9, t.10, t.11),
{
    proof {
        reveal(item_attributes_ok_4);
        reveal(item_attributes_is_4);
    }
    let val0 = d.opt_child_text(n, "Manufacturer");
    let val1 = match d.child(n, "ManufacturerMaximumAge") { Some(c) => match DecimalWithUnits::from_xml(d, Some(c)) { Ok(x) => Some(x), Err(e) => return Err(e) }, None => None };
    let val2 = match d.child(n, "ManufacturerMinimumAge") { Some(c) => match DecimalWithUnits::from_xml(d, Some(c)) { Ok(x) => Some(x), Err(e) => return Err(e) }, None => None };
    let val3 = d.opt_child_text(n, "ManufacturerPartsWarrantyDescription");
    let val4 = d.child_texts(n, "MaterialType");
    let val5 = match d.child(n, "MaximumResolution") { Some(c) => match DecimalWithUnits::from_xml(d, Some(c)) { Ok(x) => Some(x), Err(e) => return Err(e) }, None => None };
    let val6 = d.child_texts(n, "MediaType");
    let val7 = d.opt_child_text(n, "MetalStamp");
    let val8 = d.opt_child_text(n, "MetalType");
    let val9 = d.opt_child_text(n, "Model");
    let val10 = match d.opt_child_i32(n, "NumberOfDiscs") { Ok(x) => x, Err(e) => return Err(e) };
    let val11 = match d.opt_child_i32(n, "NumberOfIssues") { Ok(x) => x, Err(e) => return Err(e) };
    Ok((val0, val1, val2, val3, val4, val5, val6, val7, val8, val9, val10, val11))
}

/// Whether the fields NumberOfItems to ProductGroup of a `ItemAttributes` read from element `n` have values of their types.
#[verifier::opaque]
pub open spec fn item_attributes_ok_5(d: TreeState, n: Option<int>) -> bool {
    &&& opt_i32_field(d, n, "NumberOfItems"@) is Some
    &&& opt_i32_field(d, n, "NumberOfPages"@) is Some
    &&& opt_i32_field(d, n, "NumberOfTracks"@) is Some
    &&& (child_named(d, n, "OpticalZoom"@) is Some ==> decimal_with_units_ok(d, child_named(d, n, "OpticalZoom"@)))
    &&& (child_named(d, n, "PackageDimensions"@) is Some ==> dimension_ok(d, child_named(d, n, "PackageDimensions"@)))
    &&& opt_i32_field(d, n, "PackageQuantity"@) is Some
    &&& opt_i32_field(d, n, "ProcessorCount"@) is Some
}

/// Whether the given values are the fields NumberOfItems to ProductGroup of the `ItemAttributes` read from element `n`.
#[verifier::opaque]
pub open spec fn item_attributes_is_5(d: TreeState, n: Option<int>, x_NumberOfItems: Option<i32>, x_NumberOfPages: Option<i32>, x_NumberOfTracks: Option<i32>, x_OperatingSystem: Vec<String>, x_OpticalZoom: Option<DecimalWithUnits>, x_PackageDimensions: Option<Dimension>, x_PackageQuantity: Option<i32>, x_PartNumber: Option<String>, x_PegiRating: Option<String>, x_Platform: Vec<String>, x_ProcessorCount: Option<i32>, x_ProductGroup: Option<String>) -> bool {
    &&& opt_i32_field(d, n, "NumberOfItems"@) == Some(opt_int(x_NumberOfItems))
    &&& opt_i32_field(d, n, "NumberOfPages"@) == Some(opt_int(x_NumberOfPages))
    &&& opt_i32_field(d, n, "NumberOfTracks"@) == Some(opt_int(x_NumberOfTracks))
    &&& x_OperatingSystem@.len() == named_children(d, n, "OperatingSystem"@).len()
    &&& (forall|k: int| 0 <= k < x_OperatingSystem@.len() ==> (#[trigger] x_OperatingSystem@[k])@ == d.text(named_children(d, n, "OperatingSystem"@)[k]))
    &&& (x_OpticalZoom is None <==> child_named(d, n, "OpticalZoom"@) is None)
    &&& (x_OpticalZoom matches Some(x) ==> decimal_with_units_is(x, d, child_named(d, n, "OpticalZoom"@)))
    &&& (x_PackageDimensions is None <==> child_named(d, n, "PackageDimensions"@) is None)
    &&& (x_PackageDimensions matches Some(x) ==> dimension_is(x, d, child_named(d, n, "PackageDimensions"@)))
    &&& opt_i32_field(d, n, "PackageQuantity"@) == Some(opt_int(x_PackageQuantity))
    &&& opt_str(x_PartNumber) == opt_child_text(d, n, "PartNumber"@)
    &&& opt_str(x_PegiRating) == opt_child_text(d, n, "PegiRating"@)
    &&& x_Platform@.len() == named_children(d, n, "Platform"@).len()
    &&& (forall|k: int| 0 <= k < x_Platform@.len() ==> (#[trigger] x_Platform@[k])@ == d.text(named_children(d, n, "Platform"@)[k]))
    &&& opt_i32_field(d, n, "ProcessorCount"@) == Some(opt_int(x_ProcessorCount))
    &&& opt_str(x_ProductGroup) == opt_child_text(d, n, "ProductGroup"@)
}

fn item_attributes_part_5(d: &Document, n: Option<usize>) -> (r: Result<(Option<i32>, Option<i32>, Option<i32>, Vec<String>, Option<DecimalWithUnits>, Option<Dimension>, Option<i32>, Option<String>, Option<String>, Vec<String>, Option<i32>, Option<String>), ProtocolError>)
    requires
        d.wf(),
        valid_ref(d, n),
    ensures
        r is Ok <==> item_attributes_ok_5(d.tree(), ref_view(n)),
        r matches Ok(t) ==> item_attributes_is_5(d.tree(), ref_view(n), t.0, t.1, t.2, t.3, t.4, t.5, t.6, t.7, t.8, t.9, t.10, t.11),
{
    proof {
        reveal(item_attributes_ok_5);
        reveal(item_attributes_is_5);
    }
    let val0 = match d.opt_child_i32(n, "NumberOfItems") { Ok(x) => x, Err(e) => return Err(e) };
    let val1 = match d.opt_child_i32(n, "NumberOfPages") { Ok(x) => x, Err(e) => return Err(e) };
    let val2 = match d.opt_child_i32(n, "NumberOfTracks") { Ok(x) => x, Err(e) => return Err(e) };
    let val3 = d.child_texts(n, "OperatingSystem");
    let val4 = match d.child(n, "OpticalZoom") { Some(c) => match DecimalWithUnits::from_xml(d, Some(c)) { Ok(x) => Some(x), Err(e) => return Err(e) }, None => None };
    let val5 = match d.child(n, "PackageDimensions") { Some(c) => match Dimension::from_xml(d, Some(c)) { Ok(x) => Some(x), Err(e) => return Err(e) }, None => None };
    let val6 = match d.opt_child_i32(n, "PackageQuantity") { Ok(x) => x, Err(e) => return Err(e) };
    let val7 = d.opt_child_text(n, "PartNumber");
    let val8 = d.opt_child_text(n, "PegiRating");
    let val9 = d.child_texts(n, "Platform");
    let val10 = match d.opt_child_i32(n, "ProcessorCount") { Ok(x) => x, Err(e) => return Err(e) };
    let val11 = d.opt_child_text(n, "ProductGroup");
    Ok((val0, val1, val2, val3, val4, val5, val6, val7, val8, val9, val10, val11))
}

/// Whether the fields ProductTypeName to SeikodoProductCode of a `ItemAttributes` read from element `n` have values of their types.
#[verifier::opaque]
pub open spec fn item_attributes_ok_6(d: TreeState, n: Option<int>) -> bool {
    &&& (child_named(d, n, "RunningTime"@) is Some ==> decimal_with_units_ok(d, child_named(d, n, "RunningTime"@)))
}

/// Whether the given values are the fields ProductTypeName to SeikodoProductCode of the `ItemAttributes` read from element `n`.
#[verifier::opaque]
pub open spec fn item_attributes_is_6(d: TreeState, n: Option<int>, x_ProductTypeName: Option<String>, x_ProductTypeSubcategory: Option<String>, x_PublicationDate: Option<String>, x_Publisher: Option<String>, x_RegionCode: Option<String>, x_ReleaseDate: Option<String>, x_RingSize: Option<String>, x_RunningTime: Option<DecimalWithUnits>, x_ShaftMaterial: Option<String>, x_Scent: Option<String>, x_SeasonSequence: Option<String>, x_SeikodoProductCode: Option<String>) -> bool {
    &&& opt_str(x_ProductTypeName) == opt_child_text(d, n, "ProductTypeName"@)
    &&& opt_str(x_ProductTypeSubcategory) == opt_child_text(d, n, "ProductTypeSubcategory"@)
    &&& opt_str(x_PublicationDate) == opt_child_text(d, n, "PublicationDate"@)
    &&& opt_str(x_Publisher) == opt_child_text(d, n, "Publisher"@)
    &&& opt_str(x_RegionCode) == opt_child_text(d, n, "RegionCode"@)
    &&& opt_str(x_ReleaseDate) == opt_child_text(d, n, "ReleaseDate"@)
    &&& opt_str(x_RingSize) == opt_child_text(d, n, "RingSize"@)
    &&& (x_RunningTime is None <==> child_named(d, n, "RunningTime"@) is None)
    &&& (x_RunningTime matches Some(x) ==> decimal_with_units_is(x, d, child_named(d, n, "RunningTime"@)))
    &&& opt_str(x_ShaftMaterial) == opt_child_text(d, n, "ShaftMaterial"@)
    &&& opt_str(x_Scent) == opt_child_text(d, n, "Scent"@)
    &&& opt_str(x_SeasonSequence) == opt_child_text(d, n, "SeasonSequence"@)
    &&& opt_str(x_SeikodoProductCode) == opt_child_text(d, n, "SeikodoProductCode"@)
}

fn item_attributes_part_6(d: &Document, n: Option<usize>) -> (r: Result<(Option<String>, Option<String>, Option<String>, Option<String>, Option<String>, Option<String>, Option<String>, Option<DecimalWithUnits>, Option<String>, Option<String>, Option<String>, Option<String>), ProtocolError>)
    requires
        d.wf(),
        valid_ref(d, n),
    ensures
        r is Ok <==> item_attributes_ok_6(d.tree(), ref_view(n)),
        r matches Ok(t) ==> item_attributes_is_6(d.tree(), ref_view(n), t.0, t.1, t.2, t.3, t.4, t.5, t.6, t.7, t.8, t.9, t.10, t.11),
{
    proof {
        reveal(item_attributes_ok_6);
        reveal(item_attributes_is_6);
    }
    let val0 = d.opt_child_text(n, "ProductTypeName");
    let val1 = d.opt_child_text(n, "ProductTypeSubcategory");
    let val2 = d.opt_child_text(n, "PublicationDate");
    let val3 = d.opt_child_text(n, "Publisher");
    let val4 = d.opt_child_text(n, "RegionCode");
    let val5 = d.opt_child_text(n, "ReleaseDate");
    let val6 = d.opt_child_text(n, "RingSize");
    let val7 = match d.child(n, "RunningTime") { Some(c) => match DecimalWithUnits::from_xml(d, Some(c)) { Ok(x) => Some(x), Err(e) => return Err(e) }, None => None };
    let val8 = d.opt_child_text(n, "ShaftMaterial");
    let val9 = d.opt_child_text(n, "Scent");
    let val10 = d.opt_child_text(n, "SeasonSequence");
    let val11 = d.opt_child_text(n, "SeikodoProductCode");
    Ok((val0, val1, val2, val3, val4, val5, val6, val7, val8, val9, val10, val11))
}

/// Whether the fields Size to Warranty of a `ItemAttributes` read from element `n` have values of their types.
#[verifier::opaque]
pub open spec fn item_attributes_ok_7(d: TreeState, n: Option<int>) -> bool {
    &&& (child_named(d, n, "SmallImage"@) is Some ==> image_ok(d, child_named(d, n, "SmallImage"@)))
    &&& (child_named(d, n, "SubscriptionLength"@) is Some ==> non_negative_integer_with_units_ok(d, child_named(d, n, "SubscriptionLength"@)))
    &&& (child_named(d, n, "SystemMemorySize"@) is Some ==> decimal_with_units_ok(d, child_named(d, n, "SystemMemorySize"@)))
    &&& (child_named(d, n, "TotalDiamondWeight"@) is Some ==> decimal_with_units_ok(d, child_named(d, n, "TotalDiamondWeight"@)))
    &&& (child_named(d, n, "TotalGemWeight"@) is Some ==> decimal_with_units_ok(d, child_named(d, n, "TotalGemWeight"@)))
}

/// Whether the given values are the fields Size to Warranty of the `ItemAttributes` read from element `n`.
#[verifier::opaque]
pub open spec fn item_attributes_is_7(d: TreeState, n: Option<int>, x_Size: Option<String>, x_SizePerPearl: Option<String>, x_SmallImage: Option<Image>, x_Studio: Option<String>, x_SubscriptionLength: Option<NonNegativeIntegerWithUnits>, x_SystemMemorySize: Option<DecimalWithUnits>, x_SystemMemoryType: Option<String>, x_TheatricalReleaseDate: Option<String>, x_Title: Option<String>, x_TotalDiamondWeight: Option<DecimalWithUnits>, x_TotalGemWeight: Option<DecimalWithUnits>, x_Warranty: Option<String>) -> bool {
    &&& opt_str(x_Size) == opt_child_text(d, n, "Size"@)
    &&& opt_str(x_SizePerPearl) == opt_child_text(d, n, "SizePerPearl"@)
    &&& (x_SmallImage is None <==> child_named(d, n, "SmallImage"@) is None)
    &&& (x_SmallImage matches Some(x) ==> image_is(x, d, child_named(d, n, "SmallImage"@)))
    &&& opt_str(x_Studio) == opt_child_text(d, n, "Studio"@)
    &&& (x_SubscriptionLength is None <==> child_named(d, n, "SubscriptionLength"@) is None)
    &&& (x_SubscriptionLength matches Some(x) ==> non_negative_integer_with_units_is(x, d, child_named(d, n, "SubscriptionLength"@)))
    &&& (x_SystemMemorySize is None <==> child_named(d, n, "SystemMemorySize"@) is None)
    &&& (x_SystemMemorySize matches Some(x) ==> decimal_with_units_is(x, d, child_named(d, n, "SystemMemorySize"@)))
    &&& opt_str(x_SystemMemoryType) == opt_child_text(d, n, "SystemMemoryType"@)
    &&& opt_str(x_TheatricalReleaseDate) == opt_child_text(d, n, "TheatricalReleaseDate"@)
    &&& opt_str(x_Title) == opt_child_text(d, n, "Title"@)
    &&& (x_TotalDiamondWeight is None <==> child_named(d, n, "TotalDiamondWeight"@) is None)
    &&& (x_TotalDiamondWeight matches Some(x) ==> decimal_with_units_is(x, d, child_named(d, n, "TotalDiamondWeight"@)))
    &&& (x_TotalGemWeight is None <==> child_named(d, n, "TotalGemWeight"@) is None)
    &&& (x_TotalGemWeight matches Some(x) ==> decimal_with_units_is(x, d, child_named(d, n, "TotalGemWeight"@)))
    &&& opt_str(x_Warranty) == opt_child_text(d, n, "Warranty"@)
}

fn item_attributes_part_7(d: &Document, n: Option<usize>) -> (r: Result<(Option<String>, Option<String>, Option<Image>, Option<String>, Option<NonNegativeIntegerWithUnits>, Option<DecimalWithUnits>, Option<String>, Option<String>, Option<String>, Option<DecimalWithUnits>, Option<DecimalWithUnits>, Option<String>), ProtocolError>)
    requires
        d.wf(),
        valid_ref(d, n),
    ensures
        r is Ok <==> item_attributes_ok_7(d.tree(), ref_view(n)),
        r matches Ok(t) ==> item_attributes_is_7(d.tree(), ref_view(n), t.0, t.1, t.2, t.3, t.4, t.5, t.6, t.7, t.8, t.9, t.10, t.11),
{
    proof {
        reveal(item_attributes_ok_7);
        reveal(item_attributes_is_7);
    }
    let val0 = d.opt_child_text(n, "Size");
    let val1 = d.opt_child_text(n, "SizePerPearl");
    let val2 = match d.child(n, "SmallImage") { Some(c) => match Image::from_xml(d, Some(c)) { Ok(x) => Some(x), Err(e) => return Err(e) }, None => None };
    let val3 = d.opt_child_text(n, "Studio");
    let val4 = match d.child(n, "SubscriptionLength") { Some(c) => match NonNegativeIntegerWithUnits::from_xml(d, Some(c)) { Ok(x) => Some(x), Err(e) => return Err(e) }, None => None };
    let val5 = match d.child(n, "SystemMemorySize") { Some(c) => match DecimalWithUnits::from_xml(d, Some(c)) { Ok(x) => Some(x), Err(e) => return Err(e) }, None => None };
    let val6 = d.opt_child_text(n, "SystemMemoryType");
    let val7 = d.opt_child_text(n, "TheatricalReleaseDate");
    let val8 = d.opt_child_text(n, "Title");
    let val9 = match d.child(n, "TotalDiamondWeight") { Some(c) => match DecimalWithUnits::from_xml(d, Some(c)) { Ok(x) => Some(x), Err(e) => return Err(e) }, None => None };
    let val10 = match d.child(n, "TotalGemWeight") { Some(c) => match DecimalWithUnits::from_xml(d, Some(c)) { Ok(x) => Some(x), Err(e) => return Err(e) }, None => None };
    let val11 = d.opt_child_text(n, "Warranty");
    Ok((val0, val1, val2, val3, val4, val5, val6, val7, val8, val9, val10, val11))
}

/// Whether the fields WEEETaxValue to WEEETaxValue of a `ItemAttributes` read from element `n` have values of their types.
#[verifier::opaque]
pub open spec fn item_attributes_ok_8(d: TreeState, n: Option<int>) -> bool {
    &&& (child_named(d, n, "WEEETaxValue"@) is Some ==> money_type_ok(d, child_named(d, n, "WEEETaxValue"@)))
}

/// Whether the given values are the fields WEEETaxValue to WEEETaxValue of the `ItemAttributes` read from element `n`.
#[verifier::opaque]
pub open spec fn item_attributes_is_8(d: TreeState, n: Option<int>, x_WEEETaxValue: Option<MoneyType>) -> bool {
    &&& (x_WEEETaxValue is None <==> child_named(d, n, "WEEETaxValue"@) is None)
    &&& (x_WEEETaxValue matches Some(x) ==> money_type_is(x, d, child_named(d, n, "WEEETaxValue"@)))
}

fn item_attributes_part_8(d: &Document, n: Option<usize>) -> (r: Result<(Option<MoneyType>,), ProtocolError>)
    requires
        d.wf(),
        valid_ref(d, n),
    ensures
        r is Ok <==> item_attributes_ok_8(d.tree(), ref_view(n)),
        r matches Ok(t) ==> item_attributes_is_8(d.tree(), ref_view(n), t.0),
{
    proof {
        reveal(item_attributes_ok_8);
        reveal(item_attributes_is_8);
    }
    let val0 = match d.child(n, "WEEETaxValue") { Some(c) => match MoneyType::from_xml(d, Some(c)) { Ok(x) => Some(x), Err(e) => return Err(e) }, None => None };
    Ok((val0,))
}

/// Whether every field of a `ItemAttributes` read from element `n` has a value of its type.
pub open spec fn item_attributes_ok(d: TreeState, n: Option<int>) -> bool {
    &&& item_attributes_ok_0(d, n)
    &&& item_attributes_ok_1(d, n)
    &&& item_attributes_ok_2(d, n)
    &&& item_attributes_ok_3(d, n)
    &&& item_attributes_ok_4(d, n)
    &&& item_attributes_ok_5(d, n)
    &&& item_attributes_ok_6(d, n)
    &&& item_attributes_ok_7(d, n)
    &&& item_attributes_ok_8(d, n)
}

/// Whether `v` is the `ItemAttributes` read from element `n`; an absent element gives
/// every field its default.
pub open spec fn item_attributes_is(v: ItemAttributes, d: TreeState, n: Option<int>) -> bool {
    &&& item_attributes_is_0(d, n, v.Language, v.Actor, v.Artist, v.AspectRatio, v.AudienceRating, v.Author, v.BackFinding, v.BandMaterialType, v.Binding, v.BlurayRegion, v.Brand, v.CEROAgeRating)
    &&& item_attributes_is_1(d, n, v.ChainType, v.ClaspType, v.Color, v.CPUManufacturer, v.CPUSpeed, v.CPUType, v.Creator, v.Department, v.Director, v.DisplaySize, v.Edition, v.EpisodeSequence)
    &&& item_attributes_is_2(d, n, v.ESRBAgeRating, v.Feature, v.Flavor, v.Format, v.GemType, v.Genre, v.GolfClubFlex, v.GolfClubLoft, v.HandOrientation, v.HardDiskInterface, v.HardDiskSize, v.HardwarePlatform)
    &&& item_attributes_is_3(d, n, v.HazardousMaterialType, v.ItemDimensions, v.IsAdultProduct, v.IsAutographed, v.IsEligibleForTradeIn, v.IsMemorabilia, v.IssuesPerYear, v.ItemPartNumber, v.Label, v.Languages, v.LegalDisclaimer, v.ListPrice)
    &&& item_attributes_is_4(d, n, v.Manufacturer, v.ManufacturerMaximumAge, v.ManufacturerMinimumAge, v.ManufacturerPartsWarrantyDescription, v.MaterialType, v.MaximumResolution, v.MediaType, v.MetalStamp, v.MetalType, v.Model, v.NumberOfDiscs, v.NumberOfIssues)
    &&& item_attributes_is_5(d, n, v.NumberOfItems, v.NumberOfPages, v.NumberOfTracks, v.OperatingSystem, v.OpticalZoom, v.PackageDimensions, v.PackageQuantity, v.PartNumber, v.PegiRating, v.Platform, v.ProcessorCount, v.ProductGroup)
    &&& item_attributes_is_6(d, n, v.ProductTypeName, v.ProductTypeSubcategory, v.PublicationDate, v.Publisher, v.RegionCode, v.ReleaseDate, v.RingSize, v.RunningTime, v.ShaftMaterial, v.Scent, v.SeasonSequence, v.SeikodoProductCode)
    &&& item_attributes_is_7(d, n, v.Size, v.SizePerPearl, v.SmallImage, v.Studio, v.SubscriptionLength, v.SystemMemorySize, v.SystemMemoryType, v.TheatricalReleaseDate, v.Title, v.TotalDiamondWeight, v.TotalGemWeight, v.Warranty)
    &&& item_attributes_is_8(d, n, v.WEEETaxValue)
}

impl ItemAttributes {
    /// Reads a `ItemAttributes` from element `n`: each field from its child element
    /// (the last one of that name) or attribute, absent ones at their default.
    /// Fails when a number or boolean field holds text of another kind.
    pub fn from_xml(d: &Document, n: Option<usize>) -> (r: Result<ItemAttributes, ProtocolError>)
        requires
            d.wf(),
            valid_ref(d, n),
        ensures
            r is Ok <==> item_attributes_ok(d.tree(), ref_view(n)),
            r matches Ok(v) ==> item_attributes_is(v, d.tree(), ref_view(n)),
    {
        let (p0_0, p0_1, p0_2, p0_3, p0_4, p0_5, p0_6, p0_7, p0_8, p0_9, p0_10, p0_11) = match item_attributes_part_0(d, n) { Ok(t) => t, Err(e) => return Err(e) };
        let (p1_0, p1_1, p1_2, p1_3, p1_4, p1_5, p1_6, p1_7, p1_8, p1_9, p1_10, p1_11) = match item_attributes_part_1(d, n) { Ok(t) => t, Err(e) => return Err(e) };
        let (p2_0, p2_1, p2_2, p2_3, p2_4, p2_5, p2_6, p2_7, p2_8, p2_9, p2_10, p2_11) = match item_attributes_part_2(d, n) { Ok(t) => t, Err(e) => return Err(e) };
        let (p3_0, p3_1, p3_2, p3_3, p3_4, p3_5, p3_6, p3_7, p3_8, p3_9, p3_10, p3_11) = match item_attributes_part_3(d, n) { Ok(t) => t, Err(e) => return Err(e) };
        let (p4_0, p4_1, p4_2, p4_3, p4_4, p4_5, p4_6, p4_7, p4_8, p4_9, p4_10, p4_11) = match item_attributes_part_4(d, n) { Ok(t) => t, Err(e) => return Err(e) };
        let (p5_0, p5_1, p5_2, p5_3, p5_4, p5_5, p5_6, p5_7, p5_8, p5_9, p5_10, p5_11) = match item_attributes_part_5(d, n) { Ok(t) => t, Err(e) => return Err(e) };
        let (p6_0, p6_1, p6_2, p6_3, p6_4, p6_5, p6_6, p6_7, p6_8, p6_9, p6_10, p6_11) = match item_attributes_part_6(d, n) { Ok(t) => t, Err(e) => return Err(e) };
        let (p7_0, p7_1, p7_2, p7_3, p7_4, p7_5, p7_6, p7_7, p7_8, p7_9, p7_10, p7_11) = match item_attributes_part_7(d, n) { Ok(t) => t, Err(e) => return Err(e) };
        let (p8_0,) = match item_attributes_part_8(d, n) { Ok(t) => t, Err(e) => return Err(e) };
        Ok(ItemAttributes { Language: p0_0, Actor: p0_1, Artist: p0_2, AspectRatio: p0_3, AudienceRating: p0_4, Author: p0_5, BackFinding: p0_6, BandMaterialType: p0_7, Binding: p0_8, BlurayRegion: p0_9, Brand: p0_10, CEROAgeRating: p0_11, ChainType: p1_0, ClaspType: p1_1, Color: p1_2, CPUManufacturer: p1_3, CPUSpeed: p1_4, CPUType: p1_5, Creator: p1_6, Department: p1_7, Director: p1_8, DisplaySize: p1_9, Edition: p1_10, EpisodeSequence: p1_11, ESRBAgeRating: p2_0, Feature: p2_1, Flavor: p2_2, Format: p2_3, GemType: p2_4, Genre: p2_5, GolfClubFlex: p2_6, GolfClubLoft: p2_7, HandOrientation: p2_8, HardDiskInterface: p2_9, HardDiskSize: p2_10, HardwarePlatform: p2_11, HazardousMaterialType: p3_0, ItemDimensions: p3_1, IsAdultProduct: p3_2, IsAutographed: p3_3, IsEligibleForTradeIn: p3_4, IsMemorabilia: p3_5, IssuesPerYear: p3_6, ItemPartNumber: p3_7, Label: p3_8, Languages: p3_9, LegalDisclaimer: p3_10, ListPrice: p3_11, Manufacturer: p4_0, ManufacturerMaximumAge: p4_1, ManufacturerMinimumAge: p4_2, ManufacturerPartsWarrantyDescription: p4_3, MaterialType: p4_4, MaximumResolution: p4_5, MediaType: p4_6, MetalStamp: p4_7, MetalType: p4_8, Model: p4_9, NumberOfDiscs: p4_10, NumberOfIssues: p4_11, NumberOfItems: p5_0, NumberOfPages: p5_1, NumberOfTracks: p5_2, OperatingSystem: p5_3, OpticalZoom: p5_4, PackageDimensions: p5_5, PackageQuantity: p5_6, PartNumber: p5_7, PegiRating: p5_8, Platform: p5_9, ProcessorCount: p5_10, ProductGroup: p5_11, ProductTypeName: p6_0, ProductTypeSubcategory: p6_1, PublicationDate: p6_2, Publisher: p6_3, RegionCode: p6_4, ReleaseDate: p6_5, RingSize: p6_6, RunningTime: p6_7, ShaftMaterial: p6_8, Scent: p6_9, SeasonSequence: p6_10, SeikodoProductCode: p6_11, Size: p7_0, SizePerPearl: p7_1, SmallImage: p7_2, Studio: p7_3, SubscriptionLength: p7_4, SystemMemorySize: p7_5, SystemMemoryType: p7_6, TheatricalReleaseDate: p7_7, Title: p7_8, TotalDiamondWeight: p7_9, TotalGemWeight: p7_10, Warranty: p7_11, WEEETaxValue: p8_0 })
    }
}

/// Whether every element of `items` holds a valid `ItemAttributes`.
pub open spec fn item_attributes_all_ok(d: TreeState, items: Seq<int>) -> bool {
    forall|k: int| 0 <= k < items.len() ==> item_attributes_ok(d, Some(#[trigger] items[k]))
}

/// Whether `v` holds the `ItemAttributes` of each element of `items`, in order.
pub open spec fn item_attributes_all_are(v: Seq<ItemAttributes>, d: TreeState, items: Seq<int>) -> bool {
    &&& v.len() == items.len()
    &&& forall|k: int| 0 <= k < items.len() ==> item_attributes_is(#[trigger] v[k], d, Some(items[k]))
}

/// Reads a `ItemAttributes` from each element of `items`, in order.
pub fn item_attributes_list_from_xml(d: &Document, items: &Vec<usize>) -> (r: Result<Vec<ItemAttributes>, ProtocolError>)
    requires
        d.wf(),
        forall|k: int| 0 <= k < items@.len() ==> (#[trigger] items@[k] as int) < d.len(),
    ensures
        r is Ok <==> item_attributes_all_ok(d.tree(), positions(items@)),
        r matches Ok(v) ==> item_attributes_all_are(v@, d.tree(), positions(items@)),
{
    let mut out: Vec<ItemAttributes> = Vec::new();
    let mut k: usize = 0;
    while k < items.len()
        invariant
            d.wf(),
            forall|j: int| 0 <= j < items@.len() ==> (#[trigger] items@[j] as int) < d.len(),
            k <= items@.len(),
            out@.len() == k,
            forall|j: int| 0 <= j < k ==> item_attributes_ok(d.tree(), Some(#[trigger] positions(items@)[j])),
            forall|j: int| 0 <= j < k ==> item_attributes_is(#[trigger] out@[j], d.tree(), Some(positions(items@)[j])),
        decreases items.len() - k,
    {
        match ItemAttributes::from_xml(d, Some(items[k])) {
            Ok(x) => out.push(x),
            Err(e) => {
                assert(!item_attributes_ok(d.tree(), Some(positions(items@)[k as int])));
                return Err(e);
            },
        }
        k = k + 1;
    }
    Ok(out)
}

/// The item that a lowest-priced-offers answer is about.
#[allow(non_snake_case)]
#[derive(Clone, Debug, Default, PartialEq)]
pub struct Identifier {
    pub MarketplaceId: String,
    pub SellerSKU: String,
    pub ItemCondition: ItemCondition,
    pub TimeOfOfferChange: Option<UtcDateTime>,
}

/// Whether every field of a `Identifier` read from element `n` has a value of its type.
pub open spec fn identifier_ok(d: TreeState, n: Option<int>) -> bool {
    &&& opt_date_field(d, n, "TimeOfOfferChange"@) is Some
}

/// Whether `v` is the `Identifier` read from element `n`; an absent element gives
/// every field its default.
pub open spec fn identifier_is(v: Identifier, d: TreeState, n: Option<int>) -> bool {
    &&& v.MarketplaceId@ == child_text(d, n, "MarketplaceId"@)
    &&& v.SellerSKU@ == child_text(d, n, "SellerSKU"@)
    &&& item_condition_is(v.ItemCondition, child_text(d, n, "ItemCondition"@))
    &&& opt_date_field(d, n, "TimeOfOfferChange"@) == Some(v.TimeOfOfferChange)
}

impl Identifier {
    /// Reads a `Identifier` from element `n`: each field from its child element
    /// (the last one of that name) or attribute, absent ones at their default.
    /// Fails when a number or boolean field holds text of another kind.
    pub fn from_xml(d: &Document, n: Option<usize>) -> (r: Result<Identifier, ProtocolError>)
        requires
            d.wf(),
            valid_ref(d, n),
        ensures
            r is Ok <==> identifier_ok(d.tree(), ref_view(n)),
            r matches Ok(v) ==> identifier_is(v, d.tree(), ref_view(n)),
    {
        let val0 = d.child_text(n, "MarketplaceId");
        let val1 = d.child_text(n, "SellerSKU");
        let t2 = d.child_text(n, "ItemCondition");
        let val2 = ItemCondition::from_wire(t2.as_str());
        let val3 = match d.opt_child_date(n, "TimeOfOfferChange") { Ok(x) => x, Err(e) => return Err(e) };
        Ok(Identifier { MarketplaceId: val0, SellerSKU: val1, ItemCondition: val2, TimeOfOfferChange: val3 })
    }
}

/// How long an offer takes to ship.
#[allow(non_snake_case)]
#[derive(Clone, Debug, Default, PartialEq)]
pub struct ShippingTime {
    pub MinimumHours: Option<i32>,
    pub MaximumHours: Option<i32>,
    pub AvailableDate: Option<UtcDateTime>,
    pub AvailabilityType: Option<AvailabilityType>,
}

/// Whether every field of a `ShippingTime` read from element `n` has a value of its type.
pub open spec fn shipping_time_ok(d: TreeState, n: Option<int>) -> bool {
    &&& opt_i32_attr(d, n, "minimumHours"@) is Some
    &&& opt_i32_attr(d, n, "maximumHours"@) is Some
    &&& opt_date_attr(d, n, "availabilityDate"@) is Some
}

/// Whether `v` is the `ShippingTime` read from element `n`; an absent element gives
/// every field its default.
pub open spec fn shipping_time_is(v: ShippingTime, d: TreeState, n: Option<int>) -> bool {
    &&& opt_i32_attr(d, n, "minimumHours"@) == Some(opt_int(v.MinimumHours))
    &&& opt_i32_attr(d, n, "maximumHours"@) == Some(opt_int(v.MaximumHours))
    &&& opt_date_attr(d, n, "availabilityDate"@) == Some(v.AvailableDate)
    &&& (v.AvailabilityType is None <==> attr_of(d, n, "availabilityType"@) is None)
    &&& (v.AvailabilityType matches Some(c) ==> availability_type_is(c, attr_of(d, n, "availabilityType"@)->0))
}

impl ShippingTime {
    /// Reads a `ShippingTime` from element `n`: each field from its child element
    /// (the last one of that name) or attribute, absent ones at their default.
    /// Fails when a number or boolean field holds text of another kind.
    pub fn from_xml(d: &Document, n: Option<usize>) -> (r: Result<ShippingTime, ProtocolError>)
        requires
            d.wf(),
            valid_ref(d, n),
        ensures
            r is Ok <==> shipping_time_ok(d.tree(), ref_view(n)),
            r matches Ok(v) ==> shipping_time_is(v, d.tree(), ref_view(n)),
    {
        let val0 = match d.opt_attr_i32(n, "minimumHours") { Ok(x) => x, Err(e) => return Err(e) };
        let val1 = match d.opt_attr_i32(n, "maximumHours") { Ok(x) => x, Err(e) => return Err(e) };
        let val2 = match d.opt_attr_date(n, "availabilityDate") { Ok(x) => x, Err(e) => return Err(e) };
        let val3 = match d.attr(n, "availabilityType") { Some(t) => Some(AvailabilityType::from_wire(t.as_str())), None => None };
        Ok(ShippingTime { MinimumHours: val0, MaximumHours: val1, AvailableDate: val2, AvailabilityType: val3 })
    }
}

/// One of the lowest-priced offers on an item.
#[allow(non_snake_case)]
#[derive(Clone, Debug, Default, PartialEq)]
pub struct Offer {
    pub MyOffer: bool,
    pub SubCondition: String,
    pub SellerFeedbackRating: SellerFeedbackRating,
    pub ShippingTime: ShippingTime,
    pub ListingPrice: MoneyType,
    pub Shipping: MoneyType,
    pub ShipsFrom: Option<ShipsFrom>,
    pub IsFulfilledByAmazon: bool,
    pub IsBuyBoxWinner: bool,
    pub IsFeaturedMerchant: bool,
}

/// Whether every field of a `Offer` read from element `n` has a value of its type.
pub open spec fn offer_ok(d: TreeState, n: Option<int>) -> bool {
    &&& bool_field(d, n, "MyOffer"@) is Some
    &&& seller_feedback_rating_ok(d, child_named(d, n, "SellerFeedbackRating"@))
    &&& shipping_time_ok(d, child_named(d, n, "ShippingTime"@))
    &&& money_type_ok(d, child_named(d, n, "ListingPrice"@))
    &&& money_type_ok(d, child_named(d, n, "Shipping"@))
    &&& (child_named(d, n, "ShipsFrom"@) is Some ==> ships_from_ok(d, child_named(d, n, "ShipsFrom"@)))
    &&& bool_field(d, n, "IsFulfilledByAmazon"@) is Some
    &&& bool_field(d, n, "IsBuyBoxWinner"@) is Some
    &&& bool_field(d, n, "IsFeaturedMerchant"@) is Some
}

/// Whether `v` is the `Offer` read from element `n`; an absent element gives
/// every field its default.
pub open spec fn offer_is(v: Offer, d: TreeState, n: Option<int>) -> bool {
    &&& bool_field(d, n, "MyOffer"@) == Some(v.MyOffer)
    &&& v.SubCondition@ == child_text(d, n, "SubCondition"@)
    &&& seller_feedback_rating_is(v.SellerFeedbackRating, d, child_named(d, n, "SellerFeedbackRating"@))
    &&& shipping_time_is(v.ShippingTime, d, child_named(d, n, "ShippingTime"@))
    &&& money_type_is(v.ListingPrice, d, child_named(d, n, "ListingPrice"@))
    &&& money_type_is(v.Shipping, d, child_named(d, n, "Shipping"@))
    &&& (v.ShipsFrom is None <==> child_named(d, n, "ShipsFrom"@) is None)
    &&& (v.ShipsFrom matches Some(x) ==> ships_from_is(x, d, child_named(d, n, "ShipsFrom"@)))
    &&& bool_field(d, n, "IsFulfilledByAmazon"@) == Some(v.IsFulfilledByAmazon)
    &&& bool_field(d, n, "IsBuyBoxWinner"@) == Some(v.IsBuyBoxWinner)
    &&& bool_field(d, n, "IsFeaturedMerchant"@) == Some(v.IsFeaturedMerchant)
}

impl Offer {
    /// Reads a `Offer` from element `n`: each field from its child element
    /// (the last one of that name) or attribute, absent ones at their default.
    /// Fails when a number or boolean field holds text of another kind.
    pub fn from_xml(d: &Document, n: Option<usize>) -> (r: Result<Offer, ProtocolError>)
        requires
            d.wf(),
            valid_ref(d, n),
        ensures
            r is Ok <==> offer_ok(d.tree(), ref_view(n)),
            r matches Ok(v) ==> offer_is(v, d.tree(), ref_view(n)),
    {
        let val0 = match d.child_bool(n, "MyOffer") { Ok(x) => x, Err(e) => return Err(e) };
        let val1 = d.child_text(n, "SubCondition");
        let val2 = match SellerFeedbackRating::from_xml(d, d.child(n, "SellerFeedbackRating")) { Ok(x) => x, Err(e) => return Err(e) };
        let val3 = match ShippingTime::from_xml(d, d.child(n, "ShippingTime")) { Ok(x) => x, Err(e) => return Err(e) };
        let val4 = match MoneyType::from_xml(d, d.child(n, "ListingPrice")) { Ok(x) => x, Err(e) => return Err(e) };
        let val5 = match MoneyType::from_xml(d, d.child(n, "Shipping")) { Ok(x) => x, Err(e) => return Err(e) };
        let val6 = match d.child(n, "ShipsFrom") { Some(c) => match ShipsFrom::from_xml(d, Some(c)) { Ok(x) => Some(x), Err(e) => return Err(e) }, None => None };
        let val7 = match d.child_bool(n, "IsFulfilledByAmazon") { Ok(x) => x, Err(e) => return Err(e) };
        let val8 = match d.child_bool(n, "IsBuyBoxWinner") { Ok(x) => x, Err(e) => return Err(e) };
        let val9 = match d.child_bool(n, "IsFeaturedMerchant") { Ok(x) => x, Err(e) => return Err(e) };
        Ok(Offer { MyOffer: val0, SubCondition: val1, SellerFeedbackRating: val2, ShippingTime: val3, ListingPrice: val4, Shipping: val5, ShipsFrom: val6, IsFulfilledByAmazon: val7, IsBuyBoxWinner: val8, IsFeaturedMerchant: val9 })
    }
}

/// Whether every element of `items` holds a valid `Offer`.
pub open spec fn offer_all_ok(d: TreeState, items: Seq<int>) -> bool {
    forall|k: int| 0 <= k < items.len() ==> offer_ok(d, Some(#[trigger] items[k]))
}

/// Whether `v` holds the `Offer` of each element of `items`, in order.
pub open spec fn offer_all_are(v: Seq<Offer>, d: TreeState, items: Seq<int>) -> bool {
    &&& v.len() == items.len()
    &&& forall|k: int| 0 <= k < items.len() ==> offer_is(#[trigger] v[k], d, Some(items[k]))
}

/// Reads a `Offer` from each element of `items`, in order.
pub fn offer_list_from_xml(d: &Document, items: &Vec<usize>) -> (r: Result<Vec<Offer>, ProtocolError>)
    requires
        d.wf(),
        forall|k: int| 0 <= k < items@.len() ==> (#[trigger] items@[k] as int) < d.len(),
    ensures
        r is Ok <==> offer_all_ok(d.tree(), positions(items@)),
        r matches Ok(v) ==> offer_all_are(v@, d.tree(), positions(items@)),
{
    let mut out: Vec<Offer> = Vec::new();
    let mut k: usize = 0;
    while k < items.len()
        invariant
            d.wf(),
            forall|j: int| 0 <= j < items@.len() ==> (#[trigger] items@[j] as int) < d.len(),
            k <= items@.len(),
            out@.len() == k,
            forall|j: int| 0 <= j < k ==> offer_ok(d.tree(), Some(#[trigger] positions(items@)[j])),
            forall|j: int| 0 <= j < k ==> offer_is(#[trigger] out@[j], d.tree(), Some(positions(items@)[j])),
        decreases items.len() - k,
    {
        match Offer::from_xml(d, Some(items[k])) {
            Ok(x) => out.push(x),
            Err(e) => {
                assert(!offer_ok(d.tree(), Some(positions(items@)[k as int])));
                return Err(e);
            },
        }
        k = k + 1;
    }
    Ok(out)
}

/// The payload of `GetLowestPricedOffersForSKU`.
#[allow(non_snake_case)]
#[derive(Clone, Debug, Default, PartialEq)]
pub struct GetLowestPricedOffersForSKUResponse {
    pub Identifier: Identifier,
    pub Summary: Summary,
    pub Offers: Vec<Offer>,
}

/// Whether every field of a `GetLowestPricedOffersForSKUResponse` read from element `n` has a value of its type.
pub open spec fn get_lowest_priced_offers_for_sku_response_ok(d: TreeState, n: Option<int>) -> bool {
    &&& identifier_ok(d, child_named(d, n, "Identifier"@))
    &&& summary_ok(d, child_named(d, n, "Summary"@))
    &&& offer_all_ok(d, wrapped_children(d, n, "Offers"@))
}

/// Whether `v` is the `GetLowestPricedOffersForSKUResponse` read from element `n`; an absent element gives
/// every field its default.
pub open spec fn get_lowest_priced_offers_for_sku_response_is(v: GetLowestPricedOffersForSKUResponse, d: TreeState, n: Option<int>) -> bool {
    &&& identifier_is(v.Identifier, d, child_named(d, n, "Identifier"@))
    &&& summary_is(v.Summary, d, child_named(d, n, "Summary"@))
    &&& offer_all_are(v.Offers@, d, wrapped_children(d, n, "Offers"@))
}

impl GetLowestPricedOffersForSKUResponse {
    /// Reads a `GetLowestPricedOffersForSKUResponse` from element `n`: each field from its child element
    /// (the last one of that name) or attribute, absent ones at their default.
    /// Fails when a number or boolean field holds text of another kind.
    pub fn from_xml(d: &Document, n: Option<usize>) -> (r: Result<GetLowestPricedOffersForSKUResponse, ProtocolError>)
        requires
            d.wf(),
            valid_ref(d, n),
        ensures
            r is Ok <==> get_lowest_priced_offers_for_sku_response_ok(d.tree(), ref_view(n)),
            r matches Ok(v) ==> get_lowest_priced_offers_for_sku_response_is(v, d.tree(), ref_view(n)),
    {
        let val0 = match Identifier::from_xml(d, d.child(n, "Identifier")) { Ok(x) => x, Err(e) => return Err(e) };
        let val1 = match Summary::from_xml(d, d.child(n, "Summary")) { Ok(x) => x, Err(e) => return Err(e) };
        let c2 = d.wrapped_children(n, "Offers");
        let val2 = match offer_list_from_xml(d, &c2) { Ok(x) => x, Err(e) => return Err(e) };
        Ok(GetLowestPricedOffersForSKUResponse { Identifier: val0, Summary: val1, Offers: val2 })
    }
}

/// The price answer for one ASIN.
#[allow(non_snake_case)]
#[derive(Clone, Debug, Default, PartialEq)]
pub struct GetMyPriceForASINResult {
    pub ASIN: String,
    pub Status: String,
    pub Product: Product,
}

/// Whether every field of a `GetMyPriceForASINResult` read from element `n` has a value of its type.
pub open spec fn get_my_price_for_asin_result_ok(d: TreeState, n: Option<int>) -> bool {
    &&& product_ok(d, child_named(d, n, "Product"@))
}

/// Whether `v` is the `GetMyPriceForASINResult` read from element `n`; an absent element gives
/// every field its default.
pub open spec fn get_my_price_for_asin_result_is(v: GetMyPriceForASINResult, d: TreeState, n: Option<int>) -> bool {
    &&& v.ASIN@ == attr_text(d, n, "ASIN"@)
    &&& v.Status@ == attr_text(d, n, "status"@)
    &&& product_is(v.Product, d, child_named(d, n, "Product"@))
}

impl GetMyPriceForASINResult {
    /// Reads a `GetMyPriceForASINResult` from element `n`: each field from its child element
    /// (the last one of that name) or attribute, absent ones at their default.
    /// Fails when a number or boolean field holds text of another kind.
    pub fn from_xml(d: &Document, n: Option<usize>) -> (r: Result<GetMyPriceForASINResult, ProtocolError>)
        requires
            d.wf(),
            valid_ref(d, n),
        ensures
            r is Ok <==> get_my_price_for_asin_result_ok(d.tree(), ref_view(n)),
            r matches Ok(v) ==> get_my_price_for_asin_result_is(v, d.tree(), ref_view(n)),
    {
        let val0 = d.attr_text(n, "ASIN");
        let val1 = d.attr_text(n, "status");
        let val2 = match Product::from_xml(d, d.child(n, "Product")) { Ok(x) => x, Err(e) => return Err(e) };
        Ok(GetMyPriceForASINResult { ASIN: val0, Status: val1, Product: val2 })
    }
}

/// Whether every element of `items` holds a valid `GetMyPriceForASINResult`.
pub open spec fn get_my_price_for_asin_result_all_ok(d: TreeState, items: Seq<int>) -> bool {
    forall|k: int| 0 <= k < items.len() ==> get_my_price_for_asin_result_ok(d, Some(#[trigger] items[k]))
}

/// Whether `v` holds the `GetMyPriceForASINResult` of each element of `items`, in order.
pub open spec fn get_my_price_for_asin_result_all_are(v: Seq<GetMyPriceForASINResult>, d: TreeState, items: Seq<int>) -> bool {
    &&& v.len() == items.len()
    &&& forall|k: int| 0 <= k < items.len() ==> get_my_price_for_asin_result_is(#[trigger] v[k], d, Some(items[k]))
}

/// Reads a `GetMyPriceForASINResult` from each element of `items`, in order.
pub fn get_my_price_for_asin_result_list_from_xml(d: &Document, items: &Vec<usize>) -> (r: Result<Vec<GetMyPriceForASINResult>, ProtocolError>)
    requires
        d.wf(),
        forall|k: int| 0 <= k < items@.len() ==> (#[trigger] items@[k] as int) < d.len(),
    ensures
        r is Ok <==> get_my_price_for_asin_result_all_ok(d.tree(), positions(items@)),
        r matches Ok(v) ==> get_my_price_for_asin_result_all_are(v@, d.tree(), positions(items@)),
{
    let mut out: Vec<GetMyPriceForASINResult> = Vec::new();
    let mut k: usize = 0;
    while k < items.len()
        invariant
            d.wf(),
            forall|j: int| 0 <= j < items@.len() ==> (#[trigger] items@[j] as int) < d.len(),
            k <= items@.len(),
            out@.len() == k,
            forall|j: int| 0 <= j < k ==> get_my_price_for_asin_result_ok(d.tree(), Some(#[trigger] positions(items@)[j])),
            forall|j: int| 0 <= j < k ==> get_my_price_for_asin_result_is(#[trigger] out@[j], d.tree(), Some(positions(items@)[j])),
        decreases items.len() - k,
    {
        match GetMyPriceForASINResult::from_xml(d, Some(items[k])) {
            Ok(x) => out.push(x),
            Err(e) => {
                assert(!get_my_price_for_asin_result_ok(d.tree(), Some(positions(items@)[k as int])));
                return Err(e);
            },
        }
        k = k + 1;
    }
    Ok(out)
}

/// The products that match one identifier.
#[allow(non_snake_case)]
#[derive(Clone, Debug, Default, PartialEq)]
pub struct GetMatchingProductForIdResult {
    pub Id: String,
    pub IdType: String,
    pub Status: String,
    pub Products: Vec<Product>,
}

/// Whether every field of a `GetMatchingProductForIdResult` read from element `n` has a value of its type.
pub open spec fn get_matching_product_for_id_result_ok(d: TreeState, n: Option<int>) -> bool {
    &&& product_all_ok(d, wrapped_children(d, n, "Products"@))
}

/// Whether `v` is the `GetMatchingProductForIdResult` read from element `n`; an absent element gives
/// every field its default.
pub open spec fn get_matching_product_for_id_result_is(v: GetMatchingProductForIdResult, d: TreeState, n: Option<int>) -> bool {
    &&& v.Id@ == attr_text(d, n, "Id"@)
    &&& v.IdType@ == attr_text(d, n, "IdType"@)
    &&& v.Status@ == attr_text(d, n, "status"@)
    &&& product_all_are(v.Products@, d, wrapped_children(d, n, "Products"@))
}

impl GetMatchingProductForIdResult {
    /// Reads a `GetMatchingProductForIdResult` from element `n`: each field from its child element
    /// (the last one of that name) or attribute, absent ones at their default.
    /// Fails when a number or boolean field holds text of another kind.
    pub fn from_xml(d: &Document, n: Option<usize>) -> (r: Result<GetMatchingProductForIdResult, ProtocolError>)
        requires
            d.wf(),
            valid_ref(d, n),
        ensures
            r is Ok <==> get_matching_product_for_id_result_ok(d.tree(), ref_view(n)),
            r matches Ok(v) ==> get_matching_product_for_id_result_is(v, d.tree(), ref_view(n)),
    {
        let val0 = d.attr_text(n, "Id");
        let val1 = d.attr_text(n, "IdType");
        let val2 = d.attr_text(n, "status");
        let c3 = d.wrapped_children(n, "Products");
        let val3 = match product_list_from_xml(d, &c3) { Ok(x) => x, Err(e) => return Err(e) };
        Ok(GetMatchingProductForIdResult { Id: val0, IdType: val1, Status: val2, Products: val3 })
    }
}

/// Whether every element of `items` holds a valid `GetMatchingProductForIdResult`.
pub open spec fn get_matching_product_for_id_result_all_ok(d: TreeState, items: Seq<int>) -> bool {
    forall|k: int| 0 <= k < items.len() ==> get_matching_product_for_id_result_ok(d, Some(#[trigger] items[k]))
}

/// Whether `v` holds the `GetMatchingProductForIdResult` of each element of `items`, in order.
pub open spec fn get_matching_product_for_id_result_all_are(v: Seq<GetMatchingProductForIdResult>, d: TreeState, items: Seq<int>) -> bool {
    &&& v.len() == items.len()
    &&& forall|k: int| 0 <= k < items.len() ==> get_matching_product_for_id_result_is(#[trigger] v[k], d, Some(items[k]))
}

/// Reads a `GetMatchingProductForIdResult` from each element of `items`, in order.
pub fn get_matching_product_for_id_result_list_from_xml(d: &Document, items: &Vec<usize>) -> (r: Result<Vec<GetMatchingProductForIdResult>, ProtocolError>)
    requires
        d.wf(),
        forall|k: int| 0 <= k < items@.len() ==> (#[trigger] items@[k] as int) < d.len(),
    ensures
        r is Ok <==> get_matching_product_for_id_result_all_ok(d.tree(), positions(items@)),
        r matches Ok(v) ==> get_matching_product_for_id_result_all_are(v@, d.tree(), positions(items@)),
{
    let mut out: Vec<GetMatchingProductForIdResult> = Vec::new();
    let mut k: usize = 0;
    while k < items.len()
        invariant
            d.wf(),
            forall|j: int| 0 <= j < items@.len() ==> (#[trigger] items@[j] as int) < d.len(),
            k <= items@.len(),
            out@.len() == k,
            forall|j: int| 0 <= j < k ==> get_matching_product_for_id_result_ok(d.tree(), Some(#[trigger] positions(items@)[j])),
            forall|j: int| 0 <= j < k ==> get_matching_product_for_id_result_is(#[trigger] out@[j], d.tree(), Some(positions(items@)[j])),
        decreases items.len() - k,
    {
        match GetMatchingProductForIdResult::from_xml(d, Some(items[k])) {
            Ok(x) => out.push(x),
            Err(e) => {
                assert(!get_matching_product_for_id_result_ok(d.tree(), Some(positions(items@)[k as int])));
                return Err(e);
            },
        }
        k = k + 1;
    }
    Ok(out)
}

/// Parameters of `GetLowestPricedOffersForSKU`.
#[allow(non_snake_case)]
#[derive(Clone, Debug, Default, PartialEq)]
pub struct GetLowestPricedOffersForSKUParameters {
    pub MarketplaceId: String,
    pub SellerSKU: String,
    pub ItemCondition: ItemCondition,
}

/// The canonical pairs of a `GetLowestPricedOffersForSKUParameters`: each field under its own name, absent
/// optional fields and empty lists giving none.
pub open spec fn get_lowest_priced_offers_for_sku_parameters_pairs(p: GetLowestPricedOffersForSKUParameters) -> Seq<(Seq<char>, Seq<char>)> {
    seq![("MarketplaceId"@, p.MarketplaceId@)]
        + seq![("SellerSKU"@, p.SellerSKU@)]
        + seq![("ItemCondition"@, item_condition_text(p.ItemCondition))]
}

impl GetLowestPricedOffersForSKUParameters {
    /// The canonical pairs of the parameter set.
    pub fn to_pairs(&self) -> (r: Vec<(String, String)>)
        ensures
            pairs_view(r@) == get_lowest_priced_offers_for_sku_parameters_pairs(*self),
    {
        let mut pairs: Vec<(String, String)> = Vec::new();
        push_param(&mut pairs, "MarketplaceId", self.MarketplaceId.as_str());
        push_param(&mut pairs, "SellerSKU", self.SellerSKU.as_str());
        let text_ItemCondition = self.ItemCondition.to_string();
        push_param(&mut pairs, "ItemCondition", text_ItemCondition.as_str());
        assert(pairs_view(pairs@) =~= get_lowest_priced_offers_for_sku_parameters_pairs(*self));
        pairs
    }
}

/// Parameters of `GetMyPriceForASIN`.
#[allow(non_snake_case)]
#[derive(Clone, Debug, Default, PartialEq)]
pub struct GetMyPriceForASINParameters {
    pub MarketplaceId: String,
    pub ASINList: Vec<String>,
    pub ItemCondition: Option<ItemCondition>,
}

/// The canonical pairs of a `GetMyPriceForASINParameters`: each field under its own name, absent
/// optional fields and empty lists giving none.
pub open spec fn get_my_price_for_asin_parameters_pairs(p: GetMyPriceForASINParameters) -> Seq<(Seq<char>, Seq<char>)> {
    seq![("MarketplaceId"@, p.MarketplaceId@)]
        + list_pairs("ASINList"@, "ASIN"@, strings_view(p.ASINList@))
        + match p.ItemCondition { Some(c) => seq![("ItemCondition"@, item_condition_text(c))], None => Seq::empty() }
}

impl GetMyPriceForASINParameters {
    /// The canonical pairs of the parameter set.
    pub fn to_pairs(&self) -> (r: Vec<(String, String)>)
        ensures
            pairs_view(r@) == get_my_price_for_asin_parameters_pairs(*self),
    {
        let mut pairs: Vec<(String, String)> = Vec::new();
        push_param(&mut pairs, "MarketplaceId", self.MarketplaceId.as_str());
        push_list(&mut pairs, "ASINList", "ASIN", &self.ASINList);
        match &self.ItemCondition { Some(c) => { let t = c.to_string(); push_param(&mut pairs, "ItemCondition", t.as_str()); }, None => {} }
        assert(pairs_view(pairs@) =~= get_my_price_for_asin_parameters_pairs(*self));
        pairs
    }
}

/// Parameters of `GetMatchingProductForId`.
#[allow(non_snake_case)]
#[derive(Clone, Debug, Default, PartialEq)]
pub struct GetMatchingProductForIdParameters {
    pub MarketplaceId: String,
    pub IdType: String,
    pub IdList: Vec<String>,
}

/// The canonical pairs of a `GetMatchingProductForIdParameters`: each field under its own name, absent
/// optional fields and empty lists giving none.
pub open spec fn get_matching_product_for_id_parameters_pairs(p: GetMatchingProductForIdParameters) -> Seq<(Seq<char>, Seq<char>)> {
    seq![("MarketplaceId"@, p.MarketplaceId@)]
        + seq![("IdType"@, p.IdType@)]
        + list_pairs("IdList"@, "Id"@, strings_view(p.IdList@))
}

impl GetMatchingProductForIdParameters {
    /// The canonical pairs of the parameter set.
    pub fn to_pairs(&self) -> (r: Vec<(String, String)>)
        ensures
            pairs_view(r@) == get_matching_product_for_id_parameters_pairs(*self),
    {
        let mut pairs: Vec<(String, String)> = Vec::new();
        push_param(&mut pairs, "MarketplaceId", self.MarketplaceId.as_str());
        push_param(&mut pairs, "IdType", self.IdType.as_str());
        push_list(&mut pairs, "IdList", "Id", &self.IdList);
        assert(pairs_view(pairs@) =~= get_matching_product_for_id_parameters_pairs(*self));
        pairs
    }
}

/// Signs a `GetMyPriceForASIN` call.
pub fn get_my_price_for_asin_request(client: &Client, params: &GetMyPriceForASINParameters, timestamp: &UtcDateTime) -> (r: SignedRequest)
    requires
        timestamp.wf(),
    ensures
        r.url@ == "https://"@ + client.options().endpoint@ + "/Products/2011-10-01"@,
        r.body@ == signed_body(client.options(), "/Products/2011-10-01"@,
            get_my_price_for_asin_parameters_pairs(*params) + control_pairs(client.options(), "GetMyPriceForASIN"@, "2011-10-01"@, *timestamp)),
{
    client.sign_request("/Products/2011-10-01", "2011-10-01", "GetMyPriceForASIN", params.to_pairs(), timestamp)
}

/// Whether the tree `t` is an answer of `GetMyPriceForASIN` that can be read: its outer
/// element is `GetMyPriceForASINResponse` and the payload fields hold values of their types.
pub open spec fn get_my_price_for_asin_answer_ok(t: TreeState) -> bool {
    t.name(0) == "GetMyPriceForASINResponse"@ && get_my_price_for_asin_result_all_ok(t, named_children(t, Some(0), "GetMyPriceForASINResult"@))
}

/// Whether `e` is the answer of `GetMyPriceForASIN` that the tree `t` holds: the payload
/// read from every `GetMyPriceForASINResult` element, in order, the request id from `ResponseMetadata`.
pub open spec fn get_my_price_for_asin_answer_is(e: ResponseEnvelope<Vec<GetMyPriceForASINResult>>, t: TreeState) -> bool {
    get_my_price_for_asin_result_all_are(e.payload@, t, named_children(t, Some(0), "GetMyPriceForASINResult"@)) && e.request_id@ == request_id_of(t)
}

/// Unwraps the answer of `GetMyPriceForASIN`.
pub fn get_my_price_for_asin_envelope(d: &Document) -> (r: Result<ResponseEnvelope<Vec<GetMyPriceForASINResult>>, ProtocolError>)
    requires
        d.wf(),
    ensures
        r is Ok <==> get_my_price_for_asin_answer_ok(d.tree()),
        r matches Ok(e) ==> get_my_price_for_asin_answer_is(e, d.tree()),
{
    match expect_root(d, "GetMyPriceForASINResponse") {
        Ok(()) => {},
        Err(e) => return Err(e),
    }
    let items = d.children_named(Some(d.root()), "GetMyPriceForASINResult");
    let payload = match get_my_price_for_asin_result_list_from_xml(d, &items) {
        Ok(p) => p,
        Err(e) => return Err(e),
    };
    Ok(ResponseEnvelope { payload, request_id: request_id(d) })
}

/// The outcome of a `GetMyPriceForASIN` answer with HTTP status `status` and body `body`:
/// a service error for any status but 200; for 200 the decoded answer, or a
/// protocol error when the body is not such an answer.
pub fn get_my_price_for_asin_response(status: u16, body: &str) -> (r: Result<ResponseEnvelope<Vec<GetMyPriceForASINResult>>, MwsError>)
    ensures
        status != 200 ==> (r matches Err(MwsError::Service(s)) && s.status == status),
        status == 200 ==> (r is Ok <==> (xml_events_of(body@) matches Some(ev) && tree_of(ev) matches Some(t) && get_my_price_for_asin_answer_ok(t))),
        r matches Ok(e) ==> (xml_events_of(body@) matches Some(ev) && tree_of(ev) matches Some(t) && get_my_price_for_asin_answer_is(e, t)),
        (status == 200 && r is Err) ==> (r matches Err(MwsError::Protocol(_))),
{
    let d = match answer_document(status, body) {
        Ok(d) => d,
        Err(e) => return Err(e),
    };
    match get_my_price_for_asin_envelope(&d) {
        Ok(e) => Ok(e),
        Err(e) => Err(MwsError::Protocol(e)),
    }
}

/// Signs a `GetMatchingProductForId` call.
pub fn get_matching_product_for_id_request(client: &Client, params: &GetMatchingProductForIdParameters, timestamp: &UtcDateTime) -> (r: SignedRequest)
    requires
        timestamp.wf(),
    ensures
        r.url@ == "https://"@ + client.options().endpoint@ + "/Products/2011-10-01"@,
        r.body@ == signed_body(client.options(), "/Products/2011-10-01"@,
            get_matching_product_for_id_parameters_pairs(*params) + control_pairs(client.options(), "GetMatchingProductForId"@, "2011-10-01"@, *timestamp)),
{
    client.sign_request("/Products/2011-10-01", "2011-10-01", "GetMatchingProductForId", params.to_pairs(), timestamp)
}

/// Whether the tree `t` is an answer of `GetMatchingProductForId` that can be read: its outer
/// element is `GetMatchingProductForIdResponse` and the payload fields hold values of their types.
pub open spec fn get_matching_product_for_id_answer_ok(t: TreeState) -> bool {
    t.name(0) == "GetMatchingProductForIdResponse"@ && get_matching_product_for_id_result_all_ok(t, named_children(t, Some(0), "GetMatchingProductForIdResult"@))
}

/// Whether `e` is the answer of `GetMatchingProductForId` that the tree `t` holds: the payload
/// read from every `GetMatchingProductForIdResult` element, in order, the request id from `ResponseMetadata`.
pub open spec fn get_matching_product_for_id_answer_is(e: ResponseEnvelope<Vec<GetMatchingProductForIdResult>>, t: TreeState) -> bool {
    get_matching_product_for_id_result_all_are(e.payload@, t, named_children(t, Some(0), "GetMatchingProductForIdResult"@)) && e.request_id@ == request_id_of(t)
}

/// Unwraps the answer of `GetMatchingProductForId`.
pub fn get_matching_product_for_id_envelope(d: &Document) -> (r: Result<ResponseEnvelope<Vec<GetMatchingProductForIdResult>>, ProtocolError>)
    requires
        d.wf(),
    ensures
        r is Ok <==> get_matching_product_for_id_answer_ok(d.tree()),
        r matches Ok(e) ==> get_matching_product_for_id_answer_is(e, d.tree()),
{
    match expect_root(d, "GetMatchingProductForIdResponse") {
        Ok(()) => {},
        Err(e) => return Err(e),
    }
    let items = d.children_named(Some(d.root()), "GetMatchingProductForIdResult");
    let payload = match get_matching_product_for_id_result_list_from_xml(d, &items) {
        Ok(p) => p,
        Err(e) => return Err(e),
    };
    Ok(ResponseEnvelope { payload, request_id: request_id(d) })
}

/// The outcome of a `GetMatchingProductForId` answer with HTTP status `status` and body `body`:
/// a service error for any status but 200; for 200 the decoded answer, or a
/// protocol error when the body is not such an answer.
pub fn get_matching_product_for_id_response(status: u16, body: &str) -> (r: Result<ResponseEnvelope<Vec<GetMatchingProductForIdResult>>, MwsError>)
    ensures
        status != 200 ==> (r matches Err(MwsError::Service(s)) && s.status == status),
        status == 200 ==> (r is Ok <==> (xml_events_of(body@) matches Some(ev) && tree_of(ev) matches Some(t) && get_matching_product_for_id_answer_ok(t))),
        r matches Ok(e) ==> (xml_events_of(body@) matches Some(ev) && tree_of(ev) matches Some(t) && get_matching_product_for_id_answer_is(e, t)),
        (status == 200 && r is Err) ==> (r matches Err(MwsError::Protocol(_))),
{
    let d = match answer_document(status, body) {
        Ok(d) => d,
        Err(e) => return Err(e),
    };
    match get_matching_product_for_id_envelope(&d) {
        Ok(e) => Ok(e),
        Err(e) => Err(MwsError::Protocol(e)),
    }
}

/// Signs a `GetLowestPricedOffersForSKU` call.
pub fn get_lowest_priced_offers_for_sku_request(client: &Client, params: &GetLowestPricedOffersForSKUParameters, timestamp: &UtcDateTime) -> (r: SignedRequest)
    requires
        timestamp.wf(),
    ensures
        r.url@ == "https://"@ + client.options().endpoint@ + "/Products/2011-10-01"@,
        r.body@ == signed_body(client.options(), "/Products/2011-10-01"@,
            get_lowest_priced_offers_for_sku_parameters_pairs(*params) + control_pairs(client.options(), "GetLowestPricedOffersForSKU"@, "2011-10-01"@, *timestamp)),
{
    client.sign_request("/Products/2011-10-01", "2011-10-01", "GetLowestPricedOffersForSKU", params.to_pairs(), timestamp)
}

/// Whether the tree `t` is an answer of `GetLowestPricedOffersForSKU` that can be read: its outer
/// element is `GetLowestPricedOffersForSKUResponse` and the payload fields hold values of their types.
pub open spec fn get_lowest_priced_offers_for_sku_answer_ok(t: TreeState) -> bool {
    t.name(0) == "GetLowestPricedOffersForSKUResponse"@ && get_lowest_priced_offers_for_sku_response_ok(t, child_named(t, Some(0), "GetLowestPricedOffersForSKUResult"@))
}

/// Whether `e` is the answer of `GetLowestPricedOffersForSKU` that the tree `t` holds: the payload
/// read from the `GetLowestPricedOffersForSKUResult` element, the request id from `ResponseMetadata`.
pub open spec fn get_lowest_priced_offers_for_sku_answer_is(e: ResponseEnvelope<GetLowestPricedOffersForSKUResponse>, t: TreeState) -> bool {
    get_lowest_priced_offers_for_sku_response_is(e.payload, t, child_named(t, Some(0), "GetLowestPricedOffersForSKUResult"@)) && e.request_id@ == request_id_of(t)
}

/// Unwraps the answer of `GetLowestPricedOffersForSKU`.
pub fn get_lowest_priced_offers_for_sku_envelope(d: &Document) -> (r: Result<ResponseEnvelope<GetLowestPricedOffersForSKUResponse>, ProtocolError>)
    requires
        d.wf(),
    ensures
        r is Ok <==> get_lowest_priced_offers_for_sku_answer_ok(d.tree()),
        r matches Ok(e) ==> get_lowest_priced_offers_for_sku_answer_is(e, d.tree()),
{
    match expect_root(d, "GetLowestPricedOffersForSKUResponse") {
        Ok(()) => {},
        Err(e) => return Err(e),
    }
    let result = d.child(Some(d.root()), "GetLowestPricedOffersForSKUResult");
    let payload = match GetLowestPricedOffersForSKUResponse::from_xml(d, result) {
        Ok(p) => p,
        Err(e) => return Err(e),
    };
    Ok(ResponseEnvelope { payload, request_id: request_id(d) })
}

/// The outcome of a `GetLowestPricedOffersForSKU` answer with HTTP status `status` and body `body`:
/// a service error for any status but 200; for 200 the decoded answer, or a
/// protocol error when the body is not such an answer.
pub fn get_lowest_priced_offers_for_sku_response(status: u16, body: &str) -> (r: Result<ResponseEnvelope<GetLowestPricedOffersForSKUResponse>, MwsError>)
    ensures
        status != 200 ==> (r matches Err(MwsError::Service(s)) && s.status == status),
        status == 200 ==> (r is Ok <==> (xml_events_of(body@) matches Some(ev) && tree_of(ev) matches Some(t) && get_lowest_priced_offers_for_sku_answer_ok(t))),
        r matches Ok(e) ==> (xml_events_of(body@) matches Some(ev) && tree_of(ev) matches Some(t) && get_lowest_priced_offers_for_sku_answer_is(e, t)),
        (status == 200 && r is Err) ==> (r matches Err(MwsError::Protocol(_))),
{
    let d = match answer_document(status, body) {
        Ok(d) => d,
        Err(e) => return Err(e),
    };
    match get_lowest_priced_offers_for_sku_envelope(&d) {
        Ok(e) => Ok(e),
        Err(e) => Err(MwsError::Protocol(e)),
    }
}

} // verus!
