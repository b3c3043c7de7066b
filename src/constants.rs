//! Regions, marketplaces and the state codes of the United States.
use vstd::prelude::*;
#[allow(unused_imports)]
use vstd::string::StringSliceAdditionalSpecFns;
use crate::text::{chars_of, is_alphabetic, is_white_space, lowercase, push_char, str_eq, uppercase};
#[allow(unused_imports)]
use crate::text::{alphabetic, lower_of, upper_of, white_space};

verus! {

pub const REGION_ID_NA: &'static str = "na";
pub const REGION_ID_EU: &'static str = "eu";
pub const REGION_ID_IN: &'static str = "in";
pub const REGION_ID_CN: &'static str = "cn";
pub const REGION_ID_JP: &'static str = "jp";
pub const REGION_ID_AU: &'static str = "au";

pub const MARKETPLACE_ID_CA: &'static str = "A2EUQ1WTGCTBG2";
pub const MARKETPLACE_ID_MX: &'static str = "A1AM78C64UM0Y8";
pub const MARKETPLACE_ID_US: &'static str = "ATVPDKIKX0DER";
pub const MARKETPLACE_ID_DE: &'static str = "A1PA6795UKMFR9";
pub const MARKETPLACE_ID_ES: &'static str = "A1RKKUPIHCS9HS";
pub const MARKETPLACE_ID_FR: &'static str = "A13V1IB3VIYZZH";
pub const MARKETPLACE_ID_IT: &'static str = "APJ6JRA9NG5V4";
pub const MARKETPLACE_ID_GB: &'static str = "A1F83G8C2ARO7P";
pub const MARKETPLACE_ID_IN: &'static str = "A21TJRUUN4KGV";
pub const MARKETPLACE_ID_JP: &'static str = "A1VC38T7YXB528";
pub const MARKETPLACE_ID_CN: &'static str = "AAHKV2X7AFYLW";
pub const MARKETPLACE_ID_AU: &'static str = "A39IBJ37TRP1C6";

/// One marketplace of the service.
#[derive(Clone, Copy, Debug)]
pub struct AmazonMarketplace {
    pub id: &'static str,
    pub name: &'static str,
    pub region_id: &'static str,
    pub country_id: &'static str,
}

/// The value of a marketplace record.
pub ghost struct MarketplaceInfo {
    pub id: Seq<char>,
    pub name: Seq<char>,
    pub region_id: Seq<char>,
    pub country_id: Seq<char>,
}

impl View for AmazonMarketplace {
    type V = MarketplaceInfo;

    open spec fn view(&self) -> MarketplaceInfo {
        MarketplaceInfo { id: self.id@, name: self.name@, region_id: self.region_id@, country_id: self.country_id@ }
    }
}

/// A region: one endpoint host serving a group of marketplaces.
#[derive(Clone, Debug)]
pub struct AmazonRegion {
    pub id: &'static str,
    pub name: &'static str,
    pub endpoint: &'static str,
    pub marketplace_id_list: Vec<&'static str>,
    pub marketplaces: Vec<AmazonMarketplace>,
}

/// The value of a region record.
pub ghost struct RegionInfo {
    pub id: Seq<char>,
    pub name: Seq<char>,
    pub endpoint: Seq<char>,
    pub marketplace_id_list: Seq<Seq<char>>,
    pub marketplaces: Seq<MarketplaceInfo>,
}

impl View for AmazonRegion {
    type V = RegionInfo;

    open spec fn view(&self) -> RegionInfo {
        RegionInfo {
            id: self.id@,
            name: self.name@,
            endpoint: self.endpoint@,
            marketplace_id_list: self.marketplace_id_list@.map_values(|s: &'static str| s@),
            marketplaces: self.marketplaces@.map_values(|m: AmazonMarketplace| m@),
        }
    }
}

/// Every marketplace, in the service's order.
pub open spec fn marketplace_table() -> Seq<MarketplaceInfo> {
    seq![
        MarketplaceInfo { id: "A2EUQ1WTGCTBG2"@, name: "Canada"@, region_id: "na"@, country_id: "CA"@ },
        MarketplaceInfo { id: "A1AM78C64UM0Y8"@, name: "Mexico"@, region_id: "na"@, country_id: "MX"@ },
        MarketplaceInfo { id: "ATVPDKIKX0DER"@, name: "USA"@, region_id: "na"@, country_id: "US"@ },
        MarketplaceInfo { id: "A1PA6795UKMFR9"@, name: "Germany"@, region_id: "eu"@, country_id: "DE"@ },
        MarketplaceInfo { id: "A1RKKUPIHCS9HS"@, name: "Spain"@, region_id: "eu"@, country_id: "ES"@ },
        MarketplaceInfo { id: "A13V1IB3VIYZZH"@, name: "France"@, region_id: "eu"@, country_id: "FR"@ },
        MarketplaceInfo { id: "APJ6JRA9NG5V4"@, name: "Italy"@, region_id: "eu"@, country_id: "IT"@ },
        MarketplaceInfo { id: "A1F83G8C2ARO7P"@, name: "United Kingdom"@, region_id: "eu"@, country_id: "GB"@ },
        MarketplaceInfo { id: "A21TJRUUN4KGV"@, name: "India"@, region_id: "in"@, country_id: "IN"@ },
        MarketplaceInfo { id: "A1VC38T7YXB528"@, name: "Japan"@, region_id: "jp"@, country_id: "JP"@ },
        MarketplaceInfo { id: "AAHKV2X7AFYLW"@, name: "China"@, region_id: "cn"@, country_id: "CN"@ },
        MarketplaceInfo { id: "A39IBJ37TRP1C6"@, name: "Australia"@, region_id: "au"@, country_id: "AU"@ },
    ]
}

/// The marketplaces of a region, in table order.
pub open spec fn region_marketplaces(region_id: Seq<char>) -> Seq<MarketplaceInfo> {
    marketplace_table().filter(|m: MarketplaceInfo| m.region_id == region_id)
}

/// The identifiers of the marketplaces of a region, in table order.
pub open spec fn region_marketplace_ids(region_id: Seq<char>) -> Seq<Seq<char>> {
    region_marketplaces(region_id).map_values(|m: MarketplaceInfo| m.id)
}

pub open spec fn region_info(id: Seq<char>, name: Seq<char>, endpoint: Seq<char>) -> RegionInfo {
    RegionInfo {
        id,
        name,
        endpoint,
        marketplace_id_list: region_marketplace_ids(id),
        marketplaces: region_marketplaces(id),
    }
}

/// Every region, in the service's order.
pub open spec fn region_table() -> Seq<RegionInfo> {
    seq![
        region_info("na"@, "North America (NA)"@, "mws.amazonservices.com"@),
        region_info("eu"@, "Europe (EU)"@, "mws-eu.amazonservices.com"@),
        region_info("in"@, "India (IN)"@, "mws.amazonservices.com"@),
        region_info("cn"@, "China (CN)"@, "mws.amazonservices.com.cn"@),
        region_info("jp"@, "Japan (JP)"@, "mws.amazonservices.jp"@),
        region_info("au"@, "Australia (AU)"@, "mws.amazonservices.com.au"@),
    ]
}

/// Whether `i` is the first position of `t` whose record has identifier `id`.
pub open spec fn first_marketplace_at(t: Seq<MarketplaceInfo>, id: Seq<char>, i: int) -> bool {
    0 <= i < t.len() && t[i].id == id && forall|j: int| 0 <= j < i ==> t[j].id != id
}

/// Whether `i` is the first position of `t` whose record has identifier `id`.
pub open spec fn first_region_at(t: Seq<RegionInfo>, id: Seq<char>, i: int) -> bool {
    0 <= i < t.len() && t[i].id == id && forall|j: int| 0 <= j < i ==> t[j].id != id
}

/// Every marketplace, in the service's order.
pub fn marketplaces() -> (r: Vec<AmazonMarketplace>)
    ensures
        r@.map_values(|m: AmazonMarketplace| m@) == marketplace_table(),
{
    let mut items: Vec<AmazonMarketplace> = Vec::new();
    items.push(AmazonMarketplace { id: "A2EUQ1WTGCTBG2", name: "Canada", region_id: "na", country_id: "CA" });
    items.push(AmazonMarketplace { id: "A1AM78C64UM0Y8", name: "Mexico", region_id: "na", country_id: "MX" });
    items.push(AmazonMarketplace { id: "ATVPDKIKX0DER", name: "USA", region_id: "na", country_id: "US" });
    items.push(AmazonMarketplace { id: "A1PA6795UKMFR9", name: "Germany", region_id: "eu", country_id: "DE" });
    items.push(AmazonMarketplace { id: "A1RKKUPIHCS9HS", name: "Spain", region_id: "eu", country_id: "ES" });
    items.push(AmazonMarketplace { id: "A13V1IB3VIYZZH", name: "France", region_id: "eu", country_id: "FR" });
    items.push(AmazonMarketplace { id: "APJ6JRA9NG5V4", name: "Italy", region_id: "eu", country_id: "IT" });
    items.push(AmazonMarketplace { id: "A1F83G8C2ARO7P", name: "United Kingdom", region_id: "eu", country_id: "GB" });
    items.push(AmazonMarketplace { id: "A21TJRUUN4KGV", name: "India", region_id: "in", country_id: "IN" });
    items.push(AmazonMarketplace { id: "A1VC38T7YXB528", name: "Japan", region_id: "jp", country_id: "JP" });
    items.push(AmazonMarketplace { id: "AAHKV2X7AFYLW", name: "China", region_id: "cn", country_id: "CN" });
    items.push(AmazonMarketplace { id: "A39IBJ37TRP1C6", name: "Australia", region_id: "au", country_id: "AU" });
    assert(items@.map_values(|m: AmazonMarketplace| m@) =~= marketplace_table());
    items
}

/// The marketplace with identifier `id`, if there is one.
pub fn get_marketplace(id: &str) -> (r: Option<AmazonMarketplace>)
    ensures
        r is None <==> forall|i: int| 0 <= i < marketplace_table().len() ==> marketplace_table()[i].id != id@,
        r matches Some(m) ==> exists|i: int| first_marketplace_at(marketplace_table(), id@, i) && m@ == marketplace_table()[i],
{
    let items = marketplaces();
    let ghost t = marketplace_table();
    let mut i: usize = 0;
    while i < items.len()
        invariant
            items@.map_values(|m: AmazonMarketplace| m@) == t,
            t == marketplace_table(),
            i <= items@.len(),
            forall|j: int| 0 <= j < i ==> t[j].id != id@,
        decreases items.len() - i,
    {
        assert(items@[i as int]@ == t[i as int]);
        if str_eq(items[i].id, id) {
            assert(first_marketplace_at(t, id@, i as int));
            return Some(items[i]);
        }
        i = i + 1;
    }
    None
}

/// The region of the marketplace with identifier `id`, if there is such a marketplace.
pub fn get_marketplace_region(id: &str) -> (r: Option<&'static str>)
    ensures
        r is None <==> forall|i: int| 0 <= i < marketplace_table().len() ==> marketplace_table()[i].id != id@,
        r matches Some(region) ==> exists|i: int| first_marketplace_at(marketplace_table(), id@, i) && region@ == marketplace_table()[i].region_id,
{
    match get_marketplace(id) {
        Some(m) => Some(m.region_id),
        None => None,
    }
}

/// The marketplaces of the region `region_id`, in table order.
pub fn get_region_marketplace_list(region_id: &str) -> (r: Vec<AmazonMarketplace>)
    ensures
        r@.map_values(|m: AmazonMarketplace| m@) == region_marketplaces(region_id@),
{
    let items = marketplaces();
    let ghost t = marketplace_table();
    let ghost pred = |m: MarketplaceInfo| m.region_id == region_id@;
    let mut r: Vec<AmazonMarketplace> = Vec::new();
    let mut i: usize = 0;
    while i < items.len()
        invariant
            items@.map_values(|m: AmazonMarketplace| m@) == t,
            t == marketplace_table(),
            i <= items@.len(),
            pred == (|m: MarketplaceInfo| m.region_id == region_id@),
            r@.map_values(|m: AmazonMarketplace| m@) == t.subrange(0, i as int).filter(pred),
        decreases items.len() - i,
    {
        assert(items@[i as int]@ == t[i as int]);
        assert(t.subrange(0, i + 1) =~= t.subrange(0, i as int).push(t[i as int]));
        proof { t.subrange(0, i as int).lemma_filter_push(t[i as int], pred); }
        if str_eq(items[i].region_id, region_id) {
            r.push(items[i]);
        }
        assert(r@.map_values(|m: AmazonMarketplace| m@) =~= t.subrange(0, i + 1).filter(pred));
        i = i + 1;
    }
    assert(t.subrange(0, i as int) =~= t);
    r
}

/// The identifiers of the marketplaces of the region `region_id`, in table order.
pub fn get_region_marketplace_id_list(region_id: &str) -> (r: Vec<&'static str>)
    ensures
        r@.map_values(|s: &'static str| s@) == region_marketplace_ids(region_id@),
{
    let ms = get_region_marketplace_list(region_id);
    let ghost rm = region_marketplaces(region_id@);
    let mut r: Vec<&'static str> = Vec::new();
    let mut i: usize = 0;
    while i < ms.len()
        invariant
            ms@.map_values(|m: AmazonMarketplace| m@) == rm,
            i <= ms@.len(),
            r@.len() == i,
            forall|k: int| 0 <= k < i ==> r@[k]@ == rm[k].id,
        decreases ms.len() - i,
    {
        assert(ms@[i as int]@ == rm[i as int]);
        r.push(ms[i].id);
        i = i + 1;
    }
    assert(r@.map_values(|s: &'static str| s@) =~= rm.map_values(|m: MarketplaceInfo| m.id));
    r
}

fn make_region(id: &'static str, name: &'static str, endpoint: &'static str) -> (r: AmazonRegion)
    ensures
        r@ == region_info(id@, name@, endpoint@),
{
    AmazonRegion {
        id,
        name,
        endpoint,
        marketplace_id_list: get_region_marketplace_id_list(id),
        marketplaces: get_region_marketplace_list(id),
    }
}

/// Every region, in the service's order.
pub fn regions() -> (r: Vec<AmazonRegion>)
    ensures
        r@.map_values(|g: AmazonRegion| g@) == region_table(),
{
    let mut items: Vec<AmazonRegion> = Vec::new();
    items.push(make_region("na", "North America (NA)", "mws.amazonservices.com"));
    items.push(make_region("eu", "Europe (EU)", "mws-eu.amazonservices.com"));
    items.push(make_region("in", "India (IN)", "mws.amazonservices.com"));
    items.push(make_region("cn", "China (CN)", "mws.amazonservices.com.cn"));
    items.push(make_region("jp", "Japan (JP)", "mws.amazonservices.jp"));
    items.push(make_region("au", "Australia (AU)", "mws.amazonservices.com.au"));
    assert(items@.map_values(|g: AmazonRegion| g@) =~= region_table());
    items
}

/// The region with identifier `id`, if there is one.
pub fn get_region(id: &str) -> (r: Option<AmazonRegion>)
    ensures
        r is None <==> forall|i: int| 0 <= i < region_table().len() ==> region_table()[i].id != id@,
        r matches Some(g) ==> exists|i: int| first_region_at(region_table(), id@, i) && g@ == region_table()[i],
{
    let mut items = regions();
    let ghost t = region_table();
    let mut i: usize = 0;
    while i < items.len()
        invariant
            items@.map_values(|g: AmazonRegion| g@) == t,
            t == region_table(),
            i <= items@.len(),
            forall|j: int| 0 <= j < i ==> t[j].id != id@,
        decreases items.len() - i,
    {
        assert(items@[i as int]@ == t[i as int]);
        if str_eq(items[i].id, id) {
            assert(first_region_at(t, id@, i as int));
            return Some(items.remove(i));
        }
        i = i + 1;
    }
    None
}


/// The state and territory codes of the United States with their names, in lower case.
pub open spec fn us_state_table() -> Seq<(Seq<char>, Seq<char>)> {
    seq![
        ("AK"@, "alaska"@),
        ("AL"@, "alabama"@),
        ("AP"@, "apo/fpo: asia, pacific"@),
        ("AR"@, "arkansas"@),
        ("AZ"@, "arizona"@),
        ("CA"@, "california"@),
        ("CO"@, "colorado"@),
        ("CT"@, "connecticut"@),
        ("DC"@, "district of columbia"@),
        ("DE"@, "delaware"@),
        ("FL"@, "florida"@),
        ("GA"@, "georgia"@),
        ("HI"@, "hawaii"@),
        ("IA"@, "iowa"@),
        ("ID"@, "idaho"@),
        ("IL"@, "illinois"@),
        ("IN"@, "indiana"@),
        ("KS"@, "kansas"@),
        ("KY"@, "kentucky"@),
        ("LA"@, "louisiana"@),
        ("MA"@, "massachusetts"@),
        ("MD"@, "maryland"@),
        ("ME"@, "maine"@),
        ("MI"@, "michigan"@),
        ("MN"@, "minnesota"@),
        ("MO"@, "missouri"@),
        ("MS"@, "mississippi"@),
        ("MT"@, "montana"@),
        ("NC"@, "north carolina"@),
        ("ND"@, "north dakota"@),
        ("NE"@, "nebraska"@),
        ("NH"@, "new hampshire"@),
        ("NJ"@, "new jersey"@),
        ("NM"@, "new mexico"@),
        ("NV"@, "nevada"@),
        ("NY"@, "new york"@),
        ("OH"@, "ohio"@),
        ("OK"@, "oklahoma"@),
        ("OR"@, "oregon"@),
        ("PA"@, "pennsylvania"@),
        ("RI"@, "rhode island"@),
        ("SC"@, "south carolina"@),
        ("SD"@, "south dakota"@),
        ("TN"@, "tennessee"@),
        ("TX"@, "texas"@),
        ("UT"@, "utah"@),
        ("VA"@, "virginia"@),
        ("VT"@, "vermont"@),
        ("WA"@, "washington"@),
        ("WI"@, "wisconsin"@),
        ("WV"@, "west virginia"@),
        ("WY"@, "wyoming"@),
    ]
}

fn us_states() -> (t: Vec<(&'static str, &'static str)>)
    ensures
        t@.map_values(|p: (&'static str, &'static str)| (p.0@, p.1@)) == us_state_table(),
{
    let mut t: Vec<(&'static str, &'static str)> = Vec::new();
    t.push(("AK", "alaska"));
    t.push(("AL", "alabama"));
    t.push(("AP", "apo/fpo: asia, pacific"));
    t.push(("AR", "arkansas"));
    t.push(("AZ", "arizona"));
    t.push(("CA", "california"));
    t.push(("CO", "colorado"));
    t.push(("CT", "connecticut"));
    t.push(("DC", "district of columbia"));
    t.push(("DE", "delaware"));
    t.push(("FL", "florida"));
    t.push(("GA", "georgia"));
    t.push(("HI", "hawaii"));
    t.push(("IA", "iowa"));
    t.push(("ID", "idaho"));
    t.push(("IL", "illinois"));
    t.push(("IN", "indiana"));
    t.push(("KS", "kansas"));
    t.push(("KY", "kentucky"));
    t.push(("LA", "louisiana"));
    t.push(("MA", "massachusetts"));
    t.push(("MD", "maryland"));
    t.push(("ME", "maine"));
    t.push(("MI", "michigan"));
    t.push(("MN", "minnesota"));
    t.push(("MO", "missouri"));
    t.push(("MS", "mississippi"));
    t.push(("MT", "montana"));
    t.push(("NC", "north carolina"));
    t.push(("ND", "north dakota"));
    t.push(("NE", "nebraska"));
    t.push(("NH", "new hampshire"));
    t.push(("NJ", "new jersey"));
    t.push(("NM", "new mexico"));
    t.push(("NV", "nevada"));
    t.push(("NY", "new york"));
    t.push(("OH", "ohio"));
    t.push(("OK", "oklahoma"));
    t.push(("OR", "oregon"));
    t.push(("PA", "pennsylvania"));
    t.push(("RI", "rhode island"));
    t.push(("SC", "south carolina"));
    t.push(("SD", "south dakota"));
    t.push(("TN", "tennessee"));
    t.push(("TX", "texas"));
    t.push(("UT", "utah"));
    t.push(("VA", "virginia"));
    t.push(("VT", "vermont"));
    t.push(("WA", "washington"));
    t.push(("WI", "wisconsin"));
    t.push(("WV", "west virginia"));
    t.push(("WY", "wyoming"));
    assert(t@.map_values(|p: (&'static str, &'static str)| (p.0@, p.1@)) =~= us_state_table());
    t
}

/// Whether a character survives normalisation: letters and white space do.
pub open spec fn kept_char(c: char) -> bool {
    alphabetic(c) || white_space(c)
}

/// Collapses white space: the words of `s` (its maximal runs of non-space
/// characters) joined by one space each. The flag says whether a space is owed
/// before the next word.
pub open spec fn squeeze(s: Seq<char>) -> (Seq<char>, bool)
    decreases s.len(),
{
    if s.len() == 0 {
        (Seq::empty(), false)
    } else {
        let (o, pending) = squeeze(s.drop_last());
        let c = s.last();
        if white_space(c) {
            (o, o.len() > 0)
        } else if pending {
            (o.push(' ').push(c), false)
        } else {
            (o.push(c), false)
        }
    }
}

/// The normal form of a state name: lower case, letters and white space only,
/// words separated by one space, no space at either end.
pub open spec fn normalized(text: Seq<char>) -> Seq<char> {
    squeeze(lower_of(text).filter(|c: char| kept_char(c))).0
}

/// Brings `text` to its normal form: lower case, only letters and single spaces
/// between words.
pub fn normalize(text: &str) -> (r: String)
    ensures
        r@ == normalized(text@),
{
    let lower = lowercase(text);
    let cs = chars_of(lower.as_str());
    let ghost pred = |c: char| kept_char(c);
    let mut out = String::new();
    let mut pending = false;
    let mut started = false;
    let mut i: usize = 0;
    while i < cs.len()
        invariant
            cs@ == lower_of(text@),
            i <= cs@.len(),
            pred == (|c: char| kept_char(c)),
            (out@, pending) == squeeze(cs@.subrange(0, i as int).filter(pred)),
            started == (out@.len() > 0),
        decreases cs.len() - i,
    {
        let c = cs[i];
        proof {
            assert(cs@.subrange(0, i + 1) =~= cs@.subrange(0, i as int).push(c));
            cs@.subrange(0, i as int).lemma_filter_push(c, pred);
        }
        let space = is_white_space(c);
        if space || is_alphabetic(c) {
            let ghost f = cs@.subrange(0, i as int).filter(pred);
            assert(f.push(c).drop_last() =~= f);
            if space {
                pending = started;
            } else {
                if pending {
                    push_char(&mut out, ' ');
                }
                push_char(&mut out, c);
                pending = false;
                started = true;
            }
        }
        i = i + 1;
    }
    assert(cs@.subrange(0, i as int) =~= cs@);
    out
}

/// Whether some entry of the state table has the code `code`.
pub open spec fn is_state_code(code: Seq<char>) -> bool {
    exists|i: int| 0 <= i < us_state_table().len() && us_state_table()[i].0 == code
}

/// Whether some entry of the state table has the name `name`.
pub open spec fn is_state_name(name: Seq<char>) -> bool {
    exists|i: int| 0 <= i < us_state_table().len() && us_state_table()[i].1 == name
}

/// Whether `code` is the code that the state table gives to the name `name`.
pub open spec fn state_code_of_name(name: Seq<char>, code: Seq<char>) -> bool {
    exists|i: int| 0 <= i < us_state_table().len() && us_state_table()[i].1 == name && us_state_table()[i].0 == code
}

/// Whether the normal form `v` reads as a two-letter state code: it is two
/// bytes long and its upper-case form is a code of the table.
pub open spec fn reads_as_code(v: Seq<char>) -> bool {
    vstd::utf8::encode_utf8(v).len() == 2 && is_state_code(upper_of(v))
}

/// The two-letter code of a state of the United States, given as a code or a
/// name in any case, with punctuation and extra spaces ignored.
pub fn resolve_usa_state_code(state: &str) -> (r: Option<String>)
    ensures
        ({
            let v = normalized(state@);
            if reads_as_code(v) {
                r matches Some(x) && x@ == upper_of(v)
            } else if is_state_name(v) {
                r matches Some(x) && state_code_of_name(v, x@)
            } else {
                r is None
            }
        }),
{
    let v = normalize(state);
    let table = us_states();
    let ghost t = us_state_table();
    let vs = v.as_str();
    let n_bytes = vs.as_bytes().len();
    if n_bytes == 2 {
        let up = uppercase(vs);
        let mut i: usize = 0;
        while i < table.len()
            invariant
                table@.map_values(|p: (&'static str, &'static str)| (p.0@, p.1@)) == t,
                t == us_state_table(),
                i <= table@.len(),
                forall|j: int| 0 <= j < i ==> t[j].0 != up@,
                up@ == upper_of(v@),
                v@ == normalized(state@),
                vstd::utf8::encode_utf8(v@).len() == 2,
            decreases table.len() - i,
        {
            assert(table@[i as int].0@ == t[i as int].0);
            if str_eq(table[i].0, up.as_str()) {
                assert(t[i as int].0 == up@);
                assert(reads_as_code(v@));
                return Some(table[i].0.to_owned());
            }
            i = i + 1;
        }
        assert(!reads_as_code(v@));
    } else {
        assert(!reads_as_code(v@));
    }
    let mut i: usize = 0;
    while i < table.len()
        invariant
            table@.map_values(|p: (&'static str, &'static str)| (p.0@, p.1@)) == t,
            t == us_state_table(),
            i <= table@.len(),
            forall|j: int| 0 <= j < i ==> t[j].1 != v@,
            v@ == normalized(state@),
            !reads_as_code(v@),
        decreases table.len() - i,
    {
        assert(table@[i as int].0@ == t[i as int].0);
        assert(table@[i as int].1@ == t[i as int].1);
        if str_eq(table[i].1, v.as_str()) {
            assert(state_code_of_name(v@, t[i as int].0));
            return Some(table[i].0.to_owned());
        }
        i = i + 1;
    }
    None
}

impl AmazonMarketplace {
    /// The state as this marketplace expects it: for the United States
    /// marketplace and an address in the United States, the state's two-letter
    /// code (`None` when the state is not recognised); otherwise the state as given.
    pub fn resolve_state_code(&self, country_id: &str, state: &str) -> (r: Option<String>)
        ensures
            (self.id@ == MARKETPLACE_ID_US@ && country_id@ == "US"@) ==> ({
                let v = normalized(state@);
                if reads_as_code(v) {
                    r matches Some(x) && x@ == upper_of(v)
                } else if is_state_name(v) {
                    r matches Some(x) && state_code_of_name(v, x@)
                } else {
                    r is None
                }
            }),
            !(self.id@ == MARKETPLACE_ID_US@ && country_id@ == "US"@) ==> (r matches Some(x) && x@ == state@),
    {
        if str_eq(self.id, MARKETPLACE_ID_US) && str_eq(country_id, "US") {
            resolve_usa_state_code(state)
        } else {
            Some(state.to_owned())
        }
    }
}

} // verus!
