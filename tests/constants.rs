use mws::constants::{
    get_marketplace, get_marketplace_region, get_region, get_region_marketplace_id_list, get_region_marketplace_list,
    marketplaces, normalize, regions, resolve_usa_state_code, MARKETPLACE_ID_DE, MARKETPLACE_ID_US,
};

#[test]
fn test_resolve_usa_state_code() {
  [
    "Al",
    "AL",
    "Alabama",
    "ALABAMA",
    "Alaska",
    "AR",
    "Arizona",
    "ARIZONA",
    "Arkansas",
    "az",
    "Az",
    "AZ",
    "ca",
    "Ca",
    "Ca.",
    "CA",
    "California",
    "CALIFORNIA",
    "Co",
    "CO",
    "Colorado",
    "COLORADO",
    "Connecticut",
    "CONNECTICUT",
    "Ct",
    "CT",
    "DC",
    "DE",
    "Delaware",
    "DELAWARE",
    "District of Columbia",
    "DISTRICT OF COLUMBIA",
    "fl",
    "Fl",
    "FL",
    "florida",
    "Florida",
    "FLORIDA",
    "Ga",
    "GA",
    "Georgia",
    "GEORGIA",
    "Hawaii",
    "HI",
    "IA",
    "ID",
    "Idaho",
    "il",
    "Il",
    "IL",
    "Illinois",
    "ILLINOIS",
    "IN",
    "Indiana",
    "INDIANA",
    "Iowa",
    "IOWA",
    "Kansas",
    "KANSAS",
    "Kentucky",
    "KENTUCKY",
    "ks",
    "KS",
    "Ky",
    "KY",
    "LA",
    "Louisiana",
    "ma",
    "Ma",
    "MA",
    "Maine",
    "MAINE",
    "Maryland",
    "MARYLAND",
    "massachusetts",
    "Massachusetts",
    "MASSACHUSETTS",
    "Md",
    "MD",
    "Me",
    "ME",
    "mi",
    "MI",
    "Michigan",
    "MICHIGAN",
    "Minnesota",
    "MINNESOTA",
    "Mississippi",
    "MISSISSIPPI",
    "Missouri",
    "MISSOURI",
    "mn",
    "MN",
    "mo",
    "Mo",
    "MO",
    "Montana",
    "MONTANA",
    "MS",
    "MT",
    "nc",
    "Nc",
    "NC",
    "ND",
    "NE",
    "Nebraska",
    "Nevada",
    "NEVADA",
    "New Hampshire",
    "New Jersey",
    "NEW JERSEY",
    "New Mexico",
    "NEW MEXICO",
    "new york",
    "New York",
    "NEW YORK",
    "NH",
    "nj",
    "Nj",
    "NJ",
    "N.J.",
    "NM",
    "North Carolina",
    "North Dakota",
    "NV",
    "ny",
    "Ny",
    "NY",
    "N.Y.",
    "OH",
    "ohio",
    "Ohio",
    "OHIO",
    "OK",
    "Oklahoma",
    "OKLAHOMA",
    "OR",
    "Oregon",
    "OREGON",
    "pa",
    "Pa",
    "PA",
    "Pennsylvania",
    "PENNSYLVANIA",
    "Rhode Island",
    "RHODE ISLAND",
    "RI",
    "SC",
    "SD",
    "South Carolina",
    "SOUTH CAROLINA",
    "Tennessee",
    "texas",
    "Texas",
    "TEXAS",
    "tn",
    "TN",
    "Tx",
    "TX",
    "TX ",
    "UT",
    "Utah",
    "UTAH",
    "Va",
    "VA",
    "Vermont",
    "VERMONT",
    "Virginia",
    "VIRGINIA",
    "VT",
    "wa",
    "Wa",
    "WA",
    "WA ",
    "Washington",
    "WASHINGTON",
    "West Virginia",
    "WEST VIRGINIA",
    "wi",
    "WI",
    "Wisconsin",
    "WISCONSIN",
    "WV",
    "WY",
    "Wyoming",
    "WYOMING",
  ]
    .iter()
    .for_each(|v| {
      assert!(
        resolve_usa_state_code(v).is_some(),
        "{}: {}",
        v,
        normalize(v)
      )
    })
}

#[test]
fn state_codes_are_upper_case_codes() {
    assert_eq!(resolve_usa_state_code("ca"), Some("CA".to_string()));
    assert_eq!(resolve_usa_state_code("N.Y."), Some("NY".to_string()));
    assert_eq!(resolve_usa_state_code("  new   york "), Some("NY".to_string()));
    assert_eq!(resolve_usa_state_code("WEST VIRGINIA"), Some("WV".to_string()));
    assert_eq!(resolve_usa_state_code("Ontario"), None);
    assert_eq!(resolve_usa_state_code(""), None);
    assert_eq!(resolve_usa_state_code("ZZ"), None);
}

#[test]
fn normalize_collapses_spaces_and_drops_punctuation() {
    assert_eq!(normalize("  District   of\tColumbia. "), "district of columbia");
    assert_eq!(normalize("N.J."), "nj");
    assert_eq!(normalize(""), "");
}

#[test]
fn resolve_state_code_depends_on_marketplace_and_country() {
    let us = get_marketplace(MARKETPLACE_ID_US).unwrap();
    assert_eq!(us.resolve_state_code("US", "Texas"), Some("TX".to_string()));
    assert_eq!(us.resolve_state_code("US", "Nowhere"), None);
    assert_eq!(us.resolve_state_code("CA", "Ontario"), Some("Ontario".to_string()));
    let de = get_marketplace(MARKETPLACE_ID_DE).unwrap();
    assert_eq!(de.resolve_state_code("US", "Texas"), Some("Texas".to_string()));
}

#[test]
fn marketplace_lookups() {
    assert_eq!(marketplaces().len(), 12);
    let m = get_marketplace("A1F83G8C2ARO7P").unwrap();
    assert_eq!(m.name, "United Kingdom");
    assert_eq!(m.country_id, "GB");
    assert!(get_marketplace("nope").is_none());
    assert_eq!(get_marketplace_region("A1VC38T7YXB528"), Some("jp"));
    assert_eq!(get_marketplace_region("nope"), None);
}

#[test]
fn region_lookups() {
    assert_eq!(regions().len(), 6);
    assert_eq!(get_region_marketplace_id_list("na"), vec!["A2EUQ1WTGCTBG2", "A1AM78C64UM0Y8", "ATVPDKIKX0DER"]);
    assert_eq!(get_region_marketplace_id_list("eu").len(), 5);
    assert!(get_region_marketplace_id_list("xx").is_empty());
    let eu: Vec<&str> = get_region_marketplace_list("eu").iter().map(|m| m.country_id).collect();
    assert_eq!(eu, vec!["DE", "ES", "FR", "IT", "GB"]);
    let r = get_region("eu").unwrap();
    assert_eq!(r.endpoint, "mws-eu.amazonservices.com");
    assert_eq!(r.marketplace_id_list.len(), 5);
    assert_eq!(get_region("cn").unwrap().endpoint, "mws.amazonservices.com.cn");
    assert!(get_region("xx").is_none());
}
