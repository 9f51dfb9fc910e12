use vstd::prelude::*;
use vstd::string::*;

verus! {

/// What a geolocation database has for an address.
#[derive(Debug)]
pub enum GeoLookup {
    /// No record, or a record that names no country.
    NotFound,
    /// A record whose country has no ISO code.
    NoCode,
    /// The ISO code of the country.
    Code(String),
}

impl GeoLookup {
    /// The country code that stands for what the database has: the ISO code
    /// of the country, the empty text where the country has no such code,
    /// and `ERROR` where the database has no country for the address.
    pub open spec fn code(self) -> Seq<char> {
        match self {
            GeoLookup::NotFound => "ERROR"@,
            GeoLookup::NoCode => Seq::<char>::empty(),
            GeoLookup::Code(code) => code@,
        }
    }
}

/// The country code that stands for what the database has for an address.
pub fn lookup_country_code(found: GeoLookup) -> (code: String)
    ensures
        code@ == found.code(),
{
    match found {
        GeoLookup::NotFound => String::from_str("ERROR"),
        GeoLookup::NoCode => String::new(),
        GeoLookup::Code(code) => code,
    }
}

/// The country code of the domestic side.
pub open spec fn is_domestic_code(code: Seq<char>) -> bool {
    code == "CN"@
}

/// Whether a country code is that of the domestic side.
pub fn is_domestic(code: &str) -> (r: bool)
    ensures
        r == is_domestic_code(code@),
{
    let cn = String::from_str("CN");
    let given = String::from_str(code);
    given == cn
}

} // verus!
