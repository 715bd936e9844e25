use vstd::prelude::*;
use vstd::string::StrSliceExecFns;

use crate::text::{concat3, owned, str_eq};

verus! {

/// The address parts of a reverse-geocoding answer.
#[derive(Debug, Clone, PartialEq, Eq)]
pub struct NominatimAddress {
    pub city: Option<String>,
    pub town: Option<String>,
    pub village: Option<String>,
    pub municipality: Option<String>,
    pub state_district: Option<String>,
    pub state: Option<String>,
    pub county: Option<String>,
    pub country: Option<String>,
}

/// The first present part, in the order of preference.
pub open spec fn first_present(parts: Seq<Option<String>>) -> Option<String>
    decreases parts.len(),
{
    if parts.len() == 0 {
        None
    } else if parts[0] is Some {
        parts[0]
    } else {
        first_present(parts.drop_first())
    }
}

/// The parts of an address in the order a place name prefers them: city,
/// town, village, municipality, state district, county, state, country.
pub open spec fn place_parts(a: NominatimAddress) -> Seq<Option<String>> {
    seq![a.city, a.town, a.village, a.municipality, a.state_district, a.county, a.state, a.country]
}

/// `o` holds a non-empty text other than `place`.
pub open spec fn distinct_part(o: Option<String>, place: Seq<char>) -> bool {
    o matches Some(s) && s@.len() > 0 && s@ != place
}

/// The name of the place at an address: the most specific part present,
/// followed by the state (or else the country) when that adds something.
pub open spec fn address_place_name(a: NominatimAddress) -> Option<Seq<char>> {
    match first_present(place_parts(a)) {
        None => None,
        Some(place) => if distinct_part(a.state, place@) {
            Some(place@ + ", "@ + a.state->Some_0@)
        } else if distinct_part(a.country, place@) {
            Some(place@ + ", "@ + a.country->Some_0@)
        } else {
            Some(place@)
        },
    }
}

/// The name of a place shown for a location: the city name it already has,
/// or else the name of the address found for it (if any was found).
pub open spec fn place_name_of(known: Option<String>, address: Option<NominatimAddress>) -> Option<Seq<char>> {
    match known {
        Some(c) => Some(c@),
        None => match address {
            Some(a) => address_place_name(a),
            None => None,
        },
    }
}

/// Whether `o` holds a non-empty text other than `place`.
fn is_distinct_part(o: &Option<String>, place: &str) -> (r: bool)
    ensures
        r == distinct_part(*o, place@),
{
    match o {
        Some(s) => s.as_str().unicode_len() > 0 && !str_eq(s.as_str(), place),
        None => false,
    }
}

/// The name of a place at `address`.
pub fn place_name(address: &NominatimAddress) -> (r: Option<String>)
    ensures
        match r {
            Some(t) => address_place_name(*address) == Some(t@),
            None => address_place_name(*address) is None,
        },
{
    let ghost parts = place_parts(*address);
    let place: &String = if address.city.is_some() {
        address.city.as_ref().unwrap()
    } else if address.town.is_some() {
        address.town.as_ref().unwrap()
    } else if address.village.is_some() {
        address.village.as_ref().unwrap()
    } else if address.municipality.is_some() {
        address.municipality.as_ref().unwrap()
    } else if address.state_district.is_some() {
        address.state_district.as_ref().unwrap()
    } else if address.county.is_some() {
        address.county.as_ref().unwrap()
    } else if address.state.is_some() {
        address.state.as_ref().unwrap()
    } else if address.country.is_some() {
        address.country.as_ref().unwrap()
    } else {
        proof {
            reveal_with_fuel(first_present, 9);
        }
        return None;
    };
    proof {
        reveal_with_fuel(first_present, 9);
        assert(first_present(parts) == Some(*place));
    }
    let place = place.as_str();
    if is_distinct_part(&address.state, place) {
        Some(concat3(place, ", ", address.state.as_ref().unwrap().as_str()))
    } else if is_distinct_part(&address.country, place) {
        Some(concat3(place, ", ", address.country.as_ref().unwrap().as_str()))
    } else {
        Some(owned(place))
    }
}

/// The place name shown for a location: `known` is the city name the
/// location already has (no lookup is made then), `address` what reverse
/// geocoding found (`None` when the lookup failed or was not made).
pub fn resolve_place_name(known: Option<String>, address: Option<NominatimAddress>) -> (r: Option<String>)
    ensures
        match r {
            Some(t) => place_name_of(known, address) == Some(t@),
            None => place_name_of(known, address) is None,
        },
{
    match known {
        Some(c) => Some(c),
        None => match address {
            Some(a) => place_name(&a),
            None => None,
        },
    }
}

} // verus!
