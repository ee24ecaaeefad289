//! Choosing the charger among the discovered peripherals.
//!
//! Peripherals are searched first by advertised name, then, only where no
//! name matches, by the values read from their characteristics. In both
//! passes the first peripheral in discovery order that mentions the target
//! serial number wins.

use vstd::prelude::*;

use crate::error::SetupError;
use crate::text::{contains_text, decode_lossy, text_contains, utf8_lossy};

verus! {

/// `i` is the first position at which `hits` holds.
pub open spec fn is_first_hit(hits: Seq<bool>, i: int) -> bool {
    &&& 0 <= i < hits.len()
    &&& hits[i]
    &&& forall|j: int| 0 <= j < i ==> !hits[j]
}

/// `hits` holds nowhere.
pub open spec fn no_hit(hits: Seq<bool>) -> bool {
    forall|j: int| 0 <= j < hits.len() ==> !hits[j]
}

/// `r` is the first position at which `hits` holds, or `None` where there is
/// none.
pub open spec fn selects(r: Option<usize>, hits: Seq<bool>) -> bool {
    match r {
        Some(i) => is_first_hit(hits, i as int),
        None => no_hit(hits),
    }
}

/// A present text that mentions `target`.
pub open spec fn text_hit(t: Option<String>, target: Seq<char>) -> bool {
    match t {
        Some(s) => contains_text(s@, target),
        None => false,
    }
}

/// For each peripheral, whether its advertised name mentions `target`.
pub open spec fn name_hits(names: Seq<Option<String>>, target: Seq<char>) -> Seq<bool> {
    names.map_values(|n: Option<String>| text_hit(n, target))
}

/// A characteristic read that succeeded and whose value, decoded lossily as
/// UTF-8, mentions `target`.
pub open spec fn reading_hit(r: Option<Vec<u8>>, target: Seq<char>) -> bool {
    match r {
        Some(bytes) => contains_text(utf8_lossy(bytes@), target),
        None => false,
    }
}

/// Some characteristic read of one peripheral mentions `target`.
pub open spec fn any_reading_hit(rs: Seq<Option<Vec<u8>>>, target: Seq<char>) -> bool {
    exists|j: int| 0 <= j < rs.len() && reading_hit(#[trigger] rs[j], target)
}

/// For each peripheral, whether one of its characteristic reads mentions
/// `target`.
pub open spec fn reading_hits(readings: Seq<Vec<Option<Vec<u8>>>>, target: Seq<char>) -> Seq<bool> {
    readings.map_values(|rs: Vec<Option<Vec<u8>>>| any_reading_hit(rs@, target))
}

/// Whether a text is present and mentions `target`.
pub fn text_matches(t: &Option<String>, target: &str) -> (r: bool)
    ensures
        r == text_hit(*t, target@),
{
    match t {
        Some(s) => text_contains(s.as_str(), target),
        None => false,
    }
}

/// The first peripheral, in discovery order, whose advertised name mentions
/// `target`; `None` where no name does. A peripheral that advertises no name
/// never matches here.
pub fn find_by_name(names: &Vec<Option<String>>, target: &str) -> (r: Option<usize>)
    ensures
        selects(r, name_hits(names@, target@)),
{
    let ghost hits = name_hits(names@, target@);
    let mut i: usize = 0;
    while i < names.len()
        invariant
            hits == name_hits(names@, target@),
            hits.len() == names@.len(),
            i <= names@.len(),
            forall|j: int| 0 <= j < i ==> !hits[j],
        decreases names@.len() - i,
    {
        if text_matches(&names[i], target) {
            return Some(i);
        }
        i = i + 1;
    }
    None
}

/// A characteristic read decoded lossily as UTF-8; a failed read stays
/// `None`.
pub fn decode_reading(r: &Option<Vec<u8>>) -> (t: Option<String>)
    ensures
        r is None ==> t is None,
        r is Some ==> t is Some && t->0@ == utf8_lossy(r->0@),
{
    match r {
        Some(bytes) => Some(decode_lossy(bytes.as_slice())),
        None => None,
    }
}

/// Whether a characteristic read succeeded and its value, decoded lossily
/// as UTF-8, mentions `target`.
pub fn reading_matches(r: &Option<Vec<u8>>, target: &str) -> (m: bool)
    ensures
        m == reading_hit(*r, target@),
{
    let t = decode_reading(r);
    text_matches(&t, target)
}

/// Whether some characteristic read of one peripheral mentions `target`.
pub fn any_reading_matches(rs: &Vec<Option<Vec<u8>>>, target: &str) -> (m: bool)
    ensures
        m == any_reading_hit(rs@, target@),
{
    let mut j: usize = 0;
    while j < rs.len()
        invariant
            j <= rs@.len(),
            forall|k: int| 0 <= k < j ==> !reading_hit(rs@[k], target@),
        decreases rs@.len() - j,
    {
        if reading_matches(&rs[j], target) {
            return true;
        }
        j = j + 1;
    }
    false
}

/// The first peripheral, in discovery order, one of whose characteristic
/// reads mentions `target` once decoded lossily as UTF-8; `None` where none
/// does. A failed read (`None`) is skipped.
pub fn find_by_characteristics(readings: &Vec<Vec<Option<Vec<u8>>>>, target: &str) -> (r: Option<usize>)
    ensures
        selects(r, reading_hits(readings@, target@)),
{
    let ghost hits = reading_hits(readings@, target@);
    let mut i: usize = 0;
    while i < readings.len()
        invariant
            hits == reading_hits(readings@, target@),
            hits.len() == readings@.len(),
            i <= readings@.len(),
            forall|j: int| 0 <= j < i ==> !hits[j],
        decreases readings@.len() - i,
    {
        if any_reading_matches(&readings[i], target) {
            return Some(i);
        }
        i = i + 1;
    }
    None
}

/// The charger chosen from the two passes: the match by name where there is
/// one, else the match by characteristic value.
pub open spec fn spec_choose_charger(
    by_name: Option<usize>,
    by_characteristics: Option<usize>,
) -> Result<usize, SetupError> {
    match by_name {
        Some(i) => Ok(i),
        None => match by_characteristics {
            Some(i) => Ok(i),
            None => Err(SetupError::DeviceNotFound),
        },
    }
}

/// The charger chosen from the two passes: the match by name where there is
/// one, else the match by characteristic value, else `DeviceNotFound`.
pub fn choose_charger(by_name: Option<usize>, by_characteristics: Option<usize>) -> (r: Result<
    usize,
    SetupError,
>)
    ensures
        r == spec_choose_charger(by_name, by_characteristics),
{
    match by_name {
        Some(i) => Ok(i),
        None => match by_characteristics {
            Some(i) => Ok(i),
            None => Err(SetupError::DeviceNotFound),
        },
    }
}

/// Where exactly one peripheral's advertised name mentions the target, the
/// name pass selects that peripheral, and the charger chosen is that one
/// whatever the characteristic pass would find: it need not be run.
pub proof fn unique_name_match_is_chosen(names: Seq<Option<String>>, target: Seq<char>, k: int)
    requires
        0 <= k < names.len(),
        text_hit(names[k], target),
        forall|j: int| 0 <= j < names.len() && j != k ==> !text_hit(names[j], target),
    ensures
        forall|r: Option<usize>| selects(r, name_hits(names, target)) ==> r == Some(k as usize),
        forall|r: Option<usize>, fallback: Option<usize>|
            selects(r, name_hits(names, target)) ==> spec_choose_charger(r, fallback) == Ok::<
                usize,
                SetupError,
            >(k as usize),
{
    let hits = name_hits(names, target);
    assert forall|r: Option<usize>| selects(r, hits) implies r == Some(k as usize) by {
        assert(hits[k]);
        match r {
            Some(i) => {
                if i as int != k {
                    assert(hits[i as int]);
                }
            },
            None => {},
        }
    }
}

/// Where no advertised name mentions the target and exactly one peripheral
/// has a characteristic whose value, decoded lossily, mentions it, the
/// charger chosen is that peripheral.
pub proof fn unique_characteristic_match_is_chosen(
    names: Seq<Option<String>>,
    readings: Seq<Vec<Option<Vec<u8>>>>,
    target: Seq<char>,
    k: int,
)
    requires
        forall|j: int| 0 <= j < names.len() ==> !text_hit(names[j], target),
        0 <= k < readings.len(),
        any_reading_hit(readings[k]@, target),
        forall|j: int| 0 <= j < readings.len() && j != k ==> !any_reading_hit(readings[j]@, target),
    ensures
        forall|r: Option<usize>| selects(r, name_hits(names, target)) ==> r is None,
        forall|r: Option<usize>| selects(r, reading_hits(readings, target)) ==> r == Some(k as usize),
        forall|by_name: Option<usize>, by_characteristics: Option<usize>|
            selects(by_name, name_hits(names, target)) && selects(
                by_characteristics,
                reading_hits(readings, target),
            ) ==> spec_choose_charger(by_name, by_characteristics) == Ok::<usize, SetupError>(
                k as usize,
            ),
{
    let nh = name_hits(names, target);
    let rh = reading_hits(readings, target);
    assert forall|r: Option<usize>| selects(r, nh) implies r is None by {
        if let Some(i) = r {
            assert(!nh[i as int]);
        }
    }
    assert forall|r: Option<usize>| selects(r, rh) implies r == Some(k as usize) by {
        assert(rh[k]);
        if let Some(i) = r {
            if i as int != k {
                assert(rh[i as int]);
            }
        }
    }
}

/// Where neither advertised names nor characteristic values mention the
/// target, the search ends in `DeviceNotFound`, so no connection is made.
pub proof fn no_match_is_not_found(
    names: Seq<Option<String>>,
    readings: Seq<Vec<Option<Vec<u8>>>>,
    target: Seq<char>,
)
    requires
        forall|j: int| 0 <= j < names.len() ==> !text_hit(names[j], target),
        forall|j: int| 0 <= j < readings.len() ==> !any_reading_hit(readings[j]@, target),
    ensures
        forall|by_name: Option<usize>, by_characteristics: Option<usize>|
            selects(by_name, name_hits(names, target)) && selects(
                by_characteristics,
                reading_hits(readings, target),
            ) ==> spec_choose_charger(by_name, by_characteristics) == Err::<usize, SetupError>(
                SetupError::DeviceNotFound,
            ),
{
    let nh = name_hits(names, target);
    let rh = reading_hits(readings, target);
    assert forall|by_name: Option<usize>, by_characteristics: Option<usize>|
        selects(by_name, nh) && selects(by_characteristics, rh) implies spec_choose_charger(
        by_name,
        by_characteristics,
    ) == Err::<usize, SetupError>(SetupError::DeviceNotFound) by {
        if let Some(i) = by_name {
            assert(!nh[i as int]);
        }
        if let Some(i) = by_characteristics {
            assert(!rh[i as int]);
        }
    }
}

} // verus!
