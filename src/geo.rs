//! The country of a client: a best-effort enrichment that never fails.

use vstd::prelude::*;

verus! {

/// The label reported when no country could be found for an address.
pub open spec fn unknown_label() -> Seq<char> {
    "Unknown"@
}

/// The country label for the outcome of a database lookup: the label found,
/// when there is a non-empty one, else the sentinel.
pub open spec fn country_of(found: Option<Seq<char>>) -> Seq<char> {
    match found {
        Some(label) => if label.len() > 0 { label } else { unknown_label() },
        None => unknown_label(),
    }
}

/// Turns the outcome of a country lookup (`None` for any failure: a malformed
/// address, no record, no database) into the label to report.
pub fn country_label(found: Option<String>) -> (r: String)
    ensures
        r@ == country_of(
            match found {
                Some(s) => Some(s@),
                None => None,
            },
        ),
        r@.len() > 0,
        r@ == unknown_label() || r@ == found->0@,
{
    proof {
        reveal_strlit("Unknown");
    }
    match found {
        Some(label) => {
            if label.as_str().unicode_len() > 0 {
                label
            } else {
                String::from_str("Unknown")
            }
        },
        None => String::from_str("Unknown"),
    }
}

/// The region label of a database record: its English name where it has
/// one, else its ISO code.
pub open spec fn region_of(english: Option<Seq<char>>, iso: Option<Seq<char>>) -> Option<Seq<char>> {
    match english {
        Some(name) => Some(name),
        None => iso,
    }
}

/// Chooses the label of a country record from its English name and its ISO
/// code, either of which the record may lack.
pub fn region_label(english: Option<String>, iso: Option<String>) -> (r: Option<String>)
    ensures
        (match r {
            Some(s) => Some(s@),
            None => None,
        }) == region_of(
            match english {
                Some(s) => Some(s@),
                None => None,
            },
            match iso {
                Some(s) => Some(s@),
                None => None,
            },
        ),
{
    match english {
        Some(name) => Some(name),
        None => iso,
    }
}

} // verus!
