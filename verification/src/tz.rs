//! Timezone resolution: a case-insensitive substring search over the
//! catalog of named timezones; the first catalog entry whose name
//! contains the query wins.

use vstd::prelude::*;
use vstd::string::StrSliceExecFns;

verus! {

/// `needle` occurs in `hay` starting at position `i`.
pub open spec fn matches_at(needle: Seq<char>, hay: Seq<char>, i: int) -> bool {
    &&& 0 <= i
    &&& i + needle.len() <= hay.len()
    &&& forall|j: int| 0 <= j < needle.len() ==> hay[i + j] == needle[j]
}

/// `needle` occurs somewhere in `hay`.
pub open spec fn is_substring(needle: Seq<char>, hay: Seq<char>) -> bool {
    exists|i: int| matches_at(needle, hay, i)
}

/// Substring test over characters.
pub fn contains_sub(hay: &str, needle: &str) -> (b: bool)
    ensures
        b == is_substring(needle@, hay@),
{
    let n = needle.unicode_len();
    let h = hay.unicode_len();
    if n > h {
        proof {
            assert forall|i: int| !matches_at(needle@, hay@, i) by {
                if 0 <= i && i + needle@.len() <= hay@.len() {
                    assert(needle@.len() <= hay@.len());
                }
            }
        }
        return false;
    }
    let mut i: usize = 0;
    while i <= h - n
        invariant
            n <= h,
            h == hay@.len(),
            n == needle@.len(),
            i <= h - n + 1,
            forall|k: int| 0 <= k < i ==> !matches_at(needle@, hay@, k),
        decreases h - n - i + 1,
    {
        let mut j: usize = 0;
        let mut matched = true;
        while j < n
            invariant
                n <= h,
                h == hay@.len(),
                n == needle@.len(),
                i + n <= h,
                j <= n,
                matched <==> (forall|k: int| 0 <= k < j ==> hay@[i + k] == needle@[k]),
            decreases n - j,
        {
            if hay.get_char(i + j) != needle.get_char(j) {
                matched = false;
            }
            j += 1;
        }
        if matched {
            proof {
                assert(matches_at(needle@, hay@, i as int));
            }
            return true;
        }
        i += 1;
    }
    proof {
        assert forall|k: int| !matches_at(needle@, hay@, k) by {
            if 0 <= k && k + needle@.len() <= hay@.len() {
                assert(k < i);
            }
        }
    }
    false
}

/// The lowercase form of a sequence of characters, as Unicode case
/// mapping produces it; it depends on the characters alone.
pub uninterp spec fn lower_of(s: Seq<char>) -> Seq<char>;

/// Relies on str::to_lowercase: returns the lowercase mapping of the
/// input, a function of the input characters alone.
#[verifier::external_body]
fn lowercase(s: &str) -> (r: String)
    ensures
        r@ == lower_of(s@),
{
    s.to_lowercase()
}

/// A catalog name answers a query when the lowercased name contains
/// the lowercased query.
pub open spec fn name_matches(name: Seq<char>, query: Seq<char>) -> bool {
    is_substring(lower_of(query), lower_of(name))
}

/// Position of the first catalog name that answers the query,
/// case-insensitively; `None` when no name does.
pub fn resolve_index(names: &Vec<String>, query: &str) -> (r: Option<usize>)
    ensures
        match r {
            Some(i) => {
                &&& i < names@.len()
                &&& name_matches(names@[i as int]@, query@)
                &&& forall|j: int| 0 <= j < i ==> !name_matches(names@[j]@, query@)
            },
            None => forall|j: int| 0 <= j < names@.len() ==> !name_matches(names@[j]@, query@),
        },
{
    let lq = lowercase(query);
    let mut i: usize = 0;
    while i < names.len()
        invariant
            lq@ == lower_of(query@),
            forall|j: int| 0 <= j < i ==> !name_matches(names@[j]@, query@),
        decreases names@.len() - i,
    {
        let ln = lowercase(names[i].as_str());
        if contains_sub(ln.as_str(), lq.as_str()) {
            return Some(i);
        }
        i += 1;
    }
    None
}

#[verifier::external_type_specification]
#[verifier::external_body]
pub struct ExTz(chrono_tz::Tz);

/// Number of entries in the fixed timezone catalog.
pub const TZ_CATALOG_LEN: usize = 597;

/// The identifier of the catalog entry at position `i`: the catalog is
/// one fixed table, so each name is a function of the position alone.
pub uninterp spec fn catalog_name_at(i: int) -> Seq<char>;

/// Relies on chrono_tz::TZ_VARIANTS and Tz::name: the complete fixed
/// catalog of named timezones, each paired with its identifier, 597
/// entries in catalog order.
#[verifier::external_body]
fn tz_catalog() -> (r: Vec<(chrono_tz::Tz, String)>)
    ensures
        r@.len() == TZ_CATALOG_LEN,
        forall|i: int| 0 <= i < TZ_CATALOG_LEN ==> r@[i].1@ == catalog_name_at(i),
{
    chrono_tz::TZ_VARIANTS
        .iter()
        .map(|t| (*t, t.name().to_string()))
        .collect()
}

/// Resolves user input to a timezone: the first entry of the fixed
/// catalog whose name contains the input, case-insensitively, together
/// with that name; `None` exactly when no catalog name matches.
pub fn parse_timezone(tz: &str) -> (r: Option<(chrono_tz::Tz, String)>)
    ensures
        r matches Some(p) ==> {
            &&& name_matches(p.1@, tz@)
            &&& exists|i: int|
                {
                    &&& 0 <= i < TZ_CATALOG_LEN
                    &&& p.1@ == catalog_name_at(i)
                    &&& name_matches(catalog_name_at(i), tz@)
                    &&& forall|j: int| 0 <= j < i ==> !name_matches(catalog_name_at(j), tz@)
                }
        },
        r is None ==> forall|i: int|
            0 <= i < TZ_CATALOG_LEN ==> !name_matches(catalog_name_at(i), tz@),
{
    let mut catalog = tz_catalog();
    let mut names: Vec<String> = Vec::new();
    let mut i: usize = 0;
    while i < catalog.len()
        invariant
            names@.len() == i,
            i <= catalog@.len(),
            forall|j: int| 0 <= j < i ==> names@[j]@ == catalog@[j].1@,
        decreases catalog@.len() - i,
    {
        names.push(catalog[i].1.clone());
        i += 1;
    }
    proof {
        assert forall|j: int| 0 <= j < names@.len() implies names@[j]@ == catalog_name_at(j) by {
            assert(names@[j]@ == catalog@[j].1@);
        }
    }
    match resolve_index(&names, tz) {
        Some(idx) => {
            proof {
                assert(name_matches(catalog_name_at(idx as int), tz@));
                assert forall|j: int| 0 <= j < idx implies !name_matches(
                    catalog_name_at(j),
                    tz@,
                ) by {
                    assert(names@[j]@ == catalog_name_at(j));
                }
            }
            let p = catalog.remove(idx);
            proof {
                assert(p.1@ == catalog_name_at(idx as int));
            }
            Some(p)
        },
        None => {
            proof {
                assert forall|i2: int| 0 <= i2 < TZ_CATALOG_LEN implies !name_matches(
                    catalog_name_at(i2),
                    tz@,
                ) by {
                    assert(names@[i2]@ == catalog_name_at(i2));
                }
            }
            None
        },
    }
}

} // verus!
