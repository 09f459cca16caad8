//! The header projection: the request's headers as an ordered mapping of
//! display strings, without `host`, with the client's country and address
//! added at the end.

use vstd::prelude::*;
use crate::text::str_eq;

verus! {

/// A header, or an entry of a projection, as name and value.
pub type Entry = (Seq<char>, Seq<char>);

/// The characters of a list of name/value pairs.
pub open spec fn pairs_view(v: Seq<(String, String)>) -> Seq<Entry> {
    v.map_values(|e: (String, String)| (e.0@, e.1@))
}

/// `s` with one layer of surrounding double quotes removed: the characters
/// between a leading and a trailing `"`, else `s` itself.
pub open spec fn unquoted(s: Seq<char>) -> Seq<char> {
    if s.len() >= 2 && s[0] == '"' && s.last() == '"' {
        s.subrange(1, s.len() - 1)
    } else {
        s
    }
}

/// The name `host`, in any mix of letter case.
pub open spec fn is_host_name(k: Seq<char>) -> bool {
    &&& k.len() == 4
    &&& (k[0] == 'h' || k[0] == 'H')
    &&& (k[1] == 'o' || k[1] == 'O')
    &&& (k[2] == 's' || k[2] == 'S')
    &&& (k[3] == 't' || k[3] == 'T')
}

/// Names that the projection does not copy from the request: `host`, and the
/// two names that it fills in itself.
pub open spec fn is_reserved_name(k: Seq<char>) -> bool {
    is_host_name(k) || k == "country"@ || k == "ip-address"@
}

/// Whether some entry of `m` has the name `k`.
pub open spec fn has_name(m: Seq<Entry>, k: Seq<char>) -> bool {
    exists|i: int| 0 <= i < m.len() && (#[trigger] m[i]).0 == k
}

/// No two entries of `m` share a name.
pub open spec fn names_unique(m: Seq<Entry>) -> bool {
    forall|i: int, j: int| 0 <= i < m.len() && 0 <= j < m.len() && i != j ==> (#[trigger] m[i]).0 != (#[trigger] m[j]).0
}

/// `m` with the entry for `k` set to `v`: in its place where `k` is present,
/// else added at the end.
pub open spec fn upsert(m: Seq<Entry>, k: Seq<char>, v: Seq<char>) -> Seq<Entry> {
    if has_name(m, k) {
        m.update(choose|i: int| 0 <= i < m.len() && (#[trigger] m[i]).0 == k, (k, v))
    } else {
        m.push((k, v))
    }
}

/// The request's headers copied in order with their values unquoted; a later
/// header of a name already seen replaces its value, and reserved names are
/// left out.
pub open spec fn copied_headers(hs: Seq<Entry>) -> Seq<Entry>
    decreases hs.len(),
{
    if hs.len() == 0 {
        Seq::empty()
    } else {
        let rest = copied_headers(hs.drop_last());
        let k = hs.last().0;
        if is_reserved_name(k) {
            rest
        } else {
            upsert(rest, k, unquoted(hs.last().1))
        }
    }
}

/// The projection of the headers `hs` for a client at `address` in `country`.
pub open spec fn projection(hs: Seq<Entry>, address: Seq<char>, country: Seq<char>) -> Seq<Entry> {
    copied_headers(hs).push(("country"@, country)).push(("ip-address"@, address))
}

/// Projected headers: an ordered mapping from names to display values.
pub struct HeaderProjection {
    pub entries: Vec<(String, String)>,
}

impl View for HeaderProjection {
    type V = Seq<Entry>;

    open spec fn view(&self) -> Seq<Entry> {
        pairs_view(self.entries@)
    }
}

impl HeaderProjection {
    /// Names are unique, `host` is absent, and `country` and `ip-address`
    /// are present.
    pub open spec fn wf(&self) -> bool {
        &&& names_unique(self@)
        &&& forall|i: int| 0 <= i < self@.len() ==> !is_host_name((#[trigger] self@[i]).0)
        &&& has_name(self@, "country"@)
        &&& has_name(self@, "ip-address"@)
    }

    /// The number of entries.
    pub fn len(&self) -> (r: usize)
        ensures
            r == self@.len(),
    {
        self.entries.len()
    }

    /// The value of the entry named `name`, if there is one.
    pub fn get(&self, name: &str) -> (r: Option<String>)
        requires
            names_unique(self@),
        ensures
            r is Some <==> has_name(self@, name@),
            r is Some ==> exists|i: int|
                0 <= i < self@.len() && (#[trigger] self@[i]).0 == name@ && self@[i].1 == r->0@,
    {
        match find_name(&self.entries, name) {
            Some(i) => {
                let v = self.entries[i].1.clone();
                assert(self@[i as int].0 == name@ && self@[i as int].1 == v@);
                Some(v)
            },
            None => None,
        }
    }
}

/// The first position in `v` of a pair named `name`.
pub fn find_name(v: &Vec<(String, String)>, name: &str) -> (r: Option<usize>)
    ensures
        r is Some <==> has_name(pairs_view(v@), name@),
        r is Some ==> r->0 < v@.len() && v@[r->0 as int].0@ == name@
            && forall|j: int| 0 <= j < r->0 ==> v@[j].0@ != name@,
{
    let mut i: usize = 0;
    while i < v.len()
        invariant
            i <= v@.len(),
            forall|j: int| 0 <= j < i ==> v@[j].0@ != name@,
        decreases v@.len() - i,
    {
        if str_eq(v[i].0.as_str(), name) {
            assert(pairs_view(v@)[i as int].0 == name@);
            return Some(i);
        }
        i = i + 1;
    }
    assert forall|j: int| 0 <= j < pairs_view(v@).len() implies (#[trigger] pairs_view(v@)[j]).0 != name@ by {
        assert(pairs_view(v@)[j].0 == v@[j].0@);
    }
    None
}

/// Removes one layer of surrounding double quotes from a header value.
pub fn strip_quotes(s: &str) -> (r: String)
    ensures
        r@ == unquoted(s@),
{
    let n = s.unicode_len();
    if n >= 2 && s.get_char(0) == '"' && s.get_char(n - 1) == '"' {
        s.substring_char(1, n - 1).to_owned()
    } else {
        s.to_owned()
    }
}

/// Whether `k` is `host` in some letter case.
pub fn is_host(k: &str) -> (r: bool)
    ensures
        r == is_host_name(k@),
{
    if k.unicode_len() != 4 {
        return false;
    }
    let c0 = k.get_char(0);
    let c1 = k.get_char(1);
    let c2 = k.get_char(2);
    let c3 = k.get_char(3);
    (c0 == 'h' || c0 == 'H') && (c1 == 'o' || c1 == 'O') && (c2 == 's' || c2 == 'S') && (c3
        == 't' || c3 == 'T')
}

/// Whether the projection fills in the name `k` itself rather than copy it.
pub fn is_reserved(k: &str) -> (r: bool)
    ensures
        r == is_reserved_name(k@),
{
    is_host(k) || str_eq(k, "country") || str_eq(k, "ip-address")
}

/// Projects the request's headers `headers` (names and raw values, in request
/// order) for a client at `address` whose country is `country`.
pub fn project(headers: &Vec<(String, String)>, address: &str, country: &str) -> (r:
    HeaderProjection)
    ensures
        r@ == projection(pairs_view(headers@), address@, country@),
        r.wf(),
{
    let ghost hs = pairs_view(headers@);
    let mut entries: Vec<(String, String)> = Vec::new();
    let mut i: usize = 0;
    while i < headers.len()
        invariant
            i <= headers@.len(),
            hs == pairs_view(headers@),
            pairs_view(entries@) == copied_headers(hs.take(i as int)),
            names_unique(pairs_view(entries@)),
            forall|j: int|
                0 <= j < entries@.len() ==> !is_reserved_name((#[trigger] entries@[j]).0@),
        decreases headers@.len() - i,
    {
        let ghost before = pairs_view(entries@);
        assert(hs.take(i + 1).drop_last() =~= hs.take(i as int));
        assert(hs.take(i + 1).last() == hs[i as int]);
        let name = &headers[i].0;
        if !is_reserved(name.as_str()) {
            let value = strip_quotes(headers[i].1.as_str());
            match find_name(&entries, name.as_str()) {
                Some(j) => {
                    proof {
                        let c = choose|x: int| 0 <= x < before.len() && (#[trigger] before[x]).0 == name@;
                        assert(before[j as int].0 == name@);
                        assert(c == j);
                    }
                    entries[j] = (name.clone(), value);
                    assert(pairs_view(entries@) =~= before.update(j as int, (name@, unquoted(hs[i as int].1))));
                },
                None => {
                    entries.push((name.clone(), value));
                    assert(pairs_view(entries@) =~= before.push((name@, unquoted(hs[i as int].1))));
                },
            }
        }
        i = i + 1;
    }
    assert(hs.take(headers@.len() as int) =~= hs);
    let ghost copied = pairs_view(entries@);
    entries.push((String::from_str("country"), country.to_owned()));
    entries.push((String::from_str("ip-address"), address.to_owned()));
    let r = HeaderProjection { entries };
    proof {
        reveal_strlit("country");
        reveal_strlit("ip-address");
        reveal_strlit("host");
        assert(r@ =~= copied.push(("country"@, country@)).push(("ip-address"@, address@)));
        assert(r@[r@.len() - 2].0 == "country"@);
        assert(r@[r@.len() - 1].0 == "ip-address"@);
        assert forall|a: int| 0 <= a < r@.len() implies !is_host_name((#[trigger] r@[a]).0) by {
            if a < copied.len() {
                assert(r@[a] == copied[a]);
            }
        }
    }
    r
}

/// Copying the headers keeps names unique and copies no reserved name.
proof fn lemma_copied_headers_clean(hs: Seq<Entry>)
    ensures
        names_unique(copied_headers(hs)),
        forall|i: int|
            0 <= i < copied_headers(hs).len() ==> !is_reserved_name(
                (#[trigger] copied_headers(hs)[i]).0,
            ),
    decreases hs.len(),
{
    if hs.len() > 0 {
        lemma_copied_headers_clean(hs.drop_last());
        let rest = copied_headers(hs.drop_last());
        let k = hs.last().0;
        if !is_reserved_name(k) {
            if has_name(rest, k) {
                let c = choose|x: int| 0 <= x < rest.len() && (#[trigger] rest[x]).0 == k;
                assert(copied_headers(hs) == rest.update(c, (k, unquoted(hs.last().1))));
            } else {
                assert(copied_headers(hs) == rest.push((k, unquoted(hs.last().1))));
            }
        }
    }
}

/// For every collection of headers, address and country, the projection
/// holds no `host` entry in any letter case, holds a `country` and an
/// `ip-address` entry, and no two of its entries share a name.
pub proof fn projection_keys_law(hs: Seq<Entry>, address: Seq<char>, country: Seq<char>)
    ensures
        forall|i: int|
            0 <= i < projection(hs, address, country).len() ==> !is_host_name(
                (#[trigger] projection(hs, address, country)[i]).0,
            ),
        has_name(projection(hs, address, country), "country"@),
        has_name(projection(hs, address, country), "ip-address"@),
        names_unique(projection(hs, address, country)),
{
    reveal_strlit("country");
    reveal_strlit("ip-address");
    lemma_copied_headers_clean(hs);
    let c = copied_headers(hs);
    let p = projection(hs, address, country);
    assert(p[c.len() as int].0 == "country"@);
    assert(p[c.len() as int + 1].0 == "ip-address"@);
    assert forall|i: int| 0 <= i < p.len() implies !is_host_name((#[trigger] p[i]).0) by {
        if i < c.len() {
            assert(p[i] == c[i]);
        }
    }
    assert forall|i: int, j: int| 0 <= i < p.len() && 0 <= j < p.len() && i != j implies (#[trigger] p[i]).0 != (#[trigger] p[j]).0 by {
        if i < c.len() {
            assert(p[i] == c[i]);
        }
        if j < c.len() {
            assert(p[j] == c[j]);
        }
    }
}

/// The pretty-printed JSON object that serde_json writes for the given
/// name/value pairs, each value a JSON string.
pub uninterp spec fn pretty_json_of(entries: Seq<Entry>) -> Seq<char>;

/// Relies on serde_json::to_string_pretty: writes a map of string names to
/// string values as indented JSON text into a `Vec`, which cannot fail for
/// string keys and values; the text depends on the pairs alone.
#[verifier::external_body]
fn to_pretty_json(entries: &Vec<(String, String)>) -> (r: Option<String>)
    ensures
        r is Some,
        r->0@ == pretty_json_of(pairs_view(entries@)),
{
    let map: serde_json::Map<String, serde_json::Value> = entries.iter().map(
        |e| (e.0.clone(), serde_json::Value::String(e.1.clone())),
    ).collect();
    serde_json::to_string_pretty(&map).ok()
}

impl HeaderProjection {
    /// The projection as pretty-printed JSON.
    pub fn to_json(&self) -> (r: String)
        ensures
            r@ == pretty_json_of(self@),
    {
        match to_pretty_json(&self.entries) {
            Some(text) => text,
            None => String::new(),
        }
    }
}

} // verus!
