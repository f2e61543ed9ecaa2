use vstd::prelude::*;
use crate::error::SchemaError;

verus! {

// The catalogs: fixed, ordered enumerations of the legal values for each
// choice the wizard offers.  Selection is index-based, so the order here is
// part of the interface and must never change.

/// The catalog of collection tags.
pub open spec fn tag_catalog() -> Seq<Seq<char>> {
    seq![
        "Art"@,
        "ProfilePicture"@,
        "Collectible"@,
        "GameAsset"@,
        "TokenisedAsset"@,
        "Ticker"@,
        "DomainName"@,
        "Music"@,
        "Video"@,
        "Ticket"@,
        "License"@,
    ]
}

/// The catalog of NFT fields the operator may pick directly.
/// The "tags" field is not offered here: the aggregate derives it.
pub open spec fn field_catalog() -> Seq<Seq<char>> {
    seq!["display"@, "url"@, "attributes"@]
}

/// The catalog of NFT behaviours.
pub open spec fn behaviour_catalog() -> Seq<Seq<char>> {
    seq!["composable"@, "loose"@]
}

/// The catalog of supply policies.
pub open spec fn supply_catalog() -> Seq<Seq<char>> {
    seq!["Unlimited"@, "Limited"@]
}

/// The catalog of minting strategies.
pub open spec fn mint_catalog() -> Seq<Seq<char>> {
    seq!["Launchpad"@, "Direct"@, "Airdrop"@]
}

/// The catalog of royalty policies.
pub open spec fn royalty_catalog() -> Seq<Seq<char>> {
    seq!["Proportional"@, "Constant"@, "None"@]
}

/// The catalog of market primitives.
pub open spec fn market_catalog() -> Seq<Seq<char>> {
    seq!["FixedPrice"@, "DutchAuction"@]
}

/// The tag catalog, as the driver displays it.
pub fn tag_options() -> (v: Vec<&'static str>)
    ensures
        v@.len() == tag_catalog().len(),
        forall|i: int| 0 <= i < v@.len() ==> (#[trigger] v@[i])@ == tag_catalog()[i],
{
    let v: Vec<&'static str> = vec![
        "Art",
        "ProfilePicture",
        "Collectible",
        "GameAsset",
        "TokenisedAsset",
        "Ticker",
        "DomainName",
        "Music",
        "Video",
        "Ticket",
        "License",
    ];
    v
}

/// The field catalog, as the driver displays it.
pub fn field_options() -> (v: Vec<&'static str>)
    ensures
        v@.len() == field_catalog().len(),
        forall|i: int| 0 <= i < v@.len() ==> (#[trigger] v@[i])@ == field_catalog()[i],
{
    let v: Vec<&'static str> = vec!["display", "url", "attributes"];
    v
}

/// The behaviour catalog, as the driver displays it.
pub fn behaviour_options() -> (v: Vec<&'static str>)
    ensures
        v@.len() == behaviour_catalog().len(),
        forall|i: int| 0 <= i < v@.len() ==> (#[trigger] v@[i])@ == behaviour_catalog()[i],
{
    let v: Vec<&'static str> = vec!["composable", "loose"];
    v
}

/// The supply catalog, as the driver displays it.
pub fn supply_options() -> (v: Vec<&'static str>)
    ensures
        v@.len() == supply_catalog().len(),
        forall|i: int| 0 <= i < v@.len() ==> (#[trigger] v@[i])@ == supply_catalog()[i],
{
    let v: Vec<&'static str> = vec!["Unlimited", "Limited"];
    v
}

/// The minting catalog, as the driver displays it.
pub fn mint_options() -> (v: Vec<&'static str>)
    ensures
        v@.len() == mint_catalog().len(),
        forall|i: int| 0 <= i < v@.len() ==> (#[trigger] v@[i])@ == mint_catalog()[i],
{
    let v: Vec<&'static str> = vec!["Launchpad", "Direct", "Airdrop"];
    v
}

/// The royalty catalog, as the driver displays it.
pub fn royalty_options() -> (v: Vec<&'static str>)
    ensures
        v@.len() == royalty_catalog().len(),
        forall|i: int| 0 <= i < v@.len() ==> (#[trigger] v@[i])@ == royalty_catalog()[i],
{
    let v: Vec<&'static str> = vec!["Proportional", "Constant", "None"];
    v
}

/// The market catalog, as the driver displays it.
pub fn market_options() -> (v: Vec<&'static str>)
    ensures
        v@.len() == market_catalog().len(),
        forall|i: int| 0 <= i < v@.len() ==> (#[trigger] v@[i])@ == market_catalog()[i],
{
    let v: Vec<&'static str> = vec!["FixedPrice", "DutchAuction"];
    v
}

/// Maps selection indices to the catalog entries they denote, in selection
/// order.  The driver guarantees the indices are in bounds.
pub fn map_indices(indices: Vec<usize>, arr: &[&str]) -> (r: Vec<String>)
    requires
        forall|i: int| 0 <= i < indices@.len() ==> (#[trigger] indices@[i]) < arr@.len(),
    ensures
        r@.len() == indices@.len(),
        forall|i: int| 0 <= i < r@.len() ==> (#[trigger] r@[i])@ == arr@[indices@[i] as int]@,
{
    let mut r: Vec<String> = Vec::new();
    let mut k: usize = 0;
    while k < indices.len()
        invariant
            k <= indices@.len(),
            forall|i: int| 0 <= i < indices@.len() ==> (#[trigger] indices@[i]) < arr@.len(),
            r@.len() == k,
            forall|i: int| 0 <= i < k ==> (#[trigger] r@[i])@ == arr@[indices@[i] as int]@,
        decreases indices@.len() - k,
    {
        let idx: usize = indices[k];
        r.push(arr[idx].to_owned());
        k += 1;
    }
    r
}

/// Maps selection indices to catalog entries as `map_indices` does, but
/// checks the bounds itself: an out-of-bounds index is the driver breaking
/// its promise and is reported, not assumed away.
pub fn select_from_catalog(indices: &Vec<usize>, arr: &Vec<&str>) -> (r: Result<
    Vec<String>,
    SchemaError,
>)
    ensures
        match r {
            Ok(v) => {
                &&& forall|i: int| 0 <= i < indices@.len() ==> (#[trigger] indices@[i]) < arr@.len()
                &&& v@.len() == indices@.len()
                &&& forall|i: int| 0 <= i < v@.len() ==> (#[trigger] v@[i])@ == arr@[indices@[i] as int]@
            },
            Err(e) => {
                &&& e == SchemaError::IndexOutOfBounds
                &&& exists|i: int| 0 <= i < indices@.len() && (#[trigger] indices@[i]) >= arr@.len()
            },
        },
{
    let mut k: usize = 0;
    while k < indices.len()
        invariant
            k <= indices@.len(),
            forall|i: int| 0 <= i < k ==> (#[trigger] indices@[i]) < arr@.len(),
        decreases indices@.len() - k,
    {
        if indices[k] >= arr.len() {
            return Err(SchemaError::IndexOutOfBounds);
        }
        k += 1;
    }
    Ok(map_indices(indices.clone(), arr.as_slice()))
}

/// Exact string equality, stated over the views.
pub fn str_eq(a: &str, b: &str) -> (r: bool)
    ensures
        r == (a@ == b@),
{
    a.to_owned() == b.to_owned()
}

/// Some entry of `s` reads as `x`.
pub open spec fn has_view(s: Seq<String>, x: Seq<char>) -> bool {
    exists|i: int| 0 <= i < s.len() && s[i]@ == x
}

/// The entries of `s`, as a mathematical set of character sequences.
pub open spec fn view_set(s: Seq<String>) -> Set<Seq<char>> {
    Set::new(|x: Seq<char>| has_view(s, x))
}

/// Appending one entry adds exactly its reading to the set of readings.
pub proof fn lemma_has_view_push(s: Seq<String>, t: String, x: Seq<char>)
    ensures
        has_view(s.push(t), x) <==> (has_view(s, x) || x == t@),
{
    if has_view(s.push(t), x) {
        let i = choose|i: int| 0 <= i < s.push(t).len() && s.push(t)[i]@ == x;
        if i < s.len() {
            assert(s[i]@ == x);
        }
    }
    if has_view(s, x) {
        let i = choose|i: int| 0 <= i < s.len() && s[i]@ == x;
        assert(s.push(t)[i]@ == x);
    }
    if x == t@ {
        assert(s.push(t)[s.len() as int]@ == x);
    }
}

/// The reading of every possible entry, after appending `t` to `s`.
pub proof fn lemma_has_view_push_all(s: Seq<String>, t: String)
    ensures
        forall|x: Seq<char>| #[trigger] has_view(s.push(t), x) <==> (has_view(s, x) || x == t@),
{
    assert forall|x: Seq<char>| #[trigger]
        has_view(s.push(t), x) <==> (has_view(s, x) || x == t@) by {
        lemma_has_view_push(s, t, x);
    }
}

/// Whether some entry of `v` reads as `t`.
pub fn vec_contains_str(v: &Vec<String>, t: &str) -> (r: bool)
    ensures
        r == has_view(v@, t@),
{
    let mut k: usize = 0;
    while k < v.len()
        invariant
            k <= v@.len(),
            forall|i: int| 0 <= i < k ==> (#[trigger] v@[i])@ != t@,
        decreases v@.len() - k,
    {
        if str_eq(v[k].as_str(), t) {
            return true;
        }
        k += 1;
    }
    false
}

/// Drops repeated entries, keeping the first occurrence of each reading.
pub fn dedup_strings(v: &Vec<String>) -> (out: Vec<String>)
    ensures
        forall|i: int, j: int| 0 <= i < j < out@.len() ==> out@[i]@ != out@[j]@,
        forall|x: Seq<char>| has_view(out@, x) <==> has_view(v@, x),
        forall|i: int| 0 <= i < out@.len() ==> has_view(v@, (#[trigger] out@[i])@),
        out@.len() <= v@.len(),
        v@.len() > 0 ==> out@.len() > 0,
{
    let mut out: Vec<String> = Vec::new();
    let mut k: usize = 0;
    while k < v.len()
        invariant
            k <= v@.len(),
            out@.len() <= k,
            k > 0 ==> out@.len() > 0,
            forall|i: int, j: int| 0 <= i < j < out@.len() ==> out@[i]@ != out@[j]@,
            forall|x: Seq<char>| has_view(out@, x) <==> has_view(v@.subrange(0, k as int), x),
            forall|i: int| 0 <= i < out@.len() ==> has_view(v@, (#[trigger] out@[i])@),
        decreases v@.len() - k,
    {
        let ghost pre = out@;
        let t = &v[k];
        if !vec_contains_str(&out, t.as_str()) {
            out.push(t.clone());
        }
        proof {
            assert(v@.subrange(0, k + 1) =~= v@.subrange(0, k as int).push(v@[k as int]));
            assert forall|x: Seq<char>|
                has_view(out@, x) <==> has_view(v@.subrange(0, k + 1), x) by {
                lemma_has_view_push(v@.subrange(0, k as int), v@[k as int], x);
                if out@ != pre {
                    lemma_has_view_push(pre, v@[k as int], x);
                }
            }
            assert(has_view(v@, (v@[k as int])@));
        }
        k += 1;
    }
    proof {
        assert(v@.subrange(0, v@.len() as int) =~= v@);
    }
    out
}

} // verus!
