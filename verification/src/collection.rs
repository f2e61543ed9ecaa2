use vstd::prelude::*;
use crate::catalogs::{dedup_strings, has_view, str_eq, tag_catalog, tag_options, view_set};
use crate::error::SchemaError;

verus! {

/// Whether `t` is a member of the tag catalog.
pub fn tag_in_catalog(t: &str) -> (r: bool)
    ensures
        r == tag_catalog().contains(t@),
{
    let opts = tag_options();
    let mut k: usize = 0;
    while k < opts.len()
        invariant
            k <= opts@.len(),
            opts@.len() == tag_catalog().len(),
            forall|i: int| 0 <= i < opts@.len() ==> (#[trigger] opts@[i])@ == tag_catalog()[i],
            forall|i: int| 0 <= i < k ==> tag_catalog()[i] != t@,
        decreases opts@.len() - k,
    {
        if str_eq(opts[k], t) {
            assert(tag_catalog().contains(t@));
            return true;
        }
        k += 1;
    }
    false
}

/// For any selection of tag indices inside the catalog, the committed tag
/// set is exactly the set of catalog entries those indices denote:
/// independent of selection order and repetition, and free of duplicates.
///
/// `mapped` is what mapping the indices over the catalog returns, and
/// `stored` what `set_tags` then commits; the premises are their contracts.
pub proof fn lemma_tag_selection_exact(indices: Seq<usize>, mapped: Seq<String>, stored: Seq<String>)
    requires
        forall|i: int| 0 <= i < indices.len() ==> (#[trigger] indices[i]) < tag_catalog().len(),
        mapped.len() == indices.len(),
        forall|i: int|
            0 <= i < mapped.len() ==> (#[trigger] mapped[i])@ == tag_catalog()[indices[i] as int],
        view_set(stored) == view_set(mapped),
        forall|i: int, j: int| 0 <= i < j < stored.len() ==> stored[i]@ != stored[j]@,
    ensures
        view_set(stored) =~= Set::new(
            |x: Seq<char>|
                exists|i: int|
                    0 <= i < indices.len() && x == tag_catalog()[(#[trigger] indices[i]) as int],
        ),
{
    assert forall|x: Seq<char>| #[trigger]
        has_view(mapped, x) <==> (exists|i: int|
            0 <= i < indices.len() && x == tag_catalog()[(#[trigger] indices[i]) as int]) by {
        if has_view(mapped, x) {
            let i = choose|i: int| 0 <= i < mapped.len() && mapped[i]@ == x;
            assert(x == tag_catalog()[indices[i] as int]);
        }
        if exists|i: int|
            0 <= i < indices.len() && x == tag_catalog()[(#[trigger] indices[i]) as int] {
            let i = choose|i: int|
                0 <= i < indices.len() && x == tag_catalog()[indices[i] as int];
            assert(mapped[i]@ == x);
        }
    }
}

/// The collection-level metadata: answered first, one setter per answer,
/// each overwriting any earlier answer to the same question.
pub struct Collection {
    pub name: String,
    pub description: String,
    pub symbol: String,
    pub tags: Option<Vec<String>>,
    pub url: Option<String>,
}

impl Collection {
    /// If tags were committed, each is a catalog tag and none repeats.
    pub open spec fn wf(self) -> bool {
        self.tags matches Some(ts) ==> {
            &&& forall|i: int| 0 <= i < ts@.len() ==> tag_catalog().contains((#[trigger] ts@[i])@)
            &&& forall|i: int, j: int| 0 <= i < j < ts@.len() ==> ts@[i]@ != ts@[j]@
        }
    }

    /// The empty metadata the wizard starts from.
    pub fn new() -> (r: Collection)
        ensures
            r.name@ == Seq::<char>::empty(),
            r.description@ == Seq::<char>::empty(),
            r.symbol@ == Seq::<char>::empty(),
            r.tags is None,
            r.url is None,
            r.wf(),
    {
        Collection {
            name: String::new(),
            description: String::new(),
            symbol: String::new(),
            tags: Option::None,
            url: Option::None,
        }
    }

    /// Overwrites the collection name.
    pub fn set_name(&mut self, name: String)
        ensures
            final(self).name@ == name@,
            final(self).description == old(self).description,
            final(self).symbol == old(self).symbol,
            final(self).tags == old(self).tags,
            final(self).url == old(self).url,
    {
        self.name = name;
    }

    /// Overwrites the collection description.
    pub fn set_description(&mut self, description: String)
        ensures
            final(self).description@ == description@,
            final(self).name == old(self).name,
            final(self).symbol == old(self).symbol,
            final(self).tags == old(self).tags,
            final(self).url == old(self).url,
    {
        self.description = description;
    }

    /// Overwrites the collection symbol.
    pub fn set_symbol(&mut self, symbol: String)
        ensures
            final(self).symbol@ == symbol@,
            final(self).name == old(self).name,
            final(self).description == old(self).description,
            final(self).tags == old(self).tags,
            final(self).url == old(self).url,
    {
        self.symbol = symbol;
    }

    /// Overwrites the collection website URL.
    pub fn set_url(&mut self, url: String)
        ensures
            final(self).url matches Some(u) && u@ == url@,
            final(self).name == old(self).name,
            final(self).description == old(self).description,
            final(self).symbol == old(self).symbol,
            final(self).tags == old(self).tags,
    {
        self.url = Option::Some(url);
    }

    /// Replaces the whole tag set atomically.
    ///
    /// Every answer must be a member of the tag catalog; the committed set
    /// holds exactly the answers' readings, first occurrence first, no
    /// reading twice.  On a stranger the collection is left untouched.
    pub fn set_tags(&mut self, tags: &Vec<String>) -> (r: Result<(), SchemaError>)
        ensures
            match r {
                Ok(()) => {
                    &&& forall|i: int|
                        0 <= i < tags@.len() ==> tag_catalog().contains((#[trigger] tags@[i])@)
                    &&& final(self).tags matches Some(ts) && {
                        &&& forall|i: int, j: int| 0 <= i < j < ts@.len() ==> ts@[i]@ != ts@[j]@
                        &&& view_set(ts@) == view_set(tags@)
                        &&& ts@.len() <= tags@.len()
                        &&& tags@.len() > 0 ==> ts@.len() > 0
                    }
                    &&& final(self).wf()
                    &&& final(self).name == old(self).name
                    &&& final(self).description == old(self).description
                    &&& final(self).symbol == old(self).symbol
                    &&& final(self).url == old(self).url
                },
                Err(e) => {
                    &&& e == SchemaError::UnknownTag
                    &&& exists|i: int|
                        0 <= i < tags@.len() && !tag_catalog().contains((#[trigger] tags@[i])@)
                    &&& *final(self) == *old(self)
                },
            },
    {
        let mut k: usize = 0;
        while k < tags.len()
            invariant
                k <= tags@.len(),
                forall|i: int| 0 <= i < k ==> tag_catalog().contains((#[trigger] tags@[i])@),
            decreases tags@.len() - k,
        {
            if !tag_in_catalog(tags[k].as_str()) {
                return Err(SchemaError::UnknownTag);
            }
            k += 1;
        }
        let deduped = dedup_strings(tags);
        proof {
            assert(view_set(deduped@) =~= view_set(tags@));
            assert forall|i: int| 0 <= i < deduped@.len() implies tag_catalog().contains(
                (#[trigger] deduped@[i])@,
            ) by {
                let k = choose|k: int| 0 <= k < tags@.len() && tags@[k]@ == deduped@[i]@;
                assert(tag_catalog().contains(tags@[k]@));
            }
        }
        self.tags = Option::Some(deduped);
        Ok(())
    }
}

} // verus!
