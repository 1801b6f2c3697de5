//! The fonts a layout call falls back to.
//!
//! Font files are parsed and kept by the shaper's font collection. What the
//! library keeps of them is the name of the family each file was registered
//! under.

use vstd::prelude::*;

verus! {

/// The shaper's collection of fonts. Nothing inside it is visible here.
#[verifier::external_type_specification]
#[verifier::external_body]
pub struct ExCollection(parley::fontique::Collection);

/// The shaper's cache of font files that were read. Nothing inside it is
/// visible here.
#[verifier::external_type_specification]
#[verifier::external_body]
pub struct ExSourceCache(parley::fontique::SourceCache);

/// The identifier that a font collection gives a family.
#[verifier::external_type_specification]
#[verifier::external_body]
pub struct ExFamilyId(parley::fontique::FamilyId);

/// The two parts of the shaper's font context, and the families that were
/// registered in the collection, in the order of their registration. They
/// are what a layout call tries where its options name no families.
pub struct FontContext {
    pub collection: parley::fontique::Collection,
    pub source_cache: parley::fontique::SourceCache,
    pub fonts: Vec<String>,
}

/// The names under which a font collection lists its families: those of the
/// fonts registered in it and, where it reaches them, those of the system.
pub uninterp spec fn collection_families(collection: parley::fontique::Collection) -> Set<Seq<char>>;

/// The options a font collection was made with: whether it keeps a store
/// that it shares with its copies, and whether it reaches the fonts of the
/// system. They stay as they are for as long as the collection lives.
pub uninterp spec fn collection_options(collection: parley::fontique::Collection) -> (bool, bool);

/// Whether a source cache was made with a store that it shares with its
/// copies.
pub uninterp spec fn source_cache_shared(cache: parley::fontique::SourceCache) -> bool;

/// Calls `fontique::Collection::new` with the given options, for a
/// collection that does not reach the fonts of the system: making one that
/// does asks the system for its fonts, which can fail. The collection is
/// made with these options, and lists no family yet.
#[verifier::external_body]
fn new_collection(shared: bool, system_fonts: bool) -> (out: parley::fontique::Collection)
    requires
        !system_fonts,
    ensures
        collection_options(out) == (shared, system_fonts),
        collection_families(out) == Set::<Seq<char>>::empty(),
{
    parley::fontique::Collection::new(parley::fontique::CollectionOptions { shared, system_fonts })
}

/// Calls `fontique::SourceCache::new` with the given option. The cache is
/// made with this option; nothing else is claimed of it.
#[verifier::external_body]
fn new_source_cache(shared: bool) -> (out: parley::fontique::SourceCache)
    ensures
        source_cache_shared(out) == shared,
{
    parley::fontique::SourceCache::new(parley::fontique::SourceCacheOptions { shared })
}

/// Calls `fontique::Collection::register_fonts` on the bytes of a font file,
/// with no override of the fonts' attributes, and returns the families that
/// it returns, in its order. Which families these are, whether there is
/// any, and in which order they come, depends on the bytes, on what the
/// collection holds already and on the walk of a hash map: nothing is
/// claimed of it. The collection keeps the options it was made with.
#[verifier::external_body]
fn register_fonts(collection: &mut parley::fontique::Collection, data: Vec<u8>) -> (out: Vec<
    parley::fontique::FamilyId,
>)
    ensures
        collection_options(*final(collection)) == collection_options(*old(collection)),
{
    let blob = parley::fontique::Blob::new(std::sync::Arc::new(data));
    collection.register_fonts(blob, None).into_iter().map(|registered| registered.0).collect()
}

/// Calls `fontique::Collection::family_name`: the name of a family, `None`
/// where the collection knows no family of that identifier. A name that is
/// returned is one of those the collection lists. The collection keeps the
/// options it was made with.
#[verifier::external_body]
fn family_name(
    collection: &mut parley::fontique::Collection,
    family: parley::fontique::FamilyId,
) -> (out: Option<String>)
    ensures
        out matches Some(name) ==> collection_families(*final(collection)).contains(name@),
        collection_options(*final(collection)) == collection_options(*old(collection)),
{
    match collection.family_name(family) {
        Some(name) => Some(name.to_string()),
        None => None,
    }
}

impl FontContext {
    /// A context without fonts. Its collection is made to share what is
    /// registered in it with its copies and to leave the fonts of the system
    /// out, so that it lists no family yet; its source cache is made to
    /// share its store with its copies.
    pub fn new() -> (out: FontContext)
        ensures
            out.fonts@ == Seq::<String>::empty(),
            collection_options(out.collection) == (true, false),
            collection_families(out.collection) == Set::<Seq<char>>::empty(),
            source_cache_shared(out.source_cache),
    {
        FontContext {
            collection: new_collection(true, false),
            source_cache: new_source_cache(true),
            fonts: Vec::new(),
        }
    }

    /// Registers the fonts of a font file in the collection. Where the
    /// collection names the first of the families it returns, that name is
    /// recorded after those recorded before, and returned: it is then one
    /// of the names that the collection lists. Where the file holds no
    /// font, nothing is recorded. Whether the bytes hold a font is for the
    /// collection to say. The source cache is left alone, and the
    /// collection keeps the options it was made with.
    pub fn load(&mut self, data: Vec<u8>) -> (out: Option<String>)
        ensures
            final(self).fonts@ == recorded(old(self).fonts@, out),
            out matches Some(name) ==> collection_families(final(self).collection).contains(name@),
            collection_options(final(self).collection) == collection_options(old(self).collection),
            final(self).source_cache == old(self).source_cache,
    {
        let families = register_fonts(&mut self.collection, data);
        let name = if families.len() > 0 {
            family_name(&mut self.collection, families[0])
        } else {
            None
        };
        record(&mut self.fonts, name)
    }
}

/// The registered families after a registration that gave `name`.
pub open spec fn recorded(fonts: Seq<String>, name: Option<String>) -> Seq<String> {
    match name {
        Some(family) => fonts.push(family),
        None => fonts,
    }
}

/// Records the family name that a registration gave, after those recorded
/// before, and hands it back; records nothing where it gave none.
pub fn record(fonts: &mut Vec<String>, name: Option<String>) -> (out: Option<String>)
    ensures
        out == name,
        final(fonts)@ == recorded(old(fonts)@, name),
{
    match name {
        Some(family) => {
            let kept = family.clone();
            fonts.push(family);
            Some(kept)
        },
        None => None,
    }
}

} // verus!
