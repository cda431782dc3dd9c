//! Named stores of shared render objects (pipelines, descriptor sets,
//! textures).
use std::sync::Arc;
use vstd::prelude::*;
use vstd::hash_map::StringHashMap;

verus! {

/// `<Arc<T> as Clone>::clone`: another pointer to the same allocation, so the
/// value seen through it is the same.
#[verifier::external_body]
pub(crate) fn share<T>(value: &Arc<T>) -> (copy: Arc<T>)
    ensures
        copy == *value,
{
    value.clone()
}

/// What `str::to_lowercase` makes of a text.
pub uninterp spec fn lowercase(text: Seq<char>) -> Seq<char>;

/// `str::to_lowercase`: the text in lower case, as the Unicode tables of the
/// standard library define it. Claimed: the result is fixed by the text.
#[verifier::external_body]
fn to_lowercase(text: &str) -> (lower: String)
    ensures
        lower@ == lowercase(text@),
{
    text.to_lowercase()
}

/// A store of values under string keys.
pub trait CacheProvider<A: Sized> {
    /// The stored values, by key.
    spec fn entries(&self) -> Map<Seq<char>, A>;

    /// The value stored under `key`, if any.
    fn get(&self, key: &str) -> (found: Option<A>)
        ensures
            found == (if self.entries().contains_key(key@) {
                Some(self.entries()[key@])
            } else {
                None
            }),
    ;

    /// Stores `value.1` under `value.0`, replacing what was there; returns the
    /// value it replaced.
    fn insert(&mut self, value: (String, A)) -> (replaced: Option<A>)
        ensures
            final(self).entries() == old(self).entries().insert(value.0@, value.1),
            replaced == (if old(self).entries().contains_key(value.0@) {
                Some(old(self).entries()[value.0@])
            } else {
                None
            }),
    ;
}

/// Descriptor sets by descriptor id.
#[verifier::reject_recursive_types(D)]
pub struct DescriptorSetCache<D> {
    descriptors: StringHashMap<Arc<D>>,
}

/// Graphics pipelines by pipeline id.
#[verifier::reject_recursive_types(P)]
pub struct PipelineCache<P> {
    pipelines: StringHashMap<Arc<P>>,
}

impl<D> DescriptorSetCache<D> {
    /// A cache holding the given descriptor sets.
    pub fn new(descriptors: StringHashMap<Arc<D>>) -> (cache: Self)
        ensures
            cache.entries() == descriptors@,
    {
        Self { descriptors }
    }

    /// Number of stored descriptor sets.
    pub fn len(&self) -> (n: usize)
        ensures
            n == self.entries().len(),
    {
        self.descriptors.len()
    }
}

impl<D> CacheProvider<Arc<D>> for DescriptorSetCache<D> {
    closed spec fn entries(&self) -> Map<Seq<char>, Arc<D>> {
        self.descriptors@
    }

    fn get(&self, key: &str) -> (found: Option<Arc<D>>) {
        match self.descriptors.get(key) {
            Some(set) => Some(share(set)),
            None => None,
        }
    }

    fn insert(&mut self, value: (String, Arc<D>)) -> (replaced: Option<Arc<D>>) {
        let (key, set) = value;
        let replaced = self.get(key.as_str());
        self.descriptors.insert(key, set);
        replaced
    }
}

impl<D> Default for DescriptorSetCache<D> {
    fn default() -> (cache: Self)
        ensures
            cache.entries() == Map::<Seq<char>, Arc<D>>::empty(),
    {
        Self { descriptors: StringHashMap::new() }
    }
}

impl<P> PipelineCache<P> {
    /// A cache holding the given pipelines.
    pub fn new(pipelines: StringHashMap<Arc<P>>) -> (cache: Self)
        ensures
            cache.entries() == pipelines@,
    {
        Self { pipelines }
    }

    /// Number of stored pipelines.
    pub fn len(&self) -> (n: usize)
        ensures
            n == self.entries().len(),
    {
        self.pipelines.len()
    }
}

impl<P> CacheProvider<Arc<P>> for PipelineCache<P> {
    closed spec fn entries(&self) -> Map<Seq<char>, Arc<P>> {
        self.pipelines@
    }

    fn get(&self, key: &str) -> (found: Option<Arc<P>>) {
        match self.pipelines.get(key) {
            Some(pipeline) => Some(share(pipeline)),
            None => None,
        }
    }

    fn insert(&mut self, value: (String, Arc<P>)) -> (replaced: Option<Arc<P>>) {
        let (key, pipeline) = value;
        let replaced = self.get(key.as_str());
        self.pipelines.insert(key, pipeline);
        replaced
    }
}

impl<P> Default for PipelineCache<P> {
    fn default() -> (cache: Self)
        ensures
            cache.entries() == Map::<Seq<char>, Arc<P>>::empty(),
    {
        Self { pipelines: StringHashMap::new() }
    }
}

/// Loaded textures by file name, so that each file is loaded once. Names are
/// compared in lower case.
#[verifier::reject_recursive_types(T)]
pub struct TexturePool<T> {
    textures: StringHashMap<Arc<T>>,
}

impl<T> TexturePool<T> {
    /// The stored textures, by the lower-case file name.
    pub closed spec fn entries(&self) -> Map<Seq<char>, Arc<T>> {
        self.textures@
    }

    /// A pool holding no texture.
    pub fn new() -> (pool: Self)
        ensures
            pool.entries() == Map::<Seq<char>, Arc<T>>::empty(),
    {
        Self { textures: StringHashMap::new() }
    }

    /// The texture loaded from the file `file_name`, or from a file whose name
    /// differs from it only in case, if there is one.
    pub fn find(&self, file_name: &str) -> (found: Option<Arc<T>>)
        ensures
            found == (if self.entries().contains_key(lowercase(file_name@)) {
                Some(self.entries()[lowercase(file_name@)])
            } else {
                None
            }),
    {
        let key = to_lowercase(file_name);
        match self.textures.get(key.as_str()) {
            Some(texture) => Some(share(texture)),
            None => None,
        }
    }

    /// Stores the texture loaded from the file `file_name`, replacing one
    /// stored under the same name in any case; returns the stored texture.
    pub fn store(&mut self, file_name: &str, texture: Arc<T>) -> (stored: Arc<T>)
        ensures
            final(self).entries() == old(self).entries().insert(lowercase(file_name@), texture),
            stored == texture,
    {
        let key = to_lowercase(file_name);
        let stored = share(&texture);
        self.textures.insert(key, texture);
        stored
    }
}

/// A texture stored under one file name is found under every name that
/// differs from it only in case, and storing it leaves the textures of other
/// names as they were.
pub proof fn lemma_texture_found_in_any_case<T>(
    before: TexturePool<T>,
    after: TexturePool<T>,
    file_name: Seq<char>,
    texture: Arc<T>,
    other: Seq<char>,
)
    requires
        after.entries() == before.entries().insert(lowercase(file_name), texture),
    ensures
        lowercase(other) == lowercase(file_name) ==> after.entries().contains_key(lowercase(other))
            && after.entries()[lowercase(other)] == texture,
        lowercase(other) != lowercase(file_name) ==> after.entries().contains_key(lowercase(other))
            == before.entries().contains_key(lowercase(other)),
        lowercase(other) != lowercase(file_name) && before.entries().contains_key(lowercase(other))
            ==> after.entries()[lowercase(other)] == before.entries()[lowercase(other)],
{
}

/// A value stored under a key is what a later lookup of that key finds, and
/// storing it leaves every other key's value as it was.
pub proof fn lemma_lookup_after_insert<A, C: CacheProvider<A>>(
    before: C,
    after: C,
    key: String,
    value: A,
    other: Seq<char>,
)
    requires
        after.entries() == before.entries().insert(key@, value),
    ensures
        after.entries().contains_key(key@),
        after.entries()[key@] == value,
        other != key@ ==> after.entries().contains_key(other) == before.entries().contains_key(
            other,
        ),
        other != key@ && before.entries().contains_key(other) ==> after.entries()[other]
            == before.entries()[other],
{
}

/// Stores `value` under `key` unless something is stored there already, in
/// which case the cache is left as it is. Returns whether it stored `value`.
pub fn insert_if_absent<A, C: CacheProvider<A>>(cache: &mut C, key: String, value: A) -> (stored:
    bool)
    ensures
        stored == !old(cache).entries().contains_key(key@),
        final(cache).entries() == (if stored {
            old(cache).entries().insert(key@, value)
        } else {
            old(cache).entries()
        }),
{
    match cache.get(key.as_str()) {
        Some(_) => false,
        None => {
            cache.insert((key, value));
            true
        },
    }
}

} // verus!
