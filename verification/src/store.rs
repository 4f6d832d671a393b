//! The metadata that waits for its image, by the address of the image.

use crate::metadata::{ImageMetadata, ImageMetadataView};
use vstd::hash_map::StringHashMap;
use vstd::prelude::*;

verus! {

/// Metadata read off photo pages, each entry kept under the address of its
/// image until the image arrives and takes it out.
pub struct CorrelationStore {
    pending: StringHashMap<ImageMetadata>,
}

impl View for CorrelationStore {
    type V = Map<Seq<char>, ImageMetadataView>;

    closed spec fn view(&self) -> Map<Seq<char>, ImageMetadataView> {
        self.pending@.map_values(|metadata: ImageMetadata| metadata@)
    }
}

impl CorrelationStore {
    /// A store that holds nothing.
    pub fn new() -> (store: Self)
        ensures
            store@ == Map::<Seq<char>, ImageMetadataView>::empty(),
    {
        let store = CorrelationStore { pending: StringHashMap::new() };
        store
    }

    /// Puts `metadata` under `url`, in place of what was there.
    pub fn insert(&mut self, url: String, metadata: ImageMetadata)
        ensures
            final(self)@ == old(self)@.insert(url@, metadata@),
    {
        self.pending.insert(url, metadata);
    }

    /// Tells whether metadata waits under `url`.
    pub fn contains(&self, url: &str) -> (present: bool)
        ensures
            present == self@.contains_key(url@),
    {
        self.pending.contains_key(url)
    }

    /// Takes out what waits under `url`. A second call for the same address
    /// finds nothing.
    pub fn take(&mut self, url: &str) -> (taken: Option<ImageMetadata>)
        ensures
            match taken {
                Some(metadata) => old(self)@.contains_key(url@) && metadata@ == old(self)@[url@]
                    && final(self)@ == old(self)@.remove(url@),
                None => !old(self)@.contains_key(url@) && final(self)@ == old(self)@,
            },
    {
        let found = match self.pending.get(url) {
            Some(metadata) => Some(metadata.clone()),
            None => None,
        };
        if found.is_some() {
            self.pending.remove(url);
        }
        found
    }
}

} // verus!
