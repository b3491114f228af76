//! An executable model of the blob store.
//!
//! One bucket, holding each image's bytes and content type under the
//! deterministic key `image-<id>`. The abstract state is the map from image
//! id to stored blob. The upload coordinator writes every key at most once
//! (a key is derived from a freshly generated id), so a put of an already
//! present id is outside this model's contract.

use vstd::prelude::*;
use crate::text::append_u64;
use crate::text::u64_digits;

verus! {

/// The key under which an image's bytes are stored: `image-` followed by
/// the decimal numeral of the id.
pub open spec fn blob_key_spec(id: u64) -> Seq<char> {
    "image-"@ + u64_digits(id as int)
}

/// Builds the blob key of `id`.
pub fn blob_key(id: u64) -> (s: String)
    ensures
        s@ == blob_key_spec(id),
{
    let mut s = String::new();
    s.append("image-");
    append_u64(&mut s, id);
    proof {
        assert(s@ =~= blob_key_spec(id));
    }
    s
}

/// One stored blob, under the id its key was derived from.
pub struct BlobEntry {
    pub id: u64,
    pub key: String,
    pub content_type: String,
    pub bytes: Vec<u8>,
}

/// The mathematical value of a stored blob.
pub struct BlobEntryView {
    pub key: Seq<char>,
    pub content_type: Seq<char>,
    pub bytes: Seq<u8>,
}

impl View for BlobEntry {
    type V = BlobEntryView;

    open spec fn view(&self) -> BlobEntryView {
        BlobEntryView { key: self.key@, content_type: self.content_type@, bytes: self.bytes@ }
    }
}

/// The map from image id to stored blob.
pub open spec fn blobs_map(s: Seq<BlobEntry>) -> Map<u64, BlobEntryView>
    decreases s.len(),
{
    if s.len() == 0 {
        Map::empty()
    } else {
        blobs_map(s.drop_last()).insert(s.last().id, s.last()@)
    }
}

/// The blob store: one bucket of keyed blobs.
pub struct BlobStore {
    pub entries: Vec<BlobEntry>,
}

impl View for BlobStore {
    type V = Map<u64, BlobEntryView>;

    open spec fn view(&self) -> Map<u64, BlobEntryView> {
        blobs_map(self.entries@)
    }
}

impl BlobStore {
    /// No id is stored twice, and every key is the one derived from its id.
    pub open spec fn wf(self) -> bool {
        &&& forall|i: int, j: int|
            #![trigger self.entries@[i].id, self.entries@[j].id]
            0 <= i < j < self.entries@.len() ==> self.entries@[i].id != self.entries@[j].id
        &&& forall|i: int|
            0 <= i < self.entries@.len() ==> (#[trigger] self.entries@[i]).key@ == blob_key_spec(
                self.entries@[i].id,
            )
    }
}

/// An id is in the map exactly when some entry carries it.
proof fn lemma_blobs_map_contains(s: Seq<BlobEntry>, id: u64)
    ensures
        blobs_map(s).contains_key(id) <==> exists|j: int| 0 <= j < s.len() && s[j].id == id,
    decreases s.len(),
{
    if s.len() > 0 {
        lemma_blobs_map_contains(s.drop_last(), id);
        assert(forall|j: int| 0 <= j < s.len() - 1 ==> s.drop_last()[j] == s[j]);
        if s.last().id == id {
            assert(s[s.len() - 1].id == id);
        } else if exists|j: int| 0 <= j < s.len() && s[j].id == id {
            let j = choose|j: int| 0 <= j < s.len() && s[j].id == id;
            assert(s.drop_last()[j] == s[j]);
        }
    }
}

/// With unique ids, the map holds entry `j` of the store under its id.
proof fn lemma_blobs_map_at(s: Seq<BlobEntry>, j: int)
    requires
        forall|a: int, b: int| 0 <= a < b < s.len() ==> s[a].id != s[b].id,
        0 <= j < s.len(),
    ensures
        blobs_map(s).contains_key(s[j].id),
        blobs_map(s)[s[j].id] == s[j]@,
    decreases s.len(),
{
    if j < s.len() - 1 {
        let d = s.drop_last();
        assert(forall|k: int| 0 <= k < s.len() - 1 ==> d[k] == s[k]);
        lemma_blobs_map_at(d, j);
        assert(s.last().id != s[j].id);
    }
}

/// Copies a byte vector.
pub fn copy_bytes(src: &Vec<u8>) -> (out: Vec<u8>)
    ensures
        out@ == src@,
{
    let mut out: Vec<u8> = Vec::new();
    let mut i: usize = 0;
    while i < src.len()
        invariant
            i <= src.len(),
            out@ == src@.take(i as int),
        decreases src.len() - i,
    {
        out.push(src[i]);
        proof {
            assert(src@.take(i as int + 1) =~= src@.take(i as int).push(src@[i as int]));
        }
        i = i + 1;
    }
    proof {
        assert(src@.take(src@.len() as int) =~= src@);
    }
    out
}

/// What a fetch by id yields: the stored blob, or nothing.
#[derive(Debug, PartialEq)]
pub enum FetchOutcome {
    Found { content_type: String, bytes: Vec<u8> },
    NotFound,
}

impl BlobStore {
    /// An empty bucket.
    pub fn new() -> (s: BlobStore)
        ensures
            s@ == Map::<u64, BlobEntryView>::empty(),
            s.wf(),
    {
        BlobStore { entries: Vec::new() }
    }

    /// Writes the bytes and content type of a freshly reserved image under
    /// the key derived from its id.
    pub fn put(&mut self, id: u64, content_type: String, bytes: Vec<u8>)
        requires
            old(self).wf(),
            !old(self)@.contains_key(id),
        ensures
            final(self).wf(),
            final(self)@ == old(self)@.insert(
                id,
                BlobEntryView { key: blob_key_spec(id), content_type: content_type@, bytes: bytes@ },
            ),
    {
        let key = blob_key(id);
        proof {
            lemma_blobs_map_contains(self.entries@, id);
        }
        self.entries.push(BlobEntry { id, key, content_type, bytes });
        proof {
            assert(self.entries@.drop_last() =~= old(self).entries@);
            assert(forall|k: int| 0 <= k < self.entries@.len() - 1 ==> self.entries@[k]
                == old(self).entries@[k]);
        }
    }

    /// Fetches the blob stored under an image id: the content type and the
    /// bytes when the id has a blob, and nothing at all when it does not.
    pub fn get(&self, id: u64) -> (r: FetchOutcome)
        requires
            self.wf(),
        ensures
            self@.contains_key(id) ==> (r matches FetchOutcome::Found { content_type, bytes }
                && content_type@ == self@[id].content_type && bytes@ == self@[id].bytes),
            !self@.contains_key(id) ==> r == FetchOutcome::NotFound,
    {
        let mut j: usize = 0;
        while j < self.entries.len()
            invariant
                self.wf(),
                j <= self.entries.len(),
                forall|k: int| 0 <= k < j ==> self.entries@[k].id != id,
            decreases self.entries.len() - j,
        {
            let e = &self.entries[j];
            if e.id == id {
                proof {
                    lemma_blobs_map_at(self.entries@, j as int);
                }
                return FetchOutcome::Found {
                    content_type: e.content_type.clone(),
                    bytes: copy_bytes(&e.bytes),
                };
            }
            j = j + 1;
        }
        proof {
            lemma_blobs_map_contains(self.entries@, id);
        }
        FetchOutcome::NotFound
    }
}

} // verus!
