//! A cache of decoded textures keyed by asset path.
//!
//! Decoding an image is the business of an outside collaborator; this module
//! owns the cache discipline. A `TextureHandle` is an index into the cache,
//! in load order, and the cache invariant keeps a path from ever being stored
//! under two handles. A driver loads an asset by first calling `lookup`; only
//! on a miss does it decode the file, and on success it records the path with
//! `store`, keeping the decoded texture itself under the returned handle's
//! index. On a decode failure nothing is recorded, so the cache is unchanged.

use vstd::prelude::*;

verus! {

/// An opaque handle to a decoded texture: the position of its path in the
/// cache, in load order.
#[derive(Clone, Copy, Debug, PartialEq, Eq, Structural)]
pub struct TextureHandle {
    pub id: usize,
}

/// Raised when an asset file is missing or cannot be decoded.
#[derive(Clone, Debug, PartialEq, Eq)]
pub struct AssetLoadError {
    pub path: String,
}

/// The texture cache: the paths loaded so far, in load order. The decoded
/// pixel data lives with the driver, indexed the same way.
pub struct TextureManager {
    paths: Vec<String>,
}

impl View for TextureManager {
    type V = Seq<Seq<char>>;

    closed spec fn view(&self) -> Seq<Seq<char>> {
        self.paths@.map_values(|s: String| s@)
    }
}

impl TextureManager {
    /// The cache holds no path twice.
    pub open spec fn wf(self) -> bool {
        forall|i: int, j: int| 0 <= i < j < self@.len() ==> self@[i] != self@[j]
    }

    /// Some handle is cached for `path`.
    pub open spec fn contains(self, path: Seq<char>) -> bool {
        exists|i: int| 0 <= i < self@.len() && self@[i] == path
    }

    /// `h` is the cached handle for `path`.
    pub open spec fn is_handle_for(self, path: Seq<char>, h: TextureHandle) -> bool {
        h.id < self@.len() && self@[h.id as int] == path
    }

    pub fn new() -> (m: TextureManager)
        ensures
            m@ == Seq::<Seq<char>>::empty(),
            m.wf(),
    {
        TextureManager { paths: Vec::new() }
    }

    /// How many textures are cached.
    pub fn texture_count(&self) -> (n: usize)
        ensures
            n == self@.len(),
    {
        self.paths.len()
    }

    /// The cached handle for `path`, if any: `Some` exactly when the path was
    /// stored before, and the handle indexes that path.
    pub fn lookup(&self, path: &String) -> (r: Option<TextureHandle>)
        ensures
            match r {
                Some(h) => self.is_handle_for(path@, h),
                None => !self.contains(path@),
            },
    {
        let n: usize = self.paths.len();
        let mut i: usize = 0;
        while i < n
            invariant
                n == self@.len(),
                i <= n,
                forall|k: int| 0 <= k < i ==> self@[k] != path@,
            decreases n - i,
        {
            if self.paths[i] == *path {
                return Some(TextureHandle { id: i });
            }
            i += 1;
        }
        None
    }

    /// Record `path` as newly cached and hand back its handle: the next index
    /// in load order. The caller stores the decoded texture at that index.
    pub fn store(&mut self, path: String) -> (h: TextureHandle)
        requires
            !old(self).contains(path@),
        ensures
            final(self)@ == old(self)@.push(path@),
            h.id == old(self)@.len(),
            final(self).is_handle_for(path@, h),
            old(self).wf() ==> final(self).wf(),
    {
        let h = TextureHandle { id: self.paths.len() };
        self.paths.push(path);
        proof {
            assert(self@ =~= old(self)@.push(path@));
            if old(self).wf() {
                assert forall|i: int, j: int| 0 <= i < j < self@.len() implies self@[i]
                    != self@[j] by {
                    if j == old(self)@.len() {
                        assert(!(0 <= i < old(self)@.len() && old(self)@[i] == path@));
                    }
                }
            }
        }
        h
    }
}

/// Law: a path is cached under at most one handle. Two handles that both
/// stand for the same path in a well-formed cache are the same handle, so
/// loading a path a second time hands back the handle of the first load and
/// never a second decode.
pub proof fn lemma_same_path_same_handle(
    m: TextureManager,
    path: Seq<char>,
    h1: TextureHandle,
    h2: TextureHandle,
)
    requires
        m.wf(),
        m.is_handle_for(path, h1),
        m.is_handle_for(path, h2),
    ensures
        h1 == h2,
{
    if h1.id < h2.id {
        assert(m@[h1.id as int] != m@[h2.id as int]);
    } else if h2.id < h1.id {
        assert(m@[h2.id as int] != m@[h1.id as int]);
    }
}

} // verus!
