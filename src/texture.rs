//! The texture bridge: external texture sources by id, and frame requests on them.
use vstd::prelude::*;

verus! {

/// A source of external texture frames: given a pixel size, a frame or nothing.
pub trait TextureSource {
    type Frame;

    fn frame(&self, width: u32, height: u32) -> Option<Self::Frame>;
}

/// No id occurs twice in `s`.
pub open spec fn ids_unique<T>(s: Seq<(i64, T)>) -> bool {
    forall|i: int, j: int| 0 <= i < s.len() && 0 <= j < s.len() && s[i].0 == s[j].0 ==> i == j
}

/// Whether `id` occurs in `s`.
pub open spec fn has_id<T>(s: Seq<(i64, T)>, id: i64) -> bool {
    exists|i: int| 0 <= i < s.len() && s[i].0 == id
}

/// The map from id to source that the entries `s` stand for.
pub open spec fn entries_map<T>(s: Seq<(i64, T)>) -> Map<i64, T> {
    Map::new(
        |id: i64| has_id(s, id),
        |id: i64| s[choose|i: int| 0 <= i < s.len() && s[i].0 == id].1,
    )
}

proof fn lemma_entry_at<T>(s: Seq<(i64, T)>, i: int)
    requires
        ids_unique(s),
        0 <= i < s.len(),
    ensures
        entries_map(s).contains_key(s[i].0),
        entries_map(s)[s[i].0] == s[i].1,
{
    let id = s[i].0;
    assert(has_id(s, id));
    let k = choose|k: int| 0 <= k < s.len() && s[k].0 == id;
    assert(k == i);
}

/// Registered texture sources, each under a distinct id.
pub struct TextureBridge<T> {
    entries: Vec<(i64, T)>,
}

impl<T> View for TextureBridge<T> {
    type V = Map<i64, T>;

    closed spec fn view(&self) -> Map<i64, T> {
        entries_map(self.entries@)
    }
}

impl<T> TextureBridge<T> {
    pub closed spec fn well_formed(&self) -> bool {
        ids_unique(self.entries@)
    }

    /// A bridge with no source registered.
    pub fn new() -> (r: Self)
        ensures
            r.well_formed(),
            r@ == Map::<i64, T>::empty(),
    {
        let r = TextureBridge { entries: Vec::new() };
        assert(r@ =~= Map::<i64, T>::empty());
        r
    }

    fn find(&self, texture_id: i64) -> (r: Option<usize>)
        requires
            self.well_formed(),
        ensures
            match r {
                Some(i) => i < self.entries@.len() && self.entries@[i as int].0 == texture_id,
                None => !has_id(self.entries@, texture_id),
            },
    {
        let mut i: usize = 0;
        while i < self.entries.len()
            invariant
                i <= self.entries@.len(),
                forall|j: int| 0 <= j < i ==> self.entries@[j].0 != texture_id,
            decreases self.entries@.len() - i,
        {
            if self.entries[i].0 == texture_id {
                return Some(i);
            }
            i = i + 1;
        }
        None
    }

    /// Registers `source` under `texture_id`, in place of any source
    /// registered there before.
    pub fn register(&mut self, texture_id: i64, source: T)
        requires
            old(self).well_formed(),
        ensures
            final(self).well_formed(),
            final(self)@ == old(self)@.insert(texture_id, source),
    {
        let ghost s0 = self.entries@;
        match self.find(texture_id) {
            Some(i) => {
                self.entries[i] = (texture_id, source);
                proof {
                let s1 = self.entries@;
                assert(ids_unique(s1));
                assert forall|id: i64| #[trigger] has_id(s1, id) == (has_id(s0, id)) by {
                    if has_id(s0, id) {
                        let k = choose|k: int| 0 <= k < s0.len() && s0[k].0 == id;
                        assert(s1[k].0 == id);
                    }
                    if has_id(s1, id) {
                        let k = choose|k: int| 0 <= k < s1.len() && s1[k].0 == id;
                        assert(s0[k].0 == id);
                    }
                }
                assert forall|id: i64| has_id(s1, id) && id != texture_id implies entries_map(
                    s1,
                )[id] == entries_map(s0)[id] by {
                    let k = choose|k: int| 0 <= k < s1.len() && s1[k].0 == id;
                    lemma_entry_at(s1, k);
                    lemma_entry_at(s0, k);
                }
                lemma_entry_at(s1, i as int);
                assert(self@ =~= old(self)@.insert(texture_id, source));
                }
            },
            None => {
                self.entries.push((texture_id, source));
                proof {
                let s1 = self.entries@;
                assert(ids_unique(s1));
                assert forall|id: i64| #[trigger] has_id(s1, id) == (has_id(s0, id) || id
                    == texture_id) by {
                    if has_id(s0, id) {
                        let k = choose|k: int| 0 <= k < s0.len() && s0[k].0 == id;
                        assert(s1[k].0 == id);
                    }
                    if id == texture_id {
                        assert(s1[s0.len() as int].0 == id);
                    }
                }
                assert forall|id: i64| has_id(s1, id) && id != texture_id implies entries_map(
                    s1,
                )[id] == entries_map(s0)[id] by {
                    let k = choose|k: int| 0 <= k < s1.len() && s1[k].0 == id;
                    lemma_entry_at(s1, k);
                    lemma_entry_at(s0, k);
                }
                lemma_entry_at(s1, s0.len() as int);
                assert(self@ =~= old(self)@.insert(texture_id, source));
                }
            },
        }
    }
    /// Removes the source registered under `texture_id`, and returns it.
    pub fn unregister(&mut self, texture_id: i64) -> (r: Option<T>)
        requires
            old(self).well_formed(),
        ensures
            final(self).well_formed(),
            final(self)@ == old(self)@.remove(texture_id),
            r == (if old(self)@.contains_key(texture_id) {
                Some(old(self)@[texture_id])
            } else {
                None
            }),
    {
        let ghost s0 = self.entries@;
        match self.find(texture_id) {
            Some(i) => {
                let (_, source) = self.entries.remove(i);
                proof {
                    let s1 = self.entries@;
                    assert(s1 =~= s0.remove(i as int));
                    assert(ids_unique(s1)) by {
                        assert forall|a: int, b: int|
                            0 <= a < s1.len() && 0 <= b < s1.len() && s1[a].0 == s1[b].0 implies a
                            == b by {
                            let a0 = if a < i { a } else { a + 1 };
                            let b0 = if b < i { b } else { b + 1 };
                            assert(s1[a] == s0[a0] && s1[b] == s0[b0]);
                        }
                    }
                    assert forall|id: i64| #[trigger] has_id(s1, id) == (has_id(s0, id) && id
                        != texture_id) by {
                        if has_id(s0, id) && id != texture_id {
                            let k = choose|k: int| 0 <= k < s0.len() && s0[k].0 == id;
                            assert(k != i);
                            let k1 = if k < i { k } else { k - 1 };
                            assert(s1[k1].0 == id);
                        }
                        if has_id(s1, id) {
                            let k = choose|k: int| 0 <= k < s1.len() && s1[k].0 == id;
                            let k0 = if k < i { k } else { k + 1 };
                            assert(s0[k0].0 == id);
                            assert(k0 != i);
                        }
                    }
                    assert forall|id: i64| has_id(s1, id) implies entries_map(s1)[id]
                        == entries_map(s0)[id] by {
                        let k = choose|k: int| 0 <= k < s1.len() && s1[k].0 == id;
                        let k0 = if k < i { k } else { k + 1 };
                        assert(s1[k] == s0[k0]);
                        lemma_entry_at(s1, k);
                        lemma_entry_at(s0, k0);
                    }
                    lemma_entry_at(s0, i as int);
                    assert(self@ =~= old(self)@.remove(texture_id));
                }
                Some(source)
            },
            None => {
                assert(self@ =~= old(self)@.remove(texture_id));
                None
            },
        }
    }

    /// The source registered under `texture_id`, with the requested size as the
    /// source takes it (each side cast to `u32`); `None` when no source is
    /// registered there.
    pub fn texture_request(&self, texture_id: i64, size: (usize, usize)) -> (r: Option<
        (&T, u32, u32),
    >)
        requires
            self.well_formed(),
        ensures
            match r {
                None => !self@.contains_key(texture_id),
                Some((source, width, height)) => {
                    &&& self@.contains_key(texture_id)
                    &&& *source == self@[texture_id]
                    &&& width == size.0 as u32
                    &&& height == size.1 as u32
                    &&& size.0 <= u32::MAX ==> width == size.0
                    &&& size.1 <= u32::MAX ==> height == size.1
                },
            },
    {
        match self.find(texture_id) {
            Some(i) => {
                proof {
                    lemma_entry_at(self.entries@, i as int);
                }
                let (width, height) = size;
                Some((&self.entries[i].1, #[verifier::truncate] (width as u32), #[verifier::truncate] (height as u32)))
            },
            None => None,
        }
    }
}

impl<T: TextureSource> TextureBridge<T> {
    /// Asks the source registered under `texture_id` for a frame of the given
    /// size. An id with no source gives no frame.
    pub fn get_texture_frame(&self, texture_id: i64, size: (usize, usize)) -> (r: Option<T::Frame>)
        requires
            self.well_formed(),
        ensures
            !self@.contains_key(texture_id) ==> r is None,
    {
        match self.texture_request(texture_id, size) {
            Some((source, width, height)) => source.frame(width, height),
            None => None,
        }
    }
}

} // verus!
