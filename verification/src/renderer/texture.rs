//! The texture registry: created GL textures by uniform name.
//!
//! Decoding image files and the GL calls that create and bind textures
//! live in the rendering front end; the mapping from a sampler uniform's
//! name to the texture handle bound for it is tracked here, so a bind by
//! name can never silently pick up the wrong handle.

use vstd::prelude::*;
use vstd::string::*;

verus! {

/// Some entry of `s` is keyed by the name `n`.
pub open spec fn entries_have_name(s: Seq<(String, u32)>, n: Seq<char>) -> bool {
    exists|j: int| 0 <= j < s.len() && s[j].0@ == n
}

/// The index of the entry keyed by `n` (unique when keys are pairwise
/// distinct).
pub open spec fn entry_index(s: Seq<(String, u32)>, n: Seq<char>) -> int {
    choose|j: int| 0 <= j < s.len() && s[j].0@ == n
}

/// The handle registered under `n` in the entry list, if any.
pub open spec fn entries_get(s: Seq<(String, u32)>, n: Seq<char>) -> Option<u32> {
    if entries_have_name(s, n) {
        Some(s[entry_index(s, n)].1)
    } else {
        None
    }
}

/// Texture handles by the sampler uniform name they were created for.
#[derive(Debug)]
pub struct TextureManager {
    pub texture_name_map: Vec<(String, u32)>,
}

impl TextureManager {
    /// Names are pairwise distinct: one handle per sampler name.
    pub open spec fn wf(self) -> bool {
        forall|i: int, j: int|
            0 <= i < j < self.texture_name_map@.len() ==> self.texture_name_map@[i].0@
                != self.texture_name_map@[j].0@
    }

    /// The handle registered under a name, if any.
    pub open spec fn spec_get(self, n: Seq<char>) -> Option<u32> {
        entries_get(self.texture_name_map@, n)
    }

    pub fn new() -> (r: TextureManager)
        ensures
            r.wf(),
            forall|n: Seq<char>| #[trigger] r.spec_get(n) is None,
    {
        TextureManager { texture_name_map: Vec::new() }
    }

    /// Records the texture created for a sampler name; registering a name
    /// again replaces its handle, every other name keeps its own.
    pub fn register_texture(&mut self, name: &str, texture: u32)
        requires
            old(self).wf(),
        ensures
            final(self).wf(),
            forall|n: Seq<char>|
                #[trigger] final(self).spec_get(n) == (if n == name@ {
                    Some(texture)
                } else {
                    old(self).spec_get(n)
                }),
    {
        let key = String::from_str(name);
        let ghost entries0 = self.texture_name_map@;
        let mut i: usize = 0;
        while i < self.texture_name_map.len()
            invariant
                self.wf(),
                self.texture_name_map@ == entries0,
                entries0 == old(self).texture_name_map@,
                key@ == name@,
                i <= entries0.len(),
                forall|j: int| 0 <= j < i ==> entries0[j].0@ != name@,
            decreases entries0.len() - i,
        {
            if self.texture_name_map[i].0 == key {
                self.texture_name_map[i] = (key, texture);
                proof {
                    assert forall|n: Seq<char>| #[trigger] self.spec_get(n) == (if n == name@ {
                        Some(texture)
                    } else {
                        old(self).spec_get(n)
                    }) by {
                        lemma_entries_get_after_update(
                            entries0,
                            self.texture_name_map@,
                            i as int,
                            name@,
                            texture,
                            n,
                        );
                    }
                }
                return ;
            }
            i = i + 1;
        }
        self.texture_name_map.push((key, texture));
        proof {
            assert(!entries_have_name(entries0, name@));
            let s = self.texture_name_map@;
            assert forall|n: Seq<char>| #[trigger] self.spec_get(n) == (if n == name@ {
                Some(texture)
            } else {
                old(self).spec_get(n)
            }) by {
                if n == name@ {
                    assert(s[s.len() - 1].0@ == n);
                    assert(entries_have_name(s, n));
                    let k = entry_index(s, n);
                    if k < s.len() - 1 {
                        assert(entries0[k].0@ == n);
                    }
                } else {
                    if entries_have_name(s, n) {
                        let k = entry_index(s, n);
                        assert(s[k].0@ == n);
                        assert(k < entries0.len());
                        assert(entries_have_name(entries0, n));
                        let k0 = entry_index(entries0, n);
                        if k0 < k {
                            assert(s[k0].0@ != s[k].0@);
                        } else if k < k0 {
                            assert(s[k].0@ != s[k0].0@);
                        }
                        assert(entries_get(s, n) == entries_get(entries0, n));
                    } else {
                        if entries_have_name(entries0, n) {
                            let k0 = entry_index(entries0, n);
                            assert(s[k0].0@ == n);
                        }
                    }
                }
            }
        }
    }

    /// The texture handle registered under a sampler name, if one was.
    pub fn get_texture(&self, name: &str) -> (r: Option<u32>)
        requires
            self.wf(),
        ensures
            r == self.spec_get(name@),
    {
        let key = String::from_str(name);
        let mut i: usize = 0;
        while i < self.texture_name_map.len()
            invariant
                self.wf(),
                key@ == name@,
                i <= self.texture_name_map@.len(),
                forall|j: int| 0 <= j < i ==> self.texture_name_map@[j].0@ != name@,
            decreases self.texture_name_map@.len() - i,
        {
            if self.texture_name_map[i].0 == key {
                proof {
                    let s = self.texture_name_map@;
                    assert(entries_have_name(s, name@));
                    let k = entry_index(s, name@);
                    if k < i as int {
                        assert(s[k].0@ != s[i as int].0@);
                    } else if k > i as int {
                        assert(s[i as int].0@ != s[k].0@);
                    }
                }
                return Some(self.texture_name_map[i].1);
            }
            i = i + 1;
        }
        None
    }
}

/// After replacing the entry at `i` (whose key is `n`) by `(n, v)` in a
/// list with pairwise-distinct keys, a lookup of `n` reports `v` and a
/// lookup of any other name reports what it did before.
proof fn lemma_entries_get_after_update(
    s0: Seq<(String, u32)>,
    s1: Seq<(String, u32)>,
    i: int,
    n: Seq<char>,
    v: u32,
    m: Seq<char>,
)
    requires
        0 <= i < s0.len(),
        s1.len() == s0.len(),
        s0[i].0@ == n,
        s1[i].0@ == n,
        s1[i].1 == v,
        forall|j: int| 0 <= j < s0.len() && j != i ==> s1[j] == s0[j],
        forall|a: int, b: int| 0 <= a < b < s0.len() ==> s0[a].0@ != s0[b].0@,
    ensures
        entries_get(s1, m) == (if m == n {
            Some(v)
        } else {
            entries_get(s0, m)
        }),
{
    assert forall|a: int, b: int| 0 <= a < b < s1.len() implies s1[a].0@ != s1[b].0@ by {
        assert(s0[a].0@ != s0[b].0@);
    }
    if m == n {
        assert(s1[i].0@ == m);
        assert(entries_have_name(s1, m));
        let k = entry_index(s1, m);
        if k < i {
            assert(s1[k].0@ != s1[i].0@);
        } else if i < k {
            assert(s1[i].0@ != s1[k].0@);
        }
    } else {
        if entries_have_name(s1, m) {
            let k = entry_index(s1, m);
            assert(s1[k].0@ == m);
            assert(k != i);
            assert(s0[k].0@ == m);
            assert(entries_have_name(s0, m));
            let k0 = entry_index(s0, m);
            if k0 < k {
                assert(s0[k0].0@ != s0[k].0@);
            } else if k < k0 {
                assert(s0[k].0@ != s0[k0].0@);
            }
        } else {
            if entries_have_name(s0, m) {
                let k0 = entry_index(s0, m);
                assert(s0[k0].0@ == m);
                assert(k0 != i);
                assert(s1[k0].0@ == m);
                assert(entries_have_name(s1, m));
            }
        }
    }
}

} // verus!
