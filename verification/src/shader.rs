//! Model of a linked shader program's uniform interface.
//!
//! A [`Shader`] records which uniform names the linked program exposes and
//! the value most recently written to each. Lights and meshes describe
//! their uploads as [`UniformWrite`] commands; the rendering front end
//! drains each batch by performing the matching GL calls and mirrors it
//! here with [`Shader::apply`], so the model always states what the GPU
//! program holds. Writing to a name the program does not expose is an
//! error — a mismatch between host code and shader source — and is
//! reported, never ignored.

use vstd::prelude::*;
use vstd::string::*;

use crate::vec3::{zero_vec, Vec3};

verus! {

/// A value bound for a shader uniform.
///
/// Scalars and vectors are milli fixed-point, like everything else in this
/// crate. `CosOfDegrees(d)` carries an angle in millidegrees whose cosine
/// (of the angle in radians) is what the GPU receives: cone cutoffs are
/// compared against cosines in the fragment shader, and converting once on
/// the CPU saves a trigonometric call per fragment.
#[derive(Clone, Copy, Debug, PartialEq, Eq, Structural)]
pub enum UniformValue {
    Bool(bool),
    Int(i32),
    Milli(i64),
    MilliVec3(Vec3),
    CosOfDegrees(i64),
}

/// One pending uniform upload: a target name and the value to bind.
#[derive(Debug)]
pub struct UniformWrite {
    pub name: String,
    pub value: UniformValue,
}

/// `w` writes `v` to the uniform called `name`.
pub open spec fn write_is(w: UniformWrite, name: Seq<char>, v: UniformValue) -> bool {
    w.name@ == name && w.value == v
}

impl UniformWrite {
    pub fn new(name: &str, value: UniformValue) -> (r: UniformWrite)
        ensures
            write_is(r, name@, value),
    {
        UniformWrite { name: String::from_str(name), value }
    }
}

/// The error a uniform operation reports when the linked program exposes
/// no uniform of the requested name.
#[derive(Clone, Copy, Debug, PartialEq, Eq, Structural)]
pub enum UniformError {
    UniformNotFound,
}

/// The value the most recent write to `n` in `writes` bound, if any.
pub open spec fn last_write(writes: Seq<UniformWrite>, n: Seq<char>) -> Option<UniformValue>
    decreases writes.len(),
{
    if writes.len() == 0 {
        None
    } else if writes.last().name@ == n {
        Some(writes.last().value)
    } else {
        last_write(writes.drop_last(), n)
    }
}

/// What a uniform holds after `writes` ran over a store that held `base`.
pub open spec fn stored_after(
    writes: Seq<UniformWrite>,
    n: Seq<char>,
    base: Option<UniformValue>,
) -> Option<UniformValue> {
    match last_write(writes, n) {
        Some(v) => Some(v),
        None => base,
    }
}

/// The vector a `vec3` readback reports for a stored value: uniforms start
/// out all zeroes, and a slot that holds anything but a vector reads back
/// as the zero vector.
pub open spec fn as_vec3(o: Option<UniformValue>) -> Vec3 {
    match o {
        Some(UniformValue::MilliVec3(v)) => v,
        _ => zero_vec(),
    }
}

/// Some entry of `s` views as the name `n`.
pub open spec fn seq_has_name(s: Seq<String>, n: Seq<char>) -> bool {
    exists|j: int| 0 <= j < s.len() && s[j]@ == n
}

/// The index of the entry of `s` that views as `n` (unique when the
/// entries are pairwise distinct).
pub open spec fn name_index(s: Seq<String>, n: Seq<char>) -> int {
    choose|j: int| 0 <= j < s.len() && s[j]@ == n
}

/// A linked shader program: its GL handle, the uniform names it exposes,
/// and the value last written to each (`None` until first written, which
/// the GPU reads back as zeroes).
#[derive(Debug)]
pub struct Shader {
    pub program_id: u32,
    pub names: Vec<String>,
    pub values: Vec<Option<UniformValue>>,
}

impl Shader {
    /// One value slot per name, names pairwise distinct, and few enough
    /// that an index fits the signed 32-bit uniform location type.
    pub open spec fn wf(self) -> bool {
        &&& self.names@.len() == self.values@.len()
        &&& self.names@.len() <= 0x7fff_ffff
        &&& forall|i: int, j: int|
            0 <= i < j < self.names@.len() ==> self.names@[i]@ != self.names@[j]@
    }

    pub open spec fn spec_program_id(self) -> u32 {
        self.program_id
    }

    /// The linked program exposes a uniform of this name.
    pub open spec fn has_uniform(self, name: Seq<char>) -> bool {
        seq_has_name(self.names@, name)
    }

    /// The slot index of a name the program exposes (unique, by `wf`).
    pub open spec fn uniform_index(self, name: Seq<char>) -> int {
        name_index(self.names@, name)
    }

    /// The value last written to a uniform the program exposes.
    pub open spec fn stored(self, name: Seq<char>) -> Option<UniformValue>
        recommends
            self.has_uniform(name),
    {
        self.values@[self.uniform_index(name)]
    }

    /// Wraps a linked program handle, given the uniform names its sources
    /// declare. A name listed twice counts once: every listed name is
    /// exposed, and nothing else is.
    pub fn new(program_id: u32, names: Vec<String>) -> (r: Shader)
        requires
            names@.len() <= 0x7fff_ffff,
        ensures
            r.wf(),
            r.spec_program_id() == program_id,
            forall|j: int| 0 <= j < names@.len() ==> r.has_uniform(#[trigger] names@[j]@),
            forall|n: Seq<char>| #[trigger] r.has_uniform(n) ==> seq_has_name(names@, n),
            forall|n: Seq<char>|
                r.has_uniform(n) ==> #[trigger] r.stored(n) is None,
    {
        let mut kept: Vec<String> = Vec::new();
        let mut values: Vec<Option<UniformValue>> = Vec::new();
        let mut i: usize = 0;
        while i < names.len()
            invariant
                i <= names@.len() <= 0x7fff_ffff,
                kept@.len() == values@.len(),
                kept@.len() <= i,
                forall|a: int, b: int| 0 <= a < b < kept@.len() ==> kept@[a]@ != kept@[b]@,
                forall|a: int| 0 <= a < values@.len() ==> values@[a] is None,
                forall|j: int| 0 <= j < i ==> seq_has_name(kept@, #[trigger] names@[j]@),
                forall|n: Seq<char>| #[trigger] seq_has_name(kept@, n) ==> seq_has_name(names@, n),
            decreases names@.len() - i,
        {
            let mut seen = false;
            let mut j: usize = 0;
            while j < kept.len()
                invariant
                    i < names@.len(),
                    j <= kept@.len(),
                    seen <==> exists|a: int| 0 <= a < j && kept@[a]@ == names@[i as int]@,
                decreases kept@.len() - j,
            {
                if kept[j] == names[i] {
                    seen = true;
                }
                j = j + 1;
            }
            let ghost kept_before = kept@;
            if !seen {
                kept.push(names[i].clone());
                values.push(None);
                proof {
                    assert(!seq_has_name(kept_before, names@[i as int]@));
                    assert forall|n: Seq<char>| #[trigger] seq_has_name(kept@, n) implies
                        seq_has_name(names@, n) by {
                        let a = choose|a: int| 0 <= a < kept@.len() && kept@[a]@ == n;
                        if a < kept_before.len() {
                            assert(seq_has_name(kept_before, n));
                        } else {
                            assert(kept@[a]@ == names@[i as int]@);
                            assert(seq_has_name(names@, n));
                        }
                    }
                }
            }
            proof {
                assert forall|j2: int| 0 <= j2 < i + 1 implies seq_has_name(
                    kept@,
                    #[trigger] names@[j2]@,
                ) by {
                    if j2 < i {
                        let a = choose|a: int|
                            0 <= a < kept_before.len() && kept_before[a]@ == names@[j2]@;
                        if seen || a < kept@.len() {
                            assert(kept@[a]@ == names@[j2]@);
                        }
                    } else {
                        if seen {
                            let a = choose|a: int|
                                0 <= a < kept_before.len() && kept_before[a]@ == names@[i as int]@;
                            assert(kept@[a]@ == names@[i as int]@);
                        } else {
                            assert(kept@[kept@.len() - 1]@ == names@[i as int]@);
                        }
                    }
                }
            }
            i = i + 1;
        }
        Shader { program_id, names: kept, values }
    }

    pub fn get_id(&self) -> (r: u32)
        ensures
            r == self.spec_program_id(),
    {
        self.program_id
    }

    /// Looks a uniform name up, reporting its slot index, or the error the
    /// GL location query signals with `-1`.
    pub fn get_uniform_id(&self, name: &str) -> (r: Result<i32, UniformError>)
        requires
            self.wf(),
        ensures
            match r {
                Ok(id) => self.has_uniform(name@) && id == self.uniform_index(name@),
                Err(e) => !self.has_uniform(name@) && e == UniformError::UniformNotFound,
            },
    {
        let key = String::from_str(name);
        let mut i: usize = 0;
        while i < self.names.len()
            invariant
                self.wf(),
                key@ == name@,
                i <= self.names@.len(),
                forall|j: int| 0 <= j < i ==> self.names@[j]@ != name@,
            decreases self.names@.len() - i,
        {
            if self.names[i] == key {
                proof {
                    assert(self.has_uniform(name@));
                    let k = self.uniform_index(name@);
                    if k < i as int {
                        assert(self.names@[k]@ != self.names@[i as int]@);
                    } else if k > i as int {
                        assert(self.names@[i as int]@ != self.names@[k]@);
                    }
                }
                return Ok(i as i32);
            }
            i = i + 1;
        }
        Err(UniformError::UniformNotFound)
    }

    /// Binds a value to a named uniform, or reports that the program
    /// exposes no such uniform and leaves everything unchanged.
    pub fn set(&mut self, name: &str, value: UniformValue) -> (r: Result<(), UniformError>)
        requires
            old(self).wf(),
        ensures
            final(self).wf(),
            final(self).spec_program_id() == old(self).spec_program_id(),
            final(self).names@ == old(self).names@,
            match r {
                Ok(_) => {
                    &&& old(self).has_uniform(name@)
                    &&& forall|n: Seq<char>|
                        old(self).has_uniform(n) ==> #[trigger] final(self).stored(n) == (if n
                            == name@ {
                            Some(value)
                        } else {
                            old(self).stored(n)
                        })
                },
                Err(e) => {
                    &&& !old(self).has_uniform(name@)
                    &&& e == UniformError::UniformNotFound
                    &&& *final(self) == *old(self)
                },
            },
    {
        match self.get_uniform_id(name) {
            Ok(id) => {
                let i = id as usize;
                self.values[i] = Some(value);
                proof {
                    let si = old(self).uniform_index(name@);
                    assert(final(self).values@ == old(self).values@.update(si, Some(value)));
                    assert forall|n: Seq<char>| old(self).has_uniform(n) implies #[trigger] final(self).stored(n) == (if n == name@ {
                        Some(value)
                    } else {
                        old(self).stored(n)
                    }) by {
                        let k = final(self).uniform_index(n);
                        assert(0 <= k < final(self).names@.len() && final(self).names@[k]@ == n);
                        let k0 = old(self).uniform_index(n);
                        assert(0 <= k0 < old(self).names@.len() && old(self).names@[k0]@ == n);
                        if k < k0 {
                            assert(old(self).names@[k]@ != old(self).names@[k0]@);
                        } else if k0 < k {
                            assert(old(self).names@[k0]@ != old(self).names@[k]@);
                        }
                        if n == name@ {
                            if k < si {
                                assert(old(self).names@[k]@ != old(self).names@[si]@);
                            } else if si < k {
                                assert(old(self).names@[si]@ != old(self).names@[k]@);
                            }
                        } else {
                            assert(old(self).names@[si]@ == name@);
                            assert(k != si);
                        }
                    }
                }
                Ok(())
            },
            Err(e) => Err(e),
        }
    }

    pub fn set_bool(&mut self, name: &str, val: bool) -> (r: Result<(), UniformError>)
        requires
            old(self).wf(),
        ensures
            final(self).wf(),
            final(self).spec_program_id() == old(self).spec_program_id(),
            final(self).names@ == old(self).names@,
            match r {
                Ok(_) => {
                    &&& old(self).has_uniform(name@)
                    &&& forall|n: Seq<char>|
                        old(self).has_uniform(n) ==> #[trigger] final(self).stored(n) == (if n
                            == name@ {
                            Some(UniformValue::Bool(val))
                        } else {
                            old(self).stored(n)
                        })
                },
                Err(e) => {
                    &&& !old(self).has_uniform(name@)
                    &&& e == UniformError::UniformNotFound
                    &&& *final(self) == *old(self)
                },
            },
    {
        self.set(name, UniformValue::Bool(val))
    }

    pub fn set_int(&mut self, name: &str, val: i32) -> (r: Result<(), UniformError>)
        requires
            old(self).wf(),
        ensures
            final(self).wf(),
            final(self).spec_program_id() == old(self).spec_program_id(),
            final(self).names@ == old(self).names@,
            match r {
                Ok(_) => {
                    &&& old(self).has_uniform(name@)
                    &&& forall|n: Seq<char>|
                        old(self).has_uniform(n) ==> #[trigger] final(self).stored(n) == (if n
                            == name@ {
                            Some(UniformValue::Int(val))
                        } else {
                            old(self).stored(n)
                        })
                },
                Err(e) => {
                    &&& !old(self).has_uniform(name@)
                    &&& e == UniformError::UniformNotFound
                    &&& *final(self) == *old(self)
                },
            },
    {
        self.set(name, UniformValue::Int(val))
    }

    pub fn set_float(&mut self, name: &str, val: i64) -> (r: Result<(), UniformError>)
        requires
            old(self).wf(),
        ensures
            final(self).wf(),
            final(self).spec_program_id() == old(self).spec_program_id(),
            final(self).names@ == old(self).names@,
            match r {
                Ok(_) => {
                    &&& old(self).has_uniform(name@)
                    &&& forall|n: Seq<char>|
                        old(self).has_uniform(n) ==> #[trigger] final(self).stored(n) == (if n
                            == name@ {
                            Some(UniformValue::Milli(val))
                        } else {
                            old(self).stored(n)
                        })
                },
                Err(e) => {
                    &&& !old(self).has_uniform(name@)
                    &&& e == UniformError::UniformNotFound
                    &&& *final(self) == *old(self)
                },
            },
    {
        self.set(name, UniformValue::Milli(val))
    }

    pub fn set_vec3(&mut self, name: &str, val: Vec3) -> (r: Result<(), UniformError>)
        requires
            old(self).wf(),
        ensures
            final(self).wf(),
            final(self).spec_program_id() == old(self).spec_program_id(),
            final(self).names@ == old(self).names@,
            match r {
                Ok(_) => {
                    &&& old(self).has_uniform(name@)
                    &&& forall|n: Seq<char>|
                        old(self).has_uniform(n) ==> #[trigger] final(self).stored(n) == (if n
                            == name@ {
                            Some(UniformValue::MilliVec3(val))
                        } else {
                            old(self).stored(n)
                        })
                },
                Err(e) => {
                    &&& !old(self).has_uniform(name@)
                    &&& e == UniformError::UniformNotFound
                    &&& *final(self) == *old(self)
                },
            },
    {
        self.set(name, UniformValue::MilliVec3(val))
    }

    /// Reads a uniform back as a vector. A never-written slot, or one
    /// holding a value of another kind, reads back as the zero vector, the
    /// state GL initialises uniforms to.
    pub fn get_vec3(&self, name: &str) -> (r: Result<Vec3, UniformError>)
        requires
            self.wf(),
        ensures
            match r {
                Ok(v) => self.has_uniform(name@) && v == as_vec3(self.stored(name@)),
                Err(e) => !self.has_uniform(name@) && e == UniformError::UniformNotFound,
            },
    {
        match self.get_uniform_id(name) {
            Ok(id) => {
                let i = id as usize;
                match self.values[i] {
                    Some(UniformValue::MilliVec3(v)) => Ok(v),
                    _ => Ok(Vec3::zero()),
                }
            },
            Err(e) => Err(e),
        }
    }

    /// Every write in the batch names a uniform this program exposes.
    pub open spec fn accepts(self, writes: Seq<UniformWrite>) -> bool {
        forall|i: int| 0 <= i < writes.len() ==> self.has_uniform(#[trigger] writes[i].name@)
    }

    /// Runs a batch of uniform writes in order, stopping at the first
    /// write whose name the program does not expose.
    pub fn apply(&mut self, writes: &Vec<UniformWrite>) -> (r: Result<(), UniformError>)
        requires
            old(self).wf(),
        ensures
            final(self).wf(),
            final(self).spec_program_id() == old(self).spec_program_id(),
            final(self).names@ == old(self).names@,
            r is Ok <==> old(self).accepts(writes@),
            r is Ok ==> forall|n: Seq<char>|
                old(self).has_uniform(n) ==> #[trigger] final(self).stored(n) == stored_after(
                    writes@,
                    n,
                    old(self).stored(n),
                ),
            r matches Err(e) ==> e == UniformError::UniformNotFound && exists|k: int|
                #![auto]
                {
                    &&& 0 <= k < writes@.len()
                    &&& !old(self).has_uniform(writes@[k].name@)
                    &&& (forall|j: int| 0 <= j < k ==> old(self).has_uniform(writes@[j].name@))
                    &&& (forall|n: Seq<char>|
                        old(self).has_uniform(n) ==> final(self).stored(n) == stored_after(
                            writes@.take(k),
                            n,
                            old(self).stored(n),
                        ))
                },
    {
        let mut i: usize = 0;
        while i < writes.len()
            invariant
                self.wf(),
                self.spec_program_id() == old(self).spec_program_id(),
                self.names@ == old(self).names@,
                i <= writes@.len(),
                forall|j: int| 0 <= j < i ==> old(self).has_uniform(#[trigger] writes@[j].name@),
                forall|n: Seq<char>|
                    old(self).has_uniform(n) ==> #[trigger] self.stored(n) == stored_after(
                        writes@.take(i as int),
                        n,
                        old(self).stored(n),
                    ),
            decreases writes@.len() - i,
        {
            proof {
                assert(writes@.take(i + 1).drop_last() =~= writes@.take(i as int));
                assert(writes@.take(i + 1).last() == writes@[i as int]);
            }
            let w = &writes[i];
            match self.set(w.name.as_str(), w.value) {
                Ok(_) => {},
                Err(e) => {
                    return Err(e);
                },
            }
            i = i + 1;
        }
        proof {
            assert(writes@.take(writes@.len() as int) =~= writes@);
        }
        Ok(())
    }
}

/// A remembered uniform slot: the program it belongs to and the slot index
/// its name resolved to, fixed once at construction.
#[derive(Clone, Copy, Debug, PartialEq, Eq, Structural)]
pub struct Uniform {
    pub shader_id: u32,
    pub uniform_id: i32,
}

impl Uniform {
    /// Resolves a uniform name against a program once, so later uploads
    /// skip the name lookup. Fails exactly when the program exposes no
    /// uniform of the name.
    pub fn new(shader: &Shader, name: &str) -> (r: Result<Uniform, UniformError>)
        requires
            shader.wf(),
        ensures
            match r {
                Ok(u) => {
                    &&& shader.has_uniform(name@)
                    &&& u.shader_id == shader.spec_program_id()
                    &&& u.uniform_id == shader.uniform_index(name@)
                },
                Err(e) => !shader.has_uniform(name@) && e == UniformError::UniformNotFound,
            },
    {
        match shader.get_uniform_id(name) {
            Ok(id) => Ok(Uniform { shader_id: shader.get_id(), uniform_id: id }),
            Err(e) => Err(e),
        }
    }
}

} // verus!
