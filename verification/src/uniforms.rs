//! The uniform state of one linked program.
//!
//! A uniform is a named, program-scoped input set from the host side. The
//! driver resolves a name to a location on every write; a name the link did
//! not resolve yields a sentinel location and the write is silently a no-op.
//! The store here models exactly that: writing to a present name replaces
//! its value, writing to an absent name changes nothing, and no write ever
//! touches another name's value.
//!
//! Float-valued uniforms are carried as bit patterns of single-precision
//! floats: the library stores and routes them; only the driver interprets
//! them as numbers.

use vstd::prelude::*;

verus! {

/// A three-component vector; each component is the bit pattern of one
/// single-precision float.
#[derive(Clone, Copy, PartialEq, Eq, Debug)]
pub struct Vec3Bits {
    pub x: u32,
    pub y: u32,
    pub z: u32,
}

/// A 4 by 4 matrix in column-major element order; each element is the bit
/// pattern of one single-precision float.
#[derive(Clone, Copy, PartialEq, Eq, Debug)]
pub struct Mat4Bits {
    pub elements: [u32; 16],
}

/// One value a uniform can hold.
#[derive(Clone, Copy, PartialEq, Eq, Debug)]
pub enum UniformValue {
    Bool(bool),
    Int(i32),
    Float(u32),
    Vec3(Vec3Bits),
    Mat4(Mat4Bits),
}

/// One named uniform of a linked program, with the value last written to
/// it, if any.
#[derive(Clone, PartialEq, Eq, Debug)]
pub struct UniformEntry {
    pub name: String,
    pub value: Option<UniformValue>,
}

/// The uniforms of one linked program: the names the link resolved, each
/// with the value last written to it.
#[derive(Clone, PartialEq, Eq, Debug)]
pub struct UniformStore {
    pub entries: Vec<UniformEntry>,
}

impl View for UniformStore {
    type V = Seq<(Seq<char>, Option<UniformValue>)>;

    open spec fn view(&self) -> Seq<(Seq<char>, Option<UniformValue>)> {
        self.entries@.map_values(|e: UniformEntry| (e.name@, e.value))
    }
}

/// Whether the store holds a uniform of the given name.
pub open spec fn has_name(
    store: Seq<(Seq<char>, Option<UniformValue>)>,
    name: Seq<char>,
) -> bool {
    exists|i: int| 0 <= i < store.len() && store[i].0 == name
}

/// One uniform write as the driver performs it: every entry of the given
/// name takes the new value, every other entry is untouched. A store whose
/// names are distinct has at most one entry of the name; a write to an
/// absent name leaves the store as it was.
pub open spec fn write_once(
    store: Seq<(Seq<char>, Option<UniformValue>)>,
    name: Seq<char>,
    value: UniformValue,
) -> Seq<(Seq<char>, Option<UniformValue>)> {
    store.map_values(
        |p: (Seq<char>, Option<UniformValue>)|
            if p.0 == name {
                (p.0, Some(value))
            } else {
                p
            },
    )
}

/// A write to a name the store does not hold changes nothing.
pub proof fn lemma_absent_name_write_is_noop(
    store: Seq<(Seq<char>, Option<UniformValue>)>,
    name: Seq<char>,
    value: UniformValue,
)
    requires
        !has_name(store, name),
    ensures
        write_once(store, name, value) == store,
{
    assert forall|i: int| 0 <= i < store.len() implies #[trigger] write_once(store, name, value)[i]
        == store[i] by {
        assert(store[i].0 != name);
    }
    assert(write_once(store, name, value) =~= store);
}

impl UniformStore {
    /// A store with no uniforms.
    pub fn new() -> (s: UniformStore)
        ensures
            s@ == Seq::<(Seq<char>, Option<UniformValue>)>::empty(),
    {
        let s = UniformStore { entries: Vec::new() };
        proof {
            assert(s@ =~= Seq::<(Seq<char>, Option<UniformValue>)>::empty());
        }
        s
    }

    /// Adds a uniform name with no value yet, unless the store already
    /// holds it.
    pub fn declare(&mut self, name: String)
        ensures
            has_name(old(self)@, name@) ==> final(self)@ == old(self)@,
            !has_name(old(self)@, name@) ==> final(self)@ == old(self)@.push(
                (name@, None::<UniformValue>),
            ),
    {
        if !self.contains_name(name.as_str()) {
            self.entries.push(UniformEntry { name, value: None });
            proof {
                assert(self@ =~= old(self)@.push(
                    (self.entries@.last().name@, None::<UniformValue>),
                ));
            }
        }
    }

    /// Whether the store holds a uniform of the given name.
    pub fn contains_name(&self, name: &str) -> (r: bool)
        ensures
            r == has_name(self@, name@),
    {
        let key: String = name.to_owned();
        let n: usize = self.entries.len();
        let mut i: usize = 0;
        while i < n
            invariant
                n == self.entries@.len(),
                0 <= i <= n,
                forall|j: int| 0 <= j < i ==> #[trigger] self@[j].0 != name@,
                key@ == name@,
            decreases n - i,
        {
            if self.entries[i].name == key {
                assert(self@[i as int].0 == name@);
                return true;
            }
            i += 1;
        }
        false
    }

    /// Writes a value to the uniform of the given name: that name's value
    /// is replaced, every other entry stays exactly as it was, and an
    /// absent name leaves the store unchanged.
    pub fn set(&mut self, name: &str, value: UniformValue)
        ensures
            final(self)@ == write_once(old(self)@, name@, value),
    {
        let key: String = name.to_owned();
        let n: usize = self.entries.len();
        let mut i: usize = 0;
        while i < n
            invariant
                n == self.entries@.len(),
                0 <= i <= n,
                key@ == name@,
                forall|j: int| i <= j < n ==> self.entries@[j] == old(self).entries@[j],
                forall|j: int|
                    0 <= j < i ==> #[trigger] self.entries@[j] == (
                    if old(self).entries@[j].name@ == name@ {
                        UniformEntry { name: old(self).entries@[j].name, value: Some(value) }
                    } else {
                        old(self).entries@[j]
                    }),
            decreases n - i,
        {
            if self.entries[i].name == key {
                self.entries[i].value = Some(value);
            }
            i += 1;
        }
        proof {
            assert(self@ =~= write_once(old(self)@, name@, value));
        }
    }
}

} // verus!
