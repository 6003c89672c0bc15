//! A linked, usable GPU program and its typed uniform writes.
//!
//! A `Shader` wraps the driver-side identifier of one linked program
//! together with a model of its uniform state. Each `set_*` method resolves
//! the name anew, as the driver does: a name the link resolved takes the
//! value, an absent name makes the write a silent no-op, and no write
//! touches any other uniform.

use vstd::prelude::*;

use crate::commands::RenderCommand;
use crate::uniforms::{Mat4Bits, UniformEntry, UniformStore, UniformValue, Vec3Bits, write_once};

verus! {

/// A linked GPU program.
#[derive(Clone, PartialEq, Eq, Debug)]
pub struct Shader {
    /// The driver-side identifier of the linked program.
    pub id: u32,
    /// The uniforms the link resolved, with the values written so far.
    pub uniforms: UniformStore,
}

impl Shader {
    /// Wraps a linked program id, given the uniform names its link
    /// resolved; no uniform holds a value yet.
    pub fn new(id: u32, uniform_names: Vec<String>) -> (s: Shader)
        ensures
            s.id == id,
            s.uniforms@ == uniform_names@.map_values(
                |n: String| (n@, None::<UniformValue>),
            ),
    {
        let mut store = UniformStore { entries: Vec::new() };
        let n: usize = uniform_names.len();
        let mut i: usize = 0;
        while i < n
            invariant
                n == uniform_names@.len(),
                0 <= i <= n,
                store.entries@.len() == i,
                forall|j: int|
                    0 <= j < i ==> #[trigger] store.entries@[j] == (UniformEntry {
                        name: uniform_names@[j],
                        value: None::<UniformValue>,
                    }),
            decreases n - i,
        {
            store.entries.push(UniformEntry { name: uniform_names[i].clone(), value: None });
            i += 1;
        }
        proof {
            assert(store@ =~= uniform_names@.map_values(|n: String| (n@, None::<UniformValue>)));
        }
        Shader { id, uniforms: store }
    }

    /// Makes this program the active one: the command binds it on the
    /// driver, and every subsequent draw uses it until another program is
    /// bound.
    pub fn use_program(&self) -> (c: RenderCommand)
        ensures
            c == (RenderCommand::UseProgram { program: self.id }),
    {
        RenderCommand::UseProgram { program: self.id }
    }

    /// Writes a boolean uniform.
    pub fn set_bool(&mut self, name: &str, value: bool)
        ensures
            final(self).id == old(self).id,
            final(self).uniforms@ == write_once(
                old(self).uniforms@,
                name@,
                UniformValue::Bool(value),
            ),
    {
        self.uniforms.set(name, UniformValue::Bool(value));
    }

    /// Writes an integer uniform.
    pub fn set_int(&mut self, name: &str, value: i32)
        ensures
            final(self).id == old(self).id,
            final(self).uniforms@ == write_once(
                old(self).uniforms@,
                name@,
                UniformValue::Int(value),
            ),
    {
        self.uniforms.set(name, UniformValue::Int(value));
    }

    /// Writes a float uniform, given as the bit pattern of a
    /// single-precision float.
    pub fn set_float(&mut self, name: &str, value_bits: u32)
        ensures
            final(self).id == old(self).id,
            final(self).uniforms@ == write_once(
                old(self).uniforms@,
                name@,
                UniformValue::Float(value_bits),
            ),
    {
        self.uniforms.set(name, UniformValue::Float(value_bits));
    }

    /// Writes a three-component vector uniform, taken as one value.
    pub fn set_vector3(&mut self, name: &str, value: &Vec3Bits)
        ensures
            final(self).id == old(self).id,
            final(self).uniforms@ == write_once(
                old(self).uniforms@,
                name@,
                UniformValue::Vec3(*value),
            ),
    {
        self.uniforms.set(name, UniformValue::Vec3(*value));
    }

    /// Writes a three-component vector uniform, component by component;
    /// each component is the bit pattern of a single-precision float.
    pub fn set_vec3(&mut self, name: &str, x_bits: u32, y_bits: u32, z_bits: u32)
        ensures
            final(self).id == old(self).id,
            final(self).uniforms@ == write_once(
                old(self).uniforms@,
                name@,
                UniformValue::Vec3(Vec3Bits { x: x_bits, y: y_bits, z: z_bits }),
            ),
    {
        self.uniforms.set(name, UniformValue::Vec3(Vec3Bits { x: x_bits, y: y_bits, z: z_bits }));
    }

    /// Writes a 4 by 4 matrix uniform.
    pub fn set_mat4(&mut self, name: &str, value: &Mat4Bits)
        ensures
            final(self).id == old(self).id,
            final(self).uniforms@ == write_once(
                old(self).uniforms@,
                name@,
                UniformValue::Mat4(*value),
            ),
    {
        self.uniforms.set(name, UniformValue::Mat4(*value));
    }
}

} // verus!
