use game_engine::commands::RenderCommand;
use game_engine::shader::Shader;
use game_engine::uniforms::{Mat4Bits, UniformStore, UniformValue, Vec3Bits};

fn shader_with(names: &[&str]) -> Shader {
    Shader::new(7, names.iter().map(|n| n.to_string()).collect())
}

#[test]
fn new_shader_declares_unset_uniforms() {
    let s = shader_with(&["x", "y"]);
    assert_eq!(s.id, 7);
    assert_eq!(s.uniforms.entries.len(), 2);
    assert_eq!(s.uniforms.entries[0].name, "x");
    assert_eq!(s.uniforms.entries[0].value, None);
    assert_eq!(s.uniforms.entries[1].name, "y");
    assert_eq!(s.uniforms.entries[1].value, None);
}

#[test]
fn set_known_uniform_updates_only_it() {
    let mut s = shader_with(&["x", "y"]);
    s.set_float("x", 0.25f32.to_bits());
    assert_eq!(s.uniforms.entries[0].value, Some(UniformValue::Float(0.25f32.to_bits())));
    assert_eq!(s.uniforms.entries[1].value, None);
    s.set_int("y", -3);
    assert_eq!(s.uniforms.entries[0].value, Some(UniformValue::Float(0.25f32.to_bits())));
    assert_eq!(s.uniforms.entries[1].value, Some(UniformValue::Int(-3)));
}

#[test]
fn absent_uniform_write_is_a_silent_no_op() {
    let mut s = shader_with(&["x", "y"]);
    s.set_float("x", 1.0f32.to_bits());
    let before = s.clone();
    // No such uniform: nothing is raised and nothing changes.
    s.set_float("z", 2.0f32.to_bits());
    s.set_bool("z", true);
    s.set_vec3("missing", 0, 0, 0);
    assert_eq!(s, before);
}

#[test]
fn every_typed_write_lands_as_its_value() {
    let mut s = shader_with(&["b", "i", "f", "v", "w", "m"]);
    s.set_bool("b", true);
    s.set_int("i", 42);
    s.set_float("f", 1.5f32.to_bits());
    s.set_vec3("v", 1.0f32.to_bits(), 2.0f32.to_bits(), 3.0f32.to_bits());
    let v3 = Vec3Bits { x: 9, y: 8, z: 7 };
    s.set_vector3("w", &v3);
    let m = Mat4Bits { elements: [1.0f32.to_bits(); 16] };
    s.set_mat4("m", &m);
    assert_eq!(s.uniforms.entries[0].value, Some(UniformValue::Bool(true)));
    assert_eq!(s.uniforms.entries[1].value, Some(UniformValue::Int(42)));
    assert_eq!(s.uniforms.entries[2].value, Some(UniformValue::Float(1.5f32.to_bits())));
    assert_eq!(
        s.uniforms.entries[3].value,
        Some(UniformValue::Vec3(Vec3Bits {
            x: 1.0f32.to_bits(),
            y: 2.0f32.to_bits(),
            z: 3.0f32.to_bits(),
        }))
    );
    assert_eq!(s.uniforms.entries[4].value, Some(UniformValue::Vec3(v3)));
    assert_eq!(s.uniforms.entries[5].value, Some(UniformValue::Mat4(m)));
}

#[test]
fn repeated_write_replaces_the_value() {
    let mut s = shader_with(&["x"]);
    s.set_float("x", 1.0f32.to_bits());
    s.set_float("x", 2.0f32.to_bits());
    assert_eq!(s.uniforms.entries[0].value, Some(UniformValue::Float(2.0f32.to_bits())));
}

#[test]
fn use_program_names_this_program() {
    let s = shader_with(&[]);
    assert_eq!(s.use_program(), RenderCommand::UseProgram { program: 7 });
}

#[test]
fn store_declare_ignores_duplicates() {
    let mut store = UniformStore::new();
    store.declare("x".to_string());
    store.declare("x".to_string());
    store.declare("y".to_string());
    assert_eq!(store.entries.len(), 2);
    assert!(store.contains_name("x"));
    assert!(store.contains_name("y"));
    assert!(!store.contains_name("z"));
}
