use learn_ogl_rs::helper::{add_null_term, dec_u8};
use learn_ogl_rs::light::SpotLight;
use learn_ogl_rs::mesh::texture::{Texture, TextureType};
use learn_ogl_rs::mesh::VertexBuffer;
use learn_ogl_rs::renderer::texture::TextureManager;
use learn_ogl_rs::shader::{Shader, Uniform, UniformError, UniformValue, UniformWrite};
use learn_ogl_rs::vec3::{normalize_or_zero, Vec3};

fn spot_shader() -> Shader {
    let names = vec![
        String::from("spotLight.position"),
        String::from("spotLight.direction"),
        String::from("spotLight.innerCutOff"),
        String::from("spotLight.outerCutOff"),
        String::from("spotLight.ambient"),
        String::from("spotLight.diffuse"),
        String::from("spotLight.specular"),
        String::from("spotLight.constant"),
        String::from("spotLight.linear"),
        String::from("spotLight.quadratic"),
    ];
    Shader::new(7, names)
}

#[test]
fn uniform_lookup_finds_declared_names() {
    let s = spot_shader();
    assert_eq!(s.get_id(), 7);
    assert_eq!(s.get_uniform_id("spotLight.position"), Ok(0));
    assert_eq!(s.get_uniform_id("spotLight.quadratic"), Ok(9));
}

#[test]
fn uniform_lookup_reports_missing_names() {
    let s = spot_shader();
    assert_eq!(
        s.get_uniform_id("spotLight.radius"),
        Err(UniformError::UniformNotFound)
    );
}

#[test]
fn duplicate_names_count_once() {
    let s = Shader::new(
        1,
        vec![String::from("a"), String::from("b"), String::from("a")],
    );
    assert_eq!(s.get_uniform_id("a"), Ok(0));
    assert_eq!(s.get_uniform_id("b"), Ok(1));
}

#[test]
fn spot_position_reads_back_after_sync() {
    // Move the spot light, drain its batch into the shader, and read the
    // position uniform back: the value that was set comes out again.
    let mut shader = spot_shader();
    let mut light = SpotLight::new();
    let batch = light.set_pos(Vec3::new(1000, 2000, 3000));
    assert_eq!(shader.apply(&batch), Ok(()));
    assert_eq!(
        shader.get_vec3("spotLight.position"),
        Ok(Vec3::new(1000, 2000, 3000))
    );
}

#[test]
fn unwritten_uniform_reads_back_zero() {
    let s = spot_shader();
    assert_eq!(s.get_vec3("spotLight.ambient"), Ok(Vec3::new(0, 0, 0)));
    assert_eq!(
        s.get_vec3("spotLight.missing"),
        Err(UniformError::UniformNotFound)
    );
}

#[test]
fn scalar_slot_reads_back_zero_vector() {
    let mut s = spot_shader();
    assert_eq!(s.set_float("spotLight.linear", 90), Ok(()));
    assert_eq!(s.get_vec3("spotLight.linear"), Ok(Vec3::new(0, 0, 0)));
}

#[test]
fn setters_reject_unknown_uniforms() {
    let mut s = spot_shader();
    assert_eq!(
        s.set_vec3("nope", Vec3::new(1, 2, 3)),
        Err(UniformError::UniformNotFound)
    );
    assert_eq!(s.set_int("nope", 3), Err(UniformError::UniformNotFound));
    assert_eq!(s.set_bool("nope", true), Err(UniformError::UniformNotFound));
}

#[test]
fn apply_stops_at_first_unknown_name() {
    let mut s = Shader::new(1, vec![String::from("a")]);
    let batch = vec![
        UniformWrite::new("a", UniformValue::Int(5)),
        UniformWrite::new("b", UniformValue::Int(6)),
    ];
    assert_eq!(s.apply(&batch), Err(UniformError::UniformNotFound));
    // The write before the failing one went through.
    assert_eq!(s.get_uniform_id("a"), Ok(0));
}

#[test]
fn later_writes_win() {
    let mut s = Shader::new(1, vec![String::from("a")]);
    let batch = vec![
        UniformWrite::new("a", UniformValue::MilliVec3(Vec3::new(1, 1, 1))),
        UniformWrite::new("a", UniformValue::MilliVec3(Vec3::new(2, 2, 2))),
    ];
    assert_eq!(s.apply(&batch), Ok(()));
    assert_eq!(s.get_vec3("a"), Ok(Vec3::new(2, 2, 2)));
}

#[test]
fn uniform_remembers_its_slot() {
    let s = spot_shader();
    let u = Uniform::new(&s, "spotLight.diffuse").unwrap();
    assert_eq!(u.shader_id, 7);
    assert_eq!(u.uniform_id, 5);
    assert!(Uniform::new(&s, "gone").is_err());
}

#[test]
fn texture_manager_maps_names_to_handles() {
    let mut tm = TextureManager::new();
    assert_eq!(tm.get_texture("material.diffuse"), None);
    tm.register_texture("material.diffuse", 11);
    tm.register_texture("material.specular", 12);
    assert_eq!(tm.get_texture("material.diffuse"), Some(11));
    assert_eq!(tm.get_texture("material.specular"), Some(12));
    tm.register_texture("material.diffuse", 21);
    assert_eq!(tm.get_texture("material.diffuse"), Some(21));
    assert_eq!(tm.get_texture("material.specular"), Some(12));
    assert_eq!(tm.get_texture("material.normal"), None);
}

#[test]
fn null_termination_appends_one_byte() {
    assert_eq!(add_null_term(b"abc"), b"abc\0".to_vec());
    assert_eq!(add_null_term(b""), b"\0".to_vec());
    assert_eq!(add_null_term(b"spotLight.position"), b"spotLight.position\0".to_vec());
}

#[test]
fn decimal_rendering_matches_std() {
    for n in [0u8, 7, 9, 10, 42, 99, 100, 255] {
        assert_eq!(dec_u8(n), n.to_string());
    }
}

#[test]
fn vertex_buffer_keeps_handles_and_checks_layout() {
    let vb = VertexBuffer::new(5, 9, 8);
    assert_eq!(vb.vbo(), 5);
    assert_eq!(vb.vao(), 9);
    assert_eq!(vb.bindingindex(), 0);
    // position at 0, normal at 3, texture coordinates at 6, stride 8.
    assert_eq!(vb.attribute_byte_offset(0, 3), Some(0));
    assert_eq!(vb.attribute_byte_offset(3, 3), Some(12));
    assert_eq!(vb.attribute_byte_offset(6, 2), Some(24));
    // An attribute running past the stride is rejected.
    assert_eq!(vb.attribute_byte_offset(6, 3), None);
}

#[test]
fn texture_pairs_handle_with_role() {
    let t = Texture::new(3, TextureType::Diffuse);
    assert_eq!(t.id, 3);
    assert!(matches!(t.texture_type, TextureType::Diffuse));
    let s = Texture::new(4, TextureType::Specular);
    assert!(matches!(s.texture_type, TextureType::Specular));
}

#[test]
fn normalisation_scales_to_unit_length() {
    assert_eq!(
        normalize_or_zero(Vec3::new(3000, 0, 4000)),
        Vec3::new(600, 0, 800)
    );
    assert_eq!(normalize_or_zero(Vec3::new(0, 0, 0)), Vec3::new(0, 0, 0));
    assert_eq!(
        normalize_or_zero(Vec3::new(0, -5, 0)),
        Vec3::new(0, -1000, 0)
    );
}

#[test]
fn cross_product_follows_the_right_hand_rule() {
    let x = Vec3::new(1000, 0, 0);
    let y = Vec3::new(0, 1000, 0);
    let z = Vec3::new(0, 0, 1000);
    assert_eq!(x.cross(y), z);
    assert_eq!(y.cross(z), x);
    assert_eq!(y.cross(x), Vec3::new(0, 0, -1000));
}
