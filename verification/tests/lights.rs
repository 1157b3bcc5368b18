use learn_ogl_rs::light::direction::DirectionLight;
use learn_ogl_rs::light::point::PointLight;
use learn_ogl_rs::light::{Light, SpotLight};
use learn_ogl_rs::object::cube::Material;
use learn_ogl_rs::object::directional_light::DirectionalLight;
use learn_ogl_rs::object::light::{FlashLight, LightAttributes};
use learn_ogl_rs::shader::{UniformValue, UniformWrite};
use learn_ogl_rs::vec3::Vec3;

fn names_of(batch: &[UniformWrite]) -> Vec<&str> {
    batch.iter().map(|w| w.name.as_str()).collect()
}

#[test]
fn spot_set_pos_uploads_every_field() {
    let mut s = SpotLight::new();
    let batch = s.set_pos(Vec3::new(1000, 2000, 3000));
    assert_eq!(
        names_of(&batch),
        vec![
            "spotLight.position",
            "spotLight.direction",
            "spotLight.innerCutOff",
            "spotLight.outerCutOff",
            "spotLight.ambient",
            "spotLight.diffuse",
            "spotLight.specular",
            "spotLight.constant",
            "spotLight.linear",
            "spotLight.quadratic",
        ]
    );
    assert_eq!(
        batch[0].value,
        UniformValue::MilliVec3(Vec3::new(1000, 2000, 3000))
    );
    assert_eq!(batch[7].value, UniformValue::Milli(1000));
    assert_eq!(batch[8].value, UniformValue::Milli(90));
    assert_eq!(batch[9].value, UniformValue::Milli(32));
}

#[test]
fn spot_cutoffs_upload_as_cosines_of_degrees() {
    let s = SpotLight::new();
    let batch = s.attrs.sync_state();
    assert_eq!(batch[2].value, UniformValue::CosOfDegrees(12_500));
    assert_eq!(batch[3].value, UniformValue::CosOfDegrees(14_500));
    // What the front end uploads for the inner cutoff: cos(12.5 degrees).
    let uploaded = (12_500 as f64 / 1000.0).to_radians().cos();
    assert!((uploaded - 0.9763).abs() < 1e-4);
}

#[test]
fn spot_set_dir_keeps_position() {
    let mut s = SpotLight::new();
    let _ = s.set_pos(Vec3::new(5, 6, 7));
    let batch = s.set_dir(Vec3::new(0, -1000, 0));
    assert_eq!(batch[0].value, UniformValue::MilliVec3(Vec3::new(5, 6, 7)));
    assert_eq!(
        batch[1].value,
        UniformValue::MilliVec3(Vec3::new(0, -1000, 0))
    );
    assert_eq!(s.pos(), Vec3::new(5, 6, 7));
    assert_eq!(s.dir(), Vec3::new(0, -1000, 0));
}

#[test]
fn point_light_names_carry_their_index() {
    let mut p = PointLight::new(2);
    let batch = p.set_pos(Vec3::new(700, 200, 2000));
    assert_eq!(batch.len(), 7);
    for w in &batch {
        assert!(
            w.name.as_str().starts_with("pointLights[2]."),
            "name {} lacks the index prefix",
            w.name
        );
    }
    assert_eq!(batch[0].name.as_str(), "pointLights[2].position");
    assert_eq!(batch[6].name.as_str(), "pointLights[2].quadratic");
}

#[test]
fn point_light_indices_render_in_decimal() {
    for (index, prefix) in [(0u8, "pointLights[0]."), (10, "pointLights[10]."), (255, "pointLights[255].")] {
        let p = PointLight::new(index);
        let batch = p.attrs.sync_state(p.index);
        for w in &batch {
            assert!(w.name.as_str().starts_with(prefix));
        }
    }
}

#[test]
fn point_light_moves_its_debug_cube() {
    let mut p = PointLight::new(1);
    let _ = p.set_pos(Vec3::new(-4000, 2000, -12_000));
    assert_eq!(p.cube_pos, Vec3::new(-4000, 2000, -12_000));
    assert_eq!(p.pos(), Vec3::new(-4000, 2000, -12_000));
}

#[test]
fn point_light_has_no_direction() {
    let mut p = PointLight::new(0);
    assert_eq!(p.dir(), Vec3::new(0, 0, 0));
    let batch = p.set_dir(Vec3::new(1, 2, 3));
    assert!(batch.is_empty());
    assert_eq!(p.pos(), Vec3::new(0, 2000, 0));
}

#[test]
fn direction_light_uploads_four_uniforms() {
    let mut d = DirectionLight::new();
    let batch = d.set_dir(Vec3::new(0, -1000, 0));
    assert_eq!(
        names_of(&batch),
        vec![
            "dirLight.direction",
            "dirLight.ambient",
            "dirLight.diffuse",
            "dirLight.specular",
        ]
    );
    assert_eq!(batch[0].value, UniformValue::MilliVec3(Vec3::new(0, -1000, 0)));
}

#[test]
fn direction_light_has_no_position() {
    let mut d = DirectionLight::new();
    assert_eq!(d.pos(), Vec3::new(0, 0, 0));
    let batch = d.set_pos(Vec3::new(9, 9, 9));
    assert!(batch.is_empty());
}

#[test]
fn light_enum_dispatches_by_kind() {
    let mut spot = Light::Spot(SpotLight::new());
    let batch = spot.set_pos(Vec3::new(1, 2, 3));
    assert_eq!(batch.len(), 10);
    assert_eq!(spot.pos(), Vec3::new(1, 2, 3));

    let mut point = Light::Point(PointLight::new(3));
    assert_eq!(point.set_dir(Vec3::new(1, 0, 0)).len(), 0);
    assert_eq!(point.dir(), Vec3::new(0, 0, 0));
    assert_eq!(point.set_pos(Vec3::new(4, 5, 6)).len(), 7);

    let mut dir = Light::Direction(DirectionLight::new());
    assert_eq!(dir.set_pos(Vec3::new(4, 5, 6)).len(), 0);
    assert_eq!(dir.pos(), Vec3::new(0, 0, 0));
    assert_eq!(dir.sync_state().len(), 4);
}

#[test]
fn flash_light_syncs_whole_record() {
    let mut f = FlashLight::new(None);
    assert_eq!(f.attrs().cutoff, 12_500);
    let batch = f.set_pos(Vec3::new(10, 20, 30));
    assert_eq!(
        names_of(&batch),
        vec![
            "light.position",
            "light.direction",
            "light.cutOff",
            "light.ambient",
            "light.diffuse",
            "light.specular",
            "light.constant",
            "light.linear",
            "light.quadratic",
        ]
    );
    assert_eq!(batch[0].value, UniformValue::MilliVec3(Vec3::new(10, 20, 30)));
    assert_eq!(batch[2].value, UniformValue::CosOfDegrees(12_500));
}

#[test]
fn flash_light_set_attrs_replaces_record() {
    let mut f = FlashLight::new(None);
    let custom = LightAttributes {
        cutoff: 20_000,
        ..LightAttributes::default()
    };
    let batch = f.set_attrs(custom);
    assert_eq!(batch[2].value, UniformValue::CosOfDegrees(20_000));
    assert_eq!(f.attrs().cutoff, 20_000);
}

#[test]
fn flash_light_takes_custom_attributes_at_build() {
    let custom = LightAttributes {
        position: Vec3::new(1, 1, 1),
        ..LightAttributes::default()
    };
    let f = FlashLight::new(Some(custom));
    assert_eq!(f.pos(), Vec3::new(1, 1, 1));
    assert_eq!(f.dir(), Vec3::new(0, 0, -1000));
}

#[test]
fn directional_light_uploads_fixed_strengths() {
    let d = DirectionalLight::default();
    assert_eq!(d.direction, Vec3::new(-200, -1000, -300));
    let batch = d.sync();
    assert_eq!(
        names_of(&batch),
        vec![
            "light.direction",
            "light.ambient",
            "light.diffuse",
            "light.specular",
        ]
    );
    assert_eq!(batch[1].value, UniformValue::MilliVec3(Vec3::new(200, 200, 200)));
    assert_eq!(batch[2].value, UniformValue::MilliVec3(Vec3::new(500, 500, 500)));
    assert_eq!(
        batch[3].value,
        UniformValue::MilliVec3(Vec3::new(1000, 1000, 1000))
    );
    let named = DirectionalLight::new(Vec3::new(0, -1000, 0));
    assert_eq!(named.sync()[0].value, UniformValue::MilliVec3(Vec3::new(0, -1000, 0)));
}

#[test]
fn material_uploads_shininess() {
    let m = Material::default();
    assert_eq!(m.shininess, 32_000);
    let batch = m.sync_state();
    assert_eq!(batch.len(), 1);
    assert_eq!(batch[0].name.as_str(), "material.shininess");
    assert_eq!(batch[0].value, UniformValue::Milli(32_000));
    assert_eq!(Material::new(64_000).sync_state()[0].value, UniformValue::Milli(64_000));
}
