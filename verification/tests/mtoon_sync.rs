use bevy_mtoon::color::{Rgba, TextureHandle, Vec3Bits};
use bevy_mtoon::mtoon::{update_mtoon_shader, MtoonMaterial};
use bevy_mtoon::signals::{AmbientSignal, SunSignal};

fn rgba(r: f32, g: f32, b: f32, a: f32) -> Rgba {
    Rgba { red: r.to_bits(), green: g.to_bits(), blue: b.to_bits(), alpha: a.to_bits() }
}

fn vec3(x: f32, y: f32, z: f32) -> Vec3Bits {
    Vec3Bits { x: x.to_bits(), y: y.to_bits(), z: z.to_bits() }
}

#[test]
fn default_values_match_the_documented_literals() {
    let m = MtoonMaterial::default();
    assert_eq!(m.base_color, rgba(1.0, 1.0, 1.0, 1.0));
    assert_eq!(m.shade_color, rgba(0.0, 0.0, 0.0, 1.0));
    assert_eq!(m.ambient_color, rgba(1.0, 1.0, 1.0, 1.0));
    assert_eq!(m.light_color, rgba(1.0, 1.0, 1.0, 1.0));
    assert_eq!(m.light_dir, vec3(0.0, 1.0, 0.0));
    assert_eq!(m.shading_shift_factor, 0.0f32.to_bits());
    assert_eq!(m.shading_toony_factor, 0.9f32.to_bits());
    assert_eq!(m.gl_equalization_factor, 0.9f32.to_bits());
    assert!(m.base_color_texture.is_none());
    assert!(m.shade_color_texture.is_none());
    assert!(m.normal_texture.is_none());
}

#[test]
fn default_uniform_carries_the_documented_literals() {
    let u = MtoonMaterial::default().to_uniform();
    assert_eq!(u.base_color, rgba(1.0, 1.0, 1.0, 1.0));
    assert_eq!(u.shade_color, rgba(0.0, 0.0, 0.0, 1.0));
    assert_eq!(u.ambient_color, rgba(1.0, 1.0, 1.0, 1.0));
    assert_eq!(u.light_color, rgba(1.0, 1.0, 1.0, 1.0));
    assert_eq!(u.light_dir, vec3(0.0, 1.0, 0.0));
    assert_eq!(u.shading_shift_factor, 0.0f32.to_bits());
    assert_eq!(u.shading_toony_factor, 0.9f32.to_bits());
    assert_eq!(u.gl_equalization_factor, 0.9f32.to_bits());
}

#[test]
fn to_uniform_is_pure() {
    let mut m = MtoonMaterial::default();
    m.base_color = rgba(0.25, 0.5, 0.75, 1.0);
    m.light_dir = vec3(1.0, 0.0, 0.0);
    m.base_color_texture = Some(TextureHandle { id: 7 });
    assert_eq!(m.to_uniform(), m.to_uniform());
}

#[test]
fn one_sun_writes_light_fields_of_every_material() {
    let sun = SunSignal { direction: vec3(0.0, -1.0, 0.25), color: rgba(1.0, 0.5, 0.25, 1.0) };
    let mut materials = vec![MtoonMaterial::default(); 3];
    update_mtoon_shader(&vec![sun], None, &mut materials);
    for m in &materials {
        assert_eq!(m.light_dir, sun.direction);
        assert_eq!(m.light_color, sun.color);
    }
}

#[test]
fn zero_suns_leave_light_fields_unchanged() {
    let mut m = MtoonMaterial::default();
    m.light_dir = vec3(0.5, 0.5, 0.0);
    m.light_color = rgba(0.1, 0.2, 0.3, 0.4);
    let before = m;
    let mut materials = vec![m];
    update_mtoon_shader(&Vec::new(), None, &mut materials);
    assert_eq!(materials[0], before);
}

#[test]
fn two_suns_leave_light_fields_unchanged() {
    let sun_a = SunSignal { direction: vec3(1.0, 0.0, 0.0), color: rgba(1.0, 0.0, 0.0, 1.0) };
    let sun_b = SunSignal { direction: vec3(0.0, 0.0, 1.0), color: rgba(0.0, 0.0, 1.0, 1.0) };
    let before = MtoonMaterial::default();
    let mut materials = vec![before];
    update_mtoon_shader(&vec![sun_a, sun_b], None, &mut materials);
    assert_eq!(materials[0], before);
}

#[test]
fn ambient_brightness_is_premultiplied_into_alpha() {
    let ambient = AmbientSignal { color: rgba(0.2, 0.3, 0.4, 0.8), brightness: 0.5f32.to_bits() };
    let mut materials = vec![MtoonMaterial::default()];
    update_mtoon_shader(&Vec::new(), Some(ambient), &mut materials);
    let got = materials[0].ambient_color;
    assert_eq!(got.red, 0.2f32.to_bits());
    assert_eq!(got.green, 0.3f32.to_bits());
    assert_eq!(got.blue, 0.4f32.to_bits());
    assert_eq!(got.alpha, (0.8f32 * 0.5f32).to_bits());
    // The product differs from both inputs, so a copied-through alpha would fail.
    assert_ne!(got.alpha, 0.8f32.to_bits());
    assert_ne!(got.alpha, 0.5f32.to_bits());
}

#[test]
fn ambient_with_unit_brightness_keeps_alpha() {
    let ambient = AmbientSignal { color: rgba(0.2, 0.3, 0.4, 0.8), brightness: 1.0f32.to_bits() };
    let mut materials = vec![MtoonMaterial::default()];
    update_mtoon_shader(&Vec::new(), Some(ambient), &mut materials);
    assert_eq!(materials[0].ambient_color, rgba(0.2, 0.3, 0.4, 0.8));
}

#[test]
fn missing_ambient_keeps_previous_ambient_color() {
    let mut m = MtoonMaterial::default();
    m.ambient_color = rgba(0.9, 0.8, 0.7, 0.6);
    let mut materials = vec![m];
    let sun = SunSignal { direction: vec3(0.0, -1.0, 0.0), color: rgba(1.0, 1.0, 1.0, 1.0) };
    update_mtoon_shader(&vec![sun], None, &mut materials);
    assert_eq!(materials[0].ambient_color, rgba(0.9, 0.8, 0.7, 0.6));
}

#[test]
fn sync_never_touches_authored_fields() {
    let mut m = MtoonMaterial::default();
    m.base_color = rgba(0.1, 0.2, 0.3, 1.0);
    m.shade_color = rgba(0.4, 0.5, 0.6, 1.0);
    m.shading_shift_factor = 0.25f32.to_bits();
    m.base_color_texture = Some(TextureHandle { id: 1 });
    m.shade_color_texture = Some(TextureHandle { id: 2 });
    m.normal_texture = Some(TextureHandle { id: 3 });
    let before = m;
    let sun = SunSignal { direction: vec3(0.0, -1.0, 0.0), color: rgba(1.0, 1.0, 0.9, 1.0) };
    let ambient = AmbientSignal { color: rgba(0.5, 0.5, 0.5, 1.0), brightness: 0.25f32.to_bits() };
    let mut materials = vec![m];
    update_mtoon_shader(&vec![sun], Some(ambient), &mut materials);
    let after = materials[0];
    assert_eq!(after.base_color, before.base_color);
    assert_eq!(after.shade_color, before.shade_color);
    assert_eq!(after.shading_shift_factor, before.shading_shift_factor);
    assert_eq!(after.shading_toony_factor, before.shading_toony_factor);
    assert_eq!(after.gl_equalization_factor, before.gl_equalization_factor);
    assert_eq!(after.base_color_texture, before.base_color_texture);
    assert_eq!(after.shade_color_texture, before.shade_color_texture);
    assert_eq!(after.normal_texture, before.normal_texture);
}

#[test]
fn shared_description_gives_every_surface_the_same_uniform() {
    // One description shared by many surfaces sits once in the table; a
    // single pass updates it once, and each surface reads the same uniform.
    let sun = SunSignal { direction: vec3(0.0, -1.0, 0.0), color: rgba(1.0, 0.9, 0.8, 1.0) };
    let ambient = AmbientSignal { color: rgba(0.5, 0.5, 0.5, 1.0), brightness: 0.5f32.to_bits() };
    let mut materials = vec![MtoonMaterial::default()];
    update_mtoon_shader(&vec![sun], Some(ambient), &mut materials);
    let shared = materials[0];
    let uploads: Vec<_> = (0..4).map(|_| shared.to_uniform()).collect();
    for u in &uploads {
        assert_eq!(*u, uploads[0]);
    }
    // A second pass with the same signals changes nothing.
    let once = materials.clone();
    update_mtoon_shader(&vec![sun], Some(ambient), &mut materials);
    assert_eq!(materials, once);
}

#[test]
fn empty_table_is_fine() {
    let mut materials: Vec<MtoonMaterial> = Vec::new();
    let sun = SunSignal { direction: vec3(0.0, -1.0, 0.0), color: rgba(1.0, 1.0, 1.0, 1.0) };
    update_mtoon_shader(&vec![sun], None, &mut materials);
    assert!(materials.is_empty());
}
