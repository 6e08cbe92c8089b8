//! The fuller shading model: a material description with shade color,
//! shading factors and three texture slots, its fixed-layout GPU uniform,
//! and the per-frame synchronization pass over a table of live descriptions.
use vstd::prelude::*;
use crate::color::NINE_TENTHS_BITS;
use crate::color::Rgba;
use crate::color::TextureHandle;
use crate::color::Vec3Bits;
use crate::color::ZERO_BITS;
use crate::scale::scale_ambient_color;
use crate::scale::scaled_ambient;
use crate::signals::AmbientSignal;
use crate::signals::SunSignal;

verus! {

/// A material description of the fuller shading model. The light and ambient
/// fields are derived: the synchronization pass overwrites them each frame
/// from the scene signals. All other fields are authored and never touched
/// by this core. This model carries no camera-derived field, a known
/// asymmetry with the minimal model.
#[derive(Clone, Copy, Debug, PartialEq)]
pub struct MtoonMaterial {
    pub base_color: Rgba,
    pub shade_color: Rgba,
    pub ambient_color: Rgba,
    pub light_color: Rgba,
    pub light_dir: Vec3Bits,
    pub shading_shift_factor: u32,
    pub shading_toony_factor: u32,
    pub gl_equalization_factor: u32,
    pub base_color_texture: Option<TextureHandle>,
    pub shade_color_texture: Option<TextureHandle>,
    pub normal_texture: Option<TextureHandle>,
}

/// The GPU-visible record derived from an `MtoonMaterial`. Field order and
/// count mirror the fragment program's uniform binding declaration and must
/// change only together with it.
#[derive(Clone, Copy, Debug, PartialEq, Eq, Structural)]
pub struct MtoonMaterialUniform {
    pub base_color: Rgba,
    pub shade_color: Rgba,
    pub ambient_color: Rgba,
    pub light_color: Rgba,
    pub light_dir: Vec3Bits,
    pub shading_shift_factor: u32,
    pub shading_toony_factor: u32,
    pub gl_equalization_factor: u32,
}

impl MtoonMaterial {
    /// The default description: base white, shade black, ambient and light
    /// white, light direction the positive Y axis, shift zero, toony and
    /// equalization nine tenths, no textures.
    pub open spec fn default_spec() -> MtoonMaterial {
        MtoonMaterial {
            base_color: Rgba::white(),
            shade_color: Rgba::black(),
            ambient_color: Rgba::white(),
            light_color: Rgba::white(),
            light_dir: Vec3Bits::unit_y(),
            shading_shift_factor: ZERO_BITS,
            shading_toony_factor: NINE_TENTHS_BITS,
            gl_equalization_factor: NINE_TENTHS_BITS,
            base_color_texture: None,
            shade_color_texture: None,
            normal_texture: None,
        }
    }

    /// The uniform derived from this description: every field the uniform
    /// carries, copied unchanged in the declared order.
    pub open spec fn uniform_spec(self) -> MtoonMaterialUniform {
        MtoonMaterialUniform {
            base_color: self.base_color,
            shade_color: self.shade_color,
            ambient_color: self.ambient_color,
            light_color: self.light_color,
            light_dir: self.light_dir,
            shading_shift_factor: self.shading_shift_factor,
            shading_toony_factor: self.shading_toony_factor,
            gl_equalization_factor: self.gl_equalization_factor,
        }
    }

    /// Derives the GPU uniform from this description. Pure and total: the
    /// result is exactly `uniform_spec` of the description, so conversion
    /// may run every frame or be cached until the description changes.
    pub fn to_uniform(&self) -> (u: MtoonMaterialUniform)
        ensures
            u == self.uniform_spec(),
    {
        MtoonMaterialUniform {
            base_color: self.base_color,
            shade_color: self.shade_color,
            ambient_color: self.ambient_color,
            light_color: self.light_color,
            light_dir: self.light_dir,
            shading_shift_factor: self.shading_shift_factor,
            shading_toony_factor: self.shading_toony_factor,
            gl_equalization_factor: self.gl_equalization_factor,
        }
    }
}

impl Default for MtoonMaterial {
    /// Builds the default description, exactly `default_spec`.
    fn default() -> (m: MtoonMaterial)
        ensures
            m == MtoonMaterial::default_spec(),
    {
        MtoonMaterial {
            base_color: Rgba::opaque_white(),
            shade_color: Rgba::opaque_black(),
            ambient_color: Rgba::opaque_white(),
            light_color: Rgba::opaque_white(),
            light_dir: Vec3Bits::up(),
            shading_shift_factor: ZERO_BITS,
            shading_toony_factor: NINE_TENTHS_BITS,
            gl_equalization_factor: NINE_TENTHS_BITS,
            base_color_texture: None,
            shade_color_texture: None,
            normal_texture: None,
        }
    }
}

/// True when the two descriptions agree on every authored field: the fields
/// the synchronization pass never writes.
pub open spec fn mtoon_authored_unchanged(a: MtoonMaterial, b: MtoonMaterial) -> bool {
    &&& a.base_color == b.base_color
    &&& a.shade_color == b.shade_color
    &&& a.shading_shift_factor == b.shading_shift_factor
    &&& a.shading_toony_factor == b.shading_toony_factor
    &&& a.gl_equalization_factor == b.gl_equalization_factor
    &&& a.base_color_texture == b.base_color_texture
    &&& a.shade_color_texture == b.shade_color_texture
    &&& a.normal_texture == b.normal_texture
}

/// One description after a synchronization pass that saw the given signals.
/// Exactly one sun writes the light fields; an ambient setting writes the
/// ambient color with brightness premultiplied into alpha; zero or several
/// suns, or no ambient setting, leave the previous value in place.
pub open spec fn mtoon_synced(
    m: MtoonMaterial,
    suns: Seq<SunSignal>,
    ambient: Option<AmbientSignal>,
) -> MtoonMaterial {
    let lit = if suns.len() == 1 {
        MtoonMaterial { light_dir: suns[0].direction, light_color: suns[0].color, ..m }
    } else {
        m
    };
    if ambient.is_some() {
        MtoonMaterial {
            ambient_color: scaled_ambient(ambient.unwrap().color, ambient.unwrap().brightness),
            ..lit
        }
    } else {
        lit
    }
}

/// Updates one description in place from the resolved signals: the sun, if
/// the scene had exactly one, and the ambient setting, if present.
fn sync_material(m: &mut MtoonMaterial, sun: Option<SunSignal>, ambient: Option<AmbientSignal>)
    ensures
        sun.is_some() ==> *final(m) == mtoon_synced(*old(m), seq![sun.unwrap()], ambient),
        sun.is_none() ==> *final(m) == mtoon_synced(*old(m), Seq::<SunSignal>::empty(), ambient),
{
    match sun {
        Some(s) => {
            m.light_dir = s.direction;
            m.light_color = s.color;
        },
        None => {},
    }
    match ambient {
        Some(a) => {
            m.ambient_color = scale_ambient_color(a.color, a.brightness);
        },
        None => {},
    }
}

/// The per-frame synchronization pass of the fuller model. Reads the scene
/// signals the host gathered this frame and writes the derived fields of
/// every live description in the table, each exactly once; authored fields
/// and the table's length are untouched. Zero or several suns, or a missing
/// ambient setting, skip that write and keep the previous value; no input is
/// an error.
pub fn update_mtoon_shader(
    suns: &Vec<SunSignal>,
    ambient: Option<AmbientSignal>,
    materials: &mut Vec<MtoonMaterial>,
)
    ensures
        final(materials)@.len() == old(materials)@.len(),
        forall|i: int|
            0 <= i < old(materials)@.len() ==> final(materials)@[i] == mtoon_synced(
                old(materials)@[i],
                suns@,
                ambient,
            ),
        forall|i: int|
            0 <= i < old(materials)@.len() ==> mtoon_authored_unchanged(
                old(materials)@[i],
                final(materials)@[i],
            ),
        suns@.len() == 1 ==> forall|i: int|
            0 <= i < old(materials)@.len() ==> final(materials)@[i].light_dir == suns@[0].direction
                && final(materials)@[i].light_color == suns@[0].color,
        suns@.len() != 1 ==> forall|i: int|
            0 <= i < old(materials)@.len() ==> final(materials)@[i].light_dir == old(
                materials,
            )@[i].light_dir && final(materials)@[i].light_color == old(materials)@[i].light_color,
        ambient.is_some() ==> forall|i: int|
            0 <= i < old(materials)@.len() ==> final(materials)@[i].ambient_color == scaled_ambient(
                ambient.unwrap().color,
                ambient.unwrap().brightness,
            ),
        ambient.is_none() ==> forall|i: int|
            0 <= i < old(materials)@.len() ==> final(materials)@[i].ambient_color == old(
                materials,
            )@[i].ambient_color,
{
    let sun: Option<SunSignal> = if suns.len() == 1 {
        Some(suns[0])
    } else {
        None
    };
    let ghost sun_seq: Seq<SunSignal> = if sun.is_some() {
        seq![sun.unwrap()]
    } else {
        Seq::<SunSignal>::empty()
    };
    proof {
        assert forall|m: MtoonMaterial| #[trigger] mtoon_synced(m, sun_seq, ambient)
            == mtoon_synced(m, suns@, ambient) by {
            if suns@.len() == 1 {
                assert(sun_seq =~= suns@);
            }
        }
    }
    let mut i: usize = 0;
    while i < materials.len()
        invariant
            i <= materials@.len(),
            materials@.len() == old(materials)@.len(),
            sun.is_some() <==> suns@.len() == 1,
            sun.is_some() ==> sun.unwrap() == suns@[0],
            forall|m: MtoonMaterial| #[trigger] mtoon_synced(m, sun_seq, ambient)
                == mtoon_synced(m, suns@, ambient),
            forall|j: int|
                0 <= j < i ==> materials@[j] == mtoon_synced(old(materials)@[j], suns@, ambient),
            forall|j: int| i <= j < materials@.len() ==> materials@[j] == old(materials)@[j],
        decreases materials@.len() - i,
    {
        let mut m = materials[i];
        sync_material(&mut m, sun, ambient);
        materials.set(i, m);
        i = i + 1;
    }
}

/// Deriving the uniform is pure: two conversions of one unmodified
/// description yield bit-identical uniforms.
pub proof fn lemma_mtoon_to_uniform_pure(
    m: MtoonMaterial,
    u1: MtoonMaterialUniform,
    u2: MtoonMaterialUniform,
)
    requires
        u1 == m.uniform_spec(),
        u2 == m.uniform_spec(),
    ensures
        u1 == u2,
{
}

/// Synchronizing is idempotent for fixed signals: a description shared by
/// any number of surfaces is updated once per frame, not once per surface,
/// and a repeated pass would change nothing, so every surface that uploads
/// the shared description observes the same uniform.
pub proof fn lemma_mtoon_sync_idempotent(
    m: MtoonMaterial,
    suns: Seq<SunSignal>,
    ambient: Option<AmbientSignal>,
)
    ensures
        mtoon_synced(mtoon_synced(m, suns, ambient), suns, ambient) == mtoon_synced(
            m,
            suns,
            ambient,
        ),
{
}

} // verus!
