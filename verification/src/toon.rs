//! The minimal shading model: a material description with a camera-derived
//! position field, its fixed-layout GPU uniform, and the per-frame
//! synchronization pass over a table of live descriptions.
use vstd::prelude::*;
use crate::color::Rgba;
use crate::color::TextureHandle;
use crate::color::Vec3Bits;
use crate::signals::AmbientSignal;
use crate::signals::CameraSignal;
use crate::signals::SunSignal;

verus! {

/// A material description of the minimal shading model. The sun, camera and
/// ambient fields are derived: the synchronization pass overwrites them each
/// frame from the scene signals. The base color and the texture are authored
/// and never touched by this core.
#[derive(Clone, Copy, Debug, PartialEq)]
pub struct ToonMaterial {
    pub color: Rgba,
    pub sun_dir: Vec3Bits,
    pub sun_color: Rgba,
    pub camera_pos: Vec3Bits,
    pub ambient_color: Rgba,
    pub base_color_texture: Option<TextureHandle>,
}

/// The GPU-visible record derived from a `ToonMaterial`. Field order and
/// count mirror the fragment program's uniform binding declaration and must
/// change only together with it.
#[derive(Clone, Copy, Debug, PartialEq, Eq, Structural)]
pub struct ToonMaterialUniform {
    pub color: Rgba,
    pub sun_dir: Vec3Bits,
    pub sun_color: Rgba,
    pub camera_pos: Vec3Bits,
    pub ambient_color: Rgba,
}

impl ToonMaterial {
    /// The default description: white base color, zero sun direction and
    /// color, zero camera position, identity (white) ambient, no texture.
    pub open spec fn default_spec() -> ToonMaterial {
        ToonMaterial {
            color: Rgba::white(),
            sun_dir: Vec3Bits::zero(),
            sun_color: Rgba::zero(),
            camera_pos: Vec3Bits::zero(),
            ambient_color: Rgba::white(),
            base_color_texture: None,
        }
    }

    /// The uniform derived from this description: every field the uniform
    /// carries, copied unchanged in the declared order.
    pub open spec fn uniform_spec(self) -> ToonMaterialUniform {
        ToonMaterialUniform {
            color: self.color,
            sun_dir: self.sun_dir,
            sun_color: self.sun_color,
            camera_pos: self.camera_pos,
            ambient_color: self.ambient_color,
        }
    }

    /// Derives the GPU uniform from this description. Pure and total: the
    /// result is exactly `uniform_spec` of the description.
    pub fn to_uniform(&self) -> (u: ToonMaterialUniform)
        ensures
            u == self.uniform_spec(),
    {
        ToonMaterialUniform {
            color: self.color,
            sun_dir: self.sun_dir,
            sun_color: self.sun_color,
            camera_pos: self.camera_pos,
            ambient_color: self.ambient_color,
        }
    }
}

impl Default for ToonMaterial {
    /// Builds the default description, exactly `default_spec`.
    fn default() -> (m: ToonMaterial)
        ensures
            m == ToonMaterial::default_spec(),
    {
        ToonMaterial {
            color: Rgba::opaque_white(),
            sun_dir: Vec3Bits::zeroed(),
            sun_color: Rgba::transparent_black(),
            camera_pos: Vec3Bits::zeroed(),
            ambient_color: Rgba::opaque_white(),
            base_color_texture: None,
        }
    }
}

/// True when the two descriptions agree on every authored field: the fields
/// the synchronization pass never writes.
pub open spec fn toon_authored_unchanged(a: ToonMaterial, b: ToonMaterial) -> bool {
    &&& a.color == b.color
    &&& a.base_color_texture == b.base_color_texture
}

/// One description after a synchronization pass that saw the given signals.
/// Exactly one camera writes the camera position; exactly one sun writes the
/// sun fields; an ambient setting writes its color verbatim, alpha untouched.
/// Zero or several cameras or suns, or no ambient setting, leave the
/// previous value in place.
pub open spec fn toon_synced(
    m: ToonMaterial,
    cameras: Seq<CameraSignal>,
    suns: Seq<SunSignal>,
    ambient: Option<AmbientSignal>,
) -> ToonMaterial {
    let viewed = if cameras.len() == 1 {
        ToonMaterial { camera_pos: cameras[0].position, ..m }
    } else {
        m
    };
    let lit = if suns.len() == 1 {
        ToonMaterial { sun_dir: suns[0].direction, sun_color: suns[0].color, ..viewed }
    } else {
        viewed
    };
    if ambient.is_some() {
        ToonMaterial { ambient_color: ambient.unwrap().color, ..lit }
    } else {
        lit
    }
}

/// Updates one description in place from the resolved signals: the camera
/// and the sun, if the scene had exactly one of each, and the ambient
/// setting, if present.
fn sync_material(
    m: &mut ToonMaterial,
    camera: Option<CameraSignal>,
    sun: Option<SunSignal>,
    ambient: Option<AmbientSignal>,
)
    ensures
        *final(m) == toon_synced(
            *old(m),
            if camera.is_some() {
                seq![camera.unwrap()]
            } else {
                Seq::<CameraSignal>::empty()
            },
            if sun.is_some() {
                seq![sun.unwrap()]
            } else {
                Seq::<SunSignal>::empty()
            },
            ambient,
        ),
{
    match camera {
        Some(c) => {
            m.camera_pos = c.position;
        },
        None => {},
    }
    match sun {
        Some(s) => {
            m.sun_dir = s.direction;
            m.sun_color = s.color;
        },
        None => {},
    }
    match ambient {
        Some(a) => {
            m.ambient_color = a.color;
        },
        None => {},
    }
}

/// The per-frame synchronization pass of the minimal model. Reads the scene
/// signals the host gathered this frame and writes the derived fields of
/// every live description in the table, each exactly once; authored fields
/// and the table's length are untouched. Zero or several cameras or suns, or
/// a missing ambient setting, skip that write and keep the previous value;
/// no input is an error.
pub fn update_toon_shader(
    cameras: &Vec<CameraSignal>,
    suns: &Vec<SunSignal>,
    ambient: Option<AmbientSignal>,
    materials: &mut Vec<ToonMaterial>,
)
    ensures
        final(materials)@.len() == old(materials)@.len(),
        forall|i: int|
            0 <= i < old(materials)@.len() ==> final(materials)@[i] == toon_synced(
                old(materials)@[i],
                cameras@,
                suns@,
                ambient,
            ),
        forall|i: int|
            0 <= i < old(materials)@.len() ==> toon_authored_unchanged(
                old(materials)@[i],
                final(materials)@[i],
            ),
        cameras@.len() == 1 ==> forall|i: int|
            0 <= i < old(materials)@.len() ==> final(materials)@[i].camera_pos == cameras@[0].position,
        cameras@.len() != 1 ==> forall|i: int|
            0 <= i < old(materials)@.len() ==> final(materials)@[i].camera_pos == old(
                materials,
            )@[i].camera_pos,
        suns@.len() == 1 ==> forall|i: int|
            0 <= i < old(materials)@.len() ==> final(materials)@[i].sun_dir == suns@[0].direction
                && final(materials)@[i].sun_color == suns@[0].color,
        suns@.len() != 1 ==> forall|i: int|
            0 <= i < old(materials)@.len() ==> final(materials)@[i].sun_dir == old(
                materials,
            )@[i].sun_dir && final(materials)@[i].sun_color == old(materials)@[i].sun_color,
        ambient.is_some() ==> forall|i: int|
            0 <= i < old(materials)@.len() ==> final(materials)@[i].ambient_color
                == ambient.unwrap().color,
        ambient.is_none() ==> forall|i: int|
            0 <= i < old(materials)@.len() ==> final(materials)@[i].ambient_color == old(
                materials,
            )@[i].ambient_color,
{
    let camera: Option<CameraSignal> = if cameras.len() == 1 {
        Some(cameras[0])
    } else {
        None
    };
    let sun: Option<SunSignal> = if suns.len() == 1 {
        Some(suns[0])
    } else {
        None
    };
    let ghost camera_seq: Seq<CameraSignal> = if camera.is_some() {
        seq![camera.unwrap()]
    } else {
        Seq::<CameraSignal>::empty()
    };
    let ghost sun_seq: Seq<SunSignal> = if sun.is_some() {
        seq![sun.unwrap()]
    } else {
        Seq::<SunSignal>::empty()
    };
    proof {
        assert forall|m: ToonMaterial| #[trigger] toon_synced(m, camera_seq, sun_seq, ambient)
            == toon_synced(m, cameras@, suns@, ambient) by {
            if cameras@.len() == 1 {
                assert(camera_seq =~= cameras@);
            }
            if suns@.len() == 1 {
                assert(sun_seq =~= suns@);
            }
        }
    }
    let mut i: usize = 0;
    while i < materials.len()
        invariant
            i <= materials@.len(),
            materials@.len() == old(materials)@.len(),
            camera.is_some() <==> cameras@.len() == 1,
            camera.is_some() ==> camera.unwrap() == cameras@[0],
            sun.is_some() <==> suns@.len() == 1,
            sun.is_some() ==> sun.unwrap() == suns@[0],
            forall|m: ToonMaterial| #[trigger] toon_synced(m, camera_seq, sun_seq, ambient)
                == toon_synced(m, cameras@, suns@, ambient),
            forall|j: int|
                0 <= j < i ==> materials@[j] == toon_synced(
                    old(materials)@[j],
                    cameras@,
                    suns@,
                    ambient,
                ),
            forall|j: int| i <= j < materials@.len() ==> materials@[j] == old(materials)@[j],
        decreases materials@.len() - i,
    {
        let mut m = materials[i];
        sync_material(&mut m, camera, sun, ambient);
        materials.set(i, m);
        i = i + 1;
    }
}

/// Deriving the uniform is pure: two conversions of one unmodified
/// description yield bit-identical uniforms.
pub proof fn lemma_toon_to_uniform_pure(
    m: ToonMaterial,
    u1: ToonMaterialUniform,
    u2: ToonMaterialUniform,
)
    requires
        u1 == m.uniform_spec(),
        u2 == m.uniform_spec(),
    ensures
        u1 == u2,
{
}

/// Synchronizing is idempotent for fixed signals: a description shared by
/// any number of surfaces is updated once per frame, not once per surface,
/// and a repeated pass would change nothing, so every surface that uploads
/// the shared description observes the same uniform.
pub proof fn lemma_toon_sync_idempotent(
    m: ToonMaterial,
    cameras: Seq<CameraSignal>,
    suns: Seq<SunSignal>,
    ambient: Option<AmbientSignal>,
)
    ensures
        toon_synced(toon_synced(m, cameras, suns, ambient), cameras, suns, ambient) == toon_synced(
            m,
            cameras,
            suns,
            ambient,
        ),
{
}

} // verus!
