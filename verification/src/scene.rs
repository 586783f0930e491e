//! The scene: what is spawned once at startup, in which order and with which
//! parameters.
//!
//! Lengths, colour components, intensities and speeds are in thousandths.

use vstd::prelude::*;
use crate::camera::FlightMovement;

verus! {

/// A point or a direction in world space, in thousandths.
#[derive(Clone, Copy, Debug, PartialEq, Eq, Structural)]
pub struct Point {
    pub x: i32,
    pub y: i32,
    pub z: i32,
}

/// An opaque sRGB colour.
#[derive(Clone, Copy, Debug, PartialEq, Eq, Structural)]
#[allow(inconsistent_fields)]
pub enum Color {
    /// Components in thousandths of full intensity.
    Rgb { red: i32, green: i32, blue: i32 },
    /// Components in 255ths of full intensity, as a six-digit hexadecimal
    /// colour code gives them.
    Rgb8 { red: u8, green: u8, blue: u8 },
}

/// The surface of the cube.
#[derive(Clone, Copy, Debug, PartialEq, Eq)]
pub struct CubeMaterial {
    pub base_color: Color,
    /// In thousandths.
    pub metallic: i32,
    /// In thousandths.
    pub perceptual_roughness: i32,
    /// Path of the base colour texture, relative to the asset directory.
    pub base_color_texture: &'static str,
    pub flip_normal_map_y: bool,
}

/// What a spawned entity is.
#[derive(Clone, Copy, Debug, PartialEq, Eq, Structural)]
pub enum Kind {
    Plane,
    Cube,
    Light,
    Camera,
}

/// One entity to spawn.
#[derive(Clone, Copy, Debug, PartialEq, Eq)]
pub enum Spawn {
    /// A square ground plane at the origin, `size` along each side, of one
    /// colour.
    Plane { size: i32, color: Color },
    /// A cube with edges of length `size`, centred at `position`.
    Cube { size: i32, material: CubeMaterial, position: Point },
    /// A point light.
    Light { intensity: i32, shadows_enabled: bool, position: Point },
    /// A camera at `position`, turned to look at `target` with `up` upwards.
    /// `mouse_rotation` says whether the mouse turns it; `flight` holds the
    /// parameters with which the keys move it.
    Camera { position: Point, target: Point, up: Point, mouse_rotation: bool, flight: FlightMovement },
}

/// Why the scene could not be set up.
#[derive(Clone, Copy, Debug, PartialEq, Eq, Structural)]
pub enum SetupError {
    /// There is no primary window to show the scene in.
    NoPrimaryWindow,
}

impl Spawn {
    /// What this entity is.
    pub open spec fn spec_kind(self) -> Kind {
        match self {
            Spawn::Plane { .. } => Kind::Plane,
            Spawn::Cube { .. } => Kind::Cube,
            Spawn::Light { .. } => Kind::Light,
            Spawn::Camera { .. } => Kind::Camera,
        }
    }

    /// What this entity is.
    #[verifier::when_used_as_spec(spec_kind)]
    pub fn kind(self) -> (kind: Kind)
        ensures
            kind == self.spec_kind(),
    {
        match self {
            Spawn::Plane { .. } => Kind::Plane,
            Spawn::Cube { .. } => Kind::Cube,
            Spawn::Light { .. } => Kind::Light,
            Spawn::Camera { .. } => Kind::Camera,
        }
    }
}

/// The ground: a green plane, five units on a side.
pub open spec fn ground_plane() -> Spawn {
    Spawn::Plane { size: 5000, color: Color::Rgb { red: 300, green: 500, blue: 300 } }
}

/// The cube: one unit on a side, resting on the ground, pale cyan under its
/// texture, not metallic and rather smooth.
pub open spec fn textured_cube() -> Spawn {
    Spawn::Cube {
        size: 1000,
        material: CubeMaterial {
            base_color: Color::Rgb8 { red: 0xbb, green: 0xff, blue: 0xff },
            metallic: 0,
            perceptual_roughness: 200,
            base_color_texture: "imag.png",
            flip_normal_map_y: true,
        },
        position: Point { x: 0, y: 500, z: 0 },
    }
}

/// The light: 1500 units strong, casting shadows, above and beside the cube.
pub open spec fn point_light() -> Spawn {
    Spawn::Light {
        intensity: 1_500_000,
        shadows_enabled: true,
        position: Point { x: 4000, y: 8000, z: 4000 },
    }
}

/// The camera: at (-2, 2.5, 5), looking at the origin with the world's Y axis
/// up, turned by the mouse, flying four units a second and twice that with
/// the modifier.
pub open spec fn flying_camera() -> Spawn {
    Spawn::Camera {
        position: Point { x: -2000i32, y: 2500, z: 5000 },
        target: Point { x: 0, y: 0, z: 0 },
        up: Point { x: 0, y: 1000, z: 0 },
        mouse_rotation: true,
        flight: FlightMovement { speed: 4000, modifier: 2000 },
    }
}

/// The whole scene, in spawning order.
pub open spec fn initial_scene() -> Seq<Spawn> {
    seq![ground_plane(), textured_cube(), point_light(), flying_camera()]
}

/// How many entities of `kind` the scene holds.
pub open spec fn count_of(scene: Seq<Spawn>, kind: Kind) -> nat
    decreases scene.len(),
{
    if scene.len() == 0 {
        0
    } else {
        count_of(scene.drop_last(), kind) + if scene.last().spec_kind() == kind {
            1nat
        } else {
            0nat
        }
    }
}

/// Describes the scene to spawn at startup.
///
/// `primary_window` says whether the host has a primary window. Without one
/// nothing can be shown and setup fails; with one the result is the fixed
/// scene, the same on every call.
pub fn setup(primary_window: bool) -> (result: Result<Vec<Spawn>, SetupError>)
    ensures
        primary_window ==> result is Ok && result->Ok_0@ == initial_scene(),
        !primary_window ==> result == Err::<Vec<Spawn>, SetupError>(SetupError::NoPrimaryWindow),
{
    if !primary_window {
        return Err(SetupError::NoPrimaryWindow);
    }
    let mut scene: Vec<Spawn> = Vec::new();
    scene.push(Spawn::Plane { size: 5000, color: Color::Rgb { red: 300, green: 500, blue: 300 } });
    scene.push(
        Spawn::Cube {
            size: 1000,
            material: CubeMaterial {
                base_color: Color::Rgb8 { red: 0xbb, green: 0xff, blue: 0xff },
                metallic: 0,
                perceptual_roughness: 200,
                base_color_texture: "imag.png",
                flip_normal_map_y: true,
            },
            position: Point { x: 0, y: 500, z: 0 },
        },
    );
    scene.push(
        Spawn::Light {
            intensity: 1_500_000,
            shadows_enabled: true,
            position: Point { x: 4000, y: 8000, z: 4000 },
        },
    );
    scene.push(
        Spawn::Camera {
            position: Point { x: -2000, y: 2500, z: 5000 },
            target: Point { x: 0, y: 0, z: 0 },
            up: Point { x: 0, y: 1000, z: 0 },
            mouse_rotation: true,
            flight: FlightMovement { speed: 4000, modifier: 2000 },
        },
    );
    proof {
        assert(scene@ =~= initial_scene());
    }
    Ok(scene)
}

/// The scene holds four entities, exactly one of each kind.
pub proof fn lemma_one_of_each(kind: Kind)
    ensures
        initial_scene().len() == 4,
        count_of(initial_scene(), kind) == 1,
{
    let four = initial_scene();
    let three = four.drop_last();
    let two = three.drop_last();
    let one = two.drop_last();
    let none = one.drop_last();
    assert(four.last() == flying_camera() && three.last() == point_light());
    assert(two.last() == textured_cube() && one.last() == ground_plane());
    assert(count_of(none, kind) == 0);
    assert(count_of(one, kind) == count_of(none, kind) + if kind == Kind::Plane {
        1nat
    } else {
        0nat
    });
    assert(count_of(two, kind) == count_of(one, kind) + if kind == Kind::Cube {
        1nat
    } else {
        0nat
    });
    assert(count_of(three, kind) == count_of(two, kind) + if kind == Kind::Light {
        1nat
    } else {
        0nat
    });
    assert(count_of(four, kind) == count_of(three, kind) + if kind == Kind::Camera {
        1nat
    } else {
        0nat
    });
}

} // verus!
