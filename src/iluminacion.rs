//! Lights: point, directional and ambient emitters.

use vstd::prelude::*;
use crate::vector::{vescala, Vector3};

verus! {

#[derive(Clone, Copy, Debug, PartialEq, Eq, Structural)]
pub enum TipoLuz {
    /// Emits in every direction from `posicion`.
    Puntual,
    /// Comes from the direction stored in `posicion`, like the sun.
    Direccional,
    /// Lights every surface evenly.
    Ambiental,
}

/// A light; `intensidad` is its color already scaled by its strength.
#[derive(Clone, Copy, Debug, PartialEq, Eq, Structural)]
pub struct Luz {
    pub posicion: Vector3,
    pub intensidad: Vector3,
    pub tipo_luz: TipoLuz,
}

impl Luz {
    pub fn puntual(posicion: Vector3, color: Vector3, intensidad: i64) -> (r: Luz)
        ensures
            r == (Luz { posicion, intensidad: vescala(color, intensidad), tipo_luz: TipoLuz::Puntual }),
    {
        Luz { posicion, intensidad: color.escalar(intensidad), tipo_luz: TipoLuz::Puntual }
    }

    pub fn direccional(direccion: Vector3, color: Vector3, intensidad: i64) -> (r: Luz)
        ensures
            r == (Luz {
                posicion: direccion,
                intensidad: vescala(color, intensidad),
                tipo_luz: TipoLuz::Direccional,
            }),
    {
        Luz {
            posicion: direccion,
            intensidad: color.escalar(intensidad),
            tipo_luz: TipoLuz::Direccional,
        }
    }

    pub fn ambiental(color: Vector3, intensidad: i64) -> (r: Luz)
        ensures
            r == (Luz {
                posicion: Vector3 { x: 0, y: 0, z: 0 },
                intensidad: vescala(color, intensidad),
                tipo_luz: TipoLuz::Ambiental,
            }),
    {
        Luz {
            posicion: Vector3::cero(),
            intensidad: color.escalar(intensidad),
            tipo_luz: TipoLuz::Ambiental,
        }
    }
}

/// Where the sunset sun stands: 80 units from `(25, 0, 25)`, 40 degrees above
/// the horizon at an azimuth of 220 degrees.
pub const SOL_X: i64 = -21_945_927;
pub const SOL_Y: i64 = 51_423_009;
pub const SOL_Z: i64 = -14_392_310;

/// The sunset lights: a warm sun, a warm ambient fill and a soft light from
/// straight above.
pub open spec fn luces_atardecer() -> Seq<Luz> {
    seq![
        Luz {
            posicion: Vector3 { x: SOL_X, y: SOL_Y, z: SOL_Z },
            intensidad: vescala(Vector3 { x: 1_000_000, y: 650_000, z: 350_000 }, 1_200_000),
            tipo_luz: TipoLuz::Puntual,
        },
        Luz {
            posicion: Vector3 { x: 0, y: 0, z: 0 },
            intensidad: vescala(Vector3 { x: 1_000_000, y: 700_000, z: 400_000 }, 400_000),
            tipo_luz: TipoLuz::Ambiental,
        },
        Luz {
            posicion: Vector3 { x: 0, y: 60_000_000, z: 0 },
            intensidad: vescala(Vector3 { x: 800_000, y: 600_000, z: 400_000 }, 300_000),
            tipo_luz: TipoLuz::Puntual,
        },
    ]
}

/// The lights of the diorama, which are the sunset lights.
pub fn crear_iluminacion_diorama() -> (r: Vec<Luz>)
    ensures
        r@ == luces_atardecer(),
{
    crear_iluminacion_minecraft()
}

pub fn crear_iluminacion_minecraft() -> (r: Vec<Luz>)
    ensures
        r@ == luces_atardecer(),
{
    let mut luces: Vec<Luz> = Vec::new();
    luces.push(Luz::puntual(
        Vector3::new(SOL_X, SOL_Y, SOL_Z),
        Vector3::new(1_000_000, 650_000, 350_000),
        1_200_000,
    ));
    luces.push(Luz::ambiental(Vector3::new(1_000_000, 700_000, 400_000), 400_000));
    luces.push(Luz::puntual(
        Vector3::new(0, 60_000_000, 0),
        Vector3::new(800_000, 600_000, 400_000),
        300_000,
    ));
    assert(luces@ =~= luces_atardecer());
    luces
}

} // verus!
