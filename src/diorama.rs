//! The diorama: a grass field with snowy mountains, a lake, trees and
//! flowers, lit by the sunset lights.

use vstd::prelude::*;
use crate::escalar::UNO;
use crate::escena::Escena;
use crate::geometria::{cubo_centrado, Cubo, Figura};
use crate::iluminacion::{crear_iluminacion_minecraft, luces_atardecer};
use crate::materiales::Material;
use crate::vector::Vector3;

verus! {

/// Blocks along each side of the grass field.
pub const LADO_TERRENO: i64 = 20;

/// Edge of a flower block.
pub const TAMANO_FLOR: i64 = 800_000;

/// Relies on rand's `thread_rng` and `Rng::gen_range`: a number drawn
/// uniformly from `0..limite`; `gen_range` panics only on an empty range.
#[verifier::external_body]
fn sortear(limite: u32) -> (r: u32)
    requires
        limite > 0,
    ensures
        r < limite,
{
    rand::Rng::gen_range(&mut rand::thread_rng(), 0..limite)
}

/// The point at grid coordinates `(x, y, z)`, in whole units.
pub open spec fn punto_rejilla(x: int, y: int, z: int) -> Vector3 {
    Vector3 { x: (x * UNO) as i64, y: (y * UNO) as i64, z: (z * UNO) as i64 }
}

/// The unit block of grass at column `(x, z)` of the field.
pub open spec fn bloque_pasto(x: int, z: int, pasto: Material) -> Figura {
    Figura::Cubo(cubo_centrado(punto_rejilla(x, 0, z), UNO, pasto))
}

/// Where the `k`-th flower stands, in grid columns.
pub open spec fn posicion_flor(k: int) -> (int, int) {
    if k == 0 {
        (3, 8)
    } else if k == 1 {
        (9, 4)
    } else if k == 2 {
        (13, 11)
    } else if k == 3 {
        (17, 7)
    } else if k == 4 {
        (20, 12)
    } else if k == 5 {
        (4, 18)
    } else if k == 6 {
        (8, 21)
    } else {
        (15, 19)
    }
}

/// `nuevos` keeps `viejos` as its beginning and adds only boxes.
pub open spec fn agrega_cubos(nuevos: Seq<Figura>, viejos: Seq<Figura>) -> bool {
    &&& nuevos.len() >= viejos.len()
    &&& forall|i: int| 0 <= i < viejos.len() ==> nuevos[i] == viejos[i]
    &&& forall|i: int| viejos.len() <= i < nuevos.len() ==> (#[trigger] nuevos[i] is Cubo)
}

fn agregar_cubo(escena: &mut Escena, centro: Vector3, tamano: i64, material: Material)
    ensures
        final(escena).objetos@ == old(escena).objetos@.push(
            Figura::Cubo(cubo_centrado(centro, tamano, material)),
        ),
        final(escena).luces@ == old(escena).luces@,
{
    escena.agregar_objeto(Figura::Cubo(Cubo::nuevo(centro, tamano, material)));
}

/// The grass field: block `(x, z)` at position `x * 20 + z`.
fn agregar_terreno(escena: &mut Escena)
    requires
        old(escena).objetos@.len() == 0,
    ensures
        final(escena).objetos@.len() == 400,
        agrega_cubos(final(escena).objetos@, old(escena).objetos@),
        forall|x: int, z: int|
            0 <= x < 20 && 0 <= z < 20 ==> final(escena).objetos@[x * 20 + z] == bloque_pasto(
                x,
                z,
                Material::pasto_texturizado_spec(),
            ),
        final(escena).luces@ == old(escena).luces@,
{
    let pasto = Material::pasto_texturizado();
    let mut x: i64 = 0;
    while x < LADO_TERRENO
        invariant
            0 <= x <= 20,
            pasto == Material::pasto_texturizado_spec(),
            escena.objetos@.len() == x * 20,
            agrega_cubos(escena.objetos@, old(escena).objetos@),
            forall|i: int, j: int|
                0 <= i < x && 0 <= j < 20 ==> escena.objetos@[i * 20 + j] == bloque_pasto(i, j, pasto),
            escena.luces@ == old(escena).luces@,
        decreases 20 - x,
    {
        let mut z: i64 = 0;
        while z < LADO_TERRENO
            invariant
                0 <= x < 20,
                0 <= z <= 20,
                escena.objetos@.len() == x * 20 + z,
                agrega_cubos(escena.objetos@, old(escena).objetos@),
                forall|i: int, j: int|
                    0 <= i < x && 0 <= j < 20 ==> escena.objetos@[i * 20 + j] == bloque_pasto(i, j, pasto),
                forall|j: int| 0 <= j < z ==> escena.objetos@[x * 20 + j] == bloque_pasto(x as int, j, pasto),
                escena.luces@ == old(escena).luces@,
            decreases 20 - z,
        {
            agregar_cubo(escena, Vector3::new(x * UNO, 0, z * UNO), UNO, pasto);
            z = z + 1;
        }
        x = x + 1;
    }
}

/// Column `v` kept on the field.
fn dentro_del_terreno(v: i64) -> (r: i64)
    requires
        -10 <= v <= 100,
    ensures
        0 <= r < LADO_TERRENO,
        r == if v < 0 { 0 } else if v > 19 { 19 } else { v },
{
    if v < 0 {
        0
    } else if v > LADO_TERRENO - 1 {
        LADO_TERRENO - 1
    } else {
        v
    }
}

/// Twelve mountains of three-by-three columns, snow on their top two layers.
fn agregar_montanas(escena: &mut Escena)
    ensures
        agrega_cubos(final(escena).objetos@, old(escena).objetos@),
        final(escena).luces@ == old(escena).luces@,
{
    let montanas: [(i64, i64, i64); 12] = [
        (2, 2, 8),
        (3, 2, 6),
        (4, 2, 7),
        (15, 2, 9),
        (16, 2, 7),
        (17, 2, 8),
        (2, 15, 6),
        (3, 16, 8),
        (4, 17, 7),
        (15, 15, 10),
        (16, 16, 8),
        (17, 17, 9),
    ];
    assert(forall|i: int|
        0 <= i < 12 ==> 0 <= (#[trigger] montanas@[i]).0 < 20 && 0 <= montanas@[i].1 < 20 && 1
            <= montanas@[i].2 <= 10);
    let nieve = Material::nuevo(Vector3::new(900_000, 900_000, 900_000), 0, 0, UNO, 900_000, 0);
    let tierra = Material::dirt_texturizado();
    let mut k: usize = 0;
    while k < 12
        invariant
            k <= 12,
            forall|i: int|
                0 <= i < 12 ==> 0 <= (#[trigger] montanas@[i]).0 < 20 && 0 <= montanas@[i].1 < 20
                    && 1 <= montanas@[i].2 <= 10,
            agrega_cubos(escena.objetos@, old(escena).objetos@),
            escena.luces@ == old(escena).luces@,
        decreases 12 - k,
    {
        let (mx, mz, altura) = montanas[k];
        let mut dx: i64 = -1;
        while dx <= 1
            invariant
                -1 <= dx <= 2,
                0 <= mx < 20,
                0 <= mz < 20,
                1 <= altura <= 10,
                agrega_cubos(escena.objetos@, old(escena).objetos@),
                escena.luces@ == old(escena).luces@,
            decreases 2 - dx,
        {
            let mut dz: i64 = -1;
            while dz <= 1
                invariant
                    -1 <= dx <= 1,
                    -1 <= dz <= 2,
                    0 <= mx < 20,
                    0 <= mz < 20,
                    1 <= altura <= 10,
                    agrega_cubos(escena.objetos@, old(escena).objetos@),
                    escena.luces@ == old(escena).luces@,
                decreases 2 - dz,
            {
                let x: i64 = dentro_del_terreno(mx + dx);
                let z: i64 = dentro_del_terreno(mz + dz);
                let mut y: i64 = 1;
                while y <= altura
                    invariant
                        1 <= y <= altura + 1,
                        1 <= altura <= 10,
                        0 <= x < 20,
                        0 <= z < 20,
                        agrega_cubos(escena.objetos@, old(escena).objetos@),
                        escena.luces@ == old(escena).luces@,
                    decreases altura + 1 - y,
                {
                    let material = if y > altura - 2 {
                        nieve
                    } else {
                        tierra
                    };
                    agregar_cubo(escena, Vector3::new(x * UNO, y * UNO, z * UNO), UNO, material);
                    y = y + 1;
                }
                dz = dz + 1;
            }
            dx = dx + 1;
        }
        k = k + 1;
    }
}

/// A six-by-six lake of water blocks half a unit above the field.
fn agregar_lago(escena: &mut Escena)
    ensures
        agrega_cubos(final(escena).objetos@, old(escena).objetos@),
        final(escena).luces@ == old(escena).luces@,
{
    let agua = Material::agua_texturizada();
    let mut x: i64 = 8;
    while x < 14
        invariant
            8 <= x <= 14,
            agrega_cubos(escena.objetos@, old(escena).objetos@),
            escena.luces@ == old(escena).luces@,
        decreases 14 - x,
    {
        let mut z: i64 = 8;
        while z < 14
            invariant
                8 <= x < 14,
                8 <= z <= 14,
                agrega_cubos(escena.objetos@, old(escena).objetos@),
                escena.luces@ == old(escena).luces@,
            decreases 14 - z,
        {
            agregar_cubo(escena, Vector3::new(x * UNO, 500_000, z * UNO), UNO, agua);
            z = z + 1;
        }
        x = x + 1;
    }
}

/// Six trees: a trunk six blocks high under a stepped pyramid of leaves.
fn agregar_arboles(escena: &mut Escena)
    ensures
        agrega_cubos(final(escena).objetos@, old(escena).objetos@),
        final(escena).luces@ == old(escena).luces@,
{
    let arboles: [(i64, i64); 6] = [(5, 5), (7, 16), (14, 4), (16, 12), (4, 10), (12, 15)];
    assert(forall|i: int| 0 <= i < 6 ==> 0 <= (#[trigger] arboles@[i]).0 < 20 && 0 <= arboles@[i].1 < 20);
    let tronco = Material::nuevo(Vector3::new(400_000, 200_000, 100_000), 0, 0, UNO, 900_000, 0);
    let copa = Material::nuevo(Vector3::new(100_000, 600_000, 100_000), 0, 0, UNO, 900_000, 0);
    let mut k: usize = 0;
    while k < 6
        invariant
            k <= 6,
            forall|i: int| 0 <= i < 6 ==> 0 <= (#[trigger] arboles@[i]).0 < 20 && 0 <= arboles@[i].1 < 20,
            agrega_cubos(escena.objetos@, old(escena).objetos@),
            escena.luces@ == old(escena).luces@,
        decreases 6 - k,
    {
        let (x, z) = arboles[k];
        let mut y: i64 = 1;
        while y <= 6
            invariant
                1 <= y <= 7,
                0 <= x < 20,
                0 <= z < 20,
                agrega_cubos(escena.objetos@, old(escena).objetos@),
                escena.luces@ == old(escena).luces@,
            decreases 7 - y,
        {
            agregar_cubo(escena, Vector3::new(x * UNO, y * UNO, z * UNO), UNO, tronco);
            y = y + 1;
        }
        let mut dx: i64 = -2;
        while dx <= 2
            invariant
                -2 <= dx <= 3,
                0 <= x < 20,
                0 <= z < 20,
                agrega_cubos(escena.objetos@, old(escena).objetos@),
                escena.luces@ == old(escena).luces@,
            decreases 3 - dx,
        {
            let mut dz: i64 = -2;
            while dz <= 2
                invariant
                    -2 <= dx <= 2,
                    -2 <= dz <= 3,
                    0 <= x < 20,
                    0 <= z < 20,
                    agrega_cubos(escena.objetos@, old(escena).objetos@),
                    escena.luces@ == old(escena).luces@,
                decreases 3 - dz,
            {
                let mut dy: i64 = 0;
                while dy <= 3
                    invariant
                        -2 <= dx <= 2,
                        -2 <= dz <= 2,
                        0 <= dy <= 4,
                        0 <= x < 20,
                        0 <= z < 20,
                        agrega_cubos(escena.objetos@, old(escena).objetos@),
                        escena.luces@ == old(escena).luces@,
                    decreases 4 - dy,
                {
                    let adx: i64 = if dx < 0 {
                        -dx
                    } else {
                        dx
                    };
                    let adz: i64 = if dz < 0 {
                        -dz
                    } else {
                        dz
                    };
                    if adx + adz + dy <= 4 {
                        agregar_cubo(
                            escena,
                            Vector3::new((x + dx) * UNO, (7 + dy) * UNO, (z + dz) * UNO),
                            UNO,
                            copa,
                        );
                    }
                    dy = dy + 1;
                }
                dz = dz + 1;
            }
            dx = dx + 1;
        }
        k = k + 1;
    }
}

/// `f` is the flower block of the `k`-th flower, whatever its color.
pub open spec fn es_flor(f: Figura, k: int) -> bool {
    match f {
        Figura::Cubo(c) => c == cubo_centrado(
            punto_rejilla(posicion_flor(k).0, 1, posicion_flor(k).1),
            TAMANO_FLOR,
            c.material,
        ),
        _ => false,
    }
}

/// Eight flowers, each of a color drawn at random among four.
fn agregar_flores(escena: &mut Escena)
    ensures
        final(escena).objetos@.len() == old(escena).objetos@.len() + 8,
        agrega_cubos(final(escena).objetos@, old(escena).objetos@),
        forall|k: int| 0 <= k < 8 ==> es_flor(#[trigger] final(escena).objetos@[old(escena).objetos@.len() + k], k),
        final(escena).luces@ == old(escena).luces@,
{
    let flores: [(i64, i64); 8] = [(3, 8), (9, 4), (13, 11), (17, 7), (20, 12), (4, 18), (8, 21), (15, 19)];
    assert(forall|i: int| 0 <= i < 8 ==> (#[trigger] flores@[i]).0 == posicion_flor(i).0 && flores@[i].1 == posicion_flor(i).1);
    let n0: Ghost<int> = Ghost(escena.objetos@.len() as int);
    let mut k: usize = 0;
    while k < 8
        invariant
            k <= 8,
            n0@ == old(escena).objetos@.len(),
            forall|i: int| 0 <= i < 8 ==> (#[trigger] flores@[i]).0 == posicion_flor(i).0 && flores@[i].1 == posicion_flor(i).1,
            escena.objetos@.len() == n0@ + k,
            agrega_cubos(escena.objetos@, old(escena).objetos@),
            forall|j: int| 0 <= j < k ==> es_flor(#[trigger] escena.objetos@[n0@ + j], j),
            escena.luces@ == old(escena).luces@,
        decreases 8 - k,
    {
        let (x, z) = flores[k];
        let material = match sortear(4) {
            0 => Material::flor_roja(),
            1 => Material::flor_amarilla(),
            2 => Material::flor_azul(),
            _ => Material::flor_rosa(),
        };
        agregar_cubo(escena, Vector3::new(x * UNO, UNO, z * UNO), TAMANO_FLOR, material);
        assert(es_flor(escena.objetos@[n0@ + k], k as int));
        k = k + 1;
    }
}

/// The diorama scene. The random choice is the color of each flower.
pub fn crear_diorama() -> (r: Escena)
    ensures
        r.luces@ == luces_atardecer(),
        r.objetos@.len() >= 408,
        forall|x: int, z: int|
            0 <= x < 20 && 0 <= z < 20 ==> r.objetos@[x * 20 + z] == bloque_pasto(
                x,
                z,
                Material::pasto_texturizado_spec(),
            ),
        forall|i: int| 0 <= i < r.objetos@.len() ==> (#[trigger] r.objetos@[i]) is Cubo,
        forall|k: int| 0 <= k < 8 ==> es_flor(#[trigger] r.objetos@[r.objetos@.len() - 8 + k], k),
{
    let mut escena = Escena::nueva();
    agregar_terreno(&mut escena);
    let terreno: Ghost<Seq<Figura>> = Ghost(escena.objetos@);
    agregar_montanas(&mut escena);
    agregar_lago(&mut escena);
    agregar_arboles(&mut escena);
    let antes_flores: Ghost<Seq<Figura>> = Ghost(escena.objetos@);
    agregar_flores(&mut escena);
    assert forall|i: int| 0 <= i < 400 implies escena.objetos@[i] == terreno@[i] by {}
    assert forall|i: int| 0 <= i < escena.objetos@.len() implies (#[trigger] escena.objetos@[i]) is Cubo by {
        if i < 400 {
            assert(terreno@[i] is Cubo);
        }
    }
    let objetos: Ghost<Seq<Figura>> = Ghost(escena.objetos@);
    let luces = crear_iluminacion_minecraft();
    let mut i: usize = 0;
    while i < luces.len()
        invariant
            i <= luces@.len(),
            luces@ == luces_atardecer(),
            escena.luces@ == luces@.subrange(0, i as int),
            escena.objetos@ == objetos@,
        decreases luces@.len() - i,
    {
        escena.agregar_luz(luces[i]);
        assert(escena.luces@ =~= luces@.subrange(0, i + 1));
        i = i + 1;
    }
    assert(escena.luces@ =~= luces@);
    escena
}

} // verus!
