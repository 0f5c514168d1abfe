//! Two block worlds: a small ring world of textured boxes three units apart,
//! and a landscape of unit blocks over a height map.

use vstd::prelude::*;
use crate::diorama::agrega_cubos;
use crate::escalar::UNO;
use crate::escena::Escena;
use crate::geometria::{Cubo, Figura};
use crate::iluminacion::{crear_iluminacion_minecraft, luces_atardecer, Luz};
use crate::materiales::Material;
use crate::vector::{vescala, Vector3};

verus! {

/// Columns along each side of the ring world.
pub const LADO_MUNDO: i64 = 10;

/// Distance between neighbouring columns of the ring world.
pub const SEPARACION: i64 = 3_000_000;

/// Columns along each side of the landscape.
pub const LADO_PAISAJE: usize = 40;

/// Squared distance, in columns, from column `(x, z)` to the middle of the
/// ring world.
pub open spec fn distancia2_centro(x: int, z: int) -> int {
    (x - 5) * (x - 5) + (z - 5) * (z - 5)
}

/// Where column `x` of the ring world lies, in raw units.
pub open spec fn posicion_mundo(x: int) -> int {
    (x - 5) * SEPARACION
}

/// The slab under column `(x, z)` of the ring world: grass near the middle,
/// then dirt, then stone.
pub open spec fn losa(x: int, z: int, pasto: Material, tierra: Material, piedra: Material) -> Figura {
    let s = distancia2_centro(x, z);
    let px = posicion_mundo(x);
    let pz = posicion_mundo(z);
    Figura::Cubo(
        Cubo {
            minimo: Vector3 { x: (px - UNO) as i64, y: -UNO as i64, z: (pz - UNO) as i64 },
            maximo: Vector3 { x: (px + UNO) as i64, y: 0, z: (pz + UNO) as i64 },
            material: if s < 4 {
                pasto
            } else if s <= 12 {
                tierra
            } else {
                piedra
            },
        },
    )
}

/// The two white lights of the ring world.
pub open spec fn luces_mundo() -> Seq<Luz> {
    seq![
        Luz {
            posicion: Vector3 { x: 50_000_000, y: 80_000_000, z: 50_000_000 },
            intensidad: vescala(Vector3 { x: UNO, y: UNO, z: UNO }, 200_000_000),
            tipo_luz: crate::iluminacion::TipoLuz::Puntual,
        },
        Luz {
            posicion: Vector3 { x: -50_000_000i64, y: 60_000_000, z: -50_000_000i64 },
            intensidad: vescala(Vector3 { x: 800_000, y: 900_000, z: UNO }, 150_000_000),
            tipo_luz: crate::iluminacion::TipoLuz::Puntual,
        },
    ]
}

fn agregar_caja(escena: &mut Escena, minimo: Vector3, maximo: Vector3, material: Material)
    ensures
        final(escena).objetos@ == old(escena).objetos@.push(Figura::Cubo(Cubo { minimo, maximo, material })),
        final(escena).luces@ == old(escena).luces@,
{
    escena.agregar_objeto(Figura::Cubo(Cubo::con_limites(minimo, maximo, material)));
}

/// A box of the ring world around column position `(px, pz)`, `medio` to
/// each side and from `y0` up to `y1`.
fn agregar_columna(escena: &mut Escena, px: i64, pz: i64, medio: i64, y0: i64, y1: i64, material: Material)
    requires
        -20 * UNO <= px <= 20 * UNO,
        -20 * UNO <= pz <= 20 * UNO,
        0 <= medio <= UNO,
    ensures
        agrega_cubos(final(escena).objetos@, old(escena).objetos@),
        final(escena).objetos@.len() == old(escena).objetos@.len() + 1,
        final(escena).luces@ == old(escena).luces@,
{
    agregar_caja(escena, Vector3::new(px - medio, y0, pz - medio), Vector3::new(px + medio, y1, pz + medio), material);
}

fn distancia2_exec(x: i64, z: i64) -> (r: i64)
    requires
        0 <= x < 10,
        0 <= z < 10,
    ensures
        r == distancia2_centro(x as int, z as int),
        0 <= r <= 50,
{
    assert(0 <= (x - 5) * (x - 5) <= 25) by (nonlinear_arith)
        requires
            0 <= x < 10,
    ;
    assert(0 <= (z - 5) * (z - 5) <= 25) by (nonlinear_arith)
        requires
            0 <= z < 10,
    ;
    (x - 5) * (x - 5) + (z - 5) * (z - 5)
}

/// The ring world: a ground of ten by ten slabs, a ring of stone mountains,
/// dirt hills inside it, a central lake, lakes further out, oak trees, and
/// ore deposits for columns far from the middle.
pub fn crear_escena_minecraft_masiva() -> (r: Escena)
    ensures
        r.luces@ == luces_mundo(),
        r.objetos@.len() >= 100,
        forall|x: int, z: int|
            0 <= x < 10 && 0 <= z < 10 ==> r.objetos@[x * 10 + z] == losa(
                x,
                z,
                Material::grass_top_texturizado_spec(),
                Material::dirt_texturizado_spec(),
                Material::stone_texturizado_spec(),
            ),
        forall|i: int| 0 <= i < r.objetos@.len() ==> (#[trigger] r.objetos@[i]) is Cubo,
{
    let mut escena = Escena::nueva();
    let pasto = Material::grass_top_texturizado();
    let tierra = Material::dirt_texturizado();
    let piedra = Material::stone_texturizado();
    let mut x: i64 = 0;
    while x < LADO_MUNDO
        invariant
            0 <= x <= 10,
            pasto == Material::grass_top_texturizado_spec(),
            tierra == Material::dirt_texturizado_spec(),
            piedra == Material::stone_texturizado_spec(),
            escena.objetos@.len() == x * 10,
            agrega_cubos(escena.objetos@, Seq::<Figura>::empty()),
            forall|i: int, j: int|
                0 <= i < x && 0 <= j < 10 ==> escena.objetos@[i * 10 + j] == losa(i, j, pasto, tierra, piedra),
            escena.luces@.len() == 0,
        decreases 10 - x,
    {
        let mut z: i64 = 0;
        while z < LADO_MUNDO
            invariant
                0 <= x < 10,
                0 <= z <= 10,
                escena.objetos@.len() == x * 10 + z,
                agrega_cubos(escena.objetos@, Seq::<Figura>::empty()),
                forall|i: int, j: int|
                    0 <= i < x && 0 <= j < 10 ==> escena.objetos@[i * 10 + j] == losa(i, j, pasto, tierra, piedra),
                forall|j: int| 0 <= j < z ==> escena.objetos@[x * 10 + j] == losa(x as int, j, pasto, tierra, piedra),
                escena.luces@.len() == 0,
            decreases 10 - z,
        {
            let s: i64 = distancia2_exec(x, z);
            let px: i64 = (x - 5) * SEPARACION;
            let pz: i64 = (z - 5) * SEPARACION;
            let material = if s < 4 {
                pasto
            } else if s <= 12 {
                tierra
            } else {
                piedra
            };
            agregar_caja(&mut escena, Vector3::new(px - UNO, -UNO, pz - UNO), Vector3::new(px + UNO, 0, pz + UNO), material);
            z = z + 1;
        }
        x = x + 1;
    }
    let suelo: Ghost<Seq<Figura>> = Ghost(escena.objetos@);
    agregar_relieve(&mut escena);
    agregar_lagos(&mut escena);
    agregar_arboles_y_minerales(&mut escena);
    assert forall|i: int| 0 <= i < 100 implies escena.objetos@[i] == suelo@[i] by {}
    assert forall|i: int| 0 <= i < escena.objetos@.len() implies (#[trigger] escena.objetos@[i]) is Cubo by {
        if i < 100 {
            assert(suelo@[i] is Cubo);
        }
    }
    escena.agregar_luz(Luz::puntual(
        Vector3::new(50_000_000, 80_000_000, 50_000_000),
        Vector3::new(UNO, UNO, UNO),
        200_000_000,
    ));
    escena.agregar_luz(Luz::puntual(
        Vector3::new(-50_000_000, 60_000_000, -50_000_000),
        Vector3::new(800_000, 900_000, UNO),
        150_000_000,
    ));
    assert(escena.luces@ =~= luces_mundo());
    escena
}

/// Stone mountains on the ring between distances four and six, their height
/// and stone kind set by the column; dirt hills on every other column
/// between distances three and four.
fn agregar_relieve(escena: &mut Escena)
    ensures
        agrega_cubos(final(escena).objetos@, old(escena).objetos@),
        final(escena).luces@ == old(escena).luces@,
{
    let piedra = Material::stone_texturizado();
    let adoquin = Material::cobblestone_texturizado();
    let grava = Material::gravel_texturizado();
    let tierra = Material::dirt_texturizado();
    let mut x: i64 = 0;
    while x < LADO_MUNDO
        invariant
            0 <= x <= 10,
            agrega_cubos(escena.objetos@, old(escena).objetos@),
            escena.luces@ == old(escena).luces@,
        decreases 10 - x,
    {
        let mut z: i64 = 0;
        while z < LADO_MUNDO
            invariant
                0 <= x < 10,
                0 <= z <= 10,
                agrega_cubos(escena.objetos@, old(escena).objetos@),
                escena.luces@ == old(escena).luces@,
            decreases 10 - z,
        {
            let s: i64 = distancia2_exec(x, z);
            let px: i64 = (x - 5) * SEPARACION;
            let pz: i64 = (z - 5) * SEPARACION;
            if s > 16 && s < 36 {
                let altura: i64 = (4 * UNO + (x + z) * 200_000) % (8 * UNO) + 3 * UNO;
                let material = if (x + z) % 3 == 0 {
                    piedra
                } else if (x + z) % 3 == 1 {
                    adoquin
                } else {
                    grava
                };
                agregar_columna(escena, px, pz, UNO, 0, altura, material);
            }
            if s > 9 && s < 16 && (x + z) % 2 == 0 {
                assert(0 <= x * z <= 81) by (nonlinear_arith)
                    requires
                        0 <= x < 10,
                        0 <= z < 10,
                ;
                let altura: i64 = (2 * UNO + (x * z) * 50_000) % (4 * UNO) + 1_500_000;
                agregar_columna(escena, px, pz, UNO, 0, altura, tierra);
            }
            z = z + 1;
        }
        x = x + 1;
    }
}

/// Whether column `(x, z)` lies within a lake centered at `(cx, cz)` with
/// twice its radius `diametro`, all in whole units.
fn dentro_de_lago(x: i64, z: i64, cx: i64, cz: i64, diametro: i64) -> (r: bool)
    requires
        0 <= x < 10,
        0 <= z < 10,
        -100 <= cx <= 100,
        -100 <= cz <= 100,
        0 <= diametro <= 100,
    ensures
        r == (4 * ((3 * (x - 5) - cx) * (3 * (x - 5) - cx) + (3 * (z - 5) - cz) * (3 * (z - 5) - cz))
            < diametro * diametro),
{
    let dx: i64 = 3 * (x - 5) - cx;
    let dz: i64 = 3 * (z - 5) - cz;
    assert(0 <= dx * dx <= 40000 && 0 <= dz * dz <= 40000 && diametro * diametro <= 10000) by (nonlinear_arith)
        requires
            -200 <= dx <= 200,
            -200 <= dz <= 200,
            0 <= diametro <= 100,
    ;
    4 * (dx * dx + dz * dz) < diametro * diametro
}

/// The central lake, within distance one and a half of the middle, and four
/// lakes further out.
fn agregar_lagos(escena: &mut Escena)
    ensures
        agrega_cubos(final(escena).objetos@, old(escena).objetos@),
        final(escena).luces@ == old(escena).luces@,
{
    let agua = Material::water_texturizado();
    let mut x: i64 = 0;
    while x < LADO_MUNDO
        invariant
            0 <= x <= 10,
            agrega_cubos(escena.objetos@, old(escena).objetos@),
            escena.luces@ == old(escena).luces@,
        decreases 10 - x,
    {
        let mut z: i64 = 0;
        while z < LADO_MUNDO
            invariant
                0 <= x < 10,
                0 <= z <= 10,
                agrega_cubos(escena.objetos@, old(escena).objetos@),
                escena.luces@ == old(escena).luces@,
            decreases 10 - z,
        {
            if 4 * distancia2_exec(x, z) < 9 {
                agregar_columna(escena, (x - 5) * SEPARACION, (z - 5) * SEPARACION, UNO, 0, 1_200_000, agua);
            }
            z = z + 1;
        }
        x = x + 1;
    }
    let lagos: [(i64, i64, i64); 4] = [(20, 20, 8), (-25, 15, 6), (15, -30, 7), (-20, -20, 8)];
    assert(forall|i: int|
        0 <= i < 4 ==> -100 <= (#[trigger] lagos@[i]).0 <= 100 && -100 <= lagos@[i].1 <= 100 && 0
            <= lagos@[i].2 <= 100);
    let agua_clara = Material::agua_texturizada();
    let mut k: usize = 0;
    while k < 4
        invariant
            k <= 4,
            forall|i: int|
                0 <= i < 4 ==> -100 <= (#[trigger] lagos@[i]).0 <= 100 && -100 <= lagos@[i].1 <= 100
                    && 0 <= lagos@[i].2 <= 100,
            agrega_cubos(escena.objetos@, old(escena).objetos@),
            escena.luces@ == old(escena).luces@,
        decreases 4 - k,
    {
        let (cx, cz, diametro) = lagos[k];
        let mut x: i64 = 0;
        while x < LADO_MUNDO
            invariant
                0 <= x <= 10,
                -100 <= cx <= 100,
                -100 <= cz <= 100,
                0 <= diametro <= 100,
                agrega_cubos(escena.objetos@, old(escena).objetos@),
                escena.luces@ == old(escena).luces@,
            decreases 10 - x,
        {
            let mut z: i64 = 0;
            while z < LADO_MUNDO
                invariant
                    0 <= x < 10,
                    0 <= z <= 10,
                    -100 <= cx <= 100,
                    -100 <= cz <= 100,
                    0 <= diametro <= 100,
                    agrega_cubos(escena.objetos@, old(escena).objetos@),
                    escena.luces@ == old(escena).luces@,
                decreases 10 - z,
            {
                if dentro_de_lago(x, z, cx, cz, diametro) {
                    agregar_columna(escena, (x - 5) * SEPARACION, (z - 5) * SEPARACION, UNO, 0, 600_000, agua_clara);
                }
                z = z + 1;
            }
            x = x + 1;
        }
        k = k + 1;
    }
}

/// Five oak trees on the columns `((i + 2) mod 10, (i + 3) mod 10)` that lie
/// between distances two and three and a half; coal and iron deposits on
/// columns between distances thirty and forty-two, and thirty-five and
/// forty-three.
fn agregar_arboles_y_minerales(escena: &mut Escena)
    ensures
        agrega_cubos(final(escena).objetos@, old(escena).objetos@),
        final(escena).luces@ == old(escena).luces@,
{
    let tronco = Material::oak_log_texturizado();
    let hojas = Material::oak_leaves_texturizado();
    let mut i: i64 = 0;
    while i < 5
        invariant
            0 <= i <= 5,
            agrega_cubos(escena.objetos@, old(escena).objetos@),
            escena.luces@ == old(escena).luces@,
        decreases 5 - i,
    {
        let x: i64 = (i + 2) % LADO_MUNDO;
        let z: i64 = (i + 3) % LADO_MUNDO;
        let s: i64 = distancia2_exec(x, z);
        if s > 4 && s <= 12 {
            let px: i64 = (x - 5) * SEPARACION;
            let pz: i64 = (z - 5) * SEPARACION;
            agregar_columna(escena, px, pz, 300_000, 0, 3 * UNO, tronco);
            agregar_columna(escena, px, pz, UNO, 2_500_000, 4 * UNO, hojas);
        }
        i = i + 1;
    }
    let carbon = Material::coal_ore_texturizado();
    let mut i: i64 = 0;
    while i < 80
        invariant
            0 <= i <= 80,
            agrega_cubos(escena.objetos@, old(escena).objetos@),
            escena.luces@ == old(escena).luces@,
        decreases 80 - i,
    {
        let x: i64 = (i * 13 + 40) % LADO_MUNDO;
        let z: i64 = (i * 17 + 35) % LADO_MUNDO;
        let s: i64 = distancia2_exec(x, z);
        if s > 900 && s < 1764 {
            agregar_columna(escena, (x - 5) * SEPARACION, (z - 5) * SEPARACION, 500_000, 0, 1_500_000, carbon);
        }
        i = i + 1;
    }
    let hierro = Material::iron_ore_texturizado();
    let mut i: i64 = 0;
    while i < 50
        invariant
            0 <= i <= 50,
            agrega_cubos(escena.objetos@, old(escena).objetos@),
            escena.luces@ == old(escena).luces@,
        decreases 50 - i,
    {
        let x: i64 = (i * 19 + 20) % LADO_MUNDO;
        let z: i64 = (i * 23 + 45) % LADO_MUNDO;
        let s: i64 = distancia2_exec(x, z);
        if s > 1225 && s < 1849 {
            agregar_columna(escena, (x - 5) * SEPARACION, (z - 5) * SEPARACION, 400_000, 0, 2 * UNO, hierro);
        }
        i = i + 1;
    }
}

/// A height kept between one and fifteen blocks.
pub fn limitar_altura(h: i64) -> (r: i64)
    ensures
        r == if h < 1 { 1 } else if h > 15 { 15 } else { h },
{
    if h < 1 {
        1
    } else if h > 15 {
        15
    } else {
        h
    }
}

/// The unit block whose lower corner is at `(x, y, z)`, in whole units.
fn agregar_bloque(escena: &mut Escena, x: i64, y: i64, z: i64, material: Material)
    requires
        -1000 <= x <= 1000,
        -1000 <= y <= 1000,
        -1000 <= z <= 1000,
    ensures
        agrega_cubos(final(escena).objetos@, old(escena).objetos@),
        final(escena).objetos@.len() == old(escena).objetos@.len() + 1,
        final(escena).luces@ == old(escena).luces@,
{
    agregar_caja(
        escena,
        Vector3::new(x * UNO, y * UNO, z * UNO),
        Vector3::new((x + 1) * UNO, (y + 1) * UNO, (z + 1) * UNO),
        material,
    );
}

/// `alturas` is a square table of `LADO_PAISAJE` rows.
pub open spec fn mapa_valido(alturas: Seq<Vec<i64>>) -> bool {
    &&& alturas.len() == LADO_PAISAJE
    &&& forall|i: int| 0 <= i < LADO_PAISAJE ==> (#[trigger] alturas[i])@.len() == LADO_PAISAJE
}

/// The landscape over the height map `alturas` (each height kept between one
/// and fifteen): columns of stone under dirt under grass, ten oak trees
/// standing on the ground, a round lake, and the sunset lights.
pub fn crear_escena_minecraft_simple(alturas: &Vec<Vec<i64>>) -> (r: Escena)
    requires
        mapa_valido(alturas@),
    ensures
        r.luces@ == luces_atardecer(),
        r.objetos@.len() >= LADO_PAISAJE * LADO_PAISAJE,
        forall|i: int| 0 <= i < r.objetos@.len() ==> (#[trigger] r.objetos@[i]) is Cubo,
{
    let mut escena = Escena::nueva();
    let pasto = Material::grass_top_texturizado();
    let tierra = Material::dirt_texturizado();
    let piedra = Material::stone_texturizado();
    let mut x: usize = 0;
    while x < LADO_PAISAJE
        invariant
            0 <= x <= LADO_PAISAJE,
            mapa_valido(alturas@),
            escena.objetos@.len() >= x * LADO_PAISAJE,
            agrega_cubos(escena.objetos@, Seq::<Figura>::empty()),
            escena.luces@.len() == 0,
        decreases LADO_PAISAJE - x,
    {
        let mut z: usize = 0;
        while z < LADO_PAISAJE
            invariant
                0 <= x < LADO_PAISAJE,
                0 <= z <= LADO_PAISAJE,
                mapa_valido(alturas@),
                escena.objetos@.len() >= x * LADO_PAISAJE + z,
                agrega_cubos(escena.objetos@, Seq::<Figura>::empty()),
                escena.luces@.len() == 0,
            decreases LADO_PAISAJE - z,
        {
            assert(alturas@[x as int]@.len() == LADO_PAISAJE);
            let altura: i64 = limitar_altura(alturas[x][z]);
            let mut y: i64 = 0;
            while y < altura
                invariant
                    0 <= x < LADO_PAISAJE,
                    0 <= z < LADO_PAISAJE,
                    1 <= altura <= 15,
                    0 <= y <= altura,
                    escena.objetos@.len() >= x * LADO_PAISAJE + z + y,
                    agrega_cubos(escena.objetos@, Seq::<Figura>::empty()),
                    escena.luces@.len() == 0,
                decreases altura - y,
            {
                let material = if y == altura - 1 {
                    pasto
                } else if y >= altura - 3 {
                    tierra
                } else {
                    piedra
                };
                agregar_bloque(&mut escena, x as i64 - 20, y, z as i64 - 20, material);
                y = y + 1;
            }
            z = z + 1;
        }
        x = x + 1;
    }
    assert(escena.objetos@.len() >= LADO_PAISAJE * LADO_PAISAJE);
    agregar_arboles_paisaje(&mut escena, alturas);
    agregar_lago_paisaje(&mut escena, alturas);
    let objetos: Ghost<Seq<Figura>> = Ghost(escena.objetos@);
    let luces = crear_iluminacion_minecraft();
    let mut i: usize = 0;
    while i < luces.len()
        invariant
            i <= luces@.len(),
            luces@ == luces_atardecer(),
            escena.luces@ == luces@.subrange(0, i as int),
            escena.objetos@ == objetos@,
        decreases luces@.len() - i,
    {
        escena.agregar_luz(luces[i]);
        assert(escena.luces@ =~= luces@.subrange(0, i + 1));
        i = i + 1;
    }
    assert(escena.luces@ =~= luces@);
    escena
}

/// Ten oak trees: a trunk four to six blocks high on the ground of its
/// column, and a crown three layers deep whose top layer is narrower.
fn agregar_arboles_paisaje(escena: &mut Escena, alturas: &Vec<Vec<i64>>)
    requires
        mapa_valido(alturas@),
    ensures
        agrega_cubos(final(escena).objetos@, old(escena).objetos@),
        final(escena).luces@ == old(escena).luces@,
{
    let arboles: [(usize, usize); 10] = [
        (15, 15),
        (25, 20),
        (18, 30),
        (32, 12),
        (8, 25),
        (28, 28),
        (12, 8),
        (35, 35),
        (5, 15),
        (22, 25),
    ];
    let tronco = Material::oak_log_texturizado();
    let hojas = Material::oak_leaves_texturizado();
    let mut k: usize = 0;
    while k < 10
        invariant
            k <= 10,
            mapa_valido(alturas@),
            agrega_cubos(escena.objetos@, old(escena).objetos@),
            escena.luces@ == old(escena).luces@,
        decreases 10 - k,
    {
        let (tx, tz) = arboles[k];
        if tx < LADO_PAISAJE && tz < LADO_PAISAJE {
            assert(alturas@[tx as int]@.len() == LADO_PAISAJE);
            let base: i64 = limitar_altura(alturas[tx][tz]);
            let px: i64 = tx as i64 - 20;
            let pz: i64 = tz as i64 - 20;
            let alto_tronco: i64 = 4 + ((tx + tz) % 3) as i64;
            let mut y: i64 = 0;
            while y < alto_tronco
                invariant
                    1 <= base <= 15,
                    4 <= alto_tronco <= 6,
                    0 <= y <= alto_tronco,
                    -20 <= px < 20,
                    -20 <= pz < 20,
                    agrega_cubos(escena.objetos@, old(escena).objetos@),
                    escena.luces@ == old(escena).luces@,
                decreases alto_tronco - y,
            {
                agregar_bloque(escena, px, base + y, pz, tronco);
                y = y + 1;
            }
            let base_hojas: i64 = base + alto_tronco - 1;
            let mut dx: i64 = -2;
            while dx <= 2
                invariant
                    -2 <= dx <= 3,
                    4 <= base_hojas <= 20,
                    -20 <= px < 20,
                    -20 <= pz < 20,
                    agrega_cubos(escena.objetos@, old(escena).objetos@),
                    escena.luces@ == old(escena).luces@,
                decreases 3 - dx,
            {
                let mut dz: i64 = -2;
                while dz <= 2
                    invariant
                        -2 <= dx <= 2,
                        -2 <= dz <= 3,
                        4 <= base_hojas <= 20,
                        -20 <= px < 20,
                        -20 <= pz < 20,
                        agrega_cubos(escena.objetos@, old(escena).objetos@),
                        escena.luces@ == old(escena).luces@,
                    decreases 3 - dz,
                {
                    let mut dy: i64 = 0;
                    while dy < 3
                        invariant
                            -2 <= dx <= 2,
                            -2 <= dz <= 2,
                            0 <= dy <= 3,
                            4 <= base_hojas <= 20,
                            -20 <= px < 20,
                            -20 <= pz < 20,
                            agrega_cubos(escena.objetos@, old(escena).objetos@),
                            escena.luces@ == old(escena).luces@,
                        decreases 3 - dy,
                    {
                        assert(0 <= dx * dx <= 4 && 0 <= dz * dz <= 4) by (nonlinear_arith)
                            requires
                                -2 <= dx <= 2,
                                -2 <= dz <= 2,
                        ;
                        let distancia: i64 = dx * dx + dz * dz;
                        if distancia <= 4 && (distancia <= 2 || dy < 2) {
                            agregar_bloque(escena, px + dx, base_hojas + dy, pz + dz, hojas);
                        }
                        dy = dy + 1;
                    }
                    dz = dz + 1;
                }
                dx = dx + 1;
            }
        }
        k = k + 1;
    }
}

/// A round lake of radius six about column `(10, 10)`, two blocks below
/// the ground of each column but never below height one.
fn agregar_lago_paisaje(escena: &mut Escena, alturas: &Vec<Vec<i64>>)
    requires
        mapa_valido(alturas@),
    ensures
        agrega_cubos(final(escena).objetos@, old(escena).objetos@),
        final(escena).luces@ == old(escena).luces@,
{
    let agua = Material::water_texturizado();
    let centro: usize = LADO_PAISAJE / 4;
    let radio: usize = 6;
    let mut x: usize = centro - radio;
    while x < centro + radio
        invariant
            centro == 10,
            radio == 6,
            4 <= x <= 16,
            mapa_valido(alturas@),
            agrega_cubos(escena.objetos@, old(escena).objetos@),
            escena.luces@ == old(escena).luces@,
        decreases 16 - x,
    {
        let mut z: usize = centro - radio;
        while z < centro + radio
            invariant
                centro == 10,
                radio == 6,
                4 <= x < 16,
                4 <= z <= 16,
                mapa_valido(alturas@),
                agrega_cubos(escena.objetos@, old(escena).objetos@),
                escena.luces@ == old(escena).luces@,
            decreases 16 - z,
        {
            if x < LADO_PAISAJE && z < LADO_PAISAJE {
                let dx: i64 = x as i64 - centro as i64;
                let dz: i64 = z as i64 - centro as i64;
                assert(0 <= dx * dx <= 36 && 0 <= dz * dz <= 36) by (nonlinear_arith)
                    requires
                        -6 <= dx <= 6,
                        -6 <= dz <= 6,
                ;
                if dx * dx + dz * dz <= 36 {
                    assert(alturas@[x as int]@.len() == LADO_PAISAJE);
                    let bajo: i64 = limitar_altura(alturas[x][z]) - 2;
                    let altura_agua: i64 = if bajo < 1 {
                        1
                    } else {
                        bajo
                    };
                    agregar_bloque(escena, x as i64 - 20, altura_agua, z as i64 - 20, agua);
                }
            }
            z = z + 1;
        }
        x = x + 1;
    }
}

} // verus!
