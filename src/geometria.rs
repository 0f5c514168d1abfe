//! Rays and the primitives a ray can hit: boxes, spheres and planes.

use vstd::prelude::*;
use crate::escalar::{
    absoluto, cociente, dividir, lema_cociente_exacto, lema_producto_exacto, lema_raiz_exacta, maximo, max_escalar, minimo, min_escalar, multiplicar, negar,
    opuesto, producto, raiz, raiz_cuadrada, resta, restar, suma, sumar, valor_abs, CUATRO, LIMITE, MEDIO, MENOS_UNO, UNO,
};
use crate::materiales::Material;
use crate::vector::{vescala, vnormalizar, vpunto, vresta, vsuma, Vector3};

verus! {

/// Smallest ray parameter that counts as a hit, so that a ray leaving a
/// surface does not hit that surface again.
pub const EPSILON: i64 = 1_000;

/// Below this magnitude a ray and a plane are taken as parallel.
pub const EPSILON_PARALELO: i64 = 1;

/// A ray; `new` makes its direction unit length.
#[derive(Clone, Copy, Debug, PartialEq, Eq, Structural)]
pub struct Rayo {
    pub origen: Vector3,
    pub direccion: Vector3,
}

pub open spec fn punto_en_rayo(r: Rayo, t: i64) -> Vector3 {
    vsuma(r.origen, vescala(r.direccion, t))
}

impl Rayo {
    pub fn new(origen: Vector3, direccion: Vector3) -> (r: Rayo)
        ensures
            r == (Rayo { origen, direccion: vnormalizar(direccion) }),
    {
        Rayo { origen, direccion: direccion.normalizar() }
    }

    pub fn punto_en(&self, t: i64) -> (r: Vector3)
        ensures
            r == punto_en_rayo(*self, t),
    {
        self.origen.sumar(&self.direccion.escalar(t))
    }
}

/// Where a ray meets a surface: the point, the outward normal, the ray
/// parameter and the surface's material.
#[derive(Clone, Copy, Debug, PartialEq, Eq, Structural)]
pub struct Interseccion {
    pub punto: Vector3,
    pub normal: Vector3,
    pub t: i64,
    pub material: Material,
}

/// An axis-aligned box given by its lower and upper corners.
#[derive(Clone, Copy, Debug, PartialEq, Eq, Structural)]
pub struct Cubo {
    pub minimo: Vector3,
    pub maximo: Vector3,
    pub material: Material,
}

/// A sphere given by its center and radius.
#[derive(Clone, Copy, Debug, PartialEq, Eq, Structural)]
pub struct Esfera {
    pub centro: Vector3,
    pub radio: i64,
    pub material: Material,
}

/// An infinite plane through `punto`; `nuevo` makes `normal` unit length.
#[derive(Clone, Copy, Debug, PartialEq, Eq, Structural)]
pub struct Plano {
    pub punto: Vector3,
    pub normal: Vector3,
    pub material: Material,
}

/// A primitive of a scene.
#[derive(Clone, Copy, Debug, PartialEq, Eq, Structural)]
pub enum Figura {
    Cubo(Cubo),
    Esfera(Esfera),
    Plano(Plano),
}

/// The parameters at which a ray crosses the two planes of one slab, in order.
pub open spec fn tramo_eje(o: i64, d: i64, lo: i64, hi: i64) -> (i64, i64) {
    let a = cociente(resta(lo, o), d);
    let b = cociente(resta(hi, o), d);
    if a > b {
        (b, a)
    } else {
        (a, b)
    }
}

/// `i` is the first position of a smallest element of `s`.
pub open spec fn es_primer_minimo(s: Seq<i64>, i: int) -> bool {
    &&& 0 <= i < s.len()
    &&& forall|j: int| 0 <= j < s.len() ==> s[i] <= s[j]
    &&& forall|j: int| 0 <= j < i ==> s[i] < s[j]
}

pub open spec fn primer_minimo(s: Seq<i64>) -> int {
    choose|i: int| es_primer_minimo(s, i)
}

/// Distances from a point to the six faces of a box, in the order
/// -x, +x, -y, +y, -z, +z.
pub open spec fn distancias_caras(p: Vector3, mn: Vector3, mx: Vector3) -> Seq<i64> {
    seq![
        absoluto(resta(p.x, mn.x)),
        absoluto(resta(mx.x, p.x)),
        absoluto(resta(p.y, mn.y)),
        absoluto(resta(mx.y, p.y)),
        absoluto(resta(p.z, mn.z)),
        absoluto(resta(mx.z, p.z)),
    ]
}

/// The outward unit normal of face `i`, in the order of `distancias_caras`.
pub open spec fn normal_cara(i: int) -> Vector3 {
    if i == 0 {
        Vector3 { x: MENOS_UNO, y: 0, z: 0 }
    } else if i == 1 {
        Vector3 { x: UNO, y: 0, z: 0 }
    } else if i == 2 {
        Vector3 { x: 0, y: MENOS_UNO, z: 0 }
    } else if i == 3 {
        Vector3 { x: 0, y: UNO, z: 0 }
    } else if i == 4 {
        Vector3 { x: 0, y: 0, z: MENOS_UNO }
    } else {
        Vector3 { x: 0, y: 0, z: UNO }
    }
}

/// Half the edge of a cube, on every axis.
pub open spec fn mitad_arista(tamano: i64) -> Vector3 {
    let h = producto(tamano, MEDIO);
    Vector3 { x: h, y: h, z: h }
}

/// The cube with center `centro` and edge `tamano`.
pub open spec fn cubo_centrado(centro: Vector3, tamano: i64, material: Material) -> Cubo {
    Cubo {
        minimo: vresta(centro, mitad_arista(tamano)),
        maximo: vsuma(centro, mitad_arista(tamano)),
        material,
    }
}

/// The hit at parameter `t` on a box with corners `mn` and `mx`: its normal is
/// that of the face nearest to the hit point, the first one on a tie.
pub open spec fn impacto_cubo(c: Cubo, r: Rayo, t: i64) -> Interseccion {
    let p = punto_en_rayo(r, t);
    Interseccion {
        punto: p,
        normal: normal_cara(primer_minimo(distancias_caras(p, c.minimo, c.maximo))),
        t,
        material: c.material,
    }
}

/// The slab method: the three per-axis intervals are intersected, and the
/// nearer end beyond `EPSILON` is the hit.
pub open spec fn interseccion_cubo(c: Cubo, r: Rayo) -> Option<Interseccion> {
    let mn = c.minimo;
    let mx = c.maximo;
    let (tx0, tx1) = tramo_eje(r.origen.x, r.direccion.x, mn.x, mx.x);
    let (ty0, ty1) = tramo_eje(r.origen.y, r.direccion.y, mn.y, mx.y);
    if tx0 > ty1 || ty0 > tx1 {
        None
    } else {
        let a0 = maximo(tx0, ty0);
        let a1 = minimo(tx1, ty1);
        let (tz0, tz1) = tramo_eje(r.origen.z, r.direccion.z, mn.z, mx.z);
        if a0 > tz1 || tz0 > a1 {
            None
        } else {
            let b0 = maximo(a0, tz0);
            let b1 = minimo(a1, tz1);
            if b0 > EPSILON {
                Some(impacto_cubo(c, r, b0))
            } else if b1 > EPSILON {
                Some(impacto_cubo(c, r, b1))
            } else {
                None
            }
        }
    }
}

pub open spec fn discriminante_esfera(e: Esfera, r: Rayo) -> i64 {
    let oc = vresta(r.origen, e.centro);
    let a = vpunto(r.direccion, r.direccion);
    let b = suma(vpunto(oc, r.direccion), vpunto(oc, r.direccion));
    let c = resta(vpunto(oc, oc), producto(e.radio, e.radio));
    resta(producto(b, b), producto(producto(CUATRO, a), c))
}

/// The roots of the ray's quadratic: the nearer one beyond `EPSILON`, else
/// the farther one, else no hit.
pub open spec fn interseccion_esfera(e: Esfera, r: Rayo) -> Option<Interseccion> {
    let oc = vresta(r.origen, e.centro);
    let a = vpunto(r.direccion, r.direccion);
    let b = suma(vpunto(oc, r.direccion), vpunto(oc, r.direccion));
    let disc = discriminante_esfera(e, r);
    if disc < 0 {
        None
    } else {
        let s = raiz(disc);
        let t1 = cociente(resta(opuesto(b), s), suma(a, a));
        let t2 = cociente(suma(opuesto(b), s), suma(a, a));
        if t1 > EPSILON {
            Some(impacto_esfera(e, r, t1))
        } else if t2 > EPSILON {
            Some(impacto_esfera(e, r, t2))
        } else {
            None
        }
    }
}

pub open spec fn impacto_esfera(e: Esfera, r: Rayo, t: i64) -> Interseccion {
    let p = punto_en_rayo(r, t);
    Interseccion { punto: p, normal: vnormalizar(vresta(p, e.centro)), t, material: e.material }
}

pub open spec fn denominador_plano(p: Plano, r: Rayo) -> i64 {
    vpunto(p.normal, r.direccion)
}

/// A ray parallel to the plane never hits it; otherwise the crossing counts
/// when it lies beyond `EPSILON`.
pub open spec fn interseccion_plano(p: Plano, r: Rayo) -> Option<Interseccion> {
    let denom = denominador_plano(p, r);
    if absoluto(denom) < EPSILON_PARALELO {
        None
    } else {
        let t = cociente(vpunto(vresta(p.punto, r.origen), p.normal), denom);
        if t > EPSILON {
            Some(Interseccion { punto: punto_en_rayo(r, t), normal: p.normal, t, material: p.material })
        } else {
            None
        }
    }
}

#[verifier::opaque]
pub open spec fn interseccion_figura(f: Figura, r: Rayo) -> Option<Interseccion> {
    match f {
        Figura::Cubo(c) => interseccion_cubo(c, r),
        Figura::Esfera(e) => interseccion_esfera(e, r),
        Figura::Plano(p) => interseccion_plano(p, r),
    }
}

fn tramo_eje_exec(o: i64, d: i64, lo: i64, hi: i64) -> (r: (i64, i64))
    ensures
        r == tramo_eje(o, d, lo, hi),
{
    let a: i64 = dividir(restar(lo, o), d);
    let b: i64 = dividir(restar(hi, o), d);
    if a > b {
        (b, a)
    } else {
        (a, b)
    }
}

/// The first position of a smallest distance.
pub fn cara_mas_cercana(d: [i64; 6]) -> (r: usize)
    ensures
        es_primer_minimo(d@, r as int),
        r as int == primer_minimo(d@),
{
    let mut mejor: usize = 0;
    let mut i: usize = 1;
    while i < 6
        invariant
            1 <= i <= 6,
            d@.len() == 6,
            es_primer_minimo(d@.subrange(0, i as int), mejor as int),
        decreases 6 - i,
    {
        if d[i] < d[mejor] {
            mejor = i;
        }
        i = i + 1;
    }
    assert(d@.subrange(0, 6) =~= d@);
    proof {
        lema_primer_minimo_unico(d@, mejor as int, primer_minimo(d@));
    }
    mejor
}

proof fn lema_primer_minimo_unico(s: Seq<i64>, i: int, k: int)
    requires
        es_primer_minimo(s, i),
        k == primer_minimo(s),
    ensures
        k == i,
{
    assert(es_primer_minimo(s, k));
    if k < i {
        assert(s[i] < s[k]);
    } else if i < k {
        assert(s[k] < s[i]);
    }
}

fn normal_de_cara(i: usize) -> (r: Vector3)
    ensures
        r == normal_cara(i as int),
{
    if i == 0 {
        Vector3::new(MENOS_UNO, 0, 0)
    } else if i == 1 {
        Vector3::new(UNO, 0, 0)
    } else if i == 2 {
        Vector3::new(0, MENOS_UNO, 0)
    } else if i == 3 {
        Vector3::new(0, UNO, 0)
    } else if i == 4 {
        Vector3::new(0, 0, MENOS_UNO)
    } else {
        Vector3::new(0, 0, UNO)
    }
}

impl Cubo {
    /// The cube with center `centro` and edge `tamano`.
    pub fn nuevo(centro: Vector3, tamano: i64, material: Material) -> (r: Cubo)
        ensures
            r == cubo_centrado(centro, tamano, material),
    {
        let h: i64 = multiplicar(tamano, MEDIO);
        let mitad = Vector3::new(h, h, h);
        Cubo { minimo: centro.restar(&mitad), maximo: centro.sumar(&mitad), material }
    }

    /// The box between two corners.
    pub fn con_limites(minimo: Vector3, maximo: Vector3, material: Material) -> (r: Cubo)
        ensures
            r == (Cubo { minimo, maximo, material }),
    {
        Cubo { minimo, maximo, material }
    }

    fn impacto(&self, rayo: &Rayo, t: i64) -> (r: Interseccion)
        ensures
            r == impacto_cubo(*self, *rayo, t),
    {
        let mn = &self.minimo;
        let mx = &self.maximo;
        let p = rayo.punto_en(t);
        let distancias: [i64; 6] = [
            valor_abs(restar(p.x, mn.x)),
            valor_abs(restar(mx.x, p.x)),
            valor_abs(restar(p.y, mn.y)),
            valor_abs(restar(mx.y, p.y)),
            valor_abs(restar(p.z, mn.z)),
            valor_abs(restar(mx.z, p.z)),
        ];
        assert(distancias@ =~= distancias_caras(p, *mn, *mx));
        let cara: usize = cara_mas_cercana(distancias);
        Interseccion { punto: p, normal: normal_de_cara(cara), t, material: self.material }
    }

    pub fn intersectar(&self, rayo: &Rayo) -> (r: Option<Interseccion>)
        ensures
            r == interseccion_cubo(*self, *rayo),
    {
        let mn = self.minimo;
        let mx = self.maximo;
        let (tx0, tx1) = tramo_eje_exec(rayo.origen.x, rayo.direccion.x, mn.x, mx.x);
        let (ty0, ty1) = tramo_eje_exec(rayo.origen.y, rayo.direccion.y, mn.y, mx.y);
        if tx0 > ty1 || ty0 > tx1 {
            return None;
        }
        let a0: i64 = max_escalar(tx0, ty0);
        let a1: i64 = min_escalar(tx1, ty1);
        let (tz0, tz1) = tramo_eje_exec(rayo.origen.z, rayo.direccion.z, mn.z, mx.z);
        if a0 > tz1 || tz0 > a1 {
            return None;
        }
        let b0: i64 = max_escalar(a0, tz0);
        let b1: i64 = min_escalar(a1, tz1);
        if b0 > EPSILON {
            Some(self.impacto(rayo, b0))
        } else if b1 > EPSILON {
            Some(self.impacto(rayo, b1))
        } else {
            None
        }
    }
}

impl Esfera {
    pub fn nueva(centro: Vector3, radio: i64, material: Material) -> (r: Esfera)
        ensures
            r == (Esfera { centro, radio, material }),
    {
        Esfera { centro, radio, material }
    }

    fn impacto(&self, rayo: &Rayo, t: i64) -> (r: Interseccion)
        ensures
            r == impacto_esfera(*self, *rayo, t),
    {
        let p = rayo.punto_en(t);
        Interseccion { punto: p, normal: p.restar(&self.centro).normalizar(), t, material: self.material }
    }

    pub fn intersectar(&self, rayo: &Rayo) -> (r: Option<Interseccion>)
        ensures
            r == interseccion_esfera(*self, *rayo),
    {
        let oc = rayo.origen.restar(&self.centro);
        let a: i64 = rayo.direccion.punto(&rayo.direccion);
        let ocd: i64 = oc.punto(&rayo.direccion);
        let b: i64 = sumar(ocd, ocd);
        let c: i64 = restar(oc.punto(&oc), multiplicar(self.radio, self.radio));
        let disc: i64 = restar(multiplicar(b, b), multiplicar(multiplicar(CUATRO, a), c));
        if disc < 0 {
            return None;
        }
        let s: i64 = raiz_cuadrada(disc);
        let t1: i64 = dividir(restar(negar(b), s), sumar(a, a));
        let t2: i64 = dividir(sumar(negar(b), s), sumar(a, a));
        if t1 > EPSILON {
            Some(self.impacto(rayo, t1))
        } else if t2 > EPSILON {
            Some(self.impacto(rayo, t2))
        } else {
            None
        }
    }
}

impl Plano {
    pub fn nuevo(punto: Vector3, normal: Vector3, material: Material) -> (r: Plano)
        ensures
            r == (Plano { punto, normal: vnormalizar(normal), material }),
    {
        Plano { punto, normal: normal.normalizar(), material }
    }

    pub fn intersectar(&self, rayo: &Rayo) -> (r: Option<Interseccion>)
        ensures
            r == interseccion_plano(*self, *rayo),
            absoluto(denominador_plano(*self, *rayo)) < EPSILON_PARALELO ==> r.is_none(),
    {
        let denom: i64 = self.normal.punto(&rayo.direccion);
        if valor_abs(denom) < EPSILON_PARALELO {
            return None;
        }
        let t: i64 = dividir(self.punto.restar(&rayo.origen).punto(&self.normal), denom);
        if t > EPSILON {
            Some(Interseccion { punto: rayo.punto_en(t), normal: self.normal, t, material: self.material })
        } else {
            None
        }
    }
}

impl Figura {
    pub fn intersectar(&self, rayo: &Rayo) -> (r: Option<Interseccion>)
        ensures
            r == interseccion_figura(*self, *rayo),
    {
        reveal(interseccion_figura);
        match self {
            Figura::Cubo(c) => c.intersectar(rayo),
            Figura::Esfera(e) => e.intersectar(rayo),
            Figura::Plano(p) => p.intersectar(rayo),
        }
    }
}

} // verus!

verus! {

/// A sphere of radius `radio` (a whole number of thousandths) centered at the
/// origin, and a ray from five units up the z axis looking down it: the hit is
/// at `t = 5 - radio`, on the sphere's top, with normal `+z`.
pub proof fn lema_esfera_sobre_eje(e: Esfera, r: Rayo)
    requires
        e.centro == (Vector3 { x: 0, y: 0, z: 0 }),
        r.origen == (Vector3 { x: 0, y: 0, z: 5_000_000 }),
        r.direccion == (Vector3 { x: 0, y: 0, z: MENOS_UNO }),
        e.radio % 1000 == 0,
        0 < e.radio,
        5 * UNO - e.radio > EPSILON,
    ensures
        interseccion_esfera(e, r) == Some(
            Interseccion {
                punto: Vector3 { x: 0, y: 0, z: e.radio },
                normal: Vector3 { x: 0, y: 0, z: UNO },
                t: (5 * UNO - e.radio) as i64,
                material: e.material,
            },
        ),
{
    let rr: int = e.radio as int;
    let k: int = rr / 1000;
    assert(rr == 1000 * k);
    lema_producto_exacto(0, 0, 0);
    lema_producto_exacto(MENOS_UNO, MENOS_UNO, UNO as int);
    lema_producto_exacto(5_000_000, MENOS_UNO, -5 * UNO);
    lema_producto_exacto(5_000_000, 5_000_000, 25 * UNO);
    lema_producto_exacto(5_000_000, 0, 0);
    lema_producto_exacto(0, MENOS_UNO, 0);
    assert(rr * rr == UNO * (k * k)) by (nonlinear_arith)
        requires
            rr == 1000 * k,
    ;
    assert(k * k < 25_000_000) by (nonlinear_arith)
        requires
            0 < k < 5000,
    ;
    lema_producto_exacto(e.radio, e.radio, k * k);
    let c: i64 = (25 * UNO - k * k) as i64;
    assert(c == resta(vpunto(vresta(r.origen, e.centro), vresta(r.origen, e.centro)), producto(e.radio, e.radio)));
    lema_producto_exacto(-10_000_000i64, -10_000_000i64, 100 * UNO);
    lema_producto_exacto(CUATRO, UNO, 4 * UNO);
    lema_producto_exacto(4_000_000, c, 4 * c);
    let kk: int = k * k;
    let disc: i64 = (4 * kk) as i64;
    let oc = vresta(r.origen, e.centro);
    assert(oc == r.origen);
    assert(vpunto(r.direccion, r.direccion) == UNO);
    assert(vpunto(oc, r.direccion) == -5 * UNO);
    assert(suma(vpunto(oc, r.direccion), vpunto(oc, r.direccion)) == -10 * UNO);
    assert(vpunto(oc, oc) == 25 * UNO);
    assert(producto(CUATRO, vpunto(r.direccion, r.direccion)) == 4 * UNO);
    assert(discriminante_esfera(e, r) == disc);
    assert((2 * rr) * (2 * rr) == (4 * kk) * UNO) by (nonlinear_arith)
        requires
            rr == 1000 * k,
            kk == k * k,
    ;
    assert(0 < kk) by (nonlinear_arith)
        requires
            kk == k * k,
            k > 0,
    ;
    lema_raiz_exacta(disc, 2 * rr);
    let t1: int = 5 * UNO - rr;
    lema_cociente_exacto((10 * UNO - 2 * rr) as i64, 2_000_000, t1);
    lema_producto_exacto(0, t1 as i64, 0);
    lema_producto_exacto(MENOS_UNO, t1 as i64, -t1);
    assert(punto_en_rayo(r, t1 as i64) == (Vector3 { x: 0, y: 0, z: e.radio }));
    assert(rr * rr == UNO * (k * k));
    assert((1000 * k) * (1000 * k) == (k * k) * UNO) by (nonlinear_arith);
    lema_raiz_exacta((k * k) as i64, rr);
    lema_cociente_exacto(0, e.radio, 0);
    lema_cociente_exacto(e.radio, e.radio, UNO as int);
}

} // verus!

verus! {

/// A box with corners `(-h, -h, -h)` and `(h, h, h)`, and a ray from
/// `(0, 0, z)` outside it aimed at its center: the hit is at the slab
/// distance `t = z - h`, on the top face, with normal `+z`.
pub proof fn lema_cubo_hacia_centro(c: Cubo, r: Rayo, z: i64, h: i64)
    requires
        c.minimo == (Vector3 { x: -h as i64, y: -h as i64, z: -h as i64 }),
        c.maximo == (Vector3 { x: h, y: h, z: h }),
        r.origen == (Vector3 { x: 0, y: 0, z: z }),
        r.direccion == (Vector3 { x: 0, y: 0, z: MENOS_UNO }),
        h > 0,
        z - h > EPSILON,
        z + h <= LIMITE,
    ensures
        interseccion_cubo(c, r) == Some(
            Interseccion {
                punto: Vector3 { x: 0, y: 0, z: h },
                normal: Vector3 { x: 0, y: 0, z: UNO },
                t: (z - h) as i64,
                material: c.material,
            },
        ),
{
    let mn = c.minimo;
    let mx = c.maximo;
    assert(tramo_eje(0, 0, mn.x, mx.x) == (-LIMITE as i64, LIMITE));
    lema_cociente_exacto((-h - z) as i64, MENOS_UNO, z + h);
    lema_cociente_exacto((h - z) as i64, MENOS_UNO, z - h);
    let t: int = z - h;
    assert(tramo_eje(z, MENOS_UNO, mn.z, mx.z) == (t as i64, (z + h) as i64));
    lema_producto_exacto(0, t as i64, 0);
    lema_producto_exacto(MENOS_UNO, t as i64, -t);
    let p = punto_en_rayo(r, t as i64);
    assert(p == (Vector3 { x: 0, y: 0, z: h }));
    let d = distancias_caras(p, mn, mx);
    assert(d =~= seq![h, h, h, h, (2 * h) as i64, 0i64]);
    assert(es_primer_minimo(d, 5));
    lema_primer_minimo_unico(d, 5, primer_minimo(d));
}

} // verus!
