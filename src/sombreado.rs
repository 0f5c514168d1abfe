//! The shader: a bounded recursive Whitted integrator with hard shadows,
//! mirror reflection and refraction.

use vstd::prelude::*;
use crate::escalar::{
    absoluto, maximo, max_escalar, min_escalar, minimo, multiplicar, producto, raiz,
    raiz_cuadrada, resta, restar, sumar, suma, valor_abs, negar, opuesto, LIMITE, MEDIO, MENOS_UNO, UNO,
};
use crate::escena::{hay_obstaculo, mas_cercana, Escena};
use crate::geometria::{Figura, Rayo, EPSILON};
use crate::iluminacion::{Luz, TipoLuz};
use crate::vector::{
    vcero, vescala, vlongitud, vnormalizar, vopuesto, vpunto, vresta, vsuma, Vector3,
};

verus! {

/// Red, green and blue of the sky straight up.
pub const CENIT_R: i64 = 1_000_000;
pub const CENIT_G: i64 = 510_000;
pub const CENIT_B: i64 = 270_000;

/// Red, green and blue of the sky straight down.
pub const HORIZONTE_R: i64 = 1_000_000;
pub const HORIZONTE_G: i64 = 750_000;
pub const HORIZONTE_B: i64 = 510_000;

pub open spec fn color_cenit() -> Vector3 {
    Vector3 { x: CENIT_R, y: CENIT_G, z: CENIT_B }
}

pub open spec fn color_horizonte() -> Vector3 {
    Vector3 { x: HORIZONTE_R, y: HORIZONTE_G, z: HORIZONTE_B }
}

/// `c` weighted by `1 - w` plus `o` weighted by `w`.
pub open spec fn interpolar(c: Vector3, o: Vector3, w: i64) -> Vector3 {
    vsuma(vescala(c, resta(UNO, w)), vescala(o, w))
}

/// The sky: from the horizon color at `y = -1` to the zenith color at `y = 1`.
pub open spec fn fondo(r: Rayo) -> Vector3 {
    let d = vnormalizar(r.direccion);
    let t = producto(MEDIO, suma(d.y, UNO));
    interpolar(color_horizonte(), color_cenit(), t)
}

/// The mirror image of `d` about the normal `n`.
pub open spec fn reflejo(d: Vector3, n: Vector3) -> Vector3 {
    let k = vpunto(d, n);
    vresta(d, vescala(n, suma(k, k)))
}

pub open spec fn coseno_incidencia(d: Vector3, n: Vector3) -> i64 {
    minimo(vpunto(vopuesto(d), n), UNO)
}

pub open spec fn seno_incidencia(d: Vector3, n: Vector3) -> i64 {
    let c = coseno_incidencia(d, n);
    raiz(resta(UNO, producto(c, c)))
}

/// The refractive index times the sine of incidence exceeds one: the ray is
/// totally reflected inside and no refracted ray exists.
pub open spec fn reflexion_interna_total(d: Vector3, n: Vector3, indice: i64) -> bool {
    producto(indice, seno_incidencia(d, n)) > UNO
}

/// Snell refraction split into the parts perpendicular and parallel to `n`.
pub open spec fn refraccion(d: Vector3, n: Vector3, indice: i64) -> Option<Vector3> {
    if reflexion_interna_total(d, n, indice) {
        None
    } else {
        let c = coseno_incidencia(d, n);
        let perpendicular = vescala(vsuma(d, vescala(n, c)), indice);
        let k = raiz(absoluto(resta(UNO, vpunto(perpendicular, perpendicular))));
        Some(vsuma(perpendicular, vescala(n, opuesto(k))))
    }
}

/// The unit direction from `p` toward the light.
pub open spec fn direccion_luz(l: Luz, p: Vector3) -> Vector3 {
    match l.tipo_luz {
        TipoLuz::Direccional => vnormalizar(l.posicion),
        _ => vnormalizar(vresta(l.posicion, p)),
    }
}

/// How far a shadow ray from `p` must stay clear; a directional light is
/// infinitely far.
pub open spec fn distancia_luz(l: Luz, p: Vector3) -> i64 {
    match l.tipo_luz {
        TipoLuz::Direccional => LIMITE,
        _ => vlongitud(vresta(l.posicion, p)),
    }
}

/// The ray from just above `p` toward the light.
pub open spec fn rayo_sombra(l: Luz, p: Vector3, n: Vector3) -> Rayo {
    Rayo { origen: vsuma(p, vescala(n, EPSILON)), direccion: vnormalizar(direccion_luz(l, p)) }
}

pub open spec fn luz_bloqueada(objs: Seq<Figura>, l: Luz, p: Vector3, n: Vector3) -> bool {
    hay_obstaculo(objs, rayo_sombra(l, p, n), distancia_luz(l, p))
}

/// Lambert's cosine term, never negative.
pub open spec fn termino_difuso(l: Luz, p: Vector3, n: Vector3) -> i64 {
    maximo(0, vpunto(n, direccion_luz(l, p)))
}

/// What one light adds at `p` with normal `n`: an ambient light its whole
/// intensity; another light its intensity times the diffuse term, or
/// nothing when the shadow ray is blocked.
pub open spec fn aporte_luz(objs: Seq<Figura>, l: Luz, p: Vector3, n: Vector3) -> Vector3 {
    match l.tipo_luz {
        TipoLuz::Ambiental => l.intensidad,
        _ => if luz_bloqueada(objs, l, p, n) {
            vcero()
        } else {
            vescala(l.intensidad, termino_difuso(l, p, n))
        },
    }
}

/// `base` plus the contribution of each light in turn.
pub open spec fn luz_directa(
    objs: Seq<Figura>,
    luces: Seq<Luz>,
    p: Vector3,
    n: Vector3,
    base: Vector3,
) -> Vector3
    decreases luces.len(),
{
    if luces.len() == 0 {
        base
    } else {
        vsuma(luz_directa(objs, luces.drop_last(), p, n, base), aporte_luz(objs, luces.last(), p, n))
    }
}

/// The radiance along `r`: black once the depth is spent; the sky on a miss;
/// otherwise the albedo lit by every light, then blended with the reflected
/// color by the reflectivity, then with the refracted color by the
/// transparency.
#[verifier::opaque]
pub open spec fn radiancia(r: Rayo, objs: Seq<Figura>, luces: Seq<Luz>, profundidad: nat) -> Vector3
    decreases profundidad,
{
    if profundidad == 0 {
        vcero()
    } else {
        match mas_cercana(objs, r) {
            None => fondo(r),
            Some(h) => {
                let m = h.material;
                let directo = luz_directa(objs, luces, h.punto, h.normal, m.albedo);
                let reflejado = if m.reflectividad > 0 {
                    let rr = Rayo {
                        origen: vsuma(h.punto, vescala(h.normal, EPSILON)),
                        direccion: vnormalizar(reflejo(r.direccion, h.normal)),
                    };
                    interpolar(
                        directo,
                        radiancia(rr, objs, luces, (profundidad - 1) as nat),
                        m.reflectividad,
                    )
                } else {
                    directo
                };
                if m.transparencia > 0 {
                    match refraccion(r.direccion, h.normal, m.indice_refraccion) {
                        Some(d) => {
                            let rt = Rayo {
                                origen: vresta(h.punto, vescala(h.normal, EPSILON)),
                                direccion: vnormalizar(d),
                            };
                            interpolar(
                                reflejado,
                                radiancia(rt, objs, luces, (profundidad - 1) as nat),
                                m.transparencia,
                            )
                        },
                        None => reflejado,
                    }
                } else {
                    reflejado
                }
            },
        }
    }
}

fn interpolar_exec(c: &Vector3, o: &Vector3, w: i64) -> (r: Vector3)
    ensures
        r == interpolar(*c, *o, w),
{
    c.escalar(restar(UNO, w)).sumar(&o.escalar(w))
}

/// The sky color seen along a ray that hits nothing.
pub fn color_fondo(rayo: &Rayo) -> (r: Vector3)
    ensures
        r == fondo(*rayo),
{
    let d = rayo.direccion.normalizar();
    let t: i64 = multiplicar(MEDIO, sumar(d.y, UNO));
    let horizonte = Vector3::new(HORIZONTE_R, HORIZONTE_G, HORIZONTE_B);
    let cenit = Vector3::new(CENIT_R, CENIT_G, CENIT_B);
    interpolar_exec(&horizonte, &cenit, t)
}

pub fn reflejar(incidente: &Vector3, normal: &Vector3) -> (r: Vector3)
    ensures
        r == reflejo(*incidente, *normal),
{
    let k: i64 = incidente.punto(normal);
    incidente.restar(&normal.escalar(sumar(k, k)))
}

pub fn refractar(incidente: &Vector3, normal: &Vector3, indice: i64) -> (r: Option<Vector3>)
    ensures
        r == refraccion(*incidente, *normal, indice),
        r.is_none() <==> reflexion_interna_total(*incidente, *normal, indice),
{
    let cos_theta: i64 = min_escalar(incidente.negar().punto(normal), UNO);
    let sin_theta: i64 = raiz_cuadrada(restar(UNO, multiplicar(cos_theta, cos_theta)));
    if multiplicar(indice, sin_theta) > UNO {
        return None;
    }
    let perpendicular = incidente.sumar(&normal.escalar(cos_theta)).escalar(indice);
    let k: i64 = raiz_cuadrada(valor_abs(restar(UNO, perpendicular.punto(&perpendicular))));
    Some(perpendicular.sumar(&normal.escalar(negar(k))))
}

/// The light `luz` adds at `punto` with normal `normal` in `escena`.
pub fn aporte_de_luz(escena: &Escena, luz: &Luz, punto: &Vector3, normal: &Vector3) -> (r: Vector3)
    ensures
        r == aporte_luz(escena.objetos@, *luz, *punto, *normal),
{
    match luz.tipo_luz {
        TipoLuz::Ambiental => luz.intensidad,
        _ => {
            let (direccion, distancia) = match luz.tipo_luz {
                TipoLuz::Direccional => (luz.posicion.normalizar(), LIMITE),
                _ => {
                    let hacia = luz.posicion.restar(punto);
                    (hacia.normalizar(), hacia.longitud())
                },
            };
            let difuso: i64 = max_escalar(0, normal.punto(&direccion));
            let sombra = Rayo::new(punto.sumar(&normal.escalar(EPSILON)), direccion);
            if escena.hay_obstruccion(&sombra, distancia) {
                Vector3::cero()
            } else {
                luz.intensidad.escalar(difuso)
            }
        },
    }
}

/// The albedo `base` at `punto` lit by every light of the scene.
pub fn iluminacion_directa(escena: &Escena, punto: &Vector3, normal: &Vector3, base: &Vector3) -> (r:
    Vector3)
    ensures
        r == luz_directa(escena.objetos@, escena.luces@, *punto, *normal, *base),
{
    let mut color = *base;
    let mut i: usize = 0;
    while i < escena.luces.len()
        invariant
            i <= escena.luces@.len(),
            color == luz_directa(
                escena.objetos@,
                escena.luces@.subrange(0, i as int),
                *punto,
                *normal,
                *base,
            ),
        decreases escena.luces@.len() - i,
    {
        let aporte = aporte_de_luz(escena, &escena.luces[i], punto, normal);
        assert(escena.luces@.subrange(0, i + 1).drop_last() =~= escena.luces@.subrange(0, i as int));
        color = color.sumar(&aporte);
        i = i + 1;
    }
    assert(escena.luces@.subrange(0, escena.luces@.len() as int) =~= escena.luces@);
    color
}

/// The radiance along `rayo`, following at most `profundidad` bounces.
pub fn calcular_color(rayo: &Rayo, escena: &Escena, profundidad: u32) -> (r: Vector3)
    ensures
        r == radiancia(*rayo, escena.objetos@, escena.luces@, profundidad as nat),
        profundidad == 0 ==> r == vcero(),
    decreases profundidad,
{
    reveal(radiancia);
    if profundidad == 0 {
        return Vector3::cero();
    }
    match escena.intersectar(rayo) {
        None => color_fondo(rayo),
        Some(h) => {
            let m = h.material;
            let directo = iluminacion_directa(escena, &h.punto, &h.normal, &m.albedo);
            let reflejado = if m.reflectividad > 0 {
                let rr = Rayo::new(h.punto.sumar(&h.normal.escalar(EPSILON)), reflejar(&rayo.direccion, &h.normal));
                let c = calcular_color(&rr, escena, profundidad - 1);
                interpolar_exec(&directo, &c, m.reflectividad)
            } else {
                directo
            };
            if m.transparencia > 0 {
                match refractar(&rayo.direccion, &h.normal, m.indice_refraccion) {
                    Some(d) => {
                        let rt = Rayo::new(h.punto.restar(&h.normal.escalar(EPSILON)), d);
                        let c = calcular_color(&rt, escena, profundidad - 1);
                        interpolar_exec(&reflejado, &c, m.transparencia)
                    },
                    None => reflejado,
                }
            } else {
                reflejado
            }
        },
    }
}

} // verus!

verus! {

proof fn lema_raiz_de_unidad()
    ensures
        raiz(UNO) == UNO,
{
    let n: int = UNO as int * UNO as int;
    assert(crate::escalar::es_raiz_entera(n, UNO as int)) by (nonlinear_arith)
        requires
            n == 1_000_000_000_000,
    ;
    crate::escalar::lema_raiz_unica(n, crate::escalar::raiz_entera(n), UNO as int);
}

/// A unit vector along `y`, up or down, is its own normalization.
proof fn lema_vertical_normalizada(s: i64)
    requires
        s == UNO || s == MENOS_UNO,
    ensures
        vnormalizar(Vector3 { x: 0, y: s, z: 0 }) == (Vector3 { x: 0, y: s, z: 0 }),
{
    lema_raiz_de_unidad();
    if s == UNO {
        assert(s * s == 1_000_000_000_000);
    } else {
        assert(s * s == 1_000_000_000_000);
    }
    assert(1_000_000_000_000int / 1_000_000int == 1_000_000) by (nonlinear_arith);
    assert(crate::escalar::div_trunc(1_000_000_000_000, 1_000_000) == 1_000_000);
    assert(producto(s, s) == UNO);
    assert(producto(0, 0) == 0);
    assert(vpunto(Vector3 { x: 0, y: s, z: 0 }, Vector3 { x: 0, y: s, z: 0 }) == UNO);
    assert(crate::escalar::cociente(s, UNO) == s);
}

/// A ray straight up sees exactly the zenith color.
pub proof fn lema_fondo_cenit(r: Rayo)
    requires
        r.direccion == (Vector3 { x: 0, y: UNO, z: 0 }),
    ensures
        fondo(r) == color_cenit(),
{
    lema_vertical_normalizada(UNO);
}

/// A ray straight down sees exactly the horizon color.
pub proof fn lema_fondo_horizonte(r: Rayo)
    requires
        r.direccion == (Vector3 { x: 0, y: MENOS_UNO, z: 0 }),
    ensures
        fondo(r) == color_horizonte(),
{
    lema_vertical_normalizada(MENOS_UNO);
}

/// With no depth left, the radiance is black whatever the scene holds.
pub proof fn lema_profundidad_cero(r: Rayo, objs: Seq<Figura>, luces: Seq<Luz>)
    ensures
        radiancia(r, objs, luces, 0) == vcero(),
{
    reveal(radiancia);
}

/// A point or directional light whose shadow ray is blocked adds nothing.
pub proof fn lema_sombra_sin_aporte(objs: Seq<Figura>, l: Luz, p: Vector3, n: Vector3)
    requires
        l.tipo_luz != TipoLuz::Ambiental,
        luz_bloqueada(objs, l, p, n),
    ensures
        aporte_luz(objs, l, p, n) == vcero(),
{
}

} // verus!

verus! {

/// Refraction is impossible exactly when the refractive index times the sine
/// of incidence exceeds one, and once it is, a larger sine keeps it so: as
/// the angle grows past the critical one the refracted ray disappears.
pub proof fn lema_angulo_critico(d1: Vector3, d2: Vector3, n: Vector3, indice: i64)
    requires
        indice >= 0,
        seno_incidencia(d1, n) <= seno_incidencia(d2, n),
    ensures
        refraccion(d1, n, indice).is_none() <==> reflexion_interna_total(d1, n, indice),
        refraccion(d2, n, indice).is_none() <==> reflexion_interna_total(d2, n, indice),
        reflexion_interna_total(d1, n, indice) ==> refraccion(d2, n, indice).is_none(),
{
    crate::escalar::lema_producto_monotono(indice, seno_incidencia(d1, n), seno_incidencia(d2, n));
}

} // verus!
