//! Three-component fixed-point vectors, used for points, directions and colors.

use vstd::prelude::*;
use crate::escalar::{
    cociente, dividir, multiplicar, negar, opuesto, producto, raiz, raiz_cuadrada, resta, restar, suma,
    sumar,
};

verus! {

#[derive(Clone, Copy, Debug, PartialEq, Eq, Structural)]
pub struct Vector3 {
    pub x: i64,
    pub y: i64,
    pub z: i64,
}

pub open spec fn vsuma(a: Vector3, b: Vector3) -> Vector3 {
    Vector3 { x: suma(a.x, b.x), y: suma(a.y, b.y), z: suma(a.z, b.z) }
}

pub open spec fn vresta(a: Vector3, b: Vector3) -> Vector3 {
    Vector3 { x: resta(a.x, b.x), y: resta(a.y, b.y), z: resta(a.z, b.z) }
}

pub open spec fn vopuesto(a: Vector3) -> Vector3 {
    Vector3 { x: opuesto(a.x), y: opuesto(a.y), z: opuesto(a.z) }
}

pub open spec fn vescala(a: Vector3, k: i64) -> Vector3 {
    Vector3 { x: producto(a.x, k), y: producto(a.y, k), z: producto(a.z, k) }
}

pub open spec fn vpunto(a: Vector3, b: Vector3) -> i64 {
    suma(suma(producto(a.x, b.x), producto(a.y, b.y)), producto(a.z, b.z))
}

pub open spec fn vcruz(a: Vector3, b: Vector3) -> Vector3 {
    Vector3 {
        x: resta(producto(a.y, b.z), producto(a.z, b.y)),
        y: resta(producto(a.z, b.x), producto(a.x, b.z)),
        z: resta(producto(a.x, b.y), producto(a.y, b.x)),
    }
}

pub open spec fn vlongitud(a: Vector3) -> i64 {
    raiz(vpunto(a, a))
}

/// The vector divided by its length; the zero vector stays zero.
pub open spec fn vnormalizar(a: Vector3) -> Vector3 {
    let l = vlongitud(a);
    if l == 0 {
        Vector3 { x: 0, y: 0, z: 0 }
    } else {
        Vector3 { x: cociente(a.x, l), y: cociente(a.y, l), z: cociente(a.z, l) }
    }
}

pub open spec fn vcero() -> Vector3 {
    Vector3 { x: 0, y: 0, z: 0 }
}

impl Vector3 {
    pub fn new(x: i64, y: i64, z: i64) -> (r: Vector3)
        ensures
            r == (Vector3 { x, y, z }),
    {
        Vector3 { x, y, z }
    }

    pub fn cero() -> (r: Vector3)
        ensures
            r == vcero(),
    {
        Vector3 { x: 0, y: 0, z: 0 }
    }

    pub fn sumar(&self, o: &Vector3) -> (r: Vector3)
        ensures
            r == vsuma(*self, *o),
    {
        Vector3 { x: sumar(self.x, o.x), y: sumar(self.y, o.y), z: sumar(self.z, o.z) }
    }

    pub fn restar(&self, o: &Vector3) -> (r: Vector3)
        ensures
            r == vresta(*self, *o),
    {
        Vector3 { x: restar(self.x, o.x), y: restar(self.y, o.y), z: restar(self.z, o.z) }
    }

    pub fn negar(&self) -> (r: Vector3)
        ensures
            r == vopuesto(*self),
    {
        Vector3 { x: negar(self.x), y: negar(self.y), z: negar(self.z) }
    }

    pub fn escalar(&self, k: i64) -> (r: Vector3)
        ensures
            r == vescala(*self, k),
    {
        Vector3 { x: multiplicar(self.x, k), y: multiplicar(self.y, k), z: multiplicar(self.z, k) }
    }

    pub fn punto(&self, o: &Vector3) -> (r: i64)
        ensures
            r == vpunto(*self, *o),
    {
        sumar(
            sumar(multiplicar(self.x, o.x), multiplicar(self.y, o.y)),
            multiplicar(self.z, o.z),
        )
    }

    pub fn cruz(&self, o: &Vector3) -> (r: Vector3)
        ensures
            r == vcruz(*self, *o),
    {
        Vector3 {
            x: restar(multiplicar(self.y, o.z), multiplicar(self.z, o.y)),
            y: restar(multiplicar(self.z, o.x), multiplicar(self.x, o.z)),
            z: restar(multiplicar(self.x, o.y), multiplicar(self.y, o.x)),
        }
    }

    pub fn longitud(&self) -> (r: i64)
        ensures
            r == vlongitud(*self),
            r >= 0,
    {
        raiz_cuadrada(self.punto(self))
    }

    pub fn normalizar(&self) -> (r: Vector3)
        ensures
            r == vnormalizar(*self),
    {
        let l: i64 = self.longitud();
        if l == 0 {
            Vector3::cero()
        } else {
            Vector3 { x: dividir(self.x, l), y: dividir(self.y, l), z: dividir(self.z, l) }
        }
    }
}

} // verus!
