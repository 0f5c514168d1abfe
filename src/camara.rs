//! The camera: an orthonormal basis looking from `posicion` at `objetivo`,
//! an image plane one unit in front of the eye, and orbit and zoom moves.

use vstd::prelude::*;
use crate::escalar::{
    maximo, max_escalar, min_escalar, minimo, multiplicar, producto, raiz, raiz_cuadrada, resta,
    restar, suma, sumar, MEDIO, UNO,
};
use crate::geometria::Rayo;
use crate::vector::{vcruz, vescala, vlongitud, vnormalizar, vresta, vsuma, Vector3};

verus! {

/// The view direction's vertical component stays within this bound, so that
/// it never lines up with the up vector.
pub const LIMITE_VERTICAL: i64 = 900_000;

/// The camera never comes closer to its target than this.
pub const DISTANCIA_MINIMA: i64 = 2_000_000;

pub struct Camara {
    pub posicion: Vector3,
    pub objetivo: Vector3,
    pub arriba: Vector3,
    pub aspecto: i64,
    pub u: Vector3,
    pub v: Vector3,
    pub w: Vector3,
    pub mitad_ancho: i64,
    pub mitad_alto: i64,
    pub esquina_inferior_izquierda: Vector3,
    pub horizontal: Vector3,
    pub vertical: Vector3,
}

pub open spec fn base_w(posicion: Vector3, objetivo: Vector3) -> Vector3 {
    vnormalizar(vresta(posicion, objetivo))
}

pub open spec fn base_u(arriba: Vector3, w: Vector3) -> Vector3 {
    vnormalizar(vcruz(arriba, w))
}

pub open spec fn base_v(w: Vector3, u: Vector3) -> Vector3 {
    vcruz(w, u)
}

impl Camara {
    /// Every derived vector is what the position, target, up vector and
    /// image-plane half sizes give.
    pub open spec fn bien_formada(&self) -> bool {
        let w = base_w(self.posicion, self.objetivo);
        let u = base_u(self.arriba, w);
        let v = base_v(w, u);
        let horizontal = vescala(u, suma(self.mitad_ancho, self.mitad_ancho));
        let vertical = vescala(v, suma(self.mitad_alto, self.mitad_alto));
        &&& self.w == w
        &&& self.u == u
        &&& self.v == v
        &&& self.horizontal == horizontal
        &&& self.vertical == vertical
        &&& self.esquina_inferior_izquierda == vresta(
            vresta(vresta(self.posicion, vescala(horizontal, MEDIO)), vescala(vertical, MEDIO)),
            w,
        )
    }

    /// The camera moved to `posicion`, everything else kept but the derived
    /// vectors.
    pub open spec fn movida(&self, c: Camara, posicion: Vector3) -> bool {
        &&& c.bien_formada()
        &&& c.posicion == posicion
        &&& c.objetivo == self.objetivo
        &&& c.arriba == self.arriba
        &&& c.aspecto == self.aspecto
        &&& c.mitad_ancho == self.mitad_ancho
        &&& c.mitad_alto == self.mitad_alto
    }

    pub open spec fn direccion_rayo(&self, s: i64, t: i64) -> Vector3 {
        vresta(
            vsuma(
                vsuma(self.esquina_inferior_izquierda, vescala(self.horizontal, s)),
                vescala(self.vertical, t),
            ),
            self.posicion,
        )
    }

    /// A camera at `posicion` looking at `objetivo`; `mitad_alto` is the
    /// tangent of half the vertical field of view and `aspecto` the image's
    /// width over its height.
    pub fn nueva(posicion: Vector3, objetivo: Vector3, arriba: Vector3, mitad_alto: i64, aspecto: i64) -> (r:
        Camara)
        ensures
            r.bien_formada(),
            r.posicion == posicion,
            r.objetivo == objetivo,
            r.arriba == arriba,
            r.aspecto == aspecto,
            r.mitad_alto == mitad_alto,
            r.mitad_ancho == producto(aspecto, mitad_alto),
    {
        let mut c = Camara {
            posicion,
            objetivo,
            arriba,
            aspecto,
            u: Vector3::cero(),
            v: Vector3::cero(),
            w: Vector3::cero(),
            mitad_ancho: multiplicar(aspecto, mitad_alto),
            mitad_alto,
            esquina_inferior_izquierda: Vector3::cero(),
            horizontal: Vector3::cero(),
            vertical: Vector3::cero(),
        };
        c.actualizar_vectores();
        c
    }

    /// The ray through the image-plane point `(s, t)`, with `(0, 0)` the
    /// lower-left corner and `(1, 1)` the upper-right one.
    pub fn obtener_rayo(&self, s: i64, t: i64) -> (r: Rayo)
        ensures
            r == (Rayo { origen: self.posicion, direccion: vnormalizar(self.direccion_rayo(s, t)) }),
    {
        let direccion = self.esquina_inferior_izquierda.sumar(&self.horizontal.escalar(s)).sumar(
            &self.vertical.escalar(t),
        ).restar(&self.posicion);
        Rayo::new(self.posicion, direccion)
    }

    /// Orbits about the vertical axis through the target by the angle whose
    /// cosine and sine are given, keeping the distance.
    pub fn rotar_horizontal(&mut self, coseno: i64, seno: i64)
        ensures
            old(self).movida(
                *final(self),
                vsuma(
                    old(self).objetivo,
                    vescala(
                        giro_horizontal(vnormalizar(vresta(old(self).posicion, old(self).objetivo)), coseno, seno),
                        vlongitud(vresta(old(self).posicion, old(self).objetivo)),
                    ),
                ),
            ),
    {
        let hacia = self.posicion.restar(&self.objetivo);
        let distancia: i64 = hacia.longitud();
        let d = hacia.normalizar();
        let nueva_x: i64 = restar(multiplicar(d.x, coseno), multiplicar(d.z, seno));
        let nueva_z: i64 = sumar(multiplicar(d.x, seno), multiplicar(d.z, coseno));
        self.posicion = self.objetivo.sumar(&Vector3::new(nueva_x, d.y, nueva_z).escalar(distancia));
        self.actualizar_vectores();
    }

    /// Tilts the view by adding `angulo` to the vertical component of the
    /// view direction, kept within `LIMITE_VERTICAL`, at the same distance.
    pub fn rotar_vertical(&mut self, angulo: i64)
        ensures
            old(self).movida(
                *final(self),
                vsuma(
                    old(self).objetivo,
                    vescala(
                        giro_vertical(vnormalizar(vresta(old(self).posicion, old(self).objetivo)), angulo),
                        vlongitud(vresta(old(self).posicion, old(self).objetivo)),
                    ),
                ),
            ),
            -LIMITE_VERTICAL <= altura_vertical(
                vnormalizar(vresta(old(self).posicion, old(self).objetivo)),
                angulo,
            ) <= LIMITE_VERTICAL,
    {
        let hacia = self.posicion.restar(&self.objetivo);
        let distancia: i64 = hacia.longitud();
        let d = hacia.normalizar();
        let nueva_y: i64 = max_escalar(-LIMITE_VERTICAL, min_escalar(sumar(d.y, angulo), LIMITE_VERTICAL));
        let factor: i64 = raiz_cuadrada(restar(UNO, multiplicar(nueva_y, nueva_y)));
        let plana = Vector3::new(d.x, 0, d.z).normalizar();
        let nueva = Vector3::new(multiplicar(plana.x, factor), nueva_y, multiplicar(plana.z, factor));
        self.posicion = self.objetivo.sumar(&nueva.escalar(distancia));
        self.actualizar_vectores();
    }

    /// Scales the distance to the target by `factor`, but not below
    /// `DISTANCIA_MINIMA`.
    pub fn acercar(&mut self, factor: i64)
        ensures
            old(self).movida(
                *final(self),
                vsuma(
                    old(self).objetivo,
                    vescala(
                        vnormalizar(vresta(old(self).posicion, old(self).objetivo)),
                        maximo(
                            producto(vlongitud(vresta(old(self).posicion, old(self).objetivo)), factor),
                            DISTANCIA_MINIMA,
                        ),
                    ),
                ),
            ),
    {
        let hacia = self.posicion.restar(&self.objetivo);
        let direccion = hacia.normalizar();
        let distancia: i64 = max_escalar(multiplicar(hacia.longitud(), factor), DISTANCIA_MINIMA);
        self.posicion = self.objetivo.sumar(&direccion.escalar(distancia));
        self.actualizar_vectores();
    }

    fn actualizar_vectores(&mut self)
        ensures
            final(self).bien_formada(),
            final(self).posicion == old(self).posicion,
            final(self).objetivo == old(self).objetivo,
            final(self).arriba == old(self).arriba,
            final(self).aspecto == old(self).aspecto,
            final(self).mitad_ancho == old(self).mitad_ancho,
            final(self).mitad_alto == old(self).mitad_alto,
    {
        self.w = self.posicion.restar(&self.objetivo).normalizar();
        self.u = self.arriba.cruz(&self.w).normalizar();
        self.v = self.w.cruz(&self.u);
        self.horizontal = self.u.escalar(sumar(self.mitad_ancho, self.mitad_ancho));
        self.vertical = self.v.escalar(sumar(self.mitad_alto, self.mitad_alto));
        self.esquina_inferior_izquierda = self.posicion.restar(&self.horizontal.escalar(MEDIO)).restar(
            &self.vertical.escalar(MEDIO),
        ).restar(&self.w);
    }
}

/// The unit direction `d` turned about the vertical axis.
pub open spec fn giro_horizontal(d: Vector3, coseno: i64, seno: i64) -> Vector3 {
    Vector3 {
        x: resta(producto(d.x, coseno), producto(d.z, seno)),
        y: d.y,
        z: suma(producto(d.x, seno), producto(d.z, coseno)),
    }
}

/// The new vertical component of the view direction after a tilt.
pub open spec fn altura_vertical(d: Vector3, angulo: i64) -> i64 {
    maximo(-LIMITE_VERTICAL as i64, minimo(suma(d.y, angulo), LIMITE_VERTICAL))
}

/// The unit direction `d` tilted: its vertical component becomes
/// `altura_vertical`, its horizontal part keeps its heading.
pub open spec fn giro_vertical(d: Vector3, angulo: i64) -> Vector3 {
    let y = altura_vertical(d, angulo);
    let factor = raiz(resta(UNO, producto(y, y)));
    let plana = vnormalizar(Vector3 { x: d.x, y: 0, z: d.z });
    Vector3 { x: producto(plana.x, factor), y, z: producto(plana.z, factor) }
}

} // verus!
