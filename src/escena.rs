//! Scenes: primitives and lights, with the nearest-hit and shadow queries.

use vstd::prelude::*;
use crate::escalar::{resta, restar};
use crate::geometria::{interseccion_figura, Figura, Interseccion, Rayo, EPSILON};
use crate::iluminacion::Luz;

verus! {

pub struct Escena {
    pub objetos: Vec<Figura>,
    pub luces: Vec<Luz>,
}

/// The nearest hit among `objs`, scanned in order: a later hit replaces the
/// kept one only when its parameter is strictly smaller.
pub open spec fn mas_cercana(objs: Seq<Figura>, r: Rayo) -> Option<Interseccion>
    decreases objs.len(),
{
    if objs.len() == 0 {
        None
    } else {
        let previa = mas_cercana(objs.drop_last(), r);
        match interseccion_figura(objs.last(), r) {
            Some(h) => match previa {
                Some(p) => if h.t < p.t {
                    Some(h)
                } else {
                    previa
                },
                None => Some(h),
            },
            None => previa,
        }
    }
}

/// `f` is hit by `r` closer than `EPSILON` short of `distancia`.
pub open spec fn obstruye(f: Figura, r: Rayo, distancia: i64) -> bool {
    match interseccion_figura(f, r) {
        Some(h) => h.t < resta(distancia, EPSILON),
        None => false,
    }
}

pub open spec fn hay_obstaculo(objs: Seq<Figura>, r: Rayo, distancia: i64) -> bool {
    exists|i: int| 0 <= i < objs.len() && obstruye(#[trigger] objs[i], r, distancia)
}

impl Escena {
    pub fn nueva() -> (r: Escena)
        ensures
            r.objetos@ == Seq::<Figura>::empty(),
            r.luces@ == Seq::<Luz>::empty(),
    {
        Escena { objetos: Vec::new(), luces: Vec::new() }
    }

    pub fn agregar_objeto(&mut self, objeto: Figura)
        ensures
            final(self).objetos@ == old(self).objetos@.push(objeto),
            final(self).luces@ == old(self).luces@,
    {
        self.objetos.push(objeto);
    }

    pub fn agregar_luz(&mut self, luz: Luz)
        ensures
            final(self).luces@ == old(self).luces@.push(luz),
            final(self).objetos@ == old(self).objetos@,
    {
        self.luces.push(luz);
    }

    pub fn intersectar(&self, rayo: &Rayo) -> (r: Option<Interseccion>)
        ensures
            r == mas_cercana(self.objetos@, *rayo),
            match r {
                Some(h) => {
                    &&& exists|i: int|
                        0 <= i < self.objetos@.len() && interseccion_figura(#[trigger] self.objetos@[i], *rayo)
                            == Some(h)
                    &&& forall|j: int|
                        0 <= j < self.objetos@.len() && (#[trigger] interseccion_figura(self.objetos@[j], *rayo)).is_some()
                            ==> h.t <= interseccion_figura(self.objetos@[j], *rayo).unwrap().t
                },
                None => forall|j: int|
                    0 <= j < self.objetos@.len() ==> (#[trigger] interseccion_figura(self.objetos@[j], *rayo)).is_none(),
            },
    {
        proof {
            lema_mas_cercana(self.objetos@, *rayo);
        }
        let mut mejor: Option<Interseccion> = None;
        let mut i: usize = 0;
        while i < self.objetos.len()
            invariant
                i <= self.objetos@.len(),
                mejor == mas_cercana(self.objetos@.subrange(0, i as int), *rayo),
            decreases self.objetos@.len() - i,
        {
            let h = self.objetos[i].intersectar(rayo);
            assert(self.objetos@.subrange(0, i + 1).drop_last() =~= self.objetos@.subrange(0, i as int));
            match h {
                Some(nueva) => {
                    match mejor {
                        Some(p) => {
                            if nueva.t < p.t {
                                mejor = Some(nueva);
                            }
                        },
                        None => {
                            mejor = Some(nueva);
                        },
                    }
                },
                None => {},
            }
            i = i + 1;
        }
        assert(self.objetos@.subrange(0, self.objetos@.len() as int) =~= self.objetos@);
        mejor
    }

    pub fn hay_obstruccion(&self, rayo: &Rayo, distancia_maxima: i64) -> (r: bool)
        ensures
            r == hay_obstaculo(self.objetos@, *rayo, distancia_maxima),
    {
        let limite: i64 = restar(distancia_maxima, EPSILON);
        let mut i: usize = 0;
        while i < self.objetos.len()
            invariant
                i <= self.objetos@.len(),
                limite == resta(distancia_maxima, EPSILON),
                forall|j: int| 0 <= j < i ==> !obstruye(#[trigger] self.objetos@[j], *rayo, distancia_maxima),
            decreases self.objetos@.len() - i,
        {
            match self.objetos[i].intersectar(rayo) {
                Some(h) => {
                    if h.t < limite {
                        assert(obstruye(self.objetos@[i as int], *rayo, distancia_maxima));
                        return true;
                    }
                },
                None => {},
            }
            i = i + 1;
        }
        false
    }
}

} // verus!

verus! {

/// The nearest hit is a hit of one of the primitives, and no primitive is
/// hit strictly nearer; when there is none, no primitive is hit at all.
pub proof fn lema_mas_cercana(objs: Seq<Figura>, r: Rayo)
    ensures
        match mas_cercana(objs, r) {
            Some(h) => {
                &&& exists|i: int| 0 <= i < objs.len() && interseccion_figura(#[trigger] objs[i], r) == Some(h)
                &&& forall|j: int|
                    0 <= j < objs.len() && (#[trigger] interseccion_figura(objs[j], r)).is_some()
                        ==> h.t <= interseccion_figura(objs[j], r).unwrap().t
            },
            None => forall|j: int| 0 <= j < objs.len() ==> (#[trigger] interseccion_figura(objs[j], r)).is_none(),
        },
    decreases objs.len(),
{
    if objs.len() > 0 {
        let resto = objs.drop_last();
        let n = objs.len() - 1;
        lema_mas_cercana(resto, r);
        assert forall|j: int| 0 <= j < resto.len() implies #[trigger] resto[j] == objs[j] by {}
        let ultima = interseccion_figura(objs[n], r);
        match mas_cercana(resto, r) {
            Some(p) => {
                let i = choose|i: int|
                    0 <= i < resto.len() && interseccion_figura(#[trigger] resto[i], r) == Some(p);
                assert(interseccion_figura(objs[i], r) == Some(p));
                assert forall|j: int|
                    0 <= j < n && (#[trigger] interseccion_figura(objs[j], r)).is_some() implies p.t
                    <= interseccion_figura(objs[j], r).unwrap().t by {
                    assert(interseccion_figura(resto[j], r).is_some());
                }
            },
            None => {
                assert forall|j: int| 0 <= j < n implies (#[trigger] interseccion_figura(objs[j], r)).is_none() by {
                    assert(interseccion_figura(resto[j], r).is_none());
                }
            },
        }
        match ultima {
            Some(hn) => {
                assert(interseccion_figura(objs[n], r) == Some(hn));
            },
            None => {},
        }
    }
}

} // verus!

verus! {

/// Two lists holding the same primitives, in any order and with any
/// repetitions, agree on whether a shadow ray is blocked.
pub proof fn lema_obstruccion_sin_orden(a: Seq<Figura>, b: Seq<Figura>, r: Rayo, distancia: i64)
    requires
        forall|f: Figura| a.contains(f) <==> b.contains(f),
    ensures
        hay_obstaculo(a, r, distancia) == hay_obstaculo(b, r, distancia),
{
    if hay_obstaculo(a, r, distancia) {
        let i = choose|i: int| 0 <= i < a.len() && obstruye(#[trigger] a[i], r, distancia);
        assert(a.contains(a[i]));
        let j = choose|j: int| 0 <= j < b.len() && b[j] == a[i];
        assert(obstruye(b[j], r, distancia));
    }
    if hay_obstaculo(b, r, distancia) {
        let j = choose|j: int| 0 <= j < b.len() && obstruye(#[trigger] b[j], r, distancia);
        assert(b.contains(b[j]));
        let i = choose|i: int| 0 <= i < a.len() && a[i] == b[j];
        assert(obstruye(a[i], r, distancia));
    }
}

/// Two lists holding the same primitives, in any order and with any
/// repetitions, give a nearest hit at the same distance, or both none.
pub proof fn lema_mas_cercana_sin_orden(a: Seq<Figura>, b: Seq<Figura>, r: Rayo)
    requires
        forall|f: Figura| a.contains(f) <==> b.contains(f),
    ensures
        mas_cercana(a, r).is_some() == mas_cercana(b, r).is_some(),
        mas_cercana(a, r).is_some() ==> mas_cercana(a, r).unwrap().t == mas_cercana(b, r).unwrap().t,
{
    lema_mas_cercana(a, r);
    lema_mas_cercana(b, r);
    match mas_cercana(a, r) {
        Some(ha) => {
            let i = choose|i: int| 0 <= i < a.len() && interseccion_figura(#[trigger] a[i], r) == Some(ha);
            assert(a.contains(a[i]));
            let j = choose|j: int| 0 <= j < b.len() && b[j] == a[i];
            assert(interseccion_figura(b[j], r).is_some());
            match mas_cercana(b, r) {
                Some(hb) => {
                    let k = choose|k: int| 0 <= k < b.len() && interseccion_figura(#[trigger] b[k], r) == Some(hb);
                    assert(b.contains(b[k]));
                    let m = choose|m: int| 0 <= m < a.len() && a[m] == b[k];
                    assert(interseccion_figura(a[m], r).is_some());
                },
                None => {},
            }
        },
        None => {
            match mas_cercana(b, r) {
                Some(hb) => {
                    let k = choose|k: int| 0 <= k < b.len() && interseccion_figura(#[trigger] b[k], r) == Some(hb);
                    assert(b.contains(b[k]));
                    let m = choose|m: int| 0 <= m < a.len() && a[m] == b[k];
                    assert(interseccion_figura(a[m], r).is_some());
                },
                None => {},
            }
        },
    }
}

} // verus!
