use trazador::escalar::{
    dividir, multiplicar, negar, raiz_cuadrada, restar, sumar, LIMITE, UNO,
};
use trazador::escena::Escena;
use trazador::geometria::{cara_mas_cercana, Cubo, Esfera, Figura, Plano, Rayo};
use trazador::iluminacion::Luz;
use trazador::materiales::Material;
use trazador::vector::Vector3;

fn v(x: i64, y: i64, z: i64) -> Vector3 {
    Vector3::new(x, y, z)
}

#[test]
fn escalares_exactos() {
    assert_eq!(multiplicar(1_500_000, 2_000_000), 3_000_000);
    assert_eq!(dividir(UNO, 4 * UNO), 250_000);
    assert_eq!(raiz_cuadrada(4 * UNO), 2 * UNO);
    assert_eq!(raiz_cuadrada(2 * UNO), 1_414_213);
    assert_eq!(raiz_cuadrada(-UNO), 0);
    assert_eq!(multiplicar(-1, 500_000), 0);
    assert_eq!(negar(i64::MIN), LIMITE);
}

#[test]
fn escalares_saturan() {
    assert_eq!(sumar(LIMITE, 1), LIMITE);
    assert_eq!(restar(-LIMITE, UNO), -LIMITE);
    assert_eq!(multiplicar(LIMITE, LIMITE), LIMITE);
    assert_eq!(dividir(UNO, 0), LIMITE);
    assert_eq!(dividir(-UNO, 0), -LIMITE);
    assert_eq!(dividir(0, 0), 0);
}

#[test]
fn vectores_basicos() {
    assert_eq!(v(3 * UNO, 4 * UNO, 0).normalizar(), v(600_000, 800_000, 0));
    assert_eq!(v(3 * UNO, 4 * UNO, 0).longitud(), 5 * UNO);
    assert_eq!(v(UNO, 0, 0).cruz(&v(0, UNO, 0)), v(0, 0, UNO));
    assert_eq!(v(UNO, 2 * UNO, 3 * UNO).punto(&v(4 * UNO, 5 * UNO, 6 * UNO)), 32 * UNO);
    assert_eq!(Vector3::cero().normalizar(), Vector3::cero());
}

#[test]
fn rayo_normaliza_direccion() {
    let r = Rayo::new(v(UNO, 0, 0), v(0, 0, -3 * UNO));
    assert_eq!(r.direccion, v(0, 0, -UNO));
    assert_eq!(r.punto_en(2 * UNO), v(UNO, 0, -2 * UNO));
}

#[test]
fn cubo_desde_fuera_hacia_el_centro() {
    let c = Cubo::nuevo(v(0, 0, 0), 2 * UNO, Material::piedra());
    let arriba = c.intersectar(&Rayo::new(v(0, 0, 5 * UNO), v(0, 0, -UNO))).unwrap();
    assert_eq!(arriba.t, 4 * UNO);
    assert_eq!(arriba.normal, v(0, 0, UNO));
    assert_eq!(arriba.punto, v(0, 0, UNO));
    let lado = c.intersectar(&Rayo::new(v(5 * UNO, 0, 0), v(-UNO, 0, 0))).unwrap();
    assert_eq!(lado.t, 4 * UNO);
    assert_eq!(lado.normal, v(UNO, 0, 0));
    let abajo = c.intersectar(&Rayo::new(v(0, -7 * UNO, 0), v(0, UNO, 0))).unwrap();
    assert_eq!(abajo.t, 6 * UNO);
    assert_eq!(abajo.normal, v(0, -UNO, 0));
}

#[test]
fn cubo_con_limites_y_fallos() {
    let c = Cubo::con_limites(v(UNO, UNO, UNO), v(3 * UNO, 2 * UNO, 4 * UNO), Material::oro());
    let h = c.intersectar(&Rayo::new(v(2 * UNO, 10 * UNO, 2 * UNO), v(0, -UNO, 0))).unwrap();
    assert_eq!(h.t, 8 * UNO);
    assert_eq!(h.normal, v(0, UNO, 0));
    assert_eq!(h.material, Material::oro());
    assert!(c.intersectar(&Rayo::new(v(2 * UNO, 10 * UNO, 2 * UNO), v(0, UNO, 0))).is_none());
    assert!(c.intersectar(&Rayo::new(v(10 * UNO, 10 * UNO, 2 * UNO), v(0, -UNO, 0))).is_none());
}

#[test]
fn cubo_desde_dentro_sale_por_la_cara_lejana() {
    let c = Cubo::nuevo(v(0, 0, 0), 2 * UNO, Material::piedra());
    let h = c.intersectar(&Rayo::new(v(0, 0, 0), v(UNO, 0, 0))).unwrap();
    assert_eq!(h.t, UNO);
    assert_eq!(h.normal, v(UNO, 0, 0));
}

#[test]
fn cara_empatada_elige_la_primera() {
    assert_eq!(cara_mas_cercana([5, 3, 3, 7, 9, 3]), 1);
    assert_eq!(cara_mas_cercana([0, 0, 0, 0, 0, 0]), 0);
    assert_eq!(cara_mas_cercana([9, 8, 7, 6, 5, 4]), 5);
}

#[test]
fn esfera_sobre_el_eje() {
    for radio in [UNO, 2 * UNO, 1_500_000] {
        let e = Esfera::nueva(v(0, 0, 0), radio, Material::vidrio());
        let h = e.intersectar(&Rayo::new(v(0, 0, 5 * UNO), v(0, 0, -UNO))).unwrap();
        assert_eq!(h.t, 5 * UNO - radio);
        assert_eq!(h.normal, v(0, 0, UNO));
        assert_eq!(h.punto, v(0, 0, radio));
    }
}

#[test]
fn esfera_fallada_y_desde_dentro() {
    let e = Esfera::nueva(v(0, 0, 0), UNO, Material::vidrio());
    assert!(e.intersectar(&Rayo::new(v(3 * UNO, 0, 5 * UNO), v(0, 0, -UNO))).is_none());
    assert!(e.intersectar(&Rayo::new(v(0, 0, 5 * UNO), v(0, 0, UNO))).is_none());
    let dentro = e.intersectar(&Rayo::new(v(0, 0, 0), v(0, 0, UNO))).unwrap();
    assert_eq!(dentro.t, UNO);
    assert_eq!(dentro.normal, v(0, 0, UNO));
}

#[test]
fn plano_paralelo_no_se_corta() {
    let p = Plano::nuevo(v(0, 0, 0), v(0, 2 * UNO, 0), Material::cesped());
    assert_eq!(p.normal, v(0, UNO, 0));
    assert!(p.intersectar(&Rayo::new(v(0, UNO, 0), v(UNO, 0, 0))).is_none());
    assert!(p.intersectar(&Rayo::new(v(0, UNO, 0), v(0, 0, -UNO))).is_none());
    let h = p.intersectar(&Rayo::new(v(0, 3 * UNO, 0), v(0, -UNO, 0))).unwrap();
    assert_eq!(h.t, 3 * UNO);
    assert_eq!(h.normal, v(0, UNO, 0));
    assert!(p.intersectar(&Rayo::new(v(0, 3 * UNO, 0), v(0, UNO, 0))).is_none());
}

#[test]
fn la_interseccion_mas_cercana_gana() {
    let mut escena = Escena::nueva();
    escena.agregar_objeto(Figura::Esfera(Esfera::nueva(v(0, 0, -10 * UNO), UNO, Material::oro())));
    escena.agregar_objeto(Figura::Esfera(Esfera::nueva(v(0, 0, -4 * UNO), UNO, Material::piedra())));
    escena.agregar_objeto(Figura::Esfera(Esfera::nueva(v(0, 0, -4 * UNO), UNO, Material::agua())));
    let h = escena.intersectar(&Rayo::new(v(0, 0, 0), v(0, 0, -UNO))).unwrap();
    assert_eq!(h.t, 3 * UNO);
    assert_eq!(h.material, Material::piedra());
    assert!(escena.intersectar(&Rayo::new(v(0, 0, 0), v(0, 0, UNO))).is_none());
    assert!(Escena::nueva().intersectar(&Rayo::new(v(0, 0, 0), v(0, 0, UNO))).is_none());
}

#[test]
fn obstruccion_respeta_la_distancia() {
    let mut escena = Escena::nueva();
    escena.agregar_objeto(Figura::Cubo(Cubo::nuevo(v(0, 5 * UNO, 0), 2 * UNO, Material::piedra())));
    let r = Rayo::new(v(0, 0, 0), v(0, UNO, 0));
    assert!(escena.hay_obstruccion(&r, 10 * UNO));
    assert!(!escena.hay_obstruccion(&r, 4 * UNO));
    assert!(!escena.hay_obstruccion(&Rayo::new(v(0, 0, 0), v(0, -UNO, 0)), 10 * UNO));
    escena.agregar_luz(Luz::ambiental(v(UNO, UNO, UNO), UNO));
    assert_eq!(escena.luces.len(), 1);
    assert_eq!(escena.objetos.len(), 1);
}

#[test]
fn orden_no_importa() {
    let a = Figura::Esfera(Esfera::nueva(v(0, 0, -6 * UNO), UNO, Material::oro()));
    let b = Figura::Cubo(Cubo::nuevo(v(0, 0, -3 * UNO), UNO, Material::piedra()));
    let c = Figura::Plano(Plano::nuevo(v(0, -UNO, 0), v(0, UNO, 0), Material::cesped()));
    let mut uno = Escena::nueva();
    let mut otro = Escena::nueva();
    for f in [a, b, c] {
        uno.agregar_objeto(f);
    }
    for f in [c, b, a, b] {
        otro.agregar_objeto(f);
    }
    let r = Rayo::new(v(0, 0, 0), v(0, 0, -UNO));
    assert_eq!(uno.intersectar(&r).unwrap().t, otro.intersectar(&r).unwrap().t);
    assert_eq!(uno.intersectar(&r).unwrap().t, 2_500_000);
    assert_eq!(uno.hay_obstruccion(&r, 3 * UNO), otro.hay_obstruccion(&r, 3 * UNO));
    assert_eq!(uno.hay_obstruccion(&r, 2 * UNO), false);
    assert_eq!(otro.hay_obstruccion(&r, 2 * UNO), false);
}
