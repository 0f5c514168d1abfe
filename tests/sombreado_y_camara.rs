use trazador::camara::{Camara, DISTANCIA_MINIMA};
use trazador::diorama::crear_diorama;
use trazador::escalar::UNO;
use trazador::escena::Escena;
use trazador::geometria::{Cubo, Figura, Plano, Rayo};
use trazador::iluminacion::{crear_iluminacion_diorama, crear_iluminacion_minecraft, Luz, TipoLuz};
use trazador::materiales::{Material, NombreTextura};
use trazador::sombreado::{aporte_de_luz, calcular_color, color_fondo, reflejar, refractar};
use trazador::vector::Vector3;
use trazador::vista::{apply_shadow, ColorRgba};

fn v(x: i64, y: i64, z: i64) -> Vector3 {
    Vector3::new(x, y, z)
}

fn suelo(material: Material) -> Escena {
    let mut escena = Escena::nueva();
    escena.agregar_objeto(Figura::Plano(Plano::nuevo(v(0, 0, 0), v(0, UNO, 0), material)));
    escena
}

#[test]
fn fondo_cenit_y_horizonte() {
    assert_eq!(color_fondo(&Rayo::new(v(0, 0, 0), v(0, UNO, 0))), v(UNO, 510_000, 270_000));
    assert_eq!(color_fondo(&Rayo::new(v(0, 0, 0), v(0, -UNO, 0))), v(UNO, 750_000, 510_000));
    assert_eq!(color_fondo(&Rayo::new(v(0, 0, 0), v(UNO, 0, 0))), v(UNO, 630_000, 390_000));
}

#[test]
fn profundidad_cero_es_negro() {
    let mut escena = suelo(Material::oro());
    escena.agregar_luz(Luz::ambiental(v(UNO, UNO, UNO), UNO));
    let r = Rayo::new(v(0, UNO, 0), v(0, -UNO, 0));
    assert_eq!(calcular_color(&r, &escena, 0), Vector3::cero());
    let cielo = Rayo::new(v(0, UNO, 0), v(0, UNO, 0));
    assert_eq!(calcular_color(&cielo, &escena, 0), Vector3::cero());
    assert_eq!(calcular_color(&cielo, &escena, 1), v(UNO, 510_000, 270_000));
}

#[test]
fn luz_directa_ambiental_y_puntual() {
    let mut escena = suelo(Material::piedra());
    escena.agregar_luz(Luz::ambiental(v(UNO, UNO, UNO), 200_000));
    escena.agregar_luz(Luz::puntual(v(0, 10 * UNO, 0), v(UNO, UNO, UNO), UNO));
    let r = Rayo::new(v(0, UNO, 0), v(0, -UNO, 0));
    assert_eq!(calcular_color(&r, &escena, 1), v(1_700_000, 1_700_000, 1_700_000));
}

#[test]
fn luz_direccional_usa_su_direccion() {
    let mut escena = suelo(Material::piedra());
    escena.agregar_luz(Luz::direccional(v(0, 2 * UNO, 0), v(UNO, UNO, UNO), 500_000));
    let r = Rayo::new(v(0, UNO, 0), v(0, -UNO, 0));
    assert_eq!(calcular_color(&r, &escena, 1), v(UNO, UNO, UNO));
}

#[test]
fn reflexion_mezcla_con_el_rebote() {
    let mut escena = suelo(Material::oro());
    escena.agregar_luz(Luz::ambiental(v(UNO, UNO, UNO), 200_000));
    let r = Rayo::new(v(0, UNO, 0), v(0, -UNO, 0));
    assert_eq!(calcular_color(&r, &escena, 1), v(480_000, 400_000, 80_000));
    assert_eq!(calcular_color(&r, &escena, 2), v(1_080_000, 706_000, 242_000));
}

#[test]
fn sombra_anula_y_sin_caja_aporta() {
    let luz = Luz::puntual(v(0, 10 * UNO, 0), v(UNO, UNO, UNO), UNO);
    let mut escena = suelo(Material::piedra());
    let libre = aporte_de_luz(&escena, &luz, &v(0, 0, 0), &v(0, UNO, 0));
    assert!(libre.x > 0 && libre.y > 0 && libre.z > 0);
    assert_eq!(libre, v(UNO, UNO, UNO));
    escena.agregar_objeto(Figura::Cubo(Cubo::nuevo(v(0, 5 * UNO, 0), 2 * UNO, Material::piedra())));
    let sombra = Rayo::new(v(0, 1_000, 0), v(0, UNO, 0));
    assert!(escena.hay_obstruccion(&sombra, 10 * UNO));
    assert_eq!(aporte_de_luz(&escena, &luz, &v(0, 0, 0), &v(0, UNO, 0)), Vector3::cero());
}

#[test]
fn reflejo_especular() {
    assert_eq!(reflejar(&v(UNO, -UNO, 0), &v(0, UNO, 0)), v(UNO, UNO, 0));
    assert_eq!(reflejar(&v(0, 0, -UNO), &v(0, 0, UNO)), v(0, 0, UNO));
}

#[test]
fn refraccion_y_angulo_critico() {
    let n = v(0, UNO, 0);
    assert_eq!(refractar(&v(0, -UNO, 0), &n, 1_500_000), Some(v(0, -UNO, 0)));
    assert_eq!(refractar(&v(642_788, -766_044, 0), &n, 1_500_000), Some(v(964_182, -265_243, 0)));
    assert_eq!(refractar(&v(707_107, -707_107, 0), &n, 1_500_000), None);
    assert_eq!(refractar(&v(707_107, -707_107, 0), &n, UNO).is_some(), true);
}

#[test]
fn reflexion_total_no_lanza_rayo_refractado() {
    let vidrio = Material::nuevo(v(UNO, UNO, UNO), 0, 500_000, 1_500_000, 0, 0);
    let escena = suelo(vidrio);
    let rasante = Rayo::new(v(0, UNO, 0), v(707_107, -707_107, 0));
    assert_eq!(calcular_color(&rasante, &escena, 3), v(UNO, UNO, UNO));
    let recto = Rayo::new(v(0, UNO, 0), v(0, -UNO, 0));
    assert_eq!(calcular_color(&recto, &escena, 1), v(500_000, 500_000, 500_000));
    assert_eq!(calcular_color(&recto, &escena, 2), v(1_000_000, 875_000, 755_000));
}

fn casi(a: i64, b: i64) -> bool {
    (a - b).abs() <= 50
}

fn base_ortonormal(c: &Camara) {
    assert!(casi(c.u.punto(&c.v), 0));
    assert!(casi(c.u.punto(&c.w), 0));
    assert!(casi(c.v.punto(&c.w), 0));
    assert!(casi(c.u.longitud(), UNO));
    assert!(casi(c.v.longitud(), UNO));
    assert!(casi(c.w.longitud(), UNO));
}

#[test]
fn camara_base_ortonormal() {
    let mut c = Camara::nueva(v(10 * UNO, 8 * UNO, 10 * UNO), v(0, 2 * UNO, 0), v(0, UNO, 0), 414_214, 1_333_333);
    base_ortonormal(&c);
    c.rotar_horizontal(955_336, 295_520);
    base_ortonormal(&c);
    c.rotar_vertical(200_000);
    base_ortonormal(&c);
    c.rotar_vertical(5 * UNO);
    base_ortonormal(&c);
    c.acercar(500_000);
    base_ortonormal(&c);
    c.acercar(0);
    base_ortonormal(&c);
}

#[test]
fn camara_mueve_y_limita() {
    let mut c = Camara::nueva(v(0, 0, 10 * UNO), v(0, 0, 0), v(0, UNO, 0), UNO, UNO);
    assert_eq!(c.w, v(0, 0, UNO));
    assert_eq!(c.u, v(UNO, 0, 0));
    assert_eq!(c.v, v(0, UNO, 0));
    let centro = c.obtener_rayo(500_000, 500_000);
    assert_eq!(centro.origen, v(0, 0, 10 * UNO));
    assert_eq!(centro.direccion, v(0, 0, -UNO));
    c.acercar(100_000);
    assert_eq!(c.posicion, v(0, 0, DISTANCIA_MINIMA));
    c.acercar(2 * UNO);
    assert_eq!(c.posicion, v(0, 0, 4 * UNO));
    c.rotar_horizontal(0, UNO);
    assert_eq!(c.posicion, v(-4 * UNO, 0, 0));
    c.rotar_vertical(3 * UNO);
    assert_eq!(c.posicion.y, 3_600_000);
}

#[test]
fn materiales_y_luces() {
    let m = Material::piedra();
    assert_eq!(m.albedo, v(500_000, 500_000, 500_000));
    assert_eq!(m.rugosidad, 900_000);
    assert_eq!(m.textura_nombre, None);
    assert_eq!(Material::vidrio().indice_refraccion, 1_500_000);
    assert_eq!(Material::agua().indice_refraccion, 1_330_000);
    assert_eq!(Material::grass_top_texturizado().textura_nombre, Some(NombreTextura::GrassTop));
    let t = Material::con_textura(v(1, 2, 3), 4, 5, 6, 7, 8, NombreTextura::Stone);
    assert_eq!(t.textura_nombre, Some(NombreTextura::Stone));
    assert_eq!(t.brillo, 8);
    let l = Luz::puntual(v(0, UNO, 0), v(UNO, 500_000, 0), 2 * UNO);
    assert_eq!(l.intensidad, v(2 * UNO, UNO, 0));
    assert_eq!(l.tipo_luz, TipoLuz::Puntual);
    assert_eq!(Luz::ambiental(v(UNO, UNO, UNO), 400_000).posicion, Vector3::cero());
    let luces = crear_iluminacion_minecraft();
    assert_eq!(luces.len(), 3);
    assert_eq!(luces[1].tipo_luz, TipoLuz::Ambiental);
    assert_eq!(luces[0].intensidad, v(1_200_000, 780_000, 420_000));
    assert_eq!(crear_iluminacion_diorama(), luces);
}

#[test]
fn diorama_completo() {
    let escena = crear_diorama();
    assert_eq!(escena.objetos.len(), 1701);
    assert_eq!(escena.luces.len(), 3);
    assert_eq!(escena.objetos[0], Figura::Cubo(Cubo::nuevo(v(0, 0, 0), UNO, Material::pasto_texturizado())));
    let flores = [Material::flor_roja(), Material::flor_amarilla(), Material::flor_azul(), Material::flor_rosa()];
    for f in &escena.objetos[1693..] {
        match f {
            Figura::Cubo(c) => assert!(flores.contains(&c.material)),
            _ => panic!("a flower is a box"),
        }
    }
}

#[test]
fn color_en_sombra() {
    let c = ColorRgba { r: 255, g: 100, b: 7, a: 200 };
    assert_eq!(apply_shadow(c, true), ColorRgba { r: 127, g: 50, b: 3, a: 200 });
    assert_eq!(apply_shadow(c, false), c);
}
