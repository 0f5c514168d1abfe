use trazador::escalar::UNO;
use trazador::geometria::{Cubo, Figura};
use trazador::iluminacion::crear_iluminacion_minecraft;
use trazador::materiales::Material;
use trazador::mundo::{crear_escena_minecraft_masiva, crear_escena_minecraft_simple, limitar_altura, LADO_PAISAJE};
use trazador::vector::Vector3;

#[test]
fn mundo_en_anillo() {
    let escena = crear_escena_minecraft_masiva();
    assert_eq!(escena.objetos.len(), 167);
    assert_eq!(escena.luces.len(), 2);
    assert_eq!(escena.luces[0].intensidad, Vector3::new(200 * UNO, 200 * UNO, 200 * UNO));
    assert_eq!(
        escena.objetos[0],
        Figura::Cubo(Cubo::con_limites(
            Vector3::new(-16 * UNO, -UNO, -16 * UNO),
            Vector3::new(-14 * UNO, 0, -14 * UNO),
            Material::stone_texturizado(),
        ))
    );
    assert_eq!(
        escena.objetos[55],
        Figura::Cubo(Cubo::con_limites(
            Vector3::new(-UNO, -UNO, -UNO),
            Vector3::new(UNO, 0, UNO),
            Material::grass_top_texturizado(),
        ))
    );
}

#[test]
fn paisaje_llano() {
    let alturas = vec![vec![5i64; LADO_PAISAJE]; LADO_PAISAJE];
    let escena = crear_escena_minecraft_simple(&alturas);
    assert_eq!(escena.objetos.len(), 8512);
    assert_eq!(escena.luces, crear_iluminacion_minecraft());
    assert_eq!(
        escena.objetos[4],
        Figura::Cubo(Cubo::con_limites(
            Vector3::new(-20 * UNO, 4 * UNO, -20 * UNO),
            Vector3::new(-19 * UNO, 5 * UNO, -19 * UNO),
            Material::grass_top_texturizado(),
        ))
    );
}

#[test]
fn alturas_limitadas() {
    assert_eq!(limitar_altura(-3), 1);
    assert_eq!(limitar_altura(0), 1);
    assert_eq!(limitar_altura(7), 7);
    assert_eq!(limitar_altura(40), 15);
    let alturas = vec![vec![100i64; LADO_PAISAJE]; LADO_PAISAJE];
    let escena = crear_escena_minecraft_simple(&alturas);
    assert!(escena.objetos.len() > 40 * 40 * 15);
}
