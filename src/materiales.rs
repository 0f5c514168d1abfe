//! Materials: the shading coefficients a primitive carries.

use vstd::prelude::*;
use crate::vector::Vector3;

verus! {

/// The image a textured material samples; the application maps each to a file.
#[derive(Clone, Copy, Debug, PartialEq, Eq, Structural)]
pub enum NombreTextura {
    Pasto,
    Agua,
    Dirt,
    GrassTop,
    GrassSide,
    Stone,
    Cobblestone,
    Gravel,
    Water,
    OakLog,
    OakLeaves,
    BirchLog,
    BirchLeaves,
    JungleLog,
    JungleLeaves,
    CoalOre,
    IronOre,
}

/// Shading coefficients, all fixed-point: `albedo` is the base color,
/// `reflectividad` and `transparencia` are blend weights in `[0, 1]`.
#[derive(Clone, Copy, Debug, PartialEq, Eq, Structural)]
pub struct Material {
    pub albedo: Vector3,
    pub reflectividad: i64,
    pub transparencia: i64,
    pub indice_refraccion: i64,
    pub rugosidad: i64,
    pub brillo: i64,
    pub textura_nombre: Option<NombreTextura>,
}

impl Material {
    pub fn nuevo(
        albedo: Vector3,
        reflectividad: i64,
        transparencia: i64,
        indice_refraccion: i64,
        rugosidad: i64,
        brillo: i64,
    ) -> (r: Material)
        ensures
            r == (Material {
                albedo,
                reflectividad,
                transparencia,
                indice_refraccion,
                rugosidad,
                brillo,
                textura_nombre: None,
            }),
    {
        Material {
            albedo,
            reflectividad,
            transparencia,
            indice_refraccion,
            rugosidad,
            brillo,
            textura_nombre: None,
        }
    }

    pub fn con_textura(
        albedo: Vector3,
        reflectividad: i64,
        transparencia: i64,
        indice_refraccion: i64,
        rugosidad: i64,
        brillo: i64,
        textura: NombreTextura,
    ) -> (r: Material)
        ensures
            r == (Material {
                albedo,
                reflectividad,
                transparencia,
                indice_refraccion,
                rugosidad,
                brillo,
                textura_nombre: Some(textura),
            }),
    {
        Material {
            albedo,
            reflectividad,
            transparencia,
            indice_refraccion,
            rugosidad,
            brillo,
            textura_nombre: Some(textura),
        }
    }

    pub open spec fn piedra_spec() -> Material {
        Material {
            albedo: Vector3 { x: 500_000, y: 500_000, z: 500_000 },
            reflectividad: 0,
            transparencia: 0,
            indice_refraccion: 1_000_000,
            rugosidad: 900_000,
            brillo: 0,
            textura_nombre: None,
        }
    }

    /// Bloque de piedra - gris clásico de Minecraft
    pub fn piedra() -> (r: Material)
        ensures
            r == Material::piedra_spec(),
    {
        Material::nuevo(Vector3::new(500_000, 500_000, 500_000), 0, 0, 1_000_000, 900_000, 0)
    }

    pub open spec fn madera_roble_spec() -> Material {
        Material {
            albedo: Vector3 { x: 600_000, y: 400_000, z: 200_000 },
            reflectividad: 0,
            transparencia: 0,
            indice_refraccion: 1_000_000,
            rugosidad: 800_000,
            brillo: 0,
            textura_nombre: None,
        }
    }

    /// Madera de roble - café característico
    pub fn madera_roble() -> (r: Material)
        ensures
            r == Material::madera_roble_spec(),
    {
        Material::nuevo(Vector3::new(600_000, 400_000, 200_000), 0, 0, 1_000_000, 800_000, 0)
    }

    pub open spec fn oro_spec() -> Material {
        Material {
            albedo: Vector3 { x: 1_000_000, y: 800_000, z: 0 },
            reflectividad: 600_000,
            transparencia: 0,
            indice_refraccion: 1_000_000,
            rugosidad: 200_000,
            brillo: 700_000,
            textura_nombre: None,
        }
    }

    /// Bloque de oro - amarillo brillante
    pub fn oro() -> (r: Material)
        ensures
            r == Material::oro_spec(),
    {
        Material::nuevo(Vector3::new(1_000_000, 800_000, 0), 600_000, 0, 1_000_000, 200_000, 700_000)
    }

    pub open spec fn vidrio_spec() -> Material {
        Material {
            albedo: Vector3 { x: 800_000, y: 900_000, z: 1_000_000 },
            reflectividad: 100_000,
            transparencia: 800_000,
            indice_refraccion: 1_500_000,
            rugosidad: 0,
            brillo: 900_000,
            textura_nombre: None,
        }
    }

    /// Vidrio - transparente azulado
    pub fn vidrio() -> (r: Material)
        ensures
            r == Material::vidrio_spec(),
    {
        Material::nuevo(Vector3::new(800_000, 900_000, 1_000_000), 100_000, 800_000, 1_500_000, 0, 900_000)
    }

    pub open spec fn cesped_spec() -> Material {
        Material {
            albedo: Vector3 { x: 300_000, y: 700_000, z: 200_000 },
            reflectividad: 0,
            transparencia: 0,
            indice_refraccion: 1_000_000,
            rugosidad: 800_000,
            brillo: 0,
            textura_nombre: None,
        }
    }

    /// Césped - verde Minecraft característico
    pub fn cesped() -> (r: Material)
        ensures
            r == Material::cesped_spec(),
    {
        Material::nuevo(Vector3::new(300_000, 700_000, 200_000), 0, 0, 1_000_000, 800_000, 0)
    }

    pub open spec fn agua_spec() -> Material {
        Material {
            albedo: Vector3 { x: 200_000, y: 400_000, z: 800_000 },
            reflectividad: 200_000,
            transparencia: 700_000,
            indice_refraccion: 1_330_000,
            rugosidad: 0,
            brillo: 500_000,
            textura_nombre: None,
        }
    }

    /// Agua - azul clásico de Minecraft
    pub fn agua() -> (r: Material)
        ensures
            r == Material::agua_spec(),
    {
        Material::nuevo(Vector3::new(200_000, 400_000, 800_000), 200_000, 700_000, 1_330_000, 0, 500_000)
    }

    pub open spec fn lava_spec() -> Material {
        Material {
            albedo: Vector3 { x: 1_000_000, y: 400_000, z: 0 },
            reflectividad: 0,
            transparencia: 0,
            indice_refraccion: 1_000_000,
            rugosidad: 800_000,
            brillo: 1_000_000,
            textura_nombre: None,
        }
    }

    /// Lava - naranja-rojo intenso
    pub fn lava() -> (r: Material)
        ensures
            r == Material::lava_spec(),
    {
        Material::nuevo(Vector3::new(1_000_000, 400_000, 0), 0, 0, 1_000_000, 800_000, 1_000_000)
    }

    pub open spec fn tierra_spec() -> Material {
        Material {
            albedo: Vector3 { x: 400_000, y: 300_000, z: 200_000 },
            reflectividad: 0,
            transparencia: 0,
            indice_refraccion: 1_000_000,
            rugosidad: 1_000_000,
            brillo: 0,
            textura_nombre: None,
        }
    }

    /// Tierra - café oscuro
    pub fn tierra() -> (r: Material)
        ensures
            r == Material::tierra_spec(),
    {
        Material::nuevo(Vector3::new(400_000, 300_000, 200_000), 0, 0, 1_000_000, 1_000_000, 0)
    }

    pub open spec fn adoquin_spec() -> Material {
        Material {
            albedo: Vector3 { x: 400_000, y: 400_000, z: 400_000 },
            reflectividad: 0,
            transparencia: 0,
            indice_refraccion: 1_000_000,
            rugosidad: 900_000,
            brillo: 0,
            textura_nombre: None,
        }
    }

    /// Adoquín - gris oscuro texturizado
    pub fn adoquin() -> (r: Material)
        ensures
            r == Material::adoquin_spec(),
    {
        Material::nuevo(Vector3::new(400_000, 400_000, 400_000), 0, 0, 1_000_000, 900_000, 0)
    }

    pub open spec fn hojas_spec() -> Material {
        Material {
            albedo: Vector3 { x: 200_000, y: 600_000, z: 100_000 },
            reflectividad: 0,
            transparencia: 0,
            indice_refraccion: 1_000_000,
            rugosidad: 900_000,
            brillo: 0,
            textura_nombre: None,
        }
    }

    /// Hojas - verde más oscuro que el césped
    pub fn hojas() -> (r: Material)
        ensures
            r == Material::hojas_spec(),
    {
        Material::nuevo(Vector3::new(200_000, 600_000, 100_000), 0, 0, 1_000_000, 900_000, 0)
    }

    pub open spec fn cesped_claro_spec() -> Material {
        Material {
            albedo: Vector3 { x: 500_000, y: 1_000_000, z: 300_000 },
            reflectividad: 0,
            transparencia: 0,
            indice_refraccion: 1_000_000,
            rugosidad: 800_000,
            brillo: 0,
            textura_nombre: None,
        }
    }

    /// Césped claro - verde brillante
    pub fn cesped_claro() -> (r: Material)
        ensures
            r == Material::cesped_claro_spec(),
    {
        Material::nuevo(Vector3::new(500_000, 1_000_000, 300_000), 0, 0, 1_000_000, 800_000, 0)
    }

    pub open spec fn cesped_oscuro_spec() -> Material {
        Material {
            albedo: Vector3 { x: 150_000, y: 500_000, z: 100_000 },
            reflectividad: 0,
            transparencia: 0,
            indice_refraccion: 1_000_000,
            rugosidad: 800_000,
            brillo: 0,
            textura_nombre: None,
        }
    }

    /// Césped oscuro - verde profundo
    pub fn cesped_oscuro() -> (r: Material)
        ensures
            r == Material::cesped_oscuro_spec(),
    {
        Material::nuevo(Vector3::new(150_000, 500_000, 100_000), 0, 0, 1_000_000, 800_000, 0)
    }

    pub open spec fn piedra_oscura_spec() -> Material {
        Material {
            albedo: Vector3 { x: 300_000, y: 300_000, z: 300_000 },
            reflectividad: 0,
            transparencia: 0,
            indice_refraccion: 1_000_000,
            rugosidad: 900_000,
            brillo: 0,
            textura_nombre: None,
        }
    }

    /// Piedra oscura para montañas
    pub fn piedra_oscura() -> (r: Material)
        ensures
            r == Material::piedra_oscura_spec(),
    {
        Material::nuevo(Vector3::new(300_000, 300_000, 300_000), 0, 0, 1_000_000, 900_000, 0)
    }

    pub open spec fn granito_spec() -> Material {
        Material {
            albedo: Vector3 { x: 700_000, y: 400_000, z: 300_000 },
            reflectividad: 0,
            transparencia: 0,
            indice_refraccion: 1_000_000,
            rugosidad: 800_000,
            brillo: 0,
            textura_nombre: None,
        }
    }

    /// Granito rojizo para montañas
    pub fn granito() -> (r: Material)
        ensures
            r == Material::granito_spec(),
    {
        Material::nuevo(Vector3::new(700_000, 400_000, 300_000), 0, 0, 1_000_000, 800_000, 0)
    }

    pub open spec fn tierra_rica_spec() -> Material {
        Material {
            albedo: Vector3 { x: 300_000, y: 200_000, z: 100_000 },
            reflectividad: 0,
            transparencia: 0,
            indice_refraccion: 1_000_000,
            rugosidad: 1_000_000,
            brillo: 0,
            textura_nombre: None,
        }
    }

    /// Tierra rica - más oscura
    pub fn tierra_rica() -> (r: Material)
        ensures
            r == Material::tierra_rica_spec(),
    {
        Material::nuevo(Vector3::new(300_000, 200_000, 100_000), 0, 0, 1_000_000, 1_000_000, 0)
    }

    pub open spec fn arena_spec() -> Material {
        Material {
            albedo: Vector3 { x: 900_000, y: 800_000, z: 500_000 },
            reflectividad: 0,
            transparencia: 0,
            indice_refraccion: 1_000_000,
            rugosidad: 700_000,
            brillo: 0,
            textura_nombre: None,
        }
    }

    /// Arena dorada
    pub fn arena() -> (r: Material)
        ensures
            r == Material::arena_spec(),
    {
        Material::nuevo(Vector3::new(900_000, 800_000, 500_000), 0, 0, 1_000_000, 700_000, 0)
    }

    pub open spec fn hojas_claras_spec() -> Material {
        Material {
            albedo: Vector3 { x: 400_000, y: 900_000, z: 200_000 },
            reflectividad: 0,
            transparencia: 0,
            indice_refraccion: 1_000_000,
            rugosidad: 900_000,
            brillo: 0,
            textura_nombre: None,
        }
    }

    /// Hojas claras
    pub fn hojas_claras() -> (r: Material)
        ensures
            r == Material::hojas_claras_spec(),
    {
        Material::nuevo(Vector3::new(400_000, 900_000, 200_000), 0, 0, 1_000_000, 900_000, 0)
    }

    pub open spec fn hojas_oscuras_spec() -> Material {
        Material {
            albedo: Vector3 { x: 100_000, y: 400_000, z: 50_000 },
            reflectividad: 0,
            transparencia: 0,
            indice_refraccion: 1_000_000,
            rugosidad: 900_000,
            brillo: 0,
            textura_nombre: None,
        }
    }

    /// Hojas oscuras
    pub fn hojas_oscuras() -> (r: Material)
        ensures
            r == Material::hojas_oscuras_spec(),
    {
        Material::nuevo(Vector3::new(100_000, 400_000, 50_000), 0, 0, 1_000_000, 900_000, 0)
    }

    pub open spec fn tronco_claro_spec() -> Material {
        Material {
            albedo: Vector3 { x: 800_000, y: 600_000, z: 400_000 },
            reflectividad: 0,
            transparencia: 0,
            indice_refraccion: 1_000_000,
            rugosidad: 800_000,
            brillo: 0,
            textura_nombre: None,
        }
    }

    /// Tronco claro
    pub fn tronco_claro() -> (r: Material)
        ensures
            r == Material::tronco_claro_spec(),
    {
        Material::nuevo(Vector3::new(800_000, 600_000, 400_000), 0, 0, 1_000_000, 800_000, 0)
    }

    pub open spec fn tronco_oscuro_spec() -> Material {
        Material {
            albedo: Vector3 { x: 400_000, y: 200_000, z: 100_000 },
            reflectividad: 0,
            transparencia: 0,
            indice_refraccion: 1_000_000,
            rugosidad: 800_000,
            brillo: 0,
            textura_nombre: None,
        }
    }

    /// Tronco oscuro
    pub fn tronco_oscuro() -> (r: Material)
        ensures
            r == Material::tronco_oscuro_spec(),
    {
        Material::nuevo(Vector3::new(400_000, 200_000, 100_000), 0, 0, 1_000_000, 800_000, 0)
    }

    pub open spec fn flor_roja_spec() -> Material {
        Material {
            albedo: Vector3 { x: 1_000_000, y: 100_000, z: 100_000 },
            reflectividad: 0,
            transparencia: 0,
            indice_refraccion: 1_000_000,
            rugosidad: 100_000,
            brillo: 0,
            textura_nombre: None,
        }
    }

    /// Flor roja vibrante
    pub fn flor_roja() -> (r: Material)
        ensures
            r == Material::flor_roja_spec(),
    {
        Material::nuevo(Vector3::new(1_000_000, 100_000, 100_000), 0, 0, 1_000_000, 100_000, 0)
    }

    pub open spec fn flor_amarilla_spec() -> Material {
        Material {
            albedo: Vector3 { x: 1_000_000, y: 1_000_000, z: 0 },
            reflectividad: 0,
            transparencia: 0,
            indice_refraccion: 1_000_000,
            rugosidad: 100_000,
            brillo: 0,
            textura_nombre: None,
        }
    }

    /// Flor amarilla pura
    pub fn flor_amarilla() -> (r: Material)
        ensures
            r == Material::flor_amarilla_spec(),
    {
        Material::nuevo(Vector3::new(1_000_000, 1_000_000, 0), 0, 0, 1_000_000, 100_000, 0)
    }

    pub open spec fn flor_azul_spec() -> Material {
        Material {
            albedo: Vector3 { x: 200_000, y: 400_000, z: 1_000_000 },
            reflectividad: 0,
            transparencia: 0,
            indice_refraccion: 1_000_000,
            rugosidad: 100_000,
            brillo: 0,
            textura_nombre: None,
        }
    }

    /// Flor azul vibrante
    pub fn flor_azul() -> (r: Material)
        ensures
            r == Material::flor_azul_spec(),
    {
        Material::nuevo(Vector3::new(200_000, 400_000, 1_000_000), 0, 0, 1_000_000, 100_000, 0)
    }

    pub open spec fn flor_rosa_spec() -> Material {
        Material {
            albedo: Vector3 { x: 1_000_000, y: 400_000, z: 800_000 },
            reflectividad: 0,
            transparencia: 0,
            indice_refraccion: 1_000_000,
            rugosidad: 100_000,
            brillo: 0,
            textura_nombre: None,
        }
    }

    /// Flor rosa fucsia
    pub fn flor_rosa() -> (r: Material)
        ensures
            r == Material::flor_rosa_spec(),
    {
        Material::nuevo(Vector3::new(1_000_000, 400_000, 800_000), 0, 0, 1_000_000, 100_000, 0)
    }

    pub open spec fn flor_purpura_spec() -> Material {
        Material {
            albedo: Vector3 { x: 700_000, y: 200_000, z: 1_000_000 },
            reflectividad: 0,
            transparencia: 0,
            indice_refraccion: 1_000_000,
            rugosidad: 100_000,
            brillo: 0,
            textura_nombre: None,
        }
    }

    /// Flor púrpura brillante
    pub fn flor_purpura() -> (r: Material)
        ensures
            r == Material::flor_purpura_spec(),
    {
        Material::nuevo(Vector3::new(700_000, 200_000, 1_000_000), 0, 0, 1_000_000, 100_000, 0)
    }

    pub open spec fn pasto_texturizado_spec() -> Material {
        Material {
            albedo: Vector3 { x: 1_000_000, y: 1_000_000, z: 1_000_000 },
            reflectividad: 0,
            transparencia: 0,
            indice_refraccion: 1_000_000,
            rugosidad: 900_000,
            brillo: 100_000,
            textura_nombre: Some(NombreTextura::Pasto),
        }
    }

    /// Pasto con textura de Minecraft
    pub fn pasto_texturizado() -> (r: Material)
        ensures
            r == Material::pasto_texturizado_spec(),
    {
        Material::con_textura(
            Vector3::new(1_000_000, 1_000_000, 1_000_000),
            0,
            0,
            1_000_000,
            900_000,
            100_000,
            NombreTextura::Pasto,
        )
    }

    pub open spec fn agua_texturizada_spec() -> Material {
        Material {
            albedo: Vector3 { x: 1_000_000, y: 1_000_000, z: 1_000_000 },
            reflectividad: 300_000,
            transparencia: 100_000,
            indice_refraccion: 1_100_000,
            rugosidad: 0,
            brillo: 800_000,
            textura_nombre: Some(NombreTextura::Agua),
        }
    }

    /// Agua con textura de Minecraft
    pub fn agua_texturizada() -> (r: Material)
        ensures
            r == Material::agua_texturizada_spec(),
    {
        Material::con_textura(
            Vector3::new(1_000_000, 1_000_000, 1_000_000),
            300_000,
            100_000,
            1_100_000,
            0,
            800_000,
            NombreTextura::Agua,
        )
    }

    pub open spec fn dirt_texturizado_spec() -> Material {
        Material {
            albedo: Vector3 { x: 600_000, y: 400_000, z: 200_000 },
            reflectividad: 50_000,
            transparencia: 0,
            indice_refraccion: 1_000_000,
            rugosidad: 900_000,
            brillo: 100_000,
            textura_nombre: Some(NombreTextura::Dirt),
        }
    }

    /// Tierra/montañas con textura de Minecraft
    pub fn dirt_texturizado() -> (r: Material)
        ensures
            r == Material::dirt_texturizado_spec(),
    {
        Material::con_textura(
            Vector3::new(600_000, 400_000, 200_000),
            50_000,
            0,
            1_000_000,
            900_000,
            100_000,
            NombreTextura::Dirt,
        )
    }

    pub open spec fn grass_top_texturizado_spec() -> Material {
        Material {
            albedo: Vector3 { x: 200_000, y: 1_000_000, z: 300_000 },
            reflectividad: 0,
            transparencia: 0,
            indice_refraccion: 1_000_000,
            rugosidad: 800_000,
            brillo: 100_000,
            textura_nombre: Some(NombreTextura::GrassTop),
        }
    }

    /// Parte superior del pasto (grass_top)
    pub fn grass_top_texturizado() -> (r: Material)
        ensures
            r == Material::grass_top_texturizado_spec(),
    {
        Material::con_textura(
            Vector3::new(200_000, 1_000_000, 300_000),
            0,
            0,
            1_000_000,
            800_000,
            100_000,
            NombreTextura::GrassTop,
        )
    }

    pub open spec fn grass_side_texturizado_spec() -> Material {
        Material {
            albedo: Vector3 { x: 300_000, y: 900_000, z: 200_000 },
            reflectividad: 0,
            transparencia: 0,
            indice_refraccion: 1_000_000,
            rugosidad: 800_000,
            brillo: 100_000,
            textura_nombre: Some(NombreTextura::GrassSide),
        }
    }

    /// Lado del pasto (grass_side)
    pub fn grass_side_texturizado() -> (r: Material)
        ensures
            r == Material::grass_side_texturizado_spec(),
    {
        Material::con_textura(
            Vector3::new(300_000, 900_000, 200_000),
            0,
            0,
            1_000_000,
            800_000,
            100_000,
            NombreTextura::GrassSide,
        )
    }

    pub open spec fn stone_texturizado_spec() -> Material {
        Material {
            albedo: Vector3 { x: 500_000, y: 500_000, z: 500_000 },
            reflectividad: 50_000,
            transparencia: 0,
            indice_refraccion: 1_000_000,
            rugosidad: 900_000,
            brillo: 100_000,
            textura_nombre: Some(NombreTextura::Stone),
        }
    }

    /// Piedra texturizada
    pub fn stone_texturizado() -> (r: Material)
        ensures
            r == Material::stone_texturizado_spec(),
    {
        Material::con_textura(
            Vector3::new(500_000, 500_000, 500_000),
            50_000,
            0,
            1_000_000,
            900_000,
            100_000,
            NombreTextura::Stone,
        )
    }

    pub open spec fn cobblestone_texturizado_spec() -> Material {
        Material {
            albedo: Vector3 { x: 400_000, y: 400_000, z: 400_000 },
            reflectividad: 100_000,
            transparencia: 0,
            indice_refraccion: 1_000_000,
            rugosidad: 900_000,
            brillo: 100_000,
            textura_nombre: Some(NombreTextura::Cobblestone),
        }
    }

    /// Adoquín texturizado
    pub fn cobblestone_texturizado() -> (r: Material)
        ensures
            r == Material::cobblestone_texturizado_spec(),
    {
        Material::con_textura(
            Vector3::new(400_000, 400_000, 400_000),
            100_000,
            0,
            1_000_000,
            900_000,
            100_000,
            NombreTextura::Cobblestone,
        )
    }

    pub open spec fn gravel_texturizado_spec() -> Material {
        Material {
            albedo: Vector3 { x: 300_000, y: 300_000, z: 300_000 },
            reflectividad: 50_000,
            transparencia: 0,
            indice_refraccion: 1_000_000,
            rugosidad: 900_000,
            brillo: 100_000,
            textura_nombre: Some(NombreTextura::Gravel),
        }
    }

    /// Grava texturizada
    pub fn gravel_texturizado() -> (r: Material)
        ensures
            r == Material::gravel_texturizado_spec(),
    {
        Material::con_textura(
            Vector3::new(300_000, 300_000, 300_000),
            50_000,
            0,
            1_000_000,
            900_000,
            100_000,
            NombreTextura::Gravel,
        )
    }

    pub open spec fn water_texturizado_spec() -> Material {
        Material {
            albedo: Vector3 { x: 1_000_000, y: 1_000_000, z: 1_000_000 },
            reflectividad: 300_000,
            transparencia: 100_000,
            indice_refraccion: 1_100_000,
            rugosidad: 0,
            brillo: 800_000,
            textura_nombre: Some(NombreTextura::Water),
        }
    }

    /// Agua quieta texturizada
    pub fn water_texturizado() -> (r: Material)
        ensures
            r == Material::water_texturizado_spec(),
    {
        Material::con_textura(
            Vector3::new(1_000_000, 1_000_000, 1_000_000),
            300_000,
            100_000,
            1_100_000,
            0,
            800_000,
            NombreTextura::Water,
        )
    }


    pub open spec fn oak_log_texturizado_spec() -> Material {
        Material {
            albedo: Vector3 { x: 500_000, y: 300_000, z: 100_000 },
            reflectividad: 0,
            transparencia: 0,
            indice_refraccion: 1_000_000,
            rugosidad: 800_000,
            brillo: 100_000,
            textura_nombre: Some(NombreTextura::OakLog),
        }
    }

    pub fn oak_log_texturizado() -> (r: Material)
        ensures
            r == Material::oak_log_texturizado_spec(),
    {
        Material::con_textura(
            Vector3::new(500_000, 300_000, 100_000),
            0,
            0,
            1_000_000,
            800_000,
            100_000,
            NombreTextura::OakLog,
        )
    }


    pub open spec fn oak_leaves_texturizado_spec() -> Material {
        Material {
            albedo: Vector3 { x: 100_000, y: 900_000, z: 200_000 },
            reflectividad: 0,
            transparencia: 0,
            indice_refraccion: 1_000_000,
            rugosidad: 700_000,
            brillo: 200_000,
            textura_nombre: Some(NombreTextura::OakLeaves),
        }
    }

    pub fn oak_leaves_texturizado() -> (r: Material)
        ensures
            r == Material::oak_leaves_texturizado_spec(),
    {
        Material::con_textura(
            Vector3::new(100_000, 900_000, 200_000),
            0,
            0,
            1_000_000,
            700_000,
            200_000,
            NombreTextura::OakLeaves,
        )
    }


    pub open spec fn birch_log_texturizado_spec() -> Material {
        Material {
            albedo: Vector3 { x: 800_000, y: 700_000, z: 500_000 },
            reflectividad: 100_000,
            transparencia: 0,
            indice_refraccion: 1_000_000,
            rugosidad: 800_000,
            brillo: 100_000,
            textura_nombre: Some(NombreTextura::BirchLog),
        }
    }

    pub fn birch_log_texturizado() -> (r: Material)
        ensures
            r == Material::birch_log_texturizado_spec(),
    {
        Material::con_textura(
            Vector3::new(800_000, 700_000, 500_000),
            100_000,
            0,
            1_000_000,
            800_000,
            100_000,
            NombreTextura::BirchLog,
        )
    }


    pub open spec fn birch_leaves_texturizado_spec() -> Material {
        Material {
            albedo: Vector3 { x: 200_000, y: 800_000, z: 300_000 },
            reflectividad: 0,
            transparencia: 0,
            indice_refraccion: 1_000_000,
            rugosidad: 700_000,
            brillo: 200_000,
            textura_nombre: Some(NombreTextura::BirchLeaves),
        }
    }

    pub fn birch_leaves_texturizado() -> (r: Material)
        ensures
            r == Material::birch_leaves_texturizado_spec(),
    {
        Material::con_textura(
            Vector3::new(200_000, 800_000, 300_000),
            0,
            0,
            1_000_000,
            700_000,
            200_000,
            NombreTextura::BirchLeaves,
        )
    }


    pub open spec fn jungle_log_texturizado_spec() -> Material {
        Material {
            albedo: Vector3 { x: 400_000, y: 200_000, z: 100_000 },
            reflectividad: 0,
            transparencia: 0,
            indice_refraccion: 1_000_000,
            rugosidad: 800_000,
            brillo: 100_000,
            textura_nombre: Some(NombreTextura::JungleLog),
        }
    }

    pub fn jungle_log_texturizado() -> (r: Material)
        ensures
            r == Material::jungle_log_texturizado_spec(),
    {
        Material::con_textura(
            Vector3::new(400_000, 200_000, 100_000),
            0,
            0,
            1_000_000,
            800_000,
            100_000,
            NombreTextura::JungleLog,
        )
    }


    pub open spec fn jungle_leaves_texturizado_spec() -> Material {
        Material {
            albedo: Vector3 { x: 0, y: 900_000, z: 100_000 },
            reflectividad: 0,
            transparencia: 0,
            indice_refraccion: 1_000_000,
            rugosidad: 700_000,
            brillo: 200_000,
            textura_nombre: Some(NombreTextura::JungleLeaves),
        }
    }

    pub fn jungle_leaves_texturizado() -> (r: Material)
        ensures
            r == Material::jungle_leaves_texturizado_spec(),
    {
        Material::con_textura(
            Vector3::new(0, 900_000, 100_000),
            0,
            0,
            1_000_000,
            700_000,
            200_000,
            NombreTextura::JungleLeaves,
        )
    }


    pub open spec fn coal_ore_texturizado_spec() -> Material {
        Material {
            albedo: Vector3 { x: 1_000_000, y: 1_000_000, z: 1_000_000 },
            reflectividad: 50_000,
            transparencia: 0,
            indice_refraccion: 1_000_000,
            rugosidad: 900_000,
            brillo: 100_000,
            textura_nombre: Some(NombreTextura::CoalOre),
        }
    }

    pub fn coal_ore_texturizado() -> (r: Material)
        ensures
            r == Material::coal_ore_texturizado_spec(),
    {
        Material::con_textura(
            Vector3::new(1_000_000, 1_000_000, 1_000_000),
            50_000,
            0,
            1_000_000,
            900_000,
            100_000,
            NombreTextura::CoalOre,
        )
    }


    pub open spec fn iron_ore_texturizado_spec() -> Material {
        Material {
            albedo: Vector3 { x: 1_000_000, y: 1_000_000, z: 1_000_000 },
            reflectividad: 200_000,
            transparencia: 0,
            indice_refraccion: 1_000_000,
            rugosidad: 800_000,
            brillo: 300_000,
            textura_nombre: Some(NombreTextura::IronOre),
        }
    }

    pub fn iron_ore_texturizado() -> (r: Material)
        ensures
            r == Material::iron_ore_texturizado_spec(),
    {
        Material::con_textura(
            Vector3::new(1_000_000, 1_000_000, 1_000_000),
            200_000,
            0,
            1_000_000,
            800_000,
            300_000,
            NombreTextura::IronOre,
        )
    }
}

} // verus!
