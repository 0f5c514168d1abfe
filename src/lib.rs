//! A Whitted ray tracer over fixed-point arithmetic: cameras, rays, boxes,
//! spheres, planes, lights, scenes and the recursive shader.

pub mod escalar;
pub mod vector;
pub mod materiales;
pub mod iluminacion;
pub mod geometria;
pub mod escena;
pub mod sombreado;
pub mod camara;
pub mod diorama;
pub mod vista;
pub mod mundo;
