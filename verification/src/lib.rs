//! A deterministic CPU software renderer: textured triangle meshes, a moving
//! camera and one directional light are rasterized into a color image once per
//! frame.
//!
//! All arithmetic is Q16.16 fixed point (`i64` raw values, 65536 = one), so a
//! frame is a pure function of the scene state and every numeric step has an
//! exact contract.
//!
//! The modules, leaves first: [`fx`] holds the scalar type, [`fxmath`] its
//! elementary functions, [`linalg`] vectors and matrices, [`types`] colors and
//! faces, [`texture`] the sample grids, [`object`] the meshes and materials,
//! [`world`] the scene, [`camera`] the view, [`raster`] the geometry pass,
//! [`shade`] the shading pass, [`bloom`] the post-process, and [`image`] the
//! render context that drives a frame end to end.

pub mod bloom;
pub mod camera;
pub mod fx;
pub mod fxmath;
pub mod image;
pub mod linalg;
pub mod object;
pub mod raster;
pub mod shade;
pub mod texture;
pub mod types;
pub mod world;
