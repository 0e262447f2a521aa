//! A path-tracing renderer in fixed-point arithmetic.
//!
//! Given a scene of geometric primitives, materials, textures and a camera,
//! the library estimates for every pixel the light that arrives there by
//! following random paths through the scene. All numbers are fixed-point
//! [`scalar::Scalar`]s whose operations saturate instead of overflowing, so
//! every intersection test, scattering rule and pixel is a total function of
//! its inputs, and its contract is checked by the verifier.
//!
//! Leaves first:
//!
//! - [`scalar`], [`math`]: numbers and the elementary functions on them;
//! - [`vec3`], [`ray`], [`aabb`]: vectors, rays and bounding boxes;
//! - [`random`], [`utils`]: the source of random draws and the sampling and
//!   optics helpers built on it;
//! - [`texture`], [`perlin`], [`material`]: what colours a surface and how it
//!   scatters;
//! - [`hit`]: what a ray can hit, from spheres to the bounding volume
//!   hierarchy;
//! - [`camera`], [`scene`]: rays into the scene, the integrator along them
//!   and the rendering of pixels;
//! - [`scenes`]: ready-made scenes.
//!
//! Whatever draws at random takes its [`random::Sampler`] explicitly. A
//! sampler is a deterministic stream of words, so the contract of such a
//! function says which words it uses, what it makes of them, and how far the
//! sampler moves on: equal seeds give equal scenes, rays and pixels. Beside
//! it stands a function that takes the draws as arguments and whose result is
//! fixed by them.

pub mod aabb;
pub mod camera;
pub mod hit;
pub mod material;
pub mod math;
pub mod perlin;
pub mod random;
pub mod ray;
pub mod scalar;
pub mod scene;
pub mod scenes;
pub mod texture;
pub mod utils;
pub mod vec3;
