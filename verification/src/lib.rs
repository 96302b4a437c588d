//! Safe, verified ownership bridge over a manually reference-counted
//! graphics resource library.
//!
//! The native library hands out opaque handles and expects its callers to
//! balance every acquired reference with exactly one release.  This crate
//! models that library as an explicit state value ([`native::MockNative`])
//! whose reference counts and retain/release call records are part of every
//! contract, and builds move-only owned wrappers on top of it: acquiring a
//! wrapper follows one of the documented ownership rules, and releasing it
//! records exactly one release against its handle.
//!
//! Per-resource wrapper types (color space, data provider, font, graphics
//! context, bitmap context, image) instantiate the one bridge pattern and add
//! the accessors of their resource family.

pub mod bitmap;
pub mod bridge;
pub mod color_space;
pub mod context;
pub mod data_provider;
pub mod display;
pub mod error;
pub mod font;
pub mod image;
pub mod laws;
pub mod native;
