//! A verified image access-and-transformation service.
//!
//! The library owns image metadata and blob storage behind capability
//! interfaces, enforces per-owner access control on every read, transform and
//! delete, and applies a bounded pipeline of pixel transformations (resize,
//! crop, rotation by axis-aligned angles, grayscale, blur, re-encoding to
//! JPEG or PNG) to produce derived output bytes.

pub mod domain;
pub mod error;
pub mod jwt;
pub mod memory;
pub mod processor;
pub mod repository;
pub mod service;
