//! Conversion of player skin payloads (arbitrary-resolution RGBA pixels plus a bone
//! geometry document) into the canonical 64×64 skin atlas.

pub mod common;
pub mod skin;
pub mod texture;
pub mod pixel_cleaner;
pub mod json_tree;
pub mod geometry;
pub mod bones;
pub mod codec;
pub mod converter;
pub mod skin_convert;
pub mod chain_validator;
pub mod hex;
