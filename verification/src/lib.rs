//! Create-entity use case of a small catalog service.
//!
//! A raw request (numeric id, name, category labels) is validated into
//! typed values, handed to a repository that detects conflicts, and the
//! outcome is reported as one of four response variants.

pub mod create_pokemon;
pub mod entities;
pub mod repository;

