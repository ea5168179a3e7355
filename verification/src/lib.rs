//! Player movement for a text adventure: locations joined by one-way
//! passages, and the workflow that moves a player along one of them.

pub mod direction;
pub mod domain;
pub mod errors;
pub mod memory;
pub mod model;
pub mod movement;
pub mod repository;
pub mod web;
