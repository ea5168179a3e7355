//! The records of the game world: locations, the passages between them, and
//! where each player stands.

use vstd::prelude::*;

verus! {

/// What a location holds, as mathematical values.
pub struct LocationView {
    pub id: i32,
    pub title: Seq<char>,
    pub description: Seq<char>,
    pub image_url: Option<Seq<char>>,
}

/// A navigable place of the game world, as the stores hand it out.
#[derive(Debug)]
pub struct LocationDTO {
    pub id: i32,
    pub title: String,
    pub description: String,
    pub image_url: Option<String>,
}

/// The characters of an optional text.
pub open spec fn optional_text(text: Option<String>) -> Option<Seq<char>> {
    match text {
        Some(s) => Some(s@),
        None => None,
    }
}

impl View for LocationDTO {
    type V = LocationView;

    open spec fn view(&self) -> LocationView {
        LocationView {
            id: self.id,
            title: self.title@,
            description: self.description@,
            image_url: optional_text(self.image_url),
        }
    }
}

impl Clone for LocationDTO {
    fn clone(&self) -> (copy: Self)
        ensures
            copy == *self,
    {
        LocationDTO {
            id: self.id,
            title: self.title.clone(),
            description: self.description.clone(),
            image_url: self.image_url.clone(),
        }
    }
}

/// What a passage holds, as mathematical values.
pub struct PassageView {
    pub id: i32,
    pub from_location_id: i32,
    pub to_location_id: i32,
    pub direction: Seq<char>,
    pub description: Seq<char>,
    pub narration: Seq<char>,
}

/// A one-way passage from one location to another. Its direction label is
/// what a player names to take it; its narration is what the player is told
/// on the way.
#[derive(Debug)]
pub struct PassageDTO {
    pub id: i32,
    pub from_location_id: i32,
    pub to_location_id: i32,
    pub direction: String,
    pub description: String,
    pub narration: String,
}

impl View for PassageDTO {
    type V = PassageView;

    open spec fn view(&self) -> PassageView {
        PassageView {
            id: self.id,
            from_location_id: self.from_location_id,
            to_location_id: self.to_location_id,
            direction: self.direction@,
            description: self.description@,
            narration: self.narration@,
        }
    }
}

impl Clone for PassageDTO {
    fn clone(&self) -> (copy: Self)
        ensures
            copy == *self,
    {
        PassageDTO {
            id: self.id,
            from_location_id: self.from_location_id,
            to_location_id: self.to_location_id,
            direction: self.direction.clone(),
            description: self.description.clone(),
            narration: self.narration.clone(),
        }
    }
}

/// The record of where a player stands, as the stores hand it out.
#[derive(Debug, Clone, Copy, PartialEq, Eq, Structural)]
pub struct PlayerStateDTO {
    pub player_id: i32,
    pub current_location_id: i32,
}

} // verus!
