//! The domain's own records, with the builders that make them.

use vstd::prelude::*;
use crate::model::PlayerStateDTO;

verus! {

/// Why a builder could not make its record.
#[derive(Debug)]
pub enum BuilderError {
    /// The named field has no default and was never set.
    UninitializedField(&'static str),
}

/// A navigable place of the game world.
#[derive(Debug)]
pub struct Location {
    pub aggregate_id: i32,
    pub title: String,
    pub description: String,
    pub image_url: Option<String>,
}

impl Location {
    /// The identity of this location.
    pub fn get_aggregate_id(&self) -> (id: i32)
        ensures
            id == self.aggregate_id,
    {
        self.aggregate_id
    }
}

impl Clone for Location {
    fn clone(&self) -> (copy: Self)
        ensures
            copy == *self,
    {
        Location {
            aggregate_id: self.aggregate_id,
            title: self.title.clone(),
            description: self.description.clone(),
            image_url: self.image_url.clone(),
        }
    }
}

/// Collects the fields of a [`Location`]. The identity, the title and the
/// description have to be set; the image is optional and absent by default.
#[derive(Debug)]
pub struct LocationBuilder {
    pub aggregate_id: Option<i32>,
    pub title: Option<String>,
    pub description: Option<String>,
    pub image_url: Option<Option<String>>,
}

impl Default for LocationBuilder {
    fn default() -> (builder: Self)
        ensures
            builder.aggregate_id is None,
            builder.title is None,
            builder.description is None,
            builder.image_url is None,
    {
        LocationBuilder { aggregate_id: None, title: None, description: None, image_url: None }
    }
}

impl LocationBuilder {
    /// The first field, in the order of declaration, that has to be set and
    /// is not.
    pub open spec fn missing_field(self) -> Option<&'static str> {
        if self.aggregate_id is None {
            Some("aggregate_id")
        } else if self.title is None {
            Some("title")
        } else if self.description is None {
            Some("description")
        } else {
            None
        }
    }

    /// The location that the collected fields describe.
    pub open spec fn built(self) -> Location {
        Location {
            aggregate_id: self.aggregate_id->0,
            title: self.title->0,
            description: self.description->0,
            image_url: match self.image_url {
                Some(url) => url,
                None => None,
            },
        }
    }

    /// Sets the identity.
    pub fn aggregate_id(self, value: i32) -> (builder: Self)
        ensures
            builder == (LocationBuilder { aggregate_id: Some(value), ..self }),
    {
        LocationBuilder { aggregate_id: Some(value), ..self }
    }

    /// Sets the title.
    pub fn title(self, value: String) -> (builder: Self)
        ensures
            builder == (LocationBuilder { title: Some(value), ..self }),
    {
        LocationBuilder { title: Some(value), ..self }
    }

    /// Sets the description.
    pub fn description(self, value: String) -> (builder: Self)
        ensures
            builder == (LocationBuilder { description: Some(value), ..self }),
    {
        LocationBuilder { description: Some(value), ..self }
    }

    /// Sets the image, or says that there is none.
    pub fn image_url(self, value: Option<String>) -> (builder: Self)
        ensures
            builder == (LocationBuilder { image_url: Some(value), ..self }),
    {
        LocationBuilder { image_url: Some(value), ..self }
    }

    /// Makes the location, or names the first field that is missing.
    pub fn build(self) -> (result: Result<Location, BuilderError>)
        ensures
            self.missing_field() is Some ==> result == Err::<Location, BuilderError>(
                BuilderError::UninitializedField(self.missing_field()->0),
            ),
            self.missing_field() is None ==> result == Ok::<Location, BuilderError>(self.built()),
    {
        let aggregate_id = match self.aggregate_id {
            Some(value) => value,
            None => return Err(BuilderError::UninitializedField("aggregate_id")),
        };
        let title = match self.title {
            Some(value) => value,
            None => return Err(BuilderError::UninitializedField("title")),
        };
        let description = match self.description {
            Some(value) => value,
            None => return Err(BuilderError::UninitializedField("description")),
        };
        let image_url = match self.image_url {
            Some(value) => value,
            None => None,
        };
        Ok(Location { aggregate_id, title, description, image_url })
    }
}

/// Where a player stands. The player is fixed once the record is made; the
/// location changes as the player moves.
#[derive(Debug, Clone, Copy, PartialEq, Eq, Structural)]
pub struct PlayerState {
    player_id: i32,
    current_location_id: i32,
}

impl PlayerState {
    /// The location that the player stands in.
    pub closed spec fn location(self) -> i32 {
        self.current_location_id
    }

    /// The player that this record belongs to.
    pub closed spec fn player(self) -> i32 {
        self.player_id
    }

    /// The location that the player stands in.
    pub fn current_location_id(&self) -> (id: i32)
        ensures
            id == self.location(),
    {
        self.current_location_id
    }

    /// Puts the player in another location.
    pub fn set_current_location_id(&mut self, location_id: i32)
        ensures
            final(self).location() == location_id,
            final(self).player() == old(self).player(),
    {
        self.current_location_id = location_id;
    }

    /// The player that this record belongs to.
    pub fn player_id(&self) -> (id: i32)
        ensures
            id == self.player(),
    {
        self.player_id
    }

    /// The record as a store holds it.
    pub fn to_dto(&self) -> (dto: PlayerStateDTO)
        ensures
            dto.player_id == self.player(),
            dto.current_location_id == self.location(),
    {
        PlayerStateDTO {
            player_id: self.player_id,
            current_location_id: self.current_location_id,
        }
    }

    /// The record that a store handed out.
    pub fn from_dto(dto: PlayerStateDTO) -> (state: PlayerState)
        ensures
            state.player() == dto.player_id,
            state.location() == dto.current_location_id,
    {
        PlayerState { player_id: dto.player_id, current_location_id: dto.current_location_id }
    }
}

/// Collects the fields of a [`PlayerState`]. Both have to be set.
#[derive(Debug)]
pub struct PlayerStateBuilder {
    pub player_id: Option<i32>,
    pub current_location_id: Option<i32>,
}

impl Default for PlayerStateBuilder {
    fn default() -> (builder: Self)
        ensures
            builder.player_id is None,
            builder.current_location_id is None,
    {
        PlayerStateBuilder { player_id: None, current_location_id: None }
    }
}

impl PlayerStateBuilder {
    /// The first field, in the order of declaration, that is not set.
    pub open spec fn missing_field(self) -> Option<&'static str> {
        if self.player_id is None {
            Some("player_id")
        } else if self.current_location_id is None {
            Some("current_location_id")
        } else {
            None
        }
    }

    /// Sets the player.
    pub fn player_id(self, value: i32) -> (builder: Self)
        ensures
            builder == (PlayerStateBuilder { player_id: Some(value), ..self }),
    {
        PlayerStateBuilder { player_id: Some(value), ..self }
    }

    /// Sets the location.
    pub fn current_location_id(self, value: i32) -> (builder: Self)
        ensures
            builder == (PlayerStateBuilder { current_location_id: Some(value), ..self }),
    {
        PlayerStateBuilder { current_location_id: Some(value), ..self }
    }

    /// Makes the record, or names the first field that is missing.
    pub fn build(self) -> (result: Result<PlayerState, BuilderError>)
        ensures
            self.missing_field() is Some ==> result == Err::<PlayerState, BuilderError>(
                BuilderError::UninitializedField(self.missing_field()->0),
            ),
            self.missing_field() is None ==> result is Ok,
            self.missing_field() is None ==> result->Ok_0.player() == self.player_id->0,
            self.missing_field() is None ==> result->Ok_0.location()
                == self.current_location_id->0,
    {
        let player_id = match self.player_id {
            Some(value) => value,
            None => return Err(BuilderError::UninitializedField("player_id")),
        };
        let current_location_id = match self.current_location_id {
            Some(value) => value,
            None => return Err(BuilderError::UninitializedField("current_location_id")),
        };
        Ok(PlayerState { player_id, current_location_id })
    }
}

} // verus!
