//! The three stores that a move reads and writes, as capabilities: what
//! each holds, and what each operation returns or changes.

use vstd::prelude::*;
use crate::direction::direction_key;
use crate::model::{LocationDTO, LocationView, PassageDTO, PassageView, PlayerStateDTO};

verus! {

/// The key under which a passage is found: the location it leaves, and the
/// key of its direction label.
pub open spec fn passage_key(passage: PassageView) -> (i32, Seq<char>) {
    (passage.from_location_id, direction_key(passage.direction))
}

/// The record of `player_id` in `states`, if there is one.
pub open spec fn stored_state(states: Map<i32, i32>, player_id: i32) -> Option<PlayerStateDTO> {
    if states.contains_key(player_id) {
        Some(PlayerStateDTO { player_id, current_location_id: states[player_id] })
    } else {
        None
    }
}

/// Reads locations by identity.
pub trait LocationRepository: Send + Sync {
    /// The locations that the store holds, each under its identity.
    spec fn locations(&self) -> Map<i32, LocationView>;

    /// The location with the identity `id`, if the store holds one.
    fn find_by_id(&self, id: i32) -> (found: Option<LocationDTO>)
        ensures
            found is Some <==> self.locations().contains_key(id),
            found is Some ==> found->0@ == self.locations()[id],
            found is Some ==> found->0.id == id,
    ;
}

/// Reads the passage that leaves a location in a direction.
pub trait PassageRepository: Send + Sync {
    /// The passages that the store holds, each under its key. A location has
    /// at most one passage in each direction.
    spec fn passages(&self) -> Map<(i32, Seq<char>), PassageView>;

    /// The passage that leaves `location_id` in the direction that
    /// `direction` names, if the store holds one. Labels are compared by
    /// their keys: case and surrounding white space do not count.
    fn find_by_origin_and_direction(&self, location_id: i32, direction: &str) -> (found: Option<
        PassageDTO,
    >)
        ensures
            found is Some <==> self.passages().contains_key(
                (location_id, direction_key(direction@)),
            ),
            found is Some ==> found->0@ == self.passages()[(
                location_id,
                direction_key(direction@),
            )],
            found is Some ==> passage_key(found->0@) == (location_id, direction_key(direction@)),
    ;
}

/// Reads and writes the record of where a player stands.
pub trait PlayerStateRepository: Send + Sync {
    /// The location of each player that has a record.
    spec fn states(&self) -> Map<i32, i32>;

    /// Every record written to the store so far, oldest first.
    spec fn writes(&self) -> Seq<PlayerStateDTO>;

    /// The record of `player_id`, if the player has one.
    fn find_by_id(&self, player_id: i32) -> (found: Option<PlayerStateDTO>)
        ensures
            found == stored_state(self.states(), player_id),
    ;

    /// Writes `player_state` as the record of its player, in place of the
    /// one the player had, if any. The records of other players stay.
    fn save(&mut self, player_state: PlayerStateDTO)
        ensures
            final(self).states() == old(self).states().insert(
                player_state.player_id,
                player_state.current_location_id,
            ),
            final(self).writes() == old(self).writes().push(player_state),
    ;
}

} // verus!
