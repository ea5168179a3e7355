//! Stores that keep their records in memory.

use vstd::prelude::*;
use crate::direction::{direction_key, has_direction_key, normalize_direction};
use crate::errors::MoveError;
use crate::model::{LocationDTO, LocationView, PassageDTO, PassageView, PlayerStateDTO};
use crate::repository::{
    passage_key,
    stored_state,
    LocationRepository,
    PassageRepository,
    PlayerStateRepository,
};

verus! {

/// The states that `seed` becomes once `writes` are applied to it in order:
/// each write replaces the record of its player.
pub open spec fn apply_writes(seed: Map<i32, i32>, writes: Seq<PlayerStateDTO>) -> Map<i32, i32>
    decreases writes.len(),
{
    if writes.len() == 0 {
        seed
    } else {
        apply_writes(seed, writes.drop_last()).insert(
            writes.last().player_id,
            writes.last().current_location_id,
        )
    }
}

/// A store of player states that starts with the record of one player and
/// keeps every record saved to it.
pub struct MockPlayerStateRepository {
    /// The record that the store starts with.
    pub fixed_player_state: PlayerStateDTO,
    /// The records saved since, oldest first.
    pub saved: Vec<PlayerStateDTO>,
}

impl MockPlayerStateRepository {
    /// A store that holds `fixed_player_state` and nothing else.
    pub fn new(fixed_player_state: PlayerStateDTO) -> (repository: Self)
        ensures
            repository.fixed_player_state == fixed_player_state,
            repository.saved@ == Seq::<PlayerStateDTO>::empty(),
            repository.states() == Map::<i32, i32>::empty().insert(
                fixed_player_state.player_id,
                fixed_player_state.current_location_id,
            ),
            repository.writes() == Seq::<PlayerStateDTO>::empty(),
    {
        MockPlayerStateRepository { fixed_player_state, saved: Vec::new() }
    }
}

impl PlayerStateRepository for MockPlayerStateRepository {
    open spec fn states(&self) -> Map<i32, i32> {
        apply_writes(
            Map::<i32, i32>::empty().insert(
                self.fixed_player_state.player_id,
                self.fixed_player_state.current_location_id,
            ),
            self.saved@,
        )
    }

    open spec fn writes(&self) -> Seq<PlayerStateDTO> {
        self.saved@
    }

    fn find_by_id(&self, player_id: i32) -> (found: Option<PlayerStateDTO>) {
        let ghost seed = Map::<i32, i32>::empty().insert(
            self.fixed_player_state.player_id,
            self.fixed_player_state.current_location_id,
        );
        let mut at: usize = self.saved.len();
        assert(self.saved@.take(at as int) == self.saved@);
        while at > 0
            invariant
                at <= self.saved.len(),
                stored_state(self.states(), player_id) == stored_state(
                    apply_writes(seed, self.saved@.take(at as int)),
                    player_id,
                ),
                seed == Map::<i32, i32>::empty().insert(
                    self.fixed_player_state.player_id,
                    self.fixed_player_state.current_location_id,
                ),
            decreases at,
        {
            at -= 1;
            let record = self.saved[at];
            proof {
                let upto = self.saved@.take(at + 1);
                assert(upto.drop_last() == self.saved@.take(at as int));
                assert(upto.last() == record);
            }
            if record.player_id == player_id {
                return Some(record);
            }
        }
        assert(self.saved@.take(0).len() == 0);
        if self.fixed_player_state.player_id == player_id {
            Some(self.fixed_player_state)
        } else {
            None
        }
    }

    fn save(&mut self, player_state: PlayerStateDTO) {
        self.saved.push(player_state);
        proof {
            assert(self.saved@.drop_last() == old(self).saved@);
        }
    }
}

/// The map that `passages` make, each under its key. Where two have one
/// key, the later one stands.
pub open spec fn passage_map(passages: Seq<PassageDTO>) -> Map<(i32, Seq<char>), PassageView>
    decreases passages.len(),
{
    if passages.len() == 0 {
        Map::empty()
    } else {
        passage_map(passages.drop_last()).insert(passage_key(passages.last()@), passages.last()@)
    }
}

/// A passage graph in memory. No two of its passages leave one location in
/// one direction: a passage that would be the second is refused.
pub struct InMemoryPassageRepository {
    passages: Vec<PassageDTO>,
}

/// Every passage of a sequence has its key in the map that the sequence
/// makes.
proof fn lemma_passage_map_holds(passages: Seq<PassageDTO>, at: int)
    requires
        0 <= at < passages.len(),
    ensures
        passage_map(passages).contains_key(passage_key(passages[at]@)),
    decreases passages.len(),
{
    if at < passages.len() - 1 {
        lemma_passage_map_holds(passages.drop_last(), at);
    }
}

impl InMemoryPassageRepository {
    #[verifier::type_invariant]
    spec fn distinct_keys(self) -> bool {
        forall|i: int, j: int|
            0 <= i < j < self.passages.len() ==> passage_key(#[trigger] self.passages[i]@)
                != passage_key(#[trigger] self.passages[j]@)
    }

    /// A graph without passages.
    pub fn new() -> (repository: Self)
        ensures
            repository.passages() == Map::<(i32, Seq<char>), PassageView>::empty(),
    {
        InMemoryPassageRepository { passages: Vec::new() }
    }

    /// Adds `passage` to the graph, unless a passage already leaves its
    /// location in its direction: then the graph stays as it is, and the
    /// result is a data-integrity error.
    pub fn add(&mut self, passage: PassageDTO) -> (result: Result<(), MoveError>)
        ensures
            result is Ok <==> !old(self).passages().contains_key(passage_key(passage@)),
            result is Ok ==> final(self).passages() == old(self).passages().insert(
                passage_key(passage@),
                passage@,
            ),
            result is Err ==> result == Err::<(), MoveError>(MoveError::DataIntegrityError),
            result is Err ==> *final(self) == *old(self),
    {
        let taken = self.find_by_origin_and_direction(
            passage.from_location_id,
            passage.direction.as_str(),
        );
        if taken.is_some() {
            return Err(MoveError::DataIntegrityError);
        }
        proof {
            use_type_invariant(&*self);
            assert forall|i: int| 0 <= i < self.passages.len() implies passage_key(
                #[trigger] self.passages[i]@,
            ) != passage_key(passage@) by {
                lemma_passage_map_holds(self.passages@, i);
            }
        }
        let mut passages: Vec<PassageDTO> = Vec::new();
        std::mem::swap(&mut self.passages, &mut passages);
        passages.push(passage);
        self.passages = passages;
        proof {
            assert(self.passages@.drop_last() == old(self).passages@);
        }
        Ok(())
    }
}

impl PassageRepository for InMemoryPassageRepository {
    closed spec fn passages(&self) -> Map<(i32, Seq<char>), PassageView> {
        passage_map(self.passages@)
    }

    fn find_by_origin_and_direction(&self, location_id: i32, direction: &str) -> (found: Option<
        PassageDTO,
    >) {
        let key = normalize_direction(direction);
        let ghost wanted = (location_id, key@);
        let mut at: usize = self.passages.len();
        assert(self.passages@.take(at as int) == self.passages@);
        while at > 0
            invariant
                at <= self.passages.len(),
                wanted == (location_id, key@),
                key@ == direction_key(direction@),
                self.passages().contains_key(wanted) == passage_map(
                    self.passages@.take(at as int),
                ).contains_key(wanted),
                self.passages().contains_key(wanted) ==> self.passages()[wanted] == passage_map(
                    self.passages@.take(at as int),
                )[wanted],
            decreases at,
        {
            at -= 1;
            let passage = &self.passages[at];
            proof {
                let upto = self.passages@.take(at + 1);
                assert(upto.drop_last() == self.passages@.take(at as int));
                assert(upto.last() == *passage);
            }
            if passage.from_location_id == location_id && has_direction_key(
                passage.direction.as_str(),
                &key,
            ) {
                return Some(passage.clone());
            }
        }
        assert(self.passages@.take(0).len() == 0);
        None
    }
}

/// The map that `locations` make, each under its identity. Where two have
/// one identity, the later one stands.
pub open spec fn location_map(locations: Seq<LocationDTO>) -> Map<i32, LocationView>
    decreases locations.len(),
{
    if locations.len() == 0 {
        Map::empty()
    } else {
        location_map(locations.drop_last()).insert(locations.last().id, locations.last()@)
    }
}

/// The locations of a world, in memory. No two of them share an identity:
/// a location that would be the second is refused.
pub struct InMemoryLocationRepository {
    locations: Vec<LocationDTO>,
}

/// Every location of a sequence has its identity in the map that the
/// sequence makes.
proof fn lemma_location_map_holds(locations: Seq<LocationDTO>, at: int)
    requires
        0 <= at < locations.len(),
    ensures
        location_map(locations).contains_key(locations[at].id),
    decreases locations.len(),
{
    if at < locations.len() - 1 {
        lemma_location_map_holds(locations.drop_last(), at);
    }
}

impl InMemoryLocationRepository {
    #[verifier::type_invariant]
    spec fn distinct_ids(self) -> bool {
        forall|i: int, j: int|
            0 <= i < j < self.locations.len() ==> (#[trigger] self.locations[i]).id
                != (#[trigger] self.locations[j]).id
    }

    /// A world without locations.
    pub fn new() -> (repository: Self)
        ensures
            repository.locations() == Map::<i32, LocationView>::empty(),
    {
        InMemoryLocationRepository { locations: Vec::new() }
    }

    /// Adds `location` to the world, unless a location already has its
    /// identity: then the world stays as it is, and the result is a
    /// data-integrity error.
    pub fn add(&mut self, location: LocationDTO) -> (result: Result<(), MoveError>)
        ensures
            result is Ok <==> !old(self).locations().contains_key(location.id),
            result is Ok ==> final(self).locations() == old(self).locations().insert(
                location.id,
                location@,
            ),
            result is Err ==> result == Err::<(), MoveError>(MoveError::DataIntegrityError),
            result is Err ==> *final(self) == *old(self),
    {
        let taken = self.find_by_id(location.id);
        if taken.is_some() {
            return Err(MoveError::DataIntegrityError);
        }
        proof {
            use_type_invariant(&*self);
            assert forall|i: int| 0 <= i < self.locations.len() implies (
            #[trigger] self.locations[i]).id != location.id by {
                lemma_location_map_holds(self.locations@, i);
            }
        }
        let mut locations: Vec<LocationDTO> = Vec::new();
        std::mem::swap(&mut self.locations, &mut locations);
        locations.push(location);
        self.locations = locations;
        proof {
            assert(self.locations@.drop_last() == old(self).locations@);
        }
        Ok(())
    }
}

impl LocationRepository for InMemoryLocationRepository {
    closed spec fn locations(&self) -> Map<i32, LocationView> {
        location_map(self.locations@)
    }

    fn find_by_id(&self, id: i32) -> (found: Option<LocationDTO>) {
        let mut at: usize = self.locations.len();
        assert(self.locations@.take(at as int) == self.locations@);
        while at > 0
            invariant
                at <= self.locations.len(),
                self.locations().contains_key(id) == location_map(
                    self.locations@.take(at as int),
                ).contains_key(id),
                self.locations().contains_key(id) ==> self.locations()[id] == location_map(
                    self.locations@.take(at as int),
                )[id],
            decreases at,
        {
            at -= 1;
            let location = &self.locations[at];
            proof {
                let upto = self.locations@.take(at + 1);
                assert(upto.drop_last() == self.locations@.take(at as int));
                assert(upto.last() == *location);
            }
            if location.id == id {
                return Some(location.clone());
            }
        }
        assert(self.locations@.take(0).len() == 0);
        None
    }
}

} // verus!
