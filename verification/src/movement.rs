//! Moving a player: which passage a direction names, and the workflow that
//! takes the player through it.

use std::sync::Arc;
use vstd::prelude::*;
use crate::direction::{
    all_whitespace,
    direction_key,
    lemma_key_ignores_case,
    lemma_key_ignores_surrounding_whitespace,
    lowered,
    normalize_direction,
};
use crate::domain::PlayerState;
use crate::errors::MoveError;
use crate::model::{LocationView, PassageDTO, PassageView, PlayerStateDTO};
use crate::repository::{
    stored_state,
    LocationRepository,
    PassageRepository,
    PlayerStateRepository,
};

verus! {

/// Who asks: the player that the caller was found to be, if any.
#[derive(Debug, Clone, Copy)]
pub struct RequestContext {
    pub player_id: Option<i32>,
}

impl RequestContext {
    /// The context of a request made by `player_id`.
    pub fn new(player_id: Option<i32>) -> (context: Self)
        ensures
            context.player_id == player_id,
    {
        RequestContext { player_id }
    }
}

/// What a player asks for: to go in a direction.
#[derive(Debug)]
pub struct MovePlayerCommand {
    pub direction: String,
}

/// What a move that happened looks like, as mathematical values.
pub struct MovePlayerResultView {
    pub player_location: i32,
    pub narration: Seq<char>,
}

/// A move that happened: where the player stands now, and what the player
/// is told of the way.
#[derive(Debug)]
pub struct MovePlayerResult {
    pub player_location: i32,
    pub narration: String,
}

impl View for MovePlayerResult {
    type V = MovePlayerResultView;

    open spec fn view(&self) -> MovePlayerResultView {
        MovePlayerResultView { player_location: self.player_location, narration: self.narration@ }
    }
}

/// The passage of `passages` that leaves `location_id` in the direction
/// that `direction` names. A label that is empty once its surrounding white
/// space is gone names no direction.
pub open spec fn resolved_passage(
    passages: Map<(i32, Seq<char>), PassageView>,
    location_id: i32,
    direction: Seq<char>,
) -> Option<PassageView> {
    let key = direction_key(direction);
    if key.len() == 0 {
        None
    } else {
        passages.get((location_id, key))
    }
}

/// What was found, as mathematical values.
pub open spec fn passage_view(found: Option<PassageDTO>) -> Option<PassageView> {
    match found {
        Some(passage) => Some(passage@),
        None => None,
    }
}

/// Decides which passage a player at `current_location_id` takes who asks
/// to go in `direction`, if any. A direction that names nothing and one
/// that is blocked are not told apart.
pub fn resolve_movement<P: PassageRepository>(
    passages: &P,
    current_location_id: i32,
    direction: &str,
) -> (found: Option<PassageDTO>)
    ensures
        passage_view(found) == resolved_passage(
            passages.passages(),
            current_location_id,
            direction@,
        ),
        found is Some ==> found->0.from_location_id == current_location_id,
        found is Some ==> direction_key(found->0.direction@) == direction_key(direction@),
{
    let key = normalize_direction(direction);
    if key.len() == 0 {
        None
    } else {
        passages.find_by_origin_and_direction(current_location_id, direction)
    }
}

/// What a move comes to: for the player `player_id`, who asks to go in
/// `direction`, in a world of `states`, `passages` and `locations`. With
/// `verify_destination`, a passage to a location that does not exist is a
/// data-integrity error; without it such a passage is taken.
pub open spec fn move_outcome(
    states: Map<i32, i32>,
    passages: Map<(i32, Seq<char>), PassageView>,
    locations: Map<i32, LocationView>,
    verify_destination: bool,
    player_id: i32,
    direction: Seq<char>,
) -> Result<MovePlayerResultView, MoveError> {
    if !states.contains_key(player_id) {
        Err(MoveError::PlayerNotFound)
    } else {
        match resolved_passage(passages, states[player_id], direction) {
            None => Err(MoveError::NoPassage),
            Some(passage) => if verify_destination && !locations.contains_key(
                passage.to_location_id,
            ) {
                Err(MoveError::DataIntegrityError)
            } else {
                Ok(
                    MovePlayerResultView {
                        player_location: passage.to_location_id,
                        narration: passage.narration,
                    },
                )
            },
        }
    }
}

/// A move depends on the direction's key alone: two labels with one key
/// come to the same outcome.
pub proof fn lemma_outcome_depends_on_key(
    states: Map<i32, i32>,
    passages: Map<(i32, Seq<char>), PassageView>,
    locations: Map<i32, LocationView>,
    verify_destination: bool,
    player_id: i32,
    left: Seq<char>,
    right: Seq<char>,
)
    requires
        direction_key(left) == direction_key(right),
    ensures
        move_outcome(states, passages, locations, verify_destination, player_id, left)
            == move_outcome(states, passages, locations, verify_destination, player_id, right),
{
}

/// Directions are matched without regard to case and to surrounding white
/// space: a label comes to the same outcome as any label that differs from
/// it only in the case of its ASCII letters, with any white space put
/// before and after.
pub proof fn lemma_outcome_ignores_case_and_padding(
    states: Map<i32, i32>,
    passages: Map<(i32, Seq<char>), PassageView>,
    locations: Map<i32, LocationView>,
    verify_destination: bool,
    player_id: i32,
    label: Seq<char>,
    recased: Seq<char>,
    lead: Seq<char>,
    trail: Seq<char>,
)
    requires
        lowered(recased) == lowered(label),
        all_whitespace(lead),
        all_whitespace(trail),
    ensures
        move_outcome(
            states,
            passages,
            locations,
            verify_destination,
            player_id,
            lead + recased + trail,
        ) == move_outcome(states, passages, locations, verify_destination, player_id, label),
{
    lemma_key_ignores_surrounding_whitespace(lead, recased, trail);
    lemma_key_ignores_case(recased, label);
    lemma_outcome_depends_on_key(
        states,
        passages,
        locations,
        verify_destination,
        player_id,
        lead + recased + trail,
        label,
    );
}

/// The result of a move, as mathematical values.
pub open spec fn outcome_view(result: Result<MovePlayerResult, MoveError>) -> Result<
    MovePlayerResultView,
    MoveError,
> {
    match result {
        Ok(moved) => Ok(moved@),
        Err(error) => Err(error),
    }
}

/// The workflow that moves a player. It holds no state of its own between
/// calls: what it knows, it reads from its three stores.
///
/// A move reads the player's record, decides, and writes the record back,
/// with nothing in between that makes sure the record is still the one that
/// was read. A move takes its workflow exclusively, so two moves through
/// one workflow follow one another. Where several workflows share a store
/// of player states, two moves of one player at once both go by the record
/// they read, and the later write stands: such a store has to keep them
/// apart itself, by a lock for each player or a version on each record.
pub struct MovePlayerUseCase<L: LocationRepository, P: PassageRepository, S: PlayerStateRepository> {
    pub location_repository: Arc<L>,
    pub passage_repository: Arc<P>,
    pub player_state_repository: S,
    /// Whether a move makes sure that the location it leads to exists. If
    /// so, a passage to a location that the store of locations does not
    /// hold fails the move with a data-integrity error; if not, the store
    /// of locations is never read and such a passage is taken.
    pub verify_destination: bool,
}

impl<L: LocationRepository, P: PassageRepository, S: PlayerStateRepository> MovePlayerUseCase<
    L,
    P,
    S,
> {
    /// A workflow over the three stores.
    pub fn new(
        location_repository: Arc<L>,
        passage_repository: Arc<P>,
        player_state_repository: S,
        verify_destination: bool,
    ) -> (use_case: Self)
        ensures
            use_case.location_repository == location_repository,
            use_case.passage_repository == passage_repository,
            use_case.player_state_repository == player_state_repository,
            use_case.verify_destination == verify_destination,
    {
        MovePlayerUseCase {
            location_repository,
            passage_repository,
            player_state_repository,
            verify_destination,
        }
    }

    /// What a move of `player_id` in `direction` comes to, in the world as
    /// the stores hold it.
    pub open spec fn outcome(self, player_id: i32, direction: Seq<char>) -> Result<
        MovePlayerResultView,
        MoveError,
    > {
        move_outcome(
            self.player_state_repository.states(),
            self.passage_repository.passages(),
            self.location_repository.locations(),
            self.verify_destination,
            player_id,
            direction,
        )
    }

    /// The passage that a move of `player_id` in `direction` would take:
    /// the one that leaves the player's location in that direction.
    pub open spec fn passage_taken(self, player_id: i32, direction: Seq<char>) -> Option<
        PassageView,
    > {
        resolved_passage(
            self.passage_repository.passages(),
            self.player_state_repository.states()[player_id],
            direction,
        )
    }

    /// Whether `player_id` has no stored state.
    pub open spec fn player_unknown(self, player_id: i32) -> bool {
        !self.player_state_repository.states().contains_key(player_id)
    }

    /// Whether `player_id` has a stored state, and no passage leaves the
    /// player's location in `direction`.
    pub open spec fn way_blocked(self, player_id: i32, direction: Seq<char>) -> bool {
        &&& self.player_state_repository.states().contains_key(player_id)
        &&& self.passage_taken(player_id, direction) is None
    }

    /// Whether `player_id` has a stored state, and a passage leaves the
    /// player's location in `direction` for a location that exists.
    pub open spec fn way_open(self, player_id: i32, direction: Seq<char>) -> bool {
        &&& self.player_state_repository.states().contains_key(player_id)
        &&& self.passage_taken(player_id, direction) is Some
        &&& self.location_repository.locations().contains_key(
            self.passage_taken(player_id, direction)->0.to_location_id,
        )
    }

    /// Whether `after` is this workflow once a move of `player_id` has come
    /// to `outcome`: a move that happened has written the player's new
    /// record, once; a move that failed has left the store of player states
    /// as it was. The other stores and the setting stay in either case.
    pub open spec fn committed(
        self,
        after: Self,
        player_id: i32,
        outcome: Result<MovePlayerResultView, MoveError>,
    ) -> bool {
        &&& match outcome {
            Ok(moved) => {
                &&& after.player_state_repository.states()
                    == self.player_state_repository.states().insert(
                    player_id,
                    moved.player_location,
                )
                &&& after.player_state_repository.writes()
                    == self.player_state_repository.writes().push(
                    PlayerStateDTO { player_id, current_location_id: moved.player_location },
                )
            },
            Err(_) => after.player_state_repository == self.player_state_repository,
        }
        &&& after.location_repository == self.location_repository
        &&& after.passage_repository == self.passage_repository
        &&& after.verify_destination == self.verify_destination
    }

    /// Moves `player_id` through the passage that leaves the player's
    /// location in `direction`.
    ///
    /// A move that happens writes the player's new record, once; a move
    /// that fails writes nothing and leaves the store of player states as
    /// it was.
    pub fn move_player(&mut self, player_id: i32, direction: &str) -> (result: Result<
        MovePlayerResult,
        MoveError,
    >)
        ensures
            outcome_view(result) == old(self).outcome(player_id, direction@),
            old(self).player_unknown(player_id) ==> result == Err::<MovePlayerResult, MoveError>(
                MoveError::PlayerNotFound,
            ),
            old(self).player_unknown(player_id) ==> final(self).player_state_repository == old(
                self,
            ).player_state_repository,
            old(self).way_blocked(player_id, direction@) ==> result == Err::<
                MovePlayerResult,
                MoveError,
            >(MoveError::NoPassage),
            old(self).way_blocked(player_id, direction@) ==> final(self).player_state_repository
                == old(self).player_state_repository,
            old(self).way_open(player_id, direction@) ==> result is Ok,
            old(self).way_open(player_id, direction@) ==> result->Ok_0.player_location == old(
                self,
            ).passage_taken(player_id, direction@)->0.to_location_id,
            old(self).way_open(player_id, direction@) ==> result->Ok_0.narration@ == old(
                self,
            ).passage_taken(player_id, direction@)->0.narration,
            old(self).way_open(player_id, direction@) ==> stored_state(
                final(self).player_state_repository.states(),
                player_id,
            ) == Some(
                PlayerStateDTO {
                    player_id,
                    current_location_id: old(self).passage_taken(
                        player_id,
                        direction@,
                    )->0.to_location_id,
                },
            ),
            result is Ok ==> final(self).player_state_repository.writes() == old(
                self,
            ).player_state_repository.writes().push(
                PlayerStateDTO { player_id, current_location_id: result->Ok_0.player_location },
            ),
            result is Err ==> final(self).player_state_repository.writes() == old(
                self,
            ).player_state_repository.writes(),
            old(self).committed(*final(self), player_id, outcome_view(result)),
    {
        let stored = match self.player_state_repository.find_by_id(player_id) {
            Some(stored) => stored,
            None => return Err(MoveError::PlayerNotFound),
        };
        let mut state = PlayerState::from_dto(stored);
        let passage = match resolve_movement(
            &*self.passage_repository,
            state.current_location_id(),
            direction,
        ) {
            Some(passage) => passage,
            None => return Err(MoveError::NoPassage),
        };
        if self.verify_destination {
            if self.location_repository.find_by_id(passage.to_location_id).is_none() {
                return Err(MoveError::DataIntegrityError);
            }
        }
        state.set_current_location_id(passage.to_location_id);
        self.player_state_repository.save(state.to_dto());
        Ok(MovePlayerResult { player_location: passage.to_location_id, narration: passage.narration })
    }

    /// Serves a command in the context of a request. The context names the
    /// player: a command never does.
    pub fn execute(&mut self, context: RequestContext, command: MovePlayerCommand) -> (result:
        Result<MovePlayerResult, MoveError>)
        requires
            context.player_id is Some,
        ensures
            outcome_view(result) == old(self).outcome(context.player_id->0, command.direction@),
            old(self).committed(*final(self), context.player_id->0, outcome_view(result)),
    {
        self.move_player(context.player_id.unwrap(), command.direction.as_str())
    }
}

} // verus!
