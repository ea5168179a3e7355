//! The request boundary's share of a move: what comes in from a caller,
//! what goes back, and the services that a request is served with.

use std::sync::Arc;
use vstd::prelude::*;
use vstd::std_specs::convert::FromSpecImpl;
use crate::errors::MoveError;
use crate::movement::{
    MovePlayerCommand,
    MovePlayerResultView,
    MovePlayerUseCase,
    RequestContext,
};
use crate::repository::{LocationRepository, PassageRepository, PlayerStateRepository};

verus! {

/// What a caller sends to move: a direction, and nothing else. Who the
/// caller is never comes from here.
#[derive(Debug)]
pub struct WebMovePlayerInput {
    pub direction: String,
}

/// What a caller gets back from a move that happened.
#[derive(Debug)]
pub struct WebMovePlayerOutput {
    pub location: i32,
    pub narration: String,
}

impl From<WebMovePlayerInput> for MovePlayerCommand {
    fn from(input: WebMovePlayerInput) -> (command: Self) {
        MovePlayerCommand { direction: input.direction }
    }
}

impl FromSpecImpl<WebMovePlayerInput> for MovePlayerCommand {
    open spec fn obeys_from_spec() -> bool {
        true
    }

    open spec fn from_spec(input: WebMovePlayerInput) -> Self {
        MovePlayerCommand { direction: input.direction }
    }
}

/// The services that requests are served with.
pub struct AppState<L: LocationRepository, P: PassageRepository, S: PlayerStateRepository> {
    pub location_repository: Arc<L>,
    pub passage_repository: Arc<P>,
    pub move_player_use_case: MovePlayerUseCase<L, P, S>,
}

impl<L: LocationRepository, P: PassageRepository, S: PlayerStateRepository> AppState<L, P, S> {
    /// The services, as they are handed in.
    pub fn new(
        location_repository: Arc<L>,
        passage_repository: Arc<P>,
        move_player_use_case: MovePlayerUseCase<L, P, S>,
    ) -> (state: Self)
        ensures
            state.location_repository == location_repository,
            state.passage_repository == passage_repository,
            state.move_player_use_case == move_player_use_case,
    {
        AppState { location_repository, passage_repository, move_player_use_case }
    }
}

/// What the workflow's outcome looks like to a caller.
pub open spec fn web_view(result: Result<WebMovePlayerOutput, MoveError>) -> Result<
    MovePlayerResultView,
    MoveError,
> {
    match result {
        Ok(output) => Ok(
            MovePlayerResultView { player_location: output.location, narration: output.narration@ },
        ),
        Err(error) => Err(error),
    }
}

/// Serves a request to move: hands the direction that came in to the
/// workflow, for the player that the context names, and gives back where
/// the player stands now and what the player is told, or why the move did
/// not happen.
pub fn move_player<L: LocationRepository, P: PassageRepository, S: PlayerStateRepository>(
    data: &mut AppState<L, P, S>,
    context: RequestContext,
    web_input: WebMovePlayerInput,
) -> (result: Result<WebMovePlayerOutput, MoveError>)
    requires
        context.player_id is Some,
    ensures
        web_view(result) == old(data).move_player_use_case.outcome(
            context.player_id->0,
            web_input.direction@,
        ),
        old(data).move_player_use_case.committed(
            final(data).move_player_use_case,
            context.player_id->0,
            web_view(result),
        ),
        final(data).location_repository == old(data).location_repository,
        final(data).passage_repository == old(data).passage_repository,
{
    let command = MovePlayerCommand::from(web_input);
    match data.move_player_use_case.execute(context, command) {
        Ok(response) => Ok(
            WebMovePlayerOutput { location: response.player_location, narration: response.narration },
        ),
        Err(error) => Err(error),
    }
}

} // verus!
