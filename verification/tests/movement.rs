use std::sync::Arc;

use text_adventure::errors::{
    database_connection_failure, no_entry_found, ErrorKind, MoveError,
};
use text_adventure::memory::{
    InMemoryLocationRepository, InMemoryPassageRepository, MockPlayerStateRepository,
};
use text_adventure::model::{LocationDTO, PassageDTO, PlayerStateDTO};
use text_adventure::movement::{
    resolve_movement, MovePlayerCommand, MovePlayerUseCase, RequestContext,
};
use text_adventure::repository::PlayerStateRepository;
use text_adventure::web::{move_player, AppState, WebMovePlayerInput};

type UseCase =
    MovePlayerUseCase<InMemoryLocationRepository, InMemoryPassageRepository, MockPlayerStateRepository>;

fn passage(id: i32, from: i32, to: i32, direction: &str, narration: &str) -> PassageDTO {
    PassageDTO {
        id,
        from_location_id: from,
        to_location_id: to,
        direction: direction.to_string(),
        description: "desc".to_string(),
        narration: narration.to_string(),
    }
}

fn location(id: i32) -> LocationDTO {
    LocationDTO {
        id,
        title: "test title".to_string(),
        description: "test description".to_string(),
        image_url: None,
    }
}

/// Player 1 stands in location 1. Locations 1 and 2 exist. A passage leads
/// north from 1 to 2, one leads east from 1 to 3, which does not exist, and
/// one leads south from 2 to 1.
fn world(verify_destination: bool) -> UseCase {
    let mut locations = InMemoryLocationRepository::new();
    locations.add(location(1)).unwrap();
    locations.add(location(2)).unwrap();
    let mut passages = InMemoryPassageRepository::new();
    passages.add(passage(1, 1, 2, "north", "You step into a clearing.")).unwrap();
    passages.add(passage(2, 1, 3, "east", "You fall off the map.")).unwrap();
    passages.add(passage(3, 2, 1, "south", "You walk back.")).unwrap();
    let states =
        MockPlayerStateRepository::new(PlayerStateDTO { player_id: 1, current_location_id: 1 });
    MovePlayerUseCase::new(Arc::new(locations), Arc::new(passages), states, verify_destination)
}

#[test]
fn move_north_reaches_the_clearing() {
    let mut use_case = world(true);
    let moved = use_case.move_player(1, "north").unwrap();
    assert_eq!(moved.player_location, 2);
    assert_eq!(moved.narration, "You step into a clearing.");
    let state = use_case.player_state_repository.find_by_id(1).unwrap();
    assert_eq!(state.current_location_id, 2);
    assert_eq!(state.player_id, 1);
    assert_eq!(
        use_case.player_state_repository.saved,
        vec![PlayerStateDTO { player_id: 1, current_location_id: 2 }]
    );
}

#[test]
fn move_south_from_the_start_is_no_passage() {
    let mut use_case = world(true);
    let result = use_case.move_player(1, "south");
    assert_eq!(result.unwrap_err(), MoveError::NoPassage);
    assert_eq!(
        use_case.player_state_repository.find_by_id(1),
        Some(PlayerStateDTO { player_id: 1, current_location_id: 1 })
    );
    assert!(use_case.player_state_repository.saved.is_empty());
}

#[test]
fn move_of_an_unknown_player_is_player_not_found() {
    let mut use_case = world(true);
    let result = use_case.move_player(42, "north");
    assert_eq!(result.unwrap_err(), MoveError::PlayerNotFound);
    assert!(use_case.player_state_repository.saved.is_empty());
    assert_eq!(use_case.player_state_repository.find_by_id(42), None);
    assert_eq!(
        use_case.player_state_repository.find_by_id(1),
        Some(PlayerStateDTO { player_id: 1, current_location_id: 1 })
    );
}

#[test]
fn unknown_player_comes_before_unknown_direction() {
    let mut use_case = world(true);
    assert_eq!(use_case.move_player(42, "nowhere").unwrap_err(), MoveError::PlayerNotFound);
    assert_eq!(use_case.move_player(42, "").unwrap_err(), MoveError::PlayerNotFound);
}

#[test]
fn direction_is_matched_whatever_the_case_and_padding() {
    for label in ["North", " north ", "NORTH", "north", "\tnOrTh\n"] {
        let mut use_case = world(true);
        let moved = use_case.move_player(1, label).unwrap();
        assert_eq!(moved.player_location, 2);
        assert_eq!(moved.narration, "You step into a clearing.");
        assert_eq!(use_case.player_state_repository.find_by_id(1).unwrap().current_location_id, 2);
    }
}

#[test]
fn empty_and_unknown_directions_are_no_passage() {
    for label in ["", " ", "\t\n", "up", "nort", "north north", "n"] {
        let mut use_case = world(true);
        assert_eq!(use_case.move_player(1, label).unwrap_err(), MoveError::NoPassage);
        assert!(use_case.player_state_repository.saved.is_empty());
    }
}

#[test]
fn passage_with_an_empty_label_is_never_taken() {
    let mut passages = InMemoryPassageRepository::new();
    passages.add(passage(1, 1, 2, "  ", "nowhere")).unwrap();
    let states =
        MockPlayerStateRepository::new(PlayerStateDTO { player_id: 1, current_location_id: 1 });
    let mut use_case = MovePlayerUseCase::new(
        Arc::new(InMemoryLocationRepository::new()),
        Arc::new(passages),
        states,
        false,
    );
    assert_eq!(use_case.move_player(1, "").unwrap_err(), MoveError::NoPassage);
    assert_eq!(use_case.move_player(1, "  ").unwrap_err(), MoveError::NoPassage);
}

#[test]
fn passage_to_a_missing_location_is_a_data_integrity_error() {
    let mut use_case = world(true);
    let result = use_case.move_player(1, "east");
    assert_eq!(result.unwrap_err(), MoveError::DataIntegrityError);
    assert!(use_case.player_state_repository.saved.is_empty());
    assert_eq!(use_case.player_state_repository.find_by_id(1).unwrap().current_location_id, 1);
}

#[test]
fn passage_to_a_missing_location_is_taken_when_unchecked() {
    let mut use_case = world(false);
    let moved = use_case.move_player(1, "east").unwrap();
    assert_eq!(moved.player_location, 3);
    assert_eq!(moved.narration, "You fall off the map.");
    assert_eq!(use_case.player_state_repository.find_by_id(1).unwrap().current_location_id, 3);
    assert_eq!(use_case.player_state_repository.saved.len(), 1);
}

#[test]
fn each_move_that_happens_writes_once() {
    let mut use_case = world(true);
    assert!(use_case.move_player(1, "north").is_ok());
    assert_eq!(use_case.player_state_repository.saved.len(), 1);
    assert!(use_case.move_player(1, "north").is_err());
    assert_eq!(use_case.player_state_repository.saved.len(), 1);
    assert!(use_case.move_player(7, "south").is_err());
    assert_eq!(use_case.player_state_repository.saved.len(), 1);
    let back = use_case.move_player(1, "South").unwrap();
    assert_eq!(back.player_location, 1);
    assert_eq!(back.narration, "You walk back.");
    assert_eq!(
        use_case.player_state_repository.saved,
        vec![
            PlayerStateDTO { player_id: 1, current_location_id: 2 },
            PlayerStateDTO { player_id: 1, current_location_id: 1 },
        ]
    );
    assert_eq!(use_case.player_state_repository.find_by_id(1).unwrap().current_location_id, 1);
}

#[test]
fn resolver_finds_the_passage_or_none() {
    let use_case = world(true);
    let found = resolve_movement(&*use_case.passage_repository, 1, " NORTH").unwrap();
    assert_eq!(found.id, 1);
    assert_eq!(found.from_location_id, 1);
    assert_eq!(found.to_location_id, 2);
    assert_eq!(found.direction, "north");
    assert_eq!(found.narration, "You step into a clearing.");
    assert!(resolve_movement(&*use_case.passage_repository, 1, "south").is_none());
    assert!(resolve_movement(&*use_case.passage_repository, 2, "north").is_none());
    assert!(resolve_movement(&*use_case.passage_repository, 1, "").is_none());
    assert_eq!(resolve_movement(&*use_case.passage_repository, 2, "south").unwrap().id, 3);
}

#[test]
fn execute_serves_the_player_of_the_context() {
    let mut use_case = world(true);
    let moved = use_case
        .execute(
            RequestContext::new(Some(1)),
            MovePlayerCommand { direction: "north".to_string() },
        )
        .unwrap();
    assert_eq!(moved.player_location, 2);
    assert_eq!(moved.narration, "You step into a clearing.");
    let unknown = use_case.execute(
        RequestContext::new(Some(42)),
        MovePlayerCommand { direction: "north".to_string() },
    );
    assert_eq!(unknown.unwrap_err(), MoveError::PlayerNotFound);
    assert_eq!(use_case.player_state_repository.saved.len(), 1);
}

#[test]
fn web_request_moves_the_player() {
    let use_case = world(true);
    let mut data = AppState::new(
        use_case.location_repository.clone(),
        use_case.passage_repository.clone(),
        use_case,
    );
    let output = move_player(
        &mut data,
        RequestContext::new(Some(1)),
        WebMovePlayerInput { direction: " North ".to_string() },
    )
    .unwrap();
    assert_eq!(output.location, 2);
    assert_eq!(output.narration, "You step into a clearing.");
    assert_eq!(
        data.move_player_use_case.player_state_repository.find_by_id(1),
        Some(PlayerStateDTO { player_id: 1, current_location_id: 2 })
    );
    let blocked = move_player(
        &mut data,
        RequestContext::new(Some(1)),
        WebMovePlayerInput { direction: "west".to_string() },
    );
    assert_eq!(blocked.unwrap_err(), MoveError::NoPassage);
    assert_eq!(data.move_player_use_case.player_state_repository.saved.len(), 1);
}

#[test]
fn command_takes_the_direction_of_the_input() {
    let command = MovePlayerCommand::from(WebMovePlayerInput { direction: " Up ".to_string() });
    assert_eq!(command.direction, " Up ");
}

#[test]
fn context_holds_the_player() {
    assert_eq!(RequestContext::new(Some(1)).player_id, Some(1));
    assert_eq!(RequestContext::new(None).player_id, None);
}

#[test]
fn kinds_of_error() {
    assert_eq!(MoveError::PlayerNotFound.kind(), ErrorKind::Functional);
    assert_eq!(MoveError::NoPassage.kind(), ErrorKind::Functional);
    assert_eq!(MoveError::DataIntegrityError.kind(), ErrorKind::Technical);
    assert_eq!(MoveError::StoreUnavailable.kind(), ErrorKind::Technical);
    assert!(!MoveError::PlayerNotFound.is_incident());
    assert!(!MoveError::NoPassage.is_incident());
    assert!(MoveError::DataIntegrityError.is_incident());
    assert!(MoveError::StoreUnavailable.is_incident());
}

#[test]
fn templates_of_error() {
    let not_found = MoveError::PlayerNotFound.template();
    assert_eq!(not_found.code, "player_not_found");
    assert_eq!(not_found.message, "The player is not known.");
    assert_eq!(not_found.kind, ErrorKind::Functional);
    let no_passage = MoveError::NoPassage.template();
    assert_eq!(no_passage.code, "no_passage");
    assert_eq!(no_passage.message, "There is no passage in that direction.");
    assert_eq!(no_passage.kind, ErrorKind::Functional);
    let integrity = MoveError::DataIntegrityError.template();
    assert_eq!(integrity.code, "data_integrity_error");
    assert_eq!(integrity.message, "The game world is inconsistent.");
    assert_eq!(integrity.kind, ErrorKind::Technical);
    let unavailable = MoveError::StoreUnavailable.template();
    assert_eq!(unavailable.code, "store_unavailable");
    assert_eq!(unavailable.message, "The game is unavailable at the moment.");
    assert_eq!(unavailable.kind, ErrorKind::Technical);
}

#[test]
fn standard_templates() {
    let connection = database_connection_failure();
    assert_eq!(connection.code, "database_connection_failure");
    assert_eq!(connection.message, "Failed to connect to the database.");
    assert_eq!(connection.kind, ErrorKind::Technical);
    let nothing = no_entry_found();
    assert_eq!(nothing.code, "no_entry_found");
    assert_eq!(nothing.message, "The query did return no results.");
    assert_eq!(nothing.kind, ErrorKind::Functional);
}

#[test]
fn players_move_apart_from_one_another() {
    let mut use_case = world(true);
    use_case.player_state_repository.save(PlayerStateDTO { player_id: 9, current_location_id: 2 });
    let moved = use_case.move_player(9, "south").unwrap();
    assert_eq!(moved.player_location, 1);
    assert_eq!(moved.narration, "You walk back.");
    assert_eq!(use_case.player_state_repository.find_by_id(9).unwrap().current_location_id, 1);
    assert_eq!(use_case.player_state_repository.find_by_id(1).unwrap().current_location_id, 1);
    let other = use_case.move_player(1, "north").unwrap();
    assert_eq!(other.player_location, 2);
    assert_eq!(use_case.player_state_repository.find_by_id(9).unwrap().current_location_id, 1);
    assert_eq!(use_case.player_state_repository.find_by_id(1).unwrap().current_location_id, 2);
    assert_eq!(use_case.player_state_repository.saved.len(), 3);
}
