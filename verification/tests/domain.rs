use text_adventure::domain::{BuilderError, LocationBuilder, PlayerState, PlayerStateBuilder};
use text_adventure::model::PlayerStateDTO;

#[test]
fn test_location_builder() {
    let location = LocationBuilder::default().aggregate_id(1)
        .title("Test Location Title".into())
        .description("Test Location Description".into())
        .build()
        .unwrap();

    assert_eq!(location.aggregate_id, 1);
    assert_eq!(location.title, "Test Location Title");
    assert_eq!(location.description, "Test Location Description");
    assert_eq!(location.image_url, None);
}

#[test]
fn location_builder_takes_an_image() {
    let location = LocationBuilder::default()
        .aggregate_id(-4)
        .title("Cave".into())
        .description("Dark.".into())
        .image_url(Some("cave.png".into()))
        .build()
        .unwrap();
    assert_eq!(location.get_aggregate_id(), -4);
    assert_eq!(location.image_url, Some("cave.png".to_string()));
    let copy = location.clone();
    assert_eq!(copy.get_aggregate_id(), -4);
    assert_eq!(copy.title, "Cave");
    assert_eq!(copy.description, "Dark.");
    assert_eq!(copy.image_url, Some("cave.png".to_string()));
}

#[test]
fn location_builder_names_the_first_missing_field() {
    let none = LocationBuilder::default().build();
    assert!(matches!(none, Err(BuilderError::UninitializedField("aggregate_id"))));
    let no_title = LocationBuilder::default().aggregate_id(1).description("d".into()).build();
    assert!(matches!(no_title, Err(BuilderError::UninitializedField("title"))));
    let no_description = LocationBuilder::default().aggregate_id(1).title("t".into()).build();
    assert!(matches!(no_description, Err(BuilderError::UninitializedField("description"))));
    let no_id = LocationBuilder::default().title("t".into()).description("d".into()).build();
    assert!(matches!(no_id, Err(BuilderError::UninitializedField("aggregate_id"))));
}

#[test]
fn player_state_builder_makes_the_record() {
    let state = PlayerStateBuilder::default().player_id(3).current_location_id(9).build().unwrap();
    assert_eq!(state.player_id(), 3);
    assert_eq!(state.current_location_id(), 9);
}

#[test]
fn player_state_builder_names_the_first_missing_field() {
    let none = PlayerStateBuilder::default().build();
    assert!(matches!(none, Err(BuilderError::UninitializedField("player_id"))));
    let no_location = PlayerStateBuilder::default().player_id(1).build();
    assert!(matches!(no_location, Err(BuilderError::UninitializedField("current_location_id"))));
    let no_player = PlayerStateBuilder::default().current_location_id(1).build();
    assert!(matches!(no_player, Err(BuilderError::UninitializedField("player_id"))));
}

#[test]
fn player_state_moves_and_keeps_its_player() {
    let mut state = PlayerState::from_dto(PlayerStateDTO { player_id: 5, current_location_id: 1 });
    assert_eq!(state.player_id(), 5);
    assert_eq!(state.current_location_id(), 1);
    state.set_current_location_id(2);
    assert_eq!(state.player_id(), 5);
    assert_eq!(state.current_location_id(), 2);
    assert_eq!(state.to_dto(), PlayerStateDTO { player_id: 5, current_location_id: 2 });
}
