use dummy_agones::GameServerState;

const ALL_STATES: [GameServerState; 11] = [
    GameServerState::PortAllocation,
    GameServerState::Creating,
    GameServerState::Starting,
    GameServerState::Scheduled,
    GameServerState::RequestReady,
    GameServerState::Ready,
    GameServerState::Shutdown,
    GameServerState::Error,
    GameServerState::Unhealthy,
    GameServerState::Reserved,
    GameServerState::Allocated,
];

#[test]
fn state_to_string_should_be_parsed_to_the_same_state_by_from_str() {
    for state in [
        GameServerState::PortAllocation,
        GameServerState::Creating,
        GameServerState::Starting,
        GameServerState::Scheduled,
        GameServerState::RequestReady,
        GameServerState::Ready,
        GameServerState::Shutdown,
        GameServerState::Error,
        GameServerState::Unhealthy,
        GameServerState::Reserved,
        GameServerState::Allocated,
    ] {
        let state = state.to_string();
        assert_eq!(state.parse::<GameServerState>().unwrap().to_string(), state);
    }
}

#[test]
fn state_from_str_should_generate_the_same_string_with_to_string() {
    for state_str in [
        "PortAllocation",
        "Creating",
        "Starting",
        "Scheduled",
        "RequestReady",
        "Ready",
        "Shutdown",
        "Error",
        "Unhealthy",
        "Reserved",
        "Allocated",
    ] {
        let state = state_str.parse::<GameServerState>().unwrap();
        assert_eq!(state.to_string(), state_str);
    }
}

#[test]
fn parsing_a_name_gives_the_same_state_back() {
    for state in ALL_STATES {
        assert_eq!(GameServerState::parse(&state.to_string()), Ok(state));
    }
}

#[test]
fn state_names_are_distinct() {
    for a in ALL_STATES {
        for b in ALL_STATES {
            assert_eq!(a.to_string() == b.to_string(), a == b);
        }
    }
}

#[test]
fn each_state_has_its_variant_name() {
    assert_eq!(GameServerState::Ready.to_string(), "Ready");
    assert_eq!(GameServerState::PortAllocation.to_string(), "PortAllocation");
    assert_eq!(GameServerState::RequestReady.to_string(), "RequestReady");
    assert_eq!(GameServerState::Allocated.to_string(), "Allocated");
}

#[test]
fn unknown_name_is_refused_with_message() {
    assert_eq!(
        "Bogus".parse::<GameServerState>(),
        Err("Unknown GameServerState: Bogus".to_string())
    );
    assert_eq!(
        GameServerState::parse(""),
        Err("Unknown GameServerState: ".to_string())
    );
}

#[test]
fn parsing_is_case_sensitive() {
    assert!(GameServerState::parse("ready").is_err());
    assert!(GameServerState::parse("READY").is_err());
    assert!(GameServerState::parse(" Ready").is_err());
    assert!(GameServerState::parse("Ready ").is_err());
}
