//! The lifecycle states of an Agones `GameServer`, and their names.

use vstd::prelude::*;

verus! {

/// The state of a `GameServer`, as Agones names it in `status.state`.
#[derive(Clone, Copy, Debug, PartialEq, Eq, Structural)]
pub enum GameServerState {
    /// A dynamically allocating GameServer is being created and an open
    /// port needs to be allocated.
    PortAllocation,
    /// The Pod for the GameServer is about to be created.
    Creating,
    /// The Pods for the GameServer are being created but are not yet
    /// scheduled.
    Starting,
    /// The Pod has been scheduled in the cluster: it has a node name.
    Scheduled,
    /// The GameServer has declared that it is ready.
    RequestReady,
    /// The GameServer is ready to take connections from game clients.
    Ready,
    /// The GameServer has shut down and everything needs to be deleted
    /// from the cluster.
    Shutdown,
    /// Something has gone wrong with the GameServer and it cannot be
    /// resolved.
    Error,
    /// The GameServer has failed its health checks.
    Unhealthy,
    /// The GameServer is reserved: it can be allocated but not removed.
    Reserved,
    /// The GameServer has been allocated to a session.
    Allocated,
}

/// The name of a state: the string that stands for it in `status.state`.
pub open spec fn state_name(state: GameServerState) -> Seq<char> {
    match state {
        GameServerState::PortAllocation => "PortAllocation"@,
        GameServerState::Creating => "Creating"@,
        GameServerState::Starting => "Starting"@,
        GameServerState::Scheduled => "Scheduled"@,
        GameServerState::RequestReady => "RequestReady"@,
        GameServerState::Ready => "Ready"@,
        GameServerState::Shutdown => "Shutdown"@,
        GameServerState::Error => "Error"@,
        GameServerState::Unhealthy => "Unhealthy"@,
        GameServerState::Reserved => "Reserved"@,
        GameServerState::Allocated => "Allocated"@,
    }
}

/// The message of the error that a string which names no state is refused with.
pub open spec fn unknown_state_message(s: Seq<char>) -> Seq<char> {
    "Unknown GameServerState: "@ + s
}

/// What parsing `s` gives: the state that `s` names, or the error message.
pub open spec fn parse_state(s: Seq<char>) -> Result<GameServerState, Seq<char>> {
    if s == "PortAllocation"@ {
        Ok(GameServerState::PortAllocation)
    } else if s == "Creating"@ {
        Ok(GameServerState::Creating)
    } else if s == "Starting"@ {
        Ok(GameServerState::Starting)
    } else if s == "Scheduled"@ {
        Ok(GameServerState::Scheduled)
    } else if s == "RequestReady"@ {
        Ok(GameServerState::RequestReady)
    } else if s == "Ready"@ {
        Ok(GameServerState::Ready)
    } else if s == "Shutdown"@ {
        Ok(GameServerState::Shutdown)
    } else if s == "Error"@ {
        Ok(GameServerState::Error)
    } else if s == "Unhealthy"@ {
        Ok(GameServerState::Unhealthy)
    } else if s == "Reserved"@ {
        Ok(GameServerState::Reserved)
    } else if s == "Allocated"@ {
        Ok(GameServerState::Allocated)
    } else {
        Err(unknown_state_message(s))
    }
}

impl GameServerState {
    /// The state that `s` names; a string that names no state is an error
    /// whose message is `Unknown GameServerState: ` followed by `s`.
    pub fn parse(s: &str) -> (r: Result<GameServerState, String>)
        ensures
            match r {
                Ok(state) => parse_state(s@) == Ok::<GameServerState, Seq<char>>(state),
                Err(e) => parse_state(s@) == Err::<GameServerState, Seq<char>>(e@),
            },
    {
        let owned = s.to_owned();
        if owned == String::from_str("PortAllocation") {
            Ok(GameServerState::PortAllocation)
        } else if owned == String::from_str("Creating") {
            Ok(GameServerState::Creating)
        } else if owned == String::from_str("Starting") {
            Ok(GameServerState::Starting)
        } else if owned == String::from_str("Scheduled") {
            Ok(GameServerState::Scheduled)
        } else if owned == String::from_str("RequestReady") {
            Ok(GameServerState::RequestReady)
        } else if owned == String::from_str("Ready") {
            Ok(GameServerState::Ready)
        } else if owned == String::from_str("Shutdown") {
            Ok(GameServerState::Shutdown)
        } else if owned == String::from_str("Error") {
            Ok(GameServerState::Error)
        } else if owned == String::from_str("Unhealthy") {
            Ok(GameServerState::Unhealthy)
        } else if owned == String::from_str("Reserved") {
            Ok(GameServerState::Reserved)
        } else if owned == String::from_str("Allocated") {
            Ok(GameServerState::Allocated)
        } else {
            let mut message = String::from_str("Unknown GameServerState: ");
            message.append(s);
            Err(message)
        }
    }

    /// The name of this state.
    pub fn to_string(&self) -> (r: String)
        ensures
            r@ == state_name(*self),
    {
        match self {
            GameServerState::PortAllocation => String::from_str("PortAllocation"),
            GameServerState::Creating => String::from_str("Creating"),
            GameServerState::Starting => String::from_str("Starting"),
            GameServerState::Scheduled => String::from_str("Scheduled"),
            GameServerState::RequestReady => String::from_str("RequestReady"),
            GameServerState::Ready => String::from_str("Ready"),
            GameServerState::Shutdown => String::from_str("Shutdown"),
            GameServerState::Error => String::from_str("Error"),
            GameServerState::Unhealthy => String::from_str("Unhealthy"),
            GameServerState::Reserved => String::from_str("Reserved"),
            GameServerState::Allocated => String::from_str("Allocated"),
        }
    }
}

impl std::str::FromStr for GameServerState {
    type Err = String;

    fn from_str(s: &str) -> (r: Result<GameServerState, String>)
        ensures
            match r {
                Ok(state) => parse_state(s@) == Ok::<GameServerState, Seq<char>>(state),
                Err(e) => parse_state(s@) == Err::<GameServerState, Seq<char>>(e@),
            },
    {
        GameServerState::parse(s)
    }
}

/// Parsing the name of a state gives that state back.
pub proof fn law_parse_state_name(state: GameServerState)
    ensures
        parse_state(state_name(state)) == Ok::<GameServerState, Seq<char>>(state),
{
    match state {
        GameServerState::PortAllocation => {
            reveal_strlit("PortAllocation");
        },
        GameServerState::Creating => {
            reveal_strlit("Creating");
            reveal_strlit("PortAllocation");
            assert("Creating"@.len() != "PortAllocation"@.len());
        },
        GameServerState::Starting => {
            reveal_strlit("Starting");
            reveal_strlit("PortAllocation");
            assert("Starting"@.len() != "PortAllocation"@.len());
            reveal_strlit("Creating");
            assert("Starting"@[0] != "Creating"@[0]);
        },
        GameServerState::Scheduled => {
            reveal_strlit("Scheduled");
            reveal_strlit("PortAllocation");
            assert("Scheduled"@.len() != "PortAllocation"@.len());
            reveal_strlit("Creating");
            assert("Scheduled"@.len() != "Creating"@.len());
            reveal_strlit("Starting");
            assert("Scheduled"@.len() != "Starting"@.len());
        },
        GameServerState::RequestReady => {
            reveal_strlit("RequestReady");
            reveal_strlit("PortAllocation");
            assert("RequestReady"@.len() != "PortAllocation"@.len());
            reveal_strlit("Creating");
            assert("RequestReady"@.len() != "Creating"@.len());
            reveal_strlit("Starting");
            assert("RequestReady"@.len() != "Starting"@.len());
            reveal_strlit("Scheduled");
            assert("RequestReady"@.len() != "Scheduled"@.len());
        },
        GameServerState::Ready => {
            reveal_strlit("Ready");
            reveal_strlit("PortAllocation");
            assert("Ready"@.len() != "PortAllocation"@.len());
            reveal_strlit("Creating");
            assert("Ready"@.len() != "Creating"@.len());
            reveal_strlit("Starting");
            assert("Ready"@.len() != "Starting"@.len());
            reveal_strlit("Scheduled");
            assert("Ready"@.len() != "Scheduled"@.len());
            reveal_strlit("RequestReady");
            assert("Ready"@.len() != "RequestReady"@.len());
        },
        GameServerState::Shutdown => {
            reveal_strlit("Shutdown");
            reveal_strlit("PortAllocation");
            assert("Shutdown"@.len() != "PortAllocation"@.len());
            reveal_strlit("Creating");
            assert("Shutdown"@[0] != "Creating"@[0]);
            reveal_strlit("Starting");
            assert("Shutdown"@[1] != "Starting"@[1]);
            reveal_strlit("Scheduled");
            assert("Shutdown"@.len() != "Scheduled"@.len());
            reveal_strlit("RequestReady");
            assert("Shutdown"@.len() != "RequestReady"@.len());
            reveal_strlit("Ready");
            assert("Shutdown"@.len() != "Ready"@.len());
        },
        GameServerState::Error => {
            reveal_strlit("Error");
            reveal_strlit("PortAllocation");
            assert("Error"@.len() != "PortAllocation"@.len());
            reveal_strlit("Creating");
            assert("Error"@.len() != "Creating"@.len());
            reveal_strlit("Starting");
            assert("Error"@.len() != "Starting"@.len());
            reveal_strlit("Scheduled");
            assert("Error"@.len() != "Scheduled"@.len());
            reveal_strlit("RequestReady");
            assert("Error"@.len() != "RequestReady"@.len());
            reveal_strlit("Ready");
            assert("Error"@[0] != "Ready"@[0]);
            reveal_strlit("Shutdown");
            assert("Error"@.len() != "Shutdown"@.len());
        },
        GameServerState::Unhealthy => {
            reveal_strlit("Unhealthy");
            reveal_strlit("PortAllocation");
            assert("Unhealthy"@.len() != "PortAllocation"@.len());
            reveal_strlit("Creating");
            assert("Unhealthy"@.len() != "Creating"@.len());
            reveal_strlit("Starting");
            assert("Unhealthy"@.len() != "Starting"@.len());
            reveal_strlit("Scheduled");
            assert("Unhealthy"@[0] != "Scheduled"@[0]);
            reveal_strlit("RequestReady");
            assert("Unhealthy"@.len() != "RequestReady"@.len());
            reveal_strlit("Ready");
            assert("Unhealthy"@.len() != "Ready"@.len());
            reveal_strlit("Shutdown");
            assert("Unhealthy"@.len() != "Shutdown"@.len());
            reveal_strlit("Error");
            assert("Unhealthy"@.len() != "Error"@.len());
        },
        GameServerState::Reserved => {
            reveal_strlit("Reserved");
            reveal_strlit("PortAllocation");
            assert("Reserved"@.len() != "PortAllocation"@.len());
            reveal_strlit("Creating");
            assert("Reserved"@[0] != "Creating"@[0]);
            reveal_strlit("Starting");
            assert("Reserved"@[0] != "Starting"@[0]);
            reveal_strlit("Scheduled");
            assert("Reserved"@.len() != "Scheduled"@.len());
            reveal_strlit("RequestReady");
            assert("Reserved"@.len() != "RequestReady"@.len());
            reveal_strlit("Ready");
            assert("Reserved"@.len() != "Ready"@.len());
            reveal_strlit("Shutdown");
            assert("Reserved"@[0] != "Shutdown"@[0]);
            reveal_strlit("Error");
            assert("Reserved"@.len() != "Error"@.len());
            reveal_strlit("Unhealthy");
            assert("Reserved"@.len() != "Unhealthy"@.len());
        },
        GameServerState::Allocated => {
            reveal_strlit("Allocated");
            reveal_strlit("PortAllocation");
            assert("Allocated"@.len() != "PortAllocation"@.len());
            reveal_strlit("Creating");
            assert("Allocated"@.len() != "Creating"@.len());
            reveal_strlit("Starting");
            assert("Allocated"@.len() != "Starting"@.len());
            reveal_strlit("Scheduled");
            assert("Allocated"@[0] != "Scheduled"@[0]);
            reveal_strlit("RequestReady");
            assert("Allocated"@.len() != "RequestReady"@.len());
            reveal_strlit("Ready");
            assert("Allocated"@.len() != "Ready"@.len());
            reveal_strlit("Shutdown");
            assert("Allocated"@.len() != "Shutdown"@.len());
            reveal_strlit("Error");
            assert("Allocated"@.len() != "Error"@.len());
            reveal_strlit("Unhealthy");
            assert("Allocated"@[0] != "Unhealthy"@[0]);
            reveal_strlit("Reserved");
            assert("Allocated"@.len() != "Reserved"@.len());
        },
    }
}

/// Each state's name is the identifier of its variant, as written.
pub proof fn law_state_names_are_identifiers()
    ensures
        state_name(GameServerState::PortAllocation) == "PortAllocation"@,
        state_name(GameServerState::Creating) == "Creating"@,
        state_name(GameServerState::Starting) == "Starting"@,
        state_name(GameServerState::Scheduled) == "Scheduled"@,
        state_name(GameServerState::RequestReady) == "RequestReady"@,
        state_name(GameServerState::Ready) == "Ready"@,
        state_name(GameServerState::Shutdown) == "Shutdown"@,
        state_name(GameServerState::Error) == "Error"@,
        state_name(GameServerState::Unhealthy) == "Unhealthy"@,
        state_name(GameServerState::Reserved) == "Reserved"@,
        state_name(GameServerState::Allocated) == "Allocated"@,
{
}

/// The identifier of each variant parses to that variant.
pub proof fn law_identifiers_parse_to_their_states()
    ensures
        parse_state("PortAllocation"@) == Ok::<GameServerState, Seq<char>>(GameServerState::PortAllocation),
        parse_state("Creating"@) == Ok::<GameServerState, Seq<char>>(GameServerState::Creating),
        parse_state("Starting"@) == Ok::<GameServerState, Seq<char>>(GameServerState::Starting),
        parse_state("Scheduled"@) == Ok::<GameServerState, Seq<char>>(GameServerState::Scheduled),
        parse_state("RequestReady"@) == Ok::<GameServerState, Seq<char>>(GameServerState::RequestReady),
        parse_state("Ready"@) == Ok::<GameServerState, Seq<char>>(GameServerState::Ready),
        parse_state("Shutdown"@) == Ok::<GameServerState, Seq<char>>(GameServerState::Shutdown),
        parse_state("Error"@) == Ok::<GameServerState, Seq<char>>(GameServerState::Error),
        parse_state("Unhealthy"@) == Ok::<GameServerState, Seq<char>>(GameServerState::Unhealthy),
        parse_state("Reserved"@) == Ok::<GameServerState, Seq<char>>(GameServerState::Reserved),
        parse_state("Allocated"@) == Ok::<GameServerState, Seq<char>>(GameServerState::Allocated),
{
    law_parse_state_name(GameServerState::PortAllocation);
    law_parse_state_name(GameServerState::Creating);
    law_parse_state_name(GameServerState::Starting);
    law_parse_state_name(GameServerState::Scheduled);
    law_parse_state_name(GameServerState::RequestReady);
    law_parse_state_name(GameServerState::Ready);
    law_parse_state_name(GameServerState::Shutdown);
    law_parse_state_name(GameServerState::Error);
    law_parse_state_name(GameServerState::Unhealthy);
    law_parse_state_name(GameServerState::Reserved);
    law_parse_state_name(GameServerState::Allocated);
}

/// Whatever string parses to a state is the name of that state.
pub proof fn law_state_name_of_parsed(s: Seq<char>, state: GameServerState)
    requires
        parse_state(s) == Ok::<GameServerState, Seq<char>>(state),
    ensures
        state_name(state) == s,
{
}

/// Two states with the same name are the same state.
pub proof fn law_state_name_injective(a: GameServerState, b: GameServerState)
    requires
        state_name(a) == state_name(b),
    ensures
        a == b,
{
    law_parse_state_name(a);
    law_parse_state_name(b);
}

/// A string is refused exactly when it is the name of no state, and then
/// with the message that quotes it.
pub proof fn law_parse_state_refuses_unknown(s: Seq<char>)
    ensures
        parse_state(s) is Err <==> (forall|state: GameServerState| state_name(state) != s),
        parse_state(s) is Err ==> parse_state(s) == Err::<GameServerState, Seq<char>>(
            unknown_state_message(s),
        ),
        parse_state(s) is Err ==> parse_state(s) == Err::<GameServerState, Seq<char>>(
            "Unknown GameServerState: "@ + s,
        ),
{
    if parse_state(s) is Ok {
        law_state_name_of_parsed(s, parse_state(s)->Ok_0);
    } else {
        assert forall|state: GameServerState| state_name(state) != s by {
            law_parse_state_name(state);
        }
    }
}

} // verus!
