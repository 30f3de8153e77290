//! What a client says of itself when it registers, and what a host asks of
//! its room.

use vstd::prelude::*;

verus! {

/// The protocol version from which on the relay speaks to a client.
pub const NEW_RELAY_PROTOCOL_VERSION: u32 = 172;

/// The player limit of a room whose host named none.
pub const DEFAULT_MAX_PLAYER_SIZE: i32 = 10;

/// What a preregistration packet says of the client that sent it.
#[derive(Debug)]
pub struct RelayDirectInspection {
    pub client_version: u32,
    pub is_beta_version: bool,
    pub query_string: Option<String>,
    pub player_name: Option<String>,
}

/// What an inspection is: its numbers, and its texts as characters.
pub struct InspectionView {
    pub client_version: u32,
    pub is_beta_version: bool,
    pub query_string: Option<Seq<char>>,
    pub player_name: Option<Seq<char>>,
}

/// The characters of a text that may be absent.
pub open spec fn text_view(text: Option<String>) -> Option<Seq<char>> {
    match text {
        Some(text) => Some(text@),
        None => None,
    }
}

impl View for RelayDirectInspection {
    type V = InspectionView;

    open spec fn view(&self) -> InspectionView {
        InspectionView {
            client_version: self.client_version,
            is_beta_version: self.is_beta_version,
            query_string: text_view(self.query_string),
            player_name: text_view(self.player_name),
        }
    }
}

/// The settings of a room.
#[derive(Debug, Clone, Copy, PartialEq, Eq, Structural)]
pub struct CustomRelayData {
    /// The player limit; -1 while none is set.
    pub max_player_size: i32,
    pub max_unit_size: u32,
    pub uplist: bool,
    pub mods: bool,
    pub beta_game_version: bool,
    /// The protocol version of the host.
    pub version: u32,
}

impl CustomRelayData {
    /// The settings of a new room: no player limit yet, three hundred units.
    pub fn new(mods: bool, uplist: bool, beta_game_version: bool, version: u32) -> (custom:
        CustomRelayData)
        ensures
            custom == (CustomRelayData {
                max_player_size: -1i32,
                max_unit_size: 300,
                uplist,
                mods,
                beta_game_version,
                version,
            }),
    {
        CustomRelayData {
            max_player_size: -1,
            max_unit_size: 300,
            uplist,
            mods,
            beta_game_version,
            version,
        }
    }

    /// The settings with the default player limit in place of none.
    pub open spec fn spec_with_default_limit(self) -> CustomRelayData {
        if self.max_player_size == -1 {
            CustomRelayData { max_player_size: DEFAULT_MAX_PLAYER_SIZE, ..self }
        } else {
            self
        }
    }

    /// The settings with the default player limit in place of none.
    #[verifier::when_used_as_spec(spec_with_default_limit)]
    pub fn with_default_limit(self) -> (custom: CustomRelayData)
        ensures
            custom == self.spec_with_default_limit(),
    {
        if self.max_player_size == -1 {
            CustomRelayData { max_player_size: DEFAULT_MAX_PLAYER_SIZE, ..self }
        } else {
            self
        }
    }
}

/// Whether a client version is a beta version.
pub open spec fn spec_is_beta_version(version: u32) -> bool {
    152 <= version <= 175
}

/// Whether a client version is a beta version.
#[verifier::when_used_as_spec(spec_is_beta_version)]
pub fn is_beta_version(version: u32) -> (beta: bool)
    ensures
        beta == spec_is_beta_version(version),
{
    152 <= version && version <= 175
}

} // verus!
