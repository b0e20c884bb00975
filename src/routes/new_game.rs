//! The reply to a request for a new game session.

use vstd::prelude::*;
use crate::k8s::{PodInfo, PodInfoView};

verus! {

/// Connection details returned to a player for a new session.
#[derive(Clone, Debug, PartialEq, Eq)]
pub struct NewGameResponse {
    pub host: String,
    pub script_ref: String,
    pub admin_pkh: String,
    pub player_utxo: String,
    pub player_utxo_datum_hex: String,
}

pub struct NewGameResponseView {
    pub host: Seq<char>,
    pub script_ref: Seq<char>,
    pub admin_pkh: Seq<char>,
    pub player_utxo: Seq<char>,
    pub player_utxo_datum_hex: Seq<char>,
}

impl View for NewGameResponse {
    type V = NewGameResponseView;

    open spec fn view(&self) -> NewGameResponseView {
        NewGameResponseView {
            host: self.host@,
            script_ref: self.script_ref@,
            admin_pkh: self.admin_pkh@,
            player_utxo: self.player_utxo@,
            player_utxo_datum_hex: self.player_utxo_datum_hex@,
        }
    }
}

/// The reply for a session: its external connection string as host; the
/// chain fields are placeholders.
pub open spec fn response_of(info: PodInfoView) -> NewGameResponseView {
    NewGameResponseView {
        host: info.external_connection,
        script_ref: "script_ref"@,
        admin_pkh: "admin_pkh"@,
        player_utxo: "player_utxo"@,
        player_utxo_datum_hex: "player_utxo_datum_hex"@,
    }
}

impl NewGameResponse {
    /// The reply that hands out the session described by `value`.
    pub fn from_pod_info(value: PodInfo) -> (r: NewGameResponse)
        ensures
            r@ == response_of(value@),
    {
        NewGameResponse {
            host: value.external_connection.clone(),
            script_ref: "script_ref".to_string(),
            admin_pkh: "admin_pkh".to_string(),
            player_utxo: "player_utxo".to_string(),
            player_utxo_datum_hex: "player_utxo_datum_hex".to_string(),
        }
    }
}

impl From<PodInfo> for NewGameResponse {
    /// The reply that hands out the session described by `value`.
    fn from(value: PodInfo) -> (r: NewGameResponse)
        ensures
            r@ == response_of(value@),
    {
        NewGameResponse::from_pod_info(value)
    }
}

// `from_spec` would have to name a whole `NewGameResponse` value, which a
// specification cannot build from string literals; `from` states its result
// through the view instead.
impl vstd::std_specs::convert::FromSpecImpl<PodInfo> for NewGameResponse {
    open spec fn obeys_from_spec() -> bool {
        false
    }

    open spec fn from_spec(v: PodInfo) -> NewGameResponse {
        arbitrary()
    }
}

} // verus!
