//! Decisions on Discord's RPC answers: whether the stored token still
//! authenticates, and what a voice-settings update means for the microphone.

use vstd::prelude::*;
use crate::app_state::AppState;

verus! {

/// Code with which Discord answers AUTHENTICATE when the token is invalid.
pub const INVALID_TOKEN_CODE: i64 = 4009;

/// Whether an AUTHENTICATE answer whose data carries `code` (none counts as
/// 0) accepts the token: every code but the invalid-token code does.
pub open spec fn token_accepted(code: Option<i64>) -> bool {
    match code {
        Some(c) => c != INVALID_TOKEN_CODE,
        None => true,
    }
}

impl AppState {
    /// Records Discord's answer to AUTHENTICATE and says whether the stored
    /// token is kept; a rejected token is to be deleted from the store.
    pub fn apply_discord_authentication(&mut self, code: Option<i64>) -> (accepted: bool)
        ensures
            accepted == token_accepted(code),
            *final(self) == (AppState { is_discord_auth: accepted, ..*old(self) }),
    {
        let code_value: i64 = match code {
            Some(c) => c,
            None => 0,
        };
        let accepted = code_value != INVALID_TOKEN_CODE;
        self.is_discord_auth = accepted;
        accepted
    }

    /// Records a VOICE_SETTINGS_UPDATE: the microphone is on exactly when
    /// Discord does not report it muted. The result is the microphone state
    /// to announce.
    pub fn apply_voice_settings(&mut self, mute: bool) -> (micro_on: bool)
        ensures
            micro_on == !mute,
            *final(self) == (AppState { is_micro_on: !mute, ..*old(self) }),
    {
        self.is_micro_on = !mute;
        !mute
    }
}

} // verus!
