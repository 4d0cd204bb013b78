//! The deck writer: events that other tasks post, and the message that each
//! of them sends to the deck.

use vstd::prelude::*;
use crate::app_state::{AppState, DeckEvent};
use vstd::string::StringSliceAdditionalSpecFns;

verus! {

/// Bytes of the payload `true`, the JSON text that a `mic-change`
/// announcement carries when the microphone is on.
pub open spec fn true_payload() -> Seq<u8> {
    seq![116u8, 114u8, 117u8, 101u8]
}

/// The event that a `mic-change` announcement posts: the microphone is on
/// exactly when the payload is `true`.
pub fn mic_event_from_payload(payload: &str) -> (event: DeckEvent)
    ensures
        event == DeckEvent::MicroUpdated(payload.spec_bytes() == true_payload()),
{
    let bytes = payload.as_bytes();
    let is_true = bytes.len() == 4 && bytes[0] == 116 && bytes[1] == 114 && bytes[2] == 117
        && bytes[3] == 101;
    assert(is_true <==> bytes@ =~= true_payload());
    DeckEvent::MicroUpdated(is_true)
}

impl AppState {
    /// The state after the writer took `event`: a microphone update is
    /// recorded, anything else leaves the state as it was.
    pub open spec fn after_event(self, event: DeckEvent) -> AppState {
        match event {
            DeckEvent::MicroUpdated(on) => AppState { is_micro_on: on, ..self },
            _ => self,
        }
    }

    /// One turn of the writer: records what `event` changes and gives the
    /// message to send, or nothing when there is no event.
    pub fn take_deck_event(&mut self, event: DeckEvent) -> (message: Option<Vec<u8>>)
        ensures
            event == DeckEvent::Nothing ==> message is None && *final(self) == *old(self),
            event != DeckEvent::Nothing ==> *final(self) == old(self).after_event(event),
            event != DeckEvent::Nothing ==> (message matches Some(m) && m@ == final(self).message(
                event,
            )),
            !(event is MicroUpdated) ==> *final(self) == *old(self),
            event matches DeckEvent::MicroUpdated(on) ==> final(self).is_micro_on == on
                && final(self).is_live == old(self).is_live && final(self).viewers == old(
                self,
            ).viewers && final(self).followers == old(self).followers
                && final(self).is_discord_auth == old(self).is_discord_auth
                && final(self).is_twitch_auth == old(self).is_twitch_auth,
    {
        if event == DeckEvent::Nothing {
            return None;
        }
        match event {
            DeckEvent::MicroUpdated(on) => {
                self.is_micro_on = on;
            },
            _ => {},
        }
        Some(self.serialize(event))
    }
}

} // verus!
