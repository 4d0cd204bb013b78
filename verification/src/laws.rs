//! Properties that hold across the library's functions.

use vstd::prelude::*;
use crate::app_state::{AppState, DeckEvent};
use crate::deck::{DeckAction, DeckButton, DeckPress, VALUE_OFF, VALUE_ON};
use crate::decimal::{
    all_digits, decimal, digits_value, lemma_decimal_reads_back, lemma_zero_fill_keeps_value,
    signed_decimal, zero_padded,
};
use crate::eventsub::{spec_frame_step, SocketFrame, SocketStep};
use crate::message::{counter_field, flag_field, framed, MESSAGE_END, MESSAGE_START, MICRO_TAG};
use crate::standalone::State;

verus! {

/// Every message to the deck opens with `*` and closes with `$`, around the
/// fields of its event.
pub proof fn lemma_messages_are_framed(state: AppState, event: DeckEvent)
    ensures
        state.message(event).len() == state.message_body(event).len() + 2,
        state.message(event)[0] == MESSAGE_START,
        state.message(event).last() == MESSAGE_END,
        state.message(event).subrange(1, state.message(event).len() - 1) == state.message_body(
            event,
        ),
{
    let body = state.message_body(event);
    assert(framed(body).subrange(1, framed(body).len() - 1) =~= body);
}

/// A counter field of a non-negative value is its tag followed by decimal
/// digits that read back as the value; there are exactly three of them for
/// values below 1000, and no padding above.
pub proof fn lemma_counter_reads_back(tag: u8, v: int)
    requires
        v >= 0,
    ensures
        counter_field(tag, v)[0] == tag,
        all_digits(counter_field(tag, v).drop_first()),
        digits_value(counter_field(tag, v).drop_first()) == v,
        v < 1000 ==> counter_field(tag, v).len() == 4,
        v >= 1000 ==> counter_field(tag, v).drop_first() == decimal(v as nat),
{
    lemma_decimal_reads_back(v as nat);
    let text = decimal(v as nat);
    assert(signed_decimal(v) == text);
    let field = counter_field(tag, v);
    assert(field.drop_first() =~= zero_padded(text, 3));
    if text.len() < 3 {
        let k = (3 - text.len()) as nat;
        lemma_zero_fill_keeps_value(k, text);
        let padded = Seq::new(k, |_i: int| 48u8) + text;
        assert(padded == zero_padded(text, 3));
        assert forall|i: int| 0 <= i < padded.len() implies 48 <= #[trigger] padded[i] <= 57 by {
            if i >= k {
                assert(padded[i] == text[i - k]);
            }
        }
    }
}

/// A full status message is 14 bytes long while both counters are below
/// 1000 and not negative: `*`, two flags, two four-byte counters, `$`.
pub proof fn lemma_full_status_length(state: State)
    requires
        0 <= state.viewers < 1000,
        0 <= state.followers < 1000,
    ensures
        state.message().len() == 14,
        state.message() == (AppState {
            is_discord_auth: false,
            is_twitch_auth: false,
            is_micro_on: state.is_micro_on,
            is_live: state.is_live,
            viewers: state.viewers,
            followers: state.followers as i64,
        }).message(DeckEvent::StateUpdated),
{
    lemma_counter_reads_back(crate::message::VIEWERS_TAG, state.viewers as int);
    lemma_counter_reads_back(crate::message::FOLLOWERS_TAG, state.followers as int);
}

/// Once the writer has taken a microphone update, the deck is told exactly
/// the new microphone state: `*`, `M`, `1` or `0`, `$`.
pub proof fn lemma_micro_update_reaches_deck(state: AppState, on: bool)
    ensures
        state.after_event(DeckEvent::MicroUpdated(on)).is_micro_on == on,
        state.after_event(DeckEvent::MicroUpdated(on)).message(DeckEvent::MicroUpdated(on))
            == seq![MESSAGE_START, MICRO_TAG, if on { 49u8 } else { 48u8 }, MESSAGE_END],
{
    let after = state.after_event(DeckEvent::MicroUpdated(on));
    assert(after.message(DeckEvent::MicroUpdated(on)) =~= seq![
        MESSAGE_START,
        MICRO_TAG,
        if on { 49u8 } else { 48u8 },
        MESSAGE_END,
    ]);
}

/// With Discord linked, the microphone switch clicks the microphone key
/// exactly when it asks for a state other than the current one, so that a
/// click always brings the microphone to the state asked for.
pub proof fn lemma_linked_switch_clicks_only_on_change(state: AppState, press: DeckPress)
    requires
        state.is_discord_auth,
        press.button == DeckButton::B3,
        press.value == VALUE_ON || press.value == VALUE_OFF,
    ensures
        (state.spec_press_action(press) == DeckAction::ClickMicroKey) <==> ((press.value
            == VALUE_ON) != state.is_micro_on),
        (state.spec_press_action(press) != DeckAction::ClickMicroKey) ==> state.spec_press_action(
            press,
        ) == DeckAction::Nothing,
{
}

/// On the standalone bridge, once the microphone switch was pressed with
/// `1` or `0`, the status message that it sends shows that value in its
/// microphone field.
pub proof fn lemma_switch_shows_on_deck(state: State, press: DeckPress)
    requires
        press.button == DeckButton::B3,
        press.value == VALUE_ON || press.value == VALUE_OFF,
    ensures
        state.after_press(press).message()[1] == MICRO_TAG,
        state.after_press(press).message()[2] == press.value,
{
    let after = state.after_press(press);
    assert(after.message().subrange(1, 3) =~= flag_field(MICRO_TAG, after.is_micro_on));
}

/// A welcome subscribes the channel's events only while they are not yet
/// subscribed; afterwards it only stops the previous connection.
pub proof fn lemma_welcome_subscribes_once(session_id: String)
    ensures
        spec_frame_step(SocketFrame::Welcome(session_id), false) == Ok::<
            SocketStep,
            crate::eventsub::SocketError,
        >(SocketStep::SubscribeThenKillPredecessor(session_id)),
        spec_frame_step(SocketFrame::Welcome(session_id), true) == Ok::<
            SocketStep,
            crate::eventsub::SocketError,
        >(SocketStep::KillPredecessor),
{
}

/// `d` is a counter's text for the non-negative value `v`: at least three
/// decimal digits that read back as `v`.
pub open spec fn counter_text_of(d: Seq<u8>, v: int) -> bool {
    &&& d.len() >= 3
    &&& all_digits(d)
    &&& digits_value(d) == v
}

proof fn lemma_counter_text(tag: u8, v: int)
    requires
        v >= 0,
    ensures
        counter_field(tag, v) == seq![tag] + counter_field(tag, v).drop_first(),
        counter_text_of(counter_field(tag, v).drop_first(), v),
{
    lemma_counter_reads_back(tag, v);
    lemma_decimal_reads_back(v as nat);
    assert(counter_field(tag, v) =~= seq![tag] + counter_field(tag, v).drop_first());
}

/// What the deck is told about each single event, byte by byte: the live
/// update shows the live flag (`*L1$` exactly when live), a microphone update
/// shows the microphone flag, a counter update shows the counter's digits,
/// which read back as the counter, and events without fields send `*$`.
pub proof fn lemma_single_event_messages(s: AppState, on: bool)
    ensures
        s.message(DeckEvent::LiveUpdated) == seq![42u8, 76u8, if s.is_live { 49u8 } else { 48u8 }, 36u8],
        s.message(DeckEvent::MicroUpdated(on)) == seq![42u8, 77u8, if s.is_micro_on { 49u8 } else { 48u8 }, 36u8],
        s.message(DeckEvent::Nothing) == seq![42u8, 36u8],
        s.message(DeckEvent::MicroOn) == seq![42u8, 36u8],
        s.message(DeckEvent::MicroOff) == seq![42u8, 36u8],
        s.message(DeckEvent::TauriEvent) == seq![42u8, 36u8],
        s.message(DeckEvent::DiscordAuthenticated) == seq![42u8, 36u8],
        s.viewers >= 0 ==> exists|d: Seq<u8>|
            counter_text_of(d, s.viewers as int) && s.message(DeckEvent::ViewersUpdated) == seq![
                42u8,
                86u8,
            ] + d + seq![36u8],
        s.followers >= 0 ==> exists|d: Seq<u8>|
            counter_text_of(d, s.followers as int) && s.message(DeckEvent::FollowersUpdate) == seq![
                42u8,
                70u8,
            ] + d + seq![36u8],
{
    assert(s.message(DeckEvent::LiveUpdated) =~= seq![42u8, 76u8, if s.is_live { 49u8 } else { 48u8 }, 36u8]);
    assert(s.message(DeckEvent::MicroUpdated(on)) =~= seq![42u8, 77u8, if s.is_micro_on { 49u8 } else { 48u8 }, 36u8]);
    assert(s.message(DeckEvent::Nothing) =~= seq![42u8, 36u8]);
    assert(s.message(DeckEvent::MicroOn) =~= seq![42u8, 36u8]);
    assert(s.message(DeckEvent::MicroOff) =~= seq![42u8, 36u8]);
    assert(s.message(DeckEvent::TauriEvent) =~= seq![42u8, 36u8]);
    assert(s.message(DeckEvent::DiscordAuthenticated) =~= seq![42u8, 36u8]);
    if s.viewers >= 0 {
        lemma_counter_text(86u8, s.viewers as int);
        let d = counter_field(86u8, s.viewers as int).drop_first();
        assert(s.message(DeckEvent::ViewersUpdated) =~= seq![42u8, 86u8] + d + seq![36u8]);
    }
    if s.followers >= 0 {
        lemma_counter_text(70u8, s.followers as int);
        let d = counter_field(70u8, s.followers as int).drop_first();
        assert(s.message(DeckEvent::FollowersUpdate) =~= seq![42u8, 70u8] + d + seq![36u8]);
    }
}

/// The full status message, byte by byte, for counters that are not
/// negative: `*`, `M` and the microphone flag, `L` and the live flag, `V` and
/// digits that read back as the viewers, `F` and digits that read back as the
/// followers (however large), `$`. The desktop state's full update is the
/// same message.
pub proof fn lemma_full_status_message(s: State)
    requires
        s.viewers >= 0,
        s.followers >= 0,
    ensures
        exists|dv: Seq<u8>, df: Seq<u8>|
            counter_text_of(dv, s.viewers as int) && counter_text_of(df, s.followers as int)
                && s.message() == seq![
                42u8,
                77u8,
                if s.is_micro_on { 49u8 } else { 48u8 },
                76u8,
                if s.is_live { 49u8 } else { 48u8 },
                86u8,
            ] + dv + seq![70u8] + df + seq![36u8],
        forall|a: AppState|
            a.is_micro_on == s.is_micro_on && a.is_live == s.is_live && a.viewers == s.viewers
                && a.followers == s.followers ==> #[trigger] a.message(DeckEvent::StateUpdated)
                == s.message(),
{
    lemma_counter_text(86u8, s.viewers as int);
    lemma_counter_text(70u8, s.followers as int);
    let dv = counter_field(86u8, s.viewers as int).drop_first();
    let df = counter_field(70u8, s.followers as int).drop_first();
    assert(s.message() =~= seq![
        42u8,
        77u8,
        if s.is_micro_on { 49u8 } else { 48u8 },
        76u8,
        if s.is_live { 49u8 } else { 48u8 },
        86u8,
    ] + dv + seq![70u8] + df + seq![36u8]);
    assert forall|a: AppState|
        a.is_micro_on == s.is_micro_on && a.is_live == s.is_live && a.viewers == s.viewers
            && a.followers == s.followers implies #[trigger] a.message(DeckEvent::StateUpdated)
        == s.message() by {
        assert(a.message(DeckEvent::StateUpdated) =~= s.message());
    }
}

/// The writer changes the state only for a microphone update, and then only
/// the microphone flag; every other event leaves the state as it was.
pub proof fn lemma_writer_changes_only_micro(s: AppState, event: DeckEvent)
    ensures
        !(event is MicroUpdated) ==> s.after_event(event) == s,
        event matches DeckEvent::MicroUpdated(on) ==> s.after_event(event) == (AppState {
            is_discord_auth: s.is_discord_auth,
            is_twitch_auth: s.is_twitch_auth,
            is_micro_on: on,
            is_live: s.is_live,
            viewers: s.viewers,
            followers: s.followers,
        }),
{
}

/// A press read from the buffer names the button of the digit after `B`
/// (`'3'` to `'9'`, whose function key is F13 to F19) and carries the fourth
/// byte as its value; a read of nothing, another first byte or another
/// digit gives no press.
pub proof fn lemma_press_matches_buffer(buffer: Seq<u8>, read: nat)
    requires
        buffer.len() == 8,
    ensures
        (crate::deck::press_of(buffer, read) is Some) <==> (read != 0 && buffer[0] == 66 && 51
            <= buffer[1] <= 57),
        crate::deck::press_of(buffer, read) matches Some(p) ==> buffer[1] == 48
            + p.button.spec_function_key() - 10 && p.value == buffer[3],
{
}

/// A macro button taps its own function key whatever the state; the
/// microphone switch only ever clicks the microphone key or does nothing.
pub proof fn lemma_press_action_keys(s: AppState, press: DeckPress)
    ensures
        press.button != DeckButton::B3 ==> s.spec_press_action(press) == DeckAction::TapMacroKey(
            press.button,
        ),
        press.button == DeckButton::B3 ==> (s.spec_press_action(press) == DeckAction::ClickMicroKey
            || s.spec_press_action(press) == DeckAction::Nothing),
{
}

} // verus!
