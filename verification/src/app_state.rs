//! The companion's shared state and the deck messages that report it.

use vstd::prelude::*;
use crate::message::{
    counter_field, flag_field, framed, push_counter, push_flag, FOLLOWERS_TAG, LIVE_TAG,
    MESSAGE_END, MESSAGE_START, MICRO_TAG, VIEWERS_TAG,
};

verus! {

/// What the deck has to be told about.
#[derive(Clone, Copy, Debug, PartialEq, Eq, Structural)]
pub enum DeckEvent {
    /// Everything: microphone, live flag, viewers and followers.
    StateUpdated,
    /// The microphone changed to the value carried.
    MicroUpdated(bool),
    MicroOn,
    MicroOff,
    /// The live flag changed.
    LiveUpdated,
    /// The viewer count changed.
    ViewersUpdated,
    /// The follower count changed.
    FollowersUpdate,
    TauriEvent,
    DiscordAuthenticated,
    /// Nothing to tell.
    Nothing,
}

/// State shared by the deck, Discord and Twitch tasks.
#[derive(Clone, Copy, Debug, PartialEq, Eq, Structural)]
pub struct AppState {
    pub is_discord_auth: bool,
    pub is_twitch_auth: bool,
    pub is_micro_on: bool,
    pub is_live: bool,
    pub viewers: i32,
    pub followers: i64,
}

impl AppState {
    /// The fields that a message for `event` carries, between `*` and `$`.
    pub open spec fn message_body(self, event: DeckEvent) -> Seq<u8> {
        match event {
            DeckEvent::MicroUpdated(_) => flag_field(MICRO_TAG, self.is_micro_on),
            DeckEvent::LiveUpdated => flag_field(LIVE_TAG, self.is_live),
            DeckEvent::FollowersUpdate => counter_field(FOLLOWERS_TAG, self.followers as int),
            DeckEvent::ViewersUpdated => counter_field(VIEWERS_TAG, self.viewers as int),
            DeckEvent::StateUpdated => flag_field(MICRO_TAG, self.is_micro_on) + flag_field(
                LIVE_TAG,
                self.is_live,
            ) + counter_field(VIEWERS_TAG, self.viewers as int) + counter_field(
                FOLLOWERS_TAG,
                self.followers as int,
            ),
            _ => Seq::empty(),
        }
    }

    /// The message that reports `event` to the deck.
    pub open spec fn message(self, event: DeckEvent) -> Seq<u8> {
        framed(self.message_body(event))
    }

    /// Nothing authenticated, microphone off, offline, no viewers, no followers.
    pub open spec fn initial() -> AppState {
        AppState {
            is_discord_auth: false,
            is_twitch_auth: false,
            is_micro_on: false,
            is_live: false,
            viewers: 0,
            followers: 0,
        }
    }

    pub fn new() -> (s: AppState)
        ensures
            s == AppState::initial(),
    {
        AppState {
            is_discord_auth: false,
            is_twitch_auth: false,
            is_live: false,
            is_micro_on: false,
            followers: 0,
            viewers: 0,
        }
    }

    pub fn set_is_micro_on(&mut self, new_value: bool)
        ensures
            *final(self) == (AppState { is_micro_on: new_value, ..*old(self) }),
    {
        self.is_micro_on = new_value;
    }

    pub fn set_is_live(&mut self, new_value: bool)
        ensures
            *final(self) == (AppState { is_live: new_value, ..*old(self) }),
    {
        self.is_live = new_value;
    }

    pub fn set_viewers(&mut self, new_value: i32)
        ensures
            *final(self) == (AppState { viewers: new_value, ..*old(self) }),
    {
        self.viewers = new_value;
    }

    pub fn set_followers(&mut self, new_value: i64)
        ensures
            *final(self) == (AppState { followers: new_value, ..*old(self) }),
    {
        self.followers = new_value;
    }

    /// The bytes that tell the deck about `event`: `*`, the fields of the
    /// event, `$`.
    pub fn serialize(&self, event: DeckEvent) -> (message: Vec<u8>)
        ensures
            message@ == self.message(event),
    {
        let mut message: Vec<u8> = Vec::new();
        message.push(MESSAGE_START);
        match event {
            DeckEvent::MicroUpdated(_) => {
                push_flag(&mut message, MICRO_TAG, self.is_micro_on);
            },
            DeckEvent::LiveUpdated => {
                push_flag(&mut message, LIVE_TAG, self.is_live);
            },
            DeckEvent::FollowersUpdate => {
                push_counter(&mut message, FOLLOWERS_TAG, self.followers);
            },
            DeckEvent::ViewersUpdated => {
                push_counter(&mut message, VIEWERS_TAG, self.viewers as i64);
            },
            DeckEvent::StateUpdated => {
                push_flag(&mut message, MICRO_TAG, self.is_micro_on);
                push_flag(&mut message, LIVE_TAG, self.is_live);
                push_counter(&mut message, VIEWERS_TAG, self.viewers as i64);
                push_counter(&mut message, FOLLOWERS_TAG, self.followers);
            },
            _ => {},
        }
        message.push(MESSAGE_END);
        assert(message@ =~= self.message(event));
        message
    }
}

impl Default for AppState {
    fn default() -> (s: AppState)
        ensures
            s == AppState::initial(),
    {
        AppState::new()
    }
}

} // verus!
