//! State of the standalone serial bridge: what the deck shows when no
//! desktop integration runs, and the one message that reports all of it.

use vstd::prelude::*;
use crate::message::{
    counter_field, flag_field, framed, push_counter, push_flag, FOLLOWERS_TAG, LIVE_TAG,
    MESSAGE_END, MESSAGE_START, MICRO_TAG, VIEWERS_TAG,
};

verus! {

#[derive(Clone, Copy, Debug, PartialEq, Eq, Structural)]
pub struct State {
    pub is_micro_on: bool,
    pub is_live: bool,
    pub viewers: i32,
    pub followers: i32,
}

impl State {
    /// The fields of the status message, between `*` and `$`:
    /// microphone, live flag, viewers, followers.
    pub open spec fn message_body(self) -> Seq<u8> {
        flag_field(MICRO_TAG, self.is_micro_on) + flag_field(LIVE_TAG, self.is_live)
            + counter_field(VIEWERS_TAG, self.viewers as int) + counter_field(
            FOLLOWERS_TAG,
            self.followers as int,
        )
    }

    /// The status message.
    pub open spec fn message(self) -> Seq<u8> {
        framed(self.message_body())
    }

    /// Microphone off, offline, no viewers, no followers.
    pub open spec fn initial() -> State {
        State { is_micro_on: false, is_live: false, viewers: 0, followers: 0 }
    }

    pub fn new() -> (s: State)
        ensures
            s == State::initial(),
    {
        State { is_live: false, is_micro_on: false, followers: 0, viewers: 0 }
    }

    pub fn set_is_micro_on(&mut self, new_value: bool)
        ensures
            *final(self) == (State { is_micro_on: new_value, ..*old(self) }),
    {
        self.is_micro_on = new_value;
    }

    pub fn set_is_live(&mut self, new_value: bool)
        ensures
            *final(self) == (State { is_live: new_value, ..*old(self) }),
    {
        self.is_live = new_value;
    }

    pub fn set_viewers(&mut self, new_value: i32)
        ensures
            *final(self) == (State { viewers: new_value, ..*old(self) }),
    {
        self.viewers = new_value;
    }

    pub fn set_followers(&mut self, new_value: i32)
        ensures
            *final(self) == (State { followers: new_value, ..*old(self) }),
    {
        self.followers = new_value;
    }

    /// The status message: `*`, `M`, `L`, `V`, `F` fields, `$`.
    pub fn serialize(&self) -> (message: Vec<u8>)
        ensures
            message@ == self.message(),
    {
        let mut message: Vec<u8> = Vec::new();
        message.push(MESSAGE_START);
        push_flag(&mut message, MICRO_TAG, self.is_micro_on);
        push_flag(&mut message, LIVE_TAG, self.is_live);
        push_counter(&mut message, VIEWERS_TAG, self.viewers as i64);
        push_counter(&mut message, FOLLOWERS_TAG, self.followers as i64);
        message.push(MESSAGE_END);
        assert(message@ =~= self.message());
        message
    }
}

} // verus!
