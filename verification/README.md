# stream_deck

Verified core of a stream-deck companion. The deck talks over a serial line:
it sends button frames (`B3_1`: button 3, value `1`) and shows what it is sent
in status messages such as `*M1L1V204F001$` (microphone on, live, 204
viewers, 1 follower).

- `src/` — the library, verified with Verus:
  - `decimal`, `message`: decimal text of counters and the fields of a message;
  - `app_state`, `standalone`: the two states the deck shows and their messages;
  - `deck`, `writer`: button frames, what a press does, and the writer's turn;
  - `discord`, `twitch`, `eventsub`: decisions on Discord answers, Twitch polls
    and EventSub websocket frames (frames are read with `twitch_api`);
  - `laws`: properties that span these functions.
- `app/` — the programs around it: the serial bridge and the Tauri tray
  application with Discord, Twitch and keyboard I/O.
- `tests/` — tests of the library on concrete values.
