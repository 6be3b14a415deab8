# vote_server

A voting service: polls with a close date, choices, and votes signed by voters.

`src/` is the verified library (Verus):

- `clock` — instants, the four accepted forms of a poll's close date, and whether
  a poll is closed at a given instant (chrono reads the text).
- `tally` — counting a poll's votes: each voter's most recent vote, by the time
  the store recorded it, counts; every choice is listed; the leader has the
  most votes.
- `handlers` — the flat endpoints (`/poll(s)`, `/choice(s)`, `/vote(s)`,
  `/polls/<id>/votes`): state machines from the store's last reply to the next
  question or the answer.
- `server` — the nested endpoints (`/polls/<id>/...`), in the same way, and the
  creation of a poll with its choices.
- `service` — the questions to the store and its replies, statuses and refusals.
- `ids` — UUIDs, read, drawn and written by the `uuid` crate.
- `models` — the records and request and response bodies.
- `laws` — properties that span functions and time, proved.

`app/` is the web server (Rocket) and the PostgreSQL store (diesel): it feeds
the library's state machines the store's replies until they answer.
