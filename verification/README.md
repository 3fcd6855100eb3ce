# MineShare

MineShare lets two machines on one desk share a mouse, a keyboard, the
clipboard, files and sound. Each machine runs the same daemon. The daemons find
each other on the local network, agree on keys, and from then on the cursor
crosses from one screen to the other where the screens adjoin.

`src/` is the library: the rules of all this, with contracts that Verus proves.
It holds no sockets, hooks or devices. What happened comes in as a value, and
what has to be done comes back as one.

- `input` decides which machine the mouse and the keyboard drive, how motion is
  paced, and how a touchpad's fingers are replayed;
- `audio` decides which device is used, when a stream is rebuilt, and how
  samples become frames;
- `net` is the handshake, the replay window and the bookkeeping of peers;
- `daemon` is a session and what a daemon keeps: settings, trusted peers, file
  transfers, the clipboard, logs;
- `layout`, `routing` and `source_fsm` model the desk and who is its source of
  input.

`app/` is the program around it. `tests/` runs the library on concrete values.

Where the library calls another crate, the call stands in a small function
whose contract is taken on trust and whose comment says what is claimed: the
hash, the handshake, identifiers, random numbers, queues and rings.

Numbers that are fractions elsewhere (speeds, samples, round trips) are held as
the bit patterns of their `f32`.
