# Sentiric UAC

The core of a SIP user agent client: it places a call, exchanges its audio over RTP and
reports what happens as a stream of events. It has no user interface, so a terminal
program and a mobile app can share it.

`src/` is the verified library. It decides; it does no input or output.

| Module | What it holds |
| --- | --- |
| `client` | placing and closing a call: what to send and to tell on each answer |
| `sip` | the INVITE with its session description, the ACK, the BYE |
| `call_audio` | the audio of a dialled call, from the set-up of its devices on |
| `handset` | the audio of a dialled call, packet time by packet time |
| `engine` | starting and stopping the media engine, falling back to virtual audio |
| `media_loop` | a media loop of the engine, from the set-up of its devices to its end |
| `session`, `session_laws` | the session of a media loop, and what holds of every run |
| `rtp` | the numbering of outgoing packets, the payload of incoming ones |
| `ring` | the sample queues between the sound devices and the loops |
| `audio` | choosing a device configuration, cutting audio into frames |
| `event`, `text` | events, decimal numbers |

Each state machine names the next action and is told what came of it. `app/` performs
the actions: it owns the sockets, the sound devices, the codecs, the worker thread and
all floating-point sample values. `tests/` runs the library on concrete values.
