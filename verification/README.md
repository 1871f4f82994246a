# iotcraft_client

The decision-making core of the IoTCraft voxel client, written in Verus: the
functions in `src/` carry contracts that the verifier proves. The few calls
into std and outside crates (random numbers, language tags, UTF-8 decoding,
lower-casing, JSON sizes, compression) go through small wrappers marked
`#[verifier::external_body]`; their contracts are believed, not proved, and
each one's doc comment says what it claims.

- `mqtt_packet`: the MQTT 3.1.1 packets the browser client builds and reads
  (remaining-length coding, CONNECT, SUBSCRIBE, PUBLISH, CONNACK, SUBACK).
- `text`: the string operations the rest builds on, each stated over
  character sequences.
- `world`: block types and the voxel world, a hash map from positions
  (packed into integer keys) to blocks; filling boxes.
- `scene`: the terrain the browser client starts with.
- `commands`: the console and script command language and its replies, for
  the desktop and the browser client.
- `multiplayer`: the multiplayer mode (single player, hosting, joined) and
  how block changes travel.
- `routing`: where each incoming broker message goes; connection and
  subscription bookkeeping; topic names.
- `outgoing`: the broker client's outgoing queue: which message becomes
  which publish, and that nothing is sent while disconnected.
- `web_session`: the browser client's broker session as a state machine
  (the order of its packets, and when poses may go out).
- `publishing`: what fits in one broker message, and cutting a world's
  compressed data into chunks.
- `localization`: languages, the choice of the current one, and the
  translation tables.
- `mcp`, `mcp_direct`: the Model Context Protocol server's decisions and its
  tools, world templates included.
- `devices`, `platform`, `client_id`: device announcements and lamp commands,
  the mobile-device check, and broker client ids.

`app/` is the program around the library: command-line arguments, the broker
connection, the MCP socket, files and JSON. `tests/` exercises the library
from outside.
