# sidespot

The native side of an Android Spotify client, built on librespot.

- `src/` is the verified library (Verus): error texts, the shapes of the
  metadata returned to Kotlin, the choice of cover images, the ordering of an
  artist's albums, the paging of long playlists and of the root list, the
  player's configuration and event mapping, the Spotify Connect command
  forwarding, and the routing of transport requests.  Calls into librespot
  and tokio go through small trusted wrappers whose contracts are stated
  next to them (`core_api.rs`, `player.rs`, `connect.rs`).
- `app/` is the JNI shell: global state, the tokio runtime, network
  requests, JSON, and the audio sink that hands PCM to Kotlin.
- `tests/` runs the library on concrete values.

Three things the app once offered are not here, because librespot 0.8.0
has no counterpart for them: adding a track to the Connect queue (`Spirc`
has no public method for it), the queue events sent to Kotlin
(`PlayerEvent::SetQueue` does not exist), and the Connect setting that
enabled those events (`emit_set_queue_events`).  The `SetQueue` event shape
is kept so the JSON the Kotlin side reads is unchanged; nothing produces it.
