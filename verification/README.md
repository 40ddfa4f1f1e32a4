# spotify_control

A small client for the Spotify Web API, meant to be embedded in a Discord
bot: one shared HTTP client, automatic token refresh and error values that map
to messages a user can act on.

The crate is written in Verus. `src/` holds everything the client decides,
with contracts proved by Verus:

- `token` – the OAuth token, the expiry rule (60 s safety margin), what to do
  with the saved token before a request (use, refresh, or log in again), and
  keeping the refresh token across refreshes.
- `api` – what each operation sends (method, address, query, body), how a
  response status is sorted, which device playback goes to, the login URL and
  the reading of the browser callback.
- `error` – `SpotifyError`, its messages, and the error a failed response
  stands for (429 → `RateLimited`, 404 + `NO_ACTIVE_DEVICE` → `NoActiveDevice`).
- `models` – the API's data types and the texts shown for a track.
- `text` – decimal rendering, number parsing and the string predicates above.

`app/` is ordinary Rust around it: the `reqwest` client, the token store and
its lock, the token file, the one-shot `tiny_http` callback server, serde
copies of the data types, and the async public functions (`login`,
`player_status`, `search_tracks`, `play_track_preserving_queue`, ...).
