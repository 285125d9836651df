# spotty

Interact with Spotify from the terminal.

- `spotty login` logs in through the browser and saves a refresh token.
- `spotty recent [NUM_SONGS] --name NAME` puts the recently played tracks into a new playlist.
- `spotty recent [NUM_SONGS] --prefix PREFIX` puts those of them that it lacks into the first
  playlist whose name starts with the prefix, in upper or lower case.
- `spotty refresh` creates a playlist and deletes it again.

## Layout

`src/` is a library that Verus verifies. It holds all decisions: `session` takes one event at a
time and gives the lines to print and the next action, as `model` specifies it; `laws` states
and proves what holds of whole sessions. `pkce`, `auth`, `requests`, `tracks`, `playlists` and
`text` are its parts, and `api` holds the types of the Spotify Web API.

`app/` is the program: it reads the arguments, sends the requests, serves the login callback
and keeps the refresh token in `refresh_token.txt`.
