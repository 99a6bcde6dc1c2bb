# spotty

A helper that makes a player on the Logitech Media Server (LMS) a Spotify Connect
device, and that can download a track as an Ogg stream.

The library in `src/` is verified with [Verus](https://github.com/verus-lang/verus).

| module | what it holds |
| --- | --- |
| `lms` | the requests that the server takes, and the events that its answers stand for |
| `alternate_player` | the player: commands of Spotify Connect, reports of the server, and the rounds in which they are polled |
| `oggdirect` | a download: which file to take, the steps to its data, copying and waiting |
| `spotify_id` | identifiers and their base 62 text |
| `json`, `http`, `digest`, `channel` | the calls into serde_json, hyper, sha1, hex and futures, and what is relied on of them |

What these modules decide, they decide on plain values: a function is given what has
happened and says what to do next. `app/` does the rest: it talks to the network, keeps
the time, runs threads and writes to standard output. It needs two event loops: librespot
runs on `tokio`, while the player and the download run on `tokio-core`.

The functions whose names start with `law_` state what holds of the library as a whole.
