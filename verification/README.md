# ticos_gst

The logic of four GStreamer elements, verified with Verus:

- `openairealtime`, a voice session with a realtime server over WebSocket,
- `objecttracker`, which turns boxes in tensors into track numbers,
- `visualvoice`, which lets audio through only while a face is seen,
- `websocketvideosink`, which sends pictures over WebSocket.

`src/` holds what the elements decide and compute: queues and timing of audio,
settings, the way to a connection, requests, frames, tensor headers. Each
function states what it does in its contract. What the elements get from other
crates (base64, URL and HTTP parsing, JSON, bincode) is called through a few
small functions whose contracts are believed, not proved; each says so in its
doc comment.

`app/` holds the GStreamer plugins around it: pads, sockets, timers, tasks, and
what is computed in floating point.

`tests/` runs the library on concrete values.
