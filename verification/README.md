# av1_player

The logic of a player for Matroska files with AV1 video and 16-bit PCM audio, verified with
Verus.

- `src/` is the library. `stream` chooses the streams to play. `decode` holds the worker that
  turns packets and pictures into blocks of frames and audio, `image` and `audio` what is in
  them. `startup` waits for the first block, and `playback` says what is shown, heard and
  reported at what time. `surface` and `color` hold what the renderer is set up with. `pool`
  holds the contracts of the calls into the rayon thread pool; they are believed, not proved.
- `worker_laws` and `playback_laws` state and prove what holds of whole runs: no picture and
  no audio is lost, doubled or reordered between the decoder and the screen.
- `app/` is the program around the library: the window, the GPU, the sound device, the file
  and the AV1 decoder. The worker and the playback state name what is to be done, and the
  program does it and reports back.
- Times are in nanoseconds. Colour coefficients are in millionths, and audio samples are the
  16-bit numbers of the file; the program turns both into floating point.
