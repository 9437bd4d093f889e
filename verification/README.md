# clap-mml-play-server

A realtime play server for CLAP plugins: Standard MIDI Files and MML over HTTP,
and live MIDI over a shared-memory ring, rendered ahead into an output ring that
the audio device reads.

- `src/` is the verified library (Verus). It holds the wire format and the ring of
  the live MIDI channel (client and server ends), the HTTP request reader and
  router, the player's command queue and generations, the audio output ring, the
  worker loop's decisions, the bank layout and spare pool, live event queues,
  captures, timing statistics, patch-file headers, voicing reports and the
  configuration rules.
- `tests/` runs the library on concrete values.
- `app/` is the program around it: command line, configuration files, sockets,
  threads, the audio device, floating-point signal processing, and the plugin host.
