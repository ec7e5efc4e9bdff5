# azure_speech

A client library for the Azure Speech translation service, verified with
Verus.

- `src/` is the verified library: languages and their codes
  (`recognizer::language`), the translator's configuration, events and
  message bodies (`translator`), how service messages become events
  (`translator::client`), the WAV header and audio chunking of the audio
  stream (`translator::audio`), the course of a session as two state
  machines (`translator::translation`), the connection URL, built by the
  `url` crate from the endpoint and the query pairs (`translator::client`,
  `utils`), and the synthesis messages, headers and bodies
  (`synthesizer::utils`).
- `app/` holds the I/O around it: JSON decoding with serde, driving the
  session machines over the audio stream and the connection, and opening and
  closing the WebSocket connection.
- `tests/` runs the library on concrete inputs.
