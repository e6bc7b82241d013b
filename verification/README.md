# handy_asr

Verified core of a cloud speech-recognition client.

- `src/request.rs`: the transcription request and its builder.
- `src/transcribe.rs`: checking a request, the endpoint URL and form fields
  to send, HTTP status handling and turning the decoded answer into a result
  (with the TEE-proof requirement).
- `src/settings.rs`: deriving a request from application settings (provider
  and key lookup, language mapping, initial prompt with custom words).
- `src/wav.rs`: 16-bit PCM WAV encoding and decoding through hound, with the
  exact byte layout of the output stated, a proof that sizes and samples read
  back, and the sample-count check.
- `src/text.rs`: character-level string helpers.
- `app/`: file reads and writes, float sample conversion, JSON decoding and
  the HTTPS call.
