# tts_qwen3_tts

The decision and bookkeeping layer of a Qwen3-TTS driver, verified with Verus.

`src/` holds what the driver decides on plain values, each function with a
contract that Verus proves:

- `cache`: the sliding-window key/value cache (how each step moves positions) and
  the law that it always holds the latest window of what it has seen
- `generation`: start checks, the step-by-step state of a talker run, code
  predictor checks and the caches of a run
- `reference`: reference codec frames (quantizer-major flattening, layer-major
  frames, the prefix and the trim of the decoded reference part)
- `conv`, `layout`, `speaker`, `mask`, `rope`, `sampling`: padding, module shapes,
  attention masks, rotary sources and token suppression
- `backend`, `engine`, `codec`, `error`: backend selection, the engine's component
  contracts, codec input checks and error messages

`app/` is ordinary Rust around it: configuration files read with serde, and the
floating-point parts (log-mel features with rustfft, PCM conversion, sampling
settings).
