# voxtype

The decision logic of a push-to-talk voice-to-text daemon, verified with Verus.

- `src/` is the library: hotkey names and key tracking (`hotkey`), eager
  chunking and the merging of chunk transcriptions (`eager`), the output
  fallback chain, quote normalization and notifications (`output`),
  post-processing decisions (`output::post_process`), input sources
  (`input`), the daemon state (`state`) and Parakeet backend selection
  (`setup::parakeet`). Its functions carry contracts that Verus proves,
  except three small wrappers around std (collecting characters into a
  `String`, `Path::exists`, `Instant::elapsed`), whose contracts are
  trusted. Public proof functions named `lemma_*` state the properties that
  hold across calls.
- `app/` is the unverified shell around it: evdev devices and inotify
  hotplug, spawning wtype/dotool/wl-copy and friends, reading files and
  symlinks, and the async plumbing. It asks the library what to do and
  performs it.
- `tests/` runs the library on concrete inputs.
