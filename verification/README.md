# pebble-rust-2026

A Rust SDK for Pebble smartwatch apps, with its core verified by Verus.

- `src/` is the verified library: geometry (`GPoint`, `GSize`, `GRect`,
  angles and ratios), colors and hex color literals, status codes and app
  message results, app message dictionaries (which C write call a value
  takes, and what a stored tuple reads back as), the effect lifecycle, the
  event state of windows and layers, click configuration, and the rules of
  the watch services (compass filter, accelerometer taps and sample counts,
  focus events, wakeup scheduling, repeating timers, heap reservation). The
  app manifest's resource and message key names are computed here too.
- `app/` connects the library to the watch firmware: the C declarations, the
  objects that own firmware handles, the C callbacks that dispatch into the
  library's state, the allocator, and the manifest loader that reads
  `package.json`.
- `tests/` runs the library on concrete values.
