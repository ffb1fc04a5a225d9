# easy_motion

Jump to any visible word or row by typing the short label drawn over it.

* `src/`: the decisions of the feature, verified with Verus. A host reports
  what happened, performs the effects that come back, and reports again.
  `src/motion.rs` is the place to start; the laws of a session are in
  `src/screen.rs`, those of the labels in `src/overlay.rs`.
* `tests/`: scenarios, run against the compiled library.
* `app/`: the actions and settings as users write them, and the loop that
  performs effects. The editor itself stands behind the traits of
  `app/host.rs`: it searches the text, keeps the collection of labels, and
  draws.

Colour components and fade factors are kept as the bit patterns of single
precision numbers, since the library only stores and copies them.
