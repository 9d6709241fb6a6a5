# perf_convert

Converts `perf.data` recordings into profiles for the Firefox Profiler.

* `src/` is the library. Its functions have contracts, and Verus proves that the code meets
  them. What it does not prove are the contracts of the functions marked
  `#[verifier::external_body]`: these call the crates that the library builds on, and what they
  promise is taken from the sources and the documentation of those crates. Each says which call
  it makes and what it claims.
  * `recording`: which records are taken, and how they are parsed.
  * `records`, `events`, `ids`, `object_file`: what recordings and binaries say, as plain values.
  * `stack`, `unwind`: stacks, from callchains and from unwinding.
  * `module`: what mapping a binary means to the unwinder and to the profile.
  * `profile`: the profile as the conversion sees it, and the calls that fill it.
  * `tables`, `mappings`, `sampling`: what is remembered of processes, threads and libraries.
  * `state`: the state of a conversion as a mathematical value, and what each record does to it.
  * `converter`, `dispatch`: the code that does it.
  * `laws`: what holds of all conversions and recordings, of all stacks and of all modules.
* `tests/` runs the library, with the crates that it builds on.
* `app/` is the program around the library: it reads the recording, opens the files that were
  mapped, runs the unwinder, and writes the profile.

A recording is taken record by record. `next_step` says what is done with what was read, and
`Converter::handle_record` what each record does to the profile; where a file has to be opened it
says which, and the program hands the bytes back.
