# lmstudio-local-llm-blueprint-lib

A Tangle Blueprint service that exposes the LM Studio command line (`lms`)
as jobs: load and unload models, list downloaded and loaded models, start and
stop the inference server, and report status.

- `src/` is the verified library (Verus): the model allowlist, the choice of
  the `lms` executable, the `lms` arguments of every job with the checks that
  refuse bad arguments, and the interpretation of what `lms` reports. The one
  check that is not there is whether a numeric GPU setting reads as a float
  between 0.0 and 1.0: that is floating point, decided in `app/` and handed to
  the library as a flag.
- `app/` is the service around it: Tangle routing and argument extraction,
  the keystore, the file-system probes, and running `lms` as a process.
  Paths reach the library as UTF-8 text; a path that is not valid UTF-8 is
  converted lossily on the way.
- `tests/` runs the library on concrete inputs.
