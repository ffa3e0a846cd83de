# libobs_wrapper

A wrapper around libobs, the library behind OBS Studio, whose decisions are
proved with Verus.

- `src/` is the verified library: the numeric values of libobs enumerations
  and their round trips, the video, audio and display settings and their
  builders, the bootstrapper (version check, course of a download and
  extraction, updater command line), the choice of encoders, the checks and
  outcomes of outputs and of video resets, and the lines that the loggers and
  crash handlers write.
- `app/` performs the calls into libobs, the console, files and the operating
  system around those decisions.
- `tests/` runs the library on concrete values.
