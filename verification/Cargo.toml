[package]
name = "perf_convert"
version = "0.1.0"
edition = "2021"
publish = false

[dependencies]
byteorder = "=1.5.0"
debugid = "=0.8.0"
framehop = "0.6"
fxprof-processed-profile = "=0.4.0"
linux-perf-data = "=0.5.1"
linux-perf-event-reader = "=0.5.0"
memmap2 = "=0.5.10"
object = "=0.29.0"
profiler-get-symbols = "=0.16.1"
serde_json = "=1.0.154"
