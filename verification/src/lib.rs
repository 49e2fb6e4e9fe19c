//! A configurable metrics probe exporter: a named module — a jsonnet
//! transformation bound to a metric schema — turns a fetched target's
//! response into a typed metric manifest, rendered as Prometheus text
//! exposition.
//!
//! The pipeline (engine adapter, manifest decoder, exposition renderer),
//! the module registry, the probe workflow's decisions and the load-time
//! validation harness live here, with contracts; the surrounding process
//! (CLI, config file reading, the HTTP server, the fetch itself) stays
//! outside.
//!
//! One departure from a resolver-based engine embedding: an inline program
//! is evaluated as a self-contained expression, so every `import` in it —
//! one naming the program's own synthetic `inline.jsonnet` identity
//! included — fails with the engine's resolution error. Only a file-path
//! program may import, relative to its own path.

pub mod json;
pub mod manifest;
pub mod decode;
pub mod render;
pub mod engine;
pub mod config;
pub mod module;
pub mod probe;
pub mod harness;
pub mod walk;
