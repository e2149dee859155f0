//! In-process byte-source bridge and run supervision logic for a native,
//! callback-driven media engine.
//!
//! The crate holds the verifiable core of the bridge: the source registry
//! with its identity discipline, the synthetic-URL codec, the seek/whence
//! arithmetic of the stream protocol, placeholder substitution for run
//! arguments, output capture, run-outcome classification, and the tolerant
//! scalar model for the engine's introspection records. The native call
//! itself, file and thread handling, and (de)serialization glue live with
//! the embedding application.

pub mod args;
pub mod bridge;
pub mod capture;
pub mod num;
pub mod probe;
pub mod registry;
pub mod run;
pub mod text;

pub use args::substitute_args;
pub use args::ffprobe_args;
pub use args::ConfigError;
pub use args::INPUT_TOKEN;
pub use args::OUTDIR_TOKEN;
pub use bridge::parse_id;
pub use bridge::plan_read;
pub use bridge::plan_seek;
pub use bridge::read_return;
pub use bridge::effective_size;
pub use bridge::resolve_source;
pub use bridge::ReadPlan;
pub use bridge::SeekPlan;
pub use bridge::SEEK_WHENCE_CURRENT;
pub use bridge::SEEK_WHENCE_END;
pub use bridge::SEEK_WHENCE_SIZE;
pub use bridge::SEEK_WHENCE_START;
pub use capture::capture_write;
pub use capture::CaptureBuffer;
pub use num::parse_i64;
pub use num::parse_u64;
pub use num::u64_to_dec;
pub use probe::parse_rational;
pub use probe::scalar_to_i64;
pub use probe::scalar_to_i64_opt;
pub use probe::scalar_to_rational;
pub use probe::scalar_to_string_opt;
pub use probe::stream_kind;
pub use probe::wrap_u64_to_i64;
pub use probe::FieldError;
pub use probe::JsonScalar;
pub use probe::Rational;
pub use probe::StreamKind;
pub use registry::cancel_source;
pub use registry::register_source;
pub use registry::CancelHandle;
pub use registry::FileSource;
pub use registry::Registry;
pub use registry::Source;
pub use registry::SourceHandle;
pub use registry::URL_PREFIX;
pub use run::classify_outcome;
pub use run::FfprobeError;
pub use run::JoinOutcome;
pub use run::RunOutcome;
pub use run::RunState;
