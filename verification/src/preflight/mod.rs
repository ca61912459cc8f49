//! Install preflight: the health model, the platform intelligence report, and the source-build
//! gates for macOS and Android.
pub mod types;
pub mod android;
pub mod macos;
pub mod gate;
pub mod intel;
pub mod report;
pub mod host;
