//! Options for setting up a randomness provider, and the loading of the
//! provider's signing key from what was read of its key file.
//!
//! The library touches no file itself. Its caller reads the file that
//! [`SetupProviderOptions::private_key_file`] names and hands the outcome of
//! that read to [`SetupProviderOptions::load_private_key`].

pub mod credential;
pub mod options;
pub mod std_specs;

pub use credential::KeyFileError;
pub use options::SetupProviderOptions;
