//! Load secrets from multiple locations
//!
//! A [`SecretLoader`] is read from a string of a configuration file and says where a secret
//! is found: in an environment variable (`env:NAME`), in a file (`file:/some/path`), or in
//! the string itself. Configuration files then hold hints on how to load a secret in place
//! of the secret.
//!
//! The library reads no environment and no file by itself. The caller makes the one lookup
//! that a loader calls for and hands its outcome, a [`Lookup`], to
//! [`SecretLoader::into_secret`], which gives the secret or a [`LoadError`].

pub mod error;
pub mod loader;
pub mod path;
pub mod secret;
pub mod text;

pub use crate::error::LoadError;
pub use crate::error::VarFailure;
pub use crate::loader::Credential;
pub use crate::loader::Lookup;
pub use crate::loader::SecretLoader;
pub use crate::secret::SecretText;
