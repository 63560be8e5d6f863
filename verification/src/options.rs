//! The options of the provider setup command.

use crate::credential::{key_view, loaded_key, KeyFileError};
use vstd::prelude::*;
use vstd::utf8::{decode_utf8_encode_utf8, encode_utf8, valid_utf8};

verus! {

/// Everything the setup of a provider needs, put together once when the
/// command starts and only read after that. The three option groups `C`, `P`
/// and `R` are defined elsewhere; they are held here and handed on as they are.
#[derive(Clone, Debug)]
pub struct SetupProviderOptions<C, P, R> {
    /// General configuration of the service.
    pub config: C,
    /// Configuration of the provider.
    pub provider_config: P,
    /// Path of the file that holds the provider's private key: 20 bytes, written
    /// as 40 hex digits. Only the path is held here, never the key. The path is
    /// not examined: one that is empty, or that names no readable file, shows as
    /// a failed read when the key is loaded.
    pub private_key_file: String,
    /// How the provider's random numbers are generated.
    pub randomness: R,
    /// The base URI under which the running service is reached.
    pub base_uri: String,
}

impl<C, P, R> SetupProviderOptions<C, P, R> {
    /// Loads the signing key from the outcome `read` of reading the whole file
    /// that `private_key_file` names.
    ///
    /// A read that failed gives its failure back unchanged. A read that
    /// succeeded gives the contents as text, byte for byte, a trailing newline
    /// included; contents that are not UTF-8 give `KeyFileError::NotText` and
    /// no part of them. The options are not changed and nothing is kept between
    /// calls.
    pub fn load_private_key(&self, read: Result<Vec<u8>, std::io::Error>) -> (key: Result<
        String,
        KeyFileError,
    >)
        ensures
            key_view(key) == loaded_key(read),
            key matches Ok(text) ==> read matches Ok(contents) && encode_utf8(text@) == contents@,
    {
        match read {
            Ok(contents) => {
                proof {
                    if valid_utf8(contents@) {
                        decode_utf8_encode_utf8(contents@);
                    }
                }
                match String::from_utf8(contents) {
                    Ok(text) => Ok(text),
                    Err(_) => Err(KeyFileError::NotText),
                }
            },
            Err(failure) => Err(KeyFileError::Unreadable(failure)),
        }
    }
}

} // verus!
