//! The loader: a reference to a secret, read from text and resolved into the secret.

use crate::error::LoadError;
use crate::error::VarFailure;
use crate::path::path_chars;
use crate::path::path_from_str;
use crate::secret::SecretText;
use crate::text::strip_prefix;
use camino::Utf8PathBuf;
use std::convert::Infallible;
use std::str::FromStr;
use vstd::prelude::*;
use vstd::std_specs::convert::FromSpecImpl;

verus! {

/// What a loader refers to, as plain text.
pub enum Reference {
    /// The name of an environment variable.
    Env(Seq<char>),
    /// The path of a file.
    File(Seq<char>),
    /// The secret itself.
    Plain(Seq<char>),
}

/// The prefix that marks the name of an environment variable.
pub open spec fn env_prefix() -> Seq<char> {
    "env:"@
}

/// The prefix that marks the path of a file.
pub open spec fn file_prefix() -> Seq<char> {
    "file:"@
}

/// The reference that a text is read as.
///
/// A text that begins with `env:` names an environment variable and one that begins with
/// `file:` names a file, each by what follows the prefix, taken as it stands. Every other
/// text is the secret itself.
pub open spec fn parse(text: Seq<char>) -> Reference {
    if env_prefix().is_prefix_of(text) {
        Reference::Env(text.skip(4))
    } else if file_prefix().is_prefix_of(text) {
        Reference::File(text.skip(5))
    } else {
        Reference::Plain(text)
    }
}

/// The two prefixes, character by character.
pub proof fn lemma_prefixes()
    ensures
        env_prefix() == seq!['e', 'n', 'v', ':'],
        file_prefix() == seq!['f', 'i', 'l', 'e', ':'],
{
    reveal_strlit("env:");
    reveal_strlit("file:");
    assert(env_prefix() =~= seq!['e', 'n', 'v', ':']);
    assert(file_prefix() =~= seq!['f', 'i', 'l', 'e', ':']);
}

/// A type that can load secrets from multiple locations
///
/// This enum is the main type of this crate and represents a secret
/// that can be loaded from multiple locations. It is turned into a
/// [`SecretText`] by [`SecretLoader::into_secret`].
#[derive(Debug)]
pub enum SecretLoader {
    /// A secret that will be loaded from an environment variable
    Env(String),
    /// A secret that will be loaded from a file
    File(Utf8PathBuf),
    /// A plaintext secret
    Plain(SecretText),
}

/// A loader, for those who think of the reference as a credential.
pub type Credential = SecretLoader;

impl View for SecretLoader {
    type V = Reference;

    open spec fn view(&self) -> Reference {
        match self {
            SecretLoader::Env(name) => Reference::Env(name@),
            SecretLoader::File(path) => Reference::File(path_chars(*path)),
            SecretLoader::Plain(secret) => Reference::Plain(secret@),
        }
    }
}

/// What was read for a loader: the outcome of the one lookup that it calls for.
#[derive(Debug)]
pub enum Lookup {
    /// The environment variable was looked up.
    Env(Result<String, VarFailure>),
    /// The file was read as text.
    File(Result<String, std::io::Error>),
    /// Nothing was read.
    NotNeeded,
}

/// What loading gives: the text of the secret, or the failure.
pub type Loaded = Result<Seq<char>, LoadError>;

/// The text of a loaded secret, with a failure left as it is.
pub open spec fn loaded_view(loaded: Result<SecretText, LoadError>) -> Loaded {
    match loaded {
        Ok(secret) => Ok(secret@),
        Err(error) => Err(error),
    }
}

/// What a lookup in the environment gives: the value of the variable as the secret, or an
/// environment failure that carries the cause.
pub open spec fn loaded_from_env(read: Result<String, VarFailure>) -> Loaded {
    match read {
        Ok(value) => Ok(value@),
        Err(cause) => Err(LoadError::Env(cause)),
    }
}

/// What reading a file gives: the whole text of the file as the secret, or an I/O failure
/// that carries the cause.
pub open spec fn loaded_from_file(read: Result<String, std::io::Error>) -> Loaded {
    match read {
        Ok(text) => Ok(text@),
        Err(cause) => Err(LoadError::Io(cause)),
    }
}

/// Turns the outcome of a lookup in the environment into the secret or the failure.
pub fn secret_from_env(read: Result<String, VarFailure>) -> (loaded: Result<
    SecretText,
    LoadError,
>)
    ensures
        loaded_view(loaded) == loaded_from_env(read),
{
    match read {
        Ok(value) => Ok(SecretText::new(value.as_str())),
        Err(cause) => Err(LoadError::from(cause)),
    }
}

/// Turns the outcome of reading a file into the secret or the failure.
pub fn secret_from_file(read: Result<String, std::io::Error>) -> (loaded: Result<
    SecretText,
    LoadError,
>)
    ensures
        loaded_view(loaded) == loaded_from_file(read),
{
    match read {
        Ok(text) => Ok(SecretText::new(text.as_str())),
        Err(cause) => Err(LoadError::from(cause)),
    }
}

impl SecretLoader {
    /// Constructs a new `SecretLoader` from a provided str.
    ///
    /// Every text is read as some loader. The prefixes are matched exactly and by case, and
    /// nothing is trimmed.
    pub fn new(val: &str) -> (loader: SecretLoader)
        ensures
            loader@ == parse(val@),
            env_prefix().is_prefix_of(val@) ==> loader@ == Reference::Env(
                val@.subrange(4, val@.len() as int),
            ),
            file_prefix().is_prefix_of(val@) ==> loader@ == Reference::File(
                val@.subrange(5, val@.len() as int),
            ),
            !env_prefix().is_prefix_of(val@) && !file_prefix().is_prefix_of(val@) ==> loader@
                == Reference::Plain(val@),
    {
        proof {
            lemma_prefixes();
            if file_prefix().is_prefix_of(val@) {
                assert(val@[0] == file_prefix()[0]);
            }
        }
        if let Some(name) = strip_prefix(val, "env:") {
            SecretLoader::Env(name.to_owned())
        } else if let Some(path) = strip_prefix(val, "file:") {
            SecretLoader::File(path_from_str(path))
        } else {
            SecretLoader::Plain(SecretText::new(val))
        }
    }

    /// Whether `lookup` is the outcome of the lookup that this loader calls for: one in the
    /// environment for `Env`, the reading of a file for `File`. A plaintext secret calls
    /// for none and goes with any.
    pub open spec fn answered_by(&self, lookup: Lookup) -> bool {
        match self {
            SecretLoader::Env(_) => lookup is Env,
            SecretLoader::File(_) => lookup is File,
            SecretLoader::Plain(_) => true,
        }
    }

    /// What this loader gives, once its lookup has been made.
    pub open spec fn loaded(&self, lookup: Lookup) -> Loaded
        recommends
            self.answered_by(lookup),
    {
        match self {
            SecretLoader::Env(_) => loaded_from_env(lookup->Env_0),
            SecretLoader::File(_) => loaded_from_file(lookup->File_0),
            SecretLoader::Plain(secret) => Ok(secret@),
        }
    }

    /// Tells whether `lookup` is the outcome of the lookup that this loader calls for.
    pub fn is_answered_by(&self, lookup: &Lookup) -> (b: bool)
        ensures
            b == self.answered_by(*lookup),
    {
        match self {
            SecretLoader::Env(_) => matches!(lookup, Lookup::Env(_)),
            SecretLoader::File(_) => matches!(lookup, Lookup::File(_)),
            SecretLoader::Plain(_) => true,
        }
    }

    /// Converts a `SecretLoader` into a [`SecretText`], given the outcome of its lookup.
    ///
    /// Use this method to actually 'load' or 'resolve' a usable secret. The caller reads
    /// the environment variable or the file that the loader names, once, and hands over
    /// what came of it. A plaintext secret is handed out as it is, whatever the lookup.
    pub fn into_secret(self, lookup: Lookup) -> (loaded: Result<SecretText, LoadError>)
        requires
            self.answered_by(lookup),
        ensures
            loaded_view(loaded) == self.loaded(lookup),
            self matches SecretLoader::Plain(secret) ==> loaded == Ok::<SecretText, LoadError>(
                secret,
            ),
            self is Env ==> (lookup matches Lookup::Env(Ok(value)) ==> (loaded matches Ok(secret)
                && secret@ == value@)),
            self is Env ==> (lookup matches Lookup::Env(Err(cause)) ==> loaded == Err::<
                SecretText,
                LoadError,
            >(LoadError::Env(cause))),
            self is File ==> (lookup matches Lookup::File(Ok(text)) ==> (loaded matches Ok(secret)
                && secret@ == text@)),
            self is File ==> (lookup matches Lookup::File(Err(cause)) ==> loaded == Err::<
                SecretText,
                LoadError,
            >(LoadError::Io(cause))),
    {
        match self {
            SecretLoader::Env(_) => match lookup {
                Lookup::Env(read) => secret_from_env(read),
                _ => unreached(),
            },
            SecretLoader::File(_) => match lookup {
                Lookup::File(read) => secret_from_file(read),
                _ => unreached(),
            },
            SecretLoader::Plain(secret) => Ok(secret),
        }
    }

    /// Converts a `SecretLoader` into a [`SecretText`] as [`SecretLoader::into_secret`]
    /// does, where `lookup` is the outcome of the lookup that the loader calls for. Where it
    /// is not, there is nothing to load from, and the result is `None`.
    pub fn try_into_secret(self, lookup: Lookup) -> (loaded: Option<
        Result<SecretText, LoadError>,
    >)
        ensures
            loaded is Some <==> self.answered_by(lookup),
            loaded matches Some(result) ==> loaded_view(result) == self.loaded(lookup),
            self matches SecretLoader::Plain(secret) ==> loaded == Some(
                Ok::<SecretText, LoadError>(secret),
            ),
    {
        if self.is_answered_by(&lookup) {
            Some(self.into_secret(lookup))
        } else {
            None
        }
    }

    /// Returns true if the secret will be loaded from an environment variable.
    pub fn is_env(&self) -> (b: bool)
        ensures
            b == (self@ is Env),
    {
        matches!(self, SecretLoader::Env(_))
    }

    /// Returns true if the secret will be loaded from a file.
    pub fn is_file(&self) -> (b: bool)
        ensures
            b == (self@ is File),
    {
        matches!(self, SecretLoader::File(_))
    }

    /// Returns true if the secret is in plaintext.
    pub fn is_plain(&self) -> (b: bool)
        ensures
            b == (self@ is Plain),
    {
        matches!(self, SecretLoader::Plain(_))
    }
}

impl Clone for SecretLoader {
    fn clone(&self) -> (copy: SecretLoader)
        ensures
            copy@ == self@,
    {
        match self {
            SecretLoader::Env(name) => SecretLoader::Env(name.clone()),
            SecretLoader::File(path) => SecretLoader::File(path.clone()),
            SecretLoader::Plain(secret) => SecretLoader::Plain(secret.clone()),
        }
    }
}

impl FromStr for SecretLoader {
    type Err = Infallible;

    /// Reads a loader from text, as [`SecretLoader::new`] does. This never fails.
    fn from_str(s: &str) -> (parsed: Result<SecretLoader, Infallible>)
        ensures
            parsed matches Ok(loader) && loader@ == parse(s@),
    {
        Ok(SecretLoader::new(s))
    }
}

/// A loader is known by what it refers to, so the conversion from a `String` is stated on
/// the view, in the contract of `from`, and not as one value.
impl FromSpecImpl<String> for SecretLoader {
    open spec fn obeys_from_spec() -> bool {
        false
    }

    open spec fn from_spec(s: String) -> SecretLoader {
        arbitrary()
    }
}

impl From<String> for SecretLoader {
    /// Reads a loader from text, as [`SecretLoader::new`] does.
    fn from(s: String) -> (loader: SecretLoader)
        ensures
            loader@ == parse(s@),
    {
        SecretLoader::new(s.as_str())
    }
}

} // verus!
