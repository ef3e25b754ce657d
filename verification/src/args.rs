//! Where the program finds its socket and its configuration.

use crate::command::Command;
use crate::path::{bytes_of, is_absolute, joined, UnixPath};
use vstd::prelude::*;

verus! {

/// The arguments of the program.
#[derive(Debug, PartialEq, Eq)]
pub struct Args {
    /// A custom path to a configuration file.
    pub config: Option<UnixPath>,
    /// A custom path to the daemon socket.
    pub socket: Option<UnixPath>,
    pub command: Command,
}

/// Why a place cannot be found.
#[derive(Copy, Clone, Debug, PartialEq, Eq, Structural)]
pub enum ArgsError {
    NoConfigDirectory,
    NoSocketDirectory,
}

/// Where the configuration comes from.
#[derive(Debug, PartialEq, Eq)]
pub enum ConfigSource {
    /// The built-in configuration.
    Builtin,
    /// A file.
    File(UnixPath),
}

/// What to do about a configuration file.
#[derive(Copy, Clone, Debug, PartialEq, Eq, Structural)]
pub enum ConfigStep {
    /// It is there and is to be read.
    Read,
    /// It is not there: the built-in configuration is used and written to it.
    Write {
        /// Whether its directory is not there either and has to be created first.
        create_parent: bool,
    },
}

impl ArgsError {
    /// The error in words.
    pub open spec fn words(self) -> Seq<char> {
        match self {
            ArgsError::NoConfigDirectory => "failed to locate config directory"@,
            ArgsError::NoSocketDirectory => "could not find socket directory"@,
        }
    }

    /// The error in words.
    pub fn message(&self) -> (message: &'static str)
        ensures
            message@ == self.words(),
    {
        match self {
            ArgsError::NoConfigDirectory => "failed to locate config directory",
            ArgsError::NoSocketDirectory => "could not find socket directory",
        }
    }
}

/// The path of a file in a directory.
pub open spec fn file_in(dir: Seq<u8>, name: Seq<char>) -> Seq<u8> {
    joined(dir, vstd::utf8::encode_utf8(name))
}

/// The name of the daemon's socket. A debug build has one of its own.
pub open spec fn socket_name(debug: bool) -> Seq<char> {
    if debug {
        "pomidor-debug.sock"@
    } else {
        "pomidor.sock"@
    }
}

/// The user's configuration directory, from `dirs::config_local_dir`, which looks at the
/// environment and at the user database.
///
/// Trusted: that it returns. Which directory it is, if any, remains open.
#[verifier::external_body]
fn config_local_dir() -> (dir: Option<UnixPath>) {
    match dirs::config_local_dir() {
        Some(dir) => Some(UnixPath { bytes: dir.into_os_string().into_encoded_bytes() }),
        None => None,
    }
}

/// The directory for sockets and the like, from `dirs::runtime_dir`, which looks at the
/// environment.
///
/// Trusted: its path is absolute. Which directory it is, if any, remains open.
#[verifier::external_body]
fn runtime_dir() -> (dir: Option<UnixPath>)
    ensures
        dir matches Some(dir) ==> is_absolute(dir@),
{
    match dirs::runtime_dir() {
        Some(dir) => Some(UnixPath { bytes: dir.into_os_string().into_encoded_bytes() }),
        None => None,
    }
}

impl Args {
    /// Where the configuration comes from, for a user with this configuration directory, if any.
    /// A debug build has the built-in one. Otherwise it is the file given as an argument, or else
    /// one in that directory.
    pub open spec fn finds_config(
        self,
        debug: bool,
        config_dir: Option<Seq<u8>>,
        source: Result<ConfigSource, ArgsError>,
    ) -> bool {
        match source {
            Ok(ConfigSource::Builtin) => debug,
            Ok(ConfigSource::File(path)) => !debug && match (self.config, config_dir) {
                (Some(given), _) => path@ == given@,
                (None, Some(dir)) => path@ == file_in(file_in(dir, "pomidor"@), "pomidor.toml"@),
                (None, None) => false,
            },
            Err(error) => {
                &&& error is NoConfigDirectory
                &&& !debug
                &&& self.config is None
                &&& config_dir is None
            },
        }
    }

    /// Where the daemon's socket is, for a user with this directory for such things, if any: at
    /// the path given as an argument, or else in that directory.
    pub open spec fn finds_socket(
        self,
        debug: bool,
        runtime_dir: Option<Seq<u8>>,
        socket: Result<UnixPath, ArgsError>,
    ) -> bool {
        match socket {
            Ok(path) => match (self.socket, runtime_dir) {
                (Some(given), _) => path@ == given@,
                (None, Some(dir)) => path@ == file_in(dir, socket_name(debug)),
                (None, None) => false,
            },
            Err(error) => {
                &&& error is NoSocketDirectory
                &&& self.socket is None
                &&& runtime_dir is None
            },
        }
    }

    /// Where the configuration comes from. Only a release build without a file given as an
    /// argument looks for the user's configuration directory.
    pub fn load_config(&self, debug: bool) -> (source: Result<ConfigSource, ArgsError>)
        ensures
            exists|dir: Option<Seq<u8>>| #[trigger] self.finds_config(debug, dir, source),
    {
        let dir = if debug || self.config.is_some() {
            None
        } else {
            config_local_dir()
        };
        let ghost dir_bytes = bytes_of(dir);
        let source = self.load_config_in(debug, dir);
        assert(self.finds_config(debug, dir_bytes, source));
        source
    }

    /// Where the configuration comes from, for a user with this configuration directory, if any.
    pub fn load_config_in(&self, debug: bool, config_dir: Option<UnixPath>) -> (source: Result<
        ConfigSource,
        ArgsError,
    >)
        ensures
            self.finds_config(debug, bytes_of(config_dir), source),
    {
        if debug {
            return Ok(ConfigSource::Builtin);
        }
        match (&self.config, config_dir) {
            (Some(given), _) => Ok(ConfigSource::File(given.clone())),
            (None, Some(dir)) => Ok(
                ConfigSource::File(dir.join("pomidor").join("pomidor.toml")),
            ),
            (None, None) => Err(ArgsError::NoConfigDirectory),
        }
    }

    /// What to do about a configuration file, given whether it and its directory are there.
    pub fn open_config(file_exists: bool, parent_exists: bool) -> (step: ConfigStep)
        ensures
            step == (if file_exists {
                ConfigStep::Read
            } else {
                ConfigStep::Write { create_parent: !parent_exists }
            }),
    {
        if file_exists {
            ConfigStep::Read
        } else {
            ConfigStep::Write { create_parent: !parent_exists }
        }
    }

    /// Where the daemon's socket is. Only without a path given as an argument the user's directory
    /// for such things is looked for.
    pub fn find_socket(&self, debug: bool) -> (socket: Result<UnixPath, ArgsError>)
        ensures
            exists|dir: Option<Seq<u8>>|
                {
                    &&& dir matches Some(path) ==> is_absolute(path)
                    &&& #[trigger] self.finds_socket(debug, dir, socket)
                },
    {
        let dir = if self.socket.is_some() {
            None
        } else {
            runtime_dir()
        };
        let ghost dir_bytes = bytes_of(dir);
        let socket = self.find_socket_in(debug, dir);
        assert(self.finds_socket(debug, dir_bytes, socket));
        socket
    }

    /// Where the daemon's socket is, for a user with this directory for such things, if any.
    pub fn find_socket_in(&self, debug: bool, runtime_dir: Option<UnixPath>) -> (socket: Result<
        UnixPath,
        ArgsError,
    >)
        ensures
            self.finds_socket(debug, bytes_of(runtime_dir), socket),
    {
        let name = if debug {
            "pomidor-debug.sock"
        } else {
            "pomidor.sock"
        };
        match (&self.socket, runtime_dir) {
            (Some(given), _) => Ok(given.clone()),
            (None, Some(dir)) => Ok(dir.join(name)),
            (None, None) => Err(ArgsError::NoSocketDirectory),
        }
    }
}

/// The daemon and its clients meet: the same arguments in the same surroundings lead to the same
/// socket.
pub proof fn law_same_arguments_same_socket(
    args: Args,
    debug: bool,
    dir: Option<Seq<u8>>,
    first: Result<UnixPath, ArgsError>,
    second: Result<UnixPath, ArgsError>,
)
    requires
        args.finds_socket(debug, dir, first),
        args.finds_socket(debug, dir, second),
    ensures
        first is Ok <==> second is Ok,
        first is Ok ==> first->Ok_0@ == second->Ok_0@,
{
}

/// A debug build and a release build do not get in each other's way, unless they are told to.
pub proof fn law_debug_socket_is_another(
    args: Args,
    dir: Seq<u8>,
    debug: UnixPath,
    release: UnixPath,
)
    requires
        args.socket is None,
        args.finds_socket(true, Some(dir), Ok(debug)),
        args.finds_socket(false, Some(dir), Ok(release)),
    ensures
        debug@ != release@,
{
    reveal_strlit("pomidor-debug.sock");
    reveal_strlit("pomidor.sock");
    vstd::utf8::is_ascii_chars_encode_utf8("pomidor-debug.sock"@);
    vstd::utf8::is_ascii_chars_encode_utf8("pomidor.sock"@);
    assert(debug@.len() != release@.len());
}

/// What comes after a directory: a separator where it needs one.
pub open spec fn separator_after(dir: Seq<u8>) -> Seq<char> {
    if dir.len() == 0 || dir[dir.len() - 1] == 47 {
        ""@
    } else {
        "/"@
    }
}

/// The bytes of a text in ASCII.
pub open spec fn ascii(text: Seq<char>) -> Seq<u8> {
    Seq::new(text.len(), |i: int| text[i] as u8)
}

/// The file that is given is the one that is used. Without one it is `pomidor/pomidor.toml` in the
/// user's configuration directory. A debug build uses none.
pub proof fn law_configuration_file(
    args: Args,
    debug: bool,
    config_dir: Option<Seq<u8>>,
    source: Result<ConfigSource, ArgsError>,
)
    requires
        args.finds_config(debug, config_dir, source),
    ensures
        debug ==> source == Ok::<ConfigSource, ArgsError>(ConfigSource::Builtin),
        !debug ==> match (args.config, config_dir) {
            (Some(given), _) => source matches Ok(ConfigSource::File(path)) && path.bytes@
                == given.bytes@,
            (None, Some(dir)) => source matches Ok(ConfigSource::File(path)) && path.bytes@ == dir
                + ascii(separator_after(dir)) + ascii("pomidor/pomidor.toml"@),
            (None, None) => source == Err::<ConfigSource, ArgsError>(
                ArgsError::NoConfigDirectory,
            ),
        },
{
    reveal_strlit("");
    reveal_strlit("/");
    reveal_strlit("pomidor");
    reveal_strlit("pomidor.toml");
    reveal_strlit("pomidor/pomidor.toml");
    vstd::utf8::is_ascii_chars_encode_utf8("pomidor"@);
    vstd::utf8::is_ascii_chars_encode_utf8("pomidor.toml"@);
    if !debug && args.config is None {
        match (config_dir, source) {
            (Some(dir), Ok(ConfigSource::File(path))) => {
                assert(path.bytes@ =~= dir + ascii(separator_after(dir)) + ascii(
                    "pomidor/pomidor.toml"@,
                ));
            },
            _ => {},
        }
    }
}

/// The socket that is given is the one that is used. Without one it is `pomidor.sock` in the
/// user's directory for such things, or `pomidor-debug.sock` for a debug build.
pub proof fn law_daemon_socket(
    args: Args,
    debug: bool,
    runtime_dir: Option<Seq<u8>>,
    socket: Result<UnixPath, ArgsError>,
)
    requires
        args.finds_socket(debug, runtime_dir, socket),
    ensures
        match (args.socket, runtime_dir) {
            (Some(given), _) => socket matches Ok(path) && path.bytes@ == given.bytes@,
            (None, Some(dir)) => socket matches Ok(path) && path.bytes@ == dir + ascii(
                separator_after(dir),
            ) + ascii(if debug { "pomidor-debug.sock"@ } else { "pomidor.sock"@ }),
            (None, None) => socket == Err::<UnixPath, ArgsError>(ArgsError::NoSocketDirectory),
        },
{
    reveal_strlit("");
    reveal_strlit("/");
    reveal_strlit("pomidor-debug.sock");
    reveal_strlit("pomidor.sock");
    vstd::utf8::is_ascii_chars_encode_utf8("pomidor-debug.sock"@);
    vstd::utf8::is_ascii_chars_encode_utf8("pomidor.sock"@);
    if args.socket is None {
        match (runtime_dir, socket) {
            (Some(dir), Ok(path)) => {
                let name = if debug {
                    "pomidor-debug.sock"@
                } else {
                    "pomidor.sock"@
                };
                assert(path.bytes@ =~= dir + ascii(separator_after(dir)) + ascii(name));
            },
            _ => {},
        }
    }
}

/// Each error has its words.
pub proof fn law_lookup_errors_in_words()
    ensures
        ArgsError::NoConfigDirectory.words() == "failed to locate config directory"@,
        ArgsError::NoSocketDirectory.words() == "could not find socket directory"@,
{
}

} // verus!
