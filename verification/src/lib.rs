//! Drives an external source formatter: builds its configuration file from a
//! typed model, decides which executable to run, and classifies what the run
//! produced.
//!
//! The formatter itself runs as a child process; everything here is the pure
//! part of one invocation. A caller materializes [`Request::config_text`] into
//! a transient `rustfmt.toml`, launches the executable that [`which_rustfmt`]
//! picks, feeds it [`Request::source`] on standard input, and hands the
//! collected exit status and streams to [`classify_output`].

use vstd::prelude::*;

pub mod config;
pub mod decimal;

use crate::config::Config;
use crate::config::Edition;

verus! {

/// How a formatting run can fail.
pub enum Error {
    /// No formatter executable could be resolved.
    NoRustfmt,
    /// The formatter exited with a failure status; carries its diagnostics.
    Rustfmt(String),
    /// A filesystem or pipe operation failed; carries the system message.
    IO(String),
    /// Captured output or error bytes were not valid text.
    Conversion,
}

/// One prepared invocation of the external formatter: the configuration file
/// body to materialize, and the source text to feed on standard input.
pub struct Request {
    pub config_text: String,
    pub source: String,
}

/// `c` with the fixed default edition filled in when the caller set none: a
/// deliberate override of the external tool's own older default.
pub open spec fn spec_normalize(c: Config) -> Config {
    if c.edition is None {
        (Config { edition: Some(Edition::Edition2018), ..c })
    } else {
        c
    }
}

/// The baseline configuration of the default entry point: the default edition
/// plus comment wrapping, everything else unset.
pub open spec fn spec_baseline() -> Config {
    (Config {
        edition: Some(Edition::Edition2018),
        wrap_comments: Some(true),
        ..config::spec_unset()
    })
}

/// Prepares one invocation for a caller-supplied configuration: fills in the
/// default edition when none is set, and serializes the result.
pub fn rustfmt_config(config: Config, input: String) -> (r: Request)
    ensures
        r.config_text@ == config::serial(spec_normalize(config)),
        r.source == input,
{
    let mut c = config;
    if c.edition.is_none() {
        c.edition = Some(Edition::Edition2018);
    }
    proof {
        assert(c =~= spec_normalize(config));
    }
    let text = config::serialize(&c);
    Request { config_text: text, source: input }
}

/// Prepares one invocation with the baseline configuration: the only
/// non-default setting is `wrap_comments = true` (plus the default edition).
pub fn rustfmt(input: String) -> (r: Request)
    ensures
        r.config_text@ == config::serial(spec_baseline()),
        r.source == input,
{
    let mut c = Config::default();
    c.edition = Some(Edition::Edition2018);
    c.wrap_comments = Some(true);
    proof {
        assert(c =~= spec_baseline());
        assert(spec_normalize(spec_baseline()) == spec_baseline());
    }
    rustfmt_config(c, input)
}

/// The resolved executable path: an environment override that is set and
/// non-empty wins; otherwise whatever toolchain discovery found.
pub open spec fn spec_resolve(
    env_override: Option<Seq<char>>,
    discovered: Option<Seq<char>>,
) -> Option<Seq<char>> {
    match env_override {
        Some(p) => if p.len() > 0 {
            Some(p)
        } else {
            discovered
        },
        None => discovered,
    }
}

/// An override set to the empty string behaves exactly as no override at all:
/// both fall through to toolchain discovery.
pub proof fn lemma_empty_override_falls_through(discovered: Option<Seq<char>>)
    ensures
        spec_resolve(Some(Seq::empty()), discovered) == spec_resolve(None, discovered),
{
}

/// The views of an optional owned string.
pub open spec fn view_opt(o: Option<String>) -> Option<Seq<char>> {
    match o {
        Some(s) => Some(s@),
        None => None,
    }
}

/// Picks the formatter executable. `env_override` is the value of the
/// environment variable naming the executable, injected by the caller;
/// `discovered` is what toolchain discovery found on disk.
pub fn which_rustfmt(env_override: Option<String>, discovered: Option<String>) -> (r: Option<
    String,
>)
    ensures
        (match r {
            Some(p) => spec_resolve(view_opt(env_override), view_opt(discovered)) == Some(p@),
            None => spec_resolve(view_opt(env_override), view_opt(discovered)) is None,
        }),
{
    match env_override {
        Some(p) => {
            if p.as_str().unicode_len() > 0 {
                Some(p)
            } else {
                discovered
            }
        },
        None => discovered,
    }
}

/// Resolves the formatter executable or reports that none is installed:
/// `Err(Error::NoRustfmt)` exactly when neither source yields a path.
pub fn resolve_rustfmt(env_override: Option<String>, discovered: Option<String>) -> (r: Result<
    String,
    Error,
>)
    ensures
        (match r {
            Ok(p) => spec_resolve(view_opt(env_override), view_opt(discovered)) == Some(p@),
            Err(e) => e == Error::NoRustfmt && spec_resolve(
                view_opt(env_override),
                view_opt(discovered),
            ) is None,
        }),
{
    match which_rustfmt(env_override, discovered) {
        Some(p) => Ok(p),
        None => Err(Error::NoRustfmt),
    }
}

/// What decoding a byte sequence as UTF-8 text yields: the character sequence
/// when the bytes are valid, nothing otherwise.
pub uninterp spec fn utf8_decode(bytes: Seq<u8>) -> Option<Seq<char>>;

/// Relies on std's `String::from_utf8`: whether it succeeds, and the text it
/// returns, depend on the bytes alone.
#[verifier::external_body]
fn decode_utf8(bytes: Vec<u8>) -> (r: Option<String>)
    ensures
        r is Some <==> utf8_decode(bytes@) is Some,
        r is Some ==> r->0@ == utf8_decode(bytes@)->0,
{
    String::from_utf8(bytes).ok()
}

/// Classifies a finished run of the external formatter. On a success status
/// the standard-output bytes decode to the formatted text; on a failure
/// status the standard-error bytes decode to the diagnostic carried by
/// [`Error::Rustfmt`]; bytes that are not valid text are a conversion error.
pub fn classify_output(exit_success: bool, stdout: Vec<u8>, stderr: Vec<u8>) -> (r: Result<
    String,
    Error,
>)
    ensures
        exit_success && utf8_decode(stdout@) is Some ==> (r matches Ok(t) && t@ == utf8_decode(
            stdout@,
        )->0),
        exit_success && utf8_decode(stdout@) is None ==> r == Result::<String, Error>::Err(
            Error::Conversion,
        ),
        !exit_success && utf8_decode(stderr@) is Some ==> (r matches Err(Error::Rustfmt(m))
            && m@ == utf8_decode(stderr@)->0),
        !exit_success && utf8_decode(stderr@) is None ==> r == Result::<String, Error>::Err(
            Error::Conversion,
        ),
{
    if exit_success {
        match decode_utf8(stdout) {
            Some(t) => Ok(t),
            None => Err(Error::Conversion),
        }
    } else {
        match decode_utf8(stderr) {
            Some(d) => Err(Error::Rustfmt(d)),
            None => Err(Error::Conversion),
        }
    }
}

/// Classifies a failure to launch the resolved executable: a missing
/// executable means the tool is not installed; anything else is a transport
/// failure carrying the system message.
pub fn launch_failure(not_found: bool, message: String) -> (e: Error)
    ensures
        e == if not_found {
            Error::NoRustfmt
        } else {
            (Error::IO(message))
        },
{
    if not_found {
        Error::NoRustfmt
    } else {
        Error::IO(message)
    }
}

} // verus!
