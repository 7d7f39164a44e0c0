//! Which trace filter the library installs.
//!
//! Verbose tracing is asked for through an environment variable of the
//! library's own. The host reads the environment and installs the filter;
//! what is installed is decided here.

use vstd::prelude::*;
use vstd::string::StringSliceAdditionalSpecFns;
use vstd::utf8::is_ascii_chars;

verus! {

/// The environment variable that asks the library for traces.
pub const FLUTTER_RUST_EMBEDDER_LOG_ENV_VAR: &'static str = "FLUTTER_RUST_EMBEDDER_LOG";

/// The filter to install, and whether to say so in the trace.
#[derive(Clone, Debug, PartialEq, Eq)]
pub struct TracingSetup {
    /// The directives of the filter. Without directives nothing is traced.
    pub directives: Option<String>,
    /// Tracing was asked for, which the first trace event is to say.
    pub announce: bool,
}

/// Whether `tracing_subscriber::EnvFilter::try_new` takes the directives.
pub uninterp spec fn env_filter_accepts(directives: Seq<char>) -> bool;

/// The directives are plain: every character is ASCII, and none opens a
/// match on the fields of a span.
pub open spec fn plain_directives(directives: Seq<char>) -> bool {
    &&& is_ascii_chars(directives)
    &&& forall|i: int| 0 <= i < directives.len() ==> directives[i] != '{'
}

/// The library takes the directives: they are plain and make a filter.
pub open spec fn accepts(directives: Seq<char>) -> bool {
    plain_directives(directives) && env_filter_accepts(directives)
}

/// Calls `tracing_subscriber::EnvFilter::try_new`. Trusted: whether it
/// returns a filter depends on the text of the directives alone.
///
/// Plain directives only are handed to it. On a text with a character
/// outside ASCII behind leading white space it cuts the text inside a
/// character and panics, and for a match on a span's fields it compiles a
/// regular expression of any size.
#[verifier::external_body]
fn parses_as_filter(directives: &str) -> (accepted: bool)
    requires
        plain_directives(directives@),
    ensures
        accepted == env_filter_accepts(directives@),
{
    tracing_subscriber::EnvFilter::try_new(directives).is_ok()
}

/// The directives to install, given what the two variables hold and
/// whether each makes a filter.
///
/// Without the library's variable nothing is traced. With it, the
/// directives of the general variable are installed if they make a filter,
/// else those of the library's variable if they do, else none.
pub open spec fn filter_choice(
    embedder_log: Option<Seq<char>>,
    rust_log: Option<Seq<char>>,
    rust_log_accepted: bool,
    embedder_log_accepted: bool,
) -> Option<Seq<char>> {
    match embedder_log {
        None => None,
        Some(own) => match rust_log {
            Some(general) if rust_log_accepted => Some(general),
            _ => if embedder_log_accepted {
                Some(own)
            } else {
                None
            },
        },
    }
}

/// `setup` installs `choice` and announces tracing exactly if the library's
/// variable is set.
pub open spec fn installs(
    setup: TracingSetup,
    choice: Option<Seq<char>>,
    embedder_log: Option<String>,
) -> bool {
    &&& setup.announce == embedder_log.is_some()
    &&& match (setup.directives, choice) {
        (Some(installed), Some(chosen)) => installed@ == chosen,
        (None, None) => true,
        _ => false,
    }
}

/// Chooses the filter, given what the library's variable and the general
/// one hold and whether the directives of each make a filter.
pub fn choose_filter(
    embedder_log: Option<String>,
    rust_log: Option<String>,
    rust_log_accepted: bool,
    embedder_log_accepted: bool,
) -> (setup: TracingSetup)
    ensures
        installs(
            setup,
            filter_choice(
                match embedder_log {
                    Some(own) => Some(own@),
                    None => None,
                },
                match rust_log {
                    Some(general) => Some(general@),
                    None => None,
                },
                rust_log_accepted,
                embedder_log_accepted,
            ),
            embedder_log,
        ),
{
    match embedder_log {
        None => TracingSetup { directives: None, announce: false },
        Some(own) => {
            let directives = match rust_log {
                Some(general) if rust_log_accepted => Some(general),
                _ => if embedder_log_accepted {
                    Some(own)
                } else {
                    None
                },
            };
            TracingSetup { directives, announce: true }
        },
    }
}

/// Whether the directives are plain.
pub fn is_plain(directives: &str) -> (plain: bool)
    ensures
        plain == plain_directives(directives@),
{
    if !directives.is_ascii() {
        return false;
    }
    proof {
        vstd::utf8::is_ascii_chars_encode_utf8(directives@);
    }
    let bytes = directives.as_bytes();
    let mut i: usize = 0;
    while i < bytes.len()
        invariant
            i <= bytes.len(),
            is_ascii_chars(directives@),
            bytes@ == directives.spec_bytes(),
            bytes@.len() == directives@.len(),
            forall|j: int| 0 <= j < bytes.len() ==> directives@[j] as u8 == #[trigger] bytes[j],
            forall|j: int| 0 <= j < i ==> directives@[j] != '{',
        decreases bytes.len() - i,
    {
        if bytes[i] == 0x7b {
            proof {
                assert(directives@[i as int] as u8 == bytes[i as int]);
                assert(directives@[i as int] == '{');
            }
            return false;
        }
        proof {
            assert(directives@[i as int] as u8 == bytes[i as int]);
        }
        i += 1;
    }
    true
}

/// Whether the library takes what a variable holds as directives.
fn takes(value: &Option<String>) -> (taken: bool)
    ensures
        taken == (value matches Some(directives) && accepts(directives@)),
{
    match value {
        Some(directives) => is_plain(directives.as_str()) && parses_as_filter(directives.as_str()),
        None => false,
    }
}

/// Decides which trace filter to install, given what the library's
/// variable and the general one, `RUST_LOG`, hold.
///
/// Without the library's variable nothing is traced. With it, the
/// directives of `RUST_LOG` are installed if the library takes them, else
/// those of the library's variable if it takes them, else none. The library
/// takes plain directives that make a filter.
pub fn init_tracing(embedder_log: Option<String>, rust_log: Option<String>) -> (setup:
    TracingSetup)
    ensures
        installs(
            setup,
            filter_choice(
                match embedder_log {
                    Some(own) => Some(own@),
                    None => None,
                },
                match rust_log {
                    Some(general) => Some(general@),
                    None => None,
                },
                rust_log matches Some(general) && accepts(general@),
                embedder_log matches Some(own) && accepts(own@),
            ),
            embedder_log,
        ),
        embedder_log.is_none() ==> setup.directives.is_none() && !setup.announce,
{
    let rust_log_accepted = takes(&rust_log);
    let embedder_log_accepted = takes(&embedder_log);
    choose_filter(embedder_log, rust_log, rust_log_accepted, embedder_log_accepted)
}

} // verus!
