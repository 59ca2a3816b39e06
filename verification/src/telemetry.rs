//! Error reporting to Sentry: the options that the environment asks for, and
//! the client that is set up once and never again.

use vstd::prelude::*;
use crate::field::text_option_view;
use crate::text::{index_of, lemma_index_of_is, lemma_index_of_none, str_eq};

verus! {

/// The variables of the environment, as names with their values.
pub type Environment = Vec<(String, String)>;

/// The views of the variables of an environment.
pub open spec fn env_view(env: Seq<(String, String)>) -> Seq<(Seq<char>, Seq<char>)> {
    Seq::new(env.len(), |i: int| (env[i].0@, env[i].1@))
}

/// The value of the first variable named `key`.
pub open spec fn env_value(env: Seq<(Seq<char>, Seq<char>)>, key: Seq<char>) -> Option<Seq<char>> {
    match index_of(crate::value::names_of(env), key) {
        Some(i) => Some(env[i].1),
        None => None,
    }
}

/// Looks a variable up in the environment.
pub fn env_get<'a>(env: &'a Vec<(String, String)>, key: &str) -> (r: Option<&'a String>)
    ensures
        match r {
            Some(v) => env_value(env_view(env@), key@) == Some(v@),
            None => env_value(env_view(env@), key@).is_none(),
        },
{
    let mut i: usize = 0;
    while i < env.len()
        invariant
            i <= env.len(),
            forall|j: int| 0 <= j < i ==> env@[j].0@ != key@,
        decreases env.len() - i,
    {
        if str_eq(env[i].0.as_str(), key) {
            proof {
                lemma_index_of_is(crate::value::names_of(env_view(env@)), key@, i as int);
            }
            return Some(&env[i].1);
        }
        i += 1;
    }
    proof {
        lemma_index_of_none(crate::value::names_of(env_view(env@)), key@);
    }
    None
}

/// What `str::trim` returns for a text: the text without the white space at
/// its two ends.
pub uninterp spec fn trimmed(text: Seq<char>) -> Seq<char>;

/// Removes the white space at the two ends of a text with `str::trim`.
#[verifier::external_body]
pub(crate) fn trim(text: &str) -> (r: String)
    ensures
        r@ == trimmed(text@),
{
    text.trim().to_string()
}

/// The setting that a value of the environment stands for, once its white
/// space at the two ends is removed: nothing where nothing is left.
pub open spec fn setting_of(trimmed_value: Option<Seq<char>>) -> Option<Seq<char>> {
    match trimmed_value {
        Some(v) => if v.len() == 0 {
            None
        } else {
            Some(v)
        },
        None => None,
    }
}

/// The setting named `key`: the value of the variable without the white space
/// at its ends, unless that leaves nothing.
pub open spec fn env_setting(env: Seq<(Seq<char>, Seq<char>)>, key: Seq<char>) -> Option<Seq<char>> {
    setting_of(
        match env_value(env, key) {
            Some(v) => Some(trimmed(v)),
            None => None,
        },
    )
}

/// Keeps a trimmed value unless it is empty.
pub fn non_empty(trimmed_value: Option<String>) -> (r: Option<String>)
    ensures
        text_option_view(r) == setting_of(text_option_view(trimmed_value)),
{
    match trimmed_value {
        Some(v) => {
            if v.as_str().unicode_len() == 0 {
                None
            } else {
                Some(v)
            }
        },
        None => None,
    }
}

/// Reads a setting from the environment.
pub fn get_env_value(env: &Vec<(String, String)>, key: &str) -> (r: Option<String>)
    ensures
        text_option_view(r) == env_setting(env_view(env@), key@),
{
    let value = match env_get(env, key) {
        Some(v) => Some(trim(v.as_str())),
        None => None,
    };
    non_empty(value)
}

/// The first of two settings that is there.
pub open spec fn first_of(a: Option<Seq<char>>, b: Option<Seq<char>>) -> Option<Seq<char>> {
    match a {
        Some(v) => Some(v),
        None => b,
    }
}

fn or_else(a: Option<String>, b: Option<String>) -> (r: Option<String>)
    ensures
        text_option_view(r) == first_of(text_option_view(a), text_option_view(b)),
{
    match a {
        Some(v) => Some(v),
        None => b,
    }
}

/// What the Sentry client is set up with. The two rates are kept as the
/// texts that the environment gives.
#[derive(Clone, Debug, PartialEq, Eq)]
pub struct SentryOptions {
    pub dsn: String,
    pub environment: Option<String>,
    pub release: Option<String>,
    pub sample_rate: Option<String>,
    pub traces_sample_rate: Option<String>,
}

/// The view of [`SentryOptions`].
pub struct SentryOptionsView {
    pub dsn: Seq<char>,
    pub environment: Option<Seq<char>>,
    pub release: Option<Seq<char>>,
    pub sample_rate: Option<Seq<char>>,
    pub traces_sample_rate: Option<Seq<char>>,
}

impl View for SentryOptions {
    type V = SentryOptionsView;

    open spec fn view(&self) -> SentryOptionsView {
        SentryOptionsView {
            dsn: self.dsn@,
            environment: text_option_view(self.environment),
            release: text_option_view(self.release),
            sample_rate: text_option_view(self.sample_rate),
            traces_sample_rate: text_option_view(self.traces_sample_rate),
        }
    }
}

/// The options that an environment asks for: none without a DSN; each
/// setting under its `EXO_SENTRY_` name first, then under its `SENTRY_` name.
pub open spec fn options_of(env: Seq<(Seq<char>, Seq<char>)>) -> Option<SentryOptionsView> {
    match first_of(env_setting(env, "EXO_SENTRY_DSN"@), env_setting(env, "SENTRY_DSN"@)) {
        None => None,
        Some(dsn) => Some(
            SentryOptionsView {
                dsn,
                environment: first_of(
                    first_of(
                        env_setting(env, "EXO_SENTRY_ENVIRONMENT"@),
                        env_setting(env, "SENTRY_ENVIRONMENT"@),
                    ),
                    env_setting(env, "EXO_ENV"@),
                ),
                release: first_of(
                    env_setting(env, "EXO_SENTRY_RELEASE"@),
                    env_setting(env, "SENTRY_RELEASE"@),
                ),
                sample_rate: first_of(
                    env_setting(env, "EXO_SENTRY_SAMPLE_RATE"@),
                    env_setting(env, "SENTRY_SAMPLE_RATE"@),
                ),
                traces_sample_rate: first_of(
                    env_setting(env, "EXO_SENTRY_TRACES_SAMPLE_RATE"@),
                    env_setting(env, "SENTRY_TRACES_SAMPLE_RATE"@),
                ),
            },
        ),
    }
}

/// The view of optional options.
pub open spec fn options_view(o: Option<SentryOptions>) -> Option<SentryOptionsView> {
    match o {
        Some(options) => Some(options@),
        None => None,
    }
}

/// Reads the options of the client from the environment.
pub fn options_from_env(env: &Vec<(String, String)>) -> (r: Option<SentryOptions>)
    ensures
        options_view(r) == options_of(env_view(env@)),
{
    let dsn = or_else(get_env_value(env, "EXO_SENTRY_DSN"), get_env_value(env, "SENTRY_DSN"));
    let dsn = match dsn {
        Some(d) => d,
        None => {
            return None;
        },
    };
    let environment = or_else(
        or_else(
            get_env_value(env, "EXO_SENTRY_ENVIRONMENT"),
            get_env_value(env, "SENTRY_ENVIRONMENT"),
        ),
        get_env_value(env, "EXO_ENV"),
    );
    let release = or_else(
        get_env_value(env, "EXO_SENTRY_RELEASE"),
        get_env_value(env, "SENTRY_RELEASE"),
    );
    let sample_rate = or_else(
        get_env_value(env, "EXO_SENTRY_SAMPLE_RATE"),
        get_env_value(env, "SENTRY_SAMPLE_RATE"),
    );
    let traces_sample_rate = or_else(
        get_env_value(env, "EXO_SENTRY_TRACES_SAMPLE_RATE"),
        get_env_value(env, "SENTRY_TRACES_SAMPLE_RATE"),
    );
    Some(SentryOptions { dsn, environment, release, sample_rate, traces_sample_rate })
}

/// The Sentry client of the process: set up at most once.
#[derive(Debug, PartialEq, Eq)]
pub struct Sentry {
    client: Option<SentryOptions>,
}

impl View for Sentry {
    type V = Option<SentryOptionsView>;

    closed spec fn view(&self) -> Option<SentryOptionsView> {
        options_view(self.client)
    }
}

impl Sentry {
    /// The state before any client is set up.
    pub fn new() -> (r: Sentry)
        ensures
            r@.is_none(),
    {
        Sentry { client: None }
    }
}

/// Sets the client up from the environment, unless one is set up already or
/// the environment gives no DSN.
pub fn init(sentry: &mut Sentry, env: &Vec<(String, String)>)
    ensures
        final(sentry)@ == match old(sentry)@ {
            Some(options) => Some(options),
            None => options_of(env_view(env@)),
        },
{
    if sentry.client.is_some() {
        return ;
    }
    match options_from_env(env) {
        Some(options) => {
            sentry.client = Some(options);
        },
        None => {},
    }
}

/// Whether a client is set up.
pub fn enabled(sentry: &Sentry) -> (r: bool)
    ensures
        r == sentry@.is_some(),
{
    sentry.client.is_some()
}

/// A client that is set up stays as it is, whatever the environment says later.
pub proof fn lemma_set_up_once(
    before: Option<SentryOptionsView>,
    env: Seq<(Seq<char>, Seq<char>)>,
)
    requires
        before is Some,
    ensures
        (match before {
            Some(options) => Some(options),
            None => options_of(env),
        }) == before,
{
}

} // verus!
