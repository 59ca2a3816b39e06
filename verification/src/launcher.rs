//! Launching a database server for the time of a test run: which
//! installation is tried first, what is tried when it fails, and what is
//! reported when nothing works.

use vstd::prelude::*;
use vstd::string::*;
use crate::text::{concat2, concat3, str_eq};

verus! {

/// An error of setting up a test database.
#[derive(Clone, Debug, PartialEq, Eq)]
pub enum EphemeralDatabaseSetupError {
    Generic(String),
}

impl View for EphemeralDatabaseSetupError {
    type V = Seq<char>;

    open spec fn view(&self) -> Seq<char> {
        match self {
            EphemeralDatabaseSetupError::Generic(m) => m@,
        }
    }
}

impl EphemeralDatabaseSetupError {
    /// The text of the error.
    pub fn message(&self) -> (r: String)
        ensures
            r@ == self@,
    {
        match self {
            EphemeralDatabaseSetupError::Generic(m) => m.clone(),
        }
    }
}

/// A database that lives for the time of a test.
pub trait EphemeralDatabase {
    /// The URL to connect to the database by.
    fn url(&self) -> String;
}

/// A database server that can make databases for tests.
pub trait EphemeralDatabaseServer {
    type Database: EphemeralDatabase;

    /// Creates a database of the given name on the server.
    fn create_database(&self, name: &str) -> Result<Self::Database, EphemeralDatabaseSetupError>;

    /// Frees what the server holds.
    fn cleanup(&self);
}

/// Which installation of the database server a launcher uses.
#[derive(Clone, Copy, Debug, PartialEq, Eq, Structural)]
pub enum EphemeralDatabaseLaunchPreference {
    PreferLocal,
    PreferDocker,
    LocalOnly,
    DockerOnly,
}

pub const EXO_SQL_EPHEMERAL_DATABASE_LAUNCH_PREFERENCE: &'static str =
    "EXO_SQL_EPHEMERAL_DATABASE_LAUNCH_PREFERENCE";

/// What the launcher asks to be done next.
#[derive(Clone, Debug, PartialEq, Eq)]
pub enum LaunchAction {
    /// Find out whether the local installation has the vector extension.
    ProbePgvector,
    /// Find out whether a local installation can be used.
    CheckLocal,
    /// Start the local server.
    StartLocal,
    /// Find out whether Docker can be used.
    CheckDocker,
    /// Start the server in Docker.
    StartDocker,
    /// The server that was started last is the one to use.
    Use,
    /// No server could be started.
    Fail(EphemeralDatabaseSetupError),
}

/// The view of a [`LaunchAction`].
pub enum LaunchActionView {
    ProbePgvector,
    CheckLocal,
    StartLocal,
    CheckDocker,
    StartDocker,
    Use,
    Fail(Seq<char>),
}

impl View for LaunchAction {
    type V = LaunchActionView;

    open spec fn view(&self) -> LaunchActionView {
        match self {
            LaunchAction::ProbePgvector => LaunchActionView::ProbePgvector,
            LaunchAction::CheckLocal => LaunchActionView::CheckLocal,
            LaunchAction::StartLocal => LaunchActionView::StartLocal,
            LaunchAction::CheckDocker => LaunchActionView::CheckDocker,
            LaunchAction::StartDocker => LaunchActionView::StartDocker,
            LaunchAction::Use => LaunchActionView::Use,
            LaunchAction::Fail(e) => LaunchActionView::Fail(e@),
        }
    }
}

/// What came of the action that the launcher asked for.
#[derive(Debug, PartialEq, Eq)]
pub enum LaunchEvent {
    /// Nothing was asked yet.
    Begin,
    /// The probe for the vector extension ended.
    Pgvector(Result<bool, String>),
    /// The check of an installation ended: whether it can be used.
    Available(bool),
    /// The start of a server ended.
    Started(Result<(), String>),
}

/// The view of a [`LaunchEvent`].
pub enum LaunchEventView {
    Begin,
    Pgvector(Result<bool, Seq<char>>),
    Available(bool),
    Started(Result<(), Seq<char>>),
}

impl View for LaunchEvent {
    type V = LaunchEventView;

    open spec fn view(&self) -> LaunchEventView {
        match self {
            LaunchEvent::Begin => LaunchEventView::Begin,
            LaunchEvent::Pgvector(r) => LaunchEventView::Pgvector(
                match r {
                    Ok(b) => Ok(*b),
                    Err(e) => Err(e@),
                },
            ),
            LaunchEvent::Available(b) => LaunchEventView::Available(*b),
            LaunchEvent::Started(r) => LaunchEventView::Started(
                match r {
                    Ok(_) => Ok(()),
                    Err(e) => Err(e@),
                },
            ),
        }
    }
}

/// Where a launch stands.
#[derive(Clone, Debug, PartialEq, Eq)]
pub enum LaunchState {
    /// Nothing was asked yet.
    Initial,
    /// The probe for the vector extension is awaited.
    ProbingPgvector,
    /// The check of the local installation is awaited.
    CheckingLocal,
    /// The start of the local server is awaited.
    StartingLocal,
    /// The check of Docker is awaited; `local_error` says why the local
    /// installation was given up, where it was tried before.
    CheckingDocker { local_error: Option<String> },
    /// The start of the server in Docker is awaited.
    StartingDocker { local_error: Option<String> },
    /// The launch has ended.
    Finished,
}

/// The view of a [`LaunchState`].
pub enum LaunchStateView {
    Initial,
    ProbingPgvector,
    CheckingLocal,
    StartingLocal,
    CheckingDocker { local_error: Option<Seq<char>> },
    StartingDocker { local_error: Option<Seq<char>> },
    Finished,
}

impl View for LaunchState {
    type V = LaunchStateView;

    open spec fn view(&self) -> LaunchStateView {
        match self {
            LaunchState::Initial => LaunchStateView::Initial,
            LaunchState::ProbingPgvector => LaunchStateView::ProbingPgvector,
            LaunchState::CheckingLocal => LaunchStateView::CheckingLocal,
            LaunchState::StartingLocal => LaunchStateView::StartingLocal,
            LaunchState::CheckingDocker { local_error } => LaunchStateView::CheckingDocker {
                local_error: crate::field::text_option_view(*local_error),
            },
            LaunchState::StartingDocker { local_error } => LaunchStateView::StartingDocker {
                local_error: crate::field::text_option_view(*local_error),
            },
            LaunchState::Finished => LaunchStateView::Finished,
        }
    }
}

/// The launch ends in failure with the given message.
pub open spec fn failed(message: Seq<char>) -> (LaunchStateView, LaunchActionView) {
    (LaunchStateView::Finished, LaunchActionView::Fail(message))
}

/// What follows when the local installation cannot be used for the reason
/// `fallback_reason`: a launcher that prefers it goes on to Docker and keeps the
/// reason; any other reports `report`.
pub open spec fn after_local_failure(
    preference: EphemeralDatabaseLaunchPreference,
    fallback_reason: Seq<char>,
    report: Seq<char>,
) -> (LaunchStateView, LaunchActionView) {
    if preference == EphemeralDatabaseLaunchPreference::PreferLocal {
        (
            LaunchStateView::CheckingDocker { local_error: Some(fallback_reason) },
            LaunchActionView::CheckDocker,
        )
    } else {
        failed(report)
    }
}

/// What follows when Docker cannot be used for the reason `docker_error`: a
/// launcher that prefers Docker goes on to the local installation; one that
/// tried the local installation before reports both failures; any other
/// reports the reason.
pub open spec fn after_docker_failure(
    preference: EphemeralDatabaseLaunchPreference,
    local_error: Option<Seq<char>>,
    docker_error: Seq<char>,
) -> (LaunchStateView, LaunchActionView) {
    if preference == EphemeralDatabaseLaunchPreference::PreferDocker {
        (LaunchStateView::ProbingPgvector, LaunchActionView::ProbePgvector)
    } else {
        match local_error {
            Some(local) => failed(
                local + ". Additionally, failed to launch Docker PostgreSQL: "@ + docker_error,
            ),
            None => failed(docker_error),
        }
    }
}

pub open spec fn local_unavailable() -> Seq<char> {
    "Local PostgreSQL is not available"@
}

pub open spec fn docker_unavailable() -> Seq<char> {
    "Docker PostgreSQL is not available"@
}

pub open spec fn local_launch_failed(reason: Seq<char>) -> Seq<char> {
    "Failed to launch local PostgreSQL instance: "@ + reason
}

pub open spec fn no_pgvector() -> Seq<char> {
    "Local PostgreSQL installation does not include the pgvector extension"@
}

pub open spec fn no_pgvector_advice() -> Seq<char> {
    "Local PostgreSQL installation does not include the pgvector extension. Install the extension or set EXO_SQL_EPHEMERAL_DATABASE_LAUNCH_PREFERENCE=docker-only."@
}

pub open spec fn probe_failed(reason: Seq<char>) -> Seq<char> {
    "Failed to verify pgvector support: "@ + reason
}

pub open spec fn probe_failed_local(reason: Seq<char>) -> Seq<char> {
    "Failed to verify pgvector support for local PostgreSQL installation: "@ + reason
}

pub open spec fn unexpected_event() -> Seq<char> {
    "Unexpected event for the state of the launch"@
}

/// The next state of a launch and the action to take, given the state and
/// what came of the last action.
///
/// A launcher that prefers or demands the local installation starts by probing
/// it for the vector extension; the local server is started only where the
/// probe found the extension and the installation can be used. A launcher
/// that prefers or demands Docker starts by checking Docker. A preference
/// falls back to the other installation when the first fails; a demand reports
/// the failure.
pub open spec fn launch_step(
    preference: EphemeralDatabaseLaunchPreference,
    state: LaunchStateView,
    event: LaunchEventView,
) -> (LaunchStateView, LaunchActionView) {
    match (state, event) {
        (LaunchStateView::Initial, LaunchEventView::Begin) => match preference {
            EphemeralDatabaseLaunchPreference::PreferLocal => (
                LaunchStateView::ProbingPgvector,
                LaunchActionView::ProbePgvector,
            ),
            EphemeralDatabaseLaunchPreference::LocalOnly => (
                LaunchStateView::ProbingPgvector,
                LaunchActionView::ProbePgvector,
            ),
            _ => (
                LaunchStateView::CheckingDocker { local_error: None },
                LaunchActionView::CheckDocker,
            ),
        },
        (LaunchStateView::ProbingPgvector, LaunchEventView::Pgvector(Ok(true))) => (
            LaunchStateView::CheckingLocal,
            LaunchActionView::CheckLocal,
        ),
        (LaunchStateView::ProbingPgvector, LaunchEventView::Pgvector(Ok(false))) => {
            after_local_failure(preference, no_pgvector(), no_pgvector_advice())
        },
        (LaunchStateView::ProbingPgvector, LaunchEventView::Pgvector(Err(e))) => {
            after_local_failure(preference, probe_failed(e), probe_failed_local(e))
        },
        (LaunchStateView::CheckingLocal, LaunchEventView::Available(true)) => (
            LaunchStateView::StartingLocal,
            LaunchActionView::StartLocal,
        ),
        (LaunchStateView::CheckingLocal, LaunchEventView::Available(false)) => {
            after_local_failure(
                preference,
                local_launch_failed(local_unavailable()),
                local_unavailable(),
            )
        },
        (LaunchStateView::StartingLocal, LaunchEventView::Started(Ok(_))) => (
            LaunchStateView::Finished,
            LaunchActionView::Use,
        ),
        (LaunchStateView::StartingLocal, LaunchEventView::Started(Err(e))) => {
            after_local_failure(preference, local_launch_failed(e), e)
        },
        (LaunchStateView::CheckingDocker { local_error }, LaunchEventView::Available(true)) => (
            LaunchStateView::StartingDocker { local_error },
            LaunchActionView::StartDocker,
        ),
        (LaunchStateView::CheckingDocker { local_error }, LaunchEventView::Available(false)) => {
            after_docker_failure(preference, local_error, docker_unavailable())
        },
        (LaunchStateView::StartingDocker { .. }, LaunchEventView::Started(Ok(_))) => (
            LaunchStateView::Finished,
            LaunchActionView::Use,
        ),
        (LaunchStateView::StartingDocker { local_error }, LaunchEventView::Started(Err(e))) => {
            after_docker_failure(preference, local_error, e)
        },
        _ => failed(unexpected_event()),
    }
}

/// Launches a database server for tests, from a local installation or in Docker.
#[derive(Clone, Copy, Debug, PartialEq, Eq, Structural)]
pub struct EphemeralDatabaseLauncher {
    pub preference: EphemeralDatabaseLaunchPreference,
}

/// The preference that a setting names; the local installation is preferred
/// where the setting is missing or names none.
pub open spec fn preference_named(value: Option<Seq<char>>) -> EphemeralDatabaseLaunchPreference {
    match value {
        Some(v) => if v == "prefer-docker"@ {
            EphemeralDatabaseLaunchPreference::PreferDocker
        } else if v == "local-only"@ {
            EphemeralDatabaseLaunchPreference::LocalOnly
        } else if v == "docker-only"@ {
            EphemeralDatabaseLaunchPreference::DockerOnly
        } else {
            EphemeralDatabaseLaunchPreference::PreferLocal
        },
        None => EphemeralDatabaseLaunchPreference::PreferLocal,
    }
}

fn fail(message: String) -> (r: (LaunchState, LaunchAction))
    ensures
        (r.0@, r.1@) == failed(message@),
{
    (LaunchState::Finished, LaunchAction::Fail(EphemeralDatabaseSetupError::Generic(message)))
}

impl EphemeralDatabaseLauncher {
    /// The launcher for the value of
    /// `EXO_SQL_EPHEMERAL_DATABASE_LAUNCH_PREFERENCE`, given where it is set.
    pub fn from_env(value: Option<&str>) -> (r: EphemeralDatabaseLauncher)
        ensures
            r.preference == preference_named(
                match value {
                    Some(v) => Some(v@),
                    None => None,
                },
            ),
    {
        let preference = match value {
            Some(v) => {
                if str_eq(v, "prefer-docker") {
                    EphemeralDatabaseLaunchPreference::PreferDocker
                } else if str_eq(v, "local-only") {
                    EphemeralDatabaseLaunchPreference::LocalOnly
                } else if str_eq(v, "docker-only") {
                    EphemeralDatabaseLaunchPreference::DockerOnly
                } else {
                    EphemeralDatabaseLaunchPreference::PreferLocal
                }
            },
            None => EphemeralDatabaseLaunchPreference::PreferLocal,
        };
        EphemeralDatabaseLauncher { preference }
    }

    fn local_failure(&self, fallback_reason: String, report: String) -> (r: (
        LaunchState,
        LaunchAction,
    ))
        ensures
            (r.0@, r.1@) == after_local_failure(self.preference, fallback_reason@, report@),
    {
        match self.preference {
            EphemeralDatabaseLaunchPreference::PreferLocal => (
                LaunchState::CheckingDocker { local_error: Some(fallback_reason) },
                LaunchAction::CheckDocker,
            ),
            _ => fail(report),
        }
    }

    fn docker_failure(&self, local_error: Option<String>, docker_error: String) -> (r: (
        LaunchState,
        LaunchAction,
    ))
        ensures
            (r.0@, r.1@) == after_docker_failure(
                self.preference,
                crate::field::text_option_view(local_error),
                docker_error@,
            ),
    {
        match self.preference {
            EphemeralDatabaseLaunchPreference::PreferDocker => (
                LaunchState::ProbingPgvector,
                LaunchAction::ProbePgvector,
            ),
            _ => match local_error {
                Some(local) => fail(
                    concat3(
                        local.as_str(),
                        ". Additionally, failed to launch Docker PostgreSQL: ",
                        docker_error.as_str(),
                    ),
                ),
                None => fail(docker_error),
            },
        }
    }

    /// Takes one step of creating the local server: it is started where the
    /// installation can be used.
    pub fn create_local_server(&self, state: LaunchState, event: LaunchEvent) -> (r: (
        LaunchState,
        LaunchAction,
    ))
        requires
            state@ is CheckingLocal || state@ is StartingLocal,
        ensures
            (r.0@, r.1@) == launch_step(self.preference, state@, event@),
    {
        match (state, event) {
            (LaunchState::CheckingLocal, LaunchEvent::Available(true)) => (
                LaunchState::StartingLocal,
                LaunchAction::StartLocal,
            ),
            (LaunchState::CheckingLocal, LaunchEvent::Available(false)) => {
                self.local_failure(
                    concat2(
                        "Failed to launch local PostgreSQL instance: ",
                        "Local PostgreSQL is not available",
                    ),
                    "Local PostgreSQL is not available".to_owned(),
                )
            },
            (LaunchState::StartingLocal, LaunchEvent::Started(Ok(_))) => (
                LaunchState::Finished,
                LaunchAction::Use,
            ),
            (LaunchState::StartingLocal, LaunchEvent::Started(Err(e))) => {
                self.local_failure(
                    concat2("Failed to launch local PostgreSQL instance: ", e.as_str()),
                    e,
                )
            },
            _ => fail("Unexpected event for the state of the launch".to_owned()),
        }
    }

    /// Takes one step of creating the server in Docker: it is started where
    /// Docker can be used.
    pub fn create_docker_server(&self, state: LaunchState, event: LaunchEvent) -> (r: (
        LaunchState,
        LaunchAction,
    ))
        requires
            state@ is CheckingDocker || state@ is StartingDocker,
        ensures
            (r.0@, r.1@) == launch_step(self.preference, state@, event@),
    {
        match (state, event) {
            (LaunchState::CheckingDocker { local_error }, LaunchEvent::Available(true)) => (
                LaunchState::StartingDocker { local_error },
                LaunchAction::StartDocker,
            ),
            (LaunchState::CheckingDocker { local_error }, LaunchEvent::Available(false)) => {
                self.docker_failure(local_error, "Docker PostgreSQL is not available".to_owned())
            },
            (LaunchState::StartingDocker { .. }, LaunchEvent::Started(Ok(_))) => (
                LaunchState::Finished,
                LaunchAction::Use,
            ),
            (LaunchState::StartingDocker { local_error }, LaunchEvent::Started(Err(e))) => {
                self.docker_failure(local_error, e)
            },
            _ => fail("Unexpected event for the state of the launch".to_owned()),
        }
    }

    /// Takes one step of creating a database server: given where the launch
    /// stands and what came of the last action, says where it stands now and
    /// what to do next. A launch begins in `Initial` with `Begin` and ends
    /// with `Use` or `Fail`.
    pub fn create_server(&self, state: LaunchState, event: LaunchEvent) -> (r: (
        LaunchState,
        LaunchAction,
    ))
        ensures
            (r.0@, r.1@) == launch_step(self.preference, state@, event@),
    {
        match state {
            LaunchState::CheckingLocal | LaunchState::StartingLocal => {
                return self.create_local_server(state, event);
            },
            LaunchState::CheckingDocker { .. } | LaunchState::StartingDocker { .. } => {
                return self.create_docker_server(state, event);
            },
            _ => {},
        }
        match (state, event) {
            (LaunchState::Initial, LaunchEvent::Begin) => match self.preference {
                EphemeralDatabaseLaunchPreference::PreferLocal => (
                    LaunchState::ProbingPgvector,
                    LaunchAction::ProbePgvector,
                ),
                EphemeralDatabaseLaunchPreference::LocalOnly => (
                    LaunchState::ProbingPgvector,
                    LaunchAction::ProbePgvector,
                ),
                _ => (LaunchState::CheckingDocker { local_error: None }, LaunchAction::CheckDocker),
            },
            (LaunchState::ProbingPgvector, LaunchEvent::Pgvector(Ok(true))) => (
                LaunchState::CheckingLocal,
                LaunchAction::CheckLocal,
            ),
            (LaunchState::ProbingPgvector, LaunchEvent::Pgvector(Ok(false))) => {
                self.local_failure(
                    "Local PostgreSQL installation does not include the pgvector extension".to_owned(),
                    "Local PostgreSQL installation does not include the pgvector extension. Install the extension or set EXO_SQL_EPHEMERAL_DATABASE_LAUNCH_PREFERENCE=docker-only.".to_owned(),
                )
            },
            (LaunchState::ProbingPgvector, LaunchEvent::Pgvector(Err(e))) => {
                self.local_failure(
                    concat2("Failed to verify pgvector support: ", e.as_str()),
                    concat2(
                        "Failed to verify pgvector support for local PostgreSQL installation: ",
                        e.as_str(),
                    ),
                )
            },
            _ => fail("Unexpected event for the state of the launch".to_owned()),
        }
    }
}

/// Whether an action touches the local installation.
pub open spec fn is_local_action(a: LaunchActionView) -> bool {
    a is ProbePgvector || a is CheckLocal || a is StartLocal
}

/// Whether an action touches Docker.
pub open spec fn is_docker_action(a: LaunchActionView) -> bool {
    a is CheckDocker || a is StartDocker
}

/// Whether a state awaits something of the local installation.
pub open spec fn is_local_state(s: LaunchStateView) -> bool {
    s is ProbingPgvector || s is CheckingLocal || s is StartingLocal
}

/// Whether a state awaits something of Docker.
pub open spec fn is_docker_state(s: LaunchStateView) -> bool {
    s is CheckingDocker || s is StartingDocker
}

/// A launcher that demands Docker never touches the local installation: from
/// a state that awaits nothing local it asks for nothing local, and comes to
/// no state that awaits something local.
pub proof fn lemma_docker_only_stays_off_local(state: LaunchStateView, event: LaunchEventView)
    requires
        !is_local_state(state),
    ensures
        !is_local_action(launch_step(EphemeralDatabaseLaunchPreference::DockerOnly, state, event).1),
        !is_local_state(launch_step(EphemeralDatabaseLaunchPreference::DockerOnly, state, event).0),
{
}

/// A launcher that demands the local installation never touches Docker.
pub proof fn lemma_local_only_stays_off_docker(state: LaunchStateView, event: LaunchEventView)
    requires
        !is_docker_state(state),
    ensures
        !is_docker_action(launch_step(EphemeralDatabaseLaunchPreference::LocalOnly, state, event).1),
        !is_docker_state(launch_step(EphemeralDatabaseLaunchPreference::LocalOnly, state, event).0),
{
}

/// A server is used only right after its start succeeded, and the local
/// server is started only after the probe found the vector extension and the
/// installation was found usable.
pub proof fn lemma_use_follows_start(
    preference: EphemeralDatabaseLaunchPreference,
    state: LaunchStateView,
    event: LaunchEventView,
)
    ensures
        launch_step(preference, state, event).1 is Use ==> (state is StartingLocal
            || state is StartingDocker) && event is Started && event->Started_0 is Ok,
        launch_step(preference, state, event).1 is StartLocal ==> state is CheckingLocal && event
            == LaunchEventView::Available(true),
        launch_step(preference, state, event).1 is CheckLocal ==> state is ProbingPgvector && event
            == LaunchEventView::Pgvector(Ok(true)),
{
}

/// Once a launch has ended, every further event is refused.
pub proof fn lemma_finished_is_final(
    preference: EphemeralDatabaseLaunchPreference,
    event: LaunchEventView,
)
    ensures
        launch_step(preference, LaunchStateView::Finished, event) == failed(unexpected_event()),
{
}

/// The characters that the names of test databases are made of.
pub const NAME_ALPHABET: &'static str = "abcdefghijklmnopqrstuvwxyz0123456789";

/// Whether a byte is an ASCII letter or digit.
pub open spec fn is_alphanumeric(b: u8) -> bool {
    (65 <= b <= 90) || (97 <= b <= 122) || (48 <= b <= 57)
}

/// The position in the alphabet of the lower-case form of a letter or of a digit.
pub open spec fn symbol_index(b: u8) -> int {
    if 65 <= b <= 90 {
        b - 65
    } else if 97 <= b <= 122 {
        b - 97
    } else {
        26 + (b - 48)
    }
}

/// The character that a drawn byte gives: the letter in lower case, or the digit.
pub open spec fn symbol(b: u8) -> char {
    NAME_ALPHABET@[symbol_index(b)]
}

/// The name that a list of drawn bytes gives.
pub open spec fn name_of(samples: Seq<u8>) -> Seq<char> {
    Seq::new(samples.len(), |i: int| symbol(samples[i]))
}

/// Draws a letter or a digit with `rand::distr::Alphanumeric` on the
/// generator of the thread. Nothing but its kind is known of the byte drawn.
#[verifier::external_body]
fn sample_alphanumeric() -> (r: u8)
    ensures
        is_alphanumeric(r),
{
    rand::Rng::sample(&mut rand::rng(), rand::distr::Alphanumeric)
}

/// Makes a name from drawn letters and digits: each letter in lower case.
pub fn name_from_samples(samples: &Vec<u8>) -> (r: String)
    requires
        forall|i: int| 0 <= i < samples@.len() ==> is_alphanumeric(#[trigger] samples@[i]),
    ensures
        r@ == name_of(samples@),
{
    let alphabet = NAME_ALPHABET;
    proof {
        reveal_strlit("abcdefghijklmnopqrstuvwxyz0123456789");
    }
    let mut out = String::new();
    let mut i: usize = 0;
    while i < samples.len()
        invariant
            i <= samples.len(),
            alphabet@ == NAME_ALPHABET@,
            alphabet@.len() == 36,
            alphabet.is_ascii(),
            forall|k: int| 0 <= k < samples@.len() ==> is_alphanumeric(#[trigger] samples@[k]),
            out@ == name_of(samples@.take(i as int)),
        decreases samples.len() - i,
    {
        let b = samples[i];
        let index: usize = if b >= 65 && b <= 90 {
            (b - 65) as usize
        } else if b >= 97 && b <= 122 {
            (b - 97) as usize
        } else {
            26 + (b - 48) as usize
        };
        let ghost before = out@;
        out.append(alphabet.substring_ascii(index, index + 1));
        proof {
            assert(alphabet@.subrange(index as int, index + 1) =~= seq![symbol(b)]);
            assert(out@ =~= name_of(samples@.take(i + 1)));
        }
        i += 1;
    }
    proof {
        assert(samples@.take(i as int) =~= samples@);
    }
    out
}

/// Makes a random name of 15 lower-case letters and digits.
pub fn generate_random_string() -> (r: String)
    ensures
        r@.len() == 15,
        forall|i: int| 0 <= i < 15 ==> NAME_ALPHABET@.contains(#[trigger] r@[i]),
{
    let mut samples: Vec<u8> = Vec::new();
    while samples.len() < 15
        invariant
            samples@.len() <= 15,
            forall|i: int| 0 <= i < samples@.len() ==> is_alphanumeric(#[trigger] samples@[i]),
        decreases 15 - samples.len(),
    {
        samples.push(sample_alphanumeric());
    }
    let r = name_from_samples(&samples);
    proof {
        reveal_strlit("abcdefghijklmnopqrstuvwxyz0123456789");
        assert forall|i: int| 0 <= i < 15 implies NAME_ALPHABET@.contains(#[trigger] r@[i]) by {
            assert(is_alphanumeric(samples@[i]));
            assert(r@[i] == NAME_ALPHABET@[symbol_index(samples@[i])]);
        }
    }
    r
}

} // verus!
