//! Session identity: which of the available sources names the calling work
//! session, and the identifier that is made up when none does.

use crate::decimal::{
    append_decimal, decimal_text, is_digit, lemma_decimal_text_injective,
    lemma_decimal_text_is_digits,
};
use vstd::prelude::*;

verus! {

/// The name of the environment variable dedicated to session identity.
pub const SESSION_VARIABLE: &'static str = "CUNZHI_SESSION_ID";

/// The name of the environment variable for the present working directory.
pub const DIRECTORY_VARIABLE: &'static str = "PWD";

/// What the resolver does when no source names the session.
#[derive(Clone, Copy, Debug, PartialEq, Eq, Structural)]
pub enum FallbackPolicy {
    /// The session stays unnamed.
    Minimal,
    /// An identifier is made up from the clock and the process identifier.
    Enhanced,
}

/// The source that a session identifier was taken from.
#[derive(Clone, Copy, Debug, PartialEq, Eq, Structural)]
pub enum SessionOrigin {
    /// The caller's explicit override.
    Explicit,
    /// The environment variable dedicated to session identity.
    SessionVariable,
    /// The environment variable that holds the present working directory.
    DirectoryVariable,
    /// The process's current working directory.
    CurrentDirectory,
    /// Made up from the clock and the process identifier.
    Synthesized,
    /// No source named the session.
    Unresolved,
}

/// What the environment and the process say about the session, read once.
///
/// A source that is unset, or that cannot be written as text, is `None`.
#[derive(Debug, PartialEq, Eq)]
pub struct SessionSources {
    /// The value of the environment variable dedicated to session identity.
    pub session_variable: Option<String>,
    /// The value of the environment variable for the present working directory.
    pub directory_variable: Option<String>,
    /// The process's current working directory.
    pub current_directory: Option<String>,
    /// Seconds since the Unix epoch; `None` where the clock is set before it.
    pub clock_seconds: Option<u64>,
    /// The identifier of this process.
    pub process_id: u32,
}

/// The mathematical model of [`SessionSources`].
pub ghost struct SessionSourcesView {
    pub session_variable: Option<Seq<char>>,
    pub directory_variable: Option<Seq<char>>,
    pub current_directory: Option<Seq<char>>,
    pub clock_seconds: Option<nat>,
    pub process_id: nat,
}

impl View for SessionSources {
    type V = SessionSourcesView;

    open spec fn view(&self) -> SessionSourcesView {
        SessionSourcesView {
            session_variable: self.session_variable.deep_view(),
            directory_variable: self.directory_variable.deep_view(),
            current_directory: self.current_directory.deep_view(),
            clock_seconds: match self.clock_seconds {
                Some(seconds) => Some(seconds as nat),
                None => None,
            },
            process_id: self.process_id as nat,
        }
    }
}

/// Whether a source yields a session identifier: it is set, and not empty.
pub open spec fn names_session(candidate: Option<Seq<char>>) -> bool {
    candidate matches Some(text) && text.len() > 0
}

/// The made-up identifier: `session_`, the clock reading, `_pid_`, the process
/// identifier, both numbers in decimal.
pub open spec fn synthesized_session_text(seconds: nat, process_id: nat) -> Seq<char> {
    "session_"@ + decimal_text(seconds) + "_pid_"@ + decimal_text(process_id)
}

/// The source that wins: the first, in priority order, that names the session.
pub open spec fn session_origin(
    explicit: Option<Seq<char>>,
    sources: SessionSourcesView,
    policy: FallbackPolicy,
) -> SessionOrigin {
    if names_session(explicit) {
        SessionOrigin::Explicit
    } else if names_session(sources.session_variable) {
        SessionOrigin::SessionVariable
    } else if names_session(sources.directory_variable) {
        SessionOrigin::DirectoryVariable
    } else if names_session(sources.current_directory) {
        SessionOrigin::CurrentDirectory
    } else if policy == FallbackPolicy::Enhanced && sources.clock_seconds is Some {
        SessionOrigin::Synthesized
    } else {
        SessionOrigin::Unresolved
    }
}

/// The session identifier: the value of the winning source, or none.
pub open spec fn resolved_session(
    explicit: Option<Seq<char>>,
    sources: SessionSourcesView,
    policy: FallbackPolicy,
) -> Option<Seq<char>> {
    match session_origin(explicit, sources, policy) {
        SessionOrigin::Explicit => explicit,
        SessionOrigin::SessionVariable => sources.session_variable,
        SessionOrigin::DirectoryVariable => sources.directory_variable,
        SessionOrigin::CurrentDirectory => sources.current_directory,
        SessionOrigin::Synthesized => Some(
            synthesized_session_text(sources.clock_seconds->0, sources.process_id),
        ),
        SessionOrigin::Unresolved => None,
    }
}

/// The clock reading and the process identifier that a made-up identifier
/// carries.
pub open spec fn synthesized_parts(id: Seq<char>) -> (nat, nat) {
    choose|seconds: nat, process_id: nat|
        id == #[trigger] synthesized_session_text(seconds, process_id)
}

/// The clock reading that a made-up identifier carries.
pub open spec fn synthesized_seconds(id: Seq<char>) -> nat {
    synthesized_parts(id).0
}

/// The process identifier that a made-up identifier carries.
pub open spec fn synthesized_process_id(id: Seq<char>) -> nat {
    synthesized_parts(id).1
}

/// A made-up identifier is made of one clock reading and one process
/// identifier only.
pub proof fn lemma_synthesized_parts_unique(
    seconds: nat,
    process_id: nat,
    other_seconds: nat,
    other_process_id: nat,
)
    requires
        synthesized_session_text(seconds, process_id) == synthesized_session_text(
            other_seconds,
            other_process_id,
        ),
    ensures
        seconds == other_seconds,
        process_id == other_process_id,
{
    reveal_strlit("session_");
    reveal_strlit("_pid_");
    let head = "session_"@;
    let mid = "_pid_"@;
    let id = synthesized_session_text(seconds, process_id);
    let clock = decimal_text(seconds);
    let other_clock = decimal_text(other_seconds);
    let pid = decimal_text(process_id);
    let other_pid = decimal_text(other_process_id);
    lemma_decimal_text_is_digits(seconds);
    lemma_decimal_text_is_digits(other_seconds);
    assert(id == head + clock + mid + pid);
    assert(id == head + other_clock + mid + other_pid);
    assert(head.len() == 8);
    assert(mid.len() == 5);
    assert(mid[0] == '_');
    if clock.len() < other_clock.len() {
        let at = 8 + clock.len() as int;
        assert((head + clock + mid + pid)[at] == mid[0]);
        assert((head + other_clock + mid + other_pid)[at] == other_clock[clock.len() as int]);
        assert(is_digit(other_clock[clock.len() as int]));
        assert(false);
    }
    if other_clock.len() < clock.len() {
        let at = 8 + other_clock.len() as int;
        assert((head + other_clock + mid + other_pid)[at] == mid[0]);
        assert((head + clock + mid + pid)[at] == clock[other_clock.len() as int]);
        assert(is_digit(clock[other_clock.len() as int]));
        assert(false);
    }
    assert(clock =~= id.subrange(8, 8 + clock.len() as int));
    assert(other_clock =~= id.subrange(8, 8 + clock.len() as int));
    lemma_decimal_text_injective(seconds, other_seconds);
    let rest = 8 + clock.len() as int + 5;
    assert(pid =~= id.subrange(rest, id.len() as int));
    assert(other_pid =~= id.subrange(rest, id.len() as int));
    lemma_decimal_text_injective(process_id, other_process_id);
}

/// The parts read back from a made-up identifier are the parts it was made of.
pub proof fn lemma_synthesized_parts(seconds: nat, process_id: nat)
    ensures
        synthesized_seconds(synthesized_session_text(seconds, process_id)) == seconds,
        synthesized_process_id(synthesized_session_text(seconds, process_id)) == process_id,
{
    let id = synthesized_session_text(seconds, process_id);
    let read = synthesized_parts(id);
    assert(id == synthesized_session_text(read.0, read.1));
    lemma_synthesized_parts_unique(seconds, process_id, read.0, read.1);
}

fn yields_session(candidate: &Option<String>) -> (yields: bool)
    ensures
        yields == names_session(candidate.deep_view()),
{
    match candidate {
        Some(text) => !text.as_str().is_empty(),
        None => false,
    }
}

fn copy_of(candidate: &Option<String>) -> (copy: Option<String>)
    ensures
        copy.deep_view() == candidate.deep_view(),
{
    match candidate {
        Some(text) => Some(text.clone()),
        None => None,
    }
}

/// Makes up a session identifier from a clock reading and a process identifier.
pub fn synthesized_session_id(seconds: u64, process_id: u32) -> (id: String)
    ensures
        id@ == synthesized_session_text(seconds as nat, process_id as nat),
{
    let mut id: String = "session_".to_owned();
    append_decimal(&mut id, seconds);
    id.append("_pid_");
    append_decimal(&mut id, process_id as u64);
    id
}

/// Tells which source names the session, without building the identifier.
pub fn classify_session(
    explicit: &Option<String>,
    sources: &SessionSources,
    policy: FallbackPolicy,
) -> (origin: SessionOrigin)
    ensures
        origin == session_origin(explicit.deep_view(), sources@, policy),
{
    if yields_session(explicit) {
        SessionOrigin::Explicit
    } else if yields_session(&sources.session_variable) {
        SessionOrigin::SessionVariable
    } else if yields_session(&sources.directory_variable) {
        SessionOrigin::DirectoryVariable
    } else if yields_session(&sources.current_directory) {
        SessionOrigin::CurrentDirectory
    } else {
        match (policy, sources.clock_seconds) {
            (FallbackPolicy::Enhanced, Some(_)) => SessionOrigin::Synthesized,
            _ => SessionOrigin::Unresolved,
        }
    }
}

/// Resolves the session identifier: the first source, in priority order, that
/// is set and not empty wins; with none, the enhanced policy makes one up and
/// the minimal policy leaves the session unnamed.
pub fn resolve_session_id(
    explicit: &Option<String>,
    sources: &SessionSources,
    policy: FallbackPolicy,
) -> (id: Option<String>)
    ensures
        id.deep_view() == resolved_session(explicit.deep_view(), sources@, policy),
{
    match classify_session(explicit, sources, policy) {
        SessionOrigin::Explicit => copy_of(explicit),
        SessionOrigin::SessionVariable => copy_of(&sources.session_variable),
        SessionOrigin::DirectoryVariable => copy_of(&sources.directory_variable),
        SessionOrigin::CurrentDirectory => copy_of(&sources.current_directory),
        SessionOrigin::Synthesized => match sources.clock_seconds {
            Some(seconds) => Some(synthesized_session_id(seconds, sources.process_id)),
            None => None,
        },
        SessionOrigin::Unresolved => None,
    }
}

/// The explicit override always wins: where the caller names the session
/// with a text that is not empty, that text is the session identifier,
/// whatever the environment holds and under either policy.
pub proof fn lemma_explicit_override_wins(
    explicit: Seq<char>,
    sources: SessionSourcesView,
    policy: FallbackPolicy,
)
    requires
        explicit.len() > 0,
    ensures
        session_origin(Some(explicit), sources, policy) == SessionOrigin::Explicit,
        resolved_session(Some(explicit), sources, policy) == Some(explicit),
{
}

/// Without an explicit override, a dedicated session variable that is set
/// and not empty names the session, whatever the directory variable and the
/// current directory are and under either policy.
pub proof fn lemma_session_variable_wins(
    value: Seq<char>,
    sources: SessionSourcesView,
    policy: FallbackPolicy,
)
    requires
        value.len() > 0,
        sources.session_variable == Some(value),
    ensures
        session_origin(None, sources, policy) == SessionOrigin::SessionVariable,
        resolved_session(None, sources, policy) == Some(value),
{
}

/// Whether no source names the session, so that only the policy decides.
pub open spec fn nothing_names_session(
    explicit: Option<Seq<char>>,
    sources: SessionSourcesView,
) -> bool {
    &&& !names_session(explicit)
    &&& !names_session(sources.session_variable)
    &&& !names_session(sources.directory_variable)
    &&& !names_session(sources.current_directory)
}

/// Resolution never fails: where no source names the session, the minimal
/// policy leaves it unnamed, and the enhanced policy makes an identifier up
/// whenever the clock can be read.
pub proof fn lemma_unnamed_session(
    explicit: Option<Seq<char>>,
    sources: SessionSourcesView,
)
    requires
        nothing_names_session(explicit, sources),
    ensures
        resolved_session(explicit, sources, FallbackPolicy::Minimal) is None,
        sources.clock_seconds matches Some(seconds) ==> resolved_session(
            explicit,
            sources,
            FallbackPolicy::Enhanced,
        ) == Some(synthesized_session_text(seconds, sources.process_id)),
        sources.clock_seconds is None ==> resolved_session(
            explicit,
            sources,
            FallbackPolicy::Enhanced,
        ) is None,
{
}

/// Two resolutions in one process, under the enhanced policy and with no
/// source that names the session, the second at a clock reading not before
/// the first: both identifiers carry the same process identifier, their
/// clock readings are in the order of the resolutions, and within one second
/// the two identifiers are the same.
pub proof fn lemma_synthesized_sessions_of_one_process(
    explicit: Option<Seq<char>>,
    earlier: SessionSourcesView,
    later: SessionSourcesView,
)
    requires
        nothing_names_session(explicit, earlier),
        nothing_names_session(explicit, later),
        earlier.process_id == later.process_id,
        earlier.clock_seconds is Some,
        later.clock_seconds is Some,
        earlier.clock_seconds->0 <= later.clock_seconds->0,
    ensures
        ({
            let first = resolved_session(explicit, earlier, FallbackPolicy::Enhanced);
            let second = resolved_session(explicit, later, FallbackPolicy::Enhanced);
            &&& first == Some(
                synthesized_session_text(earlier.clock_seconds->0, earlier.process_id),
            )
            &&& second == Some(synthesized_session_text(later.clock_seconds->0, later.process_id))
            &&& synthesized_process_id(first->0) == synthesized_process_id(second->0)
            &&& synthesized_process_id(first->0) == earlier.process_id
            &&& synthesized_seconds(first->0) <= synthesized_seconds(second->0)
            &&& earlier.clock_seconds == later.clock_seconds ==> first == second
        }),
{
    lemma_synthesized_parts(earlier.clock_seconds->0, earlier.process_id);
    lemma_synthesized_parts(later.clock_seconds->0, later.process_id);
}

} // verus!
