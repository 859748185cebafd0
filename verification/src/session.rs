//! Sessions and the commands on them.
//!
//! A command never touches the operating system. It changes the registry and
//! tells its caller what to do on the pseudo-terminal: what to launch, which
//! bytes to write to which session's input, which size to give to which
//! session's controller, which session to let go of.
//!
//! Creation takes three steps, with the caller's work on the terminal in
//! between: [`create_session`] answers with what to launch, [`register_session`]
//! takes in the session once its terminal is allocated, and
//! [`conclude_session`] takes it out again if the shell could not be launched.
//!
//! Policy on duplicates: an identifier that denotes a live session is never
//! given to another one. Both [`create_session`] and [`register_session`]
//! refuse it with [`CreationError::DuplicateSession`] and leave the live
//! session untouched; the identifier is free again once that session is closed.

use crate::error::{CreationError, CreationFailure};
use crate::registry::Registry;
use crate::shell::{resolve_shell, spec_resolve_shell, text_of, HostOs};
use crate::size::TerminalSize;
use vstd::prelude::*;
use vstd::string::*;

verus! {

/// One live session: the two facets of its pseudo-terminal that commands use.
/// Each facet is locked on its own, so that a write never waits for a resize.
pub struct Session<W, C> {
    /// The writable side of the terminal, which feeds the shell's input.
    pub input_sink: W,
    /// The handle that resizes the terminal and keeps it alive.
    pub controller: C,
}

/// The mapping from identifiers to sessions that a registry stands for.
pub type Sessions<W, C> = Map<Seq<char>, Session<W, C>>;

/// What to launch for a new session.
pub struct LaunchPlan {
    /// The executable to run as the session's interactive shell.
    pub shell: String,
    /// The size to allocate the pseudo-terminal with.
    pub size: TerminalSize,
}

/// A refused or failed creation: the error to report, and the session that
/// left the registry or never entered it, for the caller to let go of.
pub struct Rejected<W, C> {
    /// The error to report.
    pub error: CreationError,
    /// The session whose handles are to be released, if there is one.
    pub released: Option<Session<W, C>>,
}

/// Bytes on their way to the input of one session.
pub struct Delivery<'a, W> {
    /// The input sink of the session that the write addresses.
    pub sink: &'a W,
    /// The bytes to write, as they are.
    pub bytes: &'a [u8],
}

/// A new size on its way to the controller of one session.
pub struct Adjustment<'a, C> {
    /// The controller of the session that the resize addresses.
    pub controller: &'a C,
    /// The size to set.
    pub size: TerminalSize,
}

/// Whether creating `id` may go ahead: only while `id` denotes no live session.
pub open spec fn spec_may_create<W, C>(sessions: Sessions<W, C>, id: Seq<char>) -> bool {
    !sessions.contains_key(id)
}

/// The answer to the request to create `id` with a terminal of `rows` by
/// `cols` cells: a live identifier is refused as a duplicate; any other gets
/// the shell to launch and the size to allocate, whatever the dimensions.
pub open spec fn spec_create<W, C>(
    sessions: Sessions<W, C>,
    id: Seq<char>,
    rows: u16,
    cols: u16,
    os: HostOs,
    shell_var: Option<Seq<char>>,
) -> Result<(Seq<char>, TerminalSize), CreationFailure> {
    if spec_may_create(sessions, id) {
        Ok((spec_resolve_shell(os, shell_var), TerminalSize::spec_cells(rows, cols)))
    } else {
        Err(CreationFailure::DuplicateSession(id))
    }
}

/// The sessions after `session` was offered for registration under `id`: an
/// identifier that is live keeps its session.
pub open spec fn spec_register<W, C>(
    sessions: Sessions<W, C>,
    id: Seq<char>,
    session: Session<W, C>,
) -> Sessions<W, C> {
    if sessions.contains_key(id) {
        sessions
    } else {
        sessions.insert(id, session)
    }
}

/// The sessions after `id` was closed.
pub open spec fn spec_close<W, C>(sessions: Sessions<W, C>, id: Seq<char>) -> Sessions<W, C> {
    sessions.remove(id)
}

/// The sessions after the launch of the shell of `id` ended as `spawned`
/// says: a failed launch takes the session out again.
pub open spec fn spec_conclude<W, C>(
    sessions: Sessions<W, C>,
    id: Seq<char>,
    spawned: Result<(), String>,
) -> Sessions<W, C> {
    match spawned {
        Ok(_) => sessions,
        Err(_) => spec_close(sessions, id),
    }
}

/// The error that a launch which ended as `spawned` says is reported: none
/// after a successful launch, the host's words as a spawn failure otherwise.
pub open spec fn spec_spawn_failure(spawned: Result<(), String>) -> Option<CreationFailure> {
    match spawned {
        Ok(_) => None,
        Err(words) => Some(CreationFailure::Spawn(words@)),
    }
}

/// The bytes that writing `data` to `id` sends, and the sink they go to:
/// the text's own bytes to the session's input if `id` is live, nothing
/// otherwise.
pub open spec fn spec_write<W, C>(sessions: Sessions<W, C>, id: Seq<char>, data: Seq<char>) -> Option<
    (W, Seq<u8>),
> {
    if sessions.contains_key(id) {
        Some((sessions[id].input_sink, vstd::utf8::encode_utf8(data)))
    } else {
        None
    }
}

/// The size that resizing `id` sets, and the controller it goes to: `rows`
/// by `cols` cells to the session's controller if `id` is live, nothing
/// otherwise.
pub open spec fn spec_resize<W, C>(sessions: Sessions<W, C>, id: Seq<char>, rows: u16, cols: u16) -> Option<
    (C, TerminalSize),
> {
    if sessions.contains_key(id) {
        Some((sessions[id].controller, TerminalSize::spec_cells(rows, cols)))
    } else {
        None
    }
}

/// Opens the creation of session `id` with a terminal of `rows` by `cols`
/// cells on a host of family `os` whose `SHELL` variable holds `shell_var`.
///
/// An identifier that already denotes a live session is rejected, before
/// anything is allocated for it. Otherwise the answer is what to launch: the
/// resolved shell, in a terminal of the given size with unused pixel extents.
/// The registry is not changed: the session enters it by
/// [`register_session`], once its terminal exists.
pub fn create_session<W, C>(
    registry: &Registry<Session<W, C>>,
    id: &str,
    rows: u16,
    cols: u16,
    os: HostOs,
    shell_var: Option<&str>,
) -> (outcome: Result<LaunchPlan, CreationError>)
    ensures
        match outcome {
            Ok(plan) => spec_create(registry@, id@, rows, cols, os, text_of(shell_var)) == Ok::<
                (Seq<char>, TerminalSize),
                CreationFailure,
            >((plan.shell@, plan.size)),
            Err(error) => spec_create(registry@, id@, rows, cols, os, text_of(shell_var)) == Err::<
                (Seq<char>, TerminalSize),
                CreationFailure,
            >(error@),
        },
{
    if registry.contains(id) {
        Err(CreationError::DuplicateSession(String::from_str(id)))
    } else {
        Ok(LaunchPlan { shell: resolve_shell(os, shell_var), size: TerminalSize::cells(rows, cols) })
    }
}

/// Registers the session whose terminal was allocated for `id`.
///
/// If `id` became live in the meantime, the registry stays as it is and the
/// session comes back with the error, to be released.
pub fn register_session<W, C>(
    registry: &mut Registry<Session<W, C>>,
    id: String,
    session: Session<W, C>,
) -> (outcome: Result<(), Rejected<W, C>>)
    ensures
        final(registry)@ == spec_register(old(registry)@, id@, session),
        outcome is Ok == spec_may_create(old(registry)@, id@),
        outcome matches Err(rejected) ==> rejected.released == Some(session) && rejected.error@
            == CreationFailure::DuplicateSession(id@),
{
    let taken = id.clone();
    match registry.insert(id, session) {
        Ok(()) => Ok(()),
        Err(session) => Err(
            Rejected { error: CreationError::DuplicateSession(taken), released: Some(session) },
        ),
    }
}

/// Concludes the creation of `id` once the launch of its shell has ended
/// with `spawned`, which carries the host's words for a failure.
///
/// After a successful launch nothing changes. After a failed one the session
/// leaves the registry, so that no half-made session stays behind, and it
/// comes back with the error, to be released.
pub fn conclude_session<W, C>(
    registry: &mut Registry<Session<W, C>>,
    id: &str,
    spawned: Result<(), String>,
) -> (outcome: Result<(), Rejected<W, C>>)
    ensures
        final(registry)@ == spec_conclude(old(registry)@, id@, spawned),
        outcome is Ok == spawned is Ok,
        outcome matches Err(rejected) ==> rejected.released == old(registry)@.get(id@) && Some(
            rejected.error@,
        ) == spec_spawn_failure(spawned),
{
    match spawned {
        Ok(()) => Ok(()),
        Err(words) => {
            let released = registry.remove(id);
            Err(Rejected { error: CreationError::Spawn(words), released })
        },
    }
}

/// Addresses `data` to the input of session `id`.
///
/// For a live session the answer is the delivery to make: the text's bytes,
/// untouched, to that session's input sink. For any other identifier there
/// is nothing to do, and that is no error.
pub fn write_to_session<'a, W, C>(
    registry: &'a Registry<Session<W, C>>,
    id: &str,
    data: &'a str,
) -> (delivery: Option<Delivery<'a, W>>)
    ensures
        match delivery {
            Some(d) => spec_write(registry@, id@, data@) == Some((*d.sink, d.bytes@)),
            None => spec_write(registry@, id@, data@) is None,
        },
        !registry@.contains_key(id@) ==> delivery is None,
{
    match registry.get(id) {
        Some(session) => Some(Delivery { sink: &session.input_sink, bytes: data.as_bytes() }),
        None => None,
    }
}

/// Addresses a new size of `rows` by `cols` cells to session `id`.
///
/// For a live session the answer is the adjustment to make: the size, with
/// unused pixel extents, to that session's controller. For any other
/// identifier there is nothing to do, and that is no error.
pub fn resize_session<'a, W, C>(
    registry: &'a Registry<Session<W, C>>,
    id: &str,
    rows: u16,
    cols: u16,
) -> (adjustment: Option<Adjustment<'a, C>>)
    ensures
        match adjustment {
            Some(a) => spec_resize(registry@, id@, rows, cols) == Some((*a.controller, a.size)),
            None => spec_resize(registry@, id@, rows, cols) is None,
        },
        !registry@.contains_key(id@) ==> adjustment is None,
{
    match registry.get(id) {
        Some(session) => Some(
            Adjustment { controller: &session.controller, size: TerminalSize::cells(rows, cols) },
        ),
        None => None,
    }
}

/// Closes session `id`: takes it out of the registry and hands it over, to
/// be released. Closing an identifier that denotes no live session changes
/// nothing and hands over nothing.
pub fn close_session<W, C>(registry: &mut Registry<Session<W, C>>, id: &str) -> (released: Option<
    Session<W, C>,
>)
    ensures
        final(registry)@ == spec_close(old(registry)@, id@),
        released == old(registry)@.get(id@),
        !old(registry)@.contains_key(id@) ==> final(registry)@ == old(registry)@,
{
    registry.remove(id)
}

} // verus!
