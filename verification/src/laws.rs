//! What holds of the commands and of the pump whatever the sessions are.

use crate::error::CreationFailure;
use crate::pump::{spec_chunk, spec_pump_step, PumpStep, ReadOutcome};
use crate::session::{
    spec_close, spec_conclude, spec_create, spec_may_create, spec_register, spec_resize,
    spec_write, Session, Sessions,
};
use crate::shell::{spec_resolve_shell, HostOs};
use crate::size::TerminalSize;
use crate::text::lemma_encoding_distributes;
use vstd::prelude::*;
use vstd::utf8::*;

verus! {

/// One call of the write command as a value of specifications: the
/// identifier it addresses and the text it carries.
pub ghost struct WriteCall {
    /// The identifier that the call addresses.
    pub id: Seq<char>,
    /// The text to write.
    pub data: Seq<char>,
}

/// The bytes that reach the input of session `target` when the calls in
/// `calls` are made one after the other, the first one first, while the
/// sessions stay as they are.
pub open spec fn spec_received<W, C>(
    sessions: Sessions<W, C>,
    calls: Seq<WriteCall>,
    target: Seq<char>,
) -> Seq<u8>
    decreases calls.len(),
{
    if calls.len() == 0 {
        Seq::empty()
    } else {
        let call = calls.last();
        let earlier = spec_received(sessions, calls.drop_last(), target);
        match spec_write(sessions, call.id, call.data) {
            Some(delivery) => if call.id == target {
                earlier + delivery.1
            } else {
                earlier
            },
            None => earlier,
        }
    }
}

/// Creating a session and closing it at once leaves no session under the
/// identifier, whatever the sessions were and whatever the terminal's size.
/// On an identifier that was free, creation goes ahead with the size asked
/// for, and once the session is registered and closed again the sessions are
/// exactly what they were before.
pub proof fn law_create_then_close<W, C>(
    sessions: Sessions<W, C>,
    id: Seq<char>,
    rows: u16,
    cols: u16,
    os: HostOs,
    shell_var: Option<Seq<char>>,
    session: Session<W, C>,
)
    ensures
        spec_may_create(spec_close(spec_register(sessions, id, session), id), id),
        spec_may_create(sessions, id) ==> spec_create(sessions, id, rows, cols, os, shell_var)
            == Ok::<(Seq<char>, TerminalSize), CreationFailure>(
            (spec_resolve_shell(os, shell_var), TerminalSize::spec_cells(rows, cols)),
        ),
        spec_may_create(sessions, id) ==> spec_close(spec_register(sessions, id, session), id)
            == sessions,
{
}

/// A launch that fails leaves no half-made session behind: the sessions are
/// what they were before the session was registered.
pub proof fn law_failed_launch_leaves_nothing<W, C>(
    sessions: Sessions<W, C>,
    id: Seq<char>,
    session: Session<W, C>,
    words: String,
)
    requires
        spec_may_create(sessions, id),
    ensures
        spec_conclude(spec_register(sessions, id, session), id, Err(words)) == sessions,
{
}

/// Registration never replaces a live session: what an identifier denoted
/// before, it denotes afterwards.
pub proof fn law_registration_keeps_live_sessions<W, C>(
    sessions: Sessions<W, C>,
    id: Seq<char>,
    session: Session<W, C>,
    other: Seq<char>,
)
    requires
        sessions.contains_key(other),
    ensures
        spec_register(sessions, id, session).contains_key(other),
        spec_register(sessions, id, session)[other] == sessions[other],
{
}

/// Writing to an identifier that denotes no live session does nothing: no
/// delivery is made, and no session receives a byte more than before.
pub proof fn law_write_to_unknown_is_noop<W, C>(
    sessions: Sessions<W, C>,
    calls: Seq<WriteCall>,
    id: Seq<char>,
    data: Seq<char>,
    target: Seq<char>,
)
    requires
        !sessions.contains_key(id),
    ensures
        spec_write(sessions, id, data) is None,
        spec_received(sessions, calls.push(WriteCall { id, data }), target) == spec_received(
            sessions,
            calls,
            target,
        ),
{
    let grown = calls.push(WriteCall { id, data });
    assert(grown.drop_last() =~= calls);
}

/// Resizing an identifier that denotes no live session does nothing.
pub proof fn law_resize_of_unknown_is_noop<W, C>(
    sessions: Sessions<W, C>,
    id: Seq<char>,
    rows: u16,
    cols: u16,
)
    requires
        !sessions.contains_key(id),
    ensures
        spec_resize(sessions, id, rows, cols) is None,
{
}

/// A write to a live session adds exactly the text's bytes, after everything
/// that the session received before.
pub proof fn law_write_appends<W, C>(
    sessions: Sessions<W, C>,
    calls: Seq<WriteCall>,
    id: Seq<char>,
    data: Seq<char>,
)
    requires
        sessions.contains_key(id),
    ensures
        spec_received(sessions, calls.push(WriteCall { id, data }), id) == spec_received(
            sessions,
            calls,
            id,
        ) + encode_utf8(data),
{
    let grown = calls.push(WriteCall { id, data });
    assert(grown.drop_last() =~= calls);
}

/// Writes keep their order: three texts written one after the other to the
/// same live session reach it as the bytes of the three texts joined in that
/// order.
pub proof fn law_writes_arrive_in_order<W, C>(
    sessions: Sessions<W, C>,
    id: Seq<char>,
    first: Seq<char>,
    second: Seq<char>,
    third: Seq<char>,
)
    requires
        sessions.contains_key(id),
    ensures
        spec_received(
            sessions,
            seq![
                WriteCall { id, data: first },
                WriteCall { id, data: second },
                WriteCall { id, data: third },
            ],
            id,
        ) == encode_utf8(first + second + third),
{
    let none = Seq::<WriteCall>::empty();
    let one = none.push(WriteCall { id, data: first });
    let two = one.push(WriteCall { id, data: second });
    let three = two.push(WriteCall { id, data: third });
    assert(three =~= seq![
        WriteCall { id, data: first },
        WriteCall { id, data: second },
        WriteCall { id, data: third },
    ]);
    law_write_appends(sessions, none, id, first);
    law_write_appends(sessions, one, id, second);
    law_write_appends(sessions, two, id, third);
    lemma_encoding_distributes(first, second);
    lemma_encoding_distributes(first + second, third);
    assert(spec_received(sessions, three, id) =~= encode_utf8(first) + encode_utf8(second)
        + encode_utf8(third));
}

/// Sessions are independent: a write addressed to one identifier adds
/// nothing to what a session under another identifier receives.
pub proof fn law_sessions_are_independent<W, C>(
    sessions: Sessions<W, C>,
    calls: Seq<WriteCall>,
    id: Seq<char>,
    data: Seq<char>,
    other: Seq<char>,
)
    requires
        id != other,
    ensures
        spec_received(sessions, calls.push(WriteCall { id, data }), other) == spec_received(
            sessions,
            calls,
            other,
        ),
{
    let grown = calls.push(WriteCall { id, data });
    assert(grown.drop_last() =~= calls);
}

/// A session receives nothing from calls of which none addresses it.
pub proof fn law_unaddressed_session_receives_nothing<W, C>(
    sessions: Sessions<W, C>,
    calls: Seq<WriteCall>,
    other: Seq<char>,
)
    requires
        forall|i: int| 0 <= i < calls.len() ==> (#[trigger] calls[i]).id != other,
    ensures
        spec_received(sessions, calls, other) == Seq::<u8>::empty(),
    decreases calls.len(),
{
    if calls.len() > 0 {
        law_unaddressed_session_receives_nothing(sessions, calls.drop_last(), other);
    }
}

/// Closing is idempotent: the second of two closes of one identifier changes
/// nothing and finds no session to hand over.
pub proof fn law_close_is_idempotent<W, C>(sessions: Sessions<W, C>, id: Seq<char>)
    ensures
        spec_close(spec_close(sessions, id), id) == spec_close(sessions, id),
        spec_close(sessions, id).get(id) is None,
{
}

/// Closing one session leaves every other as it is.
pub proof fn law_close_leaves_others<W, C>(sessions: Sessions<W, C>, id: Seq<char>, other: Seq<char>)
    requires
        id != other,
    ensures
        spec_close(sessions, id).contains_key(other) == sessions.contains_key(other),
        spec_close(sessions, id)[other] == sessions[other],
{
}

/// The end of the stream and a failed read are final: either stops the pump,
/// and a pump that has stopped stays stopped whatever is read afterwards.
pub proof fn law_pump_stops_for_good(running: bool, outcome: ReadOutcome<'_>)
    ensures
        spec_chunk(outcome).len() == 0 ==> spec_pump_step(running, outcome) == PumpStep::Stop,
        !running ==> spec_pump_step(running, outcome) == PumpStep::Stop,
        spec_pump_step(running, outcome) == PumpStep::Forward ==> running && outcome is Data
            && spec_chunk(outcome).len() > 0,
{
}

} // verus!
