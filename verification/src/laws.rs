//! Laws of the document state, stated over the same spec functions that the
//! executable contracts use.

use vstd::prelude::*;
use crate::file::{DocView, memory_only, with_path, with_contents, initial, write_payload,
    read_result, after_read};

verus! {

/// Round-trip fidelity: for every state, path and contents, setting the path
/// and then writing persists exactly the buffered contents, and a read whose
/// disk outcome is exactly what that write persisted yields those same
/// contents back and leaves them buffered. With an empty path both steps stay
/// in memory and the buffer itself comes back.
pub proof fn lemma_write_read_round_trip(d: DocView, p: Seq<char>)
    ensures
        read_result(with_path(d, p), write_payload(with_path(d, p))) == d.contents,
        after_read(with_path(d, p), write_payload(with_path(d, p))).contents == d.contents,
        after_read(with_path(d, p), write_payload(with_path(d, p))).path == p,
{
}

/// Memory-only reads: after the path is cleared and contents are saved, the
/// document is memory-only — a read performs no filesystem access — and
/// whatever the disk might have said, a read yields exactly the saved text.
pub proof fn lemma_memory_only_read(d: DocView, c: Seq<char>)
    ensures
        memory_only(with_contents(with_path(d, Seq::<char>::empty()), c)),
        forall|loaded: Seq<char>|
            read_result(with_contents(with_path(d, Seq::<char>::empty()), c), loaded) == c,
{
}

/// Recovery: a failed read or write mutates nothing, so from the state the
/// failure left behind, clearing the path keeps the buffered contents and
/// makes the document memory-only — every subsequent read yields the last
/// known contents, never an error.
pub proof fn lemma_recovery_after_failure(d: DocView)
    ensures
        memory_only(with_path(d, Seq::<char>::empty())),
        with_path(d, Seq::<char>::empty()).contents == d.contents,
        forall|loaded: Seq<char>|
            read_result(with_path(d, Seq::<char>::empty()), loaded) == d.contents,
{
}

/// A freshly created document is memory-only: its first `get_path` signals
/// the no-path condition.
pub proof fn lemma_fresh_has_no_path()
    ensures
        memory_only(initial()),
{
}

} // verus!
