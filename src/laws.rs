use vstd::prelude::*;
use vstd::utf8::{encode_utf8, encode_utf8_decode_utf8, encode_utf8_valid_utf8};

use crate::session::SessionView;
use crate::text::lossy_text;

verus! {

/// The fragments joined in order.
pub open spec fn concat_all(fragments: Seq<Seq<char>>) -> Seq<char>
    decreases fragments.len(),
{
    if fragments.len() == 0 {
        Seq::empty()
    } else {
        concat_all(fragments.drop_last()) + fragments.last()
    }
}

/// The session after each fragment was typed in turn.
pub open spec fn after_texts(v: SessionView, fragments: Seq<Seq<char>>) -> SessionView
    decreases fragments.len(),
{
    if fragments.len() == 0 {
        v
    } else {
        after_texts(v, fragments.drop_last()).with_text(fragments.last())
    }
}

/// Typing fragments one after another leaves the command line equal to what
/// it held followed by the fragments in their order, and leaves the log
/// alone.
pub proof fn lemma_typed_fragments_concatenate(v: SessionView, fragments: Seq<Seq<char>>)
    ensures
        after_texts(v, fragments).pending == v.pending + concat_all(fragments),
        after_texts(v, fragments).log == v.log,
    decreases fragments.len(),
{
    if fragments.len() > 0 {
        let rest = fragments.drop_last();
        lemma_typed_fragments_concatenate(v, rest);
        assert(v.pending + concat_all(rest) + fragments.last() =~= v.pending + (concat_all(rest)
            + fragments.last()));
    }
}

/// Taking away a character from an empty command line changes nothing, as
/// often as it is done.
pub proof fn lemma_delete_on_empty_is_identity(v: SessionView)
    requires
        v.pending.len() == 0,
    ensures
        v.without_last_char() == v,
        v.without_last_char().without_last_char() == v,
{
}

/// Submitting an empty command line changes nothing.
pub proof fn lemma_submit_empty_is_identity(v: SessionView)
    requires
        v.pending.len() == 0,
    ensures
        v.submitted() == v,
{
}

/// A submission followed by a read leaves, in order, the old log, the
/// command and a line break, the text read and a line break; the command
/// line is empty afterwards.
pub proof fn lemma_submit_then_read(v: SessionView, bytes: Seq<u8>)
    requires
        v.pending.len() > 0,
    ensures
        v.submitted().with_output(lossy_text(bytes)).log == v.log + v.pending + "\n"@ + lossy_text(
            bytes,
        ) + "\n"@,
        v.submitted().with_output(lossy_text(bytes)).pending.len() == 0,
{
    assert(v.log + v.command_line() =~= v.log + v.pending + "\n"@);
}

/// Bytes that encode a text decode back to that very text.
pub proof fn lemma_lossy_round_trip(text: Seq<char>)
    ensures
        lossy_text(encode_utf8(text)) == text,
{
    encode_utf8_valid_utf8(text);
    encode_utf8_decode_utf8(text);
}

/// When the shell echoes the bytes of a submitted command, the log gains the
/// command line twice: once echoed locally, once as read back, then a line
/// break.
pub proof fn lemma_echoed_command(v: SessionView)
    requires
        v.pending.len() > 0,
    ensures
        v.submitted().with_output(lossy_text(encode_utf8(v.command_line()))).log == v.log
            + v.command_line() + v.command_line() + "\n"@,
{
    lemma_lossy_round_trip(v.command_line());
}

} // verus!
