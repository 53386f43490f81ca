//! The line renderer: the in-place terminal-line update algorithm.
//!
//! Rendering a new frame over an old one emits a carriage return, blanks the
//! previous content with exactly as many spaces as its byte length, returns
//! the cursor to column one again, and then writes the new content. Lengths
//! are byte lengths throughout, so multi-byte glyphs are fully overwritten.

use vstd::prelude::*;
use vstd::string::StrSliceExecFns;
use vstd::string::StringSliceAdditionalSpecFns;

verus! {

/// Carriage return: moves the cursor back to column one.
pub const CARRIAGE_RETURN: u8 = 13;

/// The blank character used to erase previously drawn content.
pub const BLANK: u8 = 32;

/// The bytes that erase a previously drawn line of `previous_length` bytes:
/// a carriage return, `previous_length` blanks, and a carriage return.
pub open spec fn erase_bytes(previous_length: nat) -> Seq<u8> {
    seq![CARRIAGE_RETURN] + Seq::new(previous_length, |i: int| BLANK) + seq![CARRIAGE_RETURN]
}

/// The full byte sequence one render emits: the erase sequence for the
/// previous content followed by the new content.
pub open spec fn render_bytes(previous_length: nat, next_content: Seq<u8>) -> Seq<u8> {
    erase_bytes(previous_length) + next_content
}

/// Emits the erase sequence for a line of `previous_length` bytes.
pub fn erase_sequence(previous_length: usize) -> (r: Vec<u8>)
    ensures
        r@ == erase_bytes(previous_length as nat),
{
    let mut out: Vec<u8> = Vec::new();
    out.push(CARRIAGE_RETURN);
    let mut i: usize = 0;
    while i < previous_length
        invariant
            i <= previous_length,
            out@ == seq![CARRIAGE_RETURN] + Seq::new(i as nat, |j: int| BLANK),
        decreases previous_length - i,
    {
        out.push(BLANK);
        proof {
            assert(out@ =~= seq![CARRIAGE_RETURN] + Seq::new((i + 1) as nat, |j: int| BLANK));
        }
        i = i + 1;
    }
    out.push(CARRIAGE_RETURN);
    proof {
        assert(out@ =~= erase_bytes(previous_length as nat));
    }
    out
}

/// One render step: erase the previous content, draw the new content, and
/// report the new content's byte length for the next cycle.
pub fn render(previous_length: usize, next_content: &str) -> (r: (Vec<u8>, usize))
    ensures
        r.0@ == render_bytes(previous_length as nat, next_content.spec_bytes()),
        r.1 == next_content.spec_bytes().len(),
{
    let mut out = erase_sequence(previous_length);
    let content = next_content.as_bytes_vec();
    let new_length = content.len();
    let mut i: usize = 0;
    while i < content.len()
        invariant
            i <= content@.len(),
            content@ == next_content.spec_bytes(),
            out@ == erase_bytes(previous_length as nat) + content@.take(i as int),
        decreases content@.len() - i,
    {
        out.push(content[i]);
        proof {
            assert(out@ =~= erase_bytes(previous_length as nat) + content@.take(i + 1));
        }
        i = i + 1;
    }
    proof {
        assert(content@.take(content@.len() as int) =~= content@);
    }
    (out, new_length)
}

/// Idempotent erase, over the emitted bytes: whatever the new content, the
/// render emits exactly `previous_length` blanks between the two carriage
/// returns before any of the new content is drawn, so a previous frame of at
/// most `previous_length` bytes is blanked in full.
pub proof fn lemma_render_blanks_previous(previous_length: nat, next_content: Seq<u8>)
    ensures
        render_bytes(previous_length, next_content).len() == previous_length + 2
            + next_content.len(),
        render_bytes(previous_length, next_content)[0] == CARRIAGE_RETURN,
        forall|i: int|
            1 <= i < previous_length + 1 ==> render_bytes(previous_length, next_content)[i]
                == BLANK,
        render_bytes(previous_length, next_content)[previous_length + 1 as int]
            == CARRIAGE_RETURN,
        render_bytes(previous_length, next_content).skip(previous_length + 2 as int)
            == next_content,
{
    assert(render_bytes(previous_length, next_content).skip(previous_length + 2 as int)
        =~= next_content);
}

} // verus!
