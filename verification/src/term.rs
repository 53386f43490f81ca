//! A model of one terminal line, used to state and prove what the renderer's
//! erase-then-write byte sequence does to the screen.
//!
//! The line is a row of byte cells plus a cursor. A carriage return moves the
//! cursor to column one; any other byte overwrites the cell under the cursor
//! (extending the row at its end) and advances the cursor. The visible
//! content of a line is the row with its trailing blanks stripped.

use vstd::prelude::*;

use vstd::utf8::encode_scalar;
use vstd::utf8::encode_utf8;
use vstd::utf8::has_width_1_encoding;
use vstd::utf8::has_width_2_encoding;
use vstd::utf8::has_width_3_encoding;
use vstd::utf8::is_scalar;

use crate::render::BLANK;
use crate::render::CARRIAGE_RETURN;
use crate::render::erase_bytes;
use crate::render::render_bytes;

verus! {

/// A row of `n` blank cells.
pub open spec fn blanks(n: nat) -> Seq<u8> {
    Seq::new(n, |i: int| BLANK)
}

/// True when no byte of `s` is a carriage return, so feeding `s` only ever
/// writes cells and advances the cursor.
pub open spec fn cr_free(s: Seq<u8>) -> bool {
    forall|i: int| 0 <= i < s.len() ==> s[i] != CARRIAGE_RETURN
}

/// One byte arriving at the line: carriage return moves the cursor to column
/// one; any other byte is written at the cursor, which then advances.
pub open spec fn feed_one(cells: Seq<u8>, cursor: nat, b: u8) -> (Seq<u8>, nat) {
    if b == CARRIAGE_RETURN {
        (cells, 0 as nat)
    } else if cursor < cells.len() {
        (cells.update(cursor as int, b), cursor + 1)
    } else {
        (cells.push(b), cursor + 1)
    }
}

/// A whole byte sequence arriving at the line, left to right.
pub open spec fn feed_seq(cells: Seq<u8>, cursor: nat, bs: Seq<u8>) -> (Seq<u8>, nat)
    decreases bs.len(),
{
    if bs.len() == 0 {
        (cells, cursor)
    } else {
        feed_seq(
            feed_one(cells, cursor, bs[0]).0,
            feed_one(cells, cursor, bs[0]).1,
            bs.drop_first(),
        )
    }
}

/// The visible content of the row: the cells with trailing blanks stripped.
pub open spec fn visible(cells: Seq<u8>) -> Seq<u8>
    decreases cells.len(),
{
    if cells.len() == 0 {
        cells
    } else if cells[cells.len() - 1] == BLANK {
        visible(cells.drop_last())
    } else {
        cells
    }
}

/// What a row looks like after `w` (carriage-return free) is written at
/// `cursor`: the cells before the cursor, then `w`, then whatever old cells
/// `w` did not reach.
pub open spec fn written_at(cells: Seq<u8>, cursor: nat, w: Seq<u8>) -> Seq<u8> {
    if cursor + w.len() <= cells.len() {
        cells.take(cursor as int) + w + cells.skip(cursor + w.len() as int)
    } else {
        cells.take(cursor as int) + w
    }
}

/// Feeding distributes over concatenation.
pub proof fn lemma_feed_seq_append(cells: Seq<u8>, cursor: nat, a: Seq<u8>, b: Seq<u8>)
    ensures
        feed_seq(cells, cursor, a + b) == feed_seq(
            feed_seq(cells, cursor, a).0,
            feed_seq(cells, cursor, a).1,
            b,
        ),
    decreases a.len(),
{
    if a.len() == 0 {
        assert(a + b =~= b);
    } else {
        assert((a + b)[0] == a[0]);
        assert((a + b).drop_first() =~= a.drop_first() + b);
        lemma_feed_seq_append(
            feed_one(cells, cursor, a[0]).0,
            feed_one(cells, cursor, a[0]).1,
            a.drop_first(),
            b,
        );
    }
}

/// Feeding a carriage-return-free sequence writes it at the cursor.
pub proof fn lemma_feed_seq_writes(cells: Seq<u8>, cursor: nat, w: Seq<u8>)
    requires
        cursor <= cells.len(),
        cr_free(w),
    ensures
        feed_seq(cells, cursor, w).0 == written_at(cells, cursor, w),
        feed_seq(cells, cursor, w).1 == cursor + w.len(),
    decreases w.len(),
{
    if w.len() == 0 {
        assert(written_at(cells, cursor, w) =~= cells);
    } else {
        let cells1 = feed_one(cells, cursor, w[0]).0;
        lemma_feed_seq_writes(cells1, cursor + 1, w.drop_first());
        assert(written_at(cells1, cursor + 1, w.drop_first()) =~= written_at(
            cells,
            cursor,
            w,
        ));
    }
}

/// Every cell past the visible content is blank.
pub proof fn lemma_after_visible_blank(cells: Seq<u8>)
    ensures
        visible(cells).len() <= cells.len(),
        forall|i: int| visible(cells).len() <= i < cells.len() ==> cells[i] == BLANK,
        visible(cells) == cells.take(visible(cells).len() as int),
    decreases cells.len(),
{
    if cells.len() == 0 {
    } else if cells[cells.len() - 1] == BLANK {
        let dl = cells.drop_last();
        lemma_after_visible_blank(dl);
        assert forall|i: int| visible(cells).len() <= i < cells.len() implies cells[i]
            == BLANK by {
            if i < cells.len() - 1 {
                assert(cells[i] == dl[i]);
            }
        }
        assert(dl.take(visible(cells).len() as int) =~= cells.take(
            visible(cells).len() as int,
        ));
    } else {
        assert(visible(cells) =~= cells.take(visible(cells).len() as int));
    }
}

/// Stripping trailing blanks ignores appended blanks.
pub proof fn lemma_visible_pad(cells: Seq<u8>, n: nat)
    ensures
        visible(cells + blanks(n)) == visible(cells),
    decreases n,
{
    if n == 0 {
        assert(cells + blanks(0) =~= cells);
    } else {
        assert((cells + blanks(n)).drop_last() =~= cells + blanks((n - 1) as nat));
        assert((cells + blanks(n))[(cells + blanks(n)).len() - 1] == BLANK);
        lemma_visible_pad(cells, (n - 1) as nat);
    }
}

/// A row wholly confined to blanks after some prefix equals that prefix
/// padded with blanks.
proof fn lemma_split_visible(cells: Seq<u8>)
    ensures
        cells =~= visible(cells) + blanks((cells.len() - visible(cells).len()) as nat),
{
    lemma_after_visible_blank(cells);
}

/// What one render does to the line, cell by cell: the erase pass blanks the
/// first `prev` cells, and the new content is then written from column one.
pub proof fn lemma_render_feeds(cells: Seq<u8>, cursor: nat, prev: nat, content: Seq<u8>)
    requires
        cursor <= cells.len(),
        cr_free(content),
    ensures
        feed_seq(cells, cursor, render_bytes(prev, content)).0 == written_at(
            written_at(cells, 0, blanks(prev)),
            0,
            content,
        ),
        feed_seq(cells, cursor, render_bytes(prev, content)).1 == content.len(),
{
    let erase = erase_bytes(prev);
    let body = blanks(prev) + seq![CARRIAGE_RETURN];
    assert(erase =~= seq![CARRIAGE_RETURN] + (body + Seq::<u8>::empty()));
    assert(render_bytes(prev, content) =~= seq![CARRIAGE_RETURN] + (blanks(prev) + (seq![
        CARRIAGE_RETURN,
    ] + content)));
    // Feed the leading carriage return: cursor to column one.
    let r = seq![CARRIAGE_RETURN] + (blanks(prev) + (seq![CARRIAGE_RETURN] + content));
    assert(r[0] == CARRIAGE_RETURN);
    assert(r.drop_first() =~= blanks(prev) + (seq![CARRIAGE_RETURN] + content));
    // Feed the blanking pass.
    lemma_feed_seq_append(cells, 0, blanks(prev), seq![CARRIAGE_RETURN] + content);
    assert(cr_free(blanks(prev)));
    lemma_feed_seq_writes(cells, 0, blanks(prev));
    let blanked = written_at(cells, 0, blanks(prev));
    // Feed the second carriage return, then the content.
    let rest = seq![CARRIAGE_RETURN] + content;
    assert(rest[0] == CARRIAGE_RETURN);
    assert(rest.drop_first() =~= content);
    lemma_feed_seq_writes(blanked, 0, content);
}

/// Idempotent erase: rendering new content over a line whose visible content
/// is no longer than the blanked span leaves exactly the new content visible
/// — no residue of a longer previous frame survives.
pub proof fn lemma_erase_idempotent(cells: Seq<u8>, cursor: nat, prev: nat, content: Seq<u8>)
    requires
        cursor <= cells.len(),
        visible(cells).len() <= prev,
        cr_free(content),
    ensures
        visible(feed_seq(cells, cursor, render_bytes(prev, content)).0) == visible(content),
        feed_seq(cells, cursor, render_bytes(prev, content)).1 == content.len(),
{
    lemma_render_feeds(cells, cursor, prev, content);
    lemma_after_visible_blank(cells);
    let blanked = written_at(cells, 0, blanks(prev));
    let total: nat = if cells.len() >= prev {
        cells.len()
    } else {
        prev
    };
    assert(blanked =~= blanks(total as nat)) by {
        lemma_split_visible(cells);
    }
    let drawn = written_at(blanked, 0, content);
    if content.len() <= total {
        assert(drawn =~= content + blanks((total - content.len()) as nat));
        lemma_visible_pad(content, (total - content.len()) as nat);
    } else {
        assert(drawn =~= content);
    }
}

/// A cancelled loop's final erase leaves the line clean: the erase sequence
/// alone, over a line whose visible content it covers, leaves nothing
/// visible.
pub proof fn lemma_final_erase_clears(cells: Seq<u8>, cursor: nat, prev: nat)
    requires
        cursor <= cells.len(),
        visible(cells).len() <= prev,
    ensures
        visible(feed_seq(cells, cursor, erase_bytes(prev)).0) == Seq::<u8>::empty(),
{
    assert(erase_bytes(prev) =~= render_bytes(prev, Seq::<u8>::empty()));
    lemma_erase_idempotent(cells, cursor, prev, Seq::<u8>::empty());
}

/// No byte of the UTF-8 encoding of one scalar other than the carriage
/// return is a carriage return: a one-byte encoding is the scalar itself,
/// and every byte of a longer encoding has its high bit set.
proof fn lemma_encode_scalar_no_cr(s: u32)
    requires
        is_scalar(s),
        s != 13,
    ensures
        cr_free(encode_scalar(s)),
{
    if has_width_1_encoding(s) {
        assert((s & 0x7F) as u8 != 13) by (bit_vector)
            requires
                s <= 0x7F && s != 13,
        ;
    } else if has_width_2_encoding(s) {
        assert((0xC0 | ((s >> 6) & 0x1F) as u8) != 13 && (0x80 | (s & 0x3F) as u8) != 13)
            by (bit_vector);
    } else if has_width_3_encoding(s) {
        assert((0xE0 | ((s >> 12) & 0x0F) as u8) != 13 && (0x80 | ((s >> 6) & 0x3F) as u8) != 13
            && (0x80 | (s & 0x3F) as u8) != 13) by (bit_vector);
    } else {
        assert((0xF0 | ((s >> 18) & 0x7) as u8) != 13 && (0x80 | ((s >> 12) & 0x3F) as u8) != 13
            && (0x80 | ((s >> 6) & 0x3F) as u8) != 13 && (0x80 | (s & 0x3F) as u8) != 13)
            by (bit_vector);
    }
}

/// The UTF-8 encoding of a text without carriage returns holds no carriage
/// return byte, so drawing it never moves the cursor back.
pub proof fn lemma_encode_utf8_cr_free(chars: Seq<char>)
    requires
        forall|i: int| 0 <= i < chars.len() ==> chars[i] != '\r',
    ensures
        cr_free(encode_utf8(chars)),
    decreases chars.len(),
{
    if chars.len() > 0 {
        let c = chars[0];
        let s = c as u32;
        vstd::utf8::char_is_scalar(c);
        vstd::utf8::char_u32_cast(c, s);
        assert(s != 13) by {
            if s == 13 {
                assert(c == 13u32 as char);
                assert(13u32 as char == '\r');
            }
        }
        lemma_encode_scalar_no_cr(s);
        lemma_encode_utf8_cr_free(chars.drop_first());
        assert forall|i: int|
            0 <= i < encode_utf8(chars).len() implies encode_utf8(chars)[i]
            != CARRIAGE_RETURN by {
            if i < encode_scalar(s).len() {
                assert(encode_utf8(chars)[i] == encode_scalar(s)[i]);
            } else {
                assert(encode_utf8(chars)[i] == encode_utf8(chars.drop_first())[i
                    - encode_scalar(s).len()]);
            }
        }
    }
}

/// One terminal line: a row of byte cells and a cursor, fed the bytes the
/// renderer emits. The executable counterpart of [`feed_seq`].
pub struct TermLine {
    cells: Vec<u8>,
    cursor: usize,
}

impl TermLine {
    /// The cursor never strays past the end of the row.
    pub closed spec fn wf(&self) -> bool {
        self.cursor <= self.cells@.len()
    }

    /// The row of cells.
    pub closed spec fn cells_view(&self) -> Seq<u8> {
        self.cells@
    }

    /// The cursor's column.
    pub closed spec fn cursor_view(&self) -> nat {
        self.cursor as nat
    }

    /// An empty line with the cursor at column one.
    pub fn new() -> (r: TermLine)
        ensures
            r.wf(),
            r.cells_view() == Seq::<u8>::empty(),
            r.cursor_view() == 0,
    {
        TermLine { cells: Vec::new(), cursor: 0 }
    }

    /// Receives one byte.
    pub fn feed(&mut self, b: u8)
        requires
            old(self).wf(),
            old(self).cells_view().len() < usize::MAX,
        ensures
            final(self).wf(),
            (final(self).cells_view(), final(self).cursor_view()) == feed_one(
                old(self).cells_view(),
                old(self).cursor_view(),
                b,
            ),
    {
        if b == CARRIAGE_RETURN {
            self.cursor = 0;
        } else if self.cursor < self.cells.len() {
            self.cells.set(self.cursor, b);
            self.cursor = self.cursor + 1;
        } else {
            self.cells.push(b);
            self.cursor = self.cursor + 1;
        }
    }

    /// Receives a whole byte sequence, left to right.
    pub fn feed_all(&mut self, bytes: &[u8])
        requires
            old(self).wf(),
            old(self).cells_view().len() + bytes@.len() < usize::MAX,
        ensures
            final(self).wf(),
            (final(self).cells_view(), final(self).cursor_view()) == feed_seq(
                old(self).cells_view(),
                old(self).cursor_view(),
                bytes@,
            ),
    {
        proof {
            assert(bytes@.skip(0) =~= bytes@);
        }
        let mut i: usize = 0;
        while i < bytes.len()
            invariant
                i <= bytes@.len(),
                self.wf(),
                old(self).cells_view().len() + bytes@.len() < usize::MAX,
                self.cells_view().len() <= old(self).cells_view().len() + i,
                feed_seq(self.cells_view(), self.cursor_view(), bytes@.skip(i as int))
                    == feed_seq(old(self).cells_view(), old(self).cursor_view(), bytes@),
            decreases bytes@.len() - i,
        {
            proof {
                assert(bytes@.skip(i as int)[0] == bytes@[i as int]);
                assert(bytes@.skip(i as int).drop_first() =~= bytes@.skip(i + 1));
            }
            self.feed(bytes[i]);
            i = i + 1;
        }
        proof {
            assert(bytes@.skip(i as int) =~= Seq::<u8>::empty());
        }
    }

    /// The visible content: the row with trailing blanks stripped.
    pub fn visible_content(&self) -> (r: Vec<u8>)
        requires
            self.wf(),
        ensures
            r@ == visible(self.cells_view()),
    {
        let mut end: usize = self.cells.len();
        proof {
            assert(self.cells@.take(end as int) =~= self.cells@);
        }
        while end > 0 && self.cells[end - 1] == BLANK
            invariant
                end <= self.cells@.len(),
                visible(self.cells@.take(end as int)) == visible(self.cells@),
            decreases end,
        {
            proof {
                assert(self.cells@.take(end as int).drop_last() =~= self.cells@.take(
                    end - 1,
                ));
            }
            end = end - 1;
        }
        let mut r: Vec<u8> = Vec::new();
        let mut i: usize = 0;
        while i < end
            invariant
                i <= end <= self.cells@.len(),
                visible(self.cells@.take(end as int)) == visible(self.cells@),
                end > 0 ==> self.cells@[end - 1] != BLANK,
                r@ == self.cells@.take(i as int),
            decreases end - i,
        {
            r.push(self.cells[i]);
            proof {
                assert(r@ =~= self.cells@.take(i + 1));
            }
            i = i + 1;
        }
        proof {
            if end > 0 {
                assert(self.cells@.take(end as int)[end - 1] != BLANK);
            }
            assert(visible(self.cells@.take(end as int)) == self.cells@.take(end as int));
        }
        r
    }
}

} // verus!
