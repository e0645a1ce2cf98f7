use vstd::prelude::*;

verus! {

/// The marker that opens the highlighted cursor cell in the displayed line.
pub open spec fn marker_open() -> Seq<char> {
    seq!['{', 'm', 'o', 'd', '=', 'i', 'n', 'v', 'e', 'r', 't', ' ']
}

/// The displayed line: `text` with the cell under the cursor highlighted, or a
/// highlighted blank cell appended when the cursor is at the end.
pub open spec fn marked_line(text: Seq<char>, pos: nat) -> Seq<char> {
    if pos >= text.len() {
        text + marker_open() + seq![' ', '}']
    } else {
        text.subrange(0, pos as int) + marker_open() + seq![text[pos as int], '}']
            + text.subrange((pos + 1) as int, text.len() as int)
    }
}

/// The in-progress input line and the position of the cursor within it.
///
/// The cursor is a character index in `0..=buffer.len()`; the last position is
/// the append position, just past the final character.
pub struct LineEditor {
    buffer: Vec<char>,
    cursor: usize,
}

impl LineEditor {
    /// The characters of the line.
    pub closed spec fn text(&self) -> Seq<char> {
        self.buffer@
    }

    /// The cursor position.
    pub closed spec fn pos(&self) -> nat {
        self.cursor as nat
    }

    /// The cursor never leaves `0..=text.len()`.
    pub open spec fn wf(&self) -> bool {
        self.pos() <= self.text().len()
    }

    /// An empty line with the cursor at 0.
    pub fn new() -> (r: Self)
        ensures
            r.wf(),
            r.text() == Seq::<char>::empty(),
            r.pos() == 0,
    {
        LineEditor { buffer: Vec::new(), cursor: 0 }
    }

    /// The current cursor position.
    pub fn cursor(&self) -> (r: usize)
        ensures
            r == self.pos(),
    {
        self.cursor
    }

    /// The number of characters on the line.
    pub fn len(&self) -> (r: usize)
        ensures
            r == self.text().len(),
    {
        self.buffer.len()
    }

    /// A copy of the characters on the line.
    pub fn chars(&self) -> (r: Vec<char>)
        ensures
            r@ == self.text(),
    {
        self.buffer.clone()
    }

    /// The line as it is displayed, with the cursor cell highlighted.
    pub fn display_chars(&self) -> (r: Vec<char>)
        requires
            self.wf(),
        ensures
            r@ == marked_line(self.text(), self.pos()),
    {
        let n: usize = self.buffer.len();
        let mut out: Vec<char> = Vec::new();
        let mut i: usize = 0;
        while i < self.cursor
            invariant
                self.wf(),
                n == self.buffer@.len(),
                i <= self.cursor,
                out@ == self.buffer@.subrange(0, i as int),
            decreases self.cursor - i,
        {
            out.push(self.buffer[i]);
            i = i + 1;
        }
        let opening: [char; 12] = ['{', 'm', 'o', 'd', '=', 'i', 'n', 'v', 'e', 'r', 't', ' '];
        let mut k: usize = 0;
        while k < 12
            invariant
                k <= 12,
                opening@ == marker_open(),
                out@ == self.buffer@.subrange(0, self.cursor as int) + marker_open().subrange(
                    0,
                    k as int,
                ),
            decreases 12 - k,
        {
            out.push(opening[k]);
            k = k + 1;
        }
        assert(marker_open().subrange(0, 12) == marker_open());
        if self.cursor == n {
            out.push(' ');
            out.push('}');
            assert(self.buffer@.subrange(0, n as int) == self.buffer@);
        } else {
            out.push(self.buffer[self.cursor]);
            out.push('}');
            let mut j: usize = self.cursor + 1;
            let ghost front = out@;
            while j < n
                invariant
                    self.wf(),
                    n == self.buffer@.len(),
                    self.cursor < j <= n,
                    out@ == front + self.buffer@.subrange(self.cursor + 1, j as int),
                decreases n - j,
            {
                out.push(self.buffer[j]);
                j = j + 1;
            }
        }
        assert(out@ =~= marked_line(self.text(), self.pos()));
        out
    }

    /// Inserts `c` at the cursor and moves the cursor past it.
    pub fn insert(&mut self, c: char)
        requires
            old(self).wf(),
        ensures
            final(self).wf(),
            final(self).text() == old(self).text().insert(old(self).pos() as int, c),
            final(self).pos() == old(self).pos() + 1,
    {
        self.buffer.insert(self.cursor, c);
        let n: usize = self.buffer.len();
        assert(self.cursor < n);
        self.cursor = self.cursor + 1;
    }

    /// Backspace: removes the character just before the cursor and moves the
    /// cursor back onto its place; does nothing at position 0.
    pub fn delete_before(&mut self)
        requires
            old(self).wf(),
        ensures
            final(self).wf(),
            old(self).pos() == 0 ==> *final(self) == *old(self),
            old(self).pos() > 0 ==> final(self).text() == old(self).text().remove(
                old(self).pos() - 1,
            ) && final(self).pos() == old(self).pos() - 1,
    {
        if self.cursor > 0 {
            self.buffer.remove(self.cursor - 1);
            self.cursor = self.cursor - 1;
        }
    }

    /// Forward delete: removes the character under the cursor; does nothing
    /// at the end of the line.
    pub fn delete_at(&mut self)
        requires
            old(self).wf(),
        ensures
            final(self).wf(),
            old(self).pos() == old(self).text().len() ==> *final(self) == *old(self),
            old(self).pos() < old(self).text().len() ==> final(self).text() == old(
                self,
            ).text().remove(old(self).pos() as int) && final(self).pos() == old(self).pos(),
    {
        if self.cursor < self.buffer.len() {
            self.buffer.remove(self.cursor);
        }
    }

    /// Moves the cursor one character to the left, stopping at 0.
    pub fn move_left(&mut self)
        requires
            old(self).wf(),
        ensures
            final(self).wf(),
            final(self).text() == old(self).text(),
            final(self).pos() == if old(self).pos() == 0 {
                0
            } else {
                (old(self).pos() - 1) as nat
            },
    {
        if self.cursor > 0 {
            self.cursor = self.cursor - 1;
        }
    }

    /// Moves the cursor one character to the right, stopping at the append
    /// position.
    pub fn move_right(&mut self)
        requires
            old(self).wf(),
        ensures
            final(self).wf(),
            final(self).text() == old(self).text(),
            final(self).pos() == if old(self).pos() == old(self).text().len() {
                old(self).pos()
            } else {
                old(self).pos() + 1
            },
    {
        if self.cursor < self.buffer.len() {
            self.cursor = self.cursor + 1;
        }
    }

    /// Hands out the line as submitted and leaves the editor empty, with the
    /// cursor at 0.
    pub fn take_line(&mut self) -> (r: Vec<char>)
        requires
            old(self).wf(),
        ensures
            final(self).wf(),
            r@ == old(self).text(),
            final(self).text() == Seq::<char>::empty(),
            final(self).pos() == 0,
    {
        let line = self.buffer.split_off(0);
        self.cursor = 0;
        line
    }
}

} // verus!
