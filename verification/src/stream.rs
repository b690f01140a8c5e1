//! A character cursor over the source text with one character of lookahead
//! and line and column tracking.

use vstd::prelude::*;
use vstd::string::*;

verus! {

/// The characters of a string, in order.
pub fn characters(text: &str) -> (chars: Vec<char>)
    ensures
        chars@ == text@,
{
    let mut chars: Vec<char> = Vec::new();
    for c in it: text.chars()
        invariant
            it.seq() == text@,
            chars@ == it.seq().take(it.index() as int),
    {
        chars.push(c);
    }
    chars
}

/// A cursor over source text. It starts before the first character; each
/// call of [`Stream::next`] makes the following character the current one.
pub struct Stream {
    chars: Vec<char>,
    position: usize,
    current_char: Option<char>,
    column: usize,
    line: usize,
}

/// The model of a [`Stream`]: the current character, the characters that
/// follow it, and the line and column of the current character.
pub struct StreamView {
    pub current: Option<char>,
    pub rest: Seq<char>,
    pub column: usize,
    pub line: usize,
}

/// `n`, or the largest `usize` where `n` is beyond it.
pub open spec fn saturate(n: int) -> usize {
    if n > usize::MAX {
        usize::MAX
    } else {
        n as usize
    }
}

/// The column after a tab in column `column`: the next column that is one
/// more than a multiple of four.
pub open spec fn tab_stop(column: usize) -> int {
    column + 4 - ((column - 1) % 4)
}

impl StreamView {
    /// The cursor before the first character of `source`.
    pub open spec fn start(source: Seq<char>) -> StreamView {
        StreamView { current: None, rest: source, column: 1, line: 1 }
    }

    /// The character after the current one.
    pub open spec fn next_char(self) -> Option<char> {
        if self.rest.len() > 0 {
            Some(self.rest[0])
        } else {
            None
        }
    }

    /// The line of the character after the current one.
    pub open spec fn next_line(self) -> usize {
        match self.current {
            Some(c) if c == '\n' => saturate(self.line + 1),
            _ => self.line,
        }
    }

    /// The column of the character after the current one: 1 after a line
    /// feed, the next tab stop after a tab, one more after any other.
    pub open spec fn next_column(self) -> usize {
        match self.current {
            Some(c) => if c == '\n' {
                1
            } else if c == '\t' {
                saturate(tab_stop(self.column))
            } else {
                saturate(self.column + 1)
            },
            None => self.column,
        }
    }

    /// The cursor one character further. At the end of the text there is no
    /// current character any more.
    pub open spec fn advance(self) -> StreamView {
        StreamView {
            current: self.next_char(),
            rest: if self.rest.len() > 0 {
                self.rest.drop_first()
            } else {
                self.rest
            },
            column: self.next_column(),
            line: self.next_line(),
        }
    }
}

impl Stream {
    #[verifier::type_invariant]
    spec fn well_formed(&self) -> bool {
        self.position <= self.chars.len() && self.column >= 1
    }

    /// The model of this cursor.
    pub closed spec fn model(&self) -> StreamView {
        StreamView {
            current: self.current_char,
            rest: self.chars@.skip(self.position as int),
            column: self.column,
            line: self.line,
        }
    }

    pub fn new(string: &str) -> (stream: Self)
        ensures
            stream@ == StreamView::start(string@),
    {
        let chars = characters(string);
        let stream = Stream { chars, position: 0, current_char: None, column: 1, line: 1 };
        assert(stream.model().rest =~= string@);
        stream
    }

    pub fn current_char(&self) -> (c: Option<char>)
        ensures
            c == self@.current,
    {
        self.current_char
    }

    pub fn next_char(&self) -> (c: Option<char>)
        ensures
            c == self@.next_char(),
    {
        proof {
            use_type_invariant(self);
        }
        if self.position < self.chars.len() {
            Some(self.chars[self.position])
        } else {
            None
        }
    }

    pub fn column(&self) -> (column: usize)
        ensures
            column == self@.column,
    {
        self.column
    }

    pub fn line(&self) -> (line: usize)
        ensures
            line == self@.line,
    {
        self.line
    }

    /// Moves to the next character and returns it.
    pub fn next(&mut self) -> (c: Option<char>)
        ensures
            final(self)@ == old(self)@.advance(),
            c == final(self)@.current,
    {
        proof {
            use_type_invariant(&*self);
        }
        match self.current_char {
            Some(c) => {
                if c == '\n' {
                    if self.line < usize::MAX {
                        self.line += 1;
                    }
                    self.column = 1;
                } else if c == '\t' {
                    let step: usize = 4 - ((self.column - 1) % 4);
                    if self.column > usize::MAX - step {
                        self.column = usize::MAX;
                    } else {
                        self.column = self.column + step;
                    }
                } else {
                    if self.column < usize::MAX {
                        self.column += 1;
                    }
                }
            },
            None => {},
        }
        if self.position < self.chars.len() {
            self.current_char = Some(self.chars[self.position]);
            self.position += 1;
            assert(self.chars@.skip(self.position as int) =~= old(self).chars@.skip(
                old(self).position as int,
            ).drop_first());
        } else {
            self.current_char = None;
        }
        self.current_char
    }
}

impl View for Stream {
    type V = StreamView;

    open spec fn view(&self) -> StreamView {
        self.model()
    }
}

} // verus!
