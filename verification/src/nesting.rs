//! How deep a document nests, measured before it is handed to the decoder.
//!
//! The scan walks the text once, character by character. It follows strings
//! and comments as the decoder's tokenizer does, so that the brackets, braces
//! and dots it counts are those that the decoder takes for punctuation.

use vstd::prelude::*;

verus! {

/// The deepest that brackets and braces may nest outside strings and comments.
pub const MAX_NESTING: usize = 8;

/// The most dots that one line may hold outside strings and comments.
pub const MAX_KEY_DOTS: usize = 8;

/// Where the scan stands between two characters.
#[derive(Clone, Copy, Debug, PartialEq, Eq, Structural)]
pub enum Mode {
    /// Outside strings and comments.
    Plain,
    /// In a comment, which runs to the end of its line.
    Comment,
    /// Behind the quote that opens a string.
    Opened,
    /// Behind two quotes: the empty string, unless a third quote follows.
    OpenedTwice,
    /// In a string of one line.
    Line,
    /// Behind a backslash in a string of one line.
    LineEscape,
    /// In a multi-line string.
    Block,
    /// Behind a backslash in a multi-line string.
    BlockEscape,
    /// In a multi-line string, behind one quote.
    Closing1,
    /// In a multi-line string, behind two quotes in a row.
    Closing2,
    /// Behind the three quotes that end a multi-line string; up to two more
    /// quotes still belong to it.
    Closing3,
    /// Behind four quotes at the end of a multi-line string.
    Closing4,
}

/// The state of the scan.
#[derive(Clone, Copy, Debug, PartialEq, Eq, Structural)]
pub struct Scan {
    /// Where the scan stands.
    pub mode: Mode,
    /// In a string: whether it is a basic string (`"`), in which a backslash
    /// escapes, or a literal one (`'`).
    pub basic: bool,
    /// How many brackets and braces are open.
    pub depth: usize,
    /// How many dots the current line has held so far.
    pub dots: usize,
    /// Whether a limit was passed. Once set it stays.
    pub over: bool,
}

impl Scan {
    /// The state before the first character.
    pub open spec fn start() -> Scan {
        Scan { mode: Mode::Plain, basic: false, depth: 0, dots: 0, over: false }
    }

    /// The same state in another mode.
    pub open spec fn at(self, mode: Mode) -> Scan {
        Scan { mode, ..self }
    }

    /// The quote that delimits the string the scan is in.
    pub open spec fn quote(self) -> char {
        if self.basic {
            '"'
        } else {
            '\''
        }
    }

    /// The state behind `c`, read outside strings and comments.
    pub open spec fn plain(self, c: char) -> Scan {
        if c == '"' {
            Scan { mode: Mode::Opened, basic: true, ..self }
        } else if c == '\'' {
            Scan { mode: Mode::Opened, basic: false, ..self }
        } else if c == '#' {
            self.at(Mode::Comment)
        } else if c == '[' || c == '{' {
            if self.depth >= MAX_NESTING {
                Scan { over: true, ..self }
            } else {
                Scan { depth: (self.depth + 1) as usize, ..self }
            }
        } else if c == ']' || c == '}' {
            if self.depth > 0 {
                Scan { depth: (self.depth - 1) as usize, ..self }
            } else {
                self
            }
        } else if c == '.' {
            if self.dots >= MAX_KEY_DOTS {
                Scan { over: true, ..self }
            } else {
                Scan { dots: (self.dots + 1) as usize, ..self }
            }
        } else if c == '\n' {
            Scan { dots: 0, ..self }
        } else {
            self
        }
    }

    /// The state behind `c`, read as content of a string of one line.
    pub open spec fn in_line(self, c: char) -> Scan {
        if c == self.quote() {
            self.at(Mode::Plain)
        } else if self.basic && c == '\\' {
            self.at(Mode::LineEscape)
        } else {
            self.at(Mode::Line)
        }
    }

    /// The state behind `c`, read as content of a multi-line string.
    pub open spec fn in_block(self, c: char) -> Scan {
        if c == self.quote() {
            self.at(Mode::Closing1)
        } else if self.basic && c == '\\' {
            self.at(Mode::BlockEscape)
        } else {
            self.at(Mode::Block)
        }
    }

    /// Whether a comment goes on over `c`: it ends before any control
    /// character but the tab.
    pub open spec fn in_comment(c: char) -> bool {
        c == '\t' || c as u32 >= 0x20
    }

    /// The state behind `c`.
    pub open spec fn step(self, c: char) -> Scan {
        match self.mode {
            Mode::Plain => self.plain(c),
            Mode::Comment => if Scan::in_comment(c) {
                self
            } else {
                self.at(Mode::Plain).plain(c)
            },
            Mode::Opened => if c == self.quote() {
                self.at(Mode::OpenedTwice)
            } else {
                self.in_line(c)
            },
            Mode::OpenedTwice => if c == self.quote() {
                self.at(Mode::Block)
            } else {
                self.at(Mode::Plain).plain(c)
            },
            Mode::Line => self.in_line(c),
            Mode::LineEscape => self.at(Mode::Line),
            Mode::Block => self.in_block(c),
            Mode::BlockEscape => self.at(Mode::Block),
            Mode::Closing1 => if c == self.quote() {
                self.at(Mode::Closing2)
            } else {
                self.in_block(c)
            },
            Mode::Closing2 => if c == self.quote() {
                self.at(Mode::Closing3)
            } else {
                self.in_block(c)
            },
            Mode::Closing3 => if c == self.quote() {
                self.at(Mode::Closing4)
            } else {
                self.at(Mode::Plain).plain(c)
            },
            Mode::Closing4 => if c == self.quote() {
                self.at(Mode::Plain)
            } else {
                self.at(Mode::Plain).plain(c)
            },
        }
    }
}

impl Scan {
    fn read_plain(self, c: char) -> (next: Scan)
        ensures
            next == self.plain(c),
    {
        if c == '"' {
            Scan { mode: Mode::Opened, basic: true, ..self }
        } else if c == '\'' {
            Scan { mode: Mode::Opened, basic: false, ..self }
        } else if c == '#' {
            Scan { mode: Mode::Comment, ..self }
        } else if c == '[' || c == '{' {
            if self.depth >= MAX_NESTING {
                Scan { over: true, ..self }
            } else {
                Scan { depth: self.depth + 1, ..self }
            }
        } else if c == ']' || c == '}' {
            if self.depth > 0 {
                Scan { depth: self.depth - 1, ..self }
            } else {
                self
            }
        } else if c == '.' {
            if self.dots >= MAX_KEY_DOTS {
                Scan { over: true, ..self }
            } else {
                Scan { dots: self.dots + 1, ..self }
            }
        } else if c == '\n' {
            Scan { dots: 0, ..self }
        } else {
            self
        }
    }

    fn read_string(self, c: char, quoted: Mode, escaped: Mode, inside: Mode) -> (next: Scan)
        ensures
            next == if c == self.quote() {
                self.at(quoted)
            } else if self.basic && c == '\\' {
                self.at(escaped)
            } else {
                self.at(inside)
            },
    {
        let quote = if self.basic { '"' } else { '\'' };
        if c == quote {
            Scan { mode: quoted, ..self }
        } else if self.basic && c == '\\' {
            Scan { mode: escaped, ..self }
        } else {
            Scan { mode: inside, ..self }
        }
    }

    fn read_quote(self, c: char, quoted: Mode) -> (next: Option<Scan>)
        ensures
            next == if c == self.quote() {
                Some(self.at(quoted))
            } else {
                None
            },
    {
        let quote = if self.basic { '"' } else { '\'' };
        if c == quote {
            Some(Scan { mode: quoted, ..self })
        } else {
            None
        }
    }

    /// The state behind `c`.
    pub fn read(self, c: char) -> (next: Scan)
        ensures
            next == self.step(c),
    {
        let plain = Scan { mode: Mode::Plain, ..self };
        match self.mode {
            Mode::Plain => self.read_plain(c),
            Mode::Comment => if c == '\t' || c as u32 >= 0x20 {
                self
            } else {
                plain.read_plain(c)
            },
            Mode::Opened => match self.read_quote(c, Mode::OpenedTwice) {
                Some(next) => next,
                None => self.read_string(c, Mode::Plain, Mode::LineEscape, Mode::Line),
            },
            Mode::OpenedTwice => match self.read_quote(c, Mode::Block) {
                Some(next) => next,
                None => plain.read_plain(c),
            },
            Mode::Line => self.read_string(c, Mode::Plain, Mode::LineEscape, Mode::Line),
            Mode::LineEscape => Scan { mode: Mode::Line, ..self },
            Mode::Block => self.read_string(c, Mode::Closing1, Mode::BlockEscape, Mode::Block),
            Mode::BlockEscape => Scan { mode: Mode::Block, ..self },
            Mode::Closing1 => match self.read_quote(c, Mode::Closing2) {
                Some(next) => next,
                None => self.read_string(c, Mode::Closing1, Mode::BlockEscape, Mode::Block),
            },
            Mode::Closing2 => match self.read_quote(c, Mode::Closing3) {
                Some(next) => next,
                None => self.read_string(c, Mode::Closing1, Mode::BlockEscape, Mode::Block),
            },
            Mode::Closing3 => match self.read_quote(c, Mode::Closing4) {
                Some(next) => next,
                None => plain.read_plain(c),
            },
            Mode::Closing4 => match self.read_quote(c, Mode::Plain) {
                Some(next) => next,
                None => plain.read_plain(c),
            },
        }
    }
}

/// The state of the scan behind the whole of `text`.
pub open spec fn scan(text: Seq<char>) -> Scan
    decreases text.len(),
{
    if text.len() == 0 {
        Scan::start()
    } else {
        scan(text.drop_last()).step(text.last())
    }
}

/// Whether `text` keeps within the limits: outside strings and comments no
/// bracket or brace opens more than `MAX_NESTING` deep, and no line holds
/// more than `MAX_KEY_DOTS` dots.
pub open spec fn within_limits(text: Seq<char>) -> bool {
    !scan(text).over
}

/// Whether `text` keeps within the limits.
pub fn nests_within_limits(text: &str) -> (within: bool)
    ensures
        within == within_limits(text@),
{
    let mut state = Scan { mode: Mode::Plain, basic: false, depth: 0, dots: 0, over: false };
    for c in it: text.chars()
        invariant
            it.seq() == text@,
            state == scan(text@.take(it.index() as int)),
    {
        assert(text@.take(it.index() + 1).drop_last() == text@.take(it.index() as int));
        state = state.read(c);
    }
    assert(text@.take(text@.len() as int) == text@);
    !state.over
}

} // verus!
