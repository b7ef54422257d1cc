//! How deep a TOML text nests.
//!
//! The TOML parser calls itself once for every array, inline table and part
//! of a dotted name that is open at a place, so a text that nests without
//! end exhausts the stack. This module reads a text as the parser's
//! tokenizer does, as far as strings, comments and brackets go, and finds
//! the deepest place in it. Nothing in a string or a comment counts, a
//! bracket counts while it is open, and a dot counts only between the parts
//! of a key or of a table's name.

use vstd::prelude::*;

verus! {

/// What the scanner is in the middle of.
#[derive(Debug, Clone, Copy, PartialEq, Eq)]
pub enum Mode {
    /// Between tokens.
    Plain,
    /// In a comment, up to the end of the line.
    Comment,
    /// In the name of a table, between `[` and `]`.
    Header,
    /// In a quoted part of a table's name, between `"` and `"`.
    HeaderBasic,
    /// Behind a backslash in such a part.
    HeaderEscape,
    /// In a quoted part of a table's name, between `'` and `'`.
    HeaderLiteral,
    /// Behind the `]` of a table's name, up to the end of the line.
    HeaderTail,
    /// Behind one opening quote. `basic` tells `"` from `'`.
    Open1 { basic: bool },
    /// Behind two opening quotes: an empty string, or the start of a string
    /// of several lines.
    Open2 { basic: bool },
    /// In a string of one line.
    Line { basic: bool },
    /// Behind a backslash in a string of one line.
    LineEscape,
    /// In a string of several lines.
    Multi { basic: bool },
    /// Behind a backslash in a string of several lines.
    MultiEscape,
    /// Behind one quote in a string of several lines.
    MultiQuote1 { basic: bool },
    /// Behind two quotes in a string of several lines.
    MultiQuote2 { basic: bool },
    /// Behind the three quotes that close a string of several lines. Up to
    /// two more quotes still belong to it.
    Closed3 { basic: bool },
    /// Behind four such quotes.
    Closed4 { basic: bool },
}

/// What the scanner keeps of the place around an open bracket, to go back
/// to when the bracket closes.
pub ghost struct Frame {
    /// Whether the place around is a table, not an array.
    pub table: bool,
    /// The depth at which the keys around start.
    pub floor: nat,
    /// The depth in front of the bracket.
    pub resume: nat,
}

/// The scanner's state behind some part of a text.
pub ghost struct Scan {
    pub mode: Mode,
    /// Whether a statement starts here: nothing but blanks and comments
    /// stood on the top level since the last end of a line.
    pub start: bool,
    /// Whether a value is due or under way, so that a dot joins no names.
    pub in_value: bool,
    /// Whether the innermost open place is a table, not an array.
    pub table: bool,
    /// The depth that the name of the table takes to which the statements
    /// belong: two for each of its parts.
    pub header: nat,
    /// The depth at which the keys of the innermost place start.
    pub floor: nat,
    /// The depth here.
    pub depth: nat,
    /// The open brackets, outermost first.
    pub frames: Seq<Frame>,
    /// The greatest depth so far.
    pub deepest: nat,
}

impl Scan {
    /// The state in front of a text.
    pub open spec fn initial() -> Scan {
        Scan {
            mode: Mode::Plain,
            start: true,
            in_value: false,
            table: true,
            header: 0,
            floor: 0,
            depth: 0,
            frames: Seq::empty(),
            deepest: 0,
        }
    }

    /// The same place in another mode.
    pub open spec fn at(self, mode: Mode) -> Scan {
        Scan { mode, ..self }
    }

    /// The same place, once a token has begun a statement.
    pub open spec fn begun(self, mode: Mode) -> Scan {
        Scan { mode, start: false, ..self }
    }

    /// Behind the end of a line. On the top level the next statement starts
    /// at the depth of its table; inside brackets nothing changes.
    pub open spec fn end_line(self) -> Scan {
        if self.frames.len() == 0 {
            Scan {
                mode: Mode::Plain,
                start: true,
                in_value: false,
                floor: self.header,
                depth: self.header,
                ..self
            }
        } else {
            self.at(Mode::Plain)
        }
    }

    /// Behind the `[` that starts the name of a table. Each part of the name
    /// counts for two levels: the table that it names may be the last of an
    /// array of tables.
    pub open spec fn name_table(self) -> Scan {
        Scan { mode: Mode::Header, start: false, header: 2, floor: 2, depth: 2, ..self }
    }

    /// Behind a dot between two parts of the name of a table.
    pub open spec fn name_part(self) -> Scan {
        Scan { header: self.depth + 2, floor: self.depth + 2, depth: self.depth + 2, ..self }
    }

    /// Behind an opening bracket: one level deeper, in an inline table or in
    /// an array.
    pub open spec fn opened(self, table: bool) -> Scan {
        Scan {
            mode: Mode::Plain,
            start: false,
            in_value: false,
            table,
            floor: self.depth + 1,
            depth: self.depth + 1,
            frames: self.frames.push(
                Frame { table: self.table, floor: self.floor, resume: self.depth },
            ),
            ..self
        }
    }

    /// Behind a closing bracket: back where the bracket opened, with the
    /// value there complete.
    pub open spec fn closed(self) -> Scan {
        if self.frames.len() == 0 {
            self.begun(Mode::Plain)
        } else {
            Scan {
                mode: Mode::Plain,
                start: false,
                in_value: true,
                table: self.frames.last().table,
                floor: self.frames.last().floor,
                depth: self.frames.last().resume,
                frames: self.frames.drop_last(),
                ..self
            }
        }
    }

    /// Behind a comma: in an inline table the next key starts.
    pub open spec fn separated(self) -> Scan {
        if self.table && self.frames.len() > 0 {
            Scan { mode: Mode::Plain, start: false, in_value: false, depth: self.floor, ..self }
        } else {
            self.begun(Mode::Plain)
        }
    }

    /// Behind a dot: one level deeper where it joins two parts of a key.
    pub open spec fn dotted(self) -> Scan {
        if self.table && !self.in_value {
            Scan { mode: Mode::Plain, start: false, depth: self.depth + 1, ..self }
        } else {
            self.begun(Mode::Plain)
        }
    }

    /// Behind a character that stands between tokens or starts one.
    pub open spec fn plain(self, c: char) -> Scan {
        if c == ' ' || c == '\t' || c == '\r' || c == '\u{feff}' {
            self.at(Mode::Plain)
        } else if c == '\n' {
            self.end_line()
        } else if c == '#' {
            self.at(Mode::Comment)
        } else if c == '"' {
            self.begun(Mode::Open1 { basic: true })
        } else if c == '\'' {
            self.begun(Mode::Open1 { basic: false })
        } else if c == '[' {
            if self.start {
                self.name_table()
            } else {
                self.opened(false)
            }
        } else if c == '{' {
            self.opened(true)
        } else if c == ']' || c == '}' {
            self.closed()
        } else if c == ',' {
            self.separated()
        } else if c == '=' {
            Scan { mode: Mode::Plain, start: false, in_value: true, ..self }
        } else if c == '.' {
            self.dotted()
        } else {
            self.begun(Mode::Plain)
        }
    }

    /// Behind a character of the name of a table.
    pub open spec fn header(self, c: char) -> Scan {
        if c == '\n' {
            self.end_line()
        } else if c == '.' {
            self.name_part()
        } else if c == '"' {
            self.at(Mode::HeaderBasic)
        } else if c == '\'' {
            self.at(Mode::HeaderLiteral)
        } else if c == ']' {
            self.at(Mode::HeaderTail)
        } else {
            self
        }
    }

    /// Behind a character of a string of one line.
    pub open spec fn line(self, basic: bool, c: char) -> Scan {
        if c == quote(basic) || c == '\n' {
            self.at(Mode::Plain)
        } else if basic && c == '\\' {
            self.at(Mode::LineEscape)
        } else {
            self.at(Mode::Line { basic })
        }
    }

    /// Behind a character of a string of several lines.
    pub open spec fn multi(self, basic: bool, c: char) -> Scan {
        if c == quote(basic) {
            self.at(Mode::MultiQuote1 { basic })
        } else if basic && c == '\\' {
            self.at(Mode::MultiEscape)
        } else {
            self.at(Mode::Multi { basic })
        }
    }

    /// The state behind one more character, but for the greatest depth.
    pub open spec fn moved(self, c: char) -> Scan {
        match self.mode {
            Mode::Plain => self.plain(c),
            Mode::Comment => if c == '\n' {
                self.end_line()
            } else {
                self
            },
            Mode::Header => self.header(c),
            Mode::HeaderBasic => if c == '\n' {
                self.end_line()
            } else if c == '"' {
                self.at(Mode::Header)
            } else if c == '\\' {
                self.at(Mode::HeaderEscape)
            } else {
                self
            },
            Mode::HeaderEscape => if c == '\n' {
                self.end_line()
            } else {
                self.at(Mode::HeaderBasic)
            },
            Mode::HeaderLiteral => if c == '\n' {
                self.end_line()
            } else if c == '\'' {
                self.at(Mode::Header)
            } else {
                self
            },
            Mode::HeaderTail => if c == '\n' {
                self.end_line()
            } else {
                self
            },
            Mode::Open1 { basic } => if c == quote(basic) {
                self.at(Mode::Open2 { basic })
            } else {
                self.line(basic, c)
            },
            Mode::Open2 { basic } => if c == quote(basic) {
                self.at(Mode::Multi { basic })
            } else {
                self.plain(c)
            },
            Mode::Line { basic } => self.line(basic, c),
            Mode::LineEscape => self.at(Mode::Line { basic: true }),
            Mode::Multi { basic } => self.multi(basic, c),
            Mode::MultiEscape => self.at(Mode::Multi { basic: true }),
            Mode::MultiQuote1 { basic } => if c == quote(basic) {
                self.at(Mode::MultiQuote2 { basic })
            } else {
                self.multi(basic, c)
            },
            Mode::MultiQuote2 { basic } => if c == quote(basic) {
                self.at(Mode::Closed3 { basic })
            } else {
                self.multi(basic, c)
            },
            Mode::Closed3 { basic } => if c == quote(basic) {
                self.at(Mode::Closed4 { basic })
            } else {
                self.plain(c)
            },
            Mode::Closed4 { basic } => if c == quote(basic) {
                self.at(Mode::Plain)
            } else {
                self.plain(c)
            },
        }
    }

    /// The state behind one more character.
    pub open spec fn step(self, c: char) -> Scan {
        let next = self.moved(c);
        Scan { deepest: if next.depth > self.deepest { next.depth } else { self.deepest }, ..next }
    }
}

/// The quote that delimits a string: `"` for a basic one, `'` for a literal
/// one.
pub open spec fn quote(basic: bool) -> char {
    if basic {
        '"'
    } else {
        '\''
    }
}

/// The scanner's state behind a whole text.
pub open spec fn scan(text: Seq<char>) -> Scan
    decreases text.len(),
{
    if text.len() == 0 {
        Scan::initial()
    } else {
        scan(text.drop_last()).step(text.last())
    }
}

/// How deep a text nests: the greatest number of key parts, arrays and
/// inline tables that are open at one place of it, with two for each part of
/// the name of the table that the place belongs to.
pub open spec fn nesting_depth(text: Seq<char>) -> nat {
    scan(text).deepest
}

/// The deepest nesting with which a text is handed to the TOML parser. The
/// parser takes some three kilobytes of stack for a level, so that this many
/// levels take less than half of the two megabytes that a thread has by
/// default.
pub const MAX_NESTING: usize = 256;

/// An open bracket, as the scanner holds it while it runs.
#[derive(Debug, Clone, Copy)]
struct Saved {
    table: bool,
    floor: usize,
    resume: usize,
}

impl Saved {
    /// The frame that this stands for.
    spec fn frame(&self) -> Frame {
        Frame { table: self.table, floor: self.floor as nat, resume: self.resume as nat }
    }
}

/// The scanner as it runs. It gives up, with `over` set, as soon as the
/// depth passes [`MAX_NESTING`].
struct Scanner {
    mode: Mode,
    start: bool,
    in_value: bool,
    table: bool,
    header: usize,
    floor: usize,
    depth: usize,
    frames: Vec<Saved>,
    over: bool,
}

impl Scanner {
    /// Whether this scanner stands where `state` does.
    spec fn agrees(&self, state: Scan) -> bool {
        &&& self.mode == state.mode
        &&& self.start == state.start
        &&& self.in_value == state.in_value
        &&& self.table == state.table
        &&& self.header == state.header
        &&& self.floor == state.floor
        &&& self.depth == state.depth
        &&& self.frames.len() == state.frames.len()
        &&& forall|i: int| 0 <= i < self.frames.len() ==> self.frames[i].frame() == state.frames[i]
    }

    fn new() -> (scanner: Self)
        ensures
            !scanner.over,
            scanner.agrees(Scan::initial()),
    {
        Scanner {
            mode: Mode::Plain,
            start: true,
            in_value: false,
            table: true,
            header: 0,
            floor: 0,
            depth: 0,
            frames: Vec::new(),
            over: false,
        }
    }

    /// One level deeper, or over the limit.
    fn deepen(&mut self, limit: usize)
        requires
            !old(self).over,
        ensures
            final(self).over == (old(self).depth >= limit),
            !final(self).over ==> final(self).depth == old(self).depth + 1,
            final(self).mode == old(self).mode,
            final(self).start == old(self).start,
            final(self).in_value == old(self).in_value,
            final(self).table == old(self).table,
            final(self).header == old(self).header,
            final(self).floor == old(self).floor,
            final(self).frames == old(self).frames,
    {
        if self.depth >= limit {
            self.over = true;
        } else {
            self.depth = self.depth + 1;
        }
    }

    fn end_line(&mut self, Ghost(state): Ghost<Scan>)
        requires
            !old(self).over,
            old(self).agrees(state),
        ensures
            !final(self).over,
            final(self).agrees(state.end_line()),
    {
        self.mode = Mode::Plain;
        if self.frames.len() == 0 {
            self.start = true;
            self.in_value = false;
            self.floor = self.header;
            self.depth = self.header;
        }
    }

    fn opened(&mut self, table: bool, limit: usize, Ghost(state): Ghost<Scan>)
        requires
            !old(self).over,
            old(self).agrees(state),
        ensures
            final(self).over == (state.opened(table).depth > limit),
            !final(self).over ==> final(self).agrees(state.opened(table)),
    {
        let saved = Saved { table: self.table, floor: self.floor, resume: self.depth };
        self.deepen(limit);
        if !self.over {
            self.frames.push(saved);
            self.mode = Mode::Plain;
            self.start = false;
            self.in_value = false;
            self.table = table;
            self.floor = self.depth;
        }
    }

    fn closed(&mut self, Ghost(state): Ghost<Scan>)
        requires
            !old(self).over,
            old(self).agrees(state),
        ensures
            !final(self).over,
            final(self).agrees(state.closed()),
    {
        self.mode = Mode::Plain;
        self.start = false;
        match self.frames.pop() {
            Some(saved) => {
                self.in_value = true;
                self.table = saved.table;
                self.floor = saved.floor;
                self.depth = saved.resume;
            },
            None => {},
        }
    }

    fn plain(&mut self, c: char, limit: usize, Ghost(state): Ghost<Scan>)
        requires
            !old(self).over,
            old(self).agrees(state),
        ensures
            final(self).over ==> state.plain(c).depth > limit,
            !final(self).over ==> final(self).agrees(state.plain(c)),
    {
        if c == ' ' || c == '\t' || c == '\r' || c == '\u{feff}' {
            self.mode = Mode::Plain;
        } else if c == '\n' {
            self.end_line(Ghost(state));
        } else if c == '#' {
            self.mode = Mode::Comment;
        } else if c == '"' {
            self.mode = Mode::Open1 { basic: true };
            self.start = false;
        } else if c == '\'' {
            self.mode = Mode::Open1 { basic: false };
            self.start = false;
        } else if c == '[' {
            if self.start {
                self.mode = Mode::Header;
                self.start = false;
                self.header = 2;
                self.floor = 2;
                self.depth = 2;
            } else {
                self.opened(false, limit, Ghost(state));
            }
        } else if c == '{' {
            self.opened(true, limit, Ghost(state));
        } else if c == ']' || c == '}' {
            self.closed(Ghost(state));
        } else if c == ',' {
            self.mode = Mode::Plain;
            self.start = false;
            if self.table && self.frames.len() > 0 {
                self.in_value = false;
                self.depth = self.floor;
            }
        } else if c == '=' {
            self.mode = Mode::Plain;
            self.start = false;
            self.in_value = true;
        } else if c == '.' {
            self.mode = Mode::Plain;
            self.start = false;
            if self.table && !self.in_value {
                self.deepen(limit);
            }
        } else {
            self.mode = Mode::Plain;
            self.start = false;
        }
    }

    fn line(&mut self, basic: bool, c: char, Ghost(state): Ghost<Scan>)
        requires
            !old(self).over,
            old(self).agrees(state),
        ensures
            !final(self).over,
            final(self).agrees(state.line(basic, c)),
    {
        if c == (if basic { '"' } else { '\'' }) || c == '\n' {
            self.mode = Mode::Plain;
        } else if basic && c == '\\' {
            self.mode = Mode::LineEscape;
        } else {
            self.mode = Mode::Line { basic };
        }
    }

    fn multi(&mut self, basic: bool, c: char, Ghost(state): Ghost<Scan>)
        requires
            !old(self).over,
            old(self).agrees(state),
        ensures
            !final(self).over,
            final(self).agrees(state.multi(basic, c)),
    {
        if c == (if basic { '"' } else { '\'' }) {
            self.mode = Mode::MultiQuote1 { basic };
        } else if basic && c == '\\' {
            self.mode = Mode::MultiEscape;
        } else {
            self.mode = Mode::Multi { basic };
        }
    }

    fn header(&mut self, c: char, limit: usize, Ghost(state): Ghost<Scan>)
        requires
            !old(self).over,
            old(self).agrees(state),
        ensures
            final(self).over ==> state.header(c).depth > limit,
            !final(self).over ==> final(self).agrees(state.header(c)),
    {
        if c == '\n' {
            self.end_line(Ghost(state));
        } else if c == '.' {
            self.deepen(limit);
            if !self.over {
                self.deepen(limit);
            }
            if !self.over {
                self.header = self.depth;
                self.floor = self.depth;
            }
        } else if c == '"' {
            self.mode = Mode::HeaderBasic;
        } else if c == '\'' {
            self.mode = Mode::HeaderLiteral;
        } else if c == ']' {
            self.mode = Mode::HeaderTail;
        }
    }

    /// Takes one more character of a comment or of the name of a table.
    fn in_header(&mut self, c: char, limit: usize, Ghost(state): Ghost<Scan>)
        requires
            !old(self).over,
            old(self).agrees(state),
            old(self).mode is Comment || old(self).mode is Header || old(self).mode is HeaderBasic
                || old(self).mode is HeaderEscape || old(self).mode is HeaderLiteral || old(
                self,
            ).mode is HeaderTail,
        ensures
            final(self).over ==> state.moved(c).depth > limit,
            !final(self).over ==> final(self).agrees(state.moved(c)),
    {
        match self.mode {
            Mode::Header => self.header(c, limit, Ghost(state)),
            Mode::HeaderBasic => if c == '\n' {
                self.end_line(Ghost(state));
            } else if c == '"' {
                self.mode = Mode::Header;
            } else if c == '\\' {
                self.mode = Mode::HeaderEscape;
            },
            Mode::HeaderEscape => if c == '\n' {
                self.end_line(Ghost(state));
            } else {
                self.mode = Mode::HeaderBasic;
            },
            Mode::HeaderLiteral => if c == '\n' {
                self.end_line(Ghost(state));
            } else if c == '\'' {
                self.mode = Mode::Header;
            },
            _ => if c == '\n' {
                self.end_line(Ghost(state));
            },
        }
    }

    /// Takes one more character where a string opens or closes.
    fn at_quotes(&mut self, basic: bool, c: char, limit: usize, Ghost(state): Ghost<Scan>)
        requires
            !old(self).over,
            old(self).agrees(state),
            old(self).mode == (Mode::Open1 { basic }) || old(self).mode == (Mode::Open2 { basic })
                || old(self).mode == (Mode::Closed3 { basic }) || old(self).mode == (Mode::Closed4 {
                basic,
            }),
        ensures
            final(self).over ==> state.moved(c).depth > limit,
            !final(self).over ==> final(self).agrees(state.moved(c)),
    {
        let delimiter = if basic {
            '"'
        } else {
            '\''
        };
        match self.mode {
            Mode::Open1 { .. } => if c == delimiter {
                self.mode = Mode::Open2 { basic };
            } else {
                self.line(basic, c, Ghost(state));
            },
            Mode::Open2 { .. } => if c == delimiter {
                self.mode = Mode::Multi { basic };
            } else {
                self.plain(c, limit, Ghost(state));
            },
            Mode::Closed3 { .. } => if c == delimiter {
                self.mode = Mode::Closed4 { basic };
            } else {
                self.plain(c, limit, Ghost(state));
            },
            _ => if c == delimiter {
                self.mode = Mode::Plain;
            } else {
                self.plain(c, limit, Ghost(state));
            },
        }
    }

    /// Takes one more character inside a string.
    fn in_string(&mut self, c: char, Ghost(state): Ghost<Scan>)
        requires
            !old(self).over,
            old(self).agrees(state),
            old(self).mode is Line || old(self).mode is LineEscape || old(self).mode is Multi
                || old(self).mode is MultiEscape || old(self).mode is MultiQuote1 || old(
                self,
            ).mode is MultiQuote2,
        ensures
            !final(self).over,
            final(self).agrees(state.moved(c)),
    {
        match self.mode {
            Mode::Line { basic } => self.line(basic, c, Ghost(state)),
            Mode::LineEscape => {
                self.mode = Mode::Line { basic: true };
            },
            Mode::Multi { basic } => self.multi(basic, c, Ghost(state)),
            Mode::MultiEscape => {
                self.mode = Mode::Multi { basic: true };
            },
            Mode::MultiQuote1 { basic } => if c == (if basic {
                '"'
            } else {
                '\''
            }) {
                self.mode = Mode::MultiQuote2 { basic };
            } else {
                self.multi(basic, c, Ghost(state));
            },
            Mode::MultiQuote2 { basic } => if c == (if basic {
                '"'
            } else {
                '\''
            }) {
                self.mode = Mode::Closed3 { basic };
            } else {
                self.multi(basic, c, Ghost(state));
            },
            _ => {},
        }
    }

    /// Takes one more character, but for the check against the limit.
    fn shift(&mut self, c: char, limit: usize, Ghost(state): Ghost<Scan>)
        requires
            !old(self).over,
            old(self).agrees(state),
        ensures
            final(self).over ==> state.moved(c).depth > limit,
            !final(self).over ==> final(self).agrees(state.moved(c)),
    {
        match self.mode {
            Mode::Plain => self.plain(c, limit, Ghost(state)),
            Mode::Comment
            | Mode::Header
            | Mode::HeaderBasic
            | Mode::HeaderEscape
            | Mode::HeaderLiteral
            | Mode::HeaderTail => self.in_header(c, limit, Ghost(state)),
            Mode::Open1 { basic }
            | Mode::Open2 { basic }
            | Mode::Closed3 { basic }
            | Mode::Closed4 { basic } => self.at_quotes(basic, c, limit, Ghost(state)),
            _ => self.in_string(c, Ghost(state)),
        }
    }

    /// Takes one more character.
    fn advance(&mut self, c: char, limit: usize, Ghost(state): Ghost<Scan>)
        requires
            !old(self).over,
            old(self).agrees(state),
            state.deepest <= limit,
        ensures
            final(self).over == (state.step(c).deepest > limit),
            !final(self).over ==> final(self).agrees(state.step(c)),
    {
        self.shift(c, limit, Ghost(state));
        if !self.over && self.depth > limit {
            self.over = true;
        }
    }
}

/// Whether a text nests no deeper than `limit`.
pub fn nests_within(text: &str, limit: usize) -> (within: bool)
    ensures
        within == (nesting_depth(text@) <= limit),
{
    let mut scanner = Scanner::new();
    for c in seen: text.chars()
        invariant
            seen.seq() == text@,
            scanner.over ==> scan(text@.take(seen.index())).deepest > limit,
            !scanner.over ==> scanner.agrees(scan(text@.take(seen.index()))) && scan(
                text@.take(seen.index()),
            ).deepest <= limit,
    {
        proof {
            let next = seen.index() + 1;
            assert(text@.take(next).drop_last() =~= text@.take(seen.index()));
            assert(text@.take(next).last() == c);
        }
        if !scanner.over {
            scanner.advance(c, limit, Ghost(scan(text@.take(seen.index()))));
        }
    }
    proof {
        assert(text@.take(text@.len() as int) =~= text@);
    }
    !scanner.over
}

/// Whether a text nests no deeper than [`MAX_NESTING`], so that it can be
/// parsed.
pub fn nests_within_limit(text: &str) -> (within: bool)
    ensures
        within == (nesting_depth(text@) <= MAX_NESTING),
{
    nests_within(text, MAX_NESTING)
}

} // verus!
