//! Transform code blocks from rustdoc into markdown.
//!
//! Code block start tags are rewritten into their markdown equivalent:
//! "```", "```no_run", "```ignore" and "```should_panic" (bare or after
//! "rust,") become "```rust"; "```text" becomes a bare fence. Lines starting
//! with "# " inside a rust block are hidden, and markdown headings outside
//! code can be indented one level lower, so the crate name is at the top.

use vstd::prelude::*;

verus! {

/// Is this code block rust?
const REGEX_CODE_RUST: &'static str = "^```(rust|((rust,)?(no_run|ignore|should_panic)))?$";

/// Is this code block just text?
const REGEX_CODE_TEXT: &'static str = "^```text$";

/// Is this code block a language other than rust?
const REGEX_CODE_OTHER: &'static str = "^```\\w[\\w,\\+]*$";

/// Whether the regex crate's `\w` holds of a character outside ASCII
/// (Unicode Alphabetic, marks, decimal digits, connector punctuation, join controls).
pub uninterp spec fn unicode_word_char(c: char) -> bool;

/// What the regex `\w` accepts: `[0-9A-Za-z_]` on ASCII, the Unicode word characters beyond.
pub open spec fn is_word_char(c: char) -> bool {
    if (c as u32) < 128 {
        ('0' <= c && c <= '9') || ('a' <= c && c <= 'z') || ('A' <= c && c <= 'Z') || c == '_'
    } else {
        unicode_word_char(c)
    }
}

/// A fence that opens a rust sample, bare or with one of rustdoc's annotations.
pub open spec fn is_rust_fence(line: Seq<char>) -> bool {
    ||| line == "```"@
    ||| line == "```rust"@
    ||| line == "```no_run"@
    ||| line == "```ignore"@
    ||| line == "```should_panic"@
    ||| line == "```rust,no_run"@
    ||| line == "```rust,ignore"@
    ||| line == "```rust,should_panic"@
}

/// A fence that opens a plain text block.
pub open spec fn is_text_fence(line: Seq<char>) -> bool {
    line == "```text"@
}

/// A fence followed by a tag: a word character, then word characters, commas or plus signs.
pub open spec fn is_other_fence(line: Seq<char>) -> bool {
    &&& line.len() >= 4
    &&& line.take(3) == "```"@
    &&& is_word_char(line[3])
    &&& forall|i: int|
        4 <= i < line.len() ==> is_word_char(#[trigger] line[i]) || line[i] == ',' || line[i]
            == '+'
}

/// A line that closes any code block.
pub open spec fn is_fence_close(line: Seq<char>) -> bool {
    line == "```"@
}

/// A sample line that is compiled by doctests but not shown.
pub open spec fn is_hidden_line(line: Seq<char>) -> bool {
    line.len() >= 2 && line[0] == '#' && line[1] == ' '
}

/// A markdown heading of any level.
pub open spec fn is_heading(line: Seq<char>) -> bool {
    line.len() >= 1 && line[0] == '#'
}

/// Relies on `regex::Regex::new` and `regex::Regex::is_match` (the pattern is compiled
/// afresh on each call): each of the three fence
/// patterns compiles, and a match of a pattern anchored by `^` and `$` covers the whole text.
#[verifier::external_body]
fn regex_is_match(pattern: &str, text: &str) -> (r: Option<bool>)
    ensures
        pattern@ == REGEX_CODE_RUST@ ==> r == Some(is_rust_fence(text@)),
        pattern@ == REGEX_CODE_TEXT@ ==> r == Some(is_text_fence(text@)),
        pattern@ == REGEX_CODE_OTHER@ ==> r == Some(is_other_fence(text@)),
        pattern@ == REGEX_CODE_OTHER@ && text@.len() == 4 && text@.take(3) == "```"@ && text@[3]
            as u32 >= 128 ==> r == Some(unicode_word_char(text@[3])),
{
    match regex::Regex::new(pattern) {
        Ok(re) => Some(re.is_match(text)),
        Err(_) => None,
    }
}

/// Whether `line` starts with `#`.
fn starts_with_hash(line: &str) -> (r: bool)
    ensures
        r == is_heading(line@),
{
    line.unicode_len() >= 1 && line.get_char(0) == '#'
}

/// Whether `line` starts with `# `.
fn starts_with_hidden_marker(line: &str) -> (r: bool)
    ensures
        r == is_hidden_line(line@),
{
    line.unicode_len() >= 2 && line.get_char(0) == '#' && line.get_char(1) == ' '
}

/// Whether `line` is exactly three backticks.
fn is_bare_fence(line: &str) -> (r: bool)
    ensures
        r == is_fence_close(line@),
{
    proof {
        reveal_strlit("```");
    }
    let r = line.unicode_len() == 3 && line.get_char(0) == '`' && line.get_char(1) == '`'
        && line.get_char(2) == '`';
    assert(r ==> line@ =~= "```"@);
    r
}


/// Where a line stands with respect to code blocks.
#[derive(Clone, Copy, Debug, PartialEq, Eq, Structural)]
pub enum Section {
    /// Prose, outside any code block.
    NoCode,
    /// Inside a block of rust sample code.
    RustCode,
    /// Inside a block of text or of another language.
    OtherCode,
}

/// The section after `line` and what `line` is rewritten to, for a line that is not hidden.
pub open spec fn step(section: Section, indent_headings: bool, line: Seq<char>) -> (Section, Seq<
    char,
>) {
    if indent_headings && section == Section::NoCode && is_heading(line) {
        (Section::NoCode, seq!['#'] + line)
    } else if section == Section::NoCode && is_rust_fence(line) {
        (Section::RustCode, "```rust"@)
    } else if section == Section::NoCode && is_text_fence(line) {
        (Section::OtherCode, "```"@)
    } else if section == Section::NoCode && is_other_fence(line) {
        (Section::OtherCode, line)
    } else if section != Section::NoCode && is_fence_close(line) {
        (Section::NoCode, line)
    } else {
        (section, line)
    }
}

/// The output for `lines` read from `section` on.
pub open spec fn transform(section: Section, indent_headings: bool, lines: Seq<Seq<char>>) -> Seq<
    Seq<char>,
>
    decreases lines.len(),
{
    if lines.len() == 0 {
        seq![]
    } else if section == Section::RustCode && is_hidden_line(lines[0]) {
        transform(section, indent_headings, lines.drop_first())
    } else {
        let (next, out) = step(section, indent_headings, lines[0]);
        seq![out] + transform(next, indent_headings, lines.drop_first())
    }
}

/// The section reached after reading `lines` from `section` on.
pub open spec fn section_after(section: Section, indent_headings: bool, lines: Seq<Seq<char>>) -> Section
    decreases lines.len(),
{
    if lines.len() == 0 {
        section
    } else if section == Section::RustCode && is_hidden_line(lines[0]) {
        section_after(section, indent_headings, lines.drop_first())
    } else {
        section_after(step(section, indent_headings, lines[0]).0, indent_headings, lines.drop_first())
    }
}

/// The markdown rendering of a whole document.
pub open spec fn rendered(doc: Seq<Seq<char>>, indent_headings: bool) -> Seq<Seq<char>> {
    transform(Section::NoCode, indent_headings, doc)
}

/// The text of each line.
pub open spec fn lines_view(lines: Seq<String>) -> Seq<Seq<char>> {
    lines.map_values(|l: String| l@)
}

/// A line as a sequence of zero or one lines.
pub open spec fn option_lines(r: Option<String>) -> Seq<Seq<char>> {
    match r {
        Some(l) => seq![l@],
        None => seq![],
    }
}

/// Reading `line` first from `section`, the output is the rewritten line, then the rest.
proof fn lemma_transform_first(section: Section, indent_headings: bool, lines: Seq<Seq<char>>)
    requires
        lines.len() > 0,
        !(section == Section::RustCode && is_hidden_line(lines[0])),
    ensures
        transform(section, indent_headings, lines) == seq![step(section, indent_headings, lines[0]).1]
            + transform(step(section, indent_headings, lines[0]).0, indent_headings, lines.drop_first()),
{
}

/// Rewrites documentation lines one at a time, remembering whether they stand in a code block.
pub struct DocTransformer {
    lines: Vec<String>,
    pos: usize,
    indent_headings: bool,
    section: Section,
}

impl DocTransformer {
    /// The transformer is consistent: its cursor lies within its lines.
    pub closed spec fn wf(&self) -> bool {
        self.pos <= self.lines.len()
    }

    /// The lines not read yet.
    pub closed spec fn remaining(&self) -> Seq<Seq<char>> {
        lines_view(self.lines@).skip(self.pos as int)
    }

    /// The section that the next line is read in.
    pub closed spec fn section(&self) -> Section {
        self.section
    }

    /// Whether headings outside code are demoted.
    pub closed spec fn indents_headings(&self) -> bool {
        self.indent_headings
    }

    /// The lines still to be produced.
    pub open spec fn pending(&self) -> Seq<Seq<char>> {
        transform(self.section(), self.indents_headings(), self.remaining())
    }

    /// A transformer that reads `iter` from the start, outside any code block.
    pub fn new(iter: Vec<String>, indent_headings: bool) -> (r: Self)
        ensures
            r.wf(),
            r.remaining() == lines_view(iter@),
            r.section() == Section::NoCode,
            r.indents_headings() == indent_headings,
            r.pending() == rendered(lines_view(iter@), indent_headings),
    {
        let r = DocTransformer { lines: iter, pos: 0, indent_headings, section: Section::NoCode };
        assert(r.remaining() =~= lines_view(r.lines@));
        r
    }

    /// The next output line, or `None` once the input is exhausted.
    pub fn next(&mut self) -> (r: Option<String>)
        requires
            old(self).wf(),
        ensures
            final(self).wf(),
            final(self).indents_headings() == old(self).indents_headings(),
            old(self).pending() == option_lines(r) + final(self).pending(),
            r is None <==> old(self).pending().len() == 0,
            r is None ==> final(self).remaining().len() == 0,
            r is Some ==> final(self).remaining().len() < old(self).remaining().len(),
    {
        let ghost start = self.pending();
        let ghost len = self.remaining().len();
        if self.pos >= self.lines.len() {
            return None;
        }
        let mut line = self.lines[self.pos].clone();
        self.pos = self.pos + 1;
        proof {
            self.lemma_advance();
        }
        // Skip lines that should be hidden in docs
        while self.section == Section::RustCode && starts_with_hidden_marker(line.as_str())
            invariant
                1 <= self.pos <= self.lines.len(),
                line@ == lines_view(self.lines@)[self.pos - 1],
                start == transform(self.section, self.indent_headings, lines_view(self.lines@).skip(self.pos - 1)),
                lines_view(self.lines@).skip(self.pos - 1) == seq![line@] + self.remaining(),
                self.indents_headings() == old(self).indents_headings(),
                self.remaining().len() < len,
                start == old(self).pending(),
                len == old(self).remaining().len(),
            decreases self.lines.len() - self.pos,
        {
            proof {
                let seen = lines_view(self.lines@).skip(self.pos - 1);
                assert(seen.drop_first() =~= self.remaining());
                assert(seen[0] == line@);
                assert(start == transform(self.section, self.indent_headings, self.remaining()));
            }
            if self.pos >= self.lines.len() {
                assert(self.remaining().len() == 0);
                assert(option_lines(None) + self.pending() =~= seq![]);
                return None;
            }
            line = self.lines[self.pos].clone();
            self.pos = self.pos + 1;
            proof {
                self.lemma_advance();
            }
        }
        proof {
            lemma_transform_first(self.section, self.indent_headings, seq![line@] + self.remaining());
            assert((seq![line@] + self.remaining()).drop_first() =~= self.remaining());
        }
        let ghost next = step(self.section, self.indent_headings, line@);
        let out;
        // indent heading when outside code
        if self.indent_headings && self.section == Section::NoCode && starts_with_hash(line.as_str()) {
            let mut heading = String::from_str("#");
            heading.append(line.as_str());
            proof {
                reveal_strlit("#");
                assert(heading@ =~= seq!['#'] + line@);
            }
            out = heading;
        } else if self.section == Section::NoCode && matches!(regex_is_match(REGEX_CODE_RUST, line.as_str()), Some(true)) {
            self.section = Section::RustCode;
            out = String::from_str("```rust");
        } else if self.section == Section::NoCode && matches!(regex_is_match(REGEX_CODE_TEXT, line.as_str()), Some(true)) {
            self.section = Section::OtherCode;
            out = String::from_str("```");
        } else if self.section == Section::NoCode && matches!(regex_is_match(REGEX_CODE_OTHER, line.as_str()), Some(true)) {
            self.section = Section::OtherCode;
            out = line;
        } else if self.section != Section::NoCode && is_bare_fence(line.as_str()) {
            self.section = Section::NoCode;
            out = line;
        } else {
            out = line;
        }
        assert(self.section == next.0 && out@ == next.1);
        assert(option_lines(Some(out)) == seq![next.1]);
        Some(out)
    }

    /// Reading one line splits the lines not read yet into that line and the rest.
    proof fn lemma_advance(&self)
        requires
            1 <= self.pos <= self.lines.len(),
        ensures
            lines_view(self.lines@).skip(self.pos - 1) == seq![self.lines@[self.pos - 1]@] + self.remaining(),
    {
        assert(lines_view(self.lines@).skip(self.pos - 1) =~= seq![self.lines@[self.pos - 1]@] + self.remaining());
    }

    /// All the lines still to be produced.
    pub fn collect(self) -> (r: Vec<String>)
        requires
            self.wf(),
        ensures
            lines_view(r@) == self.pending(),
    {
        let mut t = self;
        let mut out: Vec<String> = Vec::new();
        loop
            invariant
                t.wf(),
                lines_view(out@) + t.pending() == self.pending(),
            decreases t.remaining().len(),
        {
            let ghost before = out@;
            match t.next() {
                Some(line) => {
                    out.push(line);
                    assert(lines_view(out@) =~= lines_view(before) + seq![line@]);
                },
                None => {
                    assert(lines_view(out@) + t.pending() =~= lines_view(out@));
                    return out;
                },
            }
        }
    }
}

/// Turns a sequence of documentation lines into a transformer over them.
pub trait DocTransform: Sized {
    /// The documentation lines that `self` holds.
    spec fn doc_lines(&self) -> Seq<Seq<char>>;

    /// A transformer over the lines of `self`, with headings demoted if `indent_headings`.
    fn transform_doc(self, indent_headings: bool) -> (r: DocTransformer)
        ensures
            r.wf(),
            r.indents_headings() == indent_headings,
            r.pending() == rendered(self.doc_lines(), indent_headings),
    ;
}

impl DocTransform for Vec<String> {
    open spec fn doc_lines(&self) -> Seq<Seq<char>> {
        lines_view(self@)
    }

    fn transform_doc(self, indent_headings: bool) -> (r: DocTransformer) {
        DocTransformer::new(self, indent_headings)
    }
}

} // verus!
