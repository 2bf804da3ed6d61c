//! Splitting a document into lines of styled fragments with syntect.
use vstd::prelude::*;
use syntect::easy::HighlightLines;
use syntect::highlighting::{Theme, ThemeSet};
use syntect::parsing::{SyntaxReference, SyntaxSet};
use syntect::util::LinesWithEndings;
use std::path::Path;
use crate::text::{line_count_of, lemma_newline_count_concat, lemma_no_newline, newline_count};

verus! {

#[verifier::external_type_specification]
#[verifier::external_body]
pub struct ExSyntaxSet(SyntaxSet);

#[verifier::external_type_specification]
#[verifier::external_body]
pub struct ExSyntaxReference(SyntaxReference);

#[verifier::external_type_specification]
#[verifier::external_body]
pub struct ExThemeSet(ThemeSet);

#[verifier::external_type_specification]
#[verifier::external_body]
pub struct ExTheme(Theme);

#[verifier::external_type_specification]
#[verifier::external_body]
pub struct ExHighlightLines<'a>(HighlightLines<'a>);

/// The grammars bundled with syntect, in the form that expects each line to
/// keep its `'\n'`.
pub assume_specification[ SyntaxSet::load_defaults_newlines ]() -> SyntaxSet;

/// The color themes bundled with syntect.
pub assume_specification[ ThemeSet::load_defaults ]() -> ThemeSet;

/// The grammar named `name`, if any.
pub assume_specification<'a>[ SyntaxSet::find_syntax_by_name ](
    set: &'a SyntaxSet,
    name: &str,
) -> Option<&'a SyntaxReference>;

/// A tokenizer for `syntax`, styled by `theme`, at the start of a text.
pub assume_specification<'a>[ HighlightLines::<'a>::new ](
    syntax: &SyntaxReference,
    theme: &'a Theme,
) -> HighlightLines<'a>;

/// Name of the color theme the viewer uses.
pub const THEME_NAME: &'static str = "base16-ocean.dark";

/// Name of the grammar that leaves text unstyled.
pub const PLAIN_TEXT: &'static str = "Plain Text";

/// Bit of `FragmentStyle::font_bits` for bold text.
pub const BOLD_BIT: u8 = 1;

/// Bit of `FragmentStyle::font_bits` for italic text.
pub const ITALIC_BIT: u8 = 4;

/// How a fragment is drawn: its foreground color and font flags.
#[derive(Clone, Copy, Debug, PartialEq, Eq)]
pub struct FragmentStyle {
    pub red: u8,
    pub green: u8,
    pub blue: u8,
    pub font_bits: u8,
}

impl FragmentStyle {
    /// Black, upright, regular weight: the style of text that the tokenizer
    /// could not handle.
    pub fn plain() -> (r: FragmentStyle)
        ensures
            r == (FragmentStyle { red: 0, green: 0, blue: 0, font_bits: 0 }),
    {
        FragmentStyle { red: 0, green: 0, blue: 0, font_bits: 0 }
    }

    pub fn is_bold(&self) -> (r: bool)
        ensures
            r == (self.font_bits & BOLD_BIT != 0),
    {
        self.font_bits & BOLD_BIT != 0
    }

    pub fn is_italic(&self) -> (r: bool)
        ensures
            r == (self.font_bits & ITALIC_BIT != 0),
    {
        self.font_bits & ITALIC_BIT != 0
    }
}

/// A run of text drawn in one style.
#[derive(Clone, Debug)]
pub struct Fragment {
    pub style: FragmentStyle,
    pub text: String,
}

/// The text of `frags`, in order.
pub open spec fn fragments_text(frags: Seq<Fragment>) -> Seq<char>
    decreases frags.len(),
{
    if frags.len() == 0 {
        Seq::empty()
    } else {
        fragments_text(frags.drop_last()) + frags.last().text@
    }
}

/// The text of all lines of `lines`, in order.
pub open spec fn lines_text(lines: Seq<Vec<Fragment>>) -> Seq<char>
    decreases lines.len(),
{
    if lines.len() == 0 {
        Seq::empty()
    } else {
        lines_text(lines.drop_last()) + fragments_text(lines.last()@)
    }
}

/// The strings of `parts`, one after the other.
pub open spec fn joined(parts: Seq<String>) -> Seq<char>
    decreases parts.len(),
{
    if parts.len() == 0 {
        Seq::empty()
    } else {
        joined(parts.drop_last()) + parts.last()@
    }
}

/// `line` is a line of a text cut after each `'\n'`: it is not empty, has no
/// `'\n'` but perhaps at its end, and ends with one unless it is the last.
pub open spec fn is_line(line: Seq<char>, is_last: bool) -> bool {
    &&& line.len() > 0
    &&& forall|j: int| 0 <= j < line.len() - 1 ==> line[j] != '\n'
    &&& !is_last ==> line.last() == '\n'
}

/// What `std::path::Path::extension` gives for a path: the part of its file
/// name after the last `.`.
pub uninterp spec fn path_extension(path: Seq<char>) -> Option<Seq<char>>;

/// What `std::path::Path::file_name` gives for a path: its last component.
pub uninterp spec fn path_file_name(path: Seq<char>) -> Option<Seq<char>>;

/// Name of the bundled grammar that lists `extension` among its file
/// extensions, as `SyntaxSet::find_syntax_by_extension` finds it.
pub uninterp spec fn grammar_by_extension(extension: Seq<char>) -> Option<Seq<char>>;

/// Name of the bundled grammar whose first-line pattern (a shebang, a mode
/// line) matches `line`, as `SyntaxSet::find_syntax_by_first_line` finds it.
pub uninterp spec fn grammar_by_first_line(line: Seq<char>) -> Option<Seq<char>>;

/// The view of an optional grammar name.
pub open spec fn name_view(name: Option<String>) -> Option<Seq<char>> {
    match name {
        Some(n) => Some(n@),
        None => None,
    }
}

/// The grammar for a file at `path` whose first line is `first_line`: by
/// the path's extension, else by its whole file name (as for `Makefile`),
/// else by the patterns that grammars give for a first line.
pub open spec fn detected_grammar(path: Seq<char>, first_line: Seq<char>) -> Option<Seq<char>> {
    let by_extension = match path_extension(path) {
        Some(e) => grammar_by_extension(e),
        None => None,
    };
    let by_file_name = match path_file_name(path) {
        Some(n) => grammar_by_extension(n),
        None => None,
    };
    if by_extension is Some {
        by_extension
    } else if by_file_name is Some {
        by_file_name
    } else {
        grammar_by_first_line(first_line)
    }
}

/// Relies on `std::path::Path::extension`, read as text.
#[verifier::external_body]
fn extension_of(path: &str) -> (r: Option<&str>)
    ensures
        r is Some <==> path_extension(path@) is Some,
        r is Some ==> r->0@ == path_extension(path@)->0,
{
    Path::new(path).extension().and_then(|e| e.to_str())
}

/// Relies on `std::path::Path::file_name`, read as text.
#[verifier::external_body]
fn file_name_of(path: &str) -> (r: Option<&str>)
    ensures
        r is Some <==> path_file_name(path@) is Some,
        r is Some ==> r->0@ == path_file_name(path@)->0,
{
    Path::new(path).file_name().and_then(|e| e.to_str())
}

/// Relies on `ThemeSet::themes`: the theme stored under `name`, if any.
#[verifier::external_body]
fn theme_named<'a>(themes: &'a ThemeSet, name: &str) -> Option<&'a Theme> {
    themes.themes.get(name)
}

/// Relies on `syntect::util::LinesWithEndings`: the text cut after each
/// `'\n'`, each piece keeping its terminator, no piece empty.
#[verifier::external_body]
fn split_lines(s: &str) -> (r: Vec<String>)
    ensures
        joined(r@) == s@,
        forall|i: int| 0 <= i < r.len() ==> is_line(#[trigger] r[i]@, i == r.len() - 1),
{
    LinesWithEndings::from(s).map(|l| l.to_string()).collect()
}

/// Relies on `HighlightLines::highlight_line`: on success, the texts of the
/// styled pieces it returns are consecutive slices of the line from its
/// start. They make up the whole line unless the styling stopped early, which
/// a line that failed to parse before can cause.
#[verifier::external_body]
fn highlight_line(h: &mut HighlightLines<'_>, line: &str, set: &SyntaxSet) -> (r: Option<
    Vec<Fragment>,
>)
    ensures
        r matches Some(v) ==> fragments_text(v@).len() <= line@.len(),
        r matches Some(v) ==> fragments_text(v@) == line@.subrange(
            0,
            fragments_text(v@).len() as int,
        ),
{
    h.highlight_line(line, set).ok().map(|v| v.into_iter().map(|(s, t)| Fragment {
        style: FragmentStyle {
            red: s.foreground.r,
            green: s.foreground.g,
            blue: s.foreground.b,
            font_bits: s.font_style.bits(),
        },
        text: t.to_string(),
    }).collect())
}

/// `line` as one fragment in the plain style.
pub fn plain_line(line: &str) -> (r: Vec<Fragment>)
    ensures
        r.len() == 1,
        r[0].style == (FragmentStyle { red: 0, green: 0, blue: 0, font_bits: 0 }),
        fragments_text(r@) == line@,
{
    let mut r: Vec<Fragment> = Vec::new();
    r.push(Fragment { style: FragmentStyle::plain(), text: line.to_owned() });
    proof {
        assert(r@.drop_last() =~= Seq::<Fragment>::empty());
        assert(fragments_text(r@.drop_last()) =~= Seq::<char>::empty());
        assert(fragments_text(r@) =~= line@);
    }
    r
}

proof fn lemma_fragments_step(frags: Seq<Fragment>, k: int)
    requires
        0 <= k < frags.len(),
    ensures
        fragments_text(frags.subrange(0, k + 1)) == fragments_text(frags.subrange(0, k))
            + frags[k].text@,
{
    assert(frags.subrange(0, k + 1).drop_last() =~= frags.subrange(0, k));
}

proof fn lemma_fragments_prefix_len(frags: Seq<Fragment>, k: int)
    requires
        0 <= k <= frags.len(),
    ensures
        fragments_text(frags.subrange(0, k)).len() <= fragments_text(frags).len(),
    decreases frags.len() - k,
{
    if k == frags.len() {
        assert(frags.subrange(0, k) =~= frags);
    } else {
        lemma_fragments_step(frags, k);
        lemma_fragments_prefix_len(frags, k + 1);
    }
}

/// Number of characters in the fragments' texts, known to be at most
/// `limit`.
fn fragments_len(frags: &Vec<Fragment>, limit: usize) -> (r: usize)
    requires
        fragments_text(frags@).len() <= limit,
    ensures
        r == fragments_text(frags@).len(),
{
    let mut total: usize = 0;
    let mut k: usize = 0;
    while k < frags.len()
        invariant
            k <= frags.len(),
            total == fragments_text(frags@.subrange(0, k as int)).len(),
            fragments_text(frags@).len() <= limit,
        decreases frags.len() - k,
    {
        proof {
            lemma_fragments_step(frags@, k as int);
            lemma_fragments_prefix_len(frags@, k + 1);
        }
        total = total + frags[k].text.as_str().unicode_len();
        k = k + 1;
    }
    proof {
        assert(frags@.subrange(0, frags.len() as int) =~= frags@);
    }
    total
}

/// The fragments of one line: the tokenizer's, where there is one and it
/// styles the whole line; else the whole line in the plain style, and the
/// tokenizer, whose state can no longer be trusted, is dropped.
fn line_fragments(
    highlighter: &mut Option<HighlightLines<'_>>,
    line: &str,
    set: &SyntaxSet,
) -> (r: Vec<Fragment>)
    ensures
        fragments_text(r@) == line@,
{
    let tokenized = match highlighter {
        Some(h) => highlight_line(h, line, set),
        None => None,
    };
    if let Some(v) = tokenized {
        let line_len = line.unicode_len();
        if fragments_len(&v, line_len) == line_len {
            proof {
                assert(line@.subrange(0, line@.len() as int) =~= line@);
            }
            return v;
        }
    }
    *highlighter = None;
    plain_line(line)
}

proof fn lemma_joined_prefix(parts: Seq<String>, i: int)
    requires
        0 <= i < parts.len(),
    ensures
        joined(parts.subrange(0, i + 1)) == joined(parts.subrange(0, i)) + parts[i]@,
{
    assert(parts.subrange(0, i + 1).drop_last() =~= parts.subrange(0, i));
}

/// A line that ends with `'\n'` holds exactly one.
proof fn lemma_line_newlines(line: Seq<char>, is_last: bool)
    requires
        is_line(line, is_last),
    ensures
        newline_count(line) == if line.last() == '\n' { 1nat } else { 0nat },
{
    let init = line.drop_last();
    assert forall|j: int| 0 <= j < init.len() implies init[j] != '\n' by {
        assert(init[j] == line[j]);
    }
    lemma_no_newline(init);
}

/// Lines that all end with `'\n'` hold one newline each.
proof fn lemma_terminated_lines(parts: Seq<String>)
    requires
        forall|i: int| 0 <= i < parts.len() ==> is_line(#[trigger] parts[i]@, false),
    ensures
        newline_count(joined(parts)) == parts.len(),
    decreases parts.len(),
{
    if parts.len() > 0 {
        let init = parts.drop_last();
        assert forall|i: int| 0 <= i < init.len() implies is_line(#[trigger] init[i]@, false) by {
            assert(init[i] == parts[i]);
        }
        lemma_terminated_lines(init);
        lemma_newline_count_concat(joined(init), parts.last()@);
        lemma_line_newlines(parts.last()@, false);
    }
}

/// A text cut into lines has as many lines as `line_count_of` counts.
proof fn lemma_lines_counted(parts: Seq<String>)
    requires
        forall|i: int| 0 <= i < parts.len() ==> is_line(#[trigger] parts[i]@, i == parts.len() - 1),
    ensures
        line_count_of(joined(parts)) == parts.len(),
{
    if parts.len() > 0 {
        let init = parts.drop_last();
        let last = parts.last()@;
        assert forall|i: int| 0 <= i < init.len() implies is_line(#[trigger] init[i]@, false) by {
            assert(init[i] == parts[i]);
            assert(is_line(parts[i]@, i == parts.len() - 1));
        }
        assert(is_line(parts[parts.len() - 1]@, true));
        lemma_terminated_lines(init);
        lemma_newline_count_concat(joined(init), last);
        lemma_line_newlines(last, true);
        assert(joined(parts).last() == last.last());
    }
}

/// The grammars and themes a viewer highlights with: always the sets
/// bundled with syntect.
pub struct Highlighter {
    syntaxes: SyntaxSet,
    themes: ThemeSet,
}

impl Highlighter {
    /// A highlighter with syntect's bundled grammars and themes.
    pub fn new() -> Highlighter {
        Highlighter { syntaxes: SyntaxSet::load_defaults_newlines(), themes: ThemeSet::load_defaults() }
    }

    /// Relies on `SyntaxSet::find_syntax_by_extension`: the name of the
    /// grammar found for `extension`.
    #[verifier::external_body]
    fn grammar_for_extension(&self, extension: &str) -> (r: Option<String>)
        ensures
            name_view(r) == grammar_by_extension(extension@),
    {
        self.syntaxes.find_syntax_by_extension(extension).map(|g| g.name.clone())
    }

    /// Relies on `SyntaxSet::find_syntax_by_first_line`: the name of the
    /// grammar found for `line`.
    #[verifier::external_body]
    fn grammar_for_first_line(&self, line: &str) -> (r: Option<String>)
        ensures
            name_view(r) == grammar_by_first_line(line@),
    {
        self.syntaxes.find_syntax_by_first_line(line).map(|g| g.name.clone())
    }

    /// The name of the grammar for a file at `path` whose first line is
    /// `first_line`, as `detected_grammar` orders the lookups.
    pub fn detect_syntax(&self, path: &str, first_line: &str) -> (r: Option<String>)
        ensures
            name_view(r) == detected_grammar(path@, first_line@),
    {
        if let Some(ext) = extension_of(path) {
            let found = self.grammar_for_extension(ext);
            if found.is_some() {
                return found;
            }
        }
        if let Some(name) = file_name_of(path) {
            let found = self.grammar_for_extension(name);
            if found.is_some() {
                return found;
            }
        }
        self.grammar_for_first_line(first_line)
    }

    /// `content`, read from `path`, as lines of styled fragments: one entry
    /// per line, each keeping its `'\n'`. Lines that cannot be tokenized come
    /// out as one plain fragment. Empty content gives `None`.
    pub fn highlight(&self, path: &str, content: &str) -> (r: Option<Vec<Vec<Fragment>>>)
        ensures
            r is None <==> content@.len() == 0,
            r matches Some(lines) ==> lines_text(lines@) == content@,
            r matches Some(lines) ==> lines.len() == line_count_of(content@),
            r matches Some(lines) ==> forall|i: int|
                0 <= i < lines.len() ==> is_line(
                    #[trigger] fragments_text(lines@[i]@),
                    i == lines.len() - 1,
                ),
    {
        if content.is_empty() {
            return None;
        }
        let pieces = split_lines(content);
        let first: &str = if pieces.len() > 0 {
            pieces[0].as_str()
        } else {
            ""
        };
        let syntax = match self.detect_syntax(path, first) {
            Some(name) => self.syntaxes.find_syntax_by_name(name.as_str()),
            None => self.syntaxes.find_syntax_by_name(PLAIN_TEXT),
        };
        let mut highlighter = match (syntax, theme_named(&self.themes, THEME_NAME)) {
            (Some(s), Some(t)) => Some(HighlightLines::new(s, t)),
            _ => None,
        };
        let mut lines: Vec<Vec<Fragment>> = Vec::new();
        let mut i: usize = 0;
        while i < pieces.len()
            invariant
                i <= pieces.len(),
                lines.len() == i,
                forall|k: int| 0 <= k < i ==> #[trigger] fragments_text(lines@[k]@) == pieces@[k]@,
                forall|k: int|
                    0 <= k < pieces.len() ==> is_line(#[trigger] pieces@[k]@, k == pieces.len() - 1),
                lines_text(lines@) == joined(pieces@.subrange(0, i as int)),
            decreases pieces.len() - i,
        {
            let frags = line_fragments(&mut highlighter, pieces[i].as_str(), &self.syntaxes);
            let ghost before = lines@;
            lines.push(frags);
            proof {
                assert(lines@.drop_last() =~= before);
                lemma_joined_prefix(pieces@, i as int);
            }
            i = i + 1;
        }
        proof {
            assert(pieces@.subrange(0, pieces.len() as int) =~= pieces@);
            lemma_lines_counted(pieces@);
        }
        Some(lines)
    }
}

} // verus!
