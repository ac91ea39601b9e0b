//! The final message builder and its renderer.

use vstd::prelude::*;

use crate::text::{
    lacks, lemma_lacks_concat, lemma_occurrences_absent, lemma_occurrences_concat,
    lemma_occurrences_self, lemma_occurrences_short, occurrences,
};

verus! {

/// What a [`FinalError`] holds: a title, then detail and hint lines in the
/// order in which they were added.
pub struct MessageView {
    pub title: Seq<char>,
    pub details: Seq<Seq<char>>,
    pub hints: Seq<Seq<char>>,
}

/// Pretty final error message for end users, shown before the program exits.
#[derive(Clone, Debug, PartialEq)]
pub struct FinalError {
    /// Should be made of just one line, appears after the error tag
    title: String,
    /// Shown as an unnumbered list in yellow
    details: Vec<String>,
    /// Shown in green at the end, to tell how to work around the error
    hints: Vec<String>,
}

/// The views of a list of strings.
pub open spec fn lines_view(v: Seq<String>) -> Seq<Seq<char>> {
    v.map_values(|s: String| s@)
}

/// Accent code for the error tag.
pub open spec fn red() -> Seq<char> {
    "\u{1b}[38;5;9m"@
}

/// Accent code for detail lines.
pub open spec fn yellow() -> Seq<char> {
    "\u{1b}[38;5;11m"@
}

/// Accent code for hints.
pub open spec fn green() -> Seq<char> {
    "\u{1b}[38;5;10m"@
}

/// Code that ends an accent.
pub open spec fn reset() -> Seq<char> {
    "\u{1b}[39m"@
}

/// `text` wrapped in the accent `code` when colors are on, bare otherwise.
pub open spec fn tint(code: Seq<char>, text: Seq<char>, color: bool) -> Seq<char> {
    if color {
        code + text + reset()
    } else {
        text
    }
}

/// The first line: the error tag, then the title.
pub open spec fn title_line(title: Seq<char>, accessible: bool, color: bool) -> Seq<char> {
    if accessible {
        tint(red(), "ERROR"@, color) + ": "@ + title
    } else {
        tint(red(), "[ERROR]"@, color) + " "@ + title
    }
}

/// One bulleted detail line, with the line break before it.
pub open spec fn detail_line(detail: Seq<char>, color: bool) -> Seq<char> {
    "\n - "@ + tint(yellow(), detail, color)
}

/// The detail lines, in order.
pub open spec fn details_text(details: Seq<Seq<char>>, color: bool) -> Seq<char>
    decreases details.len(),
{
    if details.len() == 0 {
        Seq::empty()
    } else {
        details_text(details.drop_last(), color) + detail_line(details.last(), color)
    }
}

/// One hint line, with the line break before it: prefixed by its own label in
/// standard mode, bare in accessible mode.
pub open spec fn hint_line(hint: Seq<char>, accessible: bool, color: bool) -> Seq<char> {
    if accessible {
        "\n"@ + hint
    } else {
        "\n"@ + tint(green(), "hint:"@, color) + " "@ + hint
    }
}

/// The hint lines, in order.
pub open spec fn hints_text(hints: Seq<Seq<char>>, accessible: bool, color: bool) -> Seq<char>
    decreases hints.len(),
{
    if hints.len() == 0 {
        Seq::empty()
    } else {
        hints_text(hints.drop_last(), accessible, color) + hint_line(hints.last(), accessible, color)
    }
}

/// The header that accessible mode writes once above the hints.
pub open spec fn hints_header(accessible: bool, color: bool) -> Seq<char> {
    if accessible {
        "\n"@ + tint(green(), "hints:"@, color)
    } else {
        Seq::empty()
    }
}

/// Nothing when there is no hint; else a blank line, the header, the hints.
pub open spec fn hints_block(hints: Seq<Seq<char>>, accessible: bool, color: bool) -> Seq<char> {
    if hints.len() == 0 {
        Seq::empty()
    } else {
        "\n"@ + hints_header(accessible, color) + hints_text(hints, accessible, color)
    }
}

/// The whole text of a message.
pub open spec fn render_message(m: MessageView, accessible: bool, color: bool) -> Seq<char> {
    title_line(m.title, accessible, color) + details_text(m.details, color) + hints_block(
        m.hints,
        accessible,
        color,
    )
}

/// Appends `text`, wrapped in the accent `code` when colors are on.
fn push_tinted(out: &mut String, code: &str, text: &str, color: bool)
    ensures
        final(out)@ == old(out)@ + tint(code@, text@, color),
{
    if color {
        out.append(code);
        out.append(text);
        out.append(RESET);
    } else {
        out.append(text);
    }
}

const RED: &'static str = "\u{1b}[38;5;9m";

const YELLOW: &'static str = "\u{1b}[38;5;11m";

const GREEN: &'static str = "\u{1b}[38;5;10m";

const RESET: &'static str = "\u{1b}[39m";

impl View for FinalError {
    type V = MessageView;

    closed spec fn view(&self) -> MessageView {
        MessageView {
            title: self.title@,
            details: lines_view(self.details@),
            hints: lines_view(self.hints@),
        }
    }
}

impl Default for FinalError {
    /// A message with an empty title and no line.
    fn default() -> (r: FinalError)
        ensures
            r@ == (MessageView { title: seq![], details: seq![], hints: seq![] }),
    {
        let r = FinalError { title: String::new(), details: Vec::new(), hints: Vec::new() };
        assert(r@.details =~= Seq::<Seq<char>>::empty());
        assert(r@.hints =~= Seq::<Seq<char>>::empty());
        r
    }
}

impl FinalError {
    /// Starts a message: a title and nothing else.
    pub fn with_title(title: &str) -> (r: FinalError)
        ensures
            r@ == (MessageView { title: title@, details: seq![], hints: seq![] }),
    {
        let r = FinalError { title: title.to_string(), details: Vec::new(), hints: Vec::new() };
        assert(r@.details =~= Seq::<Seq<char>>::empty());
        assert(r@.hints =~= Seq::<Seq<char>>::empty());
        r
    }

    /// Adds one detail line after those already there.
    pub fn detail(self, detail: &str) -> (r: FinalError)
        ensures
            r@ == (MessageView { details: self@.details.push(detail@), ..self@ }),
    {
        let mut r = self;
        r.details.push(detail.to_string());
        assert(r@.details =~= self@.details.push(detail@));
        r
    }

    /// Adds one hint line after those already there.
    pub fn hint(self, hint: &str) -> (r: FinalError)
        ensures
            r@ == (MessageView { hints: self@.hints.push(hint@), ..self@ }),
    {
        let mut r = self;
        r.hints.push(hint.to_string());
        assert(r@.hints =~= self@.hints.push(hint@));
        r
    }
    /// The text shown to the user, in accessible or standard mode, with or
    /// without color accents.
    pub fn render(&self, accessible: bool, color: bool) -> (r: String)
        ensures
            r@ == render_message(self@, accessible, color),
    {
        let mut out = String::new();
        if accessible {
            push_tinted(&mut out, RED, "ERROR", color);
            out.append(": ");
        } else {
            push_tinted(&mut out, RED, "[ERROR]", color);
            out.append(" ");
        }
        out.append(self.title.as_str());
        let ghost head = out@;
        assert(head == title_line(self@.title, accessible, color));
        let mut i: usize = 0;
        while i < self.details.len()
            invariant
                i <= self.details@.len(),
                out@ == head + details_text(self@.details.take(i as int), color),
            decreases self.details@.len() - i,
        {
            out.append("\n - ");
            push_tinted(&mut out, YELLOW, self.details[i].as_str(), color);
            assert(self@.details.take(i + 1).drop_last() =~= self@.details.take(i as int));
            i = i + 1;
        }
        assert(self@.details.take(i as int) =~= self@.details);
        let ghost body = out@;
        if self.hints.len() > 0 {
            out.append("\n");
            if accessible {
                out.append("\n");
                push_tinted(&mut out, GREEN, "hints:", color);
            }
            let ghost top = out@;
            let mut j: usize = 0;
            while j < self.hints.len()
                invariant
                    j <= self.hints@.len(),
                    out@ == top + hints_text(self@.hints.take(j as int), accessible, color),
                decreases self.hints@.len() - j,
            {
                out.append("\n");
                if !accessible {
                    push_tinted(&mut out, GREEN, "hint:", color);
                    out.append(" ");
                }
                out.append(self.hints[j].as_str());
                assert(self@.hints.take(j + 1).drop_last() =~= self@.hints.take(j as int));
                j = j + 1;
            }
            assert(self@.hints.take(j as int) =~= self@.hints);
        }
        assert(out@ =~= render_message(self@, accessible, color));
        out
    }
}

/// A pattern that starts with `h` and holds none of the characters that part
/// the pieces of a rendered message.
pub open spec fn separable(p: Seq<char>) -> bool {
    &&& p.len() > 0
    &&& p[0] == 'h'
    &&& !p.contains('\n')
    &&& !p.contains(' ')
    &&& !p.contains('m')
    &&& !p.contains('\u{1b}')
}

/// None of the texts of `m` holds `p`.
pub open spec fn texts_lack(m: MessageView, p: Seq<char>) -> bool {
    &&& occurrences(m.title, p) == 0
    &&& forall|i: int| 0 <= i < m.details.len() ==> occurrences(#[trigger] m.details[i], p) == 0
    &&& forall|i: int| 0 <= i < m.hints.len() ==> occurrences(#[trigger] m.hints[i], p) == 0
}

/// The label of each hint in standard mode.
pub open spec fn hint_label() -> Seq<char> {
    "hint:"@
}

/// The header above the hints in accessible mode.
pub open spec fn hints_label() -> Seq<char> {
    "hints:"@
}

proof fn lemma_accents()
    ensures
        red().len() > 0 && red().last() == 'm' && lacks(red(), 'h') && lacks(red(), '\n'),
        yellow().len() > 0 && yellow().last() == 'm' && lacks(yellow(), 'h'),
        green().len() > 0 && green().last() == 'm' && lacks(green(), 'h'),
        reset().len() > 0 && reset()[0] == '\u{1b}' && reset().last() == 'm' && lacks(reset(), 'h')
            && lacks(reset(), '\n'),
{
    reveal_strlit("\u{1b}[38;5;9m");
    reveal_strlit("\u{1b}[38;5;11m");
    reveal_strlit("\u{1b}[38;5;10m");
    reveal_strlit("\u{1b}[39m");
}

proof fn lemma_labels()
    ensures
        separable(hint_label()),
        separable(hints_label()),
        occurrences(hint_label(), hint_label()) == 1,
        occurrences(hints_label(), hints_label()) == 1,
        occurrences(hint_label(), hints_label()) == 0,
        occurrences(hints_label(), hint_label()) == 0,
{
    reveal_strlit("hint:");
    reveal_strlit("hints:");
    lemma_occurrences_short(hint_label(), hints_label());
    let header = hints_label();
    let label = hint_label();
    let word = header.drop_last();
    lemma_occurrences_short(word.drop_last(), label);
    assert(header.subrange(1, 6)[0] != label[0]);
    assert(header.subrange(1, 6) != label);
    assert(occurrences(header, label) == occurrences(word, label));
    assert(word.subrange(0, 5)[4] != label[4]);
    assert(word.subrange(0, 5) != label);
    assert(occurrences(word, label) == occurrences(word.drop_last(), label));
    lemma_occurrences_self(hint_label());
    lemma_occurrences_self(hints_label());
}

/// Accents add no occurrence of a separable pattern.
proof fn lemma_tint_occurrences(code: Seq<char>, text: Seq<char>, color: bool, p: Seq<char>)
    requires
        separable(p),
        code == red() || code == yellow() || code == green(),
    ensures
        occurrences(tint(code, text, color), p) == occurrences(text, p),
{
    lemma_accents();
    if color {
        lemma_occurrences_concat(code, text, p);
        lemma_occurrences_concat(code + text, reset(), p);
        lemma_occurrences_absent(code, p);
        lemma_occurrences_absent(reset(), p);
    }
}

proof fn lemma_title_occurrences(title: Seq<char>, accessible: bool, color: bool, p: Seq<char>)
    requires
        separable(p),
    ensures
        occurrences(title_line(title, accessible, color), p) == occurrences(title, p),
{
    lemma_accents();
    reveal_strlit("ERROR");
    reveal_strlit("[ERROR]");
    reveal_strlit(": ");
    reveal_strlit(" ");
    let word = if accessible { "ERROR"@ } else { "[ERROR]"@ };
    let gap = if accessible { ": "@ } else { " "@ };
    let tag = tint(red(), word, color) + gap;
    if color {
        lemma_lacks_concat(red(), word, 'h');
        lemma_lacks_concat(red() + word, reset(), 'h');
    }
    lemma_lacks_concat(tint(red(), word, color), gap, 'h');
    lemma_occurrences_absent(tag, p);
    lemma_occurrences_concat(tag, title, p);
}

proof fn lemma_details_occurrences(details: Seq<Seq<char>>, color: bool, p: Seq<char>)
    requires
        separable(p),
        forall|i: int| 0 <= i < details.len() ==> occurrences(#[trigger] details[i], p) == 0,
    ensures
        occurrences(details_text(details, color), p) == 0,
    decreases details.len(),
{
    if details.len() > 0 {
        let rest = details.drop_last();
        assert forall|i: int| 0 <= i < rest.len() implies occurrences(#[trigger] rest[i], p) == 0 by {
            assert(rest[i] == details[i]);
        }
        lemma_details_occurrences(rest, color, p);
        let d = details.last();
        reveal_strlit("\n - ");
        lemma_tint_occurrences(yellow(), d, color, p);
        lemma_occurrences_absent("\n - "@, p);
        lemma_occurrences_concat("\n - "@, tint(yellow(), d, color), p);
        lemma_details_newline(details, color);
        lemma_occurrences_concat(details_text(rest, color), detail_line(d, color), p);
    }
}

proof fn lemma_standard_hints_occurrences(hints: Seq<Seq<char>>, color: bool, p: Seq<char>)
    requires
        separable(p),
        forall|i: int| 0 <= i < hints.len() ==> occurrences(#[trigger] hints[i], p) == 0,
    ensures
        occurrences(hints_text(hints, false, color), p) == hints.len() * occurrences(
            hint_label(),
            p,
        ),
    decreases hints.len(),
{
    if hints.len() > 0 {
        let rest = hints.drop_last();
        assert forall|i: int| 0 <= i < rest.len() implies occurrences(#[trigger] rest[i], p) == 0 by {
            assert(rest[i] == hints[i]);
        }
        lemma_standard_hints_occurrences(rest, color, p);
        let h = hints.last();
        lemma_labels();
        reveal_strlit("\n");
        reveal_strlit(" ");
        let label = tint(green(), hint_label(), color);
        lemma_tint_occurrences(green(), hint_label(), color, p);
        lemma_occurrences_absent("\n"@, p);
        lemma_occurrences_absent(" "@, p);
        lemma_occurrences_concat("\n"@, label, p);
        lemma_occurrences_concat("\n"@ + label, " "@, p);
        lemma_occurrences_concat("\n"@ + label + " "@, h, p);
        lemma_hints_newline(hints, false, color);
        lemma_occurrences_concat(hints_text(rest, false, color), hint_line(h, false, color), p);
        let k = occurrences(hint_label(), p);
        let n = hints.len();
        assert((n - 1) * k + k == n * k) by (nonlinear_arith)
            requires
                n >= 1,
        ;
    }
}

proof fn lemma_accessible_hints_occurrences(hints: Seq<Seq<char>>, color: bool, p: Seq<char>)
    requires
        separable(p),
        forall|i: int| 0 <= i < hints.len() ==> occurrences(#[trigger] hints[i], p) == 0,
    ensures
        occurrences(hints_text(hints, true, color), p) == 0,
    decreases hints.len(),
{
    if hints.len() > 0 {
        let rest = hints.drop_last();
        assert forall|i: int| 0 <= i < rest.len() implies occurrences(#[trigger] rest[i], p) == 0 by {
            assert(rest[i] == hints[i]);
        }
        lemma_accessible_hints_occurrences(rest, color, p);
        lemma_labels();
        reveal_strlit("\n");
        lemma_occurrences_absent("\n"@, p);
        lemma_occurrences_concat("\n"@, hints.last(), p);
        lemma_hints_newline(hints, true, color);
        lemma_occurrences_concat(hints_text(rest, true, color), hint_line(hints.last(), true, color), p);
    }
}

/// In accessible mode, a message with at least one hint shows the hints
/// header exactly once, where none of its own texts holds that header.
pub proof fn accessible_header_shown_once(m: MessageView, color: bool)
    requires
        m.hints.len() > 0,
        texts_lack(m, hints_label()),
    ensures
        occurrences(render_message(m, true, color), hints_label()) == 1,
{
    let p = hints_label();
    lemma_labels();
    reveal_strlit("\n");
    lemma_title_occurrences(m.title, true, color, p);
    lemma_details_occurrences(m.details, color, p);
    lemma_accessible_hints_occurrences(m.hints, color, p);
    lemma_details_newline(m.details, color);
    lemma_hints_newline(m.hints, true, color);
    let label = tint(green(), p, color);
    lemma_tint_occurrences(green(), p, color, p);
    lemma_occurrences_absent("\n"@, p);
    lemma_occurrences_concat("\n"@, label, p);
    lemma_occurrences_concat("\n"@, hints_header(true, color), p);
    lemma_occurrences_concat("\n"@ + hints_header(true, color), hints_text(m.hints, true, color), p);
    let head = title_line(m.title, true, color);
    let details = details_text(m.details, color);
    lemma_occurrences_concat(head, details, p);
    lemma_occurrences_concat(head + details, hints_block(m.hints, true, color), p);
}

/// In standard mode, the hint label is shown once for each hint, where none
/// of the message's own texts holds that label.
pub proof fn standard_label_shown_per_hint(m: MessageView, color: bool)
    requires
        texts_lack(m, hint_label()),
    ensures
        occurrences(render_message(m, false, color), hint_label()) == m.hints.len(),
{
    let p = hint_label();
    lemma_labels();
    reveal_strlit("\n");
    lemma_title_occurrences(m.title, false, color, p);
    lemma_details_occurrences(m.details, color, p);
    lemma_standard_hints_occurrences(m.hints, color, p);
    assert(m.hints.len() * 1 == m.hints.len());
    lemma_details_newline(m.details, color);
    lemma_hints_newline(m.hints, false, color);
    lemma_occurrences_absent("\n"@, p);
    assert("\n"@ + hints_header(false, color) =~= "\n"@);
    lemma_occurrences_concat("\n"@, hints_text(m.hints, false, color), p);
    let head = title_line(m.title, false, color);
    let details = details_text(m.details, color);
    lemma_occurrences_concat(head, details, p);
    lemma_occurrences_concat(head + details, hints_block(m.hints, false, color), p);
}

proof fn lemma_details_newline(details: Seq<Seq<char>>, color: bool)
    ensures
        details_text(details, color).len() == 0 || details_text(details, color)[0] == '\n',
    decreases details.len(),
{
    reveal_strlit("\n - ");
    if details.len() > 0 {
        lemma_details_newline(details.drop_last(), color);
    }
}

proof fn lemma_hints_newline(hints: Seq<Seq<char>>, accessible: bool, color: bool)
    ensures
        hints_text(hints, accessible, color).len() == 0 || hints_text(hints, accessible, color)[0]
            == '\n',
    decreases hints.len(),
{
    reveal_strlit("\n");
    if hints.len() > 0 {
        lemma_hints_newline(hints.drop_last(), accessible, color);
    }
}

/// In accessible mode no hint carries its own label: the label does not occur
/// in the rendered message, where none of its own texts holds it.
pub proof fn accessible_shows_no_hint_label(m: MessageView, color: bool)
    requires
        texts_lack(m, hint_label()),
    ensures
        occurrences(render_message(m, true, color), hint_label()) == 0,
{
    let p = hint_label();
    lemma_labels();
    reveal_strlit("\n");
    lemma_title_occurrences(m.title, true, color, p);
    lemma_details_occurrences(m.details, color, p);
    lemma_accessible_hints_occurrences(m.hints, color, p);
    lemma_details_newline(m.details, color);
    lemma_hints_newline(m.hints, true, color);
    let head = title_line(m.title, true, color);
    let details = details_text(m.details, color);
    lemma_occurrences_concat(head, details, p);
    if m.hints.len() > 0 {
        let label = tint(green(), hints_label(), color);
        lemma_tint_occurrences(green(), hints_label(), color, p);
        lemma_occurrences_absent("\n"@, p);
        lemma_occurrences_concat("\n"@, label, p);
        lemma_occurrences_concat("\n"@, hints_header(true, color), p);
        lemma_occurrences_concat(
            "\n"@ + hints_header(true, color),
            hints_text(m.hints, true, color),
            p,
        );
    }
    lemma_occurrences_concat(head + details, hints_block(m.hints, true, color), p);
}

/// In standard mode the hints header is not shown: it does not occur in the
/// rendered message, where none of its own texts holds it.
pub proof fn standard_shows_no_hints_header(m: MessageView, color: bool)
    requires
        texts_lack(m, hints_label()),
    ensures
        occurrences(render_message(m, false, color), hints_label()) == 0,
{
    let p = hints_label();
    lemma_labels();
    reveal_strlit("\n");
    lemma_title_occurrences(m.title, false, color, p);
    lemma_details_occurrences(m.details, color, p);
    lemma_standard_hints_occurrences(m.hints, color, p);
    assert(m.hints.len() * 0 == 0);
    lemma_details_newline(m.details, color);
    lemma_hints_newline(m.hints, false, color);
    lemma_occurrences_absent("\n"@, p);
    assert("\n"@ + hints_header(false, color) =~= "\n"@);
    lemma_occurrences_concat("\n"@, hints_text(m.hints, false, color), p);
    let head = title_line(m.title, false, color);
    let details = details_text(m.details, color);
    lemma_occurrences_concat(head, details, p);
    lemma_occurrences_concat(head + details, hints_block(m.hints, false, color), p);
}

/// The first line of a rendered message ends with the message's title,
/// verbatim, in either mode; where the title is one line, the first line
/// holds no line break, and what follows it starts a new line.
pub proof fn title_ends_first_line(m: MessageView, accessible: bool, color: bool)
    requires
        lacks(m.title, '\n'),
    ensures
        ({
            let r = render_message(m, accessible, color);
            let n = title_line(m.title, accessible, color).len();
            &&& m.title.len() <= n <= r.len()
            &&& r.subrange(n - m.title.len(), n as int) == m.title
            &&& lacks(r.subrange(0, n as int), '\n')
            &&& (n == r.len() || r[n as int] == '\n')
        }),
{
    lemma_accents();
    reveal_strlit("ERROR");
    reveal_strlit("[ERROR]");
    reveal_strlit(": ");
    reveal_strlit(" ");
    reveal_strlit("\n");
    lemma_details_newline(m.details, color);
    lemma_hints_newline(m.hints, accessible, color);
    let word = if accessible { "ERROR"@ } else { "[ERROR]"@ };
    let gap = if accessible { ": "@ } else { " "@ };
    let head = title_line(m.title, accessible, color);
    let r = render_message(m, accessible, color);
    let n = head.len();
    if color {
        lemma_lacks_concat(red(), word, '\n');
        lemma_lacks_concat(red() + word, reset(), '\n');
    }
    lemma_lacks_concat(tint(red(), word, color), gap, '\n');
    lemma_lacks_concat(tint(red(), word, color) + gap, m.title, '\n');
    let rest = details_text(m.details, color) + hints_block(m.hints, accessible, color);
    assert(r =~= head + rest);
    assert(r.subrange(0, n as int) =~= head);
    assert(r.subrange(n - m.title.len(), n as int) =~= m.title);
    if rest.len() > 0 {
        assert(r[n as int] == rest[0]);
    }
}

/// Where the `i`-th detail starts in the rendered message.
pub open spec fn detail_offset(m: MessageView, accessible: bool, color: bool, i: int) -> int {
    title_line(m.title, accessible, color).len() + details_text(m.details.take(i), color).len()
        + "\n - "@.len() + if color {
        yellow().len() as int
    } else {
        0
    }
}

proof fn lemma_details_prefix(details: Seq<Seq<char>>, color: bool, i: int)
    requires
        0 <= i <= details.len(),
    ensures
        details_text(details.take(i), color).len() <= details_text(details, color).len(),
        details_text(details, color).subrange(0, details_text(details.take(i), color).len() as int)
            == details_text(details.take(i), color),
    decreases details.len(),
{
    let whole = details_text(details, color);
    if i == details.len() {
        assert(details.take(i) =~= details);
        assert(whole.subrange(0, whole.len() as int) =~= whole);
    } else {
        let rest = details.drop_last();
        assert(rest.take(i) =~= details.take(i));
        lemma_details_prefix(rest, color, i);
        let part = details_text(rest, color);
        let pre = details_text(details.take(i), color);
        assert(whole =~= part + detail_line(details.last(), color));
        assert(whole.subrange(0, pre.len() as int) =~= part.subrange(0, pre.len() as int));
    }
}

/// The details appear in the rendered message verbatim and in the order in
/// which they were added: each one at its offset, each one ending before the
/// next one starts.
pub proof fn details_shown_in_order(m: MessageView, accessible: bool, color: bool)
    ensures
        forall|i: int|
            0 <= i < m.details.len() ==> {
                let o = #[trigger] detail_offset(m, accessible, color, i);
                let r = render_message(m, accessible, color);
                &&& 0 <= o
                &&& o + m.details[i].len() <= r.len()
                &&& r.subrange(o, o + m.details[i].len()) == m.details[i]
            },
        forall|i: int, j: int|
            0 <= i < j < m.details.len() ==> #[trigger] detail_offset(m, accessible, color, i)
                + m.details[i].len() <= #[trigger] detail_offset(m, accessible, color, j),
{
    reveal_strlit("\n - ");
    lemma_accents();
    let ds = m.details;
    let head = title_line(m.title, accessible, color);
    let r = render_message(m, accessible, color);
    let all = details_text(ds, color);
    assert(r =~= head + all + hints_block(m.hints, accessible, color));
    assert forall|i: int| 0 <= i < ds.len() implies {
        let o = #[trigger] detail_offset(m, accessible, color, i);
        &&& 0 <= o
        &&& o + ds[i].len() <= r.len()
        &&& r.subrange(o, o + ds[i].len()) == ds[i]
        &&& o + ds[i].len() <= head.len() + details_text(ds.take(i + 1), color).len()
    } by {
        let o = detail_offset(m, accessible, color, i);
        let pre = details_text(ds.take(i), color);
        let upto = details_text(ds.take(i + 1), color);
        assert(ds.take(i + 1).drop_last() =~= ds.take(i));
        assert(ds.take(i + 1).last() == ds[i]);
        let shade = if color { yellow() } else { Seq::empty() };
        let tail = if color { reset() } else { Seq::empty() };
        let before = pre + "\n - "@ + shade;
        assert(upto =~= before + ds[i] + tail);
        lemma_details_prefix(ds, color, i + 1);
        assert(all.subrange(0, upto.len() as int) == upto);
        let start = o - head.len();
        assert(before.len() == start);
        assert(upto.subrange(start, start + ds[i].len()) =~= ds[i]);
        assert(r.subrange(o, o + ds[i].len()) =~= all.subrange(start, start + ds[i].len()));
        assert(all.subrange(start, start + ds[i].len()) =~= upto.subrange(start, start + ds[i].len()));
    }
    assert forall|i: int, j: int| 0 <= i < j < ds.len() implies #[trigger] detail_offset(
        m,
        accessible,
        color,
        i,
    ) + ds[i].len() <= #[trigger] detail_offset(m, accessible, color, j) by {
        assert(detail_offset(m, accessible, color, i) + ds[i].len() <= head.len() + details_text(
            ds.take(i + 1),
            color,
        ).len());
        lemma_details_prefix(ds.take(j), color, i + 1);
        assert(ds.take(j).take(i + 1) =~= ds.take(i + 1));
    }
}

/// Rendering depends on the message and the two settings alone: equal
/// messages render to the same text, however often they are rendered.
pub proof fn rendering_is_repeatable(a: MessageView, b: MessageView, accessible: bool, color: bool)
    requires
        a == b,
    ensures
        render_message(a, accessible, color) == render_message(b, accessible, color),
{
}

} // verus!
