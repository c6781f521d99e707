//! Layout of the transcript: its logical lines, the estimate of its rendered
//! height, and the styled display lines that the frame paints.
use vstd::prelude::*;
use crate::transcript::{ChatMessage, Role};

verus! {

broadcast use vstd::string::group_string_axioms;

/// The characters of a text, in order.
pub fn chars_of(s: &str) -> (r: Vec<char>)
    ensures
        r@ == s@,
{
    let mut out: Vec<char> = Vec::new();
    for c in it: s.chars()
        invariant
            it.seq() == s@,
            out@ == it.seq().take(it.index() as int),
    {
        out.push(c);
    }
    out
}

/// The assumed width, in characters, of a rendered line: a logical line of
/// `n` characters is estimated to take `n / WRAP_WIDTH` rows, and at least
/// one. The terminal's true width is not consulted, so the estimate drifts
/// from the rendered height on terminals of another width.
pub const WRAP_WIDTH: usize = 50;

/// The text cut at each newline: one piece more than it has newlines.
pub open spec fn pieces(s: Seq<char>) -> Seq<Seq<char>>
    decreases s.len(),
{
    if s.len() == 0 {
        seq![Seq::<char>::empty()]
    } else {
        let p = pieces(s.drop_last());
        if s.last() == '\n' {
            p.push(Seq::<char>::empty())
        } else {
            p.update(p.len() - 1, p.last().push(s.last()))
        }
    }
}

/// A line without the carriage return that ended it, if one did.
pub open spec fn strip_cr(l: Seq<char>) -> Seq<char> {
    if l.len() > 0 && l.last() == '\r' {
        l.drop_last()
    } else {
        l
    }
}

/// The logical lines of a text: cut at each newline, a carriage return before
/// a newline dropped, and no empty last line after a final newline.
pub open spec fn lines_of(s: Seq<char>) -> Seq<Seq<char>> {
    let p = pieces(s);
    let body = p.drop_last().map_values(|l: Seq<char>| strip_cr(l));
    if p.last().len() == 0 {
        body
    } else {
        body.push(p.last())
    }
}

/// The rows a logical line of `n` characters is estimated to take.
pub open spec fn wrapped(n: nat) -> nat {
    if n / (WRAP_WIDTH as nat) < 1 {
        1
    } else {
        n / (WRAP_WIDTH as nat)
    }
}

/// The estimated rows of a run of logical lines.
pub open spec fn lines_height(ls: Seq<Seq<char>>) -> nat
    decreases ls.len(),
{
    if ls.len() == 0 {
        0
    } else {
        lines_height(ls.drop_last()) + wrapped(ls.last().len())
    }
}

/// The estimated rows of a turn: a header, its lines and a spacer.
pub open spec fn turn_height(content: Seq<char>) -> nat {
    2 + lines_height(lines_of(content))
}

/// The estimated rows of a transcript.
pub open spec fn transcript_height(h: Seq<(Role, Seq<char>)>) -> nat
    decreases h.len(),
{
    if h.len() == 0 {
        0
    } else {
        transcript_height(h.drop_last()) + turn_height(h.last().1)
    }
}

pub open spec fn saturated(n: nat) -> int {
    if n > usize::MAX {
        usize::MAX as int
    } else {
        n as int
    }
}

pub open spec fn views(v: Seq<Vec<char>>) -> Seq<Seq<char>> {
    v.map_values(|l: Vec<char>| l@)
}

proof fn lemma_pieces_nonempty(s: Seq<char>)
    ensures
        pieces(s).len() >= 1,
    decreases s.len(),
{
    if s.len() > 0 {
        lemma_pieces_nonempty(s.drop_last());
    }
}

/// Cuts a text into its logical lines.
pub fn split_lines(chars: &Vec<char>) -> (r: Vec<Vec<char>>)
    ensures
        views(r@) == lines_of(chars@),
{
    let mut done: Vec<Vec<char>> = Vec::new();
    let mut cur: Vec<char> = Vec::new();
    let n = chars.len();
    let mut i: usize = 0;
    proof {
        assert(chars@.take(0) =~= Seq::<char>::empty());
    }
    while i < n
        invariant
            i <= n,
            n == chars@.len(),
            views(done@) == pieces(chars@.take(i as int)).drop_last().map_values(
                |l: Seq<char>| strip_cr(l),
            ),
            cur@ == pieces(chars@.take(i as int)).last(),
        decreases n - i,
    {
        let ghost pre = chars@.take(i as int);
        let ghost next = chars@.take(i + 1);
        proof {
            assert(next.drop_last() =~= pre);
            lemma_pieces_nonempty(pre);
        }
        let c = chars[i];
        if c == '\n' {
            let mut line = cur;
            let k = line.len();
            if k > 0 && line[k - 1] == '\r' {
                line.pop();
            }
            assert(line@ == strip_cr(pieces(pre).last()));
            let ghost before = done@;
            done.push(line);
            cur = Vec::new();
            proof {
                assert(pieces(next) == pieces(pre).push(Seq::<char>::empty()));
                assert(pieces(next).drop_last() =~= pieces(pre));
                assert(pieces(pre) =~= pieces(pre).drop_last().push(pieces(pre).last()));
                assert(views(done@) =~= views(before).push(line@));
                assert(views(done@) =~= pieces(next).drop_last().map_values(
                    |l: Seq<char>| strip_cr(l),
                ));
            }
        } else {
            cur.push(c);
            proof {
                let p = pieces(pre);
                assert(pieces(next) == p.update(p.len() - 1, p.last().push(c)));
                assert(pieces(next).drop_last() =~= p.drop_last());
            }
        }
        i = i + 1;
    }
    proof {
        assert(chars@.take(n as int) =~= chars@);
        lemma_pieces_nonempty(chars@);
    }
    if cur.len() > 0 {
        let ghost before = done@;
        done.push(cur);
        proof {
            assert(views(done@) =~= views(before).push(pieces(chars@).last()));
        }
    }
    done
}

/// The estimated rows of a logical line.
fn wrapped_rows(n: usize) -> (r: usize)
    ensures
        r == wrapped(n as nat),
{
    let w = n / WRAP_WIDTH;
    if w < 1 {
        1
    } else {
        w
    }
}

/// The estimated rows of a turn's text, saturated at `usize::MAX`.
pub fn text_height(content: &str) -> (r: usize)
    ensures
        r == saturated(lines_height(lines_of(content@))),
{
    let lines = split_lines(&chars_of(content));
    let n = lines.len();
    let mut total: usize = 0;
    let mut i: usize = 0;
    while i < n
        invariant
            i <= n,
            n == lines@.len(),
            total == saturated(lines_height(views(lines@).take(i as int))),
        decreases n - i,
    {
        proof {
            assert(views(lines@).take(i + 1).drop_last() =~= views(lines@).take(i as int));
        }
        total = total.saturating_add(wrapped_rows(lines[i].len()));
        i = i + 1;
    }
    proof {
        assert(views(lines@).take(n as int) =~= views(lines@));
    }
    total
}

/// The estimated rendered height of the transcript, saturated at
/// `usize::MAX`: per turn a header and a spacer, and per logical line its
/// estimated rows.
pub fn content_height(history: &Vec<ChatMessage>) -> (r: usize)
    ensures
        r == saturated(transcript_height(crate::transcript::turns(history@))),
{
    let ghost t = crate::transcript::turns(history@);
    let n = history.len();
    let mut total: usize = 0;
    let mut i: usize = 0;
    while i < n
        invariant
            i <= n,
            n == history@.len(),
            t == crate::transcript::turns(history@),
            total == saturated(transcript_height(t.take(i as int))),
        decreases n - i,
    {
        proof {
            assert(t.take(i + 1).drop_last() =~= t.take(i as int));
        }
        let rows = text_height(history[i].content.as_str());
        total = total.saturating_add(2).saturating_add(rows);
        i = i + 1;
    }
    proof {
        assert(t.take(n as int) =~= t);
    }
    total
}

/// Relies on String::push: appends the character.
#[verifier::external_body]
pub(crate) fn push_char(s: &mut String, c: char)
    ensures
        final(s)@ == old(s)@.push(c),
{
    s.push(c)
}

/// The text made of the characters.
pub fn string_of(chars: &Vec<char>) -> (r: String)
    ensures
        r@ == chars@,
{
    let mut out = String::new();
    let n = chars.len();
    let mut i: usize = 0;
    while i < n
        invariant
            i <= n,
            n == chars@.len(),
            out@ == chars@.take(i as int),
        decreases n - i,
    {
        push_char(&mut out, chars[i]);
        proof {
            assert(chars@.take(i + 1) =~= chars@.take(i as int).push(chars@[i as int]));
        }
        i = i + 1;
    }
    proof {
        assert(chars@.take(n as int) =~= chars@);
    }
    out
}

/// A line cut at each bold marker `**`, read from the left: one piece more
/// than it has markers.
pub open spec fn split_marker(l: Seq<char>) -> Seq<Seq<char>>
    decreases l.len(),
{
    if l.len() == 0 {
        seq![Seq::<char>::empty()]
    } else if l.len() >= 2 && l[0] == '*' && l[1] == '*' {
        seq![Seq::<char>::empty()] + split_marker(l.skip(2))
    } else {
        let r = split_marker(l.skip(1));
        r.update(0, seq![l[0]] + r[0])
    }
}

proof fn lemma_split_marker_nonempty(l: Seq<char>)
    ensures
        split_marker(l).len() >= 1,
    decreases l.len(),
{
    if l.len() >= 2 && l[0] == '*' && l[1] == '*' {
        lemma_split_marker_nonempty(l.skip(2));
    } else if l.len() > 0 {
        lemma_split_marker_nonempty(l.skip(1));
    }
}

/// Cuts a line at each bold marker.
pub fn split_bold(line: &Vec<char>) -> (r: Vec<Vec<char>>)
    ensures
        views(r@) == split_marker(line@),
{
    let l = line;
    let n = l.len();
    let mut out: Vec<Vec<char>> = Vec::new();
    let mut cur: Vec<char> = Vec::new();
    let mut j: usize = 0;
    proof {
        assert(l@.skip(0) =~= l@);
        lemma_split_marker_nonempty(l@);
        assert(split_marker(l@) =~= seq![Seq::<char>::empty() + split_marker(l@)[0]]
            + split_marker(l@).skip(1));
    }
    while j < n
        invariant
            j <= n,
            n == l@.len(),
            split_marker(l@) == views(out@) + seq![cur@ + split_marker(l@.skip(j as int))[0]]
                + split_marker(l@.skip(j as int)).skip(1),
        decreases n - j,
    {
        let ghost rest = l@.skip(j as int);
        if j + 1 < n && l[j] == '*' && l[j + 1] == '*' {
            let ghost before = out@;
            let ghost piece = cur@;
            proof {
                assert(rest.skip(2) =~= l@.skip(j + 2));
                lemma_split_marker_nonempty(l@.skip(j + 2));
            }
            out.push(cur);
            cur = Vec::new();
            proof {
                let r2 = split_marker(l@.skip(j + 2));
                assert(split_marker(rest) == seq![Seq::<char>::empty()] + r2);
                assert(split_marker(rest).skip(1) =~= r2);
                assert(views(out@) =~= views(before).push(piece));
                assert(r2 =~= seq![Seq::<char>::empty() + r2[0]] + r2.skip(1));
            }
            j = j + 2;
        } else {
            let c = l[j];
            proof {
                assert(rest.skip(1) =~= l@.skip(j + 1));
                lemma_split_marker_nonempty(l@.skip(j + 1));
                let r1 = split_marker(l@.skip(j + 1));
                assert(split_marker(rest) == r1.update(0, seq![c] + r1[0]));
                assert(split_marker(rest).skip(1) =~= r1.skip(1));
                assert(cur@.push(c) + r1[0] =~= cur@ + (seq![c] + r1[0]));
            }
            cur.push(c);
            j = j + 1;
        }
    }
    proof {
        assert(l@.skip(n as int) =~= Seq::<char>::empty());
    }
    let ghost before = out@;
    out.push(cur);
    proof {
        assert(views(out@) =~= views(before).push(cur@));
        assert(cur@ + Seq::<char>::empty() =~= cur@);
        assert(views(out@) =~= views(before) + seq![cur@]);
    }
    out
}

/// How a span of a display line is painted.
#[derive(Clone, Copy, PartialEq, Eq, Debug, Structural)]
pub enum SpanStyle {
    UserLabel,
    UserText,
    AssistantLabel,
    Plain,
    Bold,
}

/// A run of text painted in one style.
pub struct StyledSpan {
    pub style: SpanStyle,
    pub text: String,
}

impl View for StyledSpan {
    type V = (SpanStyle, Seq<char>);

    open spec fn view(&self) -> (SpanStyle, Seq<char>) {
        (self.style, self.text@)
    }
}

/// One line of the painted transcript; a spacer has no spans.
pub struct DisplayLine {
    pub spans: Vec<StyledSpan>,
}

impl View for DisplayLine {
    type V = Seq<(SpanStyle, Seq<char>)>;

    open spec fn view(&self) -> Seq<(SpanStyle, Seq<char>)> {
        self.spans@.map_values(|s: StyledSpan| s@)
    }
}

pub open spec fn lines_view(v: Seq<DisplayLine>) -> Seq<Seq<(SpanStyle, Seq<char>)>> {
    v.map_values(|d: DisplayLine| d@)
}

/// A line's spans: the pieces between bold markers, every second one bold.
pub open spec fn markdown_line(l: Seq<char>) -> Seq<(SpanStyle, Seq<char>)> {
    split_marker(l).map(
        |i: int, p: Seq<char>|
            (
                if i % 2 == 1 {
                    SpanStyle::Bold
                } else {
                    SpanStyle::Plain
                },
                p,
            ),
    )
}

/// The display lines of an assistant's text: one per logical line.
pub open spec fn markdown(text: Seq<char>) -> Seq<Seq<(SpanStyle, Seq<char>)>> {
    lines_of(text).map_values(|l: Seq<char>| markdown_line(l))
}

/// The display lines of one turn: a header tagged with the role (a user's
/// text stands on it), an assistant's lines, and a spacer.
pub open spec fn turn_lines(t: (Role, Seq<char>)) -> Seq<Seq<(SpanStyle, Seq<char>)>> {
    let head = match t.0 {
        Role::User => seq![seq![(SpanStyle::UserLabel, " You: "@), (SpanStyle::UserText, t.1)]],
        Role::Assistant => seq![seq![(SpanStyle::AssistantLabel, " Ollama: "@)]] + markdown(t.1),
    };
    head + seq![Seq::<(SpanStyle, Seq<char>)>::empty()]
}

/// The display lines of a transcript, turn after turn.
pub open spec fn transcript_lines(h: Seq<(Role, Seq<char>)>) -> Seq<Seq<(SpanStyle, Seq<char>)>>
    decreases h.len(),
{
    if h.len() == 0 {
        Seq::empty()
    } else {
        transcript_lines(h.drop_last()) + turn_lines(h.last())
    }
}

fn span(style: SpanStyle, text: String) -> (r: StyledSpan)
    ensures
        r@ == (style, text@),
{
    StyledSpan { style, text }
}

/// The display lines of an assistant's text: each logical line cut at the
/// bold markers, the pieces between a pair of markers bold.
pub fn parse_simple_markdown(text: &str) -> (r: Vec<DisplayLine>)
    ensures
        lines_view(r@) == markdown(text@),
{
    let lines = split_lines(&chars_of(text));
    let ghost ls = views(lines@);
    let mut out: Vec<DisplayLine> = Vec::new();
    let n = lines.len();
    let mut i: usize = 0;
    while i < n
        invariant
            i <= n,
            n == lines@.len(),
            ls == views(lines@),
            lines_view(out@) == ls.take(i as int).map_values(|l: Seq<char>| markdown_line(l)),
        decreases n - i,
    {
        let pieces = split_bold(&lines[i]);
        let ghost ps = views(pieces@);
        let m = pieces.len();
        let mut spans: Vec<StyledSpan> = Vec::new();
        let mut k: usize = 0;
        while k < m
            invariant
                k <= m,
                m == pieces@.len(),
                ps == views(pieces@),
                ps == split_marker(ls[i as int]),
                spans@.map_values(|s: StyledSpan| s@) == markdown_line(ls[i as int]).take(k as int),
            decreases m - k,
        {
            let style = if k % 2 == 1 {
                SpanStyle::Bold
            } else {
                SpanStyle::Plain
            };
            let ghost before = spans@;
            spans.push(span(style, string_of(&pieces[k])));
            proof {
                assert(spans@.map_values(|s: StyledSpan| s@) =~= before.map_values(
                    |s: StyledSpan| s@,
                ).push(markdown_line(ls[i as int])[k as int]));
                assert(markdown_line(ls[i as int]).take(k + 1) =~= markdown_line(ls[i as int]).take(
                    k as int,
                ).push(markdown_line(ls[i as int])[k as int]));
            }
            k = k + 1;
        }
        let ghost before = out@;
        out.push(DisplayLine { spans });
        proof {
            assert(markdown_line(ls[i as int]).take(m as int) =~= markdown_line(ls[i as int]));
            assert(lines_view(out@) =~= lines_view(before).push(markdown_line(ls[i as int])));
            assert(ls.take(i + 1).map_values(|l: Seq<char>| markdown_line(l)) =~= ls.take(
                i as int,
            ).map_values(|l: Seq<char>| markdown_line(l)).push(markdown_line(ls[i as int])));
        }
        i = i + 1;
    }
    proof {
        assert(ls.take(n as int) =~= ls);
    }
    out
}

fn label_line(style: SpanStyle, label: &str) -> (r: DisplayLine)
    ensures
        r@ == seq![(style, label@)],
{
    let mut spans: Vec<StyledSpan> = Vec::new();
    spans.push(span(style, String::from_str(label)));
    let r = DisplayLine { spans };
    assert(r@ =~= seq![(style, label@)]);
    r
}

/// The display lines of one turn.
fn turn_display(m: &ChatMessage) -> (r: Vec<DisplayLine>)
    ensures
        lines_view(r@) == turn_lines(m@),
{
    let mut out: Vec<DisplayLine> = Vec::new();
    match m.role {
        Role::User => {
            let mut spans: Vec<StyledSpan> = Vec::new();
            spans.push(span(SpanStyle::UserLabel, String::from_str(" You: ")));
            spans.push(span(SpanStyle::UserText, m.content.clone()));
            let head = DisplayLine { spans };
            assert(head@ =~= seq![(SpanStyle::UserLabel, " You: "@), (SpanStyle::UserText, m.content@)]);
            out.push(head);
        },
        Role::Assistant => {
            out.push(label_line(SpanStyle::AssistantLabel, " Ollama: "));
            let mut body = parse_simple_markdown(m.content.as_str());
            out.append(&mut body);
        },
    }
    let ghost before = out@;
    let spacer = DisplayLine { spans: Vec::new() };
    assert(spacer@ =~= Seq::<(SpanStyle, Seq<char>)>::empty());
    out.push(spacer);
    proof {
        assert(lines_view(out@) =~= lines_view(before) + seq![Seq::<(SpanStyle, Seq<char>)>::empty()]);
        assert(lines_view(before) =~= match m.role {
            Role::User => seq![seq![(SpanStyle::UserLabel, " You: "@), (SpanStyle::UserText, m.content@)]],
            Role::Assistant => seq![seq![(SpanStyle::AssistantLabel, " Ollama: "@)]] + markdown(m.content@),
        });
    }
    out
}

/// The display lines of the transcript: per turn a header tagged with the
/// role, the text (an assistant's with its bold spans), and a spacer.
pub fn display_lines(history: &Vec<ChatMessage>) -> (r: Vec<DisplayLine>)
    ensures
        lines_view(r@) == transcript_lines(crate::transcript::turns(history@)),
{
    let ghost t = crate::transcript::turns(history@);
    let mut out: Vec<DisplayLine> = Vec::new();
    let n = history.len();
    let mut i: usize = 0;
    while i < n
        invariant
            i <= n,
            n == history@.len(),
            t == crate::transcript::turns(history@),
            lines_view(out@) == transcript_lines(t.take(i as int)),
        decreases n - i,
    {
        let ghost before = out@;
        let mut lines = turn_display(&history[i]);
        out.append(&mut lines);
        proof {
            assert(t.take(i + 1).drop_last() =~= t.take(i as int));
            assert(lines_view(out@) =~= transcript_lines(t.take(i + 1)));
        }
        i = i + 1;
    }
    proof {
        assert(t.take(n as int) =~= t);
    }
    out
}

} // verus!
