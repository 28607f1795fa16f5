//! The textual forms of trace points and error chains, as sequences of
//! characters, and the executable builders that produce them.

use vstd::prelude::*;

verus! {

/// The character of a decimal digit `d` (`d < 10`).
pub open spec fn digit_char(d: nat) -> char {
    if d == 0 {
        '0'
    } else if d == 1 {
        '1'
    } else if d == 2 {
        '2'
    } else if d == 3 {
        '3'
    } else if d == 4 {
        '4'
    } else if d == 5 {
        '5'
    } else if d == 6 {
        '6'
    } else if d == 7 {
        '7'
    } else if d == 8 {
        '8'
    } else {
        '9'
    }
}

/// The decimal notation of `n`, without sign or leading zeros.
pub open spec fn decimal(n: nat) -> Seq<char>
    decreases n,
{
    if n < 10 {
        seq![digit_char(n)]
    } else {
        decimal(n / 10).push(digit_char(n % 10))
    }
}

/// A location in source code: the file, a colon and the line number.
pub open spec fn location_text(file: Seq<char>, line: nat) -> Seq<char> {
    file + seq![':'] + decimal(line)
}

/// One line of a rendered trace: `| [k] point`.
pub open spec fn trace_line(k: nat, point: Seq<char>) -> Seq<char> {
    seq!['|', ' ', '['] + decimal(k) + seq![']', ' '] + point
}

/// The lines of a trace, newest point first, numbered from `k` on and joined by
/// line breaks.
pub open spec fn trace_text(points: Seq<Seq<char>>, k: nat) -> Seq<char>
    decreases points.len(),
{
    if points.len() == 0 {
        seq![]
    } else if points.len() == 1 {
        trace_line(k, points[0])
    } else {
        trace_line(k, points[0]) + seq!['\n'] + trace_text(points.drop_first(), k + 1)
    }
}

/// What the rendering of an error chain reads of one error: its message, its
/// detailed form and, where it has one, the points of its trace.
pub struct Link {
    pub message: Seq<char>,
    pub details: Seq<char>,
    pub trace: Option<Seq<Seq<char>>>,
}

/// The header of one error in a chain: `[k] details`.
pub open spec fn link_header(k: nat, details: Seq<char>) -> Seq<char> {
    seq!['['] + decimal(k) + seq![']', ' '] + details
}

/// One error of a chain at depth `k`: its header, then its trace lines.
pub open spec fn link_text(k: nat, link: Link) -> Seq<char> {
    link_header(k, link.details) + match link.trace {
        Some(points) => seq!['\n'] + trace_text(points, 0),
        None => seq![],
    }
}

/// A chain of errors, outermost first, numbered from `k` on and joined by line
/// breaks.
pub open spec fn chain_text(links: Seq<Link>, k: nat) -> Seq<char>
    decreases links.len(),
{
    if links.len() == 0 {
        seq![]
    } else if links.len() == 1 {
        link_text(k, links[0])
    } else {
        link_text(k, links[0]) + seq!['\n'] + chain_text(links.drop_first(), k + 1)
    }
}

/// The numbers that rendering `links` from depth `k` on writes all fit in a
/// `usize`: the depths of the errors and the line numbers of every trace.
pub open spec fn numbering_fits(links: Seq<Link>, k: nat) -> bool {
    &&& k + links.len() <= usize::MAX + 1
    &&& forall|i: int|
        0 <= i < links.len() ==> match (#[trigger] links[i]).trace {
            Some(points) => points.len() <= usize::MAX + 1,
            None => true,
        }
}

/// Decimal notation uses digits only.
pub proof fn lemma_decimal_digits(n: nat)
    ensures
        decimal(n).len() >= 1,
        forall|i: int| 0 <= i < decimal(n).len() ==> '0' <= #[trigger] decimal(n)[i] <= '9',
    decreases n,
{
    if n >= 10 {
        lemma_decimal_digits(n / 10);
    }
}

/// The number that a character stands for as a decimal digit.
pub open spec fn digit_value(c: char) -> int {
    c as int - '0' as int
}

/// The number that a string of decimal digits stands for, most significant
/// digit first.
pub open spec fn digits_value(digits: Seq<char>) -> int
    decreases digits.len(),
{
    if digits.len() == 0 {
        0
    } else {
        digits_value(digits.drop_last()) * 10 + digit_value(digits.last())
    }
}

/// Decimal notation is the base-10 notation of the number: it is made of
/// digits, reads back as the number, and has no leading zero.
pub proof fn law_decimal_reads_back(n: nat)
    ensures
        decimal(n).len() >= 1,
        forall|i: int| 0 <= i < decimal(n).len() ==> '0' <= #[trigger] decimal(n)[i] <= '9',
        digits_value(decimal(n)) == n,
        n > 0 ==> decimal(n)[0] != '0',
    decreases n,
{
    lemma_decimal_digits(n);
    if n >= 10 {
        law_decimal_reads_back(n / 10);
        let d = decimal(n);
        assert(d.drop_last() =~= decimal(n / 10));
        assert(d.last() == digit_char(n % 10));
        assert(digit_value(digit_char(n % 10)) == n % 10);
        assert(n == (n / 10) * 10 + n % 10);
        assert(d[0] == decimal(n / 10)[0]);
    } else {
        assert(decimal(n).drop_last() =~= Seq::<char>::empty());
        assert(digit_value(digit_char(n)) == n);
        assert(digits_value(decimal(n)) == digits_value(decimal(n).drop_last()) * 10 + digit_value(
            decimal(n).last(),
        ));
    }
}

/// Lines joined by line breaks, built from the last line backwards.
pub open spec fn join_lines(lines: Seq<Seq<char>>) -> Seq<char>
    decreases lines.len(),
{
    if lines.len() == 0 {
        seq![]
    } else if lines.len() == 1 {
        lines[0]
    } else {
        join_lines(lines.drop_last()) + seq!['\n'] + lines.last()
    }
}

/// Joining lines puts the first line, a line break, then the others joined.
pub proof fn lemma_join_lines_front(lines: Seq<Seq<char>>)
    requires
        lines.len() >= 2,
    ensures
        join_lines(lines) == lines[0] + seq!['\n'] + join_lines(lines.drop_first()),
    decreases lines.len(),
{
    if lines.len() > 2 {
        lemma_join_lines_front(lines.drop_last());
        assert(lines.drop_last().drop_first() =~= lines.drop_first().drop_last());
        assert(lines.drop_last()[0] == lines[0]);
        assert(lines.drop_first().last() == lines.last());
        let rest = lines.drop_first();
        assert(join_lines(rest) == join_lines(rest.drop_last()) + seq!['\n'] + rest.last());
        assert(join_lines(lines) == join_lines(lines.drop_last()) + seq!['\n'] + lines.last());
        assert(join_lines(lines) =~= lines[0] + seq!['\n'] + join_lines(rest));
    } else {
        assert(lines.drop_last() =~= seq![lines[0]]);
        assert(lines.drop_first() =~= seq![lines[1]]);
        assert(join_lines(lines.drop_last()) == lines[0]);
        assert(join_lines(lines.drop_first()) == lines[1]);
        assert(lines.last() == lines[1]);
    }
}

/// One rendered line of a trace: the marker `| [`, the number `k` in decimal,
/// `] `, then the whole point.
pub proof fn law_trace_line_shape(k: nat, point: Seq<char>)
    ensures
        trace_line(k, point).len() == decimal(k).len() + point.len() + 5,
        trace_line(k, point)[0] == '|',
        trace_line(k, point)[1] == ' ',
        trace_line(k, point)[2] == '[',
        trace_line(k, point).subrange(3, 3 + decimal(k).len() as int) == decimal(k),
        trace_line(k, point)[3 + decimal(k).len() as int] == ']',
        trace_line(k, point)[4 + decimal(k).len() as int] == ' ',
        trace_line(k, point).subrange(
            5 + decimal(k).len() as int,
            trace_line(k, point).len() as int,
        ) == point,
{
    let t = trace_line(k, point);
    let n = decimal(k).len() as int;
    assert(t.subrange(3, 3 + n) =~= decimal(k));
    assert(t.subrange(5 + n, t.len() as int) =~= point);
}

/// The header of an error in a rendered chain: `[`, the depth `k` in decimal,
/// `] `, then the whole detailed form.
pub proof fn law_link_header_shape(k: nat, details: Seq<char>)
    ensures
        link_header(k, details).len() == decimal(k).len() + details.len() + 3,
        link_header(k, details)[0] == '[',
        link_header(k, details).subrange(1, 1 + decimal(k).len() as int) == decimal(k),
        link_header(k, details)[1 + decimal(k).len() as int] == ']',
        link_header(k, details)[2 + decimal(k).len() as int] == ' ',
        link_header(k, details).subrange(
            3 + decimal(k).len() as int,
            link_header(k, details).len() as int,
        ) == details,
{
    let t = link_header(k, details);
    let n = decimal(k).len() as int;
    assert(t.subrange(1, 1 + n) =~= decimal(k));
    assert(t.subrange(3 + n, t.len() as int) =~= details);
}

/// The lines of a trace numbered from `k` on: one per point, in order.
pub open spec fn numbered_trace_lines(points: Seq<Seq<char>>, k: nat) -> Seq<Seq<char>> {
    Seq::new(points.len(), |i: int| trace_line((k + i) as nat, points[i]))
}

/// A rendered trace holds exactly one line per point, newest first: the line
/// of point `i` is `trace_line(k + i, points[i])`, and the lines are joined by
/// line breaks.
pub proof fn law_trace_text_lines(points: Seq<Seq<char>>, k: nat)
    ensures
        trace_text(points, k) == join_lines(numbered_trace_lines(points, k)),
        numbered_trace_lines(points, k).len() == points.len(),
    decreases points.len(),
{
    let lines = numbered_trace_lines(points, k);
    if points.len() == 1 {
        assert(lines =~= seq![trace_line(k, points[0])]);
    } else if points.len() >= 2 {
        law_trace_text_lines(points.drop_first(), k + 1);
        assert(numbered_trace_lines(points.drop_first(), k + 1) =~= lines.drop_first());
        lemma_join_lines_front(lines);
    }
}

/// The rendered errors of a chain numbered from `k` on: one per error, in
/// order.
pub open spec fn numbered_links(links: Seq<Link>, k: nat) -> Seq<Seq<char>> {
    Seq::new(links.len(), |i: int| link_text((k + i) as nat, links[i]))
}

/// A rendered chain holds each error in turn, outermost first, the error at
/// position `i` rendered at depth `k + i`, joined by line breaks.
pub proof fn law_chain_text_links(links: Seq<Link>, k: nat)
    ensures
        chain_text(links, k) == join_lines(numbered_links(links, k)),
        numbered_links(links, k).len() == links.len(),
    decreases links.len(),
{
    let texts = numbered_links(links, k);
    if links.len() == 1 {
        assert(texts =~= seq![link_text(k, links[0])]);
    } else if links.len() >= 2 {
        law_chain_text_links(links.drop_first(), k + 1);
        assert(numbered_links(links.drop_first(), k + 1) =~= texts.drop_first());
        lemma_join_lines_front(texts);
    }
}

/// One rendered error is its header, then, where it has a trace, a line break
/// and one line for every point of the trace, numbered from 0; without a trace
/// it is the header alone.
pub proof fn law_link_text_lines(k: nat, link: Link)
    ensures
        match link.trace {
            Some(points) => link_text(k, link) == link_header(k, link.details) + seq!['\n']
                + join_lines(numbered_trace_lines(points, 0)),
            None => link_text(k, link) == link_header(k, link.details),
        },
{
    match link.trace {
        Some(points) => {
            law_trace_text_lines(points, 0);
        },
        None => {},
    }
}

/// A location point is the file, then a colon, then the line number, whose
/// digits hold no colon: the text after the last colon is the line number.
pub proof fn law_location_splits_at_last_colon(file: Seq<char>, line: nat)
    ensures
        location_text(file, line).subrange(0, file.len() as int) == file,
        location_text(file, line)[file.len() as int] == ':',
        location_text(file, line).subrange(file.len() + 1int, location_text(file, line).len() as int)
            == decimal(line),
        forall|i: int|
            file.len() < i < location_text(file, line).len() ==> #[trigger] location_text(
                file,
                line,
            )[i] != ':',
{
    lemma_decimal_digits(line);
    let t = location_text(file, line);
    assert(t.subrange(0, file.len() as int) =~= file);
    assert(t.subrange(file.len() + 1int, t.len() as int) =~= decimal(line));
    assert forall|i: int| file.len() < i < t.len() implies #[trigger] t[i] != ':' by {
        assert(t[i] == decimal(line)[i - file.len() - 1]);
    }
}

fn digit_str(d: usize) -> (r: &'static str)
    requires
        d < 10,
    ensures
        r@ == seq![digit_char(d as nat)],
{
    if d == 0 {
        proof {
            reveal_strlit("0");
        }
        "0"
    } else if d == 1 {
        proof {
            reveal_strlit("1");
        }
        "1"
    } else if d == 2 {
        proof {
            reveal_strlit("2");
        }
        "2"
    } else if d == 3 {
        proof {
            reveal_strlit("3");
        }
        "3"
    } else if d == 4 {
        proof {
            reveal_strlit("4");
        }
        "4"
    } else if d == 5 {
        proof {
            reveal_strlit("5");
        }
        "5"
    } else if d == 6 {
        proof {
            reveal_strlit("6");
        }
        "6"
    } else if d == 7 {
        proof {
            reveal_strlit("7");
        }
        "7"
    } else if d == 8 {
        proof {
            reveal_strlit("8");
        }
        "8"
    } else {
        proof {
            reveal_strlit("9");
        }
        "9"
    }
}

/// Writes `n` in decimal notation.
pub fn decimal_string(n: usize) -> (r: String)
    ensures
        r@ == decimal(n as nat),
    decreases n,
{
    if n < 10 {
        String::from_str(digit_str(n))
    } else {
        let mut s = decimal_string(n / 10);
        s.append(digit_str(n % 10));
        s
    }
}

/// The trace point for a place in source code: `file:line`.
pub fn location_point(file: &str, line: u32) -> (r: String)
    ensures
        r@ == location_text(file@, line as nat),
{
    let mut s = String::from_str(file);
    proof {
        reveal_strlit(":");
    }
    s.append(":");
    let digits = decimal_string(line as usize);
    s.append(digits.as_str());
    s
}

/// Writes one line of a trace: `| [k] point`.
pub fn trace_line_string(k: usize, point: &str) -> (r: String)
    ensures
        r@ == trace_line(k as nat, point@),
{
    proof {
        reveal_strlit("| [");
        reveal_strlit("] ");
    }
    let mut s = String::from_str("| [");
    let digits = decimal_string(k);
    s.append(digits.as_str());
    s.append("] ");
    s.append(point);
    s
}

/// Writes the header of an error at depth `k`: `[k] details`.
pub fn link_header_string(k: usize, details: &str) -> (r: String)
    ensures
        r@ == link_header(k as nat, details@),
{
    proof {
        reveal_strlit("[");
        reveal_strlit("] ");
    }
    let mut s = String::from_str("[");
    let digits = decimal_string(k);
    s.append(digits.as_str());
    s.append("] ");
    s.append(details);
    s
}

/// Appends a line break and then `next` to `s`.
pub fn append_line(s: &mut String, next: &str)
    ensures
        final(s)@ == old(s)@ + seq!['\n'] + next@,
{
    proof {
        reveal_strlit("\n");
    }
    s.append("\n");
    s.append(next);
}

} // verus!
