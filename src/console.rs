use vstd::prelude::*;

use crate::message::{ChatEntry, MessageRow};
use crate::text::{
    lines_of, push_char, split_lines, texts_view, trim, trim_end, trimmed, trimmed_end,
};

verus! {

/// What `str::to_lowercase` makes of a text.
pub uninterp spec fn lower_of(s: Seq<char>) -> Seq<char>;

/// Relies on `str::to_lowercase`: the lowercase form of a text, which depends on its
/// characters alone.
#[verifier::external_body]
fn lowercase(s: &str) -> (r: String)
    ensures
        r@ == lower_of(s@),
{
    s.to_lowercase()
}

/// The answer that a normalized reply to a yes-or-no question gives: yes for `y` or an
/// empty reply, no for `n`, none otherwise.
pub open spec fn answer_of(s: Seq<char>) -> Option<bool> {
    if s == "y"@ || s == ""@ {
        Some(true)
    } else if s == "n"@ {
        Some(false)
    } else {
        None
    }
}

/// The answer that a trimmed, lowercase reply gives.
pub fn answer_for(normalized: &String) -> (r: Option<bool>)
    ensures
        r == answer_of(normalized@),
{
    let yes = String::from_str("y");
    let empty = String::new();
    let no = String::from_str("n");
    proof {
        reveal_strlit("");
    }
    assert(""@ =~= Seq::<char>::empty());
    if *normalized == yes || *normalized == empty {
        Some(true)
    } else if *normalized == no {
        Some(false)
    } else {
        None
    }
}

/// The answer that a line typed in reply to a yes-or-no question gives, whatever its case
/// and surrounding whitespace; `None` asks for the question again.
pub fn confirm_answer(line: &str) -> (r: Option<bool>)
    ensures
        r == answer_of(lower_of(trimmed(line@))),
{
    let normalized = lowercase(trim(line));
    answer_for(&normalized)
}

/// Whether every character is a decimal digit.
pub open spec fn all_digits(d: Seq<char>) -> bool {
    forall|i: int| 0 <= i < d.len() ==> '0' <= #[trigger] d[i] <= '9'
}

/// The number that a sequence of decimal digits writes.
pub open spec fn digits_value(d: Seq<char>) -> int
    decreases d.len(),
{
    if d.len() == 0 {
        0
    } else {
        digits_value(d.drop_last()) * 10 + (d.last() as int - '0' as int)
    }
}

/// The digits of an unsigned number's text: what follows an optional leading `+`.
pub open spec fn unsigned_digits(s: Seq<char>) -> Seq<char> {
    if s.len() > 0 && s[0] == '+' {
        s.drop_first()
    } else {
        s
    }
}

/// The index that a text writes in decimal, as `usize`'s `FromStr` reads it: an optional
/// `+`, then at least one digit, for a value that fits.
pub open spec fn index_of_text(s: Seq<char>) -> Option<usize> {
    let d = unsigned_digits(s);
    if d.len() > 0 && all_digits(d) && digits_value(d) <= usize::MAX {
        Some(digits_value(d) as usize)
    } else {
        None
    }
}

proof fn digits_value_nonneg(d: Seq<char>)
    requires
        all_digits(d),
    ensures
        digits_value(d) >= 0,
    decreases d.len(),
{
    if d.len() > 0 {
        digits_value_nonneg(d.drop_last());
    }
}

/// A prefix of a sequence of digits writes no larger a number than the whole.
proof fn digits_prefix_no_larger(d: Seq<char>, k: int)
    requires
        all_digits(d),
        0 <= k <= d.len(),
    ensures
        digits_value(d.subrange(0, k)) <= digits_value(d),
    decreases d.len(),
{
    if k < d.len() {
        assert(d.drop_last().subrange(0, k) =~= d.subrange(0, k));
        digits_prefix_no_larger(d.drop_last(), k);
        digits_value_nonneg(d.drop_last());
    } else {
        assert(d.subrange(0, k) =~= d);
    }
}

/// Reads an index written in decimal; `None` where the text writes none that fits.
pub fn parse_index(s: &str) -> (r: Option<usize>)
    ensures
        r == index_of_text(s@),
{
    let n = s.unicode_len();
    let mut start: usize = 0;
    if n > 0 && s.get_char(0) == '+' {
        start = 1;
    }
    let ghost d = unsigned_digits(s@);
    assert(d =~= s@.subrange(start as int, n as int));
    if start == n {
        return None;
    }
    let mut value: usize = 0;
    let mut i: usize = start;
    while i < n
        invariant
            start <= i <= n,
            n == s@.len(),
            d == s@.subrange(start as int, n as int),
            d == unsigned_digits(s@),
            all_digits(d.subrange(0, i - start)),
            value as int == digits_value(d.subrange(0, i - start)),
        decreases n - i,
    {
        let c = s.get_char(i);
        let ghost k: int = i - start;
        assert(d[k] == c);
        if c < '0' || c > '9' {
            assert(!all_digits(d));
            return None;
        }
        let digit = (c as u32 - '0' as u32) as usize;
        assert(d.subrange(0, k + 1).drop_last() =~= d.subrange(0, k));
        assert(d.subrange(0, k + 1).last() == c);
        if value > (usize::MAX - digit) / 10 {
            assert(value * 10 + digit > usize::MAX) by (nonlinear_arith)
                requires
                    value > (usize::MAX - digit) / 10,
                    digit <= 9,
            ;
            proof {
                if all_digits(d) {
                    digits_prefix_no_larger(d, k + 1);
                }
            }
            return None;
        }
        assert(value * 10 + digit <= usize::MAX) by (nonlinear_arith)
            requires
                value <= (usize::MAX - digit) / 10,
                digit <= 9,
        ;
        value = value * 10 + digit;
        i = i + 1;
    }
    assert(d.subrange(0, n - start) =~= d);
    Some(value)
}

/// The chat at the position that a text writes in decimal; `None` where it writes no
/// position in the list.
pub open spec fn chat_at_text(text: Seq<char>, chats: Seq<ChatEntry>) -> Option<i64> {
    match index_of_text(text) {
        Some(i) => if i < chats.len() {
            Some(chats[i as int].id)
        } else {
            None
        },
        None => None,
    }
}

/// The chat at the position that an already trimmed text writes.
pub fn pick_from(text: &str, chats: &Vec<ChatEntry>) -> (r: Option<i64>)
    ensures
        r == chat_at_text(text@, chats@),
{
    match parse_index(text) {
        Some(i) => if i < chats.len() {
            Some(chats[i].id)
        } else {
            None
        },
        None => None,
    }
}

/// The chat that a line typed to pick one by its position in the list names, whatever
/// whitespace surrounds it; `None` asks for the pick again.
pub fn chat_pick(line: &str, chats: &Vec<ChatEntry>) -> (r: Option<i64>)
    ensures
        r == chat_at_text(trimmed(line@), chats@),
{
    pick_from(trim(line), chats)
}

/// The lines that print a chat's stored history: a heading, then each message as its role
/// name in brackets and its content.
pub open spec fn printout_of(rows: Seq<MessageRow>) -> Seq<Seq<char>> {
    if rows.len() == 0 {
        seq!["No previous messages found."@]
    } else {
        seq!["Previous messages:"@] + Seq::new(
            rows.len(),
            |i: int| "["@ + rows[i].0@ + "] "@ + rows[i].1@,
        )
    }
}

/// The texts that print a chat's stored history, one box each.
pub fn history_printout(rows: &Vec<MessageRow>) -> (r: Vec<String>)
    ensures
        r@.len() == printout_of(rows@).len(),
        forall|i: int| 0 <= i < r@.len() ==> (#[trigger] r@[i])@ == printout_of(rows@)[i],
{
    let mut out: Vec<String> = Vec::new();
    if rows.len() == 0 {
        out.push(String::from_str("No previous messages found."));
        return out;
    }
    out.push(String::from_str("Previous messages:"));
    let mut i: usize = 0;
    while i < rows.len()
        invariant
            i <= rows@.len(),
            rows@.len() > 0,
            out@.len() == i + 1,
            out@[0]@ == "Previous messages:"@,
            forall|j: int|
                1 <= j <= i ==> (#[trigger] out@[j])@ == "["@ + rows@[j - 1].0@ + "] "@ + rows@[j
                    - 1].1@,
        decreases rows@.len() - i,
    {
        let mut line = String::from_str("[");
        line.append(rows[i].0.as_str());
        line.append("] ");
        line.append(rows[i].1.as_str());
        out.push(line);
        i = i + 1;
    }
    out
}

/// The width of a message box on a terminal of `columns` columns: between 20 and 100.
pub open spec fn box_width_of(columns: u16) -> nat {
    if columns > 100 {
        100
    } else if columns < 20 {
        20
    } else {
        columns as nat
    }
}

/// `n` copies of a character.
pub open spec fn run_of(c: char, n: nat) -> Seq<char> {
    Seq::new(n, |_i: int| c)
}

/// The spaces that bring a line of `len` characters to the right border of a box of
/// `width`; none where the line is too long.
pub open spec fn padding(len: nat, width: nat) -> nat {
    if len + 4 <= width {
        (width - 4 - len) as nat
    } else {
        0
    }
}

/// One line inside a message box.
pub open spec fn boxed_row(line: Seq<char>, width: nat) -> Seq<char> {
    "│ "@ + line + run_of(' ', padding(line.len(), width)) + " │\n"@
}

/// The lines inside a message box, in order.
pub open spec fn boxed_rows(lines: Seq<Seq<char>>, width: nat) -> Seq<char>
    decreases lines.len(),
{
    if lines.len() == 0 {
        Seq::empty()
    } else {
        boxed_rows(lines.drop_last(), width) + boxed_row(lines.last(), width)
    }
}

/// A message box of `width` columns around the given lines.
pub open spec fn boxed(lines: Seq<Seq<char>>, width: nat) -> Seq<char> {
    "\n╭"@ + run_of('─', (width - 2) as nat) + "╮\n"@ + boxed_rows(lines, width) + "╰"@ + run_of(
        '─',
        (width - 2) as nat,
    ) + "╯\n"@
}

fn push_run(out: &mut String, c: char, n: usize)
    ensures
        final(out)@ == old(out)@ + run_of(c, n as nat),
{
    let mut k: usize = 0;
    while k < n
        invariant
            k <= n,
            out@ == old(out)@ + run_of(c, k as nat),
        decreases n - k,
    {
        push_char(out, c);
        k = k + 1;
        assert(out@ =~= old(out)@ + run_of(c, k as nat));
    }
}

/// The width of a message box on a terminal of `columns` columns.
pub fn box_width(columns: u16) -> (r: usize)
    ensures
        r as nat == box_width_of(columns),
{
    if columns > 100 {
        100
    } else if columns < 20 {
        20
    } else {
        columns as usize
    }
}

/// A message box around the given lines, as wide as a terminal of `columns` columns
/// allows.
pub fn frame_lines(lines: &Vec<String>, columns: u16) -> (r: String)
    ensures
        r@ == boxed(lines@.map_values(|l: String| l@), box_width_of(columns)),
{
    let width = box_width(columns);
    let ghost ls = lines@.map_values(|l: String| l@);
    let mut out = String::from_str("\n╭");
    push_run(&mut out, '─', width - 2);
    out.append("╮\n");
    let ghost head = out@;
    let mut i: usize = 0;
    while i < lines.len()
        invariant
            i <= lines@.len(),
            ls == lines@.map_values(|l: String| l@),
            width as nat == box_width_of(columns),
            20 <= width <= 100,
            out@ == head + boxed_rows(ls.subrange(0, i as int), width as nat),
        decreases lines@.len() - i,
    {
        let line = lines[i].as_str();
        let len = line.unicode_len();
        out.append("│ ");
        out.append(line);
        let pad: usize = if len <= width - 4 {
            width - 4 - len
        } else {
            0
        };
        push_run(&mut out, ' ', pad);
        out.append(" │\n");
        proof {
            assert(ls.subrange(0, i + 1).drop_last() =~= ls.subrange(0, i as int));
            assert(ls.subrange(0, i + 1).last() == lines@[i as int]@);
        }
        i = i + 1;
        assert(out@ =~= head + boxed_rows(ls.subrange(0, i as int), width as nat));
    }
    out.append("╰");
    push_run(&mut out, '─', width - 2);
    out.append("╯\n");
    assert(ls.subrange(0, lines@.len() as int) =~= ls);
    assert(out@ =~= boxed(ls, width as nat));
    out
}

/// A message box around a text, one row for each of its lines without trailing
/// whitespace, as wide as a terminal of `columns` columns allows.
pub fn framed(message: &str, columns: u16) -> (r: String)
    ensures
        r@ == boxed(
            lines_of(message@).map_values(|l: Seq<char>| trimmed_end(l)),
            box_width_of(columns),
        ),
{
    let raw = split_lines(message);
    assert(forall|j: int| 0 <= j < raw@.len() ==> (#[trigger] raw@[j])@ == texts_view(raw@)[j]);
    let mut lines: Vec<String> = Vec::new();
    let mut i: usize = 0;
    while i < raw.len()
        invariant
            i <= raw@.len(),
            raw@.len() == lines_of(message@).len(),
            forall|j: int| 0 <= j < raw@.len() ==> (#[trigger] raw@[j])@ == lines_of(message@)[j],
            lines@.len() == i,
            forall|j: int| 0 <= j < i ==> (#[trigger] lines@[j])@ == trimmed_end(raw@[j]@),
        decreases raw@.len() - i,
    {
        lines.push(String::from_str(trim_end(raw[i].as_str())));
        i = i + 1;
    }
    assert(lines@.map_values(|l: String| l@) =~= lines_of(message@).map_values(
        |l: Seq<char>| trimmed_end(l),
    ));
    frame_lines(&lines, columns)
}

} // verus!
