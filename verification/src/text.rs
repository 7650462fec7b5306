//! Lines of text.

use vstd::prelude::*;

verus! {

/// The texts of some strings.
pub open spec fn views(lines: Seq<String>) -> Seq<Seq<char>> {
    lines.map_values(|s: String| s@)
}

/// `lines` as one text, a line feed between each two.
pub open spec fn spec_join(lines: Seq<Seq<char>>) -> Seq<char>
    decreases lines.len(),
{
    if lines.len() == 0 {
        Seq::empty()
    } else if lines.len() == 1 {
        lines[0]
    } else {
        spec_join(lines.drop_last()) + "\n"@ + lines.last()
    }
}

/// `lines` as one text, a line feed between each two.
pub fn join(lines: &Vec<String>) -> (r: String)
    ensures
        r@ == spec_join(views(lines@)),
{
    let mut out = String::new();
    let mut i: usize = 0;
    while i < lines.len()
        invariant
            i <= lines.len(),
            out@ == spec_join(views(lines@.take(i as int))),
        decreases lines.len() - i,
    {
        let ghost before = views(lines@.take(i as int));
        let ghost after = views(lines@.take(i + 1));
        assert(after.drop_last() == before);
        if i > 0 {
            out.append("\n");
        }
        out.append(lines[i].as_str());
        assert(out@ == spec_join(after));
        i += 1;
    }
    assert(lines@.take(lines.len() as int) == lines@);
    out
}

/// The characters of a text.
pub fn chars_of(text: &str) -> (r: Vec<char>)
    ensures
        r@ == text@,
{
    let n = text.unicode_len();
    let mut out: Vec<char> = Vec::new();
    let mut i: usize = 0;
    while i < n
        invariant
            n == text@.len(),
            i <= n,
            out@ == text@.take(i as int),
        decreases n - i,
    {
        out.push(text.get_char(i));
        i += 1;
    }
    out
}

/// Whether `part` stands in `whole` from position `at` on.
pub open spec fn spec_stands_at(whole: Seq<char>, part: Seq<char>, at: int) -> bool {
    0 <= at && at + part.len() <= whole.len() && whole.subrange(at, at + part.len()) == part
}

/// Whether `part` stands somewhere in `whole`.
pub open spec fn spec_contains(whole: Seq<char>, part: Seq<char>) -> bool {
    exists|at: int| spec_stands_at(whole, part, at)
}

/// Whether `part` stands in `whole` from position `at` on.
pub fn stands_at(whole: &Vec<char>, part: &Vec<char>, at: usize) -> (r: bool)
    ensures
        r == spec_stands_at(whole@, part@, at as int),
{
    if part.len() > whole.len() || at > whole.len() - part.len() {
        return false;
    }
    let mut j: usize = 0;
    while j < part.len()
        invariant
            j <= part.len(),
            at + part.len() <= whole.len(),
            forall|k: int| 0 <= k < j ==> whole[at + k] == part[k],
        decreases part.len() - j,
    {
        if whole[at + j] != part[j] {
            return false;
        }
        j += 1;
    }
    assert(whole@.subrange(at as int, at + part.len()) =~= part@);
    true
}

/// Whether `part` stands somewhere in `whole`.
pub fn contains(whole: &str, part: &str) -> (r: bool)
    ensures
        r == spec_contains(whole@, part@),
{
    let hay = chars_of(whole);
    let needle = chars_of(part);
    let mut at: usize = 0;
    while at < hay.len()
        invariant
            at <= hay.len(),
            hay@ == whole@,
            needle@ == part@,
            forall|k: int| 0 <= k < at ==> !spec_stands_at(whole@, part@, k),
        decreases hay.len() - at,
    {
        if stands_at(&hay, &needle, at) {
            return true;
        }
        at += 1;
    }
    stands_at(&hay, &needle, at)
}

/// The numeral of a digit.
pub open spec fn spec_digit(d: int) -> Seq<char> {
    if d == 0 {
        "0"@
    } else if d == 1 {
        "1"@
    } else if d == 2 {
        "2"@
    } else if d == 3 {
        "3"@
    } else if d == 4 {
        "4"@
    } else if d == 5 {
        "5"@
    } else if d == 6 {
        "6"@
    } else if d == 7 {
        "7"@
    } else if d == 8 {
        "8"@
    } else {
        "9"@
    }
}

/// A number in decimal digits.
pub open spec fn spec_decimal(n: nat) -> Seq<char>
    decreases n,
{
    if n < 10 {
        spec_digit(n as int)
    } else {
        spec_decimal(n / 10) + spec_digit((n % 10) as int)
    }
}

/// The numeral of a digit.
pub fn digit(d: u64) -> (r: &'static str)
    requires
        d < 10,
    ensures
        r@ == spec_digit(d as int),
{
    if d == 0 {
        "0"
    } else if d == 1 {
        "1"
    } else if d == 2 {
        "2"
    } else if d == 3 {
        "3"
    } else if d == 4 {
        "4"
    } else if d == 5 {
        "5"
    } else if d == 6 {
        "6"
    } else if d == 7 {
        "7"
    } else if d == 8 {
        "8"
    } else {
        "9"
    }
}

/// A number in decimal digits.
pub fn decimal(n: u64) -> (r: String)
    ensures
        r@ == spec_decimal(n as nat),
    decreases n,
{
    if n < 10 {
        digit(n).to_owned()
    } else {
        let mut out = decimal(n / 10);
        out.append(digit(n % 10));
        out
    }
}

/// The text of two texts, one after the other.
pub fn cat2(a: &str, b: &str) -> (r: String)
    ensures
        r@ == a@ + b@,
{
    let mut out = a.to_owned();
    out.append(b);
    out
}

/// The text of three texts, one after the other.
pub fn cat3(a: &str, b: &str, c: &str) -> (r: String)
    ensures
        r@ == a@ + b@ + c@,
{
    let mut out = a.to_owned();
    out.append(b);
    out.append(c);
    out
}

/// The text of four texts, one after the other.
pub fn cat4(a: &str, b: &str, c: &str, d: &str) -> (r: String)
    ensures
        r@ == a@ + b@ + c@ + d@,
{
    let mut out = a.to_owned();
    out.append(b);
    out.append(c);
    out.append(d);
    out
}

/// The text of five texts, one after the other.
pub fn cat5(a: &str, b: &str, c: &str, d: &str, e: &str) -> (r: String)
    ensures
        r@ == a@ + b@ + c@ + d@ + e@,
{
    let mut out = a.to_owned();
    out.append(b);
    out.append(c);
    out.append(d);
    out.append(e);
    out
}

/// The text of six texts, one after the other.
pub fn cat6(a: &str, b: &str, c: &str, d: &str, e: &str, f: &str) -> (r: String)
    ensures
        r@ == a@ + b@ + c@ + d@ + e@ + f@,
{
    let mut out = a.to_owned();
    out.append(b);
    out.append(c);
    out.append(d);
    out.append(e);
    out.append(f);
    out
}

/// The text of seven texts, one after the other.
pub fn cat7(a: &str, b: &str, c: &str, d: &str, e: &str, f: &str, g: &str) -> (r: String)
    ensures
        r@ == a@ + b@ + c@ + d@ + e@ + f@ + g@,
{
    let mut out = a.to_owned();
    out.append(b);
    out.append(c);
    out.append(d);
    out.append(e);
    out.append(f);
    out.append(g);
    out
}

/// The text of eight texts, one after the other.
pub fn cat8(
    a: &str,
    b: &str,
    c: &str,
    d: &str,
    e: &str,
    f: &str,
    g: &str,
    h: &str,
) -> (r: String)
    ensures
        r@ == a@ + b@ + c@ + d@ + e@ + f@ + g@ + h@,
{
    let mut out = a.to_owned();
    out.append(b);
    out.append(c);
    out.append(d);
    out.append(e);
    out.append(f);
    out.append(g);
    out.append(h);
    out
}

/// The text of nine texts, one after the other.
pub fn cat9(
    a: &str,
    b: &str,
    c: &str,
    d: &str,
    e: &str,
    f: &str,
    g: &str,
    h: &str,
    i: &str,
) -> (r: String)
    ensures
        r@ == a@ + b@ + c@ + d@ + e@ + f@ + g@ + h@ + i@,
{
    let mut out = a.to_owned();
    out.append(b);
    out.append(c);
    out.append(d);
    out.append(e);
    out.append(f);
    out.append(g);
    out.append(h);
    out.append(i);
    out
}

/// Adds a line to some lines.
pub fn push_line(lines: &mut Vec<String>, line: String)
    ensures
        views(final(lines)@) == views(old(lines)@).push(line@),
{
    lines.push(line);
}

/// Adds lines to some lines.
pub fn push_lines(lines: &mut Vec<String>, more: &Vec<String>)
    ensures
        views(final(lines)@) == views(old(lines)@) + views(more@),
{
    let mut i: usize = 0;
    while i < more.len()
        invariant
            i <= more.len(),
            views(lines@) == views(old(lines)@) + views(more@).take(i as int),
        decreases more.len() - i,
    {
        let ghost before = lines@;
        lines.push(more[i].clone());
        assert(views(lines@) =~= views(before).push(more[i as int]@));
        i += 1;
    }
}

} // verus!
