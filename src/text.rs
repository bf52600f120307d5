//! Decimal text of integers, quoted identifiers and the fact-line sink.
use vstd::prelude::*;
use vstd::string::*;

verus! {

/// The text of one decimal digit.
pub open spec fn digit_text(d: int) -> Seq<char> {
    if d == 0 {
        "0"@
    } else if d == 1 {
        "1"@
    } else if d == 2 {
        "2"@
    } else if d == 3 {
        "3"@
    } else if d == 4 {
        "4"@
    } else if d == 5 {
        "5"@
    } else if d == 6 {
        "6"@
    } else if d == 7 {
        "7"@
    } else if d == 8 {
        "8"@
    } else {
        "9"@
    }
}

/// Decimal text of a natural number, without leading zeros.
pub open spec fn nat_text(n: nat) -> Seq<char>
    decreases n,
{
    if n < 10 {
        digit_text(n as int)
    } else {
        nat_text(n / 10) + digit_text((n % 10) as int)
    }
}

/// Decimal text of an integer: a minus sign before the magnitude of a negative one.
pub open spec fn int_text(i: int) -> Seq<char> {
    if i < 0 {
        "-"@ + nat_text((-i) as nat)
    } else {
        nat_text(i as nat)
    }
}

/// An identifier as it stands in a fact: between double quotes.
pub open spec fn quoted(id: Seq<char>) -> Seq<char> {
    "\""@ + id + "\""@
}

/// What a list of emitted lines holds, line by line.
pub open spec fn lines_of(v: Seq<String>) -> Seq<Seq<char>> {
    v.map_values(|s: String| s@)
}

fn push_digit(s: &mut String, d: u128)
    requires
        d < 10,
    ensures
        final(s)@ == old(s)@ + digit_text(d as int),
{
    if d == 0 {
        s.append("0");
    } else if d == 1 {
        s.append("1");
    } else if d == 2 {
        s.append("2");
    } else if d == 3 {
        s.append("3");
    } else if d == 4 {
        s.append("4");
    } else if d == 5 {
        s.append("5");
    } else if d == 6 {
        s.append("6");
    } else if d == 7 {
        s.append("7");
    } else if d == 8 {
        s.append("8");
    } else {
        s.append("9");
    }
}

fn push_nat(s: &mut String, n: u128)
    ensures
        final(s)@ == old(s)@ + nat_text(n as nat),
    decreases n,
{
    if n < 10 {
        push_digit(s, n);
    } else {
        let ghost s0 = s@;
        push_nat(s, n / 10);
        push_digit(s, n % 10);
        assert(s@ =~= s0 + (nat_text((n / 10) as nat) + digit_text((n % 10) as int)));
    }
}

/// Appends the decimal text of `i`.
pub fn push_int(s: &mut String, i: i128)
    ensures
        final(s)@ == old(s)@ + int_text(i as int),
{
    if i < 0 {
        let ghost s0 = s@;
        let m: u128 = (-(i + 1)) as u128 + 1;
        s.append("-");
        push_nat(s, m);
        assert(s@ =~= s0 + ("-"@ + nat_text(m as nat)));
    } else {
        push_nat(s, i as u128);
    }
}

/// Appends the decimal text of a position or a counter.
pub fn push_usize(s: &mut String, n: usize)
    ensures
        final(s)@ == old(s)@ + nat_text(n as nat),
{
    push_nat(s, n as u128);
}

/// Decimal text of an integer literal.
pub fn int_literal(i: i128) -> (r: String)
    ensures
        r@ == int_text(i as int),
{
    let mut s = String::new();
    push_int(&mut s, i);
    assert(s@ =~= int_text(i as int));
    s
}

/// Appends `id` between double quotes.
pub fn push_quoted(s: &mut String, id: &str)
    ensures
        final(s)@ == old(s)@ + quoted(id@),
{
    let ghost s0 = s@;
    s.append("\"");
    s.append(id);
    s.append("\"");
    assert(s@ =~= s0 + quoted(id@));
}

/// An identifier between double quotes.
pub fn identifier(id: &str) -> (r: String)
    ensures
        r@ == quoted(id@),
{
    let mut s = String::new();
    push_quoted(&mut s, id);
    assert(s@ =~= quoted(id@));
    s
}

/// Appends one line to the sink.
pub fn emit(out: &mut Vec<String>, line: String)
    ensures
        lines_of(final(out)@) == lines_of(old(out)@).push(line@),
{
    out.push(line);
    assert(lines_of(out@) =~= lines_of(old(out)@).push(line@));
}

/// The text of a list of facts: each line followed by a newline.
pub open spec fn text_of(lines: Seq<Seq<char>>) -> Seq<char> {
    lines.map_values(|l: Seq<char>| l + "\n"@).flatten()
}

/// Joins facts into one text, each line followed by a newline.
pub fn facts_text(lines: &Vec<String>) -> (r: String)
    ensures
        r@ == text_of(lines_of(lines@)),
{
    let mut s = String::new();
    let mut k: usize = 0;
    while k < lines.len()
        invariant
            k <= lines.len(),
            s@ == lines_of(lines@).take(k as int).map_values(|l: Seq<char>| l + "\n"@).flatten(),
        decreases lines.len() - k,
    {
        s.append(lines[k].as_str());
        s.append("\n");
        proof {
            let ls = lines_of(lines@);
            assert(ls.take(k + 1).map_values(|l: Seq<char>| l + "\n"@) =~= ls.take(k as int).map_values(
                |l: Seq<char>| l + "\n"@,
            ).push(ls[k as int] + "\n"@));
            ls.take(k as int).map_values(|l: Seq<char>| l + "\n"@).lemma_flatten_push(
                ls[k as int] + "\n"@,
            );
            assert(s@ =~= ls.take(k + 1).map_values(|l: Seq<char>| l + "\n"@).flatten());
        }
        k += 1;
    }
    assert(lines_of(lines@).take(lines.len() as int) =~= lines_of(lines@));
    s
}

} // verus!
