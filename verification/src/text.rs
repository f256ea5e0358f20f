//! Plain-text building blocks: decimal rendering of integers and the
//! comma-separated row format used by the link and report writers.
use vstd::prelude::*;

verus! {

/// Relies on std's `String::push`: appends exactly the given character.
#[verifier::external_body]
pub fn push_char(s: &mut String, c: char)
    ensures
        final(s)@ == old(s)@.push(c),
{
    s.push(c)
}

/// The character for one decimal digit.
pub open spec fn dec_digit(d: int) -> char {
    ((48 + d) as u8) as char
}

/// The decimal rendering of a natural number, most significant digit first.
pub open spec fn dec_str(n: nat) -> Seq<char>
    decreases n,
{
    if n < 10 {
        seq![dec_digit(n as int)]
    } else {
        dec_str(n / 10).push(dec_digit((n % 10) as int))
    }
}

/// The decimal rendering of an integer: a leading minus sign when negative.
pub open spec fn int_str(n: int) -> Seq<char> {
    if n < 0 {
        seq!['-'].add(dec_str((-n) as nat))
    } else {
        dec_str(n as nat)
    }
}

/// Appends the decimal rendering of `n` to `s`.
pub fn append_u64(s: &mut String, n: u64)
    ensures
        final(s)@ == old(s)@ + dec_str(n as nat),
    decreases n,
{
    if n >= 10 {
        append_u64(s, n / 10);
    }
    let d: u8 = (n % 10) as u8 + 48;
    push_char(s, d as char);
    assert(final(s)@ =~= old(s)@ + dec_str(n as nat));
}

/// The decimal rendering of `n` as a fresh string.
pub fn u64_string(n: u64) -> (r: String)
    ensures
        r@ == dec_str(n as nat),
{
    let mut s = String::new();
    append_u64(&mut s, n);
    assert(s@ =~= dec_str(n as nat));
    s
}

/// Appends the decimal rendering of `n`, sign included, to `s`.
pub fn append_i64(s: &mut String, n: i64)
    ensures
        final(s)@ == old(s)@ + int_str(n as int),
{
    if n < 0 {
        push_char(s, '-');
        let m: u64 = (-(n as i128)) as u64;
        append_u64(s, m);
        assert(final(s)@ =~= old(s)@ + int_str(n as int));
    } else {
        append_u64(s, n as u64);
    }
}

/// The decimal rendering of `n`, sign included, as a fresh string.
pub fn i64_string(n: i64) -> (r: String)
    ensures
        r@ == int_str(n as int),
{
    let mut s = String::new();
    append_i64(&mut s, n);
    assert(s@ =~= int_str(n as int));
    s
}

/// The decimal rendering of `n`, sign included, as a fresh string.
pub fn i32_string(n: i32) -> (r: String)
    ensures
        r@ == int_str(n as int),
{
    i64_string(n as i64)
}

/// Whether a field must be quoted before it can stand in a comma-separated
/// row: it holds a comma, a double quote or a line break.
pub open spec fn csv_needs_quote(s: Seq<char>) -> bool {
    exists|i: int|
        0 <= i < s.len() && (s[i] == ',' || s[i] == '"' || s[i] == '\n' || s[i] == '\r')
}

/// A field's characters with every double quote doubled.
pub open spec fn csv_doubled(s: Seq<char>) -> Seq<char>
    decreases s.len(),
{
    if s.len() == 0 {
        Seq::empty()
    } else if s.last() == '"' {
        csv_doubled(s.drop_last()).push('"').push('"')
    } else {
        csv_doubled(s.drop_last()).push(s.last())
    }
}

/// A field as it stands in a comma-separated row: quoted, with inner double
/// quotes doubled, exactly when quoting is needed.
pub open spec fn csv_field(s: Seq<char>) -> Seq<char> {
    if csv_needs_quote(s) {
        seq!['"'].add(csv_doubled(s)).push('"')
    } else {
        s
    }
}

/// Appends one field of a comma-separated row to `out`.
pub fn append_csv_field(out: &mut String, f: &str)
    ensures
        final(out)@ == old(out)@ + csv_field(f@),
{
    let len = f.unicode_len();
    let mut needs: bool = false;
    let mut i: usize = 0;
    while i < len
        invariant
            0 <= i <= len,
            len == f@.len(),
            needs == csv_needs_quote(f@.take(i as int)),
        decreases len - i,
    {
        let c = f.get_char(i);
        if c == ',' || c == '"' || c == '\n' || c == '\r' {
            needs = true;
        }
        assert(f@.take(i + 1).drop_last() =~= f@.take(i as int));
        assert(f@.take(i + 1).last() == f@[i as int]);
        assert(csv_needs_quote(f@.take(i + 1)) == (csv_needs_quote(f@.take(i as int)) || (f@[i
            as int] == ',' || f@[i as int] == '"' || f@[i as int] == '\n' || f@[i as int] == '\r')))
            by {
            if csv_needs_quote(f@.take(i as int)) {
                let w = choose|k: int|
                    0 <= k < i && (f@.take(i as int)[k] == ',' || f@.take(i as int)[k] == '"'
                        || f@.take(i as int)[k] == '\n' || f@.take(i as int)[k] == '\r');
                assert(f@.take(i + 1)[w] == f@.take(i as int)[w]);
            }
        };
        i += 1;
    }
    assert(f@.take(len as int) =~= f@);
    if !needs {
        out.append(f);
        return ;
    }
    push_char(out, '"');
    let mut j: usize = 0;
    while j < len
        invariant
            0 <= j <= len,
            len == f@.len(),
            out@ == old(out)@ + seq!['"'].add(csv_doubled(f@.take(j as int))),
        decreases len - j,
    {
        let c = f.get_char(j);
        push_char(out, c);
        if c == '"' {
            push_char(out, '"');
        }
        assert(f@.take(j + 1).drop_last() =~= f@.take(j as int));
        assert(out@ =~= old(out)@ + seq!['"'].add(csv_doubled(f@.take(j + 1))));
        j += 1;
    }
    push_char(out, '"');
    assert(final(out)@ =~= old(out)@ + csv_field(f@));
}

} // verus!
