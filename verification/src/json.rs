use vstd::prelude::*;

verus! {

/// The hexadecimal digit character for a value below sixteen.
pub open spec fn spec_hex_digit(n: int) -> char {
    if n == 0 {
        '0'
    } else if n == 1 {
        '1'
    } else if n == 2 {
        '2'
    } else if n == 3 {
        '3'
    } else if n == 4 {
        '4'
    } else if n == 5 {
        '5'
    } else if n == 6 {
        '6'
    } else if n == 7 {
        '7'
    } else if n == 8 {
        '8'
    } else if n == 9 {
        '9'
    } else if n == 10 {
        'a'
    } else if n == 11 {
        'b'
    } else if n == 12 {
        'c'
    } else if n == 13 {
        'd'
    } else if n == 14 {
        'e'
    } else {
        'f'
    }
}

/// JSON string escaping of a single character: quote and backslash get a
/// backslash escape, the control characters get their short escapes or a
/// `\u00..` form, and every other character stands for itself.
pub open spec fn spec_escape_char(c: char) -> Seq<char> {
    if c == '"' {
        seq!['\\', '"']
    } else if c == '\\' {
        seq!['\\', '\\']
    } else if c == '\u{8}' {
        seq!['\\', 'b']
    } else if c == '\t' {
        seq!['\\', 't']
    } else if c == '\n' {
        seq!['\\', 'n']
    } else if c == '\u{c}' {
        seq!['\\', 'f']
    } else if c == '\r' {
        seq!['\\', 'r']
    } else if (c as int) < 0x20 {
        seq!['\\', 'u', '0', '0', spec_hex_digit((c as int) / 16), spec_hex_digit((c as int) % 16)]
    } else {
        seq![c]
    }
}

/// JSON string escaping of a whole sequence of characters.
pub open spec fn spec_escape(s: Seq<char>) -> Seq<char>
    decreases s.len(),
{
    if s.len() == 0 {
        Seq::empty()
    } else {
        spec_escape_char(s[0]) + spec_escape(s.subrange(1, s.len() as int))
    }
}

/// Escaping distributes over concatenation.
pub proof fn lemma_escape_concat(a: Seq<char>, b: Seq<char>)
    ensures
        spec_escape(a + b) == spec_escape(a) + spec_escape(b),
    decreases a.len(),
{
    if a.len() == 0 {
        assert(a + b =~= b);
        assert(spec_escape(a) + spec_escape(b) =~= spec_escape(b));
    } else {
        let rest = a.subrange(1, a.len() as int);
        assert((a + b).subrange(1, (a + b).len() as int) =~= rest + b);
        lemma_escape_concat(rest, b);
        assert((a + b)[0] == a[0]);
        assert(spec_escape(a + b) =~= spec_escape(a) + spec_escape(b));
    }
}

/// Escaping a sequence extended by one character appends that character's
/// escaping.
pub proof fn lemma_escape_push(s: Seq<char>, c: char)
    ensures
        spec_escape(s.push(c)) == spec_escape(s) + spec_escape_char(c),
{
    let single = seq![c];
    assert(s.push(c) =~= s + single);
    lemma_escape_concat(s, single);
    let empty = Seq::<char>::empty();
    assert(single.subrange(1, 1) =~= empty);
    assert(spec_escape(empty) == empty);
    assert(single[0] == c);
    assert(spec_escape(single) == spec_escape_char(c) + spec_escape(single.subrange(1, 1)));
    assert(spec_escape(single) =~= spec_escape_char(c));
}

/// Relies on std's `String::push`: appends the given character to the end
/// of this string.
pub assume_specification[ String::push ](s: &mut String, ch: char)
    ensures
        final(s)@ == old(s)@.push(ch),
;

/// The hexadecimal digit character for a value below sixteen.
fn hex_digit(n: u32) -> (c: char)
    requires
        n < 16,
    ensures
        c == spec_hex_digit(n as int),
{
    if n == 0 {
        '0'
    } else if n == 1 {
        '1'
    } else if n == 2 {
        '2'
    } else if n == 3 {
        '3'
    } else if n == 4 {
        '4'
    } else if n == 5 {
        '5'
    } else if n == 6 {
        '6'
    } else if n == 7 {
        '7'
    } else if n == 8 {
        '8'
    } else if n == 9 {
        '9'
    } else if n == 10 {
        'a'
    } else if n == 11 {
        'b'
    } else if n == 12 {
        'c'
    } else if n == 13 {
        'd'
    } else if n == 14 {
        'e'
    } else {
        'f'
    }
}

/// Appends the JSON string escaping of `s` to `out`.
pub fn append_escaped(out: &mut String, s: &str)
    ensures
        final(out)@ == old(out)@ + spec_escape(s@),
{
    let len = s.unicode_len();
    let mut i: usize = 0;
    while i < len
        invariant
            len == s@.len(),
            i <= len,
            out@ == old(out)@ + spec_escape(s@.subrange(0, i as int)),
        decreases len - i,
    {
        let c = s.get_char(i);
        let ghost prefix = out@;
        if c == '"' {
            out.push('\\');
            out.push('"');
        } else if c == '\\' {
            out.push('\\');
            out.push('\\');
        } else if c == '\u{8}' {
            out.push('\\');
            out.push('b');
        } else if c == '\t' {
            out.push('\\');
            out.push('t');
        } else if c == '\n' {
            out.push('\\');
            out.push('n');
        } else if c == '\u{c}' {
            out.push('\\');
            out.push('f');
        } else if c == '\r' {
            out.push('\\');
            out.push('r');
        } else {
            let u = c as u32;
            if u < 0x20 {
                out.push('\\');
                out.push('u');
                out.push('0');
                out.push('0');
                out.push(hex_digit(u / 16));
                out.push(hex_digit(u % 16));
            } else {
                out.push(c);
            }
        }
        proof {
            assert(out@ =~= prefix + spec_escape_char(c));
            assert(s@.subrange(0, (i + 1) as int) =~= s@.subrange(0, i as int).push(c));
            lemma_escape_push(s@.subrange(0, i as int), c);
            assert(out@ =~= old(out)@ + spec_escape(s@.subrange(0, (i + 1) as int)));
        }
        i += 1;
    }
    proof {
        assert(s@.subrange(0, len as int) =~= s@);
    }
}

} // verus!
