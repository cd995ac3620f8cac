use vstd::prelude::*;

verus! {

broadcast use vstd::string::group_string_axioms;

/// Relies on std's `String::push`: appends one character.
#[verifier::external_body]
pub(crate) fn push_char(s: &mut String, c: char)
    ensures
        final(s)@ == old(s)@.push(c),
{
    s.push(c)
}

/// Upper-case hexadecimal digit of a value below sixteen.
pub open spec fn hex_digit(n: nat) -> char {
    if n < 10 {
        (48 + n) as char
    } else {
        (55 + n) as char
    }
}

/// Upper-case hexadecimal digits of `x`, without leading zeros.
pub open spec fn hex_digits(x: nat) -> Seq<char>
    decreases x,
{
    if x < 16 {
        seq![hex_digit(x)]
    } else {
        hex_digits(x / 16).push(hex_digit(x % 16))
    }
}

/// `n` zero characters.
pub open spec fn zeros(n: nat) -> Seq<char> {
    Seq::new(n, |i: int| '0')
}

/// Digits of `x` padded with leading zeros to at least `width` characters.
pub open spec fn hex_padded(x: nat, width: nat) -> Seq<char> {
    let d = hex_digits(x);
    if d.len() >= width {
        d
    } else {
        zeros((width - d.len()) as nat) + d
    }
}

/// Each byte as two digits, comma-separated within brackets: `[0A, FF]`.
pub open spec fn hex_list(bytes: Seq<u8>) -> Seq<char>
    decreases bytes.len(),
{
    seq!['['] + hex_items(bytes) + seq![']']
}

pub open spec fn hex_items(bytes: Seq<u8>) -> Seq<char>
    decreases bytes.len(),
{
    if bytes.len() == 0 {
        Seq::empty()
    } else if bytes.len() == 1 {
        hex_padded(bytes[0] as nat, 2)
    } else {
        hex_items(bytes.drop_last()) + ", "@ + hex_padded(bytes.last() as nat, 2)
    }
}

pub open spec fn bool_text(b: bool) -> Seq<char> {
    if b {
        "true"@
    } else {
        "false"@
    }
}

fn hex_digit_exec(n: u32) -> (r: char)
    requires
        n < 16,
    ensures
        r == hex_digit(n as nat),
{
    if n < 10 {
        ((48 + n) as u8) as char
    } else {
        ((55 + n) as u8) as char
    }
}

fn hex_digits_exec(x: u32) -> (r: String)
    ensures
        r@ == hex_digits(x as nat),
    decreases x,
{
    if x < 16 {
        let mut s = String::new();
        push_char(&mut s, hex_digit_exec(x));
        assert(s@ =~= seq![hex_digit(x as nat)]);
        s
    } else {
        let mut s = hex_digits_exec(x / 16);
        push_char(&mut s, hex_digit_exec(x % 16));
        s
    }
}

/// Appends `x` in upper-case hexadecimal, padded to at least `width` digits.
pub fn push_hex(out: &mut String, x: u32, width: usize)
    ensures
        final(out)@ == old(out)@ + hex_padded(x as nat, width as nat),
{
    let d = hex_digits_exec(x);
    let n = d.as_str().unicode_len();
    let mut i: usize = n;
    let ghost start = out@;
    while i < width
        invariant
            n == d@.len(),
            n <= i,
            n < width ==> i <= width,
            n >= width ==> i == n,
            out@ == start + zeros((i - n) as nat),
        decreases width - i,
    {
        push_char(out, '0');
        assert(zeros((i + 1 - n) as nat) =~= zeros((i - n) as nat).push('0'));
        i = i + 1;
    }
    let ghost padded = out@;
    out.append(d.as_str());
    assert(out@ == padded + d@);
    proof {
        if d@.len() >= width {
            assert(zeros(0) =~= Seq::<char>::empty());
            assert(padded =~= start);
            assert(out@ =~= start + hex_padded(x as nat, width as nat));
        } else {
            assert(i == width);
            assert(out@ =~= start + hex_padded(x as nat, width as nat));
        }
    }
}

/// Appends the bytes as a bracketed list of two-digit hexadecimal numbers.
pub fn push_hex_list(out: &mut String, bytes: &[u8])
    ensures
        final(out)@ == old(out)@ + hex_list(bytes@),
{
    let ghost start = out@;
    push_char(out, '[');
    let mut i: usize = 0;
    while i < bytes.len()
        invariant
            i <= bytes@.len(),
            out@ == start + seq!['['] + hex_items(bytes@.subrange(0, i as int)),
        decreases bytes@.len() - i,
    {
        let ghost before = out@;
        assert(bytes@.subrange(0, i + 1).drop_last() =~= bytes@.subrange(0, i as int));
        if i > 0 {
            out.append(", ");
        }
        push_hex(out, bytes[i] as u32, 2);
        proof {
            if i == 0 {
                assert(hex_items(bytes@.subrange(0, 0)) =~= Seq::<char>::empty());
                assert(out@ =~= start + seq!['['] + hex_items(bytes@.subrange(0, 1)));
            } else {
                assert(out@ =~= start + seq!['['] + hex_items(bytes@.subrange(0, i + 1)));
            }
        }
        i = i + 1;
    }
    push_char(out, ']');
    assert(bytes@.subrange(0, bytes@.len() as int) =~= bytes@);
    assert(out@ =~= start + hex_list(bytes@));
}

/// Appends `true` or `false`.
pub fn push_bool(out: &mut String, b: bool)
    ensures
        final(out)@ == old(out)@ + bool_text(b),
{
    if b {
        out.append("true");
    } else {
        out.append("false");
    }
}

} // verus!
