//! The texts of the exception messages the interpreter writes.

use vstd::prelude::*;

verus! {

/// The bytes of an ASCII text.
pub open spec fn ascii(s: Seq<char>) -> Seq<u8> {
    s.map_values(|c: char| c as u8)
}

/// The decimal digits of `n`, most significant first, without leading zeros.
pub open spec fn decimal(n: nat) -> Seq<u8>
    decreases n,
{
    if n < 10 {
        seq![(48 + n) as u8]
    } else {
        decimal(n / 10).push((48 + n % 10) as u8)
    }
}

/// The decimal text of `i`, with a leading `-` when it is negative.
pub open spec fn signed_decimal(i: int) -> Seq<u8> {
    if i < 0 {
        seq![45u8] + decimal((-i) as nat)
    } else {
        decimal(i as nat)
    }
}

/// The message of an `ArrayIndexOutOfBoundsException`.
pub open spec fn index_message(len: nat, index: int) -> Seq<u8> {
    ascii("length is "@) + decimal(len) + ascii(", but index is "@) + signed_decimal(index)
}

/// The message of an `ArithmeticException` raised by a division by zero.
pub open spec fn div_zero_message() -> Seq<u8> {
    ascii("divide by zero"@)
}

/// Appends the bytes of the ASCII text `s` to `buf`.
fn push_ascii(buf: &mut Vec<u8>, s: &str)
    requires
        vstd::string::is_ascii(s),
    ensures
        final(buf)@ == old(buf)@ + ascii(s@),
{
    proof {
        broadcast use vstd::string::is_ascii_spec_bytes;

    }
    let b = s.as_bytes();
    let ghost start = buf@;
    let mut i: usize = 0;
    while i < b.len()
        invariant
            i <= b@.len(),
            b@ == Seq::new(s@.len(), |k: int| s@[k] as u8),
            buf@ == start + ascii(s@).subrange(0, i as int),
        decreases b@.len() - i,
    {
        buf.push(b[i]);
        i += 1;
        assert(ascii(s@).subrange(0, i as int) =~= ascii(s@).subrange(0, i - 1).push(b@[i - 1]));
    }
    assert(ascii(s@).subrange(0, i as int) =~= ascii(s@));
}

/// Appends the decimal digits of `n` to `buf`.
pub fn push_decimal(buf: &mut Vec<u8>, n: u64)
    ensures
        final(buf)@ == old(buf)@ + decimal(n as nat),
    decreases n,
{
    if n >= 10 {
        push_decimal(buf, n / 10);
    }
    let d: u8 = (n % 10) as u8;
    buf.push(48 + d);
    proof {
        if n >= 10 {
            assert(decimal(n as nat) == decimal((n / 10) as nat).push((48 + n % 10) as u8));
        } else {
            assert(n % 10 == n);
        }
        assert(final(buf)@ =~= old(buf)@ + decimal(n as nat));
    }
}

/// Appends the decimal text of `i` to `buf`.
pub fn push_signed_decimal(buf: &mut Vec<u8>, i: i64)
    requires
        i > i64::MIN,
    ensures
        final(buf)@ == old(buf)@ + signed_decimal(i as int),
{
    if i < 0 {
        buf.push(45);
        push_decimal(buf, (-i) as u64);
        assert(final(buf)@ =~= old(buf)@ + signed_decimal(i as int));
    } else {
        push_decimal(buf, i as u64);
    }
}

/// The message of an `ArrayIndexOutOfBoundsException` for an array of `len` elements
/// accessed at `index`.
pub fn format_index_message(len: usize, index: i32) -> (r: Vec<u8>)
    ensures
        r@ == index_message(len as nat, index as int),
{
    let mut buf: Vec<u8> = Vec::new();
    proof {
        reveal_strlit("length is ");
        reveal_strlit(", but index is ");
    }
    assert(vstd::string::is_ascii("length is "));
    push_ascii(&mut buf, "length is ");
    push_decimal(&mut buf, len as u64);
    assert(vstd::string::is_ascii(", but index is "));
    push_ascii(&mut buf, ", but index is ");
    push_signed_decimal(&mut buf, index as i64);
    assert(buf@ =~= index_message(len as nat, index as int));
    buf
}

/// The message of an `ArithmeticException` raised by a division by zero.
pub fn format_div_zero_message() -> (r: Vec<u8>)
    ensures
        r@ == div_zero_message(),
{
    let mut buf: Vec<u8> = Vec::new();
    proof {
        reveal_strlit("divide by zero");
    }
    assert(vstd::string::is_ascii("divide by zero"));
    push_ascii(&mut buf, "divide by zero");
    assert(buf@ =~= div_zero_message());
    buf
}

} // verus!
