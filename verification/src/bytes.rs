//! Numbers as rows of bytes, the highest byte first.

use vstd::prelude::*;

verus! {

/// The last `width` bytes of a number.
pub open spec fn be(n: nat, width: nat) -> Seq<u8>
    decreases width,
{
    if width == 0 {
        Seq::empty()
    } else {
        be(n / 256, (width - 1) as nat).push((n % 256) as u8)
    }
}

/// The number that bytes stand for.
pub open spec fn value(s: Seq<u8>) -> nat
    decreases s.len(),
{
    if s.len() == 0 {
        0
    } else {
        value(s.drop_last()) * 256 + s.last() as nat
    }
}

/// One more than the largest number of `width` bytes.
pub open spec fn limit(width: nat) -> nat
    decreases width,
{
    if width == 0 {
        1
    } else {
        limit((width - 1) as nat) * 256
    }
}

pub proof fn lemma_be_len(n: nat, width: nat)
    ensures
        be(n, width).len() == width,
    decreases width,
{
    if width > 0 {
        lemma_be_len(n / 256, (width - 1) as nat);
    }
}

/// A number that fits is read back as it was written.
pub proof fn bytes_keep_numbers(n: nat, width: nat)
    requires
        n < limit(width),
    ensures
        be(n, width).len() == width,
        value(be(n, width)) == n,
    decreases width,
{
    lemma_be_len(n, width);
    if width > 0 {
        let rest = (width - 1) as nat;
        assert(n / 256 < limit(rest)) by (nonlinear_arith)
            requires
                n < limit(rest) * 256,
        ;
        bytes_keep_numbers(n / 256, rest);
        assert(be(n, width).drop_last() =~= be(n / 256, rest));
    }
}

/// Bytes are the writing of the number that they stand for.
pub proof fn numbers_keep_bytes(s: Seq<u8>)
    ensures
        value(s) < limit(s.len()),
        be(value(s), s.len()) == s,
    decreases s.len(),
{
    if s.len() == 0 {
        assert(be(value(s), s.len()) =~= s);
    } else {
        numbers_keep_bytes(s.drop_last());
        let v = value(s.drop_last());
        let l = s.last() as nat;
        assert((v * 256 + l) / 256 == v && (v * 256 + l) % 256 == l) by (nonlinear_arith)
            requires
                l < 256,
        ;
        assert(v * 256 + l < limit(s.drop_last().len()) * 256) by (nonlinear_arith)
            requires
                v < limit(s.drop_last().len()),
                l < 256,
        ;
        assert(be(value(s), s.len()) =~= s);
    }
}

pub proof fn lemma_limits()
    ensures
        limit(2) == 0x1_0000,
        limit(4) == 0x1_0000_0000,
        limit(8) == 0x1_0000_0000_0000_0000,
        limit(16) == 0x1_0000_0000_0000_0000 * 0x1_0000_0000_0000_0000,
{
    reveal_with_fuel(limit, 17);
}

/// Appends the last `width` bytes of a number.
pub fn push_be(out: &mut Vec<u8>, n: u128, width: usize)
    requires
        width <= 16,
    ensures
        final(out)@ == old(out)@ + be(n as nat, width as nat),
    decreases width,
{
    if width == 0 {
        assert(out@ =~= old(out)@ + be(n as nat, 0));
        return ;
    }
    push_be(out, n / 256, width - 1);
    out.push((n % 256) as u8);
    assert(out@ =~= old(out)@ + be(n as nat, width as nat));
}

proof fn lemma_value_step(s: Seq<u8>, i: int)
    requires
        0 <= i < s.len() <= 16,
    ensures
        value(s.subrange(0, i + 1)) == value(s.subrange(0, i)) * 256 + s[i],
        value(s.subrange(0, i + 1)) < limit(16),
{
    assert(s.subrange(0, i + 1).drop_last() =~= s.subrange(0, i));
    numbers_keep_bytes(s.subrange(0, i + 1));
    lemma_limit_grows((i + 1) as nat, 16);
}

proof fn lemma_limit_grows(a: nat, b: nat)
    requires
        a <= b,
    ensures
        0 < limit(a) <= limit(b),
    decreases b,
{
    if a < b {
        lemma_limit_grows(a, (b - 1) as nat);
    } else if a > 0 {
        lemma_limit_grows((a - 1) as nat, (a - 1) as nat);
    }
}

/// Reads a number of at most sixteen bytes.
pub fn read_be(s: &[u8]) -> (r: u128)
    requires
        s@.len() <= 16,
    ensures
        r == value(s@),
{
    let mut r: u128 = 0;
    let mut i: usize = 0;
    while i < s.len()
        invariant
            i <= s@.len() <= 16,
            r == value(s@.subrange(0, i as int)),
        decreases s@.len() - i,
    {
        proof {
            lemma_value_step(s@, i as int);
            lemma_limits();
        }
        r = r * 256 + s[i] as u128;
        i = i + 1;
    }
    assert(s@.subrange(0, s@.len() as int) =~= s@);
    r
}

/// Appends bytes.
pub fn push_all(out: &mut Vec<u8>, s: &[u8])
    ensures
        final(out)@ == old(out)@ + s@,
{
    let mut i: usize = 0;
    while i < s.len()
        invariant
            i <= s@.len(),
            out@ == old(out)@ + s@.subrange(0, i as int),
        decreases s@.len() - i,
    {
        out.push(s[i]);
        assert(old(out)@ + s@.subrange(0, i + 1) =~= (old(out)@ + s@.subrange(0, i as int)).push(
            s@[i as int],
        ));
        i = i + 1;
    }
    assert(s@.subrange(0, s@.len() as int) =~= s@);
}

/// The bytes from one position to another.
pub fn part(s: &[u8], from: usize, to: usize) -> (r: Vec<u8>)
    requires
        from <= to <= s@.len(),
    ensures
        r@ == s@.subrange(from as int, to as int),
{
    let mut r: Vec<u8> = Vec::new();
    let mut i: usize = from;
    while i < to
        invariant
            from <= i <= to <= s@.len(),
            r@ == s@.subrange(from as int, i as int),
        decreases to - i,
    {
        r.push(s[i]);
        assert(s@.subrange(from as int, i + 1) =~= s@.subrange(from as int, i as int).push(
            s@[i as int],
        ));
        i = i + 1;
    }
    r
}

/// Whether two rows of bytes are the same.
pub fn same_bytes(a: &[u8], b: &[u8]) -> (r: bool)
    ensures
        r == (a@ == b@),
{
    if a.len() != b.len() {
        return false;
    }
    let mut i: usize = 0;
    while i < a.len()
        invariant
            i <= a@.len(),
            a@.len() == b@.len(),
            forall|j: int| 0 <= j < i ==> a@[j] == b@[j],
        decreases a@.len() - i,
    {
        if a[i] != b[i] {
            return false;
        }
        i = i + 1;
    }
    assert(a@ =~= b@);
    true
}

} // verus!
