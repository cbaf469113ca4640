use vstd::prelude::*;

verus! {

/// The unsigned LEB128 encoding of `n`: seven bits per byte, least
/// significant group first, the high bit set on every byte but the last.
pub open spec fn leb128(n: nat) -> Seq<u8>
    decreases n,
{
    if n < 128 {
        seq![n as u8]
    } else {
        seq![(n % 128 + 128) as u8] + leb128(n / 128)
    }
}

/// The largest number a WebAssembly size, count or index can hold.
pub open spec fn max_u32() -> nat {
    0xffff_ffff
}

/// Appends the LEB128 encoding of `n` to `buf`.
pub fn write_leb128(buf: &mut Vec<u8>, n: u32)
    ensures
        final(buf)@ == old(buf)@ + leb128(n as nat),
{
    let mut rest: u32 = n;
    while rest >= 128
        invariant
            buf@ + leb128(rest as nat) == old(buf)@ + leb128(n as nat),
        decreases rest,
    {
        let low: u32 = rest % 128;
        let byte: u8 = (low + 128) as u8;
        proof {
            let prev = buf@;
            assert(leb128(rest as nat) == seq![byte] + leb128((rest / 128) as nat));
            assert(prev.push(byte) + leb128((rest / 128) as nat) =~= prev + leb128(rest as nat));
        }
        buf.push(byte);
        rest = rest / 128;
    }
    proof {
        assert(buf@.push(rest as u8) =~= buf@ + leb128(rest as nat));
    }
    buf.push(rest as u8);
}

/// The LEB128 encoding of `n` as a buffer of its own.
pub fn encode_leb128(n: u32) -> (bytes: Vec<u8>)
    ensures
        bytes@ == leb128(n as nat),
{
    let mut bytes: Vec<u8> = Vec::new();
    write_leb128(&mut bytes, n);
    assert(Seq::<u8>::empty() + leb128(n as nat) =~= leb128(n as nat));
    bytes
}

/// Appends the LEB128 encoding of a length, where it fits the format.
pub fn write_len(buf: &mut Vec<u8>, n: usize) -> (fits: bool)
    ensures
        fits == (n <= max_u32()),
        fits ==> final(buf)@ == old(buf)@ + leb128(n as nat),
        !fits ==> final(buf)@ == old(buf)@,
{
    if n > 0xffff_ffff {
        false
    } else {
        write_leb128(buf, n as u32);
        true
    }
}

/// The signed LEB128 encoding of `v`: seven bits per byte, least
/// significant group first, in two's complement; the encoding ends with the
/// first group whose seventh bit tells the sign of what is left.
pub open spec fn sleb128(v: int) -> Seq<u8>
    decreases (if v >= 0 { v } else { -v }),
{
    if -64 <= v < 64 {
        seq![(v % 128) as u8]
    } else {
        seq![(v % 128 + 128) as u8] + sleb128(v / 128)
    }
}

/// Appends the signed LEB128 encoding of `v` to `buf`.
pub fn write_sleb128(buf: &mut Vec<u8>, v: i32)
    ensures
        final(buf)@ == old(buf)@ + sleb128(v as int),
{
    let mut rest: i64 = v as i64;
    while rest < -64 || rest >= 64
        invariant
            -0x8000_0000 <= rest <= 0x7fff_ffff,
            buf@ + sleb128(rest as int) == old(buf)@ + sleb128(v as int),
        decreases (if rest >= 0 { rest as int } else { -rest }),
    {
        // The low seven bits and what is left, rounded down
        let (low, high): (i64, i64) = if rest >= 0 {
            (rest % 128, rest / 128)
        } else {
            (127 - ((-rest - 1) % 128), -((-rest - 1) / 128) - 1)
        };
        assert(low == rest as int % 128 && high == rest as int / 128) by {
            assert(rest == 128 * high + low && 0 <= low < 128);
            vstd::arithmetic::div_mod::lemma_fundamental_div_mod_converse(rest as int, 128, high as int, low as int);
        }
        let byte: u8 = (low + 128) as u8;
        proof {
            let prev = buf@;
            assert(sleb128(rest as int) == seq![byte] + sleb128(high as int));
            assert(prev.push(byte) + sleb128(high as int) =~= prev + sleb128(rest as int));
        }
        buf.push(byte);
        rest = high;
    }
    let low: i64 = if rest >= 0 {
        rest
    } else {
        rest + 128
    };
    assert(low == rest as int % 128) by {
        if rest < 0 {
            vstd::arithmetic::div_mod::lemma_fundamental_div_mod_converse(rest as int, 128, -1, low as int);
        }
    }
    proof {
        assert(buf@.push(low as u8) =~= buf@ + sleb128(rest as int));
    }
    buf.push(low as u8);
}

} // verus!
