//! Primitive byte codecs: script opcodes, pushdata encoding, chunking of long
//! payloads, Bitcoin compact-size framing, and decimal rendering of amounts.

use vstd::prelude::*;

verus! {

/// An empty push; doubles as `OP_FALSE`.
pub const OP_0: u8 = 0x00;
pub const OP_PUSHBYTES_20: u8 = 0x14;
pub const OP_PUSHBYTES_32: u8 = 0x20;
pub const OP_PUSHDATA1: u8 = 0x4c;
pub const OP_PUSHDATA2: u8 = 0x4d;
pub const OP_PUSHDATA4: u8 = 0x4e;
/// Pushes the number 1; the witness-v1 marker of a P2TR scriptPubkey.
pub const OP_PUSHNUM_1: u8 = 0x51;
pub const OP_IF: u8 = 0x63;
pub const OP_ENDIF: u8 = 0x68;
pub const OP_DUP: u8 = 0x76;
pub const OP_EQUALVERIFY: u8 = 0x88;
pub const OP_HASH160: u8 = 0xa9;
pub const OP_CHECKSIG: u8 = 0xac;

/// The largest stack element a single script push may produce.
pub const MAX_PUSH: usize = 520;

/// The canonical pushdata encoding of one script push of `data`.
pub open spec fn pushdata_enc(data: Seq<u8>) -> Seq<u8> {
    let n = data.len();
    if n < 0x4c {
        seq![n as u8] + data
    } else if n <= 0xff {
        seq![OP_PUSHDATA1, n as u8] + data
    } else if n <= 0xffff {
        seq![OP_PUSHDATA2, (n % 0x100) as u8, (n / 0x100) as u8] + data
    } else {
        seq![
            OP_PUSHDATA4,
            (n % 0x100) as u8,
            ((n / 0x100) % 0x100) as u8,
            ((n / 0x10000) % 0x100) as u8,
            ((n / 0x1000000) % 0x100) as u8,
        ] + data
    }
}

/// `data` cut into pushes of at most `MAX_PUSH` bytes each, in order.
pub open spec fn chunked_pushes(data: Seq<u8>) -> Seq<u8>
    decreases data.len(),
{
    if data.len() == 0 {
        Seq::empty()
    } else if data.len() <= MAX_PUSH {
        pushdata_enc(data)
    } else {
        pushdata_enc(data.take(MAX_PUSH as int)) + chunked_pushes(data.skip(MAX_PUSH as int))
    }
}

/// The Bitcoin compact-size encoding of `n`.
pub open spec fn compact_size_enc(n: nat) -> Seq<u8> {
    if n < 0xfd {
        seq![n as u8]
    } else if n <= 0xffff {
        seq![0xfdu8, (n % 0x100) as u8, (n / 0x100) as u8]
    } else if n <= 0xffffffff {
        seq![
            0xfeu8,
            (n % 0x100) as u8,
            ((n / 0x100) % 0x100) as u8,
            ((n / 0x10000) % 0x100) as u8,
            ((n / 0x1000000) % 0x100) as u8,
        ]
    } else {
        seq![
            0xffu8,
            (n % 0x100) as u8,
            ((n / 0x100) % 0x100) as u8,
            ((n / 0x10000) % 0x100) as u8,
            ((n / 0x1000000) % 0x100) as u8,
            ((n / 0x100000000) % 0x100) as u8,
            ((n / 0x10000000000) % 0x100) as u8,
            ((n / 0x1000000000000) % 0x100) as u8,
            ((n / 0x100000000000000) % 0x100) as u8,
        ]
    }
}

/// The ASCII decimal digits of `n`, most significant first, no leading zeros
/// (a single `'0'` for zero).
pub open spec fn dec_of(n: nat) -> Seq<u8>
    decreases n,
{
    if n < 10 {
        seq![(0x30 + n) as u8]
    } else {
        dec_of(n / 10) + seq![(0x30 + (n % 10)) as u8]
    }
}

/// Appends one byte.
pub fn push_byte(out: &mut Vec<u8>, b: u8)
    ensures
        final(out)@ == old(out)@ + seq![b],
{
    out.push(b);
    proof {
        assert(out@ =~= old(out)@ + seq![b]);
    }
}

/// Appends all of `src` to `out`.
pub fn append_bytes(out: &mut Vec<u8>, src: &Vec<u8>)
    ensures
        final(out)@ == old(out)@ + src@,
{
    let mut i: usize = 0;
    while i < src.len()
        invariant
            i <= src@.len(),
            out@ == old(out)@ + src@.subrange(0, i as int),
        decreases src@.len() - i,
    {
        out.push(src[i]);
        proof {
            assert(out@ =~= old(out)@ + src@.subrange(0, i as int + 1));
        }
        i = i + 1;
    }
    proof {
        assert(src@.subrange(0, src@.len() as int) =~= src@);
    }
}

/// Copies `src[a..b]` into a fresh vector.
pub fn copy_range(src: &Vec<u8>, a: usize, b: usize) -> (r: Vec<u8>)
    requires
        a <= b <= src@.len(),
    ensures
        r@ == src@.subrange(a as int, b as int),
{
    let mut r: Vec<u8> = Vec::new();
    let mut i: usize = a;
    while i < b
        invariant
            a <= i <= b <= src@.len(),
            r@ == src@.subrange(a as int, i as int),
        decreases b - i,
    {
        r.push(src[i]);
        proof {
            assert(r@ =~= src@.subrange(a as int, i as int + 1));
        }
        i = i + 1;
    }
    r
}

/// Appends one pushdata element carrying `data`.
pub fn push_data(out: &mut Vec<u8>, data: &Vec<u8>)
    requires
        data@.len() <= MAX_PUSH,
    ensures
        final(out)@ == old(out)@ + pushdata_enc(data@),
{
    let n = data.len();
    if n < 0x4c {
        push_byte(out, n as u8);
    } else if n <= 0xff {
        push_byte(out, OP_PUSHDATA1);
        push_byte(out, n as u8);
    } else {
        push_byte(out, OP_PUSHDATA2);
        push_byte(out, (n % 0x100) as u8);
        push_byte(out, (n / 0x100) as u8);
    }
    append_bytes(out, data);
    proof {
        assert(out@ =~= old(out)@ + pushdata_enc(data@));
    }
}

/// Appends `data[from..]` as a run of pushes of at most `MAX_PUSH` bytes each,
/// preserving byte order.
pub fn push_chunks(out: &mut Vec<u8>, data: &Vec<u8>, from: usize)
    requires
        from <= data@.len(),
    ensures
        final(out)@ == old(out)@ + chunked_pushes(data@.skip(from as int)),
    decreases data@.len() - from,
{
    let n = data.len();
    if from == n {
        proof {
            assert(data@.skip(from as int) =~= Seq::<u8>::empty());
            assert(out@ =~= old(out)@ + chunked_pushes(data@.skip(from as int)));
        }
    } else if n - from <= MAX_PUSH {
        let chunk = copy_range(data, from, n);
        push_data(out, &chunk);
        proof {
            assert(data@.skip(from as int) =~= data@.subrange(from as int, n as int));
        }
    } else {
        let chunk = copy_range(data, from, from + MAX_PUSH);
        push_data(out, &chunk);
        push_chunks(out, data, from + MAX_PUSH);
        proof {
            let s = data@.skip(from as int);
            assert(s.take(MAX_PUSH as int) =~= data@.subrange(from as int, from as int + MAX_PUSH));
            assert(s.skip(MAX_PUSH as int) =~= data@.skip(from as int + MAX_PUSH));
            assert(out@ =~= old(out)@ + chunked_pushes(data@.skip(from as int)));
        }
    }
}

/// Appends the compact-size encoding of `n`.
pub fn append_compact_size(out: &mut Vec<u8>, n: u64)
    ensures
        final(out)@ == old(out)@ + compact_size_enc(n as nat),
{
    if n < 0xfd {
        push_byte(out, n as u8);
    } else if n <= 0xffff {
        push_byte(out, 0xfd);
        push_byte(out, (n % 0x100) as u8);
        push_byte(out, (n / 0x100) as u8);
    } else if n <= 0xffffffff {
        push_byte(out, 0xfe);
        push_byte(out, (n % 0x100) as u8);
        push_byte(out, ((n / 0x100) % 0x100) as u8);
        push_byte(out, ((n / 0x10000) % 0x100) as u8);
        push_byte(out, ((n / 0x1000000) % 0x100) as u8);
    } else {
        push_byte(out, 0xff);
        push_byte(out, (n % 0x100) as u8);
        push_byte(out, ((n / 0x100) % 0x100) as u8);
        push_byte(out, ((n / 0x10000) % 0x100) as u8);
        push_byte(out, ((n / 0x1000000) % 0x100) as u8);
        push_byte(out, ((n / 0x100000000) % 0x100) as u8);
        push_byte(out, ((n / 0x10000000000) % 0x100) as u8);
        push_byte(out, ((n / 0x1000000000000) % 0x100) as u8);
        push_byte(out, ((n / 0x100000000000000) % 0x100) as u8);
    }
    proof {
        assert(out@ =~= old(out)@ + compact_size_enc(n as nat));
    }
}

/// Renders `n` as ASCII decimal digits, most significant first.
pub fn u64_to_decimal(n: u64) -> (r: Vec<u8>)
    ensures
        r@ == dec_of(n as nat),
    decreases n,
{
    if n < 10 {
        let mut r: Vec<u8> = Vec::new();
        r.push(0x30 + (n as u8));
        proof {
            assert(r@ =~= dec_of(n as nat));
        }
        r
    } else {
        let mut r = u64_to_decimal(n / 10);
        r.push(0x30 + ((n % 10) as u8));
        proof {
            assert(r@ =~= dec_of(n as nat));
        }
        r
    }
}

} // verus!
