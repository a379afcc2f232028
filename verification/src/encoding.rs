//! Base64 text of byte strings, through the `base64` crate.
use base64::Engine;
use vstd::prelude::*;

verus! {

/// The code point of the character of a 6-bit value in the standard Base64
/// alphabet (`A`–`Z`, `a`–`z`, `0`–`9`, `+`, `/`).
pub open spec fn base64_code(v: nat) -> nat {
    if v < 26 {
        65 + v
    } else if v < 52 {
        (71 + v) as nat
    } else if v < 62 {
        (v - 4) as nat
    } else if v == 62 {
        43
    } else {
        47
    }
}

/// The character of a 6-bit value in the standard Base64 alphabet.
pub open spec fn base64_char(v: nat) -> char {
    (base64_code(v) as u32) as char
}

/// The standard Base64 text (RFC 4648 alphabet, `=` padding) of `data`:
/// each group of three bytes as four characters of six bits each, a final
/// group of one or two bytes padded with `=`.
pub open spec fn base64_standard(data: Seq<u8>) -> Seq<char>
    decreases data.len(),
{
    if data.len() == 0 {
        seq![]
    } else if data.len() == 1 {
        seq![base64_char((data[0] / 4) as nat), base64_char(((data[0] % 4) * 16) as nat), '=', '=']
    } else if data.len() == 2 {
        seq![
            base64_char((data[0] / 4) as nat),
            base64_char(((data[0] % 4) * 16 + data[1] / 16) as nat),
            base64_char(((data[1] % 16) * 4) as nat),
            '=',
        ]
    } else {
        seq![
            base64_char((data[0] / 4) as nat),
            base64_char(((data[0] % 4) * 16 + data[1] / 16) as nat),
            base64_char(((data[1] % 16) * 4 + data[2] / 64) as nat),
            base64_char((data[2] % 64) as nat),
        ] + base64_standard(data.skip(3))
    }
}

/// Different 6-bit values have different characters, none of them `=`.
pub proof fn lemma_base64_char(v: nat, w: nat)
    requires
        v < 64,
        w < 64,
    ensures
        base64_char(v) != '=',
        base64_char(v) == base64_char(w) ==> v == w,
{
    let cv = base64_code(v);
    let cw = base64_code(w);
    assert((cv as u32) as char == cv as char);
    assert((cw as u32) as char == cw as char);
    assert((cv as char) as int == cv);
    assert((cw as char) as int == cw);
}

/// The first four characters of the Base64 text of non-empty data.
proof fn lemma_base64_head(d: Seq<u8>)
    requires
        d.len() > 0,
    ensures
        base64_standard(d).len() >= 4,
        base64_standard(d)[0] == base64_char((d[0] / 4) as nat),
        d.len() == 1 ==> base64_standard(d)[1] == base64_char(((d[0] % 4) * 16) as nat),
        d.len() == 1 ==> base64_standard(d)[2] == '=',
        d.len() >= 2 ==> base64_standard(d)[1] == base64_char(
            ((d[0] % 4) * 16 + d[1] / 16) as nat,
        ),
        d.len() == 2 ==> base64_standard(d)[2] == base64_char(((d[1] % 16) * 4) as nat),
        d.len() <= 2 ==> base64_standard(d)[3] == '=',
        d.len() >= 3 ==> base64_standard(d)[2] == base64_char(
            ((d[1] % 16) * 4 + d[2] / 64) as nat,
        ),
        d.len() >= 3 ==> base64_standard(d)[3] == base64_char((d[2] % 64) as nat),
        d.len() >= 3 ==> base64_standard(d).subrange(4, base64_standard(d).len() as int)
            == base64_standard(d.skip(3)),
{
    if d.len() >= 3 {
        let t = base64_standard(d);
        assert(t.subrange(4, t.len() as int) =~= base64_standard(d.skip(3)));
    }
}

/// Base64 text determines the bytes: different byte strings have different
/// standard Base64 texts.
pub proof fn lemma_base64_injective(a: Seq<u8>, b: Seq<u8>)
    requires
        base64_standard(a) == base64_standard(b),
    ensures
        a == b,
    decreases a.len(),
{
    let t = base64_standard(a);
    let u = base64_standard(b);
    if a.len() == 0 || b.len() == 0 {
        if a.len() != 0 {
            lemma_base64_head(a);
        }
        if b.len() != 0 {
            lemma_base64_head(b);
        }
        assert(a =~= b);
        return;
    }
    lemma_base64_head(a);
    lemma_base64_head(b);
    let x0 = a[0];
    let y0 = b[0];
    lemma_base64_char((x0 / 4) as nat, (y0 / 4) as nat);
    assert(t[0] == u[0]);
    assert(x0 / 4 == y0 / 4);
    if a.len() == 1 {
        assert(t[2] == '=');
        if b.len() >= 2 {
            let y1 = b[1];
            lemma_base64_char(((y1 % 16) * 4) as nat, 0);
            if b.len() >= 3 {
                lemma_base64_char(((y1 % 16) * 4 + b[2] / 64) as nat, 0);
            }
            assert(u[2] != '=');
        }
        assert(b.len() == 1);
        assert(t[1] == u[1]);
        lemma_base64_char(((x0 % 4) * 16) as nat, ((y0 % 4) * 16) as nat);
        assert(x0 == y0);
        assert(a =~= b);
        return;
    }
    let x1 = a[1];
    if b.len() == 1 {
        lemma_base64_char(((x1 % 16) * 4) as nat, 0);
        if a.len() >= 3 {
            lemma_base64_char(((x1 % 16) * 4 + a[2] / 64) as nat, 0);
        }
        assert(t[2] != '=');
        assert(u[2] == '=');
        assert(false);
    }
    let y1 = b[1];
    assert(t[1] == u[1]);
    lemma_base64_char(((x0 % 4) * 16 + x1 / 16) as nat, ((y0 % 4) * 16 + y1 / 16) as nat);
    assert(x0 == y0);
    assert(x1 / 16 == y1 / 16);
    if a.len() == 2 {
        if b.len() >= 3 {
            lemma_base64_char((b[2] % 64) as nat, 0);
            assert(u[3] != '=');
            assert(false);
        }
        assert(t[2] == u[2]);
        lemma_base64_char(((x1 % 16) * 4) as nat, ((y1 % 16) * 4) as nat);
        assert(x1 == y1);
        assert(a =~= b);
        return;
    }
    if b.len() == 2 {
        lemma_base64_char((a[2] % 64) as nat, 0);
        assert(t[3] != '=');
        assert(false);
    }
    let x2 = a[2];
    let y2 = b[2];
    assert(t[2] == u[2]);
    assert(t[3] == u[3]);
    lemma_base64_char(((x1 % 16) * 4 + x2 / 64) as nat, ((y1 % 16) * 4 + y2 / 64) as nat);
    lemma_base64_char((x2 % 64) as nat, (y2 % 64) as nat);
    assert(x1 == y1);
    assert(x2 == y2);
    assert(t.subrange(4, t.len() as int) == u.subrange(4, u.len() as int));
    lemma_base64_injective(a.skip(3), b.skip(3));
    assert(a =~= seq![x0, x1, x2] + a.skip(3));
    assert(b =~= seq![y0, y1, y2] + b.skip(3));
}

/// Whether the `STANDARD` engine can size its output for `len` input bytes:
/// `encoded_len` in the `base64` crate fails (and `encode` panics) when the
/// padded length does not fit in a `usize`.
pub open spec fn base64_len_fits(len: nat) -> bool {
    if len % 3 == 0 {
        (len / 3) * 4 <= usize::MAX
    } else {
        (len / 3) * 4 + 4 <= usize::MAX
    }
}

/// Calls `base64::Engine::encode` on `base64::engine::general_purpose::STANDARD`.
/// Claimed: the text is the standard Base64 text of the bytes, with padding.
#[verifier::external_body]
pub(crate) fn base64_encode(data: &[u8]) -> (r: String)
    requires
        base64_len_fits(data@.len()),
    ensures
        r@ == base64_standard(data@),
{
    base64::engine::general_purpose::STANDARD.encode(data)
}

} // verus!
