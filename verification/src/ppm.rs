use vstd::prelude::*;

verus! {

/// ASCII decimal digits of `n`, most significant first, without leading
/// zeros.
pub open spec fn decimal(n: nat) -> Seq<u8>
    decreases n,
{
    if n < 10 {
        seq![(48 + n) as u8]
    } else {
        decimal(n / 10).push((48 + n % 10) as u8)
    }
}

/// Value of a string of ASCII decimal digits.
pub open spec fn decimal_value(s: Seq<u8>) -> nat
    decreases s.len(),
{
    if s.len() == 0 {
        0
    } else {
        decimal_value(s.drop_last()) * 10 + (s.last() - 48) as nat
    }
}

pub open spec fn is_digit(b: u8) -> bool {
    48 <= b <= 57
}

/// The header of a binary (P6) PPM image of `width` × `height` pixels with
/// 8-bit channels: `P6\n{width} {height}\n255\n`.
pub open spec fn ppm_header(width: nat, height: nat) -> Seq<u8> {
    seq![80u8, 54u8, 10u8] + decimal(width) + seq![32u8] + decimal(height) + seq![
        10u8,
        50u8,
        53u8,
        53u8,
        10u8,
    ]
}

/// Byte `j` of the RGB body made from 4-byte pixels `data`: channel `j % 3`
/// of pixel `j / 3`, read as RGBA, or as BGRA when `bgra` holds (then the
/// first and third channels trade places).
pub open spec fn ppm_body_byte(data: Seq<u8>, bgra: bool, j: int) -> u8 {
    let k = j / 3;
    let ch = j % 3;
    if bgra {
        data[4 * k + 2 - ch]
    } else {
        data[4 * k + ch]
    }
}

/// The RGB body made from the whole 4-byte pixels of `data`, dropping the
/// fourth channel; a trailing partial pixel is ignored.
pub open spec fn ppm_body(data: Seq<u8>, bgra: bool) -> Seq<u8> {
    Seq::new(3 * (data.len() / 4), |j: int| ppm_body_byte(data, bgra, j))
}

/// Appends the ASCII decimal digits of `n`.
pub fn push_decimal(out: &mut Vec<u8>, n: u32)
    ensures
        final(out)@ == old(out)@ + decimal(n as nat),
    decreases n,
{
    if n >= 10 {
        push_decimal(out, n / 10);
    }
    let digit: u8 = (n % 10) as u8;
    out.push(48 + digit);
    proof {
        if n >= 10 {
            assert(decimal(n as nat) == decimal((n / 10) as nat).push((48 + n % 10) as u8));
        }
        assert(final(out)@ =~= old(out)@ + decimal(n as nat));
    }
}

/// The PPM header for an image of `width` × `height` pixels.
pub fn encode_ppm_header(width: u32, height: u32) -> (r: Vec<u8>)
    ensures
        r@ == ppm_header(width as nat, height as nat),
{
    let mut out: Vec<u8> = Vec::new();
    out.push(80);
    out.push(54);
    out.push(10);
    push_decimal(&mut out, width);
    out.push(32);
    push_decimal(&mut out, height);
    out.push(10);
    out.push(50);
    out.push(53);
    out.push(53);
    out.push(10);
    assert(out@ =~= ppm_header(width as nat, height as nat));
    out
}

proof fn lemma_body_step(data: Seq<u8>, bgra: bool, k: int)
    requires
        0 <= k,
        4 * k + 4 <= data.len(),
    ensures
        Seq::new((3 * k + 3) as nat, |j: int| ppm_body_byte(data, bgra, j)) =~= Seq::new(
            (3 * k) as nat,
            |j: int| ppm_body_byte(data, bgra, j),
        ) + if bgra {
            seq![data[4 * k + 2], data[4 * k + 1], data[4 * k]]
        } else {
            seq![data[4 * k], data[4 * k + 1], data[4 * k + 2]]
        },
{
    assert((3 * k) / 3 == k && (3 * k) % 3 == 0) by (nonlinear_arith)
        requires
            k >= 0,
    ;
    assert((3 * k + 1) / 3 == k && (3 * k + 1) % 3 == 1) by (nonlinear_arith)
        requires
            k >= 0,
    ;
    assert((3 * k + 2) / 3 == k && (3 * k + 2) % 3 == 2) by (nonlinear_arith)
        requires
            k >= 0,
    ;
}

/// A binary PPM image of `width` × `height` pixels whose body is made from
/// the 4-byte pixels of `data`, read as BGRA when `bgra` holds and as RGBA
/// otherwise; the fourth channel is dropped.
pub fn encode_ppm(width: u32, height: u32, data: &[u8], bgra: bool) -> (r: Vec<u8>)
    ensures
        r@ == ppm_header(width as nat, height as nat) + ppm_body(data@, bgra),
{
    let mut out = encode_ppm_header(width, height);
    let ghost header = out@;
    let len = data.len();
    let pixels = len / 4;
    let mut k: usize = 0;
    while k < pixels
        invariant
            len == data@.len(),
            pixels == len / 4,
            k <= pixels,
            out@ == header + Seq::new((3 * k) as nat, |j: int| ppm_body_byte(data@, bgra, j)),
        decreases pixels - k,
    {
        assert(4 * k + 4 <= len) by (nonlinear_arith)
            requires
                k < pixels,
                pixels == len / 4,
        ;
        let base = 4 * k;
        if bgra {
            out.push(data[base + 2]);
            out.push(data[base + 1]);
            out.push(data[base]);
        } else {
            out.push(data[base]);
            out.push(data[base + 1]);
            out.push(data[base + 2]);
        }
        proof {
            lemma_body_step(data@, bgra, k as int);
        }
        assert(out@ =~= header + Seq::new((3 * (k + 1)) as nat, |j: int| ppm_body_byte(data@, bgra, j)));
        k = k + 1;
    }
    assert(out@ =~= ppm_header(width as nat, height as nat) + ppm_body(data@, bgra));
    out
}

/// The digits that `push_decimal` writes read back as the number: every
/// byte is an ASCII digit, there is at least one, no leading zero unless the
/// number is zero, and their decimal value is the number.
pub proof fn lemma_decimal_roundtrip(n: nat)
    ensures
        decimal(n).len() >= 1,
        forall|i: int| 0 <= i < decimal(n).len() ==> is_digit(#[trigger] decimal(n)[i]),
        n > 0 ==> decimal(n)[0] != 48u8,
        decimal_value(decimal(n)) == n,
    decreases n,
{
    if n < 10 {
        assert(decimal(n).drop_last() =~= Seq::<u8>::empty());
        assert(decimal_value(Seq::<u8>::empty()) == 0);
        assert(decimal(n).last() == (48 + n) as u8);
    } else {
        let q = n / 10;
        lemma_decimal_roundtrip(q);
        let d = decimal(n);
        assert(d.drop_last() =~= decimal(q));
        assert(d[0] == decimal(q)[0]);
        assert(d.last() == (48 + n % 10) as u8);
        assert(decimal_value(d) == decimal_value(decimal(q)) * 10 + (d.last() - 48) as nat);
        assert(q * 10 + n % 10 == n);
    }
}

/// For a complete image of `width` × `height` 4-byte pixels, the body holds
/// exactly three bytes per pixel.
pub proof fn lemma_body_len(data: Seq<u8>, bgra: bool, width: nat, height: nat)
    requires
        data.len() == 4 * width * height,
    ensures
        ppm_body(data, bgra).len() == 3 * width * height,
{
    assert(data.len() / 4 == width * height) by (nonlinear_arith)
        requires
            data.len() == 4 * width * height,
    ;
    assert(3 * (width * height) == 3 * width * height) by (nonlinear_arith);
}

/// The header reads back as its parts: the magic `P6` and a newline, the
/// width in decimal digits, a space, the height in decimal digits, and the
/// maximum channel value 255 between newlines.
pub proof fn lemma_header_parses(width: nat, height: nat)
    ensures
        ({
            let h = ppm_header(width, height);
            let dw = decimal(width).len() as int;
            let dh = decimal(height).len() as int;
            &&& h.len() == 3 + dw + 1 + dh + 5
            &&& h.subrange(0, 3) == seq![80u8, 54u8, 10u8]
            &&& forall|i: int| 3 <= i < 3 + dw ==> is_digit(#[trigger] h[i])
            &&& decimal_value(h.subrange(3, 3 + dw)) == width
            &&& h[3 + dw] == 32u8
            &&& forall|i: int| 4 + dw <= i < 4 + dw + dh ==> is_digit(#[trigger] h[i])
            &&& decimal_value(h.subrange(4 + dw, 4 + dw + dh)) == height
            &&& h.subrange(4 + dw + dh, h.len() as int) == seq![10u8, 50u8, 53u8, 53u8, 10u8]
        }),
{
    let h = ppm_header(width, height);
    let dw = decimal(width).len() as int;
    let dh = decimal(height).len() as int;
    lemma_decimal_roundtrip(width);
    lemma_decimal_roundtrip(height);
    assert(h.subrange(0, 3) =~= seq![80u8, 54u8, 10u8]);
    assert(h.subrange(3, 3 + dw) =~= decimal(width));
    assert(h.subrange(4 + dw, 4 + dw + dh) =~= decimal(height));
    assert(h.subrange(4 + dw + dh, h.len() as int) =~= seq![10u8, 50u8, 53u8, 53u8, 10u8]);
    assert forall|i: int| 3 <= i < 3 + dw implies is_digit(#[trigger] h[i]) by {
        assert(h[i] == decimal(width)[i - 3]);
    }
    assert forall|i: int| 4 + dw <= i < 4 + dw + dh implies is_digit(#[trigger] h[i]) by {
        assert(h[i] == decimal(height)[i - 4 - dw]);
    }
}

/// Pixel `k` of the body holds channels 0, 1, 2 of the `k`-th 4-byte pixel
/// of the data when read as RGBA, and channels 2, 1, 0 when read as BGRA.
pub proof fn lemma_body_pixels(data: Seq<u8>)
    ensures
        ppm_body(data, false).len() == ppm_body(data, true).len(),
        forall|k: int, c: int|
            0 <= k < data.len() / 4 && 0 <= c < 3 ==> #[trigger] ppm_body(data, false)[3 * k + c]
                == data[4 * k + c],
        forall|k: int, c: int|
            0 <= k < data.len() / 4 && 0 <= c < 3 ==> #[trigger] ppm_body(data, true)[3 * k + c]
                == data[4 * k + 2 - c],
{
    assert forall|k: int, c: int| 0 <= k < data.len() / 4 && 0 <= c < 3 implies #[trigger] ppm_body(
        data,
        false,
    )[3 * k + c] == data[4 * k + c] && ppm_body(data, true)[3 * k + c] == data[4 * k + 2 - c] by {
        assert((3 * k + c) / 3 == k && (3 * k + c) % 3 == c) by (nonlinear_arith)
            requires
                0 <= k,
                0 <= c < 3,
        ;
        assert(3 * k + c < 3 * (data.len() / 4)) by (nonlinear_arith)
            requires
                0 <= k < data.len() / 4,
                0 <= c < 3,
        ;
    }
}

} // verus!
