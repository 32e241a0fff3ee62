//! The plain-text pixmap format ("P3"): a header with the image's size and
//! the maximal channel value, then one line of three decimal channel values
//! per pixel, in row-major order.
use vstd::prelude::*;

verus! {

/// The ASCII digits of `n` in base ten, without leading zeros.
pub open spec fn decimal(n: nat) -> Seq<u8>
    decreases n,
{
    if n < 10 {
        seq![(48 + n) as u8]
    } else {
        decimal(n / 10).push((48 + n % 10) as u8)
    }
}

/// `P3`, the width and height separated by a space, and `255`, each on a line.
pub open spec fn header_bytes(width: nat, height: nat) -> Seq<u8> {
    seq![80u8, 51u8, 10u8] + decimal(width) + seq![32u8] + decimal(height) + seq![
        10u8,
        50u8,
        53u8,
        53u8,
        10u8,
    ]
}

/// The three channel values of one pixel, separated by spaces, on a line.
pub open spec fn pixel_bytes(rgb: [u8; 3]) -> Seq<u8> {
    decimal(rgb[0] as nat) + seq![32u8] + decimal(rgb[1] as nat) + seq![32u8] + decimal(
        rgb[2] as nat,
    ) + seq![10u8]
}

/// The lines of `pixels`, one after another.
pub open spec fn pixels_bytes(pixels: Seq<[u8; 3]>) -> Seq<u8>
    decreases pixels.len(),
{
    if pixels.len() == 0 {
        Seq::empty()
    } else {
        pixels_bytes(pixels.drop_last()) + pixel_bytes(pixels.last())
    }
}

/// Appends the decimal digits of `n`.
pub fn push_decimal(out: &mut Vec<u8>, n: u32)
    ensures
        final(out)@ == old(out)@ + decimal(n as nat),
    decreases n,
{
    if n >= 10 {
        push_decimal(out, n / 10);
    }
    out.push((48 + n % 10) as u8);
    assert(final(out)@ =~= old(out)@ + decimal(n as nat));
}

/// Appends one byte, proved equal to a one-byte sequence.
fn push_byte(out: &mut Vec<u8>, b: u8)
    ensures
        final(out)@ == old(out)@ + seq![b],
{
    out.push(b);
    assert(final(out)@ =~= old(out)@ + seq![b]);
}

/// Appends the header of a `width` by `height` image.
pub fn push_header(out: &mut Vec<u8>, width: u32, height: u32)
    ensures
        final(out)@ == old(out)@ + header_bytes(width as nat, height as nat),
{
    let ghost start = out@;
    push_byte(out, 80);
    push_byte(out, 51);
    push_byte(out, 10);
    push_decimal(out, width);
    push_byte(out, 32);
    push_decimal(out, height);
    push_byte(out, 10);
    push_byte(out, 50);
    push_byte(out, 53);
    push_byte(out, 53);
    push_byte(out, 10);
    assert(out@ =~= start + header_bytes(width as nat, height as nat));
}

/// Appends the line of one pixel.
pub fn push_pixel(out: &mut Vec<u8>, rgb: [u8; 3])
    ensures
        final(out)@ == old(out)@ + pixel_bytes(rgb),
{
    let ghost start = out@;
    push_decimal(out, rgb[0] as u32);
    push_byte(out, 32);
    push_decimal(out, rgb[1] as u32);
    push_byte(out, 32);
    push_decimal(out, rgb[2] as u32);
    push_byte(out, 10);
    assert(out@ =~= start + pixel_bytes(rgb));
}

/// The whole file of a `width` by `height` image whose pixels, in row-major
/// order, are `pixels`.
pub fn encode(width: u32, height: u32, pixels: &Vec<[u8; 3]>) -> (r: Vec<u8>)
    requires
        pixels@.len() == width as int * height as int,
    ensures
        r@ == header_bytes(width as nat, height as nat) + pixels_bytes(pixels@),
{
    let mut out: Vec<u8> = Vec::new();
    push_header(&mut out, width, height);
    let ghost head = out@;
    assert(head =~= Seq::<u8>::empty() + header_bytes(width as nat, height as nat));
    let mut k: usize = 0;
    assert(pixels@.subrange(0, 0) =~= Seq::<[u8; 3]>::empty());
    while k < pixels.len()
        invariant
            k <= pixels@.len(),
            out@ == head + pixels_bytes(pixels@.subrange(0, k as int)),
        decreases pixels@.len() - k,
    {
        let ghost before = out@;
        push_pixel(&mut out, pixels[k]);
        let ghost next = pixels@.subrange(0, k + 1);
        assert(next.drop_last() =~= pixels@.subrange(0, k as int));
        assert(next.last() == pixels@[k as int]);
        assert(out@ =~= head + pixels_bytes(next));
        k = k + 1;
    }
    assert(pixels@.subrange(0, k as int) =~= pixels@);
    out
}

} // verus!
