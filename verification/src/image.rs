use vstd::prelude::*;

verus! {

/// One premultiplied color channel: the channel scaled by alpha with
/// 8-bit truncation, `floor(c * a / 255)`.
pub open spec fn premul_channel(c: u8, a: u8) -> int {
    (c * a) / 255
}

/// The whole texel buffer after premultiplication: RGBA texels are taken
/// four bytes at a time; in every complete texel the three color bytes are
/// scaled by that texel's alpha, the alpha byte and any trailing partial
/// texel stay as they are.
pub open spec fn premul_spec(s: Seq<u8>) -> Seq<u8> {
    Seq::new(
        s.len(),
        |i: int|
            if i % 4 != 3 && i + 4 - (i % 4) <= s.len() {
                premul_channel(s[i], s[i - (i % 4) + 3]) as u8
            } else {
                s[i]
            },
    )
}

fn scale_channel(c: u8, a: u8) -> (r: u8)
    ensures
        r as int == premul_channel(c, a),
{
    assert(c as int * a as int <= 255 * 255) by (nonlinear_arith)
        requires
            c <= 255,
            a <= 255,
    ;
    ((c as u32 * a as u32) / 255) as u8
}

/// Premultiplies an RGBA texel buffer in place: every color channel becomes
/// `floor(c * a / 255)` for its texel's alpha `a`.
pub fn premul(texels: &mut Vec<u8>)
    ensures
        final(texels)@ == premul_spec(old(texels)@),
{
    let len = texels.len();
    let mut i: usize = 0;
    while i < len && len - i >= 4
        invariant
            len == texels@.len(),
            texels@.len() == old(texels)@.len(),
            i % 4 == 0,
            i <= len,
            forall|j: int| 0 <= j < i ==> texels@[j] == premul_spec(old(texels)@)[j],
            forall|j: int| i <= j < len ==> texels@[j] == old(texels)@[j],
        decreases len - i,
    {
        let a = texels[i + 3];
        let c0 = texels[i];
        let c1 = texels[i + 1];
        let c2 = texels[i + 2];
        texels.set(i, scale_channel(c0, a));
        texels.set(i + 1, scale_channel(c1, a));
        texels.set(i + 2, scale_channel(c2, a));
        i = i + 4;
    }
    assert(texels@ =~= premul_spec(old(texels)@));
}

} // verus!
