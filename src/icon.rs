use vstd::prelude::*;

verus! {

/// Width and height of the tray icon, in pixels.
pub const TRAY_ICON_SIZE: u32 = 32;

/// An image as rows of straight (not premultiplied) RGBA pixels.
#[derive(Clone, Debug)]
pub struct IconRgba {
    pub rgba: Vec<u8>,
    pub width: u32,
    pub height: u32,
}

/// Byte `i` of a premultiplied RGBA buffer once the colour is divided by
/// its pixel's alpha (rounded down, at most 255); alpha bytes, fully
/// transparent pixels and a trailing partial pixel stay as they are.
pub open spec fn straight_byte(px: Seq<u8>, i: int) -> u8 {
    let base = i - i % 4;
    if i % 4 == 3 || base + 3 >= px.len() || px[base + 3] == 0 {
        px[i]
    } else {
        vstd::math::min(px[i] * 255 / px[base + 3] as int, 255) as u8
    }
}

pub open spec fn spec_straight_alpha(px: Seq<u8>) -> Seq<u8> {
    Seq::new(px.len(), |i: int| straight_byte(px, i))
}

/// Converts premultiplied RGBA (as a renderer produces it) to straight RGBA.
pub fn straight_alpha(premultiplied: &Vec<u8>) -> (r: Vec<u8>)
    ensures
        r@ == spec_straight_alpha(premultiplied@),
{
    let px = premultiplied;
    let n = px.len();
    let mut out: Vec<u8> = Vec::new();
    let mut i: usize = 0;
    while i < n
        invariant
            i <= n,
            n == px@.len(),
            out@.len() == i,
            forall|k: int| 0 <= k < i ==> #[trigger] out@[k] == straight_byte(px@, k),
        decreases n - i,
    {
        let base = i - i % 4;
        let b = if i % 4 == 3 || base + 3 >= n || px[base + 3] == 0 {
            px[i]
        } else {
            let a = px[base + 3] as u32;
            assert(px[i as int] as u32 * 255 <= 255 * 255) by (nonlinear_arith)
                requires
                    px[i as int] <= 255,
            ;
            let v = (px[i] as u32) * 255 / a;
            if v < 255 { v as u8 } else { 255u8 }
        };
        out.push(b);
        i += 1;
    }
    proof {
        assert(out@ =~= spec_straight_alpha(px@));
    }
    out
}

/// The tray icon from the icon artwork rendered premultiplied at
/// `TRAY_ICON_SIZE` by `TRAY_ICON_SIZE` pixels: its straight RGBA pixels.
/// `None` when the buffer does not hold exactly that many pixels.
pub fn tray_icon(premultiplied: &Vec<u8>) -> (r: Option<IconRgba>)
    ensures
        r is Some <==> premultiplied@.len() == TRAY_ICON_SIZE * TRAY_ICON_SIZE * 4,
        r is Some ==> ({
            let icon = r.unwrap();
            &&& icon.rgba@ == spec_straight_alpha(premultiplied@)
            &&& icon.width == TRAY_ICON_SIZE && icon.height == TRAY_ICON_SIZE
        }),
{
    let size = TRAY_ICON_SIZE as usize;
    if premultiplied.len() != size * size * 4 {
        return None;
    }
    Some(IconRgba { rgba: straight_alpha(premultiplied), width: TRAY_ICON_SIZE, height: TRAY_ICON_SIZE })
}

} // verus!
