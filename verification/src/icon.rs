//! The application icon: a palette with paint dots and a brush, drawn as
//! filled discs into a 32 by 32 RGBA image.

use vstd::prelude::*;

verus! {

/// Width and height of the icon in pixels.
pub const APP_ICON_SIZE: u32 = 32;

/// A filled ellipse, or a circle when `ellipse` is off (then `rx` is the
/// radius), in one RGBA color.
#[derive(Clone, Copy)]
pub struct Disc {
    pub cx: i32,
    pub cy: i32,
    pub rx: i32,
    pub ry: i32,
    pub ellipse: bool,
    pub color: (u8, u8, u8, u8),
}

/// Whether a disc paints pixel `(x, y)`.
pub open spec fn covers(d: Disc, x: int, y: int) -> bool {
    let dx = x - d.cx;
    let dy = y - d.cy;
    &&& d.cx - d.rx <= x <= d.cx + d.rx
    &&& d.cy - d.ry <= y <= d.cy + d.ry
    &&& if d.ellipse {
        dx * dx * (d.ry * d.ry) + dy * dy * (d.rx * d.rx) <= (d.rx * d.rx) * (d.ry * d.ry)
    } else {
        dx * dx + dy * dy <= d.rx * d.rx
    }
}

/// The color the last disc over `(x, y)` paints there, if any.
pub open spec fn pixel_color(discs: Seq<Disc>, x: int, y: int) -> Option<(u8, u8, u8, u8)>
    decreases discs.len(),
{
    if discs.len() == 0 {
        None
    } else if covers(discs.last(), x, y) {
        Some(discs.last().color)
    } else {
        pixel_color(discs.drop_last(), x, y)
    }
}

pub open spec fn channel(c: (u8, u8, u8, u8), k: int) -> u8 {
    if k == 0 { c.0 } else if k == 1 { c.1 } else if k == 2 { c.2 } else { c.3 }
}

/// The byte of channel `k` of pixel `(x, y)` in a row-major RGBA image.
pub open spec fn byte_index(x: int, y: int, k: int) -> int {
    (y * 32 + x) * 4 + k
}

pub open spec fn in_icon(x: int, y: int) -> bool {
    0 <= x < 32 && 0 <= y < 32
}

/// Every byte of the image is what the discs paint, transparent black where
/// none does.
pub open spec fn painted(pixels: Seq<u8>, discs: Seq<Disc>) -> bool {
    &&& pixels.len() == 4096
    &&& forall|x: int, y: int, k: int| in_icon(x, y) && 0 <= k < 4 ==> #[trigger] pixels[byte_index(x, y, k)] == match pixel_color(discs, x, y) {
        Some(c) => channel(c, k),
        None => 0u8,
    }
}

pub open spec fn circle(cx: i32, cy: i32, r: i32, color: (u8, u8, u8, u8)) -> Disc {
    Disc { cx, cy, rx: r, ry: r, ellipse: false, color }
}

pub open spec fn brush_brown() -> (u8, u8, u8, u8) {
    (112, 72, 42, 255)
}

/// The brush handle: for each step two small brown dots going down and
/// right.
pub open spec fn brush_disc(k: int) -> Disc {
    let step = k / 2;
    if k % 2 == 0 {
        circle((18 + step) as i32, (22 + step / 2) as i32, 1, brush_brown())
    } else {
        circle((19 + step) as i32, (23 + step / 2) as i32, 1, brush_brown())
    }
}

/// The discs of the icon, drawn in this order.
pub open spec fn icon_discs() -> Seq<Disc> {
    seq![
        Disc { cx: 14, cy: 16, rx: 12, ry: 10, ellipse: true, color: (78, 54, 38, 255) },
        Disc { cx: 14, cy: 16, rx: 10, ry: 8, ellipse: true, color: (224, 174, 96, 255) },
        circle(10, 13, 3, (245, 235, 211, 255)),
        circle(15, 10, 2, (210, 73, 65, 255)),
        circle(20, 13, 2, (61, 139, 91, 255)),
        circle(17, 20, 2, (57, 101, 188, 255)),
        circle(9, 19, 2, (236, 206, 82, 255)),
    ] + Seq::new(22, |k: int| brush_disc(k)) + seq![
        circle(18, 22, 2, (42, 45, 52, 255)),
        circle(17, 21, 1, (238, 238, 230, 255)),
    ]
}

/// The discs a program may draw: small, near the image.
pub open spec fn drawable(d: Disc) -> bool {
    &&& 0 <= d.rx <= 16
    &&& 0 <= d.ry <= 16
    &&& -64 <= d.cx <= 64
    &&& -64 <= d.cy <= 64
}

proof fn lemma_byte_index(x: int, y: int, k: int, x2: int, y2: int, k2: int)
    requires
        in_icon(x, y),
        in_icon(x2, y2),
        0 <= k < 4,
        0 <= k2 < 4,
    ensures
        0 <= byte_index(x, y, k) < 4096,
        byte_index(x, y, k) == byte_index(x2, y2, k2) ==> x == x2 && y == y2 && k == k2,
{
    assert(0 <= byte_index(x, y, k) < 4096) by (nonlinear_arith)
        requires
            0 <= x < 32,
            0 <= y < 32,
            0 <= k < 4,
    ;
    assert(byte_index(x, y, k) == byte_index(x2, y2, k2) ==> x == x2 && y == y2 && k == k2) by (nonlinear_arith)
        requires
            0 <= x < 32,
            0 <= y < 32,
            0 <= k < 4,
            0 <= x2 < 32,
            0 <= y2 < 32,
            0 <= k2 < 4,
    ;
}

fn set_pixel(pixels: &mut Vec<u8>, x: i32, y: i32, color: (u8, u8, u8, u8))
    requires
        old(pixels)@.len() == 4096,
    ensures
        final(pixels)@.len() == 4096,
        forall|px: int, py: int, k: int| in_icon(px, py) && 0 <= k < 4 ==> #[trigger] final(pixels)@[byte_index(px, py, k)] == if px == x && py == y {
            channel(color, k)
        } else {
            old(pixels)@[byte_index(px, py, k)]
        },
{
    if x < 0 || y < 0 || x >= 32 || y >= 32 {
        return;
    }
    let ghost before = pixels@;
    let offset = ((y as usize) * 32 + (x as usize)) * 4;
    proof {
        lemma_byte_index(x as int, y as int, 0, x as int, y as int, 0);
        lemma_byte_index(x as int, y as int, 3, x as int, y as int, 3);
        assert(offset == byte_index(x as int, y as int, 0));
    }
    pixels.set(offset, color.0);
    pixels.set(offset + 1, color.1);
    pixels.set(offset + 2, color.2);
    pixels.set(offset + 3, color.3);
    proof {
        assert forall|px: int, py: int, k: int| in_icon(px, py) && 0 <= k < 4 implies #[trigger] pixels@[byte_index(px, py, k)] == if px == x && py == y {
            channel(color, k)
        } else {
            before[byte_index(px, py, k)]
        } by {
            lemma_byte_index(px, py, k, x as int, y as int, 0);
            lemma_byte_index(px, py, k, x as int, y as int, 1);
            lemma_byte_index(px, py, k, x as int, y as int, 2);
            lemma_byte_index(px, py, k, x as int, y as int, 3);
        }
    }
}

fn disc_covers(d: Disc, x: i32, y: i32) -> (b: bool)
    requires
        drawable(d),
        d.cx - d.rx <= x <= d.cx + d.rx,
        d.cy - d.ry <= y <= d.cy + d.ry,
    ensures
        b == covers(d, x as int, y as int),
{
    let dx = x - d.cx;
    let dy = y - d.cy;
    proof {
        assert(dx * dx <= 256 && dy * dy <= 256) by (nonlinear_arith)
            requires
                -16 <= dx <= 16,
                -16 <= dy <= 16,
        ;
        assert(0 <= dx * dx && 0 <= dy * dy) by (nonlinear_arith);
        assert(d.rx * d.rx <= 256 && d.ry * d.ry <= 256 && 0 <= d.rx * d.rx && 0 <= d.ry * d.ry) by (nonlinear_arith)
            requires
                0 <= d.rx <= 16,
                0 <= d.ry <= 16,
        ;
    }
    if d.ellipse {
        let rx_sq = d.rx * d.rx;
        let ry_sq = d.ry * d.ry;
        proof {
            assert(dx * dx * ry_sq <= 65536 && dy * dy * rx_sq <= 65536 && rx_sq * ry_sq <= 65536
                && 0 <= dx * dx * ry_sq && 0 <= dy * dy * rx_sq) by (nonlinear_arith)
                requires
                    0 <= dx * dx <= 256,
                    0 <= dy * dy <= 256,
                    0 <= rx_sq <= 256,
                    0 <= ry_sq <= 256,
            ;
        }
        dx * dx * ry_sq + dy * dy * rx_sq <= rx_sq * ry_sq
    } else {
        dx * dx + dy * dy <= d.rx * d.rx
    }
}

/// Draw one disc over the image.
fn draw_disc(pixels: &mut Vec<u8>, d: Disc)
    requires
        old(pixels)@.len() == 4096,
        drawable(d),
    ensures
        final(pixels)@.len() == 4096,
        forall|px: int, py: int, k: int| in_icon(px, py) && 0 <= k < 4 ==> #[trigger] final(pixels)@[byte_index(px, py, k)] == if covers(d, px, py) {
            channel(d.color, k)
        } else {
            old(pixels)@[byte_index(px, py, k)]
        },
{
    let ghost before = pixels@;
    let mut y = d.cy - d.ry;
    while y <= d.cy + d.ry
        invariant
            drawable(d),
            d.cy - d.ry <= y <= d.cy + d.ry + 1,
            pixels@.len() == 4096,
            forall|px: int, py: int, k: int| in_icon(px, py) && 0 <= k < 4 ==> #[trigger] pixels@[byte_index(px, py, k)] == if covers(d, px, py) && py < y {
                channel(d.color, k)
            } else {
                before[byte_index(px, py, k)]
            },
        decreases d.cy + d.ry + 1 - y,
    {
        let mut x = d.cx - d.rx;
        while x <= d.cx + d.rx
            invariant
                drawable(d),
                d.cy - d.ry <= y <= d.cy + d.ry,
                d.cx - d.rx <= x <= d.cx + d.rx + 1,
                pixels@.len() == 4096,
                forall|px: int, py: int, k: int| in_icon(px, py) && 0 <= k < 4 ==> #[trigger] pixels@[byte_index(px, py, k)] == if covers(d, px, py) && (py < y || (py == y && px < x)) {
                    channel(d.color, k)
                } else {
                    before[byte_index(px, py, k)]
                },
            decreases d.cx + d.rx + 1 - x,
        {
            if disc_covers(d, x, y) {
                set_pixel(pixels, x, y, d.color);
            }
            x = x + 1;
        }
        y = y + 1;
    }
}

fn circle_exec(cx: i32, cy: i32, r: i32, color: (u8, u8, u8, u8)) -> (d: Disc)
    ensures
        d == circle(cx, cy, r, color),
{
    Disc { cx, cy, rx: r, ry: r, ellipse: false, color }
}

fn icon_discs_exec() -> (r: Vec<Disc>)
    ensures
        r@ == icon_discs(),
{
    let mut r: Vec<Disc> = Vec::new();
    r.push(Disc { cx: 14, cy: 16, rx: 12, ry: 10, ellipse: true, color: (78, 54, 38, 255) });
    r.push(Disc { cx: 14, cy: 16, rx: 10, ry: 8, ellipse: true, color: (224, 174, 96, 255) });
    r.push(circle_exec(10, 13, 3, (245, 235, 211, 255)));
    r.push(circle_exec(15, 10, 2, (210, 73, 65, 255)));
    r.push(circle_exec(20, 13, 2, (61, 139, 91, 255)));
    r.push(circle_exec(17, 20, 2, (57, 101, 188, 255)));
    r.push(circle_exec(9, 19, 2, (236, 206, 82, 255)));
    let ghost head = r@;
    let ghost brush = Seq::new(22, |k: int| brush_disc(k));
    let mut step: i32 = 0;
    while step < 11
        invariant
            0 <= step <= 11,
            head.len() == 7,
            brush == Seq::new(22, |k: int| brush_disc(k)),
            r@ == head + brush.take(2 * step as int),
        decreases 11 - step,
    {
        let x = 18 + step;
        let y = 22 + step / 2;
        r.push(circle_exec(x, y, 1, (112, 72, 42, 255)));
        r.push(circle_exec(x + 1, y + 1, 1, (112, 72, 42, 255)));
        proof {
            assert(brush[2 * step as int] == brush_disc(2 * step as int));
            assert(brush[2 * step + 1] == brush_disc(2 * step + 1));
            assert((2 * step) / 2 == step && (2 * step) % 2 == 0) by (nonlinear_arith)
                requires
                    0 <= step;
            assert((2 * step + 1) / 2 == step && (2 * step + 1) % 2 == 1) by (nonlinear_arith)
                requires
                    0 <= step;
            assert(r@ =~= head + brush.take(2 * step + 2));
        }
        step = step + 1;
    }
    r.push(circle_exec(18, 22, 2, (42, 45, 52, 255)));
    r.push(circle_exec(17, 21, 1, (238, 238, 230, 255)));
    proof {
        assert(brush.take(22) =~= brush);
        assert(r@ =~= icon_discs());
    }
    r
}

proof fn lemma_icon_discs_drawable()
    ensures
        forall|i: int| 0 <= i < icon_discs().len() ==> drawable(#[trigger] icon_discs()[i]),
        icon_discs().len() == 31,
{
    let brush = Seq::new(22, |k: int| brush_disc(k));
    assert forall|k: int| 0 <= k < 22 implies drawable(#[trigger] brush[k]) by {
        assert(0 <= k / 2 <= 10) by (nonlinear_arith)
            requires
                0 <= k < 22;
        assert(0 <= (k / 2) / 2 <= 5) by (nonlinear_arith)
            requires
                0 <= k / 2 <= 10;
    }
    assert forall|i: int| 0 <= i < icon_discs().len() implies drawable(#[trigger] icon_discs()[i]) by {
        if 7 <= i < 29 {
            assert(icon_discs()[i] == brush[i - 7]);
        }
    }
}

/// The RGBA bytes of the application icon, row by row.
pub fn app_icon_rgba() -> (pixels: Vec<u8>)
    ensures
        painted(pixels@, icon_discs()),
{
    let mut pixels: Vec<u8> = vec![0u8; 4096];
    let discs = icon_discs_exec();
    proof {
        lemma_icon_discs_drawable();
        assert(discs@.take(0) =~= Seq::<Disc>::empty());
        assert forall|x: int, y: int, k: int| in_icon(x, y) && 0 <= k < 4 implies #[trigger] pixels@[byte_index(x, y, k)] == match pixel_color(discs@.take(0), x, y) {
            Some(c) => channel(c, k),
            None => 0u8,
        } by {
            lemma_byte_index(x, y, k, x, y, k);
        }
    }
    let mut i: usize = 0;
    while i < discs.len()
        invariant
            i <= discs@.len(),
            discs@ == icon_discs(),
            forall|j: int| 0 <= j < discs@.len() ==> drawable(#[trigger] discs@[j]),
            painted(pixels@, discs@.take(i as int)),
        decreases discs@.len() - i,
    {
        let ghost before = pixels@;
        draw_disc(&mut pixels, discs[i]);
        proof {
            assert(discs@.take(i + 1).drop_last() =~= discs@.take(i as int));
            assert(discs@.take(i + 1).last() == discs@[i as int]);
        }
        i += 1;
    }
    proof {
        assert(discs@.take(discs@.len() as int) =~= discs@);
    }
    pixels
}

} // verus!
