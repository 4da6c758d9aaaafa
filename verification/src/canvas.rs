//! The output grid of colors, with its encoding to the plain-text pixmap
//! format.
use crate::color::Color;
use crate::fx::{fx_round, fx_round_s, int_mul, int_mul_s};
use vstd::prelude::*;

verus! {

/// A grid of colors addressed by `(x, y)` with the origin in the top-left
/// corner, stored row-major.
#[derive(Debug)]
pub struct Canvas {
    width: usize,
    height: usize,
    pixels: Vec<Color>,
}

proof fn lemma_grid_index(w: int, h: int, x: int, y: int)
    by (nonlinear_arith)
    requires
        0 <= x < w,
        0 <= y < h,
    ensures
        0 <= y * w + x < w * h,
{
}

proof fn lemma_grid_index_distinct(w: int, x1: int, y1: int, x2: int, y2: int)
    by (nonlinear_arith)
    requires
        0 <= x1 < w,
        0 <= x2 < w,
        x1 != x2 || y1 != y2,
        0 <= y1,
        0 <= y2,
    ensures
        y1 * w + x1 != y2 * w + x2,
{
}

impl Canvas {
    /// The width, as the spec sees it.
    pub closed spec fn width_s(&self) -> usize {
        self.width
    }

    /// The height, as the spec sees it.
    pub closed spec fn height_s(&self) -> usize {
        self.height
    }

    /// The width in pixels.
    pub fn width(&self) -> (r: usize)
        ensures
            r == self.width_s(),
    {
        self.width
    }

    /// The height in pixels.
    pub fn height(&self) -> (r: usize)
        ensures
            r == self.height_s(),
    {
        self.height
    }

    /// The color of the pixel at `(x, y)`.
    pub closed spec fn pixel_s(&self, x: int, y: int) -> Color {
        self.pixels@[y * self.width + x]
    }

    /// Well-formed: the pixel store covers exactly the grid.
    pub closed spec fn wf(&self) -> bool {
        self.pixels@.len() == self.width * self.height
    }

    /// A canvas of the given size with every pixel black.  The pixel count
    /// must fit the address space.
    pub fn new(width: usize, height: usize) -> (r: Canvas)
        requires
            width * height <= usize::MAX,
        ensures
            r.wf(),
            r.width_s() == width,
            r.height_s() == height,
            forall|x: int, y: int|
                0 <= x < width && 0 <= y < height ==> r.pixel_s(x, y) == (Color {
                    red: 0,
                    green: 0,
                    blue: 0,
                }),
    {
        let n = width * height;
        let mut pixels: Vec<Color> = Vec::new();
        let mut i: usize = 0;
        while i < n
            invariant
                i <= n,
                pixels@.len() == i,
                forall|k: int| 0 <= k < i ==> pixels@[k] == (Color { red: 0, green: 0, blue: 0 }),
            decreases n - i,
        {
            pixels.push(Color::new(0, 0, 0));
            i = i + 1;
        }
        let r = Canvas { width, height, pixels };
        proof {
            assert forall|x: int, y: int|
                0 <= x < width && 0 <= y < height implies r.pixel_s(x, y) == (Color {
                red: 0,
                green: 0,
                blue: 0,
            }) by {
                lemma_grid_index(width as int, height as int, x, y);
            }
        }
        r
    }

    /// Set the pixel at `(x, y)`; every other pixel keeps its color.
    pub fn write_pixel(&mut self, x: usize, y: usize, color: Color)
        requires
            old(self).wf(),
            x < old(self).width_s(),
            y < old(self).height_s(),
        ensures
            final(self).wf(),
            final(self).width_s() == old(self).width_s(),
            final(self).height_s() == old(self).height_s(),
            final(self).pixel_s(x as int, y as int) == color,
            forall|i: int, j: int|
                0 <= i < old(self).width_s() && 0 <= j < old(self).height_s() && (i != x || j
                    != y) ==> final(self).pixel_s(i, j) == old(self).pixel_s(i, j),
    {
        let _n = self.pixels.len();
        proof {
            lemma_grid_index(self.width as int, self.height as int, x as int, y as int);
        }
        let index = y * self.width + x;
        self.pixels.set(index, color);
        proof {
            assert forall|i: int, j: int|
                0 <= i < self.width && 0 <= j < self.height && (i != x || j != y) implies self
                .pixel_s(i, j) == old(self).pixel_s(i, j) by {
                lemma_grid_index(self.width as int, self.height as int, i, j);
                lemma_grid_index_distinct(self.width as int, i, j, x as int, y as int);
            }
        }
    }

    /// The color of the pixel at `(x, y)`.
    pub fn pixel_at(&self, x: usize, y: usize) -> (r: Color)
        requires
            self.wf(),
            x < self.width_s(),
            y < self.height_s(),
        ensures
            r == self.pixel_s(x as int, y as int),
    {
        let _n = self.pixels.len();
        proof {
            lemma_grid_index(self.width as int, self.height as int, x as int, y as int);
        }
        self.pixels[y * self.width + x]
    }
}

/// A color channel scaled to a display byte: times 255, clamped to the
/// displayable range, rounded to the nearest integer.
pub open spec fn scale_component_s(c: i64) -> u8 {
    let t = int_mul_s(255, c);
    let u = if t < 0 {
        0i64
    } else if t > 1095216660480i64 {
        1095216660480i64
    } else {
        t
    };
    fx_round_s(u) as u8
}

/// The decimal digits of a display byte, in ASCII, without leading zeros.
pub open spec fn dec_u8_s(n: u8) -> Seq<u8> {
    if n < 10 {
        seq![(48 + n) as u8]
    } else if n < 100 {
        seq![(48 + n / 10) as u8, (48 + n % 10) as u8]
    } else {
        seq![(48 + n / 100) as u8, (48 + (n / 10) % 10) as u8, (48 + n % 10) as u8]
    }
}

/// The decimal digits of a size, in ASCII, without leading zeros.
pub open spec fn dec_nat_s(n: nat) -> Seq<u8>
    decreases n,
{
    if n < 10 {
        seq![(48 + n) as u8]
    } else {
        dec_nat_s(n / 10).push((48 + n % 10) as u8)
    }
}

/// One component written into a line under the 70-column limit: the line is
/// flushed first when the component and a separating space would not fit,
/// and a space separates components within a line.
pub open spec fn wrap_step_s(line: Seq<u8>, out: Seq<u8>, comp: Seq<u8>) -> (Seq<u8>, Seq<u8>) {
    let flushed = line.len() + comp.len() + 1 > 70;
    let line1 = if flushed {
        Seq::<u8>::empty()
    } else {
        line
    };
    let out1 = if flushed {
        out + line + seq![10u8]
    } else {
        out
    };
    if line1.len() > 0 {
        (line1 + seq![32u8] + comp, out1)
    } else {
        (comp, out1)
    }
}

/// A sequence of components written in order, carrying the line state.
pub open spec fn wrap_all_s(comps: Seq<Seq<u8>>, line: Seq<u8>, out: Seq<u8>) -> (Seq<u8>, Seq<
    u8,
>)
    decreases comps.len(),
{
    if comps.len() == 0 {
        (line, out)
    } else {
        let stepped = wrap_step_s(line, out, comps[0]);
        wrap_all_s(comps.drop_first(), stepped.0, stepped.1)
    }
}

proof fn lemma_wrap_all_push(comps: Seq<Seq<u8>>, line: Seq<u8>, out: Seq<u8>, comp: Seq<u8>)
    ensures
        wrap_all_s(comps.push(comp), line, out) == wrap_step_s(
            wrap_all_s(comps, line, out).0,
            wrap_all_s(comps, line, out).1,
            comp,
        ),
    decreases comps.len(),
{
    if comps.len() == 0 {
        let stepped = wrap_step_s(line, out, comp);
        assert(comps.push(comp)[0] == comp);
        assert(comps.push(comp).drop_first() =~= Seq::<Seq<u8>>::empty());
        assert(wrap_all_s(Seq::<Seq<u8>>::empty(), stepped.0, stepped.1) == (
            stepped.0,
            stepped.1,
        ));
        assert((stepped.0, stepped.1) == stepped);
        assert(wrap_all_s(comps.push(comp), line, out) == wrap_step_s(line, out, comp));
    } else {
        let stepped = wrap_step_s(line, out, comps[0]);
        assert(comps.push(comp)[0] == comps[0]);
        assert(comps.push(comp).drop_first() =~= comps.drop_first().push(comp));
        lemma_wrap_all_push(comps.drop_first(), stepped.0, stepped.1, comp);
    }
}

/// The component texts of one row: three display bytes per pixel, red then
/// green then blue, each in decimal.
pub open spec fn row_comps_s(c: Canvas, y: int) -> Seq<Seq<u8>> {
    Seq::new(
        (3 * c.width_s()) as nat,
        |k: int|
            {
                let px = c.pixel_s(k / 3, y);
                let channel = if k % 3 == 0 {
                    px.red
                } else if k % 3 == 1 {
                    px.green
                } else {
                    px.blue
                };
                dec_u8_s(scale_component_s(channel))
            },
    )
}

/// The bytes of one encoded row: its components wrapped at 70 columns, with
/// the last partial line flushed.
pub open spec fn row_bytes_s(c: Canvas, y: int) -> Seq<u8> {
    let folded = wrap_all_s(row_comps_s(c, y), Seq::empty(), Seq::empty());
    if folded.0.len() > 0 {
        folded.1 + folded.0 + seq![10u8]
    } else {
        folded.1
    }
}

/// The bytes of the first `n` encoded rows, in order.
pub open spec fn rows_bytes_s(c: Canvas, n: int) -> Seq<u8>
    decreases n,
{
    if n <= 0 {
        Seq::empty()
    } else {
        rows_bytes_s(c, n - 1) + row_bytes_s(c, n - 1)
    }
}

/// The whole plain-text pixmap: the magic line, the dimensions, the maximum
/// component value, then every row.
pub open spec fn ppm_s(c: Canvas) -> Seq<u8> {
    seq![80u8, 51u8, 10u8] + dec_nat_s(c.width_s() as nat) + seq![32u8] + dec_nat_s(
        c.height_s() as nat,
    ) + seq![10u8] + seq![50u8, 53u8, 53u8, 10u8] + rows_bytes_s(c, c.height_s() as int)
}

fn scale_component(c: i64) -> (r: u8)
    ensures
        r == scale_component_s(c),
{
    let t = int_mul(255, c);
    let u = if t < 0 {
        0i64
    } else if t > 1095216660480i64 {
        1095216660480i64
    } else {
        t
    };
    let v = fx_round(u);
    v as u8
}

fn push_dec_u8(out: &mut Vec<u8>, n: u8)
    ensures
        final(out)@ == old(out)@ + dec_u8_s(n),
{
    if n < 10 {
        out.push(48 + n);
    } else if n < 100 {
        out.push(48 + n / 10);
        out.push(48 + n % 10);
    } else {
        out.push(48 + n / 100);
        out.push(48 + (n / 10) % 10);
        out.push(48 + n % 10);
    }
    proof {
        assert(out@ =~= old(out)@ + dec_u8_s(n));
    }
}

fn push_dec_usize(out: &mut Vec<u8>, n: usize)
    ensures
        final(out)@ == old(out)@ + dec_nat_s(n as nat),
    decreases n,
{
    if n < 10 {
        out.push(48 + n as u8);
        proof {
            assert(out@ =~= old(out)@ + dec_nat_s(n as nat));
        }
    } else {
        push_dec_usize(out, n / 10);
        out.push(48 + (n % 10) as u8);
        proof {
            assert(out@ =~= old(out)@ + dec_nat_s(n as nat));
        }
    }
}

fn wrap_push(line: &mut Vec<u8>, out: &mut Vec<u8>, comp: Vec<u8>)
    ensures
        final(line)@ == wrap_step_s(old(line)@, old(out)@, comp@).0,
        final(out)@ == wrap_step_s(old(line)@, old(out)@, comp@).1,
{
    let ghost comp0 = comp@;
    let mut comp = comp;
    if (line.len() as u128) + (comp.len() as u128) + 1 > 70 {
        out.append(line);
        out.push(10);
        proof {
            assert(out@ =~= old(out)@ + old(line)@ + seq![10u8]);
        }
    }
    if line.len() > 0 {
        line.push(32);
        line.append(&mut comp);
        proof {
            assert(line@ =~= wrap_step_s(old(line)@, old(out)@, comp0).0);
        }
    } else {
        line.append(&mut comp);
        proof {
            assert(line@ =~= comp0);
        }
    }
}

impl Canvas {
    fn push_row(&self, y: usize, out: &mut Vec<u8>)
        requires
            self.wf(),
            y < self.height_s(),
        ensures
            final(out)@ == old(out)@ + row_bytes_s(*self, y as int),
    {
        let ghost comps = row_comps_s(*self, y as int);
        let mut line: Vec<u8> = Vec::new();
        let mut body: Vec<u8> = Vec::new();
        let mut x: usize = 0;
        while x < self.width()
            invariant
                self.wf(),
                y < self.height_s(),
                x <= self.width_s(),
                comps == row_comps_s(*self, y as int),
                line@ == wrap_all_s(comps.take(3 * x as int), Seq::empty(), Seq::empty()).0,
                body@ == wrap_all_s(comps.take(3 * x as int), Seq::empty(), Seq::empty()).1,
            decreases self.width_s() - x,
        {
            let px = self.pixel_at(x, y);
            let mut comp: Vec<u8> = Vec::new();
            push_dec_u8(&mut comp, scale_component(px.red));
            proof {
                assert(comps[3 * x as int] == comp@);
                assert(comps.take(3 * x as int + 1) =~= comps.take(3 * x as int).push(
                    comps[3 * x as int],
                ));
                lemma_wrap_all_push(
                    comps.take(3 * x as int),
                    Seq::empty(),
                    Seq::empty(),
                    comps[3 * x as int],
                );
            }
            wrap_push(&mut line, &mut body, comp);
            let mut comp: Vec<u8> = Vec::new();
            push_dec_u8(&mut comp, scale_component(px.green));
            proof {
                assert(comps[3 * x as int + 1] == comp@);
                assert(comps.take(3 * x as int + 2) =~= comps.take(3 * x as int + 1).push(
                    comps[3 * x as int + 1],
                ));
                lemma_wrap_all_push(
                    comps.take(3 * x as int + 1),
                    Seq::empty(),
                    Seq::empty(),
                    comps[3 * x as int + 1],
                );
            }
            wrap_push(&mut line, &mut body, comp);
            let mut comp: Vec<u8> = Vec::new();
            push_dec_u8(&mut comp, scale_component(px.blue));
            proof {
                assert(comps[3 * x as int + 2] == comp@);
                assert(comps.take(3 * x as int + 3) =~= comps.take(3 * x as int + 2).push(
                    comps[3 * x as int + 2],
                ));
                lemma_wrap_all_push(
                    comps.take(3 * x as int + 2),
                    Seq::empty(),
                    Seq::empty(),
                    comps[3 * x as int + 2],
                );
            }
            wrap_push(&mut line, &mut body, comp);
            x = x + 1;
        }
        proof {
            assert(comps.take(3 * self.width_s() as int) =~= comps);
        }
        if line.len() > 0 {
            out.append(&mut body);
            out.append(&mut line);
            out.push(10);
        } else {
            out.append(&mut body);
        }
        proof {
            assert(out@ =~= old(out)@ + row_bytes_s(*self, y as int));
        }
    }

    /// The canvas encoded as a plain-text pixmap: a header with the
    /// dimensions and the maximum component value, then the pixels row by
    /// row, three decimal components per pixel, wrapped at 70 columns.
    pub fn to_ppm(&self) -> (r: Vec<u8>)
        requires
            self.wf(),
        ensures
            r@ == ppm_s(*self),
    {
        let mut out: Vec<u8> = Vec::new();
        out.push(80);
        out.push(51);
        out.push(10);
        push_dec_usize(&mut out, self.width());
        out.push(32);
        push_dec_usize(&mut out, self.height());
        out.push(10);
        out.push(50);
        out.push(53);
        out.push(53);
        out.push(10);
        let ghost header = out@;
        proof {
            assert(header =~= seq![80u8, 51u8, 10u8] + dec_nat_s(self.width_s() as nat)
                + seq![32u8] + dec_nat_s(self.height_s() as nat) + seq![10u8] + seq![
                50u8,
                53u8,
                53u8,
                10u8,
            ]);
        }
        let mut y: usize = 0;
        while y < self.height()
            invariant
                self.wf(),
                y <= self.height_s(),
                header == seq![80u8, 51u8, 10u8] + dec_nat_s(self.width_s() as nat) + seq![32u8]
                    + dec_nat_s(self.height_s() as nat) + seq![10u8] + seq![
                    50u8,
                    53u8,
                    53u8,
                    10u8,
                ],
                out@ == header + rows_bytes_s(*self, y as int),
            decreases self.height_s() - y,
        {
            self.push_row(y, &mut out);
            y = y + 1;
        }
        out
    }
}

} // verus!
