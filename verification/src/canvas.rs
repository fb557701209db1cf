//! The raster buffer: a rectangle of pixels and its PPM text encoding.

use vstd::prelude::*;
use crate::fixed::{fdiv_int, sat64, SCALE, scale_int, div_int_f};
use crate::color::{Color, black};

verus! {

/// A raster of `width * height` pixels, stored row by row.
#[derive(Debug)]
pub struct Canvas {
    pub width: i32,
    pub height: i32,
    pub pixels: Vec<Color>,
}

/// A well-formed canvas: non-negative extents whose product fits `i32`, and
/// exactly one stored color per pixel.
pub open spec fn canvas_wf(c: Canvas) -> bool {
    0 <= c.width && 0 <= c.height && c.width * c.height <= i32::MAX as int && c.pixels@.len()
        == c.width * c.height
}

/// The 0..=255 byte a fixed-point channel maps to in the PPM encoding:
/// scaled by 255, rounded to nearest, and clamped.
pub open spec fn byte_of(v: int) -> int {
    let q = fdiv_int(sat64(v * 255), SCALE as int);
    if q < 0 {
        0
    } else if q > 255 {
        255
    } else {
        q
    }
}

/// The decimal digit characters.
pub open spec fn digit_char(d: nat) -> char {
    if d == 0 {
        '0'
    } else if d == 1 {
        '1'
    } else if d == 2 {
        '2'
    } else if d == 3 {
        '3'
    } else if d == 4 {
        '4'
    } else if d == 5 {
        '5'
    } else if d == 6 {
        '6'
    } else if d == 7 {
        '7'
    } else if d == 8 {
        '8'
    } else {
        '9'
    }
}

/// The decimal representation of a natural number.
pub open spec fn dec_nat(n: nat) -> Seq<char>
    decreases n,
{
    if n < 10 {
        seq![digit_char(n)]
    } else {
        dec_nat(n / 10).push(digit_char(n % 10))
    }
}

/// The three decimal component strings of one pixel.
pub open spec fn pixel_entries(c: Color) -> Seq<Seq<char>> {
    seq![
        dec_nat(byte_of(c.red as int) as nat),
        dec_nat(byte_of(c.green as int) as nat),
        dec_nat(byte_of(c.blue as int) as nat),
    ]
}

/// The component strings of a run of pixels, in order.
pub open spec fn entries_of_pixels(ps: Seq<Color>) -> Seq<Seq<char>>
    decreases ps.len(),
{
    if ps.len() == 0 {
        Seq::empty()
    } else {
        pixel_entries(ps[0]) + entries_of_pixels(ps.drop_first())
    }
}

/// One wrapping step: a component that would push the line past 68
/// characters flushes the line first; otherwise it is joined to the line
/// with a space when the line is not empty.
pub open spec fn wrap_step(state: (Seq<char>, Seq<char>), e: Seq<char>) -> (Seq<char>, Seq<char>) {
    let acc = state.0;
    let line = state.1;
    if line.len() + e.len() > 68 {
        (acc + line + seq!['\n'], e)
    } else if line.len() > 0 {
        (acc, line + seq![' '] + e)
    } else {
        (acc, line + e)
    }
}

/// The wrapping fold over a row's component strings; the state is the
/// flushed text so far and the line being built.
pub open spec fn wrap_fold(entries: Seq<Seq<char>>, state: (Seq<char>, Seq<char>)) -> (
    Seq<char>,
    Seq<char>,
)
    decreases entries.len(),
{
    if entries.len() == 0 {
        state
    } else {
        wrap_fold(entries.drop_first(), wrap_step(state, entries[0]))
    }
}

/// One row of pixels as wrapped PPM text, ending in a newline.
pub open spec fn row_text(ps: Seq<Color>) -> Seq<char> {
    let st = wrap_fold(entries_of_pixels(ps), (Seq::empty(), Seq::empty()));
    st.0 + st.1 + seq!['\n']
}

/// The pixel rows from `y` up to `h` as PPM text.
pub open spec fn rows_from(pixels: Seq<Color>, w: int, y: int, h: int) -> Seq<char>
    decreases h - y,
{
    if y < 0 || y >= h {
        Seq::empty()
    } else {
        row_text(pixels.subrange(y * w, y * w + w)) + rows_from(pixels, w, y + 1, h)
    }
}

/// The PPM header: magic number, extents, and the maximum channel value.
pub open spec fn header_spec(w: int, h: int) -> Seq<char> {
    seq!['P', '3', '\n'] + dec_nat(w as nat) + seq![' '] + dec_nat(h as nat) + seq![
        '\n',
        '2',
        '5',
        '5',
        '\n',
    ]
}

/// The full PPM text of a canvas.
pub open spec fn ppm_spec(c: Canvas) -> Seq<char> {
    header_spec(c.width as int, c.height as int) + rows_from(
        c.pixels@,
        c.width as int,
        0,
        c.height as int,
    )
}

/// The string slice holding one decimal digit.
fn digit_str(d: u32) -> (r: &'static str)
    requires
        d < 10,
    ensures
        r@ == seq![digit_char(d as nat)],
{
    proof {
        reveal_strlit("0");
        reveal_strlit("1");
        reveal_strlit("2");
        reveal_strlit("3");
        reveal_strlit("4");
        reveal_strlit("5");
        reveal_strlit("6");
        reveal_strlit("7");
        reveal_strlit("8");
        reveal_strlit("9");
    }
    let r = if d == 0 {
        "0"
    } else if d == 1 {
        "1"
    } else if d == 2 {
        "2"
    } else if d == 3 {
        "3"
    } else if d == 4 {
        "4"
    } else if d == 5 {
        "5"
    } else if d == 6 {
        "6"
    } else if d == 7 {
        "7"
    } else if d == 8 {
        "8"
    } else {
        "9"
    };
    proof {
        assert(r@ =~= seq![digit_char(d as nat)]);
    }
    r
}

/// Appends the decimal representation of `n` to a string.
fn push_dec(s: &mut String, n: u32)
    ensures
        final(s)@ == old(s)@ + dec_nat(n as nat),
    decreases n,
{
    if n < 10 {
        s.append(digit_str(n));
        proof {
            assert(old(s)@ + seq![digit_char(n as nat)] =~= final(s)@);
        }
    } else {
        push_dec(s, n / 10);
        s.append(digit_str(n % 10));
        proof {
            assert(old(s)@ + dec_nat(n as nat) =~= old(s)@ + (dec_nat((n / 10) as nat).push(
                digit_char((n % 10) as nat),
            )));
        }
    }
}

/// The PPM byte of one fixed-point channel.
fn channel_byte(v: i64) -> (b: u32)
    ensures
        b as int == byte_of(v as int),
        b <= 255,
{
    let a = scale_int(v, 255);
    let q = div_int_f(a, SCALE);
    if q < 0 {
        0
    } else if q > 255 {
        255
    } else {
        q as u32
    }
}

proof fn lemma_dec_nat_small(n: nat)
    requires
        n < 1000,
    ensures
        dec_nat(n).len() <= 3,
        n < 100 ==> dec_nat(n).len() <= 2,
        n < 10 ==> dec_nat(n).len() == 1,
    decreases n,
{
    if n >= 10 {
        lemma_dec_nat_small(n / 10);
    }
}

proof fn lemma_wrap_fold_prefix(es: Seq<Seq<char>>, p: Seq<char>, a: Seq<char>, l: Seq<char>)
    ensures
        wrap_fold(es, (p + a, l)).0 == p + wrap_fold(es, (a, l)).0,
        wrap_fold(es, (p + a, l)).1 == wrap_fold(es, (a, l)).1,
    decreases es.len(),
{
    if es.len() > 0 {
        let st1 = wrap_step((p + a, l), es[0]);
        let st2 = wrap_step((a, l), es[0]);
        if l.len() + es[0].len() > 68 {
            assert(st1.0 =~= p + st2.0);
        }
        lemma_wrap_fold_prefix(es.drop_first(), p, st2.0, st2.1);
        assert(p + st2.0 == st1.0);
    }
}

proof fn lemma_row_bounds(w: int, h: int, y: int, len: int)
    requires
        0 <= y < h,
        0 <= w,
        len == w * h,
    ensures
        0 <= y * w,
        y * w + w <= len,
    decreases h,
{
    assert(0 <= y * w && y * w + w <= w * h) by (nonlinear_arith)
        requires
            0 <= y < h,
            0 <= w,
    ;
}

proof fn lemma_entries_take_step(ps: Seq<Color>, x: int)
    requires
        0 <= x < ps.len(),
    ensures
        entries_of_pixels(ps.take(x + 1)) == entries_of_pixels(ps.take(x)) + pixel_entries(ps[x]),
    decreases x,
{
    if x == 0 {
        assert(ps.take(0) =~= Seq::<Color>::empty());
        assert(ps.take(1).drop_first() =~= Seq::<Color>::empty());
        assert(entries_of_pixels(ps.take(1)) == pixel_entries(ps.take(1)[0]) + entries_of_pixels(
            Seq::<Color>::empty(),
        ));
        assert(entries_of_pixels(ps.take(1)) =~= entries_of_pixels(ps.take(0)) + pixel_entries(
            ps[0],
        ));
    } else {
        lemma_entries_take_step(ps.drop_first(), x - 1);
        assert(ps.take(x + 1).drop_first() =~= ps.drop_first().take(x));
        assert(ps.take(x).drop_first() =~= ps.drop_first().take(x - 1));
        assert(ps.drop_first()[x - 1] == ps[x]);
        assert(entries_of_pixels(ps.take(x + 1)) == pixel_entries(ps[0]) + entries_of_pixels(
            ps.drop_first().take(x),
        ));
        assert(entries_of_pixels(ps.take(x)) == pixel_entries(ps[0]) + entries_of_pixels(
            ps.drop_first().take(x - 1),
        ));
        assert(pixel_entries(ps[0]) + (entries_of_pixels(ps.drop_first().take(x - 1))
            + pixel_entries(ps[x])) =~= (pixel_entries(ps[0]) + entries_of_pixels(
            ps.drop_first().take(x - 1),
        )) + pixel_entries(ps[x]));
    }
}

proof fn lemma_wrap_fold_append(e1: Seq<Seq<char>>, e2: Seq<Seq<char>>, st: (Seq<char>, Seq<char>))
    ensures
        wrap_fold(e1 + e2, st) == wrap_fold(e2, wrap_fold(e1, st)),
    decreases e1.len(),
{
    if e1.len() == 0 {
        assert(e1 + e2 =~= e2);
    } else {
        assert((e1 + e2).drop_first() =~= e1.drop_first() + e2);
        lemma_wrap_fold_append(e1.drop_first(), e2, wrap_step(st, e1[0]));
    }
}

proof fn lemma_rows_from_step(pixels: Seq<Color>, w: int, a: int, b: int)
    requires
        0 <= a <= b,
    ensures
        rows_from(pixels, w, a, b + 1) == rows_from(pixels, w, a, b) + row_text(
            pixels.subrange(b * w, b * w + w),
        ),
    decreases b - a,
{
    if a == b {
        assert(rows_from(pixels, w, a, b) =~= Seq::<char>::empty());
        assert(rows_from(pixels, w, b + 1, b + 1) =~= Seq::<char>::empty());
        assert(rows_from(pixels, w, a, b + 1) =~= row_text(pixels.subrange(b * w, b * w + w)));
        assert(rows_from(pixels, w, a, b) + row_text(pixels.subrange(b * w, b * w + w)) =~= row_text(
            pixels.subrange(b * w, b * w + w),
        ));
    } else {
        lemma_rows_from_step(pixels, w, a + 1, b);
        assert(row_text(pixels.subrange(a * w, a * w + w)) + (rows_from(pixels, w, a + 1, b)
            + row_text(pixels.subrange(b * w, b * w + w))) =~= (row_text(
            pixels.subrange(a * w, a * w + w),
        ) + rows_from(pixels, w, a + 1, b)) + row_text(pixels.subrange(b * w, b * w + w)));
    }
}

impl Canvas {
    /// A canvas of the given extents with every pixel black.
    pub fn new(width: i32, height: i32) -> (c: Self)
        requires
            0 <= width,
            0 <= height,
            width * height <= i32::MAX as int,
        ensures
            canvas_wf(c),
            c.width == width,
            c.height == height,
            forall|j: int| 0 <= j < c.pixels@.len() ==> c.pixels@[j] == black(),
    {
        let len = width * height;
        let mut pixels = Vec::new();
        let mut k: i32 = 0;
        while k < len
            invariant
                0 <= k <= len,
                pixels@.len() == k,
                forall|j: int| 0 <= j < pixels@.len() ==> pixels@[j] == black(),
            decreases len - k,
        {
            pixels.push(Color::new(0, 0, 0));
            k = k + 1;
        }
        Self { width, height, pixels }
    }

    /// The color stored at pixel `(x, y)`.
    pub fn pixel_at(&self, x: i32, y: i32) -> (c: Color)
        requires
            canvas_wf(*self),
            0 <= x < self.width,
            0 <= y < self.height,
        ensures
            c == self.pixels@[y * self.width + x],
    {
        proof {
            lemma_pixel_index(self.width as int, self.height as int, x as int, y as int);
        }
        let i = (y * self.width + x) as usize;
        self.pixels[i]
    }

    /// Stores a color at pixel `(x, y)`.
    pub fn write_pixel(&mut self, x: i32, y: i32, c: Color)
        requires
            canvas_wf(*old(self)),
            0 <= x < old(self).width,
            0 <= y < old(self).height,
        ensures
            canvas_wf(*final(self)),
            final(self).width == old(self).width,
            final(self).height == old(self).height,
            final(self).pixels@ == old(self).pixels@.update(y * old(self).width + x, c),
    {
        proof {
            lemma_pixel_index(self.width as int, self.height as int, x as int, y as int);
        }
        let i = (y * self.width + x) as usize;
        self.pixels[i] = c;
    }

    /// The canvas as PPM text: the header, then every row's channel bytes in
    /// decimal, wrapped before a line would pass 70 characters.
    pub fn to_ppm(&self) -> (r: String)
        requires
            canvas_wf(*self),
        ensures
            r@ == ppm_spec(*self),
    {
        let mut out = String::new();
        out.append("P3\n");
        push_dec(&mut out, self.width as u32);
        out.append(" ");
        push_dec(&mut out, self.height as u32);
        out.append("\n");
        out.append("255\n");
        proof {
            reveal_strlit("P3\n");
            reveal_strlit(" ");
            reveal_strlit("\n");
            reveal_strlit("255\n");
            assert(out@ =~= header_spec(self.width as int, self.height as int));
        }
        let ghost header = out@;
        let ghost pixels = self.pixels@;
        let w = self.width;
        let h = self.height;

        let mut y: i32 = 0;
        while y < h
            invariant
                canvas_wf(*self),
                self.width == w,
                self.height == h,
                self.pixels@ == pixels,
                0 <= y <= h,
                out@ == header + rows_from(pixels, w as int, 0, y as int),
            decreases h - y,
        {
            proof {
                assert(rows_from(pixels, w as int, 0, 0) =~= Seq::<char>::empty());
            }
            proof {
                lemma_row_bounds(w as int, h as int, y as int, pixels.len() as int);
            }
            let ghost row = pixels.subrange(y as int * w as int, y as int * w as int + w as int);
            let ghost row_start = out@;
            let mut current_line = String::new();
            let mut line_len: usize = 0;
            let mut x: i32 = 0;
            proof {
                assert(row.take(0) =~= Seq::<Color>::empty());
            }
            while x < w
                invariant
                    canvas_wf(*self),
                    self.width == w,
                    self.height == h,
                    self.pixels@ == pixels,
                    0 <= y < h,
                    0 <= x <= w,
                    row == pixels.subrange(y as int * w as int, y as int * w as int + w as int),
                    line_len == current_line@.len(),
                    line_len <= 69,
                    (out@, current_line@) == wrap_fold(
                        entries_of_pixels(row.take(x as int)),
                        (row_start, Seq::<char>::empty()),
                    ),
                decreases w - x,
            {
                let this_pixel = self.pixel_at(x, y);
                proof {
                    lemma_pixel_in_row(pixels, w as int, h as int, x as int, y as int);
                    assert(row[x as int] == this_pixel);
                    lemma_entries_take_step(row, x as int);
                }
                let mut c0 = String::new();
                push_dec(&mut c0, channel_byte(this_pixel.red));
                let mut c1 = String::new();
                push_dec(&mut c1, channel_byte(this_pixel.green));
                let mut c2 = String::new();
                push_dec(&mut c2, channel_byte(this_pixel.blue));
                let ghost e = pixel_entries(this_pixel);
                let ghost st0 = (out@, current_line@);
                proof {
                    assert(c0@ =~= e[0]);
                    assert(c1@ =~= e[1]);
                    assert(c2@ =~= e[2]);
                    lemma_wrap_fold_append(
                        entries_of_pixels(row.take(x as int)),
                        e,
                        (row_start, Seq::<char>::empty()),
                    );
                    lemma_dec_nat_small(byte_of(this_pixel.red as int) as nat);
                    lemma_dec_nat_small(byte_of(this_pixel.green as int) as nat);
                    lemma_dec_nat_small(byte_of(this_pixel.blue as int) as nat);
                }
                Self::emit_entry(&mut out, &mut current_line, &mut line_len, c0);
                let ghost st1 = (out@, current_line@);
                Self::emit_entry(&mut out, &mut current_line, &mut line_len, c1);
                let ghost st2 = (out@, current_line@);
                Self::emit_entry(&mut out, &mut current_line, &mut line_len, c2);
                let ghost st3 = (out@, current_line@);
                proof {
                    assert(st1 == wrap_step(st0, e[0]));
                    assert(st2 == wrap_step(st1, e[1]));
                    assert(st3 == wrap_step(st2, e[2]));
                    assert(e.drop_first() =~= seq![e[1], e[2]]);
                    assert(e.drop_first().drop_first() =~= seq![e[2]]);
                    assert(seq![e[2]].drop_first() =~= Seq::<Seq<char>>::empty());
                    assert(wrap_fold(e, st0) == wrap_fold(e.drop_first(), st1));
                    assert(wrap_fold(e.drop_first(), st1) == wrap_fold(seq![e[1], e[2]], st1));
                    assert(wrap_fold(seq![e[1], e[2]], st1) == wrap_fold(seq![e[2]], st2));
                    assert(wrap_fold(seq![e[2]], st2) == wrap_fold(
                        Seq::<Seq<char>>::empty(),
                        st3,
                    ));
                    assert(wrap_fold(e, st0) == st3);
                    assert(st3 == wrap_fold(
                        entries_of_pixels(row.take(x as int + 1)),
                        (row_start, Seq::<char>::empty()),
                    ));
                }
                x = x + 1;
            }
            out.append(current_line.as_str());
            out.append("\n");
            proof {
                reveal_strlit("\n");
                assert(row.take(w as int) =~= row);
                assert(row_start + Seq::<char>::empty() =~= row_start);
                lemma_wrap_fold_prefix(
                    entries_of_pixels(row),
                    row_start,
                    Seq::<char>::empty(),
                    Seq::<char>::empty(),
                );
                lemma_rows_from_step(pixels, w as int, 0, y as int);
                assert(out@ =~= header + rows_from(pixels, w as int, 0, y as int + 1));
            }
            y = y + 1;
        }
        proof {
            assert(out@ =~= ppm_spec(*self));
        }
        out
    }

    /// Appends one component string to the line being wrapped, flushing the
    /// line first when it would grow past 68 characters.
    fn emit_entry(out: &mut String, line: &mut String, line_len: &mut usize, entry: String)
        requires
            *old(line_len) == old(line)@.len(),
            *old(line_len) <= 69,
            entry@.len() <= 3,
        ensures
            *final(line_len) == final(line)@.len(),
            *final(line_len) <= 69,
            (final(out)@, final(line)@) == wrap_step((old(out)@, old(line)@), entry@),
    {
        let entry_len = entry.as_str().unicode_len();
        if *line_len + entry_len > 68 {
            out.append(line.as_str());
            out.append("\n");
            let mut fresh = String::new();
            fresh.append(entry.as_str());
            *line = fresh;
            *line_len = entry_len;
            proof {
                reveal_strlit("\n");
                assert(final(out)@ =~= old(out)@ + old(line)@ + seq!['\n']);
                assert(final(line)@ =~= entry@);
            }
        } else if *line_len > 0 {
            line.append(" ");
            line.append(entry.as_str());
            *line_len = *line_len + 1 + entry_len;
            proof {
                reveal_strlit(" ");
                assert(final(line)@ =~= old(line)@ + seq![' '] + entry@);
            }
        } else {
            line.append(entry.as_str());
            *line_len = *line_len + entry_len;
            proof {
                assert(final(line)@ =~= old(line)@ + entry@);
            }
        }
    }

    /// The width of the canvas.
    pub fn get_width(&self) -> (r: i32)
        ensures
            r == self.width,
    {
        self.width
    }

    /// The height of the canvas.
    pub fn get_height(&self) -> (r: i32)
        ensures
            r == self.height,
    {
        self.height
    }
}

proof fn lemma_pixel_index(w: int, h: int, x: int, y: int)
    requires
        0 <= x < w,
        0 <= y < h,
        w * h <= i32::MAX as int,
    ensures
        0 <= y * w + x < w * h,
{
    assert(0 <= y * w + x < w * h) by (nonlinear_arith)
        requires
            0 <= x < w,
            0 <= y < h,
    ;
}

proof fn lemma_pixel_in_row(pixels: Seq<Color>, w: int, h: int, x: int, y: int)
    requires
        0 <= x < w,
        0 <= y < h,
        pixels.len() == w * h,
    ensures
        y * w <= y * w + w <= pixels.len(),
        pixels.subrange(y * w, y * w + w)[x] == pixels[y * w + x],
{
    assert(0 <= y * w && y * w + w <= w * h) by (nonlinear_arith)
        requires
            0 <= x < w,
            0 <= y < h,
    ;
}

} // verus!
