//! The bounded ASCII-art image renderer and the image preview builder.
//!
//! Images are decoded and resized by the `image` crate behind trusted
//! wrappers; everything downstream of the pixels — grayscale conversion,
//! the character ramp, row assembly, dimension clamping and the preview
//! text — is verified.  Decode failures and outlandish dimensions degrade
//! to an error text, never to a crash of the interface.

use vstd::prelude::*;

use image::GenericImageView;

use vstd::string::StringExecFns;

use crate::text::{
    chars_blank, chars_of, contains_seq, find_last_char, last_index_of, lemma_concat_contains,
    lower_chars, lower_of, matches_at, string_from_chars, subrange_vec, u32_to_string,
};

verus! {

// ---------------------------------------------------------------------------
// Recognising image files
// ---------------------------------------------------------------------------

/// The final path component: everything after the last slash.
pub open spec fn file_name_spec(p: Seq<char>) -> Seq<char> {
    p.skip(last_index_of(p, '/') + 1)
}

/// The extension of the final path component: everything after its last
/// dot, absent when there is no dot or when the name starts with its only
/// dot.
pub open spec fn extension_spec(p: Seq<char>) -> Option<Seq<char>> {
    let n = file_name_spec(p);
    let d = last_index_of(n, '.');
    if d <= 0 {
        None
    } else {
        Some(n.skip(d + 1))
    }
}

/// The supported image extensions, already lower-cased.
pub open spec fn is_image_ext(e: Seq<char>) -> bool {
    e == "jpg"@ || e == "jpeg"@ || e == "png"@ || e == "gif"@ || e == "bmp"@
}

/// The path names a file whose extension, lower-cased, is a supported
/// image format.
pub open spec fn is_image_path(p: Seq<char>) -> bool {
    match extension_spec(p) {
        Some(e) => is_image_ext(lower_of(e)),
        None => false,
    }
}

/// The final path component of `path`.
pub fn file_name_of(path: &str) -> (r: String)
    ensures
        r@ == file_name_spec(path@),
{
    let v = chars_of(path);
    let n = v.len();
    let start: usize = match find_last_char(&v, '/') {
        Some(i) => i + 1,
        None => 0,
    };
    let name = subrange_vec(&v, start, n);
    proof {
        assert(name@ =~= file_name_spec(path@));
    }
    string_from_chars(&name)
}

/// The extension of the path's final component, as `extension_spec` says.
pub fn extension_of(path: &str) -> (r: Option<String>)
    ensures
        match r {
            Some(e) => extension_spec(path@) == Some(e@),
            None => extension_spec(path@) is None,
        },
{
    let v = chars_of(path);
    let n = v.len();
    let start: usize = match find_last_char(&v, '/') {
        Some(i) => i + 1,
        None => 0,
    };
    let name = subrange_vec(&v, start, n);
    proof {
        assert(name@ =~= file_name_spec(path@));
    }
    match find_last_char(&name, '.') {
        None => None,
        Some(d) => {
            if d == 0 {
                None
            } else {
                let ext = subrange_vec(&name, d + 1, name.len());
                proof {
                    assert(ext@ =~= file_name_spec(path@).skip(d + 1));
                }
                Some(string_from_chars(&ext))
            }
        },
    }
}

fn is_image_ext_chars(low: &Vec<char>) -> (r: bool)
    ensures
        r == is_image_ext(low@),
{
    let jpg = chars_of("jpg");
    let jpeg = chars_of("jpeg");
    let png = chars_of("png");
    let gif = chars_of("gif");
    let bmp = chars_of("bmp");
    crate::text::vec_chars_eq(low, &jpg) || crate::text::vec_chars_eq(low, &jpeg)
        || crate::text::vec_chars_eq(low, &png) || crate::text::vec_chars_eq(low, &gif)
        || crate::text::vec_chars_eq(low, &bmp)
}

/// Whether the path names a supported image file, judged by its extension
/// alone, case-insensitively.
pub fn is_image_file(path: &str) -> (r: bool)
    ensures
        r == is_image_path(path@),
{
    let v = chars_of(path);
    let n = v.len();
    let start: usize = match find_last_char(&v, '/') {
        Some(i) => i + 1,
        None => 0,
    };
    let name = subrange_vec(&v, start, n);
    proof {
        assert(name@ =~= file_name_spec(path@));
    }
    match find_last_char(&name, '.') {
        None => false,
        Some(d) => {
            if d == 0 {
                false
            } else {
                let ext = subrange_vec(&name, d + 1, name.len());
                proof {
                    assert(ext@ =~= file_name_spec(path@).skip(d + 1));
                }
                let s = string_from_chars(&ext);
                let low = lower_chars(s.as_str());
                is_image_ext_chars(&low)
            }
        },
    }
}

// ---------------------------------------------------------------------------
// Grayscale and the character ramp
// ---------------------------------------------------------------------------

/// The ramp of output characters, ordered dark to light.
pub open spec fn ramp_spec() -> Seq<char> {
    seq![' ', '.', ':', '-', '=', '+', '*', '#', '%', '@']
}

/// The standard luma weighting, truncated to an integer.
pub open spec fn gray_spec(r: u8, g: u8, b: u8) -> int {
    (299 * r + 587 * g + 114 * b) / 1000
}

/// Grayscale value of one pixel; always fits in eight bits.
pub fn gray_of(r: u8, g: u8, b: u8) -> (y: u8)
    ensures
        y == gray_spec(r, g, b),
        0 <= gray_spec(r, g, b) <= 255,
{
    ((299 * (r as u32) + 587 * (g as u32) + 114 * (b as u32)) / 1000) as u8
}

/// The ramp slot for a grayscale value: linear in the value, with an
/// explicit clamp so no rounding can index past the ramp.
pub open spec fn ramp_index_spec(gray: int) -> int {
    let i = if gray == 255 {
        9
    } else {
        gray * 9 / 255
    };
    if i > 9 {
        9
    } else {
        i
    }
}

/// The ramp slot of a grayscale value.
pub fn ramp_index(gray: u8) -> (i: usize)
    ensures
        i == ramp_index_spec(gray as int),
        i < 10,
{
    let i: u32 = if gray == 255 {
        9
    } else {
        (gray as u32) * 9 / 255
    };
    let i = if i > 9 {
        9
    } else {
        i
    };
    i as usize
}

fn ramp_char(i: usize) -> (c: char)
    requires
        i < 10,
    ensures
        c == ramp_spec()[i as int],
{
    if i == 0 { ' ' }
    else if i == 1 { '.' }
    else if i == 2 { ':' }
    else if i == 3 { '-' }
    else if i == 4 { '=' }
    else if i == 5 { '+' }
    else if i == 6 { '*' }
    else if i == 7 { '#' }
    else if i == 8 { '%' }
    else { '@' }
}

/// The grayscale-to-ramp mapping is monotonic, and the brightest value
/// maps exactly to the last ramp slot.
pub proof fn lemma_ramp_monotonic(g1: int, g2: int)
    requires
        0 <= g1 <= g2 <= 255,
    ensures
        ramp_index_spec(g1) <= ramp_index_spec(g2),
        ramp_index_spec(255) == 9,
        0 <= ramp_index_spec(g1) <= 9,
{
    assert(g1 * 9 / 255 <= g2 * 9 / 255) by (nonlinear_arith)
        requires
            0 <= g1 <= g2,
    ;
    assert(0 <= g1 * 9 / 255) by (nonlinear_arith)
        requires
            0 <= g1,
    ;
}

// ---------------------------------------------------------------------------
// Art assembly
// ---------------------------------------------------------------------------

/// The character standing for the pixel at column `x` of row `y` in a
/// row-major pixel grid of width `w`.
pub open spec fn art_char_at(pix: Seq<(u8, u8, u8)>, w: int, y: int, x: int) -> char {
    let p = pix[y * w + x];
    ramp_spec()[ramp_index_spec(gray_spec(p.0, p.1, p.2))]
}

/// One rendered row: `w` ramp characters and a closing newline.
pub open spec fn art_row(pix: Seq<(u8, u8, u8)>, w: int, y: int) -> Seq<char> {
    Seq::new(w as nat, |x: int| art_char_at(pix, w, y, x)).push('\n')
}

/// The rendered rows from `y` on.
pub open spec fn art_from_row(pix: Seq<(u8, u8, u8)>, w: int, h: int, y: int) -> Seq<char>
    decreases h - y,
{
    if y < 0 || y >= h {
        Seq::empty()
    } else {
        art_row(pix, w, y) + art_from_row(pix, w, h, y + 1)
    }
}

/// The whole rendered art for a `w` by `h` row-major pixel grid.
pub open spec fn art_spec(pix: Seq<(u8, u8, u8)>, w: int, h: int) -> Seq<char> {
    art_from_row(pix, w, h, 0)
}

pub proof fn lemma_art_len(pix: Seq<(u8, u8, u8)>, w: int, h: int, y: int)
    requires
        w >= 0,
        0 <= y <= h,
    ensures
        art_from_row(pix, w, h, y).len() == (h - y) * (w + 1),
    decreases h - y,
{
    if y < h {
        lemma_art_len(pix, w, h, y + 1);
        assert((h - y) * (w + 1) == (w + 1) + (h - y - 1) * (w + 1)) by (nonlinear_arith);
    } else {
        assert((h - y) * (w + 1) == 0) by (nonlinear_arith)
            requires
                y == h,
        ;
    }
}

/// A single-pixel grid renders to exactly one ramp character and a
/// trailing newline.
pub proof fn lemma_single_pixel_art(pix: Seq<(u8, u8, u8)>)
    ensures
        art_spec(pix, 1, 1).len() == 2,
        art_spec(pix, 1, 1)[0] == art_char_at(pix, 1, 0, 0),
        art_spec(pix, 1, 1)[1] == '\n',
{
    lemma_art_len(pix, 1, 1, 0);
    assert(art_spec(pix, 1, 1) =~= art_row(pix, 1, 0) + art_from_row(pix, 1, 1, 1));
    assert(art_row(pix, 1, 0)[0] == art_char_at(pix, 1, 0, 0));
}

/// Render a row-major pixel grid as ASCII art, one character per pixel,
/// rows separated by newlines.
pub fn render_ascii_art(pixels: &Vec<(u8, u8, u8)>, w: u32, h: u32) -> (r: String)
    requires
        pixels@.len() == w as int * h as int,
    ensures
        r@ == art_spec(pixels@, w as int, h as int),
{
    let mut out: Vec<char> = Vec::new();
    let npix = pixels.len();
    let mut y: u32 = 0;
    proof {
        assert(out@ + art_from_row(pixels@, w as int, h as int, 0) =~= art_spec(
            pixels@,
            w as int,
            h as int,
        ));
    }
    while y < h
        invariant
            y <= h,
            pixels@.len() == w as int * h as int,
            pixels@.len() == npix,
            out@ + art_from_row(pixels@, w as int, h as int, y as int) =~= art_spec(
                pixels@,
                w as int,
                h as int,
            ),
        decreases h - y,
    {
        let ghost out_at_row = out@;
        let mut x: u32 = 0;
        while x < w
            invariant
                x <= w,
                y < h,
                pixels@.len() == w as int * h as int,
                pixels@.len() == npix,
                out@ =~= out_at_row + Seq::new(x as nat, |k: int| art_char_at(
                    pixels@,
                    w as int,
                    y as int,
                    k,
                )),
            decreases w - x,
        {
            proof {
                assert(y as int * w as int + x < w as int * h as int) by (nonlinear_arith)
                    requires
                        0 <= x < w,
                        0 <= y < h,
                ;
                assert(0 <= y as int * w as int) by (nonlinear_arith)
                    requires
                        0 <= y,
                        0 <= w,
                ;
            }
            let idx: usize = (y as usize) * (w as usize) + (x as usize);
            let p = pixels[idx];
            let g = gray_of(p.0, p.1, p.2);
            let c = ramp_char(ramp_index(g));
            out.push(c);
            proof {
                assert(out@ =~= out_at_row + Seq::new((x + 1) as nat, |k: int| art_char_at(
                    pixels@,
                    w as int,
                    y as int,
                    k,
                )));
            }
            x += 1;
        }
        out.push('\n');
        proof {
            assert(out@ =~= out_at_row + art_row(pixels@, w as int, y as int));
            assert(out@ + art_from_row(pixels@, w as int, h as int, y + 1) =~= art_spec(
                pixels@,
                w as int,
                h as int,
            ));
        }
        y += 1;
    }
    string_from_chars(&out)
}


// ---------------------------------------------------------------------------
// The image crate, behind trusted wrappers
// ---------------------------------------------------------------------------

#[verifier::external_type_specification]
#[verifier::external_body]
pub struct ExDynamicImage(image::DynamicImage);

/// Relies on `image::open`: decodes the file at the path, or reports the
/// failure, rendered with its `Display` impl.  What comes back depends on
/// the file on disk, so nothing is promised of the outcome.
#[verifier::external_body]
fn open_image(path: &str) -> Result<image::DynamicImage, String> {
    image::open(path).map_err(|e| e.to_string())
}

/// Relies on `GenericImageView::dimensions` for `DynamicImage`: the width
/// and height of the decoded image.
#[verifier::external_body]
fn image_dimensions(img: &image::DynamicImage) -> (u32, u32) {
    img.dimensions()
}

/// Relies on `DynamicImage::color` and `ColorType::channel_count`: how many
/// channels each pixel of the decoded image carries.
#[verifier::external_body]
fn image_channel_count(img: &image::DynamicImage) -> u8 {
    img.color().channel_count()
}

/// Relies on `DynamicImage::resize`, which scales to the largest size that
/// fits within the given bounds, keeping the aspect ratio and never going
/// below one pixel a side; on `DynamicImage::to_rgb8`, which keeps the
/// dimensions; and on `ImageBuffer::pixels`, which yields exactly
/// width times height pixels in row-major order.
#[verifier::external_body]
fn resize_to_rgb(img: &image::DynamicImage, w: u32, h: u32) -> (r: (u32, u32, Vec<(u8, u8, u8)>))
    requires
        1 <= w,
        1 <= h,
    ensures
        1 <= r.0 <= w,
        1 <= r.1 <= h,
        r.2@.len() == r.0 as int * r.1 as int,
{
    let resized = img.resize(w, h, image::imageops::FilterType::Nearest);
    let rgb = resized.to_rgb8();
    let (aw, ah) = rgb.dimensions();
    let pix = rgb.pixels().map(|p| (p.0[0], p.0[1], p.0[2])).collect();
    (aw, ah, pix)
}

// ---------------------------------------------------------------------------
// Bounded rendering
// ---------------------------------------------------------------------------

/// A requested dimension clamped into `1..=max`.
pub open spec fn clamp_dim_spec(t: int, max: int) -> int {
    if t > max {
        max
    } else if t < 1 {
        1
    } else {
        t
    }
}

/// Clamp requested art dimensions to the safe footprint: at most 200
/// columns by 100 rows, and never below one cell each way.
pub fn clamp_dims(target_width: u32, target_height: u32) -> (r: (u32, u32))
    ensures
        r.0 == clamp_dim_spec(target_width as int, 200),
        r.1 == clamp_dim_spec(target_height as int, 100),
        1 <= r.0 <= 200,
        1 <= r.1 <= 100,
{
    let w = if target_width > 200 {
        200
    } else if target_width < 1 {
        1
    } else {
        target_width
    };
    let h = if target_height > 100 {
        100
    } else if target_height < 1 {
        1
    } else {
        target_height
    };
    (w, h)
}

/// The text has the shape of a `w` by `h` art block: one character per
/// cell plus a closing newline on each of the `h` rows.
pub open spec fn art_dims_ok(s: Seq<char>, w: int, h: int) -> bool {
    s.len() == h * (w + 1) && s.len() > 0 && s[s.len() - 1] == '\n'
}

/// The shape every rendered art has: some actual size within the clamped
/// bounds, one character per cell, each row closed by a newline.
pub open spec fn bounded_art_shape(s: Seq<char>, cw: int, ch: int) -> bool {
    exists|w: int, h: int| 1 <= w <= cw && 1 <= h <= ch && #[trigger] art_dims_ok(s, w, h)
}

proof fn lemma_art_last(pix: Seq<(u8, u8, u8)>, w: int, h: int, y: int)
    requires
        w >= 0,
        0 <= y < h,
    ensures
        art_from_row(pix, w, h, y).len() > 0,
        art_from_row(pix, w, h, y).last() == '\n',
    decreases h - y,
{
    if y + 1 < h {
        lemma_art_last(pix, w, h, y + 1);
        let a = art_row(pix, w, y);
        let b = art_from_row(pix, w, h, y + 1);
        assert((a + b).last() == b.last());
    } else {
        let a = art_row(pix, w, y);
        assert(art_from_row(pix, w, h, y + 1) =~= Seq::<char>::empty());
        assert(art_from_row(pix, w, h, y) =~= a);
        assert(a.last() == '\n');
    }
}

/// Requests of zero columns or rows are clamped, not rejected: the whole
/// request range keeps the shape bound, and a request clamped to a single
/// cell renders as exactly one character and a trailing newline.
pub proof fn lemma_zero_request_single_cell(s: Seq<char>)
    requires
        bounded_art_shape(s, clamp_dim_spec(0, 200), clamp_dim_spec(0, 100)),
    ensures
        s.len() == 2,
        s[1] == '\n',
{
}

/// Render a small ASCII-art view of the image: the requested dimensions
/// are clamped to a safe footprint, never rejected, and the result always
/// has the bounded row-by-row shape.
pub fn generate_ascii_preview(img: &image::DynamicImage, target_width: u32, target_height: u32) -> (r:
    Result<String, String>)
    ensures
        r is Ok,
        r matches Ok(art) ==> bounded_art_shape(
            art@,
            clamp_dim_spec(target_width as int, 200),
            clamp_dim_spec(target_height as int, 100),
        ),
{
    let (sw, sh) = clamp_dims(target_width, target_height);
    let (aw, ah, pix) = resize_to_rgb(img, sw, sh);
    let art = render_ascii_art(&pix, aw, ah);
    proof {
        lemma_art_len(pix@, aw as int, ah as int, 0);
        lemma_art_last(pix@, aw as int, ah as int, 0);
        assert(art@.last() == '\n');
        assert(art@.len() >= 2) by (nonlinear_arith)
            requires
                art@.len() == ah as int * (aw as int + 1),
                aw >= 1,
                ah >= 1,
        ;
        assert(art_dims_ok(art@, aw as int, ah as int));
    }
    Ok(art)
}

/// The terminal rendering step: re-decode the file, reject zero or
/// outlandish dimensions, and render the bounded art.
pub fn render_image_to_terminal(path: &str) -> (r: Result<String, String>)
    ensures
        r matches Ok(art) ==> bounded_art_shape(art@, 40, 15),
{
    match open_image(path) {
        Ok(img) => {
            let (w, h) = image_dimensions(&img);
            if w == 0 || h == 0 {
                Err("Image has zero dimensions".to_owned())
            } else if w > 10000 || h > 10000 {
                Err("Image too large for preview".to_owned())
            } else {
                generate_ascii_preview(&img, 40, 15)
            }
        },
        Err(e) => Err(e),
    }
}

// ---------------------------------------------------------------------------
// Preview text
// ---------------------------------------------------------------------------

/// The preview text opens with the image marker and names the file.
pub open spec fn mentions_image(s: Seq<char>, name: Seq<char>) -> bool {
    contains_seq(s, "\u{1f5bc}\u{fe0f} Image"@) && contains_seq(s, name)
}

/// Build the preview text for an image file: its name, dimensions and
/// channel count, then a terminal rendering where one can be made.  Decode
/// failures and oversized images degrade to an explanatory text.
pub fn generate_image_preview(path: &str) -> (r: String)
    ensures
        mentions_image(r@, file_name_spec(path@)),
{
    let name = file_name_of(path);
    match open_image(path) {
        Err(e) => {
            let mut s = String::new();
            s.append("\u{1f5bc}\u{fe0f} Image file: ");
            s.append(name.as_str());
            s.append("\n\u{274c} Error loading image: ");
            s.append(e.as_str());
            proof {
                image_marker_facts();
                let lit = "\u{1f5bc}\u{fe0f} Image file: "@;
                let tail = "\n\u{274c} Error loading image: "@ + e@;
                assert(s@ =~= lit + name@ + tail);
                lemma_header_contains_name(s@, lit, name@, tail);
                assert(s@ =~= lit + (name@ + tail));
                lemma_marker_prefix(s@, lit, name@ + tail);
            }
            s
        },
        Ok(img) => {
            let (w, h) = image_dimensions(&img);
            if w > 50000 || h > 50000 {
                let mut s = String::new();
                s.append("\u{1f5bc}\u{fe0f} Image: ");
                s.append(name.as_str());
                s.append("\n\u{274c} Image too large for preview (");
                s.append(u32_to_string(w).as_str());
                s.append("x");
                s.append(u32_to_string(h).as_str());
                s.append(")");
                proof {
                    image_marker_facts();
                    let lit = "\u{1f5bc}\u{fe0f} Image: "@;
                    let tail = "\n\u{274c} Image too large for preview ("@ + crate::text::dec_str(
                        w as int,
                    ) + "x"@ + crate::text::dec_str(h as int) + ")"@;
                    assert(s@ =~= lit + name@ + tail);
                    lemma_header_contains_name(s@, lit, name@, tail);
                    assert(s@ =~= lit + (name@ + tail));
                    lemma_marker_prefix(s@, lit, name@ + tail);
                }
                s
            } else {
                let c = image_channel_count(&img);
                let mut s = String::new();
                s.append("\u{1f5bc}\u{fe0f} Image: ");
                s.append(name.as_str());
                s.append("\n\u{1f4d0} Dimensions: ");
                s.append(u32_to_string(w).as_str());
                s.append("x");
                s.append(u32_to_string(h).as_str());
                s.append("\n\u{1f3a8} Channels: ");
                s.append(u32_to_string(c as u32).as_str());
                s.append("\n");
                let ghost head = s@;
                proof {
                    image_marker_facts();
                    let lit = "\u{1f5bc}\u{fe0f} Image: "@;
                    let tail = "\n\u{1f4d0} Dimensions: "@ + crate::text::dec_str(w as int) + "x"@
                        + crate::text::dec_str(h as int) + "\n\u{1f3a8} Channels: "@
                        + crate::text::dec_str(c as int) + "\n"@;
                    assert(head =~= lit + name@ + tail);
                    lemma_header_contains_name(head, lit, name@, tail);
                    assert(head =~= lit + (name@ + tail));
                    lemma_marker_prefix(head, lit, name@ + tail);
                }
                match render_image_to_terminal(path) {
                    Ok(tp) => {
                        let tv = chars_of(tp.as_str());
                        if !chars_blank(&tv) {
                            s.append("\n\u{1f4fa} Terminal Preview:\n");
                            s.append(tp.as_str());
                        }
                    },
                    Err(_) => {
                        s.append("\n\u{1f4fa} ASCII preview unavailable for this image");
                    },
                }
                proof {
                    assert(head =~= s@.take(head.len() as int));
                    lemma_mentions_extends(head, s@, file_name_spec(path@));
                }
                s
            }
        },
    }
}

/// A text assembled as header, name and tail contains the name.
proof fn lemma_header_contains_name(s: Seq<char>, lit: Seq<char>, name: Seq<char>, tail: Seq<char>)
    requires
        s =~= lit + name + tail,
    ensures
        contains_seq(s, name),
{
    lemma_concat_contains(lit, name, tail);
}

/// A text whose header opens with the image marker contains the marker.
proof fn lemma_marker_prefix(s: Seq<char>, lit: Seq<char>, rest: Seq<char>)
    requires
        s =~= lit + rest,
        lit.len() >= "\u{1f5bc}\u{fe0f} Image"@.len(),
        lit.subrange(0, "\u{1f5bc}\u{fe0f} Image"@.len() as int) =~= "\u{1f5bc}\u{fe0f} Image"@,
    ensures
        contains_seq(s, "\u{1f5bc}\u{fe0f} Image"@),
{
    let m = "\u{1f5bc}\u{fe0f} Image"@;
    assert(s.subrange(0, m.len() as int) =~= lit.subrange(0, m.len() as int));
    assert(matches_at(s, m, 0));
}

/// A text that mentions the image keeps mentioning it when extended.
proof fn lemma_mentions_extends(head: Seq<char>, s: Seq<char>, name: Seq<char>)
    requires
        mentions_image(head, name),
        head.len() <= s.len(),
        head =~= s.take(head.len() as int),
    ensures
        mentions_image(s, name),
{
    let marker = "\u{1f5bc}\u{fe0f} Image"@;
    let i = choose|i: int| matches_at(head, marker, i);
    assert forall|k: int| 0 <= k < marker.len() implies s[i + k] == #[trigger] head[i + k] by {
        assert(head[i + k] == s.take(head.len() as int)[i + k]);
    }
    assert(s.subrange(i, i + marker.len() as int) =~= marker);
    assert(matches_at(s, marker, i));
    let j = choose|j: int| matches_at(head, name, j);
    assert forall|k: int| 0 <= k < name.len() implies s[j + k] == #[trigger] head[j + k] by {
        assert(head[j + k] == s.take(head.len() as int)[j + k]);
    }
    assert(s.subrange(j, j + name.len() as int) =~= name);
    assert(matches_at(s, name, j));
}

/// The two preview headers open with the image marker.
proof fn image_marker_facts()
    ensures
        "\u{1f5bc}\u{fe0f} Image file: "@.len() >= "\u{1f5bc}\u{fe0f} Image"@.len(),
        "\u{1f5bc}\u{fe0f} Image file: "@.subrange(0, "\u{1f5bc}\u{fe0f} Image"@.len() as int)
            =~= "\u{1f5bc}\u{fe0f} Image"@,
        "\u{1f5bc}\u{fe0f} Image: "@.len() >= "\u{1f5bc}\u{fe0f} Image"@.len(),
        "\u{1f5bc}\u{fe0f} Image: "@.subrange(0, "\u{1f5bc}\u{fe0f} Image"@.len() as int)
            =~= "\u{1f5bc}\u{fe0f} Image"@,
{
    reveal_strlit("\u{1f5bc}\u{fe0f} Image file: ");
    reveal_strlit("\u{1f5bc}\u{fe0f} Image: ");
    reveal_strlit("\u{1f5bc}\u{fe0f} Image");
}

/// Image facts without a rendering: name, size and channel count, or the
/// decode failure.
pub fn get_image_info(path: &str) -> (r: Result<String, String>)
    ensures
        r matches Ok(s) ==> contains_seq(s@, file_name_spec(path@)),
{
    let img = match open_image(path) {
        Ok(img) => img,
        Err(e) => {
            return Err(e);
        },
    };
    let (w, h) = image_dimensions(&img);
    let c = image_channel_count(&img);
    let name = file_name_of(path);
    let mut s = String::new();
    s.append("\u{1f5bc}\u{fe0f}  Image: ");
    s.append(name.as_str());
    s.append("\n\u{1f4d0} Size: ");
    s.append(u32_to_string(w).as_str());
    s.append("x");
    s.append(u32_to_string(h).as_str());
    s.append("\n\u{1f3a8} Channels: ");
    s.append(u32_to_string(c as u32).as_str());
    proof {
        let lit = "\u{1f5bc}\u{fe0f}  Image: "@;
        let tail = "\n\u{1f4d0} Size: "@ + crate::text::dec_str(w as int) + "x"@
            + crate::text::dec_str(h as int) + "\n\u{1f3a8} Channels: "@ + crate::text::dec_str(
            c as int,
        );
        assert(s@ =~= lit + name@ + tail);
        lemma_header_contains_name(s@, lit, name@, tail);
    }
    Ok(s)
}

} // verus!
