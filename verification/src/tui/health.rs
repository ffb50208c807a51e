//! The health grid: every pixel of a canvas stands for a run of records and
//! shows, as a score from 0 to 9, how many of them are healthy.

use vstd::prelude::*;
use crate::tui::progress::count_healthy;

verus! {

/// The score of a pixel that stands for no record.
pub const EMPTY_PIXEL: u8 = 10;

/// A colour as red, green and blue.
#[derive(Clone, Copy, Debug, PartialEq, Eq, Structural)]
pub struct Rgb {
    pub red: u8,
    pub green: u8,
    pub blue: u8,
}

/// Whether at least `percent` in a hundred of `total` are `valid`.
pub open spec fn at_least(valid: int, total: int, percent: int) -> bool {
    valid * 100 >= percent * total
}

/// The quality score of `valid` healthy records among `total`: 0 where all
/// are healthy, then one band each from 95, 90, 80, 70, 60, 50, 30 and 10
/// per cent on, and 9 below that.
pub open spec fn quality_score(valid: int, total: int) -> u8 {
    if at_least(valid, total, 100) {
        0
    } else if at_least(valid, total, 95) {
        1
    } else if at_least(valid, total, 90) {
        2
    } else if at_least(valid, total, 80) {
        3
    } else if at_least(valid, total, 70) {
        4
    } else if at_least(valid, total, 60) {
        5
    } else if at_least(valid, total, 50) {
        6
    } else if at_least(valid, total, 30) {
        7
    } else if at_least(valid, total, 10) {
        8
    } else {
        9
    }
}

/// The colour of `valid` healthy records among `total`: from bright green
/// for all healthy over yellow and orange to dark red for none.
pub open spec fn quality_color(valid: int, total: int) -> Rgb {
    if at_least(valid, total, 100) {
        Rgb { red: 0, green: 255, blue: 0 }
    } else if at_least(valid, total, 95) {
        Rgb { red: 50, green: 255, blue: 50 }
    } else if at_least(valid, total, 90) {
        Rgb { red: 100, green: 255, blue: 100 }
    } else if at_least(valid, total, 80) {
        Rgb { red: 200, green: 255, blue: 100 }
    } else if at_least(valid, total, 70) {
        Rgb { red: 255, green: 255, blue: 0 }
    } else if at_least(valid, total, 60) {
        Rgb { red: 255, green: 200, blue: 0 }
    } else if at_least(valid, total, 50) {
        Rgb { red: 255, green: 150, blue: 0 }
    } else if at_least(valid, total, 40) {
        Rgb { red: 255, green: 100, blue: 0 }
    } else if at_least(valid, total, 30) {
        Rgb { red: 255, green: 50, blue: 0 }
    } else if at_least(valid, total, 10) {
        Rgb { red: 255, green: 0, blue: 50 }
    } else if valid > 0 {
        Rgb { red: 200, green: 0, blue: 0 }
    } else {
        Rgb { red: 150, green: 0, blue: 0 }
    }
}

fn reaches(valid: usize, total: usize, percent: u8) -> (b: bool)
    ensures
        b == at_least(valid as int, total as int, percent as int),
{
    assert(valid * 100 <= u128::MAX && percent * total <= u128::MAX) by (nonlinear_arith)
        requires
            valid <= usize::MAX,
            total <= usize::MAX,
            percent <= 255,
            usize::MAX <= u64::MAX,
    ;
    (valid as u128) * 100 >= (percent as u128) * (total as u128)
}

/// The quality score, from 0 for all healthy to 9 for almost none or none.
pub fn get_quality_score(valid: usize, total: usize) -> (score: u8)
    ensures
        score == quality_score(valid as int, total as int),
        score <= 9,
{
    if reaches(valid, total, 100) {
        0
    } else if reaches(valid, total, 95) {
        1
    } else if reaches(valid, total, 90) {
        2
    } else if reaches(valid, total, 80) {
        3
    } else if reaches(valid, total, 70) {
        4
    } else if reaches(valid, total, 60) {
        5
    } else if reaches(valid, total, 50) {
        6
    } else if reaches(valid, total, 30) {
        7
    } else if reaches(valid, total, 10) {
        8
    } else {
        9
    }
}

/// The colour that goes with a share of healthy records.
pub fn get_quality_color(valid: usize, total: usize) -> (color: Rgb)
    ensures
        color == quality_color(valid as int, total as int),
{
    if reaches(valid, total, 100) {
        Rgb { red: 0, green: 255, blue: 0 }
    } else if reaches(valid, total, 95) {
        Rgb { red: 50, green: 255, blue: 50 }
    } else if reaches(valid, total, 90) {
        Rgb { red: 100, green: 255, blue: 100 }
    } else if reaches(valid, total, 80) {
        Rgb { red: 200, green: 255, blue: 100 }
    } else if reaches(valid, total, 70) {
        Rgb { red: 255, green: 255, blue: 0 }
    } else if reaches(valid, total, 60) {
        Rgb { red: 255, green: 200, blue: 0 }
    } else if reaches(valid, total, 50) {
        Rgb { red: 255, green: 150, blue: 0 }
    } else if reaches(valid, total, 40) {
        Rgb { red: 255, green: 100, blue: 0 }
    } else if reaches(valid, total, 30) {
        Rgb { red: 255, green: 50, blue: 0 }
    } else if reaches(valid, total, 10) {
        Rgb { red: 255, green: 0, blue: 50 }
    } else if valid > 0 {
        Rgb { red: 200, green: 0, blue: 0 }
    } else {
        Rgb { red: 150, green: 0, blue: 0 }
    }
}

/// The number of records that one pixel stands for: the records spread over
/// the pixels, rounded up, and at least one.
pub open spec fn per_pixel(records: int, pixels: int) -> int {
    if pixels > 0 && records > 0 {
        (records + pixels - 1) / pixels
    } else {
        1
    }
}

/// The number of records that one pixel of a canvas of `pixels` pixels
/// stands for.
pub fn entries_per_pixel(records: usize, pixels: usize) -> (n: usize)
    ensures
        n == per_pixel(records as int, pixels as int),
        n >= 1,
        pixels > 0 ==> n * pixels >= records,
{
    if pixels == 0 || records == 0 {
        return 1;
    }
    let whole = records / pixels;
    assert(whole + 1 <= records || records % pixels == 0) by (nonlinear_arith)
        requires
            pixels > 0,
            records > 0,
            whole == records / pixels,
    ;
    let n = if records % pixels == 0 {
        whole
    } else {
        whole + 1
    };
    proof {
        let r = records as int;
        let p = pixels as int;
        assert(r == p * (r / p) + r % p && 0 <= r % p < p) by (nonlinear_arith)
            requires
                p > 0,
                r >= 0,
        ;
        if r % p == 0 {
            assert((r + p - 1) / p == r / p) by (nonlinear_arith)
                requires
                    p > 0,
                    r >= 0,
                    r == p * (r / p),
            ;
            assert(r / p >= 1) by (nonlinear_arith)
                requires
                    p > 0,
                    r > 0,
                    r == p * (r / p),
            ;
            assert((r / p) * p >= r) by (nonlinear_arith)
                requires
                    r == p * (r / p),
            ;
        } else {
            assert((r + p - 1) / p == r / p + 1) by (nonlinear_arith)
                requires
                    p > 0,
                    r >= 0,
                    r == p * (r / p) + r % p,
                    0 < r % p < p,
            ;
            assert((r / p + 1) * p >= r) by (nonlinear_arith)
                requires
                    p > 0,
                    r == p * (r / p) + r % p,
                    0 < r % p < p,
            ;
            assert(r / p >= 0) by (nonlinear_arith)
                requires
                    p > 0,
                    r >= 0,
            ;
        }
    }
    n
}

/// The score of pixel `pixel` where each pixel stands for `each` records:
/// the quality of the records `pixel * each ..` as far as there are any, and
/// `EMPTY_PIXEL` where there are none.
pub open spec fn pixel_score(statuses: Seq<bool>, pixel: int, each: int) -> u8 {
    let start = pixel * each;
    if start >= statuses.len() {
        EMPTY_PIXEL
    } else {
        let end = if start + each < statuses.len() {
            start + each
        } else {
            statuses.len() as int
        };
        quality_score(count_healthy(statuses.subrange(start, end)) as int, end - start)
    }
}

/// The colour of pixel `pixel` where each pixel stands for `each` records:
/// the colour of the quality of its records, and black where it has none.
pub open spec fn pixel_color(statuses: Seq<bool>, pixel: int, each: int) -> Rgb {
    let start = pixel * each;
    if start >= statuses.len() {
        Rgb { red: 0, green: 0, blue: 0 }
    } else {
        let end = if start + each < statuses.len() {
            start + each
        } else {
            statuses.len() as int
        };
        quality_color(count_healthy(statuses.subrange(start, end)) as int, end - start)
    }
}

/// The records that a pixel stands for: from `pixel * each`, `each` of them
/// or as many as are left.
pub open spec fn pixel_end(len: int, pixel: int, each: int) -> int {
    if pixel * each + each < len {
        pixel * each + each
    } else {
        len
    }
}

/// Counts the records of a pixel and the healthy ones among them; nothing
/// for a pixel that stands for no record.
fn count_run(statuses: &Vec<bool>, pixel: usize, each: usize) -> (r: Option<(usize, usize)>)
    requires
        each >= 1,
    ensures
        match r {
            None => pixel * each >= statuses@.len(),
            Some((valid, total)) => pixel * each < statuses@.len() && total == pixel_end(
                statuses@.len() as int,
                pixel as int,
                each as int,
            ) - pixel * each && valid == count_healthy(
                statuses@.subrange(
                    pixel * each,
                    pixel_end(statuses@.len() as int, pixel as int, each as int),
                ),
            ) && valid <= total,
        },
{
    let len = statuses.len();
    let start = match pixel.checked_mul(each) {
        Some(start) => start,
        None => {
            return None;
        },
    };
    if start >= len {
        return None;
    }
    let end = if len - start > each {
        start + each
    } else {
        len
    };
    let mut valid: usize = 0;
    let mut i: usize = start;
    assert(statuses@.subrange(start as int, start as int) =~= Seq::<bool>::empty());
    while i < end
        invariant
            start <= i <= end <= len,
            len == statuses@.len(),
            valid == count_healthy(statuses@.subrange(start as int, i as int)),
            valid <= i - start,
        decreases end - i,
    {
        proof {
            assert(statuses@.subrange(start as int, i + 1).drop_last() =~= statuses@.subrange(
                start as int,
                i as int,
            ));
        }
        if statuses[i] {
            valid += 1;
        }
        i += 1;
    }
    Some((valid, end - start))
}

/// The score of one pixel.
pub fn pixel_quality(statuses: &Vec<bool>, pixel: usize, each: usize) -> (score: u8)
    requires
        each >= 1,
    ensures
        score == pixel_score(statuses@, pixel as int, each as int),
        score <= EMPTY_PIXEL,
{
    match count_run(statuses, pixel, each) {
        Some((valid, total)) => get_quality_score(valid, total),
        None => EMPTY_PIXEL,
    }
}

/// The colour of one pixel.
pub fn pixel_paint(statuses: &Vec<bool>, pixel: usize, each: usize) -> (color: Rgb)
    requires
        each >= 1,
    ensures
        color == pixel_color(statuses@, pixel as int, each as int),
{
    match count_run(statuses, pixel, each) {
        Some((valid, total)) => get_quality_color(valid, total),
        None => Rgb { red: 0, green: 0, blue: 0 },
    }
}

/// The scores of the pixels of a canvas, row by row.
pub open spec fn grid_scores(statuses: Seq<bool>, pixels: int) -> Seq<u8> {
    Seq::new(
        pixels as nat,
        |i: int| pixel_score(statuses, i, per_pixel(statuses.len() as int, pixels)),
    )
}

/// The scores of all pixels of a canvas of `width` by `height`, row by row.
/// A canvas too large to count has none.
pub fn health_grid(statuses: &Vec<bool>, width: usize, height: usize) -> (scores: Vec<u8>)
    ensures
        width * height <= usize::MAX ==> scores@ == grid_scores(statuses@, width * height),
        width * height > usize::MAX ==> scores@.len() == 0,
{
    let pixels = match width.checked_mul(height) {
        Some(pixels) => pixels,
        None => {
            return Vec::new();
        },
    };
    let each = entries_per_pixel(statuses.len(), pixels);
    let mut scores: Vec<u8> = Vec::new();
    let mut i: usize = 0;
    while i < pixels
        invariant
            i <= pixels,
            each >= 1,
            each == per_pixel(statuses@.len() as int, pixels as int),
            scores@.len() == i,
            forall|j: int|
                0 <= j < i ==> #[trigger] scores@[j] == pixel_score(statuses@, j, each as int),
        decreases pixels - i,
    {
        scores.push(pixel_quality(statuses, i, each));
        i += 1;
    }
    assert(scores@ =~= grid_scores(statuses@, pixels as int));
    scores
}

/// Whether pixel `pixel` of a canvas of the given width starts a region: its
/// score differs from that of the pixel above and from that of the pixel to
/// its left, where those exist. A canvas without width has no regions.
pub open spec fn region_start(scores: Seq<u8>, pixel: int, width: int, quality: u8) -> bool {
    if width <= 0 {
        false
    } else {
        let x = pixel % width;
        let y = pixel / width;
        let above_different = y == 0 || (y - 1) * width + x >= scores.len() || scores[(y - 1)
            * width + x] != quality;
        let left_different = x == 0 || pixel - 1 >= scores.len() || scores[pixel - 1] != quality;
        above_different && left_different
    }
}

/// Tests whether a pixel is the top left corner of a region of one score,
/// where the score is printed.
pub fn is_region_start(scores: &Vec<u8>, pixel: usize, width: usize, quality: u8) -> (b: bool)
    ensures
        b == region_start(scores@, pixel as int, width as int, quality),
{
    if width == 0 {
        return false;
    }
    let x = pixel % width;
    let y = pixel / width;
    proof {
        let p = pixel as int;
        let w = width as int;
        assert(p == w * (p / w) + p % w && 0 <= p % w < w) by (nonlinear_arith)
            requires
                w > 0,
                p >= 0,
        ;
        let yi = y as int;
        let xi = x as int;
        assert(yi * w + xi == p) by (nonlinear_arith)
            requires
                p == w * (p / w) + p % w,
                yi == p / w,
                xi == p % w,
        ;
        if yi > 0 {
            assert((yi - 1) * w + xi == p - w) by (nonlinear_arith)
                requires
                    yi * w + xi == p,
            ;
            assert(p >= w) by (nonlinear_arith)
                requires
                    yi * w + xi == p,
                    yi >= 1,
                    xi >= 0,
                    w > 0,
            ;
        }
    }
    let above_different = if y == 0 {
        true
    } else {
        let above = pixel - width;
        above >= scores.len() || scores[above] != quality
    };
    let left_different = if x == 0 {
        true
    } else {
        let left = pixel - 1;
        left >= scores.len() || scores[left] != quality
    };
    above_different && left_different
}

/// The highest score whose colour is bright, so that its number is printed
/// in black.
pub const BRIGHT_SCORES: u8 = 2;

/// One pixel of the health canvas.
#[derive(Clone, Copy, Debug, PartialEq, Eq, Structural)]
pub struct HealthPixel {
    /// The score of the records of the pixel, or `EMPTY_PIXEL`.
    pub score: u8,
    /// The colour of the pixel.
    pub color: Rgb,
    /// Whether the score is printed on the pixel.
    pub labelled: bool,
    /// Whether the score is printed in black, or else in white.
    pub dark_label: bool,
}

/// Pixel `pixel` of a canvas with the given scores: its score and colour;
/// the score is printed where a region of one score begins, in black on the
/// bright colours.
pub open spec fn canvas_pixel(
    statuses: Seq<bool>,
    scores: Seq<u8>,
    pixel: int,
    width: int,
    each: int,
) -> HealthPixel {
    HealthPixel {
        score: scores[pixel],
        color: pixel_color(statuses, pixel, each),
        labelled: scores[pixel] != EMPTY_PIXEL && region_start(scores, pixel, width, scores[pixel]),
        dark_label: scores[pixel] <= BRIGHT_SCORES,
    }
}

/// The pixels of a canvas of `width` by `height`, row by row.
pub open spec fn canvas_pixels(statuses: Seq<bool>, width: int, height: int) -> Seq<HealthPixel> {
    let scores = grid_scores(statuses, width * height);
    Seq::new(
        (width * height) as nat,
        |i: int|
            canvas_pixel(statuses, scores, i, width, per_pixel(statuses.len() as int, width * height)),
    )
}

/// Works out the pixels of a canvas of `width` by `height`, row by row. A
/// canvas too large to count has none.
pub fn health_canvas(statuses: &Vec<bool>, width: usize, height: usize) -> (pixels: Vec<
    HealthPixel,
>)
    ensures
        width * height <= usize::MAX ==> pixels@ == canvas_pixels(
            statuses@,
            width as int,
            height as int,
        ),
        width * height > usize::MAX ==> pixels@.len() == 0,
{
    let count = match width.checked_mul(height) {
        Some(count) => count,
        None => {
            return Vec::new();
        },
    };
    let scores = health_grid(statuses, width, height);
    let each = entries_per_pixel(statuses.len(), count);
    let mut pixels: Vec<HealthPixel> = Vec::new();
    let mut i: usize = 0;
    while i < count
        invariant
            i <= count,
            count == width * height,
            each >= 1,
            each == per_pixel(statuses@.len() as int, count as int),
            scores@ == grid_scores(statuses@, count as int),
            pixels@.len() == i,
            forall|j: int|
                0 <= j < i ==> #[trigger] pixels@[j] == canvas_pixel(
                    statuses@,
                    scores@,
                    j,
                    width as int,
                    each as int,
                ),
        decreases count - i,
    {
        let score = scores[i];
        pixels.push(
            HealthPixel {
                score,
                color: pixel_paint(statuses, i, each),
                labelled: score != EMPTY_PIXEL && is_region_start(&scores, i, width, score),
                dark_label: score <= BRIGHT_SCORES,
            },
        );
        i += 1;
    }
    assert(pixels@ =~= canvas_pixels(statuses@, width as int, height as int));
    pixels
}

} // verus!
