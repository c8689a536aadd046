//! The glyph renderer: grayscale samples to text, and text to a layout of
//! lines on a canvas.

use vstd::prelude::*;

verus! {

/// Number of glyphs in the palette.
pub const PALETTE_LEN: usize = 10;

/// Vertical distance between the baselines of two lines, in pixels.
pub const LINE_PITCH: i32 = 10;

/// The glyphs, from darkest to brightest.
pub open spec fn palette() -> Seq<char> {
    seq![' ', '.', ':', '-', '=', '+', '*', '#', '%', '@']
}

/// The palette position of a grayscale sample: the sample scaled from
/// `0..=255` down to the palette, rounded towards the darker glyph.
pub open spec fn glyph_index_spec(value: u8) -> int {
    let scaled = (value as int * (PALETTE_LEN as int - 1)) / 255;
    if scaled < PALETTE_LEN as int {
        scaled
    } else {
        PALETTE_LEN as int - 1
    }
}

/// The glyph that stands for a grayscale sample.
pub open spec fn glyph_of(value: u8) -> char {
    palette()[glyph_index_spec(value)]
}

/// The palette position of a grayscale sample.
pub fn glyph_index(value: u8) -> (index: usize)
    ensures
        index as int == glyph_index_spec(value),
        index < PALETTE_LEN,
{
    let last: usize = PALETTE_LEN - 1;
    assert(value as int * last as int <= 255 * 9) by (nonlinear_arith)
        requires
            value <= 255,
            last == 9,
    ;
    let scaled: usize = (value as usize * last) / 255;
    if scaled < PALETTE_LEN {
        scaled
    } else {
        PALETTE_LEN - 1
    }
}

/// The glyph at a palette position.
pub fn palette_glyph(index: usize) -> (glyph: char)
    requires
        index < PALETTE_LEN,
    ensures
        glyph == palette()[index as int],
{
    if index == 0 {
        ' '
    } else if index == 1 {
        '.'
    } else if index == 2 {
        ':'
    } else if index == 3 {
        '-'
    } else if index == 4 {
        '='
    } else if index == 5 {
        '+'
    } else if index == 6 {
        '*'
    } else if index == 7 {
        '#'
    } else if index == 8 {
        '%'
    } else {
        '@'
    }
}

/// The glyph that stands for a grayscale sample.
pub fn get_ascii_char(value: u8) -> (glyph: char)
    ensures
        glyph == glyph_of(value),
{
    palette_glyph(glyph_index(value))
}

/// The palette position never leaves the palette and never falls as the
/// sample grows brighter.
pub proof fn glyph_index_monotone(darker: u8, brighter: u8)
    requires
        darker <= brighter,
    ensures
        0 <= glyph_index_spec(darker) <= glyph_index_spec(brighter) < PALETTE_LEN,
{
}

/// Black maps to the darkest glyph and white to the brightest.
pub proof fn glyph_index_ends()
    ensures
        glyph_index_spec(0) == 0,
        glyph_index_spec(255) == PALETTE_LEN - 1,
        glyph_of(0) == ' ',
        glyph_of(255) == '@',
{
}

/// A grayscale image: `rows` by `cols` samples, row after row from the top
/// left. A sample that `pixels` does not hold reads as black.
pub struct GrayImage {
    pub rows: usize,
    pub cols: usize,
    pub pixels: Vec<u8>,
}

/// The text of an image: one line for each row, one glyph for each column.
pub struct GlyphBlock {
    pub lines: Vec<String>,
}

/// Where one line of a block is drawn: the left end of its baseline.
#[derive(Clone, Copy, Debug, PartialEq, Eq)]
pub struct TextPlacement {
    pub line: usize,
    pub x: i32,
    pub y: i32,
}

/// `String::push` of std: the text grows by the one character at its end.
#[verifier::external_body]
fn push_glyph(text: &mut String, glyph: char)
    ensures
        final(text)@ == old(text)@.push(glyph),
{
    text.push(glyph)
}

/// The lines joined into one text, a line feed between each two.
pub open spec fn join_lines(lines: Seq<Seq<char>>) -> Seq<char>
    decreases lines.len(),
{
    if lines.len() == 0 {
        Seq::empty()
    } else if lines.len() == 1 {
        lines[0]
    } else {
        join_lines(lines.drop_last()) + seq!['\n'] + lines.last()
    }
}

/// The lines one after another, each closed by a line feed.
pub open spec fn terminate_lines(lines: Seq<Seq<char>>) -> Seq<char>
    decreases lines.len(),
{
    if lines.len() == 0 {
        Seq::empty()
    } else {
        terminate_lines(lines.drop_last()) + lines.last() + seq!['\n']
    }
}

/// How many of the positions 0, `step`, twice `step` and so on lie below
/// `len`.
pub open spec fn sampled_count(len: int, step: int) -> int {
    if len <= 0 {
        0
    } else {
        (len - 1) / step + 1
    }
}

/// The baseline of the line at position `line`, counted from the top.
pub open spec fn baseline_spec(line: int) -> int {
    (line + 1) * LINE_PITCH as int
}

impl GrayImage {
    /// The sample in row `y`, column `x`.
    pub open spec fn sample(&self, y: int, x: int) -> u8 {
        let at = y * self.cols as int + x;
        if 0 <= at < self.pixels@.len() {
            self.pixels@[at]
        } else {
            0
        }
    }

    /// The glyphs of row `y`.
    pub open spec fn glyph_row(&self, y: int) -> Seq<char> {
        Seq::new(self.cols as nat, |x: int| glyph_of(self.sample(y, x)))
    }

    /// The lines of the image's text: none where the image has no row or no
    /// column.
    pub open spec fn glyph_lines(&self) -> Seq<Seq<char>> {
        if self.rows == 0 || self.cols == 0 {
            Seq::empty()
        } else {
            Seq::new(self.rows as nat, |y: int| self.glyph_row(y))
        }
    }

    /// The glyphs of row `y` where only every `step`-th column is taken.
    pub open spec fn sampled_row(&self, y: int, step: int) -> Seq<char> {
        Seq::new(
            sampled_count(self.cols as int, step) as nat,
            |k: int| glyph_of(self.sample(y, k * step)),
        )
    }

    /// The lines of the image's text where only every `step`-th row and
    /// column is taken.
    pub open spec fn sampled_lines(&self, step: int) -> Seq<Seq<char>> {
        Seq::new(
            sampled_count(self.rows as int, step) as nat,
            |k: int| self.sampled_row(k * step, step),
        )
    }

    /// The sample in row `y`, column `x`.
    pub fn pixel_at(&self, y: usize, x: usize) -> (value: u8)
        ensures
            value == self.sample(y as int, x as int),
    {
        let len: usize = self.pixels.len();
        match y.checked_mul(self.cols) {
            Some(base) => match base.checked_add(x) {
                Some(at) => if at < len {
                    self.pixels[at]
                } else {
                    0
                },
                None => 0,
            },
            None => 0,
        }
    }

    /// The line of glyphs for row `y`.
    pub fn row_text(&self, y: usize) -> (line: String)
        ensures
            line@ == self.glyph_row(y as int),
    {
        let mut line: String = String::new();
        let mut x: usize = 0;
        while x < self.cols
            invariant
                x <= self.cols,
                line@.len() == x,
                forall|k: int| 0 <= k < x ==> line@[k] == glyph_of(self.sample(y as int, k)),
            decreases self.cols - x,
        {
            let glyph: char = get_ascii_char(self.pixel_at(y, x));
            push_glyph(&mut line, glyph);
            x = x + 1;
        }
        assert(line@ =~= self.glyph_row(y as int));
        line
    }
}

impl GrayImage {
    /// The line of glyphs for row `y`, every `step`-th column taken.
    pub fn sampled_row_text(&self, y: usize, step: usize) -> (line: String)
        requires
            step > 0,
        ensures
            line@ == self.sampled_row(y as int, step as int),
    {
        let mut line: String = String::new();
        let mut x: usize = 0;
        let mut more: bool = x < self.cols;
        let ghost mut k: int = 0;
        assert(0 * step == 0) by (nonlinear_arith);
        while more
            invariant
                step > 0,
                k >= 0,
                more ==> x as int == k * step,
                more ==> x < self.cols,
                !more ==> k == sampled_count(self.cols as int, step as int),
                line@.len() == k,
                forall|j: int|
                    0 <= j < k ==> line@[j] == glyph_of(self.sample(y as int, j * step)),
            decreases
                    self.cols - x + if more {
                        1int
                    } else {
                        0int
                    },
        {
            let glyph: char = get_ascii_char(self.pixel_at(y, x));
            push_glyph(&mut line, glyph);
            proof {
                assert((k + 1) * step == k * step + step) by (nonlinear_arith);
                if x + step >= self.cols {
                    vstd::arithmetic::div_mod::lemma_fundamental_div_mod_converse(
                        self.cols - 1,
                        step as int,
                        k,
                        self.cols - 1 - x,
                    );
                }
                k = k + 1;
            }
            match x.checked_add(step) {
                Some(next) => {
                    if next < self.cols {
                        x = next;
                    } else {
                        more = false;
                    }
                },
                None => {
                    more = false;
                },
            }
        }
        assert(line@ =~= self.sampled_row(y as int, step as int));
        line
    }
}

impl View for GlyphBlock {
    type V = Seq<Seq<char>>;

    open spec fn view(&self) -> Seq<Seq<char>> {
        Seq::new(self.lines@.len(), |i: int| self.lines@[i]@)
    }
}

impl GlyphBlock {
    /// The block as one text, a line feed between each two lines.
    pub fn text(&self) -> (text: String)
        ensures
            text@ == join_lines(self@),
    {
        let mut text: String = String::new();
        let mut i: usize = 0;
        while i < self.lines.len()
            invariant
                i <= self.lines@.len(),
                text@ == join_lines(self@.subrange(0, i as int)),
            decreases self.lines@.len() - i,
        {
            let ghost done: Seq<Seq<char>> = self@.subrange(0, i as int);
            let ghost next: Seq<Seq<char>> = self@.subrange(0, i + 1);
            proof {
                assert(next.drop_last() =~= done);
                assert(next.last() == self.lines@[i as int]@);
            }
            if i > 0 {
                push_glyph(&mut text, '\n');
            }
            text.append(self.lines[i].as_str());
            proof {
                if i == 0 {
                    assert(text@ =~= next[0]);
                } else {
                    assert(text@ =~= join_lines(done) + seq!['\n'] + next.last());
                }
            }
            i = i + 1;
        }
        assert(self@.subrange(0, i as int) =~= self@);
        text
    }
}

/// The text of a grayscale image, line by line.
pub fn to_glyph_block(image: &GrayImage) -> (block: GlyphBlock)
    ensures
        block@ == image.glyph_lines(),
        image.rows == 0 || image.cols == 0 ==> block@.len() == 0,
        image.rows > 0 && image.cols > 0 ==> block@.len() == image.rows,
{
    let mut lines: Vec<String> = Vec::new();
    if image.rows == 0 || image.cols == 0 {
        let block = GlyphBlock { lines };
        assert(block@ =~= image.glyph_lines());
        return block;
    }
    let mut y: usize = 0;
    while y < image.rows
        invariant
            y <= image.rows,
            lines@.len() == y,
            forall|k: int| 0 <= k < y ==> (#[trigger] lines@[k])@ == image.glyph_row(k),
        decreases image.rows - y,
    {
        let line: String = image.row_text(y);
        lines.push(line);
        y = y + 1;
    }
    let block = GlyphBlock { lines };
    assert(block@ =~= image.glyph_lines());
    block
}

/// The text of a grayscale image as one string, a line feed between each two
/// rows: empty where the image has no row or no column.
pub fn process_frame(image: &GrayImage) -> (text: String)
    ensures
        text@ == join_lines(image.glyph_lines()),
        image.rows == 0 || image.cols == 0 ==> text@.len() == 0,
{
    let block: GlyphBlock = to_glyph_block(image);
    block.text()
}

/// The text of a grayscale image of which only every `step`-th row and
/// column is taken, each line closed by a line feed.
pub fn sample_frame(image: &GrayImage, step: usize) -> (text: String)
    requires
        step > 0,
    ensures
        text@ == terminate_lines(image.sampled_lines(step as int)),
{
    let mut text: String = String::new();
    let mut y: usize = 0;
    let mut more: bool = y < image.rows;
    let ghost mut k: int = 0;
    let ghost mut done: Seq<Seq<char>> = Seq::empty();
    assert(0 * step == 0) by (nonlinear_arith);
    while more
        invariant
            step > 0,
            k >= 0,
            more ==> y as int == k * step,
            more ==> y < image.rows,
            !more ==> k == sampled_count(image.rows as int, step as int),
            done.len() == k,
            forall|j: int| 0 <= j < k ==> #[trigger] done[j] == image.sampled_row(j * step, step as int),
            text@ == terminate_lines(done),
        decreases
                image.rows - y + if more {
                    1int
                } else {
                    0int
                },
    {
        let line: String = image.sampled_row_text(y, step);
        text.append(line.as_str());
        push_glyph(&mut text, '\n');
        proof {
            assert((k + 1) * step == k * step + step) by (nonlinear_arith);
            if y + step >= image.rows {
                vstd::arithmetic::div_mod::lemma_fundamental_div_mod_converse(
                    image.rows - 1,
                    step as int,
                    k,
                    image.rows - 1 - y,
                );
            }
            assert(done.push(line@).drop_last() =~= done);
            assert(text@ =~= terminate_lines(done) + line@ + seq!['\n']);
            done = done.push(line@);
            k = k + 1;
        }
        match y.checked_add(step) {
            Some(next) => {
                if next < image.rows {
                    y = next;
                } else {
                    more = false;
                }
            },
            None => {
                more = false;
            },
        }
    }
    assert(done =~= image.sampled_lines(step as int));
    text
}

/// Where each line of a block goes on the canvas: at the left edge, one
/// line pitch below the line before it, the first one pitch below the top.
pub fn text_placements(block: &GlyphBlock) -> (places: Vec<TextPlacement>)
    requires
        block@.len() * LINE_PITCH as int <= i32::MAX as int,
    ensures
        places@.len() == block@.len(),
        forall|i: int|
            0 <= i < places@.len() ==> (#[trigger] places@[i]) == (TextPlacement {
                line: i as usize,
                x: 0,
                y: baseline_spec(i) as i32,
            }),
        forall|i: int| 0 <= i < places@.len() ==> baseline_spec(i) <= i32::MAX as int,
{
    let mut places: Vec<TextPlacement> = Vec::new();
    let count: usize = block.lines.len();
    let mut i: usize = 0;
    let mut y: i32 = 0;
    while i < count
        invariant
            count == block@.len(),
            count * 10 <= i32::MAX as int,
            i <= count,
            y as int == i as int * 10,
            places@.len() == i,
            forall|k: int|
                0 <= k < i ==> (#[trigger] places@[k]) == (TextPlacement {
                    line: k as usize,
                    x: 0,
                    y: baseline_spec(k) as i32,
                }),
        decreases count - i,
    {
        y = y + LINE_PITCH;
        places.push(TextPlacement { line: i, x: 0, y });
        i = i + 1;
    }
    places
}

/// An image of R rows and C columns, both above zero, that is black
/// throughout gives R lines of C glyphs, each the darkest of the palette.
pub proof fn black_image_is_darkest(image: GrayImage)
    requires
        image.rows > 0,
        image.cols > 0,
        forall|i: int| 0 <= i < image.pixels@.len() ==> image.pixels@[i] == 0,
    ensures
        image.glyph_lines().len() == image.rows,
        forall|y: int|
            0 <= y < image.rows ==> (#[trigger] image.glyph_lines()[y]).len() == image.cols,
        forall|y: int, x: int|
            0 <= y < image.rows && 0 <= x < image.cols ==> (#[trigger] image.glyph_lines()[y][x])
                == ' ',
{
    assert forall|y: int, x: int| 0 <= y < image.rows && 0 <= x < image.cols implies (
    #[trigger] image.glyph_lines()[y][x]) == ' ' by {
        assert(image.sample(y, x) == 0);
        assert(glyph_index_spec(0) == 0);
    }
}

/// Every line of an image's text has one glyph for each column, and every
/// glyph is one of the palette.
pub proof fn every_line_spans_the_columns(image: GrayImage, y: int, x: int)
    requires
        0 <= y < image.glyph_lines().len(),
        0 <= x < image.cols,
    ensures
        image.glyph_lines().len() == image.rows,
        image.glyph_lines()[y].len() == image.cols,
        palette().contains(image.glyph_lines()[y][x]),
{
    let value = image.sample(y, x);
    glyph_index_monotone(value, value);
    assert(palette()[glyph_index_spec(value)] == image.glyph_lines()[y][x]);
}

/// With a step of one every sample is taken: the sampled lines are the
/// lines of the whole image.
pub proof fn unit_step_takes_every_sample(image: GrayImage)
    requires
        image.rows > 0,
        image.cols > 0,
    ensures
        image.sampled_lines(1) == image.glyph_lines(),
{
    assert forall|y: int| 0 <= y < image.rows implies #[trigger] image.sampled_row(y, 1)
        == image.glyph_row(y) by {
        assert(image.sampled_row(y, 1) =~= image.glyph_row(y));
    }
    assert(image.sampled_lines(1) =~= image.glyph_lines());
}

/// Lines that are each closed by a line feed read as the same lines joined,
/// with one more line feed at the end.
pub proof fn closed_lines_are_joined_lines(lines: Seq<Seq<char>>)
    requires
        lines.len() > 0,
    ensures
        terminate_lines(lines) == join_lines(lines) + seq!['\n'],
    decreases lines.len(),
{
    if lines.len() == 1 {
        assert(terminate_lines(lines.drop_last()) =~= Seq::<char>::empty());
        assert(terminate_lines(lines) =~= join_lines(lines) + seq!['\n']);
    } else {
        closed_lines_are_joined_lines(lines.drop_last());
        assert(terminate_lines(lines) =~= join_lines(lines) + seq!['\n']);
    }
}

/// An image without rows or without columns gives no line and the empty
/// text.
pub proof fn degenerate_image_is_empty(image: GrayImage)
    requires
        image.rows == 0 || image.cols == 0,
    ensures
        image.glyph_lines() == Seq::<Seq<char>>::empty(),
        join_lines(image.glyph_lines()) == Seq::<char>::empty(),
{
}

} // verus!
