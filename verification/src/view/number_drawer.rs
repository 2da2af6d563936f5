//! Large digits for the volume overlay, drawn with box characters.

use crate::text::push_char;
use vstd::prelude::*;
use vstd::string::{StrSliceExecFns, StringExecFns};

verus! {

/// The digit 0, large.
pub const ZERO: &'static str = "\n╔═══╗\n║╔═╗║\n║║ ║║\n║║ ║║\n║╚═╝║\n╚═══╝\n";

/// The digit 1, large.
pub const ONE: &'static str = "\n  ╔╗ \n ╔╝║ \n ╚╗║ \n  ║║ \n ╔╝╚╗\n ╚══╝\n";

/// The digit 2, large.
pub const TWO: &'static str = "\n╔═══╗\n║╔═╗║\n╚╝╔╝║\n╔═╝╔╝\n║║╚═╗\n╚═══╝\n";

/// The digit 3, large.
pub const THREE: &'static str = "\n╔═══╗\n║╔═╗║\n╚╝╔╝║\n╔╗╚╗║\n║╚═╝║\n╚═══╝\n";

/// The digit 4, large.
pub const FOUR: &'static str = "\n╔╗ ╔╗\n║║ ║║\n║╚═╝║\n╚══╗║\n   ║║\n   ╚╝\n\n";

/// The digit 5, large.
pub const FIVE: &'static str = "\n╔═══╗\n║╔══╝\n║╚══╗\n╚══╗║\n╔══╝║\n╚═══╝\n\n";

/// The digit 6, large.
pub const SIX: &'static str = "\n╔═══╗\n║╔══╝\n║╚══╗\n║╔═╗║\n║╚═╝║\n╚═══╝\n\n";

/// The digit 7, large.
pub const SEVEN: &'static str = "\n╔═══╗\n║╔═╗║\n╚╝╔╝║\n  ║╔╝\n  ║║ \n  ╚╝ \n\n";

/// The digit 8, large.
pub const EIGHT: &'static str = "\n╔═══╗\n║╔═╗║\n║╚═╝║\n║╔═╗║\n║╚═╝║\n╚═══╝\n\n";

/// The digit 9, large.
pub const NINE: &'static str = "\n╔═══╗\n║╔═╗║\n║╚═╝║\n╚══╗║\n╔══╝║\n╚═══╝\n\n";

/// What is drawn for a character that is no digit, large.
pub const OWL: &'static str = "\n  ,_,  \n (.,.) \n (   ) \n--\"-\"---\n";

/// The drawer of large numbers.
pub struct NumberDrawer;

/// The text that is drawn for a character.
pub open spec fn glyph(c: char) -> Seq<char> {
    if c == '0' {
        ZERO@
    } else if c == '1' {
        ONE@
    } else if c == '2' {
        TWO@
    } else if c == '3' {
        THREE@
    } else if c == '4' {
        FOUR@
    } else if c == '5' {
        FIVE@
    } else if c == '6' {
        SIX@
    } else if c == '7' {
        SEVEN@
    } else if c == '8' {
        EIGHT@
    } else if c == '9' {
        NINE@
    } else {
        OWL@
    }
}

/// The character is one of the digits `0` to `9`.
pub open spec fn is_digit(c: char) -> bool {
    '0' <= c <= '9'
}

/// The lines of the first `k` characters of a text: those that a line feed
/// has ended, and the characters of the line that is still open.
pub open spec fn lines_upto(text: Seq<char>, k: nat) -> (Seq<Seq<char>>, Seq<char>)
    decreases k,
{
    if k == 0 {
        (seq![], seq![])
    } else {
        let (done, open) = lines_upto(text, (k - 1) as nat);
        if text[k - 1] == '\n' {
            (done.push(open), seq![])
        } else {
            (done, open.push(text[k - 1]))
        }
    }
}

/// The lines of a text. A line feed ends a line; the characters behind the
/// last line feed are a line too, if there are any.
pub open spec fn lines(text: Seq<char>) -> Seq<Seq<char>> {
    let (done, open) = lines_upto(text, text.len());
    if open.len() > 0 {
        done.push(open)
    } else {
        done
    }
}

/// The lines of a vector of texts as values.
pub open spec fn line_views(lines: Seq<String>) -> Seq<Seq<char>> {
    lines.map_values(|line: String| line@)
}

/// The place behind the last character of a number that is drawn, looking
/// from place `from` on: the characters are drawn up to the first that is no
/// digit, and that one is drawn too.
pub open spec fn drawn_end(number: Seq<char>, from: nat) -> nat
    decreases number.len() - from,
{
    if from >= number.len() {
        number.len()
    } else if !is_digit(number[from as int]) {
        from + 1
    } else {
        drawn_end(number, from + 1)
    }
}

/// The number of lines of the picture: as many as the first character has.
pub open spec fn picture_height(number: Seq<char>) -> nat {
    lines(glyph(number[0])).len()
}

/// A number can be drawn where it is not empty and none of the characters
/// that are drawn has fewer lines than the first.
pub open spec fn drawable(number: Seq<char>) -> bool {
    &&& number.len() > 0
    &&& forall|k: int|
        0 <= k < drawn_end(number, 0) ==> (#[trigger] lines(glyph(number[k]))).len() >= picture_height(number)
}

/// Line `index` of the picture, as far as the first `upto` characters make
/// it: their lines of that index, side by side.
pub open spec fn row(number: Seq<char>, index: int, upto: nat) -> Seq<char>
    decreases upto,
{
    if upto == 0 {
        seq![]
    } else {
        row(number, index, (upto - 1) as nat) + lines(glyph(number[upto - 1]))[index]
    }
}

/// The first `rows` lines of the picture, each with a line feed behind it.
pub open spec fn picture_upto(number: Seq<char>, rows: nat) -> Seq<char>
    decreases rows,
{
    if rows == 0 {
        seq![]
    } else {
        picture_upto(number, (rows - 1) as nat) + row(
            number,
            rows - 1,
            drawn_end(number, 0),
        ) + seq!['\n']
    }
}

/// The picture of a number. A picture without lines is one line feed.
pub open spec fn picture(number: Seq<char>) -> Seq<char> {
    if picture_height(number) == 0 {
        seq!['\n']
    } else {
        picture_upto(number, picture_height(number))
    }
}

/// Splits a text into its lines.
pub fn split_lines(text: &str) -> (r: Vec<String>)
    ensures
        line_views(r@) == lines(text@),
{
    let n = text.unicode_len();
    let mut done: Vec<String> = Vec::new();
    let mut open = String::new();
    let mut i: usize = 0;
    while i < n
        invariant
            i <= n,
            n == text@.len(),
            (line_views(done@), open@) == lines_upto(text@, i as nat),
        decreases n - i,
    {
        let c = text.get_char(i);
        if c == '\n' {
            assert(line_views(done@.push(open)) =~= line_views(done@).push(open@));
            done.push(open);
            open = String::new();
        } else {
            push_char(&mut open, c);
        }
        i += 1;
    }
    if open.as_str().unicode_len() > 0 {
        assert(line_views(done@.push(open)) =~= line_views(done@).push(open@));
        done.push(open);
    }
    done
}

fn is_ascii_digit(c: char) -> (r: bool)
    ensures
        r == is_digit(c),
{
    '0' <= c && c <= '9'
}

impl NumberDrawer {
    /// Tells whether a number can be drawn.
    pub fn can_draw(number: &str) -> (r: bool)
        ensures
            r == drawable(number@),
    {
        let n = number.unicode_len();
        if n == 0 {
            return false;
        }
        let first = Self::enlarge(&number.get_char(0));
        let height = split_lines(first.as_str()).len();
        let mut i: usize = 0;
        let mut open = true;
        while i < n && open
            invariant
                i <= n,
                n == number@.len(),
                n > 0,
                height == picture_height(number@),
                open ==> drawn_end(number@, 0) == drawn_end(number@, i as nat),
                !open ==> drawn_end(number@, 0) == i,
                forall|k: int|
                    0 <= k < i ==> (#[trigger] lines(glyph(number@[k]))).len() >= height,
            decreases
                    n - i + (if open {
                        1int
                    } else {
                        0int
                    }),
        {
            let digit = number.get_char(i);
            let text = Self::enlarge(&digit);
            let rows = split_lines(text.as_str());
            assert(line_views(rows@).len() == rows@.len());
            if rows.len() < height {
                assert(i < drawn_end(number@, 0)) by {
                    lemma_drawn_end_bounds(number@, i as nat);
                }
                return false;
            }
            if !is_ascii_digit(digit) {
                open = false;
            }
            i += 1;
        }
        true
    }

    /// Draws a number with large digits: the pictures of its characters side
    /// by side, line by line, each line with a line feed behind it. The
    /// characters are drawn up to the first that is no digit, and that one
    /// is drawn too.
    pub fn draw(number: &str) -> (r: String)
        requires
            drawable(number@),
        ensures
            r@ == picture(number@),
    {
        let n = number.unicode_len();
        let mut big_numbers: Vec<Vec<String>> = Vec::new();
        let mut i: usize = 0;
        let mut open = true;
        while i < n && open
            invariant
                i <= n,
                n == number@.len(),
                n > 0,
                i == 0 ==> open,
                big_numbers@.len() == i,
                forall|k: int|
                    0 <= k < i ==> line_views((#[trigger] big_numbers@[k])@) == lines(
                        glyph(number@[k]),
                    ),
                open ==> drawn_end(number@, 0) == drawn_end(number@, i as nat),
                !open ==> drawn_end(number@, 0) == i,
            decreases
                    n - i + (if open {
                        1int
                    } else {
                        0int
                    }),
        {
            let digit = number.get_char(i);
            let big_digit = Self::enlarge(&digit);
            big_numbers.push(split_lines(big_digit.as_str()));
            if !is_ascii_digit(digit) {
                open = false;
            }
            i += 1;
        }
        let count = big_numbers.len();
        assert(count == drawn_end(number@, 0) && count > 0);
        let height = big_numbers[0].len();
        assert(line_views(big_numbers@[0]@).len() == height);
        let mut picture = String::new();
        let mut index: usize = 0;
        while index < height
            invariant
                index <= height,
                height == picture_height(number@),
                drawable(number@),
                count == big_numbers@.len(),
                count == drawn_end(number@, 0),
                forall|k: int|
                    0 <= k < count ==> line_views((#[trigger] big_numbers@[k])@) == lines(
                        glyph(number@[k]),
                    ),
                picture@ == picture_upto(number@, index as nat),
            decreases height - index,
        {
            let ghost above = picture@;
            let mut at: usize = 0;
            while at < count
                invariant
                    at <= count,
                    index < height,
                    height == picture_height(number@),
                    drawable(number@),
                    count == big_numbers@.len(),
                    count == drawn_end(number@, 0),
                    forall|k: int|
                        0 <= k < count ==> line_views((#[trigger] big_numbers@[k])@) == lines(
                            glyph(number@[k]),
                        ),
                    picture@ == above + row(number@, index as int, at as nat),
                decreases count - at,
            {
                let glyph_lines = &big_numbers[at];
                proof {
                    let views = line_views(big_numbers@[at as int]@);
                    assert(views == lines(glyph(number@[at as int])));
                    assert(views.len() == glyph_lines@.len());
                    assert(views[index as int] == glyph_lines@[index as int]@);
                }
                picture.append(glyph_lines[index].as_str());
                assert(picture@ =~= above + row(number@, index as int, (at + 1) as nat));
                at += 1;
            }
            push_char(&mut picture, '\n');
            assert(picture@ =~= picture_upto(number@, (index + 1) as nat));
            index += 1;
        }
        if height == 0 {
            push_char(&mut picture, '\n');
            assert(picture@ =~= seq!['\n']);
        }
        picture
    }

    /// Returns the text that is drawn for a character: a large digit, or an
    /// owl for a character that is no digit.
    pub fn enlarge(digit: &char) -> (r: String)
        ensures
            r@ == glyph(*digit),
    {
        let c = *digit;
        if c == '0' {
            ZERO.to_owned()
        } else if c == '1' {
            ONE.to_owned()
        } else if c == '2' {
            TWO.to_owned()
        } else if c == '3' {
            THREE.to_owned()
        } else if c == '4' {
            FOUR.to_owned()
        } else if c == '5' {
            FIVE.to_owned()
        } else if c == '6' {
            SIX.to_owned()
        } else if c == '7' {
            SEVEN.to_owned()
        } else if c == '8' {
            EIGHT.to_owned()
        } else if c == '9' {
            NINE.to_owned()
        } else {
            OWL.to_owned()
        }
    }
}

/// The characters that are drawn are characters of the number: the end lies
/// behind the place from which it is looked for, and not behind the number.
pub proof fn lemma_drawn_end_bounds(number: Seq<char>, from: nat)
    requires
        from < number.len(),
    ensures
        from < drawn_end(number, from) <= number.len(),
    decreases number.len() - from,
{
    if is_digit(number[from as int]) {
        if from + 1 < number.len() {
            lemma_drawn_end_bounds(number, from + 1);
        } else {
            assert(drawn_end(number, from + 1) == number.len());
        }
    }
}

} // verus!
