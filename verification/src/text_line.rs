//! Short lines of ASCII text in a fixed-capacity buffer, and the decimal
//! rendering of the readings' counters.

use vstd::prelude::*;

verus! {

/// Number of bytes a line can hold.
pub const LINE_CAPACITY: usize = 128;

/// A line of ASCII text held in a `heapless::String` of `LINE_CAPACITY`
/// bytes. The string is private and is reached only through `line_new`,
/// `line_push` and `line_as_str`, so it is only ever built from ASCII
/// characters and holds as many bytes as it has characters.
#[verifier::external_body]
#[derive(Debug)]
pub struct TextLine {
    buffer: heapless::String<LINE_CAPACITY>,
}

/// The characters that the string of a line holds, first to last.
pub uninterp spec fn line_text(line: TextLine) -> Seq<char>;

/// `c` is one of the 128 ASCII characters.
pub open spec fn is_ascii_char(c: char) -> bool {
    (c as u32) < 128
}

/// Every character of `text` is ASCII.
pub open spec fn is_ascii_text(text: Seq<char>) -> bool {
    forall|i: int| 0 <= i < text.len() ==> is_ascii_char(#[trigger] text[i])
}

/// The character for the decimal digit `d`.
pub open spec fn digit_char(d: nat) -> char {
    (48 + d) as char
}

/// The decimal numeral of `n`: no sign, no padding, no leading zero.
pub open spec fn decimal(n: nat) -> Seq<char>
    decreases n,
{
    if n < 10 {
        seq![digit_char(n)]
    } else {
        decimal(n / 10).push(digit_char(n % 10))
    }
}

/// Makes a line with `heapless::String::new`, which returns an empty
/// string.
#[verifier::external_body]
fn line_new() -> (line: TextLine)
    ensures
        line_text(line) == Seq::<char>::empty(),
{
    TextLine { buffer: heapless::String::new() }
}

/// Appends `c` with `heapless::String::push`. For a character of one
/// byte, which every ASCII character is, `push` appends the byte and
/// returns `Ok` if the string holds fewer bytes than its capacity, and
/// returns an error and leaves the string as it was otherwise.
#[verifier::external_body]
fn line_push(line: &mut TextLine, c: char) -> (pushed: bool)
    requires
        is_ascii_char(c),
    ensures
        pushed == (line_text(*old(line)).len() < LINE_CAPACITY),
        pushed ==> line_text(*final(line)) == line_text(*old(line)).push(c),
        !pushed ==> line_text(*final(line)) == line_text(*old(line)),
{
    line.buffer.push(c).is_ok()
}

/// Borrows the text with `heapless::String::as_str`, which returns the
/// string's whole contents.
#[verifier::external_body]
fn line_as_str(line: &TextLine) -> (text: &str)
    ensures
        text@ == line_text(*line),
{
    line.buffer.as_str()
}

impl View for TextLine {
    type V = Seq<char>;

    open spec fn view(&self) -> Seq<char> {
        line_text(*self)
    }
}

/// A numeral of a 16-bit number has between one and five digits, all of
/// them ASCII.
pub proof fn lemma_decimal_u16(value: u16)
    ensures
        1 <= decimal(value as nat).len() <= 5,
        is_ascii_text(decimal(value as nat)),
{
    reveal_with_fuel(decimal, 6);
}

impl TextLine {
    /// An empty line.
    pub fn new() -> (line: Self)
        ensures
            line@ == Seq::<char>::empty(),
    {
        line_new()
    }

    /// The line as a string slice.
    pub fn as_str(&self) -> (text: &str)
        ensures
            text@ == self@,
    {
        line_as_str(self)
    }

    /// Appends `c` if it is an ASCII character and the line has room for
    /// it; says whether it did.
    pub fn push(&mut self, c: char) -> (pushed: bool)
        ensures
            pushed == (is_ascii_char(c) && old(self)@.len() < LINE_CAPACITY),
            pushed ==> final(self)@ == old(self)@.push(c),
            !pushed ==> final(self)@ == old(self)@,
    {
        if (c as u32) < 128 {
            line_push(self, c)
        } else {
            false
        }
    }

    /// Appends an ASCII text to a line that has room for it.
    pub(crate) fn push_text(&mut self, text: &str)
        requires
            is_ascii_text(text@),
            old(self)@.len() + text@.len() <= LINE_CAPACITY,
        ensures
            final(self)@ == old(self)@ + text@,
    {
        let count = text.unicode_len();
        let mut i: usize = 0;
        while i < count
            invariant
                count == text@.len(),
                i <= count,
                is_ascii_text(text@),
                old(self)@.len() + text@.len() <= LINE_CAPACITY,
                self@ == old(self)@ + text@.take(i as int),
            decreases count - i,
        {
            let c = text.get_char(i);
            let _ = self.push(c);
            proof {
                assert(text@.take(i + 1) =~= text@.take(i as int).push(c));
            }
            i = i + 1;
        }
        proof {
            assert(text@.take(count as int) =~= text@);
        }
    }

    /// Appends the decimal numeral of `value`.
    pub(crate) fn push_decimal(&mut self, value: u16)
        requires
            old(self)@.len() + decimal(value as nat).len() <= LINE_CAPACITY,
        ensures
            final(self)@ == old(self)@ + decimal(value as nat),
        decreases value,
    {
        if value >= 10 {
            self.push_decimal(value / 10);
        }
        let digit: u8 = (value % 10) as u8;
        let c: char = (48u8 + digit) as char;
        let _ = self.push(c);
        proof {
            assert(self@ =~= old(self)@ + decimal(value as nat));
        }
    }
}

} // verus!
