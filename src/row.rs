use vstd::prelude::*;
use vstd::string::*;
use vstd::utf8::encode_utf8;

verus! {

/// One line of the buffer: its text, with no line terminator stored.
pub struct Row {
    content: String,
}

impl View for Row {
    type V = Seq<char>;

    closed spec fn view(&self) -> Seq<char> {
        self.content@
    }
}

/// The first `width` characters of `s`, or all of them when `s` is shorter.
pub open spec fn clip(s: Seq<char>, width: int) -> Seq<char> {
    if s.len() <= width {
        s
    } else {
        s.take(width)
    }
}

/// Relies on `String::push`: appends the character at the end.
#[verifier::external_body]
pub(crate) fn push_char(s: &mut String, c: char)
    ensures
        final(s)@ == old(s)@.push(c),
{
    s.push(c)
}

/// The first `width` characters of `s` as a new string.
pub(crate) fn clip_string(s: &str, width: u16) -> (r: String)
    ensures
        r@ == clip(s@, width as int),
{
    let mut r = String::new();
    let mut taken: u16 = 0;
    for c in it: s.chars()
        invariant
            it.seq() == s@,
            taken as int == if it.index() <= width as int { it.index() as int } else { width as int },
            r@ == s@.take(taken as int),
    {
        if taken < width {
            proof {
                assert(s@.take(taken as int).push(c) =~= s@.take(taken as int + 1));
            }
            push_char(&mut r, c);
            taken = taken + 1;
        }
    }
    assert(r@ =~= clip(s@, width as int));
    r
}

impl Row {
    /// An empty line.
    pub fn new() -> (r: Row)
        ensures
            r@ == Seq::<char>::empty(),
    {
        Row { content: String::new() }
    }

    /// The length of the line in bytes of its UTF-8 encoding, capped at `u16::MAX`.
    pub fn get_size(&mut self) -> (r: u16)
        ensures
            *final(self) == *old(self),
            r as int == if (encode_utf8(old(self)@).len() as usize) <= u16::MAX {
                (encode_utf8(old(self)@).len() as usize) as int
            } else {
                u16::MAX as int
            },
    {
        let n = self.content.as_str().len();
        if n <= u16::MAX as usize {
            n as u16
        } else {
            u16::MAX
        }
    }

    /// Whether the line holds no text.
    pub fn is_empty(&self) -> (r: bool)
        ensures
            r == (self@.len() == 0),
    {
        self.content.as_str().is_empty()
    }

    /// A copy of the line's text.
    pub fn get_content(&mut self) -> (r: String)
        ensures
            *final(self) == *old(self),
            r@ == old(self)@,
    {
        self.content.clone()
    }

    /// Replaces the line's text.
    pub fn set_content(&mut self, s: String)
        ensures
            final(self)@ == s@,
    {
        self.content = s
    }

    /// Appends one character at the end of the line.
    pub fn append_content(&mut self, c: char)
        ensures
            final(self)@ == old(self)@.push(c),
    {
        push_char(&mut self.content, c);
    }

    /// A copy of the line.
    pub fn clone_row(&self) -> (r: Row)
        ensures
            r@ == self@,
    {
        Row { content: self.content.clone() }
    }

    /// The first `width` characters of the line.
    pub fn truncated(&self, width: u16) -> (r: String)
        ensures
            r@ == clip(self@, width as int),
    {
        clip_string(self.content.as_str(), width)
    }
}

} // verus!
