//! The query box: an editable line of text with a cursor.
use vstd::prelude::*;
use vstd::string::StrSliceExecFns;

verus! {

/// An editable line of text and the position of the cursor in it, counted in
/// characters from the start of the line.
pub struct Input {
    value: String,
    cursor: usize,
}

impl Input {
    /// The text held.
    pub closed spec fn text(&self) -> Seq<char> {
        self.value@
    }

    /// The cursor position, in characters.
    pub closed spec fn spec_cursor(&self) -> usize {
        self.cursor
    }

    /// An input holding `value`, with the cursor after its last character.
    pub fn new(value: String) -> (r: Input)
        ensures
            r.text() == value@,
            r.spec_cursor() as int == value@.len(),
    {
        let cursor = value.as_str().unicode_len();
        Input { value, cursor }
    }

    /// The text held.
    pub fn value(&self) -> (r: &str)
        ensures
            r@ == self.text(),
    {
        self.value.as_str()
    }

    /// The cursor position, in characters.
    #[verifier::when_used_as_spec(spec_cursor)]
    pub fn cursor(&self) -> (r: usize)
        ensures
            r == self.spec_cursor(),
    {
        self.cursor
    }

    /// Empties the text and moves the cursor to the start.
    pub fn reset(&mut self)
        ensures
            final(self).text() == Seq::<char>::empty(),
            final(self).spec_cursor() == 0,
    {
        self.value = String::new();
        self.cursor = 0;
    }
}

} // verus!
