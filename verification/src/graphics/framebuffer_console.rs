//! The text that the test suite shows on screen when it is done.

use vstd::prelude::*;

verus! {

use vstd::string::StringExecFns;
use vstd::utf8::encode_utf8;

/// An arbitrary upper limit on the text's size in bytes, to avoid running out of memory. As the
/// console does not scroll, there is no point in supporting more.
pub const MAX_CHARS: usize = 10_000;

pub struct FramebufferConsole {
    contents: String,
    is_full: bool,
}

impl FramebufferConsole {
    /// The text.
    pub closed spec fn spec_contents(&self) -> Seq<char> {
        self.contents@
    }

    /// Whether appending has stopped because the text grew past [`MAX_CHARS`] bytes.
    pub closed spec fn spec_is_full(&self) -> bool {
        self.is_full
    }

    /// An empty console.
    pub fn new() -> (r: Self)
        ensures
            r.spec_contents() == Seq::<char>::empty(),
            !r.spec_is_full(),
    {
        Self { contents: String::new(), is_full: false }
    }

    /// Prepends the given string, even if the console is considered full.
    pub fn prepend(&mut self, str: &str)
        ensures
            final(self).spec_contents() == str@ + old(self).spec_contents(),
            final(self).spec_is_full() == old(self).spec_is_full(),
    {
        let mut s = String::from_str(str);
        s.append(self.contents.as_str());
        self.contents = s;
    }

    /// Appends the given string, unless the console is full. It becomes full once its text is
    /// longer than [`MAX_CHARS`] bytes.
    pub fn append(&mut self, str: &str)
        ensures
            old(self).spec_is_full() ==> *final(self) == *old(self),
            !old(self).spec_is_full() ==> {
                &&& final(self).spec_contents() == old(self).spec_contents() + str@
                &&& final(self).spec_is_full() == ((encode_utf8(final(self).spec_contents()).len() as usize) > MAX_CHARS)
            },
    {
        if !self.is_full {
            self.contents.append(str);
            self.is_full = self.contents.as_str().len() > MAX_CHARS;
        }
    }

    /// The text.
    pub fn contents(&self) -> (r: &str)
        ensures
            r@ == self.spec_contents(),
    {
        self.contents.as_str()
    }

    /// Whether appending has stopped.
    pub fn is_full(&self) -> (r: bool)
        ensures
            r == self.spec_is_full(),
    {
        self.is_full
    }
}

} // verus!
