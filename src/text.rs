use vstd::prelude::*;

verus! {

/// A value that holds text and lends it out as a `&str`.
pub trait AsText {
    /// The characters of the text that the value holds.
    spec fn text(&self) -> Seq<char>;

    /// The held text, borrowed.
    fn as_text(&self) -> (r: &str)
        ensures
            r@ == self.text(),
    ;
}

impl<'a> AsText for &'a str {
    open spec fn text(&self) -> Seq<char> {
        (*self)@
    }

    fn as_text(&self) -> (r: &str) {
        *self
    }
}

impl AsText for String {
    open spec fn text(&self) -> Seq<char> {
        self@
    }

    fn as_text(&self) -> (r: &str) {
        self.as_str()
    }
}

} // verus!
