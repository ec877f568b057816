use vstd::prelude::*;

use crate::checksum::{is_imei, valid_str};
use crate::text::AsText;

verus! {

/// The one way in which a text can fail to be an IMEI: its length, a
/// character that is not a digit and a failed checksum are not told apart.
#[derive(Debug, Clone, Copy, PartialEq, Eq, PartialOrd, Ord, Hash, Structural)]
pub enum Error {
    /// The text is not a valid IMEI.
    InvalidImei,
}

impl Error {
    /// A human-readable description of the error.
    pub fn to_string(&self) -> (r: String)
        ensures
            r@ == "IMEI is invalid"@,
    {
        "IMEI is invalid".to_owned()
    }
}

/// A text that is known to be a valid IMEI.
///
/// The only way to build one is [`Imei::try_new`], which checks the text, and
/// nothing can change the text afterwards.
#[derive(Debug, PartialEq, Eq, PartialOrd, Ord, Hash)]
pub struct Imei<I: AsText> {
    inner: I,
}

impl<I: AsText> View for Imei<I> {
    type V = Seq<char>;

    /// The characters of the held IMEI.
    closed spec fn view(&self) -> Seq<char> {
        self.inner.text()
    }
}

impl<I: AsText> Imei<I> {
    /// Every wrapper holds a valid IMEI.
    #[verifier::type_invariant]
    spec fn held_text_is_imei(self) -> bool {
        is_imei(self.inner.text())
    }

    /// The text value that this wrapper holds, exactly as it was given.
    pub closed spec fn value(self) -> I {
        self.inner
    }

    /// The view of a wrapper is the text of the value it holds.
    pub proof fn lemma_view_is_value_text(self)
        ensures
            self@ == self.value().text(),
    {
    }

    /// Wrap `imei_str` if it is a valid IMEI.
    ///
    /// On success the wrapper holds `imei_str` unchanged; otherwise the
    /// result is `Error::InvalidImei`.
    pub fn try_new(imei_str: I) -> (r: Result<Self, Error>)
        ensures
            r is Ok <==> is_imei(imei_str.text()),
            match r {
                Ok(m) => m.value() == imei_str && m@ == imei_str.text(),
                Err(e) => e == Error::InvalidImei,
            },
    {
        if valid_str(imei_str.as_text()) {
            Ok(Imei { inner: imei_str })
        } else {
            Err(Error::InvalidImei)
        }
    }

    /// Give back the held text.
    pub fn into_inner(self) -> (r: I)
        ensures
            r == self.value(),
            r.text() == self@,
            is_imei(r.text()),
    {
        proof {
            use_type_invariant(&self);
        }
        self.inner
    }

    /// Check `imei` without wrapping it: `Ok(())` exactly when it is a valid
    /// IMEI, `Error::InvalidImei` otherwise.
    pub fn validate(imei: I) -> (r: Result<(), Error>)
        ensures
            r is Ok <==> is_imei(imei.text()),
            r matches Err(e) ==> e == Error::InvalidImei,
    {
        if valid_str(imei.as_text()) {
            Ok(())
        } else {
            Err(Error::InvalidImei)
        }
    }

    /// The held IMEI, borrowed as a `&str`.
    pub fn as_str(&self) -> (r: &str)
        ensures
            r@ == self@,
            is_imei(r@),
    {
        proof {
            use_type_invariant(self);
        }
        self.inner.as_text()
    }

    /// The held IMEI as text: exactly its digits, unchanged.
    pub fn to_string(&self) -> (r: String)
        ensures
            r@ == self@,
            is_imei(r@),
    {
        proof {
            use_type_invariant(self);
        }
        self.inner.as_text().to_owned()
    }
}

impl Clone for Imei<String> {
    fn clone(&self) -> (r: Self)
        ensures
            r.value()@ == self.value()@,
    {
        proof {
            use_type_invariant(self);
        }
        Imei { inner: self.inner.clone() }
    }
}

impl<'a> Clone for Imei<&'a str> {
    fn clone(&self) -> (r: Self)
        ensures
            r.value() == self.value(),
    {
        *self
    }
}

impl<'a> Copy for Imei<&'a str> {
}

/// Check whether `imei` is a valid IMEI: exactly fifteen characters, each an
/// ASCII decimal digit, with a weighted checksum divisible by ten.
pub fn valid<A: AsText>(imei: A) -> (r: bool)
    ensures
        r == is_imei(imei.text()),
{
    valid_str(imei.as_text())
}

} // verus!
