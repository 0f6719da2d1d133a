use vstd::prelude::*;

verus! {

/// Text that the rest of the library may forward verbatim to the
/// notification service. Builders accept only this type, never raw strings.
///
/// Marking is currently unconditional: no forbidden-character rule has been
/// settled, so every string is accepted unchanged.
pub struct TrustedStr(String);

impl View for TrustedStr {
    type V = Seq<char>;

    closed spec fn view(&self) -> Seq<char> {
        self.0@
    }
}

impl TrustedStr {
    /// Marks `arg` as trusted, keeping its text unchanged.
    pub fn new(arg: String) -> (r: Self)
        ensures
            r@ == arg@,
    {
        TrustedStr(arg)
    }

    /// The wrapped text, read-only.
    pub fn inner(&self) -> (r: &String)
        ensures
            r@ == self@,
    {
        &self.0
    }
}

} // verus!
