use vstd::prelude::*;

verus! {

/// An error reported by the library or by the MLX backend, carrying its message.
#[derive(Debug)]
pub struct Exception {
    what: String,
}

impl View for Exception {
    type V = Seq<char>;

    closed spec fn view(&self) -> Seq<char> {
        self.what@
    }
}

impl Exception {
    /// An exception whose message is `what`.
    pub fn custom(what: &str) -> (e: Exception)
        ensures
            e@ == what@,
    {
        Exception { what: what.to_owned() }
    }

    /// The message of this exception.
    pub fn what(&self) -> (s: &str)
        ensures
            s@ == self@,
    {
        self.what.as_str()
    }
}

} // verus!
