use vstd::prelude::*;

verus! {

/// A value paired with the diagnostics reported while producing it, rendered as text.
pub struct WithStringDiagnostics<T> {
    pub value: T,
    pub diagnostics: String,
}

impl<T> WithStringDiagnostics<T> {
    /// Wraps a value together with its diagnostics text.
    pub fn new(value: T, diagnostics: String) -> (r: Self)
        ensures
            r.value == value,
            r.diagnostics@ == diagnostics@,
    {
        WithStringDiagnostics { value, diagnostics }
    }

    /// Returns the inner value; only allowed when no diagnostics were reported.
    pub fn unwrap(self) -> (r: T)
        requires
            self.diagnostics@.len() == 0,
        ensures
            r == self.value,
    {
        self.value
    }

    /// Returns the inner value and the diagnostics text.
    pub fn split(self) -> (r: (T, String))
        ensures
            r.0 == self.value,
            r.1@ == self.diagnostics@,
    {
        (self.value, self.diagnostics)
    }

    /// Returns the diagnostics text.
    pub fn get_diagnostics(self) -> (r: String)
        ensures
            r@ == self.diagnostics@,
    {
        self.diagnostics
    }
}

} // verus!
