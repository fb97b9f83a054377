use vstd::prelude::*;

verus! {

/// The broad class of a failure.
#[derive(Debug, Clone, Copy, PartialEq, Eq, Structural)]
pub enum ErrorKind {
    /// A layout that is valid Arrow but not implemented here.
    Unsupported,
    /// The tracer saw observations that cannot be unified.
    Conflict,
    /// A value does not fit the target type.
    OutOfRange,
    /// Wrong number of children, a missing field, a fixed size not met.
    Shape,
    /// A reader went past the end of its buffer.
    Exhausted,
    /// An unknown strategy, time zone or similar setting.
    Invalid,
    /// Raised by a record source or sink.
    Custom,
}

/// A failure with its class and a human-readable message.
#[derive(Debug, Clone)]
pub struct Error {
    pub kind: ErrorKind,
    pub message: String,
    /// Context added on the way out, such as `("field", path)`.
    pub annotations: Vec<(String, String)>,
}

impl Error {
    pub fn new(kind: ErrorKind, message: &str) -> (r: Error)
        ensures
            r.kind == kind,
            r.message@ == message@,
    {
        Error { kind, message: message.to_owned(), annotations: Vec::new() }
    }

    /// A failure located at the node with the given path.
    pub fn at_path(kind: ErrorKind, message: &str, path: &str) -> (r: Error)
        ensures
            r.kind == kind,
            r.message@ == message@,
            r.annotations@.len() == 1,
            r.annotations@[0].0@ == "field"@,
            r.annotations@[0].1@ == path@,
    {
        let mut annotations: Vec<(String, String)> = Vec::new();
        annotations.push(("field".to_owned(), path.to_owned()));
        Error { kind, message: message.to_owned(), annotations }
    }

    /// The path annotation, if any.
    pub fn path(&self) -> (r: Option<&str>)
        ensures
            r matches Some(p) ==> exists|i: int|
                0 <= i < self.annotations@.len() && self.annotations@[i].0@ == "field"@
                    && self.annotations@[i].1@ == p@,
    {
        let mut i: usize = 0;
        while i < self.annotations.len()
            invariant
                i <= self.annotations@.len(),
            decreases self.annotations.len() - i,
        {
            if self.annotations[i].0 == "field".to_owned() {
                return Some(self.annotations[i].1.as_str());
            }
            i = i + 1;
        }
        None
    }

    /// The message, for display.
    pub fn message(&self) -> (r: &str)
        ensures
            r@ == self.message@,
    {
        self.message.as_str()
    }
}

} // verus!
