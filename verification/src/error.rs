use vstd::prelude::*;

verus! {

/// A codec error: an opaque, human-readable message.
#[derive(Debug, Clone, PartialEq, Eq)]
pub struct Error(String);

impl View for Error {
    type V = Seq<char>;

    closed spec fn view(&self) -> Seq<char> {
        self.0@
    }
}

impl Error {
    /// An error carrying `msg`.
    pub fn new(msg: &str) -> (e: Error)
        ensures
            e@ == msg@,
    {
        Error(msg.to_owned())
    }

    /// The underlying message.
    pub fn message(&self) -> (m: &str)
        ensures
            m@ == self@,
    {
        self.0.as_str()
    }

    /// The message as an owned string (the text the error displays).
    pub fn to_string(&self) -> (s: String)
        ensures
            s@ == self@,
    {
        self.0.clone()
    }

    /// An error whose message is `prefix` followed by `detail`.
    pub fn with_detail(prefix: &str, detail: &str) -> (e: Error)
        ensures
            e@ == prefix@ + detail@,
    {
        let mut s = prefix.to_owned();
        s.append(detail);
        Error(s)
    }
}

impl From<String> for Error {
    fn from(s: String) -> (e: Error)
        ensures
            e@ == s@,
    {
        Error(s)
    }
}

impl vstd::std_specs::convert::FromSpecImpl<String> for Error {
    open spec fn obeys_from_spec() -> bool {
        true
    }

    closed spec fn from_spec(v: String) -> Error {
        Error(v)
    }
}

impl<'a> From<&'a str> for Error {
    fn from(s: &'a str) -> (e: Error)
        ensures
            e@ == s@,
    {
        Error::new(s)
    }
}

/// A `String` cannot be named from a `&str` in spec code, so `==` on the
/// result of this conversion is not claimed; its message is stated by the
/// `ensures` of `from` instead.
impl<'a> vstd::std_specs::convert::FromSpecImpl<&'a str> for Error {
    open spec fn obeys_from_spec() -> bool {
        false
    }

    closed spec fn from_spec(v: &'a str) -> Error {
        Error(vstd::pervasive::arbitrary())
    }
}

} // verus!
