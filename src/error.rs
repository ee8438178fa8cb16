use vstd::prelude::*;

verus! {

/// The closed set of failure categories that every storage backend maps onto.
#[derive(Clone, Copy, Debug, PartialEq, Eq, Structural)]
pub enum ErrorKind {
    NotFound,
    PermissionDenied,
    ConditionNotMatch,
    Unexpected,
}

/// What an [`Error`] is, as mathematical values.
pub struct ErrorModel {
    pub kind: ErrorKind,
    pub message: Seq<char>,
    pub temporary: bool,
    pub context: Seq<(Seq<char>, Seq<char>)>,
}

/// A normalized storage error: its kind, a human-readable message, whether
/// the same request may succeed when sent again, and diagnostic key-value
/// pairs in the order they were attached.
#[derive(Debug)]
pub struct Error {
    kind: ErrorKind,
    message: String,
    temporary: bool,
    context: Vec<(String, String)>,
}

/// The view of a list of key-value pairs of text.
pub open spec fn pairs_view(v: Seq<(String, String)>) -> Seq<(Seq<char>, Seq<char>)> {
    v.map_values(|p: (String, String)| (p.0@, p.1@))
}

impl View for Error {
    type V = ErrorModel;

    closed spec fn view(&self) -> ErrorModel {
        ErrorModel {
            kind: self.kind,
            message: self.message@,
            temporary: self.temporary,
            context: pairs_view(self.context@),
        }
    }
}

impl Error {
    /// A permanent error of the given kind and message, with no context yet.
    pub fn new(kind: ErrorKind, message: String) -> (r: Error)
        ensures
            r@.kind == kind,
            r@.message == message@,
            !r@.temporary,
            r@.context == Seq::<(Seq<char>, Seq<char>)>::empty(),
    {
        let r = Error { kind, message, temporary: false, context: Vec::new() };
        proof {
            assert(pairs_view(r.context@) =~= Seq::<(Seq<char>, Seq<char>)>::empty());
        }
        r
    }

    /// Appends one diagnostic pair; kind, message and retry flag are kept.
    pub fn with_context(self, key: String, value: String) -> (r: Error)
        ensures
            r@.kind == self@.kind,
            r@.message == self@.message,
            r@.temporary == self@.temporary,
            r@.context == self@.context.push((key@, value@)),
    {
        let mut r = self;
        let ghost before = r.context@;
        r.context.push((key, value));
        proof {
            assert(pairs_view(r.context@) =~= pairs_view(before).push(
                (r.context@.last().0@, r.context@.last().1@),
            ));
        }
        r
    }

    /// Marks the error as transient: a retry of the same request may succeed.
    pub fn set_temporary(self) -> (r: Error)
        ensures
            r@.kind == self@.kind,
            r@.message == self@.message,
            r@.temporary,
            r@.context == self@.context,
    {
        let mut r = self;
        r.temporary = true;
        r
    }

    pub fn kind(&self) -> (r: ErrorKind)
        ensures
            r == self@.kind,
    {
        self.kind
    }

    pub fn message(&self) -> (r: &str)
        ensures
            r@ == self@.message,
    {
        self.message.as_str()
    }

    pub fn is_temporary(&self) -> (r: bool)
        ensures
            r == self@.temporary,
    {
        self.temporary
    }

    /// The diagnostic pairs, in the order they were attached.
    pub fn context(&self) -> (r: &Vec<(String, String)>)
        ensures
            pairs_view(r@) == self@.context,
    {
        &self.context
    }
}

} // verus!
