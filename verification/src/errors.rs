use vstd::prelude::*;

verus! {

/// The kinds of failure the generator reports: a spec document that cannot
/// be loaded, a relative path that fails to render, file contents that fail
/// to render, and filesystem operations that fail.
#[derive(Clone, Copy, Debug, PartialEq, Eq, Structural)]
pub enum ErrorKind {
    SpecParse,
    PathRender,
    ContentRender,
    Filesystem,
}

/// An error value carrying a primary message and an optional wrapped cause,
/// printed by walking the chain from outermost to innermost message.
#[derive(Debug)]
pub struct Error {
    pub kind: ErrorKind,
    pub message: String,
    pub cause: Option<Box<Error>>,
}

/// The chain of messages of an error, outermost first.
pub open spec fn messages_of(e: Error) -> Seq<Seq<char>>
    decreases e,
{
    match e.cause {
        Some(c) => seq![e.message@] + messages_of(*c),
        None => seq![e.message@],
    }
}

impl Error {
    /// An error with no underlying cause.
    pub fn new(kind: ErrorKind, message: String) -> (r: Error)
        ensures
            r.kind == kind,
            r.message@ == message@,
            r.cause is None,
            messages_of(r) == seq![message@],
    {
        Error { kind, message, cause: None }
    }

    /// An error wrapping an underlying cause with a context message.
    pub fn with_cause(kind: ErrorKind, message: String, cause: Error) -> (r: Error)
        ensures
            r.kind == kind,
            r.message@ == message@,
            r.cause is Some,
            messages_of(r) == seq![message@] + messages_of(cause),
    {
        Error { kind, message, cause: Some(Box::new(cause)) }
    }

    /// An error's message chain is never empty: the outermost message is
    /// always there.
    pub proof fn lemma_messages_nonempty(e: Error)
        ensures
            messages_of(e).len() >= 1,
    {
    }

    /// Every message in the chain, outermost first.
    pub fn messages(&self) -> (r: Vec<String>)
        ensures
            r@.map_values(|s: String| s@) == messages_of(*self),
        decreases *self,
    {
        let mut v: Vec<String> = Vec::new();
        v.push(self.message.clone());
        match &self.cause {
            Some(c) => {
                let mut rest = c.messages();
                v.append(&mut rest);
                proof {
                    assert(v@.map_values(|s: String| s@) =~= messages_of(*self));
                }
            },
            None => {
                proof {
                    assert(v@.map_values(|s: String| s@) =~= messages_of(*self));
                }
            },
        }
        v
    }

    /// The lines the program prints for a failure: the primary message
    /// first, then each underlying causal message marked as a chained
    /// cause.
    pub fn report_lines(&self) -> (r: Vec<String>)
        ensures
            r@.len() == messages_of(*self).len(),
            r@.len() >= 1,
            r@[0]@ == "error: "@ + messages_of(*self)[0],
            forall|j: int| 1 <= j < r@.len() ==> r@[j]@ == "caused by: "@ + messages_of(*self)[j],
    {
        proof {
            Error::lemma_messages_nonempty(*self);
        }
        let msgs = self.messages();
        let mut out: Vec<String> = Vec::new();
        let mut i: usize = 0;
        while i < msgs.len()
            invariant
                out@.len() == i,
                i <= msgs@.len(),
                msgs@.map_values(|s: String| s@) == messages_of(*self),
                i > 0 ==> out@[0]@ == "error: "@ + messages_of(*self)[0],
                forall|j: int| 1 <= j < i ==> out@[j]@ == "caused by: "@ + messages_of(*self)[j],
            decreases msgs@.len() - i,
        {
            proof {
                assert(msgs@.map_values(|s: String| s@)[i as int] == msgs@[i as int]@);
            }
            let prefix = if i == 0 {
                "error: "
            } else {
                "caused by: "
            };
            let line = String::from_str(prefix).concat(msgs[i].as_str());
            out.push(line);
            i += 1;
        }
        out
    }
}

} // verus!
