//! The seam through which a failing thread's kernel error state is read.
//!
//! `errno` and its description are valid only until the next kernel call on
//! the same thread. Reads of them are therefore treated as events: verified
//! code reaches a wrapper only through [`Recorded`], which keeps, in ghost
//! state, the list of queries it has passed on, and contracts speak of how
//! that list grows.

use vstd::prelude::*;

verus! {

/// Access to the calling thread's last kernel error.
///
/// The real implementation reads `errno` and `strerror`; a test double
/// answers from fixed values. Neither operation may panic. Nothing is
/// promised about the answers: two reads may differ.
pub trait KernelErrorState {
    /// Reads the thread's current error number.
    fn current_error_code(&self) -> i32;

    /// The operating system's description of `code`, as raw bytes without
    /// the terminating NUL. The bytes need not be valid UTF-8.
    fn describe_error_code(&self, code: i32) -> Vec<u8>;
}

/// One answered query of the kernel error state.
pub enum ErrorStateQuery {
    /// The current error number was read, and was `code`.
    CurrentErrorCode { code: i32 },
    /// The description of `asked` was requested, and was the bytes `text`.
    DescribeErrorCode { asked: i32, text: Seq<u8> },
}

/// A wrapper together with the record of every query made through it.
pub struct Recorded<'a, L: KernelErrorState> {
    wrapper: &'a L,
    queries: Ghost<Seq<ErrorStateQuery>>,
}

impl<'a, L: KernelErrorState> Recorded<'a, L> {
    /// Every query passed on so far, with its answer, oldest first.
    pub closed spec fn queries(&self) -> Seq<ErrorStateQuery> {
        self.queries@
    }

    /// Starts recording, with nothing asked yet.
    pub fn new(wrapper: &'a L) -> (recorded: Self)
        ensures
            recorded.queries() == Seq::<ErrorStateQuery>::empty(),
    {
        Recorded { wrapper, queries: Ghost(Seq::empty()) }
    }

    /// Reads the thread's current error number, once, and records the read.
    pub fn current_error_code(&mut self) -> (code: i32)
        ensures
            final(self).queries() == old(self).queries().push(
                (ErrorStateQuery::CurrentErrorCode { code }),
            ),
    {
        let code = self.wrapper.current_error_code();
        proof {
            self.queries@ = self.queries@.push(ErrorStateQuery::CurrentErrorCode { code });
        }
        code
    }

    /// Asks once for the description of `code` and records the request.
    pub fn describe_error_code(&mut self, code: i32) -> (text: Vec<u8>)
        ensures
            final(self).queries() == old(self).queries().push(
                (ErrorStateQuery::DescribeErrorCode { asked: code, text: text@ }),
            ),
    {
        let text = self.wrapper.describe_error_code(code);
        proof {
            self.queries@ = self.queries@.push(
                ErrorStateQuery::DescribeErrorCode { asked: code, text: text@ },
            );
        }
        text
    }
}

} // verus!
