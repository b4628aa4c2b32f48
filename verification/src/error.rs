//! The failure outcomes of a command execution.

use vstd::prelude::*;
use vstd::std_specs::cmp::{PartialEqSpec, PartialEqSpecImpl};
use vstd::string::*;
use vstd::utf8::{decode_utf8, valid_utf8};

use crate::text::{
    debug_quoted, debug_text, decimal_text, decode_or_explain, text_or_decode_error, to_decimal,
    utf8_error_text,
};
use crate::wrapper::{ErrorStateQuery, KernelErrorState, Recorded};

verus! {

/// What went wrong while a command was processed. Each outcome carries one
/// descriptive message and nothing else.
#[derive(Debug)]
pub enum RashError {
    /// The command contained a null byte, so it cannot be handed to the
    /// shell as a C string. The message states the byte's position.
    NullByteInCommand { message: String },
    /// A system call failed. The message holds the errno, a description of
    /// the call that failed, and the `strerror` output.
    KernelError { message: String },
    /// Standard output could not be obtained: it was not valid UTF-8, or
    /// reading it failed. The message is that of the underlying error.
    FailedToReadStdout { message: String },
    /// Standard error could not be obtained: it was not valid UTF-8, or
    /// reading it failed. The message is that of the underlying error.
    FailedToReadStderr { message: String },
}

/// A failure outcome as a mathematical value: its kind, and the characters
/// of its message.
pub enum RashErrorView {
    NullByteInCommand { message: Seq<char> },
    KernelError { message: Seq<char> },
    FailedToReadStdout { message: Seq<char> },
    FailedToReadStderr { message: Seq<char> },
}

impl View for RashError {
    type V = RashErrorView;

    open spec fn view(&self) -> RashErrorView {
        match self {
            RashError::NullByteInCommand { message } => RashErrorView::NullByteInCommand {
                message: message@,
            },
            RashError::KernelError { message } => RashErrorView::KernelError { message: message@ },
            RashError::FailedToReadStdout { message } => RashErrorView::FailedToReadStdout {
                message: message@,
            },
            RashError::FailedToReadStderr { message } => RashErrorView::FailedToReadStderr {
                message: message@,
            },
        }
    }
}

impl PartialEq for RashError {
    fn eq(&self, other: &Self) -> (equal: bool) {
        match (self, other) {
            (
                RashError::NullByteInCommand { message: mine },
                RashError::NullByteInCommand { message: theirs },
            ) => *mine == *theirs,
            (
                RashError::KernelError { message: mine },
                RashError::KernelError { message: theirs },
            ) => *mine == *theirs,
            (
                RashError::FailedToReadStdout { message: mine },
                RashError::FailedToReadStdout { message: theirs },
            ) => *mine == *theirs,
            (
                RashError::FailedToReadStderr { message: mine },
                RashError::FailedToReadStderr { message: theirs },
            ) => *mine == *theirs,
            _ => false,
        }
    }
}

impl PartialEqSpecImpl for RashError {
    open spec fn obeys_eq_spec() -> bool {
        true
    }

    /// Two outcomes are equal when they are of the same kind and their
    /// messages hold the same characters.
    open spec fn eq_spec(&self, other: &Self) -> bool {
        self@ == other@
    }
}

/// Two outcomes compare equal exactly when they are of the same kind and
/// their messages are the same text: equal messages of one kind are equal,
/// differing messages are not, and neither are differing kinds.
pub proof fn lemma_equality_is_by_kind_and_message(a: RashError, b: RashError)
    ensures
        PartialEqSpec::eq_spec(&a, &b) <==> a.same_kind(&b) && a.message_text()
            == b.message_text(),
{
}

/// The diagnostic line of a kernel-level failure: the error number in
/// decimal, the caller's description of the failing call, and the operating
/// system's own description of the error number.
pub open spec fn kernel_error_text(errno: int, description: Seq<char>, strerror: Seq<char>) -> Seq<
    char,
> {
    "Received errno "@ + decimal_text(errno) + ", Description: "@ + description
        + ", strerror output: "@ + strerror + "."@
}

/// That `after` is `before` followed by exactly one read of the error number
/// and then one request for the description of the number just read, and
/// that `message` is the diagnostic line made of those two answers.
pub open spec fn formatted_from_one_read(
    before: Seq<ErrorStateQuery>,
    after: Seq<ErrorStateQuery>,
    description: Seq<char>,
    message: Seq<char>,
) -> bool {
    &&& after.len() == before.len() + 2
    &&& after.subrange(0, before.len() as int) == before
    &&& after[before.len() as int] matches ErrorStateQuery::CurrentErrorCode { code }
    &&& after[before.len() as int + 1] matches ErrorStateQuery::DescribeErrorCode { asked, text }
    &&& asked == code
    &&& message == kernel_error_text(code as int, description, text_or_decode_error(text))
}

/// That `message` is the diagnostic line of some error number and some
/// description bytes, for the caller's words `description`.
pub open spec fn is_kernel_error_line(description: Seq<char>, message: Seq<char>) -> bool {
    exists|code: i32, text: Seq<u8>|
        message == #[trigger] kernel_error_text(
            code as int,
            description,
            text_or_decode_error(text),
        )
}

impl RashError {
    /// The characters of the message this outcome carries.
    pub open spec fn message_text(&self) -> Seq<char> {
        match self {
            RashError::NullByteInCommand { message } => message@,
            RashError::KernelError { message } => message@,
            RashError::FailedToReadStdout { message } => message@,
            RashError::FailedToReadStderr { message } => message@,
        }
    }

    /// Whether two outcomes are of the same kind, whatever their messages.
    pub open spec fn same_kind(&self, other: &Self) -> bool {
        match (self, other) {
            (RashError::NullByteInCommand { .. }, RashError::NullByteInCommand { .. }) => true,
            (RashError::KernelError { .. }, RashError::KernelError { .. }) => true,
            (RashError::FailedToReadStdout { .. }, RashError::FailedToReadStdout { .. }) => true,
            (RashError::FailedToReadStderr { .. }, RashError::FailedToReadStderr { .. }) => true,
            _ => false,
        }
    }

    /// What stands in front of the quoted message when the outcome is shown
    /// to a user.
    pub open spec fn display_prefix(&self) -> Seq<char> {
        match self {
            RashError::NullByteInCommand { .. } => "Null byte in command: "@,
            RashError::KernelError { .. } => ""@,
            RashError::FailedToReadStdout { .. } => "Couldn't read stdout: "@,
            RashError::FailedToReadStderr { .. } => "Couldn't read stderr: "@,
        }
    }

    /// The outcome as it is shown to a user: the words for its kind, then
    /// the message between quotes as `Debug` formatting writes a string.
    pub open spec fn display_text(&self) -> Seq<char> {
        self.display_prefix() + debug_text(self.message_text())
    }

    /// The message this outcome carries.
    pub fn message(&self) -> (message: &str)
        ensures
            message@ == self.message_text(),
    {
        match self {
            RashError::NullByteInCommand { message } => message.as_str(),
            RashError::KernelError { message } => message.as_str(),
            RashError::FailedToReadStdout { message } => message.as_str(),
            RashError::FailedToReadStderr { message } => message.as_str(),
        }
    }

    /// Shows the outcome with `quoted` standing for its message.
    pub fn display_with(&self, quoted: &str) -> (shown: String)
        ensures
            shown@ == self.display_prefix() + quoted@,
    {
        let prefix = match self {
            RashError::NullByteInCommand { .. } => "Null byte in command: ",
            RashError::KernelError { .. } => "",
            RashError::FailedToReadStdout { .. } => "Couldn't read stdout: ",
            RashError::FailedToReadStderr { .. } => "Couldn't read stderr: ",
        };
        let mut shown = String::from_str(prefix);
        shown.append(quoted);
        shown
    }

    /// Shows the outcome to a user.
    pub fn to_string(&self) -> (shown: String)
        ensures
            shown@ == self.display_text(),
    {
        let quoted = debug_quoted(self.message());
        self.display_with(quoted.as_str())
    }

    /// Renders a kernel-level failure from its three parts, already decoded.
    pub fn compose_kernel_error_message(errno: i32, description: &str, strerror: &str) -> (message:
        String)
        ensures
            message@ == kernel_error_text(errno as int, description@, strerror@),
    {
        let mut message = String::from_str("Received errno ");
        message.append(to_decimal(errno).as_str());
        message.append(", Description: ");
        message.append(description);
        message.append(", strerror output: ");
        message.append(strerror);
        message.append(".");
        message
    }

    /// Renders a kernel-level failure from the error number and the raw
    /// bytes of its description. Bytes that are not UTF-8 do not make this
    /// fail: the decoding error's message takes the description's place.
    pub fn kernel_error_message(errno: i32, description: &str, strerror: &[u8]) -> (message: String)
        ensures
            valid_utf8(strerror@) ==> message@ == kernel_error_text(
                errno as int,
                description@,
                decode_utf8(strerror@),
            ),
            !valid_utf8(strerror@) ==> message@ == kernel_error_text(
                errno as int,
                description@,
                utf8_error_text(strerror@),
            ),
    {
        let decoded = decode_or_explain(strerror);
        Self::compose_kernel_error_message(errno, description, decoded.as_str())
    }

    /// Renders the kernel-level failure met on a wrapper whose queries are
    /// recorded: the error number is read exactly once, the description of
    /// exactly that number is requested once, in this order, and the line
    /// is made of the two answers and `description`.
    pub fn format_recorded<L: KernelErrorState>(
        wrapper: &mut Recorded<'_, L>,
        description: &str,
    ) -> (message: String)
        ensures
            formatted_from_one_read(
                old(wrapper).queries(),
                final(wrapper).queries(),
                description@,
                message@,
            ),
    {
        let errno = wrapper.current_error_code();
        let strerror = wrapper.describe_error_code(errno);
        let message = Self::kernel_error_message(errno, description, strerror.as_slice());
        proof {
            let before = old(wrapper).queries();
            assert(wrapper.queries().subrange(0, before.len() as int) =~= before);
        }
        message
    }

    /// Renders the kernel-level failure the calling thread has just met.
    ///
    /// Call it right after the failing operation, before any other kernel
    /// call on the thread. `description` is the caller's name for the call
    /// that failed. Whatever the wrapper answers, the result is a
    /// diagnostic line for some error number and some description bytes:
    /// this cannot fail.
    pub fn format_kernel_error_message<L: KernelErrorState>(wrapper: &L, description: &str) -> (message:
        String)
        ensures
            is_kernel_error_line(description@, message@),
    {
        let mut recorded = Recorded::new(wrapper);
        let message = Self::format_recorded(&mut recorded, description);
        proof {
            let asked = recorded.queries();
            assert(asked[0] matches ErrorStateQuery::CurrentErrorCode { code }
                && asked[1] matches ErrorStateQuery::DescribeErrorCode { asked: _, text }
                && message@ == kernel_error_text(
                code as int,
                description@,
                text_or_decode_error(text),
            ));
        }
        message
    }
}

} // verus!
