//! The one error type of the library: a category code and a message.
//!
//! A failure of the runtime is carried through with the code and the message
//! it came with. The library itself raises few: a model directory that is not
//! there, which comes with the advice how to get the model; results of the
//! runtime it cannot go on with; and events that arrive out of order.

use vstd::prelude::*;
use vstd::string::*;

verus! {

/// The category of a failure. The set is that of the numerical runtime's
/// status codes, so that a failure of the runtime keeps the code it came
/// with: the code for success is among them, and a value that is none of the
/// known ones is kept with its number.
#[derive(Clone, Copy, Debug, PartialEq, Eq, Structural)]
pub enum Code {
    /// No failure; the runtime shows it as `Ok`.
    Success,
    Cancelled,
    Unknown,
    InvalidArgument,
    DeadlineExceeded,
    NotFound,
    AlreadyExists,
    PermissionDenied,
    ResourceExhausted,
    FailedPrecondition,
    Aborted,
    OutOfRange,
    Unimplemented,
    Internal,
    Unavailable,
    DataLoss,
    Unauthenticated,
    /// A value that is none of the above, with its number.
    Unrecognized(u32),
}

/// The character of one decimal digit.
pub open spec fn digit(d: nat) -> char {
    if d == 0 {
        '0'
    } else if d == 1 {
        '1'
    } else if d == 2 {
        '2'
    } else if d == 3 {
        '3'
    } else if d == 4 {
        '4'
    } else if d == 5 {
        '5'
    } else if d == 6 {
        '6'
    } else if d == 7 {
        '7'
    } else if d == 8 {
        '8'
    } else {
        '9'
    }
}

/// A number in decimal digits, without leading zeros.
pub open spec fn decimal(n: nat) -> Seq<char>
    decreases n,
{
    if n < 10 {
        seq![digit(n)]
    } else {
        decimal(n / 10) + seq![digit(n % 10)]
    }
}

/// The text of one decimal digit.
fn digit_text(d: u32) -> (r: &'static str)
    requires
        d < 10,
    ensures
        r@ == seq![digit(d as nat)],
{
    proof {
        reveal_strlit("0");
        reveal_strlit("1");
        reveal_strlit("2");
        reveal_strlit("3");
        reveal_strlit("4");
        reveal_strlit("5");
        reveal_strlit("6");
        reveal_strlit("7");
        reveal_strlit("8");
        reveal_strlit("9");
    }
    let r = match d {
        0 => "0",
        1 => "1",
        2 => "2",
        3 => "3",
        4 => "4",
        5 => "5",
        6 => "6",
        7 => "7",
        8 => "8",
        _ => "9",
    };
    assert(r@ =~= seq![digit(d as nat)]);
    r
}

/// A number in decimal digits.
fn decimal_text(n: u32) -> (s: String)
    ensures
        s@ == decimal(n as nat),
    decreases n,
{
    if n < 10 {
        String::from_str(digit_text(n))
    } else {
        let mut s = decimal_text(n / 10);
        s.append(digit_text(n % 10));
        s
    }
}

impl Code {
    /// The name under which a code is shown.
    pub open spec fn name_spec(self) -> Seq<char> {
        match self {
            Code::Success => "Ok"@,
            Code::Cancelled => "Cancelled"@,
            Code::Unknown => "Unknown"@,
            Code::InvalidArgument => "InvalidArgument"@,
            Code::DeadlineExceeded => "DeadlineExceeded"@,
            Code::NotFound => "NotFound"@,
            Code::AlreadyExists => "AlreadyExists"@,
            Code::PermissionDenied => "PermissionDenied"@,
            Code::ResourceExhausted => "ResourceExhausted"@,
            Code::FailedPrecondition => "FailedPrecondition"@,
            Code::Aborted => "Aborted"@,
            Code::OutOfRange => "OutOfRange"@,
            Code::Unimplemented => "Unimplemented"@,
            Code::Internal => "Internal"@,
            Code::Unavailable => "Unavailable"@,
            Code::DataLoss => "DataLoss"@,
            Code::Unauthenticated => "Unauthenticated"@,
            Code::Unrecognized(n) => "UnrecognizedEnumValue("@ + decimal(n as nat) + ")"@,
        }
    }

    /// The name under which the code is shown.
    pub fn name(self) -> (r: String)
        ensures
            r@ == self.name_spec(),
    {
        match self {
            Code::Success => String::from_str("Ok"),
            Code::Cancelled => String::from_str("Cancelled"),
            Code::Unknown => String::from_str("Unknown"),
            Code::InvalidArgument => String::from_str("InvalidArgument"),
            Code::DeadlineExceeded => String::from_str("DeadlineExceeded"),
            Code::NotFound => String::from_str("NotFound"),
            Code::AlreadyExists => String::from_str("AlreadyExists"),
            Code::PermissionDenied => String::from_str("PermissionDenied"),
            Code::ResourceExhausted => String::from_str("ResourceExhausted"),
            Code::FailedPrecondition => String::from_str("FailedPrecondition"),
            Code::Aborted => String::from_str("Aborted"),
            Code::OutOfRange => String::from_str("OutOfRange"),
            Code::Unimplemented => String::from_str("Unimplemented"),
            Code::Internal => String::from_str("Internal"),
            Code::Unavailable => String::from_str("Unavailable"),
            Code::DataLoss => String::from_str("DataLoss"),
            Code::Unauthenticated => String::from_str("Unauthenticated"),
            Code::Unrecognized(n) => {
                let mut r = String::from_str("UnrecognizedEnumValue(");
                r.append(decimal_text(n).as_str());
                r.append(")");
                r
            },
        }
    }
}

/// A failure: its category and a message for the user.
#[derive(Debug, PartialEq, Eq)]
pub struct Error {
    pub code: Code,
    pub message: String,
}

/// What an `Error` holds, with the message as a sequence of characters.
pub struct ErrorView {
    pub code: Code,
    pub message: Seq<char>,
}

impl View for Error {
    type V = ErrorView;

    open spec fn view(&self) -> ErrorView {
        ErrorView { code: self.code, message: self.message@ }
    }
}

impl Clone for Error {
    fn clone(&self) -> (e: Error)
        ensures
            e == *self,
    {
        Error { code: self.code, message: self.message.clone() }
    }
}

/// What a user is told to do about a model directory that does not exist.
pub open spec fn remediation() -> Seq<char> {
    "Please generate model files with `python python/create_model.py`"@
}

/// The message of the error for a model directory that does not exist: the
/// directory's name in double quotes, the words "directory not found", and
/// what to do about it.
pub open spec fn missing_model_dir_message(dir: Seq<char>) -> Seq<char> {
    "\""@ + dir + "\" directory not found. "@ + remediation()
}

/// The error for a model directory that does not exist.
pub open spec fn missing_model_dir(dir: Seq<char>) -> ErrorView {
    ErrorView { code: Code::NotFound, message: missing_model_dir_message(dir) }
}

/// The error for a model directory that does not exist names the directory,
/// right after the opening quote, and ends with what to do about it.
pub proof fn lemma_missing_model_dir_carries_hint(dir: Seq<char>)
    ensures
        missing_model_dir(dir).code == Code::NotFound,
        ("\""@ + dir).is_prefix_of(missing_model_dir(dir).message),
        remediation().is_suffix_of(missing_model_dir(dir).message),
{
    let message = missing_model_dir(dir).message;
    let front = "\""@ + dir;
    let rest = "\" directory not found. "@;
    assert(message == front + rest + remediation());
    assert(front =~= message.subrange(0, front.len() as int));
    assert(remediation() =~= message.subrange(
        message.len() - remediation().len(),
        message.len() as int,
    ));
}

/// How an error is shown: the code's name, a colon and a space, the message.
pub open spec fn description(e: ErrorView) -> Seq<char> {
    e.code.name_spec() + ": "@ + e.message
}

/// The message in a text that shows an error of category `code`: what
/// follows the code's name, the colon and the space where the text starts
/// with them, and else the whole text.
pub open spec fn message_in(code: Code, text: Seq<char>) -> Seq<char> {
    let prefix = code.name_spec() + ": "@;
    if prefix.is_prefix_of(text) {
        text.skip(prefix.len() as int)
    } else {
        text
    }
}

/// The message of an error is found again in the text that shows the error.
pub proof fn lemma_description_keeps_message(e: ErrorView)
    ensures
        message_in(e.code, description(e)) == e.message,
{
    let prefix = e.code.name_spec() + ": "@;
    let text = description(e);
    assert(text == prefix + e.message);
    assert(text.subrange(0, prefix.len() as int) == prefix);
    assert(text.skip(prefix.len() as int) == e.message);
}

impl Error {
    /// An error of the given category with the given message.
    pub fn new(code: Code, message: &str) -> (e: Error)
        ensures
            e@ == (ErrorView { code, message: message@ }),
    {
        Error { code, message: String::from_str(message) }
    }

    /// The category.
    pub fn code(&self) -> (c: Code)
        ensures
            c == self@.code,
    {
        self.code
    }

    /// The message.
    pub fn message(&self) -> (m: &str)
        ensures
            m@ == self@.message,
    {
        self.message.as_str()
    }

    /// The error as one line of text.
    pub fn describe(&self) -> (s: String)
        ensures
            s@ == description(self@),
    {
        let mut s = self.code.name();
        s.append(": ");
        s.append(self.message.as_str());
        s
    }

    /// The error of category `code` that `text` shows. Where the text starts
    /// with the code's name, a colon and a space, the message is what follows
    /// them; where it does not, the message is the whole text.
    pub fn from_description(code: Code, text: &str) -> (e: Error)
        ensures
            e@ == (ErrorView { code, message: message_in(code, text@) }),
    {
        let mut shown = code.name();
        shown.append(": ");
        let prefix = shown.as_str();
        let n = prefix.unicode_len();
        let m = text.unicode_len();
        if n > m {
            return Error::new(code, text);
        }
        let mut i: usize = 0;
        while i < n
            invariant
                i <= n <= m,
                n == prefix@.len(),
                m == text@.len(),
                prefix@ == code.name_spec() + ": "@,
                forall|j: int| 0 <= j < i ==> prefix@[j] == text@[j],
            decreases n - i,
        {
            if prefix.get_char(i) != text.get_char(i) {
                assert(prefix@[i as int] != text@.subrange(0, n as int)[i as int]);
                return Error::new(code, text);
            }
            i += 1;
        }
        assert(prefix@ =~= text@.subrange(0, n as int));
        Error::new(code, text.substring_char(n, m))
    }

    /// The error for a model directory that does not exist. Its message names
    /// the directory and says how to get the model.
    pub fn model_dir_not_found(dir: &str) -> (e: Error)
        ensures
            e@ == missing_model_dir(dir@),
    {
        let mut message = String::from_str("\"");
        message.append(dir);
        message.append("\" directory not found. ");
        message.append("Please generate model files with `python python/create_model.py`");
        Error { code: Code::NotFound, message }
    }
}

} // verus!
