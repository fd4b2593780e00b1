//! The error type of the fallible functions, and its message.

use vstd::prelude::*;
use vstd::string::*;

use crate::ffi::NulError;
use crate::ffi::Utf8Error;

verus! {

/// The error type returned by the fallible functions of this crate.
#[derive(Debug, PartialEq, Eq)]
pub enum Error {
    /// The toolkit is already initialized.
    ///
    /// A session is made at most once in a process.
    AlreadyInitedLibui,
    /// Bytes that the toolkit gave are no text.
    ConvertCString(Utf8Error),
    /// Text could not be put into the toolkit's form.
    ConvertRustString(NulError),
    /// A function of the toolkit failed.
    LibuiFn {
        /// The name of the function that failed.
        name: &'static str,
        /// The cause, if any, of the failure.
        cause: Option<String>,
    },
}

/// The decimal digit that stands for `d`.
pub open spec fn digit_char(d: nat) -> char
    recommends
        d < 10,
{
    if d == 0 {
        '0'
    } else if d == 1 {
        '1'
    } else if d == 2 {
        '2'
    } else if d == 3 {
        '3'
    } else if d == 4 {
        '4'
    } else if d == 5 {
        '5'
    } else if d == 6 {
        '6'
    } else if d == 7 {
        '7'
    } else if d == 8 {
        '8'
    } else {
        '9'
    }
}

/// `n` written in decimal, without leading zeros.
pub open spec fn decimal(n: nat) -> Seq<char>
    decreases n,
{
    if n < 10 {
        seq![digit_char(n)]
    } else {
        decimal(n / 10).push(digit_char(n % 10))
    }
}

fn digit_str(d: usize) -> (s: &'static str)
    requires
        d < 10,
    ensures
        s@ == seq![digit_char(d as nat)],
{
    proof {
        reveal_strlit("0");
        reveal_strlit("1");
        reveal_strlit("2");
        reveal_strlit("3");
        reveal_strlit("4");
        reveal_strlit("5");
        reveal_strlit("6");
        reveal_strlit("7");
        reveal_strlit("8");
        reveal_strlit("9");
    }
    let s = if d == 0 {
        "0"
    } else if d == 1 {
        "1"
    } else if d == 2 {
        "2"
    } else if d == 3 {
        "3"
    } else if d == 4 {
        "4"
    } else if d == 5 {
        "5"
    } else if d == 6 {
        "6"
    } else if d == 7 {
        "7"
    } else if d == 8 {
        "8"
    } else {
        "9"
    };
    assert(s@ =~= seq![digit_char(d as nat)]);
    s
}

/// Writes `n` in decimal.
pub fn decimal_string(n: usize) -> (s: String)
    ensures
        s@ == decimal(n as nat),
    decreases n,
{
    if n < 10 {
        String::from_str(digit_str(n))
    } else {
        let mut s = decimal_string(n / 10);
        s.append(digit_str(n % 10));
        proof {
            assert(s@ =~= decimal((n / 10) as nat).push(digit_char((n % 10) as nat)));
        }
        s
    }
}

impl NulError {
    /// The message, as a sequence of characters.
    pub open spec fn message_spec(self) -> Seq<char> {
        "nul byte found in provided data at position: "@ + decimal(self.position as nat)
    }

    /// Says where the zero byte stands.
    pub fn message(&self) -> (s: String)
        ensures
            s@ == self.message_spec(),
    {
        let mut s = String::from_str("nul byte found in provided data at position: ");
        let digits = decimal_string(self.position);
        s.append(digits.as_str());
        s
    }
}

impl Utf8Error {
    /// The message, as a sequence of characters.
    pub open spec fn message_spec(self) -> Seq<char> {
        match self.error_len {
            Some(len) => "invalid utf-8 sequence of "@ + decimal(len as nat) + " bytes from index "@
                + decimal(self.valid_up_to as nat),
            None => "incomplete utf-8 byte sequence from index "@ + decimal(
                self.valid_up_to as nat,
            ),
        }
    }

    /// Says where the bytes stop being UTF-8, and how.
    pub fn message(&self) -> (s: String)
        ensures
            s@ == self.message_spec(),
    {
        let index = decimal_string(self.valid_up_to);
        match self.error_len {
            Some(len) => {
                let mut s = String::from_str("invalid utf-8 sequence of ");
                let digits = decimal_string(len);
                s.append(digits.as_str());
                s.append(" bytes from index ");
                s.append(index.as_str());
                s
            },
            None => {
                let mut s = String::from_str("incomplete utf-8 byte sequence from index ");
                s.append(index.as_str());
                s
            },
        }
    }
}

impl Error {
    /// `self` says that text with the bytes `bytes` holds a zero byte, and where
    /// the first one stands.
    pub open spec fn is_nul_in(self, bytes: Seq<u8>) -> bool {
        self matches Error::ConvertRustString(e) && crate::ffi::first_nul_at(
            bytes,
            e.position as int,
        )
    }

    /// `self` says that `bytes` are no text, and how long their longest
    /// beginning is that is UTF-8: no longer beginning is.
    pub open spec fn is_invalid_utf8_in(self, bytes: Seq<u8>) -> bool {
        self matches Error::ConvertCString(e) && e.valid_up_to < bytes.len()
            && vstd::utf8::valid_utf8(bytes.subrange(0, e.valid_up_to as int)) && forall|n: int|
            e.valid_up_to < n <= bytes.len() ==> !vstd::utf8::valid_utf8(
                #[trigger] bytes.subrange(0, n),
            )
    }

    /// `self` says that the function `name` of the toolkit failed, with no cause
    /// given.
    pub open spec fn is_failure_of(self, name: Seq<char>) -> bool {
        self matches Error::LibuiFn { name: n, cause } && n@ == name && cause is None
    }

    /// `self` says that the function `name` of the toolkit failed, and gives
    /// `cause` as the cause.
    pub open spec fn is_failure_because(self, name: Seq<char>, cause: Seq<char>) -> bool {
        self matches Error::LibuiFn { name: n, cause: c } && n@ == name && (c matches Some(text)
            && text@ == cause)
    }

    /// The message, as a sequence of characters.
    pub open spec fn message_spec(self) -> Seq<char> {
        match self {
            Error::AlreadyInitedLibui => "*libui-ng* is already initialized"@,
            Error::ConvertCString(e) => "failed to convert C string to Rust string: "@
                + e.message_spec(),
            Error::ConvertRustString(e) => "failed to convert Rust string to C string: "@
                + e.message_spec(),
            Error::LibuiFn { name, cause } => {
                let head = "*libui-ng* function `"@ + name@ + "` failed"@;
                match cause {
                    Some(cause) => head + ": "@ + cause@,
                    None => head,
                }
            },
        }
    }

    /// Describes the error in a line of text.
    pub fn message(&self) -> (s: String)
        ensures
            s@ == self.message_spec(),
    {
        match self {
            Error::AlreadyInitedLibui => String::from_str("*libui-ng* is already initialized"),
            Error::ConvertCString(e) => {
                let mut s = String::from_str("failed to convert C string to Rust string: ");
                let detail = e.message();
                s.append(detail.as_str());
                s
            },
            Error::ConvertRustString(e) => {
                let mut s = String::from_str("failed to convert Rust string to C string: ");
                let detail = e.message();
                s.append(detail.as_str());
                s
            },
            Error::LibuiFn { name, cause } => {
                let mut s = String::from_str("*libui-ng* function `");
                s.append(name);
                s.append("` failed");
                match cause {
                    Some(cause) => {
                        s.append(": ");
                        s.append(cause.as_str());
                    },
                    None => {},
                }
                s
            },
        }
    }
}

} // verus!
