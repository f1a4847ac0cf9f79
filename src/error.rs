//! The closed set of error categories the library reports, and the stable
//! numeric code and message each one carries across the host boundary.
use vstd::prelude::*;

verus! {

/// What went wrong, by category.
#[derive(Debug)]
pub enum AppError {
    /// Invalid input provided by the caller.
    Validation(String),
    /// Failure when communicating with the remote service.
    Network(String),
    /// The remote service explicitly returned an error.
    Server { status: u16, message: String },
    /// Authentication or authorization failed.
    Unauthorized,
    /// Serialization or deserialization failed.
    Serialization(String),
    /// Any other unclassified error.
    Internal(String),
}

/// The character of a decimal digit.
pub open spec fn digit_char(d: nat) -> char {
    if d == 0 {
        '0'
    } else if d == 1 {
        '1'
    } else if d == 2 {
        '2'
    } else if d == 3 {
        '3'
    } else if d == 4 {
        '4'
    } else if d == 5 {
        '5'
    } else if d == 6 {
        '6'
    } else if d == 7 {
        '7'
    } else if d == 8 {
        '8'
    } else {
        '9'
    }
}

/// The decimal notation of `n`, without leading zeros.
pub open spec fn decimal(n: nat) -> Seq<char>
    decreases n,
{
    if n < 10 {
        seq![digit_char(n)]
    } else {
        decimal(n / 10).push(digit_char(n % 10))
    }
}

fn digit_str(d: u16) -> (r: &'static str)
    requires
        d < 10,
    ensures
        r@ == seq![digit_char(d as nat)],
{
    proof {
        reveal_strlit("0");
        reveal_strlit("1");
        reveal_strlit("2");
        reveal_strlit("3");
        reveal_strlit("4");
        reveal_strlit("5");
        reveal_strlit("6");
        reveal_strlit("7");
        reveal_strlit("8");
        reveal_strlit("9");
    }
    match d {
        0 => "0",
        1 => "1",
        2 => "2",
        3 => "3",
        4 => "4",
        5 => "5",
        6 => "6",
        7 => "7",
        8 => "8",
        _ => "9",
    }
}

/// Appends the decimal notation of `n` to `out`.
fn push_decimal(out: &mut String, n: u16)
    ensures
        final(out)@ == old(out)@ + decimal(n as nat),
    decreases n,
{
    if n >= 10 {
        push_decimal(out, n / 10);
    }
    out.append(digit_str(n % 10));
    proof {
        if n >= 10 {
            assert(decimal(n as nat) == decimal((n / 10) as nat).push(digit_char((n % 10) as nat)));
        }
    }
}

impl AppError {
    /// The stable numeric code of each category.
    pub open spec fn spec_code(&self) -> i32 {
        match self {
            AppError::Validation(_) => 1,
            AppError::Network(_) => 2,
            AppError::Server { .. } => 3,
            AppError::Unauthorized => 4,
            AppError::Serialization(_) => 5,
            AppError::Internal(_) => 999,
        }
    }

    /// The message that goes with the code: the text the error carries; for a
    /// server error its status, a space and its message.
    pub open spec fn spec_message(&self) -> Seq<char> {
        match self {
            AppError::Validation(m) => m@,
            AppError::Network(m) => m@,
            AppError::Server { status, message } => decimal(*status as nat) + seq![' '] + message@,
            AppError::Unauthorized => seq!['u', 'n', 'a', 'u', 't', 'h', 'o', 'r', 'i', 'z', 'e', 'd'],
            AppError::Serialization(m) => m@,
            AppError::Internal(m) => m@,
        }
    }

    pub fn code(&self) -> (r: i32)
        ensures
            r == self.spec_code(),
    {
        match self {
            AppError::Validation(_) => 1,
            AppError::Network(_) => 2,
            AppError::Server { .. } => 3,
            AppError::Unauthorized => 4,
            AppError::Serialization(_) => 5,
            AppError::Internal(_) => 999,
        }
    }

    pub fn message(&self) -> (r: String)
        ensures
            r@ == self.spec_message(),
    {
        match self {
            AppError::Validation(m) => m.clone(),
            AppError::Network(m) => m.clone(),
            AppError::Server { status, message } => {
                let mut out = String::new();
                push_decimal(&mut out, *status);
                out.append(" ");
                out.append(message.as_str());
                proof {
                    reveal_strlit(" ");
                }
                out
            },
            AppError::Unauthorized => {
                proof {
                    reveal_strlit("unauthorized");
                }
                String::from_str("unauthorized")
            },
            AppError::Serialization(m) => m.clone(),
            AppError::Internal(m) => m.clone(),
        }
    }
}

} // verus!
