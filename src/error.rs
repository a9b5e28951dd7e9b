use vstd::prelude::*;
use vstd::string::StringExecFns;

verus! {

/// What an evaluation or a call can end with besides a value.
#[derive(Clone, Copy, Debug, PartialEq, Eq, Structural)]
pub enum FreightError {
    /// A value that is no function was called, or a closure template was called
    /// before it was materialized, or a function reference names no function.
    InvalidInvocationTarget,
    /// The number of arguments lies outside the function's arity; no `expected_max`
    /// means the arity has no upper end.
    IncorrectArgumentCount { expected_min: usize, expected_max: Option<usize>, actual: usize },
    /// The control signal of a non-local return, on its way to `target`.
    Return { target: usize },
    /// A stack offset, capture index or global address outside its frame or table.
    InvalidAddress,
    /// Evaluation nested deeper than the engine's limit.
    StackOverflow,
}

/// The text of one decimal digit.
pub open spec fn digit_text(d: nat) -> Seq<char> {
    if d == 0 {
        "0"@
    } else if d == 1 {
        "1"@
    } else if d == 2 {
        "2"@
    } else if d == 3 {
        "3"@
    } else if d == 4 {
        "4"@
    } else if d == 5 {
        "5"@
    } else if d == 6 {
        "6"@
    } else if d == 7 {
        "7"@
    } else if d == 8 {
        "8"@
    } else {
        "9"@
    }
}

/// `n` written in decimal, without leading zeros.
pub open spec fn decimal(n: nat) -> Seq<char>
    decreases n,
{
    if n < 10 {
        digit_text(n)
    } else {
        decimal(n / 10) + digit_text(n % 10)
    }
}

/// Appends `n` in decimal to `s`.
fn push_decimal(s: &mut String, n: usize)
    ensures
        final(s)@ == old(s)@ + decimal(n as nat),
    decreases n,
{
    if n >= 10 {
        push_decimal(s, n / 10);
    }
    let d = n % 10;
    let ghost before = s@;
    if d == 0 {
        s.append("0");
    } else if d == 1 {
        s.append("1");
    } else if d == 2 {
        s.append("2");
    } else if d == 3 {
        s.append("3");
    } else if d == 4 {
        s.append("4");
    } else if d == 5 {
        s.append("5");
    } else if d == 6 {
        s.append("6");
    } else if d == 7 {
        s.append("7");
    } else if d == 8 {
        s.append("8");
    } else {
        s.append("9");
    }
    proof {
        if n >= 10 {
            assert(s@ =~= old(s)@ + (decimal((n / 10) as nat) + digit_text((n % 10) as nat)));
        }
    }
}

impl FreightError {
    /// The text that describes the error.
    pub open spec fn spec_message(self) -> Seq<char> {
        match self {
            FreightError::InvalidInvocationTarget => "Cannot invoke non-function values"@,
            FreightError::IncorrectArgumentCount { expected_min, expected_max, actual } => match expected_max {
                None => "Expected between "@ + decimal(expected_min as nat) + " and INFINITY arguments, got "@
                    + decimal(actual as nat),
                Some(max) => if max == expected_min {
                    "Expected "@ + decimal(expected_min as nat) + " arguments, got "@ + decimal(actual as nat)
                } else {
                    "Expected between "@ + decimal(expected_min as nat) + " and "@ + decimal(max as nat)
                        + " arguments, got "@ + decimal(actual as nat)
                },
            },
            FreightError::Return { target } => "Could not return to target "@ + decimal(target as nat),
            FreightError::InvalidAddress => "Variable address out of range"@,
            FreightError::StackOverflow => "Stack overflow"@,
        }
    }

    pub fn message(&self) -> (r: String)
        ensures
            r@ == self.spec_message(),
    {
        let mut s = String::new();
        match self {
            FreightError::InvalidInvocationTarget => s.append("Cannot invoke non-function values"),
            FreightError::IncorrectArgumentCount { expected_min, expected_max, actual } => match expected_max {
                None => {
                    s.append("Expected between ");
                    push_decimal(&mut s, *expected_min);
                    s.append(" and INFINITY arguments, got ");
                    push_decimal(&mut s, *actual);
                },
                Some(max) => if *max == *expected_min {
                    s.append("Expected ");
                    push_decimal(&mut s, *expected_min);
                    s.append(" arguments, got ");
                    push_decimal(&mut s, *actual);
                } else {
                    s.append("Expected between ");
                    push_decimal(&mut s, *expected_min);
                    s.append(" and ");
                    push_decimal(&mut s, *max);
                    s.append(" arguments, got ");
                    push_decimal(&mut s, *actual);
                },
            },
            FreightError::Return { target } => {
                s.append("Could not return to target ");
                push_decimal(&mut s, *target);
            },
            FreightError::InvalidAddress => s.append("Variable address out of range"),
            FreightError::StackOverflow => s.append("Stack overflow"),
        }
        s
    }
}

/// The outcome of catching returns aimed at `id`: the signal for `id` becomes the
/// value in the return slot; any other outcome passes unchanged.
pub open spec fn catch_return<V>(r: Result<V, FreightError>, id: usize, slot: V) -> Result<V, FreightError> {
    match r {
        Err(FreightError::Return { target }) => if target == id {
            Ok(slot)
        } else {
            r
        },
        _ => r,
    }
}

/// True when `r` is the return signal aimed at `id`.
pub fn is_return_to<V>(r: &Result<V, FreightError>, id: usize) -> (b: bool)
    ensures
        b == (r matches Err(FreightError::Return { target }) && target == id),
{
    match r {
        Err(FreightError::Return { target }) => *target == id,
        _ => false,
    }
}

} // verus!
