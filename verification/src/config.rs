//! The settings of the service, as text from its environment: the request
//! timeout, the greatest size of a request body, and the address to listen
//! on.
use vstd::prelude::*;
use vstd::string::*;
use crate::decimal::{decimal, push_decimal};

verus! {

/// The request timeout in seconds where none is set.
pub const DEFAULT_REQUEST_TIMEOUT_SECS: u64 = 30;

/// The greatest size of a request body in bytes where none is set.
pub const DEFAULT_MAX_REQUEST_SIZE: usize = 1048576;

/// The port to listen on where none is set.
pub const DEFAULT_PORT: u16 = 3000;

/// The value of a decimal digit; `None` for any other character.
pub open spec fn digit_value(c: char) -> Option<nat> {
    if '0' <= c <= '9' {
        Some((c as u32 - '0' as u32) as nat)
    } else {
        None
    }
}

/// The number that `digits` writes in decimal; `None` where a character is
/// no digit. No digits at all write 0.
pub open spec fn digits_value(digits: Seq<char>) -> Option<nat>
    decreases digits.len(),
{
    if digits.len() == 0 {
        Some(0)
    } else {
        match (digits_value(digits.drop_last()), digit_value(digits.last())) {
            (Some(high), Some(low)) => Some(10 * high + low),
            _ => None,
        }
    }
}

/// The number that `text` stands for: decimal digits, at least one, with
/// or without a `+` in front. `None` for any other text.
pub open spec fn number_value(text: Seq<char>) -> Option<nat> {
    let digits = if text.len() > 0 && text[0] == '+' {
        text.drop_first()
    } else {
        text
    };
    if digits.len() == 0 {
        None
    } else {
        digits_value(digits)
    }
}

/// The number that `text` stands for, where it is at most `limit`.
pub open spec fn bounded_value(text: Seq<char>, limit: nat) -> Option<nat> {
    match number_value(text) {
        Some(value) if value <= limit => Some(value),
        _ => None,
    }
}

/// The number that `text` stands for, where there is one and it is at most
/// `limit`.
pub fn parse_bounded(text: &str, limit: u64) -> (value: Option<u64>)
    ensures
        match value {
            Some(number) => bounded_value(text@, limit as nat) == Some(number as nat),
            None => bounded_value(text@, limit as nat) is None,
        },
{
    let mut value: u64 = 0;
    let mut first: bool = true;
    let mut any_digit: bool = false;
    let ghost signed: bool = text@.len() > 0 && text@[0] == '+';
    let ghost body: Seq<char> = if signed {
        text@.drop_first()
    } else {
        text@
    };
    for c in it: text.chars()
        invariant
            it.seq() == text@,
            first == (it.index() == 0),
            signed == (text@.len() > 0 && text@[0] == '+'),
            body == if signed {
                text@.drop_first()
            } else {
                text@
            },
            any_digit == (it.index() > if signed {
                1int
            } else {
                0int
            }),
            digits_value(
                body.take(
                    if signed && !first {
                        it.index() - 1
                    } else {
                        it.index()
                    },
                ),
            ) == Some(value as nat),
            value <= limit,
    {
        let ghost done: int = if signed && !first {
            it.index() - 1
        } else {
            it.index()
        };
        if !(first && c == '+') {
            let ghost taken = body.take(done + 1);
            proof {
                assert(taken.drop_last() =~= body.take(done));
            }
            if !('0' <= c && c <= '9') {
                proof {
                    lemma_no_value_with_other_character(body, done);
                }
                return None;
            }
            let low: u64 = (c as u32 - '0' as u32) as u64;
            if limit < low || value > (limit - low) / 10 {
                proof {
                    lemma_value_grows(body, done + 1);
                }
                return None;
            }
            value = 10 * value + low;
            any_digit = true;
        }
        first = false;
    }
    proof {
        assert(body.take(body.len() as int) =~= body);
    }
    if any_digit {
        Some(value)
    } else {
        None
    }
}

/// Text with a character that is no digit writes no number.
pub proof fn lemma_no_value_with_other_character(digits: Seq<char>, at: int)
    requires
        0 <= at < digits.len(),
        digit_value(digits[at]) is None,
    ensures
        digits_value(digits) is None,
    decreases digits.len(),
{
    if at < digits.len() - 1 {
        lemma_no_value_with_other_character(digits.drop_last(), at);
    }
}

/// The number that digits write is at least the number that any of their
/// prefixes writes.
pub proof fn lemma_value_grows(digits: Seq<char>, upto: int)
    requires
        0 <= upto <= digits.len(),
    ensures
        digits_value(digits) matches Some(whole) ==> digits_value(digits.take(upto)) matches Some(
            part,
        ) && part <= whole,
    decreases digits.len(),
{
    if upto == digits.len() {
        assert(digits.take(upto) =~= digits);
    } else if digits_value(digits) is Some {
        lemma_value_grows(digits.drop_last(), upto);
        assert(digits.drop_last().take(upto) =~= digits.take(upto));
    }
}

/// The request timeout in seconds: what `raw` says, or the default where
/// it is not set or stands for no number of 64 bits.
pub fn request_timeout_secs(raw: Option<&str>) -> (secs: u64)
    ensures
        secs == match raw {
            Some(text) => match bounded_value(text@, u64::MAX as nat) {
                Some(value) => value as u64,
                None => DEFAULT_REQUEST_TIMEOUT_SECS,
            },
            None => DEFAULT_REQUEST_TIMEOUT_SECS,
        },
{
    match raw {
        Some(text) => match parse_bounded(text, u64::MAX) {
            Some(value) => value,
            None => DEFAULT_REQUEST_TIMEOUT_SECS,
        },
        None => DEFAULT_REQUEST_TIMEOUT_SECS,
    }
}

/// The greatest size of a request body in bytes: what `raw` says, or the
/// default where it is not set or stands for no number that fits a size.
pub fn max_request_size(raw: Option<&str>) -> (size: usize)
    ensures
        size == match raw {
            Some(text) => match bounded_value(text@, usize::MAX as nat) {
                Some(value) => value as usize,
                None => DEFAULT_MAX_REQUEST_SIZE,
            },
            None => DEFAULT_MAX_REQUEST_SIZE,
        },
{
    match raw {
        Some(text) => match parse_bounded(text, usize::MAX as u64) {
            Some(value) => value as usize,
            None => DEFAULT_MAX_REQUEST_SIZE,
        },
        None => DEFAULT_MAX_REQUEST_SIZE,
    }
}

/// The port to listen on: the default where `raw` is not set, else what it
/// says. A port that is set and stands for no number of 16 bits is an
/// error, and the service does not start.
pub fn listen_port(raw: Option<&str>) -> (port: Option<u16>)
    ensures
        port == match raw {
            Some(text) => match bounded_value(text@, u16::MAX as nat) {
                Some(value) => Some(value as u16),
                None => None,
            },
            None => Some(DEFAULT_PORT),
        },
{
    match raw {
        Some(text) => match parse_bounded(text, u16::MAX as u64) {
            Some(value) => Some(value as u16),
            None => None,
        },
        None => Some(DEFAULT_PORT),
    }
}

/// The host to listen on where none is set.
pub open spec fn default_host() -> Seq<char> {
    "0.0.0.0"@
}

/// The address to listen on: the host, or the default where none is set,
/// a colon, and the port.
pub fn listen_address(host: Option<&str>, port: u16) -> (address: String)
    ensures
        address@ == match host {
            Some(name) => name@,
            None => default_host(),
        } + ":"@ + decimal(port as nat),
{
    let mut address = match host {
        Some(name) => String::from_str(name),
        None => String::from_str("0.0.0.0"),
    };
    address.append(":");
    push_decimal(&mut address, port as u128);
    address
}

/// The deadline for the parser in milliseconds, for a timeout in seconds;
/// the greatest number of 64 bits where the product is greater.
pub fn deadline_ms(timeout_secs: u64) -> (millis: u64)
    ensures
        millis == if timeout_secs * 1000 <= u64::MAX {
            (timeout_secs * 1000) as u64
        } else {
            u64::MAX
        },
{
    if timeout_secs <= u64::MAX / 1000 {
        timeout_secs * 1000
    } else {
        u64::MAX
    }
}

} // verus!
