//! What to make of the service's answer to a batch: whether the batch was
//! taken, whether to try once more, and whether to stop sending for good.

use vstd::prelude::*;

verus! {

/// What an HTTP status says about a delivery.
#[derive(Clone, Copy, Debug, PartialEq, Eq, Structural)]
pub enum ResponseClass {
    /// The batch was taken (2xx).
    Delivered,
    /// The service could not take the batch right now (429 and 5xx).
    Transient,
    /// The credential is not accepted (401 and 403): nothing will be taken
    /// from this client again.
    Fatal,
    /// The batch was refused, and would be again.
    Rejected,
}

/// What the status of a response says about a delivery.
pub open spec fn class_of(status: u16) -> ResponseClass {
    if 200 <= status < 300 {
        ResponseClass::Delivered
    } else if status == 401 || status == 403 {
        ResponseClass::Fatal
    } else if status == 429 || 500 <= status < 600 {
        ResponseClass::Transient
    } else {
        ResponseClass::Rejected
    }
}

/// What the status of a response says about a delivery.
pub fn classify(status: u16) -> (class: ResponseClass)
    ensures
        class == class_of(status),
{
    if 200 <= status && status < 300 {
        ResponseClass::Delivered
    } else if status == 401 || status == 403 {
        ResponseClass::Fatal
    } else if status == 429 || (500 <= status && status < 600) {
        ResponseClass::Transient
    } else {
        ResponseClass::Rejected
    }
}

/// What one attempt to deliver a batch came to.
#[derive(Clone, Copy, Debug, PartialEq, Eq, Structural)]
pub enum Attempt {
    /// The service answered, with this status and this rate-limit signal.
    Response { status: u16, rate_limit: Option<u64> },
    /// No answer came: the connection failed or timed out.
    NoResponse,
}

/// Why a batch was not delivered.
#[derive(Clone, Copy, Debug, PartialEq, Eq, Structural)]
pub enum SendError {
    /// No answer came, or the service could not take the batch, also at the
    /// second attempt.
    Transport,
    /// The credential is not accepted.
    Auth,
    /// The service refused the batch.
    Rejected,
    /// The batch could not be written out.
    Serialization,
}

/// What a delivery came to.
#[derive(Clone, Copy, Debug, PartialEq, Eq, Structural)]
pub struct EventSenderResult {
    pub success: bool,
    /// Whether nothing is to be sent from this client again.
    pub must_shutdown: bool,
    /// The rate-limit signal of the last response, if it carried one.
    pub rate_limit: Option<u64>,
    pub error: Option<SendError>,
}

/// What to do after an attempt.
#[derive(Clone, Copy, Debug, PartialEq, Eq, Structural)]
pub enum SendStep {
    /// Try once more.
    Retry,
    /// Stop, with this result.
    Done(EventSenderResult),
}

/// The rate-limit signal that an attempt brought.
pub open spec fn signal_of(attempt: Attempt) -> Option<u64> {
    match attempt {
        Attempt::Response { rate_limit, .. } => rate_limit,
        Attempt::NoResponse => None,
    }
}

/// Whether an attempt failed in a way that may pass: no answer, or an answer
/// that is transient.
pub open spec fn may_pass(attempt: Attempt) -> bool {
    match attempt {
        Attempt::Response { status, .. } => class_of(status) == ResponseClass::Transient,
        Attempt::NoResponse => true,
    }
}

/// What to do after `attempt`, which was the second one if `retried`: a
/// failure that may pass is tried once more, but only once; everything else
/// ends the delivery.
pub open spec fn step_after(retried: bool, attempt: Attempt) -> SendStep {
    if may_pass(attempt) {
        if retried {
            SendStep::Done(
                EventSenderResult {
                    success: false,
                    must_shutdown: false,
                    rate_limit: signal_of(attempt),
                    error: Some(SendError::Transport),
                },
            )
        } else {
            SendStep::Retry
        }
    } else {
        match class_of(attempt->status) {
            ResponseClass::Delivered => SendStep::Done(
                EventSenderResult {
                    success: true,
                    must_shutdown: false,
                    rate_limit: signal_of(attempt),
                    error: None,
                },
            ),
            ResponseClass::Fatal => SendStep::Done(
                EventSenderResult {
                    success: false,
                    must_shutdown: true,
                    rate_limit: signal_of(attempt),
                    error: Some(SendError::Auth),
                },
            ),
            _ => SendStep::Done(
                EventSenderResult {
                    success: false,
                    must_shutdown: false,
                    rate_limit: signal_of(attempt),
                    error: Some(SendError::Rejected),
                },
            ),
        }
    }
}

/// What to do after `attempt`, which was the second one if `retried`.
pub fn after_attempt(retried: bool, attempt: Attempt) -> (step: SendStep)
    ensures
        step == step_after(retried, attempt),
{
    match attempt {
        Attempt::NoResponse => {
            if retried {
                SendStep::Done(
                    EventSenderResult {
                        success: false,
                        must_shutdown: false,
                        rate_limit: None,
                        error: Some(SendError::Transport),
                    },
                )
            } else {
                SendStep::Retry
            }
        },
        Attempt::Response { status, rate_limit } => match classify(status) {
            ResponseClass::Delivered => SendStep::Done(
                EventSenderResult { success: true, must_shutdown: false, rate_limit, error: None },
            ),
            ResponseClass::Fatal => SendStep::Done(
                EventSenderResult {
                    success: false,
                    must_shutdown: true,
                    rate_limit,
                    error: Some(SendError::Auth),
                },
            ),
            ResponseClass::Transient => {
                if retried {
                    SendStep::Done(
                        EventSenderResult {
                            success: false,
                            must_shutdown: false,
                            rate_limit,
                            error: Some(SendError::Transport),
                        },
                    )
                } else {
                    SendStep::Retry
                }
            },
            ResponseClass::Rejected => SendStep::Done(
                EventSenderResult {
                    success: false,
                    must_shutdown: false,
                    rate_limit,
                    error: Some(SendError::Rejected),
                },
            ),
        },
    }
}

/// The result to report for a batch that could not be written out: nothing
/// was sent, and nothing is tried again.
pub fn serialization_failure() -> (result: EventSenderResult)
    ensures
        result == (EventSenderResult {
            success: false,
            must_shutdown: false,
            rate_limit: None,
            error: Some(SendError::Serialization),
        }),
{
    EventSenderResult {
        success: false,
        must_shutdown: false,
        rate_limit: None,
        error: Some(SendError::Serialization),
    }
}

/// A delivery makes two attempts at most, a failed credential is never tried
/// again, and only a delivered batch counts as a success.
pub proof fn lemma_at_most_one_retry(retried: bool, attempt: Attempt)
    ensures
        retried ==> step_after(retried, attempt) is Done,
        attempt is Response && class_of(attempt->status) == ResponseClass::Fatal ==> step_after(
            retried,
            attempt,
        ) is Done && step_after(retried, attempt)->Done_0.must_shutdown,
        step_after(retried, attempt) matches SendStep::Done(result) ==> (result.success <==> (
        attempt is Response && class_of(attempt->status) == ResponseClass::Delivered)) && (
        result.must_shutdown <==> (attempt is Response && class_of(attempt->status)
            == ResponseClass::Fatal)) && (result.success <==> result.error is None),
{
}

/// Whether `byte` is an ASCII digit.
pub open spec fn is_digit(byte: u8) -> bool {
    0x30 <= byte <= 0x39
}

/// Whether `text` is made of ASCII digits only.
pub open spec fn all_digits(text: Seq<u8>) -> bool {
    forall|i: int| 0 <= i < text.len() ==> is_digit(#[trigger] text[i])
}

/// The number that the decimal digits of `text` write.
pub open spec fn decimal_value(text: Seq<u8>) -> nat
    decreases text.len(),
{
    if text.len() == 0 {
        0
    } else {
        decimal_value(text.drop_last()) * 10 + (text.last() - 0x30) as nat
    }
}

/// The rate-limit signal that the text of a header writes: the number, where
/// the text is one or more decimal digits that write a number of 64 bits.
pub open spec fn rate_limit_of(text: Seq<u8>) -> Option<u64> {
    if text.len() > 0 && all_digits(text) && decimal_value(text) <= u64::MAX {
        Some(decimal_value(text) as u64)
    } else {
        None
    }
}

/// A number does not get smaller when digits are written behind it.
proof fn lemma_decimal_value_grows(text: Seq<u8>, n: int)
    requires
        0 <= n <= text.len(),
        all_digits(text),
    ensures
        decimal_value(text.take(n)) <= decimal_value(text),
    decreases text.len() - n,
{
    if n == text.len() {
        assert(text.take(n) =~= text);
    } else {
        lemma_decimal_value_grows(text, n + 1);
        assert(text.take(n + 1).drop_last() =~= text.take(n));
        assert(is_digit(text[n]));
        assert(text.take(n + 1).last() == text[n]);
    }
}

/// Reads the rate-limit signal from the text of a header.
pub fn parse_rate_limit(text: &[u8]) -> (signal: Option<u64>)
    ensures
        signal == rate_limit_of(text@),
{
    if text.len() == 0 {
        return None;
    }
    let mut value: u64 = 0;
    let mut i: usize = 0;
    assert(text@.take(0) =~= Seq::empty());
    while i < text.len()
        invariant
            i <= text.len(),
            all_digits(text@.take(i as int)),
            value as nat == decimal_value(text@.take(i as int)),
        decreases text.len() - i,
    {
        let byte = text[i];
        proof {
            assert(text@.take(i as int + 1).drop_last() =~= text@.take(i as int));
            assert(text@.take(i as int + 1).last() == byte);
        }
        if byte < 0x30 || byte > 0x39 {
            assert(!is_digit(text@[i as int]));
            return None;
        }
        let digit: u64 = (byte - 0x30) as u64;
        let next = match value.checked_mul(10) {
            Some(tens) => tens.checked_add(digit),
            None => None,
        };
        match next {
            Some(next) => {
                value = next;
            },
            None => {
                proof {
                    assert(decimal_value(text@.take(i as int + 1)) > u64::MAX);
                    if all_digits(text@) {
                        lemma_decimal_value_grows(text@, i as int + 1);
                    }
                }
                return None;
            },
        }
        proof {
            assert forall|j: int| 0 <= j < i + 1 implies is_digit(
                #[trigger] text@.take(i as int + 1)[j],
            ) by {
                if j < i {
                    assert(text@.take(i as int)[j] == text@[j]);
                }
            }
        }
        i += 1;
    }
    assert(text@.take(i as int) =~= text@);
    Some(value)
}

} // verus!
