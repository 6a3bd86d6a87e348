//! The delivery boundary: error shapes the provider can report, and their
//! classification into retry/terminal classes.

use vstd::prelude::*;

verus! {

/// What a failed delivery attempt reports. The provider boundary honors
/// exactly three shapes: a status code with a response body, a timeout,
/// and an opaque other-error.
#[derive(Debug, Clone, PartialEq, Eq)]
pub enum DeliveryError {
    /// The provider answered with an error status and a response body.
    Provider { status: u16, body: String },
    /// The attempt timed out waiting for the provider.
    Timeout,
    /// Any other failure kind.
    Other,
}

/// The class a delivery outcome falls in, which decides what the executor
/// does next.
#[derive(Debug, Clone, Copy, PartialEq, Eq, Structural)]
pub enum Classification {
    /// Delivered: stop retrying, the task is complete.
    TerminalSuccess,
    /// Status 400 or 404: the recipient is no longer valid; surface it to
    /// the invalidation path and stop retrying.
    StaleRecipient,
    /// Status 500 or 503: a transient server fault; retry after backoff.
    TransientServer,
    /// Any other provider status: log at error level and stop retrying.
    PermanentClientError,
    /// A timeout: transient; retry after backoff.
    TransientTimeout,
    /// Any other error kind: log at error level and stop retrying.
    Unclassified,
}

/// The classification table, stated directly over the outcome shape.
pub open spec fn classify_spec(outcome: Result<(), DeliveryError>) -> Classification {
    match outcome {
        Ok(()) => Classification::TerminalSuccess,
        Err(DeliveryError::Provider { status, .. }) => if status == 400 || status == 404 {
            Classification::StaleRecipient
        } else if status == 500 || status == 503 {
            Classification::TransientServer
        } else {
            Classification::PermanentClientError
        },
        Err(DeliveryError::Timeout) => Classification::TransientTimeout,
        Err(DeliveryError::Other) => Classification::Unclassified,
    }
}

/// Classifies one delivery outcome.
pub fn classify(outcome: &Result<(), DeliveryError>) -> (c: Classification)
    ensures
        c == classify_spec(*outcome),
{
    match outcome {
        Ok(()) => Classification::TerminalSuccess,
        Err(DeliveryError::Provider { status, .. }) => {
            if *status == 400 || *status == 404 {
                Classification::StaleRecipient
            } else if *status == 500 || *status == 503 {
                Classification::TransientServer
            } else {
                Classification::PermanentClientError
            }
        },
        Err(DeliveryError::Timeout) => Classification::TransientTimeout,
        Err(DeliveryError::Other) => Classification::Unclassified,
    }
}

/// The provider boundary renders a status failure as text beginning
/// `error code `, then the decimal status, then the reason and response
/// body. This holds when `s` starts with those eleven bytes.
pub open spec fn has_status_prefix(s: Seq<u8>) -> bool {
    &&& s.len() >= 11
    &&& s[0] == 101u8  // e
    &&& s[1] == 114u8  // r
    &&& s[2] == 114u8  // r
    &&& s[3] == 111u8  // o
    &&& s[4] == 114u8  // r
    &&& s[5] == 32u8  // space
    &&& s[6] == 99u8  // c
    &&& s[7] == 111u8  // o
    &&& s[8] == 100u8  // d
    &&& s[9] == 101u8  // e
    &&& s[10] == 32u8  // space
}

/// An ASCII decimal digit.
pub open spec fn is_ascii_digit_byte(b: u8) -> bool {
    48 <= b <= 57
}

/// How many consecutive digit bytes stand at position `i` of `s`.
pub open spec fn digit_run(s: Seq<u8>, i: int) -> nat
    decreases s.len() - i,
{
    if 0 <= i < s.len() && is_ascii_digit_byte(s[i]) {
        1 + digit_run(s, i + 1)
    } else {
        0
    }
}

/// The decimal value of the `n` digit bytes of `s` starting at `i`.
pub open spec fn digits_value(s: Seq<u8>, i: int, n: int) -> int
    decreases n,
{
    if n <= 0 {
        0
    } else {
        digits_value(s, i, n - 1) * 10 + (s[i + n - 1] - 48)
    }
}

/// The status code carried in provider error text: present exactly when the
/// text opens with the status prefix followed by one to five digits whose
/// value fits a status code; the digits end at the text's end or at the
/// first non-digit byte.
pub open spec fn provider_status_spec(s: Seq<u8>) -> Option<u16> {
    if has_status_prefix(s) {
        let n = digit_run(s, 11) as int;
        if 1 <= n <= 5 && digits_value(s, 11, n) <= u16::MAX {
            Some(digits_value(s, 11, n) as u16)
        } else {
            None
        }
    } else {
        None
    }
}

/// Ten to the power `n`, for the digit counts the status parser admits.
pub open spec fn pow_of_ten(n: int) -> int {
    if n <= 0 {
        1
    } else if n == 1 {
        10
    } else if n == 2 {
        100
    } else if n == 3 {
        1000
    } else if n == 4 {
        10000
    } else {
        100000
    }
}

/// `n` digits are worth less than ten to the `n`.
proof fn lemma_digits_value_bound(s: Seq<u8>, i: int, n: int)
    requires
        0 <= n <= 5,
        forall|k: int| i <= k < i + n ==> is_ascii_digit_byte(#[trigger] s[k]),
    ensures
        0 <= digits_value(s, i, n) < pow_of_ten(n),
    decreases n,
{
    if n > 0 {
        lemma_digits_value_bound(s, i, n - 1);
    }
}

/// A stretch of digits pushes the digit run at least that far.
proof fn lemma_digit_run_at_least(s: Seq<u8>, i: int, n: int)
    requires
        0 <= i,
        0 <= n,
        i + n <= s.len(),
        forall|k: int| i <= k < i + n ==> is_ascii_digit_byte(#[trigger] s[k]),
    ensures
        digit_run(s, i) >= n,
    decreases n,
{
    if n > 0 {
        assert(is_ascii_digit_byte(s[i]));
        lemma_digit_run_at_least(s, i + 1, n - 1);
    }
}

/// A stretch of digits closed off by the text's end or a non-digit is the
/// whole digit run.
proof fn lemma_digit_run_exact(s: Seq<u8>, i: int, n: int)
    requires
        0 <= i,
        0 <= n,
        i + n <= s.len(),
        forall|k: int| i <= k < i + n ==> is_ascii_digit_byte(#[trigger] s[k]),
        i + n == s.len() || !is_ascii_digit_byte(s[i + n]),
    ensures
        digit_run(s, i) == n,
    decreases n,
{
    if n > 0 {
        assert(is_ascii_digit_byte(s[i]));
        lemma_digit_run_exact(s, i + 1, n - 1);
    }
}

/// Whether `b` is an ASCII decimal digit.
fn is_digit_byte(b: u8) -> (r: bool)
    ensures
        r == is_ascii_digit_byte(b),
{
    48 <= b && b <= 57
}

/// Extracts the status code from provider error text, if the text carries
/// one where the provider boundary puts it.
pub fn provider_status(text: &[u8]) -> (r: Option<u16>)
    ensures
        r == provider_status_spec(text@),
{
    if text.len() < 11 {
        return None;
    }
    let prefixed = text[0] == 101 && text[1] == 114 && text[2] == 114 && text[3] == 111 && text[4]
        == 114 && text[5] == 32 && text[6] == 99 && text[7] == 111 && text[8] == 100 && text[9]
        == 101 && text[10] == 32;
    if !prefixed {
        return None;
    }
    let ghost s = text@;
    let mut i: usize = 11;
    let mut acc: u32 = 0;
    while i < text.len() && i < 16 && is_digit_byte(text[i])
        invariant
            11 <= i <= text.len(),
            i <= 16,
            forall|k: int| 11 <= k < i ==> is_ascii_digit_byte(#[trigger] s[k]),
            acc == digits_value(s, 11, i - 11),
            s == text@,
        decreases text.len() - i,
    {
        proof {
            lemma_digits_value_bound(s, 11, i - 11);
        }
        acc = acc * 10 + (text[i] - 48) as u32;
        i = i + 1;
    }
    let n: usize = i - 11;
    if n == 0 {
        proof {
            lemma_digit_run_exact(s, 11, 0);
        }
        return None;
    }
    if i < text.len() && is_digit_byte(text[i]) {
        proof {
            lemma_digit_run_at_least(s, 11, n + 1);
        }
        return None;
    }
    proof {
        lemma_digit_run_exact(s, 11, n as int);
    }
    if acc > 65535 {
        return None;
    }
    Some(acc as u16)
}

/// Shapes a provider-reported failure for classification: `text` is the
/// provider's error text, handed in once as bytes and once as the owned
/// body string. With a parsable leading status the failure is a provider
/// error carrying that status and the full text as body; without one, an
/// unclassified failure.
pub fn provider_error(text: &[u8], body: String) -> (e: DeliveryError)
    ensures
        provider_status_spec(text@) matches Some(status) ==> e == (DeliveryError::Provider {
            status,
            body,
        }),
        provider_status_spec(text@) is None ==> e == DeliveryError::Other,
{
    match provider_status(text) {
        Some(status) => DeliveryError::Provider { status, body },
        None => DeliveryError::Other,
    }
}

} // verus!
