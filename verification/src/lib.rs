//! A typed wrapper around a raw operating-system error code.
//!
//! `OsError` holds the small signed integer that a failing system call
//! reports (`errno` on POSIX, `GetLastError` on Windows) and exposes it
//! under the portable classification that the host standard library
//! already maintains, instead of keeping per-platform numeric tables of
//! its own. The type is an immutable value: equality, ordering and
//! hashing are those of the stored code.

use vstd::prelude::*;

verus! {

use core::cmp::Ordering;
use vstd::std_specs::cmp::PartialOrdSpec;
use vstd::string::StringExecFns;

#[verifier::external_type_specification]
#[verifier::external_body]
pub struct ExIoError(std::io::Error);

#[verifier::external_type_specification]
#[verifier::external_body]
pub struct ExIoErrorKind(std::io::ErrorKind);

/// The portable category that the host's error-translation facility
/// assigns to a raw code. For the target platform the category is
/// determined by the code alone; codes the platform does not recognize
/// fall into its catch-all category.
pub uninterp spec fn kind_of(code: i32) -> std::io::ErrorKind;

/// Relies on `std::io::Error::from_raw_os_error` followed by
/// `std::io::Error::kind`: the host standard library's own translation of
/// a raw code into its portable `ErrorKind`, a pure lookup determined by
/// the code alone on the target platform.
#[verifier::external_body]
fn host_kind(code: i32) -> (k: std::io::ErrorKind)
    ensures
        k == kind_of(code),
{
    std::io::Error::from_raw_os_error(code).kind()
}

/// Relies on `std::io::Error::last_os_error` followed by
/// `std::io::Error::raw_os_error`: the calling thread's most recently
/// recorded OS error code. An error obtained from `last_os_error` is
/// documented to originate from the raw OS error value, so the code is
/// always present and the `unwrap` cannot panic. The value read is
/// thread-local state, so nothing further is stated of it.
#[verifier::external_body]
fn host_last_error_code() -> i32 {
    std::io::Error::last_os_error().raw_os_error().unwrap()
}

/// The raw OS code a generic error condition carries, or `None` where it
/// did not originate from the OS. A pure accessor of the condition value,
/// which is otherwise opaque here.
pub uninterp spec fn raw_code_of(error: std::io::Error) -> Option<i32>;

/// Relies on `std::io::Error::raw_os_error`: the raw OS code the
/// condition was built from, or `None` where it did not originate from
/// the OS. The result is a function of the condition value alone.
#[verifier::external_body]
fn host_raw_code(error: &std::io::Error) -> (r: Option<i32>)
    ensures
        r == raw_code_of(*error),
{
    error.raw_os_error()
}

/// The host's rendered name for the portable category of a raw code, as
/// the `Debug` formatting of `std::io::ErrorKind` shows it.
pub uninterp spec fn kind_text_of(code: i32) -> Seq<char>;

/// Relies on `std::io::Error::from_raw_os_error`, `std::io::Error::kind`
/// and the `Debug` rendering of `std::io::ErrorKind`: the rendered name
/// of the category the host assigns to `code`, a pure function of the
/// code alone on the target platform.
#[verifier::external_body]
fn host_kind_text(code: i32) -> (r: String)
    ensures
        r@ == kind_text_of(code),
{
    format!("{:?}", std::io::Error::from_raw_os_error(code).kind())
}

/// Relies on the `Display` rendering of `std::io::Error`: the host
/// platform's own human-readable message for the code. The text can
/// depend on the host's configured language, so nothing is stated of it.
#[verifier::external_body]
fn host_message(code: i32) -> String {
    std::io::Error::from_raw_os_error(code).to_string()
}

/// The character for one decimal digit.
pub open spec fn digit_char(d: nat) -> char {
    if d == 0 {
        '0'
    } else if d == 1 {
        '1'
    } else if d == 2 {
        '2'
    } else if d == 3 {
        '3'
    } else if d == 4 {
        '4'
    } else if d == 5 {
        '5'
    } else if d == 6 {
        '6'
    } else if d == 7 {
        '7'
    } else if d == 8 {
        '8'
    } else {
        '9'
    }
}

/// The decimal digits of `n`, most significant first, no leading zeros.
pub open spec fn decimal_digits(n: nat) -> Seq<char>
    decreases n,
{
    if n < 10 {
        seq![digit_char(n)]
    } else {
        decimal_digits(n / 10) + seq![digit_char(n % 10)]
    }
}

/// The decimal rendering of `n`, with a leading minus sign when negative.
pub open spec fn decimal_text(n: int) -> Seq<char> {
    if n < 0 {
        seq!['-'] + decimal_digits((-n) as nat)
    } else {
        decimal_digits(n as nat)
    }
}

/// The diagnostic rendering of a raw code: the code itself and the name
/// of its portable category.
pub open spec fn debug_text(code: i32) -> Seq<char> {
    "OsError { code: "@ + decimal_text(code as int) + ", kind: "@ + kind_text_of(code) + " }"@
}

/// The one-character string for a decimal digit.
fn digit_str(d: u32) -> (r: &'static str)
    requires
        d < 10,
    ensures
        r@ == seq![digit_char(d as nat)],
{
    proof {
        reveal_strlit("0");
        reveal_strlit("1");
        reveal_strlit("2");
        reveal_strlit("3");
        reveal_strlit("4");
        reveal_strlit("5");
        reveal_strlit("6");
        reveal_strlit("7");
        reveal_strlit("8");
        reveal_strlit("9");
    }
    let r = if d == 0 {
        "0"
    } else if d == 1 {
        "1"
    } else if d == 2 {
        "2"
    } else if d == 3 {
        "3"
    } else if d == 4 {
        "4"
    } else if d == 5 {
        "5"
    } else if d == 6 {
        "6"
    } else if d == 7 {
        "7"
    } else if d == 8 {
        "8"
    } else {
        "9"
    };
    proof {
        assert(r@ =~= seq![digit_char(d as nat)]);
    }
    r
}

/// Appends the decimal digits of `n` to `s`.
fn push_decimal_digits(s: &mut String, n: u32)
    ensures
        final(s)@ == old(s)@ + decimal_digits(n as nat),
    decreases n,
{
    if n < 10 {
        s.append(digit_str(n));
    } else {
        push_decimal_digits(s, n / 10);
        s.append(digit_str(n % 10));
        proof {
            assert(s@ =~= old(s)@ + decimal_digits(n as nat));
        }
    }
}

/// The decimal rendering of `code`, sign included.
fn decimal_string(code: i32) -> (r: String)
    ensures
        r@ == decimal_text(code as int),
{
    let mut s = String::new();
    if code < 0 {
        proof {
            reveal_strlit("-");
        }
        s.append("-");
        let magnitude: u32 = (-(code as i64)) as u32;
        push_decimal_digits(&mut s, magnitude);
        proof {
            assert(s@ =~= decimal_text(code as int));
        }
    } else {
        push_decimal_digits(&mut s, code as u32);
        proof {
            assert(s@ =~= decimal_text(code as int));
        }
    }
    s
}

/// One raw operating-system error code.
///
/// Any `i32` is accepted; codes the host platform does not recognize
/// simply classify into its catch-all category.
#[derive(Clone, Copy, PartialEq, Eq, Structural, Ord, Hash, Debug)]
pub struct OsError {
    code: i32,
}

/// Marker for a failed narrowing conversion: the source condition
/// carried no raw operating-system code.
#[derive(Clone, Copy, PartialEq, Eq, Structural, PartialOrd, Ord, Hash, Debug)]
pub struct NoOsError;

/// The outcome of narrowing an optional raw code: the wrapped code where
/// one is present, the marker where none is.
pub open spec fn spec_from_raw(raw: Option<i32>) -> Result<OsError, NoOsError> {
    match raw {
        Some(code) => Ok(spec_new(code)),
        None => Err(NoOsError),
    }
}

/// The `OsError` value holding `code`.
pub closed spec fn spec_new(code: i32) -> OsError {
    OsError { code }
}

impl OsError {
    /// The raw code this value holds.
    pub closed spec fn spec_code(self) -> i32 {
        self.code
    }

    /// Creates a new instance of an `OsError` from a particular OS error
    /// code. Total: no validation of `code` is performed.
    pub fn new(code: i32) -> (r: OsError)
        ensures
            r == spec_new(code),
            r.spec_code() == code,
    {
        OsError { code }
    }

    /// Returns the OS error code that this error represents.
    pub fn code(&self) -> (r: i32)
        ensures
            r == self.spec_code(),
    {
        self.code
    }

    /// Returns the corresponding `ErrorKind` for this error: the portable
    /// category the host platform assigns to the stored code.
    pub fn kind(&self) -> (k: std::io::ErrorKind)
        ensures
            k == kind_of(self.spec_code()),
    {
        host_kind(self.code)
    }

    /// Returns an error representing the last OS error which occurred on
    /// the calling thread. Meaningful only immediately after a system
    /// call that is known to have failed; which code is read is decided
    /// by that thread-local state, so no more is promised of the result.
    pub fn last_os_error() -> OsError {
        OsError::new(host_last_error_code())
    }

    /// Narrows an optional raw code into an `OsError`: succeeds exactly
    /// when a code is present, and fails with the marker otherwise.
    pub fn from_raw_code(raw: Option<i32>) -> (r: Result<OsError, NoOsError>)
        ensures
            r == spec_from_raw(raw),
            raw matches Some(code) ==> r == Ok::<OsError, NoOsError>(spec_new(code)),
            raw is None ==> r == Err::<OsError, NoOsError>(NoOsError),
    {
        match raw {
            Some(code) => Ok(OsError::new(code)),
            None => Err(NoOsError),
        }
    }

    /// Attempts to extract a raw OS code from a generic error condition:
    /// succeeds with the wrapped code exactly when the condition carries
    /// one, and fails with the marker otherwise. Never panics.
    pub fn try_from(error: std::io::Error) -> (r: Result<OsError, NoOsError>)
        ensures
            r == spec_from_raw(raw_code_of(error)),
    {
        OsError::from_raw_code(host_raw_code(&error))
    }

    /// Relies on `std::io::Error::from_raw_os_error`: the widening
    /// conversion back into the host's generic error condition, tagged
    /// with this raw code — `raw_os_error` is documented to return `Some`
    /// of the code for an error built this way, so downstream consumers
    /// recover both the code and its classification.
    #[verifier::external_body]
    pub fn to_error(&self) -> (r: std::io::Error)
        ensures
            raw_code_of(r) == Some(self.spec_code()),
    {
        std::io::Error::from_raw_os_error(self.code)
    }

    /// Renders the raw code together with the name of its portable
    /// category, for logs and diagnostics.
    pub fn format_debug(&self) -> (r: String)
        ensures
            r@ == debug_text(self.spec_code()),
    {
        let mut s = String::from_str("OsError { code: ");
        let digits = decimal_string(self.code);
        s.append(digits.as_str());
        s.append(", kind: ");
        let kind_name = host_kind_text(self.code);
        s.append(kind_name.as_str());
        s.append(" }");
        proof {
            assert(s@ =~= debug_text(self.spec_code()));
        }
        s
    }

    /// Renders the host platform's own human-readable message for the
    /// stored code, the same text the operating system shows for that
    /// error number. The host chooses the text (it can follow the
    /// configured language), so no more is promised of the result.
    pub fn format_display(&self) -> String {
        host_message(self.code)
    }
}

impl PartialOrd for OsError {
    fn partial_cmp(&self, other: &OsError) -> (r: Option<Ordering>) {
        if self.code < other.code {
            Some(Ordering::Less)
        } else if self.code == other.code {
            Some(Ordering::Equal)
        } else {
            Some(Ordering::Greater)
        }
    }
}

impl vstd::std_specs::cmp::PartialOrdSpecImpl for OsError {
    open spec fn obeys_partial_cmp_spec() -> bool {
        true
    }

    open spec fn partial_cmp_spec(&self, other: &OsError) -> Option<Ordering> {
        if self.spec_code() < other.spec_code() {
            Some(Ordering::Less)
        } else if self.spec_code() == other.spec_code() {
            Some(Ordering::Equal)
        } else {
            Some(Ordering::Greater)
        }
    }
}

/// Wrapping a code and reading it back yields that code.
pub proof fn lemma_code_roundtrip(code: i32)
    ensures
        spec_new(code).spec_code() == code,
{
}

/// Every value is the wrap of its own code: the stored integer is all
/// there is to an `OsError`.
pub proof fn lemma_wrap_of_own_code(e: OsError)
    ensures
        spec_new(e.spec_code()) == e,
{
}

/// The widening conversion is reversible: narrowing a condition that
/// carries this value's code yields the value back, so downstream
/// consumers recover both the original code and its classification.
pub proof fn lemma_widening_recovers(e: OsError)
    ensures
        spec_from_raw(Some(e.spec_code())) == Ok::<OsError, NoOsError>(e),
{
}

/// Classification is deterministic: it depends on the stored code alone,
/// so two values holding the same code classify identically, and repeated
/// classification of one value always yields the same category.
pub proof fn lemma_classification_deterministic(e1: OsError, e2: OsError)
    requires
        e1.spec_code() == e2.spec_code(),
    ensures
        kind_of(e1.spec_code()) == kind_of(e2.spec_code()),
{
}

/// Two values are equal exactly when their codes are, and they order as
/// their codes order as integers.
pub proof fn lemma_eq_and_order_by_code(c1: i32, c2: i32)
    ensures
        (spec_new(c1) == spec_new(c2)) <==> (c1 == c2),
        (spec_new(c1).partial_cmp_spec(&spec_new(c2)) == Some(Ordering::Less)) <==> (c1 < c2),
        (spec_new(c1).partial_cmp_spec(&spec_new(c2)) == Some(Ordering::Equal)) <==> (c1 == c2),
        (spec_new(c1).partial_cmp_spec(&spec_new(c2)) == Some(Ordering::Greater)) <==> (c1 > c2),
{
}

} // verus!
