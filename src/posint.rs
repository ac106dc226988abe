use vstd::prelude::*;
use vstd::string::StrSliceExecFns;

verus! {

#[verifier::external_type_specification]
#[verifier::external_body]
pub struct ExParseIntError(core::num::ParseIntError);

/// Whether `c` is one of the ASCII digits `0` to `9`.
pub open spec fn is_decimal_digit(c: char) -> bool {
    '0' <= c && c <= '9'
}

/// The number that a run of decimal digits spells, most significant first.
pub open spec fn digits_value(d: Seq<char>) -> nat
    decreases d.len(),
{
    if d.len() == 0 {
        0
    } else {
        digits_value(d.drop_last()) * 10 + ((d.last() as u32 - '0' as u32) as nat)
    }
}

/// The text with one leading `+` taken off, if it has one.
pub open spec fn without_plus(s: Seq<char>) -> Seq<char> {
    if s.len() > 0 && s[0] == '+' {
        s.drop_first()
    } else {
        s
    }
}

/// The value that the text denotes as an unsigned decimal number.
pub open spec fn u32_value(s: Seq<char>) -> nat {
    digits_value(without_plus(s))
}

/// Whether the text is an unsigned 32-bit integer in decimal: an optional `+`,
/// then one or more digits, with a value no larger than `u32::MAX`.
pub open spec fn is_u32_text(s: Seq<char>) -> bool {
    let d = without_plus(s);
    &&& d.len() > 0
    &&& forall|i: int| 0 <= i < d.len() ==> is_decimal_digit(#[trigger] d[i])
    &&& u32_value(s) <= u32::MAX
}

/// Whether the text is a positive-integer option's digits: one or more ASCII
/// digits, no sign, with a value no larger than `u32::MAX`.
pub open spec fn is_decimal_text(s: Seq<char>) -> bool {
    &&& s.len() > 0
    &&& forall|i: int| 0 <= i < s.len() ==> is_decimal_digit(#[trigger] s[i])
    &&& digits_value(s) <= u32::MAX
}

/// Relies on `u32::from_str` (radix 10): it accepts exactly an optional `+`
/// followed by at least one digit whose value fits in 32 bits, and returns
/// that value.
#[verifier::external_body]
fn parse_u32(s: &str) -> (r: Result<u32, core::num::ParseIntError>)
    ensures
        r is Ok <==> is_u32_text(s@),
        r matches Ok(n) ==> n as nat == u32_value(s@),
{
    <u32 as core::str::FromStr>::from_str(s)
}

/// Why a text is not a positive 32-bit integer.
#[derive(Debug)]
pub enum PosIntError {
    /// The text is not an unsigned 32-bit integer at all.
    ParseError(core::num::ParseIntError),
    /// The text is a well-formed integer, but zero.
    ZeroError,
}

impl From<core::num::ParseIntError> for PosIntError {
    fn from(err: core::num::ParseIntError) -> (r: PosIntError)
        ensures
            r == PosIntError::ParseError(err),
    {
        PosIntError::ParseError(err)
    }
}

impl vstd::std_specs::convert::FromSpecImpl<core::num::ParseIntError> for PosIntError {
    open spec fn obeys_from_spec() -> bool {
        true
    }

    open spec fn from_spec(err: core::num::ParseIntError) -> PosIntError {
        PosIntError::ParseError(err)
    }
}

impl PosIntError {
    /// The text shown to a user for this error: the parser's own diagnostic
    /// for a malformed number, a fixed sentence for zero.
    pub fn message(&self) -> (r: String)
        ensures
            self is ZeroError ==> r@ == "Integer cannot be zero"@,
            self matches PosIntError::ParseError(e)
                ==> vstd::string::to_string_from_display_ensures::<core::num::ParseIntError>(&e, r),
    {
        match self {
            PosIntError::ParseError(err) => err.to_string(),
            PosIntError::ZeroError => {
                proof { reveal_strlit("Integer cannot be zero"); }
                "Integer cannot be zero".to_string()
            },
        }
    }
}

/// Reads a strictly positive 32-bit integer from its decimal text.
///
/// Text that is not made of digits alone (empty, not numeric, carrying a sign
/// `+` or `-`) or whose value does not fit in 32 bits gives `ParseError`,
/// with the standard parser's diagnostic; digits whose value is zero, such
/// as `0` or `00`, give `ZeroError`.
pub fn parse_positive_int(str: &str) -> (r: Result<u32, PosIntError>)
    ensures
        r is Ok <==> is_decimal_text(str@) && digits_value(str@) > 0,
        r matches Ok(n) ==> n as nat == digits_value(str@),
        r matches Err(PosIntError::ParseError(_)) <==> !is_decimal_text(str@),
        r matches Err(PosIntError::ZeroError) <==> is_decimal_text(str@) && digits_value(str@)
            == 0,
{
    if str.unicode_len() > 0 && str.get_char(0) == '+' {
        // The standard parser takes one leading `+`; a sign is refused here,
        // with the diagnostic it gives for a sign and nothing after it.
        proof {
            reveal_strlit("+");
            assert(!is_decimal_digit(str@[0]));
            assert(without_plus("+"@).len() == 0);
        }
        return match parse_u32("+") {
            Ok(result) => Ok(result),
            Err(err) => Err(PosIntError::from(err)),
        };
    }
    assert(without_plus(str@) == str@);
    match parse_u32(str) {
        Ok(result) => {
            if result == 0 {
                Err(PosIntError::ZeroError)
            } else {
                Ok(result)
            }
        },
        Err(err) => Err(PosIntError::from(err)),
    }
}

proof fn zeros_value(d: Seq<char>)
    requires
        forall|i: int| 0 <= i < d.len() ==> d[i] == '0',
    ensures
        digits_value(d) == 0,
    decreases d.len(),
{
    if d.len() > 0 {
        zeros_value(d.drop_last());
    }
}

/// Text made only of the digit zero, such as `0` or `00`, is well-formed
/// digits whose value is zero, so it is refused as zero and not as malformed.
pub proof fn zeros_are_zero(s: Seq<char>)
    requires
        s.len() > 0,
        forall|i: int| 0 <= i < s.len() ==> s[i] == '0',
    ensures
        is_decimal_text(s),
        digits_value(s) == 0,
{
    zeros_value(s);
}

/// Text that starts with a sign, `-` or `+`, is never accepted digits.
pub proof fn signed_is_malformed(s: Seq<char>)
    requires
        s.len() > 0,
        s[0] == '-' || s[0] == '+',
    ensures
        !is_decimal_text(s),
{
    assert(!is_decimal_digit(s[0]));
}

/// Text with any character that is not a digit is never accepted digits.
pub proof fn non_digit_is_malformed(s: Seq<char>, k: int)
    requires
        0 <= k < s.len(),
        !is_decimal_digit(s[k]),
    ensures
        !is_decimal_text(s),
{
}

} // verus!
