//! Unicode character classes, as std's `char` methods decide them.
use vstd::prelude::*;

verus! {

/// Whether `char::is_whitespace` holds of `c` (Unicode's White_Space property).
pub uninterp spec fn white_space(c: char) -> bool;

/// Whether `char::is_numeric` holds of `c` (Unicode's general categories for numbers).
pub uninterp spec fn numeric(c: char) -> bool;

/// Whether `char::is_alphabetic` holds of `c` (Unicode's Alphabetic property).
pub uninterp spec fn alphabetic(c: char) -> bool;

/// Relies on `char::is_whitespace`: its result depends on the character alone.
#[verifier::external_body]
pub(crate) fn is_white_space(c: char) -> (r: bool)
    ensures
        r == white_space(c),
{
    c.is_whitespace()
}

/// Relies on `char::is_numeric`: its result depends on the character alone.
#[verifier::external_body]
pub(crate) fn is_numeric(c: char) -> (r: bool)
    ensures
        r == numeric(c),
{
    c.is_numeric()
}

/// Relies on `char::is_alphabetic`: its result depends on the character alone.
#[verifier::external_body]
pub(crate) fn is_alphabetic(c: char) -> (r: bool)
    ensures
        r == alphabetic(c),
{
    c.is_alphabetic()
}

/// Relies on `char::is_alphanumeric`, documented to hold exactly where
/// `is_alphabetic` or `is_numeric` holds.
#[verifier::external_body]
pub(crate) fn is_alphanumeric(c: char) -> (r: bool)
    ensures
        r == (alphabetic(c) || numeric(c)),
{
    c.is_alphanumeric()
}

} // verus!
