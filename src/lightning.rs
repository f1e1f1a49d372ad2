use vstd::prelude::*;

use lightning_invoice::Bolt11Invoice;

verus! {

/// A parsed BOLT 11 invoice; its contents are read through its own methods.
#[verifier::external_type_specification]
#[verifier::external_body]
pub struct ExBolt11Invoice(Bolt11Invoice);

/// The amount in millisatoshis that `invoice` encodes, if any.
pub uninterp spec fn encoded_amount(invoice: Bolt11Invoice) -> Option<u64>;

/// Relies on lightning_invoice::Bolt11Invoice::amount_milli_satoshis: the
/// amount the invoice encodes, if any, which depends on the invoice alone.
pub assume_specification[ Bolt11Invoice::amount_milli_satoshis ](invoice: &Bolt11Invoice) -> (r: Option<u64>)
    ensures
        r == encoded_amount(*invoice),
;

/// Number of bytes the UTF-8 encoding of `c` takes.
pub open spec fn utf8_width(c: char) -> nat {
    if (c as u32) < 0x80 {
        1
    } else if (c as u32) < 0x800 {
        2
    } else if (c as u32) < 0x10000 {
        3
    } else {
        4
    }
}

/// Number of bytes the UTF-8 encoding of `s` takes.
pub open spec fn utf8_len(s: Seq<char>) -> nat
    decreases s.len(),
{
    if s.len() == 0 {
        0
    } else {
        utf8_width(s[0]) + utf8_len(s.skip(1))
    }
}

/// Longest description, in bytes, that a receivable invoice can carry.
pub const MAX_DESCRIPTION_BYTES: u64 = 639;

/// `s` can be the direct description of a receivable invoice.
pub open spec fn description_fits(s: Seq<char>) -> bool {
    utf8_len(s) <= MAX_DESCRIPTION_BYTES
}

/// Relies on lightning_invoice::Description::new, which accepts a description
/// of at most 639 bytes of UTF-8 and refuses a longer one.
#[verifier::external_body]
pub(crate) fn description_is_valid(description: &String) -> (r: bool)
    ensures
        r == description_fits(description@),
{
    lightning_invoice::Description::new(description.clone()).is_ok()
}

} // verus!
