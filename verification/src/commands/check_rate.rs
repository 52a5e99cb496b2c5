//! The command that checks the rate of a pair.

use vstd::prelude::*;
use crate::text::{has_prefix, starts_with, to_uppercase, uppercase};

verus! {

/// The name under which the command is registered.
pub const COMMAND_NAME: &'static str = "exchange-check";

/// How many choices a completion may offer.
pub const MAX_CHOICES: usize = 25;

/// The currency codes that a completion offers.
pub const CURRENCIES: [&'static str; 171] = [
    "AED", "AFN", "ALL", "AMD", "ANG", "AOA", "ARS", "AUD", "AWG", "AZN", "BAM", "BBD", "BDT",
    "BGN", "BHD", "BIF", "BMD", "BND", "BOB", "BRL", "BSD", "BTC", "BTN", "BWP", "BYN", "BYR",
    "BZD", "CAD", "CDF", "CHF", "CLF", "CLP", "CNY", "CNH", "COP", "CRC", "CUC", "CUP", "CVE",
    "CZK", "DJF", "DKK", "DOP", "DZD", "EGP", "ERN", "ETB", "EUR", "FJD", "FKP", "GBP", "GEL",
    "GGP", "GHS", "GIP", "GMD", "GNF", "GTQ", "GYD", "HKD", "HNL", "HRK", "HTG", "HUF", "IDR",
    "ILS", "IMP", "INR", "IQD", "IRR", "ISK", "JEP", "JMD", "JOD", "JPY", "KES", "KGS", "KHR",
    "KMF", "KPW", "KRW", "KWD", "KYD", "KZT", "LAK", "LBP", "LKR", "LRD", "LSL", "LTL", "LVL",
    "LYD", "MAD", "MDL", "MGA", "MKD", "MMK", "MNT", "MOP", "MRU", "MUR", "MVR", "MWK", "MXN",
    "MYR", "MZN", "NAD", "NGN", "NIO", "NOK", "NPR", "NZD", "OMR", "PAB", "PEN", "PGK", "PHP",
    "PKR", "PLN", "PYG", "QAR", "RON", "RSD", "RUB", "RWF", "SAR", "SBD", "SCR", "SDG", "SEK",
    "SGD", "SHP", "SLE", "SLL", "SOS", "SRD", "STD", "SVC", "SYP", "SZL", "THB", "TJS", "TMT",
    "TND", "TOP", "TRY", "TTD", "TWD", "TZS", "UAH", "UGX", "USD", "UYU", "UZS", "VEF", "VES",
    "VND", "VUV", "WST", "XAF", "XAG", "XAU", "XCD", "XDR", "XOF", "XPF", "YER", "ZAR", "ZMK",
    "ZMW", "ZWL",
];

/// The codes of a list that begin with a prefix, in the order of the list.
pub open spec fn beginning_with(codes: Seq<&'static str>, prefix: Seq<char>) -> Seq<&'static str>
    decreases codes.len(),
{
    if codes.len() == 0 {
        Seq::empty()
    } else {
        let before = beginning_with(codes.drop_last(), prefix);
        if has_prefix(codes.last()@, prefix) {
            before.push(codes.last())
        } else {
            before
        }
    }
}

/// The first choices of a list, as many as a completion may offer.
pub open spec fn first_choices(codes: Seq<&'static str>) -> Seq<&'static str> {
    if codes.len() <= MAX_CHOICES {
        codes
    } else {
        codes.take(MAX_CHOICES as int)
    }
}

/// The choices among a list of codes for an input that is already in upper
/// case.
pub fn choices_among(codes: &[&'static str], prefix: &str) -> (r: Vec<&'static str>)
    ensures
        r@ == first_choices(beginning_with(codes@, prefix@)),
{
    let mut out: Vec<&'static str> = Vec::new();
    let mut i: usize = 0;
    assert(codes@.take(0) =~= Seq::<&'static str>::empty());
    while i < codes.len()
        invariant
            i <= codes.len(),
            out@ == first_choices(beginning_with(codes@.take(i as int), prefix@)),
        decreases codes.len() - i,
    {
        assert(codes@.take(i as int + 1).drop_last() =~= codes@.take(i as int));
        let ghost before = beginning_with(codes@.take(i as int), prefix@);
        if starts_with(codes[i], prefix) && out.len() < MAX_CHOICES {
            out.push(codes[i]);
            assert(out@ =~= first_choices(before.push(codes@[i as int])));
        } else {
            assert(out@ =~= first_choices(beginning_with(codes@.take(i as int + 1), prefix@)));
        }
        i += 1;
    }
    assert(codes@.take(codes@.len() as int) =~= codes@);
    out
}

/// The currency codes that complete an input: those that begin with the
/// input in upper case, and no more of them than a completion may offer.
pub fn autocomplete(input: &str) -> (r: Vec<&'static str>)
    ensures
        r@ == first_choices(beginning_with(CURRENCIES@, uppercase(input@))),
{
    let prefix = to_uppercase(input);
    choices_among(CURRENCIES.as_slice(), prefix.as_str())
}

} // verus!
