//! The fatal failure path's diagnostic line.
//!
//! When resolution of a hooked symbol fails, the process must report and
//! die without touching any machinery that might itself be interposed
//! (allocation of buffered streams, formatted output, panic handling).
//! The embedding shared object therefore hands the bytes produced here
//! directly to an unbuffered write on the standard error descriptor and
//! then terminates the process abruptly. This module pins down exactly
//! which bytes those are: a fixed message, the offending symbol's exact
//! name, one newline.

use vstd::prelude::*;
use crate::symbol::InterceptedSymbol;
use crate::symbol::valid_symbol_name;

verus! {

/// The fixed text that opens every fatal diagnostic, as bytes:
/// `barf: upgrayedd tried to hook something that broke rust's runtime: `.
pub open spec fn fatal_prefix() -> Seq<u8> {
    seq![
        98u8, 97, 114, 102, 58, 32, 117, 112, 103, 114,
        97, 121, 101, 100, 100, 32, 116, 114, 105, 101,
        100, 32, 116, 111, 32, 104, 111, 111, 107, 32,
        115, 111, 109, 101, 116, 104, 105, 110, 103, 32,
        116, 104, 97, 116, 32, 98, 114, 111, 107, 101,
        32, 114, 117, 115, 116, 39, 115, 32, 114, 117,
        110, 116, 105, 109, 101, 58, 32,
    ]
}

/// The whole diagnostic for one unresolvable symbol: the fixed message,
/// the symbol's exact name, and a terminating newline.
pub open spec fn fatal_diagnostic(name: Seq<u8>) -> Seq<u8> {
    fatal_prefix() + name + seq![10u8]
}

/// The diagnostic carries the offending symbol's exact name: it is the
/// fixed message, then the name, letter for letter, then one newline and
/// nothing more.
pub proof fn lemma_diagnostic_names_symbol(name: Seq<u8>)
    ensures
        fatal_diagnostic(name).len() == fatal_prefix().len() + name.len() + 1,
        fatal_diagnostic(name).subrange(
            fatal_prefix().len() as int,
            fatal_prefix().len() + name.len() as int,
        ) == name,
        fatal_diagnostic(name).subrange(0, fatal_prefix().len() as int) == fatal_prefix(),
        fatal_diagnostic(name).last() == 10u8,
{
    assert(fatal_diagnostic(name).subrange(
        fatal_prefix().len() as int,
        fatal_prefix().len() + name.len() as int,
    ) =~= name);
    assert(fatal_diagnostic(name).subrange(0, fatal_prefix().len() as int) =~= fatal_prefix());
}

/// Build the bytes that the fatal path writes to standard error for
/// `sym`: the fixed message, then the symbol's exact name, then one
/// newline.
pub fn fatal_message(sym: &InterceptedSymbol) -> (r: Vec<u8>)
    ensures
        r@ == fatal_diagnostic(sym@),
        valid_symbol_name(sym@),
{
    let mut out: Vec<u8> = vec![
        98u8, 97, 114, 102, 58, 32, 117, 112, 103, 114,
        97, 121, 101, 100, 100, 32, 116, 114, 105, 101,
        100, 32, 116, 111, 32, 104, 111, 111, 107, 32,
        115, 111, 109, 101, 116, 104, 105, 110, 103, 32,
        116, 104, 97, 116, 32, 98, 114, 111, 107, 101,
        32, 114, 117, 115, 116, 39, 115, 32, 114, 117,
        110, 116, 105, 109, 101, 58, 32,
    ];
    proof {
        assert(out@ =~= fatal_prefix());
    }
    let name = sym.name();
    let mut i: usize = 0;
    while i < name.len()
        invariant
            0 <= i <= name@.len(),
            name@ == sym@,
            out@ == fatal_prefix() + sym@.subrange(0, i as int),
        decreases name@.len() - i,
    {
        out.push(name[i]);
        proof {
            assert(out@ =~= fatal_prefix() + sym@.subrange(0, i + 1));
        }
        i += 1;
    }
    out.push(10);
    proof {
        assert(sym@.subrange(0, sym@.len() as int) =~= sym@);
        assert(out@ =~= fatal_diagnostic(sym@));
    }
    out
}

} // verus!
