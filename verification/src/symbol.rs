//! Intercepted symbol names and their resolver-facing form.

use vstd::prelude::*;

verus! {

/// A usable exported symbol name: non-empty, with no interior NUL byte,
/// so that its NUL-terminated form names exactly this symbol to the
/// dynamic loader.
pub open spec fn valid_symbol_name(s: Seq<u8>) -> bool {
    &&& 0 < s.len()
    &&& forall|i: int| 0 <= i < s.len() ==> s[i] != 0
}

/// The exported name of one hookable function, fixed when the wrapper is
/// defined. Its view is the name's bytes, without a terminator.
pub struct InterceptedSymbol {
    name: Vec<u8>,
}

impl View for InterceptedSymbol {
    type V = Seq<u8>;

    closed spec fn view(&self) -> Seq<u8> {
        self.name@
    }
}

impl InterceptedSymbol {
    #[verifier::type_invariant]
    spec fn type_inv(&self) -> bool {
        valid_symbol_name(self.name@)
    }

    /// Accept `name` as an intercepted symbol's exported name, rejecting
    /// the empty string and any name with an interior NUL byte.
    pub fn new(name: Vec<u8>) -> (r: Option<InterceptedSymbol>)
        ensures
            match r {
                Some(sym) => sym@ == name@ && valid_symbol_name(name@),
                None => !valid_symbol_name(name@),
            },
    {
        if name.len() == 0 {
            return None;
        }
        let mut i: usize = 0;
        while i < name.len()
            invariant
                0 <= i <= name@.len(),
                forall|j: int| 0 <= j < i ==> name@[j] != 0,
            decreases name@.len() - i,
        {
            if name[i] == 0 {
                return None;
            }
            i += 1;
        }
        Some(InterceptedSymbol { name })
    }

    /// The exported name's bytes, as written in the diagnostic.
    pub fn name(&self) -> (r: &Vec<u8>)
        ensures
            r@ == self@,
            valid_symbol_name(self@),
    {
        proof {
            use_type_invariant(self);
        }
        &self.name
    }

    /// The NUL-terminated form of the name that the dynamic-loader lookup
    /// takes: the name's bytes followed by one terminating NUL.
    pub fn c_name(&self) -> (r: Vec<u8>)
        ensures
            r@ == self@ + seq![0u8],
            valid_symbol_name(self@),
    {
        proof {
            use_type_invariant(self);
        }
        let mut out: Vec<u8> = Vec::new();
        let mut i: usize = 0;
        while i < self.name.len()
            invariant
                0 <= i <= self.name@.len(),
                out@ == self.name@.subrange(0, i as int),
            decreases self.name@.len() - i,
        {
            out.push(self.name[i]);
            i += 1;
        }
        proof {
            assert(out@ =~= self.name@);
        }
        out.push(0);
        proof {
            assert(out@ =~= self.name@ + seq![0u8]);
        }
        out
    }
}

} // verus!
