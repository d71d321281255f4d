//! Curve-cycle selection.
//!
//! A folding run is parametrized by a 2-cycle of elliptic curves: the
//! primary curve carries the step circuit, the secondary carries the
//! trivial circuit of the accumulator. The cycle is chosen by name at run
//! start and never changes. The curves themselves live with the folding
//! engine; the core only records which cycle a run uses.

use vstd::prelude::*;
use vstd::string::StringSliceAdditionalSpecFns;
use vstd::utf8::encode_utf8_decode_utf8;

use crate::errors::IvcError;

verus! {

/// A supported 2-cycle, named after its primary/secondary pair.
#[derive(Clone, Copy, Debug, PartialEq, Eq, Structural)]
pub enum CurveCycle {
    /// Primary bn254 (a.k.a. bn256), secondary grumpkin.
    Bn256Grumpkin,
    /// Primary vesta, secondary pallas.
    VestaPallas,
}

/// String equality, stated over the views.
pub fn str_eq(a: &str, b: &str) -> (r: bool)
    ensures
        r == (a@ == b@),
{
    let ab = a.as_bytes();
    let bb = b.as_bytes();
    if ab.len() != bb.len() {
        proof {
            assert(a.spec_bytes() != b.spec_bytes());
        }
        return false;
    }
    let n = ab.len();
    let mut i: usize = 0;
    while i < n
        invariant
            n == ab@.len(),
            n == bb@.len(),
            i <= n,
            ab@ == a.spec_bytes(),
            bb@ == b.spec_bytes(),
            forall|j: int| 0 <= j < i ==> ab@[j] == bb@[j],
        decreases n - i,
    {
        if ab[i] != bb[i] {
            proof {
                assert(a.spec_bytes()[i as int] != b.spec_bytes()[i as int]);
            }
            return false;
        }
        i += 1;
    }
    proof {
        assert(a.spec_bytes() =~= b.spec_bytes());
        encode_utf8_decode_utf8(a@);
        encode_utf8_decode_utf8(b@);
        assert(a@ == b@);
    }
    true
}

/// The cycle a name denotes, if any: the shipped runs use
/// "bn254/grumpkin" and "pallas/vesta" (the pasta pair, bound with vesta
/// as the primary curve).
pub fn curve_cycle_from_name(name: &str) -> (r: Result<CurveCycle, IvcError>)
    ensures
        ({
            let recognized = name@ == "bn254/grumpkin"@ || name@ == "pallas/vesta"@;
            match r {
                Ok(c) => recognized && (c == (if name@ == "bn254/grumpkin"@ {
                    CurveCycle::Bn256Grumpkin
                } else {
                    CurveCycle::VestaPallas
                })),
                Err(e) => !recognized && e == IvcError::UnsupportedCurveCycle,
            }
        }),
{
    if str_eq(name, "bn254/grumpkin") {
        Ok(CurveCycle::Bn256Grumpkin)
    } else if str_eq(name, "pallas/vesta") {
        Ok(CurveCycle::VestaPallas)
    } else {
        Err(IvcError::UnsupportedCurveCycle)
    }
}

} // verus!
