//! The signature-derived private inputs of the single-iteration run.
//!
//! An EdDSA signer outside this core produces the raw material: the
//! public key's two coordinates, the signature's scalar and curve-point
//! coordinates — each as the canonical decimal string of a field
//! element — and the signed message. The circuit wants each coordinate
//! re-encoded as one big integer: the big-endian reading of the decimal
//! string's bytes, written back out in decimal. That re-encoding and the
//! assembly of the private-input set are verified here; only the
//! big-integer arithmetic itself is an outside call.

use vstd::prelude::*;
use vstd::string::StringSliceAdditionalSpecFns;
use vstd::utf8::encode_utf8;

use num_bigint::BigUint;

use crate::circuit::StepRule;
use crate::curve::CurveCycle;
use crate::inputs::{set_has_rule_keys, PrivValue, PrivateInputSet};
use crate::numeric::{be_nat, dec_seq, is_dec_seq, lemma_dec_seq_canonical};
use crate::scenario::Scenario;

verus! {

/// What the outside signer hands over: one keypair's public coordinates
/// and one signature over `message`, each number as its canonical
/// decimal string.
pub struct SignatureMaterial {
    /// Public key x coordinate.
    pub ax: String,
    /// Public key y coordinate.
    pub ay: String,
    /// The signature's scalar S.
    pub s: String,
    /// The signature's point R, x coordinate.
    pub r8x: String,
    /// The signature's point R, y coordinate.
    pub r8y: String,
    /// The signed message.
    pub message: String,
}

/// The re-encoding the circuit wants: the decimal form of the
/// big-endian reading of the string's bytes.
pub open spec fn reencoded(v: Seq<char>) -> Seq<char> {
    dec_seq(be_nat(encode_utf8(v)))
}

/// Relies on num_bigint's BigUint::from_bytes_be, which reads the bytes
/// as one big-endian integer, and on BigUint's decimal formatting, which
/// writes it back without sign or leading zeros.
#[verifier::external_body]
fn decimal_of_be_bytes(s: &str) -> (r: String)
    ensures
        r@ == dec_seq(be_nat(s.spec_bytes())),
{
    BigUint::from_bytes_be(s.as_bytes()).to_string()
}

/// The circuit-facing form of the signature material: an enabled flag
/// and the six private values, coordinates re-encoded as big integers.
pub struct EddsaCircom {
    /// Checks equation equality.
    pub enabled: usize,
    /// Pubkey x coordinate.
    pub ax: String,
    /// Pubkey y coordinate.
    pub ay: String,
    /// Signature's S.
    pub s: String,
    /// Signature's R's x coordinate.
    pub r8x: String,
    /// Signature's R's y coordinate.
    pub r8y: String,
    /// Message.
    pub m: String,
}

impl EddsaCircom {
    /// Every re-encoded coordinate is a canonical decimal string.
    pub open spec fn wf(&self) -> bool {
        &&& is_dec_seq(self.ax@)
        &&& is_dec_seq(self.ay@)
        &&& is_dec_seq(self.s@)
        &&& is_dec_seq(self.r8x@)
        &&& is_dec_seq(self.r8y@)
    }

    /// Re-encode the signer's material for the circuit: the enabled flag
    /// is set, each coordinate becomes the decimal form of the
    /// big-endian reading of its string's bytes, and the message is
    /// carried through unchanged.
    pub fn new(material: &SignatureMaterial) -> (c: EddsaCircom)
        ensures
            c.wf(),
            c.enabled == 1,
            c.ax@ == reencoded(material.ax@),
            c.ay@ == reencoded(material.ay@),
            c.s@ == reencoded(material.s@),
            c.r8x@ == reencoded(material.r8x@),
            c.r8y@ == reencoded(material.r8y@),
            c.m@ == material.message@,
    {
        proof {
            lemma_dec_seq_canonical(be_nat(encode_utf8(material.ax@)));
            lemma_dec_seq_canonical(be_nat(encode_utf8(material.ay@)));
            lemma_dec_seq_canonical(be_nat(encode_utf8(material.s@)));
            lemma_dec_seq_canonical(be_nat(encode_utf8(material.r8x@)));
            lemma_dec_seq_canonical(be_nat(encode_utf8(material.r8y@)));
        }
        EddsaCircom {
            enabled: 1,
            ax: decimal_of_be_bytes(material.ax.as_str()),
            ay: decimal_of_be_bytes(material.ay.as_str()),
            s: decimal_of_be_bytes(material.s.as_str()),
            r8x: decimal_of_be_bytes(material.r8x.as_str()),
            r8y: decimal_of_be_bytes(material.r8y.as_str()),
            m: material.message.as_str().to_owned(),
        }
    }

    /// The single fold iteration's private-input set: the six values
    /// under the keys the circuit declares.
    pub fn to_private_inputs(&self) -> (r: PrivateInputSet)
        requires
            self.wf(),
        ensures
            r.wf(),
            eddsa_inputs_match(r.key_map(), *self),
    {
        proof {
            reveal_strlit("priv_hash_2");
            reveal_strlit("priv_hash_3");
            reveal_strlit("priv_hash_4");
            reveal_strlit("priv_hash_5");
            reveal_strlit("priv_hash_6");
            reveal_strlit("priv_hash_7");
            assert("priv_hash_2"@.index(10) == '2');
            assert("priv_hash_3"@.index(10) == '3');
            assert("priv_hash_4"@.index(10) == '4');
            assert("priv_hash_5"@.index(10) == '5');
            assert("priv_hash_6"@.index(10) == '6');
            assert("priv_hash_7"@.index(10) == '7');
        }
        let mut set = PrivateInputSet::new();
        let f2 = set.insert("priv_hash_2".to_owned(), PrivValue::Big(self.ax.as_str().to_owned()));
        let f3 = set.insert("priv_hash_3".to_owned(), PrivValue::Big(self.ay.as_str().to_owned()));
        let f4 = set.insert("priv_hash_4".to_owned(), PrivValue::Big(self.s.as_str().to_owned()));
        let f5 = set.insert(
            "priv_hash_5".to_owned(),
            PrivValue::Big(self.r8x.as_str().to_owned()),
        );
        let f6 = set.insert(
            "priv_hash_6".to_owned(),
            PrivValue::Big(self.r8y.as_str().to_owned()),
        );
        let f7 = set.insert("priv_hash_7".to_owned(), PrivValue::Text(self.m.as_str().to_owned()));
        proof {
            assert(f2 && f3 && f4 && f5 && f6 && f7);
            assert(set.key_map().dom() =~= set![
                "priv_hash_2"@,
                "priv_hash_3"@,
                "priv_hash_4"@,
                "priv_hash_5"@,
                "priv_hash_6"@,
                "priv_hash_7"@,
            ]);
        }
        set
    }
}

/// The mapping binds exactly the circuit's six keys, each to the raw
/// signer material's matching piece: the five coordinates re-encoded as
/// big integers and the message as text.
pub open spec fn eddsa_material_inputs_match(
    m: Map<Seq<char>, PrivValue>,
    material: SignatureMaterial,
) -> bool {
    &&& m.dom() =~= set![
        "priv_hash_2"@,
        "priv_hash_3"@,
        "priv_hash_4"@,
        "priv_hash_5"@,
        "priv_hash_6"@,
        "priv_hash_7"@,
    ]
    &&& (m["priv_hash_2"@] matches PrivValue::Big(v) && v@ == reencoded(material.ax@))
    &&& (m["priv_hash_3"@] matches PrivValue::Big(v) && v@ == reencoded(material.ay@))
    &&& (m["priv_hash_4"@] matches PrivValue::Big(v) && v@ == reencoded(material.s@))
    &&& (m["priv_hash_5"@] matches PrivValue::Big(v) && v@ == reencoded(material.r8x@))
    &&& (m["priv_hash_6"@] matches PrivValue::Big(v) && v@ == reencoded(material.r8y@))
    &&& (m["priv_hash_7"@] matches PrivValue::Text(v) && v@ == material.message@)
}

/// The mapping binds exactly the circuit's six keys, each to the
/// matching value of the material: the five re-encoded coordinates as
/// big integers and the message as text.
pub open spec fn eddsa_inputs_match(m: Map<Seq<char>, PrivValue>, c: EddsaCircom) -> bool {
    &&& m.dom() =~= set![
        "priv_hash_2"@,
        "priv_hash_3"@,
        "priv_hash_4"@,
        "priv_hash_5"@,
        "priv_hash_6"@,
        "priv_hash_7"@,
    ]
    &&& (m["priv_hash_2"@] matches PrivValue::Big(v) && v@ == c.ax@)
    &&& (m["priv_hash_3"@] matches PrivValue::Big(v) && v@ == c.ay@)
    &&& (m["priv_hash_4"@] matches PrivValue::Big(v) && v@ == c.s@)
    &&& (m["priv_hash_5"@] matches PrivValue::Big(v) && v@ == c.r8x@)
    &&& (m["priv_hash_6"@] matches PrivValue::Big(v) && v@ == c.r8y@)
    &&& (m["priv_hash_7"@] matches PrivValue::Text(v) && v@ == c.m@)
}

/// The private-input keys of the signature circuit, in declaration
/// order.
pub fn eddsa_private_keys() -> (r: Vec<String>)
    ensures
        r@.len() == 6,
        r@[0]@ == "priv_hash_2"@,
        r@[1]@ == "priv_hash_3"@,
        r@[2]@ == "priv_hash_4"@,
        r@[3]@ == "priv_hash_5"@,
        r@[4]@ == "priv_hash_6"@,
        r@[5]@ == "priv_hash_7"@,
{
    let mut r: Vec<String> = Vec::new();
    r.push("priv_hash_2".to_owned());
    r.push("priv_hash_3".to_owned());
    r.push("priv_hash_4".to_owned());
    r.push("priv_hash_5".to_owned());
    r.push("priv_hash_6".to_owned());
    r.push("priv_hash_7".to_owned());
    r
}

/// The single-iteration signature run: public input `[1]` (the enabled
/// flag), one private-input set derived from one signature. The single
/// set binds exactly the circuit's six declared keys to the re-encoded
/// material; the final state is the witness generator's to compute, so
/// none is expected in advance.
pub fn scenario_eddsa(material: &SignatureMaterial) -> (s: Scenario)
    ensures
        s.wf(),
        s.curve == CurveCycle::Bn256Grumpkin,
        s.rule matches StepRule::External { arity, .. } && arity == 1,
        s.rule.spec_private_keys() =~= seq![
            "priv_hash_2"@,
            "priv_hash_3"@,
            "priv_hash_4"@,
            "priv_hash_5"@,
            "priv_hash_6"@,
            "priv_hash_7"@,
        ],
        s.initial_state@ =~= seq![1u64],
        s.schedule@.len() == 1,
        eddsa_material_inputs_match(s.schedule@[0].key_map(), *material),
        set_has_rule_keys(s.rule, s.schedule@[0]),
        s.expected_final is None,
{
    let circom = EddsaCircom::new(material);
    let rule = StepRule::External { arity: 1, private_keys: eddsa_private_keys() };
    proof {
        assert(rule.spec_arity() == 1);
        assert(rule.spec_private_keys() =~= seq![
            "priv_hash_2"@,
            "priv_hash_3"@,
            "priv_hash_4"@,
            "priv_hash_5"@,
            "priv_hash_6"@,
            "priv_hash_7"@,
        ]);
    }
    let mut schedule: Vec<PrivateInputSet> = Vec::new();
    schedule.push(circom.to_private_inputs());
    proof {
        let km = schedule@[0].key_map();
        assert(eddsa_material_inputs_match(km, *material));
        let keys = rule.spec_private_keys();
        assert(keys.len() == 6);
        assert forall|j: int| 0 <= j < keys.len() implies km.contains_key(
            #[trigger] keys[j],
        ) by {
            assert(km.dom().contains("priv_hash_2"@));
            assert(km.dom().contains("priv_hash_3"@));
            assert(km.dom().contains("priv_hash_4"@));
            assert(km.dom().contains("priv_hash_5"@));
            assert(km.dom().contains("priv_hash_6"@));
            assert(km.dom().contains("priv_hash_7"@));
        }
    }
    Scenario {
        curve: CurveCycle::Bn256Grumpkin,
        rule,
        initial_state: vec![1u64],
        schedule,
        expected_final: None,
    }
}

} // verus!
