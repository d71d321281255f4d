//! Per-step private (auxiliary) inputs.
//!
//! A `PrivateInputSet` maps named auxiliary-input identifiers to
//! field-representable values: machine words, big integers written as
//! canonical decimal strings, or literal text handed through to the
//! witness generator. One set is consumed per fold iteration; an input
//! schedule is an ordered sequence of such sets, one per iteration.

use vstd::prelude::*;

use crate::errors::IvcError;
use crate::circuit::StepRule;
use crate::curve::str_eq;
use crate::numeric::{dec_nat, is_dec_seq, parse_decimal};

verus! {

/// One field-representable private value.
#[derive(Clone, Debug)]
pub enum PrivValue {
    /// A machine-word integer.
    Word(u64),
    /// A big integer, held as its canonical decimal digit string.
    Big(String),
    /// Literal text handed through unchanged; as a field value it counts
    /// as zero.
    Text(String),
}

impl PrivValue {
    /// The integer the value denotes.
    pub open spec fn as_nat(&self) -> nat {
        match self {
            PrivValue::Word(w) => *w as nat,
            PrivValue::Big(s) => dec_nat(s@),
            PrivValue::Text(_) => 0,
        }
    }

    /// Well-formed: a big integer is a canonical decimal digit string.
    pub open spec fn wf(&self) -> bool {
        match self {
            PrivValue::Word(_) => true,
            PrivValue::Big(s) => is_dec_seq(s@),
            PrivValue::Text(_) => true,
        }
    }

    /// The value as a machine word: `None` exactly when it does not fit.
    pub fn as_u64_checked(&self) -> (r: Option<u64>)
        requires
            self.wf(),
        ensures
            match r {
                Some(w) => w as nat == self.as_nat(),
                None => self.as_nat() > u64::MAX as nat,
            },
    {
        match self {
            PrivValue::Word(w) => Some(*w),
            PrivValue::Big(s) => parse_decimal(s.as_str()),
            PrivValue::Text(_) => Some(0),
        }
    }
}

/// The mapping a sequence of keyed entries denotes, later entries
/// shadowing earlier ones.
pub open spec fn map_of(entries: Seq<(String, PrivValue)>) -> Map<Seq<char>, PrivValue>
    decreases entries.len(),
{
    if entries.len() == 0 {
        Map::empty()
    } else {
        map_of(entries.drop_last()).insert(entries.last().0@, entries.last().1)
    }
}

/// Some entry carries the key.
pub open spec fn has_key(entries: Seq<(String, PrivValue)>, k: Seq<char>) -> bool {
    exists|j: int| 0 <= j < entries.len() && (#[trigger] entries[j]).0@ == k
}

/// No two entries share a key.
pub open spec fn unique_keys(entries: Seq<(String, PrivValue)>) -> bool {
    forall|i: int, j: int|
        0 <= i < j < entries.len() ==> (#[trigger] entries[i]).0@ != (#[trigger] entries[j]).0@
}

proof fn lemma_map_of_contains(entries: Seq<(String, PrivValue)>, k: Seq<char>)
    ensures
        map_of(entries).contains_key(k) <==> has_key(entries, k),
    decreases entries.len(),
{
    if entries.len() > 0 {
        let pre = entries.drop_last();
        lemma_map_of_contains(pre, k);
        if entries.last().0@ == k {
            assert(entries[entries.len() - 1].0@ == k);
        } else {
            if has_key(pre, k) {
                let j = choose|j: int| 0 <= j < pre.len() && (#[trigger] pre[j]).0@ == k;
                assert(entries[j].0@ == k);
            }
            if has_key(entries, k) {
                let j = choose|j: int|
                    0 <= j < entries.len() && (#[trigger] entries[j]).0@ == k;
                assert(j < entries.len() - 1);
                assert(pre[j].0@ == k);
            }
        }
    }
}

proof fn lemma_map_of_value(entries: Seq<(String, PrivValue)>, j: int)
    requires
        unique_keys(entries),
        0 <= j < entries.len(),
    ensures
        map_of(entries).contains_key(entries[j].0@),
        map_of(entries)[entries[j].0@] == entries[j].1,
    decreases entries.len(),
{
    let pre = entries.drop_last();
    if j == entries.len() - 1 {
    } else {
        assert(pre[j] == entries[j]);
        lemma_map_of_value(pre, j);
        assert(entries.last().0@ != entries[j].0@);
    }
}

/// A mapping from named auxiliary-input identifiers to private values,
/// with unique keys; immutable once handed to the folding driver.
#[derive(Debug)]
pub struct PrivateInputSet {
    entries: Vec<(String, PrivValue)>,
}

impl PrivateInputSet {
    /// The mapping the set denotes.
    pub closed spec fn key_map(&self) -> Map<Seq<char>, PrivValue> {
        map_of(self.entries@)
    }

    /// Unique keys, and every value well-formed.
    pub closed spec fn wf(&self) -> bool {
        &&& unique_keys(self.entries@)
        &&& forall|j: int| 0 <= j < self.entries@.len() ==> (#[trigger] self.entries@[j]).1.wf()
    }

    /// The value bound to "adder", as an integer; zero when absent.
    pub open spec fn spec_adder(&self) -> nat {
        if self.key_map().contains_key("adder"@) {
            self.key_map()["adder"@].as_nat()
        } else {
            0
        }
    }

    pub fn new() -> (s: Self)
        ensures
            s.wf(),
            s.key_map() == Map::<Seq<char>, PrivValue>::empty(),
    {
        let s = PrivateInputSet { entries: Vec::new() };
        proof {
            assert(s.entries@.len() == 0);
        }
        s
    }

    pub fn contains_key(&self, key: &str) -> (r: bool)
        ensures
            r == self.key_map().contains_key(key@),
    {
        proof {
            lemma_map_of_contains(self.entries@, key@);
        }
        let n = self.entries.len();
        let mut i: usize = 0;
        while i < n
            invariant
                i <= n,
                n == self.entries@.len(),
                forall|j: int| 0 <= j < i ==> (#[trigger] self.entries@[j]).0@ != key@,
            decreases n - i,
        {
            let e = &self.entries[i];
            if str_eq(e.0.as_str(), key) {
                proof {
                    assert((self.entries@[i as int]).0@ == key@);
                    assert(has_key(self.entries@, key@));
                    lemma_map_of_contains(self.entries@, key@);
                }
                return true;
            }
            i += 1;
        }
        proof {
            assert(!has_key(self.entries@, key@));
        }
        false
    }

    /// Add a binding; a key already present is refused and the set is
    /// left as it was.
    pub fn insert(&mut self, key: String, value: PrivValue) -> (fresh: bool)
        requires
            old(self).wf(),
            value.wf(),
        ensures
            final(self).wf(),
            fresh == !old(self).key_map().contains_key(key@),
            fresh ==> final(self).key_map() == old(self).key_map().insert(key@, value),
            !fresh ==> *final(self) == *old(self),
    {
        if self.contains_key(key.as_str()) {
            return false;
        }
        proof {
            lemma_map_of_contains(self.entries@, key@);
        }
        let ghost pre = self.entries@;
        let ghost k = key@;
        self.entries.push((key, value));
        proof {
            assert(self.entries@.drop_last() =~= pre);
            assert(forall|j: int|
                0 <= j < pre.len() ==> (#[trigger] self.entries@[j]) == pre[j]);
            assert forall|j: int| 0 <= j < pre.len() implies (#[trigger] pre[j]).0@ != k by {
                if pre[j].0@ == k {
                    assert(has_key(pre, k));
                }
            }
        }
        true
    }

    /// The entries, one per key, for callers that re-encode the set for
    /// an engine of their own.
    pub fn entries(&self) -> (r: &Vec<(String, PrivValue)>)
        ensures
            map_of(r@) == self.key_map(),
            self.wf() ==> unique_keys(r@),
    {
        &self.entries
    }

    /// Look a key up.
    pub fn get(&self, key: &str) -> (r: Option<&PrivValue>)
        requires
            self.wf(),
        ensures
            match r {
                Some(v) => self.key_map().contains_key(key@) && *v == self.key_map()[key@]
                    && v.wf(),
                None => !self.key_map().contains_key(key@),
            },
    {
        proof {
            lemma_map_of_contains(self.entries@, key@);
        }
        let n = self.entries.len();
        let mut i: usize = 0;
        while i < n
            invariant
                i <= n,
                self.wf(),
                n == self.entries@.len(),
                forall|j: int| 0 <= j < i ==> (#[trigger] self.entries@[j]).0@ != key@,
            decreases n - i,
        {
            let e = &self.entries[i];
            if str_eq(e.0.as_str(), key) {
                proof {
                    assert((self.entries@[i as int]).0@ == key@);
                    lemma_map_of_value(self.entries@, i as int);
                }
                return Some(&e.1);
            }
            i += 1;
        }
        proof {
            assert(!has_key(self.entries@, key@));
        }
        None
    }
}

/// Every set of a schedule is well-formed.
pub open spec fn all_wf(schedule: Seq<PrivateInputSet>) -> bool {
    forall|i: int| 0 <= i < schedule.len() ==> (#[trigger] schedule[i]).wf()
}

/// The per-step "adder" values of a schedule.
pub open spec fn adders_of(schedule: Seq<PrivateInputSet>) -> Seq<nat> {
    schedule.map_values(|s: PrivateInputSet| s.spec_adder())
}

/// The schedule of a constant auxiliary input: `iterations` sets, each
/// binding `key` to the same machine word.
pub fn build_constant_schedule(iterations: usize, key: &str, value: u64) -> (r: Vec<
    PrivateInputSet,
>)
    ensures
        r@.len() == iterations,
        all_wf(r@),
        forall|i: int|
            0 <= i < iterations ==> (#[trigger] r@[i]).key_map() == Map::<
                Seq<char>,
                PrivValue,
            >::empty().insert(key@, PrivValue::Word(value)),
{
    let mut r: Vec<PrivateInputSet> = Vec::new();
    let mut i: usize = 0;
    while i < iterations
        invariant
            i <= iterations,
            r@.len() == i,
            all_wf(r@),
            forall|j: int|
                0 <= j < i ==> (#[trigger] r@[j]).key_map() == Map::<
                    Seq<char>,
                    PrivValue,
                >::empty().insert(key@, PrivValue::Word(value)),
        decreases iterations - i,
    {
        let mut set = PrivateInputSet::new();
        let fresh = set.insert(key.to_owned(), PrivValue::Word(value));
        proof {
            assert(fresh);
        }
        r.push(set);
        i += 1;
    }
    r
}

/// The keys `rule` declares are all bound in `set`.
pub open spec fn set_has_rule_keys(rule: StepRule, set: PrivateInputSet) -> bool {
    forall|j: int|
        0 <= j < rule.spec_private_keys().len() ==> set.key_map().contains_key(
            #[trigger] rule.spec_private_keys()[j],
        )
}

/// Every set of the schedule binds every declared key.
pub open spec fn schedule_has_rule_keys(rule: StepRule, schedule: Seq<PrivateInputSet>) -> bool {
    forall|i: int| 0 <= i < schedule.len() ==> set_has_rule_keys(rule, #[trigger] schedule[i])
}

fn check_set_keys(rule: &StepRule, set: &PrivateInputSet) -> (r: bool)
    requires
        set.wf(),
    ensures
        r == set_has_rule_keys(*rule, *set),
{
    match rule {
        StepRule::AdditiveTwo => {
            let r = set.contains_key("adder");
            proof {
                assert(rule.spec_private_keys() =~= seq!["adder"@]);
                assert(rule.spec_private_keys()[0] == "adder"@);
            }
            r
        },
        StepRule::AdditiveThree => {
            let r = set.contains_key("adder");
            proof {
                assert(rule.spec_private_keys() =~= seq!["adder"@]);
                assert(rule.spec_private_keys()[0] == "adder"@);
            }
            r
        },
        StepRule::External { private_keys, .. } => {
            let n = private_keys.len();
            let mut j: usize = 0;
            while j < n
                invariant
                    j <= n,
                    set.wf(),
                    n == private_keys@.len(),
                    rule.spec_private_keys() == Seq::new(
                        private_keys@.len(),
                        |i: int| private_keys@[i]@,
                    ),
                    forall|i: int|
                        0 <= i < j ==> set.key_map().contains_key(
                            #[trigger] rule.spec_private_keys()[i],
                        ),
                decreases n - j,
            {
                if !set.contains_key(private_keys[j].as_str()) {
                    proof {
                        assert(rule.spec_private_keys()[j as int] == private_keys@[j as int]@);
                    }
                    return false;
                }
                j += 1;
            }
            true
        },
    }
}

/// Check the whole schedule against the keys the circuit declares:
/// `SchemaMismatch` exactly when some set lacks a declared key.
pub fn check_schedule(rule: &StepRule, schedule: &Vec<PrivateInputSet>) -> (r: Result<
    (),
    IvcError,
>)
    requires
        all_wf(schedule@),
    ensures
        match r {
            Ok(()) => schedule_has_rule_keys(*rule, schedule@),
            Err(e) => e == IvcError::SchemaMismatch && !schedule_has_rule_keys(*rule, schedule@),
        },
{
    let n = schedule.len();
    let mut i: usize = 0;
    while i < n
        invariant
            i <= n,
            all_wf(schedule@),
            n == schedule@.len(),
            forall|j: int| 0 <= j < i ==> set_has_rule_keys(*rule, #[trigger] schedule@[j]),
        decreases n - i,
    {
        if !check_set_keys(rule, &schedule[i]) {
            return Err(IvcError::SchemaMismatch);
        }
        i += 1;
    }
    Ok(())
}

} // verus!
