//! Dense action vocabulary for policy heads.
//!
//! Rule identifiers are sparse and chosen by hand in each rule module; a policy
//! tensor has one column per action.  An [`ActionVocabulary`] assigns each
//! registered rule a dense index in registration order and refuses to answer
//! for anything it does not contain.  Its [`ActionVocabulary::digest`]
//! (FNV-1a over version, length and every `index -> module::name` pair) lets a
//! model trained against another rule set be rejected at load time.

use std::collections::HashMap;
use vstd::prelude::*;
use vstd::string::StringSliceAdditionalSpecFns;
use crate::rule::{
    all_keys, all_rules, key_eq, registry_wf, standard_groups_spec, try_standard_rules, RegistryError, Rule, RuleId,
    RuleKey, RuleSet,
};
use crate::text::{decimal, decimal_string, hex_fixed, hex_fixed_string, push_text, str_eq};

verus! {

broadcast use vstd::std_specs::hash::group_hash_axioms;

/// Version of the vocabulary construction scheme.
pub const ACTION_VOCABULARY_VERSION: u32 = 1;

/// FNV-1a offset basis.
pub const FNV_OFFSET: u64 = 0xcbf2_9ce4_8422_2325;

/// FNV-1a prime.
pub const FNV_PRIME: u64 = 0x0000_0100_0000_01b3;

/// A single dense action: one registered rule.
#[derive(Clone, Copy, Debug, PartialEq, Eq)]
pub struct ActionEntry {
    /// Dense index into a policy tensor.
    pub index: usize,
    /// Compact identifier of the rule.
    pub rule_id: RuleId,
    /// Stable module/name identity of the rule.
    pub key: RuleKey,
}

/// Reason an action lookup failed.
#[derive(Debug, Clone, PartialEq, Eq)]
pub enum ActionError {
    /// The rule is not part of this vocabulary.
    UnknownRule(RuleId),
    /// The key is not part of this vocabulary.
    UnknownKey(RuleKey),
    /// No rule with this `module::name` pair is in the vocabulary.
    UnknownName { module: String, name: String },
    /// The dense index is out of range.
    IndexOutOfRange { index: usize, len: usize },
    /// A policy vector does not have one entry per action.
    CountMismatch { found: usize, expected: usize },
    /// A model was built against a different vocabulary.
    DigestMismatch { found: u64, expected: u64 },
}

// ---------------------------------------------------------------------------
// Digest specification
// ---------------------------------------------------------------------------

/// One FNV-1a step.
pub open spec fn fnv_step(h: u64, b: u8) -> u64 {
    vstd::wrapping::u64_specs::wrapping_mul(h ^ (b as u64), FNV_PRIME)
}

/// FNV-1a folded over a byte sequence, starting from `h`.
pub open spec fn fnv_fold(h: u64, bytes: Seq<u8>) -> u64
    decreases bytes.len(),
{
    if bytes.len() == 0 {
        h
    } else {
        fnv_step(fnv_fold(h, bytes.drop_last()), bytes.last())
    }
}

/// Little-endian bytes of a `u64`.
pub open spec fn le_bytes_u64(x: u64) -> Seq<u8> {
    Seq::new(8, |i: int| ((x >> ((8 * i) as u64)) & 0xff) as u8)
}

/// Little-endian bytes of a `u32`.
pub open spec fn le_bytes_u32(x: u32) -> Seq<u8> {
    Seq::new(4, |i: int| ((x >> ((8 * i) as u32)) & 0xff) as u8)
}

/// The bytes one entry contributes: index, `module`, `::`, `name`, newline.
pub open spec fn entry_bytes(e: ActionEntry) -> Seq<u8> {
    le_bytes_u64(e.index as u64) + e.key.module.spec_bytes() + seq![58u8, 58u8]
        + e.key.name.spec_bytes() + seq![10u8]
}

/// Concatenated bytes of a run of entries.
pub open spec fn entries_bytes(es: Seq<ActionEntry>) -> Seq<u8>
    decreases es.len(),
{
    if es.len() == 0 {
        Seq::empty()
    } else {
        entries_bytes(es.drop_last()) + entry_bytes(es.last())
    }
}

/// Everything the digest hashes: version, length, then every entry.
pub open spec fn digest_bytes(es: Seq<ActionEntry>) -> Seq<u8> {
    le_bytes_u32(ACTION_VOCABULARY_VERSION) + le_bytes_u64(es.len() as u64) + entries_bytes(es)
}

/// The digest of a run of entries.
pub open spec fn spec_digest(es: Seq<ActionEntry>) -> u64 {
    fnv_fold(FNV_OFFSET, digest_bytes(es))
}

/// Folding over a concatenation is folding over each part in turn.
pub proof fn lemma_fnv_fold_append(h: u64, a: Seq<u8>, b: Seq<u8>)
    ensures
        fnv_fold(h, a + b) == fnv_fold(fnv_fold(h, a), b),
    decreases b.len(),
{
    if b.len() == 0 {
        assert(a + b =~= a);
    } else {
        lemma_fnv_fold_append(h, a, b.drop_last());
        assert((a + b).drop_last() =~= a + b.drop_last());
        assert((a + b).last() == b.last());
    }
}

/// Feed `bytes` into the running hash.
fn fnv_write(hash: &mut u64, bytes: &[u8])
    ensures
        *final(hash) == fnv_fold(*old(hash), bytes@),
{
    let ghost h0 = *hash;
    let mut i: usize = 0;
    while i < bytes.len()
        invariant
            i <= bytes.len(),
            *hash == fnv_fold(h0, bytes@.take(i as int)),
        decreases bytes.len() - i,
    {
        proof {
            assert(bytes@.take(i + 1).drop_last() =~= bytes@.take(i as int));
        }
        *hash = (*hash ^ (bytes[i] as u64)).wrapping_mul(FNV_PRIME);
        i = i + 1;
    }
    assert(bytes@.take(bytes.len() as int) =~= bytes@);
}

/// Feed the little-endian bytes of `x` into the running hash.
fn fnv_write_u64(hash: &mut u64, x: u64)
    ensures
        *final(hash) == fnv_fold(*old(hash), le_bytes_u64(x)),
{
    let ghost h0 = *hash;
    let mut i: u64 = 0;
    while i < 8
        invariant
            i <= 8,
            *hash == fnv_fold(h0, le_bytes_u64(x).take(i as int)),
        decreases 8 - i,
    {
        let b: u8 = ((x >> (8 * i)) & 0xff) as u8;
        proof {
            assert(le_bytes_u64(x).take(i + 1).drop_last() =~= le_bytes_u64(x).take(i as int));
            assert(le_bytes_u64(x)[i as int] == b);
        }
        *hash = (*hash ^ (b as u64)).wrapping_mul(FNV_PRIME);
        i = i + 1;
    }
    assert(le_bytes_u64(x).take(8) =~= le_bytes_u64(x));
}

/// Feed the little-endian bytes of `x` into the running hash.
fn fnv_write_u32(hash: &mut u64, x: u32)
    ensures
        *final(hash) == fnv_fold(*old(hash), le_bytes_u32(x)),
{
    let ghost h0 = *hash;
    let mut i: u32 = 0;
    while i < 4
        invariant
            i <= 4,
            *hash == fnv_fold(h0, le_bytes_u32(x).take(i as int)),
        decreases 4 - i,
    {
        let b: u8 = ((x >> (8 * i)) & 0xff) as u8;
        proof {
            assert(le_bytes_u32(x).take(i + 1).drop_last() =~= le_bytes_u32(x).take(i as int));
            assert(le_bytes_u32(x)[i as int] == b);
        }
        *hash = (*hash ^ (b as u64)).wrapping_mul(FNV_PRIME);
        i = i + 1;
    }
    assert(le_bytes_u32(x).take(4) =~= le_bytes_u32(x));
}

/// FNV-1a over the vocabulary contents: version, length, then for every entry
/// its index, `module`, `::`, `name` and a newline.
pub fn compute_digest(entries: &[ActionEntry]) -> (h: u64)
    ensures
        h == spec_digest(entries@),
{
    let mut hash: u64 = FNV_OFFSET;
    fnv_write_u32(&mut hash, ACTION_VOCABULARY_VERSION);
    fnv_write_u64(&mut hash, entries.len() as u64);
    proof {
        lemma_fnv_fold_append(FNV_OFFSET, le_bytes_u32(ACTION_VOCABULARY_VERSION), le_bytes_u64(entries@.len() as u64));
    }
    let ghost prefix = le_bytes_u32(ACTION_VOCABULARY_VERSION) + le_bytes_u64(entries@.len() as u64);
    let sep: Vec<u8> = vec![58u8, 58u8];
    let nl: Vec<u8> = vec![10u8];
    assert(sep@ =~= seq![58u8, 58u8]);
    assert(nl@ =~= seq![10u8]);
    let mut i: usize = 0;
    while i < entries.len()
        invariant
            i <= entries.len(),
            sep@ == seq![58u8, 58u8],
            nl@ == seq![10u8],
            hash == fnv_fold(FNV_OFFSET, prefix + entries_bytes(entries@.take(i as int))),
        decreases entries.len() - i,
    {
        let e = &entries[i];
        let ghost before = prefix + entries_bytes(entries@.take(i as int));
        fnv_write_u64(&mut hash, e.index as u64);
        fnv_write(&mut hash, e.key.module.as_bytes());
        fnv_write(&mut hash, sep.as_slice());
        fnv_write(&mut hash, e.key.name.as_bytes());
        fnv_write(&mut hash, nl.as_slice());
        proof {
            let eb = entry_bytes(*e);
            lemma_fnv_fold_append(FNV_OFFSET, before, le_bytes_u64(e.index as u64));
            lemma_fnv_fold_append(FNV_OFFSET, before + le_bytes_u64(e.index as u64), e.key.module.spec_bytes());
            lemma_fnv_fold_append(FNV_OFFSET, before + le_bytes_u64(e.index as u64) + e.key.module.spec_bytes(), seq![58u8, 58u8]);
            lemma_fnv_fold_append(FNV_OFFSET, before + le_bytes_u64(e.index as u64) + e.key.module.spec_bytes() + seq![58u8, 58u8], e.key.name.spec_bytes());
            lemma_fnv_fold_append(FNV_OFFSET, before + le_bytes_u64(e.index as u64) + e.key.module.spec_bytes() + seq![58u8, 58u8] + e.key.name.spec_bytes(), seq![10u8]);
            assert(entries@.take(i + 1).drop_last() =~= entries@.take(i as int));
            assert(entries@.take(i + 1).last() == *e);
            assert(before + eb =~= before + le_bytes_u64(e.index as u64) + e.key.module.spec_bytes() + seq![58u8, 58u8] + e.key.name.spec_bytes() + seq![10u8]);
            assert(prefix + entries_bytes(entries@.take(i + 1)) =~= before + eb);
        }
        i = i + 1;
    }
    assert(entries@.take(entries.len() as int) =~= entries@);
    assert(prefix + entries_bytes(entries@) =~= digest_bytes(entries@));
    hash
}

// ---------------------------------------------------------------------------
// The vocabulary
// ---------------------------------------------------------------------------

/// The entries a run of rules and their keys give: position `i` holds rule
/// `i` and its key.
pub open spec fn entries_from(rules: Seq<Rule>, keys: Seq<RuleKey>) -> Seq<ActionEntry> {
    Seq::new(rules.len(), |i: int| ActionEntry { index: i as usize, rule_id: rules[i].id, key: keys[i] })
}

/// The entries a rule set gives: position `i` holds rule `i` and its key.
pub open spec fn entries_of(rules: RuleSet) -> Seq<ActionEntry> {
    entries_from(rules.spec_rules(), rules.spec_keys())
}

/// Vocabulary well-formedness: dense indices, and no identifier or key twice.
pub open spec fn vocabulary_wf(es: Seq<ActionEntry>) -> bool {
    &&& es.len() <= usize::MAX
    &&& forall|i: int| 0 <= i < es.len() ==> (#[trigger] es[i]).index == i
    &&& forall|i: int, j: int|
        0 <= i < es.len() && 0 <= j < es.len() && i != j ==> (#[trigger] es[i]).rule_id != (#[trigger] es[j]).rule_id
    &&& forall|i: int, j: int|
        0 <= i < es.len() && 0 <= j < es.len() && i != j ==> (#[trigger] es[i]).key@ != (#[trigger] es[j]).key@
}

/// A dense, deterministic, checked mapping between rules and policy columns.
#[derive(Debug)]
pub struct ActionVocabulary {
    entries: Vec<ActionEntry>,
    by_rule: HashMap<u32, usize>,
    digest: u64,
}

impl ActionVocabulary {
    #[verifier::type_invariant]
    spec fn inv(self) -> bool {
        &&& vocabulary_wf(self.entries@)
        &&& self.digest == spec_digest(self.entries@)
        &&& forall|k: u32| #[trigger] self.by_rule@.contains_key(k) <==> exists|i: int|
            0 <= i < self.entries@.len() && (#[trigger] self.entries@[i]).rule_id.0 == k
        &&& forall|i: int| 0 <= i < self.entries@.len() ==> self.by_rule@[(#[trigger] self.entries@[i]).rule_id.0] == i
    }

    /// All actions, in dense index order.
    pub closed spec fn spec_entries(&self) -> Seq<ActionEntry> {
        self.entries@
    }

    /// The vocabulary of the standard registry ([`try_standard_rules`]): every
    /// rule of the standard groups, in registration order; the registry's
    /// error when two of those rules share an identifier or a key.
    pub fn standard() -> (r: Result<Self, RegistryError>)
        ensures
            exists|groups: Seq<(&'static str, Seq<Rule>)>| {
                &&& standard_groups_spec(groups)
                &&& (r is Ok <==> registry_wf(all_rules(groups), all_keys(groups)))
                &&& r matches Ok(v) ==> v.spec_entries() == entries_from(all_rules(groups), all_keys(groups))
            },
    {
        match try_standard_rules() {
            Ok(set) => Ok(Self::from_rule_set(&set)),
            Err(e) => Err(e),
        }
    }

    /// Build a vocabulary from a rule set, in registration order.
    ///
    /// Entry `i` is rule `i` of the set with its key; since the set has unique
    /// identifiers and keys, the index is a bijection between `0..rules.len()`
    /// and the registered rules.
    pub fn from_rule_set(rules: &RuleSet) -> (v: Self)
        ensures
            v.spec_entries() == entries_of(*rules),
            vocabulary_wf(v.spec_entries()),
    {
        let all = rules.all();
        let keys = rules.keys();
        let mut entries: Vec<ActionEntry> = Vec::new();
        let mut by_rule: HashMap<u32, usize> = HashMap::new();
        let ghost es = entries_of(*rules);
        let mut index: usize = 0;
        while index < all.len()
            invariant
                index <= all.len(),
                all@ == rules.spec_rules(),
                keys@ == rules.spec_keys(),
                registry_wf(all@, keys@),
                es == entries_of(*rules),
                entries@ =~= es.take(index as int),
                forall|k: u32| #[trigger] by_rule@.contains_key(k) <==> exists|i: int|
                    0 <= i < index && (#[trigger] es[i]).rule_id.0 == k,
                forall|i: int| 0 <= i < index ==> by_rule@[(#[trigger] es[i]).rule_id.0] == i,
            decreases all.len() - index,
        {
            let entry = ActionEntry { index, rule_id: all[index].id, key: keys[index] };
            assert(entry == es[index as int]);
            by_rule.insert(all[index].id.0, index);
            entries.push(entry);
            proof {
                assert forall|i: int| 0 <= i < index implies (#[trigger] es[i]).rule_id.0 != all@[index as int].id.0 by {
                    assert(all@[i].id != all@[index as int].id);
                }
                assert forall|k: u32| #[trigger] by_rule@.contains_key(k) <==> exists|i: int|
                    0 <= i < index + 1 && (#[trigger] es[i]).rule_id.0 == k by {
                    if k == all@[index as int].id.0 {
                        assert(es[index as int].rule_id.0 == k);
                    }
                }
            }
            index = index + 1;
        }
        proof {
            assert(es.take(all.len() as int) =~= es);
            assert(entries@ == es);
            assert forall|i: int, j: int|
                0 <= i < es.len() && 0 <= j < es.len() && i != j implies (#[trigger] es[i]).rule_id != (#[trigger] es[j]).rule_id by {
                if i < j {
                    assert(all@[i].id != all@[j].id);
                } else {
                    assert(all@[j].id != all@[i].id);
                }
            }
            assert forall|i: int, j: int|
                0 <= i < es.len() && 0 <= j < es.len() && i != j implies (#[trigger] es[i]).key@ != (#[trigger] es[j]).key@ by {
                if i < j {
                    assert(keys@[i]@ != keys@[j]@);
                } else {
                    assert(keys@[j]@ != keys@[i]@);
                }
            }
        }
        let digest = compute_digest(entries.as_slice());
        proof {
            assert forall|k: u32| #[trigger] by_rule@.contains_key(k) <==> exists|i: int|
                0 <= i < entries@.len() && (#[trigger] entries@[i]).rule_id.0 == k by {
                if by_rule@.contains_key(k) {
                    let i = choose|i: int| 0 <= i < index && (#[trigger] es[i]).rule_id.0 == k;
                    assert(entries@[i] == es[i]);
                }
                if exists|i: int| 0 <= i < entries@.len() && (#[trigger] entries@[i]).rule_id.0 == k {
                    let i = choose|i: int| 0 <= i < entries@.len() && (#[trigger] entries@[i]).rule_id.0 == k;
                    assert(es[i].rule_id.0 == k);
                }
            }
            assert forall|i: int| 0 <= i < entries@.len() implies by_rule@[(#[trigger] entries@[i]).rule_id.0] == i by {
                assert(entries@[i] == es[i]);
            }
        }
        ActionVocabulary { entries, by_rule, digest }
    }

    /// Number of actions.
    pub fn len(&self) -> (n: usize)
        ensures
            n == self.spec_entries().len(),
            vocabulary_wf(self.spec_entries()),
    {
        proof {
            use_type_invariant(self);
        }
        self.entries.len()
    }

    /// Whether the vocabulary is empty.
    pub fn is_empty(&self) -> (b: bool)
        ensures
            b == (self.spec_entries().len() == 0),
    {
        self.entries.len() == 0
    }

    /// All actions, in dense index order.
    pub fn entries(&self) -> (s: &[ActionEntry])
        ensures
            s@ == self.spec_entries(),
            vocabulary_wf(self.spec_entries()),
    {
        proof {
            use_type_invariant(self);
        }
        self.entries.as_slice()
    }

    /// Content digest over version, length and every `index -> module::name` pair.
    pub fn digest(&self) -> (d: u64)
        ensures
            d == spec_digest(self.spec_entries()),
    {
        proof {
            use_type_invariant(self);
        }
        self.digest
    }

    /// Dense index of a rule.
    pub fn index_of_rule(&self, id: RuleId) -> (res: Result<usize, ActionError>)
        ensures
            vocabulary_wf(self.spec_entries()),
            match res {
                Ok(i) => i < self.spec_entries().len() && self.spec_entries()[i as int].rule_id == id,
                Err(e) => e == ActionError::UnknownRule(id) && forall|j: int|
                    0 <= j < self.spec_entries().len() ==> (#[trigger] self.spec_entries()[j]).rule_id != id,
            },
    {
        proof {
            use_type_invariant(self);
        }
        match self.by_rule.get(&id.0) {
            Some(i) => {
                let i = *i;
                proof {
                    let j = choose|j: int| 0 <= j < self.entries@.len() && (#[trigger] self.entries@[j]).rule_id.0 == id.0;
                    assert(self.by_rule@[self.entries@[j].rule_id.0] == j);
                }
                Ok(i)
            },
            None => {
                proof {
                    assert forall|j: int| 0 <= j < self.entries@.len() implies (#[trigger] self.entries@[j]).rule_id != id by {
                        if self.entries@[j].rule_id == id {
                            assert(self.by_rule@.contains_key(id.0));
                        }
                    }
                }
                Err(ActionError::UnknownRule(id))
            },
        }
    }

    /// Dense index of a stable module/name key.
    pub fn index_of_key(&self, key: &RuleKey) -> (res: Result<usize, ActionError>)
        ensures
            vocabulary_wf(self.spec_entries()),
            match res {
                Ok(i) => i < self.spec_entries().len() && self.spec_entries()[i as int].key@ == key@,
                Err(e) => e == ActionError::UnknownKey(*key) && forall|j: int|
                    0 <= j < self.spec_entries().len() ==> (#[trigger] self.spec_entries()[j]).key@ != key@,
            },
    {
        proof {
            use_type_invariant(self);
        }
        let mut i: usize = 0;
        while i < self.entries.len()
            invariant
                i <= self.entries.len(),
                vocabulary_wf(self.entries@),
                forall|j: int| 0 <= j < i ==> (#[trigger] self.entries@[j]).key@ != key@,
            decreases self.entries.len() - i,
        {
            if key_eq(&self.entries[i].key, key) {
                return Ok(i);
            }
            i = i + 1;
        }
        Err(ActionError::UnknownKey(*key))
    }

    /// Dense index of a `module::name` pair, for call sites that only have
    /// strings: the first entry whose key has that module and name.
    pub fn index_of(&self, module: &str, name: &str) -> (res: Result<usize, ActionError>)
        ensures
            vocabulary_wf(self.spec_entries()),
            match res {
                Ok(i) => i < self.spec_entries().len()
                    && self.spec_entries()[i as int].key@ == (module@, name@)
                    && forall|j: int| 0 <= j < i ==> (#[trigger] self.spec_entries()[j]).key@ != (module@, name@),
                Err(e) => e matches ActionError::UnknownName { module: m, name: n }
                    && m@ == module@ && n@ == name@
                    && forall|j: int| 0 <= j < self.spec_entries().len()
                        ==> (#[trigger] self.spec_entries()[j]).key@ != (module@, name@),
            },
    {
        proof {
            use_type_invariant(self);
        }
        let mut i: usize = 0;
        while i < self.entries.len()
            invariant
                i <= self.entries.len(),
                vocabulary_wf(self.entries@),
                forall|j: int| 0 <= j < i ==> (#[trigger] self.entries@[j]).key@ != (module@, name@),
            decreases self.entries.len() - i,
        {
            let k = self.entries[i].key;
            if str_eq(k.module, module) && str_eq(k.name, name) {
                return Ok(self.entries[i].index);
            }
            i = i + 1;
        }
        Err(ActionError::UnknownName { module: module.to_owned(), name: name.to_owned() })
    }

    /// The action at a dense index.
    pub fn entry_at(&self, index: usize) -> (res: Result<&ActionEntry, ActionError>)
        ensures
            vocabulary_wf(self.spec_entries()),
            match res {
                Ok(e) => index < self.spec_entries().len() && *e == self.spec_entries()[index as int],
                Err(err) => index >= self.spec_entries().len()
                    && err == (ActionError::IndexOutOfRange { index, len: self.spec_entries().len() as usize }),
            },
    {
        proof {
            use_type_invariant(self);
        }
        if index < self.entries.len() {
            Ok(&self.entries[index])
        } else {
            Err(ActionError::IndexOutOfRange { index, len: self.entries.len() })
        }
    }

    /// The rule identifier at a dense index.
    pub fn rule_id_at(&self, index: usize) -> (res: Result<RuleId, ActionError>)
        ensures
            vocabulary_wf(self.spec_entries()),
            match res {
                Ok(id) => index < self.spec_entries().len() && id == self.spec_entries()[index as int].rule_id,
                Err(err) => index >= self.spec_entries().len()
                    && err == (ActionError::IndexOutOfRange { index, len: self.spec_entries().len() as usize }),
            },
    {
        match self.entry_at(index) {
            Ok(e) => Ok(e.rule_id),
            Err(err) => Err(err),
        }
    }

    /// The stable key at a dense index.
    pub fn key_at(&self, index: usize) -> (res: Result<RuleKey, ActionError>)
        ensures
            vocabulary_wf(self.spec_entries()),
            match res {
                Ok(k) => index < self.spec_entries().len() && k == self.spec_entries()[index as int].key,
                Err(err) => index >= self.spec_entries().len()
                    && err == (ActionError::IndexOutOfRange { index, len: self.spec_entries().len() as usize }),
            },
    {
        match self.entry_at(index) {
            Ok(e) => Ok(e.key),
            Err(err) => Err(err),
        }
    }

    /// Check that a policy vector has exactly one entry per action.
    pub fn check_len(&self, found: usize) -> (res: Result<(), ActionError>)
        ensures
            res is Ok <==> found == self.spec_entries().len(),
            res matches Err(e) ==> e == (ActionError::CountMismatch {
                found,
                expected: self.spec_entries().len() as usize,
            }),
    {
        if found == self.entries.len() {
            Ok(())
        } else {
            Err(ActionError::CountMismatch { found, expected: self.entries.len() })
        }
    }

    /// Check that a model's recorded vocabulary digest matches this vocabulary.
    pub fn check_digest(&self, found: u64) -> (res: Result<(), ActionError>)
        ensures
            res is Ok <==> found == spec_digest(self.spec_entries()),
            res matches Err(e) ==> e == (ActionError::DigestMismatch {
                found,
                expected: spec_digest(self.spec_entries()),
            }),
    {
        proof {
            use_type_invariant(self);
        }
        if found == self.digest {
            Ok(())
        } else {
            Err(ActionError::DigestMismatch { found, expected: self.digest })
        }
    }
}

impl ActionVocabulary {
    /// Read the prior a policy vector assigns to a rule.
    ///
    /// Fails rather than substituting a default: a vector without one entry
    /// per action is a count mismatch, and a rule outside the vocabulary is
    /// unknown.
    pub fn prior_for_rule<T: Copy>(&self, priors: &[T], id: RuleId) -> (res: Result<T, ActionError>)
        ensures
            priors@.len() != self.spec_entries().len() ==> res == Err::<T, ActionError>(ActionError::CountMismatch {
                found: priors@.len() as usize,
                expected: self.spec_entries().len() as usize,
            }),
            priors@.len() == self.spec_entries().len() && (forall|j: int|
                0 <= j < self.spec_entries().len() ==> (#[trigger] self.spec_entries()[j]).rule_id != id)
                ==> res == Err::<T, ActionError>(ActionError::UnknownRule(id)),
            forall|i: int|
                priors@.len() == self.spec_entries().len() && 0 <= i < priors@.len()
                    && (#[trigger] self.spec_entries()[i]).rule_id == id ==> res == Ok::<T, ActionError>(priors@[i]),
    {
        proof {
            use_type_invariant(self);
        }
        match self.check_len(priors.len()) {
            Ok(()) => {},
            Err(e) => return Err(e),
        }
        let index = match self.index_of_rule(id) {
            Ok(i) => i,
            Err(e) => return Err(e),
        };
        proof {
            assert forall|i: int|
                priors@.len() == self.spec_entries().len() && 0 <= i < priors@.len()
                    && (#[trigger] self.spec_entries()[i]).rule_id == id implies i == index as int by {
                lemma_index_round_trip(self.spec_entries(), index as int, i);
            }
        }
        Ok(priors[index])
    }
}

/// The dense index is a bijection: an index holds exactly one rule, and no
/// other index holds the same rule identifier or the same key.  So looking up
/// the identifier or the key found at index `i` gives `i` back.
pub proof fn lemma_index_round_trip(es: Seq<ActionEntry>, i: int, j: int)
    requires
        vocabulary_wf(es),
        0 <= i < es.len(),
        0 <= j < es.len(),
    ensures
        es[i].index == i,
        es[j].rule_id == es[i].rule_id ==> j == i,
        es[j].key@ == es[i].key@ ==> j == i,
{
}

/// Runs of entries that agree entry by entry on their bytes have the same bytes.
proof fn lemma_entries_bytes_eq(x: Seq<ActionEntry>, y: Seq<ActionEntry>)
    requires
        x.len() == y.len(),
        forall|i: int| 0 <= i < x.len() ==> entry_bytes(#[trigger] x[i]) == entry_bytes(y[i]),
    ensures
        entries_bytes(x) == entries_bytes(y),
    decreases x.len(),
{
    if x.len() > 0 {
        let (xi, yi) = (x.drop_last(), y.drop_last());
        assert forall|i: int| 0 <= i < xi.len() implies entry_bytes(#[trigger] xi[i]) == entry_bytes(yi[i]) by {
            assert(xi[i] == x[i] && yi[i] == y[i]);
        }
        lemma_entries_bytes_eq(xi, yi);
        assert(entry_bytes(x.last()) == entry_bytes(y.last())) by {
            assert(x.last() == x[x.len() - 1] && y.last() == y[y.len() - 1]);
        }
    }
}

/// The digest is stable: it depends only on the registered keys, in order.
/// Two registries with the same keys give vocabularies with the same digest,
/// whatever identifiers their rules carry.
pub proof fn lemma_digest_depends_on_keys(a: RuleSet, b: RuleSet)
    requires
        registry_wf(a.spec_rules(), a.spec_keys()),
        registry_wf(b.spec_rules(), b.spec_keys()),
        a.spec_keys() == b.spec_keys(),
    ensures
        spec_digest(entries_of(a)) == spec_digest(entries_of(b)),
{
    let (x, y) = (entries_of(a), entries_of(b));
    assert forall|i: int| 0 <= i < x.len() implies entry_bytes(#[trigger] x[i]) == entry_bytes(y[i]) by {
        assert(x[i].key == y[i].key && x[i].index == y[i].index);
    }
    lemma_entries_bytes_eq(x, y);
}

/// The vocabulary built from a rule set covers every rule exactly once, at
/// its registration position.
pub proof fn lemma_covers_every_rule(rules: RuleSet, i: int)
    requires
        registry_wf(rules.spec_rules(), rules.spec_keys()),
        0 <= i < rules.spec_rules().len(),
    ensures
        entries_of(rules).len() == rules.spec_rules().len(),
        entries_of(rules)[i].rule_id == rules.spec_rules()[i].id,
        entries_of(rules)[i].key == rules.spec_keys()[i],
{
}


// ---------------------------------------------------------------------------
// Error messages
// ---------------------------------------------------------------------------

/// The message of an action error.  A key is written `module::name`; a
/// digest as `0x` and sixteen lower-case hexadecimal digits.
pub open spec fn error_text(e: ActionError) -> Seq<char> {
    match e {
        ActionError::UnknownRule(id) => "rule "@ + decimal(id.0 as nat) + " is not in the action vocabulary"@,
        ActionError::UnknownKey(key) => "rule "@ + key.module@ + "::"@ + key.name@ + " is not in the action vocabulary"@,
        ActionError::UnknownName { module, name } => "rule "@ + module@ + "::"@ + name@
            + " is not in the action vocabulary"@,
        ActionError::IndexOutOfRange { index, len } => "action index "@ + decimal(index as nat)
            + " out of range (vocabulary has "@ + decimal(len as nat) + ")"@,
        ActionError::CountMismatch { found, expected } => "policy vector has "@ + decimal(found as nat)
            + " entries but the action vocabulary has "@ + decimal(expected as nat),
        ActionError::DigestMismatch { found, expected } => "model was built for action vocabulary 0x"@
            + hex_fixed(found as nat, 16) + ", current vocabulary is 0x"@ + hex_fixed(expected as nat, 16),
    }
}

impl ActionError {
    /// The message of this error, as [`error_text`] states.
    pub fn message(&self) -> (s: String)
        ensures
            s@ == error_text(*self),
    {
        let mut s = String::new();
        match self {
            ActionError::UnknownRule(id) => {
                push_text(&mut s, "rule ");
                let d = decimal_string(id.0 as u64);
                push_text(&mut s, d.as_str());
                push_text(&mut s, " is not in the action vocabulary");
            },
            ActionError::UnknownKey(key) => {
                push_text(&mut s, "rule ");
                push_text(&mut s, key.module);
                push_text(&mut s, "::");
                push_text(&mut s, key.name);
                push_text(&mut s, " is not in the action vocabulary");
            },
            ActionError::UnknownName { module, name } => {
                push_text(&mut s, "rule ");
                push_text(&mut s, module.as_str());
                push_text(&mut s, "::");
                push_text(&mut s, name.as_str());
                push_text(&mut s, " is not in the action vocabulary");
            },
            ActionError::IndexOutOfRange { index, len } => {
                push_text(&mut s, "action index ");
                let d = decimal_string(*index as u64);
                push_text(&mut s, d.as_str());
                push_text(&mut s, " out of range (vocabulary has ");
                let d = decimal_string(*len as u64);
                push_text(&mut s, d.as_str());
                push_text(&mut s, ")");
            },
            ActionError::CountMismatch { found, expected } => {
                push_text(&mut s, "policy vector has ");
                let d = decimal_string(*found as u64);
                push_text(&mut s, d.as_str());
                push_text(&mut s, " entries but the action vocabulary has ");
                let d = decimal_string(*expected as u64);
                push_text(&mut s, d.as_str());
            },
            ActionError::DigestMismatch { found, expected } => {
                push_text(&mut s, "model was built for action vocabulary 0x");
                let d = hex_fixed_string(*found, 16);
                push_text(&mut s, d.as_str());
                push_text(&mut s, ", current vocabulary is 0x");
                let d = hex_fixed_string(*expected, 16);
                push_text(&mut s, d.as_str());
            },
        }
        assert(s@ =~= error_text(*self));
        s
    }
}

} // verus!
