//! Rule identities, metadata and the validated rule registry.
//!
//! A [`RuleSet`] holds rules in registration order together with the stable
//! `module::name` key of each one.  Registration refuses a group that would
//! give two rules the same identifier or the same key, so a rule set is always
//! a bijection between identifiers, keys and registration positions.

use vstd::prelude::*;
use crate::expr::{Expr, Symbol};
use crate::rewrite::Rewrite;
use crate::text::str_eq;

verus! {

/// Compact numeric identifier of a rule.
#[derive(Clone, Copy, Debug, PartialEq, Eq, Hash, Structural)]
pub struct RuleId(pub u32);

/// Stable identity of a rule: the module that registered it and its name.
#[derive(Clone, Copy, Debug, PartialEq, Eq, Hash)]
pub struct RuleKey {
    /// Registering module, e.g. `"number_theory"`.
    pub module: &'static str,
    /// Rule name, unique within the module.
    pub name: &'static str,
}

impl View for RuleKey {
    type V = (Seq<char>, Seq<char>);

    open spec fn view(&self) -> (Seq<char>, Seq<char>) {
        (self.module@, self.name@)
    }
}

/// Broad classification of what a rule does.
#[derive(Clone, Copy, Debug, PartialEq, Eq, Hash, Structural)]
pub enum RuleCategory {
    Simplification,
    Expansion,
    Factoring,
    EquationSolving,
    AlgebraicSolving,
    Derivative,
    Integral,
    NumberTheory,
}

/// Mathematical domain a rule belongs to; used by the guardrail filter.
#[derive(Clone, Copy, Debug, PartialEq, Eq, Hash, Structural)]
pub enum Domain {
    Trigonometry,
    CalculusDiff,
    CalculusInt,
    Combinatorics,
    Geometry,
    Equations,
}

/// Structural feature an expression must show before a rule is worth trying.
#[derive(Clone, Copy, Debug, PartialEq, Eq, Hash, Structural)]
pub enum Feature {
    ConicSection,
}

/// One transformation rule: its metadata and the rewrite it performs.
#[derive(Clone, Debug)]
pub struct Rule {
    pub id: RuleId,
    pub name: &'static str,
    pub category: RuleCategory,
    pub description: &'static str,
    /// Domains the rule belongs to; empty means "any".
    pub domains: Vec<Domain>,
    /// Features the expression must show.
    pub requires: Vec<Feature>,
    pub reversible: bool,
    pub cost: u32,
    /// The rewrite: when the rule applies and what it produces.
    pub rewrite: Rewrite,
}

/// One result of applying a rule: the new expression and why it holds.
#[derive(Debug, Clone)]
pub struct RuleApplication {
    pub result: Expr,
    pub justification: String,
}

/// A result as `(expression, justification text)`.
pub open spec fn app_view(a: RuleApplication) -> (Expr, Seq<char>) {
    (a.result, a.justification@)
}

/// Results as `(expression, justification text)` pairs.
pub open spec fn apps_view(v: Seq<RuleApplication>) -> Seq<(Expr, Seq<char>)> {
    v.map_values(|a: RuleApplication| app_view(a))
}

/// What a rule application may consult besides the expression.
#[derive(Debug, Clone, Copy)]
pub struct RuleContext {
    /// The variable the search is solving for, if any.
    pub target_var: Option<Symbol>,
}

impl Default for RuleContext {
    fn default() -> (c: Self)
        ensures
            c.target_var is None,
    {
        RuleContext { target_var: None }
    }
}

impl Rule {
    /// Whether the rule applies to `expr` in a search for `ctx.target_var`,
    /// as its rewrite states.
    pub fn is_applicable(&self, expr: &Expr, ctx: &RuleContext) -> (b: bool)
        ensures
            b == crate::rewrite::applies(self.rewrite, *expr, ctx.target_var),
    {
        self.rewrite.is_applicable(expr, ctx.target_var)
    }

    /// Whether the rule can be applied to `expr`: its applicability test.
    pub fn can_apply(&self, expr: &Expr, ctx: &RuleContext) -> (b: bool)
        ensures
            b == crate::rewrite::applies(self.rewrite, *expr, ctx.target_var),
    {
        self.is_applicable(expr, ctx)
    }

    /// The results of the rule on `expr`, as its rewrite states.
    pub fn apply(&self, expr: &Expr, ctx: &RuleContext) -> (v: Vec<RuleApplication>)
        ensures
            apps_view(v@) == crate::rewrite::results(self.rewrite, *expr),
    {
        self.rewrite.apply(expr)
    }
}

/// Why a group of rules could not be registered.
#[derive(Clone, Copy, Debug, PartialEq, Eq)]
pub enum RegistryError {
    /// Two rules would share this identifier.
    DuplicateId(RuleId),
    /// Two rules would share this `module::name` key.
    DuplicateKey(RuleKey),
}

/// Identifiers of a run of rules.
pub open spec fn ids_of(rules: Seq<Rule>) -> Seq<u32> {
    rules.map_values(|r: Rule| r.id.0)
}

/// Names of a run of rules.
pub open spec fn names_of(rules: Seq<Rule>) -> Seq<Seq<char>> {
    rules.map_values(|r: Rule| r.name@)
}

/// Everything a rule carries, as plain values: identifier, name, category,
/// description, domains, required features, reversibility, cost and rewrite.
pub type RuleMeta = (u32, Seq<char>, RuleCategory, Seq<char>, Seq<Domain>, Seq<Feature>, bool, u32, Rewrite);

/// A rule as plain values.
pub open spec fn rule_view(r: Rule) -> RuleMeta {
    (r.id.0, r.name@, r.category, r.description@, r.domains@, r.requires@, r.reversible, r.cost, r.rewrite)
}

/// A run of rules as plain values.
pub open spec fn rules_view(rules: Seq<Rule>) -> Seq<RuleMeta> {
    rules.map_values(|r: Rule| rule_view(r))
}

/// Identifiers, names and views of a concatenation are the concatenations.
pub proof fn lemma_ids_names_append(a: Seq<Rule>, b: Seq<Rule>)
    ensures
        ids_of(a + b) == ids_of(a) + ids_of(b),
        names_of(a + b) == names_of(a) + names_of(b),
        rules_view(a + b) == rules_view(a) + rules_view(b),
{
    assert(ids_of(a + b) =~= ids_of(a) + ids_of(b));
    assert(names_of(a + b) =~= names_of(a) + names_of(b));
    assert(rules_view(a + b) =~= rules_view(a) + rules_view(b));
}

/// Whether `k` collides with one of the first `n` keys of `keys`.
pub open spec fn key_in(keys: Seq<RuleKey>, k: RuleKey) -> bool {
    exists|j: int| 0 <= j < keys.len() && (#[trigger] keys[j])@ == k@
}

/// Whether `id` is the identifier of one of the rules in `rules`.
pub open spec fn id_in(rules: Seq<Rule>, id: RuleId) -> bool {
    exists|j: int| 0 <= j < rules.len() && (#[trigger] rules[j]).id == id
}

/// The key a rule gets when registered by `module`.
pub open spec fn key_of(module: &'static str, r: Rule) -> RuleKey {
    RuleKey { module, name: r.name }
}

/// Keys of a group of rules registered by `module`.
pub open spec fn group_keys(module: &'static str, group: Seq<Rule>) -> Seq<RuleKey> {
    group.map_values(|r: Rule| key_of(module, r))
}

/// Position of the first rule of `group` that collides, by identifier or by
/// key, with the registered rules/keys or with an earlier rule of the group;
/// `group.len()` when there is none.
pub open spec fn first_conflict(
    rules: Seq<Rule>,
    keys: Seq<RuleKey>,
    module: &'static str,
    group: Seq<Rule>,
) -> int
    decreases group.len(),
{
    if group.len() == 0 {
        0
    } else {
        let prefix = group.drop_last();
        let k = first_conflict(rules, keys, module, prefix);
        if k < prefix.len() {
            k
        } else {
            let r = group.last();
            if id_in(rules + prefix, r.id) || key_in(keys + group_keys(module, prefix), key_of(module, r)) {
                prefix.len() as int
            } else {
                group.len() as int
            }
        }
    }
}

/// The error reported for a conflict at position `k` of `group`.
pub open spec fn conflict_error(
    rules: Seq<Rule>,
    module: &'static str,
    group: Seq<Rule>,
    k: int,
) -> RegistryError {
    let r = group[k];
    if id_in(rules + group.take(k), r.id) {
        RegistryError::DuplicateId(r.id)
    } else {
        RegistryError::DuplicateKey(key_of(module, r))
    }
}

/// A registry of rules with unique identifiers and unique keys.
pub struct RuleSet {
    rules: Vec<Rule>,
    keys: Vec<RuleKey>,
}

/// Registry well-formedness: one key per rule, naming it, and no identifier
/// or key occurring twice.
pub open spec fn registry_wf(rules: Seq<Rule>, keys: Seq<RuleKey>) -> bool {
    &&& keys.len() == rules.len()
    &&& forall|i: int| 0 <= i < rules.len() ==> (#[trigger] keys[i]).name == rules[i].name
    &&& forall|i: int, j: int|
        0 <= i < j < rules.len() ==> (#[trigger] rules[i]).id != (#[trigger] rules[j]).id
    &&& forall|i: int, j: int|
        0 <= i < j < keys.len() ==> (#[trigger] keys[i])@ != (#[trigger] keys[j])@
}

/// In a well-formed registry a key, and an identifier, names one rule: two
/// positions with the same key or the same identifier are the same position.
/// So [`RuleSet::get_by_key`] on the key of a registered rule, and
/// [`RuleSet::get`] on its identifier, give that rule back.
pub proof fn lemma_lookup_unique(rules: Seq<Rule>, keys: Seq<RuleKey>, i: int, j: int)
    requires
        registry_wf(rules, keys),
        0 <= i < rules.len(),
        0 <= j < rules.len(),
        keys[i]@ == keys[j]@ || rules[i].id == rules[j].id,
    ensures
        i == j,
{
    if i < j {
        assert(rules[i].id != rules[j].id);
        assert(keys[i]@ != keys[j]@);
    } else if j < i {
        assert(rules[j].id != rules[i].id);
        assert(keys[j]@ != keys[i]@);
    }
}

impl RuleSet {
    #[verifier::type_invariant]
    spec fn inv(self) -> bool {
        registry_wf(self.rules@, self.keys@)
    }

    /// The registered rules, in registration order.
    pub closed spec fn spec_rules(&self) -> Seq<Rule> {
        self.rules@
    }

    /// The key of each registered rule, position by position.
    pub closed spec fn spec_keys(&self) -> Seq<RuleKey> {
        self.keys@
    }

    /// An empty registry.
    pub fn new() -> (s: Self)
        ensures
            s.spec_rules().len() == 0,
            s.spec_keys().len() == 0,
    {
        RuleSet { rules: Vec::new(), keys: Vec::new() }
    }

    /// Number of registered rules.
    pub fn len(&self) -> (n: usize)
        ensures
            n == self.spec_rules().len(),
    {
        self.rules.len()
    }

    /// Whether nothing is registered.
    pub fn is_empty(&self) -> (b: bool)
        ensures
            b == (self.spec_rules().len() == 0),
    {
        self.rules.len() == 0
    }

    /// All rules, in registration order.
    pub fn all(&self) -> (s: &[Rule])
        ensures
            s@ == self.spec_rules(),
            registry_wf(self.spec_rules(), self.spec_keys()),
    {
        proof {
            use_type_invariant(self);
        }
        self.rules.as_slice()
    }

    /// The key of every rule, in registration order.
    pub fn keys(&self) -> (s: &[RuleKey])
        ensures
            s@ == self.spec_keys(),
            registry_wf(self.spec_rules(), self.spec_keys()),
    {
        proof {
            use_type_invariant(self);
        }
        self.keys.as_slice()
    }

    /// The rule registered under an identifier.
    pub fn get(&self, id: RuleId) -> (r: Option<&Rule>)
        ensures
            r is None <==> !id_in(self.spec_rules(), id),
            r matches Some(rule) ==> exists|i: int|
                0 <= i < self.spec_rules().len() && self.spec_rules()[i] == *rule
                    && rule.id == id,
    {
        proof {
            use_type_invariant(self);
        }
        let mut i: usize = 0;
        while i < self.rules.len()
            invariant
                i <= self.rules.len(),
                forall|j: int| 0 <= j < i ==> (#[trigger] self.rules@[j]).id != id,
            decreases self.rules.len() - i,
        {
            if self.rules[i].id.0 == id.0 {
                return Some(&self.rules[i]);
            }
            i = i + 1;
        }
        None
    }

    /// The rule registered under a key.
    pub fn get_by_key(&self, key: &RuleKey) -> (r: Option<&Rule>)
        ensures
            r is None <==> !key_in(self.spec_keys(), *key),
            r matches Some(rule) ==> exists|i: int|
                0 <= i < self.spec_rules().len() && self.spec_rules()[i] == *rule
                    && self.spec_keys()[i]@ == key@,
    {
        proof {
            use_type_invariant(self);
        }
        let mut i: usize = 0;
        while i < self.keys.len()
            invariant
                i <= self.keys.len(),
                self.keys.len() == self.rules.len(),
                forall|j: int| 0 <= j < i ==> (#[trigger] self.keys@[j])@ != key@,
            decreases self.keys.len() - i,
        {
            if key_eq(&self.keys[i], key) {
                assert(self.spec_rules()[i as int] == self.rules@[i as int]);
                assert(self.spec_keys()[i as int]@ == key@);
                return Some(&self.rules[i]);
            }
            i = i + 1;
        }
        None
    }

    /// Register a group of rules under `module`, all or nothing.
    ///
    /// Refused, with the registry unchanged, when some rule of the group would
    /// share an identifier or a key with a registered rule or with an earlier
    /// rule of the group; the error names the first such rule.
    pub fn register(&mut self, module: &'static str, group: Vec<Rule>) -> (res: Result<(), RegistryError>)
        ensures
            ({
                let k = first_conflict(old(self).spec_rules(), old(self).spec_keys(), module, group@);
                &&& res is Ok <==> k == group@.len()
                &&& res is Ok ==> final(self).spec_rules() == old(self).spec_rules() + group@
                    && final(self).spec_keys() == old(self).spec_keys() + group_keys(module, group@)
                &&& res matches Err(e) ==> e == conflict_error(old(self).spec_rules(), module, group@, k)
                    && final(self).spec_rules() == old(self).spec_rules()
                    && final(self).spec_keys() == old(self).spec_keys()
            }),
    {
        proof {
            use_type_invariant(&*self);
        }
        let ghost rules0 = self.rules@;
        let ghost keys0 = self.keys@;
        // Check every rule against the registry and the rules before it.
        let mut i: usize = 0;
        while i < group.len()
            invariant
                i <= group.len(),
                rules0 == self.rules@,
                keys0 == self.keys@,
                registry_wf(rules0, keys0),
                first_conflict(rules0, keys0, module, group@.take(i as int)) == i,
            decreases group.len() - i,
        {
            let r = &group[i];
            let key = RuleKey { module, name: r.name };
            let ghost prefix = group@.take(i as int);
            assert(group@.take(i + 1).drop_last() =~= prefix);
            let dup_id = self.has_id_or_prefix(&group, i, r.id);
            if dup_id {
                proof {
                    assert(group@.take(i + 1).last() == group@[i as int]);
                    lemma_first_conflict_prefix(rules0, keys0, module, group@, i as int);
                }
                return Err(RegistryError::DuplicateId(r.id));
            }
            let dup_key = self.has_key_or_prefix(module, &group, i, &key);
            if dup_key {
                proof {
                    assert(group@.take(i + 1).last() == group@[i as int]);
                    lemma_first_conflict_prefix(rules0, keys0, module, group@, i as int);
                }
                return Err(RegistryError::DuplicateKey(key));
            }
            proof {
                assert(group@.take(i + 1).last() == group@[i as int]);
            }
            i = i + 1;
        }
        assert(group@.take(group.len() as int) =~= group@);
        // No conflict: append, keeping the registry well formed.
        let ghost new_keys = keys0 + group_keys(module, group@);
        let ghost new_rules = rules0 + group@;
        proof {
            lemma_no_conflict_wf(rules0, keys0, module, group@);
        }
        let mut group = group;
        let mut new_key_vec: Vec<RuleKey> = Vec::new();
        let mut j: usize = 0;
        while j < group.len()
            invariant
                j <= group.len(),
                new_key_vec@ =~= group_keys(module, group@.take(j as int)),
            decreases group.len() - j,
        {
            new_key_vec.push(RuleKey { module, name: group[j].name });
            proof {
                assert(group_keys(module, group@.take(j + 1)) =~= group_keys(module, group@.take(j as int)).push(key_of(module, group@[j as int])));
            }
            j = j + 1;
        }
        proof {
            assert(group@.take(group.len() as int) =~= group@);
        }
        let mut taken = RuleSet::new();
        std::mem::swap(self, &mut taken);
        let RuleSet { rules: mut all_rules, keys: mut all_keys } = taken;
        assert(all_rules@ == rules0 && all_keys@ == keys0);
        all_rules.append(&mut group);
        all_keys.append(&mut new_key_vec);
        *self = RuleSet { rules: all_rules, keys: all_keys };
        Ok(())
    }

    /// Whether `id` is registered or is the identifier of one of the first `n`
    /// rules of `group`.
    fn has_id_or_prefix(&self, group: &Vec<Rule>, n: usize, id: RuleId) -> (b: bool)
        requires
            n <= group.len(),
        ensures
            b == id_in(self.rules@ + group@.take(n as int), id),
    {
        let ghost all = self.rules@ + group@.take(n as int);
        let mut i: usize = 0;
        while i < self.rules.len()
            invariant
                i <= self.rules.len(),
                all == self.rules@ + group@.take(n as int),
                forall|j: int| 0 <= j < i ==> (#[trigger] all[j]).id != id,
            decreases self.rules.len() - i,
        {
            if self.rules[i].id.0 == id.0 {
                assert(all[i as int] == self.rules@[i as int]);
                return true;
            }
            assert(all[i as int] == self.rules@[i as int]);
            i = i + 1;
        }
        let mut k: usize = 0;
        while k < n
            invariant
                k <= n <= group.len(),
                all == self.rules@ + group@.take(n as int),
                forall|j: int| 0 <= j < self.rules.len() + k ==> (#[trigger] all[j]).id != id,
            decreases n - k,
        {
            assert(all[self.rules.len() + k] == group@[k as int]);
            if group[k].id.0 == id.0 {
                return true;
            }
            k = k + 1;
        }
        false
    }

    /// Whether `key` is registered or is the key `module` would give one of
    /// the first `n` rules of `group`.
    fn has_key_or_prefix(&self, module: &'static str, group: &Vec<Rule>, n: usize, key: &RuleKey) -> (b: bool)
        requires
            n <= group.len(),
            self.keys.len() == self.rules.len(),
        ensures
            b == key_in(self.keys@ + group_keys(module, group@.take(n as int)), *key),
    {
        let ghost all = self.keys@ + group_keys(module, group@.take(n as int));
        let mut i: usize = 0;
        while i < self.keys.len()
            invariant
                i <= self.keys.len(),
                all == self.keys@ + group_keys(module, group@.take(n as int)),
                forall|j: int| 0 <= j < i ==> (#[trigger] all[j])@ != key@,
            decreases self.keys.len() - i,
        {
            assert(all[i as int] == self.keys@[i as int]);
            if key_eq(&self.keys[i], key) {
                return true;
            }
            i = i + 1;
        }
        let mut k: usize = 0;
        while k < n
            invariant
                k <= n <= group.len(),
                all == self.keys@ + group_keys(module, group@.take(n as int)),
                forall|j: int| 0 <= j < self.keys.len() + k ==> (#[trigger] all[j])@ != key@,
            decreases n - k,
        {
            assert(all[self.keys.len() + k] == key_of(module, group@[k as int]));
            let candidate = RuleKey { module, name: group[k].name };
            if key_eq(&candidate, key) {
                return true;
            }
            k = k + 1;
        }
        false
    }
}

/// The rule groups of the standard registry: registering module and rules,
/// in registration order.
pub open spec fn standard_groups_spec(groups: Seq<(&'static str, Seq<Rule>)>) -> bool {
    &&& groups.len() == 8
    &&& groups[0].0@ == "calculus"@ && ids_of(groups[0].1) == crate::calculus::calculus_rules_ids()
        && names_of(groups[0].1) == crate::calculus::calculus_rules_names()
    &&& groups[1].0@ == "combinatorics"@ && ids_of(groups[1].1) == crate::combinatorics::combinatorics_rules_ids()
        && names_of(groups[1].1) == crate::combinatorics::combinatorics_rules_names()
    &&& groups[2].0@ == "equations"@ && ids_of(groups[2].1) == crate::equations::equation_rules_ids()
        && names_of(groups[2].1) == crate::equations::equation_rules_names()
    &&& groups[3].0@ == "geometry"@ && ids_of(groups[3].1) == crate::geometry::geometry_rules_ids()
        && names_of(groups[3].1) == crate::geometry::geometry_rules_names()
    &&& groups[4].0@ == "inequalities"@ && ids_of(groups[4].1) == crate::inequalities::inequality_rules_ids()
        && names_of(groups[4].1) == crate::inequalities::inequality_rules_names()
    &&& groups[5].0@ == "integration"@ && ids_of(groups[5].1) == crate::integration::integration_rules_ids()
        && names_of(groups[5].1) == crate::integration::integration_rules_names()
    &&& groups[6].0@ == "number_theory"@ && ids_of(groups[6].1) == crate::number_theory::number_theory_rules_ids()
        && names_of(groups[6].1) == crate::number_theory::number_theory_rules_names()
    &&& groups[7].0@ == "polynomials"@ && ids_of(groups[7].1) == crate::polynomials::polynomial_rules_ids()
        && names_of(groups[7].1) == crate::polynomials::polynomial_rules_names()
}

/// All rules of a list of groups, concatenated.
pub open spec fn all_rules(groups: Seq<(&'static str, Seq<Rule>)>) -> Seq<Rule>
    decreases groups.len(),
{
    if groups.len() == 0 {
        Seq::empty()
    } else {
        all_rules(groups.drop_last()) + groups.last().1
    }
}

/// All keys of a list of groups, concatenated.
pub open spec fn all_keys(groups: Seq<(&'static str, Seq<Rule>)>) -> Seq<RuleKey>
    decreases groups.len(),
{
    if groups.len() == 0 {
        Seq::empty()
    } else {
        all_keys(groups.drop_last()) + group_keys(groups.last().0, groups.last().1)
    }
}

/// Register every group of the standard rule modules, in order.
///
/// Succeeds exactly when no two rules of all the groups share an identifier
/// or a `module::name` key; the registry then holds every rule in order.
pub fn try_standard_rules() -> (res: Result<RuleSet, RegistryError>)
    ensures
        exists|groups: Seq<(&'static str, Seq<Rule>)>| {
            &&& standard_groups_spec(groups)
            &&& (res is Ok <==> registry_wf(all_rules(groups), all_keys(groups)))
            &&& res matches Ok(set) ==> set.spec_rules() == all_rules(groups) && set.spec_keys() == all_keys(groups)
        },
{
    let mut groups: Vec<(&'static str, Vec<Rule>)> = Vec::new();
    groups.push(("calculus", crate::calculus::calculus_rules()));
    groups.push(("combinatorics", crate::combinatorics::combinatorics_rules()));
    groups.push(("equations", crate::equations::equation_rules()));
    groups.push(("geometry", crate::geometry::geometry_rules()));
    groups.push(("inequalities", crate::inequalities::inequality_rules()));
    groups.push(("integration", crate::integration::integration_rules()));
    groups.push(("number_theory", crate::number_theory::number_theory_rules()));
    groups.push(("polynomials", crate::polynomials::polynomial_rules()));
    let ghost gs = groups@.map_values(|g: (&'static str, Vec<Rule>)| (g.0, g.1@));
    assert(standard_groups_spec(gs));
    let mut set = RuleSet::new();
    let mut i: usize = 0;
    let n = groups.len();
    while i < n
        invariant
            n == gs.len(),
            standard_groups_spec(gs),
            i <= n,
            groups@.len() == n - i,
            forall|j: int| 0 <= j < groups@.len() ==> (groups@[j].0, groups@[j].1@) == #[trigger] gs[i + j],
            set.spec_rules() == all_rules(gs.take(i as int)),
            set.spec_keys() == all_keys(gs.take(i as int)),
            registry_wf(all_rules(gs.take(i as int)), all_keys(gs.take(i as int))),
        decreases n - i,
    {
        assert((groups@[0].0, groups@[0].1@) == gs[i + 0]);
        let ghost remaining = groups@;
        let (module, rules) = groups.remove(0);
        assert((module, rules@) == gs[i as int]);
        assert forall|j: int| 0 <= j < groups@.len() implies (groups@[j].0, groups@[j].1@) == #[trigger] gs[(i + 1) + j] by {
            assert(groups@[j] == remaining[j + 1]);
            assert((remaining[j + 1].0, remaining[j + 1].1@) == gs[i + (j + 1)]);
        }
        assert(gs.take(i + 1).drop_last() =~= gs.take(i as int));
        assert(gs.take(i + 1).last() == gs[i as int]);
        assert(all_rules(gs.take(i + 1)) == all_rules(gs.take(i as int)) + rules@);
        assert(all_keys(gs.take(i + 1)) == all_keys(gs.take(i as int)) + group_keys(module, rules@));
        let ghost rules_before = set.spec_rules();
        let ghost keys_before = set.spec_keys();
        let ghost group = rules@;
        match set.register(module, rules) {
            Ok(()) => {
                proof {
                    lemma_no_conflict_wf(rules_before, keys_before, module, group);
                }
            },
            Err(e) => {
                proof {
                    lemma_conflict_not_wf(rules_before, keys_before, module, group);
                    lemma_wf_prefix_groups(gs, i + 1);
                    assert(standard_groups_spec(gs));
                }
                return Err(e);
            },
        }
        i = i + 1;
    }
    assert(gs.take(n as int) =~= gs);
    assert(standard_groups_spec(gs));
    Ok(set)
}

/// A conflict makes the extended registry ill-formed.
proof fn lemma_conflict_not_wf(rules: Seq<Rule>, keys: Seq<RuleKey>, module: &'static str, group: Seq<Rule>)
    requires
        registry_wf(rules, keys),
        first_conflict(rules, keys, module, group) < group.len(),
    ensures
        !registry_wf(rules + group, keys + group_keys(module, group)),
    decreases group.len(),
{
    let prefix = group.drop_last();
    if first_conflict(rules, keys, module, prefix) < prefix.len() {
        lemma_conflict_not_wf(rules, keys, module, prefix);
        assert(rules + group =~= (rules + prefix) + seq![group.last()]);
        assert(group_keys(module, group) =~= group_keys(module, prefix).push(key_of(module, group.last())));
        assert(keys + group_keys(module, group) =~= (keys + group_keys(module, prefix)) + seq![key_of(module, group.last())]);
        if registry_wf(rules + group, keys + group_keys(module, group)) {
            lemma_wf_prefix(rules + prefix, keys + group_keys(module, prefix), seq![group.last()], seq![key_of(module, group.last())]);
        }
    } else {
        let r = group.last();
        let rs = rules + group;
        let ks = keys + group_keys(module, group);
        let rp = rules + prefix;
        let kp = keys + group_keys(module, prefix);
        assert(rs =~= rp.push(r));
        assert(group_keys(module, group) =~= group_keys(module, prefix).push(key_of(module, r)));
        assert(ks =~= kp.push(key_of(module, r)));
        if id_in(rp, r.id) {
            let j = choose|j: int| 0 <= j < rp.len() && (#[trigger] rp[j]).id == r.id;
            assert(rs[j] == rp[j]);
            assert(rs[rs.len() - 1] == r);
        } else {
            let j = choose|j: int| 0 <= j < kp.len() && (#[trigger] kp[j])@ == key_of(module, r)@;
            assert(ks[j] == kp[j]);
            assert(ks[ks.len() - 1] == key_of(module, r));
            if ks.len() != rs.len() {
            }
        }
    }
}

/// A prefix of a well-formed registry is well formed.
proof fn lemma_wf_prefix(rules: Seq<Rule>, keys: Seq<RuleKey>, more: Seq<Rule>, more_keys: Seq<RuleKey>)
    requires
        more.len() == more_keys.len(),
        registry_wf(rules + more, keys + more_keys),
    ensures
        registry_wf(rules, keys),
{
    let rs = rules + more;
    let ks = keys + more_keys;
    assert forall|i: int, j: int| 0 <= i < j < rules.len() implies (#[trigger] rules[i]).id != (#[trigger] rules[j]).id by {
        assert(rs[i] == rules[i] && rs[j] == rules[j]);
    }
    assert forall|i: int, j: int| 0 <= i < j < keys.len() implies (#[trigger] keys[i])@ != (#[trigger] keys[j])@ by {
        assert(ks[i] == keys[i] && ks[j] == keys[j]);
    }
    assert forall|i: int| 0 <= i < rules.len() implies (#[trigger] keys[i]).name == rules[i].name by {
        assert(rs[i] == rules[i] && ks[i] == keys[i]);
    }
}

/// If the first `k` groups do not form a well-formed registry, neither do all.
proof fn lemma_wf_prefix_groups(gs: Seq<(&'static str, Seq<Rule>)>, k: int)
    requires
        0 <= k <= gs.len(),
        !registry_wf(all_rules(gs.take(k)), all_keys(gs.take(k))),
    ensures
        !registry_wf(all_rules(gs), all_keys(gs)),
    decreases gs.len() - k,
{
    if k < gs.len() {
        let t = gs.take(k + 1);
        assert(t.drop_last() =~= gs.take(k));
        if registry_wf(all_rules(t), all_keys(t)) {
            lemma_group_keys_len(t.last().0, t.last().1);
            lemma_wf_prefix(all_rules(gs.take(k)), all_keys(gs.take(k)), t.last().1, group_keys(t.last().0, t.last().1));
        }
        lemma_wf_prefix_groups(gs, k + 1);
    } else {
        assert(gs.take(k) =~= gs);
    }
}

/// A group gives one key per rule.
proof fn lemma_group_keys_len(module: &'static str, group: Seq<Rule>)
    ensures
        group_keys(module, group).len() == group.len(),
{
}

/// Equality of two keys, by the characters of their module and name.
pub fn key_eq(a: &RuleKey, b: &RuleKey) -> (r: bool)
    ensures
        r == (a@ == b@),
{
    str_eq(a.module, b.module) && str_eq(a.name, b.name)
}

/// When the first conflict of `group` lies at `k`, it is the first conflict of
/// every longer prefix too.
proof fn lemma_first_conflict_prefix(
    rules: Seq<Rule>,
    keys: Seq<RuleKey>,
    module: &'static str,
    group: Seq<Rule>,
    k: int,
)
    requires
        0 <= k < group.len(),
        first_conflict(rules, keys, module, group.take(k)) == k,
        id_in(rules + group.take(k), group[k].id)
            || key_in(keys + group_keys(module, group.take(k)), key_of(module, group[k])),
    ensures
        first_conflict(rules, keys, module, group) == k,
        conflict_error(rules, module, group, k) == (if id_in(rules + group.take(k), group[k].id) {
            RegistryError::DuplicateId(group[k].id)
        } else {
            RegistryError::DuplicateKey(key_of(module, group[k]))
        }),
    decreases group.len(),
{
    if group.len() == k + 1 {
        assert(group.drop_last() =~= group.take(k));
    } else {
        let g2 = group.drop_last();
        assert(g2.take(k) =~= group.take(k));
        lemma_first_conflict_prefix(rules, keys, module, g2, k);
    }
}

/// Without a conflict, appending a group keeps the registry well formed.
proof fn lemma_no_conflict_wf(rules: Seq<Rule>, keys: Seq<RuleKey>, module: &'static str, group: Seq<Rule>)
    requires
        registry_wf(rules, keys),
        first_conflict(rules, keys, module, group) == group.len(),
    ensures
        registry_wf(rules + group, keys + group_keys(module, group)),
    decreases group.len(),
{
    if group.len() > 0 {
        let prefix = group.drop_last();
        if first_conflict(rules, keys, module, prefix) < prefix.len() {
            assert(false);
        }
        lemma_no_conflict_wf(rules, keys, module, prefix);
        let r = group.last();
        let rs = rules + group;
        let ks = keys + group_keys(module, group);
        assert(rs =~= (rules + prefix).push(r));
        assert(group_keys(module, group) =~= group_keys(module, prefix).push(key_of(module, r)));
        assert(ks =~= (keys + group_keys(module, prefix)).push(key_of(module, r)));
        let rp = rules + prefix;
        let kp = keys + group_keys(module, prefix);
        assert forall|i: int, j: int| 0 <= i < j < rs.len() implies (#[trigger] rs[i]).id != (#[trigger] rs[j]).id by {
            if j == rs.len() - 1 {
                assert(rs[i] == rp[i]);
                if rs[i].id == rs[j].id {
                    assert(id_in(rp, r.id));
                }
            } else {
                assert(rs[i] == rp[i] && rs[j] == rp[j]);
            }
        }
        assert forall|i: int, j: int| 0 <= i < j < ks.len() implies (#[trigger] ks[i])@ != (#[trigger] ks[j])@ by {
            if j == ks.len() - 1 {
                assert(ks[i] == kp[i]);
                if ks[i]@ == ks[j]@ {
                    assert(key_in(kp, key_of(module, r)));
                }
            } else {
                assert(ks[i] == kp[i] && ks[j] == kp[j]);
            }
        }
        assert forall|i: int| 0 <= i < rs.len() implies (#[trigger] ks[i]).name == rs[i].name by {
            if i == rs.len() - 1 {
            } else {
                assert(ks[i] == kp[i] && rs[i] == rp[i]);
            }
        }
    }
}

} // verus!
