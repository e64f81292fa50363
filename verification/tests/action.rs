use mm_rules::action::{compute_digest, ActionError, ActionVocabulary};
use mm_rules::geometry::geometry_rules;
use mm_rules::number_theory::number_theory_rules;
use mm_rules::rule::{try_standard_rules, RegistryError, RuleId, RuleSet};

/// The standard registry.
fn standard_rules() -> RuleSet {
    try_standard_rules().unwrap()
}

/// The vocabulary of the standard registry.
fn standard() -> ActionVocabulary {
    ActionVocabulary::standard().unwrap()
}

/// A registry of rule groups whose identifiers and keys do not collide.
fn sample_rules() -> RuleSet {
    let mut rules = RuleSet::new();
    rules.register("number_theory", number_theory_rules()).unwrap();
    rules.register("geometry", geometry_rules()).unwrap();
    rules
}

#[test]
fn vocabulary_covers_every_rule_exactly_once() {
    let rules = standard_rules();
    let vocab = ActionVocabulary::from_rule_set(&rules);

    assert_eq!(vocab.len(), rules.len());

    for (index, rule) in rules.all().iter().enumerate() {
        assert_eq!(vocab.index_of_rule(rule.id).unwrap(), index);
        assert_eq!(vocab.rule_id_at(index).unwrap(), rule.id);
    }
}

#[test]
fn indices_round_trip_through_keys() {
    let rules = standard_rules();
    let vocab = ActionVocabulary::from_rule_set(&rules);

    for entry in vocab.entries() {
        let key = vocab.key_at(entry.index).unwrap();
        assert_eq!(vocab.index_of_key(&key).unwrap(), entry.index);
        assert_eq!(rules.get_by_key(&key).unwrap().id, entry.rule_id);
    }
}

#[test]
fn indices_are_dense_and_much_smaller_than_rule_ids() {
    let vocab = standard();
    let max_index = vocab.entries().iter().map(|e| e.index).max().unwrap();
    let max_rule_id = vocab.entries().iter().map(|e| e.rule_id.0).max().unwrap();

    assert_eq!(max_index, vocab.len() - 1);
    assert!(
        max_rule_id as usize > max_index,
        "rule ids are sparse; this test guards the reason the vocabulary exists"
    );
}

#[test]
fn unknown_rule_is_an_error_not_a_default() {
    let vocab = standard();
    let err = vocab.index_of_rule(RuleId(u32::MAX)).unwrap_err();
    assert_eq!(err, ActionError::UnknownRule(RuleId(u32::MAX)));

    let priors = vec![0.0f32; vocab.len()];
    assert!(vocab.prior_for_rule(&priors, RuleId(u32::MAX)).is_err());
}

#[test]
fn count_mismatch_is_rejected() {
    let vocab = standard();
    let short = vec![0.0f32; 25];
    let err = vocab.prior_for_rule(&short, RuleId(1)).unwrap_err();
    assert_eq!(
        err,
        ActionError::CountMismatch {
            found: 25,
            expected: vocab.len()
        }
    );
}

#[test]
fn digest_is_stable_and_content_sensitive() {
    let a = standard();
    let b = standard();
    assert_eq!(a.digest(), b.digest());

    let truncated = &a.entries()[..a.len() - 1];
    let changed = compute_digest(truncated);
    assert_ne!(changed, a.digest());
    assert!(a.check_digest(changed).is_err());
}

#[test]
fn prior_is_read_at_the_dense_index() {
    let vocab = ActionVocabulary::from_rule_set(&sample_rules());
    let priors: Vec<f32> = (0..vocab.len()).map(|i| i as f32).collect();
    let id = vocab.rule_id_at(3).unwrap();
    assert_eq!(vocab.prior_for_rule(&priors, id).unwrap(), 3.0);
}

#[test]
fn lookups_by_name_and_index() {
    let vocab = ActionVocabulary::from_rule_set(&sample_rules());
    let index = vocab.index_of("number_theory", "divides_self").unwrap();
    let entry = vocab.entry_at(index).unwrap();
    assert_eq!(entry.key.name, "divides_self");
    assert_eq!(entry.rule_id, RuleId(101));
    assert_eq!(entry.index, 1);

    let err = vocab.index_of("algebra", "const_fold").unwrap_err();
    assert_eq!(
        err,
        ActionError::UnknownName { module: "algebra".to_string(), name: "const_fold".to_string() }
    );
    let len = vocab.len();
    assert_eq!(
        vocab.entry_at(len).unwrap_err(),
        ActionError::IndexOutOfRange { index: len, len }
    );
    assert!(vocab.check_len(len).is_ok());
    assert!(vocab.check_digest(vocab.digest()).is_ok());
    assert!(!vocab.is_empty());
}

#[test]
fn digest_of_empty_vocabulary_is_fnv_over_version_and_length() {
    // FNV-1a over [1,0,0,0] followed by eight zero bytes.
    let mut h: u64 = 0xcbf2_9ce4_8422_2325;
    for b in [1u8, 0, 0, 0, 0, 0, 0, 0, 0, 0, 0, 0] {
        h ^= b as u64;
        h = h.wrapping_mul(0x0000_0100_0000_01b3);
    }
    assert_eq!(compute_digest(&[]), h);
    let empty = ActionVocabulary::from_rule_set(&RuleSet::new());
    assert_eq!(empty.digest(), h);
    assert!(empty.is_empty());
}

#[test]
fn registry_refuses_duplicates() {
    let mut rules = RuleSet::new();
    rules.register("number_theory", number_theory_rules()).unwrap();
    let err = rules.register("number_theory", number_theory_rules()).unwrap_err();
    assert_eq!(err, RegistryError::DuplicateId(RuleId(100)));
    assert_eq!(rules.len(), number_theory_rules().len());
}

#[test]
fn error_messages_name_the_failing_lookup() {
    assert_eq!(
        ActionError::UnknownRule(RuleId(7)).message(),
        "rule 7 is not in the action vocabulary"
    );
    let key = mm_rules::rule::RuleKey { module: "geometry", name: "pythagorean" };
    assert_eq!(
        ActionError::UnknownKey(key).message(),
        "rule geometry::pythagorean is not in the action vocabulary"
    );
    assert_eq!(
        ActionError::UnknownName { module: "algebra".to_string(), name: "foo".to_string() }.message(),
        "rule algebra::foo is not in the action vocabulary"
    );
    assert_eq!(
        ActionError::IndexOutOfRange { index: 12, len: 3 }.message(),
        "action index 12 out of range (vocabulary has 3)"
    );
    assert_eq!(
        ActionError::CountMismatch { found: 0, expected: 105 }.message(),
        "policy vector has 0 entries but the action vocabulary has 105"
    );
    assert_eq!(
        ActionError::DigestMismatch { found: 0xff, expected: 0xdead_beef_0123_4567 }.message(),
        "model was built for action vocabulary 0x00000000000000ff, current vocabulary is 0xdeadbeef01234567"
    );
}

#[test]
fn every_registered_rule_is_found_by_its_id_and_key() {
    let rules = sample_rules();
    for (rule, key) in rules.all().iter().zip(rules.keys()) {
        assert_eq!(rules.get(rule.id).unwrap().name, rule.name);
        assert_eq!(rules.get_by_key(key).unwrap().id, rule.id);
    }
    // Same keys, same digest.
    let again = sample_rules();
    assert_eq!(
        ActionVocabulary::from_rule_set(&rules).digest(),
        ActionVocabulary::from_rule_set(&again).digest()
    );
}

#[test]
fn standard_registry_holds_every_group() {
    let rules = standard_rules();
    assert_eq!(rules.len(), 389);
    let vocab = standard();
    assert_eq!(vocab.len(), rules.len());
    assert_eq!(vocab.index_of("calculus", "power_rule").unwrap(), 0);
}
