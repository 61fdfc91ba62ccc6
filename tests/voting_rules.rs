use grandpa_support::ancestry::{find_target, AncestryError};
use grandpa_support::chain::{same_hash, BlockHash, Header, HeaderBackend, HeaderStore};
use grandpa_support::diagnostic::{ApprovedAncestorQuery, DiagnosticRule, DIAGNOSTIC_GRANDPA_DELAY};
use grandpa_support::pause::PauseAfterBlockFor;
use grandpa_support::rule::{Restriction, VotingRule};

fn hash_of(n: u32) -> BlockHash {
    let mut h = [0u8; 32];
    h[..4].copy_from_slice(&n.to_le_bytes());
    h[31] = 0xab;
    h
}

fn header_at(n: u32) -> Header {
    Header {
        number: n,
        hash: hash_of(n),
        parent_hash: if n == 0 { [0u8; 32] } else { hash_of(n - 1) },
    }
}

/// A store holding blocks `#0..=#best` of one chain.
fn chain_up_to(best: u32) -> HeaderStore {
    let mut store = HeaderStore::new();
    for n in 0..=best {
        store.import(header_at(n));
    }
    store
}

fn get_header(store: &HeaderStore, n: u32) -> Header {
    store.header(&hash_of(n)).unwrap()
}

#[test]
fn grandpa_pause_voting_rule_works() {
    // the rule should filter all votes after block #20
    // is finalized until block #50 is imported.
    let voting_rule = PauseAfterBlockFor(20, 30);

    // add 10 blocks
    let client = chain_up_to(10);
    assert_eq!(get_header(&client, 10).number, 10);

    // we have not reached the pause block
    // therefore nothing should be restricted
    assert_eq!(
        voting_rule.restrict_vote(
            &client,
            &get_header(&client, 0),
            &get_header(&client, 10),
            &get_header(&client, 10)
        ),
        Ok(None),
    );

    // add 15 more blocks
    // best block: #25
    let client = chain_up_to(25);

    // we are targeting the pause block,
    // the vote should not be restricted
    assert_eq!(
        voting_rule.restrict_vote(
            &client,
            &get_header(&client, 10),
            &get_header(&client, 20),
            &get_header(&client, 20)
        ),
        Ok(None),
    );

    // we are past the pause block, votes should
    // be limited to the pause block.
    let pause_block = get_header(&client, 20);
    assert_eq!(
        voting_rule.restrict_vote(
            &client,
            &get_header(&client, 10),
            &get_header(&client, 21),
            &get_header(&client, 21)
        ),
        Ok(Some((pause_block.hash, pause_block.number))),
    );

    // we've finalized the pause block, so we'll keep
    // restricting our votes to it.
    assert_eq!(
        voting_rule.restrict_vote(
            &client,
            &pause_block, // #20
            &get_header(&client, 21),
            &get_header(&client, 21),
        ),
        Ok(Some((pause_block.hash, pause_block.number))),
    );

    // add 30 more blocks
    // best block: #55
    let client = chain_up_to(55);

    // we're at the last block of the pause, this block
    // should still be considered in the pause period
    assert_eq!(
        voting_rule.restrict_vote(
            &client,
            &pause_block, // #20
            &get_header(&client, 50),
            &get_header(&client, 50),
        ),
        Ok(Some((pause_block.hash, pause_block.number))),
    );

    // we're past the pause period, no votes should be filtered
    assert_eq!(
        voting_rule.restrict_vote(
            &client,
            &pause_block, // #20
            &get_header(&client, 51),
            &get_header(&client, 51),
        ),
        Ok(None),
    );
}

#[test]
fn find_target_returns_the_ancestor_at_the_height() {
    let store = chain_up_to(30);
    let head = header_at(30);
    assert_eq!(find_target(&store, 12, &head), Ok((hash_of(12), 12)));
    assert_eq!(find_target(&store, 30, &head), Ok((hash_of(30), 30)));
    assert_eq!(find_target(&store, 0, &head), Ok((hash_of(0), 0)));
}

#[test]
fn find_target_reports_a_missing_ancestor() {
    let mut store = HeaderStore::new();
    for n in 5..=10 {
        store.import(header_at(n));
    }
    assert_eq!(find_target(&store, 2, &header_at(10)), Err(AncestryError::MissingAncestor));
    assert_eq!(find_target(&store, 5, &header_at(10)), Ok((hash_of(5), 5)));
}

#[test]
fn find_target_reports_a_broken_chain() {
    // #10's parent link skips to #3
    let mut store = chain_up_to(9);
    let mut skipping = header_at(10);
    skipping.parent_hash = hash_of(3);
    store.import(skipping);
    assert_eq!(find_target(&store, 5, &skipping), Err(AncestryError::BrokenChain));

    // a parent that is not below its child
    let mut looping = HeaderStore::new();
    let mut h = header_at(7);
    h.parent_hash = h.hash;
    looping.import(h);
    assert_eq!(find_target(&looping, 2, &h), Err(AncestryError::BrokenChain));
}

#[test]
fn header_store_prefers_the_first_import() {
    let mut store = HeaderStore::new();
    let first = header_at(4);
    let mut second = header_at(9);
    second.hash = first.hash;
    store.import(first);
    store.import(second);
    assert_eq!(store.header(&first.hash), Some(first));
    assert_eq!(store.header(&hash_of(5)), None);
}

#[test]
fn same_hash_compares_every_byte() {
    let a = hash_of(7);
    let mut b = a;
    assert!(same_hash(&a, &b));
    b[31] = 0;
    assert!(!same_hash(&a, &b));
}

#[test]
fn pause_rule_with_base_above_pause_height_keeps_base() {
    let store = chain_up_to(40);
    let rule = PauseAfterBlockFor(20, 30);
    assert_eq!(
        rule.restrict_vote(&store, &header_at(25), &header_at(40), &header_at(40)),
        Ok(Some((hash_of(25), 25))),
    );
}

#[test]
fn pause_rule_does_not_overflow_on_large_parameters() {
    let store = chain_up_to(3);
    let rule = PauseAfterBlockFor(1, u32::MAX);
    assert_eq!(
        rule.restrict_vote(&store, &header_at(0), &header_at(3), &header_at(3)),
        Ok(Some((hash_of(1), 1))),
    );
}

#[test]
fn pause_rule_never_restricts_after_the_window() {
    let store = chain_up_to(60);
    let rule = PauseAfterBlockFor(20, 30);
    for base in [0u32, 10, 20, 30] {
        for current in base..=60 {
            let r = rule.restrict_vote(&store, &header_at(base), &header_at(60), &header_at(current));
            assert_eq!(r, Ok(None));
        }
    }
}

#[test]
fn pause_rule_targets_stay_between_base_and_pause_height() {
    let store = chain_up_to(50);
    let rule = PauseAfterBlockFor(20, 30);
    for base in 0u32..=20 {
        for current in base..=50 {
            if let Ok(Some((_, n))) =
                rule.restrict_vote(&store, &header_at(base), &header_at(50), &header_at(current))
            {
                assert!(base <= n && n <= 20);
            }
        }
    }
}

#[test]
fn diagnostic_target_number_formula() {
    let rule = DiagnosticRule::new();
    assert_eq!(DIAGNOSTIC_GRANDPA_DELAY, 50);
    // fifty behind the best block
    assert_eq!(rule.target_number(10, 100, 100), 50);
    // not above the proposed target
    assert_eq!(rule.target_number(10, 100, 40), 40);
    // not below the base
    assert_eq!(rule.target_number(30, 60, 60), 30);
    // best below the delay saturates to zero, then the base wins
    assert_eq!(rule.target_number(5, 20, 20), 5);
    assert_eq!(rule.target_number(0, 20, 20), 0);
}

#[test]
fn diagnostic_restrict_vote_walks_to_the_delayed_block() {
    let store = chain_up_to(120);
    let rule = DiagnosticRule::new();
    let vote = rule
        .restrict_vote(&store, &header_at(10), &header_at(120), &header_at(100))
        .unwrap();
    assert_eq!(vote.target, (hash_of(70), 70));
    assert_eq!(vote.query, ApprovedAncestorQuery { best_hash: hash_of(120), base_number: 10 });
}

#[test]
fn diagnostic_targets_stay_in_bounds() {
    let store = chain_up_to(90);
    let rule = DiagnosticRule::new();
    for base in (0u32..=90).step_by(7) {
        for current in base..=90 {
            let best = 90;
            let vote = rule
                .restrict_vote(&store, &header_at(base), &header_at(best), &header_at(current))
                .unwrap();
            let n = vote.target.1;
            assert!(base <= n && n <= current);
            if best - DIAGNOSTIC_GRANDPA_DELAY >= base {
                assert!(n <= best - DIAGNOSTIC_GRANDPA_DELAY);
            }
        }
    }
}

#[test]
fn diagnostic_lag_uses_reply_or_base() {
    let rule = DiagnosticRule::new();
    assert_eq!(rule.checking_lag(100, 40, Some((hash_of(93), 93))), 7);
    assert_eq!(rule.checking_lag(100, 40, None), 60);
    assert_eq!(rule.checking_lag(5, 0, Some((hash_of(9), 9))), -4);
}

#[test]
fn voting_rule_dispatches_to_the_chosen_rule() {
    let store = chain_up_to(80);
    let pause = VotingRule::Pause(PauseAfterBlockFor(20, 30));
    assert_eq!(
        pause.restrict_vote(&store, &header_at(10), &header_at(30), &header_at(30)),
        Ok(Restriction { target: Some((hash_of(20), 20)), query: None }),
    );
    let diagnostic = VotingRule::Diagnostic(DiagnosticRule::new());
    assert_eq!(
        diagnostic.restrict_vote(&store, &header_at(10), &header_at(80), &header_at(75)),
        Ok(Restriction {
            target: Some((hash_of(30), 30)),
            query: Some(ApprovedAncestorQuery { best_hash: hash_of(80), base_number: 10 }),
        }),
    );
}
