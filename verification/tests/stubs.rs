use fartnode::escrow;
use fartnode::invocation::Context;
use fartnode::log::LogBuffer;
use fartnode::points;
use fartnode::quests;
use fartnode::registry;
use fartnode::runtime::invoke;
use fartnode::runtime::invoke_n;
use fartnode::unit::Unit;
use fartnode::unit::identifier;
use fartnode::unit::log_line;
use fartnode::unit::name;

#[test]
fn escrow_initialize_succeeds_and_logs() {
    let mut log = LogBuffer::new();
    let r = escrow::initialize(Context::new(escrow::Initialize {}), &mut log);
    assert!(r.is_ok());
    assert_eq!(log.len(), 1);
    assert_eq!(log.line(0).as_str(), "FARTNODE escrow program stub");
    assert!(log.line(0).contains("escrow"));
    assert!(log.line(0).contains("stub"));
}

#[test]
fn points_initialize_succeeds_and_logs() {
    let mut log = LogBuffer::new();
    let r = points::initialize(Context::new(points::Initialize {}), &mut log);
    assert!(r.is_ok());
    assert_eq!(log.len(), 1);
    assert_eq!(log.line(0).as_str(), "FARTNODE points program stub");
    assert!(log.line(0).contains("points"));
    assert!(log.line(0).contains("stub"));
}

#[test]
fn quests_initialize_succeeds_and_logs() {
    let mut log = LogBuffer::new();
    let r = quests::initialize(Context::new(quests::Initialize {}), &mut log);
    assert!(r.is_ok());
    assert_eq!(log.len(), 1);
    assert_eq!(log.line(0).as_str(), "FARTNODE quests program stub");
    assert!(log.line(0).contains("quests"));
    assert!(log.line(0).contains("stub"));
}

#[test]
fn registry_initialize_succeeds_and_logs() {
    let mut log = LogBuffer::new();
    let r = registry::initialize(Context::new(registry::Initialize {}), &mut log);
    assert!(r.is_ok());
    assert_eq!(log.len(), 1);
    assert_eq!(log.line(0).as_str(), "FARTNODE registry program stub");
    assert!(log.line(0).contains("registry"));
    assert!(log.line(0).contains("stub"));
}

#[test]
fn log_buffer_starts_empty() {
    let log = LogBuffer::new();
    assert_eq!(log.len(), 0);
}

#[test]
fn identifier_exact_values() {
    assert_eq!(identifier(Unit::Escrow), "33333333333333333333333333333333");
    assert_eq!(identifier(Unit::Points), "11111111111111111111111111111111");
    assert_eq!(identifier(Unit::Quests), "22222222222222222222222222222222");
    assert_eq!(identifier(Unit::Registry), "44444444444444444444444444444444");
}

#[test]
fn identifiers_are_distinct() {
    let units = [Unit::Escrow, Unit::Points, Unit::Quests, Unit::Registry];
    for i in 0..units.len() {
        assert!(!identifier(units[i]).is_empty());
        for j in 0..units.len() {
            if i != j {
                assert_ne!(identifier(units[i]), identifier(units[j]));
            }
        }
    }
}

#[test]
fn log_line_exact_values() {
    assert_eq!(log_line(Unit::Escrow), "FARTNODE escrow program stub");
    assert_eq!(log_line(Unit::Points), "FARTNODE points program stub");
    assert_eq!(log_line(Unit::Quests), "FARTNODE quests program stub");
    assert_eq!(log_line(Unit::Registry), "FARTNODE registry program stub");
}

#[test]
fn log_line_carries_unit_name() {
    let units = [Unit::Escrow, Unit::Points, Unit::Quests, Unit::Registry];
    for u in units {
        assert!(log_line(u).contains(name(u)));
        assert!(log_line(u).contains("stub"));
    }
}

#[test]
fn repeated_invocation_appends_independently() {
    let mut log = LogBuffer::new();
    for _ in 0..3 {
        let r = escrow::initialize(Context::new(escrow::Initialize {}), &mut log);
        assert!(r.is_ok());
    }
    assert_eq!(log.len(), 3);
    for i in 0..3 {
        assert_eq!(log.line(i).as_str(), "FARTNODE escrow program stub");
    }
    let r = points::initialize(Context::new(points::Initialize {}), &mut log);
    assert!(r.is_ok());
    assert_eq!(log.len(), 4);
    for i in 0..3 {
        assert_eq!(log.line(i).as_str(), "FARTNODE escrow program stub");
    }
    assert_eq!(log.line(3).as_str(), "FARTNODE points program stub");
}

#[test]
fn invoke_routes_to_each_unit() {
    let mut log = LogBuffer::new();
    let units = [Unit::Escrow, Unit::Points, Unit::Quests, Unit::Registry];
    for u in units {
        assert!(invoke(u, &mut log).is_ok());
    }
    assert_eq!(log.len(), 4);
    for (i, u) in units.iter().enumerate() {
        assert_eq!(log.line(i).as_str(), log_line(*u));
    }
}

#[test]
fn invoke_n_counts_successes_and_keeps_prior_lines() {
    let mut log = LogBuffer::new();
    assert!(invoke(Unit::Registry, &mut log).is_ok());
    let successes = invoke_n(Unit::Quests, 5, &mut log);
    assert_eq!(successes, 5);
    assert_eq!(log.len(), 6);
    assert_eq!(log.line(0).as_str(), "FARTNODE registry program stub");
    for i in 1..6 {
        assert_eq!(log.line(i).as_str(), "FARTNODE quests program stub");
    }
}

#[test]
fn invoke_n_zero_changes_nothing() {
    let mut log = LogBuffer::new();
    let successes = invoke_n(Unit::Escrow, 0, &mut log);
    assert_eq!(successes, 0);
    assert_eq!(log.len(), 0);
}
