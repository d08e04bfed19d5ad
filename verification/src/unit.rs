//! The four deployable units and their build-time configuration: the
//! identifier each one declares and the diagnostic line each one emits.

use vstd::prelude::*;

verus! {

/// One of the four independent deployable units. Each declares its own
/// identifier and emits its own diagnostic line; none calls another.
#[derive(Clone, Copy, PartialEq, Eq, Structural, Debug)]
pub enum Unit {
    Escrow,
    Points,
    Quests,
    Registry,
}

/// The human-readable subsystem name of a unit, as it appears in the
/// unit's diagnostic line.
pub open spec fn spec_name(u: Unit) -> Seq<char> {
    match u {
        Unit::Escrow => "escrow"@,
        Unit::Points => "points"@,
        Unit::Quests => "quests"@,
        Unit::Registry => "registry"@,
    }
}

/// The fixed, address-like identifier a unit declares. These are
/// placeholder repeated-digit values, to be replaced before a real
/// deployment; what matters is that each unit has one and that the four
/// are pairwise distinct.
pub open spec fn spec_identifier(u: Unit) -> Seq<char> {
    match u {
        Unit::Escrow => "33333333333333333333333333333333"@,
        Unit::Points => "11111111111111111111111111111111"@,
        Unit::Quests => "22222222222222222222222222222222"@,
        Unit::Registry => "44444444444444444444444444444444"@,
    }
}

/// The one diagnostic line a unit emits when invoked: the project tag,
/// the subsystem name, and the word "stub".
pub open spec fn spec_log_line(u: Unit) -> Seq<char> {
    "FARTNODE "@ + spec_name(u) + " program stub"@
}

/// The subsystem name of a unit.
pub fn name(u: Unit) -> (r: &'static str)
    ensures
        r@ == spec_name(u),
{
    match u {
        Unit::Escrow => "escrow",
        Unit::Points => "points",
        Unit::Quests => "quests",
        Unit::Registry => "registry",
    }
}

/// The identifier a unit declares.
pub fn identifier(u: Unit) -> (r: &'static str)
    ensures
        r@ == spec_identifier(u),
{
    match u {
        Unit::Escrow => "33333333333333333333333333333333",
        Unit::Points => "11111111111111111111111111111111",
        Unit::Quests => "22222222222222222222222222222222",
        Unit::Registry => "44444444444444444444444444444444",
    }
}

/// The diagnostic line a unit emits when invoked.
pub fn log_line(u: Unit) -> (r: &'static str)
    ensures
        r@ == spec_log_line(u),
{
    proof {
        reveal_strlit("FARTNODE ");
        reveal_strlit(" program stub");
        reveal_strlit("escrow");
        reveal_strlit("points");
        reveal_strlit("quests");
        reveal_strlit("registry");
        reveal_strlit("FARTNODE escrow program stub");
        reveal_strlit("FARTNODE points program stub");
        reveal_strlit("FARTNODE quests program stub");
        reveal_strlit("FARTNODE registry program stub");
    }
    match u {
        Unit::Escrow => {
            proof {
                assert("FARTNODE escrow program stub"@ =~= spec_log_line(Unit::Escrow));
            }
            "FARTNODE escrow program stub"
        },
        Unit::Points => {
            proof {
                assert("FARTNODE points program stub"@ =~= spec_log_line(Unit::Points));
            }
            "FARTNODE points program stub"
        },
        Unit::Quests => {
            proof {
                assert("FARTNODE quests program stub"@ =~= spec_log_line(Unit::Quests));
            }
            "FARTNODE quests program stub"
        },
        Unit::Registry => {
            proof {
                assert("FARTNODE registry program stub"@ =~= spec_log_line(Unit::Registry));
            }
            "FARTNODE registry program stub"
        },
    }
}

/// Each unit's declared identifier is distinct from the other three
/// units' identifiers.
pub proof fn lemma_identifiers_distinct(u1: Unit, u2: Unit)
    requires
        u1 != u2,
    ensures
        spec_identifier(u1) != spec_identifier(u2),
{
    reveal_strlit("33333333333333333333333333333333");
    reveal_strlit("11111111111111111111111111111111");
    reveal_strlit("22222222222222222222222222222222");
    reveal_strlit("44444444444444444444444444444444");
    assert(spec_identifier(Unit::Escrow)[0] == '3');
    assert(spec_identifier(Unit::Points)[0] == '1');
    assert(spec_identifier(Unit::Quests)[0] == '2');
    assert(spec_identifier(Unit::Registry)[0] == '4');
}

/// Each unit's diagnostic line carries that unit's subsystem name: the
/// name stands in the line right after the project tag.
pub proof fn lemma_log_line_names_unit(u: Unit)
    ensures
        spec_log_line(u).len() == spec_name(u).len() + 22,
        spec_log_line(u).subrange(9, 9 + spec_name(u).len() as int) == spec_name(u),
{
    reveal_strlit("FARTNODE ");
    reveal_strlit(" program stub");
    assert(spec_log_line(u).subrange(9, 9 + spec_name(u).len() as int) =~= spec_name(u));
}

} // verus!
