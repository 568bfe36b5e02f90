//! Per-operation consistency policy: the level each supported store operation
//! is declared with, and the mapping from configured level strings to levels.

use vstd::prelude::*;

verus! {

/// A consistency/durability level requested from the clustered backing store.
#[derive(Clone, Copy, PartialEq, Eq, Structural, Debug)]
pub enum Consistency {
    One,
    Two,
    Quorum,
}

/// The consistency level each of the two supported operations is bound to.
#[derive(Clone, Copy, PartialEq, Eq, Structural, Debug)]
pub struct OpsConsistency {
    pub get: Consistency,
    pub set: Consistency,
}

/// Startup configuration of the dispatch layer: immutable once built.
#[derive(Clone, Copy, PartialEq, Eq, Structural, Debug)]
pub struct SciredConfig {
    pub ops_consistency: OpsConsistency,
}

/// ASCII lowercasing of a single character; anything but `'A'..='Z'` is
/// left unchanged.
pub open spec fn lower_char(c: char) -> char {
    if 'A' <= c && c <= 'Z' {
        ((c as u8) + 0x20) as char
    } else {
        c
    }
}

/// Character-wise ASCII lowercasing of a string.
pub open spec fn lower(s: Seq<char>) -> Seq<char> {
    s.map(|i: int, c: char| lower_char(c))
}

pub open spec fn one_word() -> Seq<char> {
    seq!['o', 'n', 'e']
}

pub open spec fn two_word() -> Seq<char> {
    seq!['t', 'w', 'o']
}

/// The level a configured string denotes: `"one"` and `"two"` (in any case)
/// name their levels; everything else, `"quorum"` included, means `Quorum`,
/// so an unrecognized string defaults to `Quorum`.
pub open spec fn spec_consistency_of(s: Seq<char>) -> Consistency {
    if lower(s) == one_word() {
        Consistency::One
    } else if lower(s) == two_word() {
        Consistency::Two
    } else {
        Consistency::Quorum
    }
}

fn lower_char_exec(c: char) -> (r: char)
    ensures
        r == lower_char(c),
{
    if 'A' <= c && c <= 'Z' {
        ((c as u8) + 0x20) as char
    } else {
        c
    }
}

/// Maps a configured consistency-level string to a level, case-insensitively,
/// defaulting to `Quorum` on unrecognized input.
pub fn str_to_consistency(val: &str) -> (c: Consistency)
    ensures
        c == spec_consistency_of(val@),
{
    let n: usize = val.unicode_len();
    if n != 3 {
        assert(lower(val@).len() != 3);
        return Consistency::Quorum;
    }
    let c0 = lower_char_exec(val.get_char(0));
    let c1 = lower_char_exec(val.get_char(1));
    let c2 = lower_char_exec(val.get_char(2));
    if c0 == 'o' && c1 == 'n' && c2 == 'e' {
        proof {
            assert(lower(val@) =~= one_word());
        }
        Consistency::One
    } else if c0 == 't' && c1 == 'w' && c2 == 'o' {
        proof {
            assert(lower(val@) =~= two_word());
        }
        Consistency::Two
    } else {
        Consistency::Quorum
    }
}

/// Builds the startup configuration from the two configured level strings.
pub fn build_scired_config(get_level: &str, set_level: &str) -> (cfg: SciredConfig)
    ensures
        cfg.ops_consistency.get == spec_consistency_of(get_level@),
        cfg.ops_consistency.set == spec_consistency_of(set_level@),
{
    SciredConfig {
        ops_consistency: OpsConsistency {
            get: str_to_consistency(get_level),
            set: str_to_consistency(set_level),
        },
    }
}

} // verus!
