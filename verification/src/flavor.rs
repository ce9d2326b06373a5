//! The closed set of flavors (release channels) of the managed application.
//!
//! Each flavor carries a stable serialization identifier, a display label,
//! and the fixed folder-name token that builds its on-disk installation path.
//! The set is compiled in: flavors are never created or removed at runtime,
//! and identifiers stay stable forever so persisted data keeps its meaning.

use vstd::prelude::*;
use crate::strutil::str_eq;

verus! {

#[derive(Clone, Copy, PartialEq, Eq, Structural, Debug, Hash)]
pub enum Flavor {
    Retail,
    RetailPtr,
    RetailBeta,
    ClassicEra,
    ClassicTbc,
}

/// The stable on-disk identifier of a flavor.
pub open spec fn identifier_spec(f: Flavor) -> Seq<char> {
    match f {
        Flavor::Retail => "retail"@,
        Flavor::RetailPtr => "retail_ptr"@,
        Flavor::RetailBeta => "retail_beta"@,
        Flavor::ClassicEra => "classic_era"@,
        Flavor::ClassicTbc => "classic_tbc"@,
    }
}

/// The folder-name token of a flavor under the application's base directory.
pub open spec fn folder_name_spec(f: Flavor) -> Seq<char> {
    match f {
        Flavor::Retail => "_retail_"@,
        Flavor::RetailPtr => "_ptr_"@,
        Flavor::RetailBeta => "_beta_"@,
        Flavor::ClassicEra => "_classic_era_"@,
        Flavor::ClassicTbc => "_classic_"@,
    }
}

/// The display label of a flavor.
pub open spec fn flavor_label_spec(f: Flavor) -> Seq<char> {
    match f {
        Flavor::Retail => "Retail"@,
        Flavor::RetailPtr => "Retail PTR"@,
        Flavor::RetailBeta => "Retail Beta"@,
        Flavor::ClassicEra => "Classic Era"@,
        Flavor::ClassicTbc => "Classic"@,
    }
}

/// The flavor whose identifier is `s`, if any.
pub open spec fn flavor_of_identifier_spec(s: Seq<char>) -> Option<Flavor> {
    if s == identifier_spec(Flavor::Retail) {
        Some(Flavor::Retail)
    } else if s == identifier_spec(Flavor::RetailPtr) {
        Some(Flavor::RetailPtr)
    } else if s == identifier_spec(Flavor::RetailBeta) {
        Some(Flavor::RetailBeta)
    } else if s == identifier_spec(Flavor::ClassicEra) {
        Some(Flavor::ClassicEra)
    } else if s == identifier_spec(Flavor::ClassicTbc) {
        Some(Flavor::ClassicTbc)
    } else {
        None
    }
}

impl Flavor {
    /// The exhaustive ordered list of all flavors.
    pub fn all() -> (r: Vec<Flavor>)
        ensures
            r@ == seq![
                Flavor::Retail,
                Flavor::RetailPtr,
                Flavor::RetailBeta,
                Flavor::ClassicEra,
                Flavor::ClassicTbc,
            ],
    {
        let mut v: Vec<Flavor> = Vec::new();
        v.push(Flavor::Retail);
        v.push(Flavor::RetailPtr);
        v.push(Flavor::RetailBeta);
        v.push(Flavor::ClassicEra);
        v.push(Flavor::ClassicTbc);
        proof {
            assert(v@ =~= seq![
                Flavor::Retail,
                Flavor::RetailPtr,
                Flavor::RetailBeta,
                Flavor::ClassicEra,
                Flavor::ClassicTbc,
            ]);
        }
        v
    }

    /// The stable serialization identifier, never the display label.
    pub fn identifier(self) -> (r: &'static str)
        ensures
            r@ == identifier_spec(self),
    {
        match self {
            Flavor::Retail => "retail",
            Flavor::RetailPtr => "retail_ptr",
            Flavor::RetailBeta => "retail_beta",
            Flavor::ClassicEra => "classic_era",
            Flavor::ClassicTbc => "classic_tbc",
        }
    }

    /// The folder-name token used to build the flavor's installation path.
    pub fn folder_name(self) -> (r: &'static str)
        ensures
            r@ == folder_name_spec(self),
    {
        match self {
            Flavor::Retail => "_retail_",
            Flavor::RetailPtr => "_ptr_",
            Flavor::RetailBeta => "_beta_",
            Flavor::ClassicEra => "_classic_era_",
            Flavor::ClassicTbc => "_classic_",
        }
    }

    /// The human-readable label shown in the interface.
    pub fn label(self) -> (r: &'static str)
        ensures
            r@ == flavor_label_spec(self),
    {
        match self {
            Flavor::Retail => "Retail",
            Flavor::RetailPtr => "Retail PTR",
            Flavor::RetailBeta => "Retail Beta",
            Flavor::ClassicEra => "Classic Era",
            Flavor::ClassicTbc => "Classic",
        }
    }

    /// Parses a stable identifier back into its flavor.
    pub fn from_identifier(s: &str) -> (r: Option<Flavor>)
        ensures
            r == flavor_of_identifier_spec(s@),
    {
        if str_eq(s, "retail") {
            Some(Flavor::Retail)
        } else if str_eq(s, "retail_ptr") {
            Some(Flavor::RetailPtr)
        } else if str_eq(s, "retail_beta") {
            Some(Flavor::RetailBeta)
        } else if str_eq(s, "classic_era") {
            Some(Flavor::ClassicEra)
        } else if str_eq(s, "classic_tbc") {
            Some(Flavor::ClassicTbc)
        } else {
            None
        }
    }
}

/// Every flavor's identifier parses back to that same flavor: the identifier
/// mapping is total and one-to-one over the closed set.
pub proof fn lemma_flavor_identifier_round_trip(f: Flavor)
    ensures
        flavor_of_identifier_spec(identifier_spec(f)) == Some(f),
{
    reveal_strlit("retail");
    reveal_strlit("retail_ptr");
    reveal_strlit("retail_beta");
    reveal_strlit("classic_era");
    reveal_strlit("classic_tbc");
    assert("retail"@.len() == 6);
    assert("retail_ptr"@.len() == 10);
    assert("retail_beta"@.len() == 11);
    assert("classic_era"@.len() == 11);
    assert("classic_tbc"@.len() == 11);
    assert("retail_beta"@[0] == 'r');
    assert("classic_era"@[0] == 'c');
    assert("classic_tbc"@[0] == 'c');
    assert("classic_era"@[8] == 'e');
    assert("classic_tbc"@[8] == 't');
}

/// Distinct flavors never share an identifier.
pub proof fn lemma_flavor_identifier_injective(a: Flavor, b: Flavor)
    requires
        identifier_spec(a) == identifier_spec(b),
    ensures
        a == b,
{
    lemma_flavor_identifier_round_trip(a);
    lemma_flavor_identifier_round_trip(b);
}

} // verus!
