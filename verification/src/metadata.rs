//! Reading back what a resource is: its divisibility or id type, its total
//! supply and the metadata entries asked for, from what the resource manager
//! reported.
use crate::decimal::Decimal;
use crate::vault::StableCoinVault;
use vstd::prelude::*;

verus! {

/// The kinds of local id that a non-fungible resource can use.
#[derive(Clone, Copy, Debug, PartialEq, Eq, Structural)]
pub enum IdType {
    String,
    Integer,
    Bytes,
    Ruid,
}

/// What the resource manager reports as the resource's type.
#[derive(Clone, Copy, Debug, PartialEq, Eq, Structural)]
pub enum ResourceKind {
    Fungible { divisibility: u8 },
    NonFungible { id_type: IdType },
}

/// What reading one metadata entry as a string gave.
#[derive(Clone, Debug)]
pub enum MetadataLookup {
    /// The entry holds this string.
    Found(String),
    /// There is no entry under the key.
    Absent,
    /// The entry holds a value that is not a string.
    Unconvertible,
}

/// The text reported for one metadata entry.
pub open spec fn lookup_text(lookup: MetadataLookup) -> Seq<char> {
    match lookup {
        MetadataLookup::Found(s) => s@,
        MetadataLookup::Absent => "err"@,
        MetadataLookup::Unconvertible => "MetadataConversioniError"@,
    }
}

impl StableCoinVault {
    /// The resource's divisibility (255 for a non-fungible one), its id type
    /// (`Integer` for a fungible one), its total supply (zero where it is not
    /// tracked) and the text of each metadata entry asked for, in order: the
    /// entry's string, `"err"` where it is absent, and
    /// `"MetadataConversioniError"` where it is not a string.
    pub fn get_token_metadata(
        resource_type: ResourceKind,
        total_supply: Option<Decimal>,
        lookups: Vec<MetadataLookup>,
    ) -> (r: (u8, IdType, Decimal, Vec<String>))
        ensures
            r.0 == (match resource_type {
                ResourceKind::Fungible { divisibility } => divisibility,
                ResourceKind::NonFungible { .. } => 255u8,
            }),
            r.1 == (match resource_type {
                ResourceKind::Fungible { .. } => IdType::Integer,
                ResourceKind::NonFungible { id_type } => id_type,
            }),
            r.2 == (match total_supply {
                Some(s) => s,
                None => Decimal { lo: 0, mid: 0, hi: 0 },
            }),
            r.3@.len() == lookups@.len(),
            forall|i: int| 0 <= i < lookups@.len() ==> (#[trigger] r.3@[i])@ == lookup_text(lookups@[i]),
    {
        let mut divisibility: u8 = 255;
        let mut non_fungible_id_type = IdType::Integer;
        match resource_type {
            ResourceKind::Fungible { divisibility: div } => {
                divisibility = div;
            },
            ResourceKind::NonFungible { id_type } => {
                non_fungible_id_type = id_type;
            },
        }
        let supply = match total_supply {
            Some(s) => s,
            None => Decimal::zero(),
        };
        let mut values: Vec<String> = Vec::new();
        let mut i: usize = 0;
        while i < lookups.len()
            invariant
                i <= lookups@.len(),
                values@.len() == i,
                forall|j: int| 0 <= j < i ==> (#[trigger] values@[j])@ == lookup_text(lookups@[j]),
            decreases lookups@.len() - i,
        {
            let value = match &lookups[i] {
                MetadataLookup::Found(s) => s.clone(),
                MetadataLookup::Absent => "err".to_owned(),
                MetadataLookup::Unconvertible => "MetadataConversioniError".to_owned(),
            };
            values.push(value);
            i = i + 1;
        }
        (divisibility, non_fungible_id_type, supply, values)
    }
}

} // verus!
