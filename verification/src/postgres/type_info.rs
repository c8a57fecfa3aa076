//! Type descriptors for the wire-protocol backend: a numeric object
//! identifier paired with a cached type name.

use vstd::prelude::*;

verus! {

/// Mathematical model of a [`PgTypeInfo`].
#[verifier::ext_equal]
pub struct PgTypeInfoModel {
    pub id: Option<u32>,
    pub name: Seq<char>,
}

/// Type information for one wire-protocol backend type: the catalog
/// object identifier (when known) and the type's name.
#[derive(Debug)]
pub struct PgTypeInfo {
    pub id: Option<u32>,
    pub name: String,
}

impl View for PgTypeInfo {
    type V = PgTypeInfoModel;

    open spec fn view(&self) -> PgTypeInfoModel {
        PgTypeInfoModel { id: self.id, name: self.name@ }
    }
}

impl Clone for PgTypeInfo {
    fn clone(&self) -> (r: Self)
        ensures
            r@ == self@,
    {
        PgTypeInfo { id: self.id, name: self.name.clone() }
    }
}

impl PartialEq for PgTypeInfo {
    fn eq(&self, other: &Self) -> (r: bool) {
        let ids_equal = match (self.id, other.id) {
            (Some(a), Some(b)) => a == b,
            (None, None) => true,
            _ => false,
        };
        ids_equal && self.name == other.name
    }
}

impl vstd::std_specs::cmp::PartialEqSpecImpl for PgTypeInfo {
    open spec fn obeys_eq_spec() -> bool {
        true
    }

    open spec fn eq_spec(&self, other: &PgTypeInfo) -> bool {
        self.id == other.id && self.name@ == other.name@
    }
}

/// The name of the built-in type with catalog identifier `oid`, if the
/// identifier belongs to the static table of built-ins.
pub open spec fn builtin_name(oid: u32) -> Option<Seq<char>> {
    if oid == 16 {
        Some("BOOL"@)
    } else if oid == 17 {
        Some("BYTEA"@)
    } else if oid == 18 {
        Some("CHAR"@)
    } else if oid == 20 {
        Some("INT8"@)
    } else if oid == 21 {
        Some("INT2"@)
    } else if oid == 23 {
        Some("INT4"@)
    } else if oid == 25 {
        Some("TEXT"@)
    } else if oid == 26 {
        Some("OID"@)
    } else if oid == 700 {
        Some("FLOAT4"@)
    } else if oid == 701 {
        Some("FLOAT8"@)
    } else if oid == 1043 {
        Some("VARCHAR"@)
    } else if oid == 1000 {
        Some("BOOL[]"@)
    } else if oid == 1005 {
        Some("INT2[]"@)
    } else if oid == 1007 {
        Some("INT4[]"@)
    } else if oid == 1016 {
        Some("INT8[]"@)
    } else {
        None
    }
}

impl PgTypeInfo {
    /// Structural equality of descriptors, at the model level.
    pub fn same_as(&self, other: &PgTypeInfo) -> (r: bool)
        ensures
            r == (self@ == other@),
    {
        let ids_equal = match (self.id, other.id) {
            (Some(a), Some(b)) => a == b,
            (None, None) => true,
            _ => false,
        };
        let r = ids_equal && self.name == other.name;
        proof {
            if r {
                assert(self@ =~= other@);
            }
        }
        r
    }

    /// The descriptor for a built-in type, from its statically known
    /// identifier and name.
    pub fn with_oid_and_name(oid: u32, name: &str) -> (r: Self)
        ensures
            r@ == (PgTypeInfoModel { id: Some(oid), name: name@ }),
    {
        PgTypeInfo { id: Some(oid), name: name.to_owned() }
    }

    /// Tier-one type resolution: the static table of built-in
    /// identifiers, covering the overwhelming majority of queries.
    pub fn try_from_id(oid: u32) -> (r: Option<Self>)
        ensures
            match builtin_name(oid) {
                Some(n) => r matches Some(t) && t@.id == Some(oid) && t@.name == n,
                None => r is None,
            },
    {
        match oid {
            16 => Some(Self::with_oid_and_name(oid, "BOOL")),
            17 => Some(Self::with_oid_and_name(oid, "BYTEA")),
            18 => Some(Self::with_oid_and_name(oid, "CHAR")),
            20 => Some(Self::with_oid_and_name(oid, "INT8")),
            21 => Some(Self::with_oid_and_name(oid, "INT2")),
            23 => Some(Self::with_oid_and_name(oid, "INT4")),
            25 => Some(Self::with_oid_and_name(oid, "TEXT")),
            26 => Some(Self::with_oid_and_name(oid, "OID")),
            700 => Some(Self::with_oid_and_name(oid, "FLOAT4")),
            701 => Some(Self::with_oid_and_name(oid, "FLOAT8")),
            1043 => Some(Self::with_oid_and_name(oid, "VARCHAR")),
            1000 => Some(Self::with_oid_and_name(oid, "BOOL[]")),
            1005 => Some(Self::with_oid_and_name(oid, "INT2[]")),
            1007 => Some(Self::with_oid_and_name(oid, "INT4[]")),
            1016 => Some(Self::with_oid_and_name(oid, "INT8[]")),
            _ => None,
        }
    }
}

} // verus!
