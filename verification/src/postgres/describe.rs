//! Runtime type-identifier resolution for the wire-protocol backend.
//!
//! Given a numeric type identifier from a result description,
//! resolution proceeds through three tiers, each faster than the next:
//! the static table of built-in identifiers, the per-connection cache,
//! and a catalog query issued through the very same typed-query path.
//! A should-fetch flag suppresses the third tier while resolution
//! happens mid-flight inside another query's result parsing; the
//! identifier then gets an empty placeholder name and is not cached, so
//! a later safe-context lookup can still resolve it properly.

use vstd::prelude::*;
use crate::database::{Database, Postgres};
use crate::executor::Query;
use crate::postgres::arguments::PgArguments;
use crate::postgres::row::PgColumn;
use crate::postgres::type_info::{builtin_name, PgTypeInfo, PgTypeInfoModel};

verus! {

/// The per-connection cache of resolved type identifiers: pairs of
/// catalog identifier and type name, paired in both directions and
/// never evicted within a connection's lifetime.
pub struct TypeCache {
    /// Each resolved identifier with its name, in resolution order.
    pub entries: Vec<(u32, String)>,
}

/// How one resolution attempt ended.
pub enum TypeResolution {
    /// The descriptor is known: a built-in, a cache hit, or a
    /// placeholder when fetching was suppressed.
    Resolved(PgTypeInfo),
    /// The identifier must be fetched from the catalog; issue
    /// [`catalog_type_query`] and hand the answer to
    /// [`TypeCache::store_catalog_name`].
    NeedsCatalog(u32),
}

impl TypeCache {
    /// The cached identifiers, in resolution order.
    pub open spec fn ids(self) -> Seq<u32> {
        self.entries@.map_values(|e: (u32, String)| e.0)
    }

    /// Whether `oid` is cached.
    pub open spec fn contains_id(self, oid: u32) -> bool {
        exists|i: int| 0 <= i < self.ids().len() && self.ids()[i] == oid
    }

    /// The name cached for `oid`.
    pub open spec fn name_of(self, oid: u32) -> Seq<char> {
        let i = choose|i: int| 0 <= i < self.ids().len() && self.ids()[i] == oid;
        self.entries@[i].1@
    }

    /// Identifiers are cached at most once, so both lookup directions
    /// are functions.
    pub open spec fn wf(self) -> bool {
        forall|i: int, j: int|
            0 <= i < j < self.ids().len() ==> self.ids()[i] != self.ids()[j]
    }

    /// An empty cache.
    pub fn new() -> (r: Self)
        ensures
            r.wf(),
            r.entries@.len() == 0,
    {
        TypeCache { entries: Vec::new() }
    }

    /// The cached name for `oid`, when present.
    fn lookup(&self, oid: u32) -> (r: Option<&String>)
        requires
            self.wf(),
        ensures
            match r {
                Some(n) => self.contains_id(oid) && n@ == self.name_of(oid),
                None => !self.contains_id(oid),
            },
    {
        let len = self.entries.len();
        let mut i: usize = 0;
        while i < len
            invariant
                self.wf(),
                0 <= i <= len,
                len == self.entries@.len(),
                forall|j: int| 0 <= j < i ==> (#[trigger] self.entries@[j].0) != oid,
            decreases len - i,
        {
            if self.entries[i].0 == oid {
                proof {
                    assert(self.ids()[i as int] == oid);
                    assert(self.contains_id(oid));
                    let w = choose|w: int| 0 <= w < self.ids().len() && self.ids()[w] == oid;
                    if w < i as int {
                        assert(self.ids()[w] != self.ids()[i as int]);
                        assert(false);
                    } else if w > i as int {
                        assert(self.ids()[i as int] != self.ids()[w]);
                        assert(false);
                    }
                    assert(self.name_of(oid) == self.entries@[i as int].1@);
                }
                return Some(&self.entries[i].1);
            }
            i = i + 1;
        }
        proof {
            assert(forall|j: int| 0 <= j < self.ids().len() ==> self.ids()[j] != oid);
        }
        None
    }

    /// Resolves a type identifier without touching the catalog: the
    /// static built-in table first, then the connection's cache. When
    /// both miss, either the caller may fetch — then the catalog must
    /// be consulted — or resolution happens mid-flight and the
    /// identifier gets an empty placeholder name, uncached.
    pub fn resolve_type_info(&self, oid: u32, should_fetch: bool) -> (r: TypeResolution)
        requires
            self.wf(),
        ensures
            resolution_of(*self, oid, should_fetch, r),
    {
        // first check if this is a built-in type; in the average
        // application the vast majority of checks flow through here
        if let Some(info) = PgTypeInfo::try_from_id(oid) {
            return TypeResolution::Resolved(info);
        }
        // next, the local cache of user-defined type names
        if let Some(name) = self.lookup(oid) {
            return TypeResolution::Resolved(PgTypeInfo { id: Some(oid), name: name.clone() });
        }
        if should_fetch {
            TypeResolution::NeedsCatalog(oid)
        } else {
            // not in a place that can run a query: substitute an empty
            // placeholder name and leave the identifier uncached
            TypeResolution::Resolved(PgTypeInfo { id: Some(oid), name: String::new() })
        }
    }

    /// Caches the name the catalog reported for `oid`, in both lookup
    /// directions, and returns the resolved descriptor. After this,
    /// resolving `oid` again is served from the cache: no second
    /// catalog query.
    pub fn store_catalog_name(&mut self, oid: u32, name: String) -> (r: PgTypeInfo)
        requires
            old(self).wf(),
            !old(self).contains_id(oid),
        ensures
            final(self).wf(),
            r@ == (PgTypeInfoModel { id: Some(oid), name: name@ }),
            final(self).contains_id(oid),
            final(self).name_of(oid) == name@,
            final(self).entries@.len() == old(self).entries@.len() + 1,
            forall|i: int|
                0 <= i < old(self).entries@.len() ==> (#[trigger] final(self).entries@[i]) == old(
                    self,
                ).entries@[i],
            forall|o: u32| o != oid ==> (final(self).contains_id(o) == old(self).contains_id(o)),
    {
        let ghost n = self.entries@.len() as int;
        let info = PgTypeInfo { id: Some(oid), name: name.clone() };
        self.entries.push((oid, name));
        proof {
            assert(self.ids() =~= old(self).ids().push(oid));
            assert(self.ids()[n] == oid);
            assert(self.contains_id(oid));
            let w = choose|w: int| 0 <= w < self.ids().len() && self.ids()[w] == oid;
            if w != n {
                assert(old(self).ids()[w] == oid);
                assert(old(self).contains_id(oid));
                assert(false);
            }
            assert(self.name_of(oid) == name@);
            assert forall|o: u32| o != oid implies (self.contains_id(o) == old(self).contains_id(
                o,
            )) by {
                if old(self).contains_id(o) {
                    let v = choose|v: int|
                        0 <= v < old(self).ids().len() && old(self).ids()[v] == o;
                    assert(self.ids()[v] == o);
                }
                if self.contains_id(o) {
                    let v = choose|v: int| 0 <= v < self.ids().len() && self.ids()[v] == o;
                    assert(v != n);
                    assert(old(self).ids()[v] == o);
                }
            }
        }
        info
    }
}

/// The catalog query issued to resolve one type identifier: one bound
/// integer parameter, one returned text column.
pub fn catalog_type_query(oid: u32) -> (r: Query<Postgres>)
    ensures
        r.sql@ == "SELECT typname FROM pg_catalog.pg_type WHERE oid = $1"@,
        r.arguments matches Some(args) && Postgres::segments(args)
            == PgArguments::frame_of(Some(crate::postgres::wire::spec_be4(oid))),
{
    let mut args = PgArguments::new();
    args.add(oid);
    proof {
        assert(args.buffer@ =~= PgArguments::frame_of(
            Some(crate::postgres::wire::spec_be4(oid)),
        ));
    }
    Query { sql: "SELECT typname FROM pg_catalog.pg_type WHERE oid = $1".to_owned(), arguments: Some(args) }
}

/// Type-cache convergence: once an identifier is cached — as it is
/// right after its catalog answer was stored — every later resolution
/// is served without a catalog query, whatever the context: the result
/// is always `Resolved`, never `NeedsCatalog`.
pub proof fn lemma_type_cache_convergence(
    cache: TypeCache,
    oid: u32,
    should_fetch: bool,
    r: TypeResolution,
)
    requires
        cache.wf(),
        cache.contains_id(oid),
        resolution_of(cache, oid, should_fetch, r),
    ensures
        r is Resolved,
{
}

/// The relation [`TypeCache::resolve_type_info`] establishes between
/// its inputs and its result.
pub open spec fn resolution_of(
    cache: TypeCache,
    oid: u32,
    should_fetch: bool,
    r: TypeResolution,
) -> bool {
    match builtin_name(oid) {
        Some(n) => r matches TypeResolution::Resolved(t) && t@ == (PgTypeInfoModel {
            id: Some(oid),
            name: n,
        }),
        None => {
            if cache.contains_id(oid) {
                r matches TypeResolution::Resolved(t) && t@ == (PgTypeInfoModel {
                    id: Some(oid),
                    name: cache.name_of(oid),
                })
            } else if should_fetch {
                r == TypeResolution::NeedsCatalog(oid)
            } else {
                r matches TypeResolution::Resolved(t) && t@ == (PgTypeInfoModel {
                    id: Some(oid),
                    name: Seq::empty(),
                })
            }
        },
    }
}

/// The descriptor resolution yields without consulting the catalog,
/// when one is available in the given context.
pub open spec fn resolved_model(cache: TypeCache, oid: u32, should_fetch: bool) -> Option<
    PgTypeInfoModel,
> {
    match builtin_name(oid) {
        Some(n) => Some(PgTypeInfoModel { id: Some(oid), name: n }),
        None => {
            if cache.contains_id(oid) {
                Some(PgTypeInfoModel { id: Some(oid), name: cache.name_of(oid) })
            } else if !should_fetch {
                Some(PgTypeInfoModel { id: Some(oid), name: Seq::empty() })
            } else {
                None
            }
        },
    }
}

/// One field of a result description, as the server reports it.
pub struct PgField {
    /// The column name.
    pub name: String,
    /// The numeric type identifier of the column's type.
    pub data_type_id: u32,
    /// The table the column originates from, when any.
    pub relation_id: Option<u32>,
    /// The column's number within that table, when any.
    pub relation_attribute_no: Option<u16>,
}

/// How one description pass ended.
pub enum DescribeOutcome {
    /// All fields resolved: the columns and the name lookup table.
    Columns(Vec<PgColumn>, Vec<(String, usize)>),
    /// One identifier needs a catalog lookup first; store its answer
    /// and describe again — each answer caches one more identifier, so
    /// the passes converge.
    NeedsCatalog(u32),
}

/// Turns a result description into typed columns and the column-name
/// table. Every field's type identifier is resolved through the tiers;
/// the first identifier that needs the catalog stops the pass.
pub fn handle_row_description(cache: &TypeCache, fields: &Vec<PgField>, should_fetch: bool) -> (r:
    DescribeOutcome)
    requires
        cache.wf(),
    ensures
        match r {
            DescribeOutcome::NeedsCatalog(oid) => should_fetch && builtin_name(oid) is None
                && !cache.contains_id(oid) && (exists|j: int|
                0 <= j < fields@.len() && (#[trigger] fields@[j]).data_type_id == oid),
            DescribeOutcome::Columns(columns, names) => {
                &&& columns@.len() == fields@.len()
                &&& names@.len() == fields@.len()
                &&& (forall|j: int|
                    0 <= j < fields@.len() ==> {
                        &&& (#[trigger] columns@[j]).name@ == fields@[j].name@
                        &&& Some(columns@[j].type_info@) == resolved_model(
                            *cache,
                            fields@[j].data_type_id,
                            should_fetch,
                        )
                        &&& columns@[j].relation_id == fields@[j].relation_id
                        &&& columns@[j].relation_attribute_no == fields@[j].relation_attribute_no
                    })
                &&& (forall|j: int|
                    0 <= j < fields@.len() ==> {
                        &&& (#[trigger] names@[j]).0@ == fields@[j].name@
                        &&& names@[j].1 == j
                    })
            },
        },
{
    let n = fields.len();
    let mut columns: Vec<PgColumn> = Vec::new();
    let mut names: Vec<(String, usize)> = Vec::new();
    let mut j: usize = 0;
    while j < n
        invariant
            cache.wf(),
            0 <= j <= n,
            n == fields@.len(),
            columns@.len() == j,
            names@.len() == j,
            forall|l: int|
                0 <= l < j ==> {
                    &&& (#[trigger] columns@[l]).name@ == fields@[l].name@
                    &&& Some(columns@[l].type_info@) == resolved_model(
                        *cache,
                        fields@[l].data_type_id,
                        should_fetch,
                    )
                    &&& columns@[l].relation_id == fields@[l].relation_id
                    &&& columns@[l].relation_attribute_no == fields@[l].relation_attribute_no
                },
            forall|l: int|
                0 <= l < j ==> {
                    &&& (#[trigger] names@[l]).0@ == fields@[l].name@
                    &&& names@[l].1 == l
                },
        decreases n - j,
    {
        let field = &fields[j];
        let type_info = match cache.resolve_type_info(field.data_type_id, should_fetch) {
            TypeResolution::Resolved(t) => t,
            TypeResolution::NeedsCatalog(oid) => {
                return DescribeOutcome::NeedsCatalog(oid);
            },
        };
        columns.push(
            PgColumn {
                name: field.name.clone(),
                type_info,
                relation_id: field.relation_id,
                relation_attribute_no: field.relation_attribute_no,
            },
        );
        names.push((field.name.clone(), j));
        j = j + 1;
    }
    DescribeOutcome::Columns(columns, names)
}

/// Resolves every parameter type of a parameter description; issued
/// outside result parsing, so the catalog may always be consulted.
pub fn handle_parameter_description(cache: &TypeCache, types: &Vec<u32>) -> (r: Result<
    Vec<PgTypeInfo>,
    u32,
>)
    requires
        cache.wf(),
    ensures
        match r {
            Ok(params) => {
                &&& params@.len() == types@.len()
                &&& (forall|j: int|
                    0 <= j < types@.len() ==> Some((#[trigger] params@[j])@) == resolved_model(
                        *cache,
                        types@[j],
                        true,
                    ))
            },
            Err(oid) => builtin_name(oid) is None && !cache.contains_id(oid) && (exists|j: int|
                0 <= j < types@.len() && (#[trigger] types@[j]) == oid),
        },
{
    let n = types.len();
    let mut params: Vec<PgTypeInfo> = Vec::new();
    let mut j: usize = 0;
    while j < n
        invariant
            cache.wf(),
            0 <= j <= n,
            n == types@.len(),
            params@.len() == j,
            forall|l: int|
                0 <= l < j ==> Some((#[trigger] params@[l])@) == resolved_model(
                    *cache,
                    types@[l],
                    true,
                ),
        decreases n - j,
    {
        match cache.resolve_type_info(types[j], true) {
            TypeResolution::Resolved(t) => {
                params.push(t);
            },
            TypeResolution::NeedsCatalog(oid) => {
                return Err(oid);
            },
        }
        j = j + 1;
    }
    Ok(params)
}

} // verus!
