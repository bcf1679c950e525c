//! The reflector: three ordered passes over a decoded module that recover
//! the uniform variables, their names, locations, bindings and resolved
//! types, ending in a deduplicated descriptor list sorted by location.
//!
//! Pass 1 records literal constants and decodes type-defining instructions,
//! relying on the binary format's definition-before-use ordering. Pass 2
//! collects debug names, then applies Location and Binding decorations to
//! the named ids; a decoration for an unnamed id is a fatal inconsistency.
//! Pass 3 resolves each uniform-constant variable's pointer type to a
//! recorded type; a variable whose pointee cannot be resolved is excluded
//! with a diagnostic instead of failing the whole module.

use vstd::prelude::*;
use vstd::multiset::Multiset;
use vstd::string::StringExecFns;

use crate::casing::snake_of;
use crate::casing::to_snake_case;
use crate::error::Error;
use crate::idmap::IdMap;
use crate::idmap::lemma_index_of_absent;
use crate::idmap::lemma_index_of_found;
use crate::idmap::lemma_index_of_props;
use crate::idmap::spec_contains_key;
use crate::idmap::spec_index_of;
use crate::idmap::spec_put;
use crate::ir::Decoration;
use crate::ir::Instruction;
use crate::ir::Op;
use crate::ir::SpirvModule;
use crate::ir::StorageClass;
use crate::types::AtomType;
use crate::types::GenericType;
use crate::types::ItemOrArrayType;
use crate::types::MatrixType;
use crate::types::VectorType;

verus! {

/// One reflected uniform: its declared name, its location and optional
/// binding slots, its resolved type once pass 3 has found one, and the
/// snake_case field name generated code uses for its location slot.
#[derive(Debug)]
pub struct FoundUniform {
    pub name: String,
    pub location: u32,
    pub binding: Option<i32>,
    pub ty: Option<ItemOrArrayType>,
    pub location_name: String,
}

/// The mathematical content of a `FoundUniform`.
pub struct FoundUniformV {
    pub name: Seq<char>,
    pub location: u32,
    pub binding: Option<i32>,
    pub ty: Option<ItemOrArrayType>,
    pub location_name: Seq<char>,
}

impl View for FoundUniform {
    type V = FoundUniformV;

    open spec fn view(&self) -> FoundUniformV {
        FoundUniformV {
            name: self.name@,
            location: self.location,
            binding: self.binding,
            ty: self.ty,
            location_name: self.location_name@,
        }
    }
}

impl Clone for FoundUniform {
    fn clone(&self) -> (r: Self)
        ensures
            r@ == self@,
    {
        FoundUniform {
            name: self.name.clone(),
            location: self.location,
            binding: self.binding,
            ty: match &self.ty {
                Some(t) => Some(t.clone()),
                None => None,
            },
            location_name: self.location_name.clone(),
        }
    }
}

/// The uniform record a debug-name instruction starts: everything but the
/// name still unset.
pub open spec fn spec_blank_uniform(name: Seq<char>) -> FoundUniformV {
    FoundUniformV { name, location: 0, binding: None, ty: None, location_name: Seq::empty() }
}

/// The location-slot field name generated code uses for a uniform.
pub open spec fn spec_location_name(name: Seq<char>) -> Seq<char> {
    snake_of(name + "_location"@)
}

/// Pass 1, constant table: literal integer constants by result id, in
/// stream order. Later definitions of an id shadow earlier ones.
pub open spec fn spec_consts(s: Seq<Instruction>) -> Map<u32, u32>
    decreases s.len(),
{
    if s.len() == 0 {
        Map::empty()
    } else {
        let m = spec_consts(s.drop_last());
        let i = s.last();
        if i.opcode == Op::Constant {
            match i.spec_lit_at(0) {
                Some(v) => m.insert(i.spec_rid(), v),
                None => m,
            }
        } else {
            m
        }
    }
}

/// Pass 1, one type-defining instruction applied to the type table built so
/// far. `None` is the fatal `UnsupportedType` outcome: an integer width
/// other than 32, a float width other than 32 or 64, a composite over an
/// unknown or ill-shaped component, a non-square or non-float matrix, or an
/// array without a known positive length. An instruction that defines
/// nothing the algebra models leaves the table unchanged.
pub open spec fn spec_type_step(
    m: Map<u32, ItemOrArrayType>,
    consts: Map<u32, u32>,
    i: Instruction,
) -> Option<Map<u32, ItemOrArrayType>> {
    match i.opcode {
        Op::TypeInt => if i.spec_lit_at(0) == Some(32u32) {
            if i.spec_lit_at(1) == Some(0u32) {
                Some(m.insert(i.spec_rid(), ItemOrArrayType::Item(GenericType::Atom(AtomType::UInt))))
            } else {
                Some(m.insert(i.spec_rid(), ItemOrArrayType::Item(GenericType::Atom(AtomType::Int))))
            }
        } else {
            None
        },
        Op::TypeFloat => if i.spec_lit_at(0) == Some(32u32) {
            Some(m.insert(i.spec_rid(), ItemOrArrayType::Item(GenericType::Atom(AtomType::Float))))
        } else if i.spec_lit_at(0) == Some(64u32) {
            Some(m.insert(i.spec_rid(), ItemOrArrayType::Item(GenericType::Atom(AtomType::Double))))
        } else {
            None
        },
        Op::TypeBool => Some(
            m.insert(i.spec_rid(), ItemOrArrayType::Item(GenericType::Atom(AtomType::Bool))),
        ),
        Op::TypeVector => match (i.spec_id_at(0), i.spec_lit_at(1)) {
            (Some(tid), Some(comps)) => if m.contains_key(tid) {
                match m[tid] {
                    ItemOrArrayType::Item(GenericType::Atom(a)) => if 2 <= comps <= 4 {
                        Some(
                            m.insert(
                                i.spec_rid(),
                                ItemOrArrayType::Item(
                                    GenericType::Vector(
                                        VectorType { base_type: a, components: comps },
                                    ),
                                ),
                            ),
                        )
                    } else {
                        None
                    },
                    _ => None,
                }
            } else {
                None
            },
            _ => Some(m),
        },
        Op::TypeMatrix => match (i.spec_id_at(0), i.spec_lit_at(1)) {
            (Some(tid), Some(n)) => if m.contains_key(tid) {
                match m[tid] {
                    ItemOrArrayType::Item(GenericType::Vector(vt)) => if vt.base_type.spec_is_float_type()
                        && vt.components == n {
                        Some(
                            m.insert(
                                i.spec_rid(),
                                ItemOrArrayType::Item(
                                    GenericType::Matrix(MatrixType { base_type: vt.base_type, n }),
                                ),
                            ),
                        )
                    } else {
                        None
                    },
                    _ => None,
                }
            } else {
                None
            },
            _ => Some(m),
        },
        Op::TypeArray => match (i.spec_id_at(0), i.spec_id_at(1)) {
            (Some(tid), Some(cid)) => if !m.contains_key(tid) {
                Some(m)
            } else if !consts.contains_key(cid) {
                None
            } else if consts[cid] == 0 {
                None
            } else {
                Some(
                    m.insert(i.spec_rid(), ItemOrArrayType::Array(Box::new(m[tid]), consts[cid])),
                )
            },
            _ => None,
        },
        Op::TypeImage => Some(m.insert(i.spec_rid(), ItemOrArrayType::Image)),
        Op::TypeSampledImage => Some(m.insert(i.spec_rid(), ItemOrArrayType::Image)),
        _ => Some(m),
    }
}

/// Pass 1, type table: every type-defining instruction applied in stream
/// order, or `None` once any step is fatal.
pub open spec fn spec_types(s: Seq<Instruction>) -> Option<Map<u32, ItemOrArrayType>>
    decreases s.len(),
{
    if s.len() == 0 {
        Some(Map::empty())
    } else {
        match spec_types(s.drop_last()) {
            None => None,
            Some(m) => spec_type_step(m, spec_consts(s.drop_last()), s.last()),
        }
    }
}

/// Pass 2, name table: debug-name instructions in stream order, each
/// starting (or restarting) the record for its id.
pub open spec fn spec_names(s: Seq<Instruction>) -> Seq<(u32, FoundUniformV)>
    decreases s.len(),
{
    if s.len() == 0 {
        Seq::empty()
    } else {
        let t = spec_names(s.drop_last());
        let i = s.last();
        if i.opcode == Op::Name {
            match (i.spec_id_at(0), i.spec_str_at(1)) {
                (Some(id), Some(nm)) => spec_put(t, id, spec_blank_uniform(nm)),
                _ => t,
            }
        } else {
            t
        }
    }
}

/// Pass 2, one annotation applied to the name table. A Location or Binding
/// decoration for an id that carries no name is `None`, the fatal
/// inconsistency: dropping it would place a uniform at an unknown location.
pub open spec fn spec_decorate_step(t: Seq<(u32, FoundUniformV)>, i: Instruction) -> Option<
    Seq<(u32, FoundUniformV)>,
> {
    if i.opcode != Op::Decorate {
        Some(t)
    } else {
        match i.spec_decoration_at(1) {
            Some(Decoration::Location) => match (i.spec_id_at(0), i.spec_lit_at(2)) {
                (Some(id), Some(loc)) => if spec_contains_key(t, id) {
                    let j = spec_index_of(t, id);
                    Some(t.update(j, (id, FoundUniformV { location: loc, ..t[j].1 })))
                } else {
                    None
                },
                _ => Some(t),
            },
            Some(Decoration::Binding) => match (i.spec_id_at(0), i.spec_lit_at(2)) {
                (Some(id), Some(b)) => if spec_contains_key(t, id) {
                    let j = spec_index_of(t, id);
                    Some(t.update(j, (id, FoundUniformV { binding: Some(b as i32), ..t[j].1 })))
                } else {
                    None
                },
                _ => Some(t),
            },
            _ => Some(t),
        }
    }
}

/// Pass 2, decorations: every annotation applied in stream order.
pub open spec fn spec_decorations(
    t0: Seq<(u32, FoundUniformV)>,
    s: Seq<Instruction>,
) -> Option<Seq<(u32, FoundUniformV)>>
    decreases s.len(),
{
    if s.len() == 0 {
        Some(t0)
    } else {
        match spec_decorations(t0, s.drop_last()) {
            None => None,
            Some(t) => spec_decorate_step(t, s.last()),
        }
    }
}

/// Pass 3, one instruction applied to the pointer table, the name table and
/// the diagnostics. A uniform-constant variable resolves through the
/// pointer table into the type table; when either lookup fails its uniform
/// is excluded and its name recorded as a diagnostic. A variable whose id
/// carries no name is invisible: a stripped module simply yields fewer
/// uniforms.
pub open spec fn spec_resolve_step(
    st: (Map<u32, u32>, Seq<(u32, FoundUniformV)>, Seq<Seq<char>>),
    types: Map<u32, ItemOrArrayType>,
    i: Instruction,
) -> Option<(Map<u32, u32>, Seq<(u32, FoundUniformV)>, Seq<Seq<char>>)> {
    let (ptrs, t, diags) = st;
    match i.opcode {
        Op::TypePointer => match (i.result_id, i.spec_id_at(1)) {
            (Some(rid), Some(tid)) => Some((ptrs.insert(rid, tid), t, diags)),
            _ => None,
        },
        Op::Variable => if i.spec_storage_at(0) != Some(StorageClass::UniformConstant) {
            Some(st)
        } else {
            match i.result_id {
                None => None,
                Some(rid) => if !spec_contains_key(t, rid) {
                    Some(st)
                } else {
                    let j = spec_index_of(t, rid);
                    match i.result_type {
                        None => None,
                        Some(tp) => if ptrs.contains_key(tp) && types.contains_key(ptrs[tp]) {
                            Some(
                                (
                                    ptrs,
                                    t.update(
                                        j,
                                        (
                                            rid,
                                            FoundUniformV {
                                                ty: Some(types[ptrs[tp]]),
                                                location_name: spec_location_name(t[j].1.name),
                                                ..t[j].1
                                            },
                                        ),
                                    ),
                                    diags,
                                ),
                            )
                        } else {
                            Some((ptrs, t, diags.push(t[j].1.name)))
                        },
                    }
                },
            }
        },
        _ => Some(st),
    }
}

/// Pass 3: every type, constant and global-value instruction applied in
/// stream order, threading the pointer table built along the way.
pub open spec fn spec_resolve(
    t0: Seq<(u32, FoundUniformV)>,
    types: Map<u32, ItemOrArrayType>,
    s: Seq<Instruction>,
) -> Option<(Map<u32, u32>, Seq<(u32, FoundUniformV)>, Seq<Seq<char>>)>
    decreases s.len(),
{
    if s.len() == 0 {
        Some((Map::empty(), t0, Seq::empty()))
    } else {
        match spec_resolve(t0, types, s.drop_last()) {
            None => None,
            Some(st) => spec_resolve_step(st, types, s.last()),
        }
    }
}

/// The records that resolved to a type, in table order, keys dropped.
pub open spec fn spec_resolved(t: Seq<(u32, FoundUniformV)>) -> Seq<FoundUniformV> {
    t.map_values(|p: (u32, FoundUniformV)| p.1).filter(|u: FoundUniformV| u.ty is Some)
}

/// Inserts `u` before the first record whose location is not below its own,
/// so that equal locations keep their existing order.
pub open spec fn spec_insert_by_location(u: FoundUniformV, s: Seq<FoundUniformV>) -> Seq<
    FoundUniformV,
>
    decreases s.len(),
{
    if s.len() == 0 {
        seq![u]
    } else if s[0].location < u.location {
        seq![s[0]] + spec_insert_by_location(u, s.drop_first())
    } else {
        seq![u] + s
    }
}

/// Stable insertion sort of the descriptor list, ascending by location.
pub open spec fn spec_sort_by_location(s: Seq<FoundUniformV>) -> Seq<FoundUniformV>
    decreases s.len(),
{
    if s.len() == 0 {
        Seq::empty()
    } else {
        spec_insert_by_location(s[0], spec_sort_by_location(s.drop_first()))
    }
}

/// What reflection returns for a whole module: the sorted list of resolved
/// descriptors and the names of the uniforms that were excluded, or `None`
/// for the fatal `UnsupportedType` outcomes of the passes.
pub open spec fn spec_reflect(m: SpirvModule) -> Option<(Seq<FoundUniformV>, Seq<Seq<char>>)> {
    match spec_types(m.types_global_values@) {
        None => None,
        Some(types) => match spec_decorations(spec_names(m.debugs@), m.annotations@) {
            None => None,
            Some(named) => match spec_resolve(named, types, m.types_global_values@) {
                None => None,
                Some((ptrs, resolved, diags)) => Some(
                    (spec_sort_by_location(spec_resolved(resolved)), diags),
                ),
            },
        },
    }
}

/// Ascending by location.
pub open spec fn spec_sorted_by_location(s: Seq<FoundUniformV>) -> bool {
    forall|i: int, j: int| 0 <= i < j < s.len() ==> s[i].location <= s[j].location
}

/// The records of `s` at one location, in order.
pub open spec fn spec_with_location(s: Seq<FoundUniformV>, loc: u32) -> Seq<FoundUniformV> {
    s.filter(|u: FoundUniformV| u.location == loc)
}

proof fn lemma_insert_by_location_props(u: FoundUniformV, s: Seq<FoundUniformV>)
    requires
        spec_sorted_by_location(s),
    ensures
        spec_sorted_by_location(spec_insert_by_location(u, s)),
        spec_insert_by_location(u, s).len() == s.len() + 1,
        spec_insert_by_location(u, s).to_multiset() == s.to_multiset().insert(u),
        spec_insert_by_location(u, s)[0].location == if s.len() == 0 {
            u.location
        } else if s[0].location < u.location {
            s[0].location
        } else {
            u.location
        },
    decreases s.len(),
{
    broadcast use vstd::seq_lib::group_to_multiset_ensures;

    let r = spec_insert_by_location(u, s);
    if s.len() == 0 {
        assert(seq![u].drop_last() =~= Seq::<FoundUniformV>::empty());
        assert(r.to_multiset() =~= s.to_multiset().insert(u));
    } else if s[0].location < u.location {
        let d = s.drop_first();
        assert(forall|j: int| 0 <= j < d.len() ==> d[j] == s[j + 1]);
        lemma_insert_by_location_props(u, d);
        let rd = spec_insert_by_location(u, d);
        assert(forall|j: int| 0 <= j < rd.len() ==> r[j + 1] == rd[j]);
        assert(r[0] == s[0]);
        // The head of the recursive result is at or above the old head.
        if d.len() > 0 {
            assert(s[0].location <= d[0].location);
        }
        assert(rd[0].location >= s[0].location);
        assert forall|i: int, j: int| 0 <= i < j < r.len() implies r[i].location
            <= r[j].location by {
            if i == 0 {
                assert(r[j] == rd[j - 1]);
                assert(rd[0].location <= rd[j - 1].location);
            } else {
                assert(r[i] == rd[i - 1] && r[j] == rd[j - 1]);
            }
        }
        // Multiset bookkeeping: r == seq![s[0]] + rd.
        assert(r =~= seq![s[0]] + rd);
        vstd::seq_lib::lemma_multiset_commutative(seq![s[0]], rd);
        assert(seq![s[0]].to_multiset() =~= Multiset::empty().insert(s[0]));
        assert(s =~= seq![s[0]] + d);
        vstd::seq_lib::lemma_multiset_commutative(seq![s[0]], d);
        assert(r.to_multiset() =~= s.to_multiset().insert(u));
    } else {
        assert(r =~= seq![u] + s);
        vstd::seq_lib::lemma_multiset_commutative(seq![u], s);
        assert(seq![u].to_multiset() =~= Multiset::empty().insert(u));
        assert(r.to_multiset() =~= s.to_multiset().insert(u));
        assert forall|i: int, j: int| 0 <= i < j < r.len() implies r[i].location
            <= r[j].location by {
            if i == 0 {
                assert(r[j] == s[j - 1]);
                assert(u.location <= s[0].location);
                if j > 1 {
                    assert(s[0].location <= s[j - 1].location);
                }
            } else {
                assert(r[i] == s[i - 1] && r[j] == s[j - 1]);
            }
        }
    }
}

/// The sorted list is ascending by location and holds exactly the records
/// of the input: sorting reorders, never edits, adds or drops.
pub proof fn lemma_sort_by_location_permutes(s: Seq<FoundUniformV>)
    ensures
        spec_sorted_by_location(spec_sort_by_location(s)),
        spec_sort_by_location(s).len() == s.len(),
        spec_sort_by_location(s).to_multiset() == s.to_multiset(),
    decreases s.len(),
{
    broadcast use vstd::seq_lib::group_to_multiset_ensures;

    if s.len() > 0 {
        let d = s.drop_first();
        lemma_sort_by_location_permutes(d);
        lemma_insert_by_location_props(s[0], spec_sort_by_location(d));
        assert(s =~= seq![s[0]] + d);
        vstd::seq_lib::lemma_multiset_commutative(seq![s[0]], d);
        assert(seq![s[0]].to_multiset() =~= Multiset::empty().insert(s[0]));
        assert(spec_sort_by_location(s).to_multiset() =~= s.to_multiset());
    }
}

proof fn lemma_filter_singleton(x: FoundUniformV, pred: spec_fn(FoundUniformV) -> bool)
    ensures
        pred(x) ==> seq![x].filter(pred) == seq![x],
        !pred(x) ==> seq![x].filter(pred) == Seq::<FoundUniformV>::empty(),
{
    reveal_with_fuel(Seq::<_>::filter, 2);
    assert(seq![x].drop_last() =~= Seq::<FoundUniformV>::empty());
    if pred(x) {
        assert(seq![x].filter(pred) =~= seq![x]);
    } else {
        assert(seq![x].filter(pred) =~= Seq::<FoundUniformV>::empty());
    }
}

proof fn lemma_insert_by_location_filter(u: FoundUniformV, s: Seq<FoundUniformV>, loc: u32)
    ensures
        spec_with_location(spec_insert_by_location(u, s), loc) == if u.location == loc {
            seq![u] + spec_with_location(s, loc)
        } else {
            spec_with_location(s, loc)
        },
    decreases s.len(),
{
    broadcast use vstd::seq_lib::group_seq_properties;

    let pred = |x: FoundUniformV| x.location == loc;
    let r = spec_insert_by_location(u, s);
    lemma_filter_singleton(u, pred);
    if s.len() == 0 {
        if u.location == loc {
            assert(r.filter(pred) =~= seq![u] + s.filter(pred));
        } else {
            assert(r.filter(pred) =~= s.filter(pred));
        }
    } else if s[0].location < u.location {
        let d = s.drop_first();
        lemma_insert_by_location_filter(u, d, loc);
        lemma_filter_singleton(s[0], pred);
        assert(r =~= seq![s[0]] + spec_insert_by_location(u, d));
        Seq::filter_distributes_over_add(seq![s[0]], spec_insert_by_location(u, d), pred);
        assert(s =~= seq![s[0]] + d);
        Seq::filter_distributes_over_add(seq![s[0]], d, pred);
        if u.location == loc {
            // s[0].location < loc, so s[0] is filtered out of both sides.
            assert(!pred(s[0]));
            assert(r.filter(pred) =~= seq![u] + s.filter(pred));
        } else {
            assert(r.filter(pred) =~= s.filter(pred));
        }
    } else {
        assert(r =~= seq![u] + s);
        Seq::filter_distributes_over_add(seq![u], s, pred);
    }
}

/// The mathematical content of a name-table entry sequence.
pub open spec fn names_view(s: Seq<(u32, FoundUniform)>) -> Seq<(u32, FoundUniformV)> {
    s.map_values(|p: (u32, FoundUniform)| (p.0, p.1@))
}

/// The mathematical content of a descriptor list.
pub open spec fn uniforms_view(s: Seq<FoundUniform>) -> Seq<FoundUniformV> {
    s.map_values(|u: FoundUniform| u@)
}

/// The mathematical content of a diagnostic list.
pub open spec fn diags_view(s: Seq<String>) -> Seq<Seq<char>> {
    s.map_values(|d: String| d@)
}

/// Once a prefix of the stream makes the type pass fail, the whole stream
/// does.
proof fn lemma_types_fail_persists(s: Seq<Instruction>, i: int)
    requires
        0 <= i <= s.len(),
        spec_types(s.take(i)) is None,
    ensures
        spec_types(s) is None,
    decreases s.len() - i,
{
    if i == s.len() {
        assert(s.take(i) =~= s);
    } else {
        assert(s.take(i + 1).drop_last() =~= s.take(i));
        assert(spec_types(s.take(i + 1)) is None);
        lemma_types_fail_persists(s, i + 1);
    }
}

/// Once a prefix of the annotations makes the decoration pass fail, the
/// whole sequence does.
proof fn lemma_decorations_fail_persists(t0: Seq<(u32, FoundUniformV)>, s: Seq<Instruction>, i: int)
    requires
        0 <= i <= s.len(),
        spec_decorations(t0, s.take(i)) is None,
    ensures
        spec_decorations(t0, s) is None,
    decreases s.len() - i,
{
    if i == s.len() {
        assert(s.take(i) =~= s);
    } else {
        assert(s.take(i + 1).drop_last() =~= s.take(i));
        assert(spec_decorations(t0, s.take(i + 1)) is None);
        lemma_decorations_fail_persists(t0, s, i + 1);
    }
}

/// Once a prefix of the stream makes the resolution pass fail, the whole
/// stream does.
proof fn lemma_resolve_fail_persists(
    t0: Seq<(u32, FoundUniformV)>,
    types: Map<u32, ItemOrArrayType>,
    s: Seq<Instruction>,
    i: int,
)
    requires
        0 <= i <= s.len(),
        spec_resolve(t0, types, s.take(i)) is None,
    ensures
        spec_resolve(t0, types, s) is None,
    decreases s.len() - i,
{
    if i == s.len() {
        assert(s.take(i) =~= s);
    } else {
        assert(s.take(i + 1).drop_last() =~= s.take(i));
        assert(spec_resolve(t0, types, s.take(i + 1)) is None);
        lemma_resolve_fail_persists(t0, types, s, i + 1);
    }
}

/// Finds the entry with the given id in the name table, scanning forward.
fn names_find(t: &Vec<(u32, FoundUniform)>, k: u32) -> (r: Option<usize>)
    ensures
        r matches Some(j) ==> j < t@.len() && t@[j as int].0 == k && spec_index_of(
            names_view(t@),
            k,
        ) == j,
        r is None ==> spec_index_of(names_view(t@), k) == -1,
{
    proof {
        assert(forall|j: int|
            0 <= j < t@.len() ==> #[trigger] names_view(t@)[j].0 == t@[j].0);
    }
    let mut i: usize = 0;
    while i < t.len()
        invariant
            i <= t@.len(),
            forall|j: int| 0 <= j < i ==> #[trigger] names_view(t@)[j].0 != k,
            forall|j: int| 0 <= j < t@.len() ==> #[trigger] names_view(t@)[j].0 == t@[j].0,
        decreases t@.len() - i,
    {
        if t[i].0 == k {
            proof {
                lemma_index_of_found(names_view(t@), i as int, k);
            }
            return Some(i);
        }
        i = i + 1;
    }
    proof {
        lemma_index_of_absent(names_view(t@), k);
    }
    None
}

/// Replaces the name-table entry at `j`.
fn names_set(t: &mut Vec<(u32, FoundUniform)>, j: usize, pair: (u32, FoundUniform))
    requires
        j < old(t)@.len(),
    ensures
        names_view(final(t)@) == names_view(old(t)@).update(j as int, (pair.0, pair.1@)),
{
    let ghost pv = (pair.0, pair.1@);
    t.remove(j);
    t.insert(j, pair);
    proof {
        assert(t@ =~= old(t)@.update(j as int, pair));
        assert(names_view(t@) =~= names_view(old(t)@).update(j as int, pv));
    }
}

/// Inserts or replaces the record for id `k`.
fn names_put(t: &mut Vec<(u32, FoundUniform)>, k: u32, v: FoundUniform)
    ensures
        names_view(final(t)@) == spec_put(names_view(old(t)@), k, v@),
{
    proof {
        lemma_index_of_props(names_view(old(t)@), k);
    }
    match names_find(t, k) {
        Some(j) => {
            names_set(t, j, (k, v));
        },
        None => {
            t.push((k, v));
            proof {
                assert(names_view(t@) =~= names_view(old(t)@).push((k, v@)));
            }
        },
    }
}

/// Pass 1: walks the type, constant and global-value instructions once, in
/// stream order, and builds the constant and type tables. Fails with
/// `UnsupportedType` exactly where the specification of the pass does.
fn pass1(tgv: &Vec<Instruction>) -> (r: Result<(IdMap<u32>, IdMap<ItemOrArrayType>), Error>)
    ensures
        r matches Ok(p) ==> p.0@ == spec_consts(tgv@) && spec_types(tgv@) == Some(p.1@),
        r matches Err(e) ==> spec_types(tgv@) is None && e == Error::UnsupportedType,
{
    let mut consts = IdMap::<u32>::new();
    let mut types = IdMap::<ItemOrArrayType>::new();
    let mut i: usize = 0;
    while i < tgv.len()
        invariant
            i <= tgv@.len(),
            consts@ == spec_consts(tgv@.take(i as int)),
            spec_types(tgv@.take(i as int)) == Some(types@),
        decreases tgv@.len() - i,
    {
        let ins = &tgv[i];
        proof {
            assert(tgv@.take(i + 1).drop_last() =~= tgv@.take(i as int));
            assert(tgv@.take(i + 1).last() == tgv@[i as int]);
        }
        let ghost consts_in = consts@;
        let ghost types_in = types@;
        match ins.opcode {
            Op::Constant => {
                if let Some(v) = ins.lit_at(0) {
                    consts.insert(ins.rid(), v);
                }
            },
            Op::TypeInt => {
                match ins.lit_at(0) {
                    Some(32) => {
                        match ins.lit_at(1) {
                            Some(0) => types.insert(ins.rid(), ItemOrArrayType::atom(AtomType::UInt)),
                            _ => types.insert(ins.rid(), ItemOrArrayType::atom(AtomType::Int)),
                        }
                    },
                    _ => {
                        proof {
                            assert(spec_types(tgv@.take(i + 1)) is None);
                            lemma_types_fail_persists(tgv@, i + 1);
                        }
                        return Err(Error::UnsupportedType);
                    },
                }
            },
            Op::TypeFloat => {
                match ins.lit_at(0) {
                    Some(32) => types.insert(ins.rid(), ItemOrArrayType::atom(AtomType::Float)),
                    Some(64) => types.insert(ins.rid(), ItemOrArrayType::atom(AtomType::Double)),
                    _ => {
                        proof {
                            assert(spec_types(tgv@.take(i + 1)) is None);
                            lemma_types_fail_persists(tgv@, i + 1);
                        }
                        return Err(Error::UnsupportedType);
                    },
                }
            },
            Op::TypeBool => {
                types.insert(ins.rid(), ItemOrArrayType::atom(AtomType::Bool));
            },
            Op::TypeVector => {
                match (ins.id_at(0), ins.lit_at(1)) {
                    (Some(tid), Some(comps)) => {
                        let element: Option<ItemOrArrayType> = match types.get(tid) {
                            Some(el) => Some(el.clone()),
                            None => None,
                        };
                        let mut ok = false;
                        match element {
                            Some(ItemOrArrayType::Item(GenericType::Atom(a))) => {
                                if 2 <= comps && comps <= 4 {
                                    types.insert(ins.rid(), ItemOrArrayType::vector(a, comps));
                                    ok = true;
                                }
                            },
                            _ => {},
                        }
                        if !ok {
                            proof {
                                assert(spec_types(tgv@.take(i + 1)) is None);
                                lemma_types_fail_persists(tgv@, i + 1);
                            }
                            return Err(Error::UnsupportedType);
                        }
                    },
                    _ => {},
                }
            },
            Op::TypeMatrix => {
                match (ins.id_at(0), ins.lit_at(1)) {
                    (Some(tid), Some(n)) => {
                        let element: Option<ItemOrArrayType> = match types.get(tid) {
                            Some(el) => Some(el.clone()),
                            None => None,
                        };
                        let mut ok = false;
                        match element {
                            Some(ItemOrArrayType::Item(GenericType::Vector(vt))) => {
                                if vt.base_type.is_float_type() && vt.components == n {
                                    types.insert(ins.rid(), ItemOrArrayType::matrix(vt.base_type, n));
                                    ok = true;
                                }
                            },
                            _ => {},
                        }
                        if !ok {
                            proof {
                                assert(spec_types(tgv@.take(i + 1)) is None);
                                lemma_types_fail_persists(tgv@, i + 1);
                            }
                            return Err(Error::UnsupportedType);
                        }
                    },
                    _ => {},
                }
            },
            Op::TypeArray => {
                match (ins.id_at(0), ins.id_at(1)) {
                    (Some(tid), Some(cid)) => {
                        let element: Option<ItemOrArrayType> = match types.get(tid) {
                            Some(el) => Some(el.clone()),
                            None => None,
                        };
                        if let Some(el) = element {
                            let size: Option<u32> = match consts.get(cid) {
                                Some(v) => Some(*v),
                                None => None,
                            };
                            match size {
                                Some(sz) if sz > 0 => {
                                    types.insert(ins.rid(), ItemOrArrayType::array(el, sz));
                                },
                                _ => {
                                    proof {
                                        assert(spec_types(tgv@.take(i + 1)) is None);
                                        lemma_types_fail_persists(tgv@, i + 1);
                                    }
                                    return Err(Error::UnsupportedType);
                                },
                            }
                        }
                    },
                    _ => {
                        proof {
                            assert(spec_types(tgv@.take(i + 1)) is None);
                            lemma_types_fail_persists(tgv@, i + 1);
                        }
                        return Err(Error::UnsupportedType);
                    },
                }
            },
            Op::TypeImage => {
                types.insert(ins.rid(), ItemOrArrayType::Image);
            },
            Op::TypeSampledImage => {
                types.insert(ins.rid(), ItemOrArrayType::Image);
            },
            _ => {},
        }
        proof {
            assert(consts@ == spec_consts(tgv@.take(i + 1)));
            assert(spec_types(tgv@.take(i + 1)) == Some(types@));
        }
        i = i + 1;
    }
    proof {
        assert(tgv@.take(tgv@.len() as int) =~= tgv@);
    }
    Ok((consts, types))
}

/// Pass 2, first half: collects id-to-name associations from the
/// debug-name instructions. An id with no name here stays invisible to the
/// later passes.
fn pass2_names(debugs: &Vec<Instruction>) -> (r: Vec<(u32, FoundUniform)>)
    ensures
        names_view(r@) == spec_names(debugs@),
{
    let mut t: Vec<(u32, FoundUniform)> = Vec::new();
    let mut i: usize = 0;
    proof {
        assert(names_view(t@) =~= spec_names(debugs@.take(0)));
    }
    while i < debugs.len()
        invariant
            i <= debugs@.len(),
            names_view(t@) == spec_names(debugs@.take(i as int)),
        decreases debugs@.len() - i,
    {
        let ins = &debugs[i];
        proof {
            assert(debugs@.take(i + 1).drop_last() =~= debugs@.take(i as int));
            assert(debugs@.take(i + 1).last() == debugs@[i as int]);
        }
        if matches!(ins.opcode, Op::Name) {
            match (ins.id_at(0), ins.str_at(1)) {
                (Some(id), Some(nm)) => {
                    let blank = FoundUniform {
                        name: nm.clone(),
                        location: 0,
                        binding: None,
                        ty: None,
                        location_name: String::new(),
                    };
                    proof {
                        assert(blank@ == spec_blank_uniform(nm@));
                    }
                    names_put(&mut t, id, blank);
                },
                _ => {},
            }
        }
        i = i + 1;
    }
    proof {
        assert(debugs@.take(debugs@.len() as int) =~= debugs@);
    }
    t
}

/// Pass 2, second half: applies Location and Binding decorations to the
/// named records. A decoration for an unnamed id fails the module rather
/// than silently placing a uniform at an unknown location.
fn pass2_decorate(t: &mut Vec<(u32, FoundUniform)>, anns: &Vec<Instruction>) -> (r: Result<
    (),
    Error,
>)
    ensures
        r matches Ok(_) ==> spec_decorations(names_view(old(t)@), anns@) == Some(
            names_view(final(t)@),
        ),
        r matches Err(e) ==> spec_decorations(names_view(old(t)@), anns@) is None && e
            == Error::UnsupportedType,
{
    let ghost t0 = names_view(old(t)@);
    let mut i: usize = 0;
    while i < anns.len()
        invariant
            i <= anns@.len(),
            t0 == names_view(old(t)@),
            spec_decorations(t0, anns@.take(i as int)) == Some(names_view(t@)),
        decreases anns@.len() - i,
    {
        let ins = &anns[i];
        proof {
            assert(anns@.take(i + 1).drop_last() =~= anns@.take(i as int));
            assert(anns@.take(i + 1).last() == anns@[i as int]);
        }
        if matches!(ins.opcode, Op::Decorate) {
            match ins.decoration_at(1) {
                Some(Decoration::Location) => {
                    match (ins.id_at(0), ins.lit_at(2)) {
                        (Some(id), Some(loc)) => {
                            proof {
                                lemma_index_of_props(names_view(t@), id);
                            }
                            match names_find(t, id) {
                                Some(j) => {
                                    let mut u = t[j].1.clone();
                                    u.location = loc;
                                    names_set(t, j, (id, u));
                                },
                                None => {
                                    proof {
                                        assert(spec_decorations(t0, anns@.take(i + 1)) is None);
                                        lemma_decorations_fail_persists(t0, anns@, i + 1);
                                    }
                                    return Err(Error::UnsupportedType);
                                },
                            }
                        },
                        _ => {},
                    }
                },
                Some(Decoration::Binding) => {
                    match (ins.id_at(0), ins.lit_at(2)) {
                        (Some(id), Some(b)) => {
                            proof {
                                lemma_index_of_props(names_view(t@), id);
                            }
                            match names_find(t, id) {
                                Some(j) => {
                                    let mut u = t[j].1.clone();
                                    u.binding = Some(#[verifier::truncate] (b as i32));
                                    names_set(t, j, (id, u));
                                },
                                None => {
                                    proof {
                                        assert(spec_decorations(t0, anns@.take(i + 1)) is None);
                                        lemma_decorations_fail_persists(t0, anns@, i + 1);
                                    }
                                    return Err(Error::UnsupportedType);
                                },
                            }
                        },
                        _ => {},
                    }
                },
                _ => {},
            }
        }
        proof {
            assert(spec_decorations(t0, anns@.take(i + 1)) == Some(names_view(t@)));
        }
        i = i + 1;
    }
    proof {
        assert(anns@.take(anns@.len() as int) =~= anns@);
    }
    Ok(())
}

/// Pass 3: builds the pointer table and resolves every uniform-constant
/// variable's pointee type, attaching it to the named record, or excluding
/// the uniform with a diagnostic when the pointee cannot be resolved.
fn pass3(
    t: &mut Vec<(u32, FoundUniform)>,
    types: &IdMap<ItemOrArrayType>,
    tgv: &Vec<Instruction>,
) -> (r: Result<Vec<String>, Error>)
    ensures
        r matches Ok(d) ==> spec_resolve(names_view(old(t)@), types@, tgv@) matches Some(st)
            && st.1 == names_view(final(t)@) && st.2 == diags_view(d@),
        r matches Err(e) ==> spec_resolve(names_view(old(t)@), types@, tgv@) is None && e
            == Error::UnsupportedType,
{
    let ghost t0 = names_view(old(t)@);
    let mut ptrs = IdMap::<u32>::new();
    let mut diags: Vec<String> = Vec::new();
    let mut i: usize = 0;
    proof {
        assert(diags_view(diags@) =~= Seq::<Seq<char>>::empty());
    }
    while i < tgv.len()
        invariant
            i <= tgv@.len(),
            t0 == names_view(old(t)@),
            spec_resolve(t0, types@, tgv@.take(i as int)) == Some(
                (ptrs@, names_view(t@), diags_view(diags@)),
            ),
        decreases tgv@.len() - i,
    {
        let ins = &tgv[i];
        proof {
            assert(tgv@.take(i + 1).drop_last() =~= tgv@.take(i as int));
            assert(tgv@.take(i + 1).last() == tgv@[i as int]);
        }
        match ins.opcode {
            Op::TypePointer => {
                match (ins.result_id, ins.id_at(1)) {
                    (Some(rid), Some(tid)) => {
                        ptrs.insert(rid, tid);
                    },
                    _ => {
                        proof {
                            assert(spec_resolve(t0, types@, tgv@.take(i + 1)) is None);
                            lemma_resolve_fail_persists(t0, types@, tgv@, i + 1);
                        }
                        return Err(Error::UnsupportedType);
                    },
                }
            },
            Op::Variable => {
                match ins.storage_at(0) {
                    Some(StorageClass::UniformConstant) => {
                        match ins.result_id {
                            None => {
                                proof {
                                    assert(spec_resolve(t0, types@, tgv@.take(i + 1)) is None);
                                    lemma_resolve_fail_persists(t0, types@, tgv@, i + 1);
                                }
                                return Err(Error::UnsupportedType);
                            },
                            Some(rid) => {
                                proof {
                                    lemma_index_of_props(names_view(t@), rid);
                                }
                                match names_find(t, rid) {
                                    None => {},
                                    Some(j) => {
                                        match ins.result_type {
                                            None => {
                                                proof {
                                                    assert(spec_resolve(
                                                        t0,
                                                        types@,
                                                        tgv@.take(i + 1),
                                                    ) is None);
                                                    lemma_resolve_fail_persists(
                                                        t0,
                                                        types@,
                                                        tgv@,
                                                        i + 1,
                                                    );
                                                }
                                                return Err(Error::UnsupportedType);
                                            },
                                            Some(tp) => {
                                                let pointee: Option<u32> = match ptrs.get(tp) {
                                                    Some(x) => Some(*x),
                                                    None => None,
                                                };
                                                let resolved: Option<ItemOrArrayType> = match pointee {
                                                    Some(tid) => match types.get(tid) {
                                                        Some(ty) => Some(ty.clone()),
                                                        None => None,
                                                    },
                                                    None => None,
                                                };
                                                match resolved {
                                                    Some(ty) => {
                                                        let mut u = t[j].1.clone();
                                                        u.ty = Some(ty);
                                                        let mut nm = u.name.clone();
                                                        nm.append("_location");
                                                        u.location_name = to_snake_case(
                                                            nm.as_str(),
                                                        );
                                                        names_set(t, j, (rid, u));
                                                    },
                                                    None => {
                                                        diags.push(t[j].1.name.clone());
                                                        proof {
                                                            assert(diags_view(diags@)
                                                                =~= diags_view(
                                                                diags@.drop_last(),
                                                            ).push(t@[j as int].1.name@));
                                                        }
                                                    },
                                                }
                                            },
                                        }
                                    },
                                }
                            },
                        }
                    },
                    _ => {},
                }
            },
            _ => {},
        }
        proof {
            assert(spec_resolve(t0, types@, tgv@.take(i + 1)) == Some(
                (ptrs@, names_view(t@), diags_view(diags@)),
            ));
        }
        i = i + 1;
    }
    proof {
        assert(tgv@.take(tgv@.len() as int) =~= tgv@);
    }
    Ok(diags)
}

/// Keeps the records that resolved to a type, in table order.
fn collect_resolved(t: &Vec<(u32, FoundUniform)>) -> (r: Vec<FoundUniform>)
    ensures
        uniforms_view(r@) == spec_resolved(names_view(t@)),
{
    let ghost pred = |u: FoundUniformV| u.ty is Some;
    let mut out: Vec<FoundUniform> = Vec::new();
    let mut i: usize = 0;
    proof {
        assert(names_view(t@.take(0)).map_values(|p: (u32, FoundUniformV)| p.1)
            =~= Seq::<FoundUniformV>::empty());
        assert(uniforms_view(out@) =~= spec_resolved(names_view(t@.take(0))));
    }
    while i < t.len()
        invariant
            i <= t@.len(),
            uniforms_view(out@) == spec_resolved(names_view(t@.take(i as int))),
        decreases t@.len() - i,
    {
        let ghost prev = names_view(t@.take(i as int)).map_values(
            |p: (u32, FoundUniformV)| p.1,
        );
        let ghost cur = names_view(t@.take(i + 1)).map_values(|p: (u32, FoundUniformV)| p.1);
        proof {
            assert(cur.drop_last() =~= prev);
            assert(cur.last() == t@[i as int].1@);
        }
        if t[i].1.ty.is_some() {
            out.push(t[i].1.clone());
            proof {
                assert(uniforms_view(out@) =~= uniforms_view(out@.drop_last()).push(
                    t@[i as int].1@,
                ));
                assert(spec_resolved(names_view(t@.take(i + 1))) == spec_resolved(
                    names_view(t@.take(i as int)),
                ).push(cur.last())) by {
                    reveal_with_fuel(Seq::<_>::filter, 2);
                    assert(cur.drop_last() == prev);
                }
            }
        } else {
            proof {
                assert(spec_resolved(names_view(t@.take(i + 1))) == spec_resolved(
                    names_view(t@.take(i as int)),
                )) by {
                    reveal_with_fuel(Seq::<_>::filter, 2);
                    assert(cur.drop_last() == prev);
                }
            }
        }
        proof {
            assert(uniforms_view(out@) == spec_resolved(names_view(t@.take(i + 1))));
        }
        i = i + 1;
    }
    proof {
        assert(t@.take(t@.len() as int) =~= t@);
    }
    out
}

/// Inserts a record before the first one whose location is not below its
/// own, keeping equal locations in their existing order.
fn insert_by_location(u: FoundUniform, s: Vec<FoundUniform>) -> (r: Vec<FoundUniform>)
    ensures
        uniforms_view(r@) == spec_insert_by_location(u@, uniforms_view(s@)),
    decreases s@.len(),
{
    let ghost sv = uniforms_view(s@);
    if s.len() == 0 {
        let mut r: Vec<FoundUniform> = Vec::new();
        r.push(u);
        proof {
            assert(uniforms_view(r@) =~= spec_insert_by_location(u@, sv));
        }
        r
    } else if s[0].location < u.location {
        let mut rest = s;
        let h = rest.remove(0);
        proof {
            assert(uniforms_view(rest@) =~= sv.drop_first());
        }
        let mut r = insert_by_location(u, rest);
        r.insert(0, h);
        proof {
            assert(uniforms_view(r@) =~= seq![sv[0]] + spec_insert_by_location(
                u@,
                sv.drop_first(),
            ));
        }
        r
    } else {
        let mut r = s;
        r.insert(0, u);
        proof {
            assert(uniforms_view(r@) =~= seq![u@] + sv);
        }
        r
    }
}

/// Stable insertion sort of the descriptor list, ascending by location.
fn sort_by_location(v: Vec<FoundUniform>) -> (r: Vec<FoundUniform>)
    ensures
        uniforms_view(r@) == spec_sort_by_location(uniforms_view(v@)),
    decreases v@.len(),
{
    let ghost vv = uniforms_view(v@);
    if v.len() == 0 {
        proof {
            assert(uniforms_view(v@) =~= spec_sort_by_location(vv));
        }
        v
    } else {
        let mut rest = v;
        let h = rest.remove(0);
        proof {
            assert(uniforms_view(rest@) =~= vv.drop_first());
            assert(h@ == vv[0]);
        }
        let sorted = sort_by_location(rest);
        insert_by_location(h, sorted)
    }
}

/// What reflection hands back on success: the sorted descriptor list and
/// the names of the uniforms that were excluded as unresolvable.
#[derive(Debug)]
pub struct Reflection {
    pub uniforms: Vec<FoundUniform>,
    pub diagnostics: Vec<String>,
}

/// Reflects a decoded module into its uniform descriptors.
pub fn reflect_module(module: &SpirvModule) -> (r: Result<Reflection, Error>)
    ensures
        r matches Ok(refl) ==> spec_reflect(*module) matches Some(p) && uniforms_view(
            refl.uniforms@,
        ) == p.0 && diags_view(refl.diagnostics@) == p.1 && spec_sorted_by_location(
            uniforms_view(refl.uniforms@),
        ),
        r matches Err(e) ==> spec_reflect(*module) is None && e == Error::UnsupportedType,
{
    let (consts, types) = match pass1(&module.types_global_values) {
        Ok(p) => p,
        Err(e) => {
            return Err(e);
        },
    };
    let mut named = pass2_names(&module.debugs);
    match pass2_decorate(&mut named, &module.annotations) {
        Ok(_) => {},
        Err(e) => {
            return Err(e);
        },
    }
    let diagnostics = match pass3(&mut named, &types, &module.types_global_values) {
        Ok(d) => d,
        Err(e) => {
            return Err(e);
        },
    };
    let resolved = collect_resolved(&named);
    let uniforms = sort_by_location(resolved);
    proof {
        lemma_sort_by_location_permutes(spec_resolved(names_view(named@)));
    }
    Ok(Reflection { uniforms, diagnostics })
}

/// The reflection backend over decoded binary modules.
#[derive(Debug)]
pub struct SpirVBackend {}

impl SpirVBackend {
    /// A fresh backend; reflection holds no state across calls.
    pub fn new() -> (r: Self)
        ensures
            r == (SpirVBackend {  }),
    {
        SpirVBackend {  }
    }

    /// Reflects a module into its sorted uniform descriptor list, dropping
    /// the diagnostics.
    pub fn find_uniforms(&self, module: &SpirvModule) -> (r: Result<Vec<FoundUniform>, Error>)
        ensures
            r matches Ok(v) ==> spec_reflect(*module) matches Some(p) && uniforms_view(v@) == p.0
                && spec_sorted_by_location(uniforms_view(v@)),
            r matches Err(e) ==> spec_reflect(*module) is None && e == Error::UnsupportedType,
    {
        match reflect_module(module) {
            Ok(refl) => Ok(refl.uniforms),
            Err(e) => Err(e),
        }
    }

    /// Reflects a module, keeping the diagnostics beside the descriptors.
    pub fn reflect(&self, module: &SpirvModule) -> (r: Result<Reflection, Error>)
        ensures
            r matches Ok(refl) ==> spec_reflect(*module) matches Some(p) && uniforms_view(
                refl.uniforms@,
            ) == p.0 && diags_view(refl.diagnostics@) == p.1,
            r matches Err(e) ==> spec_reflect(*module) is None && e == Error::UnsupportedType,
    {
        reflect_module(module)
    }
}

impl Default for SpirVBackend {
    /// Same as `new`.
    fn default() -> (r: Self)
        ensures
            r == (SpirVBackend {  }),
    {
        SpirVBackend {  }
    }
}

/// A record's type slot is either still unset or a well-formed type.
pub open spec fn spec_ty_slot_ok(u: FoundUniformV) -> bool {
    match u.ty {
        None => true,
        Some(t) => t.wf(),
    }
}

/// Every type the first pass records is well formed: the pass rejects
/// everything the algebra cannot represent.
proof fn lemma_types_wf(s: Seq<Instruction>)
    ensures
        spec_types(s) matches Some(m) ==> forall|k: u32|
            m.contains_key(k) ==> (#[trigger] m[k]).wf(),
    decreases s.len(),
{
    if s.len() > 0 {
        lemma_types_wf(s.drop_last());
    }
}

/// The name pass starts every record with its type slot unset.
proof fn lemma_names_ty_ok(s: Seq<Instruction>)
    ensures
        forall|i: int|
            0 <= i < spec_names(s).len() ==> spec_ty_slot_ok(#[trigger] spec_names(s)[i].1),
    decreases s.len(),
{
    if s.len() > 0 {
        lemma_names_ty_ok(s.drop_last());
        let t = spec_names(s.drop_last());
        let i = s.last();
        if i.opcode == Op::Name {
            match (i.spec_id_at(0), i.spec_str_at(1)) {
                (Some(id), Some(nm)) => {
                    lemma_index_of_props(t, id);
                },
                _ => {},
            }
        }
    }
}

/// The decoration pass never touches a record's type slot.
proof fn lemma_decorations_ty_ok(t0: Seq<(u32, FoundUniformV)>, s: Seq<Instruction>)
    requires
        forall|i: int| 0 <= i < t0.len() ==> spec_ty_slot_ok(#[trigger] t0[i].1),
    ensures
        spec_decorations(t0, s) matches Some(t1) ==> forall|i: int|
            0 <= i < t1.len() ==> spec_ty_slot_ok(#[trigger] t1[i].1),
    decreases s.len(),
{
    if s.len() > 0 {
        lemma_decorations_ty_ok(t0, s.drop_last());
        match spec_decorations(t0, s.drop_last()) {
            Some(t) => {
                let i = s.last();
                if i.opcode == Op::Decorate {
                    match (i.spec_id_at(0), i.spec_lit_at(2)) {
                        (Some(id), Some(_)) => {
                            lemma_index_of_props(t, id);
                        },
                        _ => {},
                    }
                }
            },
            None => {},
        }
    }
}

/// The resolution pass only ever fills a type slot with a type out of the
/// (well-formed) type table.
proof fn lemma_resolve_ty_ok(
    t0: Seq<(u32, FoundUniformV)>,
    types: Map<u32, ItemOrArrayType>,
    s: Seq<Instruction>,
)
    requires
        forall|i: int| 0 <= i < t0.len() ==> spec_ty_slot_ok(#[trigger] t0[i].1),
        forall|k: u32| types.contains_key(k) ==> (#[trigger] types[k]).wf(),
    ensures
        spec_resolve(t0, types, s) matches Some(st) ==> forall|i: int|
            0 <= i < st.1.len() ==> spec_ty_slot_ok(#[trigger] st.1[i].1),
    decreases s.len(),
{
    if s.len() > 0 {
        lemma_resolve_ty_ok(t0, types, s.drop_last());
        match spec_resolve(t0, types, s.drop_last()) {
            Some(st) => {
                let i = s.last();
                if i.opcode == Op::Variable {
                    match i.result_id {
                        Some(rid) => {
                            lemma_index_of_props(st.1, rid);
                        },
                        None => {},
                    }
                }
            },
            None => {},
        }
    }
}

/// Every record of a filtered sequence occurs in the sequence it was
/// filtered from.
proof fn lemma_filter_elements(s: Seq<FoundUniformV>, pred: spec_fn(FoundUniformV) -> bool)
    ensures
        forall|i: int|
            0 <= i < s.filter(pred).len() ==> s.contains(#[trigger] s.filter(pred)[i]),
    decreases s.len(),
{
    reveal(Seq::filter);
    if s.len() > 0 {
        lemma_filter_elements(s.drop_last(), pred);
        let out = s.filter(pred);
        let sub = s.drop_last().filter(pred);
        assert forall|i: int| 0 <= i < out.len() implies s.contains(out[i]) by {
            if i < sub.len() {
                assert(sub[i] == out[i]);
                assert(s.drop_last().contains(sub[i]));
                let j = choose|j: int|
                    0 <= j < s.drop_last().len() && s.drop_last()[j] == sub[i];
                assert(s[j] == out[i]);
            } else {
                assert(out[i] == s.last());
                assert(s[s.len() - 1] == out[i]);
            }
        }
    }
}

/// What reflection returns is ready for generation: every descriptor's type
/// is resolved and well formed.
pub proof fn lemma_reflect_generatable(m: SpirvModule)
    ensures
        spec_reflect(m) matches Some(p) ==> forall|i: int|
            0 <= i < p.0.len() ==> ((#[trigger] p.0[i].ty) matches Some(t) && t.wf()),
{
    broadcast use vstd::seq_lib::group_to_multiset_ensures;

    match spec_reflect(m) {
        Some(p) => {
            lemma_types_wf(m.types_global_values@);
            lemma_names_ty_ok(m.debugs@);
            let named = spec_names(m.debugs@);
            match spec_decorations(named, m.annotations@) {
                Some(decorated) => {
                    lemma_decorations_ty_ok(named, m.annotations@);
                    match spec_types(m.types_global_values@) {
                        Some(types) => {
                            lemma_resolve_ty_ok(decorated, types, m.types_global_values@);
                            match spec_resolve(decorated, types, m.types_global_values@) {
                                Some(st) => {
                                    let resolved = spec_resolved(st.1);
                                    // Filtered records are resolved and keep their slots.
                                    let mapped = st.1.map_values(|q: (u32, FoundUniformV)| q.1);
                                    lemma_filter_elements(mapped, |u: FoundUniformV| u.ty is Some);
                                    assert forall|i: int| 0 <= i < resolved.len() implies ((
                                    #[trigger] resolved[i].ty) matches Some(t) && t.wf()) by {
                                        mapped.lemma_filter_pred(
                                            |u: FoundUniformV| u.ty is Some,
                                            i,
                                        );
                                        let x = resolved[i];
                                        assert(mapped.contains(x));
                                        let j = choose|j: int|
                                            0 <= j < mapped.len() && mapped[j] == x;
                                        assert(mapped[j] == st.1[j].1);
                                        assert(spec_ty_slot_ok(st.1[j].1));
                                    }
                                    // Sorting permutes, so membership carries over.
                                    lemma_sort_by_location_permutes(resolved);
                                    let sorted = spec_sort_by_location(resolved);
                                    assert forall|i: int| 0 <= i < sorted.len() implies ((
                                    #[trigger] sorted[i].ty) matches Some(t) && t.wf()) by {
                                        let x = sorted[i];
                                        assert(sorted.contains(x));
                                        assert(sorted.to_multiset().contains(x));
                                        assert(resolved.to_multiset().contains(x));
                                        assert(resolved.contains(x));
                                        let j = choose|j: int|
                                            0 <= j < resolved.len() && resolved[j] == x;
                                        assert((resolved[j].ty matches Some(t) && t.wf()));
                                    }
                                },
                                None => {},
                            }
                        },
                        None => {},
                    }
                },
                None => {},
            }
        },
        None => {},
    }
}

/// An unresolvable uniform is excluded, never fatal: when a uniform-constant
/// variable's pointer type does not resolve through the pointer and type
/// tables, the resolution step still succeeds, leaves the pointer table and
/// every name record unchanged, and appends the uniform's declared name as a
/// diagnostic. Other uniforms are untouched by this step, so a module with
/// one unresolvable uniform still reflects, smaller by that one record.
pub proof fn lemma_unresolved_uniform_is_excluded(
    st: (Map<u32, u32>, Seq<(u32, FoundUniformV)>, Seq<Seq<char>>),
    types: Map<u32, ItemOrArrayType>,
    i: Instruction,
    rid: u32,
    tp: u32,
)
    requires
        i.opcode == Op::Variable,
        i.spec_storage_at(0) == Some(StorageClass::UniformConstant),
        i.result_id == Some(rid),
        spec_contains_key(st.1, rid),
        i.result_type == Some(tp),
        !(st.0.contains_key(tp) && types.contains_key(st.0[tp])),
    ensures
        spec_resolve_step(st, types, i) == Some(
            (st.0, st.1, st.2.push(st.1[spec_index_of(st.1, rid)].1.name)),
        ),
{
    lemma_index_of_props(st.1, rid);
}

/// Sorting by location is stable: the records at any one location come out
/// exactly as they went in, same order, same values.
pub proof fn lemma_sort_by_location_stable(s: Seq<FoundUniformV>, loc: u32)
    ensures
        spec_with_location(spec_sort_by_location(s), loc) == spec_with_location(s, loc),
    decreases s.len(),
{
    broadcast use vstd::seq_lib::group_seq_properties;

    let pred = |x: FoundUniformV| x.location == loc;
    if s.len() == 0 {
        assert(spec_sort_by_location(s).filter(pred) =~= s.filter(pred));
    } else {
        let d = s.drop_first();
        lemma_sort_by_location_stable(d, loc);
        lemma_insert_by_location_filter(s[0], spec_sort_by_location(d), loc);
        lemma_filter_singleton(s[0], pred);
        assert(s =~= seq![s[0]] + d);
        Seq::filter_distributes_over_add(seq![s[0]], d, pred);
    }
}

} // verus!
