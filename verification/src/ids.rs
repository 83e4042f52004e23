//! Identifiers of surface elements and the pools they are drawn from.
//!
//! The surface allocates every identifier ahead of time. The renderers never
//! create one: they receive single identifiers by value and pick the others
//! from pools by position.

use vstd::prelude::*;

verus! {

/// Identifier of one element of the drawing surface: the index of its node in
/// the surface's widget graph.
#[derive(Clone, Copy, Debug, PartialEq, Eq, Structural)]
pub struct WidgetId {
    pub index: usize,
}

/// The five identifiers of a telemetry tile: parent, tile, title, value, unit.
pub type WidgetIds = (WidgetId, WidgetId, WidgetId, WidgetId, WidgetId);

impl WidgetId {
    pub fn new(index: usize) -> (id: WidgetId)
        ensures
            id.index == index,
    {
        WidgetId { index }
    }
}

/// `daggy::NodeIndex`, the type behind `conrod_core::widget::Id`. It is only
/// named here because the pool type below dereferences to a slice of it.
#[verifier::external_type_specification]
#[verifier::external_body]
#[verifier::reject_recursive_types(Ix)]
pub struct ExNodeIndex<Ix>(daggy::NodeIndex<Ix>);

/// `conrod_core::widget::id::List`, an ordered pool of widget identifiers.
/// Verus sees nothing inside it; `pool_ids` names what it holds.
#[verifier::external_type_specification]
#[verifier::external_body]
pub struct ExList(conrod_core::widget::id::List);

/// The node indices of the identifiers that a pool holds, in pool order.
pub uninterp spec fn pool_ids(pool: conrod_core::widget::id::List) -> Seq<usize>;

/// The identifier at position `index` of a pool.
pub open spec fn pool_id(pool: conrod_core::widget::id::List, index: int) -> WidgetId {
    WidgetId { index: pool_ids(pool)[index] }
}

/// Length of a `conrod_core::widget::id::List`, read through its `Deref` to a
/// slice of identifiers: the number of identifiers that the pool holds.
#[verifier::external_body]
pub(crate) fn pool_len(pool: &conrod_core::widget::id::List) -> (len: usize)
    ensures
        len == pool_ids(*pool).len(),
{
    pool.len()
}

/// Indexes a `conrod_core::widget::id::List` through its `Deref` to a slice
/// and reads the node index of the identifier found there with
/// `NodeIndex::index`. The slice index panics past the end, so the position
/// must lie inside the pool.
#[verifier::external_body]
pub(crate) fn pool_get(pool: &conrod_core::widget::id::List, index: usize) -> (id: WidgetId)
    requires
        index < pool_ids(*pool).len(),
    ensures
        id == pool_id(*pool, index as int),
{
    WidgetId { index: pool[index].index() }
}

} // verus!
