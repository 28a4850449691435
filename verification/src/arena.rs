//! The handle maps that own the editor's windows, buffers and selections.
//!
//! A handle map hands out a handle for each value put into it; the handle
//! finds the value again for as long as the map holds it. What a map holds is
//! stated as a mathematical map from handles to values.

use crate::buffer::BufferData;
use crate::location::Selection;
use crate::state::WindowData;
use handy::typed::{TypedHandle, TypedHandleMap};
use vstd::prelude::*;

verus! {

/// `handy::typed::TypedHandleMap`, a handle map. What it holds is read
/// through [`selection_entries`], [`window_entries`] and [`buffer_entries`].
#[verifier::external_type_specification]
#[verifier::external_body]
#[verifier::reject_recursive_types(T)]
pub struct ExTypedHandleMap<T>(TypedHandleMap<T>);

/// `handy::typed::TypedHandle`, the handle of a value in a handle map.
#[verifier::external_type_specification]
#[verifier::external_body]
#[verifier::reject_recursive_types(T)]
pub struct ExTypedHandle<T>(TypedHandle<T>);

/// The handle of a window.
pub type WindowId = TypedHandle<WindowData>;

/// The handle of a buffer.
pub type BufferId = TypedHandle<BufferData>;

/// The handle of a selection.
pub type SelectionId = TypedHandle<Selection>;

/// A handle map takes a new value while it holds fewer than this many.
pub const MAX_ENTRIES: usize = 0x4000_0000;

/// The selections a map holds, by their handles.
pub uninterp spec fn selection_entries(map: TypedHandleMap<Selection>) -> Map<
    TypedHandle<Selection>,
    Selection,
>;

/// The handles of the selections a map holds, in the order in which the map
/// is walked.
pub uninterp spec fn selection_order(map: TypedHandleMap<Selection>) -> Seq<
    TypedHandle<Selection>,
>;

/// The windows a map holds, by their handles.
pub uninterp spec fn window_entries(map: TypedHandleMap<WindowData>) -> Map<
    TypedHandle<WindowData>,
    WindowData,
>;

/// The buffers a map holds, by their handles.
pub uninterp spec fn buffer_entries(map: TypedHandleMap<BufferData>) -> Map<
    TypedHandle<BufferData>,
    BufferData,
>;

/// Whether a map is the empty map.
pub open spec fn holds_nothing<K, V>(entries: Map<K, V>) -> bool {
    entries == Map::<K, V>::empty()
}

/// Whether `order` lists each handle of `handles` once and no other.
pub open spec fn lists<T>(order: Seq<TypedHandle<T>>, handles: Set<TypedHandle<T>>) -> bool {
    order.no_duplicates() && forall|h: TypedHandle<T>| order.contains(h) <==> handles.contains(h)
}

/// `TypedHandleMap::new`: a map that holds nothing.
#[verifier::external_body]
pub(crate) fn new_selections() -> (fresh: TypedHandleMap<Selection>)
    ensures
        holds_nothing(selection_entries(fresh)),
{
    TypedHandleMap::new()
}

/// `TypedHandleMap::insert`: puts a value in and returns its handle, which
/// the map did not hold before. The values it held stay under their handles,
/// and a walk of the map meets each handle it holds once.
#[verifier::external_body]
pub(crate) fn add_selection(map: &mut TypedHandleMap<Selection>, value: Selection) -> (id:
    SelectionId)
    requires
        selection_entries(*old(map)).dom().finite(),
        selection_entries(*old(map)).dom().len() < MAX_ENTRIES,
    ensures
        !selection_entries(*old(map)).dom().contains(id),
        selection_entries(*final(map)) == selection_entries(*old(map)).insert(id, value),
        lists(selection_order(*final(map)), selection_entries(*final(map)).dom()),
{
    map.insert(value)
}

/// `IndexMut` of `TypedHandleMap`: the value under a handle that the map
/// holds, to be changed in place. Nothing else in the map changes, nor the
/// order in which the map is walked.
#[verifier::external_body]
pub(crate) fn selection_mut(map: &mut TypedHandleMap<Selection>, id: SelectionId) -> (value:
    &mut Selection)
    requires
        selection_entries(*old(map)).dom().contains(id),
    ensures
        *value == selection_entries(*old(map))[id],
        selection_entries(*final(map)) == selection_entries(*old(map)).insert(id, *final(value)),
        selection_order(*final(map)) == selection_order(*old(map)),
{
    &mut map[id]
}

/// `Index` of `TypedHandleMap`: the value under a handle that the map holds.
#[verifier::external_body]
pub(crate) fn selection_ref(map: &TypedHandleMap<Selection>, id: SelectionId) -> (value:
    &Selection)
    requires
        selection_entries(*map).dom().contains(id),
    ensures
        *value == selection_entries(*map)[id],
{
    &map[id]
}

/// `TypedHandleMap::iter_with_handles`: the handles of the values the map
/// holds, each once, in the order in which the map is walked.
#[verifier::external_body]
pub(crate) fn selection_ids(map: &TypedHandleMap<Selection>) -> (ids: Vec<SelectionId>)
    ensures
        ids@ == selection_order(*map),
        lists(ids@, selection_entries(*map).dom()),
{
    map.iter_with_handles().map(|(id, _)| id).collect()
}

/// `TypedHandleMap::new`: a map that holds nothing.
#[verifier::external_body]
pub(crate) fn new_windows() -> (fresh: TypedHandleMap<WindowData>)
    ensures
        holds_nothing(window_entries(fresh)),
{
    TypedHandleMap::new()
}

/// `TypedHandleMap::insert`: puts a value in and returns its handle, which
/// the map did not hold before. The values it held stay under their handles.
#[verifier::external_body]
pub(crate) fn add_window(map: &mut TypedHandleMap<WindowData>, value: WindowData) -> (id:
    WindowId)
    requires
        window_entries(*old(map)).dom().finite(),
        window_entries(*old(map)).dom().len() < MAX_ENTRIES,
    ensures
        !window_entries(*old(map)).dom().contains(id),
        window_entries(*final(map)) == window_entries(*old(map)).insert(id, value),
{
    map.insert(value)
}

/// `IndexMut` of `TypedHandleMap`: the value under a handle that the map
/// holds, to be changed in place. Nothing else in the map changes.
#[verifier::external_body]
pub(crate) fn window_mut(map: &mut TypedHandleMap<WindowData>, id: WindowId) -> (value:
    &mut WindowData)
    requires
        window_entries(*old(map)).dom().contains(id),
    ensures
        *value == window_entries(*old(map))[id],
        window_entries(*final(map)) == window_entries(*old(map)).insert(id, *final(value)),
{
    &mut map[id]
}

/// `Index` of `TypedHandleMap`: the value under a handle that the map holds.
#[verifier::external_body]
pub(crate) fn window_ref(map: &TypedHandleMap<WindowData>, id: WindowId) -> (value: &WindowData)
    requires
        window_entries(*map).dom().contains(id),
    ensures
        *value == window_entries(*map)[id],
{
    &map[id]
}

/// `TypedHandleMap::iter_with_handles`: the handles of the values the map
/// holds, each once.
#[verifier::external_body]
pub(crate) fn window_ids(map: &TypedHandleMap<WindowData>) -> (ids: Vec<WindowId>)
    ensures
        lists(ids@, window_entries(*map).dom()),
{
    map.iter_with_handles().map(|(id, _)| id).collect()
}

/// `TypedHandleMap::new`: a map that holds nothing.
#[verifier::external_body]
pub(crate) fn new_buffers() -> (fresh: TypedHandleMap<BufferData>)
    ensures
        holds_nothing(buffer_entries(fresh)),
{
    TypedHandleMap::new()
}

/// `TypedHandleMap::insert`: puts a value in and returns its handle, which
/// the map did not hold before. The values it held stay under their handles.
#[verifier::external_body]
pub(crate) fn add_buffer(map: &mut TypedHandleMap<BufferData>, value: BufferData) -> (id:
    BufferId)
    requires
        buffer_entries(*old(map)).dom().finite(),
        buffer_entries(*old(map)).dom().len() < MAX_ENTRIES,
    ensures
        !buffer_entries(*old(map)).dom().contains(id),
        buffer_entries(*final(map)) == buffer_entries(*old(map)).insert(id, value),
{
    map.insert(value)
}

/// `IndexMut` of `TypedHandleMap`: the value under a handle that the map
/// holds, to be changed in place. Nothing else in the map changes.
#[verifier::external_body]
pub(crate) fn buffer_mut(map: &mut TypedHandleMap<BufferData>, id: BufferId) -> (value:
    &mut BufferData)
    requires
        buffer_entries(*old(map)).dom().contains(id),
    ensures
        *value == buffer_entries(*old(map))[id],
        buffer_entries(*final(map)) == buffer_entries(*old(map)).insert(id, *final(value)),
{
    &mut map[id]
}

/// `Index` of `TypedHandleMap`: the value under a handle that the map holds.
#[verifier::external_body]
pub(crate) fn buffer_ref(map: &TypedHandleMap<BufferData>, id: BufferId) -> (value: &BufferData)
    requires
        buffer_entries(*map).dom().contains(id),
    ensures
        *value == buffer_entries(*map)[id],
{
    &map[id]
}

/// `PartialEq` of `TypedHandle`: two handles are equal when they are the same
/// handle.
#[verifier::external_body]
pub(crate) fn same_buffer(a: BufferId, b: BufferId) -> (same: bool)
    ensures
        same == (a == b),
{
    a == b
}

} // verus!
