//! The fixed-capacity lists in which shapes travel to the renderer.
//!
//! The lists are `heapless::Vec`s. Verus cannot look inside one, so what a
//! list holds has a name here, and each method the game calls is reached
//! through a function whose contract says what the method does to that
//! content. Those contracts are trusted, not proved.

use vstd::prelude::*;
use crate::game::game_objects::ScreenObject;

verus! {

/// Makes `heapless::Vec` known to the verifier, as a type it cannot look
/// into.
#[verifier::external_type_specification]
#[verifier::external_body]
#[verifier::reject_recursive_types(T)]
#[verifier::reject_recursive_types(N)]
pub struct ExHeaplessVec<T, const N: usize>(heapless::Vec<T, N>);

/// The shapes that the two-slot list of a single object holds, in the order
/// in which they were pushed.
pub uninterp spec fn object_shapes(list: heapless::Vec<ScreenObject, 2>) -> Seq<ScreenObject>;

/// The shapes that the eight-slot list of a frame holds, in the order in
/// which they were appended.
pub uninterp spec fn frame_shapes(list: heapless::Vec<ScreenObject, 8>) -> Seq<ScreenObject>;

/// `heapless::Vec::new` for the list of a single object.
///
/// Trusted: the new list is empty.
#[verifier::external_body]
pub(crate) fn new_object_shapes() -> (list: heapless::Vec<ScreenObject, 2>)
    ensures
        object_shapes(list) == Seq::<ScreenObject>::empty(),
{
    heapless::Vec::new()
}

/// `heapless::Vec::push` on the list of a single object.
///
/// Trusted: while fewer than two shapes are held, the shape is appended and
/// `Ok` returned; on a full list nothing changes and the shape comes back in
/// `Err`.
#[verifier::external_body]
pub(crate) fn push_object_shape(
    list: &mut heapless::Vec<ScreenObject, 2>,
    shape: ScreenObject,
) -> (outcome: Result<(), ScreenObject>)
    ensures
        outcome is Ok <==> object_shapes(*old(list)).len() < 2,
        outcome is Ok ==> object_shapes(*final(list)) == object_shapes(*old(list)).push(shape),
        outcome matches Err(back) ==> back == shape && object_shapes(*final(list))
            == object_shapes(*old(list)),
{
    list.push(shape)
}

/// `heapless::Vec::new` for the list of a frame.
///
/// Trusted: the new list is empty.
#[verifier::external_body]
pub(crate) fn new_frame_shapes() -> (list: heapless::Vec<ScreenObject, 8>)
    ensures
        frame_shapes(list) == Seq::<ScreenObject>::empty(),
{
    heapless::Vec::new()
}

/// `heapless::Vec::extend` on the list of a frame, fed with copies of the
/// shapes of one object.
///
/// Trusted: the shapes are appended in their order. That method panics when
/// the list cannot take them all, so the shapes must fit in the eight slots.
#[verifier::external_body]
pub(crate) fn extend_frame_shapes(
    list: &mut heapless::Vec<ScreenObject, 8>,
    shapes: &heapless::Vec<ScreenObject, 2>,
)
    requires
        frame_shapes(*old(list)).len() + object_shapes(*shapes).len() <= 8,
    ensures
        frame_shapes(*final(list)) == frame_shapes(*old(list)) + object_shapes(*shapes),
{
    list.extend(shapes.iter().cloned())
}

} // verus!
