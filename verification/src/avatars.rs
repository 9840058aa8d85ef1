//! Image handles for the avatars of the creators.

use iced_native::image::Handle;
use vstd::prelude::*;

verus! {

/// The image handle of iced_native, taken as it is: a value to make, to copy
/// and to pass on, of whose inside nothing is known here.
#[verifier::external_type_specification]
#[verifier::external_body]
pub struct ExHandle(iced_native::image::Handle);

/// The encoded image that a handle made from memory holds.
pub uninterp spec fn handle_bytes(handle: Handle) -> Seq<u8>;

/// Calls `Handle::from_memory` of iced_native. Trusted: the handle that comes
/// back holds the bytes handed in, unchanged.
#[verifier::external_body]
fn handle_from_memory(bytes: Vec<u8>) -> (handle: Handle)
    ensures
        handle_bytes(handle) == bytes@,
{
    Handle::from_memory(bytes)
}

/// Calls `clone` of iced_native's `Handle`. Trusted: the copy is the handle
/// itself, with the same identifier and the same image behind it.
#[verifier::external_body]
pub(crate) fn clone_handle(handle: &Handle) -> (copy: Handle)
    ensures
        copy == *handle,
{
    handle.clone()
}

/// Makes an image handle of each avatar, in order. `fetched` holds for each
/// avatar link the bytes that were read from it, or `None` where nothing could
/// be read. Gives the place of the first avatar of which nothing was read, if
/// there is one.
pub fn get_all_avatars(fetched: Vec<Option<Vec<u8>>>) -> (r: Result<Vec<Handle>, usize>)
    ensures
        r is Ok <==> forall|i: int| 0 <= i < fetched@.len() ==> fetched@[i] is Some,
        r matches Ok(out_handles) ==> {
            &&& out_handles@.len() == fetched@.len()
            &&& forall|i: int|
                0 <= i < fetched@.len() ==> handle_bytes(#[trigger] out_handles@[i])
                    == fetched@[i]->0@
        },
        r matches Err(at) ==> {
            &&& at < fetched@.len()
            &&& fetched@[at as int] is None
            &&& forall|i: int| 0 <= i < at ==> fetched@[i] is Some
        },
{
    let mut out_handles: Vec<Handle> = Vec::new();
    let ghost all: Seq<Option<Vec<u8>>> = fetched@;
    for img_bytes in it: fetched
        invariant
            it.seq() == all,
            out_handles@.len() == it.index(),
            forall|i: int| 0 <= i < it.index() ==> all[i] is Some,
            forall|i: int|
                0 <= i < it.index() ==> handle_bytes(#[trigger] out_handles@[i]) == all[i]->0@,
    {
        match img_bytes {
            Some(bytes) => {
                out_handles.push(handle_from_memory(bytes));
            },
            None => {
                return Err(out_handles.len());
            },
        }
    }
    Ok(out_handles)
}

} // verus!
