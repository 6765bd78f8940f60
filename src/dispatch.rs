use crate::codec::{
    decimal_of, decode_handle, encode_handle, handle_of, is_handle_text, lemma_decode_encode,
};
use crate::error::{translate, BridgeError};
use crate::registry::{HandleIdAllocator, HandleRegistry};
use vstd::prelude::*;

verus! {

/// Registers a new engine under a fresh id from `ids` and returns the
/// handle as decimal text.
pub fn register<T>(reg: &mut HandleRegistry<T>, ids: &mut HandleIdAllocator, engine: T) -> (r:
    String)
    requires
        old(reg).wf_under(*old(ids)),
        old(ids).issued() < u64::MAX,
    ensures
        final(reg).wf_under(*final(ids)),
        is_handle_text(r@),
        r@ == decimal_of(old(ids).issued()),
        handle_of(r@) == old(ids).issued(),
        final(ids).issued() == old(ids).issued() + 1,
        !old(reg)@.contains_key(old(ids).issued() as u64),
        final(reg)@ == old(reg)@.insert(old(ids).issued() as u64, engine),
{
    let id = reg.insert(ids, engine);
    proof {
        lemma_decode_encode(id);
    }
    encode_handle(id)
}

/// What an engine's own outcome becomes at the boundary: its failure detail
/// is carried as `EngineError`.
pub fn engine_outcome<R>(outcome: Result<R, String>) -> (r: Result<R, BridgeError>)
    ensures
        outcome matches Ok(v) ==> r == Ok::<R, BridgeError>(v),
        outcome matches Err(d) ==> r == Err::<R, BridgeError>(BridgeError::EngineError(d)),
{
    match outcome {
        Ok(v) => Ok(v),
        Err(detail) => Err(BridgeError::EngineError(detail)),
    }
}

/// Runs one engine operation on the entry that `handle` names.
///
/// The handle text is decoded first (`MalformedHandle` if it names no id),
/// then the entry is looked up (`InvalidHandle` if it is not live), then `op`
/// runs with the entry held exclusively. A failure that `op` reports comes
/// back as `EngineError` with its detail; the entry stays live either way.
pub fn dispatch<T, F, R>(reg: &mut HandleRegistry<T>, handle: &str, op: F) -> (r: Result<
    R,
    BridgeError,
>)
    where
        F: FnOnce(T) -> (T, Result<R, String>),
    requires
        is_handle_text(handle@) && old(reg)@.contains_key(handle_of(handle@) as u64) ==> op.requires(
            (old(reg)@[handle_of(handle@) as u64],),
        ),
    ensures
        final(reg)@.dom() == old(reg)@.dom(),
        r == Err::<R, BridgeError>(BridgeError::MalformedHandle) <==> !is_handle_text(handle@),
        r == Err::<R, BridgeError>(BridgeError::InvalidHandle) <==> is_handle_text(handle@)
            && !old(reg)@.contains_key(handle_of(handle@) as u64),
        r matches Err(e) ==> (e == BridgeError::MalformedHandle || e == BridgeError::InvalidHandle
            || e is EngineError),
        !is_handle_text(handle@) || !old(reg)@.contains_key(handle_of(handle@) as u64)
            ==> final(reg)@ == old(reg)@,
        ({
            let h = handle_of(handle@) as u64;
            r matches Ok(v) ==> final(reg)@ == old(reg)@.insert(h, final(reg)@[h]) && op.ensures(
                (old(reg)@[h],),
                (final(reg)@[h], Ok::<R, String>(v)),
            )
        }),
        ({
            let h = handle_of(handle@) as u64;
            r matches Err(BridgeError::EngineError(d)) ==> final(reg)@ == old(reg)@.insert(
                h,
                final(reg)@[h],
            ) && op.ensures((old(reg)@[h],), (final(reg)@[h], Err::<R, String>(d)))
        }),
{
    let h = match decode_handle(handle) {
        Ok(h) => h,
        Err(e) => {
            return Err(e);
        },
    };
    match reg.with_mut(h, op) {
        Ok(outcome) => engine_outcome(outcome),
        Err(e) => Err(translate(e)),
    }
}

/// Releases the entry that `handle` names.
pub fn release<T>(reg: &mut HandleRegistry<T>, handle: &str) -> (r: Result<(), BridgeError>)
    ensures
        r is Ok <==> is_handle_text(handle@) && old(reg)@.contains_key(handle_of(handle@) as u64),
        r == Err::<(), BridgeError>(BridgeError::MalformedHandle) <==> !is_handle_text(handle@),
        r == Err::<(), BridgeError>(BridgeError::InvalidHandle) <==> is_handle_text(handle@)
            && !old(reg)@.contains_key(handle_of(handle@) as u64),
        is_handle_text(handle@) ==> final(reg)@ == old(reg)@.remove(handle_of(handle@) as u64),
        !is_handle_text(handle@) ==> final(reg)@ == old(reg)@,
{
    let h = match decode_handle(handle) {
        Ok(h) => h,
        Err(e) => {
            return Err(e);
        },
    };
    match reg.remove(h) {
        Ok(()) => Ok(()),
        Err(e) => Err(translate(e)),
    }
}

} // verus!
