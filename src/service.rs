//! The decisions of the session service: parameters, existence checks and the
//! reserved session, applied to the metadata index.
use vstd::prelude::*;

use crate::metadata::{relabeled, recounted, SessionEntry, SessionMetadata};

verus! {

/// How many records a preview shows when the request names no limit.
pub const DEFAULT_PREVIEW_LIMIT: u64 = 5;

/// The default session, which can never be deleted.
pub open spec fn reserved_key() -> Seq<char> {
    seq!['m', 'a', 'i', 'n']
}

/// Why a service request was refused.
pub enum ServiceError {
    /// The request named no session key.
    MissingKey,
    /// No session has the key.
    NotFound,
    /// The key is that of the default session, which cannot be deleted.
    ReservedSession,
}

/// The session key of a request, which every operation but listing needs.
pub fn required_key(key: Option<String>) -> (r: Result<String, ServiceError>)
    ensures
        key is None ==> r matches Err(ServiceError::MissingKey),
        key matches Some(k) ==> r == Ok::<String, ServiceError>(k),
{
    match key {
        Some(k) => Ok(k),
        None => Err(ServiceError::MissingKey),
    }
}

/// How many records a preview shows.
pub fn preview_limit(limit: Option<u64>) -> (r: usize)
    ensures
        r == match limit {
            Some(n) => n as usize,
            None => DEFAULT_PREVIEW_LIMIT as usize,
        },
{
    match limit {
        Some(n) => n as usize,
        None => DEFAULT_PREVIEW_LIMIT as usize,
    }
}

/// The descriptor of a session that must exist.
pub fn resolve_entry<'a>(meta: &'a SessionMetadata, key: &str) -> (r: Result<
    &'a SessionEntry,
    ServiceError,
>)
    ensures
        !meta.holds(key@) ==> r matches Err(ServiceError::NotFound),
        meta.holds(key@) ==> (r matches Ok(e) && exists|i: int|
            0 <= i < meta.entries@.len() && meta.entries@[i] == *e && e.key@ == key@),
{
    match meta.get(key) {
        Some(e) => Ok(e),
        None => Err(ServiceError::NotFound),
    }
}

/// Sets the label of an existing session; an unknown key is refused and
/// changes nothing.
pub fn patch_entry(meta: &mut SessionMetadata, key: &str, label: Option<String>, now: u64) -> (r:
    Result<(), ServiceError>)
    requires
        old(meta).wf(),
    ensures
        final(meta).wf(),
        !old(meta).holds(key@) ==> (r matches Err(ServiceError::NotFound) && final(meta).entries@
            == old(meta).entries@),
        old(meta).holds(key@) ==> r is Ok,
        forall|i: int|
            0 <= i < old(meta).entries@.len() && #[trigger] old(meta).entries@[i].key@ == key@
                ==> final(meta).entries@ == old(meta).entries@.update(
                i,
                relabeled(old(meta).entries@[i], label, now),
            ),
{
    if meta.find(key).is_none() {
        return Err(ServiceError::NotFound);
    }
    // The entry exists, so `upsert` keeps its identity and ignores this one.
    meta.upsert(key, label, String::new(), now);
    Ok(())
}

/// The metadata side of a reset: the session's cached message count becomes
/// zero. An unknown key changes nothing.
pub fn reset_entry(meta: &mut SessionMetadata, key: &str, now: u64)
    requires
        old(meta).wf(),
    ensures
        final(meta).wf(),
        forall|i: int|
            0 <= i < old(meta).entries@.len() && #[trigger] old(meta).entries@[i].key@ == key@
                ==> final(meta).entries@ == old(meta).entries@.update(
                i,
                recounted(old(meta).entries@[i], 0, now),
            ),
        !old(meta).holds(key@) ==> final(meta).entries@ == old(meta).entries@,
{
    meta.touch(key, 0, now);
}

/// Whether a session may be deleted: every key but the reserved one.
pub fn check_deletable(key: &str) -> (r: Result<(), ServiceError>)
    ensures
        key@ == reserved_key() ==> r matches Err(ServiceError::ReservedSession),
        key@ != reserved_key() ==> r is Ok,
{
    proof {
        reveal_strlit("main");
        assert("main"@ =~= reserved_key());
    }
    let reserved = String::from_str("main");
    if key.to_owned() == reserved {
        Err(ServiceError::ReservedSession)
    } else {
        Ok(())
    }
}

/// The metadata side of a delete: the descriptor goes, except for the
/// reserved session, which is refused with nothing changed.
pub fn delete_entry(meta: &mut SessionMetadata, key: &str) -> (r: Result<(), ServiceError>)
    requires
        old(meta).wf(),
    ensures
        final(meta).wf(),
        key@ == reserved_key() ==> (r matches Err(ServiceError::ReservedSession)
            && final(meta).entries@ == old(meta).entries@),
        key@ != reserved_key() ==> r is Ok && !final(meta).holds(key@),
        key@ != reserved_key() ==> forall|i: int|
            0 <= i < old(meta).entries@.len() && #[trigger] old(meta).entries@[i].key@ == key@
                ==> final(meta).entries@ == old(meta).entries@.remove(i),
        key@ != reserved_key() && !old(meta).holds(key@) ==> final(meta).entries@ == old(
            meta,
        ).entries@,
{
    check_deletable(key)?;
    meta.remove(key);
    Ok(())
}

} // verus!
