//! The boundary to the list of watchers.
//!
//! Nothing in this module is proved. A watcher is a callback; the list
//! keeps it for as long as the handle that `subscribe` returned is alive.

use tantivy::directory::{WatchCallback, WatchCallbackList, WatchHandle};
use tantivy::{FutureResult, TantivyError};
use vstd::prelude::*;

verus! {

/// `tantivy::directory::WatchCallback`: what a watcher wants called.
#[verifier::external_type_specification]
#[verifier::external_body]
pub struct ExWatchCallback(WatchCallback);

/// `tantivy::directory::WatchCallbackList`: the watchers of one directory.
#[verifier::external_type_specification]
#[verifier::external_body]
pub struct ExWatchCallbackList(WatchCallbackList);

/// `tantivy::directory::WatchHandle`: keeps one watcher subscribed until
/// the last copy of it is dropped.
#[verifier::external_type_specification]
#[verifier::external_body]
pub struct ExWatchHandle(WatchHandle);

/// `tantivy::FutureResult`: a task that runs elsewhere and can be waited for.
#[verifier::external_type_specification]
#[verifier::external_body]
#[verifier::reject_recursive_types(T)]
pub struct ExFutureResult<T>(FutureResult<T>);

/// `tantivy::TantivyError`: why a task did not finish.
#[verifier::external_type_specification]
#[verifier::external_body]
pub struct ExTantivyError(TantivyError);

/// `WatchCallbackList::default`: a list with no watcher in it.
pub assume_specification[ <WatchCallbackList as Default>::default ]() -> (list: WatchCallbackList)
;

/// `WatchCallbackList::subscribe`: adds the watcher to the list and returns
/// the handle that keeps it there.
pub assume_specification[ WatchCallbackList::subscribe ](
    list: &WatchCallbackList,
    watch_callback: WatchCallback,
) -> (handle: WatchHandle)
;

/// `WatchCallbackList::broadcast`: takes the watchers whose handles are
/// alive, starts a thread that calls each of them once, and returns at
/// once with the means to wait for that thread. Where the thread cannot
/// be started, that is logged and no watcher is called.
pub assume_specification[ WatchCallbackList::broadcast ](list: &WatchCallbackList) -> (pending:
    FutureResult<()>)
;

/// `FutureResult::wait`: blocks until the task has ended. For a
/// broadcast that is when every watcher has returned, which gives `Ok`,
/// or when one of them has panicked or the thread was never started,
/// which gives `Err`. It returns no sooner than the watchers do.
pub assume_specification<T>[ FutureResult::<T>::wait ](pending: FutureResult<T>) -> (ended: Result<
    T,
    TantivyError,
>)
;

} // verus!
