//! The scheduler-facing types that the channels speak of: resumption handles and readiness.

use vstd::prelude::*;

verus! {

#[verifier::external_type_specification]
#[verifier::external_body]
pub struct ExWaker(std::task::Waker);

#[verifier::external_type_specification]
#[verifier::reject_recursive_types(T)]
pub struct ExPoll<T>(std::task::Poll<T>);

/// Relies on `std::task::Waker::wake`: it resumes the task that the handle belongs to.
#[verifier::external_body]
pub(crate) fn wake(waker: std::task::Waker) {
    waker.wake()
}

} // verus!
