//! Readiness sets and poll options of `mio`.

use vstd::prelude::*;

verus! {

/// The bit that stands for readable in a readiness set.
pub const READABLE: usize = 1;

/// The bit that stands for writable in a readiness set.
pub const WRITABLE: usize = 2;

/// The bit that stands for level triggered in a set of poll options.
pub const LEVEL: usize = 2;

#[verifier::external_type_specification]
#[verifier::external_body]
pub struct ExReady(mio::Ready);

#[verifier::external_type_specification]
#[verifier::external_body]
pub struct ExPollOpt(mio::PollOpt);

/// The kinds of readiness in a set, each by its bit.
pub uninterp spec fn ready_kinds(ready: mio::Ready) -> Set<usize>;

/// The options in a set of poll options, each by its bit.
pub uninterp spec fn poll_options(opts: mio::PollOpt) -> Set<usize>;

/// `mio::Ready::readable`: the set that holds readable alone.
pub assume_specification[ mio::Ready::readable ]() -> (ready: mio::Ready)
    ensures
        ready_kinds(ready) == set![READABLE],
;

/// `mio::Ready::writable`: the set that holds writable alone.
pub assume_specification[ mio::Ready::writable ]() -> (ready: mio::Ready)
    ensures
        ready_kinds(ready) == set![WRITABLE],
;

/// `mio::Ready::is_readable`: whether readable is in the set.
pub assume_specification[ mio::Ready::is_readable ](ready: &mio::Ready) -> (found: bool)
    ensures
        found == ready_kinds(*ready).contains(READABLE),
;

/// `mio::Ready::is_writable`: whether writable is in the set.
pub assume_specification[ mio::Ready::is_writable ](ready: &mio::Ready) -> (found: bool)
    ensures
        found == ready_kinds(*ready).contains(WRITABLE),
;

/// `mio::PollOpt::level`: the set that holds level triggered alone.
pub assume_specification[ mio::PollOpt::level ]() -> (opts: mio::PollOpt)
    ensures
        poll_options(opts) == set![LEVEL],
;

/// The `|` of two `mio::Ready` sets. Taken on trust: it is their union.
#[verifier::external_body]
pub(crate) fn ready_union(a: mio::Ready, b: mio::Ready) -> (both: mio::Ready)
    ensures
        ready_kinds(both) == ready_kinds(a).union(ready_kinds(b)),
{
    a | b
}

} // verus!
