//! The lifecycle law of one instance record: of every step that mutates a
//! record after its creation — provisioning success or failure, explicit
//! stop/start/restart, and reconciliation status writes — only a
//! provisioning success writes the container identifier.

use vstd::prelude::*;

verus! {

/// One event in the life of a record after it is inserted with status
/// `Creating` and no container.
pub enum LifecycleEvent {
    /// Provisioning succeeded: the runtime's container identifier is
    /// committed and the record becomes running.
    ProvisionOk(Seq<char>),
    /// Provisioning failed: the record becomes `Error(reason)`; the
    /// container identifier is untouched.
    ProvisionFailed,
    /// A stop, start, restart or reconciliation wrote a status; the
    /// container identifier is untouched.
    StatusWritten,
}

/// The container identifier after a sequence of lifecycle events.
pub open spec fn container_id_after(cid: Seq<char>, events: Seq<LifecycleEvent>) -> Seq<char>
    decreases events.len(),
{
    if events.len() == 0 {
        cid
    } else {
        match events.last() {
            LifecycleEvent::ProvisionOk(c) => c,
            _ => container_id_after(cid, events.drop_last()),
        }
    }
}

/// Some event in the sequence is a provisioning success.
pub open spec fn any_provision_ok(events: Seq<LifecycleEvent>) -> bool {
    exists|i: int| 0 <= i < events.len() && events[i] is ProvisionOk
}

/// A record starts with an empty container identifier, and the runtime
/// never hands out an empty one.  So over every sequence of lifecycle
/// events from creation, the container identifier is empty exactly as long
/// as the status has never left `Creating` by a provisioning path that
/// sets it.
pub proof fn lemma_container_id_iff_provisioned(events: Seq<LifecycleEvent>)
    requires
        forall|i: int|
            0 <= i < events.len() ==> ((#[trigger] events[i]) matches LifecycleEvent::ProvisionOk(c)
                ==> c.len() > 0),
    ensures
        container_id_after(Seq::<char>::empty(), events).len() == 0 <==> !any_provision_ok(events),
    decreases events.len(),
{
    if events.len() == 0 {
    } else {
        let rest = events.drop_last();
        lemma_container_id_iff_provisioned(rest);
        match events.last() {
            LifecycleEvent::ProvisionOk(c) => {
                assert(events[events.len() - 1] is ProvisionOk);
                assert(any_provision_ok(events));
            },
            _ => {
                if any_provision_ok(rest) {
                    let i = choose|i: int| 0 <= i < rest.len() && rest[i] is ProvisionOk;
                    assert(events[i] is ProvisionOk);
                    assert(any_provision_ok(events));
                } else {
                    assert forall|i: int|
                        0 <= i < events.len() implies !(events[i] is ProvisionOk) by {
                        if i < rest.len() {
                            assert(rest[i] == events[i]);
                        }
                    };
                }
            },
        }
    }
}

} // verus!
