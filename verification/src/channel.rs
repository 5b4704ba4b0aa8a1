use vstd::prelude::*;

verus! {

#[verifier::external_type_specification]
#[verifier::external_body]
#[verifier::reject_recursive_types(T)]
pub struct ExSender<T>(crossbeam_channel::Sender<T>);

#[verifier::external_type_specification]
#[verifier::external_body]
#[verifier::reject_recursive_types(T)]
pub struct ExReceiver<T>(crossbeam_channel::Receiver<T>);

/// Relies on `crossbeam_channel::unbounded`: it returns the sending and
/// receiving ends of a fresh channel of unlimited capacity.
#[verifier::external_body]
pub(crate) fn unbounded_channel<T>() -> (crossbeam_channel::Sender<T>, crossbeam_channel::Receiver<
    T,
>) {
    crossbeam_channel::unbounded()
}

/// Relies on `crossbeam_channel::Sender::send`: on an unbounded channel a
/// send fails only when every receiving end was dropped, and the failure
/// hands the message back inside the error.
#[verifier::external_body]
pub(crate) fn channel_send<T>(sender: &crossbeam_channel::Sender<T>, message: T) -> (r: Result<
    (),
    T,
>)
    ensures
        r matches Err(m) ==> m == message,
{
    match sender.send(message) {
        Ok(()) => Ok(()),
        Err(e) => Err(e.into_inner()),
    }
}

} // verus!
