//! Message channels, modeled as ordered logs.
//!
//! A [`Sender`] records every message handed to it, in order. Contracts over
//! senders speak of that log: a lifecycle hook may append messages but can
//! never retract one already sent.

use vstd::prelude::*;

use crate::component::FactoryMessages;

verus! {

/// The sending end of a message channel.
///
/// The view of a sender is the sequence of messages sent through it so far.
pub struct Sender<T> {
    sent: Vec<T>,
}

impl<T> View for Sender<T> {
    type V = Seq<T>;

    closed spec fn view(&self) -> Seq<T> {
        self.sent@
    }
}

impl<T> Sender<T> {
    /// True if `other`'s log is a prefix of this sender's log: everything
    /// `other` had sent is still there, in the same order, and only new
    /// messages follow. Every lifecycle hook leaves each sender it is handed
    /// an extension of what it received.
    pub open spec fn extends(&self, other: Sender<T>) -> bool {
        &&& other@.len() <= self@.len()
        &&& forall|i: int| 0 <= i < other@.len() ==> self@[i] == other@[i]
    }

    /// A fresh channel with nothing sent yet.
    pub fn new() -> (sender: Sender<T>)
        ensures
            sender@ == Seq::<T>::empty(),
    {
        Sender { sent: Vec::new() }
    }

    /// Sends a message: appends it to the log.
    pub fn send(&mut self, message: T)
        ensures
            final(self)@ == old(self)@.push(message),
            final(self).extends(*old(self)),
    {
        self.sent.push(message);
    }

    /// How many messages have been sent so far.
    pub fn count(&self) -> (n: usize)
        ensures
            n == self@.len(),
    {
        self.sent.len()
    }

    /// The messages sent so far, oldest first.
    pub fn sent(&self) -> (messages: &Vec<T>)
        ensures
            messages@ == self@,
    {
        &self.sent
    }
}

/// The message-emission handle a factory component receives with every
/// lifecycle call: one sender for each of the three channels that lead back
/// into the component's own runtime or out to its parent.
pub struct FactorySender<C: FactoryMessages> {
    /// The channel leading back into the component's own input queue.
    pub input: Sender<C::Input>,
    /// The channel towards the parent component.
    pub output: Sender<C::Output>,
    /// The channel delivering background-command results.
    pub command: Sender<C::CommandOutput>,
}

impl<C: FactoryMessages> FactorySender<C> {
    /// The log of input messages the component has scheduled for itself.
    pub open spec fn inputs(&self) -> Seq<C::Input> {
        self.input@
    }

    /// The log of output messages emitted towards the parent.
    pub open spec fn outputs(&self) -> Seq<C::Output> {
        self.output@
    }

    /// The log of command results scheduled for delivery to the component.
    pub open spec fn commands(&self) -> Seq<C::CommandOutput> {
        self.command@
    }

    /// True if all three logs of `other` are prefixes of the logs of this
    /// handle: messages are only ever appended, never retracted. Every
    /// lifecycle hook leaves the handle an extension of what it received.
    pub open spec fn extends(&self, other: FactorySender<C>) -> bool {
        &&& other.inputs().len() <= self.inputs().len()
        &&& forall|i: int| 0 <= i < other.inputs().len() ==> self.inputs()[i] == other.inputs()[i]
        &&& other.outputs().len() <= self.outputs().len()
        &&& forall|i: int| 0 <= i < other.outputs().len() ==> self.outputs()[i] == other.outputs()[i]
        &&& other.commands().len() <= self.commands().len()
        &&& forall|i: int| 0 <= i < other.commands().len() ==> self.commands()[i]
            == other.commands()[i]
    }

    /// True if nothing has been sent on any channel.
    pub open spec fn is_empty(&self) -> bool {
        &&& self.inputs() == Seq::<C::Input>::empty()
        &&& self.outputs() == Seq::<C::Output>::empty()
        &&& self.commands() == Seq::<C::CommandOutput>::empty()
    }

    /// A fresh handle with nothing sent on any channel.
    pub fn new() -> (sender: FactorySender<C>)
        ensures
            sender.inputs() == Seq::<C::Input>::empty(),
            sender.outputs() == Seq::<C::Output>::empty(),
            sender.commands() == Seq::<C::CommandOutput>::empty(),
    {
        FactorySender { input: Sender::new(), output: Sender::new(), command: Sender::new() }
    }

    /// Sends a message to the component's own input channel.
    pub fn input(&mut self, message: C::Input)
        ensures
            final(self).inputs() == old(self).inputs().push(message),
            final(self).outputs() == old(self).outputs(),
            final(self).commands() == old(self).commands(),
            final(self).extends(*old(self)),
    {
        self.input.send(message);
    }

    /// Emits an output message towards the parent component.
    pub fn output(&mut self, message: C::Output)
        ensures
            final(self).outputs() == old(self).outputs().push(message),
            final(self).inputs() == old(self).inputs(),
            final(self).commands() == old(self).commands(),
            final(self).extends(*old(self)),
    {
        self.output.send(message);
    }

    /// Schedules a command result for delivery to the component.
    pub fn command(&mut self, message: C::CommandOutput)
        ensures
            final(self).commands() == old(self).commands().push(message),
            final(self).inputs() == old(self).inputs(),
            final(self).outputs() == old(self).outputs(),
            final(self).extends(*old(self)),
    {
        self.command.send(message);
    }
}

} // verus!
