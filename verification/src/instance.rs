//! One live slot of a factory: a component instance together with its
//! widgets, its index and its message channels, driven through its
//! lifecycle.
//!
//! The lifecycle has three phases. [`FactoryInstance::launch`] performs the
//! whole first transition — `init_model`, then `init_root`, then
//! `init_widgets`, in that order — and hands back a live instance. While the
//! instance is live, [`FactoryInstance::process_input`] and
//! [`FactoryInstance::process_command`] each step the model once and then
//! refresh the view. [`FactoryInstance::shutdown`] ends the lifetime; its
//! precondition and the absence of any way back to the live phase let the
//! verifier reject every call sequence that would shut an instance down
//! twice, or update it after its shutdown.

use vstd::prelude::*;

use crate::channel::FactorySender;
use crate::component::FactoryComponent;
use crate::index::DynamicIndex;
use crate::widgets::FactoryView;

verus! {

/// A component instance occupying one slot of a container, from creation to
/// shutdown.
pub struct FactoryInstance<C: FactoryComponent> {
    model: C,
    widgets: C::Widgets,
    root: C::Root,
    index: DynamicIndex,
    sender: FactorySender<C>,
    live: bool,
}

impl<C: FactoryComponent> FactoryInstance<C> {
    /// The model state of the instance.
    pub closed spec fn model(&self) -> C {
        self.model
    }

    /// The widget bundle of the instance.
    pub closed spec fn widgets(&self) -> C::Widgets {
        self.widgets
    }

    /// The root widget, built once at launch and never replaced.
    pub closed spec fn root(&self) -> C::Root {
        self.root
    }

    /// The index of the slot the instance occupies.
    pub closed spec fn index(&self) -> DynamicIndex {
        self.index
    }

    /// The message channels of the instance, with everything sent so far.
    pub closed spec fn sender(&self) -> FactorySender<C> {
        self.sender
    }

    /// True from launch until shutdown; no call brings an instance back to
    /// the live phase.
    pub closed spec fn is_live(&self) -> bool {
        self.live
    }

    /// Creates the instance for a freshly inserted slot: builds the model,
    /// then the root widget, then — with the container's feedback handle for
    /// the attached root — the widget bundle. The instance's channels start
    /// empty and hold exactly what the two sending hooks sent, through some
    /// midpoint `mid`.
    pub fn launch(
        init: C::Init,
        index: DynamicIndex,
        returned_widget: &<C::ParentWidget as FactoryView>::ReturnedWidget,
    ) -> (instance: FactoryInstance<C>)
        ensures
            instance.is_live(),
            instance.model().root_spec(instance.root()),
            instance.index() == index,
            exists|start: FactorySender<C>, mid: FactorySender<C>|
                {
                    &&& start.is_empty()
                    &&& #[trigger] C::init_spec(init, index, instance.model(), start, mid)
                    &&& instance.model().widgets_spec(
                        index,
                        instance.root(),
                        *returned_widget,
                        instance.widgets(),
                        mid,
                        instance.sender(),
                    )
                },
    {
        let mut sender = FactorySender::<C>::new();
        let ghost start = sender;
        let mut model = C::init_model(init, &index, &mut sender);
        let ghost mid = sender;
        let root = model.init_root();
        let widgets = model.init_widgets(&index, &root, returned_widget, &mut sender);
        let instance = FactoryInstance { model, widgets, root, index, sender, live: true };
        proof {
            assert(C::init_spec(init, index, instance.model(), start, mid));
        }
        instance
    }

    /// Delivers an input message: the model takes one `update_spec` step,
    /// the widgets are refreshed to show the model the step left behind, and
    /// the channels hold exactly what the two hooks sent, through some
    /// midpoint `mid`.
    pub fn process_input(&mut self, message: C::Input)
        requires
            old(self).is_live(),
        ensures
            final(self).is_live(),
            final(self).root() == old(self).root(),
            final(self).index() == old(self).index(),
            final(self).sender().extends(old(self).sender()),
            exists|mid: FactorySender<C>|
                {
                    &&& #[trigger] C::update_spec(
                        old(self).model(),
                        message,
                        final(self).model(),
                        old(self).sender(),
                        mid,
                    )
                    &&& final(self).model().view_spec(
                        old(self).widgets(),
                        final(self).widgets(),
                        mid,
                        final(self).sender(),
                    )
                },
    {
        self.model.update(message, &mut self.sender);
        let ghost mid = self.sender;
        self.model.update_view(&mut self.widgets, &mut self.sender);
        proof {
            assert(C::update_spec(
                old(self).model(),
                message,
                self.model(),
                old(self).sender(),
                mid,
            ));
            assert(self.model().view_spec(
                old(self).widgets(),
                self.widgets(),
                mid,
                self.sender(),
            ));
        }
    }

    /// Delivers the result of a background command: the model takes one
    /// `update_cmd_spec` step, the widgets are refreshed to show the model
    /// the step left behind, and the channels hold exactly what the two
    /// hooks sent, through some midpoint `mid`.
    pub fn process_command(&mut self, message: C::CommandOutput)
        requires
            old(self).is_live(),
        ensures
            final(self).is_live(),
            final(self).root() == old(self).root(),
            final(self).index() == old(self).index(),
            final(self).sender().extends(old(self).sender()),
            exists|mid: FactorySender<C>|
                {
                    &&& #[trigger] C::update_cmd_spec(
                        old(self).model(),
                        message,
                        final(self).model(),
                        old(self).sender(),
                        mid,
                    )
                    &&& final(self).model().view_spec(
                        old(self).widgets(),
                        final(self).widgets(),
                        mid,
                        final(self).sender(),
                    )
                },
    {
        self.model.update_cmd(message, &mut self.sender);
        let ghost mid = self.sender;
        self.model.update_view(&mut self.widgets, &mut self.sender);
        proof {
            assert(C::update_cmd_spec(
                old(self).model(),
                message,
                self.model(),
                old(self).sender(),
                mid,
            ));
            assert(self.model().view_spec(
                old(self).widgets(),
                self.widgets(),
                mid,
                self.sender(),
            ));
        }
    }

    /// Moves the instance to a new slot; called by the container when
    /// sibling slots are inserted or removed.
    pub fn move_to(&mut self, position: usize)
        requires
            old(self).is_live(),
        ensures
            final(self).is_live(),
            final(self).index()@ == position as int,
            final(self).model() == old(self).model(),
            final(self).widgets() == old(self).widgets(),
            final(self).root() == old(self).root(),
            final(self).sender() == old(self).sender(),
    {
        self.index.set_index(position);
    }

    /// Ends the lifetime: the component's `shutdown` hook runs once — its
    /// effect on the model, the widgets and the output channel is exactly
    /// as `shutdown_spec` describes — and the instance leaves the live
    /// phase for good. Every later `process_input`, `process_command` or
    /// `shutdown` call on it is rejected.
    pub fn shutdown(&mut self)
        requires
            old(self).is_live(),
        ensures
            !final(self).is_live(),
            C::shutdown_spec(
                old(self).model(),
                old(self).widgets(),
                final(self).model(),
                final(self).widgets(),
                final(self).sender().outputs().skip(
                    old(self).sender().outputs().len() as int,
                ),
            ),
            final(self).sender().extends(old(self).sender()),
            final(self).sender().inputs() == old(self).sender().inputs(),
            final(self).sender().commands() == old(self).sender().commands(),
    {
        C::shutdown(&mut self.model, &mut self.widgets, &mut self.sender.output);
        self.live = false;
    }

    /// The model, for reading.
    pub fn model_ref(&self) -> (model: &C)
        ensures
            *model == self.model(),
    {
        &self.model
    }

    /// The widget bundle, for reading.
    pub fn widgets_ref(&self) -> (widgets: &C::Widgets)
        ensures
            *widgets == self.widgets(),
    {
        &self.widgets
    }

    /// The root widget, for reading.
    pub fn root_ref(&self) -> (root: &C::Root)
        ensures
            *root == self.root(),
    {
        &self.root
    }

    /// The message channels, for reading.
    pub fn sender_ref(&self) -> (sender: &FactorySender<C>)
        ensures
            *sender == self.sender(),
    {
        &self.sender
    }

    /// Whether the instance is still live.
    pub fn live(&self) -> (live: bool)
        ensures
            live == self.is_live(),
    {
        self.live
    }

    /// The index of the slot the instance occupies, for reading.
    pub fn index_ref(&self) -> (index: &DynamicIndex)
        ensures
            *index == self.index(),
    {
        &self.index
    }
}

} // verus!
