//! The factory component contract: the lifecycle hooks every
//! factory-managed item implements, and what each hook owes its caller.

use vstd::prelude::*;

use crate::channel::{FactorySender, Sender};
use crate::index::DynamicIndex;
use crate::widgets::{FactoryView, Position};

verus! {

/// The message types of a factory component: the three channels a
/// [`FactorySender`] leads into.
///
/// They stand apart from the full [`FactoryComponent`] contract so that the
/// sender handle can be stated over the message types alone.
pub trait FactoryMessages {
    /// The message type the instance accepts as inputs.
    type Input;

    /// The message type the instance emits towards its parent.
    type Output;

    /// Results of background commands, delivered back to the instance.
    type CommandOutput;
}

/// A component that is stored inside a factory: one instance per slot of a
/// container widget.
///
/// An instance is created when its slot is inserted (`init_model`, then
/// `init_root`, then `init_widgets`, in that order), processes input and
/// command messages while it is live, and is shut down exactly once when the
/// slot is removed.
///
/// The executable hooks are tied to spec functions of the implementing
/// type: `update` must step the model, and send, as `update_spec` describes,
/// and `update_view` must refresh the widgets, and send, as `view_spec`
/// describes — each of these specs relates the channels the hook received to
/// the channels it left, so a hook that promises to send nothing can send
/// nothing. The provided `update_with_view` and `update_cmd_with_view`
/// bodies are verified once, for every implementation: after either returns,
/// the model has taken exactly one update step, the widgets show the view of
/// the post-update model — a view refresh always follows a state mutation —
/// and the channels hold exactly what the two hooks sent.
pub trait FactoryComponent:
    FactoryMessages + Position<<Self::ParentWidget as FactoryView>::Position> + Sized
{
    /// Container widget to which the root widgets of all instances are added.
    type ParentWidget: FactoryView;

    /// Input messages of the parent component, the target of output
    /// translation.
    type ParentInput;

    /// The parameter the model is initialized from.
    type Init;

    /// The root widget built once for the instance, the subtree representing
    /// it inside the parent container.
    type Root;

    /// The bundle of widget handles the instance controls.
    type Widgets;

    /// What `init_model` promises of the model it constructs from an
    /// initialization parameter and the slot index at creation, and of what
    /// it sends: `pre_sender` and `post_sender` are the channels as the hook
    /// received and left them. A component whose construction sends nothing
    /// declares `post_sender == pre_sender`.
    spec fn init_spec(
        init: Self::Init,
        index: DynamicIndex,
        model: Self,
        pre_sender: FactorySender<Self>,
        post_sender: FactorySender<Self>,
    ) -> bool;

    /// What `init_root` promises of the root widget it builds for the model
    /// `self`.
    spec fn root_spec(&self, root: Self::Root) -> bool;

    /// What `init_widgets` promises of the widget bundle it builds for the
    /// model `self` once the root stands in the container, and of what it
    /// sends, as the channels it received (`pre_sender`) and left
    /// (`post_sender`).
    spec fn widgets_spec(
        &self,
        index: DynamicIndex,
        root: Self::Root,
        returned_widget: <Self::ParentWidget as FactoryView>::ReturnedWidget,
        widgets: Self::Widgets,
        pre_sender: FactorySender<Self>,
        post_sender: FactorySender<Self>,
    ) -> bool;

    /// How `update` steps the model on an input message — `post` is a state
    /// the model may be in afterwards — and what it sends, as the channels it
    /// received (`pre_sender`) and left (`post_sender`). A component that
    /// ignores inputs declares `post == pre && post_sender == pre_sender`:
    /// nothing changes and nothing is sent.
    spec fn update_spec(
        pre: Self,
        message: Self::Input,
        post: Self,
        pre_sender: FactorySender<Self>,
        post_sender: FactorySender<Self>,
    ) -> bool;

    /// How `update_cmd` steps the model on a command result, and what it
    /// sends. A component that ignores command results declares
    /// `post == pre && post_sender == pre_sender`.
    spec fn update_cmd_spec(
        pre: Self,
        message: Self::CommandOutput,
        post: Self,
        pre_sender: FactorySender<Self>,
        post_sender: FactorySender<Self>,
    ) -> bool;

    /// How `update_view` refreshes the widgets so that they show the model
    /// `self`, and what it sends. A component whose widgets never change and
    /// whose refresh sends nothing declares
    /// `post == pre && post_sender == pre_sender`.
    spec fn view_spec(
        &self,
        pre: Self::Widgets,
        post: Self::Widgets,
        pre_sender: FactorySender<Self>,
        post_sender: FactorySender<Self>,
    ) -> bool;

    /// What `shutdown` does as the instance is destroyed: how the model and
    /// the widgets end, and `sent` — the final messages it emits on the
    /// output channel, in order. A component that ends silently declares
    /// that nothing changes and `sent` is empty.
    spec fn shutdown_spec(
        pre: Self,
        pre_widgets: Self::Widgets,
        post: Self,
        post_widgets: Self::Widgets,
        sent: Seq<Self::Output>,
    ) -> bool;

    /// The identifier `id` returns: a pure function of the model, so the
    /// identifier of an instance never changes behind its back.
    spec fn id_spec(&self) -> Seq<char>;

    /// Initializes the model. Construction always succeeds; the result is
    /// determined by the initialization parameter and the slot index.
    fn init_model(
        init: Self::Init,
        index: &DynamicIndex,
        sender: &mut FactorySender<Self>,
    ) -> (model: Self)
        ensures
            Self::init_spec(init, *index, model, *old(sender), *final(sender)),
            final(sender).extends(*old(sender)),
    ;

    /// Initializes the root widget: built once, read-only afterwards.
    fn init_root(&self) -> (root: Self::Root)
        ensures
            self.root_spec(root),
    ;

    /// Initializes the widget bundle, after the root widget has been attached
    /// to the parent container; `returned_widget` is the container's feedback
    /// handle for the inserted root. Building widgets leaves the model as it
    /// is.
    fn init_widgets(
        &mut self,
        index: &DynamicIndex,
        root: &Self::Root,
        returned_widget: &<Self::ParentWidget as FactoryView>::ReturnedWidget,
        sender: &mut FactorySender<Self>,
    ) -> (widgets: Self::Widgets)
        ensures
            *final(self) == *old(self),
            old(self).widgets_spec(
                *index,
                *root,
                *returned_widget,
                widgets,
                *old(sender),
                *final(sender),
            ),
            final(sender).extends(*old(sender)),
    ;

    /// Optionally converts an output message of this instance into an input
    /// message of the parent component. When `None` is returned, nothing is
    /// forwarded; the default forwards nothing, whatever the output.
    fn output_to_parent_input(output: Self::Output) -> (parent_input: Option<Self::ParentInput>)
        default_ensures
            parent_input is None,
    {
        None
    }

    /// Processes an input message: steps the model and sends exactly as
    /// `update_spec` describes. Messages already sent are never retracted.
    fn update(&mut self, message: Self::Input, sender: &mut FactorySender<Self>)
        ensures
            Self::update_spec(*old(self), message, *final(self), *old(sender), *final(sender)),
            final(sender).extends(*old(sender)),
    ;

    /// Processes the result of a background command: steps the model and
    /// sends exactly as `update_cmd_spec` describes.
    fn update_cmd(&mut self, message: Self::CommandOutput, sender: &mut FactorySender<Self>)
        ensures
            Self::update_cmd_spec(
                *old(self),
                message,
                *final(self),
                *old(sender),
                *final(sender),
            ),
            final(sender).extends(*old(sender)),
    ;

    /// Synchronizes the widgets with the current model, and sends, exactly
    /// as `view_spec` describes. The model itself is read-only here.
    fn update_view(&self, widgets: &mut Self::Widgets, sender: &mut FactorySender<Self>)
        ensures
            self.view_spec(*old(widgets), *final(widgets), *old(sender), *final(sender)),
            final(sender).extends(*old(sender)),
    ;

    /// Handles an input message and refreshes the view: `update` first, then
    /// `update_view`, on the model the update left behind. After the call
    /// the model has taken exactly one `update_spec` step, the widgets show
    /// the view of that post-update model, and the channels hold exactly
    /// what the two hooks sent, through some midpoint `mid`.
    fn update_with_view(
        &mut self,
        widgets: &mut Self::Widgets,
        message: Self::Input,
        sender: &mut FactorySender<Self>,
    )
        ensures
            final(sender).extends(*old(sender)),
            exists|mid: FactorySender<Self>|
                {
                    &&& #[trigger] Self::update_spec(
                        *old(self),
                        message,
                        *final(self),
                        *old(sender),
                        mid,
                    )
                    &&& final(self).view_spec(*old(widgets), *final(widgets), mid, *final(sender))
                },
    {
        self.update(message, sender);
        let ghost mid = *sender;
        self.update_view(widgets, sender);
        proof {
            assert(Self::update_spec(*old(self), message, *self, *old(sender), mid));
        }
    }

    /// Handles a command result and refreshes the view: `update_cmd` first,
    /// then `update_view`, on the model the update left behind. After the
    /// call the model has taken exactly one `update_cmd_spec` step, the
    /// widgets show the view of that post-update model, and the channels
    /// hold exactly what the two hooks sent, through some midpoint `mid`.
    fn update_cmd_with_view(
        &mut self,
        widgets: &mut Self::Widgets,
        message: Self::CommandOutput,
        sender: &mut FactorySender<Self>,
    )
        ensures
            final(sender).extends(*old(sender)),
            exists|mid: FactorySender<Self>|
                {
                    &&& #[trigger] Self::update_cmd_spec(
                        *old(self),
                        message,
                        *final(self),
                        *old(sender),
                        mid,
                    )
                    &&& final(self).view_spec(*old(widgets), *final(widgets), mid, *final(sender))
                },
    {
        self.update_cmd(message, sender);
        let ghost mid = *sender;
        self.update_view(widgets, sender);
        proof {
            assert(Self::update_cmd_spec(*old(self), message, *self, *old(sender), mid));
        }
    }

    /// The last call before the instance is destroyed; `output` carries its
    /// final messages to the parent. The effect on the model, the widgets
    /// and the output channel is exactly as `shutdown_spec` describes;
    /// messages already sent are never retracted.
    fn shutdown(&mut self, widgets: &mut Self::Widgets, output: &mut Sender<Self::Output>)
        ensures
            final(output).extends(*old(output)),
            Self::shutdown_spec(
                *old(self),
                *old(widgets),
                *final(self),
                *final(widgets),
                final(output)@.skip(old(output)@.len() as int),
            ),
    ;

    /// An identifier for the instance, used for logging and diagnosis: the
    /// rendering of `id_spec`, so repeated calls on an unchanged instance
    /// always return the same string.
    fn id(&self) -> (r: String)
        ensures
            r@ == self.id_spec(),
    ;
}

/// Repeated `id` calls on the same instance, without a mutation in between,
/// always return the same string: whatever two such calls returned, the
/// results are equal, because `id` renders `id_spec`, a pure function of the
/// model.
pub proof fn lemma_id_stable<C: FactoryComponent>(model: C, first: Seq<char>, second: Seq<char>)
    requires
        first == model.id_spec(),
        second == model.id_spec(),
    ensures
        first == second,
{
}

} // verus!
