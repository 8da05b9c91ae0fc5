//! The smallest useful factory component: a banner showing a fixed line of
//! text.
//!
//! The banner implements only what every component must — model, root and
//! widget construction, the identifier, and hooks that declare and do
//! nothing: messages leave it unchanged, its view needs no refreshing, and
//! its shutdown ends silently. For the rest it leans on the provided
//! defaults: the composed update-then-refresh calls, and output translation
//! (nothing is forwarded).

use vstd::prelude::*;

use crate::channel::{FactorySender, Sender};
use crate::component::{FactoryComponent, FactoryMessages};
use crate::index::DynamicIndex;
use crate::widgets::{Label, LabelColumn};

verus! {

/// A banner instance: nothing but the text it shows.
pub struct Banner {
    /// The text shown, fixed at creation.
    pub text: String,
}

/// The widget bundle of a banner: the label inside its root.
pub struct BannerWidgets {
    /// The label showing the text.
    pub label: Label,
}

impl FactoryMessages for Banner {
    /// A banner reacts to no input.
    type Input = ();

    /// A banner emits nothing.
    type Output = ();

    /// A banner runs no background work.
    type CommandOutput = ();
}

impl FactoryComponent for Banner {
    type ParentWidget = LabelColumn;

    type ParentInput = ();

    type Init = String;

    type Root = Label;

    type Widgets = BannerWidgets;

    open spec fn init_spec(
        init: String,
        index: DynamicIndex,
        model: Banner,
        pre_sender: FactorySender<Banner>,
        post_sender: FactorySender<Banner>,
    ) -> bool {
        model.text@ == init@ && post_sender == pre_sender
    }

    open spec fn root_spec(&self, root: Label) -> bool {
        root.text@ == self.text@
    }

    open spec fn widgets_spec(
        &self,
        index: DynamicIndex,
        root: Label,
        returned_widget: (),
        widgets: BannerWidgets,
        pre_sender: FactorySender<Banner>,
        post_sender: FactorySender<Banner>,
    ) -> bool {
        widgets.label.text@ == root.text@ && post_sender == pre_sender
    }

    open spec fn update_spec(
        pre: Banner,
        message: (),
        post: Banner,
        pre_sender: FactorySender<Banner>,
        post_sender: FactorySender<Banner>,
    ) -> bool {
        post == pre && post_sender == pre_sender
    }

    open spec fn update_cmd_spec(
        pre: Banner,
        message: (),
        post: Banner,
        pre_sender: FactorySender<Banner>,
        post_sender: FactorySender<Banner>,
    ) -> bool {
        post == pre && post_sender == pre_sender
    }

    open spec fn view_spec(
        &self,
        pre: BannerWidgets,
        post: BannerWidgets,
        pre_sender: FactorySender<Banner>,
        post_sender: FactorySender<Banner>,
    ) -> bool {
        post == pre && post_sender == pre_sender
    }

    open spec fn shutdown_spec(
        pre: Banner,
        pre_widgets: BannerWidgets,
        post: Banner,
        post_widgets: BannerWidgets,
        sent: Seq<()>,
    ) -> bool {
        post == pre && post_widgets == pre_widgets && sent == Seq::<()>::empty()
    }

    /// The banner's identifier is its text: banners showing the same line
    /// are interchangeable and share it. Where distinct identifiers matter,
    /// follow the counter's scheme of a number fixed from the creation slot.
    open spec fn id_spec(&self) -> Seq<char> {
        self.text@
    }

    fn init_model(init: String, index: &DynamicIndex, sender: &mut FactorySender<Banner>) -> (model:
        Banner) {
        Banner { text: init }
    }

    fn init_root(&self) -> (root: Label) {
        Label { text: self.text.clone() }
    }

    fn init_widgets(
        &mut self,
        index: &DynamicIndex,
        root: &Label,
        returned_widget: &(),
        sender: &mut FactorySender<Banner>,
    ) -> (widgets: BannerWidgets) {
        BannerWidgets { label: Label { text: root.text.clone() } }
    }

    fn update(&mut self, message: (), sender: &mut FactorySender<Banner>) {
    }

    fn update_cmd(&mut self, message: (), sender: &mut FactorySender<Banner>) {
    }

    fn update_view(&self, widgets: &mut BannerWidgets, sender: &mut FactorySender<Banner>) {
    }

    fn shutdown(&mut self, widgets: &mut BannerWidgets, output: &mut Sender<()>) {
        proof {
            assert(output@.skip(output@.len() as int) =~= Seq::<()>::empty());
        }
    }

    fn id(&self) -> (r: String) {
        self.text.clone()
    }
}

} // verus!
