//! A minimal factory component: a counter that shows its value in a text
//! label.
//!
//! The counter exercises every part of the contract: its model steps on
//! input and command messages, its view renders the count as a decimal
//! numeral, and its identifier is the numeral of a number fixed at creation.

use vstd::prelude::*;

use crate::channel::{FactorySender, Sender};
use crate::component::{FactoryComponent, FactoryMessages};
use crate::digits::{decimal, decimal_string, lemma_decimal_injective};
use crate::index::DynamicIndex;
use crate::widgets::{Label, LabelColumn};

verus! {

/// Input messages of the counter.
pub enum CounterInput {
    /// Raise the count by one; the count saturates at its maximum.
    Increment,
    /// Lower the count by one; the count saturates at zero.
    Decrement,
}

/// A counter instance: its count, and an identifier fixed at creation from
/// the slot index.
pub struct Counter {
    /// The value currently counted.
    pub count: u64,
    /// The number behind the stable identifier string.
    pub ident: u64,
}

/// The widget bundle of a counter: the label inside its root.
pub struct CounterWidgets {
    /// The label showing the count.
    pub label: Label,
}

impl FactoryMessages for Counter {
    /// Messages that step the count.
    type Input = CounterInput;

    /// The value of the count when it is reported to the parent.
    type Output = u64;

    /// A freshly computed value delivered by background work.
    type CommandOutput = u64;
}

impl FactoryComponent for Counter {
    type ParentWidget = LabelColumn;

    type ParentInput = u64;

    type Init = u64;

    type Root = Label;

    type Widgets = CounterWidgets;

    open spec fn init_spec(
        init: u64,
        index: DynamicIndex,
        model: Counter,
        pre_sender: FactorySender<Counter>,
        post_sender: FactorySender<Counter>,
    ) -> bool {
        model.count == init && model.ident as int == index@ && post_sender == pre_sender
    }

    open spec fn root_spec(&self, root: Label) -> bool {
        root.text@ == decimal(self.count as nat)
    }

    open spec fn widgets_spec(
        &self,
        index: DynamicIndex,
        root: Label,
        returned_widget: (),
        widgets: CounterWidgets,
        pre_sender: FactorySender<Counter>,
        post_sender: FactorySender<Counter>,
    ) -> bool {
        widgets.label.text@ == root.text@ && post_sender == pre_sender
    }

    open spec fn update_spec(
        pre: Counter,
        message: CounterInput,
        post: Counter,
        pre_sender: FactorySender<Counter>,
        post_sender: FactorySender<Counter>,
    ) -> bool {
        post_sender == pre_sender && match message {
            CounterInput::Increment => post == Counter {
                count: if pre.count == u64::MAX {
                    u64::MAX
                } else {
                    (pre.count + 1) as u64
                },
                ident: pre.ident,
            },
            CounterInput::Decrement => post == Counter {
                count: if pre.count == 0 {
                    0u64
                } else {
                    (pre.count - 1) as u64
                },
                ident: pre.ident,
            },
        }
    }

    open spec fn update_cmd_spec(
        pre: Counter,
        message: u64,
        post: Counter,
        pre_sender: FactorySender<Counter>,
        post_sender: FactorySender<Counter>,
    ) -> bool {
        post == Counter { count: message, ident: pre.ident } && post_sender == pre_sender
    }

    open spec fn view_spec(
        &self,
        pre: CounterWidgets,
        post: CounterWidgets,
        pre_sender: FactorySender<Counter>,
        post_sender: FactorySender<Counter>,
    ) -> bool {
        post.label.text@ == decimal(self.count as nat) && post_sender == pre_sender
    }

    open spec fn shutdown_spec(
        pre: Counter,
        pre_widgets: CounterWidgets,
        post: Counter,
        post_widgets: CounterWidgets,
        sent: Seq<u64>,
    ) -> bool {
        post == pre && post_widgets == pre_widgets && sent == seq![pre.count]
    }

    open spec fn id_spec(&self) -> Seq<char> {
        decimal(self.ident as nat)
    }

    fn init_model(init: u64, index: &DynamicIndex, sender: &mut FactorySender<Counter>) -> (model:
        Counter) {
        let position = index.current_index();
        Counter { count: init, ident: position as u64 }
    }

    fn init_root(&self) -> (root: Label) {
        Label { text: decimal_string(self.count) }
    }

    fn init_widgets(
        &mut self,
        index: &DynamicIndex,
        root: &Label,
        returned_widget: &(),
        sender: &mut FactorySender<Counter>,
    ) -> (widgets: CounterWidgets) {
        CounterWidgets { label: Label { text: root.text.clone() } }
    }

    fn update(&mut self, message: CounterInput, sender: &mut FactorySender<Counter>) {
        match message {
            CounterInput::Increment => {
                if self.count != u64::MAX {
                    self.count = self.count + 1;
                }
            },
            CounterInput::Decrement => {
                if self.count != 0 {
                    self.count = self.count - 1;
                }
            },
        }
    }

    fn update_cmd(&mut self, message: u64, sender: &mut FactorySender<Counter>) {
        self.count = message;
    }

    fn update_view(&self, widgets: &mut CounterWidgets, sender: &mut FactorySender<Counter>) {
        widgets.label.text = decimal_string(self.count);
    }

    fn shutdown(&mut self, widgets: &mut CounterWidgets, output: &mut Sender<u64>) {
        output.send(self.count);
        proof {
            assert(output@.skip(old(output)@.len() as int) =~= seq![self.count]);
        }
    }

    fn id(&self) -> (r: String) {
        decimal_string(self.ident)
    }
}

/// Counters whose identifying numbers differ can never present the same
/// identifier string: the decimal rendering loses nothing.
pub proof fn lemma_counter_ids_distinct(a: Counter, b: Counter)
    requires
        a.ident != b.ident,
    ensures
        a.id_spec() != b.id_spec(),
{
    if a.id_spec() == b.id_spec() {
        lemma_decimal_injective(a.ident as nat, b.ident as nat);
    }
}

/// Counters created at distinct slots have distinct identifier strings:
/// `init_model` fixes the identifying number from the slot index, and the
/// decimal rendering loses nothing. Uniqueness across a whole container
/// therefore rests on the container's obligation to hand every creation a
/// slot index that no still-live instance was created at — bookkeeping that
/// belongs to the container, not to the component.
pub proof fn lemma_distinct_slots_distinct_ids(
    init_a: u64,
    index_a: DynamicIndex,
    a: Counter,
    pre_a: FactorySender<Counter>,
    post_a: FactorySender<Counter>,
    init_b: u64,
    index_b: DynamicIndex,
    b: Counter,
    pre_b: FactorySender<Counter>,
    post_b: FactorySender<Counter>,
)
    requires
        Counter::init_spec(init_a, index_a, a, pre_a, post_a),
        Counter::init_spec(init_b, index_b, b, pre_b, post_b),
        index_a@ != index_b@,
    ensures
        a.id_spec() != b.id_spec(),
{
    lemma_counter_ids_distinct(a, b);
}

} // verus!
