//! Building blocks for factory components: units of model state and view
//! logic that live as one of many dynamically managed instances inside a
//! container widget.
//!
//! A factory component owns its private model state together with a bundle of
//! widget handles. It is created when a slot is inserted into the container,
//! processes input and background-command messages while it is live (each
//! followed by a view refresh), and is shut down exactly once when the slot is
//! removed.
//!
//! The contract itself is the [`component::FactoryComponent`] trait. Around
//! it stand the slot identity ([`index::DynamicIndex`]), the message
//! channels ([`channel::Sender`] and [`channel::FactorySender`]), the
//! container capabilities ([`widgets::FactoryView`] and
//! [`widgets::Position`]), and the lifecycle driver
//! ([`instance::FactoryInstance`]), which holds one instance from launch to
//! shutdown. Two components implement the contract: a counter
//! ([`counter::Counter`]) and a fixed banner ([`banner::Banner`]); the
//! decimal numerals behind their identifiers live in [`digits`].

pub mod banner;
pub mod channel;
pub mod component;
pub mod counter;
pub mod digits;
pub mod index;
pub mod instance;
pub mod widgets;
