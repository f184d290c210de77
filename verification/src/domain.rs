//! Validated value types: wrapper types that validate raw strings into the
//! names, addresses and messages the rest of the crate works with.

pub mod contact_message;
pub mod new_subscriber;
pub mod subscriber_name;
pub mod text;
pub mod user_email;
pub mod user_name;
pub mod verified_contact_form;

pub use contact_message::ContactMessage;
pub use new_subscriber::NewSubscriber;
pub use subscriber_name::SubscriberName;
pub use user_email::UserEmail;
pub use user_name::UserName;
pub use verified_contact_form::VerifiedContactForm;
