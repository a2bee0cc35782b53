//! Page titles for the routes of a web application.
//!
//! A route enum names the pages of an application, one variant for each. This library derives
//! the method that gives each route its page title. Every variant carries its title in an
//! attribute, `#[title("Item :id")]`; a title may name the fields of its variant, as `:field`
//! or `*field`, and the method fills in their values.
//!
//! The library works on plain values. [`input`] holds a declaration as the derivation reads
//! it, [`derive`] turns it into the arms of the method or into the reason against it,
//! [`template`] rewrites the placeholders of a title, and [`source`] writes the implementation
//! as source text. [`derive_laws`] and [`template_laws`] state what holds of all of this.

pub mod derive;
pub mod derive_laws;
pub mod error;
pub mod input;
pub mod literal;
pub mod source;
pub mod template;
pub mod template_laws;
mod text;
