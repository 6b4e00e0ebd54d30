//! The foo module.

use vstd::prelude::*;

verus! {

/// The style of a foo.
///
/// The default style is [`Standard`](Style::Standard).
#[derive(Copy, Clone, Debug, PartialEq, Eq, Structural)]
pub enum Style {
    /// The ordinary style of foo.
    Standard,
    /// The Bar style.
    Bar,
}

impl Default for Style {
    /// The style of a foo that was given none: [`Standard`](Style::Standard).
    fn default() -> (style: Self)
        ensures
            style == Style::Standard,
    {
        Style::Standard
    }
}

/// The possible errors that can occur when working with a foo.
#[derive(Debug)]
pub enum FooError {
    /// The foo is invalid.
    Invalid,
}

impl FooError {
    /// The text that describes this error to a reader.
    pub open spec fn spec_description(&self) -> Seq<char> {
        match *self {
            FooError::Invalid => "Invalid foo"@,
        }
    }

    /// Renders the error as the text shown to a reader.
    pub fn description(&self) -> (text: String)
        ensures
            text@ == self.spec_description(),
    {
        match *self {
            FooError::Invalid => "Invalid foo".to_owned(),
        }
    }
}

/// The various settings available to configure a foo.
#[derive(Debug)]
#[allow(non_snake_case)]
pub struct Settings {
    /// The style of the foo.
    pub Style: Style,
}

impl Default for Settings {
    /// The settings of a foo that was given none: the default style.
    fn default() -> (settings: Self)
        ensures
            settings == (Settings { Style: Style::Standard }),
    {
        Settings { Style: Style::Standard }
    }
}

/// An instance of a foo.
///
/// A foo keeps the identifier and the settings it was made with.
pub struct Foo {
    /// The unique id of the foo. This is `None` if it is new and unsaved.
    pub id: Option<u64>,
    /// The foo settings.
    pub settings: Settings,
}

impl Foo {
    /// Creates a new instance of a foo.
    ///
    /// # Parameters
    ///
    /// * `id`       - The unique id, if there is one.
    /// * `settings` - The settings to use for the foo.
    ///
    /// Any id is taken, present or absent, and any settings: the foo holds
    /// exactly what it was given.
    pub fn new(id: Option<u64>, settings: Settings) -> (foo: Self)
        ensures
            foo.id == id,
            foo.settings == settings,
    {
        Foo { id, settings }
    }

    /// Gets a read-only reference to the foo's settings.
    pub fn settings(&self) -> (settings: &Settings)
        ensures
            *settings == self.settings,
    {
        &self.settings
    }
}

impl Default for Foo {
    /// A new, unsaved foo with the default settings.
    fn default() -> (foo: Self)
        ensures
            foo.id is None,
            foo.settings == (Settings { Style: Style::Standard }),
    {
        Foo { id: None, settings: Settings { Style: Style::Standard } }
    }
}

} // verus!
