//! Descriptors for the page header's buttons.  Rendering and click wiring
//! live in the unverified shell; the core only pins down what each
//! descriptor holds.

use vstd::prelude::*;

verus! {

/// The HTML behaviour of a header button.
#[derive(Clone, Copy, Debug, PartialEq, Eq, Structural)]
pub enum ButtonType {
    Button,
    Submit,
    Reset,
}

impl ButtonType {
    /// The value of the button's `type` attribute.
    pub open spec fn spec_str(self) -> Seq<char> {
        match self {
            ButtonType::Button => "button"@,
            ButtonType::Submit => "submit"@,
            ButtonType::Reset => "reset"@,
        }
    }

    /// The value of the button's `type` attribute.
    pub fn as_str(&self) -> (r: &'static str)
        ensures
            r@ == self.spec_str(),
    {
        match self {
            ButtonType::Button => "button",
            ButtonType::Submit => "submit",
            ButtonType::Reset => "reset",
        }
    }
}

/// What a header button shows and does: its label, an optional icon class,
/// and its HTML type.  The click handler itself belongs to the shell.
pub struct HeaderButtonProps {
    label: String,
    icon_css: Option<String>,
    btn_type: ButtonType,
}

impl HeaderButtonProps {
    /// The button's label.
    pub closed spec fn spec_label(&self) -> Seq<char> {
        self.label@
    }

    /// The button's icon class, if any.
    pub closed spec fn spec_icon_css(&self) -> Option<String> {
        self.icon_css
    }

    /// The button's HTML type.
    pub closed spec fn spec_btn_type(&self) -> ButtonType {
        self.btn_type
    }

    /// A button from its parts.
    pub fn new(label: String, icon_css: Option<String>, btn_type: ButtonType) -> (b:
        HeaderButtonProps)
        ensures
            b.spec_label() == label@,
            b.spec_icon_css() == icon_css,
            b.spec_btn_type() == btn_type,
    {
        HeaderButtonProps { label, icon_css, btn_type }
    }

    /// The edit button: a plain button with the given label.
    pub fn edit(label: String) -> (b: HeaderButtonProps)
        ensures
            b.spec_label() == label@,
            b.spec_icon_css() is None,
            b.spec_btn_type() == ButtonType::Button,
    {
        HeaderButtonProps { label, icon_css: None, btn_type: ButtonType::Button }
    }

    /// A submit button with the given label.
    pub fn submit(label: String) -> (b: HeaderButtonProps)
        ensures
            b.spec_label() == label@,
            b.spec_icon_css() is None,
            b.spec_btn_type() == ButtonType::Submit,
    {
        HeaderButtonProps { label, icon_css: None, btn_type: ButtonType::Submit }
    }

    /// A reset button with the given label.
    pub fn reset(label: String) -> (b: HeaderButtonProps)
        ensures
            b.spec_label() == label@,
            b.spec_icon_css() is None,
            b.spec_btn_type() == ButtonType::Reset,
    {
        HeaderButtonProps { label, icon_css: None, btn_type: ButtonType::Reset }
    }

    /// A blank placeholder button.
    pub fn blank() -> (b: HeaderButtonProps)
        ensures
            b.spec_label().len() == 0,
            b.spec_icon_css() is None,
            b.spec_btn_type() == ButtonType::Button,
    {
        HeaderButtonProps { label: String::new(), icon_css: None, btn_type: ButtonType::Button }
    }

    /// The button's label, for rendering.
    pub fn label(&self) -> (l: &String)
        ensures
            l@ == self.spec_label(),
    {
        &self.label
    }

    /// The button's icon class, for rendering.
    pub fn icon_css(&self) -> (c: &Option<String>)
        ensures
            *c == self.spec_icon_css(),
    {
        &self.icon_css
    }

    /// The button's HTML type, for rendering.
    pub fn button_type(&self) -> (t: ButtonType)
        ensures
            t == self.spec_btn_type(),
    {
        self.btn_type
    }
}

} // verus!
