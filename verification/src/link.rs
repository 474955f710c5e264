//! The presentational hyperlink atom: its properties and the class text
//! its rendering carries. Turning the properties into markup stays with
//! the surrounding process.

use vstd::prelude::*;
use vstd::string::StringExecFns;

verus! {

/// The properties of a styled hyperlink.
pub struct LinkProps {
    pub href: String,
    pub class: Option<String>,
    pub title: Option<String>,
    pub target: Option<String>,
}

/// The class attribute a link renders with: the base class, then the
/// caller's own class when there is one.
pub open spec fn spec_link_class(class: Option<String>) -> Seq<char> {
    match class {
        None => "link"@,
        Some(c) => "link "@ + c@,
    }
}

impl LinkProps {
    /// The class attribute of this link.
    pub fn class_attribute(&self) -> (r: String)
        ensures
            r@ == spec_link_class(self.class),
    {
        match &self.class {
            None => "link".to_owned(),
            Some(c) => {
                let mut s = String::from_str("link ");
                s.append(c.as_str());
                s
            },
        }
    }
}

} // verus!
