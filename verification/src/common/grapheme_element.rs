//! Elements of a drawing and the attaching of one element to another.
//!
//! Elements live in a table that their owner keeps; an element names its
//! parent and its children by their places in that table.

use vstd::prelude::*;

verus! {

/// Why an element could not be attached.
#[derive(Clone, Copy, Debug, PartialEq, Eq, Structural)]
pub enum GraphemeElementError {
    AlreadyChildOfSomeone,
    AlreadyMyChild,
}

impl GraphemeElementError {
    /// The sentence that describes the error.
    pub open spec fn description(self) -> Seq<char> {
        match self {
            GraphemeElementError::AlreadyChildOfSomeone => {
                "Element is already a child of some element."@
            },
            GraphemeElementError::AlreadyMyChild => "Element is already a child of this group."@,
        }
    }

    /// The sentence that describes the error, as a string.
    pub fn message(&self) -> (s: String)
        ensures
            s@ == self.description(),
    {
        match self {
            GraphemeElementError::AlreadyChildOfSomeone => {
                "Element is already a child of some element.".to_string()
            },
            GraphemeElementError::AlreadyMyChild => {
                "Element is already a child of this group.".to_string()
            },
        }
    }
}

/// What every element carries.
pub struct GraphemeElementInfo {
    /// The element's own place in the table.
    pub id: usize,
    /// Decides which element is drawn first: lower is drawn earlier and so
    /// ends up underneath.
    pub precedence: i32,
    /// The parent, if the element has one.
    pub parent: Option<usize>,
    /// Whether the element has to be updated before it is rendered.
    pub needs_update: bool,
    /// The children, in the order in which they were attached.
    pub children: Vec<usize>,
    /// Whether the element is drawn at all.
    pub visible: bool,
}

impl GraphemeElementInfo {
    /// Attaches the element whose info is `element` under the element whose
    /// info is `self`. An element without a parent is refused with
    /// `AlreadyChildOfSomeone`, and nothing changes. Any other element gets
    /// `self` as its parent and is appended to the children of `self`.
    pub fn attach(&mut self, element: &mut GraphemeElementInfo) -> (r: Result<
        (),
        GraphemeElementError,
    >)
        ensures
            old(element).parent.is_none() ==> {
                &&& r == Err::<(), GraphemeElementError>(GraphemeElementError::AlreadyChildOfSomeone)
                &&& *final(self) == *old(self)
                &&& *final(element) == *old(element)
            },
            old(element).parent.is_some() ==> {
                &&& r == Ok::<(), GraphemeElementError>(())
                &&& *final(element) == (GraphemeElementInfo {
                    parent: Some(old(self).id),
                    ..*old(element)
                })
                &&& final(self).children@ == old(self).children@.push(old(element).id)
                &&& final(self).id == old(self).id
                &&& final(self).precedence == old(self).precedence
                &&& final(self).parent == old(self).parent
                &&& final(self).needs_update == old(self).needs_update
                &&& final(self).visible == old(self).visible
            },
    {
        if element.parent.is_none() {
            Err(GraphemeElementError::AlreadyChildOfSomeone)
        } else {
            element.parent = Some(self.id);
            self.children.push(element.id);
            Ok(())
        }
    }
}

/// A part of a drawing that is updated and then rendered, and that groups
/// other parts under it as its children.
pub trait GraphemeElement {
    /// The info that the element carries.
    fn get_element_info(&self) -> &GraphemeElementInfo;

    /// The same, to be changed in place.
    fn get_element_info_mut(&mut self) -> &mut GraphemeElementInfo;

    /// Attaches the element whose info is `element` under `self`, by
    /// `GraphemeElementInfo::attach` on the info that `get_element_info_mut`
    /// hands out. Which info that is lies with the implementor, so this
    /// states the result and what becomes of `element` only.
    fn add(&mut self, element: &mut GraphemeElementInfo) -> (r: Result<(), GraphemeElementError>)
        ensures
            old(element).parent.is_none() ==> {
                &&& r == Err::<(), GraphemeElementError>(GraphemeElementError::AlreadyChildOfSomeone)
                &&& *final(element) == *old(element)
            },
            old(element).parent.is_some() ==> {
                &&& r == Ok::<(), GraphemeElementError>(())
                &&& final(element).parent.is_some()
                &&& final(element).id == old(element).id
                &&& final(element).precedence == old(element).precedence
                &&& final(element).needs_update == old(element).needs_update
                &&& final(element).children == old(element).children
                &&& final(element).visible == old(element).visible
            },
    {
        self.get_element_info_mut().attach(element)
    }
}

} // verus!
