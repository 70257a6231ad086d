//! Windows of the user interface, described as data for the overlay pass.

use vstd::prelude::*;
use vstd::string::StrSliceExecFns;

verus! {

/// The text shown next to the cursor for a hovered entity: its name up to,
/// and without, the first `#`. What follows the mark is an identifier that
/// is not meant for the player.
pub fn hover_text<'a>(name: &'a str) -> (shown: &'a str)
    ensures
        shown@.len() <= name@.len(),
        shown@ == name@.subrange(0, shown@.len() as int),
        !shown@.contains('#'),
        shown@.len() == name@.len() || name@[shown@.len() as int] == '#',
{
    let length = name.unicode_len();
    let mut end: usize = 0;
    while end < length
        invariant
            end <= length,
            length == name@.len(),
            forall|i: int| 0 <= i < end ==> name@[i] != '#',
        ensures
            end <= length,
            forall|i: int| 0 <= i < end ==> name@[i] != '#',
            end == length || name@[end as int] == '#',
        decreases length - end,
    {
        if name.get_char(end) == '#' {
            break;
        }
        end = end + 1;
    }
    let shown = name.substring_char(0, end);
    assert(!shown@.contains('#')) by {
        if shown@.contains('#') {
            let k = choose|k: int| 0 <= k < shown@.len() && shown@[k] == '#';
            assert(name@[k] == '#');
        }
    }
    shown
}

/// How wide and how high a window may be. Widths are in pixels; the height
/// follows the content up to a share of the available space.
#[derive(Clone, Copy, Debug, PartialEq, Eq, Structural)]
pub struct SizeConstraint {
    pub minimum_width: u32,
    pub width: u32,
    pub maximum_width: u32,
    /// Fixed height in pixels, or none if the height follows the content.
    pub height: Option<u32>,
    /// Upper bound of the height, in percent of the available space.
    pub maximum_height_percent: u32,
}

/// What a window is made of.
#[derive(Clone, Copy, Debug, PartialEq, Eq)]
pub enum WindowElement {
    /// A line of text input that holds at most `maximum_length` characters
    /// and shows `ghost_text` while it is empty.
    InputField { maximum_length: usize, hidden: bool, ghost_text: &'static str },
    /// A button that submits the form once the form allows it.
    FormButton { label: &'static str },
}

/// A window before it is laid out.
pub struct WindowLayout {
    pub title: &'static str,
    pub window_class: Option<&'static str>,
    pub elements: Vec<WindowElement>,
    pub constraint: SizeConstraint,
}

/// What the interface asks the driver to do.
#[derive(Debug, PartialEq, Eq)]
pub enum UserEvent {
    /// Create a character of the given name in the given slot.
    CreateCharacter(usize, String),
}

/// The window in which a new character gets its name.
#[derive(Clone, Copy, Debug, PartialEq, Eq, Structural)]
pub struct CharacterCreationWindow {
    slot: usize,
}

impl CharacterCreationWindow {
    /// At most one window of a class is open at a time.
    pub const WINDOW_CLASS: &'static str = "character_creation";

    /// The character slot that the window fills.
    pub closed spec fn spec_slot(&self) -> usize {
        self.slot
    }

    /// A window for the given character slot.
    pub fn new(slot: usize) -> (window: CharacterCreationWindow)
        ensures
            window.spec_slot() == slot,
    {
        CharacterCreationWindow { slot }
    }

    /// The character slot that the window fills.
    pub fn slot(&self) -> (slot: usize)
        ensures
            slot == self.spec_slot(),
    {
        self.slot
    }

    /// The class of the window.
    pub fn window_class(&self) -> (class: Option<&'static str>)
        ensures
            class == Some(Self::WINDOW_CLASS),
    {
        Some(Self::WINDOW_CLASS)
    }

    /// The size of the window: between 200 and 300 pixels wide, 250 by
    /// default, and as high as its content up to 80 percent of the space.
    pub open spec fn spec_constraint() -> SizeConstraint {
        SizeConstraint {
            minimum_width: 200,
            width: 250,
            maximum_width: 300,
            height: None,
            maximum_height_percent: 80,
        }
    }

    /// The elements of the window: the field for the name, which takes up to
    /// 24 visible characters, and the button that submits it.
    pub open spec fn spec_elements() -> Seq<WindowElement> {
        seq![
            WindowElement::InputField { maximum_length: 24, hidden: false, ghost_text: "character name" },
            WindowElement::FormButton { label: "done" },
        ]
    }

    /// Describes the window: its title, class, elements and size.
    pub fn to_window(&self) -> (layout: WindowLayout)
        ensures
            layout.title == "Create Character",
            layout.window_class == Some(Self::WINDOW_CLASS),
            layout.elements@ == Self::spec_elements(),
            layout.constraint == Self::spec_constraint(),
    {
        let mut elements: Vec<WindowElement> = Vec::new();
        elements.push(
            WindowElement::InputField { maximum_length: 24, hidden: false, ghost_text: "character name" },
        );
        elements.push(WindowElement::FormButton { label: "done" });
        assert(elements@ =~= Self::spec_elements());
        WindowLayout {
            title: "Create Character",
            window_class: Some(Self::WINDOW_CLASS),
            elements,
            constraint: SizeConstraint {
                minimum_width: 200,
                width: 250,
                maximum_width: 300,
                height: None,
                maximum_height_percent: 80,
            },
        }
    }

    /// The form can be submitted once a name is entered.
    pub fn can_submit(name: &str) -> (allowed: bool)
        ensures
            allowed == (name@.len() > 0),
    {
        !name.is_empty()
    }

    /// The event that submitting the form raises: the creation of a
    /// character of the entered name in the slot of the window.
    pub fn submit(&self, name: &str) -> (event: UserEvent)
        ensures
            event matches UserEvent::CreateCharacter(slot, created) && slot == self.spec_slot() && created@ == name@,
    {
        UserEvent::CreateCharacter(self.slot, name.to_owned())
    }
}

} // verus!
