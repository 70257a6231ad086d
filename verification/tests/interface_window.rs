use korangar::interface::{hover_text, CharacterCreationWindow, SizeConstraint, UserEvent, WindowElement};

#[test]
fn character_creation_window_has_its_class() {
    let window = CharacterCreationWindow::new(2);
    assert_eq!(window.slot(), 2);
    assert_eq!(CharacterCreationWindow::WINDOW_CLASS, "character_creation");
    assert_eq!(window.window_class(), Some("character_creation"));
}

#[test]
fn character_creation_window_holds_a_name_field_and_a_button() {
    let layout = CharacterCreationWindow::new(0).to_window();
    assert_eq!(layout.title, "Create Character");
    assert_eq!(layout.window_class, Some("character_creation"));
    assert_eq!(
        layout.elements,
        vec![
            WindowElement::InputField { maximum_length: 24, hidden: false, ghost_text: "character name" },
            WindowElement::FormButton { label: "done" },
        ]
    );
    assert_eq!(
        layout.constraint,
        SizeConstraint { minimum_width: 200, width: 250, maximum_width: 300, height: None, maximum_height_percent: 80 }
    );
}

#[test]
fn character_is_created_once_a_name_is_entered() {
    assert!(!CharacterCreationWindow::can_submit(""));
    assert!(CharacterCreationWindow::can_submit("a"));
    assert!(CharacterCreationWindow::can_submit("Lucille"));
    let window = CharacterCreationWindow::new(4);
    assert_eq!(window.submit("Lucille"), UserEvent::CreateCharacter(4, "Lucille".to_string()));
}

#[test]
fn hover_text_ends_before_the_first_mark() {
    assert_eq!(hover_text("Kafra Employee#prt1"), "Kafra Employee");
    assert_eq!(hover_text("Poring"), "Poring");
    assert_eq!(hover_text("#hidden"), "");
    assert_eq!(hover_text(""), "");
    assert_eq!(hover_text("a#b#c"), "a");
    assert_eq!(hover_text("Zöe#1"), "Zöe");
    assert_eq!(hover_text("trailing#"), "trailing");
}
