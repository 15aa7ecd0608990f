use greeting_bot::recipient::{Outbound, User};

#[test]
fn a_recipient_is_known_by_its_identity() {
    let user = User::new("42", "masha");
    assert_eq!(user.id, "42");
    assert_eq!(user.username, "masha");
    assert!(user.has_id(&"42".to_string()));
    assert!(!user.has_id(&"masha".to_string()));
    assert!(!user.has_id(&"4".to_string()));
    assert!(!user.has_id(&"".to_string()));
}

#[test]
fn a_copy_holds_the_same_text() {
    let message = Outbound { to: User::new("-100", "channel"), text: "Привет ❄️".to_string() };
    let copy = message.clone();
    assert_eq!(copy.to.id, "-100");
    assert_eq!(copy.to.username, "channel");
    assert_eq!(copy.text, "Привет ❄️");
}
