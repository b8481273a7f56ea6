use code_warrior::email::templates::EmailTemplate;

#[test]
fn subjects_per_template() {
    let v = EmailTemplate::Verification {
        username: None,
        verification_link: "https://example.test/v".to_string(),
    };
    let p = EmailTemplate::PasswordReset {
        username: None,
        reset_link: "https://example.test/r".to_string(),
    };
    let w = EmailTemplate::Welcome { username: None };
    assert_eq!(v.subject(), "Verify your Code Warrior account");
    assert_eq!(p.subject(), "Reset your Code Warrior password");
    assert_eq!(w.subject(), "Welcome to Code Warrior!");
}

#[test]
fn verification_text_is_exact() {
    let t = EmailTemplate::Verification {
        username: Some("Ada".to_string()),
        verification_link: "https://example.test/v?t=1".to_string(),
    };
    assert_eq!(t.render_text(), "CODE WARRIOR - Verify Your Email\n\nHey Ada,\n\nThanks for joining Code Warrior! Before you can start your journey to master C programming, please verify your email address by visiting the link below:\n\nhttps://example.test/v?t=1\n\nThis link will expire in 24 hours. If you didn't create an account, you can safely ignore this email.\n\n---\n\u{a9} 2024 Code Warrior. Master C programming through adventure.");
}

#[test]
fn password_reset_text_is_exact() {
    let t = EmailTemplate::PasswordReset {
        username: None,
        reset_link: "https://example.test/r?t=2".to_string(),
    };
    assert_eq!(t.render_text(), "CODE WARRIOR - Password Reset\n\nHey there,\n\nWe received a request to reset your Code Warrior password. Visit the link below to create a new password:\n\nhttps://example.test/r?t=2\n\nThis link will expire in 1 hour for security reasons.\n\n\u{26a0}\u{fe0f} If you didn't request a password reset, please ignore this email. Your password will remain unchanged.\n\n---\n\u{a9} 2024 Code Warrior. Master C programming through adventure.");
}

#[test]
fn welcome_text_is_exact() {
    let t = EmailTemplate::Welcome { username: Some("Ada".to_string()) };
    assert_eq!(t.render_text(), "CODE WARRIOR - Welcome!\n\nWelcome, Ada!\n\nYour email has been verified and you're ready to begin your journey to master C programming!\n\nWhat awaits you:\n\n\u{1f5e1}\u{fe0f} Battle through coding challenges that teach real C concepts\n\u{1f3f0} Explore a world where memory management is magic\n\u{2b50} Earn XP and unlock new levels as you progress\n\nStart your adventure: https://code-warrior-seven.vercel.app\n\n---\n\u{a9} 2024 Code Warrior. Master C programming through adventure.");
}

#[test]
fn html_renders_carry_greeting_and_link() {
    let t = EmailTemplate::Verification {
        username: Some("Ada".to_string()),
        verification_link: "https://example.test/v?t=1".to_string(),
    };
    let html = t.render_html();
    assert!(html.starts_with("<!DOCTYPE html>"));
    assert!(html.ends_with("</html>"));
    assert!(html.contains("Hey Ada,"));
    assert_eq!(html.matches("https://example.test/v?t=1").count(), 2);
    assert!(html.contains("Verify Email"));

    let t = EmailTemplate::PasswordReset {
        username: None,
        reset_link: "https://example.test/r?t=2".to_string(),
    };
    let html = t.render_html();
    assert!(html.contains("Hey there,"));
    assert_eq!(html.matches("https://example.test/r?t=2").count(), 2);
    assert!(html.contains("Reset Password"));

    let t = EmailTemplate::Welcome { username: None };
    let html = t.render_html();
    assert!(html.contains("Welcome, Warrior!"));
    assert!(html.contains("Start Your Adventure"));
}
