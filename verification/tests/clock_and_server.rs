use aiqa::server::classify_lowered;
use aiqa::server::classify_server;
use aiqa::server::reaction_plan;
use aiqa::server::ReactionCall;
use aiqa::server::ServerType;
use aiqa::server::REACTION_CODE;
use aiqa::text::contains_str;
use aiqa::theme::flip;
use aiqa::theme::initial_theme;
use aiqa::theme::Theme;

#[test]
fn theme_clock_initialisation() {
    for hour in 0..24u32 {
        let t = initial_theme(hour);
        if (6..18).contains(&hour) {
            assert_eq!(t, Theme::Light);
        } else {
            assert_eq!(t, Theme::Dark);
        }
    }
}

#[test]
fn theme_flip_complements() {
    assert_eq!(flip(Theme::Light), Theme::Dark);
    assert_eq!(flip(Theme::Dark), Theme::Light);
    assert_eq!(flip(flip(Theme::Light)), Theme::Light);
}

#[test]
fn server_classification() {
    assert_eq!(classify_server("NapCat.Onebot V4"), Some(ServerType::NapCat));
    assert_eq!(classify_server("Lagrange.OneBot"), Some(ServerType::Lagrange));
    assert_eq!(classify_server("go-cqhttp"), None);
    assert_eq!(classify_server(""), None);
    assert_eq!(classify_lowered("some napcat build"), Some(ServerType::NapCat));
    assert_eq!(classify_lowered("lagrange"), Some(ServerType::Lagrange));
    assert_eq!(classify_lowered("NAPCAT"), None);
}

#[test]
fn substring_search() {
    assert!(contains_str("abcdef", "cde"));
    assert!(contains_str("abcdef", ""));
    assert!(!contains_str("abcdef", "cdf"));
    assert!(!contains_str("ab", "abc"));
    assert!(contains_str("aaab", "aab"));
}

#[test]
fn reaction_planning() {
    assert_eq!(REACTION_CODE, "424");
    assert_eq!(reaction_plan(None, Some(7), 11, true), None);
    assert_eq!(
        reaction_plan(Some(ServerType::NapCat), None, 11, true),
        Some(ReactionCall::NapCat { message_id: 11 })
    );
    assert_eq!(reaction_plan(Some(ServerType::Lagrange), None, 11, true), None);
    assert_eq!(
        reaction_plan(Some(ServerType::Lagrange), Some(7), 11, false),
        Some(ReactionCall::Lagrange { group_id: 7, message_id: 11, is_add: false })
    );
}
