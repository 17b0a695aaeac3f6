use codex_orchestration::login::AuthMode;
use codex_orchestration::login::LoginStatus;
use codex_orchestration::login::should_show_login_screen;
use codex_orchestration::login::should_show_onboarding;

#[test]
fn shows_login_when_not_authenticated() {
    assert!(should_show_login_screen(
        LoginStatus::NotAuthenticated,
        AuthMode::ChatGPT
    ));
}

#[test]
fn shows_login_when_api_key_but_prefers_chatgpt() {
    assert!(should_show_login_screen(
        LoginStatus::AuthMode(AuthMode::ApiKey),
        AuthMode::ChatGPT
    ))
}

#[test]
fn hides_login_when_api_key_and_prefers_api_key() {
    assert!(!should_show_login_screen(
        LoginStatus::AuthMode(AuthMode::ApiKey),
        AuthMode::ApiKey
    ))
}

#[test]
fn hides_login_when_chatgpt_and_prefers_chatgpt() {
    assert!(!should_show_login_screen(
        LoginStatus::AuthMode(AuthMode::ChatGPT),
        AuthMode::ChatGPT
    ))
}

#[test]
fn onboarding_shown_for_trust_screen_even_when_logged_in() {
    assert!(should_show_onboarding(
        LoginStatus::AuthMode(AuthMode::ChatGPT),
        AuthMode::ChatGPT,
        true
    ));
    assert!(!should_show_onboarding(
        LoginStatus::AuthMode(AuthMode::ChatGPT),
        AuthMode::ChatGPT,
        false
    ));
}
