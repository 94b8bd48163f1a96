use kinbrio::matrix::{login_choices, login_entry, IdentityProvider, LoginChoice, LoginFlow};
use kinbrio::project::get_grid_column;
use kinbrio::text::replace_all;

fn s(x: &str) -> String {
    x.to_string()
}

fn provider(name: &str, icon: Option<&str>) -> IdentityProvider {
    IdentityProvider { id: format!("oidc-{name}"), name: s(name), icon: icon.map(s) }
}

#[test]
fn choices_follow_the_announced_flows() {
    let flows = vec![
        LoginFlow::Other,
        LoginFlow::Sso(vec![provider("GitHub", Some("mxc://matrix.org/abc")), provider("GitLab", None)]),
        LoginFlow::Password,
        LoginFlow::Sso(vec![]),
    ];
    let choices = login_choices(&flows);
    assert_eq!(choices.len(), 4);
    assert!(matches!(&choices[0], LoginChoice::SsoIdp(p) if p.name == "GitHub"));
    assert!(matches!(&choices[1], LoginChoice::SsoIdp(p) if p.name == "GitLab"));
    assert!(matches!(choices[2], LoginChoice::Password));
    assert!(matches!(choices[3], LoginChoice::Sso));
    assert!(login_choices(&vec![]).is_empty());
}

#[test]
fn choice_names_and_icons() {
    let gh = LoginChoice::SsoIdp(provider("GitHub", Some("mxc://matrix.org/abc")));
    assert_eq!(gh.to_string(), "GitHub");
    assert_eq!(gh.get_icon_mxc().as_deref(), Some("mxc://matrix.org/abc"));
    assert_eq!(gh.get_icon().as_deref(), Some("https://matrix.org/_matrix/media/r0/download/matrix.org/abc"));
    assert_eq!(LoginChoice::Password.to_string(), "Username and password");
    assert_eq!(LoginChoice::Sso.to_string(), "SSO");
    assert_eq!(LoginChoice::Password.get_icon().as_deref(), Some("/fs/images/sso/user_password.svg"));
    assert!(LoginChoice::SsoIdp(provider("X", None)).get_icon().is_none());
}

#[test]
fn sign_in_page_entries() {
    let e = login_entry(&LoginChoice::Password, None).expect("password is offered");
    assert_eq!(e.url, "/login_by_username");
    assert_eq!(e.display, "Username and password");
    assert!(login_entry(&LoginChoice::Sso, Some(s("https://sso"))).is_none());
    let gh = LoginChoice::SsoIdp(provider("GitHub", Some("mxc://m/1")));
    assert!(login_entry(&gh, None).is_none());
    let e = login_entry(&gh, Some(s("https://sso/gh"))).expect("offered");
    assert_eq!(e.url, "https://sso/gh");
    assert_eq!(e.display, "GitHub");
    assert_eq!(e.logo, "https://matrix.org/_matrix/media/r0/download/m/1");
}

#[test]
fn replace_all_matches_std() {
    for (text, pat, to) in [
        ("mxc://a/mxc://b", "mxc://", "X"),
        ("aaaa", "aa", "b"),
        ("abc", "abcd", "z"),
        ("", "a", "b"),
        ("a b  c", " ", ""),
        ("\u{e9}t\u{e9}", "\u{e9}", "e"),
    ] {
        assert_eq!(replace_all(text, pat, to), text.replace(pat, to));
    }
}

#[test]
fn grid_columns() {
    // 1970-01-01 was a Thursday
    assert_eq!(get_grid_column(0, 86_400 * 3).as_deref(), Some("4 / span 3"));
    // 2023-11-13 was a Monday
    assert_eq!(get_grid_column(1_699_833_600, 1_699_833_600 + 86_399).as_deref(), Some("1 / span 0"));
    // the day before the epoch was a Wednesday
    assert_eq!(get_grid_column(-1, 0).as_deref(), Some("3 / span 1"));
    assert!(get_grid_column(i64::MAX, 0).is_none());
    // the ends of chrono's calendar
    let first = -8_334_601_228_800i64;
    let last = 8_210_266_876_799i64;
    for (ts, inside) in [(first, true), (first - 1, false), (last, true), (last + 1, false)] {
        assert_eq!(chrono::DateTime::from_timestamp(ts, 0).is_some(), inside);
        assert_eq!(get_grid_column(ts, 0).is_some(), inside);
    }
}
