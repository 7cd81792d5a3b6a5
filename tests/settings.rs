use roblox_group_finder::config::{get_config, ConfigArgs, ConfigError};
use roblox_group_finder::text::split_lines;

fn args() -> ConfigArgs {
    ConfigArgs {
        browser_id: Some("browser".to_string()),
        cookie: Some("session".to_string()),
        ..ConfigArgs::default()
    }
}

#[test]
fn defaults_fill_absent_settings() {
    let config = get_config(args(), "1.2.3.4:80", "").unwrap();
    let s = &config.settings;
    assert_eq!(s.retry_limit, 5);
    assert_eq!(s.funds_threshold, 0);
    assert_eq!(s.timeout_ms, 30000);
    assert_eq!(s.connect_timeout_ms, 10000);
    assert_eq!(s.batch_wait_ms, 625);
    assert_eq!(s.detailed_wait_ms, 8000);
    assert_eq!(s.user_agent, "");
    assert_eq!(s.browser_id, "browser");
    assert_eq!(s.cookie, "session");
}

#[test]
fn given_settings_win() {
    let mut a = args();
    a.retry_limit = Some(2);
    a.funds_threshold = Some(100);
    a.batch_wait = Some(1);
    a.user_agent = Some("agent".to_string());
    let config = get_config(a, "", "h:1").unwrap();
    assert_eq!(config.settings.retry_limit, 2);
    assert_eq!(config.settings.funds_threshold, 100);
    assert_eq!(config.settings.batch_wait_ms, 1);
    assert_eq!(config.settings.user_agent, "agent");
}

#[test]
fn browser_id_and_account_are_required() {
    let mut a = args();
    a.browser_id = None;
    let e = get_config(a, "", "").unwrap_err();
    assert_eq!(e, ConfigError::NoBrowserId);
    assert_eq!(e.message(), "No browser ID provided");
    let mut a = args();
    a.cookie = None;
    let e = get_config(a, "", "").unwrap_err();
    assert_eq!(e, ConfigError::NoAccount);
    assert_eq!(e.message(), "No group claimer account provided");
}

#[test]
fn proxy_lists_get_their_schemes() {
    let config = get_config(args(), "a:1\r\nb:2\n", "c:3").unwrap();
    assert_eq!(config.proxies, "http://a:1\nhttp://b:2\nsocks5://c:3");
    let lines = config.proxy_lines().unwrap();
    assert_eq!(lines, vec!["http://a:1", "http://b:2", "socks5://c:3"]);
    let only_socks = get_config(args(), "", "c:3\nd:4").unwrap();
    assert_eq!(only_socks.proxies, "socks5://c:3\nsocks5://d:4");
}

#[test]
fn empty_proxy_files_fail_the_start() {
    let config = get_config(args(), "", "").unwrap();
    assert_eq!(config.proxies, "");
    let e = config.proxy_lines().unwrap_err();
    assert_eq!(e, ConfigError::NoProxies);
    assert_eq!(e.message(), "No proxies provided");
}

#[test]
fn lines_follow_std() {
    for text in ["", "a", "a\n", "a\r\nb", "\n", "a\n\nb\n", "x\r", "é\nü"] {
        let ours = split_lines(text);
        let std_lines: Vec<String> = text.lines().map(|l| l.to_string()).collect();
        assert_eq!(ours, std_lines, "text {text:?}");
    }
}

