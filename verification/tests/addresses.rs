use dsh_launcher::address::{begins_with_scheme, check_parsed, normalize_url, DSH_URL};
use dsh_launcher::error::LauncherError;
use dsh_launcher::state::AppState;
use dsh_launcher::text::{contains, starts_with, trim, white_space};

#[test]
fn bare_address_gets_a_scheme() {
    assert_eq!(normalize_url("127.0.0.1:3080"), "http://127.0.0.1:3080");
    assert_eq!(normalize_url("127.0.0.1:3080"), DSH_URL);
    assert_eq!(normalize_url("  192.168.1.50:3080\n"), "http://192.168.1.50:3080");
    assert_eq!(normalize_url(""), "http://");
    assert_eq!(normalize_url(" \t "), "http://");
}

#[test]
fn address_with_a_scheme_is_kept() {
    assert_eq!(normalize_url("http://box:3080"), "http://box:3080");
    assert_eq!(normalize_url("\u{3000}https://box/a b\u{a0}"), "https://box/a b");
    assert_eq!(normalize_url("HTTP://box"), "HTTP://box");
    assert_eq!(normalize_url(" ftp://box "), "ftp://box");
    assert_eq!(normalize_url("ftp://h:3080"), "ftp://h:3080");
    assert_eq!(normalize_url("a+b-c.9://x"), "a+b-c.9://x");
    assert_eq!(normalize_url("x://"), "x://");
}

#[test]
fn what_is_no_scheme_gets_one() {
    for input in ["http:/box", "http:", "box:3080", "9p://x", "://x", "+a://x", "a b://x", "a_b://x"] {
        assert!(!begins_with_scheme(input), "{}", input);
        assert_eq!(normalize_url(input), format!("http://{}", input));
    }
    assert_eq!(normalize_url("例://x"), "http://例://x");
    assert_eq!(normalize_url("box/?next=http://y"), "http://box/?next=http://y");
}

#[test]
fn normalizing_twice_changes_nothing() {
    for input in ["", " x ", "127.0.0.1:3080", "https://a", "http://", " ftp://a ", "\u{2003}例子\u{2003}"] {
        let once = normalize_url(input);
        assert_eq!(normalize_url(&once), once);
        assert_eq!(normalize_url(input.trim()), once);
    }
}

#[test]
fn white_space_agrees_with_the_standard_library() {
    for v in 0..=0x10ffffu32 {
        if let Some(c) = char::from_u32(v) {
            assert_eq!(white_space(c), c.is_whitespace(), "{:x}", v);
        }
    }
}

#[test]
fn text_helpers_agree_with_the_standard_library() {
    let texts = ["", " ", "a", " a ", "\t\n x y \u{85}", "aab", "abab", "无法 aab", "\u{200b}x"];
    let parts = ["", "a", "ab", "aab", "bab", "无法", "x y", "aabaab"];
    for t in texts {
        assert_eq!(trim(t), t.trim());
        assert_eq!(trim(&trim(t)), trim(t));
        for p in parts {
            assert_eq!(contains(t, p), t.contains(p));
            assert_eq!(starts_with(t, p), t.starts_with(p));
        }
    }
}

#[test]
fn selecting_an_address_remembers_its_navigable_form() {
    let mut state = AppState::default();
    assert_eq!(state.target_url, "http://127.0.0.1:3080");
    assert_eq!(state.set_dsh_url(" 192.168.1.50:3080 "), Ok(()));
    assert_eq!(state.target_url, "http://192.168.1.50:3080");
    assert_eq!(state.resolve_target("https://example.net/dsh"), Ok(()));
    assert_eq!(state.target_url, "https://example.net/dsh");
}

#[test]
fn bad_addresses_are_refused_with_the_parser_message() {
    let mut state = AppState::default();
    for (input, reason) in [
        ("", "empty host"),
        ("box:port", "invalid port number"),
        ("http://[::1", "invalid IPv6 address"),
        ("1.2.3.999", "invalid IPv4 address"),
    ] {
        let error = state.set_dsh_url(input).unwrap_err();
        assert_eq!(error, LauncherError::BadAddress(reason.to_string()));
        assert_eq!(error.message(), format!("地址无效：{}", reason));
        assert_eq!(state, AppState::default());
    }
}

#[test]
fn other_schemes_are_refused() {
    let mut state = AppState::default();
    for input in ["ftp://box", "FTP://box", "file:///etc/hosts", "ws://box:3080", "x-y.z+1://a"] {
        assert_eq!(state.set_dsh_url(input), Err(LauncherError::UnsupportedScheme), "{}", input);
        assert_eq!(state.resolve_target(input), Err(LauncherError::UnsupportedScheme));
        assert_eq!(state, AppState::default());
    }
    assert_eq!(
        state.set_dsh_url("ftp://box:port"),
        Err(LauncherError::BadAddress("invalid port number".to_string()))
    );
    assert_eq!(state, AppState::default());
}

#[test]
fn the_case_of_a_scheme_makes_no_difference() {
    let mut state = AppState::default();
    assert_eq!(state.set_dsh_url("HTTP://box"), Ok(()));
    assert_eq!(state.target_url, "HTTP://box");
    assert_eq!(state.set_dsh_url("hTTpS://box"), Ok(()));
    assert_eq!(state.target_url, "hTTpS://box");
}

#[test]
fn only_web_schemes_are_accepted() {
    assert_eq!(check_parsed(Ok("http".to_string())), Ok(()));
    assert_eq!(check_parsed(Ok("https".to_string())), Ok(()));
    assert_eq!(check_parsed(Ok("ftp".to_string())), Err(LauncherError::UnsupportedScheme));
    assert_eq!(check_parsed(Ok("HTTP".to_string())), Err(LauncherError::UnsupportedScheme));
    assert_eq!(
        check_parsed(Err("empty host".to_string())),
        Err(LauncherError::BadAddress("empty host".to_string()))
    );
}

#[test]
fn a_poisoned_lock_refuses_a_good_address() {
    let mut state = AppState { target_poisoned: true, ..AppState::default() };
    assert_eq!(state.set_dsh_url("box"), Err(LauncherError::StateLock));
    assert_eq!(state.target_url, DSH_URL);
    assert_eq!(
        state.set_dsh_url(""),
        Err(LauncherError::BadAddress("empty host".to_string()))
    );
    assert_eq!(
        state.select_parsed("x".to_string(), Ok("file".to_string())),
        Err(LauncherError::UnsupportedScheme)
    );
}

#[test]
fn messages() {
    assert_eq!(LauncherError::StateLock.message(), "状态锁异常");
    assert_eq!(LauncherError::AlreadyRunning.message(), "DSH 进程已在运行中");
    assert_eq!(LauncherError::NotRunning.message(), "DSH 未在运行");
    assert_eq!(
        LauncherError::SpawnFailed("gone".to_string()).message(),
        "无法启动 npx（请确认已安装 Node.js 且 npx 位于 PATH 中）: gone"
    );
    assert_eq!(LauncherError::NoStdout.message(), "无法读取子进程 stdout");
    assert_eq!(LauncherError::NoStderr.message(), "无法读取子进程 stderr");
    assert_eq!(LauncherError::NoMainWindow.message(), "无主窗口");
    assert_eq!(LauncherError::PageNotLoaded.message(), "网页尚未加载");
    assert_eq!(LauncherError::BadAddress("e".to_string()).message(), "地址无效：e");
    assert_eq!(LauncherError::UnsupportedScheme.message(), "仅支持 http/https 地址");
    assert_eq!(LauncherError::CacheDirUnknown("e".to_string()).message(), "无法获取缓存目录：e");
    assert_eq!(LauncherError::CacheDirNotCreated("e".to_string()).message(), "无法创建缓存目录：e");
    assert_eq!(LauncherError::Host("e".to_string()).message(), "e");
}
