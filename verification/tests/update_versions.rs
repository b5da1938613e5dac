use real_live_wall::update::{
    check, is_newer, normalize_version, parse_version, pick_windows_asset, select_windows_asset,
    GhAsset, GhRelease,
};

#[test]
fn strips_leading_v() {
    assert_eq!(normalize_version("v1.2.0"), "1.2.0");
    assert_eq!(normalize_version("V1.2.0"), "1.2.0");
    assert_eq!(normalize_version(" 1.2.0 "), "1.2.0");
    assert_eq!(normalize_version("1.2.0"), "1.2.0");
}

#[test]
fn compares_versions_numerically() {
    assert!(is_newer("1.2.0", "1.1.0"));
    assert!(is_newer("2.0.0", "1.9.9"));
    assert!(is_newer("1.1.0", "1.0.9"));
    assert!(is_newer("1.2", "1.1.9"));
    assert!(!is_newer("1.1.0", "1.1.0"));
    assert!(!is_newer("1.0.9", "1.1.0"));
    assert!(!is_newer("1.1.0", "1.1.0.1"));
}

#[test]
fn ignores_prerelease_and_build_suffixes() {
    assert!(is_newer("1.2.0-beta.1", "1.1.0"));
    assert!(!is_newer("1.2.0-beta.1", "1.2.0"));
    assert_eq!(parse_version("1.2.0+build5"), vec![1, 2, 0]);
}

#[test]
fn picks_windows_zip_asset() {
    let assets = vec![
        GhAsset {
            name: "source.tar.gz".into(),
            browser_download_url: "https://example.com/source.tar.gz".into(),
        },
        GhAsset {
            name: "real_live_wall-v1.2.0-windows-x64.zip".into(),
            browser_download_url: "https://example.com/win.zip".into(),
        },
    ];
    let picked = pick_windows_asset(&assets).expect("should find windows asset");
    assert_eq!(picked.name, "real_live_wall-v1.2.0-windows-x64.zip");
}

fn asset(name: &str, url: &str) -> GhAsset {
    GhAsset { name: name.to_string(), browser_download_url: url.to_string() }
}

#[test]
fn strips_repeated_v_and_unicode_space() {
    assert_eq!(normalize_version("\u{3000}vV2.0\t"), "2.0");
    assert_eq!(normalize_version("   "), "");
    assert_eq!(normalize_version("v"), "");
}

#[test]
fn parses_components_forgivingly() {
    assert_eq!(parse_version(""), vec![0]);
    assert_eq!(parse_version("1..3"), vec![1, 0, 3]);
    assert_eq!(parse_version(" 4 . +5 .x"), vec![4, 0]);
    assert_eq!(parse_version(" 4 . 5 .x"), vec![4, 5, 0]);
    assert_eq!(parse_version("1.2.3.+4"), vec![1, 2, 3, 0]);
    assert_eq!(parse_version("18446744073709551615.18446744073709551616"), vec![u64::MAX, 0]);
    assert_eq!(parse_version("2.-1"), vec![2, 0]);
}

#[test]
fn zero_padding_and_order_laws_on_examples() {
    assert!(!is_newer("1.2.0.0", "1.2"));
    assert!(!is_newer("1.2", "1.2.0.0"));
    assert!(is_newer("1.10", "1.9"));
    assert!(is_newer("3", "2.99"));
    assert!(!is_newer("2.99", "3"));
}

#[test]
fn falls_back_to_any_zip_and_compares_case_insensitively() {
    let only_zip = vec![asset("notes.txt", "u0"), asset("BUNDLE.ZIP", "u1"), asset("b.zip", "u2")];
    assert_eq!(pick_windows_asset(&only_zip).map(|a| a.browser_download_url.as_str()), Some("u1"));
    let upper = vec![asset("x.zip", "u0"), asset("App-WINDOWS.tar", "u1")];
    assert_eq!(pick_windows_asset(&upper).map(|a| a.browser_download_url.as_str()), Some("u1"));
    let none = vec![asset("a.tar.gz", "u0"), asset("zip", "u1")];
    assert!(pick_windows_asset(&none).is_none());
    let lowered = vec!["a.zip".to_string(), "b-windows".to_string()];
    assert_eq!(select_windows_asset(&lowered), Some(1));
}

fn release(tag: &str, body: Option<&str>, assets: Vec<GhAsset>) -> GhRelease {
    GhRelease {
        tag_name: tag.to_string(),
        html_url: "https://example.com/r".to_string(),
        body: body.map(|b| b.to_string()),
        assets,
    }
}

#[test]
fn check_reports_only_strictly_newer_releases() {
    let r = release("v1.3.0", Some("notes"), vec![asset("rlw-windows.zip", "https://e/w.zip")]);
    let info = check(r, "1.2.0").expect("newer release");
    assert_eq!(info.version, "1.3.0");
    assert_eq!(info.tag, "v1.3.0");
    assert_eq!(info.notes, "notes");
    assert_eq!(info.html_url, "https://example.com/r");
    assert_eq!(info.asset_url.as_deref(), Some("https://e/w.zip"));
    assert_eq!(info.asset_name.as_deref(), Some("rlw-windows.zip"));

    assert!(check(release("v1.2.0", None, vec![]), "1.2.0").is_none());
    assert!(check(release("v1.1.9", None, vec![]), "1.2.0").is_none());

    let bare = check(release("2.0", None, vec![asset("src.tar.gz", "u")]), "1.2.0").unwrap();
    assert_eq!(bare.notes, "");
    assert!(bare.asset_url.is_none() && bare.asset_name.is_none());
}

#[test]
fn normalizing_strips_space_after_the_v() {
    assert_eq!(normalize_version("v 1.2.0"), "1.2.0");
    assert_eq!(normalize_version(" v v1.0 "), "1.0");
    assert_eq!(normalize_version("V\t2"), "2");
}

#[test]
fn appending_dot_zero_changes_no_comparison() {
    for (a, b) in [("1.2", "1.1.9"), ("1.2", "1.2"), ("1", "1.0.1"), ("", "0"), ("1.2-beta", "1.2"), ("2+b", "1.9")] {
        let a0 = format!("{a}.0");
        assert_eq!(is_newer(&a0, b), is_newer(a, b));
        assert_eq!(is_newer(b, &a0), is_newer(b, a));
    }
}
