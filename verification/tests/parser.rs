use lian::parser::{parse_installed_packages, parse_package_detail, parse_search_output};

#[test]
fn search_listing_of_the_repositories() {
    let out = "extra/firefox 134.0.1-1 [installed]\n    Fast, Private & Safe Web Browser\nextra/firefox-i18n-de 134.0.1-1\n    German language pack for Firefox\n";
    let r = parse_search_output(out, false);
    assert_eq!(r.len(), 2);
    assert_eq!(r[0].repo, "extra");
    assert_eq!(r[0].name, "firefox");
    assert_eq!(r[0].version, "134.0.1-1");
    assert_eq!(r[0].description, "Fast, Private & Safe Web Browser");
    assert!(r[0].installed);
    assert_eq!(r[1].repo, "extra");
    assert_eq!(r[1].name, "firefox-i18n-de");
    assert_eq!(r[1].version, "134.0.1-1");
    assert_eq!(r[1].description, "German language pack for Firefox");
    assert!(!r[1].installed);
}

#[test]
fn local_search_marks_everything_installed() {
    let out = "local/vim 9.1.0-1\n    Vi Improved\n";
    let r = parse_search_output(out, true);
    assert_eq!(r.len(), 1);
    assert_eq!(r[0].repo, "local");
    assert_eq!(r[0].name, "vim");
    assert!(r[0].installed);
}

#[test]
fn localized_installed_mark_is_recognised() {
    let out = "core/bash 5.2-1 [已安装]\n    The GNU Bourne Again shell\n";
    let r = parse_search_output(out, false);
    assert_eq!(r.len(), 1);
    assert!(r[0].installed);
}

#[test]
fn header_without_description_or_version() {
    let r = parse_search_output("aur/thing\naur/other 1.0\n", false);
    assert_eq!(r.len(), 2);
    assert_eq!(r[0].name, "thing");
    assert_eq!(r[0].version, "");
    assert_eq!(r[0].description, "");
    assert_eq!(r[1].name, "other");
    assert_eq!(r[1].version, "1.0");
}

#[test]
fn lines_that_are_no_headers_are_skipped() {
    let r = parse_search_output(":: searching\n    stray text\nextra/ok 1\n", false);
    assert_eq!(r.len(), 1);
    assert_eq!(r[0].name, "ok");
    assert!(parse_search_output("", false).is_empty());
}

#[test]
fn description_fields_in_order() {
    let out = "Name            : firefox\nVersion         : 134.0.1-1\nDepends On      : gtk3  libxt\n                  mime-types\nURL             : https://www.mozilla.org/firefox/\n";
    let d = parse_package_detail(out);
    assert_eq!(d.fields.len(), 4);
    assert_eq!(d.fields[0], ("Name".to_string(), "firefox".to_string()));
    assert_eq!(d.fields[1], ("Version".to_string(), "134.0.1-1".to_string()));
    assert_eq!(d.fields[2], ("Depends On".to_string(), "gtk3  libxt mime-types".to_string()));
    assert_eq!(d.fields[3], ("URL".to_string(), "https://www.mozilla.org/firefox/".to_string()));
}

#[test]
fn description_without_fields_is_empty() {
    assert!(parse_package_detail("").fields.is_empty());
    assert!(parse_package_detail("no colon here\n   nor here\n").fields.is_empty());
}

#[test]
fn installed_listing() {
    let out = "Name            : vim\nVersion         : 9.1-1\nDescription     : Vi Improved\nInstalled Size  : 4.5 MiB\n\nName            : zsh\nVersion         : 5.9-5\nDescription     : A very advanced shell\nInstalled Size  : 6.7 MiB\n";
    let p = parse_installed_packages(out);
    assert_eq!(p.len(), 2);
    assert_eq!(p[0].name, "vim");
    assert_eq!(p[0].version, "9.1-1");
    assert_eq!(p[0].description, "Vi Improved");
    assert_eq!(p[0].size, "4.5 MiB");
    assert_eq!(p[1].name, "zsh");
    assert_eq!(p[1].version, "5.9-5");
    assert_eq!(p[1].size, "6.7 MiB");
}

#[test]
fn installed_listing_with_localized_keys() {
    let out = "名称 : fcitx5\n版本 : 5.1-1\n描述 : 输入法框架\n安装后大小 : 12.0 MiB\n\n";
    let p = parse_installed_packages(out);
    assert_eq!(p.len(), 1);
    assert_eq!(p[0].name, "fcitx5");
    assert_eq!(p[0].version, "5.1-1");
    assert_eq!(p[0].description, "输入法框架");
    assert_eq!(p[0].size, "12.0 MiB");
}

#[test]
fn record_without_a_name_is_dropped() {
    let out = "Version : 1\n\nName : real\n";
    let p = parse_installed_packages(out);
    assert_eq!(p.len(), 1);
    assert_eq!(p[0].name, "real");
    assert!(parse_installed_packages("").is_empty());
}
