use lian::catalog::PackageManager;
use lian::listing::{succeeded, summarize, CommandOutput, Query, QueryError};

fn ok(stdout: &str) -> Option<CommandOutput> {
    Some(CommandOutput { success: true, stdout: stdout.to_string() })
}

fn failed(stdout: &str) -> Option<CommandOutput> {
    Some(CommandOutput { success: false, stdout: stdout.to_string() })
}

fn strings(v: &[&str]) -> Vec<String> {
    v.iter().map(|s| s.to_string()).collect()
}

#[test]
fn success_needs_a_started_command() {
    assert!(succeeded(&ok("")));
    assert!(!succeeded(&failed("x")));
    assert!(!succeeded(&None));
}

#[test]
fn installed_packages_are_counted_by_line() {
    assert_eq!(PackageManager::count_installed(&ok("a 1\nb 2\nc 3\n")), 3);
    assert_eq!(PackageManager::count_installed(&ok("a 1\nb 2")), 2);
    assert_eq!(PackageManager::count_installed(&ok("")), 0);
    assert_eq!(PackageManager::count_installed(&failed("a 1\n")), 1);
    assert_eq!(PackageManager::count_installed(&None), 0);
}

#[test]
fn updates_come_from_the_first_command_that_succeeded() {
    assert_eq!(
        PackageManager::check_updates(&ok("a 1 -> 2\nb 1 -> 3\n"), &ok("z 1 -> 2\n")),
        strings(&["a 1 -> 2", "b 1 -> 3"])
    );
    assert_eq!(
        PackageManager::check_updates(&failed("a 1 -> 2\n"), &ok("z 1 -> 2\n")),
        strings(&["z 1 -> 2"])
    );
    assert_eq!(PackageManager::check_updates(&None, &ok("z 1 -> 2\n")), strings(&["z 1 -> 2"]));
    assert!(PackageManager::check_updates(&None, &failed("z")).is_empty());
    assert!(PackageManager::check_updates(&None, &None).is_empty());
    assert!(PackageManager::check_updates(&ok(""), &ok("z")).is_empty());
}

#[test]
fn explicit_packages_or_the_reason() {
    assert_eq!(PackageManager::get_explicit_packages(&ok("a 1\n")), Ok("a 1\n".to_string()));
    assert_eq!(PackageManager::get_explicit_packages(&failed("a")), Err(QueryError::Failed));
    assert_eq!(PackageManager::get_explicit_packages(&None), Err(QueryError::Unavailable));
}

#[test]
fn installed_packages_with_size() {
    let out = "Name : vim\nVersion : 9\nInstalled Size : 4 MiB\n\nName : zsh\nVersion : 5\n";
    let p = PackageManager::get_installed_packages_with_size(&ok(out));
    assert_eq!(p.len(), 2);
    assert_eq!(p[0].name, "vim");
    assert_eq!(p[0].size, "4 MiB");
    assert_eq!(p[1].name, "zsh");
    assert!(PackageManager::get_installed_packages_with_size(&failed(out)).is_empty());
    assert!(PackageManager::get_installed_packages_with_size(&None).is_empty());
}

#[test]
fn searches() {
    let out = "extra/vim 9.1-1\n    Vi Improved\n";
    let local = PackageManager::search_local("vim", &ok(out));
    assert_eq!(local.len(), 1);
    assert!(local[0].installed);
    let remote = PackageManager::search_remote("vim", &ok(out));
    assert_eq!(remote.len(), 1);
    assert!(!remote[0].installed);
    assert_eq!(remote[0].description, "Vi Improved");
    assert!(PackageManager::search_local("  ", &ok(out)).is_empty());
    assert!(PackageManager::search_remote("", &ok(out)).is_empty());
    assert!(PackageManager::search_remote("vim", &failed(out)).is_empty());
    assert!(PackageManager::search_local("vim", &None).is_empty());
}

#[test]
fn descriptions_or_the_reason() {
    let d = PackageManager::package_info_local(&ok("Name : vim\nVersion : 9\n")).unwrap();
    assert_eq!(d.fields, vec![
        ("Name".to_string(), "vim".to_string()),
        ("Version".to_string(), "9".to_string())
    ]);
    let d = PackageManager::package_info_remote(&ok("Name : zsh\n")).unwrap();
    assert_eq!(d.fields.len(), 1);
    match PackageManager::package_info_local(&failed("x")) {
        Err(e) => assert_eq!(e, QueryError::Failed),
        Ok(_) => panic!("a description of a failed command"),
    }
    match PackageManager::package_info_remote(&None) {
        Err(e) => assert_eq!(e, QueryError::Unavailable),
        Ok(_) => panic!("a description of no command"),
    }
}

#[test]
fn files_and_directories_of_a_package() {
    let out = "vim /usr/\nvim /usr/bin/\nvim /usr/bin/vim\nvim /usr/share/vim/vim91/doc/a b.txt\nnospace\n";
    assert_eq!(
        PackageManager::package_files(&ok(out)),
        strings(&["/usr/bin/vim", "/usr/share/vim/vim91/doc/a b.txt"])
    );
    assert_eq!(PackageManager::package_dirs(&ok(out)), strings(&["/usr/", "/usr/bin/"]));
    assert!(PackageManager::package_files(&failed(out)).is_empty());
    assert!(PackageManager::package_dirs(&None).is_empty());
    assert_eq!(PackageManager::package_files(&ok("vim \n")), strings(&[""]));
}

#[test]
fn summary_of_a_description() {
    let info = "Name            : vim\nVersion         : 9.1-1\nDownload Size   : 2 MiB\nInstalled Size  : 4 MiB\nDepends On      : glibc  libgcrypt\nRequired By     : gvim\n";
    let s = summarize(info, false);
    assert_eq!(s.name.iter().collect::<String>(), "vim");
    assert_eq!(s.version.iter().collect::<String>(), "9.1-1");
    assert_eq!(s.size.iter().collect::<String>(), "2 MiB");
    assert_eq!(s.relation.iter().collect::<String>(), "glibc  libgcrypt");
    let s = summarize(info, true);
    assert_eq!(s.size.iter().collect::<String>(), "4 MiB");
    assert_eq!(s.relation.iter().collect::<String>(), "gvim");
}

#[test]
fn install_preview() {
    let entries = vec![
        (
            "vim".to_string(),
            ok("Name : vim\nVersion : 9.1-1\nInstalled Size : 4 MiB\nDepends On : glibc\n"),
        ),
        ("ghost".to_string(), failed("")),
        ("gone".to_string(), None),
        ("tiny".to_string(), ok("名称 : tiny\n版本 : 1\n依赖于 : None\n")),
    ];
    assert_eq!(
        PackageManager::preview_install(&entries),
        strings(&[
            "  vim 9.1-1",
            "    大小: 4 MiB",
            "    依赖: glibc",
            "",
            "  ghost (未找到包信息)",
            "",
            "  tiny 1",
            "",
        ])
    );
    assert!(PackageManager::preview_install(&Vec::new()).is_empty());
}

#[test]
fn removal_preview_with_the_full_list() {
    let entries = vec![(
        "vim".to_string(),
        ok("Name : vim\nVersion : 9.1-1\nInstalled Size : 4 MiB\nRequired By : gvim\n"),
    )];
    assert_eq!(
        PackageManager::preview_remove(&entries, &ok("vim-9.1-1\nvim-runtime-9.1-1\n"), &None),
        strings(&[
            "  vim 9.1-1",
            "    大小: 4 MiB",
            "    ⚠ 被依赖: gvim",
            "",
            "将移除以下 2 个包（含孤立依赖）:",
            "  vim-9.1-1",
            "  vim-runtime-9.1-1",
        ])
    );
}

#[test]
fn removal_preview_falls_back_to_the_plain_removal() {
    let entries = vec![("zsh".to_string(), ok("Name : zsh\nVersion : 5\nRequired By : 无\n"))];
    assert_eq!(
        PackageManager::preview_remove(&entries, &failed(""), &ok("zsh-5\n")),
        strings(&["  zsh 5", "", "将移除以下 1 个包:", "  zsh-5"])
    );
    assert_eq!(
        PackageManager::preview_remove(&entries, &failed(""), &failed("zsh-5\n")),
        strings(&["  zsh 5", ""])
    );
    assert_eq!(
        PackageManager::preview_remove(&entries, &None, &ok("zsh-5\n")),
        strings(&["  zsh 5", ""])
    );
    assert_eq!(
        PackageManager::preview_remove(&entries, &ok(""), &ok("zsh-5\n")),
        strings(&["  zsh 5", ""])
    );
}

#[test]
fn query_commands() {
    let pm = PackageManager { command: "paru".to_string() };
    assert_eq!(pm.query_argv(&Query::Installed), strings(&["pacman", "-Q"]));
    assert_eq!(pm.query_argv(&Query::Updates), strings(&["checkupdates"]));
    assert_eq!(pm.query_argv(&Query::UpdatesByManager), strings(&["paru", "-Qu"]));
    assert_eq!(pm.query_argv(&Query::Explicit), strings(&["pacman", "-Qe"]));
    assert_eq!(pm.query_argv(&Query::ExplicitDescribed), strings(&["pacman", "-Qei"]));
    assert_eq!(
        pm.query_argv(&Query::SearchLocal("vim".to_string())),
        strings(&["pacman", "-Qs", "vim"])
    );
    assert_eq!(
        pm.query_argv(&Query::SearchRemote("vim".to_string())),
        strings(&["paru", "-Ss", "vim"])
    );
    assert_eq!(
        pm.query_argv(&Query::InfoLocal("vim".to_string())),
        strings(&["pacman", "-Qi", "vim"])
    );
    assert_eq!(
        pm.query_argv(&Query::InfoRemote("vim".to_string())),
        strings(&["pacman", "-Si", "vim"])
    );
    assert_eq!(pm.query_argv(&Query::Files("vim".to_string())), strings(&["pacman", "-Ql", "vim"]));
    assert_eq!(
        pm.query_argv(&Query::Removal { cascade: true, packages: strings(&["a", "b"]) }),
        strings(&["pacman", "-Rns", "--print", "a", "b"])
    );
    assert_eq!(
        pm.query_argv(&Query::Removal { cascade: false, packages: strings(&["a"]) }),
        strings(&["pacman", "-Rn", "--print", "a"])
    );
}
