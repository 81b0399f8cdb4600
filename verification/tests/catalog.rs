use lian::catalog::{command_argv, parse_command, CatalogError, Operation, PackageManager};

fn words(v: &[&str]) -> Vec<String> {
    v.iter().map(|s| s.to_string()).collect()
}

fn manager(name: &str) -> PackageManager {
    PackageManager { command: name.to_string() }
}

#[test]
fn detection_prefers_the_helpers() {
    assert_eq!(PackageManager::detect(true, true, true).unwrap().name(), "paru");
    assert_eq!(PackageManager::detect(false, true, true).unwrap().name(), "yay");
    assert_eq!(PackageManager::detect(false, false, true).unwrap().name(), "pacman");
    assert_eq!(PackageManager::detect(true, false, false).unwrap().name(), "paru");
}

#[test]
fn detection_fails_without_a_manager() {
    match PackageManager::detect(false, false, false) {
        Err(e) => assert_eq!(e, CatalogError::NoManager),
        Ok(pm) => panic!("found {}", pm.name()),
    }
}

#[test]
fn only_pacman_needs_the_privilege_wrapper() {
    assert!(manager("pacman").requires_privilege());
    assert!(!manager("paru").requires_privilege());
    assert!(!manager("yay").requires_privilege());
}

#[test]
fn update_argv() {
    let none: Vec<String> = Vec::new();
    assert_eq!(
        manager("pacman").argv(Operation::Update, &none).unwrap(),
        words(&["sudo", "pacman", "-Syu", "--noconfirm"])
    );
    assert_eq!(
        manager("paru").argv(Operation::Update, &none).unwrap(),
        words(&["paru", "-Syu", "--noconfirm"])
    );
}

#[test]
fn install_argv_appends_the_targets() {
    let targets = words(&["firefox", "vim"]);
    assert_eq!(
        manager("yay").argv(Operation::Install, &targets).unwrap(),
        words(&["yay", "-S", "--noconfirm", "firefox", "vim"])
    );
    assert_eq!(
        manager("pacman").argv(Operation::Install, &targets).unwrap(),
        words(&["sudo", "pacman", "-S", "--noconfirm", "firefox", "vim"])
    );
}

#[test]
fn remove_argv_removes_recursively() {
    let targets = words(&["nano"]);
    assert_eq!(
        manager("paru").argv(Operation::Remove, &targets).unwrap(),
        words(&["paru", "-Rns", "--noconfirm", "nano"])
    );
}

#[test]
fn custom_argv_is_the_words_themselves() {
    let targets = words(&["ls", "-la", "/tmp"]);
    assert_eq!(manager("pacman").argv(Operation::Custom, &targets).unwrap(), targets);
}

#[test]
fn empty_custom_command_is_refused() {
    let none: Vec<String> = Vec::new();
    match manager("paru").argv(Operation::Custom, &none) {
        Err(e) => assert_eq!(e, CatalogError::EmptyCommand),
        Ok(v) => panic!("got {:?}", v),
    }
}

#[test]
fn operations_by_name() {
    assert_eq!(Operation::from_name("update"), Some(Operation::Update));
    assert_eq!(Operation::from_name("install"), Some(Operation::Install));
    assert_eq!(Operation::from_name("remove"), Some(Operation::Remove));
    assert_eq!(Operation::from_name("custom"), Some(Operation::Custom));
    assert_eq!(Operation::from_name("upgrade"), None);
    assert_eq!(Operation::from_name(""), None);
    assert_eq!(Operation::from_name("Update"), None);
}

#[test]
fn argv_by_operation_name() {
    let pm = manager("paru");
    let targets = words(&["htop"]);
    assert_eq!(
        command_argv("install", &pm, &targets).unwrap(),
        words(&["paru", "-S", "--noconfirm", "htop"])
    );
    match command_argv("frobnicate", &pm, &targets) {
        Err(e) => assert_eq!(e, CatalogError::UnknownOperation),
        Ok(v) => panic!("got {:?}", v),
    }
    let none: Vec<String> = Vec::new();
    match command_argv("custom", &pm, &none) {
        Err(e) => assert_eq!(e, CatalogError::EmptyCommand),
        Ok(v) => panic!("got {:?}", v),
    }
}

#[test]
fn command_line_is_cut_at_spaces() {
    assert_eq!(parse_command("ls -la /tmp"), words(&["ls", "-la", "/tmp"]));
    assert_eq!(parse_command("  a \t b  "), words(&["a", "b"]));
    assert!(parse_command("").is_empty());
    assert!(parse_command("   ").is_empty());
}

#[test]
fn quotes_keep_spaces_in_one_argument() {
    assert_eq!(parse_command("echo \"hello world\""), words(&["echo", "hello world"]));
    assert_eq!(parse_command("echo 'a  b' c"), words(&["echo", "a  b", "c"]));
    assert_eq!(parse_command("echo \"it's\""), words(&["echo", "it's"]));
    assert_eq!(parse_command("echo 'say \"hi\"'"), words(&["echo", "say \"hi\""]));
    assert_eq!(parse_command("a\"b c\"d"), words(&["ab cd"]));
}

#[test]
fn unclosed_quote_takes_the_rest() {
    assert_eq!(parse_command("echo \"a b"), words(&["echo", "a b"]));
}
