use vault_nova::location::resolve_vault_path;

fn c(p: &str, exists: bool) -> Option<(String, bool)> {
    Some((p.to_string(), exists))
}

#[test]
fn vault_path_choice_follows_existence_then_data_dir() {
    let d = "vault.json".to_string();
    assert_eq!(resolve_vault_path("/abs/vault.json".into(), true, None, None, None), "/abs/vault.json");
    assert_eq!(resolve_vault_path(d.clone(), false, c("/cwd/v", true), c("/exe/v", true), Some("/data/v".into())), "/cwd/v");
    assert_eq!(resolve_vault_path(d.clone(), false, c("/cwd/v", false), c("/exe/v", true), Some("/data/v".into())), "/exe/v");
    assert_eq!(resolve_vault_path(d.clone(), false, c("/cwd/v", false), c("/exe/v", false), Some("/data/v".into())), "/data/v");
    assert_eq!(resolve_vault_path(d.clone(), false, c("/cwd/v", false), c("/exe/v", false), None), "/exe/v");
    assert_eq!(resolve_vault_path(d.clone(), false, c("/cwd/v", false), None, None), "/cwd/v");
    assert_eq!(resolve_vault_path(d.clone(), false, None, None, None), "vault.json");
}
