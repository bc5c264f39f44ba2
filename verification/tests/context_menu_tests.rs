use crypto_tool::context_menu::remove_from_context_menu;

#[test]
fn removal_arguments_are_exact() {
    let args = remove_from_context_menu();
    assert_eq!(
        args,
        vec![
            "Remove-Item".to_string(),
            "-LiteralPath".to_string(),
            "HKCU:SOFTWARE\\Classes\\*\\shell\\CryptoTool".to_string(),
            "-Recurse".to_string(),
        ]
    );
}
