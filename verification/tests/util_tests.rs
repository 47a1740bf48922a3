use kanidm_init::conf::{BootstrapConfig, KanidmConfig};
use kanidm_init::util::{
    readme_path,
    readme_content, readme_failure, setup_readme, trim_trailing_slashes, ReadmeFailure,
    README_FILE_NAME, RESET_TOKEN_TTL_SECS,
};

const EXPECTED: &str = "# Kanidm Setup (Passkey / TPM / SE)

Kanidm のデプロイが完了しました。以下の登録用トークンを使用して、パスワードレス設定を行ってください。

## 初期登録手順
1. ブラウザで以下の登録用URLにアクセスしてください。
    > **URL**: https://idm.example.internal/ui/reset?token=TOK

2. 画面が表示されたら、以下のユーザー名を入力し **「Begin」** ボタンを押してください。
    - **Username**: `alice`

3. Webauthn（Passkey）の登録プロセスが開始されます。登録が完了すると、以降は生体認証やセキュリティキー（指紋認証、顔認証、YubiKey等）のみでログインが可能になります。

## 有効期限
このトークンは以下の日時に失効します。
- **Expiry**: 2030-01-02 03:04:05 （発行から1時間）

## CLIによる登録
CLI環境からは、以下のコマンドを使用して登録することも可能です。
```bash
kanidm person credential use-reset-token TOK
```";

#[test]
fn trailing_slashes_are_trimmed() {
    assert_eq!(trim_trailing_slashes("https://x/"), "https://x");
    assert_eq!(trim_trailing_slashes("https://x///"), "https://x");
    assert_eq!(trim_trailing_slashes("https://x"), "https://x");
    assert_eq!(trim_trailing_slashes("/"), "");
    assert_eq!(trim_trailing_slashes(""), "");
    assert_eq!(trim_trailing_slashes("a/b"), "a/b");
}

#[test]
fn readme_text_exact() {
    let text = readme_content("https://idm.example.internal/", "TOK", "alice", "2030-01-02 03:04:05");
    assert_eq!(text, EXPECTED);
}

#[test]
fn setup_readme_uses_configs() {
    let k = KanidmConfig {
        version: "2".to_string(),
        bindaddress: "[::]:8443".to_string(),
        db_path: "/data/kanidm.db".to_string(),
        tls_chain: "/data/chain.pem".to_string(),
        tls_key: "/data/key.pem".to_string(),
        domain: "idm.example.internal".to_string(),
        origin: "https://idm.example.internal//".to_string(),
    };
    let mut b = BootstrapConfig::default();
    b.person = "alice".to_string();
    let text = setup_readme(&k, &b, "TOK");
    assert!(text.contains("    > **URL**: https://idm.example.internal/ui/reset?token=TOK\n"));
    assert!(text.contains("- **Username**: `alice`"));
    assert!(text.ends_with("use-reset-token TOK\n```"));
    let expiry_line = text.lines().find(|l| l.starts_with("- **Expiry**: ")).unwrap();
    let stamp = &expiry_line["- **Expiry**: ".len()..expiry_line.len() - " （発行から1時間）".len()];
    assert_eq!(stamp.len(), 19);
    assert_eq!(&stamp[4..5], "-");
    assert_eq!(&stamp[10..11], " ");
}

#[test]
fn readme_constants() {
    assert_eq!(README_FILE_NAME, "ReadMe_idm.md");
    assert_eq!(RESET_TOKEN_TTL_SECS, 3600);
}

#[test]
fn readme_failures() {
    let e = readme_failure(ReadmeFailure::CreateDir { dir: "\"/data\"".to_string(), message: "denied".to_string() });
    assert_eq!(e.render(), "Failed to create directory: \"/data\": IO error: denied");
    let e = readme_failure(ReadmeFailure::Write { path: "\"/data/ReadMe_idm.md\"".to_string(), message: "full".to_string() });
    assert_eq!(e.render(), "Failed to write ReadMe to \"/data/ReadMe_idm.md\": IO error: full");
}

#[test]
fn readme_path_joins_like_path_join() {
    assert_eq!(readme_path("/data"), "/data/ReadMe_idm.md");
    assert_eq!(readme_path("/data/"), "/data/ReadMe_idm.md");
    assert_eq!(readme_path(""), "ReadMe_idm.md");
    assert_eq!(readme_path("docs"), "docs/ReadMe_idm.md");
    for dir in ["/data", "/data/", "", "docs", "a/b//"] {
        let joined = std::path::Path::new(dir).join("ReadMe_idm.md");
        assert_eq!(readme_path(dir), joined.to_str().unwrap());
    }
}
