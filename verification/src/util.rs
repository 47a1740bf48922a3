//! The setup instructions written after the first administrator is
//! created: their text, the file they go to, and the errors of saving them.
use vstd::prelude::*;
use vstd::string::StrSliceExecFns;

use crate::conf::{BootstrapConfig, KanidmConfig};
use crate::error::{wraps, AppError};

verus! {

/// How long a credential reset token stays valid, in seconds; the setup
/// instructions give the moment it expires.
pub const RESET_TOKEN_TTL_SECS: u32 = 3600;

/// The name of the file that holds the setup instructions.
pub const README_FILE_NAME: &'static str = "ReadMe_idm.md";

/// The pattern of the expiry moment in the instructions.
pub const EXPIRY_PATTERN: &'static str = "%Y-%m-%d %H:%M:%S";

pub const README_BEFORE_URL: &'static str = "# Kanidm Setup (Passkey / TPM / SE)\n\nKanidm のデプロイが完了しました。以下の登録用トークンを使用して、パスワードレス設定を行ってください。\n\n## 初期登録手順\n1. ブラウザで以下の登録用URLにアクセスしてください。\n    > **URL**: ";

pub const README_BEFORE_TOKEN: &'static str = "/ui/reset?token=";

pub const README_BEFORE_USERNAME: &'static str = "\n\n2. 画面が表示されたら、以下のユーザー名を入力し **「Begin」** ボタンを押してください。\n    - **Username**: `";

pub const README_BEFORE_EXPIRY: &'static str = "`\n\n3. Webauthn（Passkey）の登録プロセスが開始されます。登録が完了すると、以降は生体認証やセキュリティキー（指紋認証、顔認証、YubiKey等）のみでログインが可能になります。\n\n## 有効期限\nこのトークンは以下の日時に失効します。\n- **Expiry**: ";

pub const README_BEFORE_CLI_TOKEN: &'static str = " （発行から1時間）\n\n## CLIによる登録\nCLI環境からは、以下のコマンドを使用して登録することも可能です。\n```bash\nkanidm person credential use-reset-token ";

pub const README_END: &'static str = "\n```";


/// The text without the slashes at its end.
pub open spec fn without_trailing_slashes(s: Seq<char>) -> Seq<char>
    decreases s.len(),
{
    if s.len() > 0 && s.last() == '/' {
        without_trailing_slashes(s.drop_last())
    } else {
        s
    }
}

/// The setup instructions for the server at `url`, the reset token `token`,
/// the user `username`, and the expiry moment `expiry`.
pub open spec fn readme_text(url: Seq<char>, token: Seq<char>, username: Seq<char>, expiry: Seq<char>) -> Seq<char> {
    README_BEFORE_URL@ + url + README_BEFORE_TOKEN@ + token + README_BEFORE_USERNAME@ + username
        + README_BEFORE_EXPIRY@ + expiry + README_BEFORE_CLI_TOKEN@ + token + README_END@
}

/// Whether `text` is `prefix`, then `before`, then `middle`, then `after`,
/// then `suffix`: `middle` stands verbatim between `before` and `after`.
pub open spec fn framed(
    text: Seq<char>,
    prefix: Seq<char>,
    before: Seq<char>,
    middle: Seq<char>,
    after: Seq<char>,
    suffix: Seq<char>,
) -> bool {
    text == prefix + before + middle + after + suffix
}

/// The setup instructions show each value verbatim in its place: the server
/// address before "/ui/reset?token=", the token after it, the username
/// between the backquotes of the Username line, the expiry after "Expiry",
/// and the token again in the command line before the closing fence.
pub proof fn lemma_readme_shows_values_verbatim(
    url: Seq<char>,
    token: Seq<char>,
    username: Seq<char>,
    expiry: Seq<char>,
)
    ensures
        ({
            let t = readme_text(url, token, username, expiry);
            &&& exists|p: Seq<char>, q: Seq<char>|
                #[trigger] framed(t, p, README_BEFORE_URL@, url, README_BEFORE_TOKEN@, q)
            &&& exists|p: Seq<char>, q: Seq<char>|
                #[trigger] framed(t, p, README_BEFORE_TOKEN@, token, README_BEFORE_USERNAME@, q)
            &&& exists|p: Seq<char>, q: Seq<char>|
                #[trigger] framed(t, p, README_BEFORE_USERNAME@, username, README_BEFORE_EXPIRY@, q)
            &&& exists|p: Seq<char>, q: Seq<char>|
                #[trigger] framed(t, p, README_BEFORE_EXPIRY@, expiry, README_BEFORE_CLI_TOKEN@, q)
            &&& exists|p: Seq<char>|
                #[trigger] framed(t, p, README_BEFORE_CLI_TOKEN@, token, README_END@, Seq::empty())
        }),
{
    let t = readme_text(url, token, username, expiry);
    let empty = Seq::<char>::empty();
    let a = README_BEFORE_URL@;
    let b = README_BEFORE_TOKEN@;
    let c = README_BEFORE_USERNAME@;
    let d = README_BEFORE_EXPIRY@;
    let e = README_BEFORE_CLI_TOKEN@;
    let f = README_END@;
    assert(t =~= empty + a + url + b + (token + c + username + d + expiry + e + token + f));
    assert(framed(t, empty, a, url, b, token + c + username + d + expiry + e + token + f));
    assert(t =~= (a + url) + b + token + c + (username + d + expiry + e + token + f));
    assert(framed(t, a + url, b, token, c, username + d + expiry + e + token + f));
    assert(t =~= (a + url + b + token) + c + username + d + (expiry + e + token + f));
    assert(framed(t, a + url + b + token, c, username, d, expiry + e + token + f));
    assert(t =~= (a + url + b + token + c + username) + d + expiry + e + (token + f));
    assert(framed(t, a + url + b + token + c + username, d, expiry, e, token + f));
    assert(t =~= (a + url + b + token + c + username + d + expiry) + e + token + f + empty);
    assert(framed(t, a + url + b + token + c + username + d + expiry, e, token, f, empty));
}

/// The text with the slashes at its end removed (`str::trim_end_matches('/')`).
pub fn trim_trailing_slashes(s: &str) -> (r: String)
    ensures
        r@ == without_trailing_slashes(s@),
{
    let mut n = s.unicode_len();
    proof {
        assert(s@.subrange(0, n as int) =~= s@);
    }
    while n > 0 && s.get_char(n - 1) == '/'
        invariant
            n <= s@.len(),
            without_trailing_slashes(s@) == without_trailing_slashes(s@.subrange(0, n as int)),
        decreases n,
    {
        proof {
            let cur = s@.subrange(0, n as int);
            assert(cur.last() == s@[n - 1]);
            assert(cur.drop_last() =~= s@.subrange(0, n - 1));
        }
        n = n - 1;
    }
    proof {
        let cur = s@.subrange(0, n as int);
        if n > 0 {
            assert(cur.last() == s@[n - 1]);
        }
    }
    String::from_str(s.substring_char(0, n))
}

/// The setup instructions for the server at `origin` (its trailing slashes
/// dropped), the reset token `token`, the user `username`, and the expiry
/// moment `expiry`.
pub fn readme_content(origin: &str, token: &str, username: &str, expiry: &str) -> (r: String)
    ensures
        r@ == readme_text(without_trailing_slashes(origin@), token@, username@, expiry@),
{
    let url = trim_trailing_slashes(origin);
    let mut text = String::from_str(README_BEFORE_URL);
    text.append(url.as_str());
    text.append(README_BEFORE_TOKEN);
    text.append(token);
    text.append(README_BEFORE_USERNAME);
    text.append(username);
    text.append(README_BEFORE_EXPIRY);
    text.append(expiry);
    text.append(README_BEFORE_CLI_TOKEN);
    text.append(token);
    text.append(README_END);
    text
}

/// Whether every `%` of a time pattern starts one of the conversions `%Y`,
/// `%m`, `%d`, `%H`, `%M`, `%S`; every other character stands for itself.
pub open spec fn plain_time_pattern(p: Seq<char>) -> bool {
    forall|i: int|
        0 <= i < p.len() && #[trigger] p[i] == '%' ==> i + 1 < p.len() && (p[i + 1] == 'Y'
            || p[i + 1] == 'm' || p[i + 1] == 'd' || p[i + 1] == 'H' || p[i + 1] == 'M' || p[i
            + 1] == 'S')
}

/// That `text` is the local time `secs` seconds after the moment of asking,
/// written with `pattern`. This is a relation, not a function: the clock
/// moves, so nothing links two answers.
pub uninterp spec fn local_time_reported(text: Seq<char>, secs: int, pattern: Seq<char>) -> bool;

/// `chrono::Local::now()` plus `secs` seconds (`chrono::Duration::seconds`),
/// written with `chrono`'s `format(pattern)`: the local time `secs` seconds
/// from now. Claimed only that the text is the clock's answer for these
/// seconds and this pattern ([`local_time_reported`]); what the clock and
/// the time zone say is left unsaid. `chrono` panics on a pattern with an unknown conversion
/// (the `requires` admits only known ones), on a number of seconds beyond
/// about 292 million years, and on a clock set before 1970 or beyond the
/// year 262143; the last two are left unsaid.
#[verifier::external_body]
fn local_time_after(secs: i64, pattern: &str) -> (r: String)
    requires
        0 <= secs <= 86400,
        plain_time_pattern(pattern@),
    ensures
        local_time_reported(r@, secs as int, pattern@),
{
    (chrono::Local::now() + chrono::Duration::seconds(secs)).format(pattern).to_string()
}

/// The pattern of the expiry moment has only known conversions.
proof fn lemma_expiry_pattern_is_plain()
    ensures
        plain_time_pattern(EXPIRY_PATTERN@),
{
    reveal_strlit("%Y-%m-%d %H:%M:%S");
    let p = EXPIRY_PATTERN@;
    assert(p =~= seq!['%', 'Y', '-', '%', 'm', '-', '%', 'd', ' ', '%', 'H', ':', '%', 'M', ':', '%', 'S']);
}

/// The setup instructions for the person of `b_conf` on the server of
/// `k_conf`, with `token`, which expires one hour from now.
pub fn setup_readme(k_conf: &KanidmConfig, b_conf: &BootstrapConfig, token: &str) -> (r: String)
    ensures
        exists|expiry: Seq<char>|
            #[trigger] local_time_reported(expiry, RESET_TOKEN_TTL_SECS as int, EXPIRY_PATTERN@)
                && r@ == readme_text(
                without_trailing_slashes(k_conf.origin@),
                token@,
                b_conf.person@,
                expiry,
            ),
{
    proof {
        lemma_expiry_pattern_is_plain();
    }
    let expiry = local_time_after(RESET_TOKEN_TTL_SECS as i64, EXPIRY_PATTERN);
    let r = readme_content(k_conf.origin.as_str(), token, b_conf.person.as_str(), expiry.as_str());
    assert(local_time_reported(expiry@, RESET_TOKEN_TTL_SECS as int, EXPIRY_PATTERN@));
    r
}

/// Where the setup instructions go: the file [`README_FILE_NAME`] in `dir`,
/// joined as `std::path::Path::join` joins a relative name on Unix: a `/`
/// goes between them unless `dir` is empty or already ends with one.
pub open spec fn readme_location(dir: Seq<char>) -> Seq<char> {
    if dir.len() == 0 {
        README_FILE_NAME@
    } else if dir.last() == '/' {
        dir + README_FILE_NAME@
    } else {
        dir + "/"@ + README_FILE_NAME@
    }
}

/// The path of the setup instructions in the directory `readme_dir`.
pub fn readme_path(readme_dir: &str) -> (r: String)
    ensures
        r@ == readme_location(readme_dir@),
{
    let n = readme_dir.unicode_len();
    if n == 0 {
        String::from_str(README_FILE_NAME)
    } else if readme_dir.get_char(n - 1) == '/' {
        String::from_str(readme_dir).concat(README_FILE_NAME)
    } else {
        String::from_str(readme_dir).concat("/").concat(README_FILE_NAME)
    }
}

/// Why the setup instructions could not be saved: the directory could not
/// be created, or the file could not be written. Each holds the path as
/// shown to a person and the operating system's message.
#[derive(Debug)]
pub enum ReadmeFailure {
    CreateDir { dir: String, message: String },
    Write { path: String, message: String },
}

/// The error that reports a failure to save the setup instructions.
pub fn readme_failure(failure: ReadmeFailure) -> (r: AppError)
    ensures
        failure matches ReadmeFailure::CreateDir { dir, message } ==> wraps(
            r,
            "Failed to create directory: "@ + dir@,
            AppError::Io(message),
        ),
        failure matches ReadmeFailure::Write { path, message } ==> wraps(
            r,
            "Failed to write ReadMe to "@ + path@,
            AppError::Io(message),
        ),
{
    match failure {
        ReadmeFailure::CreateDir { dir, message } => {
            let context = String::from_str("Failed to create directory: ").concat(dir.as_str());
            AppError::Io(message).context(context.as_str())
        },
        ReadmeFailure::Write { path, message } => {
            let context = String::from_str("Failed to write ReadMe to ").concat(path.as_str());
            AppError::Io(message).context(context.as_str())
        },
    }
}

} // verus!
