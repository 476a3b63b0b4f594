//! What the client computes around the commands it runs: their arguments,
//! and what their output means.

use vstd::prelude::*;
use crate::messages::result_view;
use crate::platform::OsKind;
use crate::text::texts;

verus! {

/// The text without its leading and trailing whitespace, as `str::trim`
/// gives it.
pub uninterp spec fn trimmed(text: Seq<char>) -> Seq<char>;

/// Calls `str::trim`, which removes leading and trailing whitespace. The
/// contract claims only that the outcome is a function of the text.
#[verifier::external_body]
fn trim_text<'a>(text: &'a str) -> (r: &'a str)
    ensures
        r@ == trimmed(text@),
{
    text.trim()
}

/// The arguments that upload the file at `path`.
pub fn upload_args(path: &str) -> (args: Vec<String>)
    ensures
        texts(args@) == seq!["file"@, "upload"@, path@],
{
    let mut args: Vec<String> = Vec::new();
    args.push(String::from_str("file"));
    args.push(String::from_str("upload"));
    args.push(String::from_str(path));
    assert(texts(args@) =~= seq!["file"@, "upload"@, path@]);
    args
}

/// What a finished upload command means, given its trimmed output: the
/// content identifier on success, the command's complaint otherwise.
pub open spec fn upload_outcome_of(success: bool, name: Seq<char>, complaint: Seq<char>) -> Result<
    Seq<char>,
    Seq<char>,
> {
    if success {
        Ok(name)
    } else {
        Err("ant upload failed: "@ + complaint)
    }
}

/// What a finished upload command means, given its output already trimmed.
pub fn upload_outcome_with(success: bool, name: &str, complaint: &str) -> (r: Result<
    String,
    String,
>)
    ensures
        result_view(r) == upload_outcome_of(success, name@, complaint@),
{
    if success {
        Ok(String::from_str(name))
    } else {
        let mut words = String::from_str("ant upload failed: ");
        words.append(complaint);
        Err(words)
    }
}

/// What a finished upload command means: on success the content identifier
/// is its output without surrounding whitespace; on failure its error output
/// is passed on behind a fixed prefix.
pub fn upload_outcome(success: bool, stdout: &str, stderr: &str) -> (r: Result<String, String>)
    ensures
        result_view(r) == upload_outcome_of(success, trimmed(stdout@), stderr@),
{
    upload_outcome_with(success, trim_text(stdout), stderr)
}

/// What a finished version query means, given both outputs already
/// trimmed.
pub fn version_outcome_with(success: bool, version: &str, complaint: &str) -> (r: Result<
    String,
    String,
>)
    ensures
        success ==> result_view(r) == Ok::<Seq<char>, Seq<char>>(version@),
        !success ==> result_view(r) == Err::<Seq<char>, Seq<char>>(complaint@),
{
    if success {
        Ok(String::from_str(version))
    } else {
        Err(String::from_str(complaint))
    }
}

/// What a finished version query means: its output on success, its error
/// output otherwise, each without surrounding whitespace.
pub fn version_outcome(success: bool, stdout: &str, stderr: &str) -> (r: Result<String, String>)
    ensures
        success ==> result_view(r) == Ok::<Seq<char>, Seq<char>>(trimmed(stdout@)),
        !success ==> result_view(r) == Err::<Seq<char>, Seq<char>>(trimmed(stderr@)),
{
    version_outcome_with(success, trim_text(stdout), trim_text(stderr))
}

/// The suffix that names a platform in a binary's file name.
pub open spec fn target_suffix(os: OsKind) -> Seq<char> {
    match os {
        OsKind::MacOs => "-apple-darwin"@,
        OsKind::Windows => "-pc-windows-msvc.exe"@,
        _ => "-unknown-linux-gnu"@,
    }
}

/// The file name of a worker's binary: its name, the machine's
/// architecture and the platform's suffix.
pub fn binary_filename(binary_name: &str, os: OsKind, arch: &str) -> (r: String)
    ensures
        r@ == binary_name@ + "-"@ + arch@ + target_suffix(os),
{
    let mut r = String::from_str(binary_name);
    r.append("-");
    r.append(arch);
    match os {
        OsKind::MacOs => r.append("-apple-darwin"),
        OsKind::Windows => r.append("-pc-windows-msvc.exe"),
        _ => r.append("-unknown-linux-gnu"),
    }
    r
}

/// The arguments that import a wallet: with the password where one is
/// given, without one otherwise.
pub open spec fn wallet_args_of(private_key: Seq<char>, password: Option<Seq<char>>) -> Seq<
    Seq<char>,
> {
    match password {
        Some(p) => seq!["wallet"@, "import"@, private_key, "--password"@, p],
        None => seq!["wallet"@, "import"@, private_key, "--no-password"@],
    }
}

/// The arguments that import a wallet with the given key.
pub fn wallet_args(private_key: &str, password: Option<&str>) -> (args: Vec<String>)
    ensures
        texts(args@) == wallet_args_of(
            private_key@,
            match password {
                Some(p) => Some(p@),
                None => None,
            },
        ),
{
    let mut args: Vec<String> = Vec::new();
    args.push(String::from_str("wallet"));
    args.push(String::from_str("import"));
    args.push(String::from_str(private_key));
    match password {
        Some(p) => {
            args.push(String::from_str("--password"));
            args.push(String::from_str(p));
            assert(texts(args@) =~= seq!["wallet"@, "import"@, private_key@, "--password"@, p@]);
        },
        None => {
            args.push(String::from_str("--no-password"));
            assert(texts(args@) =~= seq!["wallet"@, "import"@, private_key@, "--no-password"@]);
        },
    }
    args
}

/// The text is empty once its surrounding whitespace is taken away.
pub open spec fn is_blank(text: Seq<char>) -> bool {
    trimmed(text).len() == 0
}

/// Whether a text is empty but for whitespace.
pub fn blank(text: &str) -> (r: bool)
    ensures
        r == is_blank(text@),
{
    trim_text(text).unicode_len() == 0
}

/// What a wallet import is called with, given the stored key and password
/// and whether each is blank: `None` where the key is missing or blank; a
/// password that is blank counts as none.
pub open spec fn wallet_plan(
    private_key: Option<Seq<char>>,
    key_blank: bool,
    password: Option<Seq<char>>,
    password_blank: bool,
) -> Option<Seq<Seq<char>>> {
    match private_key {
        None => None,
        Some(key) => if key_blank {
            None
        } else {
            Some(
                wallet_args_of(
                    key,
                    if password_blank {
                        None
                    } else {
                        password
                    },
                ),
            )
        },
    }
}

/// The text of an optional string.
pub open spec fn text_of(o: Option<&str>) -> Option<Seq<char>> {
    match o {
        Some(s) => Some(s@),
        None => None,
    }
}

/// The texts of an optional list of strings.
pub open spec fn texts_of(o: Option<Vec<String>>) -> Option<Seq<Seq<char>>> {
    match o {
        Some(v) => Some(texts(v@)),
        None => None,
    }
}

/// The arguments of a wallet import, given whether the stored key and the
/// stored password are blank.
pub fn wallet_import_args_with(
    private_key: Option<&str>,
    key_blank: bool,
    password: Option<&str>,
    password_blank: bool,
) -> (r: Option<Vec<String>>)
    ensures
        texts_of(r) == wallet_plan(
            text_of(private_key),
            key_blank,
            text_of(password),
            password_blank,
        ),
{
    match private_key {
        None => None,
        Some(key) => {
            if key_blank {
                None
            } else {
                let usable = if password_blank {
                    None
                } else {
                    password
                };
                Some(wallet_args(key, usable))
            }
        },
    }
}

/// The arguments of a wallet import, or `None` where no wallet is to be
/// imported: the stored key is missing or blank. A stored password that is
/// blank counts as none.
pub fn wallet_import_args(private_key: Option<&str>, password: Option<&str>) -> (r: Option<
    Vec<String>,
>)
    ensures
        texts_of(r) == wallet_plan(
            text_of(private_key),
            private_key matches Some(key) && is_blank(key@),
            text_of(password),
            password matches Some(p) && is_blank(p@),
        ),
{
    let key_blank = match private_key {
        Some(key) => blank(key),
        None => false,
    };
    let password_blank = match password {
        Some(p) => blank(p),
        None => false,
    };
    wallet_import_args_with(private_key, key_blank, password, password_blank)
}

} // verus!
