//! Files, directories and repositories as read from GitHub, and the rules
//! that turn the API's content listings into them and compare two versions
//! of a file.

use vstd::prelude::*;
use vstd::string::*;
use base64::Engine;
use crate::error::GovernanceError;
use crate::text::{dec_nat, u64_to_string};

verus! {

/// A file in a GitHub repository.
#[derive(Debug)]
pub struct GitHubFile {
    pub path: String,
    pub content: Vec<u8>,
    pub sha: String,
    pub size: u64,
    pub download_url: Option<String>,
}

/// A directory listing of a GitHub repository.
#[derive(Debug)]
pub struct GitHubDirectory {
    pub path: String,
    pub files: Vec<GitHubFile>,
    pub subdirectories: Vec<GitHubDirectory>,
    pub total_size: u64,
}

/// Repository information.
#[derive(Debug)]
pub struct GitHubRepo {
    pub owner: String,
    pub name: String,
    pub default_branch: String,
    pub last_commit_sha: String,
}

/// The result of comparing a file with its counterpart in another repository.
#[derive(Debug)]
pub struct FileComparison {
    pub file_path: String,
    pub source_sha: String,
    pub target_sha: Option<String>,
    pub is_same: bool,
    pub size_diff: Option<i64>,
    pub content_diff: Option<String>,
}

/// One item of a content listing as the API returns it: its kind (`file`,
/// `dir`, `symlink`, `submodule`), path, blob sha, size, base64 content
/// where the API sent it, and download URL.
#[derive(Debug)]
pub struct ContentItem {
    pub kind: String,
    pub path: String,
    pub sha: String,
    pub size: u64,
    pub content: Option<String>,
    pub download_url: Option<String>,
}

/// The bytes that the standard base64 engine decodes from `input`, if it
/// accepts it.
pub uninterp spec fn spec_base64_decode(input: Seq<u8>) -> Option<Seq<u8>>;

/// Calls `base64::engine::general_purpose::STANDARD.decode`. Trusted: on
/// success the bytes are `spec_base64_decode` of the input's bytes, and the
/// call fails exactly where that name gives none; the error text is the
/// crate's and is not described.
#[verifier::external_body]
fn base64_decode(input: &str) -> (r: Result<Vec<u8>, String>)
    ensures
        match r {
            Ok(v) => spec_base64_decode(input.spec_bytes()) == Some(v@),
            Err(_) => spec_base64_decode(input.spec_bytes()) is None,
        },
{
    match base64::engine::general_purpose::STANDARD.decode(input) {
        Ok(v) => Ok(v),
        Err(e) => Err(e.to_string()),
    }
}

/// `s` without its trailing newlines.
pub open spec fn trim_newlines(s: Seq<char>) -> Seq<char>
    decreases s.len(),
{
    if s.len() > 0 && s.last() == '\n' {
        trim_newlines(s.drop_last())
    } else {
        s
    }
}

fn trim_trailing_newlines(s: &str) -> (r: &str)
    ensures
        r@ == trim_newlines(s@),
{
    let n = s.unicode_len();
    let mut k: usize = n;
    proof {
        assert(s@.subrange(0, n as int) =~= s@);
    }
    while k > 0 && s.get_char(k - 1) == '\n'
        invariant
            n == s@.len(),
            k <= n,
            trim_newlines(s@) == trim_newlines(s@.subrange(0, k as int)),
        decreases k,
    {
        proof {
            assert(s@.subrange(0, k as int).drop_last() =~= s@.subrange(0, k - 1));
        }
        k = k - 1;
    }
    s.substring_char(0, k)
}

/// The message for a listing that does not hold exactly one item.
pub open spec fn item_count_message(n: nat) -> Seq<char> {
    "Expected single file, got "@ + dec_nat(n) + " items"@
}

/// The message for a path whose item is not a file.
pub open spec fn not_a_file_message(kind: Seq<char>, path: Seq<char>) -> Seq<char> {
    if kind == "dir"@ {
        "Path '"@ + path + "' is a directory, not a file"@
    } else if kind == "symlink"@ {
        "Path '"@ + path + "' is a symlink, not a file"@
    } else if kind == "submodule"@ {
        "Path '"@ + path + "' is a submodule, not a file"@
    } else {
        "Unknown content type: "@ + kind
    }
}

fn concat3(a: &str, b: &str, c: &str) -> (r: String)
    ensures
        r@ == a@ + b@ + c@,
{
    let mut s = String::from_str(a);
    s.append(b);
    s.append(c);
    s
}

/// Turns the listing fetched for `file_path` into a file: it must hold
/// exactly one item, of kind `file`, with base64 content that decodes.
pub fn file_from_listing(items: Vec<ContentItem>, file_path: &str) -> (r: Result<GitHubFile, GovernanceError>)
    ensures
        items@.len() != 1 ==> (r matches Err(GovernanceError::GitHubError(m))
            && m@ == item_count_message(items@.len())),
        items@.len() == 1 && items@[0].kind@ != "file"@ ==> (r matches Err(GovernanceError::GitHubError(m))
            && m@ == not_a_file_message(items@[0].kind@, file_path@)),
        items@.len() == 1 && items@[0].kind@ == "file"@ && items@[0].content is None
            ==> (r matches Err(GovernanceError::GitHubError(m)) && m@ == "File content is empty"@),
        items@.len() == 1 && items@[0].kind@ == "file"@ && items@[0].content is Some ==> {
            let it = items@[0];
            let decoded = spec_base64_decode(vstd::utf8::encode_utf8(trim_newlines(it.content->0@)));
            match r {
                Ok(f) => decoded == Some(f.content@) && f.path == it.path && f.sha == it.sha
                    && f.size == it.size && f.download_url == it.download_url,
                Err(GovernanceError::GitHubError(m)) => decoded is None
                    && is_prefix_of("Failed to decode base64 content: "@, m@),
                Err(_) => false,
            }
        },
{
    let mut items = items;
    let n = items.len();
    if n != 1 {
        let count = u64_to_string(n as u64);
        let s = concat3("Expected single file, got ", count.as_str(), " items");
        return Err(GovernanceError::GitHubError(s));
    }
    let item = items.remove(0);
    let kind = item.kind.as_str();
    if crate::text::str_eq(kind, "file") {
        match item.content {
            Some(encoded) => {
                let trimmed = trim_trailing_newlines(encoded.as_str());
                match base64_decode(trimmed) {
                    Ok(bytes) => Ok(GitHubFile {
                        path: item.path,
                        content: bytes,
                        sha: item.sha,
                        size: item.size,
                        download_url: item.download_url,
                    }),
                    Err(e) => {
                        let mut s = String::from_str("Failed to decode base64 content: ");
                        let ghost pre = s@;
                        s.append(e.as_str());
                        proof {
                            reveal_strlit("Failed to decode base64 content: ");
                            assert(s@.subrange(0, pre.len() as int) =~= pre);
                        }
                        Err(GovernanceError::GitHubError(s))
                    },
                }
            },
            None => Err(GovernanceError::GitHubError(String::from_str("File content is empty"))),
        }
    } else if crate::text::str_eq(kind, "dir") {
        Err(GovernanceError::GitHubError(concat3("Path '", file_path, "' is a directory, not a file")))
    } else if crate::text::str_eq(kind, "symlink") {
        Err(GovernanceError::GitHubError(concat3("Path '", file_path, "' is a symlink, not a file")))
    } else if crate::text::str_eq(kind, "submodule") {
        Err(GovernanceError::GitHubError(concat3("Path '", file_path, "' is a submodule, not a file")))
    } else {
        proof {
            reveal_strlit("");
            assert(kind@ + ""@ =~= kind@);
        }
        Err(GovernanceError::GitHubError(concat3("Unknown content type: ", kind, "")))
    }
}

/// `pre` is a prefix of `s`.
pub open spec fn is_prefix_of(pre: Seq<char>, s: Seq<char>) -> bool {
    pre.len() <= s.len() && s.subrange(0, pre.len() as int) == pre
}

/// The file items of a listing, in order.
pub open spec fn file_items(items: Seq<ContentItem>) -> Seq<ContentItem>
    decreases items.len(),
{
    if items.len() == 0 {
        Seq::empty()
    } else if items.last().kind@ == "file"@ {
        file_items(items.drop_last()).push(items.last())
    } else {
        file_items(items.drop_last())
    }
}

/// The sum of the sizes of items.
pub open spec fn size_sum(items: Seq<ContentItem>) -> nat
    decreases items.len(),
{
    if items.len() == 0 {
        0
    } else {
        size_sum(items.drop_last()) + items.last().size as nat
    }
}

/// The directory at `path` from its listing: one file per file item, its
/// content not loaded, and the total of their sizes. Other items are skipped.
pub fn directory_from_listing(path: &str, items: Vec<ContentItem>) -> (r: GitHubDirectory)
    requires
        size_sum(file_items(items@)) <= u64::MAX,
    ensures
        r.path@ == path@,
        r.subdirectories@.len() == 0,
        r.total_size == size_sum(file_items(items@)),
        r.files@.len() == file_items(items@).len(),
        forall|i: int| 0 <= i < r.files@.len() ==> {
            let f = #[trigger] r.files@[i];
            let it = file_items(items@)[i];
            f.path == it.path && f.sha == it.sha && f.size == it.size
                && f.download_url == it.download_url && f.content@.len() == 0
        },
{
    let ghost all = items@;
    let mut items = items;
    let mut files: Vec<GitHubFile> = Vec::new();
    let mut total: u64 = 0;
    let n = items.len();
    let mut i: usize = 0;
    proof {
        lemma_size_sum_prefix_le(all, 0);
    }
    while i < n
        invariant
            n == all.len(),
            i <= n,
            items@ == all.subrange(i as int, n as int),
            size_sum(file_items(all)) <= u64::MAX,
            total == size_sum(file_items(all.subrange(0, i as int))),
            files@.len() == file_items(all.subrange(0, i as int)).len(),
            forall|j: int| 0 <= j < files@.len() ==> {
                let f = #[trigger] files@[j];
                let it = file_items(all.subrange(0, i as int))[j];
                f.path == it.path && f.sha == it.sha && f.size == it.size
                    && f.download_url == it.download_url && f.content@.len() == 0
            },
        decreases n - i,
    {
        let item = items.remove(0);
        proof {
            assert(item == all[i as int]);
            let s = all.subrange(0, i + 1);
            assert(s.drop_last() =~= all.subrange(0, i as int));
            assert(s.last() == item);
            lemma_file_items_step(s);
            lemma_size_sum_prefix_le(all, i + 1);
            assert(items@ =~= all.subrange(i + 1, n as int));
        }
        if crate::text::str_eq(item.kind.as_str(), "file") {
            total = total + item.size;
            files.push(GitHubFile {
                path: item.path,
                content: Vec::new(),
                sha: item.sha,
                size: item.size,
                download_url: item.download_url,
            });
        }
        i = i + 1;
    }
    proof {
        assert(all.subrange(0, n as int) =~= all);
    }
    GitHubDirectory { path: String::from_str(path), files, subdirectories: Vec::new(), total_size: total }
}

/// One step of `file_items` and `size_sum` at the end of a listing.
proof fn lemma_file_items_step(s: Seq<ContentItem>)
    requires
        s.len() > 0,
    ensures
        file_items(s) == (if s.last().kind@ == "file"@ {
            file_items(s.drop_last()).push(s.last())
        } else {
            file_items(s.drop_last())
        }),
        size_sum(file_items(s)) == size_sum(file_items(s.drop_last()))
            + (if s.last().kind@ == "file"@ { s.last().size as nat } else { 0nat }),
{
    if s.last().kind@ == "file"@ {
        let f = file_items(s.drop_last()).push(s.last());
        assert(f.drop_last() =~= file_items(s.drop_last()));
    }
}

/// The file items of a prefix weigh no more than those of the whole listing.
proof fn lemma_size_sum_prefix_le(all: Seq<ContentItem>, k: int)
    requires
        0 <= k <= all.len(),
    ensures
        size_sum(file_items(all.subrange(0, k))) <= size_sum(file_items(all)),
    decreases all.len() - k,
{
    if k < all.len() {
        lemma_size_sum_prefix_le(all, k + 1);
        let s = all.subrange(0, k + 1);
        assert(s.drop_last() =~= all.subrange(0, k));
        lemma_file_items_step(s);
    } else {
        assert(all.subrange(0, k) =~= all);
    }
}

/// The comparison of a source file with its counterpart, where one exists:
/// the same exactly when the blob shas agree; the size difference is
/// source minus target; the content note says how the contents differ.
pub open spec fn comparison_of(path: Seq<char>, source: GitHubFile, target: Option<GitHubFile>, c: FileComparison) -> bool {
    &&& c.file_path@ == path
    &&& c.source_sha == source.sha
    &&& match target {
        Some(t) => {
            &&& c.target_sha == Some(t.sha)
            &&& c.is_same == (source.sha@ == t.sha@)
            &&& c.size_diff == Some((source.size - t.size) as i64)
            &&& if source.content@ == t.content@ {
                c.content_diff is None
            } else {
                c.content_diff matches Some(d) && d@ == "Content differs: "@ + dec_nat(source.content@.len())
                    + " bytes vs "@ + dec_nat(t.content@.len()) + " bytes"@
            }
        },
        None => {
            &&& c.target_sha is None
            &&& !c.is_same
            &&& c.size_diff is None
            &&& c.content_diff matches Some(d) && d@ == "Target file does not exist"@
        },
    }
}

fn bytes_eq(a: &[u8], b: &[u8]) -> (r: bool)
    ensures
        r == (a@ == b@),
{
    if a.len() != b.len() {
        return false;
    }
    let n = a.len();
    let mut i: usize = 0;
    while i < n
        invariant
            n == a@.len(),
            n == b@.len(),
            i <= n,
            forall|j: int| 0 <= j < i ==> a@[j] == b@[j],
        decreases n - i,
    {
        if a[i] != b[i] {
            return false;
        }
        i = i + 1;
    }
    assert(a@ =~= b@);
    true
}

/// Compares a file with its counterpart in another repository, if it was
/// found there.
pub fn compare_file_versions(file_path: &str, source: GitHubFile, target: Option<GitHubFile>) -> (r: FileComparison)
    requires
        source.size <= i64::MAX,
        target matches Some(t) ==> t.size <= i64::MAX,
    ensures
        comparison_of(file_path@, source, target, r),
{
    match target {
        Some(t) => {
            let same_content = bytes_eq(source.content.as_slice(), t.content.as_slice());
            let content_diff = if same_content {
                None
            } else {
                let mut d = String::from_str("Content differs: ");
                let a = u64_to_string(source.content.len() as u64);
                d.append(a.as_str());
                d.append(" bytes vs ");
                let b = u64_to_string(t.content.len() as u64);
                d.append(b.as_str());
                d.append(" bytes");
                Some(d)
            };
            let is_same = crate::text::str_eq(source.sha.as_str(), t.sha.as_str());
            let diff: i64 = (source.size as i64) - (t.size as i64);
            FileComparison {
                file_path: String::from_str(file_path),
                source_sha: source.sha,
                target_sha: Some(t.sha),
                is_same,
                size_diff: Some(diff),
                content_diff,
            }
        },
        None => FileComparison {
            file_path: String::from_str(file_path),
            source_sha: source.sha,
            target_sha: None,
            is_same: false,
            size_diff: None,
            content_diff: Some(String::from_str("Target file does not exist")),
        },
    }
}

/// The sha of the newest commit of a listing that puts the newest first.
pub fn latest_commit_sha(shas: Vec<String>) -> (r: Result<String, GovernanceError>)
    ensures
        shas@.len() > 0 ==> r == Ok::<String, GovernanceError>(shas@[0]),
        shas@.len() == 0 ==> (r matches Err(GovernanceError::GitHubError(m)) && m@ == "No commits found"@),
{
    let mut shas = shas;
    if shas.len() == 0 {
        Err(GovernanceError::GitHubError(String::from_str("No commits found")))
    } else {
        Ok(shas.remove(0))
    }
}

/// Repository information from what the API reports: the owner's login
/// (`unknown` where absent), the default branch (`main` where absent), and
/// the newest commit of that branch.
pub fn repo_info(owner_login: Option<String>, name: String, default_branch: Option<String>, last_commit_sha: String) -> (r: GitHubRepo)
    ensures
        r.owner@ == (match owner_login { Some(o) => o@, None => "unknown"@ }),
        r.name == name,
        r.default_branch@ == (match default_branch { Some(b) => b@, None => "main"@ }),
        r.last_commit_sha == last_commit_sha,
{
    let owner = match owner_login {
        Some(o) => o,
        None => String::from_str("unknown"),
    };
    let branch = match default_branch {
        Some(b) => b,
        None => String::from_str("main"),
    };
    GitHubRepo { owner, name, default_branch: branch, last_commit_sha }
}

/// The branch a request names, `main` where it names none.
pub fn branch_or_main(branch: Option<&str>) -> (r: String)
    ensures
        r@ == (match branch { Some(b) => b@, None => "main"@ }),
{
    match branch {
        Some(b) => String::from_str(b),
        None => String::from_str("main"),
    }
}

} // verus!
