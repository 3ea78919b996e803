//! Turning the command line and the current directory into a request.
use vstd::prelude::*;
use crate::error::RepoError;
use crate::text::{has_prefix, same_text, starts_with_dashes};

verus! {

/// Who may read the hosted repository.
#[derive(Clone, Copy, Debug, PartialEq, Eq, Structural)]
pub enum Visibility {
    Public,
    Private,
}

impl Visibility {
    /// The lowercase word for the visibility.
    pub open spec fn spec_word(self) -> Seq<char> {
        match self {
            Visibility::Public => "public"@,
            Visibility::Private => "private"@,
        }
    }

    pub fn as_str(&self) -> (r: &'static str)
        ensures
            r@ == self.spec_word(),
    {
        match self {
            Visibility::Public => "public",
            Visibility::Private => "private",
        }
    }

    /// The lowercase word, as an owned string.
    pub fn to_string(&self) -> (r: String)
        ensures
            r@ == self.spec_word(),
    {
        String::from_str(self.as_str())
    }

    /// The hosting tool's flag for the visibility: `--` and the word.
    pub fn flag(&self) -> (r: String)
        ensures
            r@ == "--"@ + self.spec_word(),
    {
        let mut f = String::from_str("--");
        f.append(self.as_str());
        f
    }
}

/// What to create: a repository name and its visibility.
#[derive(Debug)]
pub struct Repository {
    pub name: String,
    pub visibility: Visibility,
}

impl Repository {
    /// A request with an empty name, private by default.
    pub fn new() -> (r: Repository)
        ensures
            r.name@ == Seq::<char>::empty(),
            r.visibility == Visibility::Private,
    {
        Repository { name: String::new(), visibility: Visibility::Private }
    }
}

/// The character views of the arguments.
pub open spec fn views(args: Seq<String>) -> Seq<Seq<char>> {
    args.map_values(|a: String| a@)
}

/// The first position at or after `i` where `t` stands in `s`, or `s.len()`.
pub open spec fn index_from(s: Seq<Seq<char>>, t: Seq<char>, i: int) -> int
    decreases s.len() - i,
{
    if i < 0 || i >= s.len() {
        s.len() as int
    } else if s[i] == t {
        i
    } else {
        index_from(s, t, i + 1)
    }
}

proof fn lemma_index_from_bounds(s: Seq<Seq<char>>, t: Seq<char>, i: int)
    requires
        0 <= i <= s.len(),
    ensures
        i <= index_from(s, t, i) <= s.len(),
        index_from(s, t, i) < s.len() ==> s[index_from(s, t, i)] == t,
    decreases s.len() - i,
{
    if i < s.len() && s[i] != t {
        lemma_index_from_bounds(s, t, i + 1);
    }
}

/// A value that cannot serve as a name: empty, or shaped like a flag.
pub open spec fn unusable_name(v: Seq<char>) -> bool {
    v.len() == 0 || has_prefix(v, "--"@)
}

/// The visibility that the flags ask for. `--private` is applied after
/// `--public`, so where both stand, in either order, the repository is private.
pub open spec fn visibility_of(args: Seq<Seq<char>>) -> Visibility {
    if args.contains("--private"@) {
        Visibility::Private
    } else if args.contains("--public"@) {
        Visibility::Public
    } else {
        Visibility::Private
    }
}

/// `r` is what the arguments `a` and the directory name `dir` call for.
pub open spec fn built_from(
    a: Seq<Seq<char>>,
    dir: Seq<char>,
    r: Result<Repository, RepoError>,
) -> bool {
    let p = index_from(a, "--name"@, 0);
    match r {
        Ok(req) => {
            &&& req.visibility == visibility_of(a)
            &&& if p == a.len() {
                req.name@ == dir
            } else {
                p + 1 < a.len() && !unusable_name(a[p + 1]) && req.name@ == a[p + 1]
            }
        },
        Err(RepoError::MissingArgument(flag)) => p + 1 == a.len() && flag@ == "--name"@,
        Err(RepoError::MalformedArgument(value)) => {
            p + 1 < a.len() && unusable_name(a[p + 1]) && value@ == a[p + 1]
        },
        Err(_) => false,
    }
}

proof fn lemma_index_absent(s: Seq<Seq<char>>, t: Seq<char>, i: int)
    requires
        0 <= i <= s.len(),
        !s.contains(t),
    ensures
        index_from(s, t, i) == s.len(),
    decreases s.len() - i,
{
    if i < s.len() {
        assert(s[i] != t);
        lemma_index_absent(s, t, i + 1);
    }
}

/// Without `--name` among the arguments, a request is always built, and its
/// name is the directory's name exactly.
pub proof fn default_name_is_directory(
    a: Seq<Seq<char>>,
    dir: Seq<char>,
    r: Result<Repository, RepoError>,
)
    requires
        built_from(a, dir, r),
        !a.contains("--name"@),
    ensures
        r matches Ok(req) && req.name@ == dir,
{
    lemma_index_absent(a, "--name"@, 0);
}

/// Where both `--public` and `--private` are given, in whatever order, the
/// request is private.
pub proof fn private_wins_over_public(
    a: Seq<Seq<char>>,
    dir: Seq<char>,
    r: Result<Repository, RepoError>,
)
    requires
        built_from(a, dir, r),
        a.contains("--public"@),
        a.contains("--private"@),
    ensures
        r matches Ok(req) ==> req.visibility == Visibility::Private,
{
}

/// Whether some argument is `t`.
fn has_token(args: &Vec<String>, t: &str) -> (r: bool)
    ensures
        r == views(args@).contains(t@),
{
    let mut i: usize = 0;
    while i < args.len()
        invariant
            i <= args.len(),
            forall|j: int| 0 <= j < i ==> args@[j]@ != t@,
        decreases args.len() - i,
    {
        if same_text(args[i].as_str(), t) {
            assert(views(args@)[i as int] == t@);
            return true;
        }
        i = i + 1;
    }
    assert(!views(args@).contains(t@)) by {
        if views(args@).contains(t@) {
            let k = choose|k: int| 0 <= k < views(args@).len() && views(args@)[k] == t@;
            assert(args@[k]@ == t@);
        }
    }
    false
}

/// The first position of `t` among the arguments, or their number.
fn position_of(args: &Vec<String>, t: &str) -> (p: usize)
    ensures
        p == index_from(views(args@), t@, 0),
{
    let mut i: usize = 0;
    while i < args.len() && !same_text(args[i].as_str(), t)
        invariant
            i <= args.len(),
            index_from(views(args@), t@, i as int) == index_from(views(args@), t@, 0),
        decreases args.len() - i,
    {
        i = i + 1;
    }
    i
}

/// Builds the request from the arguments (without the program's own name)
/// and the name of the current directory.
///
/// The name is the directory's, unless `--name` stands among the arguments:
/// then the token after its first occurrence is the name, and there must be
/// one, neither empty nor starting with `--`. Tokens that are not
/// recognised are ignored.
pub fn build_request(args: &Vec<String>, dir_name: &str) -> (r: Result<Repository, RepoError>)
    ensures
        built_from(views(args@), dir_name@, r),
{
    let mut req = Repository::new();
    req.name = String::from_str(dir_name);
    let p = position_of(args, "--name");
    proof {
        lemma_index_from_bounds(views(args@), "--name"@, 0);
    }
    if p < args.len() {
        if p + 1 >= args.len() {
            return Err(RepoError::MissingArgument(String::from_str("--name")));
        }
        let v = &args[p + 1];
        assert(views(args@)[p + 1] == v@);
        proof {
            reveal_strlit("--");
            assert("--"@ =~= seq!['-', '-']);
        }
        if v.as_str().unicode_len() == 0 || starts_with_dashes(v.as_str()) {
            return Err(RepoError::MalformedArgument(v.clone()));
        }
        req.name = v.clone();
    }
    // `--private` is looked at last, so it wins when both flags are given.
    if has_token(args, "--public") {
        req.visibility = Visibility::Public;
    }
    if has_token(args, "--private") {
        req.visibility = Visibility::Private;
    }
    Ok(req)
}

} // verus!
