use vstd::prelude::*;

verus! {

/// The kind of crate that rustc is asked to build.
#[derive(Debug, Clone, Copy, PartialEq, Eq, Structural)]
pub enum CrateKind {
    Bin,
    Lib,
}

/// What the driver learns from the arguments that Cargo hands to rustc.
#[derive(Debug)]
pub struct Args {
    /// Name of the crate being compiled.
    name: Option<String>,
    /// The kind of this crate.
    kind: Option<CrateKind>,
    /// Whether this crate is being compiled for release.
    is_release: bool,
    /// Whether this crate is being compiled for a test.
    is_test: bool,
}

/// The mathematical content of an `Args`.
pub struct ArgsView {
    pub name: Option<Seq<char>>,
    pub kind: Option<CrateKind>,
    pub is_release: bool,
    pub is_test: bool,
}

impl View for Args {
    type V = ArgsView;

    closed spec fn view(&self) -> ArgsView {
        ArgsView {
            name: match self.name {
                Some(s) => Some(s@),
                None => None,
            },
            kind: self.kind,
            is_release: self.is_release,
            is_test: self.is_test,
        }
    }
}

/// The crate name set by the last `--crate-name` flag that has a value after it.
pub open spec fn crate_name_in(raw: Seq<Seq<char>>) -> Option<Seq<char>>
    decreases raw.len(),
{
    if raw.len() < 2 {
        None
    } else if raw[raw.len() - 2] == "--crate-name"@ {
        Some(raw.last())
    } else {
        crate_name_in(raw.drop_last())
    }
}

/// The crate kind set by the last `--crate-type` flag that has a value after it:
/// `bin` gives a binary, any other value a library.
pub open spec fn crate_kind_in(raw: Seq<Seq<char>>) -> Option<CrateKind>
    decreases raw.len(),
{
    if raw.len() < 2 {
        None
    } else if raw[raw.len() - 2] == "--crate-type"@ {
        if raw.last() == "bin"@ {
            Some(CrateKind::Bin)
        } else {
            Some(CrateKind::Lib)
        }
    } else {
        crate_kind_in(raw.drop_last())
    }
}

/// The crate is compiled for release: some argument is `--release`.
pub open spec fn release_in(raw: Seq<Seq<char>>) -> bool {
    raw.contains("--release"@)
}

/// The crate is compiled for a test: some argument is `--test`.
pub open spec fn test_in(raw: Seq<Seq<char>>) -> bool {
    raw.contains("--test"@)
}

/// The whole reading of an argument list.
pub open spec fn args_of(raw: Seq<Seq<char>>) -> ArgsView {
    ArgsView {
        name: crate_name_in(raw),
        kind: crate_kind_in(raw),
        is_release: release_in(raw),
        is_test: test_in(raw),
    }
}

/// Whether two strings hold the same characters.
pub fn str_equal(a: &str, b: &str) -> (res: bool)
    ensures
        res == (a@ == b@),
{
    a.to_owned() == b.to_owned()
}

/// Whether some string of `args` is `target`.
pub fn any_equal(args: &[String], target: &str) -> (res: bool)
    ensures
        res == args.deep_view().contains(target@),
{
    let n = args.len();
    let mut i: usize = 0;
    while i < n
        invariant
            n == args@.len(),
            i <= n,
            forall|k: int| 0 <= k < i ==> #[trigger] args.deep_view()[k] != target@,
        decreases n - i,
    {
        assert(args.deep_view()[i as int] == args@[i as int]@);
        if str_equal(args[i].as_str(), target) {
            return true;
        }
        i = i + 1;
    }
    false
}

impl Args {
    /// Reads the crate name and kind pair by pair, as a sliding window of
    /// width two; a release build is one whose arguments hold `--release`
    /// anywhere, and a test build one whose arguments hold `--test` anywhere.
    pub fn from_raw(args: &[String]) -> (res: Self)
        ensures
            res@ == args_of(args.deep_view()),
    {
        let ghost raw = args.deep_view();
        let n = args.len();
        let mut name: Option<String> = None;
        let mut kind: Option<CrateKind> = None;
        let is_release = any_equal(args, "--release");
        let is_test = any_equal(args, "--test");
        if n < 2 {
            let res = Args { name, kind, is_release, is_test };
            assert(res@ == args_of(raw));
            return res;
        }
        let mut j: usize = 0;
        while j + 1 < n
            invariant
                n == args@.len(),
                raw == args.deep_view(),
                n >= 2,
                j + 1 <= n,
                match name {
                    Some(s) => crate_name_in(raw.take(j + 1)) == Some(s@),
                    None => crate_name_in(raw.take(j + 1)) is None,
                },
                kind == crate_kind_in(raw.take(j + 1)),
            decreases n - j,
        {
            let ghost before = raw.take(j + 1);
            let ghost after = raw.take(j + 2);
            assert(after.drop_last() =~= before);
            assert(after[j as int] == raw[j as int]);
            assert(after.last() == raw[j + 1]);
            proof {
                reveal_strlit("--crate-name");
                reveal_strlit("--crate-type");
                assert("--crate-name"@[8] != "--crate-type"@[8]);
            }
            let a1 = args[j].as_str();
            let a2 = args[j + 1].as_str();
            assert(a1@ == raw[j as int]);
            assert(a2@ == raw[j + 1]);
            if str_equal(a1, "--crate-name") {
                name = Some(a2.to_owned());
            } else if str_equal(a1, "--crate-type") {
                if str_equal(a2, "bin") {
                    kind = Some(CrateKind::Bin);
                } else {
                    kind = Some(CrateKind::Lib);
                }
            }
            assert(kind == crate_kind_in(after)) by {
                assert(after.len() >= 2);
                assert(after[after.len() - 2] == raw[j as int]);
            }
            j = j + 1;
        }
        assert(raw.take(n as int) =~= raw);
        Args { name, kind, is_release, is_test }
    }

    /// The crate name, or `default` where the arguments named none.
    pub fn name_or(&self, default: &str) -> (res: String)
        ensures
            res@ == match self@.name {
                Some(n) => n,
                None => default@,
            },
    {
        match &self.name {
            Some(n) => n.clone(),
            None => default.to_owned(),
        }
    }
}

/// A `--crate-name` flag with its value at the end of the arguments decides
/// the crate name, whatever came before.
pub proof fn lemma_last_crate_name_wins(raw: Seq<Seq<char>>, name: Seq<char>)
    ensures
        crate_name_in(raw + seq!["--crate-name"@, name]) == Some(name),
{
    let full = raw + seq!["--crate-name"@, name];
    assert(full[full.len() - 2] == "--crate-name"@);
    assert(full.last() == name);
}

/// A `--crate-type` flag with its value at the end of the arguments decides
/// the crate kind, whatever came before.
pub proof fn lemma_last_crate_type_wins(raw: Seq<Seq<char>>, kind: Seq<char>)
    ensures
        crate_kind_in(raw + seq!["--crate-type"@, kind]) == Some(
            if kind == "bin"@ {
                CrateKind::Bin
            } else {
                CrateKind::Lib
            },
        ),
{
    let full = raw + seq!["--crate-type"@, kind];
    assert(full[full.len() - 2] == "--crate-type"@);
    assert(full.last() == kind);
}

/// Once `--release` occurs, more arguments never undo it.
pub proof fn lemma_release_stays(raw: Seq<Seq<char>>, more: Seq<Seq<char>>)
    requires
        release_in(raw),
    ensures
        release_in(raw + more),
{
    let full = raw + more;
    let i = choose|i: int| 0 <= i < raw.len() && raw[i] == "--release"@;
    assert(full[i] == raw[i]);
}

/// A build is a test build exactly when `--test` is one of its arguments,
/// wherever it stands; a value `test` after another flag does not count.
pub proof fn lemma_test_flag_anywhere(raw: Seq<Seq<char>>)
    ensures
        args_of(raw).is_test <==> exists|i: int| 0 <= i < raw.len() && raw[i] == "--test"@,
        args_of(raw).is_release <==> exists|i: int| 0 <= i < raw.len() && raw[i] == "--release"@,
        args_of(raw + seq!["--test"@]).is_test,
{
    let full = raw + seq!["--test"@];
    assert(full[raw.len() as int] == "--test"@);
}

} // verus!
