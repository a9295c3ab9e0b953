//! Package management on Alpine Linux, through `apk`.
//!
//! Build-time packages are installed as the virtual package `.build-deps` and
//! removed again once the extensions are built. Before that, the shared
//! libraries that the new binaries under `/usr/local` need at run time are
//! pinned as the virtual package `.docker-phpexts-rundeps`, so that removing
//! the build-time packages does not take them away.

use regex::Regex;
use vstd::prelude::*;
use vstd::string::*;
use crate::extension::Extension;
use crate::system::collect_packages;
use crate::system::command::{Command, CommandView};
use crate::system::packages_of;
use crate::text::{str_eq, words};

verus! {

/// What `regex` splits `haystack` into at the matches of `pattern`: the pieces
/// between the matches, in order. `None` where `pattern` does not compile.
pub uninterp spec fn regex_split(pattern: Seq<char>, haystack: Seq<char>) -> Option<
    Seq<Seq<char>>,
>;

/// Compiles `pattern` with `regex::Regex::new` and splits `haystack` with
/// `Regex::split`.
///
/// Nothing is claimed of the outcome but that it is the one `regex` gives for
/// these arguments, which [`regex_split`] names: `None` where `Regex::new`
/// refuses the pattern, else the pieces that `Regex::split` yields, in order.
#[verifier::external_body]
fn split_by_pattern(pattern: &str, haystack: &str) -> (r: Option<Vec<String>>)
    ensures
        r.deep_view() == regex_split(pattern@, haystack@),
{
    Regex::new(pattern).ok().map(|re| re.split(haystack).map(String::from).collect())
}

/// The pattern that separates the names in the output of `scanelf`: commas and
/// whitespace, in runs of any length.
pub open spec fn scanelf_delimiter() -> Seq<char> {
    "[,\\s]+"@
}

/// The pieces that are not empty, each once, in the order in which they first
/// occur.
pub open spec fn distinct_nonempty(pieces: Seq<Seq<char>>) -> Seq<Seq<char>>
    decreases pieces.len(),
{
    if pieces.len() == 0 {
        Seq::empty()
    } else {
        let before = distinct_nonempty(pieces.drop_last());
        let piece = pieces.last();
        if piece.len() == 0 || before.contains(piece) {
            before
        } else {
            before.push(piece)
        }
    }
}

/// The library names in the output `output` of `scanelf`.
pub open spec fn scanelf_names(output: Seq<char>) -> Seq<Seq<char>> {
    match regex_split(scanelf_delimiter(), output) {
        Some(pieces) => distinct_nonempty(pieces),
        None => Seq::empty(),
    }
}

/// The name under which `apk` knows the package that provides the shared
/// library `library`.
pub open spec fn shared_object(library: Seq<char>) -> Seq<char> {
    "so:"@ + library
}

/// The run-time dependencies to pin: for each library found that
/// `/usr/local/lib` does not itself provide, the package that provides it.
pub open spec fn runtime_packages(found: Seq<(Seq<char>, bool)>) -> Seq<Seq<char>>
    decreases found.len(),
{
    if found.len() == 0 {
        Seq::empty()
    } else {
        let before = runtime_packages(found.drop_last());
        if found.last().1 {
            before
        } else {
            before.push(shared_object(found.last().0))
        }
    }
}

/// The command that installs `packages` as build-time dependencies.
pub open spec fn add_build_deps_command(packages: Seq<Seq<char>>) -> CommandView {
    CommandView {
        program: "apk"@,
        args: seq!["add"@, "--no-cache"@, "--virtual"@, ".build-deps"@] + packages,
    }
}

/// The command that lists the shared libraries that the binaries under
/// `/usr/local` need.
pub open spec fn scanelf_command() -> CommandView {
    CommandView {
        program: "scanelf"@,
        args: seq![
            "--needed"@,
            "--nobanner"@,
            "--format"@,
            "%n#p"@,
            "--recursive"@,
            "/usr/local"@,
        ],
    }
}

/// The command that pins `packages` as run-time dependencies; none where
/// there is nothing to pin.
pub open spec fn add_runtime_deps_command(packages: Seq<Seq<char>>) -> Option<CommandView> {
    if packages.len() == 0 {
        None
    } else {
        Some(
            CommandView {
                program: "apk"@,
                args: seq!["add"@, "--virtual"@, ".docker-phpexts-rundeps"@] + packages,
            },
        )
    }
}

/// The command that removes the build-time dependencies.
pub open spec fn del_build_deps_command() -> CommandView {
    CommandView { program: "apk"@, args: seq!["del"@, ".build-deps"@] }
}

/// What [`distinct_nonempty`] keeps: each piece that is not empty, and nothing
/// else, and nothing twice.
pub proof fn lemma_distinct_nonempty(pieces: Seq<Seq<char>>)
    ensures
        distinct_nonempty(pieces).no_duplicates(),
        forall|piece: Seq<char>| #[trigger]
            distinct_nonempty(pieces).contains(piece) <==> pieces.contains(piece) && piece.len()
                > 0,
    decreases pieces.len(),
{
    if pieces.len() > 0 {
        let init = pieces.drop_last();
        let last = pieces.last();
        let before = distinct_nonempty(init);
        let all = distinct_nonempty(pieces);
        lemma_distinct_nonempty(init);
        assert forall|piece: Seq<char>| #[trigger]
            all.contains(piece) <==> pieces.contains(piece) && piece.len() > 0 by {
            if pieces.contains(piece) {
                let i = choose|i: int| 0 <= i < pieces.len() && pieces[i] == piece;
                if i < init.len() {
                    assert(init[i] == piece);
                    assert(init.contains(piece));
                } else {
                    assert(piece == last);
                }
            }
            if init.contains(piece) {
                let i = choose|i: int| 0 <= i < init.len() && init[i] == piece;
                assert(pieces[i] == piece);
            }
            assert(pieces[pieces.len() - 1] == last);
            if all.contains(piece) && !before.contains(piece) {
                let i = choose|i: int| 0 <= i < all.len() && all[i] == piece;
                if i < before.len() {
                    assert(before[i] == piece);
                }
            }
            if before.contains(piece) {
                let i = choose|i: int| 0 <= i < before.len() && before[i] == piece;
                assert(all[i] == piece);
            }
            if piece == last && last.len() > 0 && !before.contains(last) {
                assert(all[all.len() - 1] == piece);
            }
        }
    }
}

/// Whether `list` holds `item`.
fn contains_string(list: &Vec<String>, item: &str) -> (r: bool)
    ensures
        r == list.deep_view().contains(item@),
{
    let mut i: usize = 0;
    while i < list.len()
        invariant
            i <= list.len(),
            forall|j: int| 0 <= j < i ==> list.deep_view()[j] != item@,
        decreases list.len() - i,
    {
        assert(list.deep_view()[i as int] == list@[i as int]@);
        if str_eq(list[i].as_str(), item) {
            return true;
        }
        i += 1;
    }
    assert(list.deep_view().len() == list.len());
    false
}

/// Keeps the pieces that are not empty, each once, in the order in which they
/// first occur.
pub fn unique_nonempty(pieces: &Vec<String>) -> (r: Vec<String>)
    ensures
        r.deep_view() == distinct_nonempty(pieces.deep_view()),
        r.deep_view().no_duplicates(),
        forall|piece: Seq<char>| #[trigger]
            r.deep_view().contains(piece) <==> pieces.deep_view().contains(piece) && piece.len()
                > 0,
{
    let ghost all = pieces.deep_view();
    let mut kept: Vec<String> = Vec::new();
    let mut i: usize = 0;
    assert(all.take(0) =~= Seq::<Seq<char>>::empty());
    assert(kept.deep_view() =~= Seq::<Seq<char>>::empty());
    while i < pieces.len()
        invariant
            i <= pieces.len(),
            all == pieces.deep_view(),
            kept.deep_view() == distinct_nonempty(all.take(i as int)),
        decreases pieces.len() - i,
    {
        let ghost next = all.take(i + 1);
        assert(next.drop_last() =~= all.take(i as int));
        assert(next.last() == pieces@[i as int]@);
        let piece = pieces[i].as_str();
        if piece.unicode_len() > 0 && !contains_string(&kept, piece) {
            let ghost before = kept.deep_view();
            kept.push(pieces[i].clone());
            assert(kept.deep_view() =~= before.push(piece@));
        }
        i += 1;
    }
    assert(all.take(i as int) =~= all);
    proof {
        lemma_distinct_nonempty(all);
    }
    kept
}

/// Splits the output of `scanelf` into the names of the libraries it lists.
///
/// `scanelf` separates names by commas and by line breaks, and names the same
/// library many times. The result holds each name once.
pub fn split_scanelf_output(output: &str) -> (r: Vec<String>)
    ensures
        r.deep_view() == scanelf_names(output@),
{
    match split_by_pattern("[,\\s]+", output) {
        Some(pieces) => unique_nonempty(&pieces),
        None => {
            let none: Vec<String> = Vec::new();
            assert(none.deep_view() =~= Seq::<Seq<char>>::empty());
            none
        },
    }
}

/// The package manager of Alpine Linux.
pub struct Apk;

impl Apk {
    /// The directory whose shared libraries need no package: they come with
    /// the image or were just built.
    pub fn local_library_dir(&self) -> (r: &'static str)
        ensures
            r@ == "/usr/local/lib"@,
    {
        "/usr/local/lib"
    }

    /// The command that installs what building `extensions` takes: the words
    /// of `phpize_deps`, which name the C compiler and its tools, and the
    /// packages of each extension.
    pub fn install_packages(&self, phpize_deps: &str, extensions: &[Extension]) -> (r: Command<
        'static,
    >)
        ensures
            r@ == add_build_deps_command(words(phpize_deps@) + packages_of(extensions@)),
    {
        let packages = collect_packages(phpize_deps, extensions);
        let mut command = Command::new("apk");
        command.arg("add").arg("--no-cache").arg("--virtual").arg(".build-deps");
        command.args(&packages);
        assert(Seq::<Seq<char>>::empty().push("add"@).push("--no-cache"@).push("--virtual"@).push(
            ".build-deps"@,
        ) =~= seq!["add"@, "--no-cache"@, "--virtual"@, ".build-deps"@]);
        command
    }

    /// The command that lists the shared libraries that the binaries under
    /// `/usr/local` need. Its output is read by [`split_scanelf_output`].
    pub fn scan_runtime_deps(&self) -> (r: Command<'static>)
        ensures
            r@ == scanelf_command(),
    {
        let mut command = Command::new("scanelf");
        command.arg("--needed").arg("--nobanner").arg("--format").arg("%n#p").arg(
            "--recursive",
        ).arg("/usr/local");
        assert(Seq::<Seq<char>>::empty().push("--needed"@).push("--nobanner"@).push(
            "--format"@,
        ).push("%n#p"@).push("--recursive"@).push("/usr/local"@) =~= seq![
            "--needed"@,
            "--nobanner"@,
            "--format"@,
            "%n#p"@,
            "--recursive"@,
            "/usr/local"@,
        ]);
        command
    }

    /// The command that pins the run-time dependencies, so that removing the
    /// build-time packages leaves the needed shared libraries in place.
    ///
    /// `found` holds each library that `scanelf` listed, with whether a file of
    /// that name lies in [`Apk::local_library_dir`]. Those that do need no
    /// package. There is no command where nothing is left to pin.
    pub fn save_runtime_deps(&self, found: &Vec<(String, bool)>) -> (r: Option<Command<'static>>)
        ensures
            r is Some == add_runtime_deps_command(runtime_packages(found.deep_view())) is Some,
            r matches Some(command) ==> Some(command@) == add_runtime_deps_command(
                runtime_packages(found.deep_view()),
            ),
    {
        let ghost all = found.deep_view();
        let mut packages: Vec<String> = Vec::new();
        let mut i: usize = 0;
        assert(all.take(0) =~= Seq::<(Seq<char>, bool)>::empty());
        assert(packages.deep_view() =~= Seq::<Seq<char>>::empty());
        while i < found.len()
            invariant
                i <= found.len(),
                all == found.deep_view(),
                packages.deep_view() == runtime_packages(all.take(i as int)),
            decreases found.len() - i,
        {
            let ghost next = all.take(i + 1);
            assert(next.drop_last() =~= all.take(i as int));
            assert(next.last() == found@[i as int].deep_view());
            if !found[i].1 {
                let ghost before = packages.deep_view();
                let mut package = String::from_str("so:");
                package.append(found[i].0.as_str());
                packages.push(package);
                assert(packages.deep_view() =~= before.push(shared_object(found@[i as int].0@)));
            }
            i += 1;
        }
        assert(all.take(i as int) =~= all);
        assert(packages.deep_view().len() == packages.len());
        if packages.len() == 0 {
            return None;
        }
        let mut command = Command::new("apk");
        command.arg("add").arg("--virtual").arg(".docker-phpexts-rundeps");
        command.args(&packages);
        assert(Seq::<Seq<char>>::empty().push("add"@).push("--virtual"@).push(
            ".docker-phpexts-rundeps"@,
        ) =~= seq!["add"@, "--virtual"@, ".docker-phpexts-rundeps"@]);
        Some(command)
    }

    /// The command that removes the build-time dependencies: those of
    /// `phpize_deps` and those of the extensions.
    pub fn remove_build_deps(&self) -> (r: Command<'static>)
        ensures
            r@ == del_build_deps_command(),
    {
        let mut command = Command::new("apk");
        command.arg("del").arg(".build-deps");
        assert(Seq::<Seq<char>>::empty().push("del"@).push(".build-deps"@) =~= seq![
            "del"@,
            ".build-deps"@,
        ]);
        command
    }
}

} // verus!
