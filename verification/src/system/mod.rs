//! The command lines that install extensions: for the system's package
//! manager and for the PHP toolchain of the official Docker images.

pub mod alpine;
pub mod command;

use vstd::prelude::*;
use vstd::string::*;
use crate::extension::{Extension, ExtensionView};
use crate::pecl::{Pecl, PeclView};
use crate::system::alpine::add_build_deps_command;
pub use crate::system::alpine::Apk;
use crate::system::command::{Command, CommandView};
use crate::text::{decimal, decimal_string, split_ascii_whitespace, words};

verus! {

/// What a list of commands stands for.
pub open spec fn views(commands: Seq<Command<'static>>) -> Seq<CommandView> {
    Seq::new(commands.len(), |i: int| commands[i]@)
}

/// The packages of a list of extensions, one extension after the other.
pub open spec fn packages_of(extensions: Seq<Extension>) -> Seq<Seq<char>>
    decreases extensions.len(),
{
    if extensions.len() == 0 {
        Seq::empty()
    } else {
        packages_of(extensions.drop_last()) + match extensions.last()@.packages() {
            Some(list) => list,
            None => Seq::empty(),
        }
    }
}

/// The command that configures the builtin `name`.
pub open spec fn configure_command(name: Seq<char>, configure_args: Seq<Seq<char>>) -> CommandView {
    CommandView { program: "docker-php-ext-configure"@, args: seq![name] + configure_args }
}

/// The command that compiles and installs `builtins` with `jobs` parallel
/// jobs; none where there is no builtin to install.
pub open spec fn install_command(builtins: Seq<Seq<char>>, jobs: nat) -> Option<CommandView> {
    if builtins.len() == 0 {
        None
    } else {
        Some(
            CommandView {
                program: "docker-php-ext-install"@,
                args: seq!["-j"@, decimal(jobs)] + builtins,
            },
        )
    }
}

/// The commands that install the PECL extension `pecl`, and enable it unless
/// it is to stay disabled.
pub open spec fn pecl_commands(pecl: PeclView) -> Seq<CommandView> {
    let install = CommandView { program: "pecl"@, args: seq!["install"@, pecl.specifier()] };
    if pecl.data.default_enabled {
        seq![install, CommandView { program: "docker-php-ext-enable"@, args: seq![pecl.name] }]
    } else {
        seq![install]
    }
}

/// The names of the builtins among `extensions`, in order.
pub open spec fn builtin_names(extensions: Seq<Extension>) -> Seq<Seq<char>>
    decreases extensions.len(),
{
    if extensions.len() == 0 {
        Seq::empty()
    } else {
        let before = builtin_names(extensions.drop_last());
        match extensions.last()@ {
            ExtensionView::Builtin(builtin) => before.push(builtin.name),
            ExtensionView::Pecl(_) => before,
        }
    }
}

/// The commands that configure the builtins among `extensions` that have
/// configure arguments, in order.
pub open spec fn configure_commands(extensions: Seq<Extension>) -> Seq<CommandView>
    decreases extensions.len(),
{
    if extensions.len() == 0 {
        Seq::empty()
    } else {
        let before = configure_commands(extensions.drop_last());
        match extensions.last()@ {
            ExtensionView::Builtin(builtin) => match builtin.data.configure_cmd {
                Some(configure_args) => before.push(
                    configure_command(builtin.name, configure_args),
                ),
                None => before,
            },
            ExtensionView::Pecl(_) => before,
        }
    }
}

/// The commands that install, and enable, the PECL extensions among
/// `extensions`, in order.
pub open spec fn all_pecl_commands(extensions: Seq<Extension>) -> Seq<CommandView>
    decreases extensions.len(),
{
    if extensions.len() == 0 {
        Seq::empty()
    } else {
        let before = all_pecl_commands(extensions.drop_last());
        match extensions.last()@ {
            ExtensionView::Builtin(_) => before,
            ExtensionView::Pecl(pecl) => before + pecl_commands(pecl),
        }
    }
}

/// The commands that install `extensions` when the builtins are compiled with
/// `jobs` parallel jobs: the build-time packages first, then each builtin's
/// configuration, then all builtins at once, then each PECL extension.
pub open spec fn installation(phpize_deps: Seq<char>, extensions: Seq<Extension>, jobs: nat) -> Seq<
    CommandView,
> {
    seq![add_build_deps_command(words(phpize_deps) + packages_of(extensions))]
        + configure_commands(extensions) + (match install_command(
        builtin_names(extensions),
        jobs,
    ) {
        Some(command) => seq![command],
        None => Seq::empty(),
    }) + all_pecl_commands(extensions)
}

/// Some extension among `extensions` needs a system package.
pub open spec fn any_packages(extensions: Seq<Extension>) -> bool {
    exists|i: int|
        0 <= i < extensions.len() && (#[trigger] extensions[i]@.packages() matches Some(list)
            && list.len() > 0)
}

/// `num_cpus::get` counts the CPUs that this process may use. Its
/// documentation promises at least one; how many there are depends on the
/// machine, so nothing more is claimed.
#[verifier::external_body]
fn available_cpus() -> (n: usize)
    ensures
        n >= 1,
{
    num_cpus::get()
}

/// Collects the system packages to install: the words of `phpize_deps`, which
/// name the C compiler and the other tools that building an extension takes,
/// and then the packages of each extension, in order.
pub fn collect_packages(phpize_deps: &str, extensions: &[Extension]) -> (r: Vec<String>)
    ensures
        r.deep_view() == words(phpize_deps@) + packages_of(extensions@),
{
    let mut all = split_ascii_whitespace(phpize_deps);
    let ghost base = all.deep_view();
    let mut i: usize = 0;
    assert(extensions@.take(0) =~= Seq::<Extension>::empty());
    assert(base + packages_of(extensions@.take(0)) =~= base);
    while i < extensions.len()
        invariant
            i <= extensions.len(),
            all.deep_view() == base + packages_of(extensions@.take(i as int)),
        decreases extensions.len() - i,
    {
        let ghost before = all.deep_view();
        let ghost done = extensions@.take(i as int);
        let ghost next = extensions@.take(i + 1);
        assert(next.drop_last() =~= done);
        assert(next.last() == extensions@[i as int]);
        match extensions[i].packages() {
            Some(packages) => {
                let ghost added = packages.deep_view();
                let mut j: usize = 0;
                assert(before + added.take(0) =~= before);
                while j < packages.len()
                    invariant
                        j <= packages.len(),
                        added == packages.deep_view(),
                        all.deep_view() == before + added.take(j as int),
                    decreases packages.len() - j,
                {
                    let ghost so_far = all.deep_view();
                    all.push(packages[j].clone());
                    j += 1;
                    assert(all.deep_view() =~= so_far.push(added[j - 1]));
                    assert(added.take(j as int) =~= added.take(j - 1).push(added[j - 1]));
                    assert(all.deep_view() =~= before + added.take(j as int));
                }
                assert(added.take(j as int) =~= added);
                assert(all.deep_view() =~= base + packages_of(next));
            },
            None => {
                assert(all.deep_view() =~= base + packages_of(next));
            },
        }
        i += 1;
    }
    assert(extensions@.take(i as int) =~= extensions@);
    all
}

/// The command that runs `docker-php-ext-configure` for the builtin `name`
/// with the given arguments.
pub fn configure_builtin(name: &str, configure_args: &Vec<String>) -> (r: Command<'static>)
    ensures
        r@ == configure_command(name@, configure_args.deep_view()),
{
    let mut command = Command::new("docker-php-ext-configure");
    command.arg(name);
    command.args(configure_args);
    assert(Seq::<Seq<char>>::empty().push(name@) =~= seq![name@]);
    command
}

/// The command that runs `docker-php-ext-install` for `builtins` with `jobs`
/// parallel jobs. There is none where the list is empty.
pub fn install_builtins_with_jobs(builtins: &Vec<String>, jobs: usize) -> (r: Option<
    Command<'static>,
>)
    ensures
        r is Some == install_command(builtins.deep_view(), jobs as nat) is Some,
        r matches Some(command) ==> Some(command@) == install_command(
            builtins.deep_view(),
            jobs as nat,
        ),
{
    if builtins.len() == 0 {
        assert(builtins.deep_view().len() == 0);
        return None;
    }
    assert(builtins.deep_view().len() == builtins.len());
    let mut command = Command::new("docker-php-ext-install");
    command.arg("-j");
    let count = decimal_string(jobs);
    command.arg(count.as_str());
    command.args(builtins);
    assert(Seq::<Seq<char>>::empty().push("-j"@).push(count@) =~= seq!["-j"@, count@]);
    Some(command)
}

/// The command that runs `docker-php-ext-install` for `builtins`, with as many
/// parallel jobs as this machine has CPUs. There is none where the list is
/// empty.
pub fn install_builtins(builtins: &Vec<String>) -> (r: Option<Command<'static>>)
    ensures
        builtins.len() == 0 <==> r is None,
        r matches Some(command) ==> exists|jobs: nat|
            jobs >= 1 && Some(command@) == #[trigger] install_command(builtins.deep_view(), jobs),
{
    if builtins.len() == 0 {
        return None;
    }
    assert(builtins.deep_view().len() == builtins.len());
    let jobs = available_cpus();
    install_builtins_with_jobs(builtins, jobs)
}

/// The commands that install the PECL extension `pecl`: `pecl install` with
/// its specifier, and then `docker-php-ext-enable` unless the extension is to
/// stay disabled. The second is to run only if the first has succeeded.
pub fn install_pecl_extension(pecl: &Pecl) -> (r: Vec<Command<'static>>)
    ensures
        views(r@) == pecl_commands(pecl@),
{
    let mut commands: Vec<Command<'static>> = Vec::new();
    let mut install = Command::new("pecl");
    install.arg("install");
    let specifier = pecl.specifier();
    install.arg(specifier.as_str());
    assert(Seq::<Seq<char>>::empty().push("install"@).push(specifier@) =~= seq![
        "install"@,
        specifier@,
    ]);
    commands.push(install);
    if pecl.is_enabled() {
        let mut enable = Command::new("docker-php-ext-enable");
        enable.arg(pecl.name());
        assert(Seq::<Seq<char>>::empty().push(pecl@.name) =~= seq![pecl@.name]);
        commands.push(enable);
    }
    assert(views(commands@) =~= pecl_commands(pecl@));
    commands
}

/// The names of the builtins among `extensions`, in order.
pub fn builtins_of(extensions: &[Extension]) -> (r: Vec<String>)
    ensures
        r.deep_view() == builtin_names(extensions@),
{
    let mut names: Vec<String> = Vec::new();
    let mut i: usize = 0;
    assert(extensions@.take(0) =~= Seq::<Extension>::empty());
    assert(names.deep_view() =~= Seq::<Seq<char>>::empty());
    while i < extensions.len()
        invariant
            i <= extensions.len(),
            names.deep_view() == builtin_names(extensions@.take(i as int)),
        decreases extensions.len() - i,
    {
        let ghost next = extensions@.take(i + 1);
        assert(next.drop_last() =~= extensions@.take(i as int));
        assert(next.last() == extensions@[i as int]);
        match &extensions[i] {
            Extension::Builtin(builtin) => {
                let ghost before = names.deep_view();
                names.push(builtin.name().to_owned());
                assert(names.deep_view() =~= before.push(builtin@.name));
            },
            Extension::Pecl(_) => {},
        }
        i += 1;
    }
    assert(extensions@.take(i as int) =~= extensions@);
    names
}

/// The commands that configure the builtins among `extensions` that have
/// configure arguments, in order.
pub fn configure_builtins(extensions: &[Extension]) -> (r: Vec<Command<'static>>)
    ensures
        views(r@) == configure_commands(extensions@),
{
    let mut commands: Vec<Command<'static>> = Vec::new();
    let mut i: usize = 0;
    assert(extensions@.take(0) =~= Seq::<Extension>::empty());
    assert(views(commands@) =~= Seq::<CommandView>::empty());
    while i < extensions.len()
        invariant
            i <= extensions.len(),
            views(commands@) == configure_commands(extensions@.take(i as int)),
        decreases extensions.len() - i,
    {
        let ghost next = extensions@.take(i + 1);
        assert(next.drop_last() =~= extensions@.take(i as int));
        assert(next.last() == extensions@[i as int]);
        match &extensions[i] {
            Extension::Builtin(builtin) => match builtin.configure_cmd() {
                Some(configure_args) => {
                    let ghost before = views(commands@);
                    let command = configure_builtin(builtin.name(), configure_args);
                    commands.push(command);
                    assert(views(commands@) =~= before.push(command@));
                },
                None => {},
            },
            Extension::Pecl(_) => {},
        }
        i += 1;
    }
    assert(extensions@.take(i as int) =~= extensions@);
    commands
}

/// The commands that install, and enable, the PECL extensions among
/// `extensions`, in order.
pub fn install_pecl_extensions(extensions: &[Extension]) -> (r: Vec<Command<'static>>)
    ensures
        views(r@) == all_pecl_commands(extensions@),
{
    let mut commands: Vec<Command<'static>> = Vec::new();
    let mut i: usize = 0;
    assert(extensions@.take(0) =~= Seq::<Extension>::empty());
    assert(views(commands@) =~= Seq::<CommandView>::empty());
    while i < extensions.len()
        invariant
            i <= extensions.len(),
            views(commands@) == all_pecl_commands(extensions@.take(i as int)),
        decreases extensions.len() - i,
    {
        let ghost next = extensions@.take(i + 1);
        assert(next.drop_last() =~= extensions@.take(i as int));
        assert(next.last() == extensions@[i as int]);
        match &extensions[i] {
            Extension::Builtin(_) => {},
            Extension::Pecl(pecl) => {
                let ghost before = views(commands@);
                let mut steps = install_pecl_extension(pecl);
                let ghost added = views(steps@);
                commands.append(&mut steps);
                assert(views(commands@) =~= before + added);
            },
        }
        i += 1;
    }
    assert(extensions@.take(i as int) =~= extensions@);
    commands
}

/// The commands that install `extensions` when the builtins are compiled with
/// `jobs` parallel jobs, in the order in which they are to run. Each is to run
/// only if those before it have succeeded.
pub fn installation_with_jobs(phpize_deps: &str, extensions: &[Extension], jobs: usize) -> (r: Vec<
    Command<'static>,
>)
    ensures
        views(r@) == installation(phpize_deps@, extensions@, jobs as nat),
{
    let manager = Apk;
    let mut commands: Vec<Command<'static>> = Vec::new();
    let packages = manager.install_packages(phpize_deps, extensions);
    commands.push(packages);
    let ghost first = views(commands@);
    assert(first =~= seq![
        add_build_deps_command(words(phpize_deps@) + packages_of(extensions@)),
    ]);
    let mut configure = configure_builtins(extensions);
    commands.append(&mut configure);
    let names = builtins_of(extensions);
    let ghost second = views(commands@);
    assert(second =~= first + configure_commands(extensions@));
    match install_builtins_with_jobs(&names, jobs) {
        Some(command) => {
            commands.push(command);
            assert(views(commands@) =~= second + seq![command@]);
        },
        None => {
            assert(views(commands@) =~= second + Seq::<CommandView>::empty());
        },
    }
    let ghost third = views(commands@);
    let mut pecl = install_pecl_extensions(extensions);
    commands.append(&mut pecl);
    assert(views(commands@) =~= third + all_pecl_commands(extensions@));
    commands
}

/// The commands that install `extensions`, in the order in which they are to
/// run, with as many parallel jobs for the builtins as this machine has CPUs.
pub fn installation_commands(phpize_deps: &str, extensions: &[Extension]) -> (r: Vec<
    Command<'static>,
>)
    ensures
        exists|jobs: nat|
            jobs >= 1 && views(r@) == #[trigger] installation(phpize_deps@, extensions@, jobs),
{
    let jobs = available_cpus();
    installation_with_jobs(phpize_deps, extensions, jobs)
}

/// Whether some extension among `extensions` needs a system package. Only then
/// are run-time dependencies looked for before the build-time packages go.
pub fn needs_runtime_deps(extensions: &[Extension]) -> (r: bool)
    ensures
        r == any_packages(extensions@),
{
    let mut i: usize = 0;
    while i < extensions.len()
        invariant
            i <= extensions.len(),
            forall|j: int|
                0 <= j < i ==> !(#[trigger] extensions@[j]@.packages() matches Some(list)
                    && list.len() > 0),
        decreases extensions.len() - i,
    {
        if extensions[i].has_packages() {
            return true;
        }
        i += 1;
    }
    false
}

} // verus!
