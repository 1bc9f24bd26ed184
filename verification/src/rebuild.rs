//! The NixOS module generated from the package set, and the steps of a
//! `nixos-rebuild switch` run.
use vstd::prelude::*;

use vstd::string::StringExecFns;

use crate::state::State;

verus! {

/// The lines of the module that name the packages, joined by newlines.
pub open spec fn package_lines(packages: Seq<Seq<char>>) -> Seq<char>
    decreases packages.len(),
{
    if packages.len() == 0 {
        Seq::empty()
    } else if packages.len() == 1 {
        "    pkgs."@ + packages[0]
    } else {
        package_lines(packages.drop_last()) + "\n"@ + "    pkgs."@ + packages.last()
    }
}

/// The NixOS module that installs `packages` through `environment.systemPackages`.
pub open spec fn module_text(packages: Seq<Seq<char>>) -> Seq<char> {
    "# Managed by omarchy-nix-daemon \u{2014} do not edit manually.\n{ pkgs, ... }:\n{\nenvironment.systemPackages = [\n"@
        + package_lines(packages) + "\n];\n}\n"@
}

/// Generates the NixOS module that installs the packages of `state`.
pub fn generate_module(state: &State) -> (res: String)
    ensures
        res@ == module_text(state@),
{
    let mut list = String::new();
    let mut i: usize = 0;
    while i < state.packages.len()
        invariant
            i <= state.packages.len(),
            list@ == package_lines(state@.take(i as int)),
        decreases state.packages.len() - i,
    {
        let ghost before = list@;
        if i > 0 {
            list.append("\n");
        }
        list.append("    pkgs.");
        list.append(state.packages[i].as_str());
        proof {
            let taken = state@.take(i + 1);
            assert(taken.drop_last() =~= state@.take(i as int));
            assert(taken.last() == state@[i as int]);
            if i == 0 {
                assert(list@ =~= "    pkgs."@ + taken[0]);
            } else {
                assert(list@ =~= before + "\n"@ + "    pkgs."@ + taken.last());
            }
        }
        i = i + 1;
    }
    assert(state@.take(state.packages.len() as int) =~= state@);
    let mut text = String::from_str(
        "# Managed by omarchy-nix-daemon \u{2014} do not edit manually.\n{ pkgs, ... }:\n{\nenvironment.systemPackages = [\n",
    );
    text.append(list.as_str());
    text.append("\n];\n}\n");
    text
}

/// How many characters come before the first line feed of `s` (all of them
/// when it has none).
pub open spec fn first_line_len(s: Seq<char>) -> nat
    decreases s.len(),
{
    if s.len() == 0 || s[0] == '\n' {
        0
    } else {
        1 + first_line_len(s.drop_first())
    }
}

/// The lines of `s`: the text between line feeds, where a line feed at the
/// very end closes the last line instead of opening an empty one. This is how
/// `str::lines` splits text that holds no carriage return.
pub open spec fn lines_of(s: Seq<char>) -> Seq<Seq<char>>
    decreases s.len(),
{
    if s.len() == 0 {
        Seq::empty()
    } else if first_line_len(s) < s.len() {
        seq![s.take(first_line_len(s) as int)] + lines_of(s.skip(first_line_len(s) + 1int))
    } else {
        seq![s]
    }
}

/// Whether `s` holds no line feed.
pub open spec fn is_single_line(s: Seq<char>) -> bool {
    forall|i: int| 0 <= i < s.len() ==> s[i] != '\n'
}

/// Whether no name in `packages` holds a line feed.
pub open spec fn names_are_single_lines(packages: Seq<Seq<char>>) -> bool {
    forall|i: int| 0 <= i < packages.len() ==> is_single_line(#[trigger] packages[i])
}

/// The line of the module that names `attr`.
pub open spec fn package_line(attr: Seq<char>) -> Seq<char> {
    "    pkgs."@ + attr
}

/// The lines of the module for `packages`: four lines of header, one line per
/// package in order (a blank line when there are none), and two closing lines.
pub open spec fn module_lines(packages: Seq<Seq<char>>) -> Seq<Seq<char>> {
    seq![
        "# Managed by omarchy-nix-daemon \u{2014} do not edit manually."@,
        "{ pkgs, ... }:"@,
        "{"@,
        "environment.systemPackages = ["@,
    ] + (if packages.len() == 0 {
        seq![Seq::<char>::empty()]
    } else {
        Seq::new(packages.len(), |i: int| package_line(packages[i]))
    }) + seq!["];"@, "}"@]
}

proof fn lemma_first_line_of(a: Seq<char>, rest: Seq<char>)
    requires
        is_single_line(a),
    ensures
        first_line_len(a + "\n"@ + rest) == a.len(),
    decreases a.len(),
{
    reveal_strlit("\n");
    let s = a + "\n"@ + rest;
    if a.len() == 0 {
        assert(s[0] == '\n');
    } else {
        assert(s.drop_first() =~= a.drop_first() + "\n"@ + rest);
        assert(s[0] == a[0]);
        lemma_first_line_of(a.drop_first(), rest);
    }
}

/// Splitting a single line followed by a line feed and `rest`.
proof fn lemma_lines_of_line_then(a: Seq<char>, rest: Seq<char>)
    requires
        is_single_line(a),
    ensures
        lines_of(a + "\n"@ + rest) == seq![a] + lines_of(rest),
{
    reveal_strlit("\n");
    let s = a + "\n"@ + rest;
    lemma_first_line_of(a, rest);
    assert(s.take(a.len() as int) =~= a);
    assert(s.skip(a.len() + 1int) =~= rest);
}

proof fn lemma_package_line_is_single(attr: Seq<char>)
    requires
        is_single_line(attr),
    ensures
        is_single_line(package_line(attr)),
        package_line(attr).len() > 0,
{
    reveal_strlit("    pkgs.");
    assert forall|i: int| 0 <= i < package_line(attr).len() implies package_line(attr)[i] != '\n' by {
        if i >= 9 {
            assert(package_line(attr)[i] == attr[i - 9]);
        }
    }
}

/// Splitting the package lines followed by a line feed and `rest`.
proof fn lemma_lines_of_package_lines(packages: Seq<Seq<char>>, rest: Seq<char>)
    requires
        packages.len() > 0,
        names_are_single_lines(packages),
    ensures
        lines_of(package_lines(packages) + "\n"@ + rest)
            == Seq::new(packages.len(), |i: int| package_line(packages[i])) + lines_of(rest),
    decreases packages.len(),
{
    let last = package_line(packages.last());
    lemma_package_line_is_single(packages.last());
    if packages.len() == 1 {
        lemma_lines_of_line_then(last, rest);
        assert(Seq::new(packages.len(), |i: int| package_line(packages[i])) =~= seq![last]);
    } else {
        let init = packages.drop_last();
        assert(names_are_single_lines(init)) by {
            assert forall|i: int| 0 <= i < init.len() implies is_single_line(#[trigger] init[i]) by {
                assert(init[i] == packages[i]);
            }
        }
        assert(package_lines(packages) + "\n"@ + rest
            =~= package_lines(init) + "\n"@ + (last + "\n"@ + rest));
        lemma_lines_of_package_lines(init, last + "\n"@ + rest);
        lemma_lines_of_line_then(last, rest);
        assert(Seq::new(packages.len(), |i: int| package_line(packages[i]))
            =~= Seq::new(init.len(), |i: int| package_line(init[i])) + seq![last]);
    }
}

/// The generated module, split into lines, is four header lines, then one
/// line `    pkgs.<name>` for each package in the order of the package set
/// (duplicates kept, nothing sorted or dropped), a blank line instead when the
/// set is empty, then `];` and `}`: so it has 6 + max(n, 1) lines for n
/// packages. This holds when no package name holds a line feed.
pub proof fn lemma_module_has_one_line_per_package(packages: Seq<Seq<char>>)
    requires
        names_are_single_lines(packages),
    ensures
        lines_of(module_text(packages)) == module_lines(packages),
        lines_of(module_text(packages)).len() == 6 + if packages.len() == 0 { 1int } else { packages.len() as int },
        forall|i: int| 0 <= i < packages.len()
            ==> #[trigger] lines_of(module_text(packages))[4 + i] == "    pkgs."@ + packages[i],
{
    let h1 = "# Managed by omarchy-nix-daemon \u{2014} do not edit manually."@;
    let h2 = "{ pkgs, ... }:"@;
    let h3 = "{"@;
    let h4 = "environment.systemPackages = ["@;
    let f1 = "];"@;
    let f2 = "}"@;
    let nl = "\n"@;
    reveal_strlit("# Managed by omarchy-nix-daemon \u{2014} do not edit manually.\n{ pkgs, ... }:\n{\nenvironment.systemPackages = [\n");
    reveal_strlit("# Managed by omarchy-nix-daemon \u{2014} do not edit manually.");
    reveal_strlit("{ pkgs, ... }:");
    reveal_strlit("{");
    reveal_strlit("environment.systemPackages = [");
    reveal_strlit("\n];\n}\n");
    reveal_strlit("];");
    reveal_strlit("}");
    reveal_strlit("\n");
    assert(is_single_line(h1));
    assert(is_single_line(h2));
    assert(is_single_line(h3));
    assert(is_single_line(h4));
    assert(is_single_line(f1));
    assert(is_single_line(f2));
    let body = package_lines(packages);
    let tail = f1 + nl + (f2 + nl + Seq::empty());
    assert(module_text(packages) =~= h1 + nl + (h2 + nl + (h3 + nl + (h4 + nl + (body + nl + tail)))));
    lemma_lines_of_line_then(f2, Seq::empty());
    lemma_lines_of_line_then(f1, f2 + nl + Seq::empty());
    assert(lines_of(Seq::<char>::empty()) == Seq::<Seq<char>>::empty());
    let body_lines = if packages.len() == 0 {
        seq![Seq::<char>::empty()]
    } else {
        Seq::new(packages.len(), |i: int| package_line(packages[i]))
    };
    if packages.len() == 0 {
        assert(body =~= Seq::<char>::empty());
        assert(body + nl + tail =~= Seq::<char>::empty() + nl + tail);
        lemma_lines_of_line_then(Seq::<char>::empty(), tail);
    } else {
        lemma_lines_of_package_lines(packages, tail);
    }
    assert(lines_of(body + nl + tail) == body_lines + seq![f1, f2]);
    lemma_lines_of_line_then(h4, body + nl + tail);
    lemma_lines_of_line_then(h3, h4 + nl + (body + nl + tail));
    lemma_lines_of_line_then(h2, h3 + nl + (h4 + nl + (body + nl + tail)));
    lemma_lines_of_line_then(h1, h2 + nl + (h3 + nl + (h4 + nl + (body + nl + tail))));
    assert(lines_of(module_text(packages)) =~= module_lines(packages));
}

/// Different package sets give different modules: the package set can be read
/// back from the module text, when no package name holds a line feed.
pub proof fn lemma_module_text_is_injective(packages: Seq<Seq<char>>, others: Seq<Seq<char>>)
    requires
        names_are_single_lines(packages),
        names_are_single_lines(others),
        module_text(packages) == module_text(others),
    ensures
        packages == others,
{
    lemma_module_has_one_line_per_package(packages);
    lemma_module_has_one_line_per_package(others);
    let lines = module_lines(packages);
    reveal_strlit("    pkgs.");
    if packages.len() == 0 && others.len() > 0 {
        assert(lines[4] == Seq::<char>::empty());
        assert(module_lines(others)[4] == package_line(others[0]));
        assert(package_line(others[0]).len() >= 9);
    } else if others.len() == 0 && packages.len() > 0 {
        assert(module_lines(others)[4] == Seq::<char>::empty());
        assert(lines[4] == package_line(packages[0]));
        assert(package_line(packages[0]).len() >= 9);
    } else {
        assert(packages.len() == others.len());
        assert forall|i: int| 0 <= i < packages.len() implies packages[i] == others[i] by {
            assert(lines[4 + i] == package_line(packages[i]));
            assert(module_lines(others)[4 + i] == package_line(others[i]));
            assert(package_line(packages[i]).skip(9) =~= packages[i]);
            assert(package_line(others[i]).skip(9) =~= others[i]);
        }
        assert(packages =~= others);
    }
}

/// Whether `c` has the Unicode White_Space property.
pub open spec fn is_white_space(c: char) -> bool {
    let n = c as u32;
    ||| 0x09 <= n <= 0x0d
    ||| n == 0x20
    ||| n == 0x85
    ||| n == 0xa0
    ||| n == 0x1680
    ||| 0x2000 <= n <= 0x200a
    ||| n == 0x2028
    ||| n == 0x2029
    ||| n == 0x202f
    ||| n == 0x205f
    ||| n == 0x3000
}

/// `s` without its leading white space.
pub open spec fn trim_start_of(s: Seq<char>) -> Seq<char>
    decreases s.len(),
{
    if s.len() > 0 && is_white_space(s[0]) {
        trim_start_of(s.drop_first())
    } else {
        s
    }
}

/// `s` without its trailing white space.
pub open spec fn trim_end_of(s: Seq<char>) -> Seq<char>
    decreases s.len(),
{
    if s.len() > 0 && is_white_space(s.last()) {
        trim_end_of(s.drop_last())
    } else {
        s
    }
}

/// `s` without its leading and trailing white space.
pub open spec fn trimmed(s: Seq<char>) -> Seq<char> {
    trim_end_of(trim_start_of(s))
}

/// Whether `c` has the Unicode White_Space property.
fn is_white_space_char(c: char) -> (res: bool)
    ensures
        res == is_white_space(c),
{
    let n: u32 = c as u32;
    (0x09 <= n && n <= 0x0d) || n == 0x20 || n == 0x85 || n == 0xa0 || n == 0x1680
        || (0x2000 <= n && n <= 0x200a) || n == 0x2028 || n == 0x2029 || n == 0x202f
        || n == 0x205f || n == 0x3000
}

proof fn lemma_trim_start_skips_white_space(s: Seq<char>, k: int)
    requires
        0 <= k <= s.len(),
        forall|i: int| 0 <= i < k ==> is_white_space(#[trigger] s[i]),
    ensures
        trim_start_of(s) == trim_start_of(s.skip(k)),
    decreases k,
{
    if k > 0 {
        lemma_trim_start_skips_white_space(s.drop_first(), k - 1);
        assert(s.drop_first().skip(k - 1) =~= s.skip(k));
    } else {
        assert(s.skip(0) =~= s);
    }
}

proof fn lemma_trim_end_takes_up_to(s: Seq<char>, m: int)
    requires
        0 <= m <= s.len(),
        forall|i: int| m <= i < s.len() ==> is_white_space(#[trigger] s[i]),
        m == 0 || !is_white_space(s[m - 1]),
    ensures
        trim_end_of(s) == s.take(m),
    decreases s.len() - m,
{
    if m < s.len() {
        assert(s.drop_last().take(m) =~= s.take(m));
        lemma_trim_end_takes_up_to(s.drop_last(), m);
    } else {
        assert(s.take(m) =~= s);
        if m > 0 {
            assert(s.last() == s[m - 1]);
        }
    }
}

/// The slice of `s` without its leading and trailing characters that have the
/// Unicode White_Space property, as `str::trim` gives it.
fn trim(s: &str) -> (res: &str)
    ensures
        res@ == trimmed(s@),
{
    let n = s.unicode_len();
    let mut start: usize = 0;
    while start < n
        invariant
            n == s@.len(),
            start <= n,
            forall|i: int| 0 <= i < start ==> is_white_space(#[trigger] s@[i]),
        ensures
            start <= n,
            forall|i: int| 0 <= i < start ==> is_white_space(#[trigger] s@[i]),
            start == n || !is_white_space(s@[start as int]),
        decreases n - start,
    {
        if !is_white_space_char(s.get_char(start)) {
            break;
        }
        start = start + 1;
    }
    let mut end: usize = n;
    while end > start
        invariant
            n == s@.len(),
            start <= end <= n,
            forall|i: int| end <= i < n ==> is_white_space(#[trigger] s@[i]),
        ensures
            start <= end <= n,
            forall|i: int| end <= i < n ==> is_white_space(#[trigger] s@[i]),
            end == start || !is_white_space(s@[end - 1]),
        decreases end,
    {
        if !is_white_space_char(s.get_char(end - 1)) {
            break;
        }
        end = end - 1;
    }
    proof {
        lemma_trim_start_skips_white_space(s@, start as int);
        let rest = s@.skip(start as int);
        if start < n && !is_white_space(s@[start as int]) {
            assert(rest[0] == s@[start as int]);
        }
        assert(trim_start_of(rest) == rest);
        assert forall|i: int| end - start <= i < rest.len() implies is_white_space(#[trigger] rest[i]) by {
            assert(rest[i] == s@[i + start]);
        }
        if end > start {
            assert(rest[end - start - 1] == s@[end - 1]);
        }
        lemma_trim_end_takes_up_to(rest, end - start);
        assert(rest.take(end - start) =~= s@.subrange(start as int, end as int));
    }
    s.substring_char(start, end)
}

/// The flake configuration that the daemon rebuilds.
pub open spec fn flake_config() -> Seq<char> {
    "omarchy-cinque"@
}

/// The `--flake` argument of the rebuild: the flake URI written by the
/// activation script, trimmed, with the configuration's name after `#`.
pub open spec fn flake_reference_of(uri_text: Seq<char>) -> Seq<char> {
    trimmed(uri_text) + "#"@ + flake_config()
}

/// Builds the `--flake` argument of the rebuild from the text of the flake URI file.
pub fn flake_reference(uri_text: &str) -> (res: String)
    ensures
        res@ == flake_reference_of(uri_text@),
{
    let mut res = String::from_str(trim(uri_text));
    res.append("#");
    res.append("omarchy-cinque");
    res
}

/// Why the rebuild cannot start when the flake URI file cannot be read.
pub open spec fn missing_flake_uri_text(error: Seq<char>) -> Seq<char> {
    "/etc/omarchy/flake-uri not found ("@ + error
        + "); the system must be rebuilt from the latest omarchy flake so the activation script can write this file"@
}

/// Why a rebuild failed when `nixos-rebuild switch` exited with `status`.
pub open spec fn rebuild_failed_text(status: Seq<char>) -> Seq<char> {
    "nixos-rebuild switch failed (exit "@ + status + ")"@
}

/// How `nixos-rebuild switch` ended: whether it succeeded, and its exit status
/// as the system describes it.
#[derive(Debug)]
pub struct RebuildExit {
    pub success: bool,
    pub status: String,
}

/// Where a rebuild stands.
#[derive(Debug)]
pub enum RebuildStep {
    /// Waiting for the generated module to be written.
    WritingModule,
    /// Waiting for the flake URI file to be read.
    ReadingFlakeUri,
    /// Waiting for `nixos-rebuild switch` to end.
    Rebuilding,
    /// The rebuild failed for `reason`; waiting for state.json to be written
    /// back to the package set it held before.
    RestoringState { reason: String },
    /// The rebuild succeeded; waiting for the package manifest to be refreshed.
    RefreshingManifest,
    /// The rebuild has reported its outcome.
    Finished,
}

pub enum RebuildStepView {
    WritingModule,
    ReadingFlakeUri,
    Rebuilding,
    RestoringState { reason: Seq<char> },
    RefreshingManifest,
    Finished,
}

/// What the daemon is to do next for a rebuild.
#[derive(Debug)]
pub enum RebuildAction {
    /// Write `content` to the managed module file.
    WriteModule { content: String },
    /// Read the flake URI file.
    ReadFlakeUri,
    /// Run `nixos-rebuild switch` on `flake`, streaming its stderr as progress.
    RunRebuild { flake: String },
    /// Write this package set back to state.json: the one it held before the
    /// request.
    RestoreState(State),
    /// Refresh the package manifest from the active generation.
    RefreshManifest,
    /// The rebuild is over with this outcome.
    Finish(Result<(), String>),
}

pub enum RebuildActionView {
    WriteModule { content: Seq<char> },
    ReadFlakeUri,
    RunRebuild { flake: Seq<char> },
    RestoreState(Seq<Seq<char>>),
    RefreshManifest,
    Finish(Result<(), Seq<char>>),
}

/// What came of the last action, each error as the text that describes it.
#[derive(Debug)]
pub enum RebuildEvent {
    ModuleWritten(Result<(), String>),
    FlakeUriRead(Result<String, String>),
    RebuildRan(Result<RebuildExit, String>),
    StateRestored(Result<(), String>),
    ManifestRefreshed(Result<(), String>),
}

pub enum RebuildEventView {
    ModuleWritten(Result<(), Seq<char>>),
    FlakeUriRead(Result<Seq<char>, Seq<char>>),
    RebuildRan(Result<(bool, Seq<char>), Seq<char>>),
    StateRestored(Result<(), Seq<char>>),
    ManifestRefreshed(Result<(), Seq<char>>),
}

pub open spec fn unit_result_view(r: Result<(), String>) -> Result<(), Seq<char>> {
    match r {
        Ok(()) => Ok(()),
        Err(e) => Err(e@),
    }
}

impl View for RebuildStep {
    type V = RebuildStepView;

    open spec fn view(&self) -> RebuildStepView {
        match self {
            RebuildStep::WritingModule => RebuildStepView::WritingModule,
            RebuildStep::ReadingFlakeUri => RebuildStepView::ReadingFlakeUri,
            RebuildStep::Rebuilding => RebuildStepView::Rebuilding,
            RebuildStep::RestoringState { reason } => RebuildStepView::RestoringState {
                reason: reason@,
            },
            RebuildStep::RefreshingManifest => RebuildStepView::RefreshingManifest,
            RebuildStep::Finished => RebuildStepView::Finished,
        }
    }
}

impl View for RebuildAction {
    type V = RebuildActionView;

    open spec fn view(&self) -> RebuildActionView {
        match self {
            RebuildAction::WriteModule { content } => RebuildActionView::WriteModule {
                content: content@,
            },
            RebuildAction::ReadFlakeUri => RebuildActionView::ReadFlakeUri,
            RebuildAction::RunRebuild { flake } => RebuildActionView::RunRebuild { flake: flake@ },
            RebuildAction::RestoreState(s) => RebuildActionView::RestoreState(s@),
            RebuildAction::RefreshManifest => RebuildActionView::RefreshManifest,
            RebuildAction::Finish(r) => RebuildActionView::Finish(unit_result_view(*r)),
        }
    }
}

impl View for RebuildEvent {
    type V = RebuildEventView;

    open spec fn view(&self) -> RebuildEventView {
        match self {
            RebuildEvent::ModuleWritten(r) => RebuildEventView::ModuleWritten(unit_result_view(*r)),
            RebuildEvent::FlakeUriRead(r) => RebuildEventView::FlakeUriRead(
                match r {
                    Ok(t) => Ok(t@),
                    Err(e) => Err(e@),
                },
            ),
            RebuildEvent::RebuildRan(r) => RebuildEventView::RebuildRan(
                match r {
                    Ok(exit) => Ok((exit.success, exit.status@)),
                    Err(e) => Err(e@),
                },
            ),
            RebuildEvent::StateRestored(r) => RebuildEventView::StateRestored(unit_result_view(*r)),
            RebuildEvent::ManifestRefreshed(r) => RebuildEventView::ManifestRefreshed(
                unit_result_view(*r),
            ),
        }
    }
}

/// A rebuild as the contracts see it: where it stands, and the package set
/// that state.json held before the set being rebuilt was saved.
pub struct RebuildView {
    pub step: RebuildStepView,
    pub previous: Seq<Seq<char>>,
}

/// The action that starts the rebuild of `packages`, with `previous` the set
/// to write back to state.json if the rebuild fails.
pub open spec fn rebuild_start(packages: Seq<Seq<char>>, previous: Seq<Seq<char>>) -> (RebuildView, RebuildActionView) {
    (
        RebuildView { step: RebuildStepView::WritingModule, previous },
        RebuildActionView::WriteModule { content: module_text(packages) },
    )
}

/// Whether a rebuild at `step` waits for `event`.
pub open spec fn rebuild_awaits(step: RebuildStepView, event: RebuildEventView) -> bool {
    match (step, event) {
        (RebuildStepView::WritingModule, RebuildEventView::ModuleWritten(_)) => true,
        (RebuildStepView::ReadingFlakeUri, RebuildEventView::FlakeUriRead(_)) => true,
        (RebuildStepView::Rebuilding, RebuildEventView::RebuildRan(_)) => true,
        (RebuildStepView::RestoringState { .. }, RebuildEventView::StateRestored(_)) => true,
        (RebuildStepView::RefreshingManifest, RebuildEventView::ManifestRefreshed(_)) => true,
        _ => false,
    }
}

/// Why a rebuild fails on `event`, if it does.
pub open spec fn rebuild_failure(event: RebuildEventView) -> Option<Seq<char>> {
    match event {
        RebuildEventView::ModuleWritten(Err(e)) => Some(e),
        RebuildEventView::FlakeUriRead(Err(e)) => Some(missing_flake_uri_text(e)),
        RebuildEventView::RebuildRan(Err(e)) => Some(e),
        RebuildEventView::RebuildRan(Ok((success, status))) =>
            if success { None } else { Some(rebuild_failed_text(status)) },
        _ => None,
    }
}

/// The rebuild `rb` at `step`, with the same set to restore.
pub open spec fn rebuild_at(rb: RebuildView, step: RebuildStepView) -> RebuildView {
    RebuildView { step, previous: rb.previous }
}

/// A rebuild `rb` that has failed for `reason`: it writes the previous
/// package set back to state.json.
pub open spec fn rebuild_restoring(rb: RebuildView, reason: Seq<char>) -> (RebuildView, RebuildActionView) {
    (rebuild_at(rb, RebuildStepView::RestoringState { reason }), RebuildActionView::RestoreState(rb.previous))
}

/// Where a rebuild `rb` goes on `event`, and what it asks for. Any failure
/// before or during `nixos-rebuild switch` writes the previous package set
/// back to state.json and then ends the rebuild with that failure; a
/// successful switch refreshes the package manifest, whose failure does not
/// change the outcome.
pub open spec fn rebuild_next(rb: RebuildView, event: RebuildEventView) -> (RebuildView, RebuildActionView) {
    match event {
        RebuildEventView::ModuleWritten(Ok(())) =>
            (rebuild_at(rb, RebuildStepView::ReadingFlakeUri), RebuildActionView::ReadFlakeUri),
        RebuildEventView::ModuleWritten(Err(e)) => rebuild_restoring(rb, e),
        RebuildEventView::FlakeUriRead(Ok(text)) => (
            rebuild_at(rb, RebuildStepView::Rebuilding),
            RebuildActionView::RunRebuild { flake: flake_reference_of(text) },
        ),
        RebuildEventView::FlakeUriRead(Err(e)) => rebuild_restoring(rb, missing_flake_uri_text(e)),
        RebuildEventView::RebuildRan(Ok((success, status))) =>
            if success {
                (rebuild_at(rb, RebuildStepView::RefreshingManifest), RebuildActionView::RefreshManifest)
            } else {
                rebuild_restoring(rb, rebuild_failed_text(status))
            },
        RebuildEventView::RebuildRan(Err(e)) => rebuild_restoring(rb, e),
        RebuildEventView::StateRestored(Ok(())) =>
            (rebuild_at(rb, RebuildStepView::Finished), RebuildActionView::Finish(Err(restore_reason(rb.step)))),
        RebuildEventView::StateRestored(Err(e)) =>
            (rebuild_at(rb, RebuildStepView::Finished), RebuildActionView::Finish(Err(e))),
        RebuildEventView::ManifestRefreshed(_) =>
            (rebuild_at(rb, RebuildStepView::Finished), RebuildActionView::Finish(Ok(()))),
    }
}

/// Why the rebuild failed, while state.json is being restored.
pub open spec fn restore_reason(step: RebuildStepView) -> Seq<char> {
    match step {
        RebuildStepView::RestoringState { reason } => reason,
        _ => Seq::empty(),
    }
}

/// A rebuild of the system with a given package set.
#[derive(Debug)]
pub struct Rebuild {
    pub step: RebuildStep,
    /// The package set that state.json held before the rebuilt one was saved.
    pub previous: State,
}

impl View for Rebuild {
    type V = RebuildView;

    open spec fn view(&self) -> RebuildView {
        RebuildView { step: self.step@, previous: self.previous@ }
    }
}

impl Rebuild {
    /// A rebuild that has already reported its outcome.
    pub fn finished() -> (res: Rebuild)
        ensures
            res.step@ == RebuildStepView::Finished,
    {
        Rebuild { step: RebuildStep::Finished, previous: State::new() }
    }

    /// A copy of this rebuild.
    pub fn duplicate(&self) -> (res: Rebuild)
        ensures
            res@ == self@,
    {
        let step = match &self.step {
            RebuildStep::WritingModule => RebuildStep::WritingModule,
            RebuildStep::ReadingFlakeUri => RebuildStep::ReadingFlakeUri,
            RebuildStep::Rebuilding => RebuildStep::Rebuilding,
            RebuildStep::RestoringState { reason } => RebuildStep::RestoringState { reason: reason.clone() },
            RebuildStep::RefreshingManifest => RebuildStep::RefreshingManifest,
            RebuildStep::Finished => RebuildStep::Finished,
        };
        Rebuild { step, previous: self.previous.duplicate() }
    }

    /// Starts the rebuild of the packages of `state`: the module is written
    /// first. `previous` is the set that state.json held before `state` was
    /// saved, which a failed rebuild writes back.
    pub fn start(state: &State, previous: State) -> (res: (Rebuild, RebuildAction))
        ensures
            (res.0@, res.1@) == rebuild_start(state@, previous@),
    {
        (
            Rebuild { step: RebuildStep::WritingModule, previous },
            RebuildAction::WriteModule { content: generate_module(state) },
        )
    }

    /// Whether the rebuild waits for `event`.
    pub fn awaits(&self, event: &RebuildEvent) -> (res: bool)
        ensures
            res == rebuild_awaits(self.step@, event@),
    {
        match (&self.step, event) {
            (RebuildStep::WritingModule, RebuildEvent::ModuleWritten(_)) => true,
            (RebuildStep::ReadingFlakeUri, RebuildEvent::FlakeUriRead(_)) => true,
            (RebuildStep::Rebuilding, RebuildEvent::RebuildRan(_)) => true,
            (RebuildStep::RestoringState { .. }, RebuildEvent::StateRestored(_)) => true,
            (RebuildStep::RefreshingManifest, RebuildEvent::ManifestRefreshed(_)) => true,
            _ => false,
        }
    }

    /// Writes the previous package set back after a failure for `reason`.
    fn restore(&mut self, reason: String) -> (action: RebuildAction)
        ensures
            final(self)@ == rebuild_at(old(self)@, RebuildStepView::RestoringState { reason: reason@ }),
            action@ == RebuildActionView::RestoreState(old(self)@.previous),
    {
        self.step = RebuildStep::RestoringState { reason };
        RebuildAction::RestoreState(self.previous.duplicate())
    }

    /// Takes in what came of the last action and says what to do next.
    pub fn advance(&mut self, event: RebuildEvent) -> (action: RebuildAction)
        requires
            rebuild_awaits(old(self).step@, event@),
        ensures
            (final(self)@, action@) == rebuild_next(old(self)@, event@),
    {
        match event {
            RebuildEvent::ModuleWritten(Ok(())) => {
                self.step = RebuildStep::ReadingFlakeUri;
                RebuildAction::ReadFlakeUri
            },
            RebuildEvent::ModuleWritten(Err(e)) => self.restore(e),
            RebuildEvent::FlakeUriRead(Ok(text)) => {
                self.step = RebuildStep::Rebuilding;
                RebuildAction::RunRebuild { flake: flake_reference(text.as_str()) }
            },
            RebuildEvent::FlakeUriRead(Err(e)) => {
                let mut msg = String::from_str("/etc/omarchy/flake-uri not found (");
                msg.append(e.as_str());
                msg.append(
                    "); the system must be rebuilt from the latest omarchy flake so the activation script can write this file",
                );
                self.restore(msg)
            },
            RebuildEvent::RebuildRan(Ok(exit)) => {
                if exit.success {
                    self.step = RebuildStep::RefreshingManifest;
                    RebuildAction::RefreshManifest
                } else {
                    let mut reason = String::from_str("nixos-rebuild switch failed (exit ");
                    reason.append(exit.status.as_str());
                    reason.append(")");
                    self.restore(reason)
                }
            },
            RebuildEvent::RebuildRan(Err(e)) => self.restore(e),
            RebuildEvent::StateRestored(Ok(())) => {
                let reason = match &self.step {
                    RebuildStep::RestoringState { reason } => reason.clone(),
                    _ => String::new(),
                };
                self.step = RebuildStep::Finished;
                RebuildAction::Finish(Err(reason))
            },
            RebuildEvent::StateRestored(Err(e)) => {
                self.step = RebuildStep::Finished;
                RebuildAction::Finish(Err(e))
            },
            RebuildEvent::ManifestRefreshed(_) => {
                self.step = RebuildStep::Finished;
                RebuildAction::Finish(Ok(()))
            },
        }
    }
}

/// A rebuild writes state.json exactly when it has failed before or during
/// `nixos-rebuild switch`, and what it writes is the package set that
/// state.json held before the rebuilt one was saved; it then reports that
/// failure.
pub proof fn lemma_failed_rebuild_restores_state(rb: RebuildView, event: RebuildEventView)
    requires
        rebuild_awaits(rb.step, event),
    ensures
        (rebuild_next(rb, event).1 is RestoreState) <==> (rebuild_failure(event) is Some),
        rebuild_next(rb, event).1 matches RebuildActionView::RestoreState(s) ==> s == rb.previous,
        rebuild_next(rb, event).0.previous == rb.previous,
        event matches RebuildEventView::RebuildRan(Ok((success, _))) && !success
            ==> rebuild_next(rb, event).1 == RebuildActionView::RestoreState(rb.previous),
        rb.step matches RebuildStepView::RestoringState { reason } ==> {
            &&& event == RebuildEventView::StateRestored(Ok(()))
                ==> rebuild_next(rb, event).1 == RebuildActionView::Finish(Err(reason))
            &&& rebuild_next(rb, event).1 matches RebuildActionView::Finish(Err(_))
        },
{
}

/// A rebuild reports success only once the package manifest has been
/// refreshed after a successful `nixos-rebuild switch`, and that refresh is
/// asked for only after such a run.
pub proof fn lemma_rebuild_succeeds_only_after_switch(rb: RebuildView, event: RebuildEventView)
    requires
        rebuild_awaits(rb.step, event),
    ensures
        rebuild_next(rb, event).1 == RebuildActionView::Finish(Ok(()))
            ==> rb.step == RebuildStepView::RefreshingManifest,
        rebuild_next(rb, event).0.step == RebuildStepView::RefreshingManifest
            ==> rb.step == RebuildStepView::Rebuilding && (event matches RebuildEventView::RebuildRan(Ok((true, _)))),
{
}

/// A rebuild switches to the configuration that the generated module names:
/// it writes the module of the package set first, and runs `nixos-rebuild`
/// only on the flake that the flake URI file names.
pub proof fn lemma_rebuild_runs_on_written_module(
    packages: Seq<Seq<char>>,
    previous: Seq<Seq<char>>,
    rb: RebuildView,
    event: RebuildEventView,
)
    requires
        rebuild_awaits(rb.step, event),
    ensures
        rebuild_start(packages, previous).1 == (RebuildActionView::WriteModule { content: module_text(packages) }),
        rebuild_next(rb, event).1 is RunRebuild ==> {
            &&& rb.step == RebuildStepView::ReadingFlakeUri
            &&& event matches RebuildEventView::FlakeUriRead(Ok(text))
            &&& rebuild_next(rb, event).1 == (RebuildActionView::RunRebuild { flake: flake_reference_of(text) })
        },
{
}

/// Whether `event` is what comes of carrying out `action`: the write of the
/// module, the read of the flake URI, the run of `nixos-rebuild switch`, the
/// write-back of state.json and the refresh of the manifest each report their
/// own outcome, whatever it is; a finished rebuild expects nothing.
pub open spec fn rebuild_event_answers(action: RebuildActionView, event: RebuildEventView) -> bool {
    match (action, event) {
        (RebuildActionView::WriteModule { .. }, RebuildEventView::ModuleWritten(_)) => true,
        (RebuildActionView::ReadFlakeUri, RebuildEventView::FlakeUriRead(_)) => true,
        (RebuildActionView::RunRebuild { .. }, RebuildEventView::RebuildRan(_)) => true,
        (RebuildActionView::RestoreState(_), RebuildEventView::StateRestored(_)) => true,
        (RebuildActionView::RefreshManifest, RebuildEventView::ManifestRefreshed(_)) => true,
        _ => false,
    }
}

/// A rebuild waits for the outcome of each action it asks for: after it starts,
/// and after each event it takes in, every event that reports what came of the
/// action it asked for, success or failure, is one it waits for.
pub proof fn lemma_rebuild_awaits_what_it_asks(
    packages: Seq<Seq<char>>,
    previous: Seq<Seq<char>>,
    rb: RebuildView,
    event: RebuildEventView,
    answer: RebuildEventView,
)
    ensures
        rebuild_event_answers(rebuild_start(packages, previous).1, answer)
            ==> rebuild_awaits(rebuild_start(packages, previous).0.step, answer),
        rebuild_awaits(rb.step, event) && rebuild_event_answers(rebuild_next(rb, event).1, answer)
            ==> rebuild_awaits(rebuild_next(rb, event).0.step, answer),
{
}

/// How many more events a rebuild at `step` can take at most.
pub open spec fn rebuild_steps_left(step: RebuildStepView) -> nat {
    match step {
        RebuildStepView::WritingModule => 4,
        RebuildStepView::ReadingFlakeUri => 3,
        RebuildStepView::Rebuilding => 2,
        RebuildStepView::RestoringState { .. } => 1,
        RebuildStepView::RefreshingManifest => 1,
        RebuildStepView::Finished => 0,
    }
}

/// Every rebuild reports its outcome: each event it waits for brings it
/// closer to the end, a finished rebuild waits for nothing, and the step that
/// reports the outcome finishes it.
pub proof fn lemma_rebuild_always_finishes(rb: RebuildView, event: RebuildEventView)
    ensures
        rebuild_awaits(rb.step, event) ==> rebuild_steps_left(rebuild_next(rb, event).0.step) < rebuild_steps_left(rb.step),
        rb.step == RebuildStepView::Finished ==> !rebuild_awaits(rb.step, event),
        rebuild_awaits(rb.step, event) ==> (rebuild_next(rb, event).1 is Finish
            <==> rebuild_next(rb, event).0.step == RebuildStepView::Finished),
{
}

} // verus!
