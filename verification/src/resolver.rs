//! Finding the executable behind a command name.
//!
//! Under the extension-suffix policy the search is a fixed plan: every
//! directory of the search path in order and, within a directory, the name as
//! given followed by the name with each recognised extension. The first
//! candidate that is a regular file wins. Under the direct-lookup policy the
//! name is looked up as it stands.

use vstd::prelude::*;
use vstd::string::*;
use crate::host::{is_regular_file, join_path, joined_path, on_search_path};
use crate::platform::{policy_for, policy_of, Platform, ResolutionPolicy};
use crate::text::{
    appended, chars_of, ends_with, is_suffix, split_nonempty, split_nonempty_spec, texts,
    to_uppercase, uppercase,
};

verus! {

/// One file the search looks for.
#[derive(Debug, Clone, PartialEq, Eq)]
pub struct Candidate {
    /// Position of the directory in the search path.
    pub dir: usize,
    /// Name of the file within that directory.
    pub file_name: String,
    /// The directory and the file name as one path.
    pub path: String,
}

/// What a `Candidate` stands for.
pub struct CandidateView {
    pub dir: int,
    pub file_name: Seq<char>,
    pub path: Seq<char>,
}

impl View for Candidate {
    type V = CandidateView;

    open spec fn view(&self) -> CandidateView {
        CandidateView { dir: self.dir as int, file_name: self.file_name@, path: self.path@ }
    }
}

/// The views of a list of candidates, in order.
pub open spec fn plan_view(plan: Seq<Candidate>) -> Seq<CandidateView> {
    Seq::new(plan.len(), |i: int| plan[i]@)
}

/// The text of an optional string.
pub open spec fn opt_text(s: Option<String>) -> Option<Seq<char>> {
    match s {
        Some(t) => Some(t@),
        None => None,
    }
}

/// The text of an optional string slice.
pub open spec fn opt_str(s: Option<&str>) -> Option<Seq<char>> {
    match s {
        Some(t) => Some(t@),
        None => None,
    }
}

/// The extensions that are recognised when the environment lists none.
pub open spec fn default_extensions() -> Seq<Seq<char>> {
    seq![".COM"@, ".EXE"@, ".BAT"@, ".CMD"@]
}

/// The recognised extensions, in table order: the non-empty entries of the
/// `;`-separated list in upper case, or the default list where there is none.
pub open spec fn extension_table(pathext: Option<Seq<char>>) -> Seq<Seq<char>> {
    match pathext {
        Some(list) => split_nonempty_spec(uppercase(list), ';'),
        None => default_extensions(),
    }
}

/// Whether the command name already ends in a recognised extension, case
/// aside.
pub open spec fn has_recognized_extension(command: Seq<char>, table: Seq<Seq<char>>) -> bool {
    exists|i: int| 0 <= i < table.len() && is_suffix(#[trigger] table[i], uppercase(command))
}

/// The file names tried in each directory, in order: the exact name alone if
/// it carries a recognised extension, else the bare name and then the name
/// with each extension of the table.
pub open spec fn file_names(command: Seq<char>, table: Seq<Seq<char>>) -> Seq<Seq<char>> {
    if has_recognized_extension(command, table) {
        seq![command]
    } else {
        seq![command] + Seq::new(table.len(), |i: int| command + table[i])
    }
}

/// The candidates within one directory.
pub open spec fn row(dir_index: int, dir: Seq<char>, names: Seq<Seq<char>>) -> Seq<CandidateView> {
    Seq::new(
        names.len(),
        |j: int| CandidateView { dir: dir_index, file_name: names[j], path: joined_path(dir, names[j]) },
    )
}

/// All candidates: the rows of the directories one after another.
pub open spec fn plan_of(dirs: Seq<Seq<char>>, names: Seq<Seq<char>>) -> Seq<CandidateView>
    decreases dirs.len(),
{
    if dirs.len() == 0 {
        Seq::empty()
    } else {
        plan_of(dirs.drop_last(), names) + row(dirs.len() - 1, dirs.last(), names)
    }
}

/// The plan of the search for `command` under the extension-suffix policy.
pub open spec fn search_plan_spec(
    command: Seq<char>,
    dirs: Seq<Seq<char>>,
    pathext: Option<Seq<char>>,
) -> Seq<CandidateView> {
    plan_of(dirs, file_names(command, extension_table(pathext)))
}

/// `hit` is the first position at which `present` holds, or `None` if it
/// holds nowhere.
pub open spec fn is_first_hit(present: Seq<bool>, hit: Option<int>) -> bool {
    match hit {
        Some(i) => 0 <= i < present.len() && present[i] && forall|j: int|
            0 <= j < i ==> !present[j],
        None => forall|j: int| 0 <= j < present.len() ==> !present[j],
    }
}

/// `found` is what the search over `plan` gives when `present` tells, for
/// each candidate, whether its file is there: the path of the first candidate
/// that is, or nothing.
pub open spec fn resolves_to(
    plan: Seq<CandidateView>,
    present: Seq<bool>,
    found: Option<Seq<char>>,
) -> bool {
    &&& present.len() == plan.len()
    &&& match found {
        Some(path) => exists|k: int| is_first_hit(present, Some(k)) && path == (#[trigger] plan[k]).path,
        None => is_first_hit(present, None),
    }
}

/// `handle` is a possible outcome of resolving `command` on `platform`.
/// Under the extension-suffix policy it is what the search over the plan
/// gives for some state of the disk. Under the direct-lookup policy the host
/// decides whether the command is found, and the handle of a command that is
/// found is its name.
pub open spec fn may_resolve_to(
    command: Seq<char>,
    platform: Platform,
    dirs: Seq<Seq<char>>,
    pathext: Option<Seq<char>>,
    handle: Option<Seq<char>>,
) -> bool {
    match policy_of(platform) {
        ResolutionPolicy::ExtensionSuffix => exists|present: Seq<bool>| #[trigger]
            resolves_to(search_plan_spec(command, dirs, pathext), present, handle),
        ResolutionPolicy::DirectLookup => handle matches Some(name) ==> name == command,
    }
}

/// The plan has one candidate per directory and file name, directory by
/// directory: directory order comes before the order of the names.
pub proof fn lemma_plan_layout(dirs: Seq<Seq<char>>, names: Seq<Seq<char>>)
    ensures
        plan_of(dirs, names).len() == dirs.len() * names.len(),
        forall|d: int, j: int|
            0 <= d < dirs.len() && 0 <= j < names.len() ==> {
                &&& 0 <= d * names.len() + j < plan_of(dirs, names).len()
                &&& plan_of(dirs, names)[#[trigger] (d * names.len() + j)] == (CandidateView {
                    dir: d,
                    file_name: names[j],
                    path: joined_path(dirs[d], names[j]),
                })
            },
    decreases dirs.len(),
{
    let m = names.len() as int;
    if dirs.len() > 0 {
        let n = dirs.len() as int;
        let front = dirs.drop_last();
        lemma_plan_layout(front, names);
        assert((n - 1) * m + m == n * m) by (nonlinear_arith);
        assert forall|d: int, j: int| 0 <= d < n && 0 <= j < m implies {
            &&& 0 <= d * m + j < plan_of(dirs, names).len()
            &&& plan_of(dirs, names)[#[trigger] (d * m + j)] == (CandidateView {
                dir: d,
                file_name: names[j],
                path: joined_path(dirs[d], names[j]),
            })
        } by {
            if d < n - 1 {
                assert(0 <= d * m + j < (n - 1) * m) by (nonlinear_arith)
                    requires
                        0 <= d < n - 1,
                        0 <= j < m,
                ;
                assert(front[d] == dirs[d]);
            } else {
                assert(d * m + j == (n - 1) * m + j);
                assert(0 <= (n - 1) * m) by (nonlinear_arith)
                    requires
                        n >= 1,
                        m >= 0,
                ;
                assert(row(n - 1, dirs.last(), names)[j].file_name == names[j]);
            }
        }
    } else {
        assert(dirs.len() * names.len() == 0) by (nonlinear_arith)
            requires
                dirs.len() == 0,
        ;
    }
}

/// Candidates keep the order of the search path: one that comes earlier in
/// the plan never lies in a later directory.
pub proof fn lemma_directory_order(dirs: Seq<Seq<char>>, names: Seq<Seq<char>>)
    ensures
        forall|a: int, b: int|
            0 <= a <= b < plan_of(dirs, names).len() ==> 0 <= (#[trigger] plan_of(dirs, names)[a]).dir
                <= (#[trigger] plan_of(dirs, names)[b]).dir < dirs.len(),
    decreases dirs.len(),
{
    if dirs.len() > 0 {
        let front = plan_of(dirs.drop_last(), names);
        let whole = plan_of(dirs, names);
        lemma_directory_order(dirs.drop_last(), names);
        assert forall|a: int, b: int| 0 <= a <= b < whole.len() implies 0 <= (#[trigger] whole[a]).dir
            <= (#[trigger] whole[b]).dir < dirs.len() by {
            if b < front.len() {
                assert(whole[a] == front[a]);
                assert(whole[b] == front[b]);
            } else if a < front.len() {
                assert(whole[a] == front[a]);
                assert(front[a].dir <= front[a].dir);
            }
        }
    }
}

/// A search has one outcome: with the same plan and the same files present,
/// it finds the same path or finds nothing both times.
pub proof fn lemma_resolution_repeats(
    plan: Seq<CandidateView>,
    present: Seq<bool>,
    first: Option<Seq<char>>,
    second: Option<Seq<char>>,
)
    requires
        resolves_to(plan, present, first),
        resolves_to(plan, present, second),
    ensures
        first == second,
{
    if first is Some && second is Some {
        let a = choose|k: int| is_first_hit(present, Some(k)) && first->0 == (#[trigger] plan[k]).path;
        let b = choose|k: int|
            is_first_hit(present, Some(k)) && second->0 == (#[trigger] plan[k]).path;
        assert(a == b);
    } else if first is Some {
        let a = choose|k: int| is_first_hit(present, Some(k)) && first->0 == (#[trigger] plan[k]).path;
        assert(present[a]);
    } else if second is Some {
        let b = choose|k: int|
            is_first_hit(present, Some(k)) && second->0 == (#[trigger] plan[k]).path;
        assert(present[b]);
    }
}

/// The recognised extensions, in table order. `pathext` is the
/// `;`-separated list from the environment, `None` if it is not set.
pub fn extension_list(pathext: Option<&str>) -> (table: Vec<String>)
    ensures
        texts(table@) == extension_table(opt_str(pathext)),
{
    match pathext {
        Some(list) => {
            let upper = to_uppercase(list);
            split_nonempty(upper.as_str(), ';')
        },
        None => {
            let mut table: Vec<String> = Vec::new();
            table.push(".COM".to_owned());
            table.push(".EXE".to_owned());
            table.push(".BAT".to_owned());
            table.push(".CMD".to_owned());
            assert(texts(table@) =~= default_extensions());
            table
        },
    }
}

/// Whether `command` already ends in one of the extensions of `table`, case
/// aside.
pub fn has_extension(command: &str, table: &Vec<String>) -> (recognized: bool)
    ensures
        recognized == has_recognized_extension(command@, texts(table@)),
{
    let upper = to_uppercase(command);
    let upper_chars = chars_of(upper.as_str());
    let mut i: usize = 0;
    while i < table.len()
        invariant
            i <= table.len(),
            upper_chars@ == uppercase(command@),
            forall|j: int| 0 <= j < i ==> !is_suffix(#[trigger] texts(table@)[j], uppercase(command@)),
        decreases table.len() - i,
    {
        let ext = chars_of(table[i].as_str());
        if ends_with(&upper_chars, &ext) {
            assert(is_suffix(texts(table@)[i as int], uppercase(command@)));
            return true;
        }
        i += 1;
    }
    false
}

/// The file names to try in each directory, in order.
pub fn candidate_names(command: &str, table: &Vec<String>) -> (names: Vec<String>)
    ensures
        texts(names@) == file_names(command@, texts(table@)),
{
    let mut names: Vec<String> = Vec::new();
    names.push(command.to_owned());
    if has_extension(command, table) {
        assert(texts(names@) =~= seq![command@]);
        return names;
    }
    let ghost exts = texts(table@);
    let mut i: usize = 0;
    while i < table.len()
        invariant
            i <= table.len(),
            exts == texts(table@),
            names.len() == i + 1,
            texts(names@) == seq![command@] + Seq::new(i as nat, |k: int| command@ + exts[k]),
        decreases table.len() - i,
    {
        let ghost before = names@;
        let name = appended(command, table[i].as_str());
        names.push(name);
        i += 1;
        assert forall|k: int| 0 <= k < names.len() implies texts(names@)[k] == (seq![command@]
            + Seq::new(i as nat, |k: int| command@ + exts[k]))[k] by {
            if k < i {
                assert(texts(before)[k] == names[k]@);
            } else {
                assert(exts[i - 1] == table[i - 1]@);
            }
        }
        assert(texts(names@) =~= seq![command@] + Seq::new(i as nat, |k: int| command@ + exts[k]));
    }
    names
}

/// Lays out the search for `command` under the extension-suffix policy:
/// every file to look for, in the order in which the search looks.
pub fn search_plan(command: &str, dirs: &Vec<String>, pathext: Option<&str>) -> (plan: Vec<
    Candidate,
>)
    ensures
        plan_view(plan@) == search_plan_spec(command@, texts(dirs@), opt_str(pathext)),
{
    let table = extension_list(pathext);
    let names = candidate_names(command, &table);
    let ghost dir_texts = texts(dirs@);
    let ghost name_texts = texts(names@);
    let mut plan: Vec<Candidate> = Vec::new();
    let mut d: usize = 0;
    assert(plan_view(plan@) =~= plan_of(dir_texts.take(0), name_texts));
    while d < dirs.len()
        invariant
            d <= dirs.len(),
            dir_texts == texts(dirs@),
            name_texts == texts(names@),
            plan_view(plan@) == plan_of(dir_texts.take(d as int), name_texts),
        decreases dirs.len() - d,
    {
        let ghost done = plan_view(plan@);
        let mut j: usize = 0;
        assert(plan_view(plan@) =~= done + row(d as int, dir_texts[d as int], name_texts).take(0));
        while j < names.len()
            invariant
                d < dirs.len(),
                j <= names.len(),
                dir_texts == texts(dirs@),
                name_texts == texts(names@),
                plan_view(plan@) == done + row(d as int, dir_texts[d as int], name_texts).take(
                    j as int,
                ),
            decreases names.len() - j,
        {
            let path = join_path(dirs[d].as_str(), names[j].as_str());
            let candidate = Candidate { dir: d, file_name: names[j].clone(), path };
            assert(candidate@ == row(d as int, dir_texts[d as int], name_texts)[j as int]);
            let ghost before = plan@;
            plan.push(candidate);
            j += 1;
            assert(plan_view(before).len() == done.len() + j - 1);
            assert forall|k: int| 0 <= k < plan.len() implies plan_view(plan@)[k] == (done + row(
                d as int,
                dir_texts[d as int],
                name_texts,
            ).take(j as int))[k] by {
                if k < plan.len() - 1 {
                    assert(plan_view(before)[k] == plan[k]@);
                }
            }
            assert(plan_view(plan@) =~= done + row(d as int, dir_texts[d as int], name_texts).take(
                j as int,
            ));
        }
        d += 1;
        proof {
            let upto = dir_texts.take(d as int);
            assert(upto.drop_last() =~= dir_texts.take(d - 1));
            assert(upto.last() == dir_texts[d - 1]);
            assert(row(d - 1, dir_texts[d - 1], name_texts).take(names.len() as int) =~= row(
                d - 1,
                dir_texts[d - 1],
                name_texts,
            ));
        }
    }
    assert(dir_texts.take(dirs.len() as int) =~= dir_texts);
    plan
}

/// The position of the first `true` in `present`, if there is one: with the
/// answers for the candidates of a plan, in plan order, the candidate that
/// the search settles on.
pub fn first_present(present: &Vec<bool>) -> (hit: Option<usize>)
    ensures
        is_first_hit(
            present@,
            match hit {
                Some(i) => Some(i as int),
                None => None,
            },
        ),
{
    let mut i: usize = 0;
    while i < present.len()
        invariant
            i <= present.len(),
            forall|j: int| 0 <= j < i ==> !present[j],
        decreases present.len() - i,
    {
        if present[i] {
            return Some(i);
        }
        i += 1;
    }
    None
}

/// `answers` records a search over `candidates` candidates that looks at
/// them in order and stops at the first that is there: there is one answer
/// per candidate looked at, every answer before the last is a miss, and the
/// search went on to the last candidate unless its last answer is a hit.
pub open spec fn stops_at_first_hit(answers: Seq<bool>, candidates: nat) -> bool {
    &&& answers.len() <= candidates
    &&& forall|j: int| 0 <= j < answers.len() - 1 ==> !answers[j]
    &&& answers.len() < candidates ==> answers.len() > 0 && answers.last()
}

/// Asks the disk about the candidates of `plan`, in plan order, up to and
/// including the first that is a regular file. Each answer is the disk's, so
/// the contract says how far the search went, not what it met.
fn probe_in_order(plan: &Vec<Candidate>) -> (answers: Vec<bool>)
    ensures
        stops_at_first_hit(answers@, plan.len() as nat),
{
    let mut answers: Vec<bool> = Vec::new();
    let mut k: usize = 0;
    while k < plan.len()
        invariant
            k <= plan.len(),
            answers.len() == k,
            forall|j: int| 0 <= j < k ==> !answers[j],
        decreases plan.len() - k,
    {
        let present = is_regular_file(plan[k].path.as_str());
        answers.push(present);
        if present {
            return answers;
        }
        k += 1;
    }
    answers
}

/// Searches the directories of the search path for `command` under the
/// extension-suffix policy and returns the path of the first candidate of the
/// plan that is a regular file. Which files are there is asked of the disk,
/// one candidate at a time and in plan order, so the result is stated for
/// whatever the disk answered.
pub fn find_windows_executable(command: &str, dirs: &Vec<String>, pathext: Option<&str>) -> (found:
    Option<String>)
    ensures
        exists|present: Seq<bool>| #[trigger]
            resolves_to(
                search_plan_spec(command@, texts(dirs@), opt_str(pathext)),
                present,
                opt_text(found),
            ),
{
    let plan = search_plan(command, dirs, pathext);
    let answers = probe_in_order(&plan);
    let hit = first_present(&answers);
    let found = match hit {
        Some(k) => Some(plan[k].path.clone()),
        None => None,
    };
    proof {
        let present = Seq::new(plan.len() as nat, |j: int| j < answers.len() && answers[j]);
        if hit is Some {
            let k = hit->0 as int;
            assert(is_first_hit(present, Some(k)));
            assert(plan_view(plan@)[k].path == plan[k]@.path);
        }
        assert(resolves_to(plan_view(plan@), present, opt_text(found)));
    }
    found
}

/// Resolves `command` by the policy of `platform`. Under the
/// extension-suffix policy the handle is the path of the file that was found
/// among `dirs`; under the direct-lookup policy, where the host's own lookup
/// decides, it is the command name itself. `None` means the command was not
/// found, which is an ordinary outcome.
pub fn resolve(command: &str, platform: Platform, dirs: &Vec<String>, pathext: Option<&str>) -> (handle:
    Option<String>)
    ensures
        may_resolve_to(command@, platform, texts(dirs@), opt_str(pathext), opt_text(handle)),
{
    match policy_for(platform) {
        ResolutionPolicy::ExtensionSuffix => find_windows_executable(command, dirs, pathext),
        ResolutionPolicy::DirectLookup => {
            if on_search_path(command) {
                Some(command.to_owned())
            } else {
                None
            }
        },
    }
}

} // verus!
