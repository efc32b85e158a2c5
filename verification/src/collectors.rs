//! Collection of rule, script, pattern and test-case inputs.
//!
//! The surrounding process lists directories and reads file contents; the
//! functions here do the selection: which entries count as rules, scripts
//! or patterns, in which order they are taken (ascending by name — the
//! order is load-bearing for the assembled pipeline), and which files a
//! test-case directory must hold.

use vstd::multiset::Multiset;
use vstd::prelude::*;
use vstd::string::{StrSliceExecFns, StringExecFns};

use crate::driver::TestCase;
use crate::errors::RunError;
use crate::text::{chars_le, chars_lt, lemma_chars_lt_irrefl, lemma_chars_lt_trans, str_lt};

verus! {

/// One directory entry, as listed by the surrounding process.
pub struct FileEntry {
    /// The entry's file name (no directory part).
    pub name: String,
    /// Whether the entry is a regular file.
    pub is_file: bool,
}

/// Position `i` holds the last dot of `name`, and not its first
/// character: the position that separates a file name from its extension.
/// A leading dot marks a hidden name, not an extension.
pub open spec fn is_last_dot(name: Seq<char>, i: int) -> bool {
    &&& 0 < i < name.len()
    &&& name[i] == '.'
    &&& forall|j: int| i < j < name.len() ==> name[j] != '.'
}

/// At most one position is the last dot.
pub proof fn lemma_last_dot_unique(name: Seq<char>, i: int, j: int)
    requires
        is_last_dot(name, i),
        is_last_dot(name, j),
    ensures
        i == j,
{
    if i < j {
        assert(name[j] != '.');
    } else if j < i {
        assert(name[i] != '.');
    }
}

/// `name` carries the extension `ext`.
pub open spec fn ext_is(name: Seq<char>, ext: Seq<char>) -> bool {
    exists|i: int| is_last_dot(name, i) && name.skip(i + 1) == ext
}

/// `name` carries some extension.
pub open spec fn has_ext(name: Seq<char>) -> bool {
    exists|i: int| is_last_dot(name, i)
}

/// The extension of a file name: what follows the last dot, unless that
/// dot is the leading character or there is none.
pub fn extension_of(name: &str) -> (r: Option<String>)
    ensures
        r matches Some(e) ==> is_last_dot(name@, name@.len() - e@.len() - 1) && e@ == name@.skip(
            name@.len() - e@.len(),
        ),
        r is None ==> !has_ext(name@),
{
    let len = name.unicode_len();
    let mut k = len;
    while k > 0
        invariant
            k <= len,
            len == name@.len(),
            forall|j: int| k <= j < len ==> name@[j] != '.',
        decreases k,
    {
        let c = name.get_char(k - 1);
        if c == '.' {
            if k - 1 == 0 {
                proof {
                    assert forall|i: int| !is_last_dot(name@, i) by {
                        if 0 < i < name@.len() {
                            assert(name@[i] != '.');
                        }
                    }
                }
                return None;
            }
            let e = name.substring_char(k, len).to_owned();
            proof {
                assert(e@ =~= name@.skip(k as int));
            }
            return Some(e);
        }
        k -= 1;
    }
    proof {
        assert forall|i: int| !is_last_dot(name@, i) by {
            if 0 < i < name@.len() {
                assert(name@[i] != '.');
            }
        }
    }
    None
}

/// Whether an entry is selected: a regular file whose name carries the
/// wanted extension, or any extension at all when none is wanted.
pub open spec fn keep_entry(e: FileEntry, want: Option<Seq<char>>) -> bool {
    e.is_file && (match want {
        Some(x) => ext_is(e.name@, x),
        None => has_ext(e.name@),
    })
}

/// The names selected from a listing, in listing order.
pub open spec fn selected_names(entries: Seq<FileEntry>, want: Option<Seq<char>>) -> Seq<String>
    decreases entries,
{
    if entries.len() == 0 {
        Seq::empty()
    } else {
        let rest = selected_names(entries.drop_last(), want);
        if keep_entry(entries.last(), want) {
            rest.push(entries.last().name)
        } else {
            rest
        }
    }
}

/// Ascending by name, in code-point order.
pub open spec fn sorted_names(s: Seq<String>) -> bool {
    forall|i: int, j: int| 0 <= i < j < s.len() ==> chars_le((#[trigger] s[i])@, (#[trigger] s[j])@)
}

/// Inserting an element anywhere adds exactly it to the multiset.
proof fn lemma_insert_to_multiset(s: Seq<String>, p: int, x: String)
    requires
        0 <= p <= s.len(),
    ensures
        s.insert(p, x).to_multiset() == s.to_multiset().insert(x),
{
    broadcast use vstd::seq_lib::group_seq_lib_default;

    let left = s.subrange(0, p);
    let right = s.subrange(p, s.len() as int);
    assert(s.insert(p, x) =~= left.push(x) + right);
    assert(s =~= left + right);
    vstd::seq_lib::lemma_multiset_commutative(left.push(x), right);
    vstd::seq_lib::lemma_multiset_commutative(left, right);
    broadcast use vstd::seq_lib::group_to_multiset_ensures;

    assert(left.push(x).to_multiset() =~= left.to_multiset().insert(x));
    assert(left.to_multiset().insert(x).add(right.to_multiset()) =~= left.to_multiset().add(
        right.to_multiset(),
    ).insert(x));
}

/// Sorts names ascending in code-point order, keeping exactly the same
/// names.
pub fn sort_names(names: Vec<String>) -> (r: Vec<String>)
    ensures
        sorted_names(r@),
        r@.to_multiset() == names@.to_multiset(),
{
    broadcast use vstd::seq_lib::group_to_multiset_ensures;

    let mut rest = names;
    let mut out: Vec<String> = Vec::new();
    while rest.len() > 0
        invariant
            sorted_names(out@),
            out@.to_multiset().add(rest@.to_multiset()) == names@.to_multiset(),
        decreases rest@.len(),
    {
        let ghost rest0 = rest@;
        let x = rest.pop().unwrap();
        proof {
            assert(rest0 =~= rest@.push(x));
            vstd::seq_lib::to_multiset_build::<String>(rest@, x);
            assert(rest0.to_multiset() == rest@.to_multiset().insert(x));
        }
        let mut p: usize = 0;
        while p < out.len() && !str_lt(x.as_str(), out[p].as_str())
            invariant
                p <= out@.len(),
                forall|j: int| 0 <= j < p ==> !chars_lt(x@, (#[trigger] out@[j])@),
            decreases out@.len() - p,
        {
            p += 1;
        }
        let ghost out0 = out@;
        out.insert(p, x);
        proof {
            lemma_insert_to_multiset(out0, p as int, x);
            assert(out@.to_multiset().add(rest@.to_multiset()) =~= names@.to_multiset());
            assert forall|i: int, j: int|
                0 <= i < j < out@.len() implies chars_le((#[trigger] out@[i])@, (#[trigger] out@[j])@) by {
                if j < p {
                    assert(out@[i] == out0[i] && out@[j] == out0[j]);
                } else if i > p {
                    assert(out@[i] == out0[i - 1] && out@[j] == out0[j - 1]);
                } else if i < p && j == p {
                    assert(out@[i] == out0[i]);
                } else if i == p && j > p {
                    assert(out@[j] == out0[j - 1]);
                    assert(p < out0.len());
                    assert(chars_lt(x@, out0[p as int]@));
                    if chars_lt(out0[j - 1]@, x@) {
                        lemma_chars_lt_trans(out0[j - 1]@, x@, out0[p as int]@);
                        if j - 1 == p {
                            lemma_chars_lt_irrefl(out0[p as int]@);
                        } else {
                            assert(chars_le(out0[p as int]@, out0[j - 1]@));
                        }
                    }
                } else if i < p && j > p {
                    assert(out@[i] == out0[i] && out@[j] == out0[j - 1]);
                }
            }
        }
    }
    proof {
        assert(rest@.to_multiset() =~= Multiset::empty());
        assert(out@.to_multiset() =~= names@.to_multiset());
    }
    out
}

/// Selects from a directory listing the regular files that carry the
/// wanted extension (or any extension, when none is wanted) and returns
/// their names sorted ascending: the order in which rule fragments enter
/// the pipeline.
pub fn collect_files(entries: &Vec<FileEntry>, want: Option<&str>) -> (r: Vec<String>)
    ensures
        sorted_names(r@),
        r@.to_multiset() == selected_names(
            entries@,
            match want {
                Some(w) => Some(w@),
                None => None,
            },
        ).to_multiset(),
{
    let ghost w = match want {
        Some(w) => Some(w@),
        None => None,
    };
    let mut names: Vec<String> = Vec::new();
    let mut i: usize = 0;
    while i < entries.len()
        invariant
            i <= entries@.len(),
            w == (match want {
                Some(w2) => Some(w2@),
                None => None,
            }),
            names@ == selected_names(entries@.take(i as int), w),
        decreases entries@.len() - i,
    {
        let e = &entries[i];
        let take = if !e.is_file {
            false
        } else {
            match (extension_of(e.name.as_str()), want) {
                (Some(x), Some(wanted)) => {
                    let wanted_own = wanted.to_owned();
                    let eq = x == wanted_own;
                    proof {
                        if eq {
                            assert(keep_entry(entries@[i as int], w));
                        } else {
                            if ext_is(e.name@, wanted@) {
                                let ii = choose|ii: int|
                                    is_last_dot(e.name@, ii) && e.name@.skip(ii + 1) == wanted@;
                                lemma_last_dot_unique(
                                    e.name@,
                                    ii,
                                    e.name@.len() - x@.len() - 1,
                                );
                            }
                            assert(!keep_entry(entries@[i as int], w));
                        }
                    }
                    eq
                },
                (Some(_), None) => true,
                (None, _) => false,
            }
        };
        let ghost names0 = names@;
        if take {
            names.push(e.name.clone());
        }
        proof {
            let prefix = entries@.take(i as int);
            let prefix1 = entries@.take(i + 1);
            assert(prefix1.drop_last() =~= prefix);
            assert(prefix1.last() == entries@[i as int]);
            if take {
                assert(keep_entry(entries@[i as int], w));
                assert(selected_names(prefix1, w) == selected_names(prefix, w).push(
                    entries@[i as int].name,
                ));
            } else {
                assert(!keep_entry(entries@[i as int], w));
                assert(selected_names(prefix1, w) == selected_names(prefix, w));
            }
        }
        i += 1;
    }
    proof {
        assert(entries@.take(entries@.len() as int) =~= entries@);
    }
    sort_names(names)
}

/// The rule fragments of the pipeline: regular files with the rule
/// extension, ascending by name.
pub fn collect_rules(entries: &Vec<FileEntry>) -> (r: Vec<String>)
    ensures
        sorted_names(r@),
        r@.to_multiset() == selected_names(entries@, Some(crate::RULE_EXTENSION@)).to_multiset(),
{
    collect_files(entries, Some(crate::RULE_EXTENSION))
}

/// The script files copied into the artifact: regular files with the
/// script extension, ascending by name.
pub fn collect_scripts(entries: &Vec<FileEntry>) -> (r: Vec<String>)
    ensures
        sorted_names(r@),
        r@.to_multiset() == selected_names(entries@, Some(crate::SCRIPT_EXTENSION@)).to_multiset(),
{
    collect_files(entries, Some(crate::SCRIPT_EXTENSION))
}

/// The pattern files copied into the artifact: regular files with any
/// extension, ascending by name.
pub fn collect_patterns(entries: &Vec<FileEntry>) -> (r: Vec<String>)
    ensures
        sorted_names(r@),
        r@.to_multiset() == selected_names(entries@, None).to_multiset(),
{
    collect_files(entries, None)
}

/// One file of a test-case directory, with its content already read.
pub struct NamedFile {
    /// The file's name inside the directory.
    pub name: String,
    /// The file's text.
    pub text: String,
}

/// One test-case directory, as listed and read by the surrounding
/// process.
pub struct CaseDir {
    /// The directory's name, which identifies the test case.
    pub name: String,
    /// The regular files inside it.
    pub files: Vec<NamedFile>,
}

/// The directory holds a file of the given name.
pub open spec fn has_file(files: Seq<NamedFile>, name: Seq<char>) -> bool {
    exists|k: int| 0 <= k < files.len() && (#[trigger] files[k]).name@ == name
}

/// Finds a file by name.
fn find_file<'a>(files: &'a Vec<NamedFile>, name: &str) -> (r: Option<&'a NamedFile>)
    ensures
        r matches Some(f) ==> f.name@ == name@ && (exists|k: int|
            0 <= k < files@.len() && (#[trigger] files@[k]) == *f),
        r is None ==> !has_file(files@, name@),
{
    let mut k: usize = 0;
    while k < files.len()
        invariant
            k <= files@.len(),
            forall|j: int| 0 <= j < k ==> (#[trigger] files@[j]).name@ != name@,
        decreases files@.len() - k,
    {
        let target = name.to_owned();
        if files[k].name == target {
            return Some(&files[k]);
        }
        k += 1;
    }
    None
}

/// Pairs every test-case directory's two fixtures into a test case, in
/// directory order. Succeeds exactly when every directory holds both an
/// input fixture and an expected fixture; a directory missing one fails
/// the collection with an i/o error naming the case, and no cases are
/// returned.
pub fn collect_tests(dirs: &Vec<CaseDir>) -> (r: Result<Vec<TestCase>, RunError>)
    ensures
        (r is Ok) <==> (forall|i: int|
            0 <= i < dirs@.len() ==> has_file((#[trigger] dirs@[i]).files@, crate::INPUT_FILE@)
                && has_file(dirs@[i].files@, crate::EXPECTED_FILE@)),
        r is Ok ==> {
            &&& r->Ok_0@.len() == dirs@.len()
            &&& forall|i: int|
                0 <= i < dirs@.len() ==> {
                    &&& (#[trigger] r->Ok_0@[i]).name@ == dirs@[i].name@
                    &&& (exists|k: int|
                        0 <= k < dirs@[i].files@.len() && (#[trigger] dirs@[i].files@[k]).name@
                            == crate::INPUT_FILE@ && r->Ok_0@[i].input_text@
                            == dirs@[i].files@[k].text@)
                    &&& (exists|k: int|
                        0 <= k < dirs@[i].files@.len() && (#[trigger] dirs@[i].files@[k]).name@
                            == crate::EXPECTED_FILE@ && r->Ok_0@[i].expected_text@
                            == dirs@[i].files@[k].text@)
                }
        },
        r is Err ==> r->Err_0 is Io,
{
    let mut cases: Vec<TestCase> = Vec::new();
    let mut i: usize = 0;
    while i < dirs.len()
        invariant
            i <= dirs@.len(),
            cases@.len() == i,
            forall|j: int|
                0 <= j < i ==> has_file((#[trigger] dirs@[j]).files@, crate::INPUT_FILE@)
                    && has_file(dirs@[j].files@, crate::EXPECTED_FILE@),
            forall|j: int|
                0 <= j < i ==> {
                    &&& (#[trigger] cases@[j]).name@ == dirs@[j].name@
                    &&& (exists|k: int|
                        0 <= k < dirs@[j].files@.len() && (#[trigger] dirs@[j].files@[k]).name@
                            == crate::INPUT_FILE@ && cases@[j].input_text@
                            == dirs@[j].files@[k].text@)
                    &&& (exists|k: int|
                        0 <= k < dirs@[j].files@.len() && (#[trigger] dirs@[j].files@[k]).name@
                            == crate::EXPECTED_FILE@ && cases@[j].expected_text@
                            == dirs@[j].files@[k].text@)
                },
        decreases dirs@.len() - i,
    {
        let dir = &dirs[i];
        let fin = find_file(&dir.files, crate::INPUT_FILE);
        let input = match fin {
            Some(f) => f.text.clone(),
            None => {
                proof {
                    assert(!has_file(dirs@[i as int].files@, crate::INPUT_FILE@));
                }
                let mut m = String::from_str("the input fixture is missing from test case ");
                m.append(dir.name.as_str());
                let e = RunError::Io { detail: m };
                return Err(e);
            },
        };
        let fexp = find_file(&dir.files, crate::EXPECTED_FILE);
        let expected = match fexp {
            Some(f) => f.text.clone(),
            None => {
                proof {
                    assert(!has_file(dirs@[i as int].files@, crate::EXPECTED_FILE@));
                }
                let mut m = String::from_str("the expected fixture is missing from test case ");
                m.append(dir.name.as_str());
                let e = RunError::Io { detail: m };
                return Err(e);
            },
        };
        let ghost cases0 = cases@;
        cases.push(TestCase { name: dir.name.clone(), input_text: input, expected_text: expected });
        proof {
            let fi = *fin->Some_0;
            let fe = *fexp->Some_0;
            let ki = choose|k: int| 0 <= k < dirs@[i as int].files@.len() && (#[trigger] dirs@[i as int].files@[k]) == fi;
            let ke = choose|k: int| 0 <= k < dirs@[i as int].files@.len() && (#[trigger] dirs@[i as int].files@[k]) == fe;
            assert(dirs@[i as int].files@[ki].name@ == crate::INPUT_FILE@ && cases@[i as int].input_text@ == dirs@[i as int].files@[ki].text@);
            assert(dirs@[i as int].files@[ke].name@ == crate::EXPECTED_FILE@ && cases@[i as int].expected_text@ == dirs@[i as int].files@[ke].text@);
            assert(has_file(dirs@[i as int].files@, crate::INPUT_FILE@));
            assert(has_file(dirs@[i as int].files@, crate::EXPECTED_FILE@));
            assert(forall|j: int| 0 <= j < i ==> cases@[j] == cases0[j]);
        }
        i += 1;
    }
    Ok(cases)
}

} // verus!
