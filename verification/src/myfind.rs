//! The decisions of a file finder: reading its command line, compiling the
//! name patterns, and combining the matches of several searches.
//!
//! The command line reads `[-v|--verbose] -path <dir>... -name <pattern>...`:
//! the strings between `-path` and the next `-name` are directories, and all
//! strings after `-name` are patterns.
use vstd::prelude::*;
use vstd::string::*;
use crate::intersec::{intersection, kept_in, law_kept_in_is_common, texts};

verus! {

#[verifier::external_type_specification]
#[verifier::external_body]
pub struct ExRegex(regex::Regex);

#[verifier::external_type_specification]
#[verifier::external_body]
pub struct ExRegexError(regex::Error);

/// Whether `regex::Regex::new` accepts `pattern` on a target whose pointers
/// are `pointer_bits` wide: the pattern is valid syntax and the compiled
/// program stays within the default size limit (the size counted depends on
/// the pointer width).
pub uninterp spec fn regex_compiles(pattern: Seq<char>, pointer_bits: u32) -> bool;

/// A compiled name pattern, together with the text it was compiled from.
#[derive(Debug)]
pub struct CompiledPattern {
    text: String,
    re: regex::Regex,
}

impl CompiledPattern {
    /// The text the pattern was compiled from.
    pub closed spec fn pattern(&self) -> Seq<char> {
        self.text@
    }
}

/// Calls `regex::Regex::new` on `pattern`, which compiles it, or fails on
/// invalid syntax or on a program over the default size limit; which of the
/// two comes back depends on the pattern and the target's pointer width, and
/// is named by `regex_compiles`. The compiled pattern keeps the text it was
/// compiled from.
#[verifier::external_body]
fn regex_compile(pattern: String) -> (r: Result<CompiledPattern, regex::Error>)
    ensures
        r is Ok <==> regex_compiles(pattern@, usize::BITS),
        r matches Ok(p) ==> p.pattern() == pattern@,
{
    match regex::Regex::new(&pattern) {
        Ok(re) => Ok(CompiledPattern { text: pattern, re }),
        Err(e) => Err(e),
    }
}

/// Whether the text `text` holds a match of the pattern `pattern` (for a
/// pattern that compiles), as `regex::Regex::is_match` finds: a function of
/// the two texts alone.
pub uninterp spec fn regex_matches(pattern: Seq<char>, text: Seq<char>) -> bool;

/// Calls `regex::Regex::is_match` of the compiled pattern on `text`; the
/// answer is named by `regex_matches` over the pattern's text and `text`.
#[verifier::external_body]
fn pattern_is_match(p: &CompiledPattern, text: &str) -> (r: bool)
    ensures
        r == regex_matches(p.pattern(), text@),
{
    p.re.is_match(text)
}

/// Calls `<regex::Error as ToString>::to_string`, the error's message.
/// Nothing is stated of the text: the error value is opaque here.
#[verifier::external_body]
fn regex_error_message(e: &regex::Error) -> String {
    e.to_string()
}

/// A pattern that does not compile, and why.
#[derive(Clone, Debug)]
pub struct PatternError {
    pub pattern: String,
    pub message: String,
}

/// Compiles a name pattern.
pub fn compile_pattern(pattern: &String) -> (r: Result<CompiledPattern, PatternError>)
    ensures
        r is Ok <==> regex_compiles(pattern@, usize::BITS),
        r matches Ok(p) ==> p.pattern() == pattern@,
        r matches Err(e) ==> e.pattern@ == pattern@,
{
    match regex_compile(pattern.clone()) {
        Ok(p) => Ok(p),
        Err(err) => Err(PatternError { pattern: pattern.clone(), message: regex_error_message(&err) }),
    }
}

/// The paths of the `(path, file name)` entries whose file name holds a
/// match of `pattern`, in order.
pub open spec fn matching_paths(
    pattern: Seq<char>,
    files: Seq<(Seq<char>, Seq<char>)>,
) -> Seq<Seq<char>>
    decreases files.len(),
{
    if files.len() == 0 {
        Seq::empty()
    } else {
        let rest = matching_paths(pattern, files.drop_last());
        if regex_matches(pattern, files.last().1) {
            rest.push(files.last().0)
        } else {
            rest
        }
    }
}

/// A path is reported exactly when some entry with that path has a file
/// name holding a match of the pattern: an entry whose file name does not
/// match is never reported because of its path.
pub proof fn law_matching_paths_by_name(
    pattern: Seq<char>,
    files: Seq<(Seq<char>, Seq<char>)>,
    x: Seq<char>,
)
    ensures
        matching_paths(pattern, files).contains(x) <==> exists|i: int|
            0 <= i < files.len() && (#[trigger] files[i]).0 == x && regex_matches(pattern, files[i].1),
    decreases files.len(),
{
    if files.len() > 0 {
        let init = files.drop_last();
        let rest = matching_paths(pattern, init);
        law_matching_paths_by_name(pattern, init, x);
        let n = files.len() - 1;
        if matching_paths(pattern, files).contains(x) {
            if regex_matches(pattern, files.last().1) && x == files.last().0 {
                assert(files[n].0 == x && regex_matches(pattern, files[n].1));
            } else {
                if regex_matches(pattern, files.last().1) {
                    let j = choose|j: int| 0 <= j < rest.push(files.last().0).len() && rest.push(
                        files.last().0,
                    )[j] == x;
                    assert(j < rest.len());
                    assert(rest[j] == x);
                }
                assert(rest.contains(x));
                let i = choose|i: int|
                    0 <= i < init.len() && (#[trigger] init[i]).0 == x && regex_matches(
                        pattern,
                        init[i].1,
                    );
                assert(files[i] == init[i]);
            }
        }
        if exists|i: int|
            0 <= i < files.len() && (#[trigger] files[i]).0 == x && regex_matches(pattern, files[i].1) {
            let i = choose|i: int|
                0 <= i < files.len() && (#[trigger] files[i]).0 == x && regex_matches(
                    pattern,
                    files[i].1,
                );
            if i == n {
                assert(rest.push(files.last().0)[rest.len() as int] == x);
            } else {
                assert(init[i] == files[i]);
                assert(rest.contains(x));
                let j = choose|j: int| 0 <= j < rest.len() && rest[j] == x;
                if regex_matches(pattern, files.last().1) {
                    assert(rest.push(files.last().0)[j] == x);
                }
            }
        }
    }
}

/// The texts of a list of `(path, file name)` entries.
pub open spec fn entry_texts(files: Seq<(String, String)>) -> Seq<(Seq<char>, Seq<char>)> {
    files.map_values(|e: (String, String)| (e.0@, e.1@))
}

/// The paths of the `(path, file name)` entries whose file name holds a match
/// of `p`, in order.
pub fn matching_files(p: &CompiledPattern, files: &Vec<(String, String)>) -> (r: Vec<String>)
    ensures
        texts(r@) == matching_paths(p.pattern(), entry_texts(files@)),
{
    let mut r: Vec<String> = Vec::new();
    let mut i: usize = 0;
    while i < files.len()
        invariant
            i <= files@.len(),
            texts(r@) == matching_paths(p.pattern(), entry_texts(files@).take(i as int)),
        decreases files@.len() - i,
    {
        let ghost before = r@;
        assert(entry_texts(files@).take(i + 1).drop_last() =~= entry_texts(files@).take(i as int));
        assert(entry_texts(files@)[i as int] == (files@[i as int].0@, files@[i as int].1@));
        if pattern_is_match(p, files[i].1.as_str()) {
            r.push(files[i].0.clone());
            assert(texts(r@) =~= texts(before).push(files@[i as int].0@));
        }
        i += 1;
    }
    assert(entry_texts(files@).take(files@.len() as int) =~= entry_texts(files@));
    r
}

/// What the command line asks for.
#[derive(Clone, Debug)]
pub struct FindArgs {
    pub verbose: bool,
    pub paths: Vec<String>,
    pub names: Vec<String>,
}

/// Why a command line is refused.
#[derive(Clone, Copy, Debug, PartialEq, Eq, Structural)]
pub enum ArgsError {
    /// Too few arguments, or no directory, or no pattern.
    Usage,
    /// A `-path` list that no later `-name` closes.
    UnterminatedPath,
}

/// The first position at or after `j` that holds `-name`.
pub open spec fn first_name_from(a: Seq<Seq<char>>, j: int) -> Option<int>
    decreases a.len() - j,
{
    if j < 0 || j >= a.len() {
        None
    } else if a[j] == "-name"@ {
        Some(j)
    } else {
        first_name_from(a, j + 1)
    }
}

/// What reading the arguments from position `i` on adds to the verbosity
/// flag, directories and patterns read so far; `None` when a `-path` list is
/// not closed by a `-name`.
pub open spec fn scan(
    a: Seq<Seq<char>>,
    i: int,
    verbose: bool,
    paths: Seq<Seq<char>>,
    names: Seq<Seq<char>>,
) -> Option<(bool, Seq<Seq<char>>, Seq<Seq<char>>)>
    decreases a.len() - i,
{
    if i < 0 || i >= a.len() {
        Some((verbose, paths, names))
    } else if a[i] == "-v"@ || a[i] == "--verbose"@ {
        scan(a, i + 1, true, paths, names)
    } else if a[i] == "-path"@ {
        match first_name_from(a, i + 1) {
            Some(k) => if i < k <= a.len() {
                scan(a, k, verbose, paths + a.subrange(i + 1, k), names)
            } else {
                None
            },
            None => None,
        }
    } else if a[i] == "-name"@ {
        Some((verbose, paths, names + a.subrange(i + 1, a.len() as int)))
    } else {
        scan(a, i + 1, verbose, paths, names)
    }
}

/// The reading of a whole command line (position 0 is the program name).
pub open spec fn parse_spec(a: Seq<Seq<char>>) -> Result<
    (bool, Seq<Seq<char>>, Seq<Seq<char>>),
    ArgsError,
> {
    if a.len() < 5 {
        Err(ArgsError::Usage)
    } else {
        match scan(a, 1, false, Seq::empty(), Seq::empty()) {
            None => Err(ArgsError::UnterminatedPath),
            Some((v, p, n)) => if p.len() == 0 || n.len() == 0 {
                Err(ArgsError::Usage)
            } else {
                Ok((v, p, n))
            },
        }
    }
}

/// Once verbose output is on, reading the rest of the line keeps it on.
proof fn lemma_verbose_stays_on(
    a: Seq<Seq<char>>,
    i: int,
    paths: Seq<Seq<char>>,
    names: Seq<Seq<char>>,
)
    ensures
        scan(a, i, true, paths, names) matches Some(r) ==> r.0,
    decreases a.len() - i,
{
    if 0 <= i < a.len() {
        if a[i] == "-v"@ || a[i] == "--verbose"@ {
            lemma_verbose_stays_on(a, i + 1, paths, names);
        } else if a[i] == "-path"@ {
            match first_name_from(a, i + 1) {
                Some(k) => if i < k <= a.len() {
                    lemma_verbose_stays_on(a, k, paths + a.subrange(i + 1, k), names);
                },
                None => {},
            }
        } else if a[i] == "-name"@ {
        } else {
            lemma_verbose_stays_on(a, i + 1, paths, names);
        }
    }
}

proof fn lemma_verbose_flag_read(
    a: Seq<Seq<char>>,
    i: int,
    j: int,
    verbose: bool,
    paths: Seq<Seq<char>>,
    names: Seq<Seq<char>>,
)
    requires
        0 <= i <= j < a.len(),
        a[j] == "-v"@ || a[j] == "--verbose"@,
        forall|m: int| i <= m < j ==> a[m] != "-path"@ && a[m] != "-name"@,
    ensures
        scan(a, i, verbose, paths, names) matches Some(r) ==> r.0,
    decreases j - i,
{
    if i == j {
        lemma_verbose_stays_on(a, i + 1, paths, names);
    } else if a[i] == "-v"@ || a[i] == "--verbose"@ {
        lemma_verbose_stays_on(a, i + 1, paths, names);
    } else {
        assert(a[i] != "-path"@ && a[i] != "-name"@);
        lemma_verbose_flag_read(a, i + 1, j, verbose, paths, names);
    }
}

/// `-v` and `--verbose` both turn verbose output on: when either stands
/// among the leading options (before any `-path` or `-name`), an accepted
/// command line has verbose output on.
pub proof fn law_verbose_flags(a: Seq<Seq<char>>, j: int)
    requires
        1 <= j < a.len(),
        a[j] == "-v"@ || a[j] == "--verbose"@,
        forall|m: int| 1 <= m < j ==> a[m] != "-path"@ && a[m] != "-name"@,
    ensures
        parse_spec(a) matches Ok(r) ==> r.0,
{
    lemma_verbose_flag_read(a, 1, j, false, Seq::empty(), Seq::empty());
}

proof fn lemma_first_name_at_least(a: Seq<Seq<char>>, j: int)
    ensures
        first_name_from(a, j) matches Some(k) ==> j <= k < a.len() && a[k] == "-name"@,
    decreases a.len() - j,
{
    if 0 <= j < a.len() && a[j] != "-name"@ {
        lemma_first_name_at_least(a, j + 1);
    }
}

/// Appends clones of `src[from..to]` to `dst`.
fn push_range(dst: &mut Vec<String>, src: &Vec<String>, from: usize, to: usize)
    requires
        from <= to <= src@.len(),
    ensures
        texts(final(dst)@) == texts(old(dst)@) + texts(src@).subrange(from as int, to as int),
{
    let mut j = from;
    while j < to
        invariant
            from <= j <= to <= src@.len(),
            texts(dst@) == texts(old(dst)@) + texts(src@).subrange(from as int, j as int),
        decreases to - j,
    {
        let ghost before = dst@;
        dst.push(src[j].clone());
        assert(texts(dst@) =~= texts(before).push(src@[j as int]@));
        assert(texts(src@).subrange(from as int, j + 1) =~= texts(src@).subrange(
            from as int,
            j as int,
        ).push(src@[j as int]@));
        j += 1;
    }
}

/// Reads the command line `args` (position 0 is the program name): `-v` or
/// `--verbose` turns on verbose output, `-path` starts a list of directories
/// that runs up to the next `-name`, and `-name` takes all remaining strings
/// as patterns; other strings are skipped. Fewer than five arguments, or no
/// directory or no pattern, is a usage error.
pub fn parse_args(args: &Vec<String>) -> (r: Result<FindArgs, ArgsError>)
    ensures
        match parse_spec(texts(args@)) {
            Ok((v, p, n)) => r matches Ok(f) && f.verbose == v && texts(f.paths@) == p && texts(
                f.names@,
            ) == n,
            Err(e) => r matches Err(e2) && e2 == e,
        },
{
    let ghost a = texts(args@);
    let n = args.len();
    if n < 5 {
        return Err(ArgsError::Usage);
    }
    let dash_v = String::from_str("-v");
    let dash_verbose = String::from_str("--verbose");
    let dash_path = String::from_str("-path");
    let dash_name = String::from_str("-name");
    let mut verbose = false;
    let mut paths: Vec<String> = Vec::new();
    let mut names: Vec<String> = Vec::new();
    let mut i: usize = 1;
    assert(texts(paths@) =~= Seq::<Seq<char>>::empty());
    assert(texts(names@) =~= Seq::<Seq<char>>::empty());
    while i < n
        invariant
            n == args@.len(),
            a == texts(args@),
            1 <= i <= n,
            n >= 5,
            dash_v@ == "-v"@,
            dash_verbose@ == "--verbose"@,
            dash_path@ == "-path"@,
            dash_name@ == "-name"@,
            scan(a, 1, false, Seq::empty(), Seq::empty()) == scan(
                a,
                i as int,
                verbose,
                texts(paths@),
                texts(names@),
            ),
        decreases n - i,
    {
        assert(a[i as int] == args@[i as int]@);
        if args[i] == dash_v || args[i] == dash_verbose {
            verbose = true;
            i += 1;
        } else if args[i] == dash_path {
            let mut j = i + 1;
            while j < n && !(args[j] == dash_name)
                invariant
                    n == args@.len(),
                    a == texts(args@),
                    i < j <= n,
                    dash_name@ == "-name"@,
                    first_name_from(a, i + 1) == first_name_from(a, j as int),
                    n >= 5,
                    scan(a, 1, false, Seq::empty(), Seq::empty()) == scan(
                        a,
                        i as int,
                        verbose,
                        texts(paths@),
                        texts(names@),
                    ),
                decreases n - j,
            {
                assert(a[j as int] == args@[j as int]@);
                j += 1;
            }
            if j >= n {
                assert(first_name_from(a, j as int) is None);
                assert(scan(a, i as int, verbose, texts(paths@), texts(names@)) is None);
                assert(a.len() == n);
                return Err(ArgsError::UnterminatedPath);
            }
            assert(a[j as int] == args@[j as int]@);
            assert(first_name_from(a, j as int) == Some(j as int));
            push_range(&mut paths, args, i + 1, j);
            i = j;
        } else if args[i] == dash_name {
            push_range(&mut names, args, i + 1, n);
            assert(texts(args@).subrange(i + 1, n as int) == a.subrange(i + 1, a.len() as int));
            assert(scan(a, n as int, verbose, texts(paths@), texts(names@)) == Some(
                (verbose, texts(paths@), texts(names@)),
            ));
            i = n;
        } else {
            i += 1;
        }
    }
    if paths.len() == 0 || names.len() == 0 {
        return Err(ArgsError::Usage);
    }
    Ok(FindArgs { verbose, paths, names })
}

/// The matches after merging one more search's `found` into `so_far`
/// (`None` before the first search).
pub open spec fn merge_spec(so_far: Option<Seq<Seq<char>>>, found: Seq<Seq<char>>) -> Seq<Seq<char>> {
    match so_far {
        None => found,
        Some(m) => kept_in(m, found),
    }
}

/// The matches after merging the results of `searches` one after the other.
pub open spec fn merge_all(searches: Seq<Seq<Seq<char>>>) -> Option<Seq<Seq<char>>>
    decreases searches.len(),
{
    if searches.len() == 0 {
        None
    } else {
        Some(merge_spec(merge_all(searches.drop_last()), searches.last()))
    }
}

/// Combines the matches gathered so far (`None` before the first search)
/// with those of one more search: the first search's matches are taken as
/// they are; after that, only the earlier matches that the new search also
/// found are kept (in their order).
pub fn merge_matches(matches: Option<Vec<String>>, found: Vec<String>) -> (r: Vec<String>)
    ensures
        texts(r@) == merge_spec(
            match matches {
                None => None,
                Some(m) => Some(texts(m@)),
            },
            texts(found@),
        ),
{
    match matches {
        None => found,
        Some(m) => intersection(&found, &m),
    }
}

/// After merging any number of searches, a match is kept exactly when every
/// one of the searches found it: the result is their intersection.
pub proof fn law_merge_is_intersection(searches: Seq<Seq<Seq<char>>>, x: Seq<char>)
    requires
        searches.len() > 0,
    ensures
        merge_all(searches) matches Some(m) && (m.contains(x) <==> forall|i: int|
            0 <= i < searches.len() ==> #[trigger] searches[i].contains(x)),
    decreases searches.len(),
{
    let last = searches.last();
    if searches.len() == 1 {
        assert forall|i: int| 0 <= i < searches.len() implies #[trigger] searches[i].contains(x)
            <==> last.contains(x) by {}
    } else {
        let init = searches.drop_last();
        law_merge_is_intersection(init, x);
        let prev = merge_all(init)->0;
        law_kept_in_is_common(prev, last, x);
        assert((forall|i: int| 0 <= i < searches.len() ==> #[trigger] searches[i].contains(x))
            <==> ((forall|i: int| 0 <= i < init.len() ==> #[trigger] init[i].contains(x))
            && last.contains(x))) by {
            if forall|i: int| 0 <= i < init.len() ==> #[trigger] init[i].contains(x) {
                if last.contains(x) {
                    assert forall|i: int| 0 <= i < searches.len() implies #[trigger] searches[
                        i
                    ].contains(x) by {
                        if i < init.len() {
                            assert(init[i] == searches[i]);
                        }
                    }
                }
            }
            if forall|i: int| 0 <= i < searches.len() ==> #[trigger] searches[i].contains(x) {
                assert forall|i: int| 0 <= i < init.len() implies #[trigger] init[i].contains(
                    x,
                ) by {
                    assert(init[i] == searches[i]);
                }
                assert(searches[searches.len() - 1].contains(x));
            }
        }
    }
}

} // verus!
