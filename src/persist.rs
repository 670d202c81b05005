//! Choosing where a received file is stored without clobbering an existing one.
//!
//! A name is tried as it is first; while the file system answers that the
//! destination already exists, the name is tried again with a counter,
//! `"{stem} ({n}).{extension}"` for n = 1, 2, 3, ...
use vstd::prelude::*;

use crate::filename::{
    collapse, is_blank, is_clean, lemma_sanitized_is_clean, sanitize_file_name, sanitized,
};
use crate::text::{
    after_last, before_last, chars_of, decimal, find_last, push_char, push_decimal, substring,
};

verus! {

/// `std::io::Error`, carried through unopened.
#[verifier::external_type_specification]
#[verifier::external_body]
pub struct ExIoError(std::io::Error);

/// What takes the place of a character that may not stand in a file name.
pub const REPLACEMENT: &'static str = "_";

/// A file name as a stem and an extension, both chosen already.
#[derive(Debug)]
pub struct Filename {
    pub stem: String,
    pub extension: String,
}

/// `" ({n})"`
pub open spec fn counter_suffix(n: nat) -> Seq<char> {
    seq![' ', '('] + decimal(n) + seq![')']
}

impl Filename {
    /// The name tried at attempt `n`: the name itself first, then with a counter.
    pub open spec fn candidate(&self, n: nat) -> Seq<char> {
        if n == 0 {
            self.stem@ + seq!['.'] + self.extension@
        } else {
            self.stem@ + counter_suffix(n) + seq!['.'] + self.extension@
        }
    }

    /// The same name with a counter after the stem.
    pub fn with_counter(&self, counter: u64) -> (r: Filename)
        ensures
            r.stem@ == self.stem@ + counter_suffix(counter as nat),
            r.extension@ == self.extension@,
    {
        let mut stem = self.stem.clone();
        stem.append(" (");
        push_decimal(&mut stem, counter);
        push_char(&mut stem, ')');
        proof {
            reveal_strlit(" (");
        }
        assert(stem@ =~= self.stem@ + counter_suffix(counter as nat));
        Filename { stem, extension: self.extension.clone() }
    }

    /// `"{stem}.{extension}"`
    pub fn to_file_name(&self) -> (r: String)
        ensures
            r@ == self.stem@ + seq!['.'] + self.extension@,
    {
        let mut name = self.stem.clone();
        push_char(&mut name, '.');
        name.append(self.extension.as_str());
        assert(name@ =~= self.stem@ + seq!['.'] + self.extension@);
        name
    }

    /// The name tried at attempt `counter`.
    pub fn candidate_name(&self, counter: u64) -> (r: String)
        ensures
            r@ == self.candidate(counter as nat),
    {
        if counter == 0 {
            self.to_file_name()
        } else {
            let named = self.with_counter(counter);
            let r = named.to_file_name();
            assert(r@ =~= self.candidate(counter as nat));
            r
        }
    }
}

proof fn lemma_decimal_len(n: nat)
    ensures
        decimal(n).len() >= 1,
        n >= 10 ==> decimal(n).len() >= 2,
    decreases n,
{
    if n >= 10 {
        lemma_decimal_len(n / 10);
    }
}

proof fn lemma_digit_injective(a: nat, b: nat)
    requires
        a < 10,
        b < 10,
        crate::text::digit(a) == crate::text::digit(b),
    ensures
        a == b,
{
    assert(crate::text::digit(a) as u32 == (a % 10) + 48);
    assert(crate::text::digit(b) as u32 == (b % 10) + 48);
}

proof fn lemma_decimal_injective(m: nat, n: nat)
    requires
        decimal(m) == decimal(n),
    ensures
        m == n,
    decreases m,
{
    lemma_decimal_len(m);
    lemma_decimal_len(n);
    if m < 10 && n < 10 {
        assert(decimal(m) == seq![crate::text::digit(m)]);
        assert(decimal(n) == seq![crate::text::digit(n)]);
        assert(decimal(m)[0] == decimal(n)[0]);
        assert(decimal(m)[0] == crate::text::digit(m));
        assert(decimal(n)[0] == crate::text::digit(n));
        lemma_digit_injective(m, n);
    } else if m >= 10 && n >= 10 {
        let dm = decimal(m);
        let dn = decimal(n);
        assert(dm.last() == dn.last());
        lemma_digit_injective(m % 10, n % 10);
        assert(dm.drop_last() =~= decimal(m / 10));
        assert(dn.drop_last() =~= decimal(n / 10));
        lemma_decimal_injective(m / 10, n / 10);
    } else {
        assert(decimal(m).len() != decimal(n).len());
    }
}

/// No name is tried twice: the names tried with different counters differ, so a
/// search through a directory that holds finitely many names meets a free one.
pub proof fn lemma_candidates_differ(filename: Filename, m: nat, n: nat)
    requires
        m != n,
    ensures
        filename.candidate(m) != filename.candidate(n),
{
    let stem = filename.stem@;
    let ext = filename.extension@;
    lemma_decimal_len(m);
    lemma_decimal_len(n);
    if m == 0 || n == 0 {
        assert(filename.candidate(m).len() != filename.candidate(n).len());
    } else if filename.candidate(m) == filename.candidate(n) {
        let a = filename.candidate(m);
        let b = filename.candidate(n);
        assert(counter_suffix(m).len() == decimal(m).len() + 3);
        assert(counter_suffix(n).len() == decimal(n).len() + 3);
        assert(a.len() == stem.len() + decimal(m).len() + 4 + ext.len());
        assert(b.len() == stem.len() + decimal(n).len() + 4 + ext.len());
        assert(decimal(m).len() == decimal(n).len());
        let lo = stem.len() + 2;
        let hi = lo + decimal(m).len();
        assert(a.subrange(lo as int, hi as int) =~= decimal(m));
        assert(b.subrange(lo as int, hi as int) =~= decimal(n));
        lemma_decimal_injective(m, n);
    }
}

/// The last component of a `/`-separated path.
pub open spec fn last_component(path: Seq<char>) -> Seq<char> {
    after_last(path, '/')
}

/// The last component of `path`: what follows its last `/`.
pub fn file_name_of(path: &str) -> (r: String)
    ensures
        r@ == last_component(path@),
{
    let chars = chars_of(path);
    let start = match find_last(&chars, '/') {
        Some(k) => k + 1,
        None => 0,
    };
    assert(chars@.subrange(0, chars@.len() as int) =~= chars@);
    substring(&chars, start, chars.len())
}

/// The stem that sanitizing keeps of `name`: what stands before its last dot.
pub open spec fn untrusted_stem(name: Seq<char>) -> Seq<char> {
    match before_last(last_component(name), '.') {
        Some(stem) => stem,
        None => last_component(name),
    }
}

/// The extension that sanitizing keeps of `name`: what follows its last dot.
pub open spec fn untrusted_extension(name: Seq<char>) -> Seq<char> {
    match before_last(last_component(name), '.') {
        Some(_) => after_last(last_component(name), '.'),
        None => Seq::empty(),
    }
}

/// The stem and extension chosen for the untrusted name `name`.
pub open spec fn sanitized_filename(
    name: Seq<char>,
    fallback_stem: Seq<char>,
    fallback_extension: Seq<char>,
) -> (Seq<char>, Seq<char>) {
    let stem = untrusted_stem(name);
    let extension = untrusted_extension(name);
    (
        if is_blank(stem) {
            fallback_stem
        } else {
            sanitized(stem, REPLACEMENT@)
        },
        if extension.len() == 0 {
            fallback_extension
        } else {
            collapse(extension, REPLACEMENT@)
        },
    )
}

/// A name whose stem is empty or blank takes the fallback stem, and a name without an
/// extension takes the fallback extension.
pub proof fn lemma_sanitize_fallbacks(
    name: Seq<char>,
    fallback_stem: Seq<char>,
    fallback_extension: Seq<char>,
)
    ensures
        is_blank(untrusted_stem(name)) ==> sanitized_filename(
            name,
            fallback_stem,
            fallback_extension,
        ).0 == fallback_stem,
        untrusted_extension(name).len() == 0 ==> sanitized_filename(
            name,
            fallback_stem,
            fallback_extension,
        ).1 == fallback_extension,
{
}

proof fn lemma_decimal_is_clean(n: nat)
    ensures
        is_clean(decimal(n)),
    decreases n,
{
    if n >= 10 {
        lemma_decimal_is_clean(n / 10);
        assert(is_clean(decimal(n / 10).push(crate::text::digit(n % 10))));
    }
}

/// A name chosen for a file sent by a peer stays in the directory it is stored in:
/// with clean fallbacks, its stem, its extension and every name tried with a counter
/// hold no disallowed character, and so no path separator.
pub proof fn lemma_stored_names_are_clean(
    name: Seq<char>,
    fallback_stem: Seq<char>,
    fallback_extension: Seq<char>,
    n: nat,
)
    requires
        is_clean(fallback_stem),
        is_clean(fallback_extension),
    ensures
        is_clean(sanitized_filename(name, fallback_stem, fallback_extension).0),
        is_clean(sanitized_filename(name, fallback_stem, fallback_extension).1),
        is_clean(
            sanitized_filename(name, fallback_stem, fallback_extension).0 + counter_suffix(n)
                + seq!['.'] + sanitized_filename(name, fallback_stem, fallback_extension).1,
        ),
{
    reveal_strlit("_");
    assert(is_clean(REPLACEMENT@));
    lemma_sanitized_is_clean(untrusted_stem(name), REPLACEMENT@);
    crate::filename::lemma_collapse_is_clean(untrusted_extension(name), REPLACEMENT@);
    lemma_decimal_is_clean(n);
    let (stem, extension) = sanitized_filename(name, fallback_stem, fallback_extension);
    assert(is_clean(seq![' ', '(']));
    assert(is_clean(seq![')']));
    assert(is_clean(counter_suffix(n)));
    assert(is_clean(stem + counter_suffix(n) + seq!['.'] + extension));
}

/// Derives a safe stem and extension from a file name chosen by a peer: only its last
/// path component counts, a blank stem becomes `fallback_file_stem`, an empty
/// extension becomes `fallback_extension`, and characters that may not stand in a
/// file name are replaced.
pub fn sanitize_untrusted_filename(
    untrusted: &str,
    fallback_file_stem: &str,
    fallback_extension: &str,
) -> (r: Filename)
    ensures
        (r.stem@, r.extension@) == sanitized_filename(
            untrusted@,
            fallback_file_stem@,
            fallback_extension@,
        ),
{
    let chars = chars_of(untrusted);
    let start = match find_last(&chars, '/') {
        Some(k) => k + 1,
        None => 0,
    };
    let base = substring(&chars, start, chars.len());
    let base_chars = chars_of(base.as_str());
    assert(base_chars@ == last_component(untrusted@)) by {
        assert(chars@.subrange(0, chars@.len() as int) =~= chars@);
    }
    let (stem, extension) = match find_last(&base_chars, '.') {
        Some(k) => (substring(&base_chars, 0, k), substring(&base_chars, k + 1, base_chars.len())),
        None => (base, String::new()),
    };
    let stem_chars = chars_of(stem.as_str());
    let stem = if crate::filename::is_blank_chars(&stem_chars) {
        fallback_file_stem.to_owned()
    } else {
        sanitize_file_name(stem.as_str(), REPLACEMENT)
    };
    let extension = if extension.as_str().unicode_len() == 0 {
        fallback_extension.to_owned()
    } else {
        let extension_chars = chars_of(extension.as_str());
        crate::filename::replace_consecutive(&extension_chars, REPLACEMENT)
    };
    Filename { stem, extension }
}


/// `dir` and `name` joined by one `/`.
pub open spec fn join(dir: Seq<char>, name: Seq<char>) -> Seq<char> {
    if dir.len() == 0 {
        name
    } else if dir.last() == '/' {
        dir + name
    } else {
        dir + seq!['/'] + name
    }
}

pub(crate) fn join_path(dir: &str, name: &str) -> (r: String)
    ensures
        r@ == join(dir@, name@),
{
    let mut path = dir.to_owned();
    let n = dir.unicode_len();
    if n > 0 && dir.get_char(n - 1) != '/' {
        push_char(&mut path, '/');
    }
    path.append(name);
    assert(path@ =~= join(dir@, name@));
    path
}

/// Why no name could be settled on.
#[derive(Debug)]
pub enum ResolveError {
    /// Trying a name failed for another reason than an existing destination.
    Io(std::io::Error),
    /// The path has no file name to vary.
    InvalidPath,
    /// Every counter up to the largest one met an existing destination.
    Exhausted,
}

/// The outcome of one attempt to store `T` under a chosen name.
pub enum PersistResult<T> {
    Saved,
    /// The destination exists already; the value comes back for the next attempt.
    Conflict(T),
    Failed(std::io::Error),
}

/// `outcome` is what `save` may answer for some value stored under `path`.
pub open spec fn saved_under<T, F: Fn(T, &str) -> PersistResult<T>>(
    save: F,
    path: Seq<char>,
    outcome: PersistResult<T>,
) -> bool {
    exists|t: T, q: &str| q@ == path && #[trigger] call_ensures(save, (t, q), outcome)
}

/// `save` may answer that a destination exists already at `path`.
pub open spec fn conflicts_at<T, F: Fn(T, &str) -> PersistResult<T>>(
    save: F,
    path: Seq<char>,
) -> bool {
    exists|t: T| #[trigger] saved_under(save, path, PersistResult::Conflict(t))
}

/// Stores `state` in `dir` under `filename`, or under the first name with a counter
/// for which `save` meets no existing destination. `save` moves or writes the value
/// and must not overwrite; on a conflict it hands the value back. The names are
/// tried with the counters 0, 1, 2, ... in order; the search ends at the first
/// answer that is not a conflict, and after the counter `u64::MAX`.
pub fn persist_with_conflict_resolution<T, F: Fn(T, &str) -> PersistResult<T>>(
    state: T,
    dir: &str,
    filename: &Filename,
    save: F,
) -> (r: Result<String, ResolveError>)
    requires
        forall|t: T, p: &str| save.requires((t, p)),
    ensures
        r matches Ok(p) ==> exists|n: nat|
            n <= u64::MAX && p@ == join(dir@, #[trigger] filename.candidate(n)) && saved_under(
                save,
                p@,
                PersistResult::Saved,
            ) && forall|m: nat|
                m < n ==> conflicts_at(save, join(dir@, #[trigger] filename.candidate(m))),
        r matches Err(ResolveError::Io(e)) ==> exists|n: nat|
            n <= u64::MAX && saved_under(
                save,
                join(dir@, #[trigger] filename.candidate(n)),
                PersistResult::Failed(e),
            ) && forall|m: nat|
                m < n ==> conflicts_at(save, join(dir@, #[trigger] filename.candidate(m))),
        r matches Err(ResolveError::Exhausted) ==> forall|n: nat|
            n <= u64::MAX ==> conflicts_at(save, join(dir@, #[trigger] filename.candidate(n))),
        !(r matches Err(ResolveError::InvalidPath)),
{
    let mut counter: u64 = 0;
    let mut state = state;
    loop
        invariant
            forall|t: T, p: &str| save.requires((t, p)),
            forall|m: nat|
                m < counter ==> conflicts_at(save, join(dir@, #[trigger] filename.candidate(m))),
        decreases u64::MAX - counter,
    {
        let path = join_path(dir, filename.candidate_name(counter).as_str());
        let q = path.as_str();
        let ghost t = state;
        let outcome = save(state, q);
        assert(path@ == join(dir@, filename.candidate(counter as nat)));
        match outcome {
            PersistResult::Saved => {
                assert(saved_under(save, path@, PersistResult::Saved));
                return Ok(path);
            },
            PersistResult::Conflict(returned) => {
                assert(saved_under(save, path@, PersistResult::Conflict(returned)));
                assert(conflicts_at(save, join(dir@, filename.candidate(counter as nat))));
                if counter == u64::MAX {
                    assert forall|n: nat| n <= u64::MAX implies conflicts_at(
                        save,
                        join(dir@, #[trigger] filename.candidate(n)),
                    ) by {
                        if n < counter {
                        } else {
                            assert(n == counter);
                        }
                    }
                    return Err(ResolveError::Exhausted);
                }
                state = returned;
                counter = counter + 1;
            },
            PersistResult::Failed(error) => {
                assert(saved_under(save, path@, PersistResult::Failed(error)));
                return Err(ResolveError::Io(error));
            },
        }
    }
}

/// The file name of `path`, split as the standard library splits it: the stem stands
/// before the last dot, unless that dot opens the name (`.bar` has no extension).
pub open spec fn std_stem(file_name: Seq<char>) -> Seq<char> {
    match before_last(file_name, '.') {
        Some(stem) => if stem.len() > 0 {
            stem
        } else {
            file_name
        },
        None => file_name,
    }
}

pub open spec fn std_extension(file_name: Seq<char>) -> Option<Seq<char>> {
    match before_last(file_name, '.') {
        Some(stem) => if stem.len() > 0 {
            Some(after_last(file_name, '.'))
        } else {
            None
        },
        None => None,
    }
}

/// What `path` is tried as at attempt `n`.
pub open spec fn path_with_counter(path: Seq<char>, n: nat) -> Seq<char> {
    let file_name = last_component(path);
    if n == 0 {
        path
    } else {
        path.subrange(0, path.len() - file_name.len()) + std_stem(file_name) + counter_suffix(n)
            + match std_extension(file_name) {
            Some(e) => seq!['.'] + e,
            None => Seq::empty(),
        }
    }
}

/// A path taken apart into its directory, the stem of its file name and the extension.
#[derive(Debug)]
pub struct PathParts {
    pub path: String,
    pub dir: String,
    pub stem: String,
    pub extension: Option<String>,
}

impl PathParts {
    pub open spec fn wf(&self) -> bool {
        let file_name = last_component(self.path@);
        &&& self.dir@ == self.path@.subrange(0, self.path@.len() - file_name.len())
        &&& self.stem@ == std_stem(file_name)
        &&& match self.extension {
            Some(e) => std_extension(file_name) == Some(e@),
            None => std_extension(file_name) is None,
        }
    }

    /// Takes `path` apart; `None` where it has no file name.
    pub fn try_from(path: &str) -> (r: Option<PathParts>)
        ensures
            r is None <==> last_component(path@).len() == 0,
            r matches Some(p) ==> p.wf() && p.path@ == path@,
    {
        let chars = chars_of(path);
        let start = match find_last(&chars, '/') {
            Some(k) => k + 1,
            None => 0,
        };
        if start == chars.len() {
            return None;
        }
        let file_name = chars_of(substring(&chars, start, chars.len()).as_str());
        let ghost f = last_component(path@);
        assert(file_name@ == f) by {
            assert(chars@.subrange(0, chars@.len() as int) =~= chars@);
        }
        let dir = substring(&chars, 0, start);
        let (stem, extension) = match find_last(&file_name, '.') {
            Some(k) => {
                if k > 0 {
                    (
                        substring(&file_name, 0, k),
                        Some(substring(&file_name, k + 1, file_name.len())),
                    )
                } else {
                    (substring(&file_name, 0, file_name.len()), None)
                }
            },
            None => (substring(&file_name, 0, file_name.len()), None),
        };
        assert(file_name@.subrange(0, file_name@.len() as int) =~= file_name@);
        Some(PathParts { path: path.to_owned(), dir, stem, extension })
    }

    /// The path tried at attempt `counter`.
    pub fn to_path_with_counter(&self, counter: u64) -> (r: String)
        requires
            self.wf(),
        ensures
            r@ == path_with_counter(self.path@, counter as nat),
    {
        if counter == 0 {
            return self.path.clone();
        }
        let mut path = self.dir.clone();
        path.append(self.stem.as_str());
        path.append(" (");
        push_decimal(&mut path, counter);
        push_char(&mut path, ')');
        match &self.extension {
            Some(e) => {
                push_char(&mut path, '.');
                path.append(e.as_str());
            },
            None => {},
        }
        proof {
            reveal_strlit(" (");
        }
        assert(path@ =~= path_with_counter(self.path@, counter as nat));
        path
    }
}

/// Relies on `std::io::Error::kind`: whether the error says that the destination
/// exists already.
#[verifier::external_body]
fn is_already_exists(error: &std::io::Error) -> (r: bool) {
    error.kind() == std::io::ErrorKind::AlreadyExists
}

/// The outcome of one attempt to open a file under a chosen name.
#[derive(Debug)]
pub enum OpenOutcome<T> {
    Opened(T),
    /// The destination exists already.
    Exists,
    Failed(std::io::Error),
}

impl<T> OpenOutcome<T> {
    /// Reads the outcome of an attempt off its I/O result: a success is an opened
    /// file, an error of kind `AlreadyExists` an existing destination, and any other
    /// error is kept as it is.
    pub fn from_io_result(result: std::io::Result<T>) -> (r: Self)
        ensures
            result matches Ok(v) ==> r == OpenOutcome::Opened(v),
            result matches Err(e) ==> r is Exists || r == OpenOutcome::<T>::Failed(e),
    {
        match result {
            Ok(value) => OpenOutcome::Opened(value),
            Err(error) => {
                if is_already_exists(&error) {
                    OpenOutcome::Exists
                } else {
                    OpenOutcome::Failed(error)
                }
            },
        }
    }
}

/// `opener` may answer `outcome` for `path` tried with the counter `n`.
pub open spec fn answered<T, F: Fn(&str) -> OpenOutcome<T>>(
    opener: F,
    path: Seq<char>,
    n: nat,
    outcome: OpenOutcome<T>,
) -> bool {
    exists|q: &str| q@ == path_with_counter(path, n) && #[trigger] call_ensures(opener, (q,), outcome)
}

/// `opener` may answer `outcome` for `path` with some counter, after answering that
/// the destination exists for every lower counter.
pub open spec fn answered_after_conflicts<T, F: Fn(&str) -> OpenOutcome<T>>(
    opener: F,
    path: Seq<char>,
    outcome: OpenOutcome<T>,
) -> bool {
    exists|n: nat|
        n <= u64::MAX && #[trigger] answered(opener, path, n, outcome) && forall|m: nat|
            m < n ==> #[trigger] answered(opener, path, m, OpenOutcome::Exists)
}

/// Opens `path` with `opener`, or the first variant of it with a counter for which
/// `opener` meets no existing destination. `opener` must create the file only where
/// none exists. The counters 0, 1, 2, ... are tried in order; the search ends at the
/// first answer that is not an existing destination, and after the counter
/// `u64::MAX`.
pub fn open_with_conflict_resolution<T, F: Fn(&str) -> OpenOutcome<T>>(
    path: &str,
    opener: F,
) -> (r: Result<T, ResolveError>)
    requires
        forall|p: &str| opener.requires((p,)),
    ensures
        r matches Err(ResolveError::InvalidPath) <==> last_component(path@).len() == 0,
        r matches Ok(v) ==> answered_after_conflicts(opener, path@, OpenOutcome::Opened(v)),
        r matches Err(ResolveError::Io(e)) ==> answered_after_conflicts(
            opener,
            path@,
            OpenOutcome::Failed(e),
        ),
        r matches Err(ResolveError::Exhausted) ==> forall|n: nat|
            n <= u64::MAX ==> #[trigger] answered(opener, path@, n, OpenOutcome::Exists),
{
    let parts = match PathParts::try_from(path) {
        Some(parts) => parts,
        None => {
            return Err(ResolveError::InvalidPath);
        },
    };
    let mut counter: u64 = 0;
    loop
        invariant
            forall|p: &str| opener.requires((p,)),
            parts.wf(),
            parts.path@ == path@,
            last_component(path@).len() != 0,
            forall|m: nat| m < counter ==> #[trigger] answered(opener, path@, m, OpenOutcome::Exists),
        decreases u64::MAX - counter,
    {
        let candidate = parts.to_path_with_counter(counter);
        let q = candidate.as_str();
        let outcome = opener(q);
        assert(path_with_counter(path@, counter as nat) == q@);
        match outcome {
            OpenOutcome::Opened(value) => {
                assert(answered(opener, path@, counter as nat, OpenOutcome::Opened(value)));
                assert(answered_after_conflicts(opener, path@, OpenOutcome::Opened(value)));
                return Ok(value);
            },
            OpenOutcome::Exists => {
                assert(answered(opener, path@, counter as nat, OpenOutcome::Exists));
                if counter == u64::MAX {
                    assert forall|n: nat| n <= u64::MAX implies #[trigger] answered(
                        opener,
                        path@,
                        n,
                        OpenOutcome::Exists,
                    ) by {
                        if n < counter {
                        } else {
                            assert(n == counter);
                        }
                    }
                    return Err(ResolveError::Exhausted);
                }
                counter = counter + 1;
            },
            OpenOutcome::Failed(error) => {
                assert(answered(opener, path@, counter as nat, OpenOutcome::Failed(error)));
                assert(answered_after_conflicts(opener, path@, OpenOutcome::Failed(error)));
                return Err(ResolveError::Io(error));
            },
        }
    }
}

} // verus!
