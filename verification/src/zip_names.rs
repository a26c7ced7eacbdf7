//! Safe ZIP entry names for bulk downloads.
//!
//! An uploader-supplied file name is reduced to its base name (no directory
//! part, no `.` / `..` / empty name) and de-duplicated within one archive, so
//! that extracting the archive can neither escape its folder nor silently
//! overwrite an earlier entry.

use vstd::prelude::*;
use vstd::hash_set::StringHashSet;
use crate::text::{digit_char, digits_value, decimal_seq, push_char, push_decimal, push_str, string_of, to_chars, trim_bounds, trim_seq};

verus! {

/// The names already used in one archive: a `HashSet` of them, with the
/// names in the order they were added as a ghost record (the set is what
/// they make, so it is finite).
pub struct UsedNames {
    set: StringHashSet,
    added: Ghost<Seq<Seq<char>>>,
}

impl View for UsedNames {
    type V = Set<Seq<char>>;

    closed spec fn view(&self) -> Set<Seq<char>> {
        self.added@.to_set()
    }
}

impl UsedNames {
    /// Whether the hash set holds exactly the names added.
    pub closed spec fn wf(&self) -> bool {
        self.set@ == self.added@.to_set()
    }

    /// No name used yet.
    pub fn new() -> (r: Self)
        ensures
            r.wf(),
            r@ == Set::<Seq<char>>::empty(),
            r@.finite(),
    {
        let r = UsedNames { set: StringHashSet::new(), added: Ghost(Seq::empty()) };
        assert(r.added@.to_set() =~= Set::<Seq<char>>::empty());
        r
    }

    /// The names used in one archive are finitely many.
    pub proof fn lemma_finite(&self)
        ensures
            self@.finite(),
    {
        vstd::seq_lib::seq_to_set_is_finite(self.added@);
    }

    /// Whether `name` is used.
    pub fn contains(&self, name: &String) -> (r: bool)
        requires
            self.wf(),
        ensures
            r == self@.contains(name@),
    {
        self.set.contains(name.as_str())
    }

    /// Marks `name` as used; true when it was not used before.
    pub fn insert(&mut self, name: String) -> (r: bool)
        requires
            old(self).wf(),
        ensures
            final(self).wf(),
            r == !old(self)@.contains(name@),
            final(self)@ == old(self)@.insert(name@),
            final(self)@.finite(),
    {
        let ghost nm = name@;
        let r = self.set.insert(name);
        proof {
            self.added@.lemma_push_to_set_commute(nm);
        }
        self.added = Ghost(self.added@.push(nm));
        proof {
            vstd::seq_lib::seq_to_set_is_finite(self.added@);
        }
        r
    }
}

/// Whether `c` separates directories in a path (`/` or `\`).
pub open spec fn is_sep(c: char) -> bool {
    c == '/' || c == '\\'
}

/// One past the last separator in `s[..j]`, or 0.
pub open spec fn sep_cut(s: Seq<char>, j: int) -> int
    decreases j,
{
    if j <= 0 || j > s.len() {
        0
    } else if is_sep(s[j - 1]) {
        j
    } else {
        sep_cut(s, j - 1)
    }
}

/// The last path segment of `raw`, trimmed.
pub open spec fn basename_seq(raw: Seq<char>) -> Seq<char> {
    trim_seq(raw.subrange(sep_cut(raw, raw.len() as int), raw.len() as int))
}

/// The base name to use: the trimmed last segment, or `file_<id>` when that
/// is empty, `.` or `..`.
pub open spec fn base_name(raw: Seq<char>, fallback_id: Seq<char>) -> Seq<char> {
    let b = basename_seq(raw);
    if b == ""@ || b == "."@ || b == ".."@ {
        "file_"@ + fallback_id
    } else {
        b
    }
}

/// Index of the last `.` in `s[..j]`, if any.
pub open spec fn last_dot(s: Seq<char>, j: int) -> Option<int>
    decreases j,
{
    if j <= 0 || j > s.len() {
        None
    } else if s[j - 1] == '.' {
        Some(j - 1)
    } else {
        last_dot(s, j - 1)
    }
}

/// Stem and extension (with its dot) of a base name; a name whose only dot
/// leads it has no extension.
pub open spec fn stem_ext(base: Seq<char>) -> (Seq<char>, Seq<char>) {
    match last_dot(base, base.len() as int) {
        Some(i) => if i > 0 {
            (base.subrange(0, i), base.subrange(i, base.len() as int))
        } else {
            (base, Seq::empty())
        },
        None => (base, Seq::empty()),
    }
}

/// `stem (n)ext`.
pub open spec fn candidate(stem: Seq<char>, n: nat, ext: Seq<char>) -> Seq<char> {
    stem + " ("@ + decimal_seq(n) + ")"@ + ext
}

/// The first `n` from `from` to 9999 whose candidate is not used.
pub open spec fn first_free(used: Set<Seq<char>>, stem: Seq<char>, ext: Seq<char>, from: int) -> Option<nat>
    decreases 10000 - from,
{
    if from < 1 || from > 9999 {
        None
    } else if !used.contains(candidate(stem, from as nat, ext)) {
        Some(from as nat)
    } else {
        first_free(used, stem, ext, from + 1)
    }
}

/// The entry name chosen for `raw` given the names already used.
pub open spec fn spec_entry_name(raw: Seq<char>, fallback_id: Seq<char>, used: Set<Seq<char>>) -> Seq<char> {
    let base = base_name(raw, fallback_id);
    if !used.contains(base) {
        base
    } else {
        let (stem, ext) = stem_ext(base);
        match first_free(used, stem, ext, 1) {
            Some(n) => candidate(stem, n, ext),
            None => base + "_"@ + fallback_id,
        }
    }
}

/// Index one past the last separator in `v`, or 0.
fn find_sep_cut(v: &Vec<char>) -> (r: usize)
    ensures
        r == sep_cut(v@, v@.len() as int),
        r <= v.len(),
{
    let mut j = v.len();
    while j > 0 && v[j - 1] != '/' && v[j - 1] != '\\'
        invariant
            j <= v.len(),
            sep_cut(v@, v@.len() as int) == sep_cut(v@, j as int),
        decreases j,
    {
        j = j - 1;
    }
    j
}

/// Index of the last `.` in `v`.
fn find_last_dot(v: &Vec<char>) -> (r: Option<usize>)
    ensures
        r matches Some(i) ==> last_dot(v@, v@.len() as int) == Some(i as int) && i < v.len(),
        r is None ==> last_dot(v@, v@.len() as int) is None,
{
    let mut j = v.len();
    while j > 0 && v[j - 1] != '.'
        invariant
            j <= v.len(),
            last_dot(v@, v@.len() as int) == last_dot(v@, j as int),
        decreases j,
    {
        j = j - 1;
    }
    if j > 0 {
        Some(j - 1)
    } else {
        None
    }
}

/// Whether `v` equals one of the names that cannot stand alone.
fn is_degenerate(v: &Vec<char>) -> (r: bool)
    ensures
        r == (v@ == ""@ || v@ == "."@ || v@ == ".."@),
{
    crate::text::eq_str(v, "") || crate::text::eq_str(v, ".") || crate::text::eq_str(v, "..")
}

/// Reduce an uploader-supplied file name to a safe ZIP entry: base name only,
/// no `.` / `..` / empty name, and de-duplicated within one archive. The
/// `fallback_id` is the share's row id, used when the name collapses to
/// nothing. The chosen name is recorded as used.
pub fn sanitize_zip_entry_name(raw: &str, fallback_id: &str, used: &mut UsedNames) -> (r: String)
    requires
        old(used).wf(),
    ensures
        final(used).wf(),
        r@ == spec_entry_name(raw@, fallback_id@, old(used)@),
        final(used)@ == old(used)@.insert(r@),
        final(used)@.finite(),
{
    let v = to_chars(raw);
    let cut = find_sep_cut(&v);
    let seg = crate::text::slice_of(&v, cut, v.len());
    let (a, b) = trim_bounds(&seg);
    let bv = crate::text::slice_of(&seg, a, b);
    let base: String = if is_degenerate(&bv) {
        let mut s = "file_".to_string();
        push_str(&mut s, fallback_id);
        s
    } else {
        crate::text::string_from(&bv)
    };
    let ghost base_v = base@;
    assert(base_v == base_name(raw@, fallback_id@));
    if used.insert(base.clone()) {
        return base;
    }
    let bc = to_chars(base.as_str());
    let (stem, ext): (String, String) = match find_last_dot(&bc) {
        Some(i) => if i > 0 {
            (string_of(&bc, 0, i), string_of(&bc, i, bc.len()))
        } else {
            (base.clone(), String::new())
        },
        None => (base.clone(), String::new()),
    };
    assert((stem@, ext@) == stem_ext(base_v));
    let ghost used0 = old(used)@;
    let mut n: u64 = 1;
    while n <= 9999
        invariant
            1 <= n <= 10000,
            used.wf(),
            used@ == used0,
            used0 == old(used)@,
            base_v == base_name(raw@, fallback_id@),
            used0.contains(base_v),
            (stem@, ext@) == stem_ext(base_v),
            first_free(used0, stem@, ext@, 1) == first_free(used0, stem@, ext@, n as int),
        decreases 10000 - n,
    {
        let mut cand = stem.clone();
        push_str(&mut cand, " (");
        push_decimal(&mut cand, n);
        push_char(&mut cand, ')');
        push_str(&mut cand, ext.as_str());
        assert(cand@ == candidate(stem@, n as nat, ext@)) by {
            assert(")"@ == seq![')']) by {
                reveal_strlit(")");
            }
        }
        if used.insert(cand.clone()) {
            return cand;
        }
        n = n + 1;
    }
    let mut last_resort = base.clone();
    push_char(&mut last_resort, '_');
    push_str(&mut last_resort, fallback_id);
    assert("_"@ == seq!['_']) by {
        reveal_strlit("_");
    }
    used.insert(last_resort.clone());
    last_resort
}


/// No character of `s` separates directories.
pub open spec fn has_no_sep(s: Seq<char>) -> bool {
    forall|k: int| 0 <= k < s.len() ==> !is_sep(#[trigger] s[k])
}

proof fn lemma_sep_cut(s: Seq<char>, j: int)
    requires
        0 <= j <= s.len(),
    ensures
        0 <= sep_cut(s, j) <= j,
        forall|k: int| sep_cut(s, j) <= k < j ==> !is_sep(#[trigger] s[k]),
    decreases j,
{
    if j > 0 && !is_sep(s[j - 1]) {
        lemma_sep_cut(s, j - 1);
    }
}

proof fn lemma_skip_ws_bounds(s: Seq<char>, i: int)
    requires
        0 <= i <= s.len(),
    ensures
        i <= crate::text::skip_ws_from(s, i) <= s.len(),
    decreases s.len() - i,
{
    if i < s.len() && crate::text::is_ws(s[i]) {
        lemma_skip_ws_bounds(s, i + 1);
    }
}

proof fn lemma_back_ws_bounds(s: Seq<char>, lo: int, j: int)
    requires
        0 <= lo <= j <= s.len(),
    ensures
        lo <= crate::text::back_ws(s, lo, j) <= j,
    decreases j - lo,
{
    if lo < j && crate::text::is_ws(s[j - 1]) {
        lemma_back_ws_bounds(s, lo, j - 1);
    }
}

proof fn lemma_trim_is_slice(s: Seq<char>)
    ensures
        exists|a: int, b: int| 0 <= a <= b <= s.len() && trim_seq(s) == #[trigger] s.subrange(a, b),
{
    lemma_skip_ws_bounds(s, 0);
    let a = crate::text::skip_ws_from(s, 0);
    lemma_back_ws_bounds(s, a, s.len() as int);
    let b = crate::text::back_ws(s, a, s.len() as int);
    assert(trim_seq(s) == s.subrange(a, b));
}

proof fn lemma_basename_has_no_sep(raw: Seq<char>)
    ensures
        has_no_sep(basename_seq(raw)),
{
    let n = raw.len() as int;
    lemma_sep_cut(raw, n);
    let c = sep_cut(raw, n);
    let seg = raw.subrange(c, n);
    assert(has_no_sep(seg)) by {
        assert forall|k: int| 0 <= k < seg.len() implies !is_sep(#[trigger] seg[k]) by {
            assert(seg[k] == raw[c + k]);
        }
    }
    lemma_trim_is_slice(seg);
    let (a, b) = choose|a: int, b: int| 0 <= a <= b <= seg.len() && trim_seq(seg) == #[trigger] seg.subrange(a, b);
    assert forall|k: int| 0 <= k < basename_seq(raw).len() implies !is_sep(#[trigger] basename_seq(raw)[k]) by {
        assert(basename_seq(raw)[k] == seg[a + k]);
    }
}

proof fn lemma_decimal_has_no_sep(n: nat)
    ensures
        has_no_sep(decimal_seq(n)),
    decreases n,
{
    if n >= 10 {
        lemma_decimal_has_no_sep(n / 10);
    }
}

proof fn lemma_concat_no_sep(a: Seq<char>, b: Seq<char>)
    requires
        has_no_sep(a),
        has_no_sep(b),
    ensures
        has_no_sep(a + b),
{
    assert forall|k: int| 0 <= k < (a + b).len() implies !is_sep(#[trigger] (a + b)[k]) by {
        if k < a.len() {
            assert((a + b)[k] == a[k]);
        } else {
            assert((a + b)[k] == b[k - a.len()]);
        }
    }
}

/// Law: an entry name never holds a directory separator, so extracting the
/// archive cannot leave its folder (given a fallback id without one), and is
/// never `.` or `..`.
pub proof fn lemma_entry_name_is_a_plain_file_name(raw: Seq<char>, fallback_id: Seq<char>, used: Set<Seq<char>>)
    requires
        has_no_sep(fallback_id),
    ensures
        has_no_sep(spec_entry_name(raw, fallback_id, used)),
        spec_entry_name(raw, fallback_id, used) != "."@,
        spec_entry_name(raw, fallback_id, used) != ".."@,
        spec_entry_name(raw, fallback_id, used).len() > 0,
{
    reveal_strlit("file_");
    reveal_strlit(".");
    reveal_strlit("..");
    reveal_strlit("");
    reveal_strlit(" (");
    reveal_strlit(")");
    reveal_strlit("_");
    lemma_basename_has_no_sep(raw);
    let base = base_name(raw, fallback_id);
    lemma_concat_no_sep("file_"@, fallback_id);
    assert(has_no_sep(base));
    let (stem, ext) = stem_ext(base);
    assert(has_no_sep(stem) && has_no_sep(ext)) by {
        match last_dot(base, base.len() as int) {
            Some(i) => {
                lemma_last_dot_bounds(base, base.len() as int);
                if i > 0 {
                    assert forall|k: int| 0 <= k < stem.len() implies !is_sep(#[trigger] stem[k]) by {
                        assert(stem[k] == base[k]);
                    }
                    assert forall|k: int| 0 <= k < ext.len() implies !is_sep(#[trigger] ext[k]) by {
                        assert(ext[k] == base[i + k]);
                    }
                }
            },
            None => {},
        }
    }
    if used.contains(base) {
        match first_free(used, stem, ext, 1) {
            Some(n) => {
                lemma_decimal_has_no_sep(n);
                lemma_concat_no_sep(stem, " ("@);
                lemma_concat_no_sep(stem + " ("@, decimal_seq(n));
                lemma_concat_no_sep(stem + " ("@ + decimal_seq(n), ")"@);
                lemma_concat_no_sep(stem + " ("@ + decimal_seq(n) + ")"@, ext);
                let cand = candidate(stem, n, ext);
                assert(cand.len() > 0);
                assert(cand != "."@ && cand != ".."@) by {
                    if cand == "."@ || cand == ".."@ {
                        assert(cand.len() >= stem.len() + 3);
                        assert(stem.len() == 0 || cand[0] == stem[0]);
                        let k = stem.len() as int;
                        assert(cand[k] == ' ');
                    }
                }
            },
            None => {
                lemma_concat_no_sep(base, "_"@);
                lemma_concat_no_sep(base + "_"@, fallback_id);
                let lr = base + "_"@ + fallback_id;
                assert(lr != "."@ && lr != ".."@) by {
                    if lr == "."@ || lr == ".."@ {
                        let b = basename_seq(raw);
                        if b.len() == 0 {
                            assert(b =~= ""@);
                        }
                        assert(base.len() >= 1);
                        assert(lr.len() >= 2);
                        assert(lr[base.len() as int] == '_');
                        assert(lr.len() == 2);
                        assert(base.len() == 1);
                        assert(lr[1] == '_');
                        assert((".."@)[1] == '.');
                    }
                }
            },
        }
    } else {
        let b = basename_seq(raw);
        if !(b == ""@ || b == "."@ || b == ".."@) {
            assert(base == b);
            if b.len() == 0 {
                assert(b =~= ""@);
            }
        } else {
            assert(base.len() >= 5);
            assert(base[0] == 'f');
        }
    }
}

proof fn lemma_last_dot_bounds(s: Seq<char>, j: int)
    requires
        0 <= j <= s.len(),
    ensures
        last_dot(s, j) matches Some(i) ==> 0 <= i < j,
    decreases j,
{
    if j > 0 && s[j - 1] != '.' {
        lemma_last_dot_bounds(s, j - 1);
    }
}

proof fn lemma_first_free_is_free(used: Set<Seq<char>>, stem: Seq<char>, ext: Seq<char>, from: int)
    ensures
        first_free(used, stem, ext, from) matches Some(n) ==> !used.contains(candidate(stem, n, ext)),
    decreases 10000 - from,
{
    if 1 <= from <= 9999 && used.contains(candidate(stem, from as nat, ext)) {
        lemma_first_free_is_free(used, stem, ext, from + 1);
    }
}

/// Law: an entry name never overwrites an earlier entry of the archive,
/// except when its base name and all 9999 numbered variants are taken and so
/// is the `<base>_<id>` fallback.
pub proof fn lemma_entry_name_is_fresh(raw: Seq<char>, fallback_id: Seq<char>, used: Set<Seq<char>>)
    requires
        ({
            let base = base_name(raw, fallback_id);
            let (stem, ext) = stem_ext(base);
            !(used.contains(base) && first_free(used, stem, ext, 1) is None
                && used.contains(base + "_"@ + fallback_id))
        }),
    ensures
        !used.contains(spec_entry_name(raw, fallback_id, used)),
{
    let base = base_name(raw, fallback_id);
    let (stem, ext) = stem_ext(base);
    lemma_first_free_is_free(used, stem, ext, 1);
}

proof fn lemma_decimal_value(n: nat)
    ensures
        digits_value(decimal_seq(n)) == n,
    decreases n,
{
    if n < 10 {
        let s = decimal_seq(n);
        assert(s.drop_last() =~= Seq::<char>::empty());
        assert(digits_value(Seq::<char>::empty()) == 0);
        assert(s.last() == digit_char(n));
        assert((digit_char(n) as int) - ('0' as int) == n);
    } else {
        lemma_decimal_value(n / 10);
        let s = decimal_seq(n);
        assert(s.drop_last() =~= decimal_seq(n / 10));
        assert(s.last() == digit_char(n % 10));
        assert((digit_char(n % 10) as int) - ('0' as int) == n % 10);
        assert(n == (n / 10) * 10 + n % 10) by (nonlinear_arith);
    }
}

proof fn lemma_candidates_differ(stem: Seq<char>, ext: Seq<char>, a: nat, b: nat)
    requires
        candidate(stem, a, ext) == candidate(stem, b, ext),
    ensures
        a == b,
{
    reveal_strlit(" (");
    reveal_strlit(")");
    let ca = candidate(stem, a, ext);
    let da = decimal_seq(a);
    let db = decimal_seq(b);
    let lo: int = stem.len() as int + 2;
    assert(" ("@.len() == 2);
    assert(")"@.len() == 1);
    assert(ca.len() == stem.len() + 2 + da.len() + 1 + ext.len());
    assert(candidate(stem, b, ext).len() == stem.len() + 2 + db.len() + 1 + ext.len());
    assert(da.len() == db.len());
    assert(ca.subrange(lo, lo + da.len() as int) =~= da);
    assert(candidate(stem, b, ext).subrange(lo, lo + db.len() as int) =~= db);
    lemma_decimal_value(a);
    lemma_decimal_value(b);
}

proof fn lemma_last_dot_is_dot(s: Seq<char>, j: int)
    ensures
        last_dot(s, j) matches Some(i) ==> 0 <= i < j <= s.len() && s[i] == '.',
    decreases j,
{
    if 0 < j <= s.len() && s[j - 1] != '.' {
        lemma_last_dot_is_dot(s, j - 1);
    }
}

proof fn lemma_stem_ext_splits(base: Seq<char>)
    ensures
        stem_ext(base).0 + stem_ext(base).1 == base,
        stem_ext(base).1.len() == 0 || stem_ext(base).1[0] == '.',
{
    lemma_last_dot_is_dot(base, base.len() as int);
    match last_dot(base, base.len() as int) {
        Some(i) => {
            if i > 0 {
                assert(base.subrange(0, i) + base.subrange(i, base.len() as int) =~= base);
            } else {
                assert(base + Seq::<char>::empty() =~= base);
            }
        },
        None => {
            assert(base + Seq::<char>::empty() =~= base);
        },
    }
}

proof fn lemma_first_free_none(used: Set<Seq<char>>, stem: Seq<char>, ext: Seq<char>, from: int)
    requires
        1 <= from,
        first_free(used, stem, ext, from) is None,
    ensures
        forall|n: int| from <= n <= 9999 ==> used.contains(#[trigger] candidate(stem, n as nat, ext)),
    decreases 10000 - from,
{
    if from <= 9999 {
        lemma_first_free_none(used, stem, ext, from + 1);
    }
}

/// The names an entry may get, in the order they are tried: the base name,
/// its numbered variants 1 to 9999, then the name with the fallback id.
pub open spec fn entry_candidates(raw: Seq<char>, fallback_id: Seq<char>) -> Seq<Seq<char>> {
    let base = base_name(raw, fallback_id);
    let (stem, ext) = stem_ext(base);
    Seq::new(10001, |k: int| if k == 0 {
        base
    } else if k <= 9999 {
        candidate(stem, k as nat, ext)
    } else {
        base + "_"@ + fallback_id
    })
}

/// Law: as long as at most 10000 names of the archive are taken, an entry
/// name is never one of them: the 10001 names an entry may get are all
/// different, so one of them is free.
pub proof fn lemma_entry_name_is_fresh_below_limit(raw: Seq<char>, fallback_id: Seq<char>, used: Set<Seq<char>>)
    requires
        used.finite(),
        used.len() <= 10000,
    ensures
        !used.contains(spec_entry_name(raw, fallback_id, used)),
{
    reveal_strlit(" (");
    reveal_strlit(")");
    reveal_strlit("_");
    let base = base_name(raw, fallback_id);
    let (stem, ext) = stem_ext(base);
    let fb = base + "_"@ + fallback_id;
    if used.contains(base) && first_free(used, stem, ext, 1) is None && used.contains(fb) {
        lemma_first_free_none(used, stem, ext, 1);
        lemma_stem_ext_splits(base);
        let cs = entry_candidates(raw, fallback_id);
        assert forall|i: int, j: int| 0 <= i < j < cs.len() implies cs[i] != cs[j] by {
            if i == 0 {
                if j <= 9999 {
                    assert(cs[j].len() > base.len());
                } else {
                    assert(cs[j].len() > base.len());
                }
            } else if j <= 9999 {
                if cs[i] == cs[j] {
                    lemma_candidates_differ(stem, ext, i as nat, j as nat);
                }
            } else {
                let c = cs[i];
                let k = stem.len() as int;
                assert(c[k] == ' ');
                assert(fb.len() > k);
                if ext.len() > 0 {
                    assert(fb[k] == base[k]);
                    assert(base[k] == ext[0]);
                } else {
                    assert(base.len() == k);
                    assert(fb[k] == '_');
                }
            }
        }
        assert(cs.no_duplicates());
        cs.unique_seq_to_set();
        assert forall|x: Seq<char>| cs.to_set().contains(x) implies used.contains(x) by {
            let k = choose|k: int| 0 <= k < cs.len() && cs[k] == x;
            if 1 <= k <= 9999 {
                assert(used.contains(candidate(stem, k as nat, ext)));
            }
        }
        vstd::set_lib::lemma_len_subset(cs.to_set(), used);
        assert(false);
    }
    lemma_entry_name_is_fresh(raw, fallback_id, used);
}

} // verus!
