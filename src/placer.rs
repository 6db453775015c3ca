use vstd::prelude::*;

verus! {

/// Kind of part that a placer entity stands for.
#[derive(Clone, Copy, Debug, PartialEq, Eq, Structural)]
pub enum Placer {
    Hull,
    Wheel,
}

/// What `str::to_lowercase` makes of a string.
pub uninterp spec fn lower_of(s: Seq<char>) -> Seq<char>;

/// Relies on `str::to_lowercase`: the result depends on the characters alone, and an empty
/// string stays empty.
#[verifier::external_body]
fn lowercase_chars(s: &str) -> (r: Vec<char>)
    ensures
        r@ == lower_of(s@),
        s@.len() == 0 ==> r@.len() == 0,
{
    s.to_lowercase().chars().collect()
}

/// A path separator: tokens of a path are split on these.
pub open spec fn is_sep(c: char) -> bool {
    c == '/' || c == '.'
}

pub open spec fn wheel_token() -> Seq<char> {
    seq!['w', 'h', 'e', 'e', 'l']
}

pub open spec fn hull_token() -> Seq<char> {
    seq!['h', 'u', 'l', 'l']
}

/// `t` stands in `s` at position `i` as a whole token, with a separator or an end of `s`
/// on each side.
pub open spec fn token_at(s: Seq<char>, i: int, t: Seq<char>) -> bool {
    &&& 0 <= i
    &&& i + t.len() <= s.len()
    &&& s.subrange(i, i + t.len()) == t
    &&& (i == 0 || is_sep(s[i - 1]))
    &&& (i + t.len() == s.len() || is_sep(s[i + t.len()]))
}

/// One of the tokens of `s` is `t`.
pub open spec fn has_token(s: Seq<char>, t: Seq<char>) -> bool {
    exists|i: int| token_at(s, i, t)
}

/// Kind of part named by an already lower-cased path.
pub open spec fn classify(lower: Seq<char>) -> Placer {
    if has_token(lower, wheel_token()) {
        Placer::Wheel
    } else {
        Placer::Hull
    }
}

fn is_sep_char(c: char) -> (r: bool)
    ensures
        r == is_sep(c),
{
    c == '/' || c == '.'
}

fn token_at_exec(s: &Vec<char>, i: usize, t: &Vec<char>) -> (r: bool)
    requires
        i <= s.len(),
    ensures
        r == token_at(s@, i as int, t@),
{
    if t.len() > s.len() - i {
        return false;
    }
    if i > 0 && !is_sep_char(s[i - 1]) {
        return false;
    }
    let end: usize = i + t.len();
    if end < s.len() && !is_sep_char(s[end]) {
        return false;
    }
    let mut j: usize = 0;
    while j < t.len()
        invariant
            j <= t.len(),
            end == i + t.len(),
            end <= s.len(),
            forall|k: int| 0 <= k < j ==> s@[i + k] == t@[k],
        decreases t.len() - j,
    {
        if s[i + j] != t[j] {
            assert(s@.subrange(i as int, end as int)[j as int] != t@[j as int]);
            return false;
        }
        j = j + 1;
    }
    assert(s@.subrange(i as int, end as int) =~= t@);
    true
}

/// Tells whether `t` is one of the tokens of `s`.
pub fn contains_token(s: &Vec<char>, t: &Vec<char>) -> (r: bool)
    ensures
        r == has_token(s@, t@),
{
    let mut i: usize = 0;
    while i < s.len()
        invariant
            i <= s.len(),
            forall|k: int| 0 <= k < i ==> !token_at(s@, k, t@),
        decreases s.len() - i,
    {
        if token_at_exec(s, i, t) {
            return true;
        }
        i = i + 1;
    }
    if token_at_exec(s, i, t) {
        return true;
    }
    assert forall|k: int| !token_at(s@, k, t@) by {
        if 0 <= k <= i {
        } else if token_at(s@, k, t@) {
            assert(k <= s.len());
        }
    }
    false
}

/// Where the last `/`-separated segment of `s` starts: just after the last `/`, or at 0.
pub open spec fn segment_start(s: Seq<char>) -> int
    decreases s.len(),
{
    if s.len() == 0 {
        0
    } else if s.last() == '/' {
        s.len() as int
    } else {
        segment_start(s.drop_last())
    }
}

proof fn lemma_segment_start_bounds(s: Seq<char>)
    ensures
        0 <= segment_start(s) <= s.len(),
    decreases s.len(),
{
    if s.len() > 0 {
        lemma_segment_start_bounds(s.drop_last());
    }
}

/// The name shown for an asset: the last `/`-separated segment of its path.
pub open spec fn model_name_of(path: Seq<char>) -> Seq<char> {
    path.subrange(segment_start(path), path.len() as int)
}

/// The name shown for an asset: the last `/`-separated segment of its path (the whole path
/// where it holds no `/`).
pub fn model_name(path: &Vec<char>) -> (r: Vec<char>)
    ensures
        r@ == model_name_of(path@),
{
    let mut start: usize = 0;
    let mut i: usize = 0;
    while i < path.len()
        invariant
            i <= path@.len(),
            start as int == segment_start(path@.subrange(0, i as int)),
        decreases path.len() - i,
    {
        let ghost upto = path@.subrange(0, i + 1);
        assert(upto.drop_last() =~= path@.subrange(0, i as int));
        if path[i] == '/' {
            start = i + 1;
        }
        i = i + 1;
    }
    assert(path@.subrange(0, i as int) =~= path@);
    proof {
        lemma_segment_start_bounds(path@);
    }
    let mut name: Vec<char> = Vec::new();
    let mut j: usize = start;
    while j < path.len()
        invariant
            start <= j <= path@.len(),
            name@ == path@.subrange(start as int, j as int),
        decreases path.len() - j,
    {
        name.push(path[j]);
        j = j + 1;
        assert(name@ =~= path@.subrange(start as int, j as int));
    }
    name
}

impl Placer {
    /// Infers the kind of part from a path that is already lower case: `Wheel` where one of
    /// its tokens (split on `/` and `.`) is `wheel`, else `Hull`, whether a token names a hull
    /// or none names a kind.
    pub fn from_lowered(lower: &Vec<char>) -> (r: Placer)
        ensures
            r == classify(lower@),
    {
        Placer::infer_lowered(lower).0
    }

    /// Infers the kind of part from a path that is already lower case, with whether one of its
    /// tokens named a kind (`wheel` or `hull`); where none did, the kind is the default `Hull`.
    pub fn infer_lowered(lower: &Vec<char>) -> (r: (Placer, bool))
        ensures
            r.0 == classify(lower@),
            r.1 == (has_token(lower@, wheel_token()) || has_token(lower@, hull_token())),
    {
        let wheel: Vec<char> = vec!['w', 'h', 'e', 'e', 'l'];
        let hull: Vec<char> = vec!['h', 'u', 'l', 'l'];
        assert(wheel@ =~= wheel_token());
        assert(hull@ =~= hull_token());
        if contains_token(lower, &wheel) {
            (Placer::Wheel, true)
        } else if contains_token(lower, &hull) {
            (Placer::Hull, true)
        } else {
            (Placer::Hull, false)
        }
    }

    /// Infers the kind of part from an asset path, whatever its case, with whether one of its
    /// tokens named a kind; where none did, the kind is the default `Hull`.
    pub fn infer_from_path(path: &str) -> (r: (Placer, bool))
        ensures
            r.0 == classify(lower_of(path@)),
            r.1 == (has_token(lower_of(path@), wheel_token()) || has_token(
                lower_of(path@),
                hull_token(),
            )),
    {
        let lower = lowercase_chars(path);
        Placer::infer_lowered(&lower)
    }

    /// Infers the kind of part from an asset path, whatever its case.
    pub fn from_path(path: &str) -> (r: Placer)
        ensures
            r == classify(lower_of(path@)),
            path@.len() == 0 ==> r == Placer::Hull,
    {
        let lower = lowercase_chars(path);
        proof {
            if path@.len() == 0 {
                lemma_empty_is_hull(lower@);
            }
        }
        Placer::from_lowered(&lower)
    }

    /// The name of the kind, as it is shown to the user.
    pub fn label(&self) -> (r: &'static str)
        ensures
            r@ == (match self {
                Placer::Hull => "Hull"@,
                Placer::Wheel => "Wheel"@,
            }),
    {
        proof {
            reveal_strlit("Hull");
            reveal_strlit("Wheel");
        }
        match self {
            Placer::Hull => "Hull",
            Placer::Wheel => "Wheel",
        }
    }
}

/// A path one of whose tokens, once lower-cased, is `wheel` names a wheel.
pub proof fn lemma_wheel_token_is_wheel(lower: Seq<char>)
    requires
        has_token(lower, wheel_token()),
    ensures
        classify(lower) == Placer::Wheel,
{
}

/// A path with a `hull` token and no `wheel` token names a hull.
pub proof fn lemma_hull_token_is_hull(lower: Seq<char>)
    requires
        has_token(lower, hull_token()),
        !has_token(lower, wheel_token()),
    ensures
        classify(lower) == Placer::Hull,
{
}

/// A path with neither a `wheel` nor a `hull` token falls back to a hull.
pub proof fn lemma_no_token_is_hull(lower: Seq<char>)
    requires
        !has_token(lower, hull_token()),
        !has_token(lower, wheel_token()),
    ensures
        classify(lower) == Placer::Hull,
{
}

/// The kind depends on the path alone: equal paths give equal kinds.
pub proof fn lemma_classify_deterministic(a: Seq<char>, b: Seq<char>)
    requires
        a == b,
    ensures
        classify(lower_of(a)) == classify(lower_of(b)),
{
}

/// The empty path, or any path whose lower-case form is empty, names a hull.
pub proof fn lemma_empty_is_hull(lower: Seq<char>)
    requires
        lower.len() == 0,
    ensures
        classify(lower) == Placer::Hull,
{
    if has_token(lower, wheel_token()) {
        let i = choose|i: int| token_at(lower, i, wheel_token());
        assert(i + wheel_token().len() <= lower.len());
    }
}

impl Default for Placer {
    fn default() -> (r: Placer)
        ensures
            r == Placer::Hull,
    {
        Placer::Hull
    }
}

} // verus!
