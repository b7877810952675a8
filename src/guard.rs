//! Static guard: a cheap textual pre-filter applied to submitted code before
//! anything runs. It bounds the size and rejects a fixed list of
//! case-sensitive substrings. It is a deterrent, not a security boundary: the
//! containment comes from the sandbox's resource and network limits.
use vstd::prelude::*;
use crate::text::chars_of;
use vstd::string::StringSliceAdditionalSpecFns;

verus! {

/// Largest accepted code size, in bytes.
pub const MAX_CODE_BYTES: usize = 10000;

/// Substrings whose presence rejects the code.
pub open spec fn denied_patterns() -> Seq<Seq<char>> {
    seq![
        "os.system"@,
        "os.popen"@,
        "subprocess"@,
        "os.remove"@,
        "os.unlink"@,
        "shutil.rmtree"@,
        "shutdown"@,
        "rm -rf"@,
    ]
}

fn denied_pattern_list() -> (v: Vec<&'static str>)
    ensures
        v@.map_values(|p: &str| p@) == denied_patterns(),
{
    let v = vec![
        "os.system",
        "os.popen",
        "subprocess",
        "os.remove",
        "os.unlink",
        "shutil.rmtree",
        "shutdown",
        "rm -rf",
    ];
    assert(v@.map_values(|p: &str| p@) =~= denied_patterns());
    v
}

/// `p` occurs in `s` starting at `i`.
pub open spec fn occurs_at(s: Seq<char>, p: Seq<char>, i: int) -> bool {
    0 <= i && i + p.len() <= s.len() && s.subrange(i, i + p.len()) == p
}

pub open spec fn contains_seq(s: Seq<char>, p: Seq<char>) -> bool {
    exists|i: int| occurs_at(s, p, i)
}

/// Some denied pattern occurs in `code`.
pub open spec fn has_denied(code: Seq<char>) -> bool {
    exists|k: int| 0 <= k < denied_patterns().len() && contains_seq(code, denied_patterns()[k])
}

/// `k` indexes the first denied pattern that occurs in `code`.
pub open spec fn first_denied(code: Seq<char>, k: int) -> bool {
    &&& 0 <= k < denied_patterns().len()
    &&& contains_seq(code, denied_patterns()[k])
    &&& forall|j: int| 0 <= j < k ==> !contains_seq(code, #[trigger] denied_patterns()[j])
}

/// Code the guard lets through: at most `MAX_CODE_BYTES` bytes long and free
/// of every denied pattern.
pub open spec fn code_allowed(byte_len: nat, code: Seq<char>) -> bool {
    byte_len <= MAX_CODE_BYTES && !has_denied(code)
}

/// Why the guard refused some code.
#[derive(Debug, PartialEq, Eq)]
pub enum Rejection {
    TooLarge,
    Forbidden { pattern: String },
}

impl Rejection {
    /// The text reported to the caller.
    pub fn message(&self) -> (r: String)
        ensures
            self is TooLarge ==> r@ == "Code is too large!"@,
            self matches Rejection::Forbidden { pattern } ==> r@ == "Code contains a forbidden pattern: "@
                + pattern@,
    {
        match self {
            Rejection::TooLarge => String::from_str("Code is too large!"),
            Rejection::Forbidden { pattern } => {
                let mut r = String::from_str("Code contains a forbidden pattern: ");
                r.append(pattern.as_str());
                r
            },
        }
    }
}

fn matches_at(s: &Vec<char>, p: &Vec<char>, i: usize) -> (r: bool)
    requires
        i + p@.len() <= s@.len(),
    ensures
        r == occurs_at(s@, p@, i as int),
{
    let sl = s.len();
    let mut j: usize = 0;
    while j < p.len()
        invariant
            sl == s@.len(),
            i + p@.len() <= s@.len(),
            j <= p@.len(),
            forall|m: int| 0 <= m < j ==> s@[i + m] == p@[m],
        decreases p@.len() - j,
    {
        if s[i + j] != p[j] {
            assert(s@.subrange(i as int, i + p@.len())[j as int] != p@[j as int]);
            return false;
        }
        j = j + 1;
    }
    assert(s@.subrange(i as int, i + p@.len()) =~= p@);
    true
}

/// Whether `p` occurs in `s`.
fn contains_chars(s: &Vec<char>, p: &Vec<char>) -> (r: bool)
    ensures
        r == contains_seq(s@, p@),
{
    if p.len() == 0 {
        assert(s@.subrange(0, 0) =~= p@);
        assert(occurs_at(s@, p@, 0));
        return true;
    }
    if p.len() > s.len() {
        return false;
    }
    let sl = s.len();
    let last = sl - p.len();
    let mut i: usize = 0;
    while i <= last
        invariant
            sl == s@.len(),
            last == s@.len() - p@.len(),
            p@.len() > 0,
            forall|m: int| 0 <= m < i ==> !occurs_at(s@, p@, m),
        decreases last + 1 - i,
    {
        if matches_at(s, p, i) {
            return true;
        }
        i = i + 1;
    }
    false
}

/// Checks submitted code before anything is executed.
pub fn check_code(code: &str) -> (r: Result<(), Rejection>)
    ensures
        r is Ok <==> code_allowed(code.spec_bytes().len(), code@),
        r matches Err(Rejection::TooLarge) <==> code.spec_bytes().len() > MAX_CODE_BYTES,
        r matches Err(Rejection::Forbidden { pattern }) ==> exists|k: int|
            first_denied(code@, k) && denied_patterns()[k] == pattern@,
{
    if code.as_bytes().len() > MAX_CODE_BYTES {
        return Err(Rejection::TooLarge);
    }
    let chars = chars_of(code);
    let pats = denied_pattern_list();
    let mut k: usize = 0;
    while k < pats.len()
        invariant
            chars@ == code@,
            code.spec_bytes().len() <= MAX_CODE_BYTES,
            pats@.map_values(|p: &str| p@) == denied_patterns(),
            k <= pats@.len(),
            forall|m: int| 0 <= m < k ==> !contains_seq(code@, #[trigger] denied_patterns()[m]),
        decreases pats@.len() - k,
    {
        let p = chars_of(pats[k]);
        assert(denied_patterns()[k as int] == pats@[k as int]@);
        if contains_chars(&chars, &p) {
            assert(first_denied(code@, k as int));
            return Err(Rejection::Forbidden { pattern: String::from_str(pats[k]) });
        }
        k = k + 1;
    }
    assert(!has_denied(code@));
    Ok(())
}

/// Code longer than `MAX_CODE_BYTES` bytes is refused whatever it holds.
pub proof fn lemma_oversized_rejected(byte_len: nat, code: Seq<char>)
    requires
        byte_len > MAX_CODE_BYTES,
    ensures
        !code_allowed(byte_len, code),
{
}

} // verus!
