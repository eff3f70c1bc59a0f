//! The binding of a project to an external repository, written `owner/repo`.

use vstd::prelude::*;

verus! {

/// Whether `s` holds no separator `/`.
pub open spec fn has_no_separator(s: Seq<char>) -> bool {
    forall|i: int| 0 <= i < s.len() ==> s[i] != '/'
}

/// Whether `s` holds two separators or more.
pub open spec fn has_two_separators(s: Seq<char>) -> bool {
    exists|i: int, j: int| 0 <= i < j < s.len() && s[i] == '/' && s[j] == '/'
}

/// Whether `s` is `owner`, one separator, then `repo`, both parts non-empty
/// and free of separators.
pub open spec fn splits_into(s: Seq<char>, owner: Seq<char>, repo: Seq<char>) -> bool {
    &&& owner.len() > 0
    &&& repo.len() > 0
    &&& has_no_separator(owner)
    &&& has_no_separator(repo)
    &&& s == owner + seq!['/'] + repo
}

/// Whether `s` is a well-formed binding.
pub open spec fn is_valid_binding(s: Seq<char>) -> bool {
    exists|owner: Seq<char>, repo: Seq<char>| splits_into(s, owner, repo)
}

/// Why a binding was refused.
#[derive(Debug, Clone, Copy, PartialEq, Eq, Structural)]
pub enum BindingError {
    /// No `/` in the binding.
    MissingSeparator,
    /// Nothing before the `/`.
    EmptyOwner,
    /// Nothing after the last `/`.
    EmptyRepository,
    /// More than one `/`.
    ExtraSeparator,
}

/// The error that a binding gets, checked in this order; `None` for a
/// well-formed one.
pub open spec fn binding_error(s: Seq<char>) -> Option<BindingError> {
    if has_no_separator(s) {
        Some(BindingError::MissingSeparator)
    } else if s[0] == '/' {
        Some(BindingError::EmptyOwner)
    } else if s.last() == '/' {
        Some(BindingError::EmptyRepository)
    } else if has_two_separators(s) {
        Some(BindingError::ExtraSeparator)
    } else {
        None
    }
}

/// The two parts of a well-formed binding.
#[derive(Debug, Clone)]
pub struct RepositoryRef {
    pub owner: String,
    pub repo: String,
}

proof fn lemma_valid_iff_no_error(s: Seq<char>)
    ensures
        is_valid_binding(s) <==> binding_error(s) is None,
{
    if is_valid_binding(s) {
        let (o, r) = choose|o: Seq<char>, r: Seq<char>| splits_into(s, o, r);
        let k = o.len() as int;
        assert(s[k] == '/');
        assert(s[0] == o[0]);
        assert(s.last() == r.last());
        assert forall|i: int, j: int| 0 <= i < j < s.len() && s[i] == '/' implies s[j] != '/' by {
            if i < k {
                assert(s[i] == o[i]);
            } else if i > k {
                assert(s[i] == r[i - k - 1]);
            }
            assert(j > k);
            assert(s[j] == r[j - k - 1]);
        }
    } else if binding_error(s) is None {
        let k = choose|k: int| 0 <= k < s.len() && s[k] == '/';
        let o = s.take(k);
        let r = s.skip(k + 1);
        assert forall|i: int| 0 <= i < o.len() implies o[i] != '/' by {
            assert(!(0 <= i < k && s[i] == '/' && s[k] == '/'));
        }
        assert forall|i: int| 0 <= i < r.len() implies r[i] != '/' by {
            assert(!(0 <= k < i + k + 1 < s.len() && s[k] == '/' && s[i + k + 1] == '/'));
        }
        assert(s == o + seq!['/'] + r);
        assert(splits_into(s, o, r));
    }
}

/// Splits a binding into owner and repository.
pub fn parse_repository(binding: &str) -> (r: Result<RepositoryRef, BindingError>)
    ensures
        r is Ok <==> is_valid_binding(binding@),
        r is Ok <==> binding_error(binding@) is None,
        r matches Ok(parts) ==> splits_into(binding@, parts.owner@, parts.repo@),
        r matches Err(e) ==> binding_error(binding@) == Some(e),
{
    proof {
        lemma_valid_iff_no_error(binding@);
    }
    let n = binding.unicode_len();
    let ghost s = binding@;
    // the first separator, and whether a second one was seen
    let mut first: Option<usize> = None;
    let mut second = false;
    let mut i: usize = 0;
    while i < n
        invariant
            n == s.len(),
            s == binding@,
            i <= n,
            first is None ==> has_no_separator(s.take(i as int)),
            first matches Some(k) ==> k < i && s[k as int] == '/'
                && has_no_separator(s.take(k as int)),
            first is None ==> !second,
            second ==> has_two_separators(s),
            (first is Some && !second) ==> forall|j: int|
                first->0 < j < i ==> s[j] != '/',
        decreases n - i,
    {
        if binding.get_char(i) == '/' {
            match first {
                None => {
                    first = Some(i);
                },
                Some(k) => {
                    assert(0 <= k < i < s.len() && s[k as int] == '/' && s[i as int] == '/');
                    second = true;
                },
            }
        }
        i = i + 1;
        assert forall|j: int| 0 <= j < i && first is None implies s.take(i as int)[j] != '/' by {
            if j < i - 1 {
                assert(s.take(i - 1)[j] == s[j]);
            }
        }
    }
    match first {
        None => {
            assert forall|j: int| 0 <= j < s.len() implies s[j] != '/' by {
                assert(s.take(n as int)[j] == s[j]);
            }
            assert(has_no_separator(s));
            Err(BindingError::MissingSeparator)
        },
        Some(k) => {
            if k == 0 {
                Err(BindingError::EmptyOwner)
            } else if k + 1 == n {
                assert(s.last() == '/');
                Err(BindingError::EmptyRepository)
            } else if second {
                if binding.get_char(n - 1) == '/' {
                    Err(BindingError::EmptyRepository)
                } else {
                    Err(BindingError::ExtraSeparator)
                }
            } else {
                assert(s[0] != '/') by {
                    assert(s.take(k as int)[0] == s[0]);
                }
                assert(!has_two_separators(s)) by {
                    if has_two_separators(s) {
                        let (a, b) = choose|a: int, b: int|
                            0 <= a < b < s.len() && s[a] == '/' && s[b] == '/';
                        if a < k {
                            assert(s.take(k as int)[a] == s[a]);
                        }
                    }
                }
                if binding.get_char(n - 1) == '/' {
                    Err(BindingError::EmptyRepository)
                } else {
                    let owner = binding.substring_char(0, k).to_owned();
                    let repo = binding.substring_char(k + 1, n).to_owned();
                    assert(s == owner@ + seq!['/'] + repo@);
                    Ok(RepositoryRef { owner, repo })
                }
            }
        },
    }
}

} // verus!
