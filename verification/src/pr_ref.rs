//! The git references that name a pull request by its number:
//! `refs/pull/<digits>/head` and `refs/pull/<digits>/merge`.

use vstd::prelude::*;
use vstd::string::*;

use crate::decimal::{
    all_digits, decimal_text, decimal_value, is_digit, is_digit_char, lemma_decimal_round_trip,
    parse_decimal,
};
use crate::text::{chars_of, matches_at, occurs_at, text_option};

verus! {

/// What a pull-request reference begins with.
pub open spec fn pr_ref_lead() -> Seq<char> {
    "refs/pull/"@
}

/// How the reference to a pull request's head ends.
pub open spec fn pr_ref_head() -> Seq<char> {
    "/head"@
}

/// How the reference to a pull request's merge commit ends.
pub open spec fn pr_ref_merge() -> Seq<char> {
    "/merge"@
}

/// `git_ref` is a pull-request reference whose number is written `digits`:
/// the lead, one digit or more, then one of the two endings, and nothing
/// else before, between or after.
pub open spec fn is_pr_ref(git_ref: Seq<char>, digits: Seq<char>) -> bool {
    &&& digits.len() > 0
    &&& all_digits(digits)
    &&& (git_ref == pr_ref_lead() + digits + pr_ref_head() || git_ref == pr_ref_lead() + digits
        + pr_ref_merge())
}

/// The digits of the pull-request reference `git_ref`; `None` if it is none.
pub open spec fn pr_ref_digits_of(git_ref: Seq<char>) -> Option<Seq<char>> {
    if exists|digits: Seq<char>| is_pr_ref(git_ref, digits) {
        Some(choose|digits: Seq<char>| is_pr_ref(git_ref, digits))
    } else {
        None
    }
}

/// What a git reference says by itself of its pull request.
#[derive(Clone, Copy, Debug, PartialEq, Eq, Structural)]
pub enum NamedPr {
    /// The reference is no pull-request reference.
    NotNamed,
    /// The reference is that of the pull request with this number.
    Number(u64),
    /// The reference has the shape of a pull-request reference, but its
    /// digits write a number beyond 64 bits.
    OutOfRange,
}

/// The pull request that a run of digits names.
pub open spec fn named_by_digits(digits: Seq<char>) -> NamedPr {
    if decimal_value(digits) <= u64::MAX {
        NamedPr::Number(decimal_value(digits) as u64)
    } else {
        NamedPr::OutOfRange
    }
}

/// What the reference `git_ref` says by itself of its pull request.
pub open spec fn pr_number_of(git_ref: Seq<char>) -> NamedPr {
    match pr_ref_digits_of(git_ref) {
        None => NamedPr::NotNamed,
        Some(digits) => named_by_digits(digits),
    }
}

/// Where the digits of a pull-request reference end: at the first character
/// after the lead that is no digit.
proof fn lemma_digits_end(git_ref: Seq<char>, digits: Seq<char>, end: int)
    requires
        is_pr_ref(git_ref, digits),
        pr_ref_lead().len() <= end <= git_ref.len(),
        forall|k: int| pr_ref_lead().len() <= k < end ==> is_digit(git_ref[k]),
        end == git_ref.len() || !is_digit(git_ref[end]),
    ensures
        end == pr_ref_lead().len() + digits.len(),
        digits == git_ref.subrange(pr_ref_lead().len() as int, end),
        occurs_at(git_ref, pr_ref_lead(), 0),
        git_ref == pr_ref_lead() + digits + pr_ref_head() ==> occurs_at(git_ref, pr_ref_head(), end)
            && end + pr_ref_head().len() == git_ref.len(),
        git_ref == pr_ref_lead() + digits + pr_ref_merge() ==> occurs_at(
            git_ref,
            pr_ref_merge(),
            end,
        ) && end + pr_ref_merge().len() == git_ref.len(),
{
    reveal_strlit("refs/pull/");
    reveal_strlit("/head");
    reveal_strlit("/merge");
    let lead = pr_ref_lead().len() as int;
    let stop = lead + digits.len();
    assert(git_ref.subrange(0, lead) =~= pr_ref_lead());
    assert forall|k: int| lead <= k < stop implies is_digit(git_ref[k]) by {
        assert(git_ref[k] == digits[k - lead]);
    }
    assert(git_ref[stop] == '/');
    assert(!is_digit(git_ref[stop]));
    if end < stop {
        assert(is_digit(git_ref[end]));
    }
    if stop < end {
        assert(is_digit(git_ref[stop]));
    }
    assert(git_ref.subrange(lead, end) =~= digits);
    if git_ref == pr_ref_lead() + digits + pr_ref_head() {
        assert(git_ref.subrange(end, end + pr_ref_head().len()) =~= pr_ref_head());
    }
    if git_ref == pr_ref_lead() + digits + pr_ref_merge() {
        assert(git_ref.subrange(end, end + pr_ref_merge().len()) =~= pr_ref_merge());
    }
}

/// A pull-request reference has one run of digits and no other.
pub proof fn lemma_pr_ref_digits_unique(git_ref: Seq<char>, a: Seq<char>, b: Seq<char>)
    requires
        is_pr_ref(git_ref, a),
        is_pr_ref(git_ref, b),
    ensures
        a == b,
        pr_ref_digits_of(git_ref) == Some(a),
{
    reveal_strlit("refs/pull/");
    reveal_strlit("/head");
    reveal_strlit("/merge");
    let lead = pr_ref_lead().len() as int;
    let end = lead + a.len();
    assert forall|k: int| lead <= k < end implies is_digit(git_ref[k]) by {
        assert(git_ref[k] == a[k - lead]);
    }
    assert(git_ref[end] == '/');
    lemma_digits_end(git_ref, a, end);
    lemma_digits_end(git_ref, b, end);
    let chosen = choose|digits: Seq<char>| is_pr_ref(git_ref, digits);
    lemma_digits_end(git_ref, chosen, end);
}

/// A reference that is the lead, a run of digits and one of the two
/// endings names the number that the digits write, unless that number is
/// beyond 64 bits.
pub proof fn lemma_pr_ref_names_its_number(digits: Seq<char>, merge: bool)
    requires
        digits.len() > 0,
        all_digits(digits),
    ensures
        pr_number_of(
            pr_ref_lead() + digits + if merge {
                pr_ref_merge()
            } else {
                pr_ref_head()
            },
        ) == named_by_digits(digits),
{
    let git_ref = pr_ref_lead() + digits + if merge {
        pr_ref_merge()
    } else {
        pr_ref_head()
    };
    assert(is_pr_ref(git_ref, digits));
    lemma_pr_ref_digits_unique(git_ref, digits, digits);
}

/// The two references of the pull request `n` name `n`.
pub proof fn lemma_pr_ref_of_number(n: u64)
    ensures
        pr_number_of(pr_ref_lead() + decimal_text(n as nat) + pr_ref_head()) == NamedPr::Number(n),
        pr_number_of(pr_ref_lead() + decimal_text(n as nat) + pr_ref_merge()) == NamedPr::Number(n),
{
    lemma_decimal_round_trip(n as nat);
    lemma_pr_ref_names_its_number(decimal_text(n as nat), false);
    lemma_pr_ref_names_its_number(decimal_text(n as nat), true);
}

/// The digits of a pull-request reference, as the reference writes them;
/// `None` for every other reference.
pub fn pr_ref_digits(git_ref: &str) -> (r: Option<String>)
    ensures
        text_option(r) == pr_ref_digits_of(git_ref@),
{
    let chars = chars_of(git_ref);
    let lead = chars_of("refs/pull/");
    let head = chars_of("/head");
    let merge = chars_of("/merge");
    let n = chars.len();
    if !matches_at(&chars, &lead, 0) {
        proof {
            assert forall|digits: Seq<char>| !is_pr_ref(chars@, digits) by {
                if is_pr_ref(chars@, digits) {
                    assert(chars@.subrange(0, lead@.len() as int) =~= lead@);
                }
            }
        }
        return None;
    }
    let start = lead.len();
    let mut end: usize = start;
    while end < n && is_digit_char(chars[end])
        invariant
            start <= end <= n,
            n == chars.len(),
            forall|k: int| start <= k < end ==> is_digit(chars@[k]),
        decreases n - end,
    {
        end += 1;
    }
    let head_follows = matches_at(&chars, &head, end) && n - end == head.len();
    let merge_follows = matches_at(&chars, &merge, end) && n - end == merge.len();
    if end > start && (head_follows || merge_follows) {
        let digits = git_ref.substring_char(start, end).to_owned();
        proof {
            let tail = if head_follows {
                head@
            } else {
                merge@
            };
            assert(chars@ =~= lead@ + digits@ + tail);
            assert(is_pr_ref(chars@, digits@));
            lemma_pr_ref_digits_unique(chars@, digits@, digits@);
        }
        Some(digits)
    } else {
        proof {
            assert forall|digits: Seq<char>| !is_pr_ref(chars@, digits) by {
                if is_pr_ref(chars@, digits) {
                    lemma_digits_end(chars@, digits, end as int);
                }
            }
        }
        None
    }
}

/// Whether `git_ref` is a pull-request reference.
pub fn is_pr_ref_text(git_ref: &str) -> (r: bool)
    ensures
        r == pr_ref_digits_of(git_ref@).is_some(),
{
    pr_ref_digits(git_ref).is_some()
}

/// What `git_ref` says by itself of its pull request.
pub fn pr_number_from_ref(git_ref: &str) -> (r: NamedPr)
    ensures
        r == pr_number_of(git_ref@),
{
    match pr_ref_digits(git_ref) {
        None => NamedPr::NotNamed,
        Some(digits) => {
            assert(is_pr_ref(git_ref@, digits@));
            match parse_decimal(digits.as_str()) {
                Ok(n) => NamedPr::Number(n),
                Err(_) => NamedPr::OutOfRange,
            }
        },
    }
}

} // verus!
