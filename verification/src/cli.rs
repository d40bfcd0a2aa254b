//! The command surface: the parsed command-line commands, and the decisions
//! the listing and deletion commands make.
//!
//! Argument parsing itself (flags, help text) is done by the unverified
//! shell, which hands the library these plain values.

use vstd::prelude::*;

verus! {

/// The three subcommands of the tool.
#[derive(Debug, PartialEq, Eq)]
pub enum Commands {
    /// List the keys in `bucket`, or all buckets when `bucket` is omitted.
    Ls { bucket: Option<String> },
    /// Copy one object/file from `source` to `destination`; at least one
    /// side must be a remote locator.
    Cp { source: String, destination: String },
    /// Delete the object `s3_object` from `bucket`, or, after interactive
    /// confirmation, the whole bucket when `s3_object` is omitted.
    Rm { bucket: String, s3_object: Option<String> },
}

/// The whole command line: one subcommand per invocation.
#[derive(Debug, PartialEq, Eq)]
pub struct Cli {
    pub commands: Commands,
}

/// What the listing command does.
#[derive(Debug, PartialEq, Eq)]
pub enum LsPlan {
    /// List all storage containers.
    ListBuckets,
    /// List the keys contained in this bucket.
    ListObjects { bucket: String },
}

/// Resolves the listing command's optional bucket argument into its plan.
pub fn plan_ls(bucket: Option<String>) -> (r: LsPlan)
    ensures
        bucket matches Some(b) ==> (r matches LsPlan::ListObjects { bucket: rb } && rb@ == b@),
        bucket is None ==> r is ListBuckets,
{
    match bucket {
        Some(b) => LsPlan::ListObjects { bucket: b },
        None => LsPlan::ListBuckets,
    }
}

/// The label a listing prints for one object: its key, or `N/A` where the
/// service returned none.
pub fn object_label(key: Option<String>) -> (r: String)
    ensures
        key matches Some(k) ==> r@ == k@,
        key is None ==> r@ == "N/A"@,
{
    match key {
        Some(k) => k,
        None => String::from_str("N/A"),
    }
}

/// What the deletion command does first.
#[derive(Debug, PartialEq, Eq)]
pub enum RmPlan {
    /// Delete this one object, with no confirmation prompt.
    DeleteObject { bucket: String, key: String },
    /// Prompt for confirmation before deleting this whole bucket.
    ConfirmBucketDeletion { bucket: String },
}

/// Resolves the deletion command's arguments into its plan: a named object
/// is deleted outright; a bare bucket is deleted only after confirmation.
pub fn plan_rm(bucket: String, s3_object: Option<String>) -> (r: RmPlan)
    ensures
        s3_object matches Some(k) ==> (r matches RmPlan::DeleteObject { bucket: rb, key }
            && rb@ == bucket@ && key@ == k@),
        s3_object is None ==> (r matches RmPlan::ConfirmBucketDeletion { bucket: rb } && rb@
            == bucket@),
{
    match s3_object {
        Some(key) => RmPlan::DeleteObject { bucket, key },
        None => RmPlan::ConfirmBucketDeletion { bucket },
    }
}

/// An ASCII whitespace character, as line input carries it.
pub open spec fn is_ascii_space(c: char) -> bool {
    c == ' ' || c == '\t' || c == '\r' || c == '\n'
}

/// A confirmation input is accepted exactly when, ignoring surrounding
/// whitespace, it is the single letter `y` or `Y`: one position holds that
/// letter and every other position holds whitespace.
pub open spec fn accepts_confirmation(s: Seq<char>) -> bool {
    exists|i: int|
        0 <= i < s.len() && ((#[trigger] s[i]) == 'y' || s[i] == 'Y') && (forall|j: int|
            0 <= j < s.len() && j != i ==> is_ascii_space(#[trigger] s[j]))
}

/// True exactly when `c` is ASCII whitespace.
fn is_space_char(c: char) -> (r: bool)
    ensures
        r == is_ascii_space(c),
{
    c == ' ' || c == '\t' || c == '\r' || c == '\n'
}

/// Decides an interactive confirmation line: only `y` or `Y` (surrounded by
/// nothing but whitespace, as a line read from the terminal is) proceeds;
/// any other input — the empty default included — declines.
pub fn confirmation_accepts(input: &str) -> (r: bool)
    ensures
        r == accepts_confirmation(input@),
{
    let n = input.unicode_len();

    // Find the first non-whitespace character.
    let mut i: usize = 0;
    while i < n && is_space_char(input.get_char(i))
        invariant
            0 <= i <= n,
            n == input@.len(),
            forall|j: int| 0 <= j < i ==> is_ascii_space(#[trigger] input@[j]),
        decreases n - i,
    {
        i = i + 1;
    }

    if i == n {
        // Nothing but whitespace: no position can hold the letter.
        proof {
            assert forall|m: int|
                !(0 <= m < input@.len() && (input@[m] == 'y' || input@[m] == 'Y') && (forall|
                    j: int,
                |
                    0 <= j < input@.len() && j != m ==> is_ascii_space(input@[j]))) by {
                if 0 <= m < input@.len() {
                    assert(is_ascii_space(input@[m]));
                }
            }
        }
        return false;
    }
    let first = input.get_char(i);
    if !(first == 'y' || first == 'Y') {
        // The first non-whitespace character is something else: whichever
        // position were the letter, position i would still violate the
        // all-whitespace-elsewhere condition.
        proof {
            assert forall|m: int|
                !(0 <= m < input@.len() && (input@[m] == 'y' || input@[m] == 'Y') && (forall|
                    j: int,
                |
                    0 <= j < input@.len() && j != m ==> is_ascii_space(input@[j]))) by {
                if 0 <= m < input@.len() && (input@[m] == 'y' || input@[m] == 'Y') {
                    assert(m != i);
                    assert(!is_ascii_space(input@[i as int]));
                }
            }
        }
        return false;
    }

    // Check that everything after the letter is whitespace.
    let mut k: usize = i + 1;
    while k < n && is_space_char(input.get_char(k))
        invariant
            i + 1 <= k <= n,
            n == input@.len(),
            forall|j: int| i + 1 <= j < k ==> is_ascii_space(#[trigger] input@[j]),
        decreases n - k,
    {
        k = k + 1;
    }

    if k == n {
        proof {
            assert(forall|j: int|
                0 <= j < input@.len() && j != i ==> is_ascii_space(#[trigger] input@[j]));
            assert(input@[i as int] == 'y' || input@[i as int] == 'Y');
        }
        true
    } else {
        // A second non-whitespace character stands at k.
        proof {
            assert forall|m: int|
                !(0 <= m < input@.len() && (input@[m] == 'y' || input@[m] == 'Y') && (forall|
                    j: int,
                |
                    0 <= j < input@.len() && j != m ==> is_ascii_space(input@[j]))) by {
                if 0 <= m < input@.len() && (input@[m] == 'y' || input@[m] == 'Y') {
                    if m == k {
                        assert(!is_ascii_space(input@[i as int]));
                    } else {
                        assert(!is_ascii_space(input@[k as int]));
                    }
                }
            }
        }
        false
    }
}

} // verus!
