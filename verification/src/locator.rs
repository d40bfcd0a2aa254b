//! Endpoint descriptors and the locator parser.
//!
//! A descriptor denotes a remote object exactly when it begins with the
//! scheme prefix `s3://`. The remainder is split on the first `/` into a
//! bucket and a key, both of which must be non-empty; the key may itself
//! contain further `/` characters. A descriptor without the prefix is
//! classified as a local path with no further validation.

use vstd::prelude::*;

use crate::error::{ErrorView, TransferError};

verus! {

/// Mathematical image of a [`RemoteLocator`].
#[verifier::ext_equal]
pub struct LocatorView {
    pub bucket: Seq<char>,
    pub key: Seq<char>,
}

impl LocatorView {
    /// The locator invariant: both parts are non-empty.
    pub open spec fn well_formed(self) -> bool {
        self.bucket.len() > 0 && self.key.len() > 0
    }
}

/// A resolved reference to an object in the storage service.
///
/// Invariant: both fields are non-empty. Locators are constructed only by
/// the parser, from a descriptor matching the remote scheme, and never
/// mutated.
#[derive(Debug, PartialEq, Eq)]
pub struct RemoteLocator {
    pub bucket: String,
    pub key: String,
}

impl View for RemoteLocator {
    type V = LocatorView;

    open spec fn view(&self) -> LocatorView {
        LocatorView { bucket: self.bucket@, key: self.key@ }
    }
}

/// Mathematical image of an [`EndpointClassification`].
#[verifier::ext_equal]
pub enum ClassificationView {
    Remote(LocatorView),
    Local(Seq<char>),
}

/// What one endpoint descriptor denotes: a remote object, or an opaque
/// local filesystem path (validated only at I/O time, not by the parser).
#[derive(Debug, PartialEq, Eq)]
pub enum EndpointClassification {
    Remote(RemoteLocator),
    Local(String),
}

impl View for EndpointClassification {
    type V = ClassificationView;

    open spec fn view(&self) -> ClassificationView {
        match self {
            EndpointClassification::Remote(loc) => ClassificationView::Remote(loc@),
            EndpointClassification::Local(path) => ClassificationView::Local(path@),
        }
    }
}

/// The remote scheme prefix, as a character sequence.
pub open spec fn remote_prefix() -> Seq<char> {
    seq!['s', '3', ':', '/', '/']
}

/// True when the descriptor begins with the scheme prefix `s3://`.
pub open spec fn has_remote_prefix(s: Seq<char>) -> bool {
    s.len() >= 5 && s[0] == 's' && s[1] == '3' && s[2] == ':' && s[3] == '/' && s[4] == '/'
}

/// `i` is the position of the first `/` in `s`.
pub open spec fn is_first_slash(s: Seq<char>, i: int) -> bool {
    &&& 0 <= i < s.len()
    &&& s[i] == '/'
    &&& forall|j: int| 0 <= j < i ==> s[j] != '/'
}

/// The first-slash position is unique.
pub proof fn lemma_first_slash_unique(s: Seq<char>, i: int, j: int)
    requires
        is_first_slash(s, i),
        is_first_slash(s, j),
    ensures
        i == j,
{
    if i < j {
        assert(s[i] != '/');
    }
    if j < i {
        assert(s[j] != '/');
    }
}

/// What parsing a descriptor that carries the remote prefix yields: the
/// remainder after the prefix, split on its first `/`, provided the bucket
/// part and the key part are both non-empty; `None` where the split fails.
pub open spec fn spec_parse_remote(s: Seq<char>) -> Option<LocatorView>
    recommends
        has_remote_prefix(s),
{
    let rest = s.subrange(5, s.len() as int);
    if exists|i: int| is_first_slash(rest, i) {
        let i = choose|i: int| is_first_slash(rest, i);
        if 0 < i && i + 1 < rest.len() {
            Some(
                LocatorView {
                    bucket: rest.subrange(0, i),
                    key: rest.subrange(i + 1, rest.len() as int),
                },
            )
        } else {
            None
        }
    } else {
        None
    }
}

/// A parsed remote locator is well formed.
pub proof fn lemma_parse_remote_well_formed(s: Seq<char>)
    ensures
        spec_parse_remote(s) matches Some(loc) ==> loc.well_formed(),
{
}

/// True exactly when the descriptor begins with the scheme prefix `s3://`.
pub fn is_remote_descriptor(descriptor: &str) -> (r: bool)
    ensures
        r == has_remote_prefix(descriptor@),
{
    let n = descriptor.unicode_len();
    if n < 5 {
        return false;
    }
    descriptor.get_char(0) == 's' && descriptor.get_char(1) == '3' && descriptor.get_char(2)
        == ':' && descriptor.get_char(3) == '/' && descriptor.get_char(4) == '/'
}

/// Parses a descriptor of the form `s3://bucket/key` into a remote locator.
///
/// Fails with `MalformedRemoteLocator` when the prefix is missing, when the
/// remainder has no `/` separator, or when the bucket or the key is empty.
pub fn parse_s3_path(path: &str) -> (r: Result<RemoteLocator, TransferError>)
    ensures
        !has_remote_prefix(path@) ==> (r matches Err(e) && e@ == ErrorView::MalformedRemoteLocator),
        has_remote_prefix(path@) ==> (match spec_parse_remote(path@) {
            Some(loc) => r matches Ok(l) && l@ == loc,
            None => r matches Err(e) && e@ == ErrorView::MalformedRemoteLocator,
        }),
        r matches Ok(l) ==> has_remote_prefix(path@) && l@.well_formed(),
{
    if !is_remote_descriptor(path) {
        return Err(TransferError::MalformedRemoteLocator);
    }
    let n = path.unicode_len();
    let ghost rest = path@.subrange(5, n as int);

    // Scan for the first '/' after the prefix.
    let mut i: usize = 5;
    while i < n && path.get_char(i) != '/'
        invariant
            5 <= i <= n,
            n == path@.len(),
            has_remote_prefix(path@),
            rest == path@.subrange(5, n as int),
            forall|j: int| 5 <= j < i ==> path@[j] != '/',
        decreases n - i,
    {
        i = i + 1;
    }

    if i == n {
        // The remainder holds no separator at all.
        proof {
            assert forall|k: int| !is_first_slash(rest, k) by {
                if 0 <= k < rest.len() {
                    assert(rest[k] == path@[k + 5]);
                }
            }
        }
        return Err(TransferError::MalformedRemoteLocator);
    }

    // The first '/' of the remainder stands at offset i - 5.
    proof {
        assert(rest[i - 5] == path@[i as int]);
        assert forall|j: int| 0 <= j < i - 5 implies rest[j] != '/' by {
            assert(rest[j] == path@[j + 5]);
        }
        assert(is_first_slash(rest, i - 5));
        let k = choose|k: int| is_first_slash(rest, k);
        lemma_first_slash_unique(rest, k, i - 5);
    }

    if i == 5 {
        // Empty bucket.
        return Err(TransferError::MalformedRemoteLocator);
    }
    if i + 1 == n {
        // Empty key.
        return Err(TransferError::MalformedRemoteLocator);
    }

    let bucket = path.substring_char(5, i).to_owned();
    let key = path.substring_char(i + 1, n).to_owned();
    proof {
        assert(bucket@ =~= rest.subrange(0, i - 5));
        assert(key@ =~= rest.subrange(i - 5 + 1, rest.len() as int));
        assert(RemoteLocator { bucket: bucket, key: key }@ =~= spec_parse_remote(
            path@,
        )->Some_0);
    }
    Ok(RemoteLocator { bucket, key })
}

/// What classifying a descriptor yields: a remote locator where the prefix
/// is present and the split succeeds, a failure where the prefix is present
/// and the split fails, and the descriptor itself as a local path otherwise.
pub open spec fn spec_classify(s: Seq<char>) -> Result<ClassificationView, ErrorView> {
    if has_remote_prefix(s) {
        match spec_parse_remote(s) {
            Some(loc) => Ok(ClassificationView::Remote(loc)),
            None => Err(ErrorView::MalformedRemoteLocator),
        }
    } else {
        Ok(ClassificationView::Local(s))
    }
}

/// The result of [`classify_endpoint`], abstracted to views.
pub open spec fn classification_result_view(
    r: Result<EndpointClassification, TransferError>,
) -> Result<ClassificationView, ErrorView> {
    match r {
        Ok(c) => Ok(c@),
        Err(e) => Err(e@),
    }
}

/// Classifies one endpoint descriptor as remote or local.
///
/// Pure in its input: a descriptor with the remote prefix is parsed into a
/// locator or rejected as malformed; any other descriptor is a local path,
/// regardless of content.
pub fn classify_endpoint(descriptor: &str) -> (r: Result<EndpointClassification, TransferError>)
    ensures
        classification_result_view(r) == spec_classify(descriptor@),
{
    if is_remote_descriptor(descriptor) {
        match parse_s3_path(descriptor) {
            Ok(loc) => Ok(EndpointClassification::Remote(loc)),
            Err(e) => Err(e),
        }
    } else {
        Ok(EndpointClassification::Local(descriptor.to_owned()))
    }
}

/// Law: a descriptor assembled as `s3://` + bucket + `/` + key, with a
/// non-empty bucket that contains no `/` and a non-empty key, classifies as
/// exactly that remote locator.
pub proof fn lemma_classify_remote_descriptor(bucket: Seq<char>, key: Seq<char>)
    requires
        bucket.len() > 0,
        key.len() > 0,
        forall|i: int| 0 <= i < bucket.len() ==> bucket[i] != '/',
    ensures
        spec_classify(remote_prefix() + bucket + seq!['/'] + key) == Ok::<
            ClassificationView,
            ErrorView,
        >(ClassificationView::Remote(LocatorView { bucket, key })),
{
    let s = remote_prefix() + bucket + seq!['/'] + key;
    assert(s[0] == 's' && s[1] == '3' && s[2] == ':' && s[3] == '/' && s[4] == '/');
    assert(has_remote_prefix(s));
    let rest = s.subrange(5, s.len() as int);
    assert(rest =~= bucket + seq!['/'] + key);
    let b = bucket.len() as int;
    assert(rest[b] == '/');
    assert forall|j: int| 0 <= j < b implies rest[j] != '/' by {
        assert(rest[j] == bucket[j]);
    }
    assert(is_first_slash(rest, b));
    let k = choose|i: int| is_first_slash(rest, i);
    lemma_first_slash_unique(rest, k, b);
    assert(rest.subrange(0, b) =~= bucket);
    assert(rest.subrange(b + 1, rest.len() as int) =~= key);
    assert(spec_parse_remote(s)->Some_0 =~= LocatorView { bucket, key });
}

/// Law: a descriptor without the remote prefix classifies as a local path,
/// whatever its content.
pub proof fn lemma_classify_local_descriptor(s: Seq<char>)
    requires
        !has_remote_prefix(s),
    ensures
        spec_classify(s) == Ok::<ClassificationView, ErrorView>(ClassificationView::Local(s)),
{
}

} // verus!
