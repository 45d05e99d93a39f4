//! Planning link creation: where a link goes, which requests are refused
//! and why, and the on-disk layout of a directory junction.

use vstd::prelude::*;
use crate::path::{file_name, join, spec_file_name, spec_join};
use crate::state::PickedSource;
use crate::text::push_str;

verus! {

/// The kinds of link that can be created.
#[derive(Debug, Clone, Copy, PartialEq, Eq, Structural)]
pub enum LinkKind {
    Symbolic,
    RelativeSymbolic,
    Junction,
    HardLink,
}

/// Why a link was not created. Paths are carried as text.
#[derive(Debug)]
pub enum LinkError {
    JunctionNeedsDirectory(String),
    MissingTargetDirectory(String),
    DestinationExists(String),
    MissingFileName(String),
    /// The platform refused to create the link; `os_error` is the raw
    /// operating-system error code where there is one.
    CreateFailed { source: String, destination: String, os_error: Option<i32>, detail: String },
}

/// Where a link to `source` lands inside `target_dir`: the directory with
/// the source's final component pushed onto it.
pub fn destination_for(target_dir: &str, source: &str) -> (r: Result<String, LinkError>)
    ensures
        match spec_file_name(source@) {
            Some(name) => r matches Ok(d) && d@ == spec_join(target_dir@, name),
            None => r matches Err(LinkError::MissingFileName(p)) && p@ == source@,
        },
{
    match file_name(source) {
        Some(name) => Ok(join(target_dir, name.as_str())),
        None => Err(LinkError::MissingFileName(source.to_string())),
    }
}

/// Decides a request to create a `kind` link to `source` inside
/// `target_dir`, given what the file system says: whether `target_dir` is
/// a directory and whether something already exists at the destination.
/// The checks run in this order: a junction needs a directory source, the
/// target must be a directory, the source must have a file name, and the
/// destination must be free. On success the destination is returned.
pub fn plan_link(
    kind: LinkKind,
    source: &PickedSource,
    target_dir: &str,
    target_is_dir: bool,
    destination_exists: bool,
) -> (r: Result<String, LinkError>)
    ensures
        kind == LinkKind::Junction && !source.is_dir ==> (r matches Err(
            LinkError::JunctionNeedsDirectory(p),
        ) && p@ == source.path@),
        !(kind == LinkKind::Junction && !source.is_dir) && !target_is_dir ==> (r matches Err(
            LinkError::MissingTargetDirectory(p),
        ) && p@ == target_dir@),
        !(kind == LinkKind::Junction && !source.is_dir) && target_is_dir ==> match spec_file_name(
            source.path@,
        ) {
            None => r matches Err(LinkError::MissingFileName(p)) && p@ == source.path@,
            Some(name) => if destination_exists {
                r matches Err(LinkError::DestinationExists(d)) && d@ == spec_join(target_dir@, name)
            } else {
                r matches Ok(d) && d@ == spec_join(target_dir@, name)
            },
        },
{
    if kind == LinkKind::Junction && !source.is_dir {
        return Err(LinkError::JunctionNeedsDirectory(source.path.clone()));
    }
    if !target_is_dir {
        return Err(LinkError::MissingTargetDirectory(target_dir.to_string()));
    }
    let destination = destination_for(target_dir, source.path.as_str())?;
    if destination_exists {
        return Err(LinkError::DestinationExists(destination));
    }
    Ok(destination)
}

/// The platform refused a link with "access denied" (5) or "privilege not held" (1314).
pub open spec fn retryable(error: LinkError) -> bool {
    error matches LinkError::CreateFailed { os_error, .. } && (os_error == Some(5i32) || os_error
        == Some(1314i32))
}

/// Only "access denied" (5) and "privilege not held" (1314) from the
/// platform call for an elevated retry: any other refusal, any other
/// operating-system code, and a failure without one are given up on.
pub proof fn lemma_retry_only_when_denied(error: LinkError)
    ensures
        retryable(error) ==> error is CreateFailed,
        error matches LinkError::CreateFailed { os_error, .. } ==> (retryable(error) <==> (os_error
            == Some(5i32) || os_error == Some(1314i32))),
        error matches LinkError::CreateFailed { os_error: Some(code), .. } ==> (code != 5 && code
            != 1314 ==> !retryable(error)),
{
}

/// Whether a failed link creation is worth retrying with administrator
/// rights: the platform answered "access denied" (5) or "privilege not
/// held" (1314).
pub fn should_retry_elevated(error: &LinkError) -> (r: bool)
    ensures
        r == retryable(*error),
        r <==> (*error matches LinkError::CreateFailed { os_error, .. } && (os_error == Some(5i32)
            || os_error == Some(1314i32))),
{
    match error {
        LinkError::CreateFailed { os_error, .. } => match os_error {
            Some(code) => *code == 5 || *code == 1314,
            None => false,
        },
        _ => false,
    }
}

/// The failure reported where links cannot be created at all (off Windows).
pub fn unsupported_platform_failure(source: &str, destination: &str) -> (r: LinkError)
    ensures
        r matches LinkError::CreateFailed { source: s, destination: d, os_error, detail } && s@
            == source@ && d@ == destination@ && os_error is None && detail@
            == "LSENext link creation is only supported on Windows"@,
{
    LinkError::CreateFailed {
        source: source.to_string(),
        destination: destination.to_string(),
        os_error: None,
        detail: "LSENext link creation is only supported on Windows".to_string(),
    }
}

/// What to do next while creating one link per source, in order.
#[derive(Debug, Clone, Copy, PartialEq, Eq, Structural)]
pub enum LinkBatchStep {
    /// Create the link for the source at this index.
    Create(usize),
    /// The attempt at this index failed in a way that administrator rights
    /// may overcome: hand the whole request to an elevated helper.
    RetryElevated(usize),
    /// The attempt at this index failed for good: report its error.
    GiveUp(usize),
    /// Every link was created.
    Finished,
}

/// Decides the next step of creating links for `count` sources, given the
/// outcomes of the attempts made so far (one per source, in order). The
/// first failure ends the batch: with an elevated retry when the error
/// calls for one, otherwise by reporting it.
pub fn link_batch_step(count: usize, attempts: &Vec<Result<(), LinkError>>) -> (r: LinkBatchStep)
    ensures
        forall|i: int|
            0 <= i < attempts@.len() && (#[trigger] attempts@[i]) is Err && (forall|j: int|
                0 <= j < i ==> attempts@[j] is Ok) ==> if retryable(attempts@[i]->Err_0) {
                r == LinkBatchStep::RetryElevated(i as usize)
            } else {
                r == LinkBatchStep::GiveUp(i as usize)
            },
        forall|i: int|
            0 <= i < attempts@.len() && (#[trigger] attempts@[i]) is Err && (forall|j: int|
                0 <= j < i ==> attempts@[j] is Ok) ==> (r == LinkBatchStep::RetryElevated(i as usize)
                <==> (attempts@[i]->Err_0 matches LinkError::CreateFailed { os_error, .. } && (
            os_error == Some(5i32) || os_error == Some(1314i32)))) && (r == LinkBatchStep::GiveUp(
                i as usize,
            ) <==> !(attempts@[i]->Err_0 matches LinkError::CreateFailed { os_error, .. } && (
            os_error == Some(5i32) || os_error == Some(1314i32)))),
        (forall|i: int| 0 <= i < attempts@.len() ==> (#[trigger] attempts@[i]) is Ok) ==> if attempts@.len()
            < count {
            r == LinkBatchStep::Create(attempts@.len() as usize)
        } else {
            r == LinkBatchStep::Finished
        },
{
    let mut i: usize = 0;
    while i < attempts.len()
        invariant
            i <= attempts@.len(),
            forall|j: int| 0 <= j < i ==> (#[trigger] attempts@[j]) is Ok,
        decreases attempts@.len() - i,
    {
        match &attempts[i] {
            Ok(()) => {},
            Err(e) => {
                if should_retry_elevated(e) {
                    return LinkBatchStep::RetryElevated(i);
                } else {
                    return LinkBatchStep::GiveUp(i);
                }
            },
        }
        i = i + 1;
    }
    if attempts.len() < count {
        LinkBatchStep::Create(attempts.len())
    } else {
        LinkBatchStep::Finished
    }
}

/// The message shown when an elevated retry could not be started either:
/// the first error, a blank line, and the retry's error.
pub fn elevated_retry_failure(first: &str, retry: &str) -> (r: String)
    ensures
        r@ == first@ + "\n\nElevated retry failed: "@ + retry@,
{
    let mut out = String::new();
    push_str(&mut out, first);
    push_str(&mut out, "\n\nElevated retry failed: ");
    push_str(&mut out, retry);
    out
}

impl LinkError {
    /// The text of the error, as it is shown to the user.
    pub fn message(&self) -> (r: String)
        ensures
            r@ == match self {
                LinkError::JunctionNeedsDirectory(p) => "junctions can only target directories: "@
                    + p@,
                LinkError::MissingTargetDirectory(p) => "target directory does not exist: "@ + p@,
                LinkError::DestinationExists(p) => "destination already exists: "@ + p@,
                LinkError::MissingFileName(p) => "source path has no file name: "@ + p@,
                LinkError::CreateFailed { source, destination, detail, .. } =>
                    "failed to create link from "@ + source@ + " to "@ + destination@ + ": "@
                    + detail@,
            },
    {
        let mut out = String::new();
        match self {
            LinkError::JunctionNeedsDirectory(p) => {
                push_str(&mut out, "junctions can only target directories: ");
                push_str(&mut out, p.as_str());
            },
            LinkError::MissingTargetDirectory(p) => {
                push_str(&mut out, "target directory does not exist: ");
                push_str(&mut out, p.as_str());
            },
            LinkError::DestinationExists(p) => {
                push_str(&mut out, "destination already exists: ");
                push_str(&mut out, p.as_str());
            },
            LinkError::MissingFileName(p) => {
                push_str(&mut out, "source path has no file name: ");
                push_str(&mut out, p.as_str());
            },
            LinkError::CreateFailed { source, destination, detail, .. } => {
                push_str(&mut out, "failed to create link from ");
                push_str(&mut out, source.as_str());
                push_str(&mut out, " to ");
                push_str(&mut out, destination.as_str());
                push_str(&mut out, ": ");
                push_str(&mut out, detail.as_str());
            },
        }
        out
    }
}

} // verus!
