//! Starting with Windows: a fixed-name shortcut in the user's Startup folder.
//!
//! "On" is the shortcut being there, with the argument `--startup` and our
//! brand as its description; there is no second state. Turning it on (re)writes
//! the shortcut to point at this executable, turning it off deletes it; a
//! shortcut of that name that we did not create is never overwritten or
//! deleted. Every outcome is confirmed by reading the shortcut back.
//!
//! The file and shell work is done by the caller: `ShortcutJob` says which
//! step comes next (`ShortcutAction`) and takes its result (`ShortcutEvent`).

use vstd::prelude::*;
use vstd::string::*;
use crate::paths::{clean, clean_path, compare_path_text, path_text_match};
use crate::text::{decimal_text, decimal_text_of, str_equals};

verus! {

/// The argument our shortcut carries, so that a copy started at logon can quit quietly.
pub const LINK_ARG: &'static str = "--startup";

/// The description that marks the shortcut as ours.
pub const BRAND: &'static str = "MinidoracatIMEGuardFor42 pz-ime-guard (start at logon)";

/// A shortcut cannot hold a target path of this many UTF-16 units or more.
pub const MAX_PATH_WIDE: usize = 260;

/// How many temporary file names are tried before giving up.
pub const TEMP_NAME_TRIES: u32 = 64;

/// The name of the `n`th candidate temporary file of process `pid`: unique to
/// the process, and not a shortcut, so a leftover is never run at logon.
pub open spec fn temp_name_of(pid: u32, n: u32) -> Seq<char> {
    "pz-ime-guard."@ + decimal_text_of(pid as nat) + "-"@ + decimal_text_of(n as nat) + ".tmp"@
}

/// The file name of a candidate temporary file next to the link.
pub fn temp_file_name(pid: u32, n: u32) -> (name: String)
    ensures
        name@ == temp_name_of(pid, n),
{
    let mut name = String::from_str("pz-ime-guard.");
    let p = decimal_text(pid as u64);
    name.append(p.as_str());
    name.append("-");
    let k = decimal_text(n as u64);
    name.append(k.as_str());
    name.append(".tmp");
    name
}

/// What a shortcut holds.
#[derive(Debug)]
pub struct Link {
    pub target: String,
    pub args: String,
    pub description: String,
}

/// Whether a shortcut is ours: argument and description exactly ours, with no
/// normalisation at all.
pub open spec fn ours(l: Link) -> bool {
    l.args@ == LINK_ARG@ && l.description@ == BRAND@
}

/// A name for the text `String::from_utf16_lossy` decodes from UTF-16 units.
pub uninterp spec fn utf16_lossy(units: Seq<u16>) -> Seq<char>;

/// `String::from_utf16_lossy`: decodes UTF-16 units, replacing each invalid
/// one with U+FFFD. The contract names the result and states nothing more of it.
#[verifier::external_body]
fn decode_utf16_lossy(units: &[u16]) -> (s: String)
    ensures
        s@ == utf16_lossy(units@),
{
    String::from_utf16_lossy(units)
}

/// The number of units before the first NUL, or all of them.
pub open spec fn first_nul(s: Seq<u16>) -> nat
    decreases s.len(),
{
    if s.len() == 0 || s[0] == 0 {
        0
    } else {
        1 + first_nul(s.drop_first())
    }
}

/// A fixed-size buffer filled by the shell, as text: only what follows the
/// first NUL is cut off, everything before it is kept as it is.
pub fn wide(buf: &[u16]) -> (s: String)
    ensures
        s@ == utf16_lossy(buf@.take(first_nul(buf@) as int)),
{
    let mut i: usize = 0;
    assert(buf@.skip(0) =~= buf@);
    while i < buf.len() && buf[i] != 0
        invariant
            i <= buf@.len(),
            first_nul(buf@) == i + first_nul(buf@.skip(i as int)),
        decreases buf@.len() - i,
    {
        assert(buf@.skip(i as int).drop_first() =~= buf@.skip(i + 1));
        i = i + 1;
    }
    assert(i < buf@.len() ==> buf@.skip(i as int)[0] == 0);
    let mut prefix: Vec<u16> = Vec::new();
    let mut k: usize = 0;
    while k < i
        invariant
            i <= buf@.len(),
            k <= i,
            prefix@ == buf@.take(k as int),
        decreases i - k,
    {
        prefix.push(buf[k]);
        k = k + 1;
        assert(prefix@ =~= buf@.take(k as int));
    }
    decode_utf16_lossy(prefix.as_slice())
}

/// Whether this shortcut was created by us.
pub fn is_ours(link: &Link) -> (b: bool)
    ensures
        b == ours(*link),
{
    str_equals(link.args.as_str(), LINK_ARG) && str_equals(link.description.as_str(), BRAND)
}

pub open spec fn enabled_spec(read: Result<Option<Link>, String>) -> Result<bool, String> {
    match read {
        Err(e) => Err(e),
        Ok(None) => Ok(false),
        Ok(Some(l)) => Ok(ours(l) && l.target@.len() > 0),
    }
}

/// Whether starting at logon is on, given the shortcut as read: it is on when
/// our shortcut is there with a target. No shortcut is "off"; a shortcut that
/// cannot be read is an error, so the caller shows it instead of a wrong tick.
pub fn enabled(read: Result<Option<Link>, String>) -> (r: Result<bool, String>)
    ensures
        r == enabled_spec(read),
{
    match read {
        Err(e) => Err(e),
        Ok(None) => Ok(false),
        Ok(Some(l)) => Ok(is_ours(&l) && l.target.as_str().unicode_len() > 0),
    }
}

/// What the caller learns about the running executable.
#[derive(Debug)]
pub struct ExeFacts {
    /// The path for messages.
    pub display: String,
    /// The path, if it is valid Unicode.
    pub unicode: Option<String>,
    /// The path names a file.
    pub is_file: bool,
    /// The length of the path in UTF-16 units.
    pub wide_len: usize,
}

/// Which shortcut file a read-back was about.
#[derive(Clone, Copy, PartialEq, Eq, Debug, Structural)]
pub enum ShortcutFile {
    Link,
    Temp,
}

/// Why changing the startup shortcut failed.
#[derive(Debug)]
pub enum ShortcutError {
    /// A file or shell operation failed; the message is the caller's.
    Failed(String),
    /// The shortcut exists but was not created by us.
    Foreign { args: String, description: String },
    /// Deleting the shortcut failed.
    CannotDelete(String),
    /// The shortcut is still there after deleting it.
    StillThere,
    /// The running executable could not be found.
    ExeUnresolved(String),
    /// The running executable's path does not name a file.
    ExeNotFile(String),
    /// The running executable's path is not valid Unicode.
    ExeNotUnicode(String),
    /// The running executable's path is too long for a shortcut.
    ExeTooLong(String),
    /// The shortcut read back is not there.
    NotWritten(ShortcutFile),
    /// The shortcut read back points elsewhere.
    TargetMismatch { wrote: String, read_back: String },
    /// The shortcut read back does not carry our markers.
    MarkersMismatch { args: String, description: String },
    /// Moving the new shortcut into place failed.
    CannotMove(String),
    /// An event that does not answer the last action.
    OutOfOrder,
}

/// The result of the last action.
#[derive(Debug)]
pub enum ShortcutEvent {
    /// The shortcut (at the link or the temporary path) as read: none when
    /// there is no directory entry.
    Read(Result<Option<Link>, String>),
    /// A delete, reservation, write, removal or move finished.
    Done(Result<(), String>),
    /// The running executable.
    Exe(Result<ExeFacts, String>),
    /// Whether the two paths of `comparison_paths` name the same file.
    SameFile(bool),
}

/// The next thing to do.
#[derive(Debug)]
pub enum ShortcutAction {
    /// Read the shortcut at the link path.
    ReadLink,
    /// Delete the shortcut at the link path.
    DeleteLink,
    /// Find the running executable.
    ResolveExe,
    /// Ask the file system whether the two paths of `comparison_paths` are the same file.
    CompareFiles,
    /// Create a fresh temporary file next to the link, under a name no one else has.
    ReserveTemp,
    /// Write our shortcut, pointing at the executable, to the temporary file.
    WriteTemp,
    /// Read the shortcut at the temporary path.
    ReadTemp,
    /// Remove the temporary file; its result does not matter.
    RemoveTemp,
    /// Move the temporary file onto the link path.
    MoveIntoPlace,
    /// The job is over, with this result.
    Finish(Result<(), ShortcutError>),
}

/// Where a change of the startup shortcut stands.
#[derive(Debug)]
pub enum ShortcutJob {
    /// Waiting for the shortcut as it is now.
    Start { enable: bool },
    /// Waiting for the deletion.
    Deleting,
    /// Waiting for the read-back after the deletion.
    CheckingGone,
    /// Waiting for the running executable.
    Resolving { existing: Option<Link> },
    /// Waiting for whether the existing shortcut's target is the executable.
    ComparingExisting { exe: String, target: String },
    /// Waiting for the temporary file.
    Reserving { exe: String },
    /// Waiting for the shortcut to be written to the temporary file.
    Writing { exe: String },
    /// Waiting for the read-back of the temporary file.
    CheckingTemp { exe: String },
    /// Waiting for whether the temporary shortcut's target is the executable.
    ComparingTemp { exe: String, link: Link },
    /// Waiting for the temporary file to be removed after a failure.
    CleaningUp { error: ShortcutError },
    /// Waiting for the temporary file to be moved onto the link.
    Moving { exe: String },
    /// Waiting for the read-back of the link.
    CheckingLink { exe: String },
    /// Waiting for whether the link's target is the executable.
    ComparingLink { exe: String, link: Link },
    /// Over.
    Finished,
}

/// The verdict on a read-back once the target is known to be or not to be the executable.
pub open spec fn compared(exe: String, l: Link, same: bool) -> Result<(), ShortcutError> {
    if !same {
        Err(ShortcutError::TargetMismatch { wrote: exe, read_back: l.target })
    } else if !ours(l) {
        Err(ShortcutError::MarkersMismatch { args: l.args, description: l.description })
    } else {
        Ok(())
    }
}

pub open spec fn out_of_order() -> (ShortcutJob, ShortcutAction) {
    (ShortcutJob::Finished, ShortcutAction::Finish(Err(ShortcutError::OutOfOrder)))
}

pub open spec fn finish(r: Result<(), ShortcutError>) -> (ShortcutJob, ShortcutAction) {
    (ShortcutJob::Finished, ShortcutAction::Finish(r))
}

/// The number of steps a job can still take: every step brings it closer to the end.
pub open spec fn steps_left(j: ShortcutJob) -> nat {
    match j {
        ShortcutJob::Start { .. } => 10,
        ShortcutJob::Resolving { .. } => 9,
        ShortcutJob::ComparingExisting { .. } => 8,
        ShortcutJob::Reserving { .. } => 7,
        ShortcutJob::Writing { .. } => 6,
        ShortcutJob::CheckingTemp { .. } => 5,
        ShortcutJob::ComparingTemp { .. } => 4,
        ShortcutJob::Moving { .. } => 3,
        ShortcutJob::CheckingLink { .. } => 2,
        ShortcutJob::Deleting => 2,
        ShortcutJob::ComparingLink { .. } => 1,
        ShortcutJob::CheckingGone => 1,
        ShortcutJob::CleaningUp { .. } => 1,
        ShortcutJob::Finished => 0,
    }
}

/// The job's next state and action after `event`.
pub open spec fn step_spec(job: ShortcutJob, event: ShortcutEvent) -> (ShortcutJob, ShortcutAction) {
    match job {
        ShortcutJob::Start { enable } => match event {
            ShortcutEvent::Read(Err(e)) => finish(Err(ShortcutError::Failed(e))),
            ShortcutEvent::Read(Ok(existing)) => {
                if existing is Some && !ours(existing->0) {
                    finish(
                        Err(
                            ShortcutError::Foreign {
                                args: existing->0.args,
                                description: existing->0.description,
                            },
                        ),
                    )
                } else if !enable {
                    if existing is None {
                        finish(Ok(()))
                    } else {
                        (ShortcutJob::Deleting, ShortcutAction::DeleteLink)
                    }
                } else {
                    (ShortcutJob::Resolving { existing }, ShortcutAction::ResolveExe)
                }
            },
            _ => out_of_order(),
        },
        ShortcutJob::Deleting => match event {
            ShortcutEvent::Done(Err(e)) => finish(Err(ShortcutError::CannotDelete(e))),
            ShortcutEvent::Done(Ok(())) => (ShortcutJob::CheckingGone, ShortcutAction::ReadLink),
            _ => out_of_order(),
        },
        ShortcutJob::CheckingGone => match event {
            ShortcutEvent::Read(Err(e)) => finish(Err(ShortcutError::Failed(e))),
            ShortcutEvent::Read(Ok(Some(_))) => finish(Err(ShortcutError::StillThere)),
            ShortcutEvent::Read(Ok(None)) => finish(Ok(())),
            _ => out_of_order(),
        },
        ShortcutJob::Resolving { existing } => match event {
            ShortcutEvent::Exe(Err(e)) => finish(Err(ShortcutError::ExeUnresolved(e))),
            ShortcutEvent::Exe(Ok(f)) => {
                if !f.is_file {
                    finish(Err(ShortcutError::ExeNotFile(f.display)))
                } else {
                    match f.unicode {
                        None => finish(Err(ShortcutError::ExeNotUnicode(f.display))),
                        Some(exe) => {
                            if f.wide_len >= MAX_PATH_WIDE {
                                finish(Err(ShortcutError::ExeTooLong(exe)))
                            } else {
                                match existing {
                                    None => (ShortcutJob::Reserving { exe }, ShortcutAction::ReserveTemp),
                                    Some(l) => match path_text_match(l.target@, exe@) {
                                        Some(true) => finish(Ok(())),
                                        Some(false) => (
                                            ShortcutJob::Reserving { exe },
                                            ShortcutAction::ReserveTemp,
                                        ),
                                        None => (
                                            ShortcutJob::ComparingExisting { exe, target: l.target },
                                            ShortcutAction::CompareFiles,
                                        ),
                                    },
                                }
                            }
                        },
                    }
                }
            },
            _ => out_of_order(),
        },
        ShortcutJob::ComparingExisting { exe, target } => match event {
            ShortcutEvent::SameFile(true) => finish(Ok(())),
            ShortcutEvent::SameFile(false) => (ShortcutJob::Reserving { exe }, ShortcutAction::ReserveTemp),
            _ => out_of_order(),
        },
        ShortcutJob::Reserving { exe } => match event {
            ShortcutEvent::Done(Err(e)) => finish(Err(ShortcutError::Failed(e))),
            ShortcutEvent::Done(Ok(())) => (ShortcutJob::Writing { exe }, ShortcutAction::WriteTemp),
            _ => out_of_order(),
        },
        ShortcutJob::Writing { exe } => match event {
            ShortcutEvent::Done(Err(e)) => (
                ShortcutJob::CleaningUp { error: ShortcutError::Failed(e) },
                ShortcutAction::RemoveTemp,
            ),
            ShortcutEvent::Done(Ok(())) => (ShortcutJob::CheckingTemp { exe }, ShortcutAction::ReadTemp),
            _ => out_of_order(),
        },
        ShortcutJob::CheckingTemp { exe } => match event {
            ShortcutEvent::Read(Err(e)) => (
                ShortcutJob::CleaningUp { error: ShortcutError::Failed(e) },
                ShortcutAction::RemoveTemp,
            ),
            ShortcutEvent::Read(Ok(None)) => (
                ShortcutJob::CleaningUp { error: ShortcutError::NotWritten(ShortcutFile::Temp) },
                ShortcutAction::RemoveTemp,
            ),
            ShortcutEvent::Read(Ok(Some(l))) => match path_text_match(l.target@, exe@) {
                Some(same) => match compared(exe, l, same) {
                    Ok(()) => (ShortcutJob::Moving { exe }, ShortcutAction::MoveIntoPlace),
                    Err(error) => (ShortcutJob::CleaningUp { error }, ShortcutAction::RemoveTemp),
                },
                None => (ShortcutJob::ComparingTemp { exe, link: l }, ShortcutAction::CompareFiles),
            },
            _ => out_of_order(),
        },
        ShortcutJob::ComparingTemp { exe, link } => match event {
            ShortcutEvent::SameFile(same) => match compared(exe, link, same) {
                Ok(()) => (ShortcutJob::Moving { exe }, ShortcutAction::MoveIntoPlace),
                Err(error) => (ShortcutJob::CleaningUp { error }, ShortcutAction::RemoveTemp),
            },
            _ => out_of_order(),
        },
        ShortcutJob::CleaningUp { error } => match event {
            ShortcutEvent::Done(_) => finish(Err(error)),
            _ => out_of_order(),
        },
        ShortcutJob::Moving { exe } => match event {
            ShortcutEvent::Done(Err(e)) => (
                ShortcutJob::CleaningUp { error: ShortcutError::CannotMove(e) },
                ShortcutAction::RemoveTemp,
            ),
            ShortcutEvent::Done(Ok(())) => (ShortcutJob::CheckingLink { exe }, ShortcutAction::ReadLink),
            _ => out_of_order(),
        },
        ShortcutJob::CheckingLink { exe } => match event {
            ShortcutEvent::Read(Err(e)) => finish(Err(ShortcutError::Failed(e))),
            ShortcutEvent::Read(Ok(None)) => finish(Err(ShortcutError::NotWritten(ShortcutFile::Link))),
            ShortcutEvent::Read(Ok(Some(l))) => match path_text_match(l.target@, exe@) {
                Some(same) => finish(compared(exe, l, same)),
                None => (ShortcutJob::ComparingLink { exe, link: l }, ShortcutAction::CompareFiles),
            },
            _ => out_of_order(),
        },
        ShortcutJob::ComparingLink { exe, link } => match event {
            ShortcutEvent::SameFile(same) => finish(compared(exe, link, same)),
            _ => out_of_order(),
        },
        ShortcutJob::Finished => out_of_order(),
    }
}

/// The job that turns starting at logon on or off, and its first action:
/// reading the shortcut as it is.
pub fn set_enabled(enabled: bool) -> (r: (ShortcutJob, ShortcutAction))
    ensures
        r.0 == (ShortcutJob::Start { enable: enabled }),
        r.1 == ShortcutAction::ReadLink,
{
    (ShortcutJob::Start { enable: enabled }, ShortcutAction::ReadLink)
}

fn compare_read_back(exe: String, l: Link, same: bool) -> (r: Result<(), ShortcutError>)
    ensures
        r == compared(exe, l, same),
{
    if !same {
        Err(ShortcutError::TargetMismatch { wrote: exe, read_back: l.target })
    } else if !is_ours(&l) {
        Err(ShortcutError::MarkersMismatch { args: l.args, description: l.description })
    } else {
        Ok(())
    }
}

impl ShortcutJob {
    /// Whether the job is over.
    pub fn is_finished(&self) -> (b: bool)
        ensures
            b == (*self is Finished),
    {
        match self {
            ShortcutJob::Finished => true,
            _ => false,
        }
    }

    /// The cleaned target and executable paths to compare on the file system,
    /// while the job waits for such a comparison.
    pub fn comparison_paths(&self) -> (r: Option<(String, String)>)
        ensures
            match *self {
                ShortcutJob::ComparingExisting { exe, target } => r is Some && r.unwrap().0@ == clean(target@)
                    && r.unwrap().1@ == clean(exe@),
                ShortcutJob::ComparingTemp { exe, link } => r is Some && r.unwrap().0@ == clean(link.target@)
                    && r.unwrap().1@ == clean(exe@),
                ShortcutJob::ComparingLink { exe, link } => r is Some && r.unwrap().0@ == clean(link.target@)
                    && r.unwrap().1@ == clean(exe@),
                _ => r is None,
            },
    {
        match self {
            ShortcutJob::ComparingExisting { exe, target } => Some(
                (clean_path(target.as_str()), clean_path(exe.as_str())),
            ),
            ShortcutJob::ComparingTemp { exe, link } => Some(
                (clean_path(link.target.as_str()), clean_path(exe.as_str())),
            ),
            ShortcutJob::ComparingLink { exe, link } => Some(
                (clean_path(link.target.as_str()), clean_path(exe.as_str())),
            ),
            _ => None,
        }
    }

    /// Takes the result of the last action and says what comes next.
    pub fn step(self, event: ShortcutEvent) -> (r: (ShortcutJob, ShortcutAction))
        ensures
            r == step_spec(self, event),
    {
        match self {
            ShortcutJob::Start { enable } => match event {
                ShortcutEvent::Read(Err(e)) => (
                    ShortcutJob::Finished,
                    ShortcutAction::Finish(Err(ShortcutError::Failed(e))),
                ),
                ShortcutEvent::Read(Ok(existing)) => {
                    let foreign = match &existing {
                        Some(l) => !is_ours(l),
                        None => false,
                    };
                    if foreign {
                        match existing {
                            Some(l) => (
                                ShortcutJob::Finished,
                                ShortcutAction::Finish(
                                    Err(ShortcutError::Foreign { args: l.args, description: l.description }),
                                ),
                            ),
                            None => (ShortcutJob::Finished, ShortcutAction::Finish(Ok(()))),
                        }
                    } else if !enable {
                        if existing.is_none() {
                            (ShortcutJob::Finished, ShortcutAction::Finish(Ok(())))
                        } else {
                            (ShortcutJob::Deleting, ShortcutAction::DeleteLink)
                        }
                    } else {
                        (ShortcutJob::Resolving { existing }, ShortcutAction::ResolveExe)
                    }
                },
                _ => (ShortcutJob::Finished, ShortcutAction::Finish(Err(ShortcutError::OutOfOrder))),
            },
            ShortcutJob::Deleting => match event {
                ShortcutEvent::Done(Err(e)) => (
                    ShortcutJob::Finished,
                    ShortcutAction::Finish(Err(ShortcutError::CannotDelete(e))),
                ),
                ShortcutEvent::Done(Ok(())) => (ShortcutJob::CheckingGone, ShortcutAction::ReadLink),
                _ => (ShortcutJob::Finished, ShortcutAction::Finish(Err(ShortcutError::OutOfOrder))),
            },
            ShortcutJob::CheckingGone => match event {
                ShortcutEvent::Read(Err(e)) => (
                    ShortcutJob::Finished,
                    ShortcutAction::Finish(Err(ShortcutError::Failed(e))),
                ),
                ShortcutEvent::Read(Ok(Some(_))) => (
                    ShortcutJob::Finished,
                    ShortcutAction::Finish(Err(ShortcutError::StillThere)),
                ),
                ShortcutEvent::Read(Ok(None)) => (ShortcutJob::Finished, ShortcutAction::Finish(Ok(()))),
                _ => (ShortcutJob::Finished, ShortcutAction::Finish(Err(ShortcutError::OutOfOrder))),
            },
            ShortcutJob::Resolving { existing } => match event {
                ShortcutEvent::Exe(Err(e)) => (
                    ShortcutJob::Finished,
                    ShortcutAction::Finish(Err(ShortcutError::ExeUnresolved(e))),
                ),
                ShortcutEvent::Exe(Ok(f)) => {
                    if !f.is_file {
                        (ShortcutJob::Finished, ShortcutAction::Finish(Err(ShortcutError::ExeNotFile(f.display))))
                    } else {
                        match f.unicode {
                            None => (
                                ShortcutJob::Finished,
                                ShortcutAction::Finish(Err(ShortcutError::ExeNotUnicode(f.display))),
                            ),
                            Some(exe) => {
                                if f.wide_len >= MAX_PATH_WIDE {
                                    (
                                        ShortcutJob::Finished,
                                        ShortcutAction::Finish(Err(ShortcutError::ExeTooLong(exe))),
                                    )
                                } else {
                                    match existing {
                                        None => (ShortcutJob::Reserving { exe }, ShortcutAction::ReserveTemp),
                                        Some(l) => {
                                            let m = compare_path_text(l.target.as_str(), exe.as_str());
                                            match m {
                                                Some(true) => (
                                                    ShortcutJob::Finished,
                                                    ShortcutAction::Finish(Ok(())),
                                                ),
                                                Some(false) => (
                                                    ShortcutJob::Reserving { exe },
                                                    ShortcutAction::ReserveTemp,
                                                ),
                                                None => (
                                                    ShortcutJob::ComparingExisting { exe, target: l.target },
                                                    ShortcutAction::CompareFiles,
                                                ),
                                            }
                                        },
                                    }
                                }
                            },
                        }
                    }
                },
                _ => (ShortcutJob::Finished, ShortcutAction::Finish(Err(ShortcutError::OutOfOrder))),
            },
            ShortcutJob::ComparingExisting { exe, target } => match event {
                ShortcutEvent::SameFile(same) => {
                    if same {
                        (ShortcutJob::Finished, ShortcutAction::Finish(Ok(())))
                    } else {
                        (ShortcutJob::Reserving { exe }, ShortcutAction::ReserveTemp)
                    }
                },
                _ => (ShortcutJob::Finished, ShortcutAction::Finish(Err(ShortcutError::OutOfOrder))),
            },
            ShortcutJob::Reserving { exe } => match event {
                ShortcutEvent::Done(Err(e)) => (
                    ShortcutJob::Finished,
                    ShortcutAction::Finish(Err(ShortcutError::Failed(e))),
                ),
                ShortcutEvent::Done(Ok(())) => (ShortcutJob::Writing { exe }, ShortcutAction::WriteTemp),
                _ => (ShortcutJob::Finished, ShortcutAction::Finish(Err(ShortcutError::OutOfOrder))),
            },
            ShortcutJob::Writing { exe } => match event {
                ShortcutEvent::Done(Err(e)) => (
                    ShortcutJob::CleaningUp { error: ShortcutError::Failed(e) },
                    ShortcutAction::RemoveTemp,
                ),
                ShortcutEvent::Done(Ok(())) => (ShortcutJob::CheckingTemp { exe }, ShortcutAction::ReadTemp),
                _ => (ShortcutJob::Finished, ShortcutAction::Finish(Err(ShortcutError::OutOfOrder))),
            },
            ShortcutJob::CheckingTemp { exe } => match event {
                ShortcutEvent::Read(Err(e)) => (
                    ShortcutJob::CleaningUp { error: ShortcutError::Failed(e) },
                    ShortcutAction::RemoveTemp,
                ),
                ShortcutEvent::Read(Ok(None)) => (
                    ShortcutJob::CleaningUp { error: ShortcutError::NotWritten(ShortcutFile::Temp) },
                    ShortcutAction::RemoveTemp,
                ),
                ShortcutEvent::Read(Ok(Some(l))) => {
                    let m = compare_path_text(l.target.as_str(), exe.as_str());
                    match m {
                        Some(same) => {
                            let ok = same && is_ours(&l);
                            if ok {
                                (ShortcutJob::Moving { exe }, ShortcutAction::MoveIntoPlace)
                            } else {
                                let error = match compare_read_back(exe, l, same) {
                                    Err(error) => error,
                                    Ok(()) => ShortcutError::OutOfOrder,
                                };
                                (ShortcutJob::CleaningUp { error }, ShortcutAction::RemoveTemp)
                            }
                        },
                        None => (ShortcutJob::ComparingTemp { exe, link: l }, ShortcutAction::CompareFiles),
                    }
                },
                _ => (ShortcutJob::Finished, ShortcutAction::Finish(Err(ShortcutError::OutOfOrder))),
            },
            ShortcutJob::ComparingTemp { exe, link } => match event {
                ShortcutEvent::SameFile(same) => {
                    let ok = same && is_ours(&link);
                    if ok {
                        (ShortcutJob::Moving { exe }, ShortcutAction::MoveIntoPlace)
                    } else {
                        let error = match compare_read_back(exe, link, same) {
                            Err(error) => error,
                            Ok(()) => ShortcutError::OutOfOrder,
                        };
                        (ShortcutJob::CleaningUp { error }, ShortcutAction::RemoveTemp)
                    }
                },
                _ => (ShortcutJob::Finished, ShortcutAction::Finish(Err(ShortcutError::OutOfOrder))),
            },
            ShortcutJob::CleaningUp { error } => match event {
                ShortcutEvent::Done(_) => (ShortcutJob::Finished, ShortcutAction::Finish(Err(error))),
                _ => (ShortcutJob::Finished, ShortcutAction::Finish(Err(ShortcutError::OutOfOrder))),
            },
            ShortcutJob::Moving { exe } => match event {
                ShortcutEvent::Done(Err(e)) => (
                    ShortcutJob::CleaningUp { error: ShortcutError::CannotMove(e) },
                    ShortcutAction::RemoveTemp,
                ),
                ShortcutEvent::Done(Ok(())) => (ShortcutJob::CheckingLink { exe }, ShortcutAction::ReadLink),
                _ => (ShortcutJob::Finished, ShortcutAction::Finish(Err(ShortcutError::OutOfOrder))),
            },
            ShortcutJob::CheckingLink { exe } => match event {
                ShortcutEvent::Read(Err(e)) => (
                    ShortcutJob::Finished,
                    ShortcutAction::Finish(Err(ShortcutError::Failed(e))),
                ),
                ShortcutEvent::Read(Ok(None)) => (
                    ShortcutJob::Finished,
                    ShortcutAction::Finish(Err(ShortcutError::NotWritten(ShortcutFile::Link))),
                ),
                ShortcutEvent::Read(Ok(Some(l))) => {
                    let m = compare_path_text(l.target.as_str(), exe.as_str());
                    match m {
                        Some(same) => (ShortcutJob::Finished, ShortcutAction::Finish(compare_read_back(exe, l, same))),
                        None => (ShortcutJob::ComparingLink { exe, link: l }, ShortcutAction::CompareFiles),
                    }
                },
                _ => (ShortcutJob::Finished, ShortcutAction::Finish(Err(ShortcutError::OutOfOrder))),
            },
            ShortcutJob::ComparingLink { exe, link } => match event {
                ShortcutEvent::SameFile(same) => (
                    ShortcutJob::Finished,
                    ShortcutAction::Finish(compare_read_back(exe, link, same)),
                ),
                _ => (ShortcutJob::Finished, ShortcutAction::Finish(Err(ShortcutError::OutOfOrder))),
            },
            ShortcutJob::Finished => (
                ShortcutJob::Finished,
                ShortcutAction::Finish(Err(ShortcutError::OutOfOrder)),
            ),
        }
    }
}

/// Every job ends: each step either finishes it or moves it strictly closer
/// to the end, and a finished job stays finished.
pub proof fn lemma_every_job_ends(job: ShortcutJob, event: ShortcutEvent)
    ensures
        steps_left(step_spec(job, event).0) < steps_left(job) || (job is Finished && step_spec(job, event).0 is Finished),
        step_spec(job, event).0 is Finished <==> step_spec(job, event).1 is Finish,
{
}

/// A shortcut we did not create is never touched: the job ends with an error
/// at once, before anything is deleted, written or moved.
pub proof fn lemma_never_touches_a_foreign_shortcut(enable: bool, l: Link)
    requires
        !ours(l),
    ensures
        step_spec(ShortcutJob::Start { enable }, ShortcutEvent::Read(Ok(Some(l))))
            == finish(Err(ShortcutError::Foreign { args: l.args, description: l.description })),
{
}

/// Turning off, with our shortcut read at the link.
pub open spec fn deleting_ours(job: ShortcutJob, event: ShortcutEvent) -> bool {
    match job {
        ShortcutJob::Start { enable } => !enable && match event {
            ShortcutEvent::Read(Ok(Some(l))) => ours(l),
            _ => false,
        },
        _ => false,
    }
}

/// The temporary shortcut read back as ours, pointing at the executable.
pub open spec fn temp_confirmed(job: ShortcutJob, event: ShortcutEvent) -> bool {
    match job {
        ShortcutJob::CheckingTemp { exe } => link_confirmed(exe, event),
        ShortcutJob::ComparingTemp { exe, link } => ours(link) && event == ShortcutEvent::SameFile(true),
        _ => false,
    }
}

/// The existing shortcut is ours and its target is the valid executable path.
pub open spec fn already_in_place(existing: Option<Link>, event: ShortcutEvent) -> bool {
    match (existing, event) {
        (Some(l), ShortcutEvent::Exe(Ok(f))) => ours(l) && f.is_file && match f.unicode {
            Some(exe) => f.wide_len < MAX_PATH_WIDE && path_text_match(l.target@, exe@) == Some(true),
            None => false,
        },
        _ => false,
    }
}

/// The link read back as ours, pointing at the executable.
pub open spec fn link_confirmed(exe: String, event: ShortcutEvent) -> bool {
    match event {
        ShortcutEvent::Read(Ok(Some(l))) => ours(l) && path_text_match(l.target@, exe@) == Some(true),
        _ => false,
    }
}

/// The link is deleted only when turning off and the shortcut there is ours,
/// and moved onto only after the temporary shortcut read back as ours.
pub proof fn lemma_deletes_and_replaces_only_ours(job: ShortcutJob, event: ShortcutEvent)
    ensures
        step_spec(job, event).1 is DeleteLink ==> deleting_ours(job, event),
        step_spec(job, event).1 is MoveIntoPlace ==> temp_confirmed(job, event),
{
}

/// Turning on when our shortcut already points at this executable writes
/// nothing: the job ends successfully at once.
pub proof fn lemma_in_place_writes_nothing(l: Link, f: ExeFacts)
    requires
        ours(l),
        f.is_file,
        f.unicode is Some,
        f.wide_len < MAX_PATH_WIDE,
        path_text_match(l.target@, f.unicode->0@) == Some(true),
    ensures
        step_spec(ShortcutJob::Resolving { existing: Some(l) }, ShortcutEvent::Exe(Ok(f))) == finish(Ok(())),
{
}

/// The job's invariant: an existing shortcut carried towards the rewrite is ours.
pub open spec fn job_wf(job: ShortcutJob) -> bool {
    match job {
        ShortcutJob::Resolving { existing } => existing is None || ours(existing->0),
        _ => true,
    }
}

/// Every step keeps the job's invariant.
pub proof fn lemma_step_keeps_wf(job: ShortcutJob, event: ShortcutEvent)
    requires
        job_wf(job),
    ensures
        job_wf(step_spec(job, event).0),
{
}

/// Turning on succeeds only when the shortcut at the link was read back as
/// ours and pointing at the executable; turning off succeeds only when no
/// shortcut is found there.
pub proof fn lemma_success_is_read_back(job: ShortcutJob, event: ShortcutEvent)
    requires
        job_wf(job),
        step_spec(job, event).1 == ShortcutAction::Finish(Ok(())),
    ensures
        match job {
            ShortcutJob::Start { enable } => !enable && event == ShortcutEvent::Read(Ok(None)),
            ShortcutJob::CheckingGone => event == ShortcutEvent::Read(Ok(None)),
            ShortcutJob::Resolving { existing } => already_in_place(existing, event),
            ShortcutJob::ComparingExisting { .. } => event == ShortcutEvent::SameFile(true),
            ShortcutJob::CheckingLink { exe } => link_confirmed(exe, event),
            ShortcutJob::ComparingLink { exe, link } => ours(link) && event == ShortcutEvent::SameFile(true),
            _ => false,
        },
{
}

/// Turning on when our shortcut points at another file rewrites it: unless the
/// path texts already match, the job goes on to ask the file system or to
/// write a new shortcut, and a "different file" answer leads to the rewrite.
pub proof fn lemma_stale_shortcut_is_rewritten(l: Link, f: ExeFacts, exe: String, target: String)
    requires
        ours(l),
        f.is_file,
        f.unicode is Some,
        f.wide_len < MAX_PATH_WIDE,
        path_text_match(l.target@, f.unicode->0@) != Some(true),
    ensures
        ({
            let a = step_spec(ShortcutJob::Resolving { existing: Some(l) }, ShortcutEvent::Exe(Ok(f))).1;
            a is ReserveTemp || a is CompareFiles
        }),
        path_text_match(l.target@, f.unicode->0@) == Some(false) ==> step_spec(
            ShortcutJob::Resolving { existing: Some(l) },
            ShortcutEvent::Exe(Ok(f)),
        ).1 is ReserveTemp,
        step_spec(ShortcutJob::ComparingExisting { exe, target }, ShortcutEvent::SameFile(false)).1 is ReserveTemp,
{
}

/// Once the temporary file has been created, the job does not end leaving
/// it behind: until it is moved into place, every answer other than an
/// out-of-order one leads to moving it, removing it, or the next step of
/// writing and checking it.
pub proof fn lemma_temp_file_is_never_left_behind(job: ShortcutJob, event: ShortcutEvent)
    requires
        job is Writing || job is CheckingTemp || job is ComparingTemp || job is Moving,
        step_spec(job, event).1 is Finish,
    ensures
        step_spec(job, event) == out_of_order(),
{
}

/// `first_nul` is where the first NUL unit stands, or the length when there is
/// none: every unit before it is not NUL.
pub proof fn lemma_first_nul_is_the_first_nul(s: Seq<u16>)
    ensures
        first_nul(s) <= s.len(),
        first_nul(s) < s.len() ==> s[first_nul(s) as int] == 0,
        forall|i: int| 0 <= i < first_nul(s) ==> s[i] != 0,
    decreases s.len(),
{
    if s.len() > 0 && s[0] != 0 {
        let t = s.drop_first();
        lemma_first_nul_is_the_first_nul(t);
        assert forall|i: int| 0 <= i < first_nul(s) implies s[i] != 0 by {
            if i > 0 {
                assert(s[i] == t[i - 1]);
            }
        }
    }
}

/// Candidate temporary names never collide: two different processes, or two
/// different tries of one process, get two different names.
pub proof fn lemma_temp_names_are_unique(p1: u32, n1: u32, p2: u32, n2: u32)
    requires
        temp_name_of(p1, n1) == temp_name_of(p2, n2),
    ensures
        p1 == p2 && n1 == n2,
{
    reveal_strlit("pz-ime-guard.");
    reveal_strlit("-");
    reveal_strlit(".tmp");
    let x1 = decimal_text_of(p1 as nat);
    let x2 = decimal_text_of(p2 as nat);
    let y1 = decimal_text_of(n1 as nat);
    let y2 = decimal_text_of(n2 as nat);
    crate::text::lemma_decimal_text_reads_back(p1 as nat);
    crate::text::lemma_decimal_text_reads_back(p2 as nat);
    crate::text::lemma_decimal_text_reads_back(n1 as nat);
    crate::text::lemma_decimal_text_reads_back(n2 as nat);
    let a = temp_name_of(p1, n1);
    let b = temp_name_of(p2, n2);
    assert(a == "pz-ime-guard."@ + x1 + "-"@ + y1 + ".tmp"@);
    assert(b == "pz-ime-guard."@ + x2 + "-"@ + y2 + ".tmp"@);
    assert(forall|i: int| 0 <= i < x1.len() ==> a[13 + i] == x1[i]);
    assert(forall|i: int| 0 <= i < x2.len() ==> b[13 + i] == x2[i]);
    assert(a[13 + x1.len() as int] == '-');
    assert(b[13 + x2.len() as int] == '-');
    if x1.len() < x2.len() {
        assert(crate::version::is_digit(x2[x1.len() as int]));
        assert(false);
    }
    if x2.len() < x1.len() {
        assert(crate::version::is_digit(x1[x2.len() as int]));
        assert(false);
    }
    assert(x1 =~= x2);
    let k: int = 14 + x1.len() as int;
    assert(forall|i: int| 0 <= i < y1.len() ==> a[k + i] == y1[i]);
    assert(forall|i: int| 0 <= i < y2.len() ==> b[k + i] == y2[i]);
    assert(y1.len() == y2.len());
    assert(y1 =~= y2);
}

} // verus!
