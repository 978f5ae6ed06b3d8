//! Writing the config file back out: the daemon owns config writes.
//!
//! The write is atomic (a temp file in the same directory, flushed, renamed over
//! the old one) so a crash mid-write can never leave a half-written config. An
//! existing owner-only config keeps its exact mode; one that is readable beyond
//! its owner is tightened to `0600`.

use crate::killbilld::responder::{LogLevel, LogLine, LogLineView};
use crate::text;
use vstd::prelude::*;

verus! {

/// Mode for a freshly-created config file: owner read/write only.
pub const NEW_FILE_MODE: u32 = 0o600;

/// The comment that opens every config the daemon writes.
pub open spec fn managed_header() -> Seq<char> {
    "# killbill-rs configuration.\n#\n# killbilld rewrites this file when the whitelist or a setting is changed\n# through killbillctl or the TUI. Hand edits are fine, but comments and\n# formatting are lost on the next daemon-side write; run `killbillctl reload`\n# after editing by hand.\n"@
}

/// The exact text to write to disk for a config rendered as `body`: the managed
/// header, an empty line, the config.
pub fn file_contents(body: &str) -> (r: String)
    ensures
        r@ == managed_header() + "\n"@ + body@,
{
    "# killbill-rs configuration.\n#\n# killbilld rewrites this file when the whitelist or a setting is changed\n# through killbillctl or the TUI. Hand edits are fine, but comments and\n# formatting are lost on the next daemon-side write; run `killbillctl reload`\n# after editing by hand.\n".to_owned().concat(
        "\n",
    ).concat(body)
}

/// What stands at the config path, links followed.
#[derive(Debug, Clone, Copy, PartialEq, Eq, Structural)]
pub enum ExistingConfig {
    /// A regular file with these mode bits.
    File { mode: u32 },
    /// Nothing, or something that is no regular file.
    NoFile,
}

/// The nine permission bits of a mode.
pub open spec fn permissions(mode: u32) -> u32 {
    mode % 512
}

/// Whether only the owner has any permission.
pub open spec fn owner_only(mode: u32) -> bool {
    mode % 64 == 0
}

/// The mode of the replacement file.
pub open spec fn replacement_mode_of(existing: ExistingConfig) -> u32 {
    match existing {
        ExistingConfig::File { mode } => if owner_only(permissions(mode)) {
            permissions(mode)
        } else {
            NEW_FILE_MODE
        },
        ExistingConfig::NoFile => NEW_FILE_MODE,
    }
}

/// The mode of the replacement file: an existing owner-only mode is carried across
/// the rewrite, and nothing is ever widened.
pub fn replacement_mode(existing: ExistingConfig) -> (r: u32)
    ensures
        r == replacement_mode_of(existing),
{
    match existing {
        ExistingConfig::File { mode } => {
            let bits: u32 = mode % 512;
            if bits % 64 == 0 {
                bits
            } else {
                NEW_FILE_MODE
            }
        },
        ExistingConfig::NoFile => NEW_FILE_MODE,
    }
}

/// The permission bits of a mode, in octal with a leading zero.
pub open spec fn octal(bits: u32) -> Seq<char> {
    seq![
        '0',
        text::digit((bits / 64 % 8) as nat),
        text::digit((bits / 8 % 8) as nat),
        text::digit((bits % 8) as nat),
    ]
}

/// The permission bits of a mode, in octal with a leading zero.
fn octal_text(bits: u32) -> (r: String)
    ensures
        r@ == octal(bits),
{
    let mut s = String::new();
    s.push('0');
    s.push(text::digit_char((bits / 64 % 8) as u8));
    s.push(text::digit_char((bits / 8 % 8) as u8));
    s.push(text::digit_char((bits % 8) as u8));
    assert(s@ =~= octal(bits));
    s
}

/// What the log says of a config file whose mode is not carried across the rewrite.
pub open spec fn tightening(path: Seq<char>, existing: ExistingConfig) -> Option<LogLineView> {
    match existing {
        ExistingConfig::File { mode } => if owner_only(permissions(mode)) {
            None
        } else {
            Some(
                LogLineView::plain(
                    LogLevel::Warn,
                    "existing config is readable beyond its owner — writing the replacement 0600"@,
                ).with("path"@, path).with("existing_mode"@, octal(permissions(mode))),
            )
        },
        ExistingConfig::NoFile => None,
    }
}

/// What the log says of a config file whose mode is not carried across the rewrite.
pub fn tightening_line(path: &str, existing: ExistingConfig) -> (r: Option<LogLine>)
    ensures
        text::opt_view(r) == tightening(path@, existing),
{
    match existing {
        ExistingConfig::File { mode } => {
            let bits: u32 = mode % 512;
            if bits % 64 == 0 {
                None
            } else {
                Some(
                    LogLine::plain(
                        LogLevel::Warn,
                        "existing config is readable beyond its owner — writing the replacement 0600".to_owned(),
                    ).with("path", path.to_owned()).with("existing_mode", octal_text(bits)),
                )
            }
        },
        ExistingConfig::NoFile => None,
    }
}

/// A mode that is not carried across the rewrite is logged, and no other.
pub proof fn only_a_tightened_mode_is_logged(path: Seq<char>, mode: u32)
    ensures
        tightening(path, ExistingConfig::File { mode }) is None <==> replacement_mode_of(
            ExistingConfig::File { mode },
        ) == permissions(mode),
        tightening(path, ExistingConfig::NoFile) is None,
{
}

/// A config file is never readable beyond its owner after a write.
pub proof fn a_written_config_is_owner_only(existing: ExistingConfig)
    ensures
        owner_only(replacement_mode_of(existing)),
{
}

/// The name of the temp file for a config file with this name.
pub fn temp_name(file_name: &str) -> (r: String)
    ensures
        r@ == file_name@ + ".tmp"@,
{
    file_name.to_owned().concat(".tmp")
}

/// A file operation of a config write. The first that fails ends the write.
#[derive(Debug, Clone, Copy, PartialEq, Eq, Structural)]
pub enum WriteStep {
    /// Remove a temp file that an earlier crash left; failing is fine.
    DropStaleTemp,
    /// Create the temp file, which must not exist, with this mode.
    CreateTemp { mode: u32 },
    /// Write the whole text.
    WriteText,
    /// Flush the temp file to disk.
    SyncTemp,
    /// Rename the temp file over the config file; on failure remove the temp file.
    Rename,
    /// Flush the directory; failing is fine.
    SyncDirectory,
}

/// The file operations of a config write, in order.
pub open spec fn write_steps_of(existing: ExistingConfig) -> Seq<WriteStep> {
    seq![
        WriteStep::DropStaleTemp,
        WriteStep::CreateTemp { mode: replacement_mode_of(existing) },
        WriteStep::WriteText,
        WriteStep::SyncTemp,
        WriteStep::Rename,
        WriteStep::SyncDirectory,
    ]
}

/// The file operations of a config write, in order. The config file itself is
/// touched by the rename alone, after its replacement is complete on disk.
pub fn write_steps(existing: ExistingConfig) -> (r: Vec<WriteStep>)
    ensures
        r@ == write_steps_of(existing),
{
    let mut steps: Vec<WriteStep> = Vec::new();
    steps.push(WriteStep::DropStaleTemp);
    steps.push(WriteStep::CreateTemp { mode: replacement_mode(existing) });
    steps.push(WriteStep::WriteText);
    steps.push(WriteStep::SyncTemp);
    steps.push(WriteStep::Rename);
    steps.push(WriteStep::SyncDirectory);
    assert(steps@ =~= write_steps_of(existing));
    steps
}

/// Whether a failed operation fails the write: all but the clean-up of an old temp file and
/// the flush of the directory.
pub open spec fn is_essential(step: WriteStep) -> bool {
    step != WriteStep::DropStaleTemp && step != WriteStep::SyncDirectory
}

/// Whether a failed operation fails the write.
pub fn essential(step: WriteStep) -> (r: bool)
    ensures
        r == is_essential(step),
{
    match step {
        WriteStep::DropStaleTemp | WriteStep::SyncDirectory => false,
        _ => true,
    }
}

/// A write that fails leaves the config file as it was: the replacement is created, written
/// and flushed before the rename, and nothing essential comes after it.
pub proof fn a_failed_write_leaves_the_file_alone(existing: ExistingConfig, i: int)
    requires
        0 <= i < write_steps_of(existing).len(),
        is_essential(write_steps_of(existing)[i]),
    ensures
        forall|k: int|
            0 <= k < i ==> #[trigger] write_steps_of(existing)[k] != WriteStep::Rename,
{
}

/// Why a config could not be written.
#[derive(Debug, Clone, PartialEq, Eq)]
pub enum ConfigWriteError {
    /// The config could not be rendered.
    Serialize(String),
    /// A file operation failed.
    Io { path: String, source: String },
}

impl ConfigWriteError {
    /// The message for the operator.
    pub fn to_text(&self) -> (r: String)
        ensures
            r@ == match *self {
                ConfigWriteError::Serialize(e) => "serializing config to TOML: "@ + e@,
                ConfigWriteError::Io { path, source } => "writing config to "@ + path@ + ": "@
                    + source@,
            },
    {
        match self {
            ConfigWriteError::Serialize(e) => "serializing config to TOML: ".to_owned().concat(
                e.as_str(),
            ),
            ConfigWriteError::Io { path, source } => "writing config to ".to_owned().concat(
                path.as_str(),
            ).concat(": ").concat(source.as_str()),
        }
    }
}

/// The mode of a replacement: the permission bits of the old file where nobody but its owner had
/// any, and else what its owner needs to read and write it.
pub proof fn a_replacement_is_never_wider(mode: u32)
    ensures
        replacement_mode_of(ExistingConfig::File { mode }) == (if mode & 0o077 == 0 {
            mode & 0o777
        } else {
            0o600
        }),
        replacement_mode_of(ExistingConfig::NoFile) == 0o600,
{
    assert(mode % 512 == mode & 0o777) by (bit_vector);
    assert((mode % 512) % 64 == 0 <==> mode & 0o077 == 0) by (bit_vector);
}

/// A replacement is made beside the old file and put in its place once it is whole: it is created
/// anew, written, and flushed, in that order, before it takes the old file's place.
pub proof fn a_replacement_is_whole_before_it_is_used(existing: ExistingConfig, i: int, j: int)
    requires
        0 <= i < write_steps_of(existing).len(),
        0 <= j < write_steps_of(existing).len(),
        write_steps_of(existing)[j] == WriteStep::Rename,
    ensures
        write_steps_of(existing)[i] is CreateTemp || write_steps_of(existing)[i]
            == WriteStep::WriteText || write_steps_of(existing)[i] == WriteStep::SyncTemp ==> i < j,
        write_steps_of(existing).contains(WriteStep::WriteText),
        write_steps_of(existing).contains(WriteStep::SyncTemp),
        write_steps_of(existing).contains(
            WriteStep::CreateTemp { mode: replacement_mode_of(existing) },
        ),
        write_steps_of(existing)[j - 1] == WriteStep::SyncTemp,
{
    let steps = write_steps_of(existing);
    assert(steps[1] == WriteStep::CreateTemp { mode: replacement_mode_of(existing) });
    assert(steps[2] == WriteStep::WriteText);
    assert(steps[3] == WriteStep::SyncTemp);
    assert(steps[4] == WriteStep::Rename);
}

/// A write fails with any of its operations but the two that only tidy up.
pub proof fn only_tidying_up_may_fail(step: WriteStep)
    ensures
        is_essential(step) <==> !(step is DropStaleTemp) && !(step is SyncDirectory),
{
}

} // verus!
