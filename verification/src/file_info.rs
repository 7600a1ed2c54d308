//! File descriptions shown by the directory browser: the kind of a file, its
//! Unix permission bits and the listing entry built from a directory read.
use vstd::prelude::*;
use chrono::{TimeZone, Utc};
use crate::text::string_push;

verus! {

/// The kind of a directory entry.
#[derive(Clone, Copy, Debug, PartialEq, Eq, Structural)]
pub enum FileType {
    Unspecified,
    Directory,
    File,
    Link,
}

/// The name under which a file type is displayed.
pub open spec fn file_type_name(t: FileType) -> Seq<char> {
    match t {
        FileType::Unspecified => "Unspecified"@,
        FileType::Directory => "Directory"@,
        FileType::File => "File"@,
        FileType::Link => "Link"@,
    }
}

impl FileType {
    /// The display name of the file type, e.g. `"Directory"`.
    pub fn name(&self) -> (res: String)
        ensures
            res@ == file_type_name(*self),
    {
        match self {
            FileType::Unspecified => String::from_str("Unspecified"),
            FileType::Directory => String::from_str("Directory"),
            FileType::File => String::from_str("File"),
            FileType::Link => String::from_str("Link"),
        }
    }
}

/// Unix permission bits of a file together with its type.
#[derive(Clone, Copy, Debug, PartialEq, Eq, Structural)]
pub struct FileMode {
    pub file_type: FileType,
    pub user_read: bool,
    pub user_write: bool,
    pub user_exec: bool,
    pub group_read: bool,
    pub group_write: bool,
    pub group_exec: bool,
    pub other_read: bool,
    pub other_write: bool,
    pub other_exec: bool,
}

/// The file type that the first character of a formatted mode stands for.
pub open spec fn file_type_of_char(c: char) -> FileType {
    if c == 'd' {
        FileType::Directory
    } else if c == '-' {
        FileType::File
    } else if c == 'l' {
        FileType::Link
    } else {
        FileType::Unspecified
    }
}

/// The character that stands for a file type in a formatted mode.
pub open spec fn char_of_file_type(t: FileType) -> char {
    match t {
        FileType::Unspecified => '-',
        FileType::Directory => 'd',
        FileType::File => '-',
        FileType::Link => 'l',
    }
}

/// The mode read from a ten-character string such as `-rwx-wx--x`: the type from
/// the first character, then each permission is set exactly when its position
/// holds its letter (`r`, `w` or `x`).
pub open spec fn mode_of_formatted(s: Seq<char>) -> FileMode {
    FileMode {
        file_type: file_type_of_char(s[0]),
        user_read: s[1] == 'r',
        user_write: s[2] == 'w',
        user_exec: s[3] == 'x',
        group_read: s[4] == 'r',
        group_write: s[5] == 'w',
        group_exec: s[6] == 'x',
        other_read: s[7] == 'r',
        other_write: s[8] == 'w',
        other_exec: s[9] == 'x',
    }
}

/// The letter for a permission when it is set, `-` when it is not.
pub open spec fn flag_char(set: bool, letter: char) -> char {
    if set {
        letter
    } else {
        '-'
    }
}

/// The ten-character formatted form of a mode, as `ls -l` prints it.
pub open spec fn formatted_of_mode(m: FileMode) -> Seq<char> {
    seq![
        char_of_file_type(m.file_type),
        flag_char(m.user_read, 'r'),
        flag_char(m.user_write, 'w'),
        flag_char(m.user_exec, 'x'),
        flag_char(m.group_read, 'r'),
        flag_char(m.group_write, 'w'),
        flag_char(m.group_exec, 'x'),
        flag_char(m.other_read, 'r'),
        flag_char(m.other_write, 'w'),
        flag_char(m.other_exec, 'x'),
    ]
}

/// The mode whose permissions are the nine low bits of `mode` (owner, group,
/// others; read, write, execute from the high bit down).
pub open spec fn mode_of_bits(file_type: FileType, mode: u32) -> FileMode {
    FileMode {
        file_type,
        user_read: mode & 0o400u32 == 0o400u32,
        user_write: mode & 0o200u32 == 0o200u32,
        user_exec: mode & 0o100u32 == 0o100u32,
        group_read: mode & 0o040u32 == 0o040u32,
        group_write: mode & 0o020u32 == 0o020u32,
        group_exec: mode & 0o010u32 == 0o010u32,
        other_read: mode & 0o004u32 == 0o004u32,
        other_write: mode & 0o002u32 == 0o002u32,
        other_exec: mode & 0o001u32 == 0o001u32,
    }
}

/// A formatted mode in the form that formatting produces: a type character among
/// `d`, `-`, `l`, and at each permission position its letter or `-`.
pub open spec fn is_canonical_formatted(s: Seq<char>) -> bool {
    &&& s.len() == 10
    &&& (s[0] == 'd' || s[0] == '-' || s[0] == 'l')
    &&& (s[1] == 'r' || s[1] == '-')
    &&& (s[2] == 'w' || s[2] == '-')
    &&& (s[3] == 'x' || s[3] == '-')
    &&& (s[4] == 'r' || s[4] == '-')
    &&& (s[5] == 'w' || s[5] == '-')
    &&& (s[6] == 'x' || s[6] == '-')
    &&& (s[7] == 'r' || s[7] == '-')
    &&& (s[8] == 'w' || s[8] == '-')
    &&& (s[9] == 'x' || s[9] == '-')
}

fn push_flag(s: &mut String, set: bool, letter: char)
    ensures
        final(s)@ == old(s)@.push(flag_char(set, letter)),
{
    if set {
        string_push(s, letter);
    } else {
        string_push(s, '-');
    }
}

impl FileMode {
    /// Reads a mode from its formatted form, such as `"-rwx-wx--x"`.
    /// A string whose length in bytes is not ten gives `None`. A ten-byte string
    /// must be ASCII (one whose characters are not all ASCII has fewer than ten,
    /// and reading it would run past its end).
    pub fn from_formatted_str(formatted: &str) -> (res: Option<Self>)
        requires
            formatted.len() == 10 ==> formatted.is_ascii(),
        ensures
            res == (if formatted.len() == 10 && formatted@.len() == 10 {
                Some(mode_of_formatted(formatted@))
            } else {
                None
            }),
    {
        if formatted.len() != 10 || formatted.unicode_len() != 10 {
            return None;
        }
        let first = formatted.get_char(0);
        let file_type = if first == 'd' {
            FileType::Directory
        } else if first == '-' {
            FileType::File
        } else if first == 'l' {
            FileType::Link
        } else {
            FileType::Unspecified
        };
        let user_read = formatted.get_char(1) == 'r';
        let user_write = formatted.get_char(2) == 'w';
        let user_exec = formatted.get_char(3) == 'x';
        let group_read = formatted.get_char(4) == 'r';
        let group_write = formatted.get_char(5) == 'w';
        let group_exec = formatted.get_char(6) == 'x';
        let other_read = formatted.get_char(7) == 'r';
        let other_write = formatted.get_char(8) == 'w';
        let other_exec = formatted.get_char(9) == 'x';
        Some(
            FileMode {
                file_type,
                user_read,
                user_write,
                user_exec,
                group_read,
                group_write,
                group_exec,
                other_read,
                other_write,
                other_exec,
            },
        )
    }

    /// The mode of a file of type `file_type` whose permission bits are `mode`
    /// (as `st_mode` holds them; bits above the nine permission bits are ignored).
    pub fn from_u32(file_type: FileType, mode: u32) -> (res: Self)
        ensures
            res == mode_of_bits(file_type, mode),
    {
        let user_read = mode & 0o400 == 0o400;
        let user_write = mode & 0o200 == 0o200;
        let user_exec = mode & 0o100 == 0o100;
        let group_read = mode & 0o040 == 0o040;
        let group_write = mode & 0o020 == 0o020;
        let group_exec = mode & 0o010 == 0o010;
        let other_read = mode & 0o004 == 0o004;
        let other_write = mode & 0o002 == 0o002;
        let other_exec = mode & 0o001 == 0o001;
        FileMode {
            file_type,
            user_read,
            user_write,
            user_exec,
            group_read,
            group_write,
            group_exec,
            other_read,
            other_write,
            other_exec,
        }
    }

    /// The ten-character formatted form of the mode, such as `"drwxr-xr-x"`.
    pub fn as_formatted_string(&self) -> (res: String)
        ensures
            res@ == formatted_of_mode(*self),
    {
        let mut result = String::new();
        let type_char = match self.file_type {
            FileType::Unspecified => '-',
            FileType::Directory => 'd',
            FileType::File => '-',
            FileType::Link => 'l',
        };
        string_push(&mut result, type_char);
        push_flag(&mut result, self.user_read, 'r');
        push_flag(&mut result, self.user_write, 'w');
        push_flag(&mut result, self.user_exec, 'x');
        push_flag(&mut result, self.group_read, 'r');
        push_flag(&mut result, self.group_write, 'w');
        push_flag(&mut result, self.group_exec, 'x');
        push_flag(&mut result, self.other_read, 'r');
        push_flag(&mut result, self.other_write, 'w');
        push_flag(&mut result, self.other_exec, 'x');
        assert(result@ =~= formatted_of_mode(*self));
        result
    }
}

/// The operating systems the directory browser tells apart; only some of them
/// report Unix permission bits.
#[derive(Clone, Copy, Debug, PartialEq, Eq, Structural)]
pub enum Platform {
    Windows,
    Ubuntu,
    Arch,
    CentOS,
    ALTLinux,
    Debian,
    Other,
}

/// Whether file listings on this platform carry Unix permission bits.
pub open spec fn platform_has_modes(p: Platform) -> bool {
    p == Platform::Ubuntu || p == Platform::Arch || p == Platform::CentOS || p == Platform::ALTLinux
        || p == Platform::Debian
}

impl Platform {
    /// Whether file listings on this platform carry Unix permission bits.
    pub fn has_file_modes(&self) -> (res: bool)
        ensures
            res == platform_has_modes(*self),
    {
        match self {
            Platform::Ubuntu | Platform::Arch | Platform::CentOS | Platform::ALTLinux
            | Platform::Debian => true,
            _ => false,
        }
    }
}

/// The type of an entry from what its metadata says: a directory first, then a
/// regular file, then a symbolic link.
pub open spec fn file_type_of_flags(is_dir: bool, is_file: bool, is_symlink: bool) -> FileType {
    if is_dir {
        FileType::Directory
    } else if is_file {
        FileType::File
    } else if is_symlink {
        FileType::Link
    } else {
        FileType::Unspecified
    }
}

/// The entry type from the metadata flags of a directory entry.
pub fn file_type_from_flags(is_dir: bool, is_file: bool, is_symlink: bool) -> (res: FileType)
    ensures
        res == file_type_of_flags(is_dir, is_file, is_symlink),
{
    let mut file_type = FileType::Unspecified;
    if is_dir {
        file_type = FileType::Directory;
    } else if is_file {
        file_type = FileType::File;
    } else if is_symlink {
        file_type = FileType::Link;
    }
    file_type
}

/// Microseconds from 1601-01-01T00:00:00Z to the Unix epoch.
pub open spec fn epoch_1601_offset_micros() -> int {
    11_644_473_600_000_000
}

/// Integer division that rounds toward zero, as Rust's `/` does.
pub open spec fn div_toward_zero(a: int, b: int) -> int {
    if a >= 0 {
        a / b
    } else {
        -((-a) / b)
    }
}

/// The instant `micros` microseconds after 1601-01-01T00:00:00Z, given as
/// microseconds since the Unix epoch. The body builds the chrono date time
/// `Utc.with_ymd_and_hms(1601, 1, 1, 0, 0, 0)`, adds `Duration::microseconds(micros)`
/// and reads `timestamp_micros()`; the contract claims that this is the plain
/// subtraction of the 1601-to-1970 offset, which holds for every admitted input
/// since the result stays within chrono's range of years.
#[verifier::external_body]
fn unix_micros_of_1601_micros(micros: i64) -> (res: i64)
    requires
        -1_000_000_000_000_000_000 <= micros <= 1_000_000_000_000_000_000,
    ensures
        res == micros - epoch_1601_offset_micros(),
{
    (Utc.with_ymd_and_hms(1601, 1, 1, 0, 0, 0).unwrap() + chrono::Duration::microseconds(micros)).timestamp_micros()
}

/// The modification time of a Windows file (`last_write_time`, counted in
/// 100-nanosecond ticks since 1601 and read as a signed number), as microseconds
/// since the Unix epoch.
pub open spec fn unix_micros_of_file_time(last_write_time: u64) -> int {
    div_toward_zero((last_write_time as i64) as int, 10) - epoch_1601_offset_micros()
}

/// Converts a Windows file time to microseconds since the Unix epoch.
pub fn file_time_to_unix_micros(last_write_time: u64) -> (res: i64)
    ensures
        res == unix_micros_of_file_time(last_write_time),
{
    let ticks = last_write_time as i64;
    let micros = ticks / 10;
    unix_micros_of_1601_micros(micros)
}

/// One entry of a directory listing.
#[derive(Debug)]
pub struct FileInfo {
    pub file_name: String,
    pub file_type: FileType,
    /// Last modification, in microseconds since the Unix epoch.
    pub last_modified_time: i64,
    pub file_size: u64,
    /// Permission bits, where the platform reports them.
    pub file_mod: Option<FileMode>,
    pub owner: Option<String>,
    pub group: Option<String>,
}

impl FileInfo {
    /// The listing entry for a file, from what a directory read reports of it:
    /// its name, the type flags of its metadata, its size, its Windows file time,
    /// the platform, and the Unix mode bits where they could be read.
    pub fn from_entry(
        file_name: String,
        is_dir: bool,
        is_file: bool,
        is_symlink: bool,
        file_size: u64,
        last_write_time: u64,
        platform: Platform,
        unix_mode: Option<u32>,
    ) -> (res: FileInfo)
        ensures
            res.file_name@ == file_name@,
            res.file_type == file_type_of_flags(is_dir, is_file, is_symlink),
            res.last_modified_time == unix_micros_of_file_time(last_write_time),
            res.file_size == file_size,
            res.file_mod == (match unix_mode {
                Some(mode) => if platform_has_modes(platform) {
                    Some(mode_of_bits(file_type_of_flags(is_dir, is_file, is_symlink), mode))
                } else {
                    None
                },
                None => None,
            }),
            res.owner is None,
            res.group is None,
    {
        let file_type = file_type_from_flags(is_dir, is_file, is_symlink);
        let last_modified_time = file_time_to_unix_micros(last_write_time);
        let mut file_info = FileInfo {
            file_name,
            file_type,
            last_modified_time,
            file_size,
            file_mod: None,
            owner: None,
            group: None,
        };
        if let Some(mode) = unix_mode {
            if platform.has_file_modes() {
                file_info.file_mod = Some(FileMode::from_u32(file_type, mode));
            }
        }
        file_info
    }
}

/// Reading back a formatted mode gives the mode again, except that an
/// unspecified type is read back as a plain file (both are written `-`).
pub proof fn lemma_format_then_parse(m: FileMode)
    ensures
        mode_of_formatted(formatted_of_mode(m)) == (FileMode {
            file_type: if m.file_type == FileType::Unspecified {
                FileType::File
            } else {
                m.file_type
            },
            ..m
        }),
{
}

/// Formatting the mode read from a canonical formatted string gives that string back.
pub proof fn lemma_parse_then_format(s: Seq<char>)
    requires
        is_canonical_formatted(s),
    ensures
        formatted_of_mode(mode_of_formatted(s)) == s,
{
    assert(formatted_of_mode(mode_of_formatted(s)) =~= s);
}

/// Only the nine permission bits of a numeric mode matter.
pub proof fn lemma_mode_bits_low_nine(file_type: FileType, mode: u32)
    ensures
        mode_of_bits(file_type, mode) == mode_of_bits(file_type, mode & 0o777u32),
{
    assert(mode & 0o400u32 == 0o400u32 <==> (mode & 0o777u32) & 0o400u32 == 0o400u32)
        by (bit_vector);
    assert(mode & 0o200u32 == 0o200u32 <==> (mode & 0o777u32) & 0o200u32 == 0o200u32)
        by (bit_vector);
    assert(mode & 0o100u32 == 0o100u32 <==> (mode & 0o777u32) & 0o100u32 == 0o100u32)
        by (bit_vector);
    assert(mode & 0o040u32 == 0o040u32 <==> (mode & 0o777u32) & 0o040u32 == 0o040u32)
        by (bit_vector);
    assert(mode & 0o020u32 == 0o020u32 <==> (mode & 0o777u32) & 0o020u32 == 0o020u32)
        by (bit_vector);
    assert(mode & 0o010u32 == 0o010u32 <==> (mode & 0o777u32) & 0o010u32 == 0o010u32)
        by (bit_vector);
    assert(mode & 0o004u32 == 0o004u32 <==> (mode & 0o777u32) & 0o004u32 == 0o004u32)
        by (bit_vector);
    assert(mode & 0o002u32 == 0o002u32 <==> (mode & 0o777u32) & 0o002u32 == 0o002u32)
        by (bit_vector);
    assert(mode & 0o001u32 == 0o001u32 <==> (mode & 0o777u32) & 0o001u32 == 0o001u32)
        by (bit_vector);
}

/// Exactly Windows and the platforms that are not recognised list files without
/// permission bits; every recognised Linux distribution lists them.
pub proof fn lemma_platforms_with_modes(p: Platform)
    ensures
        platform_has_modes(p) <==> !(p == Platform::Windows || p == Platform::Other),
{
}

/// Bit `i` of a number (the lowest is bit 0).
pub open spec fn bit_of(mode: u32, i: u32) -> bool {
    (mode >> i) & 1u32 == 1u32
}

/// Each of the nine permission positions of a formatted numeric mode shows its
/// letter exactly when the POSIX bit for it is set: position 1 (owner read)
/// stands for bit 8, and so on down to position 9 (others execute) for bit 0.
/// The letters repeat `r`, `w`, `x` for owner, group and others.
pub proof fn lemma_mode_positions_follow_bits(file_type: FileType, mode: u32)
    ensures
        forall|i: int|
            1 <= i < 10 ==> (#[trigger] formatted_of_mode(mode_of_bits(file_type, mode))[i] != '-'
                <==> bit_of(mode, (9 - i) as u32)),
        forall|i: int|
            1 <= i < 10 && bit_of(mode, (9 - i) as u32) ==> #[trigger] formatted_of_mode(
                mode_of_bits(file_type, mode),
            )[i] == (if i % 3 == 1 {
                'r'
            } else if i % 3 == 2 {
                'w'
            } else {
                'x'
            }),
        formatted_of_mode(mode_of_bits(file_type, mode)).len() == 10,
        formatted_of_mode(mode_of_bits(file_type, mode))[0] == char_of_file_type(file_type),
{
    assert(mode & 0o400u32 == 0o400u32 <==> (mode >> 8u32) & 1u32 == 1u32) by (bit_vector);
    assert(mode & 0o200u32 == 0o200u32 <==> (mode >> 7u32) & 1u32 == 1u32) by (bit_vector);
    assert(mode & 0o100u32 == 0o100u32 <==> (mode >> 6u32) & 1u32 == 1u32) by (bit_vector);
    assert(mode & 0o040u32 == 0o040u32 <==> (mode >> 5u32) & 1u32 == 1u32) by (bit_vector);
    assert(mode & 0o020u32 == 0o020u32 <==> (mode >> 4u32) & 1u32 == 1u32) by (bit_vector);
    assert(mode & 0o010u32 == 0o010u32 <==> (mode >> 3u32) & 1u32 == 1u32) by (bit_vector);
    assert(mode & 0o004u32 == 0o004u32 <==> (mode >> 2u32) & 1u32 == 1u32) by (bit_vector);
    assert(mode & 0o002u32 == 0o002u32 <==> (mode >> 1u32) & 1u32 == 1u32) by (bit_vector);
    assert(mode & 0o001u32 == 0o001u32 <==> (mode >> 0u32) & 1u32 == 1u32) by (bit_vector);
    let s = formatted_of_mode(mode_of_bits(file_type, mode));
    assert forall|i: int| 1 <= i < 10 implies (#[trigger] s[i] != '-' <==> bit_of(mode, (9 - i) as u32))
        && (bit_of(mode, (9 - i) as u32) ==> s[i] == (if i % 3 == 1 {
            'r'
        } else if i % 3 == 2 {
            'w'
        } else {
            'x'
        })) by {
        if i == 1 {
        } else if i == 2 {
        } else if i == 3 {
        } else if i == 4 {
        } else if i == 5 {
        } else if i == 6 {
        } else if i == 7 {
        } else if i == 8 {
        } else {
        }
    }
}

} // verus!
