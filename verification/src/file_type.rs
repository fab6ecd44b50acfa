//! The kinds of entry that a test case can ask for.

use vstd::prelude::*;
use vstd::string::*;

verus! {

/// A kind of filesystem entry.
#[derive(Debug, PartialEq, Eq)]
pub enum FileType {
    /// A regular file.
    Regular,
    /// A directory.
    Dir,
    /// A named pipe.
    Fifo,
    /// A block device, with its major and minor number.
    Block(u64, u64),
    /// A character device, with its major and minor number.
    Char(u64, u64),
    /// A socket.
    Socket,
    /// A symbolic link, with the path it points to if that matters.
    Symlink(Option<String>),
}

/// `FileType` with a link's target as a character sequence.
pub enum FileKind {
    Regular,
    Dir,
    Fifo,
    Block(u64, u64),
    Char(u64, u64),
    Socket,
    Symlink(Option<Seq<char>>),
}

impl View for FileType {
    type V = FileKind;

    open spec fn view(&self) -> FileKind {
        match self {
            FileType::Regular => FileKind::Regular,
            FileType::Dir => FileKind::Dir,
            FileType::Fifo => FileKind::Fifo,
            FileType::Block(major, minor) => FileKind::Block(*major, *minor),
            FileType::Char(major, minor) => FileKind::Char(*major, *minor),
            FileType::Socket => FileKind::Socket,
            FileType::Symlink(target) => FileKind::Symlink(
                match target {
                    Some(target) => Some(target@),
                    None => None,
                },
            ),
        }
    }
}

impl Clone for FileType {
    fn clone(&self) -> (copy: Self)
        ensures
            copy@ == self@,
    {
        match self {
            FileType::Regular => FileType::Regular,
            FileType::Dir => FileType::Dir,
            FileType::Fifo => FileType::Fifo,
            FileType::Block(major, minor) => FileType::Block(*major, *minor),
            FileType::Char(major, minor) => FileType::Char(*major, *minor),
            FileType::Socket => FileType::Socket,
            FileType::Symlink(target) => FileType::Symlink(
                match target {
                    Some(target) => Some(target.clone()),
                    None => None,
                },
            ),
        }
    }
}

impl FileKind {
    /// Whether only the super-user can create an entry of this kind: true of
    /// the two kinds of device.
    pub open spec fn privileged(self) -> bool {
        self is Block || self is Char
    }

    /// The word for this kind in the name of a test case.
    pub open spec fn label(self) -> Seq<char> {
        match self {
            FileKind::Regular => "regular"@,
            FileKind::Dir => "dir"@,
            FileKind::Fifo => "fifo"@,
            FileKind::Block(_, _) => "block"@,
            FileKind::Char(_, _) => "char"@,
            FileKind::Socket => "socket"@,
            FileKind::Symlink(_) => "symlink"@,
        }
    }

    /// The permission bits that an entry of this kind is created with when
    /// the test case names none: those of `rwxr-xr-x` for a directory, those
    /// of `rw-r--r--` for a file, a pipe or a device. A socket or a link gets
    /// whatever the system gives it.
    pub open spec fn default_mode(self) -> Option<u32> {
        match self {
            FileKind::Dir => Some(0o755u32),
            FileKind::Regular | FileKind::Fifo | FileKind::Block(_, _) | FileKind::Char(_, _) => Some(
                0o644u32,
            ),
            FileKind::Socket | FileKind::Symlink(_) => None,
        }
    }

    /// The major and minor number of a device; nothing for any other kind.
    pub open spec fn device(self) -> Option<(u64, u64)> {
        match self {
            FileKind::Block(major, minor) => Some((major, minor)),
            FileKind::Char(major, minor) => Some((major, minor)),
            _ => None,
        }
    }
}

impl FileType {
    /// Whether only the super-user can create an entry of this kind.
    pub fn privileged(&self) -> (privileged: bool)
        ensures
            privileged == self@.privileged(),
    {
        match self {
            FileType::Block(_, _) | FileType::Char(_, _) => true,
            _ => false,
        }
    }

    /// The word for this kind in the name of a test case.
    pub fn label(&self) -> (name: &'static str)
        ensures
            name@ == self@.label(),
    {
        match self {
            FileType::Regular => "regular",
            FileType::Dir => "dir",
            FileType::Fifo => "fifo",
            FileType::Block(_, _) => "block",
            FileType::Char(_, _) => "char",
            FileType::Socket => "socket",
            FileType::Symlink(_) => "symlink",
        }
    }

    /// The permission bits that an entry of this kind is created with when
    /// the test case names none.
    pub fn default_mode(&self) -> (mode: Option<u32>)
        ensures
            mode == self@.default_mode(),
    {
        match self {
            FileType::Dir => Some(0o755),
            FileType::Regular | FileType::Fifo | FileType::Block(_, _) | FileType::Char(_, _) => Some(
                0o644,
            ),
            FileType::Socket | FileType::Symlink(_) => None,
        }
    }

    /// The major and minor number of a device; nothing for any other kind.
    pub fn device(&self) -> (numbers: Option<(u64, u64)>)
        ensures
            numbers == self@.device(),
    {
        match self {
            FileType::Block(major, minor) => Some((*major, *minor)),
            FileType::Char(major, minor) => Some((*major, *minor)),
            _ => None,
        }
    }
}

/// Two kinds with the same word in a test case's name differ at most in what
/// they carry: the numbers of a device or the target of a link.
pub proof fn lemma_labels_distinct(a: FileKind, b: FileKind)
    requires
        a.label() == b.label(),
    ensures
        a is Regular <==> b is Regular,
        a is Dir <==> b is Dir,
        a is Fifo <==> b is Fifo,
        a is Block <==> b is Block,
        a is Char <==> b is Char,
        a is Socket <==> b is Socket,
        a is Symlink <==> b is Symlink,
{
    reveal_strlit("regular");
    reveal_strlit("dir");
    reveal_strlit("fifo");
    reveal_strlit("block");
    reveal_strlit("char");
    reveal_strlit("socket");
    reveal_strlit("symlink");
    let x = a.label();
    let y = b.label();
    assert(x.len() == y.len() && x[0] == y[0]);
}

} // verus!
