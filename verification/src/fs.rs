//! Paths and the typed views of filesystem objects.
//!
//! A path is a string split on `/`.  Walking its components is the one
//! piece of real logic here: a leading separator yields the root
//! component, `.` and `..` yield the current- and parent-directory
//! components, and everything else is a real name.  The specification
//! functions pin down where each separator sits and what each component
//! covers, so the walk is verified character by character.

use crate::handle::{OwnedHandle, SharedHandle};
use crate::result::{Error, spec_error_of};
use crate::sys::fs::FileHandle;
use crate::sys::handle::HandlePtr;
use crate::sys::kstr::KStrCPtr;
use crate::sys::result::{ALREADY_EXISTS, DOES_NOT_EXIST, INSUFFICIENT_LENGTH, SysResult};
use crate::time::{SystemClock, TimePoint};
use vstd::prelude::*;
use vstd::string::StrSliceExecFns;
use vstd::string::StringSliceAdditionalSpecFns;

verus! {

/// An owned handle to an open file.
pub struct OwnedFile(pub OwnedHandle<FileHandle>);

impl OwnedFile {
    /// The handle token itself.
    pub fn as_raw(&self) -> (r: HandlePtr<FileHandle>)
        ensures
            r == self.0.0.0,
    {
        self.0.as_raw()
    }
}

/// A file handle shared across the threads of the process.
pub struct SharedFile(pub SharedHandle<FileHandle>);

/// A borrowed path: a string whose `/`-separated pieces are its
/// components.
#[derive(Copy, Clone)]
pub struct Path<'a>(pub &'a str);

impl<'a> View for Path<'a> {
    type V = Seq<char>;

    open spec fn view(&self) -> Seq<char> {
        self.0@
    }
}

/// One piece of a path walk.
#[derive(Copy, Clone)]
pub enum Component<'a> {
    /// A real name.
    RealPath(Path<'a>),
    /// The leading separator of an absolute path.
    Root,
    /// The `.` component.
    CurDir,
    /// The `..` component.
    ParentDir,
}

impl<'a> Component<'a> {
    /// The component's text: real names as themselves, the special
    /// components as their canonical spellings.
    pub fn as_str(&self) -> (r: &'a str)
        ensures
            match *self {
                Component::RealPath(p) => r == p.0,
                Component::Root => r@ =~= seq!['/'],
                Component::CurDir => r@ =~= seq!['.'],
                Component::ParentDir => r@ =~= seq!['.', '.'],
            },
    {
        proof {
            reveal_strlit("/");
            reveal_strlit(".");
            reveal_strlit("..");
        }
        match self {
            Component::RealPath(p) => p.0,
            Component::Root => "/",
            Component::CurDir => ".",
            Component::ParentDir => "..",
        }
    }
}

/// The first position at or after `i` holding a separator, or the length
/// when there is none.
pub open spec fn spec_find_slash(s: Seq<char>, i: int) -> int
    decreases s.len() - i when 0 <= i <= s.len()
{
    if i >= s.len() {
        s.len() as int
    } else if s[i] == '/' {
        i
    } else {
        spec_find_slash(s, i + 1)
    }
}

pub proof fn lemma_find_slash_at(s: Seq<char>, i: int, j: int)
    requires
        0 <= i <= j <= s.len(),
        forall|k: int| i <= k < j ==> s[k] != '/',
        j == s.len() || s[j] == '/',
    ensures
        spec_find_slash(s, i) == j,
    decreases j - i,
{
    if i < j {
        lemma_find_slash_at(s, i + 1, j);
    }
}

/// The position of the last separator, or minus one when there is none.
pub open spec fn spec_last_slash(s: Seq<char>) -> int
    decreases s.len(),
{
    if s.len() == 0 {
        -1
    } else if s.last() == '/' {
        s.len() - 1
    } else {
        spec_last_slash(s.drop_last())
    }
}

pub proof fn lemma_last_slash_scan(s: Seq<char>, i: int)
    requires
        0 <= i <= s.len(),
        forall|k: int| i <= k < s.len() ==> s[k] != '/',
    ensures
        spec_last_slash(s) == spec_last_slash(s.take(i)),
    decreases s.len() - i,
{
    if i == s.len() {
        assert(s.take(i) =~= s);
    } else {
        assert(s.last() != '/');
        lemma_last_slash_scan(s.drop_last(), i);
        assert(s.drop_last().take(i) =~= s.take(i));
    }
}

impl<'a> Path<'a> {
    /// Wraps a string as a path.
    pub fn new(s: &'a str) -> (r: Path<'a>)
        ensures
            r.0 == s,
    {
        Path(s)
    }

    /// The path's text.
    pub fn as_str(&self) -> (r: &'a str)
        ensures
            r == self.0,
    {
        self.0
    }

    /// The text after the last separator, or nothing when the path has no
    /// separator at all.
    pub fn file_name(&self) -> (r: Option<Path<'a>>)
        ensures
            match r {
                Some(p) => spec_last_slash(self@) >= 0 && p@ == self@.subrange(
                    spec_last_slash(self@) + 1,
                    self@.len() as int,
                ),
                None => spec_last_slash(self@) == -1,
            },
    {
        let n = self.0.unicode_len();
        let mut i = n;
        while i > 0 && self.0.get_char(i - 1) != '/'
            invariant
                0 <= i <= n,
                n == self@.len(),
                forall|k: int| i <= k < n ==> self@[k] != '/',
            decreases i,
        {
            i = i - 1;
        }
        proof {
            lemma_last_slash_scan(self@, i as int);
        }
        if i == 0 {
            None
        } else {
            assert(self@.take(i as int).last() == self@[i - 1]);
            Some(Path(self.0.substring_char(i, n)))
        }
    }

    /// A walk over the path's components, starting with the root component
    /// when the path begins with a separator.
    pub fn components(&self) -> (r: Components<'a>)
        ensures
            r.path == self.0,
            r.pos == 0,
            r.exhausted == false,
            r.next_is_root == (self@.len() > 0 && self@[0] == '/'),
            r.wf(),
    {
        let n = self.0.unicode_len();
        let next_is_root = n > 0 && self.0.get_char(0) == '/';
        Components { path: self.0, pos: 0, next_is_root, exhausted: false }
    }

    /// An owned copy of the path.
    pub fn to_path_buf(&self) -> (r: PathBuf)
        ensures
            r@ == self@,
    {
        PathBuf(self.0.to_owned())
    }

    /// The path's length in bytes.
    pub fn len(&self) -> (r: usize)
        ensures
            r == self.0.spec_bytes().len() as usize,
    {
        self.0.len()
    }

    /// The path's text as a kernel string record.
    pub fn to_kstr_raw(&self) -> (r: KStrCPtr<'a>)
        ensures
            r.s == self.0,
    {
        KStrCPtr::from_str(self.0)
    }
}

/// A walk over a path's components.
pub struct Components<'a> {
    /// The path being walked.
    pub path: &'a str,
    /// The position the next component starts at.
    pub pos: usize,
    /// Whether the next component is the root component.
    pub next_is_root: bool,
    /// Whether the walk has handed out its last component.
    pub exhausted: bool,
}

impl<'a> Components<'a> {
    /// The position never leaves the path.
    pub open spec fn wf(self) -> bool {
        self.pos <= self.path@.len()
    }

    /// Hands out the next component: the piece up to the next separator,
    /// classified as root, `.`, `..`, or a real name.
    pub fn next(&mut self) -> (r: Option<Component<'a>>)
        requires
            old(self).wf(),
        ensures
            final(self).wf(),
            final(self).path == old(self).path,
            old(self).exhausted ==> r is None && *final(self) == *old(self),
            !old(self).exhausted ==> {
                let s = old(self).path@;
                let j = spec_find_slash(s, old(self).pos as int);
                let piece = s.subrange(old(self).pos as int, j);
                &&& final(self).next_is_root == false
                &&& (j < s.len() ==> final(self).pos == j + 1 && !final(self).exhausted)
                &&& (j == s.len() ==> final(self).exhausted)
                &&& match r {
                    Some(c) => match c {
                        Component::Root => old(self).next_is_root,
                        Component::CurDir => !old(self).next_is_root && piece =~= seq!['.'],
                        Component::ParentDir => !old(self).next_is_root && piece =~= seq![
                            '.',
                            '.',
                        ],
                        Component::RealPath(p) => !old(self).next_is_root && p@ == piece && !(piece
                            =~= seq!['.']) && !(piece =~= seq!['.', '.']),
                    },
                    None => false,
                }
            },
    {
        if self.exhausted {
            return None;
        }
        let n = self.path.unicode_len();
        let start = self.pos;
        let mut j = start;
        while j < n && self.path.get_char(j) != '/'
            invariant
                start <= j <= n,
                n == self.path@.len(),
                forall|k: int| start <= k < j ==> self.path@[k] != '/',
            decreases n - j,
        {
            j = j + 1;
        }
        proof {
            lemma_find_slash_at(self.path@, start as int, j as int);
        }
        let is_root = self.next_is_root;
        self.next_is_root = false;
        let plen = j - start;
        let c: Component<'a> = if is_root {
            Component::Root
        } else if plen == 1 && self.path.get_char(start) == '.' {
            proof {
                assert(self.path@.subrange(start as int, j as int) =~= seq!['.']);
            }
            Component::CurDir
        } else if plen == 2 && self.path.get_char(start) == '.' && self.path.get_char(start + 1)
            == '.' {
            proof {
                assert(self.path@.subrange(start as int, j as int) =~= seq!['.', '.']);
            }
            Component::ParentDir
        } else {
            proof {
                let piece = self.path@.subrange(start as int, j as int);
                if piece =~= seq!['.'] {
                    assert(piece[0] == self.path@[start as int]);
                    assert(false);
                }
                if piece =~= seq!['.', '.'] {
                    assert(piece[0] == self.path@[start as int]);
                    assert(piece[1] == self.path@[start + 1]);
                    assert(false);
                }
            }
            Component::RealPath(Path(self.path.substring_char(start, j)))
        };
        if j < n {
            self.pos = j + 1;
        } else {
            self.pos = j;
            self.exhausted = true;
        }
        Some(c)
    }
}

/// An owned path.
#[derive(Clone, Debug, PartialEq, Eq)]
pub struct PathBuf(pub String);

impl View for PathBuf {
    type V = Seq<char>;

    open spec fn view(&self) -> Seq<char> {
        self.0@
    }
}

impl PathBuf {
    /// The empty path.
    pub fn new() -> (r: PathBuf)
        ensures
            r@.len() == 0,
    {
        PathBuf(String::new())
    }

    /// Wraps a string as an owned path.
    pub fn from_string(s: String) -> (r: PathBuf)
        ensures
            r.0 == s,
    {
        PathBuf(s)
    }

    /// The path's text, given back.
    pub fn into_string(self) -> (r: String)
        ensures
            r == self.0,
    {
        self.0
    }

    /// A borrowed view of the path.
    pub fn as_path(&self) -> (r: Path<'_>)
        ensures
            r@ == self@,
    {
        Path(self.0.as_str())
    }
}

/// What kind of object a directory entry names.
#[derive(Copy, Clone, Debug, Hash, PartialEq, Eq, Structural)]
pub struct FileType(pub u16);

impl FileType {
    /// A regular file.
    pub fn is_file(&self) -> (r: bool)
        ensures
            r == (self.0 == 0),
    {
        self.0 == 0
    }

    /// A directory.
    pub fn is_dir(&self) -> (r: bool)
        ensures
            r == (self.0 == 1),
    {
        self.0 == 1
    }

    /// A symbolic link.
    pub fn is_symlink(&self) -> (r: bool)
        ensures
            r == (self.0 == 2),
    {
        self.0 == 2
    }

    /// A named pipe.
    pub fn is_fifo(&self) -> (r: bool)
        ensures
            r == (self.0 == 3),
    {
        self.0 == 3
    }

    /// A socket.
    pub fn is_socket(&self) -> (r: bool)
        ensures
            r == (self.0 == 4),
    {
        self.0 == 4
    }

    /// A block device.
    pub fn is_block_device(&self) -> (r: bool)
        ensures
            r == (self.0 == 5),
    {
        self.0 == 5
    }

    /// A character device.
    pub fn is_char_device(&self) -> (r: bool)
        ensures
            r == (self.0 == 6),
    {
        self.0 == 6
    }

    /// A filesystem-specific object kind.
    pub fn is_custom(&self) -> (r: bool)
        ensures
            r == (self.0 == 65535),
    {
        self.0 == 65535
    }
}

/// One piece of an object's metadata.
#[derive(Clone, Debug, PartialEq, Eq)]
pub enum MetadataEntry {
    /// When the object was last read.
    AccessTime(TimePoint<SystemClock>),
    /// When the object was created.
    CreationTime(TimePoint<SystemClock>),
    /// When the object was last written.
    ModificationTime(TimePoint<SystemClock>),
    /// What created the object.
    CreatedBy(String),
    /// An entry this layer does not interpret.
    Unknown(String),
}

/// An object's metadata, as read from its directory entry.
pub struct Metadata {
    /// The entries read.
    pub entries: Vec<MetadataEntry>,
    /// What kind of object this is.
    pub file_type: FileType,
    /// The name of a filesystem-specific kind.
    pub custom_ty: Option<String>,
    /// The object's permissions.
    pub permissions: Permissions,
}

/// An object's access-control list, held through a file handle.
pub struct Permissions(pub OwnedFile);

impl Permissions {
    /// Present for interface parity: the platform expresses read-only
    /// protection through its access-control lists, so this changes
    /// nothing.
    pub fn set_readonly(&mut self, readonly: bool)
        ensures
            *final(self) == *old(self),
    {
    }
}

/// One entry handed out by a directory walk.
pub struct DirEntry(pub OwnedFile);

/// What a directory-creating walk does after trying to open one component
/// as a directory.
#[derive(Copy, Clone, PartialEq, Eq, Debug, Structural)]
pub enum DirOpenStep {
    /// The component exists; descend into it and take the next component.
    Descend,
    /// The component does not exist; try to create it.
    TryCreate,
    /// The walk fails with this error.
    Fail(Error),
}

/// Classifies the result of opening one component while creating a
/// directory tree: only a missing component leads to creation, and every
/// other error ends the walk.
pub fn create_dir_open_decision(code: SysResult) -> (r: DirOpenStep)
    ensures
        code >= 0 ==> r is Descend,
        code == DOES_NOT_EXIST ==> r is TryCreate,
        code < 0 && code != DOES_NOT_EXIST ==> r == DirOpenStep::Fail(spec_error_of(code)),
{
    if code >= 0 {
        DirOpenStep::Descend
    } else if code == DOES_NOT_EXIST {
        DirOpenStep::TryCreate
    } else {
        match Error::from_code(code) {
            Ok(_) => DirOpenStep::Descend,
            Err(e) => DirOpenStep::Fail(e),
        }
    }
}

/// What a directory-creating walk does after trying to create one missing
/// component.
#[derive(Copy, Clone, PartialEq, Eq, Debug, Structural)]
pub enum DirCreateStep {
    /// Created; descend into it and take the next component.
    Descend,
    /// Another thread created it first; open it again.
    RetryOpen,
    /// The walk fails with this error.
    Fail(Error),
}

/// Classifies the result of creating one missing component: losing the
/// race to another creator is absorbed by reopening, and every other error
/// ends the walk.
pub fn create_dir_create_decision(code: SysResult) -> (r: DirCreateStep)
    ensures
        code >= 0 ==> r is Descend,
        code == ALREADY_EXISTS ==> r is RetryOpen,
        code < 0 && code != ALREADY_EXISTS ==> r == DirCreateStep::Fail(spec_error_of(code)),
{
    if code >= 0 {
        DirCreateStep::Descend
    } else if code == ALREADY_EXISTS {
        DirCreateStep::RetryOpen
    } else {
        match Error::from_code(code) {
            Ok(_) => DirCreateStep::Descend,
            Err(e) => DirCreateStep::Fail(e),
        }
    }
}

/// What a link-reading call does with one result: the target is in hand,
/// the buffer was too small and the call must be reissued with the length
/// the kernel reported, or the read failed.
#[derive(Copy, Clone, PartialEq, Eq, Debug, Structural)]
pub enum LinkReadStep {
    /// The buffer holds the whole target.
    Done,
    /// Grow the buffer to the reported length and reissue the call.
    Grow,
    /// The read fails with this error.
    Fail(Error),
}

/// Classifies one result of reading a symbolic link into a buffer of
/// `capacity` bytes, where the kernel wrote back `reported_len`.
pub fn read_link_decision(code: SysResult, reported_len: usize, capacity: usize) -> (r:
    LinkReadStep)
    ensures
        code >= 0 && reported_len <= capacity ==> r is Done,
        code >= 0 && reported_len > capacity ==> r is Grow,
        code == INSUFFICIENT_LENGTH ==> r is Grow,
        code < 0 && code != INSUFFICIENT_LENGTH ==> r == LinkReadStep::Fail(spec_error_of(code)),
{
    if code >= 0 {
        if reported_len <= capacity {
            LinkReadStep::Done
        } else {
            LinkReadStep::Grow
        }
    } else if code == INSUFFICIENT_LENGTH {
        LinkReadStep::Grow
    } else {
        match Error::from_code(code) {
            Ok(_) => LinkReadStep::Done,
            Err(e) => LinkReadStep::Fail(e),
        }
    }
}

} // verus!
