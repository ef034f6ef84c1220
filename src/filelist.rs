use vstd::prelude::*;
use vstd::string::StringSliceAdditionalSpecFns;

use crate::cstr::{first_nul, has_nul, nul_index};
use crate::error::{Error, Result};

verus! {

/// One file of a package: its path within the package, its size in bytes and
/// its mode bits.
#[derive(Debug)]
pub struct File {
    name: String,
    size: i64,
    mode: u32,
}

impl File {
    /// The file's path, as text.
    pub closed spec fn name_view(&self) -> Seq<char> {
        self.name@
    }

    /// The file's size in bytes.
    pub closed spec fn size_view(&self) -> i64 {
        self.size
    }

    /// The file's mode bits.
    pub closed spec fn mode_view(&self) -> u32 {
        self.mode
    }

    /// A file record with these fields.
    pub fn new(name: String, size: i64, mode: u32) -> (r: File)
        ensures
            r.name_view() == name@,
            r.size_view() == size,
            r.mode_view() == mode,
    {
        File { name, size, mode }
    }

    /// The file's path within the package.
    pub fn name(&self) -> (r: &str)
        ensures
            r@ == self.name_view(),
    {
        self.name.as_str()
    }

    /// The file's size in bytes.
    pub fn size(&self) -> (r: i64)
        ensures
            r == self.size_view(),
    {
        self.size
    }

    /// The file's mode bits.
    pub fn mode(&self) -> (r: u32)
        ensures
            r == self.mode_view(),
    {
        self.mode
    }

    /// A record with the same fields.
    pub fn duplicate(&self) -> (r: File)
        ensures
            r == *self,
    {
        File { name: self.name.clone(), size: self.size, mode: self.mode }
    }
}

/// Whether `k` is the first position in `files` of a file named `path`.
pub open spec fn is_first_named(files: Seq<File>, path: Seq<char>, k: int) -> bool {
    &&& 0 <= k < files.len()
    &&& files[k].name_view() == path
    &&& forall|j: int| 0 <= j < k ==> files[j].name_view() != path
}

/// Whether some file of `files` is named `path`.
pub open spec fn has_file_named(files: Seq<File>, path: Seq<char>) -> bool {
    exists|k: int| 0 <= k < files.len() && files[k].name_view() == path
}

/// The files of a package, in the order the package lists them; an absent
/// list is an empty one.
#[derive(Debug)]
pub struct FileList {
    files: Vec<File>,
}

impl View for FileList {
    type V = Seq<File>;

    closed spec fn view(&self) -> Seq<File> {
        self.files@
    }
}

impl FileList {
    /// The list of these files, in order.
    pub fn new(files: Vec<File>) -> (r: FileList)
        ensures
            r@ == files@,
    {
        FileList { files }
    }

    /// The files, in order.
    pub fn files(&self) -> (r: &[File])
        ensures
            r@ == self@,
    {
        self.files.as_slice()
    }

    /// Looks a path up: the file of exactly that name, or none where no file
    /// has it. A path that holds a nul byte cannot name a file; it is refused
    /// with the position of that byte.
    pub fn contains(&self, path: &str) -> (r: Result<Option<File>>)
        ensures
            has_nul(path.spec_bytes()) ==> r == Err::<Option<File>, Error>(
                Error::NulByte(nul_index(path.spec_bytes()) as usize),
            ),
            !has_nul(path.spec_bytes()) ==> r is Ok,
            r == Ok::<Option<File>, Error>(None) <==> (!has_nul(path.spec_bytes())
                && !has_file_named(self@, path@)),
            r matches Ok(Some(f)) ==> exists|k: int|
                is_first_named(self@, path@, k) && f == self@[k],
    {
        let bytes: &[u8] = path.as_bytes();
        let nul = first_nul(bytes);
        if let Some(i) = nul {
            return Err(Error::NulByte(i));
        }
        assert(!has_nul(path.spec_bytes()));
        let target: String = path.to_owned();
        let mut i: usize = 0;
        while i < self.files.len()
            invariant
                i <= self@.len(),
                target@ == path@,
                !has_nul(path.spec_bytes()),
                forall|j: int| 0 <= j < i ==> self@[j].name_view() != path@,
            decreases self@.len() - i,
        {
            if self.files[i].name == target {
                let f = self.files[i].duplicate();
                proof {
                    assert(is_first_named(self@, path@, i as int));
                }
                return Ok(Some(f));
            }
            i = i + 1;
        }
        Ok(None)
    }
}

} // verus!
